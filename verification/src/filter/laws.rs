//! What holds of evaluation and selection for every expression and record.

use crate::date::Date;
use crate::filter::ast::ExprView;
use crate::filter::engine::selected;
use crate::filter::eval::{holds, reads_clock};
use crate::things::types::{RecordView, Todo};
use vstd::prelude::*;

verus! {

/// The operands of `And` can change places: the result is the same for every
/// record, on every day.
pub proof fn law_and_commutes(a: ExprView, b: ExprView, record: RecordView, today: Date)
    ensures
        holds(ExprView::And(Box::new(a), Box::new(b)), record, today) == holds(
            ExprView::And(Box::new(b), Box::new(a)),
            record,
            today,
        ),
{
}

/// The operands of `Or` can change places too.
pub proof fn law_or_commutes(a: ExprView, b: ExprView, record: RecordView, today: Date)
    ensures
        holds(ExprView::Or(Box::new(a), Box::new(b)), record, today) == holds(
            ExprView::Or(Box::new(b), Box::new(a)),
            record,
            today,
        ),
{
}

/// An expression that names neither `today` nor `tomorrow` holds of the same
/// records on every day.
pub proof fn law_result_depends_on_the_day_only_through_date_words(
    e: ExprView,
    record: RecordView,
    one_day: Date,
    other_day: Date,
)
    requires
        !reads_clock(e),
    ensures
        holds(e, record, one_day) == holds(e, record, other_day),
    decreases e,
{
    match e {
        ExprView::Comparison { field, operator, literal } => {},
        ExprView::And(a, b) => {
            law_result_depends_on_the_day_only_through_date_words(*a, record, one_day, other_day);
            law_result_depends_on_the_day_only_through_date_words(*b, record, one_day, other_day);
        },
        ExprView::Or(a, b) => {
            law_result_depends_on_the_day_only_through_date_words(*a, record, one_day, other_day);
            law_result_depends_on_the_day_only_through_date_words(*b, record, one_day, other_day);
        },
        ExprView::Not(a) => {
            law_result_depends_on_the_day_only_through_date_words(*a, record, one_day, other_day);
        },
    }
}

/// An expression that names neither `today` nor `tomorrow` selects the same
/// records on every day.
pub proof fn law_selection_depends_on_the_day_only_through_date_words(
    records: Seq<Todo>,
    e: ExprView,
    one_day: Date,
    other_day: Date,
)
    requires
        !reads_clock(e),
    ensures
        selected(records, e, one_day) == selected(records, e, other_day),
    decreases records.len(),
{
    if records.len() > 0 {
        law_selection_depends_on_the_day_only_through_date_words(
            records.drop_last(),
            e,
            one_day,
            other_day,
        );
        law_result_depends_on_the_day_only_through_date_words(
            e,
            records.last().record(),
            one_day,
            other_day,
        );
    }
}

/// De Morgan: `NOT (a AND b)` holds of exactly the records of which
/// `(NOT a) OR (NOT b)` holds.
pub proof fn law_de_morgan(a: ExprView, b: ExprView, record: RecordView, today: Date)
    ensures
        holds(ExprView::Not(Box::new(ExprView::And(Box::new(a), Box::new(b)))), record, today)
            == holds(
            ExprView::Or(
                Box::new(ExprView::Not(Box::new(a))),
                Box::new(ExprView::Not(Box::new(b))),
            ),
            record,
            today,
        ),
{
    reveal_with_fuel(holds, 3);
}

/// Whether `places` picks `part` out of `whole`: one position of `whole` for
/// each record of `part`, the positions strictly rising.
pub open spec fn picks(places: Seq<int>, part: Seq<Todo>, whole: Seq<Todo>) -> bool {
    &&& places.len() == part.len()
    &&& forall|k: int| 0 <= k < places.len() ==> 0 <= #[trigger] places[k] < whole.len()
    &&& forall|j: int, k: int| 0 <= j < k < places.len() ==> places[j] < places[k]
    &&& forall|k: int| 0 <= k < part.len() ==> #[trigger] part[k] == whole[places[k]]
}

/// The places of `records` from which the selection takes its records.
pub open spec fn selected_places(records: Seq<Todo>, e: ExprView, today: Date) -> Seq<int>
    decreases records.len(),
{
    if records.len() == 0 {
        Seq::empty()
    } else {
        let rest = selected_places(records.drop_last(), e, today);
        if holds(e, records.last().record(), today) {
            rest.push(records.len() - 1)
        } else {
            rest
        }
    }
}

/// A selection is made of records of the input, each taken from a place of
/// its own, in the order of the input; so it is never longer than the input.
/// It holds every record that satisfies the expression, and no other.
pub proof fn law_selection_is_ordered_part(records: Seq<Todo>, e: ExprView, today: Date)
    ensures
        picks(selected_places(records, e, today), selected(records, e, today), records),
        selected(records, e, today).len() <= records.len(),
        forall|k: int|
            0 <= k < selected(records, e, today).len() ==> holds(
                e,
                (#[trigger] selected(records, e, today)[k]).record(),
                today,
            ),
        forall|i: int|
            0 <= i < records.len() && holds(e, (#[trigger] records[i]).record(), today)
                ==> selected_places(records, e, today).contains(i),
    decreases records.len(),
{
    if records.len() > 0 {
        let shorter = records.drop_last();
        law_selection_is_ordered_part(shorter, e, today);
        let places = selected_places(records, e, today);
        let before = selected_places(shorter, e, today);
        assert forall|i: int|
            0 <= i < records.len() && holds(e, records[i].record(), today) implies places.contains(
            i,
        ) by {
            if i < records.len() - 1 {
                assert(shorter[i] == records[i]);
                assert(holds(e, shorter[i].record(), today));
                assert(before.contains(i));
                let k = choose|k: int| 0 <= k < before.len() && before[k] == i;
                assert(places[k] == i);
            } else {
                assert(places[places.len() - 1] == i);
            }
        }
    }
}

/// Selecting from a selection, with the same expression on the same day,
/// changes nothing.
pub proof fn law_selection_is_idempotent(records: Seq<Todo>, e: ExprView, today: Date)
    ensures
        selected(selected(records, e, today), e, today) == selected(records, e, today),
    decreases records.len(),
{
    if records.len() > 0 {
        let shorter = records.drop_last();
        law_selection_is_idempotent(shorter, e, today);
        if holds(e, records.last().record(), today) {
            let once = selected(records, e, today);
            assert(once.drop_last() =~= selected(shorter, e, today));
            assert(once.last() == records.last());
        }
    }
}

/// Nothing is selected from no records, whatever the expression.
pub proof fn law_empty_selection(e: ExprView, today: Date)
    ensures
        selected(Seq::<Todo>::empty(), e, today) == Seq::<Todo>::empty(),
{
}

} // verus!
