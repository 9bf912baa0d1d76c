//! The `stats` command: which view to show, and the counts behind the
//! views that count completions by day.

use crate::cli::args::StatsArgs;
use crate::date::{Date, days_before};
use vstd::prelude::*;

verus! {

/// What the `stats` command shows.
#[derive(Clone, Copy, Debug, PartialEq, Eq, Structural)]
pub enum StatsView {
    /// How many to-dos were completed on each of the last `days` days.
    Trends { days: usize },
    /// The completions of the last `weeks` weeks, as a calendar.
    Heatmap { weeks: usize },
    /// Everything at a glance.
    Dashboard,
}

/// What the `stats` command shows for `args`: the trends where they are
/// asked for, else the heatmap where it is asked for, and else the
/// dashboard.
pub fn stats(args: &StatsArgs) -> (r: StatsView)
    ensures
        r == if args.trends {
            StatsView::Trends { days: args.days }
        } else if args.heatmap {
            StatsView::Heatmap { weeks: args.weeks }
        } else {
            StatsView::Dashboard
        },
{
    if args.trends {
        StatsView::Trends { days: args.days }
    } else if args.heatmap {
        StatsView::Heatmap { weeks: args.weeks }
    } else {
        StatsView::Dashboard
    }
}

/// How many of `completions` fall on `day`.
pub open spec fn count_on(completions: Seq<Date>, day: Date) -> nat
    decreases completions.len(),
{
    if completions.len() == 0 {
        0
    } else {
        count_on(completions.drop_last(), day) + if completions.last() == day {
            1nat
        } else {
            0nat
        }
    }
}

/// A count is at most the number of what is counted.
pub proof fn lemma_count_bound(completions: Seq<Date>, day: Date)
    ensures
        count_on(completions, day) <= completions.len(),
    decreases completions.len(),
{
    if completions.len() > 0 {
        lemma_count_bound(completions.drop_last(), day);
    }
}

/// How many of `completions` fall on `day`.
pub fn completions_on(completions: &[Date], day: Date) -> (r: usize)
    ensures
        r == count_on(completions@, day),
{
    let mut count: usize = 0;
    let mut i: usize = 0;
    proof {
        assert(completions@.take(0) =~= Seq::<Date>::empty());
    }
    while i < completions.len()
        invariant
            i <= completions.len(),
            count == count_on(completions@.take(i as int), day),
            count <= i,
        decreases completions.len() - i,
    {
        proof {
            assert(completions@.take(i + 1).drop_last() =~= completions@.take(i as int));
        }
        if completions[i] == day {
            count += 1;
        }
        i += 1;
    }
    proof {
        assert(completions@.take(completions@.len() as int) =~= completions@);
    }
    count
}

/// The completions of each of the last `days` days, today included, from
/// the earliest day to today. There is no such list where the calendar does
/// not reach that far back.
pub open spec fn trend(completions: Seq<Date>, today: Date, days: nat) -> Option<
    Seq<(Date, usize)>,
> {
    if days > 0 && days_before(today, (days - 1) as nat) is None {
        None
    } else {
        Some(
            Seq::new(
                days,
                |k: int|
                    (
                        days_before(today, (days - 1 - k) as nat)->0,
                        count_on(completions, days_before(today, (days - 1 - k) as nat)->0) as usize,
                    ),
            ),
        )
    }
}

/// The completions of each of the last `days` days, today included, from
/// the earliest day to today.
pub fn daily_counts(completions: &[Date], today: Date, days: usize) -> (r: Option<
    Vec<(Date, usize)>,
>)
    ensures
        match trend(completions@, today, days as nat) {
            Some(counts) => r matches Some(v) && v@ == counts,
            None => r is None,
        },
{
    if days == 0 {
        let none: Vec<(Date, usize)> = Vec::new();
        assert(none@ =~= trend(completions@, today, 0)->0);
        return Some(none);
    }
    if today.earlier(days - 1).is_none() {
        return None;
    }
    let mut back: Vec<(Date, usize)> = Vec::new();
    let mut day = today;
    let mut i: usize = 0;
    while i < days
        invariant
            i <= days,
            back.len() == i,
            days_before(today, (days - 1) as nat) is Some,
            i < days ==> days_before(today, i as nat) == Some(day),
            forall|k: int|
                0 <= k < i ==> (#[trigger] back@[k]).0 == days_before(today, k as nat)->0
                    && back@[k].1 == count_on(completions@, back@[k].0),
        decreases days - i,
    {
        back.push((day, completions_on(completions, day)));
        if i + 1 < days {
            proof {
                if days_before(today, (i + 1) as nat) is None {
                    crate::date::lemma_no_way_back(today, (i + 1) as nat, (days - 1) as nat);
                }
            }
            match day.pred() {
                Some(before) => {
                    day = before;
                },
                None => {
                    return None;
                },
            }
        }
        i += 1;
    }
    let mut out: Vec<(Date, usize)> = Vec::new();
    let mut k: usize = 0;
    while k < days
        invariant
            k <= days,
            back.len() == days,
            out.len() == k,
            forall|j: int| 0 <= j < k ==> out@[j] == back@[days - 1 - j],
        decreases days - k,
    {
        out.push(back[days - 1 - k]);
        k += 1;
    }
    proof {
        let want = trend(completions@, today, days as nat)->0;
        assert forall|j: int| 0 <= j < days implies out@[j] == want[j] by {
            lemma_count_bound(completions@, back@[days - 1 - j].0);
        }
        assert(out@ =~= want);
    }
    Some(out)
}

/// Whether `day` lies in the window of the last `days` days: less than
/// `days` days before today. Today and the days after it lie in it too.
pub open spec fn in_window(day: Date, today: Date, days: nat) -> bool {
    match days_before(today, days) {
        Some(start) => start.precedes(day),
        None => true,
    }
}

/// The days of `completions` that lie in the window, in their order.
pub open spec fn windowed(completions: Seq<Date>, today: Date, days: nat) -> Seq<Date>
    decreases completions.len(),
{
    if completions.len() == 0 {
        Seq::empty()
    } else {
        let rest = windowed(completions.drop_last(), today, days);
        if in_window(completions.last(), today, days) {
            rest.push(completions.last())
        } else {
            rest
        }
    }
}

/// The days that occur in `days`, each once, in the order in which they
/// first occur.
pub open spec fn distinct(days: Seq<Date>) -> Seq<Date>
    decreases days.len(),
{
    if days.len() == 0 {
        Seq::empty()
    } else {
        let rest = distinct(days.drop_last());
        if rest.contains(days.last()) {
            rest
        } else {
            rest.push(days.last())
        }
    }
}

/// Each day of the window on which something was completed, with the
/// number of completions on it, in the order in which the days first occur.
pub open spec fn heat(completions: Seq<Date>, today: Date, days: nat) -> Seq<(Date, usize)> {
    let window = windowed(completions, today, days);
    Seq::new(
        distinct(window).len(),
        |k: int| (distinct(window)[k], count_on(window, distinct(window)[k]) as usize),
    )
}

fn window_of(completions: &[Date], today: Date, days: usize) -> (r: Vec<Date>)
    ensures
        r@ == windowed(completions@, today, days as nat),
{
    let start = today.earlier(days);
    let mut out: Vec<Date> = Vec::new();
    let mut i: usize = 0;
    proof {
        assert(completions@.take(0) =~= Seq::<Date>::empty());
    }
    while i < completions.len()
        invariant
            i <= completions.len(),
            start == days_before(today, days as nat),
            out@ == windowed(completions@.take(i as int), today, days as nat),
        decreases completions.len() - i,
    {
        proof {
            assert(completions@.take(i + 1).drop_last() =~= completions@.take(i as int));
        }
        let day = completions[i];
        let inside = match start {
            Some(first) => first.is_before(&day),
            None => true,
        };
        if inside {
            out.push(day);
        }
        i += 1;
    }
    proof {
        assert(completions@.take(completions@.len() as int) =~= completions@);
    }
    out
}

fn holds_day(days: &Vec<(Date, usize)>, day: Date) -> (r: bool)
    ensures
        r == exists|k: int| 0 <= k < days@.len() && (#[trigger] days@[k]).0 == day,
{
    let mut i: usize = 0;
    while i < days.len()
        invariant
            i <= days.len(),
            forall|k: int| 0 <= k < i ==> (#[trigger] days@[k]).0 != day,
        decreases days.len() - i,
    {
        if days[i].0 == day {
            return true;
        }
        i += 1;
    }
    false
}

/// Each day of the last `days` days on which something was completed, with
/// the number of completions on it.
pub fn heatmap_counts(completions: &[Date], today: Date, days: usize) -> (r: Vec<(Date, usize)>)
    ensures
        r@ == heat(completions@, today, days as nat),
{
    let window = window_of(completions, today, days);
    let ghost w = window@;
    let mut out: Vec<(Date, usize)> = Vec::new();
    let mut i: usize = 0;
    proof {
        assert(w.take(0) =~= Seq::<Date>::empty());
    }
    while i < window.len()
        invariant
            i <= window.len(),
            w == window@,
            out@.len() == distinct(w.take(i as int)).len(),
            forall|k: int|
                0 <= k < out@.len() ==> (#[trigger] out@[k]).0 == distinct(w.take(i as int))[k]
                    && out@[k].1 == count_on(w, out@[k].0),
        decreases window.len() - i,
    {
        let day = window[i];
        proof {
            assert(w.take(i + 1).drop_last() =~= w.take(i as int));
            let seen = distinct(w.take(i as int));
            if seen.contains(day) {
                let k = choose|k: int| 0 <= k < seen.len() && seen[k] == day;
                assert(out@[k].0 == day);
            }
            if exists|k: int| 0 <= k < out@.len() && (#[trigger] out@[k]).0 == day {
                let k = choose|k: int| 0 <= k < out@.len() && (#[trigger] out@[k]).0 == day;
                assert(seen[k] == day);
            }
        }
        if !holds_day(&out, day) {
            let count = completions_on(window.as_slice(), day);
            out.push((day, count));
        }
        i += 1;
    }
    proof {
        assert(w.take(w.len() as int) =~= w);
        let want = heat(completions@, today, days as nat);
        assert forall|k: int| 0 <= k < out@.len() implies out@[k] == want[k] by {
            lemma_count_bound(w, out@[k].0);
        }
        assert(out@ =~= want);
    }
    out
}

} // verus!
