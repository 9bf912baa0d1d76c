//! The bulk commands: one change to every to-do that a filter selects.
//!
//! A bulk command changes many items at once, so it is hedged: more matches
//! than the limit stop it, unless the user waived the check, in which case
//! only as many as the limit are changed; and more than five matches have to
//! be confirmed, unless the run is a dry run or the check was waived.

use crate::date::{Date, local_today};
use crate::error::{ClingsError, ClingsErrorView};
use crate::filter::engine::{
    filter_items_on,
    message_text,
    parse_filter,
    parse_text,
    selected,
    targets,
};
use crate::text::{append_decimal, decimal, lowercase, text_eq, trimmed};
use crate::things::template::{fill1, slice_text};
use crate::things::types::{BatchError, BatchResult, Todo, optional_text};
use vstd::prelude::*;
use vstd::string::*;

verus! {

/// What the user is told when `bulk complete` is called without a filter.
pub const COMPLETE_NEEDS_FILTER: &'static str = "Filter required for bulk complete.\n\n\
Usage: clings bulk complete --where \"filter expression\"\n\n\
Examples:\n  \
clings bulk complete --where \"tags CONTAINS 'done'\"\n  \
clings bulk complete --where \"project = 'Completed'\" --dry-run";

/// What the user is told when `bulk cancel` is called without a filter.
pub const CANCEL_NEEDS_FILTER: &'static str = "Filter required for bulk cancel.\n\n\
Usage: clings bulk cancel --where \"filter expression\"\n\n\
Examples:\n  \
clings bulk cancel --where \"project = 'Old Project'\"\n  \
clings bulk cancel --where \"status = open AND due < today\" --dry-run";

/// What the user is told when `bulk tag` is called without a filter.
pub const TAG_NEEDS_FILTER: &'static str = "Filter required for bulk tag.\n\n\
Usage: clings bulk tag --where \"filter expression\" tag1 [tag2 ...]";

/// What the user is told when `bulk tag` is called without a tag.
pub const TAG_NEEDS_TAG: &'static str = "At least one tag is required.\n\n\
Usage: clings bulk tag --where \"filter\" tag1 [tag2 ...]\n\n\
Example: clings bulk tag --where \"project = 'Work'\" urgent priority";

/// What the user is told when `bulk move` is called without a filter.
pub const MOVE_NEEDS_FILTER: &'static str = "Filter required for bulk move.\n\n\
Usage: clings bulk move --where \"filter expression\" --to \"Project Name\"";

/// What the user is told when the confirmation was not given.
pub const CANCELLED: &'static str = "Operation cancelled by user. No changes were made.";

/// The number of matches up to which no confirmation is asked for.
pub const UNCONFIRMED_MAX: usize = 5;

/// The number of matches that are shown when confirmation is asked for.
pub const PREVIEW_MAX: usize = 10;

/// How a bulk operation is hedged.
#[derive(Clone, Copy, Debug, PartialEq, Eq, Structural)]
pub struct BulkSafetyOptions {
    /// Whether the user waived the checks.
    pub skip_confirmation: bool,
    /// The most items to change; 0 for no limit.
    pub limit: usize,
    /// Whether nothing is to be changed at all.
    pub dry_run: bool,
}

/// What the safety check decides.
#[derive(Clone, Copy, Debug, PartialEq, Eq, Structural)]
pub enum Safety {
    /// Go ahead with the first `count` of the matches.
    Proceed { count: usize },
    /// Ask the user first, showing the first `shown` of the `count` matches.
    Confirm { count: usize, shown: usize },
}

/// What the user is told when there are more matches than the limit allows.
pub open spec fn over_limit_text(matched: nat, limit: nat) -> Seq<char> {
    "Operation would affect "@ + decimal(matched) + " items, which exceeds the limit of "@
        + decimal(limit) + ".\nUse --limit "@ + decimal(matched)
        + " to increase the limit, or --yes to skip this check.\nUse --dry-run first to preview what would be affected."@
}

/// The number of matches that are changed: all of them, or as many as the
/// limit where there are more and the check was waived.
pub open spec fn kept(matched: nat, options: BulkSafetyOptions) -> nat {
    if options.limit > 0 && matched > options.limit {
        options.limit as nat
    } else {
        matched
    }
}

/// What the safety check decides for `matched` matches, or what it tells the
/// user where it stops the operation.
pub open spec fn safety_of(matched: nat, options: BulkSafetyOptions) -> Result<Safety, Seq<char>> {
    if options.limit > 0 && matched > options.limit && !options.skip_confirmation {
        Err(over_limit_text(matched, options.limit as nat))
    } else if options.dry_run || options.skip_confirmation || kept(matched, options)
        <= UNCONFIRMED_MAX {
        Ok(Safety::Proceed { count: kept(matched, options) as usize })
    } else {
        Ok(
            Safety::Confirm {
                count: kept(matched, options) as usize,
                shown: if kept(matched, options) < PREVIEW_MAX {
                    kept(matched, options) as usize
                } else {
                    PREVIEW_MAX
                },
            },
        )
    }
}

fn over_limit(matched: usize, limit: usize) -> (r: String)
    ensures
        r@ == over_limit_text(matched as nat, limit as nat),
{
    let mut out = "Operation would affect ".to_owned();
    append_decimal(&mut out, matched as u64);
    out.append(" items, which exceeds the limit of ");
    append_decimal(&mut out, limit as u64);
    out.append(".\nUse --limit ");
    append_decimal(&mut out, matched as u64);
    out.append(
        " to increase the limit, or --yes to skip this check.\nUse --dry-run first to preview what would be affected.",
    );
    assert(out@ =~= over_limit_text(matched as nat, limit as nat));
    out
}

/// Checks a bulk operation on `matched` matches against `options`.
pub fn check_bulk_safety(matched: usize, options: &BulkSafetyOptions) -> (r: Result<
    Safety,
    ClingsError,
>)
    ensures
        match safety_of(matched as nat, *options) {
            Ok(s) => r == Ok::<Safety, ClingsError>(s),
            Err(text) => r matches Err(e) && e@ == ClingsErrorView::BulkOperation(text),
        },
{
    let mut count = matched;
    if options.limit > 0 && matched > options.limit {
        if !options.skip_confirmation {
            return Err(ClingsError::BulkOperation(over_limit(matched, options.limit)));
        }
        count = options.limit;
    }
    if options.dry_run || options.skip_confirmation || count <= UNCONFIRMED_MAX {
        return Ok(Safety::Proceed { count });
    }
    let shown = if count < PREVIEW_MAX {
        count
    } else {
        PREVIEW_MAX
    };
    Ok(Safety::Confirm { count, shown })
}

/// Reads the answer to the request for confirmation: only `yes`, in any
/// case and with whitespace around it or not, lets the operation go ahead.
pub fn confirm(input: &str) -> (r: Result<(), ClingsError>)
    ensures
        lowercase(trimmed(input@)) == "yes"@ ==> r is Ok,
        lowercase(trimmed(input@)) != "yes"@ ==> (r matches Err(e) && e@
            == ClingsErrorView::BulkOperation(CANCELLED@)),
{
    let answer = input.trim().to_lowercase();
    if text_eq(answer.as_str(), "yes") {
        Ok(())
    } else {
        Err(ClingsError::BulkOperation(CANCELLED.to_owned()))
    }
}

/// What a bulk command has to do: change the first to-dos of `matching`, as
/// `safety` says.
#[derive(Debug, PartialEq, Eq)]
pub struct BulkPlan<'a> {
    /// The to-dos that the filter selects, in the order of the input.
    pub matching: Vec<&'a Todo>,
    pub safety: Safety,
}

/// What a bulk command makes of its arguments on the day `today`: the
/// matches and the decision of the safety check, or the error to report.
/// `missing` is the message for a command without a filter.
pub open spec fn bulk_outcome(
    todos: Seq<Todo>,
    filter: Option<Seq<char>>,
    options: BulkSafetyOptions,
    missing: Seq<char>,
    today: Date,
) -> Result<(Seq<Todo>, Safety), ClingsErrorView> {
    match filter {
        None => Err(ClingsErrorView::BulkOperation(missing)),
        Some(text) => match parse_text(text) {
            Err(cause) => Err(ClingsErrorView::Filter(message_text(cause, text))),
            Ok(e) => match safety_of(selected(todos, e, today).len(), options) {
                Ok(safety) => Ok((selected(todos, e, today), safety)),
                Err(text) => Err(ClingsErrorView::BulkOperation(text)),
            },
        },
    }
}

/// Whether `r` is the outcome `want`.
pub open spec fn is_outcome(
    r: Result<BulkPlan, ClingsError>,
    want: Result<(Seq<Todo>, Safety), ClingsErrorView>,
) -> bool {
    match want {
        Ok((matching, safety)) => r matches Ok(plan) && targets(plan.matching@) == matching
            && plan.safety == safety,
        Err(e) => r matches Err(x) && x@ == e,
    }
}

/// The plan of a bulk command on the day `today`.
pub fn plan_bulk<'a>(
    all_todos: &'a [Todo],
    filter_query: Option<&str>,
    options: &BulkSafetyOptions,
    missing: &str,
    today: Date,
) -> (r: Result<BulkPlan<'a>, ClingsError>)
    ensures
        is_outcome(
            r,
            bulk_outcome(all_todos@, slice_text(filter_query), *options, missing@, today),
        ),
{
    let text = match filter_query {
        Some(text) => text,
        None => {
            return Err(ClingsError::BulkOperation(missing.to_owned()));
        },
    };
    let expr = match parse_filter(text) {
        Ok(expr) => expr,
        Err(e) => {
            return Err(ClingsError::Filter(e.message));
        },
    };
    let matching = filter_items_on(all_todos, &expr, today);
    proof {
        assert(targets(matching@).len() == matching@.len());
    }
    match check_bulk_safety(matching.len(), options) {
        Ok(safety) => Ok(BulkPlan { matching, safety }),
        Err(e) => Err(e),
    }
}

/// What `bulk complete` has to do: which of `all_todos` to complete, and
/// whether to ask first.
pub fn bulk_complete<'a>(
    all_todos: &'a [Todo],
    filter_query: Option<&str>,
    dry_run: bool,
    skip_confirmation: bool,
    limit: usize,
) -> (r: Result<BulkPlan<'a>, ClingsError>)
    ensures
        exists|today: Date|
            is_outcome(
                r,
                bulk_outcome(
                    all_todos@,
                    slice_text(filter_query),
                    BulkSafetyOptions { skip_confirmation, limit, dry_run },
                    COMPLETE_NEEDS_FILTER@,
                    today,
                ),
            ),
{
    let options = BulkSafetyOptions { skip_confirmation, limit, dry_run };
    plan_bulk(all_todos, filter_query, &options, COMPLETE_NEEDS_FILTER, local_today())
}

/// What `bulk cancel` has to do: which of `all_todos` to cancel, and whether
/// to ask first.
pub fn bulk_cancel<'a>(
    all_todos: &'a [Todo],
    filter_query: Option<&str>,
    dry_run: bool,
    skip_confirmation: bool,
    limit: usize,
) -> (r: Result<BulkPlan<'a>, ClingsError>)
    ensures
        exists|today: Date|
            is_outcome(
                r,
                bulk_outcome(
                    all_todos@,
                    slice_text(filter_query),
                    BulkSafetyOptions { skip_confirmation, limit, dry_run },
                    CANCEL_NEEDS_FILTER@,
                    today,
                ),
            ),
{
    let options = BulkSafetyOptions { skip_confirmation, limit, dry_run };
    plan_bulk(all_todos, filter_query, &options, CANCEL_NEEDS_FILTER, local_today())
}

/// What `bulk tag` has to do: to which of `all_todos` to add `tags`, and
/// whether to ask first. Without a tag there is nothing to do, which is an
/// error.
pub fn bulk_tag<'a>(
    all_todos: &'a [Todo],
    filter_query: Option<&str>,
    tags: &[String],
    dry_run: bool,
    skip_confirmation: bool,
    limit: usize,
) -> (r: Result<BulkPlan<'a>, ClingsError>)
    ensures
        tags@.len() == 0 ==> (r matches Err(e) && e@ == ClingsErrorView::BulkOperation(
            TAG_NEEDS_TAG@,
        )),
        tags@.len() > 0 ==> exists|today: Date|
            is_outcome(
                r,
                bulk_outcome(
                    all_todos@,
                    slice_text(filter_query),
                    BulkSafetyOptions { skip_confirmation, limit, dry_run },
                    TAG_NEEDS_FILTER@,
                    today,
                ),
            ),
{
    if tags.len() == 0 {
        return Err(ClingsError::BulkOperation(TAG_NEEDS_TAG.to_owned()));
    }
    let options = BulkSafetyOptions { skip_confirmation, limit, dry_run };
    plan_bulk(all_todos, filter_query, &options, TAG_NEEDS_FILTER, local_today())
}

/// What `bulk move` has to do: which of `all_todos` to move, and whether to
/// ask first.
pub fn bulk_move<'a>(
    all_todos: &'a [Todo],
    filter_query: Option<&str>,
    dry_run: bool,
    skip_confirmation: bool,
    limit: usize,
) -> (r: Result<BulkPlan<'a>, ClingsError>)
    ensures
        exists|today: Date|
            is_outcome(
                r,
                bulk_outcome(
                    all_todos@,
                    slice_text(filter_query),
                    BulkSafetyOptions { skip_confirmation, limit, dry_run },
                    MOVE_NEEDS_FILTER@,
                    today,
                ),
            ),
{
    let options = BulkSafetyOptions { skip_confirmation, limit, dry_run };
    plan_bulk(all_todos, filter_query, &options, MOVE_NEEDS_FILTER, local_today())
}

/// The to-dos that a filter selects, under their title.
#[derive(Debug, PartialEq, Eq)]
pub struct Filtered<'a> {
    pub matching: Vec<&'a Todo>,
    pub title: String,
}

/// The to-dos of `todos` that the filter expression `filter_query` selects
/// today, by the local clock, with the title to show them under. A filter
/// that cannot be read is an error.
pub fn search_with_filter<'a>(todos: &'a [Todo], filter_query: &str) -> (r: Result<
    Filtered<'a>,
    ClingsError,
>)
    ensures
        match parse_text(filter_query@) {
            Ok(e) => r matches Ok(found) && found.title@ == "Filter: \""@ + filter_query@ + "\""@
                && exists|today: Date| targets(found.matching@) == selected(todos@, e, today),
            Err(cause) => r matches Err(x) && x@ == ClingsErrorView::Filter(
                message_text(cause, filter_query@),
            ),
        },
{
    let expr = match parse_filter(filter_query) {
        Ok(expr) => expr,
        Err(e) => {
            return Err(ClingsError::Filter(e.message));
        },
    };
    let today = local_today();
    let matching = filter_items_on(todos, &expr, today);
    Ok(Filtered { matching, title: fill1("Filter: \"", filter_query, "\"") })
}

/// One to-do of a bulk operation, and how the change to it went.
#[derive(Clone, Debug, PartialEq, Eq)]
pub struct BulkResult {
    pub id: String,
    pub name: String,
    pub success: bool,
    pub error: Option<String>,
}

/// How a bulk operation went.
#[derive(Clone, Debug, PartialEq, Eq)]
pub struct BulkSummary {
    /// The number of to-dos that were to be changed.
    pub matched: usize,
    pub succeeded: usize,
    pub failed: usize,
    /// One result for each of these to-dos, in their order.
    pub results: Vec<BulkResult>,
    pub dry_run: bool,
    /// The name of the change.
    pub action: String,
}

/// The number of matches that the safety check lets through.
pub open spec fn allowed(safety: Safety) -> nat {
    match safety {
        Safety::Proceed { count } => count as nat,
        Safety::Confirm { count, .. } => count as nat,
    }
}

/// The first `n` of `todos`, or all of them where there are fewer.
pub open spec fn first_of(todos: Seq<Todo>, n: nat) -> Seq<Todo> {
    if n < todos.len() {
        todos.take(n as int)
    } else {
        todos
    }
}

/// The first error among `errors` that is about the to-do `id`, or about
/// all of them.
pub open spec fn error_for(errors: Seq<BatchError>, id: Seq<char>) -> Option<Seq<char>>
    decreases errors.len(),
{
    if errors.len() == 0 {
        None
    } else if errors[0].id@ == id || errors[0].id@ == "all"@ {
        Some(errors[0].error@)
    } else {
        error_for(errors.drop_first(), id)
    }
}

/// Whether `result` is what the summary says of `todo`: in a dry run that
/// the change would succeed, and else that it succeeded unless `outcome`
/// holds an error for the to-do.
pub open spec fn reports(result: BulkResult, todo: Todo, outcome: BatchResult, dry_run: bool) -> bool {
    &&& result.id@ == todo.id@
    &&& result.name@ == todo.name@
    &&& optional_text(result.error) == if dry_run {
        None
    } else {
        error_for(outcome.errors@, todo.id@)
    }
    &&& result.success == (result.error is None)
}

impl<'a> BulkPlan<'a> {
    /// The to-dos to change: the first matches, as many as the safety check
    /// lets through.
    pub fn chosen(&self) -> (r: Vec<&'a Todo>)
        ensures
            targets(r@) == first_of(targets(self.matching@), allowed(self.safety)),
    {
        let count = match self.safety {
            Safety::Proceed { count } => count,
            Safety::Confirm { count, .. } => count,
        };
        let mut out: Vec<&'a Todo> = Vec::new();
        let mut i: usize = 0;
        proof {
            assert(targets(out@) =~= targets(self.matching@).take(0));
        }
        while i < self.matching.len() && i < count
            invariant
                i <= self.matching.len(),
                i <= count,
                targets(out@) == targets(self.matching@).take(i as int),
            decreases self.matching.len() - i,
        {
            let ghost before = targets(out@);
            let todo = self.matching[i];
            out.push(todo);
            proof {
                assert(targets(out@) =~= before.push(*todo));
                assert(targets(self.matching@)[i as int] == *todo);
                assert(targets(self.matching@).take(i + 1) =~= targets(self.matching@).take(
                    i as int,
                ).push(*todo));
            }
            i += 1;
        }
        proof {
            let all = targets(self.matching@);
            assert(all.len() == self.matching@.len());
            if count >= all.len() {
                assert(all.take(all.len() as int) =~= all);
            }
        }
        out
    }
}

fn find_error(errors: &Vec<BatchError>, id: &str) -> (r: Option<String>)
    ensures
        optional_text(r) == error_for(errors@, id@),
{
    let mut i: usize = 0;
    proof {
        assert(errors@.skip(0) =~= errors@);
    }
    while i < errors.len()
        invariant
            i <= errors.len(),
            error_for(errors@, id@) == error_for(errors@.skip(i as int), id@),
        decreases errors.len() - i,
    {
        proof {
            assert(errors@.skip(i as int).drop_first() =~= errors@.skip(i + 1));
        }
        if text_eq(errors[i].id.as_str(), id) || text_eq(errors[i].id.as_str(), "all") {
            return Some(errors[i].error.clone());
        }
        i += 1;
    }
    None
}

/// Sums up a bulk operation on `todos`: what `outcome` says of each of
/// them, or, in a dry run, what would be done.
pub fn summarize(todos: &[&Todo], outcome: &BatchResult, action: &str, dry_run: bool) -> (r:
    BulkSummary)
    ensures
        r.matched == todos@.len(),
        r.dry_run == dry_run,
        r.action@ == action@,
        r.succeeded == if dry_run {
            todos@.len()
        } else {
            outcome.succeeded as nat
        },
        r.failed == if dry_run {
            0
        } else {
            outcome.failed
        },
        r.results@.len() == todos@.len(),
        forall|k: int|
            0 <= k < todos@.len() ==> reports(#[trigger] r.results@[k], *todos@[k], *outcome, dry_run),
{
    let mut results: Vec<BulkResult> = Vec::new();
    let mut i: usize = 0;
    while i < todos.len()
        invariant
            i <= todos.len(),
            results.len() == i,
            forall|k: int|
                0 <= k < i ==> reports(#[trigger] results@[k], *todos@[k], *outcome, dry_run),
        decreases todos.len() - i,
    {
        let todo = todos[i];
        let error = if dry_run {
            None
        } else {
            find_error(&outcome.errors, todo.id.as_str())
        };
        let success = error.is_none();
        results.push(BulkResult { id: todo.id.clone(), name: todo.name.clone(), success, error });
        i += 1;
    }
    BulkSummary {
        matched: todos.len(),
        succeeded: if dry_run {
            todos.len()
        } else {
            outcome.succeeded
        },
        failed: if dry_run {
            0
        } else {
            outcome.failed
        },
        results,
        dry_run,
        action: action.to_owned(),
    }
}

/// The identifiers of `todos`, in their order.
pub fn ids_of(todos: &[&Todo]) -> (r: Vec<String>)
    ensures
        r@.len() == todos@.len(),
        forall|k: int| 0 <= k < todos@.len() ==> (#[trigger] r@[k])@ == todos@[k].id@,
{
    let mut out: Vec<String> = Vec::new();
    let mut i: usize = 0;
    while i < todos.len()
        invariant
            i <= todos.len(),
            out.len() == i,
            forall|k: int| 0 <= k < i ==> (#[trigger] out@[k])@ == todos@[k].id@,
        decreases todos.len() - i,
    {
        out.push(todos[i].id.clone());
        i += 1;
    }
    out
}

} // verus!
