//! The `list` command.

use crate::error::ClingsError;
use crate::text::{lowercase, text_eq};
use crate::things::template::fill1;
use crate::things::types::ListView;
use vstd::prelude::*;
use vstd::string::*;

verus! {

/// What the `list` command can show.
#[derive(Clone, Copy, Debug, PartialEq, Eq, Structural)]
pub enum ListTarget {
    Today,
    Inbox,
    Upcoming,
    Anytime,
    Someday,
    Logbook,
    Areas,
    Tags,
    Projects,
}

impl Default for ListTarget {
    fn default() -> (r: ListTarget)
        ensures
            r == ListTarget::Today,
    {
        ListTarget::Today
    }
}

/// The target that the word `lowered` names. The lists of to-dos, `anytime`
/// excepted, can be named by their first letter.
pub open spec fn target_named(lowered: Seq<char>) -> Option<ListTarget> {
    if lowered == "today"@ || lowered == "t"@ {
        Some(ListTarget::Today)
    } else if lowered == "inbox"@ || lowered == "i"@ {
        Some(ListTarget::Inbox)
    } else if lowered == "upcoming"@ || lowered == "u"@ {
        Some(ListTarget::Upcoming)
    } else if lowered == "anytime"@ {
        Some(ListTarget::Anytime)
    } else if lowered == "someday"@ || lowered == "s"@ {
        Some(ListTarget::Someday)
    } else if lowered == "logbook"@ || lowered == "l"@ {
        Some(ListTarget::Logbook)
    } else if lowered == "areas"@ {
        Some(ListTarget::Areas)
    } else if lowered == "tags"@ {
        Some(ListTarget::Tags)
    } else if lowered == "projects"@ {
        Some(ListTarget::Projects)
    } else {
        None
    }
}

/// The name of a target, as the user reads it.
pub open spec fn target_title(target: ListTarget) -> Seq<char> {
    match target {
        ListTarget::Today => "Today"@,
        ListTarget::Inbox => "Inbox"@,
        ListTarget::Upcoming => "Upcoming"@,
        ListTarget::Anytime => "Anytime"@,
        ListTarget::Someday => "Someday"@,
        ListTarget::Logbook => "Logbook"@,
        ListTarget::Areas => "Areas"@,
        ListTarget::Tags => "Tags"@,
        ListTarget::Projects => "Projects"@,
    }
}

/// The built-in list that a target shows, if it shows one.
pub open spec fn target_view(target: ListTarget) -> Option<ListView> {
    match target {
        ListTarget::Today => Some(ListView::Today),
        ListTarget::Inbox => Some(ListView::Inbox),
        ListTarget::Upcoming => Some(ListView::Upcoming),
        ListTarget::Anytime => Some(ListView::Anytime),
        ListTarget::Someday => Some(ListView::Someday),
        ListTarget::Logbook => Some(ListView::Logbook),
        _ => None,
    }
}

impl ListTarget {
    /// The target that the word `lowered`, taken as it is, names.
    pub fn from_lowered(lowered: &str) -> (r: Option<ListTarget>)
        ensures
            r == target_named(lowered@),
    {
        if text_eq(lowered, "today") || text_eq(lowered, "t") {
            Some(ListTarget::Today)
        } else if text_eq(lowered, "inbox") || text_eq(lowered, "i") {
            Some(ListTarget::Inbox)
        } else if text_eq(lowered, "upcoming") || text_eq(lowered, "u") {
            Some(ListTarget::Upcoming)
        } else if text_eq(lowered, "anytime") {
            Some(ListTarget::Anytime)
        } else if text_eq(lowered, "someday") || text_eq(lowered, "s") {
            Some(ListTarget::Someday)
        } else if text_eq(lowered, "logbook") || text_eq(lowered, "l") {
            Some(ListTarget::Logbook)
        } else if text_eq(lowered, "areas") {
            Some(ListTarget::Areas)
        } else if text_eq(lowered, "tags") {
            Some(ListTarget::Tags)
        } else if text_eq(lowered, "projects") {
            Some(ListTarget::Projects)
        } else {
            None
        }
    }

    /// The target that `s` names, in any case.
    pub fn from_str(s: &str) -> (r: Option<ListTarget>)
        ensures
            r == target_named(lowercase(s@)),
    {
        let lowered = s.to_lowercase();
        ListTarget::from_lowered(lowered.as_str())
    }

    /// The name of this target, as the user reads it.
    pub fn display_name(&self) -> (r: &'static str)
        ensures
            r@ == target_title(*self),
    {
        match self {
            ListTarget::Today => "Today",
            ListTarget::Inbox => "Inbox",
            ListTarget::Upcoming => "Upcoming",
            ListTarget::Anytime => "Anytime",
            ListTarget::Someday => "Someday",
            ListTarget::Logbook => "Logbook",
            ListTarget::Areas => "Areas",
            ListTarget::Tags => "Tags",
            ListTarget::Projects => "Projects",
        }
    }

    /// The built-in list that this target shows, if it shows one.
    pub fn list_view(&self) -> (r: Option<ListView>)
        ensures
            r == target_view(*self),
    {
        match self {
            ListTarget::Today => Some(ListView::Today),
            ListTarget::Inbox => Some(ListView::Inbox),
            ListTarget::Upcoming => Some(ListView::Upcoming),
            ListTarget::Anytime => Some(ListView::Anytime),
            ListTarget::Someday => Some(ListView::Someday),
            ListTarget::Logbook => Some(ListView::Logbook),
            _ => None,
        }
    }
}

/// What the user is told of a view that does not exist.
pub open spec fn unknown_view_text(name: Seq<char>) -> Seq<char> {
    "Unknown list view: '"@ + name
        + "'. Valid options: today, inbox, upcoming, anytime, someday, logbook, areas, tags, projects"@
}

/// What `list` makes of the view that is named by `target`, whose
/// lower-case form is `lowered`.
pub open spec fn listed(target: Option<Seq<char>>, lowered: Option<Seq<char>>) -> Result<
    ListTarget,
    crate::error::ClingsErrorView,
> {
    match target {
        None => Ok(ListTarget::Today),
        Some(name) => match target_named(lowered->0) {
            Some(t) => Ok(t),
            None => Err(crate::error::ClingsErrorView::InvalidArgument(unknown_view_text(name))),
        },
    }
}

/// The lower-case form of a text that may be absent.
pub open spec fn lowered_text(target: Option<&str>) -> Option<Seq<char>> {
    match target {
        Some(s) => Some(lowercase(s@)),
        None => None,
    }
}

/// The view that the `list` command shows: the one that `target` names, in
/// any case, and today's to-dos where none is named. A name that is not
/// known is an invalid argument.
pub fn list(target: Option<&str>) -> (r: Result<ListTarget, ClingsError>)
    ensures
        match listed(crate::things::template::slice_text(target), lowered_text(target)) {
            Ok(t) => r == Ok::<ListTarget, ClingsError>(t),
            Err(e) => r matches Err(x) && x@ == e,
        },
{
    match target {
        None => Ok(ListTarget::default()),
        Some(s) => match ListTarget::from_str(s) {
            Some(t) => Ok(t),
            None => Err(
                ClingsError::InvalidArgument(
                    fill1(
                        "Unknown list view: '",
                        s,
                        "'. Valid options: today, inbox, upcoming, anytime, someday, logbook, areas, tags, projects",
                    ),
                ),
            ),
        },
    }
}

} // verus!
