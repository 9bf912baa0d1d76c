//! The arguments of the command line, as plain values.

use crate::date::{Date, local_today};
use crate::text::{lowercase, text_eq};
use vstd::prelude::*;
use vstd::string::*;

verus! {

/// The number of items that a bulk operation changes at most, unless the
/// user says otherwise.
pub const DEFAULT_BULK_LIMIT: usize = 50;

/// How the result of a command is written.
#[derive(Clone, Copy, Debug, PartialEq, Eq, Structural)]
pub enum OutputFormat {
    /// For people: coloured text.
    Pretty,
    /// For programs: JSON.
    Json,
}

impl Default for OutputFormat {
    fn default() -> (r: OutputFormat)
        ensures
            r == OutputFormat::Pretty,
    {
        OutputFormat::Pretty
    }
}

/// The whole command line.
pub struct Cli {
    pub output: OutputFormat,
    pub command: Commands,
}

/// The commands.
pub enum Commands {
    /// Lists a view; today's to-dos where none is named.
    List { view: Option<String> },
    Today,
    Inbox,
    Upcoming,
    Anytime,
    Someday,
    Logbook,
    /// Adds a to-do from a sentence.
    Add(QuickAddArgs),
    Todo(TodoArgs),
    Project(ProjectArgs),
    Search(SearchArgs),
    /// Shows a view or an item in the application.
    Open { target: String },
    Bulk(BulkArgs),
    Stats(StatsArgs),
    Review(ReviewArgs),
    Shell(ShellArgs),
    /// Starts the interactive interface.
    Tui,
}

/// The arguments of `add`.
pub struct QuickAddArgs {
    /// The to-do, in words.
    pub text: String,
    /// Whether to show what would be created, and create nothing.
    pub parse_only: bool,
    pub project: Option<String>,
    pub area: Option<String>,
    pub when: Option<String>,
    pub deadline: Option<String>,
}

/// The arguments of `todo`.
pub struct TodoArgs {
    pub command: TodoCommands,
}

/// What can be done with one to-do.
pub enum TodoCommands {
    Show { id: String },
    Complete { id: String },
    Cancel { id: String },
    Delete { id: String },
    Update {
        id: String,
        title: Option<String>,
        notes: Option<String>,
        when: Option<String>,
        deadline: Option<String>,
        tags: Option<String>,
        project: Option<String>,
        area: Option<String>,
    },
}

/// The arguments of `project`.
pub struct ProjectArgs {
    pub command: ProjectCommands,
}

/// What can be done with projects.
pub enum ProjectCommands {
    List,
    Show { id: String },
    Add(AddProjectArgs),
}

/// The arguments of `project add`.
pub struct AddProjectArgs {
    pub title: String,
    pub notes: Option<String>,
    pub area: Option<String>,
    pub tags: Option<Vec<String>>,
    pub due: Option<String>,
}

/// The arguments of `search`.
pub struct SearchArgs {
    /// Text to look for in names and notes.
    pub query: Option<String>,
    pub tag: Option<String>,
    pub project: Option<String>,
    pub due: Option<String>,
    /// A filter expression; where it is given, nothing else is looked at.
    pub filter: Option<String>,
}

/// The arguments of `bulk`.
pub struct BulkArgs {
    pub command: BulkCommands,
}

/// What can be done with many to-dos at once. In each case `condition` is
/// the filter expression that selects them.
pub enum BulkCommands {
    Complete { condition: String, dry_run: bool, bypass_bulk_data_check: bool, limit: usize },
    Cancel { condition: String, dry_run: bool, bypass_bulk_data_check: bool, limit: usize },
    Tag {
        condition: String,
        tags: Vec<String>,
        dry_run: bool,
        bypass_bulk_data_check: bool,
        limit: usize,
    },
    Move {
        condition: String,
        to: String,
        dry_run: bool,
        bypass_bulk_data_check: bool,
        limit: usize,
    },
}

/// The arguments of `stats`.
pub struct StatsArgs {
    pub trends: bool,
    pub heatmap: bool,
    /// The number of days that the trends cover.
    pub days: usize,
    /// The number of weeks that the heatmap covers.
    pub weeks: usize,
}

/// The arguments of `review`.
pub struct ReviewArgs {
    pub resume: bool,
    pub status: bool,
    pub clear: bool,
    /// How many days ahead deadlines are looked for.
    pub deadline_days: i64,
}

/// The arguments of `shell`.
pub struct ShellArgs {
    pub command: ShellCommands,
}

/// What can be done for the shell.
pub enum ShellCommands {
    Completions { shell: String, install: bool },
}

/// The date that `date_str`, whose lower-case form is `lowered`, names on
/// the day `today`: today's date for `today`, the next day's for `tomorrow`,
/// each as `YYYY-MM-DD`, and `date_str` itself for everything else. Where
/// the calendar has no next day, `tomorrow` stays as it is.
pub open spec fn date_text(date_str: Seq<char>, lowered: Seq<char>, today: Date) -> Seq<char> {
    if lowered == "today"@ {
        today.iso_text()
    } else if lowered == "tomorrow"@ && !(today.ends_year() && today.year == i32::MAX) {
        today.next().iso_text()
    } else {
        date_str
    }
}

/// The date that `date_str`, whose lower-case form is `lowered`, names on
/// the day `today`.
pub fn resolve_date_text(date_str: &str, lowered: &str, today: Date) -> (r: String)
    ensures
        r@ == date_text(date_str@, lowered@, today),
{
    if text_eq(lowered, "today") {
        return today.to_iso_string();
    }
    if text_eq(lowered, "tomorrow") {
        match today.succ() {
            Some(next) => {
                return next.to_iso_string();
            },
            None => {},
        }
    }
    date_str.to_owned()
}

/// Turns `today` and `tomorrow`, in any case, into dates of the form
/// `YYYY-MM-DD`, by the local clock; every other text stays as it is.
pub fn parse_date(date_str: &str) -> (r: String)
    ensures
        exists|today: Date| r@ == date_text(date_str@, lowercase(date_str@), today),
{
    let today = local_today();
    let lowered = date_str.to_lowercase();
    resolve_date_text(date_str, lowered.as_str(), today)
}

} // verus!
