//! The errors that the program reports to its user.

use crate::text::{chars_of, contains, is_substring};
use vstd::prelude::*;
use vstd::string::*;

verus! {

/// What `ClingsError::ThingsNotInstalled` tells the user.
pub const NOT_INSTALLED: &'static str = "Things 3 is not installed.\n\n\
clings requires Things 3 for Mac to function.\n\n\
Get Things 3 from:\n\
\u{2022} Mac App Store: https://apps.apple.com/app/things-3/id904280696\n\
\u{2022} Cultured Code: https://culturedcode.com/things/";

/// What `ClingsError::ThingsNotRunning` tells the user.
pub const NOT_RUNNING: &'static str =
    "Things 3 is not running. Please launch Things 3 and try again.";

/// What `ClingsError::PermissionDenied` tells the user.
pub const PERMISSION_DENIED: &'static str = "Automation permission required.\n\n\
clings needs permission to communicate with Things 3.\n\
This is a one-time setup.\n\n\
1. Open System Settings > Privacy & Security > Automation\n\
2. Enable \"Things 3\" under your terminal application\n\
3. Run clings again\n\n\
Tip: Run this command to open settings directly:\n\
open \"x-apple.systempreferences:com.apple.preference.security?Privacy_Automation\"";

/// Everything that can go wrong between the command line and Things 3.
#[derive(Debug, PartialEq, Eq)]
pub enum ClingsError {
    ThingsNotInstalled,
    ThingsNotRunning,
    PermissionDenied,
    NotFound(String),
    Script(String),
    /// A response that is no valid JSON, with the parser's message.
    Parse(String),
    /// A failed read or write, with the system's message.
    Io(String),
    Config(String),
    Database(String),
    Filter(String),
    BulkOperation(String),
    NotSupported(String),
    InvalidArgument(String),
}

/// The mathematical value of a [`ClingsError`].
pub enum ClingsErrorView {
    ThingsNotInstalled,
    ThingsNotRunning,
    PermissionDenied,
    NotFound(Seq<char>),
    Script(Seq<char>),
    Parse(Seq<char>),
    Io(Seq<char>),
    Config(Seq<char>),
    Database(Seq<char>),
    Filter(Seq<char>),
    BulkOperation(Seq<char>),
    NotSupported(Seq<char>),
    InvalidArgument(Seq<char>),
}

impl View for ClingsError {
    type V = ClingsErrorView;

    open spec fn view(&self) -> ClingsErrorView {
        match *self {
            ClingsError::ThingsNotInstalled => ClingsErrorView::ThingsNotInstalled,
            ClingsError::ThingsNotRunning => ClingsErrorView::ThingsNotRunning,
            ClingsError::PermissionDenied => ClingsErrorView::PermissionDenied,
            ClingsError::NotFound(s) => ClingsErrorView::NotFound(s@),
            ClingsError::Script(s) => ClingsErrorView::Script(s@),
            ClingsError::Parse(s) => ClingsErrorView::Parse(s@),
            ClingsError::Io(s) => ClingsErrorView::Io(s@),
            ClingsError::Config(s) => ClingsErrorView::Config(s@),
            ClingsError::Database(s) => ClingsErrorView::Database(s@),
            ClingsError::Filter(s) => ClingsErrorView::Filter(s@),
            ClingsError::BulkOperation(s) => ClingsErrorView::BulkOperation(s@),
            ClingsError::NotSupported(s) => ClingsErrorView::NotSupported(s@),
            ClingsError::InvalidArgument(s) => ClingsErrorView::InvalidArgument(s@),
        }
    }
}

/// What the error tells the user.
pub open spec fn error_text(e: ClingsErrorView) -> Seq<char> {
    match e {
        ClingsErrorView::ThingsNotInstalled => NOT_INSTALLED@,
        ClingsErrorView::ThingsNotRunning => NOT_RUNNING@,
        ClingsErrorView::PermissionDenied => PERMISSION_DENIED@,
        ClingsErrorView::NotFound(s) => "Item not found: "@ + s,
        ClingsErrorView::Script(s) => "Script execution failed: "@ + s,
        ClingsErrorView::Parse(s) => "Failed to parse response: "@ + s,
        ClingsErrorView::Io(s) => "IO error: "@ + s,
        ClingsErrorView::Config(s) => "Configuration error: "@ + s,
        ClingsErrorView::Database(s) => "Database error: "@ + s,
        ClingsErrorView::Filter(s) => "Filter error: "@ + s,
        ClingsErrorView::BulkOperation(s) => "Bulk operation error: "@ + s,
        ClingsErrorView::NotSupported(s) => "Feature not supported: "@ + s,
        ClingsErrorView::InvalidArgument(s) => "Invalid argument: "@ + s,
    }
}

/// `prefix` followed by `detail`.
fn prefixed(prefix: &str, detail: &str) -> (r: String)
    ensures
        r@ == prefix@ + detail@,
{
    let mut out = String::new();
    out.append(prefix);
    out.append(detail);
    assert(out@ =~= prefix@ + detail@);
    out
}

impl ClingsError {
    /// What this error tells the user.
    pub fn to_string(&self) -> (r: String)
        ensures
            r@ == error_text(self@),
    {
        match self {
            ClingsError::ThingsNotInstalled => NOT_INSTALLED.to_owned(),
            ClingsError::ThingsNotRunning => NOT_RUNNING.to_owned(),
            ClingsError::PermissionDenied => PERMISSION_DENIED.to_owned(),
            ClingsError::NotFound(s) => prefixed("Item not found: ", s.as_str()),
            ClingsError::Script(s) => prefixed("Script execution failed: ", s.as_str()),
            ClingsError::Parse(s) => prefixed("Failed to parse response: ", s.as_str()),
            ClingsError::Io(s) => prefixed("IO error: ", s.as_str()),
            ClingsError::Config(s) => prefixed("Configuration error: ", s.as_str()),
            ClingsError::Database(s) => prefixed("Database error: ", s.as_str()),
            ClingsError::Filter(s) => prefixed("Filter error: ", s.as_str()),
            ClingsError::BulkOperation(s) => prefixed("Bulk operation error: ", s.as_str()),
            ClingsError::NotSupported(s) => prefixed("Feature not supported: ", s.as_str()),
            ClingsError::InvalidArgument(s) => prefixed("Invalid argument: ", s.as_str()),
        }
    }
}

/// The position of the first line feed from `i` on, or the length of `s`
/// where there is none.
pub open spec fn line_end(s: Seq<char>, i: int) -> int
    decreases s.len() - i,
{
    if 0 <= i < s.len() && s[i] != '\n' {
        line_end(s, i + 1)
    } else {
        i
    }
}

/// Where the text of the line that starts at `i` stops: at its line feed,
/// or one earlier where a carriage return stands before the line feed.
pub open spec fn line_stop(s: Seq<char>, i: int) -> int {
    let e = line_end(s, i);
    if i < e < s.len() && s[e - 1] == '\r' {
        e - 1
    } else {
        e
    }
}

/// The first line from position `i` on in which `needle` occurs. Lines end
/// with a line feed, or with a carriage return and a line feed; the last one
/// may end with the text.
pub open spec fn first_line_with(s: Seq<char>, i: int, needle: Seq<char>) -> Option<Seq<char>>
    decreases s.len() - i,
{
    if i < 0 || i >= s.len() {
        None
    } else {
        let line = s.subrange(i, line_stop(s, i));
        if is_substring(line, needle) {
            Some(line)
        } else if i <= line_end(s, i) < s.len() {
            first_line_with(s, line_end(s, i) + 1, needle)
        } else {
            None
        }
    }
}

/// What the error output `s` of the scripting bridge means. The tests are
/// made in this order, and the first that succeeds decides.
pub open spec fn classify_stderr(s: Seq<char>) -> ClingsErrorView {
    if is_substring(s, "-1743"@) || is_substring(s, "not authorized"@) {
        ClingsErrorView::PermissionDenied
    } else if is_substring(s, "Can't get application"@) || is_substring(
        s,
        "Application can't be found"@,
    ) || is_substring(s, "unable to find application"@) {
        ClingsErrorView::ThingsNotInstalled
    } else if is_substring(s, "Application isn't running"@) || is_substring(
        s,
        "connection is invalid"@,
    ) || is_substring(s, "is not running"@) {
        ClingsErrorView::ThingsNotRunning
    } else if is_substring(s, "Can't get"@) {
        ClingsErrorView::NotFound(
            match first_line_with(s, 0, "Can't get"@) {
                Some(line) => line,
                None => s,
            },
        )
    } else {
        ClingsErrorView::Script(s)
    }
}

/// `line_end` moves forward to the first line feed, or to the end.
pub proof fn lemma_line_end(s: Seq<char>, i: int)
    requires
        0 <= i <= s.len(),
    ensures
        i <= line_end(s, i) <= s.len(),
        i <= line_stop(s, i) <= line_end(s, i),
    decreases s.len() - i,
{
    if i < s.len() && s[i] != '\n' {
        lemma_line_end(s, i + 1);
    }
}

fn mentions(hay: &Vec<char>, needle: &str) -> (r: bool)
    ensures
        r == is_substring(hay@, needle@),
{
    let n = chars_of(needle);
    contains(hay, &n)
}

/// The characters of `chars` from `from` to `to`.
fn slice_of(chars: &Vec<char>, from: usize, to: usize) -> (r: Vec<char>)
    requires
        from <= to <= chars.len(),
    ensures
        r@ == chars@.subrange(from as int, to as int),
{
    let mut out: Vec<char> = Vec::new();
    let mut i: usize = from;
    while i < to
        invariant
            from <= i <= to,
            to <= chars.len(),
            out@ == chars@.subrange(from as int, i as int),
        decreases to - i,
    {
        out.push(chars[i]);
        proof {
            assert(out@ =~= chars@.subrange(from as int, i + 1));
        }
        i += 1;
    }
    out
}

/// The first line of `text` in which `needle` occurs.
fn find_line(text: &str, chars: &Vec<char>, needle: &str) -> (r: Option<String>)
    requires
        chars@ == text@,
    ensures
        match first_line_with(text@, 0, needle@) {
            Some(line) => r matches Some(x) && x@ == line,
            None => r is None,
        },
{
    let n = chars.len();
    let mut i: usize = 0;
    while i < n
        invariant
            i <= n,
            n == chars.len(),
            chars@ == text@,
            first_line_with(text@, 0, needle@) == first_line_with(text@, i as int, needle@),
        decreases n - i,
    {
        let mut e: usize = i;
        while e < n && chars[e] != '\n'
            invariant
                i <= e <= n,
                n == chars.len(),
                line_end(chars@, e as int) == line_end(chars@, i as int),
            decreases n - e,
        {
            e += 1;
        }
        let stop = if i < e && e < n && chars[e - 1] == '\r' {
            e - 1
        } else {
            e
        };
        let line = slice_of(chars, i, stop);
        if mentions(&line, needle) {
            return Some(text.substring_char(i, stop).to_owned());
        }
        if e >= n {
            return None;
        }
        i = e + 1;
    }
    None
}

impl ClingsError {
    /// Classifies what the scripting bridge wrote to its error output.
    pub fn from_stderr(stderr: &str) -> (r: ClingsError)
        ensures
            r@ == classify_stderr(stderr@),
    {
        let chars = chars_of(stderr);
        if mentions(&chars, "-1743") || mentions(&chars, "not authorized") {
            return ClingsError::PermissionDenied;
        }
        if mentions(&chars, "Can't get application") || mentions(
            &chars,
            "Application can't be found",
        ) || mentions(&chars, "unable to find application") {
            return ClingsError::ThingsNotInstalled;
        }
        if mentions(&chars, "Application isn't running") || mentions(
            &chars,
            "connection is invalid",
        ) || mentions(&chars, "is not running") {
            return ClingsError::ThingsNotRunning;
        }
        if mentions(&chars, "Can't get") {
            let message = match find_line(stderr, &chars, "Can't get") {
                Some(line) => line,
                None => stderr.to_owned(),
            };
            return ClingsError::NotFound(message);
        }
        ClingsError::Script(stderr.to_owned())
    }
}

} // verus!
