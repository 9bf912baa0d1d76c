//! The `shell` command.

use crate::cli::args::ShellCommands;
use crate::error::{ClingsError, ClingsErrorView};
use crate::text::{lowercase, text_eq};
use crate::things::template::fill1;
use vstd::prelude::*;
use vstd::string::*;

verus! {

/// The shells for which completions can be made.
#[derive(Clone, Copy, Debug, PartialEq, Eq, Structural)]
pub enum ShellKind {
    Bash,
    Zsh,
    Fish,
    PowerShell,
    Elvish,
}

/// What the `shell` command has to do.
#[derive(Clone, Copy, Debug, PartialEq, Eq, Structural)]
pub enum ShellPlan {
    /// Say how the completions are installed.
    Instructions(ShellKind),
    /// Write the completions.
    Completions(ShellKind),
}

/// The shell that the word `lowered` names.
pub open spec fn shell_named(lowered: Seq<char>) -> Option<ShellKind> {
    if lowered == "bash"@ {
        Some(ShellKind::Bash)
    } else if lowered == "zsh"@ {
        Some(ShellKind::Zsh)
    } else if lowered == "fish"@ {
        Some(ShellKind::Fish)
    } else if lowered == "powershell"@ {
        Some(ShellKind::PowerShell)
    } else if lowered == "elvish"@ {
        Some(ShellKind::Elvish)
    } else {
        None
    }
}

/// The shell that the word `lowered`, taken as it is, names.
pub fn shell_from_lowered(lowered: &str) -> (r: Option<ShellKind>)
    ensures
        r == shell_named(lowered@),
{
    if text_eq(lowered, "bash") {
        Some(ShellKind::Bash)
    } else if text_eq(lowered, "zsh") {
        Some(ShellKind::Zsh)
    } else if text_eq(lowered, "fish") {
        Some(ShellKind::Fish)
    } else if text_eq(lowered, "powershell") {
        Some(ShellKind::PowerShell)
    } else if text_eq(lowered, "elvish") {
        Some(ShellKind::Elvish)
    } else {
        None
    }
}

/// The shell that `name` names, in any case.
pub fn shell_from_str(name: &str) -> (r: Option<ShellKind>)
    ensures
        r == shell_named(lowercase(name@)),
{
    let lowered = name.to_lowercase();
    shell_from_lowered(lowered.as_str())
}

/// What the user is told of a shell that is not known.
pub open spec fn unknown_shell_text(name: Seq<char>) -> Seq<char> {
    "Unknown shell: "@ + name + ". Supported: bash, zsh, fish, powershell, elvish"@
}

/// What the `shell` command has to do for `cmd`: the instructions or the
/// completions for the shell that is named; a shell that is not known is a
/// configuration error.
pub fn shell(cmd: ShellCommands) -> (r: Result<ShellPlan, ClingsError>)
    ensures
        match cmd {
            ShellCommands::Completions { shell, install } => match shell_named(lowercase(shell@)) {
                Some(kind) => r == Ok::<ShellPlan, ClingsError>(
                    if install {
                        ShellPlan::Instructions(kind)
                    } else {
                        ShellPlan::Completions(kind)
                    },
                ),
                None => r matches Err(e) && e@ == ClingsErrorView::Config(
                    unknown_shell_text(shell@),
                ),
            },
        },
{
    match cmd {
        ShellCommands::Completions { shell, install } => match shell_from_str(shell.as_str()) {
            Some(kind) => if install {
                Ok(ShellPlan::Instructions(kind))
            } else {
                Ok(ShellPlan::Completions(kind))
            },
            None => Err(
                ClingsError::Config(
                    fill1(
                        "Unknown shell: ",
                        shell.as_str(),
                        ". Supported: bash, zsh, fish, powershell, elvish",
                    ),
                ),
            ),
        },
    }
}

} // verus!
