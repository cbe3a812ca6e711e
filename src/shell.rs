//! Resolving a logical shell name into a concrete interpreter invocation.

use vstd::prelude::*;

verus! {

/// The family of host a command runs on.
#[derive(Clone, Copy, Debug, PartialEq, Eq, Structural)]
pub enum Platform {
    Windows,
    Posix,
}

/// A concrete command interpreter.
#[derive(Clone, Copy, Debug, PartialEq, Eq, Structural)]
pub enum Shell {
    PowerShell,
    Pwsh,
    Cmd,
    Bash,
    Zsh,
    Sh,
}

/// The shell used on `platform` for a name it does not recognize.
pub open spec fn default_shell(platform: Platform) -> Shell {
    match platform {
        Platform::Windows => Shell::PowerShell,
        Platform::Posix => Shell::Sh,
    }
}

/// Whether `name` is one of the shell names recognized on `platform`.
pub open spec fn is_known_name(platform: Platform, name: Seq<char>) -> bool {
    match platform {
        Platform::Windows => name == "powershell"@ || name == "ps"@ || name == "pwsh"@ || name
            == "powershell7"@ || name == "cmd"@,
        Platform::Posix => name == "bash"@ || name == "zsh"@ || name == "sh"@,
    }
}

/// The shell that `name` selects on `platform`.
pub open spec fn shell_for(platform: Platform, name: Seq<char>) -> Shell {
    match platform {
        Platform::Windows => if name == "pwsh"@ || name == "powershell7"@ {
            Shell::Pwsh
        } else if name == "cmd"@ {
            Shell::Cmd
        } else {
            Shell::PowerShell
        },
        Platform::Posix => if name == "bash"@ {
            Shell::Bash
        } else if name == "zsh"@ {
            Shell::Zsh
        } else {
            Shell::Sh
        },
    }
}

/// A name that `platform` does not recognize selects its default shell.
pub proof fn lemma_unknown_name_falls_back(platform: Platform, name: Seq<char>)
    requires
        !is_known_name(platform, name),
    ensures
        shell_for(platform, name) == default_shell(platform),
{
}

/// The interpreter program that runs `shell`.
pub open spec fn program_of(shell: Shell) -> Seq<char> {
    match shell {
        Shell::PowerShell => "powershell.exe"@,
        Shell::Pwsh => "pwsh.exe"@,
        Shell::Cmd => "cmd.exe"@,
        Shell::Bash => "/bin/bash"@,
        Shell::Zsh => "/bin/zsh"@,
        Shell::Sh => "/bin/sh"@,
    }
}

/// The arguments that make `shell` run `command` as one opaque string.
pub open spec fn args_of(shell: Shell, command: Seq<char>) -> Seq<Seq<char>> {
    match shell {
        Shell::PowerShell | Shell::Pwsh => seq![
            "-NoProfile"@,
            "-NonInteractive"@,
            "-Command"@,
            command,
        ],
        Shell::Cmd => seq!["/C"@, command],
        _ => seq!["-c"@, command],
    }
}

/// The character sequences of a list of strings.
pub open spec fn texts(v: Seq<String>) -> Seq<Seq<char>> {
    v.map_values(|a: String| a@)
}

/// A program to start and the arguments to hand it.
pub struct Invocation {
    pub program: String,
    pub args: Vec<String>,
}

/// Relies on `==` of str: true exactly when both hold the same characters.
#[verifier::external_body]
fn same_text(a: &str, b: &str) -> (r: bool)
    ensures
        r == (a@ == b@),
{
    a == b
}

/// Maps a logical shell name to the shell that runs it on `platform`; an unrecognized
/// name gets the platform's default shell.
pub fn resolve_shell(platform: Platform, executor_type: &str) -> (r: Shell)
    ensures
        r == shell_for(platform, executor_type@),
{
    match platform {
        Platform::Windows => {
            if same_text(executor_type, "pwsh") || same_text(executor_type, "powershell7") {
                Shell::Pwsh
            } else if same_text(executor_type, "cmd") {
                Shell::Cmd
            } else {
                Shell::PowerShell
            }
        },
        Platform::Posix => {
            if same_text(executor_type, "bash") {
                Shell::Bash
            } else if same_text(executor_type, "zsh") {
                Shell::Zsh
            } else {
                Shell::Sh
            }
        },
    }
}

/// The invocation that makes `shell` run `command`.
pub fn invocation_for(shell: Shell, command: &str) -> (r: Invocation)
    ensures
        r.program@ == program_of(shell),
        texts(r.args@) == args_of(shell, command@),
{
    let program = match shell {
        Shell::PowerShell => String::from_str("powershell.exe"),
        Shell::Pwsh => String::from_str("pwsh.exe"),
        Shell::Cmd => String::from_str("cmd.exe"),
        Shell::Bash => String::from_str("/bin/bash"),
        Shell::Zsh => String::from_str("/bin/zsh"),
        Shell::Sh => String::from_str("/bin/sh"),
    };
    let mut args: Vec<String> = Vec::new();
    match shell {
        Shell::PowerShell | Shell::Pwsh => {
            args.push(String::from_str("-NoProfile"));
            args.push(String::from_str("-NonInteractive"));
            args.push(String::from_str("-Command"));
        },
        Shell::Cmd => {
            args.push(String::from_str("/C"));
        },
        _ => {
            args.push(String::from_str("-c"));
        },
    }
    args.push(command.to_owned());
    assert(texts(args@) =~= args_of(shell, command@));
    Invocation { program, args }
}

} // verus!
