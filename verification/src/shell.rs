//! Shell resolution and invocation syntax. Which shell binary to use is
//! derived from plain values the caller reads from its environment; how a
//! command line is wrapped depends only on the shell's family.

use vstd::prelude::*;
use vstd::string::StringExecFns;
use crate::text::{
    spec_ascii_lower, spec_base_name, spec_contains, ascii_lowercase, base_name, str_contains,
    str_eq,
};
use crate::config::WindowsShell;

verus! {

/// Whether a shell path names some variant of PowerShell.
pub open spec fn spec_is_powershell(s: Seq<char>) -> bool {
    spec_contains(spec_ascii_lower(s), "powershell"@) || spec_contains(spec_ascii_lower(s), "pwsh"@)
}

/// Whether a shell path names the Windows command interpreter.
pub open spec fn spec_is_cmd(s: Seq<char>) -> bool {
    spec_base_name(spec_ascii_lower(s)) == "cmd.exe"@ || spec_base_name(spec_ascii_lower(s))
        == "cmd"@
}

/// Whether the shell is some variant of PowerShell, by name.
pub fn is_powershell(shell: &str) -> (r: bool)
    ensures
        r == spec_is_powershell(shell@),
{
    let lower = ascii_lowercase(shell);
    str_contains(lower.as_str(), "powershell") || str_contains(lower.as_str(), "pwsh")
}

/// The user's preferred interactive shell on a POSIX system: the value of
/// the SHELL environment variable when the caller found one, otherwise
/// a zsh fallback.
pub fn get_default_shell(env_shell: Option<&str>) -> (r: String)
    ensures
        (env_shell matches Some(s) ==> r@ == s@),
        env_shell is None ==> r@ == "/bin/zsh"@,
{
    match env_shell {
        Some(s) => String::from_str(s),
        None => String::from_str("/bin/zsh"),
    }
}

/// The shell binary for a configured Windows shell choice, given the
/// paths the caller resolved: the PowerShell binary it found, and the
/// command interpreter named by COMSPEC. Missing paths fall back to the
/// bare program names.
pub fn get_shell_with_config(
    shell_type: WindowsShell,
    powershell_path: Option<&str>,
    comspec: Option<&str>,
) -> (r: String)
    ensures
        shell_type is PowerShell ==> (match powershell_path {
            Some(p) => r@ == p@,
            None => r@ == "powershell.exe"@,
        }),
        shell_type is Cmd ==> (match comspec {
            Some(c) => r@ == c@,
            None => r@ == "cmd.exe"@,
        }),
{
    match shell_type {
        WindowsShell::PowerShell => {
            match powershell_path {
                Some(p) => String::from_str(p),
                None => String::from_str("powershell.exe"),
            }
        },
        WindowsShell::Cmd => {
            match comspec {
                Some(c) => String::from_str(c),
                None => String::from_str("cmd.exe"),
            }
        },
    }
}

/// The name of the shell without its path: everything after the last
/// path separator.
pub fn get_shell_name(shell: &str) -> (r: String)
    ensures
        r@ == spec_base_name(shell@),
{
    base_name(shell)
}

/// The npm binary name.
pub fn get_npm_command() -> (r: &'static str)
    ensures
        r@ == "npm"@,
{
    "npm"
}

/// The pnpm binary name.
pub fn get_pnpm_command() -> (r: &'static str)
    ensures
        r@ == "pnpm"@,
{
    "pnpm"
}

/// The yarn binary name.
pub fn get_yarn_command() -> (r: &'static str)
    ensures
        r@ == "yarn"@,
{
    "yarn"
}

/// Wraps a command line in the given shell's "execute and exit"
/// invocation: `-Command` for the PowerShell family, `/C` for the Windows
/// command interpreter, `-c` for POSIX shells. Returns the shell and its
/// argument list.
pub fn build_shell_command(shell: &str, command: &str) -> (r: (String, Vec<String>))
    ensures
        r.0@ == shell@,
        r.1@.len() == 2,
        r.1@[1]@ == command@,
        spec_is_powershell(shell@) ==> r.1@[0]@ == "-Command"@,
        !spec_is_powershell(shell@) && spec_is_cmd(shell@) ==> r.1@[0]@ == "/C"@,
        !spec_is_powershell(shell@) && !spec_is_cmd(shell@) ==> r.1@[0]@ == "-c"@,
{
    let mut args: Vec<String> = Vec::new();
    let flag: &'static str = if is_powershell(shell) {
        "-Command"
    } else {
        let lower = ascii_lowercase(shell);
        let name = base_name(lower.as_str());
        if str_eq(name.as_str(), "cmd.exe") || str_eq(name.as_str(), "cmd") {
            "/C"
        } else {
            "-c"
        }
    };
    args.push(String::from_str(flag));
    args.push(String::from_str(command));
    (String::from_str(shell), args)
}

} // verus!
