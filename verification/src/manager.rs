//! Planning PTY creation: which program to spawn, with which arguments,
//! environment and size, and how failed attempts are retried. Opening the
//! PTY and spawning the child are blocking OS work with waits between
//! attempts, so the caller runs the loop; every decision it takes — the
//! environment, the argument list, the retry schedule, the failure
//! classification — is computed and verified here.

use vstd::prelude::*;
use vstd::string::{StrSliceExecFns, StringExecFns};
use crate::text::{
    str_eq, str_contains, ascii_lowercase, spec_ascii_lower, spec_contains, substring_copy,
};
use crate::shell::{build_shell_command, spec_is_powershell, spec_is_cmd};

verus! {

/// Everything the caller needs to open a PTY and spawn one child in it.
pub struct SpawnPlan {
    /// The session id the resulting handle and events will carry.
    pub id: String,
    /// The program to spawn.
    pub program: String,
    /// Its argument list.
    pub args: Vec<String>,
    /// The working directory of the child.
    pub working_dir: String,
    /// The terminal size.
    pub rows: u16,
    pub cols: u16,
    /// The environment to set on the child, in order.
    pub env: Vec<(String, String)>,
}

/// How many times opening the PTY pair is attempted on the OS with the
/// known creation race.
pub const OPEN_PTY_MAX_ATTEMPTS: u32 = 3;

/// How many times spawning the child is attempted.
pub const SPAWN_MAX_ATTEMPTS: u32 = 5;

/// The OS error code of the known child-startup failure: a child process
/// that could not load its system libraries because the PTY subsystem was
/// still settling.
pub const STATUS_DLL_INIT_FAILED: i32 = -1073741502;

/// What kind of failure one spawn attempt hit.
#[derive(Debug, Clone, Copy, PartialEq, Eq, Structural)]
pub enum SpawnFailureClass {
    /// The recognizable settling-race failure; worth patient retries.
    KnownInitRace,
    /// Anything else; retried only briefly.
    Other,
}

/// Classifies a spawn failure by the raw OS error code the caller
/// extracted from it, if any.
pub fn classify_spawn_error(raw_os_code: Option<i32>) -> (r: SpawnFailureClass)
    ensures
        raw_os_code == Some(STATUS_DLL_INIT_FAILED) <==> r is KnownInitRace,
{
    match raw_os_code {
        Some(code) => {
            if code == STATUS_DLL_INIT_FAILED {
                SpawnFailureClass::KnownInitRace
            } else {
                SpawnFailureClass::Other
            }
        },
        None => SpawnFailureClass::Other,
    }
}

/// After a failed attempt (counted from zero) to open the PTY pair:
/// how long to back off before the next attempt, or nothing when the
/// attempt budget is spent. The backoff grows linearly.
pub fn openpty_retry(attempt: u32) -> (r: Option<u64>)
    ensures
        attempt + 1 < OPEN_PTY_MAX_ATTEMPTS ==> r == Some((50 * (attempt + 1)) as u64),
        attempt + 1 >= OPEN_PTY_MAX_ATTEMPTS ==> r is None,
{
    if attempt < OPEN_PTY_MAX_ATTEMPTS - 1 {
        Some(50u64 * ((attempt + 1) as u64))
    } else {
        None
    }
}

/// After a failed attempt (counted from zero) to spawn the child: how
/// long to back off before the next attempt, or nothing when no further
/// attempt is made. The known settling race is retried with longer,
/// growing backoff up to the full budget; any other failure is given up
/// after three attempts.
pub fn spawn_retry(attempt: u32, class: SpawnFailureClass) -> (r: Option<u64>)
    ensures
        attempt + 1 < SPAWN_MAX_ATTEMPTS && class is KnownInitRace ==> r == Some(
            (100 * (attempt + 1)) as u64,
        ),
        attempt + 1 < SPAWN_MAX_ATTEMPTS && class is Other && attempt < 2 ==> r == Some(
            (50 * (attempt + 1)) as u64,
        ),
        attempt + 1 >= SPAWN_MAX_ATTEMPTS ==> r is None,
        class is Other && attempt >= 2 ==> r is None,
{
    if attempt >= SPAWN_MAX_ATTEMPTS - 1 {
        return None;
    }
    match class {
        SpawnFailureClass::KnownInitRace => Some(100u64 * ((attempt + 1) as u64)),
        SpawnFailureClass::Other => {
            if attempt < 2 {
                Some(50u64 * ((attempt + 1) as u64))
            } else {
                None
            }
        },
    }
}

/// The variables forwarded from the parent environment into a POSIX
/// child, besides the terminal capabilities.
pub open spec fn spec_env_allowed(k: Seq<char>) -> bool {
    ||| k == "HOME"@
    ||| k == "USER"@
    ||| k == "SHELL"@
    ||| k == "PATH"@
    ||| k == "LANG"@
    ||| k == "LC_ALL"@
    ||| k == "STARSHIP_SHELL"@
}

/// The views of an environment list.
pub open spec fn spec_env_views(s: Seq<(String, String)>) -> Seq<(Seq<char>, Seq<char>)> {
    s.map_values(|p: (String, String)| (p.0@, p.1@))
}

fn env_key_allowed(k: &str) -> (r: bool)
    ensures
        r == spec_env_allowed(k@),
{
    str_eq(k, "HOME") || str_eq(k, "USER") || str_eq(k, "SHELL") || str_eq(k, "PATH") || str_eq(
        k,
        "LANG",
    ) || str_eq(k, "LC_ALL") || str_eq(k, "STARSHIP_SHELL")
}

/// The child environment: terminal capabilities first (a 256-color
/// terminal with true color), then exactly the allow-listed variables of
/// the parent environment the caller handed in, in their given order.
pub fn child_env(available: &Vec<(String, String)>) -> (r: Vec<(String, String)>)
    ensures
        spec_env_views(r@) == seq![("TERM"@, "xterm-256color"@), ("COLORTERM"@, "truecolor"@)]
            + spec_env_views(available@).filter(|kv: (Seq<char>, Seq<char>)| spec_env_allowed(kv.0)),
{
    broadcast use vstd::prelude::Seq::lemma_filter_push;

    let ghost pred = |kv: (Seq<char>, Seq<char>)| spec_env_allowed(kv.0);
    let ghost head = seq![("TERM"@, "xterm-256color"@), ("COLORTERM"@, "truecolor"@)];
    let mut r: Vec<(String, String)> = Vec::new();
    r.push((String::from_str("TERM"), String::from_str("xterm-256color")));
    r.push((String::from_str("COLORTERM"), String::from_str("truecolor")));
    proof {
        assert(spec_env_views(available@.subrange(0, 0)) =~= Seq::<(Seq<char>, Seq<char>)>::empty());
        assert(Seq::<(Seq<char>, Seq<char>)>::empty().filter(pred) =~= Seq::<(
            Seq<char>,
            Seq<char>,
        )>::empty());
        assert(spec_env_views(r@) =~= head + spec_env_views(available@.subrange(0, 0)).filter(
            pred,
        ));
    }
    let n: usize = available.len();
    let mut i: usize = 0;
    while i < n
        invariant
            n == available@.len(),
            i <= n,
            pred == (|kv: (Seq<char>, Seq<char>)| spec_env_allowed(kv.0)),
            head == seq![("TERM"@, "xterm-256color"@), ("COLORTERM"@, "truecolor"@)],
            spec_env_views(r@) == head + spec_env_views(available@.subrange(0, i as int)).filter(
                pred,
            ),
        decreases n - i,
    {
        let pair = &available[i];
        proof {
            let pre = spec_env_views(available@.subrange(0, i as int));
            let post = spec_env_views(available@.subrange(0, i + 1));
            assert(available@.subrange(0, i + 1).drop_last() =~= available@.subrange(0, i as int));
            assert(post.drop_last() =~= pre);
            assert(post.last() == (available@[i as int].0@, available@[i as int].1@));
            assert(post =~= pre.push((available@[i as int].0@, available@[i as int].1@)));
            pre.lemma_filter_push((available@[i as int].0@, available@[i as int].1@), pred);
        }
        if env_key_allowed(pair.0.as_str()) {
            let k = String::from_str(pair.0.as_str());
            let v = String::from_str(pair.1.as_str());
            let ghost prev = r@;
            r.push((k, v));
            proof {
                let pre_f = spec_env_views(available@.subrange(0, i as int)).filter(pred);
                let pv = (available@[i as int].0@, available@[i as int].1@);
                assert(spec_env_views(r@) =~= spec_env_views(prev).push(pv));
                assert(spec_env_views(available@.subrange(0, i + 1)).filter(pred) =~= pre_f.push(
                    pv,
                ));
                assert((head + pre_f).push(pv) =~= head + pre_f.push(pv));
                assert(spec_env_views(r@) =~= head + spec_env_views(
                    available@.subrange(0, i + 1),
                ).filter(pred));
            }
        } else {
            proof {
                assert(spec_env_views(r@) =~= head + spec_env_views(
                    available@.subrange(0, i + 1),
                ).filter(pred));
            }
        }
        i = i + 1;
    }
    proof {
        assert(available@.subrange(0, n as int) =~= available@);
    }
    r
}

fn copy_str_vec(v: &Vec<String>) -> (r: Vec<String>)
    ensures
        r@.len() == v@.len(),
        forall|i: int| 0 <= i < v@.len() ==> (#[trigger] r@[i])@ == v@[i]@,
{
    let n: usize = v.len();
    let mut r: Vec<String> = Vec::new();
    let mut i: usize = 0;
    while i < n
        invariant
            n == v@.len(),
            i <= n,
            r@.len() == i,
            forall|j: int| 0 <= j < i ==> (#[trigger] r@[j])@ == v@[j]@,
        decreases n - i,
    {
        r.push(String::from_str(v[i].as_str()));
        i = i + 1;
    }
    r
}

/// The factory for PTY sessions: it decides what to spawn and how; the
/// caller opens the PTY, runs the retry loop and the reader thread.
pub struct PtyManager {}

impl PtyManager {
    /// A new manager; it keeps no state of its own.
    pub fn new() -> (r: Self) {
        PtyManager {  }
    }

    /// The plan for an interactive login shell in `working_dir`: the
    /// given shell with `-l -i` for a POSIX shell, bare for the Windows
    /// families, in the environment from [`child_env`].
    pub fn create_shell(
        &self,
        id: &str,
        shell: &str,
        working_dir: &str,
        rows: u16,
        cols: u16,
        env_available: &Vec<(String, String)>,
    ) -> (r: SpawnPlan)
        ensures
            r.id@ == id@,
            r.program@ == shell@,
            r.working_dir@ == working_dir@,
            r.rows == rows,
            r.cols == cols,
            !spec_is_powershell(shell@) && !spec_is_cmd(shell@) ==> r.args@.len() == 2
                && r.args@[0]@ == "-l"@ && r.args@[1]@ == "-i"@,
            spec_is_powershell(shell@) || spec_is_cmd(shell@) ==> r.args@.len() == 0,
            spec_env_views(r.env@) == seq![("TERM"@, "xterm-256color"@), ("COLORTERM"@,
            "truecolor"@)] + spec_env_views(env_available@).filter(
                |kv: (Seq<char>, Seq<char>)| spec_env_allowed(kv.0),
            ),
    {
        let mut args: Vec<String> = Vec::new();
        let lower = ascii_lowercase(shell);
        let posix: bool = !(str_contains(lower.as_str(), "powershell") || str_contains(
            lower.as_str(),
            "pwsh",
        )) && !{
            let name = crate::text::base_name(lower.as_str());
            str_eq(name.as_str(), "cmd.exe") || str_eq(name.as_str(), "cmd")
        };
        if posix {
            args.push(String::from_str("-l"));
            args.push(String::from_str("-i"));
        }
        SpawnPlan {
            id: String::from_str(id),
            program: String::from_str(shell),
            args,
            working_dir: String::from_str(working_dir),
            rows,
            cols,
            env: child_env(env_available),
        }
    }

    /// The plan for running one command line through the shell, wrapped
    /// in the shell family's "execute and exit" syntax.
    pub fn run_shell_command(
        &self,
        id: &str,
        shell: &str,
        command: &str,
        working_dir: &str,
        rows: u16,
        cols: u16,
        env_available: &Vec<(String, String)>,
    ) -> (r: SpawnPlan)
        ensures
            r.id@ == id@,
            r.program@ == shell@,
            r.working_dir@ == working_dir@,
            r.rows == rows,
            r.cols == cols,
            r.args@.len() == 2,
            r.args@[1]@ == command@,
            spec_is_powershell(shell@) ==> r.args@[0]@ == "-Command"@,
            !spec_is_powershell(shell@) && spec_is_cmd(shell@) ==> r.args@[0]@ == "/C"@,
            !spec_is_powershell(shell@) && !spec_is_cmd(shell@) ==> r.args@[0]@ == "-c"@,
            spec_env_views(r.env@) == seq![("TERM"@, "xterm-256color"@), ("COLORTERM"@,
            "truecolor"@)] + spec_env_views(env_available@).filter(
                |kv: (Seq<char>, Seq<char>)| spec_env_allowed(kv.0),
            ),
    {
        let (program, args) = build_shell_command(shell, command);
        SpawnPlan {
            id: String::from_str(id),
            program,
            args,
            working_dir: String::from_str(working_dir),
            rows,
            cols,
            env: child_env(env_available),
        }
    }

    /// The plan for spawning an arbitrary program directly, bypassing
    /// shell resolution.
    pub fn create_command(
        &self,
        id: &str,
        program: &str,
        args: &Vec<String>,
        working_dir: &str,
        rows: u16,
        cols: u16,
        env_available: &Vec<(String, String)>,
    ) -> (r: SpawnPlan)
        ensures
            r.id@ == id@,
            r.program@ == program@,
            r.working_dir@ == working_dir@,
            r.rows == rows,
            r.cols == cols,
            r.args@.len() == args@.len(),
            forall|i: int| 0 <= i < args@.len() ==> (#[trigger] r.args@[i])@ == args@[i]@,
            spec_env_views(r.env@) == seq![("TERM"@, "xterm-256color"@), ("COLORTERM"@,
            "truecolor"@)] + spec_env_views(env_available@).filter(
                |kv: (Seq<char>, Seq<char>)| spec_env_allowed(kv.0),
            ),
    {
        SpawnPlan {
            id: String::from_str(id),
            program: String::from_str(program),
            args: copy_str_vec(args),
            working_dir: String::from_str(working_dir),
            rows,
            cols,
            env: child_env(env_available),
        }
    }
}

/// What the caller found in its environment for the variables that a
/// Windows child process cannot start without.
pub struct WindowsEnvProbe {
    pub system_root: Option<String>,
    pub system_root_caps: Option<String>,
    pub windir: Option<String>,
    pub system_drive: Option<String>,
    pub system_drive_caps: Option<String>,
    pub comspec: Option<String>,
    pub path: Option<String>,
    pub windir_caps: Option<String>,
}

/// The system root used for derived values: the mixed-case variable, the
/// upper-case one, or the standard install location.
pub open spec fn spec_root_chain(e: &WindowsEnvProbe) -> Seq<char> {
    match e.system_root {
        Some(v) => v@,
        None => match e.system_root_caps {
            Some(v) => v@,
            None => "C:\\Windows"@,
        },
    }
}

/// The fallback written for a missing mixed-case system root: the
/// upper-case variable, the lower-case windir, or the standard location.
pub open spec fn spec_root_fallback(e: &WindowsEnvProbe) -> Seq<char> {
    match e.system_root_caps {
        Some(v) => v@,
        None => match e.windir {
            Some(v) => v@,
            None => "C:\\Windows"@,
        },
    }
}

/// The fallback written for a missing system drive: the upper-case
/// variable, the first two characters of the system root, or "C:".
pub open spec fn spec_drive_fallback(e: &WindowsEnvProbe) -> Seq<char> {
    match e.system_drive_caps {
        Some(v) => v@,
        None => match e.system_root {
            Some(v) => v@.take(if v@.len() < 2 {
                v@.len() as int
            } else {
                2
            }),
            None => match e.system_root_caps {
                Some(v) => v@.take(if v@.len() < 2 {
                    v@.len() as int
                } else {
                    2
                }),
                None => "C:"@,
            },
        },
    }
}

/// The variables to re-inject into a Windows child so that it can load
/// its system libraries: a missing system root, system drive or command
/// interpreter is given its fallback; a search path that lacks the
/// system binary directory has it prepended (compared without regard to
/// ASCII case); a missing windir is given the system root.
pub open spec fn spec_windows_env_fixups(e: &WindowsEnvProbe) -> Seq<(Seq<char>, Seq<char>)> {
    let sys32 = spec_root_chain(e) + "\\System32"@;
    (if e.system_root is None {
        seq![("SystemRoot"@, spec_root_fallback(e))]
    } else {
        Seq::empty()
    }) + (if e.system_drive is None {
        seq![("SystemDrive"@, spec_drive_fallback(e))]
    } else {
        Seq::empty()
    }) + (if e.comspec is None {
        seq![("COMSPEC"@, spec_root_chain(e) + "\\System32\\cmd.exe"@)]
    } else {
        Seq::empty()
    }) + (match e.path {
        Some(p) => if !spec_contains(spec_ascii_lower(p@), spec_ascii_lower(sys32)) {
            seq![("PATH"@, sys32 + ";"@ + p@)]
        } else {
            Seq::empty()
        },
        None => Seq::empty(),
    }) + (if e.windir_caps is None && e.windir is None {
        seq![("WINDIR"@, spec_root_chain(e))]
    } else {
        Seq::empty()
    })
}

fn root_chain(e: &WindowsEnvProbe) -> (r: String)
    ensures
        r@ == spec_root_chain(e),
{
    match &e.system_root {
        Some(v) => String::from_str(v.as_str()),
        None => match &e.system_root_caps {
            Some(v) => String::from_str(v.as_str()),
            None => String::from_str("C:\\Windows"),
        },
    }
}

/// Computes the variables to set on a Windows child before it spawns, as
/// [`spec_windows_env_fixups`] describes.
pub fn ensure_critical_windows_env(e: &WindowsEnvProbe) -> (r: Vec<(String, String)>)
    ensures
        spec_env_views(r@) == spec_windows_env_fixups(e),
{
    proof {
        reveal_strlit("C:\\Windows");
        reveal_strlit("C:");
        reveal_strlit("\\System32");
        reveal_strlit("\\System32\\cmd.exe");
        reveal_strlit(";");
        reveal_strlit("SystemRoot");
        reveal_strlit("SystemDrive");
        reveal_strlit("COMSPEC");
        reveal_strlit("PATH");
        reveal_strlit("WINDIR");
    }
    let mut r: Vec<(String, String)> = Vec::new();
    let ghost mut acc: Seq<(Seq<char>, Seq<char>)> = Seq::empty();
    proof {
        assert(spec_env_views(r@) =~= acc);
    }
    if e.system_root.is_none() {
        let fallback: String = match &e.system_root_caps {
            Some(v) => String::from_str(v.as_str()),
            None => match &e.windir {
                Some(v) => String::from_str(v.as_str()),
                None => String::from_str("C:\\Windows"),
            },
        };
        let ghost prev = r@;
        r.push((String::from_str("SystemRoot"), fallback));
        proof {
            acc = acc + seq![("SystemRoot"@, spec_root_fallback(e))];
            assert(spec_env_views(r@) =~= spec_env_views(prev).push(
                ("SystemRoot"@, spec_root_fallback(e)),
            ));
            assert(spec_env_views(r@) =~= acc);
        }
    }
    if e.system_drive.is_none() {
        let fallback: String = match &e.system_drive_caps {
            Some(v) => String::from_str(v.as_str()),
            None => match &e.system_root {
                Some(v) => take_two(v.as_str()),
                None => match &e.system_root_caps {
                    Some(v) => take_two(v.as_str()),
                    None => String::from_str("C:"),
                },
            },
        };
        let ghost prev = r@;
        r.push((String::from_str("SystemDrive"), fallback));
        proof {
            acc = acc + seq![("SystemDrive"@, spec_drive_fallback(e))];
            assert(spec_env_views(r@) =~= spec_env_views(prev).push(
                ("SystemDrive"@, spec_drive_fallback(e)),
            ));
            assert(spec_env_views(r@) =~= acc);
        }
    }
    if e.comspec.is_none() {
        let mut value = root_chain(e);
        value.append("\\System32\\cmd.exe");
        let ghost prev = r@;
        r.push((String::from_str("COMSPEC"), value));
        proof {
            acc = acc + seq![("COMSPEC"@, spec_root_chain(e) + "\\System32\\cmd.exe"@)];
            assert(spec_env_views(r@) =~= spec_env_views(prev).push(
                ("COMSPEC"@, spec_root_chain(e) + "\\System32\\cmd.exe"@),
            ));
            assert(spec_env_views(r@) =~= acc);
        }
    }
    if let Some(path) = &e.path {
        let mut sys32 = root_chain(e);
        sys32.append("\\System32");
        let path_lower = ascii_lowercase(path.as_str());
        let sys32_lower = ascii_lowercase(sys32.as_str());
        if !str_contains(path_lower.as_str(), sys32_lower.as_str()) {
            let mut value = String::from_str(sys32.as_str());
            value.append(";");
            value.append(path.as_str());
            let ghost prev = r@;
            let ghost sys32_view = spec_root_chain(e) + "\\System32"@;
            r.push((String::from_str("PATH"), value));
            proof {
                acc = acc + seq![("PATH"@, sys32_view + ";"@ + path@)];
                assert(spec_env_views(r@) =~= spec_env_views(prev).push(
                    ("PATH"@, sys32_view + ";"@ + path@),
                ));
                assert(spec_env_views(r@) =~= acc);
            }
        }
    }
    if e.windir_caps.is_none() && e.windir.is_none() {
        let value = root_chain(e);
        let ghost prev = r@;
        r.push((String::from_str("WINDIR"), value));
        proof {
            acc = acc + seq![("WINDIR"@, spec_root_chain(e))];
            assert(spec_env_views(r@) =~= spec_env_views(prev).push(
                ("WINDIR"@, spec_root_chain(e)),
            ));
            assert(spec_env_views(r@) =~= acc);
        }
    }
    proof {
        assert(acc =~= spec_windows_env_fixups(e));
    }
    r
}

fn take_two(s: &str) -> (r: String)
    ensures
        r@ == s@.take(if s@.len() < 2 {
            s@.len() as int
        } else {
            2
        }),
{
    let n: usize = s.unicode_len();
    let k: usize = if n < 2 {
        n
    } else {
        2
    };
    let r = substring_copy(s, 0, k);
    proof {
        assert(s@.subrange(0, k as int) =~= s@.take(k as int));
    }
    r
}

} // verus!
