//! Projects and their executable commands: package scripts kept sorted by
//! name, user-defined commands in insertion order, and the two optional
//! PTY sessions (dev server and interactive shell) a project may own.

use vstd::prelude::*;
use vstd::string::{StrSliceExecFns, StringExecFns};
use crate::session::PtyHandle;
use crate::text::{spec_base_name, base_name, is_blank, spec_is_space};

verus! {

/// How a command entry is executed: as a package-manager script or as a
/// raw shell command line.
#[derive(Debug, Clone, Copy, PartialEq, Eq, Structural)]
pub enum CommandType {
    NpmScript,
    RawShell,
}

/// One executable command of a project.
#[derive(Debug)]
pub struct CommandEntry {
    pub id: String,
    pub name: String,
    pub command: String,
    pub cmd_type: CommandType,
}

/// Relies on uuid's Uuid::new_v4, rendered in hyphenated form: a fresh
/// random 36-character identifier.
#[verifier::external_body]
pub(crate) fn fresh_uuid() -> (r: String)
    ensures
        r@.len() == 36,
{
    uuid::Uuid::new_v4().to_string()
}

fn copy_string(s: &String) -> (r: String)
    ensures
        r@ == s@,
{
    String::from_str(s.as_str())
}

pub(crate) fn clone_entry(e: &CommandEntry) -> (r: CommandEntry)
    ensures
        r.id@ == e.id@,
        r.name@ == e.name@,
        r.command@ == e.command@,
        r.cmd_type == e.cmd_type,
{
    CommandEntry {
        id: copy_string(&e.id),
        name: copy_string(&e.name),
        command: copy_string(&e.command),
        cmd_type: e.cmd_type,
    }
}

impl CommandEntry {
    /// A command executed through the project's package manager, under a
    /// fresh identifier.
    pub fn new_npm_script(name: &str, command: &str) -> (r: Self)
        ensures
            r.id@.len() == 36,
            r.name@ == name@,
            r.command@ == command@,
            r.cmd_type == CommandType::NpmScript,
    {
        CommandEntry {
            id: fresh_uuid(),
            name: String::from_str(name),
            command: String::from_str(command),
            cmd_type: CommandType::NpmScript,
        }
    }

    /// A raw shell command line, under a fresh identifier.
    pub fn new_raw_shell(name: &str, command: &str) -> (r: Self)
        ensures
            r.id@.len() == 36,
            r.name@ == name@,
            r.command@ == command@,
            r.cmd_type == CommandType::RawShell,
    {
        CommandEntry {
            id: fresh_uuid(),
            name: String::from_str(name),
            command: String::from_str(command),
            cmd_type: CommandType::RawShell,
        }
    }
}

/// The fields this library reads from a parsed package manifest.
pub struct PackageJson {
    pub name: Option<String>,
    pub version: Option<String>,
    pub scripts: Option<Vec<(String, String)>>,
}

/// Lexicographic order on character codes.
pub open spec fn spec_str_le(a: Seq<char>, b: Seq<char>) -> bool
    decreases a.len(),
{
    if a.len() == 0 {
        true
    } else if b.len() == 0 {
        false
    } else if (a[0] as u32) < (b[0] as u32) {
        true
    } else if (a[0] as u32) > (b[0] as u32) {
        false
    } else {
        spec_str_le(a.drop_first(), b.drop_first())
    }
}

pub proof fn lemma_str_le_total(a: Seq<char>, b: Seq<char>)
    ensures
        spec_str_le(a, b) || spec_str_le(b, a),
    decreases a.len(),
{
    if a.len() > 0 && b.len() > 0 && !((a[0] as u32) < (b[0] as u32)) && !((a[0] as u32) > (
    b[0] as u32)) {
        lemma_str_le_total(a.drop_first(), b.drop_first());
    }
}

pub proof fn lemma_str_le_trans(a: Seq<char>, b: Seq<char>, c: Seq<char>)
    requires
        spec_str_le(a, b),
        spec_str_le(b, c),
    ensures
        spec_str_le(a, c),
    decreases a.len(),
{
    if a.len() > 0 && b.len() > 0 && c.len() > 0 && !((a[0] as u32) < (b[0] as u32)) && !((
    a[0] as u32) > (b[0] as u32)) && !((b[0] as u32) < (c[0] as u32)) && !((b[0] as u32) > (
    c[0] as u32)) {
        lemma_str_le_trans(a.drop_first(), b.drop_first(), c.drop_first());
    }
}

/// Compares two strings in character-code order.
pub fn str_le(a: &str, b: &str) -> (r: bool)
    ensures
        r == spec_str_le(a@, b@),
{
    let an: usize = a.unicode_len();
    let bn: usize = b.unicode_len();
    let mut i: usize = 0;
    proof {
        assert(a@.skip(0) =~= a@);
        assert(b@.skip(0) =~= b@);
    }
    loop
        invariant
            an == a@.len(),
            bn == b@.len(),
            i <= an,
            i <= bn,
            spec_str_le(a@, b@) == spec_str_le(a@.skip(i as int), b@.skip(i as int)),
        decreases an - i,
    {
        if i >= an {
            proof {
                assert(a@.skip(i as int).len() == 0);
            }
            return true;
        }
        if i >= bn {
            proof {
                assert(b@.skip(i as int).len() == 0);
                assert(a@.skip(i as int).len() > 0);
            }
            return false;
        }
        let ca: char = a.get_char(i);
        let cb: char = b.get_char(i);
        proof {
            assert(a@.skip(i as int)[0] == a@[i as int]);
            assert(b@.skip(i as int)[0] == b@[i as int]);
            assert(a@.skip(i as int).drop_first() =~= a@.skip(i + 1));
            assert(b@.skip(i as int).drop_first() =~= b@.skip(i + 1));
        }
        if ca != cb {
            return ca < cb;
        }
        i = i + 1;
    }
}

/// The script list is sorted by name in character-code order.
pub open spec fn spec_scripts_sorted(s: Seq<(String, String)>) -> bool {
    forall|i: int, j: int|
        0 <= i < j < s.len() ==> spec_str_le((#[trigger] s[i]).0@, (#[trigger] s[j]).0@)
}

/// The scripts with each string replaced by its character sequence.
pub open spec fn spec_script_views(s: Seq<(String, String)>) -> Seq<(Seq<char>, Seq<char>)> {
    s.map_values(|p: (String, String)| (p.0@, p.1@))
}

proof fn lemma_insert_to_multiset<A>(s: Seq<A>, idx: int, p: A)
    requires
        0 <= idx <= s.len(),
    ensures
        s.insert(idx, p).to_multiset() =~= s.to_multiset().insert(p),
{
    broadcast use vstd::seq_lib::group_to_multiset_ensures;
    broadcast use vstd::multiset::group_multiset_axioms;

    let t = s.insert(idx, p);
    assert(t[idx] == p);
    assert(t.remove(idx) =~= s);
    assert(t.remove(idx).to_multiset() =~= t.to_multiset().remove(t[idx]));
    assert(t.contains(p));
    assert(t.to_multiset().count(p) > 0);
    assert forall|x: A| t.to_multiset().count(x) == s.to_multiset().insert(p).count(x) by {
        if x == p {
            assert(s.to_multiset().count(x) == t.to_multiset().count(x) - 1);
        } else {
            assert(s.to_multiset().count(x) == t.to_multiset().count(x));
        }
    }
    assert(t.to_multiset() =~= s.to_multiset().insert(p));
}

/// A project under management: its directory, its display identity, its
/// commands, and its two optional PTY sessions.
pub struct Project {
    /// The project directory.
    pub path: String,
    /// Name from the directory or the package manifest.
    pub name: String,
    /// User-chosen display alias.
    pub alias: Option<String>,
    /// Package scripts, sorted by name.
    pub scripts: Vec<(String, String)>,
    /// User-defined commands, in the order they were added.
    pub custom_commands: Vec<CommandEntry>,
    /// The dev-server session, while one runs.
    pub dev_pty: Option<PtyHandle>,
    /// The interactive-shell session, while one runs.
    pub shell_pty: Option<PtyHandle>,
    /// Scroll offset of the dev panel.
    pub dev_scroll_offset: usize,
    /// Scroll offset of the shell panel.
    pub shell_scroll_offset: usize,
    /// When the dev server was started, in caller-supplied milliseconds.
    pub dev_started_at_ms: Option<u64>,
}

impl Project {
    /// Sessions are well formed and the scripts stay sorted.
    pub open spec fn wf(&self) -> bool {
        &&& (self.dev_pty matches Some(h) ==> h.wf())
        &&& (self.shell_pty matches Some(h) ==> h.wf())
        &&& spec_scripts_sorted(self.scripts@)
    }

    /// A fresh project for the given directory, named after the
    /// directory's trailing path component (or "unknown" when the path
    /// has none).
    pub fn new(path: String) -> (r: Self)
        ensures
            r.wf(),
            r.path@ == path@,
            spec_base_name(path@).len() > 0 ==> r.name@ == spec_base_name(path@),
            spec_base_name(path@).len() == 0 ==> r.name@ == "unknown"@,
            r.alias is None,
            r.scripts@.len() == 0,
            r.custom_commands@.len() == 0,
            r.dev_pty is None,
            r.shell_pty is None,
            r.dev_scroll_offset == 0,
            r.shell_scroll_offset == 0,
            r.dev_started_at_ms is None,
    {
        let base = base_name(path.as_str());
        let name: String = if base.as_str().unicode_len() == 0 {
            String::from_str("unknown")
        } else {
            base
        };
        Project {
            path,
            name,
            alias: None,
            scripts: Vec::new(),
            custom_commands: Vec::new(),
            dev_pty: None,
            shell_pty: None,
            dev_scroll_offset: 0,
            shell_scroll_offset: 0,
            dev_started_at_ms: None,
        }
    }

    /// Records when the dev server was started.
    pub fn mark_dev_started(&mut self, now_ms: u64)
        ensures
            final(self).dev_started_at_ms == Some(now_ms),
            final(self).path == old(self).path,
            final(self).name == old(self).name,
            final(self).alias == old(self).alias,
            final(self).scripts == old(self).scripts,
            final(self).custom_commands == old(self).custom_commands,
            final(self).dev_pty == old(self).dev_pty,
            final(self).shell_pty == old(self).shell_pty,
            final(self).dev_scroll_offset == old(self).dev_scroll_offset,
            final(self).shell_scroll_offset == old(self).shell_scroll_offset,
    {
        self.dev_started_at_ms = Some(now_ms);
    }

    /// Forgets the dev server's start time.
    pub fn mark_dev_stopped(&mut self)
        ensures
            final(self).dev_started_at_ms is None,
            final(self).path == old(self).path,
            final(self).name == old(self).name,
            final(self).alias == old(self).alias,
            final(self).scripts == old(self).scripts,
            final(self).custom_commands == old(self).custom_commands,
            final(self).dev_pty == old(self).dev_pty,
            final(self).shell_pty == old(self).shell_pty,
            final(self).dev_scroll_offset == old(self).dev_scroll_offset,
            final(self).shell_scroll_offset == old(self).shell_scroll_offset,
    {
        self.dev_started_at_ms = None;
    }

    /// The name shown in the sidebar: the alias when one is set.
    pub fn display_name(&self) -> (r: &str)
        ensures
            (self.alias matches Some(a) ==> r@ == a@),
            self.alias is None ==> r@ == self.name@,
    {
        match &self.alias {
            Some(a) => a.as_str(),
            None => self.name.as_str(),
        }
    }

    /// Sets or clears the alias; a blank alias counts as cleared.
    pub fn set_alias(&mut self, alias: Option<String>)
        ensures
            final(self).path == old(self).path,
            final(self).name == old(self).name,
            final(self).scripts == old(self).scripts,
            final(self).custom_commands == old(self).custom_commands,
            final(self).dev_pty == old(self).dev_pty,
            final(self).shell_pty == old(self).shell_pty,
            final(self).dev_scroll_offset == old(self).dev_scroll_offset,
            final(self).shell_scroll_offset == old(self).shell_scroll_offset,
            final(self).dev_started_at_ms == old(self).dev_started_at_ms,
            (alias matches Some(a) ==> ((forall|j: int| 0 <= j < a@.len() ==> spec_is_space(a@[j]))
                ==> final(self).alias is None)),
            (alias matches Some(a) ==> (!(forall|j: int|
                0 <= j < a@.len() ==> spec_is_space(a@[j])) ==> final(self).alias == Some(a))),
            alias is None ==> final(self).alias is None,
    {
        self.alias = match alias {
            Some(a) => {
                if is_blank(a.as_str()) {
                    None
                } else {
                    Some(a)
                }
            },
            None => None,
        };
    }

    /// Inserts one package script, keeping the list sorted by name.
    pub fn insert_script(&mut self, name: String, value: String)
        requires
            spec_scripts_sorted(old(self).scripts@),
        ensures
            spec_scripts_sorted(final(self).scripts@),
            final(self).scripts@.len() == old(self).scripts@.len() + 1,
            spec_script_views(final(self).scripts@).to_multiset() == spec_script_views(
                old(self).scripts@,
            ).to_multiset().insert((name@, value@)),
            final(self).path == old(self).path,
            final(self).name == old(self).name,
            final(self).alias == old(self).alias,
            final(self).custom_commands == old(self).custom_commands,
            final(self).dev_pty == old(self).dev_pty,
            final(self).shell_pty == old(self).shell_pty,
            final(self).dev_started_at_ms == old(self).dev_started_at_ms,
            final(self).dev_scroll_offset == old(self).dev_scroll_offset,
            final(self).shell_scroll_offset == old(self).shell_scroll_offset,
    {
        let n: usize = self.scripts.len();
        let mut idx: usize = 0;
        let mut found: bool = false;
        while idx < n && !found
            invariant
                n == self.scripts@.len(),
                idx <= n,
                spec_scripts_sorted(self.scripts@),
                forall|j: int| 0 <= j < idx ==> spec_str_le((#[trigger] self.scripts@[j]).0@, name@),
                found ==> idx < n && spec_str_le(name@, self.scripts@[idx as int].0@),
            decreases n - idx, (if found { 0int } else { 1int }),
        {
            if str_le(name.as_str(), self.scripts[idx].0.as_str()) {
                found = true;
            } else {
                proof {
                    lemma_str_le_total(name@, self.scripts@[idx as int].0@);
                }
                idx = idx + 1;
            }
        }
        proof {
            let s = self.scripts@;
            let pair = (name, value);
            let t = s.insert(idx as int, pair);
            assert forall|i: int, j: int| 0 <= i < j < t.len() implies spec_str_le(
                (#[trigger] t[i]).0@,
                (#[trigger] t[j]).0@,
            ) by {
                if j < idx {
                    assert(t[i] == s[i]);
                    assert(t[j] == s[j]);
                } else if i < idx && j == idx {
                    assert(t[i] == s[i]);
                } else if i == idx && j > idx {
                    assert(t[j] == s[j - 1]);
                    assert(idx < s.len());
                    if j - 1 > idx {
                        lemma_str_le_trans(name@, s[idx as int].0@, s[j - 1].0@);
                    }
                } else if i < idx && j > idx {
                    assert(t[i] == s[i]);
                    assert(t[j] == s[j - 1]);
                    if j - 1 == i {
                        lemma_str_le_total(s[i].0@, s[i].0@);
                    }
                } else {
                    assert(t[i] == s[i - 1]);
                    assert(t[j] == s[j - 1]);
                }
            }
            lemma_insert_to_multiset(spec_script_views(s), idx as int, (name@, value@));
            assert(spec_script_views(t) =~= spec_script_views(s).insert(
                idx as int,
                (name@, value@),
            ));
        }
        self.scripts.insert(idx, (name, value));
    }

    /// Takes the project's name and scripts from a parsed package
    /// manifest; a missing name keeps the directory name, missing
    /// scripts leave the list empty.
    pub fn apply_package(&mut self, pkg: &PackageJson)
        requires
            old(self).wf(),
        ensures
            final(self).wf(),
            (pkg.name matches Some(n) ==> final(self).name@ == n@),
            pkg.name is None ==> final(self).name@ == old(self).name@,
            (pkg.scripts matches Some(s) ==> spec_script_views(final(self).scripts@).to_multiset()
                == spec_script_views(s@).to_multiset()),
            pkg.scripts is None ==> final(self).scripts@.len() == 0,
            final(self).path == old(self).path,
            final(self).alias == old(self).alias,
            final(self).custom_commands == old(self).custom_commands,
            final(self).dev_pty == old(self).dev_pty,
            final(self).shell_pty == old(self).shell_pty,
    {
        if let Some(n) = &pkg.name {
            self.name = copy_string(n);
        }
        self.scripts = Vec::new();
        proof {
            assert(spec_script_views(self.scripts@) =~= Seq::<(Seq<char>, Seq<char>)>::empty());
        }
        if let Some(s) = &pkg.scripts {
            let m: usize = s.len();
            let mut i: usize = 0;
            proof {
                assert(spec_script_views(s@.subrange(0, 0)) =~= Seq::<(
                    Seq<char>,
                    Seq<char>,
                )>::empty());
                assert(spec_script_views(self.scripts@).to_multiset() =~= spec_script_views(
                    s@.subrange(0, 0),
                ).to_multiset());
            }
            while i < m
                invariant
                    m == s@.len(),
                    i <= m,
                    spec_scripts_sorted(self.scripts@),
                    spec_script_views(self.scripts@).to_multiset() == spec_script_views(
                        s@.subrange(0, i as int),
                    ).to_multiset(),
                    self.path == old(self).path,
                    self.name@ == (match pkg.name {
                        Some(nm) => nm@,
                        None => old(self).name@,
                    }),
                    self.alias == old(self).alias,
                    self.custom_commands == old(self).custom_commands,
                    self.dev_pty == old(self).dev_pty,
                    self.shell_pty == old(self).shell_pty,
                    self.dev_started_at_ms == old(self).dev_started_at_ms,
                    self.dev_scroll_offset == old(self).dev_scroll_offset,
                    self.shell_scroll_offset == old(self).shell_scroll_offset,
                decreases m - i,
            {
                broadcast use vstd::seq_lib::group_to_multiset_ensures;

                let pair = &s[i];
                self.insert_script(copy_string(&pair.0), copy_string(&pair.1));
                proof {
                    let pre = s@.subrange(0, i as int);
                    let post = s@.subrange(0, i + 1);
                    assert(post.drop_last() =~= pre);
                    assert(post.last() == s@[i as int]);
                    assert(spec_script_views(post).drop_last() =~= spec_script_views(pre));
                    assert(spec_script_views(post).last() == (s@[i as int].0@, s@[i as int].1@));
                    assert(spec_script_views(post) =~= spec_script_views(pre).push(
                        (s@[i as int].0@, s@[i as int].1@),
                    ));
                }
                i = i + 1;
            }
            proof {
                assert(s@.subrange(0, m as int) =~= s@);
            }
        }
    }

    /// Appends a user-defined raw shell command.
    pub fn add_custom_command(&mut self, name: &str, command: &str)
        ensures
            final(self).custom_commands@.len() == old(self).custom_commands@.len() + 1,
            final(self).custom_commands@.drop_last() == old(self).custom_commands@,
            final(self).custom_commands@.last().name@ == name@,
            final(self).custom_commands@.last().command@ == command@,
            final(self).custom_commands@.last().cmd_type == CommandType::RawShell,
            final(self).path == old(self).path,
            final(self).name == old(self).name,
            final(self).alias == old(self).alias,
            final(self).scripts == old(self).scripts,
            final(self).dev_pty == old(self).dev_pty,
            final(self).shell_pty == old(self).shell_pty,
    {
        self.custom_commands.push(CommandEntry::new_raw_shell(name, command));
        proof {
            assert(self.custom_commands@.drop_last() =~= old(self).custom_commands@);
        }
    }

    /// Whether a dev-server session exists.
    pub fn is_dev_running(&self) -> (r: bool)
        ensures
            r == (self.dev_pty is Some),
    {
        self.dev_pty.is_some()
    }

    /// All executable commands: the package scripts first (sorted by
    /// name, as stored), then the user-defined commands in insertion
    /// order. Script entries are minted fresh, so their identifiers are
    /// new on every call.
    pub fn get_all_commands(&self) -> (r: Vec<CommandEntry>)
        ensures
            r@.len() == self.scripts@.len() + self.custom_commands@.len(),
            forall|i: int|
                0 <= i < self.scripts@.len() ==> {
                    &&& (#[trigger] r@[i]).name@ == self.scripts@[i].0@
                    &&& r@[i].command@ == self.scripts@[i].1@
                    &&& r@[i].cmd_type == CommandType::NpmScript
                },
            forall|j: int|
                0 <= j < self.custom_commands@.len() ==> {
                    &&& (#[trigger] r@[self.scripts@.len() + j]).id@
                        == self.custom_commands@[j].id@
                    &&& r@[self.scripts@.len() + j].name@ == self.custom_commands@[j].name@
                    &&& r@[self.scripts@.len() + j].command@ == self.custom_commands@[j].command@
                    &&& r@[self.scripts@.len() + j].cmd_type == self.custom_commands@[j].cmd_type
                },
    {
        let mut r: Vec<CommandEntry> = Vec::new();
        let n: usize = self.scripts.len();
        let mut i: usize = 0;
        while i < n
            invariant
                n == self.scripts@.len(),
                i <= n,
                r@.len() == i,
                forall|k: int|
                    0 <= k < i ==> {
                        &&& (#[trigger] r@[k]).name@ == self.scripts@[k].0@
                        &&& r@[k].command@ == self.scripts@[k].1@
                        &&& r@[k].cmd_type == CommandType::NpmScript
                    },
            decreases n - i,
        {
            let pair = &self.scripts[i];
            r.push(CommandEntry::new_npm_script(pair.0.as_str(), pair.1.as_str()));
            i = i + 1;
        }
        let m: usize = self.custom_commands.len();
        let mut j: usize = 0;
        while j < m
            invariant
                n == self.scripts@.len(),
                m == self.custom_commands@.len(),
                j <= m,
                r@.len() == n + j,
                forall|k: int|
                    0 <= k < n ==> {
                        &&& (#[trigger] r@[k]).name@ == self.scripts@[k].0@
                        &&& r@[k].command@ == self.scripts@[k].1@
                        &&& r@[k].cmd_type == CommandType::NpmScript
                    },
                forall|k: int|
                    0 <= k < j ==> {
                        &&& (#[trigger] r@[n + k]).id@ == self.custom_commands@[k].id@
                        &&& r@[n + k].name@ == self.custom_commands@[k].name@
                        &&& r@[n + k].command@ == self.custom_commands@[k].command@
                        &&& r@[n + k].cmd_type == self.custom_commands@[k].cmd_type
                    },
            decreases m - j,
        {
            r.push(clone_entry(&self.custom_commands[j]));
            j = j + 1;
        }
        r
    }
}

/// The persisted form of a project: no runtime state.
pub struct ProjectConfig {
    pub path: String,
    pub alias: Option<String>,
    pub custom_commands: Vec<CommandEntry>,
}

impl ProjectConfig {
    /// The persisted form of a live project.
    pub fn of_project(project: &Project) -> (r: Self)
        ensures
            r.path@ == project.path@,
            (project.alias matches Some(a) ==> (r.alias matches Some(b) && b@ == a@)),
            project.alias is None ==> r.alias is None,
            r.custom_commands@.len() == project.custom_commands@.len(),
            forall|k: int|
                0 <= k < project.custom_commands@.len() ==> {
                    &&& (#[trigger] r.custom_commands@[k]).id@ == project.custom_commands@[k].id@
                    &&& r.custom_commands@[k].name@ == project.custom_commands@[k].name@
                    &&& r.custom_commands@[k].command@ == project.custom_commands@[k].command@
                    &&& r.custom_commands@[k].cmd_type == project.custom_commands@[k].cmd_type
                },
    {
        let alias: Option<String> = match &project.alias {
            Some(a) => Some(copy_string(a)),
            None => None,
        };
        let mut cmds: Vec<CommandEntry> = Vec::new();
        let m: usize = project.custom_commands.len();
        let mut j: usize = 0;
        while j < m
            invariant
                m == project.custom_commands@.len(),
                j <= m,
                cmds@.len() == j,
                forall|k: int|
                    0 <= k < j ==> {
                        &&& (#[trigger] cmds@[k]).id@ == project.custom_commands@[k].id@
                        &&& cmds@[k].name@ == project.custom_commands@[k].name@
                        &&& cmds@[k].command@ == project.custom_commands@[k].command@
                        &&& cmds@[k].cmd_type == project.custom_commands@[k].cmd_type
                    },
            decreases m - j,
        {
            cmds.push(clone_entry(&project.custom_commands[j]));
            j = j + 1;
        }
        ProjectConfig { path: copy_string(&project.path), alias, custom_commands: cmds }
    }
}

} // verus!
