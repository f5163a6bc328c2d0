//! Application configuration: settings and the persisted project list.
//! Reading and writing the configuration file is the caller's business;
//! this module owns the data and the update rules.

use vstd::prelude::*;
use vstd::string::StringExecFns;
use crate::project::ProjectConfig;
use crate::i18n::Language;
use crate::text::str_eq;

verus! {

/// Which shell to launch on the OS that offers a choice of two.
#[derive(Debug, Clone, Copy, PartialEq, Eq, Structural)]
pub enum WindowsShell {
    PowerShell,
    Cmd,
}

impl WindowsShell {
    /// Switches to the other shell.
    pub fn toggle(&self) -> (r: Self)
        ensures
            self is PowerShell ==> r is Cmd,
            self is Cmd ==> r is PowerShell,
    {
        match self {
            WindowsShell::PowerShell => WindowsShell::Cmd,
            WindowsShell::Cmd => WindowsShell::PowerShell,
        }
    }

    /// The label shown in the settings list.
    pub fn display_name(&self) -> (r: &'static str)
        ensures
            self is PowerShell ==> r@ == "PowerShell"@,
            self is Cmd ==> r@ == "CMD"@,
    {
        match self {
            WindowsShell::PowerShell => "PowerShell",
            WindowsShell::Cmd => "CMD",
        }
    }
}

impl Default for WindowsShell {
    /// PowerShell is the default choice.
    fn default() -> (r: Self)
        ensures
            r is PowerShell,
    {
        WindowsShell::PowerShell
    }
}

/// User-facing settings, persisted across runs.
pub struct AppSettings {
    /// Theme name.
    pub theme: String,
    /// Preferred package runner.
    pub default_runner: String,
    /// Interface language.
    pub language: Language,
    /// Shell choice on the OS that offers one.
    pub windows_shell: WindowsShell,
    /// Whether the first-run settings hint was already shown.
    pub first_run_shown: bool,
    /// The directory last browsed, persisted across runs.
    pub last_browse_dir: Option<String>,
}

/// The settings a fresh installation starts from.
pub open spec fn spec_default_settings(s: &AppSettings) -> bool {
    &&& s.theme@ == "catppuccin-mocha"@
    &&& s.default_runner@ == "pnpm"@
    &&& s.language is English
    &&& s.windows_shell is PowerShell
    &&& s.first_run_shown == false
    &&& s.last_browse_dir is None
}

impl Default for AppSettings {
    /// The settings a fresh installation starts from.
    fn default() -> (r: Self)
        ensures
            spec_default_settings(&r),
    {
        AppSettings {
            theme: String::from_str("catppuccin-mocha"),
            default_runner: String::from_str("pnpm"),
            language: Language::English,
            windows_shell: WindowsShell::PowerShell,
            first_run_shown: false,
            last_browse_dir: None,
        }
    }
}

/// The whole persisted configuration: the project list and the settings.
pub struct AppConfig {
    pub projects: Vec<ProjectConfig>,
    pub settings: AppSettings,
}

/// Whether the configured project list holds an entry for this path.
pub open spec fn spec_has_project(projects: Seq<ProjectConfig>, path: Seq<char>) -> bool {
    exists|i: int| 0 <= i < projects.len() && (#[trigger] projects[i]).path@ == path
}

impl AppConfig {
    /// An empty configuration with default settings.
    pub fn new() -> (r: Self)
        ensures
            r.projects@.len() == 0,
            spec_default_settings(&r.settings),
    {
        AppConfig { projects: Vec::new(), settings: AppSettings::default() }
    }

    /// Adds a project entry unless one with the same path already exists.
    pub fn add_project(&mut self, config: ProjectConfig)
        ensures
            final(self).settings == old(self).settings,
            spec_has_project(old(self).projects@, config.path@) ==> final(self).projects
                == old(self).projects,
            !spec_has_project(old(self).projects@, config.path@) ==> final(self).projects@
                == old(self).projects@.push(config),
    {
        let n: usize = self.projects.len();
        let mut i: usize = 0;
        while i < n
            invariant
                n == self.projects@.len(),
                i <= n,
                self.settings == old(self).settings,
                self.projects@ == old(self).projects@,
                forall|j: int| 0 <= j < i ==> (#[trigger] self.projects@[j]).path@ != config.path@,
            decreases n - i,
        {
            if str_eq(self.projects[i].path.as_str(), config.path.as_str()) {
                return ;
            }
            i = i + 1;
        }
        self.projects.push(config);
    }

    /// Removes every project entry with the given path, keeping the
    /// others in order.
    pub fn remove_project(&mut self, path: &str)
        ensures
            final(self).settings == old(self).settings,
            final(self).projects@ == old(self).projects@.filter(
                |p: ProjectConfig| p.path@ != path@,
            ),
    {
        broadcast use vstd::prelude::Seq::lemma_filter_push;

        let ghost orig = self.projects@;
        let ghost pred = |p: ProjectConfig| p.path@ != path@;
        let n: usize = self.projects.len();
        let mut kept: Vec<ProjectConfig> = Vec::new();
        proof {
            assert(orig.subrange(0, 0) =~= Seq::<ProjectConfig>::empty());
            assert(Seq::<ProjectConfig>::empty().filter(pred) =~= Seq::<ProjectConfig>::empty());
        }
        let mut i: usize = 0;
        while i < n
            invariant
                n == orig.len(),
                orig == old(self).projects@,
                i <= n,
                self.projects@ == orig.subrange(i as int, n as int),
                self.settings == old(self).settings,
                pred == (|p: ProjectConfig| p.path@ != path@),
                kept@ == orig.subrange(0, i as int).filter(pred),
            decreases n - i,
        {
            let entry = self.projects.remove(0);
            proof {
                assert(orig.subrange(i as int, n as int)[0] == orig[i as int]);
                assert(orig.subrange(i as int, n as int).remove(0) =~= orig.subrange(
                    i + 1,
                    n as int,
                ));
                assert(orig.subrange(0, i + 1) =~= orig.subrange(0, i as int).push(orig[i as int]));
                orig.subrange(0, i as int).lemma_filter_push(orig[i as int], pred);
            }
            if !str_eq(entry.path.as_str(), path) {
                kept.push(entry);
            }
            i = i + 1;
        }
        proof {
            assert(orig.subrange(0, n as int) =~= orig);
        }
        self.projects = kept;
    }

    /// Replaces the entry with the same path, or appends the
    /// configuration when none exists.
    pub fn update_project(&mut self, config: ProjectConfig)
        ensures
            final(self).settings == old(self).settings,
            !spec_has_project(old(self).projects@, config.path@) ==> final(self).projects@
                == old(self).projects@.push(config),
            spec_has_project(old(self).projects@, config.path@) ==> (exists|i: int|
                0 <= i < old(self).projects@.len() && (#[trigger] old(self).projects@[i]).path@
                    == config.path@ && (forall|j: int|
                    0 <= j < i ==> (#[trigger] old(self).projects@[j]).path@ != config.path@)
                    && final(self).projects@ == old(self).projects@.update(i, config)),
    {
        let n: usize = self.projects.len();
        let mut i: usize = 0;
        while i < n
            invariant
                n == self.projects@.len(),
                i <= n,
                self.settings == old(self).settings,
                self.projects@ == old(self).projects@,
                forall|j: int| 0 <= j < i ==> (#[trigger] self.projects@[j]).path@ != config.path@,
            decreases n - i,
        {
            if str_eq(self.projects[i].path.as_str(), config.path.as_str()) {
                self.projects.set(i, config);
                return ;
            }
            i = i + 1;
        }
        self.projects.push(config);
    }
}

/// The configuration file path under the given home directory.
pub fn get_config_path(home_dir: &str) -> (r: String)
    ensures
        r@ == home_dir@ + "/.devpanel/config.json"@,
{
    proof {
        reveal_strlit("/.devpanel/config.json");
    }
    let mut r = String::from_str(home_dir);
    r.append("/.devpanel/config.json");
    r
}

} // verus!
