//! The application's single-threaded state: projects, focus, modes, the
//! status line, and the arbitration that serializes PTY creation and
//! teardown. Time and process snapshots enter as plain values.

use vstd::prelude::*;
use vstd::string::{StrSliceExecFns, StringExecFns};
use crate::browser::DirectoryBrowser;
use crate::config::AppConfig;
use crate::i18n::{I18n, Language};
use crate::process_tree::{ProcessSnapshot, spec_tree_set};
use crate::project::Project;
use crate::session::KillTicket;
use crate::resource::{spec_cores, spec_cpu_sum, spec_mem_sum, spec_totals_fit};
use crate::status::{StatusMessage, spec_age_ms};
use crate::text::{digit_str, spec_digit_char, spec_u64_dec, u64_to_string};

verus! {

/// Which pane has keyboard focus.
#[derive(Debug, Clone, Copy, PartialEq, Eq, Structural)]
pub enum FocusArea {
    Sidebar,
    DevTerminal,
    ShellTerminal,
}

impl FocusArea {
    /// The next pane in the focus cycle.
    pub open spec fn spec_next(self) -> Self {
        match self {
            FocusArea::Sidebar => FocusArea::DevTerminal,
            FocusArea::DevTerminal => FocusArea::ShellTerminal,
            FocusArea::ShellTerminal => FocusArea::Sidebar,
        }
    }

    /// The previous pane in the focus cycle.
    pub open spec fn spec_prev(self) -> Self {
        match self {
            FocusArea::Sidebar => FocusArea::ShellTerminal,
            FocusArea::DevTerminal => FocusArea::Sidebar,
            FocusArea::ShellTerminal => FocusArea::DevTerminal,
        }
    }

    /// The next pane in the focus cycle.
    pub fn next(&self) -> (r: Self)
        ensures
            self is Sidebar ==> r is DevTerminal,
            self is DevTerminal ==> r is ShellTerminal,
            self is ShellTerminal ==> r is Sidebar,
    {
        match self {
            FocusArea::Sidebar => FocusArea::DevTerminal,
            FocusArea::DevTerminal => FocusArea::ShellTerminal,
            FocusArea::ShellTerminal => FocusArea::Sidebar,
        }
    }

    /// The previous pane in the focus cycle.
    pub fn prev(&self) -> (r: Self)
        ensures
            self is Sidebar ==> r is ShellTerminal,
            self is DevTerminal ==> r is Sidebar,
            self is ShellTerminal ==> r is DevTerminal,
    {
        match self {
            FocusArea::Sidebar => FocusArea::ShellTerminal,
            FocusArea::DevTerminal => FocusArea::Sidebar,
            FocusArea::ShellTerminal => FocusArea::DevTerminal,
        }
    }
}

impl Default for FocusArea {
    /// Focus starts on the sidebar.
    fn default() -> (r: Self)
        ensures
            r is Sidebar,
    {
        FocusArea::Sidebar
    }
}

/// Where a palette command is executed.
#[derive(Debug, Clone, Copy, PartialEq, Eq, Structural)]
pub enum CommandTarget {
    DevTerminal,
    ShellTerminal,
}

/// How the two right-hand panes share their column.
#[derive(Debug, Clone, Copy, PartialEq, Eq, Structural)]
pub enum PanelLayout {
    Split,
    DevMax,
    ShellMax,
}

impl PanelLayout {
    /// The next layout in the cycle.
    pub fn next(&self) -> (r: Self)
        ensures
            self is Split ==> r is DevMax,
            self is DevMax ==> r is ShellMax,
            self is ShellMax ==> r is Split,
    {
        match self {
            PanelLayout::Split => PanelLayout::DevMax,
            PanelLayout::DevMax => PanelLayout::ShellMax,
            PanelLayout::ShellMax => PanelLayout::Split,
        }
    }
}

/// The interaction mode the application is in.
#[derive(Debug)]
pub enum AppMode {
    Normal,
    CommandPalette,
    AddCommand,
    AddProject,
    BrowseDirectory,
    EditAlias,
    Help,
    Settings,
    Confirm(String),
}

/// Tracks the teardown of an old PTY after a kill was issued: each tick
/// the caller polls whether the old process has left the snapshot, up to
/// a bounded wait.
#[derive(Debug, Clone)]
pub struct PtyCleanupState {
    pub started_at_ms: u64,
    pub old_pid: u32,
    pub project_idx: usize,
    pub poll_count: u32,
}

/// The longest a cleanup is awaited before proceeding anyway, in
/// milliseconds.
pub const CLEANUP_MAX_WAIT_MS: u64 = 3000;

impl PtyCleanupState {
    /// Starts waiting for the given old process to disappear.
    pub fn new(old_pid: u32, project_idx: usize, now_ms: u64) -> (r: Self)
        ensures
            r.started_at_ms == now_ms,
            r.old_pid == old_pid,
            r.project_idx == project_idx,
            r.poll_count == 0,
    {
        PtyCleanupState { started_at_ms: now_ms, old_pid, project_idx, poll_count: 0 }
    }

    /// How long the cleanup has been pending.
    pub fn elapsed_ms(&self, now_ms: u64) -> (r: u64)
        ensures
            r == spec_age_ms(self.started_at_ms, now_ms),
    {
        if now_ms >= self.started_at_ms {
            now_ms - self.started_at_ms
        } else {
            0
        }
    }
}

/// A queued dev command, waiting for a cleanup to resolve. A newer
/// request overwrites an older one.
#[derive(Debug, Clone, Copy, PartialEq, Eq, Structural)]
pub struct PendingDevCommand {
    pub command_idx: usize,
    pub project_idx: usize,
}

/// The token that serializes PTY creation: while one is held and its
/// cooldown window has not passed, no further PTY is created.
#[derive(Debug, Clone)]
pub struct PtyCreationLock {
    pub locked_at_ms: u64,
    pub reason: String,
    pub cooldown_ms: u64,
}

/// The cooldown after a PTY creation on the OS whose terminal subsystem
/// needs settling time; a tuning parameter, zero where no race exists.
pub const CREATION_COOLDOWN_MS: u64 = 150;

impl PtyCreationLock {
    /// Takes the token now, for the given reason.
    pub fn new(reason: &str, now_ms: u64, cooldown_ms: u64) -> (r: Self)
        ensures
            r.locked_at_ms == now_ms,
            r.reason@ == reason@,
            r.cooldown_ms == cooldown_ms,
    {
        PtyCreationLock {
            locked_at_ms: now_ms,
            reason: String::from_str(reason),
            cooldown_ms,
        }
    }

    /// How long the token has been held.
    pub fn elapsed_ms(&self, now_ms: u64) -> (r: u64)
        ensures
            r == spec_age_ms(self.locked_at_ms, now_ms),
    {
        if now_ms >= self.locked_at_ms {
            now_ms - self.locked_at_ms
        } else {
            0
        }
    }

    /// Whether the cooldown window has passed.
    pub fn is_expired(&self, now_ms: u64) -> (r: bool)
        ensures
            r == spec_lock_expired(self, now_ms),
    {
        self.elapsed_ms(now_ms) > self.cooldown_ms
    }
}

/// A held creation token is expired once its cooldown has elapsed.
pub open spec fn spec_lock_expired(lock: &PtyCreationLock, now_ms: u64) -> bool {
    spec_age_ms(lock.locked_at_ms, now_ms) > lock.cooldown_ms
}

/// A queued shell-start request, waiting for the creation token. A newer
/// request overwrites an older one.
#[derive(Debug, Clone, Copy, PartialEq, Eq, Structural)]
pub struct PendingShellRequest {
    pub project_idx: usize,
}

/// The whole single-threaded application state.
pub struct AppState {
    pub projects: Vec<Project>,
    pub active_project_idx: usize,
    pub focus: FocusArea,
    pub mode: AppMode,
    pub config: AppConfig,
    pub should_quit: bool,
    pub command_palette_idx: usize,
    pub command_target: CommandTarget,
    pub settings_idx: usize,
    pub input_buffer: String,
    pub status_message: Option<StatusMessage>,
    pub frame_count: u64,
    pub resource_update_frame: u64,
    pub panel_layout: PanelLayout,
    pub dir_browser: DirectoryBrowser,
    pub pty_cleanup: Option<PtyCleanupState>,
    pub pending_dev_command: Option<PendingDevCommand>,
    pub pty_creation_lock: Option<PtyCreationLock>,
    pub pending_shell_request: Option<PendingShellRequest>,
    /// The settling window applied to new creation tokens.
    pub creation_cooldown_ms: u64,
}

/// The resource figures one session's refresh yields from the snapshot:
/// without a process id the old figures stay; otherwise the session's
/// process tree is summed, CPU normalized by the core count, with zeros
/// when the tree is gone entirely.
pub open spec fn spec_usage_refreshed(
    h0: crate::session::PtyHandle,
    h1: crate::session::PtyHandle,
    snapshot: &ProcessSnapshot,
) -> bool {
    match h0.pid {
        None => h1.resource_usage == h0.resource_usage,
        Some(p) => {
            let tree = spec_tree_set(snapshot.processes@, p);
            if tree =~= Set::<u32>::empty() {
                h1.resource_usage.cpu_centi_percent == 0 && h1.resource_usage.memory_bytes == 0
            } else {
                h1.resource_usage.cpu_centi_percent == spec_cpu_sum(snapshot.processes@, tree)
                    / spec_cores(snapshot) && h1.resource_usage.memory_bytes == spec_mem_sum(
                    snapshot.processes@,
                    tree,
                )
            }
        },
    }
}

/// How a resource refresh moves one project: everything but the dev
/// session's resource figures is untouched, the dev session keeps its
/// identity, process id and flags, and its figures are the snapshot's
/// tree sample for its process id.
pub open spec fn spec_resampled(oldp: Project, newp: Project, snapshot: &ProcessSnapshot) -> bool {
    &&& newp.path == oldp.path
    &&& newp.name == oldp.name
    &&& newp.alias == oldp.alias
    &&& newp.scripts == oldp.scripts
    &&& newp.custom_commands == oldp.custom_commands
    &&& newp.shell_pty == oldp.shell_pty
    &&& newp.dev_scroll_offset == oldp.dev_scroll_offset
    &&& newp.shell_scroll_offset == oldp.shell_scroll_offset
    &&& newp.dev_started_at_ms == oldp.dev_started_at_ms
    &&& (oldp.dev_pty is None ==> newp.dev_pty == oldp.dev_pty)
    &&& (match (oldp.dev_pty, newp.dev_pty) {
        (Some(h0), Some(h1)) => h1.id@ == h0.id@ && h1.pid == h0.pid && h1.running == h0.running
            && h1.suspended == h0.suspended && spec_usage_refreshed(h0, h1, snapshot),
        (None, None) => true,
        _ => false,
    })
}

/// Whether a new PTY may be created under the given lock state.
pub open spec fn spec_can_create(lock: &Option<PtyCreationLock>, now_ms: u64) -> bool {
    match lock {
        Some(l) => spec_lock_expired(l, now_ms),
        None => true,
    }
}

impl AppState {
    /// Every owned project is well formed.
    pub open spec fn wf(&self) -> bool {
        forall|i: int| 0 <= i < self.projects@.len() ==> (#[trigger] self.projects@[i]).wf()
    }

    /// A fresh state around the given configuration.
    pub fn new(config: AppConfig) -> (r: Self)
        ensures
            r.wf(),
            r.projects@.len() == 0,
            r.active_project_idx == 0,
            r.focus is Sidebar,
            r.mode is Normal,
            r.should_quit == false,
            r.status_message is None,
            r.pty_cleanup is None,
            r.pending_dev_command is None,
            r.pty_creation_lock is None,
            r.pending_shell_request is None,
            r.creation_cooldown_ms == CREATION_COOLDOWN_MS,
            r.config == config,
    {
        AppState {
            projects: Vec::new(),
            active_project_idx: 0,
            focus: FocusArea::Sidebar,
            mode: AppMode::Normal,
            config,
            should_quit: false,
            command_palette_idx: 0,
            command_target: CommandTarget::DevTerminal,
            settings_idx: 0,
            input_buffer: String::new(),
            status_message: None,
            frame_count: 0,
            resource_update_frame: 0,
            panel_layout: PanelLayout::Split,
            dir_browser: DirectoryBrowser::with_dir(String::from_str("/")),
            pty_cleanup: None,
            pending_dev_command: None,
            pty_creation_lock: None,
            pending_shell_request: None,
            creation_cooldown_ms: CREATION_COOLDOWN_MS,
        }
    }

    /// Advances the frame counter, expires the status message, and says
    /// whether the periodic resource refresh (every thirty frames) is
    /// due; when it is, the refresh frame is recorded and the caller must
    /// sample a fresh snapshot and call [`AppState::update_resource_usage`].
    pub fn tick(&mut self, now_ms: u64) -> (due: bool)
        requires
            old(self).wf(),
        ensures
            final(self).wf(),
            final(self).frame_count == (if old(self).frame_count == u64::MAX {
                0int
            } else {
                old(self).frame_count + 1
            }),
            due == (final(self).frame_count >= old(self).resource_update_frame + 30),
            due ==> final(self).resource_update_frame == final(self).frame_count,
            !due ==> final(self).resource_update_frame == old(self).resource_update_frame,
            final(self).projects == old(self).projects,
    {
        if self.frame_count == u64::MAX {
            self.frame_count = 0;
        } else {
            self.frame_count = self.frame_count + 1;
        }
        let expired: bool = match &self.status_message {
            Some(m) => m.is_expired(now_ms),
            None => false,
        };
        if expired {
            self.status_message = None;
        }
        let due: bool = if self.frame_count >= self.resource_update_frame {
            self.frame_count - self.resource_update_frame >= 30
        } else {
            false
        };
        if due {
            self.resource_update_frame = self.frame_count;
        }
        due
    }

    /// Refreshes the resource figures of every running dev session from
    /// the snapshot.
    pub fn update_resource_usage(&mut self, snapshot: &ProcessSnapshot)
        requires
            old(self).wf(),
            snapshot.wf(),
            spec_totals_fit(snapshot.processes@),
        ensures
            final(self).wf(),
            final(self).projects@.len() == old(self).projects@.len(),
            forall|k: int|
                0 <= k < old(self).projects@.len() ==> spec_resampled(
                    old(self).projects@[k],
                    #[trigger] final(self).projects@[k],
                    snapshot,
                ),
            final(self).active_project_idx == old(self).active_project_idx,
            final(self).status_message == old(self).status_message,
            final(self).config == old(self).config,
    {
        let n: usize = self.projects.len();
        let mut i: usize = 0;
        while i < n
            invariant
                n == self.projects@.len(),
                n == old(self).projects@.len(),
                i <= n,
                snapshot.wf(),
                spec_totals_fit(snapshot.processes@),
                forall|k: int| 0 <= k < n ==> (#[trigger] self.projects@[k]).wf(),
                forall|k: int|
                    i <= k < n ==> #[trigger] self.projects@[k] == old(self).projects@[k],
                forall|k: int|
                    0 <= k < i ==> spec_resampled(
                        old(self).projects@[k],
                        #[trigger] self.projects@[k],
                        snapshot,
                    ),
                self.active_project_idx == old(self).active_project_idx,
                self.status_message == old(self).status_message,
                self.config == old(self).config,
            decreases n - i,
        {
            proof {
                assert(self.projects@[i as int] == old(self).projects@[i as int]);
            }
            let ghost pre_project = self.projects@[i as int];
            let ghost pre_projects = self.projects@;
            let mut project: Project = self.projects.remove(i);
            if let Some(mut handle) = project.dev_pty.take() {
                handle.update_resource_usage(snapshot);
                project.dev_pty = Some(handle);
            }
            proof {
                assert(spec_resampled(pre_project, project, snapshot));
            }
            self.projects.insert(i, project);
            proof {
                assert(self.projects@ =~= pre_projects.update(i as int, project));
                assert forall|k: int| 0 <= k < n && k != i implies self.projects@[k]
                    == pre_projects[k] by {}
            }
            i = i + 1;
        }
    }

    /// The configured interface language.
    pub fn language(&self) -> (r: Language)
        ensures
            r == self.config.settings.language,
    {
        self.config.settings.language
    }

    /// The string table for the configured language.
    pub fn i18n(&self) -> (r: I18n)
        ensures
            r.lang == self.config.settings.language,
    {
        I18n::new(self.config.settings.language)
    }

    /// Switches the interface language.
    pub fn toggle_language(&mut self)
        ensures
            old(self).config.settings.language is English ==> final(self).config.settings.language is Chinese,
            old(self).config.settings.language is Chinese ==> final(self).config.settings.language is English,
            final(self).projects == old(self).projects,
    {
        self.config.settings.language = self.config.settings.language.toggle();
    }

    /// Switches the configured Windows shell.
    pub fn toggle_windows_shell(&mut self)
        ensures
            old(self).config.settings.windows_shell is PowerShell ==> final(self).config.settings.windows_shell is Cmd,
            old(self).config.settings.windows_shell is Cmd ==> final(self).config.settings.windows_shell is PowerShell,
            final(self).projects == old(self).projects,
    {
        self.config.settings.windows_shell = self.config.settings.windows_shell.toggle();
    }

    /// The active project, when the selection is in range.
    pub fn active_project(&self) -> (r: Option<&Project>)
        ensures
            self.active_project_idx < self.projects@.len() ==> r == Some(
                &self.projects@[self.active_project_idx as int],
            ),
            self.active_project_idx >= self.projects@.len() ==> r is None,
    {
        if self.active_project_idx < self.projects.len() {
            Some(&self.projects[self.active_project_idx])
        } else {
            None
        }
    }

    /// Selects the next project, wrapping around.
    pub fn select_next_project(&mut self)
        requires
            old(self).active_project_idx < old(self).projects@.len() || old(self).projects@.len() == 0,
        ensures
            final(self).projects == old(self).projects,
            old(self).projects@.len() == 0 ==> final(self).active_project_idx == old(self).active_project_idx,
            old(self).projects@.len() > 0 ==> final(self).active_project_idx == (old(self).active_project_idx + 1) as int % old(self).projects@.len() as int,
    {
        if self.projects.len() > 0 {
            let len: usize = self.projects.len();
            if self.active_project_idx + 1 == len {
                self.active_project_idx = 0;
            } else {
                self.active_project_idx = self.active_project_idx + 1;
            }
            proof {
                vstd::arithmetic::div_mod::lemma_mod_self_0(len as int);
                if self.active_project_idx > 0 {
                    vstd::arithmetic::div_mod::lemma_small_mod(
                        self.active_project_idx as nat,
                        len as nat,
                    );
                }
            }
        }
    }

    /// Selects the previous project, wrapping around.
    pub fn select_prev_project(&mut self)
        ensures
            final(self).projects == old(self).projects,
            old(self).projects@.len() == 0 ==> final(self).active_project_idx == old(self).active_project_idx,
            old(self).projects@.len() > 0 && old(self).active_project_idx == 0 ==> final(self).active_project_idx == old(self).projects@.len() - 1,
            old(self).projects@.len() > 0 && old(self).active_project_idx > 0 ==> final(self).active_project_idx == old(self).active_project_idx - 1,
    {
        if self.projects.len() > 0 {
            if self.active_project_idx == 0 {
                self.active_project_idx = self.projects.len() - 1;
            } else {
                self.active_project_idx = self.active_project_idx - 1;
            }
        }
    }

    /// Moves focus to the next pane.
    pub fn focus_next(&mut self)
        ensures
            final(self).focus == old(self).focus.spec_next(),
            final(self).projects == old(self).projects,
    {
        self.focus = self.focus.next();
    }

    /// Moves focus to the previous pane.
    pub fn focus_prev(&mut self)
        ensures
            final(self).focus == old(self).focus.spec_prev(),
            final(self).projects == old(self).projects,
    {
        self.focus = self.focus.prev();
    }

    /// Appends a project.
    pub fn add_project(&mut self, project: Project)
        requires
            old(self).wf(),
            project.wf(),
        ensures
            final(self).wf(),
            final(self).projects@ == old(self).projects@.push(project),
    {
        self.projects.push(project);
    }

    /// Removes the project at `idx` and keeps the active selection in
    /// range. A removed project is never abandoned with live children: its
    /// sessions are killed, and the tickets come back for the caller's
    /// force phase — one per session that still had a process id, and no
    /// others.
    pub fn remove_project(&mut self, idx: usize) -> (tickets: Vec<KillTicket>)
        requires
            old(self).wf(),
        ensures
            final(self).wf(),
            idx < old(self).projects@.len() ==> final(self).projects@ == old(self).projects@.remove(idx as int),
            idx >= old(self).projects@.len() ==> final(self).projects == old(self).projects
                && tickets@.len() == 0,
            idx < old(self).projects@.len() ==> {
                let removed = old(self).projects@[idx as int];
                &&& (match removed.dev_pty {
                    Some(h) => match h.pid {
                        Some(p) => exists|j: int|
                            0 <= j < tickets@.len() && (#[trigger] tickets@[j]).pid == p,
                        None => true,
                    },
                    None => true,
                })
                &&& (match removed.shell_pty {
                    Some(h) => match h.pid {
                        Some(p) => exists|j: int|
                            0 <= j < tickets@.len() && (#[trigger] tickets@[j]).pid == p,
                        None => true,
                    },
                    None => true,
                })
                &&& (forall|j: int|
                    0 <= j < tickets@.len() ==> ((match removed.dev_pty {
                        Some(h) => h.pid == Some((#[trigger] tickets@[j]).pid),
                        None => false,
                    }) || (match removed.shell_pty {
                        Some(h) => h.pid == Some(tickets@[j].pid),
                        None => false,
                    })))
            },
    {
        let mut tickets: Vec<KillTicket> = Vec::new();
        if idx < self.projects.len() {
            let ghost removed_view = old(self).projects@[idx as int];
            let mut removed: Project = self.projects.remove(idx);
            proof {
                assert(removed == removed_view);
            }
            let dev_ticket: Option<KillTicket> = match removed.dev_pty.take() {
                Some(mut handle) => handle.kill(),
                None => None,
            };
            let shell_ticket: Option<KillTicket> = match removed.shell_pty.take() {
                Some(mut handle) => handle.kill(),
                None => None,
            };
            if let Some(t) = dev_ticket {
                tickets.push(t);
            }
            if let Some(t) = shell_ticket {
                tickets.push(t);
            }
            proof {
                assert forall|j: int| 0 <= j < tickets@.len() implies ((match removed_view.dev_pty {
                    Some(h) => h.pid == Some((#[trigger] tickets@[j]).pid),
                    None => false,
                }) || (match removed_view.shell_pty {
                    Some(h) => h.pid == Some(tickets@[j].pid),
                    None => false,
                })) by {
                    if dev_ticket is Some {
                        assert(tickets@[0] == dev_ticket->Some_0);
                    }
                    if shell_ticket is Some {
                        if dev_ticket is Some {
                            assert(tickets@[1] == shell_ticket->Some_0);
                        } else {
                            assert(tickets@[0] == shell_ticket->Some_0);
                        }
                    }
                }
                match removed_view.dev_pty {
                    Some(h) => match h.pid {
                        Some(p) => {
                            assert(tickets@[0].pid == p);
                        },
                        None => {},
                    },
                    None => {},
                }
                match removed_view.shell_pty {
                    Some(h) => match h.pid {
                        Some(p) => {
                            if dev_ticket is Some {
                                assert(tickets@[1].pid == p);
                            } else {
                                assert(tickets@[0].pid == p);
                            }
                        },
                        None => {},
                    },
                    None => {},
                }
            }
            if self.active_project_idx >= self.projects.len() && self.projects.len() > 0 {
                self.active_project_idx = self.projects.len() - 1;
            }
        }
        tickets
    }

    /// Posts a status message at the given clock reading.
    pub fn set_status(&mut self, message: &str, now_ms: u64)
        ensures
            (final(self).status_message matches Some(m) && m.text@ == message@ && m.created_at_ms
                == now_ms),
            final(self).projects == old(self).projects,
            final(self).pending_shell_request == old(self).pending_shell_request,
            final(self).pending_dev_command == old(self).pending_dev_command,
            final(self).pty_creation_lock == old(self).pty_creation_lock,
            final(self).pty_cleanup == old(self).pty_cleanup,
            final(self).active_project_idx == old(self).active_project_idx,
            final(self).focus == old(self).focus,
            final(self).config == old(self).config,
            final(self).command_palette_idx == old(self).command_palette_idx,
    {
        self.status_message = Some(StatusMessage::new(String::from_str(message), now_ms));
    }

    /// Clears the status message.
    pub fn clear_status(&mut self)
        ensures
            final(self).status_message is None,
            final(self).projects == old(self).projects,
    {
        self.status_message = None;
    }

    /// The text of the current status message, if one is showing.
    pub fn status_text(&self) -> (r: Option<&str>)
        ensures
            (self.status_message matches Some(m) ==> (r matches Some(t) && t@ == m.text@)),
            self.status_message is None ==> r is None,
    {
        match &self.status_message {
            Some(m) => Some(m.text.as_str()),
            None => None,
        }
    }

    /// Opens the command palette aimed at the given target.
    pub fn enter_command_palette(&mut self, target: CommandTarget)
        ensures
            final(self).mode is CommandPalette,
            final(self).command_palette_idx == 0,
            final(self).command_target == target,
            final(self).projects == old(self).projects,
    {
        self.mode = AppMode::CommandPalette;
        self.command_palette_idx = 0;
        self.command_target = target;
    }

    /// Opens the directory browser at the given start directory.
    pub fn enter_browse_mode(&mut self, start_dir: String)
        ensures
            final(self).mode is BrowseDirectory,
            final(self).dir_browser.current_dir == start_dir,
            final(self).dir_browser.entries@.len() == 0,
            final(self).projects == old(self).projects,
    {
        self.dir_browser = DirectoryBrowser::with_dir(start_dir);
        self.mode = AppMode::BrowseDirectory;
    }

    /// Cycles the right-hand panel layout.
    pub fn toggle_panel_layout(&mut self)
        ensures
            final(self).panel_layout == (match old(self).panel_layout {
                PanelLayout::Split => PanelLayout::DevMax,
                PanelLayout::DevMax => PanelLayout::ShellMax,
                PanelLayout::ShellMax => PanelLayout::Split,
            }),
            final(self).projects == old(self).projects,
    {
        self.panel_layout = self.panel_layout.next();
    }

    /// Leaves the current mode and clears the input buffer.
    pub fn exit_mode(&mut self)
        ensures
            final(self).mode is Normal,
            final(self).input_buffer@.len() == 0,
            final(self).projects == old(self).projects,
    {
        self.mode = AppMode::Normal;
        self.input_buffer = String::new();
    }

    /// Moves the palette selection down through the active project's
    /// commands, wrapping around.
    pub fn command_palette_next(&mut self)
        requires
            old(self).wf(),
        ensures
            final(self).wf(),
            final(self).projects == old(self).projects,
    {
        let count: usize = match self.active_project() {
            Some(p) => {
                let cmds = p.get_all_commands();
                cmds.len()
            },
            None => 0,
        };
        if count > 0 {
            if self.command_palette_idx >= count - 1 {
                self.command_palette_idx = 0;
            } else {
                self.command_palette_idx = self.command_palette_idx + 1;
            }
        }
    }

    /// Moves the palette selection up, wrapping around.
    pub fn command_palette_prev(&mut self)
        requires
            old(self).wf(),
        ensures
            final(self).wf(),
            final(self).projects == old(self).projects,
    {
        let count: usize = match self.active_project() {
            Some(p) => {
                let cmds = p.get_all_commands();
                cmds.len()
            },
            None => 0,
        };
        if count > 0 {
            if self.command_palette_idx == 0 {
                self.command_palette_idx = count - 1;
            } else {
                self.command_palette_idx = self.command_palette_idx - 1;
            }
        }
    }

    /// Whether a PTY teardown is still being awaited.
    pub fn is_waiting_for_cleanup(&self) -> (r: bool)
        ensures
            r == (self.pty_cleanup is Some),
    {
        self.pty_cleanup.is_some()
    }

    /// Whether the given project's teardown is still being awaited.
    pub fn is_project_waiting_cleanup(&self, project_idx: usize) -> (r: bool)
        ensures
            r == (self.pty_cleanup matches Some(c) && c.project_idx == project_idx),
    {
        match &self.pty_cleanup {
            Some(c) => c.project_idx == project_idx,
            None => false,
        }
    }

    /// Polls a pending teardown: it resolves when the old process has
    /// left the snapshot or when the bounded wait is over; the poll count
    /// grows otherwise. True means a queued command may now run.
    pub fn poll_pty_cleanup(&mut self, now_ms: u64, snapshot: &ProcessSnapshot) -> (r: bool)
        requires
            snapshot.wf(),
        ensures
            final(self).projects == old(self).projects,
            old(self).pty_cleanup is None ==> r == false && final(self).pty_cleanup is None,
            (old(self).pty_cleanup matches Some(c) ==> {
                let timed_out = spec_age_ms(c.started_at_ms, now_ms) > CLEANUP_MAX_WAIT_MS;
                let gone = !crate::process_tree::spec_has_pid(snapshot.processes@, c.old_pid);
                &&& r == (timed_out || gone)
                &&& (r ==> final(self).pty_cleanup is None)
                &&& (!r ==> (final(self).pty_cleanup matches Some(c2) && c2.started_at_ms
                    == c.started_at_ms && c2.old_pid == c.old_pid && c2.project_idx
                    == c.project_idx && c2.poll_count == (if c.poll_count == u32::MAX {
                    c.poll_count as int
                } else {
                    c.poll_count + 1
                })))
            }),
    {
        let (started, old_pid, project_idx, polls): (u64, u32, usize, u32) = match &self.pty_cleanup
        {
            Some(c) => (c.started_at_ms, c.old_pid, c.project_idx, c.poll_count),
            None => {
                return false;
            },
        };
        let elapsed: u64 = if now_ms >= started {
            now_ms - started
        } else {
            0
        };
        if elapsed > CLEANUP_MAX_WAIT_MS {
            self.pty_cleanup = None;
            return true;
        }
        if snapshot.find_pid(old_pid).is_none() {
            self.pty_cleanup = None;
            return true;
        }
        let new_polls: u32 = if polls == u32::MAX {
            polls
        } else {
            polls + 1
        };
        self.pty_cleanup = Some(
            PtyCleanupState {
                started_at_ms: started,
                old_pid,
                project_idx,
                poll_count: new_polls,
            },
        );
        false
    }

    /// Whether a new PTY may be created right now.
    pub fn can_create_pty(&self, now_ms: u64) -> (r: bool)
        ensures
            r == spec_can_create(&self.pty_creation_lock, now_ms),
    {
        match &self.pty_creation_lock {
            Some(lock) => lock.is_expired(now_ms),
            None => true,
        }
    }

    /// Tries to take the creation token: it succeeds — and restarts the
    /// cooldown under the given reason — exactly when no unexpired token
    /// is held.
    pub fn try_acquire_pty_lock(&mut self, reason: &str, now_ms: u64) -> (r: bool)
        ensures
            r == spec_can_create(&old(self).pty_creation_lock, now_ms),
            r ==> (final(self).pty_creation_lock matches Some(l) && l.locked_at_ms == now_ms
                && l.reason@ == reason@ && l.cooldown_ms == old(self).creation_cooldown_ms),
            !r ==> final(self).pty_creation_lock == old(self).pty_creation_lock,
            final(self).projects == old(self).projects,
            final(self).pending_shell_request == old(self).pending_shell_request,
            final(self).creation_cooldown_ms == old(self).creation_cooldown_ms,
            final(self).active_project_idx == old(self).active_project_idx,
            final(self).focus == old(self).focus,
            final(self).status_message == old(self).status_message,
    {
        let can: bool = self.can_create_pty(now_ms);
        if !can {
            return false;
        }
        self.pty_creation_lock = Some(PtyCreationLock::new(reason, now_ms, self.creation_cooldown_ms));
        true
    }

    /// Records that a creation attempt concretely succeeded: the token's
    /// timestamp is reset, so the settling window starts at the creation,
    /// not at the acquisition.
    pub fn mark_pty_created(&mut self, reason: &str, now_ms: u64)
        ensures
            (final(self).pty_creation_lock matches Some(l) && l.locked_at_ms == now_ms && l.reason@
                == reason@ && l.cooldown_ms == old(self).creation_cooldown_ms),
            final(self).projects == old(self).projects,
            final(self).pending_shell_request == old(self).pending_shell_request,
            final(self).creation_cooldown_ms == old(self).creation_cooldown_ms,
    {
        self.pty_creation_lock = Some(
            PtyCreationLock::new(reason, now_ms, self.creation_cooldown_ms),
        );
    }

    /// Clears the creation token at once, so a failed attempt does not
    /// block a retry for the rest of the cooldown.
    pub fn release_pty_lock(&mut self)
        ensures
            final(self).pty_creation_lock is None,
            final(self).projects == old(self).projects,
            final(self).pending_shell_request == old(self).pending_shell_request,
    {
        self.pty_creation_lock = None;
    }

    /// Polls the creation token: an expired token is dropped and the
    /// caller may run a queued request; with no token held, true exactly
    /// when a request is queued.
    pub fn poll_pty_creation_lock(&mut self, now_ms: u64) -> (r: bool)
        ensures
            final(self).projects == old(self).projects,
            final(self).pending_shell_request == old(self).pending_shell_request,
            (old(self).pty_creation_lock matches Some(l) ==> {
                &&& r == spec_lock_expired(&l, now_ms)
                &&& (r ==> final(self).pty_creation_lock is None)
                &&& (!r ==> final(self).pty_creation_lock == old(self).pty_creation_lock)
            }),
            old(self).pty_creation_lock is None ==> r == (old(self).pending_shell_request is Some)
                && final(self).pty_creation_lock is None,
    {
        let expired: bool = match &self.pty_creation_lock {
            Some(lock) => lock.is_expired(now_ms),
            None => {
                return self.pending_shell_request.is_some();
            },
        };
        if expired {
            self.pty_creation_lock = None;
            true
        } else {
            false
        }
    }

    /// Whether a shell-start request is queued.
    pub fn has_pending_shell(&self) -> (r: bool)
        ensures
            r == (self.pending_shell_request is Some),
    {
        self.pending_shell_request.is_some()
    }

    /// Queues a shell-start request for the given project, replacing any
    /// earlier one — the newest user action wins — and posts a waiting
    /// notice.
    pub fn queue_shell_request(&mut self, project_idx: usize, now_ms: u64)
        ensures
            spec_shell_request_queued(old(self), final(self), project_idx),
            final(self).status_message is Some,
            final(self).active_project_idx == old(self).active_project_idx,
            final(self).focus == old(self).focus,
    {
        self.pending_shell_request = Some(PendingShellRequest { project_idx });
        let msg: &'static str = match self.language() {
            Language::English => "Waiting for PTY ready...",
            Language::Chinese => "\u{7b49}\u{5f85} PTY \u{5c31}\u{7eea}...",
        };
        self.set_status(msg, now_ms);
    }

    /// Takes the queued shell-start request, leaving none.
    pub fn take_pending_shell(&mut self) -> (r: Option<PendingShellRequest>)
        ensures
            r == old(self).pending_shell_request,
            final(self).pending_shell_request is None,
            final(self).projects == old(self).projects,
            final(self).pty_creation_lock == old(self).pty_creation_lock,
            final(self).active_project_idx == old(self).active_project_idx,
    {
        let r = self.pending_shell_request;
        self.pending_shell_request = None;
        r
    }

    /// The "releasing" notice shown while a teardown is awaited, with the
    /// elapsed seconds to one decimal place.
    pub fn cleanup_status_text(&self, now_ms: u64) -> (r: Option<String>)
        ensures
            self.pty_cleanup is None ==> r is None,
            (self.pty_cleanup matches Some(c) ==> (r matches Some(t) && t@ == (match self.config.settings.language {
                Language::English => "Releasing... ("@,
                Language::Chinese => "\u{91ca}\u{653e}\u{4e2d}... ("@,
            }) + spec_u64_dec(spec_age_ms(c.started_at_ms, now_ms) / 1000) + seq!['.'] + seq![
                spec_digit_char((spec_age_ms(c.started_at_ms, now_ms) / 100) % 10),
            ] + "s)"@)),
    {
        proof {
            reveal_strlit("Releasing... (");
            reveal_strlit("\u{91ca}\u{653e}\u{4e2d}... (");
            reveal_strlit(".");
            reveal_strlit("s)");
        }
        let c = match &self.pty_cleanup {
            Some(c) => c,
            None => {
                return None;
            },
        };
        let elapsed: u64 = c.elapsed_ms(now_ms);
        let head: &'static str = match self.config.settings.language {
            Language::English => "Releasing... (",
            Language::Chinese => "\u{91ca}\u{653e}\u{4e2d}... (",
        };
        let mut t = String::from_str(head);
        t.append(u64_to_string(elapsed / 1000).as_str());
        t.append(".");
        t.append(digit_str((elapsed / 100) % 10));
        t.append("s)");
        Some(t)
    }
}

/// How queuing a shell-start request moves the state: the pending slot
/// holds exactly the new request — whatever it held before — and the
/// projects and the creation token are untouched.
pub open spec fn spec_shell_request_queued(pre: &AppState, post: &AppState, project_idx: usize) -> bool {
    &&& post.pending_shell_request == Some(PendingShellRequest { project_idx })
    &&& post.projects == pre.projects
    &&& post.pty_creation_lock == pre.pty_creation_lock
}

/// Arbiter mutual exclusion: when a token was just acquired, a second
/// acquisition within the cooldown window fails and leaves the token
/// alone; once the window has elapsed, acquisition succeeds again.
pub proof fn lemma_arbiter_mutual_exclusion(
    s0: AppState,
    s1: AppState,
    r1: bool,
    s2: AppState,
    r2: bool,
    t0: u64,
    t1: u64,
)
    requires
        s0.pty_creation_lock is None,
        r1 == spec_can_create(&s0.pty_creation_lock, t0),
        r1 ==> (s1.pty_creation_lock matches Some(l) && l.locked_at_ms == t0 && l.cooldown_ms
            == s0.creation_cooldown_ms),
        r2 == spec_can_create(&s1.pty_creation_lock, t1),
        t0 <= t1,
    ensures
        r1 == true,
        spec_age_ms(t0, t1) <= s0.creation_cooldown_ms ==> r2 == false,
        spec_age_ms(t0, t1) > s0.creation_cooldown_ms ==> r2 == true,
{
}

/// Pending-request overwrite: queuing a request for one slot and then
/// another leaves only the second retrievable.
pub proof fn lemma_pending_request_overwrite(
    s0: AppState,
    s1: AppState,
    s2: AppState,
    idx_a: usize,
    idx_b: usize,
)
    requires
        spec_shell_request_queued(&s0, &s1, idx_a),
        spec_shell_request_queued(&s1, &s2, idx_b),
    ensures
        s2.pending_shell_request matches Some(p) && p.project_idx == idx_b,
        idx_a != idx_b ==> s2.pending_shell_request != Some(
            PendingShellRequest { project_idx: idx_a },
        ),
        s2.projects == s0.projects,
{
}

} // verus!
