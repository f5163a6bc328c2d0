//! The bridge between PTY events, user commands and the application
//! state. Each UI tick the caller drains the event channel and hands the
//! events here; command execution is decided here and returns spawn plans
//! and kill tickets for the caller to carry out.

use vstd::prelude::*;
use vstd::string::{StrSliceExecFns, StringExecFns};
use crate::app_state::{AppState, FocusArea, PendingDevCommand, PtyCleanupState};
use crate::events::PtyEvent;
use crate::i18n::Language;
use crate::manager::{PtyManager, SpawnPlan};
use crate::package::{PackageManager, spec_run_prefix};
use crate::project::{CommandType, Project, fresh_uuid};
use crate::session::{KillTicket, PtyHandle};
use crate::text::{str_eq, i64_to_string, spec_i64_dec};

verus! {

/// A fresh session identifier: the prefix, a hyphen, and a random
/// 36-character identifier.
pub fn new_session_id(prefix: &str) -> (r: String)
    ensures
        r@.len() == prefix@.len() + 37,
        r@.subrange(0, prefix@.len() as int) == prefix@,
        r@[prefix@.len() as int] == '-',
{
    proof {
        reveal_strlit("-");
    }
    let mut r = String::from_str(prefix);
    r.append("-");
    r.append(fresh_uuid().as_str());
    proof {
        assert(r@.subrange(0, prefix@.len() as int) =~= prefix@);
    }
    r
}

/// The debug rendering of an optional exit code, as the status line
/// shows it.
pub open spec fn spec_exit_code_text(code: Option<i32>) -> Seq<char> {
    match code {
        Some(c) => "Some("@ + spec_i64_dec(c as int) + ")"@,
        None => "None"@,
    }
}

fn exit_code_text(code: Option<i32>) -> (r: String)
    ensures
        r@ == spec_exit_code_text(code),
{
    proof {
        reveal_strlit("Some(");
        reveal_strlit(")");
        reveal_strlit("None");
    }
    match code {
        Some(c) => {
            let mut r = String::from_str("Some(");
            r.append(i64_to_string(c as i64).as_str());
            r.append(")");
            r
        },
        None => String::from_str("None"),
    }
}

/// How an exit event for session `pid` moves one project: a matching
/// session is cleared, a non-matching one is untouched.
pub open spec fn spec_exit_applied(oldp: Project, newp: Project, pid: Seq<char>) -> bool {
    &&& (match oldp.dev_pty {
        Some(h) => (if h.id@ == pid {
            newp.dev_pty is None
        } else {
            newp.dev_pty == oldp.dev_pty
        }),
        None => newp.dev_pty == oldp.dev_pty,
    })
    &&& (match oldp.shell_pty {
        Some(h) => (if h.id@ == pid {
            newp.shell_pty is None
        } else {
            newp.shell_pty == oldp.shell_pty
        }),
        None => newp.shell_pty == oldp.shell_pty,
    })
}

/// Whether one of the projects still owns a dev session with this id:
/// exactly when an exit event for it posts the stop notice.
pub open spec fn spec_dev_owned(projects: Seq<Project>, id: Seq<char>) -> bool {
    exists|k: int|
        0 <= k < projects.len() && ((#[trigger] projects[k]).dev_pty matches Some(h) && h.id@
            == id)
}

/// Whether the event batch holds an exit event for this session id.
pub open spec fn spec_exited_for(events: Seq<PtyEvent>, id: Seq<char>) -> bool {
    exists|j: int|
        0 <= j < events.len() && ((#[trigger] events[j]) matches PtyEvent::Exited {
            pty_id: eid,
            exit_code: _,
        } && eid@ == id)
}

/// How a whole event batch moves one project's sessions: a session whose
/// id some exit event names is cleared, every other session is untouched.
pub open spec fn spec_batch_sessions(oldp: Project, newp: Project, events: Seq<PtyEvent>) -> bool {
    &&& (match oldp.dev_pty {
        Some(h) => (if spec_exited_for(events, h.id@) {
            newp.dev_pty is None
        } else {
            newp.dev_pty == oldp.dev_pty
        }),
        None => newp.dev_pty == oldp.dev_pty,
    })
    &&& (match oldp.shell_pty {
        Some(h) => (if spec_exited_for(events, h.id@) {
            newp.shell_pty is None
        } else {
            newp.shell_pty == oldp.shell_pty
        }),
        None => newp.shell_pty == oldp.shell_pty,
    })
}

/// Everything applying one event does to the state: exits clear the
/// matching sessions and, when a dev session matched, post the stop
/// notice with the exit code; errors post the message and clear nothing;
/// output changes nothing; nothing else of the state moves.
pub open spec fn spec_event_applied(pre: &AppState, post: &AppState, event: &PtyEvent) -> bool {
    &&& post.projects@.len() == pre.projects@.len()
    &&& post.active_project_idx == pre.active_project_idx
    &&& post.focus == pre.focus
    &&& post.config == pre.config
    &&& post.command_palette_idx == pre.command_palette_idx
    &&& post.pending_dev_command == pre.pending_dev_command
    &&& post.pending_shell_request == pre.pending_shell_request
    &&& post.pty_creation_lock == pre.pty_creation_lock
    &&& post.pty_cleanup == pre.pty_cleanup
    &&& (match *event {
        PtyEvent::Output { .. } => post.projects == pre.projects && post.status_message
            == pre.status_message,
        PtyEvent::Exited { ref pty_id, exit_code } => {
            &&& (forall|k: int|
                0 <= k < pre.projects@.len() ==> spec_exit_applied(
                    pre.projects@[k],
                    #[trigger] post.projects@[k],
                    pty_id@,
                ))
            &&& (spec_dev_owned(pre.projects@, pty_id@) ==> (post.status_message matches Some(m)
                && m.text@ == "Dev server stopped (exit: "@ + spec_exit_code_text(exit_code)
                + ")"@))
            &&& (!spec_dev_owned(pre.projects@, pty_id@) ==> post.status_message
                == pre.status_message)
        },
        PtyEvent::Error { pty_id: _, ref message } => post.projects == pre.projects && (
        post.status_message matches Some(m) && m.text@ == "PTY error: "@ + message@),
    })
}

proof fn lemma_exited_for_push(s: Seq<PtyEvent>, e: PtyEvent, id: Seq<char>)
    ensures
        spec_exited_for(s.push(e), id) <==> (spec_exited_for(s, id) || (match e {
            PtyEvent::Exited { ref pty_id, .. } => pty_id@ == id,
            _ => false,
        })),
{
    let t = s.push(e);
    if spec_exited_for(s, id) {
        let j = choose|j: int|
            0 <= j < s.len() && ((#[trigger] s[j]) matches PtyEvent::Exited {
                pty_id: eid,
                exit_code: _,
            } && eid@ == id);
        assert(t[j] == s[j]);
        assert(spec_exited_for(t, id));
    }
    match e {
        PtyEvent::Exited { ref pty_id, .. } => {
            if pty_id@ == id {
                assert(t[s.len() as int] == e);
                assert(spec_exited_for(t, id));
            }
        },
        _ => {},
    }
    if spec_exited_for(t, id) {
        let j = choose|j: int|
            0 <= j < t.len() && ((#[trigger] t[j]) matches PtyEvent::Exited {
                pty_id: eid,
                exit_code: _,
            } && eid@ == id);
        if j < s.len() {
            assert(s[j] == t[j]);
            assert(spec_exited_for(s, id));
        } else {
            assert(t[j] == e);
        }
    }
}

fn session_matches(h: &Option<PtyHandle>, id: &str) -> (r: bool)
    ensures
        r == (match *h {
            Some(hh) => hh.id@ == id@,
            None => false,
        }),
{
    match h {
        Some(hh) => str_eq(hh.id.as_str(), id),
        None => false,
    }
}

/// Applies one PTY event to the projects: an exit clears every session
/// whose id matches (the dev pane also posts a stop notice), an error
/// posts the message and leaves the sessions alone, output needs nothing
/// (the reader already fed the emulator). Cleared sessions are killed,
/// and the tickets come back for the caller's force phase.
pub fn handle_one_pty_event(state: &mut AppState, event: &PtyEvent, now_ms: u64) -> (tickets: Vec<
    KillTicket,
>)
    requires
        old(state).wf(),
    ensures
        final(state).wf(),
        spec_event_applied(old(state), final(state), event),
{
    proof {
        reveal_strlit("PTY error: ");
        reveal_strlit("Dev server stopped (exit: ");
        reveal_strlit(")");
    }
    let mut tickets: Vec<KillTicket> = Vec::new();
    match event {
        PtyEvent::Output { .. } => tickets,
        PtyEvent::Error { pty_id: _, message } => {
            let mut text = String::from_str("PTY error: ");
            text.append(message.as_str());
            proof {
                assert(text@ =~= "PTY error: "@ + message@);
            }
            state.set_status(text.as_str(), now_ms);
            tickets
        },
        PtyEvent::Exited { pty_id, exit_code } => {
            let ghost pid_view = pty_id@;
            let mut dev_stopped: bool = false;
            let n: usize = state.projects.len();
            let mut i: usize = 0;
            while i < n
                invariant
                    pid_view == pty_id@,
                    n == state.projects@.len(),
                    n == old(state).projects@.len(),
                    i <= n,
                    forall|k: int| 0 <= k < n ==> (#[trigger] state.projects@[k]).wf(),
                    forall|k: int|
                        i <= k < n ==> #[trigger] state.projects@[k] == old(state).projects@[k],
                    forall|k: int|
                        0 <= k < i ==> spec_exit_applied(
                            old(state).projects@[k],
                            #[trigger] state.projects@[k],
                            pid_view,
                        ),
                    dev_stopped == (exists|k: int|
                        0 <= k < i && ((#[trigger] old(state).projects@[k]).dev_pty matches Some(
                            h,
                        ) && h.id@ == pid_view)),
                    state.status_message == old(state).status_message,
                    state.active_project_idx == old(state).active_project_idx,
                    state.focus == old(state).focus,
                    state.config == old(state).config,
                    state.command_palette_idx == old(state).command_palette_idx,
                    state.pending_dev_command == old(state).pending_dev_command,
                    state.pending_shell_request == old(state).pending_shell_request,
                    state.pty_creation_lock == old(state).pty_creation_lock,
                    state.pty_cleanup == old(state).pty_cleanup,
                decreases n - i,
            {
                proof {
                    assert(state.projects@[i as int] == old(state).projects@[i as int]);
                }
                let ghost pre_project = state.projects@[i as int];
                let ghost pre_projects = state.projects@;
                let mut project: Project = state.projects.remove(i);
                proof {
                    assert(project == pre_project);
                }
                let dev_matches: bool = session_matches(&project.dev_pty, pty_id.as_str());
                if dev_matches {
                    let taken = project.dev_pty.take();
                    if let Some(mut handle) = taken {
                        if let Some(t) = handle.kill() {
                            tickets.push(t);
                        }
                    }
                    project.dev_started_at_ms = None;
                    dev_stopped = true;
                }
                let shell_matches: bool = session_matches(&project.shell_pty, pty_id.as_str());
                if shell_matches {
                    let taken = project.shell_pty.take();
                    if let Some(mut handle) = taken {
                        if let Some(t) = handle.kill() {
                            tickets.push(t);
                        }
                    }
                }
                proof {
                    assert(spec_exit_applied(pre_project, project, pid_view));
                    if dev_matches {
                        assert((old(state).projects@[i as int]).dev_pty matches Some(h) && h.id@
                            == pid_view);
                    }
                }
                state.projects.insert(i, project);
                proof {
                    assert(state.projects@ =~= pre_projects.update(i as int, project));
                    assert(state.projects@[i as int] == project);
                    assert forall|k: int| 0 <= k < n && k != i implies state.projects@[k]
                        == pre_projects[k] by {}
                }
                i = i + 1;
            }
            proof {
                assert(dev_stopped == spec_dev_owned(old(state).projects@, pid_view));
            }
            if dev_stopped {
                let mut text = String::from_str("Dev server stopped (exit: ");
                text.append(exit_code_text(*exit_code).as_str());
                text.append(")");
                proof {
                    assert(text@ =~= "Dev server stopped (exit: "@ + spec_exit_code_text(
                        *exit_code,
                    ) + ")"@);
                }
                state.set_status(text.as_str(), now_ms);
            }
            tickets
        },
    }
}

/// Drains one tick's worth of events into the state, applying them in
/// production order and never waiting for more: every session named by an
/// exit event in the batch is cleared and every other session is
/// untouched; with no events the state does not move at all, and a
/// single event has exactly the effect of [`handle_one_pty_event`].
pub fn handle_pty_events(state: &mut AppState, events: &Vec<PtyEvent>, now_ms: u64) -> (tickets:
    Vec<KillTicket>)
    requires
        old(state).wf(),
    ensures
        final(state).wf(),
        final(state).projects@.len() == old(state).projects@.len(),
        forall|k: int|
            0 <= k < old(state).projects@.len() ==> spec_batch_sessions(
                old(state).projects@[k],
                #[trigger] final(state).projects@[k],
                events@,
            ),
        events@.len() == 0 ==> *final(state) == *old(state),
        events@.len() == 1 ==> spec_event_applied(old(state), final(state), &events@[0]),
        final(state).active_project_idx == old(state).active_project_idx,
        final(state).config == old(state).config,
        final(state).pending_dev_command == old(state).pending_dev_command,
        final(state).pending_shell_request == old(state).pending_shell_request,
        final(state).pty_creation_lock == old(state).pty_creation_lock,
        final(state).pty_cleanup == old(state).pty_cleanup,
{
    let mut tickets: Vec<KillTicket> = Vec::new();
    let n: usize = events.len();
    let mut i: usize = 0;
    proof {
        assert(events@.subrange(0, 0) =~= Seq::<PtyEvent>::empty());
    }
    while i < n
        invariant
            n == events@.len(),
            i <= n,
            state.wf(),
            state.projects@.len() == old(state).projects@.len(),
            i == 0 ==> *state == *old(state),
            i == 1 && n >= 1 ==> spec_event_applied(old(state), state, &events@[0]),
            forall|k: int|
                0 <= k < old(state).projects@.len() ==> spec_batch_sessions(
                    old(state).projects@[k],
                    #[trigger] state.projects@[k],
                    events@.subrange(0, i as int),
                ),
            state.active_project_idx == old(state).active_project_idx,
            state.config == old(state).config,
            state.pending_dev_command == old(state).pending_dev_command,
            state.pending_shell_request == old(state).pending_shell_request,
            state.pty_creation_lock == old(state).pty_creation_lock,
            state.pty_cleanup == old(state).pty_cleanup,
        decreases n - i,
    {
        let ghost pre = *state;
        let ghost done = events@.subrange(0, i as int);
        let mut more = handle_one_pty_event(state, &events[i], now_ms);
        tickets.append(&mut more);
        proof {
            assert(events@.subrange(0, i + 1) =~= done.push(events@[i as int]));
            assert forall|k: int| 0 <= k < old(state).projects@.len() implies spec_batch_sessions(
                old(state).projects@[k],
                #[trigger] state.projects@[k],
                events@.subrange(0, i + 1),
            ) by {
                let oldp = old(state).projects@[k];
                let prep = pre.projects@[k];
                let newp = state.projects@[k];
                assert(spec_batch_sessions(oldp, prep, done));
                if let Some(h) = oldp.dev_pty {
                    lemma_exited_for_push(done, events@[i as int], h.id@);
                }
                if let Some(h) = oldp.shell_pty {
                    lemma_exited_for_push(done, events@[i as int], h.id@);
                }
                match events@[i as int] {
                    PtyEvent::Exited { ref pty_id, .. } => {
                        assert(spec_exit_applied(prep, newp, pty_id@));
                    },
                    _ => {
                        assert(state.projects == pre.projects);
                    },
                }
            }
        }
        i = i + 1;
    }
    proof {
        assert(events@.subrange(0, n as int) =~= events@);
    }
    tickets
}

/// Which pane of the active project keyboard input goes to: the focused
/// terminal, provided its session exists.
pub fn active_input_target(state: &AppState) -> (r: Option<FocusArea>)
    ensures
        (r == Some(FocusArea::DevTerminal)) == (state.focus is DevTerminal
            && state.active_project_idx < state.projects@.len()
            && state.projects@[state.active_project_idx as int].dev_pty is Some),
        (r == Some(FocusArea::ShellTerminal)) == (state.focus is ShellTerminal
            && state.active_project_idx < state.projects@.len()
            && state.projects@[state.active_project_idx as int].shell_pty is Some),
        r != Some(FocusArea::Sidebar),
{
    if state.active_project_idx >= state.projects.len() {
        return None;
    }
    let project = &state.projects[state.active_project_idx];
    match state.focus {
        FocusArea::DevTerminal => {
            if project.dev_pty.is_some() {
                Some(FocusArea::DevTerminal)
            } else {
                None
            }
        },
        FocusArea::ShellTerminal => {
            if project.shell_pty.is_some() {
                Some(FocusArea::ShellTerminal)
            } else {
                None
            }
        },
        FocusArea::Sidebar => None,
    }
}

/// Asks to run the palette command in the dev pane. When a teardown is
/// already pending, the request replaces any queued one. When an old dev
/// process is still alive, it is killed, a teardown wait begins, and the
/// request is queued; the ticket comes back for the caller's force
/// phase. Only with no old process does the call say "execute now".
pub fn request_execute_in_dev(state: &mut AppState, now_ms: u64) -> (r: (bool, Option<KillTicket>))
    requires
        old(state).wf(),
    ensures
        final(state).wf(),
        final(state).projects@.len() == old(state).projects@.len(),
        old(state).pty_cleanup is Some ==> {
            &&& r.0 == false
            &&& r.1 is None
            &&& final(state).pending_dev_command == Some(
                PendingDevCommand {
                    command_idx: old(state).command_palette_idx,
                    project_idx: old(state).active_project_idx,
                },
            )
            &&& final(state).projects == old(state).projects
        },
        (old(state).pty_cleanup is None && old(state).active_project_idx < old(state).projects@.len()) ==> (match old(state).projects@[old(state).active_project_idx as int].dev_pty {
            Some(h) => match h.pid {
                Some(p) => {
                    &&& r.0 == false
                    &&& (r.1 matches Some(t) && t.pid == p)
                    &&& (final(state).pty_cleanup matches Some(c) && c.old_pid == p
                        && c.project_idx == old(state).active_project_idx && c.started_at_ms
                        == now_ms)
                    &&& final(state).pending_dev_command == Some(
                        PendingDevCommand {
                            command_idx: old(state).command_palette_idx,
                            project_idx: old(state).active_project_idx,
                        },
                    )
                    &&& final(state).projects@[old(state).active_project_idx as int].dev_pty
                        is None
                },
                None => true,
            },
            None => true,
        }),
        (old(state).pty_cleanup is None && (old(state).active_project_idx >= old(state).projects@.len() || (match old(state).projects@[old(state).active_project_idx as int].dev_pty {
            Some(h) => h.pid is None,
            None => true,
        })) ==> r == (true, Option::<KillTicket>::None) && final(state).projects == old(state).projects),
{
    let command_idx: usize = state.command_palette_idx;
    let project_idx: usize = state.active_project_idx;
    if state.is_waiting_for_cleanup() {
        state.pending_dev_command = Some(PendingDevCommand { command_idx, project_idx });
        return (false, None);
    }
    if project_idx >= state.projects.len() {
        return (true, None);
    }
    let old_pid: Option<u32> = match &state.projects[project_idx].dev_pty {
        Some(h) => h.pid,
        None => None,
    };
    if let Some(pid) = old_pid {
        let project = &mut state.projects[project_idx];
        let taken = project.dev_pty.take();
        let mut ticket: Option<KillTicket> = None;
        if let Some(mut handle) = taken {
            ticket = handle.kill();
        }
        project.dev_started_at_ms = None;
        state.pty_cleanup = Some(PtyCleanupState::new(pid, project_idx, now_ms));
        state.pending_dev_command = Some(PendingDevCommand { command_idx, project_idx });
        let msg: &'static str = match state.language() {
            Language::English => "Releasing resources...",
            Language::Chinese => "\u{6b63}\u{5728}\u{91ca}\u{653e}\u{8d44}\u{6e90}...",
        };
        state.set_status(msg, now_ms);
        (false, ticket)
    } else {
        (true, None)
    }
}

/// The display name of the palette entry at `idx`.
pub open spec fn spec_palette_name(p: &Project, idx: int) -> Seq<char> {
    if idx < p.scripts@.len() {
        p.scripts@[idx].0@
    } else {
        p.custom_commands@[idx - p.scripts@.len()].name@
    }
}

/// What building the dev spawn plan for palette entry `command_idx`
/// yields: nothing exactly when no project is selected or the entry is
/// out of range, otherwise a plan for the selected project's directory
/// that runs the entry's command line through the given shell.
pub open spec fn spec_dev_plan_built(
    projects: Seq<Project>,
    active_idx: int,
    command_idx: int,
    pm: PackageManager,
    shell: Seq<char>,
    r: Option<SpawnPlan>,
) -> bool {
    &&& (r is None <==> (active_idx >= projects.len() || command_idx
        >= projects[active_idx].scripts@.len() + projects[active_idx].custom_commands@.len()))
    &&& (r matches Some(plan) ==> {
        let p = &projects[active_idx];
        &&& plan.program@ == shell
        &&& plan.working_dir@ == p.path@
        &&& plan.rows == 24
        &&& plan.cols == 80
        &&& plan.args@.len() == 2
        &&& plan.args@[1]@ == spec_palette_line(p, command_idx, spec_run_prefix(pm))
        &&& plan.id@.len() == 40
    })
}

/// The command line the palette entry at `idx` runs: package scripts go
/// through the package manager's run prefix, raw entries run verbatim.
pub open spec fn spec_palette_line(p: &Project, idx: int, prefix: Seq<char>) -> Seq<char> {
    if idx < p.scripts@.len() {
        prefix + " "@ + p.scripts@[idx].0@
    } else {
        let c = p.custom_commands@[idx - p.scripts@.len()];
        if c.cmd_type is NpmScript {
            prefix + " "@ + c.name@
        } else {
            c.command@
        }
    }
}

/// Builds the spawn plan for running the palette command at
/// `command_idx` of the active project in the dev pane, and posts the
/// running notice. Nothing happens without an active project or with an
/// out-of-range index.
pub fn do_execute_command_in_dev(
    state: &mut AppState,
    manager: &PtyManager,
    command_idx: usize,
    pm: PackageManager,
    shell: &str,
    env_available: &Vec<(String, String)>,
    now_ms: u64,
) -> (r: Option<SpawnPlan>)
    requires
        old(state).wf(),
    ensures
        final(state).wf(),
        final(state).projects == old(state).projects,
        spec_dev_plan_built(
            old(state).projects@,
            old(state).active_project_idx as int,
            command_idx as int,
            pm,
            shell@,
            r,
        ),
        r is None ==> final(state).status_message == old(state).status_message,
        r is Some ==> (final(state).status_message matches Some(m) && m.text@ == "Running: "@
            + spec_palette_name(
            &old(state).projects@[old(state).active_project_idx as int],
            command_idx as int,
        )),
        final(state).active_project_idx == old(state).active_project_idx,
        final(state).command_palette_idx == old(state).command_palette_idx,
        final(state).pending_dev_command == old(state).pending_dev_command,
        final(state).pending_shell_request == old(state).pending_shell_request,
        final(state).pty_creation_lock == old(state).pty_creation_lock,
        final(state).pty_cleanup == old(state).pty_cleanup,
    {
        if state.active_project_idx >= state.projects.len() {
            return None;
        }
        let project = &state.projects[state.active_project_idx];
        let commands = project.get_all_commands();
        if command_idx >= commands.len() {
            return None;
        }
        let cmd = &commands[command_idx];
        let full_command: String = match cmd.cmd_type {
            CommandType::NpmScript => {
                proof {
                    reveal_strlit(" ");
                }
                let mut line = String::from_str(pm.run_prefix());
                line.append(" ");
                line.append(cmd.name.as_str());
                line
            },
            CommandType::RawShell => String::from_str(cmd.command.as_str()),
        };
        proof {
            let pr = &state.projects@[state.active_project_idx as int];
            let sn = pr.scripts@.len() as int;
            if command_idx as int >= sn {
                let j = command_idx as int - sn;
                assert(commands@[sn + j] == commands@[command_idx as int]);
            }
            assert(full_command@ =~= spec_palette_line(pr, command_idx as int, spec_run_prefix(pm)));
        }
        let pty_id = new_session_id("dev");
        proof {
            reveal_strlit("dev");
        }
        let working_dir = String::from_str(project.path.as_str());
        let plan = manager.run_shell_command(
            pty_id.as_str(),
            shell,
            full_command.as_str(),
            working_dir.as_str(),
            24,
            80,
            env_available,
        );
        proof {
            reveal_strlit("Running: ");
        }
        let mut msg = String::from_str("Running: ");
        msg.append(cmd.name.as_str());
        proof {
            let pr = &state.projects@[state.active_project_idx as int];
            let sn = pr.scripts@.len() as int;
            if command_idx as int >= sn {
                let j = command_idx as int - sn;
                assert(commands@[sn + j] == commands@[command_idx as int]);
            }
            assert(msg@ =~= "Running: "@ + spec_palette_name(pr, command_idx as int));
        }
        state.set_status(msg.as_str(), now_ms);
        Some(plan)
    }

/// Runs the currently selected palette command in the dev pane.
pub fn execute_command_in_dev(
    state: &mut AppState,
    manager: &PtyManager,
    pm: PackageManager,
    shell: &str,
    env_available: &Vec<(String, String)>,
    now_ms: u64,
) -> (r: Option<SpawnPlan>)
    requires
        old(state).wf(),
    ensures
        final(state).wf(),
        final(state).projects == old(state).projects,
        spec_dev_plan_built(
            old(state).projects@,
            old(state).active_project_idx as int,
            old(state).command_palette_idx as int,
            pm,
            shell@,
            r,
        ),
        r is None ==> final(state).status_message == old(state).status_message,
        r is Some ==> (final(state).status_message matches Some(m) && m.text@ == "Running: "@
            + spec_palette_name(
            &old(state).projects@[old(state).active_project_idx as int],
            old(state).command_palette_idx as int,
        )),
        final(state).pending_dev_command == old(state).pending_dev_command,
        final(state).pending_shell_request == old(state).pending_shell_request,
        final(state).pty_creation_lock == old(state).pty_creation_lock,
        final(state).pty_cleanup == old(state).pty_cleanup,
{
    let idx: usize = state.command_palette_idx;
    do_execute_command_in_dev(state, manager, idx, pm, shell, env_available, now_ms)
}

/// Runs the queued dev command once its teardown has resolved, provided
/// the selection still points at the project that queued it.
pub fn execute_pending_dev_command(
    state: &mut AppState,
    manager: &PtyManager,
    pm: PackageManager,
    shell: &str,
    env_available: &Vec<(String, String)>,
    now_ms: u64,
) -> (r: Option<SpawnPlan>)
    requires
        old(state).wf(),
    ensures
        final(state).wf(),
        final(state).pending_dev_command is None,
        final(state).projects == old(state).projects,
        old(state).pending_dev_command is None ==> r is None && final(state).status_message
            == old(state).status_message,
        (old(state).pending_dev_command matches Some(p) ==> (p.project_idx != old(state).active_project_idx ==> r is None && final(state).status_message == old(state).status_message)),
        (old(state).pending_dev_command matches Some(p) ==> (p.project_idx == old(state).active_project_idx ==> {
            &&& spec_dev_plan_built(
                old(state).projects@,
                old(state).active_project_idx as int,
                p.command_idx as int,
                pm,
                shell@,
                r,
            )
            &&& (r is Some ==> (final(state).status_message matches Some(m) && m.text@
                == "Running: "@ + spec_palette_name(
                &old(state).projects@[old(state).active_project_idx as int],
                p.command_idx as int,
            )))
            &&& (r is None ==> final(state).status_message == old(state).status_message)
        })),
        final(state).active_project_idx == old(state).active_project_idx,
        final(state).pending_shell_request == old(state).pending_shell_request,
        final(state).pty_creation_lock == old(state).pty_creation_lock,
        final(state).pty_cleanup == old(state).pty_cleanup,
{
    let pending = state.pending_dev_command;
    state.pending_dev_command = None;
    match pending {
        Some(p) => {
            if p.project_idx == state.active_project_idx {
                do_execute_command_in_dev(
                    state,
                    manager,
                    p.command_idx,
                    pm,
                    shell,
                    env_available,
                    now_ms,
                )
            } else {
                None
            }
        },
        None => None,
    }
}

/// Installs a freshly spawned dev session into the active project and
/// records the start time.
pub fn install_dev_handle(state: &mut AppState, handle: PtyHandle, now_ms: u64)
    requires
        old(state).wf(),
        handle.wf(),
    ensures
        final(state).wf(),
        final(state).projects@.len() == old(state).projects@.len(),
        old(state).active_project_idx < old(state).projects@.len() ==> {
            &&& final(state).projects@[old(state).active_project_idx as int].dev_pty == Some(handle)
            &&& final(state).projects@[old(state).active_project_idx as int].dev_started_at_ms
                == Some(now_ms)
        },
{
    if state.active_project_idx < state.projects.len() {
        let idx: usize = state.active_project_idx;
        let project = &mut state.projects[idx];
        project.dev_pty = Some(handle);
        project.dev_started_at_ms = Some(now_ms);
    }
}

/// Installs a freshly spawned shell session into the active project.
pub fn install_shell_handle(state: &mut AppState, handle: PtyHandle)
    requires
        old(state).wf(),
        handle.wf(),
    ensures
        final(state).wf(),
        final(state).projects@.len() == old(state).projects@.len(),
        old(state).active_project_idx < old(state).projects@.len() ==> final(state).projects@[old(state).active_project_idx as int].shell_pty == Some(handle),
{
    if state.active_project_idx < state.projects.len() {
        let idx: usize = state.active_project_idx;
        let project = &mut state.projects[idx];
        project.shell_pty = Some(handle);
    }
}

/// What a shell-start request resolved to.
pub enum ShellStartAction {
    /// No project to start a shell for; a notice was posted.
    NoProject,
    /// The shell already runs; focus moved to it.
    FocusOnly,
    /// The creation token is held; the request was queued.
    Queued,
    /// Spawn this plan; then install the handle, mark the creation, and
    /// move focus.
    Spawn(SpawnPlan),
}

/// How a shell-start request resolves against the projects and creation
/// token it found: no project gives `NoProject`, a live shell only takes
/// focus, a held token queues the request for exactly the selected slot,
/// and otherwise the token is taken and a spawn plan for the selected
/// project's directory comes back.
pub open spec fn spec_shell_start_resolved(
    projects: Seq<Project>,
    lock: Option<crate::app_state::PtyCreationLock>,
    active_idx: usize,
    post: &AppState,
    r: &ShellStartAction,
    shell: Seq<char>,
    now_ms: u64,
) -> bool {
    &&& (projects.len() == 0 <==> r is NoProject)
    &&& ((projects.len() > 0 && projects[active_idx as int].shell_pty is Some) <==> r is FocusOnly)
    &&& (r is FocusOnly ==> post.focus is ShellTerminal)
    &&& ((projects.len() > 0 && projects[active_idx as int].shell_pty is None
        && !crate::app_state::spec_can_create(&lock, now_ms)) <==> r is Queued)
    &&& (r is Queued ==> post.pending_shell_request == Some(
        crate::app_state::PendingShellRequest { project_idx: active_idx },
    ))
    &&& (*r matches ShellStartAction::Spawn(ref plan) ==> {
        &&& plan.program@ == shell
        &&& plan.working_dir@ == projects[active_idx as int].path@
        &&& plan.rows == 24
        &&& plan.cols == 80
        &&& plan.id@.len() == 42
        &&& (post.pty_creation_lock matches Some(l) && l.locked_at_ms == now_ms)
    })
}

/// Starts an interactive shell for the active project under the creation
/// arbiter: with no project a notice is posted; an existing shell only
/// takes focus; while the token is held the request is queued; otherwise
/// the token is taken and the spawn plan comes back.
pub fn start_shell_for_active_project(
    state: &mut AppState,
    manager: &PtyManager,
    shell: &str,
    env_available: &Vec<(String, String)>,
    now_ms: u64,
) -> (r: ShellStartAction)
    requires
        old(state).wf(),
        old(state).projects@.len() == 0 || old(state).active_project_idx < old(state).projects@.len(),
    ensures
        final(state).wf(),
        final(state).projects@.len() == old(state).projects@.len(),
        final(state).active_project_idx == old(state).active_project_idx,
        spec_shell_start_resolved(
            old(state).projects@,
            old(state).pty_creation_lock,
            old(state).active_project_idx,
            final(state),
            &r,
            shell@,
            now_ms,
        ),
{
    if state.projects.len() == 0 {
        let msg = state.i18n().no_project();
        state.set_status(msg, now_ms);
        return ShellStartAction::NoProject;
    }
    let idx: usize = state.active_project_idx;
    let has_shell: bool = state.projects[idx].shell_pty.is_some();
    if has_shell {
        state.focus = FocusArea::ShellTerminal;
        return ShellStartAction::FocusOnly;
    }
    if !state.try_acquire_pty_lock("shell", now_ms) {
        state.queue_shell_request(idx, now_ms);
        return ShellStartAction::Queued;
    }
    proof {
        reveal_strlit("shell");
    }
    let pty_id = new_session_id("shell");
    let path = String::from_str(state.projects[idx].path.as_str());
    let plan = manager.create_shell(pty_id.as_str(), shell, path.as_str(), 24, 80, env_available);
    ShellStartAction::Spawn(plan)
}

/// Finishes a successful shell spawn: installs the handle, restarts the
/// creation cooldown, posts the started notice, and moves focus to the
/// shell.
pub fn on_shell_spawned(state: &mut AppState, handle: PtyHandle, now_ms: u64)
    requires
        old(state).wf(),
        handle.wf(),
    ensures
        final(state).wf(),
        final(state).focus is ShellTerminal,
        (final(state).pty_creation_lock matches Some(l) && l.locked_at_ms == now_ms),
        old(state).active_project_idx < old(state).projects@.len() ==> final(state).projects@[old(state).active_project_idx as int].shell_pty == Some(handle),
{
    install_shell_handle(state, handle);
    state.mark_pty_created("shell", now_ms);
    let msg = state.i18n().shell_started();
    state.set_status(msg, now_ms);
    state.focus = FocusArea::ShellTerminal;
}

/// Records a failed shell spawn: the creation token is released at once
/// so the failure does not block a retry, and the error is posted.
pub fn on_shell_spawn_failed(state: &mut AppState, error_text: &str, now_ms: u64)
    requires
        old(state).wf(),
    ensures
        final(state).wf(),
        final(state).pty_creation_lock is None,
        (final(state).status_message matches Some(m) && m.text@ == "Failed to start shell: "@
            + error_text@),
        final(state).projects == old(state).projects,
{
    proof {
        reveal_strlit("Failed to start shell: ");
    }
    state.release_pty_lock();
    let mut msg = String::from_str("Failed to start shell: ");
    msg.append(error_text);
    state.set_status(msg.as_str(), now_ms);
}

/// Runs the queued shell request once the creation token is free: the
/// queued project becomes the active one and the usual start path runs.
/// A request whose project is gone is dropped silently.
pub fn execute_pending_shell(
    state: &mut AppState,
    manager: &PtyManager,
    shell: &str,
    env_available: &Vec<(String, String)>,
    now_ms: u64,
) -> (r: Option<ShellStartAction>)
    requires
        old(state).wf(),
    ensures
        final(state).wf(),
        old(state).pending_shell_request is None ==> r is None && final(state).pending_shell_request is None && final(state).projects == old(state).projects,
        (old(state).pending_shell_request matches Some(p) ==> (p.project_idx >= old(state).projects@.len() ==> r is None && final(state).pending_shell_request is None && final(state).projects == old(state).projects)),
        (old(state).pending_shell_request matches Some(p) ==> (p.project_idx < old(
            state,
        ).projects@.len() ==> (r matches Some(action) && final(state).active_project_idx
            == p.project_idx && spec_shell_start_resolved(
            old(state).projects@,
            old(state).pty_creation_lock,
            p.project_idx,
            final(state),
            &action,
            shell@,
            now_ms,
        )))),
        final(state).projects@.len() == old(state).projects@.len(),
{
    let pending = state.take_pending_shell();
    match pending {
        Some(p) => {
            if p.project_idx < state.projects.len() {
                state.active_project_idx = p.project_idx;
                Some(start_shell_for_active_project(state, manager, shell, env_available, now_ms))
            } else {
                None
            }
        },
        None => None,
    }
}

/// The palette command's text and the bytes typed into the shell to run
/// it there: the command line followed by a carriage return.
pub fn execute_command_in_shell(
    state: &mut AppState,
    manager: &PtyManager,
    pm: PackageManager,
    shell: &str,
    env_available: &Vec<(String, String)>,
    now_ms: u64,
) -> (r: Option<(Option<SpawnPlan>, Vec<u8>)>)
    requires
        old(state).wf(),
    ensures
        final(state).wf(),
        final(state).projects == old(state).projects,
        r is None <==> (old(state).active_project_idx >= old(state).projects@.len()
            || old(state).command_palette_idx >= old(state).projects@[old(state).active_project_idx as int].scripts@.len() + old(state).projects@[old(state).active_project_idx as int].custom_commands@.len()),
        r is None ==> *final(state) == *old(state),
        (r matches Some(step) ==> {
            let p = &old(state).projects@[old(state).active_project_idx as int];
            &&& final(state).focus is ShellTerminal
            &&& (step.0 is Some <==> old(state).projects@[old(state).active_project_idx as int].shell_pty is None)
            &&& step.1@ == vstd::utf8::encode_utf8(
                spec_palette_line(
                    p,
                    old(state).command_palette_idx as int,
                    spec_run_prefix(pm),
                ).push('\r'),
            )
            &&& step.1@.len() > 0
            &&& step.1@.last() == 13u8
        }),
{
    if state.active_project_idx >= state.projects.len() {
        return None;
    }
    let idx: usize = state.active_project_idx;
    let command_idx: usize = state.command_palette_idx;
    let commands = state.projects[idx].get_all_commands();
    if command_idx >= commands.len() {
        return None;
    }
    let cmd = &commands[command_idx];
    let full_command: String = match cmd.cmd_type {
        CommandType::NpmScript => {
            proof {
                reveal_strlit(" ");
            }
            let mut line = String::from_str(pm.run_prefix());
            line.append(" ");
            line.append(cmd.name.as_str());
            line
        },
        CommandType::RawShell => String::from_str(cmd.command.as_str()),
    };
    proof {
        let pr = &state.projects@[idx as int];
        let sn = pr.scripts@.len() as int;
        if command_idx as int >= sn {
            let j = command_idx as int - sn;
            assert(commands@[sn + j] == commands@[command_idx as int]);
        }
        assert(full_command@ =~= spec_palette_line(pr, command_idx as int, spec_run_prefix(pm)));
    }
    let needs_shell: bool = state.projects[idx].shell_pty.is_none();
    let spawn: Option<SpawnPlan> = if needs_shell {
        proof {
            reveal_strlit("shell");
        }
        let pty_id = new_session_id("shell");
        let path = String::from_str(state.projects[idx].path.as_str());
        Some(manager.create_shell(pty_id.as_str(), shell, path.as_str(), 24, 80, env_available))
    } else {
        None
    };
    let mut with_newline = String::from_str(full_command.as_str());
    proof {
        reveal_strlit("\r");
    }
    with_newline.append("\r");
    let input: Vec<u8> = with_newline.as_str().as_bytes_vec();
    proof {
        reveal_strlit("Shell: ");
        assert(with_newline@.len() > 0);
        assert(with_newline@.last() == '\r');
        assert(with_newline@ =~= full_command@.push('\r'));
        crate::bridge::lemma_utf8_last_cr(with_newline@);
    }
    let mut msg = String::from_str("Shell: ");
    msg.append(cmd.name.as_str());
    state.set_status(msg.as_str(), now_ms);
    state.focus = FocusArea::ShellTerminal;
    Some((spawn, input))
}

proof fn lemma_encode_utf8_concat(a: Seq<char>, b: Seq<char>)
    ensures
        vstd::utf8::encode_utf8(a + b) == vstd::utf8::encode_utf8(a) + vstd::utf8::encode_utf8(b),
    decreases a.len(),
{
    if a.len() == 0 {
        assert(a + b =~= b);
        assert(vstd::utf8::encode_utf8(a) =~= Seq::<u8>::empty());
        assert(vstd::utf8::encode_utf8(a) + vstd::utf8::encode_utf8(b) =~= vstd::utf8::encode_utf8(
            b,
        ));
    } else {
        assert((a + b)[0] == a[0]);
        assert((a + b).drop_first() =~= a.drop_first() + b);
        lemma_encode_utf8_concat(a.drop_first(), b);
        assert(vstd::utf8::encode_utf8(a + b) =~= vstd::utf8::encode_utf8(a)
            + vstd::utf8::encode_utf8(b));
    }
}

/// A character sequence ending in a carriage return encodes to bytes
/// ending in the carriage-return byte.
pub(crate) proof fn lemma_utf8_last_cr(s: Seq<char>)
    requires
        s.len() > 0,
        s.last() == '\r',
    ensures
        vstd::utf8::encode_utf8(s).len() > 0,
        vstd::utf8::encode_utf8(s).last() == 13u8,
{
    let a = s.drop_last();
    let b = seq!['\r'];
    assert(s =~= a + b);
    lemma_encode_utf8_concat(a, b);
    assert(vstd::utf8::is_ascii_chars(b));
    vstd::utf8::is_ascii_chars_encode_utf8(b);
    assert(vstd::utf8::encode_utf8(b).len() == 1);
    assert(vstd::utf8::encode_utf8(b)[0] == '\r' as u8);
}

} // verus!
