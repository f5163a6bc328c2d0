use devpanel::app_state::{AppState, FocusArea, PendingShellRequest, CLEANUP_MAX_WAIT_MS, PtyCleanupState};
use devpanel::bridge::{handle_one_pty_event, new_session_id, active_input_target};
use devpanel::browser::{DirectoryBrowser, DirEntry, parent_dir};
use devpanel::config::{AppConfig, WindowsShell};
use devpanel::events::PtyEvent;
use devpanel::i18n::{I18n, Language};
use devpanel::keys::{key_to_bytes, TerminalKey};
use devpanel::process_tree::{ProcessRecord, ProcessSnapshot};
use devpanel::project::{CommandEntry, Project, ProjectConfig};
use devpanel::session::PtyHandle;
use devpanel::status::StatusMessage;
use devpanel::text::{ascii_lowercase, base_name, str_contains, u64_to_string};
use devpanel::widgets::{build_status_help_lines, get_status_help_items, ScrollInfo, SettingItem};

fn fresh_state() -> AppState {
    AppState::new(AppConfig::new())
}

#[test]
fn arbiter_mutual_exclusion_over_the_cooldown() {
    let mut state = fresh_state();
    assert!(state.try_acquire_pty_lock("shell", 1_000));
    // A second acquisition with no elapsed cooldown fails.
    assert!(!state.try_acquire_pty_lock("shell", 1_000));
    assert!(!state.try_acquire_pty_lock("shell", 1_100));
    // After the cooldown window has elapsed it succeeds again.
    assert!(state.try_acquire_pty_lock("shell", 1_151));
}

#[test]
fn marking_creation_restarts_the_cooldown() {
    let mut state = fresh_state();
    assert!(state.try_acquire_pty_lock("shell", 0));
    state.mark_pty_created("shell", 140);
    // The window restarts at the creation, not the acquisition.
    assert!(!state.can_create_pty(160));
    assert!(state.can_create_pty(291));
}

#[test]
fn pending_request_overwrite_keeps_the_newest() {
    let mut state = fresh_state();
    state.queue_shell_request(0, 10);
    state.queue_shell_request(3, 20);
    let pending = state.take_pending_shell();
    assert_eq!(pending, Some(PendingShellRequest { project_idx: 3 }));
    assert!(state.take_pending_shell().is_none());
}

#[test]
fn creation_lock_poll_clears_only_expired_tokens() {
    let mut state = fresh_state();
    assert!(state.try_acquire_pty_lock("shell", 0));
    assert!(!state.poll_pty_creation_lock(100));
    assert!(state.poll_pty_creation_lock(200));
    // With no token held, the poll reports a queued request.
    assert!(!state.poll_pty_creation_lock(300));
    state.queue_shell_request(1, 300);
    assert!(state.poll_pty_creation_lock(300));
}

#[test]
fn cleanup_poll_resolves_on_disappearance_or_timeout() {
    let live = ProcessSnapshot {
        processes: vec![ProcessRecord {
            pid: 77,
            parent_pid: None,
            cpu_centi_percent: 0,
            memory_bytes: 0,
        }],
        cpu_count: 1,
    };
    let empty = ProcessSnapshot { processes: vec![], cpu_count: 1 };

    let mut state = fresh_state();
    state.pty_cleanup = Some(PtyCleanupState::new(77, 0, 0));
    assert!(!state.poll_pty_cleanup(100, &live));
    assert!(state.is_waiting_for_cleanup());
    assert!(state.is_project_waiting_cleanup(0));
    assert!(!state.is_project_waiting_cleanup(1));
    // The old process left the snapshot: resolved.
    assert!(state.poll_pty_cleanup(200, &empty));
    assert!(!state.is_waiting_for_cleanup());

    // Or the bounded wait runs out even though the process lingers.
    state.pty_cleanup = Some(PtyCleanupState::new(77, 0, 0));
    assert!(state.poll_pty_cleanup(CLEANUP_MAX_WAIT_MS + 1, &live));
}

#[test]
fn cleanup_status_text_shows_tenths_of_seconds() {
    let mut state = fresh_state();
    state.pty_cleanup = Some(PtyCleanupState::new(9, 0, 0));
    let text = state.cleanup_status_text(1_234).unwrap();
    assert_eq!(text, "Releasing... (1.2s)");
    state.pty_cleanup = None;
    assert!(state.cleanup_status_text(99).is_none());
}

#[test]
fn exited_event_clears_the_matching_session() {
    let mut state = fresh_state();
    let mut project = Project::new(String::from("/tmp/demo"));
    let mut dev = PtyHandle::new("dev-1");
    dev.mark_spawned(0x7ffffff0);
    project.dev_pty = Some(dev);
    project.shell_pty = Some(PtyHandle::new("shell-1"));
    state.add_project(project);

    let event = PtyEvent::Exited { pty_id: String::from("dev-1"), exit_code: Some(0) };
    let _tickets = handle_one_pty_event(&mut state, &event, 50);
    assert!(state.projects[0].dev_pty.is_none());
    assert!(state.projects[0].shell_pty.is_some());
    assert_eq!(state.status_text(), Some("Dev server stopped (exit: Some(0))"));
}

#[test]
fn error_event_keeps_the_session_and_posts_the_message() {
    let mut state = fresh_state();
    let mut project = Project::new(String::from("/tmp/demo"));
    project.dev_pty = Some(PtyHandle::new("dev-2"));
    state.add_project(project);

    let event = PtyEvent::Error { pty_id: String::from("dev-2"), message: String::from("read failed") };
    let _ = handle_one_pty_event(&mut state, &event, 60);
    assert!(state.projects[0].dev_pty.is_some());
    assert_eq!(state.status_text(), Some("PTY error: read failed"));
}

#[test]
fn input_goes_to_the_focused_terminal_only() {
    let mut state = fresh_state();
    let mut project = Project::new(String::from("/tmp/demo"));
    project.shell_pty = Some(PtyHandle::new("shell-3"));
    state.add_project(project);
    state.focus = FocusArea::ShellTerminal;
    assert_eq!(active_input_target(&state), Some(FocusArea::ShellTerminal));
    state.focus = FocusArea::DevTerminal;
    assert_eq!(active_input_target(&state), None);
    state.focus = FocusArea::Sidebar;
    assert_eq!(active_input_target(&state), None);
}

#[test]
fn session_ids_carry_their_prefix() {
    let id = new_session_id("dev");
    assert_eq!(id.len(), 40);
    assert!(id.starts_with("dev-"));
    let other = new_session_id("dev");
    assert_ne!(id, other);
}

#[test]
fn project_palette_lists_scripts_then_custom_commands() {
    let mut project = Project::new(String::from("/work/site"));
    assert_eq!(project.name, "site");
    project.insert_script(String::from("dev"), String::from("vite"));
    project.insert_script(String::from("build"), String::from("vite build"));
    project.add_custom_command("deploy", "scp dist host:");
    let commands = project.get_all_commands();
    assert_eq!(commands.len(), 3);
    // Scripts come sorted by name, custom entries after them.
    assert_eq!(commands[0].name, "build");
    assert_eq!(commands[1].name, "dev");
    assert_eq!(commands[2].name, "deploy");
    assert_eq!(commands[2].command, "scp dist host:");
}

#[test]
fn command_entries_get_fresh_identifiers() {
    let a = CommandEntry::new_npm_script("dev", "vite");
    let b = CommandEntry::new_raw_shell("x", "ls");
    assert_eq!(a.id.len(), 36);
    assert_eq!(b.id.len(), 36);
    assert_ne!(a.id, b.id);
}

#[test]
fn aliases_ignore_blank_input() {
    let mut project = Project::new(String::from("/work/site"));
    project.set_alias(Some(String::from("  ")));
    assert!(project.alias.is_none());
    assert_eq!(project.display_name(), "site");
    project.set_alias(Some(String::from("Site A")));
    assert_eq!(project.display_name(), "Site A");
}

#[test]
fn config_add_remove_update_by_path() {
    let mut config = AppConfig::new();
    let entry = |path: &str| ProjectConfig {
        path: String::from(path),
        alias: None,
        custom_commands: Vec::new(),
    };
    config.add_project(entry("/a"));
    config.add_project(entry("/b"));
    config.add_project(entry("/a"));
    assert_eq!(config.projects.len(), 2);
    let mut updated = entry("/a");
    updated.alias = Some(String::from("alpha"));
    config.update_project(updated);
    assert_eq!(config.projects.len(), 2);
    assert_eq!(config.projects[0].alias.as_deref(), Some("alpha"));
    config.remove_project("/a");
    assert_eq!(config.projects.len(), 1);
    assert_eq!(config.projects[0].path, "/b");
}

#[test]
fn settings_toggles() {
    assert_eq!(WindowsShell::PowerShell.toggle(), WindowsShell::Cmd);
    assert_eq!(WindowsShell::Cmd.display_name(), "CMD");
    assert_eq!(Language::English.toggle(), Language::Chinese);
    assert_eq!(Language::Chinese.display_name(), "\u{4e2d}\u{6587}");
    let i18n = I18n::new(Language::English);
    assert_eq!(i18n.dev_server(), "Dev Server");
    assert_eq!(SettingItem::count(), 2);
}

#[test]
fn status_messages_fade_and_expire() {
    let msg = StatusMessage::new(String::from("hello"), 1_000);
    assert!(!msg.should_fade(3_900));
    assert!(msg.should_fade(4_100));
    assert!(!msg.is_expired(5_900));
    assert!(msg.is_expired(6_100));
}

#[test]
fn browser_navigation_wraps_and_walks_up() {
    let mut browser = DirectoryBrowser::with_dir(String::from("/home/user/projects"));
    let entry = |name: &str| DirEntry {
        name: String::from(name),
        path: format!("/home/user/projects/{}", name),
        is_dir: true,
        has_package_json: false,
    };
    let parent = DirEntry {
        name: String::from(".."),
        path: String::from("/home/user"),
        is_dir: true,
        has_package_json: false,
    };
    browser.set_listing(vec![entry("zeta"), entry("alpha")], Some(parent));
    assert_eq!(browser.entries.len(), 3);
    assert_eq!(browser.entries[0].name, "..");
    assert_eq!(browser.entries[1].name, "alpha");
    assert_eq!(browser.entries[2].name, "zeta");
    browser.select_next();
    browser.select_next();
    browser.select_next();
    assert_eq!(browser.selected_idx, 0);
    browser.select_prev();
    assert_eq!(browser.selected_idx, 2);
    let needs_listing = browser.enter_selected();
    assert!(needs_listing);
    assert_eq!(browser.current_dir, "/home/user/projects/zeta");
    let up = browser.go_up();
    assert!(up);
    assert_eq!(browser.current_dir, "/home/user/projects");
}

#[test]
fn parent_paths() {
    assert_eq!(parent_dir("/a/b").as_deref(), Some("/a"));
    assert_eq!(parent_dir("/a").as_deref(), Some("/"));
    assert_eq!(parent_dir("/"), None);
    assert_eq!(parent_dir("plain"), None);
}

#[test]
fn key_translation() {
    assert_eq!(key_to_bytes(TerminalKey::Enter, false), vec![13u8]);
    assert_eq!(key_to_bytes(TerminalKey::Char('a'), false), b"a".to_vec());
    assert_eq!(key_to_bytes(TerminalKey::Char('c'), true), vec![3u8]);
    assert_eq!(key_to_bytes(TerminalKey::Char('C'), true), vec![3u8]);
    assert_eq!(key_to_bytes(TerminalKey::Up, false), b"\x1b[A".to_vec());
    assert_eq!(key_to_bytes(TerminalKey::F(5), false), b"\x1b[15~".to_vec());
    assert_eq!(key_to_bytes(TerminalKey::Other, false), Vec::<u8>::new());
}

#[test]
fn text_utilities() {
    assert_eq!(u64_to_string(0), "0");
    assert_eq!(u64_to_string(90210), "90210");
    assert_eq!(ascii_lowercase("PowerShell"), "powershell");
    assert!(str_contains("the PowerShell path", "PowerShell"));
    assert!(!str_contains("abc", "abd"));
    assert_eq!(base_name("C:\\Windows\\System32\\cmd.exe"), "cmd.exe");
}

#[test]
fn status_bar_layout() {
    let items = get_status_help_items(FocusArea::Sidebar, Language::English);
    assert_eq!(items.len(), 6);
    let narrow = build_status_help_lines(&items, 30);
    assert!(narrow.len() > 1);
    let flattened: Vec<_> = narrow.iter().flatten().collect();
    assert_eq!(flattened.len(), items.len());
    let wide = build_status_help_lines(&items, 500);
    assert_eq!(wide.len(), 1);
    let info = ScrollInfo::new(100, 20, 0);
    assert!(info.needs_scrollbar());
    assert_eq!(info.max_scroll(), 80);
}

#[test]
fn tick_schedules_the_resource_refresh() {
    let mut state = fresh_state();
    let mut due_count = 0;
    for t in 0..61u64 {
        if state.tick(t) {
            due_count += 1;
        }
    }
    assert_eq!(due_count, 2);
}

#[test]
fn removing_a_project_kills_its_sessions() {
    let mut state = fresh_state();
    let mut project = Project::new(String::from("/tmp/demo"));
    let mut dev = PtyHandle::new("dev-9");
    dev.mark_spawned(0x7ffffff0);
    project.dev_pty = Some(dev);
    let mut shell = PtyHandle::new("shell-9");
    shell.mark_spawned(0x7fffffef);
    project.shell_pty = Some(shell);
    state.add_project(project);

    let tickets = state.remove_project(0);
    assert_eq!(state.projects.len(), 0);
    assert_eq!(tickets.len(), 2);
    assert!(tickets.iter().any(|t| t.pid == 0x7ffffff0));
    assert!(tickets.iter().any(|t| t.pid == 0x7fffffef));

    // Removing out of range does nothing and yields no tickets.
    let none = state.remove_project(5);
    assert!(none.is_empty());
}
