use devpanel::manager::{
    child_env, classify_spawn_error, ensure_critical_windows_env, openpty_retry, spawn_retry,
    PtyManager, SpawnFailureClass, WindowsEnvProbe, STATUS_DLL_INIT_FAILED,
};
use devpanel::widgets::{ProgressStyle, Spinner};

fn pair(k: &str, v: &str) -> (String, String) {
    (String::from(k), String::from(v))
}

#[test]
fn child_env_keeps_capabilities_and_the_allow_list() {
    let available = vec![
        pair("HOME", "/home/u"),
        pair("SECRET_TOKEN", "nope"),
        pair("PATH", "/usr/bin"),
        pair("LANG", "en_US.UTF-8"),
    ];
    let env = child_env(&available);
    assert_eq!(env[0], pair("TERM", "xterm-256color"));
    assert_eq!(env[1], pair("COLORTERM", "truecolor"));
    assert_eq!(env[2], pair("HOME", "/home/u"));
    assert_eq!(env[3], pair("PATH", "/usr/bin"));
    assert_eq!(env[4], pair("LANG", "en_US.UTF-8"));
    assert_eq!(env.len(), 5, "variables off the allow list are not forwarded");
}

#[test]
fn shell_plans_differ_by_family() {
    let manager = PtyManager::new();
    let env: Vec<(String, String)> = Vec::new();
    let posix = manager.create_shell("s1", "/bin/zsh", "/work", 24, 80, &env);
    assert_eq!(posix.args, vec![String::from("-l"), String::from("-i")]);
    let windows = manager.create_shell("s2", "powershell.exe", "C:\\work", 24, 80, &env);
    assert!(windows.args.is_empty());
    let direct = manager.create_command(
        "s3",
        "cargo",
        &vec![String::from("build")],
        "/work",
        30,
        120,
        &env,
    );
    assert_eq!(direct.program, "cargo");
    assert_eq!(direct.rows, 30);
    assert_eq!(direct.cols, 120);
}

#[test]
fn retry_schedules_grow_and_give_up() {
    assert_eq!(openpty_retry(0), Some(50));
    assert_eq!(openpty_retry(1), Some(100));
    assert_eq!(openpty_retry(2), None);

    let race = SpawnFailureClass::KnownInitRace;
    let other = SpawnFailureClass::Other;
    assert_eq!(spawn_retry(0, race), Some(100));
    assert_eq!(spawn_retry(3, race), Some(400));
    assert_eq!(spawn_retry(4, race), None);
    assert_eq!(spawn_retry(0, other), Some(50));
    assert_eq!(spawn_retry(1, other), Some(100));
    assert_eq!(spawn_retry(2, other), None);
}

#[test]
fn the_known_startup_failure_is_recognized_by_code() {
    assert_eq!(classify_spawn_error(Some(STATUS_DLL_INIT_FAILED)), SpawnFailureClass::KnownInitRace);
    assert_eq!(classify_spawn_error(Some(5)), SpawnFailureClass::Other);
    assert_eq!(classify_spawn_error(None), SpawnFailureClass::Other);
}

#[test]
fn missing_critical_variables_get_fallbacks() {
    let probe = WindowsEnvProbe {
        system_root: None,
        system_root_caps: Some(String::from("D:\\Win")),
        windir: None,
        system_drive: None,
        system_drive_caps: None,
        comspec: None,
        path: Some(String::from("C:\\Tools")),
        windir_caps: None,
    };
    let fixes = ensure_critical_windows_env(&probe);
    assert_eq!(fixes[0], pair("SystemRoot", "D:\\Win"));
    assert_eq!(fixes[1], pair("SystemDrive", "D:"));
    assert_eq!(fixes[2], pair("COMSPEC", "D:\\Win\\System32\\cmd.exe"));
    assert_eq!(fixes[3], pair("PATH", "D:\\Win\\System32;C:\\Tools"));
    assert_eq!(fixes[4], pair("WINDIR", "D:\\Win"));
}

#[test]
fn a_complete_environment_needs_no_fixups() {
    let probe = WindowsEnvProbe {
        system_root: Some(String::from("C:\\Windows")),
        system_root_caps: None,
        windir: Some(String::from("C:\\Windows")),
        system_drive: Some(String::from("C:")),
        system_drive_caps: None,
        comspec: Some(String::from("C:\\Windows\\System32\\cmd.exe")),
        path: Some(String::from("x;c:\\windows\\system32;y")),
        windir_caps: Some(String::from("C:\\Windows")),
    };
    let fixes = ensure_critical_windows_env(&probe);
    assert!(fixes.is_empty());
}

#[test]
fn spinner_steps_once_per_interval() {
    let spinner = Spinner::dots(1_000);
    let first = spinner.frame(1_000);
    assert_eq!(spinner.frame(1_079), first);
    assert_ne!(spinner.frame(1_080), first);
    // The animation wraps around after all eight frames.
    assert_eq!(spinner.frame(1_000 + 8 * 80), first);
}

#[test]
fn progress_bars_fill_left_to_right() {
    let style = ProgressStyle::default();
    let empty = style.render(0, 4);
    assert_eq!(empty.chars().count(), 4);
    let half = style.render(500, 4);
    assert_eq!(half.chars().count(), 4);
    assert_ne!(half, empty);
    let full = style.render(1000, 4);
    assert!(full.chars().all(|c| c == '\u{2588}'));
    let clamped = style.render(9999, 4);
    assert_eq!(clamped, full);
}
