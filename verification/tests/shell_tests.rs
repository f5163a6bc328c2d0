use devpanel::shell::{build_shell_command, get_shell_name, get_default_shell, is_powershell};
use devpanel::package::{detect_package_manager, PackageManager};

#[test]
fn test_get_shell_name() {
    assert_eq!(get_shell_name("/bin/zsh"), "zsh");
    assert_eq!(get_shell_name("/usr/bin/bash"), "bash");
    assert_eq!(get_shell_name("powershell.exe"), "powershell.exe");
}

#[test]
fn test_build_shell_command() {
    let (shell, args) = build_shell_command("/bin/zsh", "echo hello");
    assert!(!shell.is_empty());
    assert!(!args.is_empty());
}

#[test]
fn test_package_manager_command() {
    assert_eq!(PackageManager::Pnpm.command(), "pnpm");
    assert_eq!(PackageManager::Yarn.command(), "yarn");
}

#[test]
fn posix_shell_wraps_with_dash_c() {
    let (shell, args) = build_shell_command("/bin/bash", "npm run dev");
    assert_eq!(shell, "/bin/bash");
    assert_eq!(args.len(), 2);
    assert_eq!(args[0], "-c");
    assert_eq!(args[1], "npm run dev");
}

#[test]
fn powershell_wraps_with_command_flag() {
    let (_, args) = build_shell_command("C:\\Tools\\PowerShell\\pwsh.exe", "dir");
    assert_eq!(args[0], "-Command");
    let (_, args) = build_shell_command("cmd.exe", "dir");
    assert_eq!(args[0], "/C");
}

#[test]
fn default_shell_honours_environment_value() {
    assert_eq!(get_default_shell(Some("/usr/bin/fish")), "/usr/bin/fish");
    assert_eq!(get_default_shell(None), "/bin/zsh");
}

#[test]
fn powershell_detection_is_case_insensitive() {
    assert!(is_powershell("PowerShell.exe"));
    assert!(is_powershell("/opt/microsoft/pwsh"));
    assert!(!is_powershell("/bin/sh"));
}

#[test]
fn lock_files_pick_the_package_manager() {
    assert_eq!(detect_package_manager(true, true, true), PackageManager::Pnpm);
    assert_eq!(detect_package_manager(false, true, true), PackageManager::Yarn);
    assert_eq!(detect_package_manager(false, false, true), PackageManager::Bun);
    assert_eq!(detect_package_manager(false, false, false), PackageManager::Npm);
}

#[test]
fn run_prefixes_match_the_managers() {
    assert_eq!(PackageManager::Npm.run_prefix(), "npm run");
    assert_eq!(PackageManager::Bun.run_prefix(), "bun run");
}
