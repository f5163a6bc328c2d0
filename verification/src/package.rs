//! Package-manager detection and invocation names. Which lock files exist
//! in a project directory is read by the caller; the detection priority
//! lives here.

use vstd::prelude::*;

verus! {

/// The package manager a project uses.
#[derive(Debug, Clone, Copy, PartialEq, Eq, Structural)]
pub enum PackageManager {
    Npm,
    Yarn,
    Pnpm,
    Bun,
}

impl PackageManager {
    /// The binary to execute.
    pub fn command(&self) -> (r: &'static str)
        ensures
            self is Npm ==> r@ == "npm"@,
            self is Yarn ==> r@ == "yarn"@,
            self is Pnpm ==> r@ == "pnpm"@,
            self is Bun ==> r@ == "bun"@,
    {
        match self {
            PackageManager::Npm => "npm",
            PackageManager::Yarn => "yarn",
            PackageManager::Pnpm => "pnpm",
            PackageManager::Bun => "bun",
        }
    }

    /// The prefix that runs a named package script.
    pub fn run_prefix(&self) -> (r: &'static str)
        ensures
            r@ == spec_run_prefix(*self),
    {
        match self {
            PackageManager::Npm => "npm run",
            PackageManager::Yarn => "yarn",
            PackageManager::Pnpm => "pnpm",
            PackageManager::Bun => "bun run",
        }
    }
}

/// The script-running prefix of each package manager.
pub open spec fn spec_run_prefix(pm: PackageManager) -> Seq<char> {
    match pm {
        PackageManager::Npm => "npm run"@,
        PackageManager::Yarn => "yarn"@,
        PackageManager::Pnpm => "pnpm"@,
        PackageManager::Bun => "bun run"@,
    }
}

/// Chooses the package manager from the lock files the caller found in
/// the project directory, in priority order pnpm, yarn, bun; npm is the
/// fallback.
pub fn detect_package_manager(
    has_pnpm_lock: bool,
    has_yarn_lock: bool,
    has_bun_lock: bool,
) -> (r: PackageManager)
    ensures
        has_pnpm_lock ==> r is Pnpm,
        !has_pnpm_lock && has_yarn_lock ==> r is Yarn,
        !has_pnpm_lock && !has_yarn_lock && has_bun_lock ==> r is Bun,
        !has_pnpm_lock && !has_yarn_lock && !has_bun_lock ==> r is Npm,
{
    if has_pnpm_lock {
        PackageManager::Pnpm
    } else if has_yarn_lock {
        PackageManager::Yarn
    } else if has_bun_lock {
        PackageManager::Bun
    } else {
        PackageManager::Npm
    }
}

} // verus!
