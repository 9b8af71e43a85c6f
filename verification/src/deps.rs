//! The dependency installer: ensures a named external tool is present,
//! installing its package only when a probe launch shows it absent. An
//! already-present dependency is never reinstalled.

use vstd::prelude::*;
use crate::events::{Action, Event};
use crate::outcome::{InstallError, Launch};
use crate::platform::{supported, Platform};

verus! {

/// An external tool the installed application needs.
#[derive(Clone, Copy, PartialEq, Eq, Structural, Debug)]
pub enum Dependency {
    /// The version-control tool used to clone the configuration repository.
    VersionControl,
    /// The language runtime the application runs on.
    Runtime,
}

/// The executable probed to see whether the dependency is present.
pub open spec fn spec_tool_name(d: Dependency) -> Seq<char> {
    match d {
        Dependency::VersionControl => "git"@,
        Dependency::Runtime => "java"@,
    }
}

/// The package the package manager installs for the dependency.
pub open spec fn spec_package_name(d: Dependency) -> Seq<char> {
    match d {
        Dependency::VersionControl => "git"@,
        Dependency::Runtime => "openjdk-17-jre-headless"@,
    }
}

impl Dependency {
    /// The name of the executable to probe with a version query.
    pub fn tool_name(&self) -> (r: &'static str)
        ensures
            r@ == spec_tool_name(*self),
    {
        match self {
            Dependency::VersionControl => "git",
            Dependency::Runtime => "java",
        }
    }

    /// The name of the package to hand to the package manager.
    pub fn package_name(&self) -> (r: &'static str)
        ensures
            r@ == spec_package_name(*self),
    {
        match self {
            Dependency::VersionControl => "git",
            Dependency::Runtime => "openjdk-17-jre-headless",
        }
    }
}

/// Where the installer stands.
#[derive(Clone, Copy, PartialEq, Eq, Structural, Debug)]
pub enum DepPhase {
    /// Waiting for the outcome of launching the tool with a version query.
    Probe,
    /// Waiting for the outcome of launching the package manager.
    Install,
    /// The dependency is present.
    Done,
    /// The package manager itself could not be launched.
    Failed,
}

/// The state of one dependency installation.
#[derive(Clone, Copy, PartialEq, Eq, Structural, Debug)]
pub struct DepInstall {
    /// The tool being ensured.
    pub dependency: Dependency,
    /// Where the installation stands.
    pub phase: DepPhase,
}

/// The transition the installer makes on one reported outcome. A probe that
/// launched means the tool is already there: the installer is done without
/// ever invoking the package manager. A probe that could not launch leads to
/// one package-manager invocation, whose successful launch (exit status is
/// deliberately not inspected) completes the installation.
pub open spec fn spec_dep_step(m: DepInstall, ev: Event) -> DepInstall {
    match (m.phase, ev) {
        (DepPhase::Probe, Event::LaunchOutcome(Launch::Started)) => DepInstall {
            phase: DepPhase::Done,
            ..m
        },
        (DepPhase::Probe, Event::LaunchOutcome(Launch::Failed)) => DepInstall {
            phase: DepPhase::Install,
            ..m
        },
        (DepPhase::Install, Event::LaunchOutcome(Launch::Started)) => DepInstall {
            phase: DepPhase::Done,
            ..m
        },
        (DepPhase::Install, Event::LaunchOutcome(Launch::Failed)) => DepInstall {
            phase: DepPhase::Failed,
            ..m
        },
        _ => m,
    }
}

/// What the installer asks the host to do next, if anything.
pub open spec fn spec_dep_action(m: DepInstall) -> Option<Action> {
    match m.phase {
        DepPhase::Probe => Some(Action::LaunchProbe { dependency: m.dependency }),
        DepPhase::Install => Some(Action::LaunchPackageInstall { dependency: m.dependency }),
        DepPhase::Done => None,
        DepPhase::Failed => None,
    }
}

/// The error a failed installation reports.
pub open spec fn spec_dep_error(m: DepInstall) -> Option<InstallError> {
    if m.phase is Failed {
        Some(InstallError::InstallPackage(m.dependency))
    } else {
        None
    }
}

impl DepInstall {
    /// Advances the installer on one reported outcome.
    pub fn step(self, ev: Event) -> (r: DepInstall)
        ensures
            r == spec_dep_step(self, ev),
    {
        match (self.phase, &ev) {
            (DepPhase::Probe, Event::LaunchOutcome(Launch::Started)) => DepInstall {
                phase: DepPhase::Done,
                ..self
            },
            (DepPhase::Probe, Event::LaunchOutcome(Launch::Failed)) => DepInstall {
                phase: DepPhase::Install,
                ..self
            },
            (DepPhase::Install, Event::LaunchOutcome(Launch::Started)) => DepInstall {
                phase: DepPhase::Done,
                ..self
            },
            (DepPhase::Install, Event::LaunchOutcome(Launch::Failed)) => DepInstall {
                phase: DepPhase::Failed,
                ..self
            },
            _ => self,
        }
    }

    /// What the host must do next, if anything.
    pub fn action(&self) -> (r: Option<Action>)
        ensures
            r == spec_dep_action(*self),
    {
        match self.phase {
            DepPhase::Probe => Some(Action::LaunchProbe { dependency: self.dependency }),
            DepPhase::Install => Some(Action::LaunchPackageInstall {
                dependency: self.dependency,
            }),
            DepPhase::Done => None,
            DepPhase::Failed => None,
        }
    }

    /// The error of a failed installation, if it failed.
    pub fn error(&self) -> (r: Option<InstallError>)
        ensures
            r == spec_dep_error(*self),
    {
        if matches!(self.phase, DepPhase::Failed) {
            Some(InstallError::InstallPackage(self.dependency))
        } else {
            None
        }
    }
}

/// Ensures the language runtime is present, starting with a probe launch.
/// On every platform but the supported one this fails immediately, before
/// any process is invoked.
pub fn install_java_os(platform: Platform) -> (r: Result<DepInstall, InstallError>)
    ensures
        supported(platform) ==> r == Ok::<DepInstall, InstallError>(
            DepInstall { dependency: Dependency::Runtime, phase: DepPhase::Probe },
        ),
        !supported(platform) ==> r == Err::<DepInstall, InstallError>(InstallError::Unsupported),
{
    if platform.is_supported() {
        Ok(DepInstall { dependency: Dependency::Runtime, phase: DepPhase::Probe })
    } else {
        Err(InstallError::Unsupported)
    }
}

/// Installs the version-control tool. It is invoked only after a clone
/// launch has already shown the tool absent, so it goes straight to the
/// package manager without a probe. On every platform but the supported one
/// this fails immediately, before any process is invoked.
pub fn install_git_os(platform: Platform) -> (r: Result<DepInstall, InstallError>)
    ensures
        supported(platform) ==> r == Ok::<DepInstall, InstallError>(
            DepInstall { dependency: Dependency::VersionControl, phase: DepPhase::Install },
        ),
        !supported(platform) ==> r == Err::<DepInstall, InstallError>(InstallError::Unsupported),
{
    if platform.is_supported() {
        Ok(DepInstall { dependency: Dependency::VersionControl, phase: DepPhase::Install })
    } else {
        Err(InstallError::Unsupported)
    }
}

/// An already-installed dependency is never reinstalled: when the probe
/// launch succeeds, the installer finishes at once and never requests a
/// package-manager invocation.
pub proof fn lemma_probe_success_skips_install(m: DepInstall)
    requires
        m.phase is Probe,
    ensures
        spec_dep_step(m, Event::LaunchOutcome(Launch::Started)).phase is Done,
        spec_dep_action(spec_dep_step(m, Event::LaunchOutcome(Launch::Started))) is None,
{
}

} // verus!
