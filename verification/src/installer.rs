//! The install orchestrator: the fixed, ordered sequence of provisioning
//! steps. The running executable is copied to the system binary path, the
//! repository location is read from interactive input, the repository is
//! provisioned, the runtime is ensured, and the artifact is fetched. The
//! first failure aborts everything after it; nothing that already happened
//! is rolled back.

use vstd::prelude::*;
use crate::config::InstallConfig;
use crate::deps::{install_java_os, spec_dep_action, spec_dep_step, DepInstall, Dependency, DepPhase};
use crate::events::{Action, Event};
use crate::fetch::{copy_jar_os, spec_fetch_action, spec_fetch_step, ArtifactFetch, FetchPhase};
use crate::outcome::InstallError;
use crate::platform::{supported, Platform};
use crate::repo::{spec_repo_action_is, spec_repo_step, RepoPhase, RepoProvision};
use crate::selfcopy::{copy_binary_os, spec_copy_action, spec_copy_done, spec_copy_step, CopyPhase, SelfCopy};

verus! {

/// Which step of the sequence is underway.
#[derive(PartialEq, Eq, Debug)]
pub enum InstallPhase {
    /// Placing the running executable at the system binary path.
    SelfCopy(SelfCopy),
    /// Waiting for the repository location to be read from input.
    ReadUrl,
    /// Provisioning the configuration repository.
    Repo(RepoProvision),
    /// Ensuring the language runtime is present.
    Runtime(DepInstall),
    /// Retrieving and storing the artifact.
    Fetch(ArtifactFetch),
    /// Every step finished.
    Done,
    /// A step failed; the steps after it never ran.
    Aborted(InstallError),
}

/// The state of one install run.
#[derive(PartialEq, Eq, Debug)]
pub struct Installer {
    /// The platform, checked once at the start and consulted by every
    /// platform-gated step.
    pub platform: Platform,
    /// The locations the run reads from and writes to.
    pub config: InstallConfig,
    /// Which step is underway.
    pub phase: InstallPhase,
}

/// A fresh install run. On every platform but the supported one the first
/// gated step — the self-copy — refuses at once, so the run is aborted
/// before anything is requested of the host.
pub open spec fn spec_new_installer(platform: Platform, config: InstallConfig) -> Installer {
    if supported(platform) {
        Installer {
            platform,
            config,
            phase: InstallPhase::SelfCopy(
                SelfCopy { to_path: config.bin_path, phase: CopyPhase::QueryPath },
            ),
        }
    } else {
        Installer { platform, config, phase: InstallPhase::Aborted(InstallError::Unsupported) }
    }
}

/// The transition the orchestrator makes on one reported outcome: the event
/// is handed to the step underway; when that step finishes, the next step
/// of the fixed sequence begins, behind its own platform gate; when it
/// fails, the run is aborted with the step's error.
pub open spec fn spec_installer_step(inst: Installer, ev: Event) -> Installer {
    match inst.phase {
        InstallPhase::SelfCopy(m) => {
            let m2 = spec_copy_step(m, ev);
            if spec_copy_done(m2) {
                Installer { phase: InstallPhase::ReadUrl, ..inst }
            } else {
                match m2.phase {
                    CopyPhase::Failed(e) => Installer { phase: InstallPhase::Aborted(e), ..inst },
                    _ => Installer { phase: InstallPhase::SelfCopy(m2), ..inst },
                }
            }
        },
        InstallPhase::ReadUrl => match ev {
            Event::UrlLine(Some(line)) => Installer {
                phase: InstallPhase::Repo(
                    RepoProvision { platform: inst.platform, url: line, phase: RepoPhase::CloneFirst },
                ),
                ..inst
            },
            Event::UrlLine(None) => Installer {
                phase: InstallPhase::Aborted(InstallError::ReadUrl),
                ..inst
            },
            _ => inst,
        },
        InstallPhase::Repo(m) => {
            let m2 = spec_repo_step(m, ev);
            if m2.phase is Done {
                if supported(inst.platform) {
                    Installer {
                        phase: InstallPhase::Runtime(
                            DepInstall { dependency: Dependency::Runtime, phase: DepPhase::Probe },
                        ),
                        ..inst
                    }
                } else {
                    Installer { phase: InstallPhase::Aborted(InstallError::Unsupported), ..inst }
                }
            } else {
                match m2.phase {
                    RepoPhase::Failed(e) => Installer { phase: InstallPhase::Aborted(e), ..inst },
                    _ => Installer { phase: InstallPhase::Repo(m2), ..inst },
                }
            }
        },
        InstallPhase::Runtime(d) => {
            let d2 = spec_dep_step(d, ev);
            if d2.phase is Done {
                if supported(inst.platform) {
                    Installer {
                        phase: InstallPhase::Fetch(
                            ArtifactFetch { body: None, phase: FetchPhase::Get },
                        ),
                        ..inst
                    }
                } else {
                    Installer { phase: InstallPhase::Aborted(InstallError::Unsupported), ..inst }
                }
            } else if d2.phase is Failed {
                Installer {
                    phase: InstallPhase::Aborted(InstallError::InstallPackage(d2.dependency)),
                    ..inst
                }
            } else {
                Installer { phase: InstallPhase::Runtime(d2), ..inst }
            }
        },
        InstallPhase::Fetch(f) => {
            let f2 = spec_fetch_step(f, ev);
            if f2.phase is Done {
                Installer { phase: InstallPhase::Done, ..inst }
            } else {
                match f2.phase {
                    FetchPhase::Failed(e) => Installer { phase: InstallPhase::Aborted(e), ..inst },
                    _ => Installer { phase: InstallPhase::Fetch(f2), ..inst },
                }
            }
        },
        InstallPhase::Done => inst,
        InstallPhase::Aborted(_) => inst,
    }
}

/// What the orchestrator asks the host to do next: the pending action of
/// the step underway, and nothing once the run is finished or aborted.
pub open spec fn spec_installer_action_is(inst: Installer, r: Option<Action>) -> bool {
    match inst.phase {
        InstallPhase::SelfCopy(m) => r == spec_copy_action(m),
        InstallPhase::ReadUrl => r == Some(Action::PromptForUrl),
        InstallPhase::Repo(m) => spec_repo_action_is(m, r),
        InstallPhase::Runtime(d) => r == spec_dep_action(d),
        InstallPhase::Fetch(f) => r == spec_fetch_action(f),
        InstallPhase::Done => r is None,
        InstallPhase::Aborted(_) => r is None,
    }
}

impl Installer {
    /// Begins an install run on `platform` against the locations in
    /// `config`.
    pub fn new(platform: Platform, config: InstallConfig) -> (r: Installer)
        ensures
            r == spec_new_installer(platform, config),
    {
        let bin_path = config.bin_path.clone();
        match copy_binary_os(platform, bin_path) {
            Ok(m) => Installer { platform, config, phase: InstallPhase::SelfCopy(m) },
            Err(e) => Installer { platform, config, phase: InstallPhase::Aborted(e) },
        }
    }

    /// Advances the run on one reported outcome.
    pub fn step(self, ev: Event) -> (r: Installer)
        ensures
            r == spec_installer_step(self, ev),
    {
        match self.phase {
            InstallPhase::SelfCopy(m) => {
                let m2 = m.step(ev);
                let phase = if matches!(m2.phase, CopyPhase::DoneSkipped)
                    || matches!(m2.phase, CopyPhase::DoneCopied) {
                    InstallPhase::ReadUrl
                } else if let CopyPhase::Failed(e) = m2.phase {
                    InstallPhase::Aborted(e)
                } else {
                    InstallPhase::SelfCopy(m2)
                };
                Installer { phase, platform: self.platform, config: self.config }
            },
            InstallPhase::ReadUrl => {
                let phase = match ev {
                    Event::UrlLine(Some(line)) => InstallPhase::Repo(
                        RepoProvision::start(self.platform, line),
                    ),
                    Event::UrlLine(None) => InstallPhase::Aborted(InstallError::ReadUrl),
                    _ => InstallPhase::ReadUrl,
                };
                Installer { phase, platform: self.platform, config: self.config }
            },
            InstallPhase::Repo(m) => {
                let m2 = m.step(ev);
                let phase = if matches!(m2.phase, RepoPhase::Done) {
                    match install_java_os(self.platform) {
                        Ok(d) => InstallPhase::Runtime(d),
                        Err(e) => InstallPhase::Aborted(e),
                    }
                } else if let RepoPhase::Failed(e) = m2.phase {
                    InstallPhase::Aborted(e)
                } else {
                    InstallPhase::Repo(m2)
                };
                Installer { phase, platform: self.platform, config: self.config }
            },
            InstallPhase::Runtime(d) => {
                let d2 = d.step(ev);
                let phase = if matches!(d2.phase, DepPhase::Done) {
                    match copy_jar_os(self.platform) {
                        Ok(f) => InstallPhase::Fetch(f),
                        Err(e) => InstallPhase::Aborted(e),
                    }
                } else if matches!(d2.phase, DepPhase::Failed) {
                    InstallPhase::Aborted(InstallError::InstallPackage(d2.dependency))
                } else {
                    InstallPhase::Runtime(d2)
                };
                Installer { phase, platform: self.platform, config: self.config }
            },
            InstallPhase::Fetch(f) => {
                let f2 = f.step(ev);
                let phase = if matches!(f2.phase, FetchPhase::Done) {
                    InstallPhase::Done
                } else if let FetchPhase::Failed(e) = f2.phase {
                    InstallPhase::Aborted(e)
                } else {
                    InstallPhase::Fetch(f2)
                };
                Installer { phase, platform: self.platform, config: self.config }
            },
            phase => Installer { phase, platform: self.platform, config: self.config },
        }
    }

    /// What the host must do next, if anything.
    pub fn action(&self) -> (r: Option<Action>)
        ensures
            spec_installer_action_is(*self, r),
    {
        match &self.phase {
            InstallPhase::SelfCopy(m) => m.action(),
            InstallPhase::ReadUrl => Some(Action::PromptForUrl),
            InstallPhase::Repo(m) => m.action(),
            InstallPhase::Runtime(d) => d.action(),
            InstallPhase::Fetch(f) => f.action(),
            InstallPhase::Done => None,
            InstallPhase::Aborted(_) => None,
        }
    }

    /// The error the run was aborted with, if it was.
    pub fn error(&self) -> (r: Option<InstallError>)
        ensures
            match self.phase {
                InstallPhase::Aborted(e) => r == Some(e),
                _ => r is None,
            },
    {
        match &self.phase {
            InstallPhase::Aborted(e) => Some(*e),
            _ => None,
        }
    }

    /// Whether every step finished.
    pub fn is_done(&self) -> (r: bool)
        ensures
            r == (self.phase is Done),
    {
        matches!(self.phase, InstallPhase::Done)
    }
}

/// On an unsupported platform the run aborts at the self-copy attempt,
/// before anything — the URL prompt included — is requested of the host,
/// and no event moves it anywhere else.
pub proof fn lemma_unsupported_platform_aborts(platform: Platform, config: InstallConfig)
    requires
        !supported(platform),
    ensures
        ({
            let s0 = spec_new_installer(platform, config);
            &&& s0.phase matches InstallPhase::Aborted(e) && e == InstallError::Unsupported
            &&& forall|r: Option<Action>| spec_installer_action_is(s0, r) ==> r is None
            &&& forall|ev: Event| spec_installer_step(s0, ev) == s0
        }),
{
}

/// A finished run is inert, whether it completed or was aborted: the first
/// failure ends the whole sequence, no event restarts it, and nothing more
/// is requested of the host.
pub proof fn lemma_finished_runs_are_inert(inst: Installer, ev: Event)
    requires
        inst.phase is Done || inst.phase is Aborted,
    ensures
        spec_installer_step(inst, ev) == inst,
        forall|r: Option<Action>| spec_installer_action_is(inst, r) ==> r is None,
{
}

/// A full run on the supported platform with the version-control tool
/// present: the executable is copied, the location line is read (its
/// trailing newline stripped when the clone is requested), the clone
/// launches at the first attempt, credential configuration and the initial
/// fetch launch, the runtime probe launches — so no package is installed —
/// and the artifact is retrieved and stored, finishing the run.
pub proof fn lemma_run_with_tool_present(
    config: InstallConfig,
    exe: String,
    line: String,
    bytes: Vec<u8>,
)
    requires
        exe@ != config.bin_path@,
    ensures
        ({
            let s0 = spec_new_installer(Platform::Linux, config);
            let s1 = spec_installer_step(s0, Event::ExePath(Some(exe)));
            let s2 = spec_installer_step(s1, Event::CopyOutcome(true));
            let s3 = spec_installer_step(s2, Event::UrlLine(Some(line)));
            let s4 = spec_installer_step(s3, Event::LaunchOutcome(crate::outcome::Launch::Started));
            let s5 = spec_installer_step(s4, Event::LaunchOutcome(crate::outcome::Launch::Started));
            let s6 = spec_installer_step(s5, Event::LaunchOutcome(crate::outcome::Launch::Started));
            let s7 = spec_installer_step(s6, Event::LaunchOutcome(crate::outcome::Launch::Started));
            let s8 = spec_installer_step(s7, Event::HttpOutcome(true));
            let s9 = spec_installer_step(s8, Event::BodyOutcome(Some(bytes)));
            let s10 = spec_installer_step(s9, Event::PathExists(true));
            let s11 = spec_installer_step(s10, Event::FileOutcome(true));
            let s12 = spec_installer_step(s11, Event::FileOutcome(true));
            let s13 = spec_installer_step(s12, Event::FileOutcome(true));
            let s14 = spec_installer_step(s13, Event::FileOutcome(true));
            &&& s2.phase is ReadUrl
            &&& s3.phase matches InstallPhase::Repo(m) && m.url == line && m.phase is CloneFirst
            &&& forall|r: Option<Action>|
                spec_installer_action_is(s3, r) ==> (r matches Some(Action::LaunchClone { url })
                    && url@ == crate::urltext::spec_normalize_url(line@))
            &&& s6.phase matches InstallPhase::Runtime(d) && d.phase is Probe
            &&& s7.phase matches InstallPhase::Fetch(f) && f.phase is Get
            &&& s9.phase matches InstallPhase::Fetch(f) && f.body == Some(bytes)
            &&& s14.phase is Done
        }),
{
}

/// A full run on the supported platform with the version-control tool
/// absent: the first clone launch fails, one package-manager invocation
/// installs the tool, the clone is retried exactly once and launches, and
/// the rest of the sequence proceeds as when the tool was present.
pub proof fn lemma_run_with_tool_absent(
    config: InstallConfig,
    exe: String,
    line: String,
    bytes: Vec<u8>,
)
    requires
        exe@ != config.bin_path@,
    ensures
        ({
            let s0 = spec_new_installer(Platform::Linux, config);
            let s1 = spec_installer_step(s0, Event::ExePath(Some(exe)));
            let s2 = spec_installer_step(s1, Event::CopyOutcome(true));
            let s3 = spec_installer_step(s2, Event::UrlLine(Some(line)));
            let s4 = spec_installer_step(s3, Event::LaunchOutcome(crate::outcome::Launch::Failed));
            let s5 = spec_installer_step(s4, Event::LaunchOutcome(crate::outcome::Launch::Started));
            let s6 = spec_installer_step(s5, Event::LaunchOutcome(crate::outcome::Launch::Started));
            let s7 = spec_installer_step(s6, Event::LaunchOutcome(crate::outcome::Launch::Started));
            let s8 = spec_installer_step(s7, Event::LaunchOutcome(crate::outcome::Launch::Started));
            let s9 = spec_installer_step(s8, Event::LaunchOutcome(crate::outcome::Launch::Started));
            let s10 = spec_installer_step(s9, Event::HttpOutcome(true));
            let s11 = spec_installer_step(s10, Event::BodyOutcome(Some(bytes)));
            let s12 = spec_installer_step(s11, Event::PathExists(false));
            let s13 = spec_installer_step(s12, Event::FileOutcome(true));
            let s14 = spec_installer_step(s13, Event::FileOutcome(true));
            let s15 = spec_installer_step(s14, Event::FileOutcome(true));
            &&& s4.phase matches InstallPhase::Repo(m)
                && m.phase matches RepoPhase::InstallTool(d)
                && d.phase is Install
            &&& s5.phase matches InstallPhase::Repo(m) && m.phase is CloneRetry
            &&& s6.phase matches InstallPhase::Repo(m) && m.phase is Configure
            &&& s8.phase matches InstallPhase::Runtime(d) && d.phase is Probe
            &&& s9.phase matches InstallPhase::Fetch(f) && f.phase is Get
            &&& s15.phase is Done
        }),
{
}

} // verus!
