//! The repository provisioner: clones the configuration repository into the
//! fixed local directory. When the first clone launch fails — the
//! version-control tool is missing — the tool is installed through the
//! dependency installer and the clone launch is retried exactly once, with a
//! freshly built invocation. After a clone launch succeeds, credential
//! persistence is configured inside the cloned directory and an initial
//! fetch is performed; a launch failure of either is a hard error.

use vstd::prelude::*;
use crate::deps::{spec_dep_action, spec_dep_step, DepInstall, Dependency, DepPhase};
use crate::deps::install_git_os;
use crate::events::{Action, Event};
use crate::outcome::{InstallError, Launch};
use crate::platform::{supported, Platform};
use crate::urltext::{normalize_url, spec_normalize_url};

verus! {

/// Where the provisioner stands.
#[derive(PartialEq, Eq, Debug)]
pub enum RepoPhase {
    /// Waiting for the outcome of the first clone launch.
    CloneFirst,
    /// The first clone launch failed; the dependency installer is putting
    /// the version-control tool in place.
    InstallTool(DepInstall),
    /// Waiting for the outcome of the one retried clone launch.
    CloneRetry,
    /// Waiting for the outcome of launching the credential configuration.
    Configure,
    /// Waiting for the outcome of launching the initial fetch.
    FetchRepo,
    /// The repository is cloned and configured.
    Done,
    /// The provisioner failed.
    Failed(InstallError),
}

/// The state of one repository provisioning.
#[derive(PartialEq, Eq, Debug)]
pub struct RepoProvision {
    /// The platform, consulted when the version-control tool has to be
    /// installed.
    pub platform: Platform,
    /// The repository location as read from the input source, trailing
    /// newline still attached; it is normalized when the clone command is
    /// built.
    pub url: String,
    /// Where the provisioning stands.
    pub phase: RepoPhase,
}

/// The transition the provisioner makes on one reported outcome. The
/// fallback is deliberately narrow: only a launch failure of the first
/// clone leads to the tool installation, and only one retry follows it; a
/// launch failure of the retried clone is final and names the clone action.
pub open spec fn spec_repo_step(m: RepoProvision, ev: Event) -> RepoProvision {
    match (m.phase, ev) {
        (RepoPhase::CloneFirst, Event::LaunchOutcome(Launch::Started)) => RepoProvision {
            phase: RepoPhase::Configure,
            ..m
        },
        (RepoPhase::CloneFirst, Event::LaunchOutcome(Launch::Failed)) => {
            if supported(m.platform) {
                RepoProvision {
                    phase: RepoPhase::InstallTool(
                        DepInstall { dependency: Dependency::VersionControl, phase: DepPhase::Install },
                    ),
                    ..m
                }
            } else {
                RepoProvision { phase: RepoPhase::Failed(InstallError::Unsupported), ..m }
            }
        },
        (RepoPhase::InstallTool(d), Event::LaunchOutcome(l)) => {
            let d2 = spec_dep_step(d, Event::LaunchOutcome(l));
            if d2.phase is Done {
                RepoProvision { phase: RepoPhase::CloneRetry, ..m }
            } else if d2.phase is Failed {
                RepoProvision {
                    phase: RepoPhase::Failed(InstallError::InstallPackage(d2.dependency)),
                    ..m
                }
            } else {
                RepoProvision { phase: RepoPhase::InstallTool(d2), ..m }
            }
        },
        (RepoPhase::CloneRetry, Event::LaunchOutcome(Launch::Started)) => RepoProvision {
            phase: RepoPhase::Configure,
            ..m
        },
        (RepoPhase::CloneRetry, Event::LaunchOutcome(Launch::Failed)) => RepoProvision {
            phase: RepoPhase::Failed(InstallError::Clone),
            ..m
        },
        (RepoPhase::Configure, Event::LaunchOutcome(Launch::Started)) => RepoProvision {
            phase: RepoPhase::FetchRepo,
            ..m
        },
        (RepoPhase::Configure, Event::LaunchOutcome(Launch::Failed)) => RepoProvision {
            phase: RepoPhase::Failed(InstallError::ConfigCredentials),
            ..m
        },
        (RepoPhase::FetchRepo, Event::LaunchOutcome(Launch::Started)) => RepoProvision {
            phase: RepoPhase::Done,
            ..m
        },
        (RepoPhase::FetchRepo, Event::LaunchOutcome(Launch::Failed)) => RepoProvision {
            phase: RepoPhase::Failed(InstallError::FetchRepo),
            ..m
        },
        (_, _) => m,
    }
}

/// What the provisioner asks the host to do next, if anything. Every clone
/// launch is requested with a freshly built invocation carrying the
/// normalized repository location.
pub open spec fn spec_repo_action_is(m: RepoProvision, r: Option<Action>) -> bool {
    match m.phase {
        RepoPhase::CloneFirst => (r matches Some(Action::LaunchClone { url }) && url@
            == spec_normalize_url(m.url@)),
        RepoPhase::InstallTool(d) => r == spec_dep_action(d),
        RepoPhase::CloneRetry => (r matches Some(Action::LaunchClone { url }) && url@
            == spec_normalize_url(m.url@)),
        RepoPhase::Configure => r == Some(Action::LaunchCredentialConfig),
        RepoPhase::FetchRepo => r == Some(Action::LaunchRepoFetch),
        RepoPhase::Done => r is None,
        RepoPhase::Failed(_) => r is None,
    }
}

impl RepoProvision {
    /// Starts the provisioning of `url` (as read, trailing newline still
    /// attached): the first clone launch is the first thing requested.
    pub fn start(platform: Platform, url: String) -> (r: RepoProvision)
        ensures
            r == (RepoProvision { platform, url, phase: RepoPhase::CloneFirst }),
    {
        RepoProvision { platform, url, phase: RepoPhase::CloneFirst }
    }

    /// Advances the provisioner on one reported outcome.
    pub fn step(self, ev: Event) -> (r: RepoProvision)
        ensures
            r == spec_repo_step(self, ev),
    {
        match (self.phase, ev) {
            (RepoPhase::CloneFirst, Event::LaunchOutcome(Launch::Started)) => RepoProvision {
                phase: RepoPhase::Configure,
                platform: self.platform,
                url: self.url,
            },
            (RepoPhase::CloneFirst, Event::LaunchOutcome(Launch::Failed)) => {
                match install_git_os(self.platform) {
                    Ok(d) => RepoProvision {
                        phase: RepoPhase::InstallTool(d),
                        platform: self.platform,
                        url: self.url,
                    },
                    Err(e) => RepoProvision {
                        phase: RepoPhase::Failed(e),
                        platform: self.platform,
                        url: self.url,
                    },
                }
            },
            (RepoPhase::InstallTool(d), Event::LaunchOutcome(l)) => {
                let d2 = d.step(Event::LaunchOutcome(l));
                let phase = if matches!(d2.phase, DepPhase::Done) {
                    RepoPhase::CloneRetry
                } else if matches!(d2.phase, DepPhase::Failed) {
                    RepoPhase::Failed(InstallError::InstallPackage(d2.dependency))
                } else {
                    RepoPhase::InstallTool(d2)
                };
                RepoProvision { phase, platform: self.platform, url: self.url }
            },
            (RepoPhase::CloneRetry, Event::LaunchOutcome(Launch::Started)) => RepoProvision {
                phase: RepoPhase::Configure,
                platform: self.platform,
                url: self.url,
            },
            (RepoPhase::CloneRetry, Event::LaunchOutcome(Launch::Failed)) => RepoProvision {
                phase: RepoPhase::Failed(InstallError::Clone),
                platform: self.platform,
                url: self.url,
            },
            (RepoPhase::Configure, Event::LaunchOutcome(Launch::Started)) => RepoProvision {
                phase: RepoPhase::FetchRepo,
                platform: self.platform,
                url: self.url,
            },
            (RepoPhase::Configure, Event::LaunchOutcome(Launch::Failed)) => RepoProvision {
                phase: RepoPhase::Failed(InstallError::ConfigCredentials),
                platform: self.platform,
                url: self.url,
            },
            (RepoPhase::FetchRepo, Event::LaunchOutcome(Launch::Started)) => RepoProvision {
                phase: RepoPhase::Done,
                platform: self.platform,
                url: self.url,
            },
            (RepoPhase::FetchRepo, Event::LaunchOutcome(Launch::Failed)) => RepoProvision {
                phase: RepoPhase::Failed(InstallError::FetchRepo),
                platform: self.platform,
                url: self.url,
            },
            (phase, _) => RepoProvision { phase, platform: self.platform, url: self.url },
        }
    }

    /// What the host must do next, if anything.
    pub fn action(&self) -> (r: Option<Action>)
        ensures
            spec_repo_action_is(*self, r),
    {
        match &self.phase {
            RepoPhase::CloneFirst => Some(Action::LaunchClone { url: normalize_url(self.url.as_str()) }),
            RepoPhase::InstallTool(d) => d.action(),
            RepoPhase::CloneRetry => Some(Action::LaunchClone { url: normalize_url(self.url.as_str()) }),
            RepoPhase::Configure => Some(Action::LaunchCredentialConfig),
            RepoPhase::FetchRepo => Some(Action::LaunchRepoFetch),
            RepoPhase::Done => None,
            RepoPhase::Failed(_) => None,
        }
    }
}

/// The fallback retries exactly once, and a failure of the retried launch
/// is reported as a clone failure, not an installation failure: after the
/// first clone launch fails and the tool installation launches, the
/// provisioner requests one clone; if that launch also fails, the
/// provisioner is finished, requests nothing further, and names the clone
/// action in its error.
pub proof fn lemma_retry_once_then_fail_names_clone(m: RepoProvision)
    requires
        m.phase is CloneFirst,
        supported(m.platform),
    ensures
        ({
            let after_first = spec_repo_step(m, Event::LaunchOutcome(Launch::Failed));
            let after_install = spec_repo_step(after_first, Event::LaunchOutcome(Launch::Started));
            let after_retry = spec_repo_step(after_install, Event::LaunchOutcome(Launch::Failed));
            &&& after_first.phase matches RepoPhase::InstallTool(d) && d.phase is Install
            &&& after_install.phase is CloneRetry
            &&& after_retry.phase matches RepoPhase::Failed(e) && e == InstallError::Clone
            &&& forall|ev: Event| spec_repo_step(after_retry, ev) == after_retry
            &&& forall|r: Option<Action>| spec_repo_action_is(after_retry, r) ==> r is None
        }),
{
    let after_first = spec_repo_step(m, Event::LaunchOutcome(Launch::Failed));
    let after_install = spec_repo_step(after_first, Event::LaunchOutcome(Launch::Started));
    let after_retry = spec_repo_step(after_install, Event::LaunchOutcome(Launch::Failed));
    assert forall|ev: Event| spec_repo_step(after_retry, ev) == after_retry by {
        assert(after_retry.phase is Failed);
    }
}

} // verus!
