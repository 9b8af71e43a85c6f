//! Registration of the background service: a fixed block of service-manager
//! directives is written verbatim to the unit file, then the service is
//! enabled and started. This step is not part of the main install sequence.
//!
//! The first check keeps the behaviour it has always had: the step fails
//! when no file sits at the unit path, and proceeds to create the file when
//! one does. A maintainer reading this for the first time would expect the
//! opposite test; the discrepancy is preserved, not endorsed.

use vstd::prelude::*;
use crate::events::{Action, Event};
use crate::outcome::{InstallError, Launch};
use crate::platform::{supported, Platform};
use vstd::string::StringExecFns;

verus! {

/// The service-manager directives, rendered verbatim: description, start
/// and stop commands, working directory, restart policy and run-as
/// identity, and the target that wants the service.
pub open spec fn spec_unit_file_text() -> Seq<char> {
    "[Unit]\nDescription=Java_app\nAfter=network-online.target\n\n[Service]\nExecStart=synconf start\nExecStop=synconf stop\nWorkingDirectory=/var/synconf\nRestart=always\nUser=root\nGroup=root\nType=forking\n\n[Install]\nWantedBy=multi-user.target"@
}

/// The exact text written to the service unit file.
pub fn unit_file_text() -> (r: String)
    ensures
        r@ == spec_unit_file_text(),
{
    String::from_str(
        "[Unit]\nDescription=Java_app\nAfter=network-online.target\n\n[Service]\nExecStart=synconf start\nExecStop=synconf stop\nWorkingDirectory=/var/synconf\nRestart=always\nUser=root\nGroup=root\nType=forking\n\n[Install]\nWantedBy=multi-user.target",
    )
}

/// Where the service registration stands.
#[derive(Clone, Copy, PartialEq, Eq, Structural, Debug)]
pub enum ServicePhase {
    /// Waiting to hear whether a file sits at the unit path.
    ProbeUnit,
    /// Waiting for the outcome of creating the unit file.
    CreateUnit,
    /// Waiting for the outcome of writing the directives.
    WriteUnit,
    /// Waiting for the outcome of launching the service-manager enable.
    Enable,
    /// Waiting for the outcome of launching the service-manager start.
    Start,
    /// The service is registered and started.
    Done,
    /// The registration failed.
    Failed(InstallError),
}

/// The state of one service registration.
#[derive(Clone, Copy, PartialEq, Eq, Structural, Debug)]
pub struct ServiceSetup {
    /// Where the registration stands.
    pub phase: ServicePhase,
}

/// The transition the registration makes on one reported outcome.
pub open spec fn spec_service_step(m: ServiceSetup, ev: Event) -> ServiceSetup {
    match (m.phase, ev) {
        (ServicePhase::ProbeUnit, Event::PathExists(false)) => ServiceSetup {
            phase: ServicePhase::Failed(InstallError::UnitFileMissing),
        },
        (ServicePhase::ProbeUnit, Event::PathExists(true)) => ServiceSetup {
            phase: ServicePhase::CreateUnit,
        },
        (ServicePhase::CreateUnit, Event::FileOutcome(true)) => ServiceSetup {
            phase: ServicePhase::WriteUnit,
        },
        (ServicePhase::CreateUnit, Event::FileOutcome(false)) => ServiceSetup {
            phase: ServicePhase::Failed(InstallError::CreateUnitFile),
        },
        (ServicePhase::WriteUnit, Event::FileOutcome(true)) => ServiceSetup {
            phase: ServicePhase::Enable,
        },
        (ServicePhase::WriteUnit, Event::FileOutcome(false)) => ServiceSetup {
            phase: ServicePhase::Failed(InstallError::WriteUnitFile),
        },
        (ServicePhase::Enable, Event::LaunchOutcome(Launch::Started)) => ServiceSetup {
            phase: ServicePhase::Start,
        },
        (ServicePhase::Enable, Event::LaunchOutcome(Launch::Failed)) => ServiceSetup {
            phase: ServicePhase::Failed(InstallError::EnableService),
        },
        (ServicePhase::Start, Event::LaunchOutcome(Launch::Started)) => ServiceSetup {
            phase: ServicePhase::Done,
        },
        (ServicePhase::Start, Event::LaunchOutcome(Launch::Failed)) => ServiceSetup {
            phase: ServicePhase::Failed(InstallError::StartService),
        },
        (_, _) => m,
    }
}

/// What the registration asks the host to do next, if anything.
pub open spec fn spec_service_action(m: ServiceSetup) -> Option<Action> {
    match m.phase {
        ServicePhase::ProbeUnit => Some(Action::ProbeUnitPath),
        ServicePhase::CreateUnit => Some(Action::CreateUnitFile),
        ServicePhase::WriteUnit => Some(Action::WriteUnitText),
        ServicePhase::Enable => Some(Action::LaunchServiceEnable),
        ServicePhase::Start => Some(Action::LaunchServiceStart),
        ServicePhase::Done => None,
        ServicePhase::Failed(_) => None,
    }
}

impl ServiceSetup {
    /// Advances the registration on one reported outcome.
    pub fn step(self, ev: Event) -> (r: ServiceSetup)
        ensures
            r == spec_service_step(self, ev),
    {
        match (self.phase, ev) {
            (ServicePhase::ProbeUnit, Event::PathExists(false)) => ServiceSetup {
                phase: ServicePhase::Failed(InstallError::UnitFileMissing),
            },
            (ServicePhase::ProbeUnit, Event::PathExists(true)) => ServiceSetup {
                phase: ServicePhase::CreateUnit,
            },
            (ServicePhase::CreateUnit, Event::FileOutcome(true)) => ServiceSetup {
                phase: ServicePhase::WriteUnit,
            },
            (ServicePhase::CreateUnit, Event::FileOutcome(false)) => ServiceSetup {
                phase: ServicePhase::Failed(InstallError::CreateUnitFile),
            },
            (ServicePhase::WriteUnit, Event::FileOutcome(true)) => ServiceSetup {
                phase: ServicePhase::Enable,
            },
            (ServicePhase::WriteUnit, Event::FileOutcome(false)) => ServiceSetup {
                phase: ServicePhase::Failed(InstallError::WriteUnitFile),
            },
            (ServicePhase::Enable, Event::LaunchOutcome(Launch::Started)) => ServiceSetup {
                phase: ServicePhase::Start,
            },
            (ServicePhase::Enable, Event::LaunchOutcome(Launch::Failed)) => ServiceSetup {
                phase: ServicePhase::Failed(InstallError::EnableService),
            },
            (ServicePhase::Start, Event::LaunchOutcome(Launch::Started)) => ServiceSetup {
                phase: ServicePhase::Done,
            },
            (ServicePhase::Start, Event::LaunchOutcome(Launch::Failed)) => ServiceSetup {
                phase: ServicePhase::Failed(InstallError::StartService),
            },
            (phase, _) => ServiceSetup { phase },
        }
    }

    /// What the host must do next, if anything.
    pub fn action(&self) -> (r: Option<Action>)
        ensures
            r == spec_service_action(*self),
    {
        match self.phase {
            ServicePhase::ProbeUnit => Some(Action::ProbeUnitPath),
            ServicePhase::CreateUnit => Some(Action::CreateUnitFile),
            ServicePhase::WriteUnit => Some(Action::WriteUnitText),
            ServicePhase::Enable => Some(Action::LaunchServiceEnable),
            ServicePhase::Start => Some(Action::LaunchServiceStart),
            ServicePhase::Done => None,
            ServicePhase::Failed(_) => None,
        }
    }
}

/// Registers the background service. On every platform but the supported
/// one this fails immediately, before any filesystem or process work.
pub fn create_service_os(platform: Platform) -> (r: Result<ServiceSetup, InstallError>)
    ensures
        supported(platform) ==> r == Ok::<ServiceSetup, InstallError>(
            ServiceSetup { phase: ServicePhase::ProbeUnit },
        ),
        !supported(platform) ==> r == Err::<ServiceSetup, InstallError>(InstallError::Unsupported),
{
    if platform.is_supported() {
        Ok(ServiceSetup { phase: ServicePhase::ProbeUnit })
    } else {
        Err(InstallError::Unsupported)
    }
}

} // verus!
