//! The self-copy step: the running executable is placed at the system
//! binary path. When the executable already runs from that very path the
//! copy is skipped and the step succeeds without touching the filesystem.

use vstd::prelude::*;
use crate::events::{Action, Event};
use crate::outcome::InstallError;
use crate::platform::{supported, Platform};

verus! {

/// Where the self-copy stands.
#[derive(PartialEq, Eq, Debug)]
pub enum CopyPhase {
    /// Waiting for the running executable's path.
    QueryPath,
    /// Waiting for the outcome of copying from the held source path.
    Copying(String),
    /// The executable already sat at the system binary path; nothing was
    /// copied.
    DoneSkipped,
    /// The executable was copied to the system binary path.
    DoneCopied,
    /// The step failed.
    Failed(InstallError),
}

/// The state of the self-copy step.
#[derive(PartialEq, Eq, Debug)]
pub struct SelfCopy {
    /// The system binary path the executable is copied to.
    pub to_path: String,
    /// Where the step stands.
    pub phase: CopyPhase,
}

/// The transition the step makes on one reported outcome. A source path
/// equal to the destination means the executable is already installed: the
/// step finishes at once, with no copy requested.
pub open spec fn spec_copy_step(m: SelfCopy, ev: Event) -> SelfCopy {
    match (m.phase, ev) {
        (CopyPhase::QueryPath, Event::ExePath(None)) => SelfCopy {
            phase: CopyPhase::Failed(InstallError::ExePath),
            ..m
        },
        (CopyPhase::QueryPath, Event::ExePath(Some(p))) => {
            if p@ == m.to_path@ {
                SelfCopy { phase: CopyPhase::DoneSkipped, ..m }
            } else {
                SelfCopy { phase: CopyPhase::Copying(p), ..m }
            }
        },
        (CopyPhase::Copying(_), Event::CopyOutcome(true)) => SelfCopy {
            phase: CopyPhase::DoneCopied,
            ..m
        },
        (CopyPhase::Copying(_), Event::CopyOutcome(false)) => SelfCopy {
            phase: CopyPhase::Failed(InstallError::CopyBinary),
            ..m
        },
        (_, _) => m,
    }
}

/// What the step asks the host to do next, if anything.
pub open spec fn spec_copy_action(m: SelfCopy) -> Option<Action> {
    match m.phase {
        CopyPhase::QueryPath => Some(Action::QueryExePath),
        CopyPhase::Copying(from) => Some(Action::CopyBinaryFile { from, to: m.to_path }),
        _ => None,
    }
}

/// Whether the step has finished successfully.
pub open spec fn spec_copy_done(m: SelfCopy) -> bool {
    m.phase is DoneSkipped || m.phase is DoneCopied
}

impl SelfCopy {
    /// Advances the step on one reported outcome.
    pub fn step(self, ev: Event) -> (r: SelfCopy)
        ensures
            r == spec_copy_step(self, ev),
    {
        match (self.phase, ev) {
            (CopyPhase::QueryPath, Event::ExePath(None)) => SelfCopy {
                phase: CopyPhase::Failed(InstallError::ExePath),
                to_path: self.to_path,
            },
            (CopyPhase::QueryPath, Event::ExePath(Some(p))) => {
                if p == self.to_path {
                    SelfCopy { phase: CopyPhase::DoneSkipped, to_path: self.to_path }
                } else {
                    SelfCopy { phase: CopyPhase::Copying(p), to_path: self.to_path }
                }
            },
            (CopyPhase::Copying(_), Event::CopyOutcome(true)) => SelfCopy {
                phase: CopyPhase::DoneCopied,
                to_path: self.to_path,
            },
            (CopyPhase::Copying(_), Event::CopyOutcome(false)) => SelfCopy {
                phase: CopyPhase::Failed(InstallError::CopyBinary),
                to_path: self.to_path,
            },
            (phase, _) => SelfCopy { phase, to_path: self.to_path },
        }
    }

    /// What the host must do next, if anything.
    pub fn action(&self) -> (r: Option<Action>)
        ensures
            r == spec_copy_action(*self),
    {
        match &self.phase {
            CopyPhase::QueryPath => Some(Action::QueryExePath),
            CopyPhase::Copying(from) => Some(Action::CopyBinaryFile {
                from: from.clone(),
                to: self.to_path.clone(),
            }),
            _ => None,
        }
    }
}

/// Places the running executable at the system binary path `bin_path`. On
/// every platform but the supported one this fails immediately, before the
/// executable's own path is even looked up.
pub fn copy_binary_os(platform: Platform, bin_path: String) -> (r: Result<SelfCopy, InstallError>)
    ensures
        supported(platform) ==> r == Ok::<SelfCopy, InstallError>(
            SelfCopy { to_path: bin_path, phase: CopyPhase::QueryPath },
        ),
        !supported(platform) ==> r == Err::<SelfCopy, InstallError>(InstallError::Unsupported),
{
    if platform.is_supported() {
        Ok(SelfCopy { to_path: bin_path, phase: CopyPhase::QueryPath })
    } else {
        Err(InstallError::Unsupported)
    }
}

/// When the running executable's path equals the system binary path, the
/// copy is skipped: the step finishes successfully at once and never
/// requests a filesystem write.
pub proof fn lemma_same_path_skips_copy(m: SelfCopy, p: String)
    requires
        m.phase is QueryPath,
        p@ == m.to_path@,
    ensures
        spec_copy_step(m, Event::ExePath(Some(p))).phase is DoneSkipped,
        spec_copy_action(spec_copy_step(m, Event::ExePath(Some(p)))) is None,
{
}

} // verus!
