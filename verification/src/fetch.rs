//! The artifact fetcher: retrieves the application artifact over the
//! network and stores it at the target path, replacing any file already
//! there. The whole body is buffered before any byte is written; any
//! failure while removing, creating, writing or flushing is a hard error.

use vstd::prelude::*;
use crate::events::{Action, Event};
use crate::outcome::InstallError;
use crate::platform::{supported, Platform};

verus! {

/// Where the fetch stands.
#[derive(PartialEq, Eq, Debug)]
pub enum FetchPhase {
    /// Waiting for the outcome of the HTTP GET.
    Get,
    /// Waiting for the full response body.
    ReadBody,
    /// Waiting to hear whether a file already sits at the target path.
    ProbeTarget,
    /// Waiting for the outcome of removing the old file.
    Remove,
    /// Waiting for the outcome of creating the fresh file.
    Create,
    /// Waiting for the outcome of writing the body, whole.
    Write,
    /// Waiting for the outcome of flushing the file.
    Flush,
    /// The artifact sits at the target path.
    Done,
    /// The fetch failed.
    Failed(InstallError),
}

/// The state of one artifact fetch.
#[derive(PartialEq, Eq, Debug)]
pub struct ArtifactFetch {
    /// The retrieved body, once it has been read.
    pub body: Option<Vec<u8>>,
    /// Where the fetch stands.
    pub phase: FetchPhase,
}

/// The transition the fetcher makes on one reported outcome.
pub open spec fn spec_fetch_step(m: ArtifactFetch, ev: Event) -> ArtifactFetch {
    match (m.phase, ev) {
        (FetchPhase::Get, Event::HttpOutcome(true)) => ArtifactFetch {
            phase: FetchPhase::ReadBody,
            ..m
        },
        (FetchPhase::Get, Event::HttpOutcome(false)) => ArtifactFetch {
            phase: FetchPhase::Failed(InstallError::GetContent),
            ..m
        },
        (FetchPhase::ReadBody, Event::BodyOutcome(Some(b))) => ArtifactFetch {
            body: Some(b),
            phase: FetchPhase::ProbeTarget,
        },
        (FetchPhase::ReadBody, Event::BodyOutcome(None)) => ArtifactFetch {
            phase: FetchPhase::Failed(InstallError::GetBytes),
            ..m
        },
        (FetchPhase::ProbeTarget, Event::PathExists(true)) => ArtifactFetch {
            phase: FetchPhase::Remove,
            ..m
        },
        (FetchPhase::ProbeTarget, Event::PathExists(false)) => ArtifactFetch {
            phase: FetchPhase::Create,
            ..m
        },
        (FetchPhase::Remove, Event::FileOutcome(true)) => ArtifactFetch {
            phase: FetchPhase::Create,
            ..m
        },
        (FetchPhase::Remove, Event::FileOutcome(false)) => ArtifactFetch {
            phase: FetchPhase::Failed(InstallError::RemoveOldFile),
            ..m
        },
        (FetchPhase::Create, Event::FileOutcome(true)) => ArtifactFetch {
            phase: FetchPhase::Write,
            ..m
        },
        (FetchPhase::Create, Event::FileOutcome(false)) => ArtifactFetch {
            phase: FetchPhase::Failed(InstallError::CreateFile),
            ..m
        },
        (FetchPhase::Write, Event::FileOutcome(true)) => ArtifactFetch {
            phase: FetchPhase::Flush,
            ..m
        },
        (FetchPhase::Write, Event::FileOutcome(false)) => ArtifactFetch {
            phase: FetchPhase::Failed(InstallError::WriteFile),
            ..m
        },
        (FetchPhase::Flush, Event::FileOutcome(true)) => ArtifactFetch {
            phase: FetchPhase::Done,
            ..m
        },
        (FetchPhase::Flush, Event::FileOutcome(false)) => ArtifactFetch {
            phase: FetchPhase::Failed(InstallError::FlushFile),
            ..m
        },
        (_, _) => m,
    }
}

/// What the fetcher asks the host to do next, if anything.
pub open spec fn spec_fetch_action(m: ArtifactFetch) -> Option<Action> {
    match m.phase {
        FetchPhase::Get => Some(Action::HttpGet),
        FetchPhase::ReadBody => Some(Action::ReadBody),
        FetchPhase::ProbeTarget => Some(Action::ProbeArtifactPath),
        FetchPhase::Remove => Some(Action::RemoveArtifactFile),
        FetchPhase::Create => Some(Action::CreateArtifactFile),
        FetchPhase::Write => Some(Action::WriteArtifactBytes),
        FetchPhase::Flush => Some(Action::FlushArtifactFile),
        FetchPhase::Done => None,
        FetchPhase::Failed(_) => None,
    }
}

/// The content at the target path after the file operation requested in
/// `phase` succeeds, given the content `file` before it (`None`: no file)
/// and the retrieved body `body`. A successful removal leaves no file, a
/// successful creation an empty one, a successful write exactly the body;
/// flushing and the phases that touch no file leave the content as it was.
pub open spec fn spec_store_effect(
    phase: FetchPhase,
    body: Seq<u8>,
    file: Option<Seq<u8>>,
) -> Option<Seq<u8>> {
    match phase {
        FetchPhase::Remove => None,
        FetchPhase::Create => Some(Seq::<u8>::empty()),
        FetchPhase::Write => Some(body),
        _ => file,
    }
}

impl ArtifactFetch {
    /// Advances the fetcher on one reported outcome.
    pub fn step(self, ev: Event) -> (r: ArtifactFetch)
        ensures
            r == spec_fetch_step(self, ev),
    {
        match (self.phase, ev) {
            (FetchPhase::Get, Event::HttpOutcome(true)) => ArtifactFetch {
                phase: FetchPhase::ReadBody,
                body: self.body,
            },
            (FetchPhase::Get, Event::HttpOutcome(false)) => ArtifactFetch {
                phase: FetchPhase::Failed(InstallError::GetContent),
                body: self.body,
            },
            (FetchPhase::ReadBody, Event::BodyOutcome(Some(b))) => ArtifactFetch {
                body: Some(b),
                phase: FetchPhase::ProbeTarget,
            },
            (FetchPhase::ReadBody, Event::BodyOutcome(None)) => ArtifactFetch {
                phase: FetchPhase::Failed(InstallError::GetBytes),
                body: self.body,
            },
            (FetchPhase::ProbeTarget, Event::PathExists(true)) => ArtifactFetch {
                phase: FetchPhase::Remove,
                body: self.body,
            },
            (FetchPhase::ProbeTarget, Event::PathExists(false)) => ArtifactFetch {
                phase: FetchPhase::Create,
                body: self.body,
            },
            (FetchPhase::Remove, Event::FileOutcome(true)) => ArtifactFetch {
                phase: FetchPhase::Create,
                body: self.body,
            },
            (FetchPhase::Remove, Event::FileOutcome(false)) => ArtifactFetch {
                phase: FetchPhase::Failed(InstallError::RemoveOldFile),
                body: self.body,
            },
            (FetchPhase::Create, Event::FileOutcome(true)) => ArtifactFetch {
                phase: FetchPhase::Write,
                body: self.body,
            },
            (FetchPhase::Create, Event::FileOutcome(false)) => ArtifactFetch {
                phase: FetchPhase::Failed(InstallError::CreateFile),
                body: self.body,
            },
            (FetchPhase::Write, Event::FileOutcome(true)) => ArtifactFetch {
                phase: FetchPhase::Flush,
                body: self.body,
            },
            (FetchPhase::Write, Event::FileOutcome(false)) => ArtifactFetch {
                phase: FetchPhase::Failed(InstallError::WriteFile),
                body: self.body,
            },
            (FetchPhase::Flush, Event::FileOutcome(true)) => ArtifactFetch {
                phase: FetchPhase::Done,
                body: self.body,
            },
            (FetchPhase::Flush, Event::FileOutcome(false)) => ArtifactFetch {
                phase: FetchPhase::Failed(InstallError::FlushFile),
                body: self.body,
            },
            (phase, _) => ArtifactFetch { phase, body: self.body },
        }
    }

    /// What the host must do next, if anything.
    pub fn action(&self) -> (r: Option<Action>)
        ensures
            r == spec_fetch_action(*self),
    {
        match self.phase {
            FetchPhase::Get => Some(Action::HttpGet),
            FetchPhase::ReadBody => Some(Action::ReadBody),
            FetchPhase::ProbeTarget => Some(Action::ProbeArtifactPath),
            FetchPhase::Remove => Some(Action::RemoveArtifactFile),
            FetchPhase::Create => Some(Action::CreateArtifactFile),
            FetchPhase::Write => Some(Action::WriteArtifactBytes),
            FetchPhase::Flush => Some(Action::FlushArtifactFile),
            FetchPhase::Done => None,
            FetchPhase::Failed(_) => None,
        }
    }

    /// The retrieved body the host must write, once it has been read.
    pub fn body_bytes(&self) -> (r: Option<&Vec<u8>>)
        ensures
            match r {
                Some(b) => self.body matches Some(own) && b@ == own@,
                None => self.body is None,
            },
    {
        match &self.body {
            Some(b) => Some(b),
            None => None,
        }
    }
}

/// Retrieves the artifact and stores it at the configured target path. On
/// every platform but the supported one this fails immediately, before any
/// network or filesystem work.
pub fn copy_jar_os(platform: Platform) -> (r: Result<ArtifactFetch, InstallError>)
    ensures
        supported(platform) ==> r == Ok::<ArtifactFetch, InstallError>(
            ArtifactFetch { body: None, phase: FetchPhase::Get },
        ),
        !supported(platform) ==> r == Err::<ArtifactFetch, InstallError>(InstallError::Unsupported),
{
    if platform.is_supported() {
        Ok(ArtifactFetch { body: None, phase: FetchPhase::Get })
    } else {
        Err(InstallError::Unsupported)
    }
}

/// A successful fetch replaces, never appends: from the moment the target
/// path is probed, running the store phase to completion over any previous
/// content — removing the old file when one is there, creating a fresh one,
/// writing the body, flushing — leaves at the target path exactly the
/// retrieved bytes.
pub proof fn lemma_fetch_replaces_file(m: ArtifactFetch, retrieved: Vec<u8>, old_file: Option<Seq<u8>>)
    requires
        m.phase is ProbeTarget,
        m.body == Some(retrieved),
    ensures
        ({
            let body = retrieved@;
            let s1 = spec_fetch_step(m, Event::PathExists(old_file is Some));
            let f1 = spec_store_effect(s1.phase, body, old_file);
            let s2 = spec_fetch_step(s1, Event::FileOutcome(true));
            let f2 = spec_store_effect(s2.phase, body, f1);
            let s3 = spec_fetch_step(s2, Event::FileOutcome(true));
            let f3 = spec_store_effect(s3.phase, body, f2);
            let s4 = spec_fetch_step(s3, Event::FileOutcome(true));
            let f4 = spec_store_effect(s4.phase, body, f3);
            if old_file is Some {
                let s5 = spec_fetch_step(s4, Event::FileOutcome(true));
                s5.phase is Done && f4 == Some::<Seq<u8>>(body)
            } else {
                s4.phase is Done && f3 == Some::<Seq<u8>>(body)
            }
        }),
{
}

} // verus!
