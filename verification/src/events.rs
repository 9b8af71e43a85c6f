//! The interface between the install logic and the host process that
//! carries its requests out. The logic emits an `Action`; the host performs
//! it (spawns a process, touches a file, issues an HTTP GET) and reports
//! what happened as an `Event`.

use vstd::prelude::*;
use crate::deps::Dependency;
use crate::outcome::Launch;

verus! {

/// What the install logic asks the host process to do next.
#[derive(PartialEq, Eq, Debug)]
pub enum Action {
    /// Determine the path of the currently running executable.
    QueryExePath,
    /// Copy the running executable from `from` to the system binary path `to`.
    CopyBinaryFile { from: String, to: String },
    /// Prompt for and read one line: the repository location.
    PromptForUrl,
    /// Launch the clone of `url` into the configured destination.
    LaunchClone { url: String },
    /// Launch `tool_name` of the dependency with a version query.
    LaunchProbe { dependency: Dependency },
    /// Launch the package manager to install `package_name` of the
    /// dependency, non-interactively.
    LaunchPackageInstall { dependency: Dependency },
    /// Launch the configuration of persistent credential storage inside the
    /// cloned repository.
    LaunchCredentialConfig,
    /// Launch the initial fetch inside the cloned repository.
    LaunchRepoFetch,
    /// Issue the HTTP GET for the artifact.
    HttpGet,
    /// Read the full artifact response body into memory.
    ReadBody,
    /// Check whether a file already sits at the artifact path.
    ProbeArtifactPath,
    /// Remove the file at the artifact path.
    RemoveArtifactFile,
    /// Create a fresh, empty file at the artifact path.
    CreateArtifactFile,
    /// Write the retrieved bytes, whole, to the artifact file.
    WriteArtifactBytes,
    /// Flush the artifact file.
    FlushArtifactFile,
    /// Check whether a file sits at the service unit path.
    ProbeUnitPath,
    /// Create the service unit file.
    CreateUnitFile,
    /// Write the service unit directives, verbatim, to the unit file.
    WriteUnitText,
    /// Launch the service manager to enable the service.
    LaunchServiceEnable,
    /// Launch the service manager to start the service.
    LaunchServiceStart,
}

/// What the host process reports back after carrying an action out.
#[derive(PartialEq, Eq, Debug)]
pub enum Event {
    /// The running executable's path, or nothing if it could not be
    /// determined.
    ExePath(Option<String>),
    /// Whether the binary copy succeeded.
    CopyOutcome(bool),
    /// The line read as the repository location, or nothing if reading
    /// failed.
    UrlLine(Option<String>),
    /// Whether a requested external process could be launched. Exit status
    /// is deliberately not reported: once launched, a step counts as done.
    LaunchOutcome(Launch),
    /// Whether the HTTP GET got a response.
    HttpOutcome(bool),
    /// The full response body, or nothing if reading it failed.
    BodyOutcome(Option<Vec<u8>>),
    /// Whether a file sits at the probed path.
    PathExists(bool),
    /// Whether a requested file operation (remove, create, write, flush)
    /// succeeded.
    FileOutcome(bool),
}

} // verus!
