//! Outcomes of the external work the install routine requests, and the
//! errors a provisioning step can fail with.

use vstd::prelude::*;
use crate::deps::Dependency;

verus! {

/// The outcome of asking the host to start an external process. Only the
/// launch is classified: once a process has started, failure to wait on it
/// and a non-zero exit status are deliberately not surfaced.
#[derive(Clone, Copy, PartialEq, Eq, Structural, Debug)]
pub enum Launch {
    /// The process started (its exit status is not inspected).
    Started,
    /// The operating system could not start the process at all.
    Failed,
}

/// Why a provisioning step failed. Each variant names the action that could
/// not be carried out; the underlying operating-system error, if any, stays
/// with the caller that performed the action.
#[derive(Clone, Copy, PartialEq, Eq, Structural, Debug)]
pub enum InstallError {
    /// A platform-gated operation was requested on an unsupported platform.
    Unsupported,
    /// The path of the currently running executable could not be determined.
    ExePath,
    /// The running executable could not be copied to the system binary path.
    CopyBinary,
    /// The repository location could not be read from the input source.
    ReadUrl,
    /// The package manager could not be launched to install the named
    /// dependency's package.
    InstallPackage(Dependency),
    /// The retried clone could not be launched either.
    Clone,
    /// Credential persistence could not be configured in the cloned repository.
    ConfigCredentials,
    /// The initial fetch inside the cloned repository could not be launched.
    FetchRepo,
    /// The artifact could not be retrieved over the network.
    GetContent,
    /// The artifact response body could not be read.
    GetBytes,
    /// The file previously at the artifact path could not be removed.
    RemoveOldFile,
    /// The artifact file could not be created.
    CreateFile,
    /// The artifact bytes could not be written.
    WriteFile,
    /// The artifact file could not be flushed.
    FlushFile,
    /// The service unit file was not at its expected path.
    UnitFileMissing,
    /// The service unit file could not be created.
    CreateUnitFile,
    /// The service unit directives could not be written.
    WriteUnitFile,
    /// The service manager could not be launched to enable the service.
    EnableService,
    /// The service manager could not be launched to start the service.
    StartService,
}

/// The diagnostic printed for each error.
pub open spec fn spec_message(e: InstallError) -> Seq<char> {
    match e {
        InstallError::Unsupported => "non-linux is not supported"@,
        InstallError::ExePath => "could not get current binary file path"@,
        InstallError::CopyBinary => "could not copy binary file"@,
        InstallError::ReadUrl => "could not read line"@,
        InstallError::InstallPackage(Dependency::VersionControl) => "could not install git"@,
        InstallError::InstallPackage(Dependency::Runtime) => "could not install java"@,
        InstallError::Clone => "could not clone"@,
        InstallError::ConfigCredentials => "could not set git config"@,
        InstallError::FetchRepo => "could not fetch"@,
        InstallError::GetContent => "could not get content"@,
        InstallError::GetBytes => "could not get bytes"@,
        InstallError::RemoveOldFile => "could not remove old file"@,
        InstallError::CreateFile => "could not create file"@,
        InstallError::WriteFile => "could not write file"@,
        InstallError::FlushFile => "could not flush file"@,
        InstallError::UnitFileMissing => "unit file does not exist"@,
        InstallError::CreateUnitFile => "could not create unit file"@,
        InstallError::WriteUnitFile => "could not write unit file"@,
        InstallError::EnableService => "could not enable synconf"@,
        InstallError::StartService => "could not start synconf"@,
    }
}

impl InstallError {
    /// A human-readable description of the failed action.
    pub fn message(&self) -> (r: &'static str)
        ensures
            r@ == spec_message(*self),
    {
        match self {
            InstallError::Unsupported => "non-linux is not supported",
            InstallError::ExePath => "could not get current binary file path",
            InstallError::CopyBinary => "could not copy binary file",
            InstallError::ReadUrl => "could not read line",
            InstallError::InstallPackage(Dependency::VersionControl) => "could not install git",
            InstallError::InstallPackage(Dependency::Runtime) => "could not install java",
            InstallError::Clone => "could not clone",
            InstallError::ConfigCredentials => "could not set git config",
            InstallError::FetchRepo => "could not fetch",
            InstallError::GetContent => "could not get content",
            InstallError::GetBytes => "could not get bytes",
            InstallError::RemoveOldFile => "could not remove old file",
            InstallError::CreateFile => "could not create file",
            InstallError::WriteFile => "could not write file",
            InstallError::FlushFile => "could not flush file",
            InstallError::UnitFileMissing => "unit file does not exist",
            InstallError::CreateUnitFile => "could not create unit file",
            InstallError::WriteUnitFile => "could not write unit file",
            InstallError::EnableService => "could not enable synconf",
            InstallError::StartService => "could not start synconf",
        }
    }
}

} // verus!
