//! The fixed filesystem locations and the artifact source used by an
//! install run. They are constants of the deployment, but are carried as a
//! value so the same logic can be driven against other locations.

use vstd::prelude::*;

verus! {

/// Where the install run reads from and writes to.
#[derive(PartialEq, Eq, Debug)]
pub struct InstallConfig {
    /// The system path the running executable is copied to.
    pub bin_path: String,
    /// The directory the clone command runs in.
    pub clone_parent: String,
    /// The destination argument handed to the clone command.
    pub clone_dest: String,
    /// The directory holding the cloned repository.
    pub repo_dir: String,
    /// Where the downloaded artifact is stored.
    pub artifact_path: String,
    /// The location the artifact is retrieved from.
    pub artifact_url: String,
    /// The path of the service unit file.
    pub unit_path: String,
}

impl InstallConfig {
    /// The deployment's fixed locations, with the artifact retrieved from
    /// `artifact_url`.
    pub fn standard(artifact_url: String) -> (c: InstallConfig)
        ensures
            c.bin_path@ == "/usr/local/bin/synconf"@,
            c.clone_parent@ == "/var/"@,
            c.clone_dest@ == "./synconf"@,
            c.repo_dir@ == "/var/synconf"@,
            c.artifact_path@ == "/var/synconf/synconf.jar"@,
            c.artifact_url == artifact_url,
            c.unit_path@ == "/etc/systemd/system/synconf.service"@,
    {
        InstallConfig {
            bin_path: String::from_str("/usr/local/bin/synconf"),
            clone_parent: String::from_str("/var/"),
            clone_dest: String::from_str("./synconf"),
            repo_dir: String::from_str("/var/synconf"),
            artifact_path: String::from_str("/var/synconf/synconf.jar"),
            artifact_url,
            unit_path: String::from_str("/etc/systemd/system/synconf.service"),
        }
    }
}

} // verus!
