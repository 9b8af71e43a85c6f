//! The provisioning components driven one by one, and the plain helpers.

use synconf_install::config::InstallConfig;
use synconf_install::deps::{install_git_os, install_java_os, DepPhase, Dependency};
use synconf_install::events::{Action, Event};
use synconf_install::fetch::{copy_jar_os, FetchPhase};
use synconf_install::outcome::{InstallError, Launch};
use synconf_install::platform::Platform;
use synconf_install::repo::{RepoPhase, RepoProvision};
use synconf_install::selfcopy::{copy_binary_os, CopyPhase};
use synconf_install::service::{create_service_os, unit_file_text, ServicePhase};
use synconf_install::urltext::normalize_url;

#[test]
fn every_gate_refuses_unsupported_platforms() {
    assert_eq!(copy_binary_os(Platform::Other, "/usr/local/bin/synconf".to_string()),
        Err(InstallError::Unsupported));
    assert_eq!(install_java_os(Platform::Other), Err(InstallError::Unsupported));
    assert_eq!(install_git_os(Platform::Other), Err(InstallError::Unsupported));
    assert_eq!(create_service_os(Platform::Other), Err(InstallError::Unsupported));
    assert_eq!(copy_jar_os(Platform::Other), Err(InstallError::Unsupported));
    assert!(!Platform::Other.is_supported());
    assert!(Platform::Linux.is_supported());
}

#[test]
fn probe_success_never_invokes_the_package_manager() {
    let dep = install_java_os(Platform::Linux).unwrap();
    assert_eq!(dep.action(), Some(Action::LaunchProbe { dependency: Dependency::Runtime }));
    let dep = dep.step(Event::LaunchOutcome(Launch::Started));
    assert!(matches!(dep.phase, DepPhase::Done));
    assert_eq!(dep.action(), None);
    assert_eq!(dep.error(), None);
}

#[test]
fn probe_failure_installs_the_package_once() {
    let dep = install_java_os(Platform::Linux).unwrap();
    let dep = dep.step(Event::LaunchOutcome(Launch::Failed));
    assert_eq!(
        dep.action(),
        Some(Action::LaunchPackageInstall { dependency: Dependency::Runtime })
    );
    let dep = dep.step(Event::LaunchOutcome(Launch::Started));
    assert!(matches!(dep.phase, DepPhase::Done));
    assert_eq!(dep.action(), None);
}

#[test]
fn package_manager_launch_failure_is_a_hard_error() {
    let dep = install_git_os(Platform::Linux).unwrap();
    assert_eq!(
        dep.action(),
        Some(Action::LaunchPackageInstall { dependency: Dependency::VersionControl })
    );
    let dep = dep.step(Event::LaunchOutcome(Launch::Failed));
    assert_eq!(dep.error(), Some(InstallError::InstallPackage(Dependency::VersionControl)));
}

#[test]
fn dependency_names_match_the_commands_used() {
    assert_eq!(Dependency::Runtime.tool_name(), "java");
    assert_eq!(Dependency::Runtime.package_name(), "openjdk-17-jre-headless");
    assert_eq!(Dependency::VersionControl.tool_name(), "git");
    assert_eq!(Dependency::VersionControl.package_name(), "git");
}

#[test]
fn self_copy_skips_when_already_at_the_bin_path() {
    let m = copy_binary_os(Platform::Linux, "/usr/local/bin/synconf".to_string()).unwrap();
    assert_eq!(m.action(), Some(Action::QueryExePath));
    let m = m.step(Event::ExePath(Some("/usr/local/bin/synconf".to_string())));
    assert!(matches!(m.phase, CopyPhase::DoneSkipped));
    // Nothing further is requested: zero filesystem writes.
    assert_eq!(m.action(), None);
}

#[test]
fn self_copy_copies_from_elsewhere() {
    let m = copy_binary_os(Platform::Linux, "/usr/local/bin/synconf".to_string()).unwrap();
    let m = m.step(Event::ExePath(Some("/home/u/synconf".to_string())));
    assert_eq!(
        m.action(),
        Some(Action::CopyBinaryFile {
            from: "/home/u/synconf".to_string(),
            to: "/usr/local/bin/synconf".to_string(),
        })
    );
    let m = m.step(Event::CopyOutcome(true));
    assert!(matches!(m.phase, CopyPhase::DoneCopied));
}

#[test]
fn repo_provisioner_happy_path() {
    let m = RepoProvision::start(Platform::Linux, "https://example.com/c.git\n".to_string());
    assert_eq!(
        m.action(),
        Some(Action::LaunchClone { url: "https://example.com/c.git".to_string() })
    );
    let m = m.step(Event::LaunchOutcome(Launch::Started));
    assert_eq!(m.action(), Some(Action::LaunchCredentialConfig));
    let m = m.step(Event::LaunchOutcome(Launch::Started));
    assert_eq!(m.action(), Some(Action::LaunchRepoFetch));
    let m = m.step(Event::LaunchOutcome(Launch::Started));
    assert!(matches!(m.phase, RepoPhase::Done));
    assert_eq!(m.action(), None);
}

#[test]
fn repo_provisioner_retries_exactly_once() {
    let m = RepoProvision::start(Platform::Linux, "u\n".to_string());
    let m = m.step(Event::LaunchOutcome(Launch::Failed));
    assert!(matches!(m.phase, RepoPhase::InstallTool(_)));
    let m = m.step(Event::LaunchOutcome(Launch::Started));
    assert!(matches!(m.phase, RepoPhase::CloneRetry));
    assert_eq!(m.action(), Some(Action::LaunchClone { url: "u".to_string() }));
    let m = m.step(Event::LaunchOutcome(Launch::Failed));
    // The error names the clone action, not the installation, and nothing
    // further is requested.
    assert!(matches!(m.phase, RepoPhase::Failed(InstallError::Clone)));
    assert_eq!(m.action(), None);
}

#[test]
fn fetch_replaces_an_existing_file() {
    let f = copy_jar_os(Platform::Linux).unwrap();
    assert_eq!(f.action(), Some(Action::HttpGet));
    let f = f.step(Event::HttpOutcome(true));
    assert_eq!(f.action(), Some(Action::ReadBody));
    let f = f.step(Event::BodyOutcome(Some(vec![9, 8, 7])));
    assert_eq!(f.action(), Some(Action::ProbeArtifactPath));
    let f = f.step(Event::PathExists(true));
    // Old content is removed before the fresh file is created and written.
    assert_eq!(f.action(), Some(Action::RemoveArtifactFile));
    let f = f.step(Event::FileOutcome(true));
    assert_eq!(f.action(), Some(Action::CreateArtifactFile));
    let f = f.step(Event::FileOutcome(true));
    assert_eq!(f.action(), Some(Action::WriteArtifactBytes));
    assert_eq!(f.body_bytes(), Some(&vec![9, 8, 7]));
    let f = f.step(Event::FileOutcome(true));
    assert_eq!(f.action(), Some(Action::FlushArtifactFile));
    let f = f.step(Event::FileOutcome(true));
    assert!(matches!(f.phase, FetchPhase::Done));
}

#[test]
fn fetch_to_an_empty_path_skips_the_removal() {
    let f = copy_jar_os(Platform::Linux).unwrap();
    let f = f.step(Event::HttpOutcome(true));
    let f = f.step(Event::BodyOutcome(Some(vec![1])));
    let f = f.step(Event::PathExists(false));
    assert_eq!(f.action(), Some(Action::CreateArtifactFile));
}

#[test]
fn fetch_failures_name_their_step() {
    let f = copy_jar_os(Platform::Linux).unwrap();
    let g = f.step(Event::HttpOutcome(false));
    assert!(matches!(g.phase, FetchPhase::Failed(InstallError::GetContent)));

    let f = copy_jar_os(Platform::Linux).unwrap().step(Event::HttpOutcome(true));
    let g = f.step(Event::BodyOutcome(None));
    assert!(matches!(g.phase, FetchPhase::Failed(InstallError::GetBytes)));

    let base = copy_jar_os(Platform::Linux)
        .unwrap()
        .step(Event::HttpOutcome(true))
        .step(Event::BodyOutcome(Some(vec![1])))
        .step(Event::PathExists(true));
    let g = base.step(Event::FileOutcome(false));
    assert!(matches!(g.phase, FetchPhase::Failed(InstallError::RemoveOldFile)));

    let base = copy_jar_os(Platform::Linux)
        .unwrap()
        .step(Event::HttpOutcome(true))
        .step(Event::BodyOutcome(Some(vec![1])))
        .step(Event::PathExists(false));
    let g = base.step(Event::FileOutcome(false));
    assert!(matches!(g.phase, FetchPhase::Failed(InstallError::CreateFile)));

    let base = copy_jar_os(Platform::Linux)
        .unwrap()
        .step(Event::HttpOutcome(true))
        .step(Event::BodyOutcome(Some(vec![1])))
        .step(Event::PathExists(false))
        .step(Event::FileOutcome(true));
    let g = base.step(Event::FileOutcome(false));
    assert!(matches!(g.phase, FetchPhase::Failed(InstallError::WriteFile)));

    let base = copy_jar_os(Platform::Linux)
        .unwrap()
        .step(Event::HttpOutcome(true))
        .step(Event::BodyOutcome(Some(vec![1])))
        .step(Event::PathExists(false))
        .step(Event::FileOutcome(true))
        .step(Event::FileOutcome(true));
    let g = base.step(Event::FileOutcome(false));
    assert!(matches!(g.phase, FetchPhase::Failed(InstallError::FlushFile)));
}

#[test]
fn service_setup_keeps_the_historical_absence_check() {
    let s = create_service_os(Platform::Linux).unwrap();
    assert_eq!(s.action(), Some(Action::ProbeUnitPath));
    // No file at the unit path: the step fails, as it always has.
    let failed = s.step(Event::PathExists(false));
    assert!(matches!(failed.phase, ServicePhase::Failed(InstallError::UnitFileMissing)));

    let s = create_service_os(Platform::Linux).unwrap();
    let s = s.step(Event::PathExists(true));
    assert_eq!(s.action(), Some(Action::CreateUnitFile));
    let s = s.step(Event::FileOutcome(true));
    assert_eq!(s.action(), Some(Action::WriteUnitText));
    let s = s.step(Event::FileOutcome(true));
    assert_eq!(s.action(), Some(Action::LaunchServiceEnable));
    let s = s.step(Event::LaunchOutcome(Launch::Started));
    assert_eq!(s.action(), Some(Action::LaunchServiceStart));
    let s = s.step(Event::LaunchOutcome(Launch::Started));
    assert!(matches!(s.phase, ServicePhase::Done));
}

#[test]
fn service_setup_failures_name_their_step() {
    let s = create_service_os(Platform::Linux).unwrap().step(Event::PathExists(true));
    let g = s.step(Event::FileOutcome(false));
    assert!(matches!(g.phase, ServicePhase::Failed(InstallError::CreateUnitFile)));

    let s = create_service_os(Platform::Linux)
        .unwrap()
        .step(Event::PathExists(true))
        .step(Event::FileOutcome(true));
    let g = s.step(Event::FileOutcome(false));
    assert!(matches!(g.phase, ServicePhase::Failed(InstallError::WriteUnitFile)));

    let s = create_service_os(Platform::Linux)
        .unwrap()
        .step(Event::PathExists(true))
        .step(Event::FileOutcome(true))
        .step(Event::FileOutcome(true));
    let g = s.step(Event::LaunchOutcome(Launch::Failed));
    assert!(matches!(g.phase, ServicePhase::Failed(InstallError::EnableService)));

    let s = create_service_os(Platform::Linux)
        .unwrap()
        .step(Event::PathExists(true))
        .step(Event::FileOutcome(true))
        .step(Event::FileOutcome(true))
        .step(Event::LaunchOutcome(Launch::Started));
    let g = s.step(Event::LaunchOutcome(Launch::Failed));
    assert!(matches!(g.phase, ServicePhase::Failed(InstallError::StartService)));
}

#[test]
fn unit_file_holds_the_fixed_directives() {
    let text = unit_file_text();
    assert_eq!(
        text,
        "[Unit]\nDescription=Java_app\nAfter=network-online.target\n\n\
         [Service]\nExecStart=synconf start\nExecStop=synconf stop\n\
         WorkingDirectory=/var/synconf\nRestart=always\nUser=root\nGroup=root\n\
         Type=forking\n\n[Install]\nWantedBy=multi-user.target"
    );
}

#[test]
fn normalize_url_strips_only_a_trailing_newline() {
    assert_eq!(normalize_url("https://example.com/r.git\n"), "https://example.com/r.git");
    assert_eq!(normalize_url("https://example.com/r.git"), "https://example.com/r.git");
    assert_eq!(normalize_url(""), "");
    assert_eq!(normalize_url("\n"), "");
    assert_eq!(normalize_url("a\nb"), "a\nb");
    assert_eq!(normalize_url("abc\n\n"), "abc\n");
}

#[test]
fn standard_config_holds_the_fixed_paths() {
    let c = InstallConfig::standard("https://synconf.example/synconf.jar".to_string());
    assert_eq!(c.bin_path, "/usr/local/bin/synconf");
    assert_eq!(c.clone_parent, "/var/");
    assert_eq!(c.clone_dest, "./synconf");
    assert_eq!(c.repo_dir, "/var/synconf");
    assert_eq!(c.artifact_path, "/var/synconf/synconf.jar");
    assert_eq!(c.artifact_url, "https://synconf.example/synconf.jar");
    assert_eq!(c.unit_path, "/etc/systemd/system/synconf.service");
}

#[test]
fn error_messages_describe_the_failed_action() {
    assert_eq!(InstallError::GetBytes.message(), "could not get bytes");
    assert_eq!(InstallError::RemoveOldFile.message(), "could not remove old file");
    assert_eq!(
        InstallError::InstallPackage(Dependency::Runtime).message(),
        "could not install java"
    );
    assert_eq!(InstallError::ReadUrl.message(), "could not read line");
}
