use apex_log_viewer::sfdx_project::{
    find_project_root, is_valid_api_version, read_source_api_version, ProjectError,
};

use std::io::Write;
use std::path::{Path, PathBuf};

/// The nearest directory from `start` upwards that holds a descriptor.
fn project_root(start: &Path) -> Option<PathBuf> {
    let ancestors: Vec<&Path> = start.ancestors().collect();
    let found = find_project_root(ancestors.len(), |i| {
        ancestors[i].join("sfdx-project.json").is_file()
    })?;
    Some(ancestors[found].to_path_buf())
}

fn make_dir(parent: &Path, name: &str) -> PathBuf {
    tempfile::Builder::new()
        .prefix(name)
        .rand_bytes(0)
        .tempdir_in(parent)
        .expect("create directory")
        .keep()
}

fn make_descriptor(dir: &Path) {
    let mut file = tempfile::Builder::new()
        .prefix("sfdx-project.json")
        .rand_bytes(0)
        .tempfile_in(dir)
        .expect("create sfdx-project.json");
    file.write_all(br#"{ "sourceApiVersion": "64.0" }"#).expect("write sfdx-project.json");
    file.keep().expect("keep sfdx-project.json");
}

#[test]
fn find_project_root_returns_none_when_missing() {
    let dir = tempfile::tempdir().expect("tempdir");
    assert!(project_root(dir.path()).is_none());
}

#[test]
fn sfdx_project_find_project_root_returns_none_when_missing() {
    let dir = tempfile::tempdir().expect("tempdir");
    assert!(project_root(dir.path()).is_none());
}

#[test]
fn find_project_root_finds_nearest_parent() {
    let dir = tempfile::tempdir().expect("tempdir");
    let root = make_dir(dir.path(), "root");
    make_descriptor(&root);

    let nested = make_dir(&make_dir(&make_dir(&root, "a"), "b"), "c");

    let found = project_root(&nested).expect("expected project root");
    assert_eq!(found, root);
}

#[test]
fn sfdx_project_find_project_root_finds_nearest_parent() {
    let dir = tempfile::tempdir().expect("tempdir");
    let root = make_dir(dir.path(), "root");
    make_descriptor(&root);

    let nested = make_dir(&make_dir(&make_dir(&root, "a"), "b"), "c");

    let found = project_root(&nested).expect("expected project root");
    assert_eq!(found, root);
}

// Below, the directories are numbered from the start directory upwards, and
// a list of truth values says which of them hold a descriptor.

#[test]
fn find_project_root_finds_nothing_among_empty_directories() {
    let holds = [false, false, false];
    assert!(find_project_root(holds.len(), |i| holds[i]).is_none());
    assert!(find_project_root(0, |_| true).is_none());
}

#[test]
fn find_project_root_stops_at_the_nearest() {
    let holds = [false, true, false, true];
    let mut asked: Vec<usize> = Vec::new();
    let found = find_project_root(holds.len(), |i| {
        asked.push(i);
        holds[i]
    })
    .expect("expected project root");
    assert_eq!(found, 1);
    assert_eq!(asked, vec![0, 1]);
}

#[test]
fn find_project_root_takes_the_start_directory() {
    assert_eq!(find_project_root(2, |_| true), Some(0));
}

#[test]
fn read_source_api_version_reads_value() {
    let version =
        read_source_api_version(Some(r#"{ "sourceApiVersion": "63.0" }"#)).expect("read api version");
    assert_eq!(version, "63.0");
}

#[test]
fn read_source_api_version_reports_each_failure() {
    assert_eq!(read_source_api_version(None), Err(ProjectError::MissingProject));
    assert_eq!(read_source_api_version(Some("{")), Err(ProjectError::InvalidJson));
    assert_eq!(read_source_api_version(Some("{}")), Err(ProjectError::MissingApiVersion));
    assert_eq!(
        read_source_api_version(Some(r#"{"sourceApiVersion": 63.0}"#)),
        Err(ProjectError::MissingApiVersion)
    );
    assert_eq!(read_source_api_version(Some("[]")), Err(ProjectError::MissingApiVersion));
    assert_eq!(
        read_source_api_version(Some(r#"{"sourceApiVersion": "v63"}"#)),
        Err(ProjectError::MissingApiVersion)
    );
    assert_eq!(
        read_source_api_version(Some(r#"{"sourceApiVersion": "64"}"#)),
        Err(ProjectError::MissingApiVersion)
    );
}

#[test]
fn api_version_shape() {
    assert!(is_valid_api_version("64.0"));
    assert!(is_valid_api_version("1.23"));
    assert!(is_valid_api_version("0.0"));
    assert!(!is_valid_api_version(""));
    assert!(!is_valid_api_version("."));
    assert!(!is_valid_api_version("64"));
    assert!(!is_valid_api_version("64."));
    assert!(!is_valid_api_version(".0"));
    assert!(!is_valid_api_version("64.0.1"));
    assert!(!is_valid_api_version("64..0"));
    assert!(!is_valid_api_version("6a.0"));
    assert!(!is_valid_api_version("64.0 "));
    assert!(!is_valid_api_version("-1.0"));
    assert!(!is_valid_api_version("６４.0"));
}

#[test]
fn project_error_messages() {
    assert_eq!(ProjectError::MissingProject.message(), "sfdx-project.json not found");
    assert_eq!(ProjectError::InvalidJson.message(), "invalid sfdx-project.json");
    assert_eq!(ProjectError::MissingApiVersion.message(), "missing sourceApiVersion");
}
