//! The path-joining rules and the in-memory accessors themselves.

use voxels_directories::environment_variables::{EnvInt, EnvError, MockEnvInt};
use voxels_directories::filesystem::{FsError, FsInt, MockFsInt};
use voxels_directories::paths::join_path;

#[test]
fn join_inserts_separator_when_needed() {
    assert_eq!(join_path("/home/u", ".config/"), String::from("/home/u/.config/"));
    assert_eq!(join_path("/base", "voxels"), String::from("/base/voxels"));
}

#[test]
fn join_keeps_existing_separator() {
    assert_eq!(join_path("/home/u/", ".config/"), String::from("/home/u/.config/"));
    assert_eq!(
        join_path("/usr/share/voxels/applications/", "com.example.App"),
        String::from("/usr/share/voxels/applications/com.example.App")
    );
}

#[test]
fn join_lets_an_absolute_suffix_replace_the_base() {
    assert_eq!(join_path("/home/u", "/etc/override"), String::from("/etc/override"));
}

#[test]
fn join_on_empty_base_yields_the_suffix() {
    assert_eq!(join_path("", "voxels"), String::from("voxels"));
}

#[test]
fn environment_accessor_reads_rigged_variables() {
    let mut env = MockEnvInt::new();
    env.expect_and_rig("HOME", String::from("/home/u"));
    assert_eq!(
        env.get_path_from_environment("HOME").unwrap(),
        String::from("/home/u")
    );
    assert_eq!(
        env.get_path_from_environment("MISSING").unwrap_err(),
        EnvError::NotPresent
    );
}

#[test]
fn environment_accessor_newest_rigging_wins() {
    let mut env = MockEnvInt::new();
    env.expect_and_rig("HOME", String::from("/old"));
    env.expect_and_rig("HOME", String::from("/new"));
    assert_eq!(
        env.get_path_from_environment("HOME").unwrap(),
        String::from("/new")
    );
    env.expect_and_rig_to_fail("HOME");
    assert!(env.get_path_from_environment("HOME").is_err());
}

#[test]
fn filesystem_accessor_reads_rigged_probes() {
    let mut fs = MockFsInt::new();
    assert!(!fs.path_exists("/a"));
    fs.expect_and_rig_exists("/a", true);
    fs.expect_and_rig_is_directory("/a", true);
    fs.expect_and_rig_is_absolute("/a", true);
    assert!(fs.path_exists("/a"));
    assert!(fs.is_directory("/a"));
    assert!(fs.is_absolute("/a"));
    assert!(!fs.path_exists("/b"));
}

#[test]
fn filesystem_accessor_reads_rigged_files() {
    let mut fs = MockFsInt::new();
    assert_eq!(fs.read_to_string("/m").unwrap_err(), FsError::NotFound);
    fs.expect_and_rig_file("/m", String::from("description = \"x\""));
    assert_eq!(fs.read_to_string("/m").unwrap(), String::from("description = \"x\""));
}

#[test]
fn directory_creation_is_idempotent_and_can_fail() {
    let mut fs = MockFsInt::new();
    assert!(fs.create_dir_all("/fresh").is_ok());
    assert!(fs.is_directory("/fresh"));
    assert!(fs.create_dir_all("/fresh").is_ok());

    let mut denying = MockFsInt::new_denying_creation();
    assert_eq!(
        denying.create_dir_all("/nope").unwrap_err(),
        FsError::CreationFailed
    );
    assert!(!denying.is_directory("/nope"));
}
