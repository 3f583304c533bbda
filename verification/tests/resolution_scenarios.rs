//! Scenarios for the prioritized resolution chain of the base resolvers.

use voxels_directories::base::config;
use voxels_directories::base::config::ConfigDirectoryResolver;
use voxels_directories::base::data;
use voxels_directories::base::data::DataDirectoryResolver;
use voxels_directories::base::runtime;
use voxels_directories::base::runtime::RuntimeDirectoryResolver;
use voxels_directories::base::state;
use voxels_directories::base::state::StateDirectoryResolver;
use voxels_directories::base::BaseDirectoryError;
use voxels_directories::environment_variables::MockEnvInt;
use voxels_directories::filesystem::MockFsInt;

fn rig_local_directory(fs: &mut MockFsInt, path: &str) {
    fs.expect_and_rig_exists(path, true);
    fs.expect_and_rig_is_directory(path, true);
}

fn rig_absolute_directory(fs: &mut MockFsInt, path: &str) {
    fs.expect_and_rig_exists(path, true);
    fs.expect_and_rig_is_directory(path, true);
    fs.expect_and_rig_is_absolute(path, true);
}

/// Standard-convention and application-override variables unset, `HOME` set
/// and `/home/u/.config/` a directory: the hierarchy fallback wins.
#[test]
fn config_falls_back_to_hierarchy() {
    let mut env = MockEnvInt::new();
    env.expect_and_rig("HOME", String::from("/home/u"));
    let mut fs = MockFsInt::new();
    rig_local_directory(&mut fs, "/home/u/.config/");

    let dir = config::ConfigDirectory::new(env, config::DefaultConfigVerifier::new(fs));
    let (path, method) = dir.resolve().unwrap();
    assert_eq!(path, String::from("/home/u/.config/"));
    assert_eq!(method, config::ConfigDirectoryResolutionMethods::FromFHS);
}

/// The standard-convention variable set and verified wins over a hierarchy
/// fallback that would also verify, because it is prioritized higher by
/// default.
#[test]
fn standard_convention_wins_over_hierarchy() {
    let mut env = MockEnvInt::new();
    env.expect_and_rig("XDG_DATA_HOME", String::from("/custom/data"));
    env.expect_and_rig("HOME", String::from("/home/u"));
    let mut fs = MockFsInt::new();
    rig_absolute_directory(&mut fs, "/custom/data");
    rig_absolute_directory(&mut fs, "/home/u/.local/share/");

    let dir = data::DataDirectory::new(env, data::DefaultDataVerifier::new(fs));
    let (path, method) = dir.resolve().unwrap();
    assert_eq!(path, String::from("/custom/data"));
    assert_eq!(method, data::DataDirectoryResolutionMethods::FromXDG);
}

/// A strategy that fails verification earlier in the order does not affect
/// which later strategy is tried: the override variable is set but its path
/// is no directory, so the standard convention wins.
#[test]
fn failing_override_falls_through_to_next_strategy() {
    let mut env = MockEnvInt::new();
    env.expect_and_rig("VOXELS_CONFIG_HOME", String::from("/broken"));
    env.expect_and_rig("XDG_CONFIG_HOME", String::from("/good"));
    let mut fs = MockFsInt::new();
    fs.expect_and_rig_exists("/broken", true);
    fs.expect_and_rig_is_directory("/broken", false);
    rig_local_directory(&mut fs, "/good");

    let dir = config::ConfigDirectory::new(env, config::DefaultConfigVerifier::new(fs));
    let (path, method) = dir.resolve().unwrap();
    assert_eq!(path, String::from("/good"));
    assert_eq!(method, config::ConfigDirectoryResolutionMethods::FromXDG);
}

/// The priority order governs which verified candidate wins: with the
/// hierarchy fallback ordered first it beats a verified override.
#[test]
fn priority_order_governs_resolution() {
    let mut env = MockEnvInt::new();
    env.expect_and_rig("VOXELS_CONFIG_HOME", String::from("/override"));
    env.expect_and_rig("HOME", String::from("/home/u"));
    let mut fs = MockFsInt::new();
    rig_local_directory(&mut fs, "/override");
    rig_local_directory(&mut fs, "/home/u/.config/");

    let mut dir = config::ConfigDirectory::new(env, config::DefaultConfigVerifier::new(fs));
    dir.priority.set_all([
        config::ConfigDirectoryResolutionMethods::FromFHS,
        config::ConfigDirectoryResolutionMethods::FromXDG,
        config::ConfigDirectoryResolutionMethods::FromVoxels,
    ]);
    let (path, method) = dir.resolve().unwrap();
    assert_eq!(path, String::from("/home/u/.config/"));
    assert_eq!(method, config::ConfigDirectoryResolutionMethods::FromFHS);
}

/// When no strategy in the priority list succeeds, resolution fails with
/// `NoCandidate`.
#[test]
fn exhausted_priority_list_yields_no_candidate() {
    let env = MockEnvInt::new();
    let fs = MockFsInt::new();

    let dir = config::ConfigDirectory::new(env, config::DefaultConfigVerifier::new(fs));
    assert_eq!(dir.resolve().unwrap_err(), BaseDirectoryError::NoCandidate);
}

/// The data, state and runtime categories require an absolute path; a
/// relative candidate fails verification.
#[test]
fn data_category_rejects_relative_paths() {
    let mut env = MockEnvInt::new();
    env.expect_and_rig("XDG_DATA_HOME", String::from("relative/data"));
    let mut fs = MockFsInt::new();
    fs.expect_and_rig_exists("relative/data", true);
    fs.expect_and_rig_is_directory("relative/data", true);
    fs.expect_and_rig_is_absolute("relative/data", false);

    let dir = data::DataDirectory::new(env, data::DefaultDataVerifier::new(fs));
    assert_eq!(dir.resolve().unwrap_err(), BaseDirectoryError::NoCandidate);
}

/// The state category resolves through its own variables and fallback
/// suffix.
#[test]
fn state_resolves_through_hierarchy_fallback() {
    let mut env = MockEnvInt::new();
    env.expect_and_rig("HOME", String::from("/home/u"));
    let mut fs = MockFsInt::new();
    rig_absolute_directory(&mut fs, "/home/u/.local/state/");

    let dir = state::StateDirectory::new(env, state::DefaultStateVerifier::new(fs));
    let (path, method) = dir.resolve().unwrap();
    assert_eq!(path, String::from("/home/u/.local/state/"));
    assert_eq!(method, state::StateDirectoryResolutionMethods::FromFHS);
}

/// The runtime category has no hierarchy fallback: with both variables unset
/// it fails, and with the standard variable set it resolves.
#[test]
fn runtime_has_no_hierarchy_fallback() {
    let mut env = MockEnvInt::new();
    env.expect_and_rig("HOME", String::from("/home/u"));
    let fs = MockFsInt::new();
    let dir = runtime::RuntimeDirectory::new(env, runtime::DefaultRuntimeVerifier::new(fs));
    assert_eq!(dir.resolve().unwrap_err(), BaseDirectoryError::NoCandidate);

    let mut env = MockEnvInt::new();
    env.expect_and_rig("XDG_RUNTIME_DIR", String::from("/run/user/1000"));
    let mut fs = MockFsInt::new();
    rig_absolute_directory(&mut fs, "/run/user/1000");
    let dir = runtime::RuntimeDirectory::new(env, runtime::DefaultRuntimeVerifier::new(fs));
    let (path, method) = dir.resolve().unwrap();
    assert_eq!(path, String::from("/run/user/1000"));
    assert_eq!(method, runtime::RuntimeDirectoryResolutionMethods::FromXDG);
}

/// An unset variable is indistinguishable from a failing verification at the
/// resolver's surface: both fall through to the next strategy.
#[test]
fn explicitly_unset_variable_falls_through() {
    let mut env = MockEnvInt::new();
    env.expect_and_rig("VOXELS_STATE_HOME", String::from("/gone"));
    env.expect_and_rig_to_fail("VOXELS_STATE_HOME");
    env.expect_and_rig("XDG_STATE_HOME", String::from("/var/state"));
    let mut fs = MockFsInt::new();
    rig_absolute_directory(&mut fs, "/gone");
    rig_absolute_directory(&mut fs, "/var/state");

    let dir = state::StateDirectory::new(env, state::DefaultStateVerifier::new(fs));
    let (path, method) = dir.resolve().unwrap();
    assert_eq!(path, String::from("/var/state"));
    assert_eq!(method, state::StateDirectoryResolutionMethods::FromXDG);
}

/// Priority tables hand out copies: mutating a copy does not change the
/// resolver's live table.
#[test]
fn priority_get_returns_a_copy() {
    let env = MockEnvInt::new();
    let fs = MockFsInt::new();
    let dir = config::ConfigDirectory::new(env, config::DefaultConfigVerifier::new(fs));
    let mut copy = dir.priority.get();
    copy[0] = config::ConfigDirectoryResolutionMethods::FromFHS;
    assert_eq!(
        dir.priority.get()[0],
        config::ConfigDirectoryResolutionMethods::FromVoxels
    );
}
