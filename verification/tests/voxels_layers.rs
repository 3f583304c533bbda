//! The application-level and per-application resolvers: memoization, the
//! remote override, and resolve-and-create.

use voxels_directories::application::{Application, ApplicationErrors, ApplicationRDN};
use voxels_directories::base::config as base_config;
use voxels_directories::base::data as base_data;
use voxels_directories::environment_variables::MockEnvInt;
use voxels_directories::filesystem::{FsInt, MockFsInt};
use voxels_directories::voxels::applications::{
    identity_from_manifest_location, manifest_path, ApplicationsDirectory,
    ApplicationsDirectoryResolver,
};
use voxels_directories::voxels::config as app_config;
use voxels_directories::voxels::config::ConfigDirectoryResolver as AppConfigResolver;
use voxels_directories::voxels::VoxelsDirectoryError;
use voxels_directories::voxels_xdg::config as mid_config;
use voxels_directories::voxels_xdg::config::ConfigDirectoryResolver as MidConfigResolver;
use voxels_directories::voxels_xdg::data as mid_data;
use voxels_directories::voxels_xdg::data::DataDirectoryResolver as MidDataResolver;

type BaseConfig =
    base_config::ConfigDirectory<MockEnvInt, base_config::DefaultConfigVerifier<MockFsInt>>;
type BaseData = base_data::DataDirectory<MockEnvInt, base_data::DefaultDataVerifier<MockFsInt>>;

fn base_config_with(var: &str, path: &str) -> BaseConfig {
    let mut env = MockEnvInt::new();
    env.expect_and_rig(var, String::from(path));
    let mut fs = MockFsInt::new();
    fs.expect_and_rig_exists(path, true);
    fs.expect_and_rig_is_directory(path, true);
    base_config::ConfigDirectory::new(env, base_config::DefaultConfigVerifier::new(fs))
}

fn empty_base_config() -> BaseConfig {
    base_config::ConfigDirectory::new(
        MockEnvInt::new(),
        base_config::DefaultConfigVerifier::new(MockFsInt::new()),
    )
}

fn base_data_with(var: &str, path: &str) -> BaseData {
    let mut env = MockEnvInt::new();
    env.expect_and_rig(var, String::from(path));
    let mut fs = MockFsInt::new();
    fs.expect_and_rig_exists(path, true);
    fs.expect_and_rig_is_directory(path, true);
    fs.expect_and_rig_is_absolute(path, true);
    base_data::DataDirectory::new(env, base_data::DefaultDataVerifier::new(fs))
}

/// By default the remote override takes precedence over the standard
/// convention, and its answer bypasses local verification.
#[test]
fn remote_override_takes_precedence() {
    let mut dir = mid_config::ConfigDirectory::new(base_config_with("XDG_CONFIG_HOME", "/etc/x"));
    let remote = Some(String::from("/remote/config"));
    let path = dir.resolve(&remote).unwrap();
    assert_eq!(path, String::from("/remote/config"));
    assert!(dir.is_resolved());
}

/// Without a remote answer, resolution falls over to the local strategy and
/// joins the application namespace segment.
#[test]
fn remote_failure_falls_over_to_local_strategy() {
    let mut dir = mid_config::ConfigDirectory::new(base_config_with("XDG_CONFIG_HOME", "/etc/x"));
    let path = dir.resolve(&None).unwrap();
    assert_eq!(path, String::from("/etc/x/voxels"));
    assert!(dir.is_resolved());
}

/// Resolving twice on the same instance returns the identical path both
/// times: the first success is cached, and the second call does not consult
/// the strategies again (a remote answer that would win is ignored).
#[test]
fn resolve_is_idempotent_after_first_success() {
    let mut dir = mid_config::ConfigDirectory::new(base_config_with("XDG_CONFIG_HOME", "/etc/x"));
    let first = dir.resolve(&None).unwrap();
    let second = dir
        .resolve(&Some(String::from("/remote/config")))
        .unwrap();
    assert_eq!(first, second);
    assert_eq!(second, String::from("/etc/x/voxels"));
}

/// When no strategy succeeds, resolution fails with `NoCandidate` and no
/// partial path is cached: a later call may still succeed.
#[test]
fn failed_resolution_caches_nothing() {
    let mut dir = mid_config::ConfigDirectory::new(empty_base_config());
    assert_eq!(
        dir.resolve(&None).unwrap_err(),
        VoxelsDirectoryError::NoCandidate
    );
    assert!(!dir.is_resolved());

    let path = dir.resolve(&Some(String::from("/late/answer"))).unwrap();
    assert_eq!(path, String::from("/late/answer"));
    assert!(dir.is_resolved());
}

/// The priority table of the application-level layer can be replaced whole:
/// with the local strategy first, a remote answer no longer wins.
#[test]
fn reordered_priority_prefers_local_strategy() {
    let mut dir = mid_config::ConfigDirectory::new(base_config_with("XDG_CONFIG_HOME", "/etc/x"));
    dir.priority.set_all([
        mid_config::ConfigDirectoryResolutionMethods::FromXDG,
        mid_config::ConfigDirectoryResolutionMethods::FromDBus,
    ]);
    let path = dir.resolve(&Some(String::from("/remote/config"))).unwrap();
    assert_eq!(path, String::from("/etc/x/voxels"));
}

/// Resolve-and-create is idempotent: the first call creates the directory,
/// the second observes that it already exists and still returns the same
/// path successfully.
#[test]
fn resolve_and_create_is_idempotent() {
    let mut dir = mid_config::ConfigDirectory::new(base_config_with("XDG_CONFIG_HOME", "/etc/x"));
    let mut fs = MockFsInt::new();

    assert!(!fs.is_directory("/etc/x/voxels"));
    let first = dir.resolve_and_create(&mut fs, &None).unwrap();
    assert_eq!(first, String::from("/etc/x/voxels"));
    assert!(fs.is_directory("/etc/x/voxels"));

    let mut denying = MockFsInt::new_denying_creation();
    denying.expect_and_rig_is_directory("/etc/x/voxels", true);
    let second = dir.resolve_and_create(&mut denying, &None).unwrap();
    assert_eq!(second, first);
}

/// A directory-creation failure is fatal for that call and distinguished
/// from exhaustion of the strategies.
#[test]
fn creation_failure_is_distinguished() {
    let mut dir = mid_config::ConfigDirectory::new(base_config_with("XDG_CONFIG_HOME", "/etc/x"));
    let mut fs = MockFsInt::new_denying_creation();
    assert_eq!(
        dir.resolve_and_create(&mut fs, &None).unwrap_err(),
        VoxelsDirectoryError::CreationFailed
    );

    let mut unresolved = mid_config::ConfigDirectory::new(empty_base_config());
    let mut fs = MockFsInt::new();
    assert_eq!(
        unresolved.resolve_and_create(&mut fs, &None).unwrap_err(),
        VoxelsDirectoryError::NoCandidate
    );
}

/// The per-application resolver joins the application identity onto the
/// application-level directory and caches the result.
#[test]
fn per_application_directory_joins_identity() {
    let rdn = ApplicationRDN::new(String::from("com.example.App")).unwrap();
    let app = Application::new(rdn, None, None, None);
    let middle = mid_config::ConfigDirectory::new(base_config_with("XDG_CONFIG_HOME", "/etc/x"));
    let mut dir = app_config::ConfigDirectory::new(middle);

    let path = dir.resolve(&app, &None).unwrap();
    assert_eq!(path, String::from("/etc/x/voxels/com.example.App"));
    assert!(dir.is_resolved());

    let again = dir.resolve(&app, &Some(String::from("/elsewhere"))).unwrap();
    assert_eq!(again, path);
}

/// Per-application resolve-and-create creates the resolved directory.
#[test]
fn per_application_resolve_and_create() {
    let rdn = ApplicationRDN::new(String::from("com.example.App")).unwrap();
    let app = Application::new(rdn, None, None, None);
    let middle = mid_config::ConfigDirectory::new(base_config_with("XDG_CONFIG_HOME", "/etc/x"));
    let mut dir = app_config::ConfigDirectory::new(middle);
    let mut fs = MockFsInt::new();

    let path = dir.resolve_and_create(&mut fs, &app, &None).unwrap();
    assert_eq!(path, String::from("/etc/x/voxels/com.example.App"));
    assert!(fs.is_directory("/etc/x/voxels/com.example.App"));
}

/// The applications directory is the data base directory with the
/// applications namespace joined on.
#[test]
fn applications_directory_resolves_under_data() {
    let dir = ApplicationsDirectory::new(base_data_with("XDG_DATA_HOME", "/usr/share"));
    let path = dir.resolve().unwrap();
    assert_eq!(path, String::from("/usr/share/voxels/applications/"));
    assert!(!dir.is_resolved());
}

/// The applications directory fails with `NoCandidate` when the data base
/// cannot be resolved.
#[test]
fn applications_directory_propagates_no_candidate() {
    let dir = ApplicationsDirectory::new(base_data::DataDirectory::new(
        MockEnvInt::new(),
        base_data::DefaultDataVerifier::new(MockFsInt::new()),
    ));
    assert_eq!(dir.resolve().unwrap_err(), VoxelsDirectoryError::NoCandidate);
}

/// An application's manifest lives in a directory named after its identity.
#[test]
fn manifest_location_is_derived_from_identity() {
    let rdn = ApplicationRDN::new(String::from("com.example.App")).unwrap();
    let path = manifest_path("/usr/share/voxels/applications/", &rdn);
    assert_eq!(
        path,
        String::from("/usr/share/voxels/applications/com.example.App/manifest.toml")
    );
}

/// The middle data resolver joins the namespace onto the data base.
#[test]
fn middle_data_resolver_joins_namespace() {
    let mut dir = mid_data::DataDirectory::new(base_data_with("VOXELS_DATA_HOME", "/d"));
    let path = dir.resolve(&None).unwrap();
    assert_eq!(path, String::from("/d/voxels"));
}

/// The identity derived from a manifest location is the name of the
/// directory that directly holds the manifest.
#[test]
fn identity_is_derived_from_manifest_location() {
    let rdn =
        identity_from_manifest_location("/usr/share/voxels/applications/com.example.App/manifest.toml")
            .unwrap();
    assert_eq!(rdn.name(), "com.example.App");

    let nested = identity_from_manifest_location("org.x.Y/manifest.toml").unwrap();
    assert_eq!(nested.name(), "org.x.Y");
}

/// A manifest whose holding directory is missing or no valid identity yields
/// the identity error.
#[test]
fn identity_derivation_rejects_bad_locations() {
    assert_eq!(
        identity_from_manifest_location("manifest.toml").unwrap_err(),
        ApplicationErrors::InvalidName
    );
    assert_eq!(
        identity_from_manifest_location("/manifest.toml").unwrap_err(),
        ApplicationErrors::InvalidName
    );
    assert_eq!(
        identity_from_manifest_location("/apps/1bad.name/manifest.toml").unwrap_err(),
        ApplicationErrors::InvalidName
    );
    assert_eq!(
        identity_from_manifest_location("/apps//manifest.toml").unwrap_err(),
        ApplicationErrors::InvalidName
    );
}
