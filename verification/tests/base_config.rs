//! The configuration base resolver exercised through the in-memory
//! environment and filesystem accessors.

use voxels_directories::base::config::{
    ConfigDirectory, ConfigDirectoryResolutionMethods, ConfigDirectoryResolver,
    ConfigVerifier, DefaultConfigVerifier,
};
use voxels_directories::environment_variables::MockEnvInt;
use voxels_directories::filesystem::MockFsInt;

fn rig_directory(fs: &mut MockFsInt, path: &str) {
    fs.expect_and_rig_exists(path, true);
    fs.expect_and_rig_is_directory(path, true);
}

#[test]
fn test_default_config_verifier() {
    let mut fs = MockFsInt::new();

    let test_path = "Home/";

    fs.expect_and_rig_exists(test_path, true);
    fs.expect_and_rig_is_directory(test_path, true);

    let validator = DefaultConfigVerifier::new(fs);

    let result = validator.verify(test_path);

    assert!(result);
}

#[test]
fn test_from_fhs() {
    let mut env = MockEnvInt::new();
    let mut fs = MockFsInt::new();

    let home_env = String::from("/home");

    let expected_home_path = String::from("/home/.config/");

    env.expect_and_rig("HOME", home_env);
    rig_directory(&mut fs, "/home/.config/");

    let validator = DefaultConfigVerifier::new(fs);
    let config = ConfigDirectory::new(env, validator);

    let res = config.using_fhs();

    assert!(res.is_ok());
    assert_eq!(res.unwrap(), expected_home_path);
}

#[test]
fn test_resolve() {
    let mut env = MockEnvInt::new();
    let mut fs = MockFsInt::new();

    let voxels_config_home = String::from("/home");

    let expected_voxels_return = String::from("/home");

    env.expect_and_rig("VOXELS_CONFIG_HOME", voxels_config_home);
    rig_directory(&mut fs, "/home");

    let validator = DefaultConfigVerifier::new(fs);
    let config = ConfigDirectory::new(env, validator);

    let result = config.resolve();

    assert!(result.is_ok());

    assert_eq!(result.unwrap().0, expected_voxels_return);
}

#[test]
fn test_from_xdg() {
    let mut env = MockEnvInt::new();
    let mut fs = MockFsInt::new();

    let xdg_home = String::from("/home");

    let expected_home_path = String::from("/home");

    env.expect_and_rig("XDG_CONFIG_HOME", xdg_home);
    rig_directory(&mut fs, "/home");

    let validator = DefaultConfigVerifier::new(fs);
    let config = ConfigDirectory::new(env, validator);

    let res = config.using_xdg();

    assert!(res.is_ok());
    assert_eq!(res.unwrap(), expected_home_path);
}

#[test]
fn test_from_voxels() {
    let mut env = MockEnvInt::new();
    let mut fs = MockFsInt::new();

    let voxels_env_home = String::from("/voxels");

    let expected_home_path = String::from("/voxels");

    env.expect_and_rig("VOXELS_CONFIG_HOME", voxels_env_home);
    rig_directory(&mut fs, "/voxels");

    let validator = DefaultConfigVerifier::new(fs);
    let config = ConfigDirectory::new(env, validator);

    let res = config.using_voxels();

    assert!(res.is_ok());
    assert_eq!(res.unwrap(), expected_home_path);
}

#[test]
fn config_test_default_config_verifier() {
    let mut fs = MockFsInt::new();

    let test_path = "Home/";

    fs.expect_and_rig_exists(test_path, true);
    fs.expect_and_rig_is_directory(test_path, true);

    let validator = DefaultConfigVerifier::new(fs);

    assert!(validator.verify(test_path));
}

#[test]
fn config_test_from_fhs() {
    let mut env = MockEnvInt::new();
    let mut fs = MockFsInt::new();

    env.expect_and_rig("HOME", String::from("/home"));
    rig_directory(&mut fs, "/home/.config/");

    let config = ConfigDirectory::new(env, DefaultConfigVerifier::new(fs));

    let res = config.using_fhs();

    assert!(res.is_ok());
    assert_eq!(res.unwrap(), String::from("/home/.config/"));
}

#[test]
fn config_test_resolve() {
    let mut env = MockEnvInt::new();
    let mut fs = MockFsInt::new();

    env.expect_and_rig("VOXELS_CONFIG_HOME", String::from("/home"));
    rig_directory(&mut fs, "/home");

    let config = ConfigDirectory::new(env, DefaultConfigVerifier::new(fs));

    let result = config.resolve();

    assert!(result.is_ok());
    let (path, method) = result.unwrap();
    assert_eq!(path, String::from("/home"));
    assert_eq!(method, ConfigDirectoryResolutionMethods::FromVoxels);
}

#[test]
fn config_test_from_xdg() {
    let mut env = MockEnvInt::new();
    let mut fs = MockFsInt::new();

    env.expect_and_rig("XDG_CONFIG_HOME", String::from("/home"));
    rig_directory(&mut fs, "/home");

    let config = ConfigDirectory::new(env, DefaultConfigVerifier::new(fs));

    let res = config.using_xdg();

    assert!(res.is_ok());
    assert_eq!(res.unwrap(), String::from("/home"));
}

#[test]
fn config_test_from_voxels() {
    let mut env = MockEnvInt::new();
    let mut fs = MockFsInt::new();

    env.expect_and_rig("VOXELS_CONFIG_HOME", String::from("/voxels"));
    rig_directory(&mut fs, "/voxels");

    let config = ConfigDirectory::new(env, DefaultConfigVerifier::new(fs));

    let res = config.using_voxels();

    assert!(res.is_ok());
    assert_eq!(res.unwrap(), String::from("/voxels"));
}
