//! Application-identity validation and the application descriptor.

use voxels_directories::application::{
    Application, ApplicationErrors, ApplicationRDN, ApplicationsType,
};

#[test]
fn rdn_accepts_reverse_domain_name() {
    let rdn = ApplicationRDN::new(String::from("com.example.App")).unwrap();
    assert_eq!(rdn.name(), "com.example.App");
}

#[test]
fn rdn_rejects_name_without_separator() {
    let r = ApplicationRDN::new(String::from("example"));
    assert_eq!(r.unwrap_err(), ApplicationErrors::InvalidName);
}

#[test]
fn rdn_rejects_segment_starting_with_digit() {
    let r = ApplicationRDN::new(String::from("1com.example"));
    assert_eq!(r.unwrap_err(), ApplicationErrors::InvalidName);
}

#[test]
fn rdn_rejects_empty_name() {
    let r = ApplicationRDN::new(String::new());
    assert_eq!(r.unwrap_err(), ApplicationErrors::InvalidName);
}

#[test]
fn rdn_rejects_overlong_name() {
    let mut name = String::from("com.");
    for _ in 0..252 {
        name.push('a');
    }
    assert_eq!(name.chars().count(), 256);
    let r = ApplicationRDN::new(name);
    assert_eq!(r.unwrap_err(), ApplicationErrors::InvalidName);

    let mut fitting = String::from("com.");
    for _ in 0..251 {
        fitting.push('a');
    }
    assert_eq!(fitting.chars().count(), 255);
    assert!(ApplicationRDN::new(fitting).is_ok());
}

#[test]
fn rdn_rejects_empty_segments() {
    assert!(ApplicationRDN::new(String::from(".com.example")).is_err());
    assert!(ApplicationRDN::new(String::from("com..example")).is_err());
    assert!(ApplicationRDN::new(String::from("com.example.")).is_err());
}

#[test]
fn rdn_rejects_forbidden_characters() {
    assert!(ApplicationRDN::new(String::from("com.exa mple")).is_err());
    assert!(ApplicationRDN::new(String::from("com.exa/mple")).is_err());
    assert!(ApplicationRDN::new(String::from("com.exa-mple")).is_err());
}

#[test]
fn rdn_accepts_underscore_and_digits_inside_segments() {
    assert!(ApplicationRDN::new(String::from("com.example.my_app2")).is_ok());
    assert!(ApplicationRDN::new(String::from("org.x9.a_b")).is_ok());
}

#[test]
fn rdn_rejects_inner_segment_starting_with_digit() {
    assert!(ApplicationRDN::new(String::from("com.9example")).is_err());
}

#[test]
fn application_carries_its_identity() {
    let rdn = ApplicationRDN::new(String::from("com.example.App")).unwrap();
    let app = Application::new(
        rdn,
        Some(String::from("https://example.com")),
        Some(String::from("An example application")),
        Some(ApplicationsType::Client),
    );
    assert_eq!(app.rdn().name(), "com.example.App");
}
