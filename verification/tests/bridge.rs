use presidium::bridge::generated::runtime_version;
use presidium::bridge::initialize_runtime;

#[test]
fn test_runtime_version() {
    let version = runtime_version();
    assert!(!version.is_empty());
}

#[test]
fn test_initialize_runtime() {
    let result = initialize_runtime();
    assert!(result.is_ok());
    let msg = result.unwrap();
    assert!(msg.contains("Presidium"));
}

#[test]
fn runtime_banner_names_the_version() {
    assert_eq!(initialize_runtime().unwrap(), format!("Presidium v{}", runtime_version()));
    assert_eq!(runtime_version(), "0.1.0");
}
