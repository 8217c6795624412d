use kade_ide::error::Error;
use kade_ide::get_app_version;

#[test]
fn test_error_creation() {
    let io_err = std::io::Error::new(std::io::ErrorKind::NotFound, "file not found");
    let err = Error::from(io_err);
    assert!(matches!(err, Error::Io(_)));

    let custom = Error::custom("test error");
    assert!(matches!(custom, Error::Custom(_)));

    let config = Error::config("invalid config");
    assert!(matches!(config, Error::Config(_)));
}

#[test]
fn test_app_initialization() {
    assert!(true);
}

#[test]
fn io_failure_is_kept_as_it_is() {
    let io_err = std::io::Error::new(std::io::ErrorKind::NotFound, "file not found");
    match Error::from(io_err) {
        Error::Io(inner) => {
            assert_eq!(inner.kind(), std::io::ErrorKind::NotFound);
            assert_eq!(inner.to_string(), "file not found");
        }
        other => panic!("expected an I/O failure, got {:?}", other),
    }
}

#[test]
fn constructors_keep_the_message() {
    match Error::custom("test error") {
        Error::Custom(m) => assert_eq!(m, "test error"),
        other => panic!("unexpected {:?}", other),
    }
    match Error::config("invalid config") {
        Error::Config(m) => assert_eq!(m, "invalid config"),
        other => panic!("unexpected {:?}", other),
    }
    match Error::plugin("no such plugin") {
        Error::Plugin(m) => assert_eq!(m, "no such plugin"),
        other => panic!("unexpected {:?}", other),
    }
    match Error::custom("") {
        Error::Custom(m) => assert_eq!(m, ""),
        other => panic!("unexpected {:?}", other),
    }
}

#[test]
fn text_converts_to_custom() {
    match Error::from("plain text") {
        Error::Custom(m) => assert_eq!(m, "plain text"),
        other => panic!("unexpected {:?}", other),
    }
    match Error::from(String::from("owned text")) {
        Error::Custom(m) => assert_eq!(m, "owned text"),
        other => panic!("unexpected {:?}", other),
    }
    let through_into: Error = "into".into();
    assert!(matches!(through_into, Error::Custom(ref m) if m == "into"));
}

#[test]
fn runtime_failure_is_a_kind_of_its_own() {
    let err = Error::Tauri(String::from("window not found"));
    assert!(matches!(err, Error::Tauri(ref m) if m == "window not found"));
    assert!(!matches!(err, Error::Io(_)));
    assert!(!matches!(err, Error::Custom(_)));
}

#[test]
fn version_is_the_package_version() {
    assert_eq!(get_app_version(), "0.1.0");
    assert_eq!(get_app_version(), kade_ide::APP_VERSION);
}
