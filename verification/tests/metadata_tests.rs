use status_service::errors::ConfigError;
use status_service::metadata::parse_metadata;

#[test]
fn parses_description_and_version() {
    let m = parse_metadata("{\"description\": \"svc\", \"version\": \"1.2.3\"}").unwrap();
    assert_eq!(m.description, "svc");
    assert_eq!(m.version, "1.2.3");
}

#[test]
fn extra_fields_are_ignored() {
    let m = parse_metadata(
        "{\"description\": \"svc\", \"version\": \"1.2.3\", \"owner\": \"ops\"}",
    )
    .unwrap();
    assert_eq!(m.description, "svc");
    assert_eq!(m.version, "1.2.3");
}

#[test]
fn invalid_json_fails() {
    let r = parse_metadata("{\"description\": ");
    assert_eq!(r.unwrap_err(), ConfigError::ConfigLoadError);
}

#[test]
fn missing_version_fails() {
    let r = parse_metadata("{\"description\": \"svc\"}");
    assert_eq!(r.unwrap_err(), ConfigError::ConfigLoadError);
}

#[test]
fn missing_description_fails() {
    let r = parse_metadata("{\"version\": \"1.2.3\"}");
    assert_eq!(r.unwrap_err(), ConfigError::ConfigLoadError);
}

#[test]
fn non_string_field_fails() {
    let r = parse_metadata("{\"description\": \"svc\", \"version\": 3}");
    assert_eq!(r.unwrap_err(), ConfigError::ConfigLoadError);
}

#[test]
fn non_object_document_fails() {
    let r = parse_metadata("[1, 2, 3]");
    assert_eq!(r.unwrap_err(), ConfigError::ConfigLoadError);
}

#[test]
fn empty_document_fails() {
    let r = parse_metadata("");
    assert_eq!(r.unwrap_err(), ConfigError::ConfigLoadError);
}
