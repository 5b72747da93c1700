use rs_manifest_patcher::location::{Location, LocationError, ParsedUrl};

#[test]
fn invalid_url() {
    let result = Location::parse("not-a-url".to_string(), false);
    assert!(result.is_err());
    assert!(matches!(result, Err(LocationError::Unusable)));
}

#[test]
fn bare_address_is_no_url() {
    let result = Location::parse("127.0.0.1".to_string(), false);
    assert!(matches!(result, Err(LocationError::Unusable)));
}

#[test]
fn http_address_is_a_url() {
    match Location::parse("http://127.0.0.1:8080/api/manifest".to_string(), false) {
        Ok(Location::Url(address)) => assert_eq!(address, "http://127.0.0.1:8080/api/manifest"),
        other => panic!("unexpected {other:?}"),
    }
}

#[test]
fn url_is_kept_as_the_parser_writes_it() {
    match Location::parse("HTTPS://Example.COM".to_string(), true) {
        Ok(Location::Url(address)) => assert_eq!(address, "https://example.com/"),
        other => panic!("unexpected {other:?}"),
    }
}

#[test]
fn invalid_unix_path() {
    let result = Location::parse("/non/existent/path".to_string(), false);
    assert!(result.is_err());
    assert!(matches!(result, Err(LocationError::Unusable)));
}

#[test]
fn invalid_windows_path() {
    let result = Location::parse("C://non//existent//file.txt".to_string(), false);
    assert!(result.is_err());
    assert!(matches!(result, Err(LocationError::Unusable)));
}

#[test]
fn readable_path_is_a_file() {
    match Location::parse("/tmp/patch/manifest".to_string(), true) {
        Ok(Location::FilePath(path)) => assert_eq!(path, "/tmp/patch/manifest"),
        other => panic!("unexpected {other:?}"),
    }
}

#[test]
fn url_with_another_scheme_is_taken_as_a_path() {
    match Location::parse("ftp://example.com/manifest".to_string(), true) {
        Ok(Location::FilePath(path)) => assert_eq!(path, "ftp://example.com/manifest"),
        other => panic!("unexpected {other:?}"),
    }
    let result = Location::parse("ftp://example.com/manifest".to_string(), false);
    assert!(matches!(result, Err(LocationError::Unusable)));
}

#[test]
fn url_that_cannot_be_a_base_is_incomplete() {
    let result = Location::parse("mailto:someone@example.com".to_string(), true);
    assert!(matches!(result, Err(LocationError::IncompleteUrl)));
    let result = Location::parse("data:text/plain,Stuff".to_string(), false);
    assert!(matches!(result, Err(LocationError::IncompleteUrl)));
}

#[test]
fn decision_from_given_parts() {
    let parsed = |scheme: &str, cannot_be_a_base: bool| {
        Some(ParsedUrl {
            serialization: "written-back".to_string(),
            scheme: scheme.to_string(),
            cannot_be_a_base,
        })
    };
    assert!(matches!(
        Location::from_parts("x".to_string(), parsed("http", true), true),
        Err(LocationError::IncompleteUrl)
    ));
    match Location::from_parts("x".to_string(), parsed("https", false), false) {
        Ok(Location::Url(address)) => assert_eq!(address, "written-back"),
        other => panic!("unexpected {other:?}"),
    }
    match Location::from_parts("x".to_string(), parsed("file", false), true) {
        Ok(Location::FilePath(path)) => assert_eq!(path, "x"),
        other => panic!("unexpected {other:?}"),
    }
    assert!(matches!(
        Location::from_parts("x".to_string(), parsed("file", false), false),
        Err(LocationError::Unusable)
    ));
    match Location::from_parts("x".to_string(), None, true) {
        Ok(Location::FilePath(path)) => assert_eq!(path, "x"),
        other => panic!("unexpected {other:?}"),
    }
    assert!(matches!(
        Location::from_parts("x".to_string(), None, false),
        Err(LocationError::Unusable)
    ));
}

#[test]
fn error_messages() {
    assert_eq!(LocationError::IncompleteUrl.message(), "URL is incomplete");
    assert_eq!(
        LocationError::Unusable.message(),
        "Manifest location must be a valid URL (e.g., http://localhost:8080/manifest) or a readable file path"
    );
}
