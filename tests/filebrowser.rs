use pibox::filebrowser::{
    handle_error_status, listed_path, login_status, resource_to_entry, FilebrowserClient,
    FilebrowserError, ResourceResponse,
};
use pibox::state::FileType;

#[test]
fn test_client_creation() {
    let client = FilebrowserClient::new("http://localhost:8080");
    assert_eq!(client.base_url(), "http://localhost:8080");
}

#[test]
fn test_url_normalization() {
    let client = FilebrowserClient::new("http://localhost:8080/");
    assert_eq!(client.base_url(), "http://localhost:8080");
}

#[test]
fn request_urls() {
    let mut c = FilebrowserClient::new("http://h:1//");
    assert_eq!(c.base_url(), "http://h:1");
    assert_eq!(c.login_url(), "http://h:1/api/login");
    assert_eq!(c.list_url("/"), "http://h:1/api/resources");
    assert_eq!(c.list_url(""), "http://h:1/api/resources");
    assert_eq!(c.list_url("/docs"), "http://h:1/api/resources/docs");
    assert_eq!(c.resource_url("/a b"), "http://h:1/api/resources/a b");
    assert_eq!(c.raw_url("/f"), "http://h:1/api/raw/f");
    assert_eq!(c.upload_url("/f", true), "http://h:1/api/resources/f?override=true");
    assert_eq!(c.upload_url("/f", false), "http://h:1/api/resources/f?override=false");
    assert_eq!(c.mkdir_url("/d"), "http://h:1/api/resources/d/?override=false");
    assert_eq!(listed_path("/"), "");
    assert_eq!(listed_path("/x"), "/x");
    assert!(c.token().is_none());
    c.set_token("tok".to_string());
    assert_eq!(c.token(), Some("tok"));
}

#[test]
fn statuses_map_to_errors() {
    assert!(handle_error_status(200, "/p").is_ok());
    assert!(handle_error_status(204, "/p").is_ok());
    assert!(matches!(handle_error_status(401, "/p"), Err(FilebrowserError::PermissionDenied(ref p)) if p == "/p"));
    assert!(matches!(handle_error_status(403, "/p"), Err(FilebrowserError::PermissionDenied(_))));
    assert!(matches!(handle_error_status(404, "/p"), Err(FilebrowserError::NotFound(ref p)) if p == "/p"));
    match handle_error_status(500, "/p") {
        Err(FilebrowserError::ServerError(m)) => assert_eq!(m, "HTTP 500: /p"),
        other => panic!("unexpected {:?}", other),
    }
    let e = handle_error_status(302, "/q").unwrap_err();
    assert_eq!(e.message(), "Server error: HTTP 302: /q");
    assert!(matches!(login_status(403), Err(FilebrowserError::AuthFailed)));
    assert!(login_status(200).is_ok());
    assert_eq!(FilebrowserError::AuthFailed.message(), "Authentication failed");
    assert_eq!(FilebrowserError::InvalidResponse("x".to_string()).message(), "Invalid response: x");
}

fn record(modified: &str, is_dir: bool) -> ResourceResponse {
    ResourceResponse {
        name: "n".to_string(),
        path: "/n".to_string(),
        is_dir,
        size: 7,
        modified: modified.to_string(),
        mime_type: Some("text/plain".to_string()),
        items: vec![],
    }
}

#[test]
fn records_become_entries() {
    let e = resource_to_entry(record("2024-01-01T00:00:00Z", false));
    assert_eq!(e.modified, 1704067200);
    assert_eq!(e.file_type, FileType::File);
    assert_eq!((e.name.as_str(), e.path.as_str(), e.size), ("n", "/n", 7));
    assert_eq!(e.mime_type.as_deref(), Some("text/plain"));
    let e = resource_to_entry(record("2024-01-01T01:00:00+01:00", true));
    assert_eq!(e.modified, 1704067200);
    assert_eq!(e.file_type, FileType::Directory);
    assert_eq!(resource_to_entry(record("yesterday", false)).modified, 0);
}
