use hotpatch::api::{classify_status, ApiClient, Method, Operation, ReleaseMetadata, Request};
use hotpatch::error::ErrorKind;

#[test]
fn trailing_slashes_are_dropped() {
    assert_eq!(ApiClient::new("https://r.example/", "t").base_url(), "https://r.example");
    assert_eq!(ApiClient::new("https://r.example///", "t").base_url(), "https://r.example");
    assert_eq!(ApiClient::new("https://r.example", "t").base_url(), "https://r.example");
    assert_eq!(ApiClient::new("https://r.example/api/", "t").base_url(), "https://r.example/api");
    assert_eq!(ApiClient::new("///", "t").base_url(), "");
    assert_eq!(ApiClient::new("", "t").base_url(), "");
    assert_eq!(ApiClient::new("http://h/ä/", "t").base_url(), "http://h/ä");
}

#[test]
fn token_is_kept() {
    assert_eq!(ApiClient::new("https://r.example/", "secret/").token(), "secret/");
}

#[test]
fn requests_to_the_registry() {
    let client = ApiClient::new("http://localhost:8080/", "t0k");
    assert_eq!(
        client.authenticate(),
        Request {
            operation: Operation::Authenticate,
            method: Method::Post,
            url: "http://localhost:8080/auth/token".to_string(),
            bearer: None,
        }
    );
    assert_eq!(
        client.upload_release(),
        Request {
            operation: Operation::UploadRelease,
            method: Method::Post,
            url: "http://localhost:8080/releases".to_string(),
            bearer: Some("t0k".to_string()),
        }
    );
    assert_eq!(
        client.list_releases("production"),
        Request {
            operation: Operation::ListReleases,
            method: Method::Get,
            url: "http://localhost:8080/releases?channel=production".to_string(),
            bearer: Some("t0k".to_string()),
        }
    );
    assert_eq!(
        client.rollback("r-17"),
        Request {
            operation: Operation::Rollback,
            method: Method::Patch,
            url: "http://localhost:8080/releases/r-17/rollback".to_string(),
            bearer: Some("t0k".to_string()),
        }
    );
    assert_eq!(
        client.upload_patch("r-17"),
        Request {
            operation: Operation::UploadPatch,
            method: Method::Post,
            url: "http://localhost:8080/releases/r-17/patches".to_string(),
            bearer: Some("t0k".to_string()),
        }
    );
}

#[test]
fn downloads_carry_no_token() {
    let client = ApiClient::new("http://localhost:8080/", "t0k");
    assert_eq!(
        client.download_bundle("https://cdn.example/bundles/1.0.0/"),
        Request {
            operation: Operation::DownloadBundle,
            method: Method::Get,
            url: "https://cdn.example/bundles/1.0.0/".to_string(),
            bearer: None,
        }
    );
}

#[test]
fn success_statuses() {
    for operation in [
        Operation::Authenticate,
        Operation::UploadRelease,
        Operation::Rollback,
        Operation::ListReleases,
        Operation::DownloadBundle,
        Operation::UploadPatch,
    ] {
        assert_eq!(classify_status(operation, 200), None);
        assert_eq!(classify_status(operation, 201), None);
        assert_eq!(classify_status(operation, 299), None);
        assert_eq!(classify_status(operation, 199), Some(ErrorKind::Remote));
        assert_eq!(classify_status(operation, 300), Some(ErrorKind::Remote));
        assert_eq!(classify_status(operation, 404), Some(ErrorKind::Remote));
        assert_eq!(classify_status(operation, 500), Some(ErrorKind::Remote));
    }
}

#[test]
fn conflict_on_release_upload_is_a_version_conflict() {
    assert_eq!(classify_status(Operation::UploadRelease, 409), Some(ErrorKind::VersionConflict));
    assert_eq!(classify_status(Operation::UploadPatch, 409), Some(ErrorKind::Remote));
    assert_eq!(classify_status(Operation::Rollback, 409), Some(ErrorKind::Remote));
}

#[test]
fn error_kinds_have_names() {
    assert_eq!(ErrorKind::Validation.name(), "validation error");
    assert_eq!(ErrorKind::DecryptionFailed.name(), "decryption failed");
    assert_eq!(ErrorKind::VersionConflict.name(), "version conflict");
    assert_eq!(ErrorKind::NoHomeDirectory.name(), "no home directory");
    assert_eq!(ErrorKind::InvalidPatch.name(), "invalid patch");
}

#[test]
fn uploaded_file_is_named_for_what_it_holds() {
    let mut metadata = ReleaseMetadata {
        version: "1.0.0".to_string(),
        channel: "production".to_string(),
        platform: "ios".to_string(),
        mandatory: false,
        rollout_percentage: 100,
        hash: String::new(),
        signature: String::new(),
        is_encrypted: false,
        is_patch: false,
        base_version: None,
        key_id: None,
        size: 0,
    };
    assert_eq!(metadata.file_name(), "bundle.zip");
    metadata.is_encrypted = true;
    assert_eq!(metadata.file_name(), "bundle.enc");
}
