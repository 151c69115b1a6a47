use laserfiche_rs::laserfiche::{
    ApiHelper, Auth, AuthOrError, Entries, EntriesOrError, Entry, EntryCreate, EntryOrError,
    ImportResult, ImportResultOrError, LFAPIError, LFApiServer, MetadataValue, Operations,
    PatchedEntry, SetEdoc,
};
use std::time::{SystemTime, UNIX_EPOCH};

fn mock_api_server() -> LFApiServer {
    LFApiServer {
        address: "test.laserfiche.com".to_string(),
        repository: "test-repo".to_string(),
    }
}

fn mock_auth() -> Auth {
    Auth {
        odata_context: "test-context".to_string(),
        access_token: "test-token-12345".to_string(),
        expires_in: 3600,
        token_type: "Bearer".to_string(),
        username: "test-user".to_string(),
        password: "test-pass".to_string(),
        api_server: mock_api_server(),
        timestamp: 1234567890,
    }
}

#[test]
fn test_lfapiserver_creation() {
    let server = LFApiServer {
        address: "example.laserfiche.com".to_string(),
        repository: "my-repo".to_string(),
    };
    assert_eq!(server.address, "example.laserfiche.com");
    assert_eq!(server.repository, "my-repo");
}

#[test]
fn test_auth_struct_fields() {
    let auth = mock_auth();
    assert_eq!(auth.token_type, "Bearer");
    assert_eq!(auth.access_token, "test-token-12345");
    assert_eq!(auth.timestamp, 1234567890);
    assert_eq!(auth.username, "test-user");
    assert_eq!(auth.password, "test-pass");
    assert_eq!(auth.expires_in, 3600);
}

#[test]
fn test_detect_mime_type() {
    assert_eq!(Entry::detect_mime_type("test.pdf"), "application/pdf");
    assert_eq!(Entry::detect_mime_type("test.jpg"), "image/jpeg");
    assert_eq!(Entry::detect_mime_type("test.jpeg"), "image/jpeg");
    assert_eq!(Entry::detect_mime_type("test.png"), "image/png");
    assert_eq!(Entry::detect_mime_type("test.gif"), "image/gif");
    assert_eq!(Entry::detect_mime_type("test.tif"), "image/tiff");
    assert_eq!(Entry::detect_mime_type("test.tiff"), "image/tiff");
    assert_eq!(Entry::detect_mime_type("test.txt"), "text/plain");
    assert_eq!(Entry::detect_mime_type("test.csv"), "text/csv");
    assert_eq!(Entry::detect_mime_type("test.xml"), "application/xml");
    assert_eq!(Entry::detect_mime_type("test.json"), "application/json");
    assert_eq!(Entry::detect_mime_type("test.doc"), "application/msword");
    assert_eq!(
        Entry::detect_mime_type("test.docx"),
        "application/vnd.openxmlformats-officedocument.wordprocessingml.document"
    );
    assert_eq!(Entry::detect_mime_type("test.xls"), "application/vnd.ms-excel");
    assert_eq!(
        Entry::detect_mime_type("test.xlsx"),
        "application/vnd.openxmlformats-officedocument.spreadsheetml.sheet"
    );
    assert_eq!(Entry::detect_mime_type("test.ppt"), "application/vnd.ms-powerpoint");
    assert_eq!(
        Entry::detect_mime_type("test.pptx"),
        "application/vnd.openxmlformats-officedocument.presentationml.presentation"
    );
    assert_eq!(Entry::detect_mime_type("test.unknown"), "application/octet-stream");
    assert_eq!(Entry::detect_mime_type("test"), "application/octet-stream");
}

#[test]
fn test_detect_mime_type_case_insensitive() {
    assert_eq!(Entry::detect_mime_type("TEST.PDF"), "application/pdf");
    assert_eq!(Entry::detect_mime_type("Test.Pdf"), "application/pdf");
    assert_eq!(Entry::detect_mime_type("test.PDF"), "application/pdf");
}

#[test]
fn test_entry_struct() {
    let entry = Entry {
        id: 123,
        name: "test-document.pdf".to_string(),
        parent_id: 1,
        full_path: "/root/test-document.pdf".to_string(),
        folder_path: "/root".to_string(),
        creator: "john.doe".to_string(),
        creation_time: "2024-01-01T00:00:00Z".to_string(),
        last_modified_time: "2024-01-02T00:00:00Z".to_string(),
        entry_type: "Document".to_string(),
        is_container: false,
        is_leaf: true,
        volume_name: "Volume1".to_string(),
        row_number: 1,
        ..Default::default()
    };

    assert_eq!(entry.id, 123);
    assert_eq!(entry.name, "test-document.pdf");
    assert_eq!(entry.parent_id, 1);
    assert!(!entry.is_container);
    assert!(entry.is_leaf);
}

#[test]
fn test_entries_collection() {
    let entry1 = Entry { id: 1, name: "doc1.pdf".to_string(), ..Default::default() };

    let entry2 = Entry { id: 2, name: "doc2.pdf".to_string(), ..Default::default() };

    let entries = Entries {
        value: vec![entry1, entry2],
        odata_next_link: Some("https://api.laserfiche.com/next".to_string()),
        ..Default::default()
    };

    assert_eq!(entries.value.len(), 2);
    assert_eq!(entries.value[0].id, 1);
    assert_eq!(entries.value[1].id, 2);
    assert!(entries.odata_next_link.is_some());
}

#[test]
fn test_patched_entry_struct() {
    let patched = PatchedEntry {
        parent_id: Some(10),
        name: Some("renamed-document.pdf".to_string()),
    };

    assert_eq!(patched.parent_id, Some(10));
    assert_eq!(patched.name, Some("renamed-document.pdf".to_string()));
}

#[test]
fn test_metadata_value() {
    let metadata = MetadataValue { value: "test-value".to_string(), position: 1 };

    assert_eq!(metadata.value, "test-value");
    assert_eq!(metadata.position, 1);
}

#[test]
fn test_import_result() {
    let import_result = ImportResult {
        operations: Operations {
            entry_create: EntryCreate { entry_id: 123, exceptions: vec![] },
            set_edoc: SetEdoc { exceptions: vec![] },
            set_template: None,
            set_fields: None,
            set_tags: None,
        },
        document_link: "https://api.laserfiche.com/entries/123".to_string(),
    };

    assert_eq!(import_result.operations.entry_create.entry_id, 123);
    assert!(import_result.operations.entry_create.exceptions.is_empty());
    assert_eq!(import_result.document_link, "https://api.laserfiche.com/entries/123");
}

#[test]
fn test_lfapi_error() {
    let error = LFAPIError {
        type_field: Some("NotFoundError".to_string()),
        title: Some("Not Found".to_string()),
        status: Some(404),
        detail: Some("The requested entry does not exist".to_string()),
        instance: Some("/api/entries/999".to_string()),
        operation_id: Some("op-123".to_string()),
        error_source: Some("Repository".to_string()),
        error_code: Some(1001),
        trace_id: Some("trace-123".to_string()),
        additional_prop1: None,
        additional_prop2: None,
        additional_prop3: None,
    };

    assert_eq!(error.status, Some(404));
    assert_eq!(error.title, Some("Not Found".to_string()));
    assert_eq!(error.error_code, Some(1001));
}

#[test]
fn test_auth_or_error_enum() {
    let auth = mock_auth();
    let auth_result = AuthOrError::Auth(auth.clone());

    match auth_result {
        AuthOrError::Auth(a) => assert_eq!(a.access_token, "test-token-12345"),
        AuthOrError::LFAPIError(_) => panic!("Expected Auth variant"),
    }

    let error = LFAPIError {
        status: Some(401),
        title: Some("Unauthorized".to_string()),
        ..Default::default()
    };
    let error_result = AuthOrError::LFAPIError(error);

    match error_result {
        AuthOrError::Auth(_) => panic!("Expected LFAPIError variant"),
        AuthOrError::LFAPIError(e) => assert_eq!(e.status, Some(401)),
    }
}

#[test]
fn test_entry_or_error_enum() {
    let entry = Entry { id: 123, name: "test.pdf".to_string(), ..Default::default() };
    let entry_result = EntryOrError::Entry(entry);

    match entry_result {
        EntryOrError::Entry(e) => assert_eq!(e.id, 123),
        EntryOrError::LFAPIError(_) => panic!("Expected Entry variant"),
    }
}

#[test]
fn test_entries_or_error_enum() {
    let entries = Entries { value: vec![], ..Default::default() };
    let entries_result = EntriesOrError::Entries(entries);

    match entries_result {
        EntriesOrError::Entries(e) => assert_eq!(e.value.len(), 0),
        EntriesOrError::LFAPIError(_) => panic!("Expected Entries variant"),
    }
}

#[test]
fn test_import_result_or_error_enum() {
    let import = ImportResult {
        operations: Operations {
            entry_create: EntryCreate { entry_id: 456, exceptions: vec![] },
            set_edoc: SetEdoc { exceptions: vec![] },
            set_template: None,
            set_fields: None,
            set_tags: None,
        },
        document_link: "https://test.com/456".to_string(),
    };
    let import_result = ImportResultOrError::ImportResult(import);

    match import_result {
        ImportResultOrError::ImportResult(i) => {
            assert_eq!(i.operations.entry_create.entry_id, 456)
        }
        ImportResultOrError::LFAPIError(_) => panic!("Expected ImportResult variant"),
    }
}

#[test]
fn test_timestamp_year_2038_boundary() {
    // Year 2038 problem occurs at 2^31 - 1 seconds (January 19, 2038 03:14:07 UTC)
    let year_2038_timestamp: u64 = 2_147_483_647;
    let result: std::result::Result<i64, _> = year_2038_timestamp.try_into();
    assert!(result.is_ok());
    assert_eq!(result.unwrap(), 2_147_483_647);
    assert_eq!(Auth::timestamp_from_reading(Some(year_2038_timestamp)), 2_147_483_647);

    // One second after the 2038 boundary (still within i64 range)
    let after_2038: u64 = 2_147_483_648;
    let result: std::result::Result<i64, _> = after_2038.try_into();
    assert!(result.is_ok());
    assert_eq!(result.unwrap(), 2_147_483_648);
    assert_eq!(Auth::timestamp_from_reading(Some(after_2038)), 2_147_483_648);
}

#[test]
fn test_timestamp_max_i64_value() {
    // Test at exactly i64::MAX
    let max_i64_as_u64: u64 = i64::MAX as u64;
    let result: std::result::Result<i64, _> = max_i64_as_u64.try_into();
    assert!(result.is_ok());
    assert_eq!(result.unwrap(), i64::MAX);
    assert_eq!(Auth::timestamp_from_reading(Some(max_i64_as_u64)), i64::MAX);

    // Test overflow scenario - one more than i64::MAX
    let overflow: u64 = (i64::MAX as u64) + 1;
    let result: std::result::Result<i64, _> = overflow.try_into();
    assert!(result.is_err());
    assert_eq!(Auth::timestamp_from_reading(Some(overflow)), i64::MAX);
}

#[test]
fn test_timestamp_overflow_handling() {
    // Test that our implementation handles overflow gracefully
    let max_u64 = u64::MAX;
    let result: i64 = max_u64.try_into().unwrap_or(i64::MAX);
    assert_eq!(result, i64::MAX);
    assert_eq!(Auth::timestamp_from_reading(Some(max_u64)), i64::MAX);

    // Test with a value that would overflow
    let overflow_value: u64 = (i64::MAX as u64) + 1000;
    let result: i64 = overflow_value.try_into().unwrap_or(i64::MAX);
    assert_eq!(result, i64::MAX);
    assert_eq!(Auth::timestamp_from_reading(Some(overflow_value)), i64::MAX);
}

#[test]
fn test_current_timestamp_safe_conversion() {
    // Test that current_timestamp returns a valid i64
    let timestamp = Auth::current_timestamp();
    assert!(timestamp > 0);
    assert!(timestamp <= i64::MAX);

    // Verify it's approximately the current time (within reasonable bounds)
    let now_secs = SystemTime::now().duration_since(UNIX_EPOCH).unwrap().as_secs();

    // Check that the timestamp is reasonable (between year 2020 and 2100)
    let year_2020: i64 = 1577836800; // January 1, 2020
    let year_2100: i64 = 4102444800; // January 1, 2100
    assert!(timestamp >= year_2020);
    assert!(timestamp <= year_2100);

    // The current timestamp should be close to now
    assert!((timestamp as u64) <= now_secs + 1);
}

#[test]
fn test_future_dates_handling() {
    // Test with year 2050 timestamp
    let year_2050: u64 = 2524608000; // January 1, 2050
    let result: std::result::Result<i64, _> = year_2050.try_into();
    assert!(result.is_ok());
    assert_eq!(result.unwrap(), 2524608000);
    assert_eq!(Auth::timestamp_from_reading(Some(year_2050)), 2524608000);

    // Test with year 2100 timestamp
    let year_2100: u64 = 4102444800; // January 1, 2100
    let result: std::result::Result<i64, _> = year_2100.try_into();
    assert!(result.is_ok());
    assert_eq!(result.unwrap(), 4102444800);
    assert_eq!(Auth::timestamp_from_reading(Some(year_2100)), 4102444800);

    // Test with year 2200 timestamp (well within i64 range)
    let year_2200: u64 = 7258118400; // January 1, 2200
    let result: std::result::Result<i64, _> = year_2200.try_into();
    assert!(result.is_ok());
    assert_eq!(result.unwrap(), 7258118400);
    assert_eq!(Auth::timestamp_from_reading(Some(year_2200)), 7258118400);
}

#[test]
fn test_edge_case_zero_timestamp() {
    // Test Unix epoch (0)
    let epoch: u64 = 0;
    let result: std::result::Result<i64, _> = epoch.try_into();
    assert!(result.is_ok());
    assert_eq!(result.unwrap(), 0);
    assert_eq!(Auth::timestamp_from_reading(Some(epoch)), 0);
    // A clock that stands before the epoch reads as the epoch.
    assert_eq!(Auth::timestamp_from_reading(None), 0);
}

#[test]
fn test_auth_timestamp_field() {
    // Create an Auth instance and verify timestamp is set correctly
    let mut auth = mock_auth();

    // Set timestamp to a known value
    auth.timestamp = 1234567890;
    assert_eq!(auth.timestamp, 1234567890);

    // Test setting to max value
    auth.timestamp = i64::MAX;
    assert_eq!(auth.timestamp, i64::MAX);

    // Verify current_timestamp is within valid range
    auth.timestamp = Auth::current_timestamp();
    assert!(auth.timestamp > 0);
    assert!(auth.timestamp <= i64::MAX);
}

#[test]
fn urls_are_built_from_server_and_identifier() {
    let server = mock_api_server();
    assert_eq!(
        ApiHelper::build_base_url(&server),
        "https://test.laserfiche.com/LFRepositoryAPI/v1/Repositories/test-repo"
    );
    assert_eq!(
        Auth::build_token_url(&server),
        "https://test.laserfiche.com/LFRepositoryAPI/v1/Repositories/test-repo/Token"
    );
    assert_eq!(
        ApiHelper::build_entries_url(&server, 42).unwrap(),
        "https://test.laserfiche.com/LFRepositoryAPI/v1/Repositories/test-repo/Entries/42"
    );
    assert!(ApiHelper::build_entries_url(&server, 0).is_err());
    assert_eq!(
        Entry::build_import_url(&server, 7, "scan.tiff"),
        "https://test.laserfiche.com/LFRepositoryAPI/v1/Repositories/test-repo/Entries/7/scan.tiff?autoRename=true"
    );
}

#[test]
fn auth_params_come_in_order() {
    let params = Auth::build_auth_params("alice", "s3cret");
    assert_eq!(
        params,
        vec![("grant_type", "password"), ("username", "alice"), ("password", "s3cret")]
    );
}

#[test]
fn search_url_encodes_query_and_options() {
    let server = mock_api_server();
    let url = Entry::build_search_url(&server, "a b&c", None, None, None, None);
    assert_eq!(
        url,
        "https://test.laserfiche.com/LFRepositoryAPI/v1/Repositories/test-repo/Entries/Search?q=a%20b%26c"
    );
    let url = Entry::build_search_url(
        &server,
        "caf\u{e9}",
        Some("name asc".to_string()),
        Some("id,name".to_string()),
        Some(-5),
        Some(10),
    );
    assert_eq!(
        url,
        "https://test.laserfiche.com/LFRepositoryAPI/v1/Repositories/test-repo/Entries/Search?q=caf%C3%A9&$orderby=name%20asc&$select=id%2Cname&$skip=-5&$top=10"
    );
    let url = Entry::build_search_url(&server, "A-z_0.9~", None, None, None, Some(i32::MIN));
    assert_eq!(
        url,
        "https://test.laserfiche.com/LFRepositoryAPI/v1/Repositories/test-repo/Entries/Search?q=A-z_0.9~&$top=-2147483648"
    );
}

#[test]
fn mime_type_goes_by_the_last_extension() {
    assert_eq!(Entry::detect_mime_type("archive.tar.json"), "application/json");
    assert_eq!(Entry::detect_mime_type("pdf"), "application/pdf");
    assert_eq!(Entry::detect_mime_type("name."), "application/octet-stream");
    assert_eq!(Entry::detect_mime_type(""), "application/octet-stream");
    assert_eq!(Entry::mime_type_for_extension("png"), "image/png");
    assert_eq!(Entry::mime_type_for_extension("PNG"), "application/octet-stream");
}
