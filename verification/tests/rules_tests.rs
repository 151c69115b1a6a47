// The decisions of the validators, given what the matchers and the parser say,
// and the laws that hold of them, on chosen values.
use laserfiche_rs::patterns::PatternRegistry;
use laserfiche_rs::validation::{
    check_file_path_syntax, decide_api_url, decide_field_name, decide_field_value,
    decide_file_name, decide_repository_name, decide_server_address, resolve_file_path,
    sanitize, validate_api_url, validate_entry_id, validate_field_name, validate_field_value,
    validate_file_name, validate_file_size, validate_repository_name, validate_server_address,
    PathProbe, Platform, UrlParts, ValidationError,
};
use std::path::PathBuf;

fn patterns() -> PatternRegistry {
    PatternRegistry::new().expect("the patterns compile")
}

#[test]
fn sanitize_escapes_and_drops() {
    assert_eq!(sanitize("O'Brien"), "O''Brien");
    assert_eq!(sanitize("a\\b"), "a\\\\b");
    assert_eq!(sanitize("a\0b\u{1a}c"), "abc");
    assert_eq!(sanitize("'\\'"), "''\\\\''");
    assert_eq!(sanitize(""), "");
    assert_eq!(sanitize("plain text \u{e9}"), "plain text \u{e9}");
}

#[test]
fn field_value_scenarios() {
    let patterns = patterns();
    assert_eq!(validate_field_value(&patterns, "O'Brien").unwrap(), "O''Brien");
    assert!(matches!(
        validate_field_value(&patterns, "<script>x</script>"),
        Err(ValidationError::ScriptInjectionAttempt(_))
    ));
    let too_long = "a".repeat(10 * 1024 + 1);
    assert!(matches!(
        validate_field_value(&patterns, &too_long),
        Err(ValidationError::InvalidFieldValue(notice))
            if notice == "Value exceeds maximum length of 10240 characters"
    ));
    let longest = "a".repeat(10 * 1024);
    assert_eq!(validate_field_value(&patterns, &longest).unwrap(), longest);
    // The limit counts bytes: 5121 two-byte characters are too many.
    assert!(validate_field_value(&patterns, &"\u{e9}".repeat(5121)).is_err());
    assert!(validate_field_value(&patterns, &"\u{e9}".repeat(5120)).is_ok());
}

#[test]
fn field_value_decision_follows_the_order_of_the_rules() {
    let too_long = "a".repeat(10 * 1024 + 1);
    assert!(matches!(
        decide_field_value(&too_long, true),
        Err(ValidationError::InvalidFieldValue(_))
    ));
    assert!(matches!(
        decide_field_value("it's", true),
        Err(ValidationError::ScriptInjectionAttempt(value)) if value == "it's"
    ));
    assert_eq!(decide_field_value("it's", false).unwrap(), "it''s");
}

#[test]
fn field_name_decision_follows_the_order_of_the_rules() {
    assert!(matches!(
        decide_field_name("", true, true, true),
        Err(ValidationError::InvalidFieldName(_))
    ));
    assert!(matches!(
        decide_field_name(&"a".repeat(129), true, true, true),
        Err(ValidationError::InvalidFieldName(_))
    ));
    assert!(matches!(
        decide_field_name("Title", true, true, false),
        Err(ValidationError::SqlInjectionAttempt(name)) if name == "Title"
    ));
    assert!(matches!(
        decide_field_name("Title", false, true, false),
        Err(ValidationError::ScriptInjectionAttempt(name)) if name == "Title"
    ));
    assert!(matches!(
        decide_field_name("Title", false, false, false),
        Err(ValidationError::InvalidFieldName(name)) if name == "Title"
    ));
    assert_eq!(decide_field_name("Title", false, false, true).unwrap(), "Title");
}

#[test]
fn repository_name_decision_follows_the_order_of_the_rules() {
    assert!(matches!(
        decide_repository_name("", true, true),
        Err(ValidationError::InvalidRepositoryName(_))
    ));
    assert!(matches!(
        decide_repository_name(&"a".repeat(65), true, true),
        Err(ValidationError::InvalidRepositoryName(_))
    ));
    assert!(matches!(
        decide_repository_name("repo", true, true),
        Err(ValidationError::SqlInjectionAttempt(_))
    ));
    assert!(matches!(
        decide_repository_name("repo", false, false),
        Err(ValidationError::InvalidRepositoryName(_))
    ));
    assert_eq!(decide_repository_name("repo", false, true).unwrap(), "repo");
}

#[test]
fn server_address_decision_follows_the_order_of_the_rules() {
    assert!(matches!(
        decide_server_address("", true, true),
        Err(ValidationError::InvalidUrl(_))
    ));
    assert!(matches!(
        decide_server_address(&"a".repeat(254), true, true),
        Err(ValidationError::InvalidUrl(_))
    ));
    assert!(matches!(
        decide_server_address("a.b", true, true),
        Err(ValidationError::SqlInjectionAttempt(_))
    ));
    assert!(matches!(
        decide_server_address("a.b", false, false),
        Err(ValidationError::InvalidUrl(_))
    ));
    assert!(matches!(
        decide_server_address("a..b", false, true),
        Err(ValidationError::InvalidUrl(_))
    ));
    assert!(matches!(
        decide_server_address(".a", false, true),
        Err(ValidationError::InvalidUrl(_))
    ));
    assert!(matches!(
        decide_server_address("a.", false, true),
        Err(ValidationError::InvalidUrl(_))
    ));
    assert!(matches!(
        decide_server_address("a.-b", false, true),
        Err(ValidationError::InvalidUrl(_))
    ));
    assert_eq!(decide_server_address("a.b-c.d", false, true).unwrap(), "a.b-c.d");
    // Label lengths count bytes: 32 two-byte characters are too many.
    let wide = format!("{}.com", "\u{e9}".repeat(32));
    assert!(decide_server_address(&wide, false, true).is_err());
    let narrow = format!("{}a.com", "\u{e9}".repeat(31));
    assert!(decide_server_address(&narrow, false, true).is_ok());
}

fn parts(scheme: &str, has_host: bool) -> Option<UrlParts> {
    Some(UrlParts { scheme: scheme.to_string(), has_host })
}

#[test]
fn api_url_decision_follows_the_order_of_the_rules() {
    assert!(matches!(
        decide_api_url("", parts("https", true), false),
        Err(ValidationError::InvalidUrl(_))
    ));
    assert!(matches!(
        decide_api_url("x", None, true),
        Err(ValidationError::InvalidUrl(_))
    ));
    assert!(matches!(
        decide_api_url("x", parts("http", false), true),
        Err(ValidationError::InsecureUrl(_))
    ));
    assert!(matches!(
        decide_api_url("x", parts("HTTPS", true), false),
        Err(ValidationError::InsecureUrl(_))
    ));
    assert!(matches!(
        decide_api_url("x", parts("https", false), true),
        Err(ValidationError::InvalidUrl(_))
    ));
    assert!(matches!(
        decide_api_url("x", parts("https", true), true),
        Err(ValidationError::SqlInjectionAttempt(_))
    ));
    assert_eq!(decide_api_url("x", parts("https", true), false).unwrap(), "x");
}

#[test]
fn api_url_scenarios() {
    let patterns = patterns();
    assert!(matches!(
        validate_api_url(&patterns, "http://x.com"),
        Err(ValidationError::InsecureUrl(_))
    ));
    assert_eq!(validate_api_url(&patterns, "https://x.com").unwrap(), "https://x.com");
    assert!(matches!(
        validate_api_url(&patterns, "not a url"),
        Err(ValidationError::InvalidUrl(_))
    ));
    assert!(matches!(validate_api_url(&patterns, ""), Err(ValidationError::InvalidUrl(_))));
    // The scheme is compared as the parser gives it, in lower case.
    assert!(validate_api_url(&patterns, "HTTPS://x.com").is_ok());
    assert!(matches!(
        validate_api_url(&patterns, "https://x.com/a;b"),
        Err(ValidationError::SqlInjectionAttempt(_))
    ));
    assert_eq!(
        validate_api_url(&patterns, "ftp://x.com").unwrap_err().to_string(),
        "Insecure URL: ftp://x.com. HTTPS is required for API endpoints."
    );
    assert_eq!(
        validate_api_url(&patterns, "nonsense").unwrap_err().to_string(),
        "Invalid URL: nonsense"
    );
}

#[test]
fn file_name_decision_uses_the_upper_case_form_given() {
    assert!(decide_file_name("a.txt", Platform::Windows, "CON").is_err());
    assert!(decide_file_name("a.txt", Platform::Windows, "CON.TXT").is_err());
    assert!(decide_file_name("a.txt", Platform::Windows, "A.TXT").is_ok());
    assert!(decide_file_name("a.txt", Platform::Posix, "CON").is_ok());
    assert!(decide_file_name("a?txt", Platform::Windows, "A?TXT").is_err());
}

#[test]
fn path_syntax_is_checked_without_the_file_system() {
    assert!(check_file_path_syntax("/no/such/place/at/all").is_ok());
    assert!(matches!(
        check_file_path_syntax(""),
        Err(ValidationError::InvalidFilePath(_))
    ));
    assert!(matches!(
        check_file_path_syntax("a\0b"),
        Err(ValidationError::InvalidFilePath(_))
    ));
    assert!(matches!(
        check_file_path_syntax("a/../b"),
        Err(ValidationError::PathTraversalAttempt(_))
    ));
    assert!(matches!(
        check_file_path_syntax("a/~b"),
        Err(ValidationError::PathTraversalAttempt(_))
    ));
    assert!(check_file_path_syntax("a.b/.c").is_ok());
}

#[test]
fn path_resolution_decides_on_the_probe() {
    let found = PathProbe::Found {
        canonical: PathBuf::from("/real/file"),
        shown: "/real/file".to_string(),
    };
    assert_eq!(resolve_file_path("file", found).unwrap(), PathBuf::from("/real/file"));
    let odd = PathProbe::Found {
        canonical: PathBuf::from("/real/../file"),
        shown: "/real/../file".to_string(),
    };
    assert!(matches!(
        resolve_file_path("file", odd),
        Err(ValidationError::PathTraversalAttempt(path)) if path == "file"
    ));
    let fresh = PathProbe::Missing { given: PathBuf::from("new"), parent_exists: Some(true) };
    assert_eq!(resolve_file_path("new", fresh).unwrap(), PathBuf::from("new"));
    let orphan = PathProbe::Missing { given: PathBuf::from("new"), parent_exists: Some(false) };
    assert!(matches!(
        resolve_file_path("new", orphan),
        Err(ValidationError::InvalidFilePath(path)) if path == "new"
    ));
    let rootless = PathProbe::Missing { given: PathBuf::from("new"), parent_exists: None };
    assert!(matches!(
        resolve_file_path("new", rootless),
        Err(ValidationError::InvalidFilePath(_))
    ));
}

#[test]
fn accepted_values_are_accepted_again() {
    let patterns = patterns();
    let id = validate_entry_id(77).unwrap();
    assert_eq!(validate_entry_id(id).unwrap(), 77);
    let size = validate_file_size(4096).unwrap();
    assert_eq!(validate_file_size(size).unwrap(), 4096);
    let name = validate_repository_name(&patterns, "my-repo_1").unwrap();
    assert_eq!(validate_repository_name(&patterns, &name).unwrap(), "my-repo_1");
    let address = validate_server_address(&patterns, "api.example.com").unwrap();
    assert_eq!(validate_server_address(&patterns, &address).unwrap(), "api.example.com");
    let url = validate_api_url(&patterns, "https://api.example.com").unwrap();
    assert_eq!(validate_api_url(&patterns, &url).unwrap(), "https://api.example.com");
    let field = validate_field_name(&patterns, "Field Name").unwrap();
    assert_eq!(validate_field_name(&patterns, &field).unwrap(), "Field Name");
    let file = validate_file_name("a.txt", Platform::Windows).unwrap();
    assert_eq!(validate_file_name(&file, Platform::Windows).unwrap(), "a.txt");
}

#[test]
fn unquoted_field_value_is_stable_under_revalidation() {
    let patterns = patterns();
    let first = validate_field_value(&patterns, "plain\0 text\u{1a}").unwrap();
    assert_eq!(first, "plain text");
    let second = validate_field_value(&patterns, &first).unwrap();
    assert_eq!(second, first);
    assert!(second.len() <= "plain\0 text\u{1a}".len());
}

#[test]
fn quoted_field_value_grows_under_revalidation() {
    let patterns = patterns();
    let first = validate_field_value(&patterns, "O'Brien").unwrap();
    let second = validate_field_value(&patterns, &first).unwrap();
    assert_eq!(second, "O''''Brien");
    assert!(second.len() > first.len());
}

#[test]
fn dropping_a_control_character_can_bring_script_syntax_together() {
    let patterns = patterns();
    let first = validate_field_value(&patterns, "<scr\0ipt>").unwrap();
    assert_eq!(first, "<script>");
    assert!(matches!(
        validate_field_value(&patterns, &first),
        Err(ValidationError::ScriptInjectionAttempt(_))
    ));
}
