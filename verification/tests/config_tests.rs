use laserfiche_rs::config::{Config, ConfigError};

fn some(value: &str) -> Option<String> {
    Some(value.to_string())
}

#[test]
fn test_missing_env_vars() {
    let result = Config::from_env(None, None, None, None);
    assert!(result.is_err());

    match result.unwrap_err() {
        ConfigError::MissingEnvVar(var) => {
            assert_eq!(var, "LF_API_ADDRESS");
        }
        _ => panic!("Expected MissingEnvVar error"),
    }
}

#[test]
fn test_all_env_vars_missing() {
    let result = Config::from_env(None, None, None, None);
    assert!(result.is_err());
}

#[test]
fn test_placeholder_values_rejected() {
    let result = Config::from_env(
        some("your-server.laserfiche.com"),
        some("valid-repo"),
        some("valid-user"),
        some("valid-pass"),
    );
    assert!(result.is_err());

    match result.unwrap_err() {
        ConfigError::InvalidValue(msg) => {
            assert!(msg.contains("placeholder or default value"));
        }
        _ => panic!("Expected InvalidValue error"),
    }
}

#[test]
fn test_default_username_rejected() {
    let result = Config::from_env(
        some("api.laserfiche.com"),
        some("myrepo"),
        some("username"),
        some("mypassword"),
    );
    assert!(result.is_err());

    match result.unwrap_err() {
        ConfigError::InvalidValue(msg) => {
            assert!(msg.contains("LF_USERNAME"));
            assert!(msg.contains("placeholder or default value"));
        }
        _ => panic!("Expected InvalidValue error"),
    }
}

#[test]
fn test_valid_config() {
    let result = Config::from_env(
        some("api.laserfiche.com"),
        some("production-repo"),
        some("john.doe"),
        some("secure123!"),
    );
    assert!(result.is_ok());

    let config = result.unwrap();
    assert_eq!(config.api_address, "api.laserfiche.com");
    assert_eq!(config.repository, "production-repo");
    assert_eq!(config.username, "john.doe");
    assert_eq!(config.password, "secure123!");
}

#[test]
fn test_empty_values_rejected() {
    let result = Config::from_env(some(""), some("repo"), some("user"), some("pass"));
    assert!(result.is_err());
}

#[test]
fn test_application_fails_without_env_vars() {
    let result = Config::from_env(None, None, None, None);
    assert!(result.is_err(), "Config should fail without environment variables");

    let error = result.unwrap_err();
    assert!(
        error.to_string().contains("Required environment variable"),
        "Error message should mention missing environment variable"
    );
}

#[test]
fn test_application_rejects_hardcoded_defaults() {
    let result = Config::from_env(
        some("your-server.laserfiche.com"),
        some("your-repository"),
        some("username"),
        some("password"),
    );
    assert!(result.is_err(), "Config should reject hardcoded default values");

    let error = result.unwrap_err();
    assert!(
        error.to_string().contains("placeholder"),
        "Error message should mention placeholder values"
    );
}

#[test]
fn test_application_rejects_partial_placeholders() {
    let cases = vec![
        ("your-custom-server.com", 0),
        ("example.com", 0),
        ("placeholder-repo", 1),
        ("test", 2),
        ("default", 3),
    ];
    for (placeholder, position) in cases {
        let mut values =
            vec![some("valid.server.com"), some("valid-repo"), some("valid-user"), some("valid-pass")];
        values[position] = some(placeholder);
        let password = values.pop().unwrap();
        let username = values.pop().unwrap();
        let repository = values.pop().unwrap();
        let api_address = values.pop().unwrap();
        let result = Config::from_env(api_address, repository, username, password);
        assert!(result.is_err(), "Config should reject placeholder value '{}'", placeholder);
    }
}

#[test]
fn test_config_validates_all_required_fields() {
    let names = ["LF_API_ADDRESS", "LF_REPOSITORY", "LF_USERNAME", "LF_PASSWORD"];
    for (missing, name) in names.iter().enumerate() {
        let mut values = vec![
            some("valid-value-123"),
            some("valid-value-123"),
            some("valid-value-123"),
            some("valid-value-123"),
        ];
        values[missing] = None;
        let password = values.pop().unwrap();
        let username = values.pop().unwrap();
        let repository = values.pop().unwrap();
        let api_address = values.pop().unwrap();
        let result = Config::from_env(api_address, repository, username, password);
        assert!(result.is_err(), "Config should fail when {} is missing", name);
        assert!(
            result.unwrap_err().to_string().contains(name),
            "Error message should mention the missing variable: {}",
            name
        );
    }
}

#[test]
fn missing_variable_is_reported_before_a_placeholder() {
    let result = Config::from_env(some("example.com"), None, some("u"), some("p"));
    assert!(matches!(result, Err(ConfigError::MissingEnvVar(name)) if name == "LF_REPOSITORY"));
}

#[test]
fn placeholder_check_normalizes_the_value() {
    assert!(Config::validate_not_placeholder("  PassWord  ", "LF_PASSWORD").is_err());
    assert!(Config::validate_not_placeholder("   ", "LF_PASSWORD").is_err());
    assert!(Config::validate_not_placeholder("my-EXAMPLE-host", "LF_API_ADDRESS").is_err());
    assert!(Config::validate_not_placeholder("testing", "LF_USERNAME").is_ok());
    assert!(Config::validate_not_placeholder("passwords", "LF_PASSWORD").is_ok());
    let error = Config::validate_not_placeholder(" Test ", "LF_USERNAME").unwrap_err();
    assert!(matches!(
        &error,
        ConfigError::InvalidValue(reason)
            if reason == "LF_USERNAME contains a placeholder or default value: ' Test '"
    ));
    assert_eq!(
        error.to_string(),
        "Invalid configuration value: LF_USERNAME contains a placeholder or default value: ' Test '"
    );
    let error = Config::validate_not_placeholder("Your-host", "LF_API_ADDRESS").unwrap_err();
    assert!(matches!(
        &error,
        ConfigError::InvalidValue(reason)
            if reason == "LF_API_ADDRESS appears to contain a placeholder value: 'Your-host'"
    ));
}

#[test]
fn placeholder_check_on_a_given_normal_form() {
    assert!(Config::check_normalized("X", "V", "default").is_err());
    assert!(Config::check_normalized("X", "V", "defaults").is_ok());
    assert!(Config::check_normalized("X", "V", "").is_err());
    assert!(Config::check_normalized("X", "V", "in your-hands").is_err());
}

#[test]
fn missing_variable_message() {
    let error = ConfigError::MissingEnvVar("LF_PASSWORD".to_string());
    assert_eq!(error.to_string(), "Required environment variable 'LF_PASSWORD' is not set");
}
