//! The configuration of a client: where the API is served and who signs in.
//!
//! The four values come from the environment. Reading them is left to the
//! caller; what is accepted is decided here.

use crate::text::{
    chars_of, contains_infix, has_infix, is_text, lowercase, to_lowercase, trim, trimmed,
};
use vstd::prelude::*;

verus! {

/// Why a configuration was refused.
#[derive(Debug)]
pub enum ConfigError {
    /// A required variable is not set; the payload is its name.
    MissingEnvVar(String),
    /// A variable holds a value that cannot be meant; the payload says which
    /// and why.
    InvalidValue(String),
}

/// The mathematical form of a [`ConfigError`].
pub enum ConfigRejection {
    MissingEnvVar(Seq<char>),
    InvalidValue(Seq<char>),
}

impl View for ConfigError {
    type V = ConfigRejection;

    open spec fn view(&self) -> ConfigRejection {
        match self {
            ConfigError::MissingEnvVar(name) => ConfigRejection::MissingEnvVar(name@),
            ConfigError::InvalidValue(reason) => ConfigRejection::InvalidValue(reason@),
        }
    }
}

impl ConfigRejection {
    /// The message shown to the user for this rejection.
    pub open spec fn message(self) -> Seq<char> {
        match self {
            ConfigRejection::MissingEnvVar(name) => "Required environment variable '"@ + name
                + "' is not set"@,
            ConfigRejection::InvalidValue(reason) => "Invalid configuration value: "@ + reason,
        }
    }
}

impl ConfigError {
    /// The message shown to the user for this error.
    pub fn to_string(&self) -> (s: String)
        ensures
            s@ == self@.message(),
    {
        match self {
            ConfigError::MissingEnvVar(name) => {
                let mut s = String::from_str("Required environment variable '");
                s.append(name.as_str());
                s.append("' is not set");
                s
            },
            ConfigError::InvalidValue(reason) => {
                let mut s = String::from_str("Invalid configuration value: ");
                s.append(reason.as_str());
                s
            },
        }
    }
}

/// The settings of a client.
#[derive(Debug, Clone)]
pub struct Config {
    pub api_address: String,
    pub repository: String,
    pub username: String,
    pub password: String,
}

/// The name of the variable that holds the address of the API server.
pub const API_ADDRESS_VAR: &'static str = "LF_API_ADDRESS";

/// The name of the variable that holds the name of the repository.
pub const REPOSITORY_VAR: &'static str = "LF_REPOSITORY";

/// The name of the variable that holds the user name.
pub const USERNAME_VAR: &'static str = "LF_USERNAME";

/// The name of the variable that holds the password.
pub const PASSWORD_VAR: &'static str = "LF_PASSWORD";

/// A normalised value that is one of the placeholders of the documentation,
/// or empty.
pub open spec fn is_placeholder_word(normalized: Seq<char>) -> bool {
    ||| normalized == "your-server.laserfiche.com"@
    ||| normalized == "your-repository"@
    ||| normalized == "username"@
    ||| normalized == "password"@
    ||| normalized == "placeholder"@
    ||| normalized == "default"@
    ||| normalized == "example"@
    ||| normalized == "test"@
    ||| normalized == ""@
}

/// A normalised value that holds a fragment typical of a placeholder.
pub open spec fn has_placeholder_fragment(normalized: Seq<char>) -> bool {
    ||| has_infix(normalized, "your-"@)
    ||| has_infix(normalized, "example"@)
    ||| has_infix(normalized, "placeholder"@)
}

/// What the placeholder check returns for the value `value` of the variable
/// `var_name`, where `normalized` is the value trimmed and in lower case.
pub open spec fn placeholder_verdict(
    value: Seq<char>,
    var_name: Seq<char>,
    normalized: Seq<char>,
) -> Result<(), ConfigRejection> {
    if is_placeholder_word(normalized) {
        Err(
            ConfigRejection::InvalidValue(
                var_name + " contains a placeholder or default value: '"@ + value + "'"@,
            ),
        )
    } else if has_placeholder_fragment(normalized) {
        Err(
            ConfigRejection::InvalidValue(
                var_name + " appears to contain a placeholder value: '"@ + value + "'"@,
            ),
        )
    } else {
        Ok(())
    }
}

/// The normalised form of a value: trimmed, then in lower case.
pub open spec fn normalized(value: Seq<char>) -> Seq<char> {
    lowercase(trimmed(value))
}

/// What the placeholder check returns for the value `value` of the variable
/// `var_name`.
pub open spec fn checked_value(value: Seq<char>, var_name: Seq<char>) -> Result<
    (),
    ConfigRejection,
> {
    placeholder_verdict(value, var_name, normalized(value))
}

/// What becomes of the four values read from the environment: the first
/// variable that is not set is reported as missing; else the first value
/// that is a placeholder is refused; else the values make the configuration.
pub open spec fn config_verdict(
    api_address: Option<Seq<char>>,
    repository: Option<Seq<char>>,
    username: Option<Seq<char>>,
    password: Option<Seq<char>>,
) -> Result<(Seq<char>, Seq<char>, Seq<char>, Seq<char>), ConfigRejection> {
    if api_address is None {
        Err(ConfigRejection::MissingEnvVar(API_ADDRESS_VAR@))
    } else if repository is None {
        Err(ConfigRejection::MissingEnvVar(REPOSITORY_VAR@))
    } else if username is None {
        Err(ConfigRejection::MissingEnvVar(USERNAME_VAR@))
    } else if password is None {
        Err(ConfigRejection::MissingEnvVar(PASSWORD_VAR@))
    } else if checked_value(api_address->0, API_ADDRESS_VAR@) is Err {
        Err(checked_value(api_address->0, API_ADDRESS_VAR@)->Err_0)
    } else if checked_value(repository->0, REPOSITORY_VAR@) is Err {
        Err(checked_value(repository->0, REPOSITORY_VAR@)->Err_0)
    } else if checked_value(username->0, USERNAME_VAR@) is Err {
        Err(checked_value(username->0, USERNAME_VAR@)->Err_0)
    } else if checked_value(password->0, PASSWORD_VAR@) is Err {
        Err(checked_value(password->0, PASSWORD_VAR@)->Err_0)
    } else {
        Ok((api_address->0, repository->0, username->0, password->0))
    }
}

/// The text of an optional string.
pub open spec fn text_of(value: Option<String>) -> Option<Seq<char>> {
    match value {
        Some(s) => Some(s@),
        None => None,
    }
}

impl Config {
    /// The four settings as a tuple of texts.
    pub open spec fn settings(self) -> (Seq<char>, Seq<char>, Seq<char>, Seq<char>) {
        (self.api_address@, self.repository@, self.username@, self.password@)
    }

    /// Checks a value against the placeholders, given its normalised form.
    pub fn check_normalized(value: &str, var_name: &str, normalized: &str) -> (r: Result<
        (),
        ConfigError,
    >)
        ensures
            match r {
                Ok(_) => placeholder_verdict(value@, var_name@, normalized@) is Ok,
                Err(e) => placeholder_verdict(value@, var_name@, normalized@) == Err::<
                    (),
                    ConfigRejection,
                >(e@),
            },
    {
        let chars = chars_of(normalized);
        if is_text(&chars, "your-server.laserfiche.com") || is_text(&chars, "your-repository")
            || is_text(&chars, "username") || is_text(&chars, "password") || is_text(
            &chars,
            "placeholder",
        ) || is_text(&chars, "default") || is_text(&chars, "example") || is_text(&chars, "test")
            || is_text(&chars, "") {
            let mut reason = String::from_str(var_name);
            reason.append(" contains a placeholder or default value: '");
            reason.append(value);
            reason.append("'");
            return Err(ConfigError::InvalidValue(reason));
        }
        let your = chars_of("your-");
        let example = chars_of("example");
        let placeholder = chars_of("placeholder");
        if contains_infix(&chars, &your) || contains_infix(&chars, &example) || contains_infix(
            &chars,
            &placeholder,
        ) {
            let mut reason = String::from_str(var_name);
            reason.append(" appears to contain a placeholder value: '");
            reason.append(value);
            reason.append("'");
            return Err(ConfigError::InvalidValue(reason));
        }
        Ok(())
    }

    /// Refuses a value that is a placeholder of the documentation, is empty,
    /// or holds `your-`, `example` or `placeholder`. The value is compared
    /// trimmed and in lower case; the error names the variable and quotes the
    /// value as given.
    pub fn validate_not_placeholder(value: &str, var_name: &str) -> (r: Result<(), ConfigError>)
        ensures
            match r {
                Ok(_) => checked_value(value@, var_name@) is Ok,
                Err(e) => checked_value(value@, var_name@) == Err::<(), ConfigRejection>(e@),
            },
    {
        let lowered = to_lowercase(trim(value));
        Config::check_normalized(value, var_name, lowered.as_str())
    }

    /// Builds the configuration from the values of the four variables as
    /// they were read from the environment, `None` standing for a variable
    /// that is not set.
    pub fn from_env(
        api_address: Option<String>,
        repository: Option<String>,
        username: Option<String>,
        password: Option<String>,
    ) -> (r: Result<Config, ConfigError>)
        ensures
            match r {
                Ok(config) => config_verdict(
                    text_of(api_address),
                    text_of(repository),
                    text_of(username),
                    text_of(password),
                ) == Ok::<(Seq<char>, Seq<char>, Seq<char>, Seq<char>), ConfigRejection>(
                    config.settings(),
                ),
                Err(e) => config_verdict(
                    text_of(api_address),
                    text_of(repository),
                    text_of(username),
                    text_of(password),
                ) == Err::<(Seq<char>, Seq<char>, Seq<char>, Seq<char>), ConfigRejection>(e@),
            },
    {
        let api_address = match api_address {
            Some(value) => value,
            None => {
                return Err(ConfigError::MissingEnvVar(String::from_str(API_ADDRESS_VAR)));
            },
        };
        let repository = match repository {
            Some(value) => value,
            None => {
                return Err(ConfigError::MissingEnvVar(String::from_str(REPOSITORY_VAR)));
            },
        };
        let username = match username {
            Some(value) => value,
            None => {
                return Err(ConfigError::MissingEnvVar(String::from_str(USERNAME_VAR)));
            },
        };
        let password = match password {
            Some(value) => value,
            None => {
                return Err(ConfigError::MissingEnvVar(String::from_str(PASSWORD_VAR)));
            },
        };
        match Config::validate_not_placeholder(api_address.as_str(), API_ADDRESS_VAR) {
            Err(e) => {
                return Err(e);
            },
            Ok(_) => {},
        }
        match Config::validate_not_placeholder(repository.as_str(), REPOSITORY_VAR) {
            Err(e) => {
                return Err(e);
            },
            Ok(_) => {},
        }
        match Config::validate_not_placeholder(username.as_str(), USERNAME_VAR) {
            Err(e) => {
                return Err(e);
            },
            Ok(_) => {},
        }
        match Config::validate_not_placeholder(password.as_str(), PASSWORD_VAR) {
            Err(e) => {
                return Err(e);
            },
            Ok(_) => {},
        }
        Ok(Config { api_address, repository, username, password })
    }
}

/// A configuration is made only of values that are set and that pass the
/// placeholder check, and it holds them as they were given.
pub proof fn lemma_accepted_config(
    api_address: Option<Seq<char>>,
    repository: Option<Seq<char>>,
    username: Option<Seq<char>>,
    password: Option<Seq<char>>,
)
    requires
        config_verdict(api_address, repository, username, password) is Ok,
    ensures
        api_address is Some && checked_value(api_address->0, API_ADDRESS_VAR@) is Ok,
        repository is Some && checked_value(repository->0, REPOSITORY_VAR@) is Ok,
        username is Some && checked_value(username->0, USERNAME_VAR@) is Ok,
        password is Some && checked_value(password->0, PASSWORD_VAR@) is Ok,
        config_verdict(api_address, repository, username, password)->Ok_0 == (
            api_address->0,
            repository->0,
            username->0,
            password->0,
        ),
{
}

/// A value whose normalised form is empty is refused, whatever the variable.
pub proof fn lemma_blank_value_refused(value: Seq<char>, var_name: Seq<char>)
    requires
        normalized(value).len() == 0,
    ensures
        checked_value(value, var_name) is Err,
{
    reveal_strlit("");
    assert(normalized(value) =~= ""@);
}

} // verus!
