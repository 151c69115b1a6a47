//! The pattern registry: the compiled matchers that the validators share.
//!
//! Matching is done by the `regex` crate. What a pattern matches is not
//! restated here; contracts refer to it through [`regex_is_match`].

use regex::Regex;
use vstd::prelude::*;

verus! {

/// Case-insensitive SQL keywords, plus `--`, `;`, `'`, NUL, line feed,
/// carriage return and SUB.
pub const SQL_INJECTION_PATTERN: &'static str =
    r"(?i)(SELECT|INSERT|UPDATE|DELETE|DROP|CREATE|ALTER|EXEC|EXECUTE|UNION|--|;|'|\x00|\n|\r|\x1a)";

/// Case-insensitive script openers, event-handler attributes and common
/// browser-object accesses.
pub const SCRIPT_INJECTION_PATTERN: &'static str =
    r"(?i)(<script|javascript:|on\w+\s*=|eval\(|alert\(|document\.|window\.)";

/// A letter or digit, then up to 63 letters, digits, hyphens or underscores.
pub const REPOSITORY_NAME_PATTERN: &'static str = r"^[a-zA-Z0-9][a-zA-Z0-9\-_]{0,63}$";

/// A letter, then up to 127 letters, digits, underscores, hyphens or
/// whitespace characters.
pub const FIELD_NAME_PATTERN: &'static str = r"^[a-zA-Z][a-zA-Z0-9_\-\s]{0,127}$";

/// Letters, digits, hyphens and dots, beginning and ending with a letter or
/// digit.
pub const SERVER_ADDRESS_PATTERN: &'static str = r"^[a-zA-Z0-9][a-zA-Z0-9\-\.]{0,251}[a-zA-Z0-9]$";

/// `regex::Regex`, a compiled regular expression. Opaque: proofs know
/// nothing of what is inside.
#[verifier::external_type_specification]
#[verifier::external_body]
pub struct ExRegex(regex::Regex);

/// Whether `regex::Regex::new` accepts `pattern`.
pub uninterp spec fn regex_compiles(pattern: Seq<char>) -> bool;

/// Whether the regular expression `pattern` has a match anywhere in `text`,
/// as `regex::Regex::is_match` decides it.
pub uninterp spec fn regex_is_match(pattern: Seq<char>, text: Seq<char>) -> bool;

/// A compiled regular expression together with the pattern it was compiled
/// from. The view of a matcher is that pattern. A matcher is made by
/// [`Matcher::compile`] alone, so the two always belong together.
pub struct Matcher {
    pattern: String,
    regex: Regex,
}

impl View for Matcher {
    type V = Seq<char>;

    closed spec fn view(&self) -> Seq<char> {
        self.pattern@
    }
}

impl Matcher {
    /// Calls `regex::Regex::new`. Trusted: the call succeeds exactly on the
    /// patterns for which [`regex_compiles`] holds, and the matcher returned
    /// remembers the pattern it was given.
    #[verifier::external_body]
    pub(crate) fn compile(pattern: &str) -> (r: Option<Matcher>)
        ensures
            r is Some <==> regex_compiles(pattern@),
            r matches Some(m) ==> m@ == pattern@,
    {
        match Regex::new(pattern) {
            Ok(regex) => Some(Matcher { pattern: pattern.to_string(), regex }),
            Err(_) => None,
        }
    }

    /// Calls `regex::Regex::is_match`. Trusted: the answer depends on the
    /// pattern and the text alone, and is what [`regex_is_match`] names.
    #[verifier::external_body]
    pub(crate) fn is_match(&self, text: &str) -> (b: bool)
        ensures
            b == regex_is_match(self@, text@),
    {
        self.regex.is_match(text)
    }
}

/// The five matchers used by the validators, compiled once.
pub struct PatternRegistry {
    sql_injection: Matcher,
    script_injection: Matcher,
    repository_name: Matcher,
    field_name: Matcher,
    server_address: Matcher,
}

/// Whether every pattern of the registry compiles.
pub open spec fn patterns_compile() -> bool {
    &&& regex_compiles(SQL_INJECTION_PATTERN@)
    &&& regex_compiles(SCRIPT_INJECTION_PATTERN@)
    &&& regex_compiles(REPOSITORY_NAME_PATTERN@)
    &&& regex_compiles(FIELD_NAME_PATTERN@)
    &&& regex_compiles(SERVER_ADDRESS_PATTERN@)
}

/// Whether `text` holds an SQL keyword or metacharacter.
pub open spec fn is_sql_injection(text: Seq<char>) -> bool {
    regex_is_match(SQL_INJECTION_PATTERN@, text)
}

/// Whether `text` holds script or event-handler syntax.
pub open spec fn is_script_injection(text: Seq<char>) -> bool {
    regex_is_match(SCRIPT_INJECTION_PATTERN@, text)
}

/// Whether `text` has the shape of a repository name.
pub open spec fn is_repository_name_shape(text: Seq<char>) -> bool {
    regex_is_match(REPOSITORY_NAME_PATTERN@, text)
}

/// Whether `text` has the shape of a field name.
pub open spec fn is_field_name_shape(text: Seq<char>) -> bool {
    regex_is_match(FIELD_NAME_PATTERN@, text)
}

/// Whether `text` has the shape of a host name.
pub open spec fn is_server_address_shape(text: Seq<char>) -> bool {
    regex_is_match(SERVER_ADDRESS_PATTERN@, text)
}

impl PatternRegistry {
    #[verifier::type_invariant]
    spec fn holds_its_patterns(self) -> bool {
        &&& self.sql_injection@ == SQL_INJECTION_PATTERN@
        &&& self.script_injection@ == SCRIPT_INJECTION_PATTERN@
        &&& self.repository_name@ == REPOSITORY_NAME_PATTERN@
        &&& self.field_name@ == FIELD_NAME_PATTERN@
        &&& self.server_address@ == SERVER_ADDRESS_PATTERN@
    }

    /// Compiles the five patterns. `None` means that one of them was refused,
    /// which is a defect of the build and not of any input.
    pub fn new() -> (r: Option<PatternRegistry>)
        ensures
            r is Some <==> patterns_compile(),
    {
        let sql_injection = match Matcher::compile(SQL_INJECTION_PATTERN) {
            Some(m) => m,
            None => {
                return None;
            },
        };
        let script_injection = match Matcher::compile(SCRIPT_INJECTION_PATTERN) {
            Some(m) => m,
            None => {
                return None;
            },
        };
        let repository_name = match Matcher::compile(REPOSITORY_NAME_PATTERN) {
            Some(m) => m,
            None => {
                return None;
            },
        };
        let field_name = match Matcher::compile(FIELD_NAME_PATTERN) {
            Some(m) => m,
            None => {
                return None;
            },
        };
        let server_address = match Matcher::compile(SERVER_ADDRESS_PATTERN) {
            Some(m) => m,
            None => {
                return None;
            },
        };
        Some(
            PatternRegistry {
                sql_injection,
                script_injection,
                repository_name,
                field_name,
                server_address,
            },
        )
    }

    /// Whether `text` holds an SQL keyword or metacharacter.
    pub fn matches_sql_injection(&self, text: &str) -> (b: bool)
        ensures
            b == is_sql_injection(text@),
    {
        proof {
            use_type_invariant(self);
        }
        self.sql_injection.is_match(text)
    }

    /// Whether `text` holds script or event-handler syntax.
    pub fn matches_script_injection(&self, text: &str) -> (b: bool)
        ensures
            b == is_script_injection(text@),
    {
        proof {
            use_type_invariant(self);
        }
        self.script_injection.is_match(text)
    }

    /// Whether `text` has the shape of a repository name.
    pub fn matches_repository_name(&self, text: &str) -> (b: bool)
        ensures
            b == is_repository_name_shape(text@),
    {
        proof {
            use_type_invariant(self);
        }
        self.repository_name.is_match(text)
    }

    /// Whether `text` has the shape of a field name.
    pub fn matches_field_name(&self, text: &str) -> (b: bool)
        ensures
            b == is_field_name_shape(text@),
    {
        proof {
            use_type_invariant(self);
        }
        self.field_name.is_match(text)
    }

    /// Whether `text` has the shape of a host name.
    pub fn matches_server_address(&self, text: &str) -> (b: bool)
        ensures
            b == is_server_address_shape(text@),
    {
        proof {
            use_type_invariant(self);
        }
        self.server_address.is_match(text)
    }
}

} // verus!
