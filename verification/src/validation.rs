//! Validation and sanitisation of caller-supplied values.
//!
//! Every validator is a pure function from an untrusted value to either the
//! validated value or one classified [`ValidationError`]. A validator fails
//! on the first rule that the value breaks.

use crate::json::{
    items_view, lemma_array_view, lemma_object_view, members_view, JsonValue, JsonView,
};
use crate::patterns::{
    is_field_name_shape, is_repository_name_shape, is_script_injection, is_server_address_shape,
    is_sql_injection, PatternRegistry,
};
use crate::text::{
    append_decimal, append_signed_decimal, byte_length, chars_of, contains_char, contains_infix,
    decimal, has_infix, lemma_utf8_len_push, same_chars, same_text, signed_decimal, split_on,
    starts_with, to_uppercase, uppercase, utf8_len, width_of,
};
use std::path::PathBuf;
use vstd::prelude::*;

pub mod laws;

verus! {

/// Largest accepted file size: 100 MiB.
pub const MAX_FILE_SIZE: u64 = 100 * 1024 * 1024;

/// Largest accepted length of a field value, in bytes: 10 KiB.
pub const MAX_FIELD_VALUE_LENGTH: usize = 10 * 1024;

/// Largest accepted entry identifier: half of the `i64` range, so that an
/// identifier can be combined arithmetically without overflow.
pub const MAX_ENTRY_ID: i64 = 0x3fff_ffff_ffff_ffff;

/// Why a value was refused. Each kind carries the offending value.
#[derive(Debug, Clone)]
pub enum ValidationError {
    InvalidEntryId(i64),
    InvalidFilePath(String),
    PathTraversalAttempt(String),
    InvalidRepositoryName(String),
    InvalidUrl(String),
    InsecureUrl(String),
    InvalidFieldName(String),
    InvalidFieldValue(String),
    SqlInjectionAttempt(String),
    ScriptInjectionAttempt(String),
    FileSizeTooLarge(u64, u64),
    InvalidFileName(String),
}

/// The mathematical form of a [`ValidationError`]: text as character
/// sequences.
pub enum Rejection {
    InvalidEntryId(i64),
    InvalidFilePath(Seq<char>),
    PathTraversalAttempt(Seq<char>),
    InvalidRepositoryName(Seq<char>),
    InvalidUrl(Seq<char>),
    InsecureUrl(Seq<char>),
    InvalidFieldName(Seq<char>),
    InvalidFieldValue(Seq<char>),
    SqlInjectionAttempt(Seq<char>),
    ScriptInjectionAttempt(Seq<char>),
    FileSizeTooLarge(u64, u64),
    InvalidFileName(Seq<char>),
}

impl View for ValidationError {
    type V = Rejection;

    open spec fn view(&self) -> Rejection {
        match self {
            ValidationError::InvalidEntryId(id) => Rejection::InvalidEntryId(*id),
            ValidationError::InvalidFilePath(path) => Rejection::InvalidFilePath(path@),
            ValidationError::PathTraversalAttempt(path) => Rejection::PathTraversalAttempt(path@),
            ValidationError::InvalidRepositoryName(name) => Rejection::InvalidRepositoryName(
                name@,
            ),
            ValidationError::InvalidUrl(url) => Rejection::InvalidUrl(url@),
            ValidationError::InsecureUrl(url) => Rejection::InsecureUrl(url@),
            ValidationError::InvalidFieldName(name) => Rejection::InvalidFieldName(name@),
            ValidationError::InvalidFieldValue(value) => Rejection::InvalidFieldValue(value@),
            ValidationError::SqlInjectionAttempt(input) => Rejection::SqlInjectionAttempt(input@),
            ValidationError::ScriptInjectionAttempt(input) => Rejection::ScriptInjectionAttempt(
                input@,
            ),
            ValidationError::FileSizeTooLarge(size, max) => Rejection::FileSizeTooLarge(
                *size,
                *max,
            ),
            ValidationError::InvalidFileName(name) => Rejection::InvalidFileName(name@),
        }
    }
}

impl Rejection {
    /// The message shown to the user for this rejection.
    pub open spec fn message(self) -> Seq<char> {
        match self {
            Rejection::InvalidEntryId(id) => "Invalid entry ID: "@ + signed_decimal(id as int)
                + ". Entry IDs must be positive integers."@,
            Rejection::InvalidFilePath(path) => "Invalid file path: "@ + path
                + ". Path contains invalid characters or path traversal attempts."@,
            Rejection::PathTraversalAttempt(path) => "Path traversal attempt detected in: "@
                + path,
            Rejection::InvalidRepositoryName(name) => "Invalid repository name: "@ + name
                + ". Repository names must be alphanumeric with hyphens or underscores, 1-64 characters."@,
            Rejection::InvalidUrl(url) => "Invalid URL: "@ + url,
            Rejection::InsecureUrl(url) => "Insecure URL: "@ + url
                + ". HTTPS is required for API endpoints."@,
            Rejection::InvalidFieldName(name) => "Invalid field name: "@ + name
                + ". Field names must start with a letter and contain only alphanumeric characters, underscores, hyphens, or spaces."@,
            Rejection::InvalidFieldValue(_) => "Invalid field value: contains potentially malicious content"@,
            Rejection::SqlInjectionAttempt(_) => "SQL injection pattern detected in input"@,
            Rejection::ScriptInjectionAttempt(_) => "Script injection pattern detected in input"@,
            Rejection::FileSizeTooLarge(size, max) => "File size "@ + decimal(size as nat)
                + " bytes exceeds maximum allowed size of "@ + decimal(max as nat) + " bytes"@,
            Rejection::InvalidFileName(name) => "Invalid file name: "@ + name,
        }
    }
}

impl ValidationError {
    /// The message shown to the user for this error.
    pub fn to_string(&self) -> (s: String)
        ensures
            s@ == self@.message(),
    {
        match self {
            ValidationError::InvalidEntryId(id) => {
                let mut s = String::from_str("Invalid entry ID: ");
                append_signed_decimal(&mut s, *id);
                s.append(". Entry IDs must be positive integers.");
                s
            },
            ValidationError::InvalidFilePath(path) => {
                let mut s = String::from_str("Invalid file path: ");
                s.append(path.as_str());
                s.append(". Path contains invalid characters or path traversal attempts.");
                s
            },
            ValidationError::PathTraversalAttempt(path) => {
                let mut s = String::from_str("Path traversal attempt detected in: ");
                s.append(path.as_str());
                s
            },
            ValidationError::InvalidRepositoryName(name) => {
                let mut s = String::from_str("Invalid repository name: ");
                s.append(name.as_str());
                s.append(
                    ". Repository names must be alphanumeric with hyphens or underscores, 1-64 characters.",
                );
                s
            },
            ValidationError::InvalidUrl(url) => {
                let mut s = String::from_str("Invalid URL: ");
                s.append(url.as_str());
                s
            },
            ValidationError::InsecureUrl(url) => {
                let mut s = String::from_str("Insecure URL: ");
                s.append(url.as_str());
                s.append(". HTTPS is required for API endpoints.");
                s
            },
            ValidationError::InvalidFieldName(name) => {
                let mut s = String::from_str("Invalid field name: ");
                s.append(name.as_str());
                s.append(
                    ". Field names must start with a letter and contain only alphanumeric characters, underscores, hyphens, or spaces.",
                );
                s
            },
            ValidationError::InvalidFieldValue(_) => String::from_str(
                "Invalid field value: contains potentially malicious content",
            ),
            ValidationError::SqlInjectionAttempt(_) => String::from_str(
                "SQL injection pattern detected in input",
            ),
            ValidationError::ScriptInjectionAttempt(_) => String::from_str(
                "Script injection pattern detected in input",
            ),
            ValidationError::FileSizeTooLarge(size, max) => {
                let mut s = String::from_str("File size ");
                append_decimal(&mut s, *size);
                s.append(" bytes exceeds maximum allowed size of ");
                append_decimal(&mut s, *max);
                s.append(" bytes");
                s
            },
            ValidationError::InvalidFileName(name) => {
                let mut s = String::from_str("Invalid file name: ");
                s.append(name.as_str());
                s
            },
        }
    }
}

/// The outcome of a validator that returns text, in mathematical form.
pub open spec fn text_outcome(r: Result<String, ValidationError>) -> Result<Seq<char>, Rejection> {
    match r {
        Ok(s) => Ok(s@),
        Err(e) => Err(e@),
    }
}

/// What entry-identifier validation returns for `id`.
pub open spec fn validated_entry_id(id: i64) -> Result<i64, Rejection> {
    if 1 <= id <= i64::MAX / 2 {
        Ok(id)
    } else {
        Err(Rejection::InvalidEntryId(id))
    }
}

/// What file-size validation returns for `size`.
pub open spec fn validated_file_size(size: u64) -> Result<u64, Rejection> {
    if size <= MAX_FILE_SIZE {
        Ok(size)
    } else {
        Err(Rejection::FileSizeTooLarge(size, MAX_FILE_SIZE))
    }
}

/// The outcome of a validator that returns an entry identifier, in
/// mathematical form.
pub open spec fn id_outcome(r: Result<i64, ValidationError>) -> Result<i64, Rejection> {
    match r {
        Ok(id) => Ok(id),
        Err(e) => Err(e@),
    }
}

/// The outcome of a validator that returns a size, in mathematical form.
pub open spec fn size_outcome(r: Result<u64, ValidationError>) -> Result<u64, Rejection> {
    match r {
        Ok(size) => Ok(size),
        Err(e) => Err(e@),
    }
}

/// Accepts the identifiers from 1 to [`MAX_ENTRY_ID`], which is half of
/// `i64::MAX`, and returns them unchanged; every other identifier is refused
/// as `InvalidEntryId`.
pub fn validate_entry_id(id: i64) -> (r: Result<i64, ValidationError>)
    ensures
        id_outcome(r) == validated_entry_id(id),
        1 <= id <= i64::MAX / 2 ==> r == Ok::<i64, ValidationError>(id),
        id <= 0 || id > i64::MAX / 2 ==> r == Err::<i64, ValidationError>(
            ValidationError::InvalidEntryId(id),
        ),
{
    if id <= 0 {
        return Err(ValidationError::InvalidEntryId(id));
    }
    if id > MAX_ENTRY_ID {
        return Err(ValidationError::InvalidEntryId(id));
    }
    Ok(id)
}

/// Accepts the sizes up to [`MAX_FILE_SIZE`] and returns them unchanged; a
/// larger size is refused as `FileSizeTooLarge`, which carries the size and
/// the ceiling.
pub fn validate_file_size(size: u64) -> (r: Result<u64, ValidationError>)
    ensures
        size_outcome(r) == validated_file_size(size),
        size <= MAX_FILE_SIZE ==> r == Ok::<u64, ValidationError>(size),
        size > MAX_FILE_SIZE ==> r == Err::<u64, ValidationError>(
            ValidationError::FileSizeTooLarge(size, MAX_FILE_SIZE),
        ),
{
    if size > MAX_FILE_SIZE {
        return Err(ValidationError::FileSizeTooLarge(size, MAX_FILE_SIZE));
    }
    Ok(size)
}

/// `std::path::PathBuf`, a path. Opaque: proofs know nothing of what is inside.
#[verifier::external_type_specification]
#[verifier::external_body]
pub struct ExPathBuf(std::path::PathBuf);

/// The two characters `..`, which name a parent directory.
pub open spec fn parent_reference() -> Seq<char> {
    seq!['.', '.']
}

/// The rule that the text of a path breaks, if any: an empty path or one with
/// a NUL is invalid, one with `..` or `~` is a traversal attempt.
pub open spec fn path_syntax_rejection(path: Seq<char>) -> Option<Rejection> {
    if path.len() == 0 {
        Some(Rejection::InvalidFilePath(path))
    } else if path.contains('\0') {
        Some(Rejection::InvalidFilePath(path))
    } else if has_infix(path, parent_reference()) || path.contains('~') {
        Some(Rejection::PathTraversalAttempt(path))
    } else {
        None
    }
}

/// What the file system answered about a path.
pub enum PathProbe {
    /// The path exists: its canonical form, and the text of that form.
    Found { canonical: PathBuf, shown: String },
    /// The path does not resolve: the path as given, and whether its parent
    /// directory exists (`None` when it has no parent).
    Missing { given: PathBuf, parent_exists: Option<bool> },
}

/// What becomes of a path whose text is acceptable, given the answer of the
/// file system: an existing path is returned in canonical form unless that
/// form still holds `..`; a missing path is returned as given if its parent
/// directory exists.
pub open spec fn path_resolution(path: Seq<char>, probe: PathProbe) -> Result<PathBuf, Rejection> {
    match probe {
        PathProbe::Found { canonical, shown } => if has_infix(shown@, parent_reference()) {
            Err(Rejection::PathTraversalAttempt(path))
        } else {
            Ok(canonical)
        },
        PathProbe::Missing { given, parent_exists } => if parent_exists == Some(true) {
            Ok(given)
        } else {
            Err(Rejection::InvalidFilePath(path))
        },
    }
}

/// The outcome of path validation in mathematical form.
pub open spec fn path_outcome(r: Result<PathBuf, ValidationError>) -> Result<PathBuf, Rejection> {
    match r {
        Ok(p) => Ok(p),
        Err(e) => Err(e@),
    }
}

/// A vector holding the two characters `..`.
fn parent_reference_chars() -> (v: Vec<char>)
    ensures
        v@ == parent_reference(),
{
    let mut v: Vec<char> = Vec::new();
    v.push('.');
    v.push('.');
    assert(v@ =~= parent_reference());
    v
}

/// Checks the text of a path without touching the file system.
pub fn check_file_path_syntax(path: &str) -> (r: Result<(), ValidationError>)
    ensures
        match r {
            Ok(_) => path_syntax_rejection(path@) is None,
            Err(e) => path_syntax_rejection(path@) == Some(e@),
        },
{
    let chars = chars_of(path);
    if chars.len() == 0 {
        return Err(ValidationError::InvalidFilePath(path.to_owned()));
    }
    if contains_char(&chars, '\0') {
        return Err(ValidationError::InvalidFilePath(path.to_owned()));
    }
    let dots = parent_reference_chars();
    if contains_infix(&chars, &dots) || contains_char(&chars, '~') {
        return Err(ValidationError::PathTraversalAttempt(path.to_owned()));
    }
    Ok(())
}

/// Decides on a path whose text is acceptable, from what the file system
/// answered about it.
pub fn resolve_file_path(path: &str, probe: PathProbe) -> (r: Result<PathBuf, ValidationError>)
    ensures
        path_outcome(r) == path_resolution(path@, probe),
{
    match probe {
        PathProbe::Found { canonical, shown } => {
            let shown_chars = chars_of(shown.as_str());
            let dots = parent_reference_chars();
            if contains_infix(&shown_chars, &dots) {
                Err(ValidationError::PathTraversalAttempt(path.to_owned()))
            } else {
                Ok(canonical)
            }
        },
        PathProbe::Missing { given, parent_exists } => {
            match parent_exists {
                Some(true) => Ok(given),
                _ => Err(ValidationError::InvalidFilePath(path.to_owned())),
            }
        },
    }
}

/// Calls `std::path::Path::canonicalize`, which resolves a path against the
/// file system. Nothing is promised of the answer.
#[verifier::external_body]
fn canonical_form(path: &str) -> Option<PathBuf> {
    std::path::Path::new(path).canonicalize().ok()
}

/// Calls `std::path::Path::to_string_lossy`. Nothing is promised of the text.
#[verifier::external_body]
fn shown_form(path: &PathBuf) -> String {
    path.to_string_lossy().into_owned()
}

/// Calls `std::path::Path::parent`.
#[verifier::external_body]
fn parent_of(path: &PathBuf) -> Option<PathBuf> {
    match path.parent() {
        Some(parent) => Some(parent.to_path_buf()),
        None => None,
    }
}

/// Calls `std::path::Path::exists`, which asks the file system. Nothing is
/// promised of the answer.
#[verifier::external_body]
fn exists_on_disk(path: &PathBuf) -> bool {
    path.exists()
}

/// Asks the file system about `path`.
///
/// Where the path resolves, the probe holds its canonical form and the text
/// of that form. Where it does not, the probe holds the path made of the
/// text as it was given, and whether the parent directory of that path
/// exists. What the file system answers is not known beforehand; the path
/// that a missing file is reported under is.
fn probe_file_path(path: &str) -> (probe: PathProbe)
    ensures
        is_probe_of(path@, probe),
{
    match canonical_form(path) {
        Some(canonical) => {
            let shown = shown_form(&canonical);
            PathProbe::Found { canonical, shown }
        },
        None => {
            let given = path_of(path);
            let parent_exists = match parent_of(&given) {
                Some(parent) => Some(exists_on_disk(&parent)),
                None => None,
            };
            PathProbe::Missing { given, parent_exists }
        },
    }
}

/// The path that `std::path::PathBuf::from` makes of `text`: the same text,
/// held as a path.
pub uninterp spec fn path_buf_of(text: Seq<char>) -> PathBuf;

/// Calls `std::path::PathBuf::from` on the text of a path. Trusted: the
/// result depends on the text alone and is what [`path_buf_of`] names.
#[verifier::external_body]
fn path_of(path: &str) -> (r: PathBuf)
    ensures
        r == path_buf_of(path@),
{
    PathBuf::from(path)
}

/// Whether `probe` can be the answer of the file system about the path with
/// the text `path`: a probe of a missing path holds the path made of that
/// text. Everything else in a probe is for the file system to say.
pub open spec fn is_probe_of(path: Seq<char>, probe: PathProbe) -> bool {
    probe matches PathProbe::Missing { given, .. } ==> given == path_buf_of(path)
}

/// Validates a file path and resolves it against the file system.
///
/// A path whose text breaks a rule is refused before the file system is
/// asked: an empty path or one with a NUL as `InvalidFilePath`, one with `..`
/// or `~` as `PathTraversalAttempt`. In particular every path without NUL
/// that holds `..` or begins with `~` is refused as a traversal attempt,
/// whether it exists or not. Any other path is decided by
/// [`path_resolution`] on what the file system answered; a path that does
/// not exist yet, but whose parent directory does, comes back as the path
/// made of the text that was given.
pub fn validate_file_path(path: &str) -> (r: Result<PathBuf, ValidationError>)
    ensures
        path_syntax_rejection(path@) matches Some(rejection) ==> path_outcome(r) == Err::<
            PathBuf,
            Rejection,
        >(rejection),
        path_syntax_rejection(path@) is None ==> exists|probe: PathProbe|
            is_probe_of(path@, probe) && path_outcome(r) == #[trigger] path_resolution(
                path@,
                probe,
            ),
        !path@.contains('\0') && (has_infix(path@, parent_reference()) || (path@.len() > 0
            && path@[0] == '~')) ==> path_outcome(r) == Err::<PathBuf, Rejection>(
            Rejection::PathTraversalAttempt(path@),
        ),
{
    match check_file_path_syntax(path) {
        Err(e) => {
            return Err(e);
        },
        Ok(_) => {},
    }
    let probe = probe_file_path(path);
    let r = resolve_file_path(path, probe);
    r
}

/// The platform whose file-name rules apply.
#[derive(Clone, Copy, Debug, PartialEq, Eq)]
pub enum Platform {
    /// Windows: some characters and the device names are refused.
    Windows,
    /// Any other platform: only the portable rules apply.
    Posix,
}

/// Largest accepted length of a file name, in bytes.
pub const MAX_FILE_NAME_LENGTH: usize = 255;

/// The characters that a Windows file name cannot hold.
pub open spec fn is_windows_reserved_char(c: char) -> bool {
    c == '<' || c == '>' || c == ':' || c == '"' || c == '|' || c == '?' || c == '*'
}

/// The device names that Windows reserves.
pub open spec fn windows_device_names() -> Seq<Seq<char>> {
    seq![
        "CON"@,
        "PRN"@,
        "AUX"@,
        "NUL"@,
        "COM1"@,
        "COM2"@,
        "COM3"@,
        "COM4"@,
        "COM5"@,
        "COM6"@,
        "COM7"@,
        "COM8"@,
        "COM9"@,
        "LPT1"@,
        "LPT2"@,
        "LPT3"@,
        "LPT4"@,
        "LPT5"@,
        "LPT6"@,
        "LPT7"@,
        "LPT8"@,
        "LPT9"@,
    ]
}

/// `upper` is the device name `device`, alone or followed by an extension.
pub open spec fn names_device(upper: Seq<char>, device: Seq<char>) -> bool {
    upper == device || (device + seq!['.']).is_prefix_of(upper)
}

/// `upper`, a file name in upper case, is a reserved device name, alone or
/// followed by an extension.
pub open spec fn is_windows_device_name(upper: Seq<char>) -> bool {
    exists|i: int|
        0 <= i < windows_device_names().len() && names_device(
            upper,
            #[trigger] windows_device_names()[i],
        )
}

/// The rules that hold on every platform: the name is not empty, takes at
/// most 255 bytes, and holds no NUL, no `..` and no path separator.
pub open spec fn is_portable_file_name(name: Seq<char>) -> bool {
    &&& name.len() > 0
    &&& utf8_len(name) <= MAX_FILE_NAME_LENGTH
    &&& !name.contains('\0')
    &&& !has_infix(name, parent_reference())
    &&& !name.contains('/')
    &&& !name.contains('\\')
}

/// The further rules of Windows, on a name and its upper-case form.
pub open spec fn is_windows_file_name(name: Seq<char>, upper: Seq<char>) -> bool {
    &&& forall|i: int| 0 <= i < name.len() ==> !is_windows_reserved_char(#[trigger] name[i])
    &&& !is_windows_device_name(upper)
}

/// What file-name validation returns for `name` on `platform`, where `upper`
/// is the upper-case form of the name.
pub open spec fn file_name_verdict(name: Seq<char>, platform: Platform, upper: Seq<char>) -> Result<
    Seq<char>,
    Rejection,
> {
    if is_portable_file_name(name) && (platform is Windows ==> is_windows_file_name(name, upper)) {
        Ok(name)
    } else {
        Err(Rejection::InvalidFileName(name))
    }
}

/// What file-name validation returns for `name` on `platform`.
pub open spec fn validated_file_name(name: Seq<char>, platform: Platform) -> Result<
    Seq<char>,
    Rejection,
> {
    file_name_verdict(name, platform, uppercase(name))
}

/// The reserved device names as character vectors.
fn windows_device_name_chars() -> (names: Vec<Vec<char>>)
    ensures
        names@.len() == windows_device_names().len(),
        forall|i: int| 0 <= i < names@.len() ==> (#[trigger] names@[i])@ == windows_device_names()[i],
{
    let mut names: Vec<Vec<char>> = Vec::new();
    names.push(chars_of("CON"));
    names.push(chars_of("PRN"));
    names.push(chars_of("AUX"));
    names.push(chars_of("NUL"));
    names.push(chars_of("COM1"));
    names.push(chars_of("COM2"));
    names.push(chars_of("COM3"));
    names.push(chars_of("COM4"));
    names.push(chars_of("COM5"));
    names.push(chars_of("COM6"));
    names.push(chars_of("COM7"));
    names.push(chars_of("COM8"));
    names.push(chars_of("COM9"));
    names.push(chars_of("LPT1"));
    names.push(chars_of("LPT2"));
    names.push(chars_of("LPT3"));
    names.push(chars_of("LPT4"));
    names.push(chars_of("LPT5"));
    names.push(chars_of("LPT6"));
    names.push(chars_of("LPT7"));
    names.push(chars_of("LPT8"));
    names.push(chars_of("LPT9"));
    names
}

/// Whether `upper` is a reserved device name, alone or with an extension.
fn check_windows_device_name(upper: &Vec<char>) -> (b: bool)
    ensures
        b == is_windows_device_name(upper@),
{
    let names = windows_device_name_chars();
    let mut i: usize = 0;
    while i < names.len()
        invariant
            i <= names.len(),
            names@.len() == windows_device_names().len(),
            forall|k: int|
                0 <= k < names@.len() ==> (#[trigger] names@[k])@ == windows_device_names()[k],
            forall|k: int| 0 <= k < i ==> !names_device(upper@, #[trigger] windows_device_names()[k]),
        decreases names.len() - i,
    {
        let mut with_dot: Vec<char> = names[i].clone();
        with_dot.push('.');
        assert(with_dot@ =~= windows_device_names()[i as int] + seq!['.']);
        if same_chars(upper, &names[i]) || starts_with(upper, &with_dot) {
            assert(names_device(upper@, windows_device_names()[i as int]));
            return true;
        }
        i += 1;
    }
    false
}

/// Whether `name` holds a character that Windows refuses.
fn has_windows_reserved_char(name: &Vec<char>) -> (b: bool)
    ensures
        b == exists|i: int| 0 <= i < name@.len() && is_windows_reserved_char(#[trigger] name@[i]),
{
    let mut i: usize = 0;
    while i < name.len()
        invariant
            i <= name.len(),
            forall|k: int| 0 <= k < i ==> !is_windows_reserved_char(#[trigger] name@[k]),
        decreases name.len() - i,
    {
        let c = name[i];
        if c == '<' || c == '>' || c == ':' || c == '"' || c == '|' || c == '?' || c == '*' {
            return true;
        }
        i += 1;
    }
    false
}

/// Validates a file name, given its upper-case form.
pub fn decide_file_name(name: &str, platform: Platform, upper: &str) -> (r: Result<
    String,
    ValidationError,
>)
    ensures
        text_outcome(r) == file_name_verdict(name@, platform, upper@),
{
    let chars = chars_of(name);
    if chars.len() == 0 {
        return Err(ValidationError::InvalidFileName(name.to_owned()));
    }
    if byte_length(name) > MAX_FILE_NAME_LENGTH {
        return Err(ValidationError::InvalidFileName(name.to_owned()));
    }
    if contains_char(&chars, '\0') {
        return Err(ValidationError::InvalidFileName(name.to_owned()));
    }
    let dots = parent_reference_chars();
    if contains_infix(&chars, &dots) || contains_char(&chars, '/') || contains_char(&chars, '\\') {
        return Err(ValidationError::InvalidFileName(name.to_owned()));
    }
    match platform {
        Platform::Windows => {
            if has_windows_reserved_char(&chars) {
                return Err(ValidationError::InvalidFileName(name.to_owned()));
            }
            let upper_chars = chars_of(upper);
            if check_windows_device_name(&upper_chars) {
                return Err(ValidationError::InvalidFileName(name.to_owned()));
            }
        },
        Platform::Posix => {},
    }
    Ok(name.to_owned())
}

/// Validates a file name for `platform` and returns it unchanged.
///
/// A name is refused as `InvalidFileName` when it is empty, takes more than
/// 255 bytes, or holds a NUL, `..`, `/` or `\`; on Windows also when it holds
/// one of `<>:"|?*` or when its upper-case form is a reserved device name,
/// alone or followed by an extension.
pub fn validate_file_name(name: &str, platform: Platform) -> (r: Result<String, ValidationError>)
    ensures
        text_outcome(r) == validated_file_name(name@, platform),
{
    match platform {
        Platform::Windows => {
            let upper = to_uppercase(name);
            decide_file_name(name, platform, upper.as_str())
        },
        // Only the rules of Windows read the upper-case form.
        Platform::Posix => decide_file_name(name, platform, ""),
    }
}

/// What sanitisation puts in place of one character: a single quote and a
/// backslash are doubled, NUL and SUB are dropped, any other character stays.
pub open spec fn escaped(c: char) -> Seq<char> {
    if c == '\'' {
        seq!['\'', '\'']
    } else if c == '\\' {
        seq!['\\', '\\']
    } else if c == '\0' || c == '\x1a' {
        seq![]
    } else {
        seq![c]
    }
}

/// The sanitised form of a field value: every character replaced by its
/// escaped form, in order.
pub open spec fn sanitized(value: Seq<char>) -> Seq<char>
    decreases value.len(),
{
    if value.len() == 0 {
        seq![]
    } else {
        sanitized(value.drop_last()) + escaped(value.last())
    }
}

/// The payload of the rejection of an over-long field value.
pub open spec fn too_long_notice() -> Seq<char> {
    "Value exceeds maximum length of "@ + decimal(MAX_FIELD_VALUE_LENGTH as nat) + " characters"@
}

/// What field-value validation returns for `value`, where `script` says
/// whether the value holds script or event-handler syntax.
pub open spec fn field_value_verdict(value: Seq<char>, script: bool) -> Result<
    Seq<char>,
    Rejection,
> {
    if utf8_len(value) > MAX_FIELD_VALUE_LENGTH {
        Err(Rejection::InvalidFieldValue(too_long_notice()))
    } else if script {
        Err(Rejection::ScriptInjectionAttempt(value))
    } else {
        Ok(sanitized(value))
    }
}

/// What field-value validation returns for `value`.
pub open spec fn validated_field_value(value: Seq<char>) -> Result<Seq<char>, Rejection> {
    field_value_verdict(value, is_script_injection(value))
}

/// Escapes the characters of `value` one by one.
pub fn sanitize(value: &str) -> (r: String)
    ensures
        r@ == sanitized(value@),
{
    let chars = chars_of(value);
    let mut out = String::new();
    let mut i: usize = 0;
    while i < chars.len()
        invariant
            i <= chars.len(),
            out@ == sanitized(chars@.take(i as int)),
        decreases chars.len() - i,
    {
        let c = chars[i];
        if c == '\'' {
            out.push('\'');
            out.push('\'');
        } else if c == '\\' {
            out.push('\\');
            out.push('\\');
        } else if c == '\0' || c == '\x1a' {
        } else {
            out.push(c);
        }
        proof {
            let next = chars@.take(i + 1);
            assert(next.drop_last() =~= chars@.take(i as int));
            assert(next.last() == c);
            assert(out@ =~= sanitized(chars@.take(i as int)) + escaped(c));
        }
        i += 1;
    }
    assert(chars@.take(chars.len() as int) =~= chars@);
    out
}

/// Validates a field value, given whether it holds script syntax.
pub fn decide_field_value(value: &str, script: bool) -> (r: Result<String, ValidationError>)
    ensures
        text_outcome(r) == field_value_verdict(value@, script),
{
    if byte_length(value) > MAX_FIELD_VALUE_LENGTH {
        let mut notice = String::from_str("Value exceeds maximum length of ");
        append_decimal(&mut notice, MAX_FIELD_VALUE_LENGTH as u64);
        notice.append(" characters");
        return Err(ValidationError::InvalidFieldValue(notice));
    }
    if script {
        return Err(ValidationError::ScriptInjectionAttempt(value.to_owned()));
    }
    Ok(sanitize(value))
}

/// Validates and sanitises a field value.
///
/// A value of more than 10 KiB is refused as `InvalidFieldValue`, one with
/// script or event-handler syntax as `ScriptInjectionAttempt`. Any other
/// value is returned with its single quotes and backslashes doubled and its
/// NUL and SUB characters removed.
pub fn validate_field_value(patterns: &PatternRegistry, value: &str) -> (r: Result<
    String,
    ValidationError,
>)
    ensures
        text_outcome(r) == validated_field_value(value@),
{
    let script = byte_length(value) <= MAX_FIELD_VALUE_LENGTH && patterns.matches_script_injection(
        value,
    );
    decide_field_value(value, script)
}

/// Largest accepted length of a field name, in bytes.
pub const MAX_FIELD_NAME_LENGTH: usize = 128;

/// What field-name validation returns for `name`, given what the three
/// matchers say of it.
pub open spec fn field_name_verdict(name: Seq<char>, sql: bool, script: bool, shaped: bool) -> Result<
    Seq<char>,
    Rejection,
> {
    if name.len() == 0 {
        Err(Rejection::InvalidFieldName(name))
    } else if utf8_len(name) > MAX_FIELD_NAME_LENGTH {
        Err(Rejection::InvalidFieldName(name))
    } else if sql {
        Err(Rejection::SqlInjectionAttempt(name))
    } else if script {
        Err(Rejection::ScriptInjectionAttempt(name))
    } else if !shaped {
        Err(Rejection::InvalidFieldName(name))
    } else {
        Ok(name)
    }
}

/// What field-name validation returns for `name`.
pub open spec fn validated_field_name(name: Seq<char>) -> Result<Seq<char>, Rejection> {
    field_name_verdict(
        name,
        is_sql_injection(name),
        is_script_injection(name),
        is_field_name_shape(name),
    )
}

/// Validates a field name, given what the three matchers say of it.
pub fn decide_field_name(name: &str, sql: bool, script: bool, shaped: bool) -> (r: Result<
    String,
    ValidationError,
>)
    ensures
        text_outcome(r) == field_name_verdict(name@, sql, script, shaped),
{
    if name.is_empty() {
        return Err(ValidationError::InvalidFieldName(name.to_owned()));
    }
    if byte_length(name) > MAX_FIELD_NAME_LENGTH {
        return Err(ValidationError::InvalidFieldName(name.to_owned()));
    }
    if sql {
        return Err(ValidationError::SqlInjectionAttempt(name.to_owned()));
    }
    if script {
        return Err(ValidationError::ScriptInjectionAttempt(name.to_owned()));
    }
    if !shaped {
        return Err(ValidationError::InvalidFieldName(name.to_owned()));
    }
    Ok(name.to_owned())
}

/// Validates a field name and returns it unchanged.
///
/// An empty name or one of more than 128 bytes is refused as
/// `InvalidFieldName`; then a name with an SQL keyword or metacharacter as
/// `SqlInjectionAttempt`; then one with script syntax as
/// `ScriptInjectionAttempt`; then one that does not have the shape of a
/// field name as `InvalidFieldName`.
pub fn validate_field_name(patterns: &PatternRegistry, name: &str) -> (r: Result<
    String,
    ValidationError,
>)
    ensures
        text_outcome(r) == validated_field_name(name@),
{
    let bounded = !name.is_empty() && byte_length(name) <= MAX_FIELD_NAME_LENGTH;
    let sql = bounded && patterns.matches_sql_injection(name);
    let script = bounded && !sql && patterns.matches_script_injection(name);
    let shaped = bounded && !sql && !script && patterns.matches_field_name(name);
    decide_field_name(name, sql, script, shaped)
}

/// Largest accepted length of a repository name, in bytes.
pub const MAX_REPOSITORY_NAME_LENGTH: usize = 64;

/// What repository-name validation returns for `name`, given what the two
/// matchers say of it.
pub open spec fn repository_name_verdict(name: Seq<char>, sql: bool, shaped: bool) -> Result<
    Seq<char>,
    Rejection,
> {
    if name.len() == 0 {
        Err(Rejection::InvalidRepositoryName(name))
    } else if utf8_len(name) > MAX_REPOSITORY_NAME_LENGTH {
        Err(Rejection::InvalidRepositoryName(name))
    } else if sql {
        Err(Rejection::SqlInjectionAttempt(name))
    } else if !shaped {
        Err(Rejection::InvalidRepositoryName(name))
    } else {
        Ok(name)
    }
}

/// What repository-name validation returns for `name`.
pub open spec fn validated_repository_name(name: Seq<char>) -> Result<Seq<char>, Rejection> {
    repository_name_verdict(name, is_sql_injection(name), is_repository_name_shape(name))
}

/// Validates a repository name, given what the two matchers say of it.
pub fn decide_repository_name(name: &str, sql: bool, shaped: bool) -> (r: Result<
    String,
    ValidationError,
>)
    ensures
        text_outcome(r) == repository_name_verdict(name@, sql, shaped),
{
    if name.is_empty() {
        return Err(ValidationError::InvalidRepositoryName(name.to_owned()));
    }
    if byte_length(name) > MAX_REPOSITORY_NAME_LENGTH {
        return Err(ValidationError::InvalidRepositoryName(name.to_owned()));
    }
    if sql {
        return Err(ValidationError::SqlInjectionAttempt(name.to_owned()));
    }
    if !shaped {
        return Err(ValidationError::InvalidRepositoryName(name.to_owned()));
    }
    Ok(name.to_owned())
}

/// Validates a repository name and returns it unchanged.
///
/// An empty name or one of more than 64 bytes is refused as
/// `InvalidRepositoryName`; then a name with an SQL keyword or metacharacter
/// as `SqlInjectionAttempt`; then one that does not have the shape of a
/// repository name as `InvalidRepositoryName`.
pub fn validate_repository_name(patterns: &PatternRegistry, name: &str) -> (r: Result<
    String,
    ValidationError,
>)
    ensures
        text_outcome(r) == validated_repository_name(name@),
{
    let bounded = !name.is_empty() && byte_length(name) <= MAX_REPOSITORY_NAME_LENGTH;
    let sql = bounded && patterns.matches_sql_injection(name);
    let shaped = bounded && !sql && patterns.matches_repository_name(name);
    decide_repository_name(name, sql, shaped)
}

/// What the URL parser found in a well-formed URL.
pub struct UrlParts {
    /// The scheme, in lower case and without the colon.
    pub scheme: String,
    /// Whether the URL names a host.
    pub has_host: bool,
}

/// What `url::Url::parse` makes of `text`: `None` where it refuses the
/// text, else the scheme of the URL and whether it has a host.
pub uninterp spec fn parsed_url(text: Seq<char>) -> Option<(Seq<char>, bool)>;

/// The mathematical form of the answer of the URL parser.
pub open spec fn url_parts_view(parts: Option<UrlParts>) -> Option<(Seq<char>, bool)> {
    match parts {
        Some(p) => Some((p.scheme@, p.has_host)),
        None => None,
    }
}

/// Calls `url::Url::parse`, and `scheme` and `has_host` on the URL it
/// returns. Trusted: the answer depends on the text alone and is what
/// [`parsed_url`] names.
#[verifier::external_body]
fn parse_url(text: &str) -> (r: Option<UrlParts>)
    ensures
        url_parts_view(r) == parsed_url(text@),
{
    match url::Url::parse(text) {
        Ok(url) => Some(UrlParts { scheme: url.scheme().to_string(), has_host: url.has_host() }),
        Err(_) => None,
    }
}

/// What URL validation returns for `url`, given what the parser made of it
/// and whether it holds an SQL keyword or metacharacter.
pub open spec fn api_url_verdict(url: Seq<char>, parsed: Option<(Seq<char>, bool)>, sql: bool) -> Result<
    Seq<char>,
    Rejection,
> {
    if url.len() == 0 {
        Err(Rejection::InvalidUrl(url))
    } else {
        match parsed {
            None => Err(Rejection::InvalidUrl(url)),
            Some((scheme, has_host)) => if scheme != "https"@ {
                Err(Rejection::InsecureUrl(url))
            } else if !has_host {
                Err(Rejection::InvalidUrl(url))
            } else if sql {
                Err(Rejection::SqlInjectionAttempt(url))
            } else {
                Ok(url)
            },
        }
    }
}

/// What URL validation returns for `url`.
pub open spec fn validated_api_url(url: Seq<char>) -> Result<Seq<char>, Rejection> {
    api_url_verdict(url, parsed_url(url), is_sql_injection(url))
}

/// Validates an API URL, given what the parser made of it and whether it
/// holds an SQL keyword or metacharacter.
pub fn decide_api_url(url: &str, parsed: Option<UrlParts>, sql: bool) -> (r: Result<
    String,
    ValidationError,
>)
    ensures
        text_outcome(r) == api_url_verdict(url@, url_parts_view(parsed), sql),
{
    if url.is_empty() {
        return Err(ValidationError::InvalidUrl(url.to_owned()));
    }
    let parts = match parsed {
        Some(parts) => parts,
        None => {
            return Err(ValidationError::InvalidUrl(url.to_owned()));
        },
    };
    if !same_text(parts.scheme.as_str(), "https") {
        return Err(ValidationError::InsecureUrl(url.to_owned()));
    }
    if !parts.has_host {
        return Err(ValidationError::InvalidUrl(url.to_owned()));
    }
    if sql {
        return Err(ValidationError::SqlInjectionAttempt(url.to_owned()));
    }
    Ok(url.to_owned())
}

/// Validates the URL of an API server and returns it unchanged.
///
/// An empty URL or one that the parser refuses is `InvalidUrl`; a scheme
/// other than `https` is `InsecureUrl`; a URL without a host is `InvalidUrl`;
/// one with an SQL keyword or metacharacter is `SqlInjectionAttempt`.
pub fn validate_api_url(patterns: &PatternRegistry, url: &str) -> (r: Result<
    String,
    ValidationError,
>)
    ensures
        text_outcome(r) == validated_api_url(url@),
{
    if url.is_empty() {
        return decide_api_url(url, None, false);
    }
    let parsed = parse_url(url);
    let sql = parsed.is_some() && patterns.matches_sql_injection(url);
    decide_api_url(url, parsed, sql)
}

/// Largest accepted length of a server address, in bytes.
pub const MAX_SERVER_ADDRESS_LENGTH: usize = 253;

/// Largest accepted length of one label of a server address, in bytes.
pub const MAX_HOST_LABEL_LENGTH: usize = 63;

/// A label of a host name: not empty, at most 63 bytes, and neither
/// beginning nor ending with a hyphen.
pub open spec fn is_host_label(label: Seq<char>) -> bool {
    &&& label.len() > 0
    &&& utf8_len(label) <= MAX_HOST_LABEL_LENGTH
    &&& label.first() != '-'
    &&& label.last() != '-'
}

/// Every piece of `address` between dots is a host label.
pub open spec fn has_host_labels(address: Seq<char>) -> bool {
    forall|i: int|
        0 <= i < split_on(address, '.').len() ==> is_host_label(
            #[trigger] split_on(address, '.')[i],
        )
}

/// What server-address validation returns for `address`, given what the
/// two matchers say of it.
pub open spec fn server_address_verdict(address: Seq<char>, sql: bool, shaped: bool) -> Result<
    Seq<char>,
    Rejection,
> {
    if address.len() == 0 {
        Err(Rejection::InvalidUrl(address))
    } else if utf8_len(address) > MAX_SERVER_ADDRESS_LENGTH {
        Err(Rejection::InvalidUrl(address))
    } else if sql {
        Err(Rejection::SqlInjectionAttempt(address))
    } else if !shaped {
        Err(Rejection::InvalidUrl(address))
    } else if !has_host_labels(address) {
        Err(Rejection::InvalidUrl(address))
    } else {
        Ok(address)
    }
}

/// What server-address validation returns for `address`.
pub open spec fn validated_server_address(address: Seq<char>) -> Result<Seq<char>, Rejection> {
    server_address_verdict(address, is_sql_injection(address), is_server_address_shape(address))
}

/// Whether the label that ends before position `end` of `chars`, begins at
/// `start` and takes `bytes` bytes (counted up to 64) is a host label.
fn check_host_label(chars: &Vec<char>, start: usize, end: usize, bytes: usize) -> (b: bool)
    requires
        start <= end <= chars.len(),
        bytes <= MAX_HOST_LABEL_LENGTH ==> bytes == utf8_len(chars@.subrange(start as int, end as int)),
        bytes > MAX_HOST_LABEL_LENGTH ==> utf8_len(chars@.subrange(start as int, end as int))
            > MAX_HOST_LABEL_LENGTH,
    ensures
        b == is_host_label(chars@.subrange(start as int, end as int)),
{
    if end == start {
        return false;
    }
    if bytes > MAX_HOST_LABEL_LENGTH {
        return false;
    }
    let ghost label = chars@.subrange(start as int, end as int);
    assert(label.first() == chars@[start as int]);
    assert(label.last() == chars@[end - 1]);
    chars[start] != '-' && chars[end - 1] != '-'
}

/// Walks the labels of an address.
fn check_host_labels(chars: &Vec<char>) -> (b: bool)
    ensures
        b == has_host_labels(chars@),
{
    let mut ok = true;
    let mut start: usize = 0;
    let mut bytes: usize = 0;
    let mut i: usize = 0;
    let ghost mut done: Seq<Seq<char>> = Seq::empty();
    proof {
        assert(chars@.take(0) =~= Seq::<char>::empty());
        assert(chars@.subrange(0, 0) =~= Seq::<char>::empty());
        assert(split_on(chars@.take(0), '.') =~= done.push(chars@.subrange(0, 0)));
    }
    while i < chars.len()
        invariant
            start <= i <= chars.len(),
            split_on(chars@.take(i as int), '.') == done.push(
                chars@.subrange(start as int, i as int),
            ),
            ok == forall|k: int| 0 <= k < done.len() ==> is_host_label(#[trigger] done[k]),
            bytes <= MAX_HOST_LABEL_LENGTH + 4,
            bytes <= MAX_HOST_LABEL_LENGTH ==> bytes == utf8_len(
                chars@.subrange(start as int, i as int),
            ),
            bytes > MAX_HOST_LABEL_LENGTH ==> utf8_len(chars@.subrange(start as int, i as int))
                > MAX_HOST_LABEL_LENGTH,
        decreases chars.len() - i,
    {
        let c = chars[i];
        let ghost label = chars@.subrange(start as int, i as int);
        let ghost prefix = chars@.take(i as int);
        let ghost next = chars@.take(i + 1);
        proof {
            assert(next.drop_last() =~= prefix);
            assert(next.last() == c);
            assert(done.push(label).drop_last() =~= done);
            assert(done.push(label).last() == label);
        }
        if c == '.' {
            let label_ok = check_host_label(chars, start, i, bytes);
            proof {
                let ghost extended = done.push(label);
                assert forall|k: int| 0 <= k < extended.len() implies (is_host_label(
                    #[trigger] extended[k],
                ) == (if k < done.len() {
                    is_host_label(done[k])
                } else {
                    label_ok
                })) by {}
                assert(chars@.subrange(i + 1, i + 1) =~= Seq::<char>::empty());
                assert(split_on(next, '.') =~= extended.push(chars@.subrange(i + 1, i + 1)));
                if ok && label_ok {
                    assert forall|k: int| 0 <= k < extended.len() implies is_host_label(
                        #[trigger] extended[k],
                    ) by {}
                } else if !ok {
                    let k = choose|k: int| 0 <= k < done.len() && !is_host_label(#[trigger] done[k]);
                    assert(extended[k] == done[k]);
                } else {
                    assert(extended[done.len() as int] == label);
                }
                done = extended;
            }
            ok = ok && label_ok;
            start = i + 1;
            bytes = 0;
        } else {
            proof {
                lemma_utf8_len_push(label, c);
                assert(label.push(c) =~= chars@.subrange(start as int, i + 1));
                assert(split_on(next, '.') =~= done.push(chars@.subrange(start as int, i + 1)));
            }
            if bytes <= MAX_HOST_LABEL_LENGTH {
                bytes = bytes + width_of(c);
            }
        }
        i += 1;
    }
    let last_ok = check_host_label(chars, start, i, bytes);
    proof {
        assert(chars@.take(chars.len() as int) =~= chars@);
        let ghost label = chars@.subrange(start as int, i as int);
        let ghost all = split_on(chars@, '.');
        assert(all == done.push(label));
        if ok && last_ok {
            assert forall|k: int| 0 <= k < all.len() implies is_host_label(#[trigger] all[k]) by {
                if k < done.len() {
                    assert(all[k] == done[k]);
                }
            }
        } else if !ok {
            let k = choose|k: int| 0 <= k < done.len() && !is_host_label(#[trigger] done[k]);
            assert(all[k] == done[k]);
        } else {
            assert(all[done.len() as int] == label);
        }
    }
    ok && last_ok
}

/// Validates a server address, given what the two matchers say of it.
pub fn decide_server_address(address: &str, sql: bool, shaped: bool) -> (r: Result<
    String,
    ValidationError,
>)
    ensures
        text_outcome(r) == server_address_verdict(address@, sql, shaped),
{
    if address.is_empty() {
        return Err(ValidationError::InvalidUrl(address.to_owned()));
    }
    if byte_length(address) > MAX_SERVER_ADDRESS_LENGTH {
        return Err(ValidationError::InvalidUrl(address.to_owned()));
    }
    if sql {
        return Err(ValidationError::SqlInjectionAttempt(address.to_owned()));
    }
    if !shaped {
        return Err(ValidationError::InvalidUrl(address.to_owned()));
    }
    let chars = chars_of(address);
    if !check_host_labels(&chars) {
        return Err(ValidationError::InvalidUrl(address.to_owned()));
    }
    Ok(address.to_owned())
}

/// Validates the host name of an API server and returns it unchanged.
///
/// An empty address or one of more than 253 bytes is refused as `InvalidUrl`;
/// then an address with an SQL keyword or metacharacter as
/// `SqlInjectionAttempt`; then one that does not have the shape of a host
/// name, or one of whose dot-separated labels is empty, longer than 63 bytes,
/// or begins or ends with a hyphen, as `InvalidUrl`.
pub fn validate_server_address(patterns: &PatternRegistry, address: &str) -> (r: Result<
    String,
    ValidationError,
>)
    ensures
        text_outcome(r) == validated_server_address(address@),
{
    let bounded = !address.is_empty() && byte_length(address) <= MAX_SERVER_ADDRESS_LENGTH;
    let sql = bounded && patterns.matches_sql_injection(address);
    let shaped = bounded && !sql && patterns.matches_server_address(address);
    decide_server_address(address, sql, shaped)
}

/// The outcome of metadata validation in mathematical form.
pub open spec fn json_outcome(r: Result<JsonValue, ValidationError>) -> Result<JsonView, Rejection> {
    match r {
        Ok(value) => Ok(value@),
        Err(e) => Err(e@),
    }
}

/// What validation makes of a string found in metadata: the verdict on it
/// as a field value.
pub open spec fn metadata_text_verdict(text: Seq<char>) -> Result<JsonView, Rejection> {
    match validated_field_value(text) {
        Ok(clean) => Ok(JsonView::String(clean)),
        Err(e) => Err(e),
    }
}

/// What validation makes of one item of an array: a string is validated as
/// a field value, any other item is kept.
pub open spec fn array_item_verdict(item: JsonView) -> Result<JsonView, Rejection> {
    match item {
        JsonView::String(text) => metadata_text_verdict(text),
        _ => Ok(item),
    }
}

/// What validation makes of the items of an array: the rejection of the
/// first item that is refused, else the items validated one by one.
pub open spec fn array_verdict(items: Seq<JsonView>) -> Result<Seq<JsonView>, Rejection>
    decreases items.len(),
{
    if items.len() == 0 {
        Ok(Seq::empty())
    } else {
        match array_item_verdict(items.first()) {
            Err(e) => Err(e),
            Ok(first) => match array_verdict(items.drop_first()) {
                Err(e) => Err(e),
                Ok(rest) => Ok(seq![first] + rest),
            },
        }
    }
}

/// What validation makes of the value of a member: a string is validated as
/// a field value, the strings of an array likewise, anything else is kept.
pub open spec fn member_value_verdict(value: JsonView) -> Result<JsonView, Rejection> {
    match value {
        JsonView::String(text) => metadata_text_verdict(text),
        JsonView::Array(items) => match array_verdict(items) {
            Ok(validated) => Ok(JsonView::Array(validated)),
            Err(e) => Err(e),
        },
        _ => Ok(value),
    }
}

/// What validation makes of a member: its key is validated as a field name,
/// then its value.
pub open spec fn member_verdict(member: (Seq<char>, JsonView)) -> Result<
    (Seq<char>, JsonView),
    Rejection,
> {
    match validated_field_name(member.0) {
        Err(e) => Err(e),
        Ok(key) => match member_value_verdict(member.1) {
            Err(e) => Err(e),
            Ok(value) => Ok((key, value)),
        },
    }
}

/// What validation makes of the members of an object: the rejection of the
/// first member that is refused, else the members validated one by one.
pub open spec fn members_verdict(members: Seq<(Seq<char>, JsonView)>) -> Result<
    Seq<(Seq<char>, JsonView)>,
    Rejection,
>
    decreases members.len(),
{
    if members.len() == 0 {
        Ok(Seq::empty())
    } else {
        match member_verdict(members.first()) {
            Err(e) => Err(e),
            Ok(first) => match members_verdict(members.drop_first()) {
                Err(e) => Err(e),
                Ok(rest) => Ok(seq![first] + rest),
            },
        }
    }
}

/// What metadata validation returns: an object is validated member by
/// member, any other value is returned as it is.
pub open spec fn metadata_verdict(metadata: JsonView) -> Result<JsonView, Rejection> {
    match metadata {
        JsonView::Object(members) => match members_verdict(members) {
            Ok(validated) => Ok(JsonView::Object(validated)),
            Err(e) => Err(e),
        },
        _ => Ok(metadata),
    }
}

/// Validates a string found in metadata.
fn validate_metadata_text(patterns: &PatternRegistry, text: &str) -> (r: Result<
    JsonValue,
    ValidationError,
>)
    ensures
        json_outcome(r) == metadata_text_verdict(text@),
{
    match validate_field_value(patterns, text) {
        Ok(clean) => Ok(JsonValue::String(clean)),
        Err(e) => Err(e),
    }
}

/// Validates the items of an array.
fn validate_array(patterns: &PatternRegistry, items: &Vec<JsonValue>) -> (r: Result<
    Vec<JsonValue>,
    ValidationError,
>)
    ensures
        match r {
            Ok(validated) => array_verdict(items_view(items@)) == Ok::<Seq<JsonView>, Rejection>(
                items_view(validated@),
            ),
            Err(e) => array_verdict(items_view(items@)) == Err::<Seq<JsonView>, Rejection>(e@),
        },
{
    let ghost all = items_view(items@);
    let mut validated: Vec<JsonValue> = Vec::new();
    let mut i: usize = 0;
    proof {
        assert(all.skip(0) =~= all);
        assert(items_view(validated@) =~= Seq::<JsonView>::empty());
        assert(forall|rest: Seq<JsonView>| Seq::<JsonView>::empty() + rest =~= rest);
    }
    while i < items.len()
        invariant
            i <= items.len(),
            all == items_view(items@),
            array_verdict(all) == match array_verdict(all.skip(i as int)) {
                Err(e) => Err::<Seq<JsonView>, Rejection>(e),
                Ok(rest) => Ok(items_view(validated@) + rest),
            },
        decreases items.len() - i,
    {
        let ghost before = items_view(validated@);
        proof {
            assert(all.skip(i as int).first() == items@[i as int]@);
            assert(all.skip(i as int).drop_first() =~= all.skip(i + 1));
        }
        let item = match &items[i] {
            JsonValue::String(text) => match validate_metadata_text(patterns, text.as_str()) {
                Ok(item) => item,
                Err(e) => {
                    return Err(e);
                },
            },
            other => other.duplicate(),
        };
        validated.push(item);
        proof {
            assert(items_view(validated@) =~= before.push(item@));
            assert(forall|rest: Seq<JsonView>|
                before + (seq![item@] + rest) =~= #[trigger] (before.push(item@) + rest));
        }
        i += 1;
    }
    proof {
        assert(all.skip(items.len() as int) =~= Seq::<JsonView>::empty());
        assert(items_view(validated@) + Seq::<JsonView>::empty() =~= items_view(validated@));
    }
    Ok(validated)
}

/// Validates the value of a member.
fn validate_member_value(patterns: &PatternRegistry, value: &JsonValue) -> (r: Result<
    JsonValue,
    ValidationError,
>)
    ensures
        json_outcome(r) == member_value_verdict(value@),
{
    match value {
        JsonValue::String(text) => validate_metadata_text(patterns, text.as_str()),
        JsonValue::Array(items) => {
            proof {
                lemma_array_view(*items);
            }
            match validate_array(patterns, items) {
                Ok(validated) => {
                    proof {
                        lemma_array_view(validated);
                    }
                    Ok(JsonValue::Array(validated))
                },
                Err(e) => Err(e),
            }
        },
        other => Ok(other.duplicate()),
    }
}

/// Validates a JSON metadata object.
///
/// A value that is not an object is returned as it is. Of an object every
/// key is validated as a field name and every value by its kind: a string
/// as a field value, an array item by item (its strings as field values, the
/// rest kept), anything else kept. The members keep their order; the first
/// member that is refused decides the error.
pub fn validate_metadata_json(patterns: &PatternRegistry, metadata: &JsonValue) -> (r: Result<
    JsonValue,
    ValidationError,
>)
    ensures
        json_outcome(r) == metadata_verdict(metadata@),
{
    let members = match metadata {
        JsonValue::Object(members) => members,
        other => {
            return Ok(other.duplicate());
        },
    };
    let ghost all = members_view(members@);
    let mut validated: Vec<(String, JsonValue)> = Vec::new();
    let mut i: usize = 0;
    proof {
        lemma_object_view(*members);
        assert(all.skip(0) =~= all);
        assert(members_view(validated@) =~= Seq::<(Seq<char>, JsonView)>::empty());
        assert(forall|rest: Seq<(Seq<char>, JsonView)>|
            Seq::<(Seq<char>, JsonView)>::empty() + rest =~= rest);
    }
    while i < members.len()
        invariant
            i <= members.len(),
            all == members_view(members@),
            metadata@ == JsonView::Object(all),
            members_verdict(all) == match members_verdict(all.skip(i as int)) {
                Err(e) => Err::<Seq<(Seq<char>, JsonView)>, Rejection>(e),
                Ok(rest) => Ok(members_view(validated@) + rest),
            },
        decreases members.len() - i,
    {
        let ghost before = members_view(validated@);
        proof {
            assert(all.skip(i as int).first() == (members@[i as int].0@, members@[i as int].1@));
            assert(all.skip(i as int).drop_first() =~= all.skip(i + 1));
        }
        let member = &members[i];
        let key = match validate_field_name(patterns, member.0.as_str()) {
            Ok(key) => key,
            Err(e) => {
                return Err(e);
            },
        };
        let value = match validate_member_value(patterns, &member.1) {
            Ok(value) => value,
            Err(e) => {
                return Err(e);
            },
        };
        let ghost entry = (key@, value@);
        validated.push((key, value));
        proof {
            assert(members_view(validated@) =~= before.push(entry));
            assert(forall|rest: Seq<(Seq<char>, JsonView)>|
                before + (seq![entry] + rest) =~= #[trigger] (before.push(entry) + rest));
        }
        i += 1;
    }
    proof {
        assert(all.skip(members.len() as int) =~= Seq::<(Seq<char>, JsonView)>::empty());
        assert(members_view(validated@) + Seq::<(Seq<char>, JsonView)>::empty() =~= members_view(
            validated@,
        ));
        lemma_object_view(validated);
    }
    Ok(JsonValue::Object(validated))
}

} // verus!
