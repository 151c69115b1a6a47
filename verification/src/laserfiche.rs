//! The repository API: its data model and the requests of its operations.
//!
//! Nothing here talks to the network. An operation is planned: its inputs
//! are validated and the request is described, for a transport to send.

use crate::json::{JsonValue, JsonView};
use crate::laserfiche::request::{
    bare_request, loaded_request, Method, Payload, PayloadView, Request, RequestView,
    STATUS_CREATED, STATUS_OK,
};
use crate::patterns::PatternRegistry;
use crate::text::{
    after_last, append_signed_decimal, chars_of, is_text, lowercase, signed_decimal,
    text_after_last, to_lowercase, url_encode, url_encoded, with_suffix,
};
use crate::validation::{
    metadata_verdict, path_outcome, path_resolution, path_syntax_rejection, validate_entry_id,
    validate_field_name, validate_file_name, validate_file_path, validate_metadata_json,
    validate_repository_name, validate_server_address, validated_entry_id, validated_field_name,
    validated_file_name, validated_repository_name, validated_server_address, PathProbe,
    Platform, Rejection, ValidationError,
};
use std::path::PathBuf;
use std::time::{Duration, SystemTime};
use vstd::prelude::*;

pub mod request;

verus! {

/// Where the repository API is served and which repository is addressed.
#[derive(Debug, Clone, Default)]
pub struct LFApiServer {
    pub address: String,
    pub repository: String,
}

/// An error as the API reports it.
#[derive(Debug, Clone, Default)]
pub struct LFAPIError {
    pub type_field: Option<String>,
    pub title: Option<String>,
    pub status: Option<i64>,
    pub detail: Option<String>,
    pub instance: Option<String>,
    pub operation_id: Option<String>,
    pub error_source: Option<String>,
    pub error_code: Option<i64>,
    pub trace_id: Option<String>,
    pub additional_prop1: Option<String>,
    pub additional_prop2: Option<String>,
    pub additional_prop3: Option<String>,
}

/// What a sign-in returns: a token, or the error that the API reported.
pub enum AuthOrError {
    Auth(Auth),
    LFAPIError(LFAPIError),
}

/// An access token together with the credentials it was obtained with.
#[derive(Debug, Clone, Default)]
pub struct Auth {
    pub odata_context: String,
    pub access_token: String,
    pub expires_in: i64,
    pub token_type: String,
    pub username: String,
    pub password: String,
    pub timestamp: i64,
    pub api_server: LFApiServer,
}

/// One page of the fields of an entry.
#[derive(Debug, Clone, Default)]
pub struct Fields {
    pub value: Vec<Field>,
    pub odata_next_link: Option<String>,
    pub odata_count: Option<i64>,
}

/// A field of an entry, with its values.
#[derive(Debug, Clone, Default)]
pub struct Field {
    pub field_name: String,
    pub values: Vec<FieldValue>,
    pub field_type: String,
    pub field_id: i64,
    pub is_multi_value: bool,
    pub is_required: bool,
    pub has_more_values: bool,
}

/// One value of a field.
#[derive(Debug, Clone, Default)]
pub struct FieldValue {
    pub additional_prop1: Option<String>,
    pub additional_prop2: Option<String>,
    pub additional_prop3: Option<String>,
}

/// An entry, or the error that the API reported.
pub enum EntryOrError {
    Entry(Entry),
    LFAPIError(LFAPIError),
}

/// The result of an import, or the error that the API reported.
pub enum ImportResultOrError {
    ImportResult(ImportResult),
    LFAPIError(LFAPIError),
}

/// The body of a request that deletes an entry.
#[derive(Debug, Clone, Default)]
pub struct DestroyEntry {
    pub audit_reason_id: i64,
    pub comment: String,
}

/// The body of a request that moves or renames an entry.
#[derive(Debug, Clone, Default)]
pub struct PatchedEntry {
    pub parent_id: Option<i64>,
    pub name: Option<String>,
}

/// The body of a request that creates a folder.
#[derive(Debug, Clone, Default)]
pub struct NewEntry {
    pub entry_type: String,
    pub name: String,
    pub volume_name: String,
}

/// One page of a listing of entries.
#[derive(Debug, Clone, Default)]
pub struct Entries {
    pub value: Vec<Entry>,
    pub odata_next_link: Option<String>,
    pub odata_count: Option<i64>,
}

/// The field values of an entry, or the error that the API reported.
pub enum MetadataResultOrError {
    Metadata(MetadataResult),
    LFAPIError(LFAPIError),
}

/// The content of a document, or the error that the API reported.
pub enum BitsOrError {
    Bits(Vec<u8>),
    LFAPIError(LFAPIError),
}

/// A listing of entries, or the error that the API reported.
pub enum EntriesOrError {
    Entries(Entries),
    LFAPIError(LFAPIError),
}

/// The receipt of a deletion.
#[derive(Debug, Clone, Default)]
pub struct DeletedObject {
    pub token: String,
}

/// Whatever an operation on an entry may return, or the error that the API
/// reported.
pub enum LFObject {
    Fields(Fields),
    Field(Field),
    Entry(Entry),
    Entries(Entries),
    DeletedObject(DeletedObject),
    LFAPIError(LFAPIError),
}

/// Template information for an entry.
#[derive(Debug, Clone, Default)]
pub struct Template {
    pub id: i64,
    pub name: String,
    pub description: Option<String>,
    pub field_count: i64,
}

/// A template, or the error that the API reported.
pub enum TemplateOrError {
    Template(Template),
    LFAPIError(LFAPIError),
}

/// Tags associated with an entry.
#[derive(Debug, Clone, Default)]
pub struct Tags {
    pub value: Vec<Tag>,
}

/// A tag.
#[derive(Debug, Clone, Default)]
pub struct Tag {
    pub id: i64,
    pub name: String,
    pub description: Option<String>,
    pub is_secure: bool,
    pub watermark_text: Option<String>,
}

/// The tags of an entry, or the error that the API reported.
pub enum TagsOrError {
    Tags(Tags),
    LFAPIError(LFAPIError),
}

/// Links associated with an entry.
#[derive(Debug, Clone, Default)]
pub struct Links {
    pub value: Vec<Link>,
}

/// A link between two entries.
#[derive(Debug, Clone, Default)]
pub struct Link {
    pub id: i64,
    pub source_id: i64,
    pub target_id: i64,
    pub link_type: String,
    pub description: Option<String>,
}

/// The links of an entry, or the error that the API reported.
pub enum LinksOrError {
    Links(Links),
    LFAPIError(LFAPIError),
}

/// A repository entry: a document or a folder.
#[derive(Debug, Clone, Default)]
pub struct Entry {
    pub id: i64,
    pub name: String,
    pub parent_id: i64,
    pub full_path: String,
    pub folder_path: String,
    pub creator: String,
    pub creation_time: String,
    pub last_modified_time: String,
    pub entry_type: String,
    pub is_container: bool,
    pub is_leaf: bool,
    pub template_name: Option<String>,
    pub template_id: i64,
    pub template_field_names: Option<Vec<String>>,
    pub volume_name: String,
    pub row_number: i64,
    pub fields: Option<Vec<Field>>,
}

/// A field value and its position among the values of the field.
#[derive(Default, Debug, Clone, PartialEq)]
pub struct MetadataValue {
    pub value: String,
    pub position: i64,
}

/// What an import did, step by step, and where the document is found.
#[derive(Default, Debug, Clone, PartialEq)]
pub struct ImportResult {
    pub operations: Operations,
    pub document_link: String,
}

/// The steps of an import.
#[derive(Default, Debug, Clone, PartialEq)]
pub struct Operations {
    pub entry_create: EntryCreate,
    pub set_edoc: SetEdoc,
    pub set_template: Option<SetTemplate>,
    pub set_fields: Option<SetFields>,
    pub set_tags: Option<SetTags>,
}

/// The creation of the entry during an import.
#[derive(Default, Debug, Clone, PartialEq)]
pub struct EntryCreate {
    pub entry_id: i64,
    pub exceptions: Vec<String>,
}

/// The upload of the electronic document during an import.
#[derive(Default, Debug, Clone, PartialEq)]
pub struct SetEdoc {
    pub exceptions: Vec<String>,
}

/// The assignment of a template during an import.
#[derive(Default, Debug, Clone, PartialEq)]
pub struct SetTemplate {
    pub template: String,
    pub exceptions: Vec<String>,
}

/// The assignment of field values during an import.
#[derive(Default, Debug, Clone, PartialEq)]
pub struct SetFields {
    pub field_count: i64,
    pub exceptions: Vec<String>,
}

/// The assignment of tags during an import.
#[derive(Default, Debug, Clone, PartialEq)]
pub struct SetTags {
    pub assigned_tags: Vec<String>,
    pub exceptions: Vec<String>,
}

/// The field values of an entry.
#[derive(Default, Debug, Clone, PartialEq)]
pub struct MetadataResult {
    pub value: Vec<MetadataResultValue>,
}

/// A field of an entry with its values, as the metadata of the entry lists
/// it.
#[derive(Default, Debug, Clone, PartialEq)]
pub struct MetadataResultValue {
    pub field_name: String,
    pub field_type: String,
    pub group_id: Option<i64>,
    pub field_id: i64,
    pub is_multi_value: bool,
    pub is_required: bool,
    pub values: Vec<MetadataResultFieldValue>,
}

/// One value of a field, as the metadata of an entry lists it.
#[derive(Default, Debug, Clone, PartialEq)]
pub struct MetadataResultFieldValue {
    pub value: Option<String>,
    pub position: i64,
}

impl LFApiServer {
    /// The URL under which the repository is served.
    pub open spec fn base_url(self) -> Seq<char> {
        "https://"@ + self.address@ + "/LFRepositoryAPI/v1/Repositories/"@ + self.repository@
    }

    /// The URL from which an access token is requested.
    pub open spec fn token_url(self) -> Seq<char> {
        self.base_url() + "/Token"@
    }

    /// The URL of the entry with identifier `entry_id`.
    pub open spec fn entry_url(self, entry_id: i64) -> Seq<char> {
        self.base_url() + "/Entries/"@ + signed_decimal(entry_id as int)
    }

    /// The URL to which a document named `file_name` is imported below the
    /// folder `root_id`.
    pub open spec fn import_url(self, root_id: i64, file_name: Seq<char>) -> Seq<char> {
        self.entry_url(root_id) + "/"@ + file_name + "?autoRename=true"@
    }
}

/// Builds the URLs that the operations share.
pub struct ApiHelper;

impl ApiHelper {
    /// The URL under which the repository is served.
    pub fn build_base_url(api_server: &LFApiServer) -> (url: String)
        ensures
            url@ == api_server.base_url(),
    {
        let mut url = String::from_str("https://");
        url.append(api_server.address.as_str());
        url.append("/LFRepositoryAPI/v1/Repositories/");
        url.append(api_server.repository.as_str());
        url
    }

    /// The URL of an entry, once its identifier has been validated.
    pub fn build_entries_url(api_server: &LFApiServer, entry_id: i64) -> (r: Result<
        String,
        ValidationError,
    >)
        ensures
            match validated_entry_id(entry_id) {
                Ok(id) => r is Ok && r->Ok_0@ == api_server.entry_url(id),
                Err(rejection) => r is Err && r->Err_0@ == rejection,
            },
    {
        let id = match validate_entry_id(entry_id) {
            Ok(id) => id,
            Err(e) => {
                return Err(e);
            },
        };
        let mut url = ApiHelper::build_base_url(api_server);
        url.append("/Entries/");
        append_signed_decimal(&mut url, id);
        Ok(url)
    }
}

/// `std::time::SystemTime`, a point in time. Opaque: proofs know nothing of
/// what is inside.
#[verifier::external_type_specification]
#[verifier::external_body]
pub struct ExSystemTime(std::time::SystemTime);

/// Calls `std::time::SystemTime::now`. Nothing is promised of the result,
/// which is the time of the call.
#[verifier::external_body]
fn clock_reading() -> SystemTime {
    SystemTime::now()
}

/// Calls `std::time::SystemTime::duration_since` with the Unix epoch. `None`
/// stands for a time before the epoch.
#[verifier::external_body]
fn since_unix_epoch(time: &SystemTime) -> Option<Duration> {
    time.duration_since(std::time::UNIX_EPOCH).ok()
}

/// Calls `std::time::Duration::as_secs`.
#[verifier::external_body]
fn whole_seconds(duration: &Duration) -> u64 {
    duration.as_secs()
}

/// The time stamp for a clock reading in seconds since the Unix epoch: the
/// reading itself where it fits, the largest time stamp where it does not,
/// and zero where the clock stood before the epoch.
pub open spec fn timestamp_of(reading: Option<u64>) -> i64 {
    match reading {
        None => 0,
        Some(seconds) => if seconds > i64::MAX {
            i64::MAX
        } else {
            seconds as i64
        },
    }
}

/// The media type that goes with a file extension in lower case.
pub open spec fn mime_type_of(extension: Seq<char>) -> Seq<char> {
    if extension == "pdf"@ {
        "application/pdf"@
    } else if extension == "png"@ {
        "image/png"@
    } else if extension == "jpg"@ || extension == "jpeg"@ {
        "image/jpeg"@
    } else if extension == "gif"@ {
        "image/gif"@
    } else if extension == "tiff"@ || extension == "tif"@ {
        "image/tiff"@
    } else if extension == "doc"@ {
        "application/msword"@
    } else if extension == "docx"@ {
        "application/vnd.openxmlformats-officedocument.wordprocessingml.document"@
    } else if extension == "xls"@ {
        "application/vnd.ms-excel"@
    } else if extension == "xlsx"@ {
        "application/vnd.openxmlformats-officedocument.spreadsheetml.sheet"@
    } else if extension == "ppt"@ {
        "application/vnd.ms-powerpoint"@
    } else if extension == "pptx"@ {
        "application/vnd.openxmlformats-officedocument.presentationml.presentation"@
    } else if extension == "txt"@ {
        "text/plain"@
    } else if extension == "csv"@ {
        "text/csv"@
    } else if extension == "xml"@ {
        "application/xml"@
    } else if extension == "json"@ {
        "application/json"@
    } else {
        "application/octet-stream"@
    }
}

impl Auth {
    /// The URL from which an access token is requested.
    pub fn build_token_url(api_server: &LFApiServer) -> (url: String)
        ensures
            url@ == api_server.token_url(),
    {
        let mut url = ApiHelper::build_base_url(api_server);
        url.append("/Token");
        url
    }

    /// The form fields of a token request, in order: the grant type, the
    /// user name and the password.
    pub fn build_auth_params<'a>(username: &'a str, password: &'a str) -> (params: Vec<
        (&'static str, &'a str),
    >)
        ensures
            params@.len() == 3,
            params@[0].0@ == "grant_type"@,
            params@[0].1@ == "password"@,
            params@[1].0@ == "username"@,
            params@[1].1@ == username@,
            params@[2].0@ == "password"@,
            params@[2].1@ == password@,
    {
        let mut params: Vec<(&'static str, &'a str)> = Vec::new();
        params.push(("grant_type", "password"));
        params.push(("username", username));
        params.push(("password", password));
        params
    }

    /// The time stamp for a clock reading in seconds since the Unix epoch.
    pub fn timestamp_from_reading(reading: Option<u64>) -> (t: i64)
        ensures
            t == timestamp_of(reading),
            t >= 0,
    {
        match reading {
            None => 0,
            Some(seconds) => if seconds > i64::MAX as u64 {
                i64::MAX
            } else {
                seconds as i64
            },
        }
    }

    /// The current time in seconds since the Unix epoch, as a time stamp.
    /// Whatever the clock says, the time stamp is not negative.
    pub fn current_timestamp() -> (t: i64)
        ensures
            t >= 0,
            exists|reading: Option<u64>| t == #[trigger] timestamp_of(reading),
    {
        let now = clock_reading();
        let reading = match since_unix_epoch(&now) {
            Some(elapsed) => Some(whole_seconds(&elapsed)),
            None => None,
        };
        Auth::timestamp_from_reading(reading)
    }
}

impl Entry {
    /// The URL to which a document named `file_name` is imported below the
    /// folder `root_id`.
    pub fn build_import_url(api_server: &LFApiServer, root_id: i64, file_name: &str) -> (url:
        String)
        ensures
            url@ == api_server.import_url(root_id, file_name@),
    {
        let mut url = ApiHelper::build_base_url(api_server);
        url.append("/Entries/");
        append_signed_decimal(&mut url, root_id);
        url.append("/");
        url.append(file_name);
        url.append("?autoRename=true");
        url
    }

    /// The media type that goes with a file extension in lower case;
    /// `application/octet-stream` for an extension that is not known.
    pub fn mime_type_for_extension(extension: &str) -> (mime: String)
        ensures
            mime@ == mime_type_of(extension@),
    {
        let ext = chars_of(extension);
        let mime = if is_text(&ext, "pdf") {
            "application/pdf"
        } else if is_text(&ext, "png") {
            "image/png"
        } else if is_text(&ext, "jpg") || is_text(&ext, "jpeg") {
            "image/jpeg"
        } else if is_text(&ext, "gif") {
            "image/gif"
        } else if is_text(&ext, "tiff") || is_text(&ext, "tif") {
            "image/tiff"
        } else if is_text(&ext, "doc") {
            "application/msword"
        } else if is_text(&ext, "docx") {
            "application/vnd.openxmlformats-officedocument.wordprocessingml.document"
        } else if is_text(&ext, "xls") {
            "application/vnd.ms-excel"
        } else if is_text(&ext, "xlsx") {
            "application/vnd.openxmlformats-officedocument.spreadsheetml.sheet"
        } else if is_text(&ext, "ppt") {
            "application/vnd.ms-powerpoint"
        } else if is_text(&ext, "pptx") {
            "application/vnd.openxmlformats-officedocument.presentationml.presentation"
        } else if is_text(&ext, "txt") {
            "text/plain"
        } else if is_text(&ext, "csv") {
            "text/csv"
        } else if is_text(&ext, "xml") {
            "application/xml"
        } else if is_text(&ext, "json") {
            "application/json"
        } else {
            "application/octet-stream"
        };
        String::from_str(mime)
    }

    /// The media type of a file, by the lower-case form of what follows the
    /// last dot of its name (of the whole name where it has no dot).
    pub fn detect_mime_type(file_name: &str) -> (mime: String)
        ensures
            mime@ == mime_type_of(lowercase(after_last(file_name@, '.'))),
    {
        let extension = text_after_last(file_name, '.');
        let lowered = to_lowercase(extension.as_str());
        Entry::mime_type_for_extension(lowered.as_str())
    }
}

/// The outcome of planning a request, in mathematical form.
pub open spec fn plan_outcome(r: Result<Request, ValidationError>) -> Result<
    RequestView,
    Rejection,
> {
    match r {
        Ok(request) => Ok(request@),
        Err(e) => Err(e@),
    }
}

/// A document to upload, or a place to save one, together with the request
/// that goes with it.
#[derive(Debug)]
pub struct Transfer {
    /// The validated path of the file on this machine.
    pub path: PathBuf,
    pub request: Request,
}

/// The outcome of planning a transfer, in mathematical form.
pub open spec fn transfer_outcome(r: Result<Transfer, ValidationError>) -> Result<
    (PathBuf, RequestView),
    Rejection,
> {
    match r {
        Ok(transfer) => Ok((transfer.path, transfer.request@)),
        Err(e) => Err(e@),
    }
}

/// The validated form of an optional entry identifier.
pub open spec fn validated_optional_id(id: Option<i64>) -> Result<Option<i64>, Rejection> {
    match id {
        None => Ok(None),
        Some(id) => match validated_entry_id(id) {
            Ok(id) => Ok(Some(id)),
            Err(e) => Err(e),
        },
    }
}

/// The validated form of an optional file name.
pub open spec fn validated_optional_name(name: Option<Seq<char>>, platform: Platform) -> Result<
    Option<Seq<char>>,
    Rejection,
> {
    match name {
        None => Ok(None),
        Some(name) => match validated_file_name(name, platform) {
            Ok(name) => Ok(Some(name)),
            Err(e) => Err(e),
        },
    }
}

/// The text of an optional string.
pub open spec fn optional_view(value: Option<String>) -> Option<Seq<char>> {
    match value {
        Some(s) => Some(s@),
        None => None,
    }
}

/// Validates an optional entry identifier.
fn validate_optional_id(id: Option<i64>) -> (r: Result<Option<i64>, ValidationError>)
    ensures
        match r {
            Ok(id) => validated_optional_id(id) == Ok::<Option<i64>, Rejection>(id),
            Err(e) => validated_optional_id(id) == Err::<Option<i64>, Rejection>(e@),
        },
        r is Ok ==> validated_optional_id(id) == Ok::<Option<i64>, Rejection>(r->Ok_0),
{
    match id {
        None => Ok(None),
        Some(id) => match validate_entry_id(id) {
            Ok(id) => Ok(Some(id)),
            Err(e) => Err(e),
        },
    }
}

/// Validates an optional file name.
fn validate_optional_name(name: &Option<String>, platform: Platform) -> (r: Result<
    Option<String>,
    ValidationError,
>)
    ensures
        match r {
            Ok(valid) => validated_optional_name(optional_view(*name), platform) == Ok::<
                Option<Seq<char>>,
                Rejection,
            >(optional_view(valid)),
            Err(e) => validated_optional_name(optional_view(*name), platform) == Err::<
                Option<Seq<char>>,
                Rejection,
            >(e@),
        },
{
    match name {
        None => Ok(None),
        Some(name) => match validate_file_name(name.as_str(), platform) {
            Ok(name) => Ok(Some(name)),
            Err(e) => Err(e),
        },
    }
}

impl LFApiServer {
    /// The URL of something that belongs to the entry `entry_id`.
    pub open spec fn entry_part_url(self, entry_id: i64, part: Seq<char>) -> Seq<char> {
        self.entry_url(entry_id) + part
    }

    /// The URL of a search.
    pub open spec fn search_url(
        self,
        query: Seq<char>,
        order_by: Option<Seq<char>>,
        select: Option<Seq<char>>,
        skip: Option<i32>,
        top: Option<i32>,
    ) -> Seq<char> {
        self.base_url() + "/Entries/Search?q="@ + url_encoded(query) + (match order_by {
            Some(order) => "&$orderby="@ + url_encoded(order),
            None => Seq::<char>::empty(),
        }) + (match select {
            Some(fields) => "&$select="@ + url_encoded(fields),
            None => Seq::<char>::empty(),
        }) + (match skip {
            Some(count) => "&$skip="@ + signed_decimal(count as int),
            None => Seq::<char>::empty(),
        }) + (match top {
            Some(count) => "&$top="@ + signed_decimal(count as int),
            None => Seq::<char>::empty(),
        })
    }
}

/// The form fields of a token request.
pub open spec fn token_form(username: Seq<char>, password: Seq<char>) -> Seq<
    (Seq<char>, Seq<char>),
> {
    seq![("grant_type"@, "password"@), ("username"@, username), ("password"@, password)]
}

/// The request that signs in, once the address of the server and the name of
/// the repository have been validated.
pub open spec fn planned_sign_in(
    address: Seq<char>,
    repository: Seq<char>,
    username: Seq<char>,
    password: Seq<char>,
) -> Result<RequestView, Rejection> {
    match validated_server_address(address) {
        Err(e) => Err(e),
        Ok(address) => match validated_repository_name(repository) {
            Err(e) => Err(e),
            Ok(repository) => Ok(
                RequestView {
                    method: Method::Post,
                    url: "https://"@ + address + "/LFRepositoryAPI/v1/Repositories/"@ + repository
                        + "/Token"@,
                    bearer: None,
                    payload: PayloadView::Form(token_form(username, password)),
                    expected_status: STATUS_OK,
                },
            ),
        },
    }
}

/// The request on the entry `entry_id` itself or on a part of it, once the
/// identifier has been validated.
pub open spec fn planned_entry_request(
    server: LFApiServer,
    token: Seq<char>,
    method: Method,
    entry_id: i64,
    part: Seq<char>,
    status: u16,
) -> Result<RequestView, Rejection> {
    match validated_entry_id(entry_id) {
        Err(e) => Err(e),
        Ok(id) => Ok(bare_request(method, server.entry_part_url(id, part), token, status)),
    }
}

impl Auth {
    /// Plans the request that signs in.
    ///
    /// The address of the server is validated first, then the name of the
    /// repository. The request posts the credentials as form fields to the
    /// token URL and expects the status 200.
    pub fn authenticate(
        patterns: &PatternRegistry,
        api_server: &LFApiServer,
        username: &str,
        password: &str,
    ) -> (r: Result<Request, ValidationError>)
        ensures
            plan_outcome(r) == planned_sign_in(
                api_server.address@,
                api_server.repository@,
                username@,
                password@,
            ),
    {
        let address = match validate_server_address(patterns, api_server.address.as_str()) {
            Ok(address) => address,
            Err(e) => {
                return Err(e);
            },
        };
        let repository = match validate_repository_name(patterns, api_server.repository.as_str()) {
            Ok(repository) => repository,
            Err(e) => {
                return Err(e);
            },
        };
        let validated = LFApiServer { address, repository };
        let url = Auth::build_token_url(&validated);
        let mut fields: Vec<(String, String)> = Vec::new();
        fields.push((String::from_str("grant_type"), String::from_str("password")));
        fields.push((String::from_str("username"), String::from_str(username)));
        fields.push((String::from_str("password"), String::from_str(password)));
        let request = Request {
            method: Method::Post,
            url,
            bearer: None,
            payload: Payload::Form(fields),
            expected_status: STATUS_OK,
        };
        assert(request.payload@->Form_0 =~= token_form(username@, password@));
        Ok(request)
    }

    /// Plans the request that signs in with the given credentials.
    pub fn new(
        patterns: &PatternRegistry,
        api_server: LFApiServer,
        username: String,
        password: String,
    ) -> (r: Result<Request, ValidationError>)
        ensures
            plan_outcome(r) == planned_sign_in(
                api_server.address@,
                api_server.repository@,
                username@,
                password@,
            ),
    {
        Auth::authenticate(patterns, &api_server, username.as_str(), password.as_str())
    }

    /// Plans the request that signs in again with the credentials that this
    /// token was obtained with.
    pub fn refresh(&self, patterns: &PatternRegistry) -> (r: Result<Request, ValidationError>)
        ensures
            plan_outcome(r) == planned_sign_in(
                self.api_server.address@,
                self.api_server.repository@,
                self.username@,
                self.password@,
            ),
    {
        Auth::authenticate(
            patterns,
            &self.api_server,
            self.username.as_str(),
            self.password.as_str(),
        )
    }

    /// Completes a token as the server sent it with the credentials it was
    /// obtained with, the server it belongs to and the time it was received.
    pub fn signed_in(
        token: Auth,
        username: String,
        password: String,
        api_server: LFApiServer,
        timestamp: i64,
    ) -> (auth: Auth)
        ensures
            auth.odata_context == token.odata_context,
            auth.access_token == token.access_token,
            auth.expires_in == token.expires_in,
            auth.token_type == token.token_type,
            auth.username == username,
            auth.password == password,
            auth.api_server == api_server,
            auth.timestamp == timestamp,
    {
        Auth {
            odata_context: token.odata_context,
            access_token: token.access_token,
            expires_in: token.expires_in,
            token_type: token.token_type,
            username,
            password,
            timestamp,
            api_server,
        }
    }
}

/// The request that fetches the field `field_id` of the entry `root_id`.
pub open spec fn planned_get_field(
    server: LFApiServer,
    token: Seq<char>,
    root_id: i64,
    field_id: i64,
) -> Result<RequestView, Rejection> {
    match validated_entry_id(root_id) {
        Err(e) => Err(e),
        Ok(root) => match validated_entry_id(field_id) {
            Err(e) => Err(e),
            Ok(field) => Ok(
                bare_request(
                    Method::Get,
                    server.entry_url(root) + "/fields/"@ + signed_decimal(field as int),
                    token,
                    STATUS_OK,
                ),
            ),
        },
    }
}

/// The request that replaces the field values of the entry `entry_id`.
pub open spec fn planned_update_metadata(
    server: LFApiServer,
    token: Seq<char>,
    entry_id: i64,
    metadata: JsonView,
) -> Result<RequestView, Rejection> {
    match validated_entry_id(entry_id) {
        Err(e) => Err(e),
        Ok(id) => match metadata_verdict(metadata) {
            Err(e) => Err(e),
            Ok(validated) => Ok(
                loaded_request(
                    Method::Put,
                    server.entry_part_url(id, "/fields"@),
                    token,
                    PayloadView::Metadata(validated),
                    STATUS_OK,
                ),
            ),
        },
    }
}

/// The request that deletes the entry `root_id`.
pub open spec fn planned_delete(
    server: LFApiServer,
    token: Seq<char>,
    root_id: i64,
    comment: Seq<char>,
) -> Result<RequestView, Rejection> {
    match validated_entry_id(root_id) {
        Err(e) => Err(e),
        Ok(id) => Ok(
            loaded_request(
                Method::Delete,
                server.entry_url(id),
                token,
                PayloadView::Deletion { audit_reason_id: 0, comment },
                STATUS_CREATED,
            ),
        ),
    }
}

/// The request that moves or renames the entry `root_id`.
pub open spec fn planned_patch(
    server: LFApiServer,
    token: Seq<char>,
    root_id: i64,
    parent_id: Option<i64>,
    new_name: Option<Seq<char>>,
    platform: Platform,
) -> Result<RequestView, Rejection> {
    match validated_entry_id(root_id) {
        Err(e) => Err(e),
        Ok(id) => match validated_optional_id(parent_id) {
            Err(e) => Err(e),
            Ok(parent) => match validated_optional_name(new_name, platform) {
                Err(e) => Err(e),
                Ok(name) => Ok(
                    loaded_request(
                        Method::Patch,
                        server.entry_url(id),
                        token,
                        PayloadView::Patch { parent_id: parent, name },
                        STATUS_OK,
                    ),
                ),
            },
        },
    }
}

/// The request that copies the entry `entry_id` into a folder.
pub open spec fn planned_copy(
    server: LFApiServer,
    token: Seq<char>,
    entry_id: i64,
    target_folder_id: i64,
    new_name: Option<Seq<char>>,
    platform: Platform,
) -> Result<RequestView, Rejection> {
    match validated_entry_id(entry_id) {
        Err(e) => Err(e),
        Ok(id) => match validated_entry_id(target_folder_id) {
            Err(e) => Err(e),
            Ok(target) => match validated_optional_name(new_name, platform) {
                Err(e) => Err(e),
                Ok(name) => Ok(
                    loaded_request(
                        Method::Post,
                        server.entry_part_url(id, "/Copy"@),
                        token,
                        PayloadView::Copy { target_id: target, name },
                        STATUS_CREATED,
                    ),
                ),
            },
        },
    }
}

/// The request that assigns a template to the entry `entry_id`.
pub open spec fn planned_set_template(
    server: LFApiServer,
    token: Seq<char>,
    entry_id: i64,
    template_name: Seq<char>,
) -> Result<RequestView, Rejection> {
    match validated_entry_id(entry_id) {
        Err(e) => Err(e),
        Ok(id) => match validated_field_name(template_name) {
            Err(e) => Err(e),
            Ok(name) => Ok(
                loaded_request(
                    Method::Put,
                    server.entry_part_url(id, "/template"@),
                    token,
                    PayloadView::Template { template_name: name },
                    STATUS_OK,
                ),
            ),
        },
    }
}

/// The upload of a file, once the answer of the file system about its path
/// is known: the path is validated first, then the name that the document
/// gets, then the identifier of the folder.
pub open spec fn planned_import(
    server: LFApiServer,
    token: Seq<char>,
    file_path: Seq<char>,
    probe: PathProbe,
    file_name: Seq<char>,
    root_id: i64,
    platform: Platform,
) -> Result<(PathBuf, RequestView), Rejection> {
    match path_syntax_rejection(file_path) {
        Some(e) => Err(e),
        None => match path_resolution(file_path, probe) {
            Err(e) => Err(e),
            Ok(path) => match validated_file_name(file_name, platform) {
                Err(e) => Err(e),
                Ok(name) => match validated_entry_id(root_id) {
                    Err(e) => Err(e),
                    Ok(id) => Ok(
                        (
                            path,
                            loaded_request(
                                Method::Post,
                                server.import_url(id, name),
                                token,
                                PayloadView::Document {
                                    file_name: name,
                                    mime_type: mime_type_of(lowercase(after_last(name, '.'))),
                                },
                                STATUS_CREATED,
                            ),
                        ),
                    ),
                },
            },
        },
    }
}

/// The download of a document, once the answer of the file system about the
/// path to save it under is known: the identifier is validated first, then
/// the path.
pub open spec fn planned_export(
    server: LFApiServer,
    token: Seq<char>,
    entry_id: i64,
    file_path: Seq<char>,
    probe: PathProbe,
) -> Result<(PathBuf, RequestView), Rejection> {
    match validated_entry_id(entry_id) {
        Err(e) => Err(e),
        Ok(id) => match path_syntax_rejection(file_path) {
            Some(e) => Err(e),
            None => match path_resolution(file_path, probe) {
                Err(e) => Err(e),
                Ok(path) => Ok(
                    (
                        path,
                        bare_request(
                            Method::Get,
                            server.entry_part_url(id, "/Laserfiche.Repository.Document/edoc"@),
                            token,
                            STATUS_OK,
                        ),
                    ),
                ),
            },
        },
    }
}

/// Plans a request on an entry or on a part of it.
fn plan_entry_request(
    api_server: &LFApiServer,
    auth: Auth,
    method: Method,
    entry_id: i64,
    part: &str,
    status: u16,
) -> (r: Result<Request, ValidationError>)
    ensures
        plan_outcome(r) == planned_entry_request(
            *api_server,
            auth.access_token@,
            method,
            entry_id,
            part@,
            status,
        ),
{
    let url = match ApiHelper::build_entries_url(api_server, entry_id) {
        Ok(url) => url,
        Err(e) => {
            return Err(e);
        },
    };
    Ok(Request::bare(method, with_suffix(url, part), auth.access_token, status))
}

/// Plans a request on the entry `entry_id`, whatever the identifier is.
fn plan_unchecked_request(
    api_server: &LFApiServer,
    auth: Auth,
    method: Method,
    entry_id: i64,
    part: &str,
    payload: Payload,
    status: u16,
) -> (request: Request)
    ensures
        request@ == loaded_request(
            method,
            api_server.entry_part_url(entry_id, part@),
            auth.access_token@,
            payload@,
            status,
        ),
{
    let mut url = ApiHelper::build_base_url(api_server);
    url.append("/Entries/");
    append_signed_decimal(&mut url, entry_id);
    url.append(part);
    Request::loaded(method, url, auth.access_token, payload, status)
}

impl Entry {
    /// Plans the upload of the file at `file_path` as a document named
    /// `file_name` below the folder `root_id`.
    ///
    /// The path is validated first, which asks the file system about it;
    /// then the name, by the rules of `platform`; then the identifier. The
    /// request posts the document to the import URL and expects the status
    /// 201. The size of the file is to be validated once the file is read.
    pub fn import(
        api_server: LFApiServer,
        auth: Auth,
        file_path: String,
        file_name: String,
        root_id: i64,
        platform: Platform,
    ) -> (r: Result<Transfer, ValidationError>)
        ensures
            path_syntax_rejection(file_path@) matches Some(rejection) ==> transfer_outcome(r)
                == Err::<(PathBuf, RequestView), Rejection>(rejection),
            exists|probe: PathProbe|
                transfer_outcome(r) == #[trigger] planned_import(
                    api_server,
                    auth.access_token@,
                    file_path@,
                    probe,
                    file_name@,
                    root_id,
                    platform,
                ),
    {
        let ghost witness: PathProbe;
        let path = match validate_file_path(file_path.as_str()) {
            Ok(path) => {
                proof {
                    witness = choose|probe: PathProbe|
                        path_outcome(Ok::<PathBuf, ValidationError>(path)) == #[trigger] path_resolution(
                            file_path@,
                            probe,
                        );
                }
                path
            },
            Err(e) => {
                proof {
                    if path_syntax_rejection(file_path@) is Some {
                        witness = arbitrary();
                    } else {
                        witness = choose|probe: PathProbe|
                            Err::<PathBuf, Rejection>(e@) == #[trigger] path_resolution(
                                file_path@,
                                probe,
                            );
                    }
                    assert(transfer_outcome(Err::<Transfer, ValidationError>(e)) == planned_import(
                        api_server,
                        auth.access_token@,
                        file_path@,
                        witness,
                        file_name@,
                        root_id,
                        platform,
                    ));
                }
                return Err(e);
            },
        };
        let name = match validate_file_name(file_name.as_str(), platform) {
            Ok(name) => name,
            Err(e) => {
                proof {
                    assert(transfer_outcome(Err::<Transfer, ValidationError>(e)) == planned_import(
                        api_server,
                        auth.access_token@,
                        file_path@,
                        witness,
                        file_name@,
                        root_id,
                        platform,
                    ));
                }
                return Err(e);
            },
        };
        let id = match validate_entry_id(root_id) {
            Ok(id) => id,
            Err(e) => {
                proof {
                    assert(transfer_outcome(Err::<Transfer, ValidationError>(e)) == planned_import(
                        api_server,
                        auth.access_token@,
                        file_path@,
                        witness,
                        file_name@,
                        root_id,
                        platform,
                    ));
                }
                return Err(e);
            },
        };
        let url = Entry::build_import_url(&api_server, id, name.as_str());
        let mime_type = Entry::detect_mime_type(name.as_str());
        let payload = Payload::Document { file_name: name, mime_type };
        let request = Request::loaded(Method::Post, url, auth.access_token, payload, STATUS_CREATED);
        let transfer = Transfer { path, request };
        proof {
            assert(transfer_outcome(Ok::<Transfer, ValidationError>(transfer)) == planned_import(
                api_server,
                auth.access_token@,
                file_path@,
                witness,
                file_name@,
                root_id,
                platform,
            ));
        }
        Ok(transfer)
    }

    /// Plans the request that creates the folder `folder_name` below the
    /// folder `root_id`. Nothing is validated.
    pub fn new_path(
        api_server: LFApiServer,
        auth: Auth,
        folder_name: String,
        volume_name: String,
        root_id: i64,
    ) -> (request: Request)
        ensures
            request@ == loaded_request(
                Method::Post,
                api_server.entry_part_url(root_id, "/Laserfiche.Repository.Folder/children"@),
                auth.access_token@,
                PayloadView::NewFolder {
                    entry_type: "Folder"@,
                    folder_name: folder_name@,
                    volume_name: volume_name@,
                },
                STATUS_CREATED,
            ),
    {
        let folder = NewEntry {
            entry_type: String::from_str("Folder"),
            name: folder_name,
            volume_name,
        };
        plan_unchecked_request(
            &api_server,
            auth,
            Method::Post,
            root_id,
            "/Laserfiche.Repository.Folder/children",
            Payload::NewFolder(folder),
            STATUS_CREATED,
        )
    }

    /// Plans the request that replaces the field values of an entry. The
    /// identifier is validated first, then the metadata; the request carries
    /// the metadata as validated.
    pub fn update_metadata(
        patterns: &PatternRegistry,
        api_server: LFApiServer,
        auth: Auth,
        entry_id: i64,
        metadata: JsonValue,
    ) -> (r: Result<Request, ValidationError>)
        ensures
            plan_outcome(r) == planned_update_metadata(
                api_server,
                auth.access_token@,
                entry_id,
                metadata@,
            ),
    {
        let id = match validate_entry_id(entry_id) {
            Ok(id) => id,
            Err(e) => {
                return Err(e);
            },
        };
        let validated = match validate_metadata_json(patterns, &metadata) {
            Ok(validated) => validated,
            Err(e) => {
                return Err(e);
            },
        };
        let url = match ApiHelper::build_entries_url(&api_server, id) {
            Ok(url) => url,
            Err(e) => {
                return Err(e);
            },
        };
        Ok(
            Request::loaded(
                Method::Put,
                with_suffix(url, "/fields"),
                auth.access_token,
                Payload::Metadata(validated),
                STATUS_OK,
            ),
        )
    }

    /// Plans the request that fetches the field values of an entry.
    pub fn get_metadata(api_server: LFApiServer, auth: Auth, entry_id: i64) -> (r: Result<
        Request,
        ValidationError,
    >)
        ensures
            plan_outcome(r) == planned_entry_request(
                api_server,
                auth.access_token@,
                Method::Get,
                entry_id,
                "/fields"@,
                STATUS_OK,
            ),
    {
        plan_entry_request(&api_server, auth, Method::Get, entry_id, "/fields", STATUS_OK)
    }

    /// Plans the request that asks for the headers of the electronic
    /// document of an entry.
    pub fn edoc_head(api_server: LFApiServer, auth: Auth, root_id: i64) -> (r: Result<
        Request,
        ValidationError,
    >)
        ensures
            plan_outcome(r) == planned_entry_request(
                api_server,
                auth.access_token@,
                Method::Head,
                root_id,
                "/Laserfiche.Repository.Document/edoc"@,
                STATUS_OK,
            ),
    {
        plan_entry_request(
            &api_server,
            auth,
            Method::Head,
            root_id,
            "/Laserfiche.Repository.Document/edoc",
            STATUS_OK,
        )
    }

    /// Plans the download of the electronic document of an entry to the file
    /// at `file_path`. The identifier is validated first, then the path,
    /// which asks the file system about it.
    pub fn export(api_server: LFApiServer, auth: Auth, entry_id: i64, file_path: &str) -> (r: Result<
        Transfer,
        ValidationError,
    >)
        ensures
            exists|probe: PathProbe|
                transfer_outcome(r) == #[trigger] planned_export(
                    api_server,
                    auth.access_token@,
                    entry_id,
                    file_path@,
                    probe,
                ),
    {
        let ghost witness: PathProbe;
        let id = match validate_entry_id(entry_id) {
            Ok(id) => id,
            Err(e) => {
                proof {
                    witness = arbitrary();
                    assert(transfer_outcome(Err::<Transfer, ValidationError>(e)) == planned_export(
                        api_server,
                        auth.access_token@,
                        entry_id,
                        file_path@,
                        witness,
                    ));
                }
                return Err(e);
            },
        };
        let path = match validate_file_path(file_path) {
            Ok(path) => {
                proof {
                    witness = choose|probe: PathProbe|
                        path_outcome(Ok::<PathBuf, ValidationError>(path)) == #[trigger] path_resolution(
                            file_path@,
                            probe,
                        );
                }
                path
            },
            Err(e) => {
                proof {
                    if path_syntax_rejection(file_path@) is Some {
                        witness = arbitrary();
                    } else {
                        witness = choose|probe: PathProbe|
                            Err::<PathBuf, Rejection>(e@) == #[trigger] path_resolution(
                                file_path@,
                                probe,
                            );
                    }
                    assert(transfer_outcome(Err::<Transfer, ValidationError>(e)) == planned_export(
                        api_server,
                        auth.access_token@,
                        entry_id,
                        file_path@,
                        witness,
                    ));
                }
                return Err(e);
            },
        };
        let url = match ApiHelper::build_entries_url(&api_server, id) {
            Ok(url) => url,
            Err(e) => {
                proof {
                    assert(false);
                }
                return Err(e);
            },
        };
        let request = Request::bare(
            Method::Get,
            with_suffix(url, "/Laserfiche.Repository.Document/edoc"),
            auth.access_token,
            STATUS_OK,
        );
        let transfer = Transfer { path, request };
        proof {
            assert(transfer_outcome(Ok::<Transfer, ValidationError>(transfer)) == planned_export(
                api_server,
                auth.access_token@,
                entry_id,
                file_path@,
                witness,
            ));
        }
        Ok(transfer)
    }

    /// Plans the request that fetches an entry.
    pub fn get(api_server: LFApiServer, auth: Auth, root_id: i64) -> (r: Result<
        Request,
        ValidationError,
    >)
        ensures
            plan_outcome(r) == planned_entry_request(
                api_server,
                auth.access_token@,
                Method::Get,
                root_id,
                ""@,
                STATUS_OK,
            ),
    {
        plan_entry_request(&api_server, auth, Method::Get, root_id, "", STATUS_OK)
    }

    /// Plans the request that fetches one field of an entry. Both
    /// identifiers are validated, that of the entry first.
    pub fn get_field(api_server: LFApiServer, auth: Auth, root_id: i64, field_id: i64) -> (r: Result<
        Request,
        ValidationError,
    >)
        ensures
            plan_outcome(r) == planned_get_field(api_server, auth.access_token@, root_id, field_id),
    {
        let url = match ApiHelper::build_entries_url(&api_server, root_id) {
            Ok(url) => url,
            Err(e) => {
                return Err(e);
            },
        };
        let field = match validate_entry_id(field_id) {
            Ok(field) => field,
            Err(e) => {
                return Err(e);
            },
        };
        let mut url = with_suffix(url, "/fields/");
        append_signed_decimal(&mut url, field);
        Ok(Request::bare(Method::Get, url, auth.access_token, STATUS_OK))
    }

    /// Plans the request that fetches the fields of an entry.
    pub fn get_fields(api_server: LFApiServer, auth: Auth, root_id: i64) -> (r: Result<
        Request,
        ValidationError,
    >)
        ensures
            plan_outcome(r) == planned_entry_request(
                api_server,
                auth.access_token@,
                Method::Get,
                root_id,
                "/fields"@,
                STATUS_OK,
            ),
    {
        plan_entry_request(&api_server, auth, Method::Get, root_id, "/fields", STATUS_OK)
    }

    /// Plans the request that deletes an entry, with `comment` for the audit
    /// trail. The server answers a deletion with the status 201.
    pub fn delete(api_server: LFApiServer, auth: Auth, root_id: i64, comment: String) -> (r: Result<
        Request,
        ValidationError,
    >)
        ensures
            plan_outcome(r) == planned_delete(api_server, auth.access_token@, root_id, comment@),
    {
        let url = match ApiHelper::build_entries_url(&api_server, root_id) {
            Ok(url) => url,
            Err(e) => {
                return Err(e);
            },
        };
        let record = DestroyEntry { audit_reason_id: 0, comment };
        Ok(
            Request::loaded(
                Method::Delete,
                url,
                auth.access_token,
                Payload::Deletion(record),
                STATUS_CREATED,
            ),
        )
    }

    /// Plans the request that moves an entry below `parent_id`, renames it
    /// to `new_name`, or both. The identifier of the entry is validated
    /// first, then that of the parent, then the name by the rules of
    /// `platform`.
    pub fn patch(
        api_server: LFApiServer,
        auth: Auth,
        root_id: i64,
        parent_id: Option<i64>,
        new_name: Option<String>,
        platform: Platform,
    ) -> (r: Result<Request, ValidationError>)
        ensures
            plan_outcome(r) == planned_patch(
                api_server,
                auth.access_token@,
                root_id,
                parent_id,
                optional_view(new_name),
                platform,
            ),
    {
        let url = match ApiHelper::build_entries_url(&api_server, root_id) {
            Ok(url) => url,
            Err(e) => {
                return Err(e);
            },
        };
        let parent = match validate_optional_id(parent_id) {
            Ok(parent) => parent,
            Err(e) => {
                return Err(e);
            },
        };
        let name = match validate_optional_name(&new_name, platform) {
            Ok(name) => name,
            Err(e) => {
                return Err(e);
            },
        };
        let patch = PatchedEntry { parent_id: parent, name };
        Ok(Request::loaded(Method::Patch, url, auth.access_token, Payload::Patch(patch), STATUS_OK))
    }

    /// Plans the request that lists the children of a folder.
    pub fn list(api_server: LFApiServer, auth: Auth, root_id: i64) -> (r: Result<
        Request,
        ValidationError,
    >)
        ensures
            plan_outcome(r) == planned_entry_request(
                api_server,
                auth.access_token@,
                Method::Get,
                root_id,
                "/Laserfiche.Repository.Folder/children"@,
                STATUS_OK,
            ),
    {
        plan_entry_request(
            &api_server,
            auth,
            Method::Get,
            root_id,
            "/Laserfiche.Repository.Folder/children",
            STATUS_OK,
        )
    }

    /// Plans the request that fetches a listing from `url`, as the server
    /// gave it for the next page. Nothing is validated.
    pub fn list_custom(auth: Auth, url: String) -> (request: Request)
        ensures
            request@ == bare_request(Method::Get, url@, auth.access_token@, STATUS_OK),
    {
        Request::bare(Method::Get, url, auth.access_token, STATUS_OK)
    }

    /// The URL of a search: the query percent-encoded, followed by those of
    /// the ordering, the selection, the number to skip and the number to
    /// return that are given.
    pub fn build_search_url(
        api_server: &LFApiServer,
        search_query: &str,
        order_by: Option<String>,
        select: Option<String>,
        skip: Option<i32>,
        top: Option<i32>,
    ) -> (url: String)
        ensures
            url@ == api_server.search_url(
                search_query@,
                optional_view(order_by),
                optional_view(select),
                skip,
                top,
            ),
    {
        let mut url = ApiHelper::build_base_url(api_server);
        url.append("/Entries/Search?q=");
        url.append(url_encode(search_query).as_str());
        let ghost start = url@;
        match order_by {
            Some(order) => {
                url.append("&$orderby=");
                url.append(url_encode(order.as_str()).as_str());
            },
            None => {},
        }
        let ghost ordered = url@;
        match select {
            Some(fields) => {
                url.append("&$select=");
                url.append(url_encode(fields.as_str()).as_str());
            },
            None => {},
        }
        let ghost selected = url@;
        match skip {
            Some(count) => {
                url.append("&$skip=");
                append_signed_decimal(&mut url, count as i64);
            },
            None => {},
        }
        let ghost skipped = url@;
        match top {
            Some(count) => {
                url.append("&$top=");
                append_signed_decimal(&mut url, count as i64);
            },
            None => {},
        }
        proof {
            let empty = Seq::<char>::empty();
            assert(start + empty =~= start);
            assert(ordered + empty =~= ordered);
            assert(selected + empty =~= selected);
            assert(skipped + empty =~= skipped);
            assert(url@ =~= api_server.search_url(
                search_query@,
                optional_view(order_by),
                optional_view(select),
                skip,
                top,
            ));
        }
        url
    }

    /// Plans a search. Nothing is validated; the query and the options are
    /// percent-encoded into the URL.
    pub fn search(
        api_server: LFApiServer,
        auth: Auth,
        search_query: String,
        order_by: Option<String>,
        select: Option<String>,
        skip: Option<i32>,
        top: Option<i32>,
    ) -> (request: Request)
        ensures
            request@ == bare_request(
                Method::Get,
                api_server.search_url(
                    search_query@,
                    optional_view(order_by),
                    optional_view(select),
                    skip,
                    top,
                ),
                auth.access_token@,
                STATUS_OK,
            ),
    {
        let url = Entry::build_search_url(
            &api_server,
            search_query.as_str(),
            order_by,
            select,
            skip,
            top,
        );
        Request::bare(Method::Get, url, auth.access_token, STATUS_OK)
    }

    /// Plans the request that copies an entry into the folder
    /// `target_folder_id`, under `new_name` if one is given. The identifier
    /// of the entry is validated first, then that of the folder, then the
    /// name by the rules of `platform`.
    pub fn copy(
        api_server: LFApiServer,
        auth: Auth,
        entry_id: i64,
        target_folder_id: i64,
        new_name: Option<String>,
        platform: Platform,
    ) -> (r: Result<Request, ValidationError>)
        ensures
            plan_outcome(r) == planned_copy(
                api_server,
                auth.access_token@,
                entry_id,
                target_folder_id,
                optional_view(new_name),
                platform,
            ),
    {
        let url = match ApiHelper::build_entries_url(&api_server, entry_id) {
            Ok(url) => url,
            Err(e) => {
                return Err(e);
            },
        };
        let target = match validate_entry_id(target_folder_id) {
            Ok(target) => target,
            Err(e) => {
                return Err(e);
            },
        };
        let name = match validate_optional_name(&new_name, platform) {
            Ok(name) => name,
            Err(e) => {
                return Err(e);
            },
        };
        Ok(
            Request::loaded(
                Method::Post,
                with_suffix(url, "/Copy"),
                auth.access_token,
                Payload::Copy { target_id: target, name },
                STATUS_CREATED,
            ),
        )
    }

    /// Plans the request that fetches the template of an entry.
    pub fn get_template(api_server: LFApiServer, auth: Auth, entry_id: i64) -> (r: Result<
        Request,
        ValidationError,
    >)
        ensures
            plan_outcome(r) == planned_entry_request(
                api_server,
                auth.access_token@,
                Method::Get,
                entry_id,
                "/template"@,
                STATUS_OK,
            ),
    {
        plan_entry_request(&api_server, auth, Method::Get, entry_id, "/template", STATUS_OK)
    }

    /// Plans the request that assigns a template to an entry. The
    /// identifier is validated first, then the name of the template, by the
    /// rules for field names.
    pub fn set_template(
        patterns: &PatternRegistry,
        api_server: LFApiServer,
        auth: Auth,
        entry_id: i64,
        template_name: String,
    ) -> (r: Result<Request, ValidationError>)
        ensures
            plan_outcome(r) == planned_set_template(
                api_server,
                auth.access_token@,
                entry_id,
                template_name@,
            ),
    {
        let url = match ApiHelper::build_entries_url(&api_server, entry_id) {
            Ok(url) => url,
            Err(e) => {
                return Err(e);
            },
        };
        let name = match validate_field_name(patterns, template_name.as_str()) {
            Ok(name) => name,
            Err(e) => {
                return Err(e);
            },
        };
        Ok(
            Request::loaded(
                Method::Put,
                with_suffix(url, "/template"),
                auth.access_token,
                Payload::Template { template_name: name },
                STATUS_OK,
            ),
        )
    }

    /// Plans the request that removes the template of an entry. Nothing is
    /// validated.
    pub fn remove_template(api_server: LFApiServer, auth: Auth, entry_id: i64) -> (request: Request)
        ensures
            request@ == bare_request(
                Method::Delete,
                api_server.entry_part_url(entry_id, "/template"@),
                auth.access_token@,
                STATUS_OK,
            ),
    {
        plan_unchecked_request(
            &api_server,
            auth,
            Method::Delete,
            entry_id,
            "/template",
            Payload::Empty,
            STATUS_OK,
        )
    }

    /// Plans the request that fetches the tags of an entry. Nothing is
    /// validated.
    pub fn get_tags(api_server: LFApiServer, auth: Auth, entry_id: i64) -> (request: Request)
        ensures
            request@ == bare_request(
                Method::Get,
                api_server.entry_part_url(entry_id, "/tags"@),
                auth.access_token@,
                STATUS_OK,
            ),
    {
        plan_unchecked_request(
            &api_server,
            auth,
            Method::Get,
            entry_id,
            "/tags",
            Payload::Empty,
            STATUS_OK,
        )
    }

    /// Plans the request that assigns tags to an entry. Nothing is
    /// validated.
    pub fn set_tags(api_server: LFApiServer, auth: Auth, entry_id: i64, tag_ids: Vec<i64>) -> (request:
        Request)
        ensures
            request@ == loaded_request(
                Method::Put,
                api_server.entry_part_url(entry_id, "/tags"@),
                auth.access_token@,
                PayloadView::Tags { tag_ids: tag_ids@ },
                STATUS_OK,
            ),
    {
        plan_unchecked_request(
            &api_server,
            auth,
            Method::Put,
            entry_id,
            "/tags",
            Payload::Tags { tag_ids },
            STATUS_OK,
        )
    }

    /// Plans the request that fetches the links of an entry. Nothing is
    /// validated.
    pub fn get_links(api_server: LFApiServer, auth: Auth, entry_id: i64) -> (request: Request)
        ensures
            request@ == bare_request(
                Method::Get,
                api_server.entry_part_url(entry_id, "/links"@),
                auth.access_token@,
                STATUS_OK,
            ),
    {
        plan_unchecked_request(
            &api_server,
            auth,
            Method::Get,
            entry_id,
            "/links",
            Payload::Empty,
            STATUS_OK,
        )
    }
}

} // verus!
