//! The description of one HTTP request, for a transport to send.

use crate::json::{JsonValue, JsonView};
use crate::laserfiche::{DestroyEntry, NewEntry, PatchedEntry};
use vstd::prelude::*;

verus! {

/// The HTTP method of a request.
#[derive(Debug, Clone, Copy, PartialEq, Eq)]
pub enum Method {
    Get,
    Post,
    Put,
    Patch,
    Delete,
    Head,
}

/// The status that answers a successful read or update.
pub const STATUS_OK: u16 = 200;

/// The status that answers a successful creation.
pub const STATUS_CREATED: u16 = 201;

/// What a request carries in its body.
#[derive(Debug)]
pub enum Payload {
    /// No body.
    Empty,
    /// Form fields, each a name and a value.
    Form(Vec<(String, String)>),
    /// A document to upload: the name and the media type of its file part.
    /// The transport adds the content of the file.
    Document { file_name: String, mime_type: String },
    /// The description of a folder to create.
    NewFolder(NewEntry),
    /// Field values, as validated metadata.
    Metadata(JsonValue),
    /// The audit record of a deletion.
    Deletion(DestroyEntry),
    /// A new parent, a new name, or both.
    Patch(PatchedEntry),
    /// The folder to copy into, and the name of the copy if it gets a new one.
    Copy { target_id: i64, name: Option<String> },
    /// The name of the template to assign.
    Template { template_name: String },
    /// The identifiers of the tags to assign.
    Tags { tag_ids: Vec<i64> },
}

/// The mathematical form of a [`Payload`].
pub enum PayloadView {
    Empty,
    Form(Seq<(Seq<char>, Seq<char>)>),
    Document { file_name: Seq<char>, mime_type: Seq<char> },
    NewFolder { entry_type: Seq<char>, folder_name: Seq<char>, volume_name: Seq<char> },
    Metadata(JsonView),
    Deletion { audit_reason_id: i64, comment: Seq<char> },
    Patch { parent_id: Option<i64>, name: Option<Seq<char>> },
    Copy { target_id: i64, name: Option<Seq<char>> },
    Template { template_name: Seq<char> },
    Tags { tag_ids: Seq<i64> },
}

/// The text of an optional string.
pub open spec fn optional_text(value: Option<String>) -> Option<Seq<char>> {
    match value {
        Some(s) => Some(s@),
        None => None,
    }
}

impl View for Payload {
    type V = PayloadView;

    open spec fn view(&self) -> PayloadView {
        match self {
            Payload::Empty => PayloadView::Empty,
            Payload::Form(fields) => PayloadView::Form(
                Seq::new(fields@.len(), |i: int| (fields@[i].0@, fields@[i].1@)),
            ),
            Payload::Document { file_name, mime_type } => PayloadView::Document {
                file_name: file_name@,
                mime_type: mime_type@,
            },
            Payload::NewFolder(folder) => PayloadView::NewFolder {
                entry_type: folder.entry_type@,
                folder_name: folder.name@,
                volume_name: folder.volume_name@,
            },
            Payload::Metadata(metadata) => PayloadView::Metadata(metadata@),
            Payload::Deletion(record) => PayloadView::Deletion {
                audit_reason_id: record.audit_reason_id,
                comment: record.comment@,
            },
            Payload::Patch(patch) => PayloadView::Patch {
                parent_id: patch.parent_id,
                name: optional_text(patch.name),
            },
            Payload::Copy { target_id, name } => PayloadView::Copy {
                target_id: *target_id,
                name: optional_text(*name),
            },
            Payload::Template { template_name } => PayloadView::Template {
                template_name: template_name@,
            },
            Payload::Tags { tag_ids } => PayloadView::Tags { tag_ids: tag_ids@ },
        }
    }
}

/// One HTTP request.
#[derive(Debug)]
pub struct Request {
    pub method: Method,
    pub url: String,
    /// The access token to present as a bearer token, if any.
    pub bearer: Option<String>,
    pub payload: Payload,
    /// The status by which the server reports success. With any other status
    /// the body of the response describes an error.
    pub expected_status: u16,
}

/// The mathematical form of a [`Request`].
pub struct RequestView {
    pub method: Method,
    pub url: Seq<char>,
    pub bearer: Option<Seq<char>>,
    pub payload: PayloadView,
    pub expected_status: u16,
}

impl View for Request {
    type V = RequestView;

    open spec fn view(&self) -> RequestView {
        RequestView {
            method: self.method,
            url: self.url@,
            bearer: optional_text(self.bearer),
            payload: self.payload@,
            expected_status: self.expected_status,
        }
    }
}

/// A request that presents `token` and carries nothing.
pub open spec fn bare_request(method: Method, url: Seq<char>, token: Seq<char>, status: u16) -> RequestView {
    RequestView {
        method,
        url,
        bearer: Some(token),
        payload: PayloadView::Empty,
        expected_status: status,
    }
}

/// A request that presents `token` and carries `payload`.
pub open spec fn loaded_request(
    method: Method,
    url: Seq<char>,
    token: Seq<char>,
    payload: PayloadView,
    status: u16,
) -> RequestView {
    RequestView { method, url, bearer: Some(token), payload, expected_status: status }
}

impl Request {
    /// A request that presents `token` and carries nothing.
    pub fn bare(method: Method, url: String, token: String, status: u16) -> (request: Request)
        ensures
            request@ == bare_request(method, url@, token@, status),
    {
        Request { method, url, bearer: Some(token), payload: Payload::Empty, expected_status: status }
    }

    /// A request that presents `token` and carries `payload`.
    pub fn loaded(method: Method, url: String, token: String, payload: Payload, status: u16) -> (request:
        Request)
        ensures
            request@ == loaded_request(method, url@, token@, payload@, status),
    {
        Request { method, url, bearer: Some(token), payload, expected_status: status }
    }

    /// Whether a response with status `status` reports success.
    pub fn succeeded(&self, status: u16) -> (b: bool)
        ensures
            b == (status == self.expected_status),
    {
        status == self.expected_status
    }
}

} // verus!
