//! Input validation and request planning for a document-repository API client.
//!
//! Every value that ends up in a URL, a file-system path or a JSON body is
//! first run through [`validation`]; the rest of the crate builds requests
//! from validated values only.

pub mod config;
pub mod json;
pub mod laserfiche;
pub mod patterns;
pub mod safe_access;
pub mod text;
pub mod validation;
