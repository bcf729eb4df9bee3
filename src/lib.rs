//! Request construction and response shaping for an HTTP client that
//! impersonates browsers: configuration checks, request assembly, body
//! encoding and response normalization, each with a verified contract.

pub mod error;
pub mod text;
pub mod method;
pub mod auth;
pub mod headers;
pub mod form;
pub mod json;
pub mod client;
pub mod request;
pub mod flatten;
pub mod response;

pub use error::ClientError;
pub use method::{parse_method, HttpMethod};
pub use form::{encode_form, flatten_form_fields};
pub use client::{Client, ClientOptions, HttpVersion, RedirectPolicy, TransportSettings};
pub use response::{attach_files, charset_of_content_type, trim_text, eq_ignore_ascii_case, response_charset, Response};
pub use flatten::flatten_last_wins;
pub use request::{ContentType, PreparedRequest, RequestBody};
pub use json::JsonValue;
pub use headers::check_headers;
pub use auth::{resolve_auth, Auth, BasicAuth};
