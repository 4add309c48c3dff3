//! Client-side logic for a tabular database's HTTP query surface.
//!
//! The crate builds correctly encoded query URLs from optional parameters,
//! tells a successful result payload apart from an embedded error payload in
//! a response body, and prepares bulk file uploads. The HTTP exchange itself
//! and all file access stay outside: callers hand the functions here plain
//! values (query text, response bodies, file bytes) and get plain values back.

mod text;
mod encoding;
mod types;
mod error;
mod response;
mod api;

pub use api::file_name_of;
pub use api::ImportRequest;
pub use api::QuestDB;
pub use error::ClientError;
pub use error::SQLError;
pub use response::exec_result;
pub use response::result_from_payload;
pub use response::interpret_exec_body;
pub use response::payload_from_fields;
pub use response::ResponsePayload;
pub use text::u64_to_dec;
pub use types::Atomicity;
pub use types::PagingRange;
