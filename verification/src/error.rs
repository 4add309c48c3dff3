use vstd::prelude::*;

verus! {

/// The server's structured description of a failed query, decoded from a
/// response body that carries no `dataset` field. The wire form is a flat
/// object with the query text, the error message, and the character position
/// of the error within the query.
#[derive(Debug, PartialEq, Eq)]
pub struct SQLError {
    pub query: String,
    pub error: String,
    pub position: u64,
}

/// Everything an operation of this library can fail with. The kinds are
/// disjoint: a failure of the HTTP exchange itself, a local file failure, a
/// response body that cannot be decoded, and a well-formed response in which
/// the server reports that the query produced no dataset.
#[derive(Debug, PartialEq, Eq)]
pub enum ClientError {
    TransportError(String),
    IoError(String),
    DecodeError(String),
    QueryFailed(SQLError),
}

} // verus!
