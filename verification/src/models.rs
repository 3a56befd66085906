//! The record shapes that cross component boundaries: the identity record,
//! the note-taking documents, and the envelopes the document store wraps its
//! answers in. Everything here is an immutable value; timestamps are seconds
//! since the Unix epoch in UTC.

use vstd::prelude::*;

verus! {

/// An identity record as the user store holds it. The store assigns `_id`
/// on creation and bumps `_rev` on every update; a draft that was never
/// persisted carries neither.
#[derive(Clone, Debug)]
pub struct User {
    /// Opaque store-assigned id, immutable after creation.
    pub _id: Option<String>,
    /// Opaque revision marker for optimistic concurrency.
    pub _rev: Option<String>,
    /// Unique across all users; the store enforces the unique index.
    pub username: String,
    pub email: String,
    /// Salted digest of the password; the raw password is never stored.
    pub password_hash: String,
    pub created_at: i64,
    pub updated_at: i64,
}

/// A notebook document.
#[derive(Clone, Debug)]
pub struct Notebook {
    pub _id: Option<String>,
    pub _rev: Option<String>,
    pub user_id: String,
    pub name: String,
    pub description: Option<String>,
    pub color: Option<String>,
    pub created_at: String,
    pub updated_at: String,
}

/// What a caller supplies to create a notebook.
#[derive(Clone, Debug)]
pub struct CreateNotebookRequest {
    pub name: String,
    pub description: Option<String>,
    pub color: Option<String>,
}

/// A note document, always belonging to one notebook of one user.
#[derive(Clone, Debug)]
pub struct Note {
    pub _id: Option<String>,
    pub _rev: Option<String>,
    pub user_id: String,
    pub notebook_id: String,
    pub title: String,
    pub content: String,
    pub created_at: String,
    pub updated_at: String,
}

/// What a caller supplies to create a note.
#[derive(Clone, Debug)]
pub struct CreateNoteRequest {
    pub notebook_id: String,
    pub title: String,
    pub content: String,
}

/// An error body as a transport layer reports it.
#[derive(Clone, Debug)]
pub struct ApiError {
    pub error: String,
    pub status_code: Option<u16>,
}

/// The envelope the document store wraps a single created or fetched
/// document in: the document's fields beside its assigned id and revision.
#[derive(Clone, Debug)]
pub struct CouchDbResponse<T> {
    pub _id: String,
    pub _rev: String,
    pub data: T,
}

/// The answer to a view query: zero or more rows out of the index.
#[derive(Clone, Debug)]
pub struct CouchDbViewResponse<T> {
    pub total_rows: i64,
    pub offset: i64,
    pub rows: Vec<CouchDbViewRow<T>>,
}

/// One row of a view answer; `doc` is present when the query asked for the
/// documents themselves and the row's document still exists.
#[derive(Clone, Debug)]
pub struct CouchDbViewRow<T> {
    pub id: String,
    pub key: String,
    pub value: T,
    pub doc: Option<T>,
}

} // verus!
