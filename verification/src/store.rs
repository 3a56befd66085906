//! Decision logic of the user-store gateway.
//!
//! The gateway reaches a document store over HTTP with the service's own
//! store credentials. The transport itself lives outside this crate; what is
//! decided about a store answer - which row of a unique lookup counts, and
//! which error class a write's status code maps to - is verified here.

use vstd::prelude::*;

use crate::errors::AuthError;
use crate::models::{CouchDbViewRow, User};

verus! {

/// The query path of the unique-username lookup: a GET against the
/// by-username view, keyed by the exact username.
pub fn user_lookup_path(username: &str) -> (r: String)
    ensures
        r@ == "/users/_design/users/_view/by_username?key=\""@ + username@ + "\""@,
{
    let mut path: String = "/users/_design/users/_view/by_username?key=\"".to_owned();
    path.append(username);
    path.append("\"");
    path
}

/// The query path listing a user's notebooks: a GET against the by-user
/// view, keyed by the user's id.
pub fn notebook_list_path(user_id: &str) -> (r: String)
    ensures
        r@ == "/notebooks/_design/notebooks/_view/by_user?key=\""@ + user_id@ + "\""@,
{
    let mut path: String = "/notebooks/_design/notebooks/_view/by_user?key=\"".to_owned();
    path.append(user_id);
    path.append("\"");
    path
}

/// The query path listing a notebook's notes: a GET against the by-notebook
/// view, keyed by the notebook's id.
pub fn note_list_path(notebook_id: &str) -> (r: String)
    ensures
        r@ == "/notes/_design/notes/_view/by_notebook?key=\""@ + notebook_id@ + "\""@,
{
    let mut path: String = "/notes/_design/notes/_view/by_notebook?key=\"".to_owned();
    path.append(notebook_id);
    path.append("\"");
    path
}

/// The documents of the rows that still carry one, in row order.
pub open spec fn present_docs<T>(rows: Seq<CouchDbViewRow<T>>) -> Seq<T>
    decreases rows.len(),
{
    if rows.len() == 0 {
        Seq::empty()
    } else {
        match rows.first().doc {
            Some(d) => seq![d] + present_docs(rows.drop_first()),
            None => present_docs(rows.drop_first()),
        }
    }
}

/// Collects the documents out of a view answer, keeping row order and
/// skipping rows whose document is gone.
pub fn docs_of<T>(rows: Vec<CouchDbViewRow<T>>) -> (r: Vec<T>)
    ensures
        r@ == present_docs(rows@),
{
    let ghost all = rows@;
    let mut rows = rows;
    let mut out: Vec<T> = Vec::new();
    while rows.len() > 0
        invariant
            present_docs(all) == out@ + present_docs(rows@),
        decreases rows@.len(),
    {
        let ghost rows_before = rows@;
        let ghost out_before = out@;
        let row = rows.remove(0);
        proof {
            assert(rows_before.drop_first() =~= rows@);
        }
        if let Some(d) = row.doc {
            out.push(d);
            proof {
                assert(out@ =~= out_before + seq![d]);
                assert(out_before + (seq![d] + present_docs(rows@)) =~= out@ + present_docs(
                    rows@,
                ));
            }
        }
    }
    proof {
        assert(out@ + present_docs(rows@) =~= out@);
    }
    out
}

/// The document of the first row of a view answer, if any.
///
/// A unique lookup is expected to return at most one row; should the store
/// hand back more, the first is taken deterministically rather than
/// crashing on the inconsistency, and a row without its document counts as
/// no match.
pub fn first_doc<T>(rows: Vec<CouchDbViewRow<T>>) -> (r: Option<T>)
    ensures
        r == (if rows@.len() > 0 {
            rows@[0].doc
        } else {
            Option::<T>::None
        }),
{
    let mut rows = rows;
    if rows.len() > 0 {
        let row = rows.remove(0);
        row.doc
    } else {
        None
    }
}

/// Merges the store's answer to a create: the created record is the echoed
/// document, with the envelope's assigned id and revision filled in wherever
/// the echoed document does not carry its own.
pub fn merge_created(echoed: User, envelope_id: String, envelope_rev: String) -> (r: User)
    ensures
        r._id == (if echoed._id is Some {
            echoed._id
        } else {
            Some(envelope_id)
        }),
        r._rev == (if echoed._rev is Some {
            echoed._rev
        } else {
            Some(envelope_rev)
        }),
        r.username == echoed.username,
        r.email == echoed.email,
        r.password_hash == echoed.password_hash,
        r.created_at == echoed.created_at,
        r.updated_at == echoed.updated_at,
{
    let mut created = echoed;
    if created._id.is_none() {
        created._id = Some(envelope_id);
    }
    if created._rev.is_none() {
        created._rev = Some(envelope_rev);
    }
    created
}

/// Classifies the status code of a create request: any success code means
/// the document was persisted, a conflict code means the store rejected a
/// uniqueness or revision violation, and everything else counts as the store
/// being unavailable.
pub fn classify_create_status(status: u16) -> (r: Result<(), AuthError>)
    ensures
        r is Ok <==> 200 <= status < 300,
        status == 409 ==> r == Err::<(), AuthError>(AuthError::StoreConflict),
        !(200 <= status < 300) && status != 409 ==> r == Err::<(), AuthError>(
            AuthError::StoreUnavailable,
        ),
{
    if 200 <= status && status < 300 {
        Ok(())
    } else if status == 409 {
        Err(AuthError::StoreConflict)
    } else {
        Err(AuthError::StoreUnavailable)
    }
}

/// Classifies the status code of a lookup: a success code carries a view
/// answer, anything else means the store could not serve the query. Absence
/// of a user is never inferred from a failed request.
pub fn classify_lookup_status(status: u16) -> (r: Result<(), AuthError>)
    ensures
        r is Ok <==> 200 <= status < 300,
        r matches Err(e) ==> e == AuthError::StoreUnavailable,
{
    if 200 <= status && status < 300 {
        Ok(())
    } else {
        Err(AuthError::StoreUnavailable)
    }
}

} // verus!
