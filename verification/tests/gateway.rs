use noteauth::config::{base_url_of, Config};
use noteauth::errors::AuthError;
use noteauth::greet;
use noteauth::models::{CouchDbViewRow, User};
use noteauth::store::{
    classify_create_status, classify_lookup_status, docs_of, first_doc, merge_created,
    notebook_list_path, note_list_path, user_lookup_path,
};

fn sample_user(id: &str) -> User {
    User {
        _id: Some(id.to_owned()),
        _rev: Some("1-abc".to_owned()),
        username: "alice".to_owned(),
        email: "a@x.com".to_owned(),
        password_hash: "digest".to_owned(),
        created_at: 0,
        updated_at: 0,
    }
}

fn row(id: &str, doc: Option<User>) -> CouchDbViewRow<User> {
    CouchDbViewRow {
        id: id.to_owned(),
        key: "alice".to_owned(),
        value: sample_user(id),
        doc,
    }
}

#[test]
fn lookup_path_quotes_the_username() {
    assert_eq!(
        user_lookup_path("alice"),
        "/users/_design/users/_view/by_username?key=\"alice\""
    );
    assert_eq!(
        user_lookup_path(""),
        "/users/_design/users/_view/by_username?key=\"\""
    );
}

#[test]
fn list_paths_quote_their_keys() {
    assert_eq!(
        notebook_list_path("u1"),
        "/notebooks/_design/notebooks/_view/by_user?key=\"u1\""
    );
    assert_eq!(
        note_list_path("nb9"),
        "/notes/_design/notes/_view/by_notebook?key=\"nb9\""
    );
}

#[test]
fn docs_of_keeps_order_and_skips_missing() {
    let rows = vec![
        row("u1", Some(sample_user("u1"))),
        row("u2", None),
        row("u3", Some(sample_user("u3"))),
    ];
    let docs = docs_of(rows);
    assert_eq!(docs.len(), 2);
    assert_eq!(docs[0]._id.as_deref(), Some("u1"));
    assert_eq!(docs[1]._id.as_deref(), Some("u3"));
    assert!(docs_of::<User>(vec![]).is_empty());
}

#[test]
fn base_url_renders_host_and_port() {
    assert_eq!(base_url_of("127.0.0.1", 8080), "http://127.0.0.1:8080");
    assert_eq!(base_url_of("localhost", 0), "http://localhost:0");
    assert_eq!(base_url_of("h", 65535), "http://h:65535");
    assert_eq!(base_url_of("h", 100), "http://h:100");
}

#[test]
fn first_doc_of_no_rows_is_none() {
    assert!(first_doc::<User>(vec![]).is_none());
}

#[test]
fn first_doc_takes_the_first_row() {
    let rows = vec![
        row("u1", Some(sample_user("u1"))),
        row("u2", Some(sample_user("u2"))),
    ];
    let picked = first_doc(rows).unwrap();
    assert_eq!(picked._id.as_deref(), Some("u1"));
}

#[test]
fn first_doc_of_row_without_document_is_none() {
    let rows = vec![row("u1", None), row("u2", Some(sample_user("u2")))];
    assert!(first_doc(rows).is_none());
}

#[test]
fn merge_created_fills_missing_id_and_revision() {
    let mut echoed = sample_user("u1");
    echoed._id = None;
    echoed._rev = None;
    let merged = merge_created(echoed, "assigned".to_owned(), "1-xyz".to_owned());
    assert_eq!(merged._id.as_deref(), Some("assigned"));
    assert_eq!(merged._rev.as_deref(), Some("1-xyz"));
    assert_eq!(merged.username, "alice");
}

#[test]
fn merge_created_keeps_present_id_and_revision() {
    let echoed = sample_user("u1");
    let merged = merge_created(echoed, "assigned".to_owned(), "9-zzz".to_owned());
    assert_eq!(merged._id.as_deref(), Some("u1"));
    assert_eq!(merged._rev.as_deref(), Some("1-abc"));
}

#[test]
fn create_status_classification() {
    assert!(classify_create_status(200).is_ok());
    assert!(classify_create_status(201).is_ok());
    assert!(classify_create_status(299).is_ok());
    assert_eq!(
        classify_create_status(409).unwrap_err(),
        AuthError::StoreConflict
    );
    assert_eq!(
        classify_create_status(300).unwrap_err(),
        AuthError::StoreUnavailable
    );
    assert_eq!(
        classify_create_status(503).unwrap_err(),
        AuthError::StoreUnavailable
    );
    assert_eq!(
        classify_create_status(199).unwrap_err(),
        AuthError::StoreUnavailable
    );
}

#[test]
fn lookup_status_classification() {
    assert!(classify_lookup_status(200).is_ok());
    assert_eq!(
        classify_lookup_status(404).unwrap_err(),
        AuthError::StoreUnavailable
    );
    assert_eq!(
        classify_lookup_status(500).unwrap_err(),
        AuthError::StoreUnavailable
    );
}

fn config_for(environment: &str) -> Config {
    Config {
        api_base_url: "http://127.0.0.1:8080".to_owned(),
        api_host: "127.0.0.1".to_owned(),
        api_port: 8080,
        couchdb_url: "http://127.0.0.1:5984".to_owned(),
        couchdb_user: "svc".to_owned(),
        couchdb_password: "SECRET-REDACTED".to_owned(),
        jwt_secret: "SECRET-REDACTED".to_owned(),
        environment: environment.to_owned(),
    }
}

#[test]
fn environment_flags() {
    let dev = config_for("development");
    assert!(dev.is_development());
    assert!(!dev.is_production());

    let prod = config_for("production");
    assert!(!prod.is_development());
    assert!(prod.is_production());

    let staging = config_for("staging");
    assert!(!staging.is_development());
    assert!(!staging.is_production());
}

#[test]
fn greeting() {
    assert_eq!(greet("World".to_owned()), "Hello, World!");
    assert_eq!(greet("".to_owned()), "Hello, !");
}

#[test]
fn error_messages() {
    assert_eq!(AuthError::UsernameTaken.message(), "Username already exists");
    assert_eq!(AuthError::InvalidCredentials.message(), "Invalid credentials");
    assert_eq!(AuthError::InvalidToken.message(), "Invalid token");
    assert_eq!(
        AuthError::RefreshTokenExpired.message(),
        "Refresh token expired"
    );
    assert_eq!(AuthError::StoreConflict.message(), "Store conflict");
    assert_eq!(AuthError::StoreUnavailable.message(), "Store unavailable");
    assert_eq!(AuthError::Internal.message(), "Internal error");
}
