use rst04_jwt::auth::store::{answer, holds_token};
use rst04_jwt::auth::{CredentialStore, Credentials, StoreReply, StoreRequest};

fn text(s: &str) -> String {
    s.to_string()
}

fn store() -> CredentialStore {
    let mut store = CredentialStore::new();
    assert!(store.register(Credentials::new(text("alice"), text("d1"))));
    assert!(store.register(Credentials::new(text("bob"), text("d2"))));
    assert!(store.register(Credentials::new(text("carol"), text("d3"))));
    store
}

fn session(username: &str, password: &str, token: &str, max_age: i64) -> Credentials {
    Credentials {
        username: text(username),
        password: text(password),
        refresh_token: Some(text(token)),
        max_age: Some(max_age),
    }
}

#[test]
fn a_new_record_has_no_session() {
    let record = Credentials::new(text("alice"), text("digest"));
    assert_eq!(record.refresh_token, None);
    assert_eq!(record.max_age, None);
    assert!(record.is_wf());
    assert_eq!(record.duplicate(), record);
}

#[test]
fn a_record_with_half_a_session_is_malformed() {
    let mut record = Credentials::new(text("alice"), text("digest"));
    record.refresh_token = Some(text("tok"));
    assert!(!record.is_wf());
    record.max_age = Some(5);
    assert!(record.is_wf());
    record.refresh_token = None;
    assert!(!record.is_wf());
}

#[test]
fn register_refuses_a_taken_name_and_a_malformed_record() {
    let mut store = store();
    assert!(!store.register(Credentials::new(text("alice"), text("other"))));
    let mut half = Credentials::new(text("dave"), text("d4"));
    half.max_age = Some(1);
    assert!(!store.register(half));
    assert_eq!(store.len(), 3);
    assert_eq!(store.record(0), Some(Credentials::new(text("alice"), text("d1"))));
    assert_eq!(store.record(3), None);
    assert!(store.register(session("dave", "d4", "tok", 9)));
    assert_eq!(store.len(), 4);
}

#[test]
fn find_by_username_gives_the_record_of_the_account() {
    let store = store();
    assert_eq!(store.find_by_username(&text("bob")), Some(Credentials::new(text("bob"), text("d2"))));
    assert_eq!(store.find_by_username(&text("Bob")), None);
    assert_eq!(store.find_by_username(&text("")), None);
}

#[test]
fn set_refresh_gives_one_account_a_session() {
    let mut store = store();
    store.set_refresh(&text("bob"), &text("tok"), 77);
    assert_eq!(store.record(0), Some(Credentials::new(text("alice"), text("d1"))));
    assert_eq!(store.record(1), Some(session("bob", "d2", "tok", 77)));
    assert_eq!(store.record(2), Some(Credentials::new(text("carol"), text("d3"))));
    assert_eq!(store.find_by_refresh_token(&text("tok")), Some(session("bob", "d2", "tok", 77)));
    store.set_refresh(&text("bob"), &text("tok2"), 99);
    assert_eq!(store.record(1), Some(session("bob", "d2", "tok2", 99)));
    assert_eq!(store.find_by_refresh_token(&text("tok")), None);
    store.set_refresh(&text("nobody"), &text("tok3"), 1);
    assert_eq!(store.find_by_refresh_token(&text("tok3")), None);
}

#[test]
fn replace_refresh_keeps_the_expiry() {
    let mut store = store();
    store.set_refresh(&text("bob"), &text("tok"), 77);
    store.replace_refresh(&text("tok"), &text("new"));
    assert_eq!(store.record(1), Some(session("bob", "d2", "new", 77)));
    assert_eq!(store.record(0), Some(Credentials::new(text("alice"), text("d1"))));
    store.replace_refresh(&text("tok"), &text("newer"));
    assert_eq!(store.record(1), Some(session("bob", "d2", "new", 77)));
}

#[test]
fn a_write_changes_every_record_that_its_key_matches() {
    let mut store = store();
    store.set_refresh(&text("alice"), &text("tok"), 1);
    store.set_refresh(&text("carol"), &text("tok"), 2);
    assert_eq!(store.find_by_refresh_token(&text("tok")), Some(session("alice", "d1", "tok", 1)));
    store.replace_refresh(&text("tok"), &text("new"));
    assert_eq!(store.record(0), Some(session("alice", "d1", "new", 1)));
    assert_eq!(store.record(2), Some(session("carol", "d3", "new", 2)));
    store.clear_refresh(&text("new"));
    assert_eq!(store.record(0), Some(Credentials::new(text("alice"), text("d1"))));
    assert_eq!(store.record(2), Some(Credentials::new(text("carol"), text("d3"))));
}

#[test]
fn clear_refresh_clears_the_token_and_the_expiry() {
    let mut store = store();
    store.set_refresh(&text("bob"), &text("tok"), 77);
    store.clear_refresh(&text("other"));
    assert_eq!(store.record(1), Some(session("bob", "d2", "tok", 77)));
    store.clear_refresh(&text("tok"));
    assert_eq!(store.record(1), Some(Credentials::new(text("bob"), text("d2"))));
}

#[test]
fn perform_serves_each_request() {
    let mut store = store();
    let no_row = "no rows returned by a query that expected to return at least one row";
    assert_eq!(
        store.perform(&StoreRequest::FindByUsername { username: text("alice") }),
        StoreReply::Row(Credentials::new(text("alice"), text("d1")))
    );
    assert_eq!(
        store.perform(&StoreRequest::FindByUsername { username: text("zed") }),
        StoreReply::Failed(text(no_row))
    );
    assert_eq!(
        store.perform(&StoreRequest::SetRefresh {
            username: text("alice"),
            token: text("tok"),
            max_age: 5
        }),
        StoreReply::Done
    );
    assert_eq!(
        store.perform(&StoreRequest::FindByRefreshToken { token: text("tok") }),
        StoreReply::Row(session("alice", "d1", "tok", 5))
    );
    assert_eq!(
        store.perform(&StoreRequest::ReplaceRefresh {
            old_token: text("tok"),
            new_token: text("new")
        }),
        StoreReply::Done
    );
    assert_eq!(
        store.perform(&StoreRequest::FindByRefreshToken { token: text("tok") }),
        StoreReply::Failed(text(no_row))
    );
    assert_eq!(store.perform(&StoreRequest::ClearRefresh { token: text("new") }), StoreReply::Done);
    assert_eq!(
        store.perform(&StoreRequest::FindByUsername { username: text("alice") }),
        StoreReply::Row(Credentials::new(text("alice"), text("d1")))
    );
    assert_eq!(
        store.perform(&StoreRequest::InsertCredentials {
            username: text("dave"),
            password: text("d4")
        }),
        StoreReply::Done
    );
    assert_eq!(store.len(), 4);
    assert_eq!(
        store.perform(&StoreRequest::InsertCredentials {
            username: text("dave"),
            password: text("d5")
        }),
        StoreReply::Failed(text("duplicate entry for the key username"))
    );
    assert_eq!(store.record(3), Some(Credentials::new(text("dave"), text("d4"))));
}

#[test]
fn holds_token_compares_the_whole_token() {
    let record = session("alice", "d", "tok", 1);
    assert!(holds_token(&record, &text("tok")));
    assert!(!holds_token(&record, &text("to")));
    assert!(!holds_token(&record, &text("TOK")));
    assert!(!holds_token(&Credentials::new(text("alice"), text("d")), &text("")));
}

#[test]
fn answer_wraps_what_a_read_found() {
    let record = Credentials::new(text("alice"), text("d"));
    assert_eq!(answer(Some(record.duplicate())), StoreReply::Row(record));
    assert!(matches!(answer(None), StoreReply::Failed(_)));
}

#[test]
fn the_credentials_of_an_account_are_read_by_its_name() {
    assert_eq!(
        rst04_jwt::auth::helpers::get_user_credentials(&text("alice")),
        StoreRequest::FindByUsername { username: text("alice") }
    );
}
