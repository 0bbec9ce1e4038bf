use imp::auth::tokens::{delete_tokens, load_tokens, save_tokens, CredentialStore, Slot, StoreError};
use imp::auth::types::Tokens;

fn tokens(tag: &str) -> Tokens {
    Tokens {
        access_token: format!("access-{tag}"),
        id_token: format!("id-{tag}"),
        refresh_token: format!("refresh-{tag}"),
    }
}

#[test]
fn save_then_load_round_trips() {
    let mut store = CredentialStore::new(Slot::Absent);
    save_tokens(&mut store, &tokens("a"));
    assert_eq!(load_tokens(&store), Ok(tokens("a")));
}

#[test]
fn delete_is_idempotent() {
    let mut store = CredentialStore::new(Slot::Holding(tokens("a")));
    delete_tokens(&mut store);
    assert!(store.is_absent());
    delete_tokens(&mut store);
    assert!(store.is_absent());
    assert_eq!(load_tokens(&store), Err(StoreError::NotLoggedIn));
}

#[test]
fn save_replaces_the_credential_as_a_whole() {
    let mut store = CredentialStore::new(Slot::Holding(tokens("a")));
    save_tokens(&mut store, &tokens("b"));
    assert_eq!(load_tokens(&store), Ok(tokens("b")));
    assert!(!store.is_absent());
}

#[test]
fn unreadable_store_is_corrupt() {
    let mut store = CredentialStore::new(Slot::Unreadable);
    assert_eq!(load_tokens(&store), Err(StoreError::Corrupt));
    assert!(!store.is_absent());
    save_tokens(&mut store, &tokens("a"));
    assert_eq!(load_tokens(&store), Ok(tokens("a")));
    delete_tokens(&mut store);
    assert!(store.is_absent());
}

#[test]
fn absent_store_is_not_logged_in() {
    let mut store = CredentialStore::new(Slot::Absent);
    assert_eq!(load_tokens(&store), Err(StoreError::NotLoggedIn));
    delete_tokens(&mut store);
    assert_eq!(load_tokens(&store), Err(StoreError::NotLoggedIn));
}

#[test]
fn credential_file_is_for_the_owner_alone() {
    assert_eq!(imp::auth::tokens::CREDENTIAL_FILE_MODE, 0o600);
}
