use vstd::prelude::*;
use crate::auth::types::Tokens;

verus! {

/// What the per-user credential location holds.
#[derive(Debug)]
pub enum Slot {
    /// Nothing is stored.
    Absent,
    /// Something is stored that cannot be read back as a credential.
    Unreadable,
    /// One credential.
    Holding(Tokens),
}

/// Why no credential could be loaded. Both mean that the user is not logged in.
#[derive(Debug, Clone, Copy, PartialEq, Eq, Structural)]
pub enum StoreError {
    /// No credential is stored.
    NotLoggedIn,
    /// The stored document is unreadable or corrupt.
    Corrupt,
}

/// The credential store: at most one credential per local user.
#[derive(Debug)]
pub struct CredentialStore {
    slot: Slot,
}

/// Permission bits of the credential document where the system has them:
/// read and write for the owner, nothing for anyone else.
pub const CREDENTIAL_FILE_MODE: u32 = 0o600;

impl CredentialStore {
    /// The content of the store.
    pub closed spec fn view(&self) -> Slot {
        self.slot
    }

    /// A store over the given content.
    pub fn new(slot: Slot) -> (store: Self)
        ensures
            store@ == slot,
    {
        CredentialStore { slot }
    }

    /// Whether nothing is stored.
    pub fn is_absent(&self) -> (absent: bool)
        ensures
            absent == (self@ is Absent),
    {
        match &self.slot {
            Slot::Absent => true,
            _ => false,
        }
    }
}

/// What `load_tokens` returns on a store with the given content.
pub open spec fn loaded(slot: Slot) -> Result<Tokens, StoreError> {
    match slot {
        Slot::Absent => Err(StoreError::NotLoggedIn),
        Slot::Unreadable => Err(StoreError::Corrupt),
        Slot::Holding(tokens) => Ok(tokens),
    }
}

/// The content of a store after `tokens` was saved in it: the new credential
/// alone, whatever was there.
pub open spec fn saved(before: Slot, tokens: Tokens) -> Slot {
    Slot::Holding(tokens)
}

/// The content of a store after its credential was deleted.
pub open spec fn deleted(before: Slot) -> Slot {
    Slot::Absent
}

/// Replaces whatever the store holds by `tokens`.
pub fn save_tokens(store: &mut CredentialStore, tokens: &Tokens)
    ensures
        final(store)@ == saved(old(store)@, *tokens),
{
    store.slot = Slot::Holding(tokens.clone());
}

/// A copy of the stored credential, or the reason why there is none.
pub fn load_tokens(store: &CredentialStore) -> (found: Result<Tokens, StoreError>)
    ensures
        found == loaded(store@),
{
    match &store.slot {
        Slot::Absent => Err(StoreError::NotLoggedIn),
        Slot::Unreadable => Err(StoreError::Corrupt),
        Slot::Holding(tokens) => Ok(tokens.clone()),
    }
}

/// Empties the store, whatever it held.
pub fn delete_tokens(store: &mut CredentialStore)
    ensures
        final(store)@ == deleted(old(store)@),
{
    store.slot = Slot::Absent;
}

/// Loading after saving yields the credential that was saved, whatever the
/// store held before.
pub proof fn law_save_then_load(before: Slot, tokens: Tokens)
    ensures
        loaded(saved(before, tokens)) == Ok::<Tokens, StoreError>(tokens),
{
}

/// Deleting leaves the store empty whether or not it held anything, so that
/// deleting twice is the same as deleting once, and loading then finds no
/// credential.
pub proof fn law_delete_is_idempotent(before: Slot)
    ensures
        deleted(before) is Absent,
        deleted(deleted(before)) == deleted(before),
        loaded(deleted(before)) == Err::<Tokens, StoreError>(StoreError::NotLoggedIn),
{
}

} // verus!
