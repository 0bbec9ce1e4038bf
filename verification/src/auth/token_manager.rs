use vstd::prelude::*;
use crate::auth::auth::{complete_refresh, refresh_outcome, AuthFailure, ProviderFailure, ProviderReply};
use crate::auth::jwk::{admits, validate_token, JwkSet, ValidationError};
use crate::auth::types::Tokens;

verus! {

/// What an authenticated command is told when it gets no token.
#[derive(Debug, Clone, Copy, PartialEq, Eq, Structural)]
pub enum TokenError {
    /// No credential is stored on this machine.
    NotLoggedIn,
    /// The stored credential could not be recovered: log in again.
    NeedsLogin,
}

/// Why the stored credential could not be recovered. It is kept for
/// diagnostics; nothing is ever attempted again on its account.
#[derive(Debug, Clone, Copy, PartialEq, Eq, Structural)]
pub enum Cause {
    /// The refresh did not yield a credential.
    RefreshFailed(AuthFailure),
    /// The refreshed credential could not be written to the store.
    NotPersisted,
    /// The refreshed token is invalid even under freshly fetched keys.
    StillInvalid(ValidationError),
    /// An answer came that the cascade had not asked for.
    OutOfTurn,
}

/// How the cascade ended.
#[derive(Debug)]
pub enum Outcome {
    /// This access token is valid.
    Token(String),
    /// No credential is stored.
    NotLoggedIn,
    /// The credential could not be recovered.
    NeedsLogin(Cause),
}

/// The recovery cascade: validate, refresh, persist, validate again, fetch
/// the keys anew, validate one last time. Each state waits for the answer to
/// the one thing it asked for, and no state is ever entered twice.
#[derive(Debug)]
pub enum Cascade {
    /// Waiting for the stored credential.
    Start,
    /// Waiting for the cached keys, to validate the stored access token.
    CheckStored(Tokens),
    /// Waiting for the provider to exchange the refresh token.
    Refresh(Tokens),
    /// Waiting for the refreshed credential to be stored.
    Persist(Tokens),
    /// Waiting for the cached keys, to validate the refreshed access token.
    CheckRefreshed(Tokens),
    /// Waiting for freshly fetched keys, to validate one last time.
    Refetch(Tokens),
    /// Ended.
    Done(Outcome),
}

/// What the cascade asks its caller to do next.
#[derive(Debug)]
pub enum Action {
    /// Load the stored credential.
    LoadCredential,
    /// Read the cached key set. No network is involved.
    ReadCachedKeys,
    /// Ask the provider to exchange this refresh token.
    Refresh { refresh_token: String },
    /// Write this credential to the store, replacing what is there.
    Save(Tokens),
    /// Fetch the key set from the provider and overwrite the cache with it.
    FetchKeys,
    /// Nothing more: this is the result.
    Finish(Result<String, TokenError>),
}

/// An answer, as the cascade reasons about it.
#[derive(Debug)]
pub enum Observation {
    /// The stored credential, if there is one.
    Credential(Option<Tokens>),
    /// The verdict on the access token at hand.
    Verdict(Result<(), ValidationError>),
    /// What the refresh yielded.
    Refreshed(Result<Tokens, AuthFailure>),
    /// Whether the credential was stored.
    Saved(bool),
}

/// An answer, as the caller has it.
#[derive(Debug)]
pub enum Event {
    /// The stored credential, if there is one.
    Credential(Option<Tokens>),
    /// A key set: the cached one after `ReadCachedKeys`, the fetched one
    /// after `FetchKeys`; `None` where it is missing, malformed or could not
    /// be fetched.
    Keys(Option<JwkSet>),
    /// The provider's answer to the refresh call.
    RefreshReply(Result<ProviderReply, ProviderFailure>),
    /// Whether the credential was stored.
    Saved(bool),
}

/// What is handed upward for an outcome: the token, or one of two plain
/// instructions whatever the cause was.
pub open spec fn handed_up(outcome: Outcome) -> Result<String, TokenError> {
    match outcome {
        Outcome::Token(token) => Ok(token),
        Outcome::NotLoggedIn => Err(TokenError::NotLoggedIn),
        Outcome::NeedsLogin(_) => Err(TokenError::NeedsLogin),
    }
}

/// What the cascade asks for in `state`.
pub open spec fn action_of(state: Cascade) -> Action {
    match state {
        Cascade::Start => Action::LoadCredential,
        Cascade::CheckStored(_) => Action::ReadCachedKeys,
        Cascade::Refresh(tokens) => Action::Refresh { refresh_token: tokens.refresh_token },
        Cascade::Persist(tokens) => Action::Save(tokens),
        Cascade::CheckRefreshed(_) => Action::ReadCachedKeys,
        Cascade::Refetch(_) => Action::FetchKeys,
        Cascade::Done(outcome) => Action::Finish(handed_up(outcome)),
    }
}

/// The state that follows `state` on `seen`.
///
/// An answer that `state` did not ask for ends the cascade; an ended cascade
/// stays as it is.
pub open spec fn advanced(state: Cascade, seen: Observation) -> Cascade {
    match (state, seen) {
        (Cascade::Done(outcome), _) => Cascade::Done(outcome),
        (Cascade::Start, Observation::Credential(None)) => Cascade::Done(Outcome::NotLoggedIn),
        (Cascade::Start, Observation::Credential(Some(tokens))) => Cascade::CheckStored(tokens),
        (Cascade::CheckStored(tokens), Observation::Verdict(Ok(_))) => Cascade::Done(
            Outcome::Token(tokens.access_token),
        ),
        (Cascade::CheckStored(tokens), Observation::Verdict(Err(_))) => Cascade::Refresh(tokens),
        (Cascade::Refresh(_), Observation::Refreshed(Ok(tokens))) => Cascade::Persist(tokens),
        (Cascade::Refresh(_), Observation::Refreshed(Err(failure))) => Cascade::Done(
            Outcome::NeedsLogin(Cause::RefreshFailed(failure)),
        ),
        (Cascade::Persist(tokens), Observation::Saved(true)) => Cascade::CheckRefreshed(tokens),
        (Cascade::Persist(_), Observation::Saved(false)) => Cascade::Done(
            Outcome::NeedsLogin(Cause::NotPersisted),
        ),
        (Cascade::CheckRefreshed(tokens), Observation::Verdict(Ok(_))) => Cascade::Done(
            Outcome::Token(tokens.access_token),
        ),
        (Cascade::CheckRefreshed(tokens), Observation::Verdict(Err(_))) => Cascade::Refetch(
            tokens,
        ),
        (Cascade::Refetch(tokens), Observation::Verdict(Ok(_))) => Cascade::Done(
            Outcome::Token(tokens.access_token),
        ),
        (Cascade::Refetch(_), Observation::Verdict(Err(error))) => Cascade::Done(
            Outcome::NeedsLogin(Cause::StillInvalid(error)),
        ),
        (_, _) => Cascade::Done(Outcome::NeedsLogin(Cause::OutOfTurn)),
    }
}

/// The access token that `state` waits to have validated, if it does.
pub open spec fn token_at_hand(state: Cascade) -> Option<String> {
    match state {
        Cascade::CheckStored(tokens) => Some(tokens.access_token),
        Cascade::CheckRefreshed(tokens) => Some(tokens.access_token),
        Cascade::Refetch(tokens) => Some(tokens.access_token),
        _ => None,
    }
}

/// Whether `seen` is what the cascade may make of `event` in `state`.
///
/// A stored credential, a save and a refresh are taken as they come. A key
/// set becomes the verdict on the token at hand: a missing set is a failed
/// validation, and so is any key set where no token is at hand.
pub open spec fn makes_of(state: Cascade, event: Event, seen: Observation) -> bool {
    match event {
        Event::Credential(found) => seen == Observation::Credential(found),
        Event::Saved(stored) => seen == Observation::Saved(stored),
        Event::RefreshReply(reply) => seen == Observation::Refreshed(refresh_outcome(reply)),
        Event::Keys(keys) => match (keys, token_at_hand(state)) {
            (Some(keys), Some(token)) => seen is Verdict && admits(
                token@,
                keys.keys@,
                seen->Verdict_0,
            ),
            _ => seen == Observation::Verdict(
                Err::<(), ValidationError>(ValidationError::KeySetUnavailable),
            ),
        },
    }
}

impl Cascade {
    /// A cascade that has done nothing yet.
    pub fn new() -> (state: Self)
        ensures
            state == Cascade::Start,
    {
        Cascade::Start
    }

    /// What to do next.
    pub fn action(&self) -> (action: Action)
        ensures
            action == action_of(*self),
    {
        match self {
            Cascade::Start => Action::LoadCredential,
            Cascade::CheckStored(_) => Action::ReadCachedKeys,
            Cascade::Refresh(tokens) => Action::Refresh {
                refresh_token: tokens.refresh_token.clone(),
            },
            Cascade::Persist(tokens) => Action::Save(tokens.clone()),
            Cascade::CheckRefreshed(_) => Action::ReadCachedKeys,
            Cascade::Refetch(_) => Action::FetchKeys,
            Cascade::Done(outcome) => Action::Finish(
                match outcome {
                    Outcome::Token(token) => Ok(token.clone()),
                    Outcome::NotLoggedIn => Err(TokenError::NotLoggedIn),
                    Outcome::NeedsLogin(_) => Err(TokenError::NeedsLogin),
                },
            ),
        }
    }

    /// Takes one answer and moves to the next state.
    pub fn advance(self, seen: Observation) -> (next: Self)
        ensures
            next == advanced(self, seen),
    {
        match (self, seen) {
            (Cascade::Done(outcome), _) => Cascade::Done(outcome),
            (Cascade::Start, Observation::Credential(None)) => Cascade::Done(Outcome::NotLoggedIn),
            (Cascade::Start, Observation::Credential(Some(tokens))) => Cascade::CheckStored(
                tokens,
            ),
            (Cascade::CheckStored(tokens), Observation::Verdict(Ok(_))) => Cascade::Done(
                Outcome::Token(tokens.access_token),
            ),
            (Cascade::CheckStored(tokens), Observation::Verdict(Err(_))) => Cascade::Refresh(
                tokens,
            ),
            (Cascade::Refresh(_), Observation::Refreshed(Ok(tokens))) => Cascade::Persist(tokens),
            (Cascade::Refresh(_), Observation::Refreshed(Err(failure))) => Cascade::Done(
                Outcome::NeedsLogin(Cause::RefreshFailed(failure)),
            ),
            (Cascade::Persist(tokens), Observation::Saved(true)) => Cascade::CheckRefreshed(
                tokens,
            ),
            (Cascade::Persist(_), Observation::Saved(false)) => Cascade::Done(
                Outcome::NeedsLogin(Cause::NotPersisted),
            ),
            (Cascade::CheckRefreshed(tokens), Observation::Verdict(Ok(_))) => Cascade::Done(
                Outcome::Token(tokens.access_token),
            ),
            (Cascade::CheckRefreshed(tokens), Observation::Verdict(Err(_))) => Cascade::Refetch(
                tokens,
            ),
            (Cascade::Refetch(tokens), Observation::Verdict(Ok(_))) => Cascade::Done(
                Outcome::Token(tokens.access_token),
            ),
            (Cascade::Refetch(_), Observation::Verdict(Err(error))) => Cascade::Done(
                Outcome::NeedsLogin(Cause::StillInvalid(error)),
            ),
            (_, _) => Cascade::Done(Outcome::NeedsLogin(Cause::OutOfTurn)),
        }
    }

    /// The access token that waits to be validated, if one does.
    fn at_hand(&self) -> (token: Option<&String>)
        ensures
            match token {
                Some(token) => token_at_hand(*self) == Some(*token),
                None => token_at_hand(*self) is None,
            },
    {
        match self {
            Cascade::CheckStored(tokens) => Some(&tokens.access_token),
            Cascade::CheckRefreshed(tokens) => Some(&tokens.access_token),
            Cascade::Refetch(tokens) => Some(&tokens.access_token),
            _ => None,
        }
    }
}

/// One step of the cascade: takes the answer to what `state` asked for,
/// decides what it means, and moves on.
///
/// A key set is used, as one snapshot, to validate the access token at hand
/// for the audience `client_id`; a provider's answer to the refresh is read
/// for its credential.
pub fn validate_and_refresh(state: Cascade, event: Event, client_id: &str) -> (next: Cascade)
    ensures
        exists|seen: Observation| makes_of(state, event, seen) && next == advanced(state, seen),
{
    let seen = match event {
        Event::Credential(found) => Observation::Credential(found),
        Event::Saved(stored) => Observation::Saved(stored),
        Event::RefreshReply(reply) => Observation::Refreshed(complete_refresh(reply)),
        Event::Keys(keys) => match (&keys, state.at_hand()) {
            (Some(keys), Some(token)) => Observation::Verdict(
                validate_token(token.as_str(), keys, client_id),
            ),
            _ => Observation::Verdict(Err(ValidationError::KeySetUnavailable)),
        },
    };
    assert(makes_of(state, event, seen));
    state.advance(seen)
}

/// What an authenticated command gets once the cascade has ended: the valid
/// access token, or the instruction to log in. `None` while the cascade
/// still waits for an answer.
pub fn get_valid_token(state: &Cascade) -> (result: Option<Result<String, TokenError>>)
    ensures
        result == match *state {
            Cascade::Done(outcome) => Some(handed_up(outcome)),
            _ => None,
        },
{
    match state {
        Cascade::Done(Outcome::Token(token)) => Some(Ok(token.clone())),
        Cascade::Done(Outcome::NotLoggedIn) => Some(Err(TokenError::NotLoggedIn)),
        Cascade::Done(Outcome::NeedsLogin(_)) => Some(Err(TokenError::NeedsLogin)),
        _ => None,
    }
}

/// The state that the cascade is in when it started in `state` and took the
/// answers `seen`, one after the other.
pub open spec fn state_after(state: Cascade, seen: Seq<Observation>) -> Cascade
    decreases seen.len(),
{
    if seen.len() == 0 {
        state
    } else {
        state_after(advanced(state, seen[0]), seen.drop_first())
    }
}

/// How often the cascade asks for a refresh when it starts in `state` and
/// takes the answers `seen`: once for each state on its way that asks for one.
pub open spec fn refresh_calls(state: Cascade, seen: Seq<Observation>) -> nat
    decreases seen.len(),
{
    let here: nat = if action_of(state) is Refresh {
        1
    } else {
        0
    };
    if seen.len() == 0 {
        here
    } else {
        here + refresh_calls(advanced(state, seen[0]), seen.drop_first())
    }
}

/// How often the cascade asks for the keys to be fetched anew when it starts
/// in `state` and takes the answers `seen`.
pub open spec fn key_fetches(state: Cascade, seen: Seq<Observation>) -> nat
    decreases seen.len(),
{
    let here: nat = if action_of(state) is FetchKeys {
        1
    } else {
        0
    };
    if seen.len() == 0 {
        here
    } else {
        here + key_fetches(advanced(state, seen[0]), seen.drop_first())
    }
}

/// How many answers the cascade can still take in `state` before it has
/// ended.
pub open spec fn steps_left(state: Cascade) -> nat {
    match state {
        Cascade::Start => 6,
        Cascade::CheckStored(_) => 5,
        Cascade::Refresh(_) => 4,
        Cascade::Persist(_) => 3,
        Cascade::CheckRefreshed(_) => 2,
        Cascade::Refetch(_) => 1,
        Cascade::Done(_) => 0,
    }
}

proof fn lemma_refresh_calls_bounded(state: Cascade, seen: Seq<Observation>)
    ensures
        refresh_calls(state, seen) <= (if steps_left(state) >= 4 {
            1nat
        } else {
            0nat
        }),
    decreases seen.len(),
{
    if seen.len() > 0 {
        lemma_refresh_calls_bounded(advanced(state, seen[0]), seen.drop_first());
    }
}

proof fn lemma_key_fetches_bounded(state: Cascade, seen: Seq<Observation>)
    ensures
        key_fetches(state, seen) <= (if steps_left(state) >= 1 {
            1nat
        } else {
            0nat
        }),
    decreases seen.len(),
{
    if seen.len() > 0 {
        lemma_key_fetches_bounded(advanced(state, seen[0]), seen.drop_first());
    }
}

proof fn lemma_steps_run_out(state: Cascade, seen: Seq<Observation>)
    ensures
        steps_left(state_after(state, seen)) + seen.len() <= steps_left(state) || state_after(
            state,
            seen,
        ) is Done,
        state is Done ==> state_after(state, seen) == state,
    decreases seen.len(),
{
    if seen.len() > 0 {
        lemma_steps_run_out(advanced(state, seen[0]), seen.drop_first());
    }
}

/// Whatever the answers are, and however many, one run of the cascade asks
/// for one refresh at most and for one fetch of the keys at most. Every step
/// of `validate_and_refresh` is a step on some observation, so this holds of
/// every run, whatever the validations said.
pub proof fn law_one_refresh_one_refetch(seen: Seq<Observation>)
    ensures
        refresh_calls(Cascade::Start, seen) <= 1,
        key_fetches(Cascade::Start, seen) <= 1,
{
    lemma_refresh_calls_bounded(Cascade::Start, seen);
    lemma_key_fetches_bounded(Cascade::Start, seen);
}

/// The cascade never iterates: after six answers it has ended, and an ended
/// cascade asks for nothing and stays as it is.
pub proof fn law_cascade_ends(seen: Seq<Observation>, more: Seq<Observation>)
    requires
        seen.len() >= 6,
    ensures
        state_after(Cascade::Start, seen) is Done,
        state_after(state_after(Cascade::Start, seen), more) == state_after(Cascade::Start, seen),
        refresh_calls(state_after(Cascade::Start, seen), more) == 0,
        key_fetches(state_after(Cascade::Start, seen), more) == 0,
{
    let end = state_after(Cascade::Start, seen);
    lemma_steps_run_out(Cascade::Start, seen);
    lemma_steps_run_out(end, more);
    lemma_refresh_calls_bounded(end, more);
    lemma_key_fetches_bounded(end, more);
}

/// A refreshed credential is stored before anything else happens to it: in
/// any state that asks for a refresh, a successful refresh makes the cascade
/// ask for exactly that credential to be saved, and from there only the
/// report that it was saved leads on to a validation.
pub proof fn law_persist_before_validation(state: Cascade, refreshed: Tokens, then: Observation)
    requires
        action_of(state) is Refresh,
    ensures
        action_of(advanced(state, Observation::Refreshed(Ok(refreshed)))) == Action::Save(
            refreshed,
        ),
        action_of(advanced(advanced(state, Observation::Refreshed(Ok(refreshed))), then))
            is ReadCachedKeys ==> then == Observation::Saved(true),
        then == Observation::Saved(true) ==> token_at_hand(
            advanced(advanced(state, Observation::Refreshed(Ok(refreshed))), then),
        ) == Some(refreshed.access_token),
{
}

/// A refusal of the refresh is final: the cascade ends with the instruction
/// to log in, and asks for nothing more, whatever comes after.
pub proof fn law_rejected_refresh_is_final(
    state: Cascade,
    failure: AuthFailure,
    more: Seq<Observation>,
)
    requires
        action_of(state) is Refresh,
    ensures
        action_of(advanced(state, Observation::Refreshed(Err(failure)))) == Action::Finish(
            Err(TokenError::NeedsLogin),
        ),
        refresh_calls(advanced(state, Observation::Refreshed(Err(failure))), more) == 0,
        key_fetches(advanced(state, Observation::Refreshed(Err(failure))), more) == 0,
{
    let end = advanced(state, Observation::Refreshed(Err(failure)));
    lemma_refresh_calls_bounded(end, more);
    lemma_key_fetches_bounded(end, more);
}

} // verus!
