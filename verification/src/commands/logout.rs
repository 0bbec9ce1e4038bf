use vstd::prelude::*;
use crate::auth::auth::{
    global_logout, logout, pending, replied, AuthFailure, Flow, ProviderCall, ProviderFailure,
    ProviderReply,
};
use crate::auth::types::Tokens;

verus! {

/// From where the user was signed out.
#[derive(Debug, Clone, Copy, PartialEq, Eq, Structural)]
pub enum Scope {
    ThisDevice,
    AllDevices,
}

/// Why a logout did not succeed.
#[derive(Debug, Clone, Copy, PartialEq, Eq, Structural)]
pub enum LogoutError {
    /// No credential is stored: there is nothing to log out from.
    NotLoggedIn,
    /// The provider did not sign the user out. The credential stays.
    Provider(AuthFailure),
    /// An answer came that the logout had not asked for.
    OutOfTurn,
}

/// The logout: load the credential, sign out at the provider, delete the
/// credential.
#[derive(Debug)]
pub enum Logout {
    /// Waiting for the stored credential.
    Start { all: bool },
    /// Waiting for the provider.
    Calling { flow: Flow, scope: Scope },
    /// Waiting for the credential to be deleted.
    Deleting { scope: Scope },
    /// Ended.
    Done(Result<Scope, LogoutError>),
}

/// What the logout asks its caller to do next.
#[derive(Debug)]
pub enum LogoutStep {
    /// Load the stored credential.
    LoadCredential,
    /// Make this call to the provider.
    Call(ProviderCall),
    /// Delete the stored credential.
    DeleteCredential,
    /// Nothing more: this is how the logout ended.
    Finish(Result<Scope, LogoutError>),
}

/// An answer to what the logout asked for.
#[derive(Debug)]
pub enum LogoutInput {
    /// The stored credential, if there is one.
    Credential(Option<Tokens>),
    /// The provider's answer.
    Reply(Result<ProviderReply, ProviderFailure>),
    /// Whether the credential was deleted. The logout succeeds either way.
    Deleted(bool),
}

/// What the logout asks for in `state`.
pub open spec fn logout_step_of(state: Logout) -> LogoutStep {
    match state {
        Logout::Start { all } => LogoutStep::LoadCredential,
        Logout::Calling { flow, scope } => match pending(flow) {
            Some(call) => LogoutStep::Call(call),
            None => LogoutStep::Finish(Err(LogoutError::OutOfTurn)),
        },
        Logout::Deleting { scope } => LogoutStep::DeleteCredential,
        Logout::Done(outcome) => LogoutStep::Finish(outcome),
    }
}

/// The logout after the provider's call has moved to `flow`.
pub open spec fn signed_out(flow: Flow, scope: Scope) -> Logout {
    match flow {
        Flow::SignedOut => Logout::Deleting { scope },
        Flow::Failed(failure) => Logout::Done(Err(LogoutError::Provider(failure))),
        flow => if flow.is_settled() {
            Logout::Done(Err(LogoutError::OutOfTurn))
        } else {
            Logout::Calling { flow, scope }
        },
    }
}

/// The state that follows `state` on `input`.
///
/// Signing out from all devices takes the access token, signing out from
/// this one revokes the refresh token. The credential is deleted only after
/// the provider has signed the user out.
pub open spec fn logout_advanced(state: Logout, input: LogoutInput) -> Logout {
    match (state, input) {
        (Logout::Done(outcome), _) => Logout::Done(outcome),
        (Logout::Start { all }, LogoutInput::Credential(None)) => Logout::Done(
            Err(LogoutError::NotLoggedIn),
        ),
        (Logout::Start { all }, LogoutInput::Credential(Some(tokens))) => if all {
            Logout::Calling {
                flow: Flow::SigningOut { access_token: tokens.access_token },
                scope: Scope::AllDevices,
            }
        } else {
            Logout::Calling {
                flow: Flow::Revoking { refresh_token: tokens.refresh_token },
                scope: Scope::ThisDevice,
            }
        },
        (Logout::Calling { flow, scope }, LogoutInput::Reply(reply)) => signed_out(
            replied(flow, reply),
            scope,
        ),
        (Logout::Deleting { scope }, LogoutInput::Deleted(_)) => Logout::Done(Ok(scope)),
        (_, _) => Logout::Done(Err(LogoutError::OutOfTurn)),
    }
}

impl Logout {
    /// A logout that has done nothing yet, from all devices or from this one.
    pub fn new(all: bool) -> (state: Self)
        ensures
            state == (Logout::Start { all }),
    {
        Logout::Start { all }
    }

    /// What to do next.
    pub fn step(&self) -> (step: LogoutStep)
        ensures
            step == logout_step_of(*self),
    {
        match self {
            Logout::Start { .. } => LogoutStep::LoadCredential,
            Logout::Calling { flow, .. } => match flow.call() {
                Some(call) => LogoutStep::Call(call),
                None => LogoutStep::Finish(Err(LogoutError::OutOfTurn)),
            },
            Logout::Deleting { .. } => LogoutStep::DeleteCredential,
            Logout::Done(outcome) => LogoutStep::Finish(*outcome),
        }
    }
}

fn sign_out(flow: Flow, scope: Scope) -> (next: Logout)
    ensures
        next == signed_out(flow, scope),
{
    match flow {
        Flow::SignedOut => Logout::Deleting { scope },
        Flow::Failed(failure) => Logout::Done(Err(LogoutError::Provider(failure))),
        flow => if flow.settled() {
            Logout::Done(Err(LogoutError::OutOfTurn))
        } else {
            Logout::Calling { flow, scope }
        },
    }
}

/// One step of the logout: takes the answer to what `state` asked for and
/// moves on.
pub fn logout_command(state: Logout, input: LogoutInput) -> (next: Logout)
    ensures
        next == logout_advanced(state, input),
{
    match (state, input) {
        (Logout::Done(outcome), _) => Logout::Done(outcome),
        (Logout::Start { .. }, LogoutInput::Credential(None)) => Logout::Done(
            Err(LogoutError::NotLoggedIn),
        ),
        (Logout::Start { all }, LogoutInput::Credential(Some(tokens))) => if all {
            Logout::Calling { flow: global_logout(tokens.access_token), scope: Scope::AllDevices }
        } else {
            Logout::Calling { flow: logout(tokens.refresh_token), scope: Scope::ThisDevice }
        },
        (Logout::Calling { flow, scope }, LogoutInput::Reply(reply)) => sign_out(
            flow.on_reply(reply),
            scope,
        ),
        (Logout::Deleting { scope }, LogoutInput::Deleted(_)) => Logout::Done(Ok(scope)),
        (_, _) => Logout::Done(Err(LogoutError::OutOfTurn)),
    }
}

} // verus!
