use vstd::prelude::*;
use crate::auth::types::Tokens;

verus! {

/// The kind of challenge that the provider answers an authentication request
/// with.
#[derive(Debug, Clone, Copy, PartialEq, Eq, Structural)]
pub enum Challenge {
    /// A passcode was sent to the email address: the identity exists.
    EmailOtp,
    /// The provider offers a choice of other challenges instead of the
    /// passcode that was asked for: it knows no identity for this address.
    SelectChallenge,
    /// Any other challenge.
    Other,
}

/// The bundle of a completed authentication, as the provider sent it. Any
/// field may be missing.
#[derive(Debug)]
pub struct AuthResult {
    pub access_token: Option<String>,
    pub id_token: Option<String>,
    pub refresh_token: Option<String>,
}

/// What the provider sent in answer to a call: the fields that this
/// subsystem reads, each as it came.
#[derive(Debug)]
pub struct ProviderReply {
    pub challenge: Option<Challenge>,
    pub session: Option<String>,
    pub authentication_result: Option<AuthResult>,
}

/// How a call to the provider failed.
#[derive(Debug, Clone, Copy, PartialEq, Eq, Structural)]
pub enum ProviderFailure {
    /// The provider answered and refused.
    Rejected,
    /// The provider could not be reached.
    Transport,
}

/// The field whose absence, or whose unexpected value, broke the protocol.
#[derive(Debug, Clone, Copy, PartialEq, Eq, Structural)]
pub enum Violation {
    MissingChallenge,
    UnexpectedChallenge,
    MissingSession,
    MissingAuthenticationResult,
    MissingAccessToken,
    MissingIdToken,
    MissingRefreshToken,
}

/// Why an operation with the provider did not succeed.
#[derive(Debug, Clone, Copy, PartialEq, Eq, Structural)]
pub enum AuthFailure {
    /// The provider's answer lacks a field that the protocol promises.
    ProtocolError(Violation),
    /// The provider refused the credentials, the code or the confirmation.
    AuthError,
    /// The provider could not be reached.
    TransportError,
}

/// A call to the identity provider, for the caller to make.
#[derive(Debug)]
pub enum ProviderCall {
    /// Start authenticating `username`: with the email passcode as the
    /// preferred challenge, or, after a sign-up was confirmed, with the
    /// session that the confirmation returned.
    InitiateAuth { username: String, confirmed_session: Option<String> },
    /// Create an identity for `username`.
    SignUp { username: String },
    /// Answer the passcode challenge of `session`.
    RespondToChallenge { username: String, code: String, session: String },
    /// Confirm the sign-up of `username` with the code of `session`.
    ConfirmSignUp { username: String, code: String, session: String },
    /// Exchange a refresh token for a new credential.
    RefreshTokens { refresh_token: String },
    /// Revoke a refresh token: sign out from this device.
    RevokeToken { token: String },
    /// Sign out from every device.
    GlobalSignOut { access_token: String },
}

/// An operation with the identity provider, from its first call to its
/// result. A flow that waits holds what its next call needs; a settled flow
/// holds the result. A session is part of exactly one waiting flow: once
/// that flow's call is answered, the session is gone.
#[derive(Debug)]
pub enum Flow {
    /// Asked whether `email` has an identity; waiting for the answer.
    Probing { email: String },
    /// `email` has no identity; asked to create one.
    Registering { email: String },
    /// Answered the passcode challenge.
    Answering { email: String, code: String, session: String },
    /// Sent the confirmation code of a sign-up.
    Confirming { email: String, code: String, session: String },
    /// Sign-up confirmed; authenticating with the session it returned.
    Reauthenticating { email: String, session: String },
    /// Exchanging a refresh token.
    Refreshing { refresh_token: String },
    /// Revoking a refresh token.
    Revoking { refresh_token: String },
    /// Signing out everywhere.
    SigningOut { access_token: String },
    /// Settled: an existing identity was sent a passcode.
    ExistingUserChallenge { session: String },
    /// Settled: a new identity was created and awaits its confirmation code.
    NewUserNeedsConfirmation { session: String },
    /// Settled: authenticated.
    Authenticated(Tokens),
    /// Settled: signed out.
    SignedOut,
    /// Settled: failed.
    Failed(AuthFailure),
}

/// The credential in an authentication result: all three tokens, or the
/// first one that is missing. No default stands in for a missing field.
pub open spec fn credential_of(result: AuthResult) -> Result<Tokens, AuthFailure> {
    match result.access_token {
        None => Err(AuthFailure::ProtocolError(Violation::MissingAccessToken)),
        Some(access_token) => match result.id_token {
            None => Err(AuthFailure::ProtocolError(Violation::MissingIdToken)),
            Some(id_token) => match result.refresh_token {
                None => Err(AuthFailure::ProtocolError(Violation::MissingRefreshToken)),
                Some(refresh_token) => Ok(Tokens { access_token, id_token, refresh_token }),
            },
        },
    }
}

/// The failure of an operation whose call failed.
pub open spec fn failure_of(failure: ProviderFailure) -> AuthFailure {
    match failure {
        ProviderFailure::Rejected => AuthFailure::AuthError,
        ProviderFailure::Transport => AuthFailure::TransportError,
    }
}

/// The flow that ends with `outcome`.
pub open spec fn ended(outcome: Result<Tokens, AuthFailure>) -> Flow {
    match outcome {
        Ok(tokens) => Flow::Authenticated(tokens),
        Err(failure) => Flow::Failed(failure),
    }
}

/// The flow that ends with the credential of `result`, or with the field
/// that it lacks.
pub open spec fn concluded(result: AuthResult) -> Flow {
    ended(credential_of(result))
}

/// The flow after the provider accepted the pending call of `flow` and sent
/// `reply`.
pub open spec fn accepted(flow: Flow, reply: ProviderReply) -> Flow {
    match flow {
        Flow::Probing { email } => match reply.challenge {
            None => Flow::Failed(AuthFailure::ProtocolError(Violation::MissingChallenge)),
            Some(Challenge::EmailOtp) => match reply.session {
                None => Flow::Failed(AuthFailure::ProtocolError(Violation::MissingSession)),
                Some(session) => Flow::ExistingUserChallenge { session },
            },
            Some(Challenge::SelectChallenge) => Flow::Registering { email },
            Some(Challenge::Other) => Flow::Failed(
                AuthFailure::ProtocolError(Violation::UnexpectedChallenge),
            ),
        },
        Flow::Registering { email } => match reply.session {
            None => Flow::Failed(AuthFailure::ProtocolError(Violation::MissingSession)),
            Some(session) => Flow::NewUserNeedsConfirmation { session },
        },
        Flow::Answering { email, code, session } => match reply.authentication_result {
            None => Flow::Failed(AuthFailure::AuthError),
            Some(result) => concluded(result),
        },
        Flow::Confirming { email, code, session } => match reply.session {
            None => Flow::Failed(AuthFailure::ProtocolError(Violation::MissingSession)),
            Some(next) => Flow::Reauthenticating { email, session: next },
        },
        Flow::Reauthenticating { email, session } => match reply.authentication_result {
            None => Flow::Failed(
                AuthFailure::ProtocolError(Violation::MissingAuthenticationResult),
            ),
            Some(result) => concluded(result),
        },
        Flow::Refreshing { refresh_token } => match reply.authentication_result {
            None => Flow::Failed(
                AuthFailure::ProtocolError(Violation::MissingAuthenticationResult),
            ),
            Some(result) => concluded(result),
        },
        Flow::Revoking { refresh_token } => Flow::SignedOut,
        Flow::SigningOut { access_token } => Flow::SignedOut,
        settled => settled,
    }
}

/// The flow after its pending call was answered. A settled flow has no
/// pending call and stays as it is.
pub open spec fn replied(flow: Flow, reply: Result<ProviderReply, ProviderFailure>) -> Flow {
    if flow.is_settled() {
        flow
    } else {
        match reply {
            Ok(reply) => accepted(flow, reply),
            Err(failure) => Flow::Failed(failure_of(failure)),
        }
    }
}

/// The call that `flow` waits for, if it waits.
pub open spec fn pending(flow: Flow) -> Option<ProviderCall> {
    match flow {
        Flow::Probing { email } => Some(
            ProviderCall::InitiateAuth { username: email, confirmed_session: None },
        ),
        Flow::Registering { email } => Some(ProviderCall::SignUp { username: email }),
        Flow::Answering { email, code, session } => Some(
            ProviderCall::RespondToChallenge { username: email, code, session },
        ),
        Flow::Confirming { email, code, session } => Some(
            ProviderCall::ConfirmSignUp { username: email, code, session },
        ),
        Flow::Reauthenticating { email, session } => Some(
            ProviderCall::InitiateAuth { username: email, confirmed_session: Some(session) },
        ),
        Flow::Refreshing { refresh_token } => Some(ProviderCall::RefreshTokens { refresh_token }),
        Flow::Revoking { refresh_token } => Some(ProviderCall::RevokeToken { token: refresh_token }),
        Flow::SigningOut { access_token } => Some(ProviderCall::GlobalSignOut { access_token }),
        _ => None,
    }
}

/// The credential of an authentication result, or the first field that it
/// lacks: access token, then identity token, then refresh token.
pub fn credential(result: AuthResult) -> (tokens: Result<Tokens, AuthFailure>)
    ensures
        tokens == credential_of(result),
{
    let access_token = match result.access_token {
        Some(token) => token,
        None => {
            return Err(AuthFailure::ProtocolError(Violation::MissingAccessToken));
        },
    };
    let id_token = match result.id_token {
        Some(token) => token,
        None => {
            return Err(AuthFailure::ProtocolError(Violation::MissingIdToken));
        },
    };
    let refresh_token = match result.refresh_token {
        Some(token) => token,
        None => {
            return Err(AuthFailure::ProtocolError(Violation::MissingRefreshToken));
        },
    };
    Ok(Tokens { access_token, id_token, refresh_token })
}

fn conclude(result: Option<AuthResult>, missing: AuthFailure) -> (flow: Flow)
    ensures
        flow == match result {
            None => Flow::Failed(missing),
            Some(result) => concluded(result),
        },
{
    match result {
        None => Flow::Failed(missing),
        Some(result) => match credential(result) {
            Ok(tokens) => Flow::Authenticated(tokens),
            Err(failure) => Flow::Failed(failure),
        },
    }
}

impl Flow {
    /// Whether the flow has its result: no call is pending.
    pub open spec fn is_settled(&self) -> bool {
        pending(*self) is None
    }

    /// Whether the flow has its result.
    pub fn settled(&self) -> (done: bool)
        ensures
            done == self.is_settled(),
    {
        match self {
            Flow::ExistingUserChallenge { .. }
            | Flow::NewUserNeedsConfirmation { .. }
            | Flow::Authenticated(_)
            | Flow::SignedOut
            | Flow::Failed(_) => true,
            _ => false,
        }
    }

    /// The call to make next, or `None` once the flow is settled.
    pub fn call(&self) -> (call: Option<ProviderCall>)
        ensures
            call == pending(*self),
    {
        match self {
            Flow::Probing { email } => Some(
                ProviderCall::InitiateAuth { username: email.clone(), confirmed_session: None },
            ),
            Flow::Registering { email } => Some(ProviderCall::SignUp { username: email.clone() }),
            Flow::Answering { email, code, session } => Some(
                ProviderCall::RespondToChallenge {
                    username: email.clone(),
                    code: code.clone(),
                    session: session.clone(),
                },
            ),
            Flow::Confirming { email, code, session } => Some(
                ProviderCall::ConfirmSignUp {
                    username: email.clone(),
                    code: code.clone(),
                    session: session.clone(),
                },
            ),
            Flow::Reauthenticating { email, session } => Some(
                ProviderCall::InitiateAuth {
                    username: email.clone(),
                    confirmed_session: Some(session.clone()),
                },
            ),
            Flow::Refreshing { refresh_token } => Some(
                ProviderCall::RefreshTokens { refresh_token: refresh_token.clone() },
            ),
            Flow::Revoking { refresh_token } => Some(
                ProviderCall::RevokeToken { token: refresh_token.clone() },
            ),
            Flow::SigningOut { access_token } => Some(
                ProviderCall::GlobalSignOut { access_token: access_token.clone() },
            ),
            _ => None,
        }
    }

    /// Takes the answer to the pending call and moves on: to the next call
    /// of the operation, or to its result. A refusal gives `AuthError`, an
    /// unreachable provider `TransportError`, a missing field the
    /// `ProtocolError` that names it. A settled flow ignores the answer.
    pub fn on_reply(self, reply: Result<ProviderReply, ProviderFailure>) -> (next: Flow)
        ensures
            next == replied(self, reply),
    {
        if self.settled() {
            return self;
        }
        let reply = match reply {
            Ok(reply) => reply,
            Err(ProviderFailure::Rejected) => {
                return Flow::Failed(AuthFailure::AuthError);
            },
            Err(ProviderFailure::Transport) => {
                return Flow::Failed(AuthFailure::TransportError);
            },
        };
        match self {
            Flow::Probing { email } => match reply.challenge {
                None => Flow::Failed(AuthFailure::ProtocolError(Violation::MissingChallenge)),
                Some(Challenge::EmailOtp) => match reply.session {
                    None => Flow::Failed(AuthFailure::ProtocolError(Violation::MissingSession)),
                    Some(session) => Flow::ExistingUserChallenge { session },
                },
                Some(Challenge::SelectChallenge) => Flow::Registering { email },
                Some(Challenge::Other) => Flow::Failed(
                    AuthFailure::ProtocolError(Violation::UnexpectedChallenge),
                ),
            },
            Flow::Registering { email } => match reply.session {
                None => Flow::Failed(AuthFailure::ProtocolError(Violation::MissingSession)),
                Some(session) => Flow::NewUserNeedsConfirmation { session },
            },
            Flow::Answering { .. } => conclude(
                reply.authentication_result,
                AuthFailure::AuthError,
            ),
            Flow::Confirming { email, code, session } => match reply.session {
                None => Flow::Failed(AuthFailure::ProtocolError(Violation::MissingSession)),
                Some(next) => Flow::Reauthenticating { email, session: next },
            },
            Flow::Reauthenticating { .. } => conclude(
                reply.authentication_result,
                AuthFailure::ProtocolError(Violation::MissingAuthenticationResult),
            ),
            Flow::Refreshing { .. } => conclude(
                reply.authentication_result,
                AuthFailure::ProtocolError(Violation::MissingAuthenticationResult),
            ),
            Flow::Revoking { .. } => Flow::SignedOut,
            Flow::SigningOut { .. } => Flow::SignedOut,
            settled => settled,
        }
    }
}

/// Begins the negotiation for `email`: asks the provider to authenticate it
/// with an emailed passcode. The flow settles as `ExistingUserChallenge`
/// where the identity exists, and, after a sign-up, as
/// `NewUserNeedsConfirmation` where it does not.
pub fn send_otp(email: String) -> (flow: Flow)
    ensures
        flow == (Flow::Probing { email }),
{
    Flow::Probing { email }
}

/// Answers the passcode challenge of an existing identity with the code that
/// the user entered. The flow settles as `Authenticated`, or as `Failed`.
pub fn verify_otp(email: String, code: String, session: String) -> (flow: Flow)
    ensures
        flow == (Flow::Answering { email, code, session }),
{
    Flow::Answering { email, code, session }
}

/// Confirms the sign-up of a new identity with the code that the user
/// entered, then authenticates with the session that the confirmation
/// returns.
pub fn confirm_and_authenticate(email: String, code: String, session: String) -> (flow: Flow)
    ensures
        flow == (Flow::Confirming { email, code, session }),
{
    Flow::Confirming { email, code, session }
}

/// Exchanges a refresh token for a new credential.
pub fn refresh_tokens(refresh_token: String) -> (flow: Flow)
    ensures
        flow == (Flow::Refreshing { refresh_token }),
{
    Flow::Refreshing { refresh_token }
}

/// The credential that a refresh ends with, given the answer to its call.
pub open spec fn refresh_outcome(reply: Result<ProviderReply, ProviderFailure>) -> Result<
    Tokens,
    AuthFailure,
> {
    match reply {
        Err(failure) => Err(failure_of(failure)),
        Ok(reply) => match reply.authentication_result {
            None => Err(AuthFailure::ProtocolError(Violation::MissingAuthenticationResult)),
            Some(result) => credential_of(result),
        },
    }
}

/// Reads the answer to a refresh: the new credential, or the reason why
/// there is none.
pub fn complete_refresh(reply: Result<ProviderReply, ProviderFailure>) -> (outcome: Result<
    Tokens,
    AuthFailure,
>)
    ensures
        outcome == refresh_outcome(reply),
{
    match reply {
        Err(ProviderFailure::Rejected) => Err(AuthFailure::AuthError),
        Err(ProviderFailure::Transport) => Err(AuthFailure::TransportError),
        Ok(reply) => match reply.authentication_result {
            None => Err(AuthFailure::ProtocolError(Violation::MissingAuthenticationResult)),
            Some(result) => credential(result),
        },
    }
}

/// Signs out from this device by revoking its refresh token.
pub fn logout(refresh_token: String) -> (flow: Flow)
    ensures
        flow == (Flow::Revoking { refresh_token }),
{
    Flow::Revoking { refresh_token }
}

/// Signs out from every device.
pub fn global_logout(access_token: String) -> (flow: Flow)
    ensures
        flow == (Flow::SigningOut { access_token }),
{
    Flow::SigningOut { access_token }
}

/// The provider's refusal ends any waiting flow with `AuthError`, and an
/// unreachable provider with `TransportError`. Neither yields a credential.
pub proof fn law_failed_call_fails_flow(flow: Flow, failure: ProviderFailure)
    requires
        !flow.is_settled(),
    ensures
        replied(flow, Err(failure)) == Flow::Failed(failure_of(failure)),
        failure == ProviderFailure::Rejected ==> replied(flow, Err(failure)) == Flow::Failed(
            AuthFailure::AuthError,
        ),
{
}

/// A flow settles as authenticated only on an answer that carries all three
/// tokens, and its credential is made of exactly these.
pub proof fn law_credential_is_complete(flow: Flow, reply: ProviderReply, tokens: Tokens)
    requires
        !flow.is_settled(),
        replied(flow, Ok(reply)) == Flow::Authenticated(tokens),
    ensures
        reply.authentication_result == Some(
            AuthResult {
                access_token: Some(tokens.access_token),
                id_token: Some(tokens.id_token),
                refresh_token: Some(tokens.refresh_token),
            },
        ),
{
}

/// A refresh is one call: whatever the refresh token, the answer settles the
/// flow, with the credential that `complete_refresh` reads from it.
pub proof fn law_refresh_is_one_call(
    refresh_token: String,
    reply: Result<ProviderReply, ProviderFailure>,
)
    ensures
        replied(Flow::Refreshing { refresh_token }, reply) == ended(refresh_outcome(reply)),
{
}

/// No operation loops: every flow is settled after two answers, and a
/// settled flow stays as it is.
pub proof fn law_flow_settles(
    flow: Flow,
    first: Result<ProviderReply, ProviderFailure>,
    second: Result<ProviderReply, ProviderFailure>,
)
    ensures
        replied(replied(flow, first), second).is_settled(),
        flow.is_settled() ==> replied(flow, first) == flow,
{
}

/// A session is used once: the flow that follows the answer to a call made
/// with a session holds a session only if the provider issued one in that
/// answer.
pub proof fn law_session_is_single_use(flow: Flow, reply: Result<ProviderReply, ProviderFailure>)
    requires
        flow is Answering || flow is Confirming || flow is Reauthenticating,
    ensures
        match replied(flow, reply) {
            Flow::Reauthenticating { email, session } => flow is Confirming && reply is Ok
                && reply->Ok_0.session == Some(session),
            Flow::Authenticated(_) => true,
            Flow::Failed(_) => true,
            _ => false,
        },
{
}

} // verus!
