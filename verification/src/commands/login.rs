use vstd::prelude::*;
use crate::auth::auth::{
    confirm_and_authenticate, pending, replied, send_otp, verify_otp, AuthFailure, Flow,
    ProviderCall, ProviderFailure, ProviderReply,
};
use crate::auth::types::Tokens;

verus! {

/// Why a login did not succeed.
#[derive(Debug, Clone, Copy, PartialEq, Eq, Structural)]
pub enum LoginError {
    /// The negotiation with the provider failed.
    Negotiation(AuthFailure),
    /// The credential could not be written to the store.
    NotPersisted,
    /// An answer came that the login had not asked for.
    OutOfTurn,
}

/// How a login ended.
#[derive(Debug, Clone, Copy, PartialEq, Eq, Structural)]
pub enum LoginOutcome {
    /// A valid session exists; nothing was done.
    AlreadyLoggedIn,
    /// A new credential was obtained and stored.
    LoggedIn,
    /// No credential was stored.
    Failed(LoginError),
}

/// The login: check for a session, ask for the email address, negotiate,
/// ask for the code, finish the negotiation, store the credential.
#[derive(Debug)]
pub enum Login {
    /// Waiting to hear whether a valid session exists.
    Start,
    /// Waiting for the email address.
    AskingEmail,
    /// Waiting for the provider while the negotiation begins.
    Beginning { email: String, flow: Flow },
    /// Waiting for the code that was sent to the user. `new_user` tells a
    /// sign-up that awaits confirmation from a passcode challenge.
    AskingCode { email: String, session: String, new_user: bool },
    /// Waiting for the provider while the negotiation finishes.
    Finishing(Flow),
    /// Waiting for the credential to be stored.
    Storing(Tokens),
    /// Ended.
    Done(LoginOutcome),
}

/// What the login asks its caller to do next.
#[derive(Debug)]
pub enum LoginStep {
    /// Find out whether a valid session exists.
    Recover,
    /// Ask the user for the email address.
    AskEmail,
    /// Ask the user for the code.
    AskCode,
    /// Make this call to the provider.
    Call(ProviderCall),
    /// Write this credential to the store.
    Save(Tokens),
    /// Nothing more: this is how the login ended.
    Finish(LoginOutcome),
}

/// An answer to what the login asked for.
#[derive(Debug)]
pub enum LoginInput {
    /// Whether a valid session exists.
    Session(bool),
    /// What the user entered, without surrounding white space.
    Text(String),
    /// The provider's answer.
    Reply(Result<ProviderReply, ProviderFailure>),
    /// Whether the credential was stored.
    Saved(bool),
}

/// The call that a login in the middle of `flow` asks for. A negotiation
/// that has no call left has nothing to ask the provider.
pub open spec fn call_of(flow: Flow) -> LoginStep {
    match pending(flow) {
        Some(call) => LoginStep::Call(call),
        None => LoginStep::Finish(LoginOutcome::Failed(LoginError::OutOfTurn)),
    }
}

/// What the login asks for in `state`.
pub open spec fn step_of(state: Login) -> LoginStep {
    match state {
        Login::Start => LoginStep::Recover,
        Login::AskingEmail => LoginStep::AskEmail,
        Login::Beginning { email, flow } => call_of(flow),
        Login::AskingCode { email, session, new_user } => LoginStep::AskCode,
        Login::Finishing(flow) => call_of(flow),
        Login::Storing(tokens) => LoginStep::Save(tokens),
        Login::Done(outcome) => LoginStep::Finish(outcome),
    }
}

/// The login after the beginning of the negotiation for `email` has moved
/// to `flow`.
pub open spec fn begun(email: String, flow: Flow) -> Login {
    match flow {
        Flow::ExistingUserChallenge { session } => Login::AskingCode {
            email,
            session,
            new_user: false,
        },
        Flow::NewUserNeedsConfirmation { session } => Login::AskingCode {
            email,
            session,
            new_user: true,
        },
        Flow::Failed(failure) => Login::Done(
            LoginOutcome::Failed(LoginError::Negotiation(failure)),
        ),
        flow => if flow.is_settled() {
            Login::Done(LoginOutcome::Failed(LoginError::OutOfTurn))
        } else {
            Login::Beginning { email, flow }
        },
    }
}

/// The login after the end of the negotiation has moved to `flow`.
pub open spec fn finished(flow: Flow) -> Login {
    match flow {
        Flow::Authenticated(tokens) => Login::Storing(tokens),
        Flow::Failed(failure) => Login::Done(
            LoginOutcome::Failed(LoginError::Negotiation(failure)),
        ),
        flow => if flow.is_settled() {
            Login::Done(LoginOutcome::Failed(LoginError::OutOfTurn))
        } else {
            Login::Finishing(flow)
        },
    }
}

/// The state that follows `state` on `input`.
///
/// An answer that `state` did not ask for ends the login; an ended login
/// stays as it is.
pub open spec fn login_advanced(state: Login, input: LoginInput) -> Login {
    match (state, input) {
        (Login::Done(outcome), _) => Login::Done(outcome),
        (Login::Start, LoginInput::Session(true)) => Login::Done(LoginOutcome::AlreadyLoggedIn),
        (Login::Start, LoginInput::Session(false)) => Login::AskingEmail,
        (Login::AskingEmail, LoginInput::Text(email)) => Login::Beginning {
            email,
            flow: Flow::Probing { email },
        },
        (Login::Beginning { email, flow }, LoginInput::Reply(reply)) => begun(
            email,
            replied(flow, reply),
        ),
        (Login::AskingCode { email, session, new_user }, LoginInput::Text(code)) => Login::Finishing(
            if new_user {
                Flow::Confirming { email, code, session }
            } else {
                Flow::Answering { email, code, session }
            },
        ),
        (Login::Finishing(flow), LoginInput::Reply(reply)) => finished(replied(flow, reply)),
        (Login::Storing(_), LoginInput::Saved(true)) => Login::Done(LoginOutcome::LoggedIn),
        (Login::Storing(_), LoginInput::Saved(false)) => Login::Done(
            LoginOutcome::Failed(LoginError::NotPersisted),
        ),
        (_, _) => Login::Done(LoginOutcome::Failed(LoginError::OutOfTurn)),
    }
}

fn call_step(flow: &Flow) -> (step: LoginStep)
    ensures
        step == call_of(*flow),
{
    match flow.call() {
        Some(call) => LoginStep::Call(call),
        None => LoginStep::Finish(LoginOutcome::Failed(LoginError::OutOfTurn)),
    }
}

fn begin(email: String, flow: Flow) -> (next: Login)
    ensures
        next == begun(email, flow),
{
    match flow {
        Flow::ExistingUserChallenge { session } => Login::AskingCode {
            email,
            session,
            new_user: false,
        },
        Flow::NewUserNeedsConfirmation { session } => Login::AskingCode {
            email,
            session,
            new_user: true,
        },
        Flow::Failed(failure) => Login::Done(
            LoginOutcome::Failed(LoginError::Negotiation(failure)),
        ),
        flow => if flow.settled() {
            Login::Done(LoginOutcome::Failed(LoginError::OutOfTurn))
        } else {
            Login::Beginning { email, flow }
        },
    }
}

fn finish(flow: Flow) -> (next: Login)
    ensures
        next == finished(flow),
{
    match flow {
        Flow::Authenticated(tokens) => Login::Storing(tokens),
        Flow::Failed(failure) => Login::Done(
            LoginOutcome::Failed(LoginError::Negotiation(failure)),
        ),
        flow => if flow.settled() {
            Login::Done(LoginOutcome::Failed(LoginError::OutOfTurn))
        } else {
            Login::Finishing(flow)
        },
    }
}

impl Login {
    /// A login that has done nothing yet.
    pub fn new() -> (state: Self)
        ensures
            state == Login::Start,
    {
        Login::Start
    }

    /// What to do next.
    pub fn step(&self) -> (step: LoginStep)
        ensures
            step == step_of(*self),
    {
        match self {
            Login::Start => LoginStep::Recover,
            Login::AskingEmail => LoginStep::AskEmail,
            Login::Beginning { flow, .. } => call_step(flow),
            Login::AskingCode { .. } => LoginStep::AskCode,
            Login::Finishing(flow) => call_step(flow),
            Login::Storing(tokens) => LoginStep::Save(tokens.clone()),
            Login::Done(outcome) => LoginStep::Finish(*outcome),
        }
    }
}

/// One step of the login: takes the answer to what `state` asked for and
/// moves on.
///
/// Where a valid session exists nothing is done. Otherwise the email address
/// starts the negotiation; the provider's answer tells an existing identity
/// from a new one; the code finishes the negotiation on the path that the
/// answer chose; and the credential is stored last, once it is complete.
pub fn login_command(state: Login, input: LoginInput) -> (next: Login)
    ensures
        next == login_advanced(state, input),
{
    match (state, input) {
        (Login::Done(outcome), _) => Login::Done(outcome),
        (Login::Start, LoginInput::Session(true)) => Login::Done(LoginOutcome::AlreadyLoggedIn),
        (Login::Start, LoginInput::Session(false)) => Login::AskingEmail,
        (Login::AskingEmail, LoginInput::Text(email)) => {
            let flow = send_otp(email.clone());
            Login::Beginning { email, flow }
        },
        (Login::Beginning { email, flow }, LoginInput::Reply(reply)) => begin(
            email,
            flow.on_reply(reply),
        ),
        (Login::AskingCode { email, session, new_user }, LoginInput::Text(code)) => {
            if new_user {
                Login::Finishing(confirm_and_authenticate(email, code, session))
            } else {
                Login::Finishing(verify_otp(email, code, session))
            }
        },
        (Login::Finishing(flow), LoginInput::Reply(reply)) => finish(flow.on_reply(reply)),
        (Login::Storing(_), LoginInput::Saved(true)) => Login::Done(LoginOutcome::LoggedIn),
        (Login::Storing(_), LoginInput::Saved(false)) => Login::Done(
            LoginOutcome::Failed(LoginError::NotPersisted),
        ),
        (_, _) => Login::Done(LoginOutcome::Failed(LoginError::OutOfTurn)),
    }
}

/// Nothing is stored before the negotiation has ended with a complete
/// credential: the login asks for a save only as its step from a finishing
/// negotiation whose answer made it authenticated, and what it asks to save
/// is the credential of that answer.
pub proof fn law_only_a_credential_is_stored(state: Login, input: LoginInput, tokens: Tokens)
    requires
        !(state is Storing),
        step_of(login_advanced(state, input)) == LoginStep::Save(tokens),
    ensures
        state is Finishing,
        input is Reply,
        replied(state->Finishing_0, input->Reply_0) == Flow::Authenticated(tokens),
{
}

/// A negotiation that fails ends the login with that failure, and the login
/// then asks for nothing: no credential and no session is stored.
pub proof fn law_failed_negotiation_stores_nothing(
    state: Login,
    reply: Result<ProviderReply, ProviderFailure>,
    failure: AuthFailure,
    then: LoginInput,
)
    requires
        (state is Beginning && replied(state->Beginning_flow, reply) == Flow::Failed(failure)) || (
        state is Finishing && replied(state->Finishing_0, reply) == Flow::Failed(failure)),
    ensures
        login_advanced(state, LoginInput::Reply(reply)) == Login::Done(
            LoginOutcome::Failed(LoginError::Negotiation(failure)),
        ),
        login_advanced(login_advanced(state, LoginInput::Reply(reply)), then) == login_advanced(
            state,
            LoginInput::Reply(reply),
        ),
{
}

/// How far a negotiation has come: the calls it has behind it, out of two.
pub open spec fn calls_behind(flow: Flow) -> nat {
    match flow {
        Flow::Probing { email } => 0,
        Flow::Confirming { email, code, session } => 0,
        flow => if flow.is_settled() {
            2
        } else {
            1
        },
    }
}

/// How far a login has come.
pub open spec fn progress(state: Login) -> nat {
    match state {
        Login::Start => 0,
        Login::AskingEmail => 1,
        Login::Beginning { email, flow } => 2 + calls_behind(flow),
        Login::AskingCode { email, session, new_user } => 5,
        Login::Finishing(flow) => 6 + calls_behind(flow),
        Login::Storing(_) => 9,
        Login::Done(_) => 10,
    }
}

/// A login only moves forward: every answer takes it further, until it has
/// ended. It never comes back to a state that it has left; to try again is
/// to start a new login.
pub proof fn law_login_only_moves_forward(state: Login, input: LoginInput)
    ensures
        state is Done ==> login_advanced(state, input) == state,
        !(state is Done) ==> progress(login_advanced(state, input)) > progress(state),
{
}

} // verus!
