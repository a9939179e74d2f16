//! Bootstrap decisions: token validation, capability flags, log level.
//!
//! The process reads the secret token from its environment, builds a client
//! with a fixed set of capability flags, and starts the client's event loop.
//! Those three outside steps are driven by the decisions here: what counts
//! as a usable token, which flags to request, and how each stage's outcome
//! is classified. The secret token itself never appears in any error detail
//! or log line the library produces.

use vstd::prelude::*;
use crate::error::SlimeError;

verus! {

/// The outcome of reading the token variable from the process environment.
#[derive(Debug, PartialEq, Eq)]
pub enum TokenLookup {
    /// The variable was set to this text.
    Found(String),
    /// The variable was not set at all.
    Missing,
    /// The variable was set, but its value was not valid text.
    NotText,
}

/// The fixed capability flags ("intents") the connection requests: which
/// event categories the platform will deliver.
#[derive(Clone, Copy, Debug, PartialEq, Eq, Structural)]
pub struct Intents {
    pub guild_messages: bool,
    pub direct_messages: bool,
    pub message_content: bool,
}

/// The flag set the bot always asks for: guild messages, direct messages
/// and message content, all three.
pub open spec fn full_intents() -> Intents {
    Intents { guild_messages: true, direct_messages: true, message_content: true }
}

/// Computes the fixed flag set requested at connection time.
pub fn required_intents() -> (i: Intents)
    ensures
        i == full_intents(),
{
    Intents { guild_messages: true, direct_messages: true, message_content: true }
}

/// A usable token: present and non-empty.
pub open spec fn token_usable(lookup: TokenLookup) -> bool {
    lookup matches TokenLookup::Found(t) && t@.len() > 0
}

/// The configuration-error detail reported for an unusable token lookup.
pub open spec fn token_error_detail(lookup: TokenLookup) -> Seq<char> {
    match lookup {
        TokenLookup::Found(_) => "token variable is empty"@,
        TokenLookup::Missing => "token variable is not set"@,
        TokenLookup::NotText => "token variable is not valid text"@,
    }
}

/// Validates the token read at startup. Succeeds, returning the token
/// itself, exactly when the variable was set to non-empty text; otherwise
/// fails with a configuration error whose detail names what was wrong and
/// never contains the token's value.
pub fn validate_token(lookup: TokenLookup) -> (r: Result<String, SlimeError>)
    ensures
        r matches Ok(t) ==> token_usable(lookup) && t@ == lookup->Found_0@,
        r matches Err(e) ==> !token_usable(lookup) && (e matches SlimeError::Var(d) && d@
            == token_error_detail(lookup)),
        r is Ok <==> token_usable(lookup),
{
    match lookup {
        TokenLookup::Found(t) => {
            if t.as_str().unicode_len() > 0 {
                Ok(t)
            } else {
                Err(SlimeError::Var(String::from_str("token variable is empty")))
            }
        },
        TokenLookup::Missing => Err(
            SlimeError::Var(String::from_str("token variable is not set")),
        ),
        TokenLookup::NotText => Err(
            SlimeError::Var(String::from_str("token variable is not valid text")),
        ),
    }
}

/// The bootstrap's position between its outside steps: reading the token,
/// building the client, running the event loop, finished.
#[derive(Debug, PartialEq, Eq)]
pub enum BootState {
    /// Waiting for the token variable to be read.
    AwaitingToken,
    /// Token validated; waiting for the client to be constructed with it.
    AwaitingClient { token: String },
    /// Client constructed; waiting for its event loop to end.
    AwaitingRun,
    /// Bootstrap over; no further event is accepted.
    Done,
}

/// The report of one completed outside step.
#[derive(Debug, PartialEq, Eq)]
pub enum BootEvent {
    /// The token variable was read from the environment.
    TokenRead(TokenLookup),
    /// Client construction finished; an error carries its rendered cause.
    ClientBuilt(Result<(), String>),
    /// The client's event loop ended; an error carries its rendered cause.
    RunEnded(Result<(), String>),
}

/// The outside step the bootstrap asks for next.
#[derive(Debug, PartialEq, Eq)]
pub enum BootAction {
    /// Construct a client from this token and these capability flags.
    BuildClient { token: String, intents: Intents },
    /// Start the constructed client's event loop and block on it.
    StartClient,
    /// Terminate: with `failure` as the process's reported error, if any,
    /// and `log` as a line to write first, if any.
    Exit { failure: Option<SlimeError>, log: Option<String> },
}

/// Which event can follow which state. The bootstrap is linear, and a
/// finished bootstrap accepts no event at all.
pub open spec fn event_fits(s: BootState, e: BootEvent) -> bool {
    match s {
        BootState::AwaitingToken => e is TokenRead,
        BootState::AwaitingClient { .. } => e is ClientBuilt,
        BootState::AwaitingRun => e is RunEnded,
        BootState::Done => false,
    }
}

/// The whole bootstrap policy, one transition at a time.
///
/// An unusable token ends the bootstrap with a configuration failure before
/// any client exists. A client-construction error ends it with a client
/// failure before the event loop starts. An event loop that ends with an
/// error is logged with the `Client error: ` prefix but still reported as a
/// clean exit — a deliberate reading of the bot's observed behaviour, kept
/// here explicitly.
pub open spec fn boot_step_rel(s: BootState, e: BootEvent, s2: BootState, a: BootAction) -> bool {
    match (s, e) {
        (BootState::AwaitingToken, BootEvent::TokenRead(lookup)) => if token_usable(lookup) {
            &&& (s2 matches BootState::AwaitingClient { token } && token@ == lookup->Found_0@)
            &&& (a matches BootAction::BuildClient { token, intents } && token@
                == lookup->Found_0@ && intents == full_intents())
        } else {
            &&& s2 is Done
            &&& (a matches BootAction::Exit {
                failure: Some(SlimeError::Var(d)),
                log: None,
            } && d@ == token_error_detail(lookup))
        },
        (BootState::AwaitingClient { .. }, BootEvent::ClientBuilt(r)) => match r {
            Ok(_) => s2 is AwaitingRun && a is StartClient,
            Err(why) => {
                &&& s2 is Done
                &&& (a matches BootAction::Exit {
                    failure: Some(SlimeError::Serenity(d)),
                    log: None,
                } && d@ == why@)
            },
        },
        (BootState::AwaitingRun, BootEvent::RunEnded(r)) => match r {
            Ok(_) => {
                &&& s2 is Done
                &&& a matches BootAction::Exit { failure: None, log: None }
            },
            Err(why) => {
                &&& s2 is Done
                &&& (a matches BootAction::Exit { failure: None, log: Some(line) } && line@
                    == "Client error: "@ + why@)
            },
        },
        _ => false,
    }
}

/// Advances the bootstrap by one step: from the current state and the
/// report of the last outside step, the next state and the next outside
/// step to perform.
pub fn boot_step(state: BootState, event: BootEvent) -> (r: (BootState, BootAction))
    requires
        event_fits(state, event),
    ensures
        boot_step_rel(state, event, r.0, r.1),
{
    match (state, event) {
        (BootState::AwaitingToken, BootEvent::TokenRead(lookup)) => {
            match validate_token(lookup) {
                Ok(token) => {
                    let next = BootState::AwaitingClient { token: token.clone() };
                    (next, BootAction::BuildClient { token, intents: required_intents() })
                },
                Err(e) => (BootState::Done, BootAction::Exit { failure: Some(e), log: None }),
            }
        },
        (BootState::AwaitingClient { .. }, BootEvent::ClientBuilt(r)) => {
            match r {
                Ok(_) => (BootState::AwaitingRun, BootAction::StartClient),
                Err(why) => (
                    BootState::Done,
                    BootAction::Exit { failure: Some(SlimeError::Serenity(why)), log: None },
                ),
            }
        },
        (BootState::AwaitingRun, BootEvent::RunEnded(r)) => {
            match r {
                Ok(_) => (BootState::Done, BootAction::Exit { failure: None, log: None }),
                Err(why) => {
                    let line = String::from_str("Client error: ").concat(why.as_str());
                    (BootState::Done, BootAction::Exit { failure: None, log: Some(line) })
                },
            }
        },
        _ => unreached(),
    }
}

/// A configuration failure is final and connectionless: when the token read
/// fails, the one step that follows asks only for termination — never for a
/// client to be built or started — reports a configuration error, and
/// leaves the machine accepting no further event, so no network connection
/// attempt can ever be asked for.
pub proof fn lemma_config_failure_makes_no_connection(
    lookup: TokenLookup,
    s2: BootState,
    a: BootAction,
)
    requires
        !token_usable(lookup),
        boot_step_rel(BootState::AwaitingToken, BootEvent::TokenRead(lookup), s2, a),
    ensures
        a !is BuildClient,
        a !is StartClient,
        a matches BootAction::Exit { failure: Some(f), .. } && f.is_config_error(),
        s2 is Done,
        forall|e: BootEvent| !event_fits(s2, e),
{
}

/// A client-construction failure never reaches the event loop: the one step
/// that follows asks only for termination — never for the client to be
/// started — reports a client error, and leaves the machine accepting no
/// further event.
pub proof fn lemma_client_failure_never_starts(
    token: String,
    why: String,
    s2: BootState,
    a: BootAction,
)
    requires
        boot_step_rel(
            BootState::AwaitingClient { token },
            BootEvent::ClientBuilt(Err(why)),
            s2,
            a,
        ),
    ensures
        a !is StartClient,
        a !is BuildClient,
        a matches BootAction::Exit { failure: Some(f), .. } && f.is_client_error(),
        s2 is Done,
        forall|e: BootEvent| !event_fits(s2, e),
{
}

/// Log verbosity chosen at startup.
#[derive(Clone, Copy, Debug, PartialEq, Eq, Structural)]
pub enum LogLevel {
    Debug,
    Info,
}

/// Chooses the startup log verbosity: debug builds log at debug level,
/// release builds at info level.
pub fn startup_log_level(debug_build: bool) -> (l: LogLevel)
    ensures
        l is Debug <==> debug_build,
{
    if debug_build {
        LogLevel::Debug
    } else {
        LogLevel::Info
    }
}

} // verus!
