//! The bot's failure taxonomy: a closed, two-variant error.
//!
//! Exactly two failure kinds reach the process boundary: a configuration
//! (environment-variable) failure and a chat-client failure. Each variant
//! carries a rendered description of the underlying cause. A third kind of
//! failure, a failed reply send, never becomes a `SlimeError`: it is handled
//! locally by the event handler (see `handler`).

use vstd::prelude::*;

verus! {

/// The error surfaced at the process boundary, selecting a failing exit.
///
/// `Var` is a configuration failure: the token variable was unset, empty or
/// not valid text. `Serenity` is a chat-client failure: the client could not
/// be constructed. The carried string describes the underlying cause; it
/// never contains the secret token itself.
#[derive(Debug, PartialEq, Eq)]
pub enum SlimeError {
    Var(String),
    Serenity(String),
}

impl SlimeError {
    /// The diagnostic rendering of this error, one distinguishing prefix per
    /// variant, quoting the carried cause.
    pub open spec fn debug_text_spec(self) -> Seq<char> {
        match self {
            SlimeError::Var(d) => "Slime says: \"Variable error: "@ + d@ + "\""@,
            SlimeError::Serenity(d) => "Slime says: \"Serenity error: "@ + d@ + "\""@,
        }
    }

    /// The display rendering of this error, naming the variant and carrying
    /// the cause in parentheses.
    pub open spec fn display_text_spec(self) -> Seq<char> {
        match self {
            SlimeError::Var(d) => "SlimeError::Var("@ + d@ + ")"@,
            SlimeError::Serenity(d) => "SlimeError::SerenityError("@ + d@ + ")"@,
        }
    }

    /// True of a configuration (environment-variable) failure.
    pub open spec fn is_config_error(self) -> bool {
        self is Var
    }

    /// True of a chat-client failure.
    pub open spec fn is_client_error(self) -> bool {
        self is Serenity
    }

    /// Renders the diagnostic text of this error.
    pub fn debug_text(&self) -> (r: String)
        ensures
            r@ == self.debug_text_spec(),
    {
        match self {
            SlimeError::Var(d) => String::from_str("Slime says: \"Variable error: ").concat(
                d.as_str(),
            ).concat("\""),
            SlimeError::Serenity(d) => String::from_str("Slime says: \"Serenity error: ").concat(
                d.as_str(),
            ).concat("\""),
        }
    }

    /// Renders the display text of this error.
    pub fn display_text(&self) -> (r: String)
        ensures
            r@ == self.display_text_spec(),
    {
        match self {
            SlimeError::Var(d) => String::from_str("SlimeError::Var(").concat(d.as_str()).concat(
                ")",
            ),
            SlimeError::Serenity(d) => String::from_str("SlimeError::SerenityError(").concat(
                d.as_str(),
            ).concat(")"),
        }
    }
}

} // verus!
