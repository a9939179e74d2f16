//! The event handler's reaction rules.
//!
//! The gateway delivers two kinds of event: a "connection ready" event
//! carrying the connected account's display name, and a "message received"
//! event carrying a text body and the identifier of the channel it arrived
//! on. The handler is stateless: each event is judged purely on its own
//! content. A message whose text is exactly `!ping` is answered with `Pong!`
//! addressed to its originating channel; every other message is ignored; a
//! ready event is answered by logging the account's name.
//!
//! Sending the reply is a network call made outside the library, and it may
//! fail. That failure is an isolation boundary: it is logged and discarded,
//! and must never terminate the bot or disturb any other event. The outcome
//! model below states exactly that: the outcome of each event is a function
//! of that event and its own send result alone.

use vstd::prelude::*;

verus! {

/// A received message, reduced to what the handler reads: its text body and
/// the channel to address a reply to.
#[derive(Debug, PartialEq, Eq)]
pub struct IncomingMessage {
    pub channel_id: u64,
    pub content: String,
}

/// An event delivered by the gateway connection.
#[derive(Debug, PartialEq, Eq)]
pub enum Event {
    /// The connection is established; carries the connected account's
    /// display name.
    Ready { user_name: String },
    /// A message arrived.
    Message(IncomingMessage),
}

/// What the handler decides to do for one event.
#[derive(Debug, PartialEq, Eq)]
pub enum Action {
    /// Send `text` to the channel `channel_id`.
    Reply { channel_id: u64, text: String },
    /// Write `line` to the log.
    LogLine { line: String },
    /// Do nothing.
    Ignore,
}

/// The one command the bot reacts to.
pub open spec fn ping_command() -> Seq<char> {
    "!ping"@
}

/// The literal reply sent for the command.
pub open spec fn pong_reply() -> Seq<char> {
    "Pong!"@
}

/// The line logged when the connection is ready.
pub open spec fn ready_line_spec(user_name: Seq<char>) -> Seq<char> {
    user_name + " is connected!"@
}

/// The line logged when sending a reply failed, quoting the rendered cause.
pub open spec fn send_failure_line_spec(why: Seq<char>) -> Seq<char> {
    "Error sending message: "@ + why
}

/// The action the handler owes for an event: a ready event is logged with
/// the account's name; a message is answered with `Pong!` on its own channel
/// if and only if its text is exactly `!ping`; anything else is ignored.
pub open spec fn action_for_event(e: Event, a: Action) -> bool {
    match e {
        Event::Ready { user_name } => a matches Action::LogLine { line } && line@
            == ready_line_spec(user_name@),
        Event::Message(m) => if m.content@ == ping_command() {
            a matches Action::Reply { channel_id, text } && channel_id == m.channel_id && text@
                == pong_reply()
        } else {
            a is Ignore
        },
    }
}

/// Builds the connection-ready log line for a display name.
pub fn ready_line(user_name: &String) -> (r: String)
    ensures
        r@ == ready_line_spec(user_name@),
{
    user_name.clone().concat(" is connected!")
}

/// Builds the log line for a failed reply send from the rendered cause.
pub fn send_failure_line(why: &String) -> (r: String)
    ensures
        r@ == send_failure_line_spec(why@),
{
    String::from_str("Error sending message: ").concat(why.as_str())
}

/// Decides the action for one event. Stateless: the result depends on the
/// event alone, so concurrent deliveries cannot interfere.
pub fn handle_event(e: &Event) -> (a: Action)
    ensures
        action_for_event(*e, a),
{
    match e {
        Event::Ready { user_name } => Action::LogLine { line: ready_line(user_name) },
        Event::Message(m) => {
            let command = String::from_str("!ping");
            if m.content.eq(&command) {
                Action::Reply { channel_id: m.channel_id, text: String::from_str("Pong!") }
            } else {
                Action::Ignore
            }
        },
    }
}

/// How the outside network answered one attempted reply send.
#[derive(Debug, PartialEq, Eq)]
pub enum SendResult {
    /// The reply was delivered.
    Delivered,
    /// The send failed; carries the rendered cause.
    Failed(String),
}

/// What one event amounted to once its action was carried out.
#[derive(Debug, PartialEq, Eq)]
pub enum Outcome {
    /// A `Pong!` reply was delivered to this channel.
    Replied { channel_id: u64 },
    /// The reply to this channel failed; the failure was logged with this
    /// line and discarded.
    ReplyFailed { channel_id: u64, log: String },
    /// A ready event was logged with this line.
    Logged { line: String },
    /// The event called for nothing.
    Ignored,
}

/// An outcome with its text as character sequences, for stating what an
/// outcome must be.
pub enum OutcomeShape {
    Replied { channel_id: u64 },
    ReplyFailed { channel_id: u64, log: Seq<char> },
    Logged { line: Seq<char> },
    Ignored,
}

/// The shape of an outcome value.
pub open spec fn outcome_shape(o: Outcome) -> OutcomeShape {
    match o {
        Outcome::Replied { channel_id } => OutcomeShape::Replied { channel_id },
        Outcome::ReplyFailed { channel_id, log } => OutcomeShape::ReplyFailed {
            channel_id,
            log: log@,
        },
        Outcome::Logged { line } => OutcomeShape::Logged { line: line@ },
        Outcome::Ignored => OutcomeShape::Ignored,
    }
}

/// The outcome owed for one event — a function of that event and its own
/// send result alone, which is the isolation property: nothing another
/// event did, and no other send's failure, appears on the right-hand side.
pub open spec fn outcome_for(e: Event, s: SendResult) -> OutcomeShape {
    match e {
        Event::Ready { user_name } => OutcomeShape::Logged { line: ready_line_spec(user_name@) },
        Event::Message(m) => if m.content@ == ping_command() {
            match s {
                SendResult::Delivered => OutcomeShape::Replied { channel_id: m.channel_id },
                SendResult::Failed(why) => OutcomeShape::ReplyFailed {
                    channel_id: m.channel_id,
                    log: send_failure_line_spec(why@),
                },
            }
        } else {
            OutcomeShape::Ignored
        },
    }
}

/// Settles one event, given the network's answer for its send (consulted
/// only when a reply was actually attempted). A failed send is turned into
/// a log line and discarded here — it becomes an outcome, never an error,
/// so it cannot disturb the connection or any other event.
pub fn settle_event(e: &Event, send: &SendResult) -> (o: Outcome)
    ensures
        outcome_shape(o) == outcome_for(*e, *send),
{
    match handle_event(e) {
        Action::Reply { channel_id, text: _ } => {
            match send {
                SendResult::Delivered => Outcome::Replied { channel_id },
                SendResult::Failed(why) => Outcome::ReplyFailed {
                    channel_id,
                    log: send_failure_line(why),
                },
            }
        },
        Action::LogLine { line } => Outcome::Logged { line },
        Action::Ignore => Outcome::Ignored,
    }
}

/// Settles a whole delivery of events, in order. Every event is settled —
/// a failed send for one event never prevents a later event from being
/// handled — and each outcome is owed to its own event and send result
/// alone.
pub fn settle_all(events: &Vec<Event>, sends: &Vec<SendResult>) -> (outs: Vec<Outcome>)
    requires
        sends@.len() == events@.len(),
    ensures
        outs@.len() == events@.len(),
        forall|i: int|
            0 <= i < events@.len() ==> outcome_shape(outs@[i]) == outcome_for(
                events@[i],
                sends@[i],
            ),
{
    let mut outs: Vec<Outcome> = Vec::new();
    let mut i: usize = 0;
    while i < events.len()
        invariant
            i <= events@.len(),
            sends@.len() == events@.len(),
            outs@.len() == i as int,
            forall|j: int|
                0 <= j < i as int ==> outcome_shape(outs@[j]) == outcome_for(
                    events@[j],
                    sends@[j],
                ),
        decreases events@.len() - i,
    {
        let o = settle_event(&events[i], &sends[i]);
        outs.push(o);
        i = i + 1;
    }
    outs
}

/// True of a message event whose text is exactly the command.
pub open spec fn is_ping_message(e: Event) -> bool {
    e matches Event::Message(m) && m.content@ == ping_command()
}

/// The channel a message event arrived on.
pub open spec fn message_channel(e: Event) -> u64 {
    match e {
        Event::Message(m) => m.channel_id,
        Event::Ready { .. } => 0,
    }
}

/// The reply rule, both directions: for any delivered message text, the
/// handler replies if and only if the text is exactly `!ping` —
/// case-sensitive, with no whitespace tolerance and no prefix or suffix
/// matching — and any reply is the literal `Pong!`, addressed to the
/// message's own channel.
pub proof fn lemma_pong_iff_ping(m: IncomingMessage, a: Action)
    requires
        action_for_event(Event::Message(m), a),
    ensures
        a is Reply <==> m.content@ == ping_command(),
        a matches Action::Reply { channel_id, text } ==> channel_id == m.channel_id && text@
            == pong_reply(),
{
}

/// The connection-ready rule: the handler logs a line that carries the
/// connected account's display name literally — the name is a prefix of
/// the logged line.
pub proof fn lemma_ready_line_carries_name(user_name: String, a: Action)
    requires
        action_for_event(Event::Ready { user_name }, a),
    ensures
        a matches Action::LogLine { line } && line@.subrange(0, user_name@.len() as int)
            == user_name@,
{
    let line = a->LogLine_line;
    assert(line@.subrange(0, user_name@.len() as int) =~= user_name@);
}

/// No deduplication and no rate limiting: two `!ping` messages, wherever
/// they stand in a delivery and whatever stands between them, are answered
/// independently — each delivered reply is addressed to its own message's
/// channel.
pub proof fn lemma_ping_twice_two_replies(
    events: Seq<Event>,
    sends: Seq<SendResult>,
    outs: Seq<Outcome>,
    i: int,
    j: int,
)
    requires
        sends.len() == events.len(),
        outs.len() == events.len(),
        forall|k: int|
            0 <= k < events.len() ==> outcome_shape(outs[k]) == outcome_for(events[k], sends[k]),
        0 <= i < events.len(),
        0 <= j < events.len(),
        i != j,
        is_ping_message(events[i]),
        is_ping_message(events[j]),
        sends[i] is Delivered,
        sends[j] is Delivered,
    ensures
        outcome_shape(outs[i]) == (OutcomeShape::Replied { channel_id: message_channel(events[i]) }),
        outcome_shape(outs[j]) == (OutcomeShape::Replied { channel_id: message_channel(events[j]) }),
{
}

/// Isolation of failures: the outcome at any position of a delivery is
/// unchanged under any change to the other positions' events or send
/// results — in particular, a reply-send failure for one event cannot
/// affect the handling of any other.
pub proof fn lemma_send_failure_isolated(
    events1: Seq<Event>,
    sends1: Seq<SendResult>,
    outs1: Seq<Outcome>,
    events2: Seq<Event>,
    sends2: Seq<SendResult>,
    outs2: Seq<Outcome>,
    i: int,
)
    requires
        sends1.len() == events1.len(),
        outs1.len() == events1.len(),
        forall|k: int|
            0 <= k < events1.len() ==> outcome_shape(outs1[k]) == outcome_for(
                events1[k],
                sends1[k],
            ),
        sends2.len() == events2.len(),
        outs2.len() == events2.len(),
        forall|k: int|
            0 <= k < events2.len() ==> outcome_shape(outs2[k]) == outcome_for(
                events2[k],
                sends2[k],
            ),
        0 <= i < events1.len(),
        0 <= i < events2.len(),
        events1[i] == events2[i],
        sends1[i] == sends2[i],
    ensures
        outcome_shape(outs1[i]) == outcome_shape(outs2[i]),
{
}

} // verus!
