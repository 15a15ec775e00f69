//! The operator's dialogue: who may speak, which endpoint answers, and what
//! each endpoint does to the conversation and to the heating record.
//!
//! The caller receives a message, reduces it to a [`Content`], asks this
//! module what follows, sends the [`Reply`] and stores the next [`State`] of
//! the conversation. Nothing here sends or receives anything.

use crate::clock::Timestamp;
use crate::gateway::StateGateway;
use crate::heating::{HeatingState, StatusReport};
use crate::temperature::Temperature;
use vstd::prelude::*;

verus! {

/// Where one conversation stands.
#[derive(Clone, Copy, Debug, PartialEq, Eq, Structural)]
pub enum State {
    /// Commands are accepted.
    Initial,
    /// The next free text is read as the target temperature.
    ReceiveTemp,
}

impl Default for State {
    /// A conversation starts in `Initial`.
    fn default() -> (state: State)
        ensures
            state == State::Initial,
    {
        State::Initial
    }
}

/// The operator's commands.
#[derive(Clone, Copy, Debug, PartialEq, Eq, Structural)]
pub enum Command {
    Help,
    Status,
    SetTemp,
    On,
    Off,
    Cancel,
}

/// What an inbound message holds, as far as the dialogue cares.
#[derive(Clone, Copy, Debug, PartialEq, Eq)]
pub enum Content {
    /// One of the commands.
    Command(Command),
    /// Free text that is no command, with the temperature it spells where it
    /// spells a number.
    Text(Option<Temperature>),
    /// A message without text.
    Other,
}

/// The handlers a message can be routed to.
#[derive(Clone, Copy, Debug, PartialEq, Eq, Structural)]
pub enum Endpoint {
    Help,
    Status,
    SetTemp,
    SetHeatingOn,
    SetHeatingOff,
    Cancel,
    ReceiveTemp,
    InvalidState,
}

/// What is sent back to the operator.
#[derive(Clone, Copy, Debug, PartialEq, Eq)]
pub enum Reply {
    /// The sender is not on the allow-list.
    Unauthorized,
    /// The list of commands.
    Help,
    /// The record and the decision derived from it.
    Status(StatusReport),
    /// The prompt for a target temperature.
    EnterTargetTemperature,
    /// The text was no usable temperature; asks again.
    InvalidTargetTemperature,
    /// The message had no text; asks for the temperature again.
    SendTargetTemperature,
    /// The target temperature was set to the value held.
    TargetTemperatureSet(Temperature),
    /// The switch was set on.
    HeatingSetOn,
    /// The switch was set off.
    HeatingSetOff,
    /// The dialogue was cancelled.
    Cancelled,
    /// No endpoint takes this message in this state.
    UnableToHandle,
}

/// How one message ends: the conversation's next state and the reply.
#[derive(Clone, Copy, Debug, PartialEq, Eq)]
pub struct Outcome {
    pub next: State,
    pub reply: Reply,
}

/// The endpoint that the dispatch tree picks for a message from an authorized
/// sender.
///
/// `Cancel` is taken in every state. The other commands are taken in
/// `Initial` only. While a temperature is awaited, anything that is no
/// command goes to `ReceiveTemp`. Whatever is left, free text in `Initial`
/// and the other commands while a temperature is awaited, has no handler.
pub open spec fn spec_schema(state: State, content: Content) -> Endpoint {
    match (content, state) {
        (Content::Command(Command::Cancel), _) => Endpoint::Cancel,
        (Content::Command(Command::Help), State::Initial) => Endpoint::Help,
        (Content::Command(Command::Status), State::Initial) => Endpoint::Status,
        (Content::Command(Command::SetTemp), State::Initial) => Endpoint::SetTemp,
        (Content::Command(Command::On), State::Initial) => Endpoint::SetHeatingOn,
        (Content::Command(Command::Off), State::Initial) => Endpoint::SetHeatingOff,
        (Content::Command(_), State::ReceiveTemp) => Endpoint::InvalidState,
        (_, State::ReceiveTemp) => Endpoint::ReceiveTemp,
        (_, State::Initial) => Endpoint::InvalidState,
    }
}

/// The temperature that a message offers as the new target: the one its text
/// spells, provided it is finite.
pub open spec fn offered_temperature(content: Content) -> Option<Temperature> {
    match content {
        Content::Text(Some(value)) if value.is_finite() => Some(value),
        _ => None,
    }
}

/// What `ReceiveTemp` answers to a message.
pub open spec fn receive_temp_outcome(content: Content) -> Outcome {
    match content {
        Content::Other => Outcome { next: State::ReceiveTemp, reply: Reply::SendTargetTemperature },
        _ => match offered_temperature(content) {
            Some(value) => Outcome {
                next: State::Initial,
                reply: Reply::TargetTemperatureSet(value),
            },
            None => Outcome {
                next: State::ReceiveTemp,
                reply: Reply::InvalidTargetTemperature,
            },
        },
    }
}

/// The record after `ReceiveTemp` has seen a message.
pub open spec fn receive_temp_record(record: HeatingState, content: Content) -> HeatingState {
    match offered_temperature(content) {
        Some(value) => record.with_target_temp(value),
        None => record,
    }
}

/// How a message from an authorized sender ends, given the conversation's
/// state and the record at the time `now`.
pub open spec fn dispatch_outcome(
    state: State,
    content: Content,
    record: HeatingState,
    now: Timestamp,
) -> Outcome {
    match spec_schema(state, content) {
        Endpoint::Help => Outcome { next: state, reply: Reply::Help },
        Endpoint::Status => Outcome { next: state, reply: Reply::Status(record.status(now)) },
        Endpoint::SetTemp => Outcome {
            next: State::ReceiveTemp,
            reply: Reply::EnterTargetTemperature,
        },
        Endpoint::SetHeatingOn => Outcome { next: state, reply: Reply::HeatingSetOn },
        Endpoint::SetHeatingOff => Outcome { next: state, reply: Reply::HeatingSetOff },
        Endpoint::Cancel => Outcome { next: State::Initial, reply: Reply::Cancelled },
        Endpoint::ReceiveTemp => receive_temp_outcome(content),
        Endpoint::InvalidState => Outcome { next: state, reply: Reply::UnableToHandle },
    }
}

/// The record after a message from an authorized sender.
pub open spec fn dispatch_record(
    state: State,
    content: Content,
    record: HeatingState,
) -> HeatingState {
    match spec_schema(state, content) {
        Endpoint::SetHeatingOn => record.with_switch(true),
        Endpoint::SetHeatingOff => record.with_switch(false),
        Endpoint::ReceiveTemp => receive_temp_record(record, content),
        _ => record,
    }
}

/// Whether `chat_id` is on the allow-list.
pub fn check_valid_user(authorized_users: &Vec<i64>, chat_id: i64) -> (authorized: bool)
    ensures
        authorized == authorized_users@.contains(chat_id),
{
    let mut i: usize = 0;
    while i < authorized_users.len()
        invariant
            i <= authorized_users.len(),
            forall|j: int| 0 <= j < i ==> authorized_users@[j] != chat_id,
        decreases authorized_users.len() - i,
    {
        if authorized_users[i] == chat_id {
            return true;
        }
        i += 1;
    }
    false
}

/// Picks the endpoint for a message from an authorized sender.
#[verifier::when_used_as_spec(spec_schema)]
pub fn schema(state: State, content: Content) -> (endpoint: Endpoint)
    ensures
        endpoint == spec_schema(state, content),
{
    match content {
        Content::Command(Command::Cancel) => Endpoint::Cancel,
        Content::Command(command) => match state {
            State::Initial => match command {
                Command::Help => Endpoint::Help,
                Command::Status => Endpoint::Status,
                Command::SetTemp => Endpoint::SetTemp,
                Command::On => Endpoint::SetHeatingOn,
                Command::Off => Endpoint::SetHeatingOff,
                Command::Cancel => Endpoint::Cancel,
            },
            State::ReceiveTemp => Endpoint::InvalidState,
        },
        _ => match state {
            State::ReceiveTemp => Endpoint::ReceiveTemp,
            State::Initial => Endpoint::InvalidState,
        },
    }
}

/// Answers with the list of commands.
pub fn help() -> (reply: Reply)
    ensures
        reply == Reply::Help,
{
    Reply::Help
}

/// Leaves the dialogue: the conversation is back in `Initial`.
pub fn cancel() -> (outcome: Outcome)
    ensures
        outcome == (Outcome { next: State::Initial, reply: Reply::Cancelled }),
{
    Outcome { next: State::Initial, reply: Reply::Cancelled }
}

/// Answers a message that no endpoint takes.
pub fn invalid_state() -> (reply: Reply)
    ensures
        reply == Reply::UnableToHandle,
{
    Reply::UnableToHandle
}

/// Reports the record as it stands at `now`, with the age of the reading and
/// the derived decision. The record is read in one piece and not changed.
pub fn status(gateway: &StateGateway, now: Timestamp) -> (reply: Reply)
    ensures
        reply == Reply::Status(gateway@.status(now)),
{
    let record = gateway.snapshot();
    Reply::Status(record.status(now))
}

/// Asks for the target temperature and awaits it.
pub fn set_temp() -> (outcome: Outcome)
    ensures
        outcome == (Outcome { next: State::ReceiveTemp, reply: Reply::EnterTargetTemperature }),
{
    Outcome { next: State::ReceiveTemp, reply: Reply::EnterTargetTemperature }
}

/// Takes the awaited target temperature.
///
/// Text that spells a finite number sets the target and ends the dialogue.
/// Any other text leaves record and conversation as they are and asks again;
/// so does a message without text, with a reply of its own.
pub fn receive_temp(gateway: &mut StateGateway, content: Content) -> (outcome: Outcome)
    ensures
        outcome == receive_temp_outcome(content),
        final(gateway)@ == receive_temp_record(old(gateway)@, content),
{
    match content {
        Content::Text(Some(value)) => {
            match gateway.set_target_temperature(value) {
                Ok(()) => Outcome {
                    next: State::Initial,
                    reply: Reply::TargetTemperatureSet(value),
                },
                Err(_) => Outcome {
                    next: State::ReceiveTemp,
                    reply: Reply::InvalidTargetTemperature,
                },
            }
        },
        Content::Other => Outcome { next: State::ReceiveTemp, reply: Reply::SendTargetTemperature },
        _ => Outcome { next: State::ReceiveTemp, reply: Reply::InvalidTargetTemperature },
    }
}

/// Sets the manual switch on.
pub fn set_heating_on(gateway: &mut StateGateway) -> (reply: Reply)
    ensures
        reply == Reply::HeatingSetOn,
        final(gateway)@ == old(gateway)@.with_switch(true),
{
    gateway.set_switch(true);
    Reply::HeatingSetOn
}

/// Sets the manual switch off.
pub fn set_heating_off(gateway: &mut StateGateway) -> (reply: Reply)
    ensures
        reply == Reply::HeatingSetOff,
        final(gateway)@ == old(gateway)@.with_switch(false),
{
    gateway.set_switch(false);
    Reply::HeatingSetOff
}

/// Handles one message from an authorized sender: picks the endpoint and
/// runs it.
pub fn dispatch(
    state: State,
    content: Content,
    gateway: &mut StateGateway,
    now: Timestamp,
) -> (outcome: Outcome)
    ensures
        outcome == dispatch_outcome(state, content, old(gateway)@, now),
        final(gateway)@ == dispatch_record(state, content, old(gateway)@),
{
    match schema(state, content) {
        Endpoint::Help => Outcome { next: state, reply: help() },
        Endpoint::Status => Outcome { next: state, reply: status(gateway, now) },
        Endpoint::SetTemp => set_temp(),
        Endpoint::SetHeatingOn => Outcome { next: state, reply: set_heating_on(gateway) },
        Endpoint::SetHeatingOff => Outcome { next: state, reply: set_heating_off(gateway) },
        Endpoint::Cancel => cancel(),
        Endpoint::ReceiveTemp => receive_temp(gateway, content),
        Endpoint::InvalidState => Outcome { next: state, reply: invalid_state() },
    }
}

/// Handles one inbound message.
///
/// A sender who is not on the allow-list gets the rejection and nothing else
/// happens: the conversation stays where it is and the record is neither read
/// nor changed. Any other message is dispatched.
pub fn handle_message(
    authorized_users: &Vec<i64>,
    chat_id: i64,
    state: State,
    content: Content,
    gateway: &mut StateGateway,
    now: Timestamp,
) -> (outcome: Outcome)
    ensures
        authorized_users@.contains(chat_id) ==> ({
            &&& outcome == dispatch_outcome(state, content, old(gateway)@, now)
            &&& final(gateway)@ == dispatch_record(state, content, old(gateway)@)
        }),
        !authorized_users@.contains(chat_id) ==> ({
            &&& outcome == (Outcome { next: state, reply: Reply::Unauthorized })
            &&& final(gateway)@ == old(gateway)@
        }),
{
    if !check_valid_user(authorized_users, chat_id) {
        return Outcome { next: state, reply: Reply::Unauthorized };
    }
    dispatch(state, content, gateway, now)
}

/// No message changes the reading or the time of its report, whatever the
/// conversation's state: the dialogue can set the target and the switch and
/// nothing else.
pub proof fn lemma_dialogue_keeps_report(state: State, content: Content, record: HeatingState)
    ensures
        dispatch_record(state, content, record).current_temp == record.current_temp,
        dispatch_record(state, content, record).current_temp_reported_at
            == record.current_temp_reported_at,
{
}

/// While a temperature is awaited, the conversation returns to `Initial` on
/// exactly two kinds of message: the cancel command, and text that spells a
/// finite number. Only the second changes the record, and only its target.
pub proof fn lemma_leaving_receive_temp(content: Content, record: HeatingState, now: Timestamp)
    ensures
        dispatch_outcome(State::ReceiveTemp, content, record, now).next == State::Initial <==> (
        content == Content::Command(Command::Cancel) || offered_temperature(content) is Some),
        offered_temperature(content) matches Some(value) ==> dispatch_record(
            State::ReceiveTemp,
            content,
            record,
        ) == record.with_target_temp(value),
        offered_temperature(content) is None ==> dispatch_record(
            State::ReceiveTemp,
            content,
            record,
        ) == record,
{
}

} // verus!
