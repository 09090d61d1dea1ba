//! The send buffer of a connection, a bounded channel of `tokio`.

use crate::message::Message;
use tokio::sync::mpsc;
use tokio::sync::mpsc::error::TrySendError;
use vstd::prelude::*;

verus! {

/// Declares [`tokio::sync::mpsc::Sender`]. Nothing is claimed of it here.
#[verifier::external_type_specification]
#[verifier::external_body]
#[verifier::reject_recursive_types(T)]
pub struct ExSender<T>(mpsc::Sender<T>);

/// How an attempt to put a message on a channel ended.
#[derive(Debug, PartialEq, Eq)]
pub enum Outcome {
    /// The channel has taken the message.
    Sent,
    /// The channel had no room, and gave the message back.
    Full(Message),
    /// The channel was closed, and gave the message back.
    Closed(Message),
}

/// The record of one attempt to put a message on a channel. Only the attempt
/// itself makes one.
pub struct Attempt {
    channel: Ghost<mpsc::Sender<Message>>,
    message: Ghost<Message>,
    outcome: Outcome,
}

impl Attempt {
    /// The channel of the attempt.
    pub closed spec fn channel(&self) -> mpsc::Sender<Message> {
        self.channel@
    }

    /// The message of the attempt.
    pub closed spec fn message(&self) -> Message {
        self.message@
    }

    /// How the attempt ended.
    pub closed spec fn result(&self) -> Outcome {
        self.outcome
    }

    /// How the attempt ended.
    pub fn outcome(&self) -> (outcome: &Outcome)
        ensures
            *outcome == self.result(),
    {
        &self.outcome
    }
}

/// What is said of an attempt is what it recorded.
proof fn law_attempt_is_as_recorded(attempt: Attempt)
    ensures
        attempt.channel() == attempt.channel@,
        attempt.message() == attempt.message@,
        attempt.result() == attempt.outcome,
{
}

/// [`mpsc::Sender::try_send`]: hands the message to the channel, once. The channel
/// takes it, or gives it back because it has no room or is closed. Which of them
/// happens rests on the other users of the channel, and is not stated.
#[verifier::external_body]
pub(crate) fn try_send(channel: &mpsc::Sender<Message>, message: Message) -> (attempt: Attempt)
    ensures
        attempt.channel() == *channel,
        attempt.message() == message,
        match attempt.result() {
            Outcome::Sent => true,
            Outcome::Full(returned) => returned == message,
            Outcome::Closed(returned) => returned == message,
        },
{
    let outcome = match channel.try_send(message) {
        Ok(()) => Outcome::Sent,
        Err(TrySendError::Full(returned)) => Outcome::Full(returned),
        Err(TrySendError::Closed(returned)) => Outcome::Closed(returned),
    };
    Attempt { channel: Ghost(*channel), message: Ghost(message), outcome }
}

} // verus!
