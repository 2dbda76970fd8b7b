//! The two ends of a bounded queue of numbers: what the producer does next,
//! and what the consumer does with what arrives.

use vstd::prelude::*;

verus! {

/// How many values the queue holds before the producer has to wait.
pub const CAPACITY: usize = 32;

/// How many values the producer sends: the numbers from zero up to, and
/// without, this one.
pub const MESSAGES: i32 = 10;

/// How long, in milliseconds, the producer pauses after each value.
pub const SEND_PAUSE_MS: u64 = 20;

/// How long, in milliseconds, the consumer takes over each value.
pub const RECEIVE_PAUSE_MS: u64 = 50;

/// What the producer does next.
#[derive(Clone, Copy, Debug, PartialEq, Eq, Structural)]
pub enum ProducerStep {
    /// Send this value, and wait until the queue has taken it.
    Send { value: i32 },
    /// All values are sent: let go of the queue.
    Finish,
}

/// Decides what the producer does when it has sent `sent` values: it sends
/// the number `sent` itself as long as that is below [`MESSAGES`], and
/// finishes after that.
pub fn producer_step(sent: i32) -> (step: ProducerStep)
    ensures
        sent < MESSAGES ==> step == (ProducerStep::Send { value: sent }),
        sent >= MESSAGES ==> step == ProducerStep::Finish,
{
    if sent < MESSAGES {
        ProducerStep::Send { value: sent }
    } else {
        ProducerStep::Finish
    }
}

/// What the producer does once the queue has answered a send.
#[derive(Clone, Copy, Debug, PartialEq, Eq, Structural)]
pub enum SendOutcome {
    /// The value was taken: pause for [`SEND_PAUSE_MS`], then go on with
    /// `sent` values sent.
    Continue { sent: i32 },
    /// The consumer is gone: stop, with this value undelivered.
    Abort { value: i32 },
}

/// Decides how the producer goes on after sending `value`: with one more
/// value sent if the queue took it, and not at all if the consumer is gone.
pub fn after_send(value: i32, delivered: bool) -> (outcome: SendOutcome)
    requires
        value < i32::MAX,
    ensures
        delivered ==> outcome == (SendOutcome::Continue { sent: (value + 1) as i32 }),
        !delivered ==> outcome == (SendOutcome::Abort { value }),
{
    if delivered {
        SendOutcome::Continue { sent: value + 1 }
    } else {
        SendOutcome::Abort { value }
    }
}

/// What the consumer does next.
#[derive(Clone, Copy, Debug, PartialEq, Eq, Structural)]
pub enum ConsumerStep {
    /// Take this value, spend [`RECEIVE_PAUSE_MS`] on it, and wait for the
    /// next.
    Handle { value: i32 },
    /// The queue is closed and empty: stop.
    Finish,
}

/// Decides what the consumer does with what the queue hands it: a value is
/// handled, and the end of the queue ends the consumer.
pub fn consumer_step(received: Option<i32>) -> (step: ConsumerStep)
    ensures
        step == match received {
            Some(value) => ConsumerStep::Handle { value },
            None => ConsumerStep::Finish,
        },
{
    match received {
        Some(value) => ConsumerStep::Handle { value },
        None => ConsumerStep::Finish,
    }
}

/// The values that the producer has sent after `sent` sends that were all
/// taken: the numbers below `sent`, in order.
pub open spec fn values_sent(sent: int) -> Seq<i32> {
    Seq::new(sent as nat, |i: int| i as i32)
}

/// Runs the producer against a queue that takes every value, and returns
/// what was sent: the numbers below [`MESSAGES`], in order.
pub fn produce_all() -> (values: Vec<i32>)
    ensures
        values@ == values_sent(MESSAGES as int),
{
    let mut values: Vec<i32> = Vec::new();
    let mut sent: i32 = 0;
    loop
        invariant_except_break
            0 <= sent <= MESSAGES,
            values@ == values_sent(sent as int),
        ensures
            values@ == values_sent(MESSAGES as int),
        decreases MESSAGES - sent,
    {
        match producer_step(sent) {
            ProducerStep::Send { value } => {
                values.push(value);
                match after_send(value, true) {
                    SendOutcome::Continue { sent: next } => {
                        assert(values@ =~= values_sent(next as int));
                        sent = next;
                    },
                    SendOutcome::Abort { .. } => {
                        break ;
                    },
                }
            },
            ProducerStep::Finish => {
                break ;
            },
        }
    }
    values
}

} // verus!
