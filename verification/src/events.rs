//! Handling the events of a virtio-fs worker's epoll loop.

use crate::queue::Error;
use crate::text::{append_decimal, join};
#[allow(unused_imports)]
use crate::text::decimal;
#[allow(unused_imports)]
use crate::words::low_half;
use crate::words::to_low_half;
#[allow(unused_imports)]
use vstd::prelude::*;

verus! {

/// The last event number that the epoll loop keeps for itself.
pub const EPOLL_HELPER_EVENT_LAST: u16 = 15;

/// The event that the guest has put chains into the queue.
pub const QUEUE_AVAIL_EVENT: u16 = EPOLL_HELPER_EVENT_LAST + 1;

/// What has to be done next to handle an event.
#[derive(Debug, PartialEq, Eq)]
pub enum EventStep {
    /// Read the event off the queue's event descriptor.
    ReadEvent,
    /// Serve the queue.
    ProcessQueue,
    /// Tell the guest that chains were given back.
    SignalQueue,
    /// Nothing: the event is handled.
    Finish,
    /// Stop the worker with an error.
    Fail { message: String },
}

impl EventStep {
    /// Whether the worker is stopped with the given message.
    pub open spec fn fails_with(self, text: Seq<char>) -> bool {
        self matches EventStep::Fail { message } && message@ == text
    }
}

/// Decides what an event asks for. The lowest 16 bits of its data tell which event it is.
pub fn handle_event(data: u64) -> (step: EventStep)
    ensures
        step is ReadEvent <==> data as nat % 0x1_0000 == 16,
        if low_half(data) == QUEUE_AVAIL_EVENT {
            step is ReadEvent
        } else {
            step.fails_with("Unexpected virtio-fs event: "@ + decimal(low_half(data) as nat))
        },
{
    let event: u16 = to_low_half(data);
    if event == QUEUE_AVAIL_EVENT {
        EventStep::ReadEvent
    } else {
        let mut message = "Unexpected virtio-fs event: ".to_owned();
        append_decimal(&mut message, event as usize);
        EventStep::Fail { message }
    }
}

/// Decides what follows once the event has been read, or could not be for the given reason.
pub fn event_read(result: Result<(), String>) -> (step: EventStep)
    ensures
        match result {
            Ok(_) => step is ProcessQueue,
            Err(error) => step.fails_with("Failed reading queue event: "@ + error@),
        },
{
    match result {
        Ok(_) => EventStep::ProcessQueue,
        Err(error) => EventStep::Fail { message: join("Failed reading queue event: ", &error) },
    }
}

/// Decides what follows once the queue has been served: the guest is told if any chain was given
/// back.
pub fn queue_processed<D, S, Q>(result: Result<bool, Error<D, S, Q>>) -> (step: EventStep)
    ensures
        match result {
            Ok(used_descs) => if used_descs {
                step is SignalQueue
            } else {
                step is Finish
            },
            Err(error) => step.fails_with(
                "Failed processing virtio-fs queue: "@ + error.spec_message(),
            ),
        },
{
    match result {
        Ok(used_descs) => {
            if used_descs {
                EventStep::SignalQueue
            } else {
                EventStep::Finish
            }
        },
        Err(error) => EventStep::Fail {
            message: join("Failed processing virtio-fs queue: ", error.message()),
        },
    }
}

/// Decides what follows once the guest has been told, or could not be for the given reason.
pub fn queue_signaled(result: Result<(), String>) -> (step: EventStep)
    ensures
        match result {
            Ok(_) => step is Finish,
            Err(error) => step.fails_with("Failed signaling virtio-fs queue: "@ + error@),
        },
{
    match result {
        Ok(_) => EventStep::Finish,
        Err(error) => EventStep::Fail {
            message: join("Failed signaling virtio-fs queue: ", &error),
        },
    }
}

/// To stop with a message is to hold that message, letter for letter.
pub proof fn law_failures_hold_their_message(step: EventStep, text: Seq<char>)
    ensures
        step.fails_with(text) <==> (step is Fail && step->message@ == text),
{
}

} // verus!
