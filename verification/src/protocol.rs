//! What the three loops have in common.
//!
//! Each loop is a state machine. It names the next thing to do (an action),
//! the program does it and reports what came of it (an input), and the
//! machine answers with the next action. The machines never wait and never
//! touch a socket, a file or a clock themselves.

use vstd::prelude::*;

verus! {

/// The input does not answer the action that the machine is waiting on. The
/// machine has not moved.
#[derive(Clone, Copy, Debug, PartialEq, Eq, Structural)]
pub struct OutOfTurn;

/// The three loops that run for as long as the data sources do.
#[derive(Clone, Copy, Debug, PartialEq, Eq, Structural)]
pub enum CoreLoop {
    HealthMonitor,
    EventStreamListener,
    RequestDispatcher,
}

/// Whether shutdown waits for the loop to end. It waits for the health
/// monitor, which sees the shutdown flag within one short sleep, and for
/// the dispatcher, whose intake has closed. It does not wait for the event
/// stream listener: a read on the network may be under way, nothing
/// interrupts it, and the loop is left behind when the process ends.
pub fn awaited_at_shutdown(which: CoreLoop) -> (awaited: bool)
    ensures
        awaited == (which != CoreLoop::EventStreamListener),
{
    match which {
        CoreLoop::HealthMonitor => true,
        CoreLoop::EventStreamListener => false,
        CoreLoop::RequestDispatcher => true,
    }
}

} // verus!
