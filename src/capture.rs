//! The capture loop's states: it runs until its source is exhausted or
//! fails for good.
use vstd::prelude::*;

verus! {

/// Where frames come from.
#[derive(Clone, Copy, Debug, PartialEq, Eq, Structural)]
pub enum Source {
    /// A live network interface.
    Live,
    /// A capture file being replayed.
    File,
}

/// What one attempt to receive a frame gave.
#[derive(Clone, Copy, Debug, PartialEq, Eq, Structural)]
pub enum Receive {
    /// A frame arrived.
    Frame,
    /// The receive failed in a way that may pass (a timeout, an interrupt).
    /// From a capture file this means the input is exhausted.
    Transient,
    /// The device failed for good.
    DeviceError,
}

#[derive(Clone, Copy, Debug, PartialEq, Eq, Structural)]
pub enum CaptureState {
    Running,
    Stopped,
}

pub open spec fn next_state_spec(source: Source, state: CaptureState, event: Receive) -> CaptureState {
    match (state, event) {
        (CaptureState::Stopped, _) => CaptureState::Stopped,
        (_, Receive::Frame) => CaptureState::Running,
        (_, Receive::DeviceError) => CaptureState::Stopped,
        (_, Receive::Transient) => if source == Source::File {
            CaptureState::Stopped
        } else {
            CaptureState::Running
        },
    }
}

/// The state after one receive: a stopped loop stays stopped; a frame keeps
/// it running; a device error stops it; a transient error stops a replay
/// (its input is exhausted) and is retried on a live interface.
pub fn next_state(source: Source, state: CaptureState, event: Receive) -> (r: CaptureState)
    ensures
        r == next_state_spec(source, state, event),
{
    match state {
        CaptureState::Stopped => CaptureState::Stopped,
        CaptureState::Running => match event {
            Receive::Frame => CaptureState::Running,
            Receive::DeviceError => CaptureState::Stopped,
            Receive::Transient => match source {
                Source::File => CaptureState::Stopped,
                Source::Live => CaptureState::Running,
            },
        },
    }
}

} // verus!
