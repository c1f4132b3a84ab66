use vstd::prelude::*;

use crate::types::PixelSize;

verus! {

/// The portable, caller-visible result of translating one shell message.
#[derive(Clone, Copy, PartialEq, Eq, Debug)]
pub enum Event {
    GlobalEvent(GlobalEvent),
    WindowEvent(WindowEvent),
    UserEvent(UserEvent),
}

/// Reserved for future connection-wide notifications; no message translates
/// to one today.
#[derive(Clone, Copy, PartialEq, Eq, Debug)]
pub enum GlobalEvent {
    Reserved,
}

/// An event about one particular window.
#[derive(Clone, Copy, PartialEq, Eq, Debug)]
pub enum WindowEvent {
    Close,
    Resize { new_size: PixelSize },
}

/// A synthetic, caller-defined global event carrying an opaque payload:
/// the twenty raw bytes of the client-message datum.
#[derive(Clone, Copy, PartialEq, Eq, Debug)]
pub struct UserEvent {
    pub data: [u8; 20],
}

/// How the receive loop should obtain its next message.
#[derive(Clone, Copy, PartialEq, Eq, Structural, Debug)]
pub enum ListeningBehavior {
    /// Handle the next message if one is queued, otherwise report none.
    Peek,
    /// Block the calling thread until a new message arrives.
    Await,
}

/// The caller-controlled state of the receive loop.
#[derive(Clone, Copy, PartialEq, Eq, Structural, Debug)]
pub struct ListeningSettings {
    pub behavior: ListeningBehavior,
    pub should_stop: bool,
}

impl Default for ListeningBehavior {
    fn default() -> (r: Self)
        ensures
            r == ListeningBehavior::Peek,
    {
        ListeningBehavior::Peek
    }
}

impl Default for ListeningSettings {
    fn default() -> (r: Self)
        ensures
            r == (ListeningSettings { behavior: ListeningBehavior::Peek, should_stop: false }),
    {
        ListeningSettings { behavior: ListeningBehavior::Peek, should_stop: false }
    }
}

/// What the receive loop must do next, given the current settings.
#[derive(Clone, Copy, PartialEq, Eq, Structural, Debug)]
pub enum ListenStep {
    /// Terminate the loop before reading another message.
    Stop,
    /// Take one queued message if available, without suspending.
    Poll,
    /// Suspend until a message arrives.
    Wait,
}

/// Decides the next step of the receive loop: the stop directive is checked
/// once per message, before anything else.
pub fn next_listen_step(settings: &ListeningSettings) -> (r: ListenStep)
    ensures
        r == (if settings.should_stop {
            ListenStep::Stop
        } else if settings.behavior == ListeningBehavior::Peek {
            ListenStep::Poll
        } else {
            ListenStep::Wait
        }),
{
    if settings.should_stop {
        ListenStep::Stop
    } else {
        match settings.behavior {
            ListeningBehavior::Peek => ListenStep::Poll,
            ListeningBehavior::Await => ListenStep::Wait,
        }
    }
}

} // verus!
