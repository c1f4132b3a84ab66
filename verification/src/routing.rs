use vstd::prelude::*;

use crate::client::ShellClient;
use crate::events::{Event, UserEvent, WindowEvent};
use crate::messages::{ClientMessageData, MessageBody, ShellMessage};
use crate::types::PixelSize;
use crate::window::{Window, find_window, spec_find_window};

verus! {

/// Receives each translated event exactly once; no window is passed when the
/// event is global.
pub trait EventHandler {
    fn handle_event(&mut self, event: Event, window: Option<&Window>);
}

/// Drives the receive loop: called once per message, or with no message when
/// a poll found none queued.
pub trait MessageCallback {
    fn on_message(
        &mut self,
        message: Option<&ShellMessage>,
        settings: &mut crate::events::ListeningSettings,
    );
}

/// What one dispatch asks of the platform layer, beside the handler call it
/// already performed.
#[derive(Clone, Copy, PartialEq, Eq, Debug)]
pub struct DispatchOutcome {
    /// The event delivered to the handler, if the message translated to one.
    pub event: Option<Event>,
    /// True when the message was a ping keepalive: the caller must echo the
    /// raw message unmodified to the root window, with an empty event mask
    /// and no propagation, and surface a send failure as an error.
    pub echo_ping: bool,
}

/// True when the message asks the window to close: a client message whose
/// first 32-bit datum names the close-request protocol.
pub open spec fn spec_close_requested(client: ShellClient, body: MessageBody) -> bool {
    match body {
        MessageBody::ClientMessage { data: ClientMessageData::Data32(d), .. } => d@[0]
            == client.atoms.close_request,
        _ => false,
    }
}

/// True when the message is a ping keepalive: a client message whose first
/// 32-bit datum names the ping protocol (and not the close request, which is
/// checked first).
pub open spec fn spec_ping(client: ShellClient, body: MessageBody) -> bool {
    match body {
        MessageBody::ClientMessage { data: ClientMessageData::Data32(d), .. } => d@[0]
            != client.atoms.close_request && d@[0] == client.atoms.ping_keepalive,
        _ => false,
    }
}

/// The size a resize notification carries, if the message is one.
pub open spec fn spec_resize_size(body: MessageBody) -> Option<PixelSize> {
    match body {
        MessageBody::ResizeRequest { width, height, .. } => Some(
            PixelSize { width: width as u32, height: height as u32 },
        ),
        _ => None,
    }
}

/// The global event a message translates to: only a client message carrying
/// the user-message atom and an 8-bit payload yields one.
pub open spec fn spec_global_event(client: ShellClient, body: MessageBody) -> Option<Event> {
    match body {
        MessageBody::ClientMessage { message_type, data: ClientMessageData::Data8(p), .. } => if message_type
            == client.atoms.user_message {
            Some(Event::UserEvent(UserEvent { data: p }))
        } else {
            None
        },
        _ => None,
    }
}

/// The event a window-scoped message translates to, against the cached state
/// of its window: a close request, nothing for a ping, a resize exactly when
/// the carried size differs from the cache, and nothing otherwise.
pub open spec fn spec_window_event(client: ShellClient, body: MessageBody, window: Window) -> Option<
    Event,
> {
    if spec_close_requested(client, body) {
        Some(Event::WindowEvent(WindowEvent::Close))
    } else if spec_ping(client, body) {
        None
    } else {
        match spec_resize_size(body) {
            Some(new_size) => if new_size != window.size {
                Some(Event::WindowEvent(WindowEvent::Resize { new_size }))
            } else {
                None
            },
            None => None,
        }
    }
}

/// The window state after one window-scoped message: only a resize carrying
/// a changed size updates the cache.
pub open spec fn spec_window_after(client: ShellClient, body: MessageBody, window: Window) -> Window {
    match spec_resize_size(body) {
        Some(new_size) => Window {
            handle: window.handle,
            size: new_size,
            text_input: window.text_input,
            sys_redraw: window.sys_redraw,
        },
        None => window,
    }
}

/// The event one dispatch emits, over the whole live window list.
pub open spec fn spec_dispatch_event(
    client: ShellClient,
    message: ShellMessage,
    windows: Seq<Window>,
) -> Option<Event> {
    if message.is_global {
        spec_global_event(client, message.body)
    } else {
        match message.window_handle {
            Some(handle) => match spec_find_window(windows, handle) {
                Some(i) => spec_window_event(client, message.body, windows[i]),
                None => None,
            },
            None => None,
        }
    }
}

/// True when one dispatch must echo the message back as a ping reply.
pub open spec fn spec_echo_ping(
    client: ShellClient,
    message: ShellMessage,
    windows: Seq<Window>,
) -> bool {
    &&& !message.is_global
    &&& match message.window_handle {
        Some(handle) => spec_find_window(windows, handle).is_some(),
        None => false,
    }
    &&& spec_ping(client, message.body)
}

/// The window list after one dispatch.
pub open spec fn spec_windows_after(
    client: ShellClient,
    message: ShellMessage,
    windows: Seq<Window>,
) -> Seq<Window> {
    if message.is_global {
        windows
    } else {
        match message.window_handle {
            Some(handle) => match spec_find_window(windows, handle) {
                Some(i) => windows.update(
                    i,
                    spec_window_after(client, message.body, windows[i]),
                ),
                None => windows,
            },
            None => windows,
        }
    }
}

impl ShellClient {
    /// Builds the synthetic user-defined message: a client message addressed
    /// to the hidden window under the user-message atom, carrying the opaque
    /// payload. Its dispatch classifies as global and emits exactly one
    /// `UserEvent` with that payload.
    pub fn post_message_body(&self, payload: [u8; 20]) -> (r: MessageBody)
        ensures
            crate::client::spec_message_is_global(*self, r),
            spec_global_event(*self, r) == Some(Event::UserEvent(UserEvent { data: payload })),
    {
        MessageBody::ClientMessage {
            window: self.fake_window_handle,
            message_type: self.atoms.user_message,
            data: ClientMessageData::Data8(payload),
        }
    }

    /// Translates one message and routes the resulting event, if any, to the
    /// handler — exactly one handler invocation per translated message.
    ///
    /// A global message can only yield a caller-defined user event. A
    /// window-scoped message is dispatched against the first live window
    /// carrying its handle; when none does, the dispatch is dropped. A ping
    /// keepalive never reaches the handler: the outcome instead asks the
    /// caller to echo it. A resize notification updates the cached size and
    /// is emitted only when the size actually changed. Unknown messages are
    /// ignored, never an error.
    pub fn process_message<H: EventHandler>(
        &self,
        message: &ShellMessage,
        windows: &mut Vec<Window>,
        handler: &mut H,
    ) -> (r: DispatchOutcome)
        ensures
            final(windows)@ == spec_windows_after(*self, *message, old(windows)@),
            r.event == spec_dispatch_event(*self, *message, old(windows)@),
            r.echo_ping == spec_echo_ping(*self, *message, old(windows)@),
    {
        if message.is_global {
            let event = match message.body {
                MessageBody::ClientMessage {
                    message_type,
                    data: ClientMessageData::Data8(p),
                    ..
                } => if message_type == self.atoms.user_message {
                    Some(Event::UserEvent(UserEvent { data: p }))
                } else {
                    None
                },
                _ => None,
            };
            match event {
                Some(e) => {
                    handler.handle_event(e, None);
                    DispatchOutcome { event: Some(e), echo_ping: false }
                },
                None => DispatchOutcome { event: None, echo_ping: false },
            }
        } else {
            let handle = match message.window_handle {
                Some(h) => h,
                None => {
                    return DispatchOutcome { event: None, echo_ping: false };
                },
            };
            let i = match find_window(windows, handle) {
                Some(i) => i,
                None => {
                    return DispatchOutcome { event: None, echo_ping: false };
                },
            };
            proof {
                crate::window::lemma_find_window(windows@, handle);
            }
            match message.body {
                MessageBody::ClientMessage { data: ClientMessageData::Data32(d), .. } => {
                    if d[0] == self.atoms.close_request {
                        let e = Event::WindowEvent(WindowEvent::Close);
                        handler.handle_event(e, Some(&windows[i]));
                        DispatchOutcome { event: Some(e), echo_ping: false }
                    } else if d[0] == self.atoms.ping_keepalive {
                        DispatchOutcome { event: None, echo_ping: true }
                    } else {
                        DispatchOutcome { event: None, echo_ping: false }
                    }
                },
                MessageBody::ResizeRequest { width, height, .. } => {
                    let new_size = PixelSize::new(width as u32, height as u32);
                    if new_size != windows[i].size {
                        let w = &mut windows[i];
                        w.size = new_size;
                        let e = Event::WindowEvent(WindowEvent::Resize { new_size });
                        handler.handle_event(e, Some(&windows[i]));
                        proof {
                            assert(windows@ =~= spec_windows_after(
                                *self,
                                *message,
                                old(windows)@,
                            ));
                        }
                        DispatchOutcome { event: Some(e), echo_ping: false }
                    } else {
                        proof {
                            assert(windows@ =~= spec_windows_after(
                                *self,
                                *message,
                                old(windows)@,
                            ));
                        }
                        DispatchOutcome { event: None, echo_ping: false }
                    }
                },
                _ => DispatchOutcome { event: None, echo_ping: false },
            }
        }
    }
}

} // verus!
