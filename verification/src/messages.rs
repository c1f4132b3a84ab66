use vstd::prelude::*;

use crate::types::{WindowHandle, WindowId};

verus! {

/// The payload of a client message, in one of the three wire formats.
#[derive(Clone, Copy, Debug)]
pub enum ClientMessageData {
    Data8([u8; 20]),
    Data16([u16; 10]),
    Data32([u32; 5]),
}

/// One untranslated protocol message, reduced to the fields this layer reads.
///
/// Each variant mirrors one message kind of the shell's wire protocol,
/// carrying the window-identifying fields that kind defines.
#[derive(Clone, Copy, Debug)]
pub enum MessageBody {
    ButtonPress { root: WindowHandle, event: WindowHandle, child: WindowHandle },
    ButtonRelease { root: WindowHandle, event: WindowHandle, child: WindowHandle },
    CirculateNotify { event: WindowHandle, window: WindowHandle },
    CirculateRequest { event: WindowHandle, window: WindowHandle },
    ClientMessage { window: WindowHandle, message_type: u32, data: ClientMessageData },
    ColormapNotify { window: WindowHandle },
    ConfigureNotify { event: WindowHandle, window: WindowHandle },
    ConfigureRequest { parent: WindowHandle, window: WindowHandle },
    CreateNotify { parent: WindowHandle, window: WindowHandle },
    DestroyNotify { event: WindowHandle, window: WindowHandle },
    EnterNotify { root: WindowHandle, event: WindowHandle, child: WindowHandle },
    Expose { window: WindowHandle },
    FocusIn { event: WindowHandle },
    FocusOut { event: WindowHandle },
    GravityNotify { event: WindowHandle, window: WindowHandle },
    KeyPress { root: WindowHandle, event: WindowHandle, child: WindowHandle },
    KeyRelease { root: WindowHandle, event: WindowHandle, child: WindowHandle },
    LeaveNotify { root: WindowHandle, event: WindowHandle, child: WindowHandle },
    MapNotify { event: WindowHandle, window: WindowHandle },
    MapRequest { parent: WindowHandle, window: WindowHandle },
    MotionNotify { root: WindowHandle, event: WindowHandle, child: WindowHandle },
    PropertyNotify { window: WindowHandle, atom: u32 },
    ReparentNotify { event: WindowHandle, window: WindowHandle, parent: WindowHandle },
    ResizeRequest { window: WindowHandle, width: u16, height: u16 },
    UnmapNotify { event: WindowHandle, window: WindowHandle },
    VisibilityNotify { window: WindowHandle },
    /// A graphics-exposure report; allowed by the graphics-exposure setting.
    GraphicsExposure,
    /// A no-exposure report; allowed by the graphics-exposure setting.
    NoExposure,
    /// Global keymap state report.
    KeymapNotify,
    /// Global keymap change report.
    MappingNotify,
    /// Clipboard selection traffic; handled by an external collaborator.
    SelectionClear,
    /// Clipboard selection traffic; handled by an external collaborator.
    SelectionNotify,
    /// Clipboard selection traffic; handled by an external collaborator.
    SelectionRequest,
    /// A message kind this layer does not read (an extension event).
    Unknown,
}

impl MessageBody {
    /// The window-identifying field of each message kind, if the kind has
    /// one. Input and crossing messages identify their window by the `event`
    /// field; most notifications by the `window` field; reports without a
    /// window-identifying field yield none.
    pub open spec fn spec_window_handle(self) -> Option<WindowHandle> {
        match self {
            MessageBody::ButtonPress { event, .. } => Some(event),
            MessageBody::ButtonRelease { event, .. } => Some(event),
            MessageBody::CirculateNotify { window, .. } => Some(window),
            MessageBody::CirculateRequest { window, .. } => Some(window),
            MessageBody::ClientMessage { window, .. } => Some(window),
            MessageBody::ColormapNotify { window } => Some(window),
            MessageBody::ConfigureNotify { event, .. } => Some(event),
            MessageBody::ConfigureRequest { window, .. } => Some(window),
            MessageBody::CreateNotify { window, .. } => Some(window),
            MessageBody::DestroyNotify { window, .. } => Some(window),
            MessageBody::EnterNotify { event, .. } => Some(event),
            MessageBody::Expose { window } => Some(window),
            MessageBody::FocusIn { event } => Some(event),
            MessageBody::FocusOut { event } => Some(event),
            MessageBody::GravityNotify { window, .. } => Some(window),
            MessageBody::KeyPress { event, .. } => Some(event),
            MessageBody::KeyRelease { event, .. } => Some(event),
            MessageBody::LeaveNotify { event, .. } => Some(event),
            MessageBody::MapNotify { window, .. } => Some(window),
            MessageBody::MapRequest { window, .. } => Some(window),
            MessageBody::MotionNotify { event, .. } => Some(event),
            MessageBody::PropertyNotify { window, .. } => Some(window),
            MessageBody::ReparentNotify { window, .. } => Some(window),
            MessageBody::ResizeRequest { window, .. } => Some(window),
            MessageBody::UnmapNotify { window, .. } => Some(window),
            MessageBody::VisibilityNotify { window } => Some(window),
            MessageBody::GraphicsExposure => None,
            MessageBody::NoExposure => None,
            MessageBody::KeymapNotify => None,
            MessageBody::MappingNotify => None,
            MessageBody::SelectionClear => None,
            MessageBody::SelectionNotify => None,
            MessageBody::SelectionRequest => None,
            MessageBody::Unknown => None,
        }
    }

    /// Extracts the window-identifying handle of this message, if any.
    pub fn window_handle(&self) -> (r: Option<WindowHandle>)
        ensures
            r == self.spec_window_handle(),
    {
        match self {
            MessageBody::ButtonPress { event, .. } => Some(*event),
            MessageBody::ButtonRelease { event, .. } => Some(*event),
            MessageBody::CirculateNotify { window, .. } => Some(*window),
            MessageBody::CirculateRequest { window, .. } => Some(*window),
            MessageBody::ClientMessage { window, .. } => Some(*window),
            MessageBody::ColormapNotify { window } => Some(*window),
            MessageBody::ConfigureNotify { event, .. } => Some(*event),
            MessageBody::ConfigureRequest { window, .. } => Some(*window),
            MessageBody::CreateNotify { window, .. } => Some(*window),
            MessageBody::DestroyNotify { window, .. } => Some(*window),
            MessageBody::EnterNotify { event, .. } => Some(*event),
            MessageBody::Expose { window } => Some(*window),
            MessageBody::FocusIn { event } => Some(*event),
            MessageBody::FocusOut { event } => Some(*event),
            MessageBody::GravityNotify { window, .. } => Some(*window),
            MessageBody::KeyPress { event, .. } => Some(*event),
            MessageBody::KeyRelease { event, .. } => Some(*event),
            MessageBody::LeaveNotify { event, .. } => Some(*event),
            MessageBody::MapNotify { window, .. } => Some(*window),
            MessageBody::MapRequest { window, .. } => Some(*window),
            MessageBody::MotionNotify { event, .. } => Some(*event),
            MessageBody::PropertyNotify { window, .. } => Some(*window),
            MessageBody::ReparentNotify { window, .. } => Some(*window),
            MessageBody::ResizeRequest { window, .. } => Some(*window),
            MessageBody::UnmapNotify { window, .. } => Some(*window),
            MessageBody::VisibilityNotify { window } => Some(*window),
            MessageBody::GraphicsExposure => None,
            MessageBody::NoExposure => None,
            MessageBody::KeymapNotify => None,
            MessageBody::MappingNotify => None,
            MessageBody::SelectionClear => None,
            MessageBody::SelectionNotify => None,
            MessageBody::SelectionRequest => None,
            MessageBody::Unknown => None,
        }
    }
}

/// The untranslated protocol payload plus its global/window classification.
#[derive(Clone, Copy, Debug)]
pub struct ShellMessage {
    /// The reduced wire payload.
    pub body: MessageBody,
    /// True when the message is not about any caller-created window: it
    /// carries no window-identifying field, or that field names the hidden
    /// window.
    pub is_global: bool,
    /// The window-identifying field of the body, if the kind has one.
    pub window_handle: Option<WindowHandle>,
}

/// What any shell message must answer about itself.
pub trait ShellMessageTrait {
    /// The identifier of the window the message is about, or none for a
    /// global message.
    fn get_window_id(&self) -> Option<WindowId>;

    /// True when the message is not about any caller-created window.
    fn is_global(&self) -> bool;
}

impl ShellMessage {
    /// The window identifier this message is about, or none when global.
    pub open spec fn spec_window_id(self) -> Option<WindowId> {
        if self.is_global {
            None
        } else {
            match self.window_handle {
                Some(h) => Some(h as usize),
                None => None,
            }
        }
    }

    /// The identifier of the window the message is about, or none for a
    /// global message.
    pub fn window_id(&self) -> (r: Option<WindowId>)
        ensures
            r == self.spec_window_id(),
    {
        if self.is_global {
            None
        } else {
            match self.window_handle {
                Some(h) => Some(h as usize),
                None => None,
            }
        }
    }
}

impl ShellMessageTrait for ShellMessage {
    fn get_window_id(&self) -> Option<WindowId> {
        self.window_id()
    }

    fn is_global(&self) -> bool {
        self.is_global
    }
}

} // verus!
