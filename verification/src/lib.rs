use vstd::prelude::*;

mod client;
mod clipboard;
mod commands;
mod errors;
mod events;
mod laws;
mod messages;
mod null_canvas;
mod opengl;
mod protocol;
mod rawpix;
mod routing;
mod sync_counter;
mod text_input;
mod types;
mod window_manip;
mod window;

pub use crate::client::{
    ShellClient, spec_class_name, spec_default_protocols, spec_destroy_commands,
    spec_drop_window_commands, spec_message_is_global, spec_subsystem_available,
    spec_subsystem_enabled, spec_toggle_check, spec_toggle_command, spec_toggle_plan,
    spec_is_wakeup_body, spec_window_protocols, translate_class_name,
};
pub use crate::clipboard::{
    ClipboardController, ClipboardDescription, ClipboardOffer, ClipboardOfferEvent, ClipboardUsage,
};
pub use crate::commands::NativeCommand;
pub use crate::errors::Error;
pub use crate::events::{
    Event, GlobalEvent, ListenStep, ListeningBehavior, ListeningSettings, UserEvent, WindowEvent,
    next_listen_step,
};
pub use crate::laws::{
    law_close_request_surfaces, law_drop_window_teardown, law_forced_subsystem_toggle,
    law_ping_never_surfaces, law_resize_dispatch_idempotent,
    law_resize_translation, law_toggle_idempotent, law_unavailable_toggle_fails,
    law_wakeup_classified_global,
};
pub use crate::messages::{ClientMessageData, MessageBody, ShellMessage, ShellMessageTrait};
pub use crate::null_canvas::NullCanvas;
pub use crate::opengl::{OpenglContext, OpenglInfo, OpenglProfile, OpenglVersion, SurfaceParams};
pub use crate::protocol::{AtomRole, AtomTable};
pub use crate::rawpix::{
    PixelFormat, Pixmap, RawpixCanvasTrait, RawpixData, RawpixInfo, size_of_pixel,
};
pub use crate::routing::{
    DispatchOutcome, EventHandler, MessageCallback, spec_close_requested, spec_dispatch_event,
    spec_echo_ping, spec_global_event, spec_ping, spec_resize_size, spec_window_after,
    spec_window_event, spec_windows_after,
};
pub use crate::sync_counter::{
    SyncValue, SysRedrawSubsystem, lemma_sync_value_in_range, lemma_sync_value_round_trip,
};
pub use crate::text_input::TextInputSubsystem;
pub use crate::types::{
    AtomId, PixelSize, ShellClientInfo, ShellSubsystem, WindowHandle, WindowId, WindowInfo,
    subsystems_contain, window_handle_to_id,
};
pub use crate::window::{
    Window, find_window, lemma_find_window, lemma_find_window_update, lookup_window,
    spec_find_window,
};
pub use crate::window_manip::{TitleController, VisibilityController};
