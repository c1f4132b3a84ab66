use vstd::prelude::*;

use crate::client::{ShellClient, spec_window_protocols};
use crate::commands::NativeCommand;
use crate::client::spec_drop_window_commands;
use crate::types::{AtomId, WindowHandle, WindowInfo};
use crate::window::Window;

verus! {

/// A canvas that draws nothing: it requests the default visual and backs a
/// window that is only ever managed, never painted.
#[derive(Clone, Copy, PartialEq, Eq, Structural, Debug)]
pub struct NullCanvas;

impl NullCanvas {
    /// Builds the window record for a freshly created native resource, as
    /// [`ShellClient::new_window`] does, and pairs it with the canvas.
    pub fn new(client: &ShellClient, handle: WindowHandle, info: &WindowInfo) -> (r: (
        Window,
        NullCanvas,
        Vec<AtomId>,
    ))
        ensures
            r.0.handle == handle,
            r.0.size == info.size,
            r.0.text_input.is_none(),
            r.0.sys_redraw.is_none(),
            r.2@ == spec_window_protocols(*client, r.0),
    {
        let (window, protocols) = client.new_window(handle, info);
        (window, NullCanvas, protocols)
    }

    /// Releases the window the canvas was created with: the teardown plan of
    /// [`ShellClient::drop_window`].
    pub fn drop(self, client: &ShellClient, window: Window) -> (r: Vec<NativeCommand>)
        ensures
            r@ == spec_drop_window_commands(*client, window),
    {
        client.drop_window(window)
    }
}

} // verus!
