use vstd::prelude::*;

use crate::types::WindowHandle;

verus! {

/// One unit of native work the platform layer must perform on behalf of this
/// layer's decisions. Commands carry only identifying values; the data to
/// write (protocol lists, the class name) comes from the owning client's
/// query functions.
#[derive(Clone, Copy, PartialEq, Eq, Structural, Debug)]
pub enum NativeCommand {
    /// Allocate one native counter object initialized to zero.
    CreateSyncCounter,
    /// Destroy the native counter object with this identifier.
    DestroySyncCounter { counter: u32 },
    /// Rewrite the window's registered protocol list to the default pair.
    ResetWindowProtocols { window: WindowHandle },
    /// Open a text-input context bound to this window for both the
    /// client-window and focus-window roles, with no preedit or status UI.
    OpenInputContext { window: WindowHandle },
    /// Close the window's text-input context.
    CloseInputContext { window: WindowHandle },
    /// Close the global input method.
    CloseInputMethod,
    /// Destroy the native window resource.
    DestroyWindow { window: WindowHandle },
}

} // verus!
