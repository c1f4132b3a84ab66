use vstd::prelude::*;

use crate::client::{ShellClient, spec_drop_window_commands, spec_is_wakeup_body,
    spec_message_is_global, spec_subsystem_available, spec_subsystem_enabled, spec_toggle_plan};
use crate::commands::NativeCommand;
use crate::errors::Error;
use crate::events::{Event, WindowEvent};
use crate::messages::{ClientMessageData, MessageBody, ShellMessage};
use crate::routing::{spec_close_requested, spec_dispatch_event, spec_echo_ping,
    spec_global_event, spec_ping, spec_resize_size, spec_window_after, spec_window_event,
    spec_windows_after};
use crate::types::ShellSubsystem;
use crate::window::{Window, spec_find_window};

verus! {

/// A forced subsystem is always enabled, so requesting to enable it is a
/// no-op success — the forced state is pre-satisfied — while requesting to
/// disable it is refused with `SubsystemForced`; neither request changes any
/// state.
pub proof fn law_forced_subsystem_toggle(
    client: ShellClient,
    window: Window,
    subsystem: ShellSubsystem,
)
    requires
        subsystem.spec_forced(),
    ensures
        spec_subsystem_enabled(window, subsystem),
        spec_toggle_plan(client, window, subsystem, true) == Ok::<
            Option<NativeCommand>,
            Error,
        >(None),
        spec_toggle_plan(client, window, subsystem, false) == Err::<
            Option<NativeCommand>,
            Error,
        >(Error::SubsystemForced),
{
}

/// Toggling toward a state that already holds succeeds without any native
/// work: a second enable after an enable, or a disable with no prior enable,
/// is idempotent.
pub proof fn law_toggle_idempotent(
    client: ShellClient,
    window: Window,
    subsystem: ShellSubsystem,
    state_enabled: bool,
)
    requires
        spec_subsystem_enabled(window, subsystem) == state_enabled,
    ensures
        spec_toggle_plan(client, window, subsystem, state_enabled) == Ok::<
            Option<NativeCommand>,
            Error,
        >(None),
{
}

/// Toggling an unavailable subsystem toward a state that does not already
/// hold always fails with `SubsystemNotAvailable`, whatever the prior
/// enabled state.
pub proof fn law_unavailable_toggle_fails(
    client: ShellClient,
    window: Window,
    subsystem: ShellSubsystem,
    state_enabled: bool,
)
    requires
        !spec_subsystem_available(client, subsystem),
        spec_subsystem_enabled(window, subsystem) != state_enabled,
    ensures
        spec_toggle_plan(client, window, subsystem, state_enabled) == Err::<
            Option<NativeCommand>,
            Error,
        >(Error::SubsystemNotAvailable),
{
}

/// Resize translation: a resize notification emits an event exactly when
/// the carried size differs from the cache, the cache then equals the
/// carried size, and feeding the identical notification again emits
/// nothing.
pub proof fn law_resize_translation(client: ShellClient, body: MessageBody, window: Window)
    requires
        spec_resize_size(body) is Some,
    ensures
        ({
            let new_size = spec_resize_size(body)->Some_0;
            let updated = spec_window_after(client, body, window);
            &&& updated.size == new_size
            &&& spec_window_event(client, body, window) == (if new_size != window.size {
                Some(Event::WindowEvent(WindowEvent::Resize { new_size }))
            } else {
                None
            })
            &&& spec_window_event(client, body, updated) is None
        }),
{
}

/// A window-scoped close request is delivered exactly once whenever its
/// window is live, and changes no window state.
pub proof fn law_close_request_surfaces(
    client: ShellClient,
    message: ShellMessage,
    windows: Seq<Window>,
)
    requires
        !message.is_global,
        spec_close_requested(client, message.body),
        message.window_handle matches Some(h) && spec_find_window(windows, h) is Some,
    ensures
        spec_dispatch_event(client, message, windows) == Some(
            Event::WindowEvent(WindowEvent::Close),
        ),
        spec_windows_after(client, message, windows) =~= windows,
{
    let h = message.window_handle->Some_0;
    if let Some(i) = spec_find_window(windows, h) {
        crate::window::lemma_find_window(windows, h);
        assert(spec_windows_after(client, message, windows) =~= windows);
    }
}

/// Resize translation over a whole dispatch: the first notification updates
/// the cache and is emitted exactly when the carried size differs from it;
/// feeding the identical notification again emits nothing.
pub proof fn law_resize_dispatch_idempotent(
    client: ShellClient,
    message: ShellMessage,
    windows: Seq<Window>,
)
    requires
        !message.is_global,
        spec_resize_size(message.body) is Some,
        message.window_handle matches Some(h) && spec_find_window(windows, h) is Some,
    ensures
        ({
            let h = message.window_handle->Some_0;
            let i = spec_find_window(windows, h)->Some_0;
            let new_size = spec_resize_size(message.body)->Some_0;
            let after = spec_windows_after(client, message, windows);
            &&& after[i].size == new_size
            &&& spec_dispatch_event(client, message, windows) == (if new_size
                != windows[i].size {
                Some(Event::WindowEvent(WindowEvent::Resize { new_size }))
            } else {
                None
            })
            &&& spec_dispatch_event(client, message, after) is None
        }),
{
    let h = message.window_handle->Some_0;
    let i = spec_find_window(windows, h)->Some_0;
    crate::window::lemma_find_window(windows, h);
    let replacement = crate::routing::spec_window_after(client, message.body, windows[i]);
    crate::window::lemma_find_window_update(windows, i, replacement, h);
}

/// A ping keepalive never appears as an event: its dispatch emits nothing,
/// changes no window state, and instead obliges the caller to echo the
/// message whenever it addressed a live window.
pub proof fn law_ping_never_surfaces(
    client: ShellClient,
    message: ShellMessage,
    windows: Seq<Window>,
)
    requires
        client.spec_valid(),
        message.body matches MessageBody::ClientMessage {
            data: ClientMessageData::Data32(d),
            ..
        } && d@[0] == client.atoms.ping_keepalive,
    ensures
        spec_dispatch_event(client, message, windows) is None,
        spec_windows_after(client, message, windows) =~= windows,
        spec_echo_ping(client, message, windows) == (!message.is_global
            && match message.window_handle {
            Some(h) => spec_find_window(windows, h) is Some,
            None => false,
        }),
{
    let entries = client.atoms.spec_entries();
    assert(entries[1] != entries[2]);
    assert(spec_ping(client, message.body));
    if !message.is_global {
        if let Some(h) = message.window_handle {
            if let Some(i) = spec_find_window(windows, h) {
                crate::window::lemma_find_window(windows, h);
                assert(spec_windows_after(client, message, windows) =~= windows);
            }
        }
    }
}

/// Destroying a window tears each live driver down exactly once, in
/// subsystem order, before the native window resource is destroyed, and
/// destroys the window exactly once.
pub proof fn law_drop_window_teardown(client: ShellClient, window: Window)
    ensures
        ({
            let commands = spec_drop_window_commands(client, window);
            let n = commands.len() as int;
            &&& n == 1 + (if window.sys_redraw is Some {
                2int
            } else {
                0int
            }) + (if window.text_input is Some {
                1int
            } else {
                0int
            })
            &&& commands[n - 1] == NativeCommand::DestroyWindow { window: window.handle }
            &&& forall|i: int|
                0 <= i < n ==> ((commands[i] is DestroySyncCounter) <==> (window.sys_redraw
                    is Some && i == 0))
            &&& forall|i: int|
                0 <= i < n ==> ((commands[i] is CloseInputContext) <==> (window.text_input
                    is Some && i == n - 2))
            &&& forall|i: int| 0 <= i < n - 1 ==> !(commands[i] is DestroyWindow)
            &&& window.sys_redraw matches Some(driver) ==> commands[0]
                == NativeCommand::DestroySyncCounter { counter: driver.sync_counter }
        }),
{
}

/// The synthetic wakeup message classifies as global without requiring any
/// user window to exist, and carries no payload semantics: it is not a
/// user-defined event and translates to no event at all.
pub proof fn law_wakeup_classified_global(client: ShellClient, body: MessageBody)
    requires
        client.spec_valid(),
        spec_is_wakeup_body(client, body),
    ensures
        spec_message_is_global(client, body),
        spec_global_event(client, body) is None,
        forall|message: ShellMessage, windows: Seq<Window>|
            message.body == body && message.is_global ==> #[trigger] spec_dispatch_event(
                client,
                message,
                windows,
            ) is None,
{
    let entries = client.atoms.spec_entries();
    assert(entries[7] != 0);
}

} // verus!
