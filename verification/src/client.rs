use vstd::prelude::*;

use crate::commands::NativeCommand;
use crate::errors::Error;
use crate::messages::{ClientMessageData, MessageBody, ShellMessage};
use crate::protocol::AtomTable;
use crate::sync_counter::SysRedrawSubsystem;
use crate::text_input::TextInputSubsystem;
use crate::types::{AtomId, ShellClientInfo, ShellSubsystem, WindowHandle, WindowInfo,
    subsystems_contain};
use crate::window::Window;

verus! {

/// The two-copy, NUL-separated class-name encoding `"{id}\0{id}\0"`.
pub open spec fn spec_class_name(id: Seq<char>) -> Seq<char> {
    id + seq!['\0'] + id + seq!['\0']
}

/// Encodes the program identifier as the class-name property value: the
/// instance-name/class-name pair `"{id}\0{id}\0"`. A non-ASCII identifier is
/// rejected.
pub fn translate_class_name(class_name: &str) -> (r: Result<String, Error>)
    ensures
        match r {
            Ok(s) => vstd::string::is_ascii(class_name) && s@ == spec_class_name(class_name@),
            Err(e) => e == Error::InvalidArgument && !vstd::string::is_ascii(class_name),
        },
{
    if !class_name.is_ascii() {
        return Err(Error::InvalidArgument);
    }
    proof {
        reveal_strlit("\u{0}");
        assert("\u{0}"@ =~= seq!['\0']);
    }
    let mut result = String::new();
    result.append(class_name);
    result.append("\u{0}");
    result.append(class_name);
    result.append("\u{0}");
    proof {
        assert(result@ =~= spec_class_name(class_name@));
    }
    Ok(result)
}

/// One connection to the shell: the interned protocol table, the chosen
/// screen's root window, the hidden window used as the endpoint of global
/// and synthetic messages, and the state of the global subsystems.
#[derive(Clone, Debug)]
pub struct ShellClient {
    /// The class-name property value, `"{id}\0{id}\0"`.
    pub class_name: String,
    /// The interned protocol identifiers of this connection.
    pub atoms: AtomTable,
    /// The root window of the chosen screen; the target of ping echoes.
    pub root_window: WindowHandle,
    /// The hidden window addressed by global and synthetic messages.
    pub fake_window_handle: WindowHandle,
    /// Whether the global input method was opened at construction; without
    /// it, text input is unavailable for every window, permanently.
    pub text_input_available: bool,
}

/// True when the subsystem is globally supported by this connection.
pub open spec fn spec_subsystem_available(client: ShellClient, subsystem: ShellSubsystem) -> bool {
    match subsystem {
        ShellSubsystem::TextInput => client.text_input_available,
        _ => true,
    }
}

/// True when a driver instance for the subsystem is present on the window;
/// the forced input subsystems count as always enabled.
pub open spec fn spec_subsystem_enabled(window: Window, subsystem: ShellSubsystem) -> bool {
    match subsystem {
        ShellSubsystem::TextInput => window.text_input.is_some(),
        ShellSubsystem::SysRedraw => window.sys_redraw.is_some(),
        _ => true,
    }
}

/// The check-then-act gate of every subsystem toggle: a no-op success when
/// the target state already holds, otherwise unavailability and forcing are
/// checked in that order.
pub open spec fn spec_toggle_check(
    client: ShellClient,
    window: Window,
    subsystem: ShellSubsystem,
    state_enabled: bool,
) -> Result<bool, Error> {
    if spec_subsystem_enabled(window, subsystem) == state_enabled {
        Ok(false)
    } else if !spec_subsystem_available(client, subsystem) {
        Err(Error::SubsystemNotAvailable)
    } else if subsystem.spec_forced() {
        Err(Error::SubsystemForced)
    } else {
        Ok(true)
    }
}

/// The native work a permitted toggle requires before the state may flip.
pub open spec fn spec_toggle_command(
    window: Window,
    subsystem: ShellSubsystem,
    state_enabled: bool,
) -> NativeCommand {
    match subsystem {
        ShellSubsystem::SysRedraw => if state_enabled {
            NativeCommand::CreateSyncCounter
        } else {
            NativeCommand::DestroySyncCounter {
                counter: window.sys_redraw->Some_0.sync_counter,
            }
        },
        ShellSubsystem::TextInput => if state_enabled {
            NativeCommand::OpenInputContext { window: window.handle }
        } else {
            NativeCommand::CloseInputContext { window: window.handle }
        },
        // Unreachable: the input subsystems are forced and never pass the
        // toggle gate.
        _ => NativeCommand::CreateSyncCounter,
    }
}

/// The full decision of one toggle request: nothing to do, native work to
/// perform, or a precondition failure.
pub open spec fn spec_toggle_plan(
    client: ShellClient,
    window: Window,
    subsystem: ShellSubsystem,
    state_enabled: bool,
) -> Result<Option<NativeCommand>, Error> {
    match spec_toggle_check(client, window, subsystem, state_enabled) {
        Ok(false) => Ok(None),
        Ok(true) => Ok(Some(spec_toggle_command(window, subsystem, state_enabled))),
        Err(e) => Err(e),
    }
}

/// The protocols every window opts into.
pub open spec fn spec_default_protocols(client: ShellClient) -> Seq<AtomId> {
    seq![client.atoms.close_request, client.atoms.ping_keepalive]
}

/// The protocols the window currently opts into: the default pair, plus the
/// sync-request protocol exactly while synchronized redraw is enabled.
pub open spec fn spec_window_protocols(client: ShellClient, window: Window) -> Seq<AtomId> {
    if window.sys_redraw.is_some() {
        spec_default_protocols(client).push(client.atoms.sync_request)
    } else {
        spec_default_protocols(client)
    }
}

/// The teardown sequence of one window: one teardown per live driver, in
/// subsystem order, then the native window resource.
pub open spec fn spec_drop_window_commands(client: ShellClient, window: Window) -> Seq<
    NativeCommand,
> {
    (if window.sys_redraw is Some {
        seq![
            NativeCommand::DestroySyncCounter {
                counter: window.sys_redraw->Some_0.sync_counter,
            },
            NativeCommand::ResetWindowProtocols { window: window.handle },
        ]
    } else {
        Seq::empty()
    }) + (if window.text_input is Some {
        seq![NativeCommand::CloseInputContext { window: window.handle }]
    } else {
        Seq::empty()
    }) + seq![NativeCommand::DestroyWindow { window: window.handle }]
}

/// The teardown sequence of the client itself: global resources first, then
/// the hidden window.
pub open spec fn spec_destroy_commands(client: ShellClient) -> Seq<NativeCommand> {
    (if client.text_input_available {
        seq![NativeCommand::CloseInputMethod]
    } else {
        Seq::empty()
    }) + seq![NativeCommand::DestroyWindow { window: client.fake_window_handle }]
}

/// The synthetic wakeup payload: a client message addressed to the hidden
/// window with twenty zero bytes and no particular message type.
pub open spec fn spec_is_wakeup_body(client: ShellClient, body: MessageBody) -> bool {
    match body {
        MessageBody::ClientMessage {
            window,
            message_type,
            data: ClientMessageData::Data8(payload),
        } => window == client.fake_window_handle && message_type == 0 && payload@ =~= Seq::new(
            20,
            |i: int| 0u8,
        ),
        _ => false,
    }
}

/// True when the message is not about any caller-created window: it carries
/// no window-identifying field, or that field names the hidden window.
pub open spec fn spec_message_is_global(client: ShellClient, body: MessageBody) -> bool {
    match body.spec_window_handle() {
        None => true,
        Some(h) => h == client.fake_window_handle,
    }
}

impl ShellClient {
    /// A table the shell can actually intern: distinct names map to
    /// distinct, nonzero identifiers.
    pub open spec fn spec_valid(self) -> bool {
        self.atoms.spec_valid()
    }

    /// Assembles the client from the values the wire handshake produced.
    ///
    /// A non-ASCII identifier is rejected with `InvalidArgument`. Text input
    /// is available exactly when the caller declared it and the global input
    /// method was opened.
    pub fn new(
        info: &ShellClientInfo,
        atoms: AtomTable,
        root_window: WindowHandle,
        fake_window_handle: WindowHandle,
        input_method_opened: bool,
    ) -> (r: Result<ShellClient, Error>)
        ensures
            match r {
                Ok(c) => {
                    &&& vstd::string::is_ascii(info.id)
                    &&& c.class_name@ == spec_class_name(info.id@)
                    &&& c.atoms == atoms
                    &&& c.root_window == root_window
                    &&& c.fake_window_handle == fake_window_handle
                    &&& c.text_input_available == (info.subsystems@.contains(
                        ShellSubsystem::TextInput,
                    ) && input_method_opened)
                },
                Err(e) => e == Error::InvalidArgument && !vstd::string::is_ascii(info.id),
            },
    {
        let class_name = match translate_class_name(info.id) {
            Ok(s) => s,
            Err(e) => {
                return Err(e);
            },
        };
        let wants_text_input = subsystems_contain(info.subsystems, ShellSubsystem::TextInput);
        Ok(
            ShellClient {
                class_name,
                atoms,
                root_window,
                fake_window_handle,
                text_input_available: wants_text_input && input_method_opened,
            },
        )
    }

    /// True when the caller declared the text-input subsystem, so that the
    /// global input method must be opened before assembling the client.
    pub fn wants_text_input(info: &ShellClientInfo) -> (r: bool)
        ensures
            r == info.subsystems@.contains(ShellSubsystem::TextInput),
    {
        subsystems_contain(info.subsystems, ShellSubsystem::TextInput)
    }

    /// True when the subsystem is globally supported by this connection.
    pub fn is_subsystem_available(&self, subsystem: ShellSubsystem) -> (r: bool)
        ensures
            r == spec_subsystem_available(*self, subsystem),
    {
        match subsystem {
            ShellSubsystem::TextInput => self.text_input_available,
            _ => true,
        }
    }

    /// True when the subsystem is enabled for the window.
    pub fn is_subsystem_enabled(&self, window: &Window, subsystem: ShellSubsystem) -> (r: bool)
        ensures
            r == spec_subsystem_enabled(*window, subsystem),
    {
        match subsystem {
            ShellSubsystem::TextInput => window.text_input.is_some(),
            ShellSubsystem::SysRedraw => window.sys_redraw.is_some(),
            _ => true,
        }
    }

    /// True when the subsystem's state is forced and cannot be changed.
    pub fn is_subsystem_forced(&self, window: &Window, subsystem: ShellSubsystem) -> (r: bool)
        ensures
            r == subsystem.spec_forced(),
    {
        match subsystem {
            ShellSubsystem::KeyboardInput | ShellSubsystem::MouseInput => true,
            _ => false,
        }
    }

    /// The toggle gate: `Ok(false)` when the state is already set and there
    /// is nothing to do, `Ok(true)` when the toggle may proceed.
    pub fn can_set_subsystem_state(
        &self,
        window: &Window,
        subsystem: ShellSubsystem,
        state_enabled: bool,
    ) -> (r: Result<bool, Error>)
        ensures
            r == spec_toggle_check(*self, *window, subsystem, state_enabled),
    {
        if self.is_subsystem_enabled(window, subsystem) == state_enabled {
            return Ok(false);
        }
        if !self.is_subsystem_available(subsystem) {
            return Err(Error::SubsystemNotAvailable);
        }
        if self.is_subsystem_forced(window, subsystem) {
            return Err(Error::SubsystemForced);
        }
        Ok(true)
    }

    /// Decides one toggle request: `Ok(None)` is a no-op success, `Ok(Some)`
    /// names the native work to perform before completing the toggle, and an
    /// error leaves every state unchanged.
    pub fn plan_subsystem_toggle(
        &self,
        window: &Window,
        subsystem: ShellSubsystem,
        state_enabled: bool,
    ) -> (r: Result<Option<NativeCommand>, Error>)
        ensures
            r == spec_toggle_plan(*self, *window, subsystem, state_enabled),
    {
        match self.can_set_subsystem_state(window, subsystem, state_enabled) {
            Ok(false) => Ok(None),
            Err(e) => Err(e),
            Ok(true) => {
                let command = match subsystem {
                    ShellSubsystem::SysRedraw => if state_enabled {
                        NativeCommand::CreateSyncCounter
                    } else {
                        match &window.sys_redraw {
                            Some(driver) => NativeCommand::DestroySyncCounter {
                                counter: driver.sync_counter,
                            },
                            None => NativeCommand::CreateSyncCounter,  // unreachable: disable implies present
                        }
                    },
                    ShellSubsystem::TextInput => if state_enabled {
                        NativeCommand::OpenInputContext { window: window.handle }
                    } else {
                        NativeCommand::CloseInputContext { window: window.handle }
                    },
                    // Unreachable: the input subsystems are forced.
                    _ => NativeCommand::CreateSyncCounter,
                };
                Ok(Some(command))
            },
        }
    }

    /// Flips synchronized redraw on after the native counter was created:
    /// records the driver at value zero and hands back the protocol list to
    /// register, which now includes the sync-request protocol.
    pub fn complete_enable_sys_redraw(&self, window: &mut Window, counter: u32) -> (protocols:
        Vec<AtomId>)
        requires
            old(window).sys_redraw.is_none(),
        ensures
            final(window).sys_redraw == Some(SysRedrawSubsystem::spec_new(counter)),
            final(window).handle == old(window).handle,
            final(window).size == old(window).size,
            final(window).text_input == old(window).text_input,
            protocols@ == spec_window_protocols(*self, *final(window)),
    {
        window.sys_redraw = Some(SysRedrawSubsystem::new(counter));
        self.get_window_protocols_list(window)
    }

    /// Flips synchronized redraw off after the native counter was destroyed:
    /// removes the driver and hands back the protocol list to register,
    /// which no longer includes the sync-request protocol.
    pub fn complete_disable_sys_redraw(&self, window: &mut Window) -> (protocols: Vec<AtomId>)
        requires
            old(window).sys_redraw.is_some(),
        ensures
            final(window).sys_redraw.is_none(),
            final(window).handle == old(window).handle,
            final(window).size == old(window).size,
            final(window).text_input == old(window).text_input,
            protocols@ == spec_window_protocols(*self, *final(window)),
    {
        window.sys_redraw = None;
        self.get_window_protocols_list(window)
    }

    /// Flips text input on after the native context was opened: records a
    /// driver with a reset accumulation state.
    pub fn complete_enable_text_input(&self, window: &mut Window)
        requires
            old(window).text_input.is_none(),
            spec_subsystem_available(*self, ShellSubsystem::TextInput),
        ensures
            final(window).text_input matches Some(d) && d.input@ == Seq::<u8>::empty()
                && d.input_finished == false,
            final(window).handle == old(window).handle,
            final(window).size == old(window).size,
            final(window).sys_redraw == old(window).sys_redraw,
    {
        window.text_input = Some(TextInputSubsystem::new());
    }

    /// Flips text input off after the native context was closed: removes the
    /// driver.
    pub fn complete_disable_text_input(&self, window: &mut Window)
        requires
            old(window).text_input.is_some(),
        ensures
            final(window).text_input.is_none(),
            final(window).handle == old(window).handle,
            final(window).size == old(window).size,
            final(window).sys_redraw == old(window).sys_redraw,
    {
        window.text_input = None;
    }

    /// The protocols every window opts into: close request and ping.
    pub fn get_default_wm_protocols(&self) -> (r: Vec<AtomId>)
        ensures
            r@ == spec_default_protocols(*self),
    {
        let r = vec![self.atoms.close_request, self.atoms.ping_keepalive];
        proof {
            assert(r@ =~= spec_default_protocols(*self));
        }
        r
    }

    /// The protocols the window currently opts into.
    pub fn get_window_protocols_list(&self, window: &Window) -> (r: Vec<AtomId>)
        ensures
            r@ == spec_window_protocols(*self, *window),
    {
        let mut protocols = self.get_default_wm_protocols();
        if window.sys_redraw.is_some() {
            protocols.push(self.atoms.sync_request);
        }
        protocols
    }

    /// Builds the window record for a freshly created native resource and
    /// caches the requested size. The caller registers the class name and
    /// the default protocol list it hands back.
    pub fn new_window(&self, handle: WindowHandle, info: &WindowInfo) -> (r: (
        Window,
        Vec<AtomId>,
    ))
        ensures
            r.0.handle == handle,
            r.0.size == info.size,
            r.0.text_input.is_none(),
            r.0.sys_redraw.is_none(),
            r.1@ == spec_window_protocols(*self, r.0),
    {
        let window = Window::new(handle, info);
        let protocols = self.get_window_protocols_list(&window);
        (window, protocols)
    }

    /// Plans the irreversible destruction of a window: every live driver is
    /// torn down exactly once, in subsystem order, before the native window
    /// resource is destroyed.
    pub fn drop_window(&self, window: Window) -> (r: Vec<NativeCommand>)
        ensures
            r@ == spec_drop_window_commands(*self, window),
    {
        let mut commands: Vec<NativeCommand> = Vec::new();
        match &window.sys_redraw {
            Some(driver) => {
                commands.push(NativeCommand::DestroySyncCounter { counter: driver.sync_counter });
                commands.push(NativeCommand::ResetWindowProtocols { window: window.handle });
            },
            None => {},
        }
        if window.text_input.is_some() {
            commands.push(NativeCommand::CloseInputContext { window: window.handle });
        }
        commands.push(NativeCommand::DestroyWindow { window: window.handle });
        proof {
            assert(commands@ =~= spec_drop_window_commands(*self, window));
        }
        commands
    }

    /// Plans the teardown of the client itself: global resources are
    /// released first, then the hidden window. The sequence must run exactly
    /// once.
    pub fn destroy(&self) -> (r: Vec<NativeCommand>)
        ensures
            r@ == spec_destroy_commands(*self),
    {
        let mut commands: Vec<NativeCommand> = Vec::new();
        if self.text_input_available {
            commands.push(NativeCommand::CloseInputMethod);
        }
        commands.push(NativeCommand::DestroyWindow { window: self.fake_window_handle });
        proof {
            assert(commands@ =~= spec_destroy_commands(*self));
        }
        commands
    }

    /// The synthetic message that unblocks a waiting receive loop: addressed
    /// to the hidden window, it classifies as global and carries no payload
    /// semantics.
    pub fn wakeup_message(&self) -> (r: MessageBody)
        ensures
            spec_is_wakeup_body(*self, r),
            spec_message_is_global(*self, r),
    {
        let payload = [0u8; 20];
        proof {
            assert(payload@ =~= Seq::new(20, |i: int| 0u8));
        }
        MessageBody::ClientMessage {
            window: self.fake_window_handle,
            message_type: 0,
            data: ClientMessageData::Data8(payload),
        }
    }

    /// Wraps one wire message with its global/window classification.
    pub fn make_shell_message(&self, body: MessageBody) -> (r: ShellMessage)
        ensures
            r.body == body,
            r.window_handle == body.spec_window_handle(),
            r.is_global == spec_message_is_global(*self, body),
    {
        let window_handle = body.window_handle();
        let is_global = match window_handle {
            Some(handle) => handle == self.fake_window_handle,
            None => true,
        };
        ShellMessage { body, is_global, window_handle }
    }
}

} // verus!
