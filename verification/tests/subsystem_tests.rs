use fejixwm::{
    AtomTable, Error, NativeCommand, PixelSize, ShellClient, ShellClientInfo, ShellSubsystem,
    Window, WindowInfo,
};

fn atoms() -> AtomTable {
    AtomTable {
        protocol_list: 1,
        close_request: 2,
        ping_keepalive: 3,
        window_name: 4,
        name_encoding: 5,
        sync_request: 6,
        sync_counter_property: 7,
        user_message: 8,
    }
}

fn make_client(subsystems: &[ShellSubsystem], input_method_opened: bool) -> ShellClient {
    let info = ShellClientInfo { id: "dev.fejix.fejixwm.devtest", subsystems };
    ShellClient::new(&info, atoms(), 100, 101, input_method_opened).unwrap()
}

fn fresh_window(client: &ShellClient) -> Window {
    let (window, _protocols) = client.new_window(
        55,
        &WindowInfo { size: PixelSize::new(800, 600) },
    );
    window
}

#[test]
fn forced_subsystems_report_forced_and_enabled() {
    let client = make_client(&[], false);
    let window = fresh_window(&client);
    for subsystem in [ShellSubsystem::MouseInput, ShellSubsystem::KeyboardInput] {
        assert!(client.is_subsystem_forced(&window, subsystem));
        assert!(client.is_subsystem_enabled(&window, subsystem));
        assert!(client.is_subsystem_available(subsystem));
    }
    assert!(!client.is_subsystem_forced(&window, ShellSubsystem::SysRedraw));
    assert!(!client.is_subsystem_forced(&window, ShellSubsystem::TextInput));
}

#[test]
fn forced_enable_is_presatisfied_noop() {
    let client = make_client(&[], false);
    let window = fresh_window(&client);
    for subsystem in [ShellSubsystem::MouseInput, ShellSubsystem::KeyboardInput] {
        assert_eq!(client.plan_subsystem_toggle(&window, subsystem, true), Ok(None));
        assert_eq!(
            client.plan_subsystem_toggle(&window, subsystem, false),
            Err(Error::SubsystemForced)
        );
    }
}

#[test]
fn enable_sys_redraw_twice_is_idempotent() {
    let client = make_client(&[ShellSubsystem::SysRedraw], false);
    let mut window = fresh_window(&client);
    assert_eq!(
        client.plan_subsystem_toggle(&window, ShellSubsystem::SysRedraw, true),
        Ok(Some(NativeCommand::CreateSyncCounter))
    );
    let protocols = client.complete_enable_sys_redraw(&mut window, 9);
    assert_eq!(protocols, vec![2, 3, 6]);
    assert!(client.is_subsystem_enabled(&window, ShellSubsystem::SysRedraw));
    // The second enable succeeds with nothing to do: no duplicate driver.
    assert_eq!(
        client.plan_subsystem_toggle(&window, ShellSubsystem::SysRedraw, true),
        Ok(None)
    );
    assert_eq!(window.sys_redraw.as_ref().unwrap().sync_counter, 9);
    assert_eq!(window.sys_redraw.as_ref().unwrap().get_sync_value(), 0);
}

#[test]
fn disable_without_prior_enable_is_noop() {
    let client = make_client(&[ShellSubsystem::SysRedraw, ShellSubsystem::TextInput], true);
    let window = fresh_window(&client);
    assert_eq!(
        client.plan_subsystem_toggle(&window, ShellSubsystem::SysRedraw, false),
        Ok(None)
    );
    assert_eq!(
        client.plan_subsystem_toggle(&window, ShellSubsystem::TextInput, false),
        Ok(None)
    );
}

#[test]
fn disable_sys_redraw_names_the_live_counter() {
    let client = make_client(&[ShellSubsystem::SysRedraw], false);
    let mut window = fresh_window(&client);
    client.complete_enable_sys_redraw(&mut window, 42);
    assert_eq!(
        client.plan_subsystem_toggle(&window, ShellSubsystem::SysRedraw, false),
        Ok(Some(NativeCommand::DestroySyncCounter { counter: 42 }))
    );
    let protocols = client.complete_disable_sys_redraw(&mut window);
    assert_eq!(protocols, vec![2, 3]);
    assert!(window.sys_redraw.is_none());
}

#[test]
fn unavailable_text_input_always_fails() {
    // Declared but the input method did not open: unavailable for every
    // window, permanently.
    let client = make_client(&[ShellSubsystem::TextInput], false);
    let window = fresh_window(&client);
    assert!(!client.is_subsystem_available(ShellSubsystem::TextInput));
    assert_eq!(
        client.plan_subsystem_toggle(&window, ShellSubsystem::TextInput, true),
        Err(Error::SubsystemNotAvailable)
    );
    // Undeclared subsystems are unavailable even if a method was opened.
    let client = make_client(&[], true);
    assert!(!client.is_subsystem_available(ShellSubsystem::TextInput));
    assert_eq!(
        client.plan_subsystem_toggle(&window, ShellSubsystem::TextInput, true),
        Err(Error::SubsystemNotAvailable)
    );
}

#[test]
fn text_input_enable_and_disable() {
    let client = make_client(&[ShellSubsystem::TextInput], true);
    let mut window = fresh_window(&client);
    assert_eq!(
        client.plan_subsystem_toggle(&window, ShellSubsystem::TextInput, true),
        Ok(Some(NativeCommand::OpenInputContext { window: 55 }))
    );
    client.complete_enable_text_input(&mut window);
    let driver = window.text_input.as_ref().unwrap();
    assert!(driver.input.is_empty());
    assert!(!driver.input_finished);
    assert_eq!(
        client.plan_subsystem_toggle(&window, ShellSubsystem::TextInput, true),
        Ok(None)
    );
    assert_eq!(
        client.plan_subsystem_toggle(&window, ShellSubsystem::TextInput, false),
        Ok(Some(NativeCommand::CloseInputContext { window: 55 }))
    );
    client.complete_disable_text_input(&mut window);
    assert!(window.text_input.is_none());
}

#[test]
fn drop_window_tears_down_every_live_driver_then_the_window() {
    let client = make_client(&[ShellSubsystem::SysRedraw, ShellSubsystem::TextInput], true);
    let mut window = fresh_window(&client);
    client.complete_enable_sys_redraw(&mut window, 9);
    client.complete_enable_text_input(&mut window);
    let commands = client.drop_window(window);
    assert_eq!(
        commands,
        vec![
            NativeCommand::DestroySyncCounter { counter: 9 },
            NativeCommand::ResetWindowProtocols { window: 55 },
            NativeCommand::CloseInputContext { window: 55 },
            NativeCommand::DestroyWindow { window: 55 },
        ]
    );
}

#[test]
fn drop_window_without_drivers_destroys_only_the_window() {
    let client = make_client(&[], false);
    let window = fresh_window(&client);
    let commands = client.drop_window(window);
    assert_eq!(commands, vec![NativeCommand::DestroyWindow { window: 55 }]);
}

#[test]
fn client_destroy_releases_global_resources_then_hidden_window() {
    let client = make_client(&[ShellSubsystem::TextInput], true);
    assert_eq!(
        client.destroy(),
        vec![
            NativeCommand::CloseInputMethod,
            NativeCommand::DestroyWindow { window: 101 },
        ]
    );
    let client = make_client(&[], false);
    assert_eq!(
        client.destroy(),
        vec![NativeCommand::DestroyWindow { window: 101 }]
    );
}
