use fejixwm::{
    AtomRole, AtomTable, Error, ListenStep, ListeningBehavior, ListeningSettings, NullCanvas,
    OpenglProfile, OpenglVersion, PixelFormat, PixelSize, ShellClient, ShellClientInfo,
    ShellSubsystem, WindowInfo, next_listen_step, size_of_pixel, subsystems_contain,
    translate_class_name, window_handle_to_id,
};

fn atoms() -> AtomTable {
    AtomTable {
        protocol_list: 1,
        close_request: 2,
        ping_keepalive: 3,
        window_name: 4,
        name_encoding: 5,
        sync_request: 6,
        sync_counter_property: 7,
        user_message: 8,
    }
}

#[test]
fn class_name_is_the_two_copy_nul_separated_encoding() {
    let encoded = translate_class_name("dev.fejix.app").unwrap();
    assert_eq!(encoded, "dev.fejix.app\0dev.fejix.app\0");
}

#[test]
fn non_ascii_identifier_is_rejected() {
    assert_eq!(translate_class_name("Привіт"), Err(Error::InvalidArgument));
    let info = ShellClientInfo { id: "Привіт", subsystems: &[] };
    assert!(matches!(
        ShellClient::new(&info, atoms(), 100, 101, false),
        Err(Error::InvalidArgument)
    ));
}

#[test]
fn client_records_the_handshake_values() {
    let subsystems = ShellSubsystem::all();
    let info = ShellClientInfo { id: "a", subsystems: subsystems.as_slice() };
    let client = ShellClient::new(&info, atoms(), 100, 101, true).unwrap();
    assert_eq!(client.class_name, "a\0a\0");
    assert_eq!(client.root_window, 100);
    assert_eq!(client.fake_window_handle, 101);
    assert!(client.text_input_available);
    assert!(ShellClient::wants_text_input(&info));
}

#[test]
fn atom_roles_intern_under_their_wire_names() {
    let expected = [
        (AtomRole::ProtocolList, "WM_PROTOCOLS"),
        (AtomRole::CloseRequest, "WM_DELETE_WINDOW"),
        (AtomRole::PingKeepalive, "_NET_WM_PING"),
        (AtomRole::WindowName, "_NET_WM_NAME"),
        (AtomRole::NameEncoding, "UTF8_STRING"),
        (AtomRole::SyncRequest, "_NET_WM_SYNC_REQUEST"),
        (AtomRole::SyncCounterProperty, "_NET_WM_SYNC_REQUEST_COUNTER"),
        (AtomRole::UserMessage, "FEJIXWM_USER_EVENT"),
    ];
    let all = AtomRole::all();
    assert_eq!(all.len(), expected.len());
    for (i, (role, name)) in expected.iter().enumerate() {
        assert_eq!(all[i], *role);
        assert_eq!(role.name(), *name);
    }
}

#[test]
fn atom_table_rejects_what_no_shell_can_return() {
    assert!(AtomTable::new(&vec![1, 2, 3]).is_err());
    assert!(AtomTable::new(&vec![1, 2, 3, 4, 5, 6, 7, 0]).is_err());
    assert!(AtomTable::new(&vec![1, 2, 3, 4, 5, 6, 7, 3]).is_err());
    let table = AtomTable::new(&vec![1, 2, 3, 4, 5, 6, 7, 8]).unwrap();
    assert_eq!(table, atoms());
}

#[test]
fn protocol_lists_follow_the_sync_driver() {
    let info = ShellClientInfo { id: "a", subsystems: &[ShellSubsystem::SysRedraw] };
    let client = ShellClient::new(&info, atoms(), 100, 101, false).unwrap();
    assert_eq!(client.get_default_wm_protocols(), vec![2, 3]);
    let (mut window, protocols) = client.new_window(
        55,
        &WindowInfo { size: PixelSize::new(10, 10) },
    );
    assert_eq!(protocols, vec![2, 3], "a fresh window opts into the default pair");
    client.complete_enable_sys_redraw(&mut window, 9);
    assert_eq!(client.get_window_protocols_list(&window), vec![2, 3, 6]);
    client.complete_disable_sys_redraw(&mut window);
    assert_eq!(client.get_window_protocols_list(&window), vec![2, 3]);
}

#[test]
fn new_window_caches_the_requested_size() {
    let info = ShellClientInfo { id: "a", subsystems: &[] };
    let client = ShellClient::new(&info, atoms(), 100, 101, false).unwrap();
    let (window, _) = client.new_window(55, &WindowInfo { size: PixelSize::new(800, 600) });
    assert_eq!(window.get_size(), PixelSize::new(800, 600));
    assert_eq!(window.get_id(), 55);
    assert!(window.text_input.is_none());
    assert!(window.sys_redraw.is_none());
    assert_eq!(window_handle_to_id(55), 55);
}

#[test]
fn null_canvas_creates_and_drops_like_the_registry() {
    let info = ShellClientInfo { id: "a", subsystems: &[] };
    let client = ShellClient::new(&info, atoms(), 100, 101, false).unwrap();
    let (window, canvas, protocols) = NullCanvas::new(
        &client,
        55,
        &WindowInfo { size: PixelSize::new(800, 600) },
    );
    assert_eq!(protocols, vec![2, 3]);
    assert_eq!(window.get_size(), PixelSize::new(800, 600));
    let commands = canvas.drop(&client, window);
    assert_eq!(commands.len(), 1);
}

#[test]
fn listening_defaults_to_a_non_blocking_poll() {
    let settings = ListeningSettings::default();
    assert_eq!(settings.behavior, ListeningBehavior::Peek);
    assert!(!settings.should_stop);
    assert_eq!(next_listen_step(&settings), ListenStep::Poll);
    let waiting = ListeningSettings { behavior: ListeningBehavior::Await, should_stop: false };
    assert_eq!(next_listen_step(&waiting), ListenStep::Wait);
    let stopped = ListeningSettings { behavior: ListeningBehavior::Await, should_stop: true };
    assert_eq!(next_listen_step(&stopped), ListenStep::Stop);
}

#[test]
fn every_subsystem_is_listed_once() {
    let all = ShellSubsystem::all();
    assert_eq!(
        all,
        vec![
            ShellSubsystem::KeyboardInput,
            ShellSubsystem::MouseInput,
            ShellSubsystem::SysRedraw,
            ShellSubsystem::TextInput,
        ]
    );
    assert!(subsystems_contain(&all, ShellSubsystem::TextInput));
    assert!(!subsystems_contain(&[], ShellSubsystem::TextInput));
}

#[test]
fn error_descriptions_name_each_failure_class() {
    assert_eq!(Error::PlatformApiFailed("x").describe(), "platform API failed");
    assert_eq!(Error::PlatformApiFailed("x").context(), Some("x"));
    assert_eq!(Error::InternalFailure.describe(), "internal logic failed");
    assert_eq!(Error::InvalidArgument.describe(), "invalid argument");
    assert_eq!(
        Error::SubsystemNotAvailable.describe(),
        "the subsystem is not available"
    );
    assert_eq!(Error::SubsystemForced.describe(), "the subsystem state is forced");
    assert_eq!(Error::FeatureNotCompiled.describe(), "feature was not compiled");
    assert_eq!(Error::InternalFailure.context(), None);
}

#[test]
fn packed_formats_take_three_bytes_others_four() {
    assert_eq!(size_of_pixel(PixelFormat::Rgb888), 3);
    assert_eq!(size_of_pixel(PixelFormat::Bgr888), 3);
    assert_eq!(PixelFormat::Rgbx8888.size_of_pixel(), 4);
    assert_eq!(PixelFormat::Argb8888.size_of_pixel(), 4);
    assert_eq!(PixelFormat::Abgr8888.size_of_pixel(), 4);
}

#[test]
fn opengl_version_records_its_fields() {
    let version = OpenglVersion::new(4, 6, OpenglProfile::Core);
    assert_eq!(version.major_version, 4);
    assert_eq!(version.minor_version, 6);
    assert_eq!(version.profile, OpenglProfile::Core);
}

#[test]
fn lookup_by_id_misses_with_invalid_argument() {
    let info = ShellClientInfo { id: "a", subsystems: &[] };
    let client = ShellClient::new(&info, atoms(), 100, 101, false).unwrap();
    let (window, _) = client.new_window(55, &WindowInfo { size: PixelSize::new(1, 1) });
    let windows = vec![window];
    assert_eq!(fejixwm::lookup_window(&windows, 55), Ok(0));
    assert_eq!(fejixwm::lookup_window(&windows, 56), Err(Error::InvalidArgument));
    assert_eq!(
        fejixwm::lookup_window(&windows, usize::MAX),
        Err(Error::InvalidArgument)
    );
}
