use fejixwm::{
    AtomTable, ClientMessageData, Event, EventHandler, MessageBody, PixelSize, ShellClient,
    ShellClientInfo, ShellMessageTrait, Window, WindowEvent, WindowInfo,
};

fn make_client() -> ShellClient {
    let info = ShellClientInfo { id: "dev.fejix.fejixwm.devtest", subsystems: &[] };
    let atoms = AtomTable {
        protocol_list: 1,
        close_request: 2,
        ping_keepalive: 3,
        window_name: 4,
        name_encoding: 5,
        sync_request: 6,
        sync_counter_property: 7,
        user_message: 8,
    };
    ShellClient::new(&info, atoms, 100, 101, false).unwrap()
}

fn one_window(client: &ShellClient, handle: u32, width: u32, height: u32) -> Vec<Window> {
    let (window, _protocols) = client.new_window(
        handle,
        &WindowInfo { size: PixelSize::new(width, height) },
    );
    vec![window]
}

struct Recorder {
    events: Vec<(Event, Option<usize>)>,
}

impl EventHandler for Recorder {
    fn handle_event(&mut self, event: Event, window: Option<&Window>) {
        self.events.push((event, window.map(|w| w.get_id())));
    }
}

fn client_message(window: u32, data32_0: u32) -> MessageBody {
    MessageBody::ClientMessage {
        window,
        message_type: 1,
        data: ClientMessageData::Data32([data32_0, 0, 0, 0, 0]),
    }
}

#[test]
fn close_request_emits_close_to_the_window() {
    let client = make_client();
    let mut windows = one_window(&client, 55, 800, 600);
    let mut recorder = Recorder { events: Vec::new() };
    let message = client.make_shell_message(client_message(55, 2));
    assert!(!message.is_global);
    assert_eq!(message.get_window_id(), Some(55));
    let outcome = client.process_message(&message, &mut windows, &mut recorder);
    assert_eq!(outcome.event, Some(Event::WindowEvent(WindowEvent::Close)));
    assert!(!outcome.echo_ping);
    assert_eq!(
        recorder.events,
        vec![(Event::WindowEvent(WindowEvent::Close), Some(55))]
    );
}

#[test]
fn ping_then_close_emits_exactly_one_event() {
    let client = make_client();
    let mut windows = one_window(&client, 55, 800, 600);
    let mut recorder = Recorder { events: Vec::new() };
    let ping = client.make_shell_message(client_message(55, 3));
    let close = client.make_shell_message(client_message(55, 2));
    let outcome = client.process_message(&ping, &mut windows, &mut recorder);
    assert_eq!(outcome.event, None);
    assert!(outcome.echo_ping, "the keep-alive must be echoed");
    let outcome = client.process_message(&close, &mut windows, &mut recorder);
    assert_eq!(outcome.event, Some(Event::WindowEvent(WindowEvent::Close)));
    assert_eq!(recorder.events.len(), 1, "ping must never reach the handler");
    assert_eq!(
        recorder.events[0],
        (Event::WindowEvent(WindowEvent::Close), Some(55))
    );
}

#[test]
fn identical_resizes_emit_exactly_one_event() {
    let client = make_client();
    let mut windows = one_window(&client, 55, 800, 600);
    let mut recorder = Recorder { events: Vec::new() };
    let resize = client.make_shell_message(MessageBody::ResizeRequest {
        window: 55,
        width: 800,
        height: 600,
    });
    // The cache already holds 800x600: nothing to report.
    let outcome = client.process_message(&resize, &mut windows, &mut recorder);
    assert_eq!(outcome.event, None);
    assert_eq!(recorder.events.len(), 0);

    let mut windows = one_window(&client, 55, 640, 480);
    let outcome = client.process_message(&resize, &mut windows, &mut recorder);
    assert_eq!(
        outcome.event,
        Some(Event::WindowEvent(WindowEvent::Resize {
            new_size: PixelSize::new(800, 600)
        }))
    );
    let outcome = client.process_message(&resize, &mut windows, &mut recorder);
    assert_eq!(outcome.event, None, "an unchanged geometry is a no-op");
    assert_eq!(recorder.events.len(), 1);
}

#[test]
fn resize_sequence_updates_the_cache() {
    let client = make_client();
    let mut windows = one_window(&client, 55, 1, 1);
    let mut recorder = Recorder { events: Vec::new() };
    let first = client.make_shell_message(MessageBody::ResizeRequest {
        window: 55,
        width: 800,
        height: 600,
    });
    let second = client.make_shell_message(MessageBody::ResizeRequest {
        window: 55,
        width: 640,
        height: 480,
    });
    client.process_message(&first, &mut windows, &mut recorder);
    client.process_message(&second, &mut windows, &mut recorder);
    assert_eq!(
        recorder.events,
        vec![
            (
                Event::WindowEvent(WindowEvent::Resize { new_size: PixelSize::new(800, 600) }),
                Some(55)
            ),
            (
                Event::WindowEvent(WindowEvent::Resize { new_size: PixelSize::new(640, 480) }),
                Some(55)
            ),
        ]
    );
    assert_eq!(windows[0].get_size(), PixelSize::new(640, 480));
}

#[test]
fn user_message_on_the_hidden_window_is_a_global_event() {
    let client = make_client();
    let mut windows = Vec::new();
    let mut recorder = Recorder { events: Vec::new() };
    let mut payload = [0u8; 20];
    payload[0] = 123;
    let message = client.make_shell_message(MessageBody::ClientMessage {
        window: 101,
        message_type: 8,
        data: ClientMessageData::Data8(payload),
    });
    assert!(message.is_global());
    assert_eq!(message.get_window_id(), None);
    let outcome = client.process_message(&message, &mut windows, &mut recorder);
    match outcome.event {
        Some(Event::UserEvent(user)) => assert_eq!(user.data[0], 123),
        other => panic!("expected a user event, got {other:?}"),
    }
    assert_eq!(recorder.events.len(), 1);
    assert!(recorder.events[0].1.is_none(), "a global event names no window");
}

#[test]
fn wakeup_classifies_global_without_any_window() {
    let client = make_client();
    let mut windows = Vec::new();
    let mut recorder = Recorder { events: Vec::new() };
    let message = client.make_shell_message(client.wakeup_message());
    assert!(message.is_global());
    assert_eq!(message.get_window_id(), None);
    let outcome = client.process_message(&message, &mut windows, &mut recorder);
    assert_eq!(outcome.event, None, "a wakeup carries no payload semantics");
    assert!(!outcome.echo_ping);
    assert_eq!(recorder.events.len(), 0);
}

#[test]
fn unknown_and_foreign_messages_are_dropped_silently() {
    let client = make_client();
    let mut windows = one_window(&client, 55, 800, 600);
    let mut recorder = Recorder { events: Vec::new() };
    // A message kind this layer does not read.
    let unknown = client.make_shell_message(MessageBody::KeymapNotify);
    assert!(unknown.is_global());
    let outcome = client.process_message(&unknown, &mut windows, &mut recorder);
    assert_eq!(outcome.event, None);
    // A window-scoped message whose window is not in the live list.
    let foreign = client.make_shell_message(client_message(77, 2));
    assert!(!foreign.is_global());
    let outcome = client.process_message(&foreign, &mut windows, &mut recorder);
    assert_eq!(outcome.event, None);
    assert!(!outcome.echo_ping);
    // An unrecognized protocol datum on a live window.
    let other = client.make_shell_message(client_message(55, 9));
    let outcome = client.process_message(&other, &mut windows, &mut recorder);
    assert_eq!(outcome.event, None);
    assert_eq!(recorder.events.len(), 0);
}

#[test]
fn window_handles_are_read_from_the_kind_specific_field() {
    // Input and crossing messages identify their window by the event field.
    assert_eq!(
        MessageBody::ButtonPress { root: 1, event: 2, child: 3 }.window_handle(),
        Some(2)
    );
    assert_eq!(
        MessageBody::KeyRelease { root: 1, event: 2, child: 3 }.window_handle(),
        Some(2)
    );
    assert_eq!(
        MessageBody::ConfigureNotify { event: 4, window: 5 }.window_handle(),
        Some(4)
    );
    // Most notifications identify it by the window field.
    assert_eq!(
        MessageBody::CirculateNotify { event: 4, window: 5 }.window_handle(),
        Some(5)
    );
    assert_eq!(
        MessageBody::DestroyNotify { event: 4, window: 5 }.window_handle(),
        Some(5)
    );
    assert_eq!(MessageBody::Expose { window: 6 }.window_handle(), Some(6));
    assert_eq!(MessageBody::FocusIn { event: 7 }.window_handle(), Some(7));
    // Reports without a window-identifying field have none.
    assert_eq!(MessageBody::GraphicsExposure.window_handle(), None);
    assert_eq!(MessageBody::MappingNotify.window_handle(), None);
    assert_eq!(MessageBody::SelectionNotify.window_handle(), None);
    assert_eq!(MessageBody::Unknown.window_handle(), None);
}

#[test]
fn posted_user_message_round_trips_through_dispatch() {
    let client = make_client();
    let mut windows = Vec::new();
    let mut recorder = Recorder { events: Vec::new() };
    let mut payload = [0u8; 20];
    payload[0] = 123;
    payload[19] = 7;
    let message = client.make_shell_message(client.post_message_body(payload));
    assert!(message.is_global());
    let outcome = client.process_message(&message, &mut windows, &mut recorder);
    assert_eq!(outcome.event, Some(Event::UserEvent(fejixwm::UserEvent { data: payload })));
    assert_eq!(recorder.events.len(), 1);
}
