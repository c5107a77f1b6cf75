use imgui_overlay::channel::{
    new_filtered_channel, new_input_channel, new_window_channel, read_filtered_events,
    read_input_events, read_window_events, register_filtered_reader, register_input_reader,
    register_window_reader, write_filtered_events, write_input_event, write_window_event,
};
use imgui_overlay::events::{FilteredInputEvent, InputEvent, WindowEvent};

#[test]
fn second_drain_with_no_new_events_is_empty() {
    let mut channel = new_input_channel();
    let mut reader = register_input_reader(&mut channel);

    write_input_event(&mut channel, InputEvent::Other(1));
    write_input_event(&mut channel, InputEvent::Other(2));

    let first = read_input_events(&channel, &mut reader);
    assert_eq!(first, vec![InputEvent::Other(1), InputEvent::Other(2)]);

    let second = read_input_events(&channel, &mut reader);
    assert!(second.is_empty());
}

#[test]
fn consecutive_drains_never_double_emit() {
    let mut channel = new_input_channel();
    let mut reader = register_input_reader(&mut channel);

    // Tick 1.
    write_input_event(&mut channel, InputEvent::KeyPressed { key_code: 1 });
    write_input_event(&mut channel, InputEvent::KeyPressed { key_code: 2 });
    let tick1 = read_input_events(&channel, &mut reader);
    assert_eq!(tick1.len(), 2);

    // Tick 2: only the event appended after tick 1's drain comes out.
    write_input_event(&mut channel, InputEvent::KeyPressed { key_code: 3 });
    let tick2 = read_input_events(&channel, &mut reader);
    assert_eq!(tick2, vec![InputEvent::KeyPressed { key_code: 3 }]);
}

#[test]
fn reader_starts_at_the_tail() {
    let mut channel = new_input_channel();
    write_input_event(&mut channel, InputEvent::Other(9));

    // Registered after the write: the backlog is not replayed.
    let mut reader = register_input_reader(&mut channel);
    let events = read_input_events(&channel, &mut reader);
    assert!(events.is_empty());
}

#[test]
fn independent_readers_each_see_every_event() {
    let mut channel = new_input_channel();
    let mut first = register_input_reader(&mut channel);
    let mut second = register_input_reader(&mut channel);

    write_input_event(&mut channel, InputEvent::MouseWheelMoved(1));

    assert_eq!(read_input_events(&channel, &mut first).len(), 1);
    assert_eq!(read_input_events(&channel, &mut second).len(), 1);
}

#[test]
fn filtered_channel_appends_in_order() {
    let mut channel = new_filtered_channel();
    let mut reader = register_filtered_reader(&mut channel);

    write_filtered_events(
        &mut channel,
        vec![
            FilteredInputEvent(InputEvent::Other(1)),
            FilteredInputEvent(InputEvent::Other(2)),
        ],
    );
    write_filtered_events(&mut channel, vec![FilteredInputEvent(InputEvent::Other(3))]);

    let events = read_filtered_events(&channel, &mut reader);
    assert_eq!(
        events,
        vec![
            FilteredInputEvent(InputEvent::Other(1)),
            FilteredInputEvent(InputEvent::Other(2)),
            FilteredInputEvent(InputEvent::Other(3)),
        ]
    );
    assert!(read_filtered_events(&channel, &mut reader).is_empty());
}

#[test]
fn window_channel_cursor_advances() {
    let mut channel = new_window_channel();
    let mut reader = register_window_reader(&mut channel);

    write_window_event(&mut channel, WindowEvent { code: 11 });
    let events = read_window_events(&channel, &mut reader);
    assert_eq!(events, vec![WindowEvent { code: 11 }]);
    assert!(read_window_events(&channel, &mut reader).is_empty());
}
