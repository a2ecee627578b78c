use terminal_session::components::CrosstermWindowSettings;
use terminal_session::error_handling::EventError;
use terminal_session::event::{
    poll_events, update_window, CrosstermEvent, EventQueues, KeyCode, KeyEvent, MouseButton,
    MouseEvent, MouseKind, PasteEvent, RawEvent, WindowEvent,
};
use terminal_session::window::{setup_terminal, SetupOutcome};

fn key(c: char) -> CrosstermEvent {
    CrosstermEvent(RawEvent::Key(KeyEvent { code: KeyCode::Char(c), modifiers: 0 }))
}

fn mouse() -> CrosstermEvent {
    CrosstermEvent(RawEvent::Mouse(MouseEvent {
        kind: MouseKind::Down(MouseButton::Left),
        column: 3,
        row: 7,
        modifiers: 0,
    }))
}

#[test]
fn empty_drain_leaves_every_queue_empty() {
    let mut q = EventQueues::new();
    let r = poll_events(&mut q, vec![], None);
    assert!(r.is_ok());
    assert!(q.raw.is_empty());
    assert!(q.window.is_empty());
    assert!(q.key.is_empty());
    assert!(q.mouse.is_empty());
    assert!(q.paste.is_empty());
}

#[test]
fn events_are_demultiplexed_into_their_category() {
    let mut q = EventQueues::new();
    let batch = vec![
        key('a'),
        mouse(),
        CrosstermEvent(RawEvent::FocusGained),
        CrosstermEvent(RawEvent::Resize(100, 30)),
        CrosstermEvent(RawEvent::Paste("hello".to_string())),
        CrosstermEvent(RawEvent::FocusLost),
    ];
    let r = poll_events(&mut q, batch.clone(), None);
    assert!(r.is_ok());
    assert_eq!(q.raw, batch);
    assert_eq!(q.key, vec![KeyEvent { code: KeyCode::Char('a'), modifiers: 0 }]);
    assert_eq!(
        q.mouse,
        vec![MouseEvent { kind: MouseKind::Down(MouseButton::Left), column: 3, row: 7, modifiers: 0 }]
    );
    assert_eq!(
        q.window,
        vec![WindowEvent::FocusGained, WindowEvent::Resize(100, 30), WindowEvent::FocusLost]
    );
    assert_eq!(q.paste, vec![PasteEvent("hello".to_string())]);
}

#[test]
fn a_tick_never_shows_the_previous_ticks_events() {
    let mut q = EventQueues::new();
    poll_events(&mut q, vec![key('a'), key('b')], None).unwrap();
    assert_eq!(q.key.len(), 2);

    // The next tick drains only a mouse event: nothing from the first tick
    // may still be visible.
    poll_events(&mut q, vec![mouse()], None).unwrap();
    assert!(q.key.is_empty());
    assert_eq!(q.raw, vec![mouse()]);
    assert_eq!(q.mouse.len(), 1);

    // A tick with no input at all shows nothing either.
    poll_events(&mut q, vec![], None).unwrap();
    assert!(q.raw.is_empty());
    assert!(q.mouse.is_empty());
}

#[test]
fn a_failed_drain_keeps_the_events_read_before_it() {
    let mut q = EventQueues::new();
    let r = poll_events(&mut q, vec![key('x')], Some(EventError::IoFailure));
    assert_eq!(r, Err(EventError::IoFailure));
    assert_eq!(q.key, vec![KeyEvent { code: KeyCode::Char('x'), modifiers: 0 }]);
    assert_eq!(q.raw.len(), 1);

    let r = poll_events(&mut q, vec![], Some(EventError::SourceUnavailable));
    assert_eq!(r, Err(EventError::SourceUnavailable));
    let r = poll_events(&mut q, vec![], Some(EventError::MalformedEvent));
    assert_eq!(r, Err(EventError::MalformedEvent));
}

#[test]
fn the_last_resize_of_a_tick_wins() {
    let s = CrosstermWindowSettings { title: None, alternate_screen: true, mouse_capture: true };
    let (_, result) = setup_terminal(&s, SetupOutcome::Completed(80, 24));
    let mut w = result.expect("setup succeeded");

    let mut q = EventQueues::new();
    poll_events(
        &mut q,
        vec![
            CrosstermEvent(RawEvent::Resize(80, 24)),
            CrosstermEvent(RawEvent::Resize(100, 30)),
        ],
        None,
    )
    .unwrap();
    update_window(&mut w, &q.window);
    assert_eq!(w.width(), 100);
    assert_eq!(w.height(), 30);
}

#[test]
fn a_tick_without_resizes_keeps_the_window_unchanged() {
    let s = CrosstermWindowSettings {
        title: Some("Demo".to_string()),
        alternate_screen: true,
        mouse_capture: true,
    };
    let (_, result) = setup_terminal(&s, SetupOutcome::Completed(80, 24));
    let mut w = result.expect("setup succeeded");

    let mut q = EventQueues::new();
    poll_events(&mut q, vec![], None).unwrap();
    update_window(&mut w, &q.window);
    assert_eq!(w.width(), 80);
    assert_eq!(w.height(), 24);
    assert_eq!(w.title(), Some(&"Demo".to_string()));
    assert!(w.is_alternate_screen());
    assert!(w.is_mouse_capture());

    update_window(&mut w, &vec![WindowEvent::FocusGained, WindowEvent::FocusLost]);
    assert_eq!(w.width(), 80);
    assert_eq!(w.height(), 24);
}
