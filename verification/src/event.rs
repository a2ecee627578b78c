//! Per-tick event acquisition and translation.
//!
//! Once per tick the caller drains every event the terminal has pending
//! without blocking and hands the drained batch to [`poll_events`], which
//! rebuilds the per-category queues from that batch alone — nothing from an
//! earlier tick survives. [`update_window`] then synchronizes the window
//! record with the last resize seen in the tick.

use vstd::prelude::*;

use crate::components::CrosstermWindow;
use crate::error_handling::EventError;

verus! {

/// A key press as the terminal reports it: which key, plus the modifier
/// bits (shift, control, alt, ...) that were held.
#[derive(Debug, Clone, Copy, PartialEq, Eq, Hash)]
pub struct KeyEvent {
    pub code: KeyCode,
    pub modifiers: u8,
}

/// Which key a key event carries. `Other` stands for any key the session
/// core does not distinguish.
#[derive(Debug, Clone, Copy, PartialEq, Eq, Hash)]
pub enum KeyCode {
    Backspace,
    Enter,
    Left,
    Right,
    Up,
    Down,
    Home,
    End,
    PageUp,
    PageDown,
    Tab,
    BackTab,
    Delete,
    Insert,
    F(u8),
    Char(char),
    Esc,
    Null,
    Other,
}

/// A mouse button.
#[derive(Debug, Clone, Copy, PartialEq, Eq, Hash)]
pub enum MouseButton {
    Left,
    Right,
    Middle,
}

/// What a mouse event reports.
#[derive(Debug, Clone, Copy, PartialEq, Eq, Hash)]
pub enum MouseKind {
    Down(MouseButton),
    Up(MouseButton),
    Drag(MouseButton),
    Moved,
    ScrollDown,
    ScrollUp,
}

/// A mouse event: what happened and at which cell.
#[derive(Debug, Clone, Copy, PartialEq, Eq, Hash)]
pub struct MouseEvent {
    pub kind: MouseKind,
    pub column: u16,
    pub row: u16,
    pub modifiers: u8,
}

/// Window-related events: focus changes and resizes. `Resize(columns, rows)`
/// carries the new dimensions.
#[derive(Debug, Clone, Copy, PartialEq, Eq, Hash)]
pub enum WindowEvent {
    FocusGained,
    FocusLost,
    Resize(u16, u16),
}

/// Text pasted into the terminal, reported as one event when the terminal
/// negotiated bracketed paste.
#[derive(Debug, Clone, PartialEq, Eq, Hash)]
pub struct PasteEvent(pub String);

/// The union of every event kind the terminal's input stream can deliver.
#[derive(Debug, Clone, PartialEq, Eq, Hash)]
pub enum RawEvent {
    Key(KeyEvent),
    Mouse(MouseEvent),
    FocusGained,
    FocusLost,
    Resize(u16, u16),
    Paste(String),
}

/// One event as drained from the terminal, before classification.
#[derive(Debug, Clone, PartialEq, Eq, Hash)]
pub struct CrosstermEvent(pub RawEvent);

/// The per-tick event queues. Every queue is rebuilt from scratch by each
/// acquisition pass; a consumer never sees an event for more than one tick.
#[derive(Debug)]
pub struct EventQueues {
    pub raw: Vec<CrosstermEvent>,
    pub window: Vec<WindowEvent>,
    pub key: Vec<KeyEvent>,
    pub mouse: Vec<MouseEvent>,
    pub paste: Vec<PasteEvent>,
}

impl EventQueues {
    /// Fresh queues, all empty.
    pub fn new() -> (q: EventQueues)
        ensures
            q.raw@ == Seq::<CrosstermEvent>::empty(),
            q.window@ == Seq::<WindowEvent>::empty(),
            q.key@ == Seq::<KeyEvent>::empty(),
            q.mouse@ == Seq::<MouseEvent>::empty(),
            q.paste@ == Seq::<PasteEvent>::empty(),
    {
        EventQueues {
            raw: Vec::new(),
            window: Vec::new(),
            key: Vec::new(),
            mouse: Vec::new(),
            paste: Vec::new(),
        }
    }
}

/// The window event an input event classifies into, if any.
pub open spec fn window_step(e: CrosstermEvent) -> Option<WindowEvent> {
    match e.0 {
        RawEvent::FocusGained => Some(WindowEvent::FocusGained),
        RawEvent::FocusLost => Some(WindowEvent::FocusLost),
        RawEvent::Resize(columns, rows) => Some(WindowEvent::Resize(columns, rows)),
        _ => None,
    }
}

/// The key event an input event classifies into, if any.
pub open spec fn key_step(e: CrosstermEvent) -> Option<KeyEvent> {
    match e.0 {
        RawEvent::Key(k) => Some(k),
        _ => None,
    }
}

/// The mouse event an input event classifies into, if any.
pub open spec fn mouse_step(e: CrosstermEvent) -> Option<MouseEvent> {
    match e.0 {
        RawEvent::Mouse(m) => Some(m),
        _ => None,
    }
}

/// The paste event an input event classifies into, if any.
pub open spec fn paste_step(e: CrosstermEvent) -> Option<PasteEvent> {
    match e.0 {
        RawEvent::Paste(t) => Some(PasteEvent(t)),
        _ => None,
    }
}

/// The window events of a drained batch, in arrival order.
pub open spec fn window_events_of(s: Seq<CrosstermEvent>) -> Seq<WindowEvent>
    decreases s.len(),
{
    if s.len() == 0 {
        Seq::<WindowEvent>::empty()
    } else {
        let prev = window_events_of(s.drop_last());
        match window_step(s.last()) {
            Some(w) => prev.push(w),
            None => prev,
        }
    }
}

/// The key events of a drained batch, in arrival order.
pub open spec fn key_events_of(s: Seq<CrosstermEvent>) -> Seq<KeyEvent>
    decreases s.len(),
{
    if s.len() == 0 {
        Seq::<KeyEvent>::empty()
    } else {
        let prev = key_events_of(s.drop_last());
        match key_step(s.last()) {
            Some(k) => prev.push(k),
            None => prev,
        }
    }
}

/// The mouse events of a drained batch, in arrival order.
pub open spec fn mouse_events_of(s: Seq<CrosstermEvent>) -> Seq<MouseEvent>
    decreases s.len(),
{
    if s.len() == 0 {
        Seq::<MouseEvent>::empty()
    } else {
        let prev = mouse_events_of(s.drop_last());
        match mouse_step(s.last()) {
            Some(m) => prev.push(m),
            None => prev,
        }
    }
}

/// The paste events of a drained batch, in arrival order.
pub open spec fn paste_events_of(s: Seq<CrosstermEvent>) -> Seq<PasteEvent>
    decreases s.len(),
{
    if s.len() == 0 {
        Seq::<PasteEvent>::empty()
    } else {
        let prev = paste_events_of(s.drop_last());
        match paste_step(s.last()) {
            Some(p) => prev.push(p),
            None => prev,
        }
    }
}

proof fn lemma_classified_take_step(s: Seq<CrosstermEvent>, i: int)
    requires
        0 <= i < s.len(),
    ensures
        window_events_of(s.take(i + 1)) == (match window_step(s[i]) {
            Some(w) => window_events_of(s.take(i)).push(w),
            None => window_events_of(s.take(i)),
        }),
        key_events_of(s.take(i + 1)) == (match key_step(s[i]) {
            Some(k) => key_events_of(s.take(i)).push(k),
            None => key_events_of(s.take(i)),
        }),
        mouse_events_of(s.take(i + 1)) == (match mouse_step(s[i]) {
            Some(m) => mouse_events_of(s.take(i)).push(m),
            None => mouse_events_of(s.take(i)),
        }),
        paste_events_of(s.take(i + 1)) == (match paste_step(s[i]) {
            Some(p) => paste_events_of(s.take(i)).push(p),
            None => paste_events_of(s.take(i)),
        }),
{
    assert(s.take(i + 1).drop_last() =~= s.take(i));
    assert(s.take(i + 1).last() == s[i]);
}

/// The acquisition pass for one tick. `events` is everything the caller
/// drained from the terminal this tick, in arrival order, and `failure` is
/// the error that stopped the drain early, if one did. The queues are
/// rebuilt from this batch alone — whatever they held from an earlier tick
/// is gone — and a drain failure still leaves everything read before it
/// queued: a partial tick's worth of events is acceptable, losing the whole
/// tick is not.
pub fn poll_events(
    queues: &mut EventQueues,
    events: Vec<CrosstermEvent>,
    failure: Option<EventError>,
) -> (r: Result<(), EventError>)
    ensures
        final(queues).raw@ == events@,
        final(queues).window@ == window_events_of(events@),
        final(queues).key@ == key_events_of(events@),
        final(queues).mouse@ == mouse_events_of(events@),
        final(queues).paste@ == paste_events_of(events@),
        r == (match failure {
            Some(e) => Err::<(), EventError>(e),
            None => Ok::<(), EventError>(()),
        }),
{
    queues.raw = Vec::new();
    queues.window = Vec::new();
    queues.key = Vec::new();
    queues.mouse = Vec::new();
    queues.paste = Vec::new();

    let mut i: usize = 0;
    while i < events.len()
        invariant
            i <= events.len(),
            queues.window@ == window_events_of(events@.take(i as int)),
            queues.key@ == key_events_of(events@.take(i as int)),
            queues.mouse@ == mouse_events_of(events@.take(i as int)),
            queues.paste@ == paste_events_of(events@.take(i as int)),
        decreases events.len() - i,
    {
        proof {
            lemma_classified_take_step(events@, i as int);
        }
        match &events[i].0 {
            RawEvent::Key(k) => queues.key.push(*k),
            RawEvent::Mouse(m) => queues.mouse.push(*m),
            RawEvent::FocusGained => queues.window.push(WindowEvent::FocusGained),
            RawEvent::FocusLost => queues.window.push(WindowEvent::FocusLost),
            RawEvent::Resize(columns, rows) => queues.window.push(
                WindowEvent::Resize(*columns, *rows),
            ),
            RawEvent::Paste(t) => queues.paste.push(PasteEvent(t.clone())),
        }
        i += 1;
    }
    proof {
        assert(events@.take(events@.len() as int) =~= events@);
    }
    queues.raw = events;

    match failure {
        Some(e) => Err(e),
        None => Ok(()),
    }
}

/// The dimensions of the last resize in a tick's window events, if any.
/// Resizes are latest-wins: earlier resizes in the same tick are overridden,
/// never merged or accumulated.
pub open spec fn last_resize(s: Seq<WindowEvent>) -> Option<(u16, u16)>
    decreases s.len(),
{
    if s.len() == 0 {
        None
    } else {
        match s.last() {
            WindowEvent::Resize(columns, rows) => Some((columns, rows)),
            _ => last_resize(s.drop_last()),
        }
    }
}

/// The window record after synchronizing with a tick's resizes: the last
/// resize overwrites the dimensions, everything else is untouched.
pub open spec fn spec_resized(w: CrosstermWindow, dims: Option<(u16, u16)>) -> CrosstermWindow {
    match dims {
        Some(d) => CrosstermWindow {
            width: d.0,
            height: d.1,
            title: w.title,
            alternate_screen: w.alternate_screen,
            mouse_capture: w.mouse_capture,
            active: w.active,
        },
        None => w,
    }
}

/// Window-state synchronization: applies a tick's window events to the
/// window record, in order, so that the record ends at the dimensions of the
/// last resize seen this tick — or stays as it was when none arrived. Title,
/// mode flags and liveness are never touched.
pub fn update_window(window: &mut CrosstermWindow, events: &Vec<WindowEvent>)
    ensures
        *final(window) == spec_resized(*old(window), last_resize(events@)),
{
    let mut i: usize = 0;
    while i < events.len()
        invariant
            i <= events.len(),
            *window == spec_resized(*old(window), last_resize(events@.take(i as int))),
        decreases events.len() - i,
    {
        proof {
            assert(events@.take(i + 1).drop_last() =~= events@.take(i as int));
            assert(events@.take(i + 1).last() == events@[i as int]);
        }
        match events[i] {
            WindowEvent::Resize(columns, rows) => {
                window.width = columns;
                window.height = rows;
            },
            _ => {},
        }
        i += 1;
    }
    proof {
        assert(events@.take(events@.len() as int) =~= events@);
    }
}

/// The raw input event a window event classifies from.
pub open spec fn raw_of_window(w: WindowEvent) -> RawEvent {
    match w {
        WindowEvent::FocusGained => RawEvent::FocusGained,
        WindowEvent::FocusLost => RawEvent::FocusLost,
        WindowEvent::Resize(columns, rows) => RawEvent::Resize(columns, rows),
    }
}

/// Tick isolation for key events: a key event only ever appears in a tick's
/// key queue because the corresponding raw event was drained that same tick.
pub proof fn lemma_key_event_origin(s: Seq<CrosstermEvent>, k: KeyEvent)
    requires
        key_events_of(s).contains(k),
    ensures
        s.contains(CrosstermEvent(RawEvent::Key(k))),
    decreases s.len(),
{
    let prev = key_events_of(s.drop_last());
    if key_step(s.last()) == Some(k) {
        assert(s.last() == CrosstermEvent(RawEvent::Key(k)));
        assert(s[s.len() - 1] == CrosstermEvent(RawEvent::Key(k)));
    } else {
        assert(prev.contains(k));
        lemma_key_event_origin(s.drop_last(), k);
        let j = choose|j: int|
            0 <= j < s.drop_last().len() && s.drop_last()[j] == CrosstermEvent(RawEvent::Key(k));
        assert(s[j] == CrosstermEvent(RawEvent::Key(k)));
    }
}

/// Tick isolation for mouse events.
pub proof fn lemma_mouse_event_origin(s: Seq<CrosstermEvent>, m: MouseEvent)
    requires
        mouse_events_of(s).contains(m),
    ensures
        s.contains(CrosstermEvent(RawEvent::Mouse(m))),
    decreases s.len(),
{
    let prev = mouse_events_of(s.drop_last());
    if mouse_step(s.last()) == Some(m) {
        assert(s[s.len() - 1] == CrosstermEvent(RawEvent::Mouse(m)));
    } else {
        assert(prev.contains(m));
        lemma_mouse_event_origin(s.drop_last(), m);
        let j = choose|j: int|
            0 <= j < s.drop_last().len() && s.drop_last()[j] == CrosstermEvent(RawEvent::Mouse(m));
        assert(s[j] == CrosstermEvent(RawEvent::Mouse(m)));
    }
}

/// Tick isolation for window events.
pub proof fn lemma_window_event_origin(s: Seq<CrosstermEvent>, w: WindowEvent)
    requires
        window_events_of(s).contains(w),
    ensures
        s.contains(CrosstermEvent(raw_of_window(w))),
    decreases s.len(),
{
    let prev = window_events_of(s.drop_last());
    if window_step(s.last()) == Some(w) {
        assert(s[s.len() - 1] == CrosstermEvent(raw_of_window(w)));
    } else {
        assert(prev.contains(w));
        lemma_window_event_origin(s.drop_last(), w);
        let j = choose|j: int|
            0 <= j < s.drop_last().len() && s.drop_last()[j] == CrosstermEvent(raw_of_window(w));
        assert(s[j] == CrosstermEvent(raw_of_window(w)));
    }
}

/// Tick isolation for paste events.
pub proof fn lemma_paste_event_origin(s: Seq<CrosstermEvent>, p: PasteEvent)
    requires
        paste_events_of(s).contains(p),
    ensures
        s.contains(CrosstermEvent(RawEvent::Paste(p.0))),
    decreases s.len(),
{
    let prev = paste_events_of(s.drop_last());
    if paste_step(s.last()) == Some(p) {
        assert(s[s.len() - 1] == CrosstermEvent(RawEvent::Paste(p.0)));
    } else {
        assert(prev.contains(p));
        lemma_paste_event_origin(s.drop_last(), p);
        let j = choose|j: int|
            0 <= j < s.drop_last().len() && s.drop_last()[j] == CrosstermEvent(
                RawEvent::Paste(p.0),
            );
        assert(s[j] == CrosstermEvent(RawEvent::Paste(p.0)));
    }
}

} // verus!
