use vstd::prelude::*;

verus! {

/// The key code of the Escape key.
pub const KEY_ESCAPE: i32 = 256;

/// What happened to a key.
#[derive(Debug, Clone, Copy, PartialEq, Eq, Structural)]
pub enum KeyAction {
    Release,
    Press,
    Repeat,
}

/// A window event, reduced to what the game reacts to: key events carry
/// their key code, scancode, action and modifier bits; everything else is
/// `Other`.
#[derive(Debug, Clone, Copy, PartialEq, Eq, Structural)]
pub enum InputEvent {
    Key { key: i32, scancode: i32, action: KeyAction, mods: i32 },
    Other,
}

/// What the window should do after an event.
#[derive(Debug, Clone, Copy, PartialEq, Eq, Structural)]
pub enum WindowCommand {
    Keep,
    Close,
}

/// The window closes on exactly one event: Escape being pressed.
pub open spec fn closes_window(e: InputEvent) -> bool {
    &&& e matches InputEvent::Key { key, action, .. }
    &&& key == KEY_ESCAPE
    &&& action == KeyAction::Press
}

/// Whether some event of `events` closes the window.
pub open spec fn any_closes_window(events: Seq<InputEvent>) -> bool {
    exists|i: int| 0 <= i < events.len() && closes_window(#[trigger] events[i])
}

/// Decides what one event asks of the window.
pub fn handle_window_event(event: &InputEvent) -> (cmd: WindowCommand)
    ensures
        cmd == (if closes_window(*event) { WindowCommand::Close } else { WindowCommand::Keep }),
        (cmd == WindowCommand::Close) <==> (*event matches InputEvent::Key { key, action, .. }
            && key == KEY_ESCAPE && action == KeyAction::Press),
{
    match event {
        InputEvent::Key { key, action: KeyAction::Press, .. } => {
            if *key == KEY_ESCAPE {
                WindowCommand::Close
            } else {
                WindowCommand::Keep
            }
        },
        _ => WindowCommand::Keep,
    }
}

/// Handles the events polled in one frame, in order: the window is to
/// close when any of them asks it to.
pub fn handle_window_events(events: &[InputEvent]) -> (cmd: WindowCommand)
    ensures
        cmd == (if any_closes_window(events@) {
            WindowCommand::Close
        } else {
            WindowCommand::Keep
        }),
        (cmd == WindowCommand::Close) <==> exists|i: int|
            0 <= i < events@.len() && (#[trigger] events@[i] matches InputEvent::Key {
                key,
                action,
                ..
            } && key == KEY_ESCAPE && action == KeyAction::Press),
{
    proof {
        lemma_frame_closes_iff_escape_press(events@);
    }
    let mut cmd = WindowCommand::Keep;
    let mut i: usize = 0;
    while i < events.len()
        invariant
            i <= events@.len(),
            cmd == (if any_closes_window(events@.subrange(0, i as int)) {
                WindowCommand::Close
            } else {
                WindowCommand::Keep
            }),
        decreases events@.len() - i,
    {
        let c = handle_window_event(&events[i]);
        proof {
            let before = events@.subrange(0, i as int);
            let after = events@.subrange(0, i + 1);
            if any_closes_window(before) {
                let j = choose|j: int| 0 <= j < before.len() && closes_window(#[trigger] before[j]);
                assert(after[j] == before[j]);
            }
            if closes_window(events@[i as int]) {
                assert(after[i as int] == events@[i as int]);
            }
            if any_closes_window(after) {
                let j = choose|j: int| 0 <= j < after.len() && closes_window(#[trigger] after[j]);
                if j < i {
                    assert(before[j] == after[j]);
                }
            }
        }
        if c == WindowCommand::Close {
            cmd = WindowCommand::Close;
        }
        i = i + 1;
    }
    assert(events@.subrange(0, events@.len() as int) == events@);
    cmd
}

/// Escape pressed closes the window, whatever its scancode and modifier bits.
pub proof fn lemma_escape_press_closes(scancode: i32, mods: i32)
    ensures
        closes_window(InputEvent::Key { key: KEY_ESCAPE, scancode, action: KeyAction::Press, mods }),
{
}

/// Nothing but Escape pressed closes the window: any event that closes it is
/// a key event whose key is Escape and whose action is Press.
pub proof fn lemma_only_escape_press_closes(e: InputEvent)
    ensures
        closes_window(e) ==> (e matches InputEvent::Key { key, action, .. } && key == KEY_ESCAPE
            && action == KeyAction::Press),
        e is Other ==> !closes_window(e),
{
}

/// A frame closes the window exactly when one of its events, at any position,
/// is Escape pressed (with any scancode and modifier bits).
pub proof fn lemma_frame_closes_iff_escape_press(events: Seq<InputEvent>)
    ensures
        any_closes_window(events) <==> exists|i: int|
            0 <= i < events.len() && (#[trigger] events[i] matches InputEvent::Key {
                key,
                action,
                ..
            } && key == KEY_ESCAPE && action == KeyAction::Press),
{
    if any_closes_window(events) {
        let i = choose|i: int| 0 <= i < events.len() && closes_window(#[trigger] events[i]);
        assert(events[i] matches InputEvent::Key { key, action, .. } && key == KEY_ESCAPE && action
            == KeyAction::Press);
    }
}

/// Once an event of a frame closes the window, no events before or after it
/// undo that: the frame's decision is an "or" over its events.
pub proof fn lemma_frame_close_is_monotone(a: Seq<InputEvent>, b: Seq<InputEvent>)
    ensures
        any_closes_window(a) ==> any_closes_window(a + b),
        any_closes_window(b) ==> any_closes_window(a + b),
        any_closes_window(a + b) ==> any_closes_window(a) || any_closes_window(b),
{
    let ab = a + b;
    if any_closes_window(a) {
        let i = choose|i: int| 0 <= i < a.len() && closes_window(#[trigger] a[i]);
        assert(ab[i] == a[i]);
    }
    if any_closes_window(b) {
        let i = choose|i: int| 0 <= i < b.len() && closes_window(#[trigger] b[i]);
        assert(ab[a.len() + i] == b[i]);
    }
    if any_closes_window(ab) {
        let i = choose|i: int| 0 <= i < ab.len() && closes_window(#[trigger] ab[i]);
        if i < a.len() {
            assert(a[i] == ab[i]);
        } else {
            assert(b[i - a.len()] == ab[i]);
        }
    }
}

/// Events that are not key events never change a frame's decision, wherever
/// they are inserted.
pub proof fn lemma_frame_ignores_other_events(a: Seq<InputEvent>, b: Seq<InputEvent>)
    ensures
        any_closes_window(a + seq![InputEvent::Other] + b) == any_closes_window(a + b),
{
    let o = seq![InputEvent::Other];
    lemma_frame_close_is_monotone(a, o);
    lemma_frame_close_is_monotone(a + o, b);
    lemma_frame_close_is_monotone(a, b);
    if any_closes_window(o) {
        let i = choose|i: int| 0 <= i < o.len() && closes_window(#[trigger] o[i]);
        assert(o[i] == InputEvent::Other);
    }
    if any_closes_window(a) {
        let i = choose|i: int| 0 <= i < a.len() && closes_window(#[trigger] a[i]);
        assert((a + o)[i] == a[i]);
    }
    if any_closes_window(a + o) {
        let i = choose|i: int| 0 <= i < (a + o).len() && closes_window(#[trigger] (a + o)[i]);
        if i < a.len() {
            assert((a + o)[i] == a[i]);
        } else {
            assert((a + o)[i] == InputEvent::Other);
        }
    }
}

} // verus!
