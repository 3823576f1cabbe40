//! What the event loop does with each terminal event: move the outline,
//! clear the screen, draw, or stop.
use vstd::prelude::*;

use crate::geometry::TermBox;

verus! {

#[derive(Clone, Copy, Debug, PartialEq, Eq, Structural)]
pub enum KeyKind {
    Press,
    Repeat,
    Release,
}

#[derive(Clone, Copy, Debug, PartialEq, Eq, Structural)]
pub enum KeyCode {
    Esc,
    Char(char),
    Other,
}

/// A terminal input event, as far as the loop tells events apart.
/// `modifiers` holds the modifier flags as crossterm's `KeyModifiers` bits.
#[derive(Clone, Copy, Debug, PartialEq, Eq, Structural)]
pub enum InputEvent {
    PointerMoved { column: u16, row: u16 },
    Key { code: KeyCode, kind: KeyKind, modifiers: u8 },
    FocusLost,
    FocusGained,
    Other,
}

/// What the loop does after an event. `Draw` and `ClearAndDraw` end with a
/// flush of the output.
#[derive(Clone, Copy, Debug, PartialEq, Eq, Structural)]
pub enum Action {
    Ignore,
    Exit,
    Clear,
    Draw,
    ClearAndDraw,
}

/// The modifier bits of Control held alone.
pub open spec fn control_bits() -> u8 {
    0b0000_0010
}

/// Relies on crossterm's `KeyModifiers::CONTROL`, the flag `0b0000_0010`.
#[verifier::external_body]
fn control_modifier() -> (r: u8)
    ensures
        r == control_bits(),
{
    crossterm::event::KeyModifiers::CONTROL.bits()
}

/// Escape, or Control with 'c' and nothing else, pressed.
pub open spec fn is_exit_key(event: InputEvent) -> bool {
    match event {
        InputEvent::Key { code, kind, modifiers } => kind == KeyKind::Press && (code == KeyCode::Esc
            || (code == KeyCode::Char('c') && modifiers == control_bits())),
        _ => false,
    }
}

/// The outline and the action after one event.
pub open spec fn step_spec(b: TermBox, event: InputEvent) -> (TermBox, Action) {
    match event {
        InputEvent::PointerMoved { column, row } => if (column, row) != b.centre {
            (TermBox { centre: (column, row), ..b }, Action::ClearAndDraw)
        } else {
            (b, Action::Ignore)
        },
        InputEvent::Key { .. } => if is_exit_key(event) {
            (b, Action::Exit)
        } else {
            (b, Action::Ignore)
        },
        InputEvent::FocusLost => (b, Action::Clear),
        InputEvent::FocusGained => (b, Action::Draw),
        InputEvent::Other => (b, Action::Ignore),
    }
}

/// The outline and the actions after a run of events, which ends early at
/// the first `Exit`.
pub open spec fn run_spec(b: TermBox, events: Seq<InputEvent>) -> (TermBox, Seq<Action>)
    decreases events.len(),
{
    if events.len() == 0 {
        (b, seq![])
    } else {
        let (next, action) = step_spec(b, events[0]);
        if action == Action::Exit {
            (next, seq![action])
        } else {
            let (last, rest) = run_spec(next, events.drop_first());
            (last, seq![action] + rest)
        }
    }
}

impl TermBox {
    /// Takes one event: a pointer move elsewhere recentres the outline; the
    /// returned action says what to clear, draw or whether to stop.
    pub fn handle(&mut self, event: &InputEvent) -> (a: Action)
        ensures
            (*final(self), a) == step_spec(*old(self), *event),
    {
        match *event {
            InputEvent::PointerMoved { column, row } => {
                if column != self.centre.0 || row != self.centre.1 {
                    self.centre = (column, row);
                    Action::ClearAndDraw
                } else {
                    Action::Ignore
                }
            },
            InputEvent::Key { code, kind, modifiers } => {
                let pressed = match kind {
                    KeyKind::Press => true,
                    _ => false,
                };
                let exit = match code {
                    KeyCode::Esc => true,
                    KeyCode::Char(c) => c == 'c' && modifiers == control_modifier(),
                    KeyCode::Other => false,
                };
                if pressed && exit {
                    Action::Exit
                } else {
                    Action::Ignore
                }
            },
            InputEvent::FocusLost => Action::Clear,
            InputEvent::FocusGained => Action::Draw,
            InputEvent::Other => Action::Ignore,
        }
    }
}

/// Pointer moves that report the outline's own centre, however many, change
/// nothing and ask for no clearing and no drawing.
pub proof fn lemma_still_pointer_never_redraws(b: TermBox, events: Seq<InputEvent>)
    requires
        forall|i: int|
            0 <= i < events.len() ==> #[trigger] events[i] == (InputEvent::PointerMoved {
                column: b.centre.0,
                row: b.centre.1,
            }),
    ensures
        run_spec(b, events).0 == b,
        run_spec(b, events).1.len() == events.len(),
        forall|i: int|
            0 <= i < events.len() ==> #[trigger] run_spec(b, events).1[i] == Action::Ignore,
    decreases events.len(),
{
    if events.len() > 0 {
        let rest = events.drop_first();
        assert forall|i: int| 0 <= i < rest.len() implies #[trigger] rest[i] == (InputEvent::PointerMoved {
            column: b.centre.0,
            row: b.centre.1,
        }) by {
            assert(rest[i] == events[i + 1]);
        }
        lemma_still_pointer_never_redraws(b, rest);
        assert(events[0] == (InputEvent::PointerMoved { column: b.centre.0, row: b.centre.1 }));
    }
}

/// Losing focus and then regaining it, with no pointer move between, clears
/// the screen and then draws exactly the outline that was there before.
pub proof fn lemma_refocus_restores_frame(b: TermBox, columns: int)
    ensures
        run_spec(b, seq![InputEvent::FocusLost, InputEvent::FocusGained]).1 == seq![
            Action::Clear,
            Action::Draw,
        ],
        run_spec(b, seq![InputEvent::FocusLost, InputEvent::FocusGained]).0 == b,
        run_spec(b, seq![InputEvent::FocusLost, InputEvent::FocusGained]).0.frame_spec(columns)
            == b.frame_spec(columns),
{
    let events = seq![InputEvent::FocusLost, InputEvent::FocusGained];
    assert(events.drop_first() =~= seq![InputEvent::FocusGained]);
    assert(events.drop_first().drop_first() =~= Seq::<InputEvent>::empty());
    let tail = events.drop_first();
    assert(tail[0] == InputEvent::FocusGained);
    assert(run_spec(b, tail.drop_first()) == (b, Seq::<Action>::empty()));
    assert(run_spec(b, tail).0 == b);
    assert(run_spec(b, tail).1 =~= seq![Action::Draw]);
    assert(events[0] == InputEvent::FocusLost);
    assert(run_spec(b, events).1 =~= seq![Action::Clear, Action::Draw]);
}

} // verus!
