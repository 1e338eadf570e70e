//! The keypad as a keyboard drives it: which character stands for which
//! key, and what a keyboard or window event does to the machine.

use vstd::prelude::*;
use crate::machine::Machine;
use crate::state::MachineState;

verus! {

/// The character of the escape key, which ends a run.
pub const ESCAPE: char = '\u{1b}';

/// The characters that stand for the keys `0` to `F` of the keypad, in
/// this order: the left four columns of a keyboard's upper four rows.
pub open spec fn key_layout() -> Seq<char> {
    seq!['1', '2', '3', '4', 'q', 'w', 'e', 'r', 'a', 's', 'd', 'f', 'z', 'x', 'c', 'v']
}

/// No character stands for two keys.
pub proof fn key_layout_is_injective()
    ensures
        key_layout().len() == 16,
        forall|i: int, j: int|
            0 <= i < j < 16 ==> #[trigger] key_layout()[i] != #[trigger] key_layout()[j],
{
}

/// The key of the keypad that the character `key` stands for, if it
/// stands for one.
pub fn scan_key(key: char) -> (index: Option<usize>)
    ensures
        match index {
            Some(i) => i < 16 && key_layout()[i as int] == key,
            None => !key_layout().contains(key),
        },
{
    match key {
        '1' => Some(0),
        '2' => Some(1),
        '3' => Some(2),
        '4' => Some(3),
        'q' => Some(4),
        'w' => Some(5),
        'e' => Some(6),
        'r' => Some(7),
        'a' => Some(8),
        's' => Some(9),
        'd' => Some(10),
        'f' => Some(11),
        'z' => Some(12),
        'x' => Some(13),
        'c' => Some(14),
        'v' => Some(15),
        _ => None,
    }
}

/// What the keyboard or the window reports.
#[derive(Clone, Copy, Debug, PartialEq, Eq, Structural)]
pub enum InputEvent {
    /// The window was closed.
    Quit,
    /// The key with this character went down.
    KeyDown(char),
    /// The key with this character came up.
    KeyUp(char),
}

impl InputEvent {
    /// The event ends the run: the window was closed or escape was pressed.
    pub open spec fn stops(self) -> bool {
        self == InputEvent::Quit || self == InputEvent::KeyDown(ESCAPE)
    }
}

impl MachineState {
    /// The state after `event`: a key of the keypad that goes down or comes
    /// up is recorded, and nothing else changes anything.
    pub open spec fn after_event(self, event: InputEvent) -> MachineState {
        match event {
            InputEvent::KeyDown(key) if key_layout().contains(key) => self.with_key(
                key_layout().index_of(key),
                true,
            ),
            InputEvent::KeyUp(key) if key_layout().contains(key) => self.with_key(
                key_layout().index_of(key),
                false,
            ),
            _ => self,
        }
    }
}

impl Machine {
    /// Applies `event` to the keypad and says whether the run goes on.
    pub fn handle_event(&mut self, event: InputEvent) -> (running: bool)
        ensures
            running == !event.stops(),
            final(self)@ == old(self)@.after_event(event),
    {
        proof {
            key_layout_is_injective();
        }
        match event {
            InputEvent::Quit => false,
            InputEvent::KeyDown(key) => {
                if key == ESCAPE {
                    assert(!key_layout().contains(ESCAPE));
                    false
                } else {
                    if let Some(index) = scan_key(key) {
                        self.keydown(index);
                    }
                    true
                }
            },
            InputEvent::KeyUp(key) => {
                if let Some(index) = scan_key(key) {
                    self.keyup(index);
                }
                true
            },
        }
    }
}

} // verus!
