//! The navigation state machine of the viewer, as a mathematical model: what
//! each key does to the log view, and what every run of keys preserves.

use crate::list::{goto_selection, next_selection, prev_selection, selection_in_range};
use crate::text::{decimal, is_numeral, numeral_value};
use vstd::prelude::*;

verus! {

/// Where key presses go: to the navigation commands or to the text buffer.
#[derive(Clone, Copy, Debug, PartialEq, Eq, Structural)]
pub enum InputMode {
    EditMode,
    NormalMode,
}

/// The overlay that is open, if any.
#[derive(Clone, Copy, Debug, PartialEq, Eq, Structural)]
pub enum Popup {
    GotoCommand,
    Closed,
}

/// A key press, reduced to what the viewer tells apart.
#[derive(Clone, Copy, Debug, PartialEq, Eq, Structural)]
pub enum Key {
    Char(char),
    Backspace,
    Enter,
    Esc,
    Other,
}

/// What the event loop does after a key press.
#[derive(Clone, Copy, Debug, PartialEq, Eq, Structural)]
pub enum Flow {
    Continue,
    Quit,
}

/// The record that the log keeps for a received description: the record's
/// index in the log, a colon and a space, then the description.
pub open spec fn labelled(index: nat, packet: Seq<char>) -> Seq<char> {
    decimal(index) + seq![':', ' '] + packet
}

/// The largest offset that still shows a record: the last index, or zero in
/// an empty log. An offset beyond it is pulled back to it.
pub open spec fn clamp_scroll(to: nat, len: nat) -> nat {
    if len == 0 {
        0
    } else if to < len {
        to
    } else {
        (len - 1) as nat
    }
}

/// The offset that shows the last `height` records of a log of `len` records.
pub open spec fn tail_scroll(len: nat, height: nat) -> nat {
    clamp_scroll(
        if height <= len {
            (len - height) as nat
        } else {
            0
        },
        len,
    )
}

/// The selection after a jump command whose text is `input`: the index that
/// the text names, pulled back to the last record; unchanged when the text is
/// no numeral.
pub open spec fn jump_selection(selected: Option<nat>, len: nat, input: Seq<char>) -> Option<nat> {
    if is_numeral(input) {
        goto_selection(selected, len, numeral_value(input))
    } else {
        selected
    }
}

/// Everything the viewer shows and reacts with.
pub struct NavState {
    /// The log, oldest record first.
    pub records: Seq<Seq<char>>,
    /// The selected record; `None` follows the tail of the log.
    pub selected: Option<nat>,
    /// The first record on screen.
    pub scroll: nat,
    pub mode: InputMode,
    pub popup: Popup,
    /// The text typed into the jump command so far.
    pub input: Seq<char>,
}

impl NavState {
    /// The state at start-up: an empty log, nothing selected, no overlay.
    pub open spec fn initial() -> NavState {
        NavState {
            records: Seq::empty(),
            selected: None,
            scroll: 0,
            mode: InputMode::NormalMode,
            popup: Popup::Closed,
            input: Seq::empty(),
        }
    }

    /// What holds of every state the viewer can reach: the selection and the
    /// scroll offset name existing records, the jump overlay is open exactly
    /// in edit mode, and the text buffer is empty outside of it.
    pub open spec fn wf(self) -> bool {
        &&& selection_in_range(self.selected, self.records.len())
        &&& self.scroll == clamp_scroll(self.scroll, self.records.len())
        &&& self.mode == InputMode::EditMode <==> self.popup == Popup::GotoCommand
        &&& self.mode == InputMode::NormalMode ==> self.input.len() == 0
    }

    /// Whether `key` asks the event loop to stop.
    pub open spec fn quits(self, key: Key) -> bool {
        self.mode == InputMode::NormalMode && key == Key::Char('q')
    }

    /// The state after one key press.
    pub open spec fn press(self, key: Key) -> NavState {
        match self.mode {
            InputMode::NormalMode => match key {
                Key::Char(c) => if c == 'j' {
                    NavState {
                        selected: next_selection(self.selected, self.records.len()),
                        ..self
                    }
                } else if c == 'k' {
                    NavState {
                        selected: prev_selection(self.selected, self.records.len()),
                        ..self
                    }
                } else if c == 'g' {
                    NavState {
                        mode: InputMode::EditMode,
                        popup: Popup::GotoCommand,
                        input: Seq::empty(),
                        ..self
                    }
                } else {
                    self
                },
                Key::Esc => NavState { selected: None, ..self },
                _ => self,
            },
            InputMode::EditMode => match key {
                Key::Char(c) => NavState { input: self.input.push(c), ..self },
                Key::Backspace => NavState {
                    input: if self.input.len() > 0 {
                        self.input.drop_last()
                    } else {
                        self.input
                    },
                    ..self
                },
                Key::Enter => NavState {
                    selected: jump_selection(self.selected, self.records.len(), self.input),
                    mode: InputMode::NormalMode,
                    popup: Popup::Closed,
                    input: Seq::empty(),
                    ..self
                },
                Key::Esc => NavState {
                    mode: InputMode::NormalMode,
                    popup: Popup::Closed,
                    input: Seq::empty(),
                    ..self
                },
                Key::Other => self,
            },
        }
    }

    /// The state after the key presses `keys`, in order.
    pub open spec fn presses(self, keys: Seq<Key>) -> NavState
        decreases keys.len(),
    {
        if keys.len() == 0 {
            self
        } else {
            self.presses(keys.drop_last()).press(keys.last())
        }
    }

    /// The state after one description has arrived: it is appended to the log
    /// under its index. Nothing else changes.
    pub open spec fn receive(self, packet: Seq<char>) -> NavState {
        NavState { records: self.records.push(labelled(self.records.len(), packet)), ..self }
    }

    /// The state after the descriptions `packets` have arrived, in order.
    pub open spec fn receive_all(self, packets: Seq<Seq<char>>) -> NavState {
        NavState {
            records: self.records + Seq::new(
                packets.len(),
                |k: int| labelled((self.records.len() + k) as nat, packets[k]),
            ),
            ..self
        }
    }

    /// The state with the scroll offset set to `to`, pulled back to the last
    /// record when it lies beyond.
    pub open spec fn scroll_to(self, to: nat) -> NavState {
        NavState { scroll: clamp_scroll(to, self.records.len()), ..self }
    }

    /// The state after the scroll offset has been brought up to date for a
    /// viewport of `height` rows: a selection above the offset pulls the
    /// offset up to it; with no selection the offset follows the tail.
    pub open spec fn rescroll(self, height: nat) -> NavState {
        match self.selected {
            Some(i) => if i < self.scroll {
                self.scroll_to(i)
            } else {
                self
            },
            None => self.scroll_to(tail_scroll(self.records.len(), height)),
        }
    }

    /// The records on screen and below: those from the scroll offset to the
    /// end of the log.
    pub open spec fn visible(self) -> Seq<Seq<char>> {
        if self.scroll <= self.records.len() {
            self.records.subrange(self.scroll as int, self.records.len() as int)
        } else {
            Seq::empty()
        }
    }

    /// The state after one tick of the event loop: the descriptions that were
    /// waiting are taken in, the key press that came in, if any, is applied,
    /// and the scroll offset is brought up to date for the redraw.
    pub open spec fn tick(self, packets: Seq<Seq<char>>, key: Option<Key>, height: nat) -> NavState {
        let arrived = self.receive_all(packets);
        let pressed = match key {
            Some(key) => arrived.press(key),
            None => arrived,
        };
        pressed.rescroll(height)
    }
}

} // verus!
