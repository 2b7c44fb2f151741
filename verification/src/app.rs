//! The viewer's state: the log, the selection, the scroll offset and the jump
//! command, with the transitions that the event loop applies to them.

use crate::channel::{open, try_receive};
use crate::list::StateList;
use crate::state::{labelled, Flow, InputMode, Key, NavState, Popup};
use crate::text::{parse_index, push_decimal};
use std::sync::mpsc::{Receiver, Sender};
use vstd::prelude::*;

verus! {

/// The state of the viewer. It owns the receiving end of the channel on which
/// frame descriptions arrive.
pub struct App {
    list: StateList<String>,
    rx: Receiver<String>,
    scroll: usize,
    mode: InputMode,
    popup: Popup,
    input: String,
}

impl View for App {
    type V = NavState;

    closed spec fn view(&self) -> NavState {
        NavState {
            records: self.list@.items.map_values(|record: String| record@),
            selected: self.list@.selected,
            scroll: self.scroll as nat,
            mode: self.mode,
            popup: self.popup,
            input: self.input@,
        }
    }
}

/// Appending a description to a state that has taken in `packets` is taking in
/// `packets` with the description at their end.
proof fn lemma_receive_all_push(state: NavState, packets: Seq<Seq<char>>, packet: Seq<char>)
    ensures
        state.receive_all(packets).receive(packet) == state.receive_all(packets.push(packet)),
{
    assert(state.receive_all(packets).receive(packet).records =~= state.receive_all(
        packets.push(packet),
    ).records);
}

impl App {
    /// The invariant of the viewer's state, see [`NavState::wf`]. It holds of
    /// the state that `new` makes, and every method keeps it.
    pub open spec fn wf(&self) -> bool {
        self@.wf()
    }

    /// A viewer in its initial state, and the sending end of the channel that
    /// feeds its log.
    pub fn new() -> (made: (App, Sender<String>))
        ensures
            made.0.wf(),
            made.0@ == NavState::initial(),
    {
        let (tx, rx) = open();
        let app = App {
            list: StateList::new(),
            rx,
            scroll: 0,
            mode: InputMode::NormalMode,
            popup: Popup::Closed,
            input: String::new(),
        };
        assert(app@.records =~= Seq::empty());
        (app, tx)
    }

    /// The first record on screen.
    pub fn scroll(&self) -> (scroll: usize)
        ensures
            scroll == self@.scroll,
    {
        self.scroll
    }

    /// Sets the scroll offset to `to`, or to the last record when `to` lies
    /// beyond it.
    pub fn set_scroll(&mut self, to: usize)
        ensures
            old(self).wf() ==> final(self).wf(),
            final(self)@ == old(self)@.scroll_to(to as nat),
    {
        let len: usize = self.list.len();
        if len == 0 {
            self.scroll = 0;
        } else if to >= len {
            self.scroll = len - 1;
        } else {
            self.scroll = to;
        }
    }

    /// The number of records in the log.
    pub fn len(&self) -> (n: usize)
        ensures
            n == self@.records.len(),
    {
        self.list.len()
    }

    /// The selected record, if any.
    pub fn selected(&self) -> (selected: Option<usize>)
        ensures
            match selected {
                Some(i) => self@.selected == Some(i as nat),
                None => self@.selected is None,
            },
    {
        self.list.selected()
    }

    /// Where key presses go at present.
    pub fn mode(&self) -> (mode: InputMode)
        ensures
            mode == self@.mode,
    {
        self.mode
    }

    /// The overlay that is open at present.
    pub fn popup(&self) -> (popup: Popup)
        ensures
            popup == self@.popup,
    {
        self.popup
    }

    /// The text typed into the jump command so far.
    pub fn input(&self) -> (input: &str)
        ensures
            input@ == self@.input,
    {
        self.input.as_str()
    }

    /// The record at `index`, or `None` beyond the end of the log.
    pub fn record(&self, index: usize) -> (record: Option<&String>)
        ensures
            index < self@.records.len() ==> record is Some && record.unwrap()@
                == self@.records[index as int],
            index >= self@.records.len() ==> record is None,
    {
        self.list.get(index)
    }

    /// The records from the scroll offset to the end of the log.
    pub fn visible(&self) -> (records: &[String])
        ensures
            records@.map_values(|record: String| record@) == self@.visible(),
    {
        let records = self.list.items_from(self.scroll);
        assert(records@.map_values(|record: String| record@) =~= self@.visible());
        records
    }

    /// Appends the description `packet` to the log, under its index.
    pub fn push_frame(&mut self, packet: String)
        ensures
            old(self).wf() ==> final(self).wf(),
            final(self)@ == old(self)@.receive(packet@),
    {
        let mut record = String::new();
        push_decimal(&mut record, self.list.len() as u64);
        record.push(':');
        record.push(' ');
        record.append(packet.as_str());
        assert(record@ =~= labelled(old(self)@.records.len(), packet@));
        self.list.push(record);
        assert(self@.records =~= old(self)@.receive(packet@).records);
    }

    /// Takes one description off the channel, if one is waiting, and appends
    /// it to the log. Returns whether there was one. It never waits.
    pub fn poll_frame(&mut self) -> (arrived: bool)
        ensures
            old(self).wf() ==> final(self).wf(),
            !arrived ==> final(self)@ == old(self)@,
            arrived ==> exists|packet: Seq<char>| final(self)@ == #[trigger] old(self)@.receive(packet),
    {
        let received = try_receive(&self.rx);
        self.take_in(received)
    }

    /// Takes in what one look at the channel gave: a description is appended
    /// to the log under its index, and `None` changes nothing. Returns
    /// whether there was a description.
    pub fn take_in(&mut self, received: Option<String>) -> (arrived: bool)
        ensures
            old(self).wf() ==> final(self).wf(),
            arrived == received is Some,
            final(self)@ == match received {
                Some(packet) => old(self)@.receive(packet@),
                None => old(self)@,
            },
    {
        match received {
            Some(packet) => {
                self.push_frame(packet);
                true
            },
            None => false,
        }
    }

    /// Takes the descriptions that are waiting off the channel, one after the
    /// other until none is left, and appends them to the log in the order in
    /// which the channel hands them out. Returns how many there were. It
    /// never waits, and it stops when the log can hold no more.
    pub fn drain(&mut self) -> (count: usize)
        ensures
            old(self).wf() ==> final(self).wf(),
            exists|packets: Seq<Seq<char>>|
                packets.len() == count && final(self)@ == #[trigger] old(self)@.receive_all(packets),
    {
        let ghost mut packets: Seq<Seq<char>> = Seq::empty();
        let mut count: usize = 0;
        assert(self@.records =~= old(self)@.receive_all(packets).records);
        while self.list.len() < usize::MAX
            invariant
                old(self).wf() ==> self.wf(),
                packets.len() == count,
                self@ == old(self)@.receive_all(packets),
            decreases usize::MAX - self@.records.len(),
        {
            let ghost before = self@;
            if !self.poll_frame() {
                break ;
            }
            proof {
                let packet = choose|packet: Seq<char>| self@ == before.receive(packet);
                lemma_receive_all_push(old(self)@, packets, packet);
                packets = packets.push(packet);
            }
            count = count + 1;
        }
        count
    }

    /// Applies one key press and says whether the event loop goes on.
    pub fn handle_key(&mut self, key: Key) -> (flow: Flow)
        ensures
            old(self).wf() ==> final(self).wf(),
            final(self)@ == old(self)@.press(key),
            flow == if old(self)@.quits(key) {
                Flow::Quit
            } else {
                Flow::Continue
            },
    {
        match self.mode {
            InputMode::NormalMode => match key {
                Key::Char(c) => {
                    if c == 'q' {
                        return Flow::Quit;
                    } else if c == 'j' {
                        self.list.next();
                    } else if c == 'k' {
                        self.list.prev();
                    } else if c == 'g' {
                        self.popup = Popup::GotoCommand;
                        self.mode = InputMode::EditMode;
                        self.input = String::new();
                    }
                },
                Key::Esc => {
                    self.list.unselect();
                },
                _ => {},
            },
            InputMode::EditMode => match key {
                Key::Char(c) => {
                    self.input.push(c);
                },
                Key::Backspace => {
                    let _ = self.input.pop();
                },
                Key::Enter => {
                    if let Some(value) = parse_index(self.input.as_str()) {
                        let target: usize = if value > usize::MAX as u64 {
                            usize::MAX
                        } else {
                            value as usize
                        };
                        proof {
                            self.list.lemma_len_fits();
                        }
                        self.list.select(target);
                    }
                    self.input = String::new();
                    self.popup = Popup::Closed;
                    self.mode = InputMode::NormalMode;
                },
                Key::Esc => {
                    self.input = String::new();
                    self.popup = Popup::Closed;
                    self.mode = InputMode::NormalMode;
                },
                Key::Other => {},
            },
        }
        Flow::Continue
    }

    /// Brings the scroll offset up to date for a viewport of
    /// `viewport_height` rows.
    pub fn update_scroll(&mut self, viewport_height: usize)
        ensures
            old(self).wf() ==> final(self).wf(),
            final(self)@ == old(self)@.rescroll(viewport_height as nat),
    {
        match self.list.selected() {
            Some(selected) => {
                if selected < self.scroll {
                    self.set_scroll(selected);
                }
            },
            None => {
                let len: usize = self.list.len();
                let to: usize = if viewport_height <= len {
                    len - viewport_height
                } else {
                    0
                };
                self.set_scroll(to);
            },
        }
    }
}

} // verus!
