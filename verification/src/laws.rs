//! What holds of the navigation state machine on every input: the invariant
//! that each transition keeps, and what runs of key presses and of arriving
//! descriptions amount to.

use crate::sniffer::{descriptions, MIN_FRAME_LEN};
use crate::state::{jump_selection, labelled, InputMode, Key, NavState, Popup};
use crate::text::{is_numeral, numeral_value};
use vstd::prelude::*;

verus! {

/// Whether `key` moves the selection: `j` forward or `k` backward.
pub open spec fn is_move(key: Key) -> bool {
    key == Key::Char('j') || key == Key::Char('k')
}

/// The key `key` pressed `n` times.
pub open spec fn repeated(key: Key, n: nat) -> Seq<Key> {
    Seq::new(n, |i: int| key)
}

/// Whether every key of `keys` is a character key.
pub open spec fn is_typing(keys: Seq<Key>) -> bool {
    forall|i: int| 0 <= i < keys.len() ==> #[trigger] keys[i] is Char
}

/// The text that the character keys among `keys` spell, in order.
pub open spec fn typed_text(keys: Seq<Key>) -> Seq<char>
    decreases keys.len(),
{
    if keys.len() == 0 {
        Seq::empty()
    } else {
        match keys.last() {
            Key::Char(c) => typed_text(keys.drop_last()).push(c),
            _ => typed_text(keys.drop_last()),
        }
    }
}

/// The key presses of a whole jump command: `g`, the typing, Enter.
pub open spec fn jump_keys(typing: Seq<Key>) -> Seq<Key> {
    seq![Key::Char('g')] + typing + seq![Key::Enter]
}

/// A key press keeps the invariant and leaves the log and the scroll offset
/// alone.
pub proof fn press_keeps_invariant(state: NavState, key: Key)
    requires
        state.wf(),
    ensures
        state.press(key).wf(),
        state.press(key).records == state.records,
        state.press(key).scroll == state.scroll,
{
}

/// Any run of key presses keeps the invariant and leaves the log and the
/// scroll offset alone.
pub proof fn presses_keep_invariant(state: NavState, keys: Seq<Key>)
    requires
        state.wf(),
    ensures
        state.presses(keys).wf(),
        state.presses(keys).records == state.records,
        state.presses(keys).scroll == state.scroll,
    decreases keys.len(),
{
    if keys.len() > 0 {
        presses_keep_invariant(state, keys.drop_last());
        press_keeps_invariant(state.presses(keys.drop_last()), keys.last());
    }
}

/// Pressing the keys `first` and then the keys `then` is pressing the two
/// runs one after the other.
pub proof fn presses_in_two_runs(state: NavState, first: Seq<Key>, then: Seq<Key>)
    ensures
        state.presses(first + then) == state.presses(first).presses(then),
    decreases then.len(),
{
    if then.len() == 0 {
        assert(first + then =~= first);
    } else {
        assert((first + then).drop_last() =~= first + then.drop_last());
        assert((first + then).last() == then.last());
        presses_in_two_runs(state, first, then.drop_last());
    }
}

/// One press of `j` in normal mode on a log that is not empty: the selection
/// names a record, it has moved forward by one at most and never backward,
/// and from the last record it does not move.
pub proof fn forward_press_is_monotonic(state: NavState)
    requires
        state.wf(),
        state.mode == InputMode::NormalMode,
        state.records.len() > 0,
    ensures
        state.press(Key::Char('j')).selected matches Some(after) && {
            &&& after < state.records.len()
            &&& state.selected is None ==> after == 0
            &&& state.selected matches Some(before) ==> before <= after <= before + 1
            &&& state.selected == Some((state.records.len() - 1) as nat) ==> after
                == state.records.len() - 1
        },
{
}

/// One press of `k` in normal mode on a log that is not empty: the selection
/// names a record, it has moved backward by one at most and never forward,
/// and from the first record it does not move.
pub proof fn backward_press_is_monotonic(state: NavState)
    requires
        state.wf(),
        state.mode == InputMode::NormalMode,
        state.records.len() > 0,
    ensures
        state.press(Key::Char('k')).selected matches Some(after) && {
            &&& after < state.records.len()
            &&& state.selected is None ==> after == 0
            &&& state.selected matches Some(before) ==> after <= before <= after + 1
            &&& state.selected == Some(0nat) ==> after == 0
        },
{
}

/// Any run of `j` and `k` presses in normal mode changes nothing but the
/// selection, and the selection stays inside the log: after the first press
/// on a log that is not empty it names an existing record.
pub proof fn moves_keep_selection_in_log(state: NavState, keys: Seq<Key>)
    requires
        state.wf(),
        state.mode == InputMode::NormalMode,
        forall|i: int| 0 <= i < keys.len() ==> is_move(#[trigger] keys[i]),
    ensures
        state.presses(keys).wf(),
        state.presses(keys) == (NavState { selected: state.presses(keys).selected, ..state }),
        keys.len() > 0 && state.records.len() > 0 ==> state.presses(keys).selected is Some,
        state.presses(keys).selected matches Some(i) ==> i < state.records.len(),
    decreases keys.len(),
{
    if keys.len() > 0 {
        moves_keep_selection_in_log(state, keys.drop_last());
        assert(is_move(keys[keys.len() - 1]));
    }
}

/// In a run of `j` and `k` presses on a log that is not empty, the press at
/// any place `at` moves the selection by one record at most, forward for `j`
/// and backward for `k`, never the other way, and leaves it on an existing
/// record.
pub proof fn every_move_is_monotonic(state: NavState, keys: Seq<Key>, at: int)
    requires
        state.wf(),
        state.mode == InputMode::NormalMode,
        state.records.len() > 0,
        forall|i: int| 0 <= i < keys.len() ==> is_move(#[trigger] keys[i]),
        0 <= at < keys.len(),
    ensures
        state.presses(keys.take(at + 1)).selected matches Some(after) && {
            &&& after < state.records.len()
            &&& state.presses(keys.take(at)).selected matches Some(before) ==> if keys[at]
                == Key::Char('j') {
                before <= after <= before + 1
            } else {
                after <= before <= after + 1
            }
        },
{
    let earlier = keys.take(at);
    assert(keys.take(at + 1).drop_last() =~= earlier);
    assert(keys.take(at + 1).last() == keys[at]);
    assert(is_move(keys[at]));
    assert forall|i: int| 0 <= i < earlier.len() implies is_move(#[trigger] earlier[i]) by {
        assert(earlier[i] == keys[i]);
    }
    moves_keep_selection_in_log(state, earlier);
}

/// `n` presses of `j` move the selection `n` records forward and stop at the
/// last record. With nothing selected the first press selects the first
/// record.
pub proof fn forward_presses_saturate(state: NavState, n: nat)
    requires
        state.wf(),
        state.mode == InputMode::NormalMode,
        state.records.len() > 0,
    ensures
        state.presses(repeated(Key::Char('j'), n)).selected == match state.selected {
            Some(i) => Some(
                if i + n < state.records.len() {
                    i + n
                } else {
                    (state.records.len() - 1) as nat
                },
            ),
            None => if n == 0 {
                None
            } else if n - 1 < state.records.len() {
                Some((n - 1) as nat)
            } else {
                Some((state.records.len() - 1) as nat)
            },
        },
    decreases n,
{
    let keys = repeated(Key::Char('j'), n);
    if n > 0 {
        assert(keys.drop_last() =~= repeated(Key::Char('j'), (n - 1) as nat));
        assert(keys.last() == Key::Char('j'));
        forward_presses_saturate(state, (n - 1) as nat);
        moves_keep_selection_in_log(state, keys.drop_last());
    }
}

/// `n` presses of `k` move the selection `n` records backward and stop at the
/// first record. With nothing selected the first press selects the first
/// record.
pub proof fn backward_presses_saturate(state: NavState, n: nat)
    requires
        state.wf(),
        state.mode == InputMode::NormalMode,
        state.records.len() > 0,
    ensures
        state.presses(repeated(Key::Char('k'), n)).selected == match state.selected {
            Some(i) => Some(
                if n <= i {
                    (i - n) as nat
                } else {
                    0
                },
            ),
            None => if n == 0 {
                None
            } else {
                Some(0nat)
            },
        },
    decreases n,
{
    let keys = repeated(Key::Char('k'), n);
    if n > 0 {
        assert(keys.drop_last() =~= repeated(Key::Char('k'), (n - 1) as nat));
        assert(keys.last() == Key::Char('k'));
        backward_presses_saturate(state, (n - 1) as nat);
        moves_keep_selection_in_log(state, keys.drop_last());
    }
}

/// On an empty log no run of `j` and `k` presses changes anything: nothing
/// gets selected.
pub proof fn moves_on_empty_log_do_nothing(state: NavState, keys: Seq<Key>)
    requires
        state.wf(),
        state.mode == InputMode::NormalMode,
        state.records.len() == 0,
        forall|i: int| 0 <= i < keys.len() ==> is_move(#[trigger] keys[i]),
    ensures
        state.presses(keys) == state,
        state.presses(keys).selected is None,
    decreases keys.len(),
{
    if keys.len() > 0 {
        moves_on_empty_log_do_nothing(state, keys.drop_last());
        assert(is_move(keys[keys.len() - 1]));
    }
}

/// Character keys pressed in edit mode append what they spell to the text
/// buffer and change nothing else.
pub proof fn typing_fills_buffer(state: NavState, typing: Seq<Key>)
    requires
        state.mode == InputMode::EditMode,
        is_typing(typing),
    ensures
        state.presses(typing) == (NavState { input: state.input + typed_text(typing), ..state }),
    decreases typing.len(),
{
    if typing.len() == 0 {
        assert(state.input + typed_text(typing) =~= state.input);
    } else {
        typing_fills_buffer(state, typing.drop_last());
        assert(typing[typing.len() - 1] is Char);
        assert((state.input + typed_text(typing.drop_last())).push(typing.last()->Char_0)
            =~= state.input + typed_text(typing));
    }
}

/// The state after a whole jump command given in normal mode: the overlay is
/// closed again, the buffer is empty, and the selection is where the typed
/// text sent it.
proof fn jump_command_outcome(state: NavState, typing: Seq<Key>)
    requires
        state.wf(),
        state.mode == InputMode::NormalMode,
        is_typing(typing),
    ensures
        state.presses(jump_keys(typing)) == (NavState {
            selected: jump_selection(state.selected, state.records.len(), typed_text(typing)),
            ..state
        }),
{
    let opened = state.press(Key::Char('g'));
    let open_keys = seq![Key::Char('g')];
    assert(open_keys.drop_last() =~= Seq::<Key>::empty());
    assert(state.presses(open_keys.drop_last()) == state);
    assert(state.presses(open_keys) == opened);
    presses_in_two_runs(state, open_keys, typing);
    typing_fills_buffer(opened, typing);
    assert(opened.input + typed_text(typing) =~= typed_text(typing));
    assert(jump_keys(typing).drop_last() =~= open_keys + typing);
    assert(jump_keys(typing).last() == Key::Enter);
    assert(state.input =~= Seq::<char>::empty());
}

/// A jump command with a numeral, given in normal mode: `g`, the digits,
/// Enter. The selection becomes the index that the digits name, or the last
/// index when they name one beyond it; the overlay is closed and the buffer
/// empty; nothing else changes. On an empty log nothing gets selected.
pub proof fn jump_selects_named_record(state: NavState, typing: Seq<Key>)
    requires
        state.wf(),
        state.mode == InputMode::NormalMode,
        is_typing(typing),
        is_numeral(typed_text(typing)),
    ensures
        state.records.len() > 0 ==> state.presses(jump_keys(typing)).selected == Some(
            if numeral_value(typed_text(typing)) < state.records.len() {
                numeral_value(typed_text(typing))
            } else {
                (state.records.len() - 1) as nat
            },
        ),
        state.records.len() == 0 ==> state.presses(jump_keys(typing)).selected is None,
        state.presses(jump_keys(typing)).popup == Popup::Closed,
        state.presses(jump_keys(typing)).mode == InputMode::NormalMode,
        state.presses(jump_keys(typing)).input == Seq::<char>::empty(),
        state.presses(jump_keys(typing)).records == state.records,
        state.presses(jump_keys(typing)).scroll == state.scroll,
{
    jump_command_outcome(state, typing);
}

/// A jump command whose text is no numeral (nothing was typed, or one of the
/// characters is no digit) leaves the selection where it was and closes the
/// overlay: the state is what it was before `g`.
pub proof fn jump_with_other_text_changes_nothing(state: NavState, typing: Seq<Key>)
    requires
        state.wf(),
        state.mode == InputMode::NormalMode,
        is_typing(typing),
        !is_numeral(typed_text(typing)),
    ensures
        state.presses(jump_keys(typing)) == state,
        state.presses(jump_keys(typing)).popup == Popup::Closed,
{
    jump_command_outcome(state, typing);
}

/// Esc in edit mode empties the text buffer, closes the overlay and returns
/// to normal mode. The selection, the log and the scroll offset stay.
pub proof fn escape_cancels_jump(state: NavState)
    requires
        state.mode == InputMode::EditMode,
    ensures
        state.press(Key::Esc) == (NavState {
            input: Seq::empty(),
            mode: InputMode::NormalMode,
            popup: Popup::Closed,
            ..state
        }),
        state.press(Key::Esc).selected == state.selected,
{
}

/// Esc in normal mode drops the selection and changes nothing else.
pub proof fn escape_drops_selection(state: NavState)
    requires
        state.mode == InputMode::NormalMode,
    ensures
        state.press(Key::Esc) == (NavState { selected: None, ..state }),
        state.press(Key::Esc).selected is None,
{
}

/// Bringing the scroll offset up to date keeps the invariant, so the offset
/// never passes the last record, and touches nothing but the offset.
pub proof fn rescroll_keeps_invariant(state: NavState, height: nat)
    requires
        state.wf(),
    ensures
        state.rescroll(height).wf(),
        state.rescroll(height) == (NavState { scroll: state.rescroll(height).scroll, ..state }),
        state.records.len() > 0 ==> state.rescroll(height).scroll <= state.records.len() - 1,
        state.records.len() == 0 ==> state.rescroll(height).scroll == 0,
{
}

/// Setting the scroll offset keeps the invariant, wherever it is set to.
pub proof fn scroll_to_keeps_invariant(state: NavState, to: nat)
    requires
        state.wf(),
    ensures
        state.scroll_to(to).wf(),
        state.records.len() > 0 ==> state.scroll_to(to).scroll <= state.records.len() - 1,
{
}

/// With a selection, bringing the scroll offset up to date never leaves the
/// selected record above the first row, and moves the offset only to reach it.
pub proof fn rescroll_reaches_selection(state: NavState, height: nat)
    requires
        state.wf(),
        state.selected is Some,
    ensures
        state.rescroll(height).scroll <= state.selected.unwrap(),
        state.rescroll(height).scroll == if state.selected.unwrap() < state.scroll {
            state.selected.unwrap()
        } else {
            state.scroll
        },
{
}

/// With no selection the offset leaves room for a full viewport: it is no
/// larger than the log is longer than the viewport, whatever the height and
/// the length of the log.
pub proof fn tail_offset_leaves_full_viewport(state: NavState, height: nat)
    requires
        state.wf(),
        state.selected is None,
    ensures
        state.rescroll(height).scroll <= if height <= state.records.len() {
            state.records.len() - height
        } else {
            0
        },
{
}

/// With no selection the view follows the tail: in a viewport of one row or
/// more the newest record is on screen, and the viewport is filled as far as
/// the log reaches.
pub proof fn tail_follow_shows_newest(state: NavState, height: nat)
    requires
        state.wf(),
        state.selected is None,
        state.records.len() > 0,
        height > 0,
    ensures
        state.rescroll(height).scroll <= state.records.len() - 1 < state.rescroll(height).scroll
            + height,
        state.rescroll(height).scroll == if height <= state.records.len() {
            state.records.len() - height
        } else {
            0
        },
{
}

/// An arriving description keeps the invariant: it grows the log and touches
/// neither the selection nor the scroll offset.
pub proof fn receive_keeps_invariant(state: NavState, packet: Seq<char>)
    requires
        state.wf(),
    ensures
        state.receive(packet).wf(),
{
}

/// Descriptions that arrive are neither lost, doubled nor reordered: the log
/// grows by exactly one record for each, the records that were there stay
/// where they were, and the new ones follow in the order of arrival, each
/// under its index.
pub proof fn arrivals_keep_count_and_order(state: NavState, packets: Seq<Seq<char>>)
    requires
        state.wf(),
    ensures
        state.receive_all(packets).wf(),
        state.receive_all(packets).records.len() == state.records.len() + packets.len(),
        forall|i: int|
            0 <= i < state.records.len() ==> #[trigger] state.receive_all(packets).records[i]
                == state.records[i],
        forall|k: int|
            0 <= k < packets.len() ==> #[trigger] state.receive_all(packets).records[state.records.len()
                + k] == labelled((state.records.len() + k) as nat, packets[k]),
{
}

/// One arrival is a run of arrivals of length one.
pub proof fn one_arrival(state: NavState, packet: Seq<char>)
    ensures
        state.receive_all(seq![packet]) == state.receive(packet),
{
    assert(state.receive_all(seq![packet]).records =~= state.receive(packet).records);
}

/// The log does not depend on how the arrivals are spread over the ticks of
/// the event loop: taking in `first` and later `then` gives what taking in
/// all of them at once gives.
pub proof fn arrivals_in_two_batches(state: NavState, first: Seq<Seq<char>>, then: Seq<Seq<char>>)
    ensures
        state.receive_all(first).receive_all(then) == state.receive_all(first + then),
{
    assert(state.receive_all(first).receive_all(then).records =~= state.receive_all(
        first + then,
    ).records);
}

/// Key presses and arrivals do not get in each other's way: the log is the
/// same whether a key is pressed before a description arrives or after.
pub proof fn arrival_and_press_commute_on_log(state: NavState, key: Key, packet: Seq<char>)
    ensures
        state.press(key).receive(packet).records == state.receive(packet).press(key).records,
{
}

/// A frame that is shorter than a link-layer header adds nothing to what the
/// capture side sends, wherever it stands among the frames.
pub proof fn short_frame_adds_no_description(
    before: Seq<Seq<u8>>,
    short: Seq<u8>,
    after: Seq<Seq<u8>>,
)
    requires
        short.len() < MIN_FRAME_LEN,
    ensures
        descriptions(before.push(short) + after) == descriptions(before + after),
    decreases after.len(),
{
    if after.len() == 0 {
        assert(before.push(short) + after =~= before.push(short));
        assert(before + after =~= before);
        assert(before.push(short).drop_last() =~= before);
    } else {
        assert((before.push(short) + after).drop_last() =~= before.push(short) + after.drop_last());
        assert((before + after).drop_last() =~= before + after.drop_last());
        short_frame_adds_no_description(before, short, after.drop_last());
    }
}

/// Frames that are all shorter than a link-layer header never reach the log:
/// the state that takes in what was captured is the state before.
pub proof fn short_frames_never_reach_log(state: NavState, frames: Seq<Seq<u8>>)
    requires
        forall|i: int| 0 <= i < frames.len() ==> (#[trigger] frames[i]).len() < MIN_FRAME_LEN,
    ensures
        descriptions(frames) == Seq::<Seq<char>>::empty(),
        state.receive_all(descriptions(frames)) == state,
    decreases frames.len(),
{
    if frames.len() > 0 {
        assert(frames[frames.len() - 1].len() < MIN_FRAME_LEN);
        short_frames_never_reach_log(state, frames.drop_last());
    }
    assert(state.receive_all(Seq::<Seq<char>>::empty()).records =~= state.records);
}

/// The log grows by one record for each captured frame that has a whole
/// header, and by none for the others.
pub proof fn log_counts_whole_frames(state: NavState, frames: Seq<Seq<u8>>)
    ensures
        state.receive_all(descriptions(frames)).records.len() == state.records.len()
            + frames.filter(|frame: Seq<u8>| frame.len() >= MIN_FRAME_LEN).len(),
    decreases frames.len(),
{
    reveal_with_fuel(Seq::filter, 2);
    if frames.len() > 0 {
        log_counts_whole_frames(state, frames.drop_last());
    }
}

/// A tick keeps the invariant, so after every tick the scroll offset names an
/// existing record (or is zero in an empty log) and so does the selection.
pub proof fn tick_keeps_invariant(
    state: NavState,
    packets: Seq<Seq<char>>,
    key: Option<Key>,
    height: nat,
)
    requires
        state.wf(),
    ensures
        state.tick(packets, key, height).wf(),
        state.tick(packets, key, height).records == state.receive_all(packets).records,
{
    let arrived = state.receive_all(packets);
    arrivals_keep_count_and_order(state, packets);
    if let Some(key) = key {
        press_keeps_invariant(arrived, key);
    }
}

/// After every tick that ends with nothing selected, in a viewport of one
/// row or more, the newest record is on screen.
pub proof fn tick_follows_tail(
    state: NavState,
    packets: Seq<Seq<char>>,
    key: Option<Key>,
    height: nat,
)
    requires
        state.wf(),
        height > 0,
        state.tick(packets, key, height).selected is None,
        state.tick(packets, key, height).records.len() > 0,
    ensures
        state.tick(packets, key, height).scroll <= state.tick(packets, key, height).records.len()
            - 1 < state.tick(packets, key, height).scroll + height,
{
    let arrived = state.receive_all(packets);
    arrivals_keep_count_and_order(state, packets);
    let pressed = match key {
        Some(key) => arrived.press(key),
        None => arrived,
    };
    if let Some(key) = key {
        press_keeps_invariant(arrived, key);
    }
    tail_follow_shows_newest(pressed, height);
}

/// Over two ticks the log takes in what arrived during both, in order,
/// whichever keys were pressed and however the arrivals fell on the ticks.
pub proof fn ticks_keep_arrivals(
    state: NavState,
    first: Seq<Seq<char>>,
    first_key: Option<Key>,
    then: Seq<Seq<char>>,
    then_key: Option<Key>,
    height: nat,
)
    requires
        state.wf(),
    ensures
        state.tick(first, first_key, height).tick(then, then_key, height).records
            == state.receive_all(first + then).records,
{
    let after_first = state.tick(first, first_key, height);
    tick_keeps_invariant(state, first, first_key, height);
    tick_keeps_invariant(after_first, then, then_key, height);
    assert(after_first.receive_all(then).records =~= state.receive_all(first + then).records);
}

} // verus!
