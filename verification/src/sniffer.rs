//! The capture side: which frames are worth showing, and the line of text that
//! stands for one.

use crate::channel::send;
use crate::text::{decimal, push_decimal};
use std::sync::mpsc::Sender;
use vstd::prelude::*;

verus! {

/// The length of a link-layer header: two hardware addresses and a type
/// field. A shorter frame cannot be described.
pub const MIN_FRAME_LEN: usize = 14;

/// The length of one hardware address.
pub const ADDRESS_LEN: usize = 6;

/// The bytes as decimal numbers, separated by a comma and a space.
pub open spec fn byte_items(bytes: Seq<u8>) -> Seq<char>
    decreases bytes.len(),
{
    if bytes.len() == 0 {
        Seq::empty()
    } else if bytes.len() == 1 {
        decimal(bytes[0] as nat)
    } else {
        byte_items(bytes.drop_last()) + seq![',', ' '] + decimal(bytes.last() as nat)
    }
}

/// The bytes as a bracketed list of decimal numbers: `[1, 2, 3]`.
pub open spec fn byte_list(bytes: Seq<u8>) -> Seq<char> {
    seq!['['] + byte_items(bytes) + seq![']']
}

/// The line that stands for a frame: the list of its first six bytes, an
/// arrow, and the list of its next six bytes.
pub open spec fn frame_summary(frame: Seq<u8>) -> Seq<char>
    recommends
        frame.len() >= 2 * ADDRESS_LEN,
{
    byte_list(frame.subrange(0, ADDRESS_LEN as int)) + seq![' ', '-', '>', ' '] + byte_list(
        frame.subrange(ADDRESS_LEN as int, 2 * ADDRESS_LEN),
    )
}

/// The descriptions of a run of captured frames: one for each frame that has
/// a whole header, in the order of capture, and none for the others.
pub open spec fn descriptions(frames: Seq<Seq<u8>>) -> Seq<Seq<char>>
    decreases frames.len(),
{
    if frames.len() == 0 {
        Seq::empty()
    } else if frames.last().len() >= MIN_FRAME_LEN {
        descriptions(frames.drop_last()).push(frame_summary(frames.last()))
    } else {
        descriptions(frames.drop_last())
    }
}

/// Appends the bracketed list of `bytes[from..to]` to `out`.
fn push_byte_list(out: &mut String, bytes: &[u8], from: usize, to: usize)
    requires
        from <= to <= bytes@.len(),
    ensures
        final(out)@ == old(out)@ + byte_list(bytes@.subrange(from as int, to as int)),
{
    out.push('[');
    let mut i: usize = from;
    while i < to
        invariant
            from <= i <= to <= bytes@.len(),
            out@ == old(out)@ + seq!['['] + byte_items(bytes@.subrange(from as int, i as int)),
        decreases to - i,
    {
        let ghost done = bytes@.subrange(from as int, i as int);
        let ghost next = bytes@.subrange(from as int, i + 1);
        assert(next.drop_last() == done);
        assert(next.last() == bytes@[i as int]);
        if i > from {
            out.push(',');
            out.push(' ');
        }
        push_decimal(out, bytes[i] as u64);
        assert(out@ == old(out)@ + seq!['['] + byte_items(next));
        i = i + 1;
    }
    out.push(']');
}

/// The line of text that stands for `frame`, or `None` for a frame that is
/// shorter than a link-layer header.
pub fn describe_frame(frame: &[u8]) -> (summary: Option<String>)
    ensures
        frame@.len() < MIN_FRAME_LEN ==> summary is None,
        frame@.len() >= MIN_FRAME_LEN ==> summary is Some && summary.unwrap()@ == frame_summary(
            frame@,
        ),
{
    if frame.len() < MIN_FRAME_LEN {
        return None;
    }
    let mut text = String::new();
    push_byte_list(&mut text, frame, 0, ADDRESS_LEN);
    text.push(' ');
    text.push('-');
    text.push('>');
    text.push(' ');
    push_byte_list(&mut text, frame, ADDRESS_LEN, 2 * ADDRESS_LEN);
    assert(text@ == frame_summary(frame@));
    Some(text)
}

/// What became of a captured frame.
#[derive(Clone, Copy, Debug, PartialEq, Eq, Structural)]
pub enum Forwarded {
    /// Its description is on the channel.
    Sent,
    /// It was shorter than a link-layer header and was dropped.
    TooShort,
    /// Nobody receives any more: the capture loop has no reason to go on.
    ReceiverGone,
}

/// Describes `frame` and sends the description to the viewer. A frame that is
/// too short is dropped and nothing is sent.
pub fn forward_frame(tx: &Sender<String>, frame: &[u8]) -> (outcome: Forwarded)
    ensures
        outcome == Forwarded::TooShort <==> frame@.len() < MIN_FRAME_LEN,
{
    match describe_frame(frame) {
        Some(text) => {
            if send(tx, text) {
                Forwarded::Sent
            } else {
                Forwarded::ReceiverGone
            }
        },
        None => Forwarded::TooShort,
    }
}

} // verus!
