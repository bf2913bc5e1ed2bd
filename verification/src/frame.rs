//! The frame assembler: a pure state machine that turns a stream of
//! (half-word, channel side) events into whole stereo frames, and the
//! mirror image that turns pending frames into the half-word stream a
//! transmitter must write.
//!
//! A frame is one stereo sample pair. At 32 bits per channel each channel
//! value travels as two half-words, most significant first, so a frame takes
//! four register transfers; at 16 bits per channel one half-word is one
//! whole channel value and a frame takes two transfers.

use vstd::prelude::*;

verus! {

/// Which stereo slot the hardware is presenting for the current transfer.
#[derive(Copy, Clone, PartialEq, Eq, Structural, Debug)]
pub enum Channel {
    Left,
    Right,
}

/// Which half-word of which channel the assembler expects next.
///
/// At 16 bits per channel only `LeftMsb` and `RightMsb` ever arise; the
/// `Lsb` states are used only at 32 bits per channel.
#[derive(Copy, Clone, PartialEq, Eq, Structural, Debug)]
pub enum FrameState {
    LeftMsb,
    LeftLsb,
    RightMsb,
    RightLsb,
}

impl Default for FrameState {
    /// A transfer always starts expecting the most significant left half.
    fn default() -> (r: Self)
        ensures
            r == FrameState::LeftMsb,
    {
        FrameState::LeftMsb
    }
}

/// Bits per channel sample of the active configuration.
#[derive(Copy, Clone, PartialEq, Eq, Structural, Debug)]
pub enum Width {
    Bits16,
    Bits32,
}

/// One stereo frame: the accumulator pair under construction (receive) or
/// the sample being emitted (transmit). At 16 bits per channel only the low
/// halves of `left` and `right` carry data.
#[derive(Copy, Clone, PartialEq, Eq, Structural, Debug)]
pub struct Frame {
    pub left: u32,
    pub right: u32,
}

/// A channel value rebuilt from its two half-words, most significant first.
pub open spec fn combine_halves(msb: u16, lsb: u16) -> u32 {
    ((msb as u32) << 16) | (lsb as u32)
}

/// The most significant half-word of a channel value.
pub open spec fn upper_half(x: u32) -> u16 {
    (x >> 16) as u16
}

/// The least significant half-word of a channel value.
pub open spec fn lower_half(x: u32) -> u16 {
    (x & 0xFFFF) as u16
}

/// Whether `(state, side)` is a row of the transition table for width `w`.
/// A pair outside the table means the hardware and the tracked position
/// have diverged (overrun or underrun lost a half-word).
pub open spec fn table_match(w: Width, s: FrameState, c: Channel) -> bool {
    match (s, c) {
        (FrameState::LeftMsb, Channel::Left) => true,
        (FrameState::LeftLsb, Channel::Left) => w == Width::Bits32,
        (FrameState::RightMsb, Channel::Right) => true,
        (FrameState::RightLsb, Channel::Right) => w == Width::Bits32,
        _ => false,
    }
}

/// Whether `(state, side)` is a row of the transition table for width `w`.
pub fn table_match_exec(w: Width, s: FrameState, c: Channel) -> (r: bool)
    ensures
        r == table_match(w, s, c),
{
    match (s, c) {
        (FrameState::LeftMsb, Channel::Left) => true,
        (FrameState::LeftLsb, Channel::Left) => matches!(w, Width::Bits32),
        (FrameState::RightMsb, Channel::Right) => true,
        (FrameState::RightLsb, Channel::Right) => matches!(w, Width::Bits32),
        _ => false,
    }
}

/// The successor state of a table row.
pub open spec fn table_next(w: Width, s: FrameState) -> FrameState {
    match (w, s) {
        (Width::Bits32, FrameState::LeftMsb) => FrameState::LeftLsb,
        (Width::Bits16, FrameState::LeftMsb) => FrameState::RightMsb,
        (_, FrameState::LeftLsb) => FrameState::RightMsb,
        (Width::Bits32, FrameState::RightMsb) => FrameState::RightLsb,
        (Width::Bits16, FrameState::RightMsb) => FrameState::LeftMsb,
        (_, FrameState::RightLsb) => FrameState::LeftMsb,
    }
}

/// Whether a table row finishes a frame: its successor wraps to `LeftMsb`.
pub open spec fn table_complete(w: Width, s: FrameState, c: Channel) -> bool {
    table_match(w, s, c) && table_next(w, s) == FrameState::LeftMsb
}

/// The state after one step, in either direction: the table successor on a
/// match, else a forced resynchronization to `LeftMsb`.
pub open spec fn step_next_state(w: Width, s: FrameState, c: Channel) -> FrameState {
    if table_match(w, s, c) {
        table_next(w, s)
    } else {
        FrameState::LeftMsb
    }
}

/// The accumulator after a received half-word lands in a matching row.
pub open spec fn rx_accum(w: Width, s: FrameState, f: Frame, data: u16) -> Frame {
    match (w, s) {
        (Width::Bits32, FrameState::LeftMsb) => Frame { left: (data as u32) << 16, right: f.right },
        (Width::Bits32, FrameState::LeftLsb) => Frame { left: f.left | (data as u32), right: f.right },
        (Width::Bits32, FrameState::RightMsb) => Frame { left: f.left, right: (data as u32) << 16 },
        (Width::Bits32, FrameState::RightLsb) => Frame { left: f.left, right: f.right | (data as u32) },
        (Width::Bits16, FrameState::LeftMsb) => Frame { left: data as u32, right: f.right },
        (Width::Bits16, FrameState::RightMsb) => Frame { left: f.left, right: data as u32 },
        (Width::Bits16, _) => f,
    }
}

/// The accumulator after one receive step: updated on a match, discarded on
/// a mismatch.
pub open spec fn rx_next_frame(w: Width, s: FrameState, f: Frame, c: Channel, data: u16) -> Frame {
    if table_match(w, s, c) {
        rx_accum(w, s, f, data)
    } else {
        Frame { left: 0, right: 0 }
    }
}

/// The frame a receive step emits: the finished accumulator exactly when
/// the step completes a frame.
pub open spec fn rx_emitted(w: Width, s: FrameState, f: Frame, c: Channel, data: u16) -> Option<
    Frame,
> {
    if table_complete(w, s, c) {
        Some(rx_accum(w, s, f, data))
    } else {
        None
    }
}

/// One receive step of the frame assembler.
///
/// The caller hands in the half-word just read and the channel side the
/// hardware reported; the assembler advances its expected position, folds
/// the half-word into the accumulator and, on the last half-word of a
/// frame, returns the whole frame. A `(state, side)` pair outside the
/// table resynchronizes to `LeftMsb` and discards the partial accumulator.
pub fn receive_step(width: Width, state: &mut FrameState, frame: &mut Frame, side: Channel, data: u16) -> (done: Option<Frame>)
    ensures
        *final(state) == step_next_state(width, *old(state), side),
        *final(frame) == rx_next_frame(width, *old(state), *old(frame), side, data),
        done == rx_emitted(width, *old(state), *old(frame), side, data),
{
    match (width, *state, side) {
        (Width::Bits32, FrameState::LeftMsb, Channel::Left) => {
            frame.left = (data as u32) << 16;
            *state = FrameState::LeftLsb;
            None
        },
        (Width::Bits32, FrameState::LeftLsb, Channel::Left) => {
            frame.left = frame.left | (data as u32);
            *state = FrameState::RightMsb;
            None
        },
        (Width::Bits32, FrameState::RightMsb, Channel::Right) => {
            frame.right = (data as u32) << 16;
            *state = FrameState::RightLsb;
            None
        },
        (Width::Bits32, FrameState::RightLsb, Channel::Right) => {
            frame.right = frame.right | (data as u32);
            *state = FrameState::LeftMsb;
            Some(*frame)
        },
        (Width::Bits16, FrameState::LeftMsb, Channel::Left) => {
            frame.left = data as u32;
            *state = FrameState::RightMsb;
            None
        },
        (Width::Bits16, FrameState::RightMsb, Channel::Right) => {
            frame.right = data as u32;
            *state = FrameState::LeftMsb;
            Some(*frame)
        },
        _ => {
            *state = FrameState::LeftMsb;
            *frame = Frame { left: 0, right: 0 };
            None
        },
    }
}

/// Whether the next transmit step will consume a new pending sample:
/// exactly at the start of a frame, on the matching left slot.
pub open spec fn tx_wants(s: FrameState, c: Channel) -> bool {
    s == FrameState::LeftMsb && c == Channel::Left
}

/// The sample register after one transmit step: loaded with the pending
/// sample at a frame start, kept on the later rows, discarded on a
/// mismatch.
pub open spec fn tx_next_frame(w: Width, s: FrameState, f: Frame, c: Channel, next: Frame) -> Frame {
    if !table_match(w, s, c) {
        Frame { left: 0, right: 0 }
    } else if tx_wants(s, c) {
        next
    } else {
        f
    }
}

/// The half-word a transmit step writes: the table row's half of the
/// sample, or a zero half-word on a mismatch so that the slot carries
/// silence rather than a second underrun.
pub open spec fn tx_data(w: Width, s: FrameState, f: Frame, c: Channel, next: Frame) -> u16 {
    if !table_match(w, s, c) {
        0
    } else {
        match (w, s) {
            (Width::Bits32, FrameState::LeftMsb) => upper_half(next.left),
            (Width::Bits32, FrameState::LeftLsb) => lower_half(f.left),
            (Width::Bits32, FrameState::RightMsb) => upper_half(f.right),
            (Width::Bits32, FrameState::RightLsb) => lower_half(f.right),
            (Width::Bits16, FrameState::LeftMsb) => lower_half(next.left),
            (Width::Bits16, FrameState::RightMsb) => lower_half(f.right),
            (Width::Bits16, _) => 0,
        }
    }
}

/// Whether the next transmit step consumes a new pending sample. The
/// caller dequeues one exactly when this holds, before calling
/// [`transmit_step`].
pub fn transmit_wants_sample(state: &FrameState, side: Channel) -> (r: bool)
    ensures
        r == tx_wants(*state, side),
{
    match (*state, side) {
        (FrameState::LeftMsb, Channel::Left) => true,
        _ => false,
    }
}

/// One transmit step of the frame assembler: the mirror of
/// [`receive_step`].
///
/// `next` is the pending sample to start emitting; it is read exactly when
/// [`transmit_wants_sample`] held before the call, and ignored otherwise.
/// The returned half-word is what the caller must write to the data
/// register. A `(state, side)` pair outside the table resynchronizes to
/// `LeftMsb`, discards the sample register and emits silence.
pub fn transmit_step(width: Width, state: &mut FrameState, frame: &mut Frame, side: Channel, next: Frame) -> (data: u16)
    ensures
        *final(state) == step_next_state(width, *old(state), side),
        *final(frame) == tx_next_frame(width, *old(state), *old(frame), side, next),
        data == tx_data(width, *old(state), *old(frame), side, next),
{
    match (width, *state, side) {
        (Width::Bits32, FrameState::LeftMsb, Channel::Left) => {
            *frame = next;
            *state = FrameState::LeftLsb;
            upper_half_exec(frame.left)
        },
        (Width::Bits32, FrameState::LeftLsb, Channel::Left) => {
            *state = FrameState::RightMsb;
            lower_half_exec(frame.left)
        },
        (Width::Bits32, FrameState::RightMsb, Channel::Right) => {
            *state = FrameState::RightLsb;
            upper_half_exec(frame.right)
        },
        (Width::Bits32, FrameState::RightLsb, Channel::Right) => {
            *state = FrameState::LeftMsb;
            lower_half_exec(frame.right)
        },
        (Width::Bits16, FrameState::LeftMsb, Channel::Left) => {
            *frame = next;
            *state = FrameState::RightMsb;
            lower_half_exec(frame.left)
        },
        (Width::Bits16, FrameState::RightMsb, Channel::Right) => {
            *state = FrameState::LeftMsb;
            lower_half_exec(frame.right)
        },
        _ => {
            *state = FrameState::LeftMsb;
            *frame = Frame { left: 0, right: 0 };
            0
        },
    }
}

/// The most significant half-word of a channel value.
pub fn upper_half_exec(x: u32) -> (r: u16)
    ensures
        r == upper_half(x),
{
    proof {
        assert(x >> 16 < 0x10000) by (bit_vector);
    }
    (x >> 16) as u16
}

/// The least significant half-word of a channel value.
pub fn lower_half_exec(x: u32) -> (r: u16)
    ensures
        r == lower_half(x),
{
    proof {
        assert(x & 0xFFFF < 0x10000) by (bit_vector);
    }
    (x & 0xFFFF) as u16
}

} // verus!
