//! The properties the protocol core guarantees, stated over the spec-level
//! transition tables and proved once and for all: the documented tables row
//! by row, frame throughput of an aligned receive stream, the transmit /
//! receive round trip, and the uniform reset on out-of-table pairs.

use vstd::prelude::*;

use crate::driver::after_dequeue;
use crate::driver::pending_sample;
use crate::frame::Channel;
use crate::frame::Frame;
use crate::frame::FrameState;
use crate::frame::Width;
use crate::frame::combine_halves;
use crate::frame::lower_half;
use crate::frame::rx_emitted;
use crate::frame::rx_next_frame;
use crate::frame::step_next_state;
use crate::frame::table_complete;
use crate::frame::table_match;
use crate::frame::table_next;
use crate::frame::tx_data;
use crate::frame::tx_next_frame;
use crate::frame::tx_wants;
use crate::frame::upper_half;

verus! {

/// The receive assembler run from `(s, f)` over a sequence of
/// (channel side, half-word) events: the final state, the final
/// accumulator, and every frame emitted, in order.
pub open spec fn rx_run(w: Width, s: FrameState, f: Frame, events: Seq<(Channel, u16)>) -> (
    FrameState,
    Frame,
    Seq<Frame>,
)
    decreases events.len(),
{
    if events.len() == 0 {
        (s, f, Seq::<Frame>::empty())
    } else {
        let prior = rx_run(w, s, f, events.drop_last());
        let e = events.last();
        let emitted = rx_emitted(w, prior.0, prior.1, e.0, e.1);
        (
            step_next_state(w, prior.0, e.0),
            rx_next_frame(w, prior.0, prior.1, e.0, e.1),
            if emitted is Some {
                prior.2.push(emitted.unwrap())
            } else {
                prior.2
            },
        )
    }
}

/// The transmit assembler run from `(s, f)` over a sequence of channel
/// sides, drawing on `pending` exactly at frame starts: the final state,
/// the final sample register, the samples still pending, and every
/// half-word written, in order.
pub open spec fn tx_run(
    w: Width,
    s: FrameState,
    f: Frame,
    pending: Seq<Frame>,
    sides: Seq<Channel>,
) -> (FrameState, Frame, Seq<Frame>, Seq<u16>)
    decreases sides.len(),
{
    if sides.len() == 0 {
        (s, f, pending, Seq::<u16>::empty())
    } else {
        let prior = tx_run(w, s, f, pending, sides.drop_last());
        let c = sides.last();
        let sample = pending_sample(prior.2);
        (
            step_next_state(w, prior.0, c),
            tx_next_frame(w, prior.0, prior.1, c, sample),
            if tx_wants(prior.0, c) {
                after_dequeue(prior.2)
            } else {
                prior.2
            },
            prior.3.push(tx_data(w, prior.0, prior.1, c, sample)),
        )
    }
}

/// The 32-bit transition table, row by row, receive and transmit: every
/// valid `(state, side)` pair, its successor, its accumulator effect, the
/// half-word it emits, and which row completes a frame. Being equations of
/// total functions, the transitions are deterministic; no pair outside
/// these four rows matches.
pub proof fn lemma_transition_table_32(f: Frame, next: Frame, d: u16)
    ensures
        table_match(Width::Bits32, FrameState::LeftMsb, Channel::Left),
        table_match(Width::Bits32, FrameState::LeftLsb, Channel::Left),
        table_match(Width::Bits32, FrameState::RightMsb, Channel::Right),
        table_match(Width::Bits32, FrameState::RightLsb, Channel::Right),
        forall|s: FrameState, c: Channel|
            table_match(Width::Bits32, s, c) <==> (s == FrameState::LeftMsb && c == Channel::Left)
                || (s == FrameState::LeftLsb && c == Channel::Left) || (s == FrameState::RightMsb
                && c == Channel::Right) || (s == FrameState::RightLsb && c == Channel::Right),
        table_next(Width::Bits32, FrameState::LeftMsb) == FrameState::LeftLsb,
        table_next(Width::Bits32, FrameState::LeftLsb) == FrameState::RightMsb,
        table_next(Width::Bits32, FrameState::RightMsb) == FrameState::RightLsb,
        table_next(Width::Bits32, FrameState::RightLsb) == FrameState::LeftMsb,
        rx_next_frame(Width::Bits32, FrameState::LeftMsb, f, Channel::Left, d) == (Frame {
            left: (d as u32) << 16,
            right: f.right,
        }),
        rx_next_frame(Width::Bits32, FrameState::LeftLsb, f, Channel::Left, d) == (Frame {
            left: f.left | (d as u32),
            right: f.right,
        }),
        rx_next_frame(Width::Bits32, FrameState::RightMsb, f, Channel::Right, d) == (Frame {
            left: f.left,
            right: (d as u32) << 16,
        }),
        rx_next_frame(Width::Bits32, FrameState::RightLsb, f, Channel::Right, d) == (Frame {
            left: f.left,
            right: f.right | (d as u32),
        }),
        !table_complete(Width::Bits32, FrameState::LeftMsb, Channel::Left),
        !table_complete(Width::Bits32, FrameState::LeftLsb, Channel::Left),
        !table_complete(Width::Bits32, FrameState::RightMsb, Channel::Right),
        table_complete(Width::Bits32, FrameState::RightLsb, Channel::Right),
        tx_data(Width::Bits32, FrameState::LeftMsb, f, Channel::Left, next) == upper_half(
            next.left,
        ),
        tx_data(Width::Bits32, FrameState::LeftLsb, f, Channel::Left, next) == lower_half(f.left),
        tx_data(Width::Bits32, FrameState::RightMsb, f, Channel::Right, next) == upper_half(
            f.right,
        ),
        tx_data(Width::Bits32, FrameState::RightLsb, f, Channel::Right, next) == lower_half(
            f.right,
        ),
{
}

/// The 16-bit transition table, row by row: only the two `Msb` states
/// arise, one half-word completes one channel, and two half-words complete
/// a frame.
pub proof fn lemma_transition_table_16(f: Frame, next: Frame, d: u16)
    ensures
        forall|s: FrameState, c: Channel|
            table_match(Width::Bits16, s, c) <==> (s == FrameState::LeftMsb && c == Channel::Left)
                || (s == FrameState::RightMsb && c == Channel::Right),
        table_next(Width::Bits16, FrameState::LeftMsb) == FrameState::RightMsb,
        table_next(Width::Bits16, FrameState::RightMsb) == FrameState::LeftMsb,
        rx_next_frame(Width::Bits16, FrameState::LeftMsb, f, Channel::Left, d) == (Frame {
            left: d as u32,
            right: f.right,
        }),
        rx_next_frame(Width::Bits16, FrameState::RightMsb, f, Channel::Right, d) == (Frame {
            left: f.left,
            right: d as u32,
        }),
        !table_complete(Width::Bits16, FrameState::LeftMsb, Channel::Left),
        table_complete(Width::Bits16, FrameState::RightMsb, Channel::Right),
        tx_data(Width::Bits16, FrameState::LeftMsb, f, Channel::Left, next) == lower_half(
            next.left,
        ),
        tx_data(Width::Bits16, FrameState::RightMsb, f, Channel::Right, next) == lower_half(
            f.right,
        ),
{
}

/// Any `(state, side)` pair outside the table recovers uniformly,
/// whatever state it was injected from: the next state is `LeftMsb`, the
/// accumulator is discarded, nothing is emitted, and a transmitter writes
/// a zero half-word.
pub proof fn lemma_error_recovery_resets(
    w: Width,
    s: FrameState,
    f: Frame,
    c: Channel,
    d: u16,
    next: Frame,
)
    requires
        !table_match(w, s, c),
    ensures
        step_next_state(w, s, c) == FrameState::LeftMsb,
        rx_next_frame(w, s, f, c, d) == (Frame { left: 0, right: 0 }),
        rx_emitted(w, s, f, c, d) is None,
        tx_next_frame(w, s, f, c, next) == (Frame { left: 0, right: 0 }),
        tx_data(w, s, f, c, next) == 0,
{
}

/// The channel side a correct 32-bit stream presents for its `i`-th
/// half-word, counted from an aligned frame start: two lefts, then two
/// rights.
pub open spec fn rx32_side(i: int) -> Channel {
    if i % 4 == 0 || i % 4 == 1 {
        Channel::Left
    } else {
        Channel::Right
    }
}

/// A correct 32-bit receive stream carrying the half-words `data`.
pub open spec fn rx32_events(data: Seq<u16>) -> Seq<(Channel, u16)> {
    Seq::new(data.len(), |i: int| (rx32_side(i), data[i]))
}

/// The `g`-th whole frame carried by an aligned 32-bit stream.
pub open spec fn rx32_frame(data: Seq<u16>, g: int) -> Frame {
    Frame {
        left: combine_halves(data[4 * g], data[4 * g + 1]),
        right: combine_halves(data[4 * g + 2], data[4 * g + 3]),
    }
}

/// The assembler state after `p` correct half-words of the current frame.
pub open spec fn rx32_phase_state(p: int) -> FrameState {
    if p == 0 {
        FrameState::LeftMsb
    } else if p == 1 {
        FrameState::LeftLsb
    } else if p == 2 {
        FrameState::RightMsb
    } else {
        FrameState::RightLsb
    }
}

/// Frame throughput of a correct 32-bit receive stream: over any `n`
/// consecutive correct half-word arrivals from an aligned start, the
/// assembler emits exactly `n / 4` whole frames, the `g`-th being the
/// `g`-th four half-words recombined most-significant-first, in arrival
/// order; and it ends in the state and partial accumulator of the
/// `n % 4` half-words already seen of the next frame.
pub proof fn lemma_rx32_throughput(data: Seq<u16>)
    ensures
        ({
            let r = rx_run(
                Width::Bits32,
                FrameState::LeftMsb,
                Frame { left: 0, right: 0 },
                rx32_events(data),
            );
            let n = data.len() as int;
            &&& r.2.len() == n / 4
            &&& (forall|g: int| 0 <= g < n / 4 ==> r.2[g] == rx32_frame(data, g))
            &&& r.0 == rx32_phase_state(n % 4)
            &&& (n % 4 == 1 ==> r.1.left == (data[n - 1] as u32) << 16)
            &&& (n % 4 == 2 ==> r.1.left == combine_halves(data[n - 2], data[n - 1]))
            &&& (n % 4 == 3 ==> r.1.left == combine_halves(data[n - 3], data[n - 2])
                && r.1.right == (data[n - 1] as u32) << 16)
        }),
    decreases data.len(),
{
    let n = data.len() as int;
    if n == 0 {
        assert(rx32_events(data) =~= Seq::<(Channel, u16)>::empty());
    } else {
        let prev = data.drop_last();
        lemma_rx32_throughput(prev);
        assert(rx32_events(data).drop_last() =~= rx32_events(prev));
        let p = rx_run(
            Width::Bits32,
            FrameState::LeftMsb,
            Frame { left: 0, right: 0 },
            rx32_events(prev),
        );
        let r = rx_run(
            Width::Bits32,
            FrameState::LeftMsb,
            Frame { left: 0, right: 0 },
            rx32_events(data),
        );
        let m = n - 1;
        assert(rx32_events(data).last() == (rx32_side(m), data[m]));
        if m % 4 == 3 {
            assert(n % 4 == 0 && n / 4 == m / 4 + 1);
            assert(4 * (n / 4) == n);
            assert(r.2[n / 4 - 1] == rx32_frame(data, n / 4 - 1));
            assert(forall|g: int| 0 <= g < m / 4 ==> rx32_frame(prev, g) == rx32_frame(data, g));
        } else {
            assert(n % 4 == m % 4 + 1 && n / 4 == m / 4);
            assert(forall|g: int| 0 <= g < m / 4 ==> rx32_frame(prev, g) == rx32_frame(data, g));
        }
    }
}

/// The transmit and receive tables are mirror images: encoding one frame
/// via the 32-bit transmit table from an aligned start, then decoding the
/// four half-words it wrote via the 32-bit receive table, yields the
/// original frame bit for bit.
pub proof fn lemma_round_trip_32(f: Frame)
    ensures
        ({
            let sides = seq![Channel::Left, Channel::Left, Channel::Right, Channel::Right];
            let t = tx_run(
                Width::Bits32,
                FrameState::LeftMsb,
                Frame { left: 0, right: 0 },
                seq![f],
                sides,
            );
            let r = rx_run(
                Width::Bits32,
                FrameState::LeftMsb,
                Frame { left: 0, right: 0 },
                Seq::new(4, |i: int| (sides[i], t.3[i])),
            );
            &&& t.3 == seq![
                upper_half(f.left),
                lower_half(f.left),
                upper_half(f.right),
                lower_half(f.right),
            ]
            &&& t.2 == Seq::<Frame>::empty()
            &&& r.2 == seq![f]
        }),
{
    reveal_with_fuel(tx_run, 5);
    reveal_with_fuel(rx_run, 5);
    let sides = seq![Channel::Left, Channel::Left, Channel::Right, Channel::Right];
    assert(sides.drop_last() =~= seq![Channel::Left, Channel::Left, Channel::Right]);
    assert(sides.drop_last().drop_last() =~= seq![Channel::Left, Channel::Left]);
    assert(sides.drop_last().drop_last().drop_last() =~= seq![Channel::Left]);
    assert(sides.drop_last().drop_last().drop_last().drop_last() =~= Seq::<Channel>::empty());
    let t = tx_run(Width::Bits32, FrameState::LeftMsb, Frame { left: 0, right: 0 }, seq![f], sides);
    assert(after_dequeue(seq![f]) =~= Seq::<Frame>::empty());
    assert(t.3 =~= seq![
        upper_half(f.left),
        lower_half(f.left),
        upper_half(f.right),
        lower_half(f.right),
    ]);
    let events = Seq::new(4, |i: int| (sides[i], t.3[i]));
    assert(events.drop_last() =~= Seq::new(3, |i: int| (sides[i], t.3[i])));
    assert(events.drop_last().drop_last() =~= Seq::new(2, |i: int| (sides[i], t.3[i])));
    assert(events.drop_last().drop_last().drop_last() =~= Seq::new(1, |i: int| (sides[i], t.3[i])));
    assert(events.drop_last().drop_last().drop_last().drop_last() =~= Seq::<(Channel, u16)>::empty());
    let r = rx_run(Width::Bits32, FrameState::LeftMsb, Frame { left: 0, right: 0 }, events);
    assert(((upper_half(f.left) as u32) << 16) | (lower_half(f.left) as u32) == f.left) by {
        let x = f.left;
        assert((((x >> 16) as u16 as u32) << 16) | ((x & 0xFFFF) as u16 as u32) == x)
            by (bit_vector);
    }
    assert(((upper_half(f.right) as u32) << 16) | (lower_half(f.right) as u32) == f.right) by {
        let x = f.right;
        assert((((x >> 16) as u16 as u32) << 16) | ((x & 0xFFFF) as u16 as u32) == x)
            by (bit_vector);
    }
    assert(r.2 =~= seq![f]);
}

/// The 16-bit round trip: encoding a frame whose channel values fit in 16
/// bits via the transmit table, then decoding the two half-words via the
/// receive table, yields the original frame bit for bit.
pub proof fn lemma_round_trip_16(f: Frame)
    requires
        f.left < 0x10000,
        f.right < 0x10000,
    ensures
        ({
            let sides = seq![Channel::Left, Channel::Right];
            let t = tx_run(
                Width::Bits16,
                FrameState::LeftMsb,
                Frame { left: 0, right: 0 },
                seq![f],
                sides,
            );
            let r = rx_run(
                Width::Bits16,
                FrameState::LeftMsb,
                Frame { left: 0, right: 0 },
                Seq::new(2, |i: int| (sides[i], t.3[i])),
            );
            &&& t.3 == seq![lower_half(f.left), lower_half(f.right)]
            &&& t.2 == Seq::<Frame>::empty()
            &&& r.2 == seq![f]
        }),
{
    reveal_with_fuel(tx_run, 3);
    reveal_with_fuel(rx_run, 3);
    let sides = seq![Channel::Left, Channel::Right];
    assert(sides.drop_last() =~= seq![Channel::Left]);
    assert(sides.drop_last().drop_last() =~= Seq::<Channel>::empty());
    let t = tx_run(Width::Bits16, FrameState::LeftMsb, Frame { left: 0, right: 0 }, seq![f], sides);
    assert(after_dequeue(seq![f]) =~= Seq::<Frame>::empty());
    assert(t.3 =~= seq![lower_half(f.left), lower_half(f.right)]);
    let events = Seq::new(2, |i: int| (sides[i], t.3[i]));
    assert(events.drop_last() =~= Seq::new(1, |i: int| (sides[i], t.3[i])));
    assert(events.drop_last().drop_last() =~= Seq::<(Channel, u16)>::empty());
    let r = rx_run(Width::Bits16, FrameState::LeftMsb, Frame { left: 0, right: 0 }, events);
    assert(lower_half(f.left) as u32 == f.left) by {
        let x = f.left;
        assert(x < 0x10000 ==> ((x & 0xFFFF) as u16 as u32) == x) by (bit_vector);
    }
    assert(lower_half(f.right) as u32 == f.right) by {
        let x = f.right;
        assert(x < 0x10000 ==> ((x & 0xFFFF) as u16 as u32) == x) by (bit_vector);
    }
    assert(r.2 =~= seq![f]);
}

} // verus!
