//! End-to-end scenarios: a transmit adapter and a receive adapter wired
//! back to back over simulated interrupts, as the two peripherals are
//! wired on the board.

use i2s_frames::driver::DriverMode;
use i2s_frames::driver::DriverWrap;
use i2s_frames::frame::Channel;
use i2s_frames::frame::Frame;
use i2s_frames::pattern::check_result;
use i2s_frames::queue::RxQueue;
use i2s_frames::queue::TxQueue;

fn fr(left: u32, right: u32) -> Frame {
    Frame { left, right }
}

fn pattern_32() -> Vec<Frame> {
    vec![
        fr(0x1111_3333, 0x7777_EEEE),
        fr(0x2222_4444, 0x5555_6666),
        fr(0x8888_9999, 0xAAAA_BBBB),
        fr(0xCCCC_DDDD, 0x1000_2000),
        fr(0x3000_4000, 0x5000_6000),
        fr(0x7000_8000, 0x9000_A000),
        fr(0xB000_C000, 0xD000_E000),
        fr(0x0123_4567, 0x89AB_CDEF),
    ]
}

fn status_txe(chside: Channel) -> i2s_frames::driver::Status {
    i2s_frames::driver::Status {
        txe: true,
        rxne: false,
        chside,
        fre: false,
        udr: false,
        ovr: false,
    }
}

fn status_rxne(chside: Channel) -> i2s_frames::driver::Status {
    i2s_frames::driver::Status {
        txe: false,
        rxne: true,
        chside,
        fre: false,
        udr: false,
        ovr: false,
    }
}

/// One simulated data slot: the transmitter's interrupt runs first and
/// writes its half-word to the wire, then the receiver's interrupt reads
/// the same half-word; both see the same channel side.
fn run_slot(
    tx: &mut DriverWrap,
    txq: &mut TxQueue,
    rx: &mut DriverWrap,
    rxq: &mut RxQueue,
    side: Channel,
    now: u32,
) {
    let ta = tx.transmit_interrupt_handler(status_txe(side), txq);
    let wire = ta.write_data.expect("transmit slot must write");
    rx.receive_interrupt_handler(status_rxne(side), wire, now, rxq);
}

#[test]
fn master_receive_slave_transmit_32bits_end_to_end() {
    let pattern = pattern_32();
    let mut tx = DriverWrap::new(Some(DriverMode::SlaveTransmit32bits));
    let mut rx = DriverWrap::new(Some(DriverMode::MasterReceive32bits));
    let mut txq = TxQueue::new();
    let mut rxq = RxQueue::new();
    for f in &pattern {
        assert!(txq.enqueue(*f));
    }
    let sides = [Channel::Left, Channel::Left, Channel::Right, Channel::Right];
    let mut now = 0;
    for _ in 0..pattern.len() {
        for side in sides {
            run_slot(&mut tx, &mut txq, &mut rx, &mut rxq, side, now);
            now += 1;
        }
    }
    // Every frame crossed the wire and arrived in order.
    let mut received = Vec::new();
    while let Some(e) = rxq.dequeue() {
        received.push(e);
    }
    assert_eq!(received.len(), pattern.len());
    for (e, f) in received.iter().zip(pattern.iter()) {
        assert_eq!(e.1, *f);
    }
    // Timestamps come from the completing slots, in order.
    for w in received.windows(2) {
        assert!(w[0].0 < w[1].0);
    }
    assert!(check_result(&received, &pattern));
}

#[test]
fn slave_receive_master_transmit_32bits_end_to_end() {
    let pattern = pattern_32();
    let mut tx = DriverWrap::new(Some(DriverMode::MasterTransmit32bits));
    let mut rx = DriverWrap::new(Some(DriverMode::SlaveReceive32bits));
    let mut txq = TxQueue::new();
    let mut rxq = RxQueue::new();
    for f in &pattern {
        assert!(txq.enqueue(*f));
    }
    let sides = [Channel::Left, Channel::Left, Channel::Right, Channel::Right];
    let mut now = 0;
    for _ in 0..pattern.len() {
        for side in sides {
            run_slot(&mut tx, &mut txq, &mut rx, &mut rxq, side, now);
            now += 1;
        }
    }
    let mut received = Vec::new();
    while let Some((_, f)) = rxq.dequeue() {
        received.push(f);
    }
    assert_eq!(received, pattern);
}

#[test]
fn cold_start_misalignment_drops_one_leading_frame() {
    // The receiver comes up in the middle of the first frame: the first
    // slot it sees is a right slot. The out-of-table pair resynchronizes
    // it, the first pattern entry is lost, and everything after matches
    // exactly.
    let pattern = pattern_32();
    let mut tx = DriverWrap::new(Some(DriverMode::SlaveTransmit32bits));
    let mut rx = DriverWrap::new(Some(DriverMode::MasterReceive32bits));
    let mut txq = TxQueue::new();
    let mut rxq = RxQueue::new();
    for f in &pattern {
        assert!(txq.enqueue(*f));
    }
    let sides = [Channel::Left, Channel::Left, Channel::Right, Channel::Right];
    let mut now = 0;
    for (g, _) in pattern.iter().enumerate() {
        for (i, side) in sides.iter().enumerate() {
            // The receiver misses the first two (left) slots entirely.
            let ta = tx.transmit_interrupt_handler(status_txe(*side), &mut txq);
            let wire = ta.write_data.expect("transmit slot must write");
            if g > 0 || i >= 2 {
                rx.receive_interrupt_handler(status_rxne(*side), wire, now, &mut rxq);
            }
            now += 1;
        }
    }
    let mut received = Vec::new();
    while let Some((_, f)) = rxq.dequeue() {
        received.push(f);
    }
    // Exactly one leading discard, then an exact match of the remainder.
    assert_eq!(received, pattern[1..].to_vec());
}

#[test]
fn master_receive_slave_transmit_16bits_end_to_end() {
    // The 16-bit session: the same pattern truncated to 16-bit values,
    // seven entries, and only two interrupt events per sample.
    let pattern: Vec<Frame> = pattern_32()
        .iter()
        .take(7)
        .map(|f| fr(f.left >> 16, f.right >> 16))
        .collect();
    let mut tx = DriverWrap::new(Some(DriverMode::SlaveTransmit16bits));
    let mut rx = DriverWrap::new(Some(DriverMode::MasterReceive16bits));
    let mut txq = TxQueue::new();
    let mut rxq = RxQueue::new();
    for f in &pattern {
        assert!(txq.enqueue(*f));
    }
    let sides = [Channel::Left, Channel::Right];
    let mut events = 0;
    let mut now = 0;
    for _ in 0..pattern.len() {
        for side in sides {
            run_slot(&mut tx, &mut txq, &mut rx, &mut rxq, side, now);
            events += 1;
            now += 1;
        }
    }
    // Two interrupt events per sample, not four.
    assert_eq!(events, 2 * pattern.len());
    let mut received = Vec::new();
    while let Some((_, f)) = rxq.dequeue() {
        received.push(f);
    }
    assert_eq!(received, pattern);
    // No Lsb state was ever exercised: every sample fits one half-word.
    assert!(received.iter().all(|f| f.left < 0x10000 && f.right < 0x10000));
}
