//! Tests for the backpressure queues and the interrupt handler decisions.

use i2s_frames::driver::DriverMode;
use i2s_frames::driver::DriverWrap;
use i2s_frames::driver::ResyncState;
use i2s_frames::driver::Status;
use i2s_frames::frame::Channel;
use i2s_frames::frame::Frame;
use i2s_frames::frame::FrameState;
use i2s_frames::queue::RxQueue;
use i2s_frames::queue::TxQueue;

fn fr(left: u32, right: u32) -> Frame {
    Frame { left, right }
}

fn quiet(chside: Channel) -> Status {
    Status { txe: false, rxne: false, chside, fre: false, udr: false, ovr: false }
}

#[test]
fn tx_queue_is_fifo_and_bounded() {
    let mut q = TxQueue::new();
    assert_eq!(q.len(), 0);
    assert_eq!(q.capacity(), 8);
    for i in 0..8 {
        assert!(q.enqueue(fr(i, i + 100)));
    }
    assert_eq!(q.len(), 8);
    // At capacity the producer fails without blocking and nothing is lost.
    assert!(!q.enqueue(fr(99, 99)));
    assert_eq!(q.len(), 8);
    for i in 0..8 {
        assert_eq!(q.dequeue(), Some(fr(i, i + 100)));
    }
    assert_eq!(q.dequeue(), None);
}

#[test]
fn tx_queue_dequeue_or_silence_never_blocks() {
    let mut q = TxQueue::new();
    assert_eq!(q.dequeue_or_silence(), fr(0, 0));
    assert!(q.enqueue(fr(3, 4)));
    assert_eq!(q.dequeue_or_silence(), fr(3, 4));
    assert_eq!(q.dequeue_or_silence(), fr(0, 0));
}

#[test]
fn rx_queue_keeps_timestamps_in_order() {
    let mut q = RxQueue::new();
    assert_eq!(q.capacity(), 8);
    assert!(q.enqueue(11, fr(1, 2)));
    assert!(q.enqueue(22, fr(3, 4)));
    assert_eq!(q.len(), 2);
    assert_eq!(q.dequeue(), Some((11, fr(1, 2))));
    assert_eq!(q.dequeue(), Some((22, fr(3, 4))));
    assert_eq!(q.dequeue(), None);
}

#[test]
fn transmit_handler_writes_data_and_advances() {
    let mut wrap = DriverWrap::new(Some(DriverMode::MasterTransmit32bits));
    let mut q = TxQueue::new();
    assert!(q.enqueue(fr(0x1111_3333, 0x7777_EEEE)));
    let st = Status { txe: true, ..quiet(Channel::Left) };
    let a = wrap.transmit_interrupt_handler(st, &mut q);
    assert_eq!(a.write_data, Some(0x1111));
    assert!(!a.disable && !a.arm_resync && !a.clear_underrun && !a.clear_overrun);
    assert!(!a.channel_mismatch);
    assert_eq!(wrap.frame_state, FrameState::LeftLsb);
    // The pending sample was consumed at the frame start.
    assert_eq!(q.len(), 0);
}

#[test]
fn transmit_handler_emits_silence_when_queue_empty() {
    let mut wrap = DriverWrap::new(Some(DriverMode::SlaveTransmit32bits));
    let mut q = TxQueue::new();
    let st = Status { txe: true, ..quiet(Channel::Left) };
    let a = wrap.transmit_interrupt_handler(st, &mut q);
    assert_eq!(a.write_data, Some(0));
    let st = Status { txe: true, ..quiet(Channel::Left) };
    let a = wrap.transmit_interrupt_handler(st, &mut q);
    assert_eq!(a.write_data, Some(0));
}

#[test]
fn transmit_handler_underrun_asks_clear_sequence() {
    let mut wrap = DriverWrap::new(Some(DriverMode::SlaveTransmit16bits));
    let mut q = TxQueue::new();
    let st = Status { udr: true, ..quiet(Channel::Left) };
    let a = wrap.transmit_interrupt_handler(st, &mut q);
    assert!(a.clear_underrun);
    assert_eq!(a.write_data, None);
    // The transfer goes on: nothing is disabled, nothing is armed.
    assert!(!a.disable && !a.arm_resync);
}

#[test]
fn slave_frame_error_arms_resynchronization() {
    let mut wrap = DriverWrap::new(Some(DriverMode::SlaveTransmit32bits));
    wrap.frame_state = FrameState::RightLsb;
    wrap.frame = fr(5, 6);
    let mut q = TxQueue::new();
    let st = Status { fre: true, ..quiet(Channel::Left) };
    let a = wrap.transmit_interrupt_handler(st, &mut q);
    assert!(a.arm_resync);
    assert_eq!(wrap.resync, ResyncState::Armed);
    // The error path resets the frame tracking.
    assert_eq!(wrap.frame_state, FrameState::LeftMsb);
    assert_eq!(wrap.frame, fr(0, 0));
    // The armed watcher resumes on a genuine frame-boundary level...
    let w = wrap.transmit_exti_handler(true);
    assert!(w.clear_pending && w.resume && w.preload_zero);
    assert_eq!(wrap.resync, ResyncState::Resynced);
}

#[test]
fn ws_edge_spurious_level_does_not_resume() {
    let mut wrap = DriverWrap::new(Some(DriverMode::SlaveReceive32bits));
    let mut q = RxQueue::new();
    let st = Status { fre: true, ..quiet(Channel::Left) };
    let a = wrap.receive_interrupt_handler(st, 0, 0, &mut q);
    assert!(a.arm_resync);
    // The line is low again: the edge came from another source.
    let w = wrap.receive_exti_handler(false);
    assert!(w.clear_pending && !w.resume && !w.preload_zero);
    assert_eq!(wrap.resync, ResyncState::Armed);
    let w = wrap.receive_exti_handler(true);
    assert!(w.resume && !w.preload_zero);
    assert_eq!(wrap.resync, ResyncState::Resynced);
}

#[test]
fn master_never_arms_on_frame_error_flag() {
    let mut wrap = DriverWrap::new(Some(DriverMode::MasterReceive32bits));
    let mut q = RxQueue::new();
    let st = Status { fre: true, ..quiet(Channel::Left) };
    let a = wrap.receive_interrupt_handler(st, 0, 0, &mut q);
    assert!(!a.arm_resync);
    assert_eq!(wrap.resync, ResyncState::Idle);
    // And the edge watcher for the wrong binding does nothing at all.
    let w = wrap.transmit_exti_handler(true);
    assert!(!w.clear_pending && !w.resume);
}

#[test]
fn receive_handler_overrun_asks_clear_sequence() {
    let mut wrap = DriverWrap::new(Some(DriverMode::MasterReceive16bits));
    let mut q = RxQueue::new();
    let st = Status { ovr: true, ..quiet(Channel::Left) };
    let a = wrap.receive_interrupt_handler(st, 0, 0, &mut q);
    assert!(a.clear_overrun);
    assert!(!a.clear_underrun && !a.disable && !a.arm_resync);
}

#[test]
fn receive_handler_mismatch_reports_and_resets() {
    let mut wrap = DriverWrap::new(Some(DriverMode::MasterReceive32bits));
    let mut q = RxQueue::new();
    let st = Status { rxne: true, ..quiet(Channel::Right) };
    let a = wrap.receive_interrupt_handler(st, 0xABCD, 7, &mut q);
    assert!(a.channel_mismatch);
    assert_eq!(wrap.frame_state, FrameState::LeftMsb);
    assert_eq!(q.len(), 0);
}

#[test]
fn backpressure_full_queue_disables_without_corruption() {
    // Feed whole 16-bit frames until the queue overflows: the producer
    // never blocks, the ninth frame is dropped, the first eight stay
    // intact and the adapter reports the disable.
    let mut wrap = DriverWrap::new(Some(DriverMode::MasterReceive16bits));
    let mut q = RxQueue::new();
    let mut disables = Vec::new();
    for i in 0..9u32 {
        let st = Status { rxne: true, ..quiet(Channel::Left) };
        let a = wrap.receive_interrupt_handler(st, i as u16, 2 * i, &mut q);
        assert!(!a.disable);
        let st = Status { rxne: true, ..quiet(Channel::Right) };
        let a = wrap.receive_interrupt_handler(st, (i + 100) as u16, 2 * i + 1, &mut q);
        disables.push(a.disable);
    }
    // Reported "disabled" as soon as the queue reached capacity, and again
    // when the overflowing push failed.
    assert_eq!(
        disables,
        vec![false, false, false, false, false, false, false, true, true]
    );
    assert_eq!(q.len(), 8);
    for i in 0..8u32 {
        assert_eq!(q.dequeue(), Some((2 * i + 1, fr(i, i + 100))));
    }
    assert_eq!(q.dequeue(), None);
}

#[test]
fn take_and_replace_manage_the_binding() {
    let mut wrap = DriverWrap::new(None);
    assert_eq!(wrap.replace(DriverMode::SlaveReceive16bits), None);
    wrap.frame_state = FrameState::RightMsb;
    wrap.frame = fr(9, 9);
    let released = wrap.take();
    assert_eq!(released, Some(DriverMode::SlaveReceive16bits));
    assert_eq!(wrap.drv, None);
    assert_eq!(wrap.frame_state, FrameState::LeftMsb);
    assert_eq!(wrap.frame, fr(0, 0));
    wrap.frame_state = FrameState::LeftLsb;
    wrap.reset_frame();
    assert_eq!(wrap.frame_state, FrameState::LeftMsb);
}
