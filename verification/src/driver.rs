//! The channel driver adapter: one of eight role-by-direction-by-width
//! policies gluing the frame assembler to the peripheral's status and data
//! registers.
//!
//! The handlers here take the status flags the hardware reported (and, for
//! receive, the half-word already read) and decide everything: how the
//! assembler advances, what enters or leaves the backpressure queues, and
//! which register actions the interrupt context must still perform. The
//! register accesses themselves stay outside, driven by the returned
//! [`Actions`], so each interrupt does at most one data-register read, one
//! write and one assembler transition.

use vstd::prelude::*;

use crate::frame;
use crate::frame::Channel;
use crate::frame::Frame;
use crate::frame::FrameState;
use crate::frame::Width;
use crate::queue::QUEUE_CAPACITY;
use crate::queue::RxQueue;
use crate::queue::TxQueue;

verus! {

/// The eight bindings of role (master or slave), direction and width that
/// a peripheral instance can carry. Exactly one is active per instance;
/// rebinding requires releasing the previous one first.
#[derive(Copy, Clone, PartialEq, Eq, Structural, Debug)]
pub enum DriverMode {
    SlaveTransmit16bits,
    MasterTransmit16bits,
    SlaveReceive16bits,
    MasterReceive16bits,
    SlaveTransmit32bits,
    MasterTransmit32bits,
    SlaveReceive32bits,
    MasterReceive32bits,
}

/// A command for the owning session: stop or restart a bound peripheral.
#[derive(Copy, Clone, PartialEq, Eq, Structural, Debug)]
pub enum I2sCtl {
    Disable,
    Enable,
}

impl DriverMode {
    /// Bits per channel of this binding.
    pub open spec fn spec_width(&self) -> Width {
        match *self {
            DriverMode::SlaveTransmit16bits => Width::Bits16,
            DriverMode::MasterTransmit16bits => Width::Bits16,
            DriverMode::SlaveReceive16bits => Width::Bits16,
            DriverMode::MasterReceive16bits => Width::Bits16,
            DriverMode::SlaveTransmit32bits => Width::Bits32,
            DriverMode::MasterTransmit32bits => Width::Bits32,
            DriverMode::SlaveReceive32bits => Width::Bits32,
            DriverMode::MasterReceive32bits => Width::Bits32,
        }
    }

    /// Bits per channel of this binding.
    #[verifier::when_used_as_spec(spec_width)]
    pub fn width(&self) -> (r: Width)
        ensures
            r == self.spec_width(),
    {
        match *self {
            DriverMode::SlaveTransmit16bits => Width::Bits16,
            DriverMode::MasterTransmit16bits => Width::Bits16,
            DriverMode::SlaveReceive16bits => Width::Bits16,
            DriverMode::MasterReceive16bits => Width::Bits16,
            DriverMode::SlaveTransmit32bits => Width::Bits32,
            DriverMode::MasterTransmit32bits => Width::Bits32,
            DriverMode::SlaveReceive32bits => Width::Bits32,
            DriverMode::MasterReceive32bits => Width::Bits32,
        }
    }

    /// Whether this binding drives the transmit direction.
    pub open spec fn spec_is_transmit(&self) -> bool {
        match *self {
            DriverMode::SlaveTransmit16bits => true,
            DriverMode::MasterTransmit16bits => true,
            DriverMode::SlaveTransmit32bits => true,
            DriverMode::MasterTransmit32bits => true,
            _ => false,
        }
    }

    /// Whether this binding drives the transmit direction.
    #[verifier::when_used_as_spec(spec_is_transmit)]
    pub fn is_transmit(&self) -> (r: bool)
        ensures
            r == self.spec_is_transmit(),
    {
        matches!(
            *self,
            DriverMode::SlaveTransmit16bits
            | DriverMode::MasterTransmit16bits
            | DriverMode::SlaveTransmit32bits
            | DriverMode::MasterTransmit32bits
        )
    }

    /// Whether this binding drives the receive direction.
    pub open spec fn spec_is_receive(&self) -> bool {
        !self.spec_is_transmit()
    }

    /// Whether this binding drives the receive direction.
    #[verifier::when_used_as_spec(spec_is_receive)]
    pub fn is_receive(&self) -> (r: bool)
        ensures
            r == self.spec_is_receive(),
    {
        !self.is_transmit()
    }

    /// Whether this binding is slaved to an external frame clock. Only a
    /// slave can see a frame error, and only a slave ever resynchronizes
    /// on the word-select line.
    pub open spec fn spec_is_slave(&self) -> bool {
        match *self {
            DriverMode::SlaveTransmit16bits => true,
            DriverMode::SlaveReceive16bits => true,
            DriverMode::SlaveTransmit32bits => true,
            DriverMode::SlaveReceive32bits => true,
            _ => false,
        }
    }

    /// Whether this binding is slaved to an external frame clock.
    #[verifier::when_used_as_spec(spec_is_slave)]
    pub fn is_slave(&self) -> (r: bool)
        ensures
            r == self.spec_is_slave(),
    {
        matches!(
            *self,
            DriverMode::SlaveTransmit16bits
            | DriverMode::SlaveReceive16bits
            | DriverMode::SlaveTransmit32bits
            | DriverMode::SlaveReceive32bits
        )
    }
}

/// The status flags the peripheral reported at the start of an interrupt:
/// transmit buffer empty, receive buffer not empty, the channel side of
/// the current slot, frame error, underrun and overrun.
#[derive(Copy, Clone, PartialEq, Eq, Structural, Debug)]
pub struct Status {
    pub txe: bool,
    pub rxne: bool,
    pub chside: Channel,
    pub fre: bool,
    pub udr: bool,
    pub ovr: bool,
}

/// The register work an interrupt handler asks its caller to perform,
/// in this order: write `write_data` to the data register first (before
/// any error handling, so the write cannot re-raise the underrun flag);
/// on `arm_resync`, disable the peripheral and enable the word-select
/// edge interrupt; on `disable`, stop the peripheral (backpressure);
/// on `clear_underrun`, read the status register then write a zero
/// half-word; on `clear_overrun`, read the data register then the status
/// register. `channel_mismatch` reports that the tracked position and the
/// hardware diverged and the in-flight frame was dropped, for diagnostics.
#[derive(Copy, Clone, PartialEq, Eq, Structural, Debug)]
pub struct Actions {
    pub write_data: Option<u16>,
    pub disable: bool,
    pub arm_resync: bool,
    pub clear_underrun: bool,
    pub clear_overrun: bool,
    pub channel_mismatch: bool,
}

/// The register work a word-select edge handler asks its caller to
/// perform: clear the pending edge bit; and, on `resume`, disable the
/// edge interrupt, preload a zero half-word when `preload_zero` holds
/// (transmit only, so the first slot after the restart carries silence),
/// then enable the peripheral.
#[derive(Copy, Clone, PartialEq, Eq, Structural, Debug)]
pub struct WsActions {
    pub clear_pending: bool,
    pub resume: bool,
    pub preload_zero: bool,
}

/// Where a slave binding stands in its resynchronization to the external
/// frame clock: not displaced, armed on the word-select edge after a
/// frame error, or realigned and running again.
#[derive(Copy, Clone, PartialEq, Eq, Structural, Debug)]
pub enum ResyncState {
    Idle,
    Armed,
    Resynced,
}

/// The pending sample a transmit step starts on: the queue front, or the
/// silent frame when nothing is pending.
pub open spec fn pending_sample(q: Seq<Frame>) -> Frame {
    if q.len() == 0 {
        Frame { left: 0, right: 0 }
    } else {
        q[0]
    }
}

/// A queue after its front was taken, if it had one.
pub open spec fn after_dequeue(q: Seq<Frame>) -> Seq<Frame> {
    if q.len() == 0 {
        q
    } else {
        q.drop_first()
    }
}

/// One peripheral binding with the interrupt-local transfer state: the
/// active mode (if bound), the assembler position and accumulator, and
/// the resynchronization stage.
pub struct DriverWrap {
    pub drv: Option<DriverMode>,
    pub frame_state: FrameState,
    pub frame: Frame,
    pub resync: ResyncState,
}

impl DriverWrap {
    /// A wrap around an optional binding, with freshly reset transfer
    /// state.
    pub fn new(drv: Option<DriverMode>) -> (r: DriverWrap)
        ensures
            r.drv == drv,
            r.frame_state == FrameState::LeftMsb,
            r.frame == (Frame { left: 0, right: 0 }),
            r.resync == ResyncState::Idle,
    {
        DriverWrap { drv, frame_state: FrameState::LeftMsb, frame: Frame { left: 0, right: 0 }, resync: ResyncState::Idle }
    }

    /// Releases the binding, resetting the transfer state so the wrap can
    /// be rebound later.
    pub fn take(&mut self) -> (r: Option<DriverMode>)
        ensures
            r == old(self).drv,
            final(self).drv is None,
            final(self).frame_state == FrameState::LeftMsb,
            final(self).frame == (Frame { left: 0, right: 0 }),
            final(self).resync == ResyncState::Idle,
    {
        self.frame_state = FrameState::LeftMsb;
        self.frame = Frame { left: 0, right: 0 };
        self.resync = ResyncState::Idle;
        let r = self.drv;
        self.drv = None;
        r
    }

    /// Installs a binding, returning the previous one.
    pub fn replace(&mut self, drv: DriverMode) -> (r: Option<DriverMode>)
        ensures
            r == old(self).drv,
            final(self).drv == Some(drv),
            final(self).frame_state == old(self).frame_state,
            final(self).frame == old(self).frame,
            final(self).resync == old(self).resync,
    {
        let r = self.drv;
        self.drv = Some(drv);
        r
    }

    /// Resets the frame tracking to the start of a frame with a cleared
    /// accumulator.
    pub fn reset_frame(&mut self)
        ensures
            final(self).drv == old(self).drv,
            final(self).frame_state == FrameState::LeftMsb,
            final(self).frame == (Frame { left: 0, right: 0 }),
            final(self).resync == old(self).resync,
    {
        self.frame_state = FrameState::LeftMsb;
        self.frame = Frame { left: 0, right: 0 };
    }

    /// The transmit data interrupt handler.
    ///
    /// On "transmit buffer empty" it runs one transmit step of the frame
    /// assembler — dequeuing the next pending sample exactly at a frame
    /// start, or emitting silence when the queue is empty — and hands the
    /// half-word back to be written before any error flag is touched. On a
    /// slave frame error it resets the frame tracking and asks the caller
    /// to disable the peripheral and arm the word-select watcher. On an
    /// underrun it asks for the hardware-mandated clear sequence; the
    /// transfer goes on.
    ///
    /// Calling this on a wrap whose binding is not a transmit binding is a
    /// contract violation (the unverified original aborted there).
    pub fn transmit_interrupt_handler(&mut self, status: Status, queue: &mut TxQueue) -> (r: Actions)
        requires
            old(self).drv is Some,
            old(self).drv.unwrap().is_transmit(),
            old(queue).wf(),
        ensures
            final(queue).wf(),
            final(self).drv == old(self).drv,
            ({
                let w = old(self).drv.unwrap().spec_width();
                let s0 = old(self).frame_state;
                let f0 = old(self).frame;
                let c = status.chside;
                let sample = pending_sample(old(queue)@);
                let arm = status.fre && old(self).drv.unwrap().is_slave();
                let s1 = if status.txe { frame::step_next_state(w, s0, c) } else { s0 };
                let f1 = if status.txe { frame::tx_next_frame(w, s0, f0, c, sample) } else { f0 };
                &&& final(self).frame_state == (if arm { FrameState::LeftMsb } else { s1 })
                &&& final(self).frame == (if arm { Frame { left: 0, right: 0 } } else { f1 })
                &&& final(self).resync == (if arm { ResyncState::Armed } else { old(self).resync })
                &&& final(queue)@ == (if status.txe && frame::tx_wants(s0, c) { after_dequeue(old(queue)@) } else { old(queue)@ })
                &&& r.write_data == (if status.txe { Some(frame::tx_data(w, s0, f0, c, sample)) } else { None::<u16> })
                &&& r.arm_resync == arm
                &&& r.disable == false
                &&& r.clear_underrun == status.udr
                &&& r.clear_overrun == false
                &&& r.channel_mismatch == (status.txe && !frame::table_match(w, s0, c))
            }),
    {
        let mode = self.drv.unwrap();
        let width = mode.width();
        let mut write_data: Option<u16> = None;
        let mut channel_mismatch = false;
        if status.txe {
            channel_mismatch = !frame::table_match_exec(width, self.frame_state, status.chside);
            let next = if frame::transmit_wants_sample(&self.frame_state, status.chside) {
                queue.dequeue_or_silence()
            } else {
                Frame { left: 0, right: 0 }
            };
            let data = frame::transmit_step(width, &mut self.frame_state, &mut self.frame, status.chside, next);
            write_data = Some(data);
        }
        let arm = status.fre && mode.is_slave();
        if arm {
            self.frame_state = FrameState::LeftMsb;
            self.frame = Frame { left: 0, right: 0 };
            self.resync = ResyncState::Armed;
        }
        Actions {
            write_data,
            disable: false,
            arm_resync: arm,
            clear_underrun: status.udr,
            clear_overrun: false,
            channel_mismatch,
        }
    }

    /// The receive data interrupt handler.
    ///
    /// The caller reads the data register as soon as "receive buffer not
    /// empty" holds — before any error flag is touched, so the read cannot
    /// re-raise the overrun flag — and hands the half-word in as `data`
    /// (ignored otherwise). One receive step folds it into the
    /// accumulator; a finished frame is pushed into the queue stamped with
    /// `now`. The producer never blocks and never overwrites: when the
    /// queue is full after the push attempt, the handler asks the caller
    /// to disable the peripheral, stopping the source until the owning
    /// session re-enables it. On a slave frame error it resets the frame
    /// tracking and asks the caller to disable the peripheral and arm the
    /// word-select watcher. On an overrun it asks for the
    /// hardware-mandated clear sequence.
    ///
    /// Calling this on a wrap whose binding is not a receive binding is a
    /// contract violation (the unverified original aborted there).
    pub fn receive_interrupt_handler(&mut self, status: Status, data: u16, now: u32, queue: &mut RxQueue) -> (r: Actions)
        requires
            old(self).drv is Some,
            old(self).drv.unwrap().is_receive(),
            old(queue).wf(),
        ensures
            final(queue).wf(),
            final(self).drv == old(self).drv,
            ({
                let w = old(self).drv.unwrap().spec_width();
                let s0 = old(self).frame_state;
                let f0 = old(self).frame;
                let c = status.chside;
                let arm = status.fre && old(self).drv.unwrap().is_slave();
                let emitted = frame::rx_emitted(w, s0, f0, c, data);
                let s1 = if status.rxne { frame::step_next_state(w, s0, c) } else { s0 };
                let f1 = if status.rxne { frame::rx_next_frame(w, s0, f0, c, data) } else { f0 };
                &&& final(self).frame_state == (if arm { FrameState::LeftMsb } else { s1 })
                &&& final(self).frame == (if arm { Frame { left: 0, right: 0 } } else { f1 })
                &&& final(self).resync == (if arm { ResyncState::Armed } else { old(self).resync })
                &&& final(queue)@ == (if status.rxne && emitted is Some && old(queue)@.len()
                    < QUEUE_CAPACITY {
                    old(queue)@.push((now, emitted.unwrap()))
                } else {
                    old(queue)@
                })
                &&& r.disable == (status.rxne && emitted is Some && final(queue)@.len()
                    == QUEUE_CAPACITY)
                &&& r.write_data is None
                &&& r.arm_resync == arm
                &&& r.clear_underrun == false
                &&& r.clear_overrun == status.ovr
                &&& r.channel_mismatch == (status.rxne && !frame::table_match(w, s0, c))
            }),
    {
        let mode = self.drv.unwrap();
        let width = mode.width();
        let mut disable = false;
        let mut channel_mismatch = false;
        if status.rxne {
            channel_mismatch = !frame::table_match_exec(width, self.frame_state, status.chside);
            let done = frame::receive_step(width, &mut self.frame_state, &mut self.frame, status.chside, data);
            if let Some(finished) = done {
                queue.enqueue(now, finished);
                if queue.len() == queue.capacity() {
                    disable = true;
                }
            }
        }
        let arm = status.fre && mode.is_slave();
        if arm {
            self.frame_state = FrameState::LeftMsb;
            self.frame = Frame { left: 0, right: 0 };
            self.resync = ResyncState::Armed;
        }
        Actions {
            write_data: None,
            disable,
            arm_resync: arm,
            clear_underrun: false,
            clear_overrun: status.ovr,
            channel_mismatch,
        }
    }

    /// The word-select edge handler for a slave transmit binding.
    ///
    /// Runs when the edge interrupt armed after a frame error fires. The
    /// pending bit is always cleared; and if the line level still marks
    /// the frame boundary (the edge was not a spurious neighbour on a
    /// shared interrupt line), the caller is asked to disable the edge
    /// interrupt, preload a zero half-word so the first restarted slot
    /// carries silence, and re-enable the peripheral. On any other
    /// binding, or without one, nothing happens.
    pub fn transmit_exti_handler(&mut self, ws_high: bool) -> (r: WsActions)
        ensures
            final(self).drv == old(self).drv,
            final(self).frame_state == old(self).frame_state,
            final(self).frame == old(self).frame,
            ({
                let active = old(self).drv matches Some(m) && m.is_slave() && m.is_transmit();
                &&& r.clear_pending == active
                &&& r.resume == (active && ws_high)
                &&& r.preload_zero == r.resume
                &&& final(self).resync == (if r.resume { ResyncState::Resynced } else { old(self).resync })
            }),
    {
        let active = match self.drv {
            Some(m) => m.is_slave() && m.is_transmit(),
            None => false,
        };
        let resume = active && ws_high;
        if resume {
            self.resync = ResyncState::Resynced;
        }
        WsActions { clear_pending: active, resume, preload_zero: resume }
    }

    /// The word-select edge handler for a slave receive binding: as
    /// [`Self::transmit_exti_handler`], but nothing is preloaded — the
    /// restarted peripheral starts by reading.
    pub fn receive_exti_handler(&mut self, ws_high: bool) -> (r: WsActions)
        ensures
            final(self).drv == old(self).drv,
            final(self).frame_state == old(self).frame_state,
            final(self).frame == old(self).frame,
            ({
                let active = old(self).drv matches Some(m) && m.is_slave() && m.is_receive();
                &&& r.clear_pending == active
                &&& r.resume == (active && ws_high)
                &&& r.preload_zero == false
                &&& final(self).resync == (if r.resume { ResyncState::Resynced } else { old(self).resync })
            }),
    {
        let active = match self.drv {
            Some(m) => m.is_slave() && m.is_receive(),
            None => false,
        };
        let resume = active && ws_high;
        if resume {
            self.resync = ResyncState::Resynced;
        }
        WsActions { clear_pending: active, resume, preload_zero: false }
    }
}

} // verus!
