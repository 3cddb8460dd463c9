//! The transmit lane.
//!
//! One sequencer slot drives the transmit pin through its side-set
//! fabric, eight cycles per bit. The driver assembles one 32-bit FIFO
//! word per two-byte frame and queues every complete frame; with real
//! backpressure the queueing spins until the FIFO has room, so handing
//! frames over is blocking but can never fail. Words leave the queue as
//! the engine serializes them onto the wire.

use vstd::prelude::*;
use crate::divisor::{compute_divisor, divisor_q8, valid_rate_pair, ClockDivisor};
use crate::error::PioSerialError;
use crate::frame::{pack_frame, words_of_bytes};
use crate::pio::{
    Buffers, Configured, PinDir, Running, ShiftDirection, TxPin, TxProgram, UninitStateMachine,
};

verus! {

/// Duration of the settling wait a flush performs after the FIFO
/// empties, in microseconds: an empirically calibrated margin for the
/// last bits to leave the shift register. Re-measure when porting to a
/// different core clock.
pub const FLUSH_SETTLE_MICROS: u32 = 500;

/// Core-clock cycles of the flush settling wait, for a core clock of
/// `core_mhz` megahertz.
pub fn flush_settle_cycles(core_mhz: u32) -> (cycles: u32)
    requires
        core_mhz <= u32::MAX / 500,
    ensures
        cycles == 500 * core_mhz,
{
    FLUSH_SETTLE_MICROS * core_mhz
}

/// Everything a transmit lane's contracts speak of: the identities it
/// owns, the configuration written to its slot, the words queued for
/// the engine, and the words already serialized onto the wire.
#[verifier::ext_equal]
pub struct TxLaneView {
    /// The engine the lane's slot belongs to.
    pub engine_id: u8,
    /// The slot the lane owns.
    pub slot_index: u8,
    /// The pin the lane owns.
    pub pin_id: u8,
    /// The computed clock divisor.
    pub divisor: ClockDivisor,
    /// Direction the slot's output shift register empties.
    pub shift_direction: ShiftDirection,
    /// Whether the slot refills its shift register on its own.
    pub autopull: bool,
    /// Bits per explicit pull.
    pub pull_threshold: u8,
    /// How the slot's FIFO storage is joined.
    pub buffers: Buffers,
    /// First pin of the slot's output pin group.
    pub out_pin_base: u8,
    /// Size of the slot's output pin group.
    pub out_pin_count: u8,
    /// First pin of the slot's side-set group: the same physical pin,
    /// which the microprogram toggles via side-set.
    pub side_set_pin_base: u8,
    /// Direction the pin is driven.
    pub pin_dir: PinDir,
    /// Words accepted for transmission and not yet serialized, oldest
    /// first.
    pub queued: Seq<u32>,
    /// Words the engine has serialized onto the wire, oldest first.
    pub wire: Seq<u32>,
}

/// The slot configuration the transmit microprogram's wire contract
/// demands: right shift on output, explicit pulls of one full word, all
/// FIFO storage on the transmit side, a one-pin output group and the
/// side-set group on that same pin, the pin driven as an output.
pub open spec fn tx_protocol_config(v: TxLaneView) -> bool {
    &&& v.shift_direction is Right
    &&& !v.autopull
    &&& v.pull_threshold == 32
    &&& v.buffers is OnlyTx
    &&& v.out_pin_base == v.pin_id
    &&& v.out_pin_count == 1
    &&& v.side_set_pin_base == v.pin_id
    &&& v.pin_dir is Output
}

/// The transmit half of the UART: one slot, one output pin, one
/// borrowed program token. The type parameter is the lifecycle state,
/// either [`Configured`] or [`Running`]; operations that are illegal in
/// a state do not exist on it.
pub struct PioUartTx<State> {
    engine_id: u8,
    slot_index: u8,
    pin: TxPin,
    divisor: ClockDivisor,
    shift_direction: ShiftDirection,
    autopull: bool,
    pull_threshold: u8,
    buffers: Buffers,
    out_pin_base: u8,
    out_pin_count: u8,
    side_set_pin_base: u8,
    pin_dir: PinDir,
    fifo: Vec<u32>,
    wire: Vec<u32>,
    state: State,
}

impl<State> View for PioUartTx<State> {
    type V = TxLaneView;

    closed spec fn view(&self) -> TxLaneView {
        TxLaneView {
            engine_id: self.engine_id,
            slot_index: self.slot_index,
            pin_id: self.pin.id,
            divisor: self.divisor,
            shift_direction: self.shift_direction,
            autopull: self.autopull,
            pull_threshold: self.pull_threshold,
            buffers: self.buffers,
            out_pin_base: self.out_pin_base,
            out_pin_count: self.out_pin_count,
            side_set_pin_base: self.side_set_pin_base,
            pin_dir: self.pin_dir,
            queued: self.fifo@,
            wire: self.wire@,
        }
    }
}

impl PioUartTx<Configured> {
    /// Build a transmit lane on `sm` from an installed program token.
    /// Computes the clock divisor for eight cycles per bit and writes
    /// the configuration the microprogram demands. The lane starts with
    /// an empty FIFO, and cannot fail to build.
    pub fn new(
        tx_pin: TxPin,
        sm: UninitStateMachine,
        tx_program: &mut TxProgram,
        baud: u32,
        system_freq: u32,
    ) -> (lane: Self)
        requires
            valid_rate_pair(baud, system_freq),
            sm.engine_id == old(tx_program).engine_id(),
        ensures
            *final(tx_program) == *old(tx_program),
            lane@.engine_id == sm.engine_id,
            lane@.slot_index == sm.index,
            lane@.pin_id == tx_pin.id,
            lane@.divisor.q8() == divisor_q8(baud, system_freq),
            tx_protocol_config(lane@),
            lane@.queued == Seq::<u32>::empty(),
            lane@.wire == Seq::<u32>::empty(),
    {
        let div = compute_divisor(baud, system_freq);
        Self::build_tx(tx_program, tx_pin, sm, div)
    }

    /// Bind the slot to the installed program and write its
    /// configuration: output on the transmit pin with side-set on the
    /// same pin, right shift, explicit 32-bit pulls, transmit-only FIFO
    /// storage, the given divisor.
    fn build_tx(
        token: &mut TxProgram,
        tx_pin: TxPin,
        sm: UninitStateMachine,
        div: ClockDivisor,
    ) -> (lane: Self)
        requires
            sm.engine_id == old(token).engine_id(),
        ensures
            *final(token) == *old(token),
            lane@ == (TxLaneView {
                engine_id: sm.engine_id,
                slot_index: sm.index,
                pin_id: tx_pin.id,
                divisor: div,
                shift_direction: ShiftDirection::Right,
                autopull: false,
                pull_threshold: 32,
                buffers: Buffers::OnlyTx,
                out_pin_base: tx_pin.id,
                out_pin_count: 1,
                side_set_pin_base: tx_pin.id,
                pin_dir: PinDir::Output,
                queued: Seq::<u32>::empty(),
                wire: Seq::<u32>::empty(),
            }),
    {
        let base = tx_pin.id;
        PioUartTx {
            engine_id: sm.engine_id,
            slot_index: sm.index,
            pin: tx_pin,
            divisor: div,
            shift_direction: ShiftDirection::Right,
            autopull: false,
            pull_threshold: 32,
            buffers: Buffers::OnlyTx,
            out_pin_base: base,
            out_pin_count: 1,
            side_set_pin_base: base,
            pin_dir: PinDir::Output,
            fifo: Vec::new(),
            wire: Vec::new(),
            state: Configured,
        }
    }

    /// Start the slot's clock; from this instant the slot drives the
    /// pin. Infallible and synchronous.
    pub fn enable(self) -> (lane: PioUartTx<Running>)
        ensures
            lane@ == self@,
    {
        PioUartTx {
            engine_id: self.engine_id,
            slot_index: self.slot_index,
            pin: self.pin,
            divisor: self.divisor,
            shift_direction: self.shift_direction,
            autopull: self.autopull,
            pull_threshold: self.pull_threshold,
            buffers: self.buffers,
            out_pin_base: self.out_pin_base,
            out_pin_count: self.out_pin_count,
            side_set_pin_base: self.side_set_pin_base,
            pin_dir: self.pin_dir,
            fifo: self.fifo,
            wire: self.wire,
            state: Running,
        }
    }

    /// Void the lane, returning the bare slot and the pin in their
    /// pre-driver, reusable form. Only a stopped lane can be freed.
    pub fn free(self) -> (r: (UninitStateMachine, TxPin))
        ensures
            r.0 == (UninitStateMachine { engine_id: self@.engine_id, index: self@.slot_index }),
            r.1.id == self@.pin_id,
    {
        (
            UninitStateMachine { engine_id: self.engine_id, index: self.slot_index },
            self.pin,
        )
    }
}

impl PioUartTx<Running> {
    /// Queue every complete two-byte frame of `buf` for transmission,
    /// in order: the even-indexed byte becomes the word's data bits,
    /// the low bit of the following byte its auxiliary bit. A trailing
    /// odd byte is silently ignored — a design-level policy, not an
    /// error. Blocking with respect to backpressure, but never failing.
    pub fn write_raw(&mut self, buf: &Vec<u8>) -> (r: Result<(), ()>)
        ensures
            r is Ok,
            final(self)@ == (TxLaneView {
                queued: old(self)@.queued + words_of_bytes(buf@),
                ..old(self)@
            }),
    {
        let ghost v0 = self@;
        let frames = buf.len() / 2;
        proof {
            assert(words_of_bytes(buf@).len() == frames);
            assert(v0.queued + words_of_bytes(buf@).take(0) =~= v0.queued);
            assert(self@ =~= (TxLaneView { queued: v0.queued + words_of_bytes(buf@).take(0), ..v0 }));
        }
        for n in 0..frames
            invariant
                frames == buf.len() / 2,
                self@ == (TxLaneView {
                    queued: v0.queued + words_of_bytes(buf@).take(n as int),
                    ..v0
                }),
        {
            let w = pack_frame(buf[2 * n], buf[2 * n + 1]);
            self.fifo.push(w);
            proof {
                assert(words_of_bytes(buf@)[n as int] == w);
                assert(v0.queued + words_of_bytes(buf@).take(n as int + 1) =~= (
                    v0.queued + words_of_bytes(buf@).take(n as int)).push(w));
                assert(self@ =~= (TxLaneView {
                    queued: v0.queued + words_of_bytes(buf@).take(n as int + 1),
                    ..v0
                }));
            }
        }
        proof {
            assert(words_of_bytes(buf@).take(frames as int) =~= words_of_bytes(buf@));
        }
        Ok(())
    }

    /// Busy-wait until the engine has serialized every queued word onto
    /// the wire — the FIFO reports empty — then wait the settling
    /// margin. Never fails; with a line that never drains it would
    /// never return.
    pub fn flush(&mut self) -> (r: Result<(), PioSerialError>)
        ensures
            r is Ok,
            final(self)@ == (TxLaneView {
                queued: Seq::<u32>::empty(),
                wire: old(self)@.wire + old(self)@.queued,
                ..old(self)@
            }),
    {
        let ghost v0 = self@;
        proof {
            assert(v0.wire + v0.queued.take(0) =~= v0.wire);
            assert(v0.queued.skip(0) =~= v0.queued);
            assert(self@ =~= (TxLaneView {
                queued: v0.queued.skip(0),
                wire: v0.wire + v0.queued.take(0),
                ..v0
            }));
        }
        let ghost mut moved: int = 0;
        while self.fifo.len() > 0
            invariant
                0 <= moved <= v0.queued.len(),
                self@ == (TxLaneView {
                    queued: v0.queued.skip(moved),
                    wire: v0.wire + v0.queued.take(moved),
                    ..v0
                }),
            decreases self.fifo.len(),
        {
            let w = self.fifo.remove(0);
            self.wire.push(w);
            proof {
                assert(w == v0.queued.skip(moved)[0]);
                assert(w == v0.queued[moved]);
                assert(v0.queued.skip(moved).remove(0) =~= v0.queued.skip(moved + 1));
                assert(v0.wire + v0.queued.take(moved + 1) =~= (
                    v0.wire + v0.queued.take(moved)).push(w));
                moved = moved + 1;
                assert(self@ =~= (TxLaneView {
                    queued: v0.queued.skip(moved),
                    wire: v0.wire + v0.queued.take(moved),
                    ..v0
                }));
            }
        }
        proof {
            assert(moved == v0.queued.len());
            assert(v0.queued.skip(moved) =~= Seq::<u32>::empty());
            assert(v0.queued.take(moved) =~= v0.queued);
        }
        Ok(())
    }

    /// Remove and return the words the engine has serialized so far,
    /// oldest first: what an attached receiver would have seen on the
    /// wire. The hardware side of the wire contract.
    pub fn take_transmitted(&mut self) -> (words: Vec<u32>)
        ensures
            words@ == old(self)@.wire,
            final(self)@ == (TxLaneView { wire: Seq::<u32>::empty(), ..old(self)@ }),
    {
        let ghost v0 = self@;
        let mut words: Vec<u32> = Vec::new();
        proof {
            assert(words@ + self.wire@ =~= v0.wire);
        }
        while self.wire.len() > 0
            invariant
                words@ + self.wire@ == v0.wire,
                self@ == (TxLaneView { wire: self.wire@, ..v0 }),
            decreases self.wire.len(),
        {
            let w = self.wire.remove(0);
            words.push(w);
            proof {
                assert(words@ + self.wire@ =~= v0.wire);
                assert(self@ =~= (TxLaneView { wire: self.wire@, ..v0 }));
            }
        }
        proof {
            assert(words@ + self.wire@ =~= words@);
        }
        words
    }

    /// Number of words queued and not yet serialized.
    pub fn queued_count(&self) -> (n: usize)
        ensures
            n == self@.queued.len(),
    {
        self.fifo.len()
    }

    /// Byte-stream write: [`Self::write_raw`], reporting the full
    /// requested length as written. Never fails.
    pub fn write(&mut self, buf: &Vec<u8>) -> (r: Result<usize, PioSerialError>)
        ensures
            r == Ok::<usize, PioSerialError>(buf.len()),
            final(self)@ == (TxLaneView {
                queued: old(self)@.queued + words_of_bytes(buf@),
                ..old(self)@
            }),
    {
        match self.write_raw(buf) {
            Ok(()) => Ok(buf.len()),
            Err(()) => Err(PioSerialError::IO),
        }
    }

    /// Halt the slot's clock. Words already queued stay queued:
    /// stopping loses no buffered data.
    pub fn stop(self) -> (lane: PioUartTx<Configured>)
        ensures
            lane@ == self@,
    {
        PioUartTx {
            engine_id: self.engine_id,
            slot_index: self.slot_index,
            pin: self.pin,
            divisor: self.divisor,
            shift_direction: self.shift_direction,
            autopull: self.autopull,
            pull_threshold: self.pull_threshold,
            buffers: self.buffers,
            out_pin_base: self.out_pin_base,
            out_pin_count: self.out_pin_count,
            side_set_pin_base: self.side_set_pin_base,
            pin_dir: self.pin_dir,
            fifo: self.fifo,
            wire: self.wire,
            state: Configured,
        }
    }
}

} // verus!
