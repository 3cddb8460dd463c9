//! The receive lane.
//!
//! One sequencer slot samples the receive pin eight times per bit and
//! pushes one 32-bit word per received frame into the lane's FIFO. The
//! driver drains that FIFO without blocking: whole frames only, two
//! bytes per word, never waiting for data the engine has not produced.

use vstd::prelude::*;
use crate::divisor::{compute_divisor, divisor_q8, valid_rate_pair, ClockDivisor};
use crate::error::PioSerialError;
use crate::frame::{bytes_of_words, unpack_aux, unpack_data, word_aux, word_data};
use crate::pio::{
    Buffers, Configured, PinDir, Running, RxPin, RxProgram, ShiftDirection, UninitStateMachine,
};

verus! {

/// Everything a receive lane's contracts speak of: the identities it
/// owns, the configuration written to its slot, and the words the
/// engine has pushed that the driver has not yet consumed.
#[verifier::ext_equal]
pub struct RxLaneView {
    /// The engine the lane's slot belongs to.
    pub engine_id: u8,
    /// The slot the lane owns.
    pub slot_index: u8,
    /// The pin the lane owns.
    pub pin_id: u8,
    /// The computed clock divisor.
    pub divisor: ClockDivisor,
    /// Direction the slot's input shift register fills.
    pub shift_direction: ShiftDirection,
    /// Whether the slot pushes a word on its own at the threshold.
    pub autopush: bool,
    /// Bits per explicit push.
    pub push_threshold: u8,
    /// How the slot's FIFO storage is joined.
    pub buffers: Buffers,
    /// Direction the pin is driven.
    pub pin_dir: PinDir,
    /// Received words the driver has not yet consumed, oldest first.
    pub queued: Seq<u32>,
}

/// The slot configuration the receive microprogram's wire contract
/// demands: right shift, explicit pushes of one full word, all FIFO
/// storage on the receive side, the pin sampled as an input.
pub open spec fn rx_protocol_config(v: RxLaneView) -> bool {
    &&& v.shift_direction is Right
    &&& !v.autopush
    &&& v.push_threshold == 32
    &&& v.buffers is OnlyRx
    &&& v.pin_dir is Input
}

/// The receive half of the UART: one slot, one input pin, one borrowed
/// program token. The type parameter is the lifecycle state, either
/// [`Configured`] or [`Running`]; operations that are illegal in a state
/// do not exist on it.
pub struct PioUartRx<State> {
    engine_id: u8,
    slot_index: u8,
    pin: RxPin,
    divisor: ClockDivisor,
    shift_direction: ShiftDirection,
    autopush: bool,
    push_threshold: u8,
    buffers: Buffers,
    pin_dir: PinDir,
    fifo: Vec<u32>,
    state: State,
}

impl<State> View for PioUartRx<State> {
    type V = RxLaneView;

    closed spec fn view(&self) -> RxLaneView {
        RxLaneView {
            engine_id: self.engine_id,
            slot_index: self.slot_index,
            pin_id: self.pin.id,
            divisor: self.divisor,
            shift_direction: self.shift_direction,
            autopush: self.autopush,
            push_threshold: self.push_threshold,
            buffers: self.buffers,
            pin_dir: self.pin_dir,
            queued: self.fifo@,
        }
    }
}

/// Bytes a non-blocking read returns when `q` words are queued and the
/// destination holds `len` bytes: all queued frames if they fit, else
/// as many whole frames as the destination takes — never a partial
/// frame, so never an odd count.
pub open spec fn read_count(q: nat, len: nat) -> nat {
    if 2 * q <= len {
        2 * q
    } else {
        (len - len % 2) as nat
    }
}

/// Law: the count a read returns is even, no larger than the
/// destination or the queue, and exactly `min(2 * q, len)` rounded down
/// to an even number.
pub proof fn lemma_read_count_properties(q: nat, len: nat)
    ensures
        read_count(q, len) % 2 == 0,
        read_count(q, len) <= len,
        read_count(q, len) <= 2 * q,
        2 * q <= len ==> read_count(q, len) == 2 * q,
        len <= 2 * q ==> read_count(q, len) == len - len % 2,
{
}

impl PioUartRx<Configured> {
    /// Build a receive lane on `rx_sm` from an installed program token.
    /// Computes the clock divisor for eight samples per bit and writes
    /// the configuration the microprogram demands. The lane starts with
    /// an empty FIFO, and cannot fail to build.
    pub fn new(
        rx_pin: RxPin,
        rx_sm: UninitStateMachine,
        rx_program: &mut RxProgram,
        baud: u32,
        system_freq: u32,
    ) -> (lane: Self)
        requires
            valid_rate_pair(baud, system_freq),
            rx_sm.engine_id == old(rx_program).engine_id(),
        ensures
            *final(rx_program) == *old(rx_program),
            lane@.engine_id == rx_sm.engine_id,
            lane@.slot_index == rx_sm.index,
            lane@.pin_id == rx_pin.id,
            lane@.divisor.q8() == divisor_q8(baud, system_freq),
            rx_protocol_config(lane@),
            lane@.queued == Seq::<u32>::empty(),
    {
        let div = compute_divisor(baud, system_freq);
        Self::build_rx(rx_program, rx_pin, rx_sm, div)
    }

    /// Bind the slot to the installed program and write its
    /// configuration: input from the receive pin, right shift, explicit
    /// 32-bit pushes, receive-only FIFO storage, the given divisor.
    fn build_rx(
        token: &mut RxProgram,
        rx_pin: RxPin,
        sm: UninitStateMachine,
        div: ClockDivisor,
    ) -> (lane: Self)
        requires
            sm.engine_id == old(token).engine_id(),
        ensures
            *final(token) == *old(token),
            lane@ == (RxLaneView {
                engine_id: sm.engine_id,
                slot_index: sm.index,
                pin_id: rx_pin.id,
                divisor: div,
                shift_direction: ShiftDirection::Right,
                autopush: false,
                push_threshold: 32,
                buffers: Buffers::OnlyRx,
                pin_dir: PinDir::Input,
                queued: Seq::<u32>::empty(),
            }),
    {
        PioUartRx {
            engine_id: sm.engine_id,
            slot_index: sm.index,
            pin: rx_pin,
            divisor: div,
            shift_direction: ShiftDirection::Right,
            autopush: false,
            push_threshold: 32,
            buffers: Buffers::OnlyRx,
            pin_dir: PinDir::Input,
            fifo: Vec::new(),
            state: Configured,
        }
    }

    /// Start the slot's clock; from this instant the slot samples the
    /// pin. Infallible and synchronous.
    pub fn enable(self) -> (lane: PioUartRx<Running>)
        ensures
            lane@ == self@,
    {
        PioUartRx {
            engine_id: self.engine_id,
            slot_index: self.slot_index,
            pin: self.pin,
            divisor: self.divisor,
            shift_direction: self.shift_direction,
            autopush: self.autopush,
            push_threshold: self.push_threshold,
            buffers: self.buffers,
            pin_dir: self.pin_dir,
            fifo: self.fifo,
            state: Running,
        }
    }

    /// Void the lane, returning the bare slot and the pin in their
    /// pre-driver, reusable form. Only a stopped lane can be freed.
    pub fn free(self) -> (r: (UninitStateMachine, RxPin))
        ensures
            r.0 == (UninitStateMachine { engine_id: self@.engine_id, index: self@.slot_index }),
            r.1.id == self@.pin_id,
    {
        (
            UninitStateMachine { engine_id: self.engine_id, index: self.slot_index },
            self.pin,
        )
    }
}

impl PioUartRx<Running> {
    /// The engine pushing one received word into the lane's FIFO: the
    /// hardware side of the wire contract, driven by whatever carries
    /// words off the line.
    pub fn deliver_word(&mut self, w: u32)
        ensures
            final(self)@ == (RxLaneView { queued: old(self)@.queued.push(w), ..old(self)@ }),
    {
        self.fifo.push(w);
    }

    /// Drain already-received whole frames into the front of `buf`,
    /// never blocking: each queued word yields its data byte then its
    /// auxiliary byte, until the destination cannot take another frame
    /// or the FIFO is empty. Fails — touching nothing — exactly when
    /// the destination holds fewer than the two bytes of one frame.
    /// The count returned is always even.
    pub fn read_raw(&mut self, buf: &mut Vec<u8>) -> (r: Result<usize, ()>)
        ensures
            old(buf).len() < 2 ==> {
                &&& r is Err
                &&& *final(self) == *old(self)
                &&& *final(buf) == *old(buf)
            },
            old(buf).len() >= 2 ==> {
                let n = read_count(old(self)@.queued.len(), old(buf).len() as nat);
                &&& r == Ok::<usize, ()>(n as usize)
                &&& final(self)@ == (RxLaneView {
                    queued: old(self)@.queued.skip(n as int / 2),
                    ..old(self)@
                })
                &&& final(buf)@ == bytes_of_words(old(self)@.queued.take(n as int / 2))
                    + old(buf)@.skip(n as int)
            },
    {
        let buf_len = buf.len();
        if buf_len < 2 {
            return Err(());
        }
        let ghost v0 = self@;
        let ghost q0 = self@.queued;
        let ghost b0 = buf@;
        let mut written: usize = 0;
        proof {
            assert(q0.skip(0) =~= q0);
            assert(bytes_of_words(q0.take(0)) + b0.skip(0) =~= b0);
            assert(self@ =~= (RxLaneView { queued: q0.skip(0), ..v0 }));
        }
        while written <= buf_len - 2 && self.fifo.len() > 0
            invariant
                written % 2 == 0,
                written <= buf_len,
                buf.len() == buf_len,
                b0.len() == buf_len,
                2 <= buf_len,
                written as int / 2 <= q0.len(),
                v0.queued == q0,
                self@ == (RxLaneView { queued: q0.skip(written as int / 2), ..v0 }),
                buf@ == bytes_of_words(q0.take(written as int / 2)) + b0.skip(written as int),
            decreases self.fifo.len(),
        {
            let ghost k = written as int / 2;
            proof {
                assert(written == 2 * k);
                assert(k < q0.len());
            }
            let w = self.fifo.remove(0);
            proof {
                assert(w == q0.skip(k)[0]);
                assert(w == q0[k]);
                assert(q0.skip(k).remove(0) =~= q0.skip(k + 1));
            }
            buf.set(written, unpack_data(w));
            buf.set(written + 1, unpack_aux(w));
            written = written + 2;
            proof {
                assert(written as int / 2 == k + 1);
                let prev = bytes_of_words(q0.take(k)) + b0.skip(2 * k);
                let cur = bytes_of_words(q0.take(k + 1)) + b0.skip(2 * k + 2);
                let upd = prev.update(2 * k, word_data(q0[k])).update(2 * k + 1, word_aux(q0[k]));
                assert(buf@ == upd);
                assert(cur.len() == upd.len());
                assert forall|i: int| 0 <= i < cur.len() implies cur[i] == upd[i] by {
                    if i < 2 * k {
                        assert(0 <= i / 2 < k);
                        assert(q0.take(k + 1)[i / 2] == q0.take(k)[i / 2]);
                        assert(cur[i] == bytes_of_words(q0.take(k + 1))[i]);
                        assert(upd[i] == bytes_of_words(q0.take(k))[i]);
                    } else if i == 2 * k {
                        assert((2 * k) % 2 == 0 && (2 * k) / 2 == k);
                        assert(cur[i] == word_data(q0.take(k + 1)[k]));
                    } else if i == 2 * k + 1 {
                        assert((2 * k + 1) % 2 == 1 && (2 * k + 1) / 2 == k);
                        assert(cur[i] == word_aux(q0.take(k + 1)[k]));
                    } else {
                        assert(cur[i] == b0.skip(2 * k + 2)[i - (2 * k + 2)]);
                        assert(upd[i] == b0.skip(2 * k)[i - 2 * k]);
                    }
                }
                assert(buf@ =~= cur);
                assert(self@ =~= (RxLaneView { queued: q0.skip(written as int / 2), ..v0 }));
            }
        }
        proof {
            let n = read_count(q0.len(), buf_len as nat) as int;
            assert(written == 2 * (written as int / 2));
            if self.fifo.len() == 0 {
                assert(q0.skip(written as int / 2).len() == 0);
                assert(written as int / 2 == q0.len());
                assert(written == n);
            } else {
                assert(written + 2 > buf_len);
                assert(2 * q0.len() > buf_len);
                assert(written == n);
            }
        }
        Ok(written)
    }

    /// Byte-stream read: [`Self::read_raw`] with its failure mapped to
    /// the single generic I/O error.
    pub fn read(&mut self, buf: &mut Vec<u8>) -> (r: Result<usize, PioSerialError>)
        ensures
            old(buf).len() < 2 ==> {
                &&& r == Err::<usize, PioSerialError>(PioSerialError::IO)
                &&& *final(self) == *old(self)
                &&& *final(buf) == *old(buf)
            },
            old(buf).len() >= 2 ==> {
                let n = read_count(old(self)@.queued.len(), old(buf).len() as nat);
                &&& r == Ok::<usize, PioSerialError>(n as usize)
                &&& final(self)@ == (RxLaneView {
                    queued: old(self)@.queued.skip(n as int / 2),
                    ..old(self)@
                })
                &&& final(buf)@ == bytes_of_words(old(self)@.queued.take(n as int / 2))
                    + old(buf)@.skip(n as int)
            },
    {
        match self.read_raw(buf) {
            Ok(n) => Ok(n),
            Err(()) => Err(PioSerialError::IO),
        }
    }

    /// Halt the slot's clock. Words already pushed stay queued: stopping
    /// loses no buffered data.
    pub fn stop(self) -> (lane: PioUartRx<Configured>)
        ensures
            lane@ == self@,
    {
        PioUartRx {
            engine_id: self.engine_id,
            slot_index: self.slot_index,
            pin: self.pin,
            divisor: self.divisor,
            shift_direction: self.shift_direction,
            autopush: self.autopush,
            push_threshold: self.push_threshold,
            buffers: self.buffers,
            pin_dir: self.pin_dir,
            fifo: self.fifo,
            state: Configured,
        }
    }
}

} // verus!
