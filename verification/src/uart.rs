//! The combined facade: one receive lane and one transmit lane on a
//! single engine, moving through the lifecycle together.
//!
//! The facade installs both microprograms, builds the receive lane on
//! slot 0 and the transmit lane on slot 1, and keeps the engine's two
//! remaining slots untouched so a full teardown can return the
//! peripheral whole. Both lanes are enabled and stopped as a pair:
//! no state exists in which one half runs and the other does not.

use vstd::prelude::*;
use crate::divisor::{divisor_q8, valid_rate_pair};
use crate::error::PioSerialError;
use crate::frame::{bytes_of_words, words_of_bytes};
use crate::pio::{
    install_rx_program, install_tx_program, Configured, PioEngine, PioInstance, Running, RxPin,
    RxProgram, TxPin, TxProgram, UninitStateMachine,
};
use crate::rx::{read_count, rx_protocol_config, PioUartRx, RxLaneView};
use crate::tx::{tx_protocol_config, PioUartTx, TxLaneView};

verus! {

/// A full software UART: both lanes, both program tokens, the engine
/// handle, and the engine's two unused slots, held only to be returned
/// intact on teardown. The type parameter is the joint lifecycle state
/// of the two lanes.
pub struct PioUart<State> {
    rx: PioUartRx<State>,
    tx: PioUartTx<State>,
    rx_program: RxProgram,
    tx_program: TxProgram,
    pio: PioEngine,
    sm2: UninitStateMachine,
    sm3: UninitStateMachine,
}

impl<State> PioUart<State> {
    /// The receive lane, as its contracts see it.
    pub closed spec fn rx_view(&self) -> RxLaneView {
        self.rx@
    }

    /// The transmit lane, as its contracts see it.
    pub closed spec fn tx_view(&self) -> TxLaneView {
        self.tx@
    }

    /// The engine everything here belongs to.
    pub closed spec fn engine_id(&self) -> u8 {
        self.pio.id()
    }

    /// The facade's ownership invariant: both lanes, both tokens and
    /// both spare slots belong to the one engine; the lanes sit on
    /// slots 0 and 1, the spares on 2 and 3; the two pins are distinct;
    /// both microprograms are installed and stay installed while any
    /// lane built from them exists.
    pub closed spec fn wf(&self) -> bool {
        &&& self.rx@.engine_id == self.pio.id()
        &&& self.tx@.engine_id == self.pio.id()
        &&& self.rx@.slot_index == 0
        &&& self.tx@.slot_index == 1
        &&& self.rx_program.engine_id() == self.pio.id()
        &&& self.tx_program.engine_id() == self.pio.id()
        &&& self.pio.rx_installed()
        &&& self.pio.tx_installed()
        &&& self.sm2 == (UninitStateMachine { engine_id: self.pio.id(), index: 2 })
        &&& self.sm3 == (UninitStateMachine { engine_id: self.pio.id(), index: 3 })
        &&& self.rx@.pin_id != self.tx@.pin_id
    }
}

impl PioUart<Configured> {
    /// Build a complete UART on one engine: install both microprograms
    /// (a fresh engine has room, so neither install can fail), then
    /// build the receive lane on slot 0 and the transmit lane on
    /// slot 1. The other two slots are taken but left unconfigured.
    pub fn new(
        pio: PioInstance,
        rx_pin: RxPin,
        tx_pin: TxPin,
        baud: u32,
        system_freq: u32,
    ) -> (uart: Self)
        requires
            valid_rate_pair(baud, system_freq),
            rx_pin.id != tx_pin.id,
        ensures
            uart.wf(),
            uart.engine_id() == pio.id,
            uart.rx_view().engine_id == pio.id,
            uart.tx_view().engine_id == pio.id,
            uart.rx_view().slot_index == 0,
            uart.tx_view().slot_index == 1,
            uart.rx_view().pin_id == rx_pin.id,
            uart.rx_view().divisor.q8() == divisor_q8(baud, system_freq),
            rx_protocol_config(uart.rx_view()),
            uart.rx_view().queued == Seq::<u32>::empty(),
            uart.tx_view().pin_id == tx_pin.id,
            uart.tx_view().divisor.q8() == divisor_q8(baud, system_freq),
            tx_protocol_config(uart.tx_view()),
            uart.tx_view().queued == Seq::<u32>::empty(),
            uart.tx_view().wire == Seq::<u32>::empty(),
    {
        let (mut engine, sm0, sm1, sm2, sm3) = pio.split();
        let mut rx_program = match install_rx_program(&mut engine) {
            Ok(p) => p,
            Err(_) => unreached(),
        };
        let mut tx_program = match install_tx_program(&mut engine) {
            Ok(p) => p,
            Err(_) => unreached(),
        };
        let rx = PioUartRx::new(rx_pin, sm0, &mut rx_program, baud, system_freq);
        let tx = PioUartTx::new(tx_pin, sm1, &mut tx_program, baud, system_freq);
        PioUart { rx, tx, rx_program, tx_program, pio: engine, sm2, sm3 }
    }

    /// Enable both lanes as one step: there is no state in which one
    /// half runs and the other does not.
    pub fn enable(self) -> (uart: PioUart<Running>)
        ensures
            uart.wf() == self.wf(),
            uart.engine_id() == self.engine_id(),
            uart.rx_view() == self.rx_view(),
            uart.tx_view() == self.tx_view(),
    {
        PioUart {
            rx: self.rx.enable(),
            tx: self.tx.enable(),
            rx_program: self.rx_program,
            tx_program: self.tx_program,
            pio: self.pio,
            sm2: self.sm2,
            sm3: self.sm3,
        }
    }

    /// Full teardown: free both lanes, uninstall both microprograms —
    /// only now, after every lane built from them is gone — and
    /// reassemble the bare peripheral. Returns it with both pins.
    pub fn free(self) -> (r: (PioInstance, RxPin, TxPin))
        requires
            self.wf(),
        ensures
            r.0.id == self.engine_id(),
            r.1.id == self.rx_view().pin_id,
            r.2.id == self.tx_view().pin_id,
    {
        let PioUart { rx, tx, rx_program, tx_program, mut pio, sm2, sm3 } = self;
        let (sm1, tx_pin) = tx.free();
        let (sm0, rx_pin) = rx.free();
        pio.uninstall_rx(rx_program);
        pio.uninstall_tx(tx_program);
        let bare = pio.free(sm0, sm1, sm2, sm3);
        (bare, rx_pin, tx_pin)
    }
}

impl PioUart<Running> {
    /// Byte-stream read, forwarded to the receive lane: drain
    /// already-received whole frames into the front of `buf`, failing
    /// with the generic I/O error exactly when `buf` holds fewer than
    /// two bytes. The transmit lane is untouched.
    pub fn read(&mut self, buf: &mut Vec<u8>) -> (r: Result<usize, PioSerialError>)
        ensures
            final(self).engine_id() == old(self).engine_id(),
            final(self).tx_view() == old(self).tx_view(),
            final(self).wf() == old(self).wf(),
            old(buf).len() < 2 ==> {
                &&& r == Err::<usize, PioSerialError>(PioSerialError::IO)
                &&& final(self).rx_view() == old(self).rx_view()
                &&& *final(buf) == *old(buf)
            },
            old(buf).len() >= 2 ==> {
                let n = read_count(old(self).rx_view().queued.len(), old(buf).len() as nat);
                &&& r == Ok::<usize, PioSerialError>(n as usize)
                &&& final(self).rx_view() == (RxLaneView {
                    queued: old(self).rx_view().queued.skip(n as int / 2),
                    ..old(self).rx_view()
                })
                &&& final(buf)@ == bytes_of_words(old(self).rx_view().queued.take(n as int / 2))
                    + old(buf)@.skip(n as int)
            },
    {
        self.rx.read(buf)
    }

    /// The engine delivering one received word to the receive lane:
    /// the hardware side of the wire contract.
    pub fn deliver_word(&mut self, w: u32)
        ensures
            final(self).engine_id() == old(self).engine_id(),
            final(self).tx_view() == old(self).tx_view(),
            final(self).wf() == old(self).wf(),
            final(self).rx_view() == (RxLaneView {
                queued: old(self).rx_view().queued.push(w),
                ..old(self).rx_view()
            }),
    {
        self.rx.deliver_word(w);
    }

    /// Byte-stream write, forwarded to the transmit lane: queue every
    /// complete frame of `buf`, report the full requested length as
    /// written, never fail. The receive lane is untouched.
    pub fn write(&mut self, buf: &Vec<u8>) -> (r: Result<usize, PioSerialError>)
        ensures
            final(self).engine_id() == old(self).engine_id(),
            final(self).rx_view() == old(self).rx_view(),
            final(self).wf() == old(self).wf(),
            r == Ok::<usize, PioSerialError>(buf.len()),
            final(self).tx_view() == (TxLaneView {
                queued: old(self).tx_view().queued + words_of_bytes(buf@),
                ..old(self).tx_view()
            }),
    {
        self.tx.write(buf)
    }

    /// Byte-stream flush, forwarded to the transmit lane: wait until
    /// every queued word is on the wire. Never fails.
    pub fn flush(&mut self) -> (r: Result<(), PioSerialError>)
        ensures
            final(self).engine_id() == old(self).engine_id(),
            final(self).rx_view() == old(self).rx_view(),
            final(self).wf() == old(self).wf(),
            r is Ok,
            final(self).tx_view() == (TxLaneView {
                queued: Seq::<u32>::empty(),
                wire: old(self).tx_view().wire + old(self).tx_view().queued,
                ..old(self).tx_view()
            }),
    {
        self.tx.flush()
    }

    /// Remove and return the words the transmit lane has serialized,
    /// oldest first: the hardware side of the wire contract.
    pub fn take_transmitted(&mut self) -> (words: Vec<u32>)
        ensures
            final(self).engine_id() == old(self).engine_id(),
            final(self).rx_view() == old(self).rx_view(),
            final(self).wf() == old(self).wf(),
            words@ == old(self).tx_view().wire,
            final(self).tx_view() == (TxLaneView {
                wire: Seq::<u32>::empty(),
                ..old(self).tx_view()
            }),
    {
        self.tx.take_transmitted()
    }

    /// Stop both lanes as one step, keeping all buffered data.
    pub fn stop(self) -> (uart: PioUart<Configured>)
        ensures
            uart.wf() == self.wf(),
            uart.engine_id() == self.engine_id(),
            uart.rx_view() == self.rx_view(),
            uart.tx_view() == self.tx_view(),
    {
        PioUart {
            rx: self.rx.stop(),
            tx: self.tx.stop(),
            rx_program: self.rx_program,
            tx_program: self.tx_program,
            pio: self.pio,
            sm2: self.sm2,
            sm3: self.sm3,
        }
    }
}

} // verus!
