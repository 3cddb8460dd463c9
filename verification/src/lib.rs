//! Software UART over two programmable-sequencer lanes.
//!
//! One lane of a programmable I/O engine receives, one transmits. Each
//! lane owns a sequencer slot and a pin, computes a fixed-point clock
//! divisor from the desired baud rate against the system clock, and
//! moves bytes through the engine's 32-bit FIFO words with a
//! 9-bit-per-frame encoding: every logical frame is two bytes at this
//! boundary — a data byte, then a byte whose low bit is the auxiliary
//! (ninth) bit — and exactly one FIFO word on the engine side.
//!
//! The lifecycle of a lane is carried in its type: a lane is built in
//! the [`Configured`] state, [`PioUartRx::enable`] moves it to
//! [`Running`], `stop` moves it back, and only a `Configured` lane can
//! be freed. Reading, writing, or freeing in the wrong state does not
//! compile.

mod divisor;
mod error;
mod frame;
mod pio;
mod rx;
mod tx;
mod uart;

pub use divisor::{
    compute_divisor, divisor_q8, lemma_divisor_exact_and_positive, valid_rate_pair, ClockDivisor,
    OVERSAMPLE,
};
pub use error::{PioSerialError, SerialErrorKind};
pub use frame::{
    bytes_of_words, frame_word, lemma_frame_round_trip, lemma_word_aux_of_frame,
    lemma_word_data_of_frame, pack_frame, unpack_aux, unpack_data, word_aux, word_data,
    words_of_bytes,
};
pub use pio::{
    install_rx_program, install_tx_program, Buffers, Configured, InstallError, PinDir, PioEngine,
    PioInstance, Running, RxPin, RxProgram, ShiftDirection, TxPin, TxProgram, UninitStateMachine,
    PIN_COUNT, SLOT_COUNT,
};
pub use rx::{lemma_read_count_properties, read_count, rx_protocol_config, PioUartRx, RxLaneView};
pub use tx::{flush_settle_cycles, tx_protocol_config, PioUartTx, TxLaneView, FLUSH_SETTLE_MICROS};
pub use uart::PioUart;
