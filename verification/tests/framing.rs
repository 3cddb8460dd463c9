use pio_uart::{
    install_rx_program, install_tx_program, pack_frame, unpack_aux, unpack_data, PioInstance,
    PioSerialError, PioUartRx, PioUartTx, RxPin, Running, SerialErrorKind, TxPin,
};

fn rx_lane(baud: u32, sysfreq: u32) -> PioUartRx<Running> {
    let pio = PioInstance { id: 0 };
    let (mut engine, sm0, _sm1, _sm2, _sm3) = pio.split();
    let mut program = install_rx_program(&mut engine).ok().unwrap();
    PioUartRx::new(RxPin { id: 16 }, sm0, &mut program, baud, sysfreq).enable()
}

fn tx_lane(baud: u32, sysfreq: u32) -> PioUartTx<Running> {
    let pio = PioInstance { id: 0 };
    let (mut engine, _sm0, sm1, _sm2, _sm3) = pio.split();
    let mut program = install_tx_program(&mut engine).ok().unwrap();
    PioUartTx::new(TxPin { id: 17 }, sm1, &mut program, baud, sysfreq).enable()
}

#[test]
fn pack_and_unpack_one_frame() {
    let w = pack_frame(0xa5, 0x01);
    assert_eq!(w, 0xa501);
    assert_eq!(unpack_data(w), 0xa5);
    assert_eq!(unpack_aux(w), 0x01);
    // only the low bit of the auxiliary byte is carried
    assert_eq!(pack_frame(0x10, 0xfe), 0x1000);
}

#[test]
fn short_read_buffer_fails_and_touches_nothing() {
    let mut rx = rx_lane(19200, 125_000_000);
    rx.deliver_word(0x4100);
    rx.deliver_word(0x4201);
    let mut tiny: Vec<u8> = vec![0];
    assert_eq!(rx.read_raw(&mut tiny), Err(()));
    assert_eq!(tiny, vec![0]);
    // the queue was not drained: a later read still sees both frames
    let mut buf: Vec<u8> = vec![0; 4];
    assert_eq!(rx.read_raw(&mut buf), Ok(4));
    assert_eq!(buf, vec![0x41, 0x00, 0x42, 0x01]);
}

#[test]
fn empty_read_buffer_fails() {
    let mut rx = rx_lane(19200, 125_000_000);
    let mut empty: Vec<u8> = Vec::new();
    assert_eq!(rx.read_raw(&mut empty), Err(()));
}

#[test]
fn byte_stream_read_maps_to_io_error() {
    let mut rx = rx_lane(19200, 125_000_000);
    let mut tiny: Vec<u8> = vec![0];
    let e = rx.read(&mut tiny).unwrap_err();
    assert!(matches!(e, PioSerialError::IO));
    assert!(matches!(e.kind(), SerialErrorKind::Other));
}

#[test]
fn read_returns_even_min_of_queue_and_buffer() {
    // three queued words against destinations of several sizes
    let words = [0x0100u32, 0x0201, 0x0300];

    // buffer smaller than the queue, even length: fills it
    let mut rx = rx_lane(19200, 125_000_000);
    for w in words {
        rx.deliver_word(w);
    }
    let mut buf4: Vec<u8> = vec![0xee; 4];
    assert_eq!(rx.read_raw(&mut buf4), Ok(4));
    assert_eq!(buf4, vec![0x01, 0x00, 0x02, 0x01]);
    // the third frame is still queued
    let mut rest: Vec<u8> = vec![0xee; 8];
    assert_eq!(rx.read_raw(&mut rest), Ok(2));
    assert_eq!(rest, vec![0x03, 0x00, 0xee, 0xee, 0xee, 0xee, 0xee, 0xee]);

    // odd-length buffer: rounded down to a whole frame, never odd
    let mut rx = rx_lane(19200, 125_000_000);
    for w in words {
        rx.deliver_word(w);
    }
    let mut buf5: Vec<u8> = vec![0xee; 5];
    assert_eq!(rx.read_raw(&mut buf5), Ok(4));
    assert_eq!(buf5, vec![0x01, 0x00, 0x02, 0x01, 0xee]);

    // buffer larger than the queue: drains it, count 2 * words
    let mut rx = rx_lane(19200, 125_000_000);
    for w in words {
        rx.deliver_word(w);
    }
    let mut big: Vec<u8> = vec![0xee; 100];
    assert_eq!(rx.read_raw(&mut big), Ok(6));
    assert_eq!(&big[..6], &[0x01, 0x00, 0x02, 0x01, 0x03, 0x00]);
    assert_eq!(big[6], 0xee);
}

#[test]
fn read_on_empty_queue_returns_zero() {
    let mut rx = rx_lane(19200, 125_000_000);
    let mut buf: Vec<u8> = vec![0xee; 6];
    assert_eq!(rx.read_raw(&mut buf), Ok(0));
    assert_eq!(buf, vec![0xee; 6]);
}

#[test]
fn write_even_buffer_pushes_one_word_per_frame() {
    let mut tx = tx_lane(19200, 125_000_000);
    let msg: Vec<u8> = vec![0x41, 0x00, 0x42, 0x01];
    assert_eq!(tx.write_raw(&msg), Ok(()));
    assert_eq!(tx.queued_count(), 2);
    assert_eq!(tx.flush(), Ok(()));
    assert_eq!(tx.queued_count(), 0);
    let words = tx.take_transmitted();
    // high byte: even-indexed source byte; low bit: odd-indexed byte's bit 0
    assert_eq!(words, vec![0x4100, 0x4201]);
}

#[test]
fn write_masks_auxiliary_byte_to_its_low_bit() {
    let mut tx = tx_lane(19200, 125_000_000);
    let msg: Vec<u8> = vec![0xff, 0xfe, 0x00, 0xff];
    assert_eq!(tx.write_raw(&msg), Ok(()));
    assert_eq!(tx.flush(), Ok(()));
    assert_eq!(tx.take_transmitted(), vec![0xff00, 0x0001]);
}

#[test]
fn write_odd_buffer_ignores_trailing_byte() {
    let mut tx = tx_lane(19200, 125_000_000);
    let msg: Vec<u8> = vec![0x41, 0x00, 0x42, 0x01, 0x7f];
    assert_eq!(tx.write_raw(&msg), Ok(()));
    assert_eq!(tx.queued_count(), 2);
    assert_eq!(tx.flush(), Ok(()));
    assert_eq!(tx.take_transmitted(), vec![0x4100, 0x4201]);
}

#[test]
fn write_single_byte_pushes_nothing() {
    let mut tx = tx_lane(19200, 125_000_000);
    let msg: Vec<u8> = vec![0x55];
    assert_eq!(tx.write_raw(&msg), Ok(()));
    assert_eq!(tx.queued_count(), 0);
}

#[test]
fn byte_stream_write_reports_full_length() {
    let mut tx = tx_lane(19200, 125_000_000);
    let msg: Vec<u8> = vec![0x41, 0x00, 0x42, 0x01, 0x7f];
    assert_eq!(tx.write(&msg), Ok(5));
    assert_eq!(tx.queued_count(), 2);
}

#[test]
fn round_trip_two_frames() {
    // data 0x41 with auxiliary 0, data 0x42 with auxiliary 1, over a
    // loopback: every word serialized by the transmitter arrives at
    // the receiver unchanged
    let mut tx = tx_lane(19200, 125_000_000);
    let mut rx = rx_lane(19200, 125_000_000);
    let sent: Vec<u8> = vec![0x41, 0x00, 0x42, 0x01];
    assert_eq!(tx.write_raw(&sent), Ok(()));
    assert_eq!(tx.flush(), Ok(()));
    for w in tx.take_transmitted() {
        rx.deliver_word(w);
    }
    let mut received: Vec<u8> = vec![0; 4];
    assert_eq!(rx.read_raw(&mut received), Ok(4));
    assert_eq!(received, sent);
}
