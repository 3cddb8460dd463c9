use pio_uart::{
    install_rx_program, install_tx_program, InstallError, PioInstance, PioUart, PioUartRx, RxPin,
    TxPin,
};

#[test]
fn install_fails_only_when_region_occupied() {
    let pio = PioInstance { id: 0 };
    let (mut engine, _sm0, _sm1, _sm2, _sm3) = pio.split();
    assert!(install_rx_program(&mut engine).is_ok());
    assert_eq!(
        install_rx_program(&mut engine).err(),
        Some(InstallError::Occupied)
    );
    // the transmit program's region is independent
    assert!(install_tx_program(&mut engine).is_ok());
    assert_eq!(
        install_tx_program(&mut engine).err(),
        Some(InstallError::Occupied)
    );
}

#[test]
fn lane_free_returns_slot_and_pin() {
    let pio = PioInstance { id: 1 };
    let (mut engine, sm0, _sm1, _sm2, _sm3) = pio.split();
    let mut program = install_rx_program(&mut engine).ok().unwrap();
    let lane = PioUartRx::new(RxPin { id: 16 }, sm0, &mut program, 19200, 125_000_000);
    let (sm, pin) = lane.free();
    assert_eq!(sm.engine_id, 1);
    assert_eq!(sm.index, 0);
    assert_eq!(pin.id, 16);
}

#[test]
fn stop_keeps_buffered_data() {
    let pio = PioInstance { id: 0 };
    let (mut engine, sm0, _sm1, _sm2, _sm3) = pio.split();
    let mut program = install_rx_program(&mut engine).ok().unwrap();
    let lane = PioUartRx::new(RxPin { id: 16 }, sm0, &mut program, 19200, 125_000_000);
    let mut lane = lane.enable();
    lane.deliver_word(0x5a01);
    // stop, then run again: the queued frame survives
    let lane = lane.stop();
    let mut lane = lane.enable();
    let mut buf: Vec<u8> = vec![0; 2];
    assert_eq!(lane.read_raw(&mut buf), Ok(2));
    assert_eq!(buf, vec![0x5a, 0x01]);
}

#[test]
fn facade_joint_lifecycle_and_teardown() {
    let uart = PioUart::new(
        PioInstance { id: 0 },
        RxPin { id: 16 },
        TxPin { id: 17 },
        19200,
        125_000_000,
    );
    let mut uart = uart.enable();

    // write through the facade: full length reported, whole frames queued
    let msg: Vec<u8> = vec![0x68, 0x00, 0x69, 0x01];
    assert_eq!(uart.write(&msg), Ok(4));
    assert_eq!(uart.flush(), Ok(()));
    let words = uart.take_transmitted();
    assert_eq!(words, vec![0x6800, 0x6901]);

    // loop the wire back into the facade's receive lane
    for w in words {
        uart.deliver_word(w);
    }
    let mut buf: Vec<u8> = vec![0; 8];
    assert_eq!(uart.read(&mut buf), Ok(4));
    assert_eq!(&buf[..4], &[0x68, 0x00, 0x69, 0x01]);

    // stop both lanes together, then tear down: the engine and both
    // pins come back in their pre-driver form
    let uart = uart.stop();
    let (pio, rx_pin, tx_pin) = uart.free();
    assert_eq!(pio.id, 0);
    assert_eq!(rx_pin.id, 16);
    assert_eq!(tx_pin.id, 17);
}

#[test]
fn freed_resources_can_build_again() {
    let uart = PioUart::new(
        PioInstance { id: 1 },
        RxPin { id: 4 },
        TxPin { id: 5 },
        9600,
        48_000_000,
    );
    let (pio, rx_pin, tx_pin) = uart.free();
    // teardown uninstalled both programs: a second driver builds cleanly
    let uart = PioUart::new(pio, rx_pin, tx_pin, 9600, 48_000_000);
    let (pio, _, _) = uart.free();
    assert_eq!(pio.id, 1);
}
