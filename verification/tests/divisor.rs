use pio_uart::{compute_divisor, flush_settle_cycles, ClockDivisor};

#[test]
fn divisor_19200_at_125_mhz() {
    // 125_000_000 / (8 * 19200) = 813.802... -> 813 + 205/256
    let d = compute_divisor(19200, 125_000_000);
    assert_eq!(d, ClockDivisor { integer: 813, fraction: 205 });
}

#[test]
fn divisor_115200_at_125_mhz() {
    // 125_000_000 / (8 * 115200) = 135.633... -> 135 + 162/256
    let d = compute_divisor(115_200, 125_000_000);
    assert_eq!(d, ClockDivisor { integer: 135, fraction: 162 });
}

#[test]
fn divisor_at_lower_bound_is_one() {
    // system clock exactly eight times the baud rate: divisor 1 + 0/256
    let d = compute_divisor(1000, 8000);
    assert_eq!(d, ClockDivisor { integer: 1, fraction: 0 });
    assert!(d.integer > 0 || d.fraction > 0);
}

#[test]
fn divisor_is_strictly_positive() {
    let cases: [(u32, u32); 4] = [
        (19200, 125_000_000),
        (9600, 48_000_000),
        (300, 2400),
        (921_600, 133_000_000),
    ];
    for (baud, sysfreq) in cases {
        let d = compute_divisor(baud, sysfreq);
        assert!(d.integer > 0 || d.fraction > 0);
    }
}

#[test]
fn settle_cycles_at_125_mhz() {
    assert_eq!(flush_settle_cycles(125), 62_500);
}
