use mcxa_lpuart::{calculate_baudrate, Error};

fn rate(baudrate: u32, clock: u32, pair: (u8, u16)) -> u32 {
    let achieved = clock / (u32::from(pair.0) * u32::from(pair.1));
    achieved.abs_diff(baudrate)
}

/// The search written as a plain list of candidates.
fn reference(baudrate: u32, clock: u32) -> Option<(u8, u16)> {
    let mut candidates: Vec<(u32, u32, u32)> = Vec::new();
    for osr in 4..=32u32 {
        let ideal = i64::from(clock / (baudrate * osr));
        let window = if ideal - 2 > 0x1fff {
            0x1fff..=0x1fff
        } else {
            ideal - 2..=ideal + 2
        };
        for sbr in window {
            if (1..=0x1fff).contains(&sbr) {
                let sbr = sbr as u32;
                let diff = (clock / (osr * sbr)).abs_diff(baudrate);
                if diff <= (baudrate / 100) * 3 {
                    candidates.push((diff, 32 - osr, sbr));
                }
            }
        }
    }
    candidates
        .iter()
        .min()
        .map(|c| ((32 - c.1) as u8, c.2 as u16))
}

#[test]
fn default_rate_from_the_12_mhz_oscillator() {
    assert_eq!(calculate_baudrate(115_200, 12_000_000), Ok((26, 4)));
}

#[test]
fn common_rates() {
    assert_eq!(calculate_baudrate(115_200, 45_000_000), Ok((23, 17)));
    assert_eq!(calculate_baudrate(115_200, 180_000_000), Ok((22, 71)));
    assert_eq!(calculate_baudrate(9_600, 12_000_000), Ok((25, 50)));
    assert_eq!(calculate_baudrate(921_600, 12_000_000), Ok((13, 1)));
    assert_eq!(calculate_baudrate(460_800, 48_000_000), Ok((26, 4)));
}

#[test]
fn low_oversampling_is_used_when_nothing_else_fits() {
    assert_eq!(calculate_baudrate(3_000_000, 12_000_000), Ok((4, 1)));
    assert_eq!(calculate_baudrate(2_000_000, 12_000_000), Ok((6, 1)));
    assert_eq!(calculate_baudrate(1_000_000, 7_000_000), Ok((7, 1)));
    assert_eq!(calculate_baudrate(1_500_000, 12_000_000), Ok((8, 1)));
}

#[test]
fn a_tie_goes_to_the_largest_oversampling_ratio() {
    // 4 * 40, 8 * 20, 16 * 10 and 32 * 5 all divide exactly.
    assert_eq!(calculate_baudrate(99, 99 * 160), Ok((32, 5)));
}

#[test]
fn a_further_tie_goes_to_the_smallest_divider() {
    // With the ratio 32, the dividers 8189 to 8191 all round to one baud.
    assert_eq!(calculate_baudrate(1, 32 * 8191), Ok((32, 8189)));
}

#[test]
fn too_slow_a_clock_is_unsupported() {
    assert_eq!(
        calculate_baudrate(4_000_000, 12_000_000),
        Err(Error::UnsupportedBaudrate)
    );
    assert_eq!(
        calculate_baudrate(115_200, 0),
        Err(Error::UnsupportedBaudrate)
    );
}

#[test]
fn too_fast_a_clock_is_unsupported() {
    assert_eq!(
        calculate_baudrate(1, u32::MAX),
        Err(Error::UnsupportedBaudrate)
    );
}

#[test]
fn the_largest_divider_is_tried_beyond_the_window() {
    assert_eq!(calculate_baudrate(300, 300 * 32 * 8193), Ok((32, 8191)));
    // From here on the window around the ideal divider of every ratio lies beyond the
    // largest divider, which still gives the rate.
    assert_eq!(rate(300, 300 * 32 * 8194, (32, 8191)), 0);
    assert_eq!(calculate_baudrate(300, 300 * 32 * 8194), Ok((32, 8191)));
    assert_eq!(calculate_baudrate(100, 26_220_800), Ok((32, 8191)));
    assert_eq!(rate(100, 26_220_800, (32, 8191)), 0);
}

#[test]
fn the_largest_divider_has_to_be_accurate_enough() {
    // Three baud too much is within the tolerance, four is not.
    assert_eq!(calculate_baudrate(100, 32 * 8191 * 103), Ok((32, 8191)));
    assert_eq!(
        calculate_baudrate(100, 32 * 8191 * 104),
        Err(Error::UnsupportedBaudrate)
    );
}

#[test]
fn the_largest_rate_that_can_be_searched_for() {
    assert_eq!(
        calculate_baudrate(u32::MAX / 32, u32::MAX),
        Ok((32, 1))
    );
}

#[test]
fn the_result_is_the_first_minimum() {
    for baudrate in [50, 300, 1_200, 9_600, 38_400, 115_200, 1_000_000, 3_125_000] {
        for clock in [16_000, 1_000_000, 79_000_000, 12_000_000, 45_000_000, 96_000_000, 180_000_000] {
            assert_eq!(
                calculate_baudrate(baudrate, clock).ok(),
                reference(baudrate, clock)
            );
        }
    }
}

#[test]
fn no_settable_pair_is_better() {
    for (baudrate, clock) in [
        (115_200u32, 12_000_000u32),
        (9_600, 12_000_000),
        (57_600, 7_372_800),
        (300, 79_000_000),
        (2_000, 520_000_000),
    ] {
        let found = calculate_baudrate(baudrate, clock).unwrap();
        let diff = rate(baudrate, clock, found);
        for osr in 4..=32u8 {
            for sbr in 1..=0x1fffu16 {
                let other = rate(baudrate, clock, (osr, sbr));
                assert!(diff < other || (diff == other && osr <= found.0));
            }
        }
    }
}

#[test]
fn a_refused_rate_has_no_settable_pair() {
    for (baudrate, clock) in [(4_000_000, 12_000_000), (100, 32 * 8191 * 104)] {
        assert!(calculate_baudrate(baudrate, clock).is_err());
        for osr in 4..=32u8 {
            for sbr in 1..=0x1fffu16 {
                assert!(rate(baudrate, clock, (osr, sbr)) > (baudrate / 100) * 3);
            }
        }
    }
}

#[test]
fn an_exact_rate_is_met_exactly() {
    for osr in 4..=32u32 {
        for sbr in [1, 2, 7, 100, 1_000] {
            let clock = 1_200 * osr * sbr;
            let found = calculate_baudrate(1_200, clock).unwrap();
            assert_eq!(rate(1_200, clock, found), 0);
        }
    }
}
