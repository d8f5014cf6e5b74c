use mcxa_lpuart::registers::{Param, RxErrorFlags, Stat, Water};
use mcxa_lpuart::{
    check_and_clear_rx_errors, has_rx_data_pending, rx_data_source, wait_for_tx_complete, Error,
    MsbFirst, RxDataReading, RxDataSource, Tc, TxWait, TxWaitReading,
};

fn quiet() -> Stat {
    Stat {
        or: false,
        pf: false,
        fe: false,
        nf: false,
        rdrf: false,
        idle: false,
        raf: 0,
        rxedgif: false,
        tc: Tc::Complete,
        msbf: MsbFirst::LsbFirst,
    }
}

fn water(rxcount: u8, txcount: u8) -> Water {
    Water {
        rxwater: 1,
        txwater: 0,
        rxcount,
        txcount,
    }
}

fn flags(or: bool, pf: bool, fe: bool, nf: bool) -> RxErrorFlags {
    RxErrorFlags { or, pf, fe, nf }
}

#[test]
fn no_error() {
    assert_eq!(
        check_and_clear_rx_errors(quiet()),
        (flags(false, false, false, false), Ok(()))
    );
}

#[test]
fn each_error_alone() {
    assert_eq!(
        check_and_clear_rx_errors(Stat { or: true, ..quiet() }),
        (flags(true, false, false, false), Err(Error::Overrun))
    );
    assert_eq!(
        check_and_clear_rx_errors(Stat { pf: true, ..quiet() }),
        (flags(false, true, false, false), Err(Error::Parity))
    );
    assert_eq!(
        check_and_clear_rx_errors(Stat { fe: true, ..quiet() }),
        (flags(false, false, true, false), Err(Error::Framing))
    );
    assert_eq!(
        check_and_clear_rx_errors(Stat { nf: true, ..quiet() }),
        (flags(false, false, false, true), Err(Error::Noise))
    );
}

/// `STAT` after a word with these flags raised and every other bit zero was written to it.
fn written(stat: Stat, flags: RxErrorFlags) -> Stat {
    Stat {
        or: stat.or && !flags.or,
        pf: stat.pf && !flags.pf,
        fe: stat.fe && !flags.fe,
        nf: stat.nf && !flags.nf,
        ..stat
    }
}

#[test]
fn clearing_leaves_other_flags_and_later_errors() {
    let seen = Stat {
        fe: true,
        idle: true,
        rxedgif: true,
        rdrf: true,
        raf: 1,
        tc: Tc::Active,
        ..quiet()
    };
    let (clear, result) = check_and_clear_rx_errors(seen);
    assert_eq!(result, Err(Error::Framing));
    let after = written(Stat { nf: true, ..seen }, clear);
    assert_eq!(
        after,
        Stat {
            fe: false,
            nf: true,
            ..seen
        }
    );
    assert_eq!(check_and_clear_rx_errors(after).1, Err(Error::Noise));
}

#[test]
fn errors_have_an_order_and_are_all_cleared() {
    let all = Stat {
        or: true,
        pf: true,
        fe: true,
        nf: true,
        ..quiet()
    };
    assert_eq!(
        check_and_clear_rx_errors(all),
        (flags(true, true, true, true), Err(Error::Overrun))
    );
    assert_eq!(
        check_and_clear_rx_errors(Stat { or: false, ..all }),
        (flags(false, true, true, true), Err(Error::Parity))
    );
    assert_eq!(
        check_and_clear_rx_errors(Stat {
            or: false,
            pf: false,
            ..all
        }),
        (flags(false, false, true, true), Err(Error::Framing))
    );
}

#[test]
fn an_error_is_reported_once_and_none_is_lost() {
    let mut latched = Stat { fe: true, ..quiet() };
    let (written, result) = check_and_clear_rx_errors(latched);
    assert_eq!(result, Err(Error::Framing));
    // An overrun comes up before the flags are written.
    latched.or = true;
    latched.or &= !written.or;
    latched.fe &= !written.fe;
    let (written, result) = check_and_clear_rx_errors(latched);
    assert_eq!(result, Err(Error::Overrun));
    latched.or &= !written.or;
    assert_eq!(check_and_clear_rx_errors(latched).1, Ok(()));
}

#[test]
fn received_data_is_looked_for_in_the_fifo_if_there_is_one() {
    assert_eq!(rx_data_source(Param { rxfifo: 2 }), RxDataSource::Water);
    assert_eq!(rx_data_source(Param { rxfifo: 0 }), RxDataSource::Stat);
}

#[test]
fn received_data() {
    assert!(has_rx_data_pending(RxDataReading::Water(water(1, 0))));
    assert!(!has_rx_data_pending(RxDataReading::Water(water(0, 3))));
    assert!(has_rx_data_pending(RxDataReading::Stat(Stat {
        rdrf: true,
        ..quiet()
    })));
    assert!(!has_rx_data_pending(RxDataReading::Stat(quiet())));
}

#[test]
fn waiting_for_the_transmitter() {
    let active = Stat {
        tc: Tc::Active,
        ..quiet()
    };
    let mut wait = TxWait::FifoEmpty;
    wait = wait_for_tx_complete(wait, TxWaitReading::Water(water(0, 2)));
    assert_eq!(wait, TxWait::FifoEmpty);
    wait = wait_for_tx_complete(wait, TxWaitReading::Stat(quiet()));
    assert_eq!(wait, TxWait::FifoEmpty);
    wait = wait_for_tx_complete(wait, TxWaitReading::Water(water(4, 0)));
    assert_eq!(wait, TxWait::ShiftedOut);
    wait = wait_for_tx_complete(wait, TxWaitReading::Stat(active));
    assert_eq!(wait, TxWait::ShiftedOut);
    wait = wait_for_tx_complete(wait, TxWaitReading::Stat(quiet()));
    assert_eq!(wait, TxWait::Complete);
    wait = wait_for_tx_complete(wait, TxWaitReading::Stat(active));
    assert_eq!(wait, TxWait::Complete);
}
