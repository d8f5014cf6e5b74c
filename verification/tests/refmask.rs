use mcxa_lpuart::{TxRxRef, TxRxRefMask};

#[test]
fn a_new_mask_has_nothing_alive() {
    let mut mask = TxRxRefMask::new();
    assert!(!mask.fetch_any_alive_reset());
}

#[test]
fn the_last_half_to_go_is_told_so() {
    for (first, second) in [(TxRxRef::Tx, TxRxRef::Rx), (TxRxRef::Rx, TxRxRef::Tx)] {
        let mut mask = TxRxRefMask::new();
        mask.set_active(TxRxRef::Tx);
        mask.set_active(TxRxRef::Rx);
        assert!(!mask.set_inactive_fetch_last(first));
        assert!(mask.set_inactive_fetch_last(second));
        assert!(!mask.fetch_any_alive_reset());
    }
}

#[test]
fn a_lone_half_is_the_last() {
    let mut mask = TxRxRefMask::new();
    mask.set_active(TxRxRef::Tx);
    assert!(mask.set_inactive_fetch_last(TxRxRef::Tx));
}

#[test]
fn a_half_counts_once() {
    let mut mask = TxRxRefMask::new();
    mask.set_active(TxRxRef::Rx);
    mask.set_active(TxRxRef::Rx);
    assert!(mask.set_inactive_fetch_last(TxRxRef::Rx));
}

#[test]
fn the_half_that_stays_is_not_forgotten() {
    let mut mask = TxRxRefMask::new();
    mask.set_active(TxRxRef::Rx);
    assert!(!mask.set_inactive_fetch_last(TxRxRef::Tx));
    assert!(mask.fetch_any_alive_reset());
}

#[test]
fn leaked_halves_are_seen_once() {
    let mut mask = TxRxRefMask::new();
    mask.set_active(TxRxRef::Tx);
    assert!(mask.fetch_any_alive_reset());
    assert!(!mask.fetch_any_alive_reset());
}
