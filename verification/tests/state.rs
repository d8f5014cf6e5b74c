use mcxa_lpuart::State;

#[test]
fn a_new_state_is_empty() {
    let mut state = State::new();
    assert!(!state.tx_rx_refmask.fetch_any_alive_reset());
    assert!(state.tx_buf.is_empty());
    assert!(state.rx_buf.is_empty());
    assert!(!state.tx_buf.is_available());
    assert!(!state.rx_buf.is_available());
    assert!(!state.tx_waker.wake());
    assert!(!state.rx_waker.wake());
}

#[test]
fn the_default_state_is_a_new_one() {
    let mut state = State::default();
    assert!(!state.tx_rx_refmask.fetch_any_alive_reset());
    assert!(state.tx_buf.is_empty());
    assert!(state.rx_buf.is_empty());
}
