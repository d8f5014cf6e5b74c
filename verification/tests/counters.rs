use mcxa_lpuart::{
    note_rx_idle_finalize, note_rx_overrun, rx_idle_finalize_count, rx_overrun_count, RxCounters,
};

#[test]
fn counts_start_at_zero() {
    let counters = RxCounters::new();
    for lpuart in 0..8 {
        assert_eq!(rx_overrun_count(&counters, lpuart), 0);
        assert_eq!(rx_idle_finalize_count(&counters, lpuart), 0);
    }
}

#[test]
fn an_overrun_counts_for_its_instance_only() {
    let mut counters = RxCounters::new();
    note_rx_overrun(&mut counters, 5);
    note_rx_overrun(&mut counters, 5);
    note_rx_overrun(&mut counters, 1);
    assert_eq!(rx_overrun_count(&counters, 5), 2);
    assert_eq!(rx_overrun_count(&counters, 1), 1);
    assert_eq!(rx_overrun_count(&counters, 0), 0);
    assert_eq!(rx_idle_finalize_count(&counters, 5), 0);
}

#[test]
fn an_idle_line_counts_for_its_instance_only() {
    let mut counters = RxCounters::new();
    note_rx_idle_finalize(&mut counters, 0);
    assert_eq!(rx_idle_finalize_count(&counters, 0), 1);
    assert_eq!(rx_idle_finalize_count(&counters, 1), 0);
    assert_eq!(rx_overrun_count(&counters, 0), 0);
}

#[test]
fn an_index_without_instance_counts_nothing() {
    let mut counters = RxCounters::new();
    note_rx_overrun(&mut counters, 6);
    note_rx_idle_finalize(&mut counters, usize::MAX);
    for lpuart in 0..8 {
        assert_eq!(rx_overrun_count(&counters, lpuart), 0);
        assert_eq!(rx_idle_finalize_count(&counters, lpuart), 0);
    }
}

#[test]
fn the_count_is_the_number_of_events() {
    let mut counters = RxCounters::new();
    for n in 1..=1000u32 {
        note_rx_overrun(&mut counters, 3);
        assert_eq!(rx_overrun_count(&counters, 3), n);
    }
}

#[test]
fn counts_do_not_depend_on_what_else_was_noted() {
    let mut counters = RxCounters::new();
    for n in 0..60usize {
        note_rx_overrun(&mut counters, n % 8);
        note_rx_idle_finalize(&mut counters, n % 3);
    }
    for lpuart in 0..8 {
        let overruns = (0..60).filter(|n| n % 8 == lpuart && lpuart < 6).count();
        let idle = (0..60).filter(|n| n % 3 == lpuart).count();
        assert_eq!(rx_overrun_count(&counters, lpuart) as usize, overruns);
        assert_eq!(rx_idle_finalize_count(&counters, lpuart) as usize, idle);
    }
}
