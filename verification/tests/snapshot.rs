use mcxa_lpuart::registers::{Baud, Ctrl, Dozeen, Fifo, Pcr, Stat, Water};
use mcxa_lpuart::{
    lpuart_index, lpuart_regs, note_rx_idle_finalize, note_rx_overrun, pin_snapshot, port_regs,
    sample_rx, snapshot, DataBits, IdleConfig, IdleType, LpuartAddresses, LpuartInstance,
    LpuartReadings, LpuartSnapshot, MsbFirst, Parity, PinSnapshot, PortInstance, Reading,
    RxCounters, Rxflush, StopBits, Swap, Tc, Txflush,
};

fn readings() -> LpuartReadings {
    LpuartReadings {
        stat: Reading {
            fields: Stat {
                or: true,
                pf: false,
                fe: false,
                nf: true,
                rdrf: true,
                idle: false,
                raf: 1,
                rxedgif: true,
                tc: Tc::Complete,
                msbf: MsbFirst::LsbFirst,
            },
            raw: 0x1111_0001,
        },
        ctrl: Reading {
            fields: Ctrl {
                te: false,
                re: true,
                pe: false,
                pt: Parity::Even,
                dozeen: Dozeen::Enabled,
                m: DataBits::Data8,
                idlecfg: IdleConfig::Idle1,
                ilt: IdleType::FromStart,
                swap: Swap::Standard,
                tie: false,
                rie: true,
                orie: false,
                peie: false,
                feie: false,
                neie: false,
            },
            raw: 0x2222_0002,
        },
        baud: Reading {
            fields: Baud {
                osr: 25,
                sbr: 4,
                bothedge: false,
                sbns: StopBits::One,
                m10: false,
                rdmae: true,
                tdmae: false,
            },
            raw: 0x3333_0003,
        },
        fifo: Reading {
            fields: Fifo {
                txfe: true,
                rxfe: true,
                txflush: Txflush::NoEffect,
                rxflush: Rxflush::NoEffect,
                rxuf: true,
            },
            raw: 0x4444_0004,
        },
        water: Reading {
            fields: Water {
                rxwater: 1,
                txwater: 0,
                rxcount: 3,
                txcount: 2,
            },
            raw: 0x5555_0005,
        },
    }
}

fn expected() -> LpuartSnapshot {
    LpuartSnapshot {
        overrun: true,
        framing_error: false,
        noise_error: true,
        parity_error: false,
        rx_full: true,
        idle: false,
        rx_enabled: true,
        rx_active: true,
        rx_pin_edge: true,
        rx_underflow: true,
        rx_fifo_count: 3,
        tx_fifo_count: 2,
        rx_dma_enabled: true,
        tx_dma_enabled: false,
        stat: 0x1111_0001,
        ctrl: 0x2222_0002,
        baud: 0x3333_0003,
        fifo: 0x4444_0004,
        water: 0x5555_0005,
    }
}

fn pcr() -> Reading<Pcr> {
    Reading {
        fields: Pcr {
            mux: 3,
            ibe: 1,
            pe: 0,
            ps: 1,
            inv: 0,
        },
        raw: 0x1301,
    }
}

#[test]
fn a_snapshot_shows_what_was_read() {
    assert_eq!(snapshot(&readings()), expected());
}

#[test]
fn an_idle_receiver_is_not_active() {
    let mut readings = readings();
    readings.stat.fields.raf = 0;
    readings.stat.fields.idle = true;
    readings.stat.fields.pf = true;
    readings.stat.fields.fe = true;
    readings.baud.fields.tdmae = true;
    let snapshot = snapshot(&readings);
    assert_eq!(
        snapshot,
        LpuartSnapshot {
            rx_active: false,
            idle: true,
            parity_error: true,
            framing_error: true,
            tx_dma_enabled: true,
            ..expected()
        }
    );
}

#[test]
fn a_pin_snapshot_shows_what_was_read() {
    assert_eq!(
        pin_snapshot(1, 8, pcr()),
        PinSnapshot {
            port: 1,
            pin: 8,
            mux: 3,
            input_buffer: true,
            pull_enabled: false,
            pull_up: true,
            inverted: false,
            pcr: 0x1301,
        }
    );
}

#[test]
fn instances_by_index() {
    assert_eq!(lpuart_regs(0), LpuartInstance::Lpuart0);
    assert_eq!(lpuart_regs(1), LpuartInstance::Lpuart1);
    assert_eq!(lpuart_regs(2), LpuartInstance::Lpuart2);
    assert_eq!(lpuart_regs(3), LpuartInstance::Lpuart3);
    assert_eq!(lpuart_regs(4), LpuartInstance::Lpuart4);
    assert_eq!(lpuart_regs(5), LpuartInstance::Lpuart5);
}

#[test]
fn ports_by_index() {
    assert_eq!(port_regs(0, false), PortInstance::Port0);
    assert_eq!(port_regs(1, false), PortInstance::Port1);
    assert_eq!(port_regs(2, false), PortInstance::Port2);
    assert_eq!(port_regs(3, false), PortInstance::Port3);
    assert_eq!(port_regs(4, false), PortInstance::Port4);
    assert_eq!(port_regs(5, true), PortInstance::Port5);
}

#[test]
fn the_index_of_an_instance_by_address() {
    let addresses =
        LpuartAddresses::new([0x1000, 0x2000, 0x3000, 0x4000, 0x5000, 0x6000]).unwrap();
    for i in 0..6 {
        assert_eq!(addresses.address(lpuart_regs(i)), 0x1000 * (i + 1));
        assert_eq!(lpuart_index(&addresses, addresses.address(lpuart_regs(i))), i);
    }
    assert_eq!(lpuart_index(&addresses, 0x7000), 0);
}

#[test]
fn no_two_instances_share_an_address() {
    for i in 0..6 {
        for j in 0..6 {
            let mut addresses = [6, 5, 4, 3, 2, 1];
            addresses[j] = addresses[i];
            assert_eq!(LpuartAddresses::new(addresses).is_some(), i == j);
        }
    }
}

#[test]
fn a_sample_of_lpuart1_on_p1_8() {
    let mut counters = RxCounters::new();
    note_rx_overrun(&mut counters, 1);
    note_rx_overrun(&mut counters, 1);
    note_rx_idle_finalize(&mut counters, 1);
    note_rx_idle_finalize(&mut counters, 2);
    let sample = sample_rx(1, &readings(), "channel", (1, 8), pcr(), &counters);
    assert_eq!(sample.uart, expected());
    assert_eq!(sample.dma, "channel");
    assert_eq!(sample.pin, pin_snapshot(1, 8, pcr()));
    assert_eq!(sample.overruns, 2);
    assert_eq!(sample.idle_finalizes, 1);
}
