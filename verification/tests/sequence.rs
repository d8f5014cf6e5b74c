use mcxa_lpuart::registers::{
    Baud, BaudEdit, Ctrl, CtrlEdit, Dozeen, Fifo, FifoEdit, Modir, ModirEdit, Stat, StatEdit,
    WaterWrite,
};
use mcxa_lpuart::sequence::{
    clear_all_status_flags, configure_baudrate, configure_bit_order, configure_control_settings,
    configure_fifo, configure_flow_control, configure_frame_format, disable_peripheral,
    disable_transceiver, enable_transceiver, initialization_sequence, perform_software_reset,
};
use mcxa_lpuart::{
    Config, DataBits, Div4, Error, IdleConfig, IdleType, LpuartClockSel, MsbFirst, Parity,
    PoweredClock, Rst, Rxflush, Step, StopBits, Swap, Tc, TxCtsConfig, TxCtsSource, Txflush,
};

/// Registers that behave as plain memory, but for the flags of `STAT` and the flush commands
/// and the flag of `FIFO`.
struct Bank {
    baud: Baud,
    ctrl: Ctrl,
    fifo: Fifo,
    stat: Stat,
    modir: Modir,
    water: WaterWrite,
    off_all_the_time: bool,
}

impl Bank {
    fn new(set: bool) -> Bank {
        Bank {
            baud: Baud {
                osr: 15,
                sbr: 0,
                bothedge: set,
                sbns: StopBits::Two,
                m10: set,
                rdmae: set,
                tdmae: set,
            },
            ctrl: Ctrl {
                te: set,
                re: set,
                pe: set,
                pt: Parity::Odd,
                dozeen: Dozeen::Disabled,
                m: DataBits::Data8,
                idlecfg: IdleConfig::Idle64,
                ilt: IdleType::FromStop,
                swap: Swap::Swap,
                tie: set,
                rie: set,
                orie: set,
                peie: set,
                feie: set,
                neie: set,
            },
            fifo: Fifo {
                txfe: set,
                rxfe: set,
                txflush: Txflush::NoEffect,
                rxflush: Rxflush::NoEffect,
                rxuf: set,
            },
            stat: Stat {
                or: set,
                pf: set,
                fe: set,
                nf: set,
                rdrf: set,
                idle: set,
                raf: 0,
                rxedgif: set,
                tc: Tc::Complete,
                msbf: MsbFirst::MsbFirst,
            },
            modir: Modir {
                txctsc: TxCtsConfig::Idle,
                txctssrc: TxCtsSource::Match,
                rxrtse: set,
                txctse: set,
            },
            water: WaterWrite {
                rxwater: 0,
                txwater: 0,
            },
            off_all_the_time: true,
        }
    }

    fn perform(&mut self, steps: &[Step]) {
        for (i, step) in steps.iter().enumerate() {
            match *step {
                Step::ModifyBaud(edit) => self.baud = self.baud.modify(edit),
                Step::ModifyCtrl(edit) | Step::ModifyCtrlUninterrupted(edit) => {
                    self.ctrl = self.ctrl.modify(edit)
                }
                Step::ModifyFifo(edit) => {
                    let written = self.fifo.modify(edit);
                    self.fifo = Fifo {
                        txflush: Txflush::NoEffect,
                        rxflush: Rxflush::NoEffect,
                        rxuf: self.fifo.rxuf && !written.rxuf,
                        ..written
                    };
                }
                Step::ModifyModir(edit) => self.modir = self.modir.modify(edit),
                Step::ModifyStat(edit) => {
                    let written = self.stat.modify(edit);
                    self.stat = Stat {
                        or: self.stat.or && !written.or,
                        pf: self.stat.pf && !written.pf,
                        fe: self.stat.fe && !written.fe,
                        nf: self.stat.nf && !written.nf,
                        idle: self.stat.idle && !written.idle,
                        rxedgif: self.stat.rxedgif && !written.rxedgif,
                        ..written
                    };
                }
                Step::WriteWater(water) => self.water = water,
                _ => {}
            }
            // The reset takes two accesses, the disabling the third.
            if i >= 2 && i + 1 < steps.len() && (self.ctrl.te || self.ctrl.re) {
                self.off_all_the_time = false;
            }
        }
    }
}

#[test]
fn the_default_configuration() {
    assert_eq!(
        Config::default(),
        Config {
            power: PoweredClock::NormalEnabledDeepSleepDisabled,
            source: LpuartClockSel::FroLfDiv,
            div: Div4::no_div(),
            baudrate_bps: 115_200,
            parity_mode: None,
            data_bits_count: DataBits::Data8,
            msb_first: MsbFirst::LsbFirst,
            stop_bits_count: StopBits::One,
            tx_fifo_watermark: 0,
            rx_fifo_watermark: 1,
            tx_cts_source: TxCtsSource::Cts,
            tx_cts_config: TxCtsConfig::Start,
            rx_idle_type: IdleType::FromStart,
            rx_idle_config: IdleConfig::Idle1,
            swap_txd_rxd: false,
        }
    );
    assert_eq!(Div4::no_div().divisor, 1);
}

#[test]
fn reset_and_disable() {
    assert_eq!(
        perform_software_reset(),
        vec![
            Step::WriteGlobal(Rst::Reset),
            Step::WriteGlobal(Rst::NoEffect)
        ]
    );
    assert_eq!(
        disable_transceiver(),
        vec![Step::ModifyCtrl(CtrlEdit {
            te: Some(false),
            re: Some(false),
            ..CtrlEdit::none()
        })]
    );
}

#[test]
fn both_edges_are_sampled_from_ratio_4_to_7() {
    for (baudrate, clock, osr, sbr, bothedge) in [
        (3_000_000, 12_000_000, 3, 1, true),
        (1_000_000, 7_000_000, 6, 1, true),
        (1_500_000, 12_000_000, 7, 1, false),
        (115_200, 12_000_000, 25, 4, false),
    ] {
        assert_eq!(
            configure_baudrate(baudrate, clock),
            Ok(vec![Step::ModifyBaud(BaudEdit {
                osr: Some(osr),
                sbr: Some(sbr),
                bothedge: Some(bothedge),
                ..BaudEdit::none()
            })])
        );
    }
    assert_eq!(
        configure_baudrate(4_000_000, 12_000_000),
        Err(Error::UnsupportedBaudrate)
    );
}

#[test]
fn frame_format() {
    let config = Config {
        stop_bits_count: StopBits::Two,
        ..Config::default()
    };
    assert_eq!(
        configure_frame_format(&config),
        vec![
            Step::ModifyBaud(BaudEdit {
                sbns: Some(StopBits::Two),
                ..BaudEdit::none()
            }),
            Step::ModifyBaud(BaudEdit {
                m10: Some(false),
                ..BaudEdit::none()
            }),
        ]
    );
}

#[test]
fn control_settings() {
    for (data_bits_count, parity_mode, m) in [
        (DataBits::Data8, None, DataBits::Data8),
        (DataBits::Data8, Some(Parity::Even), DataBits::Data9),
        (DataBits::Data9, None, DataBits::Data9),
        (DataBits::Data9, Some(Parity::Odd), DataBits::Data9),
    ] {
        for swap_txd_rxd in [false, true] {
            let config = Config {
                data_bits_count,
                parity_mode,
                swap_txd_rxd,
                rx_idle_config: IdleConfig::Idle16,
                rx_idle_type: IdleType::FromStop,
                ..Config::default()
            };
            assert_eq!(
                configure_control_settings(&config),
                vec![Step::ModifyCtrl(CtrlEdit {
                    pe: Some(parity_mode.is_some()),
                    pt: parity_mode,
                    dozeen: Some(Dozeen::Enabled),
                    m: Some(m),
                    idlecfg: Some(IdleConfig::Idle16),
                    ilt: Some(IdleType::FromStop),
                    swap: Some(if swap_txd_rxd {
                        Swap::Swap
                    } else {
                        Swap::Standard
                    }),
                    ..CtrlEdit::none()
                })]
            );
        }
    }
}

#[test]
fn fifo_settings() {
    let config = Config {
        tx_fifo_watermark: 2,
        rx_fifo_watermark: 3,
        ..Config::default()
    };
    assert_eq!(
        configure_fifo(&config),
        vec![
            Step::WriteWater(WaterWrite {
                rxwater: 3,
                txwater: 2
            }),
            Step::ModifyFifo(FifoEdit {
                txfe: Some(true),
                rxfe: Some(true),
                ..FifoEdit::none()
            }),
            Step::ModifyFifo(FifoEdit {
                txflush: Some(Txflush::TxfifoRst),
                rxflush: Some(Rxflush::RxfifoRst),
                ..FifoEdit::none()
            }),
        ]
    );
}

#[test]
fn status_and_bit_order() {
    assert_eq!(
        clear_all_status_flags(),
        vec![Step::ModifyStat(StatEdit::none())]
    );
    assert_eq!(
        configure_bit_order(MsbFirst::MsbFirst),
        vec![Step::ModifyStat(StatEdit {
            msbf: Some(MsbFirst::MsbFirst)
        })]
    );
}

#[test]
fn flow_control() {
    let config = Config {
        tx_cts_source: TxCtsSource::Match,
        tx_cts_config: TxCtsConfig::Idle,
        ..Config::default()
    };
    assert_eq!(configure_flow_control(false, false, &config), vec![]);
    for (tx_cts, rx_rts) in [(true, false), (false, true), (true, true)] {
        assert_eq!(
            configure_flow_control(tx_cts, rx_rts, &config),
            vec![Step::ModifyModir(ModirEdit {
                txctsc: Some(TxCtsConfig::Idle),
                txctssrc: Some(TxCtsSource::Match),
                rxrtse: Some(rx_rts),
                txctse: Some(tx_cts),
            })]
        );
    }
}

#[test]
fn enabling() {
    for (tx, rx) in [(false, false), (true, false), (false, true), (true, true)] {
        assert_eq!(
            enable_transceiver(tx, rx),
            vec![Step::ModifyCtrl(CtrlEdit {
                te: tx.then_some(true),
                re: rx.then_some(true),
                ..CtrlEdit::none()
            })]
        );
    }
}

#[test]
fn disabling_the_peripheral() {
    assert_eq!(
        disable_peripheral(),
        vec![
            Step::ModifyStat(StatEdit::none()),
            Step::DisableInterrupt,
            Step::ClearCtrl,
            Step::DisableClock,
        ]
    );
}

#[test]
fn a_read_modify_write_keeps_what_it_does_not_set() {
    let ctrl = Bank::new(true).ctrl;
    assert_eq!(ctrl.modify(CtrlEdit::none()), ctrl);
    let edit = CtrlEdit {
        tie: Some(false),
        ..CtrlEdit::none()
    };
    assert_eq!(ctrl.modify(edit), Ctrl { tie: false, ..ctrl });
}

#[test]
fn bringing_up_configures_every_register() {
    let config = Config {
        parity_mode: Some(Parity::Even),
        rx_fifo_watermark: 2,
        ..Config::default()
    };
    for set in [false, true] {
        for (tx, rx) in [(false, false), (true, false), (false, true), (true, true)] {
            for (cts, rts) in [(false, false), (true, false), (false, true)] {
                let mut bank = Bank::new(set);
                let before = bank.modir;
                let (steps, result) =
                    initialization_sequence(tx, rx, cts, rts, &config, 12_000_000);
                assert_eq!(result, Ok(()));
                bank.perform(&steps);
                assert!(bank.off_all_the_time);
                assert_eq!((bank.ctrl.te, bank.ctrl.re), (tx, rx));
                assert!(bank.ctrl.pe);
                assert_eq!(bank.ctrl.pt, Parity::Even);
                assert_eq!(bank.ctrl.m, DataBits::Data9);
                assert_eq!(bank.ctrl.dozeen, Dozeen::Enabled);
                assert_eq!(bank.ctrl.idlecfg, IdleConfig::Idle1);
                assert_eq!(bank.ctrl.ilt, IdleType::FromStart);
                assert_eq!(bank.ctrl.swap, Swap::Standard);
                assert_eq!((bank.baud.osr, bank.baud.sbr), (25, 4));
                assert!(!bank.baud.bothedge && !bank.baud.m10);
                assert_eq!(bank.baud.sbns, StopBits::One);
                assert_eq!((bank.water.rxwater, bank.water.txwater), (2, 0));
                assert!(bank.fifo.txfe && bank.fifo.rxfe);
                assert!(!bank.stat.or && !bank.stat.pf && !bank.stat.fe && !bank.stat.nf);
                assert!(!bank.stat.idle && !bank.stat.rxedgif);
                assert_eq!(bank.stat.msbf, MsbFirst::LsbFirst);
                if cts || rts {
                    assert_eq!((bank.modir.txctse, bank.modir.rxrtse), (cts, rts));
                    assert_eq!(bank.modir.txctssrc, TxCtsSource::Cts);
                    assert_eq!(bank.modir.txctsc, TxCtsConfig::Start);
                } else {
                    assert_eq!(bank.modir, before);
                }
            }
        }
    }
}

#[test]
fn the_last_access_to_fifo_flushes_enabled_fifos() {
    let (steps, result) =
        initialization_sequence(true, true, true, true, &Config::default(), 12_000_000);
    assert_eq!(result, Ok(()));
    let flush = FifoEdit {
        txflush: Some(Txflush::TxfifoRst),
        rxflush: Some(Rxflush::RxfifoRst),
        ..FifoEdit::none()
    };
    let last = steps
        .iter()
        .rposition(|step| matches!(step, Step::ModifyFifo(_)))
        .unwrap();
    assert_eq!(steps[last], Step::ModifyFifo(flush));
    let mut bank = Bank::new(false);
    bank.perform(&steps[..last].to_vec());
    assert!(bank.fifo.txfe && bank.fifo.rxfe);
}

#[test]
fn an_unsupported_rate_leaves_the_transceiver_disabled() {
    let config = Config {
        baudrate_bps: 4_000_000,
        ..Config::default()
    };
    let (steps, result) = initialization_sequence(true, true, false, false, &config, 12_000_000);
    assert_eq!(result, Err(Error::UnsupportedBaudrate));
    let mut expected = perform_software_reset();
    expected.append(&mut disable_transceiver());
    assert_eq!(steps, expected);
}
