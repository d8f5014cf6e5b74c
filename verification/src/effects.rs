//! What the register accesses of the driver come to.

use vstd::math::abs;
use vstd::prelude::*;

use crate::baud::{calculate_baudrate, law_selection_is_unique, selected, unsupported};
use crate::config::{Config, DataBits, Parity};
use crate::error::Error;
use crate::registers::{
    edited, Baud, Ctrl, Dozeen, Fifo, Modir, Rst, Rxflush, Stat, StatEdit, Swap, Txflush,
    WaterWrite,
};
use crate::sequence::{
    brings_up, configuration_steps, control_edit, disable_peripheral, disable_peripheral_steps,
    enable_edit, fifo_steps, flow_control_edit, flow_control_steps, initialization_sequence,
    line_steps, quiesce_steps, reset_steps, setup_steps, Step,
};

verus! {

/// What the registers hold, as far as the driver is concerned.
pub struct Registers {
    pub global: Rst,
    pub baud: Baud,
    pub stat: Stat,
    pub ctrl: Ctrl,
    pub water: WaterWrite,
    pub fifo: Fifo,
    pub modir: Modir,
}

impl Ctrl {
    /// Whether neither half of the transceiver is enabled.
    pub open spec fn transceiver_off(self) -> bool {
        !self.te && !self.re
    }

    /// Whether none of the interrupts of the driver is enabled.
    pub open spec fn interrupts_off(self) -> bool {
        !self.tie && !self.rie && !self.orie && !self.peie && !self.feie && !self.neie
    }
}

impl Stat {
    /// The register after `written` was stored in it: a flag that is written as one is
    /// cleared, the bit order is taken over, and what reports a state stays.
    pub open spec fn stored(self, written: Stat) -> Stat {
        Stat {
            or: self.or && !written.or,
            pf: self.pf && !written.pf,
            fe: self.fe && !written.fe,
            nf: self.nf && !written.nf,
            idle: self.idle && !written.idle,
            rxedgif: self.rxedgif && !written.rxedgif,
            msbf: written.msbf,
            ..self
        }
    }

    /// Whether no flag is latched.
    pub open spec fn no_flag_latched(self) -> bool {
        !self.or && !self.pf && !self.fe && !self.nf && !self.idle && !self.rxedgif
    }
}

/// The registers after one access. What a software reset does beyond the register it is
/// asked for in is not part of this. Left open is what the fields of `CTRL` that are no
/// switches read as when it was cleared, and what the flush commands and the underflow flag
/// of `FIFO` read as after an access to it.
pub open spec fn after_step(regs: Registers, step: Step) -> Registers {
    match step {
        Step::WriteGlobal(rst) => Registers { global: rst, ..regs },
        Step::ModifyBaud(edit) => Registers { baud: regs.baud.with(edit), ..regs },
        Step::ModifyCtrl(edit) => Registers { ctrl: regs.ctrl.with(edit), ..regs },
        Step::ModifyCtrlUninterrupted(edit) => Registers { ctrl: regs.ctrl.with(edit), ..regs },
        Step::ClearCtrl => Registers {
            ctrl: Ctrl {
                te: false,
                re: false,
                pe: false,
                tie: false,
                rie: false,
                orie: false,
                peie: false,
                feie: false,
                neie: false,
                ..arbitrary()
            },
            ..regs
        },
        Step::WriteWater(water) => Registers { water, ..regs },
        Step::ModifyFifo(edit) => Registers {
            fifo: Fifo {
                txfe: edited(edit.txfe, regs.fifo.txfe),
                rxfe: edited(edit.rxfe, regs.fifo.rxfe),
                ..arbitrary()
            },
            ..regs
        },
        Step::ModifyStat(edit) => Registers { stat: regs.stat.stored(regs.stat.with(edit)), ..regs
        },
        Step::ModifyModir(edit) => Registers { modir: regs.modir.with(edit), ..regs },
        _ => regs,
    }
}

/// The registers after a sequence of accesses.
#[verifier::opaque]
pub open spec fn after_steps(regs: Registers, steps: Seq<Step>) -> Registers
    decreases steps.len(),
{
    if steps.len() == 0 {
        regs
    } else {
        after_step(after_steps(regs, steps.drop_last()), steps.last())
    }
}

/// Performing one sequence after another is performing them joined.
proof fn lemma_after_joined(regs: Registers, first: Seq<Step>, second: Seq<Step>)
    ensures
        after_steps(regs, first + second) == after_steps(after_steps(regs, first), second),
    decreases second.len(),
{
    reveal(after_steps);
    if second.len() == 0 {
        assert(first + second =~= first);
    } else {
        lemma_after_joined(regs, first, second.drop_last());
        assert((first + second).drop_last() =~= first + second.drop_last());
    }
}

/// One more access takes the registers one step further.
pub(crate) proof fn lemma_after_prefix(regs: Registers, steps: Seq<Step>, n: int)
    requires
        1 <= n <= steps.len(),
    ensures
        after_steps(regs, steps.take(n)) == after_step(
            after_steps(regs, steps.take(n - 1)),
            steps[n - 1],
        ),
{
    reveal(after_steps);
    assert(steps.take(n).drop_last() =~= steps.take(n - 1));
}

/// Whether the access can switch a half of the transceiver.
pub open spec fn switches_transceiver(step: Step) -> bool {
    match step {
        Step::ModifyCtrl(edit) => edit.te is Some || edit.re is Some,
        Step::ModifyCtrlUninterrupted(edit) => edit.te is Some || edit.re is Some,
        Step::ClearCtrl => true,
        _ => false,
    }
}

/// Accesses that cannot switch the transceiver leave it as it is.
proof fn lemma_transceiver_kept(regs: Registers, steps: Seq<Step>)
    requires
        forall|i: int| 0 <= i < steps.len() ==> !switches_transceiver(#[trigger] steps[i]),
    ensures
        after_steps(regs, steps).ctrl.te == regs.ctrl.te,
        after_steps(regs, steps).ctrl.re == regs.ctrl.re,
    decreases steps.len(),
{
    reveal(after_steps);
    if steps.len() > 0 {
        lemma_transceiver_kept(regs, steps.drop_last());
    }
}

/// A single access.
pub(crate) proof fn lemma_after_one(regs: Registers, step: Step)
    ensures
        after_steps(regs, seq![step]) == after_step(regs, step),
{
    reveal(after_steps);
    lemma_after_prefix(regs, seq![step], 1);
}

/// Three accesses in a row.
proof fn lemma_after_three(regs: Registers, first: Step, second: Step, third: Step)
    ensures
        after_steps(regs, seq![first, second, third]) == after_step(
            after_step(after_step(regs, first), second),
            third,
        ),
{
    let all = seq![first, second, third];
    lemma_after_one(regs, first);
    assert(all.take(1) =~= seq![first]);
    lemma_after_prefix(regs, all, 2);
    lemma_after_prefix(regs, all, 3);
    assert(all.take(3) =~= all);
}

/// `BAUD` with the baud rate and the frame format set.
spec fn line_set(baud: Baud, config: Config, osr: int, sbr: int) -> Baud {
    Baud {
        osr: (osr - 1) as u8,
        sbr: sbr as u16,
        bothedge: 3 < osr < 8,
        sbns: config.stop_bits_count,
        m10: false,
        ..baud
    }
}

proof fn lemma_after_line(regs: Registers, config: Config, osr: int, sbr: int)
    ensures
        after_steps(regs, line_steps(config, osr, sbr)) == (Registers {
            baud: line_set(regs.baud, config, osr, sbr),
            ..regs
        }),
{
    let line = line_steps(config, osr, sbr);
    lemma_after_three(regs, line[0], line[1], line[2]);
    assert(line =~= seq![line[0], line[1], line[2]]);
}

/// `FIFO` with both FIFOs enabled.
spec fn fifo_set() -> Fifo {
    Fifo { txfe: true, rxfe: true, ..arbitrary() }
}

proof fn lemma_after_fifo(regs: Registers, config: Config)
    ensures
        after_steps(regs, fifo_steps(config)) == (Registers {
            water: WaterWrite {
                rxwater: config.rx_fifo_watermark,
                txwater: config.tx_fifo_watermark,
            },
            fifo: fifo_set(),
            ..regs
        }),
{
    let fifo = fifo_steps(config);
    lemma_after_three(regs, fifo[0], fifo[1], fifo[2]);
    assert(fifo =~= seq![fifo[0], fifo[1], fifo[2]]);
}

/// `MODIR` with hardware flow control set, if there is any.
spec fn flow_control_set(
    modir: Modir,
    enable_tx_cts: bool,
    enable_rx_rts: bool,
    config: Config,
) -> Modir {
    if enable_tx_cts || enable_rx_rts {
        modir.with(flow_control_edit(enable_tx_cts, enable_rx_rts, config))
    } else {
        modir
    }
}

proof fn lemma_after_flow_control(
    regs: Registers,
    enable_tx_cts: bool,
    enable_rx_rts: bool,
    config: Config,
)
    ensures
        after_steps(regs, flow_control_steps(enable_tx_cts, enable_rx_rts, config)) == (Registers {
            modir: flow_control_set(regs.modir, enable_tx_cts, enable_rx_rts, config),
            ..regs
        }),
{
    if enable_tx_cts || enable_rx_rts {
        lemma_after_one(
            regs,
            Step::ModifyModir(flow_control_edit(enable_tx_cts, enable_rx_rts, config)),
        );
    } else {
        reveal(after_steps);
    }
}

/// `STAT` with every flag cleared and the bit order set.
spec fn stat_set(stat: Stat, config: Config) -> Stat {
    Stat {
        or: false,
        pf: false,
        fe: false,
        nf: false,
        idle: false,
        rxedgif: false,
        msbf: config.msb_first,
        ..stat
    }
}

proof fn lemma_after_setup(
    regs: Registers,
    enable_tx_cts: bool,
    enable_rx_rts: bool,
    config: Config,
    osr: int,
    sbr: int,
)
    ensures
        after_steps(regs, setup_steps(enable_tx_cts, enable_rx_rts, config, osr, sbr))
            == (Registers {
            baud: line_set(regs.baud, config, osr, sbr),
            ctrl: regs.ctrl.with(control_edit(config)),
            water: WaterWrite {
                rxwater: config.rx_fifo_watermark,
                txwater: config.tx_fifo_watermark,
            },
            fifo: fifo_set(),
            stat: stat_set(regs.stat, config),
            modir: flow_control_set(regs.modir, enable_tx_cts, enable_rx_rts, config),
            ..regs
        }),
{
    let line = line_steps(config, osr, sbr);
    let control = Step::ModifyCtrl(control_edit(config));
    let fifo = fifo_steps(config);
    let clear = Step::ModifyStat(StatEdit::nothing());
    let flow = flow_control_steps(enable_tx_cts, enable_rx_rts, config);
    let order = Step::ModifyStat((StatEdit { msbf: Some(config.msb_first) }));

    let r1 = after_steps(regs, line);
    let r2 = after_steps(r1, seq![control]);
    let r3 = after_steps(r2, fifo);
    let r4 = after_steps(r3, seq![clear]);
    let r5 = after_steps(r4, flow);
    lemma_after_joined(regs, line, seq![control]);
    lemma_after_joined(regs, line + seq![control], fifo);
    lemma_after_joined(regs, line + seq![control] + fifo, seq![clear]);
    lemma_after_joined(regs, line + seq![control] + fifo + seq![clear], flow);
    lemma_after_joined(regs, line + seq![control] + fifo + seq![clear] + flow, seq![order]);

    lemma_after_line(regs, config, osr, sbr);
    lemma_after_one(r1, control);
    lemma_after_fifo(r2, config);
    lemma_after_one(r3, clear);
    lemma_after_flow_control(r4, enable_tx_cts, enable_rx_rts, config);
    lemma_after_one(r5, order);
}

/// Whatever the registers held, after a successful bring-up each of them holds what the
/// configuration asks for, no status flag is latched, and the transceiver runs exactly
/// as far as it was enabled.
pub proof fn law_bring_up_configures(
    regs: Registers,
    enable_tx: bool,
    enable_rx: bool,
    enable_tx_cts: bool,
    enable_rx_rts: bool,
    config: Config,
    clock_freq: u32,
    osr: int,
    sbr: int,
)
    requires
        selected(config.baudrate_bps as int, clock_freq as int, osr, sbr),
    ensures
        ({
            let end = after_steps(
                regs,
                configuration_steps(
                    enable_tx,
                    enable_rx,
                    enable_tx_cts,
                    enable_rx_rts,
                    config,
                    osr,
                    sbr,
                ),
            );
            &&& end.ctrl.te == enable_tx
            &&& end.ctrl.re == enable_rx
            &&& end.ctrl.pe == (config.parity_mode is Some)
            &&& config.parity_mode matches Some(parity) ==> end.ctrl.pt == parity
            &&& end.ctrl.m == DataBits::Data9 <==> config.data_bits_count == DataBits::Data9
                || config.parity_mode is Some
            &&& end.ctrl.dozeen == Dozeen::Enabled
            &&& end.ctrl.idlecfg == config.rx_idle_config
            &&& end.ctrl.ilt == config.rx_idle_type
            &&& end.ctrl.swap == (if config.swap_txd_rxd {
                Swap::Swap
            } else {
                Swap::Standard
            })
            &&& end.baud.osr + 1 == osr
            &&& end.baud.sbr == sbr
            &&& end.baud.bothedge == (osr <= 7)
            &&& end.baud.sbns == config.stop_bits_count
            &&& !end.baud.m10
            &&& end.water.rxwater == config.rx_fifo_watermark
            &&& end.water.txwater == config.tx_fifo_watermark
            &&& end.fifo.txfe && end.fifo.rxfe
            &&& end.stat.no_flag_latched()
            &&& end.stat.msbf == config.msb_first
            &&& enable_tx_cts || enable_rx_rts ==> {
                &&& end.modir.txctse == enable_tx_cts
                &&& end.modir.rxrtse == enable_rx_rts
                &&& end.modir.txctsc == config.tx_cts_config
                &&& end.modir.txctssrc == config.tx_cts_source
            }
            &&& !enable_tx_cts && !enable_rx_rts ==> end.modir == regs.modir
        }),
{
    let setup = setup_steps(enable_tx_cts, enable_rx_rts, config, osr, sbr);
    let enable = seq![Step::ModifyCtrl(enable_edit(enable_tx, enable_rx))];
    let quiet = after_steps(regs, quiesce_steps());
    let ready = after_steps(quiet, setup);
    lemma_after_joined(regs, quiesce_steps() + setup, enable);
    lemma_after_joined(regs, quiesce_steps(), setup);
    lemma_after_one(regs, quiesce_steps()[0]);
    lemma_after_one(ready, enable[0]);
    lemma_after_setup(quiet, enable_tx_cts, enable_rx_rts, config, osr, sbr);
}

/// Whether the access asks for both FIFOs to be flushed.
pub open spec fn asks_for_flush(step: Step) -> bool {
    step matches Step::ModifyFifo(edit) && edit.txflush == Some(Txflush::TxfifoRst) && edit.rxflush
        == Some(Rxflush::RxfifoRst)
}

/// Bringing the peripheral up asks for both FIFOs to be flushed once they are enabled, and
/// does not access `FIFO` any more after that.
pub proof fn law_bring_up_flushes_enabled_fifos(
    regs: Registers,
    enable_tx: bool,
    enable_rx: bool,
    enable_tx_cts: bool,
    enable_rx_rts: bool,
    config: Config,
    osr: int,
    sbr: int,
) -> (flush: int)
    ensures
        ({
            let all = configuration_steps(
                enable_tx,
                enable_rx,
                enable_tx_cts,
                enable_rx_rts,
                config,
                osr,
                sbr,
            );
            &&& 0 <= flush < all.len()
            &&& asks_for_flush(all[flush])
            &&& after_steps(regs, all.take(flush)).fifo.txfe
            &&& after_steps(regs, all.take(flush)).fifo.rxfe
            &&& forall|later: int|
                flush < later < all.len() ==> !(#[trigger] all[later] is ModifyFifo)
        }),
{
    let all = configuration_steps(
        enable_tx,
        enable_rx,
        enable_tx_cts,
        enable_rx_rts,
        config,
        osr,
        sbr,
    );
    lemma_after_prefix(regs, all, 7);
    7
}

/// From its first access after the reset up to its last one, bringing the peripheral up
/// keeps the transceiver disabled, so that nothing is sent or received half configured.
pub proof fn law_transceiver_off_while_configuring(
    regs: Registers,
    enable_tx: bool,
    enable_rx: bool,
    enable_tx_cts: bool,
    enable_rx_rts: bool,
    config: Config,
    osr: int,
    sbr: int,
    performed: int,
)
    requires
        1 <= performed < configuration_steps(
            enable_tx,
            enable_rx,
            enable_tx_cts,
            enable_rx_rts,
            config,
            osr,
            sbr,
        ).len(),
    ensures
        after_steps(
            regs,
            configuration_steps(
                enable_tx,
                enable_rx,
                enable_tx_cts,
                enable_rx_rts,
                config,
                osr,
                sbr,
            ).take(performed),
        ).ctrl.transceiver_off(),
{
    let setup = setup_steps(enable_tx_cts, enable_rx_rts, config, osr, sbr);
    let all = configuration_steps(
        enable_tx,
        enable_rx,
        enable_tx_cts,
        enable_rx_rts,
        config,
        osr,
        sbr,
    );
    let done = setup.take(performed - 1);
    assert(all.take(performed) =~= quiesce_steps() + done);
    lemma_after_joined(regs, quiesce_steps(), done);
    lemma_after_one(regs, quiesce_steps()[0]);
    lemma_transceiver_kept(after_steps(regs, quiesce_steps()), done);
}

/// A bring-up that fails for its baud rate leaves the transceiver disabled, and after the
/// reset it has changed nothing else.
pub proof fn law_refused_bring_up_leaves_transceiver_off(regs: Registers)
    ensures
        after_steps(regs, quiesce_steps()) == (Registers {
            ctrl: Ctrl { te: false, re: false, ..regs.ctrl },
            ..regs
        }),
{
    lemma_after_one(regs, quiesce_steps()[0]);
}

/// A disabled peripheral neither sends nor receives nor interrupts, and has no status
/// flag latched.
pub proof fn law_disabled_peripheral_is_silent(regs: Registers)
    ensures
        after_steps(regs, disable_peripheral_steps()).ctrl.transceiver_off(),
        after_steps(regs, disable_peripheral_steps()).ctrl.interrupts_off(),
        after_steps(regs, disable_peripheral_steps()).stat.no_flag_latched(),
{
    reveal_with_fuel(after_steps, 5);
}

/// A reset that was released leaves the registers that are set up alone.
proof fn lemma_after_reset(regs: Registers)
    ensures
        after_steps(regs, reset_steps()) == (Registers { global: Rst::NoEffect, ..regs }),
{
    let reset = reset_steps();
    assert(reset.take(1) =~= seq![reset[0]]);
    lemma_after_one(regs, reset[0]);
    lemma_after_prefix(regs, reset, 2);
    assert(reset.take(2) =~= reset);
}

/// What the calculation gives is the pair that is selected, and close enough.
proof fn lemma_calculated(
    baudrate: u32,
    clock_freq: u32,
    osr: int,
    sbr: int,
    rate: Result<(u8, u16), Error>,
)
    requires
        selected(baudrate as int, clock_freq as int, osr, sbr),
        call_ensures(calculate_baudrate, (baudrate, clock_freq), rate),
    ensures
        rate == Ok::<(u8, u16), Error>((osr as u8, sbr as u16)),
        4 <= osr <= 32,
        1 <= sbr <= 0x1fff,
        abs(clock_freq as int / (osr * sbr) - baudrate) <= 3 * (baudrate as int / 100),
{
    let b = baudrate as int;
    let f = clock_freq as int;
    match rate {
        Ok((o, s)) => {
            law_selection_is_unique(b, f, osr, sbr, o as int, s as int);
        },
        Err(_) => {
            law_selection_is_unique(b, f, osr, sbr, osr, sbr);
        },
    }
}

proof fn lemma_after_bring_up(
    regs: Registers,
    enable_tx: bool,
    enable_rx: bool,
    enable_tx_cts: bool,
    enable_rx_rts: bool,
    config: Config,
    osr: int,
    sbr: int,
)
    ensures
        after_steps(
            regs,
            reset_steps() + configuration_steps(
                enable_tx,
                enable_rx,
                enable_tx_cts,
                enable_rx_rts,
                config,
                osr,
                sbr,
            ),
        ) == (Registers {
            global: Rst::NoEffect,
            baud: line_set(regs.baud, config, osr, sbr),
            ctrl: (Ctrl { te: false, re: false, ..regs.ctrl }).with(control_edit(config)).with(
                enable_edit(enable_tx, enable_rx),
            ),
            water: WaterWrite {
                rxwater: config.rx_fifo_watermark,
                txwater: config.tx_fifo_watermark,
            },
            fifo: fifo_set(),
            stat: stat_set(regs.stat, config),
            modir: flow_control_set(regs.modir, enable_tx_cts, enable_rx_rts, config),
        }),
{
    let all = configuration_steps(
        enable_tx,
        enable_rx,
        enable_tx_cts,
        enable_rx_rts,
        config,
        osr,
        sbr,
    );
    let setup = setup_steps(enable_tx_cts, enable_rx_rts, config, osr, sbr);
    let enable = seq![Step::ModifyCtrl(enable_edit(enable_tx, enable_rx))];
    let released = Registers { global: Rst::NoEffect, ..regs };
    let quiet = after_steps(released, quiesce_steps());
    lemma_after_reset(regs);
    lemma_after_joined(regs, reset_steps(), all);
    lemma_after_joined(released, quiesce_steps() + setup, enable);
    lemma_after_joined(released, quiesce_steps(), setup);
    law_refused_bring_up_leaves_transceiver_off(released);
    lemma_after_setup(quiet, enable_tx_cts, enable_rx_rts, config, osr, sbr);
    lemma_after_one(after_steps(quiet, setup), enable[0]);
}

/// Whatever the registers held, performing all that a successful bring-up lists leaves each
/// of them as the arguments and the configuration ask for: each half of the transceiver and
/// each direction of flow control on exactly if it was to be enabled, the calculated baud
/// rate, which is within three percent, characters of nine bits exactly with nine data bits
/// or any parity, and so on. The reset is released, no status flag is latched, and the
/// interrupts and the DMA requests stay as they were.
pub proof fn law_brought_up_peripheral_is_configured(
    regs: Registers,
    enable_tx: bool,
    enable_rx: bool,
    enable_tx_cts: bool,
    enable_rx_rts: bool,
    config: Config,
    clock_freq: u32,
    steps: Seq<Step>,
    rate: Result<(u8, u16), Error>,
)
    requires
        brings_up(
            enable_tx,
            enable_rx,
            enable_tx_cts,
            enable_rx_rts,
            config,
            clock_freq,
            steps,
            Ok(()),
        ),
        call_ensures(calculate_baudrate, (config.baudrate_bps, clock_freq), rate),
    ensures
        ({
            let end = after_steps(regs, steps);
            let parity = config.parity_mode == Some(Parity::Even) || config.parity_mode == Some(
                Parity::Odd,
            );
            &&& end.global == Rst::NoEffect
            &&& end.ctrl.te <==> enable_tx
            &&& end.ctrl.re <==> enable_rx
            &&& end.ctrl.pe <==> parity
            &&& config.parity_mode == Some(Parity::Even) ==> end.ctrl.pt == Parity::Even
            &&& config.parity_mode == Some(Parity::Odd) ==> end.ctrl.pt == Parity::Odd
            &&& !parity ==> end.ctrl.pt == regs.ctrl.pt
            &&& end.ctrl.m == DataBits::Data9 <==> config.data_bits_count == DataBits::Data9
                || parity
            &&& end.ctrl.dozeen == Dozeen::Enabled
            &&& end.ctrl.idlecfg == config.rx_idle_config
            &&& end.ctrl.ilt == config.rx_idle_type
            &&& end.ctrl.swap == Swap::Swap <==> config.swap_txd_rxd
            &&& end.ctrl.tie == regs.ctrl.tie
            &&& end.ctrl.rie == regs.ctrl.rie
            &&& end.ctrl.orie == regs.ctrl.orie
            &&& end.ctrl.peie == regs.ctrl.peie
            &&& end.ctrl.feie == regs.ctrl.feie
            &&& end.ctrl.neie == regs.ctrl.neie
            &&& rate == Ok::<(u8, u16), Error>(((end.baud.osr + 1) as u8, end.baud.sbr))
            &&& 4 <= end.baud.osr + 1 <= 32
            &&& 1 <= end.baud.sbr <= 0x1fff
            &&& abs(
                clock_freq as int / ((end.baud.osr + 1) * end.baud.sbr) - config.baudrate_bps,
            ) <= 3 * (config.baudrate_bps as int / 100)
            &&& end.baud.bothedge <==> end.baud.osr + 1 <= 7
            &&& end.baud.sbns == config.stop_bits_count
            &&& !end.baud.m10
            &&& end.baud.rdmae == regs.baud.rdmae
            &&& end.baud.tdmae == regs.baud.tdmae
            &&& end.water.rxwater == config.rx_fifo_watermark
            &&& end.water.txwater == config.tx_fifo_watermark
            &&& end.fifo.txfe
            &&& end.fifo.rxfe
            &&& !end.stat.or
            &&& !end.stat.pf
            &&& !end.stat.fe
            &&& !end.stat.nf
            &&& !end.stat.idle
            &&& !end.stat.rxedgif
            &&& end.stat.msbf == config.msb_first
            &&& enable_tx_cts || enable_rx_rts ==> {
                &&& end.modir.txctse <==> enable_tx_cts
                &&& end.modir.rxrtse <==> enable_rx_rts
                &&& end.modir.txctsc == config.tx_cts_config
                &&& end.modir.txctssrc == config.tx_cts_source
            }
            &&& !enable_tx_cts && !enable_rx_rts ==> end.modir == regs.modir
        }),
{
    let (osr, sbr) = choose|osr: int, sbr: int| #[trigger]
        selected(config.baudrate_bps as int, clock_freq as int, osr, sbr) && steps == reset_steps()
            + configuration_steps(
            enable_tx,
            enable_rx,
            enable_tx_cts,
            enable_rx_rts,
            config,
            osr,
            sbr,
        );
    lemma_calculated(config.baudrate_bps, clock_freq, osr, sbr, rate);
    lemma_after_bring_up(
        regs,
        enable_tx,
        enable_rx,
        enable_tx_cts,
        enable_rx_rts,
        config,
        osr,
        sbr,
    );
    match config.parity_mode {
        Some(Parity::Even) => {},
        Some(Parity::Odd) => {},
        None => {},
    }
}

/// Bringing up starts with the reset, which is not touched again. From its third access up
/// to the last one of a successful bring-up, or up to the end of a refused one, both halves
/// of the transceiver are off.
pub proof fn law_bring_up_resets_and_stays_off(
    regs: Registers,
    enable_tx: bool,
    enable_rx: bool,
    enable_tx_cts: bool,
    enable_rx_rts: bool,
    config: Config,
    clock_freq: u32,
    steps: Seq<Step>,
    result: Result<(), Error>,
    performed: int,
)
    requires
        brings_up(
            enable_tx,
            enable_rx,
            enable_tx_cts,
            enable_rx_rts,
            config,
            clock_freq,
            steps,
            result,
        ),
        3 <= performed <= steps.len(),
        result is Ok ==> performed < steps.len(),
    ensures
        steps[0] == Step::WriteGlobal(Rst::Reset),
        steps[1] == Step::WriteGlobal(Rst::NoEffect),
        forall|i: int| 2 <= i < steps.len() ==> !(#[trigger] steps[i] is WriteGlobal),
        !after_steps(regs, steps.take(performed)).ctrl.te,
        !after_steps(regs, steps.take(performed)).ctrl.re,
{
    if result is Ok {
        let (osr, sbr) = choose|osr: int, sbr: int| #[trigger]
            selected(config.baudrate_bps as int, clock_freq as int, osr, sbr) && steps
                == reset_steps() + configuration_steps(
                enable_tx,
                enable_rx,
                enable_tx_cts,
                enable_rx_rts,
                config,
                osr,
                sbr,
            );
        let all = configuration_steps(
            enable_tx,
            enable_rx,
            enable_tx_cts,
            enable_rx_rts,
            config,
            osr,
            sbr,
        );
        lemma_after_joined(regs, reset_steps(), all.take(performed - 2));
        assert(steps.take(performed) =~= reset_steps() + all.take(performed - 2));
        law_transceiver_off_while_configuring(
            after_steps(regs, reset_steps()),
            enable_tx,
            enable_rx,
            enable_tx_cts,
            enable_rx_rts,
            config,
            osr,
            sbr,
            performed - 2,
        );
    } else {
        lemma_after_joined(regs, reset_steps(), quiesce_steps());
        assert(steps.take(performed) =~= steps);
        law_refused_bring_up_leaves_transceiver_off(after_steps(regs, reset_steps()));
    }
}

/// A bring-up is refused exactly if the baud rate is, and with its error. All that its
/// accesses come to is then that both halves of the transceiver are off and the reset is
/// released.
pub proof fn law_refused_bring_up_only_switches_off(
    regs: Registers,
    enable_tx: bool,
    enable_rx: bool,
    enable_tx_cts: bool,
    enable_rx_rts: bool,
    config: Config,
    clock_freq: u32,
    steps: Seq<Step>,
    result: Result<(), Error>,
    rate: Result<(u8, u16), Error>,
)
    requires
        brings_up(
            enable_tx,
            enable_rx,
            enable_tx_cts,
            enable_rx_rts,
            config,
            clock_freq,
            steps,
            result,
        ),
        call_ensures(calculate_baudrate, (config.baudrate_bps, clock_freq), rate),
    ensures
        result is Err <==> rate is Err,
        result matches Err(e) ==> e == Error::UnsupportedBaudrate && after_steps(regs, steps) == (
        Registers {
            global: Rst::NoEffect,
            ctrl: Ctrl { te: false, re: false, ..regs.ctrl },
            ..regs
        }),
{
    let b = config.baudrate_bps as int;
    let f = clock_freq as int;
    assert forall|osr: int, sbr: int| #[trigger] selected(b, f, osr, sbr) implies !unsupported(
        b,
        f,
    ) by {
        law_selection_is_unique(b, f, osr, sbr, osr, sbr);
    }
    lemma_after_reset(regs);
    lemma_after_joined(regs, reset_steps(), quiesce_steps());
    law_refused_bring_up_leaves_transceiver_off(after_steps(regs, reset_steps()));
}

/// A successful bring-up asks for both FIFOs to be flushed once both are enabled, and does
/// not access `FIFO` any more after that.
pub proof fn law_brought_up_fifos_are_flushed(
    regs: Registers,
    enable_tx: bool,
    enable_rx: bool,
    enable_tx_cts: bool,
    enable_rx_rts: bool,
    config: Config,
    clock_freq: u32,
    steps: Seq<Step>,
) -> (flush: int)
    requires
        brings_up(
            enable_tx,
            enable_rx,
            enable_tx_cts,
            enable_rx_rts,
            config,
            clock_freq,
            steps,
            Ok(()),
        ),
    ensures
        0 <= flush < steps.len(),
        steps[flush] matches Step::ModifyFifo(edit) && edit.txflush == Some(Txflush::TxfifoRst)
            && edit.rxflush == Some(Rxflush::RxfifoRst),
        after_steps(regs, steps.take(flush)).fifo.txfe,
        after_steps(regs, steps.take(flush)).fifo.rxfe,
        forall|later: int| flush < later < steps.len() ==> !(#[trigger] steps[later] is ModifyFifo),
{
    let (osr, sbr) = choose|osr: int, sbr: int| #[trigger]
        selected(config.baudrate_bps as int, clock_freq as int, osr, sbr) && steps == reset_steps()
            + configuration_steps(
            enable_tx,
            enable_rx,
            enable_tx_cts,
            enable_rx_rts,
            config,
            osr,
            sbr,
        );
    let all = configuration_steps(
        enable_tx,
        enable_rx,
        enable_tx_cts,
        enable_rx_rts,
        config,
        osr,
        sbr,
    );
    let flush = law_bring_up_flushes_enabled_fifos(
        after_steps(regs, reset_steps()),
        enable_tx,
        enable_rx,
        enable_tx_cts,
        enable_rx_rts,
        config,
        osr,
        sbr,
    );
    lemma_after_joined(regs, reset_steps(), all.take(flush));
    assert(steps.take(flush + 2) =~= reset_steps() + all.take(flush));
    assert forall|later: int| flush + 2 < later < steps.len() implies !(
    #[trigger] steps[later] is ModifyFifo) by {
        assert(steps[later] == all[later - 2]);
    }
    flush + 2
}

/// Initialization brings the peripheral up with the arguments that were passed in. It can
/// be asked for any baud rate that does not overflow 32 bits when it is multiplied by 32.
pub proof fn law_initialization_hands_its_arguments_on(
    enable_tx: bool,
    enable_rx: bool,
    enable_tx_cts: bool,
    enable_rx_rts: bool,
    config: Config,
    clock_freq: u32,
    r: (Vec<Step>, Result<(), Error>),
)
    requires
        call_ensures(
            initialization_sequence,
            (enable_tx, enable_rx, enable_tx_cts, enable_rx_rts, &config, clock_freq),
            r,
        ),
    ensures
        0 < config.baudrate_bps && config.baudrate_bps * 32 <= 0xffff_ffff ==> call_requires(
            initialization_sequence,
            (enable_tx, enable_rx, enable_tx_cts, enable_rx_rts, &config, clock_freq),
        ),
        brings_up(
            enable_tx,
            enable_rx,
            enable_tx_cts,
            enable_rx_rts,
            config,
            clock_freq,
            r.0@,
            r.1,
        ),
{
}

/// Whatever the registers held, disabling the peripheral switches off both halves of the
/// transceiver and each interrupt, and leaves no status flag latched.
pub proof fn law_disabling_switches_everything_off(regs: Registers, r: Vec<Step>)
    requires
        call_ensures(disable_peripheral, (), r),
    ensures
        ({
            let end = after_steps(regs, r@);
            &&& !end.ctrl.te
            &&& !end.ctrl.re
            &&& !end.ctrl.tie
            &&& !end.ctrl.rie
            &&& !end.ctrl.orie
            &&& !end.ctrl.peie
            &&& !end.ctrl.feie
            &&& !end.ctrl.neie
            &&& !end.stat.or
            &&& !end.stat.pf
            &&& !end.stat.fe
            &&& !end.stat.nf
            &&& !end.stat.idle
            &&& !end.stat.rxedgif
            &&& end.stat.msbf == regs.stat.msbf
        }),
{
    law_disabled_peripheral_is_silent(regs);
    reveal_with_fuel(after_steps, 5);
}

} // verus!
