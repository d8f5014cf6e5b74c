//! The register accesses that bring the peripheral up and shut it down.
//!
//! The functions here decide what is to be accessed, in which order and with what
//! value; the accesses themselves are left to whoever holds the hardware.

use vstd::prelude::*;

use crate::baud::{
    calculate_baudrate, law_selection_is_unique, searchable, selected, unsupported,
};
use crate::config::{Config, DataBits, MsbFirst, Parity};
use crate::error::Error;
use crate::registers::{
    BaudEdit, CtrlEdit, Dozeen, FifoEdit, ModirEdit, Rst, Rxflush, StatEdit, Swap, Txflush,
    WaterWrite,
};

verus! {

/// One access to the hardware.
#[derive(Debug, Clone, Copy, PartialEq, Eq, Structural)]
pub enum Step {
    /// Write `GLOBAL`
    WriteGlobal(Rst),
    /// Read `BAUD`, edit it and write it back
    ModifyBaud(BaudEdit),
    /// Read `CTRL`, edit it and write it back
    ModifyCtrl(CtrlEdit),
    /// The same with interrupts masked
    ModifyCtrlUninterrupted(CtrlEdit),
    /// Write `CTRL` with every bit clear
    ClearCtrl,
    /// Write `WATER`
    WriteWater(WaterWrite),
    /// Read `FIFO`, edit it and write it back
    ModifyFifo(FifoEdit),
    /// Read `STAT`, edit it and write it back, which clears the flags that were set
    ModifyStat(StatEdit),
    /// Read `MODIR`, edit it and write it back
    ModifyModir(ModirEdit),
    /// Disable the interrupt of the instance in the interrupt controller
    DisableInterrupt,
    /// Gate the clock of the instance off
    DisableClock,
    /// Wait until everything that was queued has been sent
    WaitForTxComplete,
    /// Take the backing memory from the transmit buffer
    DeinitTxBuffer,
    /// Take the backing memory from the receive buffer
    DeinitRxBuffer,
}

/// Perform software reset on the LPUART peripheral
pub fn perform_software_reset() -> (r: Vec<Step>)
    ensures
        r@ == seq![Step::WriteGlobal(Rst::Reset), Step::WriteGlobal(Rst::NoEffect)],
{
    vec![Step::WriteGlobal(Rst::Reset), Step::WriteGlobal(Rst::NoEffect)]
}

/// Disable both transmitter and receiver
pub fn disable_transceiver() -> (r: Vec<Step>)
    ensures
        r@ == seq![
            Step::ModifyCtrl(
                (CtrlEdit { te: Some(false), re: Some(false), ..CtrlEdit::nothing() }),
            ),
        ],
{
    vec![Step::ModifyCtrl(CtrlEdit { te: Some(false), re: Some(false), ..CtrlEdit::none() })]
}

/// The setting of `BAUD` for an oversampling ratio and a divider.
///
/// The register holds the ratio less one. Up to a ratio of seven the receiver has to
/// sample on both edges.
pub open spec fn rate_edit(osr: int, sbr: int) -> BaudEdit {
    BaudEdit {
        osr: Some((osr - 1) as u8),
        sbr: Some(sbr as u16),
        bothedge: Some(3 < osr < 8),
        ..BaudEdit::nothing()
    }
}

/// Calculate and configure baudrate settings
pub fn configure_baudrate(baudrate_bps: u32, clock_freq: u32) -> (r: Result<Vec<Step>, Error>)
    requires
        searchable(baudrate_bps),
    ensures
        match r {
            Ok(steps) => exists|osr: int, sbr: int| #[trigger]
                selected(baudrate_bps as int, clock_freq as int, osr, sbr) && steps@ == seq![
                    Step::ModifyBaud(rate_edit(osr, sbr)),
                ],
            Err(e) => e == Error::UnsupportedBaudrate && unsupported(
                baudrate_bps as int,
                clock_freq as int,
            ),
        },
{
    match calculate_baudrate(baudrate_bps, clock_freq) {
        Err(e) => Err(e),
        Ok((osr, sbr)) => {
            Ok(
                vec![
                    Step::ModifyBaud(
                        BaudEdit {
                            osr: Some(osr - 1),
                            sbr: Some(sbr),
                            bothedge: Some(osr > 3 && osr < 8),
                            ..BaudEdit::none()
                        },
                    ),
                ],
            )
        },
    }
}

/// Configure frame format (stop bits, data bits)
pub fn configure_frame_format(config: &Config) -> (r: Vec<Step>)
    ensures
        r@ == seq![
            Step::ModifyBaud(
                (BaudEdit { sbns: Some(config.stop_bits_count), ..BaudEdit::nothing() }),
            ),
            Step::ModifyBaud((BaudEdit { m10: Some(false), ..BaudEdit::nothing() })),
        ],
{
    vec![
        Step::ModifyBaud(BaudEdit { sbns: Some(config.stop_bits_count), ..BaudEdit::none() }),
        Step::ModifyBaud(BaudEdit { m10: Some(false), ..BaudEdit::none() }),
    ]
}

/// The character length on the line: a parity bit takes the place of a ninth data bit.
pub open spec fn character_length(config: Config) -> DataBits {
    if config.data_bits_count == DataBits::Data9 || config.parity_mode is Some {
        DataBits::Data9
    } else {
        DataBits::Data8
    }
}

/// The setting of `CTRL` for a configuration. Without parity, the parity type stays.
pub open spec fn control_edit(config: Config) -> CtrlEdit {
    CtrlEdit {
        pe: Some(config.parity_mode is Some),
        pt: config.parity_mode,
        dozeen: Some(Dozeen::Enabled),
        m: Some(character_length(config)),
        idlecfg: Some(config.rx_idle_config),
        ilt: Some(config.rx_idle_type),
        swap: Some(
            if config.swap_txd_rxd {
                Swap::Swap
            } else {
                Swap::Standard
            },
        ),
        ..CtrlEdit::nothing()
    }
}

/// Configure control settings (parity, data bits, idle config, pin swap)
pub fn configure_control_settings(config: &Config) -> (r: Vec<Step>)
    ensures
        r@ == seq![Step::ModifyCtrl(control_edit(*config))],
{
    let mut edit = CtrlEdit::none();

    // Parity configuration
    if let Some(parity) = config.parity_mode {
        edit.pe = Some(true);
        edit.pt = Some(parity);
    } else {
        edit.pe = Some(false);
    }

    // Allow the lpuart to wake from deep sleep if configured to work in deep
    // sleep mode. This is the default state; disabling it stops the uart
    // whether or not the device ever goes to deep sleep.
    edit.dozeen = Some(Dozeen::Enabled);

    // Data bits configuration
    match config.data_bits_count {
        DataBits::Data8 => {
            if config.parity_mode.is_some() {
                edit.m = Some(DataBits::Data9);  // 8 data + 1 parity = 9 bits
            } else {
                edit.m = Some(DataBits::Data8);  // 8 data bits only
            }
        },
        DataBits::Data9 => {
            edit.m = Some(DataBits::Data9);
        },
    }

    // Idle configuration
    edit.idlecfg = Some(config.rx_idle_config);
    edit.ilt = Some(config.rx_idle_type);

    // Swap TXD/RXD if configured
    if config.swap_txd_rxd {
        edit.swap = Some(Swap::Swap);
    } else {
        edit.swap = Some(Swap::Standard);
    }

    vec![Step::ModifyCtrl(edit)]
}

/// Configure FIFO settings and watermarks
pub fn configure_fifo(config: &Config) -> (r: Vec<Step>)
    ensures
        r@ == fifo_steps(*config),
{
    vec![
        Step::WriteWater(
            WaterWrite {
                rxwater: config.rx_fifo_watermark,
                txwater: config.tx_fifo_watermark,
            },
        ),
        // Enable TX/RX FIFOs
        Step::ModifyFifo(FifoEdit { txfe: Some(true), rxfe: Some(true), ..FifoEdit::none() }),
        // Flush FIFOs
        Step::ModifyFifo(
            FifoEdit {
                txflush: Some(Txflush::TxfifoRst),
                rxflush: Some(Rxflush::RxfifoRst),
                ..FifoEdit::none()
            },
        ),
    ]
}

/// Clear all status flags
///
/// Writing back what was read clears the flags that were set.
pub fn clear_all_status_flags() -> (r: Vec<Step>)
    ensures
        r@ == seq![Step::ModifyStat(StatEdit::nothing())],
{
    vec![Step::ModifyStat(StatEdit::none())]
}

/// The setting of `MODIR` for hardware flow control.
pub open spec fn flow_control_edit(
    enable_tx_cts: bool,
    enable_rx_rts: bool,
    config: Config,
) -> ModirEdit {
    ModirEdit {
        txctsc: Some(config.tx_cts_config),
        txctssrc: Some(config.tx_cts_source),
        rxrtse: Some(enable_rx_rts),
        txctse: Some(enable_tx_cts),
    }
}

/// Configure hardware flow control if enabled
pub fn configure_flow_control(enable_tx_cts: bool, enable_rx_rts: bool, config: &Config) -> (r: Vec<
    Step,
>)
    ensures
        r@ == flow_control_steps(enable_tx_cts, enable_rx_rts, *config),
{
    if enable_rx_rts || enable_tx_cts {
        vec![
            Step::ModifyModir(
                ModirEdit {
                    txctsc: Some(config.tx_cts_config),
                    txctssrc: Some(config.tx_cts_source),
                    rxrtse: Some(enable_rx_rts),
                    txctse: Some(enable_tx_cts),
                },
            ),
        ]
    } else {
        Vec::new()
    }
}

/// Configure bit order (MSB first or LSB first)
pub fn configure_bit_order(msb_first: MsbFirst) -> (r: Vec<Step>)
    ensures
        r@ == seq![Step::ModifyStat((StatEdit { msbf: Some(msb_first) }))],
{
    vec![Step::ModifyStat(StatEdit { msbf: Some(msb_first) })]
}

/// The setting of `CTRL` that switches on what is enabled and leaves the rest alone.
pub open spec fn enable_edit(enable_tx: bool, enable_rx: bool) -> CtrlEdit {
    CtrlEdit {
        te: if enable_tx {
            Some(true)
        } else {
            None
        },
        re: if enable_rx {
            Some(true)
        } else {
            None
        },
        ..CtrlEdit::nothing()
    }
}

/// Enable transmitter and/or receiver based on configuration
pub fn enable_transceiver(enable_tx: bool, enable_rx: bool) -> (r: Vec<Step>)
    ensures
        r@ == seq![Step::ModifyCtrl(enable_edit(enable_tx, enable_rx))],
{
    let mut edit = CtrlEdit::none();
    if enable_tx {
        edit.te = Some(true);
    }
    if enable_rx {
        edit.re = Some(true);
    }
    vec![Step::ModifyCtrl(edit)]
}

/// Disable the peripheral: flags, interrupt, module and clock, in this order.
pub fn disable_peripheral() -> (r: Vec<Step>)
    ensures
        r@ == disable_peripheral_steps(),
{
    // Clear all status flags
    let mut steps = clear_all_status_flags();

    // Disable interrupts at the NVIC level
    steps.push(Step::DisableInterrupt);

    // Disable the module - clear all CTRL register bits
    steps.push(Step::ClearCtrl);

    // Disable at the MRCC level
    steps.push(Step::DisableClock);
    steps
}

/// The accesses that disable the peripheral.
pub open spec fn disable_peripheral_steps() -> Seq<Step> {
    seq![
        Step::ModifyStat(StatEdit::nothing()),
        Step::DisableInterrupt,
        Step::ClearCtrl,
        Step::DisableClock,
    ]
}

/// The accesses between the reset and the setting of the baud rate.
pub open spec fn quiesce_steps() -> Seq<Step> {
    seq![
        Step::ModifyCtrl((CtrlEdit { te: Some(false), re: Some(false), ..CtrlEdit::nothing() })),
    ]
}

/// The accesses that set the baud rate and the frame format.
pub open spec fn line_steps(config: Config, osr: int, sbr: int) -> Seq<Step> {
    seq![
        Step::ModifyBaud(rate_edit(osr, sbr)),
        Step::ModifyBaud((BaudEdit { sbns: Some(config.stop_bits_count), ..BaudEdit::nothing() })),
        Step::ModifyBaud((BaudEdit { m10: Some(false), ..BaudEdit::nothing() })),
    ]
}

/// The accesses that set the FIFOs up.
pub open spec fn fifo_steps(config: Config) -> Seq<Step> {
    seq![
        Step::WriteWater(
            (WaterWrite { rxwater: config.rx_fifo_watermark, txwater: config.tx_fifo_watermark }),
        ),
        Step::ModifyFifo((FifoEdit { txfe: Some(true), rxfe: Some(true), ..FifoEdit::nothing() })),
        Step::ModifyFifo(
            (FifoEdit {
                txflush: Some(Txflush::TxfifoRst),
                rxflush: Some(Rxflush::RxfifoRst),
                ..FifoEdit::nothing()
            }),
        ),
    ]
}

/// The accesses that set hardware flow control up, if there is any.
pub open spec fn flow_control_steps(
    enable_tx_cts: bool,
    enable_rx_rts: bool,
    config: Config,
) -> Seq<Step> {
    if enable_tx_cts || enable_rx_rts {
        seq![Step::ModifyModir(flow_control_edit(enable_tx_cts, enable_rx_rts, config))]
    } else {
        Seq::empty()
    }
}

/// The accesses from the setting of the baud rate up to the enabling of the transceiver.
pub open spec fn setup_steps(
    enable_tx_cts: bool,
    enable_rx_rts: bool,
    config: Config,
    osr: int,
    sbr: int,
) -> Seq<Step> {
    line_steps(config, osr, sbr) + seq![Step::ModifyCtrl(control_edit(config))] + fifo_steps(config)
        + seq![Step::ModifyStat(StatEdit::nothing())] + flow_control_steps(
        enable_tx_cts,
        enable_rx_rts,
        config,
    ) + seq![Step::ModifyStat((StatEdit { msbf: Some(config.msb_first) }))]
}

/// The accesses of a successful bring-up, after the software reset.
pub open spec fn configuration_steps(
    enable_tx: bool,
    enable_rx: bool,
    enable_tx_cts: bool,
    enable_rx_rts: bool,
    config: Config,
    osr: int,
    sbr: int,
) -> Seq<Step> {
    quiesce_steps() + setup_steps(enable_tx_cts, enable_rx_rts, config, osr, sbr) + seq![
        Step::ModifyCtrl(enable_edit(enable_tx, enable_rx)),
    ]
}

/// The accesses of the software reset.
pub open spec fn reset_steps() -> Seq<Step> {
    seq![Step::WriteGlobal(Rst::Reset), Step::WriteGlobal(Rst::NoEffect)]
}

/// Whether `steps` and `result` are what bringing up a clocked peripheral takes.
///
/// A baud rate that cannot be had is found out after the reset, with the transceiver
/// disabled; nothing is configured then.
pub open spec fn brings_up(
    enable_tx: bool,
    enable_rx: bool,
    enable_tx_cts: bool,
    enable_rx_rts: bool,
    config: Config,
    clock_freq: u32,
    steps: Seq<Step>,
    result: Result<(), Error>,
) -> bool {
    match result {
        Ok(_) => exists|osr: int, sbr: int| #[trigger]
            selected(config.baudrate_bps as int, clock_freq as int, osr, sbr) && steps
                == reset_steps() + configuration_steps(
                enable_tx,
                enable_rx,
                enable_tx_cts,
                enable_rx_rts,
                config,
                osr,
                sbr,
            ),
        Err(e) => {
            &&& e == Error::UnsupportedBaudrate
            &&& unsupported(config.baudrate_bps as int, clock_freq as int)
            &&& steps == reset_steps() + quiesce_steps()
        },
    }
}

/// The initialization sequence of a peripheral that is clocked with `clock_freq`: the
/// accesses to perform, and what initialization then returns.
pub fn initialization_sequence(
    enable_tx: bool,
    enable_rx: bool,
    enable_tx_cts: bool,
    enable_rx_rts: bool,
    config: &Config,
    clock_freq: u32,
) -> (r: (Vec<Step>, Result<(), Error>))
    requires
        searchable(config.baudrate_bps),
    ensures
        brings_up(
            enable_tx,
            enable_rx,
            enable_tx_cts,
            enable_rx_rts,
            *config,
            clock_freq,
            r.0@,
            r.1,
        ),
{
    let mut steps = perform_software_reset();
    let mut part = disable_transceiver();
    steps.append(&mut part);
    let mut part = match configure_baudrate(config.baudrate_bps, clock_freq) {
        Err(e) => {
            return (steps, Err(e));
        },
        Ok(part) => part,
    };
    let ghost (osr, sbr) = choose|osr: int, sbr: int| #[trigger]
        selected(config.baudrate_bps as int, clock_freq as int, osr, sbr) && part@ == seq![
            Step::ModifyBaud(rate_edit(osr, sbr)),
        ];
    steps.append(&mut part);
    let mut part = configure_frame_format(config);
    steps.append(&mut part);
    let mut part = configure_control_settings(config);
    steps.append(&mut part);
    let mut part = configure_fifo(config);
    steps.append(&mut part);
    let mut part = clear_all_status_flags();
    steps.append(&mut part);
    let mut part = configure_flow_control(enable_tx_cts, enable_rx_rts, config);
    steps.append(&mut part);
    let mut part = configure_bit_order(config.msb_first);
    steps.append(&mut part);
    let mut part = enable_transceiver(enable_tx, enable_rx);
    steps.append(&mut part);
    assert(steps@ =~= reset_steps() + configuration_steps(
        enable_tx,
        enable_rx,
        enable_tx_cts,
        enable_rx_rts,
        *config,
        osr,
        sbr,
    ));
    (steps, Ok(()))
}

/// What bringing up takes, and what it returns, follows from the configuration and the
/// clock alone.
pub proof fn law_bring_up_is_determined(
    enable_tx: bool,
    enable_rx: bool,
    enable_tx_cts: bool,
    enable_rx_rts: bool,
    config: Config,
    clock_freq: u32,
    steps1: Seq<Step>,
    result1: Result<(), Error>,
    steps2: Seq<Step>,
    result2: Result<(), Error>,
)
    requires
        brings_up(
            enable_tx,
            enable_rx,
            enable_tx_cts,
            enable_rx_rts,
            config,
            clock_freq,
            steps1,
            result1,
        ),
        brings_up(
            enable_tx,
            enable_rx,
            enable_tx_cts,
            enable_rx_rts,
            config,
            clock_freq,
            steps2,
            result2,
        ),
    ensures
        steps1 == steps2,
        result1 == result2,
{
    let baudrate = config.baudrate_bps as int;
    let freq = clock_freq as int;
    assert forall|osr1: int, sbr1: int, osr2: int, sbr2: int| #[trigger]
        selected(baudrate, freq, osr1, sbr1) && #[trigger] selected(
            baudrate,
            freq,
            osr2,
            sbr2,
        ) implies osr1 == osr2 && sbr1 == sbr2 by {
        law_selection_is_unique(baudrate, freq, osr1, sbr1, osr2, sbr2);
    }
    assert forall|osr: int, sbr: int| #[trigger]
        selected(baudrate, freq, osr, sbr) implies !unsupported(baudrate, freq) by {
        law_selection_is_unique(baudrate, freq, osr, sbr, osr, sbr);
    }
    match (result1, result2) {
        (Ok(unit1), Ok(unit2)) => {
            assert(unit1 == unit2);
        },
        _ => {},
    }
}

/// The reset is asserted and then released, and nothing else is done by it.
pub proof fn law_reset_is_released(r: Vec<Step>)
    requires
        call_ensures(perform_software_reset, (), r),
    ensures
        r@.len() == 2,
        r@[0] == Step::WriteGlobal(Rst::Reset),
        r@[1] == Step::WriteGlobal(Rst::NoEffect),
{
}

/// Disabling the transceiver switches both halves off in one access, and sets no other field
/// of `CTRL`.
pub proof fn law_disabling_switches_both_halves_off(r: Vec<Step>)
    requires
        call_ensures(disable_transceiver, (), r),
    ensures
        r@.len() == 1,
        r@[0] matches Step::ModifyCtrl(edit) && {
            &&& edit.te == Some(false)
            &&& edit.re == Some(false)
            &&& edit.pe is None
            &&& edit.pt is None
            &&& edit.dozeen is None
            &&& edit.m is None
            &&& edit.idlecfg is None
            &&& edit.ilt is None
            &&& edit.swap is None
            &&& edit.tie is None
            &&& edit.rie is None
            &&& edit.orie is None
            &&& edit.peie is None
            &&& edit.feie is None
            &&& edit.neie is None
        },
{
}

/// Enabling the transceiver switches on each half that is asked for, and does not touch one
/// that is not, nor any other field of `CTRL`.
pub proof fn law_enabling_switches_on_what_is_asked_for(
    enable_tx: bool,
    enable_rx: bool,
    r: Vec<Step>,
)
    requires
        call_ensures(enable_transceiver, (enable_tx, enable_rx), r),
    ensures
        r@.len() == 1,
        r@[0] matches Step::ModifyCtrl(edit) && {
            &&& edit.te == Some(true) <==> enable_tx
            &&& edit.te is None <==> !enable_tx
            &&& edit.re == Some(true) <==> enable_rx
            &&& edit.re is None <==> !enable_rx
            &&& edit.pe is None
            &&& edit.pt is None
            &&& edit.dozeen is None
            &&& edit.m is None
            &&& edit.idlecfg is None
            &&& edit.ilt is None
            &&& edit.swap is None
            &&& edit.tie is None
            &&& edit.rie is None
            &&& edit.orie is None
            &&& edit.peie is None
            &&& edit.feie is None
            &&& edit.neie is None
        },
{
}

/// The setting of the baud rate is the one that is calculated for it: `BAUD` gets the ratio
/// less one, the divider, and sampling on both edges exactly for ratios from 4 to 7. It is
/// refused exactly if the calculation is, with the same error.
pub proof fn law_calculated_rate_is_set(
    baudrate_bps: u32,
    clock_freq: u32,
    rate: Result<(u8, u16), Error>,
    r: Result<Vec<Step>, Error>,
)
    requires
        call_ensures(calculate_baudrate, (baudrate_bps, clock_freq), rate),
        call_ensures(configure_baudrate, (baudrate_bps, clock_freq), r),
    ensures
        rate matches Err(e) ==> r == Err::<Vec<Step>, Error>(e),
        rate matches Ok((osr, sbr)) ==> {
            &&& r matches Ok(steps)
            &&& steps@.len() == 1
            &&& steps@[0] matches Step::ModifyBaud(edit)
            &&& edit.osr matches Some(field)
            &&& field + 1 == osr
            &&& edit.sbr == Some(sbr)
            &&& edit.bothedge == Some(4 <= osr <= 7)
            &&& edit.sbns is None
            &&& edit.m10 is None
        },
{
    let b = baudrate_bps as int;
    let f = clock_freq as int;
    match (rate, r) {
        (Ok((osr, sbr)), Ok(steps)) => {
            let (o, s) = choose|o: int, s: int| #[trigger]
                selected(b, f, o, s) && steps@ == seq![Step::ModifyBaud(rate_edit(o, s))];
            law_selection_is_unique(b, f, osr as int, sbr as int, o, s);
        },
        (Ok((osr, sbr)), Err(_)) => {
            law_selection_is_unique(b, f, osr as int, sbr as int, osr as int, sbr as int);
        },
        (Err(_), Ok(steps)) => {
            let (o, s) = choose|o: int, s: int| #[trigger]
                selected(b, f, o, s) && steps@ == seq![Step::ModifyBaud(rate_edit(o, s))];
            law_selection_is_unique(b, f, o, s, o, s);
        },
        _ => {},
    }
}

/// The frame format sets the stop bits that are configured and no ten-bit characters, and
/// leaves the baud rate alone.
pub proof fn law_frame_format_sets_stop_bits(config: Config, r: Vec<Step>)
    requires
        call_ensures(configure_frame_format, (&config,), r),
    ensures
        r@.len() == 2,
        r@[0] matches Step::ModifyBaud(edit) && {
            &&& edit.sbns == Some(config.stop_bits_count)
            &&& edit.m10 is None
            &&& edit.osr is None
            &&& edit.sbr is None
            &&& edit.bothedge is None
        },
        r@[1] matches Step::ModifyBaud(edit) && {
            &&& edit.m10 == Some(false)
            &&& edit.sbns is None
            &&& edit.osr is None
            &&& edit.sbr is None
            &&& edit.bothedge is None
        },
{
}

/// One access to `CTRL` makes the character nine bits long exactly if nine data bits or any
/// parity are configured, and eight otherwise; switches parity on exactly if there is one, of
/// the type that is configured; swaps the pins exactly if that is configured; takes over
/// the idle settings; keeps the peripheral running in doze mode; and switches neither the
/// transceiver nor an interrupt.
pub proof fn law_control_settings_follow_the_configuration(config: Config, r: Vec<Step>)
    requires
        call_ensures(configure_control_settings, (&config,), r),
    ensures
        r@.len() == 1,
        r@[0] matches Step::ModifyCtrl(edit) && {
            &&& edit.m == Some(DataBits::Data9) <==> config.data_bits_count == DataBits::Data9
                || config.parity_mode == Some(Parity::Even) || config.parity_mode == Some(
                Parity::Odd,
            )
            &&& edit.m == Some(DataBits::Data8) <==> config.data_bits_count == DataBits::Data8
                && config.parity_mode is None
            &&& edit.pe == Some(true) <==> config.parity_mode == Some(Parity::Even)
                || config.parity_mode == Some(Parity::Odd)
            &&& edit.pe == Some(false) <==> config.parity_mode is None
            &&& edit.pt == Some(Parity::Even) <==> config.parity_mode == Some(Parity::Even)
            &&& edit.pt == Some(Parity::Odd) <==> config.parity_mode == Some(Parity::Odd)
            &&& edit.swap == Some(Swap::Swap) <==> config.swap_txd_rxd
            &&& edit.swap == Some(Swap::Standard) <==> !config.swap_txd_rxd
            &&& edit.idlecfg == Some(config.rx_idle_config)
            &&& edit.ilt == Some(config.rx_idle_type)
            &&& edit.dozeen == Some(Dozeen::Enabled)
            &&& edit.te is None
            &&& edit.re is None
            &&& edit.tie is None
            &&& edit.rie is None
            &&& edit.orie is None
            &&& edit.peie is None
            &&& edit.feie is None
            &&& edit.neie is None
        },
{
    match config.parity_mode {
        Some(Parity::Even) => {},
        Some(Parity::Odd) => {},
        None => {},
    }
}

/// Each watermark that is configured goes to its own side; both FIFOs are enabled, and
/// flushed only then.
pub proof fn law_fifos_are_set_up_enabled_and_flushed(config: Config, r: Vec<Step>)
    requires
        call_ensures(configure_fifo, (&config,), r),
    ensures
        r@.len() == 3,
        r@[0] matches Step::WriteWater(water) && {
            &&& water.rxwater == config.rx_fifo_watermark
            &&& water.txwater == config.tx_fifo_watermark
        },
        r@[1] matches Step::ModifyFifo(edit) && {
            &&& edit.txfe == Some(true)
            &&& edit.rxfe == Some(true)
            &&& edit.txflush is None
            &&& edit.rxflush is None
        },
        r@[2] matches Step::ModifyFifo(edit) && {
            &&& edit.txflush == Some(Txflush::TxfifoRst)
            &&& edit.rxflush == Some(Rxflush::RxfifoRst)
            &&& edit.txfe is None
            &&& edit.rxfe is None
        },
{
}

/// The status flags are cleared by writing back what is read, and the bit order is set to
/// the one that is asked for.
pub proof fn law_status_is_written_back(clear: Vec<Step>, msb_first: MsbFirst, order: Vec<Step>)
    requires
        call_ensures(clear_all_status_flags, (), clear),
        call_ensures(configure_bit_order, (msb_first,), order),
    ensures
        clear@.len() == 1,
        clear@[0] matches Step::ModifyStat(edit) && edit.msbf is None,
        order@.len() == 1,
        order@[0] matches Step::ModifyStat(edit) && edit.msbf == Some(msb_first),
{
}

/// Each direction of flow control is on exactly if it is asked for, with the source and the
/// sampling that are configured, in one access; where none is asked for, nothing is accessed.
pub proof fn law_each_direction_of_flow_control_is_set(
    enable_tx_cts: bool,
    enable_rx_rts: bool,
    config: Config,
    r: Vec<Step>,
)
    requires
        call_ensures(configure_flow_control, (enable_tx_cts, enable_rx_rts, &config), r),
    ensures
        r@.len() == 0 <==> !enable_tx_cts && !enable_rx_rts,
        enable_tx_cts || enable_rx_rts ==> {
            &&& r@.len() == 1
            &&& r@[0] matches Step::ModifyModir(edit)
            &&& edit.txctse == Some(enable_tx_cts)
            &&& edit.rxrtse == Some(enable_rx_rts)
            &&& edit.txctsc == Some(config.tx_cts_config)
            &&& edit.txctssrc == Some(config.tx_cts_source)
        },
{
}

/// The peripheral is disabled from the inside out: its flags are cleared while it is still
/// clocked, its interrupt goes before the module does, and its clock goes last.
pub proof fn law_clock_goes_last(r: Vec<Step>)
    requires
        call_ensures(disable_peripheral, (), r),
    ensures
        r@.len() == 4,
        r@[0] matches Step::ModifyStat(edit) && edit.msbf is None,
        r@[1] == Step::DisableInterrupt,
        r@[2] == Step::ClearCtrl,
        r@[3] == Step::DisableClock,
{
}

/// Initialization is its parts in order, each with what was passed in: reset, transceiver
/// off, baud rate, frame format, control settings, FIFOs, status, flow control, bit order,
/// transceiver on. It fails exactly if the baud rate does, with its error, and stops there.
pub proof fn law_initialization_is_its_parts_in_order(
    enable_tx: bool,
    enable_rx: bool,
    enable_tx_cts: bool,
    enable_rx_rts: bool,
    config: Config,
    clock_freq: u32,
    r: (Vec<Step>, Result<(), Error>),
    reset: Vec<Step>,
    off: Vec<Step>,
    rate: Result<Vec<Step>, Error>,
    frame: Vec<Step>,
    control: Vec<Step>,
    fifo: Vec<Step>,
    status: Vec<Step>,
    flow: Vec<Step>,
    order: Vec<Step>,
    on: Vec<Step>,
)
    requires
        call_ensures(
            initialization_sequence,
            (enable_tx, enable_rx, enable_tx_cts, enable_rx_rts, &config, clock_freq),
            r,
        ),
        call_ensures(perform_software_reset, (), reset),
        call_ensures(disable_transceiver, (), off),
        call_ensures(configure_baudrate, (config.baudrate_bps, clock_freq), rate),
        call_ensures(configure_frame_format, (&config,), frame),
        call_ensures(configure_control_settings, (&config,), control),
        call_ensures(configure_fifo, (&config,), fifo),
        call_ensures(clear_all_status_flags, (), status),
        call_ensures(configure_flow_control, (enable_tx_cts, enable_rx_rts, &config), flow),
        call_ensures(configure_bit_order, (config.msb_first,), order),
        call_ensures(enable_transceiver, (enable_tx, enable_rx), on),
    ensures
        rate matches Err(e) ==> r.1 == Err::<(), Error>(e) && r.0@ == reset@ + off@,
        rate matches Ok(baud) ==> r.1 is Ok && r.0@ == reset@ + off@ + baud@ + frame@ + control@
            + fifo@ + status@ + flow@ + order@ + on@,
{
    let b = config.baudrate_bps as int;
    let f = clock_freq as int;
    if let Ok(baud) = rate {
        let (o, s) = choose|o: int, s: int| #[trigger]
            selected(b, f, o, s) && baud@ == seq![Step::ModifyBaud(rate_edit(o, s))];
        law_selection_is_unique(b, f, o, s, o, s);
        let whole = reset_steps() + configuration_steps(
            enable_tx,
            enable_rx,
            enable_tx_cts,
            enable_rx_rts,
            config,
            o,
            s,
        );
        assert forall|osr: int, sbr: int| #[trigger] selected(b, f, osr, sbr) implies osr == o
            && sbr == s by {
            law_selection_is_unique(b, f, osr, sbr, o, s);
        }
        assert(r.0@ == whole);
        assert(whole =~= reset@ + off@ + baud@ + frame@ + control@ + fifo@ + status@ + flow@
            + order@ + on@);
    }
}

} // verus!
