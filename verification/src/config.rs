//! Configuration of the driver.

use vstd::prelude::*;

verus! {

/// Power state in which the peripheral keeps its clock.
///
/// The clock driver acts on it; this driver only hands it over.
#[derive(Debug, Clone, Copy, PartialEq, Eq, Structural)]
pub enum PoweredClock {
    /// Clocked in normal operation, not clocked in deep sleep.
    NormalEnabledDeepSleepDisabled,
    /// Another state, by the clock driver's number for it.
    Other(u8),
}

/// Source of the functional clock.
///
/// The clock driver acts on it; this driver only hands it over.
#[derive(Debug, Clone, Copy, PartialEq, Eq, Structural)]
pub enum LpuartClockSel {
    /// Divided low-frequency free-running oscillator.
    FroLfDiv,
    /// Another source, by the clock driver's number for it.
    Other(u8),
}

/// Divisor of the functional clock.
#[derive(Debug, Clone, Copy, PartialEq, Eq, Structural)]
pub struct Div4 {
    /// What the clock is divided by; 1 leaves it as it is.
    pub divisor: u8,
}

impl Div4 {
    /// No division.
    pub fn no_div() -> (r: Self)
        ensures
            r == (Div4 { divisor: 1 }),
    {
        Div4 { divisor: 1 }
    }
}

/// One of the LPUART instances of the chip.
#[derive(Debug, Clone, Copy, PartialEq, Eq, Structural)]
pub enum LpuartInstance {
    Lpuart0,
    Lpuart1,
    Lpuart2,
    Lpuart3,
    Lpuart4,
    Lpuart5,
}

/// What the clock driver is asked for.
#[derive(Debug, Clone, Copy, PartialEq, Eq, Structural)]
pub struct LpuartConfig {
    /// Power state required for this peripheral
    pub power: PoweredClock,
    /// Clock source
    pub source: LpuartClockSel,
    /// Clock divisor
    pub div: Div4,
    /// The instance to be clocked
    pub instance: LpuartInstance,
}

/// Parity type (`CTRL.PT`)
#[derive(Debug, Clone, Copy, PartialEq, Eq, Structural)]
pub enum Parity {
    Even,
    Odd,
}

/// Character length (`CTRL.M`)
#[derive(Debug, Clone, Copy, PartialEq, Eq, Structural)]
pub enum DataBits {
    Data8,
    Data9,
}

/// Bit order on the line (`STAT.MSBF`)
#[derive(Debug, Clone, Copy, PartialEq, Eq, Structural)]
pub enum MsbFirst {
    LsbFirst,
    MsbFirst,
}

/// Number of stop bits (`BAUD.SBNS`)
#[derive(Debug, Clone, Copy, PartialEq, Eq, Structural)]
pub enum StopBits {
    One,
    Two,
}

/// What the transmitter takes as clear-to-send (`MODIR.TXCTSSRC`)
#[derive(Debug, Clone, Copy, PartialEq, Eq, Structural)]
pub enum TxCtsSource {
    /// The CTS pin
    Cts,
    /// The receiver's match result
    Match,
}

/// When clear-to-send is sampled (`MODIR.TXCTSC`)
#[derive(Debug, Clone, Copy, PartialEq, Eq, Structural)]
pub enum TxCtsConfig {
    /// At the start of each character
    Start,
    /// When the transmitter is idle
    Idle,
}

/// From where an idle line is counted (`CTRL.ILT`)
#[derive(Debug, Clone, Copy, PartialEq, Eq, Structural)]
pub enum IdleType {
    /// From the start bit
    FromStart,
    /// From the stop bit
    FromStop,
}

/// How many idle characters make an idle line (`CTRL.IDLECFG`)
#[derive(Debug, Clone, Copy, PartialEq, Eq, Structural)]
pub enum IdleConfig {
    Idle1,
    Idle2,
    Idle4,
    Idle8,
    Idle16,
    Idle32,
    Idle64,
    Idle128,
}

/// Lpuart config
#[derive(Debug, Clone, Copy, PartialEq, Eq, Structural)]
pub struct Config {
    /// Power state required for this peripheral
    pub power: PoweredClock,
    /// Clock source
    pub source: LpuartClockSel,
    /// Clock divisor
    pub div: Div4,
    /// Baud rate in bits per second
    pub baudrate_bps: u32,
    /// Parity configuration
    pub parity_mode: Option<Parity>,
    /// Number of data bits
    pub data_bits_count: DataBits,
    /// MSB First or LSB First configuration
    pub msb_first: MsbFirst,
    /// Number of stop bits
    pub stop_bits_count: StopBits,
    /// TX FIFO watermark
    pub tx_fifo_watermark: u8,
    /// RX FIFO watermark
    pub rx_fifo_watermark: u8,
    /// TX CTS source
    pub tx_cts_source: TxCtsSource,
    /// TX CTS configure
    pub tx_cts_config: TxCtsConfig,
    /// RX IDLE type
    pub rx_idle_type: IdleType,
    /// RX IDLE configuration
    pub rx_idle_config: IdleConfig,
    /// Swap TXD and RXD pins
    pub swap_txd_rxd: bool,
}

impl Default for Config {
    /// 115200 baud, 8 data bits, no parity, one stop bit, least significant bit
    /// first, from the undivided low-frequency oscillator.
    fn default() -> (r: Self)
        ensures
            r == (Config {
                power: PoweredClock::NormalEnabledDeepSleepDisabled,
                source: LpuartClockSel::FroLfDiv,
                div: Div4 { divisor: 1 },
                baudrate_bps: 115_200,
                parity_mode: None,
                data_bits_count: DataBits::Data8,
                msb_first: MsbFirst::LsbFirst,
                stop_bits_count: StopBits::One,
                tx_fifo_watermark: 0,
                rx_fifo_watermark: 1,
                tx_cts_source: TxCtsSource::Cts,
                tx_cts_config: TxCtsConfig::Start,
                rx_idle_type: IdleType::FromStart,
                rx_idle_config: IdleConfig::Idle1,
                swap_txd_rxd: false,
            }),
    {
        Config {
            baudrate_bps: 115_200u32,
            parity_mode: None,
            data_bits_count: DataBits::Data8,
            msb_first: MsbFirst::LsbFirst,
            stop_bits_count: StopBits::One,
            tx_fifo_watermark: 0,
            rx_fifo_watermark: 1,
            tx_cts_source: TxCtsSource::Cts,
            tx_cts_config: TxCtsConfig::Start,
            rx_idle_type: IdleType::FromStart,
            rx_idle_config: IdleConfig::Idle1,
            swap_txd_rxd: false,
            power: PoweredClock::NormalEnabledDeepSleepDisabled,
            source: LpuartClockSel::FroLfDiv,
            div: Div4::no_div(),
        }
    }
}

/// By default the line runs at 115200 baud with eight data bits, no parity and one stop
/// bit, the least significant first, on pins that are not swapped. The watermarks are 0 for
/// sending and 1 for receiving, and the clock is not divided and stops in deep sleep.
pub proof fn law_default_line_is_115200_8n1(config: Config, undivided: Div4)
    requires
        call_ensures(Config::default, (), config),
        call_ensures(Div4::no_div, (), undivided),
    ensures
        config.baudrate_bps == 115_200,
        config.data_bits_count == DataBits::Data8,
        config.parity_mode is None,
        config.stop_bits_count == StopBits::One,
        config.msb_first == MsbFirst::LsbFirst,
        config.tx_fifo_watermark == 0,
        config.rx_fifo_watermark == 1,
        config.tx_cts_source == TxCtsSource::Cts,
        config.tx_cts_config == TxCtsConfig::Start,
        config.rx_idle_type == IdleType::FromStart,
        config.rx_idle_config == IdleConfig::Idle1,
        !config.swap_txd_rxd,
        config.power == PoweredClock::NormalEnabledDeepSleepDisabled,
        config.source == LpuartClockSel::FroLfDiv,
        config.div == undivided,
        undivided.divisor == 1,
{
}

} // verus!
