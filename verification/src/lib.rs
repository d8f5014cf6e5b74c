//! Verified core of a driver for the LPUART of the MCX A microcontrollers.
//!
//! The crate decides: which baud rate setting to use, which register accesses bring the
//! peripheral up and shut it down, what the status registers mean, and when the last
//! half of the driver is gone. It touches no hardware. What is to be accessed comes out
//! as [Step]s, and what was read goes in as the register types of [registers].

pub mod baud;
pub mod config;
pub mod counters;
pub mod driver;
pub mod effects;
pub mod error;
pub mod pins;
pub mod refmask;
pub mod registers;
pub mod sealed;
pub mod sequence;
pub mod snapshot;
pub mod state;
pub mod status;

pub use baud::calculate_baudrate;
pub use config::{
    Config, DataBits, Div4, IdleConfig, IdleType, LpuartClockSel, LpuartConfig, LpuartInstance,
    MsbFirst, Parity, PoweredClock, StopBits, TxCtsConfig, TxCtsSource,
};
pub use counters::{
    note_rx_idle_finalize, note_rx_overrun, rx_idle_finalize_count, rx_overrun_count, RxCounters,
};
pub use driver::{
    note_released, ClockParts, Instance, Lpuart, LpuartRx, LpuartTx, Mode, PendingInit, Released,
};
pub use error::{ClockError, Error, ErrorKind, InvalidParameters};
pub use pins::{
    CtsPin, DriveStrength, Mux, PinSetting, Pull, RtsPin, RxPin, RxPins, SlewRate, TxPin, TxPins,
};
pub use refmask::{TxRxRef, TxRxRefMask};
pub use registers::{Rst, Rxflush, Swap, Tc, Txflush};
pub use sequence::Step;
pub use snapshot::{
    lpuart_index, lpuart_regs, pin_snapshot, port_regs, sample_rx, snapshot, LpuartAddresses,
    LpuartReadings, LpuartSnapshot, PinSnapshot, PortInstance, Reading, RxSample,
};
pub use state::State;
pub use status::{
    check_and_clear_rx_errors, has_rx_data_pending, rx_data_source, wait_for_tx_complete,
    RxDataReading, RxDataSource, TxWait, TxWaitReading,
};
