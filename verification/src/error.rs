//! Errors of the driver.

use vstd::prelude::*;
use vstd::std_specs::convert::FromSpecImpl;
use vstd::string::StringExecFns;

verus! {

/// `maitake_sync::Closed`, which a wait returns when what it waited on was closed.
#[verifier::external_type_specification]
#[verifier::external_body]
pub struct ExClosed(maitake_sync::Closed);

/// The parameters of a DMA transfer were refused.
#[derive(Debug, Copy, Clone, Eq, PartialEq)]
pub struct InvalidParameters;

/// Why the clocks of the peripheral could not be set up.
///
/// The clock driver decides; this driver only passes its diagnosis on.
#[derive(Debug, Copy, Clone, Eq, PartialEq)]
pub struct ClockError {
    /// The clock driver's error as its `Debug` text, such as the name of a variant.
    pub description: &'static str,
}

/// LPUART error types
#[derive(Debug, Copy, Clone, Eq, PartialEq)]
pub enum Error {
    /// Read error
    Read,
    /// Buffer overflow
    Overrun,
    /// Noise error
    Noise,
    /// Framing error
    Framing,
    /// Parity error
    Parity,
    /// Failure
    Fail,
    /// Invalid argument
    InvalidArgument,
    /// Lpuart baud rate cannot be supported with the given clock
    UnsupportedBaudrate,
    /// RX FIFO Empty
    RxFifoEmpty,
    /// TX FIFO Full
    TxFifoFull,
    /// TX Busy
    TxBusy,
    /// Clock Error
    ClockSetup(ClockError),
    /// Other internal errors or unexpected state.
    Other,
}

/// What kind of serial error an error is.
#[derive(Debug, Copy, Clone, Eq, PartialEq, Structural)]
pub enum ErrorKind {
    /// The receive buffer was overrun.
    Overrun,
    /// Received data does not conform to the configuration.
    FrameFormat,
    /// Parity check failed.
    Parity,
    /// Serial line is too noisy to read valid data.
    Noise,
    /// A different error occurred.
    Other,
}

impl From<InvalidParameters> for Error {
    fn from(_value: InvalidParameters) -> (r: Self) {
        Error::Other
    }
}

impl FromSpecImpl<InvalidParameters> for Error {
    open spec fn obeys_from_spec() -> bool {
        true
    }

    open spec fn from_spec(_value: InvalidParameters) -> Self {
        Error::Other
    }
}

impl From<maitake_sync::Closed> for Error {
    fn from(_value: maitake_sync::Closed) -> (r: Self) {
        Error::Other
    }
}

impl FromSpecImpl<maitake_sync::Closed> for Error {
    open spec fn obeys_from_spec() -> bool {
        true
    }

    open spec fn from_spec(_value: maitake_sync::Closed) -> Self {
        Error::Other
    }
}

/// The text that an error is shown as.
pub open spec fn message_of(error: Error) -> Seq<char> {
    match error {
        Error::Read => "Read error"@,
        Error::Overrun => "Buffer overflow"@,
        Error::Noise => "Noise error"@,
        Error::Framing => "Framing error"@,
        Error::Parity => "Parity error"@,
        Error::Fail => "Failure"@,
        Error::InvalidArgument => "Invalid argument"@,
        Error::UnsupportedBaudrate => "Unsupported baud rate"@,
        Error::RxFifoEmpty => "RX FIFO empty"@,
        Error::TxFifoFull => "TX FIFO full"@,
        Error::TxBusy => "TX busy"@,
        Error::ClockSetup(e) => "Clock setup error: "@ + e.description@,
        Error::Other => "Other error"@,
    }
}

/// The kind of an error; what is not about the line is of another kind.
pub open spec fn kind_of(error: Error) -> ErrorKind {
    match error {
        Error::Framing => ErrorKind::FrameFormat,
        Error::Overrun => ErrorKind::Overrun,
        Error::Parity => ErrorKind::Parity,
        Error::Noise => ErrorKind::Noise,
        _ => ErrorKind::Other,
    }
}

impl Error {
    /// The error as a text.
    pub fn message(&self) -> (r: String)
        ensures
            r@ == message_of(*self),
    {
        match self {
            Error::Read => "Read error".to_owned(),
            Error::Overrun => "Buffer overflow".to_owned(),
            Error::Noise => "Noise error".to_owned(),
            Error::Framing => "Framing error".to_owned(),
            Error::Parity => "Parity error".to_owned(),
            Error::Fail => "Failure".to_owned(),
            Error::InvalidArgument => "Invalid argument".to_owned(),
            Error::UnsupportedBaudrate => "Unsupported baud rate".to_owned(),
            Error::RxFifoEmpty => "RX FIFO empty".to_owned(),
            Error::TxFifoFull => "TX FIFO full".to_owned(),
            Error::TxBusy => "TX busy".to_owned(),
            Error::ClockSetup(e) => "Clock setup error: ".to_owned().concat(e.description),
            Error::Other => "Other error".to_owned(),
        }
    }

    /// The kind of the error.
    pub fn kind(&self) -> (r: ErrorKind)
        ensures
            r == kind_of(*self),
    {
        match *self {
            Error::Framing => ErrorKind::FrameFormat,
            Error::Overrun => ErrorKind::Overrun,
            Error::Parity => ErrorKind::Parity,
            Error::Noise => ErrorKind::Noise,
            _ => ErrorKind::Other,
        }
    }
}

/// An error is of the kind that the line reports for it, and of another kind exactly if the
/// line does not report it.
pub proof fn law_kind_is_what_the_line_reports(error: Error, r: ErrorKind)
    requires
        call_ensures(Error::kind, (&error,), r),
    ensures
        r == ErrorKind::Overrun <==> error == Error::Overrun,
        r == ErrorKind::FrameFormat <==> error == Error::Framing,
        r == ErrorKind::Parity <==> error == Error::Parity,
        r == ErrorKind::Noise <==> error == Error::Noise,
        r == ErrorKind::Other <==> error != Error::Overrun && error != Error::Framing && error
            != Error::Parity && error != Error::Noise,
{
}

/// What goes wrong in a transfer or in a wait is an internal error.
pub proof fn law_outside_errors_are_internal(
    refused: InvalidParameters,
    by_refusal: Error,
    closed: maitake_sync::Closed,
    by_closing: Error,
)
    requires
        call_ensures(<Error as From<InvalidParameters>>::from, (refused,), by_refusal),
        call_ensures(<Error as From<maitake_sync::Closed>>::from, (closed,), by_closing),
    ensures
        by_refusal == Error::Other,
        by_closing == Error::Other,
{
}

/// Each error says what it is, and a clock error also why.
pub proof fn law_message_says_what_the_error_is(error: Error, r: String)
    requires
        call_ensures(Error::message, (&error,), r),
    ensures
        error == Error::Read ==> r@ == "Read error"@,
        error == Error::Overrun ==> r@ == "Buffer overflow"@,
        error == Error::Noise ==> r@ == "Noise error"@,
        error == Error::Framing ==> r@ == "Framing error"@,
        error == Error::Parity ==> r@ == "Parity error"@,
        error == Error::Fail ==> r@ == "Failure"@,
        error == Error::InvalidArgument ==> r@ == "Invalid argument"@,
        error == Error::UnsupportedBaudrate ==> r@ == "Unsupported baud rate"@,
        error == Error::RxFifoEmpty ==> r@ == "RX FIFO empty"@,
        error == Error::TxFifoFull ==> r@ == "TX FIFO full"@,
        error == Error::TxBusy ==> r@ == "TX busy"@,
        error == Error::Other ==> r@ == "Other error"@,
        error matches Error::ClockSetup(e) ==> {
            let intro = "Clock setup error: "@;
            &&& r@.len() == intro.len() + e.description@.len()
            &&& r@.take(intro.len() as int) == intro
            &&& r@.skip(intro.len() as int) == e.description@
        },
{
}

} // verus!
