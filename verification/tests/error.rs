use std::future::Future;
use std::task::{Context, Poll, Waker};

use mcxa_lpuart::{ClockError, Error, ErrorKind, InvalidParameters};

#[test]
fn messages() {
    assert_eq!(Error::Read.message(), "Read error");
    assert_eq!(Error::Overrun.message(), "Buffer overflow");
    assert_eq!(Error::Noise.message(), "Noise error");
    assert_eq!(Error::Framing.message(), "Framing error");
    assert_eq!(Error::Parity.message(), "Parity error");
    assert_eq!(Error::Fail.message(), "Failure");
    assert_eq!(Error::InvalidArgument.message(), "Invalid argument");
    assert_eq!(Error::UnsupportedBaudrate.message(), "Unsupported baud rate");
    assert_eq!(Error::RxFifoEmpty.message(), "RX FIFO empty");
    assert_eq!(Error::TxFifoFull.message(), "TX FIFO full");
    assert_eq!(Error::TxBusy.message(), "TX busy");
    assert_eq!(Error::Other.message(), "Other error");
}

#[test]
fn a_clock_error_shows_its_cause() {
    let error = Error::ClockSetup(ClockError {
        description: "NeverInitialized",
    });
    assert_eq!(error.message(), "Clock setup error: NeverInitialized");
}

#[test]
fn kinds() {
    assert_eq!(Error::Framing.kind(), ErrorKind::FrameFormat);
    assert_eq!(Error::Overrun.kind(), ErrorKind::Overrun);
    assert_eq!(Error::Parity.kind(), ErrorKind::Parity);
    assert_eq!(Error::Noise.kind(), ErrorKind::Noise);
    assert_eq!(Error::Read.kind(), ErrorKind::Other);
    assert_eq!(Error::Fail.kind(), ErrorKind::Other);
    assert_eq!(Error::InvalidArgument.kind(), ErrorKind::Other);
    assert_eq!(Error::UnsupportedBaudrate.kind(), ErrorKind::Other);
    assert_eq!(Error::RxFifoEmpty.kind(), ErrorKind::Other);
    assert_eq!(Error::TxFifoFull.kind(), ErrorKind::Other);
    assert_eq!(Error::TxBusy.kind(), ErrorKind::Other);
    assert_eq!(Error::Other.kind(), ErrorKind::Other);
}

#[test]
fn refused_dma_parameters_are_an_other_error() {
    assert_eq!(Error::from(InvalidParameters), Error::Other);
}

#[test]
fn a_closed_wait_is_an_other_error() {
    let cell = maitake_sync::WaitCell::new();
    cell.close();
    let mut context = Context::from_waker(Waker::noop());
    let mut wait = Box::pin(cell.wait());
    match wait.as_mut().poll(&mut context) {
        Poll::Ready(Err(closed)) => assert_eq!(Error::from(closed), Error::Other),
        _ => panic!("the cell is closed"),
    }
}
