//! What an instance keeps between its interrupt handler and its driver.

use vstd::prelude::*;

use embassy_hal_internal::atomic_ring_buffer::RingBuffer;
use maitake_sync::WaitCell;

use crate::refmask::{TxRxRef, TxRxRefMask};

verus! {

/// `embassy_hal_internal::atomic_ring_buffer::RingBuffer`, which the driver and the
/// interrupt handler exchange bytes through.
#[verifier::external_type_specification]
#[verifier::external_body]
pub struct ExRingBuffer(RingBuffer);

/// `maitake_sync::WaitCell`, which the driver waits on for the interrupt handler.
#[verifier::external_type_specification]
#[verifier::external_body]
pub struct ExWaitCell(WaitCell);

/// `RingBuffer::new`, which makes a buffer without backing memory. Nothing is claimed of
/// it: what a buffer holds changes through shared references to it.
pub assume_specification[ RingBuffer::new ]() -> (r: RingBuffer);

/// `WaitCell::new`, which makes a cell that nobody waits on. Nothing is claimed of it:
/// who waits on a cell changes through shared references to it.
pub assume_specification[ WaitCell::new ]() -> (r: WaitCell);

/// State of an instance.
pub struct State {
    /// Wakes the transmitting task
    pub tx_waker: WaitCell,
    /// Bytes to be sent
    pub tx_buf: RingBuffer,
    /// Wakes the receiving task
    pub rx_waker: WaitCell,
    /// Bytes received
    pub rx_buf: RingBuffer,
    /// The halves of the driver that are alive
    pub tx_rx_refmask: TxRxRefMask,
}

impl State {
    /// Whether no half of the driver is alive and each cell and buffer is one that its
    /// constructor hands out.
    pub open spec fn is_fresh(self) -> bool {
        &&& call_ensures(WaitCell::new, (), self.tx_waker)
        &&& call_ensures(RingBuffer::new, (), self.tx_buf)
        &&& call_ensures(WaitCell::new, (), self.rx_waker)
        &&& call_ensures(RingBuffer::new, (), self.rx_buf)
        &&& self.tx_rx_refmask@ == Set::<TxRxRef>::empty()
    }
}

impl Default for State {
    /// The same as [State::new].
    fn default() -> (r: Self)
        ensures
            r.is_fresh(),
    {
        Self::new()
    }
}

impl State {
    /// Create a new state instance
    pub fn new() -> (r: Self)
        ensures
            r.is_fresh(),
    {
        Self {
            tx_waker: WaitCell::new(),
            tx_buf: RingBuffer::new(),
            rx_waker: WaitCell::new(),
            rx_buf: RingBuffer::new(),
            tx_rx_refmask: TxRxRefMask::new(),
        }
    }
}

/// No half of the driver is alive in a state that was just made, in either way.
pub proof fn law_nothing_is_alive_in_a_new_state(made: State, default: State, part: TxRxRef)
    requires
        call_ensures(State::new, (), made),
        call_ensures(State::default, (), default),
    ensures
        !made.tx_rx_refmask@.contains(part),
        !default.tx_rx_refmask@.contains(part),
{
}

} // verus!
