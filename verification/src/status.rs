//! Decisions on what the status registers report.

use vstd::prelude::*;

use crate::error::Error;
use crate::registers::{Param, RxErrorFlags, Stat, Tc, Water};

verus! {

/// The receive errors that `STAT` reports.
pub open spec fn rx_errors(stat: Stat) -> RxErrorFlags {
    RxErrorFlags { or: stat.or, pf: stat.pf, fe: stat.fe, nf: stat.nf }
}

/// What is returned for latched receive errors. An overrun goes first, as it keeps the
/// other flags from being set; then parity, framing and noise.
pub open spec fn rx_result(errors: RxErrorFlags) -> Result<(), Error> {
    if errors.or {
        Err(Error::Overrun)
    } else if errors.pf {
        Err(Error::Parity)
    } else if errors.fe {
        Err(Error::Framing)
    } else if errors.nf {
        Err(Error::Noise)
    } else {
        Ok(())
    }
}

/// Whether `written` is a word for `STAT` with these error flags raised and every other bit
/// zero. What a zero means to the fields that are no flags is left open.
pub open spec fn raises_only(written: Stat, errors: RxErrorFlags) -> bool {
    &&& rx_errors(written) == errors
    &&& !written.rdrf
    &&& !written.idle
    &&& !written.rxedgif
    &&& written.raf == 0
}

/// Decide on the receive errors in `STAT`: the flags to write to it, which clears all
/// errors that were seen and no other flag, and what to return afterwards. Every other bit
/// is to be written as zero.
pub fn check_and_clear_rx_errors(stat: Stat) -> (r: (RxErrorFlags, Result<(), Error>))
    ensures
        r.0 == rx_errors(stat),
        forall|now: Stat, written: Stat|
            raises_only(written, r.0) ==> clears_only(
                now,
                rx_errors(stat),
                #[trigger] now.stored(written),
            ),
        r.1 == rx_result(rx_errors(stat)),
{
    // Check for overrun first - other error flags are prevented when OR is set
    let or_set = stat.or;
    let pf_set = stat.pf;
    let fe_set = stat.fe;
    let nf_set = stat.nf;

    // Clear all errors before returning
    let write = RxErrorFlags { or: or_set, pf: pf_set, fe: fe_set, nf: nf_set };

    // Return error source
    let result = if or_set {
        Err(Error::Overrun)
    } else if pf_set {
        Err(Error::Parity)
    } else if fe_set {
        Err(Error::Framing)
    } else if nf_set {
        Err(Error::Noise)
    } else {
        Ok(())
    };
    (write, result)
}

/// The errors that stay latched when `written` is written to `STAT`.
pub open spec fn still_latched(latched: RxErrorFlags, written: RxErrorFlags) -> RxErrorFlags {
    RxErrorFlags {
        or: latched.or && !written.or,
        pf: latched.pf && !written.pf,
        fe: latched.fe && !written.fe,
        nf: latched.nf && !written.nf,
    }
}

/// Whether `after` is `before` with these errors cleared and all else that `STAT` reports
/// as it was.
pub open spec fn clears_only(before: Stat, errors: RxErrorFlags, after: Stat) -> bool {
    &&& rx_errors(after) == still_latched(rx_errors(before), errors)
    &&& after.idle == before.idle
    &&& after.rxedgif == before.rxedgif
    &&& after.rdrf == before.rdrf
    &&& after.raf == before.raf
    &&& after.tc == before.tc
}

/// Writing `STAT` with error flags raised and every other bit zero clears these errors, and
/// nothing else that it reports.
pub proof fn law_error_write_clears_nothing_else(now: Stat, written: Stat, errors: RxErrorFlags)
    requires
        raises_only(written, errors),
    ensures
        clears_only(now, errors, now.stored(written)),
{
}

/// Success means that no error was latched, and only that.
pub proof fn law_ok_means_no_error(stat: Stat)
    ensures
        rx_result(rx_errors(stat)) is Ok <==> !stat.or && !stat.pf && !stat.fe && !stat.nf,
{
}

/// An error is reported once: when nothing new was latched, the next check succeeds.
pub proof fn law_errors_are_cleared(stat: Stat)
    ensures
        rx_result(still_latched(rx_errors(stat), rx_errors(stat))) == Ok::<(), Error>(()),
{
}

/// No error is lost: one that is latched between the reading of `STAT` and the writing
/// of it stays latched, and the next check reports it.
pub proof fn law_no_error_is_lost(seen: Stat, now: Stat)
    ensures
        now.or && !seen.or ==> still_latched(rx_errors(now), rx_errors(seen)).or,
        now.pf && !seen.pf ==> still_latched(rx_errors(now), rx_errors(seen)).pf,
        now.fe && !seen.fe ==> still_latched(rx_errors(now), rx_errors(seen)).fe,
        now.nf && !seen.nf ==> still_latched(rx_errors(now), rx_errors(seen)).nf,
        rx_result(still_latched(rx_errors(now), rx_errors(seen))) is Err <==> (now.or && !seen.or)
            || (now.pf && !seen.pf) || (now.fe && !seen.fe) || (now.nf && !seen.nf),
{
}

/// Where the amount of received data is to be read.
#[derive(Debug, Clone, Copy, PartialEq, Eq, Structural)]
pub enum RxDataSource {
    /// `WATER.RXCOUNT`
    Water,
    /// `STAT.RDRF`
    Stat,
}

/// What was read about received data.
#[derive(Debug, Clone, Copy, PartialEq, Eq, Structural)]
pub enum RxDataReading {
    Water(Water),
    Stat(Stat),
}

/// The source that fits what the instance is built with: the FIFO if it has one.
pub open spec fn source_for(param: Param) -> RxDataSource {
    if param.rxfifo > 0 {
        RxDataSource::Water
    } else {
        RxDataSource::Stat
    }
}

/// Whether a reading shows received data.
pub open spec fn shows_rx_data(reading: RxDataReading) -> bool {
    match reading {
        RxDataReading::Water(water) => water.rxcount > 0,
        RxDataReading::Stat(stat) => stat.rdrf,
    }
}

/// Where to look for received data.
pub fn rx_data_source(param: Param) -> (r: RxDataSource)
    ensures
        r == source_for(param),
{
    if param.rxfifo > 0 {
        // FIFO is available - check RXCOUNT in WATER register
        RxDataSource::Water
    } else {
        // No FIFO - check RDRF flag in STAT register
        RxDataSource::Stat
    }
}

/// Whether received data waits to be read, by a reading of the source that
/// [rx_data_source] gave.
pub fn has_rx_data_pending(reading: RxDataReading) -> (r: bool)
    ensures
        r == shows_rx_data(reading),
{
    match reading {
        RxDataReading::Water(water) => water.rxcount > 0,
        RxDataReading::Stat(stat) => stat.rdrf,
    }
}

/// The reading of a source.
pub open spec fn read_from(source: RxDataSource, water: Water, stat: Stat) -> RxDataReading {
    match source {
        RxDataSource::Water => RxDataReading::Water(water),
        RxDataSource::Stat => RxDataReading::Stat(stat),
    }
}

/// An instance with a FIFO has received data exactly if the FIFO is not empty, whatever
/// the data register flag says; one without has some exactly if the flag is set.
pub proof fn law_pending_data_is_seen_where_it_waits(param: Param, water: Water, stat: Stat)
    ensures
        param.rxfifo > 0 ==> shows_rx_data(read_from(source_for(param), water, stat)) == (
        water.rxcount > 0),
        param.rxfifo == 0 ==> shows_rx_data(read_from(source_for(param), water, stat)) == stat.rdrf,
{
}

/// What is still waited for.
#[derive(Debug, Clone, Copy, PartialEq, Eq, Structural)]
pub enum TxWait {
    /// For the transmit FIFO to empty; `WATER` is to be read
    FifoEmpty,
    /// For the last character to shift out; `STAT` is to be read
    ShiftedOut,
    /// For nothing
    Complete,
}

/// What was read while waiting.
#[derive(Debug, Clone, Copy, PartialEq, Eq, Structural)]
pub enum TxWaitReading {
    Water(Water),
    Stat(Stat),
}

/// What is waited for after a reading. A reading that was not asked for changes nothing.
pub open spec fn next_tx_wait(wait: TxWait, reading: TxWaitReading) -> TxWait {
    match (wait, reading) {
        (TxWait::FifoEmpty, TxWaitReading::Water(water)) => if water.txcount == 0 {
            TxWait::ShiftedOut
        } else {
            TxWait::FifoEmpty
        },
        (TxWait::ShiftedOut, TxWaitReading::Stat(stat)) => if stat.tc == Tc::Active {
            TxWait::ShiftedOut
        } else {
            TxWait::Complete
        },
        _ => wait,
    }
}

/// Wait for all transmit operations to complete: one turn of the wait, which starts with
/// [TxWait::FifoEmpty] and is over with [TxWait::Complete].
pub fn wait_for_tx_complete(wait: TxWait, reading: TxWaitReading) -> (r: TxWait)
    ensures
        r == next_tx_wait(wait, reading),
{
    match wait {
        TxWait::FifoEmpty => match reading {
            TxWaitReading::Water(water) => {
                if water.txcount != 0 {
                    TxWait::FifoEmpty
                } else {
                    TxWait::ShiftedOut
                }
            },
            TxWaitReading::Stat(_) => wait,
        },
        TxWait::ShiftedOut => match reading {
            TxWaitReading::Stat(stat) => match stat.tc {
                Tc::Active => TxWait::ShiftedOut,
                Tc::Complete => TxWait::Complete,
            },
            TxWaitReading::Water(_) => wait,
        },
        TxWait::Complete => wait,
    }
}

/// What is waited for after a series of readings.
pub open spec fn tx_wait_after(readings: Seq<TxWaitReading>) -> TxWait
    decreases readings.len(),
{
    if readings.len() == 0 {
        TxWait::FifoEmpty
    } else {
        next_tx_wait(tx_wait_after(readings.drop_last()), readings.last())
    }
}

/// Whether the reading shows an empty transmit FIFO.
pub open spec fn shows_empty_fifo(reading: TxWaitReading) -> bool {
    reading matches TxWaitReading::Water(water) && water.txcount == 0
}

/// Whether the reading shows an idle transmitter.
pub open spec fn shows_complete(reading: TxWaitReading) -> bool {
    reading matches TxWaitReading::Stat(stat) && stat.tc == Tc::Complete
}

/// Whether the readings show an empty FIFO and, after it, an idle transmitter.
pub open spec fn shows_all_sent(readings: Seq<TxWaitReading>) -> bool {
    exists|i: int, j: int|
        0 <= i < j < readings.len() && #[trigger] shows_empty_fifo(readings[i])
            && #[trigger] shows_complete(readings[j])
}

/// The wait ends exactly when the FIFO was seen empty and the transmitter was seen idle
/// after that.
pub proof fn law_wait_ends_when_all_is_sent(readings: Seq<TxWaitReading>)
    ensures
        tx_wait_after(readings) == TxWait::Complete <==> shows_all_sent(readings),
        tx_wait_after(readings) == TxWait::FifoEmpty <==> forall|i: int|
            0 <= i < readings.len() ==> !shows_empty_fifo(#[trigger] readings[i]),
    decreases readings.len(),
{
    if readings.len() > 0 {
        let before = readings.drop_last();
        let last = readings.len() - 1;
        law_wait_ends_when_all_is_sent(before);
        if tx_wait_after(before) == TxWait::FifoEmpty {
            assert forall|i: int| 0 <= i < last implies !shows_empty_fifo(#[trigger] readings[i]) by {
                assert(!shows_empty_fifo(before[i]));
            }
        } else {
            let k = choose|i: int| 0 <= i < before.len() && shows_empty_fifo(#[trigger] before[i]);
            assert(shows_empty_fifo(readings[k]));
            assert(shows_complete(readings[last]) ==> shows_all_sent(readings));
        }
        if shows_all_sent(before) {
            let (i, j) = choose|i: int, j: int|
                0 <= i < j < before.len() && #[trigger] shows_empty_fifo(before[i])
                    && #[trigger] shows_complete(before[j]);
            assert(shows_empty_fifo(readings[i]) && shows_complete(readings[j]));
        }
        if shows_all_sent(readings) {
            let (i, j) = choose|i: int, j: int|
                0 <= i < j < readings.len() && #[trigger] shows_empty_fifo(readings[i])
                    && #[trigger] shows_complete(readings[j]);
            assert(shows_empty_fifo(before[i]));
            assert(j < last ==> shows_complete(before[j]));
        }
    }
}

/// The result names the error that goes first among those that are latched: overrun before
/// parity before framing before noise. The flags to write are those that were read.
pub proof fn law_reported_error_is_latched_and_goes_first(
    stat: Stat,
    r: (RxErrorFlags, Result<(), Error>),
)
    requires
        call_ensures(check_and_clear_rx_errors, (stat,), r),
    ensures
        r.1 == Err::<(), Error>(Error::Overrun) <==> stat.or,
        r.1 == Err::<(), Error>(Error::Parity) <==> stat.pf && !stat.or,
        r.1 == Err::<(), Error>(Error::Framing) <==> stat.fe && !stat.pf && !stat.or,
        r.1 == Err::<(), Error>(Error::Noise) <==> stat.nf && !stat.fe && !stat.pf && !stat.or,
        r.1 is Ok <==> !stat.or && !stat.pf && !stat.fe && !stat.nf,
        r.0.or == stat.or,
        r.0.pf == stat.pf,
        r.0.fe == stat.fe,
        r.0.nf == stat.nf,
{
}

/// Writing the flags of a check to `STAT`, and every other bit as zero, clears each error
/// that the check saw, keeps each that was latched since, and changes nothing else that
/// `STAT` reports.
pub proof fn law_check_clears_what_it_saw(
    seen: Stat,
    r: (RxErrorFlags, Result<(), Error>),
    now: Stat,
    written: Stat,
)
    requires
        call_ensures(check_and_clear_rx_errors, (seen,), r),
        written.or == r.0.or,
        written.pf == r.0.pf,
        written.fe == r.0.fe,
        written.nf == r.0.nf,
        !written.rdrf,
        !written.idle,
        !written.rxedgif,
        written.raf == 0,
    ensures
        now.stored(written).or == (now.or && !seen.or),
        now.stored(written).pf == (now.pf && !seen.pf),
        now.stored(written).fe == (now.fe && !seen.fe),
        now.stored(written).nf == (now.nf && !seen.nf),
        now.stored(written).idle == now.idle,
        now.stored(written).rxedgif == now.rxedgif,
        now.stored(written).rdrf == now.rdrf,
        now.stored(written).raf == now.raf,
        now.stored(written).tc == now.tc,
{
}

/// Received data is looked for in the FIFO of an instance that has one and in the data
/// register of an instance that has none, and it waits exactly if the FIFO counts at least
/// one byte or the register is full.
pub proof fn law_rx_data_is_looked_for_where_it_waits(
    param: Param,
    source: RxDataSource,
    water: Water,
    by_water: bool,
    stat: Stat,
    by_stat: bool,
)
    requires
        call_ensures(rx_data_source, (param,), source),
        call_ensures(has_rx_data_pending, (RxDataReading::Water(water),), by_water),
        call_ensures(has_rx_data_pending, (RxDataReading::Stat(stat),), by_stat),
    ensures
        source == RxDataSource::Water <==> param.rxfifo != 0,
        source == RxDataSource::Stat <==> param.rxfifo == 0,
        by_water <==> water.rxcount != 0,
        by_stat <==> stat.rdrf,
{
}

/// The wait moves on only by what it waits for: from the FIFO when `WATER` counts no byte
/// to send, and from the shifter when `STAT` reports that it has finished. Once it is over
/// it stays over.
pub proof fn law_wait_moves_on_when_sent(wait: TxWait, water: Water, stat: Stat, next: (
    TxWait,
    TxWait,
))
    requires
        call_ensures(wait_for_tx_complete, (wait, TxWaitReading::Water(water)), next.0),
        call_ensures(wait_for_tx_complete, (wait, TxWaitReading::Stat(stat)), next.1),
    ensures
        next.0 != wait <==> wait == TxWait::FifoEmpty && water.txcount == 0,
        next.0 != wait ==> next.0 == TxWait::ShiftedOut,
        next.1 != wait <==> wait == TxWait::ShiftedOut && stat.tc == Tc::Complete,
        next.1 != wait ==> next.1 == TxWait::Complete,
{
}

} // verus!
