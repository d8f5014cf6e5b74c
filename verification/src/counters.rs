//! Running counts of what went wrong on the receive side.

use vstd::prelude::*;

verus! {

/// Number of LPUART instances.
pub const LPUART_COUNT: usize = 6;

/// Receive-side events since boot, per LPUART instance.
///
/// The interrupt handler clears `STAT.OR` on every entry, so a poller can never observe
/// the flag. Losses are only visible through these running counts, which wrap around.
pub struct RxCounters {
    overruns: [u32; LPUART_COUNT],
    idle_finalizes: [u32; LPUART_COUNT],
}

/// The count after one more event.
pub open spec fn one_more(count: u32) -> u32 {
    if count == u32::MAX {
        0
    } else {
        (count + 1) as u32
    }
}

/// The counts after an event on an instance; there is none to change for an index that
/// names no instance.
pub open spec fn noted(counts: Seq<u32>, lpuart: usize) -> Seq<u32> {
    if lpuart < counts.len() {
        counts.update(lpuart as int, one_more(counts[lpuart as int]))
    } else {
        counts
    }
}

/// The count of an instance; zero for an index that names no instance.
pub open spec fn count_of(counts: Seq<u32>, lpuart: usize) -> u32 {
    if lpuart < counts.len() {
        counts[lpuart as int]
    } else {
        0
    }
}

impl RxCounters {
    /// RX overruns seen by the interrupt handler.
    pub closed spec fn overruns(&self) -> Seq<u32> {
        self.overruns@
    }

    /// Idle-line events that ended an RX DMA transfer early.
    pub closed spec fn idle_finalizes(&self) -> Seq<u32> {
        self.idle_finalizes@
    }

    /// All counts at zero.
    pub fn new() -> (r: Self)
        ensures
            r.overruns() == Seq::new(LPUART_COUNT as nat, |i: int| 0u32),
            r.idle_finalizes() == Seq::new(LPUART_COUNT as nat, |i: int| 0u32),
    {
        RxCounters { overruns: [0; LPUART_COUNT], idle_finalizes: [0; LPUART_COUNT] }
    }
}

/// There is one count of each kind for every instance.
pub proof fn lemma_one_count_per_instance(counters: RxCounters)
    ensures
        counters.overruns().len() == LPUART_COUNT,
        counters.idle_finalizes().len() == LPUART_COUNT,
{
}

/// Count an RX overrun.
pub fn note_rx_overrun(counters: &mut RxCounters, lpuart: usize)
    ensures
        final(counters).overruns() == noted(old(counters).overruns(), lpuart),
        final(counters).overruns().len() == LPUART_COUNT,
        final(counters).idle_finalizes() == old(counters).idle_finalizes(),
        final(counters).idle_finalizes().len() == LPUART_COUNT,
{
    if lpuart < LPUART_COUNT {
        counters.overruns[lpuart] = counters.overruns[lpuart].wrapping_add(1);
    }
}

/// Count an idle line that ended an RX DMA transfer early.
pub fn note_rx_idle_finalize(counters: &mut RxCounters, lpuart: usize)
    ensures
        final(counters).idle_finalizes() == noted(old(counters).idle_finalizes(), lpuart),
        final(counters).idle_finalizes().len() == LPUART_COUNT,
        final(counters).overruns() == old(counters).overruns(),
        final(counters).overruns().len() == LPUART_COUNT,
{
    if lpuart < LPUART_COUNT {
        counters.idle_finalizes[lpuart] = counters.idle_finalizes[lpuart].wrapping_add(1);
    }
}

/// Number of RX overruns the interrupt handler has cleared since boot.
///
/// Every increment is at least one byte the hardware dropped before DMA (or the
/// interrupt handler) could take it.
pub fn rx_overrun_count(counters: &RxCounters, lpuart: usize) -> (r: u32)
    ensures
        r == count_of(counters.overruns(), lpuart),
        counters.overruns().len() == LPUART_COUNT,
{
    if lpuart < LPUART_COUNT {
        counters.overruns[lpuart]
    } else {
        0
    }
}

/// Number of times an idle line ended an RX DMA transfer early since boot.
///
/// Each one stops and re-arms the DMA, which is the window where bytes can be lost.
pub fn rx_idle_finalize_count(counters: &RxCounters, lpuart: usize) -> (r: u32)
    ensures
        r == count_of(counters.idle_finalizes(), lpuart),
        counters.idle_finalizes().len() == LPUART_COUNT,
{
    if lpuart < LPUART_COUNT {
        counters.idle_finalizes[lpuart]
    } else {
        0
    }
}

/// Noting an event raises the count of its instance by one, and no other count; for an
/// index that names no instance it changes nothing.
pub proof fn law_noting_counts_one_instance(counters: RxCounters, lpuart: usize, other: usize)
    ensures
        lpuart < LPUART_COUNT ==> count_of(noted(counters.overruns(), lpuart), lpuart) == one_more(
            count_of(counters.overruns(), lpuart),
        ),
        other != lpuart || lpuart >= LPUART_COUNT ==> count_of(
            noted(counters.overruns(), lpuart),
            other,
        ) == count_of(counters.overruns(), other),
        lpuart < LPUART_COUNT ==> count_of(noted(counters.idle_finalizes(), lpuart), lpuart)
            == one_more(count_of(counters.idle_finalizes(), lpuart)),
        other != lpuart || lpuart >= LPUART_COUNT ==> count_of(
            noted(counters.idle_finalizes(), lpuart),
            other,
        ) == count_of(counters.idle_finalizes(), other),
{
    lemma_one_count_per_instance(counters);
}

/// Something that is counted, with the index that it was noted under.
pub enum RxEvent {
    Overrun(usize),
    IdleFinalize(usize),
}

/// The overruns and the idle-line events after a history of events since boot.
pub open spec fn counts_after(events: Seq<RxEvent>) -> (Seq<u32>, Seq<u32>)
    decreases events.len(),
{
    if events.len() == 0 {
        (
            Seq::new(LPUART_COUNT as nat, |i: int| 0u32),
            Seq::new(LPUART_COUNT as nat, |i: int| 0u32),
        )
    } else {
        let before = counts_after(events.drop_last());
        match events.last() {
            RxEvent::Overrun(lpuart) => (noted(before.0, lpuart), before.1),
            RxEvent::IdleFinalize(lpuart) => (before.0, noted(before.1, lpuart)),
        }
    }
}

/// How often an event occurs in a history.
pub open spec fn occurrences(events: Seq<RxEvent>, event: RxEvent) -> nat
    decreases events.len(),
{
    if events.len() == 0 {
        0
    } else {
        occurrences(events.drop_last(), event) + if events.last() == event {
            1nat
        } else {
            0nat
        }
    }
}

/// Whatever was noted since boot, each count is the number of events of its kind on its
/// instance, modulo 2 to the 32, and an index that names no instance counts nothing.
pub proof fn law_count_is_number_of_events(events: Seq<RxEvent>, lpuart: usize)
    ensures
        counts_after(events).0.len() == LPUART_COUNT,
        counts_after(events).1.len() == LPUART_COUNT,
        lpuart < LPUART_COUNT ==> count_of(counts_after(events).0, lpuart) == occurrences(
            events,
            RxEvent::Overrun(lpuart),
        ) % 0x1_0000_0000,
        lpuart < LPUART_COUNT ==> count_of(counts_after(events).1, lpuart) == occurrences(
            events,
            RxEvent::IdleFinalize(lpuart),
        ) % 0x1_0000_0000,
        lpuart >= LPUART_COUNT ==> count_of(counts_after(events).0, lpuart) == 0,
        lpuart >= LPUART_COUNT ==> count_of(counts_after(events).1, lpuart) == 0,
    decreases events.len(),
{
    if events.len() > 0 {
        law_count_is_number_of_events(events.drop_last(), lpuart);
    }
}

/// Noting an overrun raises the overrun count of its instance by one, from the largest
/// count back to zero, and leaves every other count and all counts of the other kind.
pub proof fn law_noting_an_overrun(lpuart: usize, other: int)
    requires
        0 <= other < 6,
    ensures
        forall|counters: &mut RxCounters| #[trigger]
            call_ensures(note_rx_overrun, (counters, lpuart), ()) ==> {
                &&& final(counters).overruns()[other] == (counters.overruns()[other] + if other
                    == lpuart {
                    1int
                } else {
                    0int
                }) % 0x1_0000_0000
                &&& final(counters).idle_finalizes()[other] == counters.idle_finalizes()[other]
            },
{
    assert forall|counters: &mut RxCounters| #[trigger]
        call_ensures(note_rx_overrun, (counters, lpuart), ()) implies {
        &&& final(counters).overruns()[other] == (counters.overruns()[other] + if other == lpuart {
            1int
        } else {
            0int
        }) % 0x1_0000_0000
        &&& final(counters).idle_finalizes()[other] == counters.idle_finalizes()[other]
    } by {
        lemma_one_count_per_instance(*counters);
    }
}

/// The same for an idle line that ended a transfer early.
pub proof fn law_noting_an_idle_finalize(lpuart: usize, other: int)
    requires
        0 <= other < 6,
    ensures
        forall|counters: &mut RxCounters| #[trigger]
            call_ensures(note_rx_idle_finalize, (counters, lpuart), ()) ==> {
                &&& final(counters).idle_finalizes()[other] == (counters.idle_finalizes()[other]
                    + if other == lpuart {
                    1int
                } else {
                    0int
                }) % 0x1_0000_0000
                &&& final(counters).overruns()[other] == counters.overruns()[other]
            },
{
    assert forall|counters: &mut RxCounters| #[trigger]
        call_ensures(note_rx_idle_finalize, (counters, lpuart), ()) implies {
        &&& final(counters).idle_finalizes()[other] == (counters.idle_finalizes()[other]
            + if other == lpuart {
            1int
        } else {
            0int
        }) % 0x1_0000_0000
        &&& final(counters).overruns()[other] == counters.overruns()[other]
    } by {
        lemma_one_count_per_instance(*counters);
    }
}

/// A count that is asked for is the one of its kind and its instance, and zero for an index
/// that names no instance. At boot all counts are zero.
pub proof fn law_counts_are_told_apart(
    counters: RxCounters,
    lpuart: usize,
    overruns: u32,
    idle_finalizes: u32,
)
    requires
        call_ensures(rx_overrun_count, (&counters, lpuart), overruns),
        call_ensures(rx_idle_finalize_count, (&counters, lpuart), idle_finalizes),
    ensures
        lpuart < 6 ==> overruns == counters.overruns()[lpuart as int],
        lpuart < 6 ==> idle_finalizes == counters.idle_finalizes()[lpuart as int],
        lpuart >= 6 ==> overruns == 0 && idle_finalizes == 0,
        call_ensures(RxCounters::new, (), counters) ==> overruns == 0 && idle_finalizes == 0,
{
    lemma_one_count_per_instance(counters);
}

} // verus!
