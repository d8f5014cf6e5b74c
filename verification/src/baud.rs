//! Choice of the oversampling ratio and the divider for a baud rate.

use vstd::math::abs;
use vstd::prelude::*;

use crate::error::Error;

verus! {

/// The smallest oversampling ratio of the receiver.
pub const OSR_MIN: u32 = 4;

/// The largest oversampling ratio of the receiver.
pub const OSR_MAX: u32 = 32;

/// The largest value of the 13-bit baud rate divider.
pub const SBR_MAX: i32 = 0x1fff;

/// How far from the ideal divider the search looks, on either side.
pub const SBR_WINDOW: i32 = 2;

/// The divider that comes closest from below to dividing the source clock down
/// to `baudrate` with the oversampling ratio `osr`.
pub open spec fn ideal_sbr(baudrate: int, src_clock_hz: int, osr: int) -> int {
    src_clock_hz / (baudrate * osr)
}

/// The baud rate that the hardware runs at, rounded down.
pub open spec fn achieved_baudrate(src_clock_hz: int, osr: int, sbr: int) -> int {
    src_clock_hz / (osr * sbr)
}

/// How far the achieved baud rate is from the wanted one.
pub open spec fn deviation(baudrate: int, src_clock_hz: int, osr: int, sbr: int) -> int {
    let achieved = achieved_baudrate(src_clock_hz, osr, sbr);
    if achieved >= baudrate {
        achieved - baudrate
    } else {
        baudrate - achieved
    }
}

/// The largest deviation that is still accepted: three percent.
pub open spec fn tolerance(baudrate: int) -> int {
    (baudrate / 100) * 3
}

/// Whether the hardware can be set to this pair.
pub open spec fn settable(osr: int, sbr: int) -> bool {
    &&& OSR_MIN <= osr <= OSR_MAX
    &&& 1 <= sbr <= SBR_MAX
}

/// The first divider that the search tries with an oversampling ratio: the lower end of a
/// window around the ideal divider, or the largest divider where the whole window lies
/// above it.
pub open spec fn first_sbr(baudrate: int, src_clock_hz: int, osr: int) -> int {
    let low = ideal_sbr(baudrate, src_clock_hz, osr) - SBR_WINDOW;
    if low > SBR_MAX {
        SBR_MAX as int
    } else {
        low
    }
}

/// The last divider that the search tries with an oversampling ratio.
pub open spec fn last_sbr(baudrate: int, src_clock_hz: int, osr: int) -> int {
    let ideal = ideal_sbr(baudrate, src_clock_hz, osr);
    if ideal - SBR_WINDOW > SBR_MAX {
        SBR_MAX as int
    } else {
        ideal + SBR_WINDOW
    }
}

/// Whether the pair can be set, is tried by the search and is accurate enough.
pub open spec fn candidate(baudrate: int, src_clock_hz: int, osr: int, sbr: int) -> bool {
    &&& settable(osr, sbr)
    &&& first_sbr(baudrate, src_clock_hz, osr) <= sbr <= last_sbr(baudrate, src_clock_hz, osr)
    &&& deviation(baudrate, src_clock_hz, osr, sbr) <= tolerance(baudrate)
}

/// Whether the first pair is to be preferred to the second: for its smaller
/// deviation, then for its larger oversampling ratio, then for its smaller divider.
pub open spec fn preferred(
    baudrate: int,
    src_clock_hz: int,
    osr1: int,
    sbr1: int,
    osr2: int,
    sbr2: int,
) -> bool {
    let d1 = deviation(baudrate, src_clock_hz, osr1, sbr1);
    let d2 = deviation(baudrate, src_clock_hz, osr2, sbr2);
    d1 < d2 || (d1 == d2 && (osr1 > osr2 || (osr1 == osr2 && sbr1 < sbr2)))
}

/// Whether `(osr, sbr)` is the candidate that is preferred to all others.
pub open spec fn selected(baudrate: int, src_clock_hz: int, osr: int, sbr: int) -> bool {
    &&& candidate(baudrate, src_clock_hz, osr, sbr)
    &&& forall|o: int, s: int| #[trigger]
        candidate(baudrate, src_clock_hz, o, s) && (o != osr || s != sbr) ==> preferred(
            baudrate,
            src_clock_hz,
            osr,
            sbr,
            o,
            s,
        )
}

/// Whether no pair that the search tries is accurate enough.
pub open spec fn unsupported(baudrate: int, src_clock_hz: int) -> bool {
    forall|o: int, s: int| !(#[trigger] candidate(baudrate, src_clock_hz, o, s))
}

/// Whether the arithmetic of the search stays within 32 bits.
pub open spec fn searchable(baudrate: u32) -> bool {
    0 < baudrate && baudrate * OSR_MAX <= u32::MAX
}

/// Whether the search has passed the pair when it is about to try `(osr, sbr)`.
spec fn passed(o: int, s: int, osr: int, sbr: int) -> bool {
    o < osr || (o == osr && s < sbr)
}

/// Whether `best` is what the search has to remember about the pairs before `(osr, sbr)`.
spec fn best_before(
    baudrate: int,
    src_clock_hz: int,
    best: Option<(u32, u32, u32)>,
    osr: int,
    sbr: int,
) -> bool {
    match best {
        None => forall|o: int, s: int| #[trigger]
            candidate(baudrate, src_clock_hz, o, s) ==> !passed(o, s, osr, sbr),
        Some((diff, best_osr, best_sbr)) => {
            &&& candidate(baudrate, src_clock_hz, best_osr as int, best_sbr as int)
            &&& passed(best_osr as int, best_sbr as int, osr, sbr)
            &&& diff == deviation(baudrate, src_clock_hz, best_osr as int, best_sbr as int)
            &&& forall|o: int, s: int| #[trigger]
                candidate(baudrate, src_clock_hz, o, s) && passed(o, s, osr, sbr) && (o != best_osr
                    || s != best_sbr) ==> preferred(
                    baudrate,
                    src_clock_hz,
                    best_osr as int,
                    best_sbr as int,
                    o,
                    s,
                )
        },
    }
}

/// Calculate the best OSR and SBR values for the desired baud rate and
/// source clock frequency.
///
/// The calculation is biased towards lowest possible diff and highest
/// possible OSR value. A larger OSR favors better noise tolerance, so in case
/// of a tie, the tie is broken by largest OSR. What is returned is OSR+1 in
/// terms of the register, so the caller subtracts 1 when writing to it.
pub fn calculate_baudrate(baudrate: u32, src_clock_hz: u32) -> (r: Result<(u8, u16), Error>)
    requires
        searchable(baudrate),
    ensures
        match r {
            Ok((osr, sbr)) => selected(
                baudrate as int,
                src_clock_hz as int,
                osr as int,
                sbr as int,
            ),
            Err(e) => e == Error::UnsupportedBaudrate && unsupported(
                baudrate as int,
                src_clock_hz as int,
            ),
        },
{
    let ghost b = baudrate as int;
    let ghost f = src_clock_hz as int;
    let limit: u32 = (baudrate / 100) * 3;
    let mut best: Option<(u32, u32, u32)> = None;
    let mut osr: u32 = OSR_MIN;

    while osr <= OSR_MAX
        invariant
            searchable(baudrate),
            b == baudrate,
            f == src_clock_hz,
            limit == tolerance(b),
            OSR_MIN <= osr <= OSR_MAX + 1,
            best_before(b, f, best, osr as int, first_sbr(b, f, osr as int)),
        decreases OSR_MAX + 1 - osr,
    {
        assert(4 <= baudrate * osr <= u32::MAX) by (nonlinear_arith)
            requires
                0 < baudrate,
                baudrate * 32 <= u32::MAX,
                4 <= osr <= 32,
        ;
        let quotient: u32 = src_clock_hz / (baudrate * osr);
        assert(quotient <= 0x3fff_ffff) by {
            vstd::arithmetic::div_mod::lemma_div_is_ordered_by_denominator(
                src_clock_hz as int,
                4,
                baudrate * osr,
            );
        }
        let ideal: i32 = quotient as i32;

        // Search through a small window around the ideal SBR to find the best match. If
        // the window lies beyond the largest SBR, that one is the best match.
        let beyond: bool = ideal - SBR_WINDOW > SBR_MAX;
        let first: i32 = if beyond {
            SBR_MAX
        } else {
            ideal - SBR_WINDOW
        };
        let last: i32 = if beyond {
            SBR_MAX
        } else {
            ideal + SBR_WINDOW
        };
        let mut next: i32 = first;

        while next <= last
            invariant
                searchable(baudrate),
                b == baudrate,
                f == src_clock_hz,
                limit == tolerance(b),
                OSR_MIN <= osr <= OSR_MAX,
                first == first_sbr(b, f, osr as int),
                last == last_sbr(b, f, osr as int),
                first <= next <= last + 1,
                last < i32::MAX,
                best_before(b, f, best, osr as int, next as int),
            decreases last + 1 - next,
        {
            if 1 <= next && next <= SBR_MAX {
                let sbr: u32 = next as u32;
                assert(4 <= osr * sbr <= 32 * 0x1fff) by (nonlinear_arith)
                    requires
                        4 <= osr <= 32,
                        1 <= sbr <= 0x1fff,
                ;
                let calculated: u32 = src_clock_hz / (osr * sbr);
                let diff: u32 = if calculated >= baudrate {
                    calculated - baudrate
                } else {
                    baudrate - calculated
                };
                if diff <= limit {
                    let better: bool = match best {
                        None => true,
                        Some((best_diff, best_osr, _)) => diff < best_diff || (diff == best_diff
                            && osr > best_osr),
                    };
                    if better {
                        best = Some((diff, osr, sbr));
                    }
                }
            }
            next = next + 1;
        }
        osr = osr + 1;
    }
    match best {
        None => Err(Error::UnsupportedBaudrate),
        Some((_, best_osr, best_sbr)) => Ok((best_osr as u8, best_sbr as u16)),
    }
}

/// With any oversampling ratio, some divider that the search tries is as accurate as any
/// divider there is.
proof fn lemma_optimum_is_tried(
    baudrate: int,
    src_clock_hz: int,
    osr: int,
    sbr: int,
) -> (found: int)
    requires
        0 < baudrate,
        0 <= src_clock_hz,
        settable(osr, sbr),
    ensures
        settable(osr, found),
        first_sbr(baudrate, src_clock_hz, osr) <= found <= last_sbr(baudrate, src_clock_hz, osr),
        deviation(baudrate, src_clock_hz, osr, found) <= deviation(
            baudrate,
            src_clock_hz,
            osr,
            sbr,
        ),
{
    let ideal = ideal_sbr(baudrate, src_clock_hz, osr);
    let step = baudrate * osr;
    assert(step > 0) by (nonlinear_arith)
        requires
            baudrate > 0,
            osr > 0,
            step == baudrate * osr,
    ;
    vstd::arithmetic::div_mod::lemma_fundamental_div_mod(src_clock_hz, step);
    vstd::arithmetic::div_mod::lemma_mod_bound(src_clock_hz, step);
    vstd::arithmetic::div_mod::lemma_div_pos_is_pos(src_clock_hz, step);
    assert(step * (ideal + 1) == step * ideal + step) by (nonlinear_arith);
    if ideal - SBR_WINDOW <= sbr <= ideal + SBR_WINDOW {
        sbr
    } else if sbr < ideal {
        let found = if ideal <= SBR_MAX {
            ideal
        } else {
            SBR_MAX as int
        };
        assert(0 < osr * sbr <= osr * found && baudrate * (osr * found) <= src_clock_hz)
            by (nonlinear_arith)
            requires
                0 < baudrate,
                0 < osr,
                1 <= sbr <= found <= ideal,
                step == baudrate * osr,
                step * ideal <= src_clock_hz,
        ;
        vstd::arithmetic::div_mod::lemma_div_is_ordered_by_denominator(
            src_clock_hz,
            osr * sbr,
            osr * found,
        );
        vstd::arithmetic::div_mod::lemma_div_is_ordered(
            baudrate * (osr * found),
            src_clock_hz,
            osr * found,
        );
        vstd::arithmetic::div_mod::lemma_div_by_multiple(baudrate, osr * found);
        found
    } else {
        let found = ideal + 1;
        assert(0 < osr * found <= osr * sbr && src_clock_hz < (osr * found) * baudrate)
            by (nonlinear_arith)
            requires
                0 < baudrate,
                0 < osr,
                1 <= found <= sbr,
                step == baudrate * osr,
                src_clock_hz < step * found,
        ;
        vstd::arithmetic::div_mod::lemma_div_is_ordered_by_denominator(
            src_clock_hz,
            osr * found,
            osr * sbr,
        );
        vstd::arithmetic::div_mod::lemma_multiply_divide_lt(
            src_clock_hz,
            osr * found,
            baudrate,
        );
        found
    }
}

/// The pair that is selected is the best of all pairs that the hardware can be set
/// to, not only of those that the search tries: no pair deviates less, and of the pairs
/// that deviate as little none has a larger oversampling ratio.
pub proof fn law_selected_pair_is_best(
    baudrate: int,
    src_clock_hz: int,
    osr: int,
    sbr: int,
    other_osr: int,
    other_sbr: int,
)
    requires
        0 < baudrate,
        0 <= src_clock_hz,
        selected(baudrate, src_clock_hz, osr, sbr),
        settable(other_osr, other_sbr),
    ensures
        deviation(baudrate, src_clock_hz, osr, sbr) <= deviation(
            baudrate,
            src_clock_hz,
            other_osr,
            other_sbr,
        ),
        deviation(baudrate, src_clock_hz, osr, sbr) == deviation(
            baudrate,
            src_clock_hz,
            other_osr,
            other_sbr,
        ) ==> other_osr <= osr,
{
    if deviation(baudrate, src_clock_hz, other_osr, other_sbr) <= tolerance(baudrate) {
        let found = lemma_optimum_is_tried(baudrate, src_clock_hz, other_osr, other_sbr);
        assert(candidate(baudrate, src_clock_hz, other_osr, found));
    }
}

/// A baud rate is refused only where the clock cannot support it: no pair that the
/// hardware can be set to comes within the tolerance.
pub proof fn law_refusal_is_justified(
    baudrate: int,
    src_clock_hz: int,
    other_osr: int,
    other_sbr: int,
)
    requires
        0 < baudrate,
        0 <= src_clock_hz,
        unsupported(baudrate, src_clock_hz),
        settable(other_osr, other_sbr),
    ensures
        deviation(baudrate, src_clock_hz, other_osr, other_sbr) > tolerance(baudrate),
{
    if deviation(baudrate, src_clock_hz, other_osr, other_sbr) <= tolerance(baudrate) {
        let found = lemma_optimum_is_tried(baudrate, src_clock_hz, other_osr, other_sbr);
        assert(candidate(baudrate, src_clock_hz, other_osr, found));
    }
}

/// A baud rate that some pair divides the source clock down to without remainder is met
/// without deviation.
pub proof fn law_exact_rate_is_met(baudrate: int, src_clock_hz: int, osr: int, sbr: int)
    requires
        0 < baudrate,
        settable(osr, sbr),
        src_clock_hz == baudrate * osr * sbr,
    ensures
        !unsupported(baudrate, src_clock_hz),
        forall|o: int, s: int| #[trigger]
            selected(baudrate, src_clock_hz, o, s) ==> deviation(baudrate, src_clock_hz, o, s) == 0,
{
    assert(baudrate * osr > 0 && osr * sbr > 0 && src_clock_hz == sbr * (baudrate * osr)
        && src_clock_hz == baudrate * (osr * sbr)) by (nonlinear_arith)
        requires
            0 < baudrate,
            0 < osr,
            0 < sbr,
            src_clock_hz == baudrate * osr * sbr,
    ;
    vstd::arithmetic::div_mod::lemma_div_by_multiple(sbr, baudrate * osr);
    vstd::arithmetic::div_mod::lemma_div_by_multiple(baudrate, osr * sbr);
    assert(candidate(baudrate, src_clock_hz, osr, sbr));
}

/// At most one pair is selected, and where one is, the rate is not unsupported.
pub proof fn law_selection_is_unique(
    baudrate: int,
    src_clock_hz: int,
    osr1: int,
    sbr1: int,
    osr2: int,
    sbr2: int,
)
    requires
        selected(baudrate, src_clock_hz, osr1, sbr1),
        selected(baudrate, src_clock_hz, osr2, sbr2),
    ensures
        osr1 == osr2,
        sbr1 == sbr2,
        !unsupported(baudrate, src_clock_hz),
{
}

/// A baud rate is refused if and only if no oversampling ratio from 4 to 32 and no divider
/// of 13 bits other than zero bring the clock within three percent of it; what is not
/// refused gets such a ratio and divider. The percentage is taken of whole hundreds. Every
/// baud rate that does not overflow 32 bits when it is multiplied by 32 can be asked for.
pub proof fn law_rate_is_refused_exactly_if_out_of_reach(
    baudrate: u32,
    src_clock_hz: u32,
    r: Result<(u8, u16), Error>,
    osr: int,
    sbr: int,
)
    requires
        0 < baudrate,
        baudrate * 32 <= 0xffff_ffff,
        call_ensures(calculate_baudrate, (baudrate, src_clock_hz), r),
        4 <= osr <= 32,
        1 <= sbr <= 0x1fff,
    ensures
        call_requires(calculate_baudrate, (baudrate, src_clock_hz)),
        r matches Err(e) ==> e == Error::UnsupportedBaudrate && abs(
            src_clock_hz as int / (osr * sbr) - baudrate,
        ) > 3 * (baudrate as int / 100),
        r matches Ok((o, s)) ==> 4 <= o <= 32 && 1 <= s <= 0x1fff && abs(
            src_clock_hz as int / (o * s) - baudrate,
        ) <= 3 * (baudrate as int / 100),
{
    if r is Err {
        law_refusal_is_justified(baudrate as int, src_clock_hz as int, osr, sbr);
    }
}

/// No ratio and divider come closer to the baud rate than those that are given, and none
/// that come as close have a larger ratio. With the ratio that is given, the divider is at
/// most two away from the quotient of the clock and the sampling rate, or the largest one
/// where that quotient is too large, and the smallest of those that come as close.
pub proof fn law_given_rate_is_closest(
    baudrate: u32,
    src_clock_hz: u32,
    r: Result<(u8, u16), Error>,
    osr: int,
    sbr: int,
)
    requires
        0 < baudrate,
        baudrate * 32 <= 0xffff_ffff,
        call_ensures(calculate_baudrate, (baudrate, src_clock_hz), r),
        4 <= osr <= 32,
        1 <= sbr <= 0x1fff,
    ensures
        r matches Ok((o, s)) ==> ({
            let given = abs(src_clock_hz as int / (o * s) - baudrate);
            let other = abs(src_clock_hz as int / (osr * sbr) - baudrate);
            let quotient = src_clock_hz as int / (baudrate * o);
            &&& given <= other
            &&& given == other ==> osr <= o
            &&& given == other && osr == o && abs(sbr - quotient) <= 2 ==> s <= sbr
            &&& abs(s - quotient) <= 2 || (quotient > 0x2001 && s == 0x1fff)
        }),
{
    if let Ok((o, s)) = r {
        let b = baudrate as int;
        let f = src_clock_hz as int;
        law_selected_pair_is_best(b, f, o as int, s as int, osr, sbr);
        if deviation(b, f, osr, sbr) == deviation(b, f, o as int, s as int) && osr == o && abs(
            sbr - ideal_sbr(b, f, osr),
        ) <= 2 {
            assert(candidate(b, f, osr, sbr));
        }
    }
}

} // verus!
