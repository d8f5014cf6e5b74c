//! The driver and its two halves.

use vstd::prelude::*;

use crate::baud::searchable;
use crate::config::{Config, LpuartConfig, LpuartInstance};
use crate::effects::{
    after_steps, law_disabled_peripheral_is_silent, lemma_after_one, lemma_after_prefix, Registers,
};
use crate::error::{ClockError, Error};
use crate::pins::{RxPins, TxPins};
use crate::refmask::{TxRxRef, TxRxRefMask};
use crate::registers::{Ctrl, CtrlEdit};
use crate::sealed::Sealed;
use crate::sequence::{
    brings_up, disable_peripheral, disable_peripheral_steps, initialization_sequence, Step,
};

verus! {

/// Trait for LPUART peripheral instances
pub trait Instance: 'static + Send {
    /// The interrupt of the instance.
    type Interrupt;

    /// The instance, as the clock driver knows it.
    const CLOCK_INSTANCE: LpuartInstance;
}

/// Driver mode.
pub trait Mode: Sealed {

}

/// Lpuart driver.
///
/// `T` is the transmitter and `R` the receiver: [LpuartTx] and [LpuartRx], or what holds
/// them and performs their release when it is dropped.
pub struct Lpuart<T, R> {
    tx: T,
    rx: R,
}

/// Lpuart TX driver.
///
/// `P` is a pin, `M` the mode of the driver and `W` what keeps the device from deep sleep.
pub struct LpuartTx<P, M: Mode, W> {
    instance: LpuartInstance,
    mode: M,
    tx_pins: TxPins<P>,
    wg: Option<W>,
}

/// Lpuart Rx driver.
///
/// `P` is a pin, `M` the mode of the driver and `W` what keeps the device from deep sleep.
pub struct LpuartRx<P, M: Mode, W> {
    instance: LpuartInstance,
    mode: M,
    rx_pins: RxPins<P>,
    wg: Option<W>,
}

/// What the clock driver hands out for a clocked peripheral.
pub struct ClockParts<W> {
    /// Frequency of the functional clock in hertz
    pub freq: u32,
    /// Keeps the device from a sleep that would stop the clock
    pub wake_guard: Option<W>,
}

/// An initialization that waits for the clocks to be enabled.
pub struct PendingInit {
    enable_tx: bool,
    enable_rx: bool,
    enable_tx_cts: bool,
    enable_rx_rts: bool,
    config: Config,
}

impl PendingInit {
    pub closed spec fn enable_tx(self) -> bool {
        self.enable_tx
    }

    pub closed spec fn enable_rx(self) -> bool {
        self.enable_rx
    }

    pub closed spec fn enable_tx_cts(self) -> bool {
        self.enable_tx_cts
    }

    pub closed spec fn enable_rx_rts(self) -> bool {
        self.enable_rx_rts
    }

    pub closed spec fn config(self) -> Config {
        self.config
    }

    /// Go on with what the clock driver answered: the accesses to perform, and what
    /// initialization returns after them.
    pub fn resume<W>(self, clocks: Result<ClockParts<W>, ClockError>) -> (r: (
        Vec<Step>,
        Result<Option<W>, Error>,
    ))
        requires
            clocks is Ok ==> searchable(self.config().baudrate_bps),
        ensures
            match clocks {
                Err(e) => r.0@ == Seq::<Step>::empty() && r.1 == Err::<Option<W>, Error>(
                    Error::ClockSetup(e),
                ),
                Ok(parts) => {
                    &&& brings_up(
                        self.enable_tx(),
                        self.enable_rx(),
                        self.enable_tx_cts(),
                        self.enable_rx_rts(),
                        self.config(),
                        parts.freq,
                        r.0@,
                        (match r.1 {
                            Ok(_) => Ok(()),
                            Err(e) => Err(e),
                        }),
                    )
                    &&& r.1 matches Ok(wake_guard) ==> wake_guard == parts.wake_guard
                },
            },
    {
        match clocks {
            Err(e) => (Vec::new(), Err(Error::ClockSetup(e))),
            Ok(parts) => {
                let (steps, result) = initialization_sequence(
                    self.enable_tx,
                    self.enable_rx,
                    self.enable_tx_cts,
                    self.enable_rx_rts,
                    &self.config,
                    parts.freq,
                );
                match result {
                    Ok(_) => (steps, Ok(parts.wake_guard)),
                    Err(e) => (steps, Err(e)),
                }
            },
        }
    }
}

impl<T, R> Lpuart<T, R> {
    /// The transmitter.
    pub closed spec fn tx(self) -> T {
        self.tx
    }

    /// The receiver.
    pub closed spec fn rx(self) -> R {
        self.rx
    }

    /// The driver with these two halves.
    pub fn new(tx: T, rx: R) -> (r: Self)
        ensures
            r.tx() == tx,
            r.rx() == rx,
    {
        Lpuart { tx, rx }
    }

    /// Start an initialization: the accesses to perform, what to ask the clock driver for
    /// after them, and what to go on with.
    ///
    /// A part that still counts as active was leaked using [core::mem::forget]; the
    /// peripheral is then cleaned up first.
    pub fn init<I: Instance>(
        refmask: &mut TxRxRefMask,
        enable_tx: bool,
        enable_rx: bool,
        enable_tx_cts: bool,
        enable_rx_rts: bool,
        config: Config,
    ) -> (r: (Vec<Step>, LpuartConfig, PendingInit))
        ensures
            final(refmask)@ == Set::<TxRxRef>::empty(),
            r.0@ == cleanup_steps(old(refmask)@ != Set::<TxRxRef>::empty()),
            r.1 == (LpuartConfig {
                power: config.power,
                source: config.source,
                div: config.div,
                instance: I::CLOCK_INSTANCE,
            }),
            r.2.enable_tx() == enable_tx,
            r.2.enable_rx() == enable_rx,
            r.2.enable_tx_cts() == enable_tx_cts,
            r.2.enable_rx_rts() == enable_rx_rts,
            r.2.config() == config,
    {
        // Check if the peripheral was leaked, and clean up the peripheral.
        let steps = if refmask.fetch_any_alive_reset() {
            disable_peripheral()
        } else {
            Vec::new()
        };

        // Enable clocks
        let conf = LpuartConfig {
            power: config.power,
            source: config.source,
            div: config.div,
            instance: I::CLOCK_INSTANCE,
        };
        (
            steps,
            conf,
            PendingInit { enable_tx, enable_rx, enable_tx_cts, enable_rx_rts, config },
        )
    }

    /// Split the Lpuart into a transmitter and receiver
    pub fn split(self) -> (r: (T, R))
        ensures
            r.0 == self.tx(),
            r.1 == self.rx(),
    {
        (self.tx, self.rx)
    }

    /// Split the Lpuart into a transmitter and receiver by mutable reference
    pub fn split_ref(&mut self) -> (r: (&mut T, &mut R))
        ensures
            *r.0 == old(self).tx(),
            *r.1 == old(self).rx(),
            final(self).tx() == *final(r.0),
            final(self).rx() == *final(r.1),
    {
        (&mut self.tx, &mut self.rx)
    }
}

/// The accesses that clean the peripheral up if that is needed.
pub open spec fn cleanup_steps(needed: bool) -> Seq<Step> {
    if needed {
        disable_peripheral_steps()
    } else {
        Seq::empty()
    }
}

/// The accesses with which a transmitter goes: everything queued is sent, no transmit
/// interrupt can use the buffer any more, and then the buffer is given up.
pub open spec fn tx_release_steps() -> Seq<Step> {
    seq![
        Step::WaitForTxComplete,
        Step::ModifyCtrlUninterrupted((CtrlEdit { tie: Some(false), ..CtrlEdit::nothing() })),
        Step::DeinitTxBuffer,
    ]
}

/// The accesses with which a receiver goes: no receive interrupt can use the buffer any
/// more, and then the buffer is given up.
pub open spec fn rx_release_steps() -> Seq<Step> {
    seq![
        Step::ModifyCtrlUninterrupted(
            (CtrlEdit {
                rie: Some(false),
                orie: Some(false),
                peie: Some(false),
                feie: Some(false),
                neie: Some(false),
                ..CtrlEdit::nothing()
            }),
        ),
        Step::DeinitRxBuffer,
    ]
}

/// The accesses with which a half goes.
pub open spec fn release_steps(part: TxRxRef) -> Seq<Step> {
    match part {
        TxRxRef::Tx => tx_release_steps(),
        TxRxRef::Rx => rx_release_steps(),
    }
}

/// A half that was given up but still counts as active, until the accesses of its release
/// are performed and [note_released] takes it.
///
/// `M` is the mode of the driver, `Q` the pins of the half and `W` what keeps the device
/// from deep sleep.
pub struct Released<M, Q, W> {
    part: TxRxRef,
    mode: M,
    pins: Q,
    wg: Option<W>,
}

impl<M, Q, W> Released<M, Q, W> {
    /// Which half it is.
    pub closed spec fn part(self) -> TxRxRef {
        self.part
    }

    /// The mode of the driver.
    pub closed spec fn mode(self) -> M {
        self.mode
    }

    /// The pins.
    pub closed spec fn pins(self) -> Q {
        self.pins
    }

    /// What keeps the device from deep sleep.
    pub closed spec fn wg(self) -> Option<W> {
        self.wg
    }
}

/// Note that a half is gone, after the accesses of its release: the accesses that remain,
/// as the last half takes the peripheral along, and what is given up after them, the mode,
/// the pins and the guard, in this order.
pub fn note_released<M, Q, W>(refmask: &mut TxRxRefMask, released: Released<M, Q, W>) -> (r: (
    Vec<Step>,
    M,
    Q,
    Option<W>,
))
    ensures
        final(refmask)@ == old(refmask)@.remove(released.part()),
        r.0@ == cleanup_steps(old(refmask)@.remove(released.part()) == Set::<TxRxRef>::empty()),
        r.1 == released.mode(),
        r.2 == released.pins(),
        r.3 == released.wg(),
{
    let steps = if refmask.set_inactive_fetch_last(released.part) {
        disable_peripheral()
    } else {
        Vec::new()
    };
    (steps, released.mode, released.pins, released.wg)
}

impl<P, M: Mode, W> LpuartTx<P, M, W> {
    pub closed spec fn spec_instance(&self) -> LpuartInstance {
        self.instance
    }

    /// The instance.
    #[verifier::when_used_as_spec(spec_instance)]
    pub fn instance(&self) -> (r: LpuartInstance)
        ensures
            r == self.instance(),
    {
        self.instance
    }

    /// The mode of the driver.
    pub closed spec fn mode(self) -> M {
        self.mode
    }

    /// The pins.
    pub closed spec fn tx_pins(self) -> TxPins<P> {
        self.tx_pins
    }

    /// What keeps the device from deep sleep.
    pub closed spec fn wg(self) -> Option<W> {
        self.wg
    }

    /// The transmitter of an instance, which is active from now on.
    pub fn new_inner<T: Instance>(
        refmask: &mut TxRxRefMask,
        tx_pin: P,
        cts_pin: Option<P>,
        mode: M,
        wg: Option<W>,
    ) -> (r: Self)
        ensures
            final(refmask)@ == old(refmask)@.insert(TxRxRef::Tx),
            r.instance() == T::CLOCK_INSTANCE,
            r.mode() == mode,
            r.tx_pins().tx_pin() == tx_pin,
            r.tx_pins().cts_pin() == cts_pin,
            r.wg() == wg,
    {
        refmask.set_active(TxRxRef::Tx);

        LpuartTx {
            instance: T::CLOCK_INSTANCE,
            mode,
            tx_pins: TxPins::new(tx_pin, cts_pin),
            wg,
        }
    }

    /// Give the transmitter up: the accesses to perform, and what to note after them with
    /// [note_released].
    pub fn release(self) -> (r: (Vec<Step>, Released<M, TxPins<P>, W>))
        ensures
            r.0@ == release_steps(r.1.part()),
            r.1.part() == TxRxRef::Tx,
            r.1.mode() == self.mode(),
            r.1.pins() == self.tx_pins(),
            r.1.wg() == self.wg(),
    {
        let steps = vec![
            // Wait for TX operations to complete. No more items can be loaded
            // into the fifo, as this is the only access to the transmitter.
            Step::WaitForTxComplete,
            // Disable transmit interrupts to prevent usage of the buffer space
            Step::ModifyCtrlUninterrupted(CtrlEdit { tie: Some(false), ..CtrlEdit::none() }),
            Step::DeinitTxBuffer,
        ];
        (
            steps,
            Released { part: TxRxRef::Tx, mode: self.mode, pins: self.tx_pins, wg: self.wg },
        )
    }
}

impl<P, M: Mode, W> LpuartRx<P, M, W> {
    pub closed spec fn spec_instance(&self) -> LpuartInstance {
        self.instance
    }

    /// The instance.
    #[verifier::when_used_as_spec(spec_instance)]
    pub fn instance(&self) -> (r: LpuartInstance)
        ensures
            r == self.instance(),
    {
        self.instance
    }

    /// The mode of the driver.
    pub closed spec fn mode(self) -> M {
        self.mode
    }

    /// The pins.
    pub closed spec fn rx_pins(self) -> RxPins<P> {
        self.rx_pins
    }

    /// What keeps the device from deep sleep.
    pub closed spec fn wg(self) -> Option<W> {
        self.wg
    }

    /// The receiver of an instance, which is active from now on.
    pub fn new_inner<T: Instance>(
        refmask: &mut TxRxRefMask,
        rx_pin: P,
        rts_pin: Option<P>,
        mode: M,
        wg: Option<W>,
    ) -> (r: Self)
        ensures
            final(refmask)@ == old(refmask)@.insert(TxRxRef::Rx),
            r.instance() == T::CLOCK_INSTANCE,
            r.mode() == mode,
            r.rx_pins().rx_pin() == rx_pin,
            r.rx_pins().rts_pin() == rts_pin,
            r.wg() == wg,
    {
        refmask.set_active(TxRxRef::Rx);

        LpuartRx {
            instance: T::CLOCK_INSTANCE,
            mode,
            rx_pins: RxPins::new(rx_pin, rts_pin),
            wg,
        }
    }

    /// Give the receiver up: the accesses to perform, and what to note after them with
    /// [note_released].
    pub fn release(self) -> (r: (Vec<Step>, Released<M, RxPins<P>, W>))
        ensures
            r.0@ == release_steps(r.1.part()),
            r.1.part() == TxRxRef::Rx,
            r.1.mode() == self.mode(),
            r.1.pins() == self.rx_pins(),
            r.1.wg() == self.wg(),
    {
        let steps = vec![
            // Disable receive interrupts to prevent future usage of the buffer space
            Step::ModifyCtrlUninterrupted(
                CtrlEdit {
                    rie: Some(false),  // RX interrupt
                    orie: Some(false),  // Overrun interrupt
                    peie: Some(false),  // Parity error interrupt
                    feie: Some(false),  // Framing error interrupt
                    neie: Some(false),  // Noise error interrupt
                    ..CtrlEdit::none()
                },
            ),
            Step::DeinitRxBuffer,
        ];
        (
            steps,
            Released { part: TxRxRef::Rx, mode: self.mode, pins: self.rx_pins, wg: self.wg },
        )
    }
}

/// The half that goes is the last one exactly if the other one is not active, so the
/// peripheral is disabled with the last half and not before, whichever half goes first.
pub proof fn law_peripheral_goes_with_the_last_half(active: Set<TxRxRef>, gone: TxRxRef)
    ensures
        cleanup_steps(active.remove(gone) == Set::<TxRxRef>::empty()) == disable_peripheral_steps()
            <==> (forall|other: TxRxRef| other != gone ==> !active.contains(other)),
{
    let rest = active.remove(gone);
    if forall|other: TxRxRef| other != gone ==> !active.contains(other) {
        assert(rest =~= Set::<TxRxRef>::empty());
    } else {
        let other = choose|other: TxRxRef| other != gone && active.contains(other);
        assert(rest.contains(other));
    }
    assert(disable_peripheral_steps().len() == 4);
}

/// Whether the access gives up a buffer.
pub open spec fn gives_buffer_up(step: Step) -> bool {
    step == Step::DeinitTxBuffer || step == Step::DeinitRxBuffer
}

/// When a half goes, its buffer is given up before the peripheral is disabled: in all
/// that a release comes to, nothing of the disabling precedes it.
pub proof fn law_buffer_is_given_up_before_the_peripheral_goes(
    part: TxRxRef,
    last: bool,
    buffer: int,
    disabling: int,
)
    requires
        0 <= buffer < (release_steps(part) + cleanup_steps(last)).len(),
        0 <= disabling < (release_steps(part) + cleanup_steps(last)).len(),
        gives_buffer_up((release_steps(part) + cleanup_steps(last))[buffer]),
        disable_peripheral_steps().contains(
            (release_steps(part) + cleanup_steps(last))[disabling],
        ),
    ensures
        buffer < disabling,
{
    let all = release_steps(part) + cleanup_steps(last);
    let i = choose|i: int|
        0 <= i < disable_peripheral_steps().len() && disable_peripheral_steps()[i]
            == all[disabling];
    assert(i == 0 || i == 1 || i == 2 || i == 3);
}

/// If any half was leaked, initialization starts by silencing the peripheral.
pub proof fn law_leaked_peripheral_is_silenced(active: Set<TxRxRef>, part: TxRxRef, regs: Registers)
    requires
        active.contains(part),
    ensures
        after_steps(
            regs,
            cleanup_steps(active != Set::<TxRxRef>::empty()),
        ).ctrl.transceiver_off(),
        after_steps(regs, cleanup_steps(active != Set::<TxRxRef>::empty())).ctrl.interrupts_off(),
        after_steps(regs, cleanup_steps(active != Set::<TxRxRef>::empty())).stat.no_flag_latched(),
{
    law_disabled_peripheral_is_silent(regs);
}

/// A transmitter that goes changes nothing in the registers but that the transmit
/// interrupt is off, and it is off before the transmit buffer is given up.
pub proof fn law_releasing_tx_leaves_rx_alone(regs: Registers)
    ensures
        after_steps(regs, tx_release_steps()) == (Registers {
            ctrl: Ctrl { tie: false, ..regs.ctrl },
            ..regs
        }),
        forall|i: int|
            0 <= i < tx_release_steps().len() && (#[trigger] tx_release_steps()[i])
                == Step::DeinitTxBuffer ==> !after_steps(
                regs,
                tx_release_steps().take(i),
            ).ctrl.tie,
{
    let all = tx_release_steps();
    assert(all.take(1) =~= seq![all[0]]);
    lemma_after_one(regs, all[0]);
    lemma_after_prefix(regs, all, 2);
    lemma_after_prefix(regs, all, 3);
    assert(all.take(3) =~= all);
}

/// A receiver that goes changes nothing in the registers but that the receive interrupts
/// are off, and they are off before the receive buffer is given up.
pub proof fn law_releasing_rx_leaves_tx_alone(regs: Registers)
    ensures
        after_steps(regs, rx_release_steps()) == (Registers {
            ctrl: Ctrl {
                rie: false,
                orie: false,
                peie: false,
                feie: false,
                neie: false,
                ..regs.ctrl
            },
            ..regs
        }),
        forall|i: int|
            0 <= i < rx_release_steps().len() && (#[trigger] rx_release_steps()[i])
                == Step::DeinitRxBuffer ==> ({
                let ctrl = after_steps(regs, rx_release_steps().take(i)).ctrl;
                !ctrl.rie && !ctrl.orie && !ctrl.peie && !ctrl.feie && !ctrl.neie
            }),
{
    let all = rx_release_steps();
    assert(all.take(1) =~= seq![all[0]]);
    lemma_after_one(regs, all[0]);
    lemma_after_prefix(regs, all, 2);
    assert(all.take(2) =~= all);
}

/// Without one part, nothing is active exactly if the other part is not.
proof fn lemma_last_half(part: TxRxRef, other: TxRxRef)
    requires
        part != other,
    ensures
        forall|active: Set<TxRxRef>|
            #[trigger] active.remove(part) == Set::<TxRxRef>::empty() <==> !active.contains(other),
        forall|active: Set<TxRxRef>|
            active != Set::<TxRxRef>::empty() <==> #[trigger] active.contains(part)
                || active.contains(other),
{
    assert forall|active: Set<TxRxRef>| #[trigger]
        active.remove(part) == Set::<TxRxRef>::empty() <==> !active.contains(other) by {
        if active.contains(other) {
            assert(active.remove(part).contains(other));
        } else {
            assert(active.remove(part) =~= Set::<TxRxRef>::empty()) by {
                assert forall|any: TxRxRef| !active.remove(part).contains(any) by {
                    assert(any == part || any == other);
                }
            }
        }
    }
    assert forall|active: Set<TxRxRef>|
        active != Set::<TxRxRef>::empty() <==> #[trigger] active.contains(part) || active.contains(
            other,
        ) by {
        if !active.contains(part) && !active.contains(other) {
            assert(active =~= Set::<TxRxRef>::empty()) by {
                assert forall|any: TxRxRef| !active.contains(any) by {
                    assert(any == part || any == other);
                }
            }
        }
    }
}

/// A transmitter that goes first waits until everything is sent, then switches its own
/// interrupt off and no other field of `CTRL`, and gives its buffer up last.
pub proof fn law_tx_is_released_when_all_is_sent<P, M: Mode, W>(
    tx: LpuartTx<P, M, W>,
    r: (Vec<Step>, Released<M, TxPins<P>, W>),
)
    requires
        call_ensures(LpuartTx::<P, M, W>::release, (tx,), r),
    ensures
        r.0@.len() == 3,
        r.0@[0] == Step::WaitForTxComplete,
        r.0@[1] matches Step::ModifyCtrlUninterrupted(edit) && {
            &&& edit.tie == Some(false)
            &&& edit.te is None
            &&& edit.re is None
            &&& edit.pe is None
            &&& edit.pt is None
            &&& edit.dozeen is None
            &&& edit.m is None
            &&& edit.idlecfg is None
            &&& edit.ilt is None
            &&& edit.swap is None
            &&& edit.rie is None
            &&& edit.orie is None
            &&& edit.peie is None
            &&& edit.feie is None
            &&& edit.neie is None
        },
        r.0@[2] == Step::DeinitTxBuffer,
{
}

/// A receiver that goes switches its own interrupts off and no other field of `CTRL`, and
/// then gives its buffer up.
pub proof fn law_rx_is_released_when_it_is_silent<P, M: Mode, W>(
    rx: LpuartRx<P, M, W>,
    r: (Vec<Step>, Released<M, RxPins<P>, W>),
)
    requires
        call_ensures(LpuartRx::<P, M, W>::release, (rx,), r),
    ensures
        r.0@.len() == 2,
        r.0@[0] matches Step::ModifyCtrlUninterrupted(edit) && {
            &&& edit.rie == Some(false)
            &&& edit.orie == Some(false)
            &&& edit.peie == Some(false)
            &&& edit.feie == Some(false)
            &&& edit.neie == Some(false)
            &&& edit.te is None
            &&& edit.re is None
            &&& edit.pe is None
            &&& edit.pt is None
            &&& edit.dozeen is None
            &&& edit.m is None
            &&& edit.idlecfg is None
            &&& edit.ilt is None
            &&& edit.swap is None
            &&& edit.tie is None
        },
        r.0@[1] == Step::DeinitRxBuffer,
{
}

/// A transmitter is given up with all that it was made with. Whoever makes it, releases it and
/// notes it as gone gets the same mode, pins and guard back. It is active from the making
/// to the noting, the other half stays as it is, and the peripheral is disabled with it
/// exactly if the other half is not active by then.
pub proof fn law_tx_gives_back_what_it_was_made_with<I: Instance, P, M: Mode, W>(
    tx_pin: P,
    cts_pin: Option<P>,
    mode: M,
    wg: Option<W>,
    tx: LpuartTx<P, M, W>,
    instance: LpuartInstance,
    given_up: (Vec<Step>, Released<M, TxPins<P>, W>),
    back: (Vec<Step>, M, TxPins<P>, Option<W>),
    pins: (P, Option<P>),
    disabled: Vec<Step>,
)
    requires
        call_ensures(LpuartTx::<P, M, W>::instance, (&tx,), instance),
        call_ensures(LpuartTx::<P, M, W>::release, (tx,), given_up),
        call_ensures(TxPins::<P>::take, (back.2,), pins),
        call_ensures(disable_peripheral, (), disabled),
    ensures
        forall|mask: &mut TxRxRefMask| #[trigger]
            call_ensures(
                LpuartTx::<P, M, W>::new_inner::<I>,
                (mask, tx_pin, cts_pin, mode, wg),
                tx,
            ) ==> {
                &&& final(mask)@.contains(TxRxRef::Tx)
                &&& final(mask)@.contains(TxRxRef::Rx) == mask@.contains(TxRxRef::Rx)
                &&& instance == I::CLOCK_INSTANCE
                &&& tx.mode() == mode
                &&& tx.wg() == wg
                &&& tx.tx_pins().tx_pin() == tx_pin
                &&& tx.tx_pins().cts_pin() == cts_pin
            },
        forall|mask: &mut TxRxRefMask| #[trigger]
            call_ensures(note_released::<M, TxPins<P>, W>, (mask, given_up.1), back) ==> {
                &&& !final(mask)@.contains(TxRxRef::Tx)
                &&& final(mask)@.contains(TxRxRef::Rx) == mask@.contains(TxRxRef::Rx)
                &&& back.0@ == if mask@.contains(TxRxRef::Rx) {
                    Seq::<Step>::empty()
                } else {
                    disabled@
                }
                &&& back.1 == tx.mode()
                &&& pins.0 == tx.tx_pins().tx_pin()
                &&& pins.1 == tx.tx_pins().cts_pin()
                &&& back.3 == tx.wg()
            },
{
    lemma_last_half(TxRxRef::Tx, TxRxRef::Rx);
}

/// A receiver is given up with all that it was made with. Whoever makes it, releases it and
/// notes it as gone gets the same mode, pins and guard back. It is active from the making
/// to the noting, the other half stays as it is, and the peripheral is disabled with it
/// exactly if the other half is not active by then.
pub proof fn law_rx_gives_back_what_it_was_made_with<I: Instance, P, M: Mode, W>(
    rx_pin: P,
    rts_pin: Option<P>,
    mode: M,
    wg: Option<W>,
    rx: LpuartRx<P, M, W>,
    instance: LpuartInstance,
    given_up: (Vec<Step>, Released<M, RxPins<P>, W>),
    back: (Vec<Step>, M, RxPins<P>, Option<W>),
    pins: (P, Option<P>),
    disabled: Vec<Step>,
)
    requires
        call_ensures(LpuartRx::<P, M, W>::instance, (&rx,), instance),
        call_ensures(LpuartRx::<P, M, W>::release, (rx,), given_up),
        call_ensures(RxPins::<P>::take, (back.2,), pins),
        call_ensures(disable_peripheral, (), disabled),
    ensures
        forall|mask: &mut TxRxRefMask| #[trigger]
            call_ensures(
                LpuartRx::<P, M, W>::new_inner::<I>,
                (mask, rx_pin, rts_pin, mode, wg),
                rx,
            ) ==> {
                &&& final(mask)@.contains(TxRxRef::Rx)
                &&& final(mask)@.contains(TxRxRef::Tx) == mask@.contains(TxRxRef::Tx)
                &&& instance == I::CLOCK_INSTANCE
                &&& rx.mode() == mode
                &&& rx.wg() == wg
                &&& rx.rx_pins().rx_pin() == rx_pin
                &&& rx.rx_pins().rts_pin() == rts_pin
            },
        forall|mask: &mut TxRxRefMask| #[trigger]
            call_ensures(note_released::<M, RxPins<P>, W>, (mask, given_up.1), back) ==> {
                &&& !final(mask)@.contains(TxRxRef::Rx)
                &&& final(mask)@.contains(TxRxRef::Tx) == mask@.contains(TxRxRef::Tx)
                &&& back.0@ == if mask@.contains(TxRxRef::Tx) {
                    Seq::<Step>::empty()
                } else {
                    disabled@
                }
                &&& back.1 == rx.mode()
                &&& pins.0 == rx.rx_pins().rx_pin()
                &&& pins.1 == rx.rx_pins().rts_pin()
                &&& back.3 == rx.wg()
            },
{
    lemma_last_half(TxRxRef::Rx, TxRxRef::Tx);
}

/// The two halves of a driver are the two that it was made of, also while they are
/// borrowed, and what is done to a borrowed half is done to the driver's.
pub proof fn law_driver_is_its_two_halves<T, R>(tx: T, rx: R, driver: Lpuart<T, R>, halves: (T, R))
    requires
        call_ensures(Lpuart::<T, R>::new, (tx, rx), driver),
        call_ensures(Lpuart::<T, R>::split, (driver,), halves),
    ensures
        halves.0 == tx,
        halves.1 == rx,
        forall|borrowed: &mut Lpuart<T, R>, refs: (&mut T, &mut R)| #[trigger]
            call_ensures(Lpuart::<T, R>::split_ref, (borrowed,), refs) && *borrowed == driver ==> {
                &&& *refs.0 == tx
                &&& *refs.1 == rx
                &&& final(borrowed).tx() == *final(refs.0)
                &&& final(borrowed).rx() == *final(refs.1)
            },
{
}

/// Initialization first disables a peripheral of which any half was leaked, and no other,
/// and forgets the leaked halves. It asks for the clock that is configured, of its own
/// instance, and then goes on with the arguments that were passed in: it brings the
/// peripheral up at the frequency that the clock has and returns its guard, or it accesses
/// nothing and returns the clock's error.
pub proof fn law_initialization_goes_on_with_its_arguments<I: Instance, T, R, W>(
    enable_tx: bool,
    enable_rx: bool,
    enable_tx_cts: bool,
    enable_rx_rts: bool,
    config: Config,
    begun: (Vec<Step>, LpuartConfig, PendingInit),
    disabled: Vec<Step>,
    clocks: Result<ClockParts<W>, ClockError>,
    r: (Vec<Step>, Result<Option<W>, Error>),
)
    requires
        call_ensures(disable_peripheral, (), disabled),
        call_ensures(PendingInit::resume::<W>, (begun.2, clocks), r),
    ensures
        forall|mask: &mut TxRxRefMask| #[trigger]
            call_ensures(
                Lpuart::<T, R>::init::<I>,
                (mask, enable_tx, enable_rx, enable_tx_cts, enable_rx_rts, config),
                begun,
            ) ==> {
                &&& !final(mask)@.contains(TxRxRef::Tx)
                &&& !final(mask)@.contains(TxRxRef::Rx)
                &&& begun.0@ == if mask@.contains(TxRxRef::Tx) || mask@.contains(TxRxRef::Rx) {
                    disabled@
                } else {
                    Seq::<Step>::empty()
                }
                &&& begun.1.power == config.power
                &&& begun.1.source == config.source
                &&& begun.1.div == config.div
                &&& begun.1.instance == I::CLOCK_INSTANCE
                &&& clocks matches Err(e) ==> r.0@.len() == 0 && r.1 == Err::<Option<W>, Error>(
                    Error::ClockSetup(e),
                )
                &&& clocks is Err || (0 < config.baudrate_bps && config.baudrate_bps * 32
                    <= 0xffff_ffff) ==> call_requires(
                    PendingInit::resume::<W>,
                    (begun.2, clocks),
                )
                &&& clocks matches Ok(parts) ==> {
                    &&& r.1 matches Ok(guard) ==> guard == parts.wake_guard
                    &&& r.1 is Ok ==> brings_up(
                        enable_tx,
                        enable_rx,
                        enable_tx_cts,
                        enable_rx_rts,
                        config,
                        parts.freq,
                        r.0@,
                        Ok(()),
                    )
                    &&& r.1 matches Err(e) ==> brings_up(
                        enable_tx,
                        enable_rx,
                        enable_tx_cts,
                        enable_rx_rts,
                        config,
                        parts.freq,
                        r.0@,
                        Err(e),
                    )
                }
            },
{
    lemma_last_half(TxRxRef::Tx, TxRxRef::Rx);
}

} // verus!
