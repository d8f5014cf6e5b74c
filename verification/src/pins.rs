//! The pins of an LPUART.

use vstd::prelude::*;

use crate::driver::Instance;
use crate::sealed::Sealed;

verus! {

/// Pull resistor of a pin.
#[derive(Debug, Clone, Copy, PartialEq, Eq, Structural)]
pub enum Pull {
    Disabled,
    Up,
    Down,
}

/// Slew rate of a pin.
#[derive(Debug, Clone, Copy, PartialEq, Eq, Structural)]
pub enum SlewRate {
    Fast,
    Slow,
}

/// Drive strength of a pin.
#[derive(Debug, Clone, Copy, PartialEq, Eq, Structural)]
pub enum DriveStrength {
    Normal,
    Double,
}

/// Alternate function of a pin, as the bits of `PCR.MUX`.
#[derive(Debug, Clone, Copy, PartialEq, Eq, Structural)]
pub struct Mux {
    pub alt: u8,
}

/// One setting of a pin.
#[derive(Debug, Clone, Copy, PartialEq, Eq, Structural)]
pub enum PinSetting {
    Pull(Pull),
    SlewRate(SlewRate),
    DriveStrength(DriveStrength),
    Function(Mux),
    InputBuffer(bool),
}

/// The settings of a pin that the LPUART drives, in the order in which they are made.
pub open spec fn output_settings(mux: Mux) -> Seq<PinSetting> {
    seq![
        PinSetting::Pull(Pull::Disabled),
        PinSetting::SlewRate(SlewRate::Fast),
        PinSetting::DriveStrength(DriveStrength::Normal),
        PinSetting::Function(mux),
        PinSetting::InputBuffer(false),
    ]
}

/// The settings of a pin that the LPUART reads, in the order in which they are made.
pub open spec fn input_settings(mux: Mux) -> Seq<PinSetting> {
    seq![
        PinSetting::Pull(Pull::Disabled),
        PinSetting::Function(mux),
        PinSetting::InputBuffer(true),
    ]
}

fn output_pin(mux: Mux) -> (r: Vec<PinSetting>)
    ensures
        r@ == output_settings(mux),
{
    vec![
        PinSetting::Pull(Pull::Disabled),
        PinSetting::SlewRate(SlewRate::Fast),
        PinSetting::DriveStrength(DriveStrength::Normal),
        PinSetting::Function(mux),
        PinSetting::InputBuffer(false),
    ]
}

fn input_pin(mux: Mux) -> (r: Vec<PinSetting>)
    ensures
        r@ == input_settings(mux),
{
    vec![
        PinSetting::Pull(Pull::Disabled),
        PinSetting::Function(mux),
        PinSetting::InputBuffer(true),
    ]
}

/// A pin that can be the transmit pin of an instance.
pub trait TxPin<T: Instance>: Sealed {
    /// The alternate function that connects the pin.
    const MUX: Mux;

    /// The settings that convert the pin to appropriate function for Lpuart Tx usage
    fn as_tx(&self) -> (r: Vec<PinSetting>)
        ensures
            r@ == output_settings(Self::MUX),
    {
        output_pin(Self::MUX)
    }
}

/// A pin that can be the receive pin of an instance.
pub trait RxPin<T: Instance>: Sealed {
    /// The alternate function that connects the pin.
    const MUX: Mux;

    /// The settings that convert the pin to appropriate function for Lpuart Rx usage
    fn as_rx(&self) -> (r: Vec<PinSetting>)
        ensures
            r@ == input_settings(Self::MUX),
    {
        input_pin(Self::MUX)
    }
}

/// A pin that can be the clear-to-send pin of an instance.
pub trait CtsPin<T: Instance>: Sealed {
    /// The alternate function that connects the pin.
    const MUX: Mux;

    /// The settings that convert the pin to appropriate function for Lpuart Cts usage
    fn as_cts(&self) -> (r: Vec<PinSetting>)
        ensures
            r@ == input_settings(Self::MUX),
    {
        input_pin(Self::MUX)
    }
}

/// A pin that can be the request-to-send pin of an instance.
pub trait RtsPin<T: Instance>: Sealed {
    /// The alternate function that connects the pin.
    const MUX: Mux;

    /// The settings that convert the pin to appropriate function for Lpuart Rts usage
    fn as_rts(&self) -> (r: Vec<PinSetting>)
        ensures
            r@ == output_settings(Self::MUX),
    {
        output_pin(Self::MUX)
    }
}

/// The pins of a transmitter.
pub struct TxPins<P> {
    tx_pin: P,
    cts_pin: Option<P>,
}

/// The pins of a receiver.
pub struct RxPins<P> {
    rx_pin: P,
    rts_pin: Option<P>,
}

/// A pin and, behind it, a second one if there is one.
pub open spec fn pin_and_optional<P>(pin: P, optional: Option<P>) -> Seq<P> {
    match optional {
        Some(second) => seq![pin, second],
        None => seq![pin],
    }
}

impl<P> TxPins<P> {
    /// The transmit pin.
    pub closed spec fn tx_pin(self) -> P {
        self.tx_pin
    }

    /// The clear-to-send pin, if there is one.
    pub closed spec fn cts_pin(self) -> Option<P> {
        self.cts_pin
    }

    /// The pins of a transmitter.
    pub fn new(tx_pin: P, cts_pin: Option<P>) -> (r: Self)
        ensures
            r.tx_pin() == tx_pin,
            r.cts_pin() == cts_pin,
    {
        TxPins { tx_pin, cts_pin }
    }

    /// Take the pins back as they are, without disabling them.
    pub fn take(self) -> (r: (P, Option<P>))
        ensures
            r.0 == self.tx_pin(),
            r.1 == self.cts_pin(),
    {
        (self.tx_pin, self.cts_pin)
    }

    /// Give the pins up: the pins that are to be disabled, in this order.
    pub fn release(self) -> (r: Vec<P>)
        ensures
            r@ == pin_and_optional(self.tx_pin(), self.cts_pin()),
    {
        let mut pins: Vec<P> = Vec::new();
        pins.push(self.tx_pin);
        if let Some(cts_pin) = self.cts_pin {
            pins.push(cts_pin);
        }
        pins
    }
}

impl<P> RxPins<P> {
    /// The receive pin.
    pub closed spec fn rx_pin(self) -> P {
        self.rx_pin
    }

    /// The request-to-send pin, if there is one.
    pub closed spec fn rts_pin(self) -> Option<P> {
        self.rts_pin
    }

    /// The pins of a receiver.
    pub fn new(rx_pin: P, rts_pin: Option<P>) -> (r: Self)
        ensures
            r.rx_pin() == rx_pin,
            r.rts_pin() == rts_pin,
    {
        RxPins { rx_pin, rts_pin }
    }

    /// Take the pins back as they are, without disabling them.
    pub fn take(self) -> (r: (P, Option<P>))
        ensures
            r.0 == self.rx_pin(),
            r.1 == self.rts_pin(),
    {
        (self.rx_pin, self.rts_pin)
    }

    /// Give the pins up: the pins that are to be disabled, in this order.
    pub fn release(self) -> (r: Vec<P>)
        ensures
            r@ == pin_and_optional(self.rx_pin(), self.rts_pin()),
    {
        let mut pins: Vec<P> = Vec::new();
        pins.push(self.rx_pin);
        if let Some(rts_pin) = self.rts_pin {
            pins.push(rts_pin);
        }
        pins
    }
}

/// A pin that the LPUART drives is connected to it with the pin's own function, at full
/// speed and normal strength, with no pull and no input buffer. The buffer is switched
/// after the function, and nothing else is set.
pub proof fn law_driven_pins<I: Instance, T: TxPin<I>, R: RtsPin<I>>(
    tx_pin: T,
    tx: Vec<PinSetting>,
    rts_pin: R,
    rts: Vec<PinSetting>,
)
    requires
        call_ensures(T::as_tx, (&tx_pin,), tx),
        call_ensures(R::as_rts, (&rts_pin,), rts),
    ensures
        tx@.len() == 5,
        tx@[0] == PinSetting::Pull(Pull::Disabled),
        tx@[1] == PinSetting::SlewRate(SlewRate::Fast),
        tx@[2] == PinSetting::DriveStrength(DriveStrength::Normal),
        tx@[3] == PinSetting::Function(T::MUX),
        tx@[4] == PinSetting::InputBuffer(false),
        rts@.len() == 5,
        rts@[0] == PinSetting::Pull(Pull::Disabled),
        rts@[1] == PinSetting::SlewRate(SlewRate::Fast),
        rts@[2] == PinSetting::DriveStrength(DriveStrength::Normal),
        rts@[3] == PinSetting::Function(R::MUX),
        rts@[4] == PinSetting::InputBuffer(false),
{
}

/// A pin that the LPUART reads is connected to it with the pin's own function, with no
/// pull and with the input buffer, without which it reads nothing. The buffer is switched
/// after the function, and nothing else is set.
pub proof fn law_read_pins<I: Instance, R: RxPin<I>, C: CtsPin<I>>(
    rx_pin: R,
    rx: Vec<PinSetting>,
    cts_pin: C,
    cts: Vec<PinSetting>,
)
    requires
        call_ensures(R::as_rx, (&rx_pin,), rx),
        call_ensures(C::as_cts, (&cts_pin,), cts),
    ensures
        rx@.len() == 3,
        rx@[0] == PinSetting::Pull(Pull::Disabled),
        rx@[1] == PinSetting::Function(R::MUX),
        rx@[2] == PinSetting::InputBuffer(true),
        cts@.len() == 3,
        cts@[0] == PinSetting::Pull(Pull::Disabled),
        cts@[1] == PinSetting::Function(C::MUX),
        cts@[2] == PinSetting::InputBuffer(true),
{
}

/// The pins of a transmitter come back as they went in: taken, they are the same two, and
/// given up, each that there is goes once, the transmit pin first.
pub proof fn law_tx_pins_come_back<P>(
    tx_pin: P,
    cts_pin: Option<P>,
    pins: TxPins<P>,
    taken: (P, Option<P>),
    released: Vec<P>,
)
    requires
        call_ensures(TxPins::new, (tx_pin, cts_pin), pins),
        call_ensures(TxPins::take, (pins,), taken),
        call_ensures(TxPins::release, (pins,), released),
    ensures
        taken.0 == tx_pin,
        taken.1 == cts_pin,
        released@[0] == tx_pin,
        cts_pin is None ==> released@.len() == 1,
        cts_pin matches Some(cts) ==> released@.len() == 2 && released@[1] == cts,
{
}

/// The pins of a receiver come back as they went in: taken, they are the same two, and
/// given up, each that there is goes once, the receive pin first.
pub proof fn law_rx_pins_come_back<P>(
    rx_pin: P,
    rts_pin: Option<P>,
    pins: RxPins<P>,
    taken: (P, Option<P>),
    released: Vec<P>,
)
    requires
        call_ensures(RxPins::new, (rx_pin, rts_pin), pins),
        call_ensures(RxPins::take, (pins,), taken),
        call_ensures(RxPins::release, (pins,), released),
    ensures
        taken.0 == rx_pin,
        taken.1 == rts_pin,
        released@[0] == rx_pin,
        rts_pin is None ==> released@.len() == 1,
        rts_pin matches Some(rts) ==> released@.len() == 2 && released@[1] == rts,
{
}

} // verus!
