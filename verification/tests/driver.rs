use mcxa_lpuart::registers::{CtrlEdit, StatEdit};
use mcxa_lpuart::sealed::Sealed;
use mcxa_lpuart::sequence::{disable_peripheral, initialization_sequence};
use mcxa_lpuart::{
    note_released, ClockError, ClockParts, Config, CtsPin, Div4, DriveStrength, Error, Instance,
    Lpuart, LpuartClockSel, LpuartConfig, LpuartInstance, LpuartRx, LpuartTx, Mode, Mux,
    PinSetting, PoweredClock, Pull, RtsPin, RxPin, SlewRate, Step, TxPin, TxRxRefMask,
};

struct Lpuart2;

impl Instance for Lpuart2 {
    type Interrupt = ();
    const CLOCK_INSTANCE: LpuartInstance = LpuartInstance::Lpuart2;
}

#[derive(Debug, PartialEq)]
struct Blocking(u8);

impl Sealed for Blocking {}

impl Mode for Blocking {}

struct P1_8;

impl Sealed for P1_8 {}

impl TxPin<Lpuart2> for P1_8 {
    const MUX: Mux = Mux { alt: 2 };
}

impl RxPin<Lpuart2> for P1_8 {
    const MUX: Mux = Mux { alt: 3 };
}

impl CtsPin<Lpuart2> for P1_8 {
    const MUX: Mux = Mux { alt: 4 };
}

impl RtsPin<Lpuart2> for P1_8 {
    const MUX: Mux = Mux { alt: 5 };
}

type Tx = LpuartTx<&'static str, Blocking, &'static str>;
type Rx = LpuartRx<&'static str, Blocking, &'static str>;
type Both = Lpuart<Tx, Rx>;

fn tx(mask: &mut TxRxRefMask) -> Tx {
    Tx::new_inner::<Lpuart2>(mask, "tx", Some("cts"), Blocking(1), Some("guard"))
}

fn rx(mask: &mut TxRxRefMask) -> Rx {
    Rx::new_inner::<Lpuart2>(mask, "rx", None, Blocking(2), None)
}

fn output(alt: u8) -> Vec<PinSetting> {
    vec![
        PinSetting::Pull(Pull::Disabled),
        PinSetting::SlewRate(SlewRate::Fast),
        PinSetting::DriveStrength(DriveStrength::Normal),
        PinSetting::Function(Mux { alt }),
        PinSetting::InputBuffer(false),
    ]
}

fn input(alt: u8) -> Vec<PinSetting> {
    vec![
        PinSetting::Pull(Pull::Disabled),
        PinSetting::Function(Mux { alt }),
        PinSetting::InputBuffer(true),
    ]
}

#[test]
fn pin_settings() {
    let pin = P1_8;
    assert_eq!(pin.as_tx(), output(2));
    assert_eq!(pin.as_rx(), input(3));
    assert_eq!(pin.as_cts(), input(4));
    assert_eq!(pin.as_rts(), output(5));
}

#[test]
fn the_halves_of_a_driver_come_apart() {
    let mut mask = TxRxRefMask::new();
    let mut driver = Both::new(tx(&mut mask), rx(&mut mask));
    {
        let (tx, rx) = driver.split_ref();
        assert_eq!(tx.instance(), LpuartInstance::Lpuart2);
        assert_eq!(rx.instance(), LpuartInstance::Lpuart2);
        let mut other = TxRxRefMask::new();
        *rx = Rx::new_inner::<Lpuart2>(&mut other, "rx2", Some("rts"), Blocking(3), None);
    }
    let (tx, rx) = driver.split();
    let (_, released) = tx.release();
    let (_, mode, pins, guard) = note_released(&mut mask, released);
    assert_eq!(mode, Blocking(1));
    assert_eq!(pins.release(), vec!["tx", "cts"]);
    assert_eq!(guard, Some("guard"));
    let (_, released) = rx.release();
    let (_, mode, pins, guard) = note_released(&mut mask, released);
    assert_eq!(mode, Blocking(3));
    assert_eq!(pins.release(), vec!["rx2", "rts"]);
    assert_eq!(guard, None);
}

#[test]
fn pins_can_be_taken_back() {
    let mut mask = TxRxRefMask::new();
    let (_, released) = tx(&mut mask).release();
    let (_, _, pins, _) = note_released(&mut mask, released);
    assert_eq!(pins.take(), ("tx", Some("cts")));
    let (_, released) = rx(&mut mask).release();
    let (_, _, pins, _) = note_released(&mut mask, released);
    assert_eq!(pins.take(), ("rx", None));
    let (_, released) = rx(&mut mask).release();
    let (_, _, pins, _) = note_released(&mut mask, released);
    assert_eq!(pins.release(), vec!["rx"]);
}

#[test]
fn the_peripheral_goes_with_the_last_half() {
    let mut mask = TxRxRefMask::new();
    let tx = tx(&mut mask);
    let rx = rx(&mut mask);

    let (steps, released) = tx.release();
    assert_eq!(
        steps,
        vec![
            Step::WaitForTxComplete,
            Step::ModifyCtrlUninterrupted(CtrlEdit {
                tie: Some(false),
                ..CtrlEdit::none()
            }),
            Step::DeinitTxBuffer,
        ]
    );
    assert_eq!(note_released(&mut mask, released).0, vec![]);

    let (steps, released) = rx.release();
    assert_eq!(
        steps,
        vec![
            Step::ModifyCtrlUninterrupted(CtrlEdit {
                rie: Some(false),
                orie: Some(false),
                peie: Some(false),
                feie: Some(false),
                neie: Some(false),
                ..CtrlEdit::none()
            }),
            Step::DeinitRxBuffer,
        ]
    );
    assert_eq!(
        note_released(&mut mask, released).0,
        vec![
            Step::ModifyStat(StatEdit::none()),
            Step::DisableInterrupt,
            Step::ClearCtrl,
            Step::DisableClock,
        ]
    );
}

#[test]
fn initialization() {
    let config = Config {
        power: PoweredClock::Other(1),
        source: LpuartClockSel::Other(3),
        div: Div4 { divisor: 4 },
        ..Config::default()
    };
    let mut mask = TxRxRefMask::new();
    let (steps, clock, pending) =
        Both::init::<Lpuart2>(&mut mask, true, false, true, false, config);
    assert_eq!(steps, vec![]);
    assert_eq!(
        clock,
        LpuartConfig {
            power: PoweredClock::Other(1),
            source: LpuartClockSel::Other(3),
            div: Div4 { divisor: 4 },
            instance: LpuartInstance::Lpuart2,
        }
    );
    let (steps, result) = pending.resume(Ok(ClockParts {
        freq: 12_000_000,
        wake_guard: Some("guard"),
    }));
    assert_eq!(result, Ok(Some("guard")));
    assert_eq!(
        steps,
        initialization_sequence(true, false, true, false, &config, 12_000_000).0
    );
}

#[test]
fn a_leaked_driver_is_cleaned_up() {
    let mut mask = TxRxRefMask::new();
    std::mem::forget(tx(&mut mask));
    let (steps, _, _) =
        Both::init::<Lpuart2>(&mut mask, true, true, false, false, Config::default());
    assert_eq!(steps, disable_peripheral());
    assert!(!mask.fetch_any_alive_reset());
}

#[test]
fn a_clock_error_ends_initialization() {
    let mut mask = TxRxRefMask::new();
    let (_, _, pending) =
        Both::init::<Lpuart2>(&mut mask, true, true, false, false, Config::default());
    let error = ClockError {
        description: "BadConfig",
    };
    let (steps, result) = pending.resume::<&'static str>(Err(error));
    assert_eq!(steps, vec![]);
    assert_eq!(result, Err(Error::ClockSetup(error)));
}

#[test]
fn an_unsupported_rate_ends_initialization() {
    let mut mask = TxRxRefMask::new();
    let (_, _, pending) =
        Both::init::<Lpuart2>(&mut mask, true, true, false, false, Config::default());
    let (steps, result) = pending.resume(Ok(ClockParts {
        freq: 400_000,
        wake_guard: Some("guard"),
    }));
    assert_eq!(result, Err(Error::UnsupportedBaudrate));
    assert_eq!(steps.len(), 3);
}
