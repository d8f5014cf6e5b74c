//! Read-only views of the hardware for diagnosis.

use vstd::prelude::*;

use crate::config::LpuartInstance;
use crate::counters::{
    count_of, rx_idle_finalize_count, rx_overrun_count, RxCounters, LPUART_COUNT,
};
use crate::registers::{Baud, Ctrl, Fifo, Pcr, Stat, Water};

verus! {

/// Read-only snapshot of an LPUART's key registers.
#[derive(Copy, Clone, Debug, PartialEq, Eq, Structural)]
pub struct LpuartSnapshot {
    /// Receiver overrun: at least one byte was dropped by the hardware.
    pub overrun: bool,
    /// Framing error latched.
    pub framing_error: bool,
    /// Noise error latched.
    pub noise_error: bool,
    /// Parity error latched.
    pub parity_error: bool,
    /// Receive data register / FIFO is not empty.
    pub rx_full: bool,
    /// Idle line detected.
    pub idle: bool,
    /// Receiver enabled (`CTRL.RE`).
    pub rx_enabled: bool,
    /// Receiver is mid-frame right now (`STAT.RAF`).
    pub rx_active: bool,
    /// An edge was seen on the RX pin since this flag was last cleared (`STAT.RXEDGIF`).
    pub rx_pin_edge: bool,
    /// RX FIFO underflow latched (`FIFO.RXUF`): a read happened with the FIFO empty.
    pub rx_underflow: bool,
    /// Bytes currently waiting in the RX FIFO.
    pub rx_fifo_count: u8,
    /// Bytes currently waiting in the TX FIFO.
    pub tx_fifo_count: u8,
    /// RX DMA requests enabled (`BAUD.RDMAE`).
    pub rx_dma_enabled: bool,
    /// TX DMA requests enabled (`BAUD.TDMAE`).
    pub tx_dma_enabled: bool,
    /// Raw `STAT`.
    pub stat: u32,
    /// Raw `CTRL`.
    pub ctrl: u32,
    /// Raw `BAUD`.
    pub baud: u32,
    /// Raw `FIFO`.
    pub fifo: u32,
    /// Raw `WATER`.
    pub water: u32,
}

/// What one read of a register gave: its fields and the word they were taken from.
pub struct Reading<T> {
    /// The fields.
    pub fields: T,
    /// The word.
    pub raw: u32,
}

/// One read of each of an LPUART's key registers.
pub struct LpuartReadings {
    pub stat: Reading<Stat>,
    pub ctrl: Reading<Ctrl>,
    pub baud: Reading<Baud>,
    pub fifo: Reading<Fifo>,
    pub water: Reading<Water>,
}

/// The instance with an index, so that `LPUART1` is `1`.
pub fn lpuart_regs(lpuart: usize) -> (r: LpuartInstance)
    requires
        lpuart < LPUART_COUNT,
    ensures
        instance_index(r) == lpuart,
{
    match lpuart {
        0 => LpuartInstance::Lpuart0,
        1 => LpuartInstance::Lpuart1,
        2 => LpuartInstance::Lpuart2,
        3 => LpuartInstance::Lpuart3,
        4 => LpuartInstance::Lpuart4,
        _ => LpuartInstance::Lpuart5,
    }
}

/// The index of an instance.
pub open spec fn instance_index(instance: LpuartInstance) -> int {
    match instance {
        LpuartInstance::Lpuart0 => 0,
        LpuartInstance::Lpuart1 => 1,
        LpuartInstance::Lpuart2 => 2,
        LpuartInstance::Lpuart3 => 3,
        LpuartInstance::Lpuart4 => 4,
        LpuartInstance::Lpuart5 => 5,
    }
}

/// One of the PORT instances of the chip.
#[derive(Debug, Clone, Copy, PartialEq, Eq, Structural)]
pub enum PortInstance {
    Port0,
    Port1,
    Port2,
    Port3,
    Port4,
    /// On the MCX A5xx only.
    Port5,
}

/// The index of a PORT instance.
pub open spec fn port_index(port: PortInstance) -> int {
    match port {
        PortInstance::Port0 => 0,
        PortInstance::Port1 => 1,
        PortInstance::Port2 => 2,
        PortInstance::Port3 => 3,
        PortInstance::Port4 => 4,
        PortInstance::Port5 => 5,
    }
}

/// Whether the chip has a PORT with this index.
pub open spec fn port_exists(port: usize, mcxa5xx: bool) -> bool {
    port <= 4 || (port == 5 && mcxa5xx)
}

/// The PORT instance with an index.
pub fn port_regs(port: usize, mcxa5xx: bool) -> (r: PortInstance)
    requires
        port_exists(port, mcxa5xx),
    ensures
        port_index(r) == port,
        r == PortInstance::Port5 ==> mcxa5xx,
{
    match port {
        0 => PortInstance::Port0,
        1 => PortInstance::Port1,
        2 => PortInstance::Port2,
        3 => PortInstance::Port3,
        4 => PortInstance::Port4,
        _ => PortInstance::Port5,
    }
}

/// Read-only snapshot of one pin's `PORT` control register.
#[derive(Copy, Clone, Debug, PartialEq, Eq, Structural)]
pub struct PinSnapshot {
    /// PORT instance index.
    pub port: u8,
    /// Pin index within the port.
    pub pin: u8,
    /// Selected alternate function (`PCR.MUX`).
    pub mux: u8,
    /// Input buffer enabled (`PCR.IBE`); a UART RX pin reads nothing without it.
    pub input_buffer: bool,
    /// Pull resistor enabled (`PCR.PE`).
    pub pull_enabled: bool,
    /// Pull direction is up (`PCR.PS`).
    pub pull_up: bool,
    /// Input inversion enabled (`PCR.INV`).
    pub inverted: bool,
    /// Raw `PCR`.
    pub pcr: u32,
}

/// What a reading of a pin's `PORT` control register shows. Of a pin index only the low
/// eight bits are kept.
pub open spec fn pin_shown(port: usize, pin: usize, pcr: Reading<Pcr>) -> PinSnapshot {
    PinSnapshot {
        port: port as u8,
        pin: (pin % 256) as u8,
        mux: pcr.fields.mux,
        input_buffer: pcr.fields.ibe != 0,
        pull_enabled: pcr.fields.pe != 0,
        pull_up: pcr.fields.ps != 0,
        inverted: pcr.fields.inv != 0,
        pcr: pcr.raw,
    }
}

/// Capture one pin's `PORT` control register.
///
/// Useful for proving that a peripheral pin is still muxed to the peripheral and has its
/// input buffer enabled, rather than having been re-claimed as GPIO by another driver at
/// runtime. The port is one that some chip has; [port_regs] tells which this chip has.
pub fn pin_snapshot(port: usize, pin: usize, pcr: Reading<Pcr>) -> (r: PinSnapshot)
    requires
        port_exists(port, true),
    ensures
        r == pin_shown(port, pin, pcr),
{
    PinSnapshot {
        port: port as u8,
        pin: (pin % 256) as u8,
        mux: pcr.fields.mux,
        input_buffer: pcr.fields.ibe != 0,
        pull_enabled: pcr.fields.pe != 0,
        pull_up: pcr.fields.ps != 0,
        inverted: pcr.fields.inv != 0,
        pcr: pcr.raw,
    }
}

/// The addresses of the registers of all instances. No two instances share an address.
pub struct LpuartAddresses {
    addresses: [usize; LPUART_COUNT],
}

impl LpuartAddresses {
    #[verifier::type_invariant]
    closed spec fn distinct(self) -> bool {
        self.addresses@.no_duplicates()
    }

    pub closed spec fn spec_address(&self, lpuart: LpuartInstance) -> usize {
        self.addresses@[instance_index(lpuart)]
    }

    /// The addresses in the order of the instances, unless two of them are the same.
    pub fn new(addresses: [usize; LPUART_COUNT]) -> (r: Option<Self>)
        ensures
            r is Some <==> addresses@.no_duplicates(),
            r matches Some(all) ==> forall|lpuart: LpuartInstance|
                (#[trigger] all.address(lpuart)) == addresses@[instance_index(lpuart)],
    {
        let mut i: usize = 0;
        while i < LPUART_COUNT
            invariant
                i <= LPUART_COUNT,
                forall|j: int, k: int|
                    0 <= j < k < i ==> #[trigger] addresses@[j] != #[trigger] addresses@[k],
            decreases LPUART_COUNT - i,
        {
            let mut j: usize = 0;
            while j < i
                invariant
                    j <= i < LPUART_COUNT,
                    forall|k: int| 0 <= k < j ==> #[trigger] addresses@[k] != addresses@[i as int],
                decreases i - j,
            {
                if addresses[j] == addresses[i] {
                    return None;
                }
                j = j + 1;
            }
            i = i + 1;
        }
        Some(LpuartAddresses { addresses })
    }

    /// The address of the registers of an instance.
    #[verifier::when_used_as_spec(spec_address)]
    pub fn address(&self, lpuart: LpuartInstance) -> (r: usize)
        ensures
            r == self.address(lpuart),
    {
        match lpuart {
            LpuartInstance::Lpuart0 => self.addresses[0],
            LpuartInstance::Lpuart1 => self.addresses[1],
            LpuartInstance::Lpuart2 => self.addresses[2],
            LpuartInstance::Lpuart3 => self.addresses[3],
            LpuartInstance::Lpuart4 => self.addresses[4],
            LpuartInstance::Lpuart5 => self.addresses[5],
        }
    }
}

/// The index of the instance whose registers are at the address `regs`, or zero if none
/// is there. Each instance is found under its own index.
pub fn lpuart_index(addresses: &LpuartAddresses, regs: usize) -> (r: usize)
    ensures
        r < LPUART_COUNT,
        forall|lpuart: LpuartInstance|
            (#[trigger] addresses.address(lpuart)) == regs ==> r == instance_index(lpuart),
        (forall|lpuart: LpuartInstance| (#[trigger] addresses.address(lpuart)) != regs) ==> r == 0,
{
    proof {
        use_type_invariant(addresses);
    }
    let mut i: usize = 0;
    while i < LPUART_COUNT
        invariant
            i <= LPUART_COUNT,
            addresses.distinct(),
            forall|lpuart: LpuartInstance|
                instance_index(lpuart) < i ==> (#[trigger] addresses.address(lpuart)) != regs,
        decreases LPUART_COUNT - i,
    {
        if addresses.address(lpuart_regs(i)) == regs {
            return i;
        }
        i = i + 1;
    }
    0
}

/// What one read of each register shows.
pub open spec fn shown(readings: LpuartReadings) -> LpuartSnapshot {
    let stat = readings.stat.fields;
    LpuartSnapshot {
        overrun: stat.or,
        framing_error: stat.fe,
        noise_error: stat.nf,
        parity_error: stat.pf,
        rx_full: stat.rdrf,
        idle: stat.idle,
        rx_enabled: readings.ctrl.fields.re,
        rx_active: stat.raf != 0,
        rx_pin_edge: stat.rxedgif,
        rx_underflow: readings.fifo.fields.rxuf,
        rx_fifo_count: readings.water.fields.rxcount,
        tx_fifo_count: readings.water.fields.txcount,
        rx_dma_enabled: readings.baud.fields.rdmae,
        tx_dma_enabled: readings.baud.fields.tdmae,
        stat: readings.stat.raw,
        ctrl: readings.ctrl.raw,
        baud: readings.baud.raw,
        fifo: readings.fifo.raw,
        water: readings.water.raw,
    }
}

/// Capture an LPUART's registers without disturbing an in-flight transfer.
///
/// Every access is a read, so error flags are left latched for the driver to clear.
/// `overrun` is the flag to watch when bytes go missing: it means the RX FIFO filled up
/// before DMA (or the interrupt handler) drained it.
pub fn snapshot(readings: &LpuartReadings) -> (r: LpuartSnapshot)
    ensures
        r == shown(*readings),
{
    let stat = readings.stat.fields;
    let ctrl = readings.ctrl.fields;
    let baud = readings.baud.fields;
    let fifo = readings.fifo.fields;
    let water = readings.water.fields;

    LpuartSnapshot {
        overrun: stat.or,
        framing_error: stat.fe,
        noise_error: stat.nf,
        parity_error: stat.pf,
        rx_full: stat.rdrf,
        idle: stat.idle,
        rx_enabled: ctrl.re,
        rx_active: stat.raf != 0,
        rx_pin_edge: stat.rxedgif,
        rx_underflow: fifo.rxuf,
        rx_fifo_count: water.rxcount,
        tx_fifo_count: water.txcount,
        rx_dma_enabled: baud.rdmae,
        tx_dma_enabled: baud.tdmae,
        stat: readings.stat.raw,
        ctrl: readings.ctrl.raw,
        baud: readings.baud.raw,
        fifo: readings.fifo.raw,
        water: readings.water.raw,
    }
}

/// One sample of a receive path: the LPUART, its RX DMA channel, its RX pin and the
/// counts of its instance.
pub struct RxSample<D> {
    pub uart: LpuartSnapshot,
    pub dma: D,
    pub pin: PinSnapshot,
    pub overruns: u32,
    pub idle_finalizes: u32,
}

/// Put one sample of a receive path together.
///
/// `lpuart` is the instance index and `rx_pin` the `(port, pin)` of the RX pad, so
/// `LPUART1` on `P1_8` is `1` and `(1, 8)`.
pub fn sample_rx<D>(
    lpuart: usize,
    readings: &LpuartReadings,
    dma: D,
    rx_pin: (usize, usize),
    pcr: Reading<Pcr>,
    counters: &RxCounters,
) -> (r: RxSample<D>)
    requires
        lpuart < LPUART_COUNT,
        port_exists(rx_pin.0, true),
    ensures
        r == (RxSample {
            uart: shown(*readings),
            dma,
            pin: pin_shown(rx_pin.0, rx_pin.1, pcr),
            overruns: count_of(counters.overruns(), lpuart),
            idle_finalizes: count_of(counters.idle_finalizes(), lpuart),
        }),
{
    RxSample {
        uart: snapshot(readings),
        dma,
        pin: pin_snapshot(rx_pin.0, rx_pin.1, pcr),
        overruns: rx_overrun_count(counters, lpuart),
        idle_finalizes: rx_idle_finalize_count(counters, lpuart),
    }
}

/// Each field of a snapshot is what its register was read as: the flags of `STAT`, `CTRL`,
/// `FIFO` and `BAUD` and the counts of `WATER` that they are named after, and the words.
pub proof fn law_snapshot_shows_what_was_read(readings: LpuartReadings, r: LpuartSnapshot)
    requires
        call_ensures(snapshot, (&readings,), r),
    ensures
        r.overrun <==> readings.stat.fields.or,
        r.framing_error <==> readings.stat.fields.fe,
        r.noise_error <==> readings.stat.fields.nf,
        r.parity_error <==> readings.stat.fields.pf,
        r.rx_full <==> readings.stat.fields.rdrf,
        r.idle <==> readings.stat.fields.idle,
        r.rx_enabled <==> readings.ctrl.fields.re,
        r.rx_active <==> readings.stat.fields.raf > 0,
        r.rx_pin_edge <==> readings.stat.fields.rxedgif,
        r.rx_underflow <==> readings.fifo.fields.rxuf,
        r.rx_fifo_count == readings.water.fields.rxcount,
        r.tx_fifo_count == readings.water.fields.txcount,
        r.rx_dma_enabled <==> readings.baud.fields.rdmae,
        r.tx_dma_enabled <==> readings.baud.fields.tdmae,
        r.stat == readings.stat.raw,
        r.ctrl == readings.ctrl.raw,
        r.baud == readings.baud.raw,
        r.fifo == readings.fifo.raw,
        r.water == readings.water.raw,
{
}

/// Each field of a pin's snapshot is what its control register was read as, for the pin
/// that was asked for. A pin index below 256 is shown as it is, as every port index is.
pub proof fn law_pin_snapshot_shows_what_was_read(
    port: usize,
    pin: usize,
    pcr: Reading<Pcr>,
    r: PinSnapshot,
)
    requires
        port <= 5,
        call_ensures(pin_snapshot, (port, pin, pcr), r),
    ensures
        call_requires(pin_snapshot, (port, pin, pcr)),
        r.port == port,
        pin < 256 ==> r.pin == pin,
        (pin - r.pin) % 256 == 0,
        r.mux == pcr.fields.mux,
        r.input_buffer <==> pcr.fields.ibe > 0,
        r.pull_enabled <==> pcr.fields.pe > 0,
        r.pull_up <==> pcr.fields.ps > 0,
        r.inverted <==> pcr.fields.inv > 0,
        r.pcr == pcr.raw,
{
}

/// A sample is made of what each of its parts gives by itself for the same instance and the
/// same pin, with the DMA channel as it was handed over.
pub proof fn law_sample_is_made_of_its_parts<D>(
    lpuart: usize,
    readings: LpuartReadings,
    dma: D,
    rx_pin: (usize, usize),
    pcr: Reading<Pcr>,
    counters: RxCounters,
    r: RxSample<D>,
    uart: LpuartSnapshot,
    pin: PinSnapshot,
    overruns: u32,
    idle_finalizes: u32,
)
    requires
        call_ensures(
            sample_rx::<D>,
            (lpuart, &readings, dma, rx_pin, pcr, &counters),
            r,
        ),
        call_ensures(snapshot, (&readings,), uart),
        call_ensures(pin_snapshot, (rx_pin.0, rx_pin.1, pcr), pin),
        call_ensures(rx_overrun_count, (&counters, lpuart), overruns),
        call_ensures(rx_idle_finalize_count, (&counters, lpuart), idle_finalizes),
    ensures
        lpuart < 6 && rx_pin.0 <= 5 ==> call_requires(
            sample_rx::<D>,
            (lpuart, &readings, dma, rx_pin, pcr, &counters),
        ),
        r.uart == uart,
        r.dma == dma,
        r.pin == pin,
        r.overruns == overruns,
        r.idle_finalizes == idle_finalizes,
{
}

/// The instances are numbered by their names.
pub proof fn law_instances_are_numbered_by_name(lpuart: usize, r: LpuartInstance)
    requires
        lpuart < 6,
        call_ensures(lpuart_regs, (lpuart,), r),
    ensures
        call_requires(lpuart_regs, (lpuart,)),
        r == LpuartInstance::Lpuart0 <==> lpuart == 0,
        r == LpuartInstance::Lpuart1 <==> lpuart == 1,
        r == LpuartInstance::Lpuart2 <==> lpuart == 2,
        r == LpuartInstance::Lpuart3 <==> lpuart == 3,
        r == LpuartInstance::Lpuart4 <==> lpuart == 4,
        r == LpuartInstance::Lpuart5 <==> lpuart == 5,
{
}

/// The ports are numbered by their names. Five of them every chip has, and a sixth only
/// the MCX A5xx.
pub proof fn law_ports_are_numbered_by_name(port: usize, mcxa5xx: bool, r: PortInstance)
    requires
        port < 5 || (port == 5 && mcxa5xx),
        call_ensures(port_regs, (port, mcxa5xx), r),
    ensures
        call_requires(port_regs, (port, mcxa5xx)),
        r == PortInstance::Port0 <==> port == 0,
        r == PortInstance::Port1 <==> port == 1,
        r == PortInstance::Port2 <==> port == 2,
        r == PortInstance::Port3 <==> port == 3,
        r == PortInstance::Port4 <==> port == 4,
        r == PortInstance::Port5 <==> port == 5,
{
}

/// The registers of each instance lead back to its index.
pub proof fn law_registers_lead_back_to_their_index(
    addresses: LpuartAddresses,
    lpuart: usize,
    instance: LpuartInstance,
    regs: usize,
    r: usize,
)
    requires
        lpuart < 6,
        call_ensures(lpuart_regs, (lpuart,), instance),
        call_ensures(LpuartAddresses::address, (&addresses, instance), regs),
        call_ensures(lpuart_index, (&addresses, regs), r),
    ensures
        r == lpuart,
{
}

/// Registers at an address that is none of the six are taken for those of the first
/// instance.
pub proof fn law_unknown_registers_get_index_zero(
    all: [usize; LPUART_COUNT],
    accepted: Option<LpuartAddresses>,
    addresses: LpuartAddresses,
    regs: usize,
    r: usize,
)
    requires
        call_ensures(LpuartAddresses::new, (all,), accepted),
        accepted == Some(addresses),
        forall|i: int| 0 <= i < 6 ==> all@[i] != regs,
        call_ensures(lpuart_index, (&addresses, regs), r),
    ensures
        r == 0,
{
    assert forall|lpuart: LpuartInstance| (#[trigger] addresses.address(lpuart)) != regs by {
        assert(accepted->0.address(lpuart) == all@[instance_index(lpuart)]);
    }
}

/// Addresses are accepted exactly if they are all different, and each instance then has
/// the one in its place.
pub proof fn law_addresses_are_kept_in_place(
    all: [usize; LPUART_COUNT],
    r: Option<LpuartAddresses>,
    lpuart: usize,
    instance: LpuartInstance,
    regs: usize,
)
    requires
        call_ensures(LpuartAddresses::new, (all,), r),
        lpuart < 6,
        call_ensures(lpuart_regs, (lpuart,), instance),
        r matches Some(addresses) ==> call_ensures(
            LpuartAddresses::address,
            (&addresses, instance),
            regs,
        ),
    ensures
        r is None <==> exists|i: int, j: int|
            0 <= i < j < 6 && #[trigger] all@[i] == #[trigger] all@[j],
        r is Some ==> regs == all@[lpuart as int],
{
}

} // verus!
