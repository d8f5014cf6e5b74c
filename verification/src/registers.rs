//! The register fields that the driver reads or writes.
//!
//! A register is the record of its fields. An edit says which fields a
//! read-modify-write sets, and to what; it leaves the others alone.

use vstd::prelude::*;

use crate::config::{
    DataBits, IdleConfig, IdleType, MsbFirst, Parity, StopBits, TxCtsConfig, TxCtsSource,
};

verus! {

/// Software reset (`GLOBAL.RST`)
#[derive(Debug, Clone, Copy, PartialEq, Eq, Structural)]
pub enum Rst {
    NoEffect,
    Reset,
}

/// Flush of the transmit FIFO (`FIFO.TXFLUSH`)
#[derive(Debug, Clone, Copy, PartialEq, Eq, Structural)]
pub enum Txflush {
    NoEffect,
    TxfifoRst,
}

/// Flush of the receive FIFO (`FIFO.RXFLUSH`)
#[derive(Debug, Clone, Copy, PartialEq, Eq, Structural)]
pub enum Rxflush {
    NoEffect,
    RxfifoRst,
}

/// Transmission state (`STAT.TC`)
#[derive(Debug, Clone, Copy, PartialEq, Eq, Structural)]
pub enum Tc {
    /// The transmitter is sending
    Active,
    /// The last character has left the shifter
    Complete,
}

/// Assignment of the TXD and RXD pins (`CTRL.SWAP`)
#[derive(Debug, Clone, Copy, PartialEq, Eq, Structural)]
pub enum Swap {
    Standard,
    Swap,
}

/// Operation in doze mode (`CTRL.DOZEEN`)
#[derive(Debug, Clone, Copy, PartialEq, Eq, Structural)]
pub enum Dozeen {
    Enabled,
    Disabled,
}

/// What a field holds after an edit.
pub open spec fn edited<T>(edit: Option<T>, before: T) -> T {
    match edit {
        Some(value) => value,
        None => before,
    }
}

fn edit_field<T>(edit: Option<T>, before: T) -> (r: T)
    ensures
        r == edited(edit, before),
{
    match edit {
        Some(value) => value,
        None => before,
    }
}

/// `BAUD`: baud rate and frame format.
#[derive(Debug, Clone, Copy, PartialEq, Eq, Structural)]
pub struct Baud {
    /// Oversampling ratio, less one
    pub osr: u8,
    /// Baud rate divider
    pub sbr: u16,
    /// Received data is sampled on both edges of the baud clock
    pub bothedge: bool,
    /// Number of stop bits
    pub sbns: StopBits,
    /// Characters of ten bits
    pub m10: bool,
    /// Receiver requests DMA
    pub rdmae: bool,
    /// Transmitter requests DMA
    pub tdmae: bool,
}

/// What a read-modify-write of `BAUD` sets.
#[derive(Debug, Clone, Copy, PartialEq, Eq, Structural)]
pub struct BaudEdit {
    pub osr: Option<u8>,
    pub sbr: Option<u16>,
    pub bothedge: Option<bool>,
    pub sbns: Option<StopBits>,
    pub m10: Option<bool>,
}

impl BaudEdit {
    /// The edit that sets nothing.
    pub open spec fn nothing() -> BaudEdit {
        BaudEdit {
            osr: None,
            sbr: None,
            bothedge: None,
            sbns: None,
            m10: None,
        }
    }

    /// The edit that sets nothing.
    pub fn none() -> (r: BaudEdit)
        ensures
            r == BaudEdit::nothing(),
    {
        BaudEdit {
            osr: None,
            sbr: None,
            bothedge: None,
            sbns: None,
            m10: None,
        }
    }
}

impl Baud {
    /// The register after the edit.
    pub open spec fn with(self, edit: BaudEdit) -> Baud {
        Baud {
            osr: edited(edit.osr, self.osr),
            sbr: edited(edit.sbr, self.sbr),
            bothedge: edited(edit.bothedge, self.bothedge),
            sbns: edited(edit.sbns, self.sbns),
            m10: edited(edit.m10, self.m10),
            ..self
        }
    }

    /// The value that a read-modify-write stores when it has read `self`.
    pub fn modify(self, edit: BaudEdit) -> (r: Baud)
        ensures
            r == self.with(edit),
    {
        Baud {
            osr: edit_field(edit.osr, self.osr),
            sbr: edit_field(edit.sbr, self.sbr),
            bothedge: edit_field(edit.bothedge, self.bothedge),
            sbns: edit_field(edit.sbns, self.sbns),
            m10: edit_field(edit.m10, self.m10),
            ..self
        }
    }
}

/// `CTRL`: transmitter, receiver, interrupts and character format.
#[derive(Debug, Clone, Copy, PartialEq, Eq, Structural)]
pub struct Ctrl {
    /// Transmitter enabled
    pub te: bool,
    /// Receiver enabled
    pub re: bool,
    /// Parity enabled
    pub pe: bool,
    /// Parity type
    pub pt: Parity,
    /// Operation in doze mode
    pub dozeen: Dozeen,
    /// Character length, parity bit included
    pub m: DataBits,
    /// Idle characters that make an idle line
    pub idlecfg: IdleConfig,
    /// From where an idle line is counted
    pub ilt: IdleType,
    /// Assignment of the TXD and RXD pins
    pub swap: Swap,
    /// Transmit interrupt enabled
    pub tie: bool,
    /// Receive interrupt enabled
    pub rie: bool,
    /// Overrun interrupt enabled
    pub orie: bool,
    /// Parity error interrupt enabled
    pub peie: bool,
    /// Framing error interrupt enabled
    pub feie: bool,
    /// Noise error interrupt enabled
    pub neie: bool,
}

/// What a read-modify-write of `CTRL` sets.
#[derive(Debug, Clone, Copy, PartialEq, Eq, Structural)]
pub struct CtrlEdit {
    pub te: Option<bool>,
    pub re: Option<bool>,
    pub pe: Option<bool>,
    pub pt: Option<Parity>,
    pub dozeen: Option<Dozeen>,
    pub m: Option<DataBits>,
    pub idlecfg: Option<IdleConfig>,
    pub ilt: Option<IdleType>,
    pub swap: Option<Swap>,
    pub tie: Option<bool>,
    pub rie: Option<bool>,
    pub orie: Option<bool>,
    pub peie: Option<bool>,
    pub feie: Option<bool>,
    pub neie: Option<bool>,
}

impl CtrlEdit {
    /// The edit that sets nothing.
    pub open spec fn nothing() -> CtrlEdit {
        CtrlEdit {
            te: None,
            re: None,
            pe: None,
            pt: None,
            dozeen: None,
            m: None,
            idlecfg: None,
            ilt: None,
            swap: None,
            tie: None,
            rie: None,
            orie: None,
            peie: None,
            feie: None,
            neie: None,
        }
    }

    /// The edit that sets nothing.
    pub fn none() -> (r: CtrlEdit)
        ensures
            r == CtrlEdit::nothing(),
    {
        CtrlEdit {
            te: None,
            re: None,
            pe: None,
            pt: None,
            dozeen: None,
            m: None,
            idlecfg: None,
            ilt: None,
            swap: None,
            tie: None,
            rie: None,
            orie: None,
            peie: None,
            feie: None,
            neie: None,
        }
    }
}

impl Ctrl {
    /// The register after the edit.
    pub open spec fn with(self, edit: CtrlEdit) -> Ctrl {
        Ctrl {
            te: edited(edit.te, self.te),
            re: edited(edit.re, self.re),
            pe: edited(edit.pe, self.pe),
            pt: edited(edit.pt, self.pt),
            dozeen: edited(edit.dozeen, self.dozeen),
            m: edited(edit.m, self.m),
            idlecfg: edited(edit.idlecfg, self.idlecfg),
            ilt: edited(edit.ilt, self.ilt),
            swap: edited(edit.swap, self.swap),
            tie: edited(edit.tie, self.tie),
            rie: edited(edit.rie, self.rie),
            orie: edited(edit.orie, self.orie),
            peie: edited(edit.peie, self.peie),
            feie: edited(edit.feie, self.feie),
            neie: edited(edit.neie, self.neie),
        }
    }

    /// The value that a read-modify-write stores when it has read `self`.
    pub fn modify(self, edit: CtrlEdit) -> (r: Ctrl)
        ensures
            r == self.with(edit),
    {
        Ctrl {
            te: edit_field(edit.te, self.te),
            re: edit_field(edit.re, self.re),
            pe: edit_field(edit.pe, self.pe),
            pt: edit_field(edit.pt, self.pt),
            dozeen: edit_field(edit.dozeen, self.dozeen),
            m: edit_field(edit.m, self.m),
            idlecfg: edit_field(edit.idlecfg, self.idlecfg),
            ilt: edit_field(edit.ilt, self.ilt),
            swap: edit_field(edit.swap, self.swap),
            tie: edit_field(edit.tie, self.tie),
            rie: edit_field(edit.rie, self.rie),
            orie: edit_field(edit.orie, self.orie),
            peie: edit_field(edit.peie, self.peie),
            feie: edit_field(edit.feie, self.feie),
            neie: edit_field(edit.neie, self.neie),
        }
    }
}

/// `FIFO`: control and status of the FIFOs.
#[derive(Debug, Clone, Copy, PartialEq, Eq, Structural)]
pub struct Fifo {
    /// Transmit FIFO enabled
    pub txfe: bool,
    /// Receive FIFO enabled
    pub rxfe: bool,
    /// Flush of the transmit FIFO
    pub txflush: Txflush,
    /// Flush of the receive FIFO
    pub rxflush: Rxflush,
    /// Receive FIFO underflow latched
    pub rxuf: bool,
}

/// What a read-modify-write of `FIFO` sets.
#[derive(Debug, Clone, Copy, PartialEq, Eq, Structural)]
pub struct FifoEdit {
    pub txfe: Option<bool>,
    pub rxfe: Option<bool>,
    pub txflush: Option<Txflush>,
    pub rxflush: Option<Rxflush>,
}

impl FifoEdit {
    /// The edit that sets nothing.
    pub open spec fn nothing() -> FifoEdit {
        FifoEdit {
            txfe: None,
            rxfe: None,
            txflush: None,
            rxflush: None,
        }
    }

    /// The edit that sets nothing.
    pub fn none() -> (r: FifoEdit)
        ensures
            r == FifoEdit::nothing(),
    {
        FifoEdit {
            txfe: None,
            rxfe: None,
            txflush: None,
            rxflush: None,
        }
    }
}

impl Fifo {
    /// The register after the edit.
    pub open spec fn with(self, edit: FifoEdit) -> Fifo {
        Fifo {
            txfe: edited(edit.txfe, self.txfe),
            rxfe: edited(edit.rxfe, self.rxfe),
            txflush: edited(edit.txflush, self.txflush),
            rxflush: edited(edit.rxflush, self.rxflush),
            ..self
        }
    }

    /// The value that a read-modify-write stores when it has read `self`.
    pub fn modify(self, edit: FifoEdit) -> (r: Fifo)
        ensures
            r == self.with(edit),
    {
        Fifo {
            txfe: edit_field(edit.txfe, self.txfe),
            rxfe: edit_field(edit.rxfe, self.rxfe),
            txflush: edit_field(edit.txflush, self.txflush),
            rxflush: edit_field(edit.rxflush, self.rxflush),
            ..self
        }
    }
}

/// `MODIR`: hardware flow control.
#[derive(Debug, Clone, Copy, PartialEq, Eq, Structural)]
pub struct Modir {
    /// When clear-to-send is sampled
    pub txctsc: TxCtsConfig,
    /// What is taken as clear-to-send
    pub txctssrc: TxCtsSource,
    /// Receiver drives request-to-send
    pub rxrtse: bool,
    /// Transmitter obeys clear-to-send
    pub txctse: bool,
}

/// What a read-modify-write of `MODIR` sets.
#[derive(Debug, Clone, Copy, PartialEq, Eq, Structural)]
pub struct ModirEdit {
    pub txctsc: Option<TxCtsConfig>,
    pub txctssrc: Option<TxCtsSource>,
    pub rxrtse: Option<bool>,
    pub txctse: Option<bool>,
}

impl ModirEdit {
    /// The edit that sets nothing.
    pub open spec fn nothing() -> ModirEdit {
        ModirEdit {
            txctsc: None,
            txctssrc: None,
            rxrtse: None,
            txctse: None,
        }
    }

    /// The edit that sets nothing.
    pub fn none() -> (r: ModirEdit)
        ensures
            r == ModirEdit::nothing(),
    {
        ModirEdit {
            txctsc: None,
            txctssrc: None,
            rxrtse: None,
            txctse: None,
        }
    }
}

impl Modir {
    /// The register after the edit.
    pub open spec fn with(self, edit: ModirEdit) -> Modir {
        Modir {
            txctsc: edited(edit.txctsc, self.txctsc),
            txctssrc: edited(edit.txctssrc, self.txctssrc),
            rxrtse: edited(edit.rxrtse, self.rxrtse),
            txctse: edited(edit.txctse, self.txctse),
        }
    }

    /// The value that a read-modify-write stores when it has read `self`.
    pub fn modify(self, edit: ModirEdit) -> (r: Modir)
        ensures
            r == self.with(edit),
    {
        Modir {
            txctsc: edit_field(edit.txctsc, self.txctsc),
            txctssrc: edit_field(edit.txctssrc, self.txctssrc),
            rxrtse: edit_field(edit.rxrtse, self.rxrtse),
            txctse: edit_field(edit.txctse, self.txctse),
        }
    }
}

/// `STAT`: status flags and bit order.
#[derive(Debug, Clone, Copy, PartialEq, Eq, Structural)]
pub struct Stat {
    /// Receiver overrun latched
    pub or: bool,
    /// Parity error latched
    pub pf: bool,
    /// Framing error latched
    pub fe: bool,
    /// Noise error latched
    pub nf: bool,
    /// Receive data register or FIFO is not empty
    pub rdrf: bool,
    /// Idle line detected
    pub idle: bool,
    /// Receiver active, as the bits of the field
    pub raf: u8,
    /// Edge seen on the RX pin
    pub rxedgif: bool,
    /// Transmission state
    pub tc: Tc,
    /// Bit order on the line
    pub msbf: MsbFirst,
}

/// What a read-modify-write of `STAT` sets.
#[derive(Debug, Clone, Copy, PartialEq, Eq, Structural)]
pub struct StatEdit {
    pub msbf: Option<MsbFirst>,
}

impl StatEdit {
    /// The edit that sets nothing.
    pub open spec fn nothing() -> StatEdit {
        StatEdit {
            msbf: None,
        }
    }

    /// The edit that sets nothing.
    pub fn none() -> (r: StatEdit)
        ensures
            r == StatEdit::nothing(),
    {
        StatEdit {
            msbf: None,
        }
    }
}

impl Stat {
    /// The register after the edit.
    pub open spec fn with(self, edit: StatEdit) -> Stat {
        Stat {
            msbf: edited(edit.msbf, self.msbf),
            ..self
        }
    }

    /// The value that a read-modify-write stores when it has read `self`.
    pub fn modify(self, edit: StatEdit) -> (r: Stat)
        ensures
            r == self.with(edit),
    {
        Stat {
            msbf: edit_field(edit.msbf, self.msbf),
            ..self
        }
    }
}

/// The flags of `STAT` that report receive errors.
///
/// `STAT` is written with them raised and every other bit zero to clear them: writing a
/// flag as one clears it, and writing it as zero leaves it.
#[derive(Debug, Clone, Copy, PartialEq, Eq, Structural)]
pub struct RxErrorFlags {
    /// Overrun
    pub or: bool,
    /// Parity error
    pub pf: bool,
    /// Framing error
    pub fe: bool,
    /// Noise error
    pub nf: bool,
}

/// `WATER`: watermarks and fill levels of the FIFOs.
#[derive(Debug, Clone, Copy, PartialEq, Eq, Structural)]
pub struct Water {
    /// Receive watermark
    pub rxwater: u8,
    /// Transmit watermark
    pub txwater: u8,
    /// Bytes in the receive FIFO
    pub rxcount: u8,
    /// Bytes in the transmit FIFO
    pub txcount: u8,
}

/// The watermarks that a write of `WATER` sets.
#[derive(Debug, Clone, Copy, PartialEq, Eq, Structural)]
pub struct WaterWrite {
    pub rxwater: u8,
    pub txwater: u8,
}

/// `PARAM`: what the instance is built with.
#[derive(Debug, Clone, Copy, PartialEq, Eq, Structural)]
pub struct Param {
    /// Size of the receive FIFO; zero where there is none
    pub rxfifo: u8,
}

/// `PCR`: control register of one pin, each field as its bits.
#[derive(Debug, Clone, Copy, PartialEq, Eq, Structural)]
pub struct Pcr {
    /// Selected alternate function
    pub mux: u8,
    /// Input buffer enable
    pub ibe: u8,
    /// Pull enable
    pub pe: u8,
    /// Pull select
    pub ps: u8,
    /// Input inversion
    pub inv: u8,
}

/// An edit that starts from nothing sets no field of `BAUD`.
pub proof fn law_no_baud_field_is_set_by_none(edit: BaudEdit)
    requires
        call_ensures(BaudEdit::none, (), edit),
    ensures
        edit.osr is None,
        edit.sbr is None,
        edit.bothedge is None,
        edit.sbns is None,
        edit.m10 is None,
{
}

/// A read-modify-write of `BAUD` gives each field that the edit sets its value, and
/// leaves each other field.
pub proof fn law_baud_edit_is_taken_over(baud: Baud, edit: BaudEdit, r: Baud)
    requires
        call_ensures(Baud::modify, (baud, edit), r),
    ensures
        edit.osr == Some(r.osr) || (edit.osr is None && r.osr == baud.osr),
        edit.sbr == Some(r.sbr) || (edit.sbr is None && r.sbr == baud.sbr),
        edit.bothedge == Some(r.bothedge) || (edit.bothedge is None && r.bothedge == baud.bothedge),
        edit.sbns == Some(r.sbns) || (edit.sbns is None && r.sbns == baud.sbns),
        edit.m10 == Some(r.m10) || (edit.m10 is None && r.m10 == baud.m10),
        r.rdmae == baud.rdmae,
        r.tdmae == baud.tdmae,
{
}

/// An edit that starts from nothing sets no field of `CTRL`.
pub proof fn law_no_ctrl_field_is_set_by_none(edit: CtrlEdit)
    requires
        call_ensures(CtrlEdit::none, (), edit),
    ensures
        edit.te is None,
        edit.re is None,
        edit.pe is None,
        edit.pt is None,
        edit.dozeen is None,
        edit.m is None,
        edit.idlecfg is None,
        edit.ilt is None,
        edit.swap is None,
        edit.tie is None,
        edit.rie is None,
        edit.orie is None,
        edit.peie is None,
        edit.feie is None,
        edit.neie is None,
{
}

/// A read-modify-write of `CTRL` gives each field that the edit sets its value, and
/// leaves each other field.
pub proof fn law_ctrl_edit_is_taken_over(ctrl: Ctrl, edit: CtrlEdit, r: Ctrl)
    requires
        call_ensures(Ctrl::modify, (ctrl, edit), r),
    ensures
        edit.te == Some(r.te) || (edit.te is None && r.te == ctrl.te),
        edit.re == Some(r.re) || (edit.re is None && r.re == ctrl.re),
        edit.pe == Some(r.pe) || (edit.pe is None && r.pe == ctrl.pe),
        edit.pt == Some(r.pt) || (edit.pt is None && r.pt == ctrl.pt),
        edit.dozeen == Some(r.dozeen) || (edit.dozeen is None && r.dozeen == ctrl.dozeen),
        edit.m == Some(r.m) || (edit.m is None && r.m == ctrl.m),
        edit.idlecfg == Some(r.idlecfg) || (edit.idlecfg is None && r.idlecfg == ctrl.idlecfg),
        edit.ilt == Some(r.ilt) || (edit.ilt is None && r.ilt == ctrl.ilt),
        edit.swap == Some(r.swap) || (edit.swap is None && r.swap == ctrl.swap),
        edit.tie == Some(r.tie) || (edit.tie is None && r.tie == ctrl.tie),
        edit.rie == Some(r.rie) || (edit.rie is None && r.rie == ctrl.rie),
        edit.orie == Some(r.orie) || (edit.orie is None && r.orie == ctrl.orie),
        edit.peie == Some(r.peie) || (edit.peie is None && r.peie == ctrl.peie),
        edit.feie == Some(r.feie) || (edit.feie is None && r.feie == ctrl.feie),
        edit.neie == Some(r.neie) || (edit.neie is None && r.neie == ctrl.neie),
{
}

/// An edit that starts from nothing sets no field of `FIFO`.
pub proof fn law_no_fifo_field_is_set_by_none(edit: FifoEdit)
    requires
        call_ensures(FifoEdit::none, (), edit),
    ensures
        edit.txfe is None,
        edit.rxfe is None,
        edit.txflush is None,
        edit.rxflush is None,
{
}

/// A read-modify-write of `FIFO` gives each field that the edit sets its value, and
/// leaves each other field.
pub proof fn law_fifo_edit_is_taken_over(fifo: Fifo, edit: FifoEdit, r: Fifo)
    requires
        call_ensures(Fifo::modify, (fifo, edit), r),
    ensures
        edit.txfe == Some(r.txfe) || (edit.txfe is None && r.txfe == fifo.txfe),
        edit.rxfe == Some(r.rxfe) || (edit.rxfe is None && r.rxfe == fifo.rxfe),
        edit.txflush == Some(r.txflush) || (edit.txflush is None && r.txflush == fifo.txflush),
        edit.rxflush == Some(r.rxflush) || (edit.rxflush is None && r.rxflush == fifo.rxflush),
        r.rxuf == fifo.rxuf,
{
}

/// An edit that starts from nothing sets no field of `MODIR`.
pub proof fn law_no_modir_field_is_set_by_none(edit: ModirEdit)
    requires
        call_ensures(ModirEdit::none, (), edit),
    ensures
        edit.txctsc is None,
        edit.txctssrc is None,
        edit.rxrtse is None,
        edit.txctse is None,
{
}

/// A read-modify-write of `MODIR` gives each field that the edit sets its value, and
/// leaves each other field.
pub proof fn law_modir_edit_is_taken_over(modir: Modir, edit: ModirEdit, r: Modir)
    requires
        call_ensures(Modir::modify, (modir, edit), r),
    ensures
        edit.txctsc == Some(r.txctsc) || (edit.txctsc is None && r.txctsc == modir.txctsc),
        edit.txctssrc == Some(r.txctssrc) || (edit.txctssrc is None
            && r.txctssrc == modir.txctssrc),
        edit.rxrtse == Some(r.rxrtse) || (edit.rxrtse is None && r.rxrtse == modir.rxrtse),
        edit.txctse == Some(r.txctse) || (edit.txctse is None && r.txctse == modir.txctse),
{
}

/// An edit that starts from nothing sets no field of `STAT`.
pub proof fn law_no_stat_field_is_set_by_none(edit: StatEdit)
    requires
        call_ensures(StatEdit::none, (), edit),
    ensures
        edit.msbf is None,
{
}

/// A read-modify-write of `STAT` gives each field that the edit sets its value, and
/// leaves each other field.
pub proof fn law_stat_edit_is_taken_over(stat: Stat, edit: StatEdit, r: Stat)
    requires
        call_ensures(Stat::modify, (stat, edit), r),
    ensures
        edit.msbf == Some(r.msbf) || (edit.msbf is None && r.msbf == stat.msbf),
        r.or == stat.or,
        r.pf == stat.pf,
        r.fe == stat.fe,
        r.nf == stat.nf,
        r.rdrf == stat.rdrf,
        r.idle == stat.idle,
        r.raf == stat.raf,
        r.rxedgif == stat.rxedgif,
        r.tc == stat.tc,
{
}

} // verus!
