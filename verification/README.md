# mcxa-lpuart

Driver for the LPUART of the MCX A microcontrollers with a core that is verified with
[Verus](https://github.com/verus-lang/verus).

The core, under `src/`, decides and touches no hardware. It

- chooses the oversampling ratio and the divider for a baud rate (`baud`),
- lists the register accesses that bring the peripheral up and shut it down (`sequence`,
  `driver`), over the register fields in `registers`; `effects` shows what they come to,
- interprets the status registers (`status`) and shows them for diagnosis (`snapshot`),
- keeps track of which halves of the driver are alive (`refmask`) and of what was lost on
  the receive side (`counters`),
- sets up pins (`pins`), and holds the configuration (`config`), the errors (`error`) and
  the state of an instance (`state`).

`app/` makes the accesses. It takes the chip's registers, pins and clocks through the
traits of `app/chip.rs`, and adds the traits that generic serial code expects.

Functions whose names start with `law_` state what holds of the core as a whole, such as
that the transceiver is off while it is being configured.
