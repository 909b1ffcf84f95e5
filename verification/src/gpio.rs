//! GPIO pin configuration.
//!
//! A pin number is a compile-time parameter, so a handle for pin 3 can
//! never touch pin 4's bits. Every operation acts on the explicit register
//! file [`crate::regs::GpioRegisters`] and states the exact bits it
//! changes: the per-pin IO-MUX word (function select, pull resistors, input
//! enable, drive strength), the per-pin output-signal selector, and the
//! pin's bit in the shared output, output-enable and input registers.

use vstd::prelude::*;

use crate::regs::GpioRegisters;

verus! {

/// Pull resistor configuration of a pin.
#[derive(Clone, Copy, PartialEq, Eq, Structural, Debug)]
pub enum Pull {
    /// Pull-up resistor.
    Up,
    /// Pull-down resistor.
    Down,
    /// No pull resistor; the pin floats.
    Floating,
}

/// Drive strength of an output pin.
#[derive(Clone, Copy, PartialEq, Eq, Structural, Debug)]
pub enum DriveStrength {
    /// Roughly 5 mA.
    MilliA5,
    /// Roughly 10 mA.
    MilliA10,
    /// Roughly 20 mA.
    MilliA20,
    /// Roughly 40 mA.
    MilliA40,
}

/// The two-bit code an IO-MUX word holds for each drive strength.
pub open spec fn drive_code(d: DriveStrength) -> u32 {
    match d {
        DriveStrength::MilliA5 => 0,
        DriveStrength::MilliA10 => 1,
        DriveStrength::MilliA20 => 2,
        DriveStrength::MilliA40 => 3,
    }
}

/// IO-MUX function selector of a pin.
#[derive(Clone, Copy, PartialEq, Eq, Structural)]
pub(crate) enum GpioFunction {
    Function0,
    Function1,
    Function2,
    Function3,
}

/// The two-bit code an IO-MUX word holds for each function.
pub(crate) open spec fn function_code(f: GpioFunction) -> u32 {
    match f {
        GpioFunction::Function0 => 0,
        GpioFunction::Function1 => 1,
        GpioFunction::Function2 => 2,
        GpioFunction::Function3 => 3,
    }
}

/// The pull bits (pull-down bit 7, pull-up bit 8) an IO-MUX word holds for
/// each pull configuration.
pub open spec fn pull_bits(pull: Pull) -> u32 {
    match pull {
        Pull::Up => 1u32 << 8,
        Pull::Down => 1u32 << 7,
        Pull::Floating => 0u32,
    }
}

/// Function selector field of an IO-MUX word (bits 12..14).
pub open spec fn mux_function(m: u32) -> u32 {
    (m >> 12) & 0b11u32
}

/// Whether an IO-MUX word enables the pull-up resistor (bit 8).
pub open spec fn mux_pull_up(m: u32) -> bool {
    m & (1u32 << 8) != 0
}

/// Whether an IO-MUX word enables the pull-down resistor (bit 7).
pub open spec fn mux_pull_down(m: u32) -> bool {
    m & (1u32 << 7) != 0
}

/// Whether an IO-MUX word enables the input path (bit 9).
pub open spec fn mux_input_enabled(m: u32) -> bool {
    m & (1u32 << 9) != 0
}

/// Drive strength field of an IO-MUX word (bits 10..12).
pub open spec fn mux_drive(m: u32) -> u32 {
    (m >> 10) & 0b11u32
}

/// The IO-MUX word an input pin is configured with: function 1 selected,
/// both pull resistors off, input path enabled, drive strength untouched.
pub open spec fn input_mux_word(m: u32) -> u32 {
    ((((m & !(0b11u32 << 12)) | (1u32 << 12)) & !(0b11u32 << 7)) & !(1u32 << 9)) | (1u32 << 9)
}

/// The IO-MUX word an output pin is configured with: function 1 selected,
/// drive strength 20 mA, input path disabled, pull resistors untouched.
pub open spec fn output_mux_word(m: u32) -> u32 {
    (((((m & !(0b11u32 << 12)) | (1u32 << 12)) & !(0b11u32 << 10)) | (0b10u32 << 10)) & !(1u32
        << 9))
}

/// Raw register access for one pin, shared by the input and output handles.
/// The pin number is the type parameter, so each operation reaches exactly
/// this pin's IO-MUX word, its output-configuration word, or its bit in a
/// shared register.
#[derive(Clone, Copy)]
pub(crate) struct Pin<const S: u32> {}

impl<const S: u32> Pin<S> {
    /// Select the pin's IO-MUX function (bits 12..14), read-modify-write.
    pub(crate) fn set_function(&self, regs: &mut GpioRegisters, function: GpioFunction)
        requires
            S < 22,
            old(regs).wf(),
        ensures
            final(regs).wf(),
            final(regs).io_mux@ == old(regs).io_mux@.update(
                S as int,
                ((old(regs).io_mux@[S as int] & !(0b11u32 << 12)) | (function_code(function)
                    << 12)),
            ),
            final(regs).out_cfg@ == old(regs).out_cfg@,
            final(regs).out == old(regs).out,
            final(regs).out_en == old(regs).out_en,
            final(regs).input == old(regs).input,
    {
        let code: u32 = match function {
            GpioFunction::Function0 => 0,
            GpioFunction::Function1 => 1,
            GpioFunction::Function2 => 2,
            GpioFunction::Function3 => 3,
        };
        let mut io_mux: u32 = regs.io_mux[S as usize];
        io_mux &= !(0b11u32 << 12);
        io_mux |= code << 12;
        regs.io_mux.set(S as usize, io_mux);
    }

    /// Configure the pin's pull resistors (bits 7..9), read-modify-write:
    /// both bits cleared, then the requested one set.
    pub(crate) fn set_pull(&self, regs: &mut GpioRegisters, pull: Pull)
        requires
            S < 22,
            old(regs).wf(),
        ensures
            final(regs).wf(),
            final(regs).io_mux@ == old(regs).io_mux@.update(
                S as int,
                ((old(regs).io_mux@[S as int] & !(0b11u32 << 7)) | pull_bits(pull)),
            ),
            final(regs).out_cfg@ == old(regs).out_cfg@,
            final(regs).out == old(regs).out,
            final(regs).out_en == old(regs).out_en,
            final(regs).input == old(regs).input,
    {
        let mut io_mux: u32 = regs.io_mux[S as usize];
        io_mux &= !(0b11u32 << 7);
        match pull {
            Pull::Up => io_mux |= 0x1u32 << 8,
            Pull::Down => io_mux |= 0x1u32 << 7,
            Pull::Floating => (),
        }
        proof {
            let m: u32 = old(regs).io_mux@[S as int];
            assert(((m & !(0b11u32 << 7)) | 0u32) == (m & !(0b11u32 << 7))) by (bit_vector);
        }
        regs.io_mux.set(S as usize, io_mux);
    }

    /// Enable or disable the pin's input path (bit 9), read-modify-write.
    pub(crate) fn input_enable(&self, regs: &mut GpioRegisters, enable: bool)
        requires
            S < 22,
            old(regs).wf(),
        ensures
            final(regs).wf(),
            final(regs).io_mux@ == old(regs).io_mux@.update(
                S as int,
                ((old(regs).io_mux@[S as int] & !(1u32 << 9)) | (if enable {
                    1u32 << 9
                } else {
                    0u32
                })),
            ),
            final(regs).out_cfg@ == old(regs).out_cfg@,
            final(regs).out == old(regs).out,
            final(regs).out_en == old(regs).out_en,
            final(regs).input == old(regs).input,
    {
        let mut io_mux: u32 = regs.io_mux[S as usize];
        io_mux &= !(0x1u32 << 9);
        let bit: u32 = if enable {
            1u32
        } else {
            0u32
        };
        io_mux |= bit << 9;
        proof {
            let m: u32 = old(regs).io_mux@[S as int];
            assert(((m & !(0x1u32 << 9)) | (0u32 << 9)) == ((m & !(1u32 << 9)) | 0u32) && ((m & !(
            0x1u32 << 9)) | (1u32 << 9)) == ((m & !(1u32 << 9)) | (1u32 << 9))) by (bit_vector);
        }
        regs.io_mux.set(S as usize, io_mux);
    }

    /// Read the pin's bit of the input register.
    pub(crate) fn get_input(&self, regs: &GpioRegisters) -> (r: bool)
        requires
            S < 22,
        ensures
            r == (regs.input & (1u32 << S) != 0),
    {
        (regs.input & (1u32 << S)) > 0
    }

    /// Enable or disable the pin's output driver: one write to the
    /// output-enable set or clear register, which the hardware folds into
    /// the pin's bit of the output-enable register.
    pub(crate) fn output_enable(&self, regs: &mut GpioRegisters, enable: bool)
        requires
            S < 22,
        ensures
            final(regs).out_en == (if enable {
                old(regs).out_en | (1u32 << S)
            } else {
                old(regs).out_en & !(1u32 << S)
            }),
            final(regs).out == old(regs).out,
            final(regs).input == old(regs).input,
            final(regs).io_mux == old(regs).io_mux,
            final(regs).out_cfg == old(regs).out_cfg,
    {
        if enable {
            regs.out_en = regs.out_en | (1u32 << S);
        } else {
            regs.out_en = regs.out_en & !(1u32 << S);
        }
    }

    /// Select which output signal the pin drives (low 8 bits of its
    /// output-configuration word), read-modify-write. Selector 128 routes
    /// the simple GPIO output register to the pin.
    pub(crate) fn output_select(&self, regs: &mut GpioRegisters, select: u8)
        requires
            S < 22,
            select < 129,
            old(regs).wf(),
        ensures
            final(regs).wf(),
            final(regs).out_cfg@ == old(regs).out_cfg@.update(
                S as int,
                ((old(regs).out_cfg@[S as int] & !0xFFu32) | (select as u32)),
            ),
            final(regs).io_mux@ == old(regs).io_mux@,
            final(regs).out == old(regs).out,
            final(regs).out_en == old(regs).out_en,
            final(regs).input == old(regs).input,
    {
        let mut cfg: u32 = regs.out_cfg[S as usize];
        cfg &= !(0xFFu32);
        cfg |= select as u32;
        regs.out_cfg.set(S as usize, cfg);
    }

    /// Drive the pin high or low: one write to the output set or clear
    /// register, which the hardware folds into the pin's bit of the output
    /// register.
    pub(crate) fn set_output(&self, regs: &mut GpioRegisters, high: bool)
        requires
            S < 22,
        ensures
            final(regs).out == (if high {
                old(regs).out | (1u32 << S)
            } else {
                old(regs).out & !(1u32 << S)
            }),
            final(regs).out_en == old(regs).out_en,
            final(regs).input == old(regs).input,
            final(regs).io_mux == old(regs).io_mux,
            final(regs).out_cfg == old(regs).out_cfg,
    {
        if high {
            regs.out = regs.out | (1u32 << S);
        } else {
            regs.out = regs.out & !(1u32 << S);
        }
    }

    /// Read the pin's bit of the output register.
    pub(crate) fn get_output(&self, regs: &GpioRegisters) -> (r: bool)
        requires
            S < 22,
        ensures
            r == (regs.out & (1u32 << S) != 0),
    {
        (regs.out & (1u32 << S)) > 0
    }

    /// Set the pin's drive strength (bits 10..12), read-modify-write.
    pub(crate) fn set_drive_strength(&self, regs: &mut GpioRegisters, drive_strength: DriveStrength)
        requires
            S < 22,
            old(regs).wf(),
        ensures
            final(regs).wf(),
            final(regs).io_mux@ == old(regs).io_mux@.update(
                S as int,
                ((old(regs).io_mux@[S as int] & !(0b11u32 << 10)) | (drive_code(drive_strength)
                    << 10)),
            ),
            final(regs).out_cfg@ == old(regs).out_cfg@,
            final(regs).out == old(regs).out,
            final(regs).out_en == old(regs).out_en,
            final(regs).input == old(regs).input,
    {
        let code: u32 = match drive_strength {
            DriveStrength::MilliA5 => 0,
            DriveStrength::MilliA10 => 1,
            DriveStrength::MilliA20 => 2,
            DriveStrength::MilliA40 => 3,
        };
        let mut io_mux: u32 = regs.io_mux[S as usize];
        io_mux &= !(0b11u32 << 10);
        io_mux |= code << 10;
        regs.io_mux.set(S as usize, io_mux);
    }
}

/// A pin configured as an input: IO-MUX function 1, output driver off,
/// input path on, no pull resistor until [`Input::set_pull`] selects one.
#[derive(Clone, Copy)]
pub struct Input<const S: u32> {
    pin: Pin<S>,
}

impl<const S: u32> Input<S> {
    /// Configure pin `S` as an input: select IO-MUX function 1, disconnect
    /// both pull resistors, disable the output driver and enable the input
    /// path. The drive-strength bits and every other pin are untouched.
    pub fn new(regs: &mut GpioRegisters) -> (r: Input<S>)
        requires
            S < 22,
            old(regs).wf(),
        ensures
            final(regs).wf(),
            final(regs).io_mux@ == old(regs).io_mux@.update(
                S as int,
                input_mux_word(old(regs).io_mux@[S as int]),
            ),
            mux_function(final(regs).io_mux@[S as int]) == 1,
            !mux_pull_up(final(regs).io_mux@[S as int]),
            !mux_pull_down(final(regs).io_mux@[S as int]),
            mux_input_enabled(final(regs).io_mux@[S as int]),
            mux_drive(final(regs).io_mux@[S as int]) == mux_drive(old(regs).io_mux@[S as int]),
            final(regs).out_en == (old(regs).out_en & !(1u32 << S)),
            final(regs).out == old(regs).out,
            final(regs).input == old(regs).input,
            final(regs).out_cfg@ == old(regs).out_cfg@,
    {
        let ghost m0: u32 = old(regs).io_mux@[S as int];
        let pin = Pin {};
        pin.set_function(regs, GpioFunction::Function1);
        pin.set_pull(regs, Pull::Floating);
        pin.output_enable(regs, false);
        pin.input_enable(regs, true);
        proof {
            let m3: u32 = regs.io_mux@[S as int];
            assert(m3 == input_mux_word(m0) && mux_function(m3) == 1 && !mux_pull_up(m3)
                && !mux_pull_down(m3) && mux_input_enabled(m3) && mux_drive(m3) == mux_drive(
                m0,
            )) by (bit_vector)
                requires
                    m3 == (((((m0 & !(0b11u32 << 12)) | (1u32 << 12)) & !(0b11u32 << 7)) | 0u32) & !(
                    1u32 << 9)) | (1u32 << 9),
            ;
            assert(regs.io_mux@ =~= old(regs).io_mux@.update(S as int, input_mux_word(m0)));
        }
        Input { pin }
    }

    /// Select the pin's pull resistor configuration.
    pub fn set_pull(&self, regs: &mut GpioRegisters, pull: Pull)
        requires
            S < 22,
            old(regs).wf(),
        ensures
            final(regs).wf(),
            final(regs).io_mux@ == old(regs).io_mux@.update(
                S as int,
                ((old(regs).io_mux@[S as int] & !(0b11u32 << 7)) | pull_bits(pull)),
            ),
            mux_pull_up(final(regs).io_mux@[S as int]) == (pull == Pull::Up),
            mux_pull_down(final(regs).io_mux@[S as int]) == (pull == Pull::Down),
            final(regs).out_cfg@ == old(regs).out_cfg@,
            final(regs).out == old(regs).out,
            final(regs).out_en == old(regs).out_en,
            final(regs).input == old(regs).input,
    {
        let ghost m0: u32 = old(regs).io_mux@[S as int];
        self.pin.set_pull(regs, pull);
        proof {
            let b: u32 = pull_bits(pull);
            let m1: u32 = regs.io_mux@[S as int];
            assert(mux_pull_up(m1) == (b == (1u32 << 8)) && mux_pull_down(m1) == (b == (1u32 << 7))
                && (1u32 << 8) != (1u32 << 7) && (1u32 << 8) != 0u32 && (1u32 << 7)
                != 0u32) by (bit_vector)
                requires
                    m1 == ((m0 & !(0b11u32 << 7)) | b),
                    b == 0u32 || b == (1u32 << 7) || b == (1u32 << 8),
            ;
        }
    }

    /// Whether the pin currently reads high.
    pub fn is_high(&self, regs: &GpioRegisters) -> (r: bool)
        requires
            S < 22,
        ensures
            r == (regs.input & (1u32 << S) != 0),
    {
        self.pin.get_input(regs)
    }

    /// Whether the pin currently reads low.
    pub fn is_low(&self, regs: &GpioRegisters) -> (r: bool)
        requires
            S < 22,
        ensures
            r == (regs.input & (1u32 << S) == 0),
    {
        !self.pin.get_input(regs)
    }
}

/// A pin configured as an output: IO-MUX function 1, the simple GPIO
/// output register routed to the pin, driver on at 20 mA, initially low.
#[derive(Clone, Copy)]
pub struct Output<const S: u32> {
    pin: Pin<S>,
}

impl<const S: u32> Output<S> {
    /// Configure pin `S` as an output: select IO-MUX function 1, route the
    /// simple GPIO output signal (selector 128) to the pin, set 20 mA
    /// drive strength, drive the pin low, enable the output driver and
    /// disable the input path. The pull bits and every other pin are
    /// untouched.
    pub fn new(regs: &mut GpioRegisters) -> (r: Output<S>)
        requires
            S < 22,
            old(regs).wf(),
        ensures
            final(regs).wf(),
            final(regs).io_mux@ == old(regs).io_mux@.update(
                S as int,
                output_mux_word(old(regs).io_mux@[S as int]),
            ),
            mux_function(final(regs).io_mux@[S as int]) == 1,
            mux_drive(final(regs).io_mux@[S as int]) == 2,
            !mux_input_enabled(final(regs).io_mux@[S as int]),
            mux_pull_up(final(regs).io_mux@[S as int]) == mux_pull_up(
                old(regs).io_mux@[S as int],
            ),
            mux_pull_down(final(regs).io_mux@[S as int]) == mux_pull_down(
                old(regs).io_mux@[S as int],
            ),
            final(regs).out_cfg@ == old(regs).out_cfg@.update(
                S as int,
                ((old(regs).out_cfg@[S as int] & !0xFFu32) | 128u32),
            ),
            (final(regs).out_cfg@[S as int] & 0xFFu32) == 128u32,
            final(regs).out == (old(regs).out & !(1u32 << S)),
            final(regs).out_en == (old(regs).out_en | (1u32 << S)),
            final(regs).input == old(regs).input,
    {
        let ghost m0: u32 = old(regs).io_mux@[S as int];
        let ghost c0: u32 = old(regs).out_cfg@[S as int];
        let pin = Pin {};
        pin.set_function(regs, GpioFunction::Function1);
        pin.output_select(regs, 128);
        pin.set_drive_strength(regs, DriveStrength::MilliA20);
        pin.set_output(regs, false);
        pin.output_enable(regs, true);
        pin.input_enable(regs, false);
        proof {
            let m3: u32 = regs.io_mux@[S as int];
            assert(m3 == output_mux_word(m0) && mux_function(m3) == 1 && mux_drive(m3) == 2
                && !mux_input_enabled(m3) && mux_pull_up(m3) == mux_pull_up(m0) && mux_pull_down(
                m3,
            ) == mux_pull_down(m0)) by (bit_vector)
                requires
                    m3 == ((((((m0 & !(0b11u32 << 12)) | (1u32 << 12)) & !(0b11u32 << 10)) | (2u32
                        << 10)) & !(1u32 << 9)) | 0u32),
            ;
            let c1: u32 = regs.out_cfg@[S as int];
            assert((c1 & 0xFFu32) == 128u32) by (bit_vector)
                requires
                    c1 == ((c0 & !0xFFu32) | 128u32),
            ;
            assert(regs.io_mux@ =~= old(regs).io_mux@.update(S as int, output_mux_word(m0)));
        }
        Output { pin }
    }

    /// Set the pin's drive strength.
    pub fn set_drive_strength(&self, regs: &mut GpioRegisters, drive_strength: DriveStrength)
        requires
            S < 22,
            old(regs).wf(),
        ensures
            final(regs).wf(),
            final(regs).io_mux@ == old(regs).io_mux@.update(
                S as int,
                ((old(regs).io_mux@[S as int] & !(0b11u32 << 10)) | (drive_code(drive_strength)
                    << 10)),
            ),
            mux_drive(final(regs).io_mux@[S as int]) == drive_code(drive_strength),
            final(regs).out_cfg@ == old(regs).out_cfg@,
            final(regs).out == old(regs).out,
            final(regs).out_en == old(regs).out_en,
            final(regs).input == old(regs).input,
    {
        let ghost m0: u32 = old(regs).io_mux@[S as int];
        self.pin.set_drive_strength(regs, drive_strength);
        proof {
            let c: u32 = drive_code(drive_strength);
            let m1: u32 = regs.io_mux@[S as int];
            assert(mux_drive(m1) == c) by (bit_vector)
                requires
                    m1 == ((m0 & !(0b11u32 << 10)) | (c << 10)),
                    c <= 3u32,
            ;
        }
    }

    /// Drive the pin low.
    pub fn set_low(&mut self, regs: &mut GpioRegisters)
        requires
            S < 22,
        ensures
            final(regs).out == (old(regs).out & !(1u32 << S)),
            final(regs).out_en == old(regs).out_en,
            final(regs).input == old(regs).input,
            final(regs).io_mux == old(regs).io_mux,
            final(regs).out_cfg == old(regs).out_cfg,
    {
        self.pin.set_output(regs, false);
    }

    /// Drive the pin high.
    pub fn set_high(&mut self, regs: &mut GpioRegisters)
        requires
            S < 22,
        ensures
            final(regs).out == (old(regs).out | (1u32 << S)),
            final(regs).out_en == old(regs).out_en,
            final(regs).input == old(regs).input,
            final(regs).io_mux == old(regs).io_mux,
            final(regs).out_cfg == old(regs).out_cfg,
    {
        self.pin.set_output(regs, true);
    }

    /// Whether the pin is currently set to drive high.
    pub fn is_set_high(&self, regs: &GpioRegisters) -> (r: bool)
        requires
            S < 22,
        ensures
            r == (regs.out & (1u32 << S) != 0),
    {
        self.pin.get_output(regs)
    }

    /// Whether the pin is currently set to drive low.
    pub fn is_set_low(&self, regs: &GpioRegisters) -> (r: bool)
        requires
            S < 22,
        ensures
            r == (regs.out & (1u32 << S) == 0),
    {
        !self.pin.get_output(regs)
    }
}

} // verus!
