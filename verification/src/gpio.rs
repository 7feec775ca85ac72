//! API for general purpose I/O (GPIO).
//!
//! The entry point is [`GPIO`], which can be enabled, disabled and freed, and
//! whose token set gates every pin. A pin is used through a [`GpioPin`],
//! whose type parameter fixes its direction, or through a
//! [`DynamicGpioPin`], which tracks its direction with a runtime tag.
//!
//! Every operation's contract states exactly which register strobes it
//! writes, in which order, and what the level register reads afterwards. The
//! laws at the end of the module state the ordering guarantees that make
//! direction changes glitch-free and repeated switches cheap.

use vstd::prelude::*;

use crate::bits;
use crate::direction::{Direction, Dynamic, DynamicPinErr, Input, Output};
use crate::init_state::{Disabled, Enabled};
use crate::pins::{DynamicPinDirection, PinId, Token, Tokens};
use crate::registers::{write_applied, writes_only_port, Registers, WriteOp, WriteRecord};

verus! {

/// The voltage level of a pin.
#[derive(Clone, Copy, PartialEq, Eq, Structural, Debug)]
pub enum Level {
    /// High voltage.
    High,
    /// Low voltage.
    Low,
}

/// The clock-gating capability for the GPIO peripheral. Enabling the
/// peripheral turns this clock on; disabling turns it off.
pub struct ClockGate {
    on: bool,
}

impl ClockGate {
    /// Whether the peripheral clock is running.
    pub closed spec fn is_on(&self) -> bool {
        self.on
    }

    /// A gate in its reset state: clock stopped.
    pub fn new() -> (c: ClockGate)
        ensures
            !c.is_on(),
    {
        ClockGate { on: false }
    }

    /// Whether the peripheral clock is running, for callers outside the
    /// proof.
    pub fn is_enabled(&self) -> (r: bool)
        ensures
            r == self.is_on(),
    {
        self.on
    }

    pub(crate) fn enable_clock(&mut self)
        ensures
            final(self).is_on(),
    {
        self.on = true;
    }

    pub(crate) fn disable_clock(&mut self)
        ensures
            !final(self).is_on(),
    {
        self.on = false;
    }
}

/// Interface to the GPIO peripheral.
///
/// Controls enabling and disabling of the peripheral and issues the per-pin
/// capability tokens. Because `enable` and `disable` consume the whole
/// interface, and `disable` demands the token set to be complete, no pin can
/// be in use as a GPIO pin when the peripheral is turned off.
pub struct GPIO<State> {
    /// Tokens representing all pins.
    ///
    /// Any token that has been taken out while the peripheral was enabled
    /// prevents the peripheral from being disabled, until it is given back.
    pub tokens: Tokens<State>,
}

impl GPIO<Disabled> {
    /// A disabled GPIO peripheral covering `num_ports` ports, with its full
    /// token set. Create one per device.
    pub fn new(num_ports: usize) -> (g: GPIO<Disabled>)
        requires
            num_ports * 32 <= usize::MAX,
        ensures
            g.tokens.num_ports() == num_ports,
            g.tokens.wf(),
            g.tokens.complete(),
    {
        GPIO { tokens: Tokens::new_complete(num_ports, Disabled) }
    }

    /// Enable the GPIO peripheral: start its clock and make the pin tokens
    /// available. Consumes this instance and returns an enabled one.
    pub fn enable(self, syscon: &mut ClockGate) -> (g: GPIO<Enabled>)
        ensures
            final(syscon).is_on(),
            g.tokens.num_ports() == self.tokens.num_ports(),
            g.tokens.wf() == self.tokens.wf(),
            forall|p: int, b: int|
                #![trigger g.tokens.has_token(p, b)]
                0 <= p < self.tokens.num_ports() && 0 <= b < 32 ==> g.tokens.has_token(p, b)
                    == self.tokens.has_token(p, b),
    {
        syscon.enable_clock();
        GPIO { tokens: self.tokens.switch_state() }
    }
}

impl GPIO<Enabled> {
    /// Disable the GPIO peripheral and stop its clock. Only a peripheral
    /// whose token set is complete can be disabled: a pin still held as a
    /// handle keeps its token out and makes this call unverifiable.
    pub fn disable(self, syscon: &mut ClockGate) -> (g: GPIO<Disabled>)
        requires
            self.tokens.wf(),
            self.tokens.complete(),
        ensures
            !final(syscon).is_on(),
            g.tokens.num_ports() == self.tokens.num_ports(),
            g.tokens.wf(),
            g.tokens.complete(),
    {
        syscon.disable_clock();
        GPIO { tokens: self.tokens.switch_state() }
    }
}

impl<State> GPIO<State> {
    /// Escape hatch: dissolve the interface and return the raw token set,
    /// without limitations imposed by this API.
    pub fn free(self) -> (t: Tokens<State>)
        ensures
            t == self.tokens,
    {
        self.tokens
    }
}

/// The strobe a level write of `level` goes through.
pub open spec fn level_write_op(level: Level) -> WriteOp {
    match level {
        Level::High => WriteOp::OutSet,
        Level::Low => WriteOp::OutClr,
    }
}

/// The log record of writing `level` to pin `id`'s output latch.
pub open spec fn level_write_rec(id: PinId, level: Level) -> WriteRecord {
    WriteRecord { op: level_write_op(level), port: id.port, mask: id.mask }
}

/// The log record of setting pin `id`'s direction bit.
pub open spec fn dirset_rec(id: PinId) -> WriteRecord {
    WriteRecord { op: WriteOp::DirSet, port: id.port, mask: id.mask }
}

/// The log record of clearing pin `id`'s direction bit.
pub open spec fn dirclr_rec(id: PinId) -> WriteRecord {
    WriteRecord { op: WriteOp::DirClr, port: id.port, mask: id.mask }
}

/// The log record of toggling pin `id`'s output latch.
pub open spec fn toggle_rec(id: PinId) -> WriteRecord {
    WriteRecord { op: WriteOp::OutNot, port: id.port, mask: id.mask }
}

/// What pin `id`'s output latch holds after `level` is written to it.
pub open spec fn level_latch(out: u32, mask: u32, level: Level) -> u32 {
    match level {
        Level::High => out | mask,
        Level::Low => out & !mask,
    }
}

/// Exactly one level write to pin `id`.
pub open spec fn level_written(pre: Registers, post: Registers, id: PinId, level: Level) -> bool {
    write_applied(pre, post, level_write_rec(id, level))
}

/// An ordered transition of pin `id` to output: first the level write, so
/// the latch is correct before the pin starts driving, then the direction
/// write.
pub open spec fn to_output_applied(
    pre: Registers,
    post: Registers,
    id: PinId,
    level: Level,
) -> bool {
    let p = id.port as int;
    &&& writes_only_port(pre, post, p)
    &&& post.port_dir(p) == pre.port_dir(p) | id.mask
    &&& post.port_out(p) == level_latch(pre.port_out(p), id.mask, level)
    &&& post.log() == pre.log().push(level_write_rec(id, level)).push(dirset_rec(id))
}

/// A transition of pin `id` to input: one direction-clear write. No level
/// write is needed, since input mode ignores the output latch.
pub open spec fn to_input_applied(pre: Registers, post: Registers, id: PinId) -> bool {
    write_applied(pre, post, dirclr_rec(id))
}

/// A transition of pin `id` to dynamic mode: first the level write, then the
/// direction write that the requested direction dictates.
pub open spec fn to_dynamic_applied(
    pre: Registers,
    post: Registers,
    id: PinId,
    level: Level,
    dir: DynamicPinDirection,
) -> bool {
    let p = id.port as int;
    &&& writes_only_port(pre, post, p)
    &&& post.port_out(p) == level_latch(pre.port_out(p), id.mask, level)
    &&& match dir {
        DynamicPinDirection::Output => post.port_dir(p) == pre.port_dir(p) | id.mask
            && post.log() == pre.log().push(level_write_rec(id, level)).push(dirset_rec(id)),
        DynamicPinDirection::Input => post.port_dir(p) == pre.port_dir(p) & !id.mask && post.log()
            == pre.log().push(level_write_rec(id, level)).push(dirclr_rec(id)),
    }
}

/// What switching a dynamic pin to output does: the level is always written;
/// the direction bit is written only if the pin was an input, so a pin that
/// already drives its line sees no direction write.
pub open spec fn dyn_to_output_applied(
    pre: Registers,
    post: Registers,
    id: PinId,
    was_output: bool,
    level: Level,
) -> bool {
    if was_output {
        level_written(pre, post, id, level)
    } else {
        to_output_applied(pre, post, id, level)
    }
}

/// What switching a dynamic pin to input does: nothing if it already is one,
/// else one direction-clear write.
pub open spec fn dyn_to_input_applied(
    pre: Registers,
    post: Registers,
    id: PinId,
    was_output: bool,
) -> bool {
    if was_output {
        write_applied(pre, post, dirclr_rec(id))
    } else {
        post == pre
    }
}

pub(crate) fn set_high(registers: &mut Registers, id: PinId)
    requires
        (id.port as int) < old(registers).num_ports(),
    ensures
        level_written(*old(registers), *final(registers), id, Level::High),
{
    registers.write_set(id.port, id.mask);
}

pub(crate) fn set_low(registers: &mut Registers, id: PinId)
    requires
        (id.port as int) < old(registers).num_ports(),
    ensures
        level_written(*old(registers), *final(registers), id, Level::Low),
{
    registers.write_clr(id.port, id.mask);
}

pub(crate) fn is_high(registers: &Registers, id: PinId) -> (r: bool)
    requires
        (id.port as int) < registers.num_ports(),
    ensures
        r == registers.observed_high(id.port as int, id.mask),
{
    registers.read_pin(id.port) & id.mask == id.mask
}

// For internal use only: the direction helpers of the pin handles keep the
// handle's tag in step with this write.
pub(crate) fn set_direction_output(registers: &mut Registers, id: PinId)
    requires
        (id.port as int) < old(registers).num_ports(),
    ensures
        write_applied(*old(registers), *final(registers), dirset_rec(id)),
{
    registers.write_dirset(id.port, id.mask);
}

// For internal use only, as `set_direction_output`.
pub(crate) fn set_direction_input(registers: &mut Registers, id: PinId)
    requires
        (id.port as int) < old(registers).num_ports(),
    ensures
        write_applied(*old(registers), *final(registers), dirclr_rec(id)),
{
    registers.write_dirclr(id.port, id.mask);
}

/// Writes `level` to pin `id`'s latch and then makes it an output, as one
/// ordered pair of register writes.
fn switch_to_output_writes(registers: &mut Registers, id: PinId, level: Level)
    requires
        (id.port as int) < old(registers).num_ports(),
    ensures
        to_output_applied(*old(registers), *final(registers), id, level),
{
    match level {
        Level::High => set_high(registers, id),
        Level::Low => set_low(registers, id),
    }
    set_direction_output(registers, id);
}

/// Writes `level` to pin `id`'s latch and then the direction bit that the
/// requested direction dictates, as one ordered pair of register writes.
fn switch_to_dynamic_writes(
    registers: &mut Registers,
    id: PinId,
    level: Level,
    dir: DynamicPinDirection,
)
    requires
        (id.port as int) < old(registers).num_ports(),
    ensures
        to_dynamic_applied(*old(registers), *final(registers), id, level, dir),
{
    match level {
        Level::High => set_high(registers, id),
        Level::Low => set_low(registers, id),
    }
    match dir {
        DynamicPinDirection::Output => set_direction_output(registers, id),
        DynamicPinDirection::Input => set_direction_input(registers, id),
    }
}

/// Toggling the output latch of a pin that drives its line flips the level
/// it reads back.
pub proof fn lemma_toggle_observed(pre: Registers, post: Registers, id: PinId)
    requires
        write_applied(pre, post, toggle_rec(id)),
        id.wf(),
        (id.port as int) < pre.num_ports(),
        pre.dir_set(id.port as int, id.mask),
    ensures
        post.dir_set(id.port as int, id.mask),
        post.observed_high(id.port as int, id.mask) == !pre.observed_high(id.port as int, id.mask),
{
    let p = id.port as int;
    let m = id.mask;
    let b = choose|b: u32| b < 32 && m == (1u32 << b);
    bits::lemma_single_bit_nonzero(b);
    bits::lemma_mux_reads_output(pre.port_dir(p), pre.port_out(p), pre.port_ext(p), m);
    bits::lemma_mux_reads_output(post.port_dir(p), post.port_out(p), post.port_ext(p), m);
    bits::lemma_xor_flips(pre.port_out(p), b);
    bits::lemma_single_bit_dichotomy(pre.port_out(p), b);
}

/// No glitch: after an ordered transition of pin `id` to output, the last
/// two logged writes are the level write followed by the direction write,
/// and the level register reads back exactly the requested level before any
/// further write.
pub proof fn lemma_no_glitch(pre: Registers, post: Registers, id: PinId, level: Level)
    requires
        to_output_applied(pre, post, id, level),
        id.wf(),
        (id.port as int) < pre.num_ports(),
    ensures
        post.log().len() == pre.log().len() + 2,
        post.log()[post.log().len() - 2] == level_write_rec(id, level),
        post.log()[post.log().len() - 1] == dirset_rec(id),
        post.dir_set(id.port as int, id.mask),
        post.observed_high(id.port as int, id.mask) == (level == Level::High),
{
    let p = id.port as int;
    let m = id.mask;
    let b = choose|b: u32| b < 32 && m == (1u32 << b);
    bits::lemma_single_bit_nonzero(b);
    bits::lemma_or_sets(pre.port_dir(p), m);
    bits::lemma_mux_reads_output(post.port_dir(p), post.port_out(p), post.port_ext(p), m);
    match level {
        Level::High => {
            bits::lemma_or_sets(pre.port_out(p), m);
        },
        Level::Low => {
            bits::lemma_andnot_clears(pre.port_out(p), m);
        },
    }
}

/// A pin used for general purpose I/O.
///
/// The handle owns the pin's capability token, so no second handle for the
/// same pin can exist while this one lives, and its type parameter fixes the
/// pin's direction. Its well-formedness ties that direction to the pin's
/// actual direction-register bit: every transition consumes the handle,
/// updates the register and returns a handle of the new direction.
///
/// Operations read or write the shared register block, which they take as an
/// explicit argument; they touch only this pin's bit, so handles to other
/// pins are unaffected (see `lemma_write_isolation`).
pub struct GpioPin<D: Direction> {
    token: Token,
    direction: D,
}

impl<D: Direction> GpioPin<D> {
    /// The capability token the handle owns.
    pub closed spec fn token(&self) -> Token {
        self.token
    }

    /// The identity of the pin.
    pub open spec fn id(&self) -> PinId {
        self.token().id()
    }

    /// The pin's port index, for callers outside the proof.
    pub fn port(&self) -> (p: usize)
        ensures
            p == self.id().port,
    {
        self.token.port()
    }

    /// The pin's single-bit mask, for callers outside the proof.
    pub fn mask(&self) -> (m: u32)
        ensures
            m == self.id().mask,
    {
        self.token.mask()
    }

    /// Release the pin and recover its capability token, so that it can be
    /// given back to the peripheral's token set.
    pub fn free(self) -> (t: Token)
        ensures
            t == self.token(),
    {
        self.token
    }
}

impl GpioPin<Input> {
    /// The handle is valid for `regs`: its token is consistent, its port
    /// exists, and the pin's direction bit is clear, as input direction
    /// demands.
    pub open spec fn wf(self, regs: Registers) -> bool {
        &&& self.token().wf()
        &&& self.id().wf()
        &&& self.id().in_range(regs.num_ports())
        &&& regs.dir_clear(self.id().port as int, self.id().mask)
    }

    /// Consume a pin's capability token and configure the pin for input,
    /// with one direction-clear write.
    pub fn new(token: Token, registers: &mut Registers) -> (pin: GpioPin<Input>)
        requires
            token.wf(),
            token.id().in_range(old(registers).num_ports()),
        ensures
            pin.token() == token,
            to_input_applied(*old(registers), *final(registers), token.id()),
            pin.wf(*final(registers)),
    {
        let id = token.pin_id();
        set_direction_input(registers, id);
        proof {
            bits::lemma_andnot_clears(old(registers).port_dir(id.port as int), id.mask);
        }
        GpioPin { token, direction: Input(()) }
    }

    /// Set pin direction to output, with the ordered level-then-direction
    /// write pair, so the line never shows a level other than `initial`.
    ///
    /// Consumes this instance and returns one in output mode.
    pub fn into_output(self, initial: Level, registers: &mut Registers) -> (pin: GpioPin<Output>)
        requires
            self.wf(*old(registers)),
        ensures
            pin.token() == self.token(),
            to_output_applied(*old(registers), *final(registers), self.id(), initial),
            pin.wf(*final(registers)),
            final(registers).observed_high(self.id().port as int, self.id().mask) == (initial
                == Level::High),
    {
        let id = self.token.pin_id();
        switch_to_output_writes(registers, id, initial);
        proof {
            lemma_no_glitch(*old(registers), *registers, id, initial);
        }
        GpioPin { token: self.token, direction: Output(()) }
    }

    /// Set pin direction to dynamic, that is changeable at run time, with
    /// the same ordered write pair.
    ///
    /// Consumes this instance and returns one in dynamic mode.
    pub fn into_dynamic(
        self,
        initial_level: Level,
        initial_direction: DynamicPinDirection,
        registers: &mut Registers,
    ) -> (pin: GpioPin<Dynamic>)
        requires
            self.wf(*old(registers)),
        ensures
            pin.token() == self.token(),
            pin.current_direction() == initial_direction,
            to_dynamic_applied(
                *old(registers),
                *final(registers),
                self.id(),
                initial_level,
                initial_direction,
            ),
            pin.wf(*final(registers)),
    {
        let id = self.token.pin_id();
        switch_to_dynamic_writes(registers, id, initial_level, initial_direction);
        proof {
            lemma_dynamic_switch(*old(registers), *registers, id, initial_level, initial_direction);
        }
        GpioPin { token: self.token, direction: Dynamic { current_direction: initial_direction } }
    }

    /// Indicates whether the pin input is high: the level register shows the
    /// externally sensed level, since the pin is an input.
    pub fn is_high(&self, registers: &Registers) -> (r: bool)
        requires
            self.wf(*registers),
        ensures
            r == registers.observed_high(self.id().port as int, self.id().mask),
            r == (registers.port_ext(self.id().port as int) & self.id().mask == self.id().mask),
    {
        let id = self.token.pin_id();
        proof {
            let p = id.port as int;
            bits::lemma_mux_reads_external(
                registers.port_dir(p),
                registers.port_out(p),
                registers.port_ext(p),
                id.mask,
            );
        }
        is_high(registers, id)
    }

    /// Indicates whether the pin input is low.
    pub fn is_low(&self, registers: &Registers) -> (r: bool)
        requires
            self.wf(*registers),
        ensures
            r == !registers.observed_high(self.id().port as int, self.id().mask),
    {
        !self.is_high(registers)
    }
}

impl GpioPin<Output> {
    /// The handle is valid for `regs`: its token is consistent, its port
    /// exists, and the pin's direction bit is set, as output direction
    /// demands.
    pub open spec fn wf(self, regs: Registers) -> bool {
        &&& self.token().wf()
        &&& self.id().wf()
        &&& self.id().in_range(regs.num_ports())
        &&& regs.dir_set(self.id().port as int, self.id().mask)
    }

    /// Consume a pin's capability token and configure the pin for output
    /// driving `initial`, with the ordered level-then-direction write pair.
    pub fn new(token: Token, initial: Level, registers: &mut Registers) -> (pin: GpioPin<Output>)
        requires
            token.wf(),
            token.id().in_range(old(registers).num_ports()),
        ensures
            pin.token() == token,
            to_output_applied(*old(registers), *final(registers), token.id(), initial),
            pin.wf(*final(registers)),
            final(registers).observed_high(token.id().port as int, token.id().mask) == (initial
                == Level::High),
    {
        let id = token.pin_id();
        switch_to_output_writes(registers, id, initial);
        proof {
            lemma_no_glitch(*old(registers), *registers, id, initial);
        }
        GpioPin { token, direction: Output(()) }
    }

    /// Set pin direction to input, with one direction-clear write. No level
    /// write is needed, since input mode ignores the output latch.
    ///
    /// Consumes this instance and returns one in input mode.
    pub fn into_input(self, registers: &mut Registers) -> (pin: GpioPin<Input>)
        requires
            self.wf(*old(registers)),
        ensures
            pin.token() == self.token(),
            to_input_applied(*old(registers), *final(registers), self.id()),
            pin.wf(*final(registers)),
    {
        let id = self.token.pin_id();
        set_direction_input(registers, id);
        proof {
            bits::lemma_andnot_clears(old(registers).port_dir(id.port as int), id.mask);
        }
        GpioPin { token: self.token, direction: Input(()) }
    }

    /// Set pin direction to dynamic, that is changeable at run time, with
    /// the ordered level-then-direction write pair.
    ///
    /// Consumes this instance and returns one in dynamic mode.
    pub fn into_dynamic(
        self,
        initial_level: Level,
        initial_direction: DynamicPinDirection,
        registers: &mut Registers,
    ) -> (pin: GpioPin<Dynamic>)
        requires
            self.wf(*old(registers)),
        ensures
            pin.token() == self.token(),
            pin.current_direction() == initial_direction,
            to_dynamic_applied(
                *old(registers),
                *final(registers),
                self.id(),
                initial_level,
                initial_direction,
            ),
            pin.wf(*final(registers)),
    {
        let id = self.token.pin_id();
        switch_to_dynamic_writes(registers, id, initial_level, initial_direction);
        proof {
            lemma_dynamic_switch(*old(registers), *registers, id, initial_level, initial_direction);
        }
        GpioPin { token: self.token, direction: Dynamic { current_direction: initial_direction } }
    }

    /// Set the pin output to high: one output-set write. The level register
    /// reads the driven level back.
    pub fn set_high(&mut self, registers: &mut Registers)
        requires
            old(self).wf(*old(registers)),
        ensures
            *final(self) == *old(self),
            level_written(*old(registers), *final(registers), old(self).id(), Level::High),
            final(self).wf(*final(registers)),
            final(registers).observed_high(old(self).id().port as int, old(self).id().mask),
    {
        let id = self.token.pin_id();
        set_high(registers, id);
        proof {
            let p = id.port as int;
            bits::lemma_or_sets(old(registers).port_out(p), id.mask);
            bits::lemma_mux_reads_output(
                registers.port_dir(p),
                registers.port_out(p),
                registers.port_ext(p),
                id.mask,
            );
        }
    }

    /// Set the pin output to low: one output-clear write.
    pub fn set_low(&mut self, registers: &mut Registers)
        requires
            old(self).wf(*old(registers)),
        ensures
            *final(self) == *old(self),
            level_written(*old(registers), *final(registers), old(self).id(), Level::Low),
            final(self).wf(*final(registers)),
            !final(registers).observed_high(old(self).id().port as int, old(self).id().mask),
    {
        let id = self.token.pin_id();
        set_low(registers, id);
        proof {
            let p = id.port as int;
            let b = choose|b: u32| b < 32 && id.mask == (1u32 << b);
            bits::lemma_single_bit_nonzero(b);
            bits::lemma_andnot_clears(old(registers).port_out(p), id.mask);
            bits::lemma_mux_reads_output(
                registers.port_dir(p),
                registers.port_out(p),
                registers.port_ext(p),
                id.mask,
            );
        }
    }

    /// Indicates whether the pin output is currently set to high: the level
    /// register shows the driven latch, since the pin is an output.
    pub fn is_set_high(&self, registers: &Registers) -> (r: bool)
        requires
            self.wf(*registers),
        ensures
            r == registers.observed_high(self.id().port as int, self.id().mask),
            r == registers.out_set(self.id().port as int, self.id().mask),
    {
        let id = self.token.pin_id();
        proof {
            let p = id.port as int;
            bits::lemma_mux_reads_output(
                registers.port_dir(p),
                registers.port_out(p),
                registers.port_ext(p),
                id.mask,
            );
        }
        is_high(registers, id)
    }

    /// Indicates whether the pin output is currently set to low.
    pub fn is_set_low(&self, registers: &Registers) -> (r: bool)
        requires
            self.wf(*registers),
        ensures
            r == !registers.observed_high(self.id().port as int, self.id().mask),
    {
        !self.is_set_high(registers)
    }

    /// Toggle the pin output through the dedicated toggle strobe, so the
    /// flip cannot race a concurrent read-modify-write: there is none.
    /// Toggling twice restores the observed level (see
    /// `lemma_toggle_involution`).
    pub fn toggle(&mut self, registers: &mut Registers)
        requires
            old(self).wf(*old(registers)),
        ensures
            *final(self) == *old(self),
            write_applied(*old(registers), *final(registers), toggle_rec(old(self).id())),
            final(self).wf(*final(registers)),
            final(registers).observed_high(old(self).id().port as int, old(self).id().mask) == !old(
                registers,
            ).observed_high(old(self).id().port as int, old(self).id().mask),
    {
        let id = self.token.pin_id();
        registers.write_not(id.port, id.mask);
        proof {
            lemma_toggle_observed(*old(registers), *registers, id);
        }
    }
}

/// After a transition of pin `id` to dynamic mode, the direction bit matches
/// the requested tag, and a pin made an output reads back its level.
pub proof fn lemma_dynamic_switch(
    pre: Registers,
    post: Registers,
    id: PinId,
    level: Level,
    dir: DynamicPinDirection,
)
    requires
        to_dynamic_applied(pre, post, id, level, dir),
        id.wf(),
        (id.port as int) < pre.num_ports(),
    ensures
        dir == DynamicPinDirection::Output ==> post.dir_set(id.port as int, id.mask)
            && post.observed_high(id.port as int, id.mask) == (level == Level::High),
        dir == DynamicPinDirection::Input ==> post.dir_clear(id.port as int, id.mask),
{
    let p = id.port as int;
    let m = id.mask;
    match dir {
        DynamicPinDirection::Output => {
            assert(to_output_applied(pre, post, id, level));
            lemma_no_glitch(pre, post, id, level);
        },
        DynamicPinDirection::Input => {
            bits::lemma_andnot_clears(pre.port_dir(p), m);
        },
    }
}

impl GpioPin<Dynamic> {
    /// The pin's current electrical direction, as the handle tracks it.
    pub closed spec fn current_direction(&self) -> DynamicPinDirection {
        self.direction.current_direction
    }

    /// The handle is valid for `regs`: its token is consistent, its port
    /// exists, and the pin's direction bit agrees with the runtime tag.
    pub open spec fn wf(self, regs: Registers) -> bool {
        &&& self.token().wf()
        &&& self.id().wf()
        &&& self.id().in_range(regs.num_ports())
        &&& match self.current_direction() {
            DynamicPinDirection::Output => regs.dir_set(self.id().port as int, self.id().mask),
            DynamicPinDirection::Input => regs.dir_clear(self.id().port as int, self.id().mask),
        }
    }

    /// Consume a pin's capability token and configure the pin for dynamic
    /// use, with the ordered level-then-direction write pair.
    pub fn new(
        token: Token,
        initial_level: Level,
        initial_direction: DynamicPinDirection,
        registers: &mut Registers,
    ) -> (pin: GpioPin<Dynamic>)
        requires
            token.wf(),
            token.id().in_range(old(registers).num_ports()),
        ensures
            pin.token() == token,
            pin.current_direction() == initial_direction,
            to_dynamic_applied(
                *old(registers),
                *final(registers),
                token.id(),
                initial_level,
                initial_direction,
            ),
            pin.wf(*final(registers)),
    {
        let id = token.pin_id();
        switch_to_dynamic_writes(registers, id, initial_level, initial_direction);
        proof {
            lemma_dynamic_switch(*old(registers), *registers, id, initial_level, initial_direction);
        }
        GpioPin { token, direction: Dynamic { current_direction: initial_direction } }
    }

    /// Whether this pin's direction is currently set to output.
    pub fn direction_is_output(&self) -> (r: bool)
        ensures
            r == (self.current_direction() == DynamicPinDirection::Output),
    {
        self.direction.current_direction == DynamicPinDirection::Output
    }

    /// Whether this pin's direction is currently set to input.
    pub fn direction_is_input(&self) -> (r: bool)
        ensures
            r == (self.current_direction() == DynamicPinDirection::Input),
    {
        !self.direction_is_output()
    }

    /// Switch pin direction to input. If the pin is already an input pin,
    /// this does nothing: no register is written.
    pub fn switch_to_input(&mut self, registers: &mut Registers)
        requires
            old(self).wf(*old(registers)),
        ensures
            final(self).token() == old(self).token(),
            final(self).current_direction() == DynamicPinDirection::Input,
            dyn_to_input_applied(
                *old(registers),
                *final(registers),
                old(self).id(),
                old(self).current_direction() == DynamicPinDirection::Output,
            ),
            final(self).wf(*final(registers)),
    {
        if self.direction.current_direction == DynamicPinDirection::Input {
            return ;
        }
        let id = self.token.pin_id();
        set_direction_input(registers, id);
        proof {
            bits::lemma_andnot_clears(old(registers).port_dir(id.port as int), id.mask);
        }
        self.direction.current_direction = DynamicPinDirection::Input;
    }

    /// Switch pin direction to output with the output level set to `level`.
    /// The level is always written first; the direction bit is written only
    /// if the pin was an input, so a pin already in output mode sees no
    /// redundant direction write.
    pub fn switch_to_output(&mut self, level: Level, registers: &mut Registers)
        requires
            old(self).wf(*old(registers)),
        ensures
            final(self).token() == old(self).token(),
            final(self).current_direction() == DynamicPinDirection::Output,
            dyn_to_output_applied(
                *old(registers),
                *final(registers),
                old(self).id(),
                old(self).current_direction() == DynamicPinDirection::Output,
                level,
            ),
            final(self).wf(*final(registers)),
            final(registers).observed_high(old(self).id().port as int, old(self).id().mask) == (
            level == Level::High),
    {
        let id = self.token.pin_id();
        // First set the output level, before the mode can change.
        match level {
            Level::High => set_high(registers, id),
            Level::Low => set_low(registers, id),
        }
        if self.direction.current_direction == DynamicPinDirection::Output {
            proof {
                let p = id.port as int;
                let b = choose|b: u32| b < 32 && id.mask == (1u32 << b);
                bits::lemma_single_bit_nonzero(b);
                match level {
                    Level::High => {
                        bits::lemma_or_sets(old(registers).port_out(p), id.mask);
                    },
                    Level::Low => {
                        bits::lemma_andnot_clears(old(registers).port_out(p), id.mask);
                    },
                }
                bits::lemma_mux_reads_output(
                    registers.port_dir(p),
                    registers.port_out(p),
                    registers.port_ext(p),
                    id.mask,
                );
            }
            return ;
        }
        set_direction_output(registers, id);
        self.direction.current_direction = DynamicPinDirection::Output;
        proof {
            lemma_no_glitch(*old(registers), *registers, id, level);
        }
    }

    /// Set the pin level to high, regardless of the current direction. This
    /// lets a level be preset before the pin switches to output.
    pub fn set_high(&mut self, registers: &mut Registers)
        requires
            old(self).wf(*old(registers)),
        ensures
            *final(self) == *old(self),
            level_written(*old(registers), *final(registers), old(self).id(), Level::High),
            final(self).wf(*final(registers)),
    {
        let id = self.token.pin_id();
        set_high(registers, id);
    }

    /// Set the pin level to low, regardless of the current direction. This
    /// lets a level be preset before the pin switches to output.
    pub fn set_low(&mut self, registers: &mut Registers)
        requires
            old(self).wf(*old(registers)),
        ensures
            *final(self) == *old(self),
            level_written(*old(registers), *final(registers), old(self).id(), Level::Low),
            final(self).wf(*final(registers)),
    {
        let id = self.token.pin_id();
        set_low(registers, id);
    }

    /// Indicates whether the voltage at this pin is currently high,
    /// whichever direction it has: the driven level for an output, the
    /// sensed level for an input.
    pub fn is_high(&self, registers: &Registers) -> (r: bool)
        requires
            self.wf(*registers),
        ensures
            r == registers.observed_high(self.id().port as int, self.id().mask),
    {
        is_high(registers, self.token.pin_id())
    }

    /// Indicates whether the voltage at this pin is currently low, whichever
    /// direction it has.
    pub fn is_low(&self, registers: &Registers) -> (r: bool)
        requires
            self.wf(*registers),
        ensures
            r == !registers.observed_high(self.id().port as int, self.id().mask),
    {
        !self.is_high(registers)
    }

    /// Set the pin output to high, checked against the current direction:
    /// a pin currently sensing its line refuses with `WrongDirection` and
    /// writes nothing.
    pub fn try_set_high(&mut self, registers: &mut Registers) -> (r: Result<(), DynamicPinErr>)
        requires
            old(self).wf(*old(registers)),
        ensures
            *final(self) == *old(self),
            final(self).wf(*final(registers)),
            old(self).current_direction() == DynamicPinDirection::Output ==> r == Ok::<
                (),
                DynamicPinErr,
            >(()) && level_written(
                *old(registers),
                *final(registers),
                old(self).id(),
                Level::High,
            ),
            old(self).current_direction() == DynamicPinDirection::Input ==> r == Err::<
                (),
                DynamicPinErr,
            >(DynamicPinErr::WrongDirection) && *final(registers) == *old(registers),
    {
        match self.direction.current_direction {
            DynamicPinDirection::Output => {
                self.set_high(registers);
                Ok(())
            },
            DynamicPinDirection::Input => Err(DynamicPinErr::WrongDirection),
        }
    }

    /// Set the pin output to low, checked against the current direction, as
    /// `try_set_high`.
    pub fn try_set_low(&mut self, registers: &mut Registers) -> (r: Result<(), DynamicPinErr>)
        requires
            old(self).wf(*old(registers)),
        ensures
            *final(self) == *old(self),
            final(self).wf(*final(registers)),
            old(self).current_direction() == DynamicPinDirection::Output ==> r == Ok::<
                (),
                DynamicPinErr,
            >(()) && level_written(*old(registers), *final(registers), old(self).id(), Level::Low),
            old(self).current_direction() == DynamicPinDirection::Input ==> r == Err::<
                (),
                DynamicPinErr,
            >(DynamicPinErr::WrongDirection) && *final(registers) == *old(registers),
    {
        match self.direction.current_direction {
            DynamicPinDirection::Output => {
                self.set_low(registers);
                Ok(())
            },
            DynamicPinDirection::Input => Err(DynamicPinErr::WrongDirection),
        }
    }

    /// Read the driven level back, checked against the current direction: a
    /// pin currently sensing its line refuses with `WrongDirection`.
    pub fn try_is_set_high(&self, registers: &Registers) -> (r: Result<bool, DynamicPinErr>)
        requires
            self.wf(*registers),
        ensures
            self.current_direction() == DynamicPinDirection::Output ==> r == Ok::<
                bool,
                DynamicPinErr,
            >(registers.observed_high(self.id().port as int, self.id().mask)),
            self.current_direction() == DynamicPinDirection::Input ==> r == Err::<
                bool,
                DynamicPinErr,
            >(DynamicPinErr::WrongDirection),
    {
        match self.direction.current_direction {
            DynamicPinDirection::Output => Ok(self.is_high(registers)),
            DynamicPinDirection::Input => Err(DynamicPinErr::WrongDirection),
        }
    }

    /// Read the driven level back, negated, checked as `try_is_set_high`.
    pub fn try_is_set_low(&self, registers: &Registers) -> (r: Result<bool, DynamicPinErr>)
        requires
            self.wf(*registers),
        ensures
            self.current_direction() == DynamicPinDirection::Output ==> r == Ok::<
                bool,
                DynamicPinErr,
            >(!registers.observed_high(self.id().port as int, self.id().mask)),
            self.current_direction() == DynamicPinDirection::Input ==> r == Err::<
                bool,
                DynamicPinErr,
            >(DynamicPinErr::WrongDirection),
    {
        match self.direction.current_direction {
            DynamicPinDirection::Output => Ok(self.is_low(registers)),
            DynamicPinDirection::Input => Err(DynamicPinErr::WrongDirection),
        }
    }

    /// Read the sensed level, checked against the current direction: a pin
    /// currently driving its line refuses with `WrongDirection`.
    pub fn try_is_high(&self, registers: &Registers) -> (r: Result<bool, DynamicPinErr>)
        requires
            self.wf(*registers),
        ensures
            self.current_direction() == DynamicPinDirection::Input ==> r == Ok::<
                bool,
                DynamicPinErr,
            >(registers.observed_high(self.id().port as int, self.id().mask)),
            self.current_direction() == DynamicPinDirection::Output ==> r == Err::<
                bool,
                DynamicPinErr,
            >(DynamicPinErr::WrongDirection),
    {
        match self.direction.current_direction {
            DynamicPinDirection::Output => Err(DynamicPinErr::WrongDirection),
            DynamicPinDirection::Input => Ok(self.is_high(registers)),
        }
    }

    /// Read the sensed level, negated, checked as `try_is_high`.
    pub fn try_is_low(&self, registers: &Registers) -> (r: Result<bool, DynamicPinErr>)
        requires
            self.wf(*registers),
        ensures
            self.current_direction() == DynamicPinDirection::Input ==> r == Ok::<
                bool,
                DynamicPinErr,
            >(!registers.observed_high(self.id().port as int, self.id().mask)),
            self.current_direction() == DynamicPinDirection::Output ==> r == Err::<
                bool,
                DynamicPinErr,
            >(DynamicPinErr::WrongDirection),
    {
        match self.direction.current_direction {
            DynamicPinDirection::Output => Err(DynamicPinErr::WrongDirection),
            DynamicPinDirection::Input => Ok(self.is_low(registers)),
        }
    }
}

/// A capability-erased pin handle for cases where the pin identity cannot be
/// tracked in the type system, for example runtime-selected pins. It stores
/// the raw pin identity instead of the token and tracks its direction with a
/// runtime tag.
///
/// Constructing it consumes a capability token but does not keep it, so the
/// at-most-one-handle-per-pin guarantee becomes a caller obligation here:
/// never create a second handle for the same pin.
pub struct DynamicGpioPin {
    id: PinId,
    direction: Dynamic,
}

impl DynamicGpioPin {
    /// The identity of the pin.
    pub closed spec fn id(&self) -> PinId {
        self.id
    }

    /// The pin's current electrical direction, as the handle tracks it.
    pub closed spec fn current_direction(&self) -> DynamicPinDirection {
        self.direction.current_direction
    }

    /// The handle is valid for `regs`: its identity is a single pin on an
    /// existing port, and the pin's direction bit agrees with the runtime
    /// tag.
    pub open spec fn wf(self, regs: Registers) -> bool {
        &&& self.id().wf()
        &&& self.id().in_range(regs.num_ports())
        &&& match self.current_direction() {
            DynamicPinDirection::Output => regs.dir_set(self.id().port as int, self.id().mask),
            DynamicPinDirection::Input => regs.dir_clear(self.id().port as int, self.id().mask),
        }
    }

    /// Consume a pin's capability token and configure the pin for dynamic
    /// use, with the ordered level-then-direction write pair. The token is
    /// dropped, not stored; see the type's caller obligation.
    pub fn new(
        token: Token,
        initial_level: Level,
        initial_direction: DynamicPinDirection,
        registers: &mut Registers,
    ) -> (pin: DynamicGpioPin)
        requires
            token.wf(),
            token.id().in_range(old(registers).num_ports()),
        ensures
            pin.id() == token.id(),
            pin.current_direction() == initial_direction,
            to_dynamic_applied(
                *old(registers),
                *final(registers),
                token.id(),
                initial_level,
                initial_direction,
            ),
            pin.wf(*final(registers)),
    {
        let id = token.pin_id();
        switch_to_dynamic_writes(registers, id, initial_level, initial_direction);
        proof {
            lemma_dynamic_switch(*old(registers), *registers, id, initial_level, initial_direction);
        }
        DynamicGpioPin { id, direction: Dynamic { current_direction: initial_direction } }
    }

    /// The pin's port index, for callers outside the proof.
    pub fn port(&self) -> (p: usize)
        ensures
            p == self.id().port,
    {
        self.id.port
    }

    /// The pin's single-bit mask, for callers outside the proof.
    pub fn mask(&self) -> (m: u32)
        ensures
            m == self.id().mask,
    {
        self.id.mask
    }

    /// Whether this pin's direction is currently set to output.
    pub fn direction_is_output(&self) -> (r: bool)
        ensures
            r == (self.current_direction() == DynamicPinDirection::Output),
    {
        self.direction.current_direction == DynamicPinDirection::Output
    }

    /// Whether this pin's direction is currently set to input.
    pub fn direction_is_input(&self) -> (r: bool)
        ensures
            r == (self.current_direction() == DynamicPinDirection::Input),
    {
        !self.direction_is_output()
    }

    /// Indicates whether the voltage at this pin is currently high,
    /// whichever direction it has.
    pub fn is_high(&self, registers: &Registers) -> (r: bool)
        requires
            self.wf(*registers),
        ensures
            r == registers.observed_high(self.id().port as int, self.id().mask),
    {
        is_high(registers, self.id)
    }

    /// Switch pin direction to input. If the pin is already an input pin,
    /// this does nothing: no register is written.
    pub fn switch_to_input(&mut self, registers: &mut Registers)
        requires
            old(self).wf(*old(registers)),
        ensures
            final(self).id() == old(self).id(),
            final(self).current_direction() == DynamicPinDirection::Input,
            dyn_to_input_applied(
                *old(registers),
                *final(registers),
                old(self).id(),
                old(self).current_direction() == DynamicPinDirection::Output,
            ),
            final(self).wf(*final(registers)),
    {
        if self.direction.current_direction == DynamicPinDirection::Input {
            return ;
        }
        set_direction_input(registers, self.id);
        proof {
            bits::lemma_andnot_clears(old(registers).port_dir(self.id.port as int), self.id.mask);
        }
        self.direction.current_direction = DynamicPinDirection::Input;
    }

    /// Switch pin direction to output with the output level set to `level`.
    /// The level is always written first; the direction bit is written only
    /// if the pin was an input.
    pub fn switch_to_output(&mut self, level: Level, registers: &mut Registers)
        requires
            old(self).wf(*old(registers)),
        ensures
            final(self).id() == old(self).id(),
            final(self).current_direction() == DynamicPinDirection::Output,
            dyn_to_output_applied(
                *old(registers),
                *final(registers),
                old(self).id(),
                old(self).current_direction() == DynamicPinDirection::Output,
                level,
            ),
            final(self).wf(*final(registers)),
            final(registers).observed_high(old(self).id().port as int, old(self).id().mask) == (
            level == Level::High),
    {
        let id = self.id;
        // First set the output level, before the mode can change.
        match level {
            Level::High => set_high(registers, id),
            Level::Low => set_low(registers, id),
        }
        if self.direction.current_direction == DynamicPinDirection::Output {
            proof {
                let p = id.port as int;
                let b = choose|b: u32| b < 32 && id.mask == (1u32 << b);
                bits::lemma_single_bit_nonzero(b);
                match level {
                    Level::High => {
                        bits::lemma_or_sets(old(registers).port_out(p), id.mask);
                    },
                    Level::Low => {
                        bits::lemma_andnot_clears(old(registers).port_out(p), id.mask);
                    },
                }
                bits::lemma_mux_reads_output(
                    registers.port_dir(p),
                    registers.port_out(p),
                    registers.port_ext(p),
                    id.mask,
                );
            }
            return ;
        }
        set_direction_output(registers, id);
        self.direction.current_direction = DynamicPinDirection::Output;
        proof {
            lemma_no_glitch(*old(registers), *registers, id, level);
        }
    }
}

/// Any effect an operation of pin `id`'s handles can have on the register
/// block: nothing, a level write, a full transition to output, input or
/// dynamic mode, or a toggle.
pub open spec fn any_pin_write(pre: Registers, post: Registers, id: PinId) -> bool {
    ||| post == pre
    ||| exists|level: Level| level_written(pre, post, id, level)
    ||| exists|level: Level| to_output_applied(pre, post, id, level)
    ||| to_input_applied(pre, post, id)
    ||| exists|level: Level, dir: DynamicPinDirection| to_dynamic_applied(pre, post, id, level, dir)
    ||| write_applied(pre, post, toggle_rec(id))
}

/// Isolation across whole transitions: whatever a handle of pin `id` does
/// to the register block, the observed level, direction bit and latch bit
/// of bits disjoint from the pin's mask, and of every other port, are
/// unchanged. Together with `lemma_distinct_pins_disjoint`, this is why a
/// handle's validity survives every operation on every other pin.
pub proof fn lemma_pin_isolation(pre: Registers, post: Registers, id: PinId, p: int, mask: u32)
    requires
        any_pin_write(pre, post, id),
        0 <= p < pre.num_ports(),
        (id.port as int) < pre.num_ports(),
        p != id.port as int || mask & id.mask == 0,
    ensures
        post.num_ports() == pre.num_ports(),
        post.port_dir(p) & mask == pre.port_dir(p) & mask,
        post.port_out(p) & mask == pre.port_out(p) & mask,
        post.port_ext(p) == pre.port_ext(p),
        post.observed_high(p, mask) == pre.observed_high(p, mask),
{
    if post == pre {
    } else if p != id.port as int {
    } else {
        if exists|level: Level| level_written(pre, post, id, level) {
            let level = choose|level: Level| level_written(pre, post, id, level);
            match level {
                Level::High => {
                    bits::lemma_or_disjoint(pre.port_out(p), mask, id.mask);
                },
                Level::Low => {
                    bits::lemma_andnot_disjoint(pre.port_out(p), mask, id.mask);
                },
            }
        } else if exists|level: Level| to_output_applied(pre, post, id, level) {
            let level = choose|level: Level| to_output_applied(pre, post, id, level);
            bits::lemma_or_disjoint(pre.port_dir(p), mask, id.mask);
            match level {
                Level::High => {
                    bits::lemma_or_disjoint(pre.port_out(p), mask, id.mask);
                },
                Level::Low => {
                    bits::lemma_andnot_disjoint(pre.port_out(p), mask, id.mask);
                },
            }
        } else if to_input_applied(pre, post, id) {
            bits::lemma_andnot_disjoint(pre.port_dir(p), mask, id.mask);
        } else if exists|level: Level, dir: DynamicPinDirection|
            to_dynamic_applied(pre, post, id, level, dir) {
            let (level, dir) = choose|level: Level, dir: DynamicPinDirection|
                to_dynamic_applied(pre, post, id, level, dir);
            match level {
                Level::High => {
                    bits::lemma_or_disjoint(pre.port_out(p), mask, id.mask);
                },
                Level::Low => {
                    bits::lemma_andnot_disjoint(pre.port_out(p), mask, id.mask);
                },
            }
            match dir {
                DynamicPinDirection::Output => {
                    bits::lemma_or_disjoint(pre.port_dir(p), mask, id.mask);
                },
                DynamicPinDirection::Input => {
                    bits::lemma_andnot_disjoint(pre.port_dir(p), mask, id.mask);
                },
            }
        } else {
            bits::lemma_xor_disjoint(pre.port_out(p), mask, id.mask);
        }
    }
    bits::lemma_mux_masked_congruence(
        pre.port_dir(p),
        pre.port_out(p),
        pre.port_ext(p),
        post.port_dir(p),
        post.port_out(p),
        post.port_ext(p),
        mask,
    );
}

/// Whether a logged write went to a direction register.
pub open spec fn is_direction_write(rec: WriteRecord) -> bool {
    rec.op == WriteOp::DirSet || rec.op == WriteOp::DirClr
}

/// How many entries of a write log went to a direction register.
pub open spec fn direction_write_count(s: Seq<WriteRecord>) -> nat
    decreases s.len(),
{
    if s.len() == 0 {
        0
    } else {
        direction_write_count(s.drop_last()) + if is_direction_write(s.last()) {
            1nat
        } else {
            0nat
        }
    }
}

/// Appending one record raises the direction-write count by one exactly when
/// the record is a direction write.
pub proof fn lemma_direction_write_count_push(s: Seq<WriteRecord>, rec: WriteRecord)
    ensures
        direction_write_count(s.push(rec)) == direction_write_count(s) + if is_direction_write(
            rec,
        ) {
            1nat
        } else {
            0nat
        },
{
    assert(s.push(rec).drop_last() =~= s);
    assert(s.push(rec).last() == rec);
}

/// Idempotence of switching to output: after a dynamic pin has been switched
/// to output, switching it to output again appends exactly one write, the
/// level write; across the two calls at most one direction write happens.
pub proof fn lemma_switch_to_output_idempotent(
    r0: Registers,
    r1: Registers,
    r2: Registers,
    id: PinId,
    was_output: bool,
    first_level: Level,
    second_level: Level,
)
    requires
        dyn_to_output_applied(r0, r1, id, was_output, first_level),
        dyn_to_output_applied(r1, r2, id, true, second_level),
    ensures
        r2.log() == r1.log().push(level_write_rec(id, second_level)),
        forall|q: int| 0 <= q < r1.num_ports() ==> r2.port_dir(q) == r1.port_dir(q),
        direction_write_count(r2.log()) <= direction_write_count(r0.log()) + 1,
{
    lemma_direction_write_count_push(r1.log(), level_write_rec(id, second_level));
    if was_output {
        lemma_direction_write_count_push(r0.log(), level_write_rec(id, first_level));
    } else {
        lemma_direction_write_count_push(r0.log(), level_write_rec(id, first_level));
        lemma_direction_write_count_push(
            r0.log().push(level_write_rec(id, first_level)),
            dirset_rec(id),
        );
    }
}

/// Involution of toggling: two toggle writes to the same pin restore every
/// register word, so the observed level returns to its original value.
pub proof fn lemma_toggle_involution(r0: Registers, r1: Registers, r2: Registers, id: PinId)
    requires
        write_applied(r0, r1, toggle_rec(id)),
        write_applied(r1, r2, toggle_rec(id)),
        (id.port as int) < r0.num_ports(),
    ensures
        forall|q: int|
            0 <= q < r0.num_ports() ==> r2.port_dir(q) == r0.port_dir(q) && r2.port_out(q)
                == r0.port_out(q) && r2.port_ext(q) == r0.port_ext(q),
        r2.log() == r0.log().push(toggle_rec(id)).push(toggle_rec(id)),
        forall|m: u32|
            #![trigger r2.observed_high(id.port as int, m)]
            r2.observed_high(id.port as int, m) == r0.observed_high(id.port as int, m),
{
    bits::lemma_xor_twice(r0.port_out(id.port as int), id.mask);
}

} // verus!
