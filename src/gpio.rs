//! GPIO block: capability trait, register-file model, and single-pin handles.
use vstd::prelude::*;

verus! {

/// The bit of pin `pin` in a 32-bit GPIO register.
pub open spec fn pin_mask(pin: u8) -> u32 {
    1u32 << (pin as u32)
}

/// Whether pin `pin` is set in register word `word`.
pub open spec fn pin_bit(word: u32, pin: u8) -> bool {
    word & pin_mask(pin) != 0
}

/// Setting a pin's bit makes it read as set.
pub proof fn lemma_set_bit(word: u32, pin: u8)
    requires
        pin < 32,
    ensures
        pin_bit(word | pin_mask(pin), pin),
{
    let p = pin as u32;
    assert((word | (1u32 << p)) & (1u32 << p) != 0) by (bit_vector)
        requires
            p < 32,
    ;
}

/// Clearing a pin's bit makes it read as clear.
pub proof fn lemma_clear_bit(word: u32, pin: u8)
    requires
        pin < 32,
    ensures
        !pin_bit(word & !pin_mask(pin), pin),
{
    let p = pin as u32;
    assert((word & !(1u32 << p)) & (1u32 << p) == 0) by (bit_vector)
        requires
            p < 32,
    ;
}

/// Toggling a pin's bit flips how it reads.
pub proof fn lemma_toggle_bit(word: u32, pin: u8)
    requires
        pin < 32,
    ensures
        pin_bit(word ^ pin_mask(pin), pin) == !pin_bit(word, pin),
{
    let p = pin as u32;
    assert(((word ^ (1u32 << p)) & (1u32 << p) != 0) == !((word & (1u32 << p)) != 0))
        by (bit_vector)
        requires
            p < 32,
    ;
}

/// Toggling the same pin twice leaves the whole data register as it was.
pub proof fn toggle_twice_restores(word: u32, pin: u8)
    requires
        pin < 32,
    ensures
        (word ^ pin_mask(pin)) ^ pin_mask(pin) == word,
{
    let p = pin as u32;
    assert((word ^ (1u32 << p)) ^ (1u32 << p) == word) by (bit_vector);
}

/// Operations a GPIO controller offers, over a model of its registers.
pub trait GpioOps {
    /// Direction register: bit `i` set when pin `i` is an output.
    spec fn direction_reg(&self) -> u32;

    /// Data register: the level of each pin.
    spec fn data_reg(&self) -> u32;

    /// Interrupt-enable register: one bit per pin.
    spec fn intr_reg(&self) -> u32;

    /// Makes pin `pin` an output (`direction`) or an input.
    fn set_direction(&mut self, pin: u8, direction: bool)
        requires
            pin < 32,
        ensures
            final(self).direction_reg() == if direction {
                old(self).direction_reg() | pin_mask(pin)
            } else {
                old(self).direction_reg() & !pin_mask(pin)
            },
            final(self).data_reg() == old(self).data_reg(),
            final(self).intr_reg() == old(self).intr_reg(),
    ;

    fn read_data(&self) -> (r: u32)
        ensures
            r == self.data_reg(),
    ;

    fn write_data(&mut self, value: u32)
        ensures
            final(self).direction_reg() == old(self).direction_reg(),
            final(self).data_reg() == value,
            final(self).intr_reg() == old(self).intr_reg(),
    ;

    /// Drives pin `pin` high through the write-one-to-set register.
    fn set_pin(&mut self, pin: u8)
        requires
            pin < 32,
        ensures
            final(self).direction_reg() == old(self).direction_reg(),
            final(self).data_reg() == old(self).data_reg() | pin_mask(pin),
            final(self).intr_reg() == old(self).intr_reg(),
    ;

    /// Drives pin `pin` low through the write-one-to-clear register.
    fn clear_pin(&mut self, pin: u8)
        requires
            pin < 32,
        ensures
            final(self).direction_reg() == old(self).direction_reg(),
            final(self).data_reg() == old(self).data_reg() & !pin_mask(pin),
            final(self).intr_reg() == old(self).intr_reg(),
    ;

    /// Flips pin `pin` through the write-one-to-toggle register.
    fn toggle_pin(&mut self, pin: u8)
        requires
            pin < 32,
        ensures
            final(self).direction_reg() == old(self).direction_reg(),
            final(self).data_reg() == old(self).data_reg() ^ pin_mask(pin),
            final(self).intr_reg() == old(self).intr_reg(),
    ;

    fn enable_interrupt(&mut self, pin: u8)
        requires
            pin < 32,
        ensures
            final(self).direction_reg() == old(self).direction_reg(),
            final(self).data_reg() == old(self).data_reg(),
            final(self).intr_reg() == old(self).intr_reg() | pin_mask(pin),
    ;

    fn disable_interrupt(&mut self, pin: u8)
        requires
            pin < 32,
        ensures
            final(self).direction_reg() == old(self).direction_reg(),
            final(self).data_reg() == old(self).data_reg(),
            final(self).intr_reg() == old(self).intr_reg() & !pin_mask(pin),
    ;
}

/// Register file of one GPIO block, held as plain values. The set, clear and
/// toggle registers act on `data` at once.
#[derive(Debug, Clone, Copy, PartialEq, Eq, Structural)]
pub struct GpioRegisters {
    pub direction: u32,
    pub data: u32,
    pub intr: u32,
}

impl GpioRegisters {
    /// All registers at their reset value, zero.
    pub fn new() -> (r: GpioRegisters)
        ensures
            r == (GpioRegisters { direction: 0, data: 0, intr: 0 }),
    {
        GpioRegisters { direction: 0, data: 0, intr: 0 }
    }
}

impl GpioOps for GpioRegisters {
    open spec fn direction_reg(&self) -> u32 {
        self.direction
    }

    open spec fn data_reg(&self) -> u32 {
        self.data
    }

    open spec fn intr_reg(&self) -> u32 {
        self.intr
    }

    fn set_direction(&mut self, pin: u8, direction: bool) {
        let mut value = self.direction;
        if direction {
            value = value | (1u32 << (pin as u32));
        } else {
            value = value & !(1u32 << (pin as u32));
        }
        self.direction = value;
    }

    fn read_data(&self) -> (r: u32) {
        self.data
    }

    fn write_data(&mut self, value: u32) {
        self.data = value;
    }

    fn set_pin(&mut self, pin: u8) {
        self.data = self.data | (1u32 << (pin as u32));
    }

    fn clear_pin(&mut self, pin: u8) {
        self.data = self.data & !(1u32 << (pin as u32));
    }

    fn toggle_pin(&mut self, pin: u8) {
        self.data = self.data ^ (1u32 << (pin as u32));
    }

    fn enable_interrupt(&mut self, pin: u8) {
        let mut value = self.intr;
        value = value | (1u32 << (pin as u32));
        self.intr = value;
    }

    fn disable_interrupt(&mut self, pin: u8) {
        let mut value = self.intr;
        value = value & !(1u32 << (pin as u32));
        self.intr = value;
    }
}

/// Operations on one digital pin.
pub trait GpioPinOps {
    /// Well-formedness of the handle.
    spec fn pin_inv(&self) -> bool;

    /// The pin number the handle drives.
    spec fn pin_number(&self) -> u8;

    /// The controller's data register, one level bit per pin.
    spec fn data_word(&self) -> u32;

    /// Drives the pin high; every other pin keeps its level.
    fn set_high(&mut self)
        requires
            old(self).pin_inv(),
        ensures
            final(self).pin_inv(),
            final(self).pin_number() == old(self).pin_number(),
            final(self).data_word() == old(self).data_word() | pin_mask(old(self).pin_number()),
            pin_bit(final(self).data_word(), final(self).pin_number()),
    ;

    /// Drives the pin low; every other pin keeps its level.
    fn set_low(&mut self)
        requires
            old(self).pin_inv(),
        ensures
            final(self).pin_inv(),
            final(self).pin_number() == old(self).pin_number(),
            final(self).data_word() == old(self).data_word() & !pin_mask(old(self).pin_number()),
            !pin_bit(final(self).data_word(), final(self).pin_number()),
    ;

    /// Flips the pin's level; every other pin keeps its level.
    fn toggle(&mut self)
        requires
            old(self).pin_inv(),
        ensures
            final(self).pin_inv(),
            final(self).pin_number() == old(self).pin_number(),
            final(self).data_word() == old(self).data_word() ^ pin_mask(old(self).pin_number()),
            pin_bit(final(self).data_word(), final(self).pin_number()) == !pin_bit(
                old(self).data_word(),
                old(self).pin_number(),
            ),
    ;

    /// Whether the pin's bit of the sampled data register is set.
    fn is_high(&self) -> (r: bool)
        requires
            self.pin_inv(),
        ensures
            r == pin_bit(self.data_word(), self.pin_number()),
    ;

    /// Whether the pin's bit of the sampled data register is clear.
    fn is_low(&self) -> (r: bool)
        requires
            self.pin_inv(),
        ensures
            r == !pin_bit(self.data_word(), self.pin_number()),
    ;
}

/// A handle on pin `index` of a GPIO controller.
pub struct GpioPin<GPIO: GpioOps> {
    index: u8,
    gpio: GPIO,
}

impl<GPIO: GpioOps> GpioPin<GPIO> {
    /// The pin number this handle drives.
    pub closed spec fn pin_index(&self) -> u8 {
        self.index
    }

    /// The controller this handle drives.
    pub closed spec fn port(&self) -> GPIO {
        self.gpio
    }

    pub fn new(gpio: GPIO, index: u8) -> (r: Self)
        requires
            index < 32,
        ensures
            r.pin_index() == index,
            r.port() == gpio,
            r.pin_inv(),
    {
        GpioPin { index, gpio }
    }

    /// The pin number this handle drives.
    pub fn index(&self) -> (r: u8)
        ensures
            r == self.pin_index(),
    {
        self.index
    }

    /// Borrows the controller.
    pub fn gpio(&self) -> (r: &GPIO)
        ensures
            *r == self.port(),
    {
        &self.gpio
    }
}

impl<GPIO: GpioOps> GpioPinOps for GpioPin<GPIO> {
    open spec fn pin_inv(&self) -> bool {
        self.pin_index() < 32
    }

    open spec fn pin_number(&self) -> u8 {
        self.pin_index()
    }

    open spec fn data_word(&self) -> u32 {
        self.port().data_reg()
    }

    fn set_high(&mut self) {
        self.gpio.set_pin(self.index);
        proof {
            lemma_set_bit(old(self).gpio.data_reg(), self.index);
        }
    }

    fn set_low(&mut self) {
        self.gpio.clear_pin(self.index);
        proof {
            lemma_clear_bit(old(self).gpio.data_reg(), self.index);
        }
    }

    fn toggle(&mut self) {
        self.gpio.toggle_pin(self.index);
        proof {
            lemma_toggle_bit(old(self).gpio.data_reg(), self.index);
        }
    }

    fn is_high(&self) -> (r: bool) {
        (self.gpio.read_data() & (1u32 << (self.index as u32))) != 0
    }

    fn is_low(&self) -> (r: bool) {
        (self.gpio.read_data() & (1u32 << (self.index as u32))) == 0
    }
}

} // verus!
