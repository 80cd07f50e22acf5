//! A GPIO controller together with one handle per pin, handed out once each.
use vstd::prelude::*;
use crate::gpio::{GpioOps, GpioPin, GpioPinOps};

verus! {

/// Number of pins on a GPIO block.
pub const PIN_COUNT: usize = 32;

/// What taking slot `i` out of `pins` yields.
pub open spec fn taken<G: GpioOps>(pins: Seq<Option<GpioPin<G>>>, i: int) -> Option<GpioPin<G>> {
    if 0 <= i < pins.len() {
        pins[i]
    } else {
        None
    }
}

/// The slots after slot `i` of `pins` is taken.
pub open spec fn after_take<G: GpioOps>(pins: Seq<Option<GpioPin<G>>>, i: int) -> Seq<
    Option<GpioPin<G>>,
> {
    if 0 <= i < pins.len() {
        pins.update(i, None)
    } else {
        pins
    }
}

/// Slot `i` holds a well-formed handle on pin `i`.
pub open spec fn slot_present<G: GpioOps>(pins: Seq<Option<GpioPin<G>>>, i: int) -> bool {
    &&& 0 <= i < pins.len()
    &&& pins[i] is Some
    &&& pins[i].unwrap().pin_index() == i
    &&& pins[i].unwrap().pin_inv()
}

/// A GPIO controller and its 32 pin slots; a consumer takes a slot's handle
/// and leaves the slot empty.
pub struct Device<GPIO: GpioOps> {
    pub gpio: GPIO,
    pub pins: Vec<Option<GpioPin<GPIO>>>,
}

impl<GPIO: GpioOps> Device<GPIO> {
    /// Every one of the 32 slots holds the handle on its own pin.
    pub open spec fn all_present(&self) -> bool {
        &&& self.pins@.len() == PIN_COUNT
        &&& forall|i: int| 0 <= i < PIN_COUNT ==> slot_present(self.pins@, i)
    }

    /// Takes the handle out of slot `index`, leaving the slot empty; an empty
    /// or missing slot yields `None`.
    pub fn take_pin(&mut self, index: usize) -> (r: Option<GpioPin<GPIO>>)
        ensures
            r == taken(old(self).pins@, index as int),
            final(self).pins@ == after_take(old(self).pins@, index as int),
            final(self).gpio == old(self).gpio,
    {
        if index < self.pins.len() {
            let r = self.pins.remove(index);
            self.pins.insert(index, None);
            proof {
                assert(self.pins@ =~= old(self).pins@.update(index as int, None));
            }
            r
        } else {
            None
        }
    }
}

impl<GPIO: GpioOps + Clone> Device<GPIO> {
    /// Builds one handle per pin 0..31, each over a copy of `gpio`.
    pub fn new(gpio: GPIO) -> (r: Self)
        ensures
            r.gpio == gpio,
            r.all_present(),
            forall|i: int| 0 <= i < PIN_COUNT ==> cloned(gpio, #[trigger] r.pins@[i].unwrap().port()),
    {
        let mut pins: Vec<Option<GpioPin<GPIO>>> = Vec::new();
        let mut i: usize = 0;
        while i < PIN_COUNT
            invariant
                i <= PIN_COUNT,
                pins@.len() == i,
                forall|j: int| 0 <= j < i ==> slot_present(pins@, j),
                forall|j: int| 0 <= j < i ==> cloned(gpio, #[trigger] pins@[j].unwrap().port()),
            decreases PIN_COUNT - i,
        {
            let ghost before = pins@;
            let copy = gpio.clone();
            let pin = GpioPin::new(copy, i as u8);
            pins.push(Some(pin));
            proof {
                assert forall|j: int| 0 <= j <= i implies slot_present(pins@, j) && cloned(
                    gpio,
                    pins@[j].unwrap().port(),
                ) by {
                    if j < i {
                        assert(slot_present(before, j));
                        assert(pins@[j] == before[j]);
                    }
                }
            }
            i = i + 1;
        }
        Device { gpio, pins }
    }
}

/// On a device with every slot filled, the handles carry pairwise distinct
/// pin numbers, and taking a slot twice yields its handle and then nothing.
pub proof fn take_twice_present_then_absent<G: GpioOps>(d: Device<G>, i: int)
    requires
        d.all_present(),
        0 <= i < PIN_COUNT,
    ensures
        taken(d.pins@, i) is Some,
        taken(d.pins@, i).unwrap().pin_index() == i,
        taken(after_take(d.pins@, i), i) is None,
        forall|j: int, k: int|
            0 <= j < PIN_COUNT && 0 <= k < PIN_COUNT && j != k ==> d.pins@[j].unwrap().pin_index()
                != d.pins@[k].unwrap().pin_index(),
{
    assert(slot_present(d.pins@, i));
    assert forall|j: int, k: int|
        0 <= j < PIN_COUNT && 0 <= k < PIN_COUNT && j != k implies d.pins@[j].unwrap().pin_index()
        != d.pins@[k].unwrap().pin_index() by {
        assert(slot_present(d.pins@, j));
        assert(slot_present(d.pins@, k));
    }
}

} // verus!
