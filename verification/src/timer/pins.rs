//! Timer channel pin assignments.

use vstd::prelude::*;

verus! {

/// A pin usable as capture/compare channel `C` under remap setting
/// `REMAP`.
pub trait CPin<REMAP, const C: u8> {}

/// Marker for a timer channel.
pub struct Ch<const C: u8>;

/// A remap setting for a timer's pins.
pub trait Remap {
    /// The timer the setting belongs to.
    type Periph;

    /// The value of the remap field selecting this assignment.
    fn remap_bits() -> u8;
}

} // verus!
