//! Marker traits that say what a pin mode supports.

use vstd::prelude::*;
use crate::gpio::{Input, OpenDrain, Output};

verus! {

/// Marker trait that show if `ExtiPin` can be implemented
pub trait Interruptible {

}

/// Marker trait for readable pin modes
pub trait Readable {

}

/// Marker trait for slew rate configurable pin modes
pub trait OutputSpeed {

}

/// Marker trait for active pin modes
pub trait Active {

}

/// Marker trait for all pin modes except alternate
pub trait NotAlt {

}

/// Marker trait for pins with alternate function `A` mapping
pub trait IntoAf<const A: u8> {

}

impl Readable for Input {

}

impl Readable for Output<OpenDrain> {

}

impl Active for Input {

}

impl Active for Output<OpenDrain> {

}

impl<MODE> NotAlt for Output<MODE> {

}

impl NotAlt for Input {

}

} // verus!
