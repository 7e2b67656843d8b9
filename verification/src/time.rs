//! Frequencies, bit rates and durations in whole units.

use vstd::prelude::*;

verus! {

/// A frequency in whole hertz.
#[derive(Clone, Copy, Debug, PartialEq, Eq, Structural, PartialOrd, Ord, Hash)]
pub struct Hertz {
    hz: u32,
}

/// Hertz in one megahertz.
pub const HZ_PER_MHZ: u32 = 1_000_000;

/// Converts megahertz to hertz with fugit's `RateExtU32::MHz` read back by
/// `Rate::to_Hz`, both at a one-hertz base. The contract claims the product
/// with one million, and leaves out the inputs whose product does not fit
/// in 32 bits, on which the multiplication inside `MHz` overflows.
#[verifier::external_body]
fn megahertz_to_hertz(mhz: u32) -> (hz: u32)
    requires
        mhz * HZ_PER_MHZ <= u32::MAX,
    ensures
        hz == mhz * HZ_PER_MHZ,
{
    let rate: fugit::HertzU32 = fugit::RateExtU32::MHz(mhz);
    rate.to_Hz()
}

impl Hertz {
    /// The frequency in hertz, as a mathematical integer.
    pub closed spec fn view(&self) -> nat {
        self.hz as nat
    }

    /// A frequency of `val` hertz.
    #[allow(non_snake_case)]
    pub fn Hz(val: u32) -> (f: Hertz)
        ensures
            f@ == val,
    {
        Hertz { hz: val }
    }

    /// A frequency of `val` megahertz.
    #[allow(non_snake_case)]
    pub fn MHz(val: u32) -> (f: Hertz)
        requires
            val * HZ_PER_MHZ <= u32::MAX,
        ensures
            f@ == val * HZ_PER_MHZ,
    {
        Hertz { hz: megahertz_to_hertz(val) }
    }

    /// The frequency in whole hertz.
    #[allow(non_snake_case)]
    pub fn to_Hz(&self) -> (hz: u32)
        ensures
            hz == self@,
    {
        self.hz
    }
}

/// A bit rate in bits per second.
#[derive(Clone, Copy, Debug, PartialEq, Eq, Structural, PartialOrd, Ord, Hash)]
pub struct Bps(pub u32);

/// Extension trait that adds convenience methods to the `u32` type
pub trait U32Ext {
    /// Wrap in `Bps`
    fn bps(self) -> Bps;
}

impl U32Ext for u32 {
    fn bps(self) -> (rate: Bps)
        ensures
            rate == Bps(self),
    {
        Bps(self)
    }
}

/// A duration in whole milliseconds.
#[derive(Clone, Copy, Debug, PartialEq, Eq, Structural, PartialOrd, Ord, Hash)]
pub struct MilliSeconds {
    ms: u32,
}

impl MilliSeconds {
    /// The duration in milliseconds, as a mathematical integer.
    pub closed spec fn view(&self) -> nat {
        self.ms as nat
    }

    /// A duration of `ticks` milliseconds.
    pub fn from_ticks(ticks: u32) -> (duration: MilliSeconds)
        ensures
            duration@ == ticks,
    {
        MilliSeconds { ms: ticks }
    }

    /// A duration of `val` milliseconds.
    pub fn millis(val: u32) -> (duration: MilliSeconds)
        ensures
            duration@ == val,
    {
        MilliSeconds { ms: val }
    }

    /// The duration in whole milliseconds.
    pub fn ticks(&self) -> (ms: u32)
        ensures
            ms == self@,
    {
        self.ms
    }
}

} // verus!
