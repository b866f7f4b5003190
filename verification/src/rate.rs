use vstd::prelude::*;

verus! {

/// The largest bit pattern of a finite binary64 value with a clear sign bit
/// is one below the pattern of positive infinity.
pub const POSITIVE_INFINITY_BITS: u64 = 0x7FF0_0000_0000_0000;

/// A publish rate in hertz, held as the bit pattern of its IEEE-754 binary64
/// value (`bits`), together with the decimal text that messages show for it.
#[derive(Debug)]
pub struct Hertz {
    pub bits: u64,
    pub text: String,
}

impl View for Hertz {
    type V = (u64, Seq<char>);

    open spec fn view(&self) -> (u64, Seq<char>) {
        (self.bits, self.text@)
    }
}

/// A binary64 value is finite and strictly positive exactly when its sign bit
/// is clear, its exponent field is not all ones, and it is not zero; for a
/// clear sign bit the exponent field is all ones exactly from the pattern of
/// positive infinity upwards.
pub open spec fn rate_is_usable(bits: u64) -> bool {
    0 < bits && bits < POSITIVE_INFINITY_BITS
}

impl Hertz {
    pub fn new(bits: u64, text: String) -> (r: Hertz)
        ensures
            r.bits == bits,
            r.text@ == text@,
    {
        Hertz { bits, text }
    }

    /// Whether the rate is finite and strictly positive.
    pub fn is_usable(&self) -> (b: bool)
        ensures
            b == rate_is_usable(self.bits),
    {
        0 < self.bits && self.bits < POSITIVE_INFINITY_BITS
    }

}

impl Clone for Hertz {
    fn clone(&self) -> (r: Hertz)
        ensures
            r@ == self@,
    {
        Hertz { bits: self.bits, text: self.text.clone() }
    }
}

} // verus!
