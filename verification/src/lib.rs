//! Support library for a two-function numeric utility: a Pearson correlation
//! calculator over two `f64` sequences and a text-length function.
//!
//! The correlation arithmetic itself is floating point and lives outside this
//! library; what is verified here is everything the computation decides over
//! plain values: the malformed-input policy that guards the calculation, and
//! the byte-length measure of a text.

use vstd::prelude::*;

verus! {

use vstd::string::StringSliceAdditionalSpecFns;

/// The malformed-input policy of the correlation calculation: two sequences
/// are degenerate exactly when their lengths differ or they are empty. On
/// such inputs the calculation returns the sentinel `0.0` without computing
/// anything.
pub open spec fn is_degenerate(len_x: nat, len_y: nat) -> bool {
    len_x != len_y || len_x == 0
}

/// Decides whether two input sequences of the given lengths are degenerate,
/// i.e. whether the correlation calculation must return its sentinel value
/// instead of evaluating the formula.
pub fn degenerate_inputs(len_x: usize, len_y: usize) -> (r: bool)
    ensures
        r == is_degenerate(len_x as nat, len_y as nat),
{
    len_x != len_y || len_x == 0
}

/// The number of bytes in a text's UTF-8 representation; for ASCII text this
/// equals the number of characters.
pub fn text_byte_length(text: &str) -> (n: usize)
    ensures
        n == text.spec_bytes().len(),
        text.is_ascii() ==> n == text@.len(),
{
    let bytes = text.as_bytes();
    proof {
        broadcast use vstd::string::is_ascii_spec_bytes;
    }
    bytes.len()
}

} // verus!
