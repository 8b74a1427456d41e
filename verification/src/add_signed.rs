//! Adding a signed offset to an unsigned counter, with wraparound.

use vstd::arithmetic::div_mod::{lemma_mod_multiples_vanish, lemma_small_mod};
use vstd::prelude::*;

verus! {

/// Addition of a signed right-hand side to an unsigned value.
///
/// The result stays in the unsigned type: it is the mathematical sum reduced
/// modulo the size of the type, so a counter that runs off either end of its
/// range wraps around.
pub trait AddSigned<RHS> {
    type Output;

    /// What `add_signed` returns.
    spec fn add_signed_spec(self, rhs: RHS) -> Self::Output;

    fn add_signed(self, rhs: RHS) -> (sum: Self::Output)
        ensures
            sum == self.add_signed_spec(rhs),
    ;
}

impl AddSigned<i8> for u16 {
    type Output = u16;

    /// The sum modulo 65536.
    open spec fn add_signed_spec(self, rhs: i8) -> u16 {
        ((self as int + rhs as int) % 0x1_0000) as u16
    }

    fn add_signed(self, rhs: i8) -> (sum: u16) {
        if rhs < 0 {
            // -(rhs) is at most 128, which an i8 cannot hold: widen before negating.
            let magnitude: u16 = (-(rhs as i16)) as u16;
            self.wrapping_sub(magnitude)
        } else {
            self.wrapping_add(rhs as u16)
        }
    }
}

impl AddSigned<i32> for usize {
    type Output = usize;

    /// The sum modulo the size of `usize`.
    open spec fn add_signed_spec(self, rhs: i32) -> usize {
        ((self as int + rhs as int) % (usize::MAX as int + 1)) as usize
    }

    fn add_signed(self, rhs: i32) -> (sum: usize) {
        proof {
            let size = usize::MAX as int + 1;
            let total = self as int + rhs as int;
            if total < 0 {
                lemma_mod_multiples_vanish(-1, total + size, size);
                lemma_small_mod((total + size) as nat, size as nat);
            } else if total >= size {
                lemma_mod_multiples_vanish(1, total - size, size);
                lemma_small_mod((total - size) as nat, size as nat);
            } else {
                lemma_small_mod(total as nat, size as nat);
            }
        }
        if rhs < 0 {
            let magnitude: usize = (-(rhs as i64)) as usize;
            self.wrapping_sub(magnitude)
        } else {
            self.wrapping_add(rhs as usize)
        }
    }
}

} // verus!
