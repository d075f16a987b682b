use vstd::prelude::*;

verus! {

/// The value congruent to `x` modulo 2^32 that fits in an `i32`.
pub open spec fn wrap_i32(x: int) -> int {
    (x + 0x8000_0000) % 0x1_0000_0000 - 0x8000_0000
}

/// Adding a multiple of 2^32 does not change the wrapped value.
pub proof fn lemma_wrap_shift(x: int, k: int)
    ensures
        wrap_i32(x + k * 0x1_0000_0000) == wrap_i32(x),
{
    vstd::arithmetic::div_mod::lemma_mod_multiples_vanish(k, x + 0x8000_0000, 0x1_0000_0000);
    assert(x + k * 0x1_0000_0000 + 0x8000_0000 == 0x1_0000_0000 * k + (x + 0x8000_0000))
        by (nonlinear_arith);
}

/// An `i32` is its own wrapped value.
pub proof fn lemma_wrap_small(x: int)
    requires
        i32::MIN <= x <= i32::MAX,
    ensures
        wrap_i32(x) == x,
{
    vstd::arithmetic::div_mod::lemma_small_mod((x + 0x8000_0000) as nat, 0x1_0000_0000);
}

/// Wrapping twice is wrapping once, also under a further addition.
pub proof fn lemma_wrap_add_absorbs(x: int, y: int)
    ensures
        wrap_i32(wrap_i32(x) + y) == wrap_i32(x + y),
{
    vstd::arithmetic::div_mod::lemma_fundamental_div_mod(x + 0x8000_0000, 0x1_0000_0000);
    let q = (x + 0x8000_0000) / 0x1_0000_0000;
    assert(wrap_i32(x) + y == (x + y) + (-q) * 0x1_0000_0000) by (nonlinear_arith)
        requires
            x + 0x8000_0000 == 0x1_0000_0000 * q + (x + 0x8000_0000) % 0x1_0000_0000,
            wrap_i32(x) == (x + 0x8000_0000) % 0x1_0000_0000 - 0x8000_0000,
    ;
    lemma_wrap_shift(x + y, -q);
}

/// `wrapping_add` on `i32` is the wrapped sum.
pub proof fn lemma_wrapping_add(a: i32, b: i32)
    ensures
        a.wrapping_add(b) as int == wrap_i32(a + b),
{
    let s = a as int + b as int;
    if s > i32::MAX {
        lemma_wrap_small(s - 0x1_0000_0000);
        lemma_wrap_shift(s - 0x1_0000_0000, 1);
    } else if s < i32::MIN {
        lemma_wrap_small(s + 0x1_0000_0000);
        lemma_wrap_shift(s + 0x1_0000_0000, -1);
    } else {
        lemma_wrap_small(s);
    }
}

/// Mouse movement accumulated since the last drain, one counter per axis.
/// Each counter wraps around on overflow, as a hardware-width accumulator does.
pub struct Mouse {
    pub dx: i32,
    pub dy: i32,
}

impl Mouse {
    pub open spec fn view(&self) -> (int, int) {
        (self.dx as int, self.dy as int)
    }

    /// A mouse with nothing accumulated.
    pub fn new() -> (m: Mouse)
        ensures
            m@ == (0int, 0int),
    {
        Mouse { dx: 0, dy: 0 }
    }

    /// Adds one displacement to both counters.
    pub fn store_motion(&mut self, x: i32, y: i32)
        ensures
            final(self)@ == (wrap_i32(old(self)@.0 + x), wrap_i32(old(self)@.1 + y)),
    {
        proof {
            lemma_wrapping_add(self.dx, x);
            lemma_wrapping_add(self.dy, y);
        }
        self.dx = self.dx.wrapping_add(x);
        self.dy = self.dy.wrapping_add(y);
    }

    /// Returns the accumulated totals and resets both counters to zero.
    pub fn drain(&mut self) -> (r: (i32, i32))
        ensures
            (r.0 as int, r.1 as int) == old(self)@,
            final(self)@ == (0int, 0int),
    {
        let r = (self.dx, self.dy);
        self.dx = 0;
        self.dy = 0;
        r
    }
}

} // verus!
