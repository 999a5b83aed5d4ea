//! A memory-request descriptor: a size in bytes and a power-of-two alignment.

use vstd::prelude::*;

verus! {

/// Whether `n` is a power of two (`1, 2, 4, ...`; zero is not one).
pub open spec fn is_pow2(n: nat) -> bool
    decreases n,
{
    if n == 0 {
        false
    } else if n == 1 {
        true
    } else {
        n % 2 == 0 && is_pow2(n / 2)
    }
}

/// A (size, alignment) pair describing one memory request.
///
/// A layout is well formed when its alignment is a power of two; every layout
/// handed out by [`Layout::from_size_align`] is.
#[derive(Clone, Copy, Debug, PartialEq, Eq, Structural)]
pub struct Layout {
    pub size: usize,
    pub align: usize,
}

impl Layout {
    /// The requested size in bytes.
    pub open spec fn spec_size(self) -> usize {
        self.size
    }

    /// The requested alignment in bytes.
    pub open spec fn spec_align(self) -> usize {
        self.align
    }

    /// The alignment is a power of two.
    pub open spec fn well_formed(self) -> bool {
        is_pow2(self.align as nat)
    }

    /// Builds the layout describing a request of `size` bytes aligned to
    /// `align`, or nothing when `align` is not a power of two.
    pub fn from_size_align(size: usize, align: usize) -> (r: Option<Layout>)
        ensures
            r is Some <==> is_pow2(align as nat),
            r is Some ==> r->0.spec_size() == size && r->0.spec_align() == align,
            r is Some ==> r->0.well_formed(),
    {
        if power_of_two(align) {
            Some(Layout { size, align })
        } else {
            None
        }
    }

    /// The requested size in bytes.
    #[verifier::when_used_as_spec(spec_size)]
    pub fn size(self) -> (s: usize)
        ensures
            s == self.spec_size(),
    {
        self.size
    }

    /// The requested alignment in bytes.
    #[verifier::when_used_as_spec(spec_align)]
    pub fn align(self) -> (a: usize)
        ensures
            a == self.spec_align(),
    {
        self.align
    }
}

/// Decides whether `n` is a power of two.
pub fn power_of_two(n: usize) -> (r: bool)
    ensures
        r == is_pow2(n as nat),
{
    if n == 0 {
        return false;
    }
    let mut m: usize = n;
    while m > 1
        invariant
            1 <= m,
            is_pow2(n as nat) == is_pow2(m as nat),
        decreases m,
    {
        if m % 2 == 1 {
            return false;
        }
        m = m / 2;
    }
    true
}

} // verus!
