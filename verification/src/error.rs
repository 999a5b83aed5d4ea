//! The failure descriptor for a rejected memory request.

use crate::layout::Layout;
use vstd::prelude::*;
use vstd::string::StringExecFns;

verus! {

/// The decimal digit character for `d` (`d < 10`).
pub open spec fn spec_digit(d: nat) -> char {
    if d == 0 {
        '0'
    } else if d == 1 {
        '1'
    } else if d == 2 {
        '2'
    } else if d == 3 {
        '3'
    } else if d == 4 {
        '4'
    } else if d == 5 {
        '5'
    } else if d == 6 {
        '6'
    } else if d == 7 {
        '7'
    } else if d == 8 {
        '8'
    } else {
        '9'
    }
}

/// The decimal rendering of `n`, most significant digit first, no sign and no
/// leading zero (`0` renders as `"0"`).
pub open spec fn spec_decimal(n: nat) -> Seq<char>
    decreases n,
{
    if n < 10 {
        seq![spec_digit(n)]
    } else {
        spec_decimal(n / 10).push(spec_digit(n % 10))
    }
}

/// The textual form of a failure for layout `l`.
pub open spec fn spec_message(l: Layout) -> Seq<char> {
    "failed to allocate memory by required layout {size: "@ + spec_decimal(l.size as nat) + ", align: "@
        + spec_decimal(l.align as nat) + "}"@
}

/// The error value describing one rejected memory request.
#[derive(Clone, Copy, Debug, PartialEq, Eq, Structural)]
pub struct AllocError {
    pub layout: Layout,
}

impl AllocError {
    /// The descriptor wrapping `layout`.
    pub open spec fn spec_new(layout: Layout) -> AllocError {
        AllocError { layout }
    }

    /// The layout this descriptor wraps.
    pub open spec fn spec_layout(self) -> Layout {
        self.layout
    }

    /// Creates a new `AllocError` describing a rejected request for `layout`.
    ///
    /// Accepts any layout the runtime could have rejected; no validation.
    #[verifier::when_used_as_spec(spec_new)]
    pub fn new(layout: Layout) -> (e: AllocError)
        ensures
            e == AllocError::spec_new(layout),
    {
        AllocError { layout }
    }

    /// Returns the memory layout of the `AllocError`: the exact value the
    /// descriptor was created from.
    #[verifier::when_used_as_spec(spec_layout)]
    pub fn layout(self) -> (l: Layout)
        ensures
            l == self.spec_layout(),
    {
        self.layout
    }

    /// Renders the descriptor's message, exactly
    /// `"failed to allocate memory by required layout {size: S, align: A}"`
    /// with `S` and `A` the decimal size and alignment.
    pub fn message(&self) -> (s: String)
        ensures
            s@ == spec_message(self.layout),
    {
        let mut s = String::new();
        s.append("failed to allocate memory by required layout {size: ");
        push_decimal(&mut s, self.layout.size);
        s.append(", align: ");
        push_decimal(&mut s, self.layout.align);
        s.append("}");
        proof {
            assert(s@ =~= spec_message(self.layout));
        }
        s
    }
}

/// Law: a descriptor created from a layout reports exactly that layout.
pub proof fn lemma_new_reports_layout(l: Layout)
    ensures
        AllocError::spec_new(l).spec_layout() == l,
{
}

/// Appends the decimal rendering of `n` to `s`.
pub fn push_decimal(s: &mut String, n: usize)
    ensures
        final(s)@ == old(s)@ + spec_decimal(n as nat),
    decreases n,
{
    if n >= 10 {
        push_decimal(s, n / 10);
    }
    let ghost prefix: Seq<char> = s@;
    let d: usize = n % 10;
    let digit: &str = if d == 0 {
        "0"
    } else if d == 1 {
        "1"
    } else if d == 2 {
        "2"
    } else if d == 3 {
        "3"
    } else if d == 4 {
        "4"
    } else if d == 5 {
        "5"
    } else if d == 6 {
        "6"
    } else if d == 7 {
        "7"
    } else if d == 8 {
        "8"
    } else {
        "9"
    };
    proof {
        reveal_strlit("0");
        reveal_strlit("1");
        reveal_strlit("2");
        reveal_strlit("3");
        reveal_strlit("4");
        reveal_strlit("5");
        reveal_strlit("6");
        reveal_strlit("7");
        reveal_strlit("8");
        reveal_strlit("9");
        assert(digit@ =~= seq![spec_digit((n % 10) as nat)]);
    }
    s.append(digit);
    proof {
        assert(s@ =~= prefix + seq![spec_digit((n % 10) as nat)]);
        assert(s@ =~= old(s)@ + spec_decimal(n as nat));
    }
}

} // verus!
