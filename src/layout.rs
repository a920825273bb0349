//! Memory layouts: a size in bytes together with a power-of-two alignment.
use vstd::arithmetic::power2::is_pow2;
use vstd::layout::valid_layout;
use vstd::prelude::*;

verus! {

/// A memory requirement: `size` bytes aligned to `align`.
///
/// The pair always satisfies `valid_layout`: the alignment is a power of two
/// and the size, rounded up to the alignment, does not exceed `isize::MAX`.
#[derive(Debug, Clone, Copy)]
pub struct Layout {
    size: usize,
    align: usize,
}

/// The reason a size and alignment pair was refused as a layout.
#[derive(Debug, Clone, Copy, PartialEq, Eq, Structural)]
pub struct LayoutError;

impl Layout {
    #[verifier::type_invariant]
    closed spec fn inv(self) -> bool {
        valid_layout(self.size, self.align)
    }

    /// The size of the layout, in bytes.
    pub closed spec fn spec_size(&self) -> usize {
        self.size
    }

    /// The alignment of the layout, in bytes.
    pub closed spec fn spec_align(&self) -> usize {
        self.align
    }

    /// Two layouts with the same size and alignment are the same layout.
    pub proof fn lemma_same_parts_equal(a: Layout, b: Layout)
        requires
            a.size() == b.size(),
            a.align() == b.align(),
        ensures
            a == b,
    {
    }

    /// Builds the layout `(size, align)`, or refuses a pair that is not a
    /// valid layout.
    pub fn from_size_align(size: usize, align: usize) -> (r: Result<Layout, LayoutError>)
        ensures
            r is Ok <==> valid_layout(size, align),
            r matches Ok(l) ==> l.size() == size && l.align() == align,
    {
        if align == 0 {
            proof {
                reveal(is_pow2);
            }
            return Err(LayoutError);
        }
        let mut a: usize = align;
        while a > 1 && a % 2 == 0
            invariant
                a > 0,
                is_pow2(align as int) == is_pow2(a as int),
            decreases a,
        {
            proof {
                reveal(is_pow2);
            }
            a = a / 2;
        }
        proof {
            reveal(is_pow2);
        }
        if a != 1 {
            return Err(LayoutError);
        }
        let max: usize = isize::MAX as usize;
        let rem: usize = max % align;
        assert(rem <= max) by (nonlinear_arith)
            requires
                rem == max % align,
                align > 0,
        ;
        if size > max - rem {
            return Err(LayoutError);
        }
        Ok(Layout { size, align })
    }

    /// The size of the layout, in bytes.
    #[verifier::when_used_as_spec(spec_size)]
    pub fn size(&self) -> (r: usize)
        ensures
            r == self.spec_size(),
            valid_layout(self.size(), self.align()),
    {
        proof {
            use_type_invariant(self);
        }
        self.size
    }

    /// The alignment of the layout, in bytes.
    #[verifier::when_used_as_spec(spec_align)]
    pub fn align(&self) -> (r: usize)
        ensures
            r == self.spec_align(),
            valid_layout(self.size(), self.align()),
    {
        proof {
            use_type_invariant(self);
        }
        self.align
    }
}

} // verus!
