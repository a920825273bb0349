//! The allocation-failure value, its text and its conversions from
//! reservation failures.
use crate::decimal::{decimal, digits_value, lemma_decimal_plain, push_decimal};
use crate::layout::Layout;
use std::collections::TryReserveError;
use vstd::prelude::*;

verus! {

/// The text that describes a failure to obtain `layout`.
///
/// A size of zero means that the size is not known, and the text then names
/// no layout.
pub open spec fn failure_text(layout: Layout) -> Seq<char> {
    if layout.size() != 0 {
        "failed to allocate memory by required layout {size: "@ + decimal(layout.size() as nat)
            + ", align: "@ + decimal(layout.align() as nat) + "}"@
    } else {
        "failed to allocate memory"@
    }
}

/// What a capacity reservation reports when it fails.
#[derive(Debug, Clone, Copy)]
pub enum ReserveErrorKind {
    /// The computed capacity exceeded what can be addressed; no allocation
    /// was attempted.
    CapacityOverflow,
    /// The allocator refused a request for `layout`.
    AllocError { layout: Layout },
}

/// The error type for allocation failure.
///
/// A layout size of zero means that the size that was asked for is not known.
#[derive(Debug, Clone, Copy)]
pub struct AllocError {
    layout: Layout,
}

impl AllocError {
    /// The layout that could not be obtained.
    pub closed spec fn spec_layout(self) -> Layout {
        self.layout
    }

    /// The human-readable text of this failure.
    pub open spec fn text(self) -> Seq<char> {
        failure_text(self.layout())
    }

    /// Creates a new `AllocError`.
    ///
    /// If the size of `layout` is zero, it means we do not know what the size is.
    pub fn new(layout: Layout) -> (r: Self)
        ensures
            r.layout() == layout,
    {
        AllocError { layout }
    }

    /// Returns the memory layout of the `AllocError`.
    #[verifier::when_used_as_spec(spec_layout)]
    pub fn layout(self) -> (r: Layout)
        ensures
            r == self.layout(),
    {
        self.layout
    }

    /// Renders the failure as text: the size and alignment in decimal when the
    /// size is known, and a plain message otherwise.
    pub fn to_string(&self) -> (r: String)
        ensures
            r@ == self.text(),
    {
        let layout = self.layout;
        if layout.size() != 0 {
            let mut s = String::from_str("failed to allocate memory by required layout {size: ");
            push_decimal(&mut s, layout.size());
            s.append(", align: ");
            push_decimal(&mut s, layout.align());
            s.append("}");
            s
        } else {
            String::from_str("failed to allocate memory")
        }
    }

    /// Converts a reservation failure whose kind is known, keeping the layout
    /// that the allocator refused.
    ///
    /// A capacity overflow is a different failure from a refused allocation,
    /// and callers must tell the two apart before converting.
    pub fn from_kind(kind: ReserveErrorKind) -> (r: Self)
        requires
            !(kind is CapacityOverflow),
        ensures
            kind matches ReserveErrorKind::AllocError { layout } && r.layout() == layout,
    {
        match kind {
            ReserveErrorKind::AllocError { layout } => AllocError::new(layout),
            ReserveErrorKind::CapacityOverflow => unreached(),
        }
    }
}

impl From<TryReserveError> for AllocError {
    /// Converts a reservation failure whose kind cannot be inspected: whatever
    /// its cause, the result records an unknown size (the layout `(0, 1)`).
    fn from(_e: TryReserveError) -> (r: Self)
        ensures
            r.layout().size() == 0,
            r.layout().align() == 1,
            r.text() == "failed to allocate memory"@,
    {
        proof {
            reveal(vstd::arithmetic::power2::is_pow2);
        }
        let r = AllocError::new(Layout::from_size_align(0, 1).unwrap());
        proof {
            let c = choose|c: AllocError| c.layout().size() == 0 && c.layout().align() == 1;
            assert(r.layout().size() == 0 && r.layout().align() == 1);
            Layout::lemma_same_parts_equal(r.layout(), c.layout());
        }
        r
    }
}

impl vstd::std_specs::convert::FromSpecImpl<TryReserveError> for AllocError {
    open spec fn obeys_from_spec() -> bool {
        true
    }

    /// The failure of unknown size: layout `(0, 1)`.
    open spec fn from_spec(v: TryReserveError) -> Self {
        choose|r: AllocError| r.layout().size() == 0 && r.layout().align() == 1
    }
}

/// With a known size, the text gives the size and the alignment, each as the
/// plain decimal digits of its value.
pub proof fn lemma_known_size_text(e: AllocError)
    requires
        e.layout().size() > 0,
    ensures
        e.text() == "failed to allocate memory by required layout {size: "@ + decimal(
            e.layout().size() as nat,
        ) + ", align: "@ + decimal(e.layout().align() as nat) + "}"@,
        digits_value(decimal(e.layout().size() as nat)) == e.layout().size(),
        digits_value(decimal(e.layout().align() as nat)) == e.layout().align(),
{
    lemma_decimal_plain(e.layout().size() as nat);
    lemma_decimal_plain(e.layout().align() as nat);
}

/// With an unknown size, the text is the plain message.
pub proof fn lemma_unknown_size_text(e: AllocError)
    requires
        e.layout().size() == 0,
    ensures
        e.text() == "failed to allocate memory"@,
{
}

/// A copy of a failure renders as the same text as the original.
pub proof fn lemma_copy_same_text(e: AllocError)
    ensures
        ({
            let c = e;
            c.text() == e.text()
        }),
{
}

} // verus!
