//! Page arithmetic: the byte length that a request of a given size and
//! alignment occupies once it is rounded to whole pages.

use vstd::prelude::*;

verus! {

/// The unit to which a request is rounded: its alignment or the page size,
/// whichever is larger.
pub open spec fn granule(align: int, page_size: int) -> int {
    if align >= page_size {
        align
    } else {
        page_size
    }
}

/// The smallest multiple of `unit` that is at least `size`.
pub open spec fn round_up(size: int, unit: int) -> int
    recommends
        size >= 0,
        unit > 0,
{
    ((size + unit - 1) / unit) * unit
}

/// `round_up(size, unit)` is a multiple of `unit`, is at least `size`, and
/// exceeds `size` by less than one unit.
pub proof fn lemma_round_up_bounds(size: int, unit: int)
    requires
        size >= 0,
        unit > 0,
    ensures
        round_up(size, unit) % unit == 0,
        size <= round_up(size, unit) < size + unit,
{
    let q = (size + unit - 1) / unit;
    vstd::arithmetic::div_mod::lemma_fundamental_div_mod(size + unit - 1, unit);
    vstd::arithmetic::div_mod::lemma_mod_multiples_basic(q, unit);
    assert(unit * q == q * unit) by (nonlinear_arith);
    assert(0 <= (size + unit - 1) % unit < unit);
}

/// Two distinct multiples of `unit` lie at least one unit apart.
proof fn lemma_multiples_apart(low: int, high: int, unit: int)
    requires
        unit > 0,
        low % unit == 0,
        high % unit == 0,
        low < high,
    ensures
        high - low >= unit,
{
    vstd::arithmetic::div_mod::lemma_fundamental_div_mod(low, unit);
    vstd::arithmetic::div_mod::lemma_fundamental_div_mod(high, unit);
    let a = low / unit;
    let b = high / unit;
    assert(b > a) by (nonlinear_arith)
        requires
            unit * b > unit * a,
            unit > 0,
    ;
    assert(unit * b - unit * a >= unit) by (nonlinear_arith)
        requires
            b >= a + 1,
            unit > 0,
    ;
}

/// No multiple of `unit` that is at least `size` lies below
/// `round_up(size, unit)`.
pub proof fn lemma_round_up_least(size: int, unit: int, other: int)
    requires
        size >= 0,
        unit > 0,
        other % unit == 0,
        other >= size,
    ensures
        round_up(size, unit) <= other,
{
    lemma_round_up_bounds(size, unit);
    if round_up(size, unit) > other {
        lemma_multiples_apart(other, round_up(size, unit), unit);
    }
}

/// A multiple of `unit` that is at least `size` and exceeds it by less than
/// one unit is `round_up(size, unit)`.
pub proof fn lemma_round_up_unique(size: int, unit: int, other: int)
    requires
        size >= 0,
        unit > 0,
        other % unit == 0,
        size <= other < size + unit,
    ensures
        round_up(size, unit) == other,
{
    lemma_round_up_bounds(size, unit);
    lemma_round_up_least(size, unit, other);
    if round_up(size, unit) < other {
        lemma_multiples_apart(round_up(size, unit), other, unit);
    }
}

/// A request of at most `isize::MAX` bytes, rounded up to any unit that a
/// `usize` holds, is a length that a `usize` holds.
pub proof fn lemma_round_up_fits(size: usize, unit: usize)
    requires
        size <= isize::MAX,
        unit > 0,
    ensures
        round_up(size as int, unit as int) <= usize::MAX,
{
    lemma_round_up_bounds(size as int, unit as int);
    if size <= unit {
        vstd::arithmetic::div_mod::lemma_mod_self_0(unit as int);
        lemma_round_up_least(size as int, unit as int, unit as int);
    }
}

/// Returns the smallest multiple of `max(align, page_size)` that is at least
/// `size`.
pub fn aligned_size(size: usize, align: usize, page_size: usize) -> (len: usize)
    requires
        size <= isize::MAX,
        align > 0 || page_size > 0,
    ensures
        len == round_up(size as int, granule(align as int, page_size as int)),
        len as int % granule(align as int, page_size as int) == 0,
        len >= size,
        len - size < granule(align as int, page_size as int),
{
    let unit: usize = if align >= page_size {
        align
    } else {
        page_size
    };
    let rest: usize = size % unit;
    proof {
        vstd::arithmetic::div_mod::lemma_fundamental_div_mod(size as int, unit as int);
        if rest == 0 {
            lemma_round_up_unique(size as int, unit as int, size as int);
        } else {
            let whole = size as int - rest as int + unit as int;
            let q = size as int / unit as int;
            assert(whole == (q + 1) * unit) by (nonlinear_arith)
                requires
                    size as int == unit * q + rest,
                    whole == size as int - rest as int + unit as int,
            ;
            vstd::arithmetic::div_mod::lemma_mod_multiples_basic(q + 1, unit as int);
            lemma_round_up_unique(size as int, unit as int, whole);
            if size < unit {
                vstd::arithmetic::div_mod::lemma_small_mod(size as nat, unit as nat);
            }
        }
    }
    if rest == 0 {
        size
    } else {
        size - rest + unit
    }
}

/// The size and alignment of a request for memory.
#[derive(Clone, Copy, Debug, PartialEq, Eq, Structural)]
pub struct Layout {
    size: usize,
    align: usize,
}

impl Layout {
    /// The requested size in bytes.
    pub closed spec fn spec_size(&self) -> usize {
        self.size
    }

    /// The requested alignment in bytes.
    pub closed spec fn spec_align(&self) -> usize {
        self.align
    }

    /// A layout asks for at most `isize::MAX` bytes at a positive alignment.
    pub open spec fn wf(&self) -> bool {
        self.spec_align() > 0 && self.spec_size() <= isize::MAX
    }

    /// Builds the layout of `size` bytes aligned to `align`, if that is a
    /// layout: `align` is positive and `size` is at most `isize::MAX`.
    pub fn from_size_align(size: usize, align: usize) -> (layout: Option<Layout>)
        ensures
            layout.is_some() <==> align > 0 && size <= isize::MAX,
            layout matches Some(l) ==> l.wf() && l.spec_size() == size && l.spec_align()
                == align,
    {
        if align > 0 && size <= usize::MAX / 2 {
            Some(Layout { size, align })
        } else {
            None
        }
    }

    /// The layout of one value of type `T`.
    pub fn new<T>() -> (layout: Option<Layout>)
        ensures
            layout.is_some() <==> vstd::layout::size_of::<T>() <= isize::MAX,
            layout matches Some(l) ==> l.wf() && l.spec_size() == vstd::layout::size_of::<T>()
                && l.spec_align() == vstd::layout::align_of::<T>(),
    {
        broadcast use vstd::layout::align_nonzero;

        Layout::from_size_align(core::mem::size_of::<T>(), core::mem::align_of::<T>())
    }

    /// The requested size in bytes.
    #[verifier::when_used_as_spec(spec_size)]
    pub fn size(&self) -> (size: usize)
        ensures
            size == self.spec_size(),
    {
        self.size
    }

    /// The requested alignment in bytes.
    #[verifier::when_used_as_spec(spec_align)]
    pub fn align(&self) -> (align: usize)
        ensures
            align == self.spec_align(),
    {
        self.align
    }
}

/// Requests that know the length they occupy in whole pages.
pub trait AlignedSize {
    /// The requested size in bytes.
    spec fn requested_size(&self) -> int;

    /// The requested alignment in bytes.
    spec fn requested_align(&self) -> int;

    /// Whether `page_aligned_size` can be asked of this request.
    spec fn sizable(&self) -> bool;

    /// Returns the size of the request rounded up to whole pages: the smallest
    /// multiple of `max(align, page_size)` that is at least the size.
    fn page_aligned_size(&self, page_size: usize) -> (len: usize)
        requires
            self.sizable(),
            page_size > 0,
        ensures
            len == round_up(
                self.requested_size(),
                granule(self.requested_align(), page_size as int),
            ),
    ;
}

impl AlignedSize for Layout {
    open spec fn requested_size(&self) -> int {
        self.spec_size() as int
    }

    open spec fn requested_align(&self) -> int {
        self.spec_align() as int
    }

    open spec fn sizable(&self) -> bool {
        self.wf()
    }

    fn page_aligned_size(&self, page_size: usize) -> (len: usize) {
        aligned_size(self.size, self.align, page_size)
    }
}

} // verus!
