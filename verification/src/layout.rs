//! Sizes and alignments of memory regions, and the rule that lays a tail after
//! a header.

use vstd::prelude::*;
use vstd::arithmetic::div_mod::{lemma_fundamental_div_mod, lemma_mod_multiples_basic};
use vstd::arithmetic::power2::is_pow2;
use vstd::layout::{align_of, layout_for_type_is_valid, size_of};

verus! {

/// Whether `n` is a multiple of `align`.
pub open spec fn is_aligned(n: int, align: int) -> bool
    recommends
        align > 0,
{
    n % align == 0
}

/// The least multiple of `align` that is not below `n`.
pub open spec fn round_up(n: int, align: int) -> int
    recommends
        align > 0,
{
    if n % align == 0 {
        n
    } else {
        n + align - n % align
    }
}

/// `round_up` is a multiple of the alignment, adds less than one alignment,
/// and no smaller multiple reaches `n`.
pub proof fn lemma_round_up(n: int, align: int)
    requires
        align > 0,
    ensures
        n <= round_up(n, align) < n + align,
        is_aligned(round_up(n, align), align),
        forall|m: int| n <= m && #[trigger] is_aligned(m, align) ==> round_up(n, align) <= m,
{
    let r = n % align;
    let up = round_up(n, align);
    assert(0 <= r < align && n == align * (n / align) + r) by (nonlinear_arith)
        requires
            align > 0,
            r == n % align,
    ;
    assert(up % align == 0) by (nonlinear_arith)
        requires
            align > 0,
            r == n % align,
            up == if r == 0 { n } else { n + align - r },
            n == align * (n / align) + r,
    ;
    assert forall|m: int| n <= m && #[trigger] is_aligned(m, align) implies up <= m by {
        if m < up {
            assert(false) by (nonlinear_arith)
                requires
                    align > 0,
                    0 < r < align,
                    n == align * (n / align) + r,
                    up == n + align - r,
                    n <= m < up,
                    m % align == 0,
            ;
        }
    }
}

/// A product with `align` is a multiple of `align`, and every multiple of
/// `align` is such a product.
pub proof fn lemma_aligned_iff_product(n: int, align: int)
    requires
        align > 0,
    ensures
        is_aligned(n, align) <==> n == (n / align) * align,
        forall|k: int| #[trigger] is_aligned(k * align, align),
{
    lemma_fundamental_div_mod(n, align);
    assert(align * (n / align) == (n / align) * align) by (nonlinear_arith);
    assert forall|k: int| #[trigger] is_aligned(k * align, align) by {
        lemma_mod_multiples_basic(k, align);
    }
    if n == (n / align) * align {
        assert(is_aligned((n / align) * align, align));
    }
}

/// Of two powers of two the smaller divides the larger.
pub proof fn lemma_pow2_divides(a: int, b: int)
    requires
        is_pow2(a),
        is_pow2(b),
        a <= b,
    ensures
        is_aligned(b, a),
    decreases a,
{
    reveal(is_pow2);
    if a == 1 {
        assert(b % 1 == 0);
    } else {
        lemma_pow2_divides(a / 2, b / 2);
        lemma_aligned_iff_product(b / 2, a / 2);
        let k = (b / 2) / (a / 2);
        assert(b == k * a) by (nonlinear_arith)
            requires
                a % 2 == 0,
                b % 2 == 0,
                b / 2 == k * (a / 2),
        ;
        lemma_aligned_iff_product(b, a);
    }
}

/// A multiple of `b` is a multiple of every divisor `a` of `b`.
pub proof fn lemma_multiple_of_divisor(n: int, a: int, b: int)
    requires
        a > 0,
        b > 0,
        is_aligned(b, a),
        is_aligned(n, b),
    ensures
        is_aligned(n, a),
{
    lemma_aligned_iff_product(b, a);
    lemma_aligned_iff_product(n, b);
    let k = (n / b) * (b / a);
    assert(n == k * a) by (nonlinear_arith)
        requires
            n == (n / b) * b,
            b == (b / a) * a,
            k == (n / b) * (b / a),
    ;
    lemma_aligned_iff_product(n, a);
}

/// The sum of two multiples of `a` is a multiple of `a`.
pub proof fn lemma_sum_of_multiples(x: int, y: int, a: int)
    requires
        a > 0,
        is_aligned(x, a),
        is_aligned(y, a),
    ensures
        is_aligned(x + y, a),
{
    lemma_aligned_iff_product(x, a);
    lemma_aligned_iff_product(y, a);
    let k = x / a + y / a;
    assert(x + y == k * a) by (nonlinear_arith)
        requires
            x == (x / a) * a,
            y == (y / a) * a,
            k == x / a + y / a,
    ;
    lemma_aligned_iff_product(x + y, a);
}

/// `n` rounded up to `align`, or `None` where that does not fit a `usize`.
pub fn checked_round_up(n: usize, align: usize) -> (r: Option<usize>)
    requires
        align > 0,
    ensures
        r == if round_up(n as int, align as int) <= usize::MAX {
            Some(round_up(n as int, align as int) as usize)
        } else {
            None
        },
{
    let rem: usize = n % align;
    if rem == 0 {
        Some(n)
    } else {
        n.checked_add(align - rem)
    }
}

/// The size and the alignment of a region of memory.
#[derive(Clone, Copy, Debug, PartialEq, Eq, Structural)]
pub struct Layout {
    /// The number of bytes.
    pub size: usize,
    /// The alignment in bytes.
    pub align: usize,
}

impl Layout {
    /// The alignment is a power of two, and the size rounded up to it fits an
    /// `isize`.
    pub open spec fn wf(self) -> bool {
        &&& is_pow2(self.align as int)
        &&& round_up(self.size as int, self.align as int) <= isize::MAX
    }

    /// Whether the size and the alignment of `T` are those of a type that
    /// exists at run time: the alignment fits a `usize` and the size an `isize`.
    pub open spec fn sized<T>() -> bool {
        size_of::<T>() <= isize::MAX && align_of::<T>() <= usize::MAX
    }

    /// The layout of a value of type `T`.
    pub open spec fn of<T>() -> Layout {
        Layout { size: size_of::<T>() as usize, align: align_of::<T>() as usize }
    }

    /// The layout of `count` values of type `T` in a row, where it exists.
    pub open spec fn array_of<T>(count: usize) -> Option<Layout> {
        if count * size_of::<T>() <= isize::MAX {
            Some(Layout { size: (count * size_of::<T>()) as usize, align: align_of::<T>() as usize })
        } else {
            None
        }
    }

    /// The offset at which `next` starts when it follows `self`: the size of
    /// `self` rounded up to the alignment of `next`.
    pub open spec fn offset_of(self, next: Layout) -> int {
        round_up(self.size as int, next.align as int)
    }

    /// The alignment of `self` followed by `next`: the larger of the two.
    pub open spec fn align_with(self, next: Layout) -> int {
        if self.align >= next.align {
            self.align as int
        } else {
            next.align as int
        }
    }

    /// The size of `self` followed by `next`, padded to the alignment of both.
    pub open spec fn size_with(self, next: Layout) -> int {
        round_up(self.offset_of(next) + next.size, self.align_with(next))
    }

    /// `self` followed by `next`: the layout of both and the offset of `next`
    /// in it, where the padded size fits an `isize`.
    pub open spec fn extend_spec(self, next: Layout) -> Option<(Layout, usize)> {
        if self.size_with(next) <= isize::MAX {
            Some(
                (
                    Layout {
                        size: self.size_with(next) as usize,
                        align: self.align_with(next) as usize,
                    },
                    self.offset_of(next) as usize,
                ),
            )
        } else {
            None
        }
    }

    /// `self` with its size rounded up to its alignment.
    pub open spec fn padded(self) -> Layout {
        Layout { size: round_up(self.size as int, self.align as int) as usize, align: self.align }
    }

    /// The layout of a type that exists at run time is a layout.
    pub proof fn lemma_of_wf<T>()
        requires
            Layout::sized::<T>(),
        ensures
            Layout::of::<T>().wf(),
    {
        broadcast use vstd::layout::group_align_properties;

        lemma_round_up(size_of::<T>() as int, align_of::<T>() as int);
    }

    /// The layout of a run of values, where it exists, is a layout.
    pub proof fn lemma_array_of_wf<T>(count: usize)
        requires
            Layout::sized::<T>(),
            Layout::array_of::<T>(count) is Some,
        ensures
            Layout::array_of::<T>(count).unwrap().wf(),
    {
        broadcast use vstd::layout::group_align_properties;

        lemma_multiple_of_size::<T>(count);
        lemma_round_up(count * size_of::<T>(), align_of::<T>() as int);
    }

    /// A layout followed by another takes at least the room of both, and the
    /// second starts at the least multiple of its alignment that is not below
    /// the size of the first. The whole is aligned as strictly as either part,
    /// and its size is a multiple of its alignment.
    pub proof fn lemma_extend_bounds(self, next: Layout)
        requires
            self.wf(),
            next.wf(),
            self.extend_spec(next) is Some,
        ensures
            ({
                let (all, offset) = self.extend_spec(next).unwrap();
                &&& all.wf()
                &&& all.size == self.size_with(next)
                &&& offset == self.offset_of(next)
                &&& all.size >= self.size + next.size
                &&& all.size >= offset + next.size
                &&& offset >= self.size
                &&& is_aligned(offset as int, next.align as int)
                &&& forall|k: int|
                    self.size <= k && #[trigger] is_aligned(k, next.align as int) ==> offset <= k
                &&& all.align == if self.align >= next.align {
                    self.align
                } else {
                    next.align
                }
                &&& is_aligned(all.size as int, all.align as int)
            }),
    {
        lemma_pow2_positive(self.align as int);
        lemma_pow2_positive(next.align as int);
        lemma_round_up(self.size as int, next.align as int);
        lemma_round_up(self.offset_of(next) + next.size, self.align_with(next));
        lemma_round_up(self.size_with(next), self.align_with(next));
    }

    /// A layout of the given size and alignment, where they make one.
    pub fn from_size_align(size: usize, align: usize) -> (r: Option<Layout>)
        ensures
            r == if (Layout { size, align }).wf() {
                Some(Layout { size, align })
            } else {
                None::<Layout>
            },
    {
        if !is_power_of_two(align) {
            return None;
        }
        proof {
            lemma_pow2_positive(align as int);
        }
        match checked_round_up(size, align) {
            Some(up) => {
                if up <= isize::MAX as usize {
                    Some(Layout { size, align })
                } else {
                    None
                }
            },
            None => None,
        }
    }

    /// The layout of a value of type `T`.
    pub fn new<T>() -> (l: Layout)
        ensures
            l == Layout::of::<T>(),
            l.wf(),
            Layout::sized::<T>(),
    {
        broadcast use vstd::layout::align_properties;

        layout_for_type_is_valid::<T>();
        let l = Layout { size: core::mem::size_of::<T>(), align: core::mem::align_of::<T>() };
        proof {
            lemma_round_up(l.size as int, l.align as int);
        }
        l
    }

    /// The layout of `count` values of type `T` in a row, or `None` where
    /// their size does not fit an `isize`.
    pub fn array<T>(count: usize) -> (r: Option<Layout>)
        ensures
            r == Layout::array_of::<T>(count),
            r matches Some(l) ==> l.wf(),
            Layout::sized::<T>(),
    {
        broadcast use vstd::layout::align_properties;

        layout_for_type_is_valid::<T>();
        let size: usize = core::mem::size_of::<T>();
        let align: usize = core::mem::align_of::<T>();
        match count.checked_mul(size) {
            Some(total) => {
                if total <= isize::MAX as usize {
                    proof {
                        lemma_multiple_of_size::<T>(count);
                        lemma_round_up(total as int, align as int);
                    }
                    Some(Layout { size: total, align })
                } else {
                    None
                }
            },
            None => None,
        }
    }

    /// The number of bytes.
    pub fn size(&self) -> (n: usize)
        ensures
            n == self.size,
    {
        self.size
    }

    /// The alignment in bytes.
    pub fn align(&self) -> (n: usize)
        ensures
            n == self.align,
    {
        self.align
    }

    /// The layout of `self` followed by `next`, padded to the alignment of
    /// both, and the offset at which `next` starts in it. `None` where the
    /// padded size does not fit an `isize`.
    pub fn extend(&self, next: Layout) -> (r: Option<(Layout, usize)>)
        requires
            self.wf(),
            next.wf(),
        ensures
            r == self.extend_spec(next),
            r matches Some((l, _)) ==> l.wf(),
    {
        let align: usize = if self.align >= next.align {
            self.align
        } else {
            next.align
        };
        proof {
            lemma_pow2_positive(self.align as int);
            lemma_pow2_positive(next.align as int);
            lemma_round_up(self.size as int, next.align as int);
            lemma_round_up(self.offset_of(next) + next.size, align as int);
        }
        let offset: usize = match checked_round_up(self.size, next.align) {
            Some(offset) => offset,
            None => {
                return None;
            },
        };
        let end: usize = match offset.checked_add(next.size) {
            Some(end) => end,
            None => {
                return None;
            },
        };
        let size: usize = match checked_round_up(end, align) {
            Some(size) => size,
            None => {
                return None;
            },
        };
        if size > isize::MAX as usize {
            return None;
        }
        proof {
            lemma_round_up(size as int, align as int);
        }
        Some((Layout { size, align }, offset))
    }

    /// `self` with its size rounded up to its alignment.
    pub fn pad_to_align(&self) -> (l: Layout)
        requires
            self.wf(),
        ensures
            l == self.padded(),
            l.wf(),
    {
        proof {
            lemma_pow2_positive(self.align as int);
            lemma_round_up(self.size as int, self.align as int);
            lemma_round_up(round_up(self.size as int, self.align as int), self.align as int);
        }
        match checked_round_up(self.size, self.align) {
            Some(size) => Layout { size, align: self.align },
            None => *self,
        }
    }
}

/// A power of two is positive.
pub proof fn lemma_pow2_positive(n: int)
    requires
        is_pow2(n),
    ensures
        n > 0,
{
    reveal(is_pow2);
}

/// The size of `count` values of type `T` is a multiple of the alignment of `T`.
pub proof fn lemma_multiple_of_size<T>(count: usize)
    ensures
        is_aligned(count * size_of::<T>(), align_of::<T>() as int),
{
    broadcast use vstd::layout::group_align_properties;

    let size = size_of::<T>() as int;
    let align = align_of::<T>() as int;
    lemma_aligned_iff_product(size, align);
    let k = count * (size / align);
    assert(count * size == k * align) by (nonlinear_arith)
        requires
            size == (size / align) * align,
            k == count * (size / align),
    ;
    lemma_aligned_iff_product(count * size, align);
}

/// Whether `n` is a power of two.
pub fn is_power_of_two(n: usize) -> (b: bool)
    ensures
        b == is_pow2(n as int),
{
    let mut m: usize = n;
    if m == 0 {
        proof {
            reveal(is_pow2);
        }
        return false;
    }
    while m % 2 == 0
        invariant
            m > 0,
            is_pow2(m as int) == is_pow2(n as int),
        decreases m,
    {
        proof {
            reveal(is_pow2);
        }
        m = m / 2;
    }
    proof {
        reveal(is_pow2);
    }
    m == 1
}

} // verus!
