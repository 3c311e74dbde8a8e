//! The memory layout of a record that holds a counting block and, behind it,
//! a run of equal elements: sizes and alignments as plain numbers, for callers
//! that lay such a record out in one allocation.

use vstd::prelude::*;

verus! {

/// The largest size a layout may have once rounded up to its alignment.
pub const MAX_SIZE: usize = usize::MAX / 2;

/// Whether `n` is a power of two.
pub open spec fn is_power_of_two(n: usize) -> bool {
    n != 0 && n & ((n - 1) as usize) == 0
}

/// Whether a size and an alignment make a layout: the alignment is a power of
/// two, and the size rounded up to it does not pass `MAX_SIZE`.
pub open spec fn valid_layout(size: usize, align: usize) -> bool {
    is_power_of_two(align) && size + (align - 1) <= MAX_SIZE
}

/// `size` rounded up to the next multiple of `align`.
pub open spec fn round_up(size: int, align: int) -> int {
    if size % align == 0 {
        size
    } else {
        size + align - size % align
    }
}

/// The larger of two alignments.
pub open spec fn larger(a: usize, b: usize) -> usize {
    if a >= b {
        a
    } else {
        b
    }
}

/// `round_up` gives a multiple of `align` that is not below `size` and less
/// than `align` above it.
pub proof fn lemma_round_up_is_multiple(size: int, align: int)
    requires
        size >= 0,
        align > 0,
    ensures
        round_up(size, align) % align == 0,
        size <= round_up(size, align) < size + align,
{
    let q = size / align;
    let r = size % align;
    vstd::arithmetic::div_mod::lemma_fundamental_div_mod(size, align);
    if r != 0 {
        assert(size + align - r == (q + 1) * align + 0) by (nonlinear_arith)
            requires
                size == align * q + r,
        ;
        vstd::arithmetic::div_mod::lemma_fundamental_div_mod_converse(
            size + align - r,
            align,
            q + 1,
            0,
        );
    }
}

/// No multiple of `align` lies between `size` and `round_up`.
pub proof fn lemma_round_up_is_least(size: int, align: int, multiple: int)
    requires
        size >= 0,
        align > 0,
        multiple >= size,
        multiple % align == 0,
    ensures
        multiple >= round_up(size, align),
{
    let q = size / align;
    let r = size % align;
    let k = multiple / align;
    vstd::arithmetic::div_mod::lemma_fundamental_div_mod(size, align);
    vstd::arithmetic::div_mod::lemma_fundamental_div_mod(multiple, align);
    if r != 0 && multiple < size + align - r {
        assert(false) by (nonlinear_arith)
            requires
                multiple == align * k,
                size == align * q + r,
                0 < r < align,
                size <= multiple < size + align - r,
        ;
    }
}

/// The size and alignment of a block of memory.
pub struct RecordLayout {
    size: usize,
    align: usize,
}

impl RecordLayout {
    #[verifier::type_invariant]
    spec fn well_formed(self) -> bool {
        valid_layout(self.size, self.align)
    }

    /// The size in bytes.
    pub closed spec fn spec_size(&self) -> usize {
        self.size
    }

    /// The alignment in bytes.
    pub closed spec fn spec_align(&self) -> usize {
        self.align
    }

    /// The size in bytes.
    pub fn size(&self) -> (size: usize)
        ensures
            size == self.spec_size(),
            valid_layout(self.spec_size(), self.spec_align()),
    {
        proof {
            use_type_invariant(self);
        }
        self.size
    }

    /// The alignment in bytes.
    pub fn align(&self) -> (align: usize)
        ensures
            align == self.spec_align(),
            valid_layout(self.spec_size(), self.spec_align()),
    {
        proof {
            use_type_invariant(self);
        }
        self.align
    }

    /// The layout of the given size and alignment, where they make one.
    pub fn from_size_align(size: usize, align: usize) -> (layout: Option<RecordLayout>)
        ensures
            layout.is_some() == valid_layout(size, align),
            layout matches Some(l) ==> l.spec_size() == size && l.spec_align() == align,
    {
        if align == 0 || align & (align - 1) != 0 {
            return None;
        }
        proof {
            lemma_power_of_two_bound(align);
        }
        if size > MAX_SIZE - (align - 1) {
            return None;
        }
        Some(RecordLayout { size, align })
    }

    /// The layout of `len` elements of layout `self` in a row, each padded to
    /// its alignment, where the run is not too long to have one.
    pub fn array(&self, len: usize) -> (layout: Option<RecordLayout>)
        ensures
            layout.is_some() == (round_up(self.spec_size() as int, self.spec_align() as int) * len
                + (self.spec_align() - 1) <= MAX_SIZE),
            layout matches Some(l) ==> l.spec_size() == round_up(
                self.spec_size() as int,
                self.spec_align() as int,
            ) * len && l.spec_align() == self.spec_align(),
    {
        let element: RecordLayout = self.pad_to_align();
        proof {
            use_type_invariant(&element);
        }
        let limit: usize = MAX_SIZE - (element.align - 1);
        if element.size != 0 && len > limit / element.size {
            proof {
                let q = limit / element.size;
                vstd::arithmetic::div_mod::lemma_fundamental_div_mod(
                    limit as int,
                    element.size as int,
                );
                assert(element.size * len > limit) by (nonlinear_arith)
                    requires
                        limit == element.size * q + (limit % element.size),
                        0 <= (limit % element.size) < element.size,
                        len >= q + 1,
                ;
            }
            return None;
        }
        proof {
            if element.size != 0 {
                let q = limit / element.size;
                vstd::arithmetic::div_mod::lemma_fundamental_div_mod(
                    limit as int,
                    element.size as int,
                );
                assert(element.size * len <= limit) by (nonlinear_arith)
                    requires
                        limit == element.size * q + (limit % element.size),
                        0 <= (limit % element.size),
                        0 <= len <= q,
                        element.size > 0,
                ;
            } else {
                assert(element.size * len == 0) by (nonlinear_arith)
                    requires
                        element.size == 0,
                ;
            }
        }
        Some(RecordLayout { size: element.size * len, align: element.align })
    }

    /// The number of bytes to add to the size to reach a multiple of `align`.
    pub fn padding_needed_for(&self, align: usize) -> (padding: usize)
        requires
            align > 0,
        ensures
            padding == round_up(self.spec_size() as int, align as int) - self.spec_size(),
            padding < align,
    {
        let rest: usize = self.size % align;
        if rest == 0 {
            0
        } else {
            align - rest
        }
    }

    /// The layout of `self` followed by `next`, with the padding that puts
    /// `next` on its alignment, and the offset at which `next` starts; `None`
    /// where the whole is too large to have a layout.
    pub fn extend(&self, next: &RecordLayout) -> (extended: Option<(RecordLayout, usize)>)
        ensures
            extended.is_some() == (round_up(self.spec_size() as int, next.spec_align() as int)
                + next.spec_size() + (larger(self.spec_align(), next.spec_align()) - 1)
                <= MAX_SIZE),
            extended matches Some((l, offset)) ==> {
                &&& offset == round_up(self.spec_size() as int, next.spec_align() as int)
                &&& l.spec_size() == offset + next.spec_size()
                &&& l.spec_align() == larger(self.spec_align(), next.spec_align())
            },
    {
        proof {
            use_type_invariant(self);
            use_type_invariant(next);
        }
        let align: usize = if self.align >= next.align {
            self.align
        } else {
            next.align
        };
        let padding: usize = self.padding_needed_for(next.align);
        let offset: usize = self.size + padding;
        if offset > MAX_SIZE || next.size > MAX_SIZE - offset {
            return None;
        }
        let size: usize = offset + next.size;
        if size > MAX_SIZE - (align - 1) {
            return None;
        }
        Some((RecordLayout { size, align }, offset))
    }

    /// The layout with its size rounded up to a multiple of its alignment.
    pub fn pad_to_align(&self) -> (padded: RecordLayout)
        ensures
            padded.spec_size() == round_up(self.spec_size() as int, self.spec_align() as int),
            padded.spec_size() % padded.spec_align() == 0,
            padded.spec_align() == self.spec_align(),
    {
        proof {
            use_type_invariant(self);
        }
        let padding: usize = self.padding_needed_for(self.align);
        proof {
            lemma_round_up_fits(self.size, self.align);
            lemma_round_up_is_multiple(self.size as int, self.align as int);
        }
        RecordLayout { size: self.size + padding, align: self.align }
    }
}

/// Rounding a valid size up to its alignment leaves it valid.
pub proof fn lemma_round_up_fits(size: usize, align: usize)
    requires
        valid_layout(size, align),
    ensures
        round_up(size as int, align as int) + (align - 1) <= MAX_SIZE,
{
    lemma_limit_is_multiple(align);
    lemma_round_up_is_least(size as int, align as int, MAX_SIZE + 1 - align);
}

/// A power of two is at most `MAX_SIZE + 1`.
pub proof fn lemma_power_of_two_bound(align: usize)
    requires
        is_power_of_two(align),
    ensures
        align <= MAX_SIZE + 1,
{
    assert(usize::MAX as int == 0xFFFF_FFFF || usize::MAX as int == 0xFFFF_FFFF_FFFF_FFFF);
    if usize::MAX as int == 0xFFFF_FFFF {
        let a = align as u32;
        assert(a != 0 && a & ((a - 1) as u32) == 0 ==> a <= 0x8000_0000u32) by (bit_vector);
    } else {
        let a = align as u64;
        assert(a != 0 && a & ((a - 1) as u64) == 0 ==> a <= 0x8000_0000_0000_0000u64)
            by (bit_vector);
    }
}

/// `MAX_SIZE + 1` less a power of two is a multiple of that power.
pub proof fn lemma_limit_is_multiple(align: usize)
    requires
        is_power_of_two(align),
        align <= MAX_SIZE + 1,
    ensures
        (MAX_SIZE + 1 - align) % (align as int) == 0,
{
    assert(usize::MAX as int == 0xFFFF_FFFF || usize::MAX as int == 0xFFFF_FFFF_FFFF_FFFF);
    if usize::MAX as int == 0xFFFF_FFFF {
        let a = align as u32;
        assert(a != 0 && a & ((a - 1) as u32) == 0 && a <= 0x8000_0000u32 ==> ((0x8000_0000u32
            - a) as u32) % a == 0) by (bit_vector);
    } else {
        let a = align as u64;
        assert(a != 0 && a & ((a - 1) as u64) == 0 && a <= 0x8000_0000_0000_0000u64 ==> ((
        0x8000_0000_0000_0000u64 - a) as u64) % a == 0) by (bit_vector);
    }
}

/// The layout of a record that holds a header and, behind it, `len` elements,
/// and the offset at which the elements start: the header, the padding that
/// puts the elements on their alignment, the elements in a row, each padded
/// to its alignment, and the padding that brings the whole to a multiple of
/// the larger alignment. `None` where the record is too large to have a
/// layout.
pub fn slice_record_layout(header: &RecordLayout, element: &RecordLayout, len: usize) -> (layout:
    Option<(RecordLayout, usize)>)
    ensures
        layout.is_some() == slice_record_fits(
            header.spec_size(),
            header.spec_align(),
            element.spec_size(),
            element.spec_align(),
            len,
        ),
        layout matches Some((l, offset)) ==> {
            &&& offset == round_up(header.spec_size() as int, element.spec_align() as int)
            &&& l.spec_align() == larger(header.spec_align(), element.spec_align())
            &&& l.spec_size() % l.spec_align() == 0
            &&& l.spec_size() == round_up(
                offset + round_up(element.spec_size() as int, element.spec_align() as int) * len,
                l.spec_align() as int,
            )
        },
{
    match element.array(len) {
        None => None,
        Some(elements) => match header.extend(&elements) {
            None => None,
            Some((record, offset)) => Some((record.pad_to_align(), offset)),
        },
    }
}

/// Whether a record of a header and `len` elements has a layout: the elements
/// in a row have one, and so has the header followed by them.
pub open spec fn slice_record_fits(
    header_size: usize,
    header_align: usize,
    element_size: usize,
    element_align: usize,
    len: usize,
) -> bool {
    &&& round_up(element_size as int, element_align as int) * len + (element_align - 1)
        <= MAX_SIZE
    &&& round_up(header_size as int, element_align as int) + round_up(
        element_size as int,
        element_align as int,
    ) * len + (larger(header_align, element_align) - 1) <= MAX_SIZE
}

} // verus!
