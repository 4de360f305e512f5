//! The set of answer options a user has chosen, packed into one byte.

use vstd::prelude::*;

verus! {

/// The number of options a selection set can address.
pub const CAPACITY: usize = 8;

/// The byte whose only set bit is bit `i`, or zero when `i` addresses no bit.
pub open spec fn mask_of(i: int) -> u8 {
    if i == 0 {
        0x01u8
    } else if i == 1 {
        0x02u8
    } else if i == 2 {
        0x04u8
    } else if i == 3 {
        0x08u8
    } else if i == 4 {
        0x10u8
    } else if i == 5 {
        0x20u8
    } else if i == 6 {
        0x40u8
    } else if i == 7 {
        0x80u8
    } else {
        0x00u8
    }
}

/// Whether bit `i` of `bits` is set. No bit lies outside `0..8`.
pub open spec fn bit_at(bits: u8, i: int) -> bool {
    0 <= i < 8 && bits & mask_of(i) != 0
}

/// The option indices whose bit is set in `bits`.
pub open spec fn indices_of(bits: u8) -> Set<int> {
    Set::new(|i: int| bit_at(bits, i))
}

/// A set of option indices in `0..8`, one bit per option.
#[derive(Clone, Copy, Debug, PartialEq, Eq, Structural)]
pub struct SelectionFlags {
    pub bits: u8,
}

impl View for SelectionFlags {
    type V = Set<int>;

    open spec fn view(&self) -> Set<int> {
        indices_of(self.bits)
    }
}

/// Two bytes that agree on every bit are the same byte.
pub proof fn lemma_bits_determined(a: u8, b: u8)
    requires
        forall|i: int| 0 <= i < 8 ==> bit_at(a, i) == bit_at(b, i),
    ensures
        a == b,
{
    assert(bit_at(a, 0) == bit_at(b, 0));
    assert(bit_at(a, 1) == bit_at(b, 1));
    assert(bit_at(a, 2) == bit_at(b, 2));
    assert(bit_at(a, 3) == bit_at(b, 3));
    assert(bit_at(a, 4) == bit_at(b, 4));
    assert(bit_at(a, 5) == bit_at(b, 5));
    assert(bit_at(a, 6) == bit_at(b, 6));
    assert(bit_at(a, 7) == bit_at(b, 7));
    assert(a == b) by (bit_vector)
        requires
            (a & 0x01 != 0) == (b & 0x01 != 0),
            (a & 0x02 != 0) == (b & 0x02 != 0),
            (a & 0x04 != 0) == (b & 0x04 != 0),
            (a & 0x08 != 0) == (b & 0x08 != 0),
            (a & 0x10 != 0) == (b & 0x10 != 0),
            (a & 0x20 != 0) == (b & 0x20 != 0),
            (a & 0x40 != 0) == (b & 0x40 != 0),
            (a & 0x80 != 0) == (b & 0x80 != 0),
    ;
}

/// A selection set is determined by the indices it holds.
pub proof fn lemma_view_determines_bits(a: SelectionFlags, b: SelectionFlags)
    requires
        a@ == b@,
    ensures
        a == b,
{
    assert forall|i: int| 0 <= i < 8 implies bit_at(a.bits, i) == bit_at(b.bits, i) by {
        assert(a@.contains(i) == bit_at(a.bits, i));
        assert(b@.contains(i) == bit_at(b.bits, i));
    }
    lemma_bits_determined(a.bits, b.bits);
}

/// Whether `m` is one of the eight single-bit bytes.
pub open spec fn is_mask(m: u8) -> bool {
    m == 0x01 || m == 0x02 || m == 0x04 || m == 0x08 || m == 0x10 || m == 0x20 || m == 0x40 || m
        == 0x80
}

/// Bit by bit, `^` is "exactly one of the two", `|` is "either of the two"
/// and `&` is "both of the two"; the zero byte has no bit.
pub proof fn lemma_bitwise(a: u8, b: u8, i: int)
    ensures
        bit_at(a ^ b, i) == (bit_at(a, i) != bit_at(b, i)),
        bit_at(a | b, i) == (bit_at(a, i) || bit_at(b, i)),
        bit_at(a & b, i) == (bit_at(a, i) && bit_at(b, i)),
        !bit_at(0u8, i),
{
    if 0 <= i < 8 {
        let m = mask_of(i);
        assert(is_mask(m));
        assert(((a ^ b) & m != 0) == ((a & m != 0) != (b & m != 0)) && ((a | b) & m != 0) == ((a
            & m != 0) || (b & m != 0)) && ((a & b) & m != 0) == ((a & m != 0) && (b & m != 0))
            && 0u8 & m == 0) by (bit_vector)
            requires
                is_mask(m),
        ;
    }
}

/// The byte `mask_of(i)` holds bit `i` and no other, and is what `1 << i` computes.
pub proof fn lemma_mask(i: u8, j: int)
    requires
        i < 8,
    ensures
        1u8 << i == mask_of(i as int),
        bit_at(mask_of(i as int), j) == (j == i),
{
    assert(1u8 << i == (if i == 0 {
        0x01u8
    } else if i == 1 {
        0x02u8
    } else if i == 2 {
        0x04u8
    } else if i == 3 {
        0x08u8
    } else if i == 4 {
        0x10u8
    } else if i == 5 {
        0x20u8
    } else if i == 6 {
        0x40u8
    } else {
        0x80u8
    })) by (bit_vector)
        requires
            i < 8,
    ;
    if 0 <= j < 8 {
        let m = mask_of(i as int);
        let n = mask_of(j);
        assert(is_mask(m) && is_mask(n));
        assert((m & n != 0) == (m == n)) by (bit_vector)
            requires
                is_mask(m),
                is_mask(n),
        ;
    }
}

/// Shifting `n` places to the right leaves zero exactly when no bit from `n` up is set.
pub proof fn lemma_shift(bits: u8, n: u8)
    requires
        n < 8,
    ensures
        (bits >> n == 0) <==> (forall|i: int| bit_at(bits, i) ==> i < n),
{
    assert((bits >> n == 0) <==> ((bits & 0x01 != 0 ==> 0 < n) && (bits & 0x02 != 0 ==> 1 < n) && (
    bits & 0x04 != 0 ==> 2 < n) && (bits & 0x08 != 0 ==> 3 < n) && (bits & 0x10 != 0 ==> 4 < n)
        && (bits & 0x20 != 0 ==> 5 < n) && (bits & 0x40 != 0 ==> 6 < n) && (bits & 0x80 != 0 ==> 7
        < n))) by (bit_vector)
        requires
            n < 8,
    ;
    if bits >> n == 0 {
        assert forall|i: int| bit_at(bits, i) implies i < n by {}
    } else {
        assert(bit_at(bits, 0) || bit_at(bits, 1) || bit_at(bits, 2) || bit_at(bits, 3) || bit_at(
            bits,
            4,
        ) || bit_at(bits, 5) || bit_at(bits, 6) || bit_at(bits, 7));
    }
}

impl SelectionFlags {
    /// The byte of the set that holds the first option alone.
    pub const A: u8 = 0x01;

    /// The byte of the set that holds the second option alone.
    pub const B: u8 = 0x02;

    /// The byte of the set that holds the third option alone.
    pub const C: u8 = 0x04;

    /// The byte of the set that holds the fourth option alone.
    pub const D: u8 = 0x08;

    /// The byte of the set that holds the fifth option alone.
    pub const E: u8 = 0x10;

    /// The byte of the set that holds the sixth option alone.
    pub const F: u8 = 0x20;

    /// The byte of the set that holds the seventh option alone.
    pub const G: u8 = 0x40;

    /// The byte of the set that holds the eighth option alone.
    pub const H: u8 = 0x80;

    /// The byte of the empty set.
    pub const NONE: u8 = 0x00;

    /// The empty set.
    pub fn empty() -> (r: SelectionFlags)
        ensures
            r@ == Set::<int>::empty(),
            r.bits == 0,
    {
        proof {
            assert forall|i: int| !bit_at(0u8, i) by {
                lemma_bitwise(0, 0, i);
            }
            assert(indices_of(0u8) =~= Set::<int>::empty());
        }
        SelectionFlags { bits: 0 }
    }

    /// The set whose byte is `bits`. Every byte is a set, so this never fails.
    pub fn from_bits(bits: u8) -> (r: Option<SelectionFlags>)
        ensures
            r == Some(SelectionFlags { bits }),
    {
        Some(SelectionFlags { bits })
    }

    /// The byte that holds the set.
    pub fn bits(&self) -> (r: u8)
        ensures
            r == self.bits,
            indices_of(r) == self@,
    {
        self.bits
    }

    /// The set that holds option `index` alone, if the set can address it.
    pub fn single(index: usize) -> (r: Option<SelectionFlags>)
        ensures
            index < CAPACITY ==> r is Some && r->0@ == set![index as int],
            index >= CAPACITY ==> r is None,
    {
        if index < CAPACITY {
            let shift: u8 = index as u8;
            proof {
                lemma_mask(shift, 0);
                assert forall|j: int| bit_at(mask_of(index as int), j) == (j == index) by {
                    lemma_mask(shift, j);
                }
                assert(indices_of(mask_of(index as int)) =~= set![index as int]);
            }
            Some(SelectionFlags { bits: 1u8 << shift })
        } else {
            None
        }
    }

    /// Whether no option is chosen.
    pub fn is_empty(&self) -> (r: bool)
        ensures
            r == (self@ == Set::<int>::empty()),
    {
        proof {
            let none = SelectionFlags { bits: 0 };
            assert forall|i: int| !bit_at(0u8, i) by {
                lemma_bitwise(0, 0, i);
            }
            assert(none@ =~= Set::<int>::empty());
            if self@ == Set::<int>::empty() {
                lemma_view_determines_bits(*self, none);
            }
        }
        self.bits == 0
    }

    /// Whether the set shares an option with the set whose byte is `index`.
    ///
    /// Callers pass the byte of a single option, `1 << i`, to ask whether
    /// option `i` is chosen.
    pub fn is_selected(&self, index: u8) -> (r: bool)
        ensures
            r == !self@.disjoint(indices_of(index)),
            forall|i: int| 0 <= i < 8 && index == mask_of(i) ==> r == self@.contains(i),
    {
        let common: u8 = self.bits & index;
        proof {
            let both = SelectionFlags { bits: common };
            let none = SelectionFlags { bits: 0 };
            assert forall|i: int| both@.contains(i) == (self@.contains(i) && indices_of(
                index,
            ).contains(i)) by {
                lemma_bitwise(self.bits, index, i);
            }
            assert forall|i: int| !none@.contains(i) by {
                lemma_bitwise(0, 0, i);
            }
            if self@.disjoint(indices_of(index)) {
                assert(both@ =~= none@);
                lemma_view_determines_bits(both, none);
            } else {
                let i = choose|i: int| self@.contains(i) && indices_of(index).contains(i);
                assert(both@.contains(i));
            }
            assert forall|i: int| 0 <= i < 8 && index == mask_of(i) implies (common != 0)
                == self@.contains(i) by {}
        }
        common != 0
    }

    /// Whether every chosen option lies below `count`.
    pub fn fits(&self, count: usize) -> (r: bool)
        ensures
            r == within_range(self@, count as int),
    {
        proof {
            assert forall|i: int| self@.contains(i) == bit_at(self.bits, i) by {}
        }
        if count >= CAPACITY {
            true
        } else {
            let shift: u8 = count as u8;
            proof {
                lemma_shift(self.bits, shift);
            }
            self.bits >> shift == 0
        }
    }

    /// The options chosen in exactly one of the two sets.
    pub fn toggled(&self, other: SelectionFlags) -> (r: SelectionFlags)
        ensures
            r@ == flipped(self@, other@),
    {
        proof {
            assert forall|i: int| bit_at(self.bits ^ other.bits, i) == (bit_at(self.bits, i)
                != bit_at(other.bits, i)) by {
                lemma_bitwise(self.bits, other.bits, i);
            }
            assert(indices_of(self.bits ^ other.bits) =~= flipped(self@, other@));
        }
        SelectionFlags { bits: self.bits ^ other.bits }
    }

    /// The options chosen in either set.
    pub fn union(&self, other: SelectionFlags) -> (r: SelectionFlags)
        ensures
            r@ == self@.union(other@),
    {
        proof {
            assert forall|i: int| bit_at(self.bits | other.bits, i) == (bit_at(self.bits, i)
                || bit_at(other.bits, i)) by {
                lemma_bitwise(self.bits, other.bits, i);
            }
            assert(indices_of(self.bits | other.bits) =~= self@.union(other@));
        }
        SelectionFlags { bits: self.bits | other.bits }
    }
}

/// Whether every index in `chosen` addresses one of `count` options.
pub open spec fn within_range(chosen: Set<int>, count: int) -> bool {
    forall|i: int| chosen.contains(i) ==> i < count
}

/// The indices that lie in exactly one of the two sets.
pub open spec fn flipped(a: Set<int>, b: Set<int>) -> Set<int> {
    a.union(b).difference(a.intersect(b))
}

impl Default for SelectionFlags {
    fn default() -> (r: SelectionFlags)
        ensures
            r@ == Set::<int>::empty(),
            r.bits == 0,
    {
        SelectionFlags::empty()
    }
}

} // verus!
