//! The interface shared by the 32-bit and the 64-bit roaring bitmaps.
//!
//! Every bitmap is modelled as the finite set of values it holds
//! (`view_set`); a value stands for the integer `value_int(v)`, between 0
//! and `value_max()`.
use vstd::prelude::*;
use crate::error::CommandError;
use crate::stats::BitmapStats;

verus! {

/// All values whose integer (under `val`) lies in `[lo, hi]`.
pub open spec fn value_span<V>(val: spec_fn(V) -> int, lo: int, hi: int) -> Set<V> {
    Set::new(|v: V| lo <= val(v) <= hi)
}

/// The values in exactly one of `a` and `b`.
pub open spec fn symmetric_difference<A>(a: Set<A>, b: Set<A>) -> Set<A> {
    Set::new(|x: A| a.contains(x) != b.contains(x))
}

/// The members of `s` smaller than `x`.
pub open spec fn members_below<V>(val: spec_fn(V) -> int, s: Set<V>, x: V) -> Set<V> {
    s.filter(|y: V| val(y) < val(x))
}

/// The values smaller than `x` that `s` does not hold.
pub open spec fn absent_below<V>(val: spec_fn(V) -> int, s: Set<V>, x: V) -> Set<V> {
    Set::new(|y: V| val(y) < val(x) && !s.contains(y))
}

/// `r` is the `n`th value (1-indexed, in increasing order) that `s` does not
/// hold, or `None` when `n == 0` or fewer than `n` values are absent.
pub open spec fn is_nth_absent<V>(val: spec_fn(V) -> int, s: Set<V>, n: int, r: Option<V>) -> bool {
    match r {
        Some(v) => {
            &&& n >= 1
            &&& !s.contains(v)
            &&& absent_below(val, s, v).len() == n - 1
        },
        None => n == 0 || s.complement().len() < n,
    }
}

/// `v` is the smallest member of `s`.
pub open spec fn is_least<V>(val: spec_fn(V) -> int, s: Set<V>, v: V) -> bool {
    &&& s.contains(v)
    &&& forall|y: V| s.contains(y) ==> val(v) <= val(y)
}

/// `v` is the largest member of `s`.
pub open spec fn is_greatest<V>(val: spec_fn(V) -> int, s: Set<V>, v: V) -> bool {
    &&& s.contains(v)
    &&& forall|y: V| s.contains(y) ==> val(y) <= val(v)
}

/// `vals` lists the members of `s` once each, in strictly increasing order.
pub open spec fn lists_ascending<V>(val: spec_fn(V) -> int, vals: Seq<V>, s: Set<V>) -> bool {
    &&& forall|i: int, j: int| 0 <= i < j < vals.len() ==> val(vals[i]) < val(vals[j])
    &&& vals.to_set() == s
}

/// The ASCII digit `'1'`.
pub open spec fn one_byte() -> u8 {
    49u8
}

/// The ASCII digit `'0'`.
pub open spec fn zero_byte() -> u8 {
    48u8
}

/// The bitmap that an ASCII bit string describes, for values that stand for
/// the integers `0 .. width`: the character at index `i` sets the value
/// `i % width` when it is `'1'`; every other character counts as `'0'`.
pub open spec fn bit_string_set<V>(val: spec_fn(V) -> int, width: int, bits: Seq<u8>) -> Set<V> {
    Set::new(
        |v: V|
            exists|i: int| 0 <= i < bits.len() && bits[i] == one_byte() && i % width == val(v),
    )
}

/// `bits` is the ASCII bit string of `s`: empty for an empty set, else of
/// length max + 1, with `'1'` at the held values and `'0'` elsewhere.
pub open spec fn is_bit_array<V>(val: spec_fn(V) -> int, bits: Seq<u8>, s: Set<V>) -> bool {
    &&& s == Set::<V>::empty() ==> bits.len() == 0
    &&& s != Set::<V>::empty() ==> exists|g: V| is_greatest(val, s, g) && bits.len() == val(g) + 1
    &&& forall|v: V|
        #![trigger s.contains(v)]
        val(v) < bits.len() ==> bits[val(v)] == (if s.contains(v) {
            one_byte()
        } else {
            zero_byte()
        })
}

/// The value of `v` as a reply integer: values above `i64::MAX` saturate.
pub open spec fn saturating_i64(x: int) -> int {
    if x <= i64::MAX {
        x
    } else {
        i64::MAX as int
    }
}

/// Extending a prefix of `s` by one element adds that element to its set.
pub proof fn lemma_prefix_to_set<A>(s: Seq<A>, i: int)
    requires
        0 <= i < s.len(),
    ensures
        s.subrange(0, i + 1).to_set() == s.subrange(0, i).to_set().insert(s[i]),
{
    let p = s.subrange(0, i);
    let q = s.subrange(0, i + 1);
    assert forall|x: A| #[trigger] q.contains(x) == (p.contains(x) || x == s[i]) by {
        if p.contains(x) {
            let k = choose|k: int| 0 <= k < p.len() && p[k] == x;
            assert(q[k] == x);
        }
        if x == s[i] {
            assert(q[i] == x);
        }
        if q.contains(x) {
            let k = choose|k: int| 0 <= k < q.len() && q[k] == x;
            if k < i {
                assert(p[k] == x);
            }
        }
    }
    assert(q.to_set() =~= p.to_set().insert(s[i]));
}

/// The whole of a sequence is its full prefix.
pub proof fn lemma_full_prefix<A>(s: Seq<A>)
    ensures
        s.subrange(0, s.len() as int) == s,
{
    assert(s.subrange(0, s.len() as int) =~= s);
}

/// Roaring bitmaps over a fixed-width unsigned value type.
pub trait RoaringType: Sized {
    type Value: Copy;

    /// The set of values the bitmap holds.
    spec fn view_set(&self) -> Set<Self::Value>;

    /// The integer a value stands for.
    spec fn value_int(v: Self::Value) -> int;

    /// The largest integer a value can stand for.
    spec fn value_max() -> int;

    /// Values stand for distinct integers in `[0, value_max()]`, and every such
    /// integer is stood for.
    proof fn lemma_value_int(v: Self::Value, w: Self::Value)
        ensures
            0 <= Self::value_int(v) <= Self::value_max(),
            Self::value_int(v) == Self::value_int(w) ==> v == w,
    ;

    /// Every integer in `[0, value_max()]` is stood for by a value.
    proof fn lemma_value_onto(i: int) -> (v: Self::Value)
        requires
            0 <= i <= Self::value_max(),
        ensures
            Self::value_int(v) == i,
    ;

    /// The set of every value holds `value_max() + 1` of them, and the
    /// largest value fits a `u64`.
    proof fn lemma_full_len()
        ensures
            Set::<Self::Value>::full().len() == Self::value_max() + 1,
            Self::value_max() <= u64::MAX,
    ;

    /// Every set of values is finite, and holds at most `value_max() + 1` of them.
    proof fn lemma_value_sets_finite(s: Set<Self::Value>)
        ensures
            s.finite(),
            s.len() <= Self::value_max() + 1,
    ;

    /// A value as a reply integer; values above `i64::MAX` become `i64::MAX`.
    fn value_to_i64(v: Self::Value) -> (r: i64)
        ensures
            r == saturating_i64(Self::value_int(v)),
    ;

    /// The integer a value stands for, as a `u64`.
    fn value_to_u64(v: Self::Value) -> (r: u64)
        ensures
            r == Self::value_int(v),
    ;

    /// The value standing for `x`, if `x` is in the range of the type.
    fn value_from_u64(x: u64) -> (r: Option<Self::Value>)
        ensures
            match r {
                Some(v) => Self::value_int(v) == x,
                None => x > Self::value_max(),
            },
    ;

    /// Whether `a` stands for a smaller integer than `b`.
    fn value_lt(a: Self::Value, b: Self::Value) -> (r: bool)
        ensures
            r == (Self::value_int(a) < Self::value_int(b)),
    ;

    /// An empty bitmap.
    fn new() -> (r: Self)
        ensures
            r.view_set() == Set::<Self::Value>::empty(),
    ;

    /// A bitmap holding every value of the type.
    fn full() -> (r: Self)
        ensures
            r.view_set() == Set::<Self::Value>::full(),
    ;

    /// A copy of the bitmap.
    fn duplicate(&self) -> (r: Self)
        ensures
            r.view_set() == self.view_set(),
    ;

    /// The bitmap of the given values.
    fn from_values(vals: &[Self::Value]) -> (r: Self)
        ensures
            r.view_set() == vals@.to_set(),
    ;

    /// Adds `v`; reports whether it was absent.
    fn insert(&mut self, v: Self::Value) -> (r: bool)
        ensures
            final(self).view_set() == old(self).view_set().insert(v),
            r == !old(self).view_set().contains(v),
    ;

    /// Removes `v`; reports whether it was present.
    fn remove(&mut self, v: Self::Value) -> (r: bool)
        ensures
            final(self).view_set() == old(self).view_set().remove(v),
            r == old(self).view_set().contains(v),
    ;

    /// Whether the bitmap holds `v`.
    fn contains(&self, v: Self::Value) -> (r: bool)
        ensures
            r == self.view_set().contains(v),
    ;

    /// Removes every value.
    fn clear(&mut self)
        ensures
            final(self).view_set() == Set::<Self::Value>::empty(),
    ;

    /// Adds every value of `vals`.
    fn insert_many(&mut self, vals: &[Self::Value])
        ensures
            final(self).view_set() == old(self).view_set().union(vals@.to_set()),
    ;

    /// Removes every value of `vals`.
    fn remove_many(&mut self, vals: &[Self::Value])
        ensures
            final(self).view_set() == old(self).view_set().difference(vals@.to_set()),
    ;

    /// For each value of `vals`, in order, whether the bitmap holds it.
    fn contains_many(&self, vals: &[Self::Value]) -> (r: Vec<bool>)
        ensures
            r@.len() == vals@.len(),
            forall|i: int| 0 <= i < vals@.len() ==> r@[i] == self.view_set().contains(vals@[i]),
    ;

    /// Removes every value of `vals`; returns how many distinct values were
    /// actually removed (a value named twice counts once).
    fn remove_many_counted(&mut self, vals: &[Self::Value]) -> (r: usize)
        ensures
            final(self).view_set() == old(self).view_set().difference(vals@.to_set()),
            r == old(self).view_set().intersect(vals@.to_set()).len(),
    ;

    /// The number of values held.
    fn len(&self) -> (r: u64)
        requires
            self.view_set().len() <= u64::MAX,
        ensures
            r == self.view_set().len(),
    ;

    /// Whether the bitmap holds no value.
    fn is_empty(&self) -> (r: bool)
        ensures
            r == (self.view_set() == Set::<Self::Value>::empty()),
    ;

    /// The smallest value held, if any.
    fn min_val(&self) -> (r: Option<Self::Value>)
        ensures
            match r {
                Some(v) => is_least(|x: Self::Value| Self::value_int(x), self.view_set(), v),
                None => self.view_set() == Set::<Self::Value>::empty(),
            },
    ;

    /// The largest value held, if any.
    fn max_val(&self) -> (r: Option<Self::Value>)
        ensures
            match r {
                Some(v) => is_greatest(|x: Self::Value| Self::value_int(x), self.view_set(), v),
                None => self.view_set() == Set::<Self::Value>::empty(),
            },
    ;

    /// In place union.
    fn bitor_assign(&mut self, other: &Self)
        ensures
            final(self).view_set() == old(self).view_set().union(other.view_set()),
    ;

    /// In place intersection.
    fn bitand_assign(&mut self, other: &Self)
        ensures
            final(self).view_set() == old(self).view_set().intersect(other.view_set()),
    ;

    /// In place symmetric difference.
    fn bitxor_assign(&mut self, other: &Self)
        ensures
            final(self).view_set() == symmetric_difference(
                old(self).view_set(),
                other.view_set(),
            ),
    ;

    /// In place difference.
    fn sub_assign(&mut self, other: &Self)
        ensures
            final(self).view_set() == old(self).view_set().difference(other.view_set()),
    ;

    /// Union.
    fn bitor_owned(self, other: Self) -> (r: Self)
        ensures
            r.view_set() == self.view_set().union(other.view_set()),
    ;

    /// Intersection.
    fn bitand_owned(self, other: Self) -> (r: Self)
        ensures
            r.view_set() == self.view_set().intersect(other.view_set()),
    ;

    /// Symmetric difference.
    fn bitxor_owned(self, other: Self) -> (r: Self)
        ensures
            r.view_set() == symmetric_difference(self.view_set(), other.view_set()),
    ;

    /// Difference.
    fn sub_owned(self, other: Self) -> (r: Self)
        ensures
            r.view_set() == self.view_set().difference(other.view_set()),
    ;

    /// Whether the two bitmaps share no value.
    fn is_disjoint(&self, other: &Self) -> (r: bool)
        ensures
            r == self.view_set().disjoint(other.view_set()),
    ;

    /// Whether every value of `self` is in `other`.
    fn is_subset(&self, other: &Self) -> (r: bool)
        ensures
            r == self.view_set().subset_of(other.view_set()),
    ;

    /// Whether the two bitmaps hold the same values.
    fn equals(&self, other: &Self) -> (r: bool)
        ensures
            r == (self.view_set() == other.view_set()),
    ;

    /// The number of values the two bitmaps share.
    fn intersection_len(&self, other: &Self) -> (r: u64)
        requires
            self.view_set().intersect(other.view_set()).len() <= u64::MAX,
        ensures
            r == self.view_set().intersect(other.view_set()).len(),
    ;

    /// The number of values in either bitmap.
    fn union_len(&self, other: &Self) -> (r: u64)
        requires
            self.view_set().union(other.view_set()).len() <= u64::MAX,
        ensures
            r == self.view_set().union(other.view_set()).len(),
    ;

    /// The `n`th value held (0-indexed, in increasing order).
    fn select(&self, n: u64) -> (r: Option<Self::Value>)
        ensures
            match r {
                Some(v) => self.view_set().contains(v) && members_below(|x: Self::Value| Self::value_int(x), self.view_set(), v).len() == n,
                None => self.view_set().len() <= n,
            },
    ;

    /// The `n`th value NOT held (1-indexed, in increasing order); `None` for
    /// `n == 0` and when fewer than `n` values are absent.
    fn nth_absent(&self, n: u64) -> (r: Option<Self::Value>)
        ensures
            is_nth_absent(|x: Self::Value| Self::value_int(x), self.view_set(), n as int, r),
    ;

    /// The complement of the bitmap within `[0, last]`; values above `last`
    /// are kept as they are.
    fn flip_inclusive(&self, last: Self::Value) -> (r: Self)
        requires
            Self::value_int(last) < u64::MAX,
        ensures
            r.view_set() == symmetric_difference(
                value_span(|x: Self::Value| Self::value_int(x), 0, Self::value_int(last)),
                self.view_set(),
            ),
    ;

    /// Adds every value in `[start, end]`; returns how many were absent.
    fn insert_range_inclusive(&mut self, start: Self::Value, end: Self::Value) -> (r: u64)
        requires
            Self::value_int(end) - Self::value_int(start) < u64::MAX,
        ensures
            final(self).view_set() == old(self).view_set().union(
                value_span(|x: Self::Value| Self::value_int(x), Self::value_int(start), Self::value_int(end)),
            ),
            r == value_span(|x: Self::Value| Self::value_int(x), Self::value_int(start), Self::value_int(end)).difference(
                old(self).view_set(),
            ).len(),
    ;

    /// Adds every value in `[start, end)`; returns how many were absent.
    fn insert_range_exclusive(&mut self, start: Self::Value, end: Self::Value) -> (r: u64)
        ensures
            final(self).view_set() == old(self).view_set().union(
                value_span(|x: Self::Value| Self::value_int(x), Self::value_int(start), Self::value_int(end) - 1),
            ),
            r == value_span(|x: Self::Value| Self::value_int(x), Self::value_int(start), Self::value_int(end) - 1).difference(
                old(self).view_set(),
            ).len(),
    ;

    /// Every value held, in increasing order.
    fn iter_values(&self) -> (r: Vec<Self::Value>)
        ensures
            lists_ascending(|x: Self::Value| Self::value_int(x), r@, self.view_set()),
    ;

    /// The windows `iter_range` takes: every window for the 64-bit bitmap;
    /// for the 32-bit bitmap only `start <= end`, as its range iterator
    /// panics on an inverted window.
    spec fn range_accepted(start: Self::Value, end: Self::Value) -> bool;

    /// The values held in `[start, end]`, in increasing order (none for an
    /// inverted window).
    fn iter_range(&self, start: Self::Value, end: Self::Value) -> (r: Vec<Self::Value>)
        requires
            Self::range_accepted(start, end),
        ensures
            lists_ascending(|x: Self::Value| Self::value_int(x), 
                r@,
                self.view_set().intersect(
                    value_span(|x: Self::Value| Self::value_int(x), Self::value_int(start), Self::value_int(end)),
                ),
            ),
    ;

    /// The bitmap an ASCII bit string describes (see `bit_string_set`).
    fn from_bit_array(bits: &[u8]) -> (r: Self)
        ensures
            r.view_set() == bit_string_set(|x: Self::Value| Self::value_int(x), Self::value_max() + 1, bits@),
    ;

    /// The bitmap as an ASCII bit string of length max + 1: the byte at
    /// index `i` is `'1'` when `i` is held and `'0'` otherwise; empty for an
    /// empty bitmap.
    fn to_bit_array(&self) -> (r: Vec<u8>)
        requires
            forall|v: Self::Value|
                self.view_set().contains(v) ==> Self::value_int(v) < usize::MAX,
        ensures
            is_bit_array(|x: Self::Value| Self::value_int(x), r@, self.view_set()),
    ;

    /// The value set that the portable serialized form `bytes` decodes to,
    /// if it is one.
    spec fn portable_decode(bytes: Seq<u8>) -> Option<Set<Self::Value>>;

    /// The length of the bitmap's serialized form.
    spec fn serialized_len(&self) -> nat;

    /// The bitmap has the layout that the serialized form `bytes` lists:
    /// for the 64-bit bitmap, the same partition keys (an empty partition's
    /// too); the 32-bit bitmap has no such layout to state.
    spec fn layout_in(&self, bytes: Seq<u8>) -> bool;

    /// Appends the bitmap in the portable serialized form of the Roaring format.
    fn serialize_into(&self, out: &mut Vec<u8>)
        ensures
            self.layout_in(final(out)@.subrange(old(out)@.len() as int, final(out)@.len() as int)),
            final(out)@.len() == old(out)@.len() + self.serialized_len(),
            final(out)@.subrange(0, old(out)@.len() as int) == old(out)@,
            Self::portable_decode(final(out)@.subrange(old(out)@.len() as int, final(out)@.len() as int))
                == Some(self.view_set()),
    ;

    /// The number of bytes `serialize_into` appends.
    fn serialized_size(&self) -> (r: usize)
        ensures
            r == self.serialized_len(),
    ;

    /// Reads a bitmap from its portable serialized form; bytes that are no
    /// such form are refused with `BadBinary`.
    fn deserialize_from(bytes: &[u8]) -> (r: Result<Self, CommandError>)
        ensures
            match r {
                Ok(b) => Self::portable_decode(bytes@) == Some(b.view_set()) && b.layout_in(bytes@),
                Err(e) => Self::portable_decode(bytes@) is None && e is BadBinary,
            },
    ;

    /// What container statistics `st` of this bitmap are known to satisfy.
    spec fn stats_fit(&self, st: BitmapStats) -> bool;

    /// The `R.STAT` text for statistics `st` of this bitmap.
    spec fn stat_text_spec(&self, st: BitmapStats) -> Seq<u8>;

    /// The `R.STAT JSON` text for statistics `st` of this bitmap.
    spec fn stat_json_spec(&self, st: BitmapStats) -> Seq<u8>;

    /// Whether statistics of the bitmap can be gathered without an overflow
    /// in the bitmap crate: no 32-bit bitmap (for the 64-bit one, no 32-bit
    /// partition) holds every 32-bit value.
    spec fn stats_computable(&self) -> bool;

    /// Whether statistics of the bitmap can be gathered.
    fn stats_available(&self) -> (r: bool)
        ensures
            r == self.stats_computable(),
    ;

    /// The `R.STAT` text: type, cardinality, extremes and the container
    /// breakdown, one `label: value` line each.
    fn stat_text(&self) -> (r: Vec<u8>)
        requires
            self.view_set().len() <= u64::MAX,
            self.stats_computable(),
        ensures
            exists|st: BitmapStats| self.stats_fit(st) && r@ == self.stat_text_spec(st),
    ;

    /// The `R.STAT JSON` text: the same fields as one JSON object.
    fn stat_json(&self) -> (r: Vec<u8>)
        requires
            self.view_set().len() <= u64::MAX,
            self.stats_computable(),
        ensures
            exists|st: BitmapStats| self.stats_fit(st) && r@ == self.stat_json_spec(st),
    ;

    /// Whether `optimize` finds storage of the bitmap to re-choose (or, for
    /// the 64-bit bitmap, an empty partition to drop).
    spec fn optimize_changes(&self) -> bool;

    /// Re-chooses the storage of each container; the values are unchanged.
    /// Returns whether the storage changed.
    fn optimize(&mut self) -> (r: bool)
        ensures
            final(self).view_set() == old(self).view_set(),
            r == old(self).optimize_changes(),
            !final(self).optimize_changes(),
    ;
}

} // verus!
