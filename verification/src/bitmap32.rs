//! `RoaringType` for `roaring::RoaringBitmap`, the 32-bit bitmap.
use vstd::prelude::*;
use vstd::set_lib::*;
use roaring::RoaringBitmap;
use crate::error::CommandError;
use crate::stats::{BitmapStats, stat_text32, stat_json32, stat_text32_spec, stat_json32_spec};
use crate::bitmap_type::{
    RoaringType, value_span, symmetric_difference, members_below, absent_below, is_least,
    is_greatest, bit_string_set, one_byte, zero_byte, lemma_prefix_to_set,
};

verus! {

broadcast use vstd::set_lib::group_set_properties;

#[verifier::external_type_specification]
#[verifier::external_body]
pub struct ExRoaringBitmap(RoaringBitmap);

/// The set of values that a `RoaringBitmap` holds.
pub uninterp spec fn bitmap32_values(b: RoaringBitmap) -> Set<u32>;

// ------------------------------------------------------------------
// Trusted wrappers around `roaring::RoaringBitmap`.
// ------------------------------------------------------------------

/// `RoaringBitmap::new`: an empty bitmap.
#[verifier::external_body]
fn rb_new() -> (r: RoaringBitmap)
    ensures
        bitmap32_values(r) == Set::<u32>::empty(),
{
    RoaringBitmap::new()
}

/// `RoaringBitmap::full`: a bitmap holding every `u32`.
#[verifier::external_body]
fn rb_full() -> (r: RoaringBitmap)
    ensures
        bitmap32_values(r) == Set::<u32>::full(),
{
    RoaringBitmap::full()
}

/// `RoaringBitmap::clone`: a bitmap with the same values.
#[verifier::external_body]
fn rb_clone(b: &RoaringBitmap) -> (r: RoaringBitmap)
    ensures
        bitmap32_values(r) == bitmap32_values(*b),
{
    b.clone()
}

/// `RoaringBitmap::insert`: adds `v`; `true` when it was absent.
#[verifier::external_body]
fn rb_insert(b: &mut RoaringBitmap, v: u32) -> (r: bool)
    ensures
        bitmap32_values(*final(b)) == bitmap32_values(*old(b)).insert(v),
        r == !bitmap32_values(*old(b)).contains(v),
{
    b.insert(v)
}

/// `RoaringBitmap::remove`: removes `v`; `true` when it was present.
#[verifier::external_body]
fn rb_remove(b: &mut RoaringBitmap, v: u32) -> (r: bool)
    ensures
        bitmap32_values(*final(b)) == bitmap32_values(*old(b)).remove(v),
        r == bitmap32_values(*old(b)).contains(v),
{
    b.remove(v)
}

/// `RoaringBitmap::contains`: membership of `v`.
#[verifier::external_body]
fn rb_contains(b: &RoaringBitmap, v: u32) -> (r: bool)
    ensures
        r == bitmap32_values(*b).contains(v),
{
    b.contains(v)
}

/// `RoaringBitmap::clear`: removes every value.
#[verifier::external_body]
fn rb_clear(b: &mut RoaringBitmap)
    ensures
        bitmap32_values(*final(b)) == Set::<u32>::empty(),
{
    b.clear()
}

/// `RoaringBitmap::len`: the number of values held.
#[verifier::external_body]
pub(crate) fn rb_len(b: &RoaringBitmap) -> (r: u64)
    ensures
        r == bitmap32_values(*b).len(),
{
    b.len()
}

/// `RoaringBitmap::is_empty`: whether no value is held.
#[verifier::external_body]
fn rb_is_empty(b: &RoaringBitmap) -> (r: bool)
    ensures
        r == (bitmap32_values(*b) == Set::<u32>::empty()),
{
    b.is_empty()
}

/// `RoaringBitmap::min`: the smallest value held.
#[verifier::external_body]
fn rb_min(b: &RoaringBitmap) -> (r: Option<u32>)
    ensures
        match r {
            Some(v) => bitmap32_values(*b).contains(v) && forall|y: u32|
                bitmap32_values(*b).contains(y) ==> v <= y,
            None => bitmap32_values(*b) == Set::<u32>::empty(),
        },
{
    b.min()
}

/// `RoaringBitmap::max`: the largest value held.
#[verifier::external_body]
fn rb_max(b: &RoaringBitmap) -> (r: Option<u32>)
    ensures
        match r {
            Some(v) => bitmap32_values(*b).contains(v) && forall|y: u32|
                bitmap32_values(*b).contains(y) ==> y <= v,
            None => bitmap32_values(*b) == Set::<u32>::empty(),
        },
{
    b.max()
}

/// `*a |= b` (`BitOrAssign<&RoaringBitmap>`): union into `a`.
#[verifier::external_body]
fn rb_or_assign(a: &mut RoaringBitmap, b: &RoaringBitmap)
    ensures
        bitmap32_values(*final(a)) == bitmap32_values(*old(a)).union(bitmap32_values(*b)),
{
    *a |= b;
}

/// `*a &= b` (`BitAndAssign<&RoaringBitmap>`): intersection into `a`.
#[verifier::external_body]
fn rb_and_assign(a: &mut RoaringBitmap, b: &RoaringBitmap)
    ensures
        bitmap32_values(*final(a)) == bitmap32_values(*old(a)).intersect(bitmap32_values(*b)),
{
    *a &= b;
}

/// `*a ^= b` (`BitXorAssign<&RoaringBitmap>`): symmetric difference into `a`.
#[verifier::external_body]
fn rb_xor_assign(a: &mut RoaringBitmap, b: &RoaringBitmap)
    ensures
        bitmap32_values(*final(a)) == symmetric_difference(
            bitmap32_values(*old(a)),
            bitmap32_values(*b),
        ),
{
    *a ^= b;
}

/// `*a -= b` (`SubAssign<&RoaringBitmap>`): difference into `a`.
#[verifier::external_body]
fn rb_sub_assign(a: &mut RoaringBitmap, b: &RoaringBitmap)
    ensures
        bitmap32_values(*final(a)) == bitmap32_values(*old(a)).difference(bitmap32_values(*b)),
{
    *a -= b;
}

/// `RoaringBitmap::is_disjoint`: whether no value is shared.
#[verifier::external_body]
fn rb_is_disjoint(a: &RoaringBitmap, b: &RoaringBitmap) -> (r: bool)
    ensures
        r == bitmap32_values(*a).disjoint(bitmap32_values(*b)),
{
    a.is_disjoint(b)
}

/// `RoaringBitmap::is_subset`: whether every value of `a` is in `b`. It
/// compares container by container, which is exact because the crate keeps
/// no empty container (removal drops them, deserialization refuses them).
#[verifier::external_body]
fn rb_is_subset(a: &RoaringBitmap, b: &RoaringBitmap) -> (r: bool)
    ensures
        r == bitmap32_values(*a).subset_of(bitmap32_values(*b)),
{
    a.is_subset(b)
}

/// `RoaringBitmap == RoaringBitmap`: whether the two hold the same values.
/// Containers are compared by content across storage kinds; an array and a
/// bitset never hold the same values, since the crate keeps arrays at 4096
/// values or fewer and bitsets above (deserialization chooses the storage
/// by the stated cardinality).
#[verifier::external_body]
fn rb_eq(a: &RoaringBitmap, b: &RoaringBitmap) -> (r: bool)
    ensures
        r == (bitmap32_values(*a) == bitmap32_values(*b)),
{
    a == b
}

/// `RoaringBitmap::intersection_len`: the number of shared values.
#[verifier::external_body]
fn rb_intersection_len(a: &RoaringBitmap, b: &RoaringBitmap) -> (r: u64)
    ensures
        r == bitmap32_values(*a).intersect(bitmap32_values(*b)).len(),
{
    a.intersection_len(b)
}

/// `RoaringBitmap::union_len`: the number of values in either bitmap.
#[verifier::external_body]
fn rb_union_len(a: &RoaringBitmap, b: &RoaringBitmap) -> (r: u64)
    ensures
        r == bitmap32_values(*a).union(bitmap32_values(*b)).len(),
{
    a.union_len(b)
}

/// `RoaringBitmap::rank`: the number of values held that are `<= v`.
#[verifier::external_body]
fn rb_rank(b: &RoaringBitmap, v: u32) -> (r: u64)
    ensures
        r == bitmap32_values(*b).filter(|y: u32| y <= v).len(),
{
    b.rank(v)
}

/// `RoaringBitmap::select`: the `n`th value held (0-indexed), if any.
#[verifier::external_body]
fn rb_select(b: &RoaringBitmap, n: u32) -> (r: Option<u32>)
    ensures
        match r {
            Some(v) => bitmap32_values(*b).contains(v) && bitmap32_values(*b).filter(
                |y: u32| y < v,
            ).len() == n,
            None => bitmap32_values(*b).len() <= n,
        },
{
    b.select(n)
}

/// `RoaringBitmap::insert_range(start..=end)`: adds `[start, end]`; returns
/// how many of them were absent (nothing is added when `start > end`).
#[verifier::external_body]
fn rb_insert_range(b: &mut RoaringBitmap, start: u32, end: u32) -> (r: u64)
    ensures
        bitmap32_values(*final(b)) == bitmap32_values(*old(b)).union(
            Set::new(|v: u32| start <= v <= end),
        ),
        r == Set::new(|v: u32| start <= v <= end).difference(bitmap32_values(*old(b))).len(),
{
    b.insert_range(start..=end)
}

/// Whether `RoaringBitmap::optimize` finds a container of `b` whose storage
/// (array, bitset or runs) it re-chooses; this depends on how the containers
/// of `b` are stored, not on its values alone.
pub uninterp spec fn bitmap32_optimize_changes(b: RoaringBitmap) -> bool;

/// `RoaringBitmap::optimize`: re-chooses container storage, keeping the
/// values; returns whether the storage of some container changed. Each
/// container gets the smallest of its storages, so a second call finds
/// nothing to change.
#[verifier::external_body]
fn rb_optimize(b: &mut RoaringBitmap) -> (r: bool)
    ensures
        bitmap32_values(*final(b)) == bitmap32_values(*old(b)),
        r == bitmap32_optimize_changes(*old(b)),
        !bitmap32_optimize_changes(*final(b)),
{
    b.optimize()
}

/// `RoaringBitmap::iter`, collected: the values in increasing order.
#[verifier::external_body]
fn rb_iter(b: &RoaringBitmap) -> (r: Vec<u32>)
    ensures
        forall|i: int, j: int| 0 <= i < j < r@.len() ==> r@[i] < r@[j],
        r@.to_set() == bitmap32_values(*b),
{
    b.iter().collect()
}

/// `RoaringBitmap::range(start..=end)`, collected: the values held in
/// `[start, end]` in increasing order. The range panics when
/// `start > end`, hence the precondition.
#[verifier::external_body]
fn rb_range(b: &RoaringBitmap, start: u32, end: u32) -> (r: Vec<u32>)
    requires
        start <= end,
    ensures
        forall|i: int, j: int| 0 <= i < j < r@.len() ==> r@[i] < r@[j],
        r@.to_set() == bitmap32_values(*b).filter(|v: u32| start <= v <= end),
{
    b.range(start..=end).collect()
}

/// What `RoaringBitmap::deserialize_from` reads from `bytes`: the values of the
/// bitmap, or `None` when it refuses the bytes.
pub uninterp spec fn portable_decode32(bytes: Seq<u8>) -> Option<Set<u32>>;

/// What `RoaringBitmap::serialized_size` gives for `b`: the length of its serialized
/// form, which depends on the storage of its containers.
pub uninterp spec fn bitmap32_serialized_len(b: RoaringBitmap) -> nat;

/// `RoaringBitmap::serialize_into` a `Vec`: appends the portable serialized form of
/// `b`, which `deserialize_from` reads back as the same values (the round
/// trip the crate documents), and whose length `serialized_size` gives.
/// Writing into a `Vec` never fails.
#[verifier::external_body]
fn rb_serialize_into(b: &RoaringBitmap, out: &mut Vec<u8>)
    ensures
        final(out)@.len() == old(out)@.len() + bitmap32_serialized_len(*b),
        final(out)@.subrange(0, old(out)@.len() as int) == old(out)@,
        portable_decode32(final(out)@.subrange(old(out)@.len() as int, final(out)@.len() as int))
            == Some(bitmap32_values(*b)),
{
    let _ = b.serialize_into(&mut *out);
}

/// `RoaringBitmap::serialized_size`: the length of the serialized form.
#[verifier::external_body]
fn rb_serialized_size(b: &RoaringBitmap) -> (r: usize)
    ensures
        r == bitmap32_serialized_len(*b),
{
    b.serialized_size()
}

/// `RoaringBitmap::deserialize_from` a byte slice: the bitmap the bytes encode, or
/// `None` when they are no serialized bitmap.
#[verifier::external_body]
fn rb_deserialize_from(bytes: &[u8]) -> (r: Option<RoaringBitmap>)
    ensures
        match r {
            Some(b) => portable_decode32(bytes@) == Some(bitmap32_values(b)),
            None => portable_decode32(bytes@) is None,
        },
{
    RoaringBitmap::deserialize_from(bytes).ok()
}

// ------------------------------------------------------------------
// Facts about sets of `u32`.
// ------------------------------------------------------------------

/// The values `<= x` number `x + 1`.
proof fn lemma_upto_len(x: u32)
    ensures
        Set::new(|y: u32| y <= x).finite(),
        Set::new(|y: u32| y <= x).len() == x + 1,
{
    let below = <u32 as FiniteRange>::range_set(0, x);
    <u32 as FiniteRange>::range_properties(0, x);
    assert(Set::new(|y: u32| y <= x) =~= below.insert(x));
}

/// Every set of `u32` is finite, with at most `2^32` members.
proof fn lemma_u32_set_finite(s: Set<u32>)
    ensures
        s.finite(),
        s.len() <= u32::MAX + 1,
{
    lemma_upto_len(u32::MAX);
    let all = Set::new(|y: u32| y <= u32::MAX);
    assert(s.subset_of(all));
    lemma_set_subset_finite(all, s);
    lemma_len_subset(s, all);
}

/// The values `<= x` that `s` lacks.
spec fn absent_upto(s: Set<u32>, x: u32) -> Set<u32> {
    Set::new(|y: u32| y <= x && !s.contains(y))
}

/// Held and absent values up to `x` split the `x + 1` values `<= x`.
proof fn lemma_absent_upto_len(s: Set<u32>, x: u32)
    ensures
        absent_upto(s, x).len() + s.filter(|y: u32| y <= x).len() == x + 1,
{
    lemma_upto_len(x);
    let held = s.filter(|y: u32| y <= x);
    let lacking = absent_upto(s, x);
    lemma_u32_set_finite(held);
    lemma_u32_set_finite(lacking);
    assert(held.disjoint(lacking));
    assert(held + lacking =~= Set::new(|y: u32| y <= x));
}

/// Moving from `x - 1` to `x` adds `x` to the absent values exactly when `s` lacks it.
proof fn lemma_absent_upto_step(s: Set<u32>, x: u32)
    requires
        x > 0,
    ensures
        s.contains(x) ==> absent_upto(s, x) == absent_upto(s, (x - 1) as u32),
        !s.contains(x) ==> absent_upto(s, x) == absent_upto(s, (x - 1) as u32).insert(x),
        !s.contains(x) ==> absent_upto(s, x).len() == absent_upto(s, (x - 1) as u32).len() + 1,
{
    let prev = absent_upto(s, (x - 1) as u32);
    lemma_u32_set_finite(prev);
    if s.contains(x) {
        assert(absent_upto(s, x) =~= prev);
    } else {
        assert(absent_upto(s, x) =~= prev.insert(x));
    }
}

/// How many values `<= x` the bitmap lacks, as a 64-bit count.
fn absent_count_upto(b: &RoaringBitmap, x: u32) -> (r: u64)
    ensures
        r == absent_upto(bitmap32_values(*b), x).len(),
{
    let held = rb_rank(b, x);
    proof {
        lemma_absent_upto_len(bitmap32_values(*b), x);
    }
    x as u64 + 1 - held
}

/// The integer a 32-bit value stands for.
pub open spec fn val32() -> spec_fn(u32) -> int {
    |x: u32| RoaringBitmap::value_int(x)
}

/// Reading one more character of a bit string sets one more value, or none.
proof fn lemma_bit_string_step(bits: Seq<u8>, i: int)
    requires
        0 <= i < bits.len(),
    ensures
        bits[i] == one_byte() ==> bit_string_set(val32(), u32::MAX + 1, bits.subrange(0, i + 1))
            == bit_string_set(val32(), u32::MAX + 1, bits.subrange(0, i)).insert(
            (i % (u32::MAX + 1)) as u32,
        ),
        bits[i] != one_byte() ==> bit_string_set(val32(), u32::MAX + 1, bits.subrange(0, i + 1))
            == bit_string_set(val32(), u32::MAX + 1, bits.subrange(0, i)),
{
    let before = bits.subrange(0, i);
    let after = bits.subrange(0, i + 1);
    let sb = bit_string_set(val32(), u32::MAX + 1, before);
    let sa = bit_string_set(val32(), u32::MAX + 1, after);
    let v = (i % (u32::MAX + 1)) as u32;
    assert forall|w: u32| #[trigger] sa.contains(w) == (sb.contains(w) || (bits[i] == one_byte() && w == v)) by {
        if sb.contains(w) {
            let k = choose|k: int| 0 <= k < before.len() && before[k] == one_byte() && k % (u32::MAX + 1) == w as int;
            assert(after[k] == before[k]);
        }
        if bits[i] == one_byte() && w == v {
            assert(after[i] == one_byte());
        }
        if sa.contains(w) {
            let k = choose|k: int| 0 <= k < after.len() && after[k] == one_byte() && k % (u32::MAX + 1) == w as int;
            if k < i {
                assert(before[k] == after[k]);
            }
        }
    }
    if bits[i] == one_byte() {
        assert(sa =~= sb.insert(v));
    } else {
        assert(sa =~= sb);
    }
}

/// A set of `u32` with `2^32` members holds every `u32`.
pub(crate) proof fn lemma_u32_len_full(s: Set<u32>)
    ensures
        s.len() == 0x1_0000_0000 <==> s == Set::<u32>::full(),
{
    RoaringBitmap::lemma_value_sets_finite(s);
    RoaringBitmap::lemma_full_len();
    if s != Set::<u32>::full() {
        let x = choose|x: u32| !s.contains(x);
        assert(!s.contains(x)) by {
            assert(!(s =~= Set::<u32>::full()));
        }
        RoaringBitmap::lemma_value_sets_finite(s.insert(x));
    }
}

/// The extremes a statistics record reports for a set of `u32`.
pub open spec fn extremes_fit32(s: Set<u32>, max: Option<u64>, min: Option<u64>) -> bool {
    &&& match max {
        None => s == Set::<u32>::empty(),
        Some(m) => m <= u32::MAX && is_greatest(val32(), s, m as u32),
    }
    &&& match min {
        None => s == Set::<u32>::empty(),
        Some(m) => m <= u32::MAX && is_least(val32(), s, m as u32),
    }
}

/// What `RoaringBitmap::statistics` is known to report: the cardinality and
/// extremes of the values, and container and value counts that add up
/// (every container is an array, a bitset or a run container).
pub open spec fn stats_fit32(s: Set<u32>, st: BitmapStats) -> bool {
    &&& st.cardinality == s.len()
    &&& extremes_fit32(s, st.max_value, st.min_value)
    &&& st.n_containers == st.n_array_containers + st.n_bitset_containers + st.n_run_containers
    &&& st.n_values_array_containers + st.n_values_bitset_containers + st.n_values_run_containers
        == st.cardinality
}

/// How the containers of `b` are stored: the number of containers, then the
/// number of array containers and the values they hold, of bitset
/// containers and their values, of run containers and their values, and
/// the number of runs (intervals) the run containers hold in all. This
/// depends on the storage of `b`, not on its values alone.
pub uninterp spec fn bitmap32_container_counts(b: RoaringBitmap) -> (nat, nat, nat, nat, nat, nat, nat, nat);

/// The container and value counts of a statistics record are `c` (see
/// `bitmap32_container_counts`); a bitset container counts 65536 bytes, a
/// run container 2 bytes and 4 more per run.
pub open spec fn counts_fit(st: BitmapStats, c: (nat, nat, nat, nat, nat, nat, nat, nat)) -> bool {
    &&& st.n_containers == c.0
    &&& st.n_array_containers == c.1
    &&& st.n_values_array_containers == c.2
    &&& st.n_bitset_containers == c.3
    &&& st.n_values_bitset_containers == c.4
    &&& st.n_run_containers == c.5
    &&& st.n_values_run_containers == c.6
    &&& st.n_bytes_bitset_containers == 65536 * c.3
    &&& st.n_bytes_run_containers == 2 * c.5 + 4 * c.7
}

/// `RoaringBitmap::statistics`, its fields widened to `u64`: the container
/// counts as they are, the cardinality and extremes of the values, and the
/// bitset and run byte counts (a bitset reports 65536, a run container
/// 2 + 4 per run). The array byte count rests on the capacities the
/// allocator gave, so nothing is stated of it. The values of run containers are added up in a `u32`, which
/// overflows (a panic with overflow checks) when all 2^32 values are held in
/// run containers; a bitmap holding every value is left out, as its storage
/// is not known here.
#[verifier::external_body]
pub(crate) fn rb_statistics(b: &RoaringBitmap) -> (r: BitmapStats)
    requires
        bitmap32_values(*b) != Set::<u32>::full(),
    ensures
        stats_fit32(bitmap32_values(*b), r),
        counts_fit(r, bitmap32_container_counts(*b)),
{
    let s = b.statistics();
    BitmapStats {
        cardinality: s.cardinality,
        n_containers: u64::from(s.n_containers),
        n_array_containers: u64::from(s.n_array_containers),
        n_values_array_containers: u64::from(s.n_values_array_containers),
        n_bytes_array_containers: s.n_bytes_array_containers,
        n_bitset_containers: u64::from(s.n_bitset_containers),
        n_values_bitset_containers: s.n_values_bitset_containers,
        n_bytes_bitset_containers: s.n_bytes_bitset_containers,
        n_run_containers: u64::from(s.n_run_containers),
        n_values_run_containers: u64::from(s.n_values_run_containers),
        n_bytes_run_containers: s.n_bytes_run_containers,
        max_value: s.max_value.map(u64::from), min_value: s.min_value.map(u64::from),
    }
}

// ------------------------------------------------------------------
// The 32-bit bitmap.
// ------------------------------------------------------------------

impl RoaringType for RoaringBitmap {
    type Value = u32;

    open spec fn view_set(&self) -> Set<u32> {
        bitmap32_values(*self)
    }

    open spec fn value_int(v: u32) -> int {
        v as int
    }

    open spec fn value_max() -> int {
        u32::MAX as int
    }

    proof fn lemma_value_int(v: u32, w: u32) {
    }

    proof fn lemma_value_onto(i: int) -> (v: u32) {
        i as u32
    }

    proof fn lemma_full_len() {
        lemma_upto_len(u32::MAX);
        assert(Set::<u32>::full() =~= Set::new(|y: u32| y <= u32::MAX));
    }

    proof fn lemma_value_sets_finite(s: Set<u32>) {
        lemma_u32_set_finite(s);
    }

    fn value_to_i64(v: u32) -> (r: i64) {
        v as i64
    }

    fn value_to_u64(v: u32) -> (r: u64) {
        v as u64
    }

    fn value_from_u64(x: u64) -> (r: Option<u32>) {
        if x <= u32::MAX as u64 {
            Some(x as u32)
        } else {
            None
        }
    }

    fn value_lt(a: u32, b: u32) -> (r: bool) {
        a < b
    }

    fn new() -> (r: Self) {
        rb_new()
    }

    fn full() -> (r: Self) {
        rb_full()
    }

    fn duplicate(&self) -> (r: Self) {
        rb_clone(self)
    }

    fn from_values(vals: &[u32]) -> (r: Self) {
        let mut bm = rb_new();
        let mut i: usize = 0;
        while i < vals.len()
            invariant
                i <= vals@.len(),
                bitmap32_values(bm) == vals@.subrange(0, i as int).to_set(),
            decreases vals@.len() - i,
        {
            rb_insert(&mut bm, vals[i]);
            proof {
                lemma_prefix_to_set(vals@, i as int);
            }
            i += 1;
        }
        assert(vals@.subrange(0, vals@.len() as int) =~= vals@);
        bm
    }

    fn insert(&mut self, v: u32) -> (r: bool) {
        rb_insert(self, v)
    }

    fn remove(&mut self, v: u32) -> (r: bool) {
        rb_remove(self, v)
    }

    fn contains(&self, v: u32) -> (r: bool) {
        rb_contains(self, v)
    }

    fn clear(&mut self) {
        rb_clear(self)
    }

    fn insert_many(&mut self, vals: &[u32]) {
        let ghost start = bitmap32_values(*self);
        let mut i: usize = 0;
        while i < vals.len()
            invariant
                i <= vals@.len(),
                bitmap32_values(*self) == start.union(vals@.subrange(0, i as int).to_set()),
            decreases vals@.len() - i,
        {
            rb_insert(self, vals[i]);
            proof {
                lemma_prefix_to_set(vals@, i as int);
            }
            i += 1;
        }
        assert(vals@.subrange(0, vals@.len() as int) =~= vals@);
    }

    fn remove_many(&mut self, vals: &[u32]) {
        let ghost start = bitmap32_values(*self);
        let mut i: usize = 0;
        while i < vals.len()
            invariant
                i <= vals@.len(),
                bitmap32_values(*self) == start.difference(vals@.subrange(0, i as int).to_set()),
            decreases vals@.len() - i,
        {
            rb_remove(self, vals[i]);
            proof {
                lemma_prefix_to_set(vals@, i as int);
            }
            i += 1;
        }
        assert(vals@.subrange(0, vals@.len() as int) =~= vals@);
    }

    fn contains_many(&self, vals: &[u32]) -> (r: Vec<bool>) {
        let mut out: Vec<bool> = Vec::new();
        let mut i: usize = 0;
        while i < vals.len()
            invariant
                i <= vals@.len(),
                out@.len() == i,
                forall|j: int| 0 <= j < i ==> out@[j] == bitmap32_values(*self).contains(vals@[j]),
            decreases vals@.len() - i,
        {
            out.push(rb_contains(self, vals[i]));
            i += 1;
        }
        out
    }

    fn remove_many_counted(&mut self, vals: &[u32]) -> (r: usize) {
        let ghost start = bitmap32_values(*self);
        let mut count: usize = 0;
        let mut i: usize = 0;
        while i < vals.len()
            invariant
                i <= vals@.len(),
                bitmap32_values(*self) == start.difference(vals@.subrange(0, i as int).to_set()),
                count == start.intersect(vals@.subrange(0, i as int).to_set()).len(),
                count <= i,
            decreases vals@.len() - i,
        {
            let ghost seen = vals@.subrange(0, i as int).to_set();
            let ghost v = vals@[i as int];
            proof {
                lemma_u32_set_finite(start.intersect(seen));
                lemma_prefix_to_set(vals@, i as int);
            }
            if rb_remove(self, vals[i]) {
                assert(start.intersect(seen.insert(v)) =~= start.intersect(seen).insert(v));
                count += 1;
            } else {
                assert(start.intersect(seen.insert(v)) =~= start.intersect(seen));
            }
            i += 1;
        }
        assert(vals@.subrange(0, vals@.len() as int) =~= vals@);
        count
    }

    fn len(&self) -> (r: u64) {
        rb_len(self)
    }

    fn is_empty(&self) -> (r: bool) {
        rb_is_empty(self)
    }

    fn min_val(&self) -> (r: Option<u32>) {
        rb_min(self)
    }

    fn max_val(&self) -> (r: Option<u32>) {
        rb_max(self)
    }

    fn bitor_assign(&mut self, other: &Self) {
        rb_or_assign(self, other)
    }

    fn bitand_assign(&mut self, other: &Self) {
        rb_and_assign(self, other)
    }

    fn bitxor_assign(&mut self, other: &Self) {
        rb_xor_assign(self, other)
    }

    fn sub_assign(&mut self, other: &Self) {
        rb_sub_assign(self, other)
    }

    fn bitor_owned(self, other: Self) -> (r: Self) {
        let mut out = self;
        rb_or_assign(&mut out, &other);
        out
    }

    fn bitand_owned(self, other: Self) -> (r: Self) {
        let mut out = self;
        rb_and_assign(&mut out, &other);
        out
    }

    fn bitxor_owned(self, other: Self) -> (r: Self) {
        let mut out = self;
        rb_xor_assign(&mut out, &other);
        out
    }

    fn sub_owned(self, other: Self) -> (r: Self) {
        let mut out = self;
        rb_sub_assign(&mut out, &other);
        out
    }

    fn is_disjoint(&self, other: &Self) -> (r: bool) {
        rb_is_disjoint(self, other)
    }

    fn is_subset(&self, other: &Self) -> (r: bool) {
        rb_is_subset(self, other)
    }

    fn equals(&self, other: &Self) -> (r: bool) {
        rb_eq(self, other)
    }

    fn intersection_len(&self, other: &Self) -> (r: u64) {
        rb_intersection_len(self, other)
    }

    fn union_len(&self, other: &Self) -> (r: u64) {
        rb_union_len(self, other)
    }

    fn select(&self, n: u64) -> (r: Option<u32>) {
        if n > u32::MAX as u64 {
            proof {
                lemma_u32_set_finite(bitmap32_values(*self));
            }
            return None;
        }
        let r = rb_select(self, n as u32);
        proof {
            if let Some(v) = r {
                assert(members_below(val32(), bitmap32_values(*self), v) =~= bitmap32_values(
                    *self,
                ).filter(|y: u32| y < v));
            }
        }
        r
    }

    fn nth_absent(&self, n: u64) -> (r: Option<u32>) {
        let ghost s = bitmap32_values(*self);
        if n == 0 {
            return None;
        }
        let total = absent_count_upto(self, u32::MAX);
        if total < n {
            proof {
                assert(s.complement() =~= absent_upto(s, u32::MAX));
            }
            return None;
        }
        // Binary search for the smallest x with at least n absent values <= x.
        let mut lo: u32 = 0;
        let mut hi: u32 = u32::MAX;
        while lo < hi
            invariant
                lo <= hi,
                n >= 1,
                s == bitmap32_values(*self),
                absent_upto(s, hi).len() >= n,
                lo > 0 ==> absent_upto(s, (lo - 1) as u32).len() < n,
            decreases hi - lo,
        {
            let mid: u32 = lo + (hi - lo) / 2;
            if absent_count_upto(self, mid) >= n {
                hi = mid;
            } else {
                lo = mid + 1;
            }
        }
        let x = lo;
        proof {
            if x == 0 {
                assert(absent_below(val32(), s, x) =~= Set::<u32>::empty());
                if s.contains(0) {
                    assert(absent_upto(s, 0) =~= Set::<u32>::empty());
                }
                lemma_u32_set_finite(absent_upto(s, 0));
                assert(absent_upto(s, 0) =~= Set::<u32>::empty().insert(0u32));
            } else {
                lemma_absent_upto_step(s, x);
                assert(absent_below(val32(), s, x) =~= absent_upto(s, (x - 1) as u32));
            }
        }
        Some(x)
    }

    fn flip_inclusive(&self, last: u32) -> (r: Self) {
        let mut range_bm = rb_new();
        rb_insert_range(&mut range_bm, 0, last);
        rb_xor_assign(&mut range_bm, self);
        proof {
            assert(Set::<u32>::empty().union(Set::new(|v: u32| 0 <= v <= last)) =~= value_span(val32(), 0, last as int));
        }
        range_bm
    }

    fn insert_range_inclusive(&mut self, start: u32, end: u32) -> (r: u64) {
        let r = rb_insert_range(self, start, end);
        proof {
            assert(Set::new(|v: u32| start <= v <= end) =~= value_span(val32(), 
                start as int,
                end as int,
            ));
        }
        r
    }

    fn insert_range_exclusive(&mut self, start: u32, end: u32) -> (r: u64) {
        if end <= start {
            proof {
                assert(value_span(val32(), start as int, end - 1) =~= Set::<u32>::empty());
                assert(old(self).view_set().union(Set::<u32>::empty()) =~= old(self).view_set());
                assert(Set::<u32>::empty().difference(old(self).view_set()) =~= Set::<u32>::empty());
            }
            return 0;
        }
        let r = rb_insert_range(self, start, end - 1);
        proof {
            assert(Set::new(|v: u32| start <= v <= end - 1) =~= value_span(val32(), 
                start as int,
                end - 1,
            ));
        }
        r
    }

    fn iter_values(&self) -> (r: Vec<u32>) {
        rb_iter(self)
    }

    open spec fn range_accepted(start: u32, end: u32) -> bool {
        start <= end
    }

    fn iter_range(&self, start: u32, end: u32) -> (r: Vec<u32>) {
        let r = rb_range(self, start, end);
        proof {
            assert(bitmap32_values(*self).filter(|v: u32| start <= v <= end) =~= bitmap32_values(
                *self,
            ).intersect(value_span(val32(), start as int, end as int)));
        }
        r
    }

    fn from_bit_array(bits: &[u8]) -> (r: Self) {
        let mut bm = rb_new();
        let mut i: usize = 0;
        while i < bits.len()
            invariant
                i <= bits@.len(),
                bitmap32_values(bm) == bit_string_set(val32(), u32::MAX + 1, bits@.subrange(0, i as int)),
            decreases bits@.len() - i,
        {
            proof {
                lemma_bit_string_step(bits@, i as int);
            }
            if bits[i] == 49u8 {
                let v: u32 = ((i as u64) % 4294967296u64) as u32;
                rb_insert(&mut bm, v);
            }
            i += 1;
        }
        assert(bits@.subrange(0, bits@.len() as int) =~= bits@);
        bm
    }

    fn to_bit_array(&self) -> (r: Vec<u8>) {
        let mut bits: Vec<u8> = Vec::new();
        match rb_max(self) {
            None => bits,
            Some(max) => {
                assert(self.view_set().contains(max));
                let n: usize = max as usize + 1;
                let mut i: usize = 0;
                while i < n
                    invariant
                        i <= n,
                        n == max + 1,
                        bits@.len() == i,
                        forall|j: int|
                            0 <= j < i ==> bits@[j] == (if bitmap32_values(*self).contains(
                                j as u32,
                            ) {
                                one_byte()
                            } else {
                                zero_byte()
                            }),
                    decreases n - i,
                {
                    if rb_contains(self, i as u32) {
                        bits.push(49u8);
                    } else {
                        bits.push(48u8);
                    }
                    i += 1;
                }
                proof {
                    assert(is_greatest(val32(), bitmap32_values(*self), max));
                    assert(bitmap32_values(*self) != Set::<u32>::empty());
                }
                bits
            },
        }
    }

    open spec fn portable_decode(bytes: Seq<u8>) -> Option<Set<u32>> {
        portable_decode32(bytes)
    }

    open spec fn serialized_len(&self) -> nat {
        bitmap32_serialized_len(*self)
    }

    open spec fn layout_in(&self, bytes: Seq<u8>) -> bool {
        true
    }

    fn serialize_into(&self, out: &mut Vec<u8>) {
        rb_serialize_into(self, out)
    }

    fn serialized_size(&self) -> (r: usize) {
        rb_serialized_size(self)
    }

    fn deserialize_from(bytes: &[u8]) -> (r: Result<Self, CommandError>) {
        match rb_deserialize_from(bytes) {
            Some(b) => Ok(b),
            None => Err(CommandError::BadBinary),
        }
    }

    open spec fn stats_fit(&self, st: BitmapStats) -> bool {
        stats_fit32(bitmap32_values(*self), st) && counts_fit(st, bitmap32_container_counts(*self))
    }

    open spec fn stats_computable(&self) -> bool {
        bitmap32_values(*self) != Set::<u32>::full()
    }

    fn stats_available(&self) -> (r: bool) {
        let n = rb_len(self);
        proof {
            lemma_u32_len_full(bitmap32_values(*self));
        }
        n != 4294967296u64
    }

    open spec fn stat_text_spec(&self, st: BitmapStats) -> Seq<u8> {
        stat_text32_spec(st)
    }

    open spec fn stat_json_spec(&self, st: BitmapStats) -> Seq<u8> {
        stat_json32_spec(st)
    }

    fn stat_text(&self) -> (r: Vec<u8>) {
        let st = rb_statistics(self);
        let r = stat_text32(&st);
        assert(self.stats_fit(st) && r@ == self.stat_text_spec(st));
        r
    }

    fn stat_json(&self) -> (r: Vec<u8>) {
        let st = rb_statistics(self);
        let r = stat_json32(&st);
        assert(self.stats_fit(st) && r@ == self.stat_json_spec(st));
        r
    }

    open spec fn optimize_changes(&self) -> bool {
        bitmap32_optimize_changes(*self)
    }

    fn optimize(&mut self) -> (r: bool) {
        rb_optimize(self)
    }
}

} // verus!
