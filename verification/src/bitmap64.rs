//! `RoaringType` for `roaring::RoaringTreemap`, the 64-bit bitmap.
use vstd::prelude::*;
use vstd::set_lib::*;
use roaring::RoaringTreemap;
use crate::error::CommandError;
use roaring::RoaringBitmap;
use crate::bitmap32::{bitmap32_values, rb_statistics, rb_len, lemma_u32_len_full, stats_fit32, counts_fit, bitmap32_container_counts};
use crate::stats::{BitmapStats, aggregate_stats, stat_count, wrapped_total, stat_text64, stat_json64, stat_text64_spec, stat_json64_spec};
use crate::bitmap_type::{
    RoaringType, value_span, symmetric_difference, members_below, absent_below, is_least,
    is_greatest, bit_string_set, one_byte, zero_byte, lemma_prefix_to_set, lemma_full_prefix,
};

verus! {

broadcast use vstd::set_lib::group_set_properties;

#[verifier::external_type_specification]
#[verifier::external_body]
pub struct ExRoaringTreemap(RoaringTreemap);

/// The set of values that a `RoaringTreemap` holds.
pub uninterp spec fn bitmap64_values(b: RoaringTreemap) -> Set<u64>;

// ------------------------------------------------------------------
// Trusted wrappers around `roaring::RoaringTreemap`.
// ------------------------------------------------------------------

/// `RoaringTreemap::new`: an empty bitmap.
#[verifier::external_body]
fn rt_new() -> (r: RoaringTreemap)
    ensures
        bitmap64_values(r) == Set::<u64>::empty(),
{
    RoaringTreemap::new()
}

/// `RoaringTreemap::full`: a bitmap holding every `u64`.
#[verifier::external_body]
fn rt_full() -> (r: RoaringTreemap)
    ensures
        bitmap64_values(r) == Set::<u64>::full(),
{
    RoaringTreemap::full()
}

/// `RoaringTreemap::clone`: a bitmap with the same values.
#[verifier::external_body]
fn rt_clone(b: &RoaringTreemap) -> (r: RoaringTreemap)
    ensures
        bitmap64_values(r) == bitmap64_values(*b),
{
    b.clone()
}

/// `RoaringTreemap::insert`: adds `v`; `true` when it was absent.
#[verifier::external_body]
fn rt_insert(b: &mut RoaringTreemap, v: u64) -> (r: bool)
    ensures
        bitmap64_values(*final(b)) == bitmap64_values(*old(b)).insert(v),
        r == !bitmap64_values(*old(b)).contains(v),
{
    b.insert(v)
}

/// `RoaringTreemap::remove`: removes `v`; `true` when it was present.
#[verifier::external_body]
fn rt_remove(b: &mut RoaringTreemap, v: u64) -> (r: bool)
    ensures
        bitmap64_values(*final(b)) == bitmap64_values(*old(b)).remove(v),
        r == bitmap64_values(*old(b)).contains(v),
{
    b.remove(v)
}

/// `RoaringTreemap::contains`: membership of `v`.
#[verifier::external_body]
fn rt_contains(b: &RoaringTreemap, v: u64) -> (r: bool)
    ensures
        r == bitmap64_values(*b).contains(v),
{
    b.contains(v)
}

/// `RoaringTreemap::clear`: removes every value.
#[verifier::external_body]
fn rt_clear(b: &mut RoaringTreemap)
    ensures
        bitmap64_values(*final(b)) == Set::<u64>::empty(),
{
    b.clear()
}

/// `RoaringTreemap::len`: the number of values held. It sums the sizes of
/// the 32-bit partitions, which overflows only for the full 2^64 set.
#[verifier::external_body]
fn rt_len(b: &RoaringTreemap) -> (r: u64)
    requires
        bitmap64_values(*b).len() <= u64::MAX,
    ensures
        r == bitmap64_values(*b).len(),
{
    b.len()
}

/// `RoaringTreemap::is_empty`: whether no value is held.
#[verifier::external_body]
fn rt_is_empty(b: &RoaringTreemap) -> (r: bool)
    ensures
        r == (bitmap64_values(*b) == Set::<u64>::empty()),
{
    b.is_empty()
}

/// `RoaringTreemap::min`: the smallest value held.
#[verifier::external_body]
fn rt_min(b: &RoaringTreemap) -> (r: Option<u64>)
    ensures
        match r {
            Some(v) => bitmap64_values(*b).contains(v) && forall|y: u64|
                bitmap64_values(*b).contains(y) ==> v <= y,
            None => bitmap64_values(*b) == Set::<u64>::empty(),
        },
{
    b.min()
}

/// `RoaringTreemap::max`: the largest value held.
#[verifier::external_body]
fn rt_max(b: &RoaringTreemap) -> (r: Option<u64>)
    ensures
        match r {
            Some(v) => bitmap64_values(*b).contains(v) && forall|y: u64|
                bitmap64_values(*b).contains(y) ==> y <= v,
            None => bitmap64_values(*b) == Set::<u64>::empty(),
        },
{
    b.max()
}

/// `*a |= b` (`BitOrAssign<&RoaringTreemap>`): union into `a`.
#[verifier::external_body]
fn rt_or_assign(a: &mut RoaringTreemap, b: &RoaringTreemap)
    ensures
        bitmap64_values(*final(a)) == bitmap64_values(*old(a)).union(bitmap64_values(*b)),
{
    *a |= b;
}

/// `*a &= b` (`BitAndAssign<&RoaringTreemap>`): intersection into `a`.
#[verifier::external_body]
fn rt_and_assign(a: &mut RoaringTreemap, b: &RoaringTreemap)
    ensures
        bitmap64_values(*final(a)) == bitmap64_values(*old(a)).intersect(bitmap64_values(*b)),
{
    *a &= b;
}

/// `*a ^= b` (`BitXorAssign<&RoaringTreemap>`): symmetric difference into `a`.
#[verifier::external_body]
fn rt_xor_assign(a: &mut RoaringTreemap, b: &RoaringTreemap)
    ensures
        bitmap64_values(*final(a)) == symmetric_difference(
            bitmap64_values(*old(a)),
            bitmap64_values(*b),
        ),
{
    *a ^= b;
}

/// `*a -= b` (`SubAssign<&RoaringTreemap>`): difference into `a`.
#[verifier::external_body]
fn rt_sub_assign(a: &mut RoaringTreemap, b: &RoaringTreemap)
    ensures
        bitmap64_values(*final(a)) == bitmap64_values(*old(a)).difference(bitmap64_values(*b)),
{
    *a -= b;
}

/// `RoaringTreemap::is_disjoint`: whether no value is shared.
#[verifier::external_body]
fn rt_is_disjoint(a: &RoaringTreemap, b: &RoaringTreemap) -> (r: bool)
    ensures
        r == bitmap64_values(*a).disjoint(bitmap64_values(*b)),
{
    a.is_disjoint(b)
}

/// `RoaringTreemap::is_subset`. It compares the 32-bit partitions pairwise:
/// a partition key of `a` missing from `b` answers `false` (even for an
/// empty partition), and partitions under the same key are compared as
/// 32-bit bitmaps, exactly. So it answers whether the keys and the values of
/// `a` are among those of `b`.
#[verifier::external_body]
fn rt_is_subset(a: &RoaringTreemap, b: &RoaringTreemap) -> (r: bool)
    ensures
        r == (treemap_keys(*a).subset_of(treemap_keys(*b)) && bitmap64_values(*a).subset_of(
            bitmap64_values(*b),
        )),
{
    a.is_subset(b)
}

/// `RoaringTreemap == RoaringTreemap` (derived): the partition maps are
/// equal, that is the same keys, and under each key 32-bit bitmaps that
/// compare equal, exactly. So it answers whether the keys and the values
/// are the same.
#[verifier::external_body]
fn rt_eq(a: &RoaringTreemap, b: &RoaringTreemap) -> (r: bool)
    ensures
        r == (treemap_keys(*a) == treemap_keys(*b) && bitmap64_values(*a) == bitmap64_values(*b)),
{
    a == b
}

/// `RoaringTreemap::intersection_len`: the number of shared values.
#[verifier::external_body]
fn rt_intersection_len(a: &RoaringTreemap, b: &RoaringTreemap) -> (r: u64)
    requires
        bitmap64_values(*a).intersect(bitmap64_values(*b)).len() <= u64::MAX,
    ensures
        r == bitmap64_values(*a).intersect(bitmap64_values(*b)).len(),
{
    a.intersection_len(b)
}

/// `RoaringTreemap::union_len`: the number of values in either bitmap,
/// computed as `len(a) + len(b) - intersection_len` in wrapping arithmetic,
/// exact when the union has fewer than 2^64 values.
#[verifier::external_body]
fn rt_union_len(a: &RoaringTreemap, b: &RoaringTreemap) -> (r: u64)
    requires
        bitmap64_values(*a).union(bitmap64_values(*b)).len() <= u64::MAX,
    ensures
        r == bitmap64_values(*a).union(bitmap64_values(*b)).len(),
{
    a.union_len(b)
}

/// `RoaringTreemap::rank`: the number of values held that are `<= v`.
#[verifier::external_body]
fn rt_rank(b: &RoaringTreemap, v: u64) -> (r: u64)
    requires
        bitmap64_values(*b).filter(|y: u64| y <= v).len() <= u64::MAX,
    ensures
        r == bitmap64_values(*b).filter(|y: u64| y <= v).len(),
{
    b.rank(v)
}

/// `RoaringTreemap::select`: the `n`th value held (0-indexed), if any.
#[verifier::external_body]
fn rt_select(b: &RoaringTreemap, n: u64) -> (r: Option<u64>)
    ensures
        match r {
            Some(v) => bitmap64_values(*b).contains(v) && bitmap64_values(*b).filter(
                |y: u64| y < v,
            ).len() == n,
            None => bitmap64_values(*b).len() <= n,
        },
{
    b.select(n)
}

/// `RoaringTreemap::insert_range(start..=end)`: adds `[start, end]`; returns
/// how many of them were absent (nothing is added when `start > end`). The
/// count is summed per 32-bit partition and overflows only when all 2^64
/// values are newly added.
#[verifier::external_body]
fn rt_insert_range(b: &mut RoaringTreemap, start: u64, end: u64) -> (r: u64)
    requires
        Set::new(|v: u64| start <= v <= end).difference(bitmap64_values(*old(b))).len() <= u64::MAX,
    ensures
        bitmap64_values(*final(b)) == bitmap64_values(*old(b)).union(
            Set::new(|v: u64| start <= v <= end),
        ),
        r == Set::new(|v: u64| start <= v <= end).difference(bitmap64_values(*old(b))).len(),
{
    b.insert_range(start..=end)
}

/// The keys of the 32-bit partitions a `RoaringTreemap` keeps. Each value
/// lies in the partition keyed by its high 32 bits; a partition may also be
/// present but empty (deserialization keeps such partitions).
pub uninterp spec fn treemap_keys(t: RoaringTreemap) -> Set<u32>;

/// The high 32-bit halves of the values of `s`: the keys of the partitions
/// that hold a value.
pub open spec fn high_halves(s: Set<u64>) -> Set<u32> {
    Set::new(|k: u32| exists|v: u64| s.contains(v) && v / 0x1_0000_0000 == k)
}

/// Whether `RoaringTreemap::optimize` changes the storage of `t`: re-chooses
/// the storage of some container of a partition, or drops an empty
/// partition.
pub uninterp spec fn bitmap64_optimize_changes(t: RoaringTreemap) -> bool;

/// `RoaringTreemap::optimize`: re-chooses container storage, keeping the
/// values, and drops the empty partitions; returns whether anything changed
/// (so `true` whenever an empty partition was dropped). Afterwards no
/// partition is empty and each holds its smallest storage, so a second call
/// finds nothing to change.
#[verifier::external_body]
fn rt_optimize(b: &mut RoaringTreemap) -> (r: bool)
    ensures
        bitmap64_values(*final(b)) == bitmap64_values(*old(b)),
        treemap_keys(*final(b)) == high_halves(bitmap64_values(*old(b))),
        r == bitmap64_optimize_changes(*old(b)),
        treemap_keys(*old(b)) != high_halves(bitmap64_values(*old(b))) ==> r,
        !bitmap64_optimize_changes(*final(b)),
{
    b.optimize()
}

/// `RoaringTreemap::iter`, collected: the values in increasing order.
#[verifier::external_body]
fn rt_iter(b: &RoaringTreemap) -> (r: Vec<u64>)
    ensures
        forall|i: int, j: int| 0 <= i < j < r@.len() ==> r@[i] < r@[j],
        r@.to_set() == bitmap64_values(*b),
{
    b.iter().collect()
}

/// What `RoaringTreemap::deserialize_from` reads from `bytes`: the values of the
/// bitmap, or `None` when it refuses the bytes.
pub uninterp spec fn portable_decode64(bytes: Seq<u8>) -> Option<Set<u64>>;

/// The partition keys that the serialized treemap `bytes` lists (an empty
/// partition's too), each followed by its 32-bit bitmap.
pub uninterp spec fn portable_keys64(bytes: Seq<u8>) -> Set<u32>;

/// What `RoaringTreemap::serialized_size` gives for `b`: the length of its serialized
/// form, which depends on the storage of its containers.
pub uninterp spec fn bitmap64_serialized_len(b: RoaringTreemap) -> nat;

/// `RoaringTreemap::serialize_into` a `Vec`: appends the portable serialized form of
/// `b`, listing each of its partitions under its key, which `deserialize_from` reads back as the same values (the round
/// trip the crate documents), and whose length `serialized_size` gives.
/// Writing into a `Vec` never fails.
#[verifier::external_body]
fn rt_serialize_into(b: &RoaringTreemap, out: &mut Vec<u8>)
    ensures
        final(out)@.len() == old(out)@.len() + bitmap64_serialized_len(*b),
        final(out)@.subrange(0, old(out)@.len() as int) == old(out)@,
        portable_decode64(final(out)@.subrange(old(out)@.len() as int, final(out)@.len() as int))
            == Some(bitmap64_values(*b)),
        portable_keys64(final(out)@.subrange(old(out)@.len() as int, final(out)@.len() as int))
            == treemap_keys(*b),
{
    let _ = b.serialize_into(&mut *out);
}

/// `RoaringTreemap::serialized_size`: the length of the serialized form.
#[verifier::external_body]
fn rt_serialized_size(b: &RoaringTreemap) -> (r: usize)
    ensures
        r == bitmap64_serialized_len(*b),
{
    b.serialized_size()
}

/// `RoaringTreemap::deserialize_from` a byte slice: the bitmap the bytes encode, with
/// a partition under each key they list, or `None` when they are no
/// serialized bitmap.
#[verifier::external_body]
fn rt_deserialize_from(bytes: &[u8]) -> (r: Option<RoaringTreemap>)
    ensures
        match r {
            Some(b) => portable_decode64(bytes@) == Some(bitmap64_values(b)) && treemap_keys(b)
                == portable_keys64(bytes@),
            None => portable_decode64(bytes@) is None,
        },
{
    RoaringTreemap::deserialize_from(bytes).ok()
}

// ------------------------------------------------------------------
// Facts about sets of `u64`.
// ------------------------------------------------------------------

/// The values `<= x` number `x + 1`.
proof fn lemma_upto_len(x: u64)
    ensures
        Set::new(|y: u64| y <= x).finite(),
        Set::new(|y: u64| y <= x).len() == x + 1,
{
    let below = <u64 as FiniteRange>::range_set(0, x);
    <u64 as FiniteRange>::range_properties(0, x);
    assert(Set::new(|y: u64| y <= x) =~= below.insert(x));
}

/// The values in `[start, end]` number `end - start + 1`, and no set
/// gains more than that many of them.
proof fn lemma_span_len(start: u64, end: u64, s: Set<u64>)
    ensures
        start <= end ==> Set::new(|v: u64| start <= v <= end).len() == end - start + 1,
        Set::new(|v: u64| start <= v <= end).difference(s).len() <= if start <= end {
            end - start + 1
        } else {
            0
        },
{
    let span = Set::new(|v: u64| start <= v <= end);
    if start <= end {
        <u64 as FiniteRange>::range_properties(start, end);
        assert(span =~= <u64 as FiniteRange>::range_set(start, end).insert(end));
    } else {
        assert(span =~= Set::<u64>::empty());
    }
    lemma_len_difference(span, s);
}

/// Every set of `u64` is finite, with at most `2^64` members.
proof fn lemma_u64_set_finite(s: Set<u64>)
    ensures
        s.finite(),
        s.len() <= u64::MAX + 1,
{
    lemma_upto_len(u64::MAX);
    let all = Set::new(|y: u64| y <= u64::MAX);
    assert(s.subset_of(all));
    lemma_set_subset_finite(all, s);
    lemma_len_subset(s, all);
}

/// The values `<= x` that `s` lacks.
spec fn absent_upto(s: Set<u64>, x: u64) -> Set<u64> {
    Set::new(|y: u64| y <= x && !s.contains(y))
}

/// Held and absent values up to `x` split the `x + 1` values `<= x`.
proof fn lemma_absent_upto_len(s: Set<u64>, x: u64)
    ensures
        absent_upto(s, x).len() + s.filter(|y: u64| y <= x).len() == x + 1,
{
    lemma_upto_len(x);
    let held = s.filter(|y: u64| y <= x);
    let lacking = absent_upto(s, x);
    lemma_u64_set_finite(held);
    lemma_u64_set_finite(lacking);
    assert(held.disjoint(lacking));
    assert(held + lacking =~= Set::new(|y: u64| y <= x));
}

/// Moving from `x - 1` to `x` adds `x` to the absent values exactly when `s` lacks it.
proof fn lemma_absent_upto_step(s: Set<u64>, x: u64)
    requires
        x > 0,
    ensures
        s.contains(x) ==> absent_upto(s, x) == absent_upto(s, (x - 1) as u64),
        !s.contains(x) ==> absent_upto(s, x) == absent_upto(s, (x - 1) as u64).insert(x),
        !s.contains(x) ==> absent_upto(s, x).len() == absent_upto(s, (x - 1) as u64).len() + 1,
{
    let prev = absent_upto(s, (x - 1) as u64);
    lemma_u64_set_finite(prev);
    if s.contains(x) {
        assert(absent_upto(s, x) =~= prev);
    } else {
        assert(absent_upto(s, x) =~= prev.insert(x));
    }
}

/// How many values `<= x` the bitmap lacks, as a 64-bit count.
fn absent_count_upto(b: &RoaringTreemap, x: u64) -> (r: u64)
    requires
        x < u64::MAX,
    ensures
        r == absent_upto(bitmap64_values(*b), x).len(),
{
    proof {
        lemma_absent_upto_len(bitmap64_values(*b), x);
    }
    let held = rt_rank(b, x);
    x + 1 - held
}

/// The integer a 64-bit value stands for.
pub open spec fn val64() -> spec_fn(u64) -> int {
    |x: u64| RoaringTreemap::value_int(x)
}

/// Reading one more character of a bit string sets one more value, or none.
proof fn lemma_bit_string_step(bits: Seq<u8>, i: int)
    requires
        0 <= i < bits.len(),
    ensures
        bits[i] == one_byte() ==> bit_string_set(val64(), u64::MAX + 1, bits.subrange(0, i + 1))
            == bit_string_set(val64(), u64::MAX + 1, bits.subrange(0, i)).insert(
            (i % (u64::MAX + 1)) as u64,
        ),
        bits[i] != one_byte() ==> bit_string_set(val64(), u64::MAX + 1, bits.subrange(0, i + 1))
            == bit_string_set(val64(), u64::MAX + 1, bits.subrange(0, i)),
{
    let before = bits.subrange(0, i);
    let after = bits.subrange(0, i + 1);
    let sb = bit_string_set(val64(), u64::MAX + 1, before);
    let sa = bit_string_set(val64(), u64::MAX + 1, after);
    let v = (i % (u64::MAX + 1)) as u64;
    assert forall|w: u64| #[trigger] sa.contains(w) == (sb.contains(w) || (bits[i] == one_byte() && w == v)) by {
        if sb.contains(w) {
            let k = choose|k: int| 0 <= k < before.len() && before[k] == one_byte() && k % (u64::MAX + 1) == w as int;
            assert(after[k] == before[k]);
        }
        if bits[i] == one_byte() && w == v {
            assert(after[i] == one_byte());
        }
        if sa.contains(w) {
            let k = choose|k: int| 0 <= k < after.len() && after[k] == one_byte() && k % (u64::MAX + 1) == w as int;
            if k < i {
                assert(before[k] == after[k]);
            }
        }
    }
    if bits[i] == one_byte() {
        assert(sa =~= sb.insert(v));
    } else {
        assert(sa =~= sb);
    }
}

/// `RoaringTreemap::bitmaps`, collected: the 32-bit partitions (every kept
/// key, an empty partition's too) by increasing key; the partition with key `k` holds the low 32 bits of the
/// values whose high 32 bits are `k`.
#[verifier::external_body]
fn rt_partitions(t: &RoaringTreemap) -> (r: Vec<(u32, &RoaringBitmap)>)
    ensures
        forall|i: int, j: int| 0 <= i < j < r@.len() ==> r@[i].0 < r@[j].0,
        forall|k: u32|
            treemap_keys(*t).contains(k) <==> exists|i: int| 0 <= i < r@.len() && #[trigger] r@[i].0 == k,
        forall|v: u64|
            bitmap64_values(*t).contains(v) <==> exists|i: int|
                0 <= i < r@.len() && r@[i].0 == v / 0x1_0000_0000 && bitmap32_values(*r@[i].1).contains(
                    (v % 0x1_0000_0000) as u32,
                ),
        r@.len() == treemap_partition_counts(*t).len(),
        forall|i: int|
            0 <= i < r@.len() ==> bitmap32_container_counts(*#[trigger] r@[i].1)
                == treemap_partition_counts(*t)[i],
{
    t.bitmaps().collect()
}

/// How the containers of each 32-bit partition of `t` are stored (see
/// `bitmap32_container_counts`), by increasing partition key.
pub uninterp spec fn treemap_partition_counts(t: RoaringTreemap) -> Seq<(nat, nat, nat, nat, nat, nat, nat, nat)>;

/// Every value whose high 32 bits are `k` is in `s`.
pub open spec fn full_partition(s: Set<u64>, k: u32) -> bool {
    forall|v: u64| v / 0x1_0000_0000 == k ==> #[trigger] s.contains(v)
}

/// No 32-bit partition of `s` holds every value it can.
pub open spec fn no_full_partition(s: Set<u64>) -> bool {
    forall|k: u32| !#[trigger] full_partition(s, k)
}

/// The value with high half `k` and low half `lo`.
proof fn lemma_join_halves(k: u32, lo: u32) -> (v: u64)
    ensures
        v / 0x1_0000_0000 == k,
        (v % 0x1_0000_0000) as u32 == lo,
{
    let v: u64 = ((k as u64) << 32u64) | (lo as u64);
    assert(v / 0x1_0000_0000 == k as u64 && v % 0x1_0000_0000 == lo as u64) by (bit_vector)
        requires
            v == ((k as u64) << 32u64) | (lo as u64),
    ;
    v
}


/// `st` adds up the statistics `parts` of the 32-bit partitions of `s`:
/// each part is a partition key, the low 32-bit halves of the values with
/// that high half, and statistics fitting them, whose container counts are
/// the partition's `counts`; the container and value counts of `st` are the
/// wrapping sums of those of the parts.
pub open spec fn partition_stats_fit(
    s: Set<u64>,
    counts: Seq<(nat, nat, nat, nat, nat, nat, nat, nat)>,
    st: BitmapStats,
    parts: Seq<(u32, Set<u32>, BitmapStats)>,
) -> bool {
    &&& forall|i: int, j: int| 0 <= i < j < parts.len() ==> parts[i].0 < parts[j].0
    &&& forall|v: u64|
        s.contains(v) <==> exists|i: int|
            0 <= i < parts.len() && parts[i].0 == v / 0x1_0000_0000 && #[trigger] parts[i].1.contains(
                (v % 0x1_0000_0000) as u32,
            )
    &&& parts.len() == counts.len()
    &&& forall|i: int|
        0 <= i < parts.len() ==> stats_fit32(parts[i].1, #[trigger] parts[i].2) && counts_fit(
            parts[i].2,
            counts[i],
        )
    &&& forall|k: int|
        0 <= k < 10 ==> #[trigger] stat_count(st, k) == wrapped_total(
            parts.map_values(|p: (u32, Set<u32>, BitmapStats)| p.2),
            k,
        )
}

/// What the `R.STAT` record of a 64-bit bitmap is known to hold: its
/// cardinality and extremes, and container counts added up over its 32-bit
/// partitions, whose own counts are `counts` (see `partition_stats_fit`).
pub open spec fn stats_fit64(s: Set<u64>, counts: Seq<(nat, nat, nat, nat, nat, nat, nat, nat)>, st: BitmapStats) -> bool {
    &&& exists|parts: Seq<(u32, Set<u32>, BitmapStats)>| partition_stats_fit(s, counts, st, parts)
    &&& st.cardinality == s.len()
    &&& match st.max_value {
        None => s == Set::<u64>::empty(),
        Some(m) => is_greatest(val64(), s, m),
    }
    &&& match st.min_value {
        None => s == Set::<u64>::empty(),
        Some(m) => is_least(val64(), s, m),
    }
}

/// Container statistics of a treemap, added up over its partitions.
#[verifier::loop_isolation(false)]
fn treemap_stats(t: &RoaringTreemap) -> (r: BitmapStats)
    requires
        bitmap64_values(*t).len() <= u64::MAX,
        no_full_partition(bitmap64_values(*t)),
    ensures
        stats_fit64(bitmap64_values(*t), treemap_partition_counts(*t), r),
{
    let parts = rt_partitions(t);
    let ghost s = bitmap64_values(*t);
    let mut each: Vec<BitmapStats> = Vec::new();
    let mut i: usize = 0;
    while i < parts.len()
        invariant
            i <= parts@.len(),
            each@.len() == i,
            forall|j: int|
                0 <= j < i ==> stats_fit32(bitmap32_values(*parts@[j].1), #[trigger] each@[j])
                    && counts_fit(each@[j], bitmap32_container_counts(*parts@[j].1)),
        decreases parts@.len() - i,
    {
        proof {
            let k = parts@[i as int].0;
            assert(!full_partition(s, k));
            let v = choose|v: u64| v / 0x1_0000_0000 == k && !s.contains(v);
            if bitmap32_values(*parts@[i as int].1) == Set::<u32>::full() {
                assert(bitmap32_values(*parts@[i as int].1).contains((v % 0x1_0000_0000) as u32));
                assert(s.contains(v));
            }
        }
        each.push(rb_statistics(parts[i].1));
        i += 1;
    }
    let agg = aggregate_stats(each.as_slice());
    let r = BitmapStats {
        cardinality: rt_len(t),
        n_containers: agg.n_containers,
        n_array_containers: agg.n_array_containers,
        n_values_array_containers: agg.n_values_array_containers,
        n_bytes_array_containers: agg.n_bytes_array_containers,
        n_bitset_containers: agg.n_bitset_containers,
        n_values_bitset_containers: agg.n_values_bitset_containers,
        n_bytes_bitset_containers: agg.n_bytes_bitset_containers,
        n_run_containers: agg.n_run_containers,
        n_values_run_containers: agg.n_values_run_containers,
        n_bytes_run_containers: agg.n_bytes_run_containers,
        max_value: rt_max(t),
        min_value: rt_min(t),
    };
    proof {
        let counts = treemap_partition_counts(*t);
        let witness = Seq::new(
            parts@.len(),
            |i: int| (parts@[i].0, bitmap32_values(*parts@[i].1), each@[i]),
        );
        assert(witness.map_values(|p: (u32, Set<u32>, BitmapStats)| p.2) =~= each@);
        assert forall|k: int| 0 <= k < 10 implies #[trigger] stat_count(r, k) == stat_count(agg, k) by {}
        assert forall|i: int| 0 <= i < witness.len() implies stats_fit32(witness[i].1, #[trigger] witness[i].2)
            && counts_fit(witness[i].2, counts[i]) by {
            assert(bitmap32_container_counts(*parts@[i].1) == counts[i]);
        }
        assert forall|v: u64| bitmap64_values(*t).contains(v) implies exists|i: int|
            0 <= i < witness.len() && witness[i].0 == v / 0x1_0000_0000 && #[trigger] witness[i].1.contains(
                (v % 0x1_0000_0000) as u32,
            ) by {
            let i = choose|i: int|
                0 <= i < parts@.len() && parts@[i].0 == v / 0x1_0000_0000 && bitmap32_values(*parts@[i].1).contains(
                    (v % 0x1_0000_0000) as u32,
                );
            assert(witness[i].1 == bitmap32_values(*parts@[i].1));
        }
        assert forall|v: u64| (exists|i: int|
            0 <= i < witness.len() && witness[i].0 == v / 0x1_0000_0000 && #[trigger] witness[i].1.contains(
                (v % 0x1_0000_0000) as u32,
            )) implies bitmap64_values(*t).contains(v) by {
            let i = choose|i: int|
                0 <= i < witness.len() && witness[i].0 == v / 0x1_0000_0000 && #[trigger] witness[i].1.contains(
                    (v % 0x1_0000_0000) as u32,
                );
            assert(bitmap32_values(*parts@[i].1).contains((v % 0x1_0000_0000) as u32));
        }
        assert(partition_stats_fit(bitmap64_values(*t), counts, r, witness));
    }
    r
}

/// Whether no 32-bit partition of the treemap holds every value it can.
#[verifier::loop_isolation(false)]
fn treemap_stats_available(t: &RoaringTreemap) -> (r: bool)
    ensures
        r == no_full_partition(bitmap64_values(*t)),
{
    let parts = rt_partitions(t);
    let ghost s = bitmap64_values(*t);
    let mut i: usize = 0;
    while i < parts.len()
        invariant
            i <= parts@.len(),
            forall|j: int| 0 <= j < i ==> bitmap32_values(*#[trigger] parts@[j].1) != Set::<u32>::full(),
        decreases parts@.len() - i,
    {
        let n = rb_len(parts[i].1);
        proof {
            lemma_u32_len_full(bitmap32_values(*parts@[i as int].1));
        }
        if n == 4294967296u64 {
            proof {
                let k = parts@[i as int].0;
                assert forall|v: u64| v / 0x1_0000_0000 == k implies #[trigger] s.contains(v) by {
                    assert(bitmap32_values(*parts@[i as int].1).contains((v % 0x1_0000_0000) as u32));
                }
                assert(full_partition(s, k));
            }
            return false;
        }
        i += 1;
    }
    proof {
        assert forall|k: u32| !#[trigger] full_partition(s, k) by {
            if exists|i: int| 0 <= i < parts@.len() && parts@[i].0 == k {
                let i = choose|i: int| 0 <= i < parts@.len() && parts@[i].0 == k;
                let part = bitmap32_values(*parts@[i].1);
                let lo = choose|lo: u32| !part.contains(lo);
                assert(!part.contains(lo)) by {
                    assert(!(part =~= Set::<u32>::full()));
                }
                let v = lemma_join_halves(k, lo);
                if s.contains(v) {
                    let j = choose|j: int|
                        0 <= j < parts@.len() && parts@[j].0 == v / 0x1_0000_0000 && bitmap32_values(
                            *parts@[j].1,
                        ).contains((v % 0x1_0000_0000) as u32);
                    if j < i {
                        assert(parts@[j].0 < parts@[i].0);
                    } else if i < j {
                        assert(parts@[i].0 < parts@[j].0);
                    }
                }
                assert(!s.contains(v));
            } else {
                let v = lemma_join_halves(k, 0);
                assert(!s.contains(v));
            }
        }
    }
    true
}

// ------------------------------------------------------------------
// The 64-bit bitmap.
// ------------------------------------------------------------------

impl RoaringType for RoaringTreemap {
    type Value = u64;

    open spec fn view_set(&self) -> Set<u64> {
        bitmap64_values(*self)
    }

    open spec fn value_int(v: u64) -> int {
        v as int
    }

    open spec fn value_max() -> int {
        u64::MAX as int
    }

    proof fn lemma_value_int(v: u64, w: u64) {
    }

    proof fn lemma_value_onto(i: int) -> (v: u64) {
        i as u64
    }

    proof fn lemma_full_len() {
        lemma_upto_len(u64::MAX);
        assert(Set::<u64>::full() =~= Set::new(|y: u64| y <= u64::MAX));
    }

    proof fn lemma_value_sets_finite(s: Set<u64>) {
        lemma_u64_set_finite(s);
    }

    fn value_to_i64(v: u64) -> (r: i64) {
        if v <= i64::MAX as u64 {
            v as i64
        } else {
            i64::MAX
        }
    }

    fn value_to_u64(v: u64) -> (r: u64) {
        v as u64
    }

    fn value_from_u64(x: u64) -> (r: Option<u64>) {
        Some(x)
    }

    fn value_lt(a: u64, b: u64) -> (r: bool) {
        a < b
    }

    fn new() -> (r: Self) {
        rt_new()
    }

    fn full() -> (r: Self) {
        rt_full()
    }

    fn duplicate(&self) -> (r: Self) {
        rt_clone(self)
    }

    fn from_values(vals: &[u64]) -> (r: Self) {
        let mut bm = rt_new();
        let mut i: usize = 0;
        while i < vals.len()
            invariant
                i <= vals@.len(),
                bitmap64_values(bm) == vals@.subrange(0, i as int).to_set(),
            decreases vals@.len() - i,
        {
            rt_insert(&mut bm, vals[i]);
            proof {
                lemma_prefix_to_set(vals@, i as int);
            }
            i += 1;
        }
        assert(vals@.subrange(0, vals@.len() as int) =~= vals@);
        bm
    }

    fn insert(&mut self, v: u64) -> (r: bool) {
        rt_insert(self, v)
    }

    fn remove(&mut self, v: u64) -> (r: bool) {
        rt_remove(self, v)
    }

    fn contains(&self, v: u64) -> (r: bool) {
        rt_contains(self, v)
    }

    fn clear(&mut self) {
        rt_clear(self)
    }

    fn insert_many(&mut self, vals: &[u64]) {
        let ghost start = bitmap64_values(*self);
        let mut i: usize = 0;
        while i < vals.len()
            invariant
                i <= vals@.len(),
                bitmap64_values(*self) == start.union(vals@.subrange(0, i as int).to_set()),
            decreases vals@.len() - i,
        {
            rt_insert(self, vals[i]);
            proof {
                lemma_prefix_to_set(vals@, i as int);
            }
            i += 1;
        }
        assert(vals@.subrange(0, vals@.len() as int) =~= vals@);
    }

    fn remove_many(&mut self, vals: &[u64]) {
        let ghost start = bitmap64_values(*self);
        let mut i: usize = 0;
        while i < vals.len()
            invariant
                i <= vals@.len(),
                bitmap64_values(*self) == start.difference(vals@.subrange(0, i as int).to_set()),
            decreases vals@.len() - i,
        {
            rt_remove(self, vals[i]);
            proof {
                lemma_prefix_to_set(vals@, i as int);
            }
            i += 1;
        }
        assert(vals@.subrange(0, vals@.len() as int) =~= vals@);
    }

    fn contains_many(&self, vals: &[u64]) -> (r: Vec<bool>) {
        let mut out: Vec<bool> = Vec::new();
        let mut i: usize = 0;
        while i < vals.len()
            invariant
                i <= vals@.len(),
                out@.len() == i,
                forall|j: int| 0 <= j < i ==> out@[j] == bitmap64_values(*self).contains(vals@[j]),
            decreases vals@.len() - i,
        {
            out.push(rt_contains(self, vals[i]));
            i += 1;
        }
        out
    }

    fn remove_many_counted(&mut self, vals: &[u64]) -> (r: usize) {
        let ghost start = bitmap64_values(*self);
        let mut count: usize = 0;
        let mut i: usize = 0;
        while i < vals.len()
            invariant
                i <= vals@.len(),
                bitmap64_values(*self) == start.difference(vals@.subrange(0, i as int).to_set()),
                count == start.intersect(vals@.subrange(0, i as int).to_set()).len(),
                count <= i,
            decreases vals@.len() - i,
        {
            let ghost seen = vals@.subrange(0, i as int).to_set();
            let ghost v = vals@[i as int];
            proof {
                lemma_u64_set_finite(start.intersect(seen));
                lemma_prefix_to_set(vals@, i as int);
            }
            if rt_remove(self, vals[i]) {
                assert(start.intersect(seen.insert(v)) =~= start.intersect(seen).insert(v));
                count += 1;
            } else {
                assert(start.intersect(seen.insert(v)) =~= start.intersect(seen));
            }
            i += 1;
        }
        assert(vals@.subrange(0, vals@.len() as int) =~= vals@);
        count
    }

    fn len(&self) -> (r: u64) {
        rt_len(self)
    }

    fn is_empty(&self) -> (r: bool) {
        rt_is_empty(self)
    }

    fn min_val(&self) -> (r: Option<u64>) {
        rt_min(self)
    }

    fn max_val(&self) -> (r: Option<u64>) {
        rt_max(self)
    }

    fn bitor_assign(&mut self, other: &Self) {
        rt_or_assign(self, other)
    }

    fn bitand_assign(&mut self, other: &Self) {
        rt_and_assign(self, other)
    }

    fn bitxor_assign(&mut self, other: &Self) {
        rt_xor_assign(self, other)
    }

    fn sub_assign(&mut self, other: &Self) {
        rt_sub_assign(self, other)
    }

    fn bitor_owned(self, other: Self) -> (r: Self) {
        let mut out = self;
        rt_or_assign(&mut out, &other);
        out
    }

    fn bitand_owned(self, other: Self) -> (r: Self) {
        let mut out = self;
        rt_and_assign(&mut out, &other);
        out
    }

    fn bitxor_owned(self, other: Self) -> (r: Self) {
        let mut out = self;
        rt_xor_assign(&mut out, &other);
        out
    }

    fn sub_owned(self, other: Self) -> (r: Self) {
        let mut out = self;
        rt_sub_assign(&mut out, &other);
        out
    }

    fn is_disjoint(&self, other: &Self) -> (r: bool) {
        rt_is_disjoint(self, other)
    }

    /// Compares copies without empty partitions, so that the partition keys
    /// follow from the values and only the values are compared.
    fn is_subset(&self, other: &Self) -> (r: bool) {
        let mut a = rt_clone(self);
        let mut b = rt_clone(other);
        rt_optimize(&mut a);
        rt_optimize(&mut b);
        let r = rt_is_subset(&a, &b);
        proof {
            let sa = bitmap64_values(a);
            let sb = bitmap64_values(b);
            if sa.subset_of(sb) {
                assert forall|k: u32| high_halves(sa).contains(k) implies high_halves(sb).contains(k) by {
                    let v = choose|v: u64| sa.contains(v) && v / 0x1_0000_0000 == k;
                    assert(sb.contains(v));
                }
            }
        }
        r
    }

    /// Compares copies without empty partitions (see `is_subset`).
    fn equals(&self, other: &Self) -> (r: bool) {
        let mut a = rt_clone(self);
        let mut b = rt_clone(other);
        rt_optimize(&mut a);
        rt_optimize(&mut b);
        rt_eq(&a, &b)
    }

    fn intersection_len(&self, other: &Self) -> (r: u64) {
        rt_intersection_len(self, other)
    }

    fn union_len(&self, other: &Self) -> (r: u64) {
        rt_union_len(self, other)
    }

    fn select(&self, n: u64) -> (r: Option<u64>) {
        let r = rt_select(self, n);
        proof {
            if let Some(v) = r {
                assert(members_below(val64(), bitmap64_values(*self), v) =~= bitmap64_values(
                    *self,
                ).filter(|y: u64| y < v));
            }
        }
        r
    }

    fn nth_absent(&self, n: u64) -> (r: Option<u64>) {
        let ghost s = bitmap64_values(*self);
        if n == 0 {
            return None;
        }
        // Absent values up to u64::MAX: those below it, and u64::MAX itself
        // unless it is held (their total may be 2^64, so it is not summed).
        let below = absent_count_upto(self, (u64::MAX - 1) as u64);
        let top_absent = !rt_contains(self, u64::MAX);
        proof {
            lemma_absent_upto_step(s, u64::MAX);
            assert(s.complement() =~= absent_upto(s, u64::MAX));
        }
        if (top_absent && below < n - 1) || (!top_absent && below < n) {
            return None;
        }
        // Binary search for the smallest x with at least n absent values <= x.
        let mut lo: u64 = 0;
        let mut hi: u64 = u64::MAX;
        while lo < hi
            invariant
                lo <= hi,
                n >= 1,
                s == bitmap64_values(*self),
                absent_upto(s, hi).len() >= n,
                lo > 0 ==> absent_upto(s, (lo - 1) as u64).len() < n,
            decreases hi - lo,
        {
            let mid: u64 = lo + (hi - lo) / 2;
            if absent_count_upto(self, mid) >= n {
                hi = mid;
            } else {
                lo = mid + 1;
            }
        }
        let x = lo;
        proof {
            if x == 0 {
                assert(absent_below(val64(), s, x) =~= Set::<u64>::empty());
                if s.contains(0) {
                    assert(absent_upto(s, 0) =~= Set::<u64>::empty());
                }
                lemma_u64_set_finite(absent_upto(s, 0));
                assert(absent_upto(s, 0) =~= Set::<u64>::empty().insert(0u64));
            } else {
                lemma_absent_upto_step(s, x);
                assert(absent_below(val64(), s, x) =~= absent_upto(s, (x - 1) as u64));
            }
        }
        Some(x)
    }

    fn flip_inclusive(&self, last: u64) -> (r: Self) {
        let mut range_bm = rt_new();
        proof {
            lemma_span_len(0, last, bitmap64_values(range_bm));
        }
        rt_insert_range(&mut range_bm, 0, last);
        rt_xor_assign(&mut range_bm, self);
        proof {
            assert(Set::<u64>::empty().union(Set::new(|v: u64| 0 <= v <= last)) =~= value_span(val64(), 0, last as int));
        }
        range_bm
    }

    fn insert_range_inclusive(&mut self, start: u64, end: u64) -> (r: u64) {
        proof {
            lemma_span_len(start, end, bitmap64_values(*self));
        }
        let r = rt_insert_range(self, start, end);
        proof {
            assert(Set::new(|v: u64| start <= v <= end) =~= value_span(val64(), 
                start as int,
                end as int,
            ));
        }
        r
    }

    fn insert_range_exclusive(&mut self, start: u64, end: u64) -> (r: u64) {
        if end <= start {
            proof {
                assert(value_span(val64(), start as int, end - 1) =~= Set::<u64>::empty());
                assert(old(self).view_set().union(Set::<u64>::empty()) =~= old(self).view_set());
                assert(Set::<u64>::empty().difference(old(self).view_set()) =~= Set::<u64>::empty());
            }
            return 0;
        }
        proof {
            lemma_span_len(start, (end - 1) as u64, bitmap64_values(*self));
        }
        let r = rt_insert_range(self, start, end - 1);
        proof {
            assert(Set::new(|v: u64| start <= v <= end - 1) =~= value_span(val64(), 
                start as int,
                end - 1,
            ));
        }
        r
    }

    fn iter_values(&self) -> (r: Vec<u64>) {
        rt_iter(self)
    }

    open spec fn range_accepted(start: u64, end: u64) -> bool {
        true
    }

    fn iter_range(&self, start: u64, end: u64) -> (r: Vec<u64>) {
        // The treemap has no range iterator: keep the values of the sorted
        // walk that fall in [start, end].
        let all = rt_iter(self);
        let ghost span = value_span(val64(), start as int, end as int);
        let mut out: Vec<u64> = Vec::new();
        let mut i: usize = 0;
        while i < all.len()
            invariant
                i <= all@.len(),
                forall|p: int, q: int| 0 <= p < q < all@.len() ==> all@[p] < all@[q],
                forall|p: int, q: int| 0 <= p < q < out@.len() ==> out@[p] < out@[q],
                forall|k: int, j: int| 0 <= k < out@.len() && i <= j < all@.len() ==> out@[k] < all@[j],
                span == value_span(val64(), start as int, end as int),
                out@.to_set() == all@.subrange(0, i as int).to_set().intersect(span),
            decreases all@.len() - i,
        {
            let v = all[i];
            proof {
                lemma_prefix_to_set(all@, i as int);
            }
            if start <= v && v <= end {
                assert(span.contains(v));
                let ghost before = out@;
                out.push(v);
                proof {
                    assert(out@ == before.push(v));
                    assert forall|x: u64| #[trigger] out@.to_set().contains(x) == before.to_set().insert(v).contains(x) by {
                        if before.contains(x) {
                            let k = choose|k: int| 0 <= k < before.len() && before[k] == x;
                            assert(out@[k] == x);
                        }
                        if x == v {
                            assert(out@[before.len() as int] == x);
                        }
                        if out@.contains(x) {
                            let k = choose|k: int| 0 <= k < out@.len() && out@[k] == x;
                            if k < before.len() {
                                assert(before[k] == x);
                            }
                        }
                    }
                    assert(out@.to_set() =~= before.to_set().insert(v));
                    assert(all@.subrange(0, i + 1).to_set().intersect(span) =~= all@.subrange(0, i as int).to_set().intersect(span).insert(v));
                }
            } else {
                proof {
                        assert(!span.contains(v));
                    assert(all@.subrange(0, i + 1).to_set().intersect(span) =~= all@.subrange(0, i as int).to_set().intersect(span));
                }
            }
            i += 1;
        }
        proof {
            lemma_full_prefix(all@);
        }
        out
    }

    fn from_bit_array(bits: &[u8]) -> (r: Self) {
        let mut bm = rt_new();
        let mut i: usize = 0;
        while i < bits.len()
            invariant
                i <= bits@.len(),
                bitmap64_values(bm) == bit_string_set(val64(), u64::MAX + 1, bits@.subrange(0, i as int)),
            decreases bits@.len() - i,
        {
            proof {
                lemma_bit_string_step(bits@, i as int);
            }
            if bits[i] == 49u8 {
                let v: u64 = i as u64;
                rt_insert(&mut bm, v);
            }
            i += 1;
        }
        assert(bits@.subrange(0, bits@.len() as int) =~= bits@);
        bm
    }

    fn to_bit_array(&self) -> (r: Vec<u8>) {
        let mut bits: Vec<u8> = Vec::new();
        match rt_max(self) {
            None => bits,
            Some(max) => {
                assert(self.view_set().contains(max));
                let n: usize = max as usize + 1;
                let mut i: usize = 0;
                while i < n
                    invariant
                        i <= n,
                        n == max + 1,
                        bits@.len() == i,
                        forall|j: int|
                            0 <= j < i ==> bits@[j] == (if bitmap64_values(*self).contains(
                                j as u64,
                            ) {
                                one_byte()
                            } else {
                                zero_byte()
                            }),
                    decreases n - i,
                {
                    if rt_contains(self, i as u64) {
                        bits.push(49u8);
                    } else {
                        bits.push(48u8);
                    }
                    i += 1;
                }
                proof {
                    assert(is_greatest(val64(), bitmap64_values(*self), max));
                    assert(bitmap64_values(*self) != Set::<u64>::empty());
                }
                bits
            },
        }
    }

    open spec fn portable_decode(bytes: Seq<u8>) -> Option<Set<u64>> {
        portable_decode64(bytes)
    }

    open spec fn serialized_len(&self) -> nat {
        bitmap64_serialized_len(*self)
    }

    open spec fn layout_in(&self, bytes: Seq<u8>) -> bool {
        treemap_keys(*self) == portable_keys64(bytes)
    }

    fn serialize_into(&self, out: &mut Vec<u8>) {
        rt_serialize_into(self, out)
    }

    fn serialized_size(&self) -> (r: usize) {
        rt_serialized_size(self)
    }

    fn deserialize_from(bytes: &[u8]) -> (r: Result<Self, CommandError>) {
        match rt_deserialize_from(bytes) {
            Some(b) => Ok(b),
            None => Err(CommandError::BadBinary),
        }
    }

    open spec fn stats_fit(&self, st: BitmapStats) -> bool {
        stats_fit64(bitmap64_values(*self), treemap_partition_counts(*self), st)
    }

    open spec fn stats_computable(&self) -> bool {
        no_full_partition(bitmap64_values(*self))
    }

    fn stats_available(&self) -> (r: bool) {
        treemap_stats_available(self)
    }

    open spec fn stat_text_spec(&self, st: BitmapStats) -> Seq<u8> {
        stat_text64_spec(st, bitmap64_serialized_len(*self) as usize)
    }

    open spec fn stat_json_spec(&self, st: BitmapStats) -> Seq<u8> {
        stat_json64_spec(st, bitmap64_serialized_len(*self) as usize)
    }

    fn stat_text(&self) -> (r: Vec<u8>) {
        let st = treemap_stats(self);
        let r = stat_text64(&st, rt_serialized_size(self));
        assert(self.stats_fit(st) && r@ == self.stat_text_spec(st));
        r
    }

    fn stat_json(&self) -> (r: Vec<u8>) {
        let st = treemap_stats(self);
        let r = stat_json64(&st, rt_serialized_size(self));
        assert(self.stats_fit(st) && r@ == self.stat_json_spec(st));
        r
    }

    open spec fn optimize_changes(&self) -> bool {
        bitmap64_optimize_changes(*self)
    }

    fn optimize(&mut self) -> (r: bool)
        ensures
            treemap_keys(*final(self)) == high_halves(old(self).view_set()),
            treemap_keys(*old(self)) != high_halves(old(self).view_set()) ==> r,
    {
        rt_optimize(self)
    }
}

} // verus!
