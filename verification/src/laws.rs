//! Laws of the bitmap commands: what holds across calls, and what the
//! 32-bit and the 64-bit command families have in common.
use vstd::prelude::*;
use vstd::set_lib::*;
use roaring::{RoaringBitmap, RoaringTreemap};
use crate::bitmap_type::{
    RoaringType, symmetric_difference, value_span, bit_string_set, is_bit_array, is_greatest,
    is_least, absent_below, is_nth_absent, one_byte, zero_byte,
};
use crate::commands::{value_of, imported};
use crate::bitmap64::{bitmap64_values, portable_decode64, portable_keys64, treemap_keys};
use crate::commands_bitop::{
    and_of, or_of, xor_of, andnot_of, one_of, andor_of, ornot_of, occurrences, BitOp, bitop_name,
    named_bitop, bitop_result, lemma_bitop_names_distinct,
};

verus! {

// ------------------------------------------------------------------
// Flipping.
// ------------------------------------------------------------------

/// Flipping a bitmap twice within the same range `[0, last]` gives the
/// bitmap back: the symmetric difference with a fixed span undoes itself.
pub proof fn flip_twice_restores<T: RoaringType>(s: Set<T::Value>, last: T::Value)
    ensures
        symmetric_difference(
            value_span(value_of::<T>(), 0, T::value_int(last)),
            symmetric_difference(value_span(value_of::<T>(), 0, T::value_int(last)), s),
        ) == s,
{
    let span = value_span(value_of::<T>(), 0, T::value_int(last));
    assert(symmetric_difference(span, symmetric_difference(span, s)) =~= s);
}

// ------------------------------------------------------------------
// Bit strings.
// ------------------------------------------------------------------

/// A bit string in the form GETBITARRAY gives: only `'0'` and `'1'`, and no
/// trailing `'0'`.
pub open spec fn canonical_bits(bits: Seq<u8>) -> bool {
    &&& forall|i: int| 0 <= i < bits.len() ==> bits[i] == one_byte() || bits[i] == zero_byte()
    &&& bits.len() > 0 ==> bits.last() == one_byte()
}

/// In a bit string no longer than the value range, a value is set exactly
/// when the character at its index is `'1'`.
proof fn lemma_short_bit_string<T: RoaringType>(bits: Seq<u8>, v: T::Value)
    requires
        bits.len() <= T::value_max() + 1,
    ensures
        bit_string_set(value_of::<T>(), T::value_max() + 1, bits).contains(v) == (T::value_int(v)
            < bits.len() && bits[T::value_int(v)] == one_byte()),
{
    let w = T::value_max() + 1;
    T::lemma_value_int(v, v);
    let i = T::value_int(v);
    if i < bits.len() && bits[i] == one_byte() {
        vstd::arithmetic::div_mod::lemma_small_mod(i as nat, w as nat);
        assert(0 <= i < bits.len() && bits[i] == one_byte() && i % w == value_of::<T>()(v));
    }
    if bit_string_set(value_of::<T>(), w, bits).contains(v) {
        let k = choose|k: int|
            0 <= k < bits.len() && bits[k] == one_byte() && k % w == value_of::<T>()(v);
        vstd::arithmetic::div_mod::lemma_small_mod(k as nat, w as nat);
    }
}

/// The bit string of a set is no longer than the value range, and reaches
/// past each of its values.
proof fn lemma_bit_array_bounds<T: RoaringType>(s: Set<T::Value>, bits: Seq<u8>)
    requires
        is_bit_array(value_of::<T>(), bits, s),
    ensures
        bits.len() <= T::value_max() + 1,
        forall|v: T::Value| s.contains(v) ==> T::value_int(v) < bits.len(),
{
    let val = value_of::<T>();
    assert forall|v: T::Value| s.contains(v) implies T::value_int(v) < bits.len() by {
        assert(!Set::<T::Value>::empty().contains(v));
        assert(s != Set::<T::Value>::empty());
        let g = choose|g: T::Value| is_greatest(val, s, g) && bits.len() == val(g) + 1;
        assert(T::value_int(v) <= T::value_int(g));
    }
    let any: T::Value = vstd::pervasive::arbitrary();
    T::lemma_value_int(any, any);
    if bits.len() > 0 {
        assert(s != Set::<T::Value>::empty());
        let g = choose|g: T::Value| is_greatest(val, s, g) && bits.len() == val(g) + 1;
        T::lemma_value_int(g, g);
    }
}

/// A bitmap read back from its own bit string (GETBITARRAY, then
/// SETBITARRAY) holds the same values.
pub proof fn bit_array_round_trip<T: RoaringType>(s: Set<T::Value>, bits: Seq<u8>)
    requires
        is_bit_array(value_of::<T>(), bits, s),
    ensures
        bit_string_set(value_of::<T>(), T::value_max() + 1, bits) == s,
{
    let val = value_of::<T>();
    let w = T::value_max() + 1;
    lemma_bit_array_bounds::<T>(s, bits);
    assert forall|v: T::Value| #[trigger] bit_string_set(val, w, bits).contains(v) == s.contains(v) by {
        lemma_short_bit_string::<T>(bits, v);
    }
    assert(bit_string_set(val, w, bits) =~= s);
}

/// The bit string of a bitmap made from a canonical bit string (SETBITARRAY,
/// then GETBITARRAY) is that string again.
pub proof fn canonical_bits_round_trip<T: RoaringType>(bits: Seq<u8>, out: Seq<u8>)
    requires
        canonical_bits(bits),
        bits.len() <= T::value_max() + 1,
        is_bit_array(
            value_of::<T>(),
            out,
            bit_string_set(value_of::<T>(), T::value_max() + 1, bits),
        ),
    ensures
        out == bits,
{
    let val = value_of::<T>();
    let w = T::value_max() + 1;
    let s = bit_string_set(val, w, bits);
    if bits.len() == 0 {
        assert forall|v: T::Value| !s.contains(v) by {
            lemma_short_bit_string::<T>(bits, v);
        }
        assert(s =~= Set::<T::Value>::empty());
        assert(out =~= bits);
    } else {
        let top = bits.len() - 1;
        let gt = T::lemma_value_onto(top);
        lemma_short_bit_string::<T>(bits, gt);
        assert(s.contains(gt));
        assert(!Set::<T::Value>::empty().contains(gt));
        let g = choose|g: T::Value| is_greatest(val, s, g) && out.len() == val(g) + 1;
        lemma_short_bit_string::<T>(bits, g);
        assert(out.len() == bits.len());
        assert forall|j: int| 0 <= j < bits.len() implies out[j] == bits[j] by {
            let v = T::lemma_value_onto(j);
            lemma_short_bit_string::<T>(bits, v);
            assert(s.contains(v) == (bits[j] == one_byte()));
        }
        assert(out =~= bits);
    }
}

// ------------------------------------------------------------------
// The nth absent value.
// ------------------------------------------------------------------

/// A larger absent value has more absent values below it.
proof fn lemma_absent_below_grows<T: RoaringType>(s: Set<T::Value>, a: T::Value, b: T::Value)
    requires
        !s.contains(a),
        T::value_int(a) < T::value_int(b),
    ensures
        absent_below(value_of::<T>(), s, a).len() < absent_below(value_of::<T>(), s, b).len(),
{
    let lo = absent_below(value_of::<T>(), s, a);
    let hi = absent_below(value_of::<T>(), s, b);
    T::lemma_value_sets_finite(hi);
    T::lemma_value_sets_finite(lo);
    assert(lo.insert(a).subset_of(hi));
    lemma_len_subset(lo.insert(a), hi);
}

/// The `n`th absent value of a set is one value: two answers are equal, and
/// when there is an answer, "none" is not one.
pub proof fn nth_absent_is_unique<T: RoaringType>(
    s: Set<T::Value>,
    n: int,
    a: T::Value,
    r: Option<T::Value>,
)
    requires
        is_nth_absent(value_of::<T>(), s, n, Some(a)),
        is_nth_absent(value_of::<T>(), s, n, r),
    ensures
        r == Some(a),
{
    let below = absent_below(value_of::<T>(), s, a);
    T::lemma_value_sets_finite(below);
    T::lemma_value_sets_finite(s.complement());
    assert(below.insert(a).subset_of(s.complement()));
    lemma_len_subset(below.insert(a), s.complement());
    if let Some(b) = r {
        T::lemma_value_int(a, b);
        T::lemma_value_int(b, a);
        if T::value_int(a) < T::value_int(b) {
            lemma_absent_below_grows::<T>(s, a, b);
        } else if T::value_int(b) < T::value_int(a) {
            lemma_absent_below_grows::<T>(s, b, a);
        }
    }
}

// ------------------------------------------------------------------
// The 32-bit and the 64-bit families agree on 32-bit values.
// ------------------------------------------------------------------

/// The 32-bit values of `s`, as 64-bit values.
pub open spec fn widen(s: Set<u32>) -> Set<u64> {
    Set::new(|y: u64| y <= u32::MAX && s.contains(y as u32))
}

/// Setting, clearing and reading a bit act alike on a 32-bit bitmap and on
/// the 64-bit bitmap of the same values.
pub proof fn widened_bits(s: Set<u32>, v: u32)
    ensures
        widen(s.insert(v)) == widen(s).insert(v as u64),
        widen(s.remove(v)) == widen(s).remove(v as u64),
        widen(s).contains(v as u64) == s.contains(v),
{
    assert(widen(s.insert(v)) =~= widen(s).insert(v as u64));
    assert(widen(s.remove(v)) =~= widen(s).remove(v as u64));
}

/// A 32-bit bitmap and the 64-bit bitmap of the same values have the same
/// cardinality.
pub proof fn widened_len(s: Set<u32>)
    ensures
        widen(s).finite(),
        widen(s).len() == s.len(),
{
    RoaringBitmap::lemma_value_sets_finite(s);
    let f = |x: u32| x as u64;
    assert(widen(s) =~= s.map(f)) by {
        assert forall|y: u64| widen(s).contains(y) implies s.map(f).contains(y) by {
            assert(s.contains(y as u32) && y == f(y as u32));
        }
    }
    assert(vstd::relations::injective_on(f, s));
    lemma_map_size(s, widen(s), f);
}

/// The smallest and the largest value agree between a 32-bit bitmap and the
/// 64-bit bitmap of the same values.
pub proof fn widened_extremes(s: Set<u32>, a: u32)
    ensures
        is_least(value_of::<RoaringBitmap>(), s, a) ==> forall|b: u64|
            is_least(value_of::<RoaringTreemap>(), widen(s), b) <==> b == a as u64,
        is_greatest(value_of::<RoaringBitmap>(), s, a) ==> forall|b: u64|
            is_greatest(value_of::<RoaringTreemap>(), widen(s), b) <==> b == a as u64,
{
    if is_least(value_of::<RoaringBitmap>(), s, a) {
        assert forall|b: u64| is_least(value_of::<RoaringTreemap>(), widen(s), b) <==> b == a as u64 by {
            if is_least(value_of::<RoaringTreemap>(), widen(s), b) {
                assert(widen(s).contains(a as u64));
                assert(s.contains(b as u32));
            }
            if b == a as u64 {
                assert forall|y: u64| widen(s).contains(y) implies b <= y by {
                    assert(s.contains(y as u32));
                }
            }
        }
    }
    if is_greatest(value_of::<RoaringBitmap>(), s, a) {
        assert forall|b: u64| is_greatest(value_of::<RoaringTreemap>(), widen(s), b) <==> b == a as u64 by {
            if is_greatest(value_of::<RoaringTreemap>(), widen(s), b) {
                assert(widen(s).contains(a as u64));
                assert(s.contains(b as u32));
            }
            if b == a as u64 {
                assert forall|y: u64| widen(s).contains(y) implies y <= b by {
                    assert(s.contains(y as u32));
                }
            }
        }
    }
}

/// Flipping within a 32-bit range `[0, last]` gives the same values on a
/// 32-bit bitmap and on the 64-bit bitmap of the same values.
pub proof fn widened_flip(s: Set<u32>, last: u32)
    ensures
        widen(
            symmetric_difference(value_span(value_of::<RoaringBitmap>(), 0, last as int), s),
        ) == symmetric_difference(
            value_span(value_of::<RoaringTreemap>(), 0, last as int),
            widen(s),
        ),
{
    assert(widen(symmetric_difference(value_span(value_of::<RoaringBitmap>(), 0, last as int), s))
        =~= symmetric_difference(
        value_span(value_of::<RoaringTreemap>(), 0, last as int),
        widen(s),
    ));
}

/// The absent 64-bit values below a 32-bit value are the widened absent
/// 32-bit values below it, and there are as many.
proof fn lemma_widened_absent_below(s: Set<u32>, x: u32)
    ensures
        absent_below(value_of::<RoaringTreemap>(), widen(s), x as u64) == widen(
            absent_below(value_of::<RoaringBitmap>(), s, x),
        ),
        absent_below(value_of::<RoaringTreemap>(), widen(s), x as u64).len() == absent_below(
            value_of::<RoaringBitmap>(),
            s,
            x,
        ).len(),
{
    let lo = absent_below(value_of::<RoaringBitmap>(), s, x);
    assert(absent_below(value_of::<RoaringTreemap>(), widen(s), x as u64) =~= widen(lo));
    widened_len(lo);
}

/// The `n`th absent value agrees between a 32-bit bitmap and the 64-bit
/// bitmap of the same values, whenever it is a 32-bit value: a 32-bit
/// answer is the 64-bit answer, and a 64-bit answer within the 32-bit range
/// is the 32-bit answer.
pub proof fn widened_nth_absent(s: Set<u32>, n: int, r32: Option<u32>, r64: Option<u64>)
    requires
        is_nth_absent(value_of::<RoaringBitmap>(), s, n, r32),
        is_nth_absent(value_of::<RoaringTreemap>(), widen(s), n, r64),
    ensures
        match r32 {
            Some(v) => r64 == Some(v as u64),
            None => true,
        },
        match r64 {
            Some(w) => w <= u32::MAX ==> r32 == Some(w as u32),
            None => true,
        },
{
    if let Some(v) = r32 {
        lemma_widened_absent_below(s, v);
        assert(is_nth_absent(value_of::<RoaringTreemap>(), widen(s), n, Some(v as u64)));
        nth_absent_is_unique::<RoaringTreemap>(widen(s), n, v as u64, r64);
    }
    if let Some(w) = r64 {
        if w <= u32::MAX {
            let x = w as u32;
            lemma_widened_absent_below(s, x);
            assert(x as u64 == w);
            assert(is_nth_absent(value_of::<RoaringBitmap>(), s, n, Some(x)));
            nth_absent_is_unique::<RoaringBitmap>(s, n, x, r32);
        }
    }
}

// ------------------------------------------------------------------
// Export and import.
// ------------------------------------------------------------------

/// What EXPORT gives, IMPORT reads back: importing the exported bytes of a
/// bitmap holding `exported` into a key holding `target` leaves the union
/// of the two, and into a missing (empty) key leaves `exported` itself.
pub proof fn export_import_round_trip<T: RoaringType>(
    exported: Set<T::Value>,
    bytes: Seq<u8>,
    target: Set<T::Value>,
)
    requires
        T::portable_decode(bytes) == Some(exported),
    ensures
        imported::<T>(target, bytes) == Some(target.union(exported)),
        imported::<T>(Set::<T::Value>::empty(), bytes) == Some(exported),
{
    assert(Set::<T::Value>::empty().union(exported) =~= exported);
}

/// Importing the same bytes a second time changes nothing: the merge is a
/// union.
pub proof fn import_is_idempotent<T: RoaringType>(target: Set<T::Value>, bytes: Seq<u8>)
    ensures
        imported::<T>(target, bytes) matches Some(once) ==> imported::<T>(once, bytes) == Some(once),
{
    if let Some(s) = T::portable_decode(bytes) {
        assert(target.union(s).union(s) =~= target.union(s));
    }
}

// ------------------------------------------------------------------
// BITOP on few sources.
// ------------------------------------------------------------------

/// BITOP over a single source: AND, OR, XOR, DIFF and ONE give the source
/// back; ANDOR and DIFF1, which need a second source, give nothing.
pub proof fn bitop_single_source<V>(s: Set<V>)
    ensures
        and_of(seq![s]) == s,
        or_of(seq![s]) == s,
        xor_of(seq![s]) == s,
        andnot_of(seq![s]) == s,
        one_of(seq![s]) == s,
        andor_of(seq![s]) == Set::<V>::empty(),
        ornot_of(seq![s]) == Set::<V>::empty(),
{
    let one = seq![s];
    assert(one.drop_last() =~= Seq::<Set<V>>::empty());
    assert forall|x: V| #[trigger] occurrences(one, x) == if s.contains(x) { 1nat } else { 0nat } by {
        assert(occurrences(one.drop_last(), x) == 0);
    }
    assert(one[0] == s);
    assert(and_of(one) =~= s) by {
        assert forall|x: V| #[trigger] and_of(one).contains(x) == s.contains(x) by {
            if and_of(one).contains(x) {
                assert(one[0].contains(x));
            }
            if s.contains(x) {
                assert forall|k: int| 0 <= k < one.len() implies #[trigger] one[k].contains(x) by {
                    assert(k == 0);
                }
            }
        }
    }
    assert(or_of(one) =~= s) by {
        assert forall|x: V| s.contains(x) implies or_of(one).contains(x) by {
            assert(one[0].contains(x));
        }
    }
    assert(xor_of(one) =~= s);
    assert(andnot_of(one) =~= s);
    assert(one_of(one) =~= s);
    assert(andor_of(one) =~= Set::<V>::empty());
    assert(ornot_of(one) =~= Set::<V>::empty());
}

/// BITOP over no source gives an empty bitmap, whatever the operation.
pub proof fn bitop_no_source<V>()
    ensures
        and_of(Seq::<Set<V>>::empty()) == Set::<V>::empty(),
        or_of(Seq::<Set<V>>::empty()) == Set::<V>::empty(),
        xor_of(Seq::<Set<V>>::empty()) == Set::<V>::empty(),
        andnot_of(Seq::<Set<V>>::empty()) == Set::<V>::empty(),
        one_of(Seq::<Set<V>>::empty()) == Set::<V>::empty(),
        andor_of(Seq::<Set<V>>::empty()) == Set::<V>::empty(),
        ornot_of(Seq::<Set<V>>::empty()) == Set::<V>::empty(),
{
    let none = Seq::<Set<V>>::empty();
    assert(and_of(none) =~= Set::<V>::empty());
    assert(or_of(none) =~= Set::<V>::empty());
    assert(xor_of(none) =~= Set::<V>::empty());
    assert(andnot_of(none) =~= Set::<V>::empty());
    assert(one_of(none) =~= Set::<V>::empty());
    assert(andor_of(none) =~= Set::<V>::empty());
    assert(ornot_of(none) =~= Set::<V>::empty());
}

/// A 64-bit bitmap read back from its own serialized form holds the same
/// values in partitions under the same keys, so the two compare equal as
/// treemaps too.
pub proof fn treemap_round_trip_keeps_partitions(b: RoaringTreemap, bytes: Seq<u8>, back: RoaringTreemap)
    requires
        portable_decode64(bytes) == Some(bitmap64_values(b)),
        portable_keys64(bytes) == treemap_keys(b),
        portable_decode64(bytes) == Some(bitmap64_values(back)),
        treemap_keys(back) == portable_keys64(bytes),
    ensures
        bitmap64_values(back) == bitmap64_values(b),
        treemap_keys(back) == treemap_keys(b),
{
}

// ------------------------------------------------------------------
// BITOP operation names.
// ------------------------------------------------------------------

/// The positions of the sources that hold `x`.
pub open spec fn holders<V>(sets: Seq<Set<V>>, x: V) -> Set<int> {
    Set::new(|k: int| 0 <= k < sets.len() && sets[k].contains(x))
}

/// The number of sources that hold `x` is the size of its set of holders.
proof fn lemma_holders_count<V>(sets: Seq<Set<V>>, x: V)
    ensures
        holders(sets, x).finite(),
        holders(sets, x).len() == occurrences(sets, x),
    decreases sets.len(),
{
    if sets.len() == 0 {
        assert(holders(sets, x) =~= Set::<int>::empty());
    } else {
        let n = sets.len() - 1;
        let init = sets.drop_last();
        lemma_holders_count(init, x);
        if sets.last().contains(x) {
            assert(holders(sets, x) =~= holders(init, x).insert(n));
        } else {
            assert(holders(sets, x) =~= holders(init, x));
        }
    }
}

/// Every operation's own name parses back to it.
proof fn lemma_name_parses(op: BitOp)
    ensures
        named_bitop(bitop_name(op)) == Some(op),
{
    let other = choose|o: BitOp| bitop_name(o) == bitop_name(op);
    lemma_bitop_names_distinct(other, op);
}

/// Each `R.BITOP` operation name selects the set algebra it is documented
/// to perform: AND keeps the values of every source, OR those of some
/// source, XOR those held by an odd number of sources, ANDOR the values of
/// the first source that some other source holds, DIFF the values of the
/// first source that no other source holds, DIFF1 the values of other
/// sources that the first lacks, ONE those held by exactly one source; NOT
/// names the complement.
pub proof fn bitop_names_select_operations<V>(sets: Seq<Set<V>>, x: V)
    ensures
        named_bitop(seq![65u8, 78u8, 68u8]) matches Some(op) && op != BitOp::Not && (bitop_result(
            op,
            sets,
        ).contains(x) <==> (sets.len() > 0 && forall|k: int|
            0 <= k < sets.len() ==> #[trigger] sets[k].contains(x))),
        named_bitop(seq![79u8, 82u8]) matches Some(op) && op != BitOp::Not && (bitop_result(
            op,
            sets,
        ).contains(x) <==> exists|k: int| 0 <= k < sets.len() && #[trigger] sets[k].contains(x)),
        named_bitop(seq![88u8, 79u8, 82u8]) matches Some(op) && op != BitOp::Not && (bitop_result(
            op,
            sets,
        ).contains(x) <==> holders(sets, x).len() % 2 == 1),
        named_bitop(seq![65u8, 78u8, 68u8, 79u8, 82u8]) matches Some(op) && op != BitOp::Not && (
        bitop_result(op, sets).contains(x) <==> (sets.len() >= 2 && sets[0].contains(x) && exists|
            k: int,
        | 1 <= k < sets.len() && #[trigger] sets[k].contains(x))),
        named_bitop(seq![68u8, 73u8, 70u8, 70u8]) matches Some(op) && op != BitOp::Not && (
        bitop_result(op, sets).contains(x) <==> (sets.len() >= 1 && sets[0].contains(x) && forall|
            k: int,
        | 1 <= k < sets.len() ==> !#[trigger] sets[k].contains(x))),
        named_bitop(seq![68u8, 73u8, 70u8, 70u8, 49u8]) matches Some(op) && op != BitOp::Not && (
        bitop_result(op, sets).contains(x) <==> (sets.len() >= 2 && !sets[0].contains(x) && exists|
            k: int,
        | 1 <= k < sets.len() && #[trigger] sets[k].contains(x))),
        named_bitop(seq![79u8, 78u8, 69u8]) matches Some(op) && op != BitOp::Not && (bitop_result(
            op,
            sets,
        ).contains(x) <==> holders(sets, x).len() == 1),
        named_bitop(seq![78u8, 79u8, 84u8]) == Some(BitOp::Not),
{
    lemma_holders_count(sets, x);
    lemma_name_parses(BitOp::And);
    lemma_name_parses(BitOp::Or);
    lemma_name_parses(BitOp::Xor);
    lemma_name_parses(BitOp::AndOr);
    lemma_name_parses(BitOp::Diff);
    lemma_name_parses(BitOp::Diff1);
    lemma_name_parses(BitOp::One);
    lemma_name_parses(BitOp::Not);
    assert(bitop_name(BitOp::And) =~= seq![65u8, 78u8, 68u8]);
    assert(bitop_name(BitOp::Or) =~= seq![79u8, 82u8]);
    assert(bitop_name(BitOp::Xor) =~= seq![88u8, 79u8, 82u8]);
    assert(bitop_name(BitOp::AndOr) =~= seq![65u8, 78u8, 68u8, 79u8, 82u8]);
    assert(bitop_name(BitOp::Diff) =~= seq![68u8, 73u8, 70u8, 70u8]);
    assert(bitop_name(BitOp::Diff1) =~= seq![68u8, 73u8, 70u8, 70u8, 49u8]);
    assert(bitop_name(BitOp::One) =~= seq![79u8, 78u8, 69u8]);
    assert(bitop_name(BitOp::Not) =~= seq![78u8, 79u8, 84u8]);
}

} // verus!
