//! The set algebra behind `R.BITOP` / `R64.BITOP`.
//!
//! Operations:
//!   AND     — intersection of all sources
//!   OR      — union of all sources
//!   XOR     — values held by an odd number of sources
//!   NOT     — complement of a single source over [0, max(last, src max)]
//!   ANDOR   — (src[1] | src[2] | ...) & src[0]
//!   DIFF    — src[0] - src[1] - src[2] - ...  (ANDNOT)
//!   DIFF1   — (src[1] | src[2] | ...) - src[0] (ORNOT)
//!   ONE     — values held by exactly one source
use vstd::prelude::*;
use crate::bitmap_type::RoaringType;
use crate::error::CommandError;
use vstd::string::StringSliceAdditionalSpecFns;

verus! {

// ------------------------------------------------------------------
// What each operation computes.
// ------------------------------------------------------------------

/// The value sets of a list of bitmaps.
pub open spec fn source_sets<T: RoaringType>(sources: Seq<T>) -> Seq<Set<T::Value>> {
    sources.map_values(|b: T| b.view_set())
}

/// How many of `sets` hold `x`.
pub open spec fn occurrences<V>(sets: Seq<Set<V>>, x: V) -> nat
    decreases sets.len(),
{
    if sets.len() == 0 {
        0
    } else {
        occurrences(sets.drop_last(), x) + if sets.last().contains(x) {
            1nat
        } else {
            0nat
        }
    }
}

/// AND: the values held by every source (nothing for no source).
pub open spec fn and_of<V>(sets: Seq<Set<V>>) -> Set<V> {
    Set::new(|x: V| sets.len() > 0 && forall|k: int| 0 <= k < sets.len() ==> #[trigger] sets[k].contains(x))
}

/// OR: the values held by some source.
pub open spec fn or_of<V>(sets: Seq<Set<V>>) -> Set<V> {
    Set::new(|x: V| exists|k: int| 0 <= k < sets.len() && #[trigger] sets[k].contains(x))
}

/// XOR: the values held by an odd number of sources.
pub open spec fn xor_of<V>(sets: Seq<Set<V>>) -> Set<V> {
    Set::new(|x: V| occurrences(sets, x) % 2 == 1)
}

/// ONE: the values held by exactly one source.
pub open spec fn one_of<V>(sets: Seq<Set<V>>) -> Set<V> {
    Set::new(|x: V| occurrences(sets, x) == 1)
}

/// ANDOR: the values of the first source that some other source holds.
pub open spec fn andor_of<V>(sets: Seq<Set<V>>) -> Set<V> {
    Set::new(
        |x: V|
            sets.len() >= 2 && sets[0].contains(x) && exists|k: int|
                1 <= k < sets.len() && #[trigger] sets[k].contains(x),
    )
}

/// DIFF: the values of the first source that no other source holds.
pub open spec fn andnot_of<V>(sets: Seq<Set<V>>) -> Set<V> {
    Set::new(
        |x: V|
            sets.len() >= 1 && sets[0].contains(x) && forall|k: int|
                1 <= k < sets.len() ==> !#[trigger] sets[k].contains(x),
    )
}

/// DIFF1: the values some other source holds that the first source lacks.
pub open spec fn ornot_of<V>(sets: Seq<Set<V>>) -> Set<V> {
    Set::new(
        |x: V|
            sets.len() >= 2 && !sets[0].contains(x) && exists|k: int|
                1 <= k < sets.len() && #[trigger] sets[k].contains(x),
    )
}

/// NOT: the values the source lacks that lie at or below one of its members,
/// or at or below `last` when it is given.
pub open spec fn not_of<V>(val: spec_fn(V) -> int, s: Set<V>, last: Option<V>) -> Set<V> {
    Set::new(
        |x: V|
            !s.contains(x) && ((exists|y: V| #[trigger] s.contains(y) && val(x) <= val(y)) || (
            last matches Some(l) && val(x) <= val(l))),
    )
}

// ------------------------------------------------------------------
// Lemmas.
// ------------------------------------------------------------------

/// Counting over one more set.
proof fn lemma_occurrences_step<V>(sets: Seq<Set<V>>, a: int, i: int, x: V)
    requires
        0 <= a <= i < sets.len(),
    ensures
        occurrences(sets.subrange(a, i + 1), x) == occurrences(sets.subrange(a, i), x) + if sets[i].contains(x) {
            1nat
        } else {
            0nat
        },
{
    let q = sets.subrange(a, i + 1);
    assert(q.drop_last() =~= sets.subrange(a, i));
}

/// Counting over no set.
proof fn lemma_occurrences_empty<V>(sets: Seq<Set<V>>, a: int, x: V)
    requires
        0 <= a <= sets.len(),
    ensures
        occurrences(sets.subrange(a, a), x) == 0,
{
    assert(sets.subrange(a, a).len() == 0);
}

// ------------------------------------------------------------------
// The kernels.
// ------------------------------------------------------------------

/// AND: intersection of all sources.
pub fn op_and<T: RoaringType>(sources: Vec<T>) -> (r: T)
    ensures
        r.view_set() == and_of(source_sets(sources@)),
{
    let ghost sets = source_sets(sources@);
    if sources.len() == 0 {
        assert(and_of(sets) =~= Set::<T::Value>::empty());
        return T::new();
    }
    let mut result = sources[0].duplicate();
    proof {
        let first = sets.subrange(0, 1);
        assert forall|x: T::Value| #[trigger] result.view_set().contains(x) == and_of(first).contains(x) by {
            if result.view_set().contains(x) {
                assert forall|k: int| 0 <= k < first.len() implies #[trigger] first[k].contains(x) by {
                    assert(first[k] == sets[0]);
                }
            }
            if and_of(first).contains(x) {
                assert(first[0].contains(x));
            }
        }
        assert(result.view_set() =~= and_of(first));
    }
    let mut i: usize = 1;
    while i < sources.len()
        invariant
            1 <= i <= sources@.len(),
            sets == source_sets(sources@),
            result.view_set() == and_of(sets.subrange(0, i as int)),
        decreases sources@.len() - i,
    {
        let ghost before = result.view_set();
        result.bitand_assign(&sources[i]);
        proof {
            let prev = sets.subrange(0, i as int);
            let next = sets.subrange(0, i + 1);
            assert forall|x: T::Value| #[trigger] result.view_set().contains(x) == and_of(next).contains(x) by {
                if and_of(next).contains(x) {
                    assert forall|k: int| 0 <= k < prev.len() implies #[trigger] prev[k].contains(x) by {
                        assert(prev[k] == next[k]);
                    }
                    assert(next[i as int].contains(x));
                }
                if result.view_set().contains(x) {
                    assert forall|k: int| 0 <= k < next.len() implies #[trigger] next[k].contains(x) by {
                        if k < i {
                            assert(prev[k] == next[k]);
                        }
                    }
                }
            }
            assert(result.view_set() =~= and_of(next));
        }
        i += 1;
    }
    assert(sets.subrange(0, sources@.len() as int) =~= sets);
    result
}

/// OR: union of all sources.
pub fn op_or<T: RoaringType>(sources: Vec<T>) -> (r: T)
    ensures
        r.view_set() == or_of(source_sets(sources@)),
{
    let ghost sets = source_sets(sources@);
    if sources.len() == 0 {
        assert(or_of(sets) =~= Set::<T::Value>::empty());
        return T::new();
    }
    let mut result = sources[0].duplicate();
    proof {
        let first = sets.subrange(0, 1);
        assert forall|x: T::Value| #[trigger] result.view_set().contains(x) == or_of(first).contains(x) by {
            if result.view_set().contains(x) {
                assert(first[0].contains(x));
            }
        }
        assert(result.view_set() =~= or_of(first));
    }
    let mut i: usize = 1;
    while i < sources.len()
        invariant
            1 <= i <= sources@.len(),
            sets == source_sets(sources@),
            result.view_set() == or_of(sets.subrange(0, i as int)),
        decreases sources@.len() - i,
    {
        result.bitor_assign(&sources[i]);
        proof {
            let prev = sets.subrange(0, i as int);
            let next = sets.subrange(0, i + 1);
            assert forall|x: T::Value| #[trigger] result.view_set().contains(x) == or_of(next).contains(x) by {
                if or_of(prev).contains(x) {
                    let k = choose|k: int| 0 <= k < prev.len() && #[trigger] prev[k].contains(x);
                    assert(next[k] == prev[k]);
                }
                if sets[i as int].contains(x) {
                    assert(next[i as int].contains(x));
                }
                if or_of(next).contains(x) {
                    let k = choose|k: int| 0 <= k < next.len() && #[trigger] next[k].contains(x);
                    if k < i {
                        assert(next[k] == prev[k]);
                    }
                }
            }
            assert(result.view_set() =~= or_of(next));
        }
        i += 1;
    }
    assert(sets.subrange(0, sources@.len() as int) =~= sets);
    result
}

/// XOR: symmetric difference of all sources.
pub fn op_xor<T: RoaringType>(sources: Vec<T>) -> (r: T)
    ensures
        r.view_set() == xor_of(source_sets(sources@)),
{
    let ghost sets = source_sets(sources@);
    if sources.len() == 0 {
        assert(xor_of(sets) =~= Set::<T::Value>::empty());
        return T::new();
    }
    let mut result = sources[0].duplicate();
    proof {
        assert forall|x: T::Value| #[trigger] result.view_set().contains(x) == xor_of(sets.subrange(0, 1)).contains(x) by {
            lemma_occurrences_empty(sets, 0, x);
            lemma_occurrences_step(sets, 0, 0, x);
        }
        assert(result.view_set() =~= xor_of(sets.subrange(0, 1)));
    }
    let mut i: usize = 1;
    while i < sources.len()
        invariant
            1 <= i <= sources@.len(),
            sets == source_sets(sources@),
            result.view_set() == xor_of(sets.subrange(0, i as int)),
        decreases sources@.len() - i,
    {
        result.bitxor_assign(&sources[i]);
        proof {
            assert forall|x: T::Value| #[trigger] result.view_set().contains(x) == xor_of(sets.subrange(0, i + 1)).contains(x) by {
                lemma_occurrences_step(sets, 0, i as int, x);
            }
            assert(result.view_set() =~= xor_of(sets.subrange(0, i + 1)));
        }
        i += 1;
    }
    assert(sets.subrange(0, sources@.len() as int) =~= sets);
    result
}

/// The union of `sources[1..]`, for at least two sources.
fn union_of_rest<T: RoaringType>(sources: &Vec<T>) -> (r: T)
    requires
        sources@.len() >= 2,
    ensures
        r.view_set() == or_of(source_sets(sources@).subrange(1, sources@.len() as int)),
{
    let ghost sets = source_sets(sources@);
    let mut union = sources[1].duplicate();
    proof {
        let first = sets.subrange(1, 2);
        assert forall|x: T::Value| #[trigger] union.view_set().contains(x) == or_of(first).contains(x) by {
            if union.view_set().contains(x) {
                assert(first[0].contains(x));
            }
        }
        assert(union.view_set() =~= or_of(first));
    }
    let mut i: usize = 2;
    while i < sources.len()
        invariant
            2 <= i <= sources@.len(),
            sets == source_sets(sources@),
            union.view_set() == or_of(sets.subrange(1, i as int)),
        decreases sources@.len() - i,
    {
        union.bitor_assign(&sources[i]);
        proof {
            let prev = sets.subrange(1, i as int);
            let next = sets.subrange(1, i + 1);
            assert forall|x: T::Value| #[trigger] union.view_set().contains(x) == or_of(next).contains(x) by {
                if or_of(prev).contains(x) {
                    let k = choose|k: int| 0 <= k < prev.len() && #[trigger] prev[k].contains(x);
                    assert(next[k] == prev[k]);
                }
                if sets[i as int].contains(x) {
                    assert(next[i - 1] == sets[i as int]);
                }
                if or_of(next).contains(x) {
                    let k = choose|k: int| 0 <= k < next.len() && #[trigger] next[k].contains(x);
                    if k < i - 1 {
                        assert(next[k] == prev[k]);
                    }
                }
            }
            assert(union.view_set() =~= or_of(next));
        }
        i += 1;
    }
    union
}

/// Some source after the first holds `x` exactly when the union of the
/// later sources holds it.
proof fn lemma_rest_union<V>(sets: Seq<Set<V>>, x: V)
    requires
        sets.len() >= 2,
    ensures
        or_of(sets.subrange(1, sets.len() as int)).contains(x) == exists|k: int|
            1 <= k < sets.len() && #[trigger] sets[k].contains(x),
{
    let rest = sets.subrange(1, sets.len() as int);
    if or_of(rest).contains(x) {
        let k = choose|k: int| 0 <= k < rest.len() && #[trigger] rest[k].contains(x);
        assert(sets[k + 1] == rest[k]);
    }
    if exists|k: int| 1 <= k < sets.len() && #[trigger] sets[k].contains(x) {
        let k = choose|k: int| 1 <= k < sets.len() && #[trigger] sets[k].contains(x);
        assert(rest[k - 1] == sets[k]);
    }
}

/// ANDOR: (src[1] | src[2] | ...) & src[0]; empty for fewer than two sources.
pub fn op_andor<T: RoaringType>(sources: Vec<T>) -> (r: T)
    ensures
        r.view_set() == andor_of(source_sets(sources@)),
{
    let ghost sets = source_sets(sources@);
    if sources.len() < 2 {
        assert(andor_of(sets) =~= Set::<T::Value>::empty());
        return T::new();
    }
    let mut union = union_of_rest(&sources);
    union.bitand_assign(&sources[0]);
    proof {
        assert forall|x: T::Value| #[trigger] union.view_set().contains(x) == andor_of(sets).contains(x) by {
            lemma_rest_union(sets, x);
        }
        assert(union.view_set() =~= andor_of(sets));
    }
    union
}

/// ANDNOT / DIFF: src[0] - src[1] - src[2] - ...
pub fn op_andnot<T: RoaringType>(sources: Vec<T>) -> (r: T)
    ensures
        r.view_set() == andnot_of(source_sets(sources@)),
{
    let ghost sets = source_sets(sources@);
    if sources.len() == 0 {
        assert(andnot_of(sets) =~= Set::<T::Value>::empty());
        return T::new();
    }
    let mut result = sources[0].duplicate();
    assert(result.view_set() =~= andnot_of(sets.subrange(0, 1)));
    let mut i: usize = 1;
    while i < sources.len()
        invariant
            1 <= i <= sources@.len(),
            sets == source_sets(sources@),
            result.view_set() == andnot_of(sets.subrange(0, i as int)),
        decreases sources@.len() - i,
    {
        result.sub_assign(&sources[i]);
        proof {
            let prev = sets.subrange(0, i as int);
            let next = sets.subrange(0, i + 1);
            assert forall|x: T::Value| #[trigger] result.view_set().contains(x) == andnot_of(next).contains(x) by {
                if andnot_of(next).contains(x) {
                    assert forall|k: int| 1 <= k < prev.len() implies !#[trigger] prev[k].contains(x) by {
                        assert(prev[k] == next[k]);
                    }
                    assert(!next[i as int].contains(x));
                    assert(prev[0] == next[0]);
                }
                if result.view_set().contains(x) {
                    assert forall|k: int| 1 <= k < next.len() implies !#[trigger] next[k].contains(x) by {
                        if k < i {
                            assert(prev[k] == next[k]);
                        }
                    }
                    assert(prev[0] == next[0]);
                }
            }
            assert(result.view_set() =~= andnot_of(next));
        }
        i += 1;
    }
    assert(sets.subrange(0, sources@.len() as int) =~= sets);
    result
}

/// ORNOT / DIFF1: (src[1] | src[2] | ...) - src[0]; empty for fewer than two sources.
pub fn op_ornot<T: RoaringType>(sources: Vec<T>) -> (r: T)
    ensures
        r.view_set() == ornot_of(source_sets(sources@)),
{
    let ghost sets = source_sets(sources@);
    if sources.len() < 2 {
        assert(ornot_of(sets) =~= Set::<T::Value>::empty());
        return T::new();
    }
    let mut union = union_of_rest(&sources);
    union.sub_assign(&sources[0]);
    proof {
        assert forall|x: T::Value| #[trigger] union.view_set().contains(x) == ornot_of(sets).contains(x) by {
            lemma_rest_union(sets, x);
        }
        assert(union.view_set() =~= ornot_of(sets));
    }
    union
}

/// ONE: values present in exactly one source.
/// A running XOR tracks the values seen an odd number of times, and a second
/// set gathers every value seen at least twice; their difference is ONE.
pub fn op_one<T: RoaringType>(sources: Vec<T>) -> (r: T)
    ensures
        r.view_set() == one_of(source_sets(sources@)),
{
    let ghost sets = source_sets(sources@);
    if sources.len() == 0 {
        assert(one_of(sets) =~= Set::<T::Value>::empty());
        return T::new();
    }
    if sources.len() == 1 {
        let only = sources[0].duplicate();
        proof {
            assert forall|x: T::Value| #[trigger] only.view_set().contains(x) == one_of(sets).contains(x) by {
                lemma_occurrences_empty(sets, 0, x);
                lemma_occurrences_step(sets, 0, 0, x);
                assert(sets.subrange(0, 1) =~= sets);
            }
            assert(only.view_set() =~= one_of(sets));
        }
        return only;
    }
    let mut result = sources[0].duplicate();
    let mut seen_twice = T::new();
    proof {
        assert forall|x: T::Value| #[trigger] occurrences(sets.subrange(0, 1), x) == if sets[0].contains(x) {
            1nat
        } else {
            0nat
        } by {
            lemma_occurrences_empty(sets, 0, x);
            lemma_occurrences_step(sets, 0, 0, x);
        }
    }
    let mut i: usize = 1;
    while i < sources.len()
        invariant
            1 <= i <= sources@.len(),
            sets == source_sets(sources@),
            forall|x: T::Value| #[trigger] result.view_set().contains(x) == (occurrences(sets.subrange(0, i as int), x) % 2 == 1),
            forall|x: T::Value| #[trigger] seen_twice.view_set().contains(x) == (occurrences(sets.subrange(0, i as int), x) >= 2),
        decreases sources@.len() - i,
    {
        let ghost before = result.view_set();
        let ghost twice_before = seen_twice.view_set();
        let mut overlap = result.duplicate();
        overlap.bitand_assign(&sources[i]);
        seen_twice.bitor_assign(&overlap);
        result.bitxor_assign(&sources[i]);
        proof {
            assert forall|x: T::Value| #[trigger] occurrences(sets.subrange(0, i + 1), x) == occurrences(sets.subrange(0, i as int), x) + if sets[i as int].contains(x) {
                1nat
            } else {
                0nat
            } by {
                lemma_occurrences_step(sets, 0, i as int, x);
            }
            assert forall|x: T::Value| #[trigger] seen_twice.view_set().contains(x) == (occurrences(sets.subrange(0, i + 1), x) >= 2) by {
                assert(twice_before.contains(x) == (occurrences(sets.subrange(0, i as int), x) >= 2));
                assert(before.contains(x) == (occurrences(sets.subrange(0, i as int), x) % 2 == 1));
            }
            assert forall|x: T::Value| #[trigger] result.view_set().contains(x) == (occurrences(sets.subrange(0, i + 1), x) % 2 == 1) by {
                assert(before.contains(x) == (occurrences(sets.subrange(0, i as int), x) % 2 == 1));
            }
        }
        i += 1;
    }
    let ghost odd = result.view_set();
    let ghost twice = seen_twice.view_set();
    result.sub_assign(&seen_twice);
    proof {
        assert(sets.subrange(0, sources@.len() as int) =~= sets);
        assert forall|x: T::Value| #[trigger] result.view_set().contains(x) == one_of(sets).contains(x) by {
            assert(odd.contains(x) == (occurrences(sets, x) % 2 == 1));
            assert(twice.contains(x) == (occurrences(sets, x) >= 2));
        }
        assert(result.view_set() =~= one_of(sets));
    }
    result
}


// ------------------------------------------------------------------
// NOT.
// ------------------------------------------------------------------

/// NOT: the complement of `src` within `[0, u]`, where `u` is the larger of
/// `last` and the largest value of `src`. With neither (an empty source and
/// no `last`) the result is empty; with only `last` it is all of `[0, last]`.
pub fn op_not<T: RoaringType>(src: &T, last: Option<T::Value>) -> (r: T)
    requires
        forall|v: T::Value| src.view_set().contains(v) ==> T::value_int(v) < u64::MAX,
        last matches Some(l) ==> T::value_int(l) < u64::MAX,
    ensures
        r.view_set() == not_of(|x: T::Value| T::value_int(x), src.view_set(), last),
{
    let ghost s = src.view_set();
    let ghost target = not_of(|x: T::Value| T::value_int(x), s, last);
    let max = src.max_val();
    let bound = match (max, last) {
        (None, None) => {
            assert(target =~= Set::<T::Value>::empty());
            return T::new();
        },
        (None, Some(l)) => l,
        (Some(m), None) => m,
        (Some(m), Some(l)) => if T::value_lt(m, l) {
            l
        } else {
            m
        },
    };
    proof {
        if let Some(m) = max {
            assert(s.contains(m));
        }
        assert(forall|y: T::Value| s.contains(y) ==> T::value_int(y) <= T::value_int(bound));
        assert(last matches Some(l) ==> T::value_int(l) <= T::value_int(bound));
        assert((max matches Some(m) && bound == m) || (last matches Some(l) && bound == l));
    }
    let r = src.flip_inclusive(bound);
    proof {
        assert forall|x: T::Value| #[trigger] r.view_set().contains(x) == target.contains(x) by {
            T::lemma_value_int(x, bound);
            if !s.contains(x) && T::value_int(x) <= T::value_int(bound) {
                if let Some(m) = max {
                    if bound == m {
                        assert(s.contains(m) && T::value_int(x) <= T::value_int(m));
                    }
                }
            }
            if target.contains(x) {
                if exists|y: T::Value| #[trigger] s.contains(y) && T::value_int(x) <= T::value_int(y) {
                    let y = choose|y: T::Value| #[trigger] s.contains(y) && T::value_int(x) <= T::value_int(y);
                    assert(T::value_int(y) <= T::value_int(bound));
                }
            }
        }
        assert(r.view_set() =~= target);
    }
    r
}

// ------------------------------------------------------------------
// Operations by name.
// ------------------------------------------------------------------

/// A BITOP operation.
#[derive(Debug, Clone, Copy, PartialEq, Eq, Structural)]
pub enum BitOp {
    And,
    Or,
    Xor,
    AndOr,
    Diff,
    Diff1,
    One,
    Not,
}

/// The ASCII name of an operation.
pub open spec fn bitop_name(op: BitOp) -> Seq<u8> {
    match op {
        BitOp::And => seq![65u8, 78u8, 68u8],
        BitOp::Or => seq![79u8, 82u8],
        BitOp::Xor => seq![88u8, 79u8, 82u8],
        BitOp::AndOr => seq![65u8, 78u8, 68u8, 79u8, 82u8],
        BitOp::Diff => seq![68u8, 73u8, 70u8, 70u8],
        BitOp::Diff1 => seq![68u8, 73u8, 70u8, 70u8, 49u8],
        BitOp::One => seq![79u8, 78u8, 69u8],
        BitOp::Not => seq![78u8, 79u8, 84u8],
    }
}

/// The operation an (upper-cased) name stands for, if any.
pub open spec fn named_bitop(name: Seq<u8>) -> Option<BitOp> {
    if exists|op: BitOp| bitop_name(op) == name {
        Some(choose|op: BitOp| bitop_name(op) == name)
    } else {
        None
    }
}

/// Distinct operations have distinct names.
pub(crate) proof fn lemma_bitop_names_distinct(a: BitOp, b: BitOp)
    ensures
        bitop_name(a) == bitop_name(b) ==> a == b,
{
    if bitop_name(a) == bitop_name(b) && a != b {
        let na = bitop_name(a);
        let nb = bitop_name(b);
        assert(na.len() == nb.len());
        assert(na[0] == nb[0]);
        if na.len() > 1 {
            assert(na[1] == nb[1]);
        }
        if na.len() > 2 {
            assert(na[2] == nb[2]);
        }
        if na.len() > 4 {
            assert(na[4] == nb[4]);
        }
    }
}

/// Whether `name` spells `word`.
fn name_is(name: &[u8], word: &[u8]) -> (r: bool)
    ensures
        r == (name@ == word@),
{
    crate::commands::bytes_equal(name, word)
}

/// The operation an (upper-cased) name stands for.
pub fn parse_bitop(name: &[u8]) -> (r: Option<BitOp>)
    ensures
        r == named_bitop(name@),
        r matches Some(op) ==> bitop_name(op) == name@,
        r is None ==> forall|op: BitOp| bitop_name(op) != name@,
{
    let and_w: [u8; 3] = [65u8, 78u8, 68u8];
    let or_w: [u8; 2] = [79u8, 82u8];
    let xor_w: [u8; 3] = [88u8, 79u8, 82u8];
    let andor_w: [u8; 5] = [65u8, 78u8, 68u8, 79u8, 82u8];
    let diff_w: [u8; 4] = [68u8, 73u8, 70u8, 70u8];
    let diff1_w: [u8; 5] = [68u8, 73u8, 70u8, 70u8, 49u8];
    let one_w: [u8; 3] = [79u8, 78u8, 69u8];
    let not_w: [u8; 3] = [78u8, 79u8, 84u8];
    assert(and_w@ =~= bitop_name(BitOp::And));
    assert(or_w@ =~= bitop_name(BitOp::Or));
    assert(xor_w@ =~= bitop_name(BitOp::Xor));
    assert(andor_w@ =~= bitop_name(BitOp::AndOr));
    assert(diff_w@ =~= bitop_name(BitOp::Diff));
    assert(diff1_w@ =~= bitop_name(BitOp::Diff1));
    assert(one_w@ =~= bitop_name(BitOp::One));
    assert(not_w@ =~= bitop_name(BitOp::Not));
    let r = if name_is(name, and_w.as_slice()) {
        Some(BitOp::And)
    } else if name_is(name, or_w.as_slice()) {
        Some(BitOp::Or)
    } else if name_is(name, xor_w.as_slice()) {
        Some(BitOp::Xor)
    } else if name_is(name, andor_w.as_slice()) {
        Some(BitOp::AndOr)
    } else if name_is(name, diff_w.as_slice()) {
        Some(BitOp::Diff)
    } else if name_is(name, diff1_w.as_slice()) {
        Some(BitOp::Diff1)
    } else if name_is(name, one_w.as_slice()) {
        Some(BitOp::One)
    } else if name_is(name, not_w.as_slice()) {
        Some(BitOp::Not)
    } else {
        None
    };
    proof {
        match r {
            Some(op) => {
                assert forall|other: BitOp| bitop_name(other) == name@ implies other == op by {
                    lemma_bitop_names_distinct(other, op);
                }
            },
            None => {
                assert forall|op: BitOp| bitop_name(op) != name@ by {
                    match op {
                        BitOp::And => {},
                        BitOp::Or => {},
                        BitOp::Xor => {},
                        BitOp::AndOr => {},
                        BitOp::Diff => {},
                        BitOp::Diff1 => {},
                        BitOp::One => {},
                        BitOp::Not => {},
                    }
                }
            },
        }
    }
    r
}

/// Operations that take a destination plus one or more source keys: every
/// operation but NOT.
pub fn is_variadic_op(op: &str) -> (r: bool)
    ensures
        r == (named_bitop(op.spec_bytes()) matches Some(o) && o != BitOp::Not),
{
    match parse_bitop(op.as_bytes()) {
        Some(BitOp::Not) => false,
        Some(_) => true,
        None => false,
    }
}

/// Checks the shape of an `R.BITOP` call: `nargs` counts every argument,
/// the command name included; `name` is the upper-cased operation.
/// NOT takes `dest src [last]`; the other operations take `dest` and at
/// least two sources.
pub fn bitop_call(nargs: usize, name: &[u8]) -> (r: Result<BitOp, CommandError>)
    ensures
        nargs < 4 ==> r matches Err(CommandError::WrongArity),
        nargs >= 4 && named_bitop(name@) == Some(BitOp::Not) ==> if nargs <= 5 {
            r == Ok::<BitOp, CommandError>(BitOp::Not)
        } else {
            r matches Err(CommandError::WrongArity)
        },
        nargs >= 4 && named_bitop(name@) is None ==> r matches Err(CommandError::Syntax),
        nargs >= 4 && (named_bitop(name@) matches Some(op) && op != BitOp::Not) ==> if nargs < 5 {
            r matches Err(CommandError::WrongArity)
        } else {
            r == Ok::<BitOp, CommandError>(named_bitop(name@).unwrap())
        },
{
    if nargs < 4 {
        return Err(CommandError::WrongArity);
    }
    match parse_bitop(name) {
        Some(BitOp::Not) => if nargs == 4 || nargs == 5 {
            Ok(BitOp::Not)
        } else {
            Err(CommandError::WrongArity)
        },
        None => Err(CommandError::Syntax),
        Some(op) => if nargs < 5 {
            Err(CommandError::WrongArity)
        } else {
            Ok(op)
        },
    }
}

/// What a variadic operation computes from the value sets of its sources.
pub open spec fn bitop_result<V>(op: BitOp, sets: Seq<Set<V>>) -> Set<V> {
    match op {
        BitOp::And => and_of(sets),
        BitOp::Or => or_of(sets),
        BitOp::Xor => xor_of(sets),
        BitOp::AndOr => andor_of(sets),
        BitOp::Diff => andnot_of(sets),
        BitOp::Diff1 => ornot_of(sets),
        BitOp::One => one_of(sets),
        BitOp::Not => Set::empty(),
    }
}

/// Runs a variadic operation over the sources.
pub fn apply_bitop<T: RoaringType>(op: BitOp, sources: Vec<T>) -> (r: T)
    requires
        op != BitOp::Not,
    ensures
        r.view_set() == bitop_result(op, source_sets(sources@)),
{
    match op {
        BitOp::And => op_and(sources),
        BitOp::Or => op_or(sources),
        BitOp::Xor => op_xor(sources),
        BitOp::AndOr => op_andor(sources),
        BitOp::Diff => op_andnot(sources),
        BitOp::Diff1 => op_ornot(sources),
        BitOp::One => op_one(sources),
        BitOp::Not => T::new(),
    }
}

/// The argument positions that are keys in an `R.BITOP` call of `nargs`
/// arguments (the command name included) whose operation is `name`
/// (upper-cased): the destination and the source for NOT, the destination
/// and every source for the other operations; none for an unknown
/// operation or a wrong argument count.
pub fn bitop_key_positions(nargs: usize, name: &[u8]) -> (r: Vec<usize>)
    ensures
        r@ == match named_bitop(name@) {
            Some(BitOp::Not) => if 4 <= nargs <= 5 {
                seq![2usize, 3usize]
            } else {
                Seq::<usize>::empty()
            },
            Some(_) => if nargs >= 5 {
                Seq::new((nargs - 2) as nat, |i: int| (i + 2) as usize)
            } else {
                Seq::<usize>::empty()
            },
            None => Seq::<usize>::empty(),
        },
{
    let mut out: Vec<usize> = Vec::new();
    if nargs < 4 {
        assert(out@ =~= Seq::<usize>::empty());
        return out;
    }
    match parse_bitop(name) {
        Some(BitOp::Not) => {
            if nargs <= 5 {
                out.push(2);
                out.push(3);
                assert(out@ =~= seq![2usize, 3usize]);
            }
        },
        Some(_) => {
            if nargs >= 5 {
                let mut pos: usize = 2;
                while pos < nargs
                    invariant
                        2 <= pos <= nargs,
                        out@ =~= Seq::new((pos - 2) as nat, |i: int| (i + 2) as usize),
                    decreases nargs - pos,
                {
                    out.push(pos);
                    pos += 1;
                }
            }
        },
        None => {},
    }
    out
}

} // verus!
