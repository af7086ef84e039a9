//! What the `R.*` / `R64.*` commands compute, generic over the bitmap width.
//!
//! Each function takes the parsed arguments and the bitmap that the key
//! holds (`None` for a missing key) and gives the reply; opening keys and
//! sending replies is left to the module layer.
use vstd::prelude::*;
use crate::bitmap_type::{
    RoaringType, saturating_i64, is_least, is_greatest, members_below, absent_below, is_bit_array,
    lists_ascending,
};
use crate::error::{CommandError, MAX_RANGE_SIZE};
use crate::parse::{parsed_u64, parse_u64_bytes};

verus! {

/// A reply to a command.
#[derive(Debug, PartialEq, Eq)]
pub enum Reply {
    Integer(i64),
    BulkString(Vec<u8>),
    Array(Vec<Reply>),
    Null,
    /// The simple string `OK`.
    Okay,
}

// ------------------------------------------------------------------
// Decimal text.
// ------------------------------------------------------------------

/// The decimal digits of `n`, most significant first, without leading zeros.
pub open spec fn decimal_digits(n: nat) -> Seq<u8>
    decreases n,
{
    if n < 10 {
        seq![(48 + n) as u8]
    } else {
        decimal_digits(n / 10).push((48 + n % 10) as u8)
    }
}

/// The decimal text of `n`, as `u64::to_string` writes it.
pub fn decimal_bytes(n: u64) -> (r: Vec<u8>)
    ensures
        r@ == decimal_digits(n as nat),
    decreases n,
{
    if n < 10 {
        let mut r: Vec<u8> = Vec::new();
        r.push((48 + n) as u8);
        r
    } else {
        let mut r = decimal_bytes(n / 10);
        r.push((48 + n % 10) as u8);
        r
    }
}

// ------------------------------------------------------------------
// Values in arguments and replies.
// ------------------------------------------------------------------

/// An argument that is a value of the bitmap's type.
pub open spec fn is_value_arg<T: RoaringType>(arg: Seq<u8>) -> bool {
    parsed_u64(arg) matches Some(x) && x <= T::value_max()
}

/// The error for an argument that is no value of the bitmap's type.
pub open spec fn value_arg_error<T: RoaringType>(arg: Seq<u8>, name: Seq<char>, e: CommandError) -> bool {
    match parsed_u64(arg) {
        None => e is NotInteger && e->NotInteger_name@ == name,
        Some(_) => e is OutOfRange && e->OutOfRange_name@ == name,
    }
}

/// Reads a value argument: a decimal integer in the range of the type.
pub fn parse_value<T: RoaringType>(arg: &[u8], name: &str) -> (r: Result<T::Value, CommandError>)
    ensures
        match r {
            Ok(v) => is_value_arg::<T>(arg@) && T::value_int(v) == parsed_u64(arg@).unwrap(),
            Err(e) => !is_value_arg::<T>(arg@) && value_arg_error::<T>(arg@, name@, e),
        },
{
    match parse_u64_bytes(arg) {
        None => Err(CommandError::NotInteger { name: name.to_owned() }),
        Some(x) => match T::value_from_u64(x) {
            Some(v) => {
                proof {
                    T::lemma_value_int(v, v);
                }
                Ok(v)
            },
            None => Err(CommandError::OutOfRange { name: name.to_owned() }),
        },
    }
}

/// Reads a list of value arguments; the first bad one gives the error.
pub fn parse_values<T: RoaringType>(args: &[Vec<u8>], name: &str) -> (r: Result<Vec<T::Value>, CommandError>)
    ensures
        match r {
            Ok(vals) => values_of_args::<T>(vals@, args@),
            Err(e) => first_bad_value_arg::<T>(args@, name@, e),
        },
{
    let mut vals: Vec<T::Value> = Vec::new();
    let mut i: usize = 0;
    while i < args.len()
        invariant
            i <= args@.len(),
            vals@.len() == i,
            forall|j: int|
                0 <= j < i ==> is_value_arg::<T>(#[trigger] args@[j]@) && T::value_int(vals@[j])
                    == parsed_u64(args@[j]@).unwrap(),
        decreases args@.len() - i,
    {
        match parse_value::<T>(args[i].as_slice(), name) {
            Ok(v) => vals.push(v),
            Err(e) => {
                return Err(e);
            },
        }
        i += 1;
    }
    Ok(vals)
}

/// `r` is the reply for the value `v`: an integer when it fits in `i64`,
/// else its decimal text.
pub open spec fn is_value_reply<T: RoaringType>(r: Reply, v: T::Value) -> bool {
    if T::value_int(v) <= i64::MAX {
        r == Reply::Integer(T::value_int(v) as i64)
    } else {
        r is BulkString && r->BulkString_0@ == decimal_digits(T::value_int(v) as nat)
    }
}

/// A value as a reply: an integer when it fits in `i64`, else its decimal
/// text (RESP integers are signed).
pub fn value_reply<T: RoaringType>(v: T::Value) -> (r: Reply)
    ensures
        is_value_reply::<T>(r, v),
{
    let i = T::value_to_i64(v);
    let n = T::value_to_u64(v);
    if n > i64::MAX as u64 {
        Reply::BulkString(decimal_bytes(n))
    } else {
        Reply::Integer(i)
    }
}

/// The replies for a list of values, in order.
pub fn values_reply<T: RoaringType>(vals: &[T::Value]) -> (r: Vec<Reply>)
    ensures
        r@.len() == vals@.len(),
        forall|i: int| 0 <= i < vals@.len() ==> is_value_reply::<T>(#[trigger] r@[i], vals@[i]),
{
    let mut out: Vec<Reply> = Vec::new();
    let mut i: usize = 0;
    while i < vals.len()
        invariant
            i <= vals@.len(),
            out@.len() == i,
            forall|j: int| 0 <= j < i ==> is_value_reply::<T>(#[trigger] out@[j], vals@[j]),
        decreases vals@.len() - i,
    {
        out.push(value_reply::<T>(vals[i]));
        i += 1;
    }
    out
}


/// The integer a value of `T` stands for.
pub open spec fn value_of<T: RoaringType>() -> spec_fn(T::Value) -> int {
    |x: T::Value| T::value_int(x)
}

/// A copy of a byte string.
pub fn copy_bytes(a: &[u8]) -> (r: Vec<u8>)
    ensures
        r@ == a@,
{
    let mut out: Vec<u8> = Vec::new();
    let mut i: usize = 0;
    while i < a.len()
        invariant
            i <= a@.len(),
            out@ == a@.subrange(0, i as int),
        decreases a@.len() - i,
    {
        out.push(a[i]);
        i += 1;
    }
    assert(out@ =~= a@);
    out
}

/// Whether two byte strings are equal.
pub fn bytes_equal(a: &[u8], b: &[u8]) -> (r: bool)
    ensures
        r == (a@ == b@),
{
    if a.len() != b.len() {
        return false;
    }
    let mut i: usize = 0;
    while i < a.len()
        invariant
            i <= a@.len(),
            a@.len() == b@.len(),
            forall|j: int| 0 <= j < i ==> a@[j] == b@[j],
        decreases a@.len() - i,
    {
        if a[i] != b[i] {
            return false;
        }
        i += 1;
    }
    assert(a@ =~= b@);
    true
}

// ------------------------------------------------------------------
// Single bits.
// ------------------------------------------------------------------

/// SETBIT: sets (`value`) or clears the bit at `offset`; returns whether it
/// was set before.
pub fn setbit<T: RoaringType>(bitmap: &mut T, offset: T::Value, value: bool) -> (previous: bool)
    ensures
        previous == old(bitmap).view_set().contains(offset),
        value ==> final(bitmap).view_set() == old(bitmap).view_set().insert(offset),
        !value ==> final(bitmap).view_set() == old(bitmap).view_set().remove(offset),
{
    let previous = bitmap.contains(offset);
    if value {
        bitmap.insert(offset);
    } else {
        bitmap.remove(offset);
    }
    previous
}

/// The ASCII word `COUNT`.
pub open spec fn count_word() -> Seq<u8> {
    seq![67u8, 79u8, 85u8, 78u8, 84u8]
}

/// Whether a CLEARBITS argument list ends in the literal `COUNT`.
pub open spec fn has_count_flag(args: Seq<Vec<u8>>) -> bool {
    args.len() > 0 && args.last()@ == count_word()
}

/// The CLEARBITS arguments that are offsets: all but a trailing `COUNT`.
pub open spec fn offset_args(args: Seq<Vec<u8>>) -> Seq<Vec<u8>> {
    if has_count_flag(args) {
        args.drop_last()
    } else {
        args
    }
}

/// `vals` are the values that `args` spell, one for one.
pub open spec fn values_of_args<T: RoaringType>(vals: Seq<T::Value>, args: Seq<Vec<u8>>) -> bool {
    &&& vals.len() == args.len()
    &&& forall|i: int|
        0 <= i < args.len() ==> is_value_arg::<T>(#[trigger] args[i]@) && T::value_int(vals[i])
            == parsed_u64(args[i]@).unwrap()
}

/// `e` is the error for the first argument of `args` that is no value.
pub open spec fn first_bad_value_arg<T: RoaringType>(args: Seq<Vec<u8>>, name: Seq<char>, e: CommandError) -> bool {
    exists|k: int|
        0 <= k < args.len() && !is_value_arg::<T>(#[trigger] args[k]@) && value_arg_error::<T>(
            args[k]@,
            name,
            e,
        ) && forall|i: int| 0 <= i < k ==> is_value_arg::<T>(#[trigger] args[i]@)
}

/// CLEARBITS arguments: the offsets, then an optional trailing literal
/// `COUNT` that asks for the number of bits cleared. Returns the offsets
/// and whether `COUNT` was given.
pub fn clearbits_offsets<T: RoaringType>(args: &[Vec<u8>]) -> (r: Result<(Vec<T::Value>, bool), CommandError>)
    ensures
        match r {
            Ok((vals, flag)) => flag == has_count_flag(args@) && values_of_args::<T>(vals@, offset_args(args@)),
            Err(e) => first_bad_value_arg::<T>(offset_args(args@), "offset"@, e),
        },
{
    let word: [u8; 5] = [67u8, 79u8, 85u8, 78u8, 84u8];
    assert(word@ =~= count_word());
    let n = args.len();
    let count_mode = n > 0 && bytes_equal(args[n - 1].as_slice(), word.as_slice());
    let rest: &[Vec<u8>] = if count_mode {
        slice_prefix(args, n - 1)
    } else {
        args
    };
    assert(rest@ =~= offset_args(args@));
    match parse_values::<T>(rest, "offset") {
        Ok(vals) => Ok((vals, count_mode)),
        Err(e) => Err(e),
    }
}

/// The first `n` elements of a slice.
fn slice_prefix<A>(s: &[A], n: usize) -> (r: &[A])
    requires
        n <= s@.len(),
    ensures
        r@ == s@.subrange(0, n as int),
{
    vstd::slice::slice_subrange(s, 0, n)
}

/// CLEARBITS on an existing bitmap: clears the offsets; replies `OK`, or with
/// `COUNT` the number of distinct offsets that were set.
pub fn clearbits<T: RoaringType>(bitmap: &mut T, offsets: &[T::Value], count_mode: bool) -> (r: Reply)
    ensures
        final(bitmap).view_set() == old(bitmap).view_set().difference(offsets@.to_set()),
        count_mode ==> r == Reply::Integer(
            old(bitmap).view_set().intersect(offsets@.to_set()).len() as i64,
        ),
        !count_mode ==> r == Reply::Okay,
{
    let count = bitmap.remove_many_counted(offsets);
    if count_mode {
        Reply::Integer(count as i64)
    } else {
        Reply::Okay
    }
}

/// CLEAR on an existing bitmap: empties it; replies the former cardinality.
pub fn clear<T: RoaringType>(bitmap: &mut T) -> (r: i64)
    requires
        old(bitmap).view_set().len() <= u64::MAX,
    ensures
        r == old(bitmap).view_set().len() as i64,
        final(bitmap).view_set() == Set::<T::Value>::empty(),
{
    let card = bitmap.len();
    bitmap.clear();
    card as i64
}

// ------------------------------------------------------------------
// Pagination, bit strings, ranges.
// ------------------------------------------------------------------

/// `vals` lists the members of `s` at 0-based positions `first, first + 1,
/// ...` (in increasing order), up to position `last` or the cardinality.
pub open spec fn lists_positions<T: RoaringType>(vals: Seq<T::Value>, s: Set<T::Value>, first: int, last: int) -> bool {
    &&& vals.len() == if s.len() <= first {
        0
    } else if last + 1 <= s.len() {
        last + 1 - first
    } else {
        s.len() - first
    }
    &&& forall|k: int|
        0 <= k < vals.len() ==> s.contains(#[trigger] vals[k]) && members_below(
            value_of::<T>(),
            s,
            vals[k],
        ).len() == first + k
}

/// RANGEINTARRAY: the members at positions `[start, end]` of the sorted
/// value array, truncated at the cardinality; empty for a missing key or an
/// inverted window; refused when the window spans more than
/// `MAX_RANGE_SIZE` positions.
pub fn range_positions<T: RoaringType>(bitmap: Option<&T>, start: T::Value, end: T::Value) -> (r: Result<Vec<T::Value>, CommandError>)
    ensures
        ({
            let first = T::value_int(start);
            let last = T::value_int(end);
            if first > last {
                r matches Ok(v) && v@.len() == 0
            } else if last - first + 1 > MAX_RANGE_SIZE {
                r matches Err(CommandError::RangeTooLarge)
            } else {
                match bitmap {
                    None => r matches Ok(v) && v@.len() == 0,
                    Some(b) => r matches Ok(v) && lists_positions::<T>(v@, b.view_set(), first, last),
                }
            }
        }),
{
    proof {
        T::lemma_value_int(start, end);
        T::lemma_value_int(end, start);
    }
    let first = T::value_to_u64(start);
    let last = T::value_to_u64(end);
    if first > last {
        return Ok(Vec::new());
    }
    if last - first >= MAX_RANGE_SIZE {
        return Err(CommandError::RangeTooLarge);
    }
    match bitmap {
        None => Ok(Vec::new()),
        Some(b) => {
            let ghost s = b.view_set();
            proof {
                T::lemma_value_sets_finite(s);
            }
            let mut out: Vec<T::Value> = Vec::new();
            let mut i: u64 = first;
            loop
                invariant
                    s == b.view_set(),
                    s.finite(),
                    first <= i <= last,
                    out@.len() == i - first,
                    forall|k: int|
                        0 <= k < out@.len() ==> s.contains(#[trigger] out@[k]) && members_below(
                            value_of::<T>(),
                            s,
                            out@[k],
                        ).len() == first + k,
                    i > first ==> i <= s.len(),
                    first == T::value_int(start),
                    last == T::value_int(end),
                    last - first + 1 <= MAX_RANGE_SIZE,
                    bitmap == Some(b),
                decreases last - i,
            {
                match b.select(i) {
                    Some(v) => {
                        proof {
                            let below = members_below(value_of::<T>(), s, v);
                            assert(!below.contains(v));
                            assert(below.insert(v).subset_of(s));
                            vstd::set_lib::lemma_len_subset(below.insert(v), s);
                        }
                        out.push(v);
                    },
                    None => {
                        assert(lists_positions::<T>(out@, s, first as int, last as int));
                        return Ok(out);
                    },
                }
                if i == last {
                    assert(lists_positions::<T>(out@, s, first as int, last as int));
                    return Ok(out);
                }
                i += 1;
            }
        },
    }
}

/// GETBITARRAY on an existing bitmap: its ASCII bit string, refused when the
/// largest value is at or above `MAX_RANGE_SIZE` (the reply would be that
/// many bytes).
pub fn bit_array<T: RoaringType>(bitmap: &T) -> (r: Result<Vec<u8>, CommandError>)
    ensures
        match r {
            Ok(bits) => is_bit_array(value_of::<T>(), bits@, bitmap.view_set()) && forall|v: T::Value|
                bitmap.view_set().contains(v) ==> T::value_int(v) < MAX_RANGE_SIZE,
            Err(e) => e is RangeTooLarge && exists|v: T::Value|
                is_greatest(value_of::<T>(), bitmap.view_set(), v) && saturating_i64(T::value_int(v))
                    >= MAX_RANGE_SIZE,
        },
{
    match bitmap.max_val() {
        Some(max) => {
            proof {
                T::lemma_value_int(max, max);
            }
            if T::value_to_i64(max) as u64 >= MAX_RANGE_SIZE {
                assert(is_greatest(value_of::<T>(), bitmap.view_set(), max));
                return Err(CommandError::RangeTooLarge);
            }
            assert forall|v: T::Value| bitmap.view_set().contains(v) implies T::value_int(v) < MAX_RANGE_SIZE by {
                assert(T::value_int(v) <= T::value_int(max));
            }
        },
        None => {},
    }
    Ok(bitmap.to_bit_array())
}

/// SETRANGE bounds: the end-exclusive range `[start, end)` needs
/// `end >= start`.
pub fn check_range_end<T: RoaringType>(start: T::Value, end: T::Value) -> (r: Result<(), CommandError>)
    ensures
        r is Ok <==> T::value_int(start) <= T::value_int(end),
        r matches Err(e) ==> e is InvalidEnd,
{
    if T::value_lt(end, start) {
        Err(CommandError::InvalidEnd)
    } else {
        Ok(())
    }
}

// ------------------------------------------------------------------
// Aggregates.
// ------------------------------------------------------------------

/// BITPOS: the first set (`bit`) or first unset (`!bit`) position, `-1`
/// when there is none. A missing key reads as all-zero.
pub fn bitpos<T: RoaringType>(bitmap: Option<&T>, bit: bool) -> (r: Reply)
    ensures
        match bitmap {
            None => r == Reply::Integer(if bit { -1i64 } else { 0i64 }),
            Some(b) => if bit {
                if b.view_set() == Set::<T::Value>::empty() {
                    r == Reply::Integer(-1i64)
                } else {
                    exists|v: T::Value| is_least(value_of::<T>(), b.view_set(), v) && is_value_reply::<T>(r, v)
                }
            } else {
                if b.view_set() == Set::<T::Value>::full() {
                    r == Reply::Integer(-1i64)
                } else {
                    exists|v: T::Value|
                        is_least(value_of::<T>(), b.view_set().complement(), v) && is_value_reply::<T>(r, v)
                }
            },
        },
{
    match bitmap {
        None => if bit {
            Reply::Integer(-1)
        } else {
            Reply::Integer(0)
        },
        Some(b) => {
            let ghost s = b.view_set();
            proof {
                T::lemma_value_sets_finite(s);
                T::lemma_value_sets_finite(s.complement());
            }
            if bit {
                match b.select(0) {
                    Some(v) => {
                        proof {
                            let below = members_below(value_of::<T>(), s, v);
                            T::lemma_value_sets_finite(below);
                            assert forall|y: T::Value| s.contains(y) implies T::value_int(v) <= T::value_int(y) by {
                                if T::value_int(y) < T::value_int(v) {
                                    assert(below.contains(y));
                                }
                            }
                            assert(s != Set::<T::Value>::empty());
                        }
                        value_reply::<T>(v)
                    },
                    None => {
                        proof {
                            assert(s =~= Set::<T::Value>::empty());
                        }
                        Reply::Integer(-1)
                    },
                }
            } else {
                match b.nth_absent(1) {
                    Some(v) => {
                        proof {
                            let below = absent_below(value_of::<T>(), s, v);
                            T::lemma_value_sets_finite(below);
                            assert forall|y: T::Value| s.complement().contains(y) implies T::value_int(v) <= T::value_int(y) by {
                                if T::value_int(y) < T::value_int(v) {
                                    assert(below.contains(y));
                                }
                            }
                            assert(!s.contains(v));
                            assert(s != Set::<T::Value>::full());
                        }
                        value_reply::<T>(v)
                    },
                    None => {
                        proof {
                            assert(s.complement() =~= Set::<T::Value>::empty());
                            assert(s =~= Set::<T::Value>::full());
                        }
                        Reply::Integer(-1)
                    },
                }
            }
        },
    }
}

/// MIN / MAX reply: the value, or `-1` when there is none.
pub fn extreme_reply<T: RoaringType>(v: Option<T::Value>) -> (r: Reply)
    ensures
        match v {
            None => r == Reply::Integer(-1i64),
            Some(x) => is_value_reply::<T>(r, x),
        },
{
    match v {
        None => Reply::Integer(-1),
        Some(x) => value_reply::<T>(x),
    }
}

/// GETINTARRAY on an existing bitmap: every value, ascending, as replies.
pub fn int_array<T: RoaringType>(bitmap: &T) -> (r: Vec<Reply>)
    ensures
        exists|vals: Seq<T::Value>|
            vals.len() == r@.len() && lists_ascending(value_of::<T>(), vals, bitmap.view_set())
                && forall|i: int| 0 <= i < vals.len() ==> is_value_reply::<T>(#[trigger] r@[i], vals[i]),
{
    let vals = bitmap.iter_values();
    values_reply::<T>(vals.as_slice())
}

// ------------------------------------------------------------------
// Comparisons.
// ------------------------------------------------------------------

/// The relation CONTAINS tests.
#[derive(Debug, Clone, Copy, PartialEq, Eq, Structural)]
pub enum ContainsMode {
    /// No mode argument: the bitmaps share a value.
    Intersects,
    /// `ALL`: the second is a subset of the first.
    All,
    /// `ALL_STRICT`: the second is a proper subset of the first.
    AllStrict,
    /// `EQ`: the bitmaps are equal.
    Equal,
}

/// The ASCII word `ALL`.
pub open spec fn all_word() -> Seq<u8> {
    seq![65u8, 76u8, 76u8]
}

/// The ASCII word `ALL_STRICT`.
pub open spec fn all_strict_word() -> Seq<u8> {
    seq![65u8, 76u8, 76u8, 95u8, 83u8, 84u8, 82u8, 73u8, 67u8, 84u8]
}

/// The ASCII word `EQ`.
pub open spec fn eq_word() -> Seq<u8> {
    seq![69u8, 81u8]
}

/// CONTAINS mode argument (already upper-cased): none means overlap; an
/// explicit `NONE` is refused like any unknown mode.
pub fn parse_contains_mode(mode: Option<&[u8]>) -> (r: Result<ContainsMode, CommandError>)
    ensures
        match mode {
            None => r == Ok::<ContainsMode, CommandError>(ContainsMode::Intersects),
            Some(m) => if m@ == all_word() {
                r == Ok::<ContainsMode, CommandError>(ContainsMode::All)
            } else if m@ == all_strict_word() {
                r == Ok::<ContainsMode, CommandError>(ContainsMode::AllStrict)
            } else if m@ == eq_word() {
                r == Ok::<ContainsMode, CommandError>(ContainsMode::Equal)
            } else {
                r matches Err(e) && e is InvalidMode && e->InvalidMode_mode@ == m@
            },
        },
{
    match mode {
        None => Ok(ContainsMode::Intersects),
        Some(m) => {
            let all: [u8; 3] = [65u8, 76u8, 76u8];
            let strict: [u8; 10] = [65u8, 76u8, 76u8, 95u8, 83u8, 84u8, 82u8, 73u8, 67u8, 84u8];
            let eq: [u8; 2] = [69u8, 81u8];
            assert(all@ =~= all_word());
            assert(strict@ =~= all_strict_word());
            assert(eq@ =~= eq_word());
            if bytes_equal(m, all.as_slice()) {
                Ok(ContainsMode::All)
            } else if bytes_equal(m, strict.as_slice()) {
                Ok(ContainsMode::AllStrict)
            } else if bytes_equal(m, eq.as_slice()) {
                Ok(ContainsMode::Equal)
            } else {
                Err(CommandError::InvalidMode { mode: copy_bytes(m) })
            }
        },
    }
}

/// CONTAINS: whether `b1` and `b2` stand in the relation `mode`.
pub fn contains<T: RoaringType>(b1: &T, b2: &T, mode: ContainsMode) -> (r: bool)
    ensures
        mode == ContainsMode::Intersects ==> r == !b1.view_set().disjoint(b2.view_set()),
        mode == ContainsMode::All ==> r == b2.view_set().subset_of(b1.view_set()),
        mode == ContainsMode::AllStrict ==> r == (b2.view_set().subset_of(b1.view_set())
            && b1.view_set() != b2.view_set()),
        mode == ContainsMode::Equal ==> r == (b1.view_set() == b2.view_set()),
{
    match mode {
        ContainsMode::Intersects => !b1.is_disjoint(b2),
        ContainsMode::All => b2.is_subset(b1),
        ContainsMode::AllStrict => b2.is_subset(b1) && !b1.equals(b2),
        ContainsMode::Equal => b1.equals(b2),
    }
}

/// Whether the number of values the bitmap holds fits a `u64`: always for
/// the 32-bit bitmap, and for the 64-bit one unless it holds all 2^64
/// values.
pub fn countable<T: RoaringType>(bitmap: &T) -> (r: bool)
    ensures
        r == (bitmap.view_set().len() <= u64::MAX),
{
    let ghost s = bitmap.view_set();
    proof {
        T::lemma_value_sets_finite(s);
        T::lemma_value_sets_finite(s.complement());
        T::lemma_full_len();
    }
    match T::value_from_u64(u64::MAX) {
        None => true,
        Some(top) => {
            proof {
                T::lemma_value_int(top, top);
            }
            match bitmap.nth_absent(1) {
                Some(v) => {
                    proof {
                        T::lemma_value_sets_finite(s.insert(v));
                    }
                    true
                },
                None => {
                    proof {
                        s.complement().lemma_len0_is_empty();
                        assert(s =~= Set::<T::Value>::full()) by {
                            assert forall|x: T::Value| s.contains(x) by {
                                assert(!s.complement().contains(x));
                            }
                        }
                    }
                    false
                },
            }
        },
    }
}

// ------------------------------------------------------------------
// Several bits, similarity, export and import.
// ------------------------------------------------------------------

/// GETBITS: for each offset, `1` when the bitmap holds it and `0` otherwise;
/// a missing key gives no replies at all.
pub fn bits_reply<T: RoaringType>(bitmap: Option<&T>, offsets: &[T::Value]) -> (r: Vec<Reply>)
    ensures
        match bitmap {
            None => r@.len() == 0,
            Some(b) => {
                &&& r@.len() == offsets@.len()
                &&& forall|i: int|
                    0 <= i < offsets@.len() ==> #[trigger] r@[i] == Reply::Integer(
                        if b.view_set().contains(offsets@[i]) {
                            1i64
                        } else {
                            0i64
                        },
                    )
            },
        },
{
    let mut out: Vec<Reply> = Vec::new();
    match bitmap {
        None => out,
        Some(b) => {
            let held = b.contains_many(offsets);
            let mut i: usize = 0;
            while i < held.len()
                invariant
                    held@.len() == offsets@.len(),
                    forall|j: int| 0 <= j < offsets@.len() ==> held@[j] == b.view_set().contains(offsets@[j]),
                    i <= held@.len(),
                    out@.len() == i,
                    forall|j: int|
                        0 <= j < i ==> #[trigger] out@[j] == Reply::Integer(
                            if b.view_set().contains(offsets@[j]) {
                                1i64
                            } else {
                                0i64
                            },
                        ),
                decreases held@.len() - i,
            {
                if held[i] {
                    out.push(Reply::Integer(1));
                } else {
                    out.push(Reply::Integer(0));
                }
                i += 1;
            }
            out
        },
    }
}

/// JACCARD: the two counts the index is the ratio of, the number of shared
/// values and the number of values in either bitmap (both 0 when the union
/// is empty, where the index is 0).
pub fn jaccard_counts<T: RoaringType>(b1: &T, b2: &T) -> (r: (u64, u64))
    requires
        b1.view_set().union(b2.view_set()).len() <= u64::MAX,
    ensures
        r.0 == b1.view_set().intersect(b2.view_set()).len(),
        r.1 == b1.view_set().union(b2.view_set()).len(),
{
    let ghost both = b1.view_set().intersect(b2.view_set());
    let ghost either = b1.view_set().union(b2.view_set());
    proof {
        T::lemma_value_sets_finite(either);
        assert(both.subset_of(either));
        vstd::set_lib::lemma_len_subset(both, either);
    }
    let union = b1.union_len(b2);
    if union == 0 {
        return (0, 0);
    }
    let inter = b1.intersection_len(b2);
    (inter, union)
}

/// EXPORT: re-chooses the storage of the bitmap (its values stay), then
/// gives it in the portable serialized form.
pub fn export_bytes<T: RoaringType>(bitmap: &mut T) -> (r: Vec<u8>)
    ensures
        final(bitmap).view_set() == old(bitmap).view_set(),
        !final(bitmap).optimize_changes(),
        T::portable_decode(r@) == Some(old(bitmap).view_set()),
        r@.len() == final(bitmap).serialized_len(),
{
    bitmap.optimize();
    let mut out: Vec<u8> = Vec::new();
    bitmap.serialize_into(&mut out);
    assert(out@.subrange(0, out@.len() as int) =~= out@);
    out
}

/// What IMPORT makes of a bitmap holding `old` and the bytes `bytes`: its
/// union with the values the bytes encode, or `None` when they encode no
/// bitmap.
pub open spec fn imported<T: RoaringType>(old: Set<T::Value>, bytes: Seq<u8>) -> Option<Set<T::Value>> {
    match T::portable_decode(bytes) {
        Some(s) => Some(old.union(s)),
        None => None,
    }
}

/// IMPORT: reads a bitmap in the portable serialized form and merges it
/// into `bitmap` (a missing key imports into an empty bitmap); bytes that
/// encode no bitmap are refused and leave it as it was.
pub fn import_merge<T: RoaringType>(bitmap: &mut T, bytes: &[u8]) -> (r: Result<(), CommandError>)
    ensures
        match imported::<T>(old(bitmap).view_set(), bytes@) {
            Some(s) => r is Ok && final(bitmap).view_set() == s,
            None => r matches Err(e) && e is BadBinary && final(bitmap).view_set() == old(
                bitmap,
            ).view_set(),
        },
{
    match T::deserialize_from(bytes) {
        Ok(decoded) => {
            bitmap.bitor_assign(&decoded);
            Ok(())
        },
        Err(e) => Err(e),
    }
}

} // verus!
