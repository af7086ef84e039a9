//! Container statistics and their `R.STAT` text and JSON renderings.
use vstd::prelude::*;
use vstd::string::StringSliceAdditionalSpecFns;
use crate::commands::{decimal_bytes, decimal_digits};

verus! {

/// Statistics of a bitmap's containers.
#[derive(Debug, Clone, Copy)]
pub struct BitmapStats {
    pub cardinality: u64,
    pub n_containers: u64,
    pub n_array_containers: u64,
    pub n_values_array_containers: u64,
    pub n_bytes_array_containers: u64,
    pub n_bitset_containers: u64,
    pub n_values_bitset_containers: u64,
    pub n_bytes_bitset_containers: u64,
    pub n_run_containers: u64,
    pub n_values_run_containers: u64,
    pub n_bytes_run_containers: u64,
    pub max_value: Option<u64>,
    pub min_value: Option<u64>,
}

/// Appends the bytes of `s`.
pub fn push_str(out: &mut Vec<u8>, s: &str)
    ensures
        final(out)@ == old(out)@ + s.spec_bytes(),
{
    let bytes = s.as_bytes();
    let ghost start = out@;
    let mut i: usize = 0;
    while i < bytes.len()
        invariant
            i <= bytes@.len(),
            bytes@ == s.spec_bytes(),
            out@ == start + bytes@.subrange(0, i as int),
        decreases bytes@.len() - i,
    {
        out.push(bytes[i]);
        assert(bytes@.subrange(0, i + 1) =~= bytes@.subrange(0, i as int).push(bytes@[i as int]));
        i += 1;
    }
    assert(bytes@.subrange(0, bytes@.len() as int) =~= bytes@);
}

/// Appends the decimal text of `n`.
pub fn push_decimal(out: &mut Vec<u8>, n: u64)
    ensures
        final(out)@ == old(out)@ + decimal_digits(n as nat),
{
    let digits = decimal_bytes(n);
    let ghost start = out@;
    let mut i: usize = 0;
    while i < digits.len()
        invariant
            i <= digits@.len(),
            digits@ == decimal_digits(n as nat),
            out@ == start + digits@.subrange(0, i as int),
        decreases digits@.len() - i,
    {
        out.push(digits[i]);
        assert(digits@.subrange(0, i + 1) =~= digits@.subrange(0, i as int).push(digits@[i as int]));
        i += 1;
    }
    assert(digits@.subrange(0, digits@.len() as int) =~= digits@);
}

/// The decimal text of an optional value, with `none` standing for its absence.
pub open spec fn optional_digits(v: Option<u64>, none: Seq<u8>) -> Seq<u8> {
    match v {
        Some(x) => decimal_digits(x as nat),
        None => none,
    }
}

/// Appends the decimal text of `v`, or `none` when it is absent.
fn push_optional(out: &mut Vec<u8>, v: Option<u64>, none: &str)
    ensures
        final(out)@ == old(out)@ + optional_digits(v, none.spec_bytes()),
{
    match v {
        Some(x) => push_decimal(out, x),
        None => push_str(out, none),
    }
}

/// One container kind in the text rendering: `head` and the count, then
/// its values and bytes lines under the given labels.
pub open spec fn text_kind(head: Seq<u8>, values: Seq<u8>, bytes: Seq<u8>, n: u64, v: u64, b: u64) -> Seq<u8> {
    head + decimal_digits(n as nat) + values + decimal_digits(v as nat) + bytes + decimal_digits(
        b as nat,
    )
}

fn push_kind(out: &mut Vec<u8>, head: &str, values: &str, bytes: &str, n: u64, v: u64, b: u64)
    ensures
        final(out)@ =~= old(out)@ + text_kind(head.spec_bytes(), values.spec_bytes(), bytes.spec_bytes(), n, v, b),
{
    push_str(out, head);
    push_decimal(out, n);
    push_str(out, values);
    push_decimal(out, v);
    push_str(out, bytes);
    push_decimal(out, b);
}

/// The container breakdown lines shared by both text renderings.
pub open spec fn text_breakdown(st: BitmapStats) -> Seq<u8> {
    text_kind(
        "\nnumber of array containers: ".spec_bytes(),
        "\narray container values: ".spec_bytes(),
        "\narray container bytes: ".spec_bytes(),
        st.n_array_containers,
        st.n_values_array_containers,
        st.n_bytes_array_containers,
    ) + text_kind(
        "\nbitset containers: ".spec_bytes(),
        "\nbitset container values: ".spec_bytes(),
        "\nbitset container bytes: ".spec_bytes(),
        st.n_bitset_containers,
        st.n_values_bitset_containers,
        st.n_bytes_bitset_containers,
    ) + text_kind(
        "\nrun containers: ".spec_bytes(),
        "\nrun container values: ".spec_bytes(),
        "\nrun container bytes: ".spec_bytes(),
        st.n_run_containers,
        st.n_values_run_containers,
        st.n_bytes_run_containers,
    )
}

fn push_text_breakdown(out: &mut Vec<u8>, st: &BitmapStats)
    ensures
        final(out)@ =~= old(out)@ + text_breakdown(*st),
{
    push_kind(
        out,
        "\nnumber of array containers: ",
        "\narray container values: ",
        "\narray container bytes: ",
        st.n_array_containers,
        st.n_values_array_containers,
        st.n_bytes_array_containers,
    );
    push_kind(
        out,
        "\nbitset containers: ",
        "\nbitset container values: ",
        "\nbitset container bytes: ",
        st.n_bitset_containers,
        st.n_values_bitset_containers,
        st.n_bytes_bitset_containers,
    );
    push_kind(
        out,
        "\nrun containers: ",
        "\nrun container values: ",
        "\nrun container bytes: ",
        st.n_run_containers,
        st.n_values_run_containers,
        st.n_bytes_run_containers,
    );
}

/// The container breakdown objects shared by both JSON renderings.
pub open spec fn json_breakdown(st: BitmapStats) -> Seq<u8> {
    text_kind(
        "\",\"array_container\":{\"number_of_containers\":\"".spec_bytes(),
        "\",\"container_cardinality\":\"".spec_bytes(),
        "\",\"container_allocated_bytes\":\"".spec_bytes(),
        st.n_array_containers,
        st.n_values_array_containers,
        st.n_bytes_array_containers,
    ) + text_kind(
        "\"},\"bitset_container\":{\"number_of_containers\":\"".spec_bytes(),
        "\",\"container_cardinality\":\"".spec_bytes(),
        "\",\"container_allocated_bytes\":\"".spec_bytes(),
        st.n_bitset_containers,
        st.n_values_bitset_containers,
        st.n_bytes_bitset_containers,
    ) + text_kind(
        "\"},\"run_container\":{\"number_of_containers\":\"".spec_bytes(),
        "\",\"container_cardinality\":\"".spec_bytes(),
        "\",\"container_allocated_bytes\":\"".spec_bytes(),
        st.n_run_containers,
        st.n_values_run_containers,
        st.n_bytes_run_containers,
    ) + "\"}}".spec_bytes()
}

fn push_json_breakdown(out: &mut Vec<u8>, st: &BitmapStats)
    ensures
        final(out)@ =~= old(out)@ + json_breakdown(*st),
{
    push_kind(
        out,
        "\",\"array_container\":{\"number_of_containers\":\"",
        "\",\"container_cardinality\":\"",
        "\",\"container_allocated_bytes\":\"",
        st.n_array_containers,
        st.n_values_array_containers,
        st.n_bytes_array_containers,
    );
    push_kind(
        out,
        "\"},\"bitset_container\":{\"number_of_containers\":\"",
        "\",\"container_cardinality\":\"",
        "\",\"container_allocated_bytes\":\"",
        st.n_bitset_containers,
        st.n_values_bitset_containers,
        st.n_bytes_bitset_containers,
    );
    push_kind(
        out,
        "\"},\"run_container\":{\"number_of_containers\":\"",
        "\",\"container_cardinality\":\"",
        "\",\"container_allocated_bytes\":\"",
        st.n_run_containers,
        st.n_values_run_containers,
        st.n_bytes_run_containers,
    );
    push_str(out, "\"}}");
}

/// The `R.STAT` text of a 32-bit bitmap; a missing minimum or maximum reads 0.
pub open spec fn stat_text32_spec(st: BitmapStats) -> Seq<u8> {
    "type: bitmap\ncardinality: ".spec_bytes() + decimal_digits(st.cardinality as nat)
        + "\nnumber of containers: ".spec_bytes() + decimal_digits(st.n_containers as nat)
        + "\nmax value: ".spec_bytes() + optional_digits(st.max_value, "0".spec_bytes())
        + "\nmin value: ".spec_bytes() + optional_digits(st.min_value, "0".spec_bytes())
        + text_breakdown(st)
}

/// Renders the `R.STAT` text of a 32-bit bitmap.
pub fn stat_text32(st: &BitmapStats) -> (r: Vec<u8>)
    ensures
        r@ == stat_text32_spec(*st),
{
    let mut out: Vec<u8> = Vec::new();
    push_str(&mut out, "type: bitmap\ncardinality: ");
    push_decimal(&mut out, st.cardinality);
    push_str(&mut out, "\nnumber of containers: ");
    push_decimal(&mut out, st.n_containers);
    push_str(&mut out, "\nmax value: ");
    push_optional(&mut out, st.max_value, "0");
    push_str(&mut out, "\nmin value: ");
    push_optional(&mut out, st.min_value, "0");
    push_text_breakdown(&mut out, st);
    assert(out@ =~= stat_text32_spec(*st));
    out
}

/// The `R.STAT JSON` text of a 32-bit bitmap; a missing minimum or maximum reads 0.
pub open spec fn stat_json32_spec(st: BitmapStats) -> Seq<u8> {
    "{\"type\":\"bitmap\",\"cardinality\":\"".spec_bytes() + decimal_digits(st.cardinality as nat)
        + "\",\"number_of_containers\":\"".spec_bytes() + decimal_digits(st.n_containers as nat)
        + "\",\"max_value\":\"".spec_bytes() + optional_digits(st.max_value, "0".spec_bytes())
        + "\",\"min_value\":\"".spec_bytes() + optional_digits(st.min_value, "0".spec_bytes())
        + json_breakdown(st)
}

/// Renders the `R.STAT JSON` text of a 32-bit bitmap.
pub fn stat_json32(st: &BitmapStats) -> (r: Vec<u8>)
    ensures
        r@ == stat_json32_spec(*st),
{
    let mut out: Vec<u8> = Vec::new();
    push_str(&mut out, "{\"type\":\"bitmap\",\"cardinality\":\"");
    push_decimal(&mut out, st.cardinality);
    push_str(&mut out, "\",\"number_of_containers\":\"");
    push_decimal(&mut out, st.n_containers);
    push_str(&mut out, "\",\"max_value\":\"");
    push_optional(&mut out, st.max_value, "0");
    push_str(&mut out, "\",\"min_value\":\"");
    push_optional(&mut out, st.min_value, "0");
    push_json_breakdown(&mut out, st);
    assert(out@ =~= stat_json32_spec(*st));
    out
}

/// The `R.STAT` text of a 64-bit bitmap, with its serialized size; a missing
/// minimum or maximum reads `(none)`.
pub open spec fn stat_text64_spec(st: BitmapStats, serialized: usize) -> Seq<u8> {
    "type: bitmap64\ncardinality: ".spec_bytes() + decimal_digits(st.cardinality as nat)
        + "\nnumber of containers: ".spec_bytes() + decimal_digits(st.n_containers as nat)
        + "\nmax value: ".spec_bytes() + optional_digits(st.max_value, "(none)".spec_bytes())
        + "\nmin value: ".spec_bytes() + optional_digits(st.min_value, "(none)".spec_bytes())
        + "\nserialized bytes: ".spec_bytes() + decimal_digits(serialized as nat) + text_breakdown(st)
}

/// Renders the `R.STAT` text of a 64-bit bitmap.
pub fn stat_text64(st: &BitmapStats, serialized: usize) -> (r: Vec<u8>)
    ensures
        r@ == stat_text64_spec(*st, serialized),
{
    let mut out: Vec<u8> = Vec::new();
    push_str(&mut out, "type: bitmap64\ncardinality: ");
    push_decimal(&mut out, st.cardinality);
    push_str(&mut out, "\nnumber of containers: ");
    push_decimal(&mut out, st.n_containers);
    push_str(&mut out, "\nmax value: ");
    push_optional(&mut out, st.max_value, "(none)");
    push_str(&mut out, "\nmin value: ");
    push_optional(&mut out, st.min_value, "(none)");
    push_str(&mut out, "\nserialized bytes: ");
    push_decimal(&mut out, serialized as u64);
    push_text_breakdown(&mut out, st);
    assert(out@ =~= stat_text64_spec(*st, serialized));
    out
}

/// The `R.STAT JSON` text of a 64-bit bitmap, with its serialized size; a
/// missing minimum or maximum reads `null`.
pub open spec fn stat_json64_spec(st: BitmapStats, serialized: usize) -> Seq<u8> {
    "{\"type\":\"bitmap64\",\"cardinality\":\"".spec_bytes() + decimal_digits(st.cardinality as nat)
        + "\",\"number_of_containers\":\"".spec_bytes() + decimal_digits(st.n_containers as nat)
        + "\",\"max_value\":\"".spec_bytes() + optional_digits(st.max_value, "null".spec_bytes())
        + "\",\"min_value\":\"".spec_bytes() + optional_digits(st.min_value, "null".spec_bytes())
        + "\",\"serialized_bytes\":\"".spec_bytes() + decimal_digits(serialized as nat) + json_breakdown(st)
}

/// Renders the `R.STAT JSON` text of a 64-bit bitmap.
pub fn stat_json64(st: &BitmapStats, serialized: usize) -> (r: Vec<u8>)
    ensures
        r@ == stat_json64_spec(*st, serialized),
{
    let mut out: Vec<u8> = Vec::new();
    push_str(&mut out, "{\"type\":\"bitmap64\",\"cardinality\":\"");
    push_decimal(&mut out, st.cardinality);
    push_str(&mut out, "\",\"number_of_containers\":\"");
    push_decimal(&mut out, st.n_containers);
    push_str(&mut out, "\",\"max_value\":\"");
    push_optional(&mut out, st.max_value, "null");
    push_str(&mut out, "\",\"min_value\":\"");
    push_optional(&mut out, st.min_value, "null");
    push_str(&mut out, "\",\"serialized_bytes\":\"");
    push_decimal(&mut out, serialized as u64);
    push_json_breakdown(&mut out, st);
    assert(out@ =~= stat_json64_spec(*st, serialized));
    out
}

/// The container and value counts of a statistics record, by index:
/// containers, then (count, values, bytes) for arrays, bitsets and runs.
pub open spec fn stat_count(st: BitmapStats, k: int) -> u64 {
    if k == 0 {
        st.n_containers
    } else if k == 1 {
        st.n_array_containers
    } else if k == 2 {
        st.n_values_array_containers
    } else if k == 3 {
        st.n_bytes_array_containers
    } else if k == 4 {
        st.n_bitset_containers
    } else if k == 5 {
        st.n_values_bitset_containers
    } else if k == 6 {
        st.n_bytes_bitset_containers
    } else if k == 7 {
        st.n_run_containers
    } else if k == 8 {
        st.n_values_run_containers
    } else {
        st.n_bytes_run_containers
    }
}

/// The sum of count `k` over `parts`, in wrapping 64-bit arithmetic.
pub open spec fn wrapped_total(parts: Seq<BitmapStats>, k: int) -> u64
    decreases parts.len(),
{
    if parts.len() == 0 {
        0
    } else {
        wrapped_total(parts.drop_last(), k).wrapping_add(stat_count(parts.last(), k))
    }
}

/// Adds up the container and value counts of several bitmaps (the 32-bit
/// partitions of a 64-bit bitmap); cardinality and extremes are left empty.
pub fn aggregate_stats(parts: &[BitmapStats]) -> (r: BitmapStats)
    ensures
        forall|k: int| 0 <= k < 10 ==> #[trigger] stat_count(r, k) == wrapped_total(parts@, k),
        r.cardinality == 0,
        r.max_value is None,
        r.min_value is None,
{
    let mut t = BitmapStats {
        cardinality: 0,
        n_containers: 0,
        n_array_containers: 0,
        n_values_array_containers: 0,
        n_bytes_array_containers: 0,
        n_bitset_containers: 0,
        n_values_bitset_containers: 0,
        n_bytes_bitset_containers: 0,
        n_run_containers: 0,
        n_values_run_containers: 0,
        n_bytes_run_containers: 0,
        max_value: None,
        min_value: None,
    };
    let mut i: usize = 0;
    while i < parts.len()
        invariant
            i <= parts@.len(),
            forall|k: int| 0 <= k < 10 ==> #[trigger] stat_count(t, k) == wrapped_total(parts@.subrange(0, i as int), k),
            t.cardinality == 0,
            t.max_value is None,
            t.min_value is None,
        decreases parts@.len() - i,
    {
        let s = parts[i];
        let ghost before = t;
        t.n_containers = t.n_containers.wrapping_add(s.n_containers);
        t.n_array_containers = t.n_array_containers.wrapping_add(s.n_array_containers);
        t.n_values_array_containers = t.n_values_array_containers.wrapping_add(s.n_values_array_containers);
        t.n_bytes_array_containers = t.n_bytes_array_containers.wrapping_add(s.n_bytes_array_containers);
        t.n_bitset_containers = t.n_bitset_containers.wrapping_add(s.n_bitset_containers);
        t.n_values_bitset_containers = t.n_values_bitset_containers.wrapping_add(s.n_values_bitset_containers);
        t.n_bytes_bitset_containers = t.n_bytes_bitset_containers.wrapping_add(s.n_bytes_bitset_containers);
        t.n_run_containers = t.n_run_containers.wrapping_add(s.n_run_containers);
        t.n_values_run_containers = t.n_values_run_containers.wrapping_add(s.n_values_run_containers);
        t.n_bytes_run_containers = t.n_bytes_run_containers.wrapping_add(s.n_bytes_run_containers);
        proof {
            let next = parts@.subrange(0, i + 1);
            assert(next.drop_last() =~= parts@.subrange(0, i as int));
            assert forall|k: int| 0 <= k < 10 implies #[trigger] stat_count(t, k) == wrapped_total(next, k) by {
                assert(stat_count(before, k) == wrapped_total(parts@.subrange(0, i as int), k));
            }
        }
        i += 1;
    }
    assert(parts@.subrange(0, parts@.len() as int) =~= parts@);
    t
}

} // verus!
