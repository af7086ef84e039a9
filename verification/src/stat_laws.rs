//! What the `R.STAT` renderings say, read back label by label: each
//! figure stands right after its label, and the cardinality and the
//! extremes are those of the bitmap itself.
use vstd::prelude::*;
use vstd::string::StringSliceAdditionalSpecFns;
use roaring::{RoaringBitmap, RoaringTreemap};
use crate::bitmap_type::{RoaringType, is_least, is_greatest};
use crate::bitmap32::val32;
use crate::bitmap64::val64;
use crate::commands::{decimal_digits, value_of};
use crate::stats::{BitmapStats, optional_digits, text_kind, text_breakdown, json_breakdown};
use crate::bitmap64::bitmap64_serialized_len;

verus! {

/// `text` holds `label`, then `value`, then `next`: reading the text, the
/// field under `label` is `value`, ended by the label that follows.
pub open spec fn shows(text: Seq<u8>, label: Seq<u8>, value: Seq<u8>, next: Seq<u8>) -> bool {
    exists|p: Seq<u8>, q: Seq<u8>| text == p + label + value + next + q
}

/// `text` ends with `label` and then `value`.
pub open spec fn ends_showing(text: Seq<u8>, label: Seq<u8>, value: Seq<u8>) -> bool {
    exists|p: Seq<u8>| text == p + label + value
}

/// The extremes a 32-bit statistics record gives are those of the bitmap.
proof fn lemma_extreme_digits_32(b: RoaringBitmap, st: BitmapStats, g: u32)
    requires
        b.stats_fit(st),
    ensures
        is_greatest(value_of::<RoaringBitmap>(), b.view_set(), g) ==> optional_digits(
            st.max_value,
            "0".spec_bytes(),
        ) == decimal_digits(g as nat),
        is_least(value_of::<RoaringBitmap>(), b.view_set(), g) ==> optional_digits(
            st.min_value,
            "0".spec_bytes(),
        ) == decimal_digits(g as nat),
{
    let s = b.view_set();
    if is_greatest(value_of::<RoaringBitmap>(), s, g) {
        assert(s.contains(g));
        let m = st.max_value.unwrap();
        assert(is_greatest(val32(), s, m as u32));
        assert(g <= m && m <= g);
    }
    if is_least(value_of::<RoaringBitmap>(), s, g) {
        assert(s.contains(g));
        let m = st.min_value.unwrap();
        assert(is_least(val32(), s, m as u32));
        assert(g >= m && m >= g);
    }
}

/// The extremes a 64-bit statistics record gives are those of the bitmap.
proof fn lemma_extreme_digits_64(b: RoaringTreemap, st: BitmapStats, g: u64)
    requires
        b.stats_fit(st),
    ensures
        is_greatest(value_of::<RoaringTreemap>(), b.view_set(), g) ==> optional_digits(
            st.max_value,
            "(none)".spec_bytes(),
        ) == decimal_digits(g as nat) && optional_digits(st.max_value, "null".spec_bytes())
            == decimal_digits(g as nat),
        is_least(value_of::<RoaringTreemap>(), b.view_set(), g) ==> optional_digits(
            st.min_value,
            "(none)".spec_bytes(),
        ) == decimal_digits(g as nat) && optional_digits(st.min_value, "null".spec_bytes())
            == decimal_digits(g as nat),
{
    let s = b.view_set();
    if is_greatest(value_of::<RoaringTreemap>(), s, g) {
        assert(s.contains(g));
        let m = st.max_value.unwrap();
        assert(is_greatest(val64(), s, m));
        assert(g <= m && m <= g);
    }
    if is_least(value_of::<RoaringTreemap>(), s, g) {
        assert(s.contains(g));
        let m = st.min_value.unwrap();
        assert(is_least(val64(), s, m));
        assert(g >= m && m >= g);
    }
}

/// A 32-bit statistics record of an empty bitmap gives no extremes.
proof fn lemma_no_extremes_32(b: RoaringBitmap, st: BitmapStats)
    requires
        b.stats_fit(st),
    ensures
        b.view_set() == Set::<u32>::empty() ==> st.max_value is None && st.min_value is None,
{
    if b.view_set() == Set::<u32>::empty() {
        if let Some(m) = st.max_value {
            assert(b.view_set().contains(m as u32));
        }
        if let Some(m) = st.min_value {
            assert(b.view_set().contains(m as u32));
        }
    }
}

/// A 64-bit statistics record of an empty bitmap gives no extremes.
proof fn lemma_no_extremes_64(b: RoaringTreemap, st: BitmapStats)
    requires
        b.stats_fit(st),
    ensures
        b.view_set() == Set::<u64>::empty() ==> st.max_value is None && st.min_value is None,
{
    if b.view_set() == Set::<u64>::empty() {
        if let Some(m) = st.max_value {
            assert(b.view_set().contains(m));
        }
        if let Some(m) = st.min_value {
            assert(b.view_set().contains(m));
        }
    }
}

/// `text` begins with `first`.
pub open spec fn starts_with(text: Seq<u8>, first: Seq<u8>) -> bool {
    exists|q: Seq<u8>| text == first + q
}

proof fn lemma_shows_append(t: Seq<u8>, b: Seq<u8>, l: Seq<u8>, v: Seq<u8>, n: Seq<u8>)
    requires
        shows(t, l, v, n),
    ensures
        shows(t + b, l, v, n),
{
    let (p, q) = choose|p: Seq<u8>, q: Seq<u8>| t == p + l + v + n + q;
    assert(t + b =~= p + l + v + n + (q + b));
}

proof fn lemma_shows_prepend(a: Seq<u8>, t: Seq<u8>, l: Seq<u8>, v: Seq<u8>, n: Seq<u8>)
    requires
        shows(t, l, v, n),
    ensures
        shows(a + t, l, v, n),
{
    let (p, q) = choose|p: Seq<u8>, q: Seq<u8>| t == p + l + v + n + q;
    assert(a + t =~= (a + p) + l + v + n + q);
}

proof fn lemma_ends_prepend(a: Seq<u8>, t: Seq<u8>, l: Seq<u8>, v: Seq<u8>)
    requires
        ends_showing(t, l, v),
    ensures
        ends_showing(a + t, l, v),
{
    let p = choose|p: Seq<u8>| t == p + l + v;
    assert(a + t =~= (a + p) + l + v);
}

proof fn lemma_starts_append(t: Seq<u8>, b: Seq<u8>, n: Seq<u8>)
    requires
        starts_with(t, n),
    ensures
        starts_with(t + b, n),
{
    let q = choose|q: Seq<u8>| t == n + q;
    assert(t + b =~= n + (q + b));
}

proof fn lemma_shows_across(a: Seq<u8>, b: Seq<u8>, l: Seq<u8>, v: Seq<u8>, n: Seq<u8>)
    requires
        ends_showing(a, l, v),
        starts_with(b, n),
    ensures
        shows(a + b, l, v, n),
{
    let p = choose|p: Seq<u8>| a == p + l + v;
    let q = choose|q: Seq<u8>| b == n + q;
    assert(a + b =~= p + l + v + n + q);
}

proof fn lemma_text32_field_0(b: RoaringBitmap, st: BitmapStats)
    ensures
        shows(b.stat_text_spec(st), ("type: bitmap\ncardinality: ".spec_bytes()), decimal_digits(st.cardinality as nat), "\nnumber of containers: ".spec_bytes()),
{
    assert(b.stat_text_spec(st) == "type: bitmap\ncardinality: ".spec_bytes() + decimal_digits(st.cardinality as nat) + "\nnumber of containers: ".spec_bytes() + decimal_digits(st.n_containers as nat) + "\nmax value: ".spec_bytes() + optional_digits(st.max_value, "0".spec_bytes()) + "\nmin value: ".spec_bytes() + optional_digits(st.min_value, "0".spec_bytes()) + text_breakdown(st));
    assert("type: bitmap\ncardinality: ".spec_bytes() + decimal_digits(st.cardinality as nat) + "\nnumber of containers: ".spec_bytes() =~= (Seq::<u8>::empty()) + ("type: bitmap\ncardinality: ".spec_bytes()) + decimal_digits(st.cardinality as nat) + "\nnumber of containers: ".spec_bytes() + Seq::<u8>::empty());
    lemma_shows_append("type: bitmap\ncardinality: ".spec_bytes() + decimal_digits(st.cardinality as nat) + "\nnumber of containers: ".spec_bytes(), decimal_digits(st.n_containers as nat), ("type: bitmap\ncardinality: ".spec_bytes()), decimal_digits(st.cardinality as nat), "\nnumber of containers: ".spec_bytes());
    lemma_shows_append("type: bitmap\ncardinality: ".spec_bytes() + decimal_digits(st.cardinality as nat) + "\nnumber of containers: ".spec_bytes() + decimal_digits(st.n_containers as nat), "\nmax value: ".spec_bytes(), ("type: bitmap\ncardinality: ".spec_bytes()), decimal_digits(st.cardinality as nat), "\nnumber of containers: ".spec_bytes());
    lemma_shows_append("type: bitmap\ncardinality: ".spec_bytes() + decimal_digits(st.cardinality as nat) + "\nnumber of containers: ".spec_bytes() + decimal_digits(st.n_containers as nat) + "\nmax value: ".spec_bytes(), optional_digits(st.max_value, "0".spec_bytes()), ("type: bitmap\ncardinality: ".spec_bytes()), decimal_digits(st.cardinality as nat), "\nnumber of containers: ".spec_bytes());
    lemma_shows_append("type: bitmap\ncardinality: ".spec_bytes() + decimal_digits(st.cardinality as nat) + "\nnumber of containers: ".spec_bytes() + decimal_digits(st.n_containers as nat) + "\nmax value: ".spec_bytes() + optional_digits(st.max_value, "0".spec_bytes()), "\nmin value: ".spec_bytes(), ("type: bitmap\ncardinality: ".spec_bytes()), decimal_digits(st.cardinality as nat), "\nnumber of containers: ".spec_bytes());
    lemma_shows_append("type: bitmap\ncardinality: ".spec_bytes() + decimal_digits(st.cardinality as nat) + "\nnumber of containers: ".spec_bytes() + decimal_digits(st.n_containers as nat) + "\nmax value: ".spec_bytes() + optional_digits(st.max_value, "0".spec_bytes()) + "\nmin value: ".spec_bytes(), optional_digits(st.min_value, "0".spec_bytes()), ("type: bitmap\ncardinality: ".spec_bytes()), decimal_digits(st.cardinality as nat), "\nnumber of containers: ".spec_bytes());
    lemma_shows_append("type: bitmap\ncardinality: ".spec_bytes() + decimal_digits(st.cardinality as nat) + "\nnumber of containers: ".spec_bytes() + decimal_digits(st.n_containers as nat) + "\nmax value: ".spec_bytes() + optional_digits(st.max_value, "0".spec_bytes()) + "\nmin value: ".spec_bytes() + optional_digits(st.min_value, "0".spec_bytes()), text_breakdown(st), ("type: bitmap\ncardinality: ".spec_bytes()), decimal_digits(st.cardinality as nat), "\nnumber of containers: ".spec_bytes());
}

proof fn lemma_text32_field_1(b: RoaringBitmap, st: BitmapStats)
    ensures
        shows(b.stat_text_spec(st), ("\nnumber of containers: ".spec_bytes()), decimal_digits(st.n_containers as nat), "\nmax value: ".spec_bytes()),
{
    assert(b.stat_text_spec(st) == "type: bitmap\ncardinality: ".spec_bytes() + decimal_digits(st.cardinality as nat) + "\nnumber of containers: ".spec_bytes() + decimal_digits(st.n_containers as nat) + "\nmax value: ".spec_bytes() + optional_digits(st.max_value, "0".spec_bytes()) + "\nmin value: ".spec_bytes() + optional_digits(st.min_value, "0".spec_bytes()) + text_breakdown(st));
    assert("type: bitmap\ncardinality: ".spec_bytes() + decimal_digits(st.cardinality as nat) + "\nnumber of containers: ".spec_bytes() + decimal_digits(st.n_containers as nat) + "\nmax value: ".spec_bytes() =~= ("type: bitmap\ncardinality: ".spec_bytes() + decimal_digits(st.cardinality as nat)) + ("\nnumber of containers: ".spec_bytes()) + decimal_digits(st.n_containers as nat) + "\nmax value: ".spec_bytes() + Seq::<u8>::empty());
    lemma_shows_append("type: bitmap\ncardinality: ".spec_bytes() + decimal_digits(st.cardinality as nat) + "\nnumber of containers: ".spec_bytes() + decimal_digits(st.n_containers as nat) + "\nmax value: ".spec_bytes(), optional_digits(st.max_value, "0".spec_bytes()), ("\nnumber of containers: ".spec_bytes()), decimal_digits(st.n_containers as nat), "\nmax value: ".spec_bytes());
    lemma_shows_append("type: bitmap\ncardinality: ".spec_bytes() + decimal_digits(st.cardinality as nat) + "\nnumber of containers: ".spec_bytes() + decimal_digits(st.n_containers as nat) + "\nmax value: ".spec_bytes() + optional_digits(st.max_value, "0".spec_bytes()), "\nmin value: ".spec_bytes(), ("\nnumber of containers: ".spec_bytes()), decimal_digits(st.n_containers as nat), "\nmax value: ".spec_bytes());
    lemma_shows_append("type: bitmap\ncardinality: ".spec_bytes() + decimal_digits(st.cardinality as nat) + "\nnumber of containers: ".spec_bytes() + decimal_digits(st.n_containers as nat) + "\nmax value: ".spec_bytes() + optional_digits(st.max_value, "0".spec_bytes()) + "\nmin value: ".spec_bytes(), optional_digits(st.min_value, "0".spec_bytes()), ("\nnumber of containers: ".spec_bytes()), decimal_digits(st.n_containers as nat), "\nmax value: ".spec_bytes());
    lemma_shows_append("type: bitmap\ncardinality: ".spec_bytes() + decimal_digits(st.cardinality as nat) + "\nnumber of containers: ".spec_bytes() + decimal_digits(st.n_containers as nat) + "\nmax value: ".spec_bytes() + optional_digits(st.max_value, "0".spec_bytes()) + "\nmin value: ".spec_bytes() + optional_digits(st.min_value, "0".spec_bytes()), text_breakdown(st), ("\nnumber of containers: ".spec_bytes()), decimal_digits(st.n_containers as nat), "\nmax value: ".spec_bytes());
}

proof fn lemma_text32_field_2(b: RoaringBitmap, st: BitmapStats)
    ensures
        shows(b.stat_text_spec(st), ("\nmax value: ".spec_bytes()), optional_digits(st.max_value, "0".spec_bytes()), "\nmin value: ".spec_bytes()),
{
    assert(b.stat_text_spec(st) == "type: bitmap\ncardinality: ".spec_bytes() + decimal_digits(st.cardinality as nat) + "\nnumber of containers: ".spec_bytes() + decimal_digits(st.n_containers as nat) + "\nmax value: ".spec_bytes() + optional_digits(st.max_value, "0".spec_bytes()) + "\nmin value: ".spec_bytes() + optional_digits(st.min_value, "0".spec_bytes()) + text_breakdown(st));
    assert("type: bitmap\ncardinality: ".spec_bytes() + decimal_digits(st.cardinality as nat) + "\nnumber of containers: ".spec_bytes() + decimal_digits(st.n_containers as nat) + "\nmax value: ".spec_bytes() + optional_digits(st.max_value, "0".spec_bytes()) + "\nmin value: ".spec_bytes() =~= ("type: bitmap\ncardinality: ".spec_bytes() + decimal_digits(st.cardinality as nat) + "\nnumber of containers: ".spec_bytes() + decimal_digits(st.n_containers as nat)) + ("\nmax value: ".spec_bytes()) + optional_digits(st.max_value, "0".spec_bytes()) + "\nmin value: ".spec_bytes() + Seq::<u8>::empty());
    lemma_shows_append("type: bitmap\ncardinality: ".spec_bytes() + decimal_digits(st.cardinality as nat) + "\nnumber of containers: ".spec_bytes() + decimal_digits(st.n_containers as nat) + "\nmax value: ".spec_bytes() + optional_digits(st.max_value, "0".spec_bytes()) + "\nmin value: ".spec_bytes(), optional_digits(st.min_value, "0".spec_bytes()), ("\nmax value: ".spec_bytes()), optional_digits(st.max_value, "0".spec_bytes()), "\nmin value: ".spec_bytes());
    lemma_shows_append("type: bitmap\ncardinality: ".spec_bytes() + decimal_digits(st.cardinality as nat) + "\nnumber of containers: ".spec_bytes() + decimal_digits(st.n_containers as nat) + "\nmax value: ".spec_bytes() + optional_digits(st.max_value, "0".spec_bytes()) + "\nmin value: ".spec_bytes() + optional_digits(st.min_value, "0".spec_bytes()), text_breakdown(st), ("\nmax value: ".spec_bytes()), optional_digits(st.max_value, "0".spec_bytes()), "\nmin value: ".spec_bytes());
}

proof fn lemma_text32_field_3(b: RoaringBitmap, st: BitmapStats)
    ensures
        shows(b.stat_text_spec(st), ("\nmin value: ".spec_bytes()), optional_digits(st.min_value, "0".spec_bytes()), "\nnumber of array containers: ".spec_bytes()),
{
    assert(b.stat_text_spec(st) == "type: bitmap\ncardinality: ".spec_bytes() + decimal_digits(st.cardinality as nat) + "\nnumber of containers: ".spec_bytes() + decimal_digits(st.n_containers as nat) + "\nmax value: ".spec_bytes() + optional_digits(st.max_value, "0".spec_bytes()) + "\nmin value: ".spec_bytes() + optional_digits(st.min_value, "0".spec_bytes()) + text_breakdown(st));
    assert("type: bitmap\ncardinality: ".spec_bytes() + decimal_digits(st.cardinality as nat) + "\nnumber of containers: ".spec_bytes() + decimal_digits(st.n_containers as nat) + "\nmax value: ".spec_bytes() + optional_digits(st.max_value, "0".spec_bytes()) + "\nmin value: ".spec_bytes() + optional_digits(st.min_value, "0".spec_bytes()) =~= ("type: bitmap\ncardinality: ".spec_bytes() + decimal_digits(st.cardinality as nat) + "\nnumber of containers: ".spec_bytes() + decimal_digits(st.n_containers as nat) + "\nmax value: ".spec_bytes() + optional_digits(st.max_value, "0".spec_bytes())) + ("\nmin value: ".spec_bytes()) + optional_digits(st.min_value, "0".spec_bytes()));
    assert("\nnumber of array containers: ".spec_bytes() =~= "\nnumber of array containers: ".spec_bytes() + Seq::<u8>::empty());
    lemma_starts_append("\nnumber of array containers: ".spec_bytes(), decimal_digits(st.n_array_containers as nat), "\nnumber of array containers: ".spec_bytes());
    lemma_starts_append("\nnumber of array containers: ".spec_bytes() + decimal_digits(st.n_array_containers as nat), "\narray container values: ".spec_bytes(), "\nnumber of array containers: ".spec_bytes());
    lemma_starts_append("\nnumber of array containers: ".spec_bytes() + decimal_digits(st.n_array_containers as nat) + "\narray container values: ".spec_bytes(), decimal_digits(st.n_values_array_containers as nat), "\nnumber of array containers: ".spec_bytes());
    lemma_starts_append("\nnumber of array containers: ".spec_bytes() + decimal_digits(st.n_array_containers as nat) + "\narray container values: ".spec_bytes() + decimal_digits(st.n_values_array_containers as nat), "\narray container bytes: ".spec_bytes(), "\nnumber of array containers: ".spec_bytes());
    lemma_starts_append("\nnumber of array containers: ".spec_bytes() + decimal_digits(st.n_array_containers as nat) + "\narray container values: ".spec_bytes() + decimal_digits(st.n_values_array_containers as nat) + "\narray container bytes: ".spec_bytes(), decimal_digits(st.n_bytes_array_containers as nat), "\nnumber of array containers: ".spec_bytes());
    lemma_starts_append(text_kind("\nnumber of array containers: ".spec_bytes(), "\narray container values: ".spec_bytes(), "\narray container bytes: ".spec_bytes(), st.n_array_containers, st.n_values_array_containers, st.n_bytes_array_containers), text_kind("\nbitset containers: ".spec_bytes(), "\nbitset container values: ".spec_bytes(), "\nbitset container bytes: ".spec_bytes(), st.n_bitset_containers, st.n_values_bitset_containers, st.n_bytes_bitset_containers), "\nnumber of array containers: ".spec_bytes());
    lemma_starts_append(text_kind("\nnumber of array containers: ".spec_bytes(), "\narray container values: ".spec_bytes(), "\narray container bytes: ".spec_bytes(), st.n_array_containers, st.n_values_array_containers, st.n_bytes_array_containers) + text_kind("\nbitset containers: ".spec_bytes(), "\nbitset container values: ".spec_bytes(), "\nbitset container bytes: ".spec_bytes(), st.n_bitset_containers, st.n_values_bitset_containers, st.n_bytes_bitset_containers), text_kind("\nrun containers: ".spec_bytes(), "\nrun container values: ".spec_bytes(), "\nrun container bytes: ".spec_bytes(), st.n_run_containers, st.n_values_run_containers, st.n_bytes_run_containers), "\nnumber of array containers: ".spec_bytes());
    lemma_shows_across("type: bitmap\ncardinality: ".spec_bytes() + decimal_digits(st.cardinality as nat) + "\nnumber of containers: ".spec_bytes() + decimal_digits(st.n_containers as nat) + "\nmax value: ".spec_bytes() + optional_digits(st.max_value, "0".spec_bytes()) + "\nmin value: ".spec_bytes() + optional_digits(st.min_value, "0".spec_bytes()), text_breakdown(st), ("\nmin value: ".spec_bytes()), optional_digits(st.min_value, "0".spec_bytes()), "\nnumber of array containers: ".spec_bytes());
}

proof fn lemma_text32_field_4(b: RoaringBitmap, st: BitmapStats)
    ensures
        shows(b.stat_text_spec(st), ("\nnumber of array containers: ".spec_bytes()), decimal_digits(st.n_array_containers as nat), "\narray container values: ".spec_bytes()),
{
    assert(b.stat_text_spec(st) == "type: bitmap\ncardinality: ".spec_bytes() + decimal_digits(st.cardinality as nat) + "\nnumber of containers: ".spec_bytes() + decimal_digits(st.n_containers as nat) + "\nmax value: ".spec_bytes() + optional_digits(st.max_value, "0".spec_bytes()) + "\nmin value: ".spec_bytes() + optional_digits(st.min_value, "0".spec_bytes()) + text_breakdown(st));
    assert("\nnumber of array containers: ".spec_bytes() + decimal_digits(st.n_array_containers as nat) + "\narray container values: ".spec_bytes() =~= (Seq::<u8>::empty()) + ("\nnumber of array containers: ".spec_bytes()) + decimal_digits(st.n_array_containers as nat) + "\narray container values: ".spec_bytes() + Seq::<u8>::empty());
    lemma_shows_append("\nnumber of array containers: ".spec_bytes() + decimal_digits(st.n_array_containers as nat) + "\narray container values: ".spec_bytes(), decimal_digits(st.n_values_array_containers as nat), ("\nnumber of array containers: ".spec_bytes()), decimal_digits(st.n_array_containers as nat), "\narray container values: ".spec_bytes());
    lemma_shows_append("\nnumber of array containers: ".spec_bytes() + decimal_digits(st.n_array_containers as nat) + "\narray container values: ".spec_bytes() + decimal_digits(st.n_values_array_containers as nat), "\narray container bytes: ".spec_bytes(), ("\nnumber of array containers: ".spec_bytes()), decimal_digits(st.n_array_containers as nat), "\narray container values: ".spec_bytes());
    lemma_shows_append("\nnumber of array containers: ".spec_bytes() + decimal_digits(st.n_array_containers as nat) + "\narray container values: ".spec_bytes() + decimal_digits(st.n_values_array_containers as nat) + "\narray container bytes: ".spec_bytes(), decimal_digits(st.n_bytes_array_containers as nat), ("\nnumber of array containers: ".spec_bytes()), decimal_digits(st.n_array_containers as nat), "\narray container values: ".spec_bytes());
    lemma_shows_append(text_kind("\nnumber of array containers: ".spec_bytes(), "\narray container values: ".spec_bytes(), "\narray container bytes: ".spec_bytes(), st.n_array_containers, st.n_values_array_containers, st.n_bytes_array_containers), text_kind("\nbitset containers: ".spec_bytes(), "\nbitset container values: ".spec_bytes(), "\nbitset container bytes: ".spec_bytes(), st.n_bitset_containers, st.n_values_bitset_containers, st.n_bytes_bitset_containers), ("\nnumber of array containers: ".spec_bytes()), decimal_digits(st.n_array_containers as nat), "\narray container values: ".spec_bytes());
    lemma_shows_append(text_kind("\nnumber of array containers: ".spec_bytes(), "\narray container values: ".spec_bytes(), "\narray container bytes: ".spec_bytes(), st.n_array_containers, st.n_values_array_containers, st.n_bytes_array_containers) + text_kind("\nbitset containers: ".spec_bytes(), "\nbitset container values: ".spec_bytes(), "\nbitset container bytes: ".spec_bytes(), st.n_bitset_containers, st.n_values_bitset_containers, st.n_bytes_bitset_containers), text_kind("\nrun containers: ".spec_bytes(), "\nrun container values: ".spec_bytes(), "\nrun container bytes: ".spec_bytes(), st.n_run_containers, st.n_values_run_containers, st.n_bytes_run_containers), ("\nnumber of array containers: ".spec_bytes()), decimal_digits(st.n_array_containers as nat), "\narray container values: ".spec_bytes());
    lemma_shows_prepend("type: bitmap\ncardinality: ".spec_bytes() + decimal_digits(st.cardinality as nat) + "\nnumber of containers: ".spec_bytes() + decimal_digits(st.n_containers as nat) + "\nmax value: ".spec_bytes() + optional_digits(st.max_value, "0".spec_bytes()) + "\nmin value: ".spec_bytes() + optional_digits(st.min_value, "0".spec_bytes()), text_breakdown(st), ("\nnumber of array containers: ".spec_bytes()), decimal_digits(st.n_array_containers as nat), "\narray container values: ".spec_bytes());
}

proof fn lemma_text32_field_5(b: RoaringBitmap, st: BitmapStats)
    ensures
        shows(b.stat_text_spec(st), ("\narray container values: ".spec_bytes()), decimal_digits(st.n_values_array_containers as nat), "\narray container bytes: ".spec_bytes()),
{
    assert(b.stat_text_spec(st) == "type: bitmap\ncardinality: ".spec_bytes() + decimal_digits(st.cardinality as nat) + "\nnumber of containers: ".spec_bytes() + decimal_digits(st.n_containers as nat) + "\nmax value: ".spec_bytes() + optional_digits(st.max_value, "0".spec_bytes()) + "\nmin value: ".spec_bytes() + optional_digits(st.min_value, "0".spec_bytes()) + text_breakdown(st));
    assert("\nnumber of array containers: ".spec_bytes() + decimal_digits(st.n_array_containers as nat) + "\narray container values: ".spec_bytes() + decimal_digits(st.n_values_array_containers as nat) + "\narray container bytes: ".spec_bytes() =~= ("\nnumber of array containers: ".spec_bytes() + decimal_digits(st.n_array_containers as nat)) + ("\narray container values: ".spec_bytes()) + decimal_digits(st.n_values_array_containers as nat) + "\narray container bytes: ".spec_bytes() + Seq::<u8>::empty());
    lemma_shows_append("\nnumber of array containers: ".spec_bytes() + decimal_digits(st.n_array_containers as nat) + "\narray container values: ".spec_bytes() + decimal_digits(st.n_values_array_containers as nat) + "\narray container bytes: ".spec_bytes(), decimal_digits(st.n_bytes_array_containers as nat), ("\narray container values: ".spec_bytes()), decimal_digits(st.n_values_array_containers as nat), "\narray container bytes: ".spec_bytes());
    lemma_shows_append(text_kind("\nnumber of array containers: ".spec_bytes(), "\narray container values: ".spec_bytes(), "\narray container bytes: ".spec_bytes(), st.n_array_containers, st.n_values_array_containers, st.n_bytes_array_containers), text_kind("\nbitset containers: ".spec_bytes(), "\nbitset container values: ".spec_bytes(), "\nbitset container bytes: ".spec_bytes(), st.n_bitset_containers, st.n_values_bitset_containers, st.n_bytes_bitset_containers), ("\narray container values: ".spec_bytes()), decimal_digits(st.n_values_array_containers as nat), "\narray container bytes: ".spec_bytes());
    lemma_shows_append(text_kind("\nnumber of array containers: ".spec_bytes(), "\narray container values: ".spec_bytes(), "\narray container bytes: ".spec_bytes(), st.n_array_containers, st.n_values_array_containers, st.n_bytes_array_containers) + text_kind("\nbitset containers: ".spec_bytes(), "\nbitset container values: ".spec_bytes(), "\nbitset container bytes: ".spec_bytes(), st.n_bitset_containers, st.n_values_bitset_containers, st.n_bytes_bitset_containers), text_kind("\nrun containers: ".spec_bytes(), "\nrun container values: ".spec_bytes(), "\nrun container bytes: ".spec_bytes(), st.n_run_containers, st.n_values_run_containers, st.n_bytes_run_containers), ("\narray container values: ".spec_bytes()), decimal_digits(st.n_values_array_containers as nat), "\narray container bytes: ".spec_bytes());
    lemma_shows_prepend("type: bitmap\ncardinality: ".spec_bytes() + decimal_digits(st.cardinality as nat) + "\nnumber of containers: ".spec_bytes() + decimal_digits(st.n_containers as nat) + "\nmax value: ".spec_bytes() + optional_digits(st.max_value, "0".spec_bytes()) + "\nmin value: ".spec_bytes() + optional_digits(st.min_value, "0".spec_bytes()), text_breakdown(st), ("\narray container values: ".spec_bytes()), decimal_digits(st.n_values_array_containers as nat), "\narray container bytes: ".spec_bytes());
}

proof fn lemma_text32_field_6(b: RoaringBitmap, st: BitmapStats)
    ensures
        shows(b.stat_text_spec(st), ("\narray container bytes: ".spec_bytes()), decimal_digits(st.n_bytes_array_containers as nat), "\nbitset containers: ".spec_bytes()),
{
    assert(b.stat_text_spec(st) == "type: bitmap\ncardinality: ".spec_bytes() + decimal_digits(st.cardinality as nat) + "\nnumber of containers: ".spec_bytes() + decimal_digits(st.n_containers as nat) + "\nmax value: ".spec_bytes() + optional_digits(st.max_value, "0".spec_bytes()) + "\nmin value: ".spec_bytes() + optional_digits(st.min_value, "0".spec_bytes()) + text_breakdown(st));
    assert("\nnumber of array containers: ".spec_bytes() + decimal_digits(st.n_array_containers as nat) + "\narray container values: ".spec_bytes() + decimal_digits(st.n_values_array_containers as nat) + "\narray container bytes: ".spec_bytes() + decimal_digits(st.n_bytes_array_containers as nat) =~= ("\nnumber of array containers: ".spec_bytes() + decimal_digits(st.n_array_containers as nat) + "\narray container values: ".spec_bytes() + decimal_digits(st.n_values_array_containers as nat)) + ("\narray container bytes: ".spec_bytes()) + decimal_digits(st.n_bytes_array_containers as nat));
    assert("\nbitset containers: ".spec_bytes() =~= "\nbitset containers: ".spec_bytes() + Seq::<u8>::empty());
    lemma_starts_append("\nbitset containers: ".spec_bytes(), decimal_digits(st.n_bitset_containers as nat), "\nbitset containers: ".spec_bytes());
    lemma_starts_append("\nbitset containers: ".spec_bytes() + decimal_digits(st.n_bitset_containers as nat), "\nbitset container values: ".spec_bytes(), "\nbitset containers: ".spec_bytes());
    lemma_starts_append("\nbitset containers: ".spec_bytes() + decimal_digits(st.n_bitset_containers as nat) + "\nbitset container values: ".spec_bytes(), decimal_digits(st.n_values_bitset_containers as nat), "\nbitset containers: ".spec_bytes());
    lemma_starts_append("\nbitset containers: ".spec_bytes() + decimal_digits(st.n_bitset_containers as nat) + "\nbitset container values: ".spec_bytes() + decimal_digits(st.n_values_bitset_containers as nat), "\nbitset container bytes: ".spec_bytes(), "\nbitset containers: ".spec_bytes());
    lemma_starts_append("\nbitset containers: ".spec_bytes() + decimal_digits(st.n_bitset_containers as nat) + "\nbitset container values: ".spec_bytes() + decimal_digits(st.n_values_bitset_containers as nat) + "\nbitset container bytes: ".spec_bytes(), decimal_digits(st.n_bytes_bitset_containers as nat), "\nbitset containers: ".spec_bytes());
    lemma_shows_across(text_kind("\nnumber of array containers: ".spec_bytes(), "\narray container values: ".spec_bytes(), "\narray container bytes: ".spec_bytes(), st.n_array_containers, st.n_values_array_containers, st.n_bytes_array_containers), text_kind("\nbitset containers: ".spec_bytes(), "\nbitset container values: ".spec_bytes(), "\nbitset container bytes: ".spec_bytes(), st.n_bitset_containers, st.n_values_bitset_containers, st.n_bytes_bitset_containers), ("\narray container bytes: ".spec_bytes()), decimal_digits(st.n_bytes_array_containers as nat), "\nbitset containers: ".spec_bytes());
    lemma_shows_append(text_kind("\nnumber of array containers: ".spec_bytes(), "\narray container values: ".spec_bytes(), "\narray container bytes: ".spec_bytes(), st.n_array_containers, st.n_values_array_containers, st.n_bytes_array_containers) + text_kind("\nbitset containers: ".spec_bytes(), "\nbitset container values: ".spec_bytes(), "\nbitset container bytes: ".spec_bytes(), st.n_bitset_containers, st.n_values_bitset_containers, st.n_bytes_bitset_containers), text_kind("\nrun containers: ".spec_bytes(), "\nrun container values: ".spec_bytes(), "\nrun container bytes: ".spec_bytes(), st.n_run_containers, st.n_values_run_containers, st.n_bytes_run_containers), ("\narray container bytes: ".spec_bytes()), decimal_digits(st.n_bytes_array_containers as nat), "\nbitset containers: ".spec_bytes());
    lemma_shows_prepend("type: bitmap\ncardinality: ".spec_bytes() + decimal_digits(st.cardinality as nat) + "\nnumber of containers: ".spec_bytes() + decimal_digits(st.n_containers as nat) + "\nmax value: ".spec_bytes() + optional_digits(st.max_value, "0".spec_bytes()) + "\nmin value: ".spec_bytes() + optional_digits(st.min_value, "0".spec_bytes()), text_breakdown(st), ("\narray container bytes: ".spec_bytes()), decimal_digits(st.n_bytes_array_containers as nat), "\nbitset containers: ".spec_bytes());
}

proof fn lemma_text32_field_7(b: RoaringBitmap, st: BitmapStats)
    ensures
        shows(b.stat_text_spec(st), ("\nbitset containers: ".spec_bytes()), decimal_digits(st.n_bitset_containers as nat), "\nbitset container values: ".spec_bytes()),
{
    assert(b.stat_text_spec(st) == "type: bitmap\ncardinality: ".spec_bytes() + decimal_digits(st.cardinality as nat) + "\nnumber of containers: ".spec_bytes() + decimal_digits(st.n_containers as nat) + "\nmax value: ".spec_bytes() + optional_digits(st.max_value, "0".spec_bytes()) + "\nmin value: ".spec_bytes() + optional_digits(st.min_value, "0".spec_bytes()) + text_breakdown(st));
    assert("\nbitset containers: ".spec_bytes() + decimal_digits(st.n_bitset_containers as nat) + "\nbitset container values: ".spec_bytes() =~= (Seq::<u8>::empty()) + ("\nbitset containers: ".spec_bytes()) + decimal_digits(st.n_bitset_containers as nat) + "\nbitset container values: ".spec_bytes() + Seq::<u8>::empty());
    lemma_shows_append("\nbitset containers: ".spec_bytes() + decimal_digits(st.n_bitset_containers as nat) + "\nbitset container values: ".spec_bytes(), decimal_digits(st.n_values_bitset_containers as nat), ("\nbitset containers: ".spec_bytes()), decimal_digits(st.n_bitset_containers as nat), "\nbitset container values: ".spec_bytes());
    lemma_shows_append("\nbitset containers: ".spec_bytes() + decimal_digits(st.n_bitset_containers as nat) + "\nbitset container values: ".spec_bytes() + decimal_digits(st.n_values_bitset_containers as nat), "\nbitset container bytes: ".spec_bytes(), ("\nbitset containers: ".spec_bytes()), decimal_digits(st.n_bitset_containers as nat), "\nbitset container values: ".spec_bytes());
    lemma_shows_append("\nbitset containers: ".spec_bytes() + decimal_digits(st.n_bitset_containers as nat) + "\nbitset container values: ".spec_bytes() + decimal_digits(st.n_values_bitset_containers as nat) + "\nbitset container bytes: ".spec_bytes(), decimal_digits(st.n_bytes_bitset_containers as nat), ("\nbitset containers: ".spec_bytes()), decimal_digits(st.n_bitset_containers as nat), "\nbitset container values: ".spec_bytes());
    lemma_shows_prepend(text_kind("\nnumber of array containers: ".spec_bytes(), "\narray container values: ".spec_bytes(), "\narray container bytes: ".spec_bytes(), st.n_array_containers, st.n_values_array_containers, st.n_bytes_array_containers), text_kind("\nbitset containers: ".spec_bytes(), "\nbitset container values: ".spec_bytes(), "\nbitset container bytes: ".spec_bytes(), st.n_bitset_containers, st.n_values_bitset_containers, st.n_bytes_bitset_containers), ("\nbitset containers: ".spec_bytes()), decimal_digits(st.n_bitset_containers as nat), "\nbitset container values: ".spec_bytes());
    lemma_shows_append(text_kind("\nnumber of array containers: ".spec_bytes(), "\narray container values: ".spec_bytes(), "\narray container bytes: ".spec_bytes(), st.n_array_containers, st.n_values_array_containers, st.n_bytes_array_containers) + text_kind("\nbitset containers: ".spec_bytes(), "\nbitset container values: ".spec_bytes(), "\nbitset container bytes: ".spec_bytes(), st.n_bitset_containers, st.n_values_bitset_containers, st.n_bytes_bitset_containers), text_kind("\nrun containers: ".spec_bytes(), "\nrun container values: ".spec_bytes(), "\nrun container bytes: ".spec_bytes(), st.n_run_containers, st.n_values_run_containers, st.n_bytes_run_containers), ("\nbitset containers: ".spec_bytes()), decimal_digits(st.n_bitset_containers as nat), "\nbitset container values: ".spec_bytes());
    lemma_shows_prepend("type: bitmap\ncardinality: ".spec_bytes() + decimal_digits(st.cardinality as nat) + "\nnumber of containers: ".spec_bytes() + decimal_digits(st.n_containers as nat) + "\nmax value: ".spec_bytes() + optional_digits(st.max_value, "0".spec_bytes()) + "\nmin value: ".spec_bytes() + optional_digits(st.min_value, "0".spec_bytes()), text_breakdown(st), ("\nbitset containers: ".spec_bytes()), decimal_digits(st.n_bitset_containers as nat), "\nbitset container values: ".spec_bytes());
}

proof fn lemma_text32_field_8(b: RoaringBitmap, st: BitmapStats)
    ensures
        shows(b.stat_text_spec(st), ("\nbitset container values: ".spec_bytes()), decimal_digits(st.n_values_bitset_containers as nat), "\nbitset container bytes: ".spec_bytes()),
{
    assert(b.stat_text_spec(st) == "type: bitmap\ncardinality: ".spec_bytes() + decimal_digits(st.cardinality as nat) + "\nnumber of containers: ".spec_bytes() + decimal_digits(st.n_containers as nat) + "\nmax value: ".spec_bytes() + optional_digits(st.max_value, "0".spec_bytes()) + "\nmin value: ".spec_bytes() + optional_digits(st.min_value, "0".spec_bytes()) + text_breakdown(st));
    assert("\nbitset containers: ".spec_bytes() + decimal_digits(st.n_bitset_containers as nat) + "\nbitset container values: ".spec_bytes() + decimal_digits(st.n_values_bitset_containers as nat) + "\nbitset container bytes: ".spec_bytes() =~= ("\nbitset containers: ".spec_bytes() + decimal_digits(st.n_bitset_containers as nat)) + ("\nbitset container values: ".spec_bytes()) + decimal_digits(st.n_values_bitset_containers as nat) + "\nbitset container bytes: ".spec_bytes() + Seq::<u8>::empty());
    lemma_shows_append("\nbitset containers: ".spec_bytes() + decimal_digits(st.n_bitset_containers as nat) + "\nbitset container values: ".spec_bytes() + decimal_digits(st.n_values_bitset_containers as nat) + "\nbitset container bytes: ".spec_bytes(), decimal_digits(st.n_bytes_bitset_containers as nat), ("\nbitset container values: ".spec_bytes()), decimal_digits(st.n_values_bitset_containers as nat), "\nbitset container bytes: ".spec_bytes());
    lemma_shows_prepend(text_kind("\nnumber of array containers: ".spec_bytes(), "\narray container values: ".spec_bytes(), "\narray container bytes: ".spec_bytes(), st.n_array_containers, st.n_values_array_containers, st.n_bytes_array_containers), text_kind("\nbitset containers: ".spec_bytes(), "\nbitset container values: ".spec_bytes(), "\nbitset container bytes: ".spec_bytes(), st.n_bitset_containers, st.n_values_bitset_containers, st.n_bytes_bitset_containers), ("\nbitset container values: ".spec_bytes()), decimal_digits(st.n_values_bitset_containers as nat), "\nbitset container bytes: ".spec_bytes());
    lemma_shows_append(text_kind("\nnumber of array containers: ".spec_bytes(), "\narray container values: ".spec_bytes(), "\narray container bytes: ".spec_bytes(), st.n_array_containers, st.n_values_array_containers, st.n_bytes_array_containers) + text_kind("\nbitset containers: ".spec_bytes(), "\nbitset container values: ".spec_bytes(), "\nbitset container bytes: ".spec_bytes(), st.n_bitset_containers, st.n_values_bitset_containers, st.n_bytes_bitset_containers), text_kind("\nrun containers: ".spec_bytes(), "\nrun container values: ".spec_bytes(), "\nrun container bytes: ".spec_bytes(), st.n_run_containers, st.n_values_run_containers, st.n_bytes_run_containers), ("\nbitset container values: ".spec_bytes()), decimal_digits(st.n_values_bitset_containers as nat), "\nbitset container bytes: ".spec_bytes());
    lemma_shows_prepend("type: bitmap\ncardinality: ".spec_bytes() + decimal_digits(st.cardinality as nat) + "\nnumber of containers: ".spec_bytes() + decimal_digits(st.n_containers as nat) + "\nmax value: ".spec_bytes() + optional_digits(st.max_value, "0".spec_bytes()) + "\nmin value: ".spec_bytes() + optional_digits(st.min_value, "0".spec_bytes()), text_breakdown(st), ("\nbitset container values: ".spec_bytes()), decimal_digits(st.n_values_bitset_containers as nat), "\nbitset container bytes: ".spec_bytes());
}

proof fn lemma_text32_field_9(b: RoaringBitmap, st: BitmapStats)
    ensures
        shows(b.stat_text_spec(st), ("\nbitset container bytes: ".spec_bytes()), decimal_digits(st.n_bytes_bitset_containers as nat), "\nrun containers: ".spec_bytes()),
{
    assert(b.stat_text_spec(st) == "type: bitmap\ncardinality: ".spec_bytes() + decimal_digits(st.cardinality as nat) + "\nnumber of containers: ".spec_bytes() + decimal_digits(st.n_containers as nat) + "\nmax value: ".spec_bytes() + optional_digits(st.max_value, "0".spec_bytes()) + "\nmin value: ".spec_bytes() + optional_digits(st.min_value, "0".spec_bytes()) + text_breakdown(st));
    assert("\nbitset containers: ".spec_bytes() + decimal_digits(st.n_bitset_containers as nat) + "\nbitset container values: ".spec_bytes() + decimal_digits(st.n_values_bitset_containers as nat) + "\nbitset container bytes: ".spec_bytes() + decimal_digits(st.n_bytes_bitset_containers as nat) =~= ("\nbitset containers: ".spec_bytes() + decimal_digits(st.n_bitset_containers as nat) + "\nbitset container values: ".spec_bytes() + decimal_digits(st.n_values_bitset_containers as nat)) + ("\nbitset container bytes: ".spec_bytes()) + decimal_digits(st.n_bytes_bitset_containers as nat));
    lemma_ends_prepend(text_kind("\nnumber of array containers: ".spec_bytes(), "\narray container values: ".spec_bytes(), "\narray container bytes: ".spec_bytes(), st.n_array_containers, st.n_values_array_containers, st.n_bytes_array_containers), text_kind("\nbitset containers: ".spec_bytes(), "\nbitset container values: ".spec_bytes(), "\nbitset container bytes: ".spec_bytes(), st.n_bitset_containers, st.n_values_bitset_containers, st.n_bytes_bitset_containers), ("\nbitset container bytes: ".spec_bytes()), decimal_digits(st.n_bytes_bitset_containers as nat));
    assert("\nrun containers: ".spec_bytes() =~= "\nrun containers: ".spec_bytes() + Seq::<u8>::empty());
    lemma_starts_append("\nrun containers: ".spec_bytes(), decimal_digits(st.n_run_containers as nat), "\nrun containers: ".spec_bytes());
    lemma_starts_append("\nrun containers: ".spec_bytes() + decimal_digits(st.n_run_containers as nat), "\nrun container values: ".spec_bytes(), "\nrun containers: ".spec_bytes());
    lemma_starts_append("\nrun containers: ".spec_bytes() + decimal_digits(st.n_run_containers as nat) + "\nrun container values: ".spec_bytes(), decimal_digits(st.n_values_run_containers as nat), "\nrun containers: ".spec_bytes());
    lemma_starts_append("\nrun containers: ".spec_bytes() + decimal_digits(st.n_run_containers as nat) + "\nrun container values: ".spec_bytes() + decimal_digits(st.n_values_run_containers as nat), "\nrun container bytes: ".spec_bytes(), "\nrun containers: ".spec_bytes());
    lemma_starts_append("\nrun containers: ".spec_bytes() + decimal_digits(st.n_run_containers as nat) + "\nrun container values: ".spec_bytes() + decimal_digits(st.n_values_run_containers as nat) + "\nrun container bytes: ".spec_bytes(), decimal_digits(st.n_bytes_run_containers as nat), "\nrun containers: ".spec_bytes());
    lemma_shows_across(text_kind("\nnumber of array containers: ".spec_bytes(), "\narray container values: ".spec_bytes(), "\narray container bytes: ".spec_bytes(), st.n_array_containers, st.n_values_array_containers, st.n_bytes_array_containers) + text_kind("\nbitset containers: ".spec_bytes(), "\nbitset container values: ".spec_bytes(), "\nbitset container bytes: ".spec_bytes(), st.n_bitset_containers, st.n_values_bitset_containers, st.n_bytes_bitset_containers), text_kind("\nrun containers: ".spec_bytes(), "\nrun container values: ".spec_bytes(), "\nrun container bytes: ".spec_bytes(), st.n_run_containers, st.n_values_run_containers, st.n_bytes_run_containers), ("\nbitset container bytes: ".spec_bytes()), decimal_digits(st.n_bytes_bitset_containers as nat), "\nrun containers: ".spec_bytes());
    lemma_shows_prepend("type: bitmap\ncardinality: ".spec_bytes() + decimal_digits(st.cardinality as nat) + "\nnumber of containers: ".spec_bytes() + decimal_digits(st.n_containers as nat) + "\nmax value: ".spec_bytes() + optional_digits(st.max_value, "0".spec_bytes()) + "\nmin value: ".spec_bytes() + optional_digits(st.min_value, "0".spec_bytes()), text_breakdown(st), ("\nbitset container bytes: ".spec_bytes()), decimal_digits(st.n_bytes_bitset_containers as nat), "\nrun containers: ".spec_bytes());
}

proof fn lemma_text32_field_10(b: RoaringBitmap, st: BitmapStats)
    ensures
        shows(b.stat_text_spec(st), ("\nrun containers: ".spec_bytes()), decimal_digits(st.n_run_containers as nat), "\nrun container values: ".spec_bytes()),
{
    assert(b.stat_text_spec(st) == "type: bitmap\ncardinality: ".spec_bytes() + decimal_digits(st.cardinality as nat) + "\nnumber of containers: ".spec_bytes() + decimal_digits(st.n_containers as nat) + "\nmax value: ".spec_bytes() + optional_digits(st.max_value, "0".spec_bytes()) + "\nmin value: ".spec_bytes() + optional_digits(st.min_value, "0".spec_bytes()) + text_breakdown(st));
    assert("\nrun containers: ".spec_bytes() + decimal_digits(st.n_run_containers as nat) + "\nrun container values: ".spec_bytes() =~= (Seq::<u8>::empty()) + ("\nrun containers: ".spec_bytes()) + decimal_digits(st.n_run_containers as nat) + "\nrun container values: ".spec_bytes() + Seq::<u8>::empty());
    lemma_shows_append("\nrun containers: ".spec_bytes() + decimal_digits(st.n_run_containers as nat) + "\nrun container values: ".spec_bytes(), decimal_digits(st.n_values_run_containers as nat), ("\nrun containers: ".spec_bytes()), decimal_digits(st.n_run_containers as nat), "\nrun container values: ".spec_bytes());
    lemma_shows_append("\nrun containers: ".spec_bytes() + decimal_digits(st.n_run_containers as nat) + "\nrun container values: ".spec_bytes() + decimal_digits(st.n_values_run_containers as nat), "\nrun container bytes: ".spec_bytes(), ("\nrun containers: ".spec_bytes()), decimal_digits(st.n_run_containers as nat), "\nrun container values: ".spec_bytes());
    lemma_shows_append("\nrun containers: ".spec_bytes() + decimal_digits(st.n_run_containers as nat) + "\nrun container values: ".spec_bytes() + decimal_digits(st.n_values_run_containers as nat) + "\nrun container bytes: ".spec_bytes(), decimal_digits(st.n_bytes_run_containers as nat), ("\nrun containers: ".spec_bytes()), decimal_digits(st.n_run_containers as nat), "\nrun container values: ".spec_bytes());
    lemma_shows_prepend(text_kind("\nnumber of array containers: ".spec_bytes(), "\narray container values: ".spec_bytes(), "\narray container bytes: ".spec_bytes(), st.n_array_containers, st.n_values_array_containers, st.n_bytes_array_containers) + text_kind("\nbitset containers: ".spec_bytes(), "\nbitset container values: ".spec_bytes(), "\nbitset container bytes: ".spec_bytes(), st.n_bitset_containers, st.n_values_bitset_containers, st.n_bytes_bitset_containers), text_kind("\nrun containers: ".spec_bytes(), "\nrun container values: ".spec_bytes(), "\nrun container bytes: ".spec_bytes(), st.n_run_containers, st.n_values_run_containers, st.n_bytes_run_containers), ("\nrun containers: ".spec_bytes()), decimal_digits(st.n_run_containers as nat), "\nrun container values: ".spec_bytes());
    lemma_shows_prepend("type: bitmap\ncardinality: ".spec_bytes() + decimal_digits(st.cardinality as nat) + "\nnumber of containers: ".spec_bytes() + decimal_digits(st.n_containers as nat) + "\nmax value: ".spec_bytes() + optional_digits(st.max_value, "0".spec_bytes()) + "\nmin value: ".spec_bytes() + optional_digits(st.min_value, "0".spec_bytes()), text_breakdown(st), ("\nrun containers: ".spec_bytes()), decimal_digits(st.n_run_containers as nat), "\nrun container values: ".spec_bytes());
}

proof fn lemma_text32_field_11(b: RoaringBitmap, st: BitmapStats)
    ensures
        shows(b.stat_text_spec(st), ("\nrun container values: ".spec_bytes()), decimal_digits(st.n_values_run_containers as nat), "\nrun container bytes: ".spec_bytes()),
{
    assert(b.stat_text_spec(st) == "type: bitmap\ncardinality: ".spec_bytes() + decimal_digits(st.cardinality as nat) + "\nnumber of containers: ".spec_bytes() + decimal_digits(st.n_containers as nat) + "\nmax value: ".spec_bytes() + optional_digits(st.max_value, "0".spec_bytes()) + "\nmin value: ".spec_bytes() + optional_digits(st.min_value, "0".spec_bytes()) + text_breakdown(st));
    assert("\nrun containers: ".spec_bytes() + decimal_digits(st.n_run_containers as nat) + "\nrun container values: ".spec_bytes() + decimal_digits(st.n_values_run_containers as nat) + "\nrun container bytes: ".spec_bytes() =~= ("\nrun containers: ".spec_bytes() + decimal_digits(st.n_run_containers as nat)) + ("\nrun container values: ".spec_bytes()) + decimal_digits(st.n_values_run_containers as nat) + "\nrun container bytes: ".spec_bytes() + Seq::<u8>::empty());
    lemma_shows_append("\nrun containers: ".spec_bytes() + decimal_digits(st.n_run_containers as nat) + "\nrun container values: ".spec_bytes() + decimal_digits(st.n_values_run_containers as nat) + "\nrun container bytes: ".spec_bytes(), decimal_digits(st.n_bytes_run_containers as nat), ("\nrun container values: ".spec_bytes()), decimal_digits(st.n_values_run_containers as nat), "\nrun container bytes: ".spec_bytes());
    lemma_shows_prepend(text_kind("\nnumber of array containers: ".spec_bytes(), "\narray container values: ".spec_bytes(), "\narray container bytes: ".spec_bytes(), st.n_array_containers, st.n_values_array_containers, st.n_bytes_array_containers) + text_kind("\nbitset containers: ".spec_bytes(), "\nbitset container values: ".spec_bytes(), "\nbitset container bytes: ".spec_bytes(), st.n_bitset_containers, st.n_values_bitset_containers, st.n_bytes_bitset_containers), text_kind("\nrun containers: ".spec_bytes(), "\nrun container values: ".spec_bytes(), "\nrun container bytes: ".spec_bytes(), st.n_run_containers, st.n_values_run_containers, st.n_bytes_run_containers), ("\nrun container values: ".spec_bytes()), decimal_digits(st.n_values_run_containers as nat), "\nrun container bytes: ".spec_bytes());
    lemma_shows_prepend("type: bitmap\ncardinality: ".spec_bytes() + decimal_digits(st.cardinality as nat) + "\nnumber of containers: ".spec_bytes() + decimal_digits(st.n_containers as nat) + "\nmax value: ".spec_bytes() + optional_digits(st.max_value, "0".spec_bytes()) + "\nmin value: ".spec_bytes() + optional_digits(st.min_value, "0".spec_bytes()), text_breakdown(st), ("\nrun container values: ".spec_bytes()), decimal_digits(st.n_values_run_containers as nat), "\nrun container bytes: ".spec_bytes());
}

proof fn lemma_text32_field_12(b: RoaringBitmap, st: BitmapStats)
    ensures
        ends_showing(b.stat_text_spec(st), ("\nrun container bytes: ".spec_bytes()), decimal_digits(st.n_bytes_run_containers as nat)),
{
    assert(b.stat_text_spec(st) == "type: bitmap\ncardinality: ".spec_bytes() + decimal_digits(st.cardinality as nat) + "\nnumber of containers: ".spec_bytes() + decimal_digits(st.n_containers as nat) + "\nmax value: ".spec_bytes() + optional_digits(st.max_value, "0".spec_bytes()) + "\nmin value: ".spec_bytes() + optional_digits(st.min_value, "0".spec_bytes()) + text_breakdown(st));
    assert("\nrun containers: ".spec_bytes() + decimal_digits(st.n_run_containers as nat) + "\nrun container values: ".spec_bytes() + decimal_digits(st.n_values_run_containers as nat) + "\nrun container bytes: ".spec_bytes() + decimal_digits(st.n_bytes_run_containers as nat) =~= ("\nrun containers: ".spec_bytes() + decimal_digits(st.n_run_containers as nat) + "\nrun container values: ".spec_bytes() + decimal_digits(st.n_values_run_containers as nat)) + ("\nrun container bytes: ".spec_bytes()) + decimal_digits(st.n_bytes_run_containers as nat));
    lemma_ends_prepend(text_kind("\nnumber of array containers: ".spec_bytes(), "\narray container values: ".spec_bytes(), "\narray container bytes: ".spec_bytes(), st.n_array_containers, st.n_values_array_containers, st.n_bytes_array_containers) + text_kind("\nbitset containers: ".spec_bytes(), "\nbitset container values: ".spec_bytes(), "\nbitset container bytes: ".spec_bytes(), st.n_bitset_containers, st.n_values_bitset_containers, st.n_bytes_bitset_containers), text_kind("\nrun containers: ".spec_bytes(), "\nrun container values: ".spec_bytes(), "\nrun container bytes: ".spec_bytes(), st.n_run_containers, st.n_values_run_containers, st.n_bytes_run_containers), ("\nrun container bytes: ".spec_bytes()), decimal_digits(st.n_bytes_run_containers as nat));
    lemma_ends_prepend("type: bitmap\ncardinality: ".spec_bytes() + decimal_digits(st.cardinality as nat) + "\nnumber of containers: ".spec_bytes() + decimal_digits(st.n_containers as nat) + "\nmax value: ".spec_bytes() + optional_digits(st.max_value, "0".spec_bytes()) + "\nmin value: ".spec_bytes() + optional_digits(st.min_value, "0".spec_bytes()), text_breakdown(st), ("\nrun container bytes: ".spec_bytes()), decimal_digits(st.n_bytes_run_containers as nat));
}

/// The `R.STAT` text of a 32-bit bitmap, read label by label: the
/// cardinality and the extremes are those of the bitmap, and every
/// container figure of its statistics stands under its own label.
pub proof fn stat_text32_reads_back(b: RoaringBitmap, st: BitmapStats)
    requires
        b.stats_fit(st),
    ensures
        shows(b.stat_text_spec(st), ("type: bitmap\ncardinality: ".spec_bytes()), decimal_digits(b.view_set().len()), "\nnumber of containers: ".spec_bytes()),
        shows(b.stat_text_spec(st), ("\nnumber of containers: ".spec_bytes()), decimal_digits(st.n_containers as nat), "\nmax value: ".spec_bytes()),
        forall|g: u32| is_greatest(value_of::<RoaringBitmap>(), b.view_set(), g) ==> shows(b.stat_text_spec(st), ("\nmax value: ".spec_bytes()), decimal_digits(g as nat), "\nmin value: ".spec_bytes()),
        b.view_set() == Set::<u32>::empty() ==> shows(b.stat_text_spec(st), ("\nmax value: ".spec_bytes()), "0".spec_bytes(), "\nmin value: ".spec_bytes()),
        forall|g: u32| is_least(value_of::<RoaringBitmap>(), b.view_set(), g) ==> shows(b.stat_text_spec(st), ("\nmin value: ".spec_bytes()), decimal_digits(g as nat), "\nnumber of array containers: ".spec_bytes()),
        b.view_set() == Set::<u32>::empty() ==> shows(b.stat_text_spec(st), ("\nmin value: ".spec_bytes()), "0".spec_bytes(), "\nnumber of array containers: ".spec_bytes()),
        shows(b.stat_text_spec(st), ("\nnumber of array containers: ".spec_bytes()), decimal_digits(st.n_array_containers as nat), "\narray container values: ".spec_bytes()),
        shows(b.stat_text_spec(st), ("\narray container values: ".spec_bytes()), decimal_digits(st.n_values_array_containers as nat), "\narray container bytes: ".spec_bytes()),
        shows(b.stat_text_spec(st), ("\narray container bytes: ".spec_bytes()), decimal_digits(st.n_bytes_array_containers as nat), "\nbitset containers: ".spec_bytes()),
        shows(b.stat_text_spec(st), ("\nbitset containers: ".spec_bytes()), decimal_digits(st.n_bitset_containers as nat), "\nbitset container values: ".spec_bytes()),
        shows(b.stat_text_spec(st), ("\nbitset container values: ".spec_bytes()), decimal_digits(st.n_values_bitset_containers as nat), "\nbitset container bytes: ".spec_bytes()),
        shows(b.stat_text_spec(st), ("\nbitset container bytes: ".spec_bytes()), decimal_digits(st.n_bytes_bitset_containers as nat), "\nrun containers: ".spec_bytes()),
        shows(b.stat_text_spec(st), ("\nrun containers: ".spec_bytes()), decimal_digits(st.n_run_containers as nat), "\nrun container values: ".spec_bytes()),
        shows(b.stat_text_spec(st), ("\nrun container values: ".spec_bytes()), decimal_digits(st.n_values_run_containers as nat), "\nrun container bytes: ".spec_bytes()),
        ends_showing(b.stat_text_spec(st), ("\nrun container bytes: ".spec_bytes()), decimal_digits(st.n_bytes_run_containers as nat)),
{
    assert(st.cardinality as nat == b.view_set().len());
    lemma_no_extremes_32(b, st);
    lemma_text32_field_0(b, st);
    lemma_text32_field_1(b, st);
    lemma_text32_field_2(b, st);
    assert forall|g: u32| is_greatest(value_of::<RoaringBitmap>(), b.view_set(), g) implies shows(b.stat_text_spec(st), ("\nmax value: ".spec_bytes()), decimal_digits(g as nat), "\nmin value: ".spec_bytes()) by {
        lemma_extreme_digits_32(b, st, g);
    }
    lemma_text32_field_3(b, st);
    assert forall|g: u32| is_least(value_of::<RoaringBitmap>(), b.view_set(), g) implies shows(b.stat_text_spec(st), ("\nmin value: ".spec_bytes()), decimal_digits(g as nat), "\nnumber of array containers: ".spec_bytes()) by {
        lemma_extreme_digits_32(b, st, g);
    }
    lemma_text32_field_4(b, st);
    lemma_text32_field_5(b, st);
    lemma_text32_field_6(b, st);
    lemma_text32_field_7(b, st);
    lemma_text32_field_8(b, st);
    lemma_text32_field_9(b, st);
    lemma_text32_field_10(b, st);
    lemma_text32_field_11(b, st);
    lemma_text32_field_12(b, st);
}

proof fn lemma_json32_field_0(b: RoaringBitmap, st: BitmapStats)
    ensures
        shows(b.stat_json_spec(st), ("{\"type\":\"bitmap\",\"cardinality\":\"".spec_bytes()), decimal_digits(st.cardinality as nat), "\",\"number_of_containers\":\"".spec_bytes()),
{
    assert(b.stat_json_spec(st) == "{\"type\":\"bitmap\",\"cardinality\":\"".spec_bytes() + decimal_digits(st.cardinality as nat) + "\",\"number_of_containers\":\"".spec_bytes() + decimal_digits(st.n_containers as nat) + "\",\"max_value\":\"".spec_bytes() + optional_digits(st.max_value, "0".spec_bytes()) + "\",\"min_value\":\"".spec_bytes() + optional_digits(st.min_value, "0".spec_bytes()) + json_breakdown(st));
    assert("{\"type\":\"bitmap\",\"cardinality\":\"".spec_bytes() + decimal_digits(st.cardinality as nat) + "\",\"number_of_containers\":\"".spec_bytes() =~= (Seq::<u8>::empty()) + ("{\"type\":\"bitmap\",\"cardinality\":\"".spec_bytes()) + decimal_digits(st.cardinality as nat) + "\",\"number_of_containers\":\"".spec_bytes() + Seq::<u8>::empty());
    lemma_shows_append("{\"type\":\"bitmap\",\"cardinality\":\"".spec_bytes() + decimal_digits(st.cardinality as nat) + "\",\"number_of_containers\":\"".spec_bytes(), decimal_digits(st.n_containers as nat), ("{\"type\":\"bitmap\",\"cardinality\":\"".spec_bytes()), decimal_digits(st.cardinality as nat), "\",\"number_of_containers\":\"".spec_bytes());
    lemma_shows_append("{\"type\":\"bitmap\",\"cardinality\":\"".spec_bytes() + decimal_digits(st.cardinality as nat) + "\",\"number_of_containers\":\"".spec_bytes() + decimal_digits(st.n_containers as nat), "\",\"max_value\":\"".spec_bytes(), ("{\"type\":\"bitmap\",\"cardinality\":\"".spec_bytes()), decimal_digits(st.cardinality as nat), "\",\"number_of_containers\":\"".spec_bytes());
    lemma_shows_append("{\"type\":\"bitmap\",\"cardinality\":\"".spec_bytes() + decimal_digits(st.cardinality as nat) + "\",\"number_of_containers\":\"".spec_bytes() + decimal_digits(st.n_containers as nat) + "\",\"max_value\":\"".spec_bytes(), optional_digits(st.max_value, "0".spec_bytes()), ("{\"type\":\"bitmap\",\"cardinality\":\"".spec_bytes()), decimal_digits(st.cardinality as nat), "\",\"number_of_containers\":\"".spec_bytes());
    lemma_shows_append("{\"type\":\"bitmap\",\"cardinality\":\"".spec_bytes() + decimal_digits(st.cardinality as nat) + "\",\"number_of_containers\":\"".spec_bytes() + decimal_digits(st.n_containers as nat) + "\",\"max_value\":\"".spec_bytes() + optional_digits(st.max_value, "0".spec_bytes()), "\",\"min_value\":\"".spec_bytes(), ("{\"type\":\"bitmap\",\"cardinality\":\"".spec_bytes()), decimal_digits(st.cardinality as nat), "\",\"number_of_containers\":\"".spec_bytes());
    lemma_shows_append("{\"type\":\"bitmap\",\"cardinality\":\"".spec_bytes() + decimal_digits(st.cardinality as nat) + "\",\"number_of_containers\":\"".spec_bytes() + decimal_digits(st.n_containers as nat) + "\",\"max_value\":\"".spec_bytes() + optional_digits(st.max_value, "0".spec_bytes()) + "\",\"min_value\":\"".spec_bytes(), optional_digits(st.min_value, "0".spec_bytes()), ("{\"type\":\"bitmap\",\"cardinality\":\"".spec_bytes()), decimal_digits(st.cardinality as nat), "\",\"number_of_containers\":\"".spec_bytes());
    lemma_shows_append("{\"type\":\"bitmap\",\"cardinality\":\"".spec_bytes() + decimal_digits(st.cardinality as nat) + "\",\"number_of_containers\":\"".spec_bytes() + decimal_digits(st.n_containers as nat) + "\",\"max_value\":\"".spec_bytes() + optional_digits(st.max_value, "0".spec_bytes()) + "\",\"min_value\":\"".spec_bytes() + optional_digits(st.min_value, "0".spec_bytes()), json_breakdown(st), ("{\"type\":\"bitmap\",\"cardinality\":\"".spec_bytes()), decimal_digits(st.cardinality as nat), "\",\"number_of_containers\":\"".spec_bytes());
}

proof fn lemma_json32_field_1(b: RoaringBitmap, st: BitmapStats)
    ensures
        shows(b.stat_json_spec(st), ("\",\"number_of_containers\":\"".spec_bytes()), decimal_digits(st.n_containers as nat), "\",\"max_value\":\"".spec_bytes()),
{
    assert(b.stat_json_spec(st) == "{\"type\":\"bitmap\",\"cardinality\":\"".spec_bytes() + decimal_digits(st.cardinality as nat) + "\",\"number_of_containers\":\"".spec_bytes() + decimal_digits(st.n_containers as nat) + "\",\"max_value\":\"".spec_bytes() + optional_digits(st.max_value, "0".spec_bytes()) + "\",\"min_value\":\"".spec_bytes() + optional_digits(st.min_value, "0".spec_bytes()) + json_breakdown(st));
    assert("{\"type\":\"bitmap\",\"cardinality\":\"".spec_bytes() + decimal_digits(st.cardinality as nat) + "\",\"number_of_containers\":\"".spec_bytes() + decimal_digits(st.n_containers as nat) + "\",\"max_value\":\"".spec_bytes() =~= ("{\"type\":\"bitmap\",\"cardinality\":\"".spec_bytes() + decimal_digits(st.cardinality as nat)) + ("\",\"number_of_containers\":\"".spec_bytes()) + decimal_digits(st.n_containers as nat) + "\",\"max_value\":\"".spec_bytes() + Seq::<u8>::empty());
    lemma_shows_append("{\"type\":\"bitmap\",\"cardinality\":\"".spec_bytes() + decimal_digits(st.cardinality as nat) + "\",\"number_of_containers\":\"".spec_bytes() + decimal_digits(st.n_containers as nat) + "\",\"max_value\":\"".spec_bytes(), optional_digits(st.max_value, "0".spec_bytes()), ("\",\"number_of_containers\":\"".spec_bytes()), decimal_digits(st.n_containers as nat), "\",\"max_value\":\"".spec_bytes());
    lemma_shows_append("{\"type\":\"bitmap\",\"cardinality\":\"".spec_bytes() + decimal_digits(st.cardinality as nat) + "\",\"number_of_containers\":\"".spec_bytes() + decimal_digits(st.n_containers as nat) + "\",\"max_value\":\"".spec_bytes() + optional_digits(st.max_value, "0".spec_bytes()), "\",\"min_value\":\"".spec_bytes(), ("\",\"number_of_containers\":\"".spec_bytes()), decimal_digits(st.n_containers as nat), "\",\"max_value\":\"".spec_bytes());
    lemma_shows_append("{\"type\":\"bitmap\",\"cardinality\":\"".spec_bytes() + decimal_digits(st.cardinality as nat) + "\",\"number_of_containers\":\"".spec_bytes() + decimal_digits(st.n_containers as nat) + "\",\"max_value\":\"".spec_bytes() + optional_digits(st.max_value, "0".spec_bytes()) + "\",\"min_value\":\"".spec_bytes(), optional_digits(st.min_value, "0".spec_bytes()), ("\",\"number_of_containers\":\"".spec_bytes()), decimal_digits(st.n_containers as nat), "\",\"max_value\":\"".spec_bytes());
    lemma_shows_append("{\"type\":\"bitmap\",\"cardinality\":\"".spec_bytes() + decimal_digits(st.cardinality as nat) + "\",\"number_of_containers\":\"".spec_bytes() + decimal_digits(st.n_containers as nat) + "\",\"max_value\":\"".spec_bytes() + optional_digits(st.max_value, "0".spec_bytes()) + "\",\"min_value\":\"".spec_bytes() + optional_digits(st.min_value, "0".spec_bytes()), json_breakdown(st), ("\",\"number_of_containers\":\"".spec_bytes()), decimal_digits(st.n_containers as nat), "\",\"max_value\":\"".spec_bytes());
}

proof fn lemma_json32_field_2(b: RoaringBitmap, st: BitmapStats)
    ensures
        shows(b.stat_json_spec(st), ("\",\"max_value\":\"".spec_bytes()), optional_digits(st.max_value, "0".spec_bytes()), "\",\"min_value\":\"".spec_bytes()),
{
    assert(b.stat_json_spec(st) == "{\"type\":\"bitmap\",\"cardinality\":\"".spec_bytes() + decimal_digits(st.cardinality as nat) + "\",\"number_of_containers\":\"".spec_bytes() + decimal_digits(st.n_containers as nat) + "\",\"max_value\":\"".spec_bytes() + optional_digits(st.max_value, "0".spec_bytes()) + "\",\"min_value\":\"".spec_bytes() + optional_digits(st.min_value, "0".spec_bytes()) + json_breakdown(st));
    assert("{\"type\":\"bitmap\",\"cardinality\":\"".spec_bytes() + decimal_digits(st.cardinality as nat) + "\",\"number_of_containers\":\"".spec_bytes() + decimal_digits(st.n_containers as nat) + "\",\"max_value\":\"".spec_bytes() + optional_digits(st.max_value, "0".spec_bytes()) + "\",\"min_value\":\"".spec_bytes() =~= ("{\"type\":\"bitmap\",\"cardinality\":\"".spec_bytes() + decimal_digits(st.cardinality as nat) + "\",\"number_of_containers\":\"".spec_bytes() + decimal_digits(st.n_containers as nat)) + ("\",\"max_value\":\"".spec_bytes()) + optional_digits(st.max_value, "0".spec_bytes()) + "\",\"min_value\":\"".spec_bytes() + Seq::<u8>::empty());
    lemma_shows_append("{\"type\":\"bitmap\",\"cardinality\":\"".spec_bytes() + decimal_digits(st.cardinality as nat) + "\",\"number_of_containers\":\"".spec_bytes() + decimal_digits(st.n_containers as nat) + "\",\"max_value\":\"".spec_bytes() + optional_digits(st.max_value, "0".spec_bytes()) + "\",\"min_value\":\"".spec_bytes(), optional_digits(st.min_value, "0".spec_bytes()), ("\",\"max_value\":\"".spec_bytes()), optional_digits(st.max_value, "0".spec_bytes()), "\",\"min_value\":\"".spec_bytes());
    lemma_shows_append("{\"type\":\"bitmap\",\"cardinality\":\"".spec_bytes() + decimal_digits(st.cardinality as nat) + "\",\"number_of_containers\":\"".spec_bytes() + decimal_digits(st.n_containers as nat) + "\",\"max_value\":\"".spec_bytes() + optional_digits(st.max_value, "0".spec_bytes()) + "\",\"min_value\":\"".spec_bytes() + optional_digits(st.min_value, "0".spec_bytes()), json_breakdown(st), ("\",\"max_value\":\"".spec_bytes()), optional_digits(st.max_value, "0".spec_bytes()), "\",\"min_value\":\"".spec_bytes());
}

proof fn lemma_json32_field_3(b: RoaringBitmap, st: BitmapStats)
    ensures
        shows(b.stat_json_spec(st), ("\",\"min_value\":\"".spec_bytes()), optional_digits(st.min_value, "0".spec_bytes()), "\",\"array_container\":{\"number_of_containers\":\"".spec_bytes()),
{
    assert(b.stat_json_spec(st) == "{\"type\":\"bitmap\",\"cardinality\":\"".spec_bytes() + decimal_digits(st.cardinality as nat) + "\",\"number_of_containers\":\"".spec_bytes() + decimal_digits(st.n_containers as nat) + "\",\"max_value\":\"".spec_bytes() + optional_digits(st.max_value, "0".spec_bytes()) + "\",\"min_value\":\"".spec_bytes() + optional_digits(st.min_value, "0".spec_bytes()) + json_breakdown(st));
    assert("{\"type\":\"bitmap\",\"cardinality\":\"".spec_bytes() + decimal_digits(st.cardinality as nat) + "\",\"number_of_containers\":\"".spec_bytes() + decimal_digits(st.n_containers as nat) + "\",\"max_value\":\"".spec_bytes() + optional_digits(st.max_value, "0".spec_bytes()) + "\",\"min_value\":\"".spec_bytes() + optional_digits(st.min_value, "0".spec_bytes()) =~= ("{\"type\":\"bitmap\",\"cardinality\":\"".spec_bytes() + decimal_digits(st.cardinality as nat) + "\",\"number_of_containers\":\"".spec_bytes() + decimal_digits(st.n_containers as nat) + "\",\"max_value\":\"".spec_bytes() + optional_digits(st.max_value, "0".spec_bytes())) + ("\",\"min_value\":\"".spec_bytes()) + optional_digits(st.min_value, "0".spec_bytes()));
    assert("\",\"array_container\":{\"number_of_containers\":\"".spec_bytes() =~= "\",\"array_container\":{\"number_of_containers\":\"".spec_bytes() + Seq::<u8>::empty());
    lemma_starts_append("\",\"array_container\":{\"number_of_containers\":\"".spec_bytes(), decimal_digits(st.n_array_containers as nat), "\",\"array_container\":{\"number_of_containers\":\"".spec_bytes());
    lemma_starts_append("\",\"array_container\":{\"number_of_containers\":\"".spec_bytes() + decimal_digits(st.n_array_containers as nat), "\",\"container_cardinality\":\"".spec_bytes(), "\",\"array_container\":{\"number_of_containers\":\"".spec_bytes());
    lemma_starts_append("\",\"array_container\":{\"number_of_containers\":\"".spec_bytes() + decimal_digits(st.n_array_containers as nat) + "\",\"container_cardinality\":\"".spec_bytes(), decimal_digits(st.n_values_array_containers as nat), "\",\"array_container\":{\"number_of_containers\":\"".spec_bytes());
    lemma_starts_append("\",\"array_container\":{\"number_of_containers\":\"".spec_bytes() + decimal_digits(st.n_array_containers as nat) + "\",\"container_cardinality\":\"".spec_bytes() + decimal_digits(st.n_values_array_containers as nat), "\",\"container_allocated_bytes\":\"".spec_bytes(), "\",\"array_container\":{\"number_of_containers\":\"".spec_bytes());
    lemma_starts_append("\",\"array_container\":{\"number_of_containers\":\"".spec_bytes() + decimal_digits(st.n_array_containers as nat) + "\",\"container_cardinality\":\"".spec_bytes() + decimal_digits(st.n_values_array_containers as nat) + "\",\"container_allocated_bytes\":\"".spec_bytes(), decimal_digits(st.n_bytes_array_containers as nat), "\",\"array_container\":{\"number_of_containers\":\"".spec_bytes());
    lemma_starts_append(text_kind("\",\"array_container\":{\"number_of_containers\":\"".spec_bytes(), "\",\"container_cardinality\":\"".spec_bytes(), "\",\"container_allocated_bytes\":\"".spec_bytes(), st.n_array_containers, st.n_values_array_containers, st.n_bytes_array_containers), text_kind("\"},\"bitset_container\":{\"number_of_containers\":\"".spec_bytes(), "\",\"container_cardinality\":\"".spec_bytes(), "\",\"container_allocated_bytes\":\"".spec_bytes(), st.n_bitset_containers, st.n_values_bitset_containers, st.n_bytes_bitset_containers), "\",\"array_container\":{\"number_of_containers\":\"".spec_bytes());
    lemma_starts_append(text_kind("\",\"array_container\":{\"number_of_containers\":\"".spec_bytes(), "\",\"container_cardinality\":\"".spec_bytes(), "\",\"container_allocated_bytes\":\"".spec_bytes(), st.n_array_containers, st.n_values_array_containers, st.n_bytes_array_containers) + text_kind("\"},\"bitset_container\":{\"number_of_containers\":\"".spec_bytes(), "\",\"container_cardinality\":\"".spec_bytes(), "\",\"container_allocated_bytes\":\"".spec_bytes(), st.n_bitset_containers, st.n_values_bitset_containers, st.n_bytes_bitset_containers), text_kind("\"},\"run_container\":{\"number_of_containers\":\"".spec_bytes(), "\",\"container_cardinality\":\"".spec_bytes(), "\",\"container_allocated_bytes\":\"".spec_bytes(), st.n_run_containers, st.n_values_run_containers, st.n_bytes_run_containers), "\",\"array_container\":{\"number_of_containers\":\"".spec_bytes());
    lemma_starts_append(text_kind("\",\"array_container\":{\"number_of_containers\":\"".spec_bytes(), "\",\"container_cardinality\":\"".spec_bytes(), "\",\"container_allocated_bytes\":\"".spec_bytes(), st.n_array_containers, st.n_values_array_containers, st.n_bytes_array_containers) + text_kind("\"},\"bitset_container\":{\"number_of_containers\":\"".spec_bytes(), "\",\"container_cardinality\":\"".spec_bytes(), "\",\"container_allocated_bytes\":\"".spec_bytes(), st.n_bitset_containers, st.n_values_bitset_containers, st.n_bytes_bitset_containers) + text_kind("\"},\"run_container\":{\"number_of_containers\":\"".spec_bytes(), "\",\"container_cardinality\":\"".spec_bytes(), "\",\"container_allocated_bytes\":\"".spec_bytes(), st.n_run_containers, st.n_values_run_containers, st.n_bytes_run_containers), "\"}}".spec_bytes(), "\",\"array_container\":{\"number_of_containers\":\"".spec_bytes());
    lemma_shows_across("{\"type\":\"bitmap\",\"cardinality\":\"".spec_bytes() + decimal_digits(st.cardinality as nat) + "\",\"number_of_containers\":\"".spec_bytes() + decimal_digits(st.n_containers as nat) + "\",\"max_value\":\"".spec_bytes() + optional_digits(st.max_value, "0".spec_bytes()) + "\",\"min_value\":\"".spec_bytes() + optional_digits(st.min_value, "0".spec_bytes()), json_breakdown(st), ("\",\"min_value\":\"".spec_bytes()), optional_digits(st.min_value, "0".spec_bytes()), "\",\"array_container\":{\"number_of_containers\":\"".spec_bytes());
}

proof fn lemma_json32_field_4(b: RoaringBitmap, st: BitmapStats)
    ensures
        shows(b.stat_json_spec(st), ("\",\"array_container\":{\"number_of_containers\":\"".spec_bytes()), decimal_digits(st.n_array_containers as nat), "\",\"container_cardinality\":\"".spec_bytes()),
{
    assert(b.stat_json_spec(st) == "{\"type\":\"bitmap\",\"cardinality\":\"".spec_bytes() + decimal_digits(st.cardinality as nat) + "\",\"number_of_containers\":\"".spec_bytes() + decimal_digits(st.n_containers as nat) + "\",\"max_value\":\"".spec_bytes() + optional_digits(st.max_value, "0".spec_bytes()) + "\",\"min_value\":\"".spec_bytes() + optional_digits(st.min_value, "0".spec_bytes()) + json_breakdown(st));
    assert("\",\"array_container\":{\"number_of_containers\":\"".spec_bytes() + decimal_digits(st.n_array_containers as nat) + "\",\"container_cardinality\":\"".spec_bytes() =~= (Seq::<u8>::empty()) + ("\",\"array_container\":{\"number_of_containers\":\"".spec_bytes()) + decimal_digits(st.n_array_containers as nat) + "\",\"container_cardinality\":\"".spec_bytes() + Seq::<u8>::empty());
    lemma_shows_append("\",\"array_container\":{\"number_of_containers\":\"".spec_bytes() + decimal_digits(st.n_array_containers as nat) + "\",\"container_cardinality\":\"".spec_bytes(), decimal_digits(st.n_values_array_containers as nat), ("\",\"array_container\":{\"number_of_containers\":\"".spec_bytes()), decimal_digits(st.n_array_containers as nat), "\",\"container_cardinality\":\"".spec_bytes());
    lemma_shows_append("\",\"array_container\":{\"number_of_containers\":\"".spec_bytes() + decimal_digits(st.n_array_containers as nat) + "\",\"container_cardinality\":\"".spec_bytes() + decimal_digits(st.n_values_array_containers as nat), "\",\"container_allocated_bytes\":\"".spec_bytes(), ("\",\"array_container\":{\"number_of_containers\":\"".spec_bytes()), decimal_digits(st.n_array_containers as nat), "\",\"container_cardinality\":\"".spec_bytes());
    lemma_shows_append("\",\"array_container\":{\"number_of_containers\":\"".spec_bytes() + decimal_digits(st.n_array_containers as nat) + "\",\"container_cardinality\":\"".spec_bytes() + decimal_digits(st.n_values_array_containers as nat) + "\",\"container_allocated_bytes\":\"".spec_bytes(), decimal_digits(st.n_bytes_array_containers as nat), ("\",\"array_container\":{\"number_of_containers\":\"".spec_bytes()), decimal_digits(st.n_array_containers as nat), "\",\"container_cardinality\":\"".spec_bytes());
    lemma_shows_append(text_kind("\",\"array_container\":{\"number_of_containers\":\"".spec_bytes(), "\",\"container_cardinality\":\"".spec_bytes(), "\",\"container_allocated_bytes\":\"".spec_bytes(), st.n_array_containers, st.n_values_array_containers, st.n_bytes_array_containers), text_kind("\"},\"bitset_container\":{\"number_of_containers\":\"".spec_bytes(), "\",\"container_cardinality\":\"".spec_bytes(), "\",\"container_allocated_bytes\":\"".spec_bytes(), st.n_bitset_containers, st.n_values_bitset_containers, st.n_bytes_bitset_containers), ("\",\"array_container\":{\"number_of_containers\":\"".spec_bytes()), decimal_digits(st.n_array_containers as nat), "\",\"container_cardinality\":\"".spec_bytes());
    lemma_shows_append(text_kind("\",\"array_container\":{\"number_of_containers\":\"".spec_bytes(), "\",\"container_cardinality\":\"".spec_bytes(), "\",\"container_allocated_bytes\":\"".spec_bytes(), st.n_array_containers, st.n_values_array_containers, st.n_bytes_array_containers) + text_kind("\"},\"bitset_container\":{\"number_of_containers\":\"".spec_bytes(), "\",\"container_cardinality\":\"".spec_bytes(), "\",\"container_allocated_bytes\":\"".spec_bytes(), st.n_bitset_containers, st.n_values_bitset_containers, st.n_bytes_bitset_containers), text_kind("\"},\"run_container\":{\"number_of_containers\":\"".spec_bytes(), "\",\"container_cardinality\":\"".spec_bytes(), "\",\"container_allocated_bytes\":\"".spec_bytes(), st.n_run_containers, st.n_values_run_containers, st.n_bytes_run_containers), ("\",\"array_container\":{\"number_of_containers\":\"".spec_bytes()), decimal_digits(st.n_array_containers as nat), "\",\"container_cardinality\":\"".spec_bytes());
    lemma_shows_append(text_kind("\",\"array_container\":{\"number_of_containers\":\"".spec_bytes(), "\",\"container_cardinality\":\"".spec_bytes(), "\",\"container_allocated_bytes\":\"".spec_bytes(), st.n_array_containers, st.n_values_array_containers, st.n_bytes_array_containers) + text_kind("\"},\"bitset_container\":{\"number_of_containers\":\"".spec_bytes(), "\",\"container_cardinality\":\"".spec_bytes(), "\",\"container_allocated_bytes\":\"".spec_bytes(), st.n_bitset_containers, st.n_values_bitset_containers, st.n_bytes_bitset_containers) + text_kind("\"},\"run_container\":{\"number_of_containers\":\"".spec_bytes(), "\",\"container_cardinality\":\"".spec_bytes(), "\",\"container_allocated_bytes\":\"".spec_bytes(), st.n_run_containers, st.n_values_run_containers, st.n_bytes_run_containers), "\"}}".spec_bytes(), ("\",\"array_container\":{\"number_of_containers\":\"".spec_bytes()), decimal_digits(st.n_array_containers as nat), "\",\"container_cardinality\":\"".spec_bytes());
    lemma_shows_prepend("{\"type\":\"bitmap\",\"cardinality\":\"".spec_bytes() + decimal_digits(st.cardinality as nat) + "\",\"number_of_containers\":\"".spec_bytes() + decimal_digits(st.n_containers as nat) + "\",\"max_value\":\"".spec_bytes() + optional_digits(st.max_value, "0".spec_bytes()) + "\",\"min_value\":\"".spec_bytes() + optional_digits(st.min_value, "0".spec_bytes()), json_breakdown(st), ("\",\"array_container\":{\"number_of_containers\":\"".spec_bytes()), decimal_digits(st.n_array_containers as nat), "\",\"container_cardinality\":\"".spec_bytes());
}

proof fn lemma_json32_field_5(b: RoaringBitmap, st: BitmapStats)
    ensures
        shows(b.stat_json_spec(st), ("\",\"array_container\":{\"number_of_containers\":\"".spec_bytes() + decimal_digits(st.n_array_containers as nat) + "\",\"container_cardinality\":\"".spec_bytes()), decimal_digits(st.n_values_array_containers as nat), "\",\"container_allocated_bytes\":\"".spec_bytes()),
{
    assert(b.stat_json_spec(st) == "{\"type\":\"bitmap\",\"cardinality\":\"".spec_bytes() + decimal_digits(st.cardinality as nat) + "\",\"number_of_containers\":\"".spec_bytes() + decimal_digits(st.n_containers as nat) + "\",\"max_value\":\"".spec_bytes() + optional_digits(st.max_value, "0".spec_bytes()) + "\",\"min_value\":\"".spec_bytes() + optional_digits(st.min_value, "0".spec_bytes()) + json_breakdown(st));
    assert("\",\"array_container\":{\"number_of_containers\":\"".spec_bytes() + decimal_digits(st.n_array_containers as nat) + "\",\"container_cardinality\":\"".spec_bytes() + decimal_digits(st.n_values_array_containers as nat) + "\",\"container_allocated_bytes\":\"".spec_bytes() =~= (Seq::<u8>::empty()) + ("\",\"array_container\":{\"number_of_containers\":\"".spec_bytes() + decimal_digits(st.n_array_containers as nat) + "\",\"container_cardinality\":\"".spec_bytes()) + decimal_digits(st.n_values_array_containers as nat) + "\",\"container_allocated_bytes\":\"".spec_bytes() + Seq::<u8>::empty());
    lemma_shows_append("\",\"array_container\":{\"number_of_containers\":\"".spec_bytes() + decimal_digits(st.n_array_containers as nat) + "\",\"container_cardinality\":\"".spec_bytes() + decimal_digits(st.n_values_array_containers as nat) + "\",\"container_allocated_bytes\":\"".spec_bytes(), decimal_digits(st.n_bytes_array_containers as nat), ("\",\"array_container\":{\"number_of_containers\":\"".spec_bytes() + decimal_digits(st.n_array_containers as nat) + "\",\"container_cardinality\":\"".spec_bytes()), decimal_digits(st.n_values_array_containers as nat), "\",\"container_allocated_bytes\":\"".spec_bytes());
    lemma_shows_append(text_kind("\",\"array_container\":{\"number_of_containers\":\"".spec_bytes(), "\",\"container_cardinality\":\"".spec_bytes(), "\",\"container_allocated_bytes\":\"".spec_bytes(), st.n_array_containers, st.n_values_array_containers, st.n_bytes_array_containers), text_kind("\"},\"bitset_container\":{\"number_of_containers\":\"".spec_bytes(), "\",\"container_cardinality\":\"".spec_bytes(), "\",\"container_allocated_bytes\":\"".spec_bytes(), st.n_bitset_containers, st.n_values_bitset_containers, st.n_bytes_bitset_containers), ("\",\"array_container\":{\"number_of_containers\":\"".spec_bytes() + decimal_digits(st.n_array_containers as nat) + "\",\"container_cardinality\":\"".spec_bytes()), decimal_digits(st.n_values_array_containers as nat), "\",\"container_allocated_bytes\":\"".spec_bytes());
    lemma_shows_append(text_kind("\",\"array_container\":{\"number_of_containers\":\"".spec_bytes(), "\",\"container_cardinality\":\"".spec_bytes(), "\",\"container_allocated_bytes\":\"".spec_bytes(), st.n_array_containers, st.n_values_array_containers, st.n_bytes_array_containers) + text_kind("\"},\"bitset_container\":{\"number_of_containers\":\"".spec_bytes(), "\",\"container_cardinality\":\"".spec_bytes(), "\",\"container_allocated_bytes\":\"".spec_bytes(), st.n_bitset_containers, st.n_values_bitset_containers, st.n_bytes_bitset_containers), text_kind("\"},\"run_container\":{\"number_of_containers\":\"".spec_bytes(), "\",\"container_cardinality\":\"".spec_bytes(), "\",\"container_allocated_bytes\":\"".spec_bytes(), st.n_run_containers, st.n_values_run_containers, st.n_bytes_run_containers), ("\",\"array_container\":{\"number_of_containers\":\"".spec_bytes() + decimal_digits(st.n_array_containers as nat) + "\",\"container_cardinality\":\"".spec_bytes()), decimal_digits(st.n_values_array_containers as nat), "\",\"container_allocated_bytes\":\"".spec_bytes());
    lemma_shows_append(text_kind("\",\"array_container\":{\"number_of_containers\":\"".spec_bytes(), "\",\"container_cardinality\":\"".spec_bytes(), "\",\"container_allocated_bytes\":\"".spec_bytes(), st.n_array_containers, st.n_values_array_containers, st.n_bytes_array_containers) + text_kind("\"},\"bitset_container\":{\"number_of_containers\":\"".spec_bytes(), "\",\"container_cardinality\":\"".spec_bytes(), "\",\"container_allocated_bytes\":\"".spec_bytes(), st.n_bitset_containers, st.n_values_bitset_containers, st.n_bytes_bitset_containers) + text_kind("\"},\"run_container\":{\"number_of_containers\":\"".spec_bytes(), "\",\"container_cardinality\":\"".spec_bytes(), "\",\"container_allocated_bytes\":\"".spec_bytes(), st.n_run_containers, st.n_values_run_containers, st.n_bytes_run_containers), "\"}}".spec_bytes(), ("\",\"array_container\":{\"number_of_containers\":\"".spec_bytes() + decimal_digits(st.n_array_containers as nat) + "\",\"container_cardinality\":\"".spec_bytes()), decimal_digits(st.n_values_array_containers as nat), "\",\"container_allocated_bytes\":\"".spec_bytes());
    lemma_shows_prepend("{\"type\":\"bitmap\",\"cardinality\":\"".spec_bytes() + decimal_digits(st.cardinality as nat) + "\",\"number_of_containers\":\"".spec_bytes() + decimal_digits(st.n_containers as nat) + "\",\"max_value\":\"".spec_bytes() + optional_digits(st.max_value, "0".spec_bytes()) + "\",\"min_value\":\"".spec_bytes() + optional_digits(st.min_value, "0".spec_bytes()), json_breakdown(st), ("\",\"array_container\":{\"number_of_containers\":\"".spec_bytes() + decimal_digits(st.n_array_containers as nat) + "\",\"container_cardinality\":\"".spec_bytes()), decimal_digits(st.n_values_array_containers as nat), "\",\"container_allocated_bytes\":\"".spec_bytes());
}

proof fn lemma_json32_field_6(b: RoaringBitmap, st: BitmapStats)
    ensures
        shows(b.stat_json_spec(st), ("\",\"array_container\":{\"number_of_containers\":\"".spec_bytes() + decimal_digits(st.n_array_containers as nat) + "\",\"container_cardinality\":\"".spec_bytes() + decimal_digits(st.n_values_array_containers as nat) + "\",\"container_allocated_bytes\":\"".spec_bytes()), decimal_digits(st.n_bytes_array_containers as nat), "\"},\"bitset_container\":{\"number_of_containers\":\"".spec_bytes()),
{
    assert(b.stat_json_spec(st) == "{\"type\":\"bitmap\",\"cardinality\":\"".spec_bytes() + decimal_digits(st.cardinality as nat) + "\",\"number_of_containers\":\"".spec_bytes() + decimal_digits(st.n_containers as nat) + "\",\"max_value\":\"".spec_bytes() + optional_digits(st.max_value, "0".spec_bytes()) + "\",\"min_value\":\"".spec_bytes() + optional_digits(st.min_value, "0".spec_bytes()) + json_breakdown(st));
    assert("\",\"array_container\":{\"number_of_containers\":\"".spec_bytes() + decimal_digits(st.n_array_containers as nat) + "\",\"container_cardinality\":\"".spec_bytes() + decimal_digits(st.n_values_array_containers as nat) + "\",\"container_allocated_bytes\":\"".spec_bytes() + decimal_digits(st.n_bytes_array_containers as nat) =~= (Seq::<u8>::empty()) + ("\",\"array_container\":{\"number_of_containers\":\"".spec_bytes() + decimal_digits(st.n_array_containers as nat) + "\",\"container_cardinality\":\"".spec_bytes() + decimal_digits(st.n_values_array_containers as nat) + "\",\"container_allocated_bytes\":\"".spec_bytes()) + decimal_digits(st.n_bytes_array_containers as nat));
    assert("\"},\"bitset_container\":{\"number_of_containers\":\"".spec_bytes() =~= "\"},\"bitset_container\":{\"number_of_containers\":\"".spec_bytes() + Seq::<u8>::empty());
    lemma_starts_append("\"},\"bitset_container\":{\"number_of_containers\":\"".spec_bytes(), decimal_digits(st.n_bitset_containers as nat), "\"},\"bitset_container\":{\"number_of_containers\":\"".spec_bytes());
    lemma_starts_append("\"},\"bitset_container\":{\"number_of_containers\":\"".spec_bytes() + decimal_digits(st.n_bitset_containers as nat), "\",\"container_cardinality\":\"".spec_bytes(), "\"},\"bitset_container\":{\"number_of_containers\":\"".spec_bytes());
    lemma_starts_append("\"},\"bitset_container\":{\"number_of_containers\":\"".spec_bytes() + decimal_digits(st.n_bitset_containers as nat) + "\",\"container_cardinality\":\"".spec_bytes(), decimal_digits(st.n_values_bitset_containers as nat), "\"},\"bitset_container\":{\"number_of_containers\":\"".spec_bytes());
    lemma_starts_append("\"},\"bitset_container\":{\"number_of_containers\":\"".spec_bytes() + decimal_digits(st.n_bitset_containers as nat) + "\",\"container_cardinality\":\"".spec_bytes() + decimal_digits(st.n_values_bitset_containers as nat), "\",\"container_allocated_bytes\":\"".spec_bytes(), "\"},\"bitset_container\":{\"number_of_containers\":\"".spec_bytes());
    lemma_starts_append("\"},\"bitset_container\":{\"number_of_containers\":\"".spec_bytes() + decimal_digits(st.n_bitset_containers as nat) + "\",\"container_cardinality\":\"".spec_bytes() + decimal_digits(st.n_values_bitset_containers as nat) + "\",\"container_allocated_bytes\":\"".spec_bytes(), decimal_digits(st.n_bytes_bitset_containers as nat), "\"},\"bitset_container\":{\"number_of_containers\":\"".spec_bytes());
    lemma_shows_across(text_kind("\",\"array_container\":{\"number_of_containers\":\"".spec_bytes(), "\",\"container_cardinality\":\"".spec_bytes(), "\",\"container_allocated_bytes\":\"".spec_bytes(), st.n_array_containers, st.n_values_array_containers, st.n_bytes_array_containers), text_kind("\"},\"bitset_container\":{\"number_of_containers\":\"".spec_bytes(), "\",\"container_cardinality\":\"".spec_bytes(), "\",\"container_allocated_bytes\":\"".spec_bytes(), st.n_bitset_containers, st.n_values_bitset_containers, st.n_bytes_bitset_containers), ("\",\"array_container\":{\"number_of_containers\":\"".spec_bytes() + decimal_digits(st.n_array_containers as nat) + "\",\"container_cardinality\":\"".spec_bytes() + decimal_digits(st.n_values_array_containers as nat) + "\",\"container_allocated_bytes\":\"".spec_bytes()), decimal_digits(st.n_bytes_array_containers as nat), "\"},\"bitset_container\":{\"number_of_containers\":\"".spec_bytes());
    lemma_shows_append(text_kind("\",\"array_container\":{\"number_of_containers\":\"".spec_bytes(), "\",\"container_cardinality\":\"".spec_bytes(), "\",\"container_allocated_bytes\":\"".spec_bytes(), st.n_array_containers, st.n_values_array_containers, st.n_bytes_array_containers) + text_kind("\"},\"bitset_container\":{\"number_of_containers\":\"".spec_bytes(), "\",\"container_cardinality\":\"".spec_bytes(), "\",\"container_allocated_bytes\":\"".spec_bytes(), st.n_bitset_containers, st.n_values_bitset_containers, st.n_bytes_bitset_containers), text_kind("\"},\"run_container\":{\"number_of_containers\":\"".spec_bytes(), "\",\"container_cardinality\":\"".spec_bytes(), "\",\"container_allocated_bytes\":\"".spec_bytes(), st.n_run_containers, st.n_values_run_containers, st.n_bytes_run_containers), ("\",\"array_container\":{\"number_of_containers\":\"".spec_bytes() + decimal_digits(st.n_array_containers as nat) + "\",\"container_cardinality\":\"".spec_bytes() + decimal_digits(st.n_values_array_containers as nat) + "\",\"container_allocated_bytes\":\"".spec_bytes()), decimal_digits(st.n_bytes_array_containers as nat), "\"},\"bitset_container\":{\"number_of_containers\":\"".spec_bytes());
    lemma_shows_append(text_kind("\",\"array_container\":{\"number_of_containers\":\"".spec_bytes(), "\",\"container_cardinality\":\"".spec_bytes(), "\",\"container_allocated_bytes\":\"".spec_bytes(), st.n_array_containers, st.n_values_array_containers, st.n_bytes_array_containers) + text_kind("\"},\"bitset_container\":{\"number_of_containers\":\"".spec_bytes(), "\",\"container_cardinality\":\"".spec_bytes(), "\",\"container_allocated_bytes\":\"".spec_bytes(), st.n_bitset_containers, st.n_values_bitset_containers, st.n_bytes_bitset_containers) + text_kind("\"},\"run_container\":{\"number_of_containers\":\"".spec_bytes(), "\",\"container_cardinality\":\"".spec_bytes(), "\",\"container_allocated_bytes\":\"".spec_bytes(), st.n_run_containers, st.n_values_run_containers, st.n_bytes_run_containers), "\"}}".spec_bytes(), ("\",\"array_container\":{\"number_of_containers\":\"".spec_bytes() + decimal_digits(st.n_array_containers as nat) + "\",\"container_cardinality\":\"".spec_bytes() + decimal_digits(st.n_values_array_containers as nat) + "\",\"container_allocated_bytes\":\"".spec_bytes()), decimal_digits(st.n_bytes_array_containers as nat), "\"},\"bitset_container\":{\"number_of_containers\":\"".spec_bytes());
    lemma_shows_prepend("{\"type\":\"bitmap\",\"cardinality\":\"".spec_bytes() + decimal_digits(st.cardinality as nat) + "\",\"number_of_containers\":\"".spec_bytes() + decimal_digits(st.n_containers as nat) + "\",\"max_value\":\"".spec_bytes() + optional_digits(st.max_value, "0".spec_bytes()) + "\",\"min_value\":\"".spec_bytes() + optional_digits(st.min_value, "0".spec_bytes()), json_breakdown(st), ("\",\"array_container\":{\"number_of_containers\":\"".spec_bytes() + decimal_digits(st.n_array_containers as nat) + "\",\"container_cardinality\":\"".spec_bytes() + decimal_digits(st.n_values_array_containers as nat) + "\",\"container_allocated_bytes\":\"".spec_bytes()), decimal_digits(st.n_bytes_array_containers as nat), "\"},\"bitset_container\":{\"number_of_containers\":\"".spec_bytes());
}

proof fn lemma_json32_field_7(b: RoaringBitmap, st: BitmapStats)
    ensures
        shows(b.stat_json_spec(st), ("\"},\"bitset_container\":{\"number_of_containers\":\"".spec_bytes()), decimal_digits(st.n_bitset_containers as nat), "\",\"container_cardinality\":\"".spec_bytes()),
{
    assert(b.stat_json_spec(st) == "{\"type\":\"bitmap\",\"cardinality\":\"".spec_bytes() + decimal_digits(st.cardinality as nat) + "\",\"number_of_containers\":\"".spec_bytes() + decimal_digits(st.n_containers as nat) + "\",\"max_value\":\"".spec_bytes() + optional_digits(st.max_value, "0".spec_bytes()) + "\",\"min_value\":\"".spec_bytes() + optional_digits(st.min_value, "0".spec_bytes()) + json_breakdown(st));
    assert("\"},\"bitset_container\":{\"number_of_containers\":\"".spec_bytes() + decimal_digits(st.n_bitset_containers as nat) + "\",\"container_cardinality\":\"".spec_bytes() =~= (Seq::<u8>::empty()) + ("\"},\"bitset_container\":{\"number_of_containers\":\"".spec_bytes()) + decimal_digits(st.n_bitset_containers as nat) + "\",\"container_cardinality\":\"".spec_bytes() + Seq::<u8>::empty());
    lemma_shows_append("\"},\"bitset_container\":{\"number_of_containers\":\"".spec_bytes() + decimal_digits(st.n_bitset_containers as nat) + "\",\"container_cardinality\":\"".spec_bytes(), decimal_digits(st.n_values_bitset_containers as nat), ("\"},\"bitset_container\":{\"number_of_containers\":\"".spec_bytes()), decimal_digits(st.n_bitset_containers as nat), "\",\"container_cardinality\":\"".spec_bytes());
    lemma_shows_append("\"},\"bitset_container\":{\"number_of_containers\":\"".spec_bytes() + decimal_digits(st.n_bitset_containers as nat) + "\",\"container_cardinality\":\"".spec_bytes() + decimal_digits(st.n_values_bitset_containers as nat), "\",\"container_allocated_bytes\":\"".spec_bytes(), ("\"},\"bitset_container\":{\"number_of_containers\":\"".spec_bytes()), decimal_digits(st.n_bitset_containers as nat), "\",\"container_cardinality\":\"".spec_bytes());
    lemma_shows_append("\"},\"bitset_container\":{\"number_of_containers\":\"".spec_bytes() + decimal_digits(st.n_bitset_containers as nat) + "\",\"container_cardinality\":\"".spec_bytes() + decimal_digits(st.n_values_bitset_containers as nat) + "\",\"container_allocated_bytes\":\"".spec_bytes(), decimal_digits(st.n_bytes_bitset_containers as nat), ("\"},\"bitset_container\":{\"number_of_containers\":\"".spec_bytes()), decimal_digits(st.n_bitset_containers as nat), "\",\"container_cardinality\":\"".spec_bytes());
    lemma_shows_prepend(text_kind("\",\"array_container\":{\"number_of_containers\":\"".spec_bytes(), "\",\"container_cardinality\":\"".spec_bytes(), "\",\"container_allocated_bytes\":\"".spec_bytes(), st.n_array_containers, st.n_values_array_containers, st.n_bytes_array_containers), text_kind("\"},\"bitset_container\":{\"number_of_containers\":\"".spec_bytes(), "\",\"container_cardinality\":\"".spec_bytes(), "\",\"container_allocated_bytes\":\"".spec_bytes(), st.n_bitset_containers, st.n_values_bitset_containers, st.n_bytes_bitset_containers), ("\"},\"bitset_container\":{\"number_of_containers\":\"".spec_bytes()), decimal_digits(st.n_bitset_containers as nat), "\",\"container_cardinality\":\"".spec_bytes());
    lemma_shows_append(text_kind("\",\"array_container\":{\"number_of_containers\":\"".spec_bytes(), "\",\"container_cardinality\":\"".spec_bytes(), "\",\"container_allocated_bytes\":\"".spec_bytes(), st.n_array_containers, st.n_values_array_containers, st.n_bytes_array_containers) + text_kind("\"},\"bitset_container\":{\"number_of_containers\":\"".spec_bytes(), "\",\"container_cardinality\":\"".spec_bytes(), "\",\"container_allocated_bytes\":\"".spec_bytes(), st.n_bitset_containers, st.n_values_bitset_containers, st.n_bytes_bitset_containers), text_kind("\"},\"run_container\":{\"number_of_containers\":\"".spec_bytes(), "\",\"container_cardinality\":\"".spec_bytes(), "\",\"container_allocated_bytes\":\"".spec_bytes(), st.n_run_containers, st.n_values_run_containers, st.n_bytes_run_containers), ("\"},\"bitset_container\":{\"number_of_containers\":\"".spec_bytes()), decimal_digits(st.n_bitset_containers as nat), "\",\"container_cardinality\":\"".spec_bytes());
    lemma_shows_append(text_kind("\",\"array_container\":{\"number_of_containers\":\"".spec_bytes(), "\",\"container_cardinality\":\"".spec_bytes(), "\",\"container_allocated_bytes\":\"".spec_bytes(), st.n_array_containers, st.n_values_array_containers, st.n_bytes_array_containers) + text_kind("\"},\"bitset_container\":{\"number_of_containers\":\"".spec_bytes(), "\",\"container_cardinality\":\"".spec_bytes(), "\",\"container_allocated_bytes\":\"".spec_bytes(), st.n_bitset_containers, st.n_values_bitset_containers, st.n_bytes_bitset_containers) + text_kind("\"},\"run_container\":{\"number_of_containers\":\"".spec_bytes(), "\",\"container_cardinality\":\"".spec_bytes(), "\",\"container_allocated_bytes\":\"".spec_bytes(), st.n_run_containers, st.n_values_run_containers, st.n_bytes_run_containers), "\"}}".spec_bytes(), ("\"},\"bitset_container\":{\"number_of_containers\":\"".spec_bytes()), decimal_digits(st.n_bitset_containers as nat), "\",\"container_cardinality\":\"".spec_bytes());
    lemma_shows_prepend("{\"type\":\"bitmap\",\"cardinality\":\"".spec_bytes() + decimal_digits(st.cardinality as nat) + "\",\"number_of_containers\":\"".spec_bytes() + decimal_digits(st.n_containers as nat) + "\",\"max_value\":\"".spec_bytes() + optional_digits(st.max_value, "0".spec_bytes()) + "\",\"min_value\":\"".spec_bytes() + optional_digits(st.min_value, "0".spec_bytes()), json_breakdown(st), ("\"},\"bitset_container\":{\"number_of_containers\":\"".spec_bytes()), decimal_digits(st.n_bitset_containers as nat), "\",\"container_cardinality\":\"".spec_bytes());
}

proof fn lemma_json32_field_8(b: RoaringBitmap, st: BitmapStats)
    ensures
        shows(b.stat_json_spec(st), ("\"},\"bitset_container\":{\"number_of_containers\":\"".spec_bytes() + decimal_digits(st.n_bitset_containers as nat) + "\",\"container_cardinality\":\"".spec_bytes()), decimal_digits(st.n_values_bitset_containers as nat), "\",\"container_allocated_bytes\":\"".spec_bytes()),
{
    assert(b.stat_json_spec(st) == "{\"type\":\"bitmap\",\"cardinality\":\"".spec_bytes() + decimal_digits(st.cardinality as nat) + "\",\"number_of_containers\":\"".spec_bytes() + decimal_digits(st.n_containers as nat) + "\",\"max_value\":\"".spec_bytes() + optional_digits(st.max_value, "0".spec_bytes()) + "\",\"min_value\":\"".spec_bytes() + optional_digits(st.min_value, "0".spec_bytes()) + json_breakdown(st));
    assert("\"},\"bitset_container\":{\"number_of_containers\":\"".spec_bytes() + decimal_digits(st.n_bitset_containers as nat) + "\",\"container_cardinality\":\"".spec_bytes() + decimal_digits(st.n_values_bitset_containers as nat) + "\",\"container_allocated_bytes\":\"".spec_bytes() =~= (Seq::<u8>::empty()) + ("\"},\"bitset_container\":{\"number_of_containers\":\"".spec_bytes() + decimal_digits(st.n_bitset_containers as nat) + "\",\"container_cardinality\":\"".spec_bytes()) + decimal_digits(st.n_values_bitset_containers as nat) + "\",\"container_allocated_bytes\":\"".spec_bytes() + Seq::<u8>::empty());
    lemma_shows_append("\"},\"bitset_container\":{\"number_of_containers\":\"".spec_bytes() + decimal_digits(st.n_bitset_containers as nat) + "\",\"container_cardinality\":\"".spec_bytes() + decimal_digits(st.n_values_bitset_containers as nat) + "\",\"container_allocated_bytes\":\"".spec_bytes(), decimal_digits(st.n_bytes_bitset_containers as nat), ("\"},\"bitset_container\":{\"number_of_containers\":\"".spec_bytes() + decimal_digits(st.n_bitset_containers as nat) + "\",\"container_cardinality\":\"".spec_bytes()), decimal_digits(st.n_values_bitset_containers as nat), "\",\"container_allocated_bytes\":\"".spec_bytes());
    lemma_shows_prepend(text_kind("\",\"array_container\":{\"number_of_containers\":\"".spec_bytes(), "\",\"container_cardinality\":\"".spec_bytes(), "\",\"container_allocated_bytes\":\"".spec_bytes(), st.n_array_containers, st.n_values_array_containers, st.n_bytes_array_containers), text_kind("\"},\"bitset_container\":{\"number_of_containers\":\"".spec_bytes(), "\",\"container_cardinality\":\"".spec_bytes(), "\",\"container_allocated_bytes\":\"".spec_bytes(), st.n_bitset_containers, st.n_values_bitset_containers, st.n_bytes_bitset_containers), ("\"},\"bitset_container\":{\"number_of_containers\":\"".spec_bytes() + decimal_digits(st.n_bitset_containers as nat) + "\",\"container_cardinality\":\"".spec_bytes()), decimal_digits(st.n_values_bitset_containers as nat), "\",\"container_allocated_bytes\":\"".spec_bytes());
    lemma_shows_append(text_kind("\",\"array_container\":{\"number_of_containers\":\"".spec_bytes(), "\",\"container_cardinality\":\"".spec_bytes(), "\",\"container_allocated_bytes\":\"".spec_bytes(), st.n_array_containers, st.n_values_array_containers, st.n_bytes_array_containers) + text_kind("\"},\"bitset_container\":{\"number_of_containers\":\"".spec_bytes(), "\",\"container_cardinality\":\"".spec_bytes(), "\",\"container_allocated_bytes\":\"".spec_bytes(), st.n_bitset_containers, st.n_values_bitset_containers, st.n_bytes_bitset_containers), text_kind("\"},\"run_container\":{\"number_of_containers\":\"".spec_bytes(), "\",\"container_cardinality\":\"".spec_bytes(), "\",\"container_allocated_bytes\":\"".spec_bytes(), st.n_run_containers, st.n_values_run_containers, st.n_bytes_run_containers), ("\"},\"bitset_container\":{\"number_of_containers\":\"".spec_bytes() + decimal_digits(st.n_bitset_containers as nat) + "\",\"container_cardinality\":\"".spec_bytes()), decimal_digits(st.n_values_bitset_containers as nat), "\",\"container_allocated_bytes\":\"".spec_bytes());
    lemma_shows_append(text_kind("\",\"array_container\":{\"number_of_containers\":\"".spec_bytes(), "\",\"container_cardinality\":\"".spec_bytes(), "\",\"container_allocated_bytes\":\"".spec_bytes(), st.n_array_containers, st.n_values_array_containers, st.n_bytes_array_containers) + text_kind("\"},\"bitset_container\":{\"number_of_containers\":\"".spec_bytes(), "\",\"container_cardinality\":\"".spec_bytes(), "\",\"container_allocated_bytes\":\"".spec_bytes(), st.n_bitset_containers, st.n_values_bitset_containers, st.n_bytes_bitset_containers) + text_kind("\"},\"run_container\":{\"number_of_containers\":\"".spec_bytes(), "\",\"container_cardinality\":\"".spec_bytes(), "\",\"container_allocated_bytes\":\"".spec_bytes(), st.n_run_containers, st.n_values_run_containers, st.n_bytes_run_containers), "\"}}".spec_bytes(), ("\"},\"bitset_container\":{\"number_of_containers\":\"".spec_bytes() + decimal_digits(st.n_bitset_containers as nat) + "\",\"container_cardinality\":\"".spec_bytes()), decimal_digits(st.n_values_bitset_containers as nat), "\",\"container_allocated_bytes\":\"".spec_bytes());
    lemma_shows_prepend("{\"type\":\"bitmap\",\"cardinality\":\"".spec_bytes() + decimal_digits(st.cardinality as nat) + "\",\"number_of_containers\":\"".spec_bytes() + decimal_digits(st.n_containers as nat) + "\",\"max_value\":\"".spec_bytes() + optional_digits(st.max_value, "0".spec_bytes()) + "\",\"min_value\":\"".spec_bytes() + optional_digits(st.min_value, "0".spec_bytes()), json_breakdown(st), ("\"},\"bitset_container\":{\"number_of_containers\":\"".spec_bytes() + decimal_digits(st.n_bitset_containers as nat) + "\",\"container_cardinality\":\"".spec_bytes()), decimal_digits(st.n_values_bitset_containers as nat), "\",\"container_allocated_bytes\":\"".spec_bytes());
}

proof fn lemma_json32_field_9(b: RoaringBitmap, st: BitmapStats)
    ensures
        shows(b.stat_json_spec(st), ("\"},\"bitset_container\":{\"number_of_containers\":\"".spec_bytes() + decimal_digits(st.n_bitset_containers as nat) + "\",\"container_cardinality\":\"".spec_bytes() + decimal_digits(st.n_values_bitset_containers as nat) + "\",\"container_allocated_bytes\":\"".spec_bytes()), decimal_digits(st.n_bytes_bitset_containers as nat), "\"},\"run_container\":{\"number_of_containers\":\"".spec_bytes()),
{
    assert(b.stat_json_spec(st) == "{\"type\":\"bitmap\",\"cardinality\":\"".spec_bytes() + decimal_digits(st.cardinality as nat) + "\",\"number_of_containers\":\"".spec_bytes() + decimal_digits(st.n_containers as nat) + "\",\"max_value\":\"".spec_bytes() + optional_digits(st.max_value, "0".spec_bytes()) + "\",\"min_value\":\"".spec_bytes() + optional_digits(st.min_value, "0".spec_bytes()) + json_breakdown(st));
    assert("\"},\"bitset_container\":{\"number_of_containers\":\"".spec_bytes() + decimal_digits(st.n_bitset_containers as nat) + "\",\"container_cardinality\":\"".spec_bytes() + decimal_digits(st.n_values_bitset_containers as nat) + "\",\"container_allocated_bytes\":\"".spec_bytes() + decimal_digits(st.n_bytes_bitset_containers as nat) =~= (Seq::<u8>::empty()) + ("\"},\"bitset_container\":{\"number_of_containers\":\"".spec_bytes() + decimal_digits(st.n_bitset_containers as nat) + "\",\"container_cardinality\":\"".spec_bytes() + decimal_digits(st.n_values_bitset_containers as nat) + "\",\"container_allocated_bytes\":\"".spec_bytes()) + decimal_digits(st.n_bytes_bitset_containers as nat));
    lemma_ends_prepend(text_kind("\",\"array_container\":{\"number_of_containers\":\"".spec_bytes(), "\",\"container_cardinality\":\"".spec_bytes(), "\",\"container_allocated_bytes\":\"".spec_bytes(), st.n_array_containers, st.n_values_array_containers, st.n_bytes_array_containers), text_kind("\"},\"bitset_container\":{\"number_of_containers\":\"".spec_bytes(), "\",\"container_cardinality\":\"".spec_bytes(), "\",\"container_allocated_bytes\":\"".spec_bytes(), st.n_bitset_containers, st.n_values_bitset_containers, st.n_bytes_bitset_containers), ("\"},\"bitset_container\":{\"number_of_containers\":\"".spec_bytes() + decimal_digits(st.n_bitset_containers as nat) + "\",\"container_cardinality\":\"".spec_bytes() + decimal_digits(st.n_values_bitset_containers as nat) + "\",\"container_allocated_bytes\":\"".spec_bytes()), decimal_digits(st.n_bytes_bitset_containers as nat));
    assert("\"},\"run_container\":{\"number_of_containers\":\"".spec_bytes() =~= "\"},\"run_container\":{\"number_of_containers\":\"".spec_bytes() + Seq::<u8>::empty());
    lemma_starts_append("\"},\"run_container\":{\"number_of_containers\":\"".spec_bytes(), decimal_digits(st.n_run_containers as nat), "\"},\"run_container\":{\"number_of_containers\":\"".spec_bytes());
    lemma_starts_append("\"},\"run_container\":{\"number_of_containers\":\"".spec_bytes() + decimal_digits(st.n_run_containers as nat), "\",\"container_cardinality\":\"".spec_bytes(), "\"},\"run_container\":{\"number_of_containers\":\"".spec_bytes());
    lemma_starts_append("\"},\"run_container\":{\"number_of_containers\":\"".spec_bytes() + decimal_digits(st.n_run_containers as nat) + "\",\"container_cardinality\":\"".spec_bytes(), decimal_digits(st.n_values_run_containers as nat), "\"},\"run_container\":{\"number_of_containers\":\"".spec_bytes());
    lemma_starts_append("\"},\"run_container\":{\"number_of_containers\":\"".spec_bytes() + decimal_digits(st.n_run_containers as nat) + "\",\"container_cardinality\":\"".spec_bytes() + decimal_digits(st.n_values_run_containers as nat), "\",\"container_allocated_bytes\":\"".spec_bytes(), "\"},\"run_container\":{\"number_of_containers\":\"".spec_bytes());
    lemma_starts_append("\"},\"run_container\":{\"number_of_containers\":\"".spec_bytes() + decimal_digits(st.n_run_containers as nat) + "\",\"container_cardinality\":\"".spec_bytes() + decimal_digits(st.n_values_run_containers as nat) + "\",\"container_allocated_bytes\":\"".spec_bytes(), decimal_digits(st.n_bytes_run_containers as nat), "\"},\"run_container\":{\"number_of_containers\":\"".spec_bytes());
    lemma_shows_across(text_kind("\",\"array_container\":{\"number_of_containers\":\"".spec_bytes(), "\",\"container_cardinality\":\"".spec_bytes(), "\",\"container_allocated_bytes\":\"".spec_bytes(), st.n_array_containers, st.n_values_array_containers, st.n_bytes_array_containers) + text_kind("\"},\"bitset_container\":{\"number_of_containers\":\"".spec_bytes(), "\",\"container_cardinality\":\"".spec_bytes(), "\",\"container_allocated_bytes\":\"".spec_bytes(), st.n_bitset_containers, st.n_values_bitset_containers, st.n_bytes_bitset_containers), text_kind("\"},\"run_container\":{\"number_of_containers\":\"".spec_bytes(), "\",\"container_cardinality\":\"".spec_bytes(), "\",\"container_allocated_bytes\":\"".spec_bytes(), st.n_run_containers, st.n_values_run_containers, st.n_bytes_run_containers), ("\"},\"bitset_container\":{\"number_of_containers\":\"".spec_bytes() + decimal_digits(st.n_bitset_containers as nat) + "\",\"container_cardinality\":\"".spec_bytes() + decimal_digits(st.n_values_bitset_containers as nat) + "\",\"container_allocated_bytes\":\"".spec_bytes()), decimal_digits(st.n_bytes_bitset_containers as nat), "\"},\"run_container\":{\"number_of_containers\":\"".spec_bytes());
    lemma_shows_append(text_kind("\",\"array_container\":{\"number_of_containers\":\"".spec_bytes(), "\",\"container_cardinality\":\"".spec_bytes(), "\",\"container_allocated_bytes\":\"".spec_bytes(), st.n_array_containers, st.n_values_array_containers, st.n_bytes_array_containers) + text_kind("\"},\"bitset_container\":{\"number_of_containers\":\"".spec_bytes(), "\",\"container_cardinality\":\"".spec_bytes(), "\",\"container_allocated_bytes\":\"".spec_bytes(), st.n_bitset_containers, st.n_values_bitset_containers, st.n_bytes_bitset_containers) + text_kind("\"},\"run_container\":{\"number_of_containers\":\"".spec_bytes(), "\",\"container_cardinality\":\"".spec_bytes(), "\",\"container_allocated_bytes\":\"".spec_bytes(), st.n_run_containers, st.n_values_run_containers, st.n_bytes_run_containers), "\"}}".spec_bytes(), ("\"},\"bitset_container\":{\"number_of_containers\":\"".spec_bytes() + decimal_digits(st.n_bitset_containers as nat) + "\",\"container_cardinality\":\"".spec_bytes() + decimal_digits(st.n_values_bitset_containers as nat) + "\",\"container_allocated_bytes\":\"".spec_bytes()), decimal_digits(st.n_bytes_bitset_containers as nat), "\"},\"run_container\":{\"number_of_containers\":\"".spec_bytes());
    lemma_shows_prepend("{\"type\":\"bitmap\",\"cardinality\":\"".spec_bytes() + decimal_digits(st.cardinality as nat) + "\",\"number_of_containers\":\"".spec_bytes() + decimal_digits(st.n_containers as nat) + "\",\"max_value\":\"".spec_bytes() + optional_digits(st.max_value, "0".spec_bytes()) + "\",\"min_value\":\"".spec_bytes() + optional_digits(st.min_value, "0".spec_bytes()), json_breakdown(st), ("\"},\"bitset_container\":{\"number_of_containers\":\"".spec_bytes() + decimal_digits(st.n_bitset_containers as nat) + "\",\"container_cardinality\":\"".spec_bytes() + decimal_digits(st.n_values_bitset_containers as nat) + "\",\"container_allocated_bytes\":\"".spec_bytes()), decimal_digits(st.n_bytes_bitset_containers as nat), "\"},\"run_container\":{\"number_of_containers\":\"".spec_bytes());
}

proof fn lemma_json32_field_10(b: RoaringBitmap, st: BitmapStats)
    ensures
        shows(b.stat_json_spec(st), ("\"},\"run_container\":{\"number_of_containers\":\"".spec_bytes()), decimal_digits(st.n_run_containers as nat), "\",\"container_cardinality\":\"".spec_bytes()),
{
    assert(b.stat_json_spec(st) == "{\"type\":\"bitmap\",\"cardinality\":\"".spec_bytes() + decimal_digits(st.cardinality as nat) + "\",\"number_of_containers\":\"".spec_bytes() + decimal_digits(st.n_containers as nat) + "\",\"max_value\":\"".spec_bytes() + optional_digits(st.max_value, "0".spec_bytes()) + "\",\"min_value\":\"".spec_bytes() + optional_digits(st.min_value, "0".spec_bytes()) + json_breakdown(st));
    assert("\"},\"run_container\":{\"number_of_containers\":\"".spec_bytes() + decimal_digits(st.n_run_containers as nat) + "\",\"container_cardinality\":\"".spec_bytes() =~= (Seq::<u8>::empty()) + ("\"},\"run_container\":{\"number_of_containers\":\"".spec_bytes()) + decimal_digits(st.n_run_containers as nat) + "\",\"container_cardinality\":\"".spec_bytes() + Seq::<u8>::empty());
    lemma_shows_append("\"},\"run_container\":{\"number_of_containers\":\"".spec_bytes() + decimal_digits(st.n_run_containers as nat) + "\",\"container_cardinality\":\"".spec_bytes(), decimal_digits(st.n_values_run_containers as nat), ("\"},\"run_container\":{\"number_of_containers\":\"".spec_bytes()), decimal_digits(st.n_run_containers as nat), "\",\"container_cardinality\":\"".spec_bytes());
    lemma_shows_append("\"},\"run_container\":{\"number_of_containers\":\"".spec_bytes() + decimal_digits(st.n_run_containers as nat) + "\",\"container_cardinality\":\"".spec_bytes() + decimal_digits(st.n_values_run_containers as nat), "\",\"container_allocated_bytes\":\"".spec_bytes(), ("\"},\"run_container\":{\"number_of_containers\":\"".spec_bytes()), decimal_digits(st.n_run_containers as nat), "\",\"container_cardinality\":\"".spec_bytes());
    lemma_shows_append("\"},\"run_container\":{\"number_of_containers\":\"".spec_bytes() + decimal_digits(st.n_run_containers as nat) + "\",\"container_cardinality\":\"".spec_bytes() + decimal_digits(st.n_values_run_containers as nat) + "\",\"container_allocated_bytes\":\"".spec_bytes(), decimal_digits(st.n_bytes_run_containers as nat), ("\"},\"run_container\":{\"number_of_containers\":\"".spec_bytes()), decimal_digits(st.n_run_containers as nat), "\",\"container_cardinality\":\"".spec_bytes());
    lemma_shows_prepend(text_kind("\",\"array_container\":{\"number_of_containers\":\"".spec_bytes(), "\",\"container_cardinality\":\"".spec_bytes(), "\",\"container_allocated_bytes\":\"".spec_bytes(), st.n_array_containers, st.n_values_array_containers, st.n_bytes_array_containers) + text_kind("\"},\"bitset_container\":{\"number_of_containers\":\"".spec_bytes(), "\",\"container_cardinality\":\"".spec_bytes(), "\",\"container_allocated_bytes\":\"".spec_bytes(), st.n_bitset_containers, st.n_values_bitset_containers, st.n_bytes_bitset_containers), text_kind("\"},\"run_container\":{\"number_of_containers\":\"".spec_bytes(), "\",\"container_cardinality\":\"".spec_bytes(), "\",\"container_allocated_bytes\":\"".spec_bytes(), st.n_run_containers, st.n_values_run_containers, st.n_bytes_run_containers), ("\"},\"run_container\":{\"number_of_containers\":\"".spec_bytes()), decimal_digits(st.n_run_containers as nat), "\",\"container_cardinality\":\"".spec_bytes());
    lemma_shows_append(text_kind("\",\"array_container\":{\"number_of_containers\":\"".spec_bytes(), "\",\"container_cardinality\":\"".spec_bytes(), "\",\"container_allocated_bytes\":\"".spec_bytes(), st.n_array_containers, st.n_values_array_containers, st.n_bytes_array_containers) + text_kind("\"},\"bitset_container\":{\"number_of_containers\":\"".spec_bytes(), "\",\"container_cardinality\":\"".spec_bytes(), "\",\"container_allocated_bytes\":\"".spec_bytes(), st.n_bitset_containers, st.n_values_bitset_containers, st.n_bytes_bitset_containers) + text_kind("\"},\"run_container\":{\"number_of_containers\":\"".spec_bytes(), "\",\"container_cardinality\":\"".spec_bytes(), "\",\"container_allocated_bytes\":\"".spec_bytes(), st.n_run_containers, st.n_values_run_containers, st.n_bytes_run_containers), "\"}}".spec_bytes(), ("\"},\"run_container\":{\"number_of_containers\":\"".spec_bytes()), decimal_digits(st.n_run_containers as nat), "\",\"container_cardinality\":\"".spec_bytes());
    lemma_shows_prepend("{\"type\":\"bitmap\",\"cardinality\":\"".spec_bytes() + decimal_digits(st.cardinality as nat) + "\",\"number_of_containers\":\"".spec_bytes() + decimal_digits(st.n_containers as nat) + "\",\"max_value\":\"".spec_bytes() + optional_digits(st.max_value, "0".spec_bytes()) + "\",\"min_value\":\"".spec_bytes() + optional_digits(st.min_value, "0".spec_bytes()), json_breakdown(st), ("\"},\"run_container\":{\"number_of_containers\":\"".spec_bytes()), decimal_digits(st.n_run_containers as nat), "\",\"container_cardinality\":\"".spec_bytes());
}

proof fn lemma_json32_field_11(b: RoaringBitmap, st: BitmapStats)
    ensures
        shows(b.stat_json_spec(st), ("\"},\"run_container\":{\"number_of_containers\":\"".spec_bytes() + decimal_digits(st.n_run_containers as nat) + "\",\"container_cardinality\":\"".spec_bytes()), decimal_digits(st.n_values_run_containers as nat), "\",\"container_allocated_bytes\":\"".spec_bytes()),
{
    assert(b.stat_json_spec(st) == "{\"type\":\"bitmap\",\"cardinality\":\"".spec_bytes() + decimal_digits(st.cardinality as nat) + "\",\"number_of_containers\":\"".spec_bytes() + decimal_digits(st.n_containers as nat) + "\",\"max_value\":\"".spec_bytes() + optional_digits(st.max_value, "0".spec_bytes()) + "\",\"min_value\":\"".spec_bytes() + optional_digits(st.min_value, "0".spec_bytes()) + json_breakdown(st));
    assert("\"},\"run_container\":{\"number_of_containers\":\"".spec_bytes() + decimal_digits(st.n_run_containers as nat) + "\",\"container_cardinality\":\"".spec_bytes() + decimal_digits(st.n_values_run_containers as nat) + "\",\"container_allocated_bytes\":\"".spec_bytes() =~= (Seq::<u8>::empty()) + ("\"},\"run_container\":{\"number_of_containers\":\"".spec_bytes() + decimal_digits(st.n_run_containers as nat) + "\",\"container_cardinality\":\"".spec_bytes()) + decimal_digits(st.n_values_run_containers as nat) + "\",\"container_allocated_bytes\":\"".spec_bytes() + Seq::<u8>::empty());
    lemma_shows_append("\"},\"run_container\":{\"number_of_containers\":\"".spec_bytes() + decimal_digits(st.n_run_containers as nat) + "\",\"container_cardinality\":\"".spec_bytes() + decimal_digits(st.n_values_run_containers as nat) + "\",\"container_allocated_bytes\":\"".spec_bytes(), decimal_digits(st.n_bytes_run_containers as nat), ("\"},\"run_container\":{\"number_of_containers\":\"".spec_bytes() + decimal_digits(st.n_run_containers as nat) + "\",\"container_cardinality\":\"".spec_bytes()), decimal_digits(st.n_values_run_containers as nat), "\",\"container_allocated_bytes\":\"".spec_bytes());
    lemma_shows_prepend(text_kind("\",\"array_container\":{\"number_of_containers\":\"".spec_bytes(), "\",\"container_cardinality\":\"".spec_bytes(), "\",\"container_allocated_bytes\":\"".spec_bytes(), st.n_array_containers, st.n_values_array_containers, st.n_bytes_array_containers) + text_kind("\"},\"bitset_container\":{\"number_of_containers\":\"".spec_bytes(), "\",\"container_cardinality\":\"".spec_bytes(), "\",\"container_allocated_bytes\":\"".spec_bytes(), st.n_bitset_containers, st.n_values_bitset_containers, st.n_bytes_bitset_containers), text_kind("\"},\"run_container\":{\"number_of_containers\":\"".spec_bytes(), "\",\"container_cardinality\":\"".spec_bytes(), "\",\"container_allocated_bytes\":\"".spec_bytes(), st.n_run_containers, st.n_values_run_containers, st.n_bytes_run_containers), ("\"},\"run_container\":{\"number_of_containers\":\"".spec_bytes() + decimal_digits(st.n_run_containers as nat) + "\",\"container_cardinality\":\"".spec_bytes()), decimal_digits(st.n_values_run_containers as nat), "\",\"container_allocated_bytes\":\"".spec_bytes());
    lemma_shows_append(text_kind("\",\"array_container\":{\"number_of_containers\":\"".spec_bytes(), "\",\"container_cardinality\":\"".spec_bytes(), "\",\"container_allocated_bytes\":\"".spec_bytes(), st.n_array_containers, st.n_values_array_containers, st.n_bytes_array_containers) + text_kind("\"},\"bitset_container\":{\"number_of_containers\":\"".spec_bytes(), "\",\"container_cardinality\":\"".spec_bytes(), "\",\"container_allocated_bytes\":\"".spec_bytes(), st.n_bitset_containers, st.n_values_bitset_containers, st.n_bytes_bitset_containers) + text_kind("\"},\"run_container\":{\"number_of_containers\":\"".spec_bytes(), "\",\"container_cardinality\":\"".spec_bytes(), "\",\"container_allocated_bytes\":\"".spec_bytes(), st.n_run_containers, st.n_values_run_containers, st.n_bytes_run_containers), "\"}}".spec_bytes(), ("\"},\"run_container\":{\"number_of_containers\":\"".spec_bytes() + decimal_digits(st.n_run_containers as nat) + "\",\"container_cardinality\":\"".spec_bytes()), decimal_digits(st.n_values_run_containers as nat), "\",\"container_allocated_bytes\":\"".spec_bytes());
    lemma_shows_prepend("{\"type\":\"bitmap\",\"cardinality\":\"".spec_bytes() + decimal_digits(st.cardinality as nat) + "\",\"number_of_containers\":\"".spec_bytes() + decimal_digits(st.n_containers as nat) + "\",\"max_value\":\"".spec_bytes() + optional_digits(st.max_value, "0".spec_bytes()) + "\",\"min_value\":\"".spec_bytes() + optional_digits(st.min_value, "0".spec_bytes()), json_breakdown(st), ("\"},\"run_container\":{\"number_of_containers\":\"".spec_bytes() + decimal_digits(st.n_run_containers as nat) + "\",\"container_cardinality\":\"".spec_bytes()), decimal_digits(st.n_values_run_containers as nat), "\",\"container_allocated_bytes\":\"".spec_bytes());
}

proof fn lemma_json32_field_12(b: RoaringBitmap, st: BitmapStats)
    ensures
        shows(b.stat_json_spec(st), ("\"},\"run_container\":{\"number_of_containers\":\"".spec_bytes() + decimal_digits(st.n_run_containers as nat) + "\",\"container_cardinality\":\"".spec_bytes() + decimal_digits(st.n_values_run_containers as nat) + "\",\"container_allocated_bytes\":\"".spec_bytes()), decimal_digits(st.n_bytes_run_containers as nat), "\"}}".spec_bytes()),
{
    assert(b.stat_json_spec(st) == "{\"type\":\"bitmap\",\"cardinality\":\"".spec_bytes() + decimal_digits(st.cardinality as nat) + "\",\"number_of_containers\":\"".spec_bytes() + decimal_digits(st.n_containers as nat) + "\",\"max_value\":\"".spec_bytes() + optional_digits(st.max_value, "0".spec_bytes()) + "\",\"min_value\":\"".spec_bytes() + optional_digits(st.min_value, "0".spec_bytes()) + json_breakdown(st));
    assert("\"},\"run_container\":{\"number_of_containers\":\"".spec_bytes() + decimal_digits(st.n_run_containers as nat) + "\",\"container_cardinality\":\"".spec_bytes() + decimal_digits(st.n_values_run_containers as nat) + "\",\"container_allocated_bytes\":\"".spec_bytes() + decimal_digits(st.n_bytes_run_containers as nat) =~= (Seq::<u8>::empty()) + ("\"},\"run_container\":{\"number_of_containers\":\"".spec_bytes() + decimal_digits(st.n_run_containers as nat) + "\",\"container_cardinality\":\"".spec_bytes() + decimal_digits(st.n_values_run_containers as nat) + "\",\"container_allocated_bytes\":\"".spec_bytes()) + decimal_digits(st.n_bytes_run_containers as nat));
    lemma_ends_prepend(text_kind("\",\"array_container\":{\"number_of_containers\":\"".spec_bytes(), "\",\"container_cardinality\":\"".spec_bytes(), "\",\"container_allocated_bytes\":\"".spec_bytes(), st.n_array_containers, st.n_values_array_containers, st.n_bytes_array_containers) + text_kind("\"},\"bitset_container\":{\"number_of_containers\":\"".spec_bytes(), "\",\"container_cardinality\":\"".spec_bytes(), "\",\"container_allocated_bytes\":\"".spec_bytes(), st.n_bitset_containers, st.n_values_bitset_containers, st.n_bytes_bitset_containers), text_kind("\"},\"run_container\":{\"number_of_containers\":\"".spec_bytes(), "\",\"container_cardinality\":\"".spec_bytes(), "\",\"container_allocated_bytes\":\"".spec_bytes(), st.n_run_containers, st.n_values_run_containers, st.n_bytes_run_containers), ("\"},\"run_container\":{\"number_of_containers\":\"".spec_bytes() + decimal_digits(st.n_run_containers as nat) + "\",\"container_cardinality\":\"".spec_bytes() + decimal_digits(st.n_values_run_containers as nat) + "\",\"container_allocated_bytes\":\"".spec_bytes()), decimal_digits(st.n_bytes_run_containers as nat));
    assert("\"}}".spec_bytes() =~= "\"}}".spec_bytes() + Seq::<u8>::empty());
    lemma_shows_across(text_kind("\",\"array_container\":{\"number_of_containers\":\"".spec_bytes(), "\",\"container_cardinality\":\"".spec_bytes(), "\",\"container_allocated_bytes\":\"".spec_bytes(), st.n_array_containers, st.n_values_array_containers, st.n_bytes_array_containers) + text_kind("\"},\"bitset_container\":{\"number_of_containers\":\"".spec_bytes(), "\",\"container_cardinality\":\"".spec_bytes(), "\",\"container_allocated_bytes\":\"".spec_bytes(), st.n_bitset_containers, st.n_values_bitset_containers, st.n_bytes_bitset_containers) + text_kind("\"},\"run_container\":{\"number_of_containers\":\"".spec_bytes(), "\",\"container_cardinality\":\"".spec_bytes(), "\",\"container_allocated_bytes\":\"".spec_bytes(), st.n_run_containers, st.n_values_run_containers, st.n_bytes_run_containers), "\"}}".spec_bytes(), ("\"},\"run_container\":{\"number_of_containers\":\"".spec_bytes() + decimal_digits(st.n_run_containers as nat) + "\",\"container_cardinality\":\"".spec_bytes() + decimal_digits(st.n_values_run_containers as nat) + "\",\"container_allocated_bytes\":\"".spec_bytes()), decimal_digits(st.n_bytes_run_containers as nat), "\"}}".spec_bytes());
    lemma_shows_prepend("{\"type\":\"bitmap\",\"cardinality\":\"".spec_bytes() + decimal_digits(st.cardinality as nat) + "\",\"number_of_containers\":\"".spec_bytes() + decimal_digits(st.n_containers as nat) + "\",\"max_value\":\"".spec_bytes() + optional_digits(st.max_value, "0".spec_bytes()) + "\",\"min_value\":\"".spec_bytes() + optional_digits(st.min_value, "0".spec_bytes()), json_breakdown(st), ("\"},\"run_container\":{\"number_of_containers\":\"".spec_bytes() + decimal_digits(st.n_run_containers as nat) + "\",\"container_cardinality\":\"".spec_bytes() + decimal_digits(st.n_values_run_containers as nat) + "\",\"container_allocated_bytes\":\"".spec_bytes()), decimal_digits(st.n_bytes_run_containers as nat), "\"}}".spec_bytes());
}

/// The `R.STAT` JSON of a 32-bit bitmap, read label by label: the
/// cardinality and the extremes are those of the bitmap, and every
/// container figure of its statistics stands under its own label.
pub proof fn stat_json32_reads_back(b: RoaringBitmap, st: BitmapStats)
    requires
        b.stats_fit(st),
    ensures
        shows(b.stat_json_spec(st), ("{\"type\":\"bitmap\",\"cardinality\":\"".spec_bytes()), decimal_digits(b.view_set().len()), "\",\"number_of_containers\":\"".spec_bytes()),
        shows(b.stat_json_spec(st), ("\",\"number_of_containers\":\"".spec_bytes()), decimal_digits(st.n_containers as nat), "\",\"max_value\":\"".spec_bytes()),
        forall|g: u32| is_greatest(value_of::<RoaringBitmap>(), b.view_set(), g) ==> shows(b.stat_json_spec(st), ("\",\"max_value\":\"".spec_bytes()), decimal_digits(g as nat), "\",\"min_value\":\"".spec_bytes()),
        b.view_set() == Set::<u32>::empty() ==> shows(b.stat_json_spec(st), ("\",\"max_value\":\"".spec_bytes()), "0".spec_bytes(), "\",\"min_value\":\"".spec_bytes()),
        forall|g: u32| is_least(value_of::<RoaringBitmap>(), b.view_set(), g) ==> shows(b.stat_json_spec(st), ("\",\"min_value\":\"".spec_bytes()), decimal_digits(g as nat), "\",\"array_container\":{\"number_of_containers\":\"".spec_bytes()),
        b.view_set() == Set::<u32>::empty() ==> shows(b.stat_json_spec(st), ("\",\"min_value\":\"".spec_bytes()), "0".spec_bytes(), "\",\"array_container\":{\"number_of_containers\":\"".spec_bytes()),
        shows(b.stat_json_spec(st), ("\",\"array_container\":{\"number_of_containers\":\"".spec_bytes()), decimal_digits(st.n_array_containers as nat), "\",\"container_cardinality\":\"".spec_bytes()),
        shows(b.stat_json_spec(st), ("\",\"array_container\":{\"number_of_containers\":\"".spec_bytes() + decimal_digits(st.n_array_containers as nat) + "\",\"container_cardinality\":\"".spec_bytes()), decimal_digits(st.n_values_array_containers as nat), "\",\"container_allocated_bytes\":\"".spec_bytes()),
        shows(b.stat_json_spec(st), ("\",\"array_container\":{\"number_of_containers\":\"".spec_bytes() + decimal_digits(st.n_array_containers as nat) + "\",\"container_cardinality\":\"".spec_bytes() + decimal_digits(st.n_values_array_containers as nat) + "\",\"container_allocated_bytes\":\"".spec_bytes()), decimal_digits(st.n_bytes_array_containers as nat), "\"},\"bitset_container\":{\"number_of_containers\":\"".spec_bytes()),
        shows(b.stat_json_spec(st), ("\"},\"bitset_container\":{\"number_of_containers\":\"".spec_bytes()), decimal_digits(st.n_bitset_containers as nat), "\",\"container_cardinality\":\"".spec_bytes()),
        shows(b.stat_json_spec(st), ("\"},\"bitset_container\":{\"number_of_containers\":\"".spec_bytes() + decimal_digits(st.n_bitset_containers as nat) + "\",\"container_cardinality\":\"".spec_bytes()), decimal_digits(st.n_values_bitset_containers as nat), "\",\"container_allocated_bytes\":\"".spec_bytes()),
        shows(b.stat_json_spec(st), ("\"},\"bitset_container\":{\"number_of_containers\":\"".spec_bytes() + decimal_digits(st.n_bitset_containers as nat) + "\",\"container_cardinality\":\"".spec_bytes() + decimal_digits(st.n_values_bitset_containers as nat) + "\",\"container_allocated_bytes\":\"".spec_bytes()), decimal_digits(st.n_bytes_bitset_containers as nat), "\"},\"run_container\":{\"number_of_containers\":\"".spec_bytes()),
        shows(b.stat_json_spec(st), ("\"},\"run_container\":{\"number_of_containers\":\"".spec_bytes()), decimal_digits(st.n_run_containers as nat), "\",\"container_cardinality\":\"".spec_bytes()),
        shows(b.stat_json_spec(st), ("\"},\"run_container\":{\"number_of_containers\":\"".spec_bytes() + decimal_digits(st.n_run_containers as nat) + "\",\"container_cardinality\":\"".spec_bytes()), decimal_digits(st.n_values_run_containers as nat), "\",\"container_allocated_bytes\":\"".spec_bytes()),
        shows(b.stat_json_spec(st), ("\"},\"run_container\":{\"number_of_containers\":\"".spec_bytes() + decimal_digits(st.n_run_containers as nat) + "\",\"container_cardinality\":\"".spec_bytes() + decimal_digits(st.n_values_run_containers as nat) + "\",\"container_allocated_bytes\":\"".spec_bytes()), decimal_digits(st.n_bytes_run_containers as nat), "\"}}".spec_bytes()),
{
    assert(st.cardinality as nat == b.view_set().len());
    lemma_no_extremes_32(b, st);
    lemma_json32_field_0(b, st);
    lemma_json32_field_1(b, st);
    lemma_json32_field_2(b, st);
    assert forall|g: u32| is_greatest(value_of::<RoaringBitmap>(), b.view_set(), g) implies shows(b.stat_json_spec(st), ("\",\"max_value\":\"".spec_bytes()), decimal_digits(g as nat), "\",\"min_value\":\"".spec_bytes()) by {
        lemma_extreme_digits_32(b, st, g);
    }
    lemma_json32_field_3(b, st);
    assert forall|g: u32| is_least(value_of::<RoaringBitmap>(), b.view_set(), g) implies shows(b.stat_json_spec(st), ("\",\"min_value\":\"".spec_bytes()), decimal_digits(g as nat), "\",\"array_container\":{\"number_of_containers\":\"".spec_bytes()) by {
        lemma_extreme_digits_32(b, st, g);
    }
    lemma_json32_field_4(b, st);
    lemma_json32_field_5(b, st);
    lemma_json32_field_6(b, st);
    lemma_json32_field_7(b, st);
    lemma_json32_field_8(b, st);
    lemma_json32_field_9(b, st);
    lemma_json32_field_10(b, st);
    lemma_json32_field_11(b, st);
    lemma_json32_field_12(b, st);
}

proof fn lemma_text64_field_0(b: RoaringTreemap, st: BitmapStats)
    ensures
        shows(b.stat_text_spec(st), ("type: bitmap64\ncardinality: ".spec_bytes()), decimal_digits(st.cardinality as nat), "\nnumber of containers: ".spec_bytes()),
{
    let serialized = (bitmap64_serialized_len(b) as usize);
    assert(b.stat_text_spec(st) == "type: bitmap64\ncardinality: ".spec_bytes() + decimal_digits(st.cardinality as nat) + "\nnumber of containers: ".spec_bytes() + decimal_digits(st.n_containers as nat) + "\nmax value: ".spec_bytes() + optional_digits(st.max_value, "(none)".spec_bytes()) + "\nmin value: ".spec_bytes() + optional_digits(st.min_value, "(none)".spec_bytes()) + "\nserialized bytes: ".spec_bytes() + decimal_digits(serialized as nat) + text_breakdown(st));
    assert("type: bitmap64\ncardinality: ".spec_bytes() + decimal_digits(st.cardinality as nat) + "\nnumber of containers: ".spec_bytes() =~= (Seq::<u8>::empty()) + ("type: bitmap64\ncardinality: ".spec_bytes()) + decimal_digits(st.cardinality as nat) + "\nnumber of containers: ".spec_bytes() + Seq::<u8>::empty());
    lemma_shows_append("type: bitmap64\ncardinality: ".spec_bytes() + decimal_digits(st.cardinality as nat) + "\nnumber of containers: ".spec_bytes(), decimal_digits(st.n_containers as nat), ("type: bitmap64\ncardinality: ".spec_bytes()), decimal_digits(st.cardinality as nat), "\nnumber of containers: ".spec_bytes());
    lemma_shows_append("type: bitmap64\ncardinality: ".spec_bytes() + decimal_digits(st.cardinality as nat) + "\nnumber of containers: ".spec_bytes() + decimal_digits(st.n_containers as nat), "\nmax value: ".spec_bytes(), ("type: bitmap64\ncardinality: ".spec_bytes()), decimal_digits(st.cardinality as nat), "\nnumber of containers: ".spec_bytes());
    lemma_shows_append("type: bitmap64\ncardinality: ".spec_bytes() + decimal_digits(st.cardinality as nat) + "\nnumber of containers: ".spec_bytes() + decimal_digits(st.n_containers as nat) + "\nmax value: ".spec_bytes(), optional_digits(st.max_value, "(none)".spec_bytes()), ("type: bitmap64\ncardinality: ".spec_bytes()), decimal_digits(st.cardinality as nat), "\nnumber of containers: ".spec_bytes());
    lemma_shows_append("type: bitmap64\ncardinality: ".spec_bytes() + decimal_digits(st.cardinality as nat) + "\nnumber of containers: ".spec_bytes() + decimal_digits(st.n_containers as nat) + "\nmax value: ".spec_bytes() + optional_digits(st.max_value, "(none)".spec_bytes()), "\nmin value: ".spec_bytes(), ("type: bitmap64\ncardinality: ".spec_bytes()), decimal_digits(st.cardinality as nat), "\nnumber of containers: ".spec_bytes());
    lemma_shows_append("type: bitmap64\ncardinality: ".spec_bytes() + decimal_digits(st.cardinality as nat) + "\nnumber of containers: ".spec_bytes() + decimal_digits(st.n_containers as nat) + "\nmax value: ".spec_bytes() + optional_digits(st.max_value, "(none)".spec_bytes()) + "\nmin value: ".spec_bytes(), optional_digits(st.min_value, "(none)".spec_bytes()), ("type: bitmap64\ncardinality: ".spec_bytes()), decimal_digits(st.cardinality as nat), "\nnumber of containers: ".spec_bytes());
    lemma_shows_append("type: bitmap64\ncardinality: ".spec_bytes() + decimal_digits(st.cardinality as nat) + "\nnumber of containers: ".spec_bytes() + decimal_digits(st.n_containers as nat) + "\nmax value: ".spec_bytes() + optional_digits(st.max_value, "(none)".spec_bytes()) + "\nmin value: ".spec_bytes() + optional_digits(st.min_value, "(none)".spec_bytes()), "\nserialized bytes: ".spec_bytes(), ("type: bitmap64\ncardinality: ".spec_bytes()), decimal_digits(st.cardinality as nat), "\nnumber of containers: ".spec_bytes());
    lemma_shows_append("type: bitmap64\ncardinality: ".spec_bytes() + decimal_digits(st.cardinality as nat) + "\nnumber of containers: ".spec_bytes() + decimal_digits(st.n_containers as nat) + "\nmax value: ".spec_bytes() + optional_digits(st.max_value, "(none)".spec_bytes()) + "\nmin value: ".spec_bytes() + optional_digits(st.min_value, "(none)".spec_bytes()) + "\nserialized bytes: ".spec_bytes(), decimal_digits(serialized as nat), ("type: bitmap64\ncardinality: ".spec_bytes()), decimal_digits(st.cardinality as nat), "\nnumber of containers: ".spec_bytes());
    lemma_shows_append("type: bitmap64\ncardinality: ".spec_bytes() + decimal_digits(st.cardinality as nat) + "\nnumber of containers: ".spec_bytes() + decimal_digits(st.n_containers as nat) + "\nmax value: ".spec_bytes() + optional_digits(st.max_value, "(none)".spec_bytes()) + "\nmin value: ".spec_bytes() + optional_digits(st.min_value, "(none)".spec_bytes()) + "\nserialized bytes: ".spec_bytes() + decimal_digits(serialized as nat), text_breakdown(st), ("type: bitmap64\ncardinality: ".spec_bytes()), decimal_digits(st.cardinality as nat), "\nnumber of containers: ".spec_bytes());
}

proof fn lemma_text64_field_1(b: RoaringTreemap, st: BitmapStats)
    ensures
        shows(b.stat_text_spec(st), ("\nnumber of containers: ".spec_bytes()), decimal_digits(st.n_containers as nat), "\nmax value: ".spec_bytes()),
{
    let serialized = (bitmap64_serialized_len(b) as usize);
    assert(b.stat_text_spec(st) == "type: bitmap64\ncardinality: ".spec_bytes() + decimal_digits(st.cardinality as nat) + "\nnumber of containers: ".spec_bytes() + decimal_digits(st.n_containers as nat) + "\nmax value: ".spec_bytes() + optional_digits(st.max_value, "(none)".spec_bytes()) + "\nmin value: ".spec_bytes() + optional_digits(st.min_value, "(none)".spec_bytes()) + "\nserialized bytes: ".spec_bytes() + decimal_digits(serialized as nat) + text_breakdown(st));
    assert("type: bitmap64\ncardinality: ".spec_bytes() + decimal_digits(st.cardinality as nat) + "\nnumber of containers: ".spec_bytes() + decimal_digits(st.n_containers as nat) + "\nmax value: ".spec_bytes() =~= ("type: bitmap64\ncardinality: ".spec_bytes() + decimal_digits(st.cardinality as nat)) + ("\nnumber of containers: ".spec_bytes()) + decimal_digits(st.n_containers as nat) + "\nmax value: ".spec_bytes() + Seq::<u8>::empty());
    lemma_shows_append("type: bitmap64\ncardinality: ".spec_bytes() + decimal_digits(st.cardinality as nat) + "\nnumber of containers: ".spec_bytes() + decimal_digits(st.n_containers as nat) + "\nmax value: ".spec_bytes(), optional_digits(st.max_value, "(none)".spec_bytes()), ("\nnumber of containers: ".spec_bytes()), decimal_digits(st.n_containers as nat), "\nmax value: ".spec_bytes());
    lemma_shows_append("type: bitmap64\ncardinality: ".spec_bytes() + decimal_digits(st.cardinality as nat) + "\nnumber of containers: ".spec_bytes() + decimal_digits(st.n_containers as nat) + "\nmax value: ".spec_bytes() + optional_digits(st.max_value, "(none)".spec_bytes()), "\nmin value: ".spec_bytes(), ("\nnumber of containers: ".spec_bytes()), decimal_digits(st.n_containers as nat), "\nmax value: ".spec_bytes());
    lemma_shows_append("type: bitmap64\ncardinality: ".spec_bytes() + decimal_digits(st.cardinality as nat) + "\nnumber of containers: ".spec_bytes() + decimal_digits(st.n_containers as nat) + "\nmax value: ".spec_bytes() + optional_digits(st.max_value, "(none)".spec_bytes()) + "\nmin value: ".spec_bytes(), optional_digits(st.min_value, "(none)".spec_bytes()), ("\nnumber of containers: ".spec_bytes()), decimal_digits(st.n_containers as nat), "\nmax value: ".spec_bytes());
    lemma_shows_append("type: bitmap64\ncardinality: ".spec_bytes() + decimal_digits(st.cardinality as nat) + "\nnumber of containers: ".spec_bytes() + decimal_digits(st.n_containers as nat) + "\nmax value: ".spec_bytes() + optional_digits(st.max_value, "(none)".spec_bytes()) + "\nmin value: ".spec_bytes() + optional_digits(st.min_value, "(none)".spec_bytes()), "\nserialized bytes: ".spec_bytes(), ("\nnumber of containers: ".spec_bytes()), decimal_digits(st.n_containers as nat), "\nmax value: ".spec_bytes());
    lemma_shows_append("type: bitmap64\ncardinality: ".spec_bytes() + decimal_digits(st.cardinality as nat) + "\nnumber of containers: ".spec_bytes() + decimal_digits(st.n_containers as nat) + "\nmax value: ".spec_bytes() + optional_digits(st.max_value, "(none)".spec_bytes()) + "\nmin value: ".spec_bytes() + optional_digits(st.min_value, "(none)".spec_bytes()) + "\nserialized bytes: ".spec_bytes(), decimal_digits(serialized as nat), ("\nnumber of containers: ".spec_bytes()), decimal_digits(st.n_containers as nat), "\nmax value: ".spec_bytes());
    lemma_shows_append("type: bitmap64\ncardinality: ".spec_bytes() + decimal_digits(st.cardinality as nat) + "\nnumber of containers: ".spec_bytes() + decimal_digits(st.n_containers as nat) + "\nmax value: ".spec_bytes() + optional_digits(st.max_value, "(none)".spec_bytes()) + "\nmin value: ".spec_bytes() + optional_digits(st.min_value, "(none)".spec_bytes()) + "\nserialized bytes: ".spec_bytes() + decimal_digits(serialized as nat), text_breakdown(st), ("\nnumber of containers: ".spec_bytes()), decimal_digits(st.n_containers as nat), "\nmax value: ".spec_bytes());
}

proof fn lemma_text64_field_2(b: RoaringTreemap, st: BitmapStats)
    ensures
        shows(b.stat_text_spec(st), ("\nmax value: ".spec_bytes()), optional_digits(st.max_value, "(none)".spec_bytes()), "\nmin value: ".spec_bytes()),
{
    let serialized = (bitmap64_serialized_len(b) as usize);
    assert(b.stat_text_spec(st) == "type: bitmap64\ncardinality: ".spec_bytes() + decimal_digits(st.cardinality as nat) + "\nnumber of containers: ".spec_bytes() + decimal_digits(st.n_containers as nat) + "\nmax value: ".spec_bytes() + optional_digits(st.max_value, "(none)".spec_bytes()) + "\nmin value: ".spec_bytes() + optional_digits(st.min_value, "(none)".spec_bytes()) + "\nserialized bytes: ".spec_bytes() + decimal_digits(serialized as nat) + text_breakdown(st));
    assert("type: bitmap64\ncardinality: ".spec_bytes() + decimal_digits(st.cardinality as nat) + "\nnumber of containers: ".spec_bytes() + decimal_digits(st.n_containers as nat) + "\nmax value: ".spec_bytes() + optional_digits(st.max_value, "(none)".spec_bytes()) + "\nmin value: ".spec_bytes() =~= ("type: bitmap64\ncardinality: ".spec_bytes() + decimal_digits(st.cardinality as nat) + "\nnumber of containers: ".spec_bytes() + decimal_digits(st.n_containers as nat)) + ("\nmax value: ".spec_bytes()) + optional_digits(st.max_value, "(none)".spec_bytes()) + "\nmin value: ".spec_bytes() + Seq::<u8>::empty());
    lemma_shows_append("type: bitmap64\ncardinality: ".spec_bytes() + decimal_digits(st.cardinality as nat) + "\nnumber of containers: ".spec_bytes() + decimal_digits(st.n_containers as nat) + "\nmax value: ".spec_bytes() + optional_digits(st.max_value, "(none)".spec_bytes()) + "\nmin value: ".spec_bytes(), optional_digits(st.min_value, "(none)".spec_bytes()), ("\nmax value: ".spec_bytes()), optional_digits(st.max_value, "(none)".spec_bytes()), "\nmin value: ".spec_bytes());
    lemma_shows_append("type: bitmap64\ncardinality: ".spec_bytes() + decimal_digits(st.cardinality as nat) + "\nnumber of containers: ".spec_bytes() + decimal_digits(st.n_containers as nat) + "\nmax value: ".spec_bytes() + optional_digits(st.max_value, "(none)".spec_bytes()) + "\nmin value: ".spec_bytes() + optional_digits(st.min_value, "(none)".spec_bytes()), "\nserialized bytes: ".spec_bytes(), ("\nmax value: ".spec_bytes()), optional_digits(st.max_value, "(none)".spec_bytes()), "\nmin value: ".spec_bytes());
    lemma_shows_append("type: bitmap64\ncardinality: ".spec_bytes() + decimal_digits(st.cardinality as nat) + "\nnumber of containers: ".spec_bytes() + decimal_digits(st.n_containers as nat) + "\nmax value: ".spec_bytes() + optional_digits(st.max_value, "(none)".spec_bytes()) + "\nmin value: ".spec_bytes() + optional_digits(st.min_value, "(none)".spec_bytes()) + "\nserialized bytes: ".spec_bytes(), decimal_digits(serialized as nat), ("\nmax value: ".spec_bytes()), optional_digits(st.max_value, "(none)".spec_bytes()), "\nmin value: ".spec_bytes());
    lemma_shows_append("type: bitmap64\ncardinality: ".spec_bytes() + decimal_digits(st.cardinality as nat) + "\nnumber of containers: ".spec_bytes() + decimal_digits(st.n_containers as nat) + "\nmax value: ".spec_bytes() + optional_digits(st.max_value, "(none)".spec_bytes()) + "\nmin value: ".spec_bytes() + optional_digits(st.min_value, "(none)".spec_bytes()) + "\nserialized bytes: ".spec_bytes() + decimal_digits(serialized as nat), text_breakdown(st), ("\nmax value: ".spec_bytes()), optional_digits(st.max_value, "(none)".spec_bytes()), "\nmin value: ".spec_bytes());
}

proof fn lemma_text64_field_3(b: RoaringTreemap, st: BitmapStats)
    ensures
        shows(b.stat_text_spec(st), ("\nmin value: ".spec_bytes()), optional_digits(st.min_value, "(none)".spec_bytes()), "\nserialized bytes: ".spec_bytes()),
{
    let serialized = (bitmap64_serialized_len(b) as usize);
    assert(b.stat_text_spec(st) == "type: bitmap64\ncardinality: ".spec_bytes() + decimal_digits(st.cardinality as nat) + "\nnumber of containers: ".spec_bytes() + decimal_digits(st.n_containers as nat) + "\nmax value: ".spec_bytes() + optional_digits(st.max_value, "(none)".spec_bytes()) + "\nmin value: ".spec_bytes() + optional_digits(st.min_value, "(none)".spec_bytes()) + "\nserialized bytes: ".spec_bytes() + decimal_digits(serialized as nat) + text_breakdown(st));
    assert("type: bitmap64\ncardinality: ".spec_bytes() + decimal_digits(st.cardinality as nat) + "\nnumber of containers: ".spec_bytes() + decimal_digits(st.n_containers as nat) + "\nmax value: ".spec_bytes() + optional_digits(st.max_value, "(none)".spec_bytes()) + "\nmin value: ".spec_bytes() + optional_digits(st.min_value, "(none)".spec_bytes()) + "\nserialized bytes: ".spec_bytes() =~= ("type: bitmap64\ncardinality: ".spec_bytes() + decimal_digits(st.cardinality as nat) + "\nnumber of containers: ".spec_bytes() + decimal_digits(st.n_containers as nat) + "\nmax value: ".spec_bytes() + optional_digits(st.max_value, "(none)".spec_bytes())) + ("\nmin value: ".spec_bytes()) + optional_digits(st.min_value, "(none)".spec_bytes()) + "\nserialized bytes: ".spec_bytes() + Seq::<u8>::empty());
    lemma_shows_append("type: bitmap64\ncardinality: ".spec_bytes() + decimal_digits(st.cardinality as nat) + "\nnumber of containers: ".spec_bytes() + decimal_digits(st.n_containers as nat) + "\nmax value: ".spec_bytes() + optional_digits(st.max_value, "(none)".spec_bytes()) + "\nmin value: ".spec_bytes() + optional_digits(st.min_value, "(none)".spec_bytes()) + "\nserialized bytes: ".spec_bytes(), decimal_digits(serialized as nat), ("\nmin value: ".spec_bytes()), optional_digits(st.min_value, "(none)".spec_bytes()), "\nserialized bytes: ".spec_bytes());
    lemma_shows_append("type: bitmap64\ncardinality: ".spec_bytes() + decimal_digits(st.cardinality as nat) + "\nnumber of containers: ".spec_bytes() + decimal_digits(st.n_containers as nat) + "\nmax value: ".spec_bytes() + optional_digits(st.max_value, "(none)".spec_bytes()) + "\nmin value: ".spec_bytes() + optional_digits(st.min_value, "(none)".spec_bytes()) + "\nserialized bytes: ".spec_bytes() + decimal_digits(serialized as nat), text_breakdown(st), ("\nmin value: ".spec_bytes()), optional_digits(st.min_value, "(none)".spec_bytes()), "\nserialized bytes: ".spec_bytes());
}

proof fn lemma_text64_field_4(b: RoaringTreemap, st: BitmapStats)
    ensures
        shows(b.stat_text_spec(st), ("\nserialized bytes: ".spec_bytes()), decimal_digits((bitmap64_serialized_len(b) as usize) as nat), "\nnumber of array containers: ".spec_bytes()),
{
    let serialized = (bitmap64_serialized_len(b) as usize);
    assert(b.stat_text_spec(st) == "type: bitmap64\ncardinality: ".spec_bytes() + decimal_digits(st.cardinality as nat) + "\nnumber of containers: ".spec_bytes() + decimal_digits(st.n_containers as nat) + "\nmax value: ".spec_bytes() + optional_digits(st.max_value, "(none)".spec_bytes()) + "\nmin value: ".spec_bytes() + optional_digits(st.min_value, "(none)".spec_bytes()) + "\nserialized bytes: ".spec_bytes() + decimal_digits(serialized as nat) + text_breakdown(st));
    assert("type: bitmap64\ncardinality: ".spec_bytes() + decimal_digits(st.cardinality as nat) + "\nnumber of containers: ".spec_bytes() + decimal_digits(st.n_containers as nat) + "\nmax value: ".spec_bytes() + optional_digits(st.max_value, "(none)".spec_bytes()) + "\nmin value: ".spec_bytes() + optional_digits(st.min_value, "(none)".spec_bytes()) + "\nserialized bytes: ".spec_bytes() + decimal_digits(serialized as nat) =~= ("type: bitmap64\ncardinality: ".spec_bytes() + decimal_digits(st.cardinality as nat) + "\nnumber of containers: ".spec_bytes() + decimal_digits(st.n_containers as nat) + "\nmax value: ".spec_bytes() + optional_digits(st.max_value, "(none)".spec_bytes()) + "\nmin value: ".spec_bytes() + optional_digits(st.min_value, "(none)".spec_bytes())) + ("\nserialized bytes: ".spec_bytes()) + decimal_digits(serialized as nat));
    assert("\nnumber of array containers: ".spec_bytes() =~= "\nnumber of array containers: ".spec_bytes() + Seq::<u8>::empty());
    lemma_starts_append("\nnumber of array containers: ".spec_bytes(), decimal_digits(st.n_array_containers as nat), "\nnumber of array containers: ".spec_bytes());
    lemma_starts_append("\nnumber of array containers: ".spec_bytes() + decimal_digits(st.n_array_containers as nat), "\narray container values: ".spec_bytes(), "\nnumber of array containers: ".spec_bytes());
    lemma_starts_append("\nnumber of array containers: ".spec_bytes() + decimal_digits(st.n_array_containers as nat) + "\narray container values: ".spec_bytes(), decimal_digits(st.n_values_array_containers as nat), "\nnumber of array containers: ".spec_bytes());
    lemma_starts_append("\nnumber of array containers: ".spec_bytes() + decimal_digits(st.n_array_containers as nat) + "\narray container values: ".spec_bytes() + decimal_digits(st.n_values_array_containers as nat), "\narray container bytes: ".spec_bytes(), "\nnumber of array containers: ".spec_bytes());
    lemma_starts_append("\nnumber of array containers: ".spec_bytes() + decimal_digits(st.n_array_containers as nat) + "\narray container values: ".spec_bytes() + decimal_digits(st.n_values_array_containers as nat) + "\narray container bytes: ".spec_bytes(), decimal_digits(st.n_bytes_array_containers as nat), "\nnumber of array containers: ".spec_bytes());
    lemma_starts_append(text_kind("\nnumber of array containers: ".spec_bytes(), "\narray container values: ".spec_bytes(), "\narray container bytes: ".spec_bytes(), st.n_array_containers, st.n_values_array_containers, st.n_bytes_array_containers), text_kind("\nbitset containers: ".spec_bytes(), "\nbitset container values: ".spec_bytes(), "\nbitset container bytes: ".spec_bytes(), st.n_bitset_containers, st.n_values_bitset_containers, st.n_bytes_bitset_containers), "\nnumber of array containers: ".spec_bytes());
    lemma_starts_append(text_kind("\nnumber of array containers: ".spec_bytes(), "\narray container values: ".spec_bytes(), "\narray container bytes: ".spec_bytes(), st.n_array_containers, st.n_values_array_containers, st.n_bytes_array_containers) + text_kind("\nbitset containers: ".spec_bytes(), "\nbitset container values: ".spec_bytes(), "\nbitset container bytes: ".spec_bytes(), st.n_bitset_containers, st.n_values_bitset_containers, st.n_bytes_bitset_containers), text_kind("\nrun containers: ".spec_bytes(), "\nrun container values: ".spec_bytes(), "\nrun container bytes: ".spec_bytes(), st.n_run_containers, st.n_values_run_containers, st.n_bytes_run_containers), "\nnumber of array containers: ".spec_bytes());
    lemma_shows_across("type: bitmap64\ncardinality: ".spec_bytes() + decimal_digits(st.cardinality as nat) + "\nnumber of containers: ".spec_bytes() + decimal_digits(st.n_containers as nat) + "\nmax value: ".spec_bytes() + optional_digits(st.max_value, "(none)".spec_bytes()) + "\nmin value: ".spec_bytes() + optional_digits(st.min_value, "(none)".spec_bytes()) + "\nserialized bytes: ".spec_bytes() + decimal_digits(serialized as nat), text_breakdown(st), ("\nserialized bytes: ".spec_bytes()), decimal_digits(serialized as nat), "\nnumber of array containers: ".spec_bytes());
}

proof fn lemma_text64_field_5(b: RoaringTreemap, st: BitmapStats)
    ensures
        shows(b.stat_text_spec(st), ("\nnumber of array containers: ".spec_bytes()), decimal_digits(st.n_array_containers as nat), "\narray container values: ".spec_bytes()),
{
    let serialized = (bitmap64_serialized_len(b) as usize);
    assert(b.stat_text_spec(st) == "type: bitmap64\ncardinality: ".spec_bytes() + decimal_digits(st.cardinality as nat) + "\nnumber of containers: ".spec_bytes() + decimal_digits(st.n_containers as nat) + "\nmax value: ".spec_bytes() + optional_digits(st.max_value, "(none)".spec_bytes()) + "\nmin value: ".spec_bytes() + optional_digits(st.min_value, "(none)".spec_bytes()) + "\nserialized bytes: ".spec_bytes() + decimal_digits(serialized as nat) + text_breakdown(st));
    assert("\nnumber of array containers: ".spec_bytes() + decimal_digits(st.n_array_containers as nat) + "\narray container values: ".spec_bytes() =~= (Seq::<u8>::empty()) + ("\nnumber of array containers: ".spec_bytes()) + decimal_digits(st.n_array_containers as nat) + "\narray container values: ".spec_bytes() + Seq::<u8>::empty());
    lemma_shows_append("\nnumber of array containers: ".spec_bytes() + decimal_digits(st.n_array_containers as nat) + "\narray container values: ".spec_bytes(), decimal_digits(st.n_values_array_containers as nat), ("\nnumber of array containers: ".spec_bytes()), decimal_digits(st.n_array_containers as nat), "\narray container values: ".spec_bytes());
    lemma_shows_append("\nnumber of array containers: ".spec_bytes() + decimal_digits(st.n_array_containers as nat) + "\narray container values: ".spec_bytes() + decimal_digits(st.n_values_array_containers as nat), "\narray container bytes: ".spec_bytes(), ("\nnumber of array containers: ".spec_bytes()), decimal_digits(st.n_array_containers as nat), "\narray container values: ".spec_bytes());
    lemma_shows_append("\nnumber of array containers: ".spec_bytes() + decimal_digits(st.n_array_containers as nat) + "\narray container values: ".spec_bytes() + decimal_digits(st.n_values_array_containers as nat) + "\narray container bytes: ".spec_bytes(), decimal_digits(st.n_bytes_array_containers as nat), ("\nnumber of array containers: ".spec_bytes()), decimal_digits(st.n_array_containers as nat), "\narray container values: ".spec_bytes());
    lemma_shows_append(text_kind("\nnumber of array containers: ".spec_bytes(), "\narray container values: ".spec_bytes(), "\narray container bytes: ".spec_bytes(), st.n_array_containers, st.n_values_array_containers, st.n_bytes_array_containers), text_kind("\nbitset containers: ".spec_bytes(), "\nbitset container values: ".spec_bytes(), "\nbitset container bytes: ".spec_bytes(), st.n_bitset_containers, st.n_values_bitset_containers, st.n_bytes_bitset_containers), ("\nnumber of array containers: ".spec_bytes()), decimal_digits(st.n_array_containers as nat), "\narray container values: ".spec_bytes());
    lemma_shows_append(text_kind("\nnumber of array containers: ".spec_bytes(), "\narray container values: ".spec_bytes(), "\narray container bytes: ".spec_bytes(), st.n_array_containers, st.n_values_array_containers, st.n_bytes_array_containers) + text_kind("\nbitset containers: ".spec_bytes(), "\nbitset container values: ".spec_bytes(), "\nbitset container bytes: ".spec_bytes(), st.n_bitset_containers, st.n_values_bitset_containers, st.n_bytes_bitset_containers), text_kind("\nrun containers: ".spec_bytes(), "\nrun container values: ".spec_bytes(), "\nrun container bytes: ".spec_bytes(), st.n_run_containers, st.n_values_run_containers, st.n_bytes_run_containers), ("\nnumber of array containers: ".spec_bytes()), decimal_digits(st.n_array_containers as nat), "\narray container values: ".spec_bytes());
    lemma_shows_prepend("type: bitmap64\ncardinality: ".spec_bytes() + decimal_digits(st.cardinality as nat) + "\nnumber of containers: ".spec_bytes() + decimal_digits(st.n_containers as nat) + "\nmax value: ".spec_bytes() + optional_digits(st.max_value, "(none)".spec_bytes()) + "\nmin value: ".spec_bytes() + optional_digits(st.min_value, "(none)".spec_bytes()) + "\nserialized bytes: ".spec_bytes() + decimal_digits(serialized as nat), text_breakdown(st), ("\nnumber of array containers: ".spec_bytes()), decimal_digits(st.n_array_containers as nat), "\narray container values: ".spec_bytes());
}

proof fn lemma_text64_field_6(b: RoaringTreemap, st: BitmapStats)
    ensures
        shows(b.stat_text_spec(st), ("\narray container values: ".spec_bytes()), decimal_digits(st.n_values_array_containers as nat), "\narray container bytes: ".spec_bytes()),
{
    let serialized = (bitmap64_serialized_len(b) as usize);
    assert(b.stat_text_spec(st) == "type: bitmap64\ncardinality: ".spec_bytes() + decimal_digits(st.cardinality as nat) + "\nnumber of containers: ".spec_bytes() + decimal_digits(st.n_containers as nat) + "\nmax value: ".spec_bytes() + optional_digits(st.max_value, "(none)".spec_bytes()) + "\nmin value: ".spec_bytes() + optional_digits(st.min_value, "(none)".spec_bytes()) + "\nserialized bytes: ".spec_bytes() + decimal_digits(serialized as nat) + text_breakdown(st));
    assert("\nnumber of array containers: ".spec_bytes() + decimal_digits(st.n_array_containers as nat) + "\narray container values: ".spec_bytes() + decimal_digits(st.n_values_array_containers as nat) + "\narray container bytes: ".spec_bytes() =~= ("\nnumber of array containers: ".spec_bytes() + decimal_digits(st.n_array_containers as nat)) + ("\narray container values: ".spec_bytes()) + decimal_digits(st.n_values_array_containers as nat) + "\narray container bytes: ".spec_bytes() + Seq::<u8>::empty());
    lemma_shows_append("\nnumber of array containers: ".spec_bytes() + decimal_digits(st.n_array_containers as nat) + "\narray container values: ".spec_bytes() + decimal_digits(st.n_values_array_containers as nat) + "\narray container bytes: ".spec_bytes(), decimal_digits(st.n_bytes_array_containers as nat), ("\narray container values: ".spec_bytes()), decimal_digits(st.n_values_array_containers as nat), "\narray container bytes: ".spec_bytes());
    lemma_shows_append(text_kind("\nnumber of array containers: ".spec_bytes(), "\narray container values: ".spec_bytes(), "\narray container bytes: ".spec_bytes(), st.n_array_containers, st.n_values_array_containers, st.n_bytes_array_containers), text_kind("\nbitset containers: ".spec_bytes(), "\nbitset container values: ".spec_bytes(), "\nbitset container bytes: ".spec_bytes(), st.n_bitset_containers, st.n_values_bitset_containers, st.n_bytes_bitset_containers), ("\narray container values: ".spec_bytes()), decimal_digits(st.n_values_array_containers as nat), "\narray container bytes: ".spec_bytes());
    lemma_shows_append(text_kind("\nnumber of array containers: ".spec_bytes(), "\narray container values: ".spec_bytes(), "\narray container bytes: ".spec_bytes(), st.n_array_containers, st.n_values_array_containers, st.n_bytes_array_containers) + text_kind("\nbitset containers: ".spec_bytes(), "\nbitset container values: ".spec_bytes(), "\nbitset container bytes: ".spec_bytes(), st.n_bitset_containers, st.n_values_bitset_containers, st.n_bytes_bitset_containers), text_kind("\nrun containers: ".spec_bytes(), "\nrun container values: ".spec_bytes(), "\nrun container bytes: ".spec_bytes(), st.n_run_containers, st.n_values_run_containers, st.n_bytes_run_containers), ("\narray container values: ".spec_bytes()), decimal_digits(st.n_values_array_containers as nat), "\narray container bytes: ".spec_bytes());
    lemma_shows_prepend("type: bitmap64\ncardinality: ".spec_bytes() + decimal_digits(st.cardinality as nat) + "\nnumber of containers: ".spec_bytes() + decimal_digits(st.n_containers as nat) + "\nmax value: ".spec_bytes() + optional_digits(st.max_value, "(none)".spec_bytes()) + "\nmin value: ".spec_bytes() + optional_digits(st.min_value, "(none)".spec_bytes()) + "\nserialized bytes: ".spec_bytes() + decimal_digits(serialized as nat), text_breakdown(st), ("\narray container values: ".spec_bytes()), decimal_digits(st.n_values_array_containers as nat), "\narray container bytes: ".spec_bytes());
}

proof fn lemma_text64_field_7(b: RoaringTreemap, st: BitmapStats)
    ensures
        shows(b.stat_text_spec(st), ("\narray container bytes: ".spec_bytes()), decimal_digits(st.n_bytes_array_containers as nat), "\nbitset containers: ".spec_bytes()),
{
    let serialized = (bitmap64_serialized_len(b) as usize);
    assert(b.stat_text_spec(st) == "type: bitmap64\ncardinality: ".spec_bytes() + decimal_digits(st.cardinality as nat) + "\nnumber of containers: ".spec_bytes() + decimal_digits(st.n_containers as nat) + "\nmax value: ".spec_bytes() + optional_digits(st.max_value, "(none)".spec_bytes()) + "\nmin value: ".spec_bytes() + optional_digits(st.min_value, "(none)".spec_bytes()) + "\nserialized bytes: ".spec_bytes() + decimal_digits(serialized as nat) + text_breakdown(st));
    assert("\nnumber of array containers: ".spec_bytes() + decimal_digits(st.n_array_containers as nat) + "\narray container values: ".spec_bytes() + decimal_digits(st.n_values_array_containers as nat) + "\narray container bytes: ".spec_bytes() + decimal_digits(st.n_bytes_array_containers as nat) =~= ("\nnumber of array containers: ".spec_bytes() + decimal_digits(st.n_array_containers as nat) + "\narray container values: ".spec_bytes() + decimal_digits(st.n_values_array_containers as nat)) + ("\narray container bytes: ".spec_bytes()) + decimal_digits(st.n_bytes_array_containers as nat));
    assert("\nbitset containers: ".spec_bytes() =~= "\nbitset containers: ".spec_bytes() + Seq::<u8>::empty());
    lemma_starts_append("\nbitset containers: ".spec_bytes(), decimal_digits(st.n_bitset_containers as nat), "\nbitset containers: ".spec_bytes());
    lemma_starts_append("\nbitset containers: ".spec_bytes() + decimal_digits(st.n_bitset_containers as nat), "\nbitset container values: ".spec_bytes(), "\nbitset containers: ".spec_bytes());
    lemma_starts_append("\nbitset containers: ".spec_bytes() + decimal_digits(st.n_bitset_containers as nat) + "\nbitset container values: ".spec_bytes(), decimal_digits(st.n_values_bitset_containers as nat), "\nbitset containers: ".spec_bytes());
    lemma_starts_append("\nbitset containers: ".spec_bytes() + decimal_digits(st.n_bitset_containers as nat) + "\nbitset container values: ".spec_bytes() + decimal_digits(st.n_values_bitset_containers as nat), "\nbitset container bytes: ".spec_bytes(), "\nbitset containers: ".spec_bytes());
    lemma_starts_append("\nbitset containers: ".spec_bytes() + decimal_digits(st.n_bitset_containers as nat) + "\nbitset container values: ".spec_bytes() + decimal_digits(st.n_values_bitset_containers as nat) + "\nbitset container bytes: ".spec_bytes(), decimal_digits(st.n_bytes_bitset_containers as nat), "\nbitset containers: ".spec_bytes());
    lemma_shows_across(text_kind("\nnumber of array containers: ".spec_bytes(), "\narray container values: ".spec_bytes(), "\narray container bytes: ".spec_bytes(), st.n_array_containers, st.n_values_array_containers, st.n_bytes_array_containers), text_kind("\nbitset containers: ".spec_bytes(), "\nbitset container values: ".spec_bytes(), "\nbitset container bytes: ".spec_bytes(), st.n_bitset_containers, st.n_values_bitset_containers, st.n_bytes_bitset_containers), ("\narray container bytes: ".spec_bytes()), decimal_digits(st.n_bytes_array_containers as nat), "\nbitset containers: ".spec_bytes());
    lemma_shows_append(text_kind("\nnumber of array containers: ".spec_bytes(), "\narray container values: ".spec_bytes(), "\narray container bytes: ".spec_bytes(), st.n_array_containers, st.n_values_array_containers, st.n_bytes_array_containers) + text_kind("\nbitset containers: ".spec_bytes(), "\nbitset container values: ".spec_bytes(), "\nbitset container bytes: ".spec_bytes(), st.n_bitset_containers, st.n_values_bitset_containers, st.n_bytes_bitset_containers), text_kind("\nrun containers: ".spec_bytes(), "\nrun container values: ".spec_bytes(), "\nrun container bytes: ".spec_bytes(), st.n_run_containers, st.n_values_run_containers, st.n_bytes_run_containers), ("\narray container bytes: ".spec_bytes()), decimal_digits(st.n_bytes_array_containers as nat), "\nbitset containers: ".spec_bytes());
    lemma_shows_prepend("type: bitmap64\ncardinality: ".spec_bytes() + decimal_digits(st.cardinality as nat) + "\nnumber of containers: ".spec_bytes() + decimal_digits(st.n_containers as nat) + "\nmax value: ".spec_bytes() + optional_digits(st.max_value, "(none)".spec_bytes()) + "\nmin value: ".spec_bytes() + optional_digits(st.min_value, "(none)".spec_bytes()) + "\nserialized bytes: ".spec_bytes() + decimal_digits(serialized as nat), text_breakdown(st), ("\narray container bytes: ".spec_bytes()), decimal_digits(st.n_bytes_array_containers as nat), "\nbitset containers: ".spec_bytes());
}

proof fn lemma_text64_field_8(b: RoaringTreemap, st: BitmapStats)
    ensures
        shows(b.stat_text_spec(st), ("\nbitset containers: ".spec_bytes()), decimal_digits(st.n_bitset_containers as nat), "\nbitset container values: ".spec_bytes()),
{
    let serialized = (bitmap64_serialized_len(b) as usize);
    assert(b.stat_text_spec(st) == "type: bitmap64\ncardinality: ".spec_bytes() + decimal_digits(st.cardinality as nat) + "\nnumber of containers: ".spec_bytes() + decimal_digits(st.n_containers as nat) + "\nmax value: ".spec_bytes() + optional_digits(st.max_value, "(none)".spec_bytes()) + "\nmin value: ".spec_bytes() + optional_digits(st.min_value, "(none)".spec_bytes()) + "\nserialized bytes: ".spec_bytes() + decimal_digits(serialized as nat) + text_breakdown(st));
    assert("\nbitset containers: ".spec_bytes() + decimal_digits(st.n_bitset_containers as nat) + "\nbitset container values: ".spec_bytes() =~= (Seq::<u8>::empty()) + ("\nbitset containers: ".spec_bytes()) + decimal_digits(st.n_bitset_containers as nat) + "\nbitset container values: ".spec_bytes() + Seq::<u8>::empty());
    lemma_shows_append("\nbitset containers: ".spec_bytes() + decimal_digits(st.n_bitset_containers as nat) + "\nbitset container values: ".spec_bytes(), decimal_digits(st.n_values_bitset_containers as nat), ("\nbitset containers: ".spec_bytes()), decimal_digits(st.n_bitset_containers as nat), "\nbitset container values: ".spec_bytes());
    lemma_shows_append("\nbitset containers: ".spec_bytes() + decimal_digits(st.n_bitset_containers as nat) + "\nbitset container values: ".spec_bytes() + decimal_digits(st.n_values_bitset_containers as nat), "\nbitset container bytes: ".spec_bytes(), ("\nbitset containers: ".spec_bytes()), decimal_digits(st.n_bitset_containers as nat), "\nbitset container values: ".spec_bytes());
    lemma_shows_append("\nbitset containers: ".spec_bytes() + decimal_digits(st.n_bitset_containers as nat) + "\nbitset container values: ".spec_bytes() + decimal_digits(st.n_values_bitset_containers as nat) + "\nbitset container bytes: ".spec_bytes(), decimal_digits(st.n_bytes_bitset_containers as nat), ("\nbitset containers: ".spec_bytes()), decimal_digits(st.n_bitset_containers as nat), "\nbitset container values: ".spec_bytes());
    lemma_shows_prepend(text_kind("\nnumber of array containers: ".spec_bytes(), "\narray container values: ".spec_bytes(), "\narray container bytes: ".spec_bytes(), st.n_array_containers, st.n_values_array_containers, st.n_bytes_array_containers), text_kind("\nbitset containers: ".spec_bytes(), "\nbitset container values: ".spec_bytes(), "\nbitset container bytes: ".spec_bytes(), st.n_bitset_containers, st.n_values_bitset_containers, st.n_bytes_bitset_containers), ("\nbitset containers: ".spec_bytes()), decimal_digits(st.n_bitset_containers as nat), "\nbitset container values: ".spec_bytes());
    lemma_shows_append(text_kind("\nnumber of array containers: ".spec_bytes(), "\narray container values: ".spec_bytes(), "\narray container bytes: ".spec_bytes(), st.n_array_containers, st.n_values_array_containers, st.n_bytes_array_containers) + text_kind("\nbitset containers: ".spec_bytes(), "\nbitset container values: ".spec_bytes(), "\nbitset container bytes: ".spec_bytes(), st.n_bitset_containers, st.n_values_bitset_containers, st.n_bytes_bitset_containers), text_kind("\nrun containers: ".spec_bytes(), "\nrun container values: ".spec_bytes(), "\nrun container bytes: ".spec_bytes(), st.n_run_containers, st.n_values_run_containers, st.n_bytes_run_containers), ("\nbitset containers: ".spec_bytes()), decimal_digits(st.n_bitset_containers as nat), "\nbitset container values: ".spec_bytes());
    lemma_shows_prepend("type: bitmap64\ncardinality: ".spec_bytes() + decimal_digits(st.cardinality as nat) + "\nnumber of containers: ".spec_bytes() + decimal_digits(st.n_containers as nat) + "\nmax value: ".spec_bytes() + optional_digits(st.max_value, "(none)".spec_bytes()) + "\nmin value: ".spec_bytes() + optional_digits(st.min_value, "(none)".spec_bytes()) + "\nserialized bytes: ".spec_bytes() + decimal_digits(serialized as nat), text_breakdown(st), ("\nbitset containers: ".spec_bytes()), decimal_digits(st.n_bitset_containers as nat), "\nbitset container values: ".spec_bytes());
}

proof fn lemma_text64_field_9(b: RoaringTreemap, st: BitmapStats)
    ensures
        shows(b.stat_text_spec(st), ("\nbitset container values: ".spec_bytes()), decimal_digits(st.n_values_bitset_containers as nat), "\nbitset container bytes: ".spec_bytes()),
{
    let serialized = (bitmap64_serialized_len(b) as usize);
    assert(b.stat_text_spec(st) == "type: bitmap64\ncardinality: ".spec_bytes() + decimal_digits(st.cardinality as nat) + "\nnumber of containers: ".spec_bytes() + decimal_digits(st.n_containers as nat) + "\nmax value: ".spec_bytes() + optional_digits(st.max_value, "(none)".spec_bytes()) + "\nmin value: ".spec_bytes() + optional_digits(st.min_value, "(none)".spec_bytes()) + "\nserialized bytes: ".spec_bytes() + decimal_digits(serialized as nat) + text_breakdown(st));
    assert("\nbitset containers: ".spec_bytes() + decimal_digits(st.n_bitset_containers as nat) + "\nbitset container values: ".spec_bytes() + decimal_digits(st.n_values_bitset_containers as nat) + "\nbitset container bytes: ".spec_bytes() =~= ("\nbitset containers: ".spec_bytes() + decimal_digits(st.n_bitset_containers as nat)) + ("\nbitset container values: ".spec_bytes()) + decimal_digits(st.n_values_bitset_containers as nat) + "\nbitset container bytes: ".spec_bytes() + Seq::<u8>::empty());
    lemma_shows_append("\nbitset containers: ".spec_bytes() + decimal_digits(st.n_bitset_containers as nat) + "\nbitset container values: ".spec_bytes() + decimal_digits(st.n_values_bitset_containers as nat) + "\nbitset container bytes: ".spec_bytes(), decimal_digits(st.n_bytes_bitset_containers as nat), ("\nbitset container values: ".spec_bytes()), decimal_digits(st.n_values_bitset_containers as nat), "\nbitset container bytes: ".spec_bytes());
    lemma_shows_prepend(text_kind("\nnumber of array containers: ".spec_bytes(), "\narray container values: ".spec_bytes(), "\narray container bytes: ".spec_bytes(), st.n_array_containers, st.n_values_array_containers, st.n_bytes_array_containers), text_kind("\nbitset containers: ".spec_bytes(), "\nbitset container values: ".spec_bytes(), "\nbitset container bytes: ".spec_bytes(), st.n_bitset_containers, st.n_values_bitset_containers, st.n_bytes_bitset_containers), ("\nbitset container values: ".spec_bytes()), decimal_digits(st.n_values_bitset_containers as nat), "\nbitset container bytes: ".spec_bytes());
    lemma_shows_append(text_kind("\nnumber of array containers: ".spec_bytes(), "\narray container values: ".spec_bytes(), "\narray container bytes: ".spec_bytes(), st.n_array_containers, st.n_values_array_containers, st.n_bytes_array_containers) + text_kind("\nbitset containers: ".spec_bytes(), "\nbitset container values: ".spec_bytes(), "\nbitset container bytes: ".spec_bytes(), st.n_bitset_containers, st.n_values_bitset_containers, st.n_bytes_bitset_containers), text_kind("\nrun containers: ".spec_bytes(), "\nrun container values: ".spec_bytes(), "\nrun container bytes: ".spec_bytes(), st.n_run_containers, st.n_values_run_containers, st.n_bytes_run_containers), ("\nbitset container values: ".spec_bytes()), decimal_digits(st.n_values_bitset_containers as nat), "\nbitset container bytes: ".spec_bytes());
    lemma_shows_prepend("type: bitmap64\ncardinality: ".spec_bytes() + decimal_digits(st.cardinality as nat) + "\nnumber of containers: ".spec_bytes() + decimal_digits(st.n_containers as nat) + "\nmax value: ".spec_bytes() + optional_digits(st.max_value, "(none)".spec_bytes()) + "\nmin value: ".spec_bytes() + optional_digits(st.min_value, "(none)".spec_bytes()) + "\nserialized bytes: ".spec_bytes() + decimal_digits(serialized as nat), text_breakdown(st), ("\nbitset container values: ".spec_bytes()), decimal_digits(st.n_values_bitset_containers as nat), "\nbitset container bytes: ".spec_bytes());
}

proof fn lemma_text64_field_10(b: RoaringTreemap, st: BitmapStats)
    ensures
        shows(b.stat_text_spec(st), ("\nbitset container bytes: ".spec_bytes()), decimal_digits(st.n_bytes_bitset_containers as nat), "\nrun containers: ".spec_bytes()),
{
    let serialized = (bitmap64_serialized_len(b) as usize);
    assert(b.stat_text_spec(st) == "type: bitmap64\ncardinality: ".spec_bytes() + decimal_digits(st.cardinality as nat) + "\nnumber of containers: ".spec_bytes() + decimal_digits(st.n_containers as nat) + "\nmax value: ".spec_bytes() + optional_digits(st.max_value, "(none)".spec_bytes()) + "\nmin value: ".spec_bytes() + optional_digits(st.min_value, "(none)".spec_bytes()) + "\nserialized bytes: ".spec_bytes() + decimal_digits(serialized as nat) + text_breakdown(st));
    assert("\nbitset containers: ".spec_bytes() + decimal_digits(st.n_bitset_containers as nat) + "\nbitset container values: ".spec_bytes() + decimal_digits(st.n_values_bitset_containers as nat) + "\nbitset container bytes: ".spec_bytes() + decimal_digits(st.n_bytes_bitset_containers as nat) =~= ("\nbitset containers: ".spec_bytes() + decimal_digits(st.n_bitset_containers as nat) + "\nbitset container values: ".spec_bytes() + decimal_digits(st.n_values_bitset_containers as nat)) + ("\nbitset container bytes: ".spec_bytes()) + decimal_digits(st.n_bytes_bitset_containers as nat));
    lemma_ends_prepend(text_kind("\nnumber of array containers: ".spec_bytes(), "\narray container values: ".spec_bytes(), "\narray container bytes: ".spec_bytes(), st.n_array_containers, st.n_values_array_containers, st.n_bytes_array_containers), text_kind("\nbitset containers: ".spec_bytes(), "\nbitset container values: ".spec_bytes(), "\nbitset container bytes: ".spec_bytes(), st.n_bitset_containers, st.n_values_bitset_containers, st.n_bytes_bitset_containers), ("\nbitset container bytes: ".spec_bytes()), decimal_digits(st.n_bytes_bitset_containers as nat));
    assert("\nrun containers: ".spec_bytes() =~= "\nrun containers: ".spec_bytes() + Seq::<u8>::empty());
    lemma_starts_append("\nrun containers: ".spec_bytes(), decimal_digits(st.n_run_containers as nat), "\nrun containers: ".spec_bytes());
    lemma_starts_append("\nrun containers: ".spec_bytes() + decimal_digits(st.n_run_containers as nat), "\nrun container values: ".spec_bytes(), "\nrun containers: ".spec_bytes());
    lemma_starts_append("\nrun containers: ".spec_bytes() + decimal_digits(st.n_run_containers as nat) + "\nrun container values: ".spec_bytes(), decimal_digits(st.n_values_run_containers as nat), "\nrun containers: ".spec_bytes());
    lemma_starts_append("\nrun containers: ".spec_bytes() + decimal_digits(st.n_run_containers as nat) + "\nrun container values: ".spec_bytes() + decimal_digits(st.n_values_run_containers as nat), "\nrun container bytes: ".spec_bytes(), "\nrun containers: ".spec_bytes());
    lemma_starts_append("\nrun containers: ".spec_bytes() + decimal_digits(st.n_run_containers as nat) + "\nrun container values: ".spec_bytes() + decimal_digits(st.n_values_run_containers as nat) + "\nrun container bytes: ".spec_bytes(), decimal_digits(st.n_bytes_run_containers as nat), "\nrun containers: ".spec_bytes());
    lemma_shows_across(text_kind("\nnumber of array containers: ".spec_bytes(), "\narray container values: ".spec_bytes(), "\narray container bytes: ".spec_bytes(), st.n_array_containers, st.n_values_array_containers, st.n_bytes_array_containers) + text_kind("\nbitset containers: ".spec_bytes(), "\nbitset container values: ".spec_bytes(), "\nbitset container bytes: ".spec_bytes(), st.n_bitset_containers, st.n_values_bitset_containers, st.n_bytes_bitset_containers), text_kind("\nrun containers: ".spec_bytes(), "\nrun container values: ".spec_bytes(), "\nrun container bytes: ".spec_bytes(), st.n_run_containers, st.n_values_run_containers, st.n_bytes_run_containers), ("\nbitset container bytes: ".spec_bytes()), decimal_digits(st.n_bytes_bitset_containers as nat), "\nrun containers: ".spec_bytes());
    lemma_shows_prepend("type: bitmap64\ncardinality: ".spec_bytes() + decimal_digits(st.cardinality as nat) + "\nnumber of containers: ".spec_bytes() + decimal_digits(st.n_containers as nat) + "\nmax value: ".spec_bytes() + optional_digits(st.max_value, "(none)".spec_bytes()) + "\nmin value: ".spec_bytes() + optional_digits(st.min_value, "(none)".spec_bytes()) + "\nserialized bytes: ".spec_bytes() + decimal_digits(serialized as nat), text_breakdown(st), ("\nbitset container bytes: ".spec_bytes()), decimal_digits(st.n_bytes_bitset_containers as nat), "\nrun containers: ".spec_bytes());
}

proof fn lemma_text64_field_11(b: RoaringTreemap, st: BitmapStats)
    ensures
        shows(b.stat_text_spec(st), ("\nrun containers: ".spec_bytes()), decimal_digits(st.n_run_containers as nat), "\nrun container values: ".spec_bytes()),
{
    let serialized = (bitmap64_serialized_len(b) as usize);
    assert(b.stat_text_spec(st) == "type: bitmap64\ncardinality: ".spec_bytes() + decimal_digits(st.cardinality as nat) + "\nnumber of containers: ".spec_bytes() + decimal_digits(st.n_containers as nat) + "\nmax value: ".spec_bytes() + optional_digits(st.max_value, "(none)".spec_bytes()) + "\nmin value: ".spec_bytes() + optional_digits(st.min_value, "(none)".spec_bytes()) + "\nserialized bytes: ".spec_bytes() + decimal_digits(serialized as nat) + text_breakdown(st));
    assert("\nrun containers: ".spec_bytes() + decimal_digits(st.n_run_containers as nat) + "\nrun container values: ".spec_bytes() =~= (Seq::<u8>::empty()) + ("\nrun containers: ".spec_bytes()) + decimal_digits(st.n_run_containers as nat) + "\nrun container values: ".spec_bytes() + Seq::<u8>::empty());
    lemma_shows_append("\nrun containers: ".spec_bytes() + decimal_digits(st.n_run_containers as nat) + "\nrun container values: ".spec_bytes(), decimal_digits(st.n_values_run_containers as nat), ("\nrun containers: ".spec_bytes()), decimal_digits(st.n_run_containers as nat), "\nrun container values: ".spec_bytes());
    lemma_shows_append("\nrun containers: ".spec_bytes() + decimal_digits(st.n_run_containers as nat) + "\nrun container values: ".spec_bytes() + decimal_digits(st.n_values_run_containers as nat), "\nrun container bytes: ".spec_bytes(), ("\nrun containers: ".spec_bytes()), decimal_digits(st.n_run_containers as nat), "\nrun container values: ".spec_bytes());
    lemma_shows_append("\nrun containers: ".spec_bytes() + decimal_digits(st.n_run_containers as nat) + "\nrun container values: ".spec_bytes() + decimal_digits(st.n_values_run_containers as nat) + "\nrun container bytes: ".spec_bytes(), decimal_digits(st.n_bytes_run_containers as nat), ("\nrun containers: ".spec_bytes()), decimal_digits(st.n_run_containers as nat), "\nrun container values: ".spec_bytes());
    lemma_shows_prepend(text_kind("\nnumber of array containers: ".spec_bytes(), "\narray container values: ".spec_bytes(), "\narray container bytes: ".spec_bytes(), st.n_array_containers, st.n_values_array_containers, st.n_bytes_array_containers) + text_kind("\nbitset containers: ".spec_bytes(), "\nbitset container values: ".spec_bytes(), "\nbitset container bytes: ".spec_bytes(), st.n_bitset_containers, st.n_values_bitset_containers, st.n_bytes_bitset_containers), text_kind("\nrun containers: ".spec_bytes(), "\nrun container values: ".spec_bytes(), "\nrun container bytes: ".spec_bytes(), st.n_run_containers, st.n_values_run_containers, st.n_bytes_run_containers), ("\nrun containers: ".spec_bytes()), decimal_digits(st.n_run_containers as nat), "\nrun container values: ".spec_bytes());
    lemma_shows_prepend("type: bitmap64\ncardinality: ".spec_bytes() + decimal_digits(st.cardinality as nat) + "\nnumber of containers: ".spec_bytes() + decimal_digits(st.n_containers as nat) + "\nmax value: ".spec_bytes() + optional_digits(st.max_value, "(none)".spec_bytes()) + "\nmin value: ".spec_bytes() + optional_digits(st.min_value, "(none)".spec_bytes()) + "\nserialized bytes: ".spec_bytes() + decimal_digits(serialized as nat), text_breakdown(st), ("\nrun containers: ".spec_bytes()), decimal_digits(st.n_run_containers as nat), "\nrun container values: ".spec_bytes());
}

proof fn lemma_text64_field_12(b: RoaringTreemap, st: BitmapStats)
    ensures
        shows(b.stat_text_spec(st), ("\nrun container values: ".spec_bytes()), decimal_digits(st.n_values_run_containers as nat), "\nrun container bytes: ".spec_bytes()),
{
    let serialized = (bitmap64_serialized_len(b) as usize);
    assert(b.stat_text_spec(st) == "type: bitmap64\ncardinality: ".spec_bytes() + decimal_digits(st.cardinality as nat) + "\nnumber of containers: ".spec_bytes() + decimal_digits(st.n_containers as nat) + "\nmax value: ".spec_bytes() + optional_digits(st.max_value, "(none)".spec_bytes()) + "\nmin value: ".spec_bytes() + optional_digits(st.min_value, "(none)".spec_bytes()) + "\nserialized bytes: ".spec_bytes() + decimal_digits(serialized as nat) + text_breakdown(st));
    assert("\nrun containers: ".spec_bytes() + decimal_digits(st.n_run_containers as nat) + "\nrun container values: ".spec_bytes() + decimal_digits(st.n_values_run_containers as nat) + "\nrun container bytes: ".spec_bytes() =~= ("\nrun containers: ".spec_bytes() + decimal_digits(st.n_run_containers as nat)) + ("\nrun container values: ".spec_bytes()) + decimal_digits(st.n_values_run_containers as nat) + "\nrun container bytes: ".spec_bytes() + Seq::<u8>::empty());
    lemma_shows_append("\nrun containers: ".spec_bytes() + decimal_digits(st.n_run_containers as nat) + "\nrun container values: ".spec_bytes() + decimal_digits(st.n_values_run_containers as nat) + "\nrun container bytes: ".spec_bytes(), decimal_digits(st.n_bytes_run_containers as nat), ("\nrun container values: ".spec_bytes()), decimal_digits(st.n_values_run_containers as nat), "\nrun container bytes: ".spec_bytes());
    lemma_shows_prepend(text_kind("\nnumber of array containers: ".spec_bytes(), "\narray container values: ".spec_bytes(), "\narray container bytes: ".spec_bytes(), st.n_array_containers, st.n_values_array_containers, st.n_bytes_array_containers) + text_kind("\nbitset containers: ".spec_bytes(), "\nbitset container values: ".spec_bytes(), "\nbitset container bytes: ".spec_bytes(), st.n_bitset_containers, st.n_values_bitset_containers, st.n_bytes_bitset_containers), text_kind("\nrun containers: ".spec_bytes(), "\nrun container values: ".spec_bytes(), "\nrun container bytes: ".spec_bytes(), st.n_run_containers, st.n_values_run_containers, st.n_bytes_run_containers), ("\nrun container values: ".spec_bytes()), decimal_digits(st.n_values_run_containers as nat), "\nrun container bytes: ".spec_bytes());
    lemma_shows_prepend("type: bitmap64\ncardinality: ".spec_bytes() + decimal_digits(st.cardinality as nat) + "\nnumber of containers: ".spec_bytes() + decimal_digits(st.n_containers as nat) + "\nmax value: ".spec_bytes() + optional_digits(st.max_value, "(none)".spec_bytes()) + "\nmin value: ".spec_bytes() + optional_digits(st.min_value, "(none)".spec_bytes()) + "\nserialized bytes: ".spec_bytes() + decimal_digits(serialized as nat), text_breakdown(st), ("\nrun container values: ".spec_bytes()), decimal_digits(st.n_values_run_containers as nat), "\nrun container bytes: ".spec_bytes());
}

proof fn lemma_text64_field_13(b: RoaringTreemap, st: BitmapStats)
    ensures
        ends_showing(b.stat_text_spec(st), ("\nrun container bytes: ".spec_bytes()), decimal_digits(st.n_bytes_run_containers as nat)),
{
    let serialized = (bitmap64_serialized_len(b) as usize);
    assert(b.stat_text_spec(st) == "type: bitmap64\ncardinality: ".spec_bytes() + decimal_digits(st.cardinality as nat) + "\nnumber of containers: ".spec_bytes() + decimal_digits(st.n_containers as nat) + "\nmax value: ".spec_bytes() + optional_digits(st.max_value, "(none)".spec_bytes()) + "\nmin value: ".spec_bytes() + optional_digits(st.min_value, "(none)".spec_bytes()) + "\nserialized bytes: ".spec_bytes() + decimal_digits(serialized as nat) + text_breakdown(st));
    assert("\nrun containers: ".spec_bytes() + decimal_digits(st.n_run_containers as nat) + "\nrun container values: ".spec_bytes() + decimal_digits(st.n_values_run_containers as nat) + "\nrun container bytes: ".spec_bytes() + decimal_digits(st.n_bytes_run_containers as nat) =~= ("\nrun containers: ".spec_bytes() + decimal_digits(st.n_run_containers as nat) + "\nrun container values: ".spec_bytes() + decimal_digits(st.n_values_run_containers as nat)) + ("\nrun container bytes: ".spec_bytes()) + decimal_digits(st.n_bytes_run_containers as nat));
    lemma_ends_prepend(text_kind("\nnumber of array containers: ".spec_bytes(), "\narray container values: ".spec_bytes(), "\narray container bytes: ".spec_bytes(), st.n_array_containers, st.n_values_array_containers, st.n_bytes_array_containers) + text_kind("\nbitset containers: ".spec_bytes(), "\nbitset container values: ".spec_bytes(), "\nbitset container bytes: ".spec_bytes(), st.n_bitset_containers, st.n_values_bitset_containers, st.n_bytes_bitset_containers), text_kind("\nrun containers: ".spec_bytes(), "\nrun container values: ".spec_bytes(), "\nrun container bytes: ".spec_bytes(), st.n_run_containers, st.n_values_run_containers, st.n_bytes_run_containers), ("\nrun container bytes: ".spec_bytes()), decimal_digits(st.n_bytes_run_containers as nat));
    lemma_ends_prepend("type: bitmap64\ncardinality: ".spec_bytes() + decimal_digits(st.cardinality as nat) + "\nnumber of containers: ".spec_bytes() + decimal_digits(st.n_containers as nat) + "\nmax value: ".spec_bytes() + optional_digits(st.max_value, "(none)".spec_bytes()) + "\nmin value: ".spec_bytes() + optional_digits(st.min_value, "(none)".spec_bytes()) + "\nserialized bytes: ".spec_bytes() + decimal_digits(serialized as nat), text_breakdown(st), ("\nrun container bytes: ".spec_bytes()), decimal_digits(st.n_bytes_run_containers as nat));
}

/// The `R.STAT` text of a 64-bit bitmap, read label by label: the
/// cardinality and the extremes are those of the bitmap, and every
/// container figure of its statistics stands under its own label.
pub proof fn stat_text64_reads_back(b: RoaringTreemap, st: BitmapStats)
    requires
        b.stats_fit(st),
    ensures
        shows(b.stat_text_spec(st), ("type: bitmap64\ncardinality: ".spec_bytes()), decimal_digits(b.view_set().len()), "\nnumber of containers: ".spec_bytes()),
        shows(b.stat_text_spec(st), ("\nnumber of containers: ".spec_bytes()), decimal_digits(st.n_containers as nat), "\nmax value: ".spec_bytes()),
        forall|g: u64| is_greatest(value_of::<RoaringTreemap>(), b.view_set(), g) ==> shows(b.stat_text_spec(st), ("\nmax value: ".spec_bytes()), decimal_digits(g as nat), "\nmin value: ".spec_bytes()),
        b.view_set() == Set::<u64>::empty() ==> shows(b.stat_text_spec(st), ("\nmax value: ".spec_bytes()), "(none)".spec_bytes(), "\nmin value: ".spec_bytes()),
        forall|g: u64| is_least(value_of::<RoaringTreemap>(), b.view_set(), g) ==> shows(b.stat_text_spec(st), ("\nmin value: ".spec_bytes()), decimal_digits(g as nat), "\nserialized bytes: ".spec_bytes()),
        b.view_set() == Set::<u64>::empty() ==> shows(b.stat_text_spec(st), ("\nmin value: ".spec_bytes()), "(none)".spec_bytes(), "\nserialized bytes: ".spec_bytes()),
        shows(b.stat_text_spec(st), ("\nserialized bytes: ".spec_bytes()), decimal_digits((bitmap64_serialized_len(b) as usize) as nat), "\nnumber of array containers: ".spec_bytes()),
        shows(b.stat_text_spec(st), ("\nnumber of array containers: ".spec_bytes()), decimal_digits(st.n_array_containers as nat), "\narray container values: ".spec_bytes()),
        shows(b.stat_text_spec(st), ("\narray container values: ".spec_bytes()), decimal_digits(st.n_values_array_containers as nat), "\narray container bytes: ".spec_bytes()),
        shows(b.stat_text_spec(st), ("\narray container bytes: ".spec_bytes()), decimal_digits(st.n_bytes_array_containers as nat), "\nbitset containers: ".spec_bytes()),
        shows(b.stat_text_spec(st), ("\nbitset containers: ".spec_bytes()), decimal_digits(st.n_bitset_containers as nat), "\nbitset container values: ".spec_bytes()),
        shows(b.stat_text_spec(st), ("\nbitset container values: ".spec_bytes()), decimal_digits(st.n_values_bitset_containers as nat), "\nbitset container bytes: ".spec_bytes()),
        shows(b.stat_text_spec(st), ("\nbitset container bytes: ".spec_bytes()), decimal_digits(st.n_bytes_bitset_containers as nat), "\nrun containers: ".spec_bytes()),
        shows(b.stat_text_spec(st), ("\nrun containers: ".spec_bytes()), decimal_digits(st.n_run_containers as nat), "\nrun container values: ".spec_bytes()),
        shows(b.stat_text_spec(st), ("\nrun container values: ".spec_bytes()), decimal_digits(st.n_values_run_containers as nat), "\nrun container bytes: ".spec_bytes()),
        ends_showing(b.stat_text_spec(st), ("\nrun container bytes: ".spec_bytes()), decimal_digits(st.n_bytes_run_containers as nat)),
{
    assert(st.cardinality as nat == b.view_set().len());
    lemma_no_extremes_64(b, st);
    lemma_text64_field_0(b, st);
    lemma_text64_field_1(b, st);
    lemma_text64_field_2(b, st);
    assert forall|g: u64| is_greatest(value_of::<RoaringTreemap>(), b.view_set(), g) implies shows(b.stat_text_spec(st), ("\nmax value: ".spec_bytes()), decimal_digits(g as nat), "\nmin value: ".spec_bytes()) by {
        lemma_extreme_digits_64(b, st, g);
    }
    lemma_text64_field_3(b, st);
    assert forall|g: u64| is_least(value_of::<RoaringTreemap>(), b.view_set(), g) implies shows(b.stat_text_spec(st), ("\nmin value: ".spec_bytes()), decimal_digits(g as nat), "\nserialized bytes: ".spec_bytes()) by {
        lemma_extreme_digits_64(b, st, g);
    }
    lemma_text64_field_4(b, st);
    lemma_text64_field_5(b, st);
    lemma_text64_field_6(b, st);
    lemma_text64_field_7(b, st);
    lemma_text64_field_8(b, st);
    lemma_text64_field_9(b, st);
    lemma_text64_field_10(b, st);
    lemma_text64_field_11(b, st);
    lemma_text64_field_12(b, st);
    lemma_text64_field_13(b, st);
}

proof fn lemma_json64_field_0(b: RoaringTreemap, st: BitmapStats)
    ensures
        shows(b.stat_json_spec(st), ("{\"type\":\"bitmap64\",\"cardinality\":\"".spec_bytes()), decimal_digits(st.cardinality as nat), "\",\"number_of_containers\":\"".spec_bytes()),
{
    let serialized = (bitmap64_serialized_len(b) as usize);
    assert(b.stat_json_spec(st) == "{\"type\":\"bitmap64\",\"cardinality\":\"".spec_bytes() + decimal_digits(st.cardinality as nat) + "\",\"number_of_containers\":\"".spec_bytes() + decimal_digits(st.n_containers as nat) + "\",\"max_value\":\"".spec_bytes() + optional_digits(st.max_value, "null".spec_bytes()) + "\",\"min_value\":\"".spec_bytes() + optional_digits(st.min_value, "null".spec_bytes()) + "\",\"serialized_bytes\":\"".spec_bytes() + decimal_digits(serialized as nat) + json_breakdown(st));
    assert("{\"type\":\"bitmap64\",\"cardinality\":\"".spec_bytes() + decimal_digits(st.cardinality as nat) + "\",\"number_of_containers\":\"".spec_bytes() =~= (Seq::<u8>::empty()) + ("{\"type\":\"bitmap64\",\"cardinality\":\"".spec_bytes()) + decimal_digits(st.cardinality as nat) + "\",\"number_of_containers\":\"".spec_bytes() + Seq::<u8>::empty());
    lemma_shows_append("{\"type\":\"bitmap64\",\"cardinality\":\"".spec_bytes() + decimal_digits(st.cardinality as nat) + "\",\"number_of_containers\":\"".spec_bytes(), decimal_digits(st.n_containers as nat), ("{\"type\":\"bitmap64\",\"cardinality\":\"".spec_bytes()), decimal_digits(st.cardinality as nat), "\",\"number_of_containers\":\"".spec_bytes());
    lemma_shows_append("{\"type\":\"bitmap64\",\"cardinality\":\"".spec_bytes() + decimal_digits(st.cardinality as nat) + "\",\"number_of_containers\":\"".spec_bytes() + decimal_digits(st.n_containers as nat), "\",\"max_value\":\"".spec_bytes(), ("{\"type\":\"bitmap64\",\"cardinality\":\"".spec_bytes()), decimal_digits(st.cardinality as nat), "\",\"number_of_containers\":\"".spec_bytes());
    lemma_shows_append("{\"type\":\"bitmap64\",\"cardinality\":\"".spec_bytes() + decimal_digits(st.cardinality as nat) + "\",\"number_of_containers\":\"".spec_bytes() + decimal_digits(st.n_containers as nat) + "\",\"max_value\":\"".spec_bytes(), optional_digits(st.max_value, "null".spec_bytes()), ("{\"type\":\"bitmap64\",\"cardinality\":\"".spec_bytes()), decimal_digits(st.cardinality as nat), "\",\"number_of_containers\":\"".spec_bytes());
    lemma_shows_append("{\"type\":\"bitmap64\",\"cardinality\":\"".spec_bytes() + decimal_digits(st.cardinality as nat) + "\",\"number_of_containers\":\"".spec_bytes() + decimal_digits(st.n_containers as nat) + "\",\"max_value\":\"".spec_bytes() + optional_digits(st.max_value, "null".spec_bytes()), "\",\"min_value\":\"".spec_bytes(), ("{\"type\":\"bitmap64\",\"cardinality\":\"".spec_bytes()), decimal_digits(st.cardinality as nat), "\",\"number_of_containers\":\"".spec_bytes());
    lemma_shows_append("{\"type\":\"bitmap64\",\"cardinality\":\"".spec_bytes() + decimal_digits(st.cardinality as nat) + "\",\"number_of_containers\":\"".spec_bytes() + decimal_digits(st.n_containers as nat) + "\",\"max_value\":\"".spec_bytes() + optional_digits(st.max_value, "null".spec_bytes()) + "\",\"min_value\":\"".spec_bytes(), optional_digits(st.min_value, "null".spec_bytes()), ("{\"type\":\"bitmap64\",\"cardinality\":\"".spec_bytes()), decimal_digits(st.cardinality as nat), "\",\"number_of_containers\":\"".spec_bytes());
    lemma_shows_append("{\"type\":\"bitmap64\",\"cardinality\":\"".spec_bytes() + decimal_digits(st.cardinality as nat) + "\",\"number_of_containers\":\"".spec_bytes() + decimal_digits(st.n_containers as nat) + "\",\"max_value\":\"".spec_bytes() + optional_digits(st.max_value, "null".spec_bytes()) + "\",\"min_value\":\"".spec_bytes() + optional_digits(st.min_value, "null".spec_bytes()), "\",\"serialized_bytes\":\"".spec_bytes(), ("{\"type\":\"bitmap64\",\"cardinality\":\"".spec_bytes()), decimal_digits(st.cardinality as nat), "\",\"number_of_containers\":\"".spec_bytes());
    lemma_shows_append("{\"type\":\"bitmap64\",\"cardinality\":\"".spec_bytes() + decimal_digits(st.cardinality as nat) + "\",\"number_of_containers\":\"".spec_bytes() + decimal_digits(st.n_containers as nat) + "\",\"max_value\":\"".spec_bytes() + optional_digits(st.max_value, "null".spec_bytes()) + "\",\"min_value\":\"".spec_bytes() + optional_digits(st.min_value, "null".spec_bytes()) + "\",\"serialized_bytes\":\"".spec_bytes(), decimal_digits(serialized as nat), ("{\"type\":\"bitmap64\",\"cardinality\":\"".spec_bytes()), decimal_digits(st.cardinality as nat), "\",\"number_of_containers\":\"".spec_bytes());
    lemma_shows_append("{\"type\":\"bitmap64\",\"cardinality\":\"".spec_bytes() + decimal_digits(st.cardinality as nat) + "\",\"number_of_containers\":\"".spec_bytes() + decimal_digits(st.n_containers as nat) + "\",\"max_value\":\"".spec_bytes() + optional_digits(st.max_value, "null".spec_bytes()) + "\",\"min_value\":\"".spec_bytes() + optional_digits(st.min_value, "null".spec_bytes()) + "\",\"serialized_bytes\":\"".spec_bytes() + decimal_digits(serialized as nat), json_breakdown(st), ("{\"type\":\"bitmap64\",\"cardinality\":\"".spec_bytes()), decimal_digits(st.cardinality as nat), "\",\"number_of_containers\":\"".spec_bytes());
}

proof fn lemma_json64_field_1(b: RoaringTreemap, st: BitmapStats)
    ensures
        shows(b.stat_json_spec(st), ("\",\"number_of_containers\":\"".spec_bytes()), decimal_digits(st.n_containers as nat), "\",\"max_value\":\"".spec_bytes()),
{
    let serialized = (bitmap64_serialized_len(b) as usize);
    assert(b.stat_json_spec(st) == "{\"type\":\"bitmap64\",\"cardinality\":\"".spec_bytes() + decimal_digits(st.cardinality as nat) + "\",\"number_of_containers\":\"".spec_bytes() + decimal_digits(st.n_containers as nat) + "\",\"max_value\":\"".spec_bytes() + optional_digits(st.max_value, "null".spec_bytes()) + "\",\"min_value\":\"".spec_bytes() + optional_digits(st.min_value, "null".spec_bytes()) + "\",\"serialized_bytes\":\"".spec_bytes() + decimal_digits(serialized as nat) + json_breakdown(st));
    assert("{\"type\":\"bitmap64\",\"cardinality\":\"".spec_bytes() + decimal_digits(st.cardinality as nat) + "\",\"number_of_containers\":\"".spec_bytes() + decimal_digits(st.n_containers as nat) + "\",\"max_value\":\"".spec_bytes() =~= ("{\"type\":\"bitmap64\",\"cardinality\":\"".spec_bytes() + decimal_digits(st.cardinality as nat)) + ("\",\"number_of_containers\":\"".spec_bytes()) + decimal_digits(st.n_containers as nat) + "\",\"max_value\":\"".spec_bytes() + Seq::<u8>::empty());
    lemma_shows_append("{\"type\":\"bitmap64\",\"cardinality\":\"".spec_bytes() + decimal_digits(st.cardinality as nat) + "\",\"number_of_containers\":\"".spec_bytes() + decimal_digits(st.n_containers as nat) + "\",\"max_value\":\"".spec_bytes(), optional_digits(st.max_value, "null".spec_bytes()), ("\",\"number_of_containers\":\"".spec_bytes()), decimal_digits(st.n_containers as nat), "\",\"max_value\":\"".spec_bytes());
    lemma_shows_append("{\"type\":\"bitmap64\",\"cardinality\":\"".spec_bytes() + decimal_digits(st.cardinality as nat) + "\",\"number_of_containers\":\"".spec_bytes() + decimal_digits(st.n_containers as nat) + "\",\"max_value\":\"".spec_bytes() + optional_digits(st.max_value, "null".spec_bytes()), "\",\"min_value\":\"".spec_bytes(), ("\",\"number_of_containers\":\"".spec_bytes()), decimal_digits(st.n_containers as nat), "\",\"max_value\":\"".spec_bytes());
    lemma_shows_append("{\"type\":\"bitmap64\",\"cardinality\":\"".spec_bytes() + decimal_digits(st.cardinality as nat) + "\",\"number_of_containers\":\"".spec_bytes() + decimal_digits(st.n_containers as nat) + "\",\"max_value\":\"".spec_bytes() + optional_digits(st.max_value, "null".spec_bytes()) + "\",\"min_value\":\"".spec_bytes(), optional_digits(st.min_value, "null".spec_bytes()), ("\",\"number_of_containers\":\"".spec_bytes()), decimal_digits(st.n_containers as nat), "\",\"max_value\":\"".spec_bytes());
    lemma_shows_append("{\"type\":\"bitmap64\",\"cardinality\":\"".spec_bytes() + decimal_digits(st.cardinality as nat) + "\",\"number_of_containers\":\"".spec_bytes() + decimal_digits(st.n_containers as nat) + "\",\"max_value\":\"".spec_bytes() + optional_digits(st.max_value, "null".spec_bytes()) + "\",\"min_value\":\"".spec_bytes() + optional_digits(st.min_value, "null".spec_bytes()), "\",\"serialized_bytes\":\"".spec_bytes(), ("\",\"number_of_containers\":\"".spec_bytes()), decimal_digits(st.n_containers as nat), "\",\"max_value\":\"".spec_bytes());
    lemma_shows_append("{\"type\":\"bitmap64\",\"cardinality\":\"".spec_bytes() + decimal_digits(st.cardinality as nat) + "\",\"number_of_containers\":\"".spec_bytes() + decimal_digits(st.n_containers as nat) + "\",\"max_value\":\"".spec_bytes() + optional_digits(st.max_value, "null".spec_bytes()) + "\",\"min_value\":\"".spec_bytes() + optional_digits(st.min_value, "null".spec_bytes()) + "\",\"serialized_bytes\":\"".spec_bytes(), decimal_digits(serialized as nat), ("\",\"number_of_containers\":\"".spec_bytes()), decimal_digits(st.n_containers as nat), "\",\"max_value\":\"".spec_bytes());
    lemma_shows_append("{\"type\":\"bitmap64\",\"cardinality\":\"".spec_bytes() + decimal_digits(st.cardinality as nat) + "\",\"number_of_containers\":\"".spec_bytes() + decimal_digits(st.n_containers as nat) + "\",\"max_value\":\"".spec_bytes() + optional_digits(st.max_value, "null".spec_bytes()) + "\",\"min_value\":\"".spec_bytes() + optional_digits(st.min_value, "null".spec_bytes()) + "\",\"serialized_bytes\":\"".spec_bytes() + decimal_digits(serialized as nat), json_breakdown(st), ("\",\"number_of_containers\":\"".spec_bytes()), decimal_digits(st.n_containers as nat), "\",\"max_value\":\"".spec_bytes());
}

proof fn lemma_json64_field_2(b: RoaringTreemap, st: BitmapStats)
    ensures
        shows(b.stat_json_spec(st), ("\",\"max_value\":\"".spec_bytes()), optional_digits(st.max_value, "null".spec_bytes()), "\",\"min_value\":\"".spec_bytes()),
{
    let serialized = (bitmap64_serialized_len(b) as usize);
    assert(b.stat_json_spec(st) == "{\"type\":\"bitmap64\",\"cardinality\":\"".spec_bytes() + decimal_digits(st.cardinality as nat) + "\",\"number_of_containers\":\"".spec_bytes() + decimal_digits(st.n_containers as nat) + "\",\"max_value\":\"".spec_bytes() + optional_digits(st.max_value, "null".spec_bytes()) + "\",\"min_value\":\"".spec_bytes() + optional_digits(st.min_value, "null".spec_bytes()) + "\",\"serialized_bytes\":\"".spec_bytes() + decimal_digits(serialized as nat) + json_breakdown(st));
    assert("{\"type\":\"bitmap64\",\"cardinality\":\"".spec_bytes() + decimal_digits(st.cardinality as nat) + "\",\"number_of_containers\":\"".spec_bytes() + decimal_digits(st.n_containers as nat) + "\",\"max_value\":\"".spec_bytes() + optional_digits(st.max_value, "null".spec_bytes()) + "\",\"min_value\":\"".spec_bytes() =~= ("{\"type\":\"bitmap64\",\"cardinality\":\"".spec_bytes() + decimal_digits(st.cardinality as nat) + "\",\"number_of_containers\":\"".spec_bytes() + decimal_digits(st.n_containers as nat)) + ("\",\"max_value\":\"".spec_bytes()) + optional_digits(st.max_value, "null".spec_bytes()) + "\",\"min_value\":\"".spec_bytes() + Seq::<u8>::empty());
    lemma_shows_append("{\"type\":\"bitmap64\",\"cardinality\":\"".spec_bytes() + decimal_digits(st.cardinality as nat) + "\",\"number_of_containers\":\"".spec_bytes() + decimal_digits(st.n_containers as nat) + "\",\"max_value\":\"".spec_bytes() + optional_digits(st.max_value, "null".spec_bytes()) + "\",\"min_value\":\"".spec_bytes(), optional_digits(st.min_value, "null".spec_bytes()), ("\",\"max_value\":\"".spec_bytes()), optional_digits(st.max_value, "null".spec_bytes()), "\",\"min_value\":\"".spec_bytes());
    lemma_shows_append("{\"type\":\"bitmap64\",\"cardinality\":\"".spec_bytes() + decimal_digits(st.cardinality as nat) + "\",\"number_of_containers\":\"".spec_bytes() + decimal_digits(st.n_containers as nat) + "\",\"max_value\":\"".spec_bytes() + optional_digits(st.max_value, "null".spec_bytes()) + "\",\"min_value\":\"".spec_bytes() + optional_digits(st.min_value, "null".spec_bytes()), "\",\"serialized_bytes\":\"".spec_bytes(), ("\",\"max_value\":\"".spec_bytes()), optional_digits(st.max_value, "null".spec_bytes()), "\",\"min_value\":\"".spec_bytes());
    lemma_shows_append("{\"type\":\"bitmap64\",\"cardinality\":\"".spec_bytes() + decimal_digits(st.cardinality as nat) + "\",\"number_of_containers\":\"".spec_bytes() + decimal_digits(st.n_containers as nat) + "\",\"max_value\":\"".spec_bytes() + optional_digits(st.max_value, "null".spec_bytes()) + "\",\"min_value\":\"".spec_bytes() + optional_digits(st.min_value, "null".spec_bytes()) + "\",\"serialized_bytes\":\"".spec_bytes(), decimal_digits(serialized as nat), ("\",\"max_value\":\"".spec_bytes()), optional_digits(st.max_value, "null".spec_bytes()), "\",\"min_value\":\"".spec_bytes());
    lemma_shows_append("{\"type\":\"bitmap64\",\"cardinality\":\"".spec_bytes() + decimal_digits(st.cardinality as nat) + "\",\"number_of_containers\":\"".spec_bytes() + decimal_digits(st.n_containers as nat) + "\",\"max_value\":\"".spec_bytes() + optional_digits(st.max_value, "null".spec_bytes()) + "\",\"min_value\":\"".spec_bytes() + optional_digits(st.min_value, "null".spec_bytes()) + "\",\"serialized_bytes\":\"".spec_bytes() + decimal_digits(serialized as nat), json_breakdown(st), ("\",\"max_value\":\"".spec_bytes()), optional_digits(st.max_value, "null".spec_bytes()), "\",\"min_value\":\"".spec_bytes());
}

proof fn lemma_json64_field_3(b: RoaringTreemap, st: BitmapStats)
    ensures
        shows(b.stat_json_spec(st), ("\",\"min_value\":\"".spec_bytes()), optional_digits(st.min_value, "null".spec_bytes()), "\",\"serialized_bytes\":\"".spec_bytes()),
{
    let serialized = (bitmap64_serialized_len(b) as usize);
    assert(b.stat_json_spec(st) == "{\"type\":\"bitmap64\",\"cardinality\":\"".spec_bytes() + decimal_digits(st.cardinality as nat) + "\",\"number_of_containers\":\"".spec_bytes() + decimal_digits(st.n_containers as nat) + "\",\"max_value\":\"".spec_bytes() + optional_digits(st.max_value, "null".spec_bytes()) + "\",\"min_value\":\"".spec_bytes() + optional_digits(st.min_value, "null".spec_bytes()) + "\",\"serialized_bytes\":\"".spec_bytes() + decimal_digits(serialized as nat) + json_breakdown(st));
    assert("{\"type\":\"bitmap64\",\"cardinality\":\"".spec_bytes() + decimal_digits(st.cardinality as nat) + "\",\"number_of_containers\":\"".spec_bytes() + decimal_digits(st.n_containers as nat) + "\",\"max_value\":\"".spec_bytes() + optional_digits(st.max_value, "null".spec_bytes()) + "\",\"min_value\":\"".spec_bytes() + optional_digits(st.min_value, "null".spec_bytes()) + "\",\"serialized_bytes\":\"".spec_bytes() =~= ("{\"type\":\"bitmap64\",\"cardinality\":\"".spec_bytes() + decimal_digits(st.cardinality as nat) + "\",\"number_of_containers\":\"".spec_bytes() + decimal_digits(st.n_containers as nat) + "\",\"max_value\":\"".spec_bytes() + optional_digits(st.max_value, "null".spec_bytes())) + ("\",\"min_value\":\"".spec_bytes()) + optional_digits(st.min_value, "null".spec_bytes()) + "\",\"serialized_bytes\":\"".spec_bytes() + Seq::<u8>::empty());
    lemma_shows_append("{\"type\":\"bitmap64\",\"cardinality\":\"".spec_bytes() + decimal_digits(st.cardinality as nat) + "\",\"number_of_containers\":\"".spec_bytes() + decimal_digits(st.n_containers as nat) + "\",\"max_value\":\"".spec_bytes() + optional_digits(st.max_value, "null".spec_bytes()) + "\",\"min_value\":\"".spec_bytes() + optional_digits(st.min_value, "null".spec_bytes()) + "\",\"serialized_bytes\":\"".spec_bytes(), decimal_digits(serialized as nat), ("\",\"min_value\":\"".spec_bytes()), optional_digits(st.min_value, "null".spec_bytes()), "\",\"serialized_bytes\":\"".spec_bytes());
    lemma_shows_append("{\"type\":\"bitmap64\",\"cardinality\":\"".spec_bytes() + decimal_digits(st.cardinality as nat) + "\",\"number_of_containers\":\"".spec_bytes() + decimal_digits(st.n_containers as nat) + "\",\"max_value\":\"".spec_bytes() + optional_digits(st.max_value, "null".spec_bytes()) + "\",\"min_value\":\"".spec_bytes() + optional_digits(st.min_value, "null".spec_bytes()) + "\",\"serialized_bytes\":\"".spec_bytes() + decimal_digits(serialized as nat), json_breakdown(st), ("\",\"min_value\":\"".spec_bytes()), optional_digits(st.min_value, "null".spec_bytes()), "\",\"serialized_bytes\":\"".spec_bytes());
}

proof fn lemma_json64_field_4(b: RoaringTreemap, st: BitmapStats)
    ensures
        shows(b.stat_json_spec(st), ("\",\"serialized_bytes\":\"".spec_bytes()), decimal_digits((bitmap64_serialized_len(b) as usize) as nat), "\",\"array_container\":{\"number_of_containers\":\"".spec_bytes()),
{
    let serialized = (bitmap64_serialized_len(b) as usize);
    assert(b.stat_json_spec(st) == "{\"type\":\"bitmap64\",\"cardinality\":\"".spec_bytes() + decimal_digits(st.cardinality as nat) + "\",\"number_of_containers\":\"".spec_bytes() + decimal_digits(st.n_containers as nat) + "\",\"max_value\":\"".spec_bytes() + optional_digits(st.max_value, "null".spec_bytes()) + "\",\"min_value\":\"".spec_bytes() + optional_digits(st.min_value, "null".spec_bytes()) + "\",\"serialized_bytes\":\"".spec_bytes() + decimal_digits(serialized as nat) + json_breakdown(st));
    assert("{\"type\":\"bitmap64\",\"cardinality\":\"".spec_bytes() + decimal_digits(st.cardinality as nat) + "\",\"number_of_containers\":\"".spec_bytes() + decimal_digits(st.n_containers as nat) + "\",\"max_value\":\"".spec_bytes() + optional_digits(st.max_value, "null".spec_bytes()) + "\",\"min_value\":\"".spec_bytes() + optional_digits(st.min_value, "null".spec_bytes()) + "\",\"serialized_bytes\":\"".spec_bytes() + decimal_digits(serialized as nat) =~= ("{\"type\":\"bitmap64\",\"cardinality\":\"".spec_bytes() + decimal_digits(st.cardinality as nat) + "\",\"number_of_containers\":\"".spec_bytes() + decimal_digits(st.n_containers as nat) + "\",\"max_value\":\"".spec_bytes() + optional_digits(st.max_value, "null".spec_bytes()) + "\",\"min_value\":\"".spec_bytes() + optional_digits(st.min_value, "null".spec_bytes())) + ("\",\"serialized_bytes\":\"".spec_bytes()) + decimal_digits(serialized as nat));
    assert("\",\"array_container\":{\"number_of_containers\":\"".spec_bytes() =~= "\",\"array_container\":{\"number_of_containers\":\"".spec_bytes() + Seq::<u8>::empty());
    lemma_starts_append("\",\"array_container\":{\"number_of_containers\":\"".spec_bytes(), decimal_digits(st.n_array_containers as nat), "\",\"array_container\":{\"number_of_containers\":\"".spec_bytes());
    lemma_starts_append("\",\"array_container\":{\"number_of_containers\":\"".spec_bytes() + decimal_digits(st.n_array_containers as nat), "\",\"container_cardinality\":\"".spec_bytes(), "\",\"array_container\":{\"number_of_containers\":\"".spec_bytes());
    lemma_starts_append("\",\"array_container\":{\"number_of_containers\":\"".spec_bytes() + decimal_digits(st.n_array_containers as nat) + "\",\"container_cardinality\":\"".spec_bytes(), decimal_digits(st.n_values_array_containers as nat), "\",\"array_container\":{\"number_of_containers\":\"".spec_bytes());
    lemma_starts_append("\",\"array_container\":{\"number_of_containers\":\"".spec_bytes() + decimal_digits(st.n_array_containers as nat) + "\",\"container_cardinality\":\"".spec_bytes() + decimal_digits(st.n_values_array_containers as nat), "\",\"container_allocated_bytes\":\"".spec_bytes(), "\",\"array_container\":{\"number_of_containers\":\"".spec_bytes());
    lemma_starts_append("\",\"array_container\":{\"number_of_containers\":\"".spec_bytes() + decimal_digits(st.n_array_containers as nat) + "\",\"container_cardinality\":\"".spec_bytes() + decimal_digits(st.n_values_array_containers as nat) + "\",\"container_allocated_bytes\":\"".spec_bytes(), decimal_digits(st.n_bytes_array_containers as nat), "\",\"array_container\":{\"number_of_containers\":\"".spec_bytes());
    lemma_starts_append(text_kind("\",\"array_container\":{\"number_of_containers\":\"".spec_bytes(), "\",\"container_cardinality\":\"".spec_bytes(), "\",\"container_allocated_bytes\":\"".spec_bytes(), st.n_array_containers, st.n_values_array_containers, st.n_bytes_array_containers), text_kind("\"},\"bitset_container\":{\"number_of_containers\":\"".spec_bytes(), "\",\"container_cardinality\":\"".spec_bytes(), "\",\"container_allocated_bytes\":\"".spec_bytes(), st.n_bitset_containers, st.n_values_bitset_containers, st.n_bytes_bitset_containers), "\",\"array_container\":{\"number_of_containers\":\"".spec_bytes());
    lemma_starts_append(text_kind("\",\"array_container\":{\"number_of_containers\":\"".spec_bytes(), "\",\"container_cardinality\":\"".spec_bytes(), "\",\"container_allocated_bytes\":\"".spec_bytes(), st.n_array_containers, st.n_values_array_containers, st.n_bytes_array_containers) + text_kind("\"},\"bitset_container\":{\"number_of_containers\":\"".spec_bytes(), "\",\"container_cardinality\":\"".spec_bytes(), "\",\"container_allocated_bytes\":\"".spec_bytes(), st.n_bitset_containers, st.n_values_bitset_containers, st.n_bytes_bitset_containers), text_kind("\"},\"run_container\":{\"number_of_containers\":\"".spec_bytes(), "\",\"container_cardinality\":\"".spec_bytes(), "\",\"container_allocated_bytes\":\"".spec_bytes(), st.n_run_containers, st.n_values_run_containers, st.n_bytes_run_containers), "\",\"array_container\":{\"number_of_containers\":\"".spec_bytes());
    lemma_starts_append(text_kind("\",\"array_container\":{\"number_of_containers\":\"".spec_bytes(), "\",\"container_cardinality\":\"".spec_bytes(), "\",\"container_allocated_bytes\":\"".spec_bytes(), st.n_array_containers, st.n_values_array_containers, st.n_bytes_array_containers) + text_kind("\"},\"bitset_container\":{\"number_of_containers\":\"".spec_bytes(), "\",\"container_cardinality\":\"".spec_bytes(), "\",\"container_allocated_bytes\":\"".spec_bytes(), st.n_bitset_containers, st.n_values_bitset_containers, st.n_bytes_bitset_containers) + text_kind("\"},\"run_container\":{\"number_of_containers\":\"".spec_bytes(), "\",\"container_cardinality\":\"".spec_bytes(), "\",\"container_allocated_bytes\":\"".spec_bytes(), st.n_run_containers, st.n_values_run_containers, st.n_bytes_run_containers), "\"}}".spec_bytes(), "\",\"array_container\":{\"number_of_containers\":\"".spec_bytes());
    lemma_shows_across("{\"type\":\"bitmap64\",\"cardinality\":\"".spec_bytes() + decimal_digits(st.cardinality as nat) + "\",\"number_of_containers\":\"".spec_bytes() + decimal_digits(st.n_containers as nat) + "\",\"max_value\":\"".spec_bytes() + optional_digits(st.max_value, "null".spec_bytes()) + "\",\"min_value\":\"".spec_bytes() + optional_digits(st.min_value, "null".spec_bytes()) + "\",\"serialized_bytes\":\"".spec_bytes() + decimal_digits(serialized as nat), json_breakdown(st), ("\",\"serialized_bytes\":\"".spec_bytes()), decimal_digits(serialized as nat), "\",\"array_container\":{\"number_of_containers\":\"".spec_bytes());
}

proof fn lemma_json64_field_5(b: RoaringTreemap, st: BitmapStats)
    ensures
        shows(b.stat_json_spec(st), ("\",\"array_container\":{\"number_of_containers\":\"".spec_bytes()), decimal_digits(st.n_array_containers as nat), "\",\"container_cardinality\":\"".spec_bytes()),
{
    let serialized = (bitmap64_serialized_len(b) as usize);
    assert(b.stat_json_spec(st) == "{\"type\":\"bitmap64\",\"cardinality\":\"".spec_bytes() + decimal_digits(st.cardinality as nat) + "\",\"number_of_containers\":\"".spec_bytes() + decimal_digits(st.n_containers as nat) + "\",\"max_value\":\"".spec_bytes() + optional_digits(st.max_value, "null".spec_bytes()) + "\",\"min_value\":\"".spec_bytes() + optional_digits(st.min_value, "null".spec_bytes()) + "\",\"serialized_bytes\":\"".spec_bytes() + decimal_digits(serialized as nat) + json_breakdown(st));
    assert("\",\"array_container\":{\"number_of_containers\":\"".spec_bytes() + decimal_digits(st.n_array_containers as nat) + "\",\"container_cardinality\":\"".spec_bytes() =~= (Seq::<u8>::empty()) + ("\",\"array_container\":{\"number_of_containers\":\"".spec_bytes()) + decimal_digits(st.n_array_containers as nat) + "\",\"container_cardinality\":\"".spec_bytes() + Seq::<u8>::empty());
    lemma_shows_append("\",\"array_container\":{\"number_of_containers\":\"".spec_bytes() + decimal_digits(st.n_array_containers as nat) + "\",\"container_cardinality\":\"".spec_bytes(), decimal_digits(st.n_values_array_containers as nat), ("\",\"array_container\":{\"number_of_containers\":\"".spec_bytes()), decimal_digits(st.n_array_containers as nat), "\",\"container_cardinality\":\"".spec_bytes());
    lemma_shows_append("\",\"array_container\":{\"number_of_containers\":\"".spec_bytes() + decimal_digits(st.n_array_containers as nat) + "\",\"container_cardinality\":\"".spec_bytes() + decimal_digits(st.n_values_array_containers as nat), "\",\"container_allocated_bytes\":\"".spec_bytes(), ("\",\"array_container\":{\"number_of_containers\":\"".spec_bytes()), decimal_digits(st.n_array_containers as nat), "\",\"container_cardinality\":\"".spec_bytes());
    lemma_shows_append("\",\"array_container\":{\"number_of_containers\":\"".spec_bytes() + decimal_digits(st.n_array_containers as nat) + "\",\"container_cardinality\":\"".spec_bytes() + decimal_digits(st.n_values_array_containers as nat) + "\",\"container_allocated_bytes\":\"".spec_bytes(), decimal_digits(st.n_bytes_array_containers as nat), ("\",\"array_container\":{\"number_of_containers\":\"".spec_bytes()), decimal_digits(st.n_array_containers as nat), "\",\"container_cardinality\":\"".spec_bytes());
    lemma_shows_append(text_kind("\",\"array_container\":{\"number_of_containers\":\"".spec_bytes(), "\",\"container_cardinality\":\"".spec_bytes(), "\",\"container_allocated_bytes\":\"".spec_bytes(), st.n_array_containers, st.n_values_array_containers, st.n_bytes_array_containers), text_kind("\"},\"bitset_container\":{\"number_of_containers\":\"".spec_bytes(), "\",\"container_cardinality\":\"".spec_bytes(), "\",\"container_allocated_bytes\":\"".spec_bytes(), st.n_bitset_containers, st.n_values_bitset_containers, st.n_bytes_bitset_containers), ("\",\"array_container\":{\"number_of_containers\":\"".spec_bytes()), decimal_digits(st.n_array_containers as nat), "\",\"container_cardinality\":\"".spec_bytes());
    lemma_shows_append(text_kind("\",\"array_container\":{\"number_of_containers\":\"".spec_bytes(), "\",\"container_cardinality\":\"".spec_bytes(), "\",\"container_allocated_bytes\":\"".spec_bytes(), st.n_array_containers, st.n_values_array_containers, st.n_bytes_array_containers) + text_kind("\"},\"bitset_container\":{\"number_of_containers\":\"".spec_bytes(), "\",\"container_cardinality\":\"".spec_bytes(), "\",\"container_allocated_bytes\":\"".spec_bytes(), st.n_bitset_containers, st.n_values_bitset_containers, st.n_bytes_bitset_containers), text_kind("\"},\"run_container\":{\"number_of_containers\":\"".spec_bytes(), "\",\"container_cardinality\":\"".spec_bytes(), "\",\"container_allocated_bytes\":\"".spec_bytes(), st.n_run_containers, st.n_values_run_containers, st.n_bytes_run_containers), ("\",\"array_container\":{\"number_of_containers\":\"".spec_bytes()), decimal_digits(st.n_array_containers as nat), "\",\"container_cardinality\":\"".spec_bytes());
    lemma_shows_append(text_kind("\",\"array_container\":{\"number_of_containers\":\"".spec_bytes(), "\",\"container_cardinality\":\"".spec_bytes(), "\",\"container_allocated_bytes\":\"".spec_bytes(), st.n_array_containers, st.n_values_array_containers, st.n_bytes_array_containers) + text_kind("\"},\"bitset_container\":{\"number_of_containers\":\"".spec_bytes(), "\",\"container_cardinality\":\"".spec_bytes(), "\",\"container_allocated_bytes\":\"".spec_bytes(), st.n_bitset_containers, st.n_values_bitset_containers, st.n_bytes_bitset_containers) + text_kind("\"},\"run_container\":{\"number_of_containers\":\"".spec_bytes(), "\",\"container_cardinality\":\"".spec_bytes(), "\",\"container_allocated_bytes\":\"".spec_bytes(), st.n_run_containers, st.n_values_run_containers, st.n_bytes_run_containers), "\"}}".spec_bytes(), ("\",\"array_container\":{\"number_of_containers\":\"".spec_bytes()), decimal_digits(st.n_array_containers as nat), "\",\"container_cardinality\":\"".spec_bytes());
    lemma_shows_prepend("{\"type\":\"bitmap64\",\"cardinality\":\"".spec_bytes() + decimal_digits(st.cardinality as nat) + "\",\"number_of_containers\":\"".spec_bytes() + decimal_digits(st.n_containers as nat) + "\",\"max_value\":\"".spec_bytes() + optional_digits(st.max_value, "null".spec_bytes()) + "\",\"min_value\":\"".spec_bytes() + optional_digits(st.min_value, "null".spec_bytes()) + "\",\"serialized_bytes\":\"".spec_bytes() + decimal_digits(serialized as nat), json_breakdown(st), ("\",\"array_container\":{\"number_of_containers\":\"".spec_bytes()), decimal_digits(st.n_array_containers as nat), "\",\"container_cardinality\":\"".spec_bytes());
}

proof fn lemma_json64_field_6(b: RoaringTreemap, st: BitmapStats)
    ensures
        shows(b.stat_json_spec(st), ("\",\"array_container\":{\"number_of_containers\":\"".spec_bytes() + decimal_digits(st.n_array_containers as nat) + "\",\"container_cardinality\":\"".spec_bytes()), decimal_digits(st.n_values_array_containers as nat), "\",\"container_allocated_bytes\":\"".spec_bytes()),
{
    let serialized = (bitmap64_serialized_len(b) as usize);
    assert(b.stat_json_spec(st) == "{\"type\":\"bitmap64\",\"cardinality\":\"".spec_bytes() + decimal_digits(st.cardinality as nat) + "\",\"number_of_containers\":\"".spec_bytes() + decimal_digits(st.n_containers as nat) + "\",\"max_value\":\"".spec_bytes() + optional_digits(st.max_value, "null".spec_bytes()) + "\",\"min_value\":\"".spec_bytes() + optional_digits(st.min_value, "null".spec_bytes()) + "\",\"serialized_bytes\":\"".spec_bytes() + decimal_digits(serialized as nat) + json_breakdown(st));
    assert("\",\"array_container\":{\"number_of_containers\":\"".spec_bytes() + decimal_digits(st.n_array_containers as nat) + "\",\"container_cardinality\":\"".spec_bytes() + decimal_digits(st.n_values_array_containers as nat) + "\",\"container_allocated_bytes\":\"".spec_bytes() =~= (Seq::<u8>::empty()) + ("\",\"array_container\":{\"number_of_containers\":\"".spec_bytes() + decimal_digits(st.n_array_containers as nat) + "\",\"container_cardinality\":\"".spec_bytes()) + decimal_digits(st.n_values_array_containers as nat) + "\",\"container_allocated_bytes\":\"".spec_bytes() + Seq::<u8>::empty());
    lemma_shows_append("\",\"array_container\":{\"number_of_containers\":\"".spec_bytes() + decimal_digits(st.n_array_containers as nat) + "\",\"container_cardinality\":\"".spec_bytes() + decimal_digits(st.n_values_array_containers as nat) + "\",\"container_allocated_bytes\":\"".spec_bytes(), decimal_digits(st.n_bytes_array_containers as nat), ("\",\"array_container\":{\"number_of_containers\":\"".spec_bytes() + decimal_digits(st.n_array_containers as nat) + "\",\"container_cardinality\":\"".spec_bytes()), decimal_digits(st.n_values_array_containers as nat), "\",\"container_allocated_bytes\":\"".spec_bytes());
    lemma_shows_append(text_kind("\",\"array_container\":{\"number_of_containers\":\"".spec_bytes(), "\",\"container_cardinality\":\"".spec_bytes(), "\",\"container_allocated_bytes\":\"".spec_bytes(), st.n_array_containers, st.n_values_array_containers, st.n_bytes_array_containers), text_kind("\"},\"bitset_container\":{\"number_of_containers\":\"".spec_bytes(), "\",\"container_cardinality\":\"".spec_bytes(), "\",\"container_allocated_bytes\":\"".spec_bytes(), st.n_bitset_containers, st.n_values_bitset_containers, st.n_bytes_bitset_containers), ("\",\"array_container\":{\"number_of_containers\":\"".spec_bytes() + decimal_digits(st.n_array_containers as nat) + "\",\"container_cardinality\":\"".spec_bytes()), decimal_digits(st.n_values_array_containers as nat), "\",\"container_allocated_bytes\":\"".spec_bytes());
    lemma_shows_append(text_kind("\",\"array_container\":{\"number_of_containers\":\"".spec_bytes(), "\",\"container_cardinality\":\"".spec_bytes(), "\",\"container_allocated_bytes\":\"".spec_bytes(), st.n_array_containers, st.n_values_array_containers, st.n_bytes_array_containers) + text_kind("\"},\"bitset_container\":{\"number_of_containers\":\"".spec_bytes(), "\",\"container_cardinality\":\"".spec_bytes(), "\",\"container_allocated_bytes\":\"".spec_bytes(), st.n_bitset_containers, st.n_values_bitset_containers, st.n_bytes_bitset_containers), text_kind("\"},\"run_container\":{\"number_of_containers\":\"".spec_bytes(), "\",\"container_cardinality\":\"".spec_bytes(), "\",\"container_allocated_bytes\":\"".spec_bytes(), st.n_run_containers, st.n_values_run_containers, st.n_bytes_run_containers), ("\",\"array_container\":{\"number_of_containers\":\"".spec_bytes() + decimal_digits(st.n_array_containers as nat) + "\",\"container_cardinality\":\"".spec_bytes()), decimal_digits(st.n_values_array_containers as nat), "\",\"container_allocated_bytes\":\"".spec_bytes());
    lemma_shows_append(text_kind("\",\"array_container\":{\"number_of_containers\":\"".spec_bytes(), "\",\"container_cardinality\":\"".spec_bytes(), "\",\"container_allocated_bytes\":\"".spec_bytes(), st.n_array_containers, st.n_values_array_containers, st.n_bytes_array_containers) + text_kind("\"},\"bitset_container\":{\"number_of_containers\":\"".spec_bytes(), "\",\"container_cardinality\":\"".spec_bytes(), "\",\"container_allocated_bytes\":\"".spec_bytes(), st.n_bitset_containers, st.n_values_bitset_containers, st.n_bytes_bitset_containers) + text_kind("\"},\"run_container\":{\"number_of_containers\":\"".spec_bytes(), "\",\"container_cardinality\":\"".spec_bytes(), "\",\"container_allocated_bytes\":\"".spec_bytes(), st.n_run_containers, st.n_values_run_containers, st.n_bytes_run_containers), "\"}}".spec_bytes(), ("\",\"array_container\":{\"number_of_containers\":\"".spec_bytes() + decimal_digits(st.n_array_containers as nat) + "\",\"container_cardinality\":\"".spec_bytes()), decimal_digits(st.n_values_array_containers as nat), "\",\"container_allocated_bytes\":\"".spec_bytes());
    lemma_shows_prepend("{\"type\":\"bitmap64\",\"cardinality\":\"".spec_bytes() + decimal_digits(st.cardinality as nat) + "\",\"number_of_containers\":\"".spec_bytes() + decimal_digits(st.n_containers as nat) + "\",\"max_value\":\"".spec_bytes() + optional_digits(st.max_value, "null".spec_bytes()) + "\",\"min_value\":\"".spec_bytes() + optional_digits(st.min_value, "null".spec_bytes()) + "\",\"serialized_bytes\":\"".spec_bytes() + decimal_digits(serialized as nat), json_breakdown(st), ("\",\"array_container\":{\"number_of_containers\":\"".spec_bytes() + decimal_digits(st.n_array_containers as nat) + "\",\"container_cardinality\":\"".spec_bytes()), decimal_digits(st.n_values_array_containers as nat), "\",\"container_allocated_bytes\":\"".spec_bytes());
}

proof fn lemma_json64_field_7(b: RoaringTreemap, st: BitmapStats)
    ensures
        shows(b.stat_json_spec(st), ("\",\"array_container\":{\"number_of_containers\":\"".spec_bytes() + decimal_digits(st.n_array_containers as nat) + "\",\"container_cardinality\":\"".spec_bytes() + decimal_digits(st.n_values_array_containers as nat) + "\",\"container_allocated_bytes\":\"".spec_bytes()), decimal_digits(st.n_bytes_array_containers as nat), "\"},\"bitset_container\":{\"number_of_containers\":\"".spec_bytes()),
{
    let serialized = (bitmap64_serialized_len(b) as usize);
    assert(b.stat_json_spec(st) == "{\"type\":\"bitmap64\",\"cardinality\":\"".spec_bytes() + decimal_digits(st.cardinality as nat) + "\",\"number_of_containers\":\"".spec_bytes() + decimal_digits(st.n_containers as nat) + "\",\"max_value\":\"".spec_bytes() + optional_digits(st.max_value, "null".spec_bytes()) + "\",\"min_value\":\"".spec_bytes() + optional_digits(st.min_value, "null".spec_bytes()) + "\",\"serialized_bytes\":\"".spec_bytes() + decimal_digits(serialized as nat) + json_breakdown(st));
    assert("\",\"array_container\":{\"number_of_containers\":\"".spec_bytes() + decimal_digits(st.n_array_containers as nat) + "\",\"container_cardinality\":\"".spec_bytes() + decimal_digits(st.n_values_array_containers as nat) + "\",\"container_allocated_bytes\":\"".spec_bytes() + decimal_digits(st.n_bytes_array_containers as nat) =~= (Seq::<u8>::empty()) + ("\",\"array_container\":{\"number_of_containers\":\"".spec_bytes() + decimal_digits(st.n_array_containers as nat) + "\",\"container_cardinality\":\"".spec_bytes() + decimal_digits(st.n_values_array_containers as nat) + "\",\"container_allocated_bytes\":\"".spec_bytes()) + decimal_digits(st.n_bytes_array_containers as nat));
    assert("\"},\"bitset_container\":{\"number_of_containers\":\"".spec_bytes() =~= "\"},\"bitset_container\":{\"number_of_containers\":\"".spec_bytes() + Seq::<u8>::empty());
    lemma_starts_append("\"},\"bitset_container\":{\"number_of_containers\":\"".spec_bytes(), decimal_digits(st.n_bitset_containers as nat), "\"},\"bitset_container\":{\"number_of_containers\":\"".spec_bytes());
    lemma_starts_append("\"},\"bitset_container\":{\"number_of_containers\":\"".spec_bytes() + decimal_digits(st.n_bitset_containers as nat), "\",\"container_cardinality\":\"".spec_bytes(), "\"},\"bitset_container\":{\"number_of_containers\":\"".spec_bytes());
    lemma_starts_append("\"},\"bitset_container\":{\"number_of_containers\":\"".spec_bytes() + decimal_digits(st.n_bitset_containers as nat) + "\",\"container_cardinality\":\"".spec_bytes(), decimal_digits(st.n_values_bitset_containers as nat), "\"},\"bitset_container\":{\"number_of_containers\":\"".spec_bytes());
    lemma_starts_append("\"},\"bitset_container\":{\"number_of_containers\":\"".spec_bytes() + decimal_digits(st.n_bitset_containers as nat) + "\",\"container_cardinality\":\"".spec_bytes() + decimal_digits(st.n_values_bitset_containers as nat), "\",\"container_allocated_bytes\":\"".spec_bytes(), "\"},\"bitset_container\":{\"number_of_containers\":\"".spec_bytes());
    lemma_starts_append("\"},\"bitset_container\":{\"number_of_containers\":\"".spec_bytes() + decimal_digits(st.n_bitset_containers as nat) + "\",\"container_cardinality\":\"".spec_bytes() + decimal_digits(st.n_values_bitset_containers as nat) + "\",\"container_allocated_bytes\":\"".spec_bytes(), decimal_digits(st.n_bytes_bitset_containers as nat), "\"},\"bitset_container\":{\"number_of_containers\":\"".spec_bytes());
    lemma_shows_across(text_kind("\",\"array_container\":{\"number_of_containers\":\"".spec_bytes(), "\",\"container_cardinality\":\"".spec_bytes(), "\",\"container_allocated_bytes\":\"".spec_bytes(), st.n_array_containers, st.n_values_array_containers, st.n_bytes_array_containers), text_kind("\"},\"bitset_container\":{\"number_of_containers\":\"".spec_bytes(), "\",\"container_cardinality\":\"".spec_bytes(), "\",\"container_allocated_bytes\":\"".spec_bytes(), st.n_bitset_containers, st.n_values_bitset_containers, st.n_bytes_bitset_containers), ("\",\"array_container\":{\"number_of_containers\":\"".spec_bytes() + decimal_digits(st.n_array_containers as nat) + "\",\"container_cardinality\":\"".spec_bytes() + decimal_digits(st.n_values_array_containers as nat) + "\",\"container_allocated_bytes\":\"".spec_bytes()), decimal_digits(st.n_bytes_array_containers as nat), "\"},\"bitset_container\":{\"number_of_containers\":\"".spec_bytes());
    lemma_shows_append(text_kind("\",\"array_container\":{\"number_of_containers\":\"".spec_bytes(), "\",\"container_cardinality\":\"".spec_bytes(), "\",\"container_allocated_bytes\":\"".spec_bytes(), st.n_array_containers, st.n_values_array_containers, st.n_bytes_array_containers) + text_kind("\"},\"bitset_container\":{\"number_of_containers\":\"".spec_bytes(), "\",\"container_cardinality\":\"".spec_bytes(), "\",\"container_allocated_bytes\":\"".spec_bytes(), st.n_bitset_containers, st.n_values_bitset_containers, st.n_bytes_bitset_containers), text_kind("\"},\"run_container\":{\"number_of_containers\":\"".spec_bytes(), "\",\"container_cardinality\":\"".spec_bytes(), "\",\"container_allocated_bytes\":\"".spec_bytes(), st.n_run_containers, st.n_values_run_containers, st.n_bytes_run_containers), ("\",\"array_container\":{\"number_of_containers\":\"".spec_bytes() + decimal_digits(st.n_array_containers as nat) + "\",\"container_cardinality\":\"".spec_bytes() + decimal_digits(st.n_values_array_containers as nat) + "\",\"container_allocated_bytes\":\"".spec_bytes()), decimal_digits(st.n_bytes_array_containers as nat), "\"},\"bitset_container\":{\"number_of_containers\":\"".spec_bytes());
    lemma_shows_append(text_kind("\",\"array_container\":{\"number_of_containers\":\"".spec_bytes(), "\",\"container_cardinality\":\"".spec_bytes(), "\",\"container_allocated_bytes\":\"".spec_bytes(), st.n_array_containers, st.n_values_array_containers, st.n_bytes_array_containers) + text_kind("\"},\"bitset_container\":{\"number_of_containers\":\"".spec_bytes(), "\",\"container_cardinality\":\"".spec_bytes(), "\",\"container_allocated_bytes\":\"".spec_bytes(), st.n_bitset_containers, st.n_values_bitset_containers, st.n_bytes_bitset_containers) + text_kind("\"},\"run_container\":{\"number_of_containers\":\"".spec_bytes(), "\",\"container_cardinality\":\"".spec_bytes(), "\",\"container_allocated_bytes\":\"".spec_bytes(), st.n_run_containers, st.n_values_run_containers, st.n_bytes_run_containers), "\"}}".spec_bytes(), ("\",\"array_container\":{\"number_of_containers\":\"".spec_bytes() + decimal_digits(st.n_array_containers as nat) + "\",\"container_cardinality\":\"".spec_bytes() + decimal_digits(st.n_values_array_containers as nat) + "\",\"container_allocated_bytes\":\"".spec_bytes()), decimal_digits(st.n_bytes_array_containers as nat), "\"},\"bitset_container\":{\"number_of_containers\":\"".spec_bytes());
    lemma_shows_prepend("{\"type\":\"bitmap64\",\"cardinality\":\"".spec_bytes() + decimal_digits(st.cardinality as nat) + "\",\"number_of_containers\":\"".spec_bytes() + decimal_digits(st.n_containers as nat) + "\",\"max_value\":\"".spec_bytes() + optional_digits(st.max_value, "null".spec_bytes()) + "\",\"min_value\":\"".spec_bytes() + optional_digits(st.min_value, "null".spec_bytes()) + "\",\"serialized_bytes\":\"".spec_bytes() + decimal_digits(serialized as nat), json_breakdown(st), ("\",\"array_container\":{\"number_of_containers\":\"".spec_bytes() + decimal_digits(st.n_array_containers as nat) + "\",\"container_cardinality\":\"".spec_bytes() + decimal_digits(st.n_values_array_containers as nat) + "\",\"container_allocated_bytes\":\"".spec_bytes()), decimal_digits(st.n_bytes_array_containers as nat), "\"},\"bitset_container\":{\"number_of_containers\":\"".spec_bytes());
}

proof fn lemma_json64_field_8(b: RoaringTreemap, st: BitmapStats)
    ensures
        shows(b.stat_json_spec(st), ("\"},\"bitset_container\":{\"number_of_containers\":\"".spec_bytes()), decimal_digits(st.n_bitset_containers as nat), "\",\"container_cardinality\":\"".spec_bytes()),
{
    let serialized = (bitmap64_serialized_len(b) as usize);
    assert(b.stat_json_spec(st) == "{\"type\":\"bitmap64\",\"cardinality\":\"".spec_bytes() + decimal_digits(st.cardinality as nat) + "\",\"number_of_containers\":\"".spec_bytes() + decimal_digits(st.n_containers as nat) + "\",\"max_value\":\"".spec_bytes() + optional_digits(st.max_value, "null".spec_bytes()) + "\",\"min_value\":\"".spec_bytes() + optional_digits(st.min_value, "null".spec_bytes()) + "\",\"serialized_bytes\":\"".spec_bytes() + decimal_digits(serialized as nat) + json_breakdown(st));
    assert("\"},\"bitset_container\":{\"number_of_containers\":\"".spec_bytes() + decimal_digits(st.n_bitset_containers as nat) + "\",\"container_cardinality\":\"".spec_bytes() =~= (Seq::<u8>::empty()) + ("\"},\"bitset_container\":{\"number_of_containers\":\"".spec_bytes()) + decimal_digits(st.n_bitset_containers as nat) + "\",\"container_cardinality\":\"".spec_bytes() + Seq::<u8>::empty());
    lemma_shows_append("\"},\"bitset_container\":{\"number_of_containers\":\"".spec_bytes() + decimal_digits(st.n_bitset_containers as nat) + "\",\"container_cardinality\":\"".spec_bytes(), decimal_digits(st.n_values_bitset_containers as nat), ("\"},\"bitset_container\":{\"number_of_containers\":\"".spec_bytes()), decimal_digits(st.n_bitset_containers as nat), "\",\"container_cardinality\":\"".spec_bytes());
    lemma_shows_append("\"},\"bitset_container\":{\"number_of_containers\":\"".spec_bytes() + decimal_digits(st.n_bitset_containers as nat) + "\",\"container_cardinality\":\"".spec_bytes() + decimal_digits(st.n_values_bitset_containers as nat), "\",\"container_allocated_bytes\":\"".spec_bytes(), ("\"},\"bitset_container\":{\"number_of_containers\":\"".spec_bytes()), decimal_digits(st.n_bitset_containers as nat), "\",\"container_cardinality\":\"".spec_bytes());
    lemma_shows_append("\"},\"bitset_container\":{\"number_of_containers\":\"".spec_bytes() + decimal_digits(st.n_bitset_containers as nat) + "\",\"container_cardinality\":\"".spec_bytes() + decimal_digits(st.n_values_bitset_containers as nat) + "\",\"container_allocated_bytes\":\"".spec_bytes(), decimal_digits(st.n_bytes_bitset_containers as nat), ("\"},\"bitset_container\":{\"number_of_containers\":\"".spec_bytes()), decimal_digits(st.n_bitset_containers as nat), "\",\"container_cardinality\":\"".spec_bytes());
    lemma_shows_prepend(text_kind("\",\"array_container\":{\"number_of_containers\":\"".spec_bytes(), "\",\"container_cardinality\":\"".spec_bytes(), "\",\"container_allocated_bytes\":\"".spec_bytes(), st.n_array_containers, st.n_values_array_containers, st.n_bytes_array_containers), text_kind("\"},\"bitset_container\":{\"number_of_containers\":\"".spec_bytes(), "\",\"container_cardinality\":\"".spec_bytes(), "\",\"container_allocated_bytes\":\"".spec_bytes(), st.n_bitset_containers, st.n_values_bitset_containers, st.n_bytes_bitset_containers), ("\"},\"bitset_container\":{\"number_of_containers\":\"".spec_bytes()), decimal_digits(st.n_bitset_containers as nat), "\",\"container_cardinality\":\"".spec_bytes());
    lemma_shows_append(text_kind("\",\"array_container\":{\"number_of_containers\":\"".spec_bytes(), "\",\"container_cardinality\":\"".spec_bytes(), "\",\"container_allocated_bytes\":\"".spec_bytes(), st.n_array_containers, st.n_values_array_containers, st.n_bytes_array_containers) + text_kind("\"},\"bitset_container\":{\"number_of_containers\":\"".spec_bytes(), "\",\"container_cardinality\":\"".spec_bytes(), "\",\"container_allocated_bytes\":\"".spec_bytes(), st.n_bitset_containers, st.n_values_bitset_containers, st.n_bytes_bitset_containers), text_kind("\"},\"run_container\":{\"number_of_containers\":\"".spec_bytes(), "\",\"container_cardinality\":\"".spec_bytes(), "\",\"container_allocated_bytes\":\"".spec_bytes(), st.n_run_containers, st.n_values_run_containers, st.n_bytes_run_containers), ("\"},\"bitset_container\":{\"number_of_containers\":\"".spec_bytes()), decimal_digits(st.n_bitset_containers as nat), "\",\"container_cardinality\":\"".spec_bytes());
    lemma_shows_append(text_kind("\",\"array_container\":{\"number_of_containers\":\"".spec_bytes(), "\",\"container_cardinality\":\"".spec_bytes(), "\",\"container_allocated_bytes\":\"".spec_bytes(), st.n_array_containers, st.n_values_array_containers, st.n_bytes_array_containers) + text_kind("\"},\"bitset_container\":{\"number_of_containers\":\"".spec_bytes(), "\",\"container_cardinality\":\"".spec_bytes(), "\",\"container_allocated_bytes\":\"".spec_bytes(), st.n_bitset_containers, st.n_values_bitset_containers, st.n_bytes_bitset_containers) + text_kind("\"},\"run_container\":{\"number_of_containers\":\"".spec_bytes(), "\",\"container_cardinality\":\"".spec_bytes(), "\",\"container_allocated_bytes\":\"".spec_bytes(), st.n_run_containers, st.n_values_run_containers, st.n_bytes_run_containers), "\"}}".spec_bytes(), ("\"},\"bitset_container\":{\"number_of_containers\":\"".spec_bytes()), decimal_digits(st.n_bitset_containers as nat), "\",\"container_cardinality\":\"".spec_bytes());
    lemma_shows_prepend("{\"type\":\"bitmap64\",\"cardinality\":\"".spec_bytes() + decimal_digits(st.cardinality as nat) + "\",\"number_of_containers\":\"".spec_bytes() + decimal_digits(st.n_containers as nat) + "\",\"max_value\":\"".spec_bytes() + optional_digits(st.max_value, "null".spec_bytes()) + "\",\"min_value\":\"".spec_bytes() + optional_digits(st.min_value, "null".spec_bytes()) + "\",\"serialized_bytes\":\"".spec_bytes() + decimal_digits(serialized as nat), json_breakdown(st), ("\"},\"bitset_container\":{\"number_of_containers\":\"".spec_bytes()), decimal_digits(st.n_bitset_containers as nat), "\",\"container_cardinality\":\"".spec_bytes());
}

proof fn lemma_json64_field_9(b: RoaringTreemap, st: BitmapStats)
    ensures
        shows(b.stat_json_spec(st), ("\"},\"bitset_container\":{\"number_of_containers\":\"".spec_bytes() + decimal_digits(st.n_bitset_containers as nat) + "\",\"container_cardinality\":\"".spec_bytes()), decimal_digits(st.n_values_bitset_containers as nat), "\",\"container_allocated_bytes\":\"".spec_bytes()),
{
    let serialized = (bitmap64_serialized_len(b) as usize);
    assert(b.stat_json_spec(st) == "{\"type\":\"bitmap64\",\"cardinality\":\"".spec_bytes() + decimal_digits(st.cardinality as nat) + "\",\"number_of_containers\":\"".spec_bytes() + decimal_digits(st.n_containers as nat) + "\",\"max_value\":\"".spec_bytes() + optional_digits(st.max_value, "null".spec_bytes()) + "\",\"min_value\":\"".spec_bytes() + optional_digits(st.min_value, "null".spec_bytes()) + "\",\"serialized_bytes\":\"".spec_bytes() + decimal_digits(serialized as nat) + json_breakdown(st));
    assert("\"},\"bitset_container\":{\"number_of_containers\":\"".spec_bytes() + decimal_digits(st.n_bitset_containers as nat) + "\",\"container_cardinality\":\"".spec_bytes() + decimal_digits(st.n_values_bitset_containers as nat) + "\",\"container_allocated_bytes\":\"".spec_bytes() =~= (Seq::<u8>::empty()) + ("\"},\"bitset_container\":{\"number_of_containers\":\"".spec_bytes() + decimal_digits(st.n_bitset_containers as nat) + "\",\"container_cardinality\":\"".spec_bytes()) + decimal_digits(st.n_values_bitset_containers as nat) + "\",\"container_allocated_bytes\":\"".spec_bytes() + Seq::<u8>::empty());
    lemma_shows_append("\"},\"bitset_container\":{\"number_of_containers\":\"".spec_bytes() + decimal_digits(st.n_bitset_containers as nat) + "\",\"container_cardinality\":\"".spec_bytes() + decimal_digits(st.n_values_bitset_containers as nat) + "\",\"container_allocated_bytes\":\"".spec_bytes(), decimal_digits(st.n_bytes_bitset_containers as nat), ("\"},\"bitset_container\":{\"number_of_containers\":\"".spec_bytes() + decimal_digits(st.n_bitset_containers as nat) + "\",\"container_cardinality\":\"".spec_bytes()), decimal_digits(st.n_values_bitset_containers as nat), "\",\"container_allocated_bytes\":\"".spec_bytes());
    lemma_shows_prepend(text_kind("\",\"array_container\":{\"number_of_containers\":\"".spec_bytes(), "\",\"container_cardinality\":\"".spec_bytes(), "\",\"container_allocated_bytes\":\"".spec_bytes(), st.n_array_containers, st.n_values_array_containers, st.n_bytes_array_containers), text_kind("\"},\"bitset_container\":{\"number_of_containers\":\"".spec_bytes(), "\",\"container_cardinality\":\"".spec_bytes(), "\",\"container_allocated_bytes\":\"".spec_bytes(), st.n_bitset_containers, st.n_values_bitset_containers, st.n_bytes_bitset_containers), ("\"},\"bitset_container\":{\"number_of_containers\":\"".spec_bytes() + decimal_digits(st.n_bitset_containers as nat) + "\",\"container_cardinality\":\"".spec_bytes()), decimal_digits(st.n_values_bitset_containers as nat), "\",\"container_allocated_bytes\":\"".spec_bytes());
    lemma_shows_append(text_kind("\",\"array_container\":{\"number_of_containers\":\"".spec_bytes(), "\",\"container_cardinality\":\"".spec_bytes(), "\",\"container_allocated_bytes\":\"".spec_bytes(), st.n_array_containers, st.n_values_array_containers, st.n_bytes_array_containers) + text_kind("\"},\"bitset_container\":{\"number_of_containers\":\"".spec_bytes(), "\",\"container_cardinality\":\"".spec_bytes(), "\",\"container_allocated_bytes\":\"".spec_bytes(), st.n_bitset_containers, st.n_values_bitset_containers, st.n_bytes_bitset_containers), text_kind("\"},\"run_container\":{\"number_of_containers\":\"".spec_bytes(), "\",\"container_cardinality\":\"".spec_bytes(), "\",\"container_allocated_bytes\":\"".spec_bytes(), st.n_run_containers, st.n_values_run_containers, st.n_bytes_run_containers), ("\"},\"bitset_container\":{\"number_of_containers\":\"".spec_bytes() + decimal_digits(st.n_bitset_containers as nat) + "\",\"container_cardinality\":\"".spec_bytes()), decimal_digits(st.n_values_bitset_containers as nat), "\",\"container_allocated_bytes\":\"".spec_bytes());
    lemma_shows_append(text_kind("\",\"array_container\":{\"number_of_containers\":\"".spec_bytes(), "\",\"container_cardinality\":\"".spec_bytes(), "\",\"container_allocated_bytes\":\"".spec_bytes(), st.n_array_containers, st.n_values_array_containers, st.n_bytes_array_containers) + text_kind("\"},\"bitset_container\":{\"number_of_containers\":\"".spec_bytes(), "\",\"container_cardinality\":\"".spec_bytes(), "\",\"container_allocated_bytes\":\"".spec_bytes(), st.n_bitset_containers, st.n_values_bitset_containers, st.n_bytes_bitset_containers) + text_kind("\"},\"run_container\":{\"number_of_containers\":\"".spec_bytes(), "\",\"container_cardinality\":\"".spec_bytes(), "\",\"container_allocated_bytes\":\"".spec_bytes(), st.n_run_containers, st.n_values_run_containers, st.n_bytes_run_containers), "\"}}".spec_bytes(), ("\"},\"bitset_container\":{\"number_of_containers\":\"".spec_bytes() + decimal_digits(st.n_bitset_containers as nat) + "\",\"container_cardinality\":\"".spec_bytes()), decimal_digits(st.n_values_bitset_containers as nat), "\",\"container_allocated_bytes\":\"".spec_bytes());
    lemma_shows_prepend("{\"type\":\"bitmap64\",\"cardinality\":\"".spec_bytes() + decimal_digits(st.cardinality as nat) + "\",\"number_of_containers\":\"".spec_bytes() + decimal_digits(st.n_containers as nat) + "\",\"max_value\":\"".spec_bytes() + optional_digits(st.max_value, "null".spec_bytes()) + "\",\"min_value\":\"".spec_bytes() + optional_digits(st.min_value, "null".spec_bytes()) + "\",\"serialized_bytes\":\"".spec_bytes() + decimal_digits(serialized as nat), json_breakdown(st), ("\"},\"bitset_container\":{\"number_of_containers\":\"".spec_bytes() + decimal_digits(st.n_bitset_containers as nat) + "\",\"container_cardinality\":\"".spec_bytes()), decimal_digits(st.n_values_bitset_containers as nat), "\",\"container_allocated_bytes\":\"".spec_bytes());
}

proof fn lemma_json64_field_10(b: RoaringTreemap, st: BitmapStats)
    ensures
        shows(b.stat_json_spec(st), ("\"},\"bitset_container\":{\"number_of_containers\":\"".spec_bytes() + decimal_digits(st.n_bitset_containers as nat) + "\",\"container_cardinality\":\"".spec_bytes() + decimal_digits(st.n_values_bitset_containers as nat) + "\",\"container_allocated_bytes\":\"".spec_bytes()), decimal_digits(st.n_bytes_bitset_containers as nat), "\"},\"run_container\":{\"number_of_containers\":\"".spec_bytes()),
{
    let serialized = (bitmap64_serialized_len(b) as usize);
    assert(b.stat_json_spec(st) == "{\"type\":\"bitmap64\",\"cardinality\":\"".spec_bytes() + decimal_digits(st.cardinality as nat) + "\",\"number_of_containers\":\"".spec_bytes() + decimal_digits(st.n_containers as nat) + "\",\"max_value\":\"".spec_bytes() + optional_digits(st.max_value, "null".spec_bytes()) + "\",\"min_value\":\"".spec_bytes() + optional_digits(st.min_value, "null".spec_bytes()) + "\",\"serialized_bytes\":\"".spec_bytes() + decimal_digits(serialized as nat) + json_breakdown(st));
    assert("\"},\"bitset_container\":{\"number_of_containers\":\"".spec_bytes() + decimal_digits(st.n_bitset_containers as nat) + "\",\"container_cardinality\":\"".spec_bytes() + decimal_digits(st.n_values_bitset_containers as nat) + "\",\"container_allocated_bytes\":\"".spec_bytes() + decimal_digits(st.n_bytes_bitset_containers as nat) =~= (Seq::<u8>::empty()) + ("\"},\"bitset_container\":{\"number_of_containers\":\"".spec_bytes() + decimal_digits(st.n_bitset_containers as nat) + "\",\"container_cardinality\":\"".spec_bytes() + decimal_digits(st.n_values_bitset_containers as nat) + "\",\"container_allocated_bytes\":\"".spec_bytes()) + decimal_digits(st.n_bytes_bitset_containers as nat));
    lemma_ends_prepend(text_kind("\",\"array_container\":{\"number_of_containers\":\"".spec_bytes(), "\",\"container_cardinality\":\"".spec_bytes(), "\",\"container_allocated_bytes\":\"".spec_bytes(), st.n_array_containers, st.n_values_array_containers, st.n_bytes_array_containers), text_kind("\"},\"bitset_container\":{\"number_of_containers\":\"".spec_bytes(), "\",\"container_cardinality\":\"".spec_bytes(), "\",\"container_allocated_bytes\":\"".spec_bytes(), st.n_bitset_containers, st.n_values_bitset_containers, st.n_bytes_bitset_containers), ("\"},\"bitset_container\":{\"number_of_containers\":\"".spec_bytes() + decimal_digits(st.n_bitset_containers as nat) + "\",\"container_cardinality\":\"".spec_bytes() + decimal_digits(st.n_values_bitset_containers as nat) + "\",\"container_allocated_bytes\":\"".spec_bytes()), decimal_digits(st.n_bytes_bitset_containers as nat));
    assert("\"},\"run_container\":{\"number_of_containers\":\"".spec_bytes() =~= "\"},\"run_container\":{\"number_of_containers\":\"".spec_bytes() + Seq::<u8>::empty());
    lemma_starts_append("\"},\"run_container\":{\"number_of_containers\":\"".spec_bytes(), decimal_digits(st.n_run_containers as nat), "\"},\"run_container\":{\"number_of_containers\":\"".spec_bytes());
    lemma_starts_append("\"},\"run_container\":{\"number_of_containers\":\"".spec_bytes() + decimal_digits(st.n_run_containers as nat), "\",\"container_cardinality\":\"".spec_bytes(), "\"},\"run_container\":{\"number_of_containers\":\"".spec_bytes());
    lemma_starts_append("\"},\"run_container\":{\"number_of_containers\":\"".spec_bytes() + decimal_digits(st.n_run_containers as nat) + "\",\"container_cardinality\":\"".spec_bytes(), decimal_digits(st.n_values_run_containers as nat), "\"},\"run_container\":{\"number_of_containers\":\"".spec_bytes());
    lemma_starts_append("\"},\"run_container\":{\"number_of_containers\":\"".spec_bytes() + decimal_digits(st.n_run_containers as nat) + "\",\"container_cardinality\":\"".spec_bytes() + decimal_digits(st.n_values_run_containers as nat), "\",\"container_allocated_bytes\":\"".spec_bytes(), "\"},\"run_container\":{\"number_of_containers\":\"".spec_bytes());
    lemma_starts_append("\"},\"run_container\":{\"number_of_containers\":\"".spec_bytes() + decimal_digits(st.n_run_containers as nat) + "\",\"container_cardinality\":\"".spec_bytes() + decimal_digits(st.n_values_run_containers as nat) + "\",\"container_allocated_bytes\":\"".spec_bytes(), decimal_digits(st.n_bytes_run_containers as nat), "\"},\"run_container\":{\"number_of_containers\":\"".spec_bytes());
    lemma_shows_across(text_kind("\",\"array_container\":{\"number_of_containers\":\"".spec_bytes(), "\",\"container_cardinality\":\"".spec_bytes(), "\",\"container_allocated_bytes\":\"".spec_bytes(), st.n_array_containers, st.n_values_array_containers, st.n_bytes_array_containers) + text_kind("\"},\"bitset_container\":{\"number_of_containers\":\"".spec_bytes(), "\",\"container_cardinality\":\"".spec_bytes(), "\",\"container_allocated_bytes\":\"".spec_bytes(), st.n_bitset_containers, st.n_values_bitset_containers, st.n_bytes_bitset_containers), text_kind("\"},\"run_container\":{\"number_of_containers\":\"".spec_bytes(), "\",\"container_cardinality\":\"".spec_bytes(), "\",\"container_allocated_bytes\":\"".spec_bytes(), st.n_run_containers, st.n_values_run_containers, st.n_bytes_run_containers), ("\"},\"bitset_container\":{\"number_of_containers\":\"".spec_bytes() + decimal_digits(st.n_bitset_containers as nat) + "\",\"container_cardinality\":\"".spec_bytes() + decimal_digits(st.n_values_bitset_containers as nat) + "\",\"container_allocated_bytes\":\"".spec_bytes()), decimal_digits(st.n_bytes_bitset_containers as nat), "\"},\"run_container\":{\"number_of_containers\":\"".spec_bytes());
    lemma_shows_append(text_kind("\",\"array_container\":{\"number_of_containers\":\"".spec_bytes(), "\",\"container_cardinality\":\"".spec_bytes(), "\",\"container_allocated_bytes\":\"".spec_bytes(), st.n_array_containers, st.n_values_array_containers, st.n_bytes_array_containers) + text_kind("\"},\"bitset_container\":{\"number_of_containers\":\"".spec_bytes(), "\",\"container_cardinality\":\"".spec_bytes(), "\",\"container_allocated_bytes\":\"".spec_bytes(), st.n_bitset_containers, st.n_values_bitset_containers, st.n_bytes_bitset_containers) + text_kind("\"},\"run_container\":{\"number_of_containers\":\"".spec_bytes(), "\",\"container_cardinality\":\"".spec_bytes(), "\",\"container_allocated_bytes\":\"".spec_bytes(), st.n_run_containers, st.n_values_run_containers, st.n_bytes_run_containers), "\"}}".spec_bytes(), ("\"},\"bitset_container\":{\"number_of_containers\":\"".spec_bytes() + decimal_digits(st.n_bitset_containers as nat) + "\",\"container_cardinality\":\"".spec_bytes() + decimal_digits(st.n_values_bitset_containers as nat) + "\",\"container_allocated_bytes\":\"".spec_bytes()), decimal_digits(st.n_bytes_bitset_containers as nat), "\"},\"run_container\":{\"number_of_containers\":\"".spec_bytes());
    lemma_shows_prepend("{\"type\":\"bitmap64\",\"cardinality\":\"".spec_bytes() + decimal_digits(st.cardinality as nat) + "\",\"number_of_containers\":\"".spec_bytes() + decimal_digits(st.n_containers as nat) + "\",\"max_value\":\"".spec_bytes() + optional_digits(st.max_value, "null".spec_bytes()) + "\",\"min_value\":\"".spec_bytes() + optional_digits(st.min_value, "null".spec_bytes()) + "\",\"serialized_bytes\":\"".spec_bytes() + decimal_digits(serialized as nat), json_breakdown(st), ("\"},\"bitset_container\":{\"number_of_containers\":\"".spec_bytes() + decimal_digits(st.n_bitset_containers as nat) + "\",\"container_cardinality\":\"".spec_bytes() + decimal_digits(st.n_values_bitset_containers as nat) + "\",\"container_allocated_bytes\":\"".spec_bytes()), decimal_digits(st.n_bytes_bitset_containers as nat), "\"},\"run_container\":{\"number_of_containers\":\"".spec_bytes());
}

proof fn lemma_json64_field_11(b: RoaringTreemap, st: BitmapStats)
    ensures
        shows(b.stat_json_spec(st), ("\"},\"run_container\":{\"number_of_containers\":\"".spec_bytes()), decimal_digits(st.n_run_containers as nat), "\",\"container_cardinality\":\"".spec_bytes()),
{
    let serialized = (bitmap64_serialized_len(b) as usize);
    assert(b.stat_json_spec(st) == "{\"type\":\"bitmap64\",\"cardinality\":\"".spec_bytes() + decimal_digits(st.cardinality as nat) + "\",\"number_of_containers\":\"".spec_bytes() + decimal_digits(st.n_containers as nat) + "\",\"max_value\":\"".spec_bytes() + optional_digits(st.max_value, "null".spec_bytes()) + "\",\"min_value\":\"".spec_bytes() + optional_digits(st.min_value, "null".spec_bytes()) + "\",\"serialized_bytes\":\"".spec_bytes() + decimal_digits(serialized as nat) + json_breakdown(st));
    assert("\"},\"run_container\":{\"number_of_containers\":\"".spec_bytes() + decimal_digits(st.n_run_containers as nat) + "\",\"container_cardinality\":\"".spec_bytes() =~= (Seq::<u8>::empty()) + ("\"},\"run_container\":{\"number_of_containers\":\"".spec_bytes()) + decimal_digits(st.n_run_containers as nat) + "\",\"container_cardinality\":\"".spec_bytes() + Seq::<u8>::empty());
    lemma_shows_append("\"},\"run_container\":{\"number_of_containers\":\"".spec_bytes() + decimal_digits(st.n_run_containers as nat) + "\",\"container_cardinality\":\"".spec_bytes(), decimal_digits(st.n_values_run_containers as nat), ("\"},\"run_container\":{\"number_of_containers\":\"".spec_bytes()), decimal_digits(st.n_run_containers as nat), "\",\"container_cardinality\":\"".spec_bytes());
    lemma_shows_append("\"},\"run_container\":{\"number_of_containers\":\"".spec_bytes() + decimal_digits(st.n_run_containers as nat) + "\",\"container_cardinality\":\"".spec_bytes() + decimal_digits(st.n_values_run_containers as nat), "\",\"container_allocated_bytes\":\"".spec_bytes(), ("\"},\"run_container\":{\"number_of_containers\":\"".spec_bytes()), decimal_digits(st.n_run_containers as nat), "\",\"container_cardinality\":\"".spec_bytes());
    lemma_shows_append("\"},\"run_container\":{\"number_of_containers\":\"".spec_bytes() + decimal_digits(st.n_run_containers as nat) + "\",\"container_cardinality\":\"".spec_bytes() + decimal_digits(st.n_values_run_containers as nat) + "\",\"container_allocated_bytes\":\"".spec_bytes(), decimal_digits(st.n_bytes_run_containers as nat), ("\"},\"run_container\":{\"number_of_containers\":\"".spec_bytes()), decimal_digits(st.n_run_containers as nat), "\",\"container_cardinality\":\"".spec_bytes());
    lemma_shows_prepend(text_kind("\",\"array_container\":{\"number_of_containers\":\"".spec_bytes(), "\",\"container_cardinality\":\"".spec_bytes(), "\",\"container_allocated_bytes\":\"".spec_bytes(), st.n_array_containers, st.n_values_array_containers, st.n_bytes_array_containers) + text_kind("\"},\"bitset_container\":{\"number_of_containers\":\"".spec_bytes(), "\",\"container_cardinality\":\"".spec_bytes(), "\",\"container_allocated_bytes\":\"".spec_bytes(), st.n_bitset_containers, st.n_values_bitset_containers, st.n_bytes_bitset_containers), text_kind("\"},\"run_container\":{\"number_of_containers\":\"".spec_bytes(), "\",\"container_cardinality\":\"".spec_bytes(), "\",\"container_allocated_bytes\":\"".spec_bytes(), st.n_run_containers, st.n_values_run_containers, st.n_bytes_run_containers), ("\"},\"run_container\":{\"number_of_containers\":\"".spec_bytes()), decimal_digits(st.n_run_containers as nat), "\",\"container_cardinality\":\"".spec_bytes());
    lemma_shows_append(text_kind("\",\"array_container\":{\"number_of_containers\":\"".spec_bytes(), "\",\"container_cardinality\":\"".spec_bytes(), "\",\"container_allocated_bytes\":\"".spec_bytes(), st.n_array_containers, st.n_values_array_containers, st.n_bytes_array_containers) + text_kind("\"},\"bitset_container\":{\"number_of_containers\":\"".spec_bytes(), "\",\"container_cardinality\":\"".spec_bytes(), "\",\"container_allocated_bytes\":\"".spec_bytes(), st.n_bitset_containers, st.n_values_bitset_containers, st.n_bytes_bitset_containers) + text_kind("\"},\"run_container\":{\"number_of_containers\":\"".spec_bytes(), "\",\"container_cardinality\":\"".spec_bytes(), "\",\"container_allocated_bytes\":\"".spec_bytes(), st.n_run_containers, st.n_values_run_containers, st.n_bytes_run_containers), "\"}}".spec_bytes(), ("\"},\"run_container\":{\"number_of_containers\":\"".spec_bytes()), decimal_digits(st.n_run_containers as nat), "\",\"container_cardinality\":\"".spec_bytes());
    lemma_shows_prepend("{\"type\":\"bitmap64\",\"cardinality\":\"".spec_bytes() + decimal_digits(st.cardinality as nat) + "\",\"number_of_containers\":\"".spec_bytes() + decimal_digits(st.n_containers as nat) + "\",\"max_value\":\"".spec_bytes() + optional_digits(st.max_value, "null".spec_bytes()) + "\",\"min_value\":\"".spec_bytes() + optional_digits(st.min_value, "null".spec_bytes()) + "\",\"serialized_bytes\":\"".spec_bytes() + decimal_digits(serialized as nat), json_breakdown(st), ("\"},\"run_container\":{\"number_of_containers\":\"".spec_bytes()), decimal_digits(st.n_run_containers as nat), "\",\"container_cardinality\":\"".spec_bytes());
}

proof fn lemma_json64_field_12(b: RoaringTreemap, st: BitmapStats)
    ensures
        shows(b.stat_json_spec(st), ("\"},\"run_container\":{\"number_of_containers\":\"".spec_bytes() + decimal_digits(st.n_run_containers as nat) + "\",\"container_cardinality\":\"".spec_bytes()), decimal_digits(st.n_values_run_containers as nat), "\",\"container_allocated_bytes\":\"".spec_bytes()),
{
    let serialized = (bitmap64_serialized_len(b) as usize);
    assert(b.stat_json_spec(st) == "{\"type\":\"bitmap64\",\"cardinality\":\"".spec_bytes() + decimal_digits(st.cardinality as nat) + "\",\"number_of_containers\":\"".spec_bytes() + decimal_digits(st.n_containers as nat) + "\",\"max_value\":\"".spec_bytes() + optional_digits(st.max_value, "null".spec_bytes()) + "\",\"min_value\":\"".spec_bytes() + optional_digits(st.min_value, "null".spec_bytes()) + "\",\"serialized_bytes\":\"".spec_bytes() + decimal_digits(serialized as nat) + json_breakdown(st));
    assert("\"},\"run_container\":{\"number_of_containers\":\"".spec_bytes() + decimal_digits(st.n_run_containers as nat) + "\",\"container_cardinality\":\"".spec_bytes() + decimal_digits(st.n_values_run_containers as nat) + "\",\"container_allocated_bytes\":\"".spec_bytes() =~= (Seq::<u8>::empty()) + ("\"},\"run_container\":{\"number_of_containers\":\"".spec_bytes() + decimal_digits(st.n_run_containers as nat) + "\",\"container_cardinality\":\"".spec_bytes()) + decimal_digits(st.n_values_run_containers as nat) + "\",\"container_allocated_bytes\":\"".spec_bytes() + Seq::<u8>::empty());
    lemma_shows_append("\"},\"run_container\":{\"number_of_containers\":\"".spec_bytes() + decimal_digits(st.n_run_containers as nat) + "\",\"container_cardinality\":\"".spec_bytes() + decimal_digits(st.n_values_run_containers as nat) + "\",\"container_allocated_bytes\":\"".spec_bytes(), decimal_digits(st.n_bytes_run_containers as nat), ("\"},\"run_container\":{\"number_of_containers\":\"".spec_bytes() + decimal_digits(st.n_run_containers as nat) + "\",\"container_cardinality\":\"".spec_bytes()), decimal_digits(st.n_values_run_containers as nat), "\",\"container_allocated_bytes\":\"".spec_bytes());
    lemma_shows_prepend(text_kind("\",\"array_container\":{\"number_of_containers\":\"".spec_bytes(), "\",\"container_cardinality\":\"".spec_bytes(), "\",\"container_allocated_bytes\":\"".spec_bytes(), st.n_array_containers, st.n_values_array_containers, st.n_bytes_array_containers) + text_kind("\"},\"bitset_container\":{\"number_of_containers\":\"".spec_bytes(), "\",\"container_cardinality\":\"".spec_bytes(), "\",\"container_allocated_bytes\":\"".spec_bytes(), st.n_bitset_containers, st.n_values_bitset_containers, st.n_bytes_bitset_containers), text_kind("\"},\"run_container\":{\"number_of_containers\":\"".spec_bytes(), "\",\"container_cardinality\":\"".spec_bytes(), "\",\"container_allocated_bytes\":\"".spec_bytes(), st.n_run_containers, st.n_values_run_containers, st.n_bytes_run_containers), ("\"},\"run_container\":{\"number_of_containers\":\"".spec_bytes() + decimal_digits(st.n_run_containers as nat) + "\",\"container_cardinality\":\"".spec_bytes()), decimal_digits(st.n_values_run_containers as nat), "\",\"container_allocated_bytes\":\"".spec_bytes());
    lemma_shows_append(text_kind("\",\"array_container\":{\"number_of_containers\":\"".spec_bytes(), "\",\"container_cardinality\":\"".spec_bytes(), "\",\"container_allocated_bytes\":\"".spec_bytes(), st.n_array_containers, st.n_values_array_containers, st.n_bytes_array_containers) + text_kind("\"},\"bitset_container\":{\"number_of_containers\":\"".spec_bytes(), "\",\"container_cardinality\":\"".spec_bytes(), "\",\"container_allocated_bytes\":\"".spec_bytes(), st.n_bitset_containers, st.n_values_bitset_containers, st.n_bytes_bitset_containers) + text_kind("\"},\"run_container\":{\"number_of_containers\":\"".spec_bytes(), "\",\"container_cardinality\":\"".spec_bytes(), "\",\"container_allocated_bytes\":\"".spec_bytes(), st.n_run_containers, st.n_values_run_containers, st.n_bytes_run_containers), "\"}}".spec_bytes(), ("\"},\"run_container\":{\"number_of_containers\":\"".spec_bytes() + decimal_digits(st.n_run_containers as nat) + "\",\"container_cardinality\":\"".spec_bytes()), decimal_digits(st.n_values_run_containers as nat), "\",\"container_allocated_bytes\":\"".spec_bytes());
    lemma_shows_prepend("{\"type\":\"bitmap64\",\"cardinality\":\"".spec_bytes() + decimal_digits(st.cardinality as nat) + "\",\"number_of_containers\":\"".spec_bytes() + decimal_digits(st.n_containers as nat) + "\",\"max_value\":\"".spec_bytes() + optional_digits(st.max_value, "null".spec_bytes()) + "\",\"min_value\":\"".spec_bytes() + optional_digits(st.min_value, "null".spec_bytes()) + "\",\"serialized_bytes\":\"".spec_bytes() + decimal_digits(serialized as nat), json_breakdown(st), ("\"},\"run_container\":{\"number_of_containers\":\"".spec_bytes() + decimal_digits(st.n_run_containers as nat) + "\",\"container_cardinality\":\"".spec_bytes()), decimal_digits(st.n_values_run_containers as nat), "\",\"container_allocated_bytes\":\"".spec_bytes());
}

proof fn lemma_json64_field_13(b: RoaringTreemap, st: BitmapStats)
    ensures
        shows(b.stat_json_spec(st), ("\"},\"run_container\":{\"number_of_containers\":\"".spec_bytes() + decimal_digits(st.n_run_containers as nat) + "\",\"container_cardinality\":\"".spec_bytes() + decimal_digits(st.n_values_run_containers as nat) + "\",\"container_allocated_bytes\":\"".spec_bytes()), decimal_digits(st.n_bytes_run_containers as nat), "\"}}".spec_bytes()),
{
    let serialized = (bitmap64_serialized_len(b) as usize);
    assert(b.stat_json_spec(st) == "{\"type\":\"bitmap64\",\"cardinality\":\"".spec_bytes() + decimal_digits(st.cardinality as nat) + "\",\"number_of_containers\":\"".spec_bytes() + decimal_digits(st.n_containers as nat) + "\",\"max_value\":\"".spec_bytes() + optional_digits(st.max_value, "null".spec_bytes()) + "\",\"min_value\":\"".spec_bytes() + optional_digits(st.min_value, "null".spec_bytes()) + "\",\"serialized_bytes\":\"".spec_bytes() + decimal_digits(serialized as nat) + json_breakdown(st));
    assert("\"},\"run_container\":{\"number_of_containers\":\"".spec_bytes() + decimal_digits(st.n_run_containers as nat) + "\",\"container_cardinality\":\"".spec_bytes() + decimal_digits(st.n_values_run_containers as nat) + "\",\"container_allocated_bytes\":\"".spec_bytes() + decimal_digits(st.n_bytes_run_containers as nat) =~= (Seq::<u8>::empty()) + ("\"},\"run_container\":{\"number_of_containers\":\"".spec_bytes() + decimal_digits(st.n_run_containers as nat) + "\",\"container_cardinality\":\"".spec_bytes() + decimal_digits(st.n_values_run_containers as nat) + "\",\"container_allocated_bytes\":\"".spec_bytes()) + decimal_digits(st.n_bytes_run_containers as nat));
    lemma_ends_prepend(text_kind("\",\"array_container\":{\"number_of_containers\":\"".spec_bytes(), "\",\"container_cardinality\":\"".spec_bytes(), "\",\"container_allocated_bytes\":\"".spec_bytes(), st.n_array_containers, st.n_values_array_containers, st.n_bytes_array_containers) + text_kind("\"},\"bitset_container\":{\"number_of_containers\":\"".spec_bytes(), "\",\"container_cardinality\":\"".spec_bytes(), "\",\"container_allocated_bytes\":\"".spec_bytes(), st.n_bitset_containers, st.n_values_bitset_containers, st.n_bytes_bitset_containers), text_kind("\"},\"run_container\":{\"number_of_containers\":\"".spec_bytes(), "\",\"container_cardinality\":\"".spec_bytes(), "\",\"container_allocated_bytes\":\"".spec_bytes(), st.n_run_containers, st.n_values_run_containers, st.n_bytes_run_containers), ("\"},\"run_container\":{\"number_of_containers\":\"".spec_bytes() + decimal_digits(st.n_run_containers as nat) + "\",\"container_cardinality\":\"".spec_bytes() + decimal_digits(st.n_values_run_containers as nat) + "\",\"container_allocated_bytes\":\"".spec_bytes()), decimal_digits(st.n_bytes_run_containers as nat));
    assert("\"}}".spec_bytes() =~= "\"}}".spec_bytes() + Seq::<u8>::empty());
    lemma_shows_across(text_kind("\",\"array_container\":{\"number_of_containers\":\"".spec_bytes(), "\",\"container_cardinality\":\"".spec_bytes(), "\",\"container_allocated_bytes\":\"".spec_bytes(), st.n_array_containers, st.n_values_array_containers, st.n_bytes_array_containers) + text_kind("\"},\"bitset_container\":{\"number_of_containers\":\"".spec_bytes(), "\",\"container_cardinality\":\"".spec_bytes(), "\",\"container_allocated_bytes\":\"".spec_bytes(), st.n_bitset_containers, st.n_values_bitset_containers, st.n_bytes_bitset_containers) + text_kind("\"},\"run_container\":{\"number_of_containers\":\"".spec_bytes(), "\",\"container_cardinality\":\"".spec_bytes(), "\",\"container_allocated_bytes\":\"".spec_bytes(), st.n_run_containers, st.n_values_run_containers, st.n_bytes_run_containers), "\"}}".spec_bytes(), ("\"},\"run_container\":{\"number_of_containers\":\"".spec_bytes() + decimal_digits(st.n_run_containers as nat) + "\",\"container_cardinality\":\"".spec_bytes() + decimal_digits(st.n_values_run_containers as nat) + "\",\"container_allocated_bytes\":\"".spec_bytes()), decimal_digits(st.n_bytes_run_containers as nat), "\"}}".spec_bytes());
    lemma_shows_prepend("{\"type\":\"bitmap64\",\"cardinality\":\"".spec_bytes() + decimal_digits(st.cardinality as nat) + "\",\"number_of_containers\":\"".spec_bytes() + decimal_digits(st.n_containers as nat) + "\",\"max_value\":\"".spec_bytes() + optional_digits(st.max_value, "null".spec_bytes()) + "\",\"min_value\":\"".spec_bytes() + optional_digits(st.min_value, "null".spec_bytes()) + "\",\"serialized_bytes\":\"".spec_bytes() + decimal_digits(serialized as nat), json_breakdown(st), ("\"},\"run_container\":{\"number_of_containers\":\"".spec_bytes() + decimal_digits(st.n_run_containers as nat) + "\",\"container_cardinality\":\"".spec_bytes() + decimal_digits(st.n_values_run_containers as nat) + "\",\"container_allocated_bytes\":\"".spec_bytes()), decimal_digits(st.n_bytes_run_containers as nat), "\"}}".spec_bytes());
}

/// The `R.STAT` JSON of a 64-bit bitmap, read label by label: the
/// cardinality and the extremes are those of the bitmap, and every
/// container figure of its statistics stands under its own label.
pub proof fn stat_json64_reads_back(b: RoaringTreemap, st: BitmapStats)
    requires
        b.stats_fit(st),
    ensures
        shows(b.stat_json_spec(st), ("{\"type\":\"bitmap64\",\"cardinality\":\"".spec_bytes()), decimal_digits(b.view_set().len()), "\",\"number_of_containers\":\"".spec_bytes()),
        shows(b.stat_json_spec(st), ("\",\"number_of_containers\":\"".spec_bytes()), decimal_digits(st.n_containers as nat), "\",\"max_value\":\"".spec_bytes()),
        forall|g: u64| is_greatest(value_of::<RoaringTreemap>(), b.view_set(), g) ==> shows(b.stat_json_spec(st), ("\",\"max_value\":\"".spec_bytes()), decimal_digits(g as nat), "\",\"min_value\":\"".spec_bytes()),
        b.view_set() == Set::<u64>::empty() ==> shows(b.stat_json_spec(st), ("\",\"max_value\":\"".spec_bytes()), "null".spec_bytes(), "\",\"min_value\":\"".spec_bytes()),
        forall|g: u64| is_least(value_of::<RoaringTreemap>(), b.view_set(), g) ==> shows(b.stat_json_spec(st), ("\",\"min_value\":\"".spec_bytes()), decimal_digits(g as nat), "\",\"serialized_bytes\":\"".spec_bytes()),
        b.view_set() == Set::<u64>::empty() ==> shows(b.stat_json_spec(st), ("\",\"min_value\":\"".spec_bytes()), "null".spec_bytes(), "\",\"serialized_bytes\":\"".spec_bytes()),
        shows(b.stat_json_spec(st), ("\",\"serialized_bytes\":\"".spec_bytes()), decimal_digits((bitmap64_serialized_len(b) as usize) as nat), "\",\"array_container\":{\"number_of_containers\":\"".spec_bytes()),
        shows(b.stat_json_spec(st), ("\",\"array_container\":{\"number_of_containers\":\"".spec_bytes()), decimal_digits(st.n_array_containers as nat), "\",\"container_cardinality\":\"".spec_bytes()),
        shows(b.stat_json_spec(st), ("\",\"array_container\":{\"number_of_containers\":\"".spec_bytes() + decimal_digits(st.n_array_containers as nat) + "\",\"container_cardinality\":\"".spec_bytes()), decimal_digits(st.n_values_array_containers as nat), "\",\"container_allocated_bytes\":\"".spec_bytes()),
        shows(b.stat_json_spec(st), ("\",\"array_container\":{\"number_of_containers\":\"".spec_bytes() + decimal_digits(st.n_array_containers as nat) + "\",\"container_cardinality\":\"".spec_bytes() + decimal_digits(st.n_values_array_containers as nat) + "\",\"container_allocated_bytes\":\"".spec_bytes()), decimal_digits(st.n_bytes_array_containers as nat), "\"},\"bitset_container\":{\"number_of_containers\":\"".spec_bytes()),
        shows(b.stat_json_spec(st), ("\"},\"bitset_container\":{\"number_of_containers\":\"".spec_bytes()), decimal_digits(st.n_bitset_containers as nat), "\",\"container_cardinality\":\"".spec_bytes()),
        shows(b.stat_json_spec(st), ("\"},\"bitset_container\":{\"number_of_containers\":\"".spec_bytes() + decimal_digits(st.n_bitset_containers as nat) + "\",\"container_cardinality\":\"".spec_bytes()), decimal_digits(st.n_values_bitset_containers as nat), "\",\"container_allocated_bytes\":\"".spec_bytes()),
        shows(b.stat_json_spec(st), ("\"},\"bitset_container\":{\"number_of_containers\":\"".spec_bytes() + decimal_digits(st.n_bitset_containers as nat) + "\",\"container_cardinality\":\"".spec_bytes() + decimal_digits(st.n_values_bitset_containers as nat) + "\",\"container_allocated_bytes\":\"".spec_bytes()), decimal_digits(st.n_bytes_bitset_containers as nat), "\"},\"run_container\":{\"number_of_containers\":\"".spec_bytes()),
        shows(b.stat_json_spec(st), ("\"},\"run_container\":{\"number_of_containers\":\"".spec_bytes()), decimal_digits(st.n_run_containers as nat), "\",\"container_cardinality\":\"".spec_bytes()),
        shows(b.stat_json_spec(st), ("\"},\"run_container\":{\"number_of_containers\":\"".spec_bytes() + decimal_digits(st.n_run_containers as nat) + "\",\"container_cardinality\":\"".spec_bytes()), decimal_digits(st.n_values_run_containers as nat), "\",\"container_allocated_bytes\":\"".spec_bytes()),
        shows(b.stat_json_spec(st), ("\"},\"run_container\":{\"number_of_containers\":\"".spec_bytes() + decimal_digits(st.n_run_containers as nat) + "\",\"container_cardinality\":\"".spec_bytes() + decimal_digits(st.n_values_run_containers as nat) + "\",\"container_allocated_bytes\":\"".spec_bytes()), decimal_digits(st.n_bytes_run_containers as nat), "\"}}".spec_bytes()),
{
    assert(st.cardinality as nat == b.view_set().len());
    lemma_no_extremes_64(b, st);
    lemma_json64_field_0(b, st);
    lemma_json64_field_1(b, st);
    lemma_json64_field_2(b, st);
    assert forall|g: u64| is_greatest(value_of::<RoaringTreemap>(), b.view_set(), g) implies shows(b.stat_json_spec(st), ("\",\"max_value\":\"".spec_bytes()), decimal_digits(g as nat), "\",\"min_value\":\"".spec_bytes()) by {
        lemma_extreme_digits_64(b, st, g);
    }
    lemma_json64_field_3(b, st);
    assert forall|g: u64| is_least(value_of::<RoaringTreemap>(), b.view_set(), g) implies shows(b.stat_json_spec(st), ("\",\"min_value\":\"".spec_bytes()), decimal_digits(g as nat), "\",\"serialized_bytes\":\"".spec_bytes()) by {
        lemma_extreme_digits_64(b, st, g);
    }
    lemma_json64_field_4(b, st);
    lemma_json64_field_5(b, st);
    lemma_json64_field_6(b, st);
    lemma_json64_field_7(b, st);
    lemma_json64_field_8(b, st);
    lemma_json64_field_9(b, st);
    lemma_json64_field_10(b, st);
    lemma_json64_field_11(b, st);
    lemma_json64_field_12(b, st);
    lemma_json64_field_13(b, st);
}

} // verus!
