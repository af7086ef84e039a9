use roaring::{RoaringBitmap, RoaringTreemap};
use valkey_roaring::bitmap_type::RoaringType;
use valkey_roaring::commands::{
    bit_array, bitpos, bits_reply, check_range_end, clear, clearbits, clearbits_offsets,
    contains, countable, decimal_bytes, export_bytes, extreme_reply, import_merge, int_array,
    jaccard_counts, parse_contains_mode, parse_value, parse_values, range_positions, setbit,
    value_reply, values_reply, ContainsMode, Reply,
};
use valkey_roaring::error::{CommandError, MAX_RANGE_SIZE};
use valkey_roaring::parse::{parse_bool, parse_u32, parse_u64, parse_u64_bytes};
use valkey_roaring::test_util::xorshift;

fn bm(vals: &[u32]) -> RoaringBitmap {
    vals.iter().copied().collect()
}

fn bm64(vals: &[u64]) -> RoaringTreemap {
    vals.iter().copied().collect()
}

fn args(words: &[&str]) -> Vec<Vec<u8>> {
    words.iter().map(|w| w.as_bytes().to_vec()).collect()
}

fn message(e: &CommandError) -> String {
    String::from_utf8(e.message().unwrap()).unwrap()
}

#[test]
fn value_reply_integer_for_representable_values() {
    assert_eq!(value_reply::<RoaringBitmap>(0), Reply::Integer(0));
    assert_eq!(value_reply::<RoaringBitmap>(5), Reply::Integer(5));
    assert_eq!(
        value_reply::<RoaringBitmap>(u32::MAX),
        Reply::Integer(u32::MAX as i64)
    );
    assert_eq!(
        value_reply::<RoaringTreemap>(i64::MAX as u64),
        Reply::Integer(i64::MAX)
    );
}

#[test]
fn value_reply_string_above_i64_max() {
    // Values past i64::MAX are replied as decimal bulk strings.
    assert_eq!(
        value_reply::<RoaringTreemap>(i64::MAX as u64 + 1),
        Reply::BulkString(b"9223372036854775808".to_vec())
    );
    assert_eq!(
        value_reply::<RoaringTreemap>(u64::MAX),
        Reply::BulkString(b"18446744073709551615".to_vec())
    );
}

// ------------------------------------------------------------------
// Parsing.
// ------------------------------------------------------------------

#[test]
fn parse_u64_bytes_reads_decimal() {
    assert_eq!(parse_u64_bytes(b"0"), Some(0));
    assert_eq!(parse_u64_bytes(b"+42"), Some(42));
    assert_eq!(parse_u64_bytes(b"18446744073709551615"), Some(u64::MAX));
    assert_eq!(parse_u64_bytes(b"18446744073709551616"), None);
    assert_eq!(parse_u64_bytes(b""), None);
    assert_eq!(parse_u64_bytes(b"+"), None);
    assert_eq!(parse_u64_bytes(b"-1"), None);
    assert_eq!(parse_u64_bytes(b"1 "), None);
    assert_eq!(parse_u64_bytes(b"007"), Some(7));
}

#[test]
fn parse_value_errors_name_the_argument() {
    assert_eq!(parse_value::<RoaringBitmap>(b"4294967295", "offset"), Ok(u32::MAX));
    let e = parse_value::<RoaringBitmap>(b"4294967296", "offset").unwrap_err();
    assert_eq!(e, CommandError::OutOfRange { name: "offset".to_string() });
    assert_eq!(message(&e), "ERR invalid offset: value out of range");
    let e = parse_value::<RoaringTreemap>(b"abc", "value").unwrap_err();
    assert_eq!(e, CommandError::NotInteger { name: "value".to_string() });
    assert_eq!(message(&e), "ERR invalid value: must be a non-negative integer");
    assert_eq!(parse_value::<RoaringTreemap>(b"18446744073709551615", "v"), Ok(u64::MAX));
}

#[test]
fn parse_values_stops_at_first_bad_argument() {
    assert_eq!(
        parse_values::<RoaringBitmap>(&args(&["3", "1", "2"]), "value"),
        Ok(vec![3, 1, 2])
    );
    assert_eq!(
        parse_values::<RoaringBitmap>(&args(&["3", "x", "99999999999"]), "value"),
        Err(CommandError::NotInteger { name: "value".to_string() })
    );
}

#[test]
fn parse_u32_u64_bool_errors() {
    assert_eq!(parse_u32(b"7", "n"), Ok(7));
    let e = parse_u32(b"4294967296", "n").unwrap_err();
    assert_eq!(message(&e), "ERR invalid n: must be an unsigned 32 bit integer");
    assert_eq!(parse_u64(b"7", "n"), Ok(7));
    let e = parse_u64(b"-7", "n").unwrap_err();
    assert_eq!(message(&e), "ERR invalid n: must be an unsigned 64 bit integer");
    assert_eq!(parse_bool(b"0", "bit"), Ok(false));
    assert_eq!(parse_bool(b"1", "bit"), Ok(true));
    let e = parse_bool(b"2", "bit").unwrap_err();
    assert_eq!(e, CommandError::NotBool { name: "bit".to_string() });
    assert_eq!(message(&e), "ERR invalid bit: must be either 0 or 1");
    assert!(matches!(parse_bool(b"x", "bit"), Err(CommandError::NotU64 { .. })));
}

#[test]
fn error_messages_match_the_constants() {
    assert_eq!(CommandError::WrongArity.message(), None);
    assert_eq!(message(&CommandError::Syntax), "ERR syntax error");
    assert_eq!(message(&CommandError::KeyNotFound), "Roaring: key does not exist");
    assert_eq!(message(&CommandError::KeyExists), "Roaring: key already exist");
    assert_eq!(
        message(&CommandError::RangeTooLarge),
        "Roaring: range too large: maximum 100000000 elements"
    );
    assert_eq!(message(&CommandError::InvalidEnd), "ERR invalid end: must be >= start");
    assert_eq!(message(&CommandError::BadBinary), "ERR bad binary data for roaring");
    assert_eq!(
        message(&CommandError::InvalidMode { mode: b"NONE".to_vec() }),
        "ERR invalid mode argument: NONE"
    );
}

#[test]
fn decimal_bytes_writes_digits() {
    assert_eq!(decimal_bytes(0), b"0".to_vec());
    assert_eq!(decimal_bytes(10), b"10".to_vec());
    assert_eq!(decimal_bytes(u64::MAX), b"18446744073709551615".to_vec());
}

// ------------------------------------------------------------------
// Command logic.
// ------------------------------------------------------------------

#[test]
fn setbit_reports_previous_bit() {
    let mut b = RoaringBitmap::new();
    assert!(!setbit(&mut b, 42, true));
    assert!(setbit(&mut b, 42, true));
    assert!(setbit(&mut b, 42, false));
    assert!(!setbit(&mut b, 42, false));
    assert!(b.is_empty());
}

#[test]
fn bits_reply_per_offset() {
    let b = bm(&[1, 3]);
    assert_eq!(
        bits_reply(Some(&b), &[1, 2, 3]),
        vec![Reply::Integer(1), Reply::Integer(0), Reply::Integer(1)]
    );
    // A missing key replies an empty array, not a zero per offset.
    assert_eq!(bits_reply::<RoaringBitmap>(None, &[1, 2, 3]), Vec::<Reply>::new());
}

#[test]
fn clearbits_count_flag() {
    let (offsets, count) = clearbits_offsets::<RoaringBitmap>(&args(&["1", "2", "COUNT"])).unwrap();
    assert_eq!(offsets, vec![1, 2]);
    assert!(count);
    assert_eq!(
        clearbits_offsets::<RoaringBitmap>(&args(&["1", "count"])),
        Err(CommandError::NotInteger { name: "offset".to_string() })
    );
    let (offsets, count) = clearbits_offsets::<RoaringBitmap>(&args(&["COUNT"])).unwrap();
    assert!(offsets.is_empty() && count);

    let mut b = bm(&[1, 2, 5]);
    assert_eq!(clearbits(&mut b, &[1, 1, 9], true), Reply::Integer(1));
    assert_eq!(clearbits(&mut b, &[2], false), Reply::Okay);
    assert_eq!(b, bm(&[5]));
}

#[test]
fn clear_returns_previous_cardinality() {
    let mut b = bm(&[1, 2, 3]);
    assert_eq!(clear(&mut b), 3);
    assert!(b.is_empty());
    assert_eq!(clear(&mut b), 0);
}

#[test]
fn range_positions_paginates() {
    let mut b = RoaringBitmap::new();
    b.insert_range(1..101);
    let vals = range_positions(Some(&b), 49u32, 59u32).unwrap();
    assert_eq!(vals, (50..=60).collect::<Vec<u32>>());
    // Truncated at the cardinality.
    assert_eq!(range_positions(Some(&b), 98u32, 200u32).unwrap(), vec![99, 100]);
    assert_eq!(range_positions(Some(&b), 100u32, 200u32).unwrap(), Vec::<u32>::new());
    // Inverted window, missing key.
    assert_eq!(range_positions(Some(&b), 5u32, 4u32).unwrap(), Vec::<u32>::new());
    assert_eq!(range_positions::<RoaringBitmap>(None, 0, 4).unwrap(), Vec::<u32>::new());
    // Too wide a window is refused, even for a missing key.
    let last = MAX_RANGE_SIZE as u32;
    assert_eq!(
        range_positions::<RoaringBitmap>(None, 0, last),
        Err(CommandError::RangeTooLarge)
    );
    assert!(range_positions::<RoaringBitmap>(None, 1, last).is_ok());
    // 64-bit positions above i64::MAX count as i64::MAX.
    assert_eq!(
        range_positions(Some(&bm64(&[1])), u64::MAX, u64::MAX).unwrap(),
        Vec::<u64>::new()
    );
}

#[test]
fn values_reply_in_order() {
    assert_eq!(
        values_reply::<RoaringTreemap>(&[1, u64::MAX]),
        vec![Reply::Integer(1), Reply::BulkString(b"18446744073709551615".to_vec())]
    );
    assert_eq!(
        int_array(&bm(&[5, 1])),
        vec![Reply::Integer(1), Reply::Integer(5)]
    );
}

#[test]
fn bit_array_refuses_large_maximum() {
    assert_eq!(bit_array(&bm(&[0, 2])), Ok(b"101".to_vec()));
    assert_eq!(bit_array(&RoaringBitmap::new()), Ok(Vec::new()));
    assert_eq!(
        bit_array(&bm(&[MAX_RANGE_SIZE as u32])),
        Err(CommandError::RangeTooLarge)
    );
}

#[test]
fn check_range_end_needs_end_at_least_start() {
    assert_eq!(check_range_end::<RoaringBitmap>(1, 1), Ok(()));
    assert_eq!(check_range_end::<RoaringBitmap>(1, 5), Ok(()));
    assert_eq!(check_range_end::<RoaringBitmap>(5, 1), Err(CommandError::InvalidEnd));
}

#[test]
fn bitpos_first_set_and_unset() {
    assert_eq!(bitpos::<RoaringBitmap>(None, true), Reply::Integer(-1));
    assert_eq!(bitpos::<RoaringBitmap>(None, false), Reply::Integer(0));
    let b = bm(&[0, 1, 2, 7]);
    assert_eq!(bitpos(Some(&b), true), Reply::Integer(0));
    assert_eq!(bitpos(Some(&b), false), Reply::Integer(3));
    assert_eq!(bitpos(Some(&RoaringBitmap::new()), true), Reply::Integer(-1));
    assert_eq!(bitpos(Some(&RoaringBitmap::new()), false), Reply::Integer(0));
    let full = <RoaringBitmap as RoaringType>::full();
    assert_eq!(bitpos(Some(&full), false), Reply::Integer(-1));
    assert_eq!(
        bitpos(Some(&bm64(&[u64::MAX])), true),
        Reply::BulkString(b"18446744073709551615".to_vec())
    );
}

#[test]
fn extreme_reply_minus_one_when_empty() {
    assert_eq!(extreme_reply::<RoaringBitmap>(None), Reply::Integer(-1));
    assert_eq!(extreme_reply::<RoaringBitmap>(Some(9)), Reply::Integer(9));
}

#[test]
fn contains_modes() {
    assert_eq!(parse_contains_mode(None), Ok(ContainsMode::Intersects));
    assert_eq!(parse_contains_mode(Some(&b"ALL"[..])), Ok(ContainsMode::All));
    assert_eq!(parse_contains_mode(Some(&b"ALL_STRICT"[..])), Ok(ContainsMode::AllStrict));
    assert_eq!(parse_contains_mode(Some(&b"EQ"[..])), Ok(ContainsMode::Equal));
    // An explicit NONE is refused.
    assert_eq!(
        parse_contains_mode(Some(&b"NONE"[..])),
        Err(CommandError::InvalidMode { mode: b"NONE".to_vec() })
    );
    let a = bm(&[1, 2, 3]);
    let b = bm(&[2, 3]);
    assert!(contains(&a, &b, ContainsMode::Intersects));
    assert!(!contains(&a, &bm(&[9]), ContainsMode::Intersects));
    assert!(contains(&a, &b, ContainsMode::All));
    assert!(contains(&a, &b, ContainsMode::AllStrict));
    assert!(!contains(&a, &a, ContainsMode::AllStrict));
    assert!(contains(&a, &a, ContainsMode::All));
    assert!(contains(&a, &bm(&[3, 2, 1]), ContainsMode::Equal));
    assert!(!contains(&b, &a, ContainsMode::All));
}

#[test]
fn jaccard_counts_shared_and_either() {
    assert_eq!(jaccard_counts(&bm(&[1, 2, 3]), &bm(&[2, 3, 4])), (2, 4));
    assert_eq!(jaccard_counts(&RoaringBitmap::new(), &RoaringBitmap::new()), (0, 0));
    assert_eq!(jaccard_counts(&bm64(&[1 << 40]), &bm64(&[1])), (0, 2));
}

#[test]
fn export_then_import_round_trip() {
    let mut src = bm(&[1, 2, 3, 70_000]);
    let bytes = export_bytes(&mut src);
    assert_eq!(src, bm(&[1, 2, 3, 70_000]));
    // Into a missing key: the same bitmap.
    let mut dest = RoaringBitmap::new();
    assert_eq!(import_merge(&mut dest, &bytes), Ok(()));
    assert_eq!(dest, src);
    // Into an existing key: the union, and again changes nothing.
    let mut dest = bm(&[9]);
    assert_eq!(import_merge(&mut dest, &bytes), Ok(()));
    assert_eq!(dest, bm(&[1, 2, 3, 9, 70_000]));
    assert_eq!(import_merge(&mut dest, &bytes), Ok(()));
    assert_eq!(dest, bm(&[1, 2, 3, 9, 70_000]));
    // 64-bit, with values past i64::MAX.
    let mut src = bm64(&[0, u64::MAX]);
    let bytes = export_bytes(&mut src);
    let mut dest = RoaringTreemap::new();
    assert_eq!(import_merge(&mut dest, &bytes), Ok(()));
    assert_eq!(dest, src);
}

#[test]
fn import_refuses_bad_bytes_and_keeps_the_bitmap() {
    let mut dest = bm(&[4]);
    assert_eq!(import_merge(&mut dest, b"garbage"), Err(CommandError::BadBinary));
    assert_eq!(dest, bm(&[4]));
    let mut dest = bm64(&[4]);
    assert_eq!(import_merge(&mut dest, &[1, 2]), Err(CommandError::BadBinary));
    assert_eq!(dest, bm64(&[4]));
}

#[test]
fn xorshift_known_values() {
    let mut state = 1u64;
    assert_eq!(xorshift(&mut state), 1082269761);
    assert_eq!(state, 1082269761);
    let mut zero = 0u64;
    assert_eq!(xorshift(&mut zero), 0);
}

#[test]
fn range_positions_width_is_checked_on_exact_positions() {
    let b = bm64(&[1, 2, 3]);
    let start = 1u64 << 63;
    assert_eq!(
        range_positions(Some(&b), start, start + 1_000_000_000),
        Err(CommandError::RangeTooLarge)
    );
    assert_eq!(
        range_positions(Some(&b), start, start + MAX_RANGE_SIZE - 1),
        Ok(Vec::<u64>::new())
    );
    assert_eq!(range_positions(Some(&b), 1u64, 5u64).unwrap(), vec![2, 3]);
}

#[test]
fn countable_bitmaps() {
    assert!(countable(&<RoaringBitmap as RoaringType>::full()));
    assert!(countable(&bm64(&[1, u64::MAX])));
    assert!(countable(&RoaringTreemap::new()));
}

#[test]
fn contains_on_64_bit_bitmaps() {
    let a = bm64(&[1, 1 << 40]);
    let b = bm64(&[1 << 40]);
    assert!(contains(&a, &b, ContainsMode::All));
    assert!(contains(&a, &b, ContainsMode::AllStrict));
    assert!(!contains(&b, &a, ContainsMode::All));
    assert!(contains(&a, &bm64(&[1 << 40, 1]), ContainsMode::Equal));
    assert!(!contains(&a, &a, ContainsMode::AllStrict));
}

#[test]
fn export_leaves_the_storage_optimized() {
    let mut b: RoaringBitmap = (0..=10000u32).collect();
    let _ = export_bytes(&mut b);
    assert!(!RoaringType::optimize(&mut b));
    let mut t: RoaringTreemap = (0..=10000u64).collect();
    let _ = export_bytes(&mut t);
    assert!(!RoaringType::optimize(&mut t));
}
