use roaring::RoaringTreemap;
use valkey_roaring::bitmap_type::RoaringType;

fn bm(vals: &[u64]) -> RoaringTreemap {
    vals.iter().copied().collect()
}

fn text(bytes: Vec<u8>) -> String {
    String::from_utf8(bytes).unwrap()
}

#[test]
fn value_to_i64_saturates() {
    assert_eq!(RoaringTreemap::value_to_i64(5), 5);
    assert_eq!(RoaringTreemap::value_to_i64(i64::MAX as u64), i64::MAX);
    assert_eq!(RoaringTreemap::value_to_i64(i64::MAX as u64 + 1), i64::MAX);
    assert_eq!(RoaringTreemap::value_to_i64(u64::MAX), i64::MAX);
}

#[test]
fn nth_absent_basics() {
    assert_eq!(RoaringTreemap::new().nth_absent(1), Some(0));
    assert_eq!(bm(&[0]).nth_absent(1), Some(1));
    assert_eq!(bm(&[0, 1]).nth_absent(1), Some(2));
    let b = bm(&[1, 3, 5]);
    assert_eq!(b.nth_absent(1), Some(0));
    assert_eq!(b.nth_absent(3), Some(4));
}

#[test]
fn nth_absent_large_gap() {
    // Skipping a gap must not walk it value by value.
    assert_eq!(bm(&[1 << 40]).nth_absent(1), Some(0));
    assert_eq!(bm(&[0, 1 << 40]).nth_absent(1), Some(1));
}

#[test]
fn bitmap64_nth_absent_type_boundary() {
    assert_eq!(bm(&[u64::MAX]).nth_absent(1), Some(0));
    // {5, u64::MAX}: 2^64 - 2 values are absent; the last one is MAX - 1.
    let b = bm(&[5, u64::MAX]);
    assert_eq!(b.nth_absent(u64::MAX - 1), Some(u64::MAX - 1));
    assert_eq!(b.nth_absent(u64::MAX), None);
    // {0..=10}: the (2^64 - 11)th absent value is exactly u64::MAX.
    let b: RoaringTreemap = (0..=10u64).collect();
    assert_eq!(b.nth_absent(u64::MAX - 10), Some(u64::MAX));
    assert_eq!(b.nth_absent(u64::MAX - 9), None);
}

#[test]
fn bitmap64_flip_inclusive_basic() {
    assert_eq!(bm(&[1, 3]).flip_inclusive(5), bm(&[0, 2, 4, 5]));
    assert_eq!(RoaringTreemap::new().flip_inclusive(3), bm(&[0, 1, 2, 3]));
    assert_eq!(bm(&[1, 10]).flip_inclusive(5), bm(&[0, 2, 3, 4, 5, 10]));
}

#[test]
fn flip_inclusive_above_u32_range() {
    let big = 1u64 << 40;
    let b = bm(&[big]);
    let flipped = b.flip_inclusive(big + 2);
    assert!(!flipped.contains(big));
    assert!(flipped.contains(big + 1));
    assert!(flipped.contains(big + 2));
    assert_eq!(RoaringType::len(&flipped), big + 2);
}

#[test]
fn optimize_preserves_data() {
    let mut b = RoaringTreemap::new();
    b.insert_range(0..=100_000);
    RoaringType::optimize(&mut b);
    assert_eq!(RoaringType::len(&b), 100_001);
    assert!(b.contains(0) && b.contains(100_000));
}

#[test]
fn iter_range_filters_inclusive() {
    let b = bm(&[1, 5, 10]);
    assert_eq!(b.iter_range(2, 9), vec![5]);
    assert_eq!(b.iter_range(1, 10), vec![1, 5, 10]);
    assert_eq!(b.iter_range(6, 9), Vec::<u64>::new());
}

#[test]
fn bitmap64_remove_many_counted_duplicates() {
    let mut b = bm(&[100]);
    assert_eq!(b.remove_many_counted(&[100, 100, 100]), 1);
    assert!(b.is_empty());
}

#[test]
fn bitmap64_trait_delegation_smoke() {
    assert_eq!(RoaringTreemap::value_to_i64(7), 7);

    let mut b = <RoaringTreemap as RoaringType>::new();
    assert!(RoaringType::min_val(&b).is_none());
    assert!(RoaringType::max_val(&b).is_none());
    RoaringType::insert_many(&mut b, &[5_000_000_000, 1, 2]);
    assert_eq!(RoaringType::min_val(&b), Some(1));
    assert_eq!(RoaringType::max_val(&b), Some(5_000_000_000));
    assert_eq!(RoaringType::contains_many(&b, &[1, 4]), vec![true, false]);
    RoaringType::remove_many(&mut b, &[1, 9]);
    assert!(!RoaringType::contains(&b, 1));
    assert_eq!(RoaringType::insert_range_inclusive(&mut b, 10, 12), 3);
    assert_eq!(
        RoaringType::iter_values(&b).len() as u64,
        RoaringType::len(&b)
    );

    let other = bm(&[2, 100]);
    assert!(!RoaringType::is_disjoint(&b, &other));
    assert!(RoaringType::is_subset(&bm(&[2]), &other));
    assert_eq!(RoaringType::intersection_len(&b, &other), 1);
    assert_eq!(RoaringType::union_len(&b, &other), RoaringType::len(&b) + 1);
    assert_eq!(RoaringType::sub_owned(bm(&[1, 2]), bm(&[2])), bm(&[1]));

    let mut c = bm(&[1, 2]);
    RoaringType::clear(&mut c);
    assert!(c.is_empty());
}

#[test]
fn bitmap64_stat_output_contains_fields() {
    let b = bm(&[1, 5_000_000_000]);
    let t = text(RoaringType::stat_text(&b));
    assert!(t.contains("type: bitmap64"));
    assert!(t.contains("cardinality: 2"));
    assert!(t.contains("max value: 5000000000"));
    // The container breakdown adds up the sub-bitmaps: the two values land
    // in different 32-bit partitions, so two array containers.
    assert!(t.contains("number of containers: 2"));
    assert!(t.contains("number of array containers: 2"));
    let json = text(RoaringType::stat_json(&b));
    assert!(json.contains("\"type\":\"bitmap64\""));
    assert!(json.contains("\"max_value\":\"5000000000\""));
    assert!(json.contains("\"number_of_containers\":\"2\""));
    assert!(json.contains("\"array_container\""));
    assert_eq!(json.matches('{').count(), json.matches('}').count());
    // An empty treemap has no extremes.
    let e = RoaringTreemap::new();
    assert!(text(RoaringType::stat_text(&e)).contains("(none)"));
    assert!(text(RoaringType::stat_json(&e)).contains("null"));
}

#[test]
fn bitmap64_bit_array_round_trip() {
    let b = RoaringTreemap::from_bit_array(b"0011");
    assert_eq!(b, bm(&[2, 3]));
    assert_eq!(RoaringType::to_bit_array(&b), b"0011".to_vec());
    assert_eq!(
        RoaringType::to_bit_array(&RoaringTreemap::new()),
        Vec::<u8>::new()
    );
}

#[test]
fn serialized_size_matches_output() {
    let b = bm(&[1, 2, 3, 1 << 40]);
    let mut buf = Vec::new();
    RoaringType::serialize_into(&b, &mut buf);
    assert_eq!(buf.len(), RoaringType::serialized_size(&b));
}

// ------------------------------------------------------------------
// Further checks of the 64-bit bitmap.
// ------------------------------------------------------------------

#[test]
fn bitmap64_select_and_iter_range_across_partitions() {
    let b = bm(&[3, 1 << 33, (1 << 33) + 1, 1 << 40]);
    assert_eq!(RoaringType::select(&b, 0), Some(3));
    assert_eq!(RoaringType::select(&b, 3), Some(1 << 40));
    assert_eq!(RoaringType::select(&b, 4), None);
    assert_eq!(b.iter_range(4, 1 << 40), vec![1 << 33, (1 << 33) + 1, 1 << 40]);
    assert_eq!(b.iter_range(0, u64::MAX), RoaringType::iter_values(&b));
}

#[test]
fn bitmap64_value_from_u64_is_total() {
    assert_eq!(RoaringTreemap::value_from_u64(u64::MAX), Some(u64::MAX));
    assert_eq!(RoaringTreemap::value_to_u64(u64::MAX), u64::MAX);
    assert!(RoaringTreemap::value_lt(1 << 40, u64::MAX));
}

#[test]
fn bitmap64_equals_and_subset() {
    assert!(RoaringType::equals(&bm(&[1, 1 << 40]), &bm(&[1 << 40, 1])));
    assert!(!RoaringType::equals(&bm(&[1]), &bm(&[2])));
    assert!(RoaringType::is_subset(&bm(&[1 << 40]), &bm(&[1, 1 << 40])));
    assert!(!RoaringType::is_subset(&bm(&[2]), &bm(&[1, 1 << 40])));
}

#[test]
fn bitmap64_stat_text_exact() {
    let e = RoaringTreemap::new();
    let t = text(RoaringType::stat_text(&e));
    let size = RoaringType::serialized_size(&e);
    assert_eq!(
        t,
        format!(
            "type: bitmap64\ncardinality: 0\nnumber of containers: 0\nmax value: (none)\n\
             min value: (none)\nserialized bytes: {}\nnumber of array containers: 0\n\
             array container values: 0\narray container bytes: 0\nbitset containers: 0\n\
             bitset container values: 0\nbitset container bytes: 0\nrun containers: 0\n\
             run container values: 0\nrun container bytes: 0",
            size
        )
    );
}

#[test]
fn bitmap64_deserialize_refuses_garbage() {
    assert!(<RoaringTreemap as RoaringType>::deserialize_from(&[0xFF, 0xFF, 0xFF]).is_err());
    assert!(<RoaringTreemap as RoaringType>::deserialize_from(&[1]).is_err());
}

#[test]
fn optimize_reports_changes() {
    assert!(!RoaringType::optimize(&mut RoaringTreemap::new()));
    assert!(!RoaringType::optimize(&mut roaring::RoaringBitmap::new()));
    let mut b: roaring::RoaringBitmap = (0..=10000u32).collect();
    assert!(RoaringType::optimize(&mut b));
    assert_eq!(RoaringType::len(&b), 10001);
}

fn with_empty_partition() -> RoaringTreemap {
    // Partition 0 holds {1}; partition 5 is present but empty.
    let mut one = roaring::RoaringBitmap::new();
    one.insert(1);
    let mut bytes = Vec::new();
    bytes.extend_from_slice(&2u64.to_le_bytes());
    bytes.extend_from_slice(&0u32.to_le_bytes());
    RoaringType::serialize_into(&one, &mut bytes);
    bytes.extend_from_slice(&5u32.to_le_bytes());
    RoaringType::serialize_into(&roaring::RoaringBitmap::new(), &mut bytes);
    <RoaringTreemap as RoaringType>::deserialize_from(&bytes).unwrap()
}

#[test]
fn bitmap64_comparisons_ignore_empty_partitions() {
    let t = with_empty_partition();
    let plain = bm(&[1]);
    // The bitmap crate's own comparison sees the empty partition.
    assert!(t != plain);
    assert!(!t.is_subset(&plain));
    // The values are what is compared.
    assert!(RoaringType::equals(&t, &plain));
    assert!(RoaringType::is_subset(&t, &plain));
    assert!(RoaringType::is_subset(&plain, &t));
    assert!(!RoaringType::equals(&t, &bm(&[1, 2])));
    assert!(RoaringType::is_subset(&t, &bm(&[1, 2])));
    assert!(!RoaringType::is_subset(&bm(&[1, 2]), &t));
}

#[test]
fn bitmap64_round_trip_keeps_partitions() {
    let t = with_empty_partition();
    let mut bytes = Vec::new();
    RoaringType::serialize_into(&t, &mut bytes);
    let back = <RoaringTreemap as RoaringType>::deserialize_from(&bytes).unwrap();
    // Same values and the same partitions, the empty one included.
    assert!(back == t);
    assert_eq!(back.bitmaps().map(|(k, _)| k).collect::<Vec<u32>>(), vec![0, 5]);
}

#[test]
fn bitmap64_iter_range_inverted_window_is_empty() {
    let b = bm(&[1, 5, 10]);
    assert_eq!(b.iter_range(9, 2), Vec::<u64>::new());
}

#[test]
fn stats_available_unless_a_partition_is_full() {
    let mut b = RoaringTreemap::new();
    b.insert_range(0..=(u32::MAX as u64) - 1);
    b.insert(1 << 40);
    assert!(RoaringType::stats_available(&b));
    b.insert(u32::MAX as u64);
    assert!(!RoaringType::stats_available(&b));
    assert!(RoaringType::stats_available(&RoaringTreemap::new()));
    assert!(!RoaringType::stats_available(&<roaring::RoaringBitmap as RoaringType>::full()));
    assert!(RoaringType::stats_available(&roaring::RoaringBitmap::new()));
}
