use roaring::RoaringBitmap;
use valkey_roaring::bitmap_type::RoaringType;
use valkey_roaring::test_util::xorshift;

fn bm(vals: &[u32]) -> RoaringBitmap {
    vals.iter().copied().collect()
}

fn text(bytes: Vec<u8>) -> String {
    String::from_utf8(bytes).unwrap()
}

#[test]
fn nth_absent_empty_bitmap() {
    let b = RoaringBitmap::new();
    assert_eq!(b.nth_absent(0), None);
    assert_eq!(b.nth_absent(1), Some(0));
    assert_eq!(b.nth_absent(5), Some(4));
}

#[test]
fn nth_absent_single_zero() {
    // For the bitmap {0} the first absent value is 1.
    assert_eq!(bm(&[0]).nth_absent(1), Some(1));
}

#[test]
fn nth_absent_prefix_run() {
    assert_eq!(bm(&[0, 1, 2]).nth_absent(1), Some(3));
}

#[test]
fn nth_absent_gaps() {
    let b = bm(&[1, 3, 5]);
    assert_eq!(b.nth_absent(1), Some(0));
    assert_eq!(b.nth_absent(2), Some(2));
    assert_eq!(b.nth_absent(3), Some(4));
    assert_eq!(b.nth_absent(4), Some(6));
}

#[test]
fn bitmap32_nth_absent_type_boundary() {
    assert_eq!(bm(&[u32::MAX]).nth_absent(1), Some(0));
    // {0..=10}: the (2^32 - 11)th absent value is exactly u32::MAX,
    // and one past that falls outside the type range.
    let b: RoaringBitmap = (0..=10).collect();
    let remaining = u32::MAX as u64 - 10;
    assert_eq!(b.nth_absent(remaining), Some(u32::MAX));
    assert_eq!(b.nth_absent(remaining + 1), None);
}

#[test]
fn nth_absent_matches_brute_force() {
    let mut state = 0x9E37_79B9_7F4A_7C15u64;
    for _ in 0..100 {
        let card = xorshift(&mut state) % 24;
        let vals: Vec<u32> = (0..card)
            .map(|_| (xorshift(&mut state) % 32) as u32)
            .collect();
        let b = bm(&vals);
        let absent: Vec<u32> = (0..64).filter(|v| !b.contains(*v)).collect();
        for (i, expected) in absent.iter().take(12).enumerate() {
            assert_eq!(
                b.nth_absent(i as u64 + 1),
                Some(*expected),
                "bitmap {:?}, n = {}",
                vals,
                i + 1
            );
        }
    }
}

#[test]
fn bitmap32_flip_inclusive_basic() {
    assert_eq!(bm(&[1, 3]).flip_inclusive(5), bm(&[0, 2, 4, 5]));
    assert_eq!(RoaringBitmap::new().flip_inclusive(3), bm(&[0, 1, 2, 3]));
    assert_eq!(bm(&[0]).flip_inclusive(0), RoaringBitmap::new());
}

#[test]
fn flip_inclusive_preserves_bits_above_last() {
    assert_eq!(bm(&[1, 10]).flip_inclusive(5), bm(&[0, 2, 3, 4, 5, 10]));
}

#[test]
fn flip_inclusive_full_type_range() {
    let flipped = bm(&[0]).flip_inclusive(u32::MAX);
    assert_eq!(RoaringType::len(&flipped), u32::MAX as u64); // 2^32 - 1 values
    assert!(!flipped.contains(0));
    assert!(flipped.contains(u32::MAX));
}

#[test]
fn flip_inclusive_is_involutive() {
    let b = bm(&[2, 4, 9]);
    assert_eq!(b.flip_inclusive(20).flip_inclusive(20), b);
}

#[test]
fn bitmap32_remove_many_counted_duplicates() {
    // Duplicate offsets are counted once.
    let mut b = bm(&[5, 7]);
    assert_eq!(b.remove_many_counted(&[5, 5, 5]), 1);
    assert_eq!(b, bm(&[7]));
    assert_eq!(b.remove_many_counted(&[9]), 0);
    assert_eq!(b.remove_many_counted(&[7, 7]), 1);
    assert!(b.is_empty());
}

#[test]
fn bitmap32_bit_array_round_trip() {
    let b = RoaringBitmap::from_bit_array(b"0101");
    assert_eq!(b, bm(&[1, 3]));
    assert_eq!(b.to_bit_array(), b"0101".to_vec());
    assert_eq!(RoaringBitmap::new().to_bit_array(), Vec::<u8>::new());
    assert_eq!(RoaringBitmap::from_bit_array(b""), RoaringBitmap::new());
    // Non-'1' bytes are treated as 0.
    assert_eq!(RoaringBitmap::from_bit_array(b"1x01"), bm(&[0, 3]));
}

#[test]
fn select_bounds() {
    let b = bm(&[10, 20, 30]);
    assert_eq!(RoaringType::select(&b, 0), Some(10));
    assert_eq!(RoaringType::select(&b, 2), Some(30));
    assert_eq!(RoaringType::select(&b, 3), None);
    assert_eq!(RoaringType::select(&b, u32::MAX as u64 + 1), None);
}

#[test]
fn bitmap32_trait_delegation_smoke() {
    assert_eq!(
        RoaringType::len(&<RoaringBitmap as RoaringType>::full()),
        1u64 << 32
    );
    assert_eq!(RoaringBitmap::value_to_i64(7), 7);
    assert_eq!(RoaringBitmap::value_to_i64(u32::MAX), u32::MAX as i64);

    let mut b = <RoaringBitmap as RoaringType>::new();
    assert!(RoaringType::min_val(&b).is_none());
    assert!(RoaringType::max_val(&b).is_none());
    RoaringType::insert_many(&mut b, &[3, 1, 2]);
    assert_eq!(RoaringType::min_val(&b), Some(1));
    assert_eq!(RoaringType::max_val(&b), Some(3));
    assert_eq!(RoaringType::contains_many(&b, &[1, 4]), vec![true, false]);
    RoaringType::remove_many(&mut b, &[1, 9]);
    assert!(!RoaringType::contains(&b, 1));
    assert_eq!(RoaringType::insert_range_inclusive(&mut b, 10, 12), 3);
    assert_eq!(RoaringType::iter_range(&b, 10, 11), vec![10, 11]);
    assert_eq!(
        RoaringType::iter_values(&b).len() as u64,
        RoaringType::len(&b)
    );

    let other = bm(&[2, 100]);
    assert!(!RoaringType::is_disjoint(&b, &other));
    assert!(RoaringType::is_subset(&bm(&[2]), &other));
    assert_eq!(RoaringType::intersection_len(&b, &other), 1);
    assert_eq!(RoaringType::union_len(&b, &other), RoaringType::len(&b) + 1);
    assert_eq!(RoaringType::sub_owned(bm(&[1, 2]), bm(&[2])), bm(&[1]));

    let mut c = bm(&[1, 2]);
    RoaringType::clear(&mut c);
    assert!(c.is_empty());
    let mut d = bm(&[1]);
    let _ = RoaringType::optimize(&mut d);
    assert!(RoaringType::contains(&d, 1));
}

#[test]
fn bitmap32_stat_output_contains_fields() {
    let b = bm(&[1, 2, 3]);
    let t = text(RoaringType::stat_text(&b));
    assert!(t.contains("type: bitmap"));
    assert!(t.contains("cardinality: 3"));
    assert!(t.contains("max value: 3"));
    assert!(t.contains("min value: 1"));
    let json = text(RoaringType::stat_json(&b));
    assert!(json.contains("\"type\":\"bitmap\""));
    assert!(json.contains("\"cardinality\":\"3\""));
    assert_eq!(json.matches('{').count(), json.matches('}').count());
}

// ------------------------------------------------------------------
// Further checks of the 32-bit bitmap.
// ------------------------------------------------------------------

#[test]
fn bitmap32_insert_range_exclusive_skips_end() {
    let mut b = RoaringBitmap::new();
    assert_eq!(b.insert_range_exclusive(1, 4), 3);
    assert_eq!(b, bm(&[1, 2, 3]));
    assert_eq!(b.insert_range_exclusive(5, 5), 0);
    assert_eq!(b.insert_range_exclusive(0, 2), 1);
    assert_eq!(b, bm(&[0, 1, 2, 3]));
}

#[test]
fn bitmap32_value_from_u64_range() {
    assert_eq!(RoaringBitmap::value_from_u64(7), Some(7u32));
    assert_eq!(RoaringBitmap::value_from_u64(u32::MAX as u64), Some(u32::MAX));
    assert_eq!(RoaringBitmap::value_from_u64(u32::MAX as u64 + 1), None);
    assert_eq!(RoaringBitmap::value_to_u64(9), 9u64);
    assert!(RoaringBitmap::value_lt(1, 2));
    assert!(!RoaringBitmap::value_lt(2, 2));
}

#[test]
fn bitmap32_insert_and_remove_report_change() {
    let mut b = RoaringBitmap::new();
    assert!(RoaringType::insert(&mut b, 4));
    assert!(!RoaringType::insert(&mut b, 4));
    assert!(RoaringType::remove(&mut b, 4));
    assert!(!RoaringType::remove(&mut b, 4));
    assert!(RoaringType::is_empty(&b));
}

#[test]
fn bitmap32_set_operations() {
    let mut a = bm(&[1, 2, 3]);
    RoaringType::bitor_assign(&mut a, &bm(&[3, 4]));
    assert_eq!(a, bm(&[1, 2, 3, 4]));
    RoaringType::bitand_assign(&mut a, &bm(&[2, 4, 6]));
    assert_eq!(a, bm(&[2, 4]));
    RoaringType::bitxor_assign(&mut a, &bm(&[4, 5]));
    assert_eq!(a, bm(&[2, 5]));
    RoaringType::sub_assign(&mut a, &bm(&[5]));
    assert_eq!(a, bm(&[2]));
    assert_eq!(RoaringType::bitor_owned(bm(&[1]), bm(&[2])), bm(&[1, 2]));
    assert_eq!(RoaringType::bitand_owned(bm(&[1, 2]), bm(&[2])), bm(&[2]));
    assert_eq!(RoaringType::bitxor_owned(bm(&[1, 2]), bm(&[2, 3])), bm(&[1, 3]));
    assert!(RoaringType::equals(&bm(&[1, 2]), &bm(&[2, 1])));
    assert!(!RoaringType::equals(&bm(&[1]), &bm(&[1, 2])));
    assert!(!RoaringType::is_subset(&bm(&[1, 3]), &bm(&[1, 2])));
}

#[test]
fn bitmap32_from_values_and_duplicate() {
    let b = RoaringBitmap::from_values(&[9, 1, 9, 4]);
    assert_eq!(b, bm(&[1, 4, 9]));
    assert_eq!(RoaringType::duplicate(&b), b);
    assert_eq!(RoaringType::iter_values(&b), vec![1, 4, 9]);
}

#[test]
fn bitmap32_serialize_round_trip_small() {
    let b = bm(&[0, 7, 70_000, u32::MAX]);
    let mut buf = vec![0xAAu8];
    RoaringType::serialize_into(&b, &mut buf);
    assert_eq!(buf[0], 0xAA);
    assert_eq!(buf.len() - 1, RoaringType::serialized_size(&b));
    let back = <RoaringBitmap as RoaringType>::deserialize_from(&buf[1..]).unwrap();
    assert_eq!(back, b);
}

#[test]
fn bitmap32_bit_array_round_trips_both_ways() {
    // A bitmap read back from its own bit string is the same bitmap.
    let b = bm(&[0, 3, 4, 11]);
    let bits = b.to_bit_array();
    assert_eq!(bits, b"100110000001".to_vec());
    assert_eq!(RoaringBitmap::from_bit_array(&bits), b);
    // A canonical bit string comes back unchanged.
    let canonical = b"0010011".to_vec();
    assert_eq!(RoaringBitmap::from_bit_array(&canonical).to_bit_array(), canonical);
    // A trailing '0' is not canonical and is dropped.
    assert_eq!(RoaringBitmap::from_bit_array(b"0100").to_bit_array(), b"01".to_vec());
}

#[test]
fn bitmap32_stat_text_exact() {
    let t = text(RoaringType::stat_text(&RoaringBitmap::new()));
    assert_eq!(
        t,
        "type: bitmap\ncardinality: 0\nnumber of containers: 0\nmax value: 0\nmin value: 0\n\
         number of array containers: 0\narray container values: 0\narray container bytes: 0\n\
         bitset containers: 0\nbitset container values: 0\nbitset container bytes: 0\n\
         run containers: 0\nrun container values: 0\nrun container bytes: 0"
    );
    let kind = "{\"number_of_containers\":\"0\",\"container_cardinality\":\"0\",\"container_allocated_bytes\":\"0\"}";
    let json = text(RoaringType::stat_json(&RoaringBitmap::new()));
    assert_eq!(
        json,
        format!(
            "{{\"type\":\"bitmap\",\"cardinality\":\"0\",\"number_of_containers\":\"0\",\"max_value\":\"0\",\"min_value\":\"0\",\"array_container\":{},\"bitset_container\":{},\"run_container\":{}}}",
            kind, kind, kind
        )
    );
}

#[test]
fn bitmap32_stat_byte_counts() {
    let mut runs: RoaringBitmap = (0..=10000u32).collect();
    RoaringType::optimize(&mut runs);
    let t = text(RoaringType::stat_text(&runs));
    assert!(t.contains("run containers: 1\nrun container values: 10001\nrun container bytes: 6"));
    let sparse: RoaringBitmap = (0..10000u32).map(|v| v * 2).collect();
    let t = text(RoaringType::stat_text(&sparse));
    assert!(t.contains("bitset containers: 1\nbitset container values: 10000\nbitset container bytes: 65536"));
}
