use roaring::{RoaringBitmap, RoaringTreemap};
use std::collections::BTreeSet;
use valkey_roaring::bitmap_type::RoaringType;
use valkey_roaring::commands_bitop::{
    apply_bitop, bitop_call, bitop_key_positions, is_variadic_op, op_and, op_andnot, op_andor,
    op_not, op_one, op_or, op_ornot, op_xor, parse_bitop, BitOp,
};
use valkey_roaring::error::CommandError;
use valkey_roaring::test_util::xorshift;

const OPS: [&str; 7] = ["AND", "OR", "XOR", "ANDOR", "DIFF", "DIFF1", "ONE"];

fn build<T: RoaringType>(vals: &[u64]) -> T {
    let converted: Vec<T::Value> = vals
        .iter()
        .map(|&v| T::value_from_u64(v).unwrap())
        .collect();
    T::from_values(&converted)
}

fn run_op<T: RoaringType>(op: &str, sources: Vec<T>) -> T {
    match op {
        "AND" => op_and(sources),
        "OR" => op_or(sources),
        "XOR" => op_xor(sources),
        "ANDOR" => op_andor(sources),
        "DIFF" => op_andnot(sources),
        "DIFF1" => op_ornot(sources),
        "ONE" => op_one(sources),
        _ => unreachable!(),
    }
}

/// Naive reference: per-element membership counting.
fn reference(op: &str, sources: &[BTreeSet<u64>]) -> BTreeSet<u64> {
    let universe: BTreeSet<u64> = sources.iter().flatten().copied().collect();
    universe
        .into_iter()
        .filter(|v| {
            let count = sources.iter().filter(|s| s.contains(v)).count();
            let in_first = sources[0].contains(v);
            let in_rest = sources[1..].iter().any(|s| s.contains(v));
            match op {
                "AND" => count == sources.len(),
                "OR" => count > 0,
                "XOR" => count % 2 == 1,
                "ANDOR" => in_first && in_rest,
                "DIFF" => in_first && !in_rest,
                "DIFF1" => in_rest && !in_first,
                "ONE" => count == 1,
                _ => unreachable!(),
            }
        })
        .collect()
}

fn check_all_ops<T: RoaringType + PartialEq + std::fmt::Debug>(sets: &[BTreeSet<u64>]) {
    for op in OPS {
        let sources: Vec<T> = sets
            .iter()
            .map(|s| build::<T>(&s.iter().copied().collect::<Vec<_>>()))
            .collect();
        let result = run_op(op, sources);
        let expected = build::<T>(&reference(op, sets).into_iter().collect::<Vec<_>>());
        assert_eq!(result, expected, "op {} on sources {:?}", op, sets);
    }
}

#[test]
fn bitop_kernels_match_reference_randomized() {
    let mut state = 0x243F_6A88_85A3_08D3u64;
    for _ in 0..80 {
        let n_sources = 1 + (xorshift(&mut state) % 4) as usize;
        let sets: Vec<BTreeSet<u64>> = (0..n_sources)
            .map(|_| {
                let card = xorshift(&mut state) % 48;
                (0..card).map(|_| xorshift(&mut state) % 128).collect()
            })
            .collect();
        check_all_ops::<RoaringBitmap>(&sets);
        check_all_ops::<RoaringTreemap>(&sets);
    }
}

#[test]
fn bitop_one_known_answer() {
    // {1,2} {2,3} {3,4}: 1 and 4 appear exactly once; 2 and 3 twice.
    let sources: Vec<RoaringBitmap> = vec![build::<RoaringBitmap>(&[1, 2]), build::<RoaringBitmap>(&[2, 3]), build::<RoaringBitmap>(&[3, 4])];
    assert_eq!(op_one(sources), build::<RoaringBitmap>(&[1, 4]));
    // A bit in all three sources is not "exactly one".
    let sources: Vec<RoaringBitmap> = vec![build::<RoaringBitmap>(&[7, 1]), build::<RoaringBitmap>(&[7, 2]), build::<RoaringBitmap>(&[7, 3])];
    assert_eq!(op_one(sources), build::<RoaringBitmap>(&[1, 2, 3]));
}

#[test]
fn bitop_single_source_semantics() {
    let src = build::<RoaringBitmap>(&[1, 5, 9]);
    assert_eq!(op_and(vec![src.clone()]), src);
    assert_eq!(op_or(vec![src.clone()]), src);
    assert_eq!(op_xor(vec![src.clone()]), src);
    assert_eq!(op_andnot(vec![src.clone()]), src);
    assert_eq!(op_one(vec![src.clone()]), src);
    // ANDOR / DIFF1 need at least two sources.
    assert_eq!(op_andor(vec![src.clone()]), RoaringBitmap::new());
    assert_eq!(op_ornot(vec![src]), RoaringBitmap::new());
}

#[test]
fn bitop_no_sources_yield_empty() {
    for op in OPS {
        let result: RoaringBitmap = run_op(op, vec![]);
        assert!(result.is_empty(), "op {} with no sources", op);
    }
}

#[test]
fn variadic_op_classification() {
    for op in OPS {
        assert!(is_variadic_op(op), "{} must be variadic", op);
    }
    assert!(!is_variadic_op("NOT"));
    assert!(!is_variadic_op("FOO"));
    assert!(!is_variadic_op(""));
}

// ------------------------------------------------------------------
// Dispatch, NOT and key positions.
// ------------------------------------------------------------------

#[test]
fn bitop_names_parse() {
    assert_eq!(parse_bitop(b"AND"), Some(BitOp::And));
    assert_eq!(parse_bitop(b"DIFF1"), Some(BitOp::Diff1));
    assert_eq!(parse_bitop(b"NOT"), Some(BitOp::Not));
    assert_eq!(parse_bitop(b"and"), None);
    assert_eq!(parse_bitop(b"NAND"), None);
}

#[test]
fn bitop_call_checks_arity_and_name() {
    assert_eq!(bitop_call(3, b"AND"), Err(CommandError::WrongArity));
    assert_eq!(bitop_call(4, b"AND"), Err(CommandError::WrongArity));
    assert_eq!(bitop_call(5, b"AND"), Ok(BitOp::And));
    assert_eq!(bitop_call(9, b"ONE"), Ok(BitOp::One));
    assert_eq!(bitop_call(4, b"NOT"), Ok(BitOp::Not));
    assert_eq!(bitop_call(5, b"NOT"), Ok(BitOp::Not));
    assert_eq!(bitop_call(6, b"NOT"), Err(CommandError::WrongArity));
    assert_eq!(bitop_call(5, b"FOO"), Err(CommandError::Syntax));
}

#[test]
fn apply_bitop_matches_the_kernels() {
    let a = build::<RoaringBitmap>(&[1, 2, 3]);
    let b = build::<RoaringBitmap>(&[3, 4]);
    assert_eq!(apply_bitop(BitOp::And, vec![a.clone(), b.clone()]), build::<RoaringBitmap>(&[3]));
    assert_eq!(apply_bitop(BitOp::Diff, vec![a.clone(), b.clone()]), build::<RoaringBitmap>(&[1, 2]));
    assert_eq!(apply_bitop(BitOp::Diff1, vec![a, b]), build::<RoaringBitmap>(&[4]));
}

#[test]
fn bitop_not_complements_up_to_the_larger_bound() {
    let src = build::<RoaringBitmap>(&[1, 3]);
    assert_eq!(op_not(&src, None), build::<RoaringBitmap>(&[0, 2]));
    assert_eq!(op_not(&src, Some(5)), build::<RoaringBitmap>(&[0, 2, 4, 5]));
    // A `last` below the source maximum is raised to it.
    assert_eq!(op_not(&src, Some(1)), build::<RoaringBitmap>(&[0, 2]));
    // An empty source: empty, or all of [0, last].
    assert_eq!(op_not(&RoaringBitmap::new(), None), RoaringBitmap::new());
    assert_eq!(op_not(&RoaringBitmap::new(), Some(2)), build::<RoaringBitmap>(&[0, 1, 2]));
    let src64 = build::<RoaringTreemap>(&[1 << 33]);
    assert_eq!(RoaringType::len(&op_not(&src64, None)), 1 << 33);
}

#[test]
fn bitop_key_positions_by_operation() {
    assert_eq!(bitop_key_positions(4, b"NOT"), vec![2, 3]);
    assert_eq!(bitop_key_positions(5, b"NOT"), vec![2, 3]);
    assert_eq!(bitop_key_positions(6, b"NOT"), Vec::<usize>::new());
    assert_eq!(bitop_key_positions(6, b"AND"), vec![2, 3, 4, 5]);
    assert_eq!(bitop_key_positions(4, b"AND"), Vec::<usize>::new());
    assert_eq!(bitop_key_positions(7, b"FOO"), Vec::<usize>::new());
    assert_eq!(bitop_key_positions(3, b"NOT"), Vec::<usize>::new());
}
