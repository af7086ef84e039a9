//! Argument parsing: decimal integers as Rust's `str::parse` reads them,
//! and `0` / `1` flags.
use vstd::prelude::*;
use crate::error::CommandError;

verus! {

/// An ASCII decimal digit.
pub open spec fn is_digit(b: u8) -> bool {
    48 <= b <= 57
}

/// The number a string of decimal digits spells.
pub open spec fn decimal_value(d: Seq<u8>) -> int
    decreases d.len(),
{
    if d.len() == 0 {
        0
    } else {
        decimal_value(d.drop_last()) * 10 + (d.last() - 48)
    }
}

/// `s` without one leading `'+'`.
pub open spec fn unsigned_digits(s: Seq<u8>) -> Seq<u8> {
    if s.len() > 0 && s[0] == 43u8 {
        s.drop_first()
    } else {
        s
    }
}

/// What `u64::from_str` reads from `s`: an optional `'+'`, then one or more
/// decimal digits spelling a number that fits in 64 bits.
pub open spec fn parsed_u64(s: Seq<u8>) -> Option<u64> {
    let d = unsigned_digits(s);
    if d.len() > 0 && (forall|i: int| 0 <= i < d.len() ==> is_digit(#[trigger] d[i]))
        && decimal_value(d) <= u64::MAX {
        Some(decimal_value(d) as u64)
    } else {
        None
    }
}

/// Reads a `u64` from the bytes of an argument, as `str::parse::<u64>` does.
pub fn parse_u64_bytes(s: &[u8]) -> (r: Option<u64>)
    ensures
        r == parsed_u64(s@),
{
    let start: usize = if s.len() > 0 && s[0] == 43u8 {
        1
    } else {
        0
    };
    let ghost d = unsigned_digits(s@);
    assert(d =~= s@.subrange(start as int, s@.len() as int));
    if start >= s.len() {
        return None;
    }
    let mut acc: u128 = 0;
    let mut i: usize = start;
    while i < s.len()
        invariant
            start <= i <= s@.len(),
            d == s@.subrange(start as int, s@.len() as int),
            d == unsigned_digits(s@),
            forall|k: int| 0 <= k < i - start ==> is_digit(#[trigger] d[k]),
            decimal_value(d.subrange(0, i - start)) <= u64::MAX ==> acc == decimal_value(
                d.subrange(0, i - start),
            ),
            decimal_value(d.subrange(0, i - start)) > u64::MAX ==> acc > u64::MAX,
            acc <= u64::MAX * 10 + 9,
            decimal_value(d.subrange(0, i - start)) >= 0,
        decreases s@.len() - i,
    {
        let b = s[i];
        if b < 48u8 || b > 57u8 {
            assert(d[i - start] == b);
            assert(!is_digit(d[i - start]));
            return None;
        }
        let ghost prev = d.subrange(0, i - start);
        let ghost next = d.subrange(0, i - start + 1);
        assert(next.drop_last() =~= prev);
        assert(next.last() == b);
        if acc <= u64::MAX as u128 {
            acc = acc * 10 + (b - 48u8) as u128;
        }
        i += 1;
    }
    assert(d.subrange(0, d.len() as int) =~= d);
    if acc <= u64::MAX as u128 {
        Some(acc as u64)
    } else {
        None
    }
}

/// Reads an unsigned 32-bit integer argument.
pub fn parse_u32(arg: &[u8], name: &str) -> (r: Result<u32, CommandError>)
    ensures
        match r {
            Ok(v) => parsed_u64(arg@) == Some(v as u64),
            Err(e) => (parsed_u64(arg@) is None || parsed_u64(arg@).unwrap() > u32::MAX) && e
                == (CommandError::NotU32 { name: e->NotU32_name }) && e->NotU32_name@ == name@,
        },
{
    match parse_u64_bytes(arg) {
        Some(v) => {
            if v <= u32::MAX as u64 {
                Ok(v as u32)
            } else {
                Err(CommandError::NotU32 { name: name.to_owned() })
            }
        },
        None => Err(CommandError::NotU32 { name: name.to_owned() }),
    }
}

/// Reads an unsigned 64-bit integer argument.
pub fn parse_u64(arg: &[u8], name: &str) -> (r: Result<u64, CommandError>)
    ensures
        match r {
            Ok(v) => parsed_u64(arg@) == Some(v),
            Err(e) => parsed_u64(arg@) is None && e == (CommandError::NotU64 {
                name: e->NotU64_name,
            }) && e->NotU64_name@ == name@,
        },
{
    match parse_u64_bytes(arg) {
        Some(v) => Ok(v),
        None => Err(CommandError::NotU64 { name: name.to_owned() }),
    }
}

/// Reads a `0` / `1` flag argument.
pub fn parse_bool(arg: &[u8], name: &str) -> (r: Result<bool, CommandError>)
    ensures
        match r {
            Ok(b) => parsed_u64(arg@) == Some(if b {
                1u64
            } else {
                0u64
            }),
            Err(e) => match parsed_u64(arg@) {
                None => e is NotU64 && e->NotU64_name@ == name@,
                Some(v) => v > 1 && e is NotBool && e->NotBool_name@ == name@,
            },
        },
{
    let v = parse_u64(arg, name)?;
    if v == 0 {
        Ok(false)
    } else if v == 1 {
        Ok(true)
    } else {
        Err(CommandError::NotBool { name: name.to_owned() })
    }
}

} // verus!
