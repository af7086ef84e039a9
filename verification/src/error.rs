//! Why commands are refused, and the text of each error reply.
use vstd::prelude::*;
use vstd::string::StringSliceAdditionalSpecFns;
use vstd::utf8::encode_utf8;
use crate::stats::push_str;

verus! {

pub const ERR_KEY_NOT_FOUND: &'static str = "Roaring: key does not exist";

pub const ERR_KEY_EXISTS: &'static str = "Roaring: key already exist";

pub const ERR_SET_VALUE: &'static str = "Roaring: error setting value";

pub const ERR_RANGE_TOO_LARGE: &'static str = "Roaring: range too large: maximum 100000000 elements";

pub const ERR_INVALID_END: &'static str = "ERR invalid end: must be >= start";

pub const ERR_SYNTAX: &'static str = "ERR syntax error";

pub const ERR_BAD_BINARY: &'static str = "ERR bad binary data for roaring";

/// The widest window a range reply may span.
pub const MAX_RANGE_SIZE: u64 = 100_000_000;

/// Why a command is refused. `name` is the argument's name in the reply.
#[derive(Debug, PartialEq, Eq)]
pub enum CommandError {
    /// The command has the wrong number of arguments.
    WrongArity,
    /// `ERR_SYNTAX`: an unknown operation.
    Syntax,
    /// `ERR_KEY_NOT_FOUND`.
    KeyNotFound,
    /// `ERR_KEY_EXISTS`.
    KeyExists,
    /// `ERR_RANGE_TOO_LARGE`.
    RangeTooLarge,
    /// `ERR_INVALID_END`.
    InvalidEnd,
    /// `ERR_BAD_BINARY`: bytes that are no serialized bitmap.
    BadBinary,
    /// "ERR invalid {name}: must be a non-negative integer".
    NotInteger { name: String },
    /// "ERR invalid {name}: value out of range".
    OutOfRange { name: String },
    /// "ERR invalid {name}: must be an unsigned 32 bit integer".
    NotU32 { name: String },
    /// "ERR invalid {name}: must be an unsigned 64 bit integer".
    NotU64 { name: String },
    /// "ERR invalid {name}: must be either 0 or 1".
    NotBool { name: String },
    /// "ERR invalid mode argument: {mode}".
    InvalidMode { mode: Vec<u8> },
}

impl CommandError {
    /// The text of the error reply; `None` for `WrongArity`, whose reply the
    /// server words itself, naming the command.
    pub open spec fn reply_text(&self) -> Option<Seq<u8>> {
        match self {
            CommandError::WrongArity => None,
            CommandError::Syntax => Some(ERR_SYNTAX.spec_bytes()),
            CommandError::KeyNotFound => Some(ERR_KEY_NOT_FOUND.spec_bytes()),
            CommandError::KeyExists => Some(ERR_KEY_EXISTS.spec_bytes()),
            CommandError::RangeTooLarge => Some(ERR_RANGE_TOO_LARGE.spec_bytes()),
            CommandError::InvalidEnd => Some(ERR_INVALID_END.spec_bytes()),
            CommandError::BadBinary => Some(ERR_BAD_BINARY.spec_bytes()),
            CommandError::NotInteger { name } => Some(
                "ERR invalid ".spec_bytes() + encode_utf8(name@)
                    + ": must be a non-negative integer".spec_bytes(),
            ),
            CommandError::OutOfRange { name } => Some(
                "ERR invalid ".spec_bytes() + encode_utf8(name@) + ": value out of range".spec_bytes(),
            ),
            CommandError::NotU32 { name } => Some(
                "ERR invalid ".spec_bytes() + encode_utf8(name@)
                    + ": must be an unsigned 32 bit integer".spec_bytes(),
            ),
            CommandError::NotU64 { name } => Some(
                "ERR invalid ".spec_bytes() + encode_utf8(name@)
                    + ": must be an unsigned 64 bit integer".spec_bytes(),
            ),
            CommandError::NotBool { name } => Some(
                "ERR invalid ".spec_bytes() + encode_utf8(name@)
                    + ": must be either 0 or 1".spec_bytes(),
            ),
            CommandError::InvalidMode { mode } => Some(
                "ERR invalid mode argument: ".spec_bytes() + mode@,
            ),
        }
    }

    /// The text of the error reply, as bytes; `None` for `WrongArity`.
    pub fn message(&self) -> (r: Option<Vec<u8>>)
        ensures
            match self.reply_text() {
                None => r is None,
                Some(t) => r matches Some(m) && m@ == t,
            },
    {
        let mut out: Vec<u8> = Vec::new();
        match self {
            CommandError::WrongArity => {
                return None;
            },
            CommandError::Syntax => push_str(&mut out, ERR_SYNTAX),
            CommandError::KeyNotFound => push_str(&mut out, ERR_KEY_NOT_FOUND),
            CommandError::KeyExists => push_str(&mut out, ERR_KEY_EXISTS),
            CommandError::RangeTooLarge => push_str(&mut out, ERR_RANGE_TOO_LARGE),
            CommandError::InvalidEnd => push_str(&mut out, ERR_INVALID_END),
            CommandError::BadBinary => push_str(&mut out, ERR_BAD_BINARY),
            CommandError::NotInteger { name } => {
                push_str(&mut out, "ERR invalid ");
                push_str(&mut out, name.as_str());
                push_str(&mut out, ": must be a non-negative integer");
            },
            CommandError::OutOfRange { name } => {
                push_str(&mut out, "ERR invalid ");
                push_str(&mut out, name.as_str());
                push_str(&mut out, ": value out of range");
            },
            CommandError::NotU32 { name } => {
                push_str(&mut out, "ERR invalid ");
                push_str(&mut out, name.as_str());
                push_str(&mut out, ": must be an unsigned 32 bit integer");
            },
            CommandError::NotU64 { name } => {
                push_str(&mut out, "ERR invalid ");
                push_str(&mut out, name.as_str());
                push_str(&mut out, ": must be an unsigned 64 bit integer");
            },
            CommandError::NotBool { name } => {
                push_str(&mut out, "ERR invalid ");
                push_str(&mut out, name.as_str());
                push_str(&mut out, ": must be either 0 or 1");
            },
            CommandError::InvalidMode { mode } => {
                push_str(&mut out, "ERR invalid mode argument: ");
                let mut i: usize = 0;
                let ghost start = out@;
                while i < mode.len()
                    invariant
                        i <= mode@.len(),
                        out@ == start + mode@.subrange(0, i as int),
                    decreases mode@.len() - i,
                {
                    out.push(mode[i]);
                    assert(mode@.subrange(0, i + 1) =~= mode@.subrange(0, i as int).push(mode@[i as int]));
                    i += 1;
                }
                assert(mode@.subrange(0, mode@.len() as int) =~= mode@);
            },
        }
        Some(out)
    }
}

} // verus!
