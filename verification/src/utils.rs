//! Small values shared by the modules: measurements that are only carried,
//! two's-complement readings of integers, and the runtime directory.

use vstd::prelude::*;
use vstd::string::StringExecFns;

verus! {

/// A measurement in 64-bit IEEE 754 binary form, held as its bit pattern.
///
/// The library hands such a value on exactly as it came and never computes
/// with it.
#[derive(Clone, Copy, Debug, PartialEq, Eq, Structural)]
pub struct Real {
    /// The bit pattern of the measurement.
    pub bits: u64,
}

/// The unsigned number with the same 32 bits as `value`.
pub open spec fn spec_unsigned(value: i32) -> u32 {
    if value >= 0 {
        value as u32
    } else {
        (value + 0x1_0000_0000) as u32
    }
}

/// The signed number with the same 32 bits as `value`.
pub open spec fn spec_signed(value: u32) -> i32 {
    if value <= 0x7fff_ffff {
        value as i32
    } else {
        (value - 0x1_0000_0000) as i32
    }
}

/// The unsigned number with the same 32 bits as `value`.
pub fn unsigned(value: i32) -> (bits: u32)
    ensures
        bits == spec_unsigned(value),
{
    if value >= 0 {
        value as u32
    } else {
        let wide: i64 = value as i64 + 0x1_0000_0000;
        wide as u32
    }
}

/// The signed number with the same 32 bits as `value`.
pub fn signed(value: u32) -> (bits: i32)
    ensures
        bits == spec_signed(value),
{
    if value <= 0x7fff_ffff {
        value as i32
    } else {
        let wide: i64 = value as i64 - 0x1_0000_0000;
        wide as i32
    }
}

/// Reading a number as unsigned and back as signed gives the number again,
/// and the other way round.
pub proof fn lemma_signed_unsigned(a: i32, b: u32)
    ensures
        spec_signed(spec_unsigned(a)) == a,
        spec_unsigned(spec_signed(b)) == b,
{
}

/// The directory for runtime files where the environment names none.
pub open spec fn spec_fallback_dir() -> Seq<char> {
    "/tmp"@
}

/// The directory for runtime files: the one the environment names, else
/// `/tmp`.
pub fn runtime_dir(from_environment: Option<String>) -> (dir: String)
    ensures
        dir@ == match from_environment {
            Some(named) => named@,
            None => spec_fallback_dir(),
        },
{
    match from_environment {
        Some(named) => named,
        None => String::from_str("/tmp"),
    }
}

/// `dir` followed by `name`, with one `/` between them unless `dir` is
/// empty or already ends in one.
pub open spec fn spec_join(dir: Seq<char>, name: Seq<char>) -> Seq<char> {
    if dir.len() == 0 || dir.last() == '/' {
        dir + name
    } else {
        dir + "/"@ + name
    }
}

/// The path of the file `name` in the directory `dir`.
pub fn join(dir: String, name: &str) -> (path: String)
    ensures
        path@ == spec_join(dir@, name@),
{
    let count: usize = dir.as_str().unicode_len();
    if count == 0 {
        dir.concat(name)
    } else if dir.as_str().get_char(count - 1) == '/' {
        dir.concat(name)
    } else {
        dir.concat("/").concat(name)
    }
}

} // verus!
