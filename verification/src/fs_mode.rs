//! Reading files under a cap.

use vstd::prelude::*;

verus! {

/// What a capped read of a file found.
#[derive(Debug)]
pub enum CappedRead {
    /// The whole file, no larger than the cap.
    Whole(Vec<u8>),
    /// The file is larger than the cap.
    TooLarge,
}

/// How many bytes are asked for under a cap: one more, to tell a file at the cap from one over
/// it, and never more than that however large the file is.
pub fn read_limit(max: usize) -> (r: u64)
    ensures
        r == if max as u64 == u64::MAX {
            u64::MAX as int
        } else {
            max + 1
        },
{
    let n: u64 = max as u64;
    if n == u64::MAX {
        n
    } else {
        n + 1
    }
}

/// What was found of a file, from the bytes that were read of it.
pub fn capped_read(bytes: Vec<u8>, max: usize) -> (r: CappedRead)
    ensures
        r == if bytes@.len() > max {
            CappedRead::TooLarge
        } else {
            CappedRead::Whole(bytes)
        },
{
    if bytes.len() > max {
        CappedRead::TooLarge
    } else {
        CappedRead::Whole(bytes)
    }
}

/// What is refused instead of read.
pub const NOT_A_REGULAR_FILE: &'static str = "the path is not a regular file";

} // verus!
