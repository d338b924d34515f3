//! Random trits and buffers of trits, for tests of ternary code.

use vstd::prelude::*;
use rand::Rng;
use std::ops::Range;

verus! {

/// A random byte, from `rand::thread_rng().gen::<u8>()`. Nothing is claimed
/// of the byte that comes back.
#[verifier::external_body]
fn random_byte() -> (byte: u8) {
    rand::thread_rng().gen::<u8>()
}

/// A random length, from `rand::thread_rng().gen_range(start..end)`, which
/// samples the half-open range and panics if it is empty: the range must not
/// be, and the length lies in it.
#[verifier::external_body]
fn random_length(start: usize, end: usize) -> (length: usize)
    requires
        start < end,
    ensures
        start <= length < end,
{
    rand::thread_rng().gen_range(start..end)
}

/// The balanced trit that a byte stands for.
pub open spec fn spec_trit_balanced(byte: u8) -> int {
    byte as int % 3 - 1
}

/// The unbalanced trit that a byte stands for.
pub open spec fn spec_trit_unbalanced(byte: u8) -> int {
    byte as int % 3
}

/// Maps a byte to a balanced trit: its remainder by three, less one.
pub fn trit_balanced(byte: u8) -> (trit: i8)
    ensures
        trit == spec_trit_balanced(byte),
        -1 <= trit <= 1,
{
    (byte % 3) as i8 - 1
}

/// Maps a byte to an unbalanced trit: its remainder by three.
pub fn trit_unbalanced(byte: u8) -> (trit: i8)
    ensures
        trit == spec_trit_unbalanced(byte),
        0 <= trit <= 2,
{
    (byte % 3) as i8
}

/// Generates a random balanced trit.
pub fn gen_trit_balanced() -> (trit: i8)
    ensures
        -1 <= trit <= 1,
{
    trit_balanced(random_byte())
}

/// Generates a random unbalanced trit.
pub fn gen_trit_unbalanced() -> (trit: i8)
    ensures
        0 <= trit <= 2,
{
    trit_unbalanced(random_byte())
}

/// Generates a buffer of balanced trits whose length lies in `len`, which
/// must not be empty.
pub fn gen_buf_balanced(len: Range<usize>) -> (trits: Vec<i8>)
    requires
        len.start < len.end,
    ensures
        len.start <= trits@.len() < len.end,
        forall|i: int| 0 <= i < trits@.len() ==> -1 <= #[trigger] trits@[i] <= 1,
{
    let length = random_length(len.start, len.end);
    let mut trits: Vec<i8> = Vec::new();
    while trits.len() < length
        invariant
            trits@.len() <= length,
            forall|i: int| 0 <= i < trits@.len() ==> -1 <= #[trigger] trits@[i] <= 1,
        decreases length - trits@.len(),
    {
        trits.push(gen_trit_balanced());
    }
    trits
}

/// Generates a buffer of unbalanced trits whose length lies in `len`, which
/// must not be empty.
pub fn gen_buf_unbalanced(len: Range<usize>) -> (trits: Vec<i8>)
    requires
        len.start < len.end,
    ensures
        len.start <= trits@.len() < len.end,
        forall|i: int| 0 <= i < trits@.len() ==> 0 <= #[trigger] trits@[i] <= 2,
{
    let length = random_length(len.start, len.end);
    let mut trits: Vec<i8> = Vec::new();
    while trits.len() < length
        invariant
            trits@.len() <= length,
            forall|i: int| 0 <= i < trits@.len() ==> 0 <= #[trigger] trits@[i] <= 2,
        decreases length - trits@.len(),
    {
        trits.push(gen_trit_unbalanced());
    }
    trits
}

/// Not exactly fuzzing, just doing something a lot: calls `f` `n` times.
pub fn fuzz<F: FnMut()>(n: usize, mut f: F)
    requires
        f.requires(()),
{
    let mut i: usize = 0;
    while i < n
        invariant
            i <= n,
            f.requires(()),
        decreases n - i,
    {
        f();
        i += 1;
    }
}

} // verus!
