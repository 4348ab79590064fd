//! Joining and splitting of 8-bit halves of a 16-bit word, in the
//! little-endian convention the bus and the register pairs share.

use vstd::prelude::*;

verus! {

/// The 16-bit word whose most-significant byte is `hi` and least-significant
/// byte is `lo`.
pub open spec fn spec_merge(hi: u8, lo: u8) -> u16 {
    (hi * 256 + lo) as u16
}

/// The most-significant byte of `w`.
pub open spec fn spec_high_byte(w: u16) -> u8 {
    (w / 256) as u8
}

/// The least-significant byte of `w`.
pub open spec fn spec_low_byte(w: u16) -> u8 {
    (w % 256) as u8
}

/// Combine this element with another type to create a single result.
pub trait Merge<T, R> {
    /// Combine this element (the most-significant part) with `b` (the
    /// least-significant part) to create a single result.
    fn merge(self, b: T) -> R;
}

/// Divide this element into two smaller elements of another type.
pub trait Split<T> {
    /// Divide this element into two smaller elements of another type,
    /// most-significant part first.
    fn split(self) -> (T, T);
}

impl Merge<u8, u16> for u8 {
    fn merge(self, b: u8) -> (r: u16)
        ensures
            r == spec_merge(self, b),
    {
        proof {
            assert((self as u16) << 8 == self * 256) by (bit_vector);
        }
        (b as u16) + ((self as u16) << 8)
    }
}

impl Split<u8> for u16 {
    fn split(self) -> (r: (u8, u8))
        ensures
            r.0 == spec_high_byte(self),
            r.1 == spec_low_byte(self),
    {
        proof {
            assert(self >> 8 == self / 256) by (bit_vector);
            assert(self as u8 == self % 256) by (bit_vector);
        }
        let left = (self >> 8) as u8;
        let right = self as u8;
        (left, right)
    }
}

/// A zero-filled byte vector of length `len`.
pub fn zero_bytes(len: usize) -> (r: Vec<u8>)
    ensures
        r@.len() == len,
        forall|i: int| 0 <= i < len ==> r@[i] == 0u8,
{
    let mut v: Vec<u8> = Vec::new();
    let mut i: usize = 0;
    while i < len
        invariant
            i <= len,
            v@.len() == i,
            forall|j: int| 0 <= j < i ==> v@[j] == 0u8,
        decreases len - i,
    {
        v.push(0);
        i = i + 1;
    }
    v
}

/// A fresh byte vector with the same contents as `src`.
pub fn clone_bytes(src: &Vec<u8>) -> (r: Vec<u8>)
    ensures
        r@ == src@,
{
    let mut v: Vec<u8> = Vec::new();
    let mut i: usize = 0;
    while i < src.len()
        invariant
            i <= src@.len(),
            v@ == src@.subrange(0, i as int),
        decreases src@.len() - i,
    {
        v.push(src[i]);
        proof {
            assert(v@ =~= src@.subrange(0, i + 1));
        }
        i = i + 1;
    }
    proof {
        assert(src@.subrange(0, src@.len() as int) =~= src@);
    }
    v
}

/// Copy `src` over the first `src.len()` bytes of `dst`, leaving the rest of
/// `dst` unchanged.
pub fn copy_into_prefix(dst: &mut Vec<u8>, src: &Vec<u8>)
    requires
        src@.len() <= old(dst)@.len(),
    ensures
        final(dst)@.len() == old(dst)@.len(),
        forall|i: int| 0 <= i < src@.len() ==> final(dst)@[i] == src@[i],
        forall|i: int| src@.len() <= i < old(dst)@.len() ==> final(dst)@[i] == old(dst)@[i],
{
    let mut i: usize = 0;
    while i < src.len()
        invariant
            i <= src@.len(),
            src@.len() <= dst@.len(),
            dst@.len() == old(dst)@.len(),
            forall|j: int| 0 <= j < i ==> dst@[j] == src@[j],
            forall|j: int| i <= j < old(dst)@.len() ==> dst@[j] == old(dst)@[j],
        decreases src@.len() - i,
    {
        let b = src[i];
        dst.set(i, b);
        i = i + 1;
    }
}

/// Masking with `0x3FFF` is reduction modulo the 16 KiB ROM bank size.
pub proof fn lemma_rom_offset(a: usize)
    ensures
        a & 0x3FFF == a % 16384,
        a & 0x3FFF < 16384,
{
    assert(a & 0x3FFF == a % 16384 && a & 0x3FFF < 16384) by (bit_vector);
}

/// Masking with `0x1FFF` is reduction modulo the 8 KiB RAM bank size.
pub proof fn lemma_ram_offset(a: usize)
    ensures
        a & 0x1FFF == a % 8192,
        a & 0x1FFF < 8192,
{
    assert(a & 0x1FFF == a % 8192 && a & 0x1FFF < 8192) by (bit_vector);
}

/// A ROM bank tag shifted past a bank-sized offset packs into plain
/// base-plus-offset arithmetic.
pub proof fn lemma_rom_bank_address(tag: usize, offset: usize)
    requires
        tag <= 256,
        offset < 16384,
    ensures
        (tag << 14) | offset == tag * 16384 + offset,
{
    assert((tag << 14) | offset == tag * 16384 + offset) by (bit_vector)
        requires
            tag <= 256,
            offset < 16384,
    ;
}

/// A RAM bank tag shifted past a bank-sized offset packs into plain
/// base-plus-offset arithmetic.
pub proof fn lemma_ram_bank_address(bank: usize, offset: usize)
    requires
        bank <= 256,
        offset < 8192,
    ensures
        (bank << 13) | offset == bank * 8192 + offset,
{
    assert((bank << 13) | offset == bank * 8192 + offset) by (bit_vector)
        requires
            bank <= 256,
            offset < 8192,
    ;
}

/// Splitting a merged word gives back the two bytes it was merged from.
pub proof fn lemma_split_merge(hi: u8, lo: u8)
    ensures
        spec_high_byte(spec_merge(hi, lo)) == hi,
        spec_low_byte(spec_merge(hi, lo)) == lo,
{
    assert(spec_high_byte(spec_merge(hi, lo)) == hi && spec_low_byte(spec_merge(hi, lo)) == lo)
        by (bit_vector);
}

/// Merging the two bytes of a word gives back the word.
pub proof fn lemma_merge_split(w: u16)
    ensures
        spec_merge(spec_high_byte(w), spec_low_byte(w)) == w,
{
    assert(spec_merge(spec_high_byte(w), spec_low_byte(w)) == w) by (bit_vector);
}

} // verus!
