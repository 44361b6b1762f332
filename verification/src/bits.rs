//! Reading a byte string bit by bit.
//!
//! The bits of a byte string are counted from the most significant bit of
//! its first byte. The reading itself is `bitreader`'s; this module says
//! what a reader has left and what each read hands out.

use bitreader::{BitReader, BitReaderError};
use vstd::prelude::*;

verus! {

/// `bitreader::BitReader`: a cursor over the bits of a byte slice.
#[verifier::external_type_specification]
#[verifier::external_body]
pub struct ExBitReader<'a>(BitReader<'a>);

/// `bitreader::BitReaderError`, carried through unread.
#[verifier::external_type_specification]
#[verifier::external_body]
pub struct ExBitReaderError(BitReaderError);

/// Bit `i` of a byte string: the bits of a byte run from its most
/// significant to its least significant.
pub open spec fn bit_at(bytes: Seq<u8>, i: int) -> bool {
    (bytes[i / 8] as int / weight(7 - i % 8)) % 2 == 1
}

/// The weight of bit `k` of a byte, counted from the least significant:
/// two to the power `k`.
pub open spec fn weight(k: int) -> int {
    if k <= 0 {
        1
    } else if k == 1 {
        2
    } else if k == 2 {
        4
    } else if k == 3 {
        8
    } else if k == 4 {
        16
    } else if k == 5 {
        32
    } else if k == 6 {
        64
    } else {
        128
    }
}

/// The bits of a byte string, first bit first.
pub open spec fn bits_of(bytes: Seq<u8>) -> Seq<bool> {
    Seq::new(8 * bytes.len(), |i: int| bit_at(bytes, i))
}

/// The number that a run of bits spells, most significant bit first.
pub open spec fn number(bits: Seq<bool>) -> nat
    decreases bits.len(),
{
    if bits.len() == 0 {
        0
    } else {
        2 * number(bits.drop_last()) + if bits.last() {
            1nat
        } else {
            0nat
        }
    }
}

/// The number that the `n` bits of a byte string from bit `from` on spell.
pub open spec fn bits_value(bytes: Seq<u8>, from: int, n: int) -> nat {
    number(bits_of(bytes).subrange(from, from + n))
}

/// A run of bits spells twice what it spells without its last bit, and one
/// more where that bit is set; no bits spell zero.
pub proof fn lemma_bits_value_step(bytes: Seq<u8>, from: int, n: int)
    requires
        0 <= from,
        0 <= n,
        from + n <= 8 * bytes.len(),
    ensures
        n == 0 ==> bits_value(bytes, from, n) == 0,
        n > 0 ==> bits_value(bytes, from, n) == 2 * bits_value(bytes, from, n - 1) + if bit_at(
            bytes,
            from + n - 1,
        ) {
            1nat
        } else {
            0nat
        },
{
    let bits = bits_of(bytes);
    if n > 0 {
        assert(bits.subrange(from, from + n).drop_last() =~= bits.subrange(from, from + n - 1));
    }
}

/// Bit `i` of a byte string, as a number.
pub open spec fn digit(bytes: Seq<u8>, i: int) -> nat {
    if bit_at(bytes, i) {
        1
    } else {
        0
    }
}

/// The eight bits of byte `j` of a byte string, from the most significant
/// down.
pub proof fn lemma_byte_bits(bytes: Seq<u8>, j: int)
    requires
        0 <= j < bytes.len(),
    ensures
        digit(bytes, 8 * j) == (bytes[j] as int / 128) % 2,
        digit(bytes, 8 * j + 1) == (bytes[j] as int / 64) % 2,
        digit(bytes, 8 * j + 2) == (bytes[j] as int / 32) % 2,
        digit(bytes, 8 * j + 3) == (bytes[j] as int / 16) % 2,
        digit(bytes, 8 * j + 4) == (bytes[j] as int / 8) % 2,
        digit(bytes, 8 * j + 5) == (bytes[j] as int / 4) % 2,
        digit(bytes, 8 * j + 6) == (bytes[j] as int / 2) % 2,
        digit(bytes, 8 * j + 7) == (bytes[j] as int / 1) % 2,
{
}

/// A run of up to seven bits, written out: each bit counts for twice the
/// bit behind it.
pub proof fn lemma_bits_value_unfold(bytes: Seq<u8>, from: int, n: int)
    requires
        0 <= from,
        0 <= n <= 7,
        from + n <= 8 * bytes.len(),
    ensures
        n == 0 ==> bits_value(bytes, from, n) == 0,
        n == 1 ==> bits_value(bytes, from, n) == digit(bytes, from),
        n == 2 ==> bits_value(bytes, from, n) == 2 * digit(bytes, from) + digit(bytes, from + 1),
        n == 3 ==> bits_value(bytes, from, n) == 4 * digit(bytes, from) + 2 * digit(
            bytes,
            from + 1,
        ) + digit(bytes, from + 2),
        n == 4 ==> bits_value(bytes, from, n) == 8 * digit(bytes, from) + 4 * digit(
            bytes,
            from + 1,
        ) + 2 * digit(bytes, from + 2) + digit(bytes, from + 3),
        n == 5 ==> bits_value(bytes, from, n) == 16 * digit(bytes, from) + 8 * digit(
            bytes,
            from + 1,
        ) + 4 * digit(bytes, from + 2) + 2 * digit(bytes, from + 3) + digit(bytes, from + 4),
        n == 6 ==> bits_value(bytes, from, n) == 32 * digit(bytes, from) + 16 * digit(
            bytes,
            from + 1,
        ) + 8 * digit(bytes, from + 2) + 4 * digit(bytes, from + 3) + 2 * digit(bytes, from + 4)
            + digit(bytes, from + 5),
        n == 7 ==> bits_value(bytes, from, n) == 64 * digit(bytes, from) + 32 * digit(
            bytes,
            from + 1,
        ) + 16 * digit(bytes, from + 2) + 8 * digit(bytes, from + 3) + 4 * digit(bytes, from + 4)
            + 2 * digit(bytes, from + 5) + digit(bytes, from + 6),
    decreases n,
{
    lemma_bits_value_step(bytes, from, n);
    if n > 0 {
        lemma_bits_value_unfold(bytes, from, n - 1);
    }
}

/// The bits that a reader has yet to hand out, first bit first.
pub uninterp spec fn unread(reader: &BitReader) -> Seq<bool>;

/// `BitReader::new`: a reader that has all the bits of `bytes` to hand out.
/// The reader counts its bits in a `u64`: the bound on the length keeps
/// that count, and every position reached by a read, within it.
#[verifier::external_body]
pub(crate) fn bit_reader<'a>(bytes: &'a [u8]) -> (reader: BitReader<'a>)
    requires
        bytes@.len() < 0x1000_0000_0000_0000,
    ensures
        unread(&reader) == bits_of(bytes@),
{
    BitReader::new(bytes)
}

/// `BitReader::read_u8`: hands out the next `bit_count` bits as a number,
/// most significant bit first. Fails, and hands out nothing, where more
/// than eight bits are asked for or fewer than `bit_count` are left.
#[verifier::external_body]
pub(crate) fn read_u8(reader: &mut BitReader, bit_count: u8) -> (value: Result<u8, BitReaderError>)
    ensures
        bit_count <= 8 && bit_count <= unread(old(reader)).len() ==> value.is_ok() && value.unwrap()
            == number(unread(old(reader)).take(bit_count as int)) && unread(final(reader))
            == unread(old(reader)).skip(bit_count as int),
        bit_count > 8 || bit_count > unread(old(reader)).len() ==> value.is_err() && unread(
            final(reader),
        ) == unread(old(reader)),
{
    reader.read_u8(bit_count)
}

/// `BitReader::read_u16`: hands out the next `bit_count` bits as a number,
/// most significant bit first. Fails, and hands out nothing, where more
/// than sixteen bits are asked for or fewer than `bit_count` are left.
#[verifier::external_body]
pub(crate) fn read_u16(reader: &mut BitReader, bit_count: u8) -> (value: Result<
    u16,
    BitReaderError,
>)
    ensures
        bit_count <= 16 && bit_count <= unread(old(reader)).len() ==> value.is_ok()
            && value.unwrap() == number(unread(old(reader)).take(bit_count as int)) && unread(
            final(reader),
        ) == unread(old(reader)).skip(bit_count as int),
        bit_count > 16 || bit_count > unread(old(reader)).len() ==> value.is_err() && unread(
            final(reader),
        ) == unread(old(reader)),
{
    reader.read_u16(bit_count)
}

/// `BitReader::skip`: passes over the next `bit_count` bits. Fails, and
/// passes over nothing, where fewer are left. The bound on `bit_count`
/// keeps the position that the reader computes within a `u64`.
#[verifier::external_body]
pub(crate) fn skip(reader: &mut BitReader, bit_count: u64) -> (passed: Result<(), BitReaderError>)
    requires
        bit_count < 0x1_0000_0000,
    ensures
        bit_count <= unread(old(reader)).len() ==> passed.is_ok() && unread(final(reader))
            == unread(old(reader)).skip(bit_count as int),
        bit_count > unread(old(reader)).len() ==> passed.is_err() && unread(final(reader))
            == unread(old(reader)),
{
    reader.skip(bit_count)
}

} // verus!
