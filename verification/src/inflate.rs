//! The deflate decoder, as this library calls it.
//!
//! Decoding is left to `flate2`. What it returns is a function of the
//! compressed bytes alone, and of the number of bytes demanded where one is
//! demanded; this module gives both results a name, so that contracts can
//! speak of them.

use std::io::Read;

use flate2::read::DeflateDecoder;
use vstd::prelude::*;

verus! {

/// The first `len` bytes that the deflate stream `data` decodes to, or
/// nothing where the decoder fails before it has yielded that many.
pub uninterp spec fn inflated_exact(data: Seq<u8>, len: nat) -> Option<Seq<u8>>;

/// All the bytes that the deflate stream `data` decodes to, or nothing where
/// the decoder fails before the stream ends.
pub uninterp spec fn inflated(data: Seq<u8>) -> Option<Seq<u8>>;

/// `flate2::read::DeflateDecoder` over `data`, read with `read_exact` until
/// `out` is full. On success `out` holds the bytes that `inflated_exact`
/// names; a failure means that it names none. The length of `out` stays.
#[verifier::external_body]
pub(crate) fn inflate_exact(data: &[u8], out: &mut Vec<u8>) -> (filled: Result<(), std::io::Error>)
    ensures
        final(out)@.len() == old(out)@.len(),
        filled.is_ok() ==> inflated_exact(data@, old(out)@.len()) == Some(final(out)@),
        filled.is_err() ==> inflated_exact(data@, old(out)@.len()).is_none(),
{
    DeflateDecoder::new(data).read_exact(out.as_mut_slice())
}

/// `flate2::read::DeflateDecoder` over `data`, copied into `sink` with
/// `std::io::copy`. On success the bytes that `inflated` names were
/// appended to `sink`, and their number is returned; a failure means that
/// it names none, and `sink` may have grown by a part of the output.
#[verifier::external_body]
pub(crate) fn inflate_into(data: &[u8], sink: &mut Vec<u8>) -> (copied: Result<u64, std::io::Error>)
    ensures
        match copied {
            Ok(n) => inflated(data@) matches Some(bytes) && final(sink)@ == old(sink)@ + bytes && n
                == bytes.len(),
            Err(_) => inflated(data@).is_none() && old(sink)@.is_prefix_of(final(sink)@),
        },
{
    std::io::copy(&mut DeflateDecoder::new(data), sink)
}

} // verus!
