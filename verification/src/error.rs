//! The failures that reading an archive can end in.

use vstd::prelude::*;

verus! {

/// `std::io::Error`, carried through unread.
#[verifier::external_type_specification]
#[verifier::external_body]
pub struct ExIoError(std::io::Error);

/// Why an archive, or one of its entries, could not be read.
#[derive(Debug)]
pub enum ZipParseError {
    /// The entry declares an uncompressed size at or above the ceiling that
    /// the caller set. Holds the declared size.
    FileTooLarge(u64),
    /// The decompressor or the byte source failed.
    IoError(std::io::Error),
    /// A record does not start with the signature that its place demands.
    MalformedSignature { found: [u8; 4], expected: [u8; 4] },
    /// A failure described by its message only.
    Generic(&'static str),
    /// A read ran past the end of the buffer.
    UnexpectedEof,
    /// The buffer holds no end-of-central-directory record.
    MissingCentralDirectory,
    /// The entry is compressed with a method that is neither "stored" nor
    /// "deflate". Holds the method's code.
    UnsupportedMethod(u16),
}

impl From<std::io::Error> for ZipParseError {
    /// A failure of the decompressor or of the byte source, carried on.
    fn from(e: std::io::Error) -> (failure: ZipParseError) {
        ZipParseError::IoError(e)
    }
}

impl vstd::std_specs::convert::FromSpecImpl<std::io::Error> for ZipParseError {
    open spec fn obeys_from_spec() -> bool {
        true
    }

    open spec fn from_spec(e: std::io::Error) -> ZipParseError {
        ZipParseError::IoError(e)
    }
}

/// Message of the failure of an entry to yield the declared number of
/// bytes.
pub const SHORT_WRITE: &'static str = "failed to write full buffer";

/// Message of the failure of a name or comment to be UTF-8.
pub const NOT_UTF8: &'static str = "text is not UTF-8";

} // verus!
