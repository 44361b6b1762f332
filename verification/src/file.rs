//! One entry's compressed bytes, and their decompression under a ceiling.
//!
//! Both ways of retrieval check the size that the entry declares against
//! the caller's ceiling before any byte is decoded: an entry that declares
//! a size at or above the ceiling is refused unread.

use std::borrow::Cow;

use vstd::prelude::*;

use crate::common::{CompressionMethod, CompressionMethodName};
use crate::error::{ZipParseError, SHORT_WRITE};
use crate::inflate::{inflate_exact, inflate_into, inflated, inflated_exact};
use crate::records::{Metadata, MetadataView};

verus! {

/// The ceiling that applies where the caller names none: 8 GiB.
pub const DEFAULT_LIMIT: u64 = 0x2_0000_0000;

/// One entry's metadata, paired with its compressed bytes as they lie in the
/// buffer.
#[derive(Debug)]
pub struct CompressedZipFile<'a> {
    pub metadata: Metadata<'a>,
    contents: &'a [u8],
}

/// The value of a [`CompressedZipFile`].
pub ghost struct CompressedZipFileView {
    pub metadata: MetadataView,
    pub contents: Seq<u8>,
}

impl<'a> View for CompressedZipFile<'a> {
    type V = CompressedZipFileView;

    closed spec fn view(&self) -> CompressedZipFileView {
        CompressedZipFileView { metadata: self.metadata@, contents: self.contents@ }
    }
}

/// The bytes that a retrieval returned, or its failure.
pub open spec fn retrieved(r: Result<Cow<'_, [u8]>, ZipParseError>) -> Result<
    Seq<u8>,
    ZipParseError,
> {
    match r {
        Ok(bytes) => Ok(bytes@),
        Err(e) => Err(e),
    }
}

/// Whether a retrieval that succeeded handed a stored entry out borrowed
/// from the archive, and any other entry in a buffer of its own.
pub open spec fn uncopied(file: CompressedZipFileView, r: Result<Cow<'_, [u8]>, ZipParseError>)
    -> bool {
    match r {
        Ok(Cow::Borrowed(_)) => file.method() == CompressionMethodName::Stored,
        Ok(Cow::Owned(_)) => file.method() != CompressionMethodName::Stored,
        Err(_) => true,
    }
}

impl CompressedZipFileView {
    /// The size that the entry declares for its decompressed bytes.
    pub open spec fn declared_size(self) -> int {
        self.metadata.uncompressed_size as int
    }

    /// The algorithm that the entry declares.
    pub open spec fn method(self) -> CompressionMethodName {
        CompressionMethodName::of_code(self.metadata.compression_method.0)
    }

    /// The refusal of an entry for its declared size, which it holds.
    pub open spec fn too_large(self) -> ZipParseError {
        ZipParseError::FileTooLarge(self.metadata.uncompressed_size)
    }

    /// The refusal of an entry for its method, whose code it holds.
    pub open spec fn unsupported(self) -> ZipParseError {
        ZipParseError::UnsupportedMethod(self.metadata.compression_method.0)
    }

    /// Whether the declared size meets or exceeds the ceiling. Where there
    /// is no ceiling, no size does.
    pub open spec fn over(self, ceiling: Option<int>) -> bool {
        ceiling matches Some(most) && self.declared_size() >= most
    }

    /// Whether `outcome` is what buffered retrieval under `ceiling` owes.
    ///
    /// What comes back has exactly the declared size. A stored entry comes
    /// back as it lies in the archive, and is refused where its bytes are
    /// not as many as it declares. A deflated entry comes back as the first
    /// bytes of its stream, as many as it declares. A declared size that no
    /// buffer of this machine can have is refused like one over the
    /// ceiling.
    pub open spec fn buffered(self, ceiling: Option<int>, outcome: Result<Seq<u8>, ZipParseError>)
        -> bool {
        if self.over(ceiling) {
            outcome == Err::<Seq<u8>, _>(self.too_large())
        } else {
            match self.method() {
                CompressionMethodName::Stored => outcome == if self.contents.len()
                    == self.declared_size() {
                    Ok::<_, ZipParseError>(self.contents)
                } else {
                    Err(ZipParseError::Generic(SHORT_WRITE))
                },
                CompressionMethodName::Deflate => if self.declared_size() > usize::MAX {
                    outcome == Err::<Seq<u8>, _>(self.too_large())
                } else {
                    match inflated_exact(self.contents, self.declared_size() as nat) {
                        Some(bytes) => outcome == Ok::<_, ZipParseError>(bytes) && bytes.len()
                            == self.declared_size(),
                        None => outcome matches Err(ZipParseError::IoError(_)),
                    }
                },
                _ => outcome == Err::<Seq<u8>, _>(self.unsupported()),
            }
        }
    }

    /// Whether `outcome`, with the sink grown from `before` to `after`, is
    /// what streamed retrieval under `ceiling` owes.
    ///
    /// Whatever the method, the bytes are written first and counted then:
    /// the retrieval succeeds only where as many came out as the entry
    /// declares.
    pub open spec fn streamed(
        self,
        ceiling: Option<int>,
        before: Seq<u8>,
        after: Seq<u8>,
        outcome: Result<(), ZipParseError>,
    ) -> bool {
        if self.over(ceiling) {
            &&& outcome == Err::<(), _>(self.too_large())
            &&& after == before
        } else {
            match self.method() {
                CompressionMethodName::Stored => after == before + self.contents && outcome
                    == Self::counted(self.contents.len() as int, self.declared_size()),
                CompressionMethodName::Deflate => match inflated(self.contents) {
                    Some(bytes) => after == before + bytes && outcome == Self::counted(
                        bytes.len() as int,
                        self.declared_size(),
                    ),
                    None => outcome matches Err(ZipParseError::IoError(_)) && before.is_prefix_of(
                        after,
                    ),
                },
                _ => {
                    &&& outcome == Err::<(), _>(self.unsupported())
                    &&& after == before
                },
            }
        }
    }

    /// What a retrieval that yielded `produced` bytes ends in, where
    /// `declared` were announced: the two must agree.
    pub open spec fn counted(produced: int, declared: int) -> Result<(), ZipParseError> {
        if produced == declared {
            Ok(())
        } else {
            Err(ZipParseError::Generic(SHORT_WRITE))
        }
    }
}

impl<'a> CompressedZipFile<'a> {
    /// Pairs metadata with compressed bytes.
    pub fn new(metadata: Metadata<'a>, contents: &'a [u8]) -> (file: Self)
        ensures
            file@ == (CompressedZipFileView { metadata: metadata@, contents: contents@ }),
    {
        CompressedZipFile { metadata, contents }
    }

    /// The entry's bytes as they lie in the archive.
    pub fn compressed_contents(&self) -> (contents: &[u8])
        ensures
            contents@ == self@.contents,
    {
        self.contents
    }

    /// The raw bytes of the entry's path inside the archive.
    ///
    /// The path is whatever the archive says: it may be absolute or climb
    /// out through `..`, and is not to be trusted for writing files.
    pub fn file_path_bytes(&self) -> (path: &'a [u8])
        ensures
            path@ == self@.metadata.name,
    {
        self.metadata.name
    }

    /// The entry's metadata.
    pub fn metadata(&self) -> (metadata: &Metadata<'a>)
        ensures
            metadata@ == self@.metadata,
    {
        &self.metadata
    }

    /// The algorithm that the entry is compressed with.
    pub fn compression_method(&self) -> (method: CompressionMethod)
        ensures
            method == self@.metadata.compression_method,
    {
        self.metadata.compression_method
    }

    /// Refuses the entry where its declared size meets or exceeds the
    /// ceiling.
    pub fn check_limit(&self, ceiling: Option<u64>) -> (outcome: Result<(), ZipParseError>)
        ensures
            outcome == if self@.over(spec_ceiling(ceiling)) {
                Err::<(), _>(self@.too_large())
            } else {
                Ok(())
            },
    {
        match ceiling {
            Some(most) => if self.metadata.uncompressed_size >= most {
                Err(ZipParseError::FileTooLarge(self.metadata.uncompressed_size))
            } else {
                Ok(())
            },
            None => Ok(()),
        }
    }

    /// What bytes copied into a sink end in: the failure of the copy, or a
    /// count of bytes that must equal the declared size.
    pub fn written(&self, copied: Result<u64, std::io::Error>) -> (outcome: Result<
        (),
        ZipParseError,
    >)
        ensures
            outcome == match copied {
                Ok(n) => CompressedZipFileView::counted(n as int, self@.declared_size()),
                Err(e) => Err(ZipParseError::IoError(e)),
            },
    {
        match copied {
            Ok(n) => if n != self.metadata.uncompressed_size {
                Err(ZipParseError::Generic(SHORT_WRITE))
            } else {
                Ok(())
            },
            Err(e) => Err(ZipParseError::IoError(e)),
        }
    }

    /// What a deflate stream read into the buffer `out` ends in: the
    /// decoder's failure, or the buffer.
    pub fn filled(filled: Result<(), std::io::Error>, out: Vec<u8>) -> (outcome: Result<
        Cow<'a, [u8]>,
        ZipParseError,
    >)
        ensures
            retrieved(outcome) == match filled {
                Ok(_) => Ok(out@),
                Err(e) => Err(ZipParseError::IoError(e)),
            },
            outcome.is_ok() ==> outcome matches Ok(Cow::Owned(_)),
    {
        match filled {
            Ok(_) => Ok(Cow::Owned(out)),
            Err(e) => Err(ZipParseError::IoError(e)),
        }
    }

    fn write_under(&self, w: &mut Vec<u8>, ceiling: Option<u64>) -> (outcome: Result<
        (),
        ZipParseError,
    >)
        ensures
            self@.streamed(spec_ceiling(ceiling), old(w)@, final(w)@, outcome),
    {
        self.check_limit(ceiling)?;

        match self.metadata.compression_method.name() {
            CompressionMethodName::Stored => {
                w.extend_from_slice(self.contents);
                assert(w@ =~= old(w)@ + self.contents@);
                self.written(Ok(self.contents.len() as u64))
            },
            CompressionMethodName::Deflate => {
                let copied = inflate_into(self.contents, w);
                self.written(copied)
            },
            _ => Err(ZipParseError::UnsupportedMethod(self.metadata.compression_method.0)),
        }
    }

    fn decompressed_under(&self, ceiling: Option<u64>) -> (outcome: Result<
        Cow<'a, [u8]>,
        ZipParseError,
    >)
        ensures
            self@.buffered(spec_ceiling(ceiling), retrieved(outcome)),
            uncopied(self@, outcome),
    {
        self.check_limit(ceiling)?;

        match self.metadata.compression_method.name() {
            CompressionMethodName::Stored => {
                if self.contents.len() as u64 != self.metadata.uncompressed_size {
                    return Err(ZipParseError::Generic(SHORT_WRITE));
                }
                Ok(Cow::Borrowed(self.contents))
            },
            CompressionMethodName::Deflate => {
                if self.metadata.uncompressed_size > usize::MAX as u64 {
                    return Err(ZipParseError::FileTooLarge(self.metadata.uncompressed_size));
                }
                let mut out: Vec<u8> = vec![0u8; self.metadata.uncompressed_size as usize];
                let filled = inflate_exact(self.contents, &mut out);
                Self::filled(filled, out)
            },
            _ => Err(ZipParseError::UnsupportedMethod(self.metadata.compression_method.0)),
        }
    }

    /// Decompresses the entry into `w` without holding all of its output
    /// at once, and checks that as many bytes came out as were declared.
    ///
    /// `limit` is the ceiling on the declared size; `None` sets none. With
    /// a high ceiling, or none, an archive built to that end can make the
    /// decoder produce far more than it was fed.
    pub fn write_with_limit(&self, w: &mut Vec<u8>, limit: Option<usize>) -> (outcome: Result<
        (),
        ZipParseError,
    >)
        ensures
            self@.streamed(spec_limit(limit), old(w)@, final(w)@, outcome),
    {
        self.write_under(w, ceiling_of(limit))
    }

    /// Decompresses the entry into `w` under the default ceiling of 8 GiB.
    pub fn write(&self, w: &mut Vec<u8>) -> (outcome: Result<(), ZipParseError>)
        ensures
            self@.streamed(Some(DEFAULT_LIMIT as int), old(w)@, final(w)@, outcome),
    {
        self.write_under(w, Some(DEFAULT_LIMIT))
    }

    /// Decompresses the whole entry into memory: exactly as many bytes as
    /// the entry declares. A stored entry is handed out as it lies in the
    /// archive, uncopied, and refused where it does not have that many.
    ///
    /// `limit` is the ceiling on the declared size; `None` sets none. With
    /// a high ceiling, or none, an archive built to that end can make the
    /// decoder produce far more than it was fed.
    pub fn decompressed_contents_with_limit(&self, limit: Option<usize>) -> (outcome: Result<
        Cow<'a, [u8]>,
        ZipParseError,
    >)
        ensures
            self@.buffered(spec_limit(limit), retrieved(outcome)),
            uncopied(self@, outcome),
    {
        self.decompressed_under(ceiling_of(limit))
    }

    /// Decompresses the whole entry into memory under the default ceiling
    /// of 8 GiB.
    pub fn decompressed_contents(&self) -> (outcome: Result<Cow<'a, [u8]>, ZipParseError>)
        ensures
            self@.buffered(Some(DEFAULT_LIMIT as int), retrieved(outcome)),
            uncopied(self@, outcome),
    {
        self.decompressed_under(Some(DEFAULT_LIMIT))
    }
}

/// A ceiling as a number without bound.
pub open spec fn spec_ceiling(ceiling: Option<u64>) -> Option<int> {
    match ceiling {
        Some(most) => Some(most as int),
        None => None,
    }
}

/// A caller's limit as a number without bound.
pub open spec fn spec_limit(limit: Option<usize>) -> Option<int> {
    match limit {
        Some(most) => Some(most as int),
        None => None,
    }
}

fn ceiling_of(limit: Option<usize>) -> (ceiling: Option<u64>)
    ensures
        spec_ceiling(ceiling) == spec_limit(limit),
{
    match limit {
        Some(most) => Some(most as u64),
        None => None,
    }
}

} // verus!
