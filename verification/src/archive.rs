//! The archive: a buffer, and the index built from it once.

use vstd::prelude::*;

use crate::error::ZipParseError;
use crate::file::CompressedZipFile;
use crate::layout::{read_archive, read_file};
use crate::parse::Parser;
use crate::records::{viewed, CentralDirectory, CentralDirectoryView};

verus! {

/// An entire ZIP archive, opened over a borrowed buffer.
///
/// The buffer outlives the archive and every record taken from it, and is
/// never written to.
#[derive(Debug)]
pub struct ZipArchive<'a> {
    pub central_directory: CentralDirectory<'a>,
    parser: Parser<'a>,
}

/// The value of a [`ZipArchive`]: the bytes it was opened over, and its
/// index.
pub ghost struct ZipArchiveView {
    pub bytes: Seq<u8>,
    pub directory: CentralDirectoryView,
}

impl<'a> View for ZipArchive<'a> {
    type V = ZipArchiveView;

    closed spec fn view(&self) -> ZipArchiveView {
        ZipArchiveView { bytes: self.parser@.bytes, directory: self.central_directory@ }
    }
}

/// What opening an archive over `buf` is owed: the index that the bytes
/// spell, beside the bytes.
pub open spec fn open_archive(buf: Seq<u8>) -> Result<ZipArchiveView, ZipParseError> {
    match read_archive(buf) {
        Ok(directory) => Ok(ZipArchiveView { bytes: buf, directory }),
        Err(e) => Err(e),
    }
}

impl ZipArchiveView {
    /// Whether the index is the one that the bytes spell. It is when the
    /// archive is opened, and stays, as no method replaces it.
    pub open spec fn well_formed(self) -> bool {
        read_archive(self.bytes) == Ok::<_, ZipParseError>(self.directory)
    }

    /// What looking up the entry at `index` of the directory is owed.
    pub open spec fn entry(self, index: int) -> Result<
        crate::file::CompressedZipFileView,
        ZipParseError,
    > {
        read_file(self.bytes, self.directory.files[index].local_header_offset as int)
    }
}

impl<'a> ZipArchive<'a> {
    /// Opens the archive that `buffer` holds: locates the end record and
    /// decodes the central directory, once.
    pub fn from_buffer(buffer: &'a [u8]) -> (archive: Result<Self, ZipParseError>)
        ensures
            viewed(archive) == open_archive(buffer@),
            archive matches Ok(a) ==> a@.well_formed(),
    {
        let mut parser = Parser::new(buffer);

        let central_directory = parser.parse_central_directory()?;

        Ok(ZipArchive { central_directory, parser })
    }

    /// The archive's index.
    pub fn directory(&self) -> (directory: &CentralDirectory<'a>)
        ensures
            directory@ == self@.directory,
    {
        &self.central_directory
    }

    /// Looks up one entry of the directory through its local header. The
    /// entry is read at the call, not before; there is no entry at an index
    /// that the directory does not have.
    pub fn file(&mut self, index: usize) -> (file: Option<
        Result<CompressedZipFile<'a>, ZipParseError>,
    >)
        ensures
            final(self)@ == old(self)@,
            index >= old(self)@.directory.files.len() ==> file.is_none(),
            index < old(self)@.directory.files.len() ==> (file matches Some(f) && viewed(f) == old(
                self,
            )@.entry(index as int)),
    {
        if index < self.central_directory.files.len() {
            Some(self.parser.read_file(&self.central_directory.files[index]))
        } else {
            None
        }
    }

    /// Looks up every entry of the directory, in directory order. An entry
    /// that cannot be read does not keep the others from being read.
    pub fn files(&mut self) -> (files: Vec<Result<CompressedZipFile<'a>, ZipParseError>>)
        ensures
            final(self)@ == old(self)@,
            files@.len() == old(self)@.directory.files.len(),
            forall|i: int|
                0 <= i < files@.len() ==> viewed(#[trigger] files@[i]) == old(self)@.entry(i),
    {
        let mut files: Vec<Result<CompressedZipFile<'a>, ZipParseError>> = Vec::new();
        let count = self.central_directory.files.len();
        let mut index: usize = 0;

        while index < count
            invariant
                self@ == old(self)@,
                count == self@.directory.files.len(),
                index <= count,
                files@.len() == index,
                forall|i: int|
                    0 <= i < index ==> viewed(#[trigger] files@[i]) == old(self)@.entry(i),
            decreases count - index,
        {
            let file = self.parser.read_file(&self.central_directory.files[index]);
            files.push(file);
            index += 1;
        }

        files
    }
}

} // verus!
