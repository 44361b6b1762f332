//! A forward cursor over the buffer, and the decoders built on it.
//!
//! Every read either succeeds and moves the cursor past what it read, or
//! fails and leaves the cursor where the read began; a read that is given
//! an offset begins there. The buffer itself is never changed.

use vstd::prelude::*;
use vstd::slice::slice_subrange;

use crate::common::{
    CompressionMethod, DateTimeModified, ExternalAttributes, InternalAttributes, Os, ZipFlags,
    CENTRAL_DIRECTORY_FILE_SIGNATURE, END_CENTRAL_DIRECTORY_SIGNATURE, LOCAL_FILE_SIGNATURE,
};
use crate::error::ZipParseError;
use crate::file::CompressedZipFile;
use crate::layout::{
    and_then_rest, descriptor_len, directory_stop, end_record_stop, entry_end, entry_len,
    has_end_record, header_len, holds, is_end_record, is_last_end_record, last_end_record, le_u16,
    le_u32, metadata_stop, read_archive, read_descriptor, read_directory, read_directory_entry,
    read_end_record, read_file, read_header, read_metadata, tag_failure, tagged, DESCRIPTOR_MAGIC,
    ENTRY_FIXED_LEN, HEADER_FIXED_LEN,
};
use crate::records::{
    header_views, headers_read, viewed, CentralDirectory, CentralDirectoryFileHeader,
    DataDescriptor, EndCentralDirectory, Metadata,
};
use crate::search::{lemma_tagged_occurs, lemma_tagged_prefix, occurs_at, rfind};

verus! {

/// A read position over a borrowed buffer.
#[derive(Debug)]
pub struct Parser<'a> {
    buffer: &'a [u8],
    cursor: usize,
}

/// The value of a [`Parser`]: the bytes it reads and the offset of the next
/// byte to be read, which may lie past the end of the buffer.
pub ghost struct ParserView {
    pub bytes: Seq<u8>,
    pub at: int,
}

impl ParserView {
    /// Whether at least `n` bytes are left to read.
    pub open spec fn holds(self, n: int) -> bool {
        holds(self.bytes, self.at, n)
    }

    /// This parser after `n` bytes were read.
    pub open spec fn moved(self, n: int) -> ParserView {
        ParserView { at: self.at + n, ..self }
    }

    /// This parser with the cursor set to `at`.
    pub open spec fn moved_to(self, at: int) -> ParserView {
        ParserView { at, ..self }
    }
}

impl<'a> View for Parser<'a> {
    type V = ParserView;

    closed spec fn view(&self) -> ParserView {
        ParserView { bytes: self.buffer@, at: self.cursor as int }
    }
}

/// The bytes of a slice that a read returned, or the read's failure.
pub open spec fn bytes_read(r: Result<&[u8], ZipParseError>) -> Result<Seq<u8>, ZipParseError> {
    match r {
        Ok(slice) => Ok(slice@),
        Err(e) => Err(e),
    }
}

impl<'a> Parser<'a> {
    /// A parser at the start of `buffer`.
    pub fn new(buffer: &'a [u8]) -> (parser: Self)
        ensures
            parser@ == (ParserView { bytes: buffer@, at: 0 }),
    {
        Self { buffer, cursor: 0 }
    }

    /// Sets the cursor to `offset`, which may lie anywhere: a read from
    /// past the end fails.
    pub fn seek(&mut self, offset: usize)
        ensures
            final(self)@ == old(self)@.moved_to(offset as int),
    {
        self.cursor = offset;
    }

    /// Whether at least `n` bytes are left to read.
    pub fn has(&self, n: usize) -> (enough: bool)
        ensures
            enough == self@.holds(n as int),
            enough ==> self@.at + n <= usize::MAX,
    {
        self.cursor <= self.buffer.len() && n <= self.buffer.len() - self.cursor
    }

    /// Reads one byte, if one is left.
    pub fn _read_byte(&mut self) -> (byte: Option<u8>)
        ensures
            old(self)@.holds(1) ==> byte == Some(old(self)@.bytes[old(self)@.at]) && final(self)@
                == old(self)@.moved(1),
            !old(self)@.holds(1) ==> byte.is_none() && final(self)@ == old(self)@,
    {
        if self.cursor < self.buffer.len() {
            let b = self.buffer[self.cursor];
            self.cursor += 1;
            Some(b)
        } else {
            None
        }
    }

    /// Reads a little-endian `u32`, if four bytes are left.
    pub fn skip_u32(&mut self) -> (value: Option<u32>)
        ensures
            old(self)@.holds(4) ==> value == Some(le_u32(old(self)@.bytes, old(self)@.at))
                && final(self)@ == old(self)@.moved(4),
            !old(self)@.holds(4) ==> value.is_none() && final(self)@ == old(self)@,
    {
        match self.read_u32() {
            Ok(value) => Some(value),
            Err(_) => None,
        }
    }

    /// Reads one byte.
    pub fn read_byte(&mut self) -> (byte: Result<u8, ZipParseError>)
        ensures
            old(self)@.holds(1) ==> byte == Ok::<u8, ZipParseError>(
                old(self)@.bytes[old(self)@.at],
            ) && final(self)@ == old(self)@.moved(1),
            !old(self)@.holds(1) ==> byte == Err::<u8, ZipParseError>(ZipParseError::UnexpectedEof)
                && final(self)@ == old(self)@,
    {
        match self._read_byte() {
            Some(b) => Ok(b),
            None => Err(ZipParseError::UnexpectedEof),
        }
    }

    /// Reads a little-endian `u16`.
    pub fn read_u16(&mut self) -> (value: Result<u16, ZipParseError>)
        ensures
            old(self)@.holds(2) ==> value == Ok::<u16, ZipParseError>(
                le_u16(old(self)@.bytes, old(self)@.at),
            ) && final(self)@ == old(self)@.moved(2),
            !old(self)@.holds(2) ==> value == Err::<u16, ZipParseError>(
                ZipParseError::UnexpectedEof,
            ) && final(self)@ == old(self)@,
    {
        if !self.has(2) {
            return Err(ZipParseError::UnexpectedEof);
        }
        let b1 = self.read_byte()?;
        let b2 = self.read_byte()?;
        Ok(b1 as u16 + 256 * (b2 as u16))
    }

    /// Reads a little-endian `u32`.
    pub fn read_u32(&mut self) -> (value: Result<u32, ZipParseError>)
        ensures
            old(self)@.holds(4) ==> value == Ok::<u32, ZipParseError>(
                le_u32(old(self)@.bytes, old(self)@.at),
            ) && final(self)@ == old(self)@.moved(4),
            !old(self)@.holds(4) ==> value == Err::<u32, ZipParseError>(
                ZipParseError::UnexpectedEof,
            ) && final(self)@ == old(self)@,
    {
        if !self.has(4) {
            return Err(ZipParseError::UnexpectedEof);
        }
        let b1 = self.read_byte()?;
        let b2 = self.read_byte()?;
        let b3 = self.read_byte()?;
        let b4 = self.read_byte()?;
        Ok(b1 as u32 + 256 * (b2 as u32) + 65536 * (b3 as u32) + 16777216 * (b4 as u32))
    }

    /// Consumes the next four bytes if they are `signature`; else leaves
    /// them.
    pub fn read_signature(&mut self, signature: [u8; 4]) -> (found: bool)
        ensures
            found == tagged(old(self)@.bytes, old(self)@.at, signature),
            found ==> final(self)@ == old(self)@.moved(4),
            !found ==> final(self)@ == old(self)@,
    {
        if !self.has(4) {
            return false;
        }
        let b1 = self.buffer[self.cursor];
        let b2 = self.buffer[self.cursor + 1];
        let b3 = self.buffer[self.cursor + 2];
        let b4 = self.buffer[self.cursor + 3];
        if b1 == signature[0] && b2 == signature[1] && b3 == signature[2] && b4 == signature[3] {
            self.skip_u32();
            true
        } else {
            false
        }
    }

    /// Consumes the next four bytes if they are `expected`; else fails:
    /// with the bytes found where four are left, with the end of the buffer
    /// where they are not.
    pub fn expect_signature(&mut self, expected: [u8; 4]) -> (outcome: Result<(), ZipParseError>)
        ensures
            match tag_failure(old(self)@.bytes, old(self)@.at, expected) {
                None => outcome == Ok::<(), ZipParseError>(()) && final(self)@ == old(
                    self,
                )@.moved(4),
                Some(e) => outcome == Err::<(), ZipParseError>(e) && final(self)@ == old(self)@,
            },
    {
        if !self.has(4) {
            return Err(ZipParseError::UnexpectedEof);
        }
        let b1 = self.buffer[self.cursor];
        let b2 = self.buffer[self.cursor + 1];
        let b3 = self.buffer[self.cursor + 2];
        let b4 = self.buffer[self.cursor + 3];
        if b1 == expected[0] && b2 == expected[1] && b3 == expected[2] && b4 == expected[3] {
            self.skip_u32();
            Ok(())
        } else {
            Err(ZipParseError::MalformedSignature { found: [b1, b2, b3, b4], expected })
        }
    }

    /// Hands out the next `len` bytes without copying them.
    pub fn get_byte_range(&mut self, len: usize) -> (range: Result<&'a [u8], ZipParseError>)
        ensures
            old(self)@.holds(len as int) ==> bytes_read(range) == Ok::<Seq<u8>, ZipParseError>(
                old(self)@.bytes.subrange(old(self)@.at, old(self)@.at + len),
            ) && final(self)@ == old(self)@.moved(len as int),
            !old(self)@.holds(len as int) ==> bytes_read(range) == Err::<Seq<u8>, ZipParseError>(
                ZipParseError::UnexpectedEof,
            ) && final(self)@ == old(self)@,
    {
        if !self.has(len) {
            return Err(ZipParseError::UnexpectedEof);
        }
        let start = self.cursor;
        self.cursor += len;
        Ok(slice_subrange(self.buffer, start, self.cursor))
    }

    /// Reads the end-of-central-directory record at `offset` and skips its
    /// comment, as far as the buffer holds it.
    pub fn read_end_central_directory(&mut self, offset: usize) -> (record: Result<
        EndCentralDirectory,
        ZipParseError,
    >)
        ensures
            record == read_end_record(old(self)@.bytes, offset as int),
            record.is_ok() ==> final(self)@ == old(self)@.moved_to(
                end_record_stop(old(self)@.bytes, offset as int),
            ),
            record.is_err() ==> final(self)@ == old(self)@.moved_to(offset as int),
    {
        self.cursor = offset;
        self.expect_signature(END_CENTRAL_DIRECTORY_SIGNATURE)?;
        if !self.has(18) {
            self.cursor = offset;
            return Err(ZipParseError::UnexpectedEof);
        }
        let disk_num = self.read_u16()?;
        let disk_central_dir_num = self.read_u16()?;
        let disk_entires = self.read_u16()?;
        let total_entires = self.read_u16()?;
        let central_dir_size = self.read_u32()?;
        let central_dir_offset = self.read_u32()?;
        let comment_len = self.read_u16()?;

        if self.has(comment_len as usize) {
            self.cursor += comment_len as usize;
        } else {
            self.cursor = self.buffer.len();
        }

        Ok(
            EndCentralDirectory {
                disk_num,
                disk_central_dir_num,
                disk_entires,
                total_entires,
                central_dir_size,
                central_dir_offset,
            },
        )
    }

    /// Reads the directory entry whose fields start at the cursor, behind
    /// its signature.
    pub fn read_directory_entry(&mut self) -> (header: Result<
        CentralDirectoryFileHeader<'a>,
        ZipParseError,
    >)
        ensures
            viewed(header) == read_directory_entry(old(self)@.bytes, old(self)@.at),
            header.is_ok() ==> final(self)@ == old(self)@.moved(
                entry_len(old(self)@.bytes, old(self)@.at),
            ),
            header.is_err() ==> final(self)@ == old(self)@,
    {
        let start = self.cursor;
        if !self.has(ENTRY_FIXED_LEN) {
            return Err(ZipParseError::UnexpectedEof);
        }
        let os = Os(self.read_byte()?);
        let zip_specification_version = self.read_byte()?;
        let version_needed = self.read_u16()?;
        let bit_flags = ZipFlags(self.read_u16()?);
        let compression_method = CompressionMethod(self.read_u16()?);
        let date_time_modified = DateTimeModified::from_u32(self.read_u32()?);
        let crc = self.read_u32()?;
        let compressed_size = self.read_u32()? as u64;
        let uncompressed_size = self.read_u32()? as u64;
        let file_name_len = self.read_u16()? as usize;
        let extra_field_len = self.read_u16()? as usize;
        let comment_len = self.read_u16()? as usize;
        let disk_num_start = self.read_u16()?;
        let internal_attributes = InternalAttributes(self.read_u16()?);
        let external_attributes = ExternalAttributes(self.read_u32()?);
        let local_header_offset = self.read_u32()?;

        if !self.has(file_name_len + extra_field_len + comment_len) {
            self.cursor = start;
            return Err(ZipParseError::UnexpectedEof);
        }
        let file_name = self.get_byte_range(file_name_len)?;
        let extra_field = self.get_byte_range(extra_field_len)?;
        let comment = self.get_byte_range(comment_len)?;

        let metadata = Metadata {
            version_needed,
            compression_method,
            date_time_modified,
            flags: bit_flags,
            name: file_name,
            extra_field,
            crc,
            compressed_size,
            uncompressed_size,
        };

        Ok(
            CentralDirectoryFileHeader {
                os,
                metadata,
                internal_attributes,
                external_attributes,
                disk_num_start,
                zip_specification_version,
                local_header_offset,
                comment,
            },
        )
    }

    /// Walks the central directory from `offset`: decodes entry after entry
    /// for as long as the entry signature recurs.
    pub fn read_central_directory_file_headers(&mut self, offset: usize) -> (headers: Result<
        Vec<CentralDirectoryFileHeader<'a>>,
        ZipParseError,
    >)
        ensures
            headers_read(headers) == read_directory(old(self)@.bytes, offset as int),
            headers.is_ok() ==> final(self)@ == old(self)@.moved_to(
                directory_stop(old(self)@.bytes, offset as int),
            ),
            headers.is_err() ==> final(self)@ == old(self)@.moved_to(offset as int),
    {
        self.cursor = offset;
        let ghost buf = self@.bytes;
        let mut headers: Vec<CentralDirectoryFileHeader<'a>> = Vec::new();

        loop
            invariant
                self@.bytes == buf,
                old(self)@.bytes == buf,
                read_directory(buf, offset as int) == and_then_rest(
                    header_views(headers@),
                    read_directory(buf, self@.at),
                ),
                directory_stop(buf, offset as int) == directory_stop(buf, self@.at),
            ensures
                self@.bytes == buf,
                read_directory(buf, offset as int) == Ok::<_, ZipParseError>(
                    header_views(headers@),
                ),
                self@.at == directory_stop(buf, offset as int),
            decreases buf.len() - self@.at,
        {
            let ghost at = self@.at;
            let ghost before = header_views(headers@);
            if !self.read_signature(CENTRAL_DIRECTORY_FILE_SIGNATURE) {
                assert(before + Seq::empty() =~= before);
                break ;
            }
            let header = match self.read_directory_entry() {
                Ok(header) => header,
                Err(e) => {
                    self.cursor = offset;
                    return Err(e);
                },
            };
            proof {
                assert(self@.at == entry_end(buf, at));
                assert(header_views(headers@.push(header)) =~= before.push(header@));
                match read_directory(buf, self@.at) {
                    Ok(tail) => {
                        assert(before + (seq![header@] + tail) =~= before.push(header@) + tail);
                    },
                    Err(_) => {},
                }
            }
            headers.push(header);
        }

        Ok(headers)
    }

    /// Reads a data descriptor: checksum and sizes, behind the descriptor's
    /// signature where the first four bytes spell it.
    pub fn read_data_descriptor(&mut self) -> (descriptor: Result<DataDescriptor, ZipParseError>)
        ensures
            descriptor == read_descriptor(old(self)@.bytes, old(self)@.at),
            descriptor.is_ok() ==> final(self)@ == old(self)@.moved(
                descriptor_len(old(self)@.bytes, old(self)@.at),
            ),
            descriptor.is_err() ==> final(self)@ == old(self)@,
    {
        let start = self.cursor;
        let first = self.read_u32()?;
        let fields: usize = if first == DESCRIPTOR_MAGIC {
            12
        } else {
            8
        };
        if !self.has(fields) {
            self.cursor = start;
            return Err(ZipParseError::UnexpectedEof);
        }
        let crc = if first == DESCRIPTOR_MAGIC {
            self.read_u32()?
        } else {
            first
        };
        let compressed_size = self.read_u32()? as u64;
        let uncompressed_size = self.read_u32()? as u64;

        Ok(DataDescriptor { crc, compressed_size, uncompressed_size })
    }

    /// How many bytes of name and extra field follow the fixed fields of
    /// the local header at the cursor. Reads nothing.
    pub fn header_rest(&self) -> (rest: Result<usize, ZipParseError>)
        ensures
            rest == if self@.holds(HEADER_FIXED_LEN as int) {
                Ok::<usize, ZipParseError>(
                    (header_len(self@.bytes, self@.at) - HEADER_FIXED_LEN) as usize,
                )
            } else {
                Err(ZipParseError::UnexpectedEof)
            },
    {
        if !self.has(HEADER_FIXED_LEN) {
            return Err(ZipParseError::UnexpectedEof);
        }
        let mut lengths = Parser { buffer: self.buffer, cursor: self.cursor + 22 };
        let file_name_len = lengths.read_u16()? as usize;
        let extra_field_len = lengths.read_u16()? as usize;
        Ok(file_name_len + extra_field_len)
    }

    /// How many bytes of name, extra field and comment follow the fixed
    /// fields of the directory entry at the cursor. Reads nothing.
    pub fn entry_rest(&self) -> (rest: Result<usize, ZipParseError>)
        ensures
            rest == if self@.holds(ENTRY_FIXED_LEN as int) {
                Ok::<usize, ZipParseError>(
                    (entry_len(self@.bytes, self@.at) - ENTRY_FIXED_LEN) as usize,
                )
            } else {
                Err(ZipParseError::UnexpectedEof)
            },
    {
        if !self.has(ENTRY_FIXED_LEN) {
            return Err(ZipParseError::UnexpectedEof);
        }
        let mut lengths = Parser { buffer: self.buffer, cursor: self.cursor + 24 };
        let file_name_len = lengths.read_u16()? as usize;
        let extra_field_len = lengths.read_u16()? as usize;
        let comment_len = lengths.read_u16()? as usize;
        Ok(file_name_len + extra_field_len + comment_len)
    }

    /// How many bytes of the data descriptor at the cursor follow its first
    /// four: twelve where those spell the descriptor's signature, eight
    /// where they are the checksum already. Reads nothing.
    pub fn descriptor_rest(&self) -> (rest: Result<usize, ZipParseError>)
        ensures
            rest == if self@.holds(4) {
                Ok::<usize, ZipParseError>((descriptor_len(self@.bytes, self@.at) - 4) as usize)
            } else {
                Err(ZipParseError::UnexpectedEof)
            },
    {
        let mut first = Parser { buffer: self.buffer, cursor: self.cursor };
        if first.read_u32()? == DESCRIPTOR_MAGIC {
            Ok(12)
        } else {
            Ok(8)
        }
    }

    /// Reads the local header whose fields start at the cursor, as it
    /// stands: where a data descriptor is announced, what is read is
    /// provisional.
    pub fn read_header(&mut self) -> (header: Result<Metadata<'a>, ZipParseError>)
        ensures
            viewed(header) == read_header(old(self)@.bytes, old(self)@.at),
            header.is_ok() ==> final(self)@ == old(self)@.moved(
                header_len(old(self)@.bytes, old(self)@.at),
            ),
            header.is_err() ==> final(self)@ == old(self)@,
    {
        let start = self.cursor;
        if !self.has(HEADER_FIXED_LEN) {
            return Err(ZipParseError::UnexpectedEof);
        }
        let version_needed = self.read_u16()?;
        let flags = ZipFlags(self.read_u16()?);
        let compression_method = CompressionMethod(self.read_u16()?);
        let last_mod_date_time = DateTimeModified::from_u32(self.read_u32()?);
        let crc = self.read_u32()?;
        let compressed_size = self.read_u32()? as u64;
        let uncompressed_size = self.read_u32()? as u64;
        let file_name_len = self.read_u16()? as usize;
        let extra_field_len = self.read_u16()? as usize;

        if !self.has(file_name_len + extra_field_len) {
            self.cursor = start;
            return Err(ZipParseError::UnexpectedEof);
        }
        let file_name = self.get_byte_range(file_name_len)?;
        let extra_field = self.get_byte_range(extra_field_len)?;

        Ok(
            Metadata {
                version_needed,
                compression_method,
                date_time_modified: last_mod_date_time,
                flags,
                name: file_name,
                extra_field,
                crc,
                compressed_size,
                uncompressed_size,
            },
        )
    }

    /// Reads the metadata of the entry whose local header fields start at
    /// the cursor.
    ///
    /// Where the flags announce a data descriptor, it is read behind as
    /// many bytes of data as the header declares, its checksum and sizes
    /// replace the header's, and the cursor is left behind it. Where they
    /// announce none, the cursor is left behind the header, at the entry's
    /// data.
    pub fn read_metadata(&mut self) -> (metadata: Result<Metadata<'a>, ZipParseError>)
        ensures
            viewed(metadata) == read_metadata(old(self)@.bytes, old(self)@.at),
            metadata.is_ok() ==> final(self)@ == old(self)@.moved_to(
                metadata_stop(old(self)@.bytes, old(self)@.at),
            ),
            metadata.is_err() ==> final(self)@ == old(self)@,
    {
        let start = self.cursor;
        let provisional = self.read_header()?;
        if !provisional.flags.has_data_descriptor() {
            return Ok(provisional);
        }
        match self.get_byte_range(provisional.compressed_size as usize) {
            Ok(_) => {},
            Err(e) => {
                self.cursor = start;
                return Err(e);
            },
        }
        match self.read_data_descriptor() {
            Ok(descriptor) => Ok(provisional.corrected(&descriptor)),
            Err(e) => {
                self.cursor = start;
                Err(e)
            },
        }
    }

    /// Reads the entry that a directory entry points at: demands the local
    /// header's signature at the offset it gives, reads the metadata behind
    /// it, goes back to where the header ends, and hands out the bytes from
    /// there on as the entry's, as many as the metadata gives for the
    /// compressed size. The cursor is left behind those bytes.
    pub fn read_file(&mut self, central_directory_header: &CentralDirectoryFileHeader) -> (file:
        Result<CompressedZipFile<'a>, ZipParseError>)
        ensures
            viewed(file) == read_file(
                old(self)@.bytes,
                central_directory_header.local_header_offset as int,
            ),
            file matches Ok(f) ==> final(self)@ == old(self)@.moved_to(
                central_directory_header.local_header_offset + 4 + header_len(
                    old(self)@.bytes,
                    central_directory_header.local_header_offset + 4,
                ) + f@.contents.len(),
            ),
            file.is_err() ==> final(self)@ == old(self)@.moved_to(
                central_directory_header.local_header_offset as int,
            ),
    {
        let offset = central_directory_header.local_header_offset as usize;
        self.cursor = offset;

        self.expect_signature(LOCAL_FILE_SIGNATURE)?;

        let fields = self.cursor;
        let rest = match self.header_rest() {
            Ok(rest) => rest,
            Err(e) => {
                self.cursor = offset;
                return Err(e);
            },
        };
        let metadata = match self.read_metadata() {
            Ok(metadata) => metadata,
            Err(e) => {
                self.cursor = offset;
                return Err(e);
            },
        };
        self.cursor = fields + HEADER_FIXED_LEN + rest;
        let contents = match self.get_byte_range(metadata.compressed_size as usize) {
            Ok(contents) => contents,
            Err(e) => {
                self.cursor = offset;
                return Err(e);
            },
        };

        Ok(CompressedZipFile::new(metadata, contents))
    }

    /// Builds the archive's index: finds the end record nearest the end of
    /// the buffer, then walks the directory from the offset that it names.
    ///
    /// The end signature is searched backwards. A place where it occurs
    /// without a whole end record behind it is passed over, and the search
    /// goes on before it.
    pub fn parse_central_directory(&mut self) -> (directory: Result<
        CentralDirectory<'a>,
        ZipParseError,
    >)
        ensures
            viewed(directory) == read_archive(old(self)@.bytes),
            directory matches Ok(d) ==> final(self)@ == old(self)@.moved_to(
                directory_stop(old(self)@.bytes, d.end.central_dir_offset as int),
            ),
            directory.is_err() ==> final(self)@ == old(self)@,
    {
        let start = self.cursor;
        let ghost buf = self@.bytes;
        let mut end = self.buffer.len();

        loop
            invariant
                self@ == old(self)@,
                buf == self@.bytes,
                start == self.cursor,
                end <= buf.len(),
                forall|at: int| is_end_record(buf, at) ==> at + 4 <= end,
            decreases end,
        {
            let searched = slice_subrange(self.buffer, 0, end);
            let found = rfind(searched, END_CENTRAL_DIRECTORY_SIGNATURE.as_slice());
            proof {
                let tag = END_CENTRAL_DIRECTORY_SIGNATURE;
                assert forall|at: int| tagged(buf, at, tag) && at + 4 <= end implies occurs_at(
                    searched@,
                    tag@,
                    at,
                ) by {
                    lemma_tagged_prefix(buf, end as int, at, tag);
                    lemma_tagged_occurs(searched@, at, tag);
                }
            }
            let offset = match found {
                Some(offset) => offset,
                None => {
                    return Err(ZipParseError::MissingCentralDirectory);
                },
            };
            proof {
                let tag = END_CENTRAL_DIRECTORY_SIGNATURE;
                lemma_tagged_occurs(searched@, offset as int, tag);
                lemma_tagged_prefix(buf, end as int, offset as int, tag);
            }
            match self.read_end_central_directory(offset) {
                Ok(record) => {
                    proof {
                        assert(is_last_end_record(buf, offset as int));
                        lemma_last_end_record(buf, offset as int);
                    }
                    return match self.read_central_directory_file_headers(
                        record.central_dir_offset as usize,
                    ) {
                        Ok(files) => Ok(CentralDirectory { files, end: record }),
                        Err(e) => {
                            self.cursor = start;
                            Err(e)
                        },
                    };
                },
                Err(_) => {
                    proof {
                        assert forall|at: int| is_end_record(buf, at) implies at + 4 <= offset by {
                            lemma_signatures_apart(
                                buf,
                                at,
                                offset as int,
                                END_CENTRAL_DIRECTORY_SIGNATURE,
                            );
                        }
                    }
                    self.cursor = start;
                    end = offset;
                },
            }
        }
    }
}

/// The end record nearest the end of the buffer is found at one offset only.
pub proof fn lemma_last_end_record(buf: Seq<u8>, at: int)
    requires
        is_last_end_record(buf, at),
    ensures
        last_end_record(buf) == at,
        has_end_record(buf),
{
    let chosen = last_end_record(buf);
    assert(is_last_end_record(buf, chosen));
    if chosen < at {
        assert(!is_end_record(buf, at));
    }
    if at < chosen {
        assert(!is_end_record(buf, chosen));
    }
}

/// A signature whose first byte does not recur in it cannot overlap itself:
/// of two places where it lies, the later starts behind the earlier's end.
pub proof fn lemma_signatures_apart(buf: Seq<u8>, first: int, second: int, tag: [u8; 4])
    requires
        tagged(buf, first, tag),
        tagged(buf, second, tag),
        first < second,
        tag[0] != tag[1],
        tag[0] != tag[2],
        tag[0] != tag[3],
    ensures
        first + 4 <= second,
{
}

} // verus!
