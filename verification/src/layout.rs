//! The ZIP record layouts, as functions of a byte sequence.
//!
//! Each record is described by where its fields lie from the offset at which
//! it starts, and each read by the result it is owed: the record's value, or
//! the failure that the bytes force. All integers are little-endian.

use vstd::prelude::*;

use crate::common::{
    CompressionMethod, DateTimeModified, ExternalAttributes, InternalAttributes, Os, ZipFlags,
    CENTRAL_DIRECTORY_FILE_SIGNATURE, DATA_DESCRIPTOR_SIGNATURE, END_CENTRAL_DIRECTORY_SIGNATURE,
    LOCAL_FILE_SIGNATURE,
};
use crate::error::ZipParseError;
use crate::file::CompressedZipFileView;
use crate::records::{
    CentralDirectoryFileHeaderView, CentralDirectoryView, DataDescriptor, EndCentralDirectory,
    MetadataView,
};

verus! {

/// Bytes of an end record before its comment, signature included.
pub const END_RECORD_LEN: usize = 22;

/// Bytes of a central directory entry between its signature and its name.
pub const ENTRY_FIXED_LEN: usize = 42;

/// Bytes of a local header between its signature and its name.
pub const HEADER_FIXED_LEN: usize = 26;

/// The number that the data descriptor's optional signature `50 4b 07 08`
/// spells.
pub const DESCRIPTOR_MAGIC: u32 = 0x08074b50;

/// The descriptor's signature as a number is what
/// [`DATA_DESCRIPTOR_SIGNATURE`] spells, most significant byte first.
pub proof fn lemma_descriptor_magic()
    ensures
        DESCRIPTOR_MAGIC == 16777216 * DATA_DESCRIPTOR_SIGNATURE[0] + 65536
            * DATA_DESCRIPTOR_SIGNATURE[1] + 256 * DATA_DESCRIPTOR_SIGNATURE[2]
            + DATA_DESCRIPTOR_SIGNATURE[3],
{
}

/// The two bytes at `at`, as a number.
pub open spec fn le_u16(buf: Seq<u8>, at: int) -> u16 {
    (buf[at] as int + 256 * (buf[at + 1] as int)) as u16
}

/// The four bytes at `at`, as a number.
pub open spec fn le_u32(buf: Seq<u8>, at: int) -> u32 {
    (buf[at] as int + 256 * (buf[at + 1] as int) + 65536 * (buf[at + 2] as int) + 16777216 * (
    buf[at + 3] as int)) as u32
}

/// Whether at least `n` bytes lie at `at`.
pub open spec fn holds(buf: Seq<u8>, at: int, n: int) -> bool {
    0 <= at && at + n <= buf.len()
}

/// The four bytes at `at`.
pub open spec fn tag_at(buf: Seq<u8>, at: int) -> [u8; 4] {
    [buf[at], buf[at + 1], buf[at + 2], buf[at + 3]]
}

/// Whether the four bytes at `at` are there and equal `tag`.
pub open spec fn tagged(buf: Seq<u8>, at: int, tag: [u8; 4]) -> bool {
    &&& holds(buf, at, 4)
    &&& buf[at] == tag[0]
    &&& buf[at + 1] == tag[1]
    &&& buf[at + 2] == tag[2]
    &&& buf[at + 3] == tag[3]
}

/// What demanding the signature `tag` at `at` ends in, where it fails:
/// in the end of the buffer where fewer than four bytes lie there, else in
/// a mismatch that holds the four bytes found.
pub open spec fn tag_failure(buf: Seq<u8>, at: int, tag: [u8; 4]) -> Option<ZipParseError> {
    if !holds(buf, at, 4) {
        Some(ZipParseError::UnexpectedEof)
    } else if !tagged(buf, at, tag) {
        Some(ZipParseError::MalformedSignature { found: tag_at(buf, at), expected: tag })
    } else {
        None
    }
}

// ---------------------------------------------------------------------------
// End-of-central-directory record
// ---------------------------------------------------------------------------

/// The end record whose signature lies at `at`.
pub open spec fn end_record_at(buf: Seq<u8>, at: int) -> EndCentralDirectory {
    EndCentralDirectory {
        disk_num: le_u16(buf, at + 4),
        disk_central_dir_num: le_u16(buf, at + 6),
        disk_entires: le_u16(buf, at + 8),
        total_entires: le_u16(buf, at + 10),
        central_dir_size: le_u32(buf, at + 12),
        central_dir_offset: le_u32(buf, at + 16),
    }
}

/// Length of the comment that the end record at `at` declares.
pub open spec fn end_comment_len(buf: Seq<u8>, at: int) -> int {
    le_u16(buf, at + 20) as int
}

/// What reading an end record at `at` is owed. The comment is not part of
/// the demand: a record whose comment the buffer cuts short is still read.
pub open spec fn read_end_record(buf: Seq<u8>, at: int) -> Result<
    EndCentralDirectory,
    ZipParseError,
> {
    match tag_failure(buf, at, END_CENTRAL_DIRECTORY_SIGNATURE) {
        Some(e) => Err(e),
        None => if holds(buf, at, END_RECORD_LEN as int) {
            Ok(end_record_at(buf, at))
        } else {
            Err(ZipParseError::UnexpectedEof)
        },
    }
}

/// Where the end record at `at` stops: behind its comment, or at the end of
/// the buffer where that cuts the comment short.
pub open spec fn end_record_stop(buf: Seq<u8>, at: int) -> int {
    let stop = at + END_RECORD_LEN as int + end_comment_len(buf, at);
    if stop <= buf.len() {
        stop
    } else {
        buf.len() as int
    }
}

/// Whether a complete end record starts at `at`.
pub open spec fn is_end_record(buf: Seq<u8>, at: int) -> bool {
    tagged(buf, at, END_CENTRAL_DIRECTORY_SIGNATURE) && holds(buf, at, END_RECORD_LEN as int)
}

/// Whether the buffer holds a complete end record anywhere.
pub open spec fn has_end_record(buf: Seq<u8>) -> bool {
    exists|at: int| is_end_record(buf, at)
}

/// Whether `at` is where the end record nearest the end of the buffer
/// starts.
pub open spec fn is_last_end_record(buf: Seq<u8>, at: int) -> bool {
    is_end_record(buf, at) && forall|later: int| at < later ==> !is_end_record(buf, later)
}

/// Where the end record nearest the end of the buffer starts. Meaningful
/// where the buffer has one.
pub open spec fn last_end_record(buf: Seq<u8>) -> int {
    choose|at: int| is_last_end_record(buf, at)
}

// ---------------------------------------------------------------------------
// Central directory entries
// ---------------------------------------------------------------------------

/// Length of the name of the directory entry whose fields start at `at`.
pub open spec fn entry_name_len(buf: Seq<u8>, at: int) -> int {
    le_u16(buf, at + 24) as int
}

/// Length of the extra field of the directory entry whose fields start at
/// `at`.
pub open spec fn entry_extra_len(buf: Seq<u8>, at: int) -> int {
    le_u16(buf, at + 26) as int
}

/// Length of the comment of the directory entry whose fields start at `at`.
pub open spec fn entry_comment_len(buf: Seq<u8>, at: int) -> int {
    le_u16(buf, at + 28) as int
}

/// Length of the directory entry whose fields start at `at`, signature not
/// counted.
pub open spec fn entry_len(buf: Seq<u8>, at: int) -> int {
    ENTRY_FIXED_LEN as int + entry_name_len(buf, at) + entry_extra_len(buf, at)
        + entry_comment_len(buf, at)
}

/// Whether the directory entry whose fields start at `at` lies in the
/// buffer with all three of its variable-length fields.
pub open spec fn entry_complete(buf: Seq<u8>, at: int) -> bool {
    holds(buf, at, ENTRY_FIXED_LEN as int) && holds(buf, at, entry_len(buf, at))
}

/// The directory entry whose fields start at `at`.
pub open spec fn entry_at(buf: Seq<u8>, at: int) -> CentralDirectoryFileHeaderView {
    let name = at + ENTRY_FIXED_LEN as int;
    let extra = name + entry_name_len(buf, at);
    let comment = extra + entry_extra_len(buf, at);
    CentralDirectoryFileHeaderView {
        os: Os(buf[at]),
        zip_specification_version: buf[at + 1],
        metadata: MetadataView {
            version_needed: le_u16(buf, at + 2),
            flags: ZipFlags(le_u16(buf, at + 4)),
            compression_method: CompressionMethod(le_u16(buf, at + 6)),
            date_time_modified: DateTimeModified::of_raw(le_u32(buf, at + 8)),
            crc: le_u32(buf, at + 12),
            compressed_size: le_u32(buf, at + 16) as u64,
            uncompressed_size: le_u32(buf, at + 20) as u64,
            name: buf.subrange(name, extra),
            extra_field: buf.subrange(extra, comment),
        },
        disk_num_start: le_u16(buf, at + 30),
        internal_attributes: InternalAttributes(le_u16(buf, at + 32)),
        external_attributes: ExternalAttributes(le_u32(buf, at + 34)),
        local_header_offset: le_u32(buf, at + 38),
        comment: buf.subrange(comment, comment + entry_comment_len(buf, at)),
    }
}

/// What reading the directory entry whose fields start at `at` is owed.
pub open spec fn read_directory_entry(buf: Seq<u8>, at: int) -> Result<
    CentralDirectoryFileHeaderView,
    ZipParseError,
> {
    if entry_complete(buf, at) {
        Ok(entry_at(buf, at))
    } else {
        Err(ZipParseError::UnexpectedEof)
    }
}

/// `first` put in front of what follows it, where that was read at all.
pub open spec fn and_then_rest<T>(first: Seq<T>, rest: Result<Seq<T>, ZipParseError>) -> Result<
    Seq<T>,
    ZipParseError,
> {
    match rest {
        Ok(tail) => Ok(first + tail),
        Err(e) => Err(e),
    }
}

/// Whether a whole directory entry lies at `at`, signature first.
pub open spec fn is_entry(buf: Seq<u8>, at: int) -> bool {
    tagged(buf, at, CENTRAL_DIRECTORY_FILE_SIGNATURE) && entry_complete(buf, at + 4)
}

/// Where the directory entry that lies at `at` ends.
pub open spec fn entry_end(buf: Seq<u8>, at: int) -> int {
    at + 4 + entry_len(buf, at + 4)
}

/// What walking the directory from `at` is owed: the entries that follow
/// one another from there, up to the first offset that does not hold the
/// entry signature. An entry that the buffer cuts short fails the walk.
pub open spec fn read_directory(buf: Seq<u8>, at: int) -> Result<
    Seq<CentralDirectoryFileHeaderView>,
    ZipParseError,
>
    decreases buf.len() - at,
{
    if !tagged(buf, at, CENTRAL_DIRECTORY_FILE_SIGNATURE) {
        Ok(Seq::empty())
    } else if !entry_complete(buf, at + 4) {
        Err(ZipParseError::UnexpectedEof)
    } else {
        and_then_rest(seq![entry_at(buf, at + 4)], read_directory(buf, entry_end(buf, at)))
    }
}

/// Where the walk of the directory from `at` stops: the first offset that
/// does not hold the entry signature, or the entry that the buffer cuts
/// short.
pub open spec fn directory_stop(buf: Seq<u8>, at: int) -> int
    decreases buf.len() - at,
{
    if !is_entry(buf, at) {
        at
    } else {
        directory_stop(buf, entry_end(buf, at))
    }
}

// ---------------------------------------------------------------------------
// Local headers and data descriptors
// ---------------------------------------------------------------------------

/// Length of the name in the local header whose fields start at `at`.
pub open spec fn header_name_len(buf: Seq<u8>, at: int) -> int {
    le_u16(buf, at + 22) as int
}

/// Length of the extra field in the local header whose fields start at `at`.
pub open spec fn header_extra_len(buf: Seq<u8>, at: int) -> int {
    le_u16(buf, at + 24) as int
}

/// Length of the local header whose fields start at `at`, signature not
/// counted.
pub open spec fn header_len(buf: Seq<u8>, at: int) -> int {
    HEADER_FIXED_LEN as int + header_name_len(buf, at) + header_extra_len(buf, at)
}

/// Whether the local header whose fields start at `at` lies in the buffer
/// with its name and extra field.
pub open spec fn header_complete(buf: Seq<u8>, at: int) -> bool {
    holds(buf, at, HEADER_FIXED_LEN as int) && holds(buf, at, header_len(buf, at))
}

/// What the local header whose fields start at `at` says, before any
/// correction.
pub open spec fn header_at(buf: Seq<u8>, at: int) -> MetadataView {
    let name = at + HEADER_FIXED_LEN as int;
    let extra = name + header_name_len(buf, at);
    MetadataView {
        version_needed: le_u16(buf, at),
        flags: ZipFlags(le_u16(buf, at + 2)),
        compression_method: CompressionMethod(le_u16(buf, at + 4)),
        date_time_modified: DateTimeModified::of_raw(le_u32(buf, at + 6)),
        crc: le_u32(buf, at + 10),
        compressed_size: le_u32(buf, at + 14) as u64,
        uncompressed_size: le_u32(buf, at + 18) as u64,
        name: buf.subrange(name, extra),
        extra_field: buf.subrange(extra, extra + header_extra_len(buf, at)),
    }
}

/// What reading the local header whose fields start at `at` is owed.
pub open spec fn read_header(buf: Seq<u8>, at: int) -> Result<MetadataView, ZipParseError> {
    if header_complete(buf, at) {
        Ok(header_at(buf, at))
    } else {
        Err(ZipParseError::UnexpectedEof)
    }
}

/// Whether the data descriptor at `at` starts with its optional signature.
pub open spec fn descriptor_signed(buf: Seq<u8>, at: int) -> bool {
    le_u32(buf, at) == DESCRIPTOR_MAGIC
}

/// Length of the data descriptor at `at`: three numbers, after the
/// signature where there is one.
pub open spec fn descriptor_len(buf: Seq<u8>, at: int) -> int {
    if descriptor_signed(buf, at) {
        16
    } else {
        12
    }
}

/// Whether a whole data descriptor lies at `at`.
pub open spec fn descriptor_complete(buf: Seq<u8>, at: int) -> bool {
    holds(buf, at, 4) && holds(buf, at, descriptor_len(buf, at))
}

/// The data descriptor at `at`.
pub open spec fn descriptor_at(buf: Seq<u8>, at: int) -> DataDescriptor {
    let fields = at + descriptor_len(buf, at) - 12;
    DataDescriptor {
        crc: le_u32(buf, fields),
        compressed_size: le_u32(buf, fields + 4) as u64,
        uncompressed_size: le_u32(buf, fields + 8) as u64,
    }
}

/// What reading a data descriptor at `at` is owed.
pub open spec fn read_descriptor(buf: Seq<u8>, at: int) -> Result<DataDescriptor, ZipParseError> {
    if descriptor_complete(buf, at) {
        Ok(descriptor_at(buf, at))
    } else {
        Err(ZipParseError::UnexpectedEof)
    }
}

/// Where the data descriptor of the entry lies whose header fields start at
/// `at`: behind as many bytes of data as the header declares.
pub open spec fn descriptor_offset(buf: Seq<u8>, at: int) -> int {
    at + header_len(buf, at) + header_at(buf, at).compressed_size
}

/// Where reading the metadata of the entry whose header fields start at
/// `at` stops: behind the header, or behind the data descriptor where the
/// flags announce one.
pub open spec fn metadata_stop(buf: Seq<u8>, at: int) -> int {
    if header_at(buf, at).flags.data_descriptor_bit() {
        descriptor_offset(buf, at) + descriptor_len(buf, descriptor_offset(buf, at))
    } else {
        at + header_len(buf, at)
    }
}

/// What reading the metadata of the entry whose header fields start at `at`
/// is owed: what the header says, corrected by the data descriptor where
/// the flags announce one.
pub open spec fn read_metadata(buf: Seq<u8>, at: int) -> Result<MetadataView, ZipParseError> {
    match read_header(buf, at) {
        Err(e) => Err(e),
        Ok(header) => if !header.flags.data_descriptor_bit() {
            Ok(header)
        } else {
            match read_descriptor(buf, descriptor_offset(buf, at)) {
                Ok(descriptor) => Ok(header.corrected(descriptor)),
                Err(e) => Err(e),
            }
        },
    }
}

/// What reading the entry whose local header starts at `at` is owed: its
/// metadata, and the bytes that follow the header, as many as the metadata
/// gives for the compressed size.
pub open spec fn read_file(buf: Seq<u8>, at: int) -> Result<CompressedZipFileView, ZipParseError> {
    match tag_failure(buf, at, LOCAL_FILE_SIGNATURE) {
        Some(e) => Err(e),
        None => match read_metadata(buf, at + 4) {
            Err(e) => Err(e),
            Ok(metadata) => {
                let data = at + 4 + header_len(buf, at + 4);
                if holds(buf, data, metadata.compressed_size as int) {
                    Ok(
                        CompressedZipFileView {
                            metadata,
                            contents: buf.subrange(data, data + metadata.compressed_size),
                        },
                    )
                } else {
                    Err(ZipParseError::UnexpectedEof)
                }
            },
        },
    }
}

// ---------------------------------------------------------------------------
// The archive
// ---------------------------------------------------------------------------

/// What opening an archive is owed: the end record nearest the end of the
/// buffer, and the directory walked from the offset that it names.
pub open spec fn read_archive(buf: Seq<u8>) -> Result<CentralDirectoryView, ZipParseError> {
    if !has_end_record(buf) {
        Err(ZipParseError::MissingCentralDirectory)
    } else {
        let end = end_record_at(buf, last_end_record(buf));
        match read_directory(buf, end.central_dir_offset as int) {
            Ok(files) => Ok(CentralDirectoryView { files, end }),
            Err(e) => Err(e),
        }
    }
}

} // verus!
