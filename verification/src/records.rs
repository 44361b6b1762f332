//! The records of an archive, and the mathematical value of each.
//!
//! A record borrows its names, extra fields and comments from the buffer it
//! was decoded from. Its view holds the same fields with each borrowed slice
//! replaced by the sequence of its bytes; contracts speak of views.

use vstd::prelude::*;

use crate::common::{
    CompressionMethod, DateTimeModified, ExternalAttributes, InternalAttributes, Os, ZipFlags,
};
use crate::error::ZipParseError;

verus! {

/// What a local header and a central directory entry both say of a file.
///
/// The two copies may disagree: a local header written before the sizes
/// were known holds placeholders, which a data descriptor then corrects.
#[derive(Debug, Clone, Copy)]
pub struct Metadata<'a> {
    pub version_needed: u16,
    pub compression_method: CompressionMethod,
    pub date_time_modified: DateTimeModified,
    pub flags: ZipFlags,
    pub name: &'a [u8],
    pub extra_field: &'a [u8],
    pub compressed_size: u64,
    pub uncompressed_size: u64,
    pub crc: u32,
}

/// The value of a [`Metadata`].
pub ghost struct MetadataView {
    pub version_needed: u16,
    pub compression_method: CompressionMethod,
    pub date_time_modified: DateTimeModified,
    pub flags: ZipFlags,
    pub name: Seq<u8>,
    pub extra_field: Seq<u8>,
    pub compressed_size: u64,
    pub uncompressed_size: u64,
    pub crc: u32,
}

impl<'a> View for Metadata<'a> {
    type V = MetadataView;

    open spec fn view(&self) -> MetadataView {
        MetadataView {
            version_needed: self.version_needed,
            compression_method: self.compression_method,
            date_time_modified: self.date_time_modified,
            flags: self.flags,
            name: self.name@,
            extra_field: self.extra_field@,
            compressed_size: self.compressed_size,
            uncompressed_size: self.uncompressed_size,
            crc: self.crc,
        }
    }
}

/// The checksum and sizes that trail an entry's data when its header was
/// written before they were known.
#[derive(Debug, Clone, Copy, PartialEq, Eq, Structural)]
pub struct DataDescriptor {
    pub crc: u32,
    pub compressed_size: u64,
    pub uncompressed_size: u64,
}

impl MetadataView {
    /// This metadata with checksum and sizes replaced by the descriptor's.
    pub open spec fn corrected(self, descriptor: DataDescriptor) -> MetadataView {
        MetadataView {
            crc: descriptor.crc,
            compressed_size: descriptor.compressed_size,
            uncompressed_size: descriptor.uncompressed_size,
            ..self
        }
    }
}

impl<'a> Metadata<'a> {
    /// Turns provisional metadata into final metadata: checksum and sizes
    /// are the descriptor's, all else stays.
    pub fn corrected(self, descriptor: &DataDescriptor) -> (m: Metadata<'a>)
        ensures
            m@ == self@.corrected(*descriptor),
    {
        Metadata {
            version_needed: self.version_needed,
            compression_method: self.compression_method,
            date_time_modified: self.date_time_modified,
            flags: self.flags,
            name: self.name,
            extra_field: self.extra_field,
            compressed_size: descriptor.compressed_size,
            uncompressed_size: descriptor.uncompressed_size,
            crc: descriptor.crc,
        }
    }
}

/// A record's value where it was read, or the failure where it was not.
pub open spec fn viewed<T: View>(r: Result<T, ZipParseError>) -> Result<T::V, ZipParseError> {
    match r {
        Ok(record) => Ok(record@),
        Err(e) => Err(e),
    }
}

/// One entry of the central directory: the authoritative record of a file,
/// and the only bridge to its bytes, through `local_header_offset`.
#[derive(Debug, Clone, Copy)]
pub struct CentralDirectoryFileHeader<'a> {
    pub os: Os,
    pub metadata: Metadata<'a>,
    pub disk_num_start: u16,
    pub internal_attributes: InternalAttributes,
    pub external_attributes: ExternalAttributes,
    pub zip_specification_version: u8,
    pub local_header_offset: u32,
    pub comment: &'a [u8],
}

/// The value of a [`CentralDirectoryFileHeader`].
pub ghost struct CentralDirectoryFileHeaderView {
    pub os: Os,
    pub metadata: MetadataView,
    pub disk_num_start: u16,
    pub internal_attributes: InternalAttributes,
    pub external_attributes: ExternalAttributes,
    pub zip_specification_version: u8,
    pub local_header_offset: u32,
    pub comment: Seq<u8>,
}

impl<'a> View for CentralDirectoryFileHeader<'a> {
    type V = CentralDirectoryFileHeaderView;

    open spec fn view(&self) -> CentralDirectoryFileHeaderView {
        CentralDirectoryFileHeaderView {
            os: self.os,
            metadata: self.metadata@,
            disk_num_start: self.disk_num_start,
            internal_attributes: self.internal_attributes,
            external_attributes: self.external_attributes,
            zip_specification_version: self.zip_specification_version,
            local_header_offset: self.local_header_offset,
            comment: self.comment@,
        }
    }
}

/// The end-of-central-directory record: where the directory starts, how
/// large it is and how many entries it claims.
#[derive(Debug, Clone, Copy, PartialEq, Eq, Structural)]
pub struct EndCentralDirectory {
    pub disk_num: u16,
    pub disk_central_dir_num: u16,
    pub disk_entires: u16,
    pub total_entires: u16,
    pub central_dir_size: u32,
    pub central_dir_offset: u32,
}

/// The index of an archive: its entries in the order in which the directory
/// lists them, and the end record.
#[derive(Debug)]
pub struct CentralDirectory<'a> {
    pub files: Vec<CentralDirectoryFileHeader<'a>>,
    pub end: EndCentralDirectory,
}

/// The value of a [`CentralDirectory`].
pub ghost struct CentralDirectoryView {
    pub files: Seq<CentralDirectoryFileHeaderView>,
    pub end: EndCentralDirectory,
}

/// The values of a run of directory entries, in order.
pub open spec fn header_views(headers: Seq<CentralDirectoryFileHeader>) -> Seq<
    CentralDirectoryFileHeaderView,
> {
    Seq::new(headers.len(), |i: int| headers[i]@)
}

/// The values of the entries that a walk of the directory returned, or the
/// walk's failure.
pub open spec fn headers_read(r: Result<Vec<CentralDirectoryFileHeader>, ZipParseError>) -> Result<
    Seq<CentralDirectoryFileHeaderView>,
    ZipParseError,
> {
    match r {
        Ok(headers) => Ok(header_views(headers@)),
        Err(e) => Err(e),
    }
}

impl<'a> View for CentralDirectory<'a> {
    type V = CentralDirectoryView;

    open spec fn view(&self) -> CentralDirectoryView {
        CentralDirectoryView { files: header_views(self.files@), end: self.end }
    }
}

} // verus!
