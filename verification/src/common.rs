//! Typed wrappers over the raw integers of ZIP headers.
//!
//! The wrappers keep the raw value, so that codes this library does not know
//! stay representable. Classifying a raw value never fails: it yields a
//! closed enumeration with a variant for everything unrecognised.

use vstd::prelude::*;

verus! {

/// First four bytes of a local file header.
pub const LOCAL_FILE_SIGNATURE: [u8; 4] = [0x50, 0x4b, 0x03, 0x04];

/// First four bytes of a central directory entry.
pub const CENTRAL_DIRECTORY_FILE_SIGNATURE: [u8; 4] = [0x50, 0x4b, 0x01, 0x02];

/// The data descriptor's optional signature, most significant byte first:
/// the number that the four bytes `50 4b 07 08` spell in little-endian order.
pub const DATA_DESCRIPTOR_SIGNATURE: [u8; 4] = [0x08, 0x07, 0x4b, 0x50];

/// First four bytes of the end-of-central-directory record.
pub const END_CENTRAL_DIRECTORY_SIGNATURE: [u8; 4] = [0x50, 0x4b, 0x05, 0x06];

/// The kinds of record that a signature announces.
#[derive(Debug, Clone, Copy, PartialEq, Eq, Structural)]
pub enum RecordKind {
    LocalFile,
    CentralDirectoryEntry,
    DataDescriptor,
    EndOfCentralDirectory,
    Unknown,
}

impl RecordKind {
    /// The kind of record that starts with the four bytes `signature`.
    pub open spec fn of(signature: [u8; 4]) -> RecordKind {
        if signature[0] != 0x50 || signature[1] != 0x4b {
            RecordKind::Unknown
        } else if signature[2] == 0x03 && signature[3] == 0x04 {
            RecordKind::LocalFile
        } else if signature[2] == 0x01 && signature[3] == 0x02 {
            RecordKind::CentralDirectoryEntry
        } else if signature[2] == 0x07 && signature[3] == 0x08 {
            RecordKind::DataDescriptor
        } else if signature[2] == 0x05 && signature[3] == 0x06 {
            RecordKind::EndOfCentralDirectory
        } else {
            RecordKind::Unknown
        }
    }

    /// Tells what kind of record follows a signature read from a stream,
    /// so that the reader knows what to read next.
    pub fn of_signature(signature: [u8; 4]) -> (kind: RecordKind)
        ensures
            kind == RecordKind::of(signature),
            kind == RecordKind::LocalFile <==> signature@ == LOCAL_FILE_SIGNATURE@,
            kind == RecordKind::CentralDirectoryEntry <==> signature@
                == CENTRAL_DIRECTORY_FILE_SIGNATURE@,
            kind == RecordKind::EndOfCentralDirectory <==> signature@
                == END_CENTRAL_DIRECTORY_SIGNATURE@,
    {
        proof {
            if RecordKind::of(signature) == RecordKind::LocalFile {
                assert(signature@ =~= LOCAL_FILE_SIGNATURE@);
            }
            if RecordKind::of(signature) == RecordKind::CentralDirectoryEntry {
                assert(signature@ =~= CENTRAL_DIRECTORY_FILE_SIGNATURE@);
            }
            if RecordKind::of(signature) == RecordKind::EndOfCentralDirectory {
                assert(signature@ =~= END_CENTRAL_DIRECTORY_SIGNATURE@);
            }
        }
        if signature[0] != 0x50 || signature[1] != 0x4b {
            RecordKind::Unknown
        } else if signature[2] == 0x03 && signature[3] == 0x04 {
            RecordKind::LocalFile
        } else if signature[2] == 0x01 && signature[3] == 0x02 {
            RecordKind::CentralDirectoryEntry
        } else if signature[2] == 0x07 && signature[3] == 0x08 {
            RecordKind::DataDescriptor
        } else if signature[2] == 0x05 && signature[3] == 0x06 {
            RecordKind::EndOfCentralDirectory
        } else {
            RecordKind::Unknown
        }
    }
}

/// Code of the system an entry was written on.
#[derive(Debug, Clone, Copy, PartialEq, Eq, Structural)]
pub struct Os(pub u8);

impl Os {
    /// The system that this code stands for.
    pub fn name(self) -> (name: OsName)
        ensures
            name == OsName::of_code(self.0),
    {
        OsName::from_u8(self.0)
    }
}

/// The systems that the format assigns a code to.
#[derive(Debug, Clone, Copy, PartialEq, Eq, Structural)]
pub enum OsName {
    Dos,
    Amiga,
    OpenVMS,
    Unix,
    VM,
    AtariST,
    OS2HPFS,
    Macintosh,
    ZSystem,
    Cpm,
    WindowsNtfs,
    Mvs,
    Vse,
    AcornRisc,
    Vfat,
    AlternateMVS,
    BeOS,
    Tandem,
    OS400,
    Darwin,
    Unused,
}

impl OsName {
    /// The code table of the format: 0 to 19 are assigned, the rest is unused.
    pub open spec fn of_code(n: u8) -> OsName {
        match n {
            0 => OsName::Dos,
            1 => OsName::Amiga,
            2 => OsName::OpenVMS,
            3 => OsName::Unix,
            4 => OsName::VM,
            5 => OsName::AtariST,
            6 => OsName::OS2HPFS,
            7 => OsName::Macintosh,
            8 => OsName::ZSystem,
            9 => OsName::Cpm,
            10 => OsName::WindowsNtfs,
            11 => OsName::Mvs,
            12 => OsName::Vse,
            13 => OsName::AcornRisc,
            14 => OsName::Vfat,
            15 => OsName::AlternateMVS,
            16 => OsName::BeOS,
            17 => OsName::Tandem,
            18 => OsName::OS400,
            19 => OsName::Darwin,
            _ => OsName::Unused,
        }
    }

    /// The code that the format assigns to a system, if it has one.
    pub open spec fn code(self) -> Option<u8> {
        match self {
            OsName::Dos => Some(0u8),
            OsName::Amiga => Some(1u8),
            OsName::OpenVMS => Some(2u8),
            OsName::Unix => Some(3u8),
            OsName::VM => Some(4u8),
            OsName::AtariST => Some(5u8),
            OsName::OS2HPFS => Some(6u8),
            OsName::Macintosh => Some(7u8),
            OsName::ZSystem => Some(8u8),
            OsName::Cpm => Some(9u8),
            OsName::WindowsNtfs => Some(10u8),
            OsName::Mvs => Some(11u8),
            OsName::Vse => Some(12u8),
            OsName::AcornRisc => Some(13u8),
            OsName::Vfat => Some(14u8),
            OsName::AlternateMVS => Some(15u8),
            OsName::BeOS => Some(16u8),
            OsName::Tandem => Some(17u8),
            OsName::OS400 => Some(18u8),
            OsName::Darwin => Some(19u8),
            OsName::Unused => None,
        }
    }

    /// Classifies a raw code. Never fails: codes from 20 up are `Unused`.
    pub fn from_u8(n: u8) -> (name: OsName)
        ensures
            name == OsName::of_code(n),
            n <= 19 ==> name.code() == Some(n),
            n >= 20 ==> name == OsName::Unused,
    {
        match n {
            0 => OsName::Dos,
            1 => OsName::Amiga,
            2 => OsName::OpenVMS,
            3 => OsName::Unix,
            4 => OsName::VM,
            5 => OsName::AtariST,
            6 => OsName::OS2HPFS,
            7 => OsName::Macintosh,
            8 => OsName::ZSystem,
            9 => OsName::Cpm,
            10 => OsName::WindowsNtfs,
            11 => OsName::Mvs,
            12 => OsName::Vse,
            13 => OsName::AcornRisc,
            14 => OsName::Vfat,
            15 => OsName::AlternateMVS,
            16 => OsName::BeOS,
            17 => OsName::Tandem,
            18 => OsName::OS400,
            19 => OsName::Darwin,
            _ => OsName::Unused,
        }
    }
}

/// Last-modified time of an entry, as the four raw bytes of the header read
/// as one little-endian number.
#[derive(Debug, Copy, Clone, PartialEq, Eq, Structural)]
pub struct DateTimeModified(u32);

impl DateTimeModified {
    /// The raw number that this timestamp holds.
    pub closed spec fn raw(self) -> u32 {
        self.0
    }

    /// The timestamp that holds the raw number `b`.
    pub closed spec fn of_raw(b: u32) -> DateTimeModified {
        DateTimeModified(b)
    }

    /// A timestamp holds the raw number it was made of.
    pub proof fn lemma_raw(b: u32)
        ensures
            Self::of_raw(b).raw() == b,
    {
    }

    /// Two timestamps that hold the same raw number are the same.
    pub proof fn lemma_raw_decides(self, other: DateTimeModified)
        requires
            self.raw() == other.raw(),
        ensures
            self == other,
    {
    }

    /// Hands the raw timestamp out.
    pub fn to_u32(self) -> (b: u32)
        ensures
            b == self.raw(),
    {
        self.0
    }

    /// Wraps a raw timestamp.
    pub fn from_u32(b: u32) -> (t: DateTimeModified)
        ensures
            t == DateTimeModified::of_raw(b),
            t.raw() == b,
    {
        Self(b)
    }
}

/// Code of the algorithm an entry is compressed with.
#[derive(Debug, Copy, Clone, PartialEq, Eq, Structural)]
pub struct CompressionMethod(pub u16);

impl CompressionMethod {
    /// The algorithm that this code stands for.
    pub fn name(self) -> (name: CompressionMethodName)
        ensures
            name == CompressionMethodName::of_code(self.0),
    {
        CompressionMethodName::from_u16(self.0)
    }
}

/// The algorithms that the format assigns a code to.
#[derive(Debug, Copy, Clone, PartialEq, Eq, Structural)]
pub enum CompressionMethodName {
    Stored,
    Shrink,
    Factor1,
    Factor2,
    Factor3,
    Factor4,
    Implode,
    Reserved,
    Deflate,
    EnhancedDeflate,
    PKWareDclImplode,
    Bzip2,
    Lzma,
    IbmTerse,
    IbmLZ77z,
    PPMd,
    Unknown,
}

impl CompressionMethodName {
    /// The codes that the format sets aside without assigning them.
    pub open spec fn is_reserved_code(n: u16) -> bool {
        n == 7 || n == 11 || n == 13 || 15 <= n <= 17
    }

    /// The code table of the format. 0 is "stored", 8 is "deflate".
    pub open spec fn of_code(n: u16) -> CompressionMethodName {
        if Self::is_reserved_code(n) {
            CompressionMethodName::Reserved
        } else {
            match n {
                0 => CompressionMethodName::Stored,
                1 => CompressionMethodName::Shrink,
                2 => CompressionMethodName::Factor1,
                3 => CompressionMethodName::Factor2,
                4 => CompressionMethodName::Factor3,
                5 => CompressionMethodName::Factor4,
                6 => CompressionMethodName::Implode,
                8 => CompressionMethodName::Deflate,
                9 => CompressionMethodName::EnhancedDeflate,
                10 => CompressionMethodName::PKWareDclImplode,
                12 => CompressionMethodName::Bzip2,
                14 => CompressionMethodName::Lzma,
                18 => CompressionMethodName::IbmTerse,
                19 => CompressionMethodName::IbmLZ77z,
                98 => CompressionMethodName::PPMd,
                _ => CompressionMethodName::Unknown,
            }
        }
    }

    /// Classifies a raw code. Never fails: a code outside the table is
    /// `Unknown`.
    pub fn from_u16(n: u16) -> (name: CompressionMethodName)
        ensures
            name == CompressionMethodName::of_code(n),
            name == CompressionMethodName::Stored <==> n == 0,
            name == CompressionMethodName::Deflate <==> n == 8,
    {
        match n {
            0 => CompressionMethodName::Stored,
            1 => CompressionMethodName::Shrink,
            2 => CompressionMethodName::Factor1,
            3 => CompressionMethodName::Factor2,
            4 => CompressionMethodName::Factor3,
            5 => CompressionMethodName::Factor4,
            6 => CompressionMethodName::Implode,
            7 | 11 | 13 | 15 | 16 | 17 => CompressionMethodName::Reserved,
            8 => CompressionMethodName::Deflate,
            9 => CompressionMethodName::EnhancedDeflate,
            10 => CompressionMethodName::PKWareDclImplode,
            12 => CompressionMethodName::Bzip2,
            14 => CompressionMethodName::Lzma,
            18 => CompressionMethodName::IbmTerse,
            19 => CompressionMethodName::IbmLZ77z,
            98 => CompressionMethodName::PPMd,
            _ => CompressionMethodName::Unknown,
        }
    }
}

/// General purpose bit flags of an entry.
#[derive(Debug, Copy, Clone, PartialEq, Eq, Structural)]
pub struct ZipFlags(pub u16);

impl ZipFlags {
    pub const ENCRYPTED_FILE: u16 = 0x0001;

    pub const COMPRESSION_OPTION1: u16 = 0x0002;

    pub const COMPRESSION_OPTION2: u16 = 0x0004;

    pub const DATA_DESCRIPTOR: u16 = 0x0008;

    pub const ENHANCED_DEFLATION: u16 = 0x0010;

    pub const COMPRESSED_PATCHED_DATA: u16 = 0x0020;

    pub const STRONG_ENCRYPTION: u16 = 0x0040;

    pub const LANGUAGE_ENCODING: u16 = 0x0800;

    pub const RESERVED: u16 = 0x1000;

    pub const MASK_HEADER_VALUES: u16 = 0x2000;

    /// Bit 3 of the flags: the entry's checksum and sizes follow its data in
    /// a data descriptor.
    pub open spec fn data_descriptor_bit(self) -> bool {
        self.0 & 0x0008 != 0
    }

    /// Whether a data descriptor trails the entry's data.
    pub fn has_data_descriptor(&self) -> (set: bool)
        ensures
            set == self.data_descriptor_bit(),
            set <==> (self.0 as int / 8) % 2 == 1,
    {
        let flags: u16 = self.0;
        assert((flags & 0x0008 != 0) <==> (flags / 8) % 2 == 1) by (bit_vector);
        (self.0 & Self::DATA_DESCRIPTOR) != 0
    }
}

/// External file attributes of an entry: their meaning depends on the
/// system the entry was written on.
#[derive(Debug, Clone, Copy, PartialEq, Eq, Structural)]
pub struct ExternalAttributes(pub u32);

/// Internal file attributes of an entry.
#[derive(Debug, Clone, Copy, PartialEq, Eq, Structural)]
pub struct InternalAttributes(pub u16);

impl InternalAttributes {
    pub const IS_ASCII: u16 = 0x0001;

    pub const RESERVED: u16 = 0x0002;

    pub const CONTROL_FIELD_RECORDS_PRECEDE_LOGICAL_RECORDS: u16 = 0x0004;
}

} // verus!
