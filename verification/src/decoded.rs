//! Records with every field unpacked: flags as booleans, the timestamp as
//! calendar fields, names as text.
//!
//! The bit fields are taken apart with `bitreader`, which hands out the
//! bits of a byte from the most significant down.

use bitreader::BitReader;
use vstd::prelude::*;
use vstd::slice::slice_to_vec;
use vstd::utf8::{encode_utf8, valid_utf8};

use crate::bits::{
    bit_reader, bits_of, bits_value, lemma_bits_value_unfold, lemma_byte_bits, number, read_u16,
    read_u8, skip, unread,
};
use crate::common::{CompressionMethodName, OsName};
use crate::error::{ZipParseError, NOT_UTF8};
use crate::layout::{le_u16, le_u32};
use crate::records::{
    CentralDirectoryFileHeader, CentralDirectoryFileHeaderView, DataDescriptor, Metadata,
    MetadataView,
};

verus! {

/// Hands out the next bit of a reader as a flag.
fn read_flag(reader: &mut BitReader) -> (flag: bool)
    requires
        unread(old(reader)).len() >= 1,
    ensures
        flag == unread(old(reader))[0],
        unread(final(reader)) == unread(old(reader)).skip(1),
{
    let ghost bits = unread(reader);
    let bit = read_u8(reader, 1).unwrap();
    proof {
        assert(bits.take(1).drop_last() =~= Seq::<bool>::empty());
        assert(number(bits.take(1).drop_last()) == 0);
        assert(bits.take(1).last() == bits[0]);
    }
    bit == 1u8
}

/// The general purpose flags of an entry, one boolean each.
#[derive(Debug, Copy, Clone, PartialEq, Eq, Structural)]
pub struct ZipFlags {
    pub is_encrypted: bool,
    pub has_data_descriptor: bool,
    pub enhanced_deflation: bool,
    pub compressed_patched_data: bool,
    pub strong_encryption: bool,
    pub is_utf8: bool,
    pub mask_header_values: bool,
}

impl ZipFlags {
    /// The flags that the raw little-endian number `raw` holds: each flag
    /// is the bit that its mask in [`crate::common::ZipFlags`] picks.
    pub open spec fn of_raw(raw: u16) -> ZipFlags {
        ZipFlags {
            is_encrypted: raw & 0x0001 != 0,
            has_data_descriptor: raw & 0x0008 != 0,
            enhanced_deflation: raw & 0x0010 != 0,
            compressed_patched_data: raw & 0x0020 != 0,
            strong_encryption: raw & 0x0040 != 0,
            is_utf8: raw & 0x0800 != 0,
            mask_header_values: raw & 0x2000 != 0,
        }
    }

    /// Unpacks the flags from the two bytes of the header.
    pub fn from_bytes(b: [u8; 2]) -> (flags: ZipFlags)
        ensures
            flags == ZipFlags::of_raw(le_u16(b@, 0)),
    {
        let mut bit_reader = bit_reader(b.as_slice());
        // The low byte comes first, its bit 7 ahead of its bit 0.
        skip(&mut bit_reader, 1).unwrap();
        let strong_encryption = read_flag(&mut bit_reader);
        let compressed_patched_data = read_flag(&mut bit_reader);
        let enhanced_deflation = read_flag(&mut bit_reader);
        let has_data_descriptor = read_flag(&mut bit_reader);
        skip(&mut bit_reader, 2).unwrap();
        let is_encrypted = read_flag(&mut bit_reader);
        // The high byte holds bits 15 down to 8.
        skip(&mut bit_reader, 2).unwrap();
        let mask_header_values = read_flag(&mut bit_reader);
        skip(&mut bit_reader, 1).unwrap();
        let is_utf8 = read_flag(&mut bit_reader);

        proof {
            let bits = bits_of(b@);
            assert(strong_encryption == bits[1]);
            assert(compressed_patched_data == bits[2]);
            assert(enhanced_deflation == bits[3]);
            assert(has_data_descriptor == bits[4]);
            assert(is_encrypted == bits[7]);
            assert(mask_header_values == bits[10]);
            assert(is_utf8 == bits[12]);
            lemma_byte_bits(b@, 0);
            lemma_byte_bits(b@, 1);
            lemma_flag_bits(b[0], b[1]);
        }

        ZipFlags {
            is_encrypted,
            has_data_descriptor,
            enhanced_deflation,
            compressed_patched_data,
            strong_encryption,
            is_utf8,
            mask_header_values,
        }
    }
}

impl Default for ZipFlags {
    /// No flag is set.
    fn default() -> (flags: ZipFlags)
        ensures
            flags == ZipFlags::of_raw(0),
    {
        assert(0u16 & 0x0001 == 0 && 0u16 & 0x0008 == 0 && 0u16 & 0x0010 == 0 && 0u16 & 0x0020 == 0
            && 0u16 & 0x0040 == 0 && 0u16 & 0x0800 == 0 && 0u16 & 0x2000 == 0) by (bit_vector);
        ZipFlags {
            is_encrypted: false,
            has_data_descriptor: false,
            enhanced_deflation: false,
            compressed_patched_data: false,
            strong_encryption: false,
            is_utf8: false,
            mask_header_values: false,
        }
    }
}

/// Bit `k` of a byte is a bit of the little-endian number that the byte
/// belongs to: bit `k` where the byte is the low one, bit `k + 8` where it
/// is the high one.
proof fn lemma_flag_bits(low: u8, high: u8)
    by (bit_vector)
    ensures
        ((low as u16 + 256 * (high as u16)) as u16 & 0x0001 != 0) == (low as int % 2 == 1),
        ((low as u16 + 256 * (high as u16)) as u16 & 0x0004 != 0) == ((low as int / 4) % 2 == 1),
        ((low as u16 + 256 * (high as u16)) as u16 & 0x0008 != 0) == ((low as int / 8) % 2 == 1),
        ((low as u16 + 256 * (high as u16)) as u16 & 0x0010 != 0) == ((low as int / 16) % 2 == 1),
        ((low as u16 + 256 * (high as u16)) as u16 & 0x0020 != 0) == ((low as int / 32) % 2 == 1),
        ((low as u16 + 256 * (high as u16)) as u16 & 0x0040 != 0) == ((low as int / 64) % 2 == 1),
        ((low as u16 + 256 * (high as u16)) as u16 & 0x0800 != 0) == ((high as int / 8) % 2 == 1),
        ((low as u16 + 256 * (high as u16)) as u16 & 0x2000 != 0) == ((high as int / 32) % 2 == 1),
{
}

/// The internal attributes of an entry, one boolean each.
#[derive(Debug, Copy, Clone, PartialEq, Eq, Structural)]
pub struct InternalAttributes {
    pub is_ascii: bool,
    pub control_field_records_precede_logical_records: bool,
}

impl InternalAttributes {
    /// The attributes that the raw little-endian number `raw` holds: each
    /// is the bit that its mask in [`crate::common::InternalAttributes`]
    /// picks.
    pub open spec fn of_raw(raw: u16) -> InternalAttributes {
        InternalAttributes {
            is_ascii: raw & 0x0001 != 0,
            control_field_records_precede_logical_records: raw & 0x0004 != 0,
        }
    }

    /// Unpacks the attributes from the two bytes of the directory entry.
    pub fn from_bytes(b: [u8; 2]) -> (attributes: InternalAttributes)
        ensures
            attributes == InternalAttributes::of_raw(le_u16(b@, 0)),
    {
        let mut bit_reader = bit_reader(b.as_slice());
        // The low byte comes first, its bit 7 ahead of its bit 0.
        skip(&mut bit_reader, 5).unwrap();
        let control_field_records_precede_logical_records = read_flag(&mut bit_reader);
        skip(&mut bit_reader, 1).unwrap();
        let is_ascii = read_flag(&mut bit_reader);

        proof {
            let bits = bits_of(b@);
            assert(control_field_records_precede_logical_records == bits[5]);
            assert(is_ascii == bits[7]);
            lemma_byte_bits(b@, 0);
            lemma_flag_bits(b[0], b[1]);
        }

        InternalAttributes { is_ascii, control_field_records_precede_logical_records }
    }
}

impl Default for InternalAttributes {
    /// No attribute is set.
    fn default() -> (attributes: InternalAttributes)
        ensures
            attributes == InternalAttributes::of_raw(0),
    {
        assert(0u16 & 0x0001 == 0 && 0u16 & 0x0004 == 0) by (bit_vector);
        InternalAttributes { is_ascii: false, control_field_records_precede_logical_records: false }
    }
}

/// Hands out the next `n` bits of a reader over `bytes` as a number.
fn read_field(
    reader: &mut BitReader,
    n: u8,
    Ghost(bytes): Ghost<Seq<u8>>,
    Ghost(from): Ghost<int>,
) -> (value: u16)
    requires
        0 <= from,
        n <= 16,
        from + n <= 8 * bytes.len(),
        unread(old(reader)) == bits_of(bytes).skip(from),
    ensures
        value == bits_value(bytes, from, n as int),
        unread(final(reader)) == bits_of(bytes).skip(from + n),
{
    let value = read_u16(reader, n).unwrap();
    proof {
        let bits = bits_of(bytes);
        assert(bits.skip(from).take(n as int) =~= bits.subrange(from, from + n));
        assert(bits.skip(from).skip(n as int) =~= bits.skip(from + n));
    }
    value
}

/// The bits of a byte, put together again: its upper bits spell the byte
/// divided by a power of two, its lower bits the remainder.
proof fn lemma_byte_digits(x: u8)
    by (bit_vector)
    ensures
        16 * ((x / 128) % 2) + 8 * ((x / 64) % 2) + 4 * ((x / 32) % 2) + 2 * ((x / 16) % 2) + (x
            / 8) % 2 == x / 8,
        4 * ((x / 4) % 2) + 2 * ((x / 2) % 2) + (x / 1) % 2 == x % 8,
        4 * ((x / 128) % 2) + 2 * ((x / 64) % 2) + (x / 32) % 2 == x / 32,
        16 * ((x / 16) % 2) + 8 * ((x / 8) % 2) + 4 * ((x / 4) % 2) + 2 * ((x / 2) % 2) + (x / 1)
            % 2 == x % 32,
        (x / 128) % 2 == x / 128,
        64 * ((x / 64) % 2) + 32 * ((x / 32) % 2) + 16 * ((x / 16) % 2) + 8 * ((x / 8) % 2) + 4 * ((
        x / 4) % 2) + 2 * ((x / 2) % 2) + (x / 1) % 2 == x % 128,
{
}

/// The runs of bits that make up a timestamp, as arithmetic on its bytes:
/// a run that ends with a byte spells the byte's remainder, a run that
/// starts with one spells its quotient, and a run across two bytes spells
/// both.
proof fn lemma_timestamp_fields(b: Seq<u8>)
    requires
        b.len() == 4,
    ensures
        bits_value(b, 0, 5) == b[0] as int / 8,
        bits_value(b, 5, 6) == (b[0] as int % 8) * 8 + b[1] as int / 32,
        bits_value(b, 11, 5) == b[1] as int % 32,
        bits_value(b, 16, 5) == b[2] as int / 8,
        bits_value(b, 21, 4) == (b[2] as int % 8) * 2 + b[3] as int / 128,
        bits_value(b, 25, 7) == b[3] as int % 128,
{
    lemma_byte_bits(b, 0);
    lemma_byte_bits(b, 1);
    lemma_byte_bits(b, 2);
    lemma_byte_bits(b, 3);
    assert(bits_value(b, 0, 5) == b[0] as int / 8) by {
        lemma_bits_value_unfold(b, 0, 5);
        lemma_byte_digits(b[0]);
    }
    assert(bits_value(b, 5, 6) == (b[0] as int % 8) * 8 + b[1] as int / 32) by {
        lemma_bits_value_unfold(b, 5, 6);
        lemma_byte_digits(b[0]);
        lemma_byte_digits(b[1]);
    }
    assert(bits_value(b, 11, 5) == b[1] as int % 32) by {
        lemma_bits_value_unfold(b, 11, 5);
        lemma_byte_digits(b[1]);
    }
    assert(bits_value(b, 16, 5) == b[2] as int / 8) by {
        lemma_bits_value_unfold(b, 16, 5);
        lemma_byte_digits(b[2]);
    }
    assert(bits_value(b, 21, 4) == (b[2] as int % 8) * 2 + b[3] as int / 128) by {
        lemma_bits_value_unfold(b, 21, 4);
        lemma_byte_digits(b[2]);
        lemma_byte_digits(b[3]);
    }
    assert(bits_value(b, 25, 7) == b[3] as int % 128) by {
        lemma_bits_value_unfold(b, 25, 7);
        lemma_byte_digits(b[3]);
    }
}

/// Last-modified time of an entry, as calendar fields.
#[derive(Debug, Copy, Clone, PartialEq, Eq, Structural)]
pub struct DateTimeModified {
    pub second: u8,
    pub minute: u8,
    pub hour: u8,
    pub day: u8,
    pub month: u8,
    pub year: u16,
}

impl DateTimeModified {
    /// The fields that the four bytes `b` hold, read as one run of bits
    /// from the most significant bit of the first byte: five bits of
    /// seconds, counted in twos, six of minutes, five of hours, five of
    /// days, four of months and seven of years, counted from 1980.
    pub open spec fn of_bytes(b: Seq<u8>) -> DateTimeModified {
        DateTimeModified {
            second: (2 * (b[0] as int / 8)) as u8,
            minute: ((b[0] as int % 8) * 8 + b[1] as int / 32) as u8,
            hour: (b[1] as int % 32) as u8,
            day: (b[2] as int / 8) as u8,
            month: ((b[2] as int % 8) * 2 + b[3] as int / 128) as u8,
            year: (1980 + b[3] as int % 128) as u16,
        }
    }

    /// Unpacks the timestamp from the four bytes of the header.
    pub fn from_bytes(b: [u8; 4]) -> (t: DateTimeModified)
        ensures
            t == DateTimeModified::of_bytes(b@),
            t.second <= 62 && t.minute <= 63 && t.hour <= 31,
            t.day <= 31 && t.month <= 15 && 1980 <= t.year <= 2107,
    {
        let mut bit_reader = bit_reader(b.as_slice());
        proof {
            assert(bits_of(b@).skip(0) =~= bits_of(b@));
            lemma_timestamp_fields(b@);
        }
        let second = 2 * (read_field(&mut bit_reader, 5, Ghost(b@), Ghost(0)) as u8);
        let minute = read_field(&mut bit_reader, 6, Ghost(b@), Ghost(5)) as u8;
        let hour = read_field(&mut bit_reader, 5, Ghost(b@), Ghost(11)) as u8;

        let day = read_field(&mut bit_reader, 5, Ghost(b@), Ghost(16)) as u8;
        let month = read_field(&mut bit_reader, 4, Ghost(b@), Ghost(21)) as u8;
        let year = 1980 + read_field(&mut bit_reader, 7, Ghost(b@), Ghost(25));

        DateTimeModified { second, minute, hour, day, month, year }
    }
}

impl Default for DateTimeModified {
    /// All fields are zero.
    fn default() -> (t: DateTimeModified)
        ensures
            t == (DateTimeModified { second: 0, minute: 0, hour: 0, day: 0, month: 0, year: 0 }),
    {
        DateTimeModified { second: 0, minute: 0, hour: 0, day: 0, month: 0, year: 0 }
    }
}

/// The system an entry was written on.
#[derive(Debug, Clone, Copy, PartialEq, Eq, Structural)]
pub enum OS {
    DOS,
    Amiga,
    OpenVMS,
    UNIX,
    VM,
    AtariST,
    OS2HPFS,
    Macintosh,
    ZSystem,
    CPM,
    WindowsNTFS,
    MVS,
    VSE,
    AcornRisc,
    VFAT,
    AlternateMVS,
    BeOS,
    Tandem,
    OS400,
    Darwin,
    Unused,
}

impl OS {
    /// The system that goes by `name` among the raw classifications.
    pub open spec fn named(name: OsName) -> OS {
        match name {
            OsName::Dos => OS::DOS,
            OsName::Amiga => OS::Amiga,
            OsName::OpenVMS => OS::OpenVMS,
            OsName::Unix => OS::UNIX,
            OsName::VM => OS::VM,
            OsName::AtariST => OS::AtariST,
            OsName::OS2HPFS => OS::OS2HPFS,
            OsName::Macintosh => OS::Macintosh,
            OsName::ZSystem => OS::ZSystem,
            OsName::Cpm => OS::CPM,
            OsName::WindowsNtfs => OS::WindowsNTFS,
            OsName::Mvs => OS::MVS,
            OsName::Vse => OS::VSE,
            OsName::AcornRisc => OS::AcornRisc,
            OsName::Vfat => OS::VFAT,
            OsName::AlternateMVS => OS::AlternateMVS,
            OsName::BeOS => OS::BeOS,
            OsName::Tandem => OS::Tandem,
            OsName::OS400 => OS::OS400,
            OsName::Darwin => OS::Darwin,
            OsName::Unused => OS::Unused,
        }
    }

    /// Classifies a raw code, as [`OsName::from_u8`] does.
    pub fn from_u8(n: u8) -> (os: OS)
        ensures
            os == OS::named(OsName::of_code(n)),
    {
        match n {
            0 => OS::DOS,
            1 => OS::Amiga,
            2 => OS::OpenVMS,
            3 => OS::UNIX,
            4 => OS::VM,
            5 => OS::AtariST,
            6 => OS::OS2HPFS,
            7 => OS::Macintosh,
            8 => OS::ZSystem,
            9 => OS::CPM,
            10 => OS::WindowsNTFS,
            11 => OS::MVS,
            12 => OS::VSE,
            13 => OS::AcornRisc,
            14 => OS::VFAT,
            15 => OS::AlternateMVS,
            16 => OS::BeOS,
            17 => OS::Tandem,
            18 => OS::OS400,
            19 => OS::Darwin,
            _ => OS::Unused,
        }
    }
}

impl Default for OS {
    fn default() -> (os: OS)
        ensures
            os == OS::Unused,
    {
        OS::Unused
    }
}

/// The algorithm an entry is compressed with.
#[derive(Debug, Copy, Clone, PartialEq, Eq, Structural)]
pub enum CompressionMethod {
    Stored,
    Shrunk,
    Factor1,
    Factor2,
    Factor3,
    Factor4,
    Imploded,
    Reserved,
    Deflated,
    EnhancedDeflated,
    PKWareDclImploded,
    BZIP2,
    LZMA,
    IbmTerse,
    IbmLZ77z,
    PPMd,
    Unknown,
}

impl CompressionMethod {
    /// The algorithm that goes by `name` among the raw classifications.
    pub open spec fn named(name: CompressionMethodName) -> CompressionMethod {
        match name {
            CompressionMethodName::Stored => CompressionMethod::Stored,
            CompressionMethodName::Shrink => CompressionMethod::Shrunk,
            CompressionMethodName::Factor1 => CompressionMethod::Factor1,
            CompressionMethodName::Factor2 => CompressionMethod::Factor2,
            CompressionMethodName::Factor3 => CompressionMethod::Factor3,
            CompressionMethodName::Factor4 => CompressionMethod::Factor4,
            CompressionMethodName::Implode => CompressionMethod::Imploded,
            CompressionMethodName::Reserved => CompressionMethod::Reserved,
            CompressionMethodName::Deflate => CompressionMethod::Deflated,
            CompressionMethodName::EnhancedDeflate => CompressionMethod::EnhancedDeflated,
            CompressionMethodName::PKWareDclImplode => CompressionMethod::PKWareDclImploded,
            CompressionMethodName::Bzip2 => CompressionMethod::BZIP2,
            CompressionMethodName::Lzma => CompressionMethod::LZMA,
            CompressionMethodName::IbmTerse => CompressionMethod::IbmTerse,
            CompressionMethodName::IbmLZ77z => CompressionMethod::IbmLZ77z,
            CompressionMethodName::PPMd => CompressionMethod::PPMd,
            CompressionMethodName::Unknown => CompressionMethod::Unknown,
        }
    }

    /// The algorithm that the number `n` stands for: what the code table
    /// gives where `n` is a sixteen-bit code, and `Unknown` else.
    pub open spec fn of_code(n: int) -> CompressionMethod {
        if 0 <= n <= u16::MAX {
            CompressionMethod::named(CompressionMethodName::of_code(n as u16))
        } else {
            CompressionMethod::Unknown
        }
    }

    /// Classifies a number. Never fails: a number outside the code table
    /// is `Unknown`.
    pub fn from_i64(n: i64) -> (method: CompressionMethod)
        ensures
            method == CompressionMethod::of_code(n as int),
    {
        match n {
            0 => CompressionMethod::Stored,
            1 => CompressionMethod::Shrunk,
            2 => CompressionMethod::Factor1,
            3 => CompressionMethod::Factor2,
            4 => CompressionMethod::Factor3,
            5 => CompressionMethod::Factor4,
            6 => CompressionMethod::Imploded,
            7 | 11 | 13 | 15 | 16 | 17 => CompressionMethod::Reserved,
            8 => CompressionMethod::Deflated,
            9 => CompressionMethod::EnhancedDeflated,
            10 => CompressionMethod::PKWareDclImploded,
            12 => CompressionMethod::BZIP2,
            14 => CompressionMethod::LZMA,
            18 => CompressionMethod::IbmTerse,
            19 => CompressionMethod::IbmLZ77z,
            98 => CompressionMethod::PPMd,
            _ => CompressionMethod::Unknown,
        }
    }

    /// Classifies a code of one byte.
    pub fn from_u8(n: u8) -> (method: CompressionMethod)
        ensures
            method == CompressionMethod::of_code(n as int),
    {
        CompressionMethod::from_i64(n as i64)
    }

    /// Classifies a raw code, as [`CompressionMethodName::from_u16`] does.
    pub fn from_u16(n: u16) -> (method: CompressionMethod)
        ensures
            method == CompressionMethod::of_code(n as int),
            method == CompressionMethod::named(CompressionMethodName::of_code(n)),
    {
        CompressionMethod::from_i64(n as i64)
    }
}

impl Default for CompressionMethod {
    fn default() -> (method: CompressionMethod)
        ensures
            method == CompressionMethod::Stored,
    {
        CompressionMethod::Stored
    }
}

/// The external attributes of an entry. They are not unpacked.
#[derive(Debug, Clone, Copy, PartialEq, Eq, Structural)]
pub enum ExternalAttributes {
    TODO,
}

impl Default for ExternalAttributes {
    fn default() -> (attributes: ExternalAttributes)
        ensures
            attributes == ExternalAttributes::TODO,
    {
        ExternalAttributes::TODO
    }
}

/// The two bytes that spell `value` in little-endian order.
pub open spec fn le_bytes_u16(value: u16) -> Seq<u8> {
    seq![(value % 256) as u8, (value / 256) as u8]
}

/// The four bytes that spell `value` in little-endian order.
pub open spec fn le_bytes_u32(value: u32) -> Seq<u8> {
    seq![
        (value % 256) as u8,
        (value / 256 % 256) as u8,
        (value / 65536 % 256) as u8,
        (value / 16777216) as u8,
    ]
}

fn u16_bytes(value: u16) -> (bytes: [u8; 2])
    ensures
        bytes@ == le_bytes_u16(value),
        le_u16(bytes@, 0) == value,
{
    let bytes = [(value % 256) as u8, (value / 256) as u8];
    assert(bytes@ =~= le_bytes_u16(value));
    bytes
}

fn u32_bytes(value: u32) -> (bytes: [u8; 4])
    ensures
        bytes@ == le_bytes_u32(value),
        le_u32(bytes@, 0) == value,
{
    let bytes = [
        (value % 256) as u8,
        (value / 256 % 256) as u8,
        (value / 65536 % 256) as u8,
        (value / 16777216) as u8,
    ];
    assert(bytes@ =~= le_bytes_u32(value));
    bytes
}

/// `std::str::from_utf8`: the text that `bytes` spell in UTF-8, or nothing
/// where they spell none.
#[verifier::external_body]
fn text_of(bytes: &[u8]) -> (text: Option<&str>)
    ensures
        text matches Some(s) ==> valid_utf8(bytes@) && encode_utf8(s@) == bytes@,
        text.is_none() ==> !valid_utf8(bytes@),
{
    std::str::from_utf8(bytes).ok()
}

/// What a local header or a directory entry says of a file, unpacked and
/// owned.
#[derive(Debug)]
pub struct ZippedFileMetadata {
    pub version_needed: u16,
    pub compression_method: CompressionMethod,
    pub date_time_modified: DateTimeModified,
    pub flags: ZipFlags,
    pub name: String,
    pub compressed_size: u64,
    pub uncompressed_size: u64,
    pub crc: [u8; 4],
    pub extra_fields: Vec<u8>,
}

impl ZippedFileMetadata {
    /// Whether this is `raw` unpacked: the method classified, flags and
    /// timestamp taken apart, the name as the text that its bytes encode,
    /// the checksum as the four bytes that the header holds.
    pub open spec fn unpacks(self, raw: MetadataView) -> bool {
        &&& self.version_needed == raw.version_needed
        &&& self.compression_method == CompressionMethod::of_code(raw.compression_method.0 as int)
        &&& self.date_time_modified == DateTimeModified::of_bytes(
            le_bytes_u32(raw.date_time_modified.raw()),
        )
        &&& self.flags == ZipFlags::of_raw(raw.flags.0)
        &&& encode_utf8(self.name@) == raw.name
        &&& self.compressed_size == raw.compressed_size
        &&& self.uncompressed_size == raw.uncompressed_size
        &&& self.crc@ == le_bytes_u32(raw.crc)
        &&& self.extra_fields@ == raw.extra_field
    }

    /// Whether this is metadata of nothing: every number zero, the method
    /// "stored", no flag set, name and extra field empty.
    pub open spec fn is_empty(self) -> bool {
        &&& self.version_needed == 0
        &&& self.compression_method == CompressionMethod::Stored
        &&& self.date_time_modified == (DateTimeModified {
            second: 0,
            minute: 0,
            hour: 0,
            day: 0,
            month: 0,
            year: 0,
        })
        &&& self.flags == ZipFlags::of_raw(0)
        &&& self.name@.len() == 0
        &&& self.compressed_size == 0
        &&& self.uncompressed_size == 0
        &&& self.crc@ == seq![0u8, 0u8, 0u8, 0u8]
        &&& self.extra_fields@.len() == 0
    }

    /// Unpacks raw metadata. Fails where the name is not UTF-8.
    pub fn from_raw(raw: &Metadata) -> (metadata: Result<ZippedFileMetadata, ZipParseError>)
        ensures
            valid_utf8(raw@.name) ==> (metadata matches Ok(m) && m.unpacks(raw@)),
            !valid_utf8(raw@.name) ==> (metadata matches Err(ZipParseError::Generic(message))
                && message == NOT_UTF8),
    {
        let name = match text_of(raw.name) {
            Some(name) => name.to_owned(),
            None => {
                return Err(ZipParseError::Generic(NOT_UTF8));
            },
        };
        Ok(
            ZippedFileMetadata {
                version_needed: raw.version_needed,
                compression_method: CompressionMethod::from_u16(raw.compression_method.0),
                date_time_modified: DateTimeModified::from_bytes(
                    u32_bytes(raw.date_time_modified.to_u32()),
                ),
                flags: ZipFlags::from_bytes(u16_bytes(raw.flags.0)),
                name,
                compressed_size: raw.compressed_size,
                uncompressed_size: raw.uncompressed_size,
                crc: u32_bytes(raw.crc),
                extra_fields: slice_to_vec(raw.extra_field),
            },
        )
    }

    /// This metadata with checksum and sizes replaced by the descriptor's.
    pub fn corrected(self, descriptor: &DataDescriptor) -> (metadata: ZippedFileMetadata)
        ensures
            metadata.crc@ == le_bytes_u32(descriptor.crc),
            metadata.compressed_size == descriptor.compressed_size,
            metadata.uncompressed_size == descriptor.uncompressed_size,
            metadata.version_needed == self.version_needed,
            metadata.compression_method == self.compression_method,
            metadata.date_time_modified == self.date_time_modified,
            metadata.flags == self.flags,
            metadata.name == self.name,
            metadata.extra_fields == self.extra_fields,
    {
        ZippedFileMetadata {
            version_needed: self.version_needed,
            compression_method: self.compression_method,
            date_time_modified: self.date_time_modified,
            flags: self.flags,
            name: self.name,
            compressed_size: descriptor.compressed_size,
            uncompressed_size: descriptor.uncompressed_size,
            crc: u32_bytes(descriptor.crc),
            extra_fields: self.extra_fields,
        }
    }
}

impl Default for ZippedFileMetadata {
    /// Metadata of nothing: every number zero, name and extra field empty.
    fn default() -> (metadata: ZippedFileMetadata)
        ensures
            metadata.is_empty(),
    {
        let crc = [0u8, 0u8, 0u8, 0u8];
        assert(crc@ =~= seq![0u8, 0u8, 0u8, 0u8]);
        ZippedFileMetadata {
            version_needed: 0,
            compression_method: CompressionMethod::default(),
            date_time_modified: DateTimeModified::default(),
            flags: ZipFlags::default(),
            name: String::new(),
            compressed_size: 0,
            uncompressed_size: 0,
            crc,
            extra_fields: Vec::new(),
        }
    }
}

/// One entry of the central directory, unpacked and owned.
#[derive(Debug)]
pub struct CentralDirectory {
    pub os: OS,
    pub metadata: ZippedFileMetadata,
    pub comment: Option<String>,
    pub disk_num_start: u16,
    pub internal_attributes: InternalAttributes,
    pub external_attributes: ExternalAttributes,
    pub zip_specification_version: u8,
    pub local_header_offset: u32,
}

impl CentralDirectory {
    /// Whether this is `raw` unpacked. An empty comment is no comment.
    pub open spec fn unpacks(self, raw: CentralDirectoryFileHeaderView) -> bool {
        &&& self.os == OS::named(OsName::of_code(raw.os.0))
        &&& self.metadata.unpacks(raw.metadata)
        &&& match self.comment {
            Some(comment) => raw.comment.len() > 0 && encode_utf8(comment@) == raw.comment,
            None => raw.comment.len() == 0,
        }
        &&& self.disk_num_start == raw.disk_num_start
        &&& self.internal_attributes == InternalAttributes::of_raw(raw.internal_attributes.0)
        &&& self.external_attributes == ExternalAttributes::TODO
        &&& self.zip_specification_version == raw.zip_specification_version
        &&& self.local_header_offset == raw.local_header_offset
    }

    /// Whether the name and the comment of `raw` are UTF-8.
    pub open spec fn is_text(raw: CentralDirectoryFileHeaderView) -> bool {
        valid_utf8(raw.metadata.name) && valid_utf8(raw.comment)
    }

    /// Unpacks a raw directory entry. Fails where its name or its comment
    /// is not UTF-8.
    pub fn from_raw(raw: &CentralDirectoryFileHeader) -> (entry: Result<
        CentralDirectory,
        ZipParseError,
    >)
        ensures
            Self::is_text(raw@) ==> (entry matches Ok(e) && e.unpacks(raw@)),
            !Self::is_text(raw@) ==> (entry matches Err(ZipParseError::Generic(message))
                && message == NOT_UTF8),
    {
        let metadata = ZippedFileMetadata::from_raw(&raw.metadata)?;
        let comment = if raw.comment.len() > 0 {
            match text_of(raw.comment) {
                Some(comment) => Some(comment.to_owned()),
                None => {
                    return Err(ZipParseError::Generic(NOT_UTF8));
                },
            }
        } else {
            None
        };
        Ok(
            CentralDirectory {
                os: OS::from_u8(raw.os.0),
                metadata,
                comment,
                disk_num_start: raw.disk_num_start,
                internal_attributes: InternalAttributes::from_bytes(
                    u16_bytes(raw.internal_attributes.0),
                ),
                external_attributes: ExternalAttributes::TODO,
                zip_specification_version: raw.zip_specification_version,
                local_header_offset: raw.local_header_offset,
            },
        )
    }
}

impl Default for CentralDirectory {
    /// An entry of nothing: unused system, default metadata, no comment.
    fn default() -> (entry: CentralDirectory)
        ensures
            entry.os == OS::Unused,
            entry.comment.is_none(),
            entry.disk_num_start == 0,
            entry.internal_attributes == InternalAttributes::of_raw(0),
            entry.external_attributes == ExternalAttributes::TODO,
            entry.zip_specification_version == 0,
            entry.local_header_offset == 0,
            entry.metadata.is_empty(),
    {
        CentralDirectory {
            os: OS::default(),
            metadata: ZippedFileMetadata::default(),
            comment: None,
            disk_num_start: 0,
            internal_attributes: InternalAttributes::default(),
            external_attributes: ExternalAttributes::default(),
            zip_specification_version: 0,
            local_header_offset: 0,
        }
    }
}

} // verus!
