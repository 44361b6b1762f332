use zip_rs::decoded::{
    CentralDirectory, CompressionMethod, DateTimeModified, ExternalAttributes,
    InternalAttributes, ZipFlags, ZippedFileMetadata, OS,
};
use zip_rs::{
    CentralDirectoryFileHeader, DataDescriptor, Metadata, Os, ZipParseError,
};

fn raw_metadata<'a>(name: &'a [u8], extra: &'a [u8]) -> Metadata<'a> {
    Metadata {
        version_needed: 20,
        compression_method: zip_rs::CompressionMethod(8),
        date_time_modified: zip_rs::DateTimeModified::from_u32(0x2acb_b1aa),
        flags: zip_rs::ZipFlags(0x0808),
        name,
        extra_field: extra,
        compressed_size: 3,
        uncompressed_size: 9,
        crc: 0x1234_5678,
    }
}

fn raw_entry<'a>(name: &'a [u8], comment: &'a [u8]) -> CentralDirectoryFileHeader<'a> {
    CentralDirectoryFileHeader {
        os: Os(3),
        metadata: raw_metadata(name, b"ex"),
        disk_num_start: 2,
        internal_attributes: zip_rs::InternalAttributes(0x0005),
        external_attributes: zip_rs::ExternalAttributes(0x81a4_0000),
        zip_specification_version: 30,
        local_header_offset: 77,
        comment,
    }
}

#[test]
fn each_flag_is_the_bit_of_its_mask() {
    let none = ZipFlags::from_bytes([0, 0]);
    assert_eq!(none, ZipFlags::default());
    assert!(!none.is_encrypted && !none.has_data_descriptor && !none.is_utf8);

    assert_eq!(ZipFlags::from_bytes([0x01, 0]), ZipFlags { is_encrypted: true, ..none });
    assert_eq!(ZipFlags::from_bytes([0x08, 0]), ZipFlags { has_data_descriptor: true, ..none });
    assert_eq!(ZipFlags::from_bytes([0x10, 0]), ZipFlags { enhanced_deflation: true, ..none });
    assert_eq!(ZipFlags::from_bytes([0x20, 0]), ZipFlags { compressed_patched_data: true, ..none });
    assert_eq!(ZipFlags::from_bytes([0x40, 0]), ZipFlags { strong_encryption: true, ..none });
    assert_eq!(ZipFlags::from_bytes([0, 0x08]), ZipFlags { is_utf8: true, ..none });
    assert_eq!(ZipFlags::from_bytes([0, 0x20]), ZipFlags { mask_header_values: true, ..none });
    // The bits that carry no flag.
    assert_eq!(ZipFlags::from_bytes([0x86, 0xd7]), none);
    assert_eq!(
        ZipFlags::from_bytes([0xff, 0xff]),
        ZipFlags {
            is_encrypted: true,
            has_data_descriptor: true,
            enhanced_deflation: true,
            compressed_patched_data: true,
            strong_encryption: true,
            is_utf8: true,
            mask_header_values: true,
        }
    );
}

#[test]
fn unpacked_flags_agree_with_the_raw_masks() {
    for raw in 0..=u16::MAX {
        let flags = ZipFlags::from_bytes(raw.to_le_bytes());
        assert_eq!(flags.is_encrypted, raw & zip_rs::ZipFlags::ENCRYPTED_FILE != 0);
        assert_eq!(flags.has_data_descriptor, zip_rs::ZipFlags(raw).has_data_descriptor());
        assert_eq!(flags.enhanced_deflation, raw & zip_rs::ZipFlags::ENHANCED_DEFLATION != 0);
        assert_eq!(
            flags.compressed_patched_data,
            raw & zip_rs::ZipFlags::COMPRESSED_PATCHED_DATA != 0
        );
        assert_eq!(flags.strong_encryption, raw & zip_rs::ZipFlags::STRONG_ENCRYPTION != 0);
        assert_eq!(flags.is_utf8, raw & zip_rs::ZipFlags::LANGUAGE_ENCODING != 0);
        assert_eq!(flags.mask_header_values, raw & zip_rs::ZipFlags::MASK_HEADER_VALUES != 0);
    }
}

#[test]
fn internal_attributes_are_the_bits_of_their_masks() {
    let none = InternalAttributes::default();
    assert_eq!(InternalAttributes::from_bytes([0, 0]), none);
    assert_eq!(
        InternalAttributes::from_bytes([0x01, 0]),
        InternalAttributes { is_ascii: true, ..none }
    );
    assert_eq!(
        InternalAttributes::from_bytes([0x04, 0]),
        InternalAttributes { control_field_records_precede_logical_records: true, ..none }
    );
    assert_eq!(InternalAttributes::from_bytes([0xfa, 0xff]), none);
    for raw in 0..=u16::MAX {
        let attributes = InternalAttributes::from_bytes(raw.to_le_bytes());
        assert_eq!(attributes.is_ascii, raw & zip_rs::InternalAttributes::IS_ASCII != 0);
        assert_eq!(
            attributes.control_field_records_precede_logical_records,
            raw & zip_rs::InternalAttributes::CONTROL_FIELD_RECORDS_PRECEDE_LOGICAL_RECORDS != 0
        );
    }
}

#[test]
fn timestamp_fields_are_runs_of_bits() {
    // 10101 010101 10001 | 11001 0111 0101010
    let t = DateTimeModified::from_bytes([0b1010_1010, 0b1011_0001, 0b1100_1011, 0b1010_1010]);
    assert_eq!(
        t,
        DateTimeModified { second: 42, minute: 21, hour: 17, day: 25, month: 7, year: 2022 }
    );
    assert_eq!(
        DateTimeModified::from_bytes([0, 0, 0, 0]),
        DateTimeModified { second: 0, minute: 0, hour: 0, day: 0, month: 0, year: 1980 }
    );
    assert_eq!(
        DateTimeModified::from_bytes([0xff, 0xff, 0xff, 0xff]),
        DateTimeModified { second: 62, minute: 63, hour: 31, day: 31, month: 15, year: 2107 }
    );
    assert_eq!(
        DateTimeModified::default(),
        DateTimeModified { second: 0, minute: 0, hour: 0, day: 0, month: 0, year: 0 }
    );
}

#[test]
fn timestamp_fields_follow_the_formula() {
    for first in 0..=255u8 {
        for second in 0..=255u8 {
            let t = DateTimeModified::from_bytes([first, second, second, first]);
            assert_eq!(t.second, 2 * (first / 8));
            assert_eq!(t.minute, (first % 8) * 8 + second / 32);
            assert_eq!(t.hour, second % 32);
            assert_eq!(t.day, second / 8);
            assert_eq!(t.month, (second % 8) * 2 + first / 128);
            assert_eq!(t.year, 1980 + (first % 128) as u16);
        }
    }
}

#[test]
fn systems_are_classified() {
    let table = [
        OS::DOS,
        OS::Amiga,
        OS::OpenVMS,
        OS::UNIX,
        OS::VM,
        OS::AtariST,
        OS::OS2HPFS,
        OS::Macintosh,
        OS::ZSystem,
        OS::CPM,
        OS::WindowsNTFS,
        OS::MVS,
        OS::VSE,
        OS::AcornRisc,
        OS::VFAT,
        OS::AlternateMVS,
        OS::BeOS,
        OS::Tandem,
        OS::OS400,
        OS::Darwin,
    ];
    for (code, os) in table.iter().enumerate() {
        assert_eq!(OS::from_u8(code as u8), *os);
    }
    for code in 20..=255u8 {
        assert_eq!(OS::from_u8(code), OS::Unused);
    }
    assert_eq!(OS::default(), OS::Unused);
}

#[test]
fn methods_are_classified() {
    let table = [
        (0, CompressionMethod::Stored),
        (1, CompressionMethod::Shrunk),
        (2, CompressionMethod::Factor1),
        (3, CompressionMethod::Factor2),
        (4, CompressionMethod::Factor3),
        (5, CompressionMethod::Factor4),
        (6, CompressionMethod::Imploded),
        (7, CompressionMethod::Reserved),
        (8, CompressionMethod::Deflated),
        (9, CompressionMethod::EnhancedDeflated),
        (10, CompressionMethod::PKWareDclImploded),
        (11, CompressionMethod::Reserved),
        (12, CompressionMethod::BZIP2),
        (13, CompressionMethod::Reserved),
        (14, CompressionMethod::LZMA),
        (15, CompressionMethod::Reserved),
        (16, CompressionMethod::Reserved),
        (17, CompressionMethod::Reserved),
        (18, CompressionMethod::IbmTerse),
        (19, CompressionMethod::IbmLZ77z),
        (98, CompressionMethod::PPMd),
    ];
    for (code, method) in table {
        assert_eq!(CompressionMethod::from_i64(code), method);
        assert_eq!(CompressionMethod::from_u8(code as u8), method);
        assert_eq!(CompressionMethod::from_u16(code as u16), method);
    }
    for code in [-1i64, 20, 97, 99, 255, 256, 65535, 65536, 65536 + 8, i64::MIN, i64::MAX] {
        assert_eq!(CompressionMethod::from_i64(code), CompressionMethod::Unknown);
    }
    assert_eq!(CompressionMethod::from_u8(255), CompressionMethod::Unknown);
    assert_eq!(CompressionMethod::from_u16(0x0108), CompressionMethod::Unknown);
    assert_eq!(CompressionMethod::default(), CompressionMethod::Stored);
    assert_eq!(ExternalAttributes::default(), ExternalAttributes::TODO);
}

#[test]
fn metadata_is_unpacked() {
    let raw = raw_metadata("na\u{ef}ve.txt".as_bytes(), b"\x01\x02");
    let metadata = ZippedFileMetadata::from_raw(&raw).unwrap();
    assert_eq!(metadata.version_needed, 20);
    assert_eq!(metadata.compression_method, CompressionMethod::Deflated);
    assert_eq!(
        metadata.date_time_modified,
        DateTimeModified::from_bytes([0xaa, 0xb1, 0xcb, 0x2a])
    );
    assert_eq!(metadata.date_time_modified.year, 1980 + 0x2a);
    assert!(metadata.flags.has_data_descriptor);
    assert!(metadata.flags.is_utf8);
    assert!(!metadata.flags.is_encrypted);
    assert_eq!(metadata.name, "na\u{ef}ve.txt");
    assert_eq!(metadata.compressed_size, 3);
    assert_eq!(metadata.uncompressed_size, 9);
    assert_eq!(metadata.crc, [0x78, 0x56, 0x34, 0x12]);
    assert_eq!(metadata.extra_fields, vec![1, 2]);
}

#[test]
fn name_that_is_not_utf8_is_refused() {
    let raw = raw_metadata(b"bad\xff name", b"");
    match ZippedFileMetadata::from_raw(&raw) {
        Err(ZipParseError::Generic(message)) => assert_eq!(message, "text is not UTF-8"),
        other => panic!("expected a refusal, got {:?}", other),
    }
    // A sequence that is cut short is no text either.
    let raw = raw_metadata(b"cut \xe2\x82", b"");
    assert!(matches!(ZippedFileMetadata::from_raw(&raw), Err(ZipParseError::Generic(_))));
}

#[test]
fn descriptor_corrects_unpacked_metadata() {
    let raw = raw_metadata(b"a", b"x");
    let metadata = ZippedFileMetadata::from_raw(&raw).unwrap();
    let descriptor =
        DataDescriptor { crc: 0xa1b2_c3d4, compressed_size: 10, uncompressed_size: 20 };
    let corrected = metadata.corrected(&descriptor);
    assert_eq!(corrected.crc, [0xd4, 0xc3, 0xb2, 0xa1]);
    assert_eq!(corrected.compressed_size, 10);
    assert_eq!(corrected.uncompressed_size, 20);
    assert_eq!(corrected.name, "a");
    assert_eq!(corrected.extra_fields, vec![b'x']);
    assert_eq!(corrected.compression_method, CompressionMethod::Deflated);
}

#[test]
fn default_metadata_is_empty() {
    let metadata = ZippedFileMetadata::default();
    assert_eq!(metadata.version_needed, 0);
    assert_eq!(metadata.compression_method, CompressionMethod::Stored);
    assert_eq!(metadata.date_time_modified, DateTimeModified::default());
    assert_eq!(metadata.flags, ZipFlags::default());
    assert_eq!(metadata.name, "");
    assert_eq!(metadata.compressed_size, 0);
    assert_eq!(metadata.uncompressed_size, 0);
    assert_eq!(metadata.crc, [0; 4]);
    assert!(metadata.extra_fields.is_empty());

    let entry = CentralDirectory::default();
    assert_eq!(entry.os, OS::Unused);
    assert_eq!(entry.comment, None);
    assert_eq!(entry.disk_num_start, 0);
    assert_eq!(entry.internal_attributes, InternalAttributes::default());
    assert_eq!(entry.external_attributes, ExternalAttributes::TODO);
    assert_eq!(entry.zip_specification_version, 0);
    assert_eq!(entry.local_header_offset, 0);
    assert_eq!(entry.metadata.name, "");
}

#[test]
fn directory_entry_is_unpacked() {
    let raw = raw_entry(b"dir/file", b"a comment");
    let entry = CentralDirectory::from_raw(&raw).unwrap();
    assert_eq!(entry.os, OS::UNIX);
    assert_eq!(entry.metadata.name, "dir/file");
    assert_eq!(entry.metadata.extra_fields, b"ex".to_vec());
    assert_eq!(entry.comment.as_deref(), Some("a comment"));
    assert_eq!(entry.disk_num_start, 2);
    assert_eq!(
        entry.internal_attributes,
        InternalAttributes { is_ascii: true, control_field_records_precede_logical_records: true }
    );
    assert_eq!(entry.external_attributes, ExternalAttributes::TODO);
    assert_eq!(entry.zip_specification_version, 30);
    assert_eq!(entry.local_header_offset, 77);
}

#[test]
fn empty_comment_is_no_comment() {
    let raw = raw_entry(b"f", b"");
    let entry = CentralDirectory::from_raw(&raw).unwrap();
    assert_eq!(entry.comment, None);
}

#[test]
fn comment_or_name_that_is_not_utf8_is_refused() {
    let raw = raw_entry(b"f", b"\xc0 comment");
    assert!(matches!(
        CentralDirectory::from_raw(&raw),
        Err(ZipParseError::Generic("text is not UTF-8"))
    ));
    let raw = raw_entry(b"\x80", b"fine");
    assert!(matches!(
        CentralDirectory::from_raw(&raw),
        Err(ZipParseError::Generic("text is not UTF-8"))
    ));
}
