use zip_rs::{
    CompressionMethod, CompressionMethodName, DateTimeModified, InternalAttributes, Os, OsName,
    RecordKind, ZipFlags, CENTRAL_DIRECTORY_FILE_SIGNATURE, DATA_DESCRIPTOR_SIGNATURE,
    END_CENTRAL_DIRECTORY_SIGNATURE, LOCAL_FILE_SIGNATURE,
};

#[test]
fn signatures() {
    assert_eq!(LOCAL_FILE_SIGNATURE, [0x50, 0x4b, 0x03, 0x04]);
    assert_eq!(CENTRAL_DIRECTORY_FILE_SIGNATURE, [0x50, 0x4b, 0x01, 0x02]);
    assert_eq!(DATA_DESCRIPTOR_SIGNATURE, [0x08, 0x07, 0x4b, 0x50]);
    assert_eq!(END_CENTRAL_DIRECTORY_SIGNATURE, [0x50, 0x4b, 0x05, 0x06]);
}

#[test]
fn os_codes() {
    let table = [
        OsName::Dos,
        OsName::Amiga,
        OsName::OpenVMS,
        OsName::Unix,
        OsName::VM,
        OsName::AtariST,
        OsName::OS2HPFS,
        OsName::Macintosh,
        OsName::ZSystem,
        OsName::Cpm,
        OsName::WindowsNtfs,
        OsName::Mvs,
        OsName::Vse,
        OsName::AcornRisc,
        OsName::Vfat,
        OsName::AlternateMVS,
        OsName::BeOS,
        OsName::Tandem,
        OsName::OS400,
        OsName::Darwin,
    ];
    for (code, name) in table.iter().enumerate() {
        assert_eq!(OsName::from_u8(code as u8), *name);
        assert_eq!(Os(code as u8).name(), *name);
    }
    for code in 20..=255u8 {
        assert_eq!(OsName::from_u8(code), OsName::Unused);
        assert_eq!(Os(code).name(), OsName::Unused);
    }
}

#[test]
fn compression_method_codes() {
    let table = [
        (0, CompressionMethodName::Stored),
        (1, CompressionMethodName::Shrink),
        (2, CompressionMethodName::Factor1),
        (3, CompressionMethodName::Factor2),
        (4, CompressionMethodName::Factor3),
        (5, CompressionMethodName::Factor4),
        (6, CompressionMethodName::Implode),
        (7, CompressionMethodName::Reserved),
        (8, CompressionMethodName::Deflate),
        (9, CompressionMethodName::EnhancedDeflate),
        (10, CompressionMethodName::PKWareDclImplode),
        (11, CompressionMethodName::Reserved),
        (12, CompressionMethodName::Bzip2),
        (13, CompressionMethodName::Reserved),
        (14, CompressionMethodName::Lzma),
        (15, CompressionMethodName::Reserved),
        (16, CompressionMethodName::Reserved),
        (17, CompressionMethodName::Reserved),
        (18, CompressionMethodName::IbmTerse),
        (19, CompressionMethodName::IbmLZ77z),
        (98, CompressionMethodName::PPMd),
    ];
    for (code, name) in table {
        assert_eq!(CompressionMethodName::from_u16(code), name);
        assert_eq!(CompressionMethod(code).name(), name);
    }
    for code in (20..98u16).chain(99..=u16::MAX) {
        assert_eq!(CompressionMethodName::from_u16(code), CompressionMethodName::Unknown);
    }
}

#[test]
fn data_descriptor_flag_is_bit_three() {
    assert!(ZipFlags(0x0008).has_data_descriptor());
    assert!(ZipFlags(0xffff).has_data_descriptor());
    assert!(ZipFlags(0x0808).has_data_descriptor());
    assert!(!ZipFlags(0).has_data_descriptor());
    assert!(!ZipFlags(0xfff7).has_data_descriptor());
    assert!(!ZipFlags(0x0004).has_data_descriptor());
    assert!(!ZipFlags(0x0010).has_data_descriptor());
    for flags in 0..=u16::MAX {
        assert_eq!(ZipFlags(flags).has_data_descriptor(), (flags >> 3) & 1 == 1);
    }
}

#[test]
fn flag_masks() {
    assert_eq!(ZipFlags::ENCRYPTED_FILE, 1 << 0);
    assert_eq!(ZipFlags::COMPRESSION_OPTION1, 1 << 1);
    assert_eq!(ZipFlags::COMPRESSION_OPTION2, 1 << 2);
    assert_eq!(ZipFlags::DATA_DESCRIPTOR, 1 << 3);
    assert_eq!(ZipFlags::ENHANCED_DEFLATION, 1 << 4);
    assert_eq!(ZipFlags::COMPRESSED_PATCHED_DATA, 1 << 5);
    assert_eq!(ZipFlags::STRONG_ENCRYPTION, 1 << 6);
    assert_eq!(ZipFlags::LANGUAGE_ENCODING, 1 << 11);
    assert_eq!(ZipFlags::RESERVED, 1 << 12);
    assert_eq!(ZipFlags::MASK_HEADER_VALUES, 1 << 13);
    assert_eq!(InternalAttributes::IS_ASCII, 1 << 0);
    assert_eq!(InternalAttributes::RESERVED, 1 << 1);
    assert_eq!(InternalAttributes::CONTROL_FIELD_RECORDS_PRECEDE_LOGICAL_RECORDS, 1 << 2);
}

#[test]
fn timestamps_compare_by_their_raw_number() {
    assert_eq!(DateTimeModified::from_u32(7), DateTimeModified::from_u32(7));
    assert_ne!(DateTimeModified::from_u32(7), DateTimeModified::from_u32(8));
}

#[test]
fn signatures_announce_their_records() {
    assert_eq!(RecordKind::of_signature(LOCAL_FILE_SIGNATURE), RecordKind::LocalFile);
    assert_eq!(
        RecordKind::of_signature(CENTRAL_DIRECTORY_FILE_SIGNATURE),
        RecordKind::CentralDirectoryEntry
    );
    assert_eq!(
        RecordKind::of_signature(END_CENTRAL_DIRECTORY_SIGNATURE),
        RecordKind::EndOfCentralDirectory
    );
    assert_eq!(RecordKind::of_signature([0x50, 0x4b, 0x07, 0x08]), RecordKind::DataDescriptor);
    // The descriptor's signature as a number is not what lies in the file.
    assert_eq!(RecordKind::of_signature(DATA_DESCRIPTOR_SIGNATURE), RecordKind::Unknown);
    assert_eq!(RecordKind::of_signature([0x50, 0x4b, 0x03, 0x05]), RecordKind::Unknown);
    assert_eq!(RecordKind::of_signature([0x51, 0x4b, 0x03, 0x04]), RecordKind::Unknown);
    assert_eq!(RecordKind::of_signature([0x50, 0x4a, 0x01, 0x02]), RecordKind::Unknown);
    assert_eq!(RecordKind::of_signature([0; 4]), RecordKind::Unknown);
    assert_eq!(RecordKind::of_signature([20, 0, 0, 0]), RecordKind::Unknown);
}
