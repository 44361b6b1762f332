use zip_rs::parse::Parser;
use zip_rs::{
    CompressionMethod, ZipFlags, ZipParseError, CENTRAL_DIRECTORY_FILE_SIGNATURE,
    DATA_DESCRIPTOR_SIGNATURE, END_CENTRAL_DIRECTORY_SIGNATURE, LOCAL_FILE_SIGNATURE,
};

#[test]
fn integers_are_little_endian() {
    let bytes = [0x34, 0x12, 0x78, 0x56, 0x34, 0x12, 0xff];
    let mut parser = Parser::new(&bytes);
    assert_eq!(parser.read_u16().unwrap(), 0x1234);
    assert_eq!(parser.read_u32().unwrap(), 0x1234_5678);
    assert_eq!(parser.read_byte().unwrap(), 0xff);
    assert!(matches!(parser.read_byte(), Err(ZipParseError::UnexpectedEof)));
}

#[test]
fn largest_integers_are_read() {
    let bytes = [0xff; 6];
    let mut parser = Parser::new(&bytes);
    assert_eq!(parser.read_u32().unwrap(), u32::MAX);
    assert_eq!(parser.read_u16().unwrap(), u16::MAX);
}

#[test]
fn a_read_that_fails_consumes_nothing() {
    let bytes = [1, 2, 3];
    let mut parser = Parser::new(&bytes);
    assert!(matches!(parser.read_u32(), Err(ZipParseError::UnexpectedEof)));
    assert_eq!(parser.skip_u32(), None);
    assert_eq!(parser.read_u16().unwrap(), 0x0201);
    assert!(matches!(parser.read_u16(), Err(ZipParseError::UnexpectedEof)));
    assert!(matches!(parser.get_byte_range(2), Err(ZipParseError::UnexpectedEof)));
    assert_eq!(parser._read_byte(), Some(3));
    assert_eq!(parser._read_byte(), None);
    assert_eq!(parser.get_byte_range(0).unwrap(), b"");
}

#[test]
fn skip_u32_reads_four_bytes() {
    let bytes = [0x50, 0x4b, 0x07, 0x08, 9];
    let mut parser = Parser::new(&bytes);
    assert_eq!(parser.skip_u32(), Some(0x0807_4b50));
    assert_eq!(parser.skip_u32(), None);
    assert_eq!(parser.read_byte().unwrap(), 9);
    assert_eq!(u32::from_be_bytes(DATA_DESCRIPTOR_SIGNATURE), 0x0807_4b50);
}

#[test]
fn has_counts_what_is_left() {
    let bytes = [0u8; 5];
    let mut parser = Parser::new(&bytes);
    assert!(parser.has(5));
    assert!(!parser.has(6));
    parser.seek(5);
    assert!(parser.has(0));
    assert!(!parser.has(1));
    parser.seek(6);
    assert!(!parser.has(0));
    parser.seek(usize::MAX);
    assert!(!parser.has(0));
    assert!(!parser.has(usize::MAX));
    assert!(matches!(parser.read_byte(), Err(ZipParseError::UnexpectedEof)));
    assert!(matches!(parser.get_byte_range(0), Err(ZipParseError::UnexpectedEof)));
}

#[test]
fn read_signature_moves_on_a_match_only() {
    let bytes = [0x50, 0x4b, 0x01, 0x02, 0x50, 0x4b, 0x05, 0x06];
    let mut parser = Parser::new(&bytes);
    assert!(!parser.read_signature(LOCAL_FILE_SIGNATURE));
    assert!(!parser.read_signature(END_CENTRAL_DIRECTORY_SIGNATURE));
    assert!(parser.read_signature(CENTRAL_DIRECTORY_FILE_SIGNATURE));
    assert!(!parser.read_signature(CENTRAL_DIRECTORY_FILE_SIGNATURE));
    assert!(parser.read_signature(END_CENTRAL_DIRECTORY_SIGNATURE));
    assert!(!parser.read_signature(END_CENTRAL_DIRECTORY_SIGNATURE));
}

#[test]
fn read_signature_needs_four_bytes() {
    let bytes = [0x50, 0x4b, 0x01];
    let mut parser = Parser::new(&bytes);
    assert!(!parser.read_signature(CENTRAL_DIRECTORY_FILE_SIGNATURE));
    assert_eq!(parser.read_byte().unwrap(), 0x50);
}

#[test]
fn expect_signature_reports_what_it_found() {
    let bytes = [0x50, 0x4b, 0x01, 0x02, 7];
    let mut parser = Parser::new(&bytes);
    match parser.expect_signature(LOCAL_FILE_SIGNATURE) {
        Err(ZipParseError::MalformedSignature { found, expected }) => {
            assert_eq!(found, [0x50, 0x4b, 0x01, 0x02]);
            assert_eq!(expected, [0x50, 0x4b, 0x03, 0x04]);
        }
        other => panic!("expected a mismatch, got {:?}", other),
    }
    // Nothing was consumed.
    assert!(parser.expect_signature(CENTRAL_DIRECTORY_FILE_SIGNATURE).is_ok());
    // One byte is left: the buffer ends before the signature does.
    assert!(matches!(
        parser.expect_signature(CENTRAL_DIRECTORY_FILE_SIGNATURE),
        Err(ZipParseError::UnexpectedEof)
    ));
    assert_eq!(parser.read_byte().unwrap(), 7);
}

#[test]
fn byte_ranges_are_slices_of_the_buffer() {
    let bytes = *b"0123456789";
    let mut parser = Parser::new(&bytes);
    let first = parser.get_byte_range(3).unwrap();
    let second = parser.get_byte_range(0).unwrap();
    let third = parser.get_byte_range(7).unwrap();
    assert_eq!(first, b"012");
    assert_eq!(second, b"");
    assert_eq!(third, b"3456789");
    assert_eq!(first.as_ptr(), bytes.as_ptr());
    assert_eq!(third.as_ptr(), bytes[3..].as_ptr());
    assert!(matches!(parser.get_byte_range(1), Err(ZipParseError::UnexpectedEof)));
}

#[test]
fn end_record_is_read_at_an_offset() {
    let mut bytes = vec![0xaa, 0xbb];
    bytes.extend_from_slice(&[0x50, 0x4b, 0x05, 0x06]);
    bytes.extend_from_slice(&[1, 0, 2, 0, 3, 0, 4, 0]);
    bytes.extend_from_slice(&[0x78, 0x56, 0x34, 0x12]);
    bytes.extend_from_slice(&[0x0d, 0xf0, 0xad, 0x0b]);
    bytes.extend_from_slice(&[2, 0, b'h', b'i', 0x99]);
    let mut parser = Parser::new(&bytes);
    let end = parser.read_end_central_directory(2).unwrap();
    assert_eq!(end.disk_num, 1);
    assert_eq!(end.disk_central_dir_num, 2);
    assert_eq!(end.disk_entires, 3);
    assert_eq!(end.total_entires, 4);
    assert_eq!(end.central_dir_size, 0x1234_5678);
    assert_eq!(end.central_dir_offset, 0x0bad_f00d);
    // The comment was skipped.
    assert_eq!(parser.read_byte().unwrap(), 0x99);

    assert!(matches!(
        parser.read_end_central_directory(0),
        Err(ZipParseError::MalformedSignature { found: [0xaa, 0xbb, 0x50, 0x4b], .. })
    ));
    // The cursor stays at the offset of a record that was not read.
    assert_eq!(parser.read_byte().unwrap(), 0xaa);
    assert!(matches!(parser.read_end_central_directory(40), Err(ZipParseError::UnexpectedEof)));
    assert!(matches!(
        parser.read_end_central_directory(bytes.len() - 3),
        Err(ZipParseError::UnexpectedEof)
    ));
}

#[test]
fn end_record_cut_short_is_unexpected_eof() {
    let mut bytes = vec![0x50, 0x4b, 0x05, 0x06];
    bytes.extend_from_slice(&[0u8; 17]);
    let mut parser = Parser::new(&bytes);
    assert!(matches!(parser.read_end_central_directory(0), Err(ZipParseError::UnexpectedEof)));
    assert!(parser.read_signature(END_CENTRAL_DIRECTORY_SIGNATURE));
}

#[test]
fn data_descriptor_with_and_without_signature() {
    let signed = [
        0x50, 0x4b, 0x07, 0x08, 1, 0, 0, 0, 2, 0, 0, 0, 3, 0, 0, 0, 0xee,
    ];
    let mut parser = Parser::new(&signed);
    let descriptor = parser.read_data_descriptor().unwrap();
    assert_eq!(descriptor.crc, 1);
    assert_eq!(descriptor.compressed_size, 2);
    assert_eq!(descriptor.uncompressed_size, 3);
    assert_eq!(parser.read_byte().unwrap(), 0xee);

    let bare = [9, 0, 0, 0, 8, 0, 0, 0, 7, 0, 0, 0, 0xee];
    let mut parser = Parser::new(&bare);
    let descriptor = parser.read_data_descriptor().unwrap();
    assert_eq!(descriptor.crc, 9);
    assert_eq!(descriptor.compressed_size, 8);
    assert_eq!(descriptor.uncompressed_size, 7);
    assert_eq!(parser.read_byte().unwrap(), 0xee);

    // Signed, and one byte short.
    let mut parser = Parser::new(&signed[..15]);
    assert!(matches!(parser.read_data_descriptor(), Err(ZipParseError::UnexpectedEof)));
    assert_eq!(parser.read_byte().unwrap(), 0x50);
}

#[test]
fn metadata_is_read_behind_the_signature() {
    let mut bytes = vec![20, 0, 0, 0, 8, 0];
    bytes.extend_from_slice(&[0x8c, 0x6b, 0x21, 0x5a]);
    bytes.extend_from_slice(&[0xef, 0xbe, 0xad, 0xde]);
    bytes.extend_from_slice(&[3, 0, 0, 0]);
    bytes.extend_from_slice(&[9, 0, 0, 0]);
    bytes.extend_from_slice(&[4, 0, 2, 0]);
    bytes.extend_from_slice(b"nameexDATA");
    let mut parser = Parser::new(&bytes);
    let metadata = parser.read_metadata().unwrap();
    assert_eq!(metadata.version_needed, 20);
    assert_eq!(metadata.flags, ZipFlags(0));
    assert_eq!(metadata.compression_method, CompressionMethod(8));
    assert_eq!(metadata.crc, 0xdead_beef);
    assert_eq!(metadata.compressed_size, 3);
    assert_eq!(metadata.uncompressed_size, 9);
    assert_eq!(metadata.name, b"name");
    assert_eq!(metadata.extra_field, b"ex");
    // The cursor is at the entry's data.
    assert_eq!(parser.get_byte_range(4).unwrap(), b"DATA");

    let mut parser = Parser::new(&bytes[..29]);
    assert!(matches!(parser.read_metadata(), Err(ZipParseError::UnexpectedEof)));
    assert_eq!(parser.read_u16().unwrap(), 20);
}

#[test]
fn directory_walk_stops_where_the_signature_does_not_recur() {
    let mut bytes = vec![0xff; 3];
    for name in [&b"one"[..], &b"three"[..]] {
        bytes.extend_from_slice(&[0x50, 0x4b, 0x01, 0x02]);
        bytes.extend_from_slice(&[0u8; 24]);
        bytes.extend_from_slice(&[name.len() as u8, 0, 0, 0, 0, 0]);
        bytes.extend_from_slice(&[0u8; 12]);
        bytes.extend_from_slice(name);
    }
    bytes.extend_from_slice(b"PK\x05\x06 and so on");
    let mut parser = Parser::new(&bytes);
    let headers = parser.read_central_directory_file_headers(3).unwrap();
    assert_eq!(headers.len(), 2);
    assert_eq!(headers[0].metadata.name, b"one");
    assert_eq!(headers[1].metadata.name, b"three");
    assert!(parser.read_signature(END_CENTRAL_DIRECTORY_SIGNATURE));

    let none = parser.read_central_directory_file_headers(0).unwrap();
    assert!(none.is_empty());
    assert_eq!(parser.read_byte().unwrap(), 0xff);
}

#[test]
fn parse_central_directory_leaves_the_cursor_on_failure() {
    let bytes = [7u8, 8, 9];
    let mut parser = Parser::new(&bytes);
    parser.seek(1);
    assert!(matches!(
        parser.parse_central_directory(),
        Err(ZipParseError::MissingCentralDirectory)
    ));
    assert_eq!(parser.read_byte().unwrap(), 8);
}

#[test]
fn header_is_read_as_it_stands() {
    // The flags announce a data descriptor; the header is read without it.
    let mut bytes = vec![20, 0, 0x08, 0, 0, 0];
    bytes.extend_from_slice(&[0u8; 4]);
    bytes.extend_from_slice(&[0u8; 12]);
    bytes.extend_from_slice(&[1, 0, 0, 0]);
    bytes.extend_from_slice(b"n");
    let mut parser = Parser::new(&bytes);
    assert_eq!(parser.header_rest().unwrap(), 1);
    let header = parser.read_header().unwrap();
    assert!(header.flags.has_data_descriptor());
    assert_eq!(header.compressed_size, 0);
    assert_eq!(header.name, b"n");
    assert!(!parser.has(1));

    // The whole metadata wants the descriptor, which is not there.
    let mut parser = Parser::new(&bytes);
    assert!(matches!(parser.read_metadata(), Err(ZipParseError::UnexpectedEof)));
    assert_eq!(parser.read_u16().unwrap(), 20);
}

#[test]
fn lengths_are_told_without_reading() {
    let mut header = vec![0u8; 26];
    header[22] = 0x34;
    header[23] = 0x12;
    header[24] = 5;
    let parser = Parser::new(&header);
    assert_eq!(parser.header_rest().unwrap(), 0x1234 + 5);
    assert!(parser.has(26));
    assert!(matches!(Parser::new(&header[..25]).header_rest(), Err(ZipParseError::UnexpectedEof)));

    let mut entry = vec![0u8; 42];
    entry[24] = 1;
    entry[26] = 2;
    entry[28] = 0xff;
    entry[29] = 0xff;
    assert_eq!(Parser::new(&entry).entry_rest().unwrap(), 1 + 2 + 0xffff);
    assert!(matches!(Parser::new(&entry[..41]).entry_rest(), Err(ZipParseError::UnexpectedEof)));

    assert_eq!(Parser::new(&[0x50, 0x4b, 0x07, 0x08]).descriptor_rest().unwrap(), 12);
    assert_eq!(Parser::new(&[0x50, 0x4b, 0x07, 0x09]).descriptor_rest().unwrap(), 8);
    assert!(matches!(
        Parser::new(&[0x50, 0x4b, 0x07]).descriptor_rest(),
        Err(ZipParseError::UnexpectedEof)
    ));
}

#[test]
fn one_directory_entry_is_read_behind_its_signature() {
    let mut bytes = vec![3, 30, 20, 0, 0, 0, 8, 0];
    bytes.extend_from_slice(&[0u8; 16]);
    bytes.extend_from_slice(&[1, 0, 2, 0, 3, 0]);
    bytes.extend_from_slice(&[7, 0, 1, 0]);
    bytes.extend_from_slice(&[0, 0, 0xa4, 0x81]);
    bytes.extend_from_slice(&[0x10, 0x20, 0x30, 0x40]);
    bytes.extend_from_slice(b"neecom!");
    let mut parser = Parser::new(&bytes);
    let header = parser.read_directory_entry().unwrap();
    assert_eq!(header.os, zip_rs::Os(3));
    assert_eq!(header.zip_specification_version, 30);
    assert_eq!(header.metadata.compression_method, CompressionMethod(8));
    assert_eq!(header.metadata.name, b"n");
    assert_eq!(header.metadata.extra_field, b"ee");
    assert_eq!(header.comment, b"com");
    assert_eq!(header.disk_num_start, 7);
    assert_eq!(header.internal_attributes, zip_rs::InternalAttributes(1));
    assert_eq!(header.external_attributes, zip_rs::ExternalAttributes(0x81a4_0000));
    assert_eq!(header.local_header_offset, 0x4030_2010);
    assert_eq!(parser.read_byte().unwrap(), b'!');

    let mut parser = Parser::new(&bytes[..47]);
    assert!(matches!(parser.read_directory_entry(), Err(ZipParseError::UnexpectedEof)));
    assert_eq!(parser.read_byte().unwrap(), 3);
}

#[test]
fn file_is_read_through_its_directory_entry() {
    let mut bytes = b"junk".to_vec();
    bytes.extend_from_slice(&LOCAL_FILE_SIGNATURE);
    bytes.extend_from_slice(&[20, 0, 0, 0, 0, 0]);
    bytes.extend_from_slice(&[0u8; 8]);
    bytes.extend_from_slice(&[2, 0, 0, 0, 2, 0, 0, 0]);
    bytes.extend_from_slice(&[1, 0, 0, 0]);
    bytes.extend_from_slice(b"fhi+");
    let mut parser = Parser::new(&bytes);
    let header = zip_rs::CentralDirectoryFileHeader {
        os: zip_rs::Os(0),
        metadata: zip_rs::Metadata {
            version_needed: 0,
            compression_method: CompressionMethod(0),
            date_time_modified: zip_rs::DateTimeModified::from_u32(0),
            flags: ZipFlags(0),
            name: b"",
            extra_field: b"",
            compressed_size: 0,
            uncompressed_size: 0,
            crc: 0,
        },
        disk_num_start: 0,
        internal_attributes: zip_rs::InternalAttributes(0),
        external_attributes: zip_rs::ExternalAttributes(0),
        zip_specification_version: 0,
        local_header_offset: 4,
        comment: b"",
    };
    let file = parser.read_file(&header).unwrap();
    assert_eq!(file.file_path_bytes(), b"f");
    assert_eq!(file.compressed_contents(), b"hi");
    // The cursor is behind the entry's bytes.
    assert_eq!(parser.read_byte().unwrap(), b'+');
}

/// A local header without its signature: the flags announce a data
/// descriptor, the name is `a`, and one byte of data is declared.
fn flagged_header() -> Vec<u8> {
    let mut bytes = vec![0, 0, 8, 0, 0, 0];
    bytes.extend_from_slice(&[0u8; 4]);
    bytes.extend_from_slice(&[0u8; 4]);
    bytes.extend_from_slice(&[0u8; 4]);
    bytes.extend_from_slice(&[0u8; 4]);
    bytes.extend_from_slice(&[1, 0, 0, 0]);
    bytes.extend_from_slice(b"a");
    bytes
}

#[test]
fn metadata_with_a_signed_descriptor_leaves_the_cursor_behind_it() {
    let mut bytes = flagged_header();
    bytes.extend_from_slice(&[0x50, 0x4b, 7, 8]);
    bytes.extend_from_slice(&[0x78, 0x56, 0x34, 0x12, 3, 0, 0, 0, 5, 0, 0, 0]);
    assert_eq!(bytes.len(), 43);
    let mut parser = Parser::new(&bytes);
    let metadata = parser.read_metadata().unwrap();
    assert_eq!(metadata.flags, ZipFlags(8));
    assert_eq!(metadata.name, b"a");
    assert_eq!(metadata.extra_field, b"");
    assert_eq!(metadata.crc, 0x1234_5678);
    assert_eq!(metadata.compressed_size, 3);
    assert_eq!(metadata.uncompressed_size, 5);
    // The cursor is at 43, the end of the buffer.
    assert!(parser.has(0));
    assert!(!parser.has(1));
}

#[test]
fn metadata_with_a_bare_descriptor_leaves_the_cursor_behind_it() {
    let mut bytes = flagged_header();
    bytes.extend_from_slice(&[0x78, 0x56, 0x34, 0x12, 3, 0, 0, 0, 5, 0, 0, 0]);
    bytes.extend_from_slice(&[0xee, 0xff]);
    let mut parser = Parser::new(&bytes);
    let metadata = parser.read_metadata().unwrap();
    assert_eq!(metadata.crc, 0x1234_5678);
    assert_eq!(metadata.compressed_size, 3);
    assert_eq!(metadata.uncompressed_size, 5);
    assert_eq!(metadata.name, b"a");
    // The cursor is at 39.
    assert!(parser.has(2));
    assert!(!parser.has(3));
    assert_eq!(parser.read_byte().unwrap(), 0xee);
}

#[test]
fn metadata_with_a_descriptor_behind_declared_data() {
    let mut bytes = flagged_header();
    bytes[14] = 2;
    bytes.extend_from_slice(b"hi");
    bytes.extend_from_slice(&[9, 0, 0, 0, 2, 0, 0, 0, 2, 0, 0, 0, 0xee]);
    let mut parser = Parser::new(&bytes);
    let metadata = parser.read_metadata().unwrap();
    assert_eq!(metadata.crc, 9);
    assert_eq!(metadata.compressed_size, 2);
    assert_eq!(metadata.uncompressed_size, 2);
    assert_eq!(parser.read_byte().unwrap(), 0xee);
}

#[test]
fn signature_demanded_of_three_bytes_is_unexpected_eof() {
    let bytes = [0x50, 0x4b, 3];
    let mut parser = Parser::new(&bytes);
    assert!(matches!(
        parser.expect_signature([0x50, 0x4b, 3, 4]),
        Err(ZipParseError::UnexpectedEof)
    ));
    // The cursor is still at 0.
    assert!(parser.has(3));
    assert_eq!(parser.read_byte().unwrap(), 0x50);
    parser.seek(3);
    assert!(matches!(
        parser.expect_signature(LOCAL_FILE_SIGNATURE),
        Err(ZipParseError::UnexpectedEof)
    ));
}
