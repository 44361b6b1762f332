//! What holds of every archive and every entry, proved from the layouts and
//! from what retrieval owes.

use vstd::prelude::*;

use crate::common::{
    CompressionMethodName, ZipFlags, CENTRAL_DIRECTORY_FILE_SIGNATURE,
    END_CENTRAL_DIRECTORY_SIGNATURE, LOCAL_FILE_SIGNATURE,
};
use crate::error::{ZipParseError, SHORT_WRITE};
use crate::file::CompressedZipFileView;
use crate::layout::{
    descriptor_at, descriptor_complete, descriptor_offset, end_record_at, entry_complete,
    entry_end, has_end_record, header_at, header_complete, header_len, holds, is_end_record,
    is_entry, is_last_end_record, last_end_record, read_archive, read_directory, read_file,
    read_metadata, tag_at, tagged,
};
use crate::records::CentralDirectoryView;

verus! {

// ---------------------------------------------------------------------------
// The end record nearest the end of the buffer
// ---------------------------------------------------------------------------

/// Behind every end record lies a last one.
proof fn lemma_last_exists(buf: Seq<u8>, at: int)
    requires
        is_end_record(buf, at),
    ensures
        exists|last: int| at <= last && is_last_end_record(buf, last),
    decreases buf.len() - at,
{
    if exists|later: int| at < later && is_end_record(buf, later) {
        let later = choose|later: int| at < later && is_end_record(buf, later);
        lemma_last_exists(buf, later);
        let last = choose|last: int| later <= last && is_last_end_record(buf, last);
        assert(at <= last && is_last_end_record(buf, last));
    } else {
        assert(is_last_end_record(buf, at));
    }
}

/// A walk of the directory fails in one way only: on an entry that the
/// buffer cuts short.
pub proof fn lemma_walk_fails_short(buf: Seq<u8>, at: int)
    ensures
        read_directory(buf, at) matches Err(e) ==> e == ZipParseError::UnexpectedEof,
    decreases buf.len() - at,
{
    if is_entry(buf, at) {
        lemma_walk_fails_short(buf, entry_end(buf, at));
    }
}

/// The end record that opening an archive goes by is the one nearest the
/// end of the buffer: wherever else a complete end record lies, as a decoy
/// in a comment does, it lies before the one chosen.
pub proof fn lemma_nearest_end_record(buf: Seq<u8>, at: int)
    requires
        is_end_record(buf, at),
    ensures
        has_end_record(buf),
        is_end_record(buf, last_end_record(buf)),
        at <= last_end_record(buf),
        read_archive(buf) matches Ok(directory) ==> directory.end == end_record_at(
            buf,
            last_end_record(buf),
        ),
        !(read_archive(buf) matches Err(ZipParseError::MissingCentralDirectory)),
{
    lemma_last_exists(buf, at);
    let last = choose|last: int| at <= last && is_last_end_record(buf, last);
    assert(is_last_end_record(buf, last_end_record(buf)));
    if last_end_record(buf) < at {
        assert(!is_end_record(buf, at));
    }
    lemma_walk_fails_short(
        buf,
        end_record_at(buf, last_end_record(buf)).central_dir_offset as int,
    );
}

// ---------------------------------------------------------------------------
// The number of entries
// ---------------------------------------------------------------------------

/// Whether `count` whole directory entries lie back to back from `at` and
/// the last of them ends at `stop`.
pub open spec fn entries_span(buf: Seq<u8>, at: int, count: nat, stop: int) -> bool
    decreases count,
{
    if count == 0 {
        at == stop
    } else {
        &&& is_entry(buf, at)
        &&& entries_span(buf, entry_end(buf, at), (count - 1) as nat, stop)
    }
}

/// Whether the buffer is an archive laid out as the format prescribes: from
/// the offset that the end record names, as many directory entries as it
/// counts lie back to back, and the end record follows the last of them.
pub open spec fn well_formed(buf: Seq<u8>) -> bool {
    &&& has_end_record(buf)
    &&& entries_span(
        buf,
        end_record_at(buf, last_end_record(buf)).central_dir_offset as int,
        end_record_at(buf, last_end_record(buf)).total_entires as nat,
        last_end_record(buf),
    )
}

/// A run of whole entries that stops where no entry signature lies is
/// walked entry by entry, to its end.
proof fn lemma_walk_counts(buf: Seq<u8>, at: int, count: nat, stop: int)
    requires
        entries_span(buf, at, count, stop),
        !tagged(buf, stop, CENTRAL_DIRECTORY_FILE_SIGNATURE),
    ensures
        read_directory(buf, at) matches Ok(files) && files.len() == count,
    decreases count,
{
    if count > 0 {
        lemma_walk_counts(buf, entry_end(buf, at), (count - 1) as nat, stop);
    }
}

/// Opening a well-formed archive succeeds, and decodes as many directory
/// entries as the end record counts.
pub proof fn lemma_entry_count(buf: Seq<u8>)
    requires
        well_formed(buf),
    ensures
        read_archive(buf) matches Ok(directory) && directory.files.len()
            == directory.end.total_entires,
{
    let at = choose|at: int| is_end_record(buf, at);
    lemma_nearest_end_record(buf, at);
    let last = last_end_record(buf);
    let end = end_record_at(buf, last);
    assert(tagged(buf, last, END_CENTRAL_DIRECTORY_SIGNATURE));
    lemma_walk_counts(buf, end.central_dir_offset as int, end.total_entires as nat, last);
}

/// Opening an archive whose directory the buffer cuts short fails with an
/// end-of-buffer error: the end record is there, and so is the signature
/// of the entry at which the walk begins, but not all of that entry.
pub proof fn lemma_cut_directory_fails(buf: Seq<u8>)
    requires
        has_end_record(buf),
        tagged(
            buf,
            end_record_at(buf, last_end_record(buf)).central_dir_offset as int,
            CENTRAL_DIRECTORY_FILE_SIGNATURE,
        ),
        !entry_complete(
            buf,
            end_record_at(buf, last_end_record(buf)).central_dir_offset + 4,
        ),
    ensures
        read_archive(buf) == Err::<CentralDirectoryView, _>(ZipParseError::UnexpectedEof),
{
}

/// An entry whose directory entry points at an offset where four bytes lie
/// that are not the local header's signature is refused with a signature
/// mismatch that names the bytes found and the bytes expected.
pub proof fn lemma_wrong_offset_fails(buf: Seq<u8>, at: int)
    requires
        holds(buf, at, 4),
        !tagged(buf, at, LOCAL_FILE_SIGNATURE),
    ensures
        read_file(buf, at) == Err::<CompressedZipFileView, _>(
            ZipParseError::MalformedSignature {
                found: tag_at(buf, at),
                expected: LOCAL_FILE_SIGNATURE,
            },
        ),
{
}

// ---------------------------------------------------------------------------
// Retrieval
// ---------------------------------------------------------------------------

/// Round trip of a stored entry: what buffered retrieval returns is the
/// entry's bytes as they lie in the archive, and the entry's two sizes are
/// equal.
///
/// Of an entry read from an archive there are as many bytes as its
/// compressed size says, so the retrieval succeeds exactly where the
/// archive declares the two sizes equal; an entry that declares them
/// unequal is refused for its count.
pub proof fn lemma_stored_round_trip(
    buf: Seq<u8>,
    at: int,
    ceiling: Option<int>,
    outcome: Result<Seq<u8>, ZipParseError>,
)
    requires
        read_file(buf, at) matches Ok(file) && file.method() == CompressionMethodName::Stored
            && !file.over(ceiling) && file.buffered(ceiling, outcome),
    ensures
        read_file(buf, at) matches Ok(file) && (outcome.is_ok()
            <==> file.metadata.uncompressed_size == file.metadata.compressed_size) && (
        outcome matches Ok(bytes) ==> bytes == file.contents
            && file.metadata.uncompressed_size == file.metadata.compressed_size && bytes.len()
            == file.metadata.uncompressed_size) && (outcome.is_err() ==> outcome == Err::<
            Seq<u8>,
            _,
        >(ZipParseError::Generic(SHORT_WRITE))),
{
}

/// Whatever retrieval returns has the size that the entry declares: of a
/// stored entry and of a deflated one, buffered retrieval returns exactly
/// that many bytes, and streamed retrieval succeeds only where it has
/// written exactly that many.
pub proof fn lemma_declared_size_is_kept(
    file: CompressedZipFileView,
    ceiling: Option<int>,
    buffered: Result<Seq<u8>, ZipParseError>,
    before: Seq<u8>,
    after: Seq<u8>,
    streamed: Result<(), ZipParseError>,
)
    requires
        file.buffered(ceiling, buffered),
        file.streamed(ceiling, before, after, streamed),
    ensures
        buffered matches Ok(bytes) ==> bytes.len() == file.declared_size(),
        streamed.is_ok() ==> after.len() == before.len() + file.declared_size()
            && before.is_prefix_of(after),
{
}

/// Buffered retrieval is repeatable: two retrievals of one entry under one
/// ceiling both succeed or both fail, and where they succeed they return
/// the same bytes.
pub proof fn lemma_buffered_repeatable(
    file: CompressedZipFileView,
    ceiling: Option<int>,
    first: Result<Seq<u8>, ZipParseError>,
    second: Result<Seq<u8>, ZipParseError>,
)
    requires
        file.buffered(ceiling, first),
        file.buffered(ceiling, second),
    ensures
        first.is_ok() <==> second.is_ok(),
        first matches Ok(bytes) ==> second == Ok::<_, ZipParseError>(bytes),
        first matches Err(e) ==> (e is IoError && second matches Err(ZipParseError::IoError(_)))
            || second == Err::<Seq<u8>, _>(e),
{
}

/// An entry that declares a size at or above the ceiling is refused with
/// that size, whatever its bytes and its method are; streamed retrieval
/// leaves the sink as it was.
pub proof fn lemma_ceiling_refuses(
    file: CompressedZipFileView,
    ceiling: Option<int>,
    buffered: Result<Seq<u8>, ZipParseError>,
    before: Seq<u8>,
    after: Seq<u8>,
    streamed: Result<(), ZipParseError>,
)
    requires
        ceiling matches Some(most) && most <= file.declared_size(),
        file.buffered(ceiling, buffered),
        file.streamed(ceiling, before, after, streamed),
    ensures
        buffered == Err::<Seq<u8>, _>(ZipParseError::FileTooLarge(file.metadata.uncompressed_size)),
        streamed == Err::<(), _>(ZipParseError::FileTooLarge(file.metadata.uncompressed_size)),
        after == before,
{
}

// ---------------------------------------------------------------------------
// Data descriptors
// ---------------------------------------------------------------------------

/// Where the flags announce a data descriptor, the metadata read reports
/// the descriptor's checksum and sizes, not the header's. A header that
/// declares no data has its descriptor right behind it.
pub proof fn lemma_descriptor_corrects(buf: Seq<u8>, at: int)
    requires
        header_complete(buf, at),
        header_at(buf, at).flags.data_descriptor_bit(),
        descriptor_complete(buf, descriptor_offset(buf, at)),
    ensures
        read_metadata(buf, at) matches Ok(metadata) && metadata.crc == descriptor_at(
            buf,
            descriptor_offset(buf, at),
        ).crc && metadata.compressed_size == descriptor_at(
            buf,
            descriptor_offset(buf, at),
        ).compressed_size && metadata.uncompressed_size == descriptor_at(
            buf,
            descriptor_offset(buf, at),
        ).uncompressed_size && metadata.name == header_at(buf, at).name,
        header_at(buf, at).compressed_size == 0 ==> descriptor_offset(buf, at) == at + header_len(
            buf,
            at,
        ),
{
}

/// The unpacked flags agree with the raw ones: the flag for a trailing
/// data descriptor is bit 3 of the raw number in both.
pub proof fn lemma_unpacked_flags_agree(raw: u16)
    ensures
        crate::decoded::ZipFlags::of_raw(raw).has_data_descriptor == ZipFlags(
            raw,
        ).data_descriptor_bit(),
        ZipFlags(raw).data_descriptor_bit() <==> (raw as int / 8) % 2 == 1,
{
    assert((raw & 0x0008 != 0) <==> (raw / 8) % 2 == 1) by (bit_vector);
}

} // verus!
