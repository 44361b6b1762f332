//! Reader for ZIP archives held in memory.
//!
//! An archive is opened over a borrowed byte buffer. Opening locates the
//! end-of-central-directory record by searching backwards from the end of the
//! buffer, walks the central directory it names, and keeps the decoded
//! headers. Each entry can then be looked up through its local header and
//! decompressed on demand, under a ceiling on the declared size.
//!
//! Every record handed out borrows its variable-length fields from the
//! buffer: nothing is copied while parsing.
//!
//! - [`common`]: typed wrappers over the raw integers of the headers.
//! - [`records`]: the records, and the mathematical value of each.
//! - [`layout`]: the record layouts, as functions of a byte sequence.
//! - [`parse`]: the cursor and the decoders, proved against the layouts.
//! - [`search`]: the backward search for a signature.
//! - [`archive`]: the archive and its index.
//! - [`file`], [`inflate`]: an entry's bytes and their decompression.
//! - [`decoded`], [`bits`]: records unpacked into owned, named fields.
//! - [`laws`]: what holds of every archive and every entry.

pub mod archive;
pub mod bits;
pub mod common;
pub mod decoded;
pub mod error;
pub mod file;
pub mod inflate;
pub mod laws;
pub mod layout;
pub mod parse;
pub mod records;
pub mod search;

pub use archive::ZipArchive;
pub use common::{
    CompressionMethod, CompressionMethodName, DateTimeModified, ExternalAttributes,
    InternalAttributes, Os, OsName, RecordKind, ZipFlags, CENTRAL_DIRECTORY_FILE_SIGNATURE,
    DATA_DESCRIPTOR_SIGNATURE, END_CENTRAL_DIRECTORY_SIGNATURE, LOCAL_FILE_SIGNATURE,
};
pub use error::ZipParseError;
pub use file::CompressedZipFile;
pub use records::{
    CentralDirectory, CentralDirectoryFileHeader, DataDescriptor, EndCentralDirectory, Metadata,
};
