//! Extraction of a single named entry from a ZIP archive held as bytes.
//!
//! The archive is navigated through its trailing end-of-central-directory
//! record, the optional ZIP64 records, the central directory, and finally
//! the matched entry's local file header, whose payload is inflated.

pub mod archive;
pub mod bytes;
pub mod ext;
pub mod laws;
pub mod model;
pub mod records;

pub use archive::read_signature;
pub use archive::UnZip;
pub use bytes::ByteReader;
pub use bytes::ZipError;
pub use records::CentralDirectoryHeader;
pub use records::EndOfCentralDirectoryRecord;
pub use records::Header;
pub use records::LocalFileHeader;
pub use records::Zip64EndOfCentralDirectoryLocator;
pub use records::Zip64EndOfCentralDirectoryRecord;
