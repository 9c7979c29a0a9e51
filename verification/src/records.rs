//! The five fixed-format records and the extra-field resolver, decoded from
//! a cursor positioned just past each record's four-byte signature.

use vstd::prelude::*;

use crate::bytes::ByteReader;
use crate::bytes::ZipError;
use crate::ext::inflate_of;
use crate::ext::lossy_of;
use crate::ext::inflate;
use crate::ext::utf8_lossy;
use crate::model::spec_resolve;
use crate::model::take64;
use crate::model::take32;
use crate::model::sentinel32;
use crate::model::sentinel16;
use crate::model::parse_lfh;
use crate::model::parse_cdh;
use crate::model::parse_eocd;
use crate::model::parse_zip64_eocd;
use crate::model::parse_zip64_locator;
use crate::model::ResolvedFields;
use crate::model::LfhV;
use crate::model::CdhV;
use crate::model::EocdV;
use crate::model::Zip64EocdV;
use crate::model::Zip64LocatorV;

verus! {

/// One (id, size) pair heading a block of a record's extra-field area.
pub struct Header {
    pub id: u16,
    pub size: u16,
}

impl Header {
    /// Reads the pair at the cursor.
    pub fn from_reader(r: &mut ByteReader) -> (res: Result<Header, ZipError>)
        ensures
            final(r).data@ == old(r).data@,
            old(r).pos + 4 <= old(r).data@.len() ==> {
                &&& res is Ok
                &&& res->Ok_0.id as int == crate::bytes::le16(old(r).data@, old(r).pos as int)
                &&& res->Ok_0.size as int == crate::bytes::le16(old(r).data@, old(r).pos + 2)
                &&& final(r).pos == old(r).pos + 4
            },
            old(r).pos + 4 > old(r).data@.len() ==> res == Result::<Header, ZipError>::Err(
                ZipError::Io,
            ),
    {
        let id = match r.read_u16() {
            Ok(v) => v,
            Err(e) => { return Err(e); },
        };
        let size = match r.read_u16() {
            Ok(v) => v,
            Err(e) => { return Err(e); },
        };
        Ok(Header { id, size })
    }
}

/// Walks an extra-field area of byte budget `budget`, applying ZIP64
/// overrides (id 1) to each provisional value whose placeholder condition
/// holds, in the fixed order, and skipping every other block.
#[verifier::loop_isolation(false)]
pub(crate) fn resolve_extra(
    r: &mut ByteReader,
    budget: u16,
    un0: u64,
    co0: u64,
    off0: u64,
    disk0: u32,
) -> (res: Result<(u64, u64, u64, u32), ZipError>)
    ensures
        final(r).data@ == old(r).data@,
        ({
            let s = spec_resolve(
                old(r).data@,
                old(r).pos as int,
                budget as int,
                un0 as int,
                co0 as int,
                off0 as int,
                disk0 as int,
            );
            match res {
                Ok((un, co, off, disk)) => {
                    &&& s is Ok
                    &&& un as int == s->Ok_0.uncompressed_size
                    &&& co as int == s->Ok_0.compressed_size
                    &&& off as int == s->Ok_0.local_header_offset
                    &&& disk as int == s->Ok_0.disk_number_start
                    &&& final(r).pos as int == s->Ok_0.end
                },
                Err(e) => s == Result::<ResolvedFields, ZipError>::Err(e),
            }
        }),
{
    let ghost b = r.data@;
    let ghost p0 = r.pos as int;
    let mut rem: u16 = budget;
    let mut un = un0;
    let mut co = co0;
    let mut off = off0;
    let mut disk = disk0;
    while rem > 0
        invariant
            r.data@ == b,
            spec_resolve(b, p0, budget as int, un0 as int, co0 as int,
                off0 as int, disk0 as int)
                == spec_resolve(
                b,
                r.pos as int,
                rem as int,
                un as int,
                co as int,
                off as int,
                disk as int,
            ),
        decreases rem,
    {
        let ghost pi = r.pos as int;
        let ghost remi = rem as int;
        let ghost uni = un as int;
        let ghost coi = co as int;
        let ghost offi = off as int;
        let ghost diski = disk as int;
        let header = match Header::from_reader(r) {
            Ok(h) => h,
            Err(e) => {
                proof {
                    assert(spec_resolve(b, pi, remi, uni, coi, offi, diski) == Result::<
                        ResolvedFields,
                        ZipError,
                    >::Err(ZipError::Io));
                }
                return Err(e);
            },
        };
        if (rem as u32) < 4 + (header.size as u32) {
            proof {
                assert(spec_resolve(b, pi, remi, uni, coi, offi, diski) == Result::<
                    ResolvedFields,
                    ZipError,
                >::Err(ZipError::Decode));
            }
            return Err(ZipError::Decode);
        }
        rem = rem - 4 - header.size;
        if header.id == 1 {
            if un == 0xFFFFFFFF {
                un = match r.read_u64() {
                    Ok(v) => v,
                    Err(e) => {
                        proof {
                            assert(spec_resolve(b, pi, remi, uni, coi, offi, diski) == Result::<
                                ResolvedFields,
                                ZipError,
                            >::Err(ZipError::Io));
                        }
                        return Err(e);
                    },
                };
            }
            let ghost q1 = r.pos as int;
            proof {
                assert(take64(b, uni == sentinel32(), uni, pi + 4) == Result::<
                    (int, int),
                    ZipError,
                >::Ok((un as int, q1)));
            }
            if co == 0xFFFFFFFF {
                co = match r.read_u64() {
                    Ok(v) => v,
                    Err(e) => {
                        proof {
                            assert(spec_resolve(b, pi, remi, uni, coi, offi, diski) == Result::<
                                ResolvedFields,
                                ZipError,
                            >::Err(ZipError::Io));
                        }
                        return Err(e);
                    },
                };
            }
            let ghost q2 = r.pos as int;
            proof {
                assert(take64(b, coi == sentinel32(), coi, q1) == Result::<
                    (int, int),
                    ZipError,
                >::Ok((co as int, q2)));
            }
            if off == 0xFFFFFFFF {
                off = match r.read_u64() {
                    Ok(v) => v,
                    Err(e) => {
                        proof {
                            assert(spec_resolve(b, pi, remi, uni, coi, offi, diski) == Result::<
                                ResolvedFields,
                                ZipError,
                            >::Err(ZipError::Io));
                        }
                        return Err(e);
                    },
                };
            }
            let ghost q3 = r.pos as int;
            proof {
                assert(take64(b, offi == sentinel32(), offi, q2) == Result::<
                    (int, int),
                    ZipError,
                >::Ok((off as int, q3)));
            }
            if disk == 0xFFFF {
                disk = match r.read_u32() {
                    Ok(v) => v,
                    Err(e) => {
                        proof {
                            assert(spec_resolve(b, pi, remi, uni, coi, offi, diski) == Result::<
                                ResolvedFields,
                                ZipError,
                            >::Err(ZipError::Io));
                        }
                        return Err(e);
                    },
                };
            }
            let ghost q4 = r.pos as int;
            proof {
                assert(take32(b, diski == sentinel16(), diski, q3) == Result::<
                    (int, int),
                    ZipError,
                >::Ok((disk as int, q4)));
                assert(spec_resolve(b, pi, remi, uni, coi, offi, diski) == spec_resolve(
                    b,
                    q4,
                    rem as int,
                    un as int,
                    co as int,
                    off as int,
                    disk as int,
                ));
            }
        } else {
            match r.skip(header.size as usize) {
                Ok(u) => u,
                Err(e) => {
                    proof {
                        assert(spec_resolve(b, pi, remi, uni, coi, offi, diski) == Result::<
                            ResolvedFields,
                            ZipError,
                        >::Err(ZipError::Io));
                    }
                    return Err(e);
                },
            };
            proof {
                assert(spec_resolve(b, pi, remi, uni, coi, offi, diski) == spec_resolve(
                    b,
                    r.pos as int,
                    rem as int,
                    un as int,
                    co as int,
                    off as int,
                    disk as int,
                ));
            }
        }
    }
    proof {
        assert(spec_resolve(b, r.pos as int, rem as int, un as int, co as int, off as int,
            disk as int) == Result::<ResolvedFields, ZipError>::Ok(
            (ResolvedFields {
                uncompressed_size: un as int,
                compressed_size: co as int,
                local_header_offset: off as int,
                disk_number_start: disk as int,
                end: r.pos as int,
            }),
        ));
    }
    Ok((un, co, off, disk))
}

/// The per-entry header that immediately precedes an entry's compressed
/// payload.
#[derive(Debug)]
pub struct LocalFileHeader {
    pub version: u16,
    pub flags: u16,
    pub compression_method: u16,
    pub last_mod_time: u16,
    pub last_mod_date: u16,
    pub crc32: u32,
    pub compressed_size: u64,
    pub uncompressed_size: u64,
    pub file_name_length: u16,
    pub extra_field_length: u16,
    pub file_name: String,
}

impl LocalFileHeader {
    pub const SIGNATURE: u32 = 0x04034b50;

    /// Decodes the record whose fixed fields start at the cursor, leaving
    /// the cursor at the first byte of the compressed payload.
    pub fn from_reader(r: &mut ByteReader) -> (res: Result<LocalFileHeader, ZipError>)
        ensures
            final(r).data@ == old(r).data@,
            ({
                let s = parse_lfh(old(r).data@, old(r).pos as int);
                match res {
                    Ok(h) => {
                        &&& s is Ok
                        &&& h.version as int == s->Ok_0.0.version
                        &&& h.flags as int == s->Ok_0.0.flags
                        &&& h.compression_method as int == s->Ok_0.0.compression_method
                        &&& h.last_mod_time as int == s->Ok_0.0.last_mod_time
                        &&& h.last_mod_date as int == s->Ok_0.0.last_mod_date
                        &&& h.crc32 as int == s->Ok_0.0.crc32
                        &&& h.compressed_size as int == s->Ok_0.0.compressed_size
                        &&& h.uncompressed_size as int == s->Ok_0.0.uncompressed_size
                        &&& h.file_name_length as int == s->Ok_0.0.file_name_length
                        &&& h.extra_field_length as int == s->Ok_0.0.extra_field_length
                        &&& h.file_name@ == lossy_of(s->Ok_0.0.name)
                        &&& final(r).pos as int == s->Ok_0.1
                    },
                    Err(e) => s == Result::<(LfhV, int), ZipError>::Err(e),
                }
            }),
    {
        let version = match r.read_u16() {
            Ok(v) => v,
            Err(e) => { return Err(e); },
        };
        let flags = match r.read_u16() {
            Ok(v) => v,
            Err(e) => { return Err(e); },
        };
        let compression_method = match r.read_u16() {
            Ok(v) => v,
            Err(e) => { return Err(e); },
        };
        let last_mod_time = match r.read_u16() {
            Ok(v) => v,
            Err(e) => { return Err(e); },
        };
        let last_mod_date = match r.read_u16() {
            Ok(v) => v,
            Err(e) => { return Err(e); },
        };
        let crc32 = match r.read_u32() {
            Ok(v) => v,
            Err(e) => { return Err(e); },
        };
        let compressed32 = match r.read_u32() {
            Ok(v) => v,
            Err(e) => { return Err(e); },
        };
        let uncompressed32 = match r.read_u32() {
            Ok(v) => v,
            Err(e) => { return Err(e); },
        };
        let file_name_length = match r.read_u16() {
            Ok(v) => v,
            Err(e) => { return Err(e); },
        };
        let extra_field_length = match r.read_u16() {
            Ok(v) => v,
            Err(e) => { return Err(e); },
        };
        let name_bytes = match r.read_bytes(file_name_length as usize) {
            Ok(v) => v,
            Err(e) => { return Err(e); },
        };
        let file_name = utf8_lossy(&name_bytes);
        let resolved = match resolve_extra(
            r,
            extra_field_length,
            uncompressed32 as u64,
            compressed32 as u64,
            0,
            0,
        ) {
            Ok(v) => v,
            Err(e) => { return Err(e); },
        };
        Ok(LocalFileHeader {
            version,
            flags,
            compression_method,
            last_mod_time,
            last_mod_date,
            crc32,
            compressed_size: resolved.1,
            uncompressed_size: resolved.0,
            file_name_length,
            extra_field_length,
            file_name,
        })
    }

    /// Moves the cursor past the compressed payload.
    pub fn skip_compressed(&self, r: &mut ByteReader) -> (res: Result<(), ZipError>)
        ensures
            final(r).data@ == old(r).data@,
            old(r).pos + self.compressed_size <= old(r).data@.len() ==> {
                &&& res is Ok
                &&& final(r).pos as int == old(r).pos + self.compressed_size
            },
            old(r).pos + self.compressed_size > old(r).data@.len() ==> res == Result::<
                (),
                ZipError,
            >::Err(ZipError::Io),
    {
        let archive_len = r.len();
        if self.compressed_size <= archive_len as u64 {
            r.skip(self.compressed_size as usize)
        } else {
            Err(ZipError::Io)
        }
    }

    /// Reads the compressed payload: exactly `compressed_size` bytes at the
    /// cursor.
    pub fn load_compressed(&self, r: &mut ByteReader) -> (res: Result<Vec<u8>, ZipError>)
        ensures
            final(r).data@ == old(r).data@,
            old(r).pos + self.compressed_size <= old(r).data@.len() ==> {
                &&& res is Ok
                &&& res->Ok_0@ == old(r).data@.subrange(
                    old(r).pos as int,
                    old(r).pos + self.compressed_size,
                )
                &&& final(r).pos as int == old(r).pos + self.compressed_size
            },
            old(r).pos + self.compressed_size > old(r).data@.len() ==> res == Result::<
                Vec<u8>,
                ZipError,
            >::Err(ZipError::Io),
    {
        let archive_len = r.len();
        if self.compressed_size <= archive_len as u64 {
            r.read_bytes(self.compressed_size as usize)
        } else {
            Err(ZipError::Io)
        }
    }

    /// Reads the compressed payload and inflates it.
    pub fn decompress_to(&self, r: &mut ByteReader) -> (res: Result<Vec<u8>, ZipError>)
        ensures
            final(r).data@ == old(r).data@,
            old(r).pos + self.compressed_size <= old(r).data@.len() ==> {
                &&& res is Ok
                &&& res->Ok_0@ == inflate_of(
                    old(r).data@.subrange(old(r).pos as int, old(r).pos + self.compressed_size),
                )
            },
            old(r).pos + self.compressed_size > old(r).data@.len() ==> res == Result::<
                Vec<u8>,
                ZipError,
            >::Err(ZipError::Io),
    {
        let compressed = match self.load_compressed(r) {
            Ok(v) => v,
            Err(e) => { return Err(e); },
        };
        Ok(inflate(&compressed))
    }
}

/// The per-entry record of the central directory, which also carries the
/// byte offset of the entry's local file header.
#[derive(Debug)]
pub struct CentralDirectoryHeader {
    pub version_made_by: u16,
    pub version_needed: u16,
    pub flags: u16,
    pub compression_method: u16,
    pub last_mod_time: u16,
    pub last_mod_date: u16,
    pub crc32: u32,
    pub compressed_size: u64,
    pub uncompressed_size: u64,
    pub file_name_length: u16,
    pub extra_field_length: u16,
    pub file_comment_length: u16,
    pub disk_number_start: u32,
    pub internal_file_attributes: u16,
    pub external_file_attributes: u32,
    pub local_header_offset: u64,
    pub file_name: String,
}

impl CentralDirectoryHeader {
    pub const SIGNATURE: u32 = 0x02014b50;

    /// Decodes the record whose fixed fields start at the cursor, leaving
    /// the cursor just past the record's file comment.
    #[verifier::rlimit(100)]
    pub fn from_reader(r: &mut ByteReader) -> (res: Result<CentralDirectoryHeader, ZipError>)
        ensures
            final(r).data@ == old(r).data@,
            ({
                let s = parse_cdh(old(r).data@, old(r).pos as int);
                match res {
                    Ok(h) => {
                        &&& s is Ok
                        &&& h.version_made_by as int == s->Ok_0.0.version_made_by
                        &&& h.version_needed as int == s->Ok_0.0.version_needed
                        &&& h.flags as int == s->Ok_0.0.flags
                        &&& h.compression_method as int == s->Ok_0.0.compression_method
                        &&& h.last_mod_time as int == s->Ok_0.0.last_mod_time
                        &&& h.last_mod_date as int == s->Ok_0.0.last_mod_date
                        &&& h.crc32 as int == s->Ok_0.0.crc32
                        &&& h.compressed_size as int == s->Ok_0.0.compressed_size
                        &&& h.uncompressed_size as int == s->Ok_0.0.uncompressed_size
                        &&& h.file_name_length as int == s->Ok_0.0.file_name_length
                        &&& h.extra_field_length as int == s->Ok_0.0.extra_field_length
                        &&& h.file_comment_length as int == s->Ok_0.0.file_comment_length
                        &&& h.disk_number_start as int == s->Ok_0.0.disk_number_start
                        &&& h.internal_file_attributes as int == s->Ok_0.0.internal_file_attributes
                        &&& h.external_file_attributes as int == s->Ok_0.0.external_file_attributes
                        &&& h.local_header_offset as int == s->Ok_0.0.local_header_offset
                        &&& h.file_name@ == lossy_of(s->Ok_0.0.name)
                        &&& final(r).pos as int == s->Ok_0.1
                    },
                    Err(e) => s == Result::<(CdhV, int), ZipError>::Err(e),
                }
            }),
    {
        let version_made_by = match r.read_u16() {
            Ok(v) => v,
            Err(e) => { return Err(e); },
        };
        let version_needed = match r.read_u16() {
            Ok(v) => v,
            Err(e) => { return Err(e); },
        };
        let flags = match r.read_u16() {
            Ok(v) => v,
            Err(e) => { return Err(e); },
        };
        let compression_method = match r.read_u16() {
            Ok(v) => v,
            Err(e) => { return Err(e); },
        };
        let last_mod_time = match r.read_u16() {
            Ok(v) => v,
            Err(e) => { return Err(e); },
        };
        let last_mod_date = match r.read_u16() {
            Ok(v) => v,
            Err(e) => { return Err(e); },
        };
        let crc32 = match r.read_u32() {
            Ok(v) => v,
            Err(e) => { return Err(e); },
        };
        let compressed32 = match r.read_u32() {
            Ok(v) => v,
            Err(e) => { return Err(e); },
        };
        let uncompressed32 = match r.read_u32() {
            Ok(v) => v,
            Err(e) => { return Err(e); },
        };
        let file_name_length = match r.read_u16() {
            Ok(v) => v,
            Err(e) => { return Err(e); },
        };
        let extra_field_length = match r.read_u16() {
            Ok(v) => v,
            Err(e) => { return Err(e); },
        };
        let file_comment_length = match r.read_u16() {
            Ok(v) => v,
            Err(e) => { return Err(e); },
        };
        let disk16 = match r.read_u16() {
            Ok(v) => v,
            Err(e) => { return Err(e); },
        };
        let internal_file_attributes = match r.read_u16() {
            Ok(v) => v,
            Err(e) => { return Err(e); },
        };
        let external_file_attributes = match r.read_u32() {
            Ok(v) => v,
            Err(e) => { return Err(e); },
        };
        let offset32 = match r.read_u32() {
            Ok(v) => v,
            Err(e) => { return Err(e); },
        };
        let name_bytes = match r.read_bytes(file_name_length as usize) {
            Ok(v) => v,
            Err(e) => { return Err(e); },
        };
        let file_name = utf8_lossy(&name_bytes);
        let resolved = match resolve_extra(
            r,
            extra_field_length,
            uncompressed32 as u64,
            compressed32 as u64,
            offset32 as u64,
            disk16 as u32,
        ) {
            Ok(v) => v,
            Err(e) => { return Err(e); },
        };
        match r.skip(file_comment_length as usize) {
            Ok(u) => u,
            Err(e) => { return Err(e); },
        };
        Ok(CentralDirectoryHeader {
            version_made_by,
            version_needed,
            flags,
            compression_method,
            last_mod_time,
            last_mod_date,
            crc32,
            compressed_size: resolved.1,
            uncompressed_size: resolved.0,
            file_name_length,
            extra_field_length,
            file_comment_length,
            disk_number_start: resolved.3,
            internal_file_attributes,
            external_file_attributes,
            local_header_offset: resolved.2,
            file_name,
        })
    }

    /// Moves the cursor to the local file header this entry points at.
    pub fn seek_to_local_file_header(&self, r: &mut ByteReader) -> (res: Result<(), ZipError>)
        ensures
            final(r).data@ == old(r).data@,
            self.local_header_offset <= old(r).data@.len() ==> {
                &&& res is Ok
                &&& final(r).pos == self.local_header_offset
            },
            self.local_header_offset > old(r).data@.len() ==> res == Result::<(), ZipError>::Err(
                ZipError::Io,
            ),
    {
        r.seek_to(self.local_header_offset)
    }
}

/// The archive's trailing record, which locates the central directory or
/// signals, through placeholders, that the ZIP64 records must be consulted.
#[derive(Debug)]
pub struct EndOfCentralDirectoryRecord {
    pub number_of_this_disk: u16,
    pub number_of_the_disk_with_the_start_of_the_central_directory: u16,
    pub total_number_of_entries_in_the_central_directory_on_this_disk: u16,
    pub total_number_of_entries_in_the_central_directory: u16,
    pub size_of_the_central_directory: u32,
    pub offset_of_start_of_central_directory_with_respect_to_the_starting_disk_number: u32,
    pub comment_length: u16,
    pub offset_in_file: u64,
}

impl EndOfCentralDirectoryRecord {
    pub const SIGNATURE: u32 = 0x06054b50;

    /// Decodes the record whose fixed fields start at the cursor; its own
    /// signature sits four bytes earlier, and that file offset is recorded.
    pub fn from_reader(r: &mut ByteReader) -> (res: Result<EndOfCentralDirectoryRecord, ZipError>)
        requires
            old(r).pos >= 4,
        ensures
            final(r).data@ == old(r).data@,
            ({
                let s = parse_eocd(old(r).data@, old(r).pos as int);
                match res {
                    Ok(h) => {
                        &&& s is Ok
                        &&& h.number_of_this_disk as int == s->Ok_0.number_of_this_disk
                        &&& h.number_of_the_disk_with_the_start_of_the_central_directory as int
                            == s->Ok_0.cd_start_disk
                        &&& h.total_number_of_entries_in_the_central_directory_on_this_disk as int
                            == s->Ok_0.entries_this_disk
                        &&& h.total_number_of_entries_in_the_central_directory as int
                            == s->Ok_0.total_entries
                        &&& h.size_of_the_central_directory as int == s->Ok_0.cd_size
                        &&& h.offset_of_start_of_central_directory_with_respect_to_the_starting_disk_number
                            as int == s->Ok_0.cd_offset
                        &&& h.comment_length as int == s->Ok_0.comment_length
                        &&& h.offset_in_file as int == s->Ok_0.offset_in_file
                        &&& final(r).pos == old(r).pos + 18
                    },
                    Err(e) => s == Result::<EocdV, ZipError>::Err(e),
                }
            }),
    {
        let offset_in_file = (r.pos as u64) - 4;
        let number_of_this_disk = match r.read_u16() {
            Ok(v) => v,
            Err(e) => { return Err(e); },
        };
        let number_of_the_disk_with_the_start_of_the_central_directory = match r.read_u16() {
            Ok(v) => v,
            Err(e) => { return Err(e); },
        };
        let total_number_of_entries_in_the_central_directory_on_this_disk = match r.read_u16() {
            Ok(v) => v,
            Err(e) => { return Err(e); },
        };
        let total_number_of_entries_in_the_central_directory = match r.read_u16() {
            Ok(v) => v,
            Err(e) => { return Err(e); },
        };
        let size_of_the_central_directory = match r.read_u32() {
            Ok(v) => v,
            Err(e) => { return Err(e); },
        };
        let offset_of_start_of_central_directory_with_respect_to_the_starting_disk_number =
            match r.read_u32() {
            Ok(v) => v,
            Err(e) => { return Err(e); },
        };
        let comment_length = match r.read_u16() {
            Ok(v) => v,
            Err(e) => { return Err(e); },
        };
        Ok(EndOfCentralDirectoryRecord {
            number_of_this_disk,
            number_of_the_disk_with_the_start_of_the_central_directory,
            total_number_of_entries_in_the_central_directory_on_this_disk,
            total_number_of_entries_in_the_central_directory,
            size_of_the_central_directory,
            offset_of_start_of_central_directory_with_respect_to_the_starting_disk_number,
            comment_length,
            offset_in_file,
        })
    }

    /// Whether any field sits at its placeholder, so that the effective
    /// values live in the ZIP64 end-of-central-directory record instead.
    pub fn is_zip64(&self) -> (r: bool)
        ensures
            r == {
                ||| self.number_of_the_disk_with_the_start_of_the_central_directory == 0xFFFFu16
                ||| self.total_number_of_entries_in_the_central_directory_on_this_disk == 0xFFFFu16
                ||| self.total_number_of_entries_in_the_central_directory == 0xFFFFu16
                ||| self.size_of_the_central_directory == 0xFFFFFFFFu32
                ||| self.offset_of_start_of_central_directory_with_respect_to_the_starting_disk_number
                    == 0xFFFFFFFFu32
            },
    {
        self.number_of_the_disk_with_the_start_of_the_central_directory == 0xFFFF
            || self.total_number_of_entries_in_the_central_directory_on_this_disk == 0xFFFF
            || self.total_number_of_entries_in_the_central_directory == 0xFFFF
            || self.size_of_the_central_directory == 0xFFFFFFFF
            || self.offset_of_start_of_central_directory_with_respect_to_the_starting_disk_number
                == 0xFFFFFFFF
    }

    /// Moves the cursor to where the ZIP64 locator's signature must sit:
    /// twenty bytes of locator plus its four-byte signature before this
    /// record's own signature.
    pub fn seek_to_zip64_eocdr_locator(&self, r: &mut ByteReader) -> (res: Result<(), ZipError>)
        ensures
            final(r).data@ == old(r).data@,
            (self.offset_in_file >= 24 && self.offset_in_file - 24 <= old(r).data@.len()) ==> {
                &&& res is Ok
                &&& final(r).pos as int == self.offset_in_file - 24
            },
            (self.offset_in_file < 24 || self.offset_in_file - 24 > old(r).data@.len())
                ==> res == Result::<(), ZipError>::Err(ZipError::Io),
    {
        if self.offset_in_file < 24 {
            return Err(ZipError::Io);
        }
        r.seek_to(self.offset_in_file - 24)
    }

    /// Moves the cursor to the central directory's start offset.
    pub fn seek_to_start_of_central_directory(&self, r: &mut ByteReader) -> (res: Result<
        (),
        ZipError,
    >)
        ensures
            final(r).data@ == old(r).data@,
            self.offset_of_start_of_central_directory_with_respect_to_the_starting_disk_number
                <= old(r).data@.len() ==> {
                &&& res is Ok
                &&& final(r).pos
                    == self.offset_of_start_of_central_directory_with_respect_to_the_starting_disk_number
            },
            self.offset_of_start_of_central_directory_with_respect_to_the_starting_disk_number
                > old(r).data@.len() ==> res == Result::<(), ZipError>::Err(ZipError::Io),
    {
        r.seek_to(
            self.offset_of_start_of_central_directory_with_respect_to_the_starting_disk_number
                as u64,
        )
    }

    /// Positions the cursor on the trailing record's signature: exactly 22
    /// bytes before the end, the record's fixed size when the archive
    /// carries no comment. An archive whose non-empty comment shifts the
    /// record further back is not searched for; the signature check that
    /// follows then fails.
    pub fn search(r: &mut ByteReader) -> (res: Result<(), ZipError>)
        ensures
            final(r).data@ == old(r).data@,
            old(r).data@.len() >= 22 ==> {
                &&& res is Ok
                &&& final(r).pos == old(r).data@.len() - 22
            },
            old(r).data@.len() < 22 ==> res == Result::<(), ZipError>::Err(ZipError::Io),
    {
        r.seek_from_end(22)
    }
}

/// The 64-bit-capable replacement for the trailing record.
#[derive(Debug)]
pub struct Zip64EndOfCentralDirectoryRecord {
    pub size_of_zip64_end_of_central: u64,
    pub version_made_by: u16,
    pub version_needed: u16,
    pub number_of_this_disk: u32,
    pub number_of_the_disk_with_the_start_of_the_central_directory: u32,
    pub total_number_of_entries_in_the_central_directory_on_this_disk: u64,
    pub total_number_of_entries_in_the_central_directory: u64,
    pub size_of_the_central_directory: u64,
    pub offset_of_start_of_central_directory_with_respect_to_the_starting_disk_number: u64,
}

impl Zip64EndOfCentralDirectoryRecord {
    pub const SIGNATURE: u32 = 0x06064b50;

    /// Decodes the record whose fixed fields start at the cursor.
    pub fn from_reader(r: &mut ByteReader) -> (res: Result<
        Zip64EndOfCentralDirectoryRecord,
        ZipError,
    >)
        ensures
            final(r).data@ == old(r).data@,
            ({
                let s = parse_zip64_eocd(old(r).data@, old(r).pos as int);
                match res {
                    Ok(h) => {
                        &&& s is Ok
                        &&& h.size_of_zip64_end_of_central as int == s->Ok_0.record_size
                        &&& h.version_made_by as int == s->Ok_0.version_made_by
                        &&& h.version_needed as int == s->Ok_0.version_needed
                        &&& h.number_of_this_disk as int == s->Ok_0.number_of_this_disk
                        &&& h.number_of_the_disk_with_the_start_of_the_central_directory as int
                            == s->Ok_0.cd_start_disk
                        &&& h.total_number_of_entries_in_the_central_directory_on_this_disk as int
                            == s->Ok_0.entries_this_disk
                        &&& h.total_number_of_entries_in_the_central_directory as int
                            == s->Ok_0.total_entries
                        &&& h.size_of_the_central_directory as int == s->Ok_0.cd_size
                        &&& h.offset_of_start_of_central_directory_with_respect_to_the_starting_disk_number
                            as int == s->Ok_0.cd_offset
                        &&& final(r).pos == old(r).pos + 52
                    },
                    Err(e) => s == Result::<Zip64EocdV, ZipError>::Err(e),
                }
            }),
    {
        let size_of_zip64_end_of_central = match r.read_u64() {
            Ok(v) => v,
            Err(e) => { return Err(e); },
        };
        let version_made_by = match r.read_u16() {
            Ok(v) => v,
            Err(e) => { return Err(e); },
        };
        let version_needed = match r.read_u16() {
            Ok(v) => v,
            Err(e) => { return Err(e); },
        };
        let number_of_this_disk = match r.read_u32() {
            Ok(v) => v,
            Err(e) => { return Err(e); },
        };
        let number_of_the_disk_with_the_start_of_the_central_directory = match r.read_u32() {
            Ok(v) => v,
            Err(e) => { return Err(e); },
        };
        let total_number_of_entries_in_the_central_directory_on_this_disk = match r.read_u64() {
            Ok(v) => v,
            Err(e) => { return Err(e); },
        };
        let total_number_of_entries_in_the_central_directory = match r.read_u64() {
            Ok(v) => v,
            Err(e) => { return Err(e); },
        };
        let size_of_the_central_directory = match r.read_u64() {
            Ok(v) => v,
            Err(e) => { return Err(e); },
        };
        let offset_of_start_of_central_directory_with_respect_to_the_starting_disk_number =
            match r.read_u64() {
            Ok(v) => v,
            Err(e) => { return Err(e); },
        };
        Ok(Zip64EndOfCentralDirectoryRecord {
            size_of_zip64_end_of_central,
            version_made_by,
            version_needed,
            number_of_this_disk,
            number_of_the_disk_with_the_start_of_the_central_directory,
            total_number_of_entries_in_the_central_directory_on_this_disk,
            total_number_of_entries_in_the_central_directory,
            size_of_the_central_directory,
            offset_of_start_of_central_directory_with_respect_to_the_starting_disk_number,
        })
    }

    /// Moves the cursor to the central directory's 64-bit start offset.
    pub fn seek_to_start_of_central_directory(&self, r: &mut ByteReader) -> (res: Result<
        (),
        ZipError,
    >)
        ensures
            final(r).data@ == old(r).data@,
            self.offset_of_start_of_central_directory_with_respect_to_the_starting_disk_number
                <= old(r).data@.len() ==> {
                &&& res is Ok
                &&& final(r).pos
                    == self.offset_of_start_of_central_directory_with_respect_to_the_starting_disk_number
            },
            self.offset_of_start_of_central_directory_with_respect_to_the_starting_disk_number
                > old(r).data@.len() ==> res == Result::<(), ZipError>::Err(ZipError::Io),
    {
        r.seek_to(
            self.offset_of_start_of_central_directory_with_respect_to_the_starting_disk_number,
        )
    }
}

/// The bridge record that carries the absolute offset of the ZIP64
/// end-of-central-directory record.
#[derive(Debug)]
pub struct Zip64EndOfCentralDirectoryLocator {
    pub number_of_the_disk_with_the_start_of_the_zip64_end_of_central_directory: u32,
    pub relative_offset_of_the_zip64_end_of_central_directory_record: u64,
    pub total_number_of_disks: u32,
}

impl Zip64EndOfCentralDirectoryLocator {
    pub const SIGNATURE: u32 = 0x07064b50;

    pub const SIZE: u64 = 20;

    /// Decodes the locator whose fixed fields start at the cursor.
    pub fn from_reader(r: &mut ByteReader) -> (res: Result<
        Zip64EndOfCentralDirectoryLocator,
        ZipError,
    >)
        ensures
            final(r).data@ == old(r).data@,
            ({
                let s = parse_zip64_locator(old(r).data@, old(r).pos as int);
                match res {
                    Ok(h) => {
                        &&& s is Ok
                        &&& h.number_of_the_disk_with_the_start_of_the_zip64_end_of_central_directory
                            as int == s->Ok_0.zip64_eocd_disk
                        &&& h.relative_offset_of_the_zip64_end_of_central_directory_record as int
                            == s->Ok_0.zip64_eocd_offset
                        &&& h.total_number_of_disks as int == s->Ok_0.total_disks
                        &&& final(r).pos == old(r).pos + 16
                    },
                    Err(e) => s == Result::<Zip64LocatorV, ZipError>::Err(e),
                }
            }),
    {
        let number_of_the_disk_with_the_start_of_the_zip64_end_of_central_directory =
            match r.read_u32() {
            Ok(v) => v,
            Err(e) => { return Err(e); },
        };
        let relative_offset_of_the_zip64_end_of_central_directory_record = match r.read_u64() {
            Ok(v) => v,
            Err(e) => { return Err(e); },
        };
        let total_number_of_disks = match r.read_u32() {
            Ok(v) => v,
            Err(e) => { return Err(e); },
        };
        Ok(Zip64EndOfCentralDirectoryLocator {
            number_of_the_disk_with_the_start_of_the_zip64_end_of_central_directory,
            relative_offset_of_the_zip64_end_of_central_directory_record,
            total_number_of_disks,
        })
    }

    /// Moves the cursor to the offset the locator carries.
    pub fn seek_to_zip64_end_of_central_directory_record(&self, r: &mut ByteReader) -> (res:
        Result<(), ZipError>)
        ensures
            final(r).data@ == old(r).data@,
            self.relative_offset_of_the_zip64_end_of_central_directory_record
                <= old(r).data@.len() ==> {
                &&& res is Ok
                &&& final(r).pos
                    == self.relative_offset_of_the_zip64_end_of_central_directory_record
            },
            self.relative_offset_of_the_zip64_end_of_central_directory_record
                > old(r).data@.len() ==> res == Result::<(), ZipError>::Err(ZipError::Io),
    {
        r.seek_to(self.relative_offset_of_the_zip64_end_of_central_directory_record)
    }
}

} // verus!
