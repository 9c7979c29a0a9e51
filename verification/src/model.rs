//! The mathematical model of the archive: what each record's bytes mean,
//! how ZIP64 overrides resolve, and what the whole traversal returns.
//!
//! Every decoder and the navigator state its contract against these
//! functions, so the meaning of the byte format is written down once.

use vstd::prelude::*;

use crate::bytes::le16;
use crate::bytes::le32;
use crate::bytes::le64;
use crate::bytes::ZipError;
use crate::ext::inflate_of;
use crate::ext::lossy_of;

verus! {

/// The 32-bit placeholder whose presence calls for a ZIP64 override.
pub open spec fn sentinel32() -> int {
    0xFFFFFFFF
}

/// The 16-bit placeholder whose presence calls for a ZIP64 override.
pub open spec fn sentinel16() -> int {
    0xFFFF
}

/// The four size/offset values a ZIP64 extra block may override, plus the
/// byte position just past the consumed extra-field area.
pub struct ResolvedFields {
    pub uncompressed_size: int,
    pub compressed_size: int,
    pub local_header_offset: int,
    pub disk_number_start: int,
    pub end: int,
}

/// One conditional 64-bit override read: taken only when the placeholder
/// condition holds, in which case eight bytes are consumed.
pub open spec fn take64(b: Seq<u8>, cond: bool, v: int, p: int) -> Result<(int, int), ZipError> {
    if cond {
        if p + 8 <= b.len() {
            Ok((le64(b, p), p + 8))
        } else {
            Err(ZipError::Io)
        }
    } else {
        Ok((v, p))
    }
}

/// One conditional 32-bit override read, as `take64`.
pub open spec fn take32(b: Seq<u8>, cond: bool, v: int, p: int) -> Result<(int, int), ZipError> {
    if cond {
        if p + 4 <= b.len() {
            Ok((le32(b, p), p + 4))
        } else {
            Err(ZipError::Io)
        }
    } else {
        Ok((v, p))
    }
}

/// Resolution of an extra-field area of byte budget `rem` starting at `p`:
/// (id, size) pairs are read while budget remains; a ZIP64 pair (id 1)
/// overrides, in fixed order, each value whose placeholder condition holds;
/// any other pair is skipped over its declared size. A budget that would go
/// negative is a malformed area.
pub open spec fn spec_resolve(
    b: Seq<u8>,
    p: int,
    rem: int,
    un: int,
    co: int,
    off: int,
    disk: int,
) -> Result<ResolvedFields, ZipError>
    decreases rem,
{
    if rem <= 0 {
        Ok(
            (ResolvedFields {
                uncompressed_size: un,
                compressed_size: co,
                local_header_offset: off,
                disk_number_start: disk,
                end: p,
            }),
        )
    } else if p + 4 > b.len() {
        Err(ZipError::Io)
    } else {
        let id = le16(b, p);
        let size = le16(b, p + 2);
        if rem < 4 + size {
            Err(ZipError::Decode)
        } else if id == 1 {
            match take64(b, un == sentinel32(), un, p + 4) {
                Err(e) => Err(e),
                Ok((un2, q1)) => match take64(b, co == sentinel32(), co, q1) {
                    Err(e) => Err(e),
                    Ok((co2, q2)) => match take64(b, off == sentinel32(), off, q2) {
                        Err(e) => Err(e),
                        Ok((off2, q3)) => match take32(b, disk == sentinel16(), disk, q3) {
                            Err(e) => Err(e),
                            Ok((disk2, q4)) => spec_resolve(
                                b,
                                q4,
                                rem - 4 - size,
                                un2,
                                co2,
                                off2,
                                disk2,
                            ),
                        },
                    },
                },
            }
        } else {
            if p + 4 + size > b.len() {
                Err(ZipError::Io)
            } else {
                spec_resolve(b, p + 4 + size, rem - 4 - size, un, co, off, disk)
            }
        }
    }
}

/// A decoded local file header, with its name still as raw bytes.
pub struct LfhV {
    pub version: int,
    pub flags: int,
    pub compression_method: int,
    pub last_mod_time: int,
    pub last_mod_date: int,
    pub crc32: int,
    pub compressed_size: int,
    pub uncompressed_size: int,
    pub file_name_length: int,
    pub extra_field_length: int,
    pub name: Seq<u8>,
}

/// The local file header whose fixed fields start at `p` (just past the
/// signature), and the position just past the whole record.
pub open spec fn parse_lfh(b: Seq<u8>, p: int) -> Result<(LfhV, int), ZipError> {
    if p + 26 > b.len() {
        Err(ZipError::Io)
    } else {
        let nlen = le16(b, p + 22);
        let elen = le16(b, p + 24);
        if p + 26 + nlen > b.len() {
            Err(ZipError::Io)
        } else {
            match spec_resolve(b, p + 26 + nlen, elen, le32(b, p + 18), le32(b, p + 14), 0, 0) {
                Err(e) => Err(e),
                Ok(f) => Ok(
                    (
                        (LfhV {
                            version: le16(b, p),
                            flags: le16(b, p + 2),
                            compression_method: le16(b, p + 4),
                            last_mod_time: le16(b, p + 6),
                            last_mod_date: le16(b, p + 8),
                            crc32: le32(b, p + 10),
                            compressed_size: f.compressed_size,
                            uncompressed_size: f.uncompressed_size,
                            file_name_length: nlen,
                            extra_field_length: elen,
                            name: b.subrange(p + 26, p + 26 + nlen),
                        }),
                        f.end,
                    ),
                ),
            }
        }
    }
}

/// A decoded central directory entry, with its name still as raw bytes.
pub struct CdhV {
    pub version_made_by: int,
    pub version_needed: int,
    pub flags: int,
    pub compression_method: int,
    pub last_mod_time: int,
    pub last_mod_date: int,
    pub crc32: int,
    pub compressed_size: int,
    pub uncompressed_size: int,
    pub file_name_length: int,
    pub extra_field_length: int,
    pub file_comment_length: int,
    pub disk_number_start: int,
    pub internal_file_attributes: int,
    pub external_file_attributes: int,
    pub local_header_offset: int,
    pub name: Seq<u8>,
}

/// The central directory entry whose fixed fields start at `p` (just past
/// the signature), and the position just past the record and its comment.
pub open spec fn parse_cdh(b: Seq<u8>, p: int) -> Result<(CdhV, int), ZipError> {
    if p + 42 > b.len() {
        Err(ZipError::Io)
    } else {
        let nlen = le16(b, p + 24);
        let elen = le16(b, p + 26);
        let clen = le16(b, p + 28);
        if p + 42 + nlen > b.len() {
            Err(ZipError::Io)
        } else {
            match spec_resolve(
                b,
                p + 42 + nlen,
                elen,
                le32(b, p + 20),
                le32(b, p + 16),
                le32(b, p + 38),
                le16(b, p + 30),
            ) {
                Err(e) => Err(e),
                Ok(f) => if f.end + clen > b.len() {
                    Err(ZipError::Io)
                } else {
                    Ok(
                        (
                            (CdhV {
                                version_made_by: le16(b, p),
                                version_needed: le16(b, p + 2),
                                flags: le16(b, p + 4),
                                compression_method: le16(b, p + 6),
                                last_mod_time: le16(b, p + 8),
                                last_mod_date: le16(b, p + 10),
                                crc32: le32(b, p + 12),
                                compressed_size: f.compressed_size,
                                uncompressed_size: f.uncompressed_size,
                                file_name_length: nlen,
                                extra_field_length: elen,
                                file_comment_length: clen,
                                disk_number_start: f.disk_number_start,
                                internal_file_attributes: le16(b, p + 32),
                                external_file_attributes: le32(b, p + 34),
                                local_header_offset: f.local_header_offset,
                                name: b.subrange(p + 42, p + 42 + nlen),
                            }),
                            f.end + clen,
                        ),
                    )
                },
            }
        }
    }
}

/// A decoded end-of-central-directory record, with the file position of its
/// own signature.
pub struct EocdV {
    pub number_of_this_disk: int,
    pub cd_start_disk: int,
    pub entries_this_disk: int,
    pub total_entries: int,
    pub cd_size: int,
    pub cd_offset: int,
    pub comment_length: int,
    pub offset_in_file: int,
}

/// The end-of-central-directory record whose fixed fields start at `p`
/// (just past the signature, which sits at `p - 4`).
pub open spec fn parse_eocd(b: Seq<u8>, p: int) -> Result<EocdV, ZipError> {
    if p + 18 > b.len() {
        Err(ZipError::Io)
    } else {
        Ok(
            (EocdV {
                number_of_this_disk: le16(b, p),
                cd_start_disk: le16(b, p + 2),
                entries_this_disk: le16(b, p + 4),
                total_entries: le16(b, p + 6),
                cd_size: le32(b, p + 8),
                cd_offset: le32(b, p + 12),
                comment_length: le16(b, p + 16),
                offset_in_file: p - 4,
            }),
        )
    }
}

/// Whether any of the five fields of the record sits at its placeholder,
/// so that the 64-bit record must be consulted instead.
pub open spec fn spec_is_zip64(e: EocdV) -> bool {
    ||| e.cd_start_disk == sentinel16()
    ||| e.entries_this_disk == sentinel16()
    ||| e.total_entries == sentinel16()
    ||| e.cd_size == sentinel32()
    ||| e.cd_offset == sentinel32()
}

/// A decoded ZIP64 end-of-central-directory record.
pub struct Zip64EocdV {
    pub record_size: int,
    pub version_made_by: int,
    pub version_needed: int,
    pub number_of_this_disk: int,
    pub cd_start_disk: int,
    pub entries_this_disk: int,
    pub total_entries: int,
    pub cd_size: int,
    pub cd_offset: int,
}

/// The ZIP64 end-of-central-directory record whose fixed fields start at
/// `p` (just past the signature).
pub open spec fn parse_zip64_eocd(b: Seq<u8>, p: int) -> Result<Zip64EocdV, ZipError> {
    if p + 52 > b.len() {
        Err(ZipError::Io)
    } else {
        Ok(
            (Zip64EocdV {
                record_size: le64(b, p),
                version_made_by: le16(b, p + 8),
                version_needed: le16(b, p + 10),
                number_of_this_disk: le32(b, p + 12),
                cd_start_disk: le32(b, p + 16),
                entries_this_disk: le64(b, p + 20),
                total_entries: le64(b, p + 28),
                cd_size: le64(b, p + 36),
                cd_offset: le64(b, p + 44),
            }),
        )
    }
}

/// A decoded ZIP64 end-of-central-directory locator.
pub struct Zip64LocatorV {
    pub zip64_eocd_disk: int,
    pub zip64_eocd_offset: int,
    pub total_disks: int,
}

/// The locator whose fixed fields start at `p` (just past the signature).
pub open spec fn parse_zip64_locator(b: Seq<u8>, p: int) -> Result<Zip64LocatorV, ZipError> {
    if p + 16 > b.len() {
        Err(ZipError::Io)
    } else {
        Ok(
            (Zip64LocatorV {
                zip64_eocd_disk: le32(b, p),
                zip64_eocd_offset: le64(b, p + 4),
                total_disks: le32(b, p + 12),
            }),
        )
    }
}

/// The effective entry count and central-directory offset of the archive:
/// from the trailing record alone, or, when any placeholder is present,
/// from the ZIP64 record that the locator chain leads to.
pub open spec fn spec_locate(b: Seq<u8>) -> Result<(int, int), ZipError> {
    if b.len() < 22 {
        Err(ZipError::Io)
    } else {
        let ep = b.len() - 22;
        if le32(b, ep) != 0x06054b50 {
            Err(ZipError::Protocol)
        } else {
            match parse_eocd(b, ep + 4) {
                Err(e) => Err(e),
                Ok(e) => if spec_is_zip64(e) {
                    spec_locate_zip64(b, ep)
                } else {
                    Ok((e.total_entries, e.cd_offset))
                },
            }
        }
    }
}

/// The ZIP64 side of `spec_locate`: the locator sits 24 bytes before the
/// trailing record's signature at `ep`, and points at the 64-bit record.
pub open spec fn spec_locate_zip64(b: Seq<u8>, ep: int) -> Result<(int, int), ZipError> {
    if ep < 24 {
        Err(ZipError::Io)
    } else {
        let lp = ep - 24;
        if le32(b, lp) != 0x07064b50 {
            Err(ZipError::Protocol)
        } else {
            match parse_zip64_locator(b, lp + 4) {
                Err(e) => Err(e),
                Ok(loc) => if loc.zip64_eocd_offset + 4 > b.len() {
                    Err(ZipError::Io)
                } else if le32(b, loc.zip64_eocd_offset) != 0x06064b50 {
                    Err(ZipError::Protocol)
                } else {
                    match parse_zip64_eocd(b, loc.zip64_eocd_offset + 4) {
                        Err(e) => Err(e),
                        Ok(z) => Ok((z.total_entries, z.cd_offset)),
                    }
                },
            }
        }
    }
}

/// One directory record consumed at `p`: its signature, the record, and
/// the name comparison. A match yields the entry's local-header offset;
/// either way the position just past the record is returned.
#[verifier::opaque]
pub open spec fn spec_cd_step(b: Seq<u8>, name: Seq<char>, p: int) -> Result<
    (Option<int>, int),
    ZipError,
> {
    if p + 4 > b.len() {
        Err(ZipError::Io)
    } else if le32(b, p) != 0x02014b50 {
        Err(ZipError::Protocol)
    } else {
        match parse_cdh(b, p + 4) {
            Err(e) => Err(e),
            Ok((c, end)) => if name == lossy_of(c.name) {
                Ok((Some(c.local_header_offset), end))
            } else {
                Ok((None, end))
            },
        }
    }
}

/// The scan of the central directory from position `p` with `remaining`
/// entries still to consume: the entry whose decoded name matches leads to
/// its local file header; exhaustion without a match is terminal.
#[verifier::opaque]
pub open spec fn spec_scan(b: Seq<u8>, name: Seq<char>, p: int, remaining: int) -> Result<
    (LfhV, int),
    ZipError,
>
    decreases remaining,
{
    if remaining <= 0 {
        Err(ZipError::NotFound)
    } else {
        match spec_cd_step(b, name, p) {
            Err(e) => Err(e),
            Ok((step, end)) => match step {
                Some(off) => spec_follow(b, name, off),
                None => spec_scan(b, name, end, remaining - 1),
            },
        }
    }
}

/// The step from a matched directory entry to the local file header at
/// offset `off`: a name that disagrees there is an unrecoverable mismatch.
#[verifier::opaque]
pub open spec fn spec_follow(b: Seq<u8>, name: Seq<char>, off: int) -> Result<
    (LfhV, int),
    ZipError,
> {
    if off + 4 > b.len() {
        Err(ZipError::Io)
    } else if le32(b, off) != 0x04034b50 {
        Err(ZipError::Protocol)
    } else {
        match parse_lfh(b, off + 4) {
            Err(e) => Err(e),
            Ok((l, end)) => if name == lossy_of(l.name) {
                Ok((l, end))
            } else {
                Err(ZipError::NameMismatch)
            },
        }
    }
}

/// Whether `name` is absent from the `remaining` directory records at `p`:
/// every record consumed decodes and misses.
pub open spec fn spec_scan_misses(b: Seq<u8>, name: Seq<char>, p: int, remaining: int) -> bool
    decreases remaining,
{
    remaining <= 0 || (match spec_cd_step(b, name, p) {
        Ok((step, end)) => step is None && spec_scan_misses(b, name, end, remaining - 1),
        Err(e) => false,
    })
}

/// The payload step shared by scan and follow: a located local file header
/// yields the inflation of the `compressed_size` bytes at the cursor.
pub open spec fn spec_payload(b: Seq<u8>, located: Result<(LfhV, int), ZipError>) -> Result<
    Seq<u8>,
    ZipError,
> {
    match located {
        Err(e) => Err(e),
        Ok((l, dpos)) => if dpos + l.compressed_size > b.len() {
            Err(ZipError::Io)
        } else {
            Ok(inflate_of(b.subrange(dpos, dpos + l.compressed_size)))
        },
    }
}

/// What extracting `name` from the archive bytes `b` returns: the inflation
/// of the matched entry's compressed payload, or the failure met on the way.
pub open spec fn spec_extract(b: Seq<u8>, name: Seq<char>) -> Result<Seq<u8>, ZipError> {
    match spec_locate(b) {
        Err(e) => Err(e),
        Ok((total, cd)) => if cd > b.len() {
            Err(ZipError::Io)
        } else {
            spec_payload(b, spec_scan(b, name, cd, total))
        },
    }
}

/// Resolution of an extra-field area fails only by running out of bytes or
/// by a budget underflow.
pub proof fn lemma_resolve_errors(
    b: Seq<u8>,
    p: int,
    rem: int,
    un: int,
    co: int,
    off: int,
    disk: int,
)
    ensures
        spec_resolve(b, p, rem, un, co, off, disk) is Err ==> {
            ||| spec_resolve(b, p, rem, un, co, off, disk)->Err_0 == ZipError::Io
            ||| spec_resolve(b, p, rem, un, co, off, disk)->Err_0 == ZipError::Decode
        },
    decreases rem,
{
    if rem > 0 && p + 4 <= b.len() {
        let id = le16(b, p);
        let size = le16(b, p + 2);
        if rem >= 4 + size {
            if id == 1 {
                if let Ok((un2, q1)) = take64(b, un == sentinel32(), un, p + 4) {
                    if let Ok((co2, q2)) = take64(b, co == sentinel32(), co, q1) {
                        if let Ok((off2, q3)) = take64(b, off == sentinel32(), off, q2) {
                            if let Ok((disk2, q4)) = take32(b, disk == sentinel16(), disk, q3) {
                                lemma_resolve_errors(b, q4, rem - 4 - size, un2, co2, off2, disk2);
                            }
                        }
                    }
                }
            } else {
                if p + 4 + size <= b.len() {
                    lemma_resolve_errors(b, p + 4 + size, rem - 4 - size, un, co, off, disk);
                }
            }
        }
    }
}

/// A local file header fails to decode only by running out of bytes or by
/// a budget underflow in its extra-field area.
pub proof fn lemma_parse_lfh_errors(b: Seq<u8>, p: int)
    ensures
        parse_lfh(b, p) is Err ==> {
            ||| parse_lfh(b, p)->Err_0 == ZipError::Io
            ||| parse_lfh(b, p)->Err_0 == ZipError::Decode
        },
{
    if p + 26 <= b.len() && p + 26 + le16(b, p + 22) <= b.len() {
        lemma_resolve_errors(
            b,
            p + 26 + le16(b, p + 22),
            le16(b, p + 24),
            le32(b, p + 18),
            le32(b, p + 14),
            0,
            0,
        );
    }
}

/// A central directory entry fails to decode only by running out of bytes
/// or by a budget underflow in its extra-field area.
pub proof fn lemma_parse_cdh_errors(b: Seq<u8>, p: int)
    ensures
        parse_cdh(b, p) is Err ==> {
            ||| parse_cdh(b, p)->Err_0 == ZipError::Io
            ||| parse_cdh(b, p)->Err_0 == ZipError::Decode
        },
{
    if p + 42 <= b.len() && p + 42 + le16(b, p + 24) <= b.len() {
        lemma_resolve_errors(
            b,
            p + 42 + le16(b, p + 24),
            le16(b, p + 26),
            le32(b, p + 20),
            le32(b, p + 16),
            le32(b, p + 38),
            le16(b, p + 30),
        );
    }
}

/// Consuming one directory record never reports the directory as
/// exhausted: that failure belongs to the scan's counter alone.
pub proof fn lemma_cd_step_no_not_found(b: Seq<u8>, name: Seq<char>, p: int)
    ensures
        spec_cd_step(b, name, p) != Result::<(Option<int>, int), ZipError>::Err(
            ZipError::NotFound,
        ),
{
    reveal(spec_cd_step);
    lemma_parse_cdh_errors(b, p + 4);
}

/// Following a matched entry to its local file header never reports the
/// directory as exhausted: that failure belongs to the scan alone.
pub proof fn lemma_follow_no_not_found(b: Seq<u8>, name: Seq<char>, off: int)
    ensures
        spec_payload(b, spec_follow(b, name, off)) != Result::<Seq<u8>, ZipError>::Err(
            ZipError::NotFound,
        ),
{
    reveal(spec_follow);
    lemma_parse_lfh_errors(b, off + 4);
}

/// The effective total entry count of the archive, where the trailing
/// records determine one.
pub open spec fn spec_total_entries(b: Seq<u8>) -> int {
    match spec_locate(b) {
        Ok((total, cd)) => total,
        Err(e) => 0,
    }
}

} // verus!
