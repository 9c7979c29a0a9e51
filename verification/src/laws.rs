//! General properties of the model, stated and proved once so a reader
//! need not derive them from the definitions.

use vstd::prelude::*;

use crate::bytes::le16;
use crate::bytes::le32;
use crate::bytes::le64;
use crate::bytes::ZipError;
use crate::ext::inflate_of;
use crate::ext::lossy_of;
use crate::model::parse_eocd;
use crate::model::parse_lfh;
use crate::model::parse_zip64_eocd;
use crate::model::parse_zip64_locator;
use crate::model::sentinel16;
use crate::model::sentinel32;
use crate::model::spec_extract;
use crate::model::spec_follow;
use crate::model::spec_is_zip64;
use crate::model::spec_locate;
use crate::model::spec_scan;
use crate::model::spec_resolve;
use crate::model::take32;
use crate::model::take64;
use crate::model::ResolvedFields;

verus! {

/// A successful extraction returns exactly the inflation of the matched
/// entry's compressed payload: the `compressed_size` bytes that start
/// where its local file header ends.
pub proof fn lemma_success_is_inflation(b: Seq<u8>, name: Seq<char>)
    requires
        spec_locate(b) is Ok,
        spec_locate(b)->Ok_0.1 <= b.len(),
        spec_scan(b, name, spec_locate(b)->Ok_0.1, spec_locate(b)->Ok_0.0) is Ok,
        spec_scan(b, name, spec_locate(b)->Ok_0.1, spec_locate(b)->Ok_0.0)->Ok_0.1 + spec_scan(
            b,
            name,
            spec_locate(b)->Ok_0.1,
            spec_locate(b)->Ok_0.0,
        )->Ok_0.0.compressed_size <= b.len(),
    ensures
        ({
            let found = spec_scan(b, name, spec_locate(b)->Ok_0.1, spec_locate(b)->Ok_0.0)->Ok_0;
            spec_extract(b, name) == Result::<Seq<u8>, ZipError>::Ok(
                inflate_of(b.subrange(found.1, found.1 + found.0.compressed_size)),
            )
        }),
{
}

/// When any of the five placeholder conditions holds in the trailing
/// record, the effective entry count and central-directory offset are the
/// 64-bit values of the ZIP64 end-of-central-directory record that the
/// locator chain leads to, not the 16/32-bit placeholders.
pub proof fn lemma_zip64_effective_values(b: Seq<u8>)
    requires
        b.len() >= 46,
        le32(b, b.len() - 22) == 0x06054b50,
        spec_is_zip64(parse_eocd(b, b.len() - 18)->Ok_0),
        le32(b, b.len() - 46) == 0x07064b50,
        parse_zip64_locator(b, b.len() - 42)->Ok_0.zip64_eocd_offset + 56 <= b.len(),
        le32(b, parse_zip64_locator(b, b.len() - 42)->Ok_0.zip64_eocd_offset) == 0x06064b50,
    ensures
        ({
            let z = parse_zip64_eocd(
                b,
                parse_zip64_locator(b, b.len() - 42)->Ok_0.zip64_eocd_offset + 4,
            )->Ok_0;
            spec_locate(b) == Result::<(int, int), ZipError>::Ok((z.total_entries, z.cd_offset))
        }),
{
}

/// A ZIP64 extra block overrides the four values in the documented fixed
/// order - uncompressed size, compressed size, local-header offset, disk
/// start - and each only when that value sits at its placeholder; a value
/// without its placeholder keeps its provisional reading.
pub proof fn lemma_zip64_override_order(
    b: Seq<u8>,
    p: int,
    size: int,
    un: int,
    co: int,
    off: int,
    disk: int,
)
    requires
        p >= 0,
        le16(b, p) == 1,
        le16(b, p + 2) == size,
    ensures
        ({
            let q0 = p + 4;
            let q1 = if un == sentinel32() { q0 + 8 } else { q0 };
            let q2 = if co == sentinel32() { q1 + 8 } else { q1 };
            let q3 = if off == sentinel32() { q2 + 8 } else { q2 };
            let q4 = if disk == sentinel16() { q3 + 4 } else { q3 };
            q4 <= b.len() ==> spec_resolve(b, p, 4 + size, un, co, off, disk) == Result::<
                ResolvedFields,
                ZipError,
            >::Ok(
                (ResolvedFields {
                    uncompressed_size: if un == sentinel32() { le64(b, q0) } else { un },
                    compressed_size: if co == sentinel32() { le64(b, q1) } else { co },
                    local_header_offset: if off == sentinel32() { le64(b, q2) } else { off },
                    disk_number_start: if disk == sentinel16() { le32(b, q3) } else { disk },
                    end: q4,
                }),
            )
        }),
{
    let q0 = p + 4;
    let q1 = if un == sentinel32() { q0 + 8 } else { q0 };
    let q2 = if co == sentinel32() { q1 + 8 } else { q1 };
    let q3 = if off == sentinel32() { q2 + 8 } else { q2 };
    let q4 = if disk == sentinel16() { q3 + 4 } else { q3 };
    if q4 <= b.len() {
        let un2 = if un == sentinel32() { le64(b, q0) } else { un };
        let co2 = if co == sentinel32() { le64(b, q1) } else { co };
        let off2 = if off == sentinel32() { le64(b, q2) } else { off };
        let disk2 = if disk == sentinel16() { le32(b, q3) } else { disk };
        assert(take64(b, un == sentinel32(), un, q0) == Result::<(int, int), ZipError>::Ok(
            (un2, q1),
        ));
        assert(take64(b, co == sentinel32(), co, q1) == Result::<(int, int), ZipError>::Ok(
            (co2, q2),
        ));
        assert(take64(b, off == sentinel32(), off, q2) == Result::<(int, int), ZipError>::Ok(
            (off2, q3),
        ));
        assert(take32(b, disk == sentinel16(), disk, q3) == Result::<(int, int), ZipError>::Ok(
            (disk2, q4),
        ));
        assert(spec_resolve(b, q4, 0, un2, co2, off2, disk2) == Result::<
            ResolvedFields,
            ZipError,
        >::Ok(
            (ResolvedFields {
                uncompressed_size: un2,
                compressed_size: co2,
                local_header_offset: off2,
                disk_number_start: disk2,
                end: q4,
            }),
        ));
    }
}

/// A local file header whose decoded name disagrees with the requested
/// one is a name mismatch, never a silent extraction.
pub proof fn lemma_name_mismatch(b: Seq<u8>, name: Seq<char>, off: int)
    requires
        off + 4 <= b.len(),
        le32(b, off) == 0x04034b50,
        parse_lfh(b, off + 4) is Ok,
        name != lossy_of(parse_lfh(b, off + 4)->Ok_0.0.name),
    ensures
        spec_follow(b, name, off) == Result::<(crate::model::LfhV, int), ZipError>::Err(
            ZipError::NameMismatch,
        ),
{
    reveal(spec_follow);
}

/// A name absent from the directory - every one of the `remaining`
/// records decodes and misses - ends in the not-found failure, after all
/// of them were consumed.
pub proof fn lemma_absent_name_is_not_found(b: Seq<u8>, name: Seq<char>, p: int, remaining: int)
    requires
        crate::model::spec_scan_misses(b, name, p, remaining),
    ensures
        spec_scan(b, name, p, remaining) == Result::<(crate::model::LfhV, int), ZipError>::Err(
            ZipError::NotFound,
        ),
    decreases remaining,
{
    reveal_with_fuel(spec_scan, 1);
    if remaining > 0 {
        if let Ok((step, end)) = crate::model::spec_cd_step(b, name, p) {
            lemma_absent_name_is_not_found(b, name, end, remaining - 1);
        }
    }
}

/// An archive too short to hold the 22-byte trailing record fails as a
/// read past the end, before any signature is interpreted.
pub proof fn lemma_short_archive_is_io(b: Seq<u8>, name: Seq<char>)
    requires
        b.len() < 22,
    ensures
        spec_extract(b, name) == Result::<Seq<u8>, ZipError>::Err(ZipError::Io),
{
}

/// A trailer whose signature was overwritten is a protocol failure, never
/// a silent misread.
pub proof fn lemma_corrupt_trailer_is_protocol(b: Seq<u8>, name: Seq<char>)
    requires
        b.len() >= 22,
        le32(b, b.len() - 22) != 0x06054b50,
    ensures
        spec_extract(b, name) == Result::<Seq<u8>, ZipError>::Err(ZipError::Protocol),
{
}

/// A scan given no entries to consume ends not-found at once.
pub proof fn lemma_scan_exhausted(b: Seq<u8>, name: Seq<char>, p: int)
    ensures
        spec_scan(b, name, p, 0) == Result::<(crate::model::LfhV, int), ZipError>::Err(
            ZipError::NotFound,
        ),
{
    reveal_with_fuel(spec_scan, 1);
}

} // verus!
