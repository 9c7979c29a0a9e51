//! The navigator: drives the signature-keyed traversal from the trailing
//! record to the matched entry's payload and inflates it.

use vstd::prelude::*;

use crate::bytes::ByteReader;
use crate::bytes::ZipError;
use crate::model::spec_extract;
use crate::model::spec_locate;
use crate::model::spec_scan;
use crate::model::spec_cd_step;
use crate::model::spec_follow;
use crate::model::spec_payload;
use crate::model::spec_total_entries;
use crate::records::CentralDirectoryHeader;
use crate::records::EndOfCentralDirectoryRecord;
use crate::records::LocalFileHeader;
use crate::records::Zip64EndOfCentralDirectoryLocator;
use crate::records::Zip64EndOfCentralDirectoryRecord;

verus! {

/// Reads the four-byte record signature at the cursor.
pub fn read_signature(r: &mut ByteReader) -> (res: Result<u32, ZipError>)
    ensures
        final(r).data@ == old(r).data@,
        old(r).pos + 4 <= old(r).data@.len() ==> {
            &&& res is Ok
            &&& res->Ok_0 as int == crate::bytes::le32(old(r).data@, old(r).pos as int)
            &&& final(r).pos == old(r).pos + 4
        },
        old(r).pos + 4 > old(r).data@.len() ==> res == Result::<u32, ZipError>::Err(ZipError::Io),
{
    r.read_u32()
}

/// Follows the trailing record (and the ZIP64 chain when its placeholders
/// call for it) to the effective entry count and central-directory offset,
/// leaving the cursor on the directory's first record.
fn locate(r: &mut ByteReader) -> (res: Result<(u64, u64), ZipError>)
    ensures
        final(r).data@ == old(r).data@,
        match res {
            Ok(tc) => {
                &&& spec_locate(old(r).data@) == Result::<(int, int), ZipError>::Ok(
                    (tc.0 as int, tc.1 as int),
                )
                &&& tc.1 <= old(r).data@.len()
                &&& final(r).pos == tc.1
            },
            Err(e) => {
                ||| spec_locate(old(r).data@) == Result::<(int, int), ZipError>::Err(e)
                ||| {
                    &&& spec_locate(old(r).data@) is Ok
                    &&& spec_locate(old(r).data@)->Ok_0.1 > old(r).data@.len()
                    &&& e == ZipError::Io
                }
            },
        },
{
    match EndOfCentralDirectoryRecord::search(r) {
        Ok(u) => u,
        Err(e) => { return Err(e); },
    };
    let sig = match read_signature(r) {
        Ok(v) => v,
        Err(e) => { return Err(e); },
    };
    if sig != EndOfCentralDirectoryRecord::SIGNATURE {
        return Err(ZipError::Protocol);
    }
    let eocd = match EndOfCentralDirectoryRecord::from_reader(r) {
        Ok(v) => v,
        Err(e) => { return Err(e); },
    };
    let total: u64;
    let cd_offset: u64;
    if eocd.is_zip64() {
        match eocd.seek_to_zip64_eocdr_locator(r) {
            Ok(u) => u,
            Err(e) => { return Err(e); },
        };
        let sig2 = match read_signature(r) {
            Ok(v) => v,
            Err(e) => { return Err(e); },
        };
        if sig2 != Zip64EndOfCentralDirectoryLocator::SIGNATURE {
            return Err(ZipError::Protocol);
        }
        let locator = match Zip64EndOfCentralDirectoryLocator::from_reader(r) {
            Ok(v) => v,
            Err(e) => { return Err(e); },
        };
        match locator.seek_to_zip64_end_of_central_directory_record(r) {
            Ok(u) => u,
            Err(e) => { return Err(e); },
        };
        let sig3 = match read_signature(r) {
            Ok(v) => v,
            Err(e) => { return Err(e); },
        };
        if sig3 != Zip64EndOfCentralDirectoryRecord::SIGNATURE {
            return Err(ZipError::Protocol);
        }
        let z64 = match Zip64EndOfCentralDirectoryRecord::from_reader(r) {
            Ok(v) => v,
            Err(e) => { return Err(e); },
        };
        total = z64.total_number_of_entries_in_the_central_directory;
        cd_offset =
            z64.offset_of_start_of_central_directory_with_respect_to_the_starting_disk_number;
        match z64.seek_to_start_of_central_directory(r) {
            Ok(u) => u,
            Err(e) => { return Err(e); },
        };
    } else {
        total = eocd.total_number_of_entries_in_the_central_directory as u64;
        cd_offset =
            eocd.offset_of_start_of_central_directory_with_respect_to_the_starting_disk_number
            as u64;
        match eocd.seek_to_start_of_central_directory(r) {
            Ok(u) => u,
            Err(e) => { return Err(e); },
        };
    }
    Ok((total, cd_offset))
}

/// Follows a matched directory entry to the local file header at `offset`
/// and, when the name there agrees, inflates the entry's payload.
fn follow_entry(r: &mut ByteReader, file: &String, offset: u64) -> (res: Result<Vec<u8>, ZipError>)
    ensures
        final(r).data@ == old(r).data@,
        ({
            let s = spec_payload(
                old(r).data@,
                spec_follow(old(r).data@, file@, offset as int),
            );
            match res {
                Ok(v) => s is Ok && v@ == s->Ok_0,
                Err(e) => s == Result::<Seq<u8>, ZipError>::Err(e),
            }
        }),
{
    proof {
        reveal(spec_follow);
    }
    match r.seek_to(offset) {
        Ok(u) => u,
        Err(e) => { return Err(e); },
    };
    let sig = match read_signature(r) {
        Ok(v) => v,
        Err(e) => { return Err(e); },
    };
    if sig != LocalFileHeader::SIGNATURE {
        return Err(ZipError::Protocol);
    }
    let lfh = match LocalFileHeader::from_reader(r) {
        Ok(v) => v,
        Err(e) => { return Err(e); },
    };
    if *file == lfh.file_name {
        lfh.decompress_to(r)
    } else {
        Err(ZipError::NameMismatch)
    }
}

/// Consumes one directory record at the cursor: reads its signature,
/// decodes it, and compares its name, handing back the matched entry's
/// local-header offset if the names agree.
fn scan_step(r: &mut ByteReader, file: &String) -> (res: Result<Option<u64>, ZipError>)
    ensures
        final(r).data@ == old(r).data@,
        ({
            let s = spec_cd_step(old(r).data@, file@, old(r).pos as int);
            match res {
                Ok(step) => {
                    &&& s is Ok
                    &&& match step {
                        Some(off) => s->Ok_0.0 == Some(off as int),
                        None => s->Ok_0.0 == Option::<int>::None,
                    }
                    &&& final(r).pos as int == s->Ok_0.1
                },
                Err(e) => s == Result::<(Option<int>, int), ZipError>::Err(e),
            }
        }),
{
    proof {
        reveal(spec_cd_step);
    }
    let sig = match read_signature(r) {
        Ok(v) => v,
        Err(e) => { return Err(e); },
    };
    if sig != CentralDirectoryHeader::SIGNATURE {
        return Err(ZipError::Protocol);
    }
    let cdr = match CentralDirectoryHeader::from_reader(r) {
        Ok(v) => v,
        Err(e) => { return Err(e); },
    };
    if *file == cdr.file_name {
        Ok(Some(cdr.local_header_offset))
    } else {
        Ok(None)
    }
}

/// Scans `total` central-directory records at the cursor for `file`,
/// counting each decoded record in `scanned`, and extracts the matched
/// entry through its local file header.
#[verifier::loop_isolation(false)]
fn scan_entries(r: &mut ByteReader, file: &String, total: u64, scanned: &mut u64) -> (res: Result<
    Vec<u8>,
    ZipError,
>)
    ensures
        final(r).data@ == old(r).data@,
        ({
            let s = spec_payload(
                old(r).data@,
                spec_scan(old(r).data@, file@, old(r).pos as int, total as int),
            );
            match res {
                Ok(v) => s is Ok && v@ == s->Ok_0,
                Err(e) => s == Result::<Seq<u8>, ZipError>::Err(e),
            }
        }),
        res == Result::<Vec<u8>, ZipError>::Err(ZipError::NotFound) ==> *final(scanned)
            == total,
{
    let ghost b = r.data@;
    let ghost p0 = r.pos as int;
    *scanned = 0;
    let mut remaining: u64 = total;
    while remaining > 0
        invariant
            r.data@ == b,
            spec_scan(b, file@, r.pos as int, remaining as int) == spec_scan(
                b,
                file@,
                p0,
                total as int,
            ),
            *scanned + remaining == total,
        decreases remaining,
    {
        let ghost pi = r.pos as int;
        let ghost remi = remaining as int;
        let step = match scan_step(r, file) {
            Ok(v) => v,
            Err(e) => {
                proof {
                    reveal_with_fuel(spec_scan, 1);
                    crate::model::lemma_cd_step_no_not_found(b, file@, pi);
                }
                return Err(e);
            },
        };
        remaining = remaining - 1;
        *scanned = *scanned + 1;
        match step {
            Some(off) => {
                proof {
                    reveal_with_fuel(spec_scan, 1);
                    assert(spec_scan(b, file@, pi, remi) == spec_follow(b, file@, off as int));
                    crate::model::lemma_follow_no_not_found(b, file@, off as int);
                }
                return follow_entry(r, file, off);
            },
            None => {
                proof {
                    reveal_with_fuel(spec_scan, 1);
                    assert(spec_scan(b, file@, pi, remi) == spec_scan(
                        b,
                        file@,
                        r.pos as int,
                        remaining as int,
                    ));
                }
            },
        }
    }
    proof {
        reveal_with_fuel(spec_scan, 1);
    }
    Err(ZipError::NotFound)
}

/// One extraction over an archive held as bytes.
pub struct UnZip {
    pub reader: ByteReader,
    pub entries_scanned: u64,
}

impl UnZip {
    /// A navigator over the archive bytes `data`.
    pub fn new(data: Vec<u8>) -> (r: Self)
        ensures
            r.reader.data@ == data@,
            r.entries_scanned == 0,
    {
        UnZip { reader: ByteReader::new(data), entries_scanned: 0 }
    }

    /// Extracts the entry named `file`: the traversal follows the trailing
    /// record (and, when its placeholders ask for it, the ZIP64 records) to
    /// the central directory, scans it for the name, follows the matched
    /// entry to its local file header, and inflates the payload.
    ///
    /// The result is exactly what the model's `spec_extract` says of the
    /// archive bytes and the name. When the scan ends not-found, exactly
    /// the archive's effective entry count of directory records was
    /// decoded, and `entries_scanned` reports it.
    pub fn file(&mut self, file: String) -> (res: Result<Vec<u8>, ZipError>)
        ensures
            final(self).reader.data@ == old(self).reader.data@,
            ({
                let s = spec_extract(old(self).reader.data@, file@);
                match res {
                    Ok(v) => s is Ok && v@ == s->Ok_0,
                    Err(e) => s == Result::<Seq<u8>, ZipError>::Err(e),
                }
            }),
            spec_extract(old(self).reader.data@, file@) == Result::<Seq<u8>, ZipError>::Err(
                ZipError::NotFound,
            ) ==> final(self).entries_scanned as int == spec_total_entries(
                old(self).reader.data@,
            ),
    {
        self.entries_scanned = 0;
        let located = match locate(&mut self.reader) {
            Ok(v) => v,
            Err(e) => { return Err(e); },
        };
        scan_entries(&mut self.reader, &file, located.0, &mut self.entries_scanned)
    }
}

} // verus!
