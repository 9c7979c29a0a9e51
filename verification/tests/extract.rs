use unzip::ByteReader;
use unzip::CentralDirectoryHeader;
use unzip::EndOfCentralDirectoryRecord;
use unzip::LocalFileHeader;
use unzip::UnZip;
use unzip::ZipError;

fn p16(v: &mut Vec<u8>, x: u16) {
    v.push((x & 0xFF) as u8);
    v.push((x >> 8) as u8);
}

fn p32(v: &mut Vec<u8>, x: u32) {
    p16(v, (x & 0xFFFF) as u16);
    p16(v, (x >> 16) as u16);
}

fn p64(v: &mut Vec<u8>, x: u64) {
    p32(v, (x & 0xFFFFFFFF) as u32);
    p32(v, (x >> 32) as u32);
}

fn deflate_bytes(data: &[u8]) -> Vec<u8> {
    let mut enc = flate2::write::DeflateEncoder::new(Vec::new(), flate2::Compression::default());
    std::io::Write::write_all(&mut enc, data).unwrap();
    enc.finish().unwrap()
}

fn push_local_header(v: &mut Vec<u8>, name: &str, comp_len: u32, raw_len: u32) {
    p32(v, 0x04034b50);
    p16(v, 20);
    p16(v, 0);
    p16(v, 8);
    p16(v, 0);
    p16(v, 0);
    p32(v, 0);
    p32(v, comp_len);
    p32(v, raw_len);
    p16(v, name.len() as u16);
    p16(v, 0);
    v.extend_from_slice(name.as_bytes());
}

fn push_central_header(v: &mut Vec<u8>, name: &str, comp_len: u32, raw_len: u32, offset: u32) {
    p32(v, 0x02014b50);
    p16(v, 20);
    p16(v, 20);
    p16(v, 0);
    p16(v, 8);
    p16(v, 0);
    p16(v, 0);
    p32(v, 0);
    p32(v, comp_len);
    p32(v, raw_len);
    p16(v, name.len() as u16);
    p16(v, 0);
    p16(v, 0);
    p16(v, 0);
    p16(v, 0);
    p32(v, 0);
    p32(v, offset);
    v.extend_from_slice(name.as_bytes());
}

fn push_eocd(v: &mut Vec<u8>, count: u16, cd_size: u32, cd_off: u32) {
    p32(v, 0x06054b50);
    p16(v, 0);
    p16(v, 0);
    p16(v, count);
    p16(v, count);
    p32(v, cd_size);
    p32(v, cd_off);
    p16(v, 0);
}

fn build_archive(entries: &[(&str, &[u8])]) -> Vec<u8> {
    let mut v = Vec::new();
    let mut infos: Vec<(u32, u32, u32, String)> = Vec::new();
    for (name, data) in entries {
        let comp = deflate_bytes(data);
        let off = v.len() as u32;
        push_local_header(&mut v, name, comp.len() as u32, data.len() as u32);
        v.extend_from_slice(&comp);
        infos.push((off, comp.len() as u32, data.len() as u32, (*name).to_string()));
    }
    let cd_off = v.len() as u32;
    for (off, cs, us, name) in &infos {
        push_central_header(&mut v, name, *cs, *us, *off);
    }
    let cd_size = v.len() as u32 - cd_off;
    push_eocd(&mut v, entries.len() as u16, cd_size, cd_off);
    v
}

fn build_zip64_archive(entries: &[(&str, &[u8])]) -> Vec<u8> {
    let mut v = Vec::new();
    let mut infos: Vec<(u32, u32, u32, String)> = Vec::new();
    for (name, data) in entries {
        let comp = deflate_bytes(data);
        let off = v.len() as u32;
        push_local_header(&mut v, name, comp.len() as u32, data.len() as u32);
        v.extend_from_slice(&comp);
        infos.push((off, comp.len() as u32, data.len() as u32, (*name).to_string()));
    }
    let cd_off = v.len() as u64;
    for (off, cs, us, name) in &infos {
        push_central_header(&mut v, name, *cs, *us, *off);
    }
    let cd_size = v.len() as u64 - cd_off;
    let z64_off = v.len() as u64;
    p32(&mut v, 0x06064b50);
    p64(&mut v, 44);
    p16(&mut v, 45);
    p16(&mut v, 45);
    p32(&mut v, 0);
    p32(&mut v, 0);
    p64(&mut v, entries.len() as u64);
    p64(&mut v, entries.len() as u64);
    p64(&mut v, cd_size);
    p64(&mut v, cd_off);
    p32(&mut v, 0x07064b50);
    p32(&mut v, 0);
    p64(&mut v, z64_off);
    p32(&mut v, 1);
    p32(&mut v, 0);
    push_eocd(&mut v, 0xFFFF, cd_size as u32, cd_off as u32);
    v
}

#[test]
fn extract_first_entry() {
    let archive = build_archive(&[("a.txt", b"hello"), ("b.txt", b"some other data")]);
    let mut z = UnZip::new(archive);
    let out = z.file(String::from("a.txt")).unwrap();
    assert_eq!(out, b"hello");
}

#[test]
fn extract_second_entry() {
    let archive = build_archive(&[("a.txt", b"hello"), ("b.txt", b"some other data")]);
    let mut z = UnZip::new(archive);
    let out = z.file(String::from("b.txt")).unwrap();
    assert_eq!(out, b"some other data");
}

#[test]
fn extract_missing_entry_is_not_found() {
    let archive = build_archive(&[("a.txt", b"hello"), ("b.txt", b"world")]);
    let mut z = UnZip::new(archive);
    assert_eq!(z.file(String::from("c.txt")), Err(ZipError::NotFound));
}

#[test]
fn not_found_scans_every_directory_record() {
    let archive = build_archive(&[("a.txt", b"hello"), ("b.txt", b"world")]);
    let mut z = UnZip::new(archive);
    assert_eq!(z.file(String::from("c.txt")), Err(ZipError::NotFound));
    assert_eq!(z.entries_scanned, 2);
}

#[test]
fn corrupted_trailer_signature_is_protocol_error() {
    let mut archive = build_archive(&[("a.txt", b"hello"), ("b.txt", b"world")]);
    let sig_pos = archive.len() - 22;
    archive[sig_pos] = 0x99;
    let mut z = UnZip::new(archive);
    assert_eq!(z.file(String::from("a.txt")), Err(ZipError::Protocol));
}

#[test]
fn round_trip_large_payload() {
    let mut data = Vec::new();
    for i in 0..40_000u32 {
        data.push((i % 251) as u8);
        data.push((i % 7) as u8);
    }
    let archive = build_archive(&[("big.bin", &data)]);
    let mut z = UnZip::new(archive);
    let out = z.file(String::from("big.bin")).unwrap();
    assert_eq!(out, data);
}

#[test]
fn truncated_archive_is_io_error() {
    let archive = vec![1u8, 2, 3];
    let mut z = UnZip::new(archive);
    assert_eq!(z.file(String::from("a.txt")), Err(ZipError::Io));
}

#[test]
fn garbage_at_directory_offset_is_protocol_error() {
    let mut archive = build_archive(&[("a.txt", b"hello")]);
    let n = archive.len();
    let cd_off =
        u32::from_le_bytes([archive[n - 6], archive[n - 5], archive[n - 4], archive[n - 3]])
            as usize;
    archive[cd_off] = 0x00;
    let mut z = UnZip::new(archive);
    assert_eq!(z.file(String::from("a.txt")), Err(ZipError::Protocol));
}

#[test]
fn directory_name_mismatching_local_name_is_error() {
    let mut v = Vec::new();
    let comp = deflate_bytes(b"hello");
    push_local_header(&mut v, "x.txt", comp.len() as u32, 5);
    v.extend_from_slice(&comp);
    let cd_off = v.len() as u32;
    push_central_header(&mut v, "a.txt", comp.len() as u32, 5, 0);
    let cd_size = v.len() as u32 - cd_off;
    push_eocd(&mut v, 1, cd_size, cd_off);
    let mut z = UnZip::new(v);
    assert_eq!(z.file(String::from("a.txt")), Err(ZipError::NameMismatch));
}

#[test]
fn zip64_archive_extracts_through_sixty_four_bit_records() {
    let archive = build_zip64_archive(&[("a.txt", b"hello"), ("b.txt", b"world")]);
    let mut z = UnZip::new(archive);
    let out = z.file(String::from("b.txt")).unwrap();
    assert_eq!(out, b"world");
}

#[test]
fn zip64_effective_count_comes_from_sixty_four_bit_record() {
    let archive = build_zip64_archive(&[("a.txt", b"hello"), ("b.txt", b"world")]);
    let mut z = UnZip::new(archive);
    assert_eq!(z.file(String::from("c.txt")), Err(ZipError::NotFound));
    assert_eq!(z.entries_scanned, 2);
}

#[test]
fn central_header_zip64_overrides_apply_in_order() {
    let mut v = Vec::new();
    p16(&mut v, 45);
    p16(&mut v, 45);
    p16(&mut v, 0);
    p16(&mut v, 8);
    p16(&mut v, 0);
    p16(&mut v, 0);
    p32(&mut v, 0);
    p32(&mut v, 0xFFFFFFFF);
    p32(&mut v, 0xFFFFFFFF);
    p16(&mut v, 1);
    p16(&mut v, 32);
    p16(&mut v, 0);
    p16(&mut v, 0xFFFF);
    p16(&mut v, 0);
    p32(&mut v, 0);
    p32(&mut v, 0xFFFFFFFF);
    v.extend_from_slice(b"q");
    p16(&mut v, 1);
    p16(&mut v, 28);
    p64(&mut v, 111);
    p64(&mut v, 222);
    p64(&mut v, 333);
    p32(&mut v, 444);
    let mut r = ByteReader::new(v);
    let h = CentralDirectoryHeader::from_reader(&mut r).unwrap();
    assert_eq!(h.uncompressed_size, 111);
    assert_eq!(h.compressed_size, 222);
    assert_eq!(h.local_header_offset, 333);
    assert_eq!(h.disk_number_start, 444);
    assert_eq!(h.file_name, "q");
}

#[test]
fn central_header_override_skips_values_without_placeholder() {
    let mut v = Vec::new();
    p16(&mut v, 45);
    p16(&mut v, 45);
    p16(&mut v, 0);
    p16(&mut v, 8);
    p16(&mut v, 0);
    p16(&mut v, 0);
    p32(&mut v, 0);
    p32(&mut v, 77);
    p32(&mut v, 0xFFFFFFFF);
    p16(&mut v, 1);
    p16(&mut v, 12);
    p16(&mut v, 0);
    p16(&mut v, 5);
    p16(&mut v, 0);
    p32(&mut v, 0);
    p32(&mut v, 88);
    v.extend_from_slice(b"q");
    p16(&mut v, 1);
    p16(&mut v, 8);
    p64(&mut v, 999);
    let mut r = ByteReader::new(v);
    let h = CentralDirectoryHeader::from_reader(&mut r).unwrap();
    assert_eq!(h.uncompressed_size, 999);
    assert_eq!(h.compressed_size, 77);
    assert_eq!(h.local_header_offset, 88);
    assert_eq!(h.disk_number_start, 5);
}

#[test]
fn local_header_zip64_overrides_sizes() {
    let mut v = Vec::new();
    p16(&mut v, 45);
    p16(&mut v, 0);
    p16(&mut v, 8);
    p16(&mut v, 0);
    p16(&mut v, 0);
    p32(&mut v, 0);
    p32(&mut v, 0xFFFFFFFF);
    p32(&mut v, 0xFFFFFFFF);
    p16(&mut v, 1);
    p16(&mut v, 20);
    v.extend_from_slice(b"n");
    p16(&mut v, 1);
    p16(&mut v, 16);
    p64(&mut v, 1234);
    p64(&mut v, 5678);
    let mut r = ByteReader::new(v);
    let h = LocalFileHeader::from_reader(&mut r).unwrap();
    assert_eq!(h.uncompressed_size, 1234);
    assert_eq!(h.compressed_size, 5678);
    assert_eq!(h.file_name, "n");
}

#[test]
fn extra_field_budget_underflow_is_decode_error() {
    let mut v = Vec::new();
    p16(&mut v, 20);
    p16(&mut v, 0);
    p16(&mut v, 8);
    p16(&mut v, 0);
    p16(&mut v, 0);
    p32(&mut v, 0);
    p32(&mut v, 3);
    p32(&mut v, 5);
    p16(&mut v, 1);
    p16(&mut v, 2);
    v.extend_from_slice(b"n");
    p16(&mut v, 9);
    p16(&mut v, 0);
    let mut r = ByteReader::new(v);
    assert_eq!(
        LocalFileHeader::from_reader(&mut r).map(|h| h.file_name),
        Err(ZipError::Decode)
    );
}

#[test]
fn invalid_name_bytes_are_replaced_not_rejected() {
    let mut v = Vec::new();
    p16(&mut v, 20);
    p16(&mut v, 0);
    p16(&mut v, 8);
    p16(&mut v, 0);
    p16(&mut v, 0);
    p32(&mut v, 0);
    p32(&mut v, 3);
    p32(&mut v, 5);
    p16(&mut v, 2);
    p16(&mut v, 0);
    v.push(0xFF);
    v.push(b'a');
    let mut r = ByteReader::new(v);
    let h = LocalFileHeader::from_reader(&mut r).unwrap();
    assert_eq!(h.file_name, "\u{FFFD}a");
}

#[test]
fn search_positions_on_fixed_trailer() {
    let archive = build_archive(&[("a.txt", b"hello")]);
    let n = archive.len();
    let mut r = ByteReader::new(archive);
    EndOfCentralDirectoryRecord::search(&mut r).unwrap();
    assert_eq!(r.pos, n - 22);
}

#[test]
fn search_fails_on_short_input() {
    let mut r = ByteReader::new(vec![0u8; 10]);
    assert_eq!(EndOfCentralDirectoryRecord::search(&mut r), Err(ZipError::Io));
}

#[test]
fn trailer_decode_and_placeholder_test() {
    let mut v = vec![0u8; 4];
    p16(&mut v, 0);
    p16(&mut v, 0);
    p16(&mut v, 2);
    p16(&mut v, 2);
    p32(&mut v, 90);
    p32(&mut v, 1000);
    p16(&mut v, 0);
    let mut r = ByteReader::new(v);
    r.seek_to(4).unwrap();
    let e = EndOfCentralDirectoryRecord::from_reader(&mut r).unwrap();
    assert_eq!(e.total_number_of_entries_in_the_central_directory, 2);
    assert_eq!(e.size_of_the_central_directory, 90);
    assert_eq!(
        e.offset_of_start_of_central_directory_with_respect_to_the_starting_disk_number,
        1000
    );
    assert_eq!(e.offset_in_file, 0);
    assert!(!e.is_zip64());
}

#[test]
fn trailer_with_placeholder_count_signals_zip64() {
    let mut v = vec![0u8; 4];
    p16(&mut v, 0);
    p16(&mut v, 0);
    p16(&mut v, 0xFFFF);
    p16(&mut v, 0xFFFF);
    p32(&mut v, 90);
    p32(&mut v, 1000);
    p16(&mut v, 0);
    let mut r = ByteReader::new(v);
    r.seek_to(4).unwrap();
    let e = EndOfCentralDirectoryRecord::from_reader(&mut r).unwrap();
    assert!(e.is_zip64());
}

#[test]
fn load_compressed_reads_exact_span() {
    let archive = build_archive(&[("a.txt", b"hello")]);
    let mut r = ByteReader::new(archive);
    r.seek_to(4).unwrap();
    let h = LocalFileHeader::from_reader(&mut r).unwrap();
    let comp = h.load_compressed(&mut r).unwrap();
    assert_eq!(comp.len() as u64, h.compressed_size);
    assert_eq!(comp, deflate_bytes(b"hello"));
}

#[test]
fn decompress_to_inflates_payload() {
    let archive = build_archive(&[("a.txt", b"hello")]);
    let mut r = ByteReader::new(archive);
    r.seek_to(4).unwrap();
    let h = LocalFileHeader::from_reader(&mut r).unwrap();
    let out = h.decompress_to(&mut r).unwrap();
    assert_eq!(out, b"hello");
}

#[test]
fn extra_field_header_reads_pair() {
    let mut v = Vec::new();
    p16(&mut v, 1);
    p16(&mut v, 28);
    let mut r = ByteReader::new(v);
    let h = unzip::Header::from_reader(&mut r).unwrap();
    assert_eq!(h.id, 1);
    assert_eq!(h.size, 28);
}

#[test]
fn skip_compressed_advances_past_payload() {
    let archive = build_archive(&[("a.txt", b"hello"), ("b.txt", b"world")]);
    let mut r = ByteReader::new(archive);
    r.seek_to(4).unwrap();
    let h = LocalFileHeader::from_reader(&mut r).unwrap();
    let before = r.pos as u64;
    h.skip_compressed(&mut r).unwrap();
    assert_eq!(r.pos as u64, before + h.compressed_size);
}

#[test]
fn read_signature_reads_little_endian() {
    let v = vec![0x50u8, 0x4b, 0x03, 0x04];
    let mut r = ByteReader::new(v);
    assert_eq!(unzip::read_signature(&mut r), Ok(0x04034b50));
}
