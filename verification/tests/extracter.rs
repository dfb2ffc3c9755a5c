use binstalk::extracter::create_tar_decoder;
use binstalk::extracter::TarBasedFmt;
use std::io::Read;
use std::io::Write;

const FORMATS: [TarBasedFmt; 5] = [
    TarBasedFmt::Tar,
    TarBasedFmt::Tbz2,
    TarBasedFmt::Tgz,
    TarBasedFmt::Txz,
    TarBasedFmt::Tzstd,
];

fn files() -> Vec<(String, Vec<u8>)> {
    let mut big = Vec::new();
    for i in 0..100_000u32 {
        big.push((i % 251) as u8);
    }
    vec![
        ("bin/tool".to_string(), b"#!/bin/sh\necho tool\n".to_vec()),
        ("README.md".to_string(), b"# tool\n".to_vec()),
        ("share/empty".to_string(), Vec::new()),
        ("share/data/deep/blob.bin".to_string(), big),
    ]
}

fn tar_of(files: &[(String, Vec<u8>)]) -> Vec<u8> {
    let mut builder = tar::Builder::new(Vec::new());
    for (path, data) in files {
        let mut header = tar::Header::new_gnu();
        header.set_size(data.len() as u64);
        header.set_mode(0o644);
        header.set_cksum();
        builder.append_data(&mut header, path, &data[..]).expect("append");
    }
    builder.into_inner().expect("finish")
}

fn wrap(tar: &[u8], fmt: TarBasedFmt) -> Vec<u8> {
    match fmt {
        TarBasedFmt::Tar => tar.to_vec(),
        TarBasedFmt::Tbz2 => {
            let mut encoder = bzip2::write::BzEncoder::new(Vec::new(), bzip2::Compression::default());
            encoder.write_all(tar).expect("write");
            encoder.finish().expect("finish")
        }
        TarBasedFmt::Tgz => {
            let mut encoder = flate2::write::GzEncoder::new(Vec::new(), flate2::Compression::default());
            encoder.write_all(tar).expect("write");
            encoder.finish().expect("finish")
        }
        TarBasedFmt::Txz => {
            let mut encoder = xz2::write::XzEncoder::new(Vec::new(), 6);
            encoder.write_all(tar).expect("write");
            encoder.finish().expect("finish")
        }
        TarBasedFmt::Tzstd => zstd::stream::encode_all(tar, 0).expect("encode"),
    }
}

fn entries_of(tar: Vec<u8>) -> Vec<(String, Vec<u8>)> {
    let mut archive = tar::Archive::new(std::io::Cursor::new(tar));
    let mut found = Vec::new();
    for entry in archive.entries().expect("entries") {
        let mut entry = entry.expect("entry");
        let path = entry.path().expect("path").to_string_lossy().into_owned();
        let mut data = Vec::new();
        entry.read_to_end(&mut data).expect("read");
        found.push((path, data));
    }
    found
}

fn round_trip(fmt: TarBasedFmt) {
    let files = files();
    let tar = tar_of(&files);
    let wrapped = wrap(&tar, fmt);
    let decoded = create_tar_decoder(wrapped, fmt).expect("decode");
    assert_eq!(decoded, tar);
    assert_eq!(entries_of(decoded), files);
}

#[test]
fn tar_round_trip() {
    round_trip(TarBasedFmt::Tar);
}

#[test]
fn tbz2_round_trip() {
    round_trip(TarBasedFmt::Tbz2);
}

#[test]
fn tgz_round_trip() {
    round_trip(TarBasedFmt::Tgz);
}

#[test]
fn txz_round_trip() {
    round_trip(TarBasedFmt::Txz);
}

#[test]
fn tzstd_round_trip() {
    round_trip(TarBasedFmt::Tzstd);
}

#[test]
fn compressed_formats_change_the_bytes() {
    let tar = tar_of(&files());
    for fmt in [TarBasedFmt::Tbz2, TarBasedFmt::Tgz, TarBasedFmt::Txz, TarBasedFmt::Tzstd] {
        let wrapped = wrap(&tar, fmt);
        assert_ne!(wrapped, tar);
        assert_eq!(create_tar_decoder(wrapped, fmt).expect("decode"), tar);
    }
}

#[test]
fn bare_tar_passes_through_unchanged() {
    assert_eq!(create_tar_decoder(Vec::new(), TarBasedFmt::Tar).expect("bare"), Vec::<u8>::new());
    let noise = b"this is no tar archive at all".to_vec();
    assert_eq!(create_tar_decoder(noise.clone(), TarBasedFmt::Tar).expect("bare"), noise);
    let gz = wrap(&tar_of(&files()), TarBasedFmt::Tgz);
    assert_eq!(create_tar_decoder(gz.clone(), TarBasedFmt::Tar).expect("bare"), gz);
}

#[test]
fn only_the_decoder_of_the_tag_is_tried() {
    let tar = tar_of(&files());
    for made in [TarBasedFmt::Tbz2, TarBasedFmt::Tgz, TarBasedFmt::Txz, TarBasedFmt::Tzstd] {
        let wrapped = wrap(&tar, made);
        for read in [TarBasedFmt::Tbz2, TarBasedFmt::Tgz, TarBasedFmt::Txz, TarBasedFmt::Tzstd] {
            let result = create_tar_decoder(wrapped.clone(), read);
            if made == read {
                assert_eq!(result.expect("decode"), tar);
            } else {
                assert!(result.is_err(), "{:?} read as {:?}", made, read);
            }
        }
    }
}

#[test]
fn corrupt_stream_is_an_error() {
    let noise = b"this is no compressed stream at all, whatever the tag says".to_vec();
    for fmt in [TarBasedFmt::Tbz2, TarBasedFmt::Tgz, TarBasedFmt::Txz, TarBasedFmt::Tzstd] {
        assert!(create_tar_decoder(noise.clone(), fmt).is_err(), "{:?}", fmt);
    }
}

#[test]
fn truncated_stream_is_an_error() {
    let tar = tar_of(&files());
    for fmt in [TarBasedFmt::Tbz2, TarBasedFmt::Tgz, TarBasedFmt::Txz, TarBasedFmt::Tzstd] {
        let mut wrapped = wrap(&tar, fmt);
        wrapped.truncate(wrapped.len() / 2);
        assert!(create_tar_decoder(wrapped, fmt).is_err(), "{:?}", fmt);
    }
}

#[test]
fn empty_archive_round_trips() {
    let tar = tar_of(&[]);
    for fmt in FORMATS {
        let decoded = create_tar_decoder(wrap(&tar, fmt), fmt).expect("decode");
        assert_eq!(decoded, tar);
        assert!(entries_of(decoded).is_empty());
    }
}

#[test]
fn decoding_is_repeatable() {
    let tar = tar_of(&files());
    for fmt in FORMATS {
        let wrapped = wrap(&tar, fmt);
        let first = create_tar_decoder(wrapped.clone(), fmt).expect("decode");
        let second = create_tar_decoder(wrapped, fmt).expect("decode");
        assert_eq!(first, second);
    }
}
