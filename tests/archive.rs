use std::io::{Cursor, Write};

use tahoe::archive::{binary_member, extract_binary, is_binary_entry, ExtractError};
use tahoe::asset::ArchiveKind;

fn tar_gz(files: &[(&str, &[u8])]) -> Vec<u8> {
    let mut builder = tar::Builder::new(Vec::new());
    for (path, body) in files {
        let mut header = tar::Header::new_gnu();
        header.set_size(body.len() as u64);
        header.set_mode(0o644);
        header.set_cksum();
        builder.append_data(&mut header, path, *body).unwrap();
    }
    let tar = builder.into_inner().unwrap();
    let mut enc = flate2::write::GzEncoder::new(Vec::new(), flate2::Compression::default());
    enc.write_all(&tar).unwrap();
    enc.finish().unwrap()
}

fn zip_of(files: &[(&str, &[u8])]) -> Vec<u8> {
    let mut w = zip::ZipWriter::new(Cursor::new(Vec::new()));
    for (name, body) in files {
        w.start_file(*name, zip::write::FileOptions::default()).unwrap();
        w.write_all(body).unwrap();
    }
    w.finish().unwrap().into_inner()
}

fn names(v: &[&str]) -> Vec<String> {
    v.iter().map(|n| n.to_string()).collect()
}

#[test]
fn last_binary_member_is_chosen() {
    let n = names(&["README", "a/sing-box", "LICENSE", "b/sing-box.exe", "c/"]);
    assert_eq!(binary_member(&n), Some(3));
    assert_eq!(binary_member(&names(&["README", "sing-box/", "sing-box-1"])), None);
}

#[test]
fn entries_match_on_their_last_component() {
    assert!(is_binary_entry("sing-box"));
    assert!(is_binary_entry("sing-box-1.0-linux-amd64/sing-box"));
    assert!(is_binary_entry("a/b/sing-box.exe"));
    assert!(!is_binary_entry("sing-box/LICENSE"));
    assert!(!is_binary_entry("a/sing-box.txt"));
    assert!(!is_binary_entry(""));
}

#[test]
fn later_binary_wins_in_a_tarball() {
    let data = tar_gz(&[("x/sing-box", b"first"), ("y/sing-box", b"second")]);
    assert_eq!(extract_binary(ArchiveKind::TarGz, &data), Ok(b"second".to_vec()));
}

#[test]
fn binary_is_taken_from_a_tarball() {
    let data = tar_gz(&[
        ("sing-box-1.0-linux-amd64/LICENSE", b"license"),
        ("sing-box-1.0-linux-amd64/sing-box", b"\x7fELF binary"),
    ]);
    assert_eq!(extract_binary(ArchiveKind::TarGz, &data), Ok(b"\x7fELF binary".to_vec()));
}

#[test]
fn tarball_without_binary_fails() {
    let data = tar_gz(&[("dir/LICENSE", b"license")]);
    assert_eq!(extract_binary(ArchiveKind::TarGz, &data), Err(ExtractError::NoBinary));
}

#[test]
fn binary_is_taken_from_a_zip() {
    let data = zip_of(&[("LICENSE", b"license"), ("sing-box.exe", b"MZ binary")]);
    assert_eq!(extract_binary(ArchiveKind::Zip, &data), Ok(b"MZ binary".to_vec()));
}

#[test]
fn zip_binary_inside_a_folder_is_found() {
    let data = zip_of(&[("sing-box-1.0-windows-amd64/LICENSE", b"l"), ("sing-box-1.0-windows-amd64/sing-box.exe", b"MZ binary")]);
    assert_eq!(extract_binary(ArchiveKind::Zip, &data), Ok(b"MZ binary".to_vec()));
}

#[test]
fn zip_without_binary_fails() {
    let data = zip_of(&[("dir/README", b"r")]);
    assert_eq!(extract_binary(ArchiveKind::Zip, &data), Err(ExtractError::NoBinary));
}

#[test]
fn broken_or_unknown_archives_fail() {
    assert_eq!(extract_binary(ArchiveKind::TarGz, b"not gzip"), Err(ExtractError::Unreadable));
    assert_eq!(extract_binary(ArchiveKind::Zip, b"not zip"), Err(ExtractError::Unreadable));
    assert_eq!(extract_binary(ArchiveKind::Other, b"whatever"), Err(ExtractError::UnsupportedArchive));
}
