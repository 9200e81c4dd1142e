use std::io::Write;

use ouch::archive::EntryKind;
use ouch::format::{CompressionFormat, FormatChain};
use ouch::list::{list_archive_contents, ListOptions, ListOutcome};
use ouch::policy::QuestionPolicy;

fn flat() -> ListOptions {
    ListOptions { tree: false, show_metadata: true }
}

fn chain(formats: Vec<CompressionFormat>) -> FormatChain {
    FormatChain::new(formats).expect("chain should validate")
}

fn gzip(data: &[u8]) -> Vec<u8> {
    let mut enc = flate2::write::GzEncoder::new(Vec::new(), flate2::Compression::default());
    enc.write_all(data).unwrap();
    enc.finish().unwrap()
}

fn one_entry_tar() -> Vec<u8> {
    let mut b = tar::Builder::new(Vec::new());
    let mut header = tar::Header::new_gnu();
    header.set_size(5);
    header.set_mode(0o644);
    header.set_cksum();
    b.append_data(&mut header, "a.txt", &b"hello"[..]).unwrap();
    b.into_inner().unwrap()
}

fn two_entry_zip() -> Vec<u8> {
    let mut w = zip::ZipWriter::new(std::io::Cursor::new(Vec::new()));
    let opts = zip::write::SimpleFileOptions::default();
    w.start_file("b.txt", opts).unwrap();
    w.write_all(b"bbb").unwrap();
    w.start_file("a.txt", opts).unwrap();
    w.write_all(b"aaaaa").unwrap();
    w.finish().unwrap().into_inner()
}

#[test]
fn gzipped_tar_lists_one_entry() {
    let raw = gzip(&one_entry_tar());
    let c = chain(vec![CompressionFormat::Tar, CompressionFormat::Gzip]);
    match list_archive_contents(&raw, &c, flat(), None, QuestionPolicy::AlwaysNo, false) {
        Ok(ListOutcome::Listed(listing)) => {
            assert!(listing.failure.is_none());
            assert_eq!(listing.entries.len(), 1);
            assert_eq!(listing.entries[0].path, "a.txt");
            assert_eq!(listing.entries[0].size, 5);
            assert_eq!(listing.entries[0].kind, EntryKind::File);
        }
        _ => panic!("a gzipped tar must stream and list without any question"),
    }
}

#[test]
fn layered_zip_refused_is_clean_empty_success() {
    // The policy must be consulted before buffering; always-refuse ends
    // the operation cleanly, with no entries, no error, and nothing decoded.
    let raw = vec![0u8; 64];
    let c = chain(vec![CompressionFormat::Zip, CompressionFormat::Gzip]);
    match list_archive_contents(&raw, &c, flat(), None, QuestionPolicy::AlwaysNo, false) {
        Ok(ListOutcome::Declined) => {}
        _ => panic!("refusing the buffering question must end in a clean decline"),
    }
}

#[test]
fn zip_entries_keep_native_order() {
    let raw = two_entry_zip();
    let c = chain(vec![CompressionFormat::Zip]);
    match list_archive_contents(&raw, &c, flat(), None, QuestionPolicy::AlwaysNo, false) {
        Ok(ListOutcome::Listed(listing)) => {
            assert!(listing.failure.is_none());
            let names: Vec<&str> = listing.entries.iter().map(|f| f.path.as_str()).collect();
            assert_eq!(names, vec!["b.txt", "a.txt"]);
        }
        _ => panic!("a plain zip chain must list directly"),
    }
}

#[test]
fn tar_entries_keep_native_order() {
    let mut b = tar::Builder::new(Vec::new());
    for (name, data) in [("z.txt", &b"zz"[..]), ("a.txt", &b"aaa"[..])] {
        let mut header = tar::Header::new_gnu();
        header.set_size(data.len() as u64);
        header.set_mode(0o644);
        header.set_cksum();
        b.append_data(&mut header, name, data).unwrap();
    }
    let raw = b.into_inner().unwrap();
    let c = chain(vec![CompressionFormat::Tar]);
    match list_archive_contents(&raw, &c, flat(), None, QuestionPolicy::AlwaysNo, false) {
        Ok(ListOutcome::Listed(listing)) => {
            assert!(listing.failure.is_none());
            let names: Vec<&str> = listing.entries.iter().map(|f| f.path.as_str()).collect();
            assert_eq!(names, vec!["z.txt", "a.txt"]);
        }
        _ => panic!("a plain tar chain must list directly"),
    }
}

#[test]
fn malformed_zip_reports_invalid_archive() {
    let raw = vec![1u8, 2, 3, 4, 5];
    let c = chain(vec![CompressionFormat::Zip]);
    match list_archive_contents(&raw, &c, flat(), None, QuestionPolicy::AlwaysNo, false) {
        Ok(ListOutcome::Listed(listing)) => {
            assert!(listing.entries.is_empty());
            assert!(matches!(
                listing.failure,
                Some(ouch::error::Error::InvalidZipArchive { .. })
            ));
        }
        _ => panic!("malformed container bytes must surface through the listing"),
    }
}

#[test]
fn listing_twice_is_identical() {
    let raw = gzip(&two_entry_zip());
    let c = chain(vec![CompressionFormat::Zip, CompressionFormat::Gzip]);
    let list_once = || match list_archive_contents(&raw, &c, flat(), None, QuestionPolicy::AlwaysYes, false)
    {
        Ok(ListOutcome::Listed(listing)) => listing,
        _ => panic!("the layered zip must list after the policy proceeds"),
    };
    let a = list_once();
    let b = list_once();
    assert_eq!(a.entries.len(), b.entries.len());
    for (x, y) in a.entries.iter().zip(b.entries.iter()) {
        assert_eq!(x.path, y.path);
        assert_eq!(x.size, y.size);
        assert_eq!(x.kind, y.kind);
    }
}

#[test]
fn wrong_zip_password_surfaces_invalid_password_after_earlier_entries() {
    let mut w = zip::ZipWriter::new(std::io::Cursor::new(Vec::new()));
    let opts = zip::write::SimpleFileOptions::default();
    w.start_file("plain.txt", opts).unwrap();
    w.write_all(b"ok").unwrap();
    w.start_file(
        "secret.txt",
        opts.with_aes_encryption(zip::AesMode::Aes256, "right horse battery"),
    )
    .unwrap();
    w.write_all(b"classified").unwrap();
    let raw = w.finish().unwrap().into_inner();
    let c = chain(vec![CompressionFormat::Zip]);
    let password = b"wrong guess".to_vec();
    match list_archive_contents(&raw, &c, flat(), Some(&password), QuestionPolicy::AlwaysNo, false) {
        Ok(ListOutcome::Listed(listing)) => {
            assert_eq!(listing.entries.len(), 1);
            assert_eq!(listing.entries[0].path, "plain.txt");
            match listing.failure {
                Some(ouch::error::Error::InvalidPassword { reason }) => {
                    assert_eq!(reason, "secret.txt");
                }
                _ => panic!("a demonstrably wrong password must surface InvalidPassword"),
            }
        }
        _ => panic!("the listing itself must still succeed up to the failing entry"),
    }
}

#[test]
fn right_zip_password_lists_everything() {
    let mut w = zip::ZipWriter::new(std::io::Cursor::new(Vec::new()));
    let opts = zip::write::SimpleFileOptions::default();
    w.start_file(
        "secret.txt",
        opts.with_aes_encryption(zip::AesMode::Aes256, "right horse battery"),
    )
    .unwrap();
    w.write_all(b"classified").unwrap();
    let raw = w.finish().unwrap().into_inner();
    let c = chain(vec![CompressionFormat::Zip]);
    let password = b"right horse battery".to_vec();
    match list_archive_contents(&raw, &c, flat(), Some(&password), QuestionPolicy::AlwaysNo, false) {
        Ok(ListOutcome::Listed(listing)) => {
            assert!(listing.failure.is_none());
            assert_eq!(listing.entries.len(), 1);
            assert_eq!(listing.entries[0].path, "secret.txt");
        }
        _ => panic!("the right password must list the encrypted entry"),
    }
}

#[test]
fn encrypted_zip_without_password_lists_metadata() {
    let mut w = zip::ZipWriter::new(std::io::Cursor::new(Vec::new()));
    let opts = zip::write::SimpleFileOptions::default();
    w.start_file(
        "secret.txt",
        opts.with_aes_encryption(zip::AesMode::Aes256, "right horse battery"),
    )
    .unwrap();
    w.write_all(b"classified").unwrap();
    let raw = w.finish().unwrap().into_inner();
    let c = chain(vec![CompressionFormat::Zip]);
    match list_archive_contents(&raw, &c, flat(), None, QuestionPolicy::AlwaysNo, false) {
        Ok(ListOutcome::Listed(listing)) => {
            assert!(listing.failure.is_none());
            assert_eq!(listing.entries.len(), 1);
            assert_eq!(listing.entries[0].path, "secret.txt");
        }
        _ => panic!("an absent password must not be reported as invalid"),
    }
}

fn one_entry_sevenz() -> Vec<u8> {
    let mut w = sevenz_rust::SevenZWriter::new(std::io::Cursor::new(Vec::new())).unwrap();
    let mut e = sevenz_rust::SevenZArchiveEntry::new();
    e.name = "a.txt".to_string();
    e.has_stream = true;
    w.push_archive_entry(e, Some(&b"hello"[..])).unwrap();
    w.finish().unwrap().into_inner()
}

#[test]
fn sevenz_lists_directly() {
    let raw = one_entry_sevenz();
    let c = chain(vec![CompressionFormat::SevenZip]);
    match list_archive_contents(&raw, &c, flat(), None, QuestionPolicy::AlwaysNo, false) {
        Ok(ListOutcome::Listed(listing)) => {
            assert!(listing.failure.is_none());
            assert_eq!(listing.entries.len(), 1);
            assert_eq!(listing.entries[0].path, "a.txt");
            assert_eq!(listing.entries[0].size, 5);
            assert_eq!(listing.entries[0].kind, EntryKind::File);
        }
        _ => panic!("a plain 7z chain must list directly"),
    }
}

#[test]
fn layered_sevenz_buffers_after_consent() {
    let raw = gzip(&one_entry_sevenz());
    let c = chain(vec![CompressionFormat::SevenZip, CompressionFormat::Gzip]);
    match list_archive_contents(&raw, &c, flat(), None, QuestionPolicy::Ask, true) {
        Ok(ListOutcome::Listed(listing)) => {
            assert!(listing.failure.is_none());
            assert_eq!(listing.entries.len(), 1);
            assert_eq!(listing.entries[0].path, "a.txt");
        }
        _ => panic!("a consenting user must get the buffered 7z listing"),
    }
}

#[test]
fn plain_rar_chain_asks_for_the_original_file() {
    let raw = vec![0u8; 8];
    let c = chain(vec![CompressionFormat::Rar]);
    match list_archive_contents(&raw, &c, flat(), None, QuestionPolicy::AlwaysNo, false) {
        Ok(ListOutcome::NeedsFileAccess(None)) => {}
        _ => panic!("a plain rar chain must be opened from the original file"),
    }
}

#[test]
fn layered_rar_chain_spills_decoded_bytes() {
    let inner = b"not really a rar archive".to_vec();
    let raw = gzip(&inner);
    let c = chain(vec![CompressionFormat::Rar, CompressionFormat::Gzip]);
    match list_archive_contents(&raw, &c, flat(), None, QuestionPolicy::AlwaysYes, false) {
        Ok(ListOutcome::NeedsFileAccess(Some(decoded))) => {
            assert_eq!(decoded, inner);
        }
        _ => panic!("a layered rar chain must hand back the decoded bytes to spill"),
    }
}

#[test]
fn corrupt_layer_fails_with_io_family_error() {
    let raw = vec![0x1fu8, 0x8b, 0xff, 0xff, 0x00];
    let c = chain(vec![CompressionFormat::Tar, CompressionFormat::Gzip]);
    match list_archive_contents(&raw, &c, flat(), None, QuestionPolicy::AlwaysNo, false) {
        Err(
            ouch::error::Error::IoError { .. }
            | ouch::error::Error::NotFound { .. }
            | ouch::error::Error::PermissionDenied { .. }
            | ouch::error::Error::AlreadyExists { .. },
        ) => {}
        _ => panic!("a corrupt stream layer must fail with an I/O family error"),
    }
}
