//! The archive content listers: one adapter per container kind, each
//! producing the container's entries in its native enumeration order.
//!
//! Listing an in-memory container is a function of its bytes (and, for
//! encrypted entries, of the supplied password), so each adapter's outcome is
//! named by an uninterpreted spec function. The per-entry password discipline
//! of the zip-like adapter is written here as verified code over two narrow
//! trusted calls.

use vstd::prelude::*;
use vstd::string::StringExecFns;

use crate::codec::io_condition_of;
use crate::error::{Error, ErrorV, FinalError};

verus! {

/// The kind of one listed entry.
#[derive(Clone, Copy, Debug, PartialEq, Eq, Structural)]
pub enum EntryKind {
    File,
    Directory,
    Symlink,
}

/// Spec-level image of a [`FileInArchive`].
pub struct FileV {
    pub path: Seq<char>,
    pub size: u64,
    pub kind: EntryKind,
    pub modified: Option<u64>,
    pub mode: Option<u32>,
}

/// One listed entry: its path within the archive, its size in bytes, its
/// kind, and optionally a modification timestamp and permission bits.
/// Produced read-only by listing, never mutated after creation.
#[derive(Debug)]
pub struct FileInArchive {
    pub path: String,
    pub size: u64,
    pub kind: EntryKind,
    pub modified: Option<u64>,
    pub mode: Option<u32>,
}

impl View for FileInArchive {
    type V = FileV;

    open spec fn view(&self) -> FileV {
        FileV {
            path: self.path@,
            size: self.size,
            kind: self.kind,
            modified: self.modified,
            mode: self.mode,
        }
    }
}

impl Clone for FileInArchive {
    fn clone(&self) -> (r: Self)
        ensures
            r@ == self@,
    {
        FileInArchive {
            path: self.path.clone(),
            size: self.size,
            kind: self.kind,
            modified: self.modified,
            mode: self.mode,
        }
    }
}

/// The views of a list of entries.
pub open spec fn views_of_files(s: Seq<FileInArchive>) -> Seq<FileV> {
    s.map_values(|f: FileInArchive| f@)
}

/// Spec-level image of a [`Listing`].
pub struct ListingV {
    pub entries: Seq<FileV>,
    pub failure: Option<ErrorV>,
}

/// What one listing operation yielded: the entries enumerated before any
/// failure, in the container's native order, and the failure that ended the
/// enumeration, if one did. Entries already yielded before a mid-stream
/// failure remain valid.
#[derive(Debug)]
pub struct Listing {
    pub entries: Vec<FileInArchive>,
    pub failure: Option<Error>,
}

impl View for Listing {
    type V = ListingV;

    open spec fn view(&self) -> ListingV {
        ListingV {
            entries: views_of_files(self.entries@),
            failure: match self.failure {
                Option::Some(e) => Some(e@),
                Option::None => None,
            },
        }
    }
}

/// The password argument, as spec-level bytes.
pub open spec fn spec_password(p: Option<&Vec<u8>>) -> Option<Seq<u8>> {
    match p {
        Option::Some(v) => Some(v@),
        Option::None => None,
    }
}

/// The entry kind, from the two flags every container reader exposes.
pub open spec fn spec_kind_of(is_dir: bool, is_symlink: bool) -> EntryKind {
    if is_dir {
        EntryKind::Directory
    } else if is_symlink {
        EntryKind::Symlink
    } else {
        EntryKind::File
    }
}

/// Classify one entry from its directory and symlink flags.
pub fn kind_of(is_dir: bool, is_symlink: bool) -> (k: EntryKind)
    ensures
        k == spec_kind_of(is_dir, is_symlink),
{
    if is_dir {
        EntryKind::Directory
    } else if is_symlink {
        EntryKind::Symlink
    } else {
        EntryKind::File
    }
}

/// What the tar-like container reader enumerates from a given byte source:
/// a function of the bytes alone.
pub uninterp spec fn tar_listing_of(s: Seq<u8>) -> ListingV;

#[verifier::external_type_specification]
#[verifier::external_body]
pub struct ExHeader(tar::Header);

/// Relies on tar::Header: one entry's record, from its type flag, mtime and
/// mode, together with the path and size already read off the entry.
#[verifier::external_body]
fn tar_header_file(path: String, size: u64, h: &tar::Header) -> FileInArchive {
    FileInArchive {
        path, size,
        kind: kind_of(h.entry_type().is_dir(), h.entry_type().is_symlink()),
        modified: h.mtime().ok(), mode: h.mode().ok(),
    }
}

/// Relies on tar::Archive::entries: the iterator yields the archive's entries
/// in file order, each with its header's path, size, type, mtime and mode;
/// malformed bytes surface as an I/O error that ends the enumeration.
#[verifier::external_body]
pub(crate) fn tar_list(bytes: &Vec<u8>) -> (r: Listing)
    ensures
        r@ == tar_listing_of(bytes@),
{
    let mut ar = tar::Archive::new(bytes.as_slice());
    let entries = match ar.entries() {
        Ok(es) => es, Err(e) => return Listing { entries: Vec::new(), failure: Some(error_from_io(e)) } };
    let mut v: Vec<FileInArchive> = Vec::new();
    for ent in entries {
        match ent.and_then(|f| Ok(tar_header_file(f.path()?.to_string_lossy().into_owned(), f.size(), f.header()))) {
            Ok(fi) => v.push(fi),
            Err(e) => return Listing { entries: v, failure: Some(error_from_io(e)) },
        }
    }
    Listing { entries: v, failure: None }
}

/// Relies on std::io::Error: refines it into the taxonomy through the
/// verified refinement, using the error's kind and rendered message.
#[verifier::external_body]
fn error_from_io(e: std::io::Error) -> (r: Error)
    ensures
        crate::error::spec_is_io_family(r@),
{
    let message = e.to_string();
    Error::from_io_parts(io_condition_of(&e), message)
}

#[verifier::external_type_specification]
#[verifier::external_body]
pub struct ExZipError(zip::result::ZipError);

/// The error reported when the zip-like reader cannot find a file it was
/// asked for.
pub fn zip_file_not_found_error() -> (r: Error)
    ensures
        r@ matches ErrorV::Custom { .. },
{
    Error::Custom {
        reason: FinalError::with_title(String::from_str("Unexpected error in zip archive"))
            .detail(String::from_str("File not found")),
    }
}

/// Relies on zip::result::ZipError: converts each of its variants into
/// exactly one taxonomy variant, mirroring their documented meanings.
#[verifier::external_body]
fn error_from_zip(e: zip::result::ZipError) -> (r: Error) {
    match e {
        zip::result::ZipError::Io(io_err) => error_from_io(io_err),
        zip::result::ZipError::InvalidArchive(msg) => Error::InvalidZipArchive { reason: msg.to_string() },
        zip::result::ZipError::FileNotFound => zip_file_not_found_error(),
        zip::result::ZipError::UnsupportedArchive(msg) => Error::UnsupportedZipArchive { reason: msg.to_string() },
        zip::result::ZipError::InvalidPassword => Error::InvalidPassword { reason: "provided password is incorrect".to_string() },
        zip::result::ZipError::CompressionMethodNotSupported(m) => Error::UnsupportedZipArchive { reason: m.to_string() },
        _ => Error::InvalidZipArchive { reason: "unknown zip error".to_string() },
    }
}

/// Spec-level image of a [`ZipEntryMeta`].
pub struct ZipMetaV {
    pub file: FileV,
    pub encrypted: bool,
}

/// The central-directory metadata of one zip-like entry: the listed record,
/// plus whether the entry's payload is encrypted. Metadata is readable
/// without any password.
#[derive(Debug)]
pub struct ZipEntryMeta {
    pub file: FileInArchive,
    pub encrypted: bool,
}

impl View for ZipEntryMeta {
    type V = ZipMetaV;

    open spec fn view(&self) -> ZipMetaV {
        ZipMetaV { file: self.file@, encrypted: self.encrypted }
    }
}

/// The views of a list of zip entry records.
pub open spec fn views_of_metas(s: Seq<ZipEntryMeta>) -> Seq<ZipMetaV> {
    s.map_values(|m: ZipEntryMeta| m@)
}

/// What the zip-like container's central directory holds for a given byte
/// source: a function of the bytes alone.
pub uninterp spec fn zip_meta_of(s: Seq<u8>) -> Result<Seq<ZipMetaV>, ErrorV>;

/// Relies on zip::ZipArchive::new and zip::ZipArchive::by_index_raw: the
/// central directory is parsed without decrypting or decompressing anything,
/// and yields each entry's name, size, kind, mode and encryption flag in
/// index order.
#[verifier::external_body]
fn zip_entries_meta(bytes: &Vec<u8>) -> (r: Result<Vec<ZipEntryMeta>, Error>)
    ensures
        r matches Ok(v) ==> zip_meta_of(bytes@) matches Ok(mv) && views_of_metas(v@) == mv,
        r matches Err(e) ==> zip_meta_of(bytes@) matches Err(ev) && e@ == ev,
        r is Ok <==> zip_meta_of(bytes@) is Ok,
{
    let mut ar = match zip::ZipArchive::new(std::io::Cursor::new(bytes.as_slice())) {
        Ok(a) => a, Err(e) => return Err(error_from_zip(e)) };
    let mut v: Vec<ZipEntryMeta> = Vec::new();
    for i in 0..ar.len() {
        match ar.by_index_raw(i) {
            Ok(f) => v.push(ZipEntryMeta {
                file: FileInArchive { path: f.name().to_string(), size: f.size(),
                    kind: kind_of(f.is_dir(), f.is_symlink()),
                    modified: None, mode: f.unix_mode() },
                encrypted: f.encrypted() }),
            Err(e) => return Err(error_from_zip(e)),
        }
    }
    Ok(v)
}

/// Whether the supplied password decrypts the entry at one index of the
/// zip-like container: a function of bytes, index and password alone.
pub uninterp spec fn zip_decrypt_check_of(s: Seq<u8>, index: int, password: Seq<u8>) -> Result<
    (),
    ErrorV,
>;

/// Relies on zip::ZipArchive::by_index_decrypt: opening an encrypted entry
/// with a password validates the password against the entry's check bytes and
/// reports an invalid password as its own error condition; no payload is
/// listed from the opened entry.
#[verifier::external_body]
fn zip_decrypt_check(bytes: &Vec<u8>, index: usize, password: &Vec<u8>) -> (r: Result<(), Error>)
    ensures
        r is Ok <==> zip_decrypt_check_of(bytes@, index as int, password@) is Ok,
        r matches Err(e) ==> zip_decrypt_check_of(bytes@, index as int, password@) matches Err(ev)
            && e@ == ev,
{
    let mut ar = match zip::ZipArchive::new(std::io::Cursor::new(bytes.as_slice())) {
        Ok(a) => a, Err(e) => return Err(error_from_zip(e)) };
    let checked = match ar.by_index_decrypt(index, password.as_slice()) {
        Ok(_) => Ok(()),
        Err(e) => Err(error_from_zip(e)),
    };
    checked
}

/// The error reported for the entry at `k` when its password check failed: an
/// invalid password is re-reported naming the entry's path; anything else is
/// passed through unchanged.
pub open spec fn spec_zip_entry_failure(m: ZipMetaV, e: ErrorV) -> ErrorV {
    if e matches ErrorV::InvalidPassword { .. } {
        ErrorV::InvalidPassword { reason: m.file.path }
    } else {
        e
    }
}

/// The zip-like listing from entry `k` onward. An entry whose payload is
/// encrypted is listed from its metadata alone when no password was supplied;
/// when one was, it is validated against the entry, and a demonstrably wrong
/// password ends the listing with `InvalidPassword` naming that entry.
pub open spec fn spec_zip_listing_from(
    s: Seq<u8>,
    pw: Option<Seq<u8>>,
    metas: Seq<ZipMetaV>,
    k: int,
) -> ListingV
    decreases metas.len() - k,
{
    if k < 0 || k >= metas.len() {
        ListingV { entries: Seq::empty(), failure: None }
    } else {
        let m = metas[k];
        if m.encrypted && pw is Some {
            match zip_decrypt_check_of(s, k, pw.unwrap()) {
                Result::Ok(_) => {
                    let rest = spec_zip_listing_from(s, pw, metas, k + 1);
                    ListingV { entries: seq![m.file] + rest.entries, failure: rest.failure }
                },
                Result::Err(e) => ListingV {
                    entries: Seq::empty(),
                    failure: Some(spec_zip_entry_failure(m, e)),
                },
            }
        } else {
            let rest = spec_zip_listing_from(s, pw, metas, k + 1);
            ListingV { entries: seq![m.file] + rest.entries, failure: rest.failure }
        }
    }
}

/// The whole zip-like listing: the central directory's records in index
/// order, under the per-entry password discipline.
pub open spec fn spec_zip_listing(s: Seq<u8>, pw: Option<Seq<u8>>) -> ListingV {
    match zip_meta_of(s) {
        Result::Ok(metas) => spec_zip_listing_from(s, pw, metas, 0),
        Result::Err(e) => ListingV { entries: Seq::empty(), failure: Some(e) },
    }
}

/// List a zip-like container from its bytes, attempting the password — if one
/// was supplied — on each encrypted entry, and never decrypting payload
/// bytes.
pub fn zip_list(bytes: &Vec<u8>, password: Option<&Vec<u8>>) -> (r: Listing)
    ensures
        r@ == spec_zip_listing(bytes@, spec_password(password)),
{
    let ghost pw = spec_password(password);
    let metas = match zip_entries_meta(bytes) {
        Ok(m) => m,
        Err(e) => {
            let out = Listing { entries: Vec::new(), failure: Some(e) };
            proof {
                assert(out@.entries =~= Seq::<FileV>::empty());
            }
            return out;
        },
    };
    let ghost mv = views_of_metas(metas@);
    let mut entries: Vec<FileInArchive> = Vec::new();
    let mut k: usize = 0;
    while k < metas.len()
        invariant
            k <= metas.len(),
            mv == views_of_metas(metas@),
            pw == spec_password(password),
            zip_meta_of(bytes@) == Result::<Seq<ZipMetaV>, ErrorV>::Ok(mv),
            spec_zip_listing(bytes@, pw) == (ListingV {
                entries: views_of_files(entries@) + spec_zip_listing_from(bytes@, pw, mv, k as int).entries,
                failure: spec_zip_listing_from(bytes@, pw, mv, k as int).failure,
            }),
        decreases metas.len() - k,
    {
        let ghost rest = spec_zip_listing_from(bytes@, pw, mv, k as int);
        let ghost rest1 = spec_zip_listing_from(bytes@, pw, mv, k + 1);
        let ghost pre = entries@;
        let m = &metas[k];
        proof {
            assert(mv[k as int] == m@);
        }
        if m.encrypted && password.is_some() {
            match zip_decrypt_check(bytes, k, password.unwrap()) {
                Ok(_) => {
                    entries.push(m.file.clone());
                    proof {
                        assert(zip_decrypt_check_of(bytes@, k as int, pw.unwrap()) is Ok);
                        assert(rest == (ListingV {
                            entries: seq![m@.file] + rest1.entries,
                            failure: rest1.failure,
                        }));
                        assert(views_of_files(entries@) =~= views_of_files(pre).push(m@.file));
                        assert(views_of_files(pre) + rest.entries =~= views_of_files(entries@)
                            + rest1.entries);
                    }
                },
                Err(e) => {
                    proof {
                        assert(zip_decrypt_check_of(bytes@, k as int, pw.unwrap()) matches Err(ev)
                            && ev == e@);
                        assert(rest == (ListingV {
                            entries: Seq::<FileV>::empty(),
                            failure: Some(spec_zip_entry_failure(m@, e@)),
                        }));
                    }
                    let failure = match e {
                        Error::InvalidPassword { reason: _ } => Error::InvalidPassword {
                            reason: m.file.path.clone(),
                        },
                        other => other,
                    };
                    proof {
                        assert(failure@ == spec_zip_entry_failure(m@, e@));
                        assert(views_of_files(pre) + rest.entries =~= views_of_files(pre));
                    }
                    return Listing { entries, failure: Some(failure) };
                },
            }
        } else {
            entries.push(m.file.clone());
            proof {
                assert(!(m@.encrypted && pw is Some));
                assert(rest == (ListingV {
                    entries: seq![m@.file] + rest1.entries,
                    failure: rest1.failure,
                }));
                assert(views_of_files(entries@) =~= views_of_files(pre).push(m@.file));
                assert(views_of_files(pre) + rest.entries =~= views_of_files(entries@)
                    + rest1.entries);
            }
        }
        k = k + 1;
    }
    proof {
        assert(views_of_files(entries@) + spec_zip_listing_from(bytes@, pw, mv, k as int).entries
            =~= views_of_files(entries@));
    }
    Listing { entries, failure: None }
}

/// What the 7z-like container's archive header lists for a given byte source
/// and password: a function of the two alone.
pub uninterp spec fn sevenz_listing_of(s: Seq<u8>, pw: Option<Seq<u8>>) -> ListingV;

/// The error reported when a supplied password is not valid text and so
/// cannot be attempted against the 7z-like container.
pub fn sevenz_password_encoding_error() -> (r: Error)
    ensures
        r@ matches ErrorV::InvalidPassword { .. },
{
    Error::InvalidPassword {
        reason: String::from_str("the password is not valid utf-8"),
    }
}

#[verifier::external_type_specification]
#[verifier::external_body]
pub struct ExPassword(sevenz_rust::Password);

/// Relies on sevenz_rust::Password: built from the UTF-8 text of the
/// supplied bytes, or empty when none were supplied; bytes that are not
/// valid text cannot be attempted and are reported as an invalid password.
#[verifier::external_body]
fn sevenz_password(password: Option<&Vec<u8>>) -> Result<sevenz_rust::Password, Error> {
    match password {
        Some(p) => match std::str::from_utf8(p.as_slice()) {
            Ok(s) => Ok(sevenz_rust::Password::from(s)),
            Err(_) => Err(sevenz_password_encoding_error()),
        },
        None => Ok(sevenz_rust::Password::empty()),
    }
}

#[verifier::external_type_specification]
#[verifier::external_body]
pub struct ExSevenZArchiveEntry(sevenz_rust::SevenZArchiveEntry);

/// Relies on sevenz_rust::SevenZArchiveEntry: one entry's record, from its
/// name, size and directory flag.
#[verifier::external_body]
fn sevenz_entry_file(f: &sevenz_rust::SevenZArchiveEntry) -> FileInArchive {
    FileInArchive {
        path: f.name().to_string(), size: f.size(),
        kind: kind_of(f.is_directory(), false), modified: None, mode: None,
    }
}

/// Relies on sevenz_rust::SevenZReader::new and its archive metadata: the
/// archive header enumerates every entry's name, size and kind in file order
/// without reading payloads, decrypting headers with the password when they
/// are encrypted; every reader failure is converted to the taxonomy's 7z
/// variant, carrying the rendered message.
#[verifier::external_body]
pub(crate) fn sevenz_list(bytes: &Vec<u8>, password: Option<&Vec<u8>>) -> (r: Listing)
    ensures
        r@ == sevenz_listing_of(bytes@, spec_password(password)),
{
    let pw = match sevenz_password(password) {
        Ok(p) => p, Err(e) => return Listing { entries: Vec::new(), failure: Some(e) } };
    let rd = match sevenz_rust::SevenZReader::new(std::io::Cursor::new(bytes.as_slice()), bytes.len() as u64, pw) {
        Ok(r) => r,
        Err(e) => return Listing { entries: Vec::new(), failure: Some(Error::SevenzipError { reason: e.to_string() }) },
    };
    let mut v: Vec<FileInArchive> = Vec::new();
    for f in rd.archive().files.iter() {
        v.push(sevenz_entry_file(f));
    }
    Listing { entries: v, failure: None }
}

} // verus!
