use vstd::prelude::*;

use std::io::Read;

use crate::asset::{is_binary_member, is_binary_name, ArchiveKind};
use crate::text::{base_name, base_name_of};

verus! {

/// What gzip decoding gives for a byte string; `None` where it is no valid
/// gzip stream.
pub uninterp spec fn gunzip_of(data: Seq<u8>) -> Option<Seq<u8>>;

/// The paths of the members of a tar archive, in order; `None` where the
/// archive cannot be read.
pub uninterp spec fn tar_names_of(data: Seq<u8>) -> Option<Seq<Seq<char>>>;

/// The contents of member `i` of a tar archive; `None` where it cannot be read.
pub uninterp spec fn tar_member_of(data: Seq<u8>, i: int) -> Option<Seq<u8>>;

/// The stored names of the members of a zip archive, in order; `None` where
/// the archive cannot be read.
pub uninterp spec fn zip_names_of(data: Seq<u8>) -> Option<Seq<Seq<char>>>;

/// The contents of member `i` of a zip archive, read without a password;
/// `None` where it cannot be read.
pub uninterp spec fn zip_member_of(data: Seq<u8>, i: int) -> Option<Seq<u8>>;

/// Strings as character sequences.
pub open spec fn names_view(v: Seq<String>) -> Seq<Seq<char>> {
    v.map_values(|s: String| s@)
}

/// Relies on `flate2::read::GzDecoder` read to the end: the decoded bytes
/// depend on the input alone.
#[verifier::external_body]
fn gunzip(data: &[u8]) -> (r: Option<Vec<u8>>)
    ensures
        match r {
            Some(v) => gunzip_of(data@) == Some(v@),
            None => gunzip_of(data@) is None,
        },
{
    let mut out = Vec::new();
    flate2::read::GzDecoder::new(data).read_to_end(&mut out).ok().map(|_| out)
}

/// Relies on `tar::Archive::entries` and `tar::Entry::path_bytes`: the paths
/// depend on the bytes alone.
#[verifier::external_body]
fn tar_names(data: &[u8]) -> (r: Option<Vec<String>>)
    ensures
        match r {
            Some(v) => tar_names_of(data@) == Some(names_view(v@)),
            None => tar_names_of(data@) is None,
        },
{
    let mut archive = tar::Archive::new(data);
    let entries = archive.entries().ok()?;
    entries.map(|e| e.ok().map(|e| String::from_utf8_lossy(&e.path_bytes()).into_owned())).collect()
}

/// Relies on `tar::Archive::entries`, reading entry `i` to its end: the
/// contents depend on the bytes alone.
#[verifier::external_body]
fn tar_member(data: &[u8], i: usize) -> (r: Option<Vec<u8>>)
    ensures
        match r {
            Some(v) => tar_member_of(data@, i as int) == Some(v@),
            None => tar_member_of(data@, i as int) is None,
        },
{
    let mut archive = tar::Archive::new(data);
    let mut entry = archive.entries().ok()?.nth(i)?.ok()?;
    let mut out = Vec::new();
    entry.read_to_end(&mut out).ok().map(|_| out)
}

/// Relies on `zip::ZipArchive::new`, `ZipArchive::by_index_raw` and
/// `ZipFile::name`, which read the stored names without decrypting or
/// decompressing anything: the names depend on the bytes alone.
#[verifier::external_body]
fn zip_names(data: &[u8]) -> (r: Option<Vec<String>>)
    ensures
        match r {
            Some(v) => zip_names_of(data@) == Some(names_view(v@)),
            None => zip_names_of(data@) is None,
        },
{
    let mut zip = zip::ZipArchive::new(std::io::Cursor::new(data)).ok()?;
    (0..zip.len()).map(|i| zip.by_index_raw(i).ok().map(|f| f.name().to_string())).collect()
}

/// Relies on `zip::ZipArchive::new` and `ZipArchive::by_index_decrypt` with
/// an empty password, which hands an encrypted member back as an error
/// instead of panicking, reading member `i` to its end: the contents depend
/// on the bytes alone.
#[verifier::external_body]
fn zip_member(data: &[u8], i: usize) -> (r: Option<Vec<u8>>)
    ensures
        match r {
            Some(v) => zip_member_of(data@, i as int) == Some(v@),
            None => zip_member_of(data@, i as int) is None,
        },
{
    let mut zip = zip::ZipArchive::new(std::io::Cursor::new(data)).ok()?;
    let mut file = zip.by_index_decrypt(i, b"").ok()?.ok()?;
    let mut out = Vec::new();
    file.read_to_end(&mut out).ok().map(|_| out)
}

/// Whether a member path names the proxy binary: its last component is
/// `sing-box` or `sing-box.exe`.
pub open spec fn is_binary_path(p: Seq<char>) -> bool {
    is_binary_name(base_name(p))
}

/// `i` is the last member whose path names the proxy binary: the one that
/// stays when every such member is written to the same file in turn.
pub open spec fn is_last_binary(n: Seq<Seq<char>>, i: int) -> bool {
    &&& 0 <= i < n.len()
    &&& is_binary_path(n[i])
    &&& forall|j: int| i < j < n.len() ==> !is_binary_path(#[trigger] n[j])
}

/// No member path names the proxy binary.
pub open spec fn no_binary(n: Seq<Seq<char>>) -> bool {
    forall|j: int| 0 <= j < n.len() ==> !is_binary_path(#[trigger] n[j])
}

/// Whether a member path names the proxy binary.
pub fn is_binary_entry(path: &str) -> (r: bool)
    ensures
        r == is_binary_path(path@),
{
    is_binary_member(base_name_of(path))
}

/// The index of the last member whose path names the proxy binary, if any.
pub fn binary_member(names: &Vec<String>) -> (r: Option<usize>)
    ensures
        match r {
            Some(i) => is_last_binary(names_view(names@), i as int),
            None => no_binary(names_view(names@)),
        },
{
    let ghost n = names_view(names@);
    let mut k: usize = names.len();
    while k > 0
        invariant
            k <= names@.len(),
            n == names_view(names@),
            forall|j: int| k <= j < n.len() ==> !is_binary_path(#[trigger] n[j]),
        decreases k,
    {
        k = k - 1;
        if is_binary_entry(names[k].as_str()) {
            return Some(k);
        }
    }
    None
}

/// Why the binary could not be taken out of a downloaded asset.
#[derive(Debug, Clone, PartialEq, Eq)]
pub enum ExtractError {
    /// The asset is neither a gzip-compressed tarball nor a zip archive.
    UnsupportedArchive,
    /// The archive, or the member holding the binary, could not be decoded.
    Unreadable,
    /// No member of the archive is the proxy binary.
    NoBinary,
}

/// The outcome of reading the chosen member.
pub open spec fn took(body: Option<Seq<u8>>, r: Result<Vec<u8>, ExtractError>) -> bool {
    match body {
        None => r == Err::<Vec<u8>, ExtractError>(ExtractError::Unreadable),
        Some(c) => r is Ok && r->Ok_0@ == c,
    }
}

/// Takes the proxy binary out of a downloaded asset of the given packing:
/// the last member whose last path component is `sing-box` or
/// `sing-box.exe`, for a tarball and for a zip archive alike.
pub fn extract_binary(kind: ArchiveKind, data: &[u8]) -> (r: Result<Vec<u8>, ExtractError>)
    ensures
        match kind {
            ArchiveKind::TarGz => match gunzip_of(data@) {
                None => r == Err::<Vec<u8>, ExtractError>(ExtractError::Unreadable),
                Some(t) => match tar_names_of(t) {
                    None => r == Err::<Vec<u8>, ExtractError>(ExtractError::Unreadable),
                    Some(n) => if no_binary(n) {
                        r == Err::<Vec<u8>, ExtractError>(ExtractError::NoBinary)
                    } else {
                        exists|i: int| #[trigger]
                            is_last_binary(n, i) && took(tar_member_of(t, i), r)
                    },
                },
            },
            ArchiveKind::Zip => match zip_names_of(data@) {
                None => r == Err::<Vec<u8>, ExtractError>(ExtractError::Unreadable),
                Some(n) => if no_binary(n) {
                    r == Err::<Vec<u8>, ExtractError>(ExtractError::NoBinary)
                } else {
                    exists|i: int| #[trigger] is_last_binary(n, i) && took(zip_member_of(data@, i), r)
                },
            },
            ArchiveKind::Other => r == Err::<Vec<u8>, ExtractError>(
                ExtractError::UnsupportedArchive,
            ),
        },
{
    match kind {
        ArchiveKind::TarGz => {
            let t = match gunzip(data) {
                Some(t) => t,
                None => return Err(ExtractError::Unreadable),
            };
            let names = match tar_names(t.as_slice()) {
                Some(n) => n,
                None => return Err(ExtractError::Unreadable),
            };
            match binary_member(&names) {
                Some(i) => {
                    let body = tar_member(t.as_slice(), i);
                    assert(is_last_binary(names_view(names@), i as int));
                    match body {
                        Some(b) => Ok(b),
                        None => Err(ExtractError::Unreadable),
                    }
                },
                None => Err(ExtractError::NoBinary),
            }
        },
        ArchiveKind::Zip => {
            let names = match zip_names(data) {
                Some(n) => n,
                None => return Err(ExtractError::Unreadable),
            };
            match binary_member(&names) {
                Some(i) => {
                    let body = zip_member(data, i);
                    assert(is_last_binary(names_view(names@), i as int));
                    match body {
                        Some(b) => Ok(b),
                        None => Err(ExtractError::Unreadable),
                    }
                },
                None => Err(ExtractError::NoBinary),
            }
        },
        ArchiveKind::Other => Err(ExtractError::UnsupportedArchive),
    }
}

} // verus!
