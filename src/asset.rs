use vstd::prelude::*;

use crate::text::{contains_seq, str_contains, str_eq};

verus! {

/// The release-asset name of a CPU architecture, as the proxy's releases
/// spell it; `None` for an architecture that has no build.
pub open spec fn arch_name(arch: Seq<char>) -> Option<Seq<char>> {
    if arch == "x86_64"@ {
        Some("amd64"@)
    } else if arch == "x86"@ {
        Some("386"@)
    } else if arch == "aarch64"@ {
        Some("arm64"@)
    } else if arch == "arm"@ {
        Some("armv7"@)
    } else {
        None
    }
}

/// Why resolving or downloading the proxy binary failed.
#[derive(Debug, Clone, PartialEq, Eq)]
pub enum SetupError {
    UnsupportedArch,
    NoReleaseMetadata,
    NoMatchingAsset,
}

/// The release-asset spelling of a CPU architecture identifier.
pub fn go_arch(arch: &str) -> (r: Result<String, SetupError>)
    ensures
        match arch_name(arch@) {
            Some(n) => r is Ok && r->Ok_0@ == n,
            None => r == Err::<String, SetupError>(SetupError::UnsupportedArch),
        },
{
    if str_eq(arch, "x86_64") {
        Ok("amd64".to_owned())
    } else if str_eq(arch, "x86") {
        Ok("386".to_owned())
    } else if str_eq(arch, "aarch64") {
        Ok("arm64".to_owned())
    } else if str_eq(arch, "arm") {
        Ok("armv7".to_owned())
    } else {
        Err(SetupError::UnsupportedArch)
    }
}

/// Whether an asset name fits both the operating system and the architecture.
pub open spec fn asset_fits(name: Seq<char>, os: Seq<char>, arch: Seq<char>) -> bool {
    contains_seq(name, os) && contains_seq(name, arch)
}

/// A release asset as (name, download address) pairs of character sequences.
pub open spec fn pairs_view(v: Seq<(String, String)>) -> Seq<(Seq<char>, Seq<char>)> {
    v.map_values(|p: (String, String)| (p.0@, p.1@))
}

/// `i` is the first asset whose name fits the operating system and architecture.
pub open spec fn is_first_fit(
    assets: Seq<(Seq<char>, Seq<char>)>,
    i: int,
    os: Seq<char>,
    arch: Seq<char>,
) -> bool {
    &&& 0 <= i < assets.len()
    &&& asset_fits(assets[i].0, os, arch)
    &&& forall|j: int| 0 <= j < i ==> !asset_fits(#[trigger] assets[j].0, os, arch)
}

/// No asset name fits the operating system and architecture.
pub open spec fn none_fits(assets: Seq<(Seq<char>, Seq<char>)>, os: Seq<char>, arch: Seq<char>) -> bool {
    forall|j: int| 0 <= j < assets.len() ==> !asset_fits(#[trigger] assets[j].0, os, arch)
}

/// The index of the first asset whose name fits both the operating system
/// and the architecture, or `None` where no name fits.
pub fn first_fitting(assets: &Vec<(String, String)>, os: &str, arch: &str) -> (r: Option<usize>)
    ensures
        match r {
            Some(i) => is_first_fit(pairs_view(assets@), i as int, os@, arch@),
            None => none_fits(pairs_view(assets@), os@, arch@),
        },
{
    let ghost v = pairs_view(assets@);
    let mut i: usize = 0;
    while i < assets.len()
        invariant
            i <= assets@.len(),
            v == pairs_view(assets@),
            forall|j: int| 0 <= j < i ==> !asset_fits(#[trigger] v[j].0, os@, arch@),
        decreases assets@.len() - i,
    {
        let name = assets[i].0.as_str();
        if str_contains(name, os) && str_contains(name, arch) {
            return Some(i);
        }
        i = i + 1;
    }
    None
}

/// How a release asset is packed.
#[derive(Debug, Clone, Copy, PartialEq, Eq)]
pub enum ArchiveKind {
    TarGz,
    Zip,
    Other,
}

/// The packing that an asset name announces.
pub open spec fn kind_of(name: Seq<char>) -> ArchiveKind {
    if contains_seq(name, ".tar.gz"@) {
        ArchiveKind::TarGz
    } else if contains_seq(name, ".zip"@) {
        ArchiveKind::Zip
    } else {
        ArchiveKind::Other
    }
}

/// The packing that an asset name announces.
pub fn archive_kind(name: &str) -> (r: ArchiveKind)
    ensures
        r == kind_of(name@),
{
    if str_contains(name, ".tar.gz") {
        ArchiveKind::TarGz
    } else if str_contains(name, ".zip") {
        ArchiveKind::Zip
    } else {
        ArchiveKind::Other
    }
}

/// The asset chosen for download.
#[derive(Debug, Clone, PartialEq, Eq)]
pub struct ReleaseAsset {
    pub name: String,
    pub url: String,
    pub kind: ArchiveKind,
}

/// The asset that a download takes from a release listing: an unsupported
/// architecture fails first, then the first fitting asset is taken.
pub open spec fn picked(
    assets: Seq<(Seq<char>, Seq<char>)>,
    os: Seq<char>,
    arch: Seq<char>,
    r: Result<ReleaseAsset, SetupError>,
) -> bool {
    match arch_name(arch) {
        None => r == Err::<ReleaseAsset, SetupError>(SetupError::UnsupportedArch),
        Some(a) => if none_fits(assets, os, a) {
            r == Err::<ReleaseAsset, SetupError>(SetupError::NoMatchingAsset)
        } else {
            exists|i: int|
                #[trigger] is_first_fit(assets, i, os, a) && r is Ok && r->Ok_0.name@
                    == assets[i].0 && r->Ok_0.url@ == assets[i].1 && r->Ok_0.kind == kind_of(
                    assets[i].0,
                )
        },
    }
}

/// Picks the asset to download from a release listing for an operating
/// system and a CPU architecture identifier.
pub fn pick_asset(assets: &Vec<(String, String)>, os: &str, arch: &str) -> (r: Result<
    ReleaseAsset,
    SetupError,
>)
    ensures
        picked(pairs_view(assets@), os@, arch@, r),
{
    let a = match go_arch(arch) {
        Ok(a) => a,
        Err(e) => return Err(e),
    };
    match first_fitting(assets, os, a.as_str()) {
        Some(i) => {
            let name = assets[i].0.clone();
            let url = assets[i].1.clone();
            let kind = archive_kind(name.as_str());
            let r = ReleaseAsset { name, url, kind };
            assert(is_first_fit(pairs_view(assets@), i as int, os@, a@));
            Ok(r)
        },
        None => Err(SetupError::NoMatchingAsset),
    }
}

/// What a release listing in JSON holds: for each entry of its `assets`
/// array, the `name` and `browser_download_url` strings, in order; `None`
/// where the text is no such listing.
pub uninterp spec fn release_assets_of(body: Seq<char>) -> Option<Seq<(Seq<char>, Seq<char>)>>;

/// Relies on `serde_json::from_str` into a `serde_json::Value`, read through
/// `Value::get`, `Value::as_array` and `Value::as_str`: the listing depends on
/// the text alone.
#[verifier::external_body]
fn parse_release(body: &str) -> (r: Option<Vec<(String, String)>>)
    ensures
        match r {
            Some(v) => release_assets_of(body@) == Some(pairs_view(v@)),
            None => release_assets_of(body@) is None,
        },
{
    let json: serde_json::Value = serde_json::from_str(body).ok()?;
    let assets = json.get("assets")?.as_array()?;
    assets.iter().map(
        |a| {
            let name = a.get("name")?.as_str()?.to_string();
            let url = a.get("browser_download_url")?.as_str()?.to_string();
            Some((name, url))
        },
    ).collect()
}

/// Reads a release listing and picks the asset to download for an operating
/// system and a CPU architecture identifier.
pub fn release_asset(body: &str, os: &str, arch: &str) -> (r: Result<ReleaseAsset, SetupError>)
    ensures
        match release_assets_of(body@) {
            None => r == Err::<ReleaseAsset, SetupError>(SetupError::NoReleaseMetadata),
            Some(a) => picked(a, os@, arch@, r),
        },
{
    match parse_release(body) {
        Some(v) => pick_asset(&v, os, arch),
        None => Err(SetupError::NoReleaseMetadata),
    }
}

/// Where the downloaded binary is written, by operating system.
pub open spec fn binary_target(os: Seq<char>) -> Seq<char> {
    if os == "windows"@ {
        "bin\\sing-box.exe"@
    } else {
        "bin/sing-box"@
    }
}

/// Where the downloaded binary is written on an operating system.
pub fn binary_file_name(os: &str) -> (r: String)
    ensures
        r@ == binary_target(os@),
{
    if str_eq(os, "windows") {
        "bin\\sing-box.exe".to_owned()
    } else {
        "bin/sing-box".to_owned()
    }
}

/// Whether an archive member's file name is the proxy binary.
pub open spec fn is_binary_name(name: Seq<char>) -> bool {
    name == "sing-box"@ || name == "sing-box.exe"@
}

/// Whether an archive member's file name is the proxy binary.
pub fn is_binary_member(name: &str) -> (r: bool)
    ensures
        r == is_binary_name(name@),
{
    str_eq(name, "sing-box") || str_eq(name, "sing-box.exe")
}

/// Where the proxy binary comes from.
#[derive(Debug, Clone, PartialEq, Eq)]
pub enum BinarySource {
    /// The path the user gave, which exists.
    Given(String),
    /// The binary found on the executable search path.
    OnPath(String),
    /// Neither: the binary must be downloaded.
    Download,
}

/// The source of the binary: a given path that exists is used; otherwise
/// the binary found on the search path is taken, and where none was found it
/// must be downloaded.
pub fn choose_binary(input: &str, input_exists: bool, on_path: Option<String>) -> (r: BinarySource)
    ensures
        input@.len() != 0 && input_exists ==> r is Given && r->Given_0@ == input@,
        !(input@.len() != 0 && input_exists) ==> match on_path {
            Some(p) => r == BinarySource::OnPath(p),
            None => r == BinarySource::Download,
        },
{
    if !input.is_empty() && input_exists {
        BinarySource::Given(input.to_owned())
    } else {
        match on_path {
            Some(p) => BinarySource::OnPath(p),
            None => BinarySource::Download,
        }
    }
}

/// Two characters are equal once ASCII letters are folded to one case.
pub open spec fn same_ignoring_ascii_case(a: char, b: char) -> bool {
    let x = a as u32;
    let y = b as u32;
    x == y || (0x41 <= x <= 0x5a && x + 32 == y) || (0x41 <= y <= 0x5a && y + 32 == x)
}

/// A character that ends a path prefix: a directory separator, or the colon
/// of a drive prefix.
pub open spec fn is_path_separator(c: char) -> bool {
    c == '/' || c == '\\' || c == ':'
}

/// A path names the program `n`: somewhere after a separator, or at its
/// start, it holds `n` up to ASCII case, followed by its end or by a `.` that
/// begins an extension.
pub open spec fn names_program(p: Seq<char>, n: Seq<char>) -> bool {
    exists|k: int|
        #![trigger p.subrange(k, k + n.len())]
        0 <= k && k + n.len() <= p.len() && (k == 0 || is_path_separator(p[k - 1])) && (forall|
            j: int,
        |
            0 <= j < n.len() ==> same_ignoring_ascii_case(p[k + j], #[trigger] n[j])) && (k
            + n.len() == p.len() || p[k + n.len()] == '.')
}

/// Relies on `which::which`: a search-path entry joined with the name, with
/// an extension of `PATHEXT` appended and the case of the file name corrected
/// on Windows; whether and where it finds one depends on the environment.
#[verifier::external_body]
fn find_on_path(name: &str) -> (r: Option<String>)
    ensures
        r matches Some(p) ==> names_program(p@, name@),
{
    which::which(name).ok().and_then(|p| p.to_str().map(|s| s.to_string()))
}

/// Locates the binary from the path typed at the prompt and whether it
/// exists on disk, searching the executable search path only where no
/// existing path was given.
pub fn locate_binary(input: &str, input_exists: bool) -> (r: BinarySource)
    ensures
        input@.len() != 0 && input_exists ==> r is Given && r->Given_0@ == input@,
        !(input@.len() != 0 && input_exists) ==> r is OnPath || r is Download,
        r matches BinarySource::OnPath(p) ==> names_program(p@, "sing-box"@),
{
    let found = if !input.is_empty() && input_exists {
        None
    } else {
        find_on_path("sing-box")
    };
    choose_binary(input, input_exists, found)
}

} // verus!
