use crate::text::{chars_of, contains_chars, has_infix};
use crate::version::{is_update_available, update_available};
use vstd::prelude::*;

verus! {

/// A downloadable file of a release.
pub struct Asset {
    pub name: String,
    pub browser_download_url: String,
}

/// One published release, as the release feed reports it.
pub struct Release {
    pub tag_name: String,
    pub assets: Vec<Asset>,
    pub body: Option<String>,
    pub published_at: Option<String>,
}

/// The installed version and where the binary lives.
pub struct SidecarVersion {
    pub version: String,
    pub path: String,
}

/// The answer to an update check.
pub struct UpdateInfo {
    pub available: bool,
    pub latest_version: String,
    pub current_version: String,
    pub release: Option<Release>,
}

/// The platforms a release ships a binary for.
#[derive(Clone, Copy, PartialEq, Eq, Debug)]
pub enum Platform {
    MacArm,
    MacIntel,
    Windows,
    Linux,
}

pub open spec fn triple_of(p: Platform) -> Seq<char> {
    match p {
        Platform::MacArm => "aarch64-apple-darwin"@,
        Platform::MacIntel => "x86_64-apple-darwin"@,
        Platform::Windows => "x86_64-pc-windows-msvc"@,
        Platform::Linux => "x86_64-unknown-linux-gnu"@,
    }
}

/// The target triple that names the platform's asset.
pub fn target_triple(p: Platform) -> (r: String)
    ensures
        r@ == triple_of(p),
{
    match p {
        Platform::MacArm => String::from_str("aarch64-apple-darwin"),
        Platform::MacIntel => String::from_str("x86_64-apple-darwin"),
        Platform::Windows => String::from_str("x86_64-pc-windows-msvc"),
        Platform::Linux => String::from_str("x86_64-unknown-linux-gnu"),
    }
}

pub open spec fn asset_matches(a: Asset, target: Seq<char>) -> bool {
    has_infix(a.name@, target)
}

/// Index of the first asset whose name contains `target`.
pub fn select_asset(assets: &Vec<Asset>, target: &str) -> (r: Option<usize>)
    ensures
        r matches Some(i) ==> i < assets@.len() && asset_matches(assets@[i as int], target@) && (
        forall|k: int| 0 <= k < i ==> !asset_matches(#[trigger] assets@[k], target@)),
        r is None ==> forall|k: int|
            0 <= k < assets@.len() ==> !asset_matches(#[trigger] assets@[k], target@),
{
    let needle = chars_of(target);
    let mut i: usize = 0;
    while i < assets.len()
        invariant
            needle@ == target@,
            i <= assets@.len(),
            forall|k: int| 0 <= k < i ==> !asset_matches(#[trigger] assets@[k], target@),
        decreases assets@.len() - i,
    {
        let name = chars_of(assets[i].name.as_str());
        if contains_chars(&name, &needle) {
            return Some(i);
        }
        i = i + 1;
    }
    None
}

pub open spec fn zip_suffix() -> Seq<char> {
    ".zip"@
}

/// Whether the asset is a zip archive rather than a bare executable.
pub fn is_archive(name: &str) -> (r: bool)
    ensures
        r == crate::text::has_suffix(name@, zip_suffix()),
{
    let cs = chars_of(name);
    let suffix = chars_of(".zip");
    crate::text::ends_with_chars(&cs, &suffix)
}

impl UpdateInfo {
    /// The answer to an update check, from the installed version and the
    /// newest release.
    pub fn from_release(current_version: String, release: Release) -> (r: UpdateInfo)
        ensures
            r.available == update_available(current_version@, release.tag_name@),
            r.latest_version@ == release.tag_name@,
            r.current_version@ == current_version@,
            r.release == Some(release),
    {
        let available = is_update_available(current_version.as_str(), release.tag_name.as_str());
        let latest_version = release.tag_name.clone();
        UpdateInfo { available, latest_version, current_version, release: Some(release) }
    }
}

} // verus!
