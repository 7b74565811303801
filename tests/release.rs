use sidecar_supervisor::install::{asset_for_platform, InstallError};
use sidecar_supervisor::release::{
    is_archive, select_asset, target_triple, Asset, Platform, Release, UpdateInfo,
};

fn asset(name: &str) -> Asset {
    Asset {
        name: name.to_string(),
        browser_download_url: format!("https://example.invalid/{}", name),
    }
}

fn release(tag: &str, names: &[&str]) -> Release {
    Release {
        tag_name: tag.to_string(),
        assets: names.iter().map(|n| asset(n)).collect(),
        body: Some("notes".to_string()),
        published_at: None,
    }
}

#[test]
fn triples_per_platform() {
    assert_eq!(target_triple(Platform::MacArm), "aarch64-apple-darwin");
    assert_eq!(target_triple(Platform::MacIntel), "x86_64-apple-darwin");
    assert_eq!(target_triple(Platform::Windows), "x86_64-pc-windows-msvc");
    assert_eq!(target_triple(Platform::Linux), "x86_64-unknown-linux-gnu");
}

#[test]
fn first_asset_containing_target_is_selected() {
    let r = release(
        "v1.3.0",
        &[
            "opencode-aarch64-apple-darwin.zip",
            "opencode-x86_64-unknown-linux-gnu.zip",
            "opencode-x86_64-unknown-linux-gnu-debug.zip",
        ],
    );
    assert_eq!(select_asset(&r.assets, "x86_64-unknown-linux-gnu"), Some(1));
    assert_eq!(asset_for_platform(&r, Platform::Linux), Ok(1));
    assert_eq!(asset_for_platform(&r, Platform::MacArm), Ok(0));
}

#[test]
fn missing_platform_asset_is_an_error() {
    let r = release("v1.3.0", &["opencode-aarch64-apple-darwin.zip"]);
    assert_eq!(select_asset(&r.assets, "x86_64-pc-windows-msvc"), None);
    assert_eq!(
        asset_for_platform(&r, Platform::Windows),
        Err(InstallError::NoMatchingAsset)
    );
    let empty = release("v1.3.0", &[]);
    assert_eq!(asset_for_platform(&empty, Platform::Linux), Err(InstallError::NoMatchingAsset));
}

#[test]
fn zip_assets_are_archives() {
    assert!(is_archive("opencode-x86_64-unknown-linux-gnu.zip"));
    assert!(!is_archive("opencode-x86_64-unknown-linux-gnu"));
    assert!(!is_archive("opencode.zip.sig"));
    assert!(!is_archive("zip"));
}

#[test]
fn update_info_from_release() {
    let r = release("v1.3.0", &["a"]);
    let info = UpdateInfo::from_release("1.2.0".to_string(), r);
    assert!(info.available);
    assert_eq!(info.latest_version, "v1.3.0");
    assert_eq!(info.current_version, "1.2.0");
    assert_eq!(info.release.as_ref().map(|r| r.tag_name.clone()), Some("v1.3.0".to_string()));

    let same = UpdateInfo::from_release("1.3.0".to_string(), release("v1.3.0", &[]));
    assert!(!same.available);
}
