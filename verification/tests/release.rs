use rust_analyzer_downloader::platform::os_suffix;
use rust_analyzer_downloader::release::{
    get_asset_for_os, get_available_assets_os, Release, ReleaseAsset,
};
use rust_analyzer_downloader::request::{
    download_asset, latest_release_request, DownloadRequest, MetadataRequest,
};

fn asset(name: &str) -> ReleaseAsset {
    ReleaseAsset {
        url: format!("https://api.example.org/assets/{}", name),
        name: name.to_string(),
        browser_download_url: format!("https://example.org/download/{}", name),
        content_type: "application/octet-stream".to_string(),
    }
}

#[test]
fn second_asset_is_selected_for_linux() {
    let assets = vec![asset("ra-mac"), asset("ra-linux")];
    let found = get_asset_for_os(assets, "-linux");
    assert_eq!(found, Some(asset("ra-linux")));
}

#[test]
fn first_asset_is_selected_for_macos() {
    let assets = vec![asset("ra-mac"), asset("ra-linux")];
    let suffix = os_suffix("macos");
    let found = get_asset_for_os(assets, &suffix);
    assert_eq!(found, Some(asset("ra-mac")));
}

#[test]
fn empty_asset_list_has_no_match() {
    assert_eq!(get_asset_for_os(Vec::new(), "-linux"), None);
    assert_eq!(get_asset_for_os(Vec::new(), "-mac"), None);
    assert_eq!(get_asset_for_os(Vec::new(), ""), None);
}

#[test]
fn no_match_gives_none() {
    let assets = vec![asset("ra-mac"), asset("ra-linux")];
    assert_eq!(get_asset_for_os(assets, "-windows"), None);
    let assets = vec![asset("linux"), asset("ra-linux.gz"), asset("-linu")];
    assert_eq!(get_asset_for_os(assets, "-linux"), None);
}

#[test]
fn first_of_several_matches_wins() {
    let mut first = asset("rust-analyzer-linux");
    first.content_type = "application/gzip".to_string();
    let assets = vec![asset("ra-mac"), first, asset("ra-linux"), asset("other-linux")];
    let found = get_asset_for_os(assets, "-linux").unwrap();
    assert_eq!(found.name, "rust-analyzer-linux");
    assert_eq!(found.content_type, "application/gzip");
    assert_eq!(found.url, "https://api.example.org/assets/rust-analyzer-linux");
}

#[test]
fn suffix_may_be_the_whole_name_or_empty() {
    let assets = vec![asset("ra-mac"), asset("-linux")];
    assert_eq!(get_asset_for_os(assets, "-linux"), Some(asset("-linux")));
    let assets = vec![asset("ra-mac"), asset("ra-linux")];
    assert_eq!(get_asset_for_os(assets, ""), Some(asset("ra-mac")));
}

#[test]
fn suffix_is_matched_by_characters() {
    let assets = vec![asset("ra-linüx"), asset("ra-é"), asset("ra-linux")];
    assert_eq!(get_asset_for_os(assets, "-é"), Some(asset("ra-é")));
    let assets = vec![asset("ra-Linux"), asset("ra-linux ")];
    assert_eq!(get_asset_for_os(assets, "-linux"), None);
}

#[test]
fn no_platform_is_listed() {
    assert_eq!(get_available_assets_os(Vec::new()), Vec::<String>::new());
    let assets = vec![asset("ra-mac"), asset("ra-linux")];
    assert_eq!(get_available_assets_os(assets), Vec::<String>::new());
}

#[test]
fn default_records_are_empty() {
    let asset = ReleaseAsset::default();
    assert_eq!(asset.url, "");
    assert_eq!(asset.name, "");
    assert_eq!(asset.browser_download_url, "");
    assert_eq!(asset.content_type, "");
    let release = Release::default();
    assert_eq!(release.url, "");
    assert_eq!(release.name, "");
    assert!(release.assets.is_empty());
}

#[test]
fn clones_are_equal_field_by_field() {
    let release = Release {
        url: "https://api.example.org/releases/1".to_string(),
        name: "2024-01-15".to_string(),
        assets: vec![asset("ra-mac"), asset("ra-linux")],
    };
    let copy = release.clone();
    assert_eq!(copy, release);
    assert_eq!(copy.assets[1].clone(), asset("ra-linux"));
}

#[test]
fn download_takes_address_and_media_type_from_the_asset() {
    let mut chosen = asset("ra-linux");
    chosen.content_type = "application/gzip".to_string();
    let request = download_asset(chosen, "/home/user/bin/rust-analyzer");
    assert_eq!(
        request,
        DownloadRequest {
            url: "https://example.org/download/ra-linux".to_string(),
            content_type: "application/gzip".to_string(),
            location: "/home/user/bin/rust-analyzer".to_string(),
        }
    );
}

#[test]
fn metadata_request_is_fixed() {
    assert_eq!(
        latest_release_request(),
        MetadataRequest {
            url: "https://api.github.com/repos/rust-analyzer/rust-analyzer/releases/latest"
                .to_string(),
            accept: "application/json".to_string(),
            user_agent: "rust-analyzer-downloader".to_string(),
        }
    );
}
