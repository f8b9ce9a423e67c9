//! The two requests that an update sends: one for the metadata of the latest
//! release, one for the file of the selected asset.

use crate::release::ReleaseAsset;
use vstd::prelude::*;
use vstd::string::*;

verus! {

/// Address of the metadata of the latest release.
pub const LATEST_RELEASE_URL: &'static str =
    "https://api.github.com/repos/rust-analyzer/rust-analyzer/releases/latest";

/// Value of the `Accept` header of the metadata request.
pub const ACCEPT_JSON: &'static str = "application/json";

/// Value of the `User-Agent` header of the metadata request.
pub const USER_AGENT: &'static str = "rust-analyzer-downloader";

/// A `GET` request for release metadata, to be answered with a JSON object.
#[derive(Debug, PartialEq, Eq)]
pub struct MetadataRequest {
    /// Address to request.
    pub url: String,
    /// Value of the `Accept` header.
    pub accept: String,
    /// Value of the `User-Agent` header.
    pub user_agent: String,
}

/// What a [`MetadataRequest`] holds, as plain text.
pub struct MetadataRequestView {
    pub url: Seq<char>,
    pub accept: Seq<char>,
    pub user_agent: Seq<char>,
}

impl View for MetadataRequest {
    type V = MetadataRequestView;

    open spec fn view(&self) -> MetadataRequestView {
        MetadataRequestView { url: self.url@, accept: self.accept@, user_agent: self.user_agent@ }
    }
}

/// The request for the latest release, as every update sends it.
pub open spec fn latest_release() -> MetadataRequestView {
    MetadataRequestView {
        url: LATEST_RELEASE_URL@,
        accept: ACCEPT_JSON@,
        user_agent: USER_AGENT@,
    }
}

/// Returns the request for the metadata of the latest release.
pub fn latest_release_request() -> (request: MetadataRequest)
    ensures
        request@ == latest_release(),
{
    MetadataRequest {
        url: String::from_str(LATEST_RELEASE_URL),
        accept: String::from_str(ACCEPT_JSON),
        user_agent: String::from_str(USER_AGENT),
    }
}

/// A `GET` request for a file, whose answer is written to `location`.
#[derive(Debug, PartialEq, Eq)]
pub struct DownloadRequest {
    /// Address to request.
    pub url: String,
    /// Value of the `Content-Type` header of the request.
    pub content_type: String,
    /// Path of the file that receives the body of the answer.
    pub location: String,
}

/// What a [`DownloadRequest`] holds, as plain text.
pub struct DownloadRequestView {
    pub url: Seq<char>,
    pub content_type: Seq<char>,
    pub location: Seq<char>,
}

impl View for DownloadRequest {
    type V = DownloadRequestView;

    open spec fn view(&self) -> DownloadRequestView {
        DownloadRequestView {
            url: self.url@,
            content_type: self.content_type@,
            location: self.location@,
        }
    }
}

/// The download of an asset to `location`: the file comes from the asset's
/// download address, and the request carries the asset's declared media type
/// as its `Content-Type`.
pub open spec fn download_of(asset: ReleaseAsset, location: Seq<char>) -> DownloadRequestView {
    DownloadRequestView {
        url: asset.browser_download_url@,
        content_type: asset.content_type@,
        location,
    }
}

/// Returns the request that downloads `asset` to the file at `location`.
pub fn download_asset(asset: ReleaseAsset, location: &str) -> (request: DownloadRequest)
    ensures
        request@ == download_of(asset, location@),
{
    DownloadRequest {
        url: asset.browser_download_url,
        content_type: asset.content_type,
        location: String::from_str(location),
    }
}

} // verus!
