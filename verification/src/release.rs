//! Release metadata as the release API describes it, and the choice of the
//! asset to install.

use crate::text::{chars_end_with, chars_of};
use vstd::prelude::*;
use vstd::string::*;

verus! {

/// One downloadable file attached to a release.
#[derive(Debug, PartialEq, Eq)]
pub struct ReleaseAsset {
    /// API address of the asset's metadata.
    pub url: String,
    /// File name as published; its suffix names the platform.
    pub name: String,
    /// Address from which the file itself is downloaded.
    pub browser_download_url: String,
    /// Media type that the publisher declares for the file.
    pub content_type: String,
}

/// What a [`ReleaseAsset`] holds, as plain text.
pub struct AssetView {
    pub url: Seq<char>,
    pub name: Seq<char>,
    pub browser_download_url: Seq<char>,
    pub content_type: Seq<char>,
}

impl View for ReleaseAsset {
    type V = AssetView;

    open spec fn view(&self) -> AssetView {
        AssetView {
            url: self.url@,
            name: self.name@,
            browser_download_url: self.browser_download_url@,
            content_type: self.content_type@,
        }
    }
}

impl Clone for ReleaseAsset {
    fn clone(&self) -> (asset: ReleaseAsset)
        ensures
            asset == *self,
    {
        ReleaseAsset {
            url: self.url.clone(),
            name: self.name.clone(),
            browser_download_url: self.browser_download_url.clone(),
            content_type: self.content_type.clone(),
        }
    }
}

impl Default for ReleaseAsset {
    fn default() -> (asset: ReleaseAsset)
        ensures
            asset@ == (AssetView {
                url: Seq::empty(),
                name: Seq::empty(),
                browser_download_url: Seq::empty(),
                content_type: Seq::empty(),
            }),
    {
        ReleaseAsset {
            url: String::new(),
            name: String::new(),
            browser_download_url: String::new(),
            content_type: String::new(),
        }
    }
}

/// The most recent published release and its downloadable files.
#[derive(Debug, PartialEq, Eq)]
pub struct Release {
    /// Canonical API address of the release.
    pub url: String,
    /// Name or tag of the release.
    pub name: String,
    /// The files of the release, in the order in which the API lists them.
    pub assets: Vec<ReleaseAsset>,
}

/// What a [`Release`] holds, as plain text.
pub struct ReleaseView {
    pub url: Seq<char>,
    pub name: Seq<char>,
    pub assets: Seq<AssetView>,
}

impl View for Release {
    type V = ReleaseView;

    open spec fn view(&self) -> ReleaseView {
        ReleaseView {
            url: self.url@,
            name: self.name@,
            assets: self.assets@.map_values(|asset: ReleaseAsset| asset@),
        }
    }
}

impl Clone for Release {
    fn clone(&self) -> (release: Release)
        ensures
            release.url == self.url,
            release.name == self.name,
            release.assets@ == self.assets@,
    {
        let assets = self.assets.clone();
        assert(assets@ =~= self.assets@);
        Release { url: self.url.clone(), name: self.name.clone(), assets }
    }
}

impl Default for Release {
    fn default() -> (release: Release)
        ensures
            release@ == (ReleaseView {
                url: Seq::empty(),
                name: Seq::empty(),
                assets: Seq::empty(),
            }),
    {
        let release = Release { url: String::new(), name: String::new(), assets: Vec::new() };
        assert(release@.assets =~= Seq::empty());
        release
    }
}

/// Whether an asset is built for the platform whose suffix is `suffix`: its
/// file name ends with the suffix.
pub open spec fn asset_matches(asset: ReleaseAsset, suffix: Seq<char>) -> bool {
    suffix.is_suffix_of(asset.name@)
}

/// The asset to install for a platform suffix: the first one, in list order,
/// whose name ends with the suffix.
pub open spec fn asset_for_suffix(assets: Seq<ReleaseAsset>, suffix: Seq<char>) -> Option<
    ReleaseAsset,
>
    decreases assets.len(),
{
    if assets.len() == 0 {
        None
    } else if asset_matches(assets[0], suffix) {
        Some(assets[0])
    } else {
        asset_for_suffix(assets.drop_first(), suffix)
    }
}

/// The selected asset stands at the least index whose asset matches; nothing
/// is selected exactly when no asset of the list matches.
pub proof fn lemma_asset_for_suffix(assets: Seq<ReleaseAsset>, suffix: Seq<char>)
    ensures
        match asset_for_suffix(assets, suffix) {
            Some(asset) => exists|i: int|
                0 <= i < assets.len() && assets[i] == asset && asset_matches(assets[i], suffix)
                    && forall|j: int| 0 <= j < i ==> !asset_matches(#[trigger] assets[j], suffix),
            None => forall|j: int|
                0 <= j < assets.len() ==> !asset_matches(#[trigger] assets[j], suffix),
        },
    decreases assets.len(),
{
    if assets.len() == 0 {
    } else if asset_matches(assets[0], suffix) {
        assert(0 <= 0 < assets.len() && assets[0] == assets[0] && asset_matches(assets[0], suffix));
    } else {
        let rest = assets.drop_first();
        lemma_asset_for_suffix(rest, suffix);
        match asset_for_suffix(rest, suffix) {
            Some(asset) => {
                let i = choose|i: int|
                    0 <= i < rest.len() && rest[i] == asset && asset_matches(rest[i], suffix)
                        && forall|j: int| 0 <= j < i ==> !asset_matches(#[trigger] rest[j], suffix);
                assert(assets[i + 1] == rest[i]);
                assert forall|j: int| 0 <= j < i + 1 implies !asset_matches(
                    #[trigger] assets[j],
                    suffix,
                ) by {
                    if j > 0 {
                        assert(assets[j] == rest[j - 1]);
                    }
                }
            },
            None => {
                assert forall|j: int| 0 <= j < assets.len() implies !asset_matches(
                    #[trigger] assets[j],
                    suffix,
                ) by {
                    if j > 0 {
                        assert(assets[j] == rest[j - 1]);
                    }
                }
            },
        }
    }
}

/// Selects the asset built for the platform whose suffix is `os_suffix`: the
/// first asset of the list whose name ends with the suffix. Returns `None`
/// where no name does.
pub fn get_asset_for_os(assets: Vec<ReleaseAsset>, os_suffix: &str) -> (asset: Option<ReleaseAsset>)
    ensures
        asset == asset_for_suffix(assets@, os_suffix@),
        asset is None <==> forall|j: int|
            0 <= j < assets@.len() ==> !asset_matches(#[trigger] assets@[j], os_suffix@),
        asset matches Some(found) ==> exists|i: int|
            0 <= i < assets@.len() && assets@[i] == found && asset_matches(assets@[i], os_suffix@)
                && forall|j: int| 0 <= j < i ==> !asset_matches(#[trigger] assets@[j], os_suffix@),
{
    let mut list = assets;
    let suffix = chars_of(os_suffix);
    let n: usize = list.len();
    let mut i: usize = 0;
    assert(assets@.subrange(0, n as int) =~= assets@);
    while i < n
        invariant
            n == list.len(),
            list@ == assets@,
            suffix@ == os_suffix@,
            i <= n,
            asset_for_suffix(assets@, os_suffix@) == asset_for_suffix(
                assets@.subrange(i as int, n as int),
                os_suffix@,
            ),
        decreases n - i,
    {
        proof {
            let here = assets@.subrange(i as int, n as int);
            assert(here[0] == assets@[i as int]);
            assert(here.drop_first() =~= assets@.subrange(i + 1, n as int));
        }
        if chars_end_with(&chars_of(list[i].name.as_str()), &suffix) {
            proof {
                lemma_asset_for_suffix(assets@, os_suffix@);
            }
            return Some(list.remove(i));
        }
        i = i + 1;
    }
    proof {
        lemma_asset_for_suffix(assets@, os_suffix@);
    }
    None
}

/// Lists the platforms for which the release offers an asset. Asset names are
/// not taken apart, so no platform is reported for any list.
#[allow(unused_variables)]
pub fn get_available_assets_os(assets: Vec<ReleaseAsset>) -> (oses: Vec<String>)
    ensures
        oses@ == Seq::<String>::empty(),
{
    Vec::new()
}

} // verus!
