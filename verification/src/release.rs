//! The release index and the choice of the asset for a platform.

use vstd::prelude::*;
use vstd::utf8::is_ascii_chars;

use crate::error::Error;
use crate::platform::Platform;
use crate::text::{ascii_lowercase, ends_with, lowercase, to_lowercase};

verus! {

/// One downloadable file of a release, as the feed describes it. Either field
/// may be absent.
#[derive(Debug, PartialEq, Eq)]
pub struct Assets {
    /// The file name.
    pub name: Option<String>,
    /// Where the file can be fetched.
    pub browser_download_url: Option<String>,
}

/// The release index: the assets of the latest release, in the feed's order.
#[derive(Debug, PartialEq, Eq)]
pub struct Releases {
    /// The assets, in index order.
    pub assets: Vec<Assets>,
}

/// What an asset is to the contracts: its two texts, where present.
pub struct AssetView {
    pub name: Option<Seq<char>>,
    pub url: Option<Seq<char>>,
}

impl View for Assets {
    type V = AssetView;

    open spec fn view(&self) -> AssetView {
        AssetView {
            name: match self.name {
                Some(n) => Some(n@),
                None => None,
            },
            url: match self.browser_download_url {
                Some(u) => Some(u@),
                None => None,
            },
        }
    }
}

impl View for Releases {
    type V = Seq<AssetView>;

    open spec fn view(&self) -> Seq<AssetView> {
        self.assets@.map_values(|a: Assets| a@)
    }
}

/// Whether an asset can be chosen for the suffix: it has a name and a URL, and
/// its lowercase name ends with the suffix.
pub open spec fn asset_matches(asset: AssetView, suffix: Seq<char>) -> bool {
    &&& asset.name is Some
    &&& asset.url is Some
    &&& suffix.is_suffix_of(lowercase(asset.name->0))
}

/// Whether `i` is the position of the first asset that matches the suffix.
pub open spec fn is_first_match(assets: Seq<AssetView>, suffix: Seq<char>, i: int) -> bool {
    &&& 0 <= i < assets.len()
    &&& asset_matches(assets[i], suffix)
    &&& forall|j: int| 0 <= j < i ==> !asset_matches(#[trigger] assets[j], suffix)
}

/// The URL that resolution yields: that of the first matching asset in index
/// order, if any asset matches.
pub open spec fn resolved_url(assets: Seq<AssetView>, suffix: Seq<char>) -> Option<Seq<char>>
    decreases assets.len(),
{
    if assets.len() == 0 {
        None
    } else if asset_matches(assets[0], suffix) {
        assets[0].url
    } else {
        resolved_url(assets.drop_first(), suffix)
    }
}

/// Whether an asset with this lowercase name, if it also has a URL, is the one
/// for the suffix.
pub fn name_selects(lowered_name: &str, suffix: &str) -> (r: bool)
    ensures
        r == suffix@.is_suffix_of(lowered_name@),
{
    ends_with(lowered_name, suffix)
}

/// Whether the asset can be chosen for the suffix.
pub fn matches_suffix(asset: &Assets, suffix: &str) -> (r: bool)
    ensures
        r == asset_matches(asset@, suffix@),
{
    match (&asset.name, &asset.browser_download_url) {
        (Some(name), Some(_)) => {
            let lowered = to_lowercase(name.as_str());
            name_selects(lowered.as_str(), suffix)
        },
        _ => false,
    }
}

/// Resolution never yields an asset before whose position another matches:
/// `resolved_url` is the URL at the first matching position.
pub proof fn lemma_resolved_is_first_match(assets: Seq<AssetView>, suffix: Seq<char>, i: int)
    requires
        is_first_match(assets, suffix, i),
    ensures
        resolved_url(assets, suffix) == assets[i].url,
        resolved_url(assets, suffix) is Some,
    decreases assets.len(),
{
    if i > 0 {
        let rest = assets.drop_first();
        assert(!asset_matches(assets[0], suffix));
        assert forall|j: int| 0 <= j < i - 1 implies !asset_matches(#[trigger] rest[j], suffix) by {
            assert(rest[j] == assets[j + 1]);
        }
        assert(rest[i - 1] == assets[i]);
        lemma_resolved_is_first_match(rest, suffix, i - 1);
    }
}

/// Where no asset matches, resolution yields nothing; and where it yields
/// nothing, no asset matches.
pub proof fn lemma_unresolved_iff_no_match(assets: Seq<AssetView>, suffix: Seq<char>)
    ensures
        resolved_url(assets, suffix) is None <==> forall|i: int|
            0 <= i < assets.len() ==> !asset_matches(#[trigger] assets[i], suffix),
    decreases assets.len(),
{
    if assets.len() > 0 {
        let rest = assets.drop_first();
        lemma_unresolved_iff_no_match(rest, suffix);
        if asset_matches(assets[0], suffix) {
        } else {
            if resolved_url(assets, suffix) is None {
                assert forall|i: int| 0 <= i < assets.len() implies !asset_matches(
                    #[trigger] assets[i],
                    suffix,
                ) by {
                    if i > 0 {
                        assert(rest[i - 1] == assets[i]);
                    }
                }
            } else {
                let k = choose|k: int| 0 <= k < rest.len() && asset_matches(#[trigger] rest[k], suffix);
                assert(assets[k + 1] == rest[k]);
            }
        }
    }
}

/// An asset that lacks its name or its URL has no part in resolution: with it
/// or without it the outcome is the same, whatever stands next to it.
pub proof fn lemma_incomplete_asset_is_ignored(assets: Seq<AssetView>, suffix: Seq<char>, i: int)
    requires
        0 <= i < assets.len(),
        assets[i].name is None || assets[i].url is None,
    ensures
        resolved_url(assets.remove(i), suffix) == resolved_url(assets, suffix),
    decreases assets.len(),
{
    let without = assets.remove(i);
    if i == 0 {
        assert(without =~= assets.drop_first());
    } else {
        assert(without[0] == assets[0]);
        if !asset_matches(assets[0], suffix) {
            assert(without.drop_first() =~= assets.drop_first().remove(i - 1));
            lemma_incomplete_asset_is_ignored(assets.drop_first(), suffix, i - 1);
        }
    }
}

/// Matching does not tell capital from small ASCII letters: two assets whose
/// ASCII names differ in case alone, and which both have a URL or both lack it,
/// match the same suffixes.
pub proof fn lemma_match_ignores_ascii_case(a: AssetView, b: AssetView, suffix: Seq<char>)
    requires
        a.name is Some,
        b.name is Some,
        is_ascii_chars(a.name->0),
        is_ascii_chars(b.name->0),
        ascii_lowercase(a.name->0) == ascii_lowercase(b.name->0),
        a.url is Some <==> b.url is Some,
    ensures
        asset_matches(a, suffix) == asset_matches(b, suffix),
{
}

/// Finds the download URL of the driver build for `platform`: the URL of the
/// first asset, in index order, that has a name and a URL and whose lowercase
/// name ends with the platform's suffix.
pub fn find_download_url(releases: Releases, platform: Platform) -> (r: Result<String, Error>)
    ensures
        match resolved_url(releases@, platform.suffix()) {
            Some(url) => r matches Ok(found) && found@ == url,
            None => r == Err::<String, Error>(Error::ReleaseNotFound),
        },
        r matches Ok(found) ==> exists|i: int|
            is_first_match(releases@, platform.suffix(), i) && releases@[i].url == Some(found@),
        r is Err ==> forall|i: int|
            0 <= i < releases@.len() ==> !asset_matches(#[trigger] releases@[i], platform.suffix()),
{
    let suffix = platform.asset_suffix();
    let mut i: usize = 0;
    while i < releases.assets.len()
        invariant
            i <= releases.assets.len(),
            suffix@ == platform.suffix(),
            forall|j: int| 0 <= j < i ==> !asset_matches(#[trigger] releases@[j], suffix@),
        decreases releases.assets.len() - i,
    {
        let asset = &releases.assets[i];
        assert(asset@ == releases@[i as int]);
        if matches_suffix(asset, suffix) {
            match &asset.browser_download_url {
                Some(url) => {
                    proof {
                        assert(is_first_match(releases@, suffix@, i as int));
                        lemma_resolved_is_first_match(releases@, suffix@, i as int);
                    }
                    return Ok(url.clone());
                },
                None => {},
            }
        }
        i += 1;
    }
    proof {
        lemma_unresolved_iff_no_match(releases@, suffix@);
    }
    Err(Error::ReleaseNotFound)
}

} // verus!
