//! Releases as the code host lists them, and what is read off them: the
//! version that a release's tag names and the download counts of its
//! assets by platform.

use vstd::prelude::*;

use crate::downloads::Download;
use crate::platform::{platform_of, Platform, PlatformCounts};
use crate::version::{tag_version, SemVer, SemVerView};

verus! {

/// A file published with a release.
#[derive(Debug)]
pub struct GithubReleaseAsset {
    pub name: String,
    pub download_count: u64,
}

/// What a [`GithubReleaseAsset`] stands for.
pub struct AssetView {
    pub name: Seq<char>,
    pub download_count: u64,
}

impl View for GithubReleaseAsset {
    type V = AssetView;

    open spec fn view(&self) -> AssetView {
        AssetView { name: self.name@, download_count: self.download_count }
    }
}

/// A release: its tag and its assets.
#[derive(Debug)]
pub struct GithubRelease {
    pub name: String,
    pub assets: Vec<GithubReleaseAsset>,
}

/// What a [`GithubRelease`] stands for.
pub struct ReleaseView {
    pub name: Seq<char>,
    pub assets: Seq<AssetView>,
}

/// The views of a sequence of assets, in order.
pub open spec fn assets_view(assets: Seq<GithubReleaseAsset>) -> Seq<AssetView> {
    Seq::new(assets.len(), |i: int| assets[i]@)
}

impl View for GithubRelease {
    type V = ReleaseView;

    open spec fn view(&self) -> ReleaseView {
        ReleaseView { name: self.name@, assets: assets_view(self.assets@) }
    }
}

/// The views of a sequence of releases, in order.
pub open spec fn releases_view(releases: Seq<GithubRelease>) -> Seq<ReleaseView> {
    Seq::new(releases.len(), |i: int| releases[i]@)
}

/// The asset at `k` belongs to no platform of the table.
pub open spec fn unknown_asset(assets: Seq<AssetView>, k: int) -> bool {
    0 <= k < assets.len() && platform_of(assets[k].name) is None
}

/// The counts by platform of a list of assets. Where two assets are for
/// one platform the later one counts; an asset of no platform adds
/// nothing.
pub open spec fn counts_of(assets: Seq<AssetView>) -> PlatformCounts
    decreases assets.len(),
{
    if assets.len() == 0 {
        PlatformCounts::none()
    } else {
        let earlier = counts_of(assets.drop_last());
        match platform_of(assets.last().name) {
            Some(platform) => earlier.with(platform, assets.last().download_count),
            None => earlier,
        }
    }
}

impl ReleaseView {
    /// The tag names a version and every asset belongs to a platform.
    pub open spec fn acceptable(self) -> bool {
        &&& tag_version(self.name) is Some
        &&& forall|k: int| !unknown_asset(self.assets, k)
    }

    /// The version that the tag names.
    pub open spec fn version(self) -> SemVerView {
        tag_version(self.name)->0
    }

    /// The download counts of the release, read at `date`.
    pub open spec fn sample(self, date: i64) -> Download {
        Download { date, counts: counts_of(self.assets) }
    }
}

/// Why a list of releases is refused. Each names the first release, in
/// the order of the list, that breaks the naming convention.
#[derive(Clone, Copy, Debug, PartialEq, Eq, Structural)]
pub enum ReleaseError {
    /// The tag of the release at `release` names no version.
    BadVersionTag { release: usize },
    /// The asset at `asset` of the release at `release` belongs to no
    /// platform.
    UnknownAsset { release: usize, asset: usize },
}

/// `error` is the complaint about the first release of `releases` that is
/// not acceptable: about its tag if that names no version, else about the
/// first of its assets that belongs to no platform.
pub open spec fn first_error(releases: Seq<ReleaseView>, error: ReleaseError) -> bool {
    match error {
        ReleaseError::BadVersionTag { release } => {
            &&& release < releases.len()
            &&& forall|j: int| 0 <= j < release ==> (#[trigger] releases[j]).acceptable()
            &&& tag_version(releases[release as int].name) is None
        },
        ReleaseError::UnknownAsset { release, asset } => {
            &&& release < releases.len()
            &&& forall|j: int| 0 <= j < release ==> (#[trigger] releases[j]).acceptable()
            &&& tag_version(releases[release as int].name) is Some
            &&& unknown_asset(releases[release as int].assets, asset as int)
            &&& forall|j: int| 0 <= j < asset ==> !unknown_asset(releases[release as int].assets, j)
        },
    }
}

/// Sorts the assets' download counts by platform. Fails with the position
/// of the first asset that belongs to no platform.
pub fn read_assets(assets: &Vec<GithubReleaseAsset>) -> (read: Result<PlatformCounts, usize>)
    ensures
        match read {
            Ok(counts) => {
                &&& forall|k: int| !unknown_asset(assets_view(assets@), k)
                &&& counts == counts_of(assets_view(assets@))
            },
            Err(k) => {
                &&& unknown_asset(assets_view(assets@), k as int)
                &&& forall|j: int| 0 <= j < k ==> !unknown_asset(assets_view(assets@), j)
            },
        },
{
    let ghost all = assets_view(assets@);
    let mut counts = PlatformCounts::new();
    let mut i: usize = 0;
    while i < assets.len()
        invariant
            i <= assets.len(),
            all == assets_view(assets@),
            forall|j: int| 0 <= j < i ==> !unknown_asset(all, j),
            counts == counts_of(all.take(i as int)),
        decreases assets.len() - i,
    {
        match Platform::classify(assets[i].name.as_str()) {
            Some(platform) => {
                counts.insert(platform, assets[i].download_count);
            },
            None => {
                return Err(i);
            },
        }
        proof {
            assert(all.take(i + 1).drop_last() =~= all.take(i as int));
        }
        i += 1;
    }
    proof {
        assert(all.take(i as int) =~= all);
    }
    Ok(counts)
}

/// Reads the version and the download counts off one release.
pub fn read_release(release: &GithubRelease) -> (read: Result<(SemVer, PlatformCounts), Option<usize>>)
    ensures
        match read {
            Ok((version, counts)) => {
                &&& release@.acceptable()
                &&& version@ == release@.version()
                &&& counts == counts_of(release@.assets)
            },
            Err(None) => tag_version(release@.name) is None,
            Err(Some(k)) => {
                &&& tag_version(release@.name) is Some
                &&& unknown_asset(release@.assets, k as int)
                &&& forall|j: int| 0 <= j < k ==> !unknown_asset(release@.assets, j)
            },
        },
{
    match SemVer::from_tag(release.name.as_str()) {
        Err(_) => Err(None),
        Ok(version) => match read_assets(&release.assets) {
            Ok(counts) => Ok((version, counts)),
            Err(k) => Err(Some(k)),
        },
    }
}

} // verus!
