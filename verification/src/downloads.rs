//! Download histories: per release version, the samples of its download
//! counts, oldest first, without immediate repetitions.

use vstd::prelude::*;

use crate::platform::PlatformCounts;
use crate::version::{SemVer, SemVerView};

verus! {

/// One of the two release streams whose downloads are followed. Each has
/// its own versions and its own history.
#[derive(Clone, Copy, Debug, PartialEq, Eq, Hash, Structural)]
pub enum Track {
    /// The releases of the compiler.
    Compiler,
    /// The releases of the toolchain installer.
    Installer,
}

/// The download counts of one release at one moment.
#[derive(Clone, Copy, Debug, PartialEq, Eq, Structural)]
pub struct Download {
    /// When the counts were read, in seconds since the Unix epoch.
    pub date: i64,
    pub counts: PlatformCounts,
}

/// The history with `sample` recorded: it is appended unless the history
/// ends in a sample with the same counts. The first sample is always kept.
pub open spec fn merge_sample(history: Seq<Download>, sample: Download) -> Seq<Download> {
    if history.len() > 0 && history.last().counts == sample.counts {
        history
    } else {
        history.push(sample)
    }
}

/// No sample repeats the counts of the one before it.
pub open spec fn settled(history: Seq<Download>) -> bool {
    forall|i: int| 0 <= i < history.len() - 1 ==> (#[trigger] history[i]).counts != history[i + 1].counts
}

/// The samples of one release version.
#[derive(Debug)]
pub struct DownloadSeries {
    pub version: SemVer,
    pub samples: Vec<Download>,
}

/// What a [`DownloadSeries`] stands for.
pub struct SeriesView {
    pub version: SemVerView,
    pub samples: Seq<Download>,
}

impl View for DownloadSeries {
    type V = SeriesView;

    open spec fn view(&self) -> SeriesView {
        SeriesView { version: self.version@, samples: self.samples@ }
    }
}

/// The views of a sequence of series, in order.
pub open spec fn series_view(series: Seq<DownloadSeries>) -> Seq<SeriesView> {
    Seq::new(series.len(), |i: int| series[i]@)
}

/// No version has two series.
pub open spec fn distinct_versions(series: Seq<SeriesView>) -> bool {
    forall|i: int, j: int|
        0 <= i < j < series.len() ==> (#[trigger] series[i]).version != (#[trigger] series[j]).version
}

/// The histories by version that a list of series holds.
pub open spec fn series_map(series: Seq<SeriesView>) -> Map<SemVerView, Seq<Download>>
    decreases series.len(),
{
    if series.len() == 0 {
        Map::empty()
    } else {
        series_map(series.drop_last()).insert(series.last().version, series.last().samples)
    }
}

/// The history of `version` in `histories`, empty when it has none.
pub open spec fn history_of(
    histories: Map<SemVerView, Seq<Download>>,
    version: SemVerView,
) -> Seq<Download> {
    if histories.contains_key(version) {
        histories[version]
    } else {
        Seq::empty()
    }
}

/// The histories with `sample` recorded for `version`.
pub open spec fn record(
    histories: Map<SemVerView, Seq<Download>>,
    version: SemVerView,
    sample: Download,
) -> Map<SemVerView, Seq<Download>> {
    histories.insert(version, merge_sample(history_of(histories, version), sample))
}

/// Every history is non-empty and settled.
pub open spec fn histories_wf(histories: Map<SemVerView, Seq<Download>>) -> bool {
    forall|version: SemVerView| #[trigger]
        histories.contains_key(version) ==> histories[version].len() > 0 && settled(
            histories[version],
        )
}

/// A version is in the map exactly when one of the series is for it.
pub proof fn lemma_series_map_keys(series: Seq<SeriesView>, version: SemVerView)
    ensures
        series_map(series).contains_key(version) <==> exists|i: int|
            0 <= i < series.len() && (#[trigger] series[i]).version == version,
    decreases series.len(),
{
    if series.len() > 0 {
        let front = series.drop_last();
        lemma_series_map_keys(front, version);
        if series_map(series).contains_key(version) {
            if series.last().version == version {
                assert(series[series.len() - 1].version == version);
            } else {
                let i = choose|i: int| 0 <= i < front.len() && (#[trigger] front[i]).version == version;
                assert(series[i].version == version);
            }
        }
        if exists|i: int| 0 <= i < series.len() && (#[trigger] series[i]).version == version {
            let i = choose|i: int| 0 <= i < series.len() && (#[trigger] series[i]).version == version;
            if i < series.len() - 1 {
                assert(front[i].version == version);
            }
        }
    }
}

/// With distinct versions, the map gives each series' version its samples.
pub proof fn lemma_series_map_at(series: Seq<SeriesView>, i: int)
    requires
        distinct_versions(series),
        0 <= i < series.len(),
    ensures
        series_map(series).contains_key(series[i].version),
        series_map(series)[series[i].version] == series[i].samples,
    decreases series.len(),
{
    let front = series.drop_last();
    if i < series.len() - 1 {
        assert(distinct_versions(front)) by {
            assert forall|a: int, b: int| 0 <= a < b < front.len() implies (#[trigger] front[a]).version
                != (#[trigger] front[b]).version by {
                assert(series[a].version != series[b].version);
            }
        }
        lemma_series_map_at(front, i);
        assert(series[i].version != series[series.len() - 1].version);
        assert(front[i] == series[i]);
    }
}

/// Appending a series for a new version adds its history to the map.
pub proof fn lemma_series_map_push(series: Seq<SeriesView>, added: SeriesView)
    ensures
        series_map(series.push(added)) == series_map(series).insert(added.version, added.samples),
{
    assert(series.push(added).drop_last() =~= series);
}

/// Replacing the samples of the series at `i` replaces that history in
/// the map.
pub proof fn lemma_series_map_update(series: Seq<SeriesView>, i: int, samples: Seq<Download>)
    requires
        distinct_versions(series),
        0 <= i < series.len(),
    ensures
        series_map(series.update(i, SeriesView { version: series[i].version, samples }))
            == series_map(series).insert(series[i].version, samples),
        distinct_versions(series.update(i, SeriesView { version: series[i].version, samples })),
    decreases series.len(),
{
    let changed = SeriesView { version: series[i].version, samples };
    let after = series.update(i, changed);
    let front = series.drop_last();
    assert forall|a: int, b: int| 0 <= a < b < after.len() implies (#[trigger] after[a]).version
        != (#[trigger] after[b]).version by {
        assert(series[a].version != series[b].version);
    }
    if i == series.len() - 1 {
        assert(after.drop_last() =~= front);
        assert(series_map(after) =~= series_map(series).insert(series[i].version, samples));
    } else {
        assert(distinct_versions(front)) by {
            assert forall|a: int, b: int| 0 <= a < b < front.len() implies (#[trigger] front[a]).version
                != (#[trigger] front[b]).version by {
                assert(series[a].version != series[b].version);
            }
        }
        lemma_series_map_update(front, i, samples);
        assert(after.drop_last() =~= front.update(i, changed));
        assert(front[i] == series[i]);
        assert(series[i].version != series[series.len() - 1].version);
        assert(series_map(after) =~= series_map(series).insert(series[i].version, samples));
    }
}

/// Recording into a settled history leaves it settled and non-empty.
pub proof fn lemma_merge_settled(history: Seq<Download>, sample: Download)
    requires
        settled(history),
    ensures
        settled(merge_sample(history, sample)),
        merge_sample(history, sample).len() > 0,
{
    let merged = merge_sample(history, sample);
    if merged != history {
        assert forall|i: int| 0 <= i < merged.len() - 1 implies (#[trigger] merged[i]).counts
            != merged[i + 1].counts by {
            if i < history.len() - 1 {
                assert(history[i].counts != history[i + 1].counts);
            }
        }
    }
}

/// The position of the first series for `version`, if there is one.
pub fn find_series(series: &Vec<DownloadSeries>, version: &SemVer) -> (found: Option<usize>)
    ensures
        match found {
            Some(i) => {
                &&& i < series.len()
                &&& series[i as int]@.version == version@
                &&& forall|k: int| 0 <= k < i ==> (#[trigger] series[k])@.version != version@
            },
            None => forall|i: int| 0 <= i < series.len() ==> (#[trigger] series[i])@.version != version@,
        },
{
    let mut i: usize = 0;
    while i < series.len()
        invariant
            i <= series.len(),
            forall|k: int| 0 <= k < i ==> (#[trigger] series[k])@.version != version@,
        decreases series.len() - i,
    {
        if series[i].version.same(version) {
            return Some(i);
        }
        i += 1;
    }
    None
}

/// Records `sample` for `version`: appended to the history of that version
/// unless it repeats the counts of the last sample there; a version
/// without a history gets one that holds the sample.
pub fn record_sample(series: &mut Vec<DownloadSeries>, version: SemVer, sample: Download)
    requires
        distinct_versions(series_view(old(series)@)),
    ensures
        distinct_versions(series_view(final(series)@)),
        series_map(series_view(final(series)@)) == record(
            series_map(series_view(old(series)@)),
            version@,
            sample,
        ),
{
    let ghost before = series_view(series@);
    match find_series(series, &version) {
        Some(i) => {
            proof {
                assert(before[i as int].version == version@);
                lemma_series_map_at(before, i as int);
            }
            let n: usize = series[i].samples.len();
            if n == 0 || !series[i].samples[n - 1].counts.same(&sample.counts) {
                series[i].samples.push(sample);
                proof {
                    let samples = before[i as int].samples.push(sample);
                    assert(series_view(series@) =~= before.update(
                        i as int,
                        SeriesView { version: before[i as int].version, samples },
                    ));
                    lemma_series_map_update(before, i as int, samples);
                }
            } else {
                proof {
                    assert(series_map(before).insert(version@, before[i as int].samples)
                        =~= series_map(before));
                }
            }
        },
        None => {
            proof {
                lemma_series_map_keys(before, version@);
                assert(!series_map(before).contains_key(version@));
            }
            let mut samples: Vec<Download> = Vec::new();
            samples.push(sample);
            let added = DownloadSeries { version, samples };
            series.push(added);
            proof {
                assert(series_view(series@) =~= before.push(added@));
                lemma_series_map_push(before, added@);
                assert(added@.samples =~= Seq::<Download>::empty().push(sample));
            }
        },
    }
}

} // verus!
