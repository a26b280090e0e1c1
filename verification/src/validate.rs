//! Checking that a store, as it was put together from a persisted
//! document, satisfies the store's invariant.

use std::collections::HashMap;
use vstd::prelude::*;
use vstd::set_lib::lemma_subset_equality;

use crate::db::{registry_wf, Db, Project};
use crate::downloads::{
    distinct_versions, histories_wf, lemma_series_map_at, lemma_series_map_keys, series_map,
    series_view, settled, Download, DownloadSeries,
};

verus! {

/// The ids below `count`.
pub open spec fn ids_below(count: nat) -> Set<u64> {
    Set::new(|id: u64| id < count)
}

/// There are `count` ids below `count`.
pub proof fn lemma_ids_below_len(count: nat)
    requires
        count <= u64::MAX,
    ensures
        ids_below(count).finite(),
        ids_below(count).len() == count,
    decreases count,
{
    if count == 0 {
        assert(ids_below(count) =~= Set::empty());
    } else {
        let fewer = (count - 1) as nat;
        lemma_ids_below_len(fewer);
        assert(ids_below(count) =~= ids_below(fewer).insert(fewer as u64));
    }
}

/// Whether the ids in use are exactly those below the number of projects.
fn ids_dense(projects: &HashMap<u64, Project>) -> (dense: bool)
    ensures
        dense == (forall|id: u64| projects@.contains_key(id) <==> id < projects@.len()),
{
    let count: usize = projects.len();
    let mut id: usize = 0;
    while id < count
        invariant
            count == projects@.len(),
            id <= count,
            forall|k: u64| k < id ==> projects@.contains_key(k),
        decreases count - id,
    {
        if !projects.contains_key(&(id as u64)) {
            return false;
        }
        id += 1;
    }
    proof {
        let below = ids_below(count as nat);
        lemma_ids_below_len(count as nat);
        assert(below.subset_of(projects@.dom()));
        lemma_subset_equality(below, projects@.dom());
        assert forall|k: u64| projects@.contains_key(k) implies k < projects@.len() by {
            assert(below.contains(k));
        }
    }
    true
}

/// Whether a history is non-empty and settled.
fn history_settled(samples: &Vec<Download>) -> (ok: bool)
    ensures
        ok == (samples@.len() > 0 && settled(samples@)),
{
    if samples.len() == 0 {
        return false;
    }
    let mut i: usize = 0;
    while i + 1 < samples.len()
        invariant
            samples.len() > 0,
            i < samples.len(),
            forall|k: int| 0 <= k < i ==> (#[trigger] samples@[k]).counts != samples@[k + 1].counts,
        decreases samples.len() - i,
    {
        if samples[i].counts.same(&samples[i + 1].counts) {
            return false;
        }
        i += 1;
    }
    true
}

/// Whether no version has two series, and every history is non-empty and
/// settled.
fn series_valid(series: &Vec<DownloadSeries>) -> (ok: bool)
    ensures
        ok == (distinct_versions(series_view(series@)) && histories_wf(
            series_map(series_view(series@)),
        )),
{
    let ghost all = series_view(series@);
    let mut j: usize = 0;
    while j < series.len()
        invariant
            j <= series.len(),
            all == series_view(series@),
            forall|a: int, b: int|
                0 <= a < b < j ==> (#[trigger] all[a]).version != (#[trigger] all[b]).version,
        decreases series.len() - j,
    {
        let mut i: usize = 0;
        while i < j
            invariant
                i <= j < series.len(),
                all == series_view(series@),
                forall|a: int| 0 <= a < i ==> (#[trigger] all[a]).version != all[j as int].version,
            decreases j - i,
        {
            if series[i].version.same(&series[j].version) {
                proof {
                    assert(all[i as int].version == all[j as int].version);
                }
                return false;
            }
            i += 1;
        }
        j += 1;
    }
    assert(distinct_versions(all));
    let mut k: usize = 0;
    while k < series.len()
        invariant
            k <= series.len(),
            all == series_view(series@),
            distinct_versions(all),
            forall|a: int| 0 <= a < k ==> (#[trigger] all[a]).samples.len() > 0 && settled(all[a].samples),
        decreases series.len() - k,
    {
        if !history_settled(&series[k].samples) {
            proof {
                lemma_series_map_at(all, k as int);
            }
            return false;
        }
        k += 1;
    }
    proof {
        let histories = series_map(all);
        assert forall|version| #[trigger] histories.contains_key(version) implies histories[version].len()
            > 0 && settled(histories[version]) by {
            lemma_series_map_keys(all, version);
            let a = choose|a: int| 0 <= a < all.len() && (#[trigger] all[a]).version == version;
            lemma_series_map_at(all, a);
        }
    }
    true
}

impl Db {
    /// Whether no two projects share a canonical URL and every URL is
    /// rooted.
    fn registry_valid(&self) -> (ok: bool)
        requires
            self.dense(),
        ensures
            ok == registry_wf(self@.projects),
    {
        let count: u64 = self.project_count();
        let mut j: u64 = 0;
        while j < count
            invariant
                self.dense(),
                count == self@.projects.len(),
                j <= count,
                forall|a: int, b: int|
                    0 <= a < b < j ==> #[trigger] self@.projects[a].url.text
                        != #[trigger] self@.projects[b].url.text,
                forall|a: int| 0 <= a < j ==> (#[trigger] self@.projects[a]).url.rooted(),
            decreases count - j,
        {
            let later = match self.projects.get(&j) {
                Some(project) => project,
                None => {
                    return false;
                },
            };
            if !later.url.is_rooted() {
                proof {
                    assert(!self@.projects[j as int].url.rooted());
                }
                return false;
            }
            let mut i: u64 = 0;
            while i < j
                invariant
                    self.dense(),
                    count == self@.projects.len(),
                    i <= j < count,
                    later@ == self@.projects[j as int],
                    forall|a: int|
                        0 <= a < i ==> (#[trigger] self@.projects[a]).url.text
                            != self@.projects[j as int].url.text,
                decreases j - i,
            {
                match self.projects.get(&i) {
                    Some(earlier) => {
                        if earlier.url.same(&later.url) {
                            proof {
                                assert(self@.projects[i as int].url.text
                                    == self@.projects[j as int].url.text);
                            }
                            return false;
                        }
                    },
                    None => {
                        return false;
                    },
                }
                i += 1;
            }
            j += 1;
        }
        true
    }

    /// Whether the store satisfies its invariant. A store that was put
    /// together by hand, or from a document, is to be checked with this
    /// before anything else is done with it.
    pub fn is_valid(&self) -> (valid: bool)
        ensures
            valid == self.wf(),
    {
        ids_dense(&self.projects) && self.registry_valid() && series_valid(&self.downloads)
            && series_valid(&self.installer_downloads)
    }
}

} // verus!
