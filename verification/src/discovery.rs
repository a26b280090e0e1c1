//! Recording a discovery poll: the repositories that the code search
//! found become projects, and the poll becomes a snapshot that lists their
//! ids.

use vstd::prelude::*;

use crate::clock::unix_time_now;
use crate::db::{Db, DbView, Discovered, Project, ProjectView};
use crate::repo_url::{host_prefix, url_parse, RepoUrl, RepoUrlView, UrlError};

verus! {

/// The views of a sequence of optional texts, in order.
pub open spec fn names_view(names: Seq<Option<String>>) -> Seq<Option<Seq<char>>> {
    Seq::new(
        names.len(),
        |i: int|
            match names[i] {
                Some(name) => Some(name@),
                None => None,
            },
    )
}

/// The views of a sequence of URLs, in order.
pub open spec fn urls_view(urls: Seq<RepoUrl>) -> Seq<RepoUrlView> {
    Seq::new(urls.len(), |i: int| urls[i]@)
}

/// The repository `name` (`owner/name`) has a rooted URL on the code host.
pub open spec fn readable(name: Seq<char>) -> bool {
    url_parse(host_prefix() + name) is Some && url_parse(host_prefix() + name)->0.rooted()
}

/// The search result at `i` names a repository that has no URL.
pub open spec fn unreadable_at(names: Seq<Option<Seq<char>>>, i: int) -> bool {
    0 <= i < names.len() && (names[i] matches Some(name) && !readable(name))
}

/// The URLs of the repositories that the search results name, in the
/// order of the results. A result without a repository name gives none.
pub open spec fn repository_urls(names: Seq<Option<Seq<char>>>) -> Seq<RepoUrlView>
    decreases names.len(),
{
    if names.len() == 0 {
        Seq::empty()
    } else {
        let earlier = repository_urls(names.drop_last());
        match names.last() {
            Some(name) => earlier.push(url_parse(host_prefix() + name)->0),
            None => earlier,
        }
    }
}

/// Why a discovery poll is refused: the search result at `item` names a
/// repository that has no URL on the code host, for the reason given.
#[derive(Clone, Copy, Debug, PartialEq, Eq, Structural)]
pub struct DiscoveryError {
    pub item: usize,
    pub reason: UrlError,
}

/// `error` is the complaint about the first search result that names a
/// repository without a URL: the URL parser rejects it, or gives it a
/// path that is not rooted.
pub open spec fn first_unreadable(names: Seq<Option<Seq<char>>>, error: DiscoveryError) -> bool {
    &&& unreadable_at(names, error.item as int)
    &&& forall|i: int| 0 <= i < error.item ==> !unreadable_at(names, i)
    &&& error.reason == (if url_parse(host_prefix() + names[error.item as int]->0) is Some {
        UrlError::Unrooted
    } else {
        UrlError::Malformed
    })
}

/// Strictly increasing.
pub open spec fn ascending(ids: Seq<u64>) -> bool {
    forall|i: int, j: int| 0 <= i < j < ids.len() ==> ids[i] < ids[j]
}

impl DbView {
    /// The store with a project for `url`, unless it has one already.
    pub open spec fn with_project(self, url: RepoUrlView) -> DbView {
        if self.has_url(url.text) {
            self
        } else {
            DbView {
                projects: self.projects.push(ProjectView { url, build_logs: Seq::empty() }),
                ..self
            }
        }
    }

    /// The store with a project for each of `urls`, added in this order.
    pub open spec fn with_projects(self, urls: Seq<RepoUrlView>) -> DbView
        decreases urls.len(),
    {
        if urls.len() == 0 {
            self
        } else {
            self.with_projects(urls.drop_last()).with_project(urls.last())
        }
    }

    /// `id` is the id of one of the repositories `urls`.
    pub open spec fn is_id_of_one(self, urls: Seq<RepoUrlView>, id: u64) -> bool {
        exists|k: int| 0 <= k < urls.len() && self.has_url_at((#[trigger] urls[k]).text, id as int)
    }

    /// `ids` lists the ids of the repositories `urls`, each once, in
    /// increasing order.
    pub open spec fn lists_ids_of(self, urls: Seq<RepoUrlView>, ids: Seq<u64>) -> bool {
        &&& ascending(ids)
        &&& forall|id: u64| ids.contains(id) <==> self.is_id_of_one(urls, id)
    }
}

/// Turns the repository names of the search results into URLs. Fails at
/// the first name that has none.
pub fn read_repositories(names: &Vec<Option<String>>) -> (read: Result<Vec<RepoUrl>, DiscoveryError>)
    ensures
        match read {
            Ok(urls) => {
                &&& forall|i: int| !unreadable_at(names_view(names@), i)
                &&& urls_view(urls@) == repository_urls(names_view(names@))
                &&& forall|k: int| 0 <= k < urls.len() ==> (#[trigger] urls[k]).wf()
            },
            Err(error) => first_unreadable(names_view(names@), error),
        },
{
    let ghost all = names_view(names@);
    let mut urls: Vec<RepoUrl> = Vec::new();
    let mut i: usize = 0;
    proof {
        assert(all.take(0) =~= Seq::empty());
        assert(urls_view(urls@) =~= Seq::empty());
    }
    while i < names.len()
        invariant
            i <= names.len(),
            all == names_view(names@),
            forall|j: int| 0 <= j < i ==> !unreadable_at(all, j),
            urls_view(urls@) == repository_urls(all.take(i as int)),
            forall|k: int| 0 <= k < urls.len() ==> (#[trigger] urls[k]).wf(),
        decreases names.len() - i,
    {
        let ghost before = urls_view(urls@);
        proof {
            assert(all.take(i + 1).drop_last() =~= all.take(i as int));
        }
        match &names[i] {
            Some(name) => match RepoUrl::on_host(name.as_str()) {
                Ok(url) => {
                    urls.push(url);
                    proof {
                        assert(urls_view(urls@) =~= before.push(url@));
                    }
                },
                Err(reason) => {
                    return Err(DiscoveryError { item: i, reason });
                },
            },
            None => {},
        }
        i += 1;
    }
    proof {
        assert(all.take(i as int) =~= all);
    }
    Ok(urls)
}

/// Puts `id` into a list of ids that is in increasing order, unless it is
/// there already.
pub fn insert_id(ids: &mut Vec<u64>, id: u64)
    requires
        ascending(old(ids)@),
    ensures
        ascending(final(ids)@),
        forall|other: u64| final(ids)@.contains(other) <==> old(ids)@.contains(other) || other == id,
{
    let mut at: usize = 0;
    while at < ids.len() && ids[at] < id
        invariant
            *ids == *old(ids),
            at <= ids.len(),
            forall|k: int| 0 <= k < at ==> ids[k] < id,
        decreases ids.len() - at,
    {
        at += 1;
    }
    if at < ids.len() && ids[at] == id {
        proof {
            assert(ids@.contains(id));
        }
        return ;
    }
    ids.insert(at, id);
    proof {
        let before = old(ids)@;
        let after = ids@;
        assert(after[at as int] == id);
        assert forall|other: u64| after.contains(other) <==> before.contains(other) || other
            == id by {
            if after.contains(other) {
                let k = choose|k: int| 0 <= k < after.len() && after[k] == other;
                if k < at {
                    assert(before[k] == other);
                } else if k > at {
                    assert(before[k - 1] == other);
                }
            }
            if before.contains(other) {
                let k = choose|k: int| 0 <= k < before.len() && before[k] == other;
                if k < at {
                    assert(after[k] == other);
                } else {
                    assert(after[k + 1] == other);
                }
            }
        }
        assert forall|i: int, j: int| 0 <= i < j < after.len() implies after[i] < after[j] by {
            let a = if i < at { i } else { i - 1 };
            let b = if j < at { j } else { j - 1 };
            if i != at && j != at {
                assert(before[a] < before[b]);
            } else if i == at {
                assert(before[b] == after[j]);
                assert(before[at as int] <= before[b]) by {
                    if (at as int) < b {
                        assert(before[at as int] < before[b]);
                    }
                }
            }
        }
    }
}

impl Db {
    /// Records a discovery poll made at `date`: every repository of `urls`
    /// that is not registered yet becomes a project, in the order of
    /// `urls`, and a snapshot with the ids of all of them is appended.
    pub fn record_urls(&mut self, date: i64, sources: u64, urls: Vec<RepoUrl>)
        requires
            old(self).wf(),
            forall|k: int| 0 <= k < urls.len() ==> (#[trigger] urls[k]).wf(),
        ensures
            final(self).wf(),
            final(self)@.projects == old(self)@.with_projects(urls_view(urls@)).projects,
            final(self)@.downloads == old(self)@.downloads,
            final(self)@.installer_downloads == old(self)@.installer_downloads,
            final(self)@.discovered.len() == old(self)@.discovered.len() + 1,
            final(self)@.discovered.drop_last() == old(self)@.discovered,
            final(self)@.discovered.last().date == date,
            final(self)@.discovered.last().sources == sources,
            final(self)@.lists_ids_of(urls_view(urls@), final(self)@.discovered.last().projects),
    {
        let ghost all = urls_view(urls@);
        let mut ids: Vec<u64> = Vec::new();
        let mut i: usize = 0;
        proof {
            assert(all.take(0) =~= Seq::empty());
        }
        while i < urls.len()
            invariant
                i <= urls.len(),
                all == urls_view(urls@),
                forall|k: int| 0 <= k < urls.len() ==> (#[trigger] urls[k]).wf(),
                self.wf(),
                self@ == old(self)@.with_projects(all.take(i as int)),
                self@.lists_ids_of(all.take(i as int), ids@),
            decreases urls.len() - i,
        {
            let ghost before = self@;
            let ghost earlier = ids@;
            let project = Project::new(urls[i].clone());
            let id = self.insert_project(project);
            insert_id(&mut ids, id);
            proof {
                let seen = all.take(i as int);
                let now = all.take(i + 1);
                assert(now.drop_last() =~= seen);
                assert(now.last() == all[i as int]);
                assert(self@ == before.with_project(all[i as int]));
                assert(self@.has_url_at(all[i as int].text, id as int)) by {
                    if !before.has_url(all[i as int].text) {
                        assert(self@.projects[before.projects.len() as int].url == all[i as int]);
                    }
                }
                assert forall|other: u64| ids@.contains(other) <==> self@.is_id_of_one(
                    now,
                    other,
                ) by {
                    if ids@.contains(other) {
                        if other == id {
                            assert(now[i as int] == all[i as int]);
                            assert(self@.has_url_at(now[i as int].text, other as int));
                        } else {
                            assert(earlier.contains(other));
                            assert(before.is_id_of_one(seen, other));
                            let k = choose|k: int|
                                0 <= k < seen.len() && before.has_url_at(
                                    (#[trigger] seen[k]).text,
                                    other as int,
                                );
                            assert(now[k] == seen[k]);
                            assert(self@.projects[other as int] == before.projects[other as int]);
                            assert(self@.has_url_at(now[k].text, other as int));
                        }
                    }
                    if self@.is_id_of_one(now, other) {
                        let k = choose|k: int|
                            0 <= k < now.len() && self@.has_url_at(
                                (#[trigger] now[k]).text,
                                other as int,
                            );
                        if other != id {
                            if k == i {
                                lemma_one_id_per_url(self@, now[k].text, other as int, id as int);
                            } else {
                                assert(seen[k] == now[k]);
                                if other >= before.projects.len() {
                                    assert(self@.projects.len() == before.projects.len() + 1);
                                    assert(other == before.projects.len());
                                    assert(id == other);
                                }
                                assert(before.projects[other as int] == self@.projects[other as int]);
                                assert(before.has_url_at(seen[k].text, other as int));
                                assert(before.is_id_of_one(seen, other));
                            }
                        }
                    }
                }
            }
            i += 1;
        }
        proof {
            assert(all.take(i as int) =~= all);
        }
        let discovered = Discovered { date, sources, projects: ids };
        let ghost registry = self@;
        self.push_discovered(discovered);
        proof {
            assert(self@.discovered.drop_last() =~= old(self)@.discovered) by {
                lemma_projects_keep_snapshots(old(self)@, all);
                assert(self@.discovered.drop_last() =~= registry.discovered);
            }
            lemma_projects_keep_downloads(old(self)@, all);
            assert forall|id: u64| registry.is_id_of_one(all, id) == self@.is_id_of_one(all, id) by {
                if registry.is_id_of_one(all, id) {
                    let k = choose|k: int|
                        0 <= k < all.len() && registry.has_url_at((#[trigger] all[k]).text, id as int);
                    assert(self@.has_url_at(all[k].text, id as int));
                }
                if self@.is_id_of_one(all, id) {
                    let k = choose|k: int|
                        0 <= k < all.len() && self@.has_url_at((#[trigger] all[k]).text, id as int);
                    assert(registry.has_url_at(all[k].text, id as int));
                }
            }
        }
    }

    /// Records a discovery poll made at `date`. `sources` is the number of
    /// source files that the code search matched, `names` the repository
    /// names (`owner/name`) of its results, where a result has one. A name
    /// that has no URL on the code host fails the whole call, and the
    /// store stays as it was.
    pub fn record_discovery_at(&mut self, date: i64, sources: u64, names: &Vec<Option<String>>) -> (outcome:
        Result<(), DiscoveryError>)
        requires
            old(self).wf(),
        ensures
            final(self).wf(),
            match outcome {
                Ok(()) => {
                    let urls = repository_urls(names_view(names@));
                    &&& forall|i: int| !unreadable_at(names_view(names@), i)
                    &&& final(self)@.projects == old(self)@.with_projects(urls).projects
                    &&& final(self)@.downloads == old(self)@.downloads
                    &&& final(self)@.installer_downloads == old(self)@.installer_downloads
                    &&& final(self)@.discovered.len() == old(self)@.discovered.len() + 1
                    &&& final(self)@.discovered.drop_last() == old(self)@.discovered
                    &&& final(self)@.discovered.last().date == date
                    &&& final(self)@.discovered.last().sources == sources
                    &&& final(self)@.lists_ids_of(urls, final(self)@.discovered.last().projects)
                },
                Err(error) => {
                    &&& final(self)@ == old(self)@
                    &&& first_unreadable(names_view(names@), error)
                },
            },
    {
        match read_repositories(names) {
            Ok(urls) => {
                self.record_urls(date, sources, urls);
                Ok(())
            },
            Err(error) => Err(error),
        }
    }

    /// Records a discovery poll as [`Db::record_discovery_at`] does, dated
    /// with the present moment.
    pub fn record_discovery(&mut self, sources: u64, names: &Vec<Option<String>>) -> (outcome: Result<
        (),
        DiscoveryError,
    >)
        requires
            old(self).wf(),
        ensures
            final(self).wf(),
            match outcome {
                Ok(()) => {
                    let urls = repository_urls(names_view(names@));
                    &&& forall|i: int| !unreadable_at(names_view(names@), i)
                    &&& final(self)@.projects == old(self)@.with_projects(urls).projects
                    &&& final(self)@.downloads == old(self)@.downloads
                    &&& final(self)@.installer_downloads == old(self)@.installer_downloads
                    &&& final(self)@.discovered.len() == old(self)@.discovered.len() + 1
                    &&& final(self)@.discovered.drop_last() == old(self)@.discovered
                    &&& final(self)@.discovered.last().sources == sources
                    &&& final(self)@.lists_ids_of(urls, final(self)@.discovered.last().projects)
                },
                Err(error) => {
                    &&& final(self)@ == old(self)@
                    &&& first_unreadable(names_view(names@), error)
                },
            },
    {
        let date: i64 = unix_time_now();
        self.record_discovery_at(date, sources, names)
    }
}

/// In a well-formed registry a URL has one id.
pub proof fn lemma_one_id_per_url(db: DbView, text: Seq<char>, a: int, b: int)
    requires
        db.wf(),
        db.has_url_at(text, a),
        db.has_url_at(text, b),
    ensures
        a == b,
{
    if a < b {
        assert(db.projects[a].url.text != db.projects[b].url.text);
    } else if b < a {
        assert(db.projects[b].url.text != db.projects[a].url.text);
    }
}

/// Adding projects leaves the snapshots as they are.
pub proof fn lemma_projects_keep_snapshots(db: DbView, urls: Seq<RepoUrlView>)
    ensures
        db.with_projects(urls).discovered == db.discovered,
    decreases urls.len(),
{
    if urls.len() > 0 {
        lemma_projects_keep_snapshots(db, urls.drop_last());
    }
}

/// Adding projects leaves the download histories as they are.
pub proof fn lemma_projects_keep_downloads(db: DbView, urls: Seq<RepoUrlView>)
    ensures
        db.with_projects(urls).downloads == db.downloads,
        db.with_projects(urls).installer_downloads == db.installer_downloads,
    decreases urls.len(),
{
    if urls.len() > 0 {
        lemma_projects_keep_downloads(db, urls.drop_last());
    }
}

} // verus!
