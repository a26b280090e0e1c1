//! The persistent store: discovery snapshots, the project registry with
//! each project's build history, and the download history of releases.

use std::collections::HashMap;
use vstd::prelude::*;

use crate::clock::unix_time_now;
use crate::downloads::{
    distinct_versions, histories_wf, history_of, lemma_merge_settled, merge_sample, record,
    record_sample, series_map, series_view, settled, Download, DownloadSeries, Track,
};
use crate::release::{
    first_error, read_release, releases_view, GithubRelease, ReleaseError, ReleaseView,
};
use crate::repo_url::{RepoUrl, RepoUrlView};
use crate::version::{SemVer, SemVerView};

verus! {

/// The outcome of building one project at one revision with one compiler.
#[derive(Debug)]
pub struct BuildLog {
    /// The revision that was built; empty when the checkout failed.
    pub rev: String,
    /// The version of the compiler that was used.
    pub veryl_version: String,
    /// Whether every build root of the project built.
    pub result: bool,
}

/// What a [`BuildLog`] stands for.
pub struct BuildLogView {
    pub rev: Seq<char>,
    pub veryl_version: Seq<char>,
    pub result: bool,
}

impl View for BuildLog {
    type V = BuildLogView;

    open spec fn view(&self) -> BuildLogView {
        BuildLogView { rev: self.rev@, veryl_version: self.veryl_version@, result: self.result }
    }
}

impl Clone for BuildLog {
    fn clone(&self) -> (copy: Self)
        ensures
            copy == *self,
    {
        BuildLog {
            rev: self.rev.clone(),
            veryl_version: self.veryl_version.clone(),
            result: self.result,
        }
    }
}

/// The views of a sequence of build logs, in order.
pub open spec fn logs_view(logs: Seq<BuildLog>) -> Seq<BuildLogView> {
    Seq::new(logs.len(), |i: int| logs[i]@)
}

/// A tracked project: a repository and the history of its builds, oldest
/// first.
#[derive(Debug)]
pub struct Project {
    pub url: RepoUrl,
    pub build_logs: Vec<BuildLog>,
}

/// What a [`Project`] stands for.
pub struct ProjectView {
    pub url: RepoUrlView,
    pub build_logs: Seq<BuildLogView>,
}

impl View for Project {
    type V = ProjectView;

    open spec fn view(&self) -> ProjectView {
        ProjectView { url: self.url@, build_logs: logs_view(self.build_logs@) }
    }
}

impl ProjectView {
    /// The most recent build log, if the project was ever built.
    pub open spec fn latest(self) -> Option<BuildLogView> {
        if self.build_logs.len() > 0 {
            Some(self.build_logs.last())
        } else {
            None
        }
    }
}

impl Project {
    /// A project that has not been built yet.
    pub fn new(url: RepoUrl) -> (project: Project)
        ensures
            project@ == (ProjectView { url: url@, build_logs: Seq::empty() }),
    {
        let project = Project { url, build_logs: Vec::new() };
        assert(project@.build_logs =~= Seq::empty());
        project
    }

    /// The most recent build log, if the project was ever built.
    pub fn latest_log(&self) -> (log: Option<&BuildLog>)
        ensures
            match log {
                Some(l) => self@.latest() == Some(l@),
                None => self@.latest() is None,
            },
    {
        let n: usize = self.build_logs.len();
        if n == 0 {
            None
        } else {
            Some(&self.build_logs[n - 1])
        }
    }
}

/// What one discovery poll found.
#[derive(Debug)]
pub struct Discovered {
    /// When the poll was made, in seconds since the Unix epoch.
    pub date: i64,
    /// How many source files the code search matched.
    pub sources: u64,
    /// The ids of the projects that the poll saw.
    pub projects: Vec<u64>,
}

/// What a [`Discovered`] stands for.
pub struct DiscoveredView {
    pub date: i64,
    pub sources: u64,
    pub projects: Seq<u64>,
}

impl View for Discovered {
    type V = DiscoveredView;

    open spec fn view(&self) -> DiscoveredView {
        DiscoveredView { date: self.date, sources: self.sources, projects: self.projects@ }
    }
}

/// The views of a sequence of snapshots, in order.
pub open spec fn snapshots_view(snapshots: Seq<Discovered>) -> Seq<DiscoveredView> {
    Seq::new(snapshots.len(), |i: int| snapshots[i]@)
}

/// The store.
#[derive(Debug)]
pub struct Db {
    /// The discovery snapshots, oldest first.
    pub discovered: Vec<Discovered>,
    /// The project registry, by project id.
    pub projects: HashMap<u64, Project>,
    /// The download history of the compiler's releases.
    pub downloads: Vec<DownloadSeries>,
    /// The download history of the installer's releases.
    pub installer_downloads: Vec<DownloadSeries>,
}

/// What a [`Db`] stands for. The registry is a sequence: a project's id
/// is its position.
pub struct DbView {
    pub discovered: Seq<DiscoveredView>,
    pub projects: Seq<ProjectView>,
    pub downloads: Map<SemVerView, Seq<Download>>,
    pub installer_downloads: Map<SemVerView, Seq<Download>>,
}

/// No two projects share a canonical URL, and every URL is rooted.
pub open spec fn registry_wf(projects: Seq<ProjectView>) -> bool {
    &&& forall|i: int, j: int|
        0 <= i < j < projects.len() ==> #[trigger] projects[i].url.text
            != #[trigger] projects[j].url.text
    &&& forall|i: int| 0 <= i < projects.len() ==> (#[trigger] projects[i]).url.rooted()
}

impl DbView {
    /// The id of the project with the canonical URL `text` is `id`.
    pub open spec fn has_url_at(self, text: Seq<char>, id: int) -> bool {
        0 <= id < self.projects.len() && self.projects[id].url.text == text
    }

    /// Some project has the canonical URL `text`.
    pub open spec fn has_url(self, text: Seq<char>) -> bool {
        exists|id: int| self.has_url_at(text, id)
    }

    /// No two projects share a canonical URL, every URL is rooted, and
    /// every download history is non-empty and without two consecutive
    /// samples of equal counts.
    pub open spec fn wf(self) -> bool {
        &&& registry_wf(self.projects)
        &&& histories_wf(self.downloads)
        &&& histories_wf(self.installer_downloads)
    }

    /// The latest build log of each project, by id.
    pub open spec fn latest_logs(self) -> Seq<Option<BuildLogView>> {
        Seq::new(self.projects.len(), |id: int| self.projects[id].latest())
    }

    /// The store with `log` appended to the build history of the project
    /// `id`; the store itself where there is no such project.
    pub open spec fn with_log(self, id: u64, log: BuildLogView) -> DbView {
        if id < self.projects.len() {
            let project = self.projects[id as int];
            DbView {
                projects: self.projects.update(
                    id as int,
                    ProjectView { build_logs: project.build_logs.push(log), ..project },
                ),
                ..self
            }
        } else {
            self
        }
    }

    /// The store with each of `logs` appended to the build history of its
    /// project, in the order of `logs`.
    pub open spec fn with_logs(self, logs: Seq<(u64, BuildLogView)>) -> DbView
        decreases logs.len(),
    {
        if logs.len() == 0 {
            self
        } else {
            self.with_logs(logs.drop_last()).with_log(logs.last().0, logs.last().1)
        }
    }

    /// The download histories of `track`, by version.
    pub open spec fn histories(self, track: Track) -> Map<SemVerView, Seq<Download>> {
        match track {
            Track::Compiler => self.downloads,
            Track::Installer => self.installer_downloads,
        }
    }

    /// The store after `sample` was recorded for `version` on `track`.
    pub open spec fn with_sample(self, track: Track, version: SemVerView, sample: Download) -> DbView {
        match track {
            Track::Compiler => DbView { downloads: record(self.downloads, version, sample), ..self },
            Track::Installer => DbView {
                installer_downloads: record(self.installer_downloads, version, sample),
                ..self
            },
        }
    }

    /// The store after the download counts of `releases`, read at `date`,
    /// were recorded on `track`, one release after the other.
    pub open spec fn with_releases(self, track: Track, releases: Seq<ReleaseView>, date: i64) -> DbView
        decreases releases.len(),
    {
        if releases.len() == 0 {
            self
        } else {
            self.with_releases(track, releases.drop_last(), date).with_sample(
                track,
                releases.last().version(),
                releases.last().sample(date),
            )
        }
    }
}

impl View for Db {
    type V = DbView;

    open spec fn view(&self) -> DbView {
        DbView {
            discovered: snapshots_view(self.discovered@),
            projects: Seq::new(self.projects@.len(), |id: int| self.projects@[id as u64]@),
            downloads: series_map(series_view(self.downloads@)),
            installer_downloads: series_map(series_view(self.installer_downloads@)),
        }
    }
}

impl Default for Db {
    /// An empty store.
    fn default() -> (db: Db)
        ensures
            db.wf(),
            db@.discovered.len() == 0,
            db@.projects.len() == 0,
            db@.downloads == Map::<SemVerView, Seq<Download>>::empty(),
            db@.installer_downloads == Map::<SemVerView, Seq<Download>>::empty(),
    {
        Db::new()
    }
}

impl Db {
    /// The ids in use are exactly those below the number of projects.
    pub open spec fn dense(&self) -> bool {
        forall|id: u64| self.projects@.contains_key(id) <==> id < self.projects@.len()
    }

    /// The store's invariant: ids are dense, no version has two download
    /// series, and what the store stands for is well-formed.
    pub open spec fn wf(&self) -> bool {
        &&& self.dense()
        &&& distinct_versions(series_view(self.downloads@))
        &&& distinct_versions(series_view(self.installer_downloads@))
        &&& self@.wf()
    }

    /// An empty store.
    pub fn new() -> (db: Db)
        ensures
            db.wf(),
            db@.discovered.len() == 0,
            db@.projects.len() == 0,
            db@.downloads == Map::<SemVerView, Seq<Download>>::empty(),
            db@.installer_downloads == Map::<SemVerView, Seq<Download>>::empty(),
    {
        Db {
            discovered: Vec::new(),
            projects: HashMap::new(),
            downloads: Vec::new(),
            installer_downloads: Vec::new(),
        }
    }

    /// The number of projects, which is also the next free id.
    pub fn project_count(&self) -> (count: u64)
        ensures
            count == self@.projects.len(),
    {
        self.projects.len() as u64
    }

    /// Appends a discovery snapshot.
    pub fn push_discovered(&mut self, discovered: Discovered)
        ensures
            final(self)@ == (DbView {
                discovered: old(self)@.discovered.push(discovered@),
                ..old(self)@
            }),
            old(self).wf() ==> final(self).wf(),
    {
        self.discovered.push(discovered);
        assert(self@.discovered =~= old(self)@.discovered.push(discovered@));
    }

    /// The project with the given id.
    pub fn get_project(&self, id: u64) -> (found: Option<&Project>)
        requires
            self.wf(),
        ensures
            match found {
                Some(project) => id < self@.projects.len() && project@ == self@.projects[id as int],
                None => id >= self@.projects.len(),
            },
    {
        self.projects.get(&id)
    }

    /// The id of the project whose canonical URL is that of `url`.
    pub fn find_project(&self, url: &RepoUrl) -> (found: Option<u64>)
        requires
            self.wf(),
        ensures
            match found {
                Some(id) => self@.has_url_at(url@.text, id as int),
                None => !self@.has_url(url@.text),
            },
    {
        let count: u64 = self.project_count();
        let mut id: u64 = 0;
        while id < count
            invariant
                self.wf(),
                count == self@.projects.len(),
                id <= count,
                forall|k: int| 0 <= k < id ==> !self@.has_url_at(url@.text, k),
            decreases count - id,
        {
            match self.projects.get(&id) {
                Some(project) => {
                    if project.url.same(url) {
                        return Some(id);
                    }
                },
                None => {},
            }
            id += 1;
        }
        None
    }

    /// Registers a project unless one with the same canonical URL is
    /// registered already, and returns the id under which it is known.
    /// A new project gets the number of projects so far as its id.
    pub fn insert_project(&mut self, prj: Project) -> (id: u64)
        requires
            old(self).wf(),
            prj.url.wf(),
        ensures
            final(self).wf(),
            old(self)@.has_url(prj@.url.text) ==> {
                &&& old(self)@.has_url_at(prj@.url.text, id as int)
                &&& final(self)@ == old(self)@
            },
            !old(self)@.has_url(prj@.url.text) ==> {
                &&& id == old(self)@.projects.len()
                &&& final(self)@ == (DbView {
                    projects: old(self)@.projects.push(prj@),
                    ..old(self)@
                })
            },
    {
        match self.find_project(&prj.url) {
            Some(id) => id,
            None => {
                let id: u64 = self.project_count();
                let ghost before = self.projects@;
                self.projects.insert(id, prj);
                proof {
                    assert(self.projects@ == before.insert(id, prj));
                    assert(!before.contains_key(id));
                    assert(self.projects@.len() == before.len() + 1);
                    assert(self@.projects =~= old(self)@.projects.push(prj@));
                    assert forall|i: int, j: int|
                        0 <= i < j < self@.projects.len() implies #[trigger] self@.projects[i].url.text
                        != #[trigger] self@.projects[j].url.text by {
                        if j == id {
                            assert(!old(self)@.has_url_at(prj@.url.text, i));
                        }
                    }
                }
                id
            },
        }
    }
}

impl Db {
    /// Records one sample of download counts under the merge rule: it is
    /// appended to the history of `version` on `track` unless that history
    /// ends in a sample with the same counts; the first sample of a
    /// version is always kept.
    pub fn record_download(&mut self, track: Track, version: SemVer, sample: Download)
        requires
            old(self).wf(),
        ensures
            final(self).wf(),
            final(self)@ == old(self)@.with_sample(track, version@, sample),
    {
        proof {
            let before = history_of(self@.histories(track), version@);
            assert(settled(before)) by {
                if self@.histories(track).contains_key(version@) {
                    assert(settled(self@.histories(track)[version@]));
                }
            }
            lemma_merge_settled(before, sample);
        }
        match track {
            Track::Compiler => {
                record_sample(&mut self.downloads, version, sample);
            },
            Track::Installer => {
                record_sample(&mut self.installer_downloads, version, sample);
            },
        }
        proof {
            let after = self@.histories(track);
            assert(self@.projects == old(self)@.projects);
            assert forall|v: SemVerView| #[trigger] after.contains_key(v) implies after[v].len() > 0
                && settled(after[v]) by {
                if v != version@ {
                    assert(old(self)@.histories(track).contains_key(v));
                }
            }
        }
    }

    /// Records the download counts of `releases`, read at `date`, on
    /// `track`. Each release's tag is stripped of its marker and parsed as a
    /// semantic version, its assets are sorted by platform, and the sample
    /// is recorded under the merge rule. A release that breaks the naming
    /// convention fails the whole call, and the store stays as it was.
    pub fn push_release_at(
        &mut self,
        releases: &Vec<GithubRelease>,
        track: Track,
        date: i64,
    ) -> (outcome: Result<(), ReleaseError>)
        requires
            old(self).wf(),
        ensures
            final(self).wf(),
            match outcome {
                Ok(()) => {
                    &&& forall|i: int|
                        0 <= i < releases.len() ==> (#[trigger] releases_view(
                            releases@,
                        )[i]).acceptable()
                    &&& final(self)@ == old(self)@.with_releases(
                        track,
                        releases_view(releases@),
                        date,
                    )
                },
                Err(error) => {
                    &&& first_error(releases_view(releases@), error)
                    &&& final(self)@ == old(self)@
                },
            },
    {
        let ghost all = releases_view(releases@);
        let mut records: Vec<(SemVer, Download)> = Vec::new();
        let mut i: usize = 0;
        while i < releases.len()
            invariant
                i <= releases.len(),
                all == releases_view(releases@),
                *self == *old(self),
                self.wf(),
                records.len() == i,
                forall|j: int| 0 <= j < i ==> (#[trigger] all[j]).acceptable(),
                forall|j: int|
                    0 <= j < i ==> (#[trigger] records[j]).0@ == all[j].version() && records[j].1
                        == all[j].sample(date),
            decreases releases.len() - i,
        {
            match read_release(&releases[i]) {
                Ok((version, counts)) => {
                    records.push((version, Download { date, counts }));
                },
                Err(None) => {
                    return Err(ReleaseError::BadVersionTag { release: i });
                },
                Err(Some(asset)) => {
                    return Err(ReleaseError::UnknownAsset { release: i, asset });
                },
            }
            i += 1;
        }
        let mut k: usize = 0;
        while k < records.len()
            invariant
                k <= records.len(),
                records.len() == all.len(),
                self.wf(),
                forall|j: int|
                    0 <= j < records.len() ==> (#[trigger] records[j]).0@ == all[j].version()
                        && records[j].1 == all[j].sample(date),
                self@ == old(self)@.with_releases(track, all.take(k as int), date),
            decreases records.len() - k,
        {
            let version = records[k].0.clone();
            let sample = records[k].1;
            self.record_download(track, version, sample);
            proof {
                assert(all.take(k + 1).drop_last() =~= all.take(k as int));
            }
            k += 1;
        }
        proof {
            assert(all.take(k as int) =~= all);
        }
        Ok(())
    }

    /// Records the download counts of `releases` on `track` as
    /// [`Db::push_release_at`] does, dated with the present moment.
    pub fn push_release(&mut self, releases: &Vec<GithubRelease>, track: Track) -> (outcome: Result<
        (),
        ReleaseError,
    >)
        requires
            old(self).wf(),
        ensures
            final(self).wf(),
            match outcome {
                Ok(()) => {
                    &&& forall|i: int|
                        0 <= i < releases.len() ==> (#[trigger] releases_view(
                            releases@,
                        )[i]).acceptable()
                    &&& exists|date: i64|
                        final(self)@ == old(self)@.with_releases(
                            track,
                            releases_view(releases@),
                            date,
                        )
                },
                Err(error) => {
                    &&& first_error(releases_view(releases@), error)
                    &&& final(self)@ == old(self)@
                },
            },
    {
        let date: i64 = unix_time_now();
        self.push_release_at(releases, track, date)
    }
}

/// The views of a sequence of build logs with their project ids, in order.
pub open spec fn id_logs_view(logs: Seq<(u64, BuildLog)>) -> Seq<(u64, BuildLogView)> {
    Seq::new(logs.len(), |i: int| (logs[i].0, logs[i].1@))
}

impl Db {
    /// Appends `log` to the build history of the project `id`. Nothing
    /// changes where there is no such project.
    pub fn append_build_log(&mut self, id: u64, log: BuildLog)
        requires
            old(self).wf(),
        ensures
            final(self).wf(),
            final(self)@ == old(self)@.with_log(id, log@),
    {
        let ghost before = self.projects@;
        match self.projects.remove(&id) {
            Some(project) => {
                let mut project = project;
                let ghost earlier = project@;
                proof {
                    assert(before.contains_key(id));
                    assert(project == before[id]);
                    assert(id < before.len());
                    assert(earlier == old(self)@.projects[id as int]);
                }
                project.build_logs.push(log);
                proof {
                    assert(project@.build_logs =~= earlier.build_logs.push(log@));
                }
                self.projects.insert(id, project);
                proof {
                    assert(self.projects@ =~= before.insert(id, project));
                    assert(self.projects@.dom() =~= before.dom());
                    assert(self.projects@.len() == before.len());
                    let expected = old(self)@.with_log(id, log@).projects;
                    assert(old(self).projects.len() == before.len());
                    assert(self@.projects.len() == expected.len());
                    assert forall|k: int| 0 <= k < expected.len() implies self@.projects[k]
                        == expected[k] by {
                        if k != id {
                            assert(k as u64 != id);
                            assert(self.projects@[k as u64] == before[k as u64]);
                        }
                    }
                    assert(self@.projects =~= expected);
                    let now = self@.projects;
                    let was = old(self)@.projects;
                    assert forall|i: int, j: int| 0 <= i < j < now.len() implies #[trigger] now[i].url.text
                        != #[trigger] now[j].url.text by {
                        assert(was[i].url.text != was[j].url.text);
                    }
                    assert forall|i: int| 0 <= i < now.len() implies (#[trigger] now[i]).url.rooted() by {
                        assert(was[i].url.rooted());
                    }
                }
            },
            None => {
                proof {
                    assert(self.projects@ =~= before);
                }
            },
        }
    }

    /// Appends the build logs of a finished run, each to the history of
    /// its project, in one batch.
    pub fn append_build_logs(&mut self, logs: Vec<(u64, BuildLog)>)
        requires
            old(self).wf(),
        ensures
            final(self).wf(),
            final(self)@ == old(self)@.with_logs(id_logs_view(logs@)),
    {
        let ghost all = id_logs_view(logs@);
        let mut i: usize = 0;
        proof {
            assert(all.take(0) =~= Seq::empty());
        }
        while i < logs.len()
            invariant
                i <= logs.len(),
                all == id_logs_view(logs@),
                self.wf(),
                self@ == old(self)@.with_logs(all.take(i as int)),
            decreases logs.len() - i,
        {
            let id: u64 = logs[i].0;
            let log = logs[i].1.clone();
            self.append_build_log(id, log);
            proof {
                assert(all.take(i + 1).drop_last() =~= all.take(i as int));
            }
            i += 1;
        }
        proof {
            assert(all.take(i as int) =~= all);
        }
    }
}

/// What [`Db::insert_project`] promises of the store before and after it
/// inserted `project`, and of the id it returned.
pub open spec fn inserted(before: DbView, project: ProjectView, after: DbView, id: u64) -> bool {
    &&& before.has_url(project.url.text) ==> before.has_url_at(project.url.text, id as int) && after
        == before
    &&& !before.has_url(project.url.text) ==> id == before.projects.len() && after == (DbView {
        projects: before.projects.push(project),
        ..before
    })
}

/// Inserting a project whose canonical URL the registry already holds
/// changes nothing: of two projects with one URL, inserted one after the
/// other, the second gets the id of the first, and the registry does not
/// grow again.
pub proof fn lemma_insert_same_url_twice(
    db: DbView,
    first: ProjectView,
    once: DbView,
    first_id: u64,
    second: ProjectView,
    twice: DbView,
    second_id: u64,
)
    requires
        db.wf(),
        first.url.text == second.url.text,
        inserted(db, first, once, first_id),
        inserted(once, second, twice, second_id),
    ensures
        first_id == second_id,
        twice == once,
        twice.projects.len() == once.projects.len(),
{
    assert(once.has_url_at(second.url.text, first_id as int)) by {
        if !db.has_url(first.url.text) {
            assert(once.projects[db.projects.len() as int] == first);
        }
    }
    assert(once.has_url(second.url.text));
    assert(once.has_url_at(second.url.text, second_id as int));
    if first_id != second_id {
        let a = first_id as int;
        let b = second_id as int;
        if db.has_url(first.url.text) {
            assert(db.projects[a].url.text == db.projects[b].url.text);
            if a < b {
                assert(db.projects[a].url.text != db.projects[b].url.text);
            } else {
                assert(db.projects[b].url.text != db.projects[a].url.text);
            }
        } else {
            assert(a == db.projects.len());
            assert(b < db.projects.len());
            assert(db.projects[b] == once.projects[b]);
            assert(db.has_url_at(first.url.text, b));
        }
    }
}

/// Recording the same counts twice for one version appends one sample at
/// most: the second recording changes nothing, whatever its date.
pub proof fn lemma_same_counts_recorded_once(
    db: DbView,
    track: Track,
    version: SemVerView,
    first: Download,
    second: Download,
)
    requires
        first.counts == second.counts,
    ensures
        db.with_sample(track, version, first).with_sample(track, version, second) == db.with_sample(
            track,
            version,
            first,
        ),
        !db.histories(track).contains_key(version) ==> db.with_sample(
            track,
            version,
            first,
        ).with_sample(track, version, second).histories(track)[version] == seq![first],
        db.histories(track).contains_key(version) ==> db.with_sample(track, version, first).with_sample(
            track,
            version,
            second,
        ).histories(track)[version].len() <= db.histories(track)[version].len() + 1,
{
    let once = db.with_sample(track, version, first);
    let twice = once.with_sample(track, version, second);
    let before = history_of(db.histories(track), version);
    let merged = merge_sample(before, first);
    assert(once.histories(track)[version] == merged);
    assert(merged.last().counts == second.counts);
    assert(twice.histories(track) =~= once.histories(track));
    if !db.histories(track).contains_key(version) {
        assert(merged =~= seq![first]);
    }
}

} // verus!
