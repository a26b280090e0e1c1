use veryl_discovery::db::{BuildLog, Db, Discovered, Project};
use veryl_discovery::downloads::{Download, Track};
use veryl_discovery::platform::{Platform, PlatformCounts};
use veryl_discovery::release::{GithubRelease, GithubReleaseAsset, ReleaseError};
use veryl_discovery::repo_url::{RepoUrl, UrlError};
use veryl_discovery::version::{SemVer, VersionError};

fn project(url: &str) -> Project {
    Project::new(RepoUrl::parse(url).unwrap())
}

fn asset(name: &str, download_count: u64) -> GithubReleaseAsset {
    GithubReleaseAsset { name: name.to_string(), download_count }
}

fn release(name: &str, assets: Vec<GithubReleaseAsset>) -> GithubRelease {
    GithubRelease { name: name.to_string(), assets }
}

fn linux(count: u64) -> PlatformCounts {
    let mut counts = PlatformCounts::new();
    counts.insert(Platform::X86_64Linux, count);
    counts
}

#[test]
fn new_store_is_empty() {
    let db = Db::new();
    assert_eq!(db.project_count(), 0);
    assert!(db.discovered.is_empty());
    assert!(db.downloads.is_empty());
    assert!(db.installer_downloads.is_empty());
    assert!(db.get_project(0).is_none());
}

#[test]
fn ids_are_assigned_in_order_of_first_sight() {
    let mut db = Db::new();
    assert_eq!(db.insert_project(project("https://github.com/a/one")), 0);
    assert_eq!(db.insert_project(project("https://github.com/b/two")), 1);
    assert_eq!(db.insert_project(project("https://github.com/c/three")), 2);
    assert_eq!(db.project_count(), 3);
    assert_eq!(db.get_project(1).unwrap().url.as_str(), "https://github.com/b/two");
    assert!(db.get_project(3).is_none());
}

#[test]
fn inserting_a_url_twice_gives_one_id() {
    let mut db = Db::new();
    db.insert_project(project("https://github.com/a/one"));
    let first = db.insert_project(project("https://github.com/b/two"));
    let size = db.project_count();
    let second = db.insert_project(project("https://github.com/b/two"));
    assert_eq!(first, 1);
    assert_eq!(second, first);
    assert_eq!(db.project_count(), size);
}

#[test]
fn urls_are_compared_in_canonical_form() {
    let mut db = Db::new();
    let first = db.insert_project(project("https://github.com/a/one"));
    let second = db.insert_project(project("HTTPS://GitHub.com/a/one"));
    assert_eq!(first, second);
    assert_eq!(db.project_count(), 1);
}

#[test]
fn find_project_finds_by_url() {
    let mut db = Db::new();
    db.insert_project(project("https://github.com/a/one"));
    db.insert_project(project("https://github.com/b/two"));
    let known = RepoUrl::parse("https://github.com/b/two").unwrap();
    let unknown = RepoUrl::parse("https://github.com/b/other").unwrap();
    assert_eq!(db.find_project(&known), Some(1));
    assert_eq!(db.find_project(&unknown), None);
}

#[test]
fn an_inserted_project_keeps_its_history() {
    let mut db = Db::new();
    let mut prj = project("https://github.com/a/one");
    prj.build_logs.push(BuildLog {
        rev: "abc".to_string(),
        veryl_version: "0.5.0".to_string(),
        result: true,
    });
    let id = db.insert_project(prj);
    let stored = db.get_project(id).unwrap();
    assert_eq!(stored.build_logs.len(), 1);
    assert_eq!(stored.latest_log().unwrap().rev, "abc");
}

#[test]
fn discoveries_are_appended() {
    let mut db = Db::new();
    db.push_discovered(Discovered { date: 10, sources: 5, projects: vec![0, 1] });
    db.push_discovered(Discovered { date: 20, sources: 7, projects: vec![0, 1, 2] });
    assert_eq!(db.discovered.len(), 2);
    assert_eq!(db.discovered[0].date, 10);
    assert_eq!(db.discovered[1].sources, 7);
    assert_eq!(db.discovered[1].projects, vec![0, 1, 2]);
}

#[test]
fn url_parsing_gives_text_and_path() {
    let url = RepoUrl::parse("https://github.com/veryl-lang/veryl").unwrap();
    assert_eq!(url.as_str(), "https://github.com/veryl-lang/veryl");
    assert_eq!(url.path, "/veryl-lang/veryl");
    assert_eq!(url.workspace_path(), "veryl-lang/veryl");
    assert!(url.is_rooted());
}

#[test]
fn url_on_host_prepends_the_host() {
    let url = RepoUrl::on_host("veryl-lang/veryl").unwrap();
    assert_eq!(url.as_str(), "https://github.com/veryl-lang/veryl");
    assert_eq!(url.workspace_path(), "veryl-lang/veryl");
}

#[test]
fn url_errors() {
    assert_eq!(RepoUrl::parse("not a url").unwrap_err(), UrlError::Malformed);
    assert_eq!(RepoUrl::parse("mailto:someone@example.com").unwrap_err(), UrlError::Unrooted);
}

#[test]
fn url_same_compares_text() {
    let a = RepoUrl::parse("https://github.com/a/one").unwrap();
    let b = RepoUrl::parse("https://github.com/a/one").unwrap();
    let c = RepoUrl::parse("https://github.com/a/two").unwrap();
    assert!(a.same(&b));
    assert!(!a.same(&c));
}

#[test]
fn version_parse_reads_all_parts() {
    let v = SemVer::parse("1.2.3-alpha.1+build.5").unwrap();
    assert_eq!((v.major, v.minor, v.patch), (1, 2, 3));
    assert_eq!(v.pre, "alpha.1");
    assert_eq!(v.build, "build.5");
    let plain = SemVer::parse("0.13.2").unwrap();
    assert_eq!((plain.major, plain.minor, plain.patch), (0, 13, 2));
    assert_eq!(plain.pre, "");
    assert_eq!(plain.build, "");
}

#[test]
fn version_parse_is_strict() {
    assert_eq!(SemVer::parse("1.0").unwrap_err(), VersionError::Malformed);
    assert_eq!(SemVer::parse("1.0.01").unwrap_err(), VersionError::Malformed);
    assert_eq!(SemVer::parse("").unwrap_err(), VersionError::Malformed);
    assert_eq!(SemVer::parse("v1.0.0").unwrap_err(), VersionError::Malformed);
}

#[test]
fn version_from_tag_strips_the_marker() {
    let v = SemVer::from_tag("v0.13.2").unwrap();
    assert_eq!((v.major, v.minor, v.patch), (0, 13, 2));
    assert_eq!(SemVer::from_tag("0.13.2").unwrap_err(), VersionError::MissingMarker);
    assert_eq!(SemVer::from_tag("").unwrap_err(), VersionError::MissingMarker);
    assert_eq!(SemVer::from_tag("v0.13").unwrap_err(), VersionError::Malformed);
    assert_eq!(SemVer::from_tag("vv0.13.2").unwrap_err(), VersionError::Malformed);
}

#[test]
fn version_same_compares_every_part() {
    let a = SemVer::parse("0.13.2").unwrap();
    assert!(a.same(&SemVer::new(0, 13, 2)));
    assert!(!a.same(&SemVer::new(0, 13, 3)));
    assert!(!a.same(&SemVer::parse("0.13.2-rc1").unwrap()));
    assert!(!a.same(&SemVer::parse("0.13.2+meta").unwrap()));
    assert!(a.clone().same(&a));
}

#[test]
fn assets_are_classified_by_suffix() {
    assert_eq!(Platform::classify("veryl-x86_64-linux.zip"), Some(Platform::X86_64Linux));
    assert_eq!(Platform::classify("veryl-x86_64-mac.zip"), Some(Platform::X86_64Mac));
    assert_eq!(Platform::classify("veryl-x86_64-windows.zip"), Some(Platform::X86_64Windows));
    assert_eq!(Platform::classify("veryl-aarch64-mac.zip"), Some(Platform::Aarch64Mac));
    assert_eq!(Platform::classify("verylup-aarch64-mac.zip"), Some(Platform::Aarch64Mac));
    assert_eq!(Platform::classify("veryl-riscv-linux.zip"), None);
    assert_eq!(Platform::classify("veryl-x86_64-linux.zip.sha256"), None);
    assert_eq!(Platform::classify("linux.zip"), None);
    assert_eq!(Platform::classify(""), None);
}

#[test]
fn platform_counts_hold_one_count_per_platform() {
    let mut counts = PlatformCounts::new();
    assert_eq!(counts.get(Platform::X86_64Mac), None);
    counts.insert(Platform::X86_64Mac, 3);
    counts.insert(Platform::X86_64Mac, 4);
    counts.insert(Platform::Aarch64Mac, 9);
    assert_eq!(counts.get(Platform::X86_64Mac), Some(4));
    assert_eq!(counts.get(Platform::Aarch64Mac), Some(9));
    assert_eq!(counts.get(Platform::X86_64Linux), None);
    assert_eq!(counts.get(Platform::X86_64Windows), None);
    let mut other = PlatformCounts::new();
    other.insert(Platform::Aarch64Mac, 9);
    assert!(!counts.same(&other));
    other.insert(Platform::X86_64Mac, 4);
    assert!(counts.same(&other));
}

#[test]
fn identical_counts_are_recorded_once() {
    let mut db = Db::new();
    let version = SemVer::new(0, 13, 2);
    db.record_download(Track::Compiler, version.clone(), Download { date: 100, counts: linux(5) });
    db.record_download(Track::Compiler, version.clone(), Download { date: 200, counts: linux(5) });
    assert_eq!(db.downloads.len(), 1);
    assert_eq!(db.downloads[0].samples, vec![Download { date: 100, counts: linux(5) }]);
}

#[test]
fn changed_counts_are_appended() {
    let mut db = Db::new();
    let version = SemVer::new(0, 13, 2);
    db.record_download(Track::Compiler, version.clone(), Download { date: 100, counts: linux(5) });
    db.record_download(Track::Compiler, version.clone(), Download { date: 200, counts: linux(6) });
    db.record_download(Track::Compiler, version.clone(), Download { date: 300, counts: linux(6) });
    db.record_download(Track::Compiler, version.clone(), Download { date: 400, counts: linux(5) });
    assert_eq!(
        db.downloads[0].samples,
        vec![
            Download { date: 100, counts: linux(5) },
            Download { date: 200, counts: linux(6) },
            Download { date: 400, counts: linux(5) },
        ]
    );
}

#[test]
fn tracks_and_versions_have_separate_histories() {
    let mut db = Db::new();
    db.record_download(Track::Compiler, SemVer::new(0, 1, 0), Download { date: 1, counts: linux(5) });
    db.record_download(Track::Installer, SemVer::new(0, 1, 0), Download { date: 2, counts: linux(5) });
    db.record_download(Track::Compiler, SemVer::new(0, 2, 0), Download { date: 3, counts: linux(5) });
    assert_eq!(db.downloads.len(), 2);
    assert_eq!(db.installer_downloads.len(), 1);
    assert_eq!(db.downloads[0].samples.len(), 1);
    assert_eq!(db.downloads[1].samples.len(), 1);
    assert_eq!(db.installer_downloads[0].samples[0].date, 2);
}

#[test]
fn releases_are_read_and_merged() {
    let mut db = Db::new();
    let releases = vec![
        release(
            "v0.2.0",
            vec![asset("veryl-x86_64-linux.zip", 7), asset("veryl-aarch64-mac.zip", 2)],
        ),
        release("v0.1.0", vec![asset("veryl-x86_64-windows.zip", 1)]),
    ];
    assert_eq!(db.push_release_at(&releases, Track::Compiler, 1000), Ok(()));
    assert_eq!(db.push_release_at(&releases, Track::Compiler, 2000), Ok(()));
    assert_eq!(db.downloads.len(), 2);
    assert!(db.downloads[0].version.same(&SemVer::new(0, 2, 0)));
    assert_eq!(db.downloads[0].samples.len(), 1);
    assert_eq!(db.downloads[0].samples[0].date, 1000);
    assert_eq!(db.downloads[0].samples[0].counts.get(Platform::X86_64Linux), Some(7));
    assert_eq!(db.downloads[0].samples[0].counts.get(Platform::Aarch64Mac), Some(2));
    assert_eq!(db.downloads[0].samples[0].counts.get(Platform::X86_64Mac), None);
    assert!(db.downloads[1].version.same(&SemVer::new(0, 1, 0)));
    assert_eq!(db.downloads[1].samples.len(), 1);

    let later = vec![release("v0.2.0", vec![asset("veryl-x86_64-linux.zip", 8), asset("veryl-aarch64-mac.zip", 2)])];
    assert_eq!(db.push_release_at(&later, Track::Compiler, 3000), Ok(()));
    assert_eq!(db.downloads[0].samples.len(), 2);
    assert_eq!(db.downloads[0].samples[1].date, 3000);
    assert_eq!(db.downloads[0].samples[1].counts.get(Platform::X86_64Linux), Some(8));
    assert_eq!(db.downloads[1].samples.len(), 1);
}

#[test]
fn a_release_without_assets_is_recorded_with_empty_counts() {
    let mut db = Db::new();
    let releases = vec![release("v0.1.0", vec![])];
    assert_eq!(db.push_release_at(&releases, Track::Installer, 5), Ok(()));
    assert_eq!(db.installer_downloads.len(), 1);
    assert_eq!(db.installer_downloads[0].samples, vec![Download { date: 5, counts: PlatformCounts::new() }]);
}

#[test]
fn a_bad_tag_refuses_the_whole_list() {
    let mut db = Db::new();
    let releases = vec![
        release("v0.2.0", vec![asset("veryl-x86_64-linux.zip", 7)]),
        release("nightly", vec![asset("veryl-x86_64-linux.zip", 1)]),
        release("v0.1", vec![]),
    ];
    assert_eq!(
        db.push_release_at(&releases, Track::Compiler, 1000),
        Err(ReleaseError::BadVersionTag { release: 1 })
    );
    assert!(db.downloads.is_empty());
}

#[test]
fn an_unknown_asset_refuses_the_whole_list() {
    let mut db = Db::new();
    let releases = vec![
        release("v0.2.0", vec![asset("veryl-x86_64-linux.zip", 7)]),
        release(
            "v0.1.0",
            vec![
                asset("veryl-x86_64-linux.zip", 1),
                asset("veryl-sparc-solaris.zip", 1),
                asset("veryl-other.zip", 1),
            ],
        ),
    ];
    assert_eq!(
        db.push_release_at(&releases, Track::Compiler, 1000),
        Err(ReleaseError::UnknownAsset { release: 1, asset: 1 })
    );
    assert!(db.downloads.is_empty());
}

#[test]
fn a_bad_tag_is_reported_before_a_bad_asset() {
    let mut db = Db::new();
    let releases = vec![release("0.1.0", vec![asset("veryl-unknown.zip", 1)])];
    assert_eq!(
        db.push_release_at(&releases, Track::Compiler, 1000),
        Err(ReleaseError::BadVersionTag { release: 0 })
    );
}

#[test]
fn push_release_dates_with_the_clock() {
    let mut db = Db::new();
    let releases = vec![release("v0.2.0", vec![asset("veryl-x86_64-linux.zip", 7)])];
    assert_eq!(db.push_release(&releases, Track::Compiler), Ok(()));
    assert_eq!(db.downloads.len(), 1);
    assert_eq!(db.downloads[0].samples.len(), 1);
    // Any moment after the year 2020 will do.
    assert!(db.downloads[0].samples[0].date > 1_577_836_800);
    assert_eq!(db.push_release(&releases, Track::Compiler), Ok(()));
    assert_eq!(db.downloads[0].samples.len(), 1);
}

#[test]
fn build_logs_are_appended_in_a_batch() {
    let mut db = Db::new();
    db.insert_project(project("https://github.com/a/one"));
    db.insert_project(project("https://github.com/b/two"));
    let log = |rev: &str, result: bool| BuildLog {
        rev: rev.to_string(),
        veryl_version: "0.5.0".to_string(),
        result,
    };
    db.append_build_logs(vec![(1, log("r1", true)), (0, log("r0", false)), (7, log("r7", true)), (1, log("r2", false))]);
    assert_eq!(db.project_count(), 2);
    let one = db.get_project(0).unwrap();
    assert_eq!(one.build_logs.len(), 1);
    assert_eq!(one.build_logs[0].rev, "r0");
    assert!(!one.build_logs[0].result);
    let two = db.get_project(1).unwrap();
    assert_eq!(two.build_logs.len(), 2);
    assert_eq!(two.build_logs[0].rev, "r1");
    assert_eq!(two.build_logs[1].rev, "r2");
    assert_eq!(two.latest_log().unwrap().rev, "r2");
}

#[test]
fn a_single_build_log_is_appended() {
    let mut db = Db::default();
    db.insert_project(project("https://github.com/a/one"));
    let log = BuildLog { rev: "r".to_string(), veryl_version: "0.5.0".to_string(), result: true };
    db.append_build_log(0, log.clone());
    db.append_build_log(3, log.clone());
    assert_eq!(db.project_count(), 1);
    assert_eq!(db.get_project(0).unwrap().build_logs.len(), 1);
    assert_eq!(db.get_project(0).unwrap().latest_log().unwrap().veryl_version, "0.5.0");
    assert!(log.clone().result);
}

#[test]
fn a_project_without_builds_has_no_latest_log() {
    let prj = project("https://github.com/a/one");
    assert!(prj.latest_log().is_none());
    assert!(prj.build_logs.is_empty());
}

#[test]
fn unrooted_urls_are_refused() {
    let rooted = RepoUrl { text: "https://h/a".to_string(), path: "/a".to_string() };
    let unrooted = RepoUrl { text: "mailto:a@h".to_string(), path: "a@h".to_string() };
    assert!(RepoUrl::check_rooted(rooted.clone()).is_ok());
    assert_eq!(RepoUrl::check_rooted(unrooted.clone()).unwrap_err(), UrlError::Unrooted);
    assert!(!unrooted.is_rooted());
    assert_eq!(rooted.workspace_path(), "a");
}
