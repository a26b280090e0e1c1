//! What the adoption chart shows: for each discovery snapshot the number
//! of source files and the number of projects, over time, and the ranges
//! of its axes.

use vstd::prelude::*;

use crate::db::{Db, Discovered, DiscoveredView};

verus! {

/// One point of the chart.
#[derive(Clone, Copy, Debug, PartialEq, Eq, Structural)]
pub struct ChartPoint {
    /// The moment of the snapshot, in seconds since the Unix epoch.
    pub date: i64,
    /// The number of source files found.
    pub sources: u64,
    /// The number of projects seen.
    pub projects: usize,
}

/// The two series of the chart, which share their dates, and the ranges of
/// the axes.
#[derive(Debug)]
pub struct Chart {
    /// The points, one for each snapshot, oldest snapshot first.
    pub points: Vec<ChartPoint>,
    /// Where the time axis begins.
    pub x_min: i64,
    /// Where the time axis ends.
    pub x_max: i64,
    /// Where the axis of the source counts ends; it begins at 0.
    pub sources_max: u64,
    /// Where the axis of the project counts ends; it begins at 0.
    pub projects_max: usize,
}

/// The moment at which the time axis begins when there is no snapshot:
/// the last second that 31 bits can count.
pub const X_MIN_START: i64 = 0x7fff_ffff;

/// The point that the chart shows for a snapshot.
pub open spec fn point_of(snapshot: DiscoveredView) -> ChartPoint {
    ChartPoint {
        date: snapshot.date,
        sources: snapshot.sources,
        projects: snapshot.projects.len() as usize,
    }
}

/// The earliest date among the snapshots, and [`X_MIN_START`] if none is
/// before it.
pub open spec fn earliest(snapshots: Seq<DiscoveredView>) -> int
    decreases snapshots.len(),
{
    if snapshots.len() == 0 {
        X_MIN_START as int
    } else {
        let rest = earliest(snapshots.drop_last());
        if snapshots.last().date < rest {
            snapshots.last().date as int
        } else {
            rest
        }
    }
}

/// The latest date among the snapshots, and 0 if none is after it.
pub open spec fn newest(snapshots: Seq<DiscoveredView>) -> int
    decreases snapshots.len(),
{
    if snapshots.len() == 0 {
        0
    } else {
        let rest = newest(snapshots.drop_last());
        if snapshots.last().date > rest {
            snapshots.last().date as int
        } else {
            rest
        }
    }
}

/// The largest number of sources in a snapshot; 0 without snapshots.
pub open spec fn most_sources(snapshots: Seq<DiscoveredView>) -> int
    decreases snapshots.len(),
{
    if snapshots.len() == 0 {
        0
    } else {
        let rest = most_sources(snapshots.drop_last());
        if snapshots.last().sources > rest {
            snapshots.last().sources as int
        } else {
            rest
        }
    }
}

/// The largest number of projects in a snapshot; 0 without snapshots.
pub open spec fn most_projects(snapshots: Seq<DiscoveredView>) -> int
    decreases snapshots.len(),
{
    if snapshots.len() == 0 {
        0
    } else {
        let rest = most_projects(snapshots.drop_last());
        if snapshots.last().projects.len() > rest {
            snapshots.last().projects.len() as int
        } else {
            rest
        }
    }
}

/// Twice `value`, but no more than `limit`.
pub open spec fn doubled(value: int, limit: int) -> int {
    if 2 * value > limit {
        limit
    } else {
        2 * value
    }
}

/// Computes what the chart shows of the store's snapshots. The time axis
/// spans the dates of the snapshots; each count axis runs from 0 to twice
/// the largest count, or to the largest number of its type if that is
/// less.
pub fn chart(db: &Db) -> (chart: Chart)
    ensures
        chart.points@.len() == db@.discovered.len(),
        forall|i: int| 0 <= i < chart.points@.len() ==> chart.points@[i] == point_of(db@.discovered[i]),
        chart.x_min == earliest(db@.discovered),
        chart.x_max == newest(db@.discovered),
        chart.sources_max == doubled(most_sources(db@.discovered), u64::MAX as int),
        chart.projects_max == doubled(most_projects(db@.discovered), usize::MAX as int),
{
    let ghost all = db@.discovered;
    let mut points: Vec<ChartPoint> = Vec::new();
    let mut x_min: i64 = X_MIN_START;
    let mut x_max: i64 = 0;
    let mut sources_max: u64 = 0;
    let mut projects_max: usize = 0;
    let mut i: usize = 0;
    proof {
        assert(all.take(0) =~= Seq::empty());
    }
    while i < db.discovered.len()
        invariant
            i <= db.discovered.len(),
            all == db@.discovered,
            all.len() == db.discovered.len(),
            points.len() == i,
            forall|k: int| 0 <= k < i ==> points@[k] == point_of(all[k]),
            x_min == earliest(all.take(i as int)),
            x_max == newest(all.take(i as int)),
            sources_max == most_sources(all.take(i as int)),
            projects_max == most_projects(all.take(i as int)),
        decreases db.discovered.len() - i,
    {
        let snapshot: &Discovered = &db.discovered[i];
        proof {
            assert(all.take(i + 1).drop_last() =~= all.take(i as int));
            assert(all.take(i + 1).last() == snapshot@);
        }
        let projects: usize = snapshot.projects.len();
        if snapshot.date < x_min {
            x_min = snapshot.date;
        }
        if snapshot.date > x_max {
            x_max = snapshot.date;
        }
        if snapshot.sources > sources_max {
            sources_max = snapshot.sources;
        }
        if projects > projects_max {
            projects_max = projects;
        }
        points.push(ChartPoint { date: snapshot.date, sources: snapshot.sources, projects });
        i += 1;
    }
    proof {
        assert(all.take(i as int) =~= all);
    }
    let sources_max: u64 = if sources_max > u64::MAX / 2 {
        u64::MAX
    } else {
        sources_max * 2
    };
    let projects_max: usize = if projects_max > usize::MAX / 2 {
        usize::MAX
    } else {
        projects_max * 2
    };
    Chart { points, x_min, x_max, sources_max, projects_max }
}

} // verus!
