//! Rolling a channel back to an earlier version: finding the release to
//! go back to among the channel's releases.

use vstd::prelude::*;
use crate::api::{release_views, ReleaseResponse, ReleaseView};
use crate::pipeline::{find_version, first_with_version, lemma_first_with_version};

verus! {

/// How many releases are shown when the wanted version is not among them.
pub const SHOWN_VERSIONS: usize = 10;

/// What to do about a rollback request, given the channel's releases.
#[derive(Clone, Debug, PartialEq, Eq)]
pub enum RollbackPlan {
    /// The channel has no releases: there is nothing to go back to.
    NoReleases,
    /// The version exists: ask the operator, then roll back to this
    /// release.
    Confirm(ReleaseResponse),
    /// The version is not on the channel; these are the first releases
    /// that are, to choose from.
    VersionMissing { available: Vec<ReleaseResponse> },
}

/// The mathematical content of a [`RollbackPlan`].
pub enum RollbackPlanView {
    NoReleases,
    Confirm(ReleaseView),
    VersionMissing { available: Seq<ReleaseView> },
}

impl View for RollbackPlan {
    type V = RollbackPlanView;

    open spec fn view(&self) -> RollbackPlanView {
        match self {
            RollbackPlan::NoReleases => RollbackPlanView::NoReleases,
            RollbackPlan::Confirm(release) => RollbackPlanView::Confirm(release@),
            RollbackPlan::VersionMissing { available } => RollbackPlanView::VersionMissing {
                available: release_views(available@),
            },
        }
    }
}

/// The plan for a version and a list of releases: the first release that
/// carries the version, or else the first ten releases for the operator to
/// choose from.
pub open spec fn rollback_plan(version: Seq<char>, releases: Seq<ReleaseView>) -> RollbackPlanView {
    if releases.len() == 0 {
        RollbackPlanView::NoReleases
    } else {
        match first_with_version(releases, version) {
            Some(i) => RollbackPlanView::Confirm(releases[i]),
            None => RollbackPlanView::VersionMissing {
                available: releases.take(
                    if releases.len() < SHOWN_VERSIONS {
                        releases.len() as int
                    } else {
                        SHOWN_VERSIONS as int
                    },
                ),
            },
        }
    }
}

/// Plans the rollback of a channel to `version`, given its releases.
pub fn execute(version: &String, releases: &Vec<ReleaseResponse>) -> (plan: RollbackPlan)
    ensures
        plan@ == rollback_plan(version@, release_views(releases@)),
{
    if releases.len() == 0 {
        return RollbackPlan::NoReleases;
    }
    match find_version(releases, version) {
        Some(i) => RollbackPlan::Confirm(releases[i].clone()),
        None => {
            let shown = if releases.len() < SHOWN_VERSIONS {
                releases.len()
            } else {
                SHOWN_VERSIONS
            };
            let mut available: Vec<ReleaseResponse> = Vec::new();
            let mut i: usize = 0;
            while i < shown
                invariant
                    i <= shown <= releases@.len(),
                    release_views(available@) == release_views(releases@).take(i as int),
                decreases shown - i,
            {
                let ghost shown_before = release_views(available@);
                available.push(releases[i].clone());
                proof {
                    assert(release_views(available@) =~= shown_before.push(releases@[i as int]@));
                    assert(release_views(releases@).take(i + 1) =~= release_views(
                        releases@,
                    ).take(i as int).push(releases@[i as int]@));
                }
                i += 1;
            }
            RollbackPlan::VersionMissing { available }
        },
    }
}

/// A rollback is confirmed only for a release that carries the wanted
/// version, and the first such; when there is none, no more than ten
/// releases are offered instead.
pub proof fn lemma_rollback_plan(version: Seq<char>, releases: Seq<ReleaseView>)
    ensures
        match rollback_plan(version, releases) {
            RollbackPlanView::NoReleases => releases.len() == 0,
            RollbackPlanView::Confirm(release) => release.version == version && exists|i: int|
                0 <= i < releases.len() && #[trigger] releases[i] == release,
            RollbackPlanView::VersionMissing { available } => {
                &&& 0 < available.len() <= SHOWN_VERSIONS
                &&& forall|i: int|
                    0 <= i < releases.len() ==> (#[trigger] releases[i]).version != version
            },
        },
{
    lemma_first_with_version(releases, version);
}

} // verus!
