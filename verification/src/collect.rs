//! Assembling the collection: every raw record is projected, in order, and
//! the first failure ends the whole collection.

use vstd::prelude::*;

use crate::error::{CollectorError, ProjectionError, TransportError};
use crate::raw::{raw_views, RawRepo, RawRepoView};
use crate::repo::{project, projected, repo_views, UserRepo, UserRepoView};

verus! {

/// Which repositories are asked of the upstream source: those that the
/// authenticated user owns.
pub const UPSTREAM_TYPE: &'static str = "owner";

/// The order in which they are asked for: most recently updated first.
pub const UPSTREAM_SORT: &'static str = "updated";

/// Whether every record carries both flags that decide how it is shown.
pub open spec fn all_projectable(raws: Seq<RawRepoView>) -> bool {
    forall|i: int| 0 <= i < raws.len() ==> (#[trigger] raws[i]).projectable()
}

/// What projecting a sequence of raw records yields: the projections in the
/// order of the records, or the error of the first record that has one.
pub open spec fn collected(raws: Seq<RawRepoView>) -> Result<Seq<UserRepoView>, ProjectionError>
    decreases raws.len(),
{
    if raws.len() == 0 {
        Ok(Seq::empty())
    } else {
        match collected(raws.drop_last()) {
            Err(e) => Err(e),
            Ok(views) => match projected(raws.last()) {
                Ok(view) => Ok(views.push(view)),
                Err(e) => Err(e),
            },
        }
    }
}

/// Turns what the upstream call returned into the collection of views. A
/// failed call, and the first record that cannot be projected, each end the
/// collection with their error: no partial result is returned.
pub fn repositories(fetched: Result<Vec<RawRepo>, TransportError>) -> (r: Result<
    Vec<UserRepo>,
    CollectorError,
>)
    ensures
        fetched matches Err(e) ==> r == Err::<Vec<UserRepo>, CollectorError>(
            CollectorError::Transport(e),
        ),
        fetched matches Ok(raws) ==> match collected(raw_views(raws@)) {
            Ok(views) => r matches Ok(repos) && repo_views(repos@) == views,
            Err(e) => r == Err::<Vec<UserRepo>, CollectorError>(CollectorError::Projection(e)),
        },
        r is Ok <==> fetched is Ok && all_projectable(raw_views(fetched->Ok_0@)),
        r matches Ok(repos) ==> repos@.len() == fetched->Ok_0@.len() && forall|i: int|
            0 <= i < repos@.len() ==> projected(fetched->Ok_0@[i]@) == Ok::<
                UserRepoView,
                ProjectionError,
            >((#[trigger] repos@[i])@),
{
    let raws = match fetched {
        Ok(raws) => raws,
        Err(e) => {
            return Err(CollectorError::Transport(e));
        },
    };
    let ghost all = raw_views(raws@);
    let mut repos: Vec<UserRepo> = Vec::new();
    proof {
        assert(all.take(0) == Seq::<RawRepoView>::empty());
        assert(repo_views(repos@) == Seq::<UserRepoView>::empty());
    }
    for raw in it: raws
        invariant
            fetched matches Ok(given) && raw_views(given@) == all,
            raw_views(it.seq()) == all,
            collected(all.take(it.index() as int)) == Ok::<Seq<UserRepoView>, ProjectionError>(
                repo_views(repos@),
            ),
    {
        proof {
            let i = it.index() as int;
            assert(all.take(i + 1).drop_last() == all.take(i));
            assert(all.take(i + 1).last() == raw@);
        }
        match project(raw) {
            Ok(repo) => {
                proof {
                    assert(repo_views(repos@.push(repo)) == repo_views(repos@).push(repo@));
                }
                repos.push(repo);
            },
            Err(e) => {
                proof {
                    lemma_collected_prefix_error(all, it.index() as int + 1);
                    lemma_collected_in_order(all);
                }
                return Err(CollectorError::Projection(e));
            },
        }
    }
    proof {
        assert(all.take(all.len() as int) == all);
        lemma_collected_in_order(all);
        let views = repo_views(repos@);
        assert forall|i: int| 0 <= i < repos@.len() implies projected(fetched->Ok_0@[i]@) == Ok::<
            UserRepoView,
            ProjectionError,
        >((#[trigger] repos@[i])@) by {
            assert(all[i] == fetched->Ok_0@[i]@);
            assert(views[i] == repos@[i]@);
        }
    }
    Ok(repos)
}

/// Collecting keeps the order and the number of the records: where it
/// succeeds, the view at each position is the projection of the record at
/// that position. And it succeeds exactly where every record can be
/// projected.
pub proof fn lemma_collected_in_order(raws: Seq<RawRepoView>)
    ensures
        collected(raws) is Ok <==> all_projectable(raws),
        collected(raws) matches Ok(views) ==> views.len() == raws.len() && forall|i: int|
            0 <= i < raws.len() ==> projected(raws[i]) == Ok::<UserRepoView, ProjectionError>(
                #[trigger] views[i],
            ),
    decreases raws.len(),
{
    if raws.len() > 0 {
        let front = raws.drop_last();
        lemma_collected_in_order(front);
        assert forall|i: int| 0 <= i < front.len() implies front[i] == raws[i] by {}
        if collected(raws) is Ok {
            assert forall|i: int| 0 <= i < raws.len() implies (#[trigger] raws[i]).projectable() by {
                if i < front.len() {
                    assert(front[i].projectable());
                }
            }
        }
        if all_projectable(raws) {
            assert forall|i: int| 0 <= i < front.len() implies (#[trigger] front[i]).projectable() by {
                assert(raws[i].projectable());
            }
            assert(raws[raws.len() - 1].projectable());
        }
    }
}

/// Collecting fails closed: one record without its privacy flag or without
/// its fork flag makes the whole collection fail, whatever the other records
/// hold.
pub proof fn lemma_collected_fails_closed(raws: Seq<RawRepoView>, i: int)
    requires
        0 <= i < raws.len(),
        raws[i].private is None || raws[i].fork is None,
    ensures
        collected(raws) is Err,
{
    lemma_collected_in_order(raws);
    assert(!raws[i].projectable());
}

/// The error of a failed collection is that of the first record that cannot
/// be projected.
pub proof fn lemma_collected_first_error(raws: Seq<RawRepoView>, k: int)
    requires
        0 <= k < raws.len(),
        !raws[k].projectable(),
        forall|j: int| 0 <= j < k ==> (#[trigger] raws[j]).projectable(),
    ensures
        collected(raws) == Err::<Seq<UserRepoView>, ProjectionError>(projected(raws[k])->Err_0),
{
    let upto = raws.take(k + 1);
    assert(upto.drop_last() == raws.take(k));
    assert(upto.last() == raws[k]);
    let before = raws.take(k);
    assert forall|j: int| 0 <= j < before.len() implies (#[trigger] before[j]).projectable() by {
        assert(raws[j].projectable());
    }
    lemma_collected_in_order(before);
    lemma_collected_prefix_error(raws, k + 1);
}

/// An error met in a prefix of the records is the error of the whole.
pub proof fn lemma_collected_prefix_error(raws: Seq<RawRepoView>, n: int)
    requires
        0 <= n <= raws.len(),
        collected(raws.take(n)) is Err,
    ensures
        collected(raws) == collected(raws.take(n)),
    decreases raws.len() - n,
{
    if n < raws.len() {
        assert(raws.take(n + 1).drop_last() == raws.take(n));
        lemma_collected_prefix_error(raws, n + 1);
    } else {
        assert(raws.take(n) == raws);
    }
}

} // verus!
