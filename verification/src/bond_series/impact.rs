//! Evaluation of impact checkpoints against the amount that has been
//! retired.

use vstd::prelude::*;
use crate::heb_types::ImpactCheckpoint;
use crate::heb_types::ImpactCheckpointView;
use crate::host::StdError;
use crate::host::StdErrorView;
use crate::bond_series::math::parse_u128;
use crate::bond_series::math::parse_u128_spec;
use crate::bond_series::state::ImpactPoint;

verus! {

/// One checkpoint held against the retired amount: it is met where the
/// retired amount has reached its target. Fails where the target is no
/// number.
pub open spec fn evaluated(checkpoint: ImpactCheckpointView, retired_total: u128) -> Result<
    ImpactPoint,
    StdErrorView,
> {
    match parse_u128_spec(checkpoint.target_retired) {
        Err(e) => Err(e),
        Ok(target) => Ok(
            ImpactPoint {
                checkpoint_ts: checkpoint.ts,
                retired_total,
                target_retired: target,
                met: retired_total >= target,
            },
        ),
    }
}

/// The checkpoints held against the retired amount, in their order. Fails
/// with the failure of the first checkpoint whose target is no number.
pub open spec fn evaluation(checkpoints: Seq<ImpactCheckpointView>, retired_total: u128) -> Result<
    Seq<ImpactPoint>,
    StdErrorView,
>
    decreases checkpoints.len(),
{
    if checkpoints.len() == 0 {
        Ok(Seq::empty())
    } else {
        match evaluation(checkpoints.drop_last(), retired_total) {
            Err(e) => Err(e),
            Ok(points) => match evaluated(checkpoints.last(), retired_total) {
                Err(e) => Err(e),
                Ok(point) => Ok(points.push(point)),
            },
        }
    }
}

/// Evaluating is a function of the checkpoints and the reading alone: doing
/// it again on the same reading yields the same record, and every record
/// says of its own checkpoint whether the reading has reached the target.
pub proof fn lemma_evaluation_pointwise(
    checkpoints: Seq<ImpactCheckpointView>,
    retired_total: u128,
    i: int,
)
    requires
        0 <= i < checkpoints.len(),
    ensures
        evaluation(checkpoints, retired_total) matches Ok(points) ==> points.len()
            == checkpoints.len() && evaluated(checkpoints[i], retired_total) == Ok::<
            ImpactPoint,
            StdErrorView,
        >(points[i]) && points[i].met == (retired_total >= points[i].target_retired),
    decreases checkpoints.len(),
{
    if let Ok(points) = evaluation(checkpoints, retired_total) {
        lemma_evaluation_length(checkpoints, retired_total);
        if i < checkpoints.len() - 1 {
            lemma_evaluation_pointwise(checkpoints.drop_last(), retired_total, i);
        }
    }
}

/// An evaluation has one record for each checkpoint.
pub proof fn lemma_evaluation_length(checkpoints: Seq<ImpactCheckpointView>, retired_total: u128)
    ensures
        evaluation(checkpoints, retired_total) matches Ok(points) ==> points.len()
            == checkpoints.len(),
    decreases checkpoints.len(),
{
    if checkpoints.len() > 0 {
        lemma_evaluation_length(checkpoints.drop_last(), retired_total);
    }
}

/// Holds one checkpoint against the retired amount.
pub fn evaluate_checkpoint(checkpoint: &ImpactCheckpoint, retired_total: u128) -> (r: Result<
    ImpactPoint,
    StdError,
>)
    ensures
        match evaluated(checkpoint@, retired_total) {
            Ok(point) => r == Ok::<ImpactPoint, StdError>(point),
            Err(e) => r is Err && r->Err_0@ == e,
        },
{
    let target = parse_u128(checkpoint.target_retired.as_str())?;
    Ok(
        ImpactPoint {
            checkpoint_ts: checkpoint.ts,
            retired_total,
            target_retired: target,
            met: retired_total >= target,
        },
    )
}

/// Holds every checkpoint against the retired amount, in order.
pub fn evaluate_checkpoints(checkpoints: &Vec<ImpactCheckpoint>, retired_total: u128) -> (r:
    Result<Vec<ImpactPoint>, StdError>)
    ensures
        match evaluation(checkpoints@.map_values(|c: ImpactCheckpoint| c@), retired_total) {
            Ok(points) => r is Ok && r->Ok_0@ == points,
            Err(e) => r is Err && r->Err_0@ == e,
        },
{
    let ghost views = checkpoints@.map_values(|c: ImpactCheckpoint| c@);
    let mut points: Vec<ImpactPoint> = Vec::new();
    let mut i: usize = 0;
    while i < checkpoints.len()
        invariant
            i <= checkpoints.len(),
            views == checkpoints@.map_values(|c: ImpactCheckpoint| c@),
            evaluation(views.take(i as int), retired_total) == Ok::<Seq<ImpactPoint>, StdErrorView>(
                points@,
            ),
        decreases checkpoints.len() - i,
    {
        proof {
            assert(views.take(i + 1).drop_last() == views.take(i as int));
            assert(views.take(i + 1).last() == checkpoints@[i as int]@);
        }
        match evaluate_checkpoint(&checkpoints[i], retired_total) {
            Ok(point) => {
                points.push(point);
            },
            Err(e) => {
                proof {
                    lemma_evaluation_fails_on(views, retired_total, i + 1);
                }
                return Err(e);
            },
        }
        i = i + 1;
    }
    assert(views.take(i as int) == views);
    Ok(points)
}

/// Where the first `n` checkpoints cannot be evaluated, nor can all of
/// them, and for the same reason.
pub proof fn lemma_evaluation_fails_on(
    checkpoints: Seq<ImpactCheckpointView>,
    retired_total: u128,
    n: int,
)
    requires
        0 <= n <= checkpoints.len(),
        evaluation(checkpoints.take(n), retired_total) is Err,
    ensures
        evaluation(checkpoints, retired_total) == evaluation(checkpoints.take(n), retired_total),
    decreases checkpoints.len() - n,
{
    if n == checkpoints.len() {
        assert(checkpoints.take(n) == checkpoints);
    } else {
        assert(checkpoints.take(n + 1).drop_last() == checkpoints.take(n));
        lemma_evaluation_fails_on(checkpoints, retired_total, n + 1);
    }
}

} // verus!
