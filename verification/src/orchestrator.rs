use vstd::prelude::*;

use crate::executor::{ExecState, ExecStateView, WorkflowStep};
use crate::plan::Plan;
use crate::{Repository, RepositoryView};

verus! {

/// The fixed size of the permit pool: at most this many repository workflows
/// run at once.
pub const MAX_CONCURRENT_WORKFLOWS: usize = 5;

/// The repositories the plan puts in scope, in discovery order.
pub fn allowed_repositories(plan: &Plan, repositories: &Vec<Repository>) -> (r: Vec<Repository>)
    ensures
        r.deep_view() == repositories.deep_view().filter(
            |rv: RepositoryView| plan.spec_allowed(rv.name),
        ),
{
    let ghost pred = |rv: RepositoryView| plan.spec_allowed(rv.name);
    let ghost dv = repositories.deep_view();
    let mut out: Vec<Repository> = Vec::new();
    let mut i: usize = 0;
    proof {
        reveal_with_fuel(Seq::filter, 2);
        assert(dv.take(0) =~= Seq::<RepositoryView>::empty());
        assert(out.deep_view() =~= dv.take(0).filter(pred));
    }
    while i < repositories.len()
        invariant
            i <= repositories@.len(),
            dv == repositories.deep_view(),
            pred == (|rv: RepositoryView| plan.spec_allowed(rv.name)),
            out.deep_view() == dv.take(i as int).filter(pred),
        decreases repositories@.len() - i,
    {
        let ghost prev_seq = out@;
        let ghost prev_dv = out.deep_view();
        let keep = plan.repository_allowed(repositories[i].name.as_str());
        proof {
            assert(dv[i as int] == repositories@[i as int]@);
            assert(keep == pred(dv[i as int]));
        }
        if keep {
            out.push(repositories[i].clone_repo());
            proof {
                assert forall|k: int| 0 <= k < out@.len() implies out.deep_view()[k] == prev_dv.push(
                    dv[i as int],
                )[k] by {
                    assert(out.deep_view()[k] == out@[k].deep_view());
                    if k < prev_seq.len() {
                        assert(out@[k] == prev_seq[k]);
                        assert(prev_seq[k].deep_view() == prev_dv[k]);
                    }
                }
                assert(out.deep_view() =~= prev_dv.push(dv[i as int]));
            }
        }
        proof {
            reveal_with_fuel(Seq::filter, 2);
            let single = seq![dv[i as int]];
            assert(dv.take(i as int + 1) =~= dv.take(i as int) + single);
            Seq::filter_distributes_over_add(dv.take(i as int), single, pred);
            assert(single.drop_last() =~= Seq::<RepositoryView>::empty());
            if pred(dv[i as int]) {
                assert(single.filter(pred) =~= single);
                assert(dv.take(i as int).filter(pred) + single =~= dv.take(i as int).filter(
                    pred,
                ).push(dv[i as int]));
            } else {
                assert(single.filter(pred) =~= Seq::<RepositoryView>::empty());
                assert(dv.take(i as int).filter(pred) + single.filter(pred) =~= dv.take(
                    i as int,
                ).filter(pred));
            }
        }
        i = i + 1;
    }
    proof {
        assert(dv.take(repositories@.len() as int) =~= dv);
    }
    out
}

/// The error the whole run surfaces: the first failed workflow in collection
/// order — not necessarily the first to fail in time.
pub fn first_failure(results: &Vec<ExecState>) -> (r: Option<(WorkflowStep, String)>)
    ensures
        r is None ==> forall|k: int| 0 <= k < results@.len() ==> !(#[trigger] results@[k]@
            is Failed),
        r matches Some(f) ==> exists|i: int|
            0 <= i < results@.len() && (#[trigger] results@[i]@ matches ExecStateView::Failed {
                step,
                message,
            } && f.0 == step && f.1@ == message) && (forall|j: int|
                0 <= j < i ==> !(#[trigger] results@[j]@ is Failed)),
{
    let mut i: usize = 0;
    while i < results.len()
        invariant
            i <= results@.len(),
            forall|k: int| 0 <= k < i ==> !(#[trigger] results@[k]@ is Failed),
        decreases results@.len() - i,
    {
        match &results[i] {
            ExecState::Failed { step, message } => {
                let found = Some((*step, message.clone()));
                proof {
                    assert(results@[i as int]@ is Failed);
                }
                return found;
            },
            _ => {},
        }
        i = i + 1;
    }
    None
}

} // verus!
