//! Facts about training that follow from its definition.
use vstd::prelude::*;
use crate::scalar::Scalar;
use crate::unit::{Params, error_at, error_on, trained, params_after};

verus! {

/// Training is deterministic: from the same starting state, on the same
/// examples, targets and epoch count, two runs observe the same errors, stop
/// at the same epoch and end in the same state.
pub proof fn training_is_deterministic<S: Scalar>(
    p0: Params<S>,
    xs: Seq<Seq<S>>,
    ts: Seq<S>,
    iterations: nat,
    errors1: Seq<S>,
    epoch1: Option<u32>,
    p1: Params<S>,
    errors2: Seq<S>,
    epoch2: Option<u32>,
    p2: Params<S>,
)
    requires
        trained(p0, xs, ts, iterations, errors1, epoch1, p1),
        trained(p0, xs, ts, iterations, errors2, epoch2, p2),
    ensures
        errors1 == errors2,
        epoch1 == epoch2,
        p1 == p2,
{
    let k1 = errors1.len();
    let k2 = errors2.len();
    if epoch1 is Some && epoch2 is Some {
        if k1 < k2 {
            assert(!error_at(p0, xs, ts, (k1 - 1) as nat).is_zero_spec());
        }
        if k2 < k1 {
            assert(!error_at(p0, xs, ts, (k2 - 1) as nat).is_zero_spec());
        }
    } else if epoch1 is Some {
        assert(!error_at(p0, xs, ts, (k1 - 1) as nat).is_zero_spec());
    } else if epoch2 is Some {
        assert(!error_at(p0, xs, ts, (k2 - 1) as nat).is_zero_spec());
    }
    assert(k1 == k2);
    assert forall|j: int| 0 <= j < k1 implies errors1[j] == errors2[j] by {
        assert(errors1[j] == error_at(p0, xs, ts, j as nat));
        assert(errors2[j] == error_at(p0, xs, ts, j as nat));
    }
    assert(errors1 =~= errors2);
}

/// When the very first example already meets its target exactly, training
/// stops in epoch zero after that one evaluation, with nothing changed.
pub proof fn exact_first_example_stops_at_once<S: Scalar>(
    p0: Params<S>,
    xs: Seq<Seq<S>>,
    ts: Seq<S>,
    iterations: nat,
    errors: Seq<S>,
    epoch: Option<u32>,
    p: Params<S>,
)
    requires
        xs.len() >= 1,
        iterations >= 1,
        error_on(p0, xs[0], ts[0]).is_zero_spec(),
        trained(p0, xs, ts, iterations, errors, epoch, p),
    ensures
        errors.len() == 1,
        epoch == Some(0u32),
        p == p0,
{
    assert(0int % (xs.len() as int) == 0) by (nonlinear_arith)
        requires xs.len() >= 1;
    assert(error_at(p0, xs, ts, 0).is_zero_spec());
    assert(iterations * xs.len() >= 1) by (nonlinear_arith)
        requires xs.len() >= 1, iterations >= 1;
    if errors.len() > 1 || epoch is None {
        assert(!error_at(p0, xs, ts, 0).is_zero_spec());
    }
    assert(errors.len() == 1);
    assert(0int / (xs.len() as int) == 0) by (nonlinear_arith)
        requires xs.len() >= 1;
}

/// When no step within the budget meets its target exactly, training makes
/// exactly `iterations` full passes: it evaluates `iterations * n` examples
/// and reports no convergence.
pub proof fn full_budget_without_exact_hit<S: Scalar>(
    p0: Params<S>,
    xs: Seq<Seq<S>>,
    ts: Seq<S>,
    iterations: nat,
    errors: Seq<S>,
    epoch: Option<u32>,
    p: Params<S>,
)
    requires
        forall|s: nat| s < iterations * xs.len() ==> !(#[trigger] error_at(p0, xs, ts, s)).is_zero_spec(),
        trained(p0, xs, ts, iterations, errors, epoch, p),
    ensures
        epoch is None,
        errors.len() == iterations * xs.len(),
        p == params_after(p0, xs, ts, iterations * xs.len()),
{
    if epoch is Some {
        assert(!error_at(p0, xs, ts, (errors.len() - 1) as nat).is_zero_spec());
    }
}

} // verus!
