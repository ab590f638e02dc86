//! What every tick of [`crate::nbody`] guarantees, whatever arithmetic the closures do.

use vstd::prelude::*;
use crate::nbody::{
    advanced, folds_to, is_acceleration_field, others, stepped,
};

verus! {

/// `pull` gives one result for each pair of bodies.
pub open spec fn pull_is_function<B, A, P: Fn(&B, &B) -> A>(pull: P) -> bool {
    forall|x: &B, y: &B, r1: A, r2: A|
        #![trigger pull.ensures((x, y), r1), pull.ensures((x, y), r2)]
        pull.ensures((x, y), r1) && pull.ensures((x, y), r2) ==> r1 == r2
}

/// `combine` gives one result for each pair of accelerations.
pub open spec fn combine_is_function<A, C: Fn(A, A) -> A>(combine: C) -> bool {
    forall|a: A, b: A, r1: A, r2: A|
        #![trigger combine.ensures((a, b), r1), combine.ensures((a, b), r2)]
        combine.ensures((a, b), r1) && combine.ensures((a, b), r2) ==> r1 == r2
}

/// `integrate` gives one result for each body, acceleration and time step.
pub open spec fn integrate_is_function<B, A, T, I: Fn(&B, &A, T) -> B>(integrate: I) -> bool {
    forall|b: &B, a: &A, t: T, r1: B, r2: B|
        #![trigger integrate.ensures((b, a, t), r1), integrate.ensures((b, a, t), r2)]
        integrate.ensures((b, a, t), r1) && integrate.ensures((b, a, t), r2) ==> r1 == r2
}

/// `states` is a run from `states[0]` that takes one tick for each time step of `dts`.
pub open spec fn is_run<B, A, T, P: Fn(&B, &B) -> A, C: Fn(A, A) -> A, I: Fn(&B, &A, T) -> B>(
    pull: P,
    combine: C,
    integrate: I,
    zero: A,
    dts: Seq<T>,
    states: Seq<Seq<B>>,
) -> bool {
    &&& states.len() == dts.len() + 1
    &&& forall|k: int|
        0 <= k < dts.len() ==> stepped(pull, combine, integrate, zero, #[trigger] dts[k], states[k], states[k + 1])
}

/// Every ordered pair is used once: the pulls folded into body `i`'s acceleration come
/// from each other body exactly once, in ascending order of index, and never from `i`.
pub proof fn lemma_each_other_body_once(n: int, i: int)
    requires
        0 <= i < n,
    ensures
        others(n, i).len() == n - 1,
        forall|j: int| 0 <= j < n ==> (others(n, i).contains(j) <==> j != i),
        forall|a: int, b: int|
            0 <= a < b < n - 1 ==> #[trigger] others(n, i)[a] < #[trigger] others(n, i)[b],
{
    let o = others(n, i);
    assert forall|j: int| 0 <= j < n implies (o.contains(j) <==> j != i) by {
        if j < i {
            assert(o[j] == j);
        } else if j > i {
            assert(o[j - 1] == j);
        }
    }
}

/// With a deterministic pull and combination, folding the same pulls gives one value.
pub proof fn lemma_fold_unique<B, A, P: Fn(&B, &B) -> A, C: Fn(A, A) -> A>(
    pull: P,
    combine: C,
    zero: A,
    bodies: Seq<B>,
    i: int,
    from: Seq<int>,
    t1: A,
    t2: A,
)
    requires
        pull_is_function(pull),
        combine_is_function(combine),
        folds_to(pull, combine, zero, bodies, i, from, t1),
        folds_to(pull, combine, zero, bodies, i, from, t2),
    ensures
        t1 == t2,
    decreases from.len(),
{
    if from.len() > 0 {
        let (q1, p1) = choose|q: A, p: A|
            folds_to(pull, combine, zero, bodies, i, from.drop_last(), q)
                && pull.ensures((&bodies[i], &bodies[from.last()]), p)
                && #[trigger] combine.ensures((q, p), t1);
        let (q2, p2) = choose|q: A, p: A|
            folds_to(pull, combine, zero, bodies, i, from.drop_last(), q)
                && pull.ensures((&bodies[i], &bodies[from.last()]), p)
                && #[trigger] combine.ensures((q, p), t2);
        lemma_fold_unique(pull, combine, zero, bodies, i, from.drop_last(), q1, q2);
        assert(p1 == p2);
    }
}

/// Order independence: each body's acceleration is folded from the unmodified snapshot,
/// so any two accumulations over one snapshot, in whatever order they visited the
/// bodies, agree exactly, provided the pull and the combination are deterministic.
pub proof fn lemma_visiting_order_irrelevant<B, A, P: Fn(&B, &B) -> A, C: Fn(A, A) -> A>(
    pull: P,
    combine: C,
    zero: A,
    bodies: Seq<B>,
    acc1: Seq<A>,
    acc2: Seq<A>,
)
    requires
        pull_is_function(pull),
        combine_is_function(combine),
        is_acceleration_field(pull, combine, zero, bodies, acc1),
        is_acceleration_field(pull, combine, zero, bodies, acc2),
    ensures
        acc1 == acc2,
{
    assert forall|i: int| 0 <= i < bodies.len() implies acc1[i] == acc2[i] by {
        lemma_fold_unique(pull, combine, zero, bodies, i, others(bodies.len() as int, i), acc1[i], acc2[i]);
    }
    assert(acc1 =~= acc2);
}

/// A lone body feels no pull: its acceleration is the zero value, and a tick only
/// integrates it with that zero acceleration.
pub proof fn lemma_single_body_unpulled<B, A, T, P: Fn(&B, &B) -> A, C: Fn(A, A) -> A, I: Fn(&B, &A, T) -> B>(
    pull: P,
    combine: C,
    integrate: I,
    zero: A,
    dt: T,
    before: Seq<B>,
    after: Seq<B>,
)
    requires
        before.len() == 1,
        stepped(pull, combine, integrate, zero, dt, before, after),
    ensures
        forall|acc: Seq<A>| is_acceleration_field(pull, combine, zero, before, acc) ==> acc == seq![zero],
        after.len() == 1,
        integrate.ensures((&before[0], &zero, dt), after[0]),
{
    assert forall|acc: Seq<A>| is_acceleration_field(pull, combine, zero, before, acc) implies acc == seq![zero] by {
        assert(others(1, 0).len() == 0);
        assert(folds_to(pull, combine, zero, before, 0, others(1, 0), acc[0]));
        assert(acc =~= seq![zero]);
    }
    let acc = choose|acc: Seq<A>|
        #[trigger] is_acceleration_field(pull, combine, zero, before, acc) && advanced(
            integrate,
            dt,
            before,
            acc,
            after,
        );
    assert(acc[0] == zero);
}

/// With deterministic closures a tick is a function of the body set and the time step.
pub proof fn lemma_step_deterministic<B, A, T, P: Fn(&B, &B) -> A, C: Fn(A, A) -> A, I: Fn(&B, &A, T) -> B>(
    pull: P,
    combine: C,
    integrate: I,
    zero: A,
    dt: T,
    before: Seq<B>,
    after1: Seq<B>,
    after2: Seq<B>,
)
    requires
        pull_is_function(pull),
        combine_is_function(combine),
        integrate_is_function(integrate),
        stepped(pull, combine, integrate, zero, dt, before, after1),
        stepped(pull, combine, integrate, zero, dt, before, after2),
    ensures
        after1 == after2,
{
    let acc1 = choose|acc: Seq<A>|
        #[trigger] is_acceleration_field(pull, combine, zero, before, acc) && advanced(
            integrate,
            dt,
            before,
            acc,
            after1,
        );
    let acc2 = choose|acc: Seq<A>|
        #[trigger] is_acceleration_field(pull, combine, zero, before, acc) && advanced(
            integrate,
            dt,
            before,
            acc,
            after2,
        );
    lemma_visiting_order_irrelevant(pull, combine, zero, before, acc1, acc2);
    assert forall|i: int| 0 <= i < before.len() implies after1[i] == after2[i] by {
        assert(integrate.ensures((&before[i], &acc1[i], dt), after1[i]));
        assert(integrate.ensures((&before[i], &acc2[i], dt), after2[i]));
    }
    assert(after1 =~= after2);
}

/// The two runs agree on the bodies after `k` ticks.
proof fn lemma_runs_agree_at<B, A, T, P: Fn(&B, &B) -> A, C: Fn(A, A) -> A, I: Fn(&B, &A, T) -> B>(
    pull: P,
    combine: C,
    integrate: I,
    zero: A,
    dts: Seq<T>,
    run1: Seq<Seq<B>>,
    run2: Seq<Seq<B>>,
    k: int,
)
    requires
        pull_is_function(pull),
        combine_is_function(combine),
        integrate_is_function(integrate),
        is_run(pull, combine, integrate, zero, dts, run1),
        is_run(pull, combine, integrate, zero, dts, run2),
        run1[0] == run2[0],
        0 <= k <= dts.len(),
    ensures
        run1[k] == run2[k],
    decreases k,
{
    if k > 0 {
        lemma_runs_agree_at(pull, combine, integrate, zero, dts, run1, run2, k - 1);
        assert(stepped(pull, combine, integrate, zero, dts[k - 1], run1[k - 1], run1[k]));
        assert(stepped(pull, combine, integrate, zero, dts[k - 1], run2[k - 1], run2[k]));
        lemma_step_deterministic(pull, combine, integrate, zero, dts[k - 1], run1[k - 1], run1[k], run2[k]);
    }
}

/// Determinism: replaying the same time steps from the same bodies gives the same
/// trajectory, tick for tick.
pub proof fn lemma_replay_deterministic<B, A, T, P: Fn(&B, &B) -> A, C: Fn(A, A) -> A, I: Fn(&B, &A, T) -> B>(
    pull: P,
    combine: C,
    integrate: I,
    zero: A,
    dts: Seq<T>,
    run1: Seq<Seq<B>>,
    run2: Seq<Seq<B>>,
)
    requires
        pull_is_function(pull),
        combine_is_function(combine),
        integrate_is_function(integrate),
        is_run(pull, combine, integrate, zero, dts, run1),
        is_run(pull, combine, integrate, zero, dts, run2),
        run1[0] == run2[0],
    ensures
        run1 == run2,
{
    assert forall|k: int| 0 <= k < run1.len() implies run1[k] == run2[k] by {
        lemma_runs_agree_at(pull, combine, integrate, zero, dts, run1, run2, k);
    }
    assert(run1 =~= run2);
}

} // verus!
