//! The two-phase n-body tick.
//!
//! A tick first reads an immutable snapshot of every body and folds, for each body, the
//! pulls that all the other bodies exert on it into one acceleration (accumulate). Only
//! then is each body advanced by its own acceleration (apply). No body is written while
//! another body's acceleration is still being read from it, so the result does not
//! depend on the order in which the bodies are visited.
//!
//! The arithmetic itself (the pull of one body on another, how two accelerations add,
//! how a body integrates an acceleration over a time step) is supplied by the caller as
//! closures; the contracts below speak of what those closures may return. `pull(b, o)`
//! is the acceleration that body `o` imposes on body `b`; `combine` adds two
//! accelerations; `integrate(b, a, dt)` is body `b` advanced over `dt` by `a`.

use vstd::prelude::*;

verus! {

/// The indices of every body but `i` in a set of `n`, ascending.
pub open spec fn others(n: int, i: int) -> Seq<int> {
    Seq::new((n - 1) as nat, |k: int| if k < i { k } else { k + 1 })
}

/// `total` is a value that folding, left to right from `zero`, the pulls on body `i`
/// of the bodies at the indices `from` can produce.
pub open spec fn folds_to<B, A, P: Fn(&B, &B) -> A, C: Fn(A, A) -> A>(
    pull: P,
    combine: C,
    zero: A,
    bodies: Seq<B>,
    i: int,
    from: Seq<int>,
    total: A,
) -> bool
    decreases from.len(),
{
    if from.len() == 0 {
        total == zero
    } else {
        exists|partial: A, p: A|
            folds_to(pull, combine, zero, bodies, i, from.drop_last(), partial)
                && pull.ensures((&bodies[i], &bodies[from.last()]), p)
                && #[trigger] combine.ensures((partial, p), total)
    }
}

/// `acc` holds one acceleration per body, each folded from the pulls of all the
/// other bodies of the same snapshot.
pub open spec fn is_acceleration_field<B, A, P: Fn(&B, &B) -> A, C: Fn(A, A) -> A>(
    pull: P,
    combine: C,
    zero: A,
    bodies: Seq<B>,
    acc: Seq<A>,
) -> bool {
    &&& acc.len() == bodies.len()
    &&& forall|i: int|
        0 <= i < bodies.len() ==> folds_to(
            pull,
            combine,
            zero,
            bodies,
            i,
            others(bodies.len() as int, i),
            #[trigger] acc[i],
        )
}

/// Every pull and every combination may be evaluated.
pub open spec fn callable<B, A, P: Fn(&B, &B) -> A, C: Fn(A, A) -> A>(pull: P, combine: C) -> bool {
    &&& forall|x: &B, y: &B| #[trigger] pull.requires((x, y))
    &&& forall|a: A, b: A| #[trigger] combine.requires((a, b))
}

/// How many of the bodies below `j` are not body `i`.
pub open spec fn visited(i: int, j: int) -> int {
    if j <= i {
        j
    } else {
        j - 1
    }
}

/// The acceleration of body `i`: the pulls of all the other bodies, folded in
/// ascending order of index.
fn pull_on<B, A: Copy, P: Fn(&B, &B) -> A, C: Fn(A, A) -> A>(
    bodies: &Vec<B>,
    i: usize,
    zero: A,
    pull: &P,
    combine: &C,
) -> (total: A)
    requires
        i < bodies.len(),
        callable(*pull, *combine),
    ensures
        folds_to(*pull, *combine, zero, bodies@, i as int, others(bodies.len() as int, i as int), total),
{
    let n = bodies.len();
    let ghost from = others(n as int, i as int);
    let mut total = zero;
    let mut j: usize = 0;
    while j < n
        invariant
            n == bodies.len(),
            i < n,
            j <= n,
            from == others(n as int, i as int),
            callable(*pull, *combine),
            folds_to(*pull, *combine, zero, bodies@, i as int, from.take(visited(i as int, j as int)), total),
        decreases n - j,
    {
        if j != i {
            let ghost before = total;
            let ghost m = visited(i as int, j as int);
            let p = pull(&bodies[i], &bodies[j]);
            total = combine(total, p);
            proof {
                let next = from.take(m + 1);
                assert(next.drop_last() =~= from.take(m));
                assert(next.last() == j);
                assert(combine.ensures((before, p), total));
                assert(visited(i as int, j + 1) == m + 1);
            }
        }
        j = j + 1;
    }
    assert(from.take(visited(i as int, n as int)) =~= from);
    total
}

/// Accumulate: one acceleration per body, each folded from an unmodified snapshot of
/// all the other bodies.
pub fn accelerations<B, A: Copy, P: Fn(&B, &B) -> A, C: Fn(A, A) -> A>(
    bodies: &Vec<B>,
    zero: A,
    pull: P,
    combine: C,
) -> (acc: Vec<A>)
    requires
        callable(pull, combine),
    ensures
        is_acceleration_field(pull, combine, zero, bodies@, acc@),
{
    let n = bodies.len();
    let mut acc: Vec<A> = Vec::new();
    let mut i: usize = 0;
    while i < n
        invariant
            n == bodies.len(),
            i <= n,
            acc.len() == i,
            callable(pull, combine),
            forall|k: int|
                0 <= k < i ==> folds_to(pull, combine, zero, bodies@, k, others(n as int, k), #[trigger] acc[k]),
        decreases n - i,
    {
        let a = pull_on(bodies, i, zero, &pull, &combine);
        acc.push(a);
        i = i + 1;
    }
    acc
}

/// Index `i` occurs in `order`.
pub open spec fn lists(order: Seq<usize>, i: int) -> bool {
    exists|k: int| 0 <= k < order.len() && #[trigger] order[k] == i
}

/// `order` lists every index of a set of `n` bodies exactly once.
pub open spec fn is_visiting_order(order: Seq<usize>, n: int) -> bool {
    &&& order.len() == n
    &&& forall|k: int| 0 <= k < n ==> #[trigger] order[k] < n
    &&& forall|i: int| 0 <= i < n ==> #[trigger] lists(order, i)
}

/// Accumulate, visiting the bodies in the given `order`: every acceleration is still
/// folded from the unmodified snapshot, so the result meets the same contract as
/// [`accelerations`] whatever the order.
pub fn accelerations_in_order<B, A: Copy, P: Fn(&B, &B) -> A, C: Fn(A, A) -> A>(
    bodies: &Vec<B>,
    order: &Vec<usize>,
    zero: A,
    pull: P,
    combine: C,
) -> (acc: Vec<A>)
    requires
        callable(pull, combine),
        is_visiting_order(order@, bodies.len() as int),
    ensures
        is_acceleration_field(pull, combine, zero, bodies@, acc@),
{
    let n = bodies.len();
    let mut acc: Vec<A> = Vec::new();
    let mut k: usize = 0;
    while k < n
        invariant
            n == bodies.len(),
            k <= n,
            acc.len() == k,
        decreases n - k,
    {
        acc.push(zero);
        k = k + 1;
    }
    k = 0;
    while k < n
        invariant
            n == bodies.len(),
            k <= n,
            acc.len() == n,
            callable(pull, combine),
            is_visiting_order(order@, n as int),
            forall|m: int|
                0 <= m < k ==> folds_to(
                    pull,
                    combine,
                    zero,
                    bodies@,
                    order[m] as int,
                    others(n as int, order[m] as int),
                    #[trigger] acc[order[m] as int],
                ),
        decreases n - k,
    {
        let i = order[k];
        let a = pull_on(bodies, i, zero, &pull, &combine);
        acc.set(i, a);
        k = k + 1;
    }
    proof {
        assert forall|i: int| 0 <= i < n implies folds_to(
            pull,
            combine,
            zero,
            bodies@,
            i,
            others(n as int, i),
            #[trigger] acc[i],
        ) by {
            assert(lists(order@, i));
            let m = choose|m: int| 0 <= m < n && order[m] == i;
            assert(acc[order[m] as int] == acc[i]);
        }
    }
    acc
}

/// Every body may be integrated with any acceleration and time step.
pub open spec fn can_integrate<B, A, T, I: Fn(&B, &A, T) -> B>(integrate: I) -> bool {
    forall|b: &B, a: &A, t: T| #[trigger] integrate.requires((b, a, t))
}

/// `after` is `before` with each body advanced over `dt` by its own acceleration.
pub open spec fn advanced<B, A, T, I: Fn(&B, &A, T) -> B>(
    integrate: I,
    dt: T,
    before: Seq<B>,
    acc: Seq<A>,
    after: Seq<B>,
) -> bool {
    &&& acc.len() == before.len()
    &&& after.len() == before.len()
    &&& forall|i: int|
        0 <= i < before.len() ==> integrate.ensures((&before[i], &acc[i], dt), #[trigger] after[i])
}

/// `after` is what one tick of `dt` can make of `before`: the accelerations of the
/// snapshot `before`, then each body advanced by its own.
pub open spec fn stepped<B, A, T, P: Fn(&B, &B) -> A, C: Fn(A, A) -> A, I: Fn(&B, &A, T) -> B>(
    pull: P,
    combine: C,
    integrate: I,
    zero: A,
    dt: T,
    before: Seq<B>,
    after: Seq<B>,
) -> bool {
    exists|acc: Seq<A>|
        #[trigger] is_acceleration_field(pull, combine, zero, before, acc) && advanced(
            integrate,
            dt,
            before,
            acc,
            after,
        )
}

/// Apply: advance each body over `dt` by its own acceleration `acc[i]`.
pub fn apply<B, A, T: Copy, I: Fn(&B, &A, T) -> B>(
    bodies: &mut Vec<B>,
    acc: &Vec<A>,
    dt: T,
    integrate: I,
)
    requires
        old(bodies).len() == acc.len(),
        can_integrate(integrate),
    ensures
        advanced(integrate, dt, old(bodies)@, acc@, final(bodies)@),
{
    let n = bodies.len();
    let mut i: usize = 0;
    while i < n
        invariant
            n == bodies.len(),
            n == acc.len(),
            n == old(bodies).len(),
            i <= n,
            can_integrate(integrate),
            forall|k: int|
                0 <= k < i ==> integrate.ensures((&old(bodies)[k], &acc[k], dt), #[trigger] bodies[k]),
            forall|k: int| i <= k < n ==> bodies[k] == old(bodies)[k],
        decreases n - i,
    {
        let b = integrate(&bodies[i], &acc[i], dt);
        bodies.set(i, b);
        i = i + 1;
    }
}

/// One tick of `dt`: accumulate over the current snapshot, then apply.
pub fn step<B, A: Copy, T: Copy, P: Fn(&B, &B) -> A, C: Fn(A, A) -> A, I: Fn(&B, &A, T) -> B>(
    bodies: &mut Vec<B>,
    dt: T,
    zero: A,
    pull: P,
    combine: C,
    integrate: I,
)
    requires
        callable(pull, combine),
        can_integrate(integrate),
    ensures
        stepped(pull, combine, integrate, zero, dt, old(bodies)@, final(bodies)@),
{
    let acc = accelerations(bodies, zero, pull, combine);
    apply(bodies, &acc, dt, integrate);
    assert(is_acceleration_field(pull, combine, zero, old(bodies)@, acc@));
}

} // verus!
