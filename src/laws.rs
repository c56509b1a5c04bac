use vstd::prelude::*;

use crate::join::{after_a, after_b, after_outcome, outcome, started, step_of, Action, Event, TryJoin};
use crate::slot::{failure_of, settled, Progress, Slot};

verus! {

/// One whole resumption of an active join, where `pa` and `pb` are what
/// operations `a` and `b` report if they are resumed: `a` is resumed if
/// pending, `b` is resumed if pending and `a` did not fail, and a resolved
/// slot is skipped. Gives the join afterwards and what it yields.
pub open spec fn cycle<A, B, AR, BR, E>(
    j: TryJoin<A, B, AR, BR>,
    pa: Progress<Result<AR, E>>,
    pb: Progress<Result<BR, E>>,
) -> (TryJoin<A, B, AR, BR>, Progress<Result<(AR, BR), E>>) {
    let polls_a = j is Active && j->a is Pending;
    if polls_a && failure_of(pa) is Some {
        (after_a(j, pa), Progress::Ready(Err(failure_of(pa)->0)))
    } else {
        let j1 = if polls_a {
            after_a(j, pa)
        } else {
            j
        };
        let polls_b = j1 is Active && j1->b is Pending;
        if polls_b && failure_of(pb) is Some {
            (after_b(j1, pb), Progress::Ready(Err(failure_of(pb)->0)))
        } else {
            let j2 = if polls_b {
                after_b(j1, pb)
            } else {
                j1
            };
            (after_outcome(j2), outcome(j2))
        }
    }
}

/// The join after `n` resumptions, where the `t`-th resumption of each
/// operation reports `ra[t]` and `rb[t]`.
pub open spec fn run<A, B, AR, BR, E>(
    j: TryJoin<A, B, AR, BR>,
    ra: Seq<Progress<Result<AR, E>>>,
    rb: Seq<Progress<Result<BR, E>>>,
    n: nat,
) -> TryJoin<A, B, AR, BR>
    decreases n,
{
    if n == 0 {
        j
    } else {
        cycle(run(j, ra, rb, (n - 1) as nat), ra[n - 1], rb[n - 1]).0
    }
}

/// What the join yields at its `n`-th resumption (counting from one).
pub open spec fn yielded<A, B, AR, BR, E>(
    j: TryJoin<A, B, AR, BR>,
    ra: Seq<Progress<Result<AR, E>>>,
    rb: Seq<Progress<Result<BR, E>>>,
    n: nat,
) -> Progress<Result<(AR, BR), E>>
    recommends
        n > 0,
{
    cycle(run(j, ra, rb, (n - 1) as nat), ra[n - 1], rb[n - 1]).1
}

/// A slot that resolves to `v` at resumption `i` of its operation, after
/// `i` reports of not-ready.
pub open spec fn resolves_at<T, E>(r: Seq<Progress<Result<T, E>>>, i: nat, v: T) -> bool {
    &&& i < r.len()
    &&& forall|t: int| 0 <= t < i ==> r[t] is Pending
    &&& r[i as int] == Progress::<Result<T, E>>::Ready(Ok(v))
}

/// The slot that operation `op` leaves after `m` resumptions when it
/// resolves to `v` at resumption `i`.
pub open spec fn slot_after<F, T>(op: F, v: T, i: nat, m: nat) -> Slot<F, T> {
    if m > i {
        Slot::Resolved(v)
    } else {
        Slot::Pending(op)
    }
}

/// Both operations succeed, after any number of not-ready reports each:
/// the join is not ready until the later of the two resolves, and then
/// yields the pair `(a's value, b's value)`, whichever resolved first, and is
/// finished.
pub proof fn lemma_both_succeed<A, B, AR, BR, E>(
    a: A,
    b: B,
    ra: Seq<Progress<Result<AR, E>>>,
    rb: Seq<Progress<Result<BR, E>>>,
    i: nat,
    k: nat,
    va: AR,
    vb: BR,
)
    requires
        resolves_at(ra, i, va),
        resolves_at(rb, k, vb),
    ensures
        ({
            let j = started::<A, B, AR, BR>(a, b);
            let n = if i > k { i } else { k };
            &&& forall|m: nat| 0 < m <= n ==> (#[trigger] yielded(j, ra, rb, m)) is Pending
            &&& yielded(j, ra, rb, n + 1) == Progress::<Result<(AR, BR), E>>::Ready(Ok((va, vb)))
            &&& run(j, ra, rb, n + 1) is Finished
        }),
{
    let j = started::<A, B, AR, BR>(a, b);
    let n = if i > k { i } else { k };
    assert forall|m: nat| 0 < m <= n implies (#[trigger] yielded(j, ra, rb, m)) is Pending by {
        lemma_run_until_both_resolve(a, b, ra, rb, i, k, va, vb, (m - 1) as nat);
    }
    lemma_run_until_both_resolve(a, b, ra, rb, i, k, va, vb, n);
}

/// Before the later of the two operations resolves, the join is active and
/// each slot is pending or resolved as its reports so far say.
proof fn lemma_run_until_both_resolve<A, B, AR, BR, E>(
    a: A,
    b: B,
    ra: Seq<Progress<Result<AR, E>>>,
    rb: Seq<Progress<Result<BR, E>>>,
    i: nat,
    k: nat,
    va: AR,
    vb: BR,
    m: nat,
)
    requires
        resolves_at(ra, i, va),
        resolves_at(rb, k, vb),
        m <= i || m <= k,
    ensures
        run(started::<A, B, AR, BR>(a, b), ra, rb, m) == (TryJoin::Active {
            a: slot_after(a, va, i, m),
            b: slot_after(b, vb, k, m),
        }),
        m < i || m < k ==> yielded(started::<A, B, AR, BR>(a, b), ra, rb, m + 1) is Pending,
        m == (if i > k { i } else { k }) ==> yielded(started::<A, B, AR, BR>(a, b), ra, rb, m + 1)
            == Progress::<Result<(AR, BR), E>>::Ready(Ok((va, vb))),
        m == (if i > k { i } else { k }) ==> run(started::<A, B, AR, BR>(a, b), ra, rb, m + 1) is Finished,
    decreases m,
{
    if m > 0 {
        lemma_run_until_both_resolve(a, b, ra, rb, i, k, va, vb, (m - 1) as nat);
    }
    assert(m < i ==> ra[m as int] is Pending);
    assert(m < k ==> rb[m as int] is Pending);
}

/// Operation `a` fails at its resumption `i` while `b` has not resolved by
/// then: the join is not ready before, yields `a`'s error at that very
/// resumption, and is finished.
pub proof fn lemma_a_fails<A, B, AR, BR, E>(
    a: A,
    b: B,
    ra: Seq<Progress<Result<AR, E>>>,
    rb: Seq<Progress<Result<BR, E>>>,
    i: nat,
    e: E,
)
    requires
        i < ra.len(),
        i < rb.len(),
        forall|t: int| 0 <= t < i ==> ra[t] is Pending,
        ra[i as int] == Progress::<Result<AR, E>>::Ready(Err(e)),
        forall|t: int| 0 <= t <= i ==> rb[t] is Pending,
    ensures
        ({
            let j = started::<A, B, AR, BR>(a, b);
            &&& forall|m: nat| 0 < m <= i ==> (#[trigger] yielded(j, ra, rb, m)) is Pending
            &&& yielded(j, ra, rb, i + 1) == Progress::<Result<(AR, BR), E>>::Ready(Err(e))
            &&& run(j, ra, rb, i + 1) is Finished
        }),
{
    let j = started::<A, B, AR, BR>(a, b);
    assert forall|m: nat| 0 < m <= i implies (#[trigger] yielded(j, ra, rb, m)) is Pending by {
        lemma_untouched_run(a, b, ra, rb, (m - 1) as nat);
    }
    lemma_untouched_run(a, b, ra, rb, i);
}

/// While both operations report not-ready, the join stays as it started.
proof fn lemma_untouched_run<A, B, AR, BR, E>(
    a: A,
    b: B,
    ra: Seq<Progress<Result<AR, E>>>,
    rb: Seq<Progress<Result<BR, E>>>,
    m: nat,
)
    requires
        forall|t: int| 0 <= t < m ==> ra[t] is Pending,
        forall|t: int| 0 <= t < m ==> rb[t] is Pending,
    ensures
        run(started::<A, B, AR, BR>(a, b), ra, rb, m) == started::<A, B, AR, BR>(a, b),
    decreases m,
{
    if m > 0 {
        lemma_untouched_run(a, b, ra, rb, (m - 1) as nat);
        assert(ra[m - 1] is Pending);
        assert(rb[m - 1] is Pending);
    }
}

/// When both pending operations fail in the same resumption, the join
/// yields `a`'s error: `b` is not even resumed.
pub proof fn lemma_first_failure_wins<A, B, AR, BR, E>(
    j: TryJoin<A, B, AR, BR>,
    ea: E,
    pb: Progress<Result<BR, E>>,
)
    requires
        j is Active,
        j->a is Pending,
    ensures
        cycle(j, Progress::<Result<AR, E>>::Ready(Err(ea)), pb) == (
            TryJoin::<A, B, AR, BR>::Finished,
            Progress::<Result<(AR, BR), E>>::Ready(Err(ea)),
        ),
{
}

/// A slot never goes back: once resolved, it keeps its value for as long as
/// the join is active, and a slot that is pending after a resumption was
/// pending before it. Resolving a slot twice is ruled out, since only a
/// pending slot may be settled.
pub proof fn lemma_slot_monotonic<A, B, AR, BR, E>(
    j: TryJoin<A, B, AR, BR>,
    pa: Progress<Result<AR, E>>,
    pb: Progress<Result<BR, E>>,
)
    requires
        j is Active,
    ensures
        ({
            let next = cycle(j, pa, pb).0;
            &&& next is Active && j->a is Resolved ==> next->a == j->a
            &&& next is Active && j->b is Resolved ==> next->b == j->b
            &&& next is Active && next->a is Pending ==> j->a == next->a
            &&& next is Active && next->b is Pending ==> j->b == next->b
        }),
        forall|v: AR, p: Progress<Result<AR, E>>| #[trigger]
            settled(Slot::<A, AR>::Resolved(v), p) == Slot::<A, AR>::Resolved(v),
{
}

/// A resumption yields a result exactly when it leaves the join finished,
/// so a join that has yielded is never resumed again: every resumption step
/// requires an active join.
pub proof fn lemma_yield_finishes<A, B, AR, BR, E>(
    j: TryJoin<A, B, AR, BR>,
    pa: Progress<Result<AR, E>>,
    pb: Progress<Result<BR, E>>,
)
    requires
        j is Active,
    ensures
        (cycle(j, pa, pb).1 is Ready) == (cycle(j, pa, pb).0 is Finished),
{
}

/// A success is always the pair `(a's value, b's value)`: each value is the
/// one its own slot already held or its own operation reported in this
/// resumption, whatever order they resolved in.
pub proof fn lemma_success_shape<A, B, AR, BR, E>(
    j: TryJoin<A, B, AR, BR>,
    pa: Progress<Result<AR, E>>,
    pb: Progress<Result<BR, E>>,
    x: AR,
    y: BR,
)
    requires
        j is Active,
        cycle(j, pa, pb).1 == Progress::<Result<(AR, BR), E>>::Ready(Ok((x, y))),
    ensures
        j->a == Slot::<A, AR>::Resolved(x) || (j->a is Pending && pa == Progress::<
            Result<AR, E>,
        >::Ready(Ok(x))),
        j->b == Slot::<B, BR>::Resolved(y) || (j->b is Pending && pb == Progress::<
            Result<BR, E>,
        >::Ready(Ok(y))),
{
}

/// A resumption run through `step`: it begins with `Resumed`, answers
/// `ResumeA` with `pa` and `ResumeB` with `pb`, and stops at anything else.
/// Gives the join afterwards and the last action.
pub open spec fn driven<A, B, AR, BR, E>(
    j: TryJoin<A, B, AR, BR>,
    pa: Progress<Result<AR, E>>,
    pb: Progress<Result<BR, E>>,
) -> (TryJoin<A, B, AR, BR>, Action<AR, BR, E>) {
    let first = step_of(j, Event::Resumed);
    let second = if first.1 is ResumeA {
        step_of(first.0, Event::AReported(pa))
    } else {
        first
    };
    if second.1 is ResumeB {
        step_of(second.0, Event::BReported(pb))
    } else {
        second
    }
}

/// What a final action says the join yields.
pub open spec fn yield_of<AR, BR, E>(act: Action<AR, BR, E>) -> Progress<Result<(AR, BR), E>> {
    match act {
        Action::Yield(r) => Progress::Ready(r),
        _ => Progress::Pending,
    }
}

/// Driving an active join through `step` for one resumption asks for each
/// pending operation at most once, `a` before `b`, only with the slot
/// pending when asked, ends within three steps at `Yield` or `NotReady`, and
/// does exactly what `cycle` describes.
pub proof fn lemma_step_runs_cycle<A, B, AR, BR, E>(
    j: TryJoin<A, B, AR, BR>,
    pa: Progress<Result<AR, E>>,
    pb: Progress<Result<BR, E>>,
)
    requires
        j is Active,
    ensures
        ({
            let first = step_of(j, Event::<AR, BR, E>::Resumed);
            let second = step_of(first.0, Event::<AR, BR, E>::AReported(pa));
            &&& (first.1 is ResumeA || first.1 is ResumeB) ==> first.0 == j
            &&& first.1 is ResumeA ==> j->a is Pending
            &&& first.1 is ResumeB ==> j->a is Resolved && j->b is Pending
            &&& first.1 is ResumeA && second.1 is ResumeB ==> second.0 is Active
                && second.0->b is Pending
            &&& first.1 is ResumeA ==> !(second.1 is ResumeA)
        }),
        driven(j, pa, pb).1 is Yield || driven(j, pa, pb).1 is NotReady,
        driven(j, pa, pb).0 == cycle(j, pa, pb).0,
        yield_of(driven(j, pa, pb).1) == cycle(j, pa, pb).1,
{
}

/// A step yields a result exactly when it leaves the join finished, so a
/// join that has yielded is never stepped again: `step` requires an active
/// join.
pub proof fn lemma_step_yield_finishes<A, B, AR, BR, E>(
    j: TryJoin<A, B, AR, BR>,
    ev: Event<AR, BR, E>,
)
    requires
        j is Active,
        ev is AReported ==> j->a is Pending,
        ev is BReported ==> j->b is Pending,
    ensures
        (step_of(j, ev).1 is Yield) == (step_of(j, ev).0 is Finished),
{
}

} // verus!
