use vstd::prelude::*;

use crate::slot::{failure_of, settled, Progress, Slot};

verus! {

/// The join of two operations whose results share the error type.
///
/// While `Active`, each slot holds its operation or the value that it
/// produced. Once the join has yielded its result it is `Finished`, and
/// resuming it again is a contract violation.
pub enum TryJoin<A, B, AR, BR> {
    Active { a: Slot<A, AR>, b: Slot<B, BR> },
    Finished,
}

/// What the driver of a join tells it: that a resumption has begun, or what
/// the operation that the join asked for reported.
pub enum Event<AR, BR, E> {
    /// The join itself is being resumed.
    Resumed,
    /// Operation `a` was resumed once and reported this.
    AReported(Progress<Result<AR, E>>),
    /// Operation `b` was resumed once and reported this.
    BReported(Progress<Result<BR, E>>),
}

/// What the join asks its driver to do next.
pub enum Action<AR, BR, E> {
    /// Resume operation `a` once and report back.
    ResumeA,
    /// Resume operation `b` once and report back.
    ResumeB,
    /// The join has its result; it is finished.
    Yield(Result<(AR, BR), E>),
    /// The join is not ready; resume it again later.
    NotReady,
}

/// The join after operation `a` reported `p`: a failure finishes it, a
/// success resolves slot `a`, and slot `b` is left alone.
pub open spec fn after_a<A, B, AR, BR, E>(
    j: TryJoin<A, B, AR, BR>,
    p: Progress<Result<AR, E>>,
) -> TryJoin<A, B, AR, BR> {
    match j {
        TryJoin::Active { a, b } => if failure_of(p) is Some {
            TryJoin::Finished
        } else {
            TryJoin::Active { a: settled(a, p), b }
        },
        TryJoin::Finished => TryJoin::Finished,
    }
}

/// The join after operation `b` reported `p`: a failure finishes it, a
/// success resolves slot `b`, and slot `a` is left alone.
pub open spec fn after_b<A, B, AR, BR, E>(
    j: TryJoin<A, B, AR, BR>,
    p: Progress<Result<BR, E>>,
) -> TryJoin<A, B, AR, BR> {
    match j {
        TryJoin::Active { a, b } => if failure_of(p) is Some {
            TryJoin::Finished
        } else {
            TryJoin::Active { a, b: settled(b, p) }
        },
        TryJoin::Finished => TryJoin::Finished,
    }
}

/// Whether both slots hold their values.
pub open spec fn both_resolved<A, B, AR, BR>(j: TryJoin<A, B, AR, BR>) -> bool {
    j is Active && j->a is Resolved && j->b is Resolved
}

/// What the join yields at the end of a resumption in which no operation
/// failed: the pair of values, `a`'s first, once both are there.
pub open spec fn outcome<A, B, AR, BR, E>(j: TryJoin<A, B, AR, BR>) -> Progress<
    Result<(AR, BR), E>,
> {
    if both_resolved(j) {
        Progress::Ready(Ok((j->a->Resolved_0, j->b->Resolved_0)))
    } else {
        Progress::Pending
    }
}

/// The join after the end of a resumption in which no operation failed.
pub open spec fn after_outcome<A, B, AR, BR>(j: TryJoin<A, B, AR, BR>) -> TryJoin<
    A,
    B,
    AR,
    BR,
> {
    if both_resolved(j) {
        TryJoin::Finished
    } else {
        j
    }
}

/// The end of a resumption in which no operation failed: the join
/// afterwards, and the pair of values once both are there.
pub open spec fn finish_of<A, B, AR, BR, E>(j: TryJoin<A, B, AR, BR>) -> (
    TryJoin<A, B, AR, BR>,
    Action<AR, BR, E>,
) {
    (
        after_outcome(j),
        match outcome::<A, B, AR, BR, E>(j) {
            Progress::Ready(r) => Action::Yield(r),
            Progress::Pending => Action::NotReady,
        },
    )
}

/// One step of a resumption: the join after event `ev` and what it asks for
/// next. A resumption asks for `a` first if it is pending, then for `b` if it
/// is pending, and ends at once with the error of the first operation that
/// fails; a resolved slot is never asked for.
pub open spec fn step_of<A, B, AR, BR, E>(j: TryJoin<A, B, AR, BR>, ev: Event<AR, BR, E>) -> (
    TryJoin<A, B, AR, BR>,
    Action<AR, BR, E>,
) {
    match ev {
        Event::Resumed => if j->a is Pending {
            (j, Action::ResumeA)
        } else if j->b is Pending {
            (j, Action::ResumeB)
        } else {
            finish_of(j)
        },
        Event::AReported(p) => match failure_of(p) {
            Some(e) => (after_a(j, p), Action::Yield(Err(e))),
            None => if after_a(j, p)->b is Pending {
                (after_a(j, p), Action::ResumeB)
            } else {
                finish_of(after_a(j, p))
            },
        },
        Event::BReported(p) => match failure_of(p) {
            Some(e) => (after_b(j, p), Action::Yield(Err(e))),
            None => finish_of(after_b(j, p)),
        },
    }
}

/// A join of `a` and `b` as it starts: active, with both operations pending.
pub open spec fn started<A, B, AR, BR>(a: A, b: B) -> TryJoin<A, B, AR, BR> {
    TryJoin::Active { a: Slot::Pending(a), b: Slot::Pending(b) }
}

/// Starts a join of `a` and `b`: active, with both operations pending and
/// neither resumed yet.
pub fn try_join<A, B, AR, BR>(a: A, b: B) -> (r: TryJoin<A, B, AR, BR>)
    ensures
        r == started::<A, B, AR, BR>(a, b),
{
    TryJoin::Active { a: Slot::Pending(a), b: Slot::Pending(b) }
}

impl<A, B, AR, BR> TryJoin<A, B, AR, BR> {
    /// Whether the join has yielded its result.
    pub fn is_finished(&self) -> (r: bool)
        ensures
            r == (*self is Finished),
    {
        match self {
            TryJoin::Active { .. } => false,
            TryJoin::Finished => true,
        }
    }

    /// Whether operation `a` is still to be resumed.
    pub fn a_pending(&self) -> (r: bool)
        ensures
            r == (*self is Active && self->a is Pending),
    {
        match self {
            TryJoin::Active { a, .. } => a.is_pending(),
            TryJoin::Finished => false,
        }
    }

    /// Whether operation `b` is still to be resumed.
    pub fn b_pending(&self) -> (r: bool)
        ensures
            r == (*self is Active && self->b is Pending),
    {
        match self {
            TryJoin::Active { b, .. } => b.is_pending(),
            TryJoin::Finished => false,
        }
    }

    /// Records what operation `a` reported. A failure is handed back and
    /// finishes the join, dropping operation `b` unresolved.
    pub fn settle_a<E>(&mut self, p: Progress<Result<AR, E>>) -> (r: Option<E>)
        requires
            *old(self) is Active,
            old(self)->a is Pending,
        ensures
            *final(self) == after_a(*old(self), p),
            r == failure_of(p),
    {
        let failure = match self {
            TryJoin::Active { a, .. } => a.settle(p),
            TryJoin::Finished => None,
        };
        if failure.is_some() {
            *self = TryJoin::Finished;
        }
        failure
    }

    /// Records what operation `b` reported. A failure is handed back and
    /// finishes the join.
    pub fn settle_b<E>(&mut self, p: Progress<Result<BR, E>>) -> (r: Option<E>)
        requires
            *old(self) is Active,
            old(self)->b is Pending,
        ensures
            *final(self) == after_b(*old(self), p),
            r == failure_of(p),
    {
        let failure = match self {
            TryJoin::Active { b, .. } => b.settle(p),
            TryJoin::Finished => None,
        };
        if failure.is_some() {
            *self = TryJoin::Finished;
        }
        failure
    }

    /// Ends a resumption in which no operation failed. Once both values are
    /// there they are moved out as a pair, `a`'s first, and the join is
    /// finished; until then it is not ready and stays as it is.
    ///
    /// Nothing is moved while an operation is still pending, so an operation
    /// that must stay at one address while suspended is left in place.
    pub fn complete<E>(&mut self) -> (r: Progress<Result<(AR, BR), E>>)
        requires
            *old(self) is Active,
        ensures
            r == outcome::<A, B, AR, BR, E>(*old(self)),
            *final(self) == after_outcome(*old(self)),
    {
        let ready = match self {
            TryJoin::Active { a: Slot::Resolved(_), b: Slot::Resolved(_) } => true,
            _ => false,
        };
        if !ready {
            return Progress::Pending;
        }
        let mut taken = TryJoin::Finished;
        core::mem::swap(self, &mut taken);
        match taken {
            TryJoin::Active { a: Slot::Resolved(x), b: Slot::Resolved(y) } => Progress::Ready(
                Ok((x, y)),
            ),
            _ => {
                proof {
                    assert(false);
                }
                Progress::Pending
            },
        }
    }
    /// Takes one event of a resumption and says what to do next; see
    /// `step_of`. A driver begins each resumption with `Event::Resumed`,
    /// answers `ResumeA` with `AReported` and `ResumeB` with `BReported`, and
    /// ends the resumption at `Yield` or `NotReady`.
    pub fn step<E>(&mut self, ev: Event<AR, BR, E>) -> (act: Action<AR, BR, E>)
        requires
            *old(self) is Active,
            ev is AReported ==> old(self)->a is Pending,
            ev is BReported ==> old(self)->b is Pending,
        ensures
            (*final(self), act) == step_of(*old(self), ev),
    {
        match ev {
            Event::Resumed => {
                if self.a_pending() {
                    Action::ResumeA
                } else if self.b_pending() {
                    Action::ResumeB
                } else {
                    self.finish()
                }
            },
            Event::AReported(p) => match self.settle_a(p) {
                Some(e) => Action::Yield(Err(e)),
                None => {
                    if self.b_pending() {
                        Action::ResumeB
                    } else {
                        self.finish()
                    }
                },
            },
            Event::BReported(p) => match self.settle_b(p) {
                Some(e) => Action::Yield(Err(e)),
                None => self.finish(),
            },
        }
    }

    /// Ends a resumption in which no operation failed.
    fn finish<E>(&mut self) -> (act: Action<AR, BR, E>)
        requires
            *old(self) is Active,
        ensures
            (*final(self), act) == finish_of::<A, B, AR, BR, E>(*old(self)),
    {
        match self.complete() {
            Progress::Ready(r) => Action::Yield(r),
            Progress::Pending => Action::NotReady,
        }
    }
}

} // verus!
