use vstd::prelude::*;

verus! {

/// What one resumption of an operation reports.
pub enum Progress<T> {
    /// The operation completed with this value.
    Ready(T),
    /// The operation wants to be resumed again later.
    Pending,
}

/// One branch of a join: the operation still to be driven, or the value it
/// produced.
pub enum Slot<F, T> {
    /// The operation, not yet resolved, owned by the slot.
    Pending(F),
    /// The successful value taken from the operation.
    Resolved(T),
}

/// The failure that a report carries, if it carries one.
pub open spec fn failure_of<T, E>(p: Progress<Result<T, E>>) -> Option<E> {
    match p {
        Progress::Ready(Err(e)) => Some(e),
        _ => None,
    }
}

/// The slot after its operation reported `p`: a success resolves a pending
/// slot; anything else leaves the slot as it was.
pub open spec fn settled<F, T, E>(s: Slot<F, T>, p: Progress<Result<T, E>>) -> Slot<F, T> {
    match (s, p) {
        (Slot::Pending(_), Progress::Ready(Ok(v))) => Slot::Resolved(v),
        _ => s,
    }
}

impl<T> Progress<T> {
    pub fn is_ready(&self) -> (r: bool)
        ensures
            r == (*self is Ready),
    {
        match self {
            Progress::Ready(_) => true,
            Progress::Pending => false,
        }
    }
}

impl<F, T> Slot<F, T> {
    pub fn is_pending(&self) -> (r: bool)
        ensures
            r == (*self is Pending),
    {
        match self {
            Slot::Pending(_) => true,
            Slot::Resolved(_) => false,
        }
    }

    /// Records what the slot's operation reported. A success resolves the
    /// slot; a failure is handed back and leaves the slot pending.
    pub fn settle<E>(&mut self, p: Progress<Result<T, E>>) -> (r: Option<E>)
        requires
            *old(self) is Pending,
        ensures
            *final(self) == settled(*old(self), p),
            r == failure_of(p),
    {
        match p {
            Progress::Ready(Ok(v)) => {
                *self = Slot::Resolved(v);
                None
            },
            Progress::Ready(Err(e)) => Some(e),
            Progress::Pending => None,
        }
    }
}

} // verus!
