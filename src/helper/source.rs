use vstd::prelude::*;
use std::sync::{Arc, Mutex};

verus! {

#[verifier::external_type_specification]
#[verifier::external_body]
#[verifier::reject_recursive_types(T)]
pub struct ExMutex<T: ?Sized>(Mutex<T>);

/// What the shared cell of a [`Source`] holds.
#[verifier::reject_recursive_types(T)]
enum Slot<T> {
    /// The state, at rest.
    Live(T),
    /// The state is lent out to a running `map`.
    Busy,
    /// The owner is gone, and the state with it.
    Gone,
}

/// Why [`SourceRef::try_map`] could not reach the state.
#[derive(Clone, Copy, Debug, PartialEq, Eq, Structural)]
pub enum AccessError {
    /// The owner has been dropped.
    Gone,
    /// Another `map` on the same state is running: a reentrant call.
    Busy,
}

/// The owning handle of a piece of state. Dropping it drops the state and
/// leaves every [`SourceRef`] made from it inert.
#[verifier::reject_recursive_types(T)]
pub struct Source<T> {
    data: Arc<Mutex<Slot<T>>>,
}

/// A non-owning handle to the state of a [`Source`]: it reaches the state
/// while the owner lives, and nothing afterwards.
#[verifier::reject_recursive_types(T)]
pub struct SourceRef<T> {
    data: Arc<Mutex<Slot<T>>>,
}

/// Relies on `Mutex::new`: a cell holding `v`, unlocked.
#[verifier::external_body]
fn new_cell<T>(v: Slot<T>) -> (r: Mutex<Slot<T>>) {
    Mutex::new(v)
}

/// Relies on `Mutex::lock`: puts `v` into the cell and hands back what it
/// held. No guard outlives a call here, so the lock is never held by the
/// caller's thread already and the call does not panic.
#[verifier::external_body]
fn swap<T>(m: &Mutex<Slot<T>>, v: Slot<T>) -> (r: Slot<T>)
    opens_invariants none
    no_unwind
{
    std::mem::replace(&mut *m.lock().unwrap_or_else(|e| e.into_inner()), v)
}

/// Runs `func` on `t`, handing back the state and the result.
fn apply<T, R, F: FnOnce(&mut T) -> R>(func: F, t: T) -> (r: (T, R))
    requires
        forall|x: &mut T| func.requires((x,)),
    ensures
        exists|x: &mut T| func.ensures((x,), r.1),
{
    let mut t = t;
    let tr = &mut t;
    let v = func(tr);
    let r = (t, v);
    assert(r.1 == v);
    r
}

impl<T> Source<T> {
    /// Takes ownership of `data`.
    pub fn new(data: T) -> (r: Source<T>) {
        Source { data: Arc::new(new_cell(Slot::Live(data))) }
    }

    /// A new non-owning handle to the state.
    pub fn borrow(&self) -> (r: SourceRef<T>) {
        SourceRef { data: self.data.clone() }
    }
}

/// Drops the state at once, whatever handles to the cell remain. When a
/// `map` holds the state at that moment, that `map` drops it as it ends.
impl<T> Drop for Source<T> {
    fn drop(&mut self)
        opens_invariants none
        no_unwind
    {
        let _ = swap(&*self.data, Slot::Gone);
    }
}

impl<T> SourceRef<T> {
    /// Runs `func` on the state and gives its result. Without running it,
    /// gives `Gone` once the owner is dropped, and `Busy` when called from
    /// inside another `map` on the same state.
    pub fn try_map<R, F: FnOnce(&mut T) -> R>(&self, func: F) -> (r: Result<R, AccessError>)
        requires
            forall|t: &mut T| func.requires((t,)),
        ensures
            r is Ok ==> exists|t: &mut T| func.ensures((t,), r->Ok_0),
    {
        match swap(&*self.data, Slot::Busy) {
            Slot::Live(t) => {
                let (t, v) = apply(func, t);
                match swap(&*self.data, Slot::Live(t)) {
                    Slot::Gone => {
                        // The owner left while `func` ran: the state goes now.
                        let _ = swap(&*self.data, Slot::Gone);
                    },
                    _ => {},
                }
                let r = Ok(v);
                assert(r->Ok_0 == v);
                r
            },
            Slot::Busy => Err(AccessError::Busy),
            Slot::Gone => {
                let _ = swap(&*self.data, Slot::Gone);
                Err(AccessError::Gone)
            },
        }
    }

    /// Runs `func` on the state and gives its result, or gives nothing
    /// without running it when [`SourceRef::try_map`] cannot reach the state.
    pub fn map<R, F: FnOnce(&mut T) -> R>(&self, func: F) -> (r: Option<R>)
        requires
            forall|t: &mut T| func.requires((t,)),
        ensures
            r is Some ==> exists|t: &mut T| func.ensures((t,), r->0),
    {
        match self.try_map(func) {
            Ok(v) => {
                let r = Some(v);
                assert(r->0 == v);
                r
            },
            Err(_) => None,
        }
    }
}

impl<T> Clone for SourceRef<T> {
    fn clone(&self) -> (r: SourceRef<T>) {
        SourceRef { data: self.data.clone() }
    }
}

} // verus!
