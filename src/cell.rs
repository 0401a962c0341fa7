//! The one-time cell that holds a fixture's outcome.

use vstd::prelude::*;

use crate::outcome::{unwrap, outcome_wf, read_view, unwrapped, Outcome};

verus! {

#[verifier::external_type_specification]
#[verifier::external_body]
#[verifier::reject_recursive_types(T)]
pub struct ExOnceCell<T>(once_cell::sync::OnceCell<T>);

/// Relies on once_cell::sync::OnceCell::new: a cell that holds nothing yet.
#[verifier::external_body]
fn empty_cell<T>() -> (c: once_cell::sync::OnceCell<T>) {
    once_cell::sync::OnceCell::new()
}

/// Relies on once_cell::sync::OnceCell::get_or_init: returns the stored
/// value, or runs `f` once, stores its result and returns it. Concurrent
/// callers wait for the one running `f`. The cell is a private field of
/// `FixtureCell`, filled only through this function, so whatever it returns
/// came from an `f` that met this `requires`.
#[verifier::external_body]
fn cell_get_or_init<T, F: FnOnce() -> Outcome<T>>(
    c: &once_cell::sync::OnceCell<Outcome<T>>,
    f: F,
) -> (r: &Outcome<T>)
    requires
        f.requires(()),
        forall|o: Outcome<T>| #[trigger] f.ensures((), o) ==> outcome_wf(o),
    ensures
        outcome_wf(*r),
{
    c.get_or_init(f)
}

/// What a read may give whatever outcome was stored: the unwrapping of some
/// supported outcome under `context`.
pub open spec fn readable<T>(context: Seq<char>, r: Result<T, Seq<char>>) -> bool {
    exists|o: Outcome<T>| outcome_wf(o) && #[trigger] unwrapped(o, context) == r
}

/// The process-wide, fill-once store of one fixture's outcome.
#[verifier::reject_recursive_types(T)]
pub struct FixtureCell<T> {
    cell: once_cell::sync::OnceCell<Outcome<T>>,
}

impl<T> FixtureCell<T> {
    /// An empty cell.
    pub fn new() -> (c: Self) {
        FixtureCell { cell: empty_cell() }
    }

    /// Reads the fixture: on the first read from any caller `body` runs and
    /// its outcome is stored; every read then unwraps the stored outcome to
    /// the value, or to the message `"<context> failed: <repr>"`.
    pub fn read<'a, F: FnOnce() -> Outcome<T>>(&'a self, body: F, context: &str) -> (r: Result<
        &'a T,
        String,
    >)
        requires
            body.requires(()),
            forall|o: Outcome<T>| #[trigger] body.ensures((), o) ==> outcome_wf(o),
        ensures
            readable(context@, read_view(r)),
    {
        let stored = cell_get_or_init(&self.cell, body);
        let r = unwrap(stored, context);
        assert(outcome_wf(*stored) && unwrapped(*stored, context@) == read_view(r));
        r
    }
}

} // verus!
