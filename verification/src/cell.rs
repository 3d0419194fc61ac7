use vstd::prelude::*;

verus! {

#[verifier::external_type_specification]
#[verifier::external_body]
#[verifier::reject_recursive_types(T)]
pub struct ExSignal<T: 'static>(sycamore_reactive::Signal<T>);

/// A reactive cell: an independently mutable, independently observable
/// storage location supplied by the reactive runtime (sycamore's
/// `Signal`), paired with a ghost record of the value it was created
/// with.
///
/// This crate only ever creates cells and reads snapshots of their
/// contents; it never writes to a cell. The recorded value is therefore
/// the cell's current contents, provided no outside code mutates the
/// cell concurrently with a read. Reads are instantaneous snapshots,
/// not subscriptions; concurrent mutation of the same cell during a
/// read is not supported.
#[derive(Clone)]
#[verifier::reject_recursive_types(T)]
pub struct ReactiveCell<T: 'static> {
    signal: sycamore_reactive::Signal<T>,
    model: Ghost<T>,
}

/// Relies on `sycamore_reactive::Signal::clone`: the clone is a second
/// handle that shares the underlying storage with the original.
/// Nothing is claimed of it; cells cloned through it carry no recorded
/// value of their own.
pub assume_specification<T: 'static>[ <sycamore_reactive::Signal<T> as Clone>::clone ](
    s: &sycamore_reactive::Signal<T>,
) -> sycamore_reactive::Signal<T>;

/// Relies on `sycamore_reactive::Signal::new`: creates a fresh cell
/// holding the given value. Nothing is claimed about the opaque handle;
/// the ghost model written beside it carries the contents.
#[verifier::external_body]
fn new_signal<T: 'static>(v: T) -> sycamore_reactive::Signal<T> {
    sycamore_reactive::Signal::new(v)
}

impl<T: 'static> ReactiveCell<T> {
    /// The value this cell holds.
    pub closed spec fn value(self) -> T {
        self.model@
    }

    /// Create a fresh cell holding `v`.
    pub fn new(v: T) -> (c: Self)
        ensures
            c.value() == v,
    {
        let ghost m = v;
        ReactiveCell { signal: new_signal(v), model: Ghost(m) }
    }
}

impl<T: Clone + 'static> ReactiveCell<T> {
    /// Read a snapshot of the cell's current contents.
    ///
    /// Relies on `sycamore_reactive::ReadSignal::get`: returns the
    /// cell's current contents. This crate never writes to a cell after
    /// creating it, so the contents are the value the cell was created
    /// with; this does not hold if outside code mutates the cell
    /// concurrently with the read.
    #[verifier::external_body]
    pub fn get(&self) -> (v: T)
        ensures
            v == self.value(),
    {
        (*self.signal.get()).clone()
    }
}
} // verus!
