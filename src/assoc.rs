//! The trait that attaches a per-thread value to a type.
use vstd::prelude::*;

use crate::cell::ThreadLocal;

verus! {

/// Attaches a per-thread value of type `T` to the implementing type, told
/// apart from other associations of the same owner and value type by `TAG`.
///
/// An implementation supplies the association's initial value through
/// [`AssocThreadLocal::the_threadlocal`]; each thread makes its cell once with
/// it and passes that cell to the accessors.
pub trait AssocThreadLocal<T: Copy, TAG = ()>: Sized {
    /// Makes the calling thread's cell of this association, untouched and
    /// holding the association's initial value (`ThreadLocal::new(initial)`).
    fn the_threadlocal() -> ThreadLocal<Self, TAG, T>;

    /// Returns the association's current value in this thread: the last value
    /// set, or the initial value if none was.
    fn get_threadlocal(cell: &mut ThreadLocal<Self, TAG, T>) -> (r: T)
        ensures
            r == old(cell).value(),
            *final(cell) == old(cell).written(r),
            final(cell).slot() == Some(r),
            final(cell).initial_value() == old(cell).initial_value(),
    {
        cell.get()
    }

    /// Sets the association's value in this thread.
    fn set_threadlocal(cell: &mut ThreadLocal<Self, TAG, T>, value: T)
        ensures
            *final(cell) == old(cell).written(value),
            final(cell).slot() == Some(value),
            final(cell).initial_value() == old(cell).initial_value(),
    {
        cell.set(value)
    }

    /// Returns the association's current value in this thread; the instance
    /// only selects the owner type.
    fn get_threadlocal_from(_this: &Self, cell: &mut ThreadLocal<Self, TAG, T>) -> (r: T)
        ensures
            r == old(cell).value(),
            *final(cell) == old(cell).written(r),
            final(cell).slot() == Some(r),
            final(cell).initial_value() == old(cell).initial_value(),
    {
        Self::get_threadlocal(cell)
    }

    /// Sets the association's value in this thread; the instance only selects
    /// the owner type.
    fn set_threadlocal_of(_this: &Self, cell: &mut ThreadLocal<Self, TAG, T>, value: T)
        ensures
            *final(cell) == old(cell).written(value),
            final(cell).slot() == Some(value),
            final(cell).initial_value() == old(cell).initial_value(),
    {
        Self::set_threadlocal(cell, value)
    }
}

} // verus!
