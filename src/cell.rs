//! The storage cell of one association in one thread.
use vstd::prelude::*;

verus! {

/// A marker that carries a type parameter without holding one of its values
/// where the cell lives.
pub struct MakeSync<T>(T);

/// One association's storage cell in one thread.
///
/// `O` is the owner type the value is attached to, `TAG` tells apart
/// associations of one owner and one value type, and `T` is the value type.
pub struct ThreadLocal<O, TAG, T> {
    initial: T,
    slot: Option<T>,
    owner: core::marker::PhantomData<MakeSync<O>>,
    tag: core::marker::PhantomData<MakeSync<TAG>>,
}

impl<O, TAG, T: Copy> ThreadLocal<O, TAG, T> {
    /// The value the cell takes on its first access.
    pub closed spec fn initial_value(&self) -> T {
        self.initial
    }

    /// The stored value, or `None` while the cell is untouched.
    pub closed spec fn slot(&self) -> Option<T> {
        self.slot
    }

    /// Whether the cell has been read or written since it was made.
    pub open spec fn is_initialized(&self) -> bool {
        self.slot() is Some
    }

    /// The untouched cell that [`ThreadLocal::new`] makes from `initial`.
    pub closed spec fn fresh(initial: T) -> Self {
        ThreadLocal {
            initial,
            slot: None,
            owner: core::marker::PhantomData,
            tag: core::marker::PhantomData,
        }
    }

    /// The cell after it has been filled with `v`: a write of `v`, or a read
    /// that returned `v`.
    pub closed spec fn written(self, v: T) -> Self {
        ThreadLocal { slot: Some(v), ..self }
    }

    /// A filled cell holds the value it was filled with and keeps its
    /// initial value.
    pub broadcast proof fn lemma_written(c: Self, v: T)
        ensures
            #![trigger c.written(v)]
            c.written(v).slot() == Some(v),
            c.written(v).initial_value() == c.initial_value(),
    {
    }

    /// A fresh cell is untouched and holds the initial value it was made with.
    pub broadcast proof fn lemma_fresh(initial: T)
        ensures
            (#[trigger] Self::fresh(initial)).slot() is None,
            Self::fresh(initial).initial_value() == initial,
    {
    }

    /// What a read of the cell returns.
    pub open spec fn value(&self) -> T {
        match self.slot() {
            Some(v) => v,
            None => self.initial_value(),
        }
    }

    /// Makes an untouched cell whose first access yields `initial`.
    pub fn new(initial: T) -> (r: Self)
        ensures
            r == Self::fresh(initial),
            r.initial_value() == initial,
            r.slot() is None,
    {
        ThreadLocal {
            initial,
            slot: None,
            owner: core::marker::PhantomData,
            tag: core::marker::PhantomData,
        }
    }

    /// Reads the cell, filling it with its initial value on first access.
    pub fn get(&mut self) -> (r: T)
        ensures
            r == old(self).value(),
            *final(self) == old(self).written(r),
            final(self).initial_value() == old(self).initial_value(),
            final(self).slot() == Some(r),
    {
        match self.slot {
            Some(v) => v,
            None => {
                let v = self.initial;
                self.slot = Some(v);
                v
            },
        }
    }

    /// Overwrites the cell with `value`.
    pub fn set(&mut self, value: T)
        ensures
            *final(self) == old(self).written(value),
            final(self).initial_value() == old(self).initial_value(),
            final(self).slot() == Some(value),
    {
        self.slot = Some(value);
    }
}

} // verus!
