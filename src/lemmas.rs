//! Laws of reads and writes on association cells.
use vstd::prelude::*;

use crate::cell::ThreadLocal;

verus! {

broadcast use {ThreadLocal::lemma_written, ThreadLocal::lemma_fresh};

/// The cell after the writes `vs`, in order.
pub open spec fn after_writes<O, TAG, T: Copy>(
    c: ThreadLocal<O, TAG, T>,
    vs: Seq<T>,
) -> ThreadLocal<O, TAG, T>
    decreases vs.len(),
{
    if vs.len() == 0 {
        c
    } else {
        after_writes(c, vs.drop_last()).written(vs.last())
    }
}

/// A write addressed to one of two cells that a thread holds.
pub enum PairWrite<U, V> {
    First(U),
    Second(V),
}

/// The two cells after the writes `ws`, in order, each write reaching only
/// the cell it is addressed to.
pub open spec fn pair_after_writes<O, A, B, U: Copy, V: Copy>(
    a: ThreadLocal<O, A, U>,
    b: ThreadLocal<O, B, V>,
    ws: Seq<PairWrite<U, V>>,
) -> (ThreadLocal<O, A, U>, ThreadLocal<O, B, V>)
    decreases ws.len(),
{
    if ws.len() == 0 {
        (a, b)
    } else {
        let (x, y) = pair_after_writes(a, b, ws.drop_last());
        match ws.last() {
            PairWrite::First(u) => (x.written(u), y),
            PairWrite::Second(v) => (x, y.written(v)),
        }
    }
}

/// The last write in `ws` addressed to the first cell, if any.
pub open spec fn last_first<U, V>(ws: Seq<PairWrite<U, V>>) -> Option<U>
    decreases ws.len(),
{
    if ws.len() == 0 {
        None
    } else {
        match ws.last() {
            PairWrite::First(u) => Some(u),
            PairWrite::Second(_) => last_first(ws.drop_last()),
        }
    }
}

/// The last write in `ws` addressed to the second cell, if any.
pub open spec fn last_second<U, V>(ws: Seq<PairWrite<U, V>>) -> Option<V>
    decreases ws.len(),
{
    if ws.len() == 0 {
        None
    } else {
        match ws.last() {
            PairWrite::First(_) => last_second(ws.drop_last()),
            PairWrite::Second(v) => Some(v),
        }
    }
}

/// A thread's first read of an association yields the initial value the
/// association's cell was made with.
pub proof fn lemma_first_read_is_initial<O, TAG, T: Copy>(initial: T)
    ensures
        !ThreadLocal::<O, TAG, T>::fresh(initial).is_initialized(),
        ThreadLocal::<O, TAG, T>::fresh(initial).value() == initial,
{
}

/// After any writes to a cell, a read returns the last value written, or
/// the cell's current value if there were none; the initial value is kept.
pub proof fn lemma_last_write_wins<O, TAG, T: Copy>(c: ThreadLocal<O, TAG, T>, vs: Seq<T>)
    ensures
        after_writes(c, vs).value() == (if vs.len() == 0 {
            c.value()
        } else {
            vs.last()
        }),
        after_writes(c, vs).initial_value() == c.initial_value(),
    decreases vs.len(),
{
    if vs.len() > 0 {
        lemma_last_write_wins(c, vs.drop_last());
    }
}

/// A read changes nothing that a later read sees: reading a cell and reading
/// it again yields the same value.
pub proof fn lemma_read_is_stable<O, TAG, T: Copy>(c: ThreadLocal<O, TAG, T>)
    ensures
        c.written(c.value()).value() == c.value(),
        c.written(c.value()).initial_value() == c.initial_value(),
{
}

/// Two associations of one owner are independent, whether they differ in
/// tag (`A` and `B`), in value type (`U` and `V`), or both: under any
/// interleaving of writes, each cell reads the last value written to it, or
/// what it read before if it was not written.
pub proof fn lemma_associations_independent<O, A, B, U: Copy, V: Copy>(
    a: ThreadLocal<O, A, U>,
    b: ThreadLocal<O, B, V>,
    ws: Seq<PairWrite<U, V>>,
)
    ensures
        pair_after_writes(a, b, ws).0.value() == (match last_first(ws) {
            Some(u) => u,
            None => a.value(),
        }),
        pair_after_writes(a, b, ws).1.value() == (match last_second(ws) {
            Some(v) => v,
            None => b.value(),
        }),
    decreases ws.len(),
{
    if ws.len() > 0 {
        lemma_associations_independent(a, b, ws.drop_last());
    }
}

/// The instance and type accessors share one cell: `set_threadlocal_of` and
/// `set_threadlocal` both leave the cell as `written(v)`, from which a read by
/// either `get_threadlocal` or `get_threadlocal_from` returns `v`.
pub proof fn lemma_instance_write_then_read<O, TAG, T: Copy>(c: ThreadLocal<O, TAG, T>, v: T)
    ensures
        c.written(v).value() == v,
        c.written(v).initial_value() == c.initial_value(),
{
}

} // verus!
