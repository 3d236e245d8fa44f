//! A value with one instance per worker.
//!
//! The cells sit in one array that is shared by every handle and never
//! changes after it was built. Each cell is owned by one worker: whoever
//! wants to touch cell `i` either runs on worker `i` already, or has to ship
//! the work there. [`Shard::with`] makes that decision.

use std::rc::Rc;
use std::sync::Arc;
use vstd::prelude::*;

verus! {

/// One instance of `T` per worker, behind a cheaply shared array.
pub struct Shard<T> {
    inner: Arc<Vec<Rc<T>>>,
}

/// What [`Shard::with`] decided for one request.
pub enum Routed<T, F, R> {
    /// The caller was on the owning worker: the closure has run, here is
    /// what it returned.
    Inline(R),
    /// The caller was elsewhere: nothing has run. The handle and the closure
    /// go to worker `to`, which calls `shard.run(to, f)`.
    Dispatch { shard: Shard<T>, to: usize, f: F },
}

/// `Rc::clone`: a second handle to the same allocation. The contract claims
/// that the new handle points at the value the old one points at.
#[verifier::external_body]
fn share_cell<T>(cell: &Rc<T>) -> (res: Rc<T>)
    ensures
        res == *cell,
{
    Rc::clone(cell)
}

/// `Arc::clone`: a second handle to the same array. The contract claims that
/// the new handle points at the array the old one points at.
#[verifier::external_body]
fn share_cells<T>(cells: &Arc<Vec<Rc<T>>>) -> (res: Arc<Vec<Rc<T>>>)
    ensures
        res == *cells,
{
    Arc::clone(cells)
}

impl<T> View for Shard<T> {
    type V = Seq<T>;

    /// The value of each worker's cell, by worker id.
    open spec fn view(&self) -> Seq<T> {
        self.cells().map_values(|c: Rc<T>| *c)
    }
}

impl<T> Clone for Shard<T> {
    /// A second handle to the same cells; no `T` is copied.
    fn clone(&self) -> (res: Self)
        ensures
            res.cells() == self.cells(),
    {
        Shard { inner: share_cells(&self.inner) }
    }
}

impl<T> Shard<T> {
    /// The handles to the cells, by worker id.
    pub closed spec fn cells(&self) -> Seq<Rc<T>> {
        self.inner@
    }

    /// Whether every cell holds a value that a call of `f` gave.
    pub open spec fn built_by<F: Fn() -> T>(&self, f: F) -> bool {
        forall|i: int| 0 <= i < self@.len() ==> call_ensures(f, (), #[trigger] self@[i])
    }

    /// Builds one cell per worker, each from its own call of `f`, all on the
    /// calling thread.
    pub fn new(workers: usize, f: impl Fn() -> T + Send) -> (res: Self)
        requires
            call_requires(f, ()),
        ensures
            res@.len() == workers,
            res.cells().len() == workers,
            res.built_by(f),
    {
        let mut cells: Vec<Rc<T>> = Vec::new();
        let mut made: usize = 0;
        while made < workers
            invariant
                made <= workers,
                cells@.len() == made,
                call_requires(f, ()),
                forall|i: int| 0 <= i < made ==> call_ensures(f, (), *#[trigger] cells@[i]),
            decreases workers - made,
        {
            let value = f();
            cells.push(Rc::new(value));
            made += 1;
        }
        Shard { inner: Arc::new(cells) }
    }

    /// The number of workers, which is the number of cells.
    pub fn len(&self) -> (n: usize)
        ensures
            n == self@.len(),
            n == self.cells().len(),
    {
        self.inner.len()
    }

    /// A handle to the cell of worker `to`. Meant to be called on worker `to`.
    pub fn cell(&self, to: usize) -> (res: Rc<T>)
        requires
            to < self@.len(),
        ensures
            res == self.cells()[to as int],
            *res == self@[to as int],
    {
        share_cell(&self.inner[to])
    }

    /// Runs `f` on the cell of worker `to`. Meant to be called on worker
    /// `to`: by [`Shard::with`] where the caller is there already, by the
    /// dispatch where it was not.
    pub fn run<F, R>(&self, to: usize, f: F) -> (res: R)
        where F: FnOnce(Rc<T>) -> R
        requires
            to < self@.len(),
            call_requires(f, (self.cells()[to as int],)),
        ensures
            call_ensures(f, (self.cells()[to as int],), res),
    {
        f(self.cell(to))
    }

    /// Whether a caller on worker `current` (`None`: not on a worker) may
    /// touch the cell of worker `to` itself.
    pub open spec fn is_local(current: Option<usize>, to: usize) -> bool {
        current == Some(to)
    }

    /// Runs `f` on the cell of worker `to` if the caller is on that worker,
    /// and otherwise hands back everything the dispatch to worker `to`
    /// needs, without having run anything.
    pub fn with<F, R>(&self, current: Option<usize>, to: usize, f: F) -> (res: Routed<T, F, R>)
        where F: FnOnce(Rc<T>) -> R
        requires
            to < self@.len(),
            Self::is_local(current, to) ==> call_requires(f, (self.cells()[to as int],)),
        ensures
            match res {
                Routed::Inline(r) => Self::is_local(current, to) && call_ensures(
                    f,
                    (self.cells()[to as int],),
                    r,
                ),
                Routed::Dispatch { shard, to: target, f: g } => !Self::is_local(current, to)
                    && shard.cells() == self.cells() && target == to && g == f,
            },
    {
        let here = match current {
            Some(id) => to == id,
            None => false,
        };
        if here {
            Routed::Inline(self.run(to, f))
        } else {
            Routed::Dispatch { shard: self.clone(), to, f }
        }
    }
}

/// Every handle that a closure is given points at a cell that the factory
/// built: running on a shard, inline or after a dispatch, calls no factory
/// and makes no cell, and the handle for worker `to` is the one to the value
/// that the factory gave for that worker, on the caller's shard and on every
/// clone of it.
pub proof fn lemma_handles_point_at_built_cells<T, F: Fn() -> T>(
    shard: Shard<T>,
    other: Shard<T>,
    f: F,
    to: usize,
)
    requires
        shard.built_by(f),
        other.cells() == shard.cells(),
        to < shard@.len(),
    ensures
        *shard.cells()[to as int] == shard@[to as int],
        call_ensures(f, (), *shard.cells()[to as int]),
        other@ == shard@,
        other.built_by(f),
        other.cells()[to as int] == shard.cells()[to as int],
{
}

} // verus!
