//! Shared types of the writer core: errors, flush chunks, and the registry
//! interface implemented by every writer kind.

use vstd::prelude::*;

use crate::snapshot::Snapshot;

verus! {

/// Why a writer operation failed.  Failures are fatal for the run: the core
/// performs no retries and no partial recovery.
#[derive(Clone, Copy, Debug, PartialEq, Eq, Structural)]
pub enum WriterError {
    /// The storage backend rejected or failed a slice write.  The verified
    /// core never produces this variant itself; the unverified driver that
    /// performs the writes uses it to surface backend failures.
    StorageWrite,
    /// Accepting another sample would push the write range past the column's
    /// allocated capacity.
    Range,
}

/// A contiguous run of buffered samples to be appended to a one-dimensional
/// column: `values` belongs at offsets `[offset, offset + values.len())`
/// along the time axis.
#[derive(Debug)]
pub struct ScalarChunk<T> {
    pub offset: usize,
    pub values: Vec<T>,
}

/// A contiguous run of buffered vector samples to be appended to a
/// two-dimensional column: row `i` of `rows` belongs at
/// `[i][offset .. offset + width)`, all rows sharing the same time range.
#[derive(Debug)]
pub struct VectorChunk<T> {
    pub offset: usize,
    pub rows: Vec<Vec<T>>,
}

impl<T> ScalarChunk<T> {
    /// The time range written by this chunk stays within a column of
    /// capacity `target`.
    pub open spec fn in_range(self, target: int) -> bool {
        self.offset + self.values@.len() <= target
    }
}

impl<T> VectorChunk<T> {
    /// Number of time steps covered by this chunk.
    pub open spec fn width(self) -> int {
        self.rows@[0]@.len() as int
    }

    /// The sample at time step `j` of this chunk, read down the rows.
    pub open spec fn column(self, j: int) -> Seq<T> {
        Seq::new(self.rows@.len(), |i: int| self.rows@[i]@[j])
    }

    /// All samples carried by this chunk, one per covered time step.
    pub open spec fn columns(self) -> Seq<Seq<T>> {
        Seq::new(self.width() as nat, |j: int| self.column(j))
    }

    /// Every row covers the same time steps.
    pub open spec fn rectangular(self) -> bool {
        forall|i: int| 0 <= i < self.rows@.len() ==> (#[trigger] self.rows@[i])@.len() == self.width()
    }

    /// The time range written by this chunk stays within a column of
    /// capacity `target`.
    pub open spec fn in_range(self, target: int) -> bool {
        self.offset + self.width() <= target
    }
}

/// What one writer operation asks the storage driver to do: nothing yet, or
/// append one chunk to the writer's column.
#[derive(Debug)]
pub enum FlushEvent<T> {
    NoFlush,
    Scalar(ScalarChunk<T>),
    Vector(VectorChunk<T>),
}

impl<T> FlushEvent<T> {
    /// Whatever is to be written stays within a column of capacity `target`.
    pub open spec fn in_range(self, target: int) -> bool {
        match self {
            FlushEvent::NoFlush => true,
            FlushEvent::Scalar(c) => c.in_range(target),
            FlushEvent::Vector(c) => c.rows@.len() > 0 && c.rectangular() && c.in_range(target),
        }
    }
}

/// The polymorphic interface the writer registry drives once per tick: the
/// heterogeneous collection of writers never needs to know concrete metric
/// or arity types.  Whatever the writer kind, an operation preserves the
/// writer's invariant and only ever asks for writes that stay within its
/// column's capacity; the exact flushing behaviour is specified on each
/// writer's own `record` and `finalize`.
pub trait Updatable<T> {
    /// The writer invariant that every operation preserves.
    spec fn inv(&self) -> bool;

    /// Total time-axis capacity of the writer's column.
    spec fn store_target(&self) -> usize;

    /// Records one sample from this tick's snapshot, handing out a chunk to
    /// append when the writer's buffer was full.
    fn update(&mut self, snapshot: &Snapshot) -> (r: Result<FlushEvent<T>, WriterError>)
        requires
            old(self).inv(),
        ensures
            final(self).inv(),
            final(self).store_target() == old(self).store_target(),
            r matches Ok(ev) ==> ev.in_range(old(self).store_target() as int),
    ;

    /// The terminal flush: hands out whatever is still buffered.  Must be
    /// called exactly once, after the last `update` and before the storage
    /// backend is closed — skipping it loses the buffered tail.
    fn finalize(&mut self) -> (r: Result<FlushEvent<T>, WriterError>)
        requires
            old(self).inv(),
        ensures
            final(self).inv(),
            final(self).store_target() == old(self).store_target(),
            r matches Ok(ev) && ev.in_range(old(self).store_target() as int),
    ;
}

/// Copies the first `n` elements of `v` into a fresh vector.
pub fn copy_prefix<T: Copy>(v: &Vec<T>, n: usize) -> (r: Vec<T>)
    requires
        n <= v@.len(),
    ensures
        r@ == v@.take(n as int),
{
    let mut r: Vec<T> = Vec::new();
    let mut i: usize = 0;
    while i < n
        invariant
            i <= n,
            n <= v@.len(),
            r@ == v@.take(i as int),
        decreases n - i,
    {
        r.push(v[i]);
        assert(r@ =~= v@.take(i + 1 as int));
        i = i + 1;
    }
    r
}

} // verus!
