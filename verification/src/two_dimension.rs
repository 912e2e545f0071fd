//! The vector append writer: buffers one fixed-arity vector of values per
//! tick for one metric and hands out fixed-size chunks to be flushed to a
//! two-dimensional column (arity rows by time columns).

use vstd::prelude::*;

use crate::sampling::VectorSampler;
use crate::snapshot::Snapshot;
use crate::types::{FlushEvent, Updatable, VectorChunk, WriterError};

verus! {

/// A sample fitted to a column's fixed arity: the first `arity` elements,
/// padded with `fill` when the sample is shorter.  Entities beyond `arity`
/// are silently dropped — the arity is baked into the on-disk shape at
/// column creation, so this is an intentional data-loss boundary, not an
/// error.
pub open spec fn fitted<T>(sample: Seq<T>, arity: int, fill: T) -> Seq<T> {
    Seq::new(arity as nat, |i: int| if i < sample.len() { sample[i] } else { fill })
}

/// Copies the first `arity` elements of `sample`, padding with `fill` when
/// the sample is shorter; elements beyond `arity` are dropped.
pub fn fit_sample<T: Copy>(sample: &Vec<T>, arity: usize, fill: T) -> (r: Vec<T>)
    ensures
        r@ == fitted(sample@, arity as int, fill),
{
    let mut r: Vec<T> = Vec::new();
    let mut i: usize = 0;
    while i < arity
        invariant
            i <= arity,
            r@ == fitted(sample@, arity as int, fill).take(i as int),
        decreases arity - i,
    {
        if i < sample.len() {
            r.push(sample[i]);
        } else {
            r.push(fill);
        }
        assert(r@ =~= fitted(sample@, arity as int, fill).take(i + 1 as int));
        i = i + 1;
    }
    assert(r@ =~= fitted(sample@, arity as int, fill));
    r
}

/// Gathers the first `width` per-tick columns into per-entity rows:
/// `r[i][j]` is element `i` of column `j`.  This is the row-major layout a
/// two-dimensional storage slice expects.
fn transpose_prefix<T: Copy>(columns: &Vec<Vec<T>>, width: usize, arity: usize) -> (r: Vec<
    Vec<T>,
>)
    requires
        width <= columns@.len(),
        forall|j: int| 0 <= j < columns@.len() ==> (#[trigger] columns@[j])@.len() == arity,
    ensures
        r@.len() == arity,
        forall|i: int| 0 <= i < arity ==> (#[trigger] r@[i])@.len() == width,
        forall|i: int, j: int|
            0 <= i < arity && 0 <= j < width ==> (#[trigger] r@[i]@[j]) == columns@[j]@[i],
{
    let mut r: Vec<Vec<T>> = Vec::new();
    let mut i: usize = 0;
    while i < arity
        invariant
            i <= arity,
            width <= columns@.len(),
            forall|j: int| 0 <= j < columns@.len() ==> (#[trigger] columns@[j])@.len() == arity,
            r@.len() == i,
            forall|i2: int| 0 <= i2 < i ==> (#[trigger] r@[i2])@.len() == width,
            forall|i2: int, j: int|
                0 <= i2 < i && 0 <= j < width ==> (#[trigger] r@[i2]@[j]) == columns@[j]@[i2],
        decreases arity - i,
    {
        let mut row: Vec<T> = Vec::new();
        let mut j: usize = 0;
        while j < width
            invariant
                i < arity,
                j <= width,
                width <= columns@.len(),
                forall|j2: int|
                    0 <= j2 < columns@.len() ==> (#[trigger] columns@[j2])@.len() == arity,
                row@.len() == j,
                forall|j2: int| 0 <= j2 < j ==> (#[trigger] row@[j2]) == columns@[j2]@[i as int],
            decreases width - j,
        {
            row.push(columns[j][i]);
            j = j + 1;
        }
        r.push(row);
        i = i + 1;
    }
    r
}

/// A buffered append-only writer for one fixed-arity vector metric.
///
/// Buffering, flush policy and index bookkeeping are the same as for the
/// scalar writer, generalized along a second axis: the buffer holds one
/// length-`arity` sample per tick, and a flush hands out all rows over a
/// contiguous time range.  Each tick's sample is fitted to the arity first:
/// extra entities are silently dropped, missing ones padded with `fill`.
#[verifier::reject_recursive_types(T)]
#[verifier::reject_recursive_types(S)]
pub struct MultiSensorDataHandler<T, S> where S: VectorSampler<T> {
    source: S,
    columns: Vec<Vec<T>>,
    arity: usize,
    dataset_index: usize,
    buffer_index: usize,
    target: usize,
    fill: T,
    samples: Ghost<Seq<Seq<T>>>,
}

impl<T: Copy, S: VectorSampler<T>> MultiSensorDataHandler<T, S> {
    /// The sampling source this writer reads each tick.
    pub closed spec fn source(self) -> S {
        self.source
    }

    /// Fixed number of entities each stored sample holds.
    pub closed spec fn arity(self) -> int {
        self.arity as int
    }

    /// The value used to pad samples shorter than the arity.
    pub closed spec fn fill(self) -> T {
        self.fill
    }

    /// Buffered samples between flushes.
    pub closed spec fn buffer_size(self) -> int {
        self.columns@.len() as int
    }

    /// Total time-axis capacity of this writer's column.
    pub closed spec fn target(self) -> int {
        self.target as int
    }

    /// Absolute time offset of the next chunk to flush.
    pub closed spec fn dataset_index(self) -> int {
        self.dataset_index as int
    }

    /// Next free slot of the in-memory buffer.
    pub closed spec fn buffer_index(self) -> int {
        self.buffer_index as int
    }

    /// Every fitted sample this writer has recorded, oldest first.
    pub closed spec fn samples(self) -> Seq<Seq<T>> {
        self.samples@
    }

    /// The prefix of `samples` already handed out in flush chunks.
    pub open spec fn flushed(self) -> Seq<Seq<T>> {
        self.samples().take(self.dataset_index())
    }

    /// The suffix of `samples` still held in the buffer.
    pub open spec fn pending(self) -> Seq<Seq<T>> {
        self.samples().skip(self.dataset_index())
    }

    /// Writer invariant: the indices stay within capacity, the counts agree
    /// with the recorded history, every buffered column has the fixed arity,
    /// and the buffer holds exactly the samples not yet flushed.
    pub closed spec fn wf(self) -> bool {
        &&& 1 <= self.arity
        &&& 1 <= self.columns@.len()
        &&& self.buffer_index <= self.columns@.len()
        &&& self.dataset_index + self.buffer_index == self.samples@.len()
        &&& self.samples@.len() <= self.target
        &&& forall|j: int|
            0 <= j < self.columns@.len() ==> (#[trigger] self.columns@[j])@.len() == self.arity
        &&& forall|k: int|
            0 <= k < self.samples@.len() ==> (#[trigger] self.samples@[k]).len() == self.arity
        &&& forall|j: int|
            0 <= j < self.buffer_index ==> (#[trigger] self.columns@[j])@ == self.samples@[
                self.dataset_index + j
            ]
    }

    /// Creates a writer with an empty buffer at offset 0.
    pub fn new(source: S, arity: usize, buffer_size: usize, target: usize, fill: T) -> (w: Self)
        requires
            1 <= arity,
            1 <= buffer_size,
        ensures
            w.wf(),
            w.source() == source,
            w.arity() == arity,
            w.fill() == fill,
            w.buffer_size() == buffer_size,
            w.target() == target,
            w.dataset_index() == 0,
            w.buffer_index() == 0,
            w.samples() == Seq::<Seq<T>>::empty(),
    {
        let mut columns: Vec<Vec<T>> = Vec::new();
        let mut j: usize = 0;
        while j < buffer_size
            invariant
                j <= buffer_size,
                columns@.len() == j,
                forall|j2: int| 0 <= j2 < j ==> (#[trigger] columns@[j2])@.len() == arity,
            decreases buffer_size - j,
        {
            let mut column: Vec<T> = Vec::new();
            let mut i: usize = 0;
            while i < arity
                invariant
                    i <= arity,
                    column@.len() == i,
                decreases arity - i,
            {
                column.push(fill);
                i = i + 1;
            }
            columns.push(column);
            j = j + 1;
        }
        MultiSensorDataHandler {
            source,
            columns,
            arity,
            dataset_index: 0,
            buffer_index: 0,
            target,
            fill,
            samples: Ghost(Seq::empty()),
        }
    }

    /// Records this tick's sample.  The per-entity values are derived from
    /// the snapshot by the writer's source and fitted to the arity; if the
    /// buffer is already full it is first handed out as a chunk to append at
    /// `dataset_index`, which advances by the buffer size.  Fails with a
    /// range error, changing nothing, exactly when the column is already at
    /// capacity.
    pub fn record(&mut self, snapshot: &Snapshot) -> (r: Result<
        Option<VectorChunk<T>>,
        WriterError,
    >)
        requires
            old(self).wf(),
        ensures
            final(self).wf(),
            final(self).source() == old(self).source(),
            final(self).arity() == old(self).arity(),
            final(self).fill() == old(self).fill(),
            final(self).buffer_size() == old(self).buffer_size(),
            final(self).target() == old(self).target(),
            match r {
                Ok(flush) => {
                    &&& old(self).samples().len() < old(self).target()
                    &&& final(self).samples() == old(self).samples().push(
                        fitted(
                            old(self).source().spec_sample(*snapshot)@,
                            old(self).arity(),
                            old(self).fill(),
                        ),
                    )
                    &&& match flush {
                        Some(chunk) => {
                            &&& old(self).buffer_index() == old(self).buffer_size()
                            &&& chunk.offset == old(self).dataset_index()
                            &&& chunk.rows@.len() == old(self).arity()
                            &&& chunk.rectangular()
                            &&& chunk.width() == old(self).buffer_size()
                            &&& chunk.columns() == old(self).pending()
                            &&& chunk.in_range(old(self).target())
                            &&& final(self).dataset_index() == old(self).dataset_index()
                                + old(self).buffer_size()
                            &&& final(self).buffer_index() == 1
                            &&& final(self).flushed() == old(self).flushed() + chunk.columns()
                        },
                        None => {
                            &&& old(self).buffer_index() < old(self).buffer_size()
                            &&& final(self).dataset_index() == old(self).dataset_index()
                            &&& final(self).buffer_index() == old(self).buffer_index() + 1
                            &&& final(self).flushed() == old(self).flushed()
                        },
                    }
                },
                Err(e) => {
                    &&& e == WriterError::Range
                    &&& old(self).samples().len() == old(self).target()
                    &&& *final(self) == *old(self)
                },
            },
    {
        if self.buffer_index >= self.target - self.dataset_index {
            return Err(WriterError::Range);
        }
        let sample = self.source.sample(snapshot);
        let column = fit_sample(&sample, self.arity, self.fill);
        let mut flush: Option<VectorChunk<T>> = None;
        if self.buffer_index == self.columns.len() {
            let rows = transpose_prefix(&self.columns, self.buffer_index, self.arity);
            let chunk = VectorChunk { offset: self.dataset_index, rows };
            proof {
                assert(chunk.columns() =~~= old(self).pending());
            }
            flush = Some(chunk);
            self.dataset_index = self.dataset_index + self.buffer_index;
            self.buffer_index = 0;
        }
        self.columns.set(self.buffer_index, column);
        self.buffer_index = self.buffer_index + 1;
        proof {
            self.samples@ = self.samples@.push(
                fitted(old(self).source().spec_sample(*snapshot)@, self.arity as int, self.fill),
            );
            let dif = self.dataset_index as int;
            let bif = self.buffer_index as int;
            assert forall|j: int| 0 <= j < bif implies (#[trigger] self.columns@[j])@
                == self.samples@[dif + j] by {
                if j < bif - 1 {
                    assert(old(self).columns@[j]@ == old(self).samples@[old(self).dataset_index()
                        + j]);
                }
            }
            assert(self.flushed() =~= if old(self).buffer_index() == old(self).buffer_size() {
                old(self).flushed() + old(self).pending()
            } else {
                old(self).flushed()
            });
        }
        Ok(flush)
    }

    /// The terminal flush: hands out the partial buffer — all rows over the
    /// first `buffer_index` time steps — as a chunk to append at
    /// `dataset_index`, so that everything recorded has then been handed out,
    /// in order, with no duplication and no gap.
    pub fn finalize(&mut self) -> (chunk: VectorChunk<T>)
        requires
            old(self).wf(),
        ensures
            final(self).wf(),
            final(self).source() == old(self).source(),
            final(self).arity() == old(self).arity(),
            final(self).fill() == old(self).fill(),
            final(self).buffer_size() == old(self).buffer_size(),
            final(self).target() == old(self).target(),
            chunk.offset == old(self).dataset_index(),
            chunk.rows@.len() == old(self).arity(),
            chunk.rectangular(),
            chunk.width() == old(self).buffer_index(),
            chunk.columns() == old(self).pending(),
            chunk.in_range(old(self).target()),
            final(self).samples() == old(self).samples(),
            final(self).dataset_index() == old(self).samples().len(),
            final(self).buffer_index() == 0,
            final(self).flushed() == final(self).samples(),
    {
        let rows = transpose_prefix(&self.columns, self.buffer_index, self.arity);
        let chunk = VectorChunk { offset: self.dataset_index, rows };
        proof {
            assert(chunk.columns() =~~= old(self).pending());
        }
        self.dataset_index = self.dataset_index + self.buffer_index;
        self.buffer_index = 0;
        proof {
            assert(self.flushed() =~= self.samples());
        }
        chunk
    }
}

impl<T: Copy, S: VectorSampler<T>> Updatable<T> for MultiSensorDataHandler<T, S> {
    open spec fn inv(&self) -> bool {
        self.wf()
    }

    open spec fn store_target(&self) -> usize {
        self.target() as usize
    }

    fn update(&mut self, snapshot: &Snapshot) -> (r: Result<FlushEvent<T>, WriterError>) {
        match self.record(snapshot) {
            Ok(Some(chunk)) => Ok(FlushEvent::Vector(chunk)),
            Ok(None) => Ok(FlushEvent::NoFlush),
            Err(e) => Err(e),
        }
    }

    fn finalize(&mut self) -> (r: Result<FlushEvent<T>, WriterError>) {
        Ok(FlushEvent::Vector(MultiSensorDataHandler::finalize(self)))
    }
}

/// No sample is lost or duplicated before the terminal flush folds in: in
/// every reachable writer state, the samples already handed out in chunks
/// followed by the samples still buffered are exactly all recorded samples,
/// in order.
pub proof fn lemma_no_sample_loss<T: Copy, S: VectorSampler<T>>(w: MultiSensorDataHandler<T, S>)
    requires
        w.wf(),
    ensures
        w.flushed() + w.pending() == w.samples(),
{
    assert(w.flushed() + w.pending() =~= w.samples());
}

/// Index monotonicity: `dataset_index` always equals the number of samples
/// flushed so far — it never decreases and never double-counts.
pub proof fn lemma_dataset_index_counts_flushed<T: Copy, S: VectorSampler<T>>(
    w: MultiSensorDataHandler<T, S>,
)
    requires
        w.wf(),
    ensures
        w.dataset_index() == w.flushed().len(),
{
}

/// Capacity bound: `dataset_index + buffer_index` never exceeds the column
/// capacity, so every flush stays within the allocated column.
pub proof fn lemma_capacity_bound<T: Copy, S: VectorSampler<T>>(w: MultiSensorDataHandler<T, S>)
    requires
        w.wf(),
    ensures
        w.dataset_index() + w.buffer_index() <= w.target(),
{
}

} // verus!
