//! The scalar append writer: buffers one value per tick for one metric and
//! hands out fixed-size chunks to be flushed to a one-dimensional column.

use vstd::prelude::*;

use crate::sampling::Sampler;
use crate::snapshot::Snapshot;
use crate::types::{copy_prefix, FlushEvent, ScalarChunk, Updatable, WriterError};

verus! {

/// A buffered append-only writer for one scalar metric.
///
/// The writer owns a sampling source, an in-memory buffer of
/// `buffer_size` samples, the absolute time offset `dataset_index` of the
/// next chunk to flush, and the next free buffer slot `buffer_index`.
/// `dataset_index + buffer_index` never exceeds the column capacity
/// `target`; a tick that would exceed it fails with a range error instead
/// of corrupting storage.
#[verifier::reject_recursive_types(T)]
#[verifier::reject_recursive_types(S)]
pub struct SensorDataHandler<T, S> where S: Sampler<T> {
    source: S,
    buffer: Vec<T>,
    dataset_index: usize,
    buffer_index: usize,
    target: usize,
    samples: Ghost<Seq<T>>,
}

impl<T: Copy, S: Sampler<T>> SensorDataHandler<T, S> {
    /// The sampling source this writer reads each tick.
    pub closed spec fn source(self) -> S {
        self.source
    }

    /// Buffered samples between flushes.
    pub closed spec fn buffer_size(self) -> int {
        self.buffer@.len() as int
    }

    /// Total time-axis capacity of this writer's column.
    pub closed spec fn target(self) -> int {
        self.target as int
    }

    /// Absolute time offset of the next chunk to flush.
    pub closed spec fn dataset_index(self) -> int {
        self.dataset_index as int
    }

    /// Next free slot of the in-memory buffer.
    pub closed spec fn buffer_index(self) -> int {
        self.buffer_index as int
    }

    /// Every value this writer has recorded, oldest first.
    pub closed spec fn samples(self) -> Seq<T> {
        self.samples@
    }

    /// The prefix of `samples` already handed out in flush chunks.
    pub open spec fn flushed(self) -> Seq<T> {
        self.samples().take(self.dataset_index())
    }

    /// The suffix of `samples` still held in the buffer.
    pub open spec fn pending(self) -> Seq<T> {
        self.samples().skip(self.dataset_index())
    }

    /// Writer invariant: the indices stay within capacity, the counts agree
    /// with the recorded history, and the buffer holds exactly the samples
    /// not yet flushed.
    pub closed spec fn wf(self) -> bool {
        &&& 1 <= self.buffer@.len()
        &&& self.buffer_index <= self.buffer@.len()
        &&& self.dataset_index + self.buffer_index == self.samples@.len()
        &&& self.samples@.len() <= self.target
        &&& self.buffer@.take(self.buffer_index as int) == self.pending()
    }

    /// Creates a writer with an empty buffer at offset 0.  `fill` is only
    /// used to pre-allocate the buffer and is never handed out.
    pub fn new(source: S, buffer_size: usize, target: usize, fill: T) -> (w: Self)
        requires
            1 <= buffer_size,
        ensures
            w.wf(),
            w.source() == source,
            w.buffer_size() == buffer_size,
            w.target() == target,
            w.dataset_index() == 0,
            w.buffer_index() == 0,
            w.samples() == Seq::<T>::empty(),
    {
        let mut buffer: Vec<T> = Vec::new();
        let mut i: usize = 0;
        while i < buffer_size
            invariant
                i <= buffer_size,
                buffer@.len() == i,
            decreases buffer_size - i,
        {
            buffer.push(fill);
            i = i + 1;
        }
        let w = SensorDataHandler {
            source,
            buffer,
            dataset_index: 0,
            buffer_index: 0,
            target,
            samples: Ghost(Seq::empty()),
        };
        assert(w.buffer@.take(0) =~= w.pending());
        w
    }

    /// Records this tick's sample.  The value is derived from the snapshot by
    /// the writer's source; if the buffer is already full it is first handed
    /// out as a chunk to append at `dataset_index`, which advances by the
    /// buffer size.  Fails with a range error, changing nothing, exactly when
    /// the column is already at capacity.
    pub fn record(&mut self, snapshot: &Snapshot) -> (r: Result<
        Option<ScalarChunk<T>>,
        WriterError,
    >)
        requires
            old(self).wf(),
        ensures
            final(self).wf(),
            final(self).source() == old(self).source(),
            final(self).buffer_size() == old(self).buffer_size(),
            final(self).target() == old(self).target(),
            match r {
                Ok(flush) => {
                    &&& old(self).samples().len() < old(self).target()
                    &&& final(self).samples() == old(self).samples().push(
                        old(self).source().spec_sample(*snapshot),
                    )
                    &&& match flush {
                        Some(chunk) => {
                            &&& old(self).buffer_index() == old(self).buffer_size()
                            &&& chunk.offset == old(self).dataset_index()
                            &&& chunk.values@ == old(self).pending()
                            &&& chunk.values@.len() == old(self).buffer_size()
                            &&& chunk.in_range(old(self).target())
                            &&& final(self).dataset_index() == old(self).dataset_index()
                                + old(self).buffer_size()
                            &&& final(self).buffer_index() == 1
                            &&& final(self).flushed() == old(self).flushed() + chunk.values@
                        },
                        None => {
                            &&& old(self).buffer_index() < old(self).buffer_size()
                            &&& final(self).dataset_index() == old(self).dataset_index()
                            &&& final(self).buffer_index() == old(self).buffer_index() + 1
                            &&& final(self).flushed() == old(self).flushed()
                        },
                    }
                },
                Err(e) => {
                    &&& e == WriterError::Range
                    &&& old(self).samples().len() == old(self).target()
                    &&& *final(self) == *old(self)
                },
            },
    {
        if self.buffer_index >= self.target - self.dataset_index {
            return Err(WriterError::Range);
        }
        let value = self.source.sample(snapshot);
        let mut flush: Option<ScalarChunk<T>> = None;
        if self.buffer_index == self.buffer.len() {
            let values = copy_prefix(&self.buffer, self.buffer.len());
            assert(values@ =~= self.buffer@);
            flush = Some(ScalarChunk { offset: self.dataset_index, values });
            self.dataset_index = self.dataset_index + self.buffer.len();
            self.buffer_index = 0;
            proof {
                assert(old(self).buffer@.take(old(self).buffer_index as int) =~= old(
                    self,
                ).buffer@);
            }
        }
        self.buffer.set(self.buffer_index, value);
        self.buffer_index = self.buffer_index + 1;
        proof {
            self.samples@ = self.samples@.push(value);
            let dif = self.dataset_index as int;
            let bif = self.buffer_index as int;
            assert forall|j: int| 0 <= j < bif implies self.buffer@.take(bif)[j] == self.pending(
            )[j] by {
                if j < bif - 1 {
                    assert(old(self).buffer@.take(old(self).buffer_index as int)[j] == old(
                        self,
                    ).pending()[j]);
                }
            }
            assert(self.buffer@.take(bif) =~= self.pending());
            assert(self.flushed() =~= if old(self).buffer_index() == old(self).buffer_size() {
                old(self).flushed() + old(self).pending()
            } else {
                old(self).flushed()
            });
        }
        Ok(flush)
    }

    /// The terminal flush: hands out the partial buffer as a chunk to append
    /// at `dataset_index`, so that everything recorded has then been handed
    /// out, in order, with no duplication and no gap.
    pub fn finalize(&mut self) -> (chunk: ScalarChunk<T>)
        requires
            old(self).wf(),
        ensures
            final(self).wf(),
            final(self).source() == old(self).source(),
            final(self).buffer_size() == old(self).buffer_size(),
            final(self).target() == old(self).target(),
            chunk.offset == old(self).dataset_index(),
            chunk.values@ == old(self).pending(),
            chunk.in_range(old(self).target()),
            final(self).samples() == old(self).samples(),
            final(self).dataset_index() == old(self).samples().len(),
            final(self).buffer_index() == 0,
            final(self).flushed() == final(self).samples(),
    {
        let values = copy_prefix(&self.buffer, self.buffer_index);
        let chunk = ScalarChunk { offset: self.dataset_index, values };
        self.dataset_index = self.dataset_index + self.buffer_index;
        self.buffer_index = 0;
        proof {
            assert(self.buffer@.take(0) =~= self.pending());
            assert(self.flushed() =~= self.samples());
        }
        chunk
    }
}

impl<T: Copy, S: Sampler<T>> Updatable<T> for SensorDataHandler<T, S> {
    open spec fn inv(&self) -> bool {
        self.wf()
    }

    open spec fn store_target(&self) -> usize {
        self.target() as usize
    }

    fn update(&mut self, snapshot: &Snapshot) -> (r: Result<FlushEvent<T>, WriterError>) {
        match self.record(snapshot) {
            Ok(Some(chunk)) => Ok(FlushEvent::Scalar(chunk)),
            Ok(None) => Ok(FlushEvent::NoFlush),
            Err(e) => Err(e),
        }
    }

    fn finalize(&mut self) -> (r: Result<FlushEvent<T>, WriterError>) {
        Ok(FlushEvent::Scalar(SensorDataHandler::finalize(self)))
    }
}

/// No sample is lost or duplicated before the terminal flush folds in: in
/// every reachable writer state, the samples already handed out in chunks
/// followed by the samples still buffered are exactly all recorded samples,
/// in order.
pub proof fn lemma_no_sample_loss<T: Copy, S: Sampler<T>>(w: SensorDataHandler<T, S>)
    requires
        w.wf(),
    ensures
        w.flushed() + w.pending() == w.samples(),
{
    assert(w.flushed() + w.pending() =~= w.samples());
}

/// Index monotonicity: `dataset_index` always equals the number of samples
/// flushed so far — it never decreases and never double-counts.
pub proof fn lemma_dataset_index_counts_flushed<T: Copy, S: Sampler<T>>(
    w: SensorDataHandler<T, S>,
)
    requires
        w.wf(),
    ensures
        w.dataset_index() == w.flushed().len(),
{
}

/// Capacity bound: `dataset_index + buffer_index` never exceeds the column
/// capacity, so every flush stays within the allocated column.
pub proof fn lemma_capacity_bound<T: Copy, S: Sampler<T>>(w: SensorDataHandler<T, S>)
    requires
        w.wf(),
    ensures
        w.dataset_index() + w.buffer_index() <= w.target(),
{
}

} // verus!
