//! Streams that are read in chunks and can be cancelled at any time.

use std::time::Duration;

use vstd::prelude::*;

use crate::time;
use crate::time::duration_from_millis;

verus! {

/// A chunk size for streams of which nothing is known: neither so small that the chunks cost more
/// than what is in them, nor so large that a full one takes much memory.
pub const BULK_POLLED_STREAM_DEFAULT_CHUNK_SIZE: usize = 64;

/// A debounce time for streams of which nothing is known: neither so short that chunks stay small,
/// nor so long that progress comes late. It is a tenth of a second.
pub fn bulk_polled_stream_default_debounce_time() -> (debounce_time: Duration)
    ensures
        time::duration_nanos(debounce_time) == 100_000_000,
{
    duration_from_millis(100)
}

/// The stream was cancelled.
#[derive(Clone, Copy, PartialEq, Eq, Debug, Structural)]
pub struct StreamCancelled;

/// A stream that is read in chunks: up to `max_chunk_size` items each, and fewer where none comes
/// for `debounce_time`.
pub struct BulkPolledStream<S> {
    pub stream: S,
    pub max_chunk_size: usize,
    pub debounce_time: Duration,
}

/// A stream that is read in chunks, until it is cancelled.
///
/// A chunk is asked for with [`BridgeBulkPolledStream::next_chunk`] and waited for outside. To
/// cancel is to signal whoever waits, and to destroy the stream when they have given up.
pub struct BridgeBulkPolledStream<S> {
    state: Option<BulkPolledStream<S>>,
    cancelled: bool,
}

impl<S> BridgeBulkPolledStream<S> {
    /// The stream, until it is destroyed.
    pub closed spec fn stream(self) -> Option<BulkPolledStream<S>> {
        self.state
    }

    pub closed spec fn is_cancelled(self) -> bool {
        self.cancelled
    }

    /// Whether there is no chunk to ask for any more.
    pub open spec fn refuses(self) -> bool {
        self.is_cancelled() || self.stream() is None
    }

    /// What becomes of a chunk that has come.
    pub open spec fn outcome_of<T>(self, chunk: T) -> Result<T, StreamCancelled> {
        if self.is_cancelled() {
            Err(StreamCancelled)
        } else {
            Ok(chunk)
        }
    }

    /// Makes `stream` one that is read in chunks. Take a chunk size by what it costs to hand a
    /// chunk over and what memory a full one takes, and a debounce time by what it costs to hand
    /// a chunk over and how long progress can be left unreported.
    pub fn new(stream: S, max_chunk_size: usize, debounce_time: Duration) -> (result: Self)
        ensures
            result.stream() == Some(BulkPolledStream { stream, max_chunk_size, debounce_time }),
            !result.is_cancelled(),
    {
        BridgeBulkPolledStream {
            state: Some(BulkPolledStream { stream, max_chunk_size, debounce_time }),
            cancelled: false,
        }
    }

    /// The stream to get the next chunk from, unless it was cancelled.
    pub fn next_chunk(&mut self) -> (stream: Result<&mut BulkPolledStream<S>, StreamCancelled>)
        ensures
            is_step(*old(self), *final(self)),
            stream is Err <==> old(self).is_cancelled() || old(self).stream() is None,
            final(self).is_cancelled() == old(self).is_cancelled(),
            match stream {
                Ok(s) => old(self).stream() == Some(*s) && final(self).stream() == Some(*final(s)),
                Err(_) => *final(self) == *old(self),
            },
    {
        if self.cancelled {
            return Err(StreamCancelled);
        }
        match &mut self.state {
            Some(stream) => Ok(stream),
            None => Err(StreamCancelled),
        }
    }

    /// What becomes of a chunk that has come: it is lost if the stream was cancelled meanwhile.
    pub fn finish_chunk<T>(&self, chunk: T) -> (result: Result<T, StreamCancelled>)
        ensures
            result == self.outcome_of(chunk),
            self.is_cancelled() ==> result is Err,
            !self.is_cancelled() ==> result == Ok::<T, StreamCancelled>(chunk),
    {
        if self.cancelled {
            Err(StreamCancelled)
        } else {
            Ok(chunk)
        }
    }

    /// Signals whoever waits for a chunk to give up.
    pub fn signal(&mut self)
        ensures
            is_step(*old(self), *final(self)),
            final(self).is_cancelled(),
            final(self).stream() == old(self).stream(),
    {
        self.cancelled = true;
    }

    /// Cancels the stream, which comes back to be destroyed. It is gone if it was cancelled before.
    pub fn cancel(&mut self) -> (stream: Option<BulkPolledStream<S>>)
        ensures
            is_step(*old(self), *final(self)),
            stream == old(self).stream(),
            final(self).stream() is None,
            final(self).is_cancelled(),
    {
        self.signal();
        self.state.take()
    }
}

/// One thing that can happen to a stream: a chunk is asked for, it is signalled, or it is
/// cancelled.
pub open spec fn is_step<S>(
    before: BridgeBulkPolledStream<S>,
    after: BridgeBulkPolledStream<S>,
) -> bool {
    ||| after.is_cancelled() == before.is_cancelled() && (after.stream() is None
        <==> before.stream() is None)
    ||| after.is_cancelled() && after.stream() == before.stream()
    ||| after.is_cancelled() && after.stream() is None
}

/// Whatever happens to a stream, it is destroyed only when it is cancelled, and once cancelled it
/// stays so. From then on no chunk can be asked for, and one that was waited for is lost.
pub proof fn law_cancel_is_final<S, T>(
    states: Seq<BridgeBulkPolledStream<S>>,
    j: int,
    k: int,
)
    requires
        0 <= j <= k < states.len(),
        states[0].stream() is Some,
        forall|i: int|
            #![trigger states[i]]
            0 < i < states.len() ==> is_step(states[i - 1], states[i]),
    ensures
        states[j].is_cancelled() ==> states[k].is_cancelled() && states[k].refuses()
            && forall|chunk: T| #[trigger] states[k].outcome_of(chunk) is Err,
        states[k].stream() is None ==> states[k].is_cancelled(),
    decreases k,
{
    if k > 0 {
        law_cancel_is_final::<S, T>(states, if j < k {
            j
        } else {
            0
        }, k - 1);
        assert(is_step(states[k - 1], states[k]));
    }
}

/// A backup copy under way: the outcome for each media object, as it comes.
pub struct CopyBackupMediaStream<S>(BridgeBulkPolledStream<S>);

/// A backup deletion under way: each media object that was deleted, as it comes.
pub struct DeleteBackupMediaStream<S>(BridgeBulkPolledStream<S>);

impl<S> CopyBackupMediaStream<S> {
    pub closed spec fn spec_inner(self) -> BridgeBulkPolledStream<S> {
        self.0
    }

    pub fn from(stream: BridgeBulkPolledStream<S>) -> (result: CopyBackupMediaStream<S>)
        ensures
            result.spec_inner() == stream,
    {
        CopyBackupMediaStream(stream)
    }

    pub fn inner(&self) -> (stream: &BridgeBulkPolledStream<S>)
        ensures
            *stream == self.spec_inner(),
    {
        &self.0
    }

    pub fn inner_mut(&mut self) -> (stream: &mut BridgeBulkPolledStream<S>)
        ensures
            *stream == old(self).spec_inner(),
            final(self).spec_inner() == *final(stream),
    {
        &mut self.0
    }
}

impl<S> DeleteBackupMediaStream<S> {
    pub closed spec fn spec_inner(self) -> BridgeBulkPolledStream<S> {
        self.0
    }

    pub fn from(stream: BridgeBulkPolledStream<S>) -> (result: DeleteBackupMediaStream<S>)
        ensures
            result.spec_inner() == stream,
    {
        DeleteBackupMediaStream(stream)
    }

    pub fn inner(&self) -> (stream: &BridgeBulkPolledStream<S>)
        ensures
            *stream == self.spec_inner(),
    {
        &self.0
    }

    pub fn inner_mut(&mut self) -> (stream: &mut BridgeBulkPolledStream<S>)
        ensures
            *stream == old(self).spec_inner(),
            final(self).spec_inner() == *final(stream),
    {
        &mut self.0
    }
}

/// Until a stream is cancelled or destroyed a chunk can be asked for, and one that has come is
/// handed on as it is. From then on neither.
pub proof fn law_chunks_come_until_the_end<S, T>(stream: BridgeBulkPolledStream<S>, chunk: T)
    ensures
        stream.refuses() <==> stream.is_cancelled() || stream.stream() is None,
        stream.is_cancelled() ==> stream.outcome_of(chunk) is Err,
        !stream.is_cancelled() ==> stream.outcome_of(chunk) == Ok::<T, StreamCancelled>(chunk),
{
}

} // verus!
