//! The byte stream that a streamed read hands out: the chunks of the source,
//! flattened to single bytes in order, ended by the end of the data or by
//! the first failure.

use vstd::prelude::*;
use crate::error::StorageError;

verus! {

/// What a driver read from an open source.
#[allow(inconsistent_fields)]
#[derive(Debug)]
pub enum Chunk {
    /// The next bytes of the data, in order. The chunk may be empty.
    Data { bytes: Vec<u8> },
    /// The data has ended.
    End,
    /// The local file system failed during the read.
    IoFailed { cause: std::io::Error },
    /// The remote object store failed during the transfer.
    ServiceFailed { cause: cloud_storage::Error },
}

/// One item of the stream.
#[derive(Debug)]
pub enum Item {
    /// The next byte of the data.
    Byte { value: u8 },
    /// The read failed; nothing follows.
    Failed { error: StorageError },
    /// The data has ended.
    End,
    /// The next item is not known yet: the stream needs another chunk.
    Starved,
}

/// A lazy, single-pass stream of bytes.
#[derive(Debug)]
pub struct ByteStream {
    buffer: Vec<u8>,
    taken: usize,
    failure: Option<StorageError>,
    closed: bool,
}

/// The mathematical value of a [`ByteStream`].
pub struct StreamView {
    /// The bytes that were fed and not handed out yet, in order.
    pub pending: Seq<u8>,
    /// The failure that ends the stream once the pending bytes are out.
    pub failure: Option<StorageError>,
    /// No further chunk is taken in: the source ended or failed.
    pub closed: bool,
}

/// The stream after it was offered `chunk`. Data is queued behind the pending
/// bytes; the end or a failure closes the stream; a closed stream takes in
/// nothing more.
pub open spec fn fed(stream: StreamView, chunk: Chunk) -> StreamView {
    if stream.closed {
        stream
    } else {
        match chunk {
            Chunk::Data { bytes } => StreamView { pending: stream.pending + bytes@, ..stream },
            Chunk::End => StreamView { closed: true, ..stream },
            Chunk::IoFailed { cause } => StreamView {
                failure: Some(StorageError::IOError { cause }),
                closed: true,
                ..stream
            },
            Chunk::ServiceFailed { cause } => StreamView {
                failure: Some(StorageError::CloudStorageError { cause }),
                closed: true,
                ..stream
            },
        }
    }
}

/// The next item of the stream: the oldest pending byte; else the failure;
/// else the end, if the stream is closed; else the word that another chunk
/// is needed.
pub open spec fn head(stream: StreamView) -> Item {
    if stream.pending.len() > 0 {
        Item::Byte { value: stream.pending[0] }
    } else {
        match stream.failure {
            Some(error) => Item::Failed { error },
            None => if stream.closed {
                Item::End
            } else {
                Item::Starved
            },
        }
    }
}

/// The stream after its next item was handed out: a byte leaves the pending
/// ones, and a failure is reported once.
pub open spec fn rest(stream: StreamView) -> StreamView {
    if stream.pending.len() > 0 {
        StreamView { pending: stream.pending.drop_first(), ..stream }
    } else {
        StreamView { failure: None, ..stream }
    }
}

impl View for ByteStream {
    type V = StreamView;

    closed spec fn view(&self) -> StreamView {
        StreamView {
            pending: self.buffer@.skip(self.taken as int),
            failure: self.failure,
            closed: self.closed,
        }
    }
}

impl ByteStream {
    /// The stream's bookkeeping is sound: every stream that `new` made, and
    /// that only `feed` and `next` have touched, is well formed.
    pub closed spec fn wf(&self) -> bool {
        self.taken <= self.buffer@.len()
    }

    /// A stream that has received nothing yet.
    pub fn new() -> (stream: Self)
        ensures
            stream.wf(),
            stream@ == (StreamView { pending: Seq::empty(), failure: None, closed: false }),
    {
        let stream = ByteStream { buffer: Vec::new(), taken: 0, failure: None, closed: false };
        assert(stream@.pending =~= Seq::empty());
        stream
    }

    /// Takes in what the driver read from the source.
    pub fn feed(&mut self, chunk: Chunk)
        requires
            old(self).wf(),
        ensures
            final(self).wf(),
            final(self)@ == fed(old(self)@, chunk),
    {
        if self.closed {
            return ;
        }
        match chunk {
            Chunk::Data { bytes } => {
                if self.taken >= self.buffer.len() {
                    self.buffer = bytes;
                    self.taken = 0;
                } else {
                    let mut bytes = bytes;
                    self.buffer.append(&mut bytes);
                }
                assert(self@.pending =~= old(self)@.pending + bytes@);
            },
            Chunk::End => {
                self.closed = true;
            },
            Chunk::IoFailed { cause } => {
                self.failure = Some(StorageError::from(cause));
                self.closed = true;
            },
            Chunk::ServiceFailed { cause } => {
                self.failure = Some(StorageError::from(cause));
                self.closed = true;
            },
        }
    }

    /// Hands out the next item of the stream.
    pub fn next(&mut self) -> (item: Item)
        requires
            old(self).wf(),
        ensures
            final(self).wf(),
            item == head(old(self)@),
            final(self)@ == rest(old(self)@),
    {
        if self.taken < self.buffer.len() {
            let value = self.buffer[self.taken];
            self.taken = self.taken + 1;
            assert(self@.pending =~= old(self)@.pending.drop_first());
            return Item::Byte { value };
        }
        match self.failure.take() {
            Some(error) => Item::Failed { error },
            None => if self.closed {
                Item::End
            } else {
                Item::Starved
            },
        }
    }
}

/// The stream after it was offered each of `chunks`, in order.
pub open spec fn fed_all(stream: StreamView, chunks: Seq<Chunk>) -> StreamView
    decreases chunks.len(),
{
    if chunks.len() == 0 {
        stream
    } else {
        fed_all(fed(stream, chunks[0]), chunks.drop_first())
    }
}

/// The bytes of `chunks`, one chunk after the other.
pub open spec fn data_of(chunks: Seq<Chunk>) -> Seq<u8>
    decreases chunks.len(),
{
    if chunks.len() == 0 {
        Seq::empty()
    } else {
        (match chunks[0] {
            Chunk::Data { bytes } => bytes@,
            _ => Seq::empty(),
        }) + data_of(chunks.drop_first())
    }
}

/// How the data is cut into chunks makes no difference: an open stream that
/// is fed chunks of data holds, behind what it held, their bytes in order.
pub proof fn lemma_chunking_makes_no_difference(stream: StreamView, chunks: Seq<Chunk>)
    requires
        !stream.closed,
        forall|i: int| 0 <= i < chunks.len() ==> chunks[i] is Data,
    ensures
        fed_all(stream, chunks) == (StreamView {
            pending: stream.pending + data_of(chunks),
            ..stream
        }),
    decreases chunks.len(),
{
    if chunks.len() == 0 {
        assert(stream.pending + data_of(chunks) =~= stream.pending);
    } else {
        let tail = chunks.drop_first();
        assert forall|i: int| 0 <= i < tail.len() implies tail[i] is Data by {
            assert(tail[i] == chunks[i + 1]);
        }
        lemma_chunking_makes_no_difference(fed(stream, chunks[0]), tail);
        assert(fed(stream, chunks[0]).pending + data_of(tail) =~= stream.pending + data_of(
            chunks,
        ));
    }
}

/// The stream after `count` items were handed out.
pub open spec fn after(stream: StreamView, count: nat) -> StreamView
    decreases count,
{
    if count == 0 {
        stream
    } else {
        after(rest(stream), (count - 1) as nat)
    }
}

/// A stream hands out its pending bytes one by one, in the order in which
/// they were fed, and keeps its failure and its end for after the last one.
pub proof fn lemma_stream_keeps_order(stream: StreamView, index: nat)
    requires
        index <= stream.pending.len(),
    ensures
        after(stream, index).pending == stream.pending.skip(index as int),
        after(stream, index).failure == stream.failure,
        after(stream, index).closed == stream.closed,
        index < stream.pending.len() ==> head(after(stream, index)) == (Item::Byte {
            value: stream.pending[index as int],
        }),
    decreases index,
{
    if index == 0 {
        assert(stream.pending.skip(0) =~= stream.pending);
    } else {
        lemma_stream_keeps_order(rest(stream), (index - 1) as nat);
        assert(rest(stream).pending.skip(index - 1) =~= stream.pending.skip(index as int));
    }
}

} // verus!
