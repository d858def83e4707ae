//! Seekable byte sinks. The descriptor must land at an absolute offset inside
//! an output stream, so the serializer is written against a small sink
//! abstraction: a byte store with a cursor, a seek that is always relative to
//! the absolute start, and a write that lays bytes down at the cursor.
//! `MemoryImage` is the in-memory sink; a file-backed sink lives with the
//! code that owns the file.

use vstd::prelude::*;

verus! {

/// A failed seek, write, or flush, carrying whatever the underlying store
/// reported. The record defines no seek-specific error kinds of its own.
#[derive(Debug)]
pub struct IoFailure {
    pub message: String,
}

/// How a successful write at `position` relates the sink's bytes before
/// (`pre`) and after (`post`): the written span holds `data`, bytes elsewhere
/// within the old length are untouched, and the sink has grown exactly as far
/// as the write reaches. A gap the cursor leaves beyond the old end is the
/// backing store's to initialize: nothing is said of its bytes.
pub open spec fn write_effect(pre: Seq<u8>, position: int, data: Seq<u8>, post: Seq<u8>) -> bool {
    if data.len() == 0 {
        post == pre
    } else {
        &&& post.len() == (if pre.len() >= position + data.len() {
            pre.len() as int
        } else {
            position + data.len()
        })
        &&& forall|i: int|
            0 <= i < pre.len() && !(position <= i < position + data.len()) ==> post[i] == pre[i]
        &&& forall|i: int| 0 <= i < data.len() ==> post[position + i] == data[i]
    }
}

/// A seekable, writable byte sink. `contents` are the bytes it holds so far
/// and `position` the cursor the next write starts at. Seeking is always
/// relative to the absolute start of the sink, never to the cursor. Any
/// operation may fail with the store's own error; the contracts promise what
/// holds when it does not.
pub trait SectorSink: Sized {
    /// The bytes the sink holds. The default stands in for sinks whose
    /// contents cannot be observed; a sink that promises anything of its
    /// contents gives this a real body.
    open spec fn contents(&self) -> Seq<u8> {
        Seq::empty()
    }

    /// The absolute offset the next write starts at. The default stands in
    /// for sinks whose cursor cannot be observed; a sink that promises
    /// anything of its position gives this a real body.
    open spec fn position(&self) -> nat {
        0
    }

    /// Moves the cursor to `offset` from the absolute start of the sink and
    /// reports the resulting position. The bytes already held do not change.
    fn seek_from_start(&mut self, offset: u64) -> (r: Result<u64, IoFailure>)
        ensures
            r is Ok ==> final(self).contents() == old(self).contents() && final(self).position()
                == offset as nat && r->Ok_0 == offset,
    ;

    /// Writes all of `buffer` at the cursor, overwriting what was there and
    /// extending the sink if the write runs past its end, then leaves the
    /// cursor just after the written span.
    fn write_bytes(&mut self, buffer: &[u8]) -> (r: Result<(), IoFailure>)
        ensures
            r is Ok ==> write_effect(
                old(self).contents(),
                old(self).position() as int,
                buffer@,
                final(self).contents(),
            ) && final(self).position() == old(self).position() + buffer@.len(),
    ;

    /// Pushes buffered bytes down to the backing store. The sink's bytes and
    /// cursor do not change.
    fn flush(&mut self) -> (r: Result<(), IoFailure>)
        ensures
            r is Ok ==> final(self).contents() == old(self).contents() && final(self).position()
                == old(self).position(),
    ;
}

/// An in-memory sink: a growable byte buffer with a cursor. A write past the
/// current end zero-fills the gap, the way a freshly grown image is expected
/// to be initialized.
pub struct MemoryImage {
    data: Vec<u8>,
    cursor: u64,
}

impl MemoryImage {
    /// An empty image with the cursor at the start.
    pub fn new() -> (r: MemoryImage)
        ensures
            r.contents() == Seq::<u8>::empty(),
            r.position() == 0,
    {
        MemoryImage { data: Vec::new(), cursor: 0 }
    }

    /// How many bytes the image holds.
    pub fn len(&self) -> (r: usize)
        ensures
            r == self.contents().len(),
    {
        self.data.len()
    }

    /// The bytes the image holds, in order.
    pub fn as_bytes(&self) -> (r: &[u8])
        ensures
            r@ == self.contents(),
    {
        self.data.as_slice()
    }
}

impl SectorSink for MemoryImage {
    closed spec fn contents(&self) -> Seq<u8> {
        self.data@
    }

    closed spec fn position(&self) -> nat {
        self.cursor as nat
    }

    fn seek_from_start(&mut self, offset: u64) -> (r: Result<u64, IoFailure>)
        ensures
            r is Ok,
    {
        self.cursor = offset;
        Ok(offset)
    }

    fn write_bytes(&mut self, buffer: &[u8]) -> (r: Result<(), IoFailure>)
        ensures
            old(self).position() + buffer@.len() <= usize::MAX ==> r is Ok,
    {
        if buffer.len() == 0 {
            return Ok(());
        }
        if self.cursor > usize::MAX as u64 {
            return Err(
                IoFailure { message: "Write position exceeds addressable memory!".to_owned() },
            );
        }
        let start = self.cursor as usize;
        if buffer.len() > usize::MAX - start {
            return Err(
                IoFailure { message: "Write would exceed addressable memory!".to_owned() },
            );
        }
        while self.data.len() < start
            invariant
                old(self).data@.len() <= self.data@.len(),
                forall|k: int| 0 <= k < old(self).data@.len() ==> self.data@[k] == old(self).data@[k],
                forall|k: int|
                    old(self).data@.len() <= k < self.data@.len() ==> self.data@[k] == 0u8,
                self.data@.len() <= start || self.data@ == old(self).data@,
                self.cursor == old(self).cursor,
            decreases start - self.data@.len(),
        {
            self.data.push(0u8);
        }
        let ghost padded = self.data@;
        let mut i: usize = 0;
        while i < buffer.len()
            invariant
                start == old(self).cursor,
                start + buffer@.len() <= usize::MAX,
                i <= buffer@.len(),
                padded.len() >= start,
                old(self).data@.len() <= padded.len(),
                forall|k: int| 0 <= k < old(self).data@.len() ==> padded[k] == old(self).data@[k],
                padded.len() <= start || padded == old(self).data@,
                self.data@.len() == (if padded.len() >= start + i {
                    padded.len() as int
                } else {
                    start + i
                }),
                forall|k: int|
                    0 <= k < padded.len() && !(start <= k < start + i) ==> self.data@[k]
                        == padded[k],
                forall|k: int| 0 <= k < i ==> self.data@[start + k] == buffer@[k],
                self.cursor == old(self).cursor,
            decreases buffer@.len() - i,
        {
            let index = start + i;
            if index < self.data.len() {
                self.data[index] = buffer[i];
            } else {
                self.data.push(buffer[i]);
            }
            i = i + 1;
        }
        self.cursor = self.cursor + buffer.len() as u64;
        Ok(())
    }

    fn flush(&mut self) -> (r: Result<(), IoFailure>)
        ensures
            r is Ok,
    {
        Ok(())
    }
}

} // verus!
