use vstd::prelude::*;

use crate::chunks::{concat_of, lemma_concat_push};

verus! {

#[verifier::external_type_specification]
#[verifier::external_body]
pub struct ExBytes(bytes::Bytes);

#[verifier::external_type_specification]
#[verifier::external_body]
#[verifier::reject_recursive_types(T)]
pub struct ExTokioReceiver<T>(tokio::sync::mpsc::Receiver<T>);

/// How a positional read fails: the mailbox was exhausted before enough bytes
/// had accumulated to satisfy the request.
#[derive(Clone, Copy, Debug, PartialEq, Eq, Structural)]
pub enum ReadError {
    EndOfData,
}

/// How a seek fails: the requested displacement falls outside the offsets this
/// source can represent.
#[derive(Clone, Copy, Debug, PartialEq, Eq, Structural)]
pub enum SeekError {
    Unsupported,
}

/// The origin of a seek displacement.
#[derive(Clone, Copy, Debug, PartialEq, Eq, Structural)]
pub enum SeekFrom {
    Start(u64),
    End(i64),
    Current(i64),
}

/// A sequence is a prefix of itself extended by anything.
pub proof fn lemma_prefix_extend<T>(a: Seq<T>, b: Seq<T>)
    ensures
        a.is_prefix_of(a + b),
{
    assert((a + b).subrange(0, a.len() as int) =~= a);
}

/// Being a prefix is transitive.
pub proof fn lemma_prefix_trans<T>(a: Seq<T>, b: Seq<T>, c: Seq<T>)
    requires
        a.is_prefix_of(b),
        b.is_prefix_of(c),
    ensures
        a.is_prefix_of(c),
{
    assert(c.subrange(0, a.len() as int) =~= c.subrange(0, b.len() as int).subrange(
        0,
        a.len() as int,
    ));
    assert(c.subrange(0, a.len() as int) =~= a);
}

/// Law: the bytes a read hands out are exactly the matching slice of the
/// concatenation of the chunks fed through the mailbox, at the offsets the
/// read covered.
pub proof fn lemma_read_completeness(source: &BytesWrapper, data: Seq<u8>, start: int, end: int)
    requires
        source.wf(),
        0 <= start <= end <= source.buffer().len(),
        data == source.buffer().subrange(start, end),
    ensures
        data == concat_of(source.chunks()).subrange(start, end),
{
}

/// A synchronous, seekable, positional byte source over data that arrives as
/// discrete chunks through a bounded mailbox. A read past what has accumulated
/// so far blocks, pulling further chunks from the mailbox, until it can be
/// satisfied in full or the mailbox is exhausted.
pub struct BytesWrapper {
    recv: tokio::sync::mpsc::Receiver<bytes::Bytes>,
    bytes: Vec<u8>,
    cursor: u64,
    chunks_seen: Ghost<Seq<Seq<u8>>>,
}

/// Relies on tokio's bounded channel `Receiver::blocking_recv`: waits until the
/// next chunk arrives and returns it, or returns nothing once the channel is
/// closed and drained. Must be called from outside an asynchronous runtime.
#[verifier::external_body]
fn recv_chunk(recv: &mut tokio::sync::mpsc::Receiver<bytes::Bytes>) -> (r: Option<Vec<u8>>) {
    recv.blocking_recv().map(|chunk| chunk.to_vec())
}

impl BytesWrapper {
    /// The bytes accumulated from the mailbox so far.
    pub closed spec fn buffer(&self) -> Seq<u8> {
        self.bytes@
    }

    /// The offset at which the next read starts.
    pub closed spec fn position(&self) -> u64 {
        self.cursor
    }

    /// Every chunk pulled from the mailbox so far, in arrival order.
    pub closed spec fn chunks(&self) -> Seq<Seq<u8>> {
        self.chunks_seen@
    }

    /// The accumulated buffer is exactly the concatenation, in arrival order,
    /// of the chunks pulled from the mailbox.
    pub open spec fn wf(&self) -> bool {
        self.buffer() == concat_of(self.chunks())
    }

    /// A fresh byte source: nothing accumulated, cursor at the start.
    pub fn new(recv: tokio::sync::mpsc::Receiver<bytes::Bytes>) -> (r: BytesWrapper)
        ensures
            r.wf(),
            r.buffer() == Seq::<u8>::empty(),
            r.chunks() == Seq::<Seq<u8>>::empty(),
            r.position() == 0,
    {
        BytesWrapper { recv, bytes: Vec::new(), cursor: 0, chunks_seen: Ghost(Seq::empty()) }
    }

    /// Appends one freshly arrived chunk to the accumulated buffer.
    fn absorb_chunk(&mut self, chunk: Vec<u8>)
        requires
            old(self).wf(),
        ensures
            final(self).wf(),
            final(self).position() == old(self).position(),
            final(self).buffer() == old(self).buffer() + chunk@,
            final(self).chunks() == old(self).chunks().push(chunk@),
    {
        let ghost c = chunk@;
        let mut chunk = chunk;
        self.bytes.append(&mut chunk);
        self.chunks_seen = Ghost(self.chunks_seen@.push(c));
        proof {
            lemma_concat_push(old(self).chunks_seen@, c);
        }
    }

    /// Reads exactly `read_length` bytes at the cursor, blocking on the mailbox
    /// until the accumulated buffer reaches that far. Fails, leaving the cursor
    /// in place, once the mailbox is exhausted while the buffer is still short
    /// of the request; it never returns a silent truncation.
    pub fn read(&mut self, read_length: usize) -> (r: Result<Vec<u8>, ReadError>)
        requires
            old(self).wf(),
        ensures
            final(self).wf(),
            old(self).buffer().is_prefix_of(final(self).buffer()),
            old(self).chunks().is_prefix_of(final(self).chunks()),
            old(self).position() + read_length <= old(self).buffer().len() ==> (r is Ok
                && final(self).buffer() == old(self).buffer() && final(self).chunks() == old(self).chunks()),
            match r {
                Ok(data) => {
                    &&& final(self).position() == old(self).position() + read_length
                    &&& final(self).position() <= final(self).buffer().len()
                    &&& data@ == final(self).buffer().subrange(
                        old(self).position() as int,
                        final(self).position() as int,
                    )
                },
                Err(_) => {
                    &&& final(self).position() == old(self).position()
                    &&& final(self).position() + read_length > final(self).buffer().len()
                },
            },
    {
        let target = match self.cursor.checked_add(read_length as u64) {
            Some(t) => t,
            None => {
                let len_now = self.bytes.len();
                proof {
                    assert(self.buffer().len() == len_now as int);
                    assert(len_now as u64 <= u64::MAX);
                }
                return Err(ReadError::EndOfData);
            },
        };
        let mut pulls: u64 = 0;
        while target > (self.bytes.len() as u64)
            invariant
                self.wf(),
                self.cursor == old(self).cursor,
                target == old(self).cursor + read_length,
                old(self).buffer().is_prefix_of(self.buffer()),
                old(self).chunks().is_prefix_of(self.chunks()),
                old(self).position() + read_length <= old(self).buffer().len() ==> (self.buffer()
                    == old(self).buffer() && self.chunks() == old(self).chunks()),
            decreases u64::MAX - pulls,
        {
            if pulls == u64::MAX {
                return Err(ReadError::EndOfData);
            }
            match recv_chunk(&mut self.recv) {
                Some(chunk) => {
                    let ghost before_bytes = self.buffer();
                    let ghost before_chunks = self.chunks();
                    let ghost c = chunk@;
                    self.absorb_chunk(chunk);
                    proof {
                        lemma_prefix_extend(before_bytes, c);
                        lemma_prefix_trans(old(self).buffer(), before_bytes, self.buffer());
                        assert(self.chunks() =~= before_chunks + seq![c]);
                        lemma_prefix_extend(before_chunks, seq![c]);
                        lemma_prefix_trans(old(self).chunks(), before_chunks, self.chunks());
                    }
                },
                None => {
                    return Err(ReadError::EndOfData);
                },
            }
            pulls = pulls + 1;
        }
        proof {
            assert(self.cursor <= self.bytes@.len());
        }
        let start = self.cursor as usize;
        let total = self.bytes.len();
        let mut data: Vec<u8> = Vec::new();
        let mut i: usize = 0;
        while i < read_length
            invariant
                i <= read_length,
                self.wf(),
                self.cursor == old(self).cursor,
                start == old(self).cursor,
                total == self.bytes@.len(),
                start + read_length <= total,
                data@ == self.bytes@.subrange(start as int, start as int + i as int),
                old(self).buffer().is_prefix_of(self.buffer()),
                old(self).chunks().is_prefix_of(self.chunks()),
                old(self).position() + read_length <= old(self).buffer().len() ==> (self.buffer()
                    == old(self).buffer() && self.chunks() == old(self).chunks()),
            decreases read_length - i,
        {
            let b = self.bytes[start + i];
            data.push(b);
            i = i + 1;
            proof {
                assert(data@ =~= self.bytes@.subrange(start as int, start as int + i as int));
            }
        }
        self.cursor = self.cursor + (read_length as u64);
        Ok(data)
    }

    /// Repositions the cursor. A displacement from the start clamps to the
    /// accumulated length; displacements from the end or from the cursor that
    /// would land outside the representable offsets fail as unsupported,
    /// leaving the cursor in place.
    pub fn seek(&mut self, pos: SeekFrom) -> (r: Result<u64, SeekError>)
        requires
            old(self).wf(),
        ensures
            final(self).wf(),
            final(self).buffer() == old(self).buffer(),
            final(self).chunks() == old(self).chunks(),
            match r {
                Ok(p) => {
                    &&& p == final(self).position()
                    &&& match pos {
                        SeekFrom::Start(n) => final(self).position() == if n <= old(self).buffer().len() {
                            n as int
                        } else {
                            old(self).buffer().len() as int
                        },
                        SeekFrom::End(e) => final(self).position() == old(self).buffer().len() + e,
                        SeekFrom::Current(c) => final(self).position() == old(self).position() + c,
                    }
                },
                Err(_) => {
                    &&& final(self).position() == old(self).position()
                    &&& match pos {
                        SeekFrom::Start(_) => false,
                        SeekFrom::End(e) => old(self).buffer().len() + e < 0 || old(
                            self,
                        ).buffer().len() + e > u64::MAX,
                        SeekFrom::Current(c) => old(self).position() + c < 0 || old(
                            self,
                        ).position() + c > u64::MAX,
                    }
                },
            },
    {
        match pos {
            SeekFrom::Start(n) => {
                let len = self.bytes.len() as u64;
                self.cursor = if n <= len {
                    n
                } else {
                    len
                };
                Ok(self.cursor)
            },
            SeekFrom::End(e) => {
                let len = self.bytes.len() as u64;
                match len.checked_add_signed(e) {
                    Some(p) => {
                        self.cursor = p;
                        Ok(p)
                    },
                    None => Err(SeekError::Unsupported),
                }
            },
            SeekFrom::Current(c) => {
                match self.cursor.checked_add_signed(c) {
                    Some(p) => {
                        self.cursor = p;
                        Ok(p)
                    },
                    None => Err(SeekError::Unsupported),
                }
            },
        }
    }

    /// The cursor's current offset.
    pub fn current_position(&self) -> (r: u64)
        ensures
            r == self.position(),
    {
        self.cursor
    }

    /// How many bytes have accumulated from the mailbox so far.
    pub fn accumulated_len(&self) -> (r: usize)
        ensures
            r == self.buffer().len(),
    {
        self.bytes.len()
    }

    /// This source supports seeking.
    pub fn is_seekable(&self) -> (r: bool)
        ensures
            r == true,
    {
        true
    }

    /// The total length of the stream is not reliably knowable while data is
    /// still arriving, so none is declared.
    pub fn byte_len(&self) -> (r: Option<u64>)
        ensures
            r is None,
    {
        None
    }
}

} // verus!
