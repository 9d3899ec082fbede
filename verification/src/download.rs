use vstd::prelude::*;

use crate::chunks::{concat_of, lemma_concat_append, lemma_concat_push};

verus! {

/// The failure a persistence pass reports: the distribution channel closed
/// before the written bytes reached the declared total size of the resource.
#[derive(Clone, Copy, Debug, PartialEq, Eq, Structural)]
pub enum DownloadError {
    ShortDownload,
}

/// The accumulation side of a download session: every chunk that has arrived
/// so far, appended in order into one growing buffer, together with the
/// declared total size of the resource. A late subscriber catches up by
/// copying a snapshot of this buffer and then following the live
/// distribution.
pub struct DownloadBuffer {
    data: Vec<u8>,
    total_size: u64,
    chunks_seen: Ghost<Seq<Seq<u8>>>,
}

impl DownloadBuffer {
    /// The bytes accumulated so far.
    pub closed spec fn accumulated(&self) -> Seq<u8> {
        self.data@
    }

    /// The declared total size of the resource being fetched.
    pub closed spec fn total(&self) -> u64 {
        self.total_size
    }

    /// Every chunk appended so far, in arrival order.
    pub closed spec fn chunks(&self) -> Seq<Seq<u8>> {
        self.chunks_seen@
    }

    /// The buffer is exactly the concatenation, in arrival order, of the
    /// chunks appended so far.
    pub open spec fn wf(&self) -> bool {
        self.accumulated() == concat_of(self.chunks())
    }

    /// A fresh, empty accumulation buffer for a resource whose declared
    /// length is `total_size` bytes.
    pub fn new(total_size: u64) -> (r: DownloadBuffer)
        ensures
            r.wf(),
            r.accumulated() == Seq::<u8>::empty(),
            r.chunks() == Seq::<Seq<u8>>::empty(),
            r.total() == total_size,
    {
        DownloadBuffer { data: Vec::new(), total_size, chunks_seen: Ghost(Seq::empty()) }
    }

    /// Appends one chunk fanned out by the distribution channel.
    pub fn append_chunk(&mut self, chunk: Vec<u8>)
        requires
            old(self).wf(),
        ensures
            final(self).wf(),
            final(self).accumulated() == old(self).accumulated() + chunk@,
            final(self).chunks() == old(self).chunks().push(chunk@),
            final(self).total() == old(self).total(),
    {
        let ghost c = chunk@;
        let mut chunk = chunk;
        self.data.append(&mut chunk);
        self.chunks_seen = Ghost(self.chunks_seen@.push(c));
        proof {
            lemma_concat_push(old(self).chunks_seen@, c);
        }
    }

    /// A copy of everything accumulated so far, for a late subscriber to
    /// catch up from before following the live distribution.
    pub fn snapshot(&self) -> (r: Vec<u8>)
        ensures
            r@ == self.accumulated(),
    {
        let mut out: Vec<u8> = Vec::new();
        let mut i: usize = 0;
        while i < self.data.len()
            invariant
                i <= self.data@.len(),
                out@ == self.data@.subrange(0, i as int),
            decreases self.data@.len() - i,
        {
            let b = self.data[i];
            out.push(b);
            i = i + 1;
            proof {
                assert(out@ =~= self.data@.subrange(0, i as int));
            }
        }
        proof {
            assert(out@ =~= self.data@);
        }
        out
    }

    /// How many bytes have accumulated so far.
    pub fn accumulated_len(&self) -> (r: usize)
        ensures
            r == self.accumulated().len(),
    {
        self.data.len()
    }

    /// The declared total size of the resource.
    pub fn total_size(&self) -> (r: u64)
        ensures
            r == self.total(),
    {
        self.total_size
    }

    /// Whether a persistence pass that wrote `written` bytes saw the whole
    /// resource: fewer bytes than the declared total size is a short
    /// download, surfaced as an error rather than accepted silently.
    pub fn check_complete(&self, written: u64) -> (r: Result<(), DownloadError>)
        ensures
            r is Ok <==> written >= self.total(),
    {
        if written < self.total_size {
            Err(DownloadError::ShortDownload)
        } else {
            Ok(())
        }
    }
}

/// Law: a late subscriber that first copies the accumulated snapshot — the
/// first `k` chunks of the fetch — and then follows the live distribution —
/// the remaining chunks — writes exactly the whole fetched byte stream.
pub proof fn lemma_snapshot_then_live_is_whole(all: Seq<Seq<u8>>, k: int)
    requires
        0 <= k <= all.len(),
    ensures
        concat_of(all.take(k)) + concat_of(all.skip(k)) == concat_of(all),
{
    lemma_concat_append(all.take(k), all.skip(k));
    assert(all.take(k) + all.skip(k) =~= all);
}

} // verus!
