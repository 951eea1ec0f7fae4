//! One streamed transfer: the bytes received so far and the progress
//! published for display. Chunks are appended in arrival order, so a
//! completed transfer holds exactly the bytes served for its entry.

use vstd::prelude::*;
use vstd::slice::slice_to_vec;

verus! {

/// Per-transfer progress: written only by the transfer's owner, read by the
/// display aggregator, never used for control decisions.
#[derive(Debug, Clone, Copy, PartialEq, Eq, Structural)]
pub struct TransferProgress {
    pub bytes_transferred: u64,
    pub total_bytes: u64,
}

/// Progress never runs past the announced total.
pub open spec fn progress_wf(p: TransferProgress) -> bool {
    p.bytes_transferred <= p.total_bytes
}

/// Progress after a chunk of n bytes: advanced, saturated at the total.
pub open spec fn progress_after(p: TransferProgress, n: int) -> TransferProgress
    recommends
        progress_wf(p),
        n >= 0,
{
    TransferProgress {
        bytes_transferred: if p.bytes_transferred + n >= p.total_bytes {
            p.total_bytes
        } else {
            (p.bytes_transferred + n) as u64
        },
        total_bytes: p.total_bytes,
    }
}

/// One in-flight transfer: the destination bytes assembled so far and the
/// owner's progress cell.
pub struct Transfer {
    pub data: Vec<u8>,
    pub progress: TransferProgress,
}

/// The concatenation of the chunks a source serves, in order.
pub open spec fn chunks_data(chunks: Seq<Seq<u8>>) -> Seq<u8>
    decreases chunks.len(),
{
    if chunks.len() == 0 {
        Seq::empty()
    } else {
        chunks[0] + chunks_data(chunks.drop_first())
    }
}

/// The bytes held after feeding the chunks, in order, onto existing data.
pub open spec fn feed_all(data: Seq<u8>, chunks: Seq<Seq<u8>>) -> Seq<u8>
    decreases chunks.len(),
{
    if chunks.len() == 0 {
        data
    } else {
        feed_all(data + chunks[0], chunks.drop_first())
    }
}

/// Law: a successful download is byte-identical to what was served — a
/// transfer fed every served chunk in order holds exactly their
/// concatenation.
pub proof fn lemma_transfer_accumulates(data: Seq<u8>, chunks: Seq<Seq<u8>>)
    ensures
        feed_all(data, chunks) == data + chunks_data(chunks),
    decreases chunks.len(),
{
    if chunks.len() == 0 {
        assert(data + chunks_data(chunks) =~= data);
    } else {
        lemma_transfer_accumulates(data + chunks[0], chunks.drop_first());
        assert((data + chunks[0]) + chunks_data(chunks.drop_first()) =~= data + (chunks[0]
            + chunks_data(chunks.drop_first())));
    }
}

impl Transfer {
    /// Whether the transfer's state is consistent.
    pub open spec fn wf(self) -> bool {
        progress_wf(self.progress)
    }

    /// Starts a transfer whose source announced `total_bytes` (zero where
    /// the source announced no length).
    pub fn new(total_bytes: u64) -> (r: Transfer)
        ensures
            r.wf(),
            r.data@ == Seq::<u8>::empty(),
            r.progress == (TransferProgress { bytes_transferred: 0, total_bytes }),
    {
        let t = Transfer {
            data: Vec::new(),
            progress: TransferProgress { bytes_transferred: 0, total_bytes },
        };
        proof {
            assert(t.data@ =~= Seq::<u8>::empty());
        }
        t
    }

    /// Appends one received chunk and advances the progress cell, saturated
    /// at the announced total.
    pub fn on_chunk(&mut self, chunk: &[u8])
        requires
            old(self).wf(),
        ensures
            final(self).wf(),
            final(self).data@ == old(self).data@ + chunk@,
            final(self).progress == progress_after(old(self).progress, chunk@.len() as int),
    {
        let mut more = slice_to_vec(chunk);
        self.data.append(&mut more);
        let n = chunk.len() as u64;
        let remaining = self.progress.total_bytes - self.progress.bytes_transferred;
        if n >= remaining {
            self.progress.bytes_transferred = self.progress.total_bytes;
        } else {
            self.progress.bytes_transferred = self.progress.bytes_transferred + n;
        }
    }
}

} // verus!
