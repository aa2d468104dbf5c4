//! The decisions of the per-channel workers: the receiver turns device
//! reads into blocks, the sender retries a block's write until it succeeds.
use vstd::prelude::*;

use crate::data_block::{copy_range, DataBlock, MAX_PAYLOAD};

verus! {

/// What a receiver worker does after a read.
pub enum ReceiverAction {
    /// Send this block to the shared outbound bus, then read again.
    Publish(DataBlock),
    /// Nothing was read: read again.
    ReadAgain,
    /// The read failed: get a new handle from the manager, then read again.
    Reacquire,
}

/// Reads from one channel's device and publishes what it reads.
pub struct ReceiverWorker {
    pub id: u8,
}

impl ReceiverWorker {
    pub fn new(id: u8) -> (r: ReceiverWorker)
        ensures
            r.id == id,
    {
        ReceiverWorker { id }
    }

    /// `read` is the byte count a read into `buffer` gave, or `None` where it
    /// failed. Each read of one or more bytes becomes one block of exactly
    /// those bytes.
    pub fn on_read(&self, buffer: &Vec<u8>, read: Option<usize>) -> (r: ReceiverAction)
        requires
            buffer@.len() <= MAX_PAYLOAD,
            read matches Some(n) ==> n <= buffer@.len(),
        ensures
            read is None <==> r is Reacquire,
            read == Some(0usize) <==> r is ReadAgain,
            r matches ReceiverAction::Publish(b) ==> b.wf() && b@ == (
                self.id,
                buffer@.subrange(0, read->0 as int),
            ),
    {
        match read {
            None => ReceiverAction::Reacquire,
            Some(n) => {
                if n == 0 {
                    ReceiverAction::ReadAgain
                } else {
                    ReceiverAction::Publish(DataBlock { id: self.id, data: copy_range(buffer, 0, n) })
                }
            },
        }
    }
}

/// What a sender worker does next.
#[derive(Clone, Copy, Debug, PartialEq, Eq, Structural)]
pub enum SenderAction {
    /// Wait for the next block on the channel's queue.
    Receive,
    /// Get a new handle from the manager and write the same block again.
    ReacquireAndRetry,
}

/// A sender worker, as values: the payload waiting to be written, and the
/// payloads written so far, in order.
pub struct SenderView {
    pub pending: Option<Seq<u8>>,
    pub written: Seq<Seq<u8>>,
}

/// A sender worker after one write attempt that succeeded or failed.
pub open spec fn after_write(v: SenderView, ok: bool) -> SenderView {
    match v.pending {
        Some(p) => if ok {
            SenderView { pending: None, written: v.written.push(p) }
        } else {
            v
        },
        None => v,
    }
}

/// A sender worker after a run of write attempts with these outcomes.
pub open spec fn after_writes(v: SenderView, outcomes: Seq<bool>) -> SenderView
    decreases outcomes.len(),
{
    if outcomes.len() == 0 {
        v
    } else {
        after_writes(after_write(v, outcomes[0]), outcomes.drop_first())
    }
}

/// `n` failed attempts.
pub open spec fn failures(n: nat) -> Seq<bool> {
    Seq::new(n, |i: int| false)
}

/// Drains one channel's queue onto its device, in order, retrying each
/// block until its write succeeds.
pub struct SenderWorker {
    id: u8,
    pending: Option<DataBlock>,
    written: Ghost<Seq<Seq<u8>>>,
}

impl View for SenderWorker {
    type V = SenderView;

    closed spec fn view(&self) -> SenderView {
        SenderView {
            pending: match self.pending {
                Some(b) => Some(b.data@),
                None => None,
            },
            written: self.written@,
        }
    }
}

impl SenderWorker {
    /// The channel this worker writes for.
    pub closed spec fn channel(&self) -> u8 {
        self.id
    }

    pub fn id(&self) -> (r: u8)
        ensures
            r == self.channel(),
    {
        self.id
    }

    pub fn new(id: u8) -> (r: SenderWorker)
        ensures
            r.channel() == id,
            r@.pending is None,
            r@.written == Seq::<Seq<u8>>::empty(),
    {
        SenderWorker { id, pending: None, written: Ghost(Seq::empty()) }
    }

    /// Nothing is waiting to be written.
    pub fn is_idle(&self) -> (r: bool)
        ensures
            r <==> self@.pending is None,
    {
        self.pending.is_none()
    }

    /// Takes the next block off the queue; a worker that still has a block
    /// to write hands the new one back untouched.
    pub fn accept(&mut self, block: DataBlock) -> (r: Result<(), DataBlock>)
        ensures
            final(self).channel() == old(self).channel(),
            old(self)@.pending is None ==> r is Ok && final(self)@ == (SenderView {
                pending: Some(block.data@),
                written: old(self)@.written,
            }),
            old(self)@.pending is Some ==> r == Err::<(), DataBlock>(block) && final(self)@
                == old(self)@,
    {
        if self.pending.is_some() {
            Err(block)
        } else {
            self.pending = Some(block);
            Ok(())
        }
    }

    /// The payload to write now, if any.
    pub fn pending_payload(&self) -> (r: Option<&Vec<u8>>)
        ensures
            r matches Some(p) ==> self@.pending == Some(p@),
            r is None <==> self@.pending is None,
    {
        match &self.pending {
            Some(b) => Some(&b.data),
            None => None,
        }
    }

    /// Records how the write of the pending payload went: a success
    /// completes the block, a failure keeps it for another attempt.
    pub fn write_result(&mut self, ok: bool) -> (r: SenderAction)
        ensures
            final(self).channel() == old(self).channel(),
            final(self)@ == after_write(old(self)@, ok),
            r == if old(self)@.pending is Some && !ok {
                SenderAction::ReacquireAndRetry
            } else {
                SenderAction::Receive
            },
    {
        if self.pending.is_none() {
            return SenderAction::Receive;
        }
        if ok {
            let ghost p = self@.pending->0;
            self.written = Ghost(self.written@.push(p));
            self.pending = None;
            SenderAction::Receive
        } else {
            SenderAction::ReacquireAndRetry
        }
    }
}

/// Failed writes keep the same payload pending, byte for byte.
proof fn lemma_failures_keep_pending(v: SenderView, n: nat)
    requires
        v.pending is Some,
    ensures
        after_writes(v, failures(n)) == v,
    decreases n,
{
    if n > 0 {
        assert(failures(n).drop_first() =~= failures((n - 1) as nat));
        lemma_failures_keep_pending(v, (n - 1) as nat);
    } else {
        assert(failures(n) =~= Seq::<bool>::empty());
    }
}

/// A write that fails `n` times and then succeeds leaves the pending payload
/// written exactly once, unchanged, after what was written before; every
/// failed attempt leaves that same payload pending for the next one.
pub proof fn lemma_retry_writes_once(v: SenderView, n: nat)
    requires
        v.pending is Some,
    ensures
        forall|k: nat| k <= n ==> #[trigger] after_writes(v, failures(k)) == v,
        after_writes(v, failures(n).push(true)) == (SenderView {
            pending: None,
            written: v.written.push(v.pending->0),
        }),
    decreases n,
{
    assert forall|k: nat| k <= n implies #[trigger] after_writes(v, failures(k)) == v by {
        lemma_failures_keep_pending(v, k);
    }
    if n == 0 {
        let s = failures(0).push(true);
        assert(s =~= seq![true]);
        assert(s.drop_first() =~= Seq::<bool>::empty());
        assert(s[0]);
        let w = after_write(v, true);
        assert(after_writes(w, s.drop_first()) == w);
    } else {
        lemma_retry_writes_once(v, (n - 1) as nat);
        let s = failures(n).push(true);
        assert(s.drop_first() =~= failures((n - 1) as nat).push(true));
        assert(!s[0]);
        assert(after_write(v, false) == v);
    }
}

} // verus!
