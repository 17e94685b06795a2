use crate::time::UtcInstant;
use vstd::prelude::*;

verus! {

/// Messages younger than this, in seconds (two weeks), can be deleted in bulk.
pub const BULK_DELETE_MAX_AGE_SECS: i64 = 1209600;

/// The most messages one bulk deletion takes.
pub const BULK_DELETE_CHUNK: usize = 100;

pub const NANOS_PER_SEC: i64 = 1_000_000_000;

/// Nanoseconds from `earlier` to `later`.
pub open spec fn nanos_between(later: UtcInstant, earlier: UtcInstant) -> int {
    (later.secs - earlier.secs) * NANOS_PER_SEC + (later.nanos - earlier.nanos)
}

/// Whether a message sent at `sent` is, at `now`, young enough to be deleted
/// in bulk.
pub fn bulk_deletable(now: UtcInstant, sent: UtcInstant) -> (r: bool)
    requires
        now.wf(),
        sent.wf(),
    ensures
        r == (nanos_between(now, sent) < BULK_DELETE_MAX_AGE_SECS * NANOS_PER_SEC),
{
    let d: i64 = now.secs - sent.secs;
    let r = d < BULK_DELETE_MAX_AGE_SECS || (d == BULK_DELETE_MAX_AGE_SECS && now.nanos < sent.nanos);
    proof {
        let w = BULK_DELETE_MAX_AGE_SECS as int;
        let dn = now.nanos - sent.nanos;
        assert(-NANOS_PER_SEC < dn < NANOS_PER_SEC);
        if d < w {
            assert(d * NANOS_PER_SEC + dn < w * NANOS_PER_SEC) by (nonlinear_arith)
                requires d < w, dn < NANOS_PER_SEC, NANOS_PER_SEC == 1_000_000_000;
        } else if d > w {
            assert(d * NANOS_PER_SEC + dn >= w * NANOS_PER_SEC) by (nonlinear_arith)
                requires d > w, dn > -NANOS_PER_SEC, NANOS_PER_SEC == 1_000_000_000;
        }
    }
    r
}

/// What to do with one message of the channel.
#[derive(Clone, Copy, Debug, PartialEq, Eq, Structural)]
pub enum CleanupAction {
    /// A pinned message stays.
    Keep,
    /// Young enough: queued for a bulk deletion.
    QueueBulk,
    /// Too old to bulk delete: deleted on its own, now.
    DeleteNow,
}

/// A cleanup of the most recent messages of a channel, walked newest first.
#[derive(Clone, Debug)]
pub struct Cleanup {
    /// How many messages were deleted or queued so far.
    pub deleted: u32,
    /// How many messages to remove.
    pub limit: u32,
    /// The messages queued for bulk deletion, in the order met.
    pub bulk: Vec<u64>,
}

impl Cleanup {
    /// A cleanup that has removed nothing yet.
    pub fn new(limit: u32) -> (r: Cleanup)
        ensures
            r.deleted == 0,
            r.limit == limit,
            r.bulk@.len() == 0,
    {
        Cleanup { deleted: 0, limit, bulk: Vec::new() }
    }

    /// Whether enough messages were removed.
    pub fn is_done(&self) -> (r: bool)
        ensures
            r == (self.deleted >= self.limit),
    {
        self.deleted >= self.limit
    }

    /// Takes the next message: pinned ones stay, young ones are queued for a
    /// bulk deletion, older ones are deleted at once; each one not pinned
    /// counts towards the limit.
    pub fn step(&mut self, now: UtcInstant, message_id: u64, sent: UtcInstant, pinned: bool) -> (r:
        CleanupAction)
        requires
            old(self).deleted < old(self).limit,
            now.wf(),
            sent.wf(),
        ensures
            final(self).limit == old(self).limit,
            pinned ==> r == CleanupAction::Keep && *final(self) == *old(self),
            !pinned ==> final(self).deleted == old(self).deleted + 1,
            !pinned && nanos_between(now, sent) < BULK_DELETE_MAX_AGE_SECS * NANOS_PER_SEC ==> r
                == CleanupAction::QueueBulk && final(self).bulk@ == old(self).bulk@.push(message_id),
            !pinned && nanos_between(now, sent) >= BULK_DELETE_MAX_AGE_SECS * NANOS_PER_SEC ==> r
                == CleanupAction::DeleteNow && final(self).bulk@ == old(self).bulk@,
    {
        if pinned {
            return CleanupAction::Keep;
        }
        self.deleted = self.deleted + 1;
        if bulk_deletable(now, sent) {
            self.bulk.push(message_id);
            CleanupAction::QueueBulk
        } else {
            CleanupAction::DeleteNow
        }
    }
}

/// Chunk `i` of `s` when cut into runs of `BULK_DELETE_CHUNK`.
pub open spec fn chunk_spec(s: Seq<u64>, i: int) -> Seq<u64> {
    let start = i * BULK_DELETE_CHUNK;
    let end = if start + BULK_DELETE_CHUNK <= s.len() {
        start + BULK_DELETE_CHUNK
    } else {
        s.len() as int
    };
    s.subrange(start, end)
}

/// Cuts `ids` into consecutive runs of at most `BULK_DELETE_CHUNK`, the
/// largest batch one bulk deletion takes; all runs but the last are full.
pub fn bulk_chunks(ids: &Vec<u64>) -> (r: Vec<Vec<u64>>)
    ensures
        r@.len() == (ids@.len() + BULK_DELETE_CHUNK - 1) / (BULK_DELETE_CHUNK as int),
        forall|i: int| 0 <= i < r@.len() ==> #[trigger] r@[i]@ == chunk_spec(ids@, i),
{
    let mut out: Vec<Vec<u64>> = Vec::new();
    let mut start: usize = 0;
    let mut current: Vec<u64> = Vec::new();
    let mut i: usize = 0;
    while i < ids.len()
        invariant
            i <= ids@.len(),
            start == out@.len() * BULK_DELETE_CHUNK,
            start <= i,
            i - start < BULK_DELETE_CHUNK,
            current@ == ids@.subrange(start as int, i as int),
            forall|k: int| 0 <= k < out@.len() ==> #[trigger] out@[k]@ == chunk_spec(ids@, k),
        decreases ids@.len() - i,
    {
        current.push(ids[i]);
        i += 1;
        assert(current@ == ids@.subrange(start as int, i as int));
        if i - start == BULK_DELETE_CHUNK {
            let k = out.len();
            assert(chunk_spec(ids@, k as int) == current@);
            out.push(current);
            current = Vec::new();
            start = i;
        }
    }
    if i > start {
        assert(chunk_spec(ids@, out@.len() as int) == current@);
        out.push(current);
    }
    proof {
        let n = ids@.len() as int;
        let c = out@.len() as int;
        assert(c == (n + BULK_DELETE_CHUNK - 1) / (BULK_DELETE_CHUNK as int)) by (nonlinear_arith)
            requires
                (start == n && start == c * 100) || (start < n && n - start < 100 && start == (c - 1) * 100),
                BULK_DELETE_CHUNK == 100;
    }
    out
}

} // verus!
