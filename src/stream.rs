use vstd::prelude::*;
use crate::error::ValkeyError;
use crate::valkey_string::ValkeyString;

verus! {

/// The id of a stream entry: milliseconds, then a sequence number.
#[derive(Debug, Clone, Copy, PartialEq, Eq, Structural)]
pub struct StreamId {
    pub ms: u64,
    pub seq: u64,
}

/// One entry of a stream.
pub struct StreamRecord {
    pub id: StreamId,
    pub fields: Vec<(ValkeyString, ValkeyString)>,
}

pub open spec fn id_lt(a: StreamId, b: StreamId) -> bool {
    a.ms < b.ms || (a.ms == b.ms && a.seq < b.seq)
}

fn id_less(a: StreamId, b: StreamId) -> (r: bool)
    ensures
        r == id_lt(a, b),
{
    a.ms < b.ms || (a.ms == b.ms && a.seq < b.seq)
}

pub open spec fn in_range(id: StreamId, lo: StreamId, hi: StreamId) -> bool {
    !id_lt(id, lo) && !id_lt(hi, id)
}

/// The indices of the entries among the first `n` whose id lies in `[lo, hi]`.
pub open spec fn indices_in_range(entries: Seq<StreamRecord>, lo: StreamId, hi: StreamId, n: int) -> Seq<usize>
    decreases n,
{
    if n <= 0 {
        Seq::empty()
    } else {
        indices_in_range(entries, lo, hi, n - 1) + if in_range(entries[n - 1].id, lo, hi) {
            seq![(n - 1) as usize]
        } else {
            Seq::<usize>::empty()
        }
    }
}

pub open spec fn min_id() -> StreamId {
    StreamId { ms: 0, seq: 0 }
}

pub open spec fn max_id() -> StreamId {
    StreamId { ms: u64::MAX, seq: u64::MAX }
}

/// The id right after `id`.
pub open spec fn next_id(id: StreamId) -> StreamId {
    if id.seq == u64::MAX {
        StreamId { ms: (id.ms + 1) as u64, seq: 0 }
    } else {
        StreamId { ms: id.ms, seq: (id.seq + 1) as u64 }
    }
}

/// The id right before `id`.
pub open spec fn prev_id(id: StreamId) -> StreamId {
    if id.seq == 0 {
        StreamId { ms: (id.ms - 1) as u64, seq: u64::MAX }
    } else {
        StreamId { ms: id.ms, seq: (id.seq - 1) as u64 }
    }
}

/// The lowest and highest ids an iteration covers, or `None` when an
/// exclusive bound cannot be moved (past the largest or below the smallest id).
pub open spec fn iteration_bounds(from: Option<StreamId>, to: Option<StreamId>, exclusive: bool) -> Option<(StreamId, StreamId)> {
    let lo = match from {
        Some(f) => f,
        None => min_id(),
    };
    let hi = match to {
        Some(t) => t,
        None => max_id(),
    };
    if !exclusive {
        Some((lo, hi))
    } else if lo == max_id() || hi == min_id() {
        None
    } else {
        Some((next_id(lo), prev_id(hi)))
    }
}

/// Walks the entries of a stream whose ids lie in a range, in increasing
/// order of id or, for a reverse walk, in decreasing order.
pub struct StreamIterator<'key> {
    entries: &'key Vec<StreamRecord>,
    order: Vec<usize>,
    pos: usize,
}

impl<'key> StreamIterator<'key> {
    pub closed spec fn entries(&self) -> Seq<StreamRecord> {
        self.entries@
    }

    /// The indices of the entries still to come, in order.
    pub closed spec fn remaining(&self) -> Seq<usize> {
        self.order@.skip(self.pos as int)
    }

    pub closed spec fn wf(&self) -> bool {
        &&& self.pos <= self.order@.len()
        &&& forall|i: int| 0 <= i < self.order@.len() ==> self.order@[i] < self.entries@.len()
    }

    /// An iterator over the entries with ids between `from` and `to`
    /// (inclusive, or exclusive when asked; unbounded on a side that is not
    /// given). An error when an exclusive bound cannot be moved.
    pub fn new(
        entries: &'key Vec<StreamRecord>,
        from: Option<StreamId>,
        to: Option<StreamId>,
        exclusive: bool,
        reverse: bool,
    ) -> (r: Result<StreamIterator<'key>, ValkeyError>)
        ensures
            match iteration_bounds(from, to, exclusive) {
                None => r.is_err(),
                Some((lo, hi)) => r matches Ok(it) && it.wf() && it.entries() == entries@
                    && it.remaining() == if reverse {
                    indices_in_range(entries@, lo, hi, entries@.len() as int).reverse()
                } else {
                    indices_in_range(entries@, lo, hi, entries@.len() as int)
                },
            },
    {
        let mut lo = match from {
            Some(f) => f,
            None => StreamId { ms: 0, seq: 0 },
        };
        let mut hi = match to {
            Some(t) => t,
            None => StreamId { ms: u64::MAX, seq: u64::MAX },
        };
        if exclusive {
            if (lo.ms == u64::MAX && lo.seq == u64::MAX) || (hi.ms == 0 && hi.seq == 0) {
                return Err(ValkeyError::Str("Failed creating stream iterator"));
            }
            lo = if lo.seq == u64::MAX {
                StreamId { ms: lo.ms + 1, seq: 0 }
            } else {
                StreamId { ms: lo.ms, seq: lo.seq + 1 }
            };
            hi = if hi.seq == 0 {
                StreamId { ms: hi.ms - 1, seq: u64::MAX }
            } else {
                StreamId { ms: hi.ms, seq: hi.seq - 1 }
            };
        }
        let mut selected: Vec<usize> = Vec::new();
        let mut i: usize = 0;
        while i < entries.len()
            invariant
                0 <= i <= entries@.len(),
                selected@ == indices_in_range(entries@, lo, hi, i as int),
                forall|j: int| 0 <= j < selected@.len() ==> selected@[j] < i,
            decreases entries@.len() - i,
        {
            let id = entries[i].id;
            if !id_less(id, lo) && !id_less(hi, id) {
                selected.push(i);
            }
            i = i + 1;
        }
        let order = if reverse {
            let mut rev: Vec<usize> = Vec::new();
            let n = selected.len();
            let mut k: usize = 0;
            while k < n
                invariant
                    0 <= k <= n,
                    n == selected@.len(),
                    rev@ =~= selected@.reverse().take(k as int),
                decreases n - k,
            {
                rev.push(selected[n - 1 - k]);
                k = k + 1;
            }
            assert(selected@.reverse().take(n as int) =~= selected@.reverse());
            rev
        } else {
            selected
        };
        let it = StreamIterator { entries, order, pos: 0 };
        assert(it.order@.skip(0) =~= it.order@);
        Ok(it)
    }

    /// The next entry of the walk, or `None` when it is over.
    pub fn next(&mut self) -> (r: Option<&'key StreamRecord>)
        requires
            old(self).wf(),
        ensures
            final(self).wf(),
            final(self).entries() == old(self).entries(),
            old(self).remaining().len() == 0 ==> r is None && final(self).remaining() == old(self).remaining(),
            old(self).remaining().len() > 0 ==> r == Some(&old(self).entries()[old(self).remaining()[0] as int])
                && final(self).remaining() == old(self).remaining().drop_first(),
    {
        if self.pos < self.order.len() {
            let idx = self.order[self.pos];
            self.pos = self.pos + 1;
            assert(self.order@.skip(self.pos as int) =~= old(self).order@.skip(old(self).pos as int).drop_first());
            Some(&self.entries[idx])
        } else {
            None
        }
    }
}

} // verus!
