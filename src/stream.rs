//! The telemetry stream store: an append-only log with bounded windows.
use vstd::prelude::*;
use crate::telemetry::StreamAction;

verus! {

/// A position in billionths of a degree.
#[derive(PartialEq, Eq, Structural, Clone, Copy, Debug)]
pub struct Coordinates {
    pub latitude: i64,
    pub longitude: i64,
}

/// One stream entry as read back from the backing store, with its id there.
#[derive(Clone, Debug)]
pub struct StreamObj {
    pub id: String,
    pub coordinates: Coordinates,
}

/// One entry of the in-memory stream.
#[derive(PartialEq, Eq, Structural, Clone, Copy, Debug)]
pub struct StreamEntry {
    pub id: u64,
    pub coordinates: Coordinates,
}

/// `s` back to front.
pub open spec fn reversed<T>(s: Seq<T>) -> Seq<T> {
    Seq::new(s.len(), |i: int| s[s.len() - 1 - i])
}

pub open spec fn min_int(a: int, b: int) -> int {
    if a <= b {
        a
    } else {
        b
    }
}

/// The `max_count` newest entries of a log, oldest first.
pub open spec fn newest<T>(log: Seq<T>, max_count: int) -> Seq<T> {
    log.subrange(log.len() - min_int(max_count, log.len() as int), log.len() as int)
}

pub open spec fn strictly_increasing(s: Seq<StreamEntry>) -> bool {
    forall|i: int, j: int| 0 <= i < j < s.len() ==> (#[trigger] s[i]).id < (#[trigger] s[j]).id
}

/// Turns a batch read newest first into a window of at most `max_count`
/// entries, oldest first.
pub fn get_stream<T>(newest_first: Vec<T>, max_count: usize) -> (r: Vec<T>)
    ensures
        r@ == reversed(newest_first@.subrange(0, min_int(max_count as int, newest_first@.len() as int))),
        r@.len() <= max_count,
{
    let ghost kept = newest_first@.subrange(
        0,
        min_int(max_count as int, newest_first@.len() as int),
    );
    let mut batch = newest_first;
    batch.truncate(max_count);
    assert(batch@ == kept);
    let mut out: Vec<T> = Vec::new();
    while batch.len() > 0
        invariant
            batch@.len() + out@.len() == kept.len(),
            batch@ == kept.subrange(0, batch@.len() as int),
            out@ == reversed(kept).subrange(0, out@.len() as int),
        decreases batch@.len(),
    {
        let ghost before = out@;
        let x = batch.pop().unwrap();
        out.push(x);
        assert(out@ =~= reversed(kept).subrange(0, out@.len() as int));
    }
    assert(out@ =~= reversed(kept));
    out
}

/// An append-only stream held in memory. Ids are assigned in increasing order
/// and never reused, also across a reset.
pub struct StreamStore {
    entries: Vec<StreamEntry>,
    next_id: u64,
}

impl StreamStore {
    /// The entries, oldest first.
    pub closed spec fn log(&self) -> Seq<StreamEntry> {
        self.entries@
    }

    /// The id the next append will take.
    pub closed spec fn next_id(&self) -> u64 {
        self.next_id
    }

    pub open spec fn wf(&self) -> bool {
        &&& strictly_increasing(self.log())
        &&& forall|i: int| 0 <= i < self.log().len() ==> (#[trigger] self.log()[i]).id < self.next_id()
    }

    /// An empty stream whose first id is 1.
    pub fn new() -> (r: StreamStore)
        ensures
            r.wf(),
            r.log().len() == 0,
            r.next_id() == 1,
    {
        StreamStore { entries: Vec::new(), next_id: 1 }
    }

    /// Appends a position; the new id is greater than every id assigned before.
    pub fn append(&mut self, coordinates: Coordinates) -> (r: u64)
        requires
            old(self).wf(),
            old(self).next_id() < u64::MAX,
        ensures
            final(self).wf(),
            r == old(self).next_id(),
            final(self).next_id() == r + 1,
            final(self).log() == old(self).log().push(StreamEntry { id: r, coordinates }),
    {
        let id = self.next_id;
        self.entries.push(StreamEntry { id, coordinates });
        self.next_id = id + 1;
        id
    }

    /// At most `max_count` of the newest entries, oldest first, ids strictly
    /// increasing.
    pub fn window(&self, max_count: usize) -> (r: Vec<StreamEntry>)
        requires
            self.wf(),
        ensures
            r@ == newest(self.log(), max_count as int),
            r@.len() <= max_count,
            strictly_increasing(r@),
    {
        let n = self.entries.len();
        let take = if max_count < n {
            max_count
        } else {
            n
        };
        let mut out: Vec<StreamEntry> = Vec::new();
        let mut i: usize = n - take;
        while i < n
            invariant
                n == self.entries@.len(),
                take <= n,
                n - take <= i <= n,
                out@ == self.entries@.subrange(n - take, i as int),
            decreases n - i,
        {
            out.push(self.entries[i]);
            i = i + 1;
            assert(out@ =~= self.entries@.subrange(n - take, i as int));
        }
        out
    }

    /// Carries out what a generator tick asks of the stream: the id of an
    /// appended entry, or `None` after a reset.
    pub fn perform(&mut self, action: StreamAction) -> (r: Option<u64>)
        requires
            old(self).wf(),
            old(self).next_id() < u64::MAX,
        ensures
            final(self).wf(),
            action == StreamAction::Reset ==> r is None && final(self).log().len() == 0
                && final(self).next_id() == old(self).next_id(),
            action matches StreamAction::Append(c) ==> r == Some(old(self).next_id())
                && final(self).next_id() == old(self).next_id() + 1
                && final(self).log() == old(self).log().push(
                StreamEntry { id: old(self).next_id(), coordinates: c },
            ),
    {
        match action {
            StreamAction::Reset => {
                self.reset();
                None
            },
            StreamAction::Append(c) => Some(self.append(c)),
        }
    }

    /// Deletes every entry; ids go on from where they were.
    pub fn reset(&mut self)
        requires
            old(self).wf(),
        ensures
            final(self).wf(),
            final(self).log().len() == 0,
            final(self).next_id() == old(self).next_id(),
    {
        self.entries = Vec::new();
    }
}

/// Two appends come out of any window that holds both in the order they were
/// made, with increasing ids.
pub proof fn lemma_window_keeps_append_order(s: StreamStore, max_count: int, i: int, j: int)
    requires
        s.wf(),
        0 <= max_count,
        0 <= i < j < newest(s.log(), max_count).len(),
    ensures
        newest(s.log(), max_count)[i].id < newest(s.log(), max_count)[j].id,
{
    let w = newest(s.log(), max_count);
    let off = s.log().len() - min_int(max_count, s.log().len() as int);
    assert(w[i] == s.log()[off + i]);
    assert(w[j] == s.log()[off + j]);
}

} // verus!
