//! Cursor event log.
//!
//! During a recording, a poll loop snapshots the cursor position and
//! an event hook reports clicks and scrolls. Both append to one log;
//! when recording stops the log is sorted by time, since the two
//! producers interleave in real time but storage order is not
//! guaranteed.
//!
//! Times are milliseconds since the session started; positions are
//! logical points in thousandths, top-left origin.

use vstd::prelude::*;
use vstd::multiset::Multiset;
use vstd::seq_lib::group_to_multiset_ensures;

verus! {

/// What kind of cursor event was observed.
#[derive(Clone, Copy, Debug, PartialEq, Eq, Structural)]
pub enum CursorEventKind {
    /// Periodic position snapshot from the poll loop.
    Move,
    /// Left mouse button pressed.
    LeftDown,
    /// Left mouse button released.
    LeftUp,
    /// Right mouse button pressed.
    RightDown,
    /// Scroll wheel.
    Scroll,
}

/// One cursor event.
#[derive(Clone, Copy, Debug, PartialEq, Eq, Structural)]
pub struct CursorEvent {
    /// Milliseconds since the session started.
    pub time_ms: u64,
    /// X position in milli-points.
    pub x_mp: i64,
    /// Y position in milli-points.
    pub y_mp: i64,
    pub kind: CursorEventKind,
}

/// Map an OS mouse event type to the event kind it is logged as.
/// Only button and scroll events are taken from the hook; movement
/// comes from the poll loop instead, so other types yield `None`.
pub fn kind_of_event_type(event_type: u32) -> (r: Option<CursorEventKind>)
    ensures
        event_type == 1 ==> r == Some(CursorEventKind::LeftDown),
        event_type == 2 ==> r == Some(CursorEventKind::LeftUp),
        event_type == 3 ==> r == Some(CursorEventKind::RightDown),
        event_type == 22 ==> r == Some(CursorEventKind::Scroll),
        event_type != 1 && event_type != 2 && event_type != 3 && event_type != 22 ==> r is None,
{
    match event_type {
        1 => Some(CursorEventKind::LeftDown),
        2 => Some(CursorEventKind::LeftUp),
        3 => Some(CursorEventKind::RightDown),
        22 => Some(CursorEventKind::Scroll),
        _ => None,
    }
}

/// The bit mask over a sequence of event types: one bit per type.
pub open spec fn spec_event_mask(types: Seq<u32>) -> u64
    decreases types.len(),
{
    if types.len() == 0 {
        0u64
    } else {
        spec_event_mask(types.drop_last()) | (1u64 << types.last())
    }
}

/// Build the event mask the OS hook is registered with, one bit per
/// event type.
pub fn event_mask(types: &[u32]) -> (r: u64)
    requires
        forall|i: int| 0 <= i < types@.len() ==> #[trigger] types@[i] < 64,
    ensures
        r == spec_event_mask(types@),
{
    let mut mask: u64 = 0;
    let mut i: usize = 0;
    while i < types.len()
        invariant
            0 <= i <= types@.len(),
            forall|k: int| 0 <= k < types@.len() ==> #[trigger] types@[k] < 64,
            mask == spec_event_mask(types@.take(i as int)),
        decreases types@.len() - i,
    {
        let t = types[i];
        mask = mask | (1u64 << t);
        proof {
            assert(types@.take(i + 1).drop_last() =~= types@.take(i as int));
            assert(types@.take(i + 1).last() == types@[i as int]);
        }
        i = i + 1;
    }
    proof {
        assert(types@.take(types@.len() as int) =~= types@);
    }
    mask
}

/// The events are ordered by time.
pub open spec fn sorted_by_time(s: Seq<CursorEvent>) -> bool {
    forall|i: int, j: int| 0 <= i <= j < s.len() ==> #[trigger] s[i].time_ms <= #[trigger] s[j].time_ms
}

/// How many events in the sequence have the given kind.
pub open spec fn spec_count_kind(s: Seq<CursorEvent>, kind: CursorEventKind) -> int
    decreases s.len(),
{
    if s.len() == 0 {
        0
    } else {
        spec_count_kind(s.drop_last(), kind) + (if s.last().kind == kind {
            1int
        } else {
            0int
        })
    }
}

/// The shared event log both cursor threads append to.
pub struct CursorLog {
    events: Vec<CursorEvent>,
}

impl CursorLog {
    pub closed spec fn spec_events(self) -> Seq<CursorEvent> {
        self.events@
    }

    /// An empty log, created when the session starts.
    pub fn new() -> (r: CursorLog)
        ensures
            r.spec_events().len() == 0,
    {
        CursorLog { events: Vec::new() }
    }

    /// Append one observed event.
    pub fn record(&mut self, e: CursorEvent)
        requires
            old(self).spec_events().len() < usize::MAX,
        ensures
            final(self).spec_events() == old(self).spec_events().push(e),
    {
        self.events.push(e);
    }

    pub fn len(&self) -> (r: usize)
        ensures
            r == self.spec_events().len(),
    {
        self.events.len()
    }

    /// How many logged events have the given kind.
    pub fn count_kind(&self, kind: CursorEventKind) -> (r: usize)
        ensures
            r == spec_count_kind(self.spec_events(), kind),
    {
        let mut count: usize = 0;
        let mut i: usize = 0;
        proof {
            lemma_count_kind_le_len(self.events@, kind);
        }
        while i < self.events.len()
            invariant
                0 <= i <= self.events@.len(),
                count == spec_count_kind(self.events@.take(i as int), kind),
                count <= i,
            decreases self.events@.len() - i,
        {
            proof {
                assert(self.events@.take(i + 1).drop_last() =~= self.events@.take(i as int));
                assert(self.events@.take(i + 1).last() == self.events@[i as int]);
                lemma_count_kind_le_len(self.events@.take(i + 1), kind);
            }
            if self.events[i].kind == kind {
                count = count + 1;
            }
            i = i + 1;
        }
        proof {
            assert(self.events@.take(self.events@.len() as int) =~= self.events@);
        }
        count
    }

    /// Drain the log into a sequence sorted by time. The result
    /// holds exactly the logged events, reordered.
    pub fn take_sorted(&mut self) -> (r: Vec<CursorEvent>)
        ensures
            final(self).spec_events().len() == 0,
            sorted_by_time(r@),
            r@.to_multiset() == old(self).spec_events().to_multiset(),
    {
        let mut rest: Vec<CursorEvent> = Vec::new();
        core::mem::swap(&mut rest, &mut self.events);
        let ghost orig: Seq<CursorEvent> = rest@;
        let mut out: Vec<CursorEvent> = Vec::new();
        proof {
            broadcast use group_to_multiset_ensures;

            assert(out@.to_multiset().add(rest@.to_multiset()) =~= orig.to_multiset());
        }
        while rest.len() > 0
            invariant
                sorted_by_time(out@),
                out@.to_multiset().add(rest@.to_multiset()) == orig.to_multiset(),
                forall|i: int, j: int|
                    0 <= i < out@.len() && 0 <= j < rest@.len() ==> #[trigger] out@[i].time_ms
                        <= #[trigger] rest@[j].time_ms,
            decreases rest.len(),
        {
            let m = index_of_earliest(&rest);
            let e = rest.remove(m);
            proof {
                broadcast use group_to_multiset_ensures;

                assert(out@.push(e).to_multiset().add(rest@.to_multiset()) =~= orig.to_multiset());
            }
            out.push(e);
        }
        proof {
            broadcast use group_to_multiset_ensures;

            assert(rest@.to_multiset() =~= Multiset::<CursorEvent>::empty());
            assert(out@.to_multiset() =~= orig.to_multiset());
        }
        out
    }
}

/// Index of an event with the smallest time stamp.
fn index_of_earliest(v: &Vec<CursorEvent>) -> (r: usize)
    requires
        v@.len() > 0,
    ensures
        0 <= r < v@.len(),
        forall|i: int| 0 <= i < v@.len() ==> v@[r as int].time_ms <= #[trigger] v@[i].time_ms,
{
    let mut best: usize = 0;
    let mut i: usize = 1;
    while i < v.len()
        invariant
            0 <= best < v@.len(),
            1 <= i <= v@.len(),
            forall|k: int| 0 <= k < i ==> v@[best as int].time_ms <= #[trigger] v@[k].time_ms,
        decreases v@.len() - i,
    {
        if v[i].time_ms < v[best].time_ms {
            best = i;
        }
        i = i + 1;
    }
    best
}

/// The count of any kind never exceeds the length.
proof fn lemma_count_kind_le_len(s: Seq<CursorEvent>, kind: CursorEventKind)
    ensures
        0 <= spec_count_kind(s, kind) <= s.len(),
    decreases s.len(),
{
    if s.len() > 0 {
        lemma_count_kind_le_len(s.drop_last(), kind);
    }
}

} // verus!
