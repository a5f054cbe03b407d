//! The bounded recording of emitted telemetry.
//!
//! Records append in emission order and are looked up by that order for
//! retransmission.  Once the buffer is full, further records are
//! dropped, never wrapped, until an explicit clear.

use vstd::prelude::*;

use crate::telemetry::Telemetry;

verus! {

/// How many records a recording holds at most.
pub const RECORDING_CAPACITY: usize = 900;

/// An append-only, capacity-bounded store of telemetry records,
/// indexed 0-based by emission order.
pub struct RecordingBuffer {
    records: Vec<Telemetry>,
}

impl View for RecordingBuffer {
    type V = Seq<Telemetry>;

    closed spec fn view(&self) -> Seq<Telemetry> {
        self.records@
    }
}

/// What one bounded push leaves behind: the record appended while the
/// buffer is short of capacity, everything unchanged once it is full.
pub open spec fn spec_try_push(s: Seq<Telemetry>, t: Telemetry) -> Seq<Telemetry> {
    if s.len() < RECORDING_CAPACITY {
        s.push(t)
    } else {
        s
    }
}

/// What a run of bounded pushes leaves behind, first record first.
pub open spec fn spec_push_all(s: Seq<Telemetry>, rs: Seq<Telemetry>) -> Seq<Telemetry>
    decreases rs.len(),
{
    if rs.len() == 0 {
        s
    } else {
        spec_push_all(spec_try_push(s, rs[0]), rs.skip(1))
    }
}

impl RecordingBuffer {
    /// An empty recording.
    pub fn new() -> (r: Self)
        ensures
            r@ == Seq::<Telemetry>::empty(),
    {
        RecordingBuffer { records: Vec::new() }
    }

    /// How many records are stored.
    pub fn len(&self) -> (r: usize)
        ensures
            r == self@.len(),
    {
        self.records.len()
    }

    /// Appends `record` if the capacity allows it and says whether the
    /// append happened; a full recording is left as it is.
    pub fn try_push(&mut self, record: Telemetry) -> (pushed: bool)
        ensures
            final(self)@ == spec_try_push(old(self)@, record),
            pushed == (old(self)@.len() < RECORDING_CAPACITY),
    {
        if self.records.len() < RECORDING_CAPACITY {
            self.records.push(record);
            true
        } else {
            false
        }
    }

    /// The record at `index`, `None` where the index was never filled.
    pub fn get(&self, index: usize) -> (r: Option<Telemetry>)
        ensures
            r == if index < self@.len() {
                Some(self@[index as int])
            } else {
                None::<Telemetry>
            },
    {
        if index < self.records.len() {
            Some(self.records[index])
        } else {
            None
        }
    }

    /// Empties the recording, so the next session indexes from zero.
    pub fn clear(&mut self)
        ensures
            final(self)@ == Seq::<Telemetry>::empty(),
    {
        self.records.clear();
    }
}

/// A run of bounded pushes fills the buffer up to capacity and drops
/// the rest: what remains is the old contents followed by the first
/// records that still fit, and never more than the capacity.
pub proof fn lemma_push_all_fills(s: Seq<Telemetry>, rs: Seq<Telemetry>)
    requires
        s.len() <= RECORDING_CAPACITY,
    ensures
        spec_push_all(s, rs) =~= s + rs.take(vstd::math::min(
            RECORDING_CAPACITY - s.len(),
            rs.len() as int,
        )),
    decreases rs.len(),
{
    if rs.len() == 0 {
        assert(spec_push_all(s, rs) =~= s + rs.take(0));
    } else {
        let s1 = spec_try_push(s, rs[0]);
        lemma_push_all_fills(s1, rs.skip(1));
        if s.len() < RECORDING_CAPACITY {
            assert(s1 =~= s + rs.take(1));
            assert(s1 + rs.skip(1).take(vstd::math::min(
                RECORDING_CAPACITY - s1.len(),
                rs.skip(1).len() as int,
            )) =~= s + rs.take(vstd::math::min(RECORDING_CAPACITY - s.len(), rs.len() as int)));
        } else {
            assert(s1 + rs.skip(1).take(vstd::math::min(
                RECORDING_CAPACITY - s1.len(),
                rs.skip(1).len() as int,
            )) =~= s + rs.take(vstd::math::min(RECORDING_CAPACITY - s.len(), rs.len() as int)));
        }
    }
}

/// Pushing at least `capacity` records into an empty recording leaves
/// exactly the first `capacity` of them: later pushes are dropped, not
/// wrapped, and every index at or past the capacity stays unfilled.
pub proof fn lemma_push_overflow_drops(rs: Seq<Telemetry>)
    requires
        rs.len() >= RECORDING_CAPACITY,
    ensures
        spec_push_all(Seq::<Telemetry>::empty(), rs) =~= rs.take(RECORDING_CAPACITY as int),
        spec_push_all(Seq::<Telemetry>::empty(), rs).len() == RECORDING_CAPACITY,
{
    lemma_push_all_fills(Seq::<Telemetry>::empty(), rs);
}

} // verus!
