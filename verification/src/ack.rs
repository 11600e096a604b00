//! The acknowledgement / gap-detection algorithm of the reliability layer.
//!
//! Whenever the peer requests an acknowledgement, the received frame ids
//! are sorted and walked upward from the current watermark.  An id equal
//! to the expected next value advances it; an id below is already
//! accounted for; an id above reveals a gap, and the minimal missing
//! contiguous range is requested for retransmission instead of acking.

use vstd::prelude::*;
use vstd::seq_lib::group_to_multiset_ensures;

use crate::frame::Frame;
use crate::framestack::FrameStack;

verus! {

/// What the acknowledgement procedure decides to send back.
#[derive(PartialEq, Eq, Structural, Debug, Clone, Copy)]
pub enum AckOutcome {
    /// All received ids from the watermark upward are contiguous:
    /// acknowledge `frame_id`, the next id expected from the peer.
    Acknowledge { frame_id: u32 },
    /// Ids `frame_id_start .. frame_id_end` were never received: request
    /// their retransmission and leave the watermark alone.
    Retransmit { frame_id_start: u32, frame_id_end: u32 },
}

/// Non-decreasing order.
pub open spec fn spec_sorted(s: Seq<u32>) -> bool {
    forall|i: int, j: int| 0 <= i <= j < s.len() ==> s[i] <= s[j]
}

/// The walk at the heart of the algorithm, over ids sorted ascending:
/// skip ids below the expected value, advance past ids equal to it, stop
/// at the first id above it.  The expected value saturates at the largest
/// id the wire format can carry.
pub open spec fn spec_ack_walk(ids: Seq<u32>, expected: u32) -> AckOutcome
    decreases ids.len(),
{
    if ids.len() == 0 {
        AckOutcome::Acknowledge { frame_id: expected }
    } else if ids[0] < expected {
        spec_ack_walk(ids.drop_first(), expected)
    } else if ids[0] == expected {
        if expected < 0xffff_ffffu32 {
            spec_ack_walk(ids.drop_first(), (expected + 1) as u32)
        } else {
            spec_ack_walk(ids.drop_first(), expected)
        }
    } else {
        AckOutcome::Retransmit { frame_id_start: expected, frame_id_end: ids[0] }
    }
}

/// The ids of the received frames, in arrival order.
pub open spec fn spec_rx_ids(stack: &FrameStack) -> Seq<u32> {
    stack.rx_frame_queue@.map_values(|p: (u32, Frame)| p.0)
}

/// The watermark never decreases: whatever the walk acknowledges lies at
/// or above the expected value it started from.
pub proof fn lemma_ack_walk_never_decreases(ids: Seq<u32>, expected: u32)
    ensures
        spec_ack_walk(ids, expected) matches AckOutcome::Acknowledge { frame_id } ==> frame_id
            >= expected,
        spec_ack_walk(ids, expected) matches AckOutcome::Retransmit { frame_id_start, .. }
            ==> frame_id_start >= expected,
    decreases ids.len(),
{
    if ids.len() > 0 {
        if ids[0] < expected {
            lemma_ack_walk_never_decreases(ids.drop_first(), expected);
        } else if ids[0] == expected {
            if expected < 0xffff_ffffu32 {
                lemma_ack_walk_never_decreases(ids.drop_first(), (expected + 1) as u32);
            } else {
                lemma_ack_walk_never_decreases(ids.drop_first(), expected);
            }
        }
    }
}

/// On sorted ids, a retransmission request names the minimal missing
/// contiguous range: every id from the starting expected value up to the
/// range's start was received, the start itself was not, the end was, and
/// nothing between them was.
pub proof fn lemma_ack_walk_gap_minimal(ids: Seq<u32>, expected: u32)
    requires
        spec_sorted(ids),
    ensures
        spec_ack_walk(ids, expected) matches AckOutcome::Retransmit {
            frame_id_start,
            frame_id_end,
        } ==> {
            &&& expected <= frame_id_start < frame_id_end
            &&& !ids.contains(frame_id_start)
            &&& ids.contains(frame_id_end)
            &&& forall|v: u32|
                frame_id_start < v < frame_id_end ==> !ids.contains(v)
            &&& forall|v: u32|
                expected <= v < frame_id_start ==> ids.contains(v)
        },
    decreases ids.len(),
{
    if ids.len() > 0 {
        assert(forall|k: int| 0 <= k < ids.drop_first().len() ==> ids.drop_first()[k] == ids[
        k + 1]);
        if ids[0] < expected {
            lemma_ack_walk_gap_minimal(ids.drop_first(), expected);
            match spec_ack_walk(ids, expected) {
                AckOutcome::Retransmit { frame_id_start, frame_id_end } => {
                    assert(!ids.contains(frame_id_start)) by {
                        if ids.contains(frame_id_start) {
                            let k = choose|k: int|
                                0 <= k < ids.len() && ids[k] == frame_id_start;
                            assert(k > 0);
                            assert(ids.drop_first()[k - 1] == frame_id_start);
                            assert(ids.drop_first().contains(frame_id_start));
                        }
                    }
                    assert(ids.contains(frame_id_end)) by {
                        let k = choose|k: int|
                            0 <= k < ids.drop_first().len() && ids.drop_first()[k]
                                == frame_id_end;
                        assert(ids[k + 1] == frame_id_end);
                    }
                    assert forall|v: u32|
                        frame_id_start < v < frame_id_end implies !ids.contains(v) by {
                        if ids.contains(v) {
                            let k = choose|k: int| 0 <= k < ids.len() && ids[k] == v;
                            assert(k > 0);
                            assert(ids.drop_first()[k - 1] == v);
                            assert(ids.drop_first().contains(v));
                        }
                    }
                    assert forall|v: u32|
                        expected <= v < frame_id_start implies ids.contains(v) by {
                        assert(ids.drop_first().contains(v));
                        let k = choose|k: int|
                            0 <= k < ids.drop_first().len() && ids.drop_first()[k] == v;
                        assert(ids[k + 1] == v);
                    }
                },
                AckOutcome::Acknowledge { .. } => {},
            }
        } else if ids[0] == expected {
            let expected2: u32 = if expected < 0xffff_ffffu32 {
                (expected + 1) as u32
            } else {
                expected
            };
            lemma_ack_walk_gap_minimal(ids.drop_first(), expected2);
            lemma_ack_walk_never_decreases(ids.drop_first(), expected2);
            match spec_ack_walk(ids, expected) {
                AckOutcome::Retransmit { frame_id_start, frame_id_end } => {
                    assert(frame_id_start >= expected2);
                    assert(!ids.contains(frame_id_start)) by {
                        if ids.contains(frame_id_start) {
                            let k = choose|k: int|
                                0 <= k < ids.len() && ids[k] == frame_id_start;
                            assert(k > 0);
                            assert(ids.drop_first()[k - 1] == frame_id_start);
                            assert(ids.drop_first().contains(frame_id_start));
                        }
                    }
                    assert(ids.contains(frame_id_end)) by {
                        let k = choose|k: int|
                            0 <= k < ids.drop_first().len() && ids.drop_first()[k]
                                == frame_id_end;
                        assert(ids[k + 1] == frame_id_end);
                    }
                    assert forall|v: u32|
                        frame_id_start < v < frame_id_end implies !ids.contains(v) by {
                        if ids.contains(v) {
                            let k = choose|k: int| 0 <= k < ids.len() && ids[k] == v;
                            assert(k > 0);
                            assert(ids.drop_first()[k - 1] == v);
                            assert(ids.drop_first().contains(v));
                        }
                    }
                    assert forall|v: u32|
                        expected <= v < frame_id_start implies ids.contains(v) by {
                        if v == expected {
                            assert(ids[0] == v);
                        } else {
                            assert(expected2 <= v < frame_id_start);
                            assert(ids.drop_first().contains(v));
                            let k = choose|k: int|
                                0 <= k < ids.drop_first().len() && ids.drop_first()[k] == v;
                            assert(ids[k + 1] == v);
                        }
                    }
                },
                AckOutcome::Acknowledge { .. } => {},
            }
        }
    }
}

/// Collects the received frame ids from the ledger, in arrival order.
pub fn collect_rx_ids(stack: &FrameStack) -> (r: Vec<u32>)
    ensures
        r@ == spec_rx_ids(stack),
{
    let q = stack.get_rx_frame_queue();
    let mut out: Vec<u32> = Vec::new();
    let mut i: usize = 0;
    while i < q.len()
        invariant
            i <= q@.len(),
            q@ == stack.rx_frame_queue@,
            out@ == spec_rx_ids(stack).take(i as int),
        decreases q@.len() - i,
    {
        out.push(q[i].0);
        proof {
            assert(spec_rx_ids(stack).take(i + 1) =~= spec_rx_ids(stack).take(i as int).push(
                q@[i as int].0,
            ));
        }
        i += 1;
    }
    proof {
        assert(spec_rx_ids(stack).take(spec_rx_ids(stack).len() as int) =~= spec_rx_ids(stack));
    }
    out
}

/// Sorts ids ascending.  The result holds exactly the given ids.
pub fn sort_ids(ids: &Vec<u32>) -> (r: Vec<u32>)
    ensures
        spec_sorted(r@),
        r@.to_multiset() == ids@.to_multiset(),
        r@.len() == ids@.len(),
{
    let mut out: Vec<u32> = Vec::new();
    let mut i: usize = 0;
    proof {
        broadcast use group_to_multiset_ensures;

        assert(ids@.take(0) =~= Seq::<u32>::empty());
        assert(out@ =~= ids@.take(0));
    }
    while i < ids.len()
        invariant
            i <= ids.len(),
            spec_sorted(out@),
            out@.to_multiset() == ids@.take(i as int).to_multiset(),
            out@.len() == i,
        decreases ids.len() - i,
    {
        let v = ids[i];
        let mut j: usize = 0;
        while j < out.len() && out[j] <= v
            invariant
                j <= out@.len(),
                forall|k: int| 0 <= k < j ==> out@[k] <= v,
            decreases out@.len() - j,
        {
            j += 1;
        }
        let ghost before = out@;
        out.insert(j, v);
        proof {
            broadcast use group_to_multiset_ensures;

            assert(out@ == before.insert(j as int, v));
            assert(spec_sorted(out@)) by {
                let jj = j as int;
                assert forall|a: int, b: int|
                    0 <= a <= b < out@.len() implies out@[a] <= out@[b] by {
                    if a < jj {
                        assert(out@[a] == before[a]);
                        assert(before[a] <= v);
                    } else if a == jj {
                        assert(out@[a] == v);
                    } else {
                        assert(out@[a] == before[a - 1]);
                    }
                    if b < jj {
                        assert(out@[b] == before[b]);
                    } else if b == jj {
                        assert(out@[b] == v);
                    } else {
                        assert(out@[b] == before[b - 1]);
                        assert(jj <= b - 1 < before.len());
                        assert(before[jj] > v);
                        assert(before[jj] <= before[b - 1]);
                    }
                }
            }
            assert(ids@.take(i + 1) =~= ids@.take(i as int).push(ids@[i as int]));
            assert(out@.to_multiset() == ids@.take(i + 1).to_multiset());
        }
        i += 1;
    }
    proof {
        assert(ids@.take(ids@.len() as int) =~= ids@);
    }
    out
}

/// The walk over already-sorted ids: the decision the acknowledgement
/// procedure acts on.
pub fn ack_walk(ids: &Vec<u32>, watermark: u32) -> (r: AckOutcome)
    ensures
        r == spec_ack_walk(ids@, watermark),
{
    let mut expected: u32 = watermark;
    let mut i: usize = 0;
    proof {
        assert(ids@.skip(0) =~= ids@);
    }
    while i < ids.len()
        invariant
            i <= ids@.len(),
            spec_ack_walk(ids@, watermark) == spec_ack_walk(ids@.skip(i as int), expected),
        decreases ids@.len() - i,
    {
        let id = ids[i];
        proof {
            assert(ids@.skip(i as int)[0] == ids@[i as int]);
            assert(ids@.skip(i as int).drop_first() =~= ids@.skip(i + 1));
        }
        if id < expected {
            // already accounted for below the expected value
        } else if id == expected {
            if expected < 0xffff_ffff {
                expected = expected + 1;
            }
        } else {
            return AckOutcome::Retransmit { frame_id_start: expected, frame_id_end: id };
        }
        i += 1;
    }
    proof {
        assert(ids@.skip(ids@.len() as int) =~= Seq::<u32>::empty());
    }
    AckOutcome::Acknowledge { frame_id: expected }
}

/// The whole decision for a received `RequestAck`: collect the received
/// ids, sort them, walk from the current watermark.  An acknowledgement
/// never lies below the watermark, and a retransmission request names the
/// minimal missing contiguous range of received ids above it.
pub fn compute_ack(stack: &FrameStack) -> (r: AckOutcome)
    ensures
        exists|s: Seq<u32>|
            {
                &&& spec_sorted(s)
                &&& s.to_multiset() == spec_rx_ids(stack).to_multiset()
                &&& r == spec_ack_walk(s, stack.remote_ackd_frame_id)
            },
        (r matches AckOutcome::Acknowledge { frame_id } ==> frame_id
            >= stack.remote_ackd_frame_id),
        (r matches AckOutcome::Retransmit { frame_id_start, frame_id_end } ==> {
            &&& stack.remote_ackd_frame_id <= frame_id_start < frame_id_end
            &&& !spec_rx_ids(stack).contains(frame_id_start)
            &&& spec_rx_ids(stack).contains(frame_id_end)
            &&& forall|v: u32|
                frame_id_start < v < frame_id_end ==> !spec_rx_ids(stack).contains(v)
            &&& forall|v: u32|
                stack.remote_ackd_frame_id <= v < frame_id_start ==> spec_rx_ids(
                    stack,
                ).contains(v)
        }),
{
    let ids = collect_rx_ids(stack);
    let sorted = sort_ids(&ids);
    let watermark = stack.get_remote_ackd_frame_id();
    let r = ack_walk(&sorted, watermark);
    proof {
        broadcast use group_to_multiset_ensures;

        lemma_ack_walk_never_decreases(sorted@, watermark);
        lemma_ack_walk_gap_minimal(sorted@, watermark);
        assert forall|v: u32| sorted@.contains(v) == spec_rx_ids(stack).contains(v) by {
            assert(sorted@.to_multiset().count(v) == spec_rx_ids(stack).to_multiset().count(v));
        }
    }
    r
}

} // verus!
