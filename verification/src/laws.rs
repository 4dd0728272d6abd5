//! The adapter's global laws, proved from the contracts the other modules
//! state: how the lifetime counter governs destruction over whole call
//! sequences, that discovery composes with back-pointer recovery, and how
//! the retain/release traffic of handoff and generation balances out.

use vstd::prelude::*;
use crate::guid::{Guid, spec_iid_unknown, spec_iid_thumbnail_provider, spec_iid_initialize_with_stream};
use crate::status::{S_OK, E_NOINTERFACE};
use crate::stream::{ComStream, StreamAction, spec_handoff_actions, spec_release_actions, count_action};
use crate::wrapper::{Wrapper, CapPtr, spec_query_post, spec_with_stream};
use crate::wrapper::{OFFSET_UNKNOWN, OFFSET_STREAM, OFFSET_THUMBNAIL};

verus! {

/// One lifetime call on a composite object, from any capability view.
#[derive(Debug, Copy, Clone, PartialEq, Eq, Structural)]
pub enum LifeOp {
    Acquire,
    Release,
}

/// The running value of the lifetime counter after the first `i` calls of a
/// sequence, starting from the creation count of 1: each acquire adds one,
/// each release subtracts one. These are exactly the single-step contracts
/// of [`Wrapper::add_ref`] and [`Wrapper::release`].
pub open spec fn count_after(ops: Seq<LifeOp>, i: int) -> int
    decreases i,
{
    if i <= 0 {
        1
    } else {
        count_after(ops, i - 1) + (if ops[i - 1] is Acquire {
            1int
        } else {
            -1int
        })
    }
}

/// The fate of a composite after a sequence of lifetime calls: still alive
/// with some count, or destroyed at the index of the release that did it.
/// A destroyed composite stays destroyed: later calls are outside the
/// calling discipline and change nothing here, so destruction can happen at
/// most once by construction, and this model asks exactly when it happens.
pub enum RunState {
    Alive { count: int },
    Destroyed { at: int },
}

/// Runs a sequence of lifetime calls against a fresh composite (count 1),
/// stepping as [`Wrapper::add_ref`] and [`Wrapper::release`] do: acquire
/// increments; release decrements and destroys exactly when the counter
/// reaches zero.
pub open spec fn run_ops(ops: Seq<LifeOp>) -> RunState
    decreases ops.len(),
{
    if ops.len() == 0 {
        RunState::Alive { count: 1 }
    } else {
        match run_ops(ops.drop_last()) {
            RunState::Destroyed { at } => RunState::Destroyed { at },
            RunState::Alive { count } => match ops.last() {
                LifeOp::Acquire => RunState::Alive { count: count + 1 },
                LifeOp::Release => if count == 1 {
                    RunState::Destroyed { at: ops.len() - 1 }
                } else {
                    RunState::Alive { count: count - 1 }
                },
            },
        }
    }
}

/// The running count at a cut below the last call ignores the last call.
proof fn lemma_count_after_prefix(ops: Seq<LifeOp>, j: int)
    requires
        0 <= j <= ops.len() - 1,
    ensures
        count_after(ops.drop_last(), j) == count_after(ops, j),
    decreases j,
{
    if j > 0 {
        lemma_count_after_prefix(ops, j - 1);
        assert(ops.drop_last()[j - 1] == ops[j - 1]);
    }
}

/// The lifetime law: for every sequence of acquire/release calls on one
/// composite object, the object is destroyed exactly once, precisely at the
/// first call that brings the running count to zero, and never before — and
/// while it is alive, the running count has never touched zero.
pub proof fn lemma_destroyed_exactly_at_first_zero(ops: Seq<LifeOp>)
    ensures
        run_ops(ops) matches RunState::Alive { count } ==> (count == count_after(
            ops,
            ops.len() as int,
        ) && forall|j: int| 0 <= j <= ops.len() ==> count_after(ops, j) >= 1),
        run_ops(ops) matches RunState::Destroyed { at } ==> (0 <= at < ops.len() && count_after(
            ops,
            at + 1,
        ) == 0 && forall|j: int| 0 <= j <= at ==> count_after(ops, j) >= 1),
    decreases ops.len(),
{
    if ops.len() > 0 {
        let prefix = ops.drop_last();
        lemma_destroyed_exactly_at_first_zero(prefix);
        assert forall|j: int| 0 <= j <= prefix.len() implies count_after(prefix, j) == count_after(
            ops,
            j,
        ) by {
            lemma_count_after_prefix(ops, j);
        }
    }
}

/// One acquire call is one [`run_ops`] step: a composite whose counter
/// matches a live run, taken through the contract of
/// [`Wrapper::add_ref`], matches the run extended by one acquire.
pub proof fn lemma_acquire_is_one_step<P>(w: Wrapper<P>, count: u32, ops: Seq<LifeOp>)
    requires
        w.wf(),
        count == w.ref_count + 1,
        run_ops(ops) matches RunState::Alive { count: c } && c == w.ref_count,
    ensures
        run_ops(ops.push(LifeOp::Acquire)) matches RunState::Alive { count: c } && c == count,
{
    assert(ops.push(LifeOp::Acquire).drop_last() =~= ops);
}

/// One release call is one [`run_ops`] step: a composite whose counter
/// matches a live run, taken through the contract of
/// [`Wrapper::release`], matches the run extended by one release — it is
/// destroyed by the call exactly when the extended run is destroyed, and
/// otherwise lives on with the run's new count.
pub proof fn lemma_release_is_one_step<P>(
    w: Wrapper<P>,
    r: crate::wrapper::ReleaseOutcome<P>,
    ops: Seq<LifeOp>,
)
    requires
        w.wf(),
        crate::wrapper::spec_release_post(w, r),
        run_ops(ops) matches RunState::Alive { count: c } && c == w.ref_count,
    ensures
        (r is Destroyed) <==> (run_ops(ops.push(LifeOp::Release)) is Destroyed),
        r matches crate::wrapper::ReleaseOutcome::Alive { count, .. } ==> (run_ops(
            ops.push(LifeOp::Release),
        ) matches RunState::Alive { count: c } && c == count),
{
    assert(ops.push(LifeOp::Release).drop_last() =~= ops);
}

/// The three supported identifiers are pairwise distinct, so discovery
/// routes each of them to its own capability record.
pub proof fn lemma_identifiers_distinct()
    ensures
        spec_iid_unknown() != spec_iid_thumbnail_provider(),
        spec_iid_unknown() != spec_iid_initialize_with_stream(),
        spec_iid_thumbnail_provider() != spec_iid_initialize_with_stream(),
{
}

/// The discovery law: a successful discovery hands out a capability-record
/// address whose back-pointer recovery (subtracting that capability's fixed
/// prefix offset) yields the owning composite's base address, for each of
/// the three supported identifiers; every other identifier is answered
/// "not supported" with a null output.
pub proof fn lemma_discovery_round_trip<P>(w: Wrapper<P>, g: Guid, r: (i32, Option<CapPtr>))
    requires
        w.wf(),
        spec_query_post(w, g, r),
    ensures
        g == spec_iid_unknown() ==> (r.1 matches Some(p) && r.0 == S_OK && p.addr
            - OFFSET_UNKNOWN == w.base),
        g == spec_iid_thumbnail_provider() ==> (r.1 matches Some(p) && r.0 == S_OK && p.addr
            - OFFSET_THUMBNAIL == w.base),
        g == spec_iid_initialize_with_stream() ==> (r.1 matches Some(p) && r.0 == S_OK && p.addr
            - OFFSET_STREAM == w.base),
        (g != spec_iid_unknown() && g != spec_iid_thumbnail_provider() && g
            != spec_iid_initialize_with_stream()) ==> (r.0 == E_NOINTERFACE && r.1 is None),
{
}

/// Counting an action distributes over concatenation of action sequences.
pub proof fn lemma_count_action_concat(s1: Seq<StreamAction>, s2: Seq<StreamAction>, a: StreamAction)
    ensures
        count_action(s1 + s2, a) == count_action(s1, a) + count_action(s2, a),
    decreases s2.len(),
{
    if s2.len() == 0 {
        assert(s1 + s2 =~= s1);
    } else {
        lemma_count_action_concat(s1, s2.drop_last(), a);
        assert((s1 + s2).drop_last() =~= s1 + s2.drop_last());
        assert((s1 + s2).last() == s2.last());
    }
}

/// Counting an action in a one-element sequence.
proof fn lemma_count_action_singleton(x: StreamAction, a: StreamAction)
    ensures
        count_action(seq![x], a) == (if x == a {
            1nat
        } else {
            0nat
        }),
{
    assert(seq![x].drop_last() =~= Seq::<StreamAction>::empty());
    assert(count_action(Seq::<StreamAction>::empty(), a) == 0);
    assert(seq![x].last() == x);
}

/// The handoff-retention law: one stream handoff net-retains exactly one
/// foreign reference. The incoming source is retained exactly once; the
/// previously held source, if any, is released exactly once; and the retain
/// comes first, so a source handed off while already held is never dropped
/// to zero references in between.
pub proof fn lemma_handoff_net_retention(old_stream: Option<ComStream>, new_stream: ComStream)
    ensures
        count_action(
            spec_handoff_actions(old_stream, Some(new_stream)),
            StreamAction::Retain(new_stream.id),
        ) == 1,
        old_stream matches Some(o) ==> count_action(
            spec_handoff_actions(old_stream, Some(new_stream)),
            StreamAction::Release(o.id),
        ) == 1,
        old_stream is None ==> forall|id: u64|
            count_action(
                spec_handoff_actions(old_stream, Some(new_stream)),
                StreamAction::Release(id),
            ) == 0,
        spec_handoff_actions(old_stream, Some(new_stream))[0] == StreamAction::Retain(
            new_stream.id,
        ),
        old_stream matches Some(o) ==> spec_handoff_actions(old_stream, Some(new_stream))
            =~= seq![StreamAction::Retain(new_stream.id), StreamAction::Release(o.id)],
        old_stream is None ==> spec_handoff_actions(old_stream, Some(new_stream))
            =~= seq![StreamAction::Retain(new_stream.id)],
{
    let acts = spec_handoff_actions(old_stream, Some(new_stream));
    match old_stream {
        Some(o) => {
            assert(acts =~= seq![
                StreamAction::Retain(new_stream.id),
                StreamAction::Release(o.id),
            ]);
            assert(acts.drop_last() =~= seq![StreamAction::Retain(new_stream.id)]);
            lemma_count_action_singleton(
                StreamAction::Retain(new_stream.id),
                StreamAction::Retain(new_stream.id),
            );
            lemma_count_action_singleton(
                StreamAction::Retain(new_stream.id),
                StreamAction::Release(o.id),
            );
        },
        None => {
            assert(acts =~= seq![StreamAction::Retain(new_stream.id)]);
            assert forall|id: u64| count_action(acts, StreamAction::Release(id)) == 0 by {
                lemma_count_action_singleton(
                    StreamAction::Retain(new_stream.id),
                    StreamAction::Release(id),
                );
            }
            lemma_count_action_singleton(
                StreamAction::Retain(new_stream.id),
                StreamAction::Retain(new_stream.id),
            );
        },
    }
}

/// The round-trip law: hand off stream A, hand off stream B, then generate.
/// The slot holds B when generation starts, so generation consumes B and
/// releases it exactly once; A was released exactly once, at the second
/// handoff, and not again at generation time.
pub proof fn lemma_stream_round_trip<P>(w0: Wrapper<P>, a: ComStream, b: ComStream)
    requires
        w0.stream is None,
        a.id != b.id,
    ensures
        spec_with_stream(spec_with_stream(w0, Some(a)), Some(b)).stream == Some(b),
        count_action(
            spec_handoff_actions(w0.stream, Some(a)) + spec_handoff_actions(
                spec_with_stream(w0, Some(a)).stream,
                Some(b),
            ),
            StreamAction::Release(a.id),
        ) == 1,
        count_action(
            spec_handoff_actions(spec_with_stream(w0, Some(a)).stream, Some(b)),
            StreamAction::Release(a.id),
        ) == 1,
        count_action(
            spec_release_actions(spec_with_stream(spec_with_stream(w0, Some(a)), Some(b)).stream),
            StreamAction::Release(a.id),
        ) == 0,
        count_action(
            spec_release_actions(spec_with_stream(spec_with_stream(w0, Some(a)), Some(b)).stream),
            StreamAction::Release(b.id),
        ) == 1,
{
    let acts1 = spec_handoff_actions(w0.stream, Some(a));
    let acts2 = spec_handoff_actions(Some(a), Some(b));
    let gen_acts = spec_release_actions(Some(b));
    lemma_handoff_net_retention(w0.stream, a);
    lemma_handoff_net_retention(Some(a), b);
    lemma_count_action_concat(acts1, acts2, StreamAction::Release(a.id));
    assert(gen_acts =~= seq![StreamAction::Release(b.id)]);
    lemma_count_action_singleton(StreamAction::Release(b.id), StreamAction::Release(a.id));
    lemma_count_action_singleton(StreamAction::Release(b.id), StreamAction::Release(b.id));
}

} // verus!
