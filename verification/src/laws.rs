//! The ordering laws of the present loop, proved of the transition
//! function [`SyncModel::next`].
//!
//! A run of the loop is a fold of `next` over a sequence of events; the
//! theorems here state what every such run guarantees: a successful
//! recreation always lands on the last extent the surface reported, a
//! submission never reuses an image slot before its previous fence has
//! signaled, repeated rejected recreations leave the state exactly as it
//! was, and a clean stop happens only straight after a full drain.

use vstd::prelude::*;
use crate::extent::Extent;
use crate::sync::{
    Action, AcquireOutcome, Event, Mode, Phase, PresentOutcome, RecreateOutcome, SurfacePoll,
    SyncModel, mode_of, lemma_next_preserves_inv,
};

verus! {

/// The state after feeding the machine each event of `es` in turn.
pub open spec fn run(s: SyncModel, es: Seq<Event>) -> SyncModel
    decreases es.len(),
{
    if es.len() == 0 {
        s
    } else {
        run(s.next(es[0]).0, es.drop_first())
    }
}

/// The actions the machine announces along a run, in order.
pub open spec fn actions(s: SyncModel, es: Seq<Event>) -> Seq<Action>
    decreases es.len(),
{
    if es.len() == 0 {
        Seq::empty()
    } else {
        seq![s.next(es[0]).1] + actions(s.next(es[0]).0, es.drop_first())
    }
}

/// A trace the caller can actually produce: each event answers the
/// pending action of the state it is fed to, and keeps the engine's
/// guarantees.
pub open spec fn wf_trace(s: SyncModel, es: Seq<Event>) -> bool
    decreases es.len(),
{
    es.len() > 0 ==> {
        &&& s.accepts(es[0])
        &&& s.event_wf(es[0])
        &&& wf_trace(s.next(es[0]).0, es.drop_first())
    }
}

/// The extent of the most recent surface poll in a trace, if any.
pub open spec fn last_polled(es: Seq<Event>) -> Option<Extent>
    decreases es.len(),
{
    if es.len() == 0 {
        None
    } else {
        match es.last() {
            Event::Polled(p) => Some(p.extent),
            _ => last_polled(es.drop_last()),
        }
    }
}

/// A run stays well-formed along a well-formed trace.
pub proof fn lemma_run_preserves_inv(s: SyncModel, es: Seq<Event>)
    requires
        s.inv(),
        wf_trace(s, es),
    ensures
        run(s, es).inv(),
    decreases es.len(),
{
    if es.len() > 0 {
        lemma_next_preserves_inv(s, es[0]);
        lemma_run_preserves_inv(s.next(es[0]).0, es.drop_first());
    }
}

/// A run over a concatenation is the run over the first part, continued
/// over the second; actions concatenate the same way.
pub proof fn lemma_run_append(s: SyncModel, a: Seq<Event>, b: Seq<Event>)
    ensures
        run(s, a + b) == run(run(s, a), b),
        actions(s, a + b) =~= actions(s, a) + actions(run(s, a), b),
        wf_trace(s, a) && wf_trace(run(s, a), b) ==> wf_trace(s, a + b),
    decreases a.len(),
{
    if a.len() == 0 {
        assert(a + b =~= b);
        assert(actions(s, a) =~= Seq::<Action>::empty());
    } else {
        let s1 = s.next(a[0]).0;
        assert((a + b)[0] == a[0]);
        assert((a + b).drop_first() =~= a.drop_first() + b);
        lemma_run_append(s1, a.drop_first(), b);
    }
}

/// Splitting off the last event of a trace: the run is the run over the
/// prefix, stepped once; and the prefix of a well-formed trace is a
/// well-formed trace whose final state accepts that last event.
pub proof fn lemma_run_snoc(s: SyncModel, es: Seq<Event>)
    requires
        es.len() > 0,
    ensures
        run(s, es) == run(s, es.drop_last()).next(es.last()).0,
        wf_trace(s, es) ==> {
            &&& wf_trace(s, es.drop_last())
            &&& run(s, es.drop_last()).accepts(es.last())
            &&& run(s, es.drop_last()).event_wf(es.last())
        },
    decreases es.len(),
{
    if es.len() == 1 {
        assert(es.drop_last() =~= Seq::<Event>::empty());
        assert(es.drop_first() =~= Seq::<Event>::empty());
        assert(es.last() == es[0]);
        assert(run(s, es) == run(s.next(es[0]).0, es.drop_first()));
    } else {
        let s1 = s.next(es[0]).0;
        lemma_run_snoc(s1, es.drop_first());
        assert(es.drop_first().drop_last() =~= es.drop_last().drop_first());
        assert(es.drop_first().last() == es.last());
        assert(es.drop_last()[0] == es[0]);
        assert(run(s, es) == run(s1, es.drop_first()));
        assert(run(s, es.drop_last()) == run(s1, es.drop_last().drop_first()));
        if wf_trace(s, es) {
            assert(wf_trace(s1, es.drop_first()));
            assert(wf_trace(s1, es.drop_last().drop_first()));
            assert(wf_trace(s, es.drop_last()));
        }
    }
}

/// While a recreation is pending — the machine is draining towards, or
/// recreating at, some target extent — that target is exactly the last
/// extent the surface reported.
pub proof fn lemma_target_is_last_polled(s: SyncModel, es: Seq<Event>)
    requires
        wf_trace(s, es),
        mode_of(s.phase) == Mode::Running,
    ensures
        (run(s, es).phase matches Phase::Draining { target } ==> last_polled(es) == Some(target)),
        (run(s, es).phase matches Phase::Recreating { target } ==> last_polled(es) == Some(
            target,
        )),
    decreases es.len(),
{
    if es.len() > 0 {
        let prefix = es.drop_last();
        let e = es.last();
        let t = run(s, prefix);
        lemma_run_snoc(s, es);
        lemma_target_is_last_polled(s, prefix);
        match (t.phase, e) {
            (Phase::Ticking, Event::Polled(p)) => {},
            (Phase::ResizePoll, Event::Polled(p)) => {},
            (Phase::Draining { target }, Event::Drained) => {
                assert(last_polled(es) == last_polled(prefix));
            },
            _ => {
                assert(last_polled(es) == last_polled(prefix) || run(
                    s,
                    es,
                ).phase !is Draining && run(s, es).phase !is Recreating);
            },
        }
    }
}

/// For every sequence of resize events: when the loop returns to
/// `Running` after awaiting a resize — that is, when a recreation has
/// just succeeded — the swapchain's extent equals the last drawable
/// extent the surface reported.
pub proof fn theorem_extent_matches_last_report(s: SyncModel, es: Seq<Event>)
    requires
        wf_trace(s, es),
        mode_of(s.phase) == Mode::Running,
        es.len() > 0,
        mode_of(run(s, es.drop_last()).phase) == Mode::AwaitingResize,
        mode_of(run(s, es).phase) == Mode::Running,
    ensures
        last_polled(es) == Some(run(s, es).swapchain.extent),
{
    let prefix = es.drop_last();
    let e = es.last();
    let t = run(s, prefix);
    lemma_run_snoc(s, es);
    lemma_target_is_last_polled(s, prefix);
    match (t.phase, e) {
        (Phase::Recreating { target }, Event::Recreated(o)) => {
            assert(o matches RecreateOutcome::Done { .. });
            assert(last_polled(es) == last_polled(prefix));
        },
        _ => {
            assert(false);
        },
    }
}

/// At most one submission is in flight per image index, because a
/// submission to index `i` is announced only when slot `i` is known
/// retired: either the slot was empty, or the machine was blocked on
/// exactly that slot's fence and the wait just returned. The slot is
/// occupied again from the moment the submission is announced, so a
/// second submission to `i` cannot be issued before `i`'s fence has
/// signaled once more.
pub proof fn theorem_submission_needs_retired_slot(s: SyncModel, e: Event, index: usize)
    requires
        s.inv(),
        s.accepts(e),
        s.event_wf(e),
        s.next(e).1 == (Action::SubmitPresent { index }),
    ensures
        index < s.slots.len(),
        s.slots[index as int] is Empty || (s.phase == (Phase::WaitingRetire { index }) && e
            == Event::FenceSignaled),
        s.next(e).0.slots[index as int] is InFlight,
        s.next(e).0.phase == (Phase::Presenting { index }),
{
}

/// A fence slot becomes occupied only by announcing a submission to it,
/// and becomes free again only once its fence is known signaled: after
/// the blocking per-slot wait, a full drain, or a present the engine
/// rejected before any work reached the GPU.
pub proof fn theorem_slot_changes_are_guarded(s: SyncModel, e: Event, i: usize)
    requires
        s.inv(),
        s.accepts(e),
        s.event_wf(e),
        i < s.slots.len(),
        i < s.next(e).0.slots.len(),
    ensures
        s.slots[i as int] is Empty && s.next(e).0.slots[i as int] is InFlight ==> s.next(e).1
            == (Action::SubmitPresent { index: i }),
        s.slots[i as int] is InFlight && s.next(e).0.slots[i as int] is Empty ==> {
            ||| e == Event::Drained
            ||| e == Event::Presented(PresentOutcome::OutOfDate)
        },
{
}

/// The design's transition diagram, at the level of the three loop
/// states: the loop leaves `Running` for `AwaitingResize` only when the
/// surface reported a resize, the extent no longer matches, a
/// suboptimal present was flagged, or acquisition reported the chain
/// out of date; it returns to `Running` only through a successful
/// recreation; and it starts shutting down only on a close request or a
/// fatal failure. Shutdown is terminal: no event leads out of it.
pub proof fn theorem_mode_transitions(s: SyncModel, e: Event)
    requires
        s.inv(),
        s.accepts(e),
        s.event_wf(e),
    ensures
        mode_of(s.phase) == Mode::Running && mode_of(s.next(e).0.phase) == Mode::AwaitingResize
            ==> {
            ||| e matches Event::Polled(p) && !p.close_requested && (p.resized
                || s.resize_pending || p.extent != s.swapchain.extent)
            ||| e == Event::Acquired(AcquireOutcome::OutOfDate)
        },
        mode_of(s.phase) == Mode::AwaitingResize && mode_of(s.next(e).0.phase) == Mode::Running
            ==> (s.phase matches Phase::Recreating { .. }) && (e matches Event::Recreated(
            RecreateOutcome::Done { .. },
        )),
        mode_of(s.next(e).0.phase) == Mode::ShuttingDown && mode_of(s.phase)
            != Mode::ShuttingDown ==> {
            ||| e matches Event::Polled(p) && p.close_requested
            ||| s.next(e).0.phase == Phase::Failed
        },
        mode_of(s.phase) == Mode::ShuttingDown ==> mode_of(s.next(e).0.phase)
            == Mode::ShuttingDown,
{
}

/// A successfully acquired image is never skipped: the machine either
/// submits it at once, or first waits on exactly that image's fence and
/// then submits it. The suboptimal flag defers recreation to the next
/// iteration instead of dropping the frame.
pub proof fn theorem_acquired_image_is_presented(s: SyncModel, e: Event, index: usize,
    suboptimal: bool)
    requires
        s.inv(),
        s.accepts(e),
        s.event_wf(e),
        s.phase == Phase::Acquiring,
        e == Event::Acquired(AcquireOutcome::Image { index, suboptimal }),
    ensures
        s.slots[index as int] is InFlight ==> s.next(e).0.phase == (Phase::WaitingRetire {
            index,
        }) && s.next(e).1 == (Action::WaitFence { index }),
        s.slots[index as int] is Empty ==> s.next(e).0.phase == (Phase::Presenting { index })
            && s.next(e).1 == (Action::SubmitPresent { index }),
        suboptimal ==> s.next(e).0.resize_pending,
{
}

/// One rejected recreation attempt: the surface is polled, the (already
/// empty) slots are drained, recreation is attempted at the reported
/// extent, and the engine rejects it.
pub open spec fn failed_attempt(p: SurfacePoll) -> Seq<Event> {
    seq![
        Event::Polled(p),
        Event::Drained,
        Event::Recreated(RecreateOutcome::Unsupported),
    ]
}

/// `n` copies of a trace, one after another.
pub open spec fn repeated(es: Seq<Event>, n: nat) -> Seq<Event>
    decreases n,
{
    if n == 0 {
        Seq::empty()
    } else {
        es + repeated(es, (n - 1) as nat)
    }
}

/// One rejected recreation attempt leaves the state exactly as it was,
/// and announces only a drain, the recreation itself, and the next poll
/// — no submission.
pub proof fn lemma_failed_attempt_is_identity(s: SyncModel, p: SurfacePoll)
    requires
        s.inv(),
        s.phase == Phase::ResizePoll,
        forall|i: int| 0 <= i < s.slots.len() ==> s.slots[i] is Empty,
        !p.close_requested,
    ensures
        wf_trace(s, failed_attempt(p)),
        run(s, failed_attempt(p)) == s,
        actions(s, failed_attempt(p)) =~= seq![
            Action::DrainAll,
            Action::Recreate { target: p.extent },
            Action::Poll,
        ],
{
    let es = failed_attempt(p);
    let r1 = es.drop_first();
    let r2 = r1.drop_first();
    let r3 = r2.drop_first();
    let s1 = s.next(es[0]).0;
    let s2 = s1.next(r1[0]).0;
    let s3 = s2.next(r2[0]).0;
    assert(es[0] == Event::Polled(p));
    assert(r1[0] == Event::Drained);
    assert(r2[0] == Event::Recreated(RecreateOutcome::Unsupported));
    assert(r3 =~= Seq::<Event>::empty());
    assert(s2.slots =~= s.slots);
    assert(s3 =~= s);
    assert(run(s, es) == run(s1, r1));
    assert(run(s1, r1) == run(s2, r2));
    assert(run(s2, r2) == run(s3, r3));
    assert(run(s3, r3) == s3);
    assert(wf_trace(s3, r3));
    assert(wf_trace(s2, r2));
    assert(wf_trace(s1, r1));
    assert(wf_trace(s, es));
    assert(actions(s, es) == seq![s.next(es[0]).1] + actions(s1, r1));
    assert(actions(s1, r1) == seq![s1.next(r1[0]).1] + actions(s2, r2));
    assert(actions(s2, r2) == seq![s2.next(r2[0]).1] + actions(s3, r3));
    assert(actions(s3, r3) =~= Seq::<Action>::empty());
}

/// Recreation is idempotent under repeated `UnsupportedExtent`: across
/// any number of rejected attempts the loop stays in `AwaitingResize`,
/// the state — swapchain, fence slots, cursor and live resource
/// generation alike — is exactly what it was, and no submission is
/// issued, so nothing is built up or leaked.
pub proof fn theorem_unsupported_recreation_idempotent(s: SyncModel, p: SurfacePoll, n: nat)
    requires
        s.inv(),
        s.phase == Phase::ResizePoll,
        forall|i: int| 0 <= i < s.slots.len() ==> s.slots[i] is Empty,
        !p.close_requested,
    ensures
        wf_trace(s, repeated(failed_attempt(p), n)),
        run(s, repeated(failed_attempt(p), n)) == s,
        forall|k: int|
            0 <= k < actions(s, repeated(failed_attempt(p), n)).len() ==> !(#[trigger] actions(
                s,
                repeated(failed_attempt(p), n),
            )[k] matches Action::SubmitPresent { .. }),
    decreases n,
{
    let one = failed_attempt(p);
    if n == 0 {
        assert(repeated(one, n) =~= Seq::<Event>::empty());
        assert(actions(s, repeated(one, n)) =~= Seq::<Action>::empty());
    } else {
        let rest = repeated(one, (n - 1) as nat);
        lemma_failed_attempt_is_identity(s, p);
        theorem_unsupported_recreation_idempotent(s, p, (n - 1) as nat);
        lemma_run_append(s, one, rest);
        assert(repeated(one, n) == one + rest);
        assert(forall|k: int|
            0 <= k < actions(s, one + rest).len() ==> !(#[trigger] actions(s, one + rest)[k]
                matches Action::SubmitPresent { .. }));
    }
}

/// A clean stop happens only straight after a full drain: the step that
/// lands in `Stopped` consumed the drain report while shutting down,
/// leaves every fence slot empty, and is the one that tells the caller
/// the device's resources may be released.
pub proof fn theorem_shutdown_waits_for_fences(s: SyncModel, e: Event)
    requires
        s.inv(),
        s.accepts(e),
        s.event_wf(e),
    ensures
        s.next(e).0.phase == Phase::Stopped ==> {
            &&& s.phase == Phase::ShutdownDrain
            &&& e == Event::Drained
            &&& s.next(e).1 == (Action::Stop { failure: false })
            &&& forall|i: int|
                0 <= i < s.next(e).0.slots.len() ==> s.next(e).0.slots[i] is Empty
        },
        s.next(e).0.phase == Phase::ShutdownDrain ==> s.next(e).1 == Action::DrainAll,
{
}

/// Along any well-formed trace that ends stopped cleanly, every fence
/// slot of the final state is empty: shutdown waited for every occupied
/// slot before the caller may release the device's resources.
pub proof fn theorem_stopped_trace_is_drained(s: SyncModel, es: Seq<Event>)
    requires
        s.inv(),
        wf_trace(s, es),
        s.phase != Phase::Stopped,
        run(s, es).phase == Phase::Stopped,
    ensures
        forall|i: int| 0 <= i < run(s, es).slots.len() ==> run(s, es).slots[i] is Empty,
{
    if es.len() == 0 {
        assert(false);
    } else {
        let prefix = es.drop_last();
        let t = run(s, prefix);
        lemma_run_snoc(s, es);
        lemma_run_preserves_inv(s, prefix);
        theorem_shutdown_waits_for_fences(t, es.last());
    }
}

} // verus!
