use vstd::prelude::*;

use crate::extent::Extent;
use crate::scheduler::{AcquireOutcome, Action, FlushOutcome, Phase, SchedulerView, StepError};
use crate::slots::{empty_entries, holds_id, table_holds};

verus! {

/// Anything that the host can report to the engine.
pub enum Event<F> {
    Resize,
    Tick(Extent),
    SwapchainRecreated(usize),
    RecreateFailed,
    PipelineRebuilt,
    Acquired(AcquireOutcome),
    FenceWaited,
    Flushed(FlushOutcome<F>),
    DeviceLost,
}

/// The state after the engine took `e` in state `s`.
pub open spec fn after<F>(s: SchedulerView<F>, e: Event<F>) -> SchedulerView<F> {
    match e {
        Event::Resize => s.notify_resize(),
        Event::Tick(extent) => s.begin_tick(extent).0,
        Event::SwapchainRecreated(n) => s.swapchain_recreated(n as nat).0,
        Event::RecreateFailed => s.recreate_failed().0,
        Event::PipelineRebuilt => s.pipeline_rebuilt().0,
        Event::Acquired(o) => s.acquired(o).0,
        Event::FenceWaited => s.fence_waited().0,
        Event::Flushed(o) => s.flushed(o).0,
        Event::DeviceLost => s.device_lost().0,
    }
}

/// The action in a step's answer, if it was one.
pub open spec fn action_of(r: Result<Action, StepError>) -> Option<Action> {
    match r {
        Ok(a) => Some(a),
        Err(_) => None,
    }
}

/// The action the engine asked for on taking `e` in state `s`, if any. A
/// resize notification asks for none.
pub open spec fn answer<F>(s: SchedulerView<F>, e: Event<F>) -> Option<Action> {
    match e {
        Event::Resize => None,
        Event::Tick(extent) => action_of(s.begin_tick(extent).1),
        Event::SwapchainRecreated(n) => action_of(s.swapchain_recreated(n as nat).1),
        Event::RecreateFailed => action_of(s.recreate_failed().1),
        Event::PipelineRebuilt => action_of(s.pipeline_rebuilt().1),
        Event::Acquired(o) => action_of(s.acquired(o).1),
        Event::FenceWaited => action_of(s.fence_waited().1),
        Event::Flushed(o) => action_of(s.flushed(o).1),
        Event::DeviceLost => action_of(s.device_lost().1),
    }
}

/// The state after the engine took every event of `events` in turn.
pub open spec fn run<F>(s: SchedulerView<F>, events: Seq<Event<F>>) -> SchedulerView<F>
    decreases events.len(),
{
    if events.len() == 0 {
        s
    } else {
        after(run(s, events.drop_last()), events.last())
    }
}

/// Every step keeps the state well formed.
pub proof fn lemma_step_wf<F>(s: SchedulerView<F>, e: Event<F>)
    requires
        s.wf(),
    ensures
        after(s, e).wf(),
{
    match e {
        Event::SwapchainRecreated(n) => {
            assert(empty_entries::<F>(n as nat).len() == n);
        },
        _ => {},
    }
}

/// Every sequence of steps keeps the state well formed.
pub proof fn lemma_run_wf<F>(s: SchedulerView<F>, events: Seq<Event<F>>)
    requires
        s.wf(),
    ensures
        run(s, events).wf(),
    decreases events.len(),
{
    if events.len() > 0 {
        lemma_run_wf(s, events.drop_last());
        lemma_step_wf(run(s, events.drop_last()), events.last());
    }
}

/// A submission to `slot`, asked for on taking `e` in `s`, does not overwrite
/// an image that is still in flight: either the image held no fence, or the
/// step is the report that its fence was waited on.
pub open spec fn submission_safe<F>(s: SchedulerView<F>, e: Event<F>) -> bool {
    forall|slot: usize, target: Option<usize>|
        answer(s, e) == Some(Action::Submit { slot, after: target }) ==> slot < s.fences.len() && (
        s.fences[slot as int].is_none() || (s.phase == Phase::Waiting { slot }
            && e is FenceWaited))
}

/// Fence safety: in every sequence of events from a well-formed state, an
/// image is only submitted again once the fence of its previous submission
/// has been waited on.
pub proof fn lemma_fence_safety<F>(s: SchedulerView<F>, events: Seq<Event<F>>)
    requires
        s.wf(),
    ensures
        forall|i: int|
            0 <= i < events.len() ==> #[trigger] submission_safe(
                run(s, events.take(i)),
                events[i],
            ),
{
    assert forall|i: int| 0 <= i < events.len() implies #[trigger] submission_safe(
        run(s, events.take(i)),
        events[i],
    ) by {
        let t = run(s, events.take(i));
        lemma_run_wf(s, events.take(i));
        assert(t.wf());
    }
}

/// The fence numbered `id` was stored once and is no longer held.
pub open spec fn retired<F>(s: SchedulerView<F>, id: nat) -> bool {
    id < s.next_fence && !table_holds(s.fences, id)
}

/// Whether action `a`, taken in state `s`, makes the host use the fence
/// numbered `id`.
pub open spec fn uses_fence<F>(s: SchedulerView<F>, a: Action, id: nat) -> bool {
    match a {
        Action::WaitFence { slot } => slot < s.fences.len() && holds_id(s.fences[slot as int], id),
        Action::Submit { slot, after } => after matches Some(p) && p < s.fences.len() && holds_id(
            s.fences[p as int],
            id,
        ),
        _ => false,
    }
}

/// A step never brings a retired fence back and never asks for its use.
pub proof fn lemma_step_keeps_retired<F>(s: SchedulerView<F>, e: Event<F>, id: nat)
    requires
        s.wf(),
        retired(s, id),
    ensures
        retired(after(s, e), id),
        answer(s, e) matches Some(a) ==> !uses_fence(after(s, e), a, id),
{
    match e {
        Event::SwapchainRecreated(_) => {
            let t = after(s, e);
            if table_holds(t.fences, id) {
                let i = choose|i: int| 0 <= i < t.fences.len() && holds_id(#[trigger] t.fences[i], id);
                assert(t.fences[i].is_none());
            }
        },
        _ => {
            let t = after(s, e);
            if table_holds(t.fences, id) {
                let i = choose|i: int| 0 <= i < t.fences.len() && holds_id(#[trigger] t.fences[i], id);
                assert(holds_id(s.fences[i], id));
            }
        },
    }
}

/// Storing the fence of a new submission retires the one it replaces.
pub proof fn lemma_replacement_retires<F>(s: SchedulerView<F>, slot: usize, handle: F)
    requires
        s.wf(),
        s.phase matches Phase::Submitting { slot: p, .. } && p == slot,
        s.fences[slot as int].is_some(),
    ensures
        retired(
            after(s, Event::Flushed(FlushOutcome::Flushed(handle))),
            s.fences[slot as int].unwrap().id@,
        ),
{
    let id = s.fences[slot as int].unwrap().id@;
    let t = after(s, Event::Flushed(FlushOutcome::Flushed(handle)));
    if table_holds(t.fences, id) {
        let i = choose|i: int| 0 <= i < t.fences.len() && holds_id(#[trigger] t.fences[i], id);
        assert(holds_id(s.fences[i], id));
    }
}

/// No double free of fences: once a fence has left the table, no later state
/// holds it again and no later action makes the host use it.
pub proof fn lemma_retired_stays_retired<F>(s: SchedulerView<F>, events: Seq<Event<F>>, id: nat)
    requires
        s.wf(),
        retired(s, id),
    ensures
        retired(run(s, events), id),
        forall|i: int|
            0 <= i < events.len() ==> (#[trigger] answer(run(s, events.take(i)), events[i]) matches Some(
                a,
            ) ==> !uses_fence(after(run(s, events.take(i)), events[i]), a, id)),
    decreases events.len(),
{
    if events.len() > 0 {
        let prefix = events.drop_last();
        lemma_retired_stays_retired(s, prefix, id);
        lemma_run_wf(s, prefix);
        lemma_step_keeps_retired(run(s, prefix), events.last(), id);
        assert forall|i: int| 0 <= i < events.len() implies (#[trigger] answer(
            run(s, events.take(i)),
            events[i],
        ) matches Some(a) ==> !uses_fence(after(run(s, events.take(i)), events[i]), a, id)) by {
            if i < events.len() - 1 {
                assert(events.take(i) =~= prefix.take(i));
                assert(events[i] == prefix[i]);
            } else {
                assert(events.take(i) =~= prefix);
            }
        }
    }
}

/// The state after `n` resize notifications.
pub open spec fn resized_times<F>(s: SchedulerView<F>, n: nat) -> SchedulerView<F>
    decreases n,
{
    if n == 0 {
        s
    } else {
        resized_times(s, (n - 1) as nat).notify_resize()
    }
}

/// Whether `a` rebuilds the swapchain or the pipeline.
pub open spec fn is_rebuild(a: Action) -> bool {
    a is RecreateSwapchain || a is RebuildPipeline
}

/// Resize convergence: any number of resize notifications before a tick at a
/// usable extent give one swapchain recreation and one pipeline rebuild, at
/// that extent; after them no flag is left, and the rest of the tick asks for
/// no other rebuild.
pub proof fn lemma_resize_convergence<F>(
    s: SchedulerView<F>,
    n: nat,
    extent: Extent,
    image_count: usize,
    rest: Seq<Event<F>>,
)
    requires
        s.wf(),
        s.phase is Idle,
        n >= 1,
        !extent.degenerate(),
        forall|i: int| 0 <= i < rest.len() ==> !(#[trigger] rest[i] is Tick),
    ensures
        resized_times(s, n) == s.notify_resize(),
        ({
            let t0 = resized_times(s, n);
            let (t1, a1) = t0.begin_tick(extent);
            let (t2, a2) = t1.swapchain_recreated(image_count as nat);
            let (t3, a3) = t2.pipeline_rebuilt();
            &&& a1 == Ok::<Action, StepError>(Action::RecreateSwapchain { extent })
            &&& a2 == Ok::<Action, StepError>(Action::RebuildPipeline { extent })
            &&& a3 == Ok::<Action, StepError>(Action::Acquire)
            &&& !t3.resize.pending_resize
            &&& !t3.resize.pending_recreate
            &&& forall|i: int|
                0 <= i < rest.len() ==> !(#[trigger] answer(run(t3, rest.take(i)), rest[i]) matches Some(
                    a,
                ) && is_rebuild(a))
        }),
{
    lemma_resized_times(s, n);
    let t3 = s.notify_resize().begin_tick(extent).0.swapchain_recreated(image_count as nat).0.pipeline_rebuilt().0;
    lemma_no_rebuild_without_tick(t3, rest);
}

proof fn lemma_resized_times<F>(s: SchedulerView<F>, n: nat)
    requires
        n >= 1,
    ensures
        resized_times(s, n) == s.notify_resize(),
    decreases n,
{
    if n > 1 {
        lemma_resized_times(s, (n - 1) as nat);
        assert(resized_times(s, (n - 1) as nat) == s.notify_resize());
    } else {
        assert(resized_times(s, 0) == s);
    }
}

/// Neither rebuilding phase is entered but by a tick.
pub open spec fn outside_rebuild<F>(s: SchedulerView<F>) -> bool {
    !(s.phase is RecreatingSwapchain) && !(s.phase is RebuildingPipeline)
}

proof fn lemma_no_rebuild_without_tick<F>(s: SchedulerView<F>, events: Seq<Event<F>>)
    requires
        outside_rebuild(s),
        forall|i: int| 0 <= i < events.len() ==> !(#[trigger] events[i] is Tick),
    ensures
        outside_rebuild(run(s, events)),
        forall|i: int|
            0 <= i < events.len() ==> !(#[trigger] answer(run(s, events.take(i)), events[i]) matches Some(
                a,
            ) && is_rebuild(a)),
    decreases events.len(),
{
    if events.len() > 0 {
        let prefix = events.drop_last();
        assert forall|i: int| 0 <= i < prefix.len() implies !(#[trigger] prefix[i] is Tick) by {
            assert(prefix[i] == events[i]);
        }
        lemma_no_rebuild_without_tick(s, prefix);
        assert forall|i: int| 0 <= i < events.len() implies !(#[trigger] answer(
            run(s, events.take(i)),
            events[i],
        ) matches Some(a) && is_rebuild(a)) by {
            if i < events.len() - 1 {
                assert(events.take(i) =~= prefix.take(i));
                assert(events[i] == prefix[i]);
            } else {
                assert(events.take(i) =~= prefix);
            }
        }
    }
}

/// Stale-recovery idempotence: from an idle engine whose images hold no
/// fence, a tick whose acquire finds the surface out of date, followed by a
/// tick that recreates the swapchain and then submits `slot`, ends in the
/// same state as the tick that submits `slot` with no staleness at all.
pub proof fn lemma_stale_recovery<F>(s: SchedulerView<F>, extent: Extent, slot: usize, handle: F)
    requires
        s.wf(),
        s.phase is Idle,
        !s.resize.pending_resize,
        !s.resize.pending_recreate,
        !extent.degenerate(),
        s.fences == empty_entries::<F>(s.fences.len()),
        slot < s.fences.len(),
    ensures
        ({
            let n = s.fences.len() as usize;
            let acquired = AcquireOutcome::Acquired { slot, suboptimal: false };
            let stale = run(
                s,
                seq![
                    Event::Tick(extent),
                    Event::Acquired(AcquireOutcome::OutOfDate),
                    Event::Tick(extent),
                    Event::SwapchainRecreated(n),
                    Event::Acquired(acquired),
                    Event::Flushed(FlushOutcome::Flushed(handle)),
                ],
            );
            let clean = run(
                s,
                seq![
                    Event::Tick(extent),
                    Event::Acquired(acquired),
                    Event::Flushed(FlushOutcome::Flushed(handle)),
                ],
            );
            stale == clean
        }),
{
    let n = s.fences.len() as usize;
    let acquired = AcquireOutcome::Acquired { slot, suboptimal: false };
    let e = seq![
        Event::Tick(extent),
        Event::Acquired(AcquireOutcome::OutOfDate),
        Event::Tick(extent),
        Event::SwapchainRecreated(n),
        Event::Acquired(acquired),
        Event::Flushed(FlushOutcome::Flushed(handle)),
    ];
    let c = seq![
        Event::Tick(extent),
        Event::Acquired(acquired),
        Event::Flushed(FlushOutcome::Flushed(handle)),
    ];
    reveal_with_fuel(run, 7);
    assert(e.drop_last().drop_last().drop_last().drop_last().drop_last().drop_last() =~= Seq::<Event<F>>::empty());
    assert(c.drop_last().drop_last().drop_last() =~= Seq::<Event<F>>::empty());
    let s2 = run(s, e.drop_last().drop_last());
    let c1 = run(s, c.drop_last().drop_last());
    assert(s2.fences =~= c1.fences);
    assert(run(s, e).fences =~= run(s, c).fences);
}

/// A submission result after which the engine stays in its steady state:
/// the fence is stored, or the failed submission leaves the slot without one.
pub open spec fn steady<F>(o: FlushOutcome<F>) -> bool {
    o is Flushed || o is Failed
}

/// The rest of a tick from the acquiring phase: image `slot` is acquired
/// (not suboptimal), its fence waited on if it has one, then submitted with
/// result `o`.
pub open spec fn finish_tick<F>(s: SchedulerView<F>, slot: usize, o: FlushOutcome<F>) -> SchedulerView<F> {
    let t = s.acquired(AcquireOutcome::Acquired { slot, suboptimal: false }).0;
    let u = if t.phase is Waiting {
        t.fence_waited().0
    } else {
        t
    };
    u.flushed(o).0
}

/// Whole ticks at `extent`, each given by the acquired image and the
/// submission result.
pub open spec fn play_ticks<F>(
    s: SchedulerView<F>,
    extent: Extent,
    ticks: Seq<(usize, FlushOutcome<F>)>,
) -> SchedulerView<F>
    decreases ticks.len(),
{
    if ticks.len() == 0 {
        s
    } else {
        play_ticks(
            finish_tick(s.begin_tick(extent).0, ticks[0].0, ticks[0].1),
            extent,
            ticks.drop_first(),
        )
    }
}

/// Some tick of `ticks` uses image `i`.
pub open spec fn covers<F>(ticks: Seq<(usize, FlushOutcome<F>)>, i: int) -> bool {
    exists|k: int| 0 <= k < ticks.len() && #[trigger] ticks[k].0 == i
}

/// Two engine states that match but in the fences of the slots in `u`.
pub open spec fn agree_outside<F>(a: SchedulerView<F>, b: SchedulerView<F>, u: Set<int>) -> bool {
    &&& a.phase == b.phase
    &&& a.resize == b.resize
    &&& a.next_fence == b.next_fence
    &&& a.previous == b.previous
    &&& a.fences.len() == b.fences.len()
    &&& forall|i: int| 0 <= i < a.fences.len() && !u.contains(i) ==> a.fences[i] == b.fences[i]
}

proof fn lemma_finish_tick_agree<F>(
    a: SchedulerView<F>,
    b: SchedulerView<F>,
    slot: usize,
    o: FlushOutcome<F>,
)
    requires
        a.phase is Acquiring,
        b.phase is Acquiring,
        a.resize == b.resize,
        !a.resize.pending_resize,
        !a.resize.pending_recreate,
        a.next_fence == b.next_fence,
        a.fences.len() == b.fences.len(),
        slot < a.fences.len(),
        steady(o),
    ensures
        ({
            let a2 = finish_tick(a, slot, o);
            let b2 = finish_tick(b, slot, o);
            &&& a2.phase is Idle
            &&& a2.phase == b2.phase
            &&& a2.resize == a.resize
            &&& b2.resize == a.resize
            &&& a2.next_fence == b2.next_fence
            &&& a2.previous == Some(slot)
            &&& b2.previous == Some(slot)
            &&& a2.fences.len() == a.fences.len()
            &&& b2.fences.len() == a.fences.len()
            &&& a2.fences[slot as int] == b2.fences[slot as int]
            &&& forall|i: int| 0 <= i < a.fences.len() && i != slot ==> a2.fences[i] == a.fences[i]
            &&& forall|i: int| 0 <= i < a.fences.len() && i != slot ==> b2.fences[i] == b.fences[i]
        }),
{
}

proof fn lemma_ticks_agree<F>(
    a: SchedulerView<F>,
    b: SchedulerView<F>,
    extent: Extent,
    ticks: Seq<(usize, FlushOutcome<F>)>,
    u: Set<int>,
)
    requires
        a.phase is Idle,
        !a.resize.pending_resize,
        !a.resize.pending_recreate,
        agree_outside(a, b, u),
        forall|i: int| #[trigger] u.contains(i) ==> covers(ticks, i),
        forall|k: int| 0 <= k < ticks.len() ==> (#[trigger] ticks[k]).0 < a.fences.len() && steady(ticks[k].1),
    ensures
        play_ticks(a, extent, ticks) == play_ticks(b, extent, ticks),
    decreases ticks.len(),
{
    if ticks.len() == 0 {
        assert forall|i: int| 0 <= i < a.fences.len() implies a.fences[i] == b.fences[i] by {
            if u.contains(i) {
                assert(covers(ticks, i));
            }
        }
        assert(a.fences =~= b.fences);
    } else {
        let (slot, o) = ticks[0];
        assert(steady(ticks[0].1));
        let a1 = a.begin_tick(extent).0;
        let b1 = b.begin_tick(extent).0;
        lemma_finish_tick_agree(a1, b1, slot, o);
        let a2 = finish_tick(a1, slot, o);
        let b2 = finish_tick(b1, slot, o);
        let u2 = u.remove(slot as int);
        let rest = ticks.drop_first();
        assert forall|i: int| #[trigger] u2.contains(i) implies covers(rest, i) by {
            assert(covers(ticks, i));
            let k = choose|k: int| 0 <= k < ticks.len() && #[trigger] ticks[k].0 == i;
            assert(k != 0);
            assert(rest[k - 1] == ticks[k]);
        }
        assert forall|k: int| 0 <= k < rest.len() implies (#[trigger] rest[k]).0 < a2.fences.len()
            && steady(rest[k].1) by {
            assert(rest[k] == ticks[k + 1]);
        }
        assert(agree_outside(a2, b2, u2));
        lemma_ticks_agree(a2, b2, extent, rest, u2);
    }
}

/// Stale-recovery idempotence: take an idle engine with no rebuild pending
/// and any fences. One run finds the surface out of date on acquire, then
/// recreates the swapchain with the same number of images in the next tick
/// and carries on with `ticks`. The other run plays `ticks` with no
/// staleness. Once the ticks have used every image, both runs are in the
/// same state: the same fence in every slot, the same previous image, the
/// same flags.
pub proof fn lemma_stale_recovery_steady<F>(
    s: SchedulerView<F>,
    extent: Extent,
    ticks: Seq<(usize, FlushOutcome<F>)>,
)
    requires
        s.wf(),
        s.phase is Idle,
        !s.resize.pending_resize,
        !s.resize.pending_recreate,
        !extent.degenerate(),
        ticks.len() > 0,
        forall|k: int| 0 <= k < ticks.len() ==> (#[trigger] ticks[k]).0 < s.fences.len() && steady(ticks[k].1),
        forall|i: int| 0 <= i < s.fences.len() ==> #[trigger] covers(ticks, i),
    ensures
        ({
            let n = s.fences.len() as usize;
            let recovering = run(
                s,
                seq![
                    Event::Tick(extent),
                    Event::Acquired(AcquireOutcome::OutOfDate),
                    Event::Tick(extent),
                    Event::SwapchainRecreated(n),
                ],
            );
            let stale = play_ticks(
                finish_tick(recovering, ticks[0].0, ticks[0].1),
                extent,
                ticks.drop_first(),
            );
            stale == play_ticks(s, extent, ticks)
        }),
{
    let n = s.fences.len() as usize;
    let e = seq![
        Event::Tick(extent),
        Event::Acquired(AcquireOutcome::OutOfDate),
        Event::Tick(extent),
        Event::SwapchainRecreated(n),
    ];
    reveal_with_fuel(run, 5);
    assert(e.drop_last().drop_last().drop_last().drop_last() =~= Seq::<Event<F>>::empty());
    let r = run(s, e);
    let c1 = s.begin_tick(extent).0;
    assert(r.fences.len() == s.fences.len());
    let (slot, o) = ticks[0];
    assert(steady(ticks[0].1));
    lemma_finish_tick_agree(r, c1, slot, o);
    let a2 = finish_tick(r, slot, o);
    let b2 = finish_tick(c1, slot, o);
    let u = Set::new(|i: int| 0 <= i < s.fences.len() && i != slot);
    let rest = ticks.drop_first();
    assert forall|i: int| #[trigger] u.contains(i) implies covers(rest, i) by {
        assert(covers(ticks, i));
        let k = choose|k: int| 0 <= k < ticks.len() && #[trigger] ticks[k].0 == i;
        assert(k != 0);
        assert(rest[k - 1] == ticks[k]);
    }
    assert forall|k: int| 0 <= k < rest.len() implies (#[trigger] rest[k]).0 < a2.fences.len()
        && steady(rest[k].1) by {
        assert(rest[k] == ticks[k + 1]);
    }
    assert(agree_outside(a2, b2, u));
    lemma_ticks_agree(a2, b2, extent, rest, u);
}

} // verus!
