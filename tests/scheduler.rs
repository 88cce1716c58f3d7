use frame_presenter::extent::Extent;
use frame_presenter::scheduler::{AcquireOutcome, Action, FlushOutcome, FrameScheduler, Phase, StepError};

fn acquired(slot: usize) -> AcquireOutcome {
    AcquireOutcome::Acquired { slot, suboptimal: false }
}

/// Runs one tick without rebuild that submits `slot` and stores `fence`,
/// returning the submit action.
fn plain_tick(s: &mut FrameScheduler<u32>, extent: Extent, slot: usize, fence: u32) -> Action {
    assert_eq!(s.begin_tick(extent), Ok(Action::Acquire));
    let mut a = s.acquired(acquired(slot)).unwrap();
    if a == (Action::WaitFence { slot }) {
        a = s.fence_waited().unwrap();
    }
    assert_eq!(s.flushed(FlushOutcome::Flushed(fence)), Ok(Action::EndTick));
    a
}

#[test]
fn first_ticks_proceed_then_wait_on_reused_slot() {
    let extent = Extent::new(800, 600);
    let mut s: FrameScheduler<u32> = FrameScheduler::new(3);
    let mut previous: Option<usize> = None;
    for (slot, fence) in [(0usize, 10u32), (1, 11), (2, 12)] {
        assert_eq!(s.begin_tick(extent), Ok(Action::Acquire));
        assert_eq!(s.acquired(acquired(slot)), Ok(Action::Submit { slot, after: previous }));
        assert_eq!(s.flushed(FlushOutcome::Flushed(fence)), Ok(Action::EndTick));
        previous = Some(slot);
    }
    assert_eq!(s.begin_tick(extent), Ok(Action::Acquire));
    assert_eq!(s.acquired(acquired(0)), Ok(Action::WaitFence { slot: 0 }));
    assert_eq!(s.fence(0), Some(&10));
    assert_eq!(s.phase(), Phase::Waiting { slot: 0 });
    assert_eq!(s.fence_waited(), Ok(Action::Submit { slot: 0, after: Some(2) }));
    assert_eq!(s.flushed(FlushOutcome::Flushed(13)), Ok(Action::EndTick));
    assert_eq!(s.fence(0), Some(&13));
    assert_eq!(s.previous_slot(), Some(0));
}

#[test]
fn resize_mid_loop_rebuilds_once_at_new_extent() {
    let big = Extent::new(800, 600);
    let small = Extent::new(400, 300);
    let mut s: FrameScheduler<u32> = FrameScheduler::new(3);
    plain_tick(&mut s, big, 0, 1);
    s.notify_resize();
    assert_eq!(s.begin_tick(small), Ok(Action::RecreateSwapchain { extent: small }));
    assert_eq!(s.swapchain_recreated(3), Ok(Action::RebuildPipeline { extent: small }));
    assert_eq!(s.pipeline_rebuilt(), Ok(Action::Acquire));
    assert_eq!(s.acquired(acquired(0)), Ok(Action::Submit { slot: 0, after: None }));
    assert_eq!(s.flushed(FlushOutcome::Flushed(2)), Ok(Action::EndTick));
    assert_eq!(plain_tick(&mut s, small, 1, 3), Action::Submit { slot: 1, after: Some(0) });
}

#[test]
fn many_resize_notifications_give_one_rebuild() {
    let extent = Extent::new(640, 480);
    let mut s: FrameScheduler<u32> = FrameScheduler::new(2);
    for _ in 0..5 {
        s.notify_resize();
    }
    let mut rebuilds = 0;
    let mut a = s.begin_tick(extent).unwrap();
    loop {
        a = match a {
            Action::RecreateSwapchain { .. } => {
                rebuilds += 1;
                s.swapchain_recreated(2).unwrap()
            },
            Action::RebuildPipeline { extent: e } => {
                assert_eq!(e, extent);
                rebuilds += 10;
                s.pipeline_rebuilt().unwrap()
            },
            Action::Acquire => s.acquired(acquired(1)).unwrap(),
            Action::Submit { .. } => s.flushed(FlushOutcome::Flushed(5)).unwrap(),
            Action::EndTick => break,
            other => panic!("unexpected action {:?}", other),
        };
    }
    assert_eq!(rebuilds, 11);
    let flags = s.resize_flags();
    assert!(!flags.pending_resize && !flags.pending_recreate);
    assert_eq!(s.begin_tick(extent), Ok(Action::Acquire));
}

#[test]
fn out_of_date_acquire_submits_nothing() {
    let extent = Extent::new(800, 600);
    let mut s: FrameScheduler<u32> = FrameScheduler::new(3);
    plain_tick(&mut s, extent, 1, 7);
    assert_eq!(s.begin_tick(extent), Ok(Action::Acquire));
    assert_eq!(s.acquired(AcquireOutcome::OutOfDate), Ok(Action::SkipTick));
    assert!(s.resize_flags().pending_recreate);
    assert_eq!(s.phase(), Phase::Idle);
    assert_eq!(s.fence(1), Some(&7));
    assert_eq!(s.previous_slot(), Some(1));
    // no submission can follow in that tick
    assert_eq!(s.flushed(FlushOutcome::Flushed(8)), Err(StepError::OutOfOrder));
    assert_eq!(s.fence_waited(), Err(StepError::OutOfOrder));
    assert_eq!(s.begin_tick(extent), Ok(Action::RecreateSwapchain { extent }));
}

#[test]
fn stale_recovery_matches_clean_run() {
    let extent = Extent::new(800, 600);
    let mut stale: FrameScheduler<u32> = FrameScheduler::new(3);
    assert_eq!(stale.begin_tick(extent), Ok(Action::Acquire));
    assert_eq!(stale.acquired(AcquireOutcome::OutOfDate), Ok(Action::SkipTick));
    assert_eq!(stale.begin_tick(extent), Ok(Action::RecreateSwapchain { extent }));
    assert_eq!(stale.swapchain_recreated(3), Ok(Action::Acquire));
    assert_eq!(stale.acquired(acquired(2)), Ok(Action::Submit { slot: 2, after: None }));
    assert_eq!(stale.flushed(FlushOutcome::Flushed(4)), Ok(Action::EndTick));

    let mut clean: FrameScheduler<u32> = FrameScheduler::new(3);
    assert_eq!(plain_tick(&mut clean, extent, 2, 4), Action::Submit { slot: 2, after: None });

    for slot in 0..3 {
        assert_eq!(stale.fence(slot), clean.fence(slot));
    }
    assert_eq!(stale.previous_slot(), clean.previous_slot());
    assert_eq!(stale.resize_flags(), clean.resize_flags());
    assert_eq!(stale.phase(), clean.phase());
    assert_eq!(stale.image_count(), clean.image_count());
}

#[test]
fn replaced_fence_is_no_longer_held() {
    let extent = Extent::new(800, 600);
    let mut s: FrameScheduler<u32> = FrameScheduler::new(2);
    plain_tick(&mut s, extent, 0, 100);
    plain_tick(&mut s, extent, 1, 101);
    assert_eq!(plain_tick(&mut s, extent, 0, 102), Action::Submit { slot: 0, after: Some(1) });
    let held: Vec<u32> = (0..2).filter_map(|i| s.fence(i).copied()).collect();
    assert_eq!(held, vec![102, 101]);
    assert!(!held.contains(&100));
}

#[test]
fn suboptimal_acquire_proceeds_and_asks_for_recreation() {
    let extent = Extent::new(800, 600);
    let mut s: FrameScheduler<u32> = FrameScheduler::new(2);
    assert_eq!(s.begin_tick(extent), Ok(Action::Acquire));
    assert_eq!(
        s.acquired(AcquireOutcome::Acquired { slot: 1, suboptimal: true }),
        Ok(Action::Submit { slot: 1, after: None })
    );
    assert_eq!(s.flushed(FlushOutcome::Flushed(1)), Ok(Action::EndTick));
    assert!(s.resize_flags().pending_recreate);
    assert!(!s.resize_flags().pending_resize);
    // a stale surface recreates the swapchain but keeps the pipeline
    assert_eq!(s.begin_tick(extent), Ok(Action::RecreateSwapchain { extent }));
    assert_eq!(s.swapchain_recreated(4), Ok(Action::Acquire));
    assert_eq!(s.image_count(), 4);
    for slot in 0..4 {
        assert_eq!(s.fence(slot), None);
    }
    assert_eq!(s.previous_slot(), None);
}

#[test]
fn degenerate_extent_defers_rebuild() {
    let mut s: FrameScheduler<u32> = FrameScheduler::new(2);
    s.notify_resize();
    assert_eq!(s.begin_tick(Extent::new(0, 600)), Ok(Action::SkipTick));
    assert_eq!(s.begin_tick(Extent::new(800, 0)), Ok(Action::SkipTick));
    assert!(s.resize_flags().pending_resize);
    assert_eq!(s.phase(), Phase::Idle);
    let e = Extent::new(800, 600);
    assert_eq!(s.begin_tick(e), Ok(Action::RecreateSwapchain { extent: e }));
}

#[test]
fn failed_recreation_keeps_flags_for_retry() {
    let e = Extent::new(800, 600);
    let mut s: FrameScheduler<u32> = FrameScheduler::new(2);
    s.notify_resize();
    assert_eq!(s.begin_tick(e), Ok(Action::RecreateSwapchain { extent: e }));
    assert_eq!(s.recreate_failed(), Ok(Action::SkipTick));
    assert_eq!(s.phase(), Phase::Idle);
    assert!(s.resize_flags().pending_resize);
    assert_eq!(s.begin_tick(e), Ok(Action::RecreateSwapchain { extent: e }));
    assert_eq!(s.swapchain_recreated(2), Ok(Action::RebuildPipeline { extent: e }));
    // the stale flag is cleared by the swapchain step, the resize flag only by the pipeline step
    assert!(s.resize_flags().pending_resize);
    assert!(!s.resize_flags().pending_recreate);
    assert_eq!(s.pipeline_rebuilt(), Ok(Action::Acquire));
    assert!(!s.resize_flags().pending_resize);
}

#[test]
fn present_out_of_date_drops_fence() {
    let e = Extent::new(800, 600);
    let mut s: FrameScheduler<u32> = FrameScheduler::new(2);
    plain_tick(&mut s, e, 0, 1);
    assert_eq!(s.begin_tick(e), Ok(Action::Acquire));
    assert_eq!(s.acquired(acquired(0)), Ok(Action::WaitFence { slot: 0 }));
    assert_eq!(s.fence_waited(), Ok(Action::Submit { slot: 0, after: Some(0) }));
    assert_eq!(s.flushed(FlushOutcome::OutOfDate), Ok(Action::EndTick));
    assert_eq!(s.fence(0), None);
    assert!(s.resize_flags().pending_recreate);
    assert_eq!(s.previous_slot(), Some(0));
    assert_eq!(s.phase(), Phase::Idle);
}

#[test]
fn present_failure_clears_fence_without_recreation() {
    let e = Extent::new(800, 600);
    let mut s: FrameScheduler<u32> = FrameScheduler::new(2);
    plain_tick(&mut s, e, 1, 1);
    assert_eq!(s.begin_tick(e), Ok(Action::Acquire));
    assert_eq!(s.acquired(acquired(0)), Ok(Action::Submit { slot: 0, after: Some(1) }));
    assert_eq!(s.flushed(FlushOutcome::Failed), Ok(Action::EndTick));
    assert_eq!(s.fence(0), None);
    assert_eq!(s.fence(1), Some(&1));
    assert!(!s.resize_flags().pending_recreate);
    // the next submission has no previous fence to wait on
    assert_eq!(s.begin_tick(e), Ok(Action::Acquire));
    assert_eq!(s.acquired(acquired(1)), Ok(Action::WaitFence { slot: 1 }));
    assert_eq!(s.fence_waited(), Ok(Action::Submit { slot: 1, after: None }));
}

#[test]
fn acquire_failures() {
    let e = Extent::new(800, 600);
    let mut s: FrameScheduler<u32> = FrameScheduler::new(2);
    assert_eq!(s.begin_tick(e), Ok(Action::Acquire));
    assert_eq!(s.acquired(AcquireOutcome::Failed), Ok(Action::SkipTick));
    assert!(!s.resize_flags().pending_recreate);
    assert_eq!(s.begin_tick(e), Ok(Action::Acquire));
    assert_eq!(s.acquired(acquired(2)), Err(StepError::SlotOutOfRange));
    assert!(s.resize_flags().pending_recreate);
    assert_eq!(s.phase(), Phase::Idle);
    assert_eq!(s.begin_tick(e), Ok(Action::RecreateSwapchain { extent: e }));
}

#[test]
fn device_loss_is_fatal_and_final() {
    let e = Extent::new(800, 600);
    let mut s: FrameScheduler<u32> = FrameScheduler::new(2);
    assert_eq!(s.begin_tick(e), Ok(Action::Acquire));
    assert_eq!(s.acquired(AcquireOutcome::DeviceLost), Ok(Action::Fatal));
    assert_eq!(s.phase(), Phase::Lost);
    assert_eq!(s.begin_tick(e), Err(StepError::OutOfOrder));

    let mut t: FrameScheduler<u32> = FrameScheduler::new(2);
    assert_eq!(t.begin_tick(e), Ok(Action::Acquire));
    assert_eq!(t.acquired(acquired(0)), Ok(Action::Submit { slot: 0, after: None }));
    assert_eq!(t.flushed(FlushOutcome::DeviceLost), Ok(Action::Fatal));
    assert_eq!(t.phase(), Phase::Lost);
    assert_eq!(t.fence(0), None);

    let mut u: FrameScheduler<u32> = FrameScheduler::new(2);
    assert_eq!(u.device_lost(), Ok(Action::Fatal));
    assert_eq!(u.phase(), Phase::Lost);
}

#[test]
fn out_of_order_events_change_nothing() {
    let e = Extent::new(800, 600);
    let mut s: FrameScheduler<u32> = FrameScheduler::new(2);
    assert_eq!(s.swapchain_recreated(5), Err(StepError::OutOfOrder));
    assert_eq!(s.recreate_failed(), Err(StepError::OutOfOrder));
    assert_eq!(s.pipeline_rebuilt(), Err(StepError::OutOfOrder));
    assert_eq!(s.acquired(acquired(0)), Err(StepError::OutOfOrder));
    assert_eq!(s.fence_waited(), Err(StepError::OutOfOrder));
    assert_eq!(s.flushed(FlushOutcome::Flushed(1)), Err(StepError::OutOfOrder));
    assert_eq!(s.image_count(), 2);
    assert_eq!(s.phase(), Phase::Idle);
    assert_eq!(s.begin_tick(e), Ok(Action::Acquire));
    assert_eq!(s.begin_tick(e), Err(StepError::OutOfOrder));
    assert_eq!(s.phase(), Phase::Acquiring);
}

#[test]
fn fence_lookup_out_of_range_is_none() {
    let s: FrameScheduler<u32> = FrameScheduler::new(3);
    assert_eq!(s.fence(3), None);
    assert_eq!(s.fence(usize::MAX), None);
    let empty: FrameScheduler<u32> = FrameScheduler::new(0);
    assert_eq!(empty.image_count(), 0);
}

#[test]
fn stale_recovery_with_earlier_fences_converges_once_every_slot_is_used() {
    let extent = Extent::new(800, 600);
    let mut stale: FrameScheduler<u32> = FrameScheduler::new(3);
    let mut clean: FrameScheduler<u32> = FrameScheduler::new(3);
    for s in [&mut stale, &mut clean] {
        plain_tick(s, extent, 0, 1);
        plain_tick(s, extent, 1, 2);
    }
    // the stale run loses its fences on recreation
    assert_eq!(stale.begin_tick(extent), Ok(Action::Acquire));
    assert_eq!(stale.acquired(AcquireOutcome::OutOfDate), Ok(Action::SkipTick));
    assert_eq!(stale.begin_tick(extent), Ok(Action::RecreateSwapchain { extent }));
    assert_eq!(stale.swapchain_recreated(3), Ok(Action::Acquire));
    assert_eq!(stale.acquired(acquired(1)), Ok(Action::Submit { slot: 1, after: None }));
    assert_eq!(stale.flushed(FlushOutcome::Flushed(10)), Ok(Action::EndTick));
    assert_eq!(plain_tick(&mut clean, extent, 1, 10), Action::Submit { slot: 1, after: Some(1) });
    assert_ne!(stale.fence(0), clean.fence(0));

    for (slot, fence) in [(2usize, 11u32), (0, 12)] {
        plain_tick(&mut stale, extent, slot, fence);
        plain_tick(&mut clean, extent, slot, fence);
    }
    for slot in 0..3 {
        assert_eq!(stale.fence(slot), clean.fence(slot));
    }
    assert_eq!(stale.fence(0), Some(&12));
    assert_eq!(stale.previous_slot(), clean.previous_slot());
    assert_eq!(stale.resize_flags(), clean.resize_flags());
    assert_eq!(stale.phase(), clean.phase());
}
