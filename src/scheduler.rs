use vstd::prelude::*;

use crate::extent::Extent;
use crate::resize::{Rebuild, ResizeCoordinator, ResizeFlags};
use crate::slots::{table_wf, empty_entries, FenceTable, SlotFence};

verus! {

/// Where the engine stands within one tick.
#[derive(Clone, Copy, Debug, PartialEq, Eq, Structural)]
pub enum Phase {
    /// Between ticks.
    Idle,
    /// The host is recreating the swapchain at `extent`.
    RecreatingSwapchain { extent: Extent },
    /// The host is rebuilding the viewport-dependent pipeline at `extent`.
    RebuildingPipeline { extent: Extent },
    /// The host is acquiring the next image.
    Acquiring,
    /// The host is waiting on the fence of image `slot`.
    Waiting { slot: usize },
    /// The host is submitting and presenting image `slot`; `waited` records
    /// that the slot's earlier fence was waited on in this tick.
    Submitting { slot: usize, waited: bool },
    /// The device was lost: the engine accepts nothing more.
    Lost,
}

/// What the host has to do next.
#[derive(Clone, Copy, Debug, PartialEq, Eq)]
pub enum Action {
    /// Nothing more in this tick: no image is submitted or presented.
    SkipTick,
    /// Recreate the swapchain and its framebuffers at `extent`, then report
    /// the new image count (or the failure).
    RecreateSwapchain { extent: Extent },
    /// Rebuild the pipeline with a viewport of `extent`.
    RebuildPipeline { extent: Extent },
    /// Record the command sequences and acquire the next image.
    Acquire,
    /// Block until the fence of image `slot` signals.
    WaitFence { slot: usize },
    /// Submit the command sequence of image `slot`, gated on the acquire
    /// signal and on the fence of image `after` (an already satisfied token
    /// where there is none), then present it and flush.
    Submit { slot: usize, after: Option<usize> },
    /// The tick is complete.
    EndTick,
    /// The device is lost: tear the engine down.
    Fatal,
}

/// An event that the engine cannot take in its present phase.
#[derive(Clone, Copy, Debug, PartialEq, Eq, Structural)]
pub enum StepError {
    /// The event does not belong to the current phase; nothing changed.
    OutOfOrder,
    /// The acquired image index lies outside the fence table; the tick was
    /// abandoned and a recreation requested.
    SlotOutOfRange,
}

/// What acquiring the next image gave.
#[derive(Clone, Copy, Debug, PartialEq, Eq, Structural)]
pub enum AcquireOutcome {
    Acquired { slot: usize, suboptimal: bool },
    OutOfDate,
    DeviceLost,
    Failed,
}

/// What submitting, presenting and flushing gave: on success, the fence
/// that signals when the GPU is done with the image.
#[derive(Debug, PartialEq, Eq)]
pub enum FlushOutcome<F> {
    Flushed(F),
    OutOfDate,
    DeviceLost,
    Failed,
}

/// The state of a [`FrameScheduler`], as the contracts see it.
pub struct SchedulerView<F> {
    pub phase: Phase,
    /// One entry per swapchain image.
    pub fences: Seq<Option<SlotFence<F>>>,
    /// The number that the next stored fence receives.
    pub next_fence: nat,
    /// The image used by the last tick that reached submission.
    pub previous: Option<usize>,
    pub resize: ResizeFlags,
}

/// The result of one step: the state after it and the answer to the host.
pub type Step<F> = (SchedulerView<F>, Result<Action, StepError>);

impl<F> SchedulerView<F> {
    /// The state of a new engine for a swapchain of `image_count` images.
    pub open spec fn init(image_count: nat) -> Self {
        SchedulerView {
            phase: Phase::Idle,
            fences: empty_entries(image_count),
            next_fence: 0,
            previous: None,
            resize: ResizeFlags { pending_resize: false, pending_recreate: false },
        }
    }

    pub open spec fn wf(self) -> bool {
        &&& table_wf(self.fences, self.next_fence)
        &&& self.fences.len() <= usize::MAX
        &&& (self.previous matches Some(p) ==> p < self.fences.len())
        &&& (self.phase matches Phase::Waiting { slot } ==> slot < self.fences.len()
            && self.fences[slot as int].is_some())
        &&& (self.phase matches Phase::Submitting { slot, waited } ==> slot < self.fences.len()
            && (self.fences[slot as int].is_some() ==> waited))
    }

    /// The fence that the next submission waits on besides the acquire
    /// signal: that of the previous tick's image, if it still has one.
    pub open spec fn join_target(self) -> Option<usize> {
        match self.previous {
            Some(p) => if p < self.fences.len() && self.fences[p as int].is_some() {
                Some(p)
            } else {
                None
            },
            None => None,
        }
    }

    pub open spec fn notify_resize(self) -> Self {
        SchedulerView { resize: self.resize.resized(), ..self }
    }

    pub open spec fn begin_tick(self, extent: Extent) -> Step<F> {
        if !(self.phase is Idle) {
            (self, Err(StepError::OutOfOrder))
        } else {
            match self.resize.rebuild_for(extent) {
                Rebuild::Nothing => (
                    SchedulerView { phase: Phase::Acquiring, ..self },
                    Ok(Action::Acquire),
                ),
                Rebuild::Deferred => (self, Ok(Action::SkipTick)),
                _ => (
                    SchedulerView { phase: Phase::RecreatingSwapchain { extent }, ..self },
                    Ok(Action::RecreateSwapchain { extent }),
                ),
            }
        }
    }

    pub open spec fn swapchain_recreated(self, image_count: nat) -> Step<F> {
        match self.phase {
            Phase::RecreatingSwapchain { extent } => {
                let rebuilt = SchedulerView {
                    fences: empty_entries(image_count),
                    previous: None,
                    resize: self.resize.swapchain_done(),
                    ..self
                };
                if self.resize.pending_resize {
                    (
                        SchedulerView { phase: Phase::RebuildingPipeline { extent }, ..rebuilt },
                        Ok(Action::RebuildPipeline { extent }),
                    )
                } else {
                    (SchedulerView { phase: Phase::Acquiring, ..rebuilt }, Ok(Action::Acquire))
                }
            },
            _ => (self, Err(StepError::OutOfOrder)),
        }
    }

    pub open spec fn recreate_failed(self) -> Step<F> {
        if self.phase is RecreatingSwapchain {
            (SchedulerView { phase: Phase::Idle, ..self }, Ok(Action::SkipTick))
        } else {
            (self, Err(StepError::OutOfOrder))
        }
    }

    pub open spec fn pipeline_rebuilt(self) -> Step<F> {
        if self.phase is RebuildingPipeline {
            (
                SchedulerView {
                    phase: Phase::Acquiring,
                    resize: self.resize.pipeline_done(),
                    ..self
                },
                Ok(Action::Acquire),
            )
        } else {
            (self, Err(StepError::OutOfOrder))
        }
    }

    pub open spec fn acquired(self, outcome: AcquireOutcome) -> Step<F> {
        if !(self.phase is Acquiring) {
            (self, Err(StepError::OutOfOrder))
        } else {
            match outcome {
                AcquireOutcome::Acquired { slot, suboptimal } => {
                    let resize = if suboptimal {
                        self.resize.stale()
                    } else {
                        self.resize
                    };
                    if slot >= self.fences.len() {
                        (
                            SchedulerView {
                                phase: Phase::Idle,
                                resize: self.resize.stale(),
                                ..self
                            },
                            Err(StepError::SlotOutOfRange),
                        )
                    } else if self.fences[slot as int].is_some() {
                        (
                            SchedulerView { phase: Phase::Waiting { slot }, resize, ..self },
                            Ok(Action::WaitFence { slot }),
                        )
                    } else {
                        (
                            SchedulerView {
                                phase: Phase::Submitting { slot, waited: false },
                                resize,
                                ..self
                            },
                            Ok(Action::Submit { slot, after: self.join_target() }),
                        )
                    }
                },
                AcquireOutcome::OutOfDate => (
                    SchedulerView { phase: Phase::Idle, resize: self.resize.stale(), ..self },
                    Ok(Action::SkipTick),
                ),
                AcquireOutcome::DeviceLost => (
                    SchedulerView { phase: Phase::Lost, ..self },
                    Ok(Action::Fatal),
                ),
                AcquireOutcome::Failed => (
                    SchedulerView { phase: Phase::Idle, ..self },
                    Ok(Action::SkipTick),
                ),
            }
        }
    }

    pub open spec fn fence_waited(self) -> Step<F> {
        match self.phase {
            Phase::Waiting { slot } => (
                SchedulerView { phase: Phase::Submitting { slot, waited: true }, ..self },
                Ok(Action::Submit { slot, after: self.join_target() }),
            ),
            _ => (self, Err(StepError::OutOfOrder)),
        }
    }

    pub open spec fn flushed(self, outcome: FlushOutcome<F>) -> Step<F> {
        match self.phase {
            Phase::Submitting { slot, waited } => {
                let done = SchedulerView {
                    phase: Phase::Idle,
                    previous: Some(slot),
                    ..self
                };
                match outcome {
                    FlushOutcome::Flushed(handle) => (
                        SchedulerView {
                            fences: self.fences.update(
                                slot as int,
                                Some(SlotFence { handle, id: Ghost(self.next_fence) }),
                            ),
                            next_fence: self.next_fence + 1,
                            ..done
                        },
                        Ok(Action::EndTick),
                    ),
                    FlushOutcome::OutOfDate => (
                        SchedulerView {
                            fences: self.fences.update(slot as int, None),
                            resize: self.resize.stale(),
                            ..done
                        },
                        Ok(Action::EndTick),
                    ),
                    FlushOutcome::Failed => (
                        SchedulerView { fences: self.fences.update(slot as int, None), ..done },
                        Ok(Action::EndTick),
                    ),
                    FlushOutcome::DeviceLost => (
                        SchedulerView { phase: Phase::Lost, ..self },
                        Ok(Action::Fatal),
                    ),
                }
            },
            _ => (self, Err(StepError::OutOfOrder)),
        }
    }

    pub open spec fn device_lost(self) -> Step<F> {
        (SchedulerView { phase: Phase::Lost, ..self }, Ok(Action::Fatal))
    }
}

/// The acquire / wait / submit / present state machine of one swapchain,
/// with its fence table and its resize coordinator.
///
/// Each tick runs `begin_tick`, then the step that answers each action the
/// host performed, until the answer is `EndTick`, `SkipTick` or `Fatal`.
/// `F` is the host's completion fence.
pub struct FrameScheduler<F> {
    phase: Phase,
    fences: FenceTable<F>,
    previous: Option<usize>,
    resize: ResizeCoordinator,
}

impl<F> View for FrameScheduler<F> {
    type V = SchedulerView<F>;

    closed spec fn view(&self) -> SchedulerView<F> {
        SchedulerView {
            phase: self.phase,
            fences: self.fences.entries(),
            next_fence: self.fences.next_id(),
            previous: self.previous,
            resize: self.resize@,
        }
    }
}

impl<F> FrameScheduler<F> {
    /// An engine for a freshly created swapchain of `image_count` images.
    pub fn new(image_count: usize) -> (r: FrameScheduler<F>)
        ensures
            r@ == SchedulerView::<F>::init(image_count as nat),
            r@.wf(),
    {
        FrameScheduler {
            phase: Phase::Idle,
            fences: FenceTable::new(image_count),
            previous: None,
            resize: ResizeCoordinator::new(),
        }
    }

    pub fn phase(&self) -> (r: Phase)
        ensures
            r == self@.phase,
    {
        self.phase
    }

    /// The number of swapchain images the fence table is sized for.
    pub fn image_count(&self) -> (r: usize)
        ensures
            r == self@.fences.len(),
    {
        self.fences.len()
    }

    pub fn resize_flags(&self) -> (r: ResizeFlags)
        ensures
            r == self@.resize,
    {
        ResizeFlags {
            pending_resize: self.resize.pending_resize(),
            pending_recreate: self.resize.pending_recreate(),
        }
    }

    pub fn previous_slot(&self) -> (r: Option<usize>)
        ensures
            r == self@.previous,
    {
        self.previous
    }

    /// The completion fence stored for image `slot`, if any.
    pub fn fence(&self, slot: usize) -> (r: Option<&F>)
        ensures
            slot >= self@.fences.len() ==> r.is_none(),
            slot < self@.fences.len() ==> r.is_some() == self@.fences[slot as int].is_some(),
            r.is_some() ==> *r.unwrap() == self@.fences[slot as int].unwrap().handle,
    {
        self.fences.fence(slot)
    }

    /// The window changed size; taken in any phase.
    pub fn notify_resize(&mut self)
        requires
            old(self)@.wf(),
        ensures
            final(self)@ == old(self)@.notify_resize(),
            final(self)@.wf(),
    {
        self.resize.notify_resize();
    }

    fn join_target(&self) -> (r: Option<usize>)
        requires
            self@.wf(),
        ensures
            r == self@.join_target(),
    {
        match self.previous {
            Some(p) => if p < self.fences.len() && self.fences.is_fenced(p) {
                Some(p)
            } else {
                None
            },
            None => None,
        }
    }

    /// Starts a tick with the surface at `extent`: a pending rebuild comes
    /// first, else the next image is acquired.
    pub fn begin_tick(&mut self, extent: Extent) -> (r: Result<Action, StepError>)
        requires
            old(self)@.wf(),
        ensures
            (final(self)@, r) == old(self)@.begin_tick(extent),
            final(self)@.wf(),
    {
        if !matches!(self.phase, Phase::Idle) {
            return Err(StepError::OutOfOrder);
        }
        match self.resize.maybe_rebuild(extent) {
            Rebuild::Nothing => {
                self.phase = Phase::Acquiring;
                Ok(Action::Acquire)
            },
            Rebuild::Deferred => Ok(Action::SkipTick),
            _ => {
                self.phase = Phase::RecreatingSwapchain { extent };
                Ok(Action::RecreateSwapchain { extent })
            },
        }
    }

    /// The swapchain was recreated with `image_count` images. Every earlier
    /// fence refers to a destroyed image and is dropped.
    pub fn swapchain_recreated(&mut self, image_count: usize) -> (r: Result<Action, StepError>)
        requires
            old(self)@.wf(),
        ensures
            (final(self)@, r) == old(self)@.swapchain_recreated(image_count as nat),
            final(self)@.wf(),
    {
        let extent = match self.phase {
            Phase::RecreatingSwapchain { extent } => extent,
            _ => return Err(StepError::OutOfOrder),
        };
        self.fences.reset(image_count);
        self.previous = None;
        self.resize.swapchain_rebuilt();
        if self.resize.pending_resize() {
            self.phase = Phase::RebuildingPipeline { extent };
            Ok(Action::RebuildPipeline { extent })
        } else {
            self.phase = Phase::Acquiring;
            Ok(Action::Acquire)
        }
    }

    /// The swapchain could not be recreated (a degenerate extent, say): the
    /// tick is skipped and the flags stay set for the next one.
    pub fn recreate_failed(&mut self) -> (r: Result<Action, StepError>)
        requires
            old(self)@.wf(),
        ensures
            (final(self)@, r) == old(self)@.recreate_failed(),
            final(self)@.wf(),
    {
        if !matches!(self.phase, Phase::RecreatingSwapchain { .. }) {
            return Err(StepError::OutOfOrder);
        }
        self.phase = Phase::Idle;
        Ok(Action::SkipTick)
    }

    /// The pipeline was rebuilt for the new extent.
    pub fn pipeline_rebuilt(&mut self) -> (r: Result<Action, StepError>)
        requires
            old(self)@.wf(),
        ensures
            (final(self)@, r) == old(self)@.pipeline_rebuilt(),
            final(self)@.wf(),
    {
        if !matches!(self.phase, Phase::RebuildingPipeline { .. }) {
            return Err(StepError::OutOfOrder);
        }
        self.resize.pipeline_rebuilt();
        self.phase = Phase::Acquiring;
        Ok(Action::Acquire)
    }

    /// Acquiring the next image gave `outcome`.
    pub fn acquired(&mut self, outcome: AcquireOutcome) -> (r: Result<Action, StepError>)
        requires
            old(self)@.wf(),
        ensures
            (final(self)@, r) == old(self)@.acquired(outcome),
            final(self)@.wf(),
    {
        if !matches!(self.phase, Phase::Acquiring) {
            return Err(StepError::OutOfOrder);
        }
        match outcome {
            AcquireOutcome::Acquired { slot, suboptimal } => {
                if slot >= self.fences.len() {
                    self.resize.notify_stale();
                    self.phase = Phase::Idle;
                    return Err(StepError::SlotOutOfRange);
                }
                if suboptimal {
                    self.resize.notify_stale();
                }
                if self.fences.is_fenced(slot) {
                    self.phase = Phase::Waiting { slot };
                    Ok(Action::WaitFence { slot })
                } else {
                    let after = self.join_target();
                    self.phase = Phase::Submitting { slot, waited: false };
                    Ok(Action::Submit { slot, after })
                }
            },
            AcquireOutcome::OutOfDate => {
                self.resize.notify_stale();
                self.phase = Phase::Idle;
                Ok(Action::SkipTick)
            },
            AcquireOutcome::DeviceLost => {
                self.phase = Phase::Lost;
                Ok(Action::Fatal)
            },
            AcquireOutcome::Failed => {
                self.phase = Phase::Idle;
                Ok(Action::SkipTick)
            },
        }
    }

    /// The fence of the acquired image signalled.
    pub fn fence_waited(&mut self) -> (r: Result<Action, StepError>)
        requires
            old(self)@.wf(),
        ensures
            (final(self)@, r) == old(self)@.fence_waited(),
            final(self)@.wf(),
    {
        let slot = match self.phase {
            Phase::Waiting { slot } => slot,
            _ => return Err(StepError::OutOfOrder),
        };
        let after = self.join_target();
        self.phase = Phase::Submitting { slot, waited: true };
        Ok(Action::Submit { slot, after })
    }

    /// Submitting, presenting and flushing gave `outcome`. A new fence
    /// replaces the slot's old one; on failure the slot keeps none.
    pub fn flushed(&mut self, outcome: FlushOutcome<F>) -> (r: Result<Action, StepError>)
        requires
            old(self)@.wf(),
        ensures
            (final(self)@, r) == old(self)@.flushed(outcome),
            final(self)@.wf(),
    {
        let slot = match self.phase {
            Phase::Submitting { slot, .. } => slot,
            _ => return Err(StepError::OutOfOrder),
        };
        match outcome {
            FlushOutcome::Flushed(handle) => {
                self.fences.replace(slot, handle);
            },
            FlushOutcome::OutOfDate => {
                self.fences.clear(slot);
                self.resize.notify_stale();
            },
            FlushOutcome::Failed => {
                self.fences.clear(slot);
            },
            FlushOutcome::DeviceLost => {
                self.phase = Phase::Lost;
                return Ok(Action::Fatal);
            },
        }
        self.previous = Some(slot);
        self.phase = Phase::Idle;
        Ok(Action::EndTick)
    }

    /// The device was lost, in any phase.
    pub fn device_lost(&mut self) -> (r: Result<Action, StepError>)
        requires
            old(self)@.wf(),
        ensures
            (final(self)@, r) == old(self)@.device_lost(),
            final(self)@.wf(),
    {
        self.phase = Phase::Lost;
        Ok(Action::Fatal)
    }
}

} // verus!
