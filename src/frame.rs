//! The frames-in-flight cycle. `DrawManager` decides, draw by draw, which
//! frame slot is used, whether its fence must be waited on, when its bin of
//! retired resources may be destroyed, when the swapchain is rebuilt, and
//! when the frame counter advances. The caller performs each step on the
//! device and reports back what happened.
//!
//! One draw is: `begin_draw`, then `fence_waited`, then `image_acquired`;
//! when an image was acquired, recording (with `defer_destroy` for what the
//! frame retires), `submitted`, and `done` with the result of presenting.

use crate::resources::ResourceAllocator;
use crate::settings::{Resolution, Settings};
use vstd::prelude::*;

verus! {

/// The host's knowledge of one frame slot's fence.
#[derive(Clone, Copy, Debug, PartialEq, Eq, Structural)]
pub enum FenceState {
    /// Signaled, and nothing waits behind it (the state it is created in).
    Signaled,
    /// Reset after a wait, with no work submitted against it since.
    Unsignaled,
    /// Work was submitted that signals it; it may not have completed yet.
    Pending,
}

/// The swapchain's lifecycle as the draw loop sees it.
#[derive(Clone, Copy, Debug, PartialEq, Eq, Structural)]
pub enum SwapchainState {
    Live,
    /// A resize was requested or the surface reported itself out of date:
    /// the next draw rebuilds it first.
    Stale,
    Destroyed,
}

/// Where a draw stands.
#[derive(Clone, Copy, Debug, PartialEq, Eq, Structural)]
pub enum DrawPhase {
    Idle,
    AwaitingFence,
    Acquiring,
    Recording,
    Presenting,
    Shutdown,
}

/// A resource waiting for destruction, with the draw number of the last
/// draw whose commands used it.
#[derive(Clone, Copy, Debug, PartialEq, Eq)]
pub struct Retired<T> {
    pub resource: T,
    pub last_use: u64,
}

/// What the caller does to start a draw: rebuild the swapchain for the
/// given resolution if asked, then wait on slot `slot`'s fence if asked.
#[derive(Clone, Copy, Debug, PartialEq, Eq, Structural)]
pub struct FrameStart {
    pub slot: usize,
    pub wait_for_fence: bool,
    pub rebuild_swapchain: Option<Resolution>,
}

/// The result of acquiring a swapchain image.
#[derive(Clone, Copy, Debug, PartialEq, Eq, Structural)]
pub enum AcquireResult {
    Image(u32),
    /// The surface is out of date.
    Stale,
}

/// The result of presenting.
#[derive(Clone, Copy, Debug, PartialEq, Eq, Structural)]
pub enum PresentResult {
    Presented,
    /// The surface is out of date; the frame's work was still submitted.
    Stale,
}

/// The state of the frame cycle, with the bins of resources that wait for a
/// frame slot's fence (`resources.frame_resources[i]` for slot `i`).
pub struct DrawManager<T> {
    pub buffering: u32,
    /// The number of completed draws.
    pub frame_count: u64,
    pub fences: Vec<FenceState>,
    /// Per slot, the draw number of the last submission that signals its fence.
    pub last_submitted: Vec<Option<u64>>,
    /// Per slot, the draw number of the last submission whose fence signal
    /// the host has observed.
    pub last_completed: Vec<Option<u64>>,
    pub phase: DrawPhase,
    pub swapchain: SwapchainState,
    /// The resolution the swapchain is built for.
    pub resolution: Resolution,
    /// The swapchain image acquired for the draw being recorded.
    pub image_index: u32,
    pub resources: ResourceAllocator<Retired<T>>,
}

/// The number of slots whose fence has work pending.
pub open spec fn pending_count(fences: Seq<FenceState>) -> nat
    decreases fences.len(),
{
    if fences.len() == 0 {
        0
    } else {
        (if fences.last() == FenceState::Pending {
            1nat
        } else {
            0nat
        }) + pending_count(fences.drop_last())
    }
}

impl<T> DrawManager<T> {
    /// The frame slot of the current draw.
    pub open spec fn slot(&self) -> int {
        self.frame_count as int % self.buffering as int
    }

    /// What an entry of bin `i` may be: retired by a draw of slot `i` that
    /// is either being recorded now or has been submitted against slot
    /// `i`'s fence.
    pub open spec fn entry_ok(&self, i: int, e: Retired<T>) -> bool {
        &&& e.last_use as int % self.buffering as int == i
        &&& e.last_use <= self.frame_count
        &&& (self.phase == DrawPhase::Recording && i == self.slot() && e.last_use == self.frame_count)
            || (self.last_submitted@[i] matches Some(s) && e.last_use <= s)
    }

    /// Entry `k` of slot `i`'s bin was last used no later than the last
    /// submission on slot `i` whose completion the host has observed.
    pub open spec fn retired_in_time(&self, i: int, k: int) -> bool {
        self.last_completed@[i] matches Some(c) && self.resources.frame_bin(i)[k].last_use <= c
    }

    pub open spec fn wf(&self) -> bool {
        &&& self.buffering >= 1
        &&& self.fences@.len() == self.buffering
        &&& self.last_submitted@.len() == self.buffering
        &&& self.last_completed@.len() == self.buffering
        &&& self.resources.buffering() == self.buffering
        &&& forall|i: int|
            0 <= i < self.buffering ==> (#[trigger] self.fences@[i] == FenceState::Pending
                ==> self.last_submitted@[i] is Some)
        &&& forall|i: int|
            0 <= i < self.buffering ==> (#[trigger] self.last_completed@[i] matches Some(c) ==> (
            self.last_submitted@[i] matches Some(s) && c <= s))
        &&& forall|i: int|
            0 <= i < self.buffering ==> (#[trigger] self.last_submitted@[i] matches Some(s) ==> s
                <= self.frame_count)
        &&& (self.phase == DrawPhase::Acquiring || self.phase == DrawPhase::Recording)
            ==> self.fences@[self.slot()] == FenceState::Unsignaled
        &&& self.phase == DrawPhase::Presenting ==> self.fences@[self.slot()] == FenceState::Pending
            && self.last_submitted@[self.slot()] == Some(self.frame_count)
        &&& (self.swapchain == SwapchainState::Destroyed <==> self.phase == DrawPhase::Shutdown)
        &&& forall|i: int, k: int|
            0 <= i < self.buffering && 0 <= k < self.resources.frame_bin(i).len() ==> self.entry_ok(
                i,
                #[trigger] self.resources.frame_bin(i)[k],
            )
    }

    /// A cycle of `settings.buffering` slots whose fences start signaled,
    /// with empty bins and a live swapchain at `settings.resolution`.
    pub fn new(settings: &Settings) -> (r: DrawManager<T>)
        requires
            settings.buffering >= 1,
        ensures
            r.wf(),
            r.buffering == settings.buffering,
            r.frame_count == 0,
            r.phase == DrawPhase::Idle,
            r.swapchain == SwapchainState::Live,
            r.resolution == settings.resolution,
            forall|i: int| 0 <= i < r.buffering ==> #[trigger] r.fences@[i] == FenceState::Signaled,
            forall|i: int| 0 <= i < r.buffering ==> #[trigger] r.last_submitted@[i] is None,
            forall|i: int| 0 <= i < r.buffering ==> #[trigger] r.last_completed@[i] is None,
            forall|i: int| 0 <= i < r.buffering ==> #[trigger] r.resources.frame_bin(i).len() == 0,
            r.resources.global_resources@.len() == 0,
    {
        let buffering = settings.buffering;
        let mut fences: Vec<FenceState> = Vec::new();
        let mut last_submitted: Vec<Option<u64>> = Vec::new();
        let mut last_completed: Vec<Option<u64>> = Vec::new();
        let mut i: u32 = 0;
        while i < buffering
            invariant
                i <= buffering,
                fences@.len() == i,
                last_submitted@.len() == i,
                last_completed@.len() == i,
                forall|j: int| 0 <= j < i ==> #[trigger] fences@[j] == FenceState::Signaled,
                forall|j: int| 0 <= j < i ==> #[trigger] last_submitted@[j] is None,
                forall|j: int| 0 <= j < i ==> #[trigger] last_completed@[j] is None,
            decreases buffering - i,
        {
            fences.push(FenceState::Signaled);
            last_submitted.push(None);
            last_completed.push(None);
            i += 1;
        }
        DrawManager {
            buffering,
            frame_count: 0,
            fences,
            last_submitted,
            last_completed,
            phase: DrawPhase::Idle,
            swapchain: SwapchainState::Live,
            resolution: settings.resolution,
            image_index: 0,
            resources: ResourceAllocator::new(buffering),
        }
    }

    /// The slot of the current draw: the frame counter modulo the number of
    /// frames in flight.
    pub fn get_current_frame_index(&self) -> (r: usize)
        requires
            self.wf(),
        ensures
            r as int == self.slot(),
            r < self.buffering,
    {
        (self.frame_count % (self.buffering as u64)) as usize
    }

    /// Requests a swapchain rebuild for `resolution`, which the next draw
    /// performs first. Nothing else changes; after shutdown, nothing does.
    pub fn handle_resize(&mut self, resolution: Resolution)
        requires
            old(self).wf(),
        ensures
            final(self).wf(),
            old(self).swapchain != SwapchainState::Destroyed ==> final(self).swapchain
                == SwapchainState::Stale && final(self).resolution == resolution,
            old(self).swapchain == SwapchainState::Destroyed ==> final(self).swapchain
                == SwapchainState::Destroyed && final(self).resolution == old(self).resolution,
            final(self).phase == old(self).phase,
            final(self).frame_count == old(self).frame_count,
            final(self).fences@ == old(self).fences@,
            final(self).last_submitted@ == old(self).last_submitted@,
            final(self).last_completed@ == old(self).last_completed@,
            final(self).image_index == old(self).image_index,
            final(self).resources == old(self).resources,
    {
        if self.swapchain != SwapchainState::Destroyed {
            self.swapchain = SwapchainState::Stale;
            self.resolution = resolution;
        }
    }

    /// Starts a draw on the current slot. A stale swapchain is to be rebuilt
    /// first, at the requested resolution; the fence is to be waited on
    /// unless it was reset with nothing submitted since (a draw that
    /// stopped at a stale image), since waiting then would never end.
    pub fn begin_draw(&mut self) -> (r: FrameStart)
        requires
            old(self).wf(),
            old(self).phase == DrawPhase::Idle,
        ensures
            final(self).wf(),
            r.slot as int == old(self).slot(),
            r.wait_for_fence == (old(self).fences@[old(self).slot()] != FenceState::Unsignaled),
            r.rebuild_swapchain == if old(self).swapchain == SwapchainState::Stale {
                Some(old(self).resolution)
            } else {
                None::<Resolution>
            },
            final(self).phase == DrawPhase::AwaitingFence,
            final(self).swapchain == SwapchainState::Live,
            final(self).resolution == old(self).resolution,
            final(self).frame_count == old(self).frame_count,
            final(self).buffering == old(self).buffering,
            final(self).fences@ == old(self).fences@,
            final(self).last_submitted@ == old(self).last_submitted@,
            final(self).last_completed@ == old(self).last_completed@,
            final(self).image_index == old(self).image_index,
            final(self).resources == old(self).resources,
    {
        let slot = self.get_current_frame_index();
        let rebuild_swapchain = if self.swapchain == SwapchainState::Stale {
            Some(self.resolution)
        } else {
            None
        };
        let wait_for_fence = self.fences[slot] != FenceState::Unsignaled;
        self.swapchain = SwapchainState::Live;
        self.phase = DrawPhase::AwaitingFence;
        FrameStart { slot, wait_for_fence, rebuild_swapchain }
    }

    /// The caller has waited on the slot's fence (when asked to) and reset
    /// it. Every submission against the slot has now completed, so the
    /// slot's bin is emptied and handed back for destruction: each resource
    /// in it was last used by a draw of this slot no later than the
    /// submission whose completion was just observed.
    pub fn fence_waited(&mut self) -> (r: Vec<Retired<T>>)
        requires
            old(self).wf(),
            old(self).phase == DrawPhase::AwaitingFence,
        ensures
            final(self).wf(),
            r@ == old(self).resources.frame_bin(old(self).slot()),
            forall|k: int|
                0 <= k < r@.len() ==> (#[trigger] r@[k]).last_use as int % old(self).buffering as int
                    == old(self).slot() && (final(self).last_completed@[old(self).slot()] matches Some(
                    c,
                ) && r@[k].last_use <= c),
            final(self).phase == DrawPhase::Acquiring,
            final(self).fences@ == old(self).fences@.update(old(self).slot(), FenceState::Unsignaled),
            final(self).last_completed@ == old(self).last_completed@.update(
                old(self).slot(),
                old(self).last_submitted@[old(self).slot()],
            ),
            final(self).image_index == old(self).image_index,
            final(self).last_submitted@ == old(self).last_submitted@,
            final(self).frame_count == old(self).frame_count,
            final(self).buffering == old(self).buffering,
            final(self).swapchain == old(self).swapchain,
            final(self).resolution == old(self).resolution,
            final(self).resources.frame_bin(old(self).slot()).len() == 0,
            forall|j: int|
                0 <= j < old(self).buffering && j != old(self).slot() ==> #[trigger] final(self).resources.frame_bin(j) == old(self).resources.frame_bin(j),
            final(self).resources.global_resources@ == old(self).resources.global_resources@,
    {
        let slot = self.get_current_frame_index();
        let submitted = self.last_submitted[slot];
        self.last_completed.set(slot, submitted);
        self.fences.set(slot, FenceState::Unsignaled);
        self.phase = DrawPhase::Acquiring;
        let r = self.resources.drop_frame_resources(slot);
        proof {
            assert forall|k: int| 0 <= k < r@.len() implies (#[trigger] r@[k]).last_use as int
                % old(self).buffering as int == old(self).slot() && (
            self.last_completed@[old(self).slot()] matches Some(c) && r@[k].last_use <= c) by {
                assert(old(self).entry_ok(slot as int, old(self).resources.frame_bin(slot as int)[k]));
            }
            assert forall|i: int, k: int|
                0 <= i < self.buffering && 0 <= k < self.resources.frame_bin(i).len()
                implies self.entry_ok(i, #[trigger] self.resources.frame_bin(i)[k]) by {
                assert(old(self).entry_ok(i, old(self).resources.frame_bin(i)[k]));
            }
        }
        r
    }

    /// Reports the result of acquiring an image. A stale surface ends the
    /// draw here: the swapchain is marked for rebuilding, and neither the
    /// frame counter nor the slot's fence moves (the fence stays reset, with
    /// nothing submitted against it). Otherwise recording starts.
    pub fn image_acquired(&mut self, result: AcquireResult) -> (record: bool)
        requires
            old(self).wf(),
            old(self).phase == DrawPhase::Acquiring,
        ensures
            final(self).wf(),
            record == (result is Image),
            result matches AcquireResult::Image(i) ==> final(self).phase == DrawPhase::Recording
                && final(self).image_index == i && final(self).swapchain == old(self).swapchain,
            result is Stale ==> final(self).phase == DrawPhase::Idle && final(self).swapchain
                == SwapchainState::Stale,
            final(self).frame_count == old(self).frame_count,
            final(self).buffering == old(self).buffering,
            final(self).resolution == old(self).resolution,
            final(self).fences@ == old(self).fences@,
            final(self).last_submitted@ == old(self).last_submitted@,
            final(self).last_completed@ == old(self).last_completed@,
            result is Stale ==> final(self).image_index == old(self).image_index,
            final(self).resources == old(self).resources,
    {
        match result {
            AcquireResult::Image(i) => {
                self.image_index = i;
                self.phase = DrawPhase::Recording;
                proof {
                    assert forall|i: int, k: int|
                        0 <= i < self.buffering && 0 <= k < self.resources.frame_bin(i).len()
                        implies self.entry_ok(i, #[trigger] self.resources.frame_bin(i)[k]) by {
                        assert(old(self).entry_ok(i, old(self).resources.frame_bin(i)[k]));
                    }
                }
                true
            },
            AcquireResult::Stale => {
                self.swapchain = SwapchainState::Stale;
                self.phase = DrawPhase::Idle;
                proof {
                    assert forall|i: int, k: int|
                        0 <= i < self.buffering && 0 <= k < self.resources.frame_bin(i).len()
                        implies self.entry_ok(i, #[trigger] self.resources.frame_bin(i)[k]) by {
                        assert(old(self).entry_ok(i, old(self).resources.frame_bin(i)[k]));
                    }
                }
                false
            },
        }
    }

    /// Retires a resource whose last use is recorded into the current draw:
    /// it joins the current slot's bin, stamped with the current draw number,
    /// and is handed back for destruction only after that slot's fence has
    /// signaled for this draw's submission.
    pub fn defer_destroy(&mut self, resource: T)
        requires
            old(self).wf(),
            old(self).phase == DrawPhase::Recording,
        ensures
            final(self).wf(),
            final(self).resources.frame_bin(old(self).slot()) == old(self).resources.frame_bin(
                old(self).slot(),
            ).push(Retired { resource, last_use: old(self).frame_count }),
            forall|j: int|
                0 <= j < old(self).buffering && j != old(self).slot() ==> #[trigger] final(self).resources.frame_bin(j)
                    == old(self).resources.frame_bin(j),
            final(self).resources.global_resources@ == old(self).resources.global_resources@,
            final(self).phase == old(self).phase,
            final(self).frame_count == old(self).frame_count,
            final(self).buffering == old(self).buffering,
            final(self).swapchain == old(self).swapchain,
            final(self).resolution == old(self).resolution,
            final(self).image_index == old(self).image_index,
            final(self).fences@ == old(self).fences@,
            final(self).last_submitted@ == old(self).last_submitted@,
            final(self).last_completed@ == old(self).last_completed@,
    {
        let slot = self.get_current_frame_index();
        let entry = Retired { resource, last_use: self.frame_count };
        self.resources.add(Some(slot), entry);
        proof {
            assert forall|i: int, k: int|
                0 <= i < self.buffering && 0 <= k < self.resources.frame_bin(i).len()
                implies self.entry_ok(i, #[trigger] self.resources.frame_bin(i)[k]) by {
                if i != slot || k < old(self).resources.frame_bin(i).len() {
                    assert(old(self).entry_ok(i, old(self).resources.frame_bin(i)[k]));
                }
            }
        }
    }

    /// Hands over a resource that lives until shutdown.
    pub fn add_global(&mut self, resource: T)
        requires
            old(self).wf(),
        ensures
            final(self).wf(),
            final(self).resources.global_resources@ == old(self).resources.global_resources@.push(
                Retired { resource, last_use: old(self).frame_count },
            ),
            forall|j: int|
                0 <= j < old(self).buffering ==> #[trigger] final(self).resources.frame_bin(j) == old(self).resources.frame_bin(j),
            final(self).phase == old(self).phase,
            final(self).frame_count == old(self).frame_count,
            final(self).buffering == old(self).buffering,
            final(self).swapchain == old(self).swapchain,
            final(self).resolution == old(self).resolution,
            final(self).image_index == old(self).image_index,
            final(self).fences@ == old(self).fences@,
            final(self).last_submitted@ == old(self).last_submitted@,
            final(self).last_completed@ == old(self).last_completed@,
    {
        let entry = Retired { resource, last_use: self.frame_count };
        self.resources.add(None, entry);
        proof {
            assert forall|i: int, k: int|
                0 <= i < self.buffering && 0 <= k < self.resources.frame_bin(i).len()
                implies self.entry_ok(i, #[trigger] self.resources.frame_bin(i)[k]) by {
                assert(old(self).entry_ok(i, old(self).resources.frame_bin(i)[k]));
            }
        }
    }

    /// The recorded commands were submitted, signaling the slot's fence on
    /// completion. The fence had been reset with nothing pending, so a
    /// slot never has two submissions in flight.
    pub fn submitted(&mut self)
        requires
            old(self).wf(),
            old(self).phase == DrawPhase::Recording,
        ensures
            final(self).wf(),
            old(self).fences@[old(self).slot()] == FenceState::Unsignaled,
            final(self).fences@ == old(self).fences@.update(old(self).slot(), FenceState::Pending),
            final(self).last_submitted@ == old(self).last_submitted@.update(
                old(self).slot(),
                Some(old(self).frame_count),
            ),
            final(self).phase == DrawPhase::Presenting,
            final(self).last_completed@ == old(self).last_completed@,
            final(self).frame_count == old(self).frame_count,
            final(self).buffering == old(self).buffering,
            final(self).swapchain == old(self).swapchain,
            final(self).resolution == old(self).resolution,
            final(self).image_index == old(self).image_index,
            final(self).resources == old(self).resources,
    {
        let slot = self.get_current_frame_index();
        self.fences.set(slot, FenceState::Pending);
        self.last_submitted.set(slot, Some(self.frame_count));
        self.phase = DrawPhase::Presenting;
        proof {
            assert forall|i: int|
                0 <= i < self.buffering implies (#[trigger] self.last_completed@[i] matches Some(c)
                ==> (self.last_submitted@[i] matches Some(s) && c <= s)) by {
                if i == slot {
                    assert(old(self).last_completed@[i] matches Some(c) ==> c <= old(self).frame_count);
                }
            }
            assert forall|i: int, k: int|
                0 <= i < self.buffering && 0 <= k < self.resources.frame_bin(i).len()
                implies self.entry_ok(i, #[trigger] self.resources.frame_bin(i)[k]) by {
                assert(old(self).entry_ok(i, old(self).resources.frame_bin(i)[k]));
            }
        }
    }

    /// The frame was presented, or the surface reported itself stale while
    /// presenting; either way its work is committed and the frame counter
    /// advances, so the next draw uses the next slot. A stale surface marks
    /// the swapchain for rebuilding.
    pub fn done(&mut self, result: PresentResult)
        requires
            old(self).wf(),
            old(self).phase == DrawPhase::Presenting,
            old(self).frame_count < u64::MAX,
        ensures
            final(self).wf(),
            final(self).frame_count == old(self).frame_count + 1,
            final(self).slot() == (old(self).slot() + 1) % old(self).buffering as int,
            final(self).phase == DrawPhase::Idle,
            result is Stale ==> final(self).swapchain == SwapchainState::Stale,
            result is Presented ==> final(self).swapchain == old(self).swapchain,
            final(self).buffering == old(self).buffering,
            final(self).resolution == old(self).resolution,
            final(self).fences@ == old(self).fences@,
            final(self).last_submitted@ == old(self).last_submitted@,
            final(self).last_completed@ == old(self).last_completed@,
            final(self).image_index == old(self).image_index,
            final(self).resources == old(self).resources,
    {
        self.frame_count = self.frame_count + 1;
        self.phase = DrawPhase::Idle;
        if let PresentResult::Stale = result {
            self.swapchain = SwapchainState::Stale;
        }
        proof {
            lemma_next_slot(old(self).frame_count as int, self.buffering as int);
            assert forall|i: int, k: int|
                0 <= i < self.buffering && 0 <= k < self.resources.frame_bin(i).len()
                implies self.entry_ok(i, #[trigger] self.resources.frame_bin(i)[k]) by {
                assert(old(self).entry_ok(i, old(self).resources.frame_bin(i)[k]));
            }
        }
    }
}

impl<T> DrawManager<T> {
    /// The host learned that the device is idle: every fence with work
    /// pending has signaled, and every submission has completed.
    pub fn device_idle(&mut self)
        requires
            old(self).wf(),
            old(self).phase == DrawPhase::Idle,
        ensures
            final(self).wf(),
            forall|i: int|
                0 <= i < old(self).buffering ==> #[trigger] final(self).fences@[i] == if old(self).fences@[i] == FenceState::Pending {
                    FenceState::Signaled
                } else {
                    old(self).fences@[i]
                },
            final(self).last_completed@ == old(self).last_submitted@,
            final(self).last_submitted@ == old(self).last_submitted@,
            final(self).phase == old(self).phase,
            final(self).frame_count == old(self).frame_count,
            final(self).buffering == old(self).buffering,
            final(self).swapchain == old(self).swapchain,
            final(self).resolution == old(self).resolution,
            final(self).image_index == old(self).image_index,
            final(self).resources == old(self).resources,
    {
        let n = self.fences.len();
        let mut i: usize = 0;
        while i < n
            invariant
                n == old(self).buffering,
                i <= n,
                self.fences@.len() == n,
                self.last_completed@.len() == n,
                self.last_submitted@.len() == n,
                self.last_submitted@ == old(self).last_submitted@,
                self.phase == old(self).phase,
                self.frame_count == old(self).frame_count,
                self.buffering == old(self).buffering,
                self.swapchain == old(self).swapchain,
                self.resolution == old(self).resolution,
                self.image_index == old(self).image_index,
                self.resources == old(self).resources,
                forall|j: int|
                    0 <= j < i ==> #[trigger] self.fences@[j] == if old(self).fences@[j]
                        == FenceState::Pending {
                        FenceState::Signaled
                    } else {
                        old(self).fences@[j]
                    },
                forall|j: int| i <= j < n ==> #[trigger] self.fences@[j] == old(self).fences@[j],
                forall|j: int| 0 <= j < i ==> #[trigger] self.last_completed@[j] == old(self).last_submitted@[j],
                forall|j: int| i <= j < n ==> #[trigger] self.last_completed@[j] == old(self).last_completed@[j],
            decreases n - i,
        {
            if self.fences[i] == FenceState::Pending {
                self.fences.set(i, FenceState::Signaled);
            }
            let submitted = self.last_submitted[i];
            self.last_completed.set(i, submitted);
            i += 1;
        }
        proof {
            assert(self.last_completed@ =~= old(self).last_submitted@);
            assert forall|i: int, k: int|
                0 <= i < self.buffering && 0 <= k < self.resources.frame_bin(i).len()
                implies self.entry_ok(i, #[trigger] self.resources.frame_bin(i)[k]) by {
                assert(old(self).entry_ok(i, old(self).resources.frame_bin(i)[k]));
            }
        }
    }

    /// Shuts the cycle down once the device is idle: every bin is emptied,
    /// frame bins in slot order and then the global bin, and handed back for
    /// destruction; the swapchain is destroyed. Each resource from slot
    /// `i`'s bin was last used no later than a submission on slot `i` whose
    /// completion the host has observed.
    pub fn shutdown(&mut self) -> (r: Vec<Retired<T>>)
        requires
            old(self).wf(),
            old(self).phase == DrawPhase::Idle,
            forall|i: int|
                0 <= i < old(self).buffering ==> #[trigger] old(self).fences@[i] != FenceState::Pending,
            old(self).last_completed@ == old(self).last_submitted@,
        ensures
            final(self).wf(),
            r@ == crate::resources::all_bins_flat(
                old(self).resources.frame_resources@,
                old(self).resources.global_resources@,
            ),
            forall|i: int, k: int|
                0 <= i < old(self).buffering && 0 <= k < old(self).resources.frame_bin(i).len()
                    ==> #[trigger] old(self).retired_in_time(i, k),
            final(self).phase == DrawPhase::Shutdown,
            final(self).swapchain == SwapchainState::Destroyed,
            forall|i: int| 0 <= i < old(self).buffering ==> #[trigger] final(self).resources.frame_bin(i).len() == 0,
            final(self).resources.global_resources@.len() == 0,
    {
        proof {
            assert forall|i: int, k: int|
                0 <= i < old(self).buffering && 0 <= k < old(self).resources.frame_bin(i).len()
                implies #[trigger] old(self).retired_in_time(i, k) by {
                assert(old(self).entry_ok(i, old(self).resources.frame_bin(i)[k]));
            }
        }
        let r = self.resources.drop();
        self.phase = DrawPhase::Shutdown;
        self.swapchain = SwapchainState::Destroyed;
        r
    }
}

/// Slots go round robin: `j` draws after draw `n` (for `j` below the
/// number of frames in flight) the slot is `n`'s slot plus `j`, wrapped
/// once past the last slot.
pub proof fn lemma_slot_after(n: int, j: int, buffering: int)
    requires
        n >= 0,
        0 <= j < buffering,
    ensures
        (n + j) % buffering == if n % buffering + j < buffering {
            n % buffering + j
        } else {
            n % buffering + j - buffering
        },
{
    vstd::arithmetic::div_mod::lemma_mod_bound(n, buffering);
    vstd::arithmetic::div_mod::lemma_add_mod_noop(n, j, buffering);
    vstd::arithmetic::div_mod::lemma_small_mod(j as nat, buffering as nat);
    vstd::arithmetic::div_mod::lemma_mod_twice(n, buffering);
    vstd::arithmetic::div_mod::lemma_add_mod_noop(n % buffering, j, buffering);
    let x = n % buffering + j;
    if x < buffering {
        vstd::arithmetic::div_mod::lemma_fundamental_div_mod_converse_mod(x, buffering, 0, x);
    } else {
        vstd::arithmetic::div_mod::lemma_fundamental_div_mod_converse_mod(
            x,
            buffering,
            1,
            x - buffering,
        );
    }
}

/// Whether one of the `buffering` draws starting at draw `n` uses slot `k`.
pub open spec fn slot_used_within(n: int, buffering: int, k: int) -> bool {
    exists|j: int| 0 <= j < buffering && #[trigger] ((n + j) % buffering) == k
}

/// Any `buffering` consecutive draws use every slot exactly once: no slot
/// is skipped and none repeats.
pub proof fn lemma_round_robin(n: int, buffering: int)
    requires
        n >= 0,
        buffering >= 1,
    ensures
        forall|j1: int, j2: int|
            0 <= j1 < buffering && 0 <= j2 < buffering && #[trigger] ((n + j1) % buffering)
                == #[trigger] ((n + j2) % buffering) ==> j1 == j2,
        forall|k: int| 0 <= k < buffering ==> #[trigger] slot_used_within(n, buffering, k),
{
    vstd::arithmetic::div_mod::lemma_mod_bound(n, buffering);
    assert forall|j1: int, j2: int|
        0 <= j1 < buffering && 0 <= j2 < buffering && #[trigger] ((n + j1) % buffering)
            == #[trigger] ((n + j2) % buffering) implies j1 == j2 by {
        lemma_slot_after(n, j1, buffering);
        lemma_slot_after(n, j2, buffering);
    }
    assert forall|k: int| 0 <= k < buffering implies #[trigger] slot_used_within(n, buffering, k) by {
        let j = if k >= n % buffering {
            k - n % buffering
        } else {
            k + buffering - n % buffering
        };
        lemma_slot_after(n, j, buffering);
        assert((n + j) % buffering == k);
    }
}

/// The number of fences with work pending is at most their number, and
/// below it when one of them has none.
pub proof fn lemma_pending_count_bound(fences: Seq<FenceState>)
    ensures
        pending_count(fences) <= fences.len(),
        (exists|i: int| 0 <= i < fences.len() && #[trigger] fences[i] != FenceState::Pending)
            ==> pending_count(fences) < fences.len(),
    decreases fences.len(),
{
    if fences.len() > 0 {
        lemma_pending_count_bound(fences.drop_last());
        if exists|i: int| 0 <= i < fences.len() && #[trigger] fences[i] != FenceState::Pending {
            let i = choose|i: int| 0 <= i < fences.len() && #[trigger] fences[i] != FenceState::Pending;
            if i < fences.len() - 1 {
                assert(fences.drop_last()[i] == fences[i]);
            }
        }
    }
}

/// At most `buffering` frames are in flight (submitted, fence not yet
/// observed signaled) at once, and fewer while a frame is being acquired
/// for or recorded, since its own slot then has nothing pending.
pub proof fn lemma_in_flight_bounded<T>(m: DrawManager<T>)
    requires
        m.wf(),
    ensures
        pending_count(m.fences@) <= m.buffering,
        (m.phase == DrawPhase::Acquiring || m.phase == DrawPhase::Recording) ==> pending_count(
            m.fences@,
        ) < m.buffering,
{
    lemma_pending_count_bound(m.fences@);
    if m.phase == DrawPhase::Acquiring || m.phase == DrawPhase::Recording {
        vstd::arithmetic::div_mod::lemma_mod_bound(m.frame_count as int, m.buffering as int);
        assert(m.fences@[m.slot()] != FenceState::Pending);
    }
}

/// The number of compute workgroups along one dimension: enough groups of
/// `group_size` to cover `extent` pixels.
pub fn dispatch_groups(extent: u32, group_size: u32) -> (r: u32)
    requires
        group_size >= 1,
    ensures
        (r as int) * (group_size as int) >= (extent as int),
        (r as int - 1) * (group_size as int) < (extent as int),
{
    let q = extent / group_size;
    let r = if extent % group_size == 0 {
        q
    } else {
        proof {
            let e = extent as int;
            let g = group_size as int;
            vstd::arithmetic::div_mod::lemma_fundamental_div_mod(e, g);
            vstd::arithmetic::div_mod::lemma_mod_bound(e, g);
            assert(g != 1) by {
                if g == 1 {
                    vstd::arithmetic::div_mod::lemma_mod_self_0(1);
                    vstd::arithmetic::div_mod::lemma_small_mod(0, 1);
                    vstd::arithmetic::div_mod::lemma_mod_bound(e, 1);
                }
            }
            assert(q < u32::MAX) by (nonlinear_arith)
                requires
                    e == g * (q as int) + e % g,
                    0 <= e % g,
                    g >= 2,
                    e <= u32::MAX,
                    q >= 0,
            ;
        }
        q + 1
    };
    proof {
        let e = extent as int;
        let g = group_size as int;
        vstd::arithmetic::div_mod::lemma_fundamental_div_mod(e, g);
        vstd::arithmetic::div_mod::lemma_mod_bound(e, g);
        assert((r as int) * g >= e && (r as int - 1) * g < e) by (nonlinear_arith)
            requires
                g >= 1,
                e == g * (e / g) + e % g,
                0 <= e % g < g,
                r as int == e / g + if e % g == 0 {
                    0int
                } else {
                    1int
                },
        ;
    }
    r
}

/// The slot after draw `n` is the one after draw `n`'s slot, wrapping to 0.
pub proof fn lemma_next_slot(n: int, buffering: int)
    requires
        n >= 0,
        buffering >= 1,
    ensures
        (n + 1) % buffering == (n % buffering + 1) % buffering,
        (n + 1) % buffering == if n % buffering == buffering - 1 {
            0
        } else {
            n % buffering + 1
        },
{
    vstd::arithmetic::div_mod::lemma_mod_bound(n, buffering);
    vstd::arithmetic::div_mod::lemma_mod_bound(n + 1, buffering);
    if buffering > 1 {
        vstd::arithmetic::div_mod::lemma_add_mod_noop(n, 1, buffering);
        vstd::arithmetic::div_mod::lemma_small_mod(1nat, buffering as nat);
        if n % buffering == buffering - 1 {
            vstd::arithmetic::div_mod::lemma_mod_self_0(buffering);
        } else {
            vstd::arithmetic::div_mod::lemma_small_mod(
                (n % buffering + 1) as nat,
                buffering as nat,
            );
        }
    }
}

} // verus!
