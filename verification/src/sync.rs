//! The frame synchronizer: the state machine at the heart of the present
//! loop.
//!
//! One iteration of the steady-state cycle polls the surface, acquires
//! the next presentable image, waits for the fence guarding that image's
//! previous submission, submits the image's command buffer, and presents.
//! A resize, an out-of-date report, or a suboptimal report diverts the
//! loop into recreation: drain every in-flight fence, replace the
//! swapchain wholesale, rebuild the per-generation frame resources, and
//! clear every fence slot. A close request drains and stops.
//!
//! The machine is pure. Everything that touches the windowing system or
//! the GPU is an [`Action`] handed to the caller; the caller performs it
//! and reports the result as the next [`Event`]. The transition function
//! is stated once, as the specification [`SyncModel::next`], and the
//! executable [`FrameSynchronizer::step`] is proved to implement it
//! exactly; the ordering laws of the loop are theorems about
//! [`SyncModel::next`] in [`crate::laws`].

use vstd::prelude::*;
use vstd::pervasive::VecAdditionalExecFns;
use crate::extent::Extent;
use crate::swapchain::SwapchainState;

verus! {

/// One fence slot per swapchain image index: either empty, or guarding
/// the most recent submission that targeted that image. The fence handle
/// itself lives with the caller; the machine tracks occupancy.
#[derive(Clone, Copy, Debug, PartialEq, Eq, Structural)]
pub enum FenceSlot {
    Empty,
    InFlight,
}

/// Which image index the previous iteration submitted to, if any; the
/// caller chains the next submission's wait dependency from this slot's
/// fence, approximating in-order frame pacing.
#[derive(Clone, Copy, Debug, PartialEq, Eq)]
pub struct FrameCursor {
    pub previous_image_index: Option<usize>,
}

/// The per-swapchain-generation derived state: a pipeline plus one
/// framebuffer and one command buffer per image. The objects live with
/// the caller; the machine tracks which generation is live and how many
/// per-image objects it holds. Exactly one generation is live at a time.
#[derive(Clone, Copy, Debug, PartialEq, Eq, Structural)]
pub struct FrameResources {
    pub generation: u64,
    pub image_count: usize,
}

/// What one non-blocking poll of the surface reported.
#[derive(Clone, Copy, Debug, PartialEq, Eq, Structural)]
pub struct SurfacePoll {
    pub extent: Extent,
    pub resized: bool,
    pub close_requested: bool,
}

/// How acquiring the next presentable image ended.
#[derive(Clone, Copy, Debug, PartialEq, Eq, Structural)]
pub enum AcquireOutcome {
    /// The engine handed out image `index`; `suboptimal` means the chain
    /// still works but no longer matches the surface well.
    Image { index: usize, suboptimal: bool },
    /// The chain no longer matches the surface; nothing was acquired.
    OutOfDate,
    /// Any other acquisition failure; fatal.
    Failed,
}

/// How submitting and presenting one image ended.
#[derive(Clone, Copy, Debug, PartialEq, Eq, Structural)]
pub enum PresentOutcome {
    /// The work was submitted and the present enqueued; the slot's fence
    /// will signal when the GPU retires it.
    Completed,
    /// The engine rejected the present as out of date; nothing reached
    /// the GPU, so the slot holds no fence.
    OutOfDate,
    /// Any other submit or present failure; fatal.
    Failed,
}

/// How one swapchain recreation attempt ended.
#[derive(Clone, Copy, Debug, PartialEq, Eq, Structural)]
pub enum RecreateOutcome {
    /// The chain was replaced and the frame resources rebuilt; the new
    /// chain holds `image_count` images.
    Done { image_count: usize },
    /// The surface rejected the attempted extent; transient.
    Unsupported,
    /// Any other presentation-engine failure; fatal.
    Failed,
}

/// What the caller reports back after performing an [`Action`].
#[derive(Clone, Copy, Debug, PartialEq, Eq, Structural)]
pub enum Event {
    Polled(SurfacePoll),
    Acquired(AcquireOutcome),
    /// The blocking wait on the announced fence returned successfully.
    FenceSignaled,
    /// The blocking wait on the announced fence failed; fatal.
    FenceFailed,
    Presented(PresentOutcome),
    /// Every occupied fence slot has signaled.
    Drained,
    Recreated(RecreateOutcome),
}

/// What the machine asks the caller to do next.
#[derive(Clone, Copy, Debug, PartialEq, Eq, Structural)]
pub enum Action {
    /// Poll the surface for its extent and the resize and close flags.
    Poll,
    /// Acquire the next presentable image, blocking until the engine
    /// hands one out or reports the chain out of date.
    Acquire,
    /// Block until the fence in slot `index` signals.
    WaitFence { index: usize },
    /// Submit the command buffer recorded for image `index`, chaining on
    /// the image-acquired signal, and present, recording the new fence
    /// into slot `index`.
    SubmitPresent { index: usize },
    /// Block until every occupied fence slot has signaled.
    DrainAll,
    /// Replace the swapchain at extent `target` and rebuild the frame
    /// resources against it.
    Recreate { target: Extent },
    /// The loop is over; release the device's resources. Every fence has
    /// been drained. `failure` says whether a fatal error ended it.
    Stop { failure: bool },
}

/// Where the machine stands, both between iterations and inside one.
#[derive(Clone, Copy, Debug, PartialEq, Eq, Structural)]
pub enum Phase {
    /// Start of a steady-state iteration: about to poll the surface.
    Ticking,
    /// The poll passed; acquiring the next image.
    Acquiring,
    /// Image `index` is acquired but its slot's previous submission has
    /// not been seen to retire; waiting on that fence.
    WaitingRetire { index: usize },
    /// Image `index` is acquired and its slot is free for reuse; its
    /// submission is in flight with the caller.
    Presenting { index: usize },
    /// Between recreation attempts: about to poll the surface for a
    /// fresh extent and the close flag.
    ResizePoll,
    /// Recreation is due at extent `target`; draining in-flight fences
    /// before the old images may be torn down.
    Draining { target: Extent },
    /// Drained; replacing the swapchain at extent `target`.
    Recreating { target: Extent },
    /// A close was requested; draining in-flight fences before the
    /// device's resources may be released.
    ShutdownDrain,
    /// Terminal: stopped cleanly after a close request.
    Stopped,
    /// Terminal: stopped on a fatal device failure.
    Failed,
}

/// The three states of the loop as the design describes them; each
/// [`Phase`] refines one of these.
#[derive(Clone, Copy, Debug, PartialEq, Eq, Structural)]
pub enum Mode {
    Running,
    AwaitingResize,
    ShuttingDown,
}

/// Which mode a phase refines.
pub open spec fn mode_of(p: Phase) -> Mode {
    match p {
        Phase::Ticking => Mode::Running,
        Phase::Acquiring => Mode::Running,
        Phase::WaitingRetire { .. } => Mode::Running,
        Phase::Presenting { .. } => Mode::Running,
        Phase::ResizePoll => Mode::AwaitingResize,
        Phase::Draining { .. } => Mode::AwaitingResize,
        Phase::Recreating { .. } => Mode::AwaitingResize,
        Phase::ShutdownDrain => Mode::ShuttingDown,
        Phase::Stopped => Mode::ShuttingDown,
        Phase::Failed => Mode::ShuttingDown,
    }
}

/// The mathematical state of the synchronizer: what
/// [`FrameSynchronizer`] views as, and what the transition function and
/// the laws speak about.
#[verifier::ext_equal]
pub ghost struct SyncModel {
    pub phase: Phase,
    pub swapchain: SwapchainState,
    pub slots: Seq<FenceSlot>,
    pub cursor: FrameCursor,
    pub resize_pending: bool,
    pub resources: FrameResources,
}

impl SyncModel {
    /// Well-formedness: the chain double-buffers at least, there is one
    /// fence slot per image, the live resource generation matches the
    /// chain, and every index the phase or the cursor holds is in range.
    /// An acquired image's slot is occupied exactly as the phase says.
    pub open spec fn inv(self) -> bool {
        &&& self.swapchain.spec_wf()
        &&& self.slots.len() == self.swapchain.image_count
        &&& self.resources.image_count == self.swapchain.image_count
        &&& (match self.phase {
            Phase::WaitingRetire { index } => index < self.slots.len() && self.slots[
                index as int
            ] is InFlight,
            Phase::Presenting { index } => index < self.slots.len() && self.slots[
                index as int
            ] is InFlight,
            _ => true,
        })
        &&& (self.cursor.previous_image_index matches Some(i) ==> i < self.slots.len())
        &&& (self.phase matches Phase::Recreating { .. } ==> forall|i: int|
            0 <= i < self.slots.len() ==> self.slots[i] is Empty)
        &&& (self.phase == Phase::Stopped ==> forall|i: int|
            0 <= i < self.slots.len() ==> self.slots[i] is Empty)
    }

    /// Whether the machine, in its current phase, is waiting for this
    /// kind of event. The caller always produces the matching kind,
    /// since it reports on the action the machine just announced.
    pub open spec fn accepts(self, e: Event) -> bool {
        match (self.phase, e) {
            (Phase::Ticking, Event::Polled(_)) => true,
            (Phase::Acquiring, Event::Acquired(_)) => true,
            (Phase::WaitingRetire { .. }, Event::FenceSignaled) => true,
            (Phase::WaitingRetire { .. }, Event::FenceFailed) => true,
            (Phase::Presenting { .. }, Event::Presented(_)) => true,
            (Phase::ResizePoll, Event::Polled(_)) => true,
            (Phase::Draining { .. }, Event::Drained) => true,
            (Phase::Recreating { .. }, Event::Recreated(_)) => true,
            (Phase::ShutdownDrain, Event::Drained) => true,
            _ => false,
        }
    }

    /// What the presentation engine guarantees of an event it produces:
    /// an acquired index addresses one of the chain's images, and a
    /// recreated chain still double-buffers. The generation counter must
    /// also have room left, a machine limit.
    pub open spec fn event_wf(self, e: Event) -> bool {
        match e {
            Event::Acquired(AcquireOutcome::Image { index, .. }) => index < self.slots.len(),
            Event::Recreated(RecreateOutcome::Done { image_count }) => image_count >= 2
                && self.resources.generation < u64::MAX,
            _ => true,
        }
    }

    /// The transition function: from a state and the event that answers
    /// its pending action, to the next state and the next action.
    pub open spec fn next(self, e: Event) -> (SyncModel, Action) {
        match (self.phase, e) {
            (Phase::Ticking, Event::Polled(p)) => if p.close_requested {
                (SyncModel { phase: Phase::ShutdownDrain, ..self }, Action::DrainAll)
            } else if p.resized || self.resize_pending || p.extent != self.swapchain.extent {
                (
                    SyncModel { phase: Phase::Draining { target: p.extent }, ..self },
                    Action::DrainAll,
                )
            } else {
                (SyncModel { phase: Phase::Acquiring, ..self }, Action::Acquire)
            },
            (Phase::Acquiring, Event::Acquired(o)) => match o {
                AcquireOutcome::Image { index, suboptimal } => {
                    let flagged = SyncModel {
                        resize_pending: self.resize_pending || suboptimal,
                        ..self
                    };
                    if self.slots[index as int] is InFlight {
                        (
                            SyncModel { phase: Phase::WaitingRetire { index }, ..flagged },
                            Action::WaitFence { index },
                        )
                    } else {
                        (
                            SyncModel {
                                phase: Phase::Presenting { index },
                                slots: flagged.slots.update(index as int, FenceSlot::InFlight),
                                ..flagged
                            },
                            Action::SubmitPresent { index },
                        )
                    }
                },
                AcquireOutcome::OutOfDate => (
                    SyncModel { phase: Phase::ResizePoll, ..self },
                    Action::Poll,
                ),
                AcquireOutcome::Failed => (
                    SyncModel { phase: Phase::Failed, ..self },
                    Action::Stop { failure: true },
                ),
            },
            (Phase::WaitingRetire { index }, Event::FenceSignaled) => (
                SyncModel {
                    phase: Phase::Presenting { index },
                    slots: self.slots.update(index as int, FenceSlot::InFlight),
                    ..self
                },
                Action::SubmitPresent { index },
            ),
            (Phase::WaitingRetire { .. }, Event::FenceFailed) => (
                SyncModel { phase: Phase::Failed, ..self },
                Action::Stop { failure: true },
            ),
            (Phase::Presenting { index }, Event::Presented(o)) => match o {
                PresentOutcome::Completed => (
                    SyncModel {
                        phase: Phase::Ticking,
                        cursor: FrameCursor { previous_image_index: Some(index) },
                        ..self
                    },
                    Action::Poll,
                ),
                PresentOutcome::OutOfDate => (
                    SyncModel {
                        phase: Phase::Ticking,
                        slots: self.slots.update(index as int, FenceSlot::Empty),
                        cursor: FrameCursor { previous_image_index: Some(index) },
                        resize_pending: true,
                        ..self
                    },
                    Action::Poll,
                ),
                PresentOutcome::Failed => (
                    SyncModel { phase: Phase::Failed, ..self },
                    Action::Stop { failure: true },
                ),
            },
            (Phase::ResizePoll, Event::Polled(p)) => if p.close_requested {
                (SyncModel { phase: Phase::ShutdownDrain, ..self }, Action::DrainAll)
            } else {
                (
                    SyncModel { phase: Phase::Draining { target: p.extent }, ..self },
                    Action::DrainAll,
                )
            },
            (Phase::Draining { target }, Event::Drained) => (
                SyncModel {
                    phase: Phase::Recreating { target },
                    slots: Seq::new(self.slots.len(), |i: int| FenceSlot::Empty),
                    ..self
                },
                Action::Recreate { target },
            ),
            (Phase::Recreating { target }, Event::Recreated(o)) => match o {
                RecreateOutcome::Done { image_count } => (
                    SyncModel {
                        phase: Phase::Ticking,
                        swapchain: SwapchainState { extent: target, image_count, ..self.swapchain },
                        slots: Seq::new(image_count as nat, |i: int| FenceSlot::Empty),
                        cursor: FrameCursor { previous_image_index: None },
                        resize_pending: false,
                        resources: FrameResources {
                            generation: (self.resources.generation + 1) as u64,
                            image_count,
                        },
                    },
                    Action::Poll,
                ),
                RecreateOutcome::Unsupported => (
                    SyncModel { phase: Phase::ResizePoll, ..self },
                    Action::Poll,
                ),
                RecreateOutcome::Failed => (
                    SyncModel { phase: Phase::Failed, ..self },
                    Action::Stop { failure: true },
                ),
            },
            (Phase::ShutdownDrain, Event::Drained) => (
                SyncModel {
                    phase: Phase::Stopped,
                    slots: Seq::new(self.slots.len(), |i: int| FenceSlot::Empty),
                    ..self
                },
                Action::Stop { failure: false },
            ),
            _ => (self, Action::Stop { failure: true }),
        }
    }

    /// The state a fresh synchronizer starts in.
    pub open spec fn init(swapchain: SwapchainState) -> SyncModel {
        SyncModel {
            phase: Phase::Ticking,
            swapchain,
            slots: Seq::new(swapchain.image_count as nat, |i: int| FenceSlot::Empty),
            cursor: FrameCursor { previous_image_index: None },
            resize_pending: false,
            resources: FrameResources { generation: 0, image_count: swapchain.image_count },
        }
    }
}

/// The executable synchronizer. Its fields are exactly the model's, with
/// the fence slots held in a vector; [`Self::step`] implements
/// [`SyncModel::next`] verbatim.
pub struct FrameSynchronizer {
    pub phase: Phase,
    pub swapchain: SwapchainState,
    pub slots: Vec<FenceSlot>,
    pub cursor: FrameCursor,
    pub resize_pending: bool,
    pub resources: FrameResources,
}

impl View for FrameSynchronizer {
    type V = SyncModel;

    open spec fn view(&self) -> SyncModel {
        SyncModel {
            phase: self.phase,
            swapchain: self.swapchain,
            slots: self.slots@,
            cursor: self.cursor,
            resize_pending: self.resize_pending,
            resources: self.resources,
        }
    }
}

/// One empty fence slot per image.
fn empty_slots(n: usize) -> (v: Vec<FenceSlot>)
    ensures
        v@ =~= Seq::new(n as nat, |i: int| FenceSlot::Empty),
{
    let mut v: Vec<FenceSlot> = Vec::new();
    let mut k: usize = 0;
    while k < n
        invariant
            k <= n,
            v@.len() == k,
            forall|i: int| 0 <= i < k ==> v@[i] == FenceSlot::Empty,
        decreases n - k,
    {
        v.push(FenceSlot::Empty);
        k = k + 1;
    }
    v
}

impl FrameSynchronizer {
    /// A synchronizer for a freshly created swapchain: steady state,
    /// every fence slot empty, no previous frame, resource generation
    /// zero. The first action to perform is a poll.
    pub fn new(swapchain: SwapchainState) -> (s: FrameSynchronizer)
        requires
            swapchain.spec_wf(),
        ensures
            s@ == SyncModel::init(swapchain),
            s@.inv(),
    {
        let slots = empty_slots(swapchain.image_count);
        let s = FrameSynchronizer {
            phase: Phase::Ticking,
            swapchain,
            slots,
            cursor: FrameCursor { previous_image_index: None },
            resize_pending: false,
            resources: FrameResources { generation: 0, image_count: swapchain.image_count },
        };
        proof {
            assert(s@ =~= SyncModel::init(swapchain));
        }
        s
    }

    /// Which of the design's three loop states the machine is in.
    pub fn mode(&self) -> (m: Mode)
        ensures
            m == mode_of(self@.phase),
    {
        match self.phase {
            Phase::Ticking => Mode::Running,
            Phase::Acquiring => Mode::Running,
            Phase::WaitingRetire { .. } => Mode::Running,
            Phase::Presenting { .. } => Mode::Running,
            Phase::ResizePoll => Mode::AwaitingResize,
            Phase::Draining { .. } => Mode::AwaitingResize,
            Phase::Recreating { .. } => Mode::AwaitingResize,
            Phase::ShutdownDrain => Mode::ShuttingDown,
            Phase::Stopped => Mode::ShuttingDown,
            Phase::Failed => Mode::ShuttingDown,
        }
    }

    /// Feed the machine the event answering its pending action; it moves
    /// to the next state and announces the next action, exactly as
    /// [`SyncModel::next`] says.
    pub fn step(&mut self, e: Event) -> (a: Action)
        requires
            old(self)@.inv(),
            old(self)@.accepts(e),
            old(self)@.event_wf(e),
        ensures
            final(self)@ == old(self)@.next(e).0,
            a == old(self)@.next(e).1,
            final(self)@.inv(),
    {
        let ghost pre = self@;
        let a: Action = match (self.phase, e) {
            (Phase::Ticking, Event::Polled(p)) => {
                if p.close_requested {
                    self.phase = Phase::ShutdownDrain;
                    Action::DrainAll
                } else if p.resized || self.resize_pending || !(p.extent == self.swapchain.extent) {
                    self.phase = Phase::Draining { target: p.extent };
                    Action::DrainAll
                } else {
                    self.phase = Phase::Acquiring;
                    Action::Acquire
                }
            },
            (Phase::Acquiring, Event::Acquired(o)) => {
                match o {
                    AcquireOutcome::Image { index, suboptimal } => {
                        if suboptimal {
                            self.resize_pending = true;
                        }
                        let occupied = match self.slots[index] {
                            FenceSlot::InFlight => true,
                            FenceSlot::Empty => false,
                        };
                        if occupied {
                            self.phase = Phase::WaitingRetire { index };
                            Action::WaitFence { index }
                        } else {
                            self.phase = Phase::Presenting { index };
                            self.slots.set(index, FenceSlot::InFlight);
                            Action::SubmitPresent { index }
                        }
                    },
                    AcquireOutcome::OutOfDate => {
                        self.phase = Phase::ResizePoll;
                        Action::Poll
                    },
                    AcquireOutcome::Failed => {
                        self.phase = Phase::Failed;
                        Action::Stop { failure: true }
                    },
                }
            },
            (Phase::WaitingRetire { index }, Event::FenceSignaled) => {
                self.phase = Phase::Presenting { index };
                self.slots.set(index, FenceSlot::InFlight);
                Action::SubmitPresent { index }
            },
            (Phase::WaitingRetire { .. }, Event::FenceFailed) => {
                self.phase = Phase::Failed;
                Action::Stop { failure: true }
            },
            (Phase::Presenting { index }, Event::Presented(o)) => {
                match o {
                    PresentOutcome::Completed => {
                        self.phase = Phase::Ticking;
                        self.cursor = FrameCursor { previous_image_index: Some(index) };
                        Action::Poll
                    },
                    PresentOutcome::OutOfDate => {
                        self.phase = Phase::Ticking;
                        self.slots.set(index, FenceSlot::Empty);
                        self.cursor = FrameCursor { previous_image_index: Some(index) };
                        self.resize_pending = true;
                        Action::Poll
                    },
                    PresentOutcome::Failed => {
                        self.phase = Phase::Failed;
                        Action::Stop { failure: true }
                    },
                }
            },
            (Phase::ResizePoll, Event::Polled(p)) => {
                if p.close_requested {
                    self.phase = Phase::ShutdownDrain;
                    Action::DrainAll
                } else {
                    self.phase = Phase::Draining { target: p.extent };
                    Action::DrainAll
                }
            },
            (Phase::Draining { target }, Event::Drained) => {
                self.phase = Phase::Recreating { target };
                let n = self.slots.len();
                self.slots = empty_slots(n);
                Action::Recreate { target }
            },
            (Phase::Recreating { target }, Event::Recreated(o)) => {
                match o {
                    RecreateOutcome::Done { image_count } => {
                        self.phase = Phase::Ticking;
                        self.swapchain = SwapchainState {
                            extent: target,
                            image_count,
                            ..self.swapchain
                        };
                        self.slots = empty_slots(image_count);
                        self.cursor = FrameCursor { previous_image_index: None };
                        self.resize_pending = false;
                        self.resources = FrameResources {
                            generation: self.resources.generation + 1,
                            image_count,
                        };
                        Action::Poll
                    },
                    RecreateOutcome::Unsupported => {
                        self.phase = Phase::ResizePoll;
                        Action::Poll
                    },
                    RecreateOutcome::Failed => {
                        self.phase = Phase::Failed;
                        Action::Stop { failure: true }
                    },
                }
            },
            (Phase::ShutdownDrain, Event::Drained) => {
                self.phase = Phase::Stopped;
                let n = self.slots.len();
                self.slots = empty_slots(n);
                Action::Stop { failure: false }
            },
            _ => {
                proof {
                    assert(false);
                }
                Action::Stop { failure: true }
            },
        };
        proof {
            assert(self@ =~= pre.next(e).0);
        }
        a
    }
}

/// A step taken from a well-formed state on an accepted, well-formed
/// event lands in a well-formed state.
pub proof fn lemma_next_preserves_inv(s: SyncModel, e: Event)
    requires
        s.inv(),
        s.accepts(e),
        s.event_wf(e),
    ensures
        s.next(e).0.inv(),
{
}

} // verus!
