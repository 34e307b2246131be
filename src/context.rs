use vstd::prelude::*;

use crate::error::GpuError;

verus! {

/// Vendor id that Mesa's software Vulkan renderer (lavapipe) reports. It runs
/// compute programs on the CPU and is refused rather than used in a degraded mode.
pub const SOFTWARE_RENDERER_VENDOR: u64 = 0x10005;

/// What an adapter says about itself.
#[derive(Clone, Copy, Debug, PartialEq, Eq, Structural)]
pub struct AdapterIdentity {
    pub vendor: u64,
    pub device: u64,
}

/// Where the opening of a device context stands.
#[derive(Clone, Copy, Debug, PartialEq, Eq, Structural)]
pub enum InitState {
    AwaitingAdapter,
    AwaitingDevice,
    Ready,
    Failed(GpuError),
}

/// An answer of the GPU backend.
#[derive(Clone, Copy, Debug, PartialEq, Eq, Structural)]
pub enum InitEvent {
    /// The adapter request came back, with the adapter's identity if one was found.
    AdapterReported(Option<AdapterIdentity>),
    /// The device request came back; `true` if a device and queue were opened.
    DeviceReported(bool),
}

/// What the caller is to do next.
#[derive(Clone, Copy, Debug, PartialEq, Eq, Structural)]
pub enum InitAction {
    /// Open a device and queue on the adapter, with default features and limits.
    RequestDevice,
    /// Open the command-recording session; the context is then complete.
    OpenSession,
    /// Give up with this error; nothing further is to be allocated.
    Fail(GpuError),
    /// The event does not apply in this state.
    Nothing,
}

pub open spec fn is_software_renderer(id: AdapterIdentity) -> bool {
    id.vendor == SOFTWARE_RENDERER_VENDOR
}

/// One transition of context setup.
pub open spec fn init_step(s: InitState, e: InitEvent) -> (InitState, InitAction) {
    match (s, e) {
        (InitState::AwaitingAdapter, InitEvent::AdapterReported(None)) => (
            InitState::Failed(GpuError::AdapterUnavailable),
            InitAction::Fail(GpuError::AdapterUnavailable),
        ),
        (InitState::AwaitingAdapter, InitEvent::AdapterReported(Some(id))) => if is_software_renderer(id) {
            (
                InitState::Failed(GpuError::UnsupportedAdapter { vendor: id.vendor }),
                InitAction::Fail(GpuError::UnsupportedAdapter { vendor: id.vendor }),
            )
        } else {
            (InitState::AwaitingDevice, InitAction::RequestDevice)
        },
        (InitState::AwaitingDevice, InitEvent::DeviceReported(true)) => (InitState::Ready, InitAction::OpenSession),
        (InitState::AwaitingDevice, InitEvent::DeviceReported(false)) => (
            InitState::Failed(GpuError::AdapterUnavailable),
            InitAction::Fail(GpuError::AdapterUnavailable),
        ),
        _ => (s, InitAction::Nothing),
    }
}

/// The state reached and the actions issued over a sequence of events.
pub open spec fn run_init(s: InitState, events: Seq<InitEvent>) -> (InitState, Seq<InitAction>)
    decreases events.len(),
{
    if events.len() == 0 {
        (s, Seq::empty())
    } else {
        let (next, a) = init_step(s, events[0]);
        let (last, rest) = run_init(next, events.drop_first());
        (last, seq![a] + rest)
    }
}

/// The opening of one device context: adapter first, then device and queue,
/// then the command-recording session.
pub struct ContextSetup {
    pub state: InitState,
}

impl ContextSetup {
    pub fn new() -> (r: ContextSetup)
        ensures
            r.state == InitState::AwaitingAdapter,
    {
        ContextSetup { state: InitState::AwaitingAdapter }
    }

    /// Takes the backend's answer and says what to do next.
    pub fn step(&mut self, e: InitEvent) -> (a: InitAction)
        ensures
            (final(self).state, a) == init_step(old(self).state, e),
    {
        let s = self.state;
        let (next, a) = match (s, e) {
            (InitState::AwaitingAdapter, InitEvent::AdapterReported(None)) => (
                InitState::Failed(GpuError::AdapterUnavailable),
                InitAction::Fail(GpuError::AdapterUnavailable),
            ),
            (InitState::AwaitingAdapter, InitEvent::AdapterReported(Some(id))) => {
                if id.vendor == SOFTWARE_RENDERER_VENDOR {
                    (
                        InitState::Failed(GpuError::UnsupportedAdapter { vendor: id.vendor }),
                        InitAction::Fail(GpuError::UnsupportedAdapter { vendor: id.vendor }),
                    )
                } else {
                    (InitState::AwaitingDevice, InitAction::RequestDevice)
                }
            },
            (InitState::AwaitingDevice, InitEvent::DeviceReported(true)) => (InitState::Ready, InitAction::OpenSession),
            (InitState::AwaitingDevice, InitEvent::DeviceReported(false)) => (
                InitState::Failed(GpuError::AdapterUnavailable),
                InitAction::Fail(GpuError::AdapterUnavailable),
            ),
            _ => (s, InitAction::Nothing),
        };
        self.state = next;
        a
    }

    pub fn is_ready(&self) -> (r: bool)
        ensures
            r == (self.state == InitState::Ready),
    {
        match self.state {
            InitState::Ready => true,
            _ => false,
        }
    }
}

/// A failed setup stays failed and asks for nothing more.
pub proof fn lemma_failed_is_final(err: GpuError, events: Seq<InitEvent>)
    ensures
        run_init(InitState::Failed(err), events).0 == InitState::Failed(err),
        forall|i: int|
            0 <= i < events.len() ==> #[trigger] run_init(InitState::Failed(err), events).1[i]
                == InitAction::Nothing,
        run_init(InitState::Failed(err), events).1.len() == events.len(),
    decreases events.len(),
{
    if events.len() > 0 {
        lemma_failed_is_final(err, events.drop_first());
        let rest = run_init(InitState::Failed(err), events.drop_first()).1;
        assert forall|i: int| 0 <= i < events.len() implies #[trigger] run_init(
            InitState::Failed(err),
            events,
        ).1[i] == InitAction::Nothing by {
            if i > 0 {
                assert(run_init(InitState::Failed(err), events).1[i] == rest[i - 1]);
            }
        }
    }
}

/// Once the adapter reports itself as the software-only renderer, setup fails
/// with `UnsupportedAdapter`, and no device, queue or session is ever requested,
/// whatever the backend answers afterwards.
pub proof fn lemma_software_adapter_is_refused(id: AdapterIdentity, later: Seq<InitEvent>)
    requires
        is_software_renderer(id),
    ensures
        ({
            let (s, acts) = run_init(
                InitState::AwaitingAdapter,
                seq![InitEvent::AdapterReported(Some(id))] + later,
            );
            &&& s == InitState::Failed(GpuError::UnsupportedAdapter { vendor: id.vendor })
            &&& acts[0] == InitAction::Fail(GpuError::UnsupportedAdapter { vendor: id.vendor })
            &&& forall|i: int|
                0 <= i < acts.len() ==> #[trigger] acts[i] != InitAction::RequestDevice
                    && acts[i] != InitAction::OpenSession
        }),
{
    let events = seq![InitEvent::AdapterReported(Some(id))] + later;
    let err = GpuError::UnsupportedAdapter { vendor: id.vendor };
    assert(events.drop_first() =~= later);
    lemma_failed_is_final(err, later);
    let acts = run_init(InitState::AwaitingAdapter, events).1;
    let rest = run_init(InitState::Failed(err), later).1;
    assert forall|i: int| 0 <= i < acts.len() implies #[trigger] acts[i] != InitAction::RequestDevice
        && acts[i] != InitAction::OpenSession by {
        if i > 0 {
            assert(acts[i] == rest[i - 1]);
        }
    }
}

} // verus!
