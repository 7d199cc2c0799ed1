//! The GPU device context and the surfaces that are paired with it.

use super::contexts::{
    surface_map_get, surface_map_insert, surface_map_new, surface_map_states, surface_map_windows,
    SurfaceMap,
};
use super::surface::{
    initial_configuration, FrameDirective, GraphInterfaceContext, PhysicalSize, SurfaceCapabilities,
    SurfaceConfiguration, SurfaceError, SurfaceState, EXIT_GPU_FAILURE,
};
use super::windows::lemma_push_keeps_distinct;
use vstd::prelude::*;

verus! {

/// Which adapter to prefer where the machine has several.
#[derive(Debug, Clone, Copy, PartialEq, Eq, Structural)]
pub enum PowerPreference {
    LowPower,
    HighPerformance,
}

/// The limits that are asked of the logical device.
#[derive(Debug, Clone, Copy, PartialEq, Eq, Structural)]
pub enum LimitProfile {
    /// What every desktop backend offers.
    Default,
    /// The reduced set that a browser's WebGL2 backend offers.
    DownlevelWebgl2,
}

/// The one request for an adapter that is made at startup.
#[derive(Debug, Clone, Copy, PartialEq, Eq, Structural)]
pub struct AdapterRequest {
    pub power_preference: PowerPreference,
    /// The window whose surface the adapter must be able to present to.
    pub compatible_surface: Option<u64>,
    pub force_fallback_adapter: bool,
}

/// The one request for a logical device that is made at startup.
#[derive(Debug, Clone, Copy, PartialEq, Eq, Structural)]
pub struct DeviceRequest {
    /// Bit set of the optional features asked for.
    pub features: u64,
    pub limits: LimitProfile,
}

/// Why there is no usable device. Each of these ends the process.
#[derive(Debug, Clone, Copy, PartialEq, Eq, Structural)]
pub enum DeviceError {
    NoCompatibleAdapter,
    DeviceRequestFailed,
    OutOfMemory,
}

/// How far the device context has come.
#[derive(Debug, Clone, Copy, PartialEq, Eq, Structural)]
pub enum DeviceStatus {
    /// No adapter was selected yet.
    Uninitialized,
    /// An adapter was selected; the device was not granted yet.
    AdapterSelected,
    /// Adapter, device and queue are there.
    Ready,
    /// The device context is unusable for good.
    Failed(DeviceError),
}

impl DeviceError {
    /// The status with which the process ends on this error.
    pub fn exit_code(&self) -> (code: i32)
        ensures
            code == EXIT_GPU_FAILURE,
            code != 0,
    {
        EXIT_GPU_FAILURE
    }
}

/// The request for an adapter: a high-performance one, no fallback adapter,
/// able to present to the given surface.
pub fn adapter_request(compatible_surface: Option<u64>) -> (request: AdapterRequest)
    ensures
        request == (AdapterRequest {
            power_preference: PowerPreference::HighPerformance,
            compatible_surface,
            force_fallback_adapter: false,
        }),
{
    AdapterRequest {
        power_preference: PowerPreference::HighPerformance,
        compatible_surface,
        force_fallback_adapter: false,
    }
}

/// The request for a device: no optional feature, and the reduced limits
/// where the host is a constrained one.
pub open spec fn spec_device_request(constrained_host: bool) -> DeviceRequest {
    DeviceRequest {
        features: 0,
        limits: if constrained_host {
            LimitProfile::DownlevelWebgl2
        } else {
            LimitProfile::Default
        },
    }
}

#[verifier::when_used_as_spec(spec_device_request)]
pub fn device_request(constrained_host: bool) -> (request: DeviceRequest)
    ensures
        request == spec_device_request(constrained_host),
{
    DeviceRequest {
        features: 0,
        limits: if constrained_host {
            LimitProfile::DownlevelWebgl2
        } else {
            LimitProfile::Default
        },
    }
}

/// The device context of the process, with the surface of every window that
/// was paired with it.
pub struct GraphInterfaceResource {
    status: DeviceStatus,
    constrained_host: bool,
    contexts: SurfaceMap,
}

impl GraphInterfaceResource {
    pub closed spec fn status(&self) -> DeviceStatus {
        self.status
    }

    /// Whether the device is asked for with the reduced limits.
    pub closed spec fn constrained_host(&self) -> bool {
        self.constrained_host
    }

    /// The state of each window's surface.
    pub closed spec fn surfaces(&self) -> Map<u64, SurfaceState> {
        surface_map_states(self.contexts)
    }

    /// Whether frames are drawn to the window: the device is ready and the
    /// window's surface is configured.
    pub open spec fn presents_to(&self, window: u64) -> bool {
        &&& self.status() is Ready
        &&& self.surfaces().contains_key(window)
        &&& self.surfaces()[window] is Configured
    }

    /// A device context before startup, without any surface.
    pub fn new(constrained_host: bool) -> (resource: Self)
        ensures
            resource.status() == DeviceStatus::Uninitialized,
            resource.constrained_host() == constrained_host,
            resource.surfaces() == Map::<u64, SurfaceState>::empty(),
    {
        let contexts = surface_map_new();
        assert(surface_map_states(contexts) =~= Map::<u64, SurfaceState>::empty());
        GraphInterfaceResource { status: DeviceStatus::Uninitialized, constrained_host, contexts }
    }

    pub fn device_status(&self) -> (status: DeviceStatus)
        ensures
            status == self.status(),
    {
        self.status
    }

    /// The state of the window's surface, if the window has one.
    pub fn surface_state(&self, window: u64) -> (state: Option<SurfaceState>)
        ensures
            state == if self.surfaces().contains_key(window) {
                Some(self.surfaces()[window])
            } else {
                None
            },
    {
        match surface_map_get(&self.contexts, window) {
            Some(context) => Some(context.state()),
            None => None,
        }
    }

    /// Takes note of the answer to the adapter request. Where an adapter was
    /// found, returns the device request to make next. Where none was, the
    /// device context has failed for good.
    pub fn on_adapter(&mut self, found: bool) -> (next: Result<DeviceRequest, DeviceError>)
        ensures
            final(self).surfaces() == old(self).surfaces(),
            final(self).constrained_host() == old(self).constrained_host(),
            final(self).status() == match old(self).status() {
                DeviceStatus::Uninitialized => if found {
                    DeviceStatus::AdapterSelected
                } else {
                    DeviceStatus::Failed(DeviceError::NoCompatibleAdapter)
                },
                status => status,
            },
            next == match final(self).status() {
                DeviceStatus::Failed(error) => Err(error),
                _ => Ok(spec_device_request(old(self).constrained_host())),
            },
    {
        match self.status {
            DeviceStatus::Uninitialized => {
                if found {
                    self.status = DeviceStatus::AdapterSelected;
                    Ok(device_request(self.constrained_host))
                } else {
                    self.status = DeviceStatus::Failed(DeviceError::NoCompatibleAdapter);
                    Err(DeviceError::NoCompatibleAdapter)
                }
            },
            DeviceStatus::Failed(error) => Err(error),
            _ => Ok(device_request(self.constrained_host)),
        }
    }

    /// Takes note of the answer to the device request. Where the device was
    /// not granted, the device context has failed for good.
    pub fn on_device(&mut self, granted: bool) -> (ready: Result<(), DeviceError>)
        ensures
            final(self).surfaces() == old(self).surfaces(),
            final(self).constrained_host() == old(self).constrained_host(),
            final(self).status() == match old(self).status() {
                DeviceStatus::AdapterSelected => if granted {
                    DeviceStatus::Ready
                } else {
                    DeviceStatus::Failed(DeviceError::DeviceRequestFailed)
                },
                status => status,
            },
            ready == match final(self).status() {
                DeviceStatus::Ready => Ok(()),
                DeviceStatus::Failed(error) => Err(error),
                _ => Err(DeviceError::NoCompatibleAdapter),
            },
    {
        match self.status {
            DeviceStatus::AdapterSelected => {
                if granted {
                    self.status = DeviceStatus::Ready;
                    Ok(())
                } else {
                    self.status = DeviceStatus::Failed(DeviceError::DeviceRequestFailed);
                    Err(DeviceError::DeviceRequestFailed)
                }
            },
            DeviceStatus::Ready => Ok(()),
            DeviceStatus::Failed(error) => Err(error),
            DeviceStatus::Uninitialized => Err(DeviceError::NoCompatibleAdapter),
        }
    }

    /// Pairs a window's surface with the device. Returns the configuration to
    /// apply to the surface: the first format and the first alpha mode that
    /// it reports, FIFO presentation, the window's size. A surface that the
    /// window had before is replaced. Without a ready device nothing is
    /// paired.
    pub fn attach_window(
        &mut self,
        window: u64,
        capabilities: &SurfaceCapabilities,
        size: PhysicalSize,
    ) -> (applied: Option<SurfaceConfiguration>)
        requires
            capabilities.formats@.len() > 0,
            capabilities.alpha_modes@.len() > 0,
        ensures
            final(self).status() == old(self).status(),
            final(self).constrained_host() == old(self).constrained_host(),
            old(self).status() is Ready ==> ({
                let config = initial_configuration(
                    capabilities.formats@,
                    capabilities.alpha_modes@,
                    size,
                );
                &&& applied == Some(config)
                &&& final(self).surfaces() == old(self).surfaces().insert(
                    window,
                    SurfaceState::Configured(config),
                )
            }),
            !(old(self).status() is Ready) ==> ({
                &&& applied is None
                &&& final(self).surfaces() == old(self).surfaces()
            }),
    {
        match self.status {
            DeviceStatus::Ready => {
                let mut context = GraphInterfaceContext::new();
                let applied = context.configure(capabilities, size);
                surface_map_insert(&mut self.contexts, window, context);
                applied
            },
            _ => None,
        }
    }

    /// Takes note of a window's new size. Returns the configuration to apply
    /// to its surface, or `None` where nothing changes: the window has no
    /// surface, the surface is not presenting, or it has that size already.
    pub fn resize(&mut self, window: u64, size: PhysicalSize) -> (applied: Option<
        SurfaceConfiguration,
    >)
        ensures
            final(self).status() == old(self).status(),
            final(self).constrained_host() == old(self).constrained_host(),
            applied == if old(self).surfaces().contains_key(window) {
                old(self).surfaces()[window].resize_request(size)
            } else {
                None
            },
            final(self).surfaces() == if old(self).surfaces().contains_key(window) {
                old(self).surfaces().insert(window, old(self).surfaces()[window].resized(size))
            } else {
                old(self).surfaces()
            },
            applied is None ==> final(self).surfaces() == old(self).surfaces(),
    {
        match surface_map_get(&self.contexts, window) {
            Some(mut context) => {
                let applied = context.resize(size);
                if applied.is_some() {
                    surface_map_insert(&mut self.contexts, window, context);
                } else {
                    assert(self.surfaces() =~= self.surfaces().insert(
                        window,
                        self.surfaces()[window],
                    ));
                }
                applied
            },
            None => None,
        }
    }

    /// The surfaces after the GPU ran out of memory: each of them is retired.
    pub open spec fn all_retired(surfaces: Map<u64, SurfaceState>) -> Map<u64, SurfaceState> {
        Map::new(|window: u64| surfaces.contains_key(window), |window: u64| SurfaceState::Retired)
    }

    /// What an acquisition attempt on a window's surface leads to: the new
    /// status of the device, the new state of each surface, and what to do.
    /// Out of memory ends everything. Otherwise the surface's own life cycle
    /// decides, as long as the device is ready and the window has a surface.
    pub open spec fn after_acquire(
        status: DeviceStatus,
        surfaces: Map<u64, SurfaceState>,
        window: u64,
        outcome: Result<(), SurfaceError>,
    ) -> (DeviceStatus, Map<u64, SurfaceState>, FrameDirective) {
        if outcome == Err::<(), SurfaceError>(SurfaceError::OutOfMemory) {
            (
                DeviceStatus::Failed(DeviceError::OutOfMemory),
                Self::all_retired(surfaces),
                FrameDirective::Exit(EXIT_GPU_FAILURE),
            )
        } else if status is Ready && surfaces.contains_key(window) {
            (
                status,
                surfaces.insert(window, surfaces[window].acquired(outcome).0),
                surfaces[window].acquired(outcome).1,
            )
        } else {
            (status, surfaces, FrameDirective::Skip)
        }
    }

    /// Takes note that the GPU reported that it is out of memory, at
    /// whatever point of the frame: the device context has failed for good,
    /// every surface is retired, and the process is to end.
    pub fn out_of_memory(&mut self) -> (directive: FrameDirective)
        ensures
            final(self).constrained_host() == old(self).constrained_host(),
            final(self).status() == DeviceStatus::Failed(DeviceError::OutOfMemory),
            final(self).surfaces() == Self::all_retired(old(self).surfaces()),
            directive == FrameDirective::Exit(EXIT_GPU_FAILURE),
    {
        self.status = DeviceStatus::Failed(DeviceError::OutOfMemory);
        let windows = surface_map_windows(&self.contexts);
        let ghost before = self.surfaces();
        let mut i: usize = 0;
        while i < windows.len()
            invariant
                i <= windows.len(),
                self.status() == DeviceStatus::Failed(DeviceError::OutOfMemory),
                self.constrained_host() == old(self).constrained_host(),
                forall|window: u64| windows@.contains(window) <==> before.contains_key(window),
                self.surfaces().dom() == before.dom(),
                forall|j: int| 0 <= j < i ==> self.surfaces()[windows@[j]] is Retired,
            decreases windows.len() - i,
        {
            let mut context = GraphInterfaceContext::new();
            context.retire();
            assert(windows@.contains(windows@[i as int]));
            surface_map_insert(&mut self.contexts, windows[i], context);
            assert(self.surfaces().dom() =~= before.dom());
            i += 1;
        }
        assert(self.surfaces() =~= Self::all_retired(before)) by {
            assert forall|window: u64| self.surfaces().contains_key(window) implies self.surfaces()[window]
                is Retired by {
                assert(windows@.contains(window));
                let j = choose|j: int| 0 <= j < windows@.len() && windows@[j] == window;
                assert(self.surfaces()[windows@[j]] is Retired);
            }
        }
        FrameDirective::Exit(EXIT_GPU_FAILURE)
    }

    /// Takes note of how an attempt to acquire the texture of a window's
    /// surface ended, and says what to do with the surface.
    pub fn acquired(&mut self, window: u64, outcome: Result<(), SurfaceError>) -> (directive:
        FrameDirective)
        ensures
            final(self).constrained_host() == old(self).constrained_host(),
            (final(self).status(), final(self).surfaces(), directive) == Self::after_acquire(
                old(self).status(),
                old(self).surfaces(),
                window,
                outcome,
            ),
    {
        match outcome {
            Err(SurfaceError::OutOfMemory) => {
                return self.out_of_memory();
            },
            _ => {},
        }
        match self.status {
            DeviceStatus::Ready => {},
            _ => {
                return FrameDirective::Skip;
            },
        }
        match surface_map_get(&self.contexts, window) {
            Some(mut context) => {
                let directive = context.acquired(outcome);
                surface_map_insert(&mut self.contexts, window, context);
                directive
            },
            None => FrameDirective::Skip,
        }
    }

    /// The windows to acquire a texture for in this frame: those that frames
    /// are drawn to, each once, in no particular order.
    pub fn frame_targets(&self) -> (targets: Vec<u64>)
        ensures
            targets@.no_duplicates(),
            forall|window: u64| targets@.contains(window) <==> self.presents_to(window),
    {
        let mut targets: Vec<u64> = Vec::new();
        match self.status {
            DeviceStatus::Ready => {},
            _ => {
                return targets;
            },
        }
        let windows = surface_map_windows(&self.contexts);
        let mut i: usize = 0;
        while i < windows.len()
            invariant
                i <= windows.len(),
                self.status() is Ready,
                windows@.no_duplicates(),
                forall|window: u64|
                    windows@.contains(window) <==> self.surfaces().contains_key(window),
                targets@.no_duplicates(),
                forall|window: u64|
                    targets@.contains(window) <==> (exists|j: int|
                        0 <= j < i && windows@[j] == window && self.presents_to(window)),
            decreases windows.len() - i,
        {
            let window = windows[i];
            let configured = match surface_map_get(&self.contexts, window) {
                Some(context) => context.state().is_configured(),
                None => false,
            };
            if configured {
                let ghost before = targets@;
                assert(!before.contains(window)) by {
                    if before.contains(window) {
                        let j = choose|j: int|
                            0 <= j < i && windows@[j] == window && self.presents_to(window);
                        assert(windows@[j] == windows@[i as int]);
                    }
                }
                targets.push(window);
                proof {
                    lemma_push_keeps_distinct(before, window);
                }
                assert forall|w: u64| targets@.contains(w) <==> (exists|j: int|
                    0 <= j < i + 1 && windows@[j] == w && self.presents_to(w)) by {
                    if targets@.contains(w) {
                        if before.contains(w) {
                        } else {
                            assert(w == window);
                            assert(windows@[i as int] == w);
                        }
                    }
                    if exists|j: int| 0 <= j < i + 1 && windows@[j] == w && self.presents_to(w) {
                        let j = choose|j: int|
                            0 <= j < i + 1 && windows@[j] == w && self.presents_to(w);
                        if j < i {
                            assert(before.contains(w));
                            let k = choose|k: int| 0 <= k < before.len() && before[k] == w;
                            assert(targets@[k] == w);
                        } else {
                            assert(targets@[before.len() as int] == w);
                        }
                    }
                }
            } else {
                assert forall|w: u64| targets@.contains(w) <==> (exists|j: int|
                    0 <= j < i + 1 && windows@[j] == w && self.presents_to(w)) by {
                    if exists|j: int| 0 <= j < i + 1 && windows@[j] == w && self.presents_to(w) {
                        let j = choose|j: int|
                            0 <= j < i + 1 && windows@[j] == w && self.presents_to(w);
                        assert(j < i);
                    }
                }
            }
            i += 1;
        }
        assert forall|window: u64| targets@.contains(window) <==> self.presents_to(
            window,
        ) by {
            if self.presents_to(window) {
                assert(windows@.contains(window));
                let j = choose|j: int| 0 <= j < windows@.len() && windows@[j] == window;
                assert(0 <= j < i && windows@[j] == window && self.presents_to(window));
            }
        }
        targets
    }
}

/// Out of memory ends all frame processing, wherever it is reported: the
/// process is told to end with the status of a GPU failure, which is not
/// zero, and from then on no window is drawn to, and no report on any window
/// leads to rendering or to a reconfiguration.
pub proof fn lemma_out_of_memory_is_final(
    status: DeviceStatus,
    surfaces: Map<u64, SurfaceState>,
    window: u64,
    later_window: u64,
    later: Result<(), SurfaceError>,
)
    ensures
        ({
            let failed = GraphInterfaceResource::after_acquire(
                status,
                surfaces,
                window,
                Err(SurfaceError::OutOfMemory),
            );
            let afterwards = GraphInterfaceResource::after_acquire(
                failed.0,
                failed.1,
                later_window,
                later,
            );
            &&& failed.2 == FrameDirective::Exit(EXIT_GPU_FAILURE)
            &&& EXIT_GPU_FAILURE != 0
            &&& failed.0 == DeviceStatus::Failed(DeviceError::OutOfMemory)
            &&& forall|w: u64| failed.1.contains_key(w) ==> failed.1[w] is Retired
            &&& !(afterwards.0 is Ready)
            &&& forall|w: u64| afterwards.1.contains_key(w) ==> afterwards.1[w] is Retired
            &&& !(afterwards.2 is Render)
            &&& !(afterwards.2 is ReconfigureAndRetry)
        }),
{
}

} // verus!
