//! Life cycle of one window's presentable surface.

use vstd::prelude::*;

verus! {

/// Exit status of a run that ended on a window-close or escape request.
pub const EXIT_SUCCESS: i32 = 0;

/// Exit status of a run that the GPU ended: out of memory, or no usable device.
pub const EXIT_GPU_FAILURE: i32 = 1;

/// Texture usage flag of a render pass's output attachment.
pub const RENDER_ATTACHMENT: u32 = 16;

/// Size of a window in physical pixels.
#[derive(Debug, Clone, Copy, PartialEq, Eq, Structural)]
pub struct PhysicalSize {
    pub width: u32,
    pub height: u32,
}

/// A color format of the surface, by the code under which the host keeps it.
#[derive(Debug, Clone, Copy, PartialEq, Eq, Structural)]
pub struct TextureFormat {
    pub code: u32,
}

/// How presented frames are paced against the display.
#[derive(Debug, Clone, Copy, PartialEq, Eq, Structural)]
pub enum PresentMode {
    AutoVsync,
    AutoNoVsync,
    Fifo,
    FifoRelaxed,
    Immediate,
    Mailbox,
}

/// How the compositor treats the alpha channel of the surface.
#[derive(Debug, Clone, Copy, PartialEq, Eq, Structural)]
pub enum CompositeAlphaMode {
    Auto,
    Opaque,
    PreMultiplied,
    PostMultiplied,
    Inherit,
}

/// What a surface reports that it supports, in its order of preference.
#[derive(Debug)]
pub struct SurfaceCapabilities {
    pub formats: Vec<TextureFormat>,
    pub present_modes: Vec<PresentMode>,
    pub alpha_modes: Vec<CompositeAlphaMode>,
}

/// The configuration under which a surface presents.
#[derive(Debug, Clone, Copy, PartialEq, Eq, Structural)]
pub struct SurfaceConfiguration {
    pub usage: u32,
    pub format: TextureFormat,
    pub width: u32,
    pub height: u32,
    pub present_mode: PresentMode,
    pub alpha_mode: CompositeAlphaMode,
}

/// Why a frame's texture could not be acquired.
#[derive(Debug, Clone, Copy, PartialEq, Eq, Structural)]
pub enum SurfaceError {
    Timeout,
    Outdated,
    Lost,
    OutOfMemory,
}

/// Where a surface stands in its life cycle.
#[derive(Debug, Clone, Copy, PartialEq, Eq, Structural)]
pub enum SurfaceState {
    /// Attached to a window, not yet paired with a device.
    Unconfigured,
    /// Presenting under the given configuration.
    Configured(SurfaceConfiguration),
    /// Reported lost; being reconfigured for the one retry.
    Suspended(SurfaceConfiguration),
    /// Given up for good.
    Retired,
}

/// What the frame driver does with a surface after an acquisition attempt.
#[derive(Debug, Clone, Copy, PartialEq, Eq, Structural)]
pub enum FrameDirective {
    /// The texture is there: render to it and present it.
    Render,
    /// Nothing is drawn to this surface in this frame.
    Skip,
    /// Configure the surface anew, then try once more to acquire.
    ReconfigureAndRetry(SurfaceConfiguration),
    /// The window is retired: release it and never present to it again.
    Retire,
    /// End the process with this status.
    Exit(i32),
}

impl SurfaceConfiguration {
    /// The same configuration at another size.
    pub open spec fn with_size(self, size: PhysicalSize) -> SurfaceConfiguration {
        SurfaceConfiguration { width: size.width, height: size.height, ..self }
    }

    /// The size that the configuration gives the surface.
    pub open spec fn spec_size(&self) -> PhysicalSize {
        PhysicalSize { width: self.width, height: self.height }
    }

    #[verifier::when_used_as_spec(spec_size)]
    pub fn size(&self) -> (size: PhysicalSize)
        ensures
            size == self.spec_size(),
    {
        PhysicalSize { width: self.width, height: self.height }
    }
}

/// The configuration of a surface that is paired with a device for the first
/// time: the first format and the first alpha mode that it reports, FIFO
/// presentation, at the window's size.
pub open spec fn initial_configuration(
    formats: Seq<TextureFormat>,
    alpha_modes: Seq<CompositeAlphaMode>,
    size: PhysicalSize,
) -> SurfaceConfiguration
    recommends
        formats.len() > 0,
        alpha_modes.len() > 0,
{
    SurfaceConfiguration {
        usage: RENDER_ATTACHMENT,
        format: formats[0],
        width: size.width,
        height: size.height,
        present_mode: PresentMode::Fifo,
        alpha_mode: alpha_modes[0],
    }
}

impl SurfaceState {
    /// The state after pairing with a device.
    pub open spec fn configured(self, config: SurfaceConfiguration) -> SurfaceState {
        match self {
            SurfaceState::Unconfigured => SurfaceState::Configured(config),
            _ => self,
        }
    }

    /// The state after the window was resized.
    pub open spec fn resized(self, size: PhysicalSize) -> SurfaceState {
        match self {
            SurfaceState::Configured(config) => SurfaceState::Configured(config.with_size(size)),
            _ => self,
        }
    }

    /// The configuration to apply to the surface when the window was resized,
    /// if there is anything to apply.
    pub open spec fn resize_request(self, size: PhysicalSize) -> Option<SurfaceConfiguration> {
        match self {
            SurfaceState::Configured(config) if config.spec_size() != size => Some(
                config.with_size(size),
            ),
            _ => None,
        }
    }

    /// The state after an acquisition attempt, and what to do with the surface.
    pub open spec fn acquired(self, outcome: Result<(), SurfaceError>) -> (
        SurfaceState,
        FrameDirective,
    ) {
        match outcome {
            Err(SurfaceError::OutOfMemory) => (
                SurfaceState::Retired,
                FrameDirective::Exit(EXIT_GPU_FAILURE),
            ),
            Ok(()) => match self {
                SurfaceState::Configured(config) | SurfaceState::Suspended(config) => (
                    SurfaceState::Configured(config),
                    FrameDirective::Render,
                ),
                _ => (self, FrameDirective::Skip),
            },
            Err(SurfaceError::Lost) => match self {
                SurfaceState::Configured(config) => (
                    SurfaceState::Suspended(config),
                    FrameDirective::ReconfigureAndRetry(config),
                ),
                SurfaceState::Suspended(_) => (SurfaceState::Retired, FrameDirective::Retire),
                _ => (self, FrameDirective::Skip),
            },
            Err(_) => match self {
                SurfaceState::Suspended(config) => (
                    SurfaceState::Configured(config),
                    FrameDirective::Skip,
                ),
                _ => (self, FrameDirective::Skip),
            },
        }
    }

    /// Whether the frame driver asks this surface for a texture.
    pub open spec fn spec_is_configured(&self) -> bool {
        *self is Configured
    }

    #[verifier::when_used_as_spec(spec_is_configured)]
    pub fn is_configured(&self) -> (yes: bool)
        ensures
            yes == self.spec_is_configured(),
    {
        match self {
            SurfaceState::Configured(_) => true,
            _ => false,
        }
    }
}

/// The presentable surface of one window, as far as the frame driver decides
/// about it.
#[derive(Debug, Clone, Copy)]
pub struct GraphInterfaceContext {
    state: SurfaceState,
}

impl View for GraphInterfaceContext {
    type V = SurfaceState;

    closed spec fn view(&self) -> SurfaceState {
        self.state
    }
}

impl GraphInterfaceContext {
    /// The surface of a window that no device was paired with yet.
    pub fn new() -> (context: Self)
        ensures
            context@ == SurfaceState::Unconfigured,
    {
        GraphInterfaceContext { state: SurfaceState::Unconfigured }
    }

    pub fn state(&self) -> (state: SurfaceState)
        ensures
            state == self@,
    {
        self.state
    }

    /// The configuration under which the surface presents, or was last
    /// presenting when it was lost.
    pub fn config(&self) -> (config: Option<SurfaceConfiguration>)
        ensures
            config == match self@ {
                SurfaceState::Configured(c) | SurfaceState::Suspended(c) => Some(c),
                _ => None,
            },
    {
        match self.state {
            SurfaceState::Configured(c) => Some(c),
            SurfaceState::Suspended(c) => Some(c),
            _ => None,
        }
    }

    /// Pairs the surface with a device. Returns the configuration to apply,
    /// or `None` where the surface was paired before.
    pub fn configure(&mut self, capabilities: &SurfaceCapabilities, size: PhysicalSize) -> (applied:
        Option<SurfaceConfiguration>)
        requires
            capabilities.formats@.len() > 0,
            capabilities.alpha_modes@.len() > 0,
        ensures
            final(self)@ == old(self)@.configured(
                initial_configuration(capabilities.formats@, capabilities.alpha_modes@, size),
            ),
            applied == if old(self)@ is Unconfigured {
                Some(initial_configuration(capabilities.formats@, capabilities.alpha_modes@, size))
            } else {
                None
            },
    {
        match self.state {
            SurfaceState::Unconfigured => {
                let config = SurfaceConfiguration {
                    usage: RENDER_ATTACHMENT,
                    format: capabilities.formats[0],
                    width: size.width,
                    height: size.height,
                    present_mode: PresentMode::Fifo,
                    alpha_mode: capabilities.alpha_modes[0],
                };
                self.state = SurfaceState::Configured(config);
                Some(config)
            },
            _ => None,
        }
    }

    /// Takes note of the window's new size. Returns the configuration to
    /// apply, or `None` where the surface keeps the one it has: it is not
    /// presenting, or it has that size already.
    pub fn resize(&mut self, size: PhysicalSize) -> (applied: Option<SurfaceConfiguration>)
        ensures
            final(self)@ == old(self)@.resized(size),
            applied == old(self)@.resize_request(size),
            applied is None ==> final(self)@ == old(self)@,
    {
        match self.state {
            SurfaceState::Configured(config) => {
                if config.width == size.width && config.height == size.height {
                    None
                } else {
                    let next = SurfaceConfiguration {
                        width: size.width,
                        height: size.height,
                        ..config
                    };
                    self.state = SurfaceState::Configured(next);
                    Some(next)
                }
            },
            _ => None,
        }
    }

    /// Gives the surface up for good.
    pub fn retire(&mut self)
        ensures
            final(self)@ == SurfaceState::Retired,
    {
        self.state = SurfaceState::Retired;
    }

    /// Takes note of how an attempt to acquire the surface's texture ended.
    pub fn acquired(&mut self, outcome: Result<(), SurfaceError>) -> (directive: FrameDirective)
        ensures
            (final(self)@, directive) == old(self)@.acquired(outcome),
    {
        match outcome {
            Err(SurfaceError::OutOfMemory) => {
                self.state = SurfaceState::Retired;
                FrameDirective::Exit(EXIT_GPU_FAILURE)
            },
            Ok(()) => match self.state {
                SurfaceState::Configured(_) => FrameDirective::Render,
                SurfaceState::Suspended(config) => {
                    self.state = SurfaceState::Configured(config);
                    FrameDirective::Render
                },
                _ => FrameDirective::Skip,
            },
            Err(SurfaceError::Lost) => match self.state {
                SurfaceState::Configured(config) => {
                    self.state = SurfaceState::Suspended(config);
                    FrameDirective::ReconfigureAndRetry(config)
                },
                SurfaceState::Suspended(_) => {
                    self.state = SurfaceState::Retired;
                    FrameDirective::Retire
                },
                _ => FrameDirective::Skip,
            },
            Err(_) => match self.state {
                SurfaceState::Suspended(config) => {
                    self.state = SurfaceState::Configured(config);
                    FrameDirective::Skip
                },
                _ => FrameDirective::Skip,
            },
        }
    }
}

/// Resizing a surface to the size that it has changes nothing: no
/// configuration is applied, and the state, configuration included, is what
/// it was. So resizing twice to one size is the same as resizing once.
pub proof fn lemma_resize_to_current_size_is_noop(state: SurfaceState, size: PhysicalSize)
    ensures
        state matches SurfaceState::Configured(config) && config.spec_size() == size ==> ({
            &&& state.resize_request(size) is None
            &&& state.resized(size) == state
        }),
        state.resized(size).resize_request(size) is None,
        state.resized(size).resized(size) == state.resized(size),
{
}

/// A surface that is lost once and acquired at the retry is reconfigured
/// exactly once, to the configuration that it had, and is rendered to. A
/// surface that is lost again at the retry is retired. A retired surface
/// stays retired, whatever is reported of it, and is never rendered to nor
/// reconfigured again.
pub proof fn lemma_loss_recovery(config: SurfaceConfiguration, later: Result<(), SurfaceError>)
    ensures
        ({
            let lost = SurfaceState::Configured(config).acquired(Err(SurfaceError::Lost));
            let retried = lost.0.acquired(Ok(()));
            let lost_again = lost.0.acquired(Err(SurfaceError::Lost));
            let afterwards = lost_again.0.acquired(later);
            &&& lost == (SurfaceState::Suspended(config), FrameDirective::ReconfigureAndRetry(config))
            &&& retried == (SurfaceState::Configured(config), FrameDirective::Render)
            &&& lost_again == (SurfaceState::Retired, FrameDirective::Retire)
            &&& afterwards.0 == SurfaceState::Retired
            &&& !(afterwards.1 is Render)
            &&& !(afterwards.1 is ReconfigureAndRetry)
        }),
{
}

/// The life cycle runs one way: a report on an acquisition leaves an
/// unconfigured surface unconfigured or retires it, keeps a configured one
/// configured, suspends it or retires it, sends a suspended one back to
/// configured or retires it, and leaves a retired one retired. A resize or a
/// pairing never brings a retired surface back either. The configuration
/// changes only by a resize.
pub proof fn lemma_life_cycle_runs_one_way(
    state: SurfaceState,
    outcome: Result<(), SurfaceError>,
    size: PhysicalSize,
    config: SurfaceConfiguration,
)
    ensures
        match state {
            SurfaceState::Unconfigured => state.acquired(outcome).0 is Unconfigured
                || state.acquired(outcome).0 is Retired,
            SurfaceState::Configured(held) => state.acquired(outcome).0 == SurfaceState::Configured(
                held,
            ) || state.acquired(outcome).0 == SurfaceState::Suspended(held) || state.acquired(
                outcome,
            ).0 is Retired,
            SurfaceState::Suspended(held) => state.acquired(outcome).0 == SurfaceState::Configured(
                held,
            ) || state.acquired(outcome).0 is Retired,
            SurfaceState::Retired => state.acquired(outcome).0 is Retired,
        },
        state is Retired ==> state.resized(size) is Retired && state.configured(config) is Retired,
        state.acquired(outcome).1 is Render ==> state.acquired(outcome).0 is Configured,
        state.acquired(outcome).1 is Exit <==> outcome == Err::<(), SurfaceError>(
            SurfaceError::OutOfMemory,
        ),
{
}

/// A timeout or an outdated surface costs the frame and nothing else: a
/// configured surface stays as it is, and nothing is rendered.
pub proof fn lemma_transient_errors_change_nothing(config: SurfaceConfiguration, error: SurfaceError)
    requires
        error == SurfaceError::Timeout || error == SurfaceError::Outdated,
    ensures
        SurfaceState::Configured(config).acquired(Err(error)) == (
            SurfaceState::Configured(config),
            FrameDirective::Skip,
        ),
{
}

} // verus!
