//! Bringing up the graphics context: which backend, adapter and device are
//! asked for, and how a failure to get them ends the program.

use vstd::prelude::*;

verus! {

/// A graphics backend.
#[derive(Clone, Copy, PartialEq, Eq, Structural, Debug)]
pub enum Backend {
    Vulkan,
    Gl,
    Metal,
    Dx12,
    BrowserWebGpu,
}

/// Which adapter is preferred where several would do.
#[derive(Clone, Copy, PartialEq, Eq, Structural, Debug)]
pub enum PowerPreference {
    /// Power usage is not considered.
    Unconcerned,
    LowPower,
    HighPerformance,
}

/// What the device's memory allocator should favour.
#[derive(Clone, Copy, PartialEq, Eq, Structural, Debug)]
pub enum MemoryHints {
    Performance,
    MemoryUsage,
}

/// What is asked of an adapter.
#[derive(Clone, Copy, PartialEq, Eq, Structural, Debug)]
pub struct AdapterRequest {
    pub power_preference: PowerPreference,
    /// Whether a software adapter is insisted on.
    pub force_fallback_adapter: bool,
    /// Whether the adapter has to be able to present to the window's surface.
    pub compatible_surface: bool,
}

/// The optional features a device has to have.
#[derive(Clone, Copy, PartialEq, Eq, Structural, Debug)]
pub enum Features {
    /// No optional feature.
    Empty,
    /// Every optional feature.
    All,
}

/// The limits a device has to meet.
#[derive(Clone, Copy, PartialEq, Eq, Structural, Debug)]
pub enum Limits {
    /// The limits every modern device meets.
    Default,
    /// The limits older devices meet.
    Downlevel,
    /// The limits a WebGL2 device meets.
    DownlevelWebgl2,
}

/// What is asked of a device.
#[derive(Clone, Copy, PartialEq, Eq, Structural, Debug)]
pub struct DeviceRequest {
    pub required_features: Features,
    pub required_limits: Limits,
    pub memory_hints: MemoryHints,
}

/// Why the graphics context could not be brought up. Nothing is retried and
/// no other backend is tried: the program reports the failure and ends.
#[derive(Clone, Copy, PartialEq, Eq, Structural, Debug)]
pub enum SetupError {
    /// No adapter can present to the window's surface.
    NoAdapter,
    /// The adapter refused to open a device.
    DeviceRefused,
}

/// What is reported when no adapter is found.
pub const NO_ADAPTER: &'static str = "no graphics adapter can present to the window";

/// What is reported when the adapter opens no device.
pub const DEVICE_REFUSED: &'static str = "the graphics adapter refused to open a device";

/// Trusted: calls `wgpu::PowerPreference::default`, whose result is the
/// variant `None`: power usage is not considered.
#[verifier::external_body]
fn default_power_preference() -> (preference: PowerPreference)
    ensures
        preference == PowerPreference::Unconcerned,
{
    match wgpu::PowerPreference::default() {
        wgpu::PowerPreference::None => PowerPreference::Unconcerned,
        wgpu::PowerPreference::LowPower => PowerPreference::LowPower,
        wgpu::PowerPreference::HighPerformance => PowerPreference::HighPerformance,
    }
}

/// The one backend the instance is created for.
pub const BACKEND: Backend = Backend::Vulkan;

impl AdapterRequest {
    /// An adapter that can present to the surface, with no preference as to
    /// power and without insisting on a software adapter.
    pub fn new() -> (request: Self)
        ensures
            request == (AdapterRequest {
                power_preference: PowerPreference::Unconcerned,
                force_fallback_adapter: false,
                compatible_surface: true,
            }),
    {
        AdapterRequest {
            power_preference: default_power_preference(),
            force_fallback_adapter: false,
            compatible_surface: true,
        }
    }
}

impl DeviceRequest {
    /// A device with the default limits and no optional feature, whose
    /// allocator favours performance.
    pub fn new() -> (request: Self)
        ensures
            request == (DeviceRequest {
                required_features: Features::Empty,
                required_limits: Limits::Default,
                memory_hints: MemoryHints::Performance,
            }),
    {
        DeviceRequest {
            required_features: Features::Empty,
            required_limits: Limits::Default,
            memory_hints: MemoryHints::Performance,
        }
    }
}

impl SetupError {
    /// What to report of the failure.
    pub fn diagnostic(&self) -> (text: &'static str)
        ensures
            text@ == match self {
                SetupError::NoAdapter => NO_ADAPTER@,
                SetupError::DeviceRefused => DEVICE_REFUSED@,
            },
    {
        match self {
            SetupError::NoAdapter => NO_ADAPTER,
            SetupError::DeviceRefused => DEVICE_REFUSED,
        }
    }
}

} // verus!
