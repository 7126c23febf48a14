//! The render state: what the renderer remembers between events, how it
//! follows the window's size, and what it decides for each frame.
//!
//! The state holds plain values only. The objects of the graphics interface
//! live with the caller, who performs what the functions here decide. The
//! window is known by its `winit` identifier, which is only ever compared.

use vstd::prelude::*;
use winit::window::WindowId;
use crate::geometry::{num_indices, IndexFormat, INDICES};
use crate::pipeline::RenderPipelineDescriptor;
use crate::surface::{
    create_surface_config, negotiated, PhysicalSize, SurfaceCapabilities, SurfaceConfiguration,
};

verus! {

/// Bit pattern of the double-precision number `0.0`.
pub const F64_ZERO: u64 = 0x0000_0000_0000_0000;

/// Bit pattern of the double-precision number `1.0`.
pub const F64_ONE: u64 = 0x3FF0_0000_0000_0000;

#[verifier::external_type_specification]
#[verifier::external_body]
pub struct ExWindowId(winit::window::WindowId);

/// Trusted: compares two window identifiers with `winit::window::WindowId`'s
/// `==`, which is derived and so holds exactly of equal identifiers.
#[verifier::external_body]
pub(crate) fn same_window(left: &WindowId, right: &WindowId) -> (same: bool)
    ensures
        same == (*left == *right),
{
    left == right
}

/// A colour of four double-precision channels, held as bit patterns.
#[derive(Clone, Copy, PartialEq, Eq, Structural, Debug)]
pub struct Color {
    pub r: u64,
    pub g: u64,
    pub b: u64,
    pub a: u64,
}

/// One indexed draw.
#[derive(Clone, Copy, PartialEq, Eq, Structural, Debug)]
pub struct DrawIndexed {
    /// First index drawn.
    pub first_index: u32,
    /// One past the last index drawn.
    pub end_index: u32,
    /// Added to every index before it selects a vertex.
    pub base_vertex: i32,
    /// First instance drawn.
    pub first_instance: u32,
    /// One past the last instance drawn.
    pub end_instance: u32,
}

/// The one render pass of a frame.
#[derive(Clone, Copy, PartialEq, Eq, Structural, Debug)]
pub struct RenderPass {
    /// The colour the target is cleared to before drawing.
    pub clear: Color,
    /// Whether what was drawn is kept in the target.
    pub store: bool,
    /// The slot the vertex buffer is bound at.
    pub vertex_slot: u32,
    /// The width of the indices in the index buffer.
    pub index_format: IndexFormat,
    pub draw: DrawIndexed,
}

/// Why the surface gave no image to draw to.
#[derive(Clone, Copy, PartialEq, Eq, Structural, Debug)]
pub enum SurfaceFailure {
    /// No image became available in time.
    Timeout,
    /// The surface changed and its configuration is out of date.
    Outdated,
    /// The swap chain was lost and has to be made again.
    Lost,
    /// No memory is left for a new frame.
    OutOfMemory,
    /// The device is gone.
    DeviceLost,
}

impl SurfaceFailure {
    /// A failure that configuring the surface again may cure.
    pub open spec fn is_recoverable(self) -> bool {
        self is Timeout || self is Outdated || self is Lost
    }

    pub fn recoverable(&self) -> (yes: bool)
        ensures
            yes == self.is_recoverable(),
    {
        match self {
            SurfaceFailure::Timeout | SurfaceFailure::Outdated | SurfaceFailure::Lost => true,
            SurfaceFailure::OutOfMemory | SurfaceFailure::DeviceLost => false,
        }
    }
}

/// Which try at acquiring the frame's image this is.
#[derive(Clone, Copy, PartialEq, Eq, Structural, Debug)]
pub enum FrameAttempt {
    First,
    /// The try that follows a reconfiguration.
    Retry,
}

/// What to do with a frame once the surface has answered.
#[derive(Clone, Copy, PartialEq, Eq, Structural, Debug)]
pub enum FrameAction {
    /// Record the pass into the acquired image, submit it and present.
    Draw(RenderPass),
    /// Configure the surface again and try once more.
    Reconfigure,
    /// Give the frame up; the next one may succeed.
    Skip,
    /// Report the failure and terminate.
    Abort(SurfaceFailure),
}

/// The render pass that draws `count` indices: clear to opaque black, vertex
/// buffer at slot 0, 16-bit indices, one instance.
pub open spec fn pass_for(count: u32) -> RenderPass {
    RenderPass {
        clear: Color { r: F64_ZERO, g: F64_ZERO, b: F64_ZERO, a: F64_ONE },
        store: true,
        vertex_slot: 0,
        index_format: IndexFormat::Uint16,
        draw: DrawIndexed {
            first_index: 0,
            end_index: count,
            base_vertex: 0,
            first_instance: 0,
            end_instance: 1,
        },
    }
}

/// The decision for a frame: draw when an image was acquired; after a
/// recoverable failure reconfigure and retry, but only once; after any other
/// failure terminate.
pub open spec fn frame_action(
    count: u32,
    attempt: FrameAttempt,
    acquired: Result<(), SurfaceFailure>,
) -> FrameAction {
    match acquired {
        Ok(_) => FrameAction::Draw(pass_for(count)),
        Err(failure) => if !failure.is_recoverable() {
            FrameAction::Abort(failure)
        } else if attempt is First {
            FrameAction::Reconfigure
        } else {
            FrameAction::Skip
        },
    }
}

/// A frame is tried at most twice: only the first try can ask for the surface
/// to be configured again, and the try that follows draws, gives the frame
/// up or terminates.
pub proof fn lemma_frame_retried_once(
    count: u32,
    first: Result<(), SurfaceFailure>,
    second: Result<(), SurfaceFailure>,
)
    ensures
        frame_action(count, FrameAttempt::First, first) is Reconfigure <==> {
            first matches Err(failure) && failure.is_recoverable()
        },
        !(frame_action(count, FrameAttempt::Retry, second) is Reconfigure),
        frame_action(count, FrameAttempt::Retry, second) is Skip <==> {
            second matches Err(failure) && failure.is_recoverable()
        },
{
}

/// What the renderer remembers between events.
#[derive(Debug)]
pub struct State {
    config: SurfaceConfiguration,
    size: PhysicalSize,
    window: WindowId,
    num_indices: u32,
}

/// The render state as contracts see it.
pub struct StateView {
    /// The configuration the surface was last configured with.
    pub config: SurfaceConfiguration,
    /// The size the window last reported.
    pub size: PhysicalSize,
    /// The window rendered to.
    pub window: WindowId,
    /// Number of indices a frame draws.
    pub num_indices: u32,
}

impl StateView {
    /// The state is consistent: the configuration is one the surface takes,
    /// its extent is the window's size whenever the window has an area, and a
    /// frame draws the whole index list.
    pub open spec fn wf(self) -> bool {
        &&& self.config.fixed_settings()
        &&& self.config.extent().is_positive()
        &&& self.size.is_positive() ==> self.config.extent() == self.size
        &&& self.num_indices == INDICES@.len()
    }

    /// The state after the window reported `new_size`. A size without area
    /// is remembered, but the configuration keeps its last extent: a surface
    /// cannot be configured with it.
    pub open spec fn resized(self, new_size: PhysicalSize) -> StateView {
        StateView {
            size: new_size,
            config: if new_size.is_positive() {
                self.config.with_extent(new_size)
            } else {
                self.config
            },
            ..self
        }
    }
}

impl View for State {
    type V = StateView;

    closed spec fn view(&self) -> StateView {
        StateView {
            config: self.config,
            size: self.size,
            window: self.window,
            num_indices: self.num_indices,
        }
    }
}

impl State {
    /// The state of a renderer for `window`, whose surface is to be
    /// configured for `size` under `capabilities`.
    pub fn new(
        window: WindowId,
        size: PhysicalSize,
        capabilities: SurfaceCapabilities,
    ) -> (state: Self)
        requires
            size.is_positive(),
            capabilities.is_presentable(),
        ensures
            state@.wf(),
            negotiated(size, capabilities, state@.config),
            state@.size == size,
            state@.window == window,
    {
        let config = create_surface_config(size, capabilities);
        State { config, size, window, num_indices: num_indices() }
    }

    /// Follows a change of the window's size. Returns whether the surface has
    /// to be configured again, which is the case exactly when the new size
    /// has an area; the configuration then has the new extent and is
    /// otherwise unchanged.
    pub fn resize(&mut self, new_size: PhysicalSize) -> (reconfigure: bool)
        requires
            old(self)@.wf(),
        ensures
            final(self)@ == old(self)@.resized(new_size),
            final(self)@.wf(),
            reconfigure == new_size.is_positive(),
    {
        self.size = new_size;
        if new_size.width > 0 && new_size.height > 0 {
            self.config.width = new_size.width;
            self.config.height = new_size.height;
            true
        } else {
            false
        }
    }

    /// Decides what becomes of a frame once the surface has said whether it
    /// has an image for it.
    pub fn render(
        &self,
        attempt: FrameAttempt,
        acquired: Result<(), SurfaceFailure>,
    ) -> (action: FrameAction)
        ensures
            action == frame_action(self@.num_indices, attempt, acquired),
    {
        match acquired {
            Ok(_) => FrameAction::Draw(
                RenderPass {
                    clear: Color { r: F64_ZERO, g: F64_ZERO, b: F64_ZERO, a: F64_ONE },
                    store: true,
                    vertex_slot: 0,
                    index_format: IndexFormat::Uint16,
                    draw: DrawIndexed {
                        first_index: 0,
                        end_index: self.num_indices,
                        base_vertex: 0,
                        first_instance: 0,
                        end_instance: 1,
                    },
                },
            ),
            Err(failure) => {
                if !failure.recoverable() {
                    FrameAction::Abort(failure)
                } else {
                    match attempt {
                        FrameAttempt::First => FrameAction::Reconfigure,
                        FrameAttempt::Retry => FrameAction::Skip,
                    }
                }
            },
        }
    }

    /// The window rendered to.
    pub fn window(&self) -> (id: WindowId)
        ensures
            id == self@.window,
    {
        self.window
    }

    /// The configuration the surface is to have.
    pub fn config(&self) -> (config: &SurfaceConfiguration)
        ensures
            *config == self@.config,
    {
        &self.config
    }

    /// The size the window last reported.
    pub fn size(&self) -> (size: PhysicalSize)
        ensures
            size == self@.size,
    {
        self.size
    }

    /// Number of indices a frame draws.
    pub fn num_indices(&self) -> (count: u32)
        ensures
            count == self@.num_indices,
    {
        self.num_indices
    }

    /// The description of the pipeline that draws to the surface as it is
    /// configured.
    pub fn pipeline(&self) -> (descriptor: RenderPipelineDescriptor)
        ensures
            descriptor.draws_to(self@.config.format),
            descriptor.targets_match(self@.config.format),
    {
        RenderPipelineDescriptor::new(self.config.format)
    }
}

} // verus!
