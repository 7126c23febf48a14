//! Surface configuration: negotiating the presentable format and describing
//! how the presentation surface is to be configured.
//!
//! Texture formats and alpha modes are carried as `wgpu` values; to the
//! verifier they are opaque, and the only facts about them are the ones the
//! trusted functions of this module state.

use vstd::prelude::*;

verus! {

#[verifier::external_type_specification]
#[verifier::external_body]
pub struct ExTextureFormat(wgpu::TextureFormat);

#[verifier::external_type_specification]
#[verifier::external_body]
pub struct ExCompositeAlphaMode(wgpu::CompositeAlphaMode);

/// Whether a texture format stores its colour channels sRGB-encoded, as
/// `wgpu::TextureFormat::is_srgb` reports it.
pub uninterp spec fn srgb_encoded(format: wgpu::TextureFormat) -> bool;

/// Trusted: calls `wgpu::TextureFormat::is_srgb`. The answer depends on the
/// format alone, so it is the same for equal formats.
#[verifier::external_body]
fn is_srgb(format: &wgpu::TextureFormat) -> (srgb: bool)
    ensures
        srgb == srgb_encoded(*format),
{
    format.is_srgb()
}

/// Trusted: compares two formats with `wgpu::TextureFormat`'s `==`, which is
/// derived and so holds exactly of equal values.
#[verifier::external_body]
pub(crate) fn same_format(left: &wgpu::TextureFormat, right: &wgpu::TextureFormat) -> (same: bool)
    ensures
        same == (*left == *right),
{
    left == right
}

/// A size in physical pixels.
#[derive(Clone, Copy, PartialEq, Eq, Structural, Debug)]
pub struct PhysicalSize {
    pub width: u32,
    pub height: u32,
}

impl PhysicalSize {
    /// A size that covers at least one pixel.
    pub open spec fn is_positive(self) -> bool {
        self.width > 0 && self.height > 0
    }

    pub fn new(width: u32, height: u32) -> (size: Self)
        ensures
            size == (PhysicalSize { width, height }),
    {
        PhysicalSize { width, height }
    }

    pub fn has_area(&self) -> (positive: bool)
        ensures
            positive == self.is_positive(),
    {
        self.width > 0 && self.height > 0
    }
}

/// How presentation is paced against the display's refresh.
#[derive(Clone, Copy, PartialEq, Eq, Structural, Debug)]
pub enum PresentMode {
    AutoVsync,
    AutoNoVsync,
    Fifo,
    FifoRelaxed,
    Immediate,
    Mailbox,
}

/// What a surface texture may be used for.
#[derive(Clone, Copy, PartialEq, Eq, Structural, Debug)]
pub enum TextureUsage {
    CopySrc,
    CopyDst,
    TextureBinding,
    StorageBinding,
    RenderAttachment,
}

/// The number of frames the presentation engine may queue in advance.
pub const FRAME_LATENCY: u32 = 2;

/// What an adapter reports about a surface, as far as configuration reads it.
#[derive(Debug)]
pub struct SurfaceCapabilities {
    /// Supported formats, the adapter's preferred one first.
    pub formats: Vec<wgpu::TextureFormat>,
    /// Supported alpha compositing modes.
    pub alpha_modes: Vec<wgpu::CompositeAlphaMode>,
}

impl SurfaceCapabilities {
    /// The surface can be presented to: a format and an alpha mode exist.
    pub open spec fn is_presentable(&self) -> bool {
        self.formats@.len() > 0 && self.alpha_modes@.len() > 0
    }

    pub fn presentable(&self) -> (ok: bool)
        ensures
            ok == self.is_presentable(),
    {
        self.formats.len() > 0 && self.alpha_modes.len() > 0
    }
}

/// The settings a surface is configured with.
#[derive(Debug)]
pub struct SurfaceConfiguration {
    pub usage: TextureUsage,
    pub format: wgpu::TextureFormat,
    pub width: u32,
    pub height: u32,
    pub present_mode: PresentMode,
    pub alpha_mode: wgpu::CompositeAlphaMode,
    pub view_formats: Vec<wgpu::TextureFormat>,
    pub desired_maximum_frame_latency: u32,
}

impl SurfaceConfiguration {
    /// The pixel dimensions of the configuration.
    pub open spec fn extent(&self) -> PhysicalSize {
        PhysicalSize { width: self.width, height: self.height }
    }

    /// The settings that never change once negotiated: everything but the extent.
    pub open spec fn fixed_settings(&self) -> bool {
        &&& self.usage == TextureUsage::RenderAttachment
        &&& self.present_mode == PresentMode::AutoNoVsync
        &&& self.view_formats@.len() == 0
        &&& self.desired_maximum_frame_latency == FRAME_LATENCY
    }

    /// Same configuration but for the extent.
    pub open spec fn with_extent(self, size: PhysicalSize) -> SurfaceConfiguration {
        SurfaceConfiguration { width: size.width, height: size.height, ..self }
    }
}

/// `i` is the position of the first mark in `marks`.
pub open spec fn is_first_marked(marks: Seq<bool>, i: int) -> bool {
    &&& 0 <= i < marks.len()
    &&& marks[i]
    &&& forall|j: int| 0 <= j < i ==> !#[trigger] marks[j]
}

/// Some entry of the list is marked.
pub open spec fn has_mark(marks: Seq<bool>) -> bool {
    exists|i: int| 0 <= i < marks.len() && #[trigger] marks[i]
}

/// The position preferred among entries of which some are marked: that of
/// the first marked entry, or the front of the list when none is marked.
pub open spec fn preferred_position(marks: Seq<bool>) -> int {
    if exists|i: int| is_first_marked(marks, i) {
        choose|i: int| is_first_marked(marks, i)
    } else {
        0
    }
}

/// For each format of the list, whether it is sRGB.
pub open spec fn srgb_marks(formats: Seq<wgpu::TextureFormat>) -> Seq<bool> {
    Seq::new(formats.len(), |i: int| srgb_encoded(formats[i]))
}

/// The format to present in: the first sRGB one, else the first.
pub open spec fn preferred_format(formats: Seq<wgpu::TextureFormat>) -> wgpu::TextureFormat
    recommends
        formats.len() > 0,
{
    formats[preferred_position(srgb_marks(formats))]
}

/// A mark at `k` has a first mark at or before it.
proof fn lemma_first_mark_before(marks: Seq<bool>, k: int)
    requires
        0 <= k < marks.len(),
        marks[k],
    ensures
        exists|i: int| 0 <= i <= k && is_first_marked(marks, i),
    decreases k,
{
    if exists|j: int| 0 <= j < k && #[trigger] marks[j] {
        let j = choose|j: int| 0 <= j < k && #[trigger] marks[j];
        lemma_first_mark_before(marks, j);
    } else {
        assert(is_first_marked(marks, k));
    }
}

/// When an entry is marked, the preferred position is that of the first
/// marked entry in list order; otherwise it is the front of the list.
/// Whatever position has the first mark is the preferred one.
pub proof fn lemma_preferred_position(marks: Seq<bool>)
    ensures
        has_mark(marks) ==> is_first_marked(marks, preferred_position(marks)),
        !has_mark(marks) ==> preferred_position(marks) == 0,
        marks.len() > 0 ==> 0 <= preferred_position(marks) < marks.len(),
        forall|i: int| is_first_marked(marks, i) ==> preferred_position(marks) == i,
{
    if has_mark(marks) {
        let k = choose|i: int| 0 <= i < marks.len() && #[trigger] marks[i];
        lemma_first_mark_before(marks, k);
    }
}

/// When the list holds an sRGB format, the preferred format is the first
/// such entry in list order; otherwise it is the first entry of the list.
pub proof fn lemma_preferred_format(formats: Seq<wgpu::TextureFormat>)
    requires
        formats.len() > 0,
    ensures
        (exists|i: int| 0 <= i < formats.len() && srgb_encoded(#[trigger] formats[i]))
            ==> exists|i: int|
            {
                &&& 0 <= i < formats.len()
                &&& preferred_format(formats) == #[trigger] formats[i]
                &&& srgb_encoded(formats[i])
                &&& forall|j: int| 0 <= j < i ==> !srgb_encoded(#[trigger] formats[j])
            },
        (forall|i: int| 0 <= i < formats.len() ==> !srgb_encoded(#[trigger] formats[i]))
            ==> preferred_format(formats) == formats[0],
{
    let marks = srgb_marks(formats);
    lemma_preferred_position(marks);
    if exists|i: int| 0 <= i < formats.len() && srgb_encoded(#[trigger] formats[i]) {
        let k = choose|i: int| 0 <= i < formats.len() && srgb_encoded(#[trigger] formats[i]);
        assert(marks[k]);
        let p = preferred_position(marks);
        assert forall|j: int| 0 <= j < p implies !srgb_encoded(#[trigger] formats[j]) by {
            assert(!marks[j]);
        }
    }
}

/// Finds the preferred position among entries of which some are marked: the
/// position of the first marked entry, or 0 when no entry is marked.
pub fn first_marked(marks: &[bool]) -> (position: usize)
    ensures
        position == preferred_position(marks@),
        has_mark(marks@) ==> is_first_marked(marks@, position as int),
        !has_mark(marks@) ==> position == 0,
{
    proof {
        lemma_preferred_position(marks@);
    }
    let mut i: usize = 0;
    while i < marks.len()
        invariant
            i <= marks@.len(),
            forall|j: int| 0 <= j < i ==> !#[trigger] marks@[j],
        decreases marks@.len() - i,
    {
        if marks[i] {
            assert(is_first_marked(marks@, i as int));
            return i;
        }
        i = i + 1;
    }
    0
}

/// Says of each format of the list whether it is sRGB.
fn mark_srgb(formats: &Vec<wgpu::TextureFormat>) -> (marks: Vec<bool>)
    ensures
        marks@ == srgb_marks(formats@),
{
    let mut marks: Vec<bool> = Vec::new();
    let mut i: usize = 0;
    while i < formats.len()
        invariant
            i <= formats@.len(),
            marks@.len() == i,
            forall|j: int| 0 <= j < i ==> #[trigger] marks@[j] == srgb_encoded(formats@[j]),
        decreases formats@.len() - i,
    {
        marks.push(is_srgb(&formats[i]));
        i = i + 1;
    }
    marks
}

/// Picks the format to present in: the first sRGB format of the list, or the
/// first format when none is sRGB.
pub fn select_format(formats: &Vec<wgpu::TextureFormat>) -> (chosen: wgpu::TextureFormat)
    requires
        formats@.len() > 0,
    ensures
        chosen == preferred_format(formats@),
        (exists|i: int| 0 <= i < formats@.len() && srgb_encoded(#[trigger] formats@[i]))
            ==> exists|i: int|
            {
                &&& 0 <= i < formats@.len()
                &&& chosen == #[trigger] formats@[i]
                &&& srgb_encoded(formats@[i])
                &&& forall|j: int| 0 <= j < i ==> !srgb_encoded(#[trigger] formats@[j])
            },
        (forall|i: int| 0 <= i < formats@.len() ==> !srgb_encoded(#[trigger] formats@[i]))
            ==> chosen == formats@[0],
{
    proof {
        lemma_preferred_format(formats@);
        lemma_preferred_position(srgb_marks(formats@));
    }
    let marks = mark_srgb(formats);
    let position = first_marked(marks.as_slice());
    formats[position]
}

/// The configuration a surface of `size` gets under `capabilities`.
pub open spec fn negotiated(
    size: PhysicalSize,
    capabilities: SurfaceCapabilities,
    config: SurfaceConfiguration,
) -> bool {
    &&& config.fixed_settings()
    &&& config.format == preferred_format(capabilities.formats@)
    &&& config.alpha_mode == capabilities.alpha_modes@[0]
    &&& config.extent() == size
}

/// Derives the surface configuration from the window's pixel size and the
/// capabilities the adapter reports: the preferred format, the first alpha
/// mode, no vertical sync, rendering as the only usage.
pub fn create_surface_config(
    size: PhysicalSize,
    capabilities: SurfaceCapabilities,
) -> (config: SurfaceConfiguration)
    requires
        capabilities.is_presentable(),
    ensures
        negotiated(size, capabilities, config),
{
    let surface_format = select_format(&capabilities.formats);
    SurfaceConfiguration {
        usage: TextureUsage::RenderAttachment,
        format: surface_format,
        width: size.width,
        height: size.height,
        present_mode: PresentMode::AutoNoVsync,
        alpha_mode: capabilities.alpha_modes[0],
        view_formats: Vec::new(),
        desired_maximum_frame_latency: FRAME_LATENCY,
    }
}

} // verus!
