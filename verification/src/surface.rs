//! The presentation surface: its capabilities as the driver reports them,
//! and the selection of a swapchain configuration from them.
//!
//! The unverified shell queries the graphics API for the surface's
//! capabilities, formats and present modes, converts them to the plain
//! values below, and receives back a [`SwapchainConfig`] that pins down
//! exactly what to build.

use vstd::prelude::*;
use crate::extent::Extent;

verus! {

/// Pixel format code for 8-bit-per-channel BGRA with sRGB encoding.
/// The value mirrors the graphics API's registry, so the shell converts
/// format codes losslessly in both directions.
pub const FORMAT_B8G8R8A8_SRGB: i32 = 50;

/// Color space code for non-linear sRGB, the only color space the engine
/// asks for. Mirrors the graphics API's registry.
pub const COLOR_SPACE_SRGB_NONLINEAR: i32 = 0;

/// Present mode code for the low-latency, non-blocking (mailbox) mode.
/// Mirrors the graphics API's registry.
pub const PRESENT_MODE_MAILBOX: i32 = 1;

/// Present mode code for the universally supported blocking (FIFO) mode.
/// Mirrors the graphics API's registry.
pub const PRESENT_MODE_FIFO: i32 = 2;

/// A pixel format paired with a color space, as the surface reports them.
#[derive(Clone, Copy, Debug, PartialEq, Eq, Structural)]
pub struct SurfaceFormat {
    pub format: i32,
    pub color_space: i32,
}

/// The surface capabilities the driver reports: image-count bounds and
/// extent bounds. A `max_image_count` of zero means the driver imposes no
/// upper bound. A `current_extent.width` of `u32::MAX` means the surface
/// takes whatever extent the window asks for, within the min/max bounds.
#[derive(Clone, Copy, Debug, PartialEq, Eq, Structural)]
pub struct SurfaceCaps {
    pub min_image_count: u32,
    pub max_image_count: u32,
    pub current_extent: Extent,
    pub min_image_extent: Extent,
    pub max_image_extent: Extent,
}

impl SurfaceCaps {
    /// Well-formedness the graphics API guarantees of reported capabilities:
    /// the extent bounds are ordered, and the image-count bounds are ordered
    /// when an upper bound exists. `min_image_count` leaves room for the one
    /// extra image the engine requests.
    pub open spec fn wf(self) -> bool {
        &&& self.min_image_extent.width <= self.max_image_extent.width
        &&& self.min_image_extent.height <= self.max_image_extent.height
        &&& self.min_image_count < u32::MAX
        &&& (self.max_image_count == 0 || self.min_image_count <= self.max_image_count)
    }
}

/// Everything the surface reports that swapchain construction depends on.
#[derive(Debug)]
pub struct SurfaceInfo {
    pub capabilities: SurfaceCaps,
    pub formats: Vec<SurfaceFormat>,
    pub present_modes: Vec<i32>,
}

impl SurfaceInfo {
    /// The surface must report well-formed capabilities and at least one
    /// format; the graphics API guarantees both for a supported surface.
    pub open spec fn wf(self) -> bool {
        &&& self.capabilities.wf()
        &&& self.formats@.len() > 0
    }
}

/// The preferred surface format: 8-bit-per-channel sRGB.
pub open spec fn is_preferred_format(f: SurfaceFormat) -> bool {
    f.format == FORMAT_B8G8R8A8_SRGB && f.color_space == COLOR_SPACE_SRGB_NONLINEAR
}

/// The format the engine selects: the preferred 8-bit sRGB format when the
/// surface offers it, otherwise the first format the surface reports.
pub open spec fn spec_chosen_format(formats: Seq<SurfaceFormat>) -> SurfaceFormat {
    if exists|i: int| 0 <= i < formats.len() && is_preferred_format(formats[i]) {
        SurfaceFormat { format: FORMAT_B8G8R8A8_SRGB, color_space: COLOR_SPACE_SRGB_NONLINEAR }
    } else {
        formats[0]
    }
}

/// The present mode the engine selects: the low-latency mailbox mode when
/// the surface offers it, otherwise the always-available FIFO mode.
pub open spec fn spec_chosen_present_mode(modes: Seq<i32>) -> i32 {
    if modes.contains(PRESENT_MODE_MAILBOX) {
        PRESENT_MODE_MAILBOX
    } else {
        PRESENT_MODE_FIFO
    }
}

/// `x` clamped into `[lo, hi]`, for `lo <= hi`.
pub open spec fn spec_clamp(x: u32, lo: u32, hi: u32) -> u32
    recommends lo <= hi,
{
    if x < lo { lo } else if x > hi { hi } else { x }
}

/// The swapchain extent the engine selects: the surface's own extent when
/// the surface fixes one, otherwise the window's drawable extent clamped
/// into the surface's bounds.
pub open spec fn spec_chosen_extent(window: Extent, caps: SurfaceCaps) -> Extent {
    if caps.current_extent.width != u32::MAX {
        caps.current_extent
    } else {
        Extent {
            width: spec_clamp(window.width, caps.min_image_extent.width, caps.max_image_extent.width),
            height: spec_clamp(window.height, caps.min_image_extent.height, caps.max_image_extent.height),
        }
    }
}

/// The image count the engine requests: one more than the minimum, clamped
/// to the maximum when the driver reports one.
pub open spec fn spec_chosen_image_count(caps: SurfaceCaps) -> u32 {
    if caps.max_image_count != 0 && caps.min_image_count + 1 > caps.max_image_count {
        caps.max_image_count
    } else {
        (caps.min_image_count + 1) as u32
    }
}

/// Selects the surface format, preferring 8-bit-per-channel sRGB and
/// falling back to the first reported format.
pub fn choose_surface_format(formats: &Vec<SurfaceFormat>) -> (r: SurfaceFormat)
    requires
        formats@.len() > 0,
    ensures
        r == spec_chosen_format(formats@),
{
    let n = formats.len();
    let mut i: usize = 0;
    while i < n
        invariant
            n == formats@.len(),
            0 <= i <= n,
            forall|j: int| 0 <= j < i ==> !is_preferred_format(formats@[j]),
        decreases n - i,
    {
        let f = formats[i];
        if f.format == FORMAT_B8G8R8A8_SRGB && f.color_space == COLOR_SPACE_SRGB_NONLINEAR {
            assert(is_preferred_format(formats@[i as int]));
            assert(f == spec_chosen_format(formats@));
            return f;
        }
        i = i + 1;
    }
    formats[0]
}

/// Selects the present mode, preferring mailbox and falling back to FIFO.
pub fn choose_present_mode(modes: &Vec<i32>) -> (r: i32)
    ensures
        r == spec_chosen_present_mode(modes@),
{
    let n = modes.len();
    let mut i: usize = 0;
    while i < n
        invariant
            n == modes@.len(),
            0 <= i <= n,
            forall|j: int| 0 <= j < i ==> modes@[j] != PRESENT_MODE_MAILBOX,
        decreases n - i,
    {
        if modes[i] == PRESENT_MODE_MAILBOX {
            assert(modes@.contains(PRESENT_MODE_MAILBOX));
            return PRESENT_MODE_MAILBOX;
        }
        i = i + 1;
    }
    assert(forall|j: int| 0 <= j < modes@.len() ==> modes@[j] != PRESENT_MODE_MAILBOX);
    assert(!modes@.contains(PRESENT_MODE_MAILBOX));
    PRESENT_MODE_FIFO
}

fn clamp_u32(x: u32, lo: u32, hi: u32) -> (r: u32)
    requires
        lo <= hi,
    ensures
        r == spec_clamp(x, lo, hi),
{
    if x < lo { lo } else if x > hi { hi } else { x }
}

/// Selects the swapchain extent: the surface's fixed extent when it reports
/// one, otherwise the window's drawable extent clamped to the surface's
/// bounds.
pub fn choose_extent(window: Extent, caps: &SurfaceCaps) -> (r: Extent)
    requires
        caps.wf(),
    ensures
        r == spec_chosen_extent(window, *caps),
{
    if caps.current_extent.width != u32::MAX {
        caps.current_extent
    } else {
        Extent {
            width: clamp_u32(window.width, caps.min_image_extent.width, caps.max_image_extent.width),
            height: clamp_u32(window.height, caps.min_image_extent.height, caps.max_image_extent.height),
        }
    }
}

/// Selects the image count: one more than the reported minimum, clamped to
/// the reported maximum when one exists.
pub fn choose_image_count(caps: &SurfaceCaps) -> (r: u32)
    requires
        caps.wf(),
    ensures
        r == spec_chosen_image_count(*caps),
{
    let desired = caps.min_image_count + 1;
    if caps.max_image_count != 0 && desired > caps.max_image_count {
        caps.max_image_count
    } else {
        desired
    }
}

/// Everything size- and format-dependent that swapchain construction needs,
/// fully determined by the surface's report and the window's extent.
#[derive(Clone, Copy, Debug, PartialEq, Eq, Structural)]
pub struct SwapchainConfig {
    pub format: SurfaceFormat,
    pub present_mode: i32,
    pub extent: Extent,
    pub image_count: u32,
}

/// The configuration the engine selects for a given surface report and
/// window extent.
pub open spec fn spec_swapchain_config(surface: SurfaceInfo, window: Extent) -> SwapchainConfig {
    SwapchainConfig {
        format: spec_chosen_format(surface.formats@),
        present_mode: spec_chosen_present_mode(surface.present_modes@),
        extent: spec_chosen_extent(window, surface.capabilities),
        image_count: spec_chosen_image_count(surface.capabilities),
    }
}

/// Computes the full swapchain configuration for the given surface report
/// and window extent: preferred-or-first format, mailbox-or-FIFO present
/// mode, fixed-or-clamped extent, and minimum-plus-one image count.
pub fn plan_swapchain(surface: &SurfaceInfo, window: Extent) -> (r: SwapchainConfig)
    requires
        surface.wf(),
    ensures
        r == spec_swapchain_config(*surface, window),
{
    SwapchainConfig {
        format: choose_surface_format(&surface.formats),
        present_mode: choose_present_mode(&surface.present_modes),
        extent: choose_extent(window, &surface.capabilities),
        image_count: choose_image_count(&surface.capabilities),
    }
}

} // verus!
