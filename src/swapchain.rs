//! Swapchain negotiation: from what the surface supports and what the
//! renderer asks for, the format, present mode, extent, image count and
//! queue sharing that a swapchain is created with; and the swapchain's
//! lifecycle.

use crate::device::{unique_family_indices, PhysicalDeviceQueueFamilies};
use crate::settings::Resolution;
use vstd::prelude::*;

verus! {

/// The raw value of the FIFO present mode, which every surface supports.
pub const PRESENT_MODE_FIFO: i32 = 2;

/// A two-dimensional extent in pixels.
#[derive(Clone, Copy, Debug, PartialEq, Eq, Structural)]
pub struct Extent2D {
    pub width: u32,
    pub height: u32,
}

/// The surface capabilities that negotiation reads. A `max_image_count` of
/// zero means that the image count has no upper bound.
#[derive(Clone, Copy, Debug, PartialEq, Eq, Structural)]
pub struct SurfaceCapabilities {
    pub min_image_count: u32,
    pub max_image_count: u32,
    pub min_image_extent: Extent2D,
    pub max_image_extent: Extent2D,
    /// The surface's current transform, as raw flag bits.
    pub current_transform: u32,
}

/// An image format and colour space, as their raw values.
#[derive(Clone, Copy, Debug, PartialEq, Eq, Structural)]
pub struct SurfaceFormat {
    pub format: i32,
    pub color_space: i32,
}

/// What a surface supports on the selected device. Its formats and present
/// modes are never empty (see `check_surface_support`).
#[derive(Clone, Debug)]
pub struct SurfaceSupport {
    pub capabilities: SurfaceCapabilities,
    pub formats: Vec<SurfaceFormat>,
    pub present_modes: Vec<i32>,
}

/// Why no swapchain can be created for a surface.
#[derive(Clone, Copy, Debug, PartialEq, Eq, Structural)]
pub enum SwapchainError {
    NoSurfaceFormats,
    NoPresentModes,
}

impl SurfaceSupport {
    pub fn new(capabilities: SurfaceCapabilities, formats: Vec<SurfaceFormat>, present_modes: Vec<
        i32,
    >) -> (r: SurfaceSupport)
        ensures
            r.capabilities == capabilities,
            r.formats@ == formats@,
            r.present_modes@ == present_modes@,
    {
        SurfaceSupport { capabilities, formats, present_modes }
    }

    /// Both lists are non-empty.
    pub open spec fn wf(&self) -> bool {
        self.formats@.len() > 0 && self.present_modes@.len() > 0
    }
}

/// Accepts what the surface reports, or says what it lacks: no formats is
/// checked first, then no present modes.
pub fn check_surface_support(
    capabilities: SurfaceCapabilities,
    formats: Vec<SurfaceFormat>,
    present_modes: Vec<i32>,
) -> (r: Result<SurfaceSupport, SwapchainError>)
    ensures
        formats@.len() == 0 ==> r == Err::<SurfaceSupport, SwapchainError>(
            SwapchainError::NoSurfaceFormats,
        ),
        formats@.len() > 0 && present_modes@.len() == 0 ==> r == Err::<
            SurfaceSupport,
            SwapchainError,
        >(SwapchainError::NoPresentModes),
        r is Ok <==> formats@.len() > 0 && present_modes@.len() > 0,
        r matches Ok(s) ==> s.wf() && s.capabilities == capabilities && s.formats@ == formats@
            && s.present_modes@ == present_modes@,
{
    if formats.len() == 0 {
        return Err(SwapchainError::NoSurfaceFormats);
    }
    if present_modes.len() == 0 {
        return Err(SwapchainError::NoPresentModes);
    }
    Ok(SurfaceSupport::new(capabilities, formats, present_modes))
}

/// The surface format to use: the first one offered that has both the
/// desired format and colour space, else the first one offered.
pub open spec fn chosen_surface_format(
    formats: Seq<SurfaceFormat>,
    desired_format: i32,
    desired_color_space: i32,
    r: SurfaceFormat,
) -> bool {
    if exists|i: int|
        0 <= i < formats.len() && (#[trigger] formats[i]).format == desired_format
            && formats[i].color_space == desired_color_space {
        r.format == desired_format && r.color_space == desired_color_space
    } else {
        r == formats[0]
    }
}

pub fn select_surface_format(
    surface_support: &SurfaceSupport,
    desired_format: i32,
    desired_color_space: i32,
) -> (r: SurfaceFormat)
    requires
        surface_support.wf(),
    ensures
        chosen_surface_format(surface_support.formats@, desired_format, desired_color_space, r),
{
    let mut i: usize = 0;
    while i < surface_support.formats.len()
        invariant
            i <= surface_support.formats@.len(),
            forall|j: int|
                0 <= j < i ==> !((#[trigger] surface_support.formats@[j]).format == desired_format
                    && surface_support.formats@[j].color_space == desired_color_space),
        decreases surface_support.formats@.len() - i,
    {
        let f = surface_support.formats[i];
        if f.format == desired_format && f.color_space == desired_color_space {
            return f;
        }
        i += 1;
    }
    surface_support.formats[0]
}

/// The present mode to use: the desired one when the surface offers it,
/// else FIFO.
pub fn select_present_mode(surface_support: &SurfaceSupport, desired_present_mode: i32) -> (r: i32)
    ensures
        r == if surface_support.present_modes@.contains(desired_present_mode) {
            desired_present_mode
        } else {
            PRESENT_MODE_FIFO
        },
{
    let mut i: usize = 0;
    while i < surface_support.present_modes.len()
        invariant
            i <= surface_support.present_modes@.len(),
            forall|j: int|
                0 <= j < i ==> #[trigger] surface_support.present_modes@[j] != desired_present_mode,
        decreases surface_support.present_modes@.len() - i,
    {
        if surface_support.present_modes[i] == desired_present_mode {
            return desired_present_mode;
        }
        i += 1;
    }
    PRESENT_MODE_FIFO
}

/// `v` raised to `lo`, then lowered to `hi`.
pub open spec fn clamp_spec(v: u32, lo: u32, hi: u32) -> u32 {
    if v < lo {
        if lo > hi {
            hi
        } else {
            lo
        }
    } else if v > hi {
        hi
    } else {
        v
    }
}

/// The extent to create the swapchain with: the requested resolution,
/// clamped per dimension to the surface's minimum and maximum extent.
pub fn select_swapchain_extent(surface_support: &SurfaceSupport, resolution: &Resolution) -> (r:
    Extent2D)
    ensures
        r.width == clamp_spec(
            resolution.width,
            surface_support.capabilities.min_image_extent.width,
            surface_support.capabilities.max_image_extent.width,
        ),
        r.height == clamp_spec(
            resolution.height,
            surface_support.capabilities.min_image_extent.height,
            surface_support.capabilities.max_image_extent.height,
        ),
{
    let caps = surface_support.capabilities;
    let raised_width = if resolution.width > caps.min_image_extent.width {
        resolution.width
    } else {
        caps.min_image_extent.width
    };
    let width = if raised_width < caps.max_image_extent.width {
        raised_width
    } else {
        caps.max_image_extent.width
    };
    let raised_height = if resolution.height > caps.min_image_extent.height {
        resolution.height
    } else {
        caps.min_image_extent.height
    };
    let height = if raised_height < caps.max_image_extent.height {
        raised_height
    } else {
        caps.max_image_extent.height
    };
    Extent2D { width, height }
}

/// The number of images to ask for: one more than the surface's minimum,
/// capped by its maximum when it has one.
pub open spec fn image_count_spec(c: SurfaceCapabilities) -> u32 {
    let wanted: u32 = if c.min_image_count == u32::MAX {
        u32::MAX
    } else {
        (c.min_image_count + 1) as u32
    };
    if c.max_image_count > 0 && c.max_image_count < wanted {
        c.max_image_count
    } else {
        wanted
    }
}

pub fn select_swapchain_min_image_count(surface_support: &SurfaceSupport) -> (r: u32)
    ensures
        r == image_count_spec(surface_support.capabilities),
{
    let caps = surface_support.capabilities;
    let upper_bound = if caps.max_image_count > 0 {
        caps.max_image_count
    } else {
        u32::MAX
    };
    let wanted = if caps.min_image_count == u32::MAX {
        u32::MAX
    } else {
        caps.min_image_count + 1
    };
    if upper_bound < wanted {
        upper_bound
    } else {
        wanted
    }
}

/// How swapchain images are shared between queue families.
#[derive(Clone, Copy, Debug, PartialEq, Eq, Structural)]
pub enum SharingMode {
    Exclusive,
    Concurrent,
}

/// Exclusive sharing with no family list when graphics and presentation use
/// the same family; otherwise concurrent sharing between the distinct
/// families.
pub fn get_queue_family_config(queue_families: &PhysicalDeviceQueueFamilies) -> (r: (
    SharingMode,
    Vec<u32>,
))
    ensures
        queue_families.graphics_family_index == queue_families.present_family_index ==> r.0
            == SharingMode::Exclusive && r.1@.len() == 0,
        queue_families.graphics_family_index != queue_families.present_family_index ==> r.0
            == SharingMode::Concurrent && r.1@ == unique_family_indices(*queue_families),
{
    if queue_families.graphics_family_index == queue_families.present_family_index {
        (SharingMode::Exclusive, Vec::new())
    } else {
        (SharingMode::Concurrent, queue_families.get_unique_indices())
    }
}

/// Everything a swapchain is created with.
#[derive(Clone, Debug)]
pub struct SwapchainConfig {
    pub surface_format: SurfaceFormat,
    pub present_mode: i32,
    pub extent: Extent2D,
    pub min_image_count: u32,
    pub sharing_mode: SharingMode,
    pub queue_family_indices: Vec<u32>,
    pub pre_transform: u32,
}

/// Negotiates a swapchain against the surface's current support: the
/// preferred format and present mode where offered, the requested extent
/// clamped to the surface's limits, one image over the minimum, and the
/// sharing that the queue families call for.
pub fn negotiate_swapchain(
    surface_support: &SurfaceSupport,
    queue_families: &PhysicalDeviceQueueFamilies,
    resolution: &Resolution,
    desired_format: i32,
    desired_color_space: i32,
    desired_present_mode: i32,
) -> (r: SwapchainConfig)
    requires
        surface_support.wf(),
    ensures
        chosen_surface_format(
            surface_support.formats@,
            desired_format,
            desired_color_space,
            r.surface_format,
        ),
        r.present_mode == if surface_support.present_modes@.contains(desired_present_mode) {
            desired_present_mode
        } else {
            PRESENT_MODE_FIFO
        },
        r.extent.width == clamp_spec(
            resolution.width,
            surface_support.capabilities.min_image_extent.width,
            surface_support.capabilities.max_image_extent.width,
        ),
        r.extent.height == clamp_spec(
            resolution.height,
            surface_support.capabilities.min_image_extent.height,
            surface_support.capabilities.max_image_extent.height,
        ),
        r.min_image_count == image_count_spec(surface_support.capabilities),
        queue_families.graphics_family_index == queue_families.present_family_index ==> r.sharing_mode
            == SharingMode::Exclusive && r.queue_family_indices@.len() == 0,
        queue_families.graphics_family_index != queue_families.present_family_index
            ==> r.sharing_mode == SharingMode::Concurrent && r.queue_family_indices@
            == unique_family_indices(*queue_families),
        r.pre_transform == surface_support.capabilities.current_transform,
{
    let surface_format = select_surface_format(
        surface_support,
        desired_format,
        desired_color_space,
    );
    let present_mode = select_present_mode(surface_support, desired_present_mode);
    let extent = select_swapchain_extent(surface_support, resolution);
    let min_image_count = select_swapchain_min_image_count(surface_support);
    let (sharing_mode, queue_family_indices) = get_queue_family_config(queue_families);
    SwapchainConfig {
        surface_format,
        present_mode,
        extent,
        min_image_count,
        sharing_mode,
        queue_family_indices,
        pre_transform: surface_support.capabilities.current_transform,
    }
}

} // verus!
