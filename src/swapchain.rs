use vstd::prelude::*;

use crate::image::Extent2D;

verus! {

/// Raw value of the mailbox present mode.
pub const PRESENT_MODE_MAILBOX: i32 = 1;

/// Raw value of the FIFO present mode, which every surface supports.
pub const PRESENT_MODE_FIFO: i32 = 2;

/// Bit of the identity surface transform.
pub const SURFACE_TRANSFORM_IDENTITY: u32 = 1;

/// What the engine reads of a surface's capabilities.
#[derive(Clone, Copy, Debug, PartialEq, Eq, Structural)]
pub struct SurfaceCapabilities {
    pub min_image_count: u32,
    /// 0 where the surface sets no maximum.
    pub max_image_count: u32,
    /// `u32::MAX` wide where the swapchain decides the surface's size.
    pub current_extent: Extent2D,
    /// Bits of the transforms the surface supports.
    pub supported_transforms: u32,
    /// Bits of the surface's current transform.
    pub current_transform: u32,
}

/// How the swapchain is created.
#[derive(Clone, Copy, Debug, PartialEq, Eq, Structural)]
pub struct SwapchainSettings {
    pub min_image_count: u32,
    pub extent: Extent2D,
    pub pre_transform: u32,
    pub present_mode: i32,
}

/// One image more than the surface's minimum, but no more than its maximum where it
/// has one.
pub open spec fn image_count_spec(caps: SurfaceCapabilities) -> u32 {
    if caps.max_image_count > 0 && caps.min_image_count + 1 > caps.max_image_count {
        caps.max_image_count
    } else {
        (caps.min_image_count + 1) as u32
    }
}

/// The surface's own extent, or the window's where the surface leaves it open.
pub open spec fn extent_spec(caps: SurfaceCapabilities, window_extent: Extent2D) -> Extent2D {
    if caps.current_extent.width == u32::MAX {
        window_extent
    } else {
        caps.current_extent
    }
}

/// The identity transform where supported, else the surface's current transform.
pub open spec fn pre_transform_spec(caps: SurfaceCapabilities) -> u32 {
    if caps.supported_transforms & SURFACE_TRANSFORM_IDENTITY == SURFACE_TRANSFORM_IDENTITY {
        SURFACE_TRANSFORM_IDENTITY
    } else {
        caps.current_transform
    }
}

/// Mailbox where the surface offers it, else FIFO.
pub open spec fn present_mode_spec(present_modes: Seq<i32>) -> i32 {
    if present_modes.contains(PRESENT_MODE_MAILBOX) {
        PRESENT_MODE_MAILBOX
    } else {
        PRESENT_MODE_FIFO
    }
}

/// The swapchain for a surface with capabilities `caps` and present modes
/// `present_modes`, shown in a window of `window_extent`.
pub fn swapchain_settings(caps: SurfaceCapabilities, window_extent: Extent2D, present_modes: &[i32]) -> (r: SwapchainSettings)
    requires
        caps.min_image_count < u32::MAX,
    ensures
        r.min_image_count == image_count_spec(caps),
        r.extent == extent_spec(caps, window_extent),
        r.pre_transform == pre_transform_spec(caps),
        r.present_mode == present_mode_spec(present_modes@),
{
    let extent = if caps.current_extent.width == u32::MAX {
        window_extent
    } else {
        caps.current_extent
    };
    let mut min_image_count = caps.min_image_count + 1;
    if caps.max_image_count > 0 && min_image_count > caps.max_image_count {
        min_image_count = caps.max_image_count;
    }
    let pre_transform = if caps.supported_transforms & SURFACE_TRANSFORM_IDENTITY == SURFACE_TRANSFORM_IDENTITY {
        SURFACE_TRANSFORM_IDENTITY
    } else {
        caps.current_transform
    };
    let mut present_mode = PRESENT_MODE_FIFO;
    let mut i: usize = 0;
    while i < present_modes.len()
        invariant
            i <= present_modes@.len(),
            present_mode == (if present_modes@.subrange(0, i as int).contains(PRESENT_MODE_MAILBOX) {
                PRESENT_MODE_MAILBOX
            } else {
                PRESENT_MODE_FIFO
            }),
        decreases present_modes@.len() - i,
    {
        if present_modes[i] == PRESENT_MODE_MAILBOX {
            present_mode = PRESENT_MODE_MAILBOX;
            assert(present_modes@.subrange(0, i + 1)[i as int] == PRESENT_MODE_MAILBOX);
        } else {
            assert(present_modes@.subrange(0, i + 1) =~= present_modes@.subrange(0, i as int).push(present_modes@[i as int]));
        }
        i += 1;
    }
    assert(present_modes@.subrange(0, present_modes@.len() as int) =~= present_modes@);
    SwapchainSettings { min_image_count, extent, pre_transform, present_mode }
}

} // verus!
