use vstd::prelude::*;

use crate::device::dedup_indices;
use crate::device::is_dedup_of;
use crate::error::Error;

verus! {

/// A two-dimensional pixel size.
#[derive(Clone, Copy, Debug, PartialEq, Eq, Structural)]
pub struct Extent2D {
    pub width: u32,
    pub height: u32,
}

/// A pixel format paired with a color space, as the surface advertises them.
#[derive(Clone, Copy, Debug, PartialEq, Eq, Structural)]
pub struct SurfaceFormat {
    pub format: u32,
    pub color_space: u32,
}

/// What the surface reports about itself at one moment: image-count bounds,
/// the current extent (or the window-matching sentinel), extent bounds, and
/// the current transform to pass through at creation.
#[derive(Clone, Copy, Debug, PartialEq, Eq, Structural)]
pub struct SurfaceCapabilities {
    pub min_image_count: u32,
    pub max_image_count: u32,
    pub current_extent: Extent2D,
    pub min_image_extent: Extent2D,
    pub max_image_extent: Extent2D,
    pub current_transform: u32,
}

/// Whether the swapchain images may be touched by several queue families
/// without ownership transfers, or by one at a time.
#[derive(Clone, Copy, Debug, PartialEq, Eq, Structural)]
pub enum SharingMode {
    Exclusive,
    Concurrent,
}

/// The fixed fallback pixel format: 8-bit BGRA.
pub const FORMAT_B8G8R8A8_SRGB: u32 = 50;

/// The fixed fallback color space: sRGB nonlinear.
pub const COLOR_SPACE_SRGB_NONLINEAR: u32 = 0;

pub const PRESENT_MODE_IMMEDIATE: u32 = 0;

pub const PRESENT_MODE_MAILBOX: u32 = 1;

/// The universally guaranteed present mode, used when the caller's
/// preference is not advertised.
pub const PRESENT_MODE_FIFO: u32 = 2;

/// Sentinel width: the surface asks for an extent matching the window.
pub const EXTENT_MATCH_WINDOW: u32 = 0xFFFF_FFFF;

/// The fixed usage of every swapchain image: color attachment (0x10) plus
/// transfer destination (0x2) — enough to render, present, and blit into.
pub const SWAPCHAIN_IMAGE_USAGE: u32 = 0x12;

impl SurfaceCapabilities {
    /// What the driver guarantees of every capability report: at least one
    /// image, a maximum at or above the minimum (zero meaning unbounded),
    /// and ordered extent bounds.
    pub open spec fn wf(self) -> bool {
        &&& 1 <= self.min_image_count
        &&& (self.max_image_count == 0 ==> self.min_image_count < 0xFFFF_FFFFu32)
        &&& (self.max_image_count != 0 ==> self.min_image_count <= self.max_image_count)
        &&& self.min_image_extent.width <= self.max_image_extent.width
        &&& self.min_image_extent.height <= self.max_image_extent.height
    }
}

pub open spec fn default_surface_format() -> SurfaceFormat {
    SurfaceFormat { format: FORMAT_B8G8R8A8_SRGB, color_space: COLOR_SPACE_SRGB_NONLINEAR }
}

/// The format policy: the caller's preference when the surface advertises
/// it, the fixed default otherwise or when no preference was given.
pub open spec fn chosen_surface_format(
    available: Seq<SurfaceFormat>,
    preferred: Option<SurfaceFormat>,
) -> SurfaceFormat {
    match preferred {
        Some(p) => if available.contains(p) {
            p
        } else {
            default_surface_format()
        },
        None => default_surface_format(),
    }
}

/// The present-mode policy: the caller's preference when advertised, FIFO
/// otherwise or when no preference was given.
pub open spec fn chosen_present_mode(available: Seq<u32>, preferred: Option<u32>) -> u32 {
    match preferred {
        Some(p) => if available.contains(p) {
            p
        } else {
            PRESENT_MODE_FIFO
        },
        None => PRESENT_MODE_FIFO,
    }
}

pub open spec fn clamped(x: u32, lo: u32, hi: u32) -> u32 {
    if x < lo {
        lo
    } else if x > hi {
        hi
    } else {
        x
    }
}

/// The extent policy: the surface's current extent verbatim when it is not
/// the window-matching sentinel; otherwise the request, clamped per
/// dimension into the surface's extent bounds.
pub open spec fn resolved_extent(caps: SurfaceCapabilities, requested: Extent2D) -> Extent2D {
    if caps.current_extent.width != EXTENT_MATCH_WINDOW {
        caps.current_extent
    } else {
        Extent2D {
            width: clamped(
                requested.width,
                caps.min_image_extent.width,
                caps.max_image_extent.width,
            ),
            height: clamped(
                requested.height,
                caps.min_image_extent.height,
                caps.max_image_extent.height,
            ),
        }
    }
}

/// The image-count policy: the bound itself when the surface pins minimum
/// and maximum together, one above the minimum otherwise.
pub open spec fn resolved_image_count(caps: SurfaceCapabilities) -> u32 {
    if caps.min_image_count == caps.max_image_count {
        caps.max_image_count
    } else {
        (caps.min_image_count + 1) as u32
    }
}

/// The sharing policy: concurrent when more than one distinct family uses
/// the images, exclusive otherwise.
pub open spec fn sharing_mode_for(unique_indices: Seq<u32>) -> SharingMode {
    if unique_indices.len() > 1 {
        SharingMode::Concurrent
    } else {
        SharingMode::Exclusive
    }
}

/// What the caller asks of a new swapchain: the requested size and optional
/// format and present-mode preferences.
#[derive(Clone, Copy, Debug, PartialEq, Eq, Structural)]
pub struct SwapchainRequestInfo {
    pub extent: Extent2D,
    pub surface_format: Option<SurfaceFormat>,
    pub present_mode: Option<u32>,
}

/// The resolved presentation configuration a swapchain is created from.
#[derive(Clone, Debug)]
pub struct SwapchainConfig {
    pub surface_format: SurfaceFormat,
    pub present_mode: u32,
    pub extent: Extent2D,
    pub image_count: u32,
    pub sharing_mode: SharingMode,
    pub queue_family_indices: Vec<u32>,
}

/// Pick the caller's surface format where the surface advertises it, the
/// fixed 8-bit BGRA sRGB default otherwise.
pub fn choose_surface_format(
    available: &Vec<SurfaceFormat>,
    preferred: Option<SurfaceFormat>,
) -> (r: SurfaceFormat)
    ensures
        r == chosen_surface_format(available@, preferred),
{
    match preferred {
        Some(p) => {
            let mut k: usize = 0;
            while k < available.len()
                invariant
                    k <= available@.len(),
                    preferred == Some(p),
                    forall|j: int| 0 <= j < k ==> available@[j] != p,
                decreases available@.len() - k,
            {
                if available[k] == p {
                    assert(available@.contains(p)) by {
                        assert(available@[k as int] == p);
                    }
                    return p;
                }
                k += 1;
            }
            assert(!available@.contains(p));
            SurfaceFormat { format: FORMAT_B8G8R8A8_SRGB, color_space: COLOR_SPACE_SRGB_NONLINEAR }
        },
        None => SurfaceFormat {
            format: FORMAT_B8G8R8A8_SRGB,
            color_space: COLOR_SPACE_SRGB_NONLINEAR,
        },
    }
}

/// Pick the caller's present mode where the surface advertises it, FIFO
/// otherwise.
pub fn choose_present_mode(available: &Vec<u32>, preferred: Option<u32>) -> (r: u32)
    ensures
        r == chosen_present_mode(available@, preferred),
{
    match preferred {
        Some(p) => {
            let mut k: usize = 0;
            while k < available.len()
                invariant
                    k <= available@.len(),
                    preferred == Some(p),
                    forall|j: int| 0 <= j < k ==> available@[j] != p,
                decreases available@.len() - k,
            {
                if available[k] == p {
                    assert(available@.contains(p)) by {
                        assert(available@[k as int] == p);
                    }
                    return p;
                }
                k += 1;
            }
            assert(!available@.contains(p));
            PRESENT_MODE_FIFO
        },
        None => PRESENT_MODE_FIFO,
    }
}

/// Use the surface's current extent verbatim, unless it reports the
/// window-matching sentinel, in which case clamp the request into the
/// surface's bounds, each dimension independently.
pub fn resolve_extent(caps: &SurfaceCapabilities, requested: Extent2D) -> (r: Extent2D)
    requires
        caps.wf(),
    ensures
        r == resolved_extent(*caps, requested),
{
    if caps.current_extent.width != EXTENT_MATCH_WINDOW {
        caps.current_extent
    } else {
        Extent2D {
            width: clamp_u32(
                requested.width,
                caps.min_image_extent.width,
                caps.max_image_extent.width,
            ),
            height: clamp_u32(
                requested.height,
                caps.min_image_extent.height,
                caps.max_image_extent.height,
            ),
        }
    }
}

fn clamp_u32(x: u32, lo: u32, hi: u32) -> (r: u32)
    requires
        lo <= hi,
    ensures
        r == clamped(x, lo, hi),
{
    if x < lo {
        lo
    } else if x > hi {
        hi
    } else {
        x
    }
}

/// Use the surface's image-count bound when it is exact, one above the
/// minimum otherwise.
pub fn resolve_image_count(caps: &SurfaceCapabilities) -> (r: u32)
    requires
        caps.wf(),
    ensures
        r == resolved_image_count(*caps),
{
    if caps.min_image_count == caps.max_image_count {
        caps.max_image_count
    } else {
        caps.min_image_count + 1
    }
}

/// Request concurrent sharing across the given families when more than one
/// is distinct, exclusive sharing otherwise.
pub fn resolve_sharing_mode(unique_indices: &Vec<u32>) -> (r: SharingMode)
    ensures
        r == sharing_mode_for(unique_indices@),
{
    if unique_indices.len() > 1 {
        SharingMode::Concurrent
    } else {
        SharingMode::Exclusive
    }
}

/// Derive the full presentation configuration from the surface's reports,
/// the caller's preferences, and the family indices that will touch the
/// images (deduplicated here, so repeated roles cost nothing).
pub fn plan_swapchain(
    info: &SwapchainRequestInfo,
    available_formats: &Vec<SurfaceFormat>,
    available_modes: &Vec<u32>,
    caps: &SurfaceCapabilities,
    queue_family_indices: &Vec<u32>,
) -> (r: SwapchainConfig)
    requires
        caps.wf(),
    ensures
        r.surface_format == chosen_surface_format(available_formats@, info.surface_format),
        r.present_mode == chosen_present_mode(available_modes@, info.present_mode),
        r.extent == resolved_extent(*caps, info.extent),
        r.image_count == resolved_image_count(*caps),
        is_dedup_of(r.queue_family_indices@, queue_family_indices@),
        r.sharing_mode == sharing_mode_for(r.queue_family_indices@),
{
    let surface_format = choose_surface_format(available_formats, info.surface_format);
    let present_mode = choose_present_mode(available_modes, info.present_mode);
    let extent = resolve_extent(caps, info.extent);
    let image_count = resolve_image_count(caps);
    let unique = dedup_indices(queue_family_indices);
    let sharing_mode = resolve_sharing_mode(&unique);
    SwapchainConfig {
        surface_format,
        present_mode,
        extent,
        image_count,
        sharing_mode,
        queue_family_indices: unique,
    }
}

/// The swapchain as this subsystem tracks it: the driver handle, the image
/// handles the driver enumerated, one owned view handle per image, the
/// resolved configuration, and the capabilities it was derived from.
#[derive(Clone, Debug)]
pub struct Swapchain {
    pub handle: u64,
    pub image_count: u32,
    pub images: Vec<u64>,
    pub image_views: Vec<u64>,
    pub extent: Extent2D,
    pub surface_format: SurfaceFormat,
    pub present_mode: u32,
    pub sharing_mode: SharingMode,
    pub capabilities: SurfaceCapabilities,
    pub queue_family_indices: Vec<u32>,
}

/// Recreation keeps the configuration of the original creation and renews
/// only the extent and the cached capabilities.
pub open spec fn recreate_spec(
    s: Swapchain,
    caps: SurfaceCapabilities,
    width: u32,
    height: u32,
) -> Swapchain {
    Swapchain {
        extent: resolved_extent(caps, Extent2D { width, height }),
        capabilities: caps,
        ..s
    }
}

impl Swapchain {
    /// One view per image, in the same order, and as many images as the
    /// resolved image count.
    pub open spec fn wf(self) -> bool {
        &&& self.images@.len() == self.image_views@.len()
        &&& self.images@.len() == self.image_count
    }

    /// Assemble the tracked swapchain from a resolved configuration and what
    /// the driver handed back; rejected when the views do not pair up with
    /// the images or the driver enumerated a different number of images than
    /// the configuration asked for.
    pub fn new(
        config: SwapchainConfig,
        capabilities: SurfaceCapabilities,
        handle: u64,
        images: Vec<u64>,
        image_views: Vec<u64>,
    ) -> (r: Result<Swapchain, Error>)
        ensures
            match r {
                Ok(s) => {
                    &&& s.wf()
                    &&& s == (Swapchain {
                        handle,
                        image_count: config.image_count,
                        images,
                        image_views,
                        extent: config.extent,
                        surface_format: config.surface_format,
                        present_mode: config.present_mode,
                        sharing_mode: config.sharing_mode,
                        capabilities,
                        queue_family_indices: config.queue_family_indices,
                    })
                },
                Err(e) => {
                    &&& e == Error::NoSwapchainImages
                    &&& (images@.len() != image_views@.len() || images@.len()
                        != config.image_count)
                },
            },
            r is Ok <==> (images@.len() == image_views@.len() && images@.len()
                == config.image_count),
    {
        if images.len() != image_views.len() {
            return Err(Error::NoSwapchainImages);
        }
        if config.image_count as usize != images.len() {
            return Err(Error::NoSwapchainImages);
        }
        Ok(
            Swapchain {
                handle,
                image_count: config.image_count,
                images,
                image_views,
                extent: config.extent,
                surface_format: config.surface_format,
                present_mode: config.present_mode,
                sharing_mode: config.sharing_mode,
                capabilities,
                queue_family_indices: config.queue_family_indices,
            },
        )
    }

    /// Renew the extent from freshly queried capabilities, holding format,
    /// present mode, image count, and sharing mode fixed from the original
    /// creation. Returns the extent the new swapchain must be created with;
    /// the caller swaps the driver objects in afterwards.
    pub fn recreate(&mut self, fresh_caps: &SurfaceCapabilities, width: u32, height: u32) -> (r:
        Extent2D)
        requires
            fresh_caps.wf(),
        ensures
            *final(self) == recreate_spec(*old(self), *fresh_caps, width, height),
            r == final(self).extent,
    {
        self.capabilities = *fresh_caps;
        let e = resolve_extent(fresh_caps, Extent2D { width, height });
        self.extent = e;
        e
    }

    /// Swap in the driver objects of a freshly created swapchain: the new
    /// handle, its images, and their views; rejected, leaving the tracked
    /// state unchanged, when the views do not pair up with the images or
    /// their number differs from the held image count.
    pub fn replace_images(&mut self, handle: u64, images: Vec<u64>, image_views: Vec<u64>) -> (r:
        Result<(), Error>)
        ensures
            match r {
                Ok(_) => {
                    &&& images@.len() == image_views@.len()
                    &&& images@.len() == old(self).image_count
                    &&& *final(self) == (Swapchain { handle, images, image_views, ..*old(self) })
                    &&& old(self).wf() ==> final(self).wf()
                },
                Err(e) => {
                    &&& e == Error::NoSwapchainImages
                    &&& (images@.len() != image_views@.len() || images@.len() != old(
                        self,
                    ).image_count)
                    &&& *final(self) == *old(self)
                },
            },
            r is Ok <==> (images@.len() == image_views@.len() && images@.len() == old(
                self,
            ).image_count),
    {
        if images.len() != image_views.len() {
            return Err(Error::NoSwapchainImages);
        }
        if self.image_count as usize != images.len() {
            return Err(Error::NoSwapchainImages);
        }
        self.handle = handle;
        self.images = images;
        self.image_views = image_views;
        Ok(())
    }
}

/// Recreating at a requested size and then recreating again at the same
/// size leaves image count, format, present mode, sharing mode, and family
/// indices unchanged, and lands on the requested size clamped into the
/// bounds of the latest capability query (or on the extent that query pinned
/// to the window).
pub proof fn lemma_recreate_idempotent(
    s: Swapchain,
    caps1: SurfaceCapabilities,
    caps2: SurfaceCapabilities,
    width: u32,
    height: u32,
)
    ensures
        ({
            let s2 = recreate_spec(recreate_spec(s, caps1, width, height), caps2, width, height);
            &&& s2.image_count == s.image_count
            &&& s2.surface_format == s.surface_format
            &&& s2.present_mode == s.present_mode
            &&& s2.sharing_mode == s.sharing_mode
            &&& s2.queue_family_indices == s.queue_family_indices
            &&& s2.extent == resolved_extent(caps2, Extent2D { width, height })
        }),
{
}

/// Clamping law: outside the window-matching case, each resolved dimension
/// lies inside the surface's bounds, equals the request whenever the request
/// already lies inside them, and equals the request clamped into them in
/// general; in the window-matching case the surface's current extent is used
/// verbatim, whatever was requested.
pub proof fn lemma_extent_clamped(caps: SurfaceCapabilities, requested: Extent2D)
    requires
        caps.wf(),
    ensures
        ({
            let r = resolved_extent(caps, requested);
            &&& caps.current_extent.width == EXTENT_MATCH_WINDOW ==> {
                &&& r.width == clamped(
                    requested.width,
                    caps.min_image_extent.width,
                    caps.max_image_extent.width,
                )
                &&& r.height == clamped(
                    requested.height,
                    caps.min_image_extent.height,
                    caps.max_image_extent.height,
                )
                &&& caps.min_image_extent.width <= r.width <= caps.max_image_extent.width
                &&& caps.min_image_extent.height <= r.height <= caps.max_image_extent.height
                &&& (caps.min_image_extent.width <= requested.width
                    <= caps.max_image_extent.width ==> r.width == requested.width)
                &&& (caps.min_image_extent.height <= requested.height
                    <= caps.max_image_extent.height ==> r.height == requested.height)
            }
            &&& caps.current_extent.width != EXTENT_MATCH_WINDOW ==> r == caps.current_extent
        }),
{
}

} // verus!
