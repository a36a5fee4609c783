use vstd::prelude::*;

use crate::device::dedup_indices;
use crate::device::flags_contain;
use crate::device::is_dedup_of;
use crate::device::supports_all;
use crate::device::AdapterInfo;
use crate::device::QueueFamilyInfo;
use crate::error::Error;
use crate::swapchain::Extent2D;
use crate::swapchain::SurfaceFormat;
use crate::swapchain::COLOR_SPACE_SRGB_NONLINEAR;
use crate::swapchain::FORMAT_B8G8R8A8_SRGB;
use crate::swapchain::PRESENT_MODE_FIFO;

verus! {

/// How capable the chosen adapter is: `Min` enables only the baseline
/// extension set, `Max` the extended one on top of it.
#[derive(Clone, Copy, Debug, PartialEq, Eq, Structural)]
pub enum GPUProfile {
    Min,
    Max,
}

/// The targeted API version, packed: major 1, minor 3, patch 0.
pub const VK_API: u32 = 0x403000;

pub const QUEUE_GRAPHICS: u32 = 0x1;

pub const QUEUE_COMPUTE: u32 = 0x2;

pub const QUEUE_TRANSFER: u32 = 0x4;

/// Pack an API version: major in bits 22 and up, minor in bits 12 and up,
/// patch below.
pub fn make_api_version(major: u32, minor: u32, patch: u32) -> (r: u32)
    requires
        major < 0x80,
        minor < 0x400,
        patch < 0x1000,
    ensures
        r == major * 0x400000 + minor * 0x1000 + patch,
{
    major * 0x400000 + minor * 0x1000 + patch
}

/// The adapter supports the baseline extension set.
pub open spec fn qualifies_min(a: AdapterInfo, min_exts: Seq<u64>) -> bool {
    supports_all(a.extensions@, min_exts)
}

/// The adapter supports the baseline and the extended extension sets.
pub open spec fn qualifies_max(a: AdapterInfo, min_exts: Seq<u64>, max_exts: Seq<u64>) -> bool {
    supports_all(a.extensions@, min_exts) && supports_all(a.extensions@, max_exts)
}

pub open spec fn some_adapter_qualifies_min(adapters: Seq<AdapterInfo>, min_exts: Seq<u64>) -> bool {
    exists|i: int| 0 <= i < adapters.len() && qualifies_min(adapters[i], min_exts)
}

pub open spec fn some_adapter_qualifies_max(
    adapters: Seq<AdapterInfo>,
    min_exts: Seq<u64>,
    max_exts: Seq<u64>,
) -> bool {
    exists|i: int| 0 <= i < adapters.len() && qualifies_max(adapters[i], min_exts, max_exts)
}

/// Pick one adapter and the profile it can run: the last adapter of the
/// scan supporting the extended set wins as `Max`; with no such adapter,
/// the last one supporting the baseline set wins as `Min`; with none at
/// all, selection fails.
pub fn get_physical_device(
    adapters: &Vec<AdapterInfo>,
    min_exts: &Vec<u64>,
    max_exts: &Vec<u64>,
) -> (r: Result<(usize, GPUProfile), Error>)
    ensures
        match r {
            Ok((i, profile)) => {
                &&& (i as int) < adapters@.len()
                &&& match profile {
                    GPUProfile::Max => {
                        &&& qualifies_max(adapters@[i as int], min_exts@, max_exts@)
                        &&& forall|j: int|
                            i < j < adapters@.len() ==> !qualifies_max(
                                adapters@[j],
                                min_exts@,
                                max_exts@,
                            )
                    },
                    GPUProfile::Min => {
                        &&& !some_adapter_qualifies_max(adapters@, min_exts@, max_exts@)
                        &&& qualifies_min(adapters@[i as int], min_exts@)
                        &&& forall|j: int|
                            i < j < adapters@.len() ==> !qualifies_min(adapters@[j], min_exts@)
                    },
                }
            },
            Err(e) => e == Error::NoRequestedGPUExtensions && !some_adapter_qualifies_min(
                adapters@,
                min_exts@,
            ),
        },
        r is Ok <==> some_adapter_qualifies_min(adapters@, min_exts@),
{
    let mut min_choice: Option<usize> = None;
    let mut max_choice: Option<usize> = None;
    let mut i: usize = 0;
    while i < adapters.len()
        invariant
            i <= adapters@.len(),
            max_choice matches Some(m) ==> m < i && qualifies_max(
                adapters@[m as int],
                min_exts@,
                max_exts@,
            ) && forall|j: int|
                m < j < i ==> !qualifies_max(adapters@[j], min_exts@, max_exts@),
            max_choice is None ==> forall|j: int|
                0 <= j < i ==> !qualifies_max(adapters@[j], min_exts@, max_exts@),
            min_choice matches Some(m) ==> m < i && qualifies_min(adapters@[m as int], min_exts@)
                && forall|j: int|
                m < j < i ==> !qualifies_min(adapters@[j], min_exts@) || qualifies_max(
                    adapters@[j],
                    min_exts@,
                    max_exts@,
                ),
            min_choice is None ==> forall|j: int|
                0 <= j < i ==> !qualifies_min(adapters@[j], min_exts@) || qualifies_max(
                    adapters@[j],
                    min_exts@,
                    max_exts@,
                ),
        decreases adapters@.len() - i,
    {
        let a = &adapters[i];
        let min_ok = crate::device::adapter_supports_extensions(a, min_exts);
        if min_ok {
            let max_ok = crate::device::adapter_supports_extensions(a, max_exts);
            if max_ok {
                max_choice = Some(i);
            } else {
                min_choice = Some(i);
            }
        }
        i += 1;
    }
    match max_choice {
        Some(m) => {
            assert(some_adapter_qualifies_min(adapters@, min_exts@)) by {
                assert(qualifies_min(adapters@[m as int], min_exts@));
            }
            Ok((m, GPUProfile::Max))
        },
        None => match min_choice {
            Some(m) => {
                assert(some_adapter_qualifies_min(adapters@, min_exts@)) by {
                    assert(qualifies_min(adapters@[m as int], min_exts@));
                }
                Ok((m, GPUProfile::Min))
            },
            None => {
                assert(!some_adapter_qualifies_min(adapters@, min_exts@)) by {
                    assert forall|j: int|
                        0 <= j < adapters@.len() implies !qualifies_min(
                        adapters@[j],
                        min_exts@,
                    ) by {
                        if qualifies_min(adapters@[j], min_exts@) {
                            assert(qualifies_max(adapters@[j], min_exts@, max_exts@));
                        }
                    }
                }
                Err(Error::NoRequestedGPUExtensions)
            },
        },
    }
}

/// A family fit for the graphics role.
pub open spec fn is_graphics_family(f: QueueFamilyInfo) -> bool {
    flags_contain(f.flags, QUEUE_GRAPHICS)
}

/// A family fit for the compute role under the fixed policy: compute
/// capability on a family not taken by graphics.
pub open spec fn is_dedicated_compute_family(f: QueueFamilyInfo) -> bool {
    !flags_contain(f.flags, QUEUE_GRAPHICS) && flags_contain(f.flags, QUEUE_COMPUTE)
}

/// A family fit for the transfer role under the fixed policy: transfer
/// capability on a family taken neither by graphics nor by compute.
pub open spec fn is_dedicated_transfer_family(f: QueueFamilyInfo) -> bool {
    &&& !flags_contain(f.flags, QUEUE_GRAPHICS)
    &&& !flags_contain(f.flags, QUEUE_COMPUTE)
    &&& flags_contain(f.flags, QUEUE_TRANSFER)
}

/// A family able to present to the caller's surface.
pub open spec fn is_present_family(f: QueueFamilyInfo) -> bool {
    f.present_support
}

/// `i` is the first index of the table whose family satisfies `pred`.
pub open spec fn first_family_index(
    families: Seq<QueueFamilyInfo>,
    pred: spec_fn(QueueFamilyInfo) -> bool,
    i: int,
) -> bool {
    &&& 0 <= i < families.len()
    &&& pred(families[i])
    &&& forall|j: int| 0 <= j < i ==> !pred(families[j])
}

pub open spec fn some_family(
    families: Seq<QueueFamilyInfo>,
    pred: spec_fn(QueueFamilyInfo) -> bool,
) -> bool {
    exists|i: int| 0 <= i < families.len() && pred(families[i])
}

/// The family assignment of the fixed role set: graphics, compute and
/// transfer each on their own family where the hardware offers one, and a
/// presenting family when a surface exists.
#[derive(Clone, Copy, Debug, PartialEq, Eq, Structural)]
pub struct FixedQueueIndices {
    pub graphics: u32,
    pub compute: u32,
    pub transfer: u32,
    pub present: Option<u32>,
}

/// Whether the fixed role set can be resolved at all against the table.
pub open spec fn fixed_roles_resolvable(families: Seq<QueueFamilyInfo>, has_surface: bool) -> bool {
    &&& some_family(families, |f: QueueFamilyInfo| is_graphics_family(f))
    &&& some_family(families, |f: QueueFamilyInfo| is_dedicated_compute_family(f))
    &&& some_family(families, |f: QueueFamilyInfo| is_dedicated_transfer_family(f))
    &&& has_surface ==> some_family(families, |f: QueueFamilyInfo| is_present_family(f))
}

/// Resolve the fixed role set: each role takes the first family of its
/// category, and, when a surface exists, presentation takes the first
/// family that supports it. Fails when any role finds no family.
pub fn get_queue_indices(families: &Vec<QueueFamilyInfo>, has_surface: bool) -> (r: Result<
    FixedQueueIndices,
    Error,
>)
    requires
        families@.len() <= 0xFFFF_FFFF,
    ensures
        match r {
            Ok(q) => {
                &&& first_family_index(
                    families@,
                    |f: QueueFamilyInfo| is_graphics_family(f),
                    q.graphics as int,
                )
                &&& first_family_index(
                    families@,
                    |f: QueueFamilyInfo| is_dedicated_compute_family(f),
                    q.compute as int,
                )
                &&& first_family_index(
                    families@,
                    |f: QueueFamilyInfo| is_dedicated_transfer_family(f),
                    q.transfer as int,
                )
                &&& has_surface ==> (q.present matches Some(p) && first_family_index(
                    families@,
                    |f: QueueFamilyInfo| is_present_family(f),
                    p as int,
                ))
                &&& !has_surface ==> q.present is None
            },
            Err(e) => e == Error::NoRequestedGPUQueues && !fixed_roles_resolvable(
                families@,
                has_surface,
            ),
        },
        r is Ok <==> fixed_roles_resolvable(families@, has_surface),
{
    let mut graphics: Option<usize> = None;
    let mut compute: Option<usize> = None;
    let mut transfer: Option<usize> = None;
    let mut present: Option<usize> = None;
    let mut i: usize = 0;
    while i < families.len()
        invariant
            i <= families@.len(),
            graphics matches Some(g) ==> first_family_index(
                families@,
                |f: QueueFamilyInfo| is_graphics_family(f),
                g as int,
            ),
            graphics is None ==> forall|j: int|
                0 <= j < i ==> !is_graphics_family(families@[j]),
            compute matches Some(c) ==> first_family_index(
                families@,
                |f: QueueFamilyInfo| is_dedicated_compute_family(f),
                c as int,
            ),
            compute is None ==> forall|j: int|
                0 <= j < i ==> !is_dedicated_compute_family(families@[j]),
            transfer matches Some(t) ==> first_family_index(
                families@,
                |f: QueueFamilyInfo| is_dedicated_transfer_family(f),
                t as int,
            ),
            transfer is None ==> forall|j: int|
                0 <= j < i ==> !is_dedicated_transfer_family(families@[j]),
            present matches Some(p) ==> first_family_index(
                families@,
                |f: QueueFamilyInfo| is_present_family(f),
                p as int,
            ),
            present is None ==> forall|j: int| 0 <= j < i ==> !is_present_family(families@[j]),
        decreases families@.len() - i,
    {
        let f = families[i];
        let has_graphics = (f.flags & QUEUE_GRAPHICS) == QUEUE_GRAPHICS;
        let has_compute = (f.flags & QUEUE_COMPUTE) == QUEUE_COMPUTE;
        let has_transfer = (f.flags & QUEUE_TRANSFER) == QUEUE_TRANSFER;
        if graphics.is_none() && has_graphics {
            graphics = Some(i);
        }
        if compute.is_none() && !has_graphics && has_compute {
            compute = Some(i);
        }
        if transfer.is_none() && !has_graphics && !has_compute && has_transfer {
            transfer = Some(i);
        }
        if present.is_none() && f.present_support {
            present = Some(i);
        }
        i += 1;
    }
    match (graphics, compute, transfer) {
        (Some(g), Some(c), Some(t)) => {
            if has_surface {
                match present {
                    Some(p) => Ok(
                        FixedQueueIndices {
                            graphics: g as u32,
                            compute: c as u32,
                            transfer: t as u32,
                            present: Some(p as u32),
                        },
                    ),
                    None => Err(Error::NoRequestedGPUQueues),
                }
            } else {
                Ok(
                    FixedQueueIndices {
                        graphics: g as u32,
                        compute: c as u32,
                        transfer: t as u32,
                        present: None,
                    },
                )
            }
        },
        _ => Err(Error::NoRequestedGPUQueues),
    }
}

/// The family indices the fixed role set uses, as one sequence.
pub open spec fn fixed_index_seq(q: FixedQueueIndices) -> Seq<u32> {
    match q.present {
        Some(p) => seq![q.graphics, q.compute, q.transfer, p],
        None => seq![q.graphics, q.compute, q.transfer],
    }
}

/// The minimal set of families to create queues from under the fixed role
/// set: its indices, deduplicated.
pub fn unique_fixed_indices(q: &FixedQueueIndices) -> (r: Vec<u32>)
    ensures
        is_dedup_of(r@, fixed_index_seq(*q)),
{
    let mut src: Vec<u32> = Vec::new();
    src.push(q.graphics);
    src.push(q.compute);
    src.push(q.transfer);
    match q.present {
        Some(p) => {
            src.push(p);
            assert(src@ =~= fixed_index_seq(*q));
        },
        None => {
            assert(src@ =~= fixed_index_seq(*q));
        },
    }
    dedup_indices(&src)
}

/// The device extension set a profile enables: the baseline set, the
/// extended set on top of it for `Max`, and the swapchain extension
/// whenever a surface is served.
pub fn device_extensions(
    profile: &GPUProfile,
    min_exts: &Vec<u64>,
    max_exts: &Vec<u64>,
    swapchain_ext: u64,
    surface_support: bool,
) -> (r: Vec<u64>)
    ensures
        r@ == ({
            let base = match profile {
                GPUProfile::Min => min_exts@,
                GPUProfile::Max => min_exts@ + max_exts@,
            };
            if surface_support {
                base.push(swapchain_ext)
            } else {
                base
            }
        }),
{
    let mut out: Vec<u64> = Vec::new();
    let mut k: usize = 0;
    while k < min_exts.len()
        invariant
            k <= min_exts@.len(),
            out@ == min_exts@.subrange(0, k as int),
        decreases min_exts@.len() - k,
    {
        out.push(min_exts[k]);
        assert(min_exts@.subrange(0, k + 1) =~= min_exts@.subrange(0, k as int).push(
            min_exts@[k as int],
        ));
        k += 1;
    }
    assert(out@ =~= min_exts@);
    match profile {
        GPUProfile::Min => {},
        GPUProfile::Max => {
            let mut m: usize = 0;
            while m < max_exts.len()
                invariant
                    m <= max_exts@.len(),
                    out@ == min_exts@ + max_exts@.subrange(0, m as int),
                decreases max_exts@.len() - m,
            {
                out.push(max_exts[m]);
                assert(min_exts@ + max_exts@.subrange(0, m + 1) =~= (min_exts@
                    + max_exts@.subrange(0, m as int)).push(max_exts@[m as int]));
                m += 1;
            }
            assert(out@ =~= min_exts@ + max_exts@);
        },
    }
    if surface_support {
        out.push(swapchain_ext);
    }
    out
}

/// The caller-facing options of the interface, with their defaults: a
/// 1280 by 720 extent, the 8-bit BGRA sRGB format, FIFO presentation, and
/// no window.
#[derive(Clone, Copy, Debug, PartialEq, Eq, Structural)]
pub struct InterfaceOptions {
    pub extent: Extent2D,
    pub surface_format: SurfaceFormat,
    pub present_mode: u32,
    pub has_window: bool,
}

impl Default for InterfaceOptions {
    fn default() -> (r: InterfaceOptions)
        ensures
            r == (InterfaceOptions {
                extent: Extent2D { width: 1280, height: 720 },
                surface_format: SurfaceFormat {
                    format: FORMAT_B8G8R8A8_SRGB,
                    color_space: COLOR_SPACE_SRGB_NONLINEAR,
                },
                present_mode: PRESENT_MODE_FIFO,
                has_window: false,
            }),
    {
        InterfaceOptions {
            extent: Extent2D { width: 1280, height: 720 },
            surface_format: SurfaceFormat {
                format: FORMAT_B8G8R8A8_SRGB,
                color_space: COLOR_SPACE_SRGB_NONLINEAR,
            },
            present_mode: PRESENT_MODE_FIFO,
            has_window: false,
        }
    }
}

} // verus!
