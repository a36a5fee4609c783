use vstd::prelude::*;

use crate::error::Error;

verus! {

/// A three-dimensional image size.
#[derive(Clone, Copy, Debug, PartialEq, Eq, Structural)]
pub struct Extent3D {
    pub width: u32,
    pub height: u32,
    pub depth: u32,
}

/// The placement class of a memory region: host-visibility against
/// device-locality.
#[derive(Clone, Copy, Debug, PartialEq, Eq, Structural)]
pub enum MemoryLocation {
    Unknown,
    GpuOnly,
    CpuToGpu,
    GpuToCpu,
}

/// Whether a region is sub-allocated from a shared block or dedicated to
/// one object, whose handle the dedicated variants carry.
#[derive(Clone, Copy, Debug, PartialEq, Eq, Structural)]
pub enum AllocationScheme {
    DedicatedBuffer(u64),
    DedicatedImage(u64),
    GpuAllocatorManaged,
}

/// One memory-region request for the sub-allocator: the requirements the
/// driver reported for the live object, plus the caller's placement hints.
#[derive(Clone, Copy, Debug, PartialEq, Eq, Structural)]
pub struct AllocationRequest {
    pub size: u64,
    pub alignment: u64,
    pub memory_type_bits: u32,
    pub location: MemoryLocation,
    pub linear: bool,
    pub scheme: AllocationScheme,
}

/// The caller's description of a new buffer: the driver-facing descriptor
/// fields and the placement hints for its memory region.
#[derive(Clone, Copy, Debug, PartialEq, Eq, Structural)]
pub struct BufferRequestInfo {
    pub size: u64,
    pub usage: u32,
    pub linear: bool,
    pub location: MemoryLocation,
    pub dedicated: bool,
}

/// The caller's description of a new image and of the view created over it.
#[derive(Clone, Copy, Debug, PartialEq, Eq, Structural)]
pub struct ImageRequestInfo {
    pub format: u32,
    pub extent: Extent3D,
    pub mip_levels: u32,
    pub array_layers: u32,
    pub usage: u32,
    pub linear: bool,
    pub location: MemoryLocation,
    pub dedicated: bool,
}

/// A view descriptor as the caller supplies it; the image field is replaced
/// once the target image exists.
#[derive(Clone, Copy, Debug, PartialEq, Eq, Structural)]
pub struct ImageViewDescriptor {
    pub image: u64,
    pub view_type: u32,
    pub format: u32,
    pub aspect_mask: u32,
    pub level_count: u32,
    pub layer_count: u32,
}

/// The region request for a buffer that already exists: the reported
/// requirements pass through, and a dedicated request names the buffer so
/// the allocator can keep per-object bookkeeping.
pub fn buffer_allocation_request(
    info: &BufferRequestInfo,
    buf: u64,
    size: u64,
    alignment: u64,
    memory_type_bits: u32,
) -> (r: AllocationRequest)
    ensures
        r == (AllocationRequest {
            size,
            alignment,
            memory_type_bits,
            location: info.location,
            linear: info.linear,
            scheme: if info.dedicated {
                AllocationScheme::DedicatedBuffer(buf)
            } else {
                AllocationScheme::GpuAllocatorManaged
            },
        }),
{
    AllocationRequest {
        size,
        alignment,
        memory_type_bits,
        location: info.location,
        linear: info.linear,
        scheme: if info.dedicated {
            AllocationScheme::DedicatedBuffer(buf)
        } else {
            AllocationScheme::GpuAllocatorManaged
        },
    }
}

/// The region request for an image that already exists.
pub fn image_allocation_request(
    info: &ImageRequestInfo,
    img: u64,
    size: u64,
    alignment: u64,
    memory_type_bits: u32,
) -> (r: AllocationRequest)
    ensures
        r == (AllocationRequest {
            size,
            alignment,
            memory_type_bits,
            location: info.location,
            linear: info.linear,
            scheme: if info.dedicated {
                AllocationScheme::DedicatedImage(img)
            } else {
                AllocationScheme::GpuAllocatorManaged
            },
        }),
{
    AllocationRequest {
        size,
        alignment,
        memory_type_bits,
        location: info.location,
        linear: info.linear,
        scheme: if info.dedicated {
            AllocationScheme::DedicatedImage(img)
        } else {
            AllocationScheme::GpuAllocatorManaged
        },
    }
}

/// A derived copy of a caller-supplied view descriptor with the target
/// image filled in; the caller's descriptor is never changed in place.
pub fn view_descriptor_for_image(desc: &ImageViewDescriptor, img: u64) -> (r: ImageViewDescriptor)
    ensures
        r == (ImageViewDescriptor { image: img, ..*desc }),
{
    ImageViewDescriptor {
        image: img,
        view_type: desc.view_type,
        format: desc.format,
        aspect_mask: desc.aspect_mask,
        level_count: desc.level_count,
        layer_count: desc.layer_count,
    }
}

/// The shared sub-allocator's bookkeeping as this subsystem tracks it: a
/// ticket for every memory region still outstanding. The allocator may be
/// torn down only when no ticket is outstanding.
#[derive(Clone, Debug)]
pub struct Allocator {
    pub next_id: u64,
    pub live: Vec<u64>,
}

impl Allocator {
    /// Tickets are unique and below the next one to be issued.
    pub open spec fn wf(self) -> bool {
        &&& forall|a: int, b: int| 0 <= a < b < self.live@.len() ==> self.live@[a] != self.live@[b]
        &&& forall|i: int| 0 <= i < self.live@.len() ==> self.live@[i] < self.next_id
    }

    pub fn new() -> (r: Allocator)
        ensures
            r.wf(),
            r.live@.len() == 0,
            r.next_id == 0,
    {
        Allocator { next_id: 0, live: Vec::new() }
    }

    /// Record one region the underlying allocator handed out, under a fresh
    /// ticket.
    pub fn register_allocation(&mut self) -> (id: u64)
        requires
            old(self).wf(),
            old(self).next_id < u64::MAX,
        ensures
            final(self).wf(),
            id == old(self).next_id,
            !old(self).live@.contains(id),
            final(self).live@ == old(self).live@.push(id),
            final(self).next_id == old(self).next_id + 1,
            final(self).live@.contains(id),
    {
        let id = self.next_id;
        proof {
            assert forall|x: u64| old(self).live@.contains(x) implies x != id by {
                let i = choose|i: int| 0 <= i < old(self).live@.len() && old(self).live@[i] == x;
            }
        }
        self.live.push(id);
        self.next_id = self.next_id + 1;
        proof {
            let post = self.live@;
            let pre = old(self).live@;
            assert(post == pre.push(id));
            assert forall|a: int, b: int| 0 <= a < b < post.len() implies post[a] != post[b] by {
                if b < pre.len() {
                } else {
                    assert(post[b] == id);
                    assert(pre[a] < id);
                }
            }
            assert(post[post.len() - 1] == id);
        }
        id
    }

    /// Return one region's ticket. Fails, changing nothing, when the ticket
    /// is not outstanding — returning a region twice is an error.
    pub fn free(&mut self, id: u64) -> (r: Result<(), Error>)
        requires
            old(self).wf(),
        ensures
            final(self).wf(),
            r is Ok <==> old(self).live@.contains(id),
            r is Err ==> *final(self) == *old(self) && r == Err::<(), Error>(
                Error::AllocationError,
            ),
            r is Ok ==> {
                &&& final(self).live@.len() == old(self).live@.len() - 1
                &&& !final(self).live@.contains(id)
                &&& forall|x: u64|
                    x != id ==> final(self).live@.contains(x) == old(self).live@.contains(x)
                &&& final(self).next_id == old(self).next_id
            },
    {
        let ghost pre = self.live@;
        let mut found: Option<usize> = None;
        let mut k: usize = 0;
        while k < self.live.len()
            invariant
                *self == *old(self),
                pre == self.live@,
                k <= pre.len(),
                found is None ==> forall|j: int| 0 <= j < k ==> pre[j] != id,
                found matches Some(i) ==> i < pre.len() && pre[i as int] == id,
            decreases pre.len() - k,
        {
            if self.live[k] == id {
                found = Some(k);
            }
            k += 1;
        }
        match found {
            Some(i) => {
                self.live.remove(i);
                proof {
                    let post = self.live@;
                    assert(pre[i as int] == id);
                    assert(pre.contains(id));
                    pre.remove_ensures(i as int);
                    assert(post == pre.remove(i as int));
                    assert forall|a: int, b: int| 0 <= a < b < post.len() implies post[a]
                        != post[b] by {
                        if b < i {
                            assert(post[a] == pre[a] && post[b] == pre[b]);
                        } else if a < i {
                            assert(post[a] == pre[a] && post[b] == pre[b + 1]);
                        } else {
                            assert(post[a] == pre[a + 1] && post[b] == pre[b + 1]);
                        }
                    }
                    assert forall|m: int| 0 <= m < post.len() implies post[m] < self.next_id by {
                        if m < i {
                            assert(post[m] == pre[m]);
                        } else {
                            assert(post[m] == pre[m + 1]);
                        }
                    }
                    assert forall|x: u64| post.contains(x) implies x != id by {
                        let m = choose|m: int| 0 <= m < post.len() && post[m] == x;
                        if m < i {
                            assert(pre[m] == x);
                            if x == id {
                                assert(pre[m] == pre[i as int]);
                            }
                        } else {
                            assert(pre[m + 1] == x);
                            if x == id {
                                assert(pre[m + 1] == pre[i as int]);
                            }
                        }
                    }
                    assert forall|x: u64| x != id && pre.contains(x) implies post.contains(x) by {
                        let m = choose|m: int| 0 <= m < pre.len() && pre[m] == x;
                        if m < i {
                            assert(post[m] == x);
                        } else {
                            assert(m != i);
                            assert(post[m - 1] == x);
                        }
                    }
                    assert forall|x: u64| x != id && post.contains(x) implies pre.contains(x) by {
                        let m = choose|m: int| 0 <= m < post.len() && post[m] == x;
                        if m < i {
                            assert(pre[m] == x);
                        } else {
                            assert(pre[m + 1] == x);
                        }
                    }
                }
                Ok(())
            },
            None => {
                assert(!pre.contains(id));
                Err(Error::AllocationError)
            },
        }
    }

    /// How many regions are outstanding.
    pub fn live_count(&self) -> (r: usize)
        ensures
            r == self.live@.len(),
    {
        self.live.len()
    }

    /// True exactly when no region is outstanding, so the allocator itself
    /// may be torn down.
    pub fn can_destroy(&self) -> (r: bool)
        ensures
            r == (self.live@.len() == 0),
    {
        self.live.len() == 0
    }
}

/// One step of a resource teardown; a teardown returns its steps in the
/// order they must run against the driver.
#[derive(Clone, Copy, Debug, PartialEq, Eq, Structural)]
pub enum TeardownAction {
    DestroyImageView(u64),
    FreeAllocation(u64),
    DestroyBuffer(u64),
    DestroyImage(u64),
}

/// An allocator-backed buffer: the driver object handle and, while the
/// buffer is alive, the ticket of the memory region bound to it. The ticket
/// slot is emptied exactly once, at teardown, so a second release is
/// structurally impossible.
#[derive(Clone, Copy, Debug, PartialEq, Eq, Structural)]
pub struct Buffer {
    pub buf: u64,
    pub alloc: Option<u64>,
}

impl Buffer {
    /// A live buffer's region is outstanding in the allocator it shares.
    pub open spec fn wf(self, allocator: Allocator) -> bool {
        match self.alloc {
            Some(id) => allocator.live@.contains(id),
            None => true,
        }
    }

    /// Track a buffer whose driver object exists and whose memory region
    /// the underlying allocator just handed out.
    pub fn new(buf: u64, allocator: &mut Allocator) -> (r: Buffer)
        requires
            old(allocator).wf(),
            old(allocator).next_id < u64::MAX,
        ensures
            final(allocator).wf(),
            r.buf == buf,
            r.alloc == Some(old(allocator).next_id),
            final(allocator).live@ == old(allocator).live@.push(old(allocator).next_id),
            final(allocator).next_id == old(allocator).next_id + 1,
            r.wf(*final(allocator)),
    {
        let id = allocator.register_allocation();
        Buffer { buf, alloc: Some(id) }
    }

    /// Tear the buffer down: return its memory region before destroying the
    /// driver object, in that order. The ticket slot is consumed, so
    /// tearing down a second time frees and destroys nothing.
    pub fn teardown(&mut self, allocator: &mut Allocator) -> (r: Vec<TeardownAction>)
        requires
            old(allocator).wf(),
            old(self).wf(*old(allocator)),
        ensures
            final(allocator).wf(),
            final(self).buf == old(self).buf,
            final(self).alloc is None,
            match old(self).alloc {
                Some(id) => {
                    &&& r@ == seq![
                        TeardownAction::FreeAllocation(id),
                        TeardownAction::DestroyBuffer(old(self).buf),
                    ]
                    &&& !final(allocator).live@.contains(id)
                    &&& final(allocator).live@.len() == old(allocator).live@.len() - 1
                    &&& forall|x: u64|
                        x != id ==> final(allocator).live@.contains(x) == old(
                            allocator,
                        ).live@.contains(x)
                },
                None => r@ == Seq::<TeardownAction>::empty() && *final(allocator) == *old(
                    allocator,
                ),
            },
    {
        let mut actions: Vec<TeardownAction> = Vec::new();
        match self.alloc {
            Some(id) => {
                self.alloc = None;
                let freed = allocator.free(id);
                assert(freed is Ok);
                actions.push(TeardownAction::FreeAllocation(id));
                actions.push(TeardownAction::DestroyBuffer(self.buf));
                assert(actions@ =~= seq![
                    TeardownAction::FreeAllocation(id),
                    TeardownAction::DestroyBuffer(self.buf),
                ]);
            },
            None => {
                assert(actions@ =~= Seq::<TeardownAction>::empty());
            },
        }
        actions
    }
}

/// An allocator-backed image: the driver object, the view owned over it,
/// the region ticket while alive, and the cached descriptor facts callers
/// read back.
#[derive(Clone, Copy, Debug, PartialEq, Eq, Structural)]
pub struct Image {
    pub img: u64,
    pub img_view: u64,
    pub alloc: Option<u64>,
    pub format: u32,
    pub extent: Extent3D,
    pub mip_level: u32,
}

impl Image {
    /// A live image's region is outstanding in the allocator it shares.
    pub open spec fn wf(self, allocator: Allocator) -> bool {
        match self.alloc {
            Some(id) => allocator.live@.contains(id),
            None => true,
        }
    }

    /// Track an image whose driver object and view exist and whose memory
    /// region the underlying allocator just handed out; format, extent and
    /// mip count are cached from the creation descriptor.
    pub fn new(img: u64, img_view: u64, info: &ImageRequestInfo, allocator: &mut Allocator) -> (r:
        Image)
        requires
            old(allocator).wf(),
            old(allocator).next_id < u64::MAX,
        ensures
            final(allocator).wf(),
            r == (Image {
                img,
                img_view,
                alloc: Some(old(allocator).next_id),
                format: info.format,
                extent: info.extent,
                mip_level: info.mip_levels,
            }),
            final(allocator).live@ == old(allocator).live@.push(old(allocator).next_id),
            final(allocator).next_id == old(allocator).next_id + 1,
            r.wf(*final(allocator)),
    {
        let id = allocator.register_allocation();
        Image {
            img,
            img_view,
            alloc: Some(id),
            format: info.format,
            extent: info.extent,
            mip_level: info.mip_levels,
        }
    }

    /// Tear the image down: destroy the view first (it references the
    /// image), then return the memory region, then destroy the image, in
    /// that order. The ticket slot is consumed, so tearing down a second
    /// time frees and destroys nothing.
    pub fn teardown(&mut self, allocator: &mut Allocator) -> (r: Vec<TeardownAction>)
        requires
            old(allocator).wf(),
            old(self).wf(*old(allocator)),
        ensures
            final(allocator).wf(),
            final(self).img == old(self).img,
            final(self).img_view == old(self).img_view,
            final(self).alloc is None,
            match old(self).alloc {
                Some(id) => {
                    &&& r@ == seq![
                        TeardownAction::DestroyImageView(old(self).img_view),
                        TeardownAction::FreeAllocation(id),
                        TeardownAction::DestroyImage(old(self).img),
                    ]
                    &&& !final(allocator).live@.contains(id)
                    &&& final(allocator).live@.len() == old(allocator).live@.len() - 1
                    &&& forall|x: u64|
                        x != id ==> final(allocator).live@.contains(x) == old(
                            allocator,
                        ).live@.contains(x)
                },
                None => r@ == Seq::<TeardownAction>::empty() && *final(allocator) == *old(
                    allocator,
                ),
            },
    {
        let mut actions: Vec<TeardownAction> = Vec::new();
        match self.alloc {
            Some(id) => {
                self.alloc = None;
                actions.push(TeardownAction::DestroyImageView(self.img_view));
                let freed = allocator.free(id);
                assert(freed is Ok);
                actions.push(TeardownAction::FreeAllocation(id));
                actions.push(TeardownAction::DestroyImage(self.img));
                assert(actions@ =~= seq![
                    TeardownAction::DestroyImageView(self.img_view),
                    TeardownAction::FreeAllocation(id),
                    TeardownAction::DestroyImage(self.img),
                ]);
            },
            None => {
                assert(actions@ =~= Seq::<TeardownAction>::empty());
            },
        }
        actions
    }
}

/// While a buffer still holds a region ticket, the allocator has an
/// outstanding region, so it must not be torn down.
pub proof fn lemma_live_buffer_blocks_allocator(b: Buffer, a: Allocator)
    requires
        b.wf(a),
        b.alloc is Some,
    ensures
        a.live@.len() > 0,
{
    match b.alloc {
        Some(id) => {
            assert(a.live@.contains(id));
            let i = choose|i: int| 0 <= i < a.live@.len() && a.live@[i] == id;
        },
        None => {},
    }
}

/// While an image still holds a region ticket, the allocator has an
/// outstanding region, so it must not be torn down.
pub proof fn lemma_live_image_blocks_allocator(im: Image, a: Allocator)
    requires
        im.wf(a),
        im.alloc is Some,
    ensures
        a.live@.len() > 0,
{
    match im.alloc {
        Some(id) => {
            assert(a.live@.contains(id));
            let i = choose|i: int| 0 <= i < a.live@.len() && a.live@[i] == id;
        },
        None => {},
    }
}

} // verus!
