use vstd::prelude::*;

use crate::error::Error;

verus! {

/// What one queue role requires: a set of capability flags the assigned
/// family must cover, and whether the role must be able to present to the
/// surface the caller supplied.
#[derive(Clone, Copy, Debug, PartialEq, Eq, Structural)]
pub struct QueueRequestInfo {
    pub flags: u32,
    pub present: bool,
}

/// One queue family of an adapter: its capability flag set and whether the
/// driver reports presentation support for it against the caller's surface.
/// Presentation support is a fixed property of the (adapter, family, surface)
/// triple, so it can be queried up front for every family.
#[derive(Clone, Copy, Debug, PartialEq, Eq, Structural)]
pub struct QueueFamilyInfo {
    pub flags: u32,
    pub present_support: bool,
}

/// A physical adapter as the selector sees it: its reported device category,
/// the device extensions it supports (interned identifiers), and its queue
/// family table.
#[derive(Clone, Debug)]
pub struct AdapterInfo {
    pub device_type: u32,
    pub extensions: Vec<u64>,
    pub queue_families: Vec<QueueFamilyInfo>,
}

/// What the caller asks of the logical device: one entry per queue role, the
/// device extensions that every candidate adapter must support, an optional
/// preferred adapter category, and whether a presentation surface exists.
#[derive(Clone, Debug)]
pub struct DevRequestInfo {
    pub queues: Vec<QueueRequestInfo>,
    pub extensions: Vec<u64>,
    pub preferred_type: Option<u32>,
    pub has_surface: bool,
}

/// A resolved queue role: the queue family index it was assigned, and whether
/// that family presents to the caller's surface.
#[derive(Clone, Copy, Debug, PartialEq, Eq, Structural)]
pub struct QueueInfo {
    pub index: u32,
    pub present: bool,
}

/// `have` covers every flag bit of `want`.
pub open spec fn flags_contain(have: u32, want: u32) -> bool {
    have & want == want
}

/// Every identifier of `required` occurs in `have`.
pub open spec fn supports_all(have: Seq<u64>, required: Seq<u64>) -> bool {
    forall|k: int| 0 <= k < required.len() ==> have.contains(required[k])
}

/// The adapter supports the full required extension set.
pub open spec fn adapter_qualifies(a: AdapterInfo, required: Seq<u64>) -> bool {
    supports_all(a.extensions@, required)
}

/// The adapter's category equals the caller's preference (false when the
/// caller stated none).
pub open spec fn preferred_type_matches(a: AdapterInfo, preferred: Option<u32>) -> bool {
    match preferred {
        Some(t) => a.device_type == t,
        None => false,
    }
}

pub open spec fn some_adapter_qualifies(adapters: Seq<AdapterInfo>, required: Seq<u64>) -> bool {
    exists|i: int| 0 <= i < adapters.len() && adapter_qualifies(adapters[i], required)
}

pub open spec fn some_preferred_adapter_qualifies(
    adapters: Seq<AdapterInfo>,
    required: Seq<u64>,
    preferred: Option<u32>,
) -> bool {
    exists|i: int|
        0 <= i < adapters.len() && adapter_qualifies(adapters[i], required)
            && preferred_type_matches(adapters[i], preferred)
}

/// The selection policy: only qualifying adapters are eligible; the first
/// qualifying adapter of the preferred category wins and ends the scan; with
/// no such adapter, the last qualifying adapter of the scan wins.
pub open spec fn is_selected_adapter(
    adapters: Seq<AdapterInfo>,
    required: Seq<u64>,
    preferred: Option<u32>,
    i: int,
) -> bool {
    &&& 0 <= i < adapters.len()
    &&& adapter_qualifies(adapters[i], required)
    &&& if some_preferred_adapter_qualifies(adapters, required, preferred) {
        &&& preferred_type_matches(adapters[i], preferred)
        &&& forall|j: int|
            0 <= j < i ==> !(adapter_qualifies(adapters[j], required)
                && preferred_type_matches(adapters[j], preferred))
    } else {
        forall|j: int| i < j < adapters.len() ==> !adapter_qualifies(adapters[j], required)
    }
}

/// The selection policy names exactly one adapter: a first match and a last
/// match are each unique.
pub proof fn lemma_selected_adapter_unique(
    adapters: Seq<AdapterInfo>,
    required: Seq<u64>,
    preferred: Option<u32>,
    i: int,
    j: int,
)
    requires
        is_selected_adapter(adapters, required, preferred, i),
        is_selected_adapter(adapters, required, preferred, j),
    ensures
        i == j,
{
    if some_preferred_adapter_qualifies(adapters, required, preferred) {
        if i < j {
            assert(adapter_qualifies(adapters[i], required) && preferred_type_matches(
                adapters[i],
                preferred,
            ));
        } else if j < i {
            assert(adapter_qualifies(adapters[j], required) && preferred_type_matches(
                adapters[j],
                preferred,
            ));
        }
    } else {
        if i < j {
            assert(!adapter_qualifies(adapters[j], required));
        } else if j < i {
            assert(!adapter_qualifies(adapters[i], required));
        }
    }
}

/// The family covers the role's flags and, where the role asks to present to
/// an existing surface, reports presentation support.
pub open spec fn family_matches_request(
    f: QueueFamilyInfo,
    q: QueueRequestInfo,
    has_surface: bool,
) -> bool {
    &&& flags_contain(f.flags, q.flags)
    &&& (q.present && has_surface) ==> f.present_support
}

pub open spec fn request_resolvable(
    families: Seq<QueueFamilyInfo>,
    q: QueueRequestInfo,
    has_surface: bool,
) -> bool {
    exists|i: int| 0 <= i < families.len() && family_matches_request(families[i], q, has_surface)
}

pub open spec fn all_requests_resolvable(
    families: Seq<QueueFamilyInfo>,
    requests: Seq<QueueRequestInfo>,
    has_surface: bool,
) -> bool {
    forall|k: int| 0 <= k < requests.len() ==> request_resolvable(families, requests[k], has_surface)
}

/// The entry assigns the role the first matching family of the table, and its
/// present flag restates that family's presentation support where the role
/// asked for it.
pub open spec fn queue_entry_ok(
    families: Seq<QueueFamilyInfo>,
    q: QueueRequestInfo,
    has_surface: bool,
    e: QueueInfo,
) -> bool {
    let idx = e.index as int;
    &&& idx < families.len()
    &&& family_matches_request(families[idx], q, has_surface)
    &&& forall|j: int| 0 <= j < idx ==> !family_matches_request(families[j], q, has_surface)
    &&& e.present == (has_surface && q.present && families[idx].present_support)
}

/// One resolved entry per requested role, each per `queue_entry_ok`.
pub open spec fn queue_resolution_ok(
    families: Seq<QueueFamilyInfo>,
    requests: Seq<QueueRequestInfo>,
    has_surface: bool,
    resolved: Seq<QueueInfo>,
) -> bool {
    &&& resolved.len() == requests.len()
    &&& forall|k: int|
        0 <= k < requests.len() ==> queue_entry_ok(families, requests[k], has_surface, resolved[k])
}

/// `r` lists each family index that some resolved role uses, exactly once.
pub open spec fn is_unique_index_list(r: Seq<u32>, qs: Seq<QueueInfo>) -> bool {
    &&& forall|a: int, b: int| 0 <= a < b < r.len() ==> r[a] != r[b]
    &&& forall|x: u32|
        #[trigger] r.contains(x) <==> exists|k: int| 0 <= k < qs.len() && qs[k].index == x
}

/// `r` holds each value of `src` exactly once and nothing else. The order of
/// `r` is left open: the list stands for an unordered set of family indices.
pub open spec fn is_dedup_of(r: Seq<u32>, src: Seq<u32>) -> bool {
    &&& forall|a: int, b: int| 0 <= a < b < r.len() ==> r[a] != r[b]
    &&& forall|x: u32| #[trigger] r.contains(x) <==> src.contains(x)
}

/// `ids` holds `x`.
pub fn contains_id(ids: &Vec<u64>, x: u64) -> (r: bool)
    ensures
        r == ids@.contains(x),
{
    let mut k: usize = 0;
    while k < ids.len()
        invariant
            k <= ids@.len(),
            forall|j: int| 0 <= j < k ==> ids@[j] != x,
        decreases ids@.len() - k,
    {
        if ids[k] == x {
            return true;
        }
        k += 1;
    }
    false
}

/// The adapter supports every extension of `required`.
pub fn adapter_supports_extensions(a: &AdapterInfo, required: &Vec<u64>) -> (r: bool)
    ensures
        r == adapter_qualifies(*a, required@),
{
    let mut k: usize = 0;
    while k < required.len()
        invariant
            k <= required@.len(),
            forall|j: int| 0 <= j < k ==> a.extensions@.contains(required@[j]),
        decreases required@.len() - k,
    {
        if !contains_id(&a.extensions, required[k]) {
            return false;
        }
        k += 1;
    }
    true
}

/// The first family of the table that matches the request, if any.
pub fn find_family(
    families: &Vec<QueueFamilyInfo>,
    q: &QueueRequestInfo,
    has_surface: bool,
) -> (r: Option<usize>)
    ensures
        match r {
            Some(i) => i < families@.len() && family_matches_request(
                families@[i as int],
                *q,
                has_surface,
            ) && forall|j: int|
                0 <= j < i ==> !family_matches_request(families@[j], *q, has_surface),
            None => !request_resolvable(families@, *q, has_surface),
        },
{
    let mut i: usize = 0;
    while i < families.len()
        invariant
            i <= families@.len(),
            forall|j: int| 0 <= j < i ==> !family_matches_request(families@[j], *q, has_surface),
        decreases families@.len() - i,
    {
        let f = families[i];
        let covers = (f.flags & q.flags) == q.flags;
        let presents = if q.present && has_surface {
            f.present_support
        } else {
            true
        };
        if covers && presents {
            return Some(i);
        }
        i += 1;
    }
    None
}

/// The selected adapter, its resolved queue roles, and the deduplicated list
/// of family indices used for sharing-mode decisions and queue creation.
#[derive(Clone, Debug)]
pub struct Dev {
    pub adapter: usize,
    pub queues: Vec<QueueInfo>,
    pub unique_indices: Vec<u32>,
}

impl Dev {
    /// Pick one adapter: reject every adapter that lacks a required
    /// extension; among the rest, the first of the preferred category wins,
    /// or, with no category match, the last qualifying adapter seen.
    pub fn get_physical_device(adapters: &Vec<AdapterInfo>, info: &DevRequestInfo) -> (r: Result<
        usize,
        Error,
    >)
        ensures
            match r {
                Ok(i) => is_selected_adapter(
                    adapters@,
                    info.extensions@,
                    info.preferred_type,
                    i as int,
                ),
                Err(e) => e == Error::NoRequestedGPUExtensions && !some_adapter_qualifies(
                    adapters@,
                    info.extensions@,
                ),
            },
            r is Ok <==> some_adapter_qualifies(adapters@, info.extensions@),
    {
        let mut ext_choice: Option<usize> = None;
        let mut i: usize = 0;
        while i < adapters.len()
            invariant
                i <= adapters@.len(),
                forall|j: int|
                    0 <= j < i ==> !(adapter_qualifies(adapters@[j], info.extensions@)
                        && preferred_type_matches(adapters@[j], info.preferred_type)),
                ext_choice matches Some(k) ==> k < i && adapter_qualifies(
                    adapters@[k as int],
                    info.extensions@,
                ) && forall|j: int|
                    k < j < i ==> !adapter_qualifies(adapters@[j], info.extensions@),
                ext_choice is None ==> forall|j: int|
                    0 <= j < i ==> !adapter_qualifies(adapters@[j], info.extensions@),
            decreases adapters@.len() - i,
        {
            if adapter_supports_extensions(&adapters[i], &info.extensions) {
                let type_match = match info.preferred_type {
                    Some(t) => adapters[i].device_type == t,
                    None => false,
                };
                if type_match {
                    assert(some_preferred_adapter_qualifies(
                        adapters@,
                        info.extensions@,
                        info.preferred_type,
                    )) by {
                        assert(adapter_qualifies(adapters@[i as int], info.extensions@)
                            && preferred_type_matches(adapters@[i as int], info.preferred_type));
                    }
                    return Ok(i);
                }
                ext_choice = Some(i);
            }
            i += 1;
        }
        match ext_choice {
            Some(k) => {
                assert(!some_preferred_adapter_qualifies(
                    adapters@,
                    info.extensions@,
                    info.preferred_type,
                ));
                assert(some_adapter_qualifies(adapters@, info.extensions@)) by {
                    assert(adapter_qualifies(adapters@[k as int], info.extensions@));
                }
                Ok(k)
            },
            None => Err(Error::NoRequestedGPUExtensions),
        }
    }

    /// Resolve every requested role against the adapter's queue family table:
    /// each role gets the first family whose flags cover the role's flags
    /// and, where presentation is requested against an existing surface, that
    /// reports presentation support.
    pub fn get_queue_indices(adapter: &AdapterInfo, info: &DevRequestInfo) -> (r: Result<
        Vec<QueueInfo>,
        Error,
    >)
        requires
            adapter.queue_families@.len() <= 0xFFFF_FFFF,
        ensures
            match r {
                Ok(v) => queue_resolution_ok(
                    adapter.queue_families@,
                    info.queues@,
                    info.has_surface,
                    v@,
                ),
                Err(e) => e == Error::NoRequestedGPUQueues && !all_requests_resolvable(
                    adapter.queue_families@,
                    info.queues@,
                    info.has_surface,
                ),
            },
            r is Ok <==> all_requests_resolvable(
                adapter.queue_families@,
                info.queues@,
                info.has_surface,
            ),
    {
        let mut resolved: Vec<QueueInfo> = Vec::new();
        let mut k: usize = 0;
        while k < info.queues.len()
            invariant
                k <= info.queues@.len(),
                resolved@.len() == k,
                adapter.queue_families@.len() <= 0xFFFF_FFFF,
                forall|m: int|
                    0 <= m < k ==> queue_entry_ok(
                        adapter.queue_families@,
                        info.queues@[m],
                        info.has_surface,
                        resolved@[m],
                    ),
            decreases info.queues@.len() - k,
        {
            let q = info.queues[k];
            match find_family(&adapter.queue_families, &q, info.has_surface) {
                Some(idx) => {
                    let fam = adapter.queue_families[idx];
                    let present = info.has_surface && q.present && fam.present_support;
                    resolved.push(QueueInfo { index: idx as u32, present });
                },
                None => {
                    return Err(Error::NoRequestedGPUQueues);
                },
            }
            k += 1;
        }
        Ok(resolved)
    }

    /// Deduplicate the family indices of the resolved roles.
    pub fn unique_queue_indices(queues: &Vec<QueueInfo>) -> (r: Vec<u32>)
        ensures
            is_unique_index_list(r@, queues@),
    {
        let mut idxs: Vec<u32> = Vec::new();
        let mut k: usize = 0;
        while k < queues.len()
            invariant
                k <= queues@.len(),
                idxs@.len() == k,
                forall|m: int| 0 <= m < k ==> idxs@[m] == queues@[m].index,
            decreases queues@.len() - k,
        {
            idxs.push(queues[k].index);
            k += 1;
        }
        let out = dedup_indices(&idxs);
        proof {
            assert forall|x: u32| #[trigger] out@.contains(x) implies exists|m: int|
                0 <= m < queues@.len() && queues@[m].index == x by {
                assert(idxs@.contains(x));
                let i = choose|i: int| 0 <= i < idxs@.len() && idxs@[i] == x;
                assert(queues@[i].index == x);
            }
            assert forall|x: u32|
                (exists|m: int| 0 <= m < queues@.len() && queues@[m].index == x) implies #[trigger] out@
                .contains(x) by {
                let m = choose|m: int| 0 <= m < queues@.len() && queues@[m].index == x;
                assert(idxs@[m] == x);
                assert(idxs@.contains(x));
            }
        }
        out
    }

    /// Select the adapter, resolve the queue roles against it, and compute
    /// the minimal set of families to create queues from.
    pub fn new(adapters: &Vec<AdapterInfo>, info: &DevRequestInfo) -> (r: Result<Dev, Error>)
        requires
            forall|i: int|
                0 <= i < adapters@.len() ==> (#[trigger] adapters@[i]).queue_families@.len()
                    <= 0xFFFF_FFFF,
        ensures
            match r {
                Ok(d) => {
                    &&& is_selected_adapter(
                        adapters@,
                        info.extensions@,
                        info.preferred_type,
                        d.adapter as int,
                    )
                    &&& queue_resolution_ok(
                        adapters@[d.adapter as int].queue_families@,
                        info.queues@,
                        info.has_surface,
                        d.queues@,
                    )
                    &&& is_unique_index_list(d.unique_indices@, d.queues@)
                },
                Err(e) => {
                    ||| e == Error::NoRequestedGPUExtensions && !some_adapter_qualifies(
                        adapters@,
                        info.extensions@,
                    )
                    ||| e == Error::NoRequestedGPUQueues && exists|i: int|
                        is_selected_adapter(adapters@, info.extensions@, info.preferred_type, i)
                            && !all_requests_resolvable(
                            adapters@[i].queue_families@,
                            info.queues@,
                            info.has_surface,
                        )
                },
            },
            r is Ok <==> exists|i: int|
                #[trigger] is_selected_adapter(adapters@, info.extensions@, info.preferred_type, i)
                    && all_requests_resolvable(
                    adapters@[i].queue_families@,
                    info.queues@,
                    info.has_surface,
                ),
    {
        let adapter = match Self::get_physical_device(adapters, info) {
            Ok(i) => i,
            Err(e) => {
                proof {
                    assert forall|i: int|
                        !(#[trigger] is_selected_adapter(
                            adapters@,
                            info.extensions@,
                            info.preferred_type,
                            i,
                        ) && all_requests_resolvable(
                            adapters@[i].queue_families@,
                            info.queues@,
                            info.has_surface,
                        )) by {
                        if is_selected_adapter(
                            adapters@,
                            info.extensions@,
                            info.preferred_type,
                            i,
                        ) {
                            assert(adapter_qualifies(adapters@[i], info.extensions@));
                            assert(some_adapter_qualifies(adapters@, info.extensions@));
                        }
                    }
                }
                return Err(e);
            },
        };
        let queues = match Self::get_queue_indices(&adapters[adapter], info) {
            Ok(v) => v,
            Err(e) => {
                proof {
                    assert(is_selected_adapter(
                        adapters@,
                        info.extensions@,
                        info.preferred_type,
                        adapter as int,
                    ));
                    assert forall|i: int|
                        !(#[trigger] is_selected_adapter(
                            adapters@,
                            info.extensions@,
                            info.preferred_type,
                            i,
                        ) && all_requests_resolvable(
                            adapters@[i].queue_families@,
                            info.queues@,
                            info.has_surface,
                        )) by {
                        if is_selected_adapter(
                            adapters@,
                            info.extensions@,
                            info.preferred_type,
                            i,
                        ) {
                            lemma_selected_adapter_unique(
                                adapters@,
                                info.extensions@,
                                info.preferred_type,
                                i,
                                adapter as int,
                            );
                        }
                    }
                }
                return Err(e);
            },
        };
        let unique_indices = Self::unique_queue_indices(&queues);
        proof {
            assert(is_selected_adapter(
                adapters@,
                info.extensions@,
                info.preferred_type,
                adapter as int,
            ) && all_requests_resolvable(
                adapters@[adapter as int].queue_families@,
                info.queues@,
                info.has_surface,
            ));
        }
        Ok(Dev { adapter, queues, unique_indices })
    }
}

/// Drop repeated values from a list of family indices, so that one queue is
/// created per family however many roles share it.
pub fn dedup_indices(src: &Vec<u32>) -> (r: Vec<u32>)
    ensures
        is_dedup_of(r@, src@),
{
    let mut out: Vec<u32> = Vec::new();
    let mut k: usize = 0;
    while k < src.len()
        invariant
            k <= src@.len(),
            forall|a: int, b: int| 0 <= a < b < out@.len() ==> out@[a] != out@[b],
            forall|x: u32|
                #[trigger] out@.contains(x) <==> src@.subrange(0, k as int).contains(x),
        decreases src@.len() - k,
    {
        let idx = src[k];
        let ghost pre = out@;
        let mut seen = false;
        let mut j: usize = 0;
        while j < out.len()
            invariant
                j <= out@.len(),
                out@ == pre,
                seen <==> exists|m: int| 0 <= m < j && out@[m] == idx,
            decreases out@.len() - j,
        {
            if out[j] == idx {
                seen = true;
            }
            j += 1;
        }
        assert(seen == pre.contains(idx));
        if !seen {
            out.push(idx);
        }
        proof {
            assert forall|x: u32| #[trigger] out@.contains(x) implies src@.subrange(
                0,
                k + 1,
            ).contains(x) by {
                let i = choose|i: int| 0 <= i < out@.len() && out@[i] == x;
                if i < pre.len() {
                    assert(pre[i] == x);
                    assert(pre.contains(x));
                    let m = choose|m: int| 0 <= m < k && src@.subrange(0, k as int)[m] == x;
                    assert(src@.subrange(0, k + 1)[m] == x);
                } else {
                    assert(x == idx);
                    assert(src@.subrange(0, k + 1)[k as int] == x);
                }
            }
            assert forall|x: u32| src@.subrange(0, k + 1).contains(x) implies #[trigger] out@
                .contains(x) by {
                let m = choose|m: int| 0 <= m < k + 1 && #[trigger] src@.subrange(0, k + 1)[m]
                    == x;
                if m < k {
                    assert(src@.subrange(0, k as int)[m] == x);
                    assert(pre.contains(x));
                    let i = choose|i: int| 0 <= i < pre.len() && pre[i] == x;
                    assert(out@[i] == x);
                } else {
                    assert(x == idx);
                    if seen {
                        let i = choose|i: int| 0 <= i < pre.len() && pre[i] == x;
                        assert(out@[i] == x);
                    } else {
                        assert(out@[out@.len() - 1] == x);
                    }
                }
            }
        }
        k += 1;
    }
    proof {
        assert(src@.subrange(0, src@.len() as int) =~= src@);
    }
    out
}

} // verus!
