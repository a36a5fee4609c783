use vstd::prelude::*;

use crate::device::contains_id;

verus! {

/// What the instance is created with: the extensions to enable, and whether
/// the diagnostic-messenger extension was available and enabled.
#[derive(Clone, Debug)]
pub struct InstancePlan {
    pub extensions: Vec<u64>,
    pub debug: bool,
}

/// The instance-extension policy: enable everything the window system
/// requires, and append the diagnostic-messenger extension exactly when the
/// driver advertises it; the plan's debug flag reports that availability.
pub fn resolve_instance_extensions(
    surface_required: &Vec<u64>,
    available: &Vec<u64>,
    debug_ext: u64,
) -> (r: InstancePlan)
    ensures
        r.debug == available@.contains(debug_ext),
        r.extensions@ == if available@.contains(debug_ext) {
            surface_required@.push(debug_ext)
        } else {
            surface_required@
        },
{
    let debug = contains_id(available, debug_ext);
    let mut extensions: Vec<u64> = Vec::new();
    let mut k: usize = 0;
    while k < surface_required.len()
        invariant
            k <= surface_required@.len(),
            extensions@ == surface_required@.subrange(0, k as int),
        decreases surface_required@.len() - k,
    {
        extensions.push(surface_required[k]);
        assert(surface_required@.subrange(0, k + 1) =~= surface_required@.subrange(
            0,
            k as int,
        ).push(surface_required@[k as int]));
        k += 1;
    }
    assert(extensions@ =~= surface_required@);
    if debug {
        extensions.push(debug_ext);
    }
    InstancePlan { extensions, debug }
}

} // verus!
