use pelkan::device::AdapterInfo;
use pelkan::device::Dev;
use pelkan::device::DevRequestInfo;
use pelkan::device::QueueFamilyInfo;
use pelkan::device::QueueInfo;
use pelkan::device::QueueRequestInfo;
use pelkan::error::Error;

const EXT_SWAPCHAIN: u64 = 1;
const EXT_HOST_IMAGE_COPY: u64 = 2;
const EXT_OTHER: u64 = 99;

const GRAPHICS: u32 = 0x1;
const COMPUTE: u32 = 0x2;
const TRANSFER: u32 = 0x4;

const TYPE_DISCRETE: u32 = 2;
const TYPE_INTEGRATED: u32 = 1;

fn adapter(device_type: u32, extensions: Vec<u64>, families: Vec<QueueFamilyInfo>) -> AdapterInfo {
    AdapterInfo { device_type, extensions, queue_families: families }
}

fn graphics_family() -> QueueFamilyInfo {
    QueueFamilyInfo { flags: GRAPHICS | COMPUTE | TRANSFER, present_support: true }
}

fn request(extensions: Vec<u64>, preferred_type: Option<u32>) -> DevRequestInfo {
    DevRequestInfo {
        queues: vec![QueueRequestInfo { flags: GRAPHICS, present: true }],
        extensions,
        preferred_type,
        has_surface: true,
    }
}

#[test]
fn adapter_lacking_extension_never_selected() {
    // Only the second adapter supports the required extension set.
    let adapters = vec![
        adapter(TYPE_DISCRETE, vec![EXT_OTHER], vec![graphics_family()]),
        adapter(TYPE_INTEGRATED, vec![EXT_SWAPCHAIN, EXT_HOST_IMAGE_COPY], vec![graphics_family()]),
    ];
    let info = request(vec![EXT_SWAPCHAIN, EXT_HOST_IMAGE_COPY], None);
    let d = Dev::new(&adapters, &info).unwrap();
    assert_eq!(d.adapter, 1);
}

#[test]
fn no_adapter_with_extensions_is_an_error() {
    let adapters = vec![adapter(TYPE_DISCRETE, vec![EXT_OTHER], vec![graphics_family()])];
    let info = request(vec![EXT_SWAPCHAIN], None);
    assert_eq!(Dev::new(&adapters, &info).unwrap_err(), Error::NoRequestedGPUExtensions);
}

#[test]
fn empty_adapter_list_is_an_error() {
    let adapters: Vec<AdapterInfo> = Vec::new();
    let info = request(vec![EXT_SWAPCHAIN], None);
    assert_eq!(Dev::new(&adapters, &info).unwrap_err(), Error::NoRequestedGPUExtensions);
}

#[test]
fn preferred_category_match_wins_over_later_adapters() {
    let adapters = vec![
        adapter(TYPE_INTEGRATED, vec![EXT_SWAPCHAIN], vec![graphics_family()]),
        adapter(TYPE_DISCRETE, vec![EXT_SWAPCHAIN], vec![graphics_family()]),
        adapter(TYPE_DISCRETE, vec![EXT_SWAPCHAIN], vec![graphics_family()]),
    ];
    let info = request(vec![EXT_SWAPCHAIN], Some(TYPE_DISCRETE));
    // First category match short-circuits the scan.
    let d = Dev::new(&adapters, &info).unwrap();
    assert_eq!(d.adapter, 1);
}

#[test]
fn without_category_match_last_qualifying_adapter_wins() {
    let adapters = vec![
        adapter(TYPE_INTEGRATED, vec![EXT_SWAPCHAIN], vec![graphics_family()]),
        adapter(TYPE_INTEGRATED, vec![EXT_SWAPCHAIN], vec![graphics_family()]),
        adapter(TYPE_INTEGRATED, vec![EXT_OTHER], vec![graphics_family()]),
    ];
    let info = request(vec![EXT_SWAPCHAIN], Some(TYPE_DISCRETE));
    let d = Dev::new(&adapters, &info).unwrap();
    assert_eq!(d.adapter, 1);
}

#[test]
fn queue_role_gets_first_family_covering_its_flags() {
    let families = vec![
        QueueFamilyInfo { flags: TRANSFER, present_support: false },
        QueueFamilyInfo { flags: GRAPHICS | COMPUTE | TRANSFER, present_support: true },
        QueueFamilyInfo { flags: GRAPHICS, present_support: true },
    ];
    let adapters = vec![adapter(TYPE_DISCRETE, vec![EXT_SWAPCHAIN], families)];
    let info = DevRequestInfo {
        queues: vec![
            QueueRequestInfo { flags: GRAPHICS, present: true },
            QueueRequestInfo { flags: TRANSFER, present: false },
        ],
        extensions: vec![EXT_SWAPCHAIN],
        preferred_type: None,
        has_surface: true,
    };
    let d = Dev::new(&adapters, &info).unwrap();
    assert_eq!(d.queues[0], QueueInfo { index: 1, present: true });
    assert_eq!(d.queues[1], QueueInfo { index: 0, present: false });
    let mut unique = d.unique_indices.clone();
    unique.sort();
    assert_eq!(unique, vec![0, 1]);
}

#[test]
fn presentation_requirement_skips_families_without_support() {
    let families = vec![
        QueueFamilyInfo { flags: GRAPHICS | COMPUTE, present_support: false },
        QueueFamilyInfo { flags: GRAPHICS, present_support: true },
    ];
    let adapters = vec![adapter(TYPE_DISCRETE, vec![EXT_SWAPCHAIN], families)];
    let info = request(vec![EXT_SWAPCHAIN], None);
    let d = Dev::new(&adapters, &info).unwrap();
    assert_eq!(d.queues[0], QueueInfo { index: 1, present: true });
}

#[test]
fn unresolvable_role_is_a_queue_error_not_an_extension_error() {
    let families = vec![QueueFamilyInfo { flags: TRANSFER, present_support: true }];
    let adapters = vec![adapter(TYPE_DISCRETE, vec![EXT_SWAPCHAIN], families)];
    let info = request(vec![EXT_SWAPCHAIN], None);
    assert_eq!(Dev::new(&adapters, &info).unwrap_err(), Error::NoRequestedGPUQueues);
}

#[test]
fn roles_sharing_one_family_deduplicate_to_one_queue() {
    let families = vec![QueueFamilyInfo { flags: GRAPHICS | COMPUTE | TRANSFER, present_support: true }];
    let adapters = vec![adapter(TYPE_DISCRETE, vec![EXT_SWAPCHAIN], families)];
    let info = DevRequestInfo {
        queues: vec![
            QueueRequestInfo { flags: GRAPHICS, present: true },
            QueueRequestInfo { flags: COMPUTE, present: false },
            QueueRequestInfo { flags: TRANSFER, present: false },
        ],
        extensions: vec![EXT_SWAPCHAIN],
        preferred_type: None,
        has_surface: true,
    };
    let d = Dev::new(&adapters, &info).unwrap();
    assert_eq!(d.queues.len(), 3);
    assert_eq!(d.unique_indices, vec![0]);
}

#[test]
fn dedup_indices_keeps_each_value_once() {
    let deduped = pelkan::device::dedup_indices(&vec![3, 1, 3, 2, 1, 3]);
    let mut sorted = deduped.clone();
    sorted.sort();
    assert_eq!(sorted, vec![1, 2, 3]);
}
