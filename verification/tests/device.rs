use hello_vulkan::device::DeviceInfo;
use hello_vulkan::device::QueueFamilyInfo;
use hello_vulkan::device::find_graphics_family;
use hello_vulkan::device::plan_device_init;
use hello_vulkan::error::InitError;

fn family(id: u32, graphics: bool) -> QueueFamilyInfo {
    QueueFamilyInfo {
        id,
        queues_count: 1,
        supports_graphics: graphics,
        supports_compute: false,
        supports_transfers: true,
        supports_sparse_binding: false,
    }
}

#[test]
fn first_graphics_family_is_chosen() {
    let families = vec![family(0, false), family(1, true), family(2, true)];
    assert_eq!(find_graphics_family(&families), Some(1));
}

#[test]
fn no_graphics_family_found() {
    let families = vec![family(0, false), family(1, false)];
    assert_eq!(find_graphics_family(&families), None);
}

#[test]
fn init_succeeds_with_a_graphics_family() {
    let devices = vec![DeviceInfo {
        queue_families: vec![family(0, false), family(3, true)],
    }];
    let plan = plan_device_init(&devices, true).unwrap();
    assert_eq!(plan.device_index, 0);
    assert_eq!(plan.queue_family_index, 1);
    assert_eq!(plan.queue_family_id, 3);
    assert!(plan.enable_khr_swapchain);
    assert_eq!(plan.queue_count, 1);
    assert_eq!(plan.queue_priority_millis, 500);
}

#[test]
fn offscreen_init_requests_no_swapchain_extension() {
    let devices = vec![DeviceInfo {
        queue_families: vec![family(0, true)],
    }];
    let plan = plan_device_init(&devices, false).unwrap();
    assert!(!plan.enable_khr_swapchain);
}

#[test]
fn init_fails_fast_without_graphics_family() {
    let devices = vec![DeviceInfo {
        queue_families: vec![family(0, false), family(1, false)],
    }];
    let err = plan_device_init(&devices, true).unwrap_err();
    assert_eq!(err, InitError::NoGraphicsQueueFamily);
    assert_eq!(err.message(), "No graphical queue family");
}

#[test]
fn init_fails_fast_without_devices() {
    let err = plan_device_init(&Vec::new(), true).unwrap_err();
    assert_eq!(err, InitError::NoDevice);
    assert_eq!(err.message(), "No device available");
}

#[test]
fn only_the_first_device_is_considered() {
    let devices = vec![
        DeviceInfo {
            queue_families: vec![family(0, false)],
        },
        DeviceInfo {
            queue_families: vec![family(0, true)],
        },
    ];
    let err = plan_device_init(&devices, true).unwrap_err();
    assert_eq!(err, InitError::NoGraphicsQueueFamily);
}
