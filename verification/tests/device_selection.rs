use image_example::device::{
    device_type_rank, find_queue_family, required_device_extensions, required_device_features,
    select_physical_device, DeviceExtensionSet, DeviceFeatureSet, DeviceKind, PhysicalDeviceInfo,
    QueueFamilyInfo, QUEUE_GRAPHICS,
};

fn family(flags: u32, present: bool) -> QueueFamilyInfo {
    QueueFamilyInfo { queue_flags: flags, presentation_supported: present }
}

fn full_device(kind: DeviceKind, families: Vec<QueueFamilyInfo>) -> PhysicalDeviceInfo {
    PhysicalDeviceInfo {
        extensions: DeviceExtensionSet { khr_swapchain: true, khr_vulkan_memory_model: true },
        features: DeviceFeatureSet { vulkan_memory_model: true },
        kind,
        queue_families: families,
    }
}

#[test]
fn ranks_follow_preference() {
    assert_eq!(device_type_rank(DeviceKind::DiscreteGpu), 0);
    assert_eq!(device_type_rank(DeviceKind::IntegratedGpu), 1);
    assert_eq!(device_type_rank(DeviceKind::VirtualGpu), 2);
    assert_eq!(device_type_rank(DeviceKind::Cpu), 3);
    assert_eq!(device_type_rank(DeviceKind::Other), 4);
    assert_eq!(device_type_rank(DeviceKind::Unrecognized), 5);
}

#[test]
fn required_sets() {
    let e = required_device_extensions();
    assert!(e.khr_swapchain && e.khr_vulkan_memory_model);
    assert!(required_device_features().vulkan_memory_model);
    let partial = DeviceExtensionSet { khr_swapchain: true, khr_vulkan_memory_model: false };
    assert!(!partial.contains(&e));
    assert!(e.contains(&partial));
    let none = DeviceFeatureSet { vulkan_memory_model: false };
    assert!(!none.contains(&required_device_features()));
    assert!(none.contains(&none));
}

#[test]
fn first_family_with_graphics_and_presentation() {
    let fams = vec![
        family(0b100, true),           // transfer only
        family(QUEUE_GRAPHICS, false), // graphics, cannot present
        family(0b011, true),           // graphics + compute, can present
        family(QUEUE_GRAPHICS, true),
    ];
    assert_eq!(find_queue_family(&fams), Some(2));
    assert_eq!(find_queue_family(&vec![family(0b110, true)]), None);
    assert_eq!(find_queue_family(&vec![]), None);
}

#[test]
fn picks_discrete_over_integrated() {
    let devices = vec![
        full_device(DeviceKind::IntegratedGpu, vec![family(1, true)]),
        full_device(DeviceKind::DiscreteGpu, vec![family(2, true), family(3, true)]),
        full_device(DeviceKind::Cpu, vec![family(1, true)]),
    ];
    assert_eq!(select_physical_device(&devices), Some((1, 1)));
}

#[test]
fn ties_go_to_the_first_device() {
    let devices = vec![
        full_device(DeviceKind::VirtualGpu, vec![family(0, true), family(1, true)]),
        full_device(DeviceKind::VirtualGpu, vec![family(1, true)]),
    ];
    assert_eq!(select_physical_device(&devices), Some((0, 1)));
}

#[test]
fn unsuitable_devices_are_skipped() {
    let mut no_swapchain = full_device(DeviceKind::DiscreteGpu, vec![family(1, true)]);
    no_swapchain.extensions.khr_swapchain = false;
    let mut no_model = full_device(DeviceKind::DiscreteGpu, vec![family(1, true)]);
    no_model.features.vulkan_memory_model = false;
    let no_present = full_device(DeviceKind::DiscreteGpu, vec![family(1, false)]);
    let fine = full_device(DeviceKind::Other, vec![family(1, true)]);
    let devices = vec![no_swapchain, no_model, no_present, fine];
    assert_eq!(select_physical_device(&devices), Some((3, 0)));
}

#[test]
fn no_suitable_device() {
    let devices = vec![full_device(DeviceKind::DiscreteGpu, vec![family(0b100, true)])];
    assert_eq!(select_physical_device(&devices), None);
    assert_eq!(select_physical_device(&vec![]), None);
}
