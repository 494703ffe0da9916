use opal::context::{PhysicalDeviceInfo, QueueFamilyProperties, VulkanContext, VulkanPhysicalDevice};
use opal::device::PhysicalDeviceType;
use opal::errors::VulkanError;

fn family(count: u32, graphics: bool, present: bool) -> QueueFamilyProperties {
    QueueFamilyProperties { queue_count: count, supports_graphics: graphics, supports_present: present }
}

fn names(list: &[&str]) -> Vec<String> {
    list.iter().map(|s| s.to_string()).collect()
}

#[test]
fn candidate_complete_when_both_families_found() {
    let families = vec![family(1, true, false), family(1, false, true)];
    let exts = names(&["VK_KHR_swapchain"]);
    let required = names(&["VK_KHR_swapchain"]);
    let candidate = VulkanPhysicalDevice::new(&families, &exts, &required, PhysicalDeviceType::DiscreteGpu);
    assert_eq!(candidate.graphics_family_index, Some(0));
    assert_eq!(candidate.present_family_index, Some(1));
    assert!(candidate.is_complete());
    assert!(candidate.suitable);
}

#[test]
fn candidate_incomplete_without_present_family() {
    let families = vec![family(1, true, false), family(2, true, false)];
    let exts = names(&[]);
    let required = names(&[]);
    let candidate = VulkanPhysicalDevice::new(&families, &exts, &required, PhysicalDeviceType::Other);
    assert_eq!(candidate.graphics_family_index, Some(1));
    assert_eq!(candidate.present_family_index, None);
    assert!(!candidate.is_complete());
}

#[test]
fn candidate_with_zero_queue_families_is_never_complete() {
    let families: Vec<QueueFamilyProperties> = Vec::new();
    let candidate = VulkanPhysicalDevice::new(
        &families,
        &names(&[]),
        &names(&[]),
        PhysicalDeviceType::DiscreteGpu,
    );
    assert_eq!(candidate.graphics_family_index, None);
    assert_eq!(candidate.present_family_index, None);
    assert!(!candidate.is_complete());
}

#[test]
fn candidate_ignores_families_with_zero_queues() {
    let families = vec![family(0, true, true), family(1, true, true)];
    let candidate = VulkanPhysicalDevice::new(
        &families,
        &names(&[]),
        &names(&[]),
        PhysicalDeviceType::IntegratedGpu,
    );
    assert_eq!(candidate.graphics_family_index, Some(1));
    assert_eq!(candidate.present_family_index, Some(1));
}

#[test]
fn scan_stops_once_both_families_are_found() {
    // Families past the first complete pair are never reached, so a later
    // graphics-capable family does not replace the recorded index.
    let families = vec![family(1, true, true), family(1, true, true)];
    let candidate = VulkanPhysicalDevice::new(
        &families,
        &names(&[]),
        &names(&[]),
        PhysicalDeviceType::Other,
    );
    assert_eq!(candidate.graphics_family_index, Some(0));
    assert_eq!(candidate.present_family_index, Some(0));
}

#[test]
fn context_rejects_app_name_with_embedded_nul() {
    let r = VulkanContext::new(
        "bad\0name",
        1,
        &names(&["VK_KHR_surface"]),
        &names(&[]),
        &Vec::new(),
        None,
        None,
        false,
    );
    match r {
        Err(VulkanError::StringError) => {}
        _ => panic!("expected StringError"),
    }
}

#[test]
fn context_assembles_extension_and_layer_lists() {
    let surface_exts = names(&["VK_KHR_surface", "VK_KHR_xlib_surface"]);
    let available_layers = names(&["VK_LAYER_KHRONOS_validation", "VK_LAYER_MESA_overlay"]);
    let extra = names(&["VK_EXT_headless_surface"]);
    let requested_layers = names(&["VK_LAYER_KHRONOS_validation", "VK_LAYER_not_there"]);
    let context = VulkanContext::new(
        "Triangle",
        7,
        &surface_exts,
        &available_layers,
        &Vec::new(),
        Some(&extra),
        Some(&requested_layers),
        true,
    )
    .unwrap();
    assert_eq!(context.app_name, "Triangle");
    assert_eq!(context.app_version, 7);
    assert_eq!(
        context.extensions,
        names(&[
            "VK_KHR_surface",
            "VK_KHR_xlib_surface",
            "VK_EXT_headless_surface",
            "VK_EXT_debug_utils",
        ])
    );
    // The unavailable layer is dropped; the debug build then requests the
    // validation layer unconditionally.
    assert_eq!(
        context.layers,
        names(&["VK_LAYER_KHRONOS_validation", "VK_LAYER_KHRONOS_validation"])
    );
    assert_eq!(context.device_extensions, names(&["VK_KHR_swapchain"]));
    assert!(context.debug_messenger);
}

#[test]
fn context_without_debug_requests_no_validation() {
    let context = VulkanContext::new(
        "App",
        0,
        &names(&["VK_KHR_surface"]),
        &names(&["VK_LAYER_KHRONOS_validation"]),
        &Vec::new(),
        None,
        None,
        false,
    )
    .unwrap();
    assert_eq!(context.extensions, names(&["VK_KHR_surface"]));
    assert_eq!(context.layers, Vec::<String>::new());
    assert!(!context.debug_messenger);
}

#[test]
fn context_annotates_enumerated_devices() {
    let devices = vec![
        PhysicalDeviceInfo {
            queue_families: vec![family(1, true, true)],
            extension_names: names(&["VK_KHR_swapchain", "VK_KHR_maintenance1"]),
            device_type: PhysicalDeviceType::DiscreteGpu,
        },
        PhysicalDeviceInfo {
            queue_families: vec![family(1, true, true)],
            extension_names: names(&["VK_KHR_maintenance1"]),
            device_type: PhysicalDeviceType::IntegratedGpu,
        },
    ];
    let context = VulkanContext::new(
        "App",
        0,
        &names(&["VK_KHR_surface"]),
        &names(&[]),
        &devices,
        None,
        None,
        false,
    )
    .unwrap();
    assert_eq!(context.physical_devices.len(), 2);
    assert!(context.physical_devices[0].suitable);
    assert!(context.physical_devices[0].is_complete());
    // The second device lacks the swapchain extension.
    assert!(!context.physical_devices[1].suitable);
    assert!(context.physical_devices[1].is_complete());
}
