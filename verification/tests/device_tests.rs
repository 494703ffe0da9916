use opal::context::{VulkanContext, VulkanPhysicalDevice};
use opal::device::{
    api_version_major, api_version_minor, api_version_patch, device_type_name, PhysicalDeviceType,
    QueueCreateRecord, VulkanDevice,
};
use opal::errors::VulkanError;
use opal::swapchain::{
    CompositeAlphaSupport, Extent2D, SharingMode, SurfaceCapabilities, SurfaceFormat,
    SwapChainSupportDetail, COLOR_SPACE_SRGB_NONLINEAR, FORMAT_B8G8R8A8_SRGB, PRESENT_MODE_FIFO,
};

fn candidate(
    graphics: Option<u32>,
    present: Option<u32>,
    suitable: bool,
    device_type: PhysicalDeviceType,
) -> VulkanPhysicalDevice {
    VulkanPhysicalDevice {
        graphics_family_index: graphics,
        present_family_index: present,
        suitable,
        device_type,
    }
}

fn context_over(candidates: Vec<VulkanPhysicalDevice>) -> VulkanContext {
    VulkanContext {
        app_name: "App".to_string(),
        app_version: 0,
        extensions: vec!["VK_KHR_surface".to_string()],
        device_extensions: vec!["VK_KHR_swapchain".to_string()],
        layers: Vec::new(),
        debug_messenger: false,
        physical_devices: candidates,
    }
}

#[test]
fn default_selection_picks_discrete_regardless_of_order() {
    let orders: Vec<Vec<PhysicalDeviceType>> = vec![
        vec![
            PhysicalDeviceType::Other,
            PhysicalDeviceType::IntegratedGpu,
            PhysicalDeviceType::DiscreteGpu,
            PhysicalDeviceType::VirtualGpu,
        ],
        vec![
            PhysicalDeviceType::DiscreteGpu,
            PhysicalDeviceType::Other,
            PhysicalDeviceType::IntegratedGpu,
            PhysicalDeviceType::VirtualGpu,
        ],
        vec![
            PhysicalDeviceType::VirtualGpu,
            PhysicalDeviceType::DiscreteGpu,
            PhysicalDeviceType::IntegratedGpu,
            PhysicalDeviceType::Other,
        ],
    ];
    for (which, types) in orders.into_iter().enumerate() {
        let discrete_at = types
            .iter()
            .position(|t| *t == PhysicalDeviceType::DiscreteGpu)
            .unwrap() as u32;
        let candidates: Vec<VulkanPhysicalDevice> = types
            .into_iter()
            .enumerate()
            .map(|(i, t)| candidate(Some(i as u32), Some(i as u32), true, t))
            .collect();
        let device = context_over(candidates)
            .create_graphic_device_default()
            .unwrap_or_else(|_| panic!("order {} selected no device", which));
        assert_eq!(device.physical_device_index, discrete_at as usize);
        assert_eq!(device.graphics_family_index, discrete_at);
    }
}

#[test]
fn default_selection_skips_unsuitable_and_incomplete() {
    let candidates = vec![
        // A discrete device that does not support the required extensions.
        candidate(Some(0), Some(0), false, PhysicalDeviceType::DiscreteGpu),
        // A discrete device with no present family.
        candidate(Some(1), None, true, PhysicalDeviceType::DiscreteGpu),
        // A qualifying integrated device.
        candidate(Some(2), Some(2), true, PhysicalDeviceType::IntegratedGpu),
    ];
    let device = context_over(candidates).create_graphic_device_default().unwrap();
    assert_eq!(device.physical_device_index, 2);
    assert_eq!(device.graphics_family_index, 2);
}

#[test]
fn default_selection_ties_go_to_the_first_seen() {
    let candidates = vec![
        candidate(Some(0), Some(0), true, PhysicalDeviceType::DiscreteGpu),
        candidate(Some(1), Some(1), true, PhysicalDeviceType::DiscreteGpu),
    ];
    let device = context_over(candidates).create_graphic_device_default().unwrap();
    assert_eq!(device.physical_device_index, 0);
}

#[test]
fn default_selection_fails_without_candidates() {
    let r = context_over(Vec::new()).create_graphic_device_default();
    match r {
        Err(VulkanError::DeviceSelectionError) => {}
        _ => panic!("expected DeviceSelectionError"),
    }
}

#[test]
fn explicit_selection_fails_out_of_range_or_incomplete() {
    let candidates = vec![candidate(Some(0), None, true, PhysicalDeviceType::DiscreteGpu)];
    let context = context_over(candidates);
    match context.create_graphic_device(5) {
        Err(VulkanError::DeviceSelectionError) => {}
        _ => panic!("expected DeviceSelectionError for an out-of-range index"),
    }
    match context.create_graphic_device(0) {
        Err(VulkanError::DeviceSelectionError) => {}
        _ => panic!("expected DeviceSelectionError for incomplete queue families"),
    }
}

#[test]
fn explicit_selection_does_not_ask_for_suitability() {
    // The explicit path checks queue-family completeness only, as the
    // original did.
    let candidates = vec![candidate(Some(3), Some(4), false, PhysicalDeviceType::Other)];
    let device = context_over(candidates).create_graphic_device(0).unwrap();
    assert_eq!(device.graphics_family_index, 3);
    assert_eq!(device.present_family_index, 4);
    assert_eq!(device.extensions, vec!["VK_KHR_swapchain".to_string()]);
}

#[test]
fn device_plan_merges_equal_families_into_one_record() {
    let device = VulkanDevice::new(0, 2, 2, &vec!["VK_KHR_swapchain".to_string()]);
    assert_eq!(
        device.queue_create_infos,
        vec![QueueCreateRecord { family_index: 2, queue_count: 1 }]
    );
}

#[test]
fn device_plan_requests_both_families_when_they_differ() {
    let device = VulkanDevice::new(0, 0, 3, &Vec::new());
    assert_eq!(
        device.queue_create_infos,
        vec![
            QueueCreateRecord { family_index: 0, queue_count: 1 },
            QueueCreateRecord { family_index: 3, queue_count: 1 },
        ]
    );
}

#[test]
fn sharing_mode_follows_family_equality() {
    let support = swapchain_support();
    let same = VulkanDevice::new(0, 1, 1, &Vec::new());
    let chain = same.create_swapchain(&support, 800, 600);
    assert_eq!(chain.config.image_sharing_mode, SharingMode::Exclusive);
    assert_eq!(chain.config.queue_family_indices, Vec::<u32>::new());

    let split = VulkanDevice::new(0, 1, 2, &Vec::new());
    let chain = split.create_swapchain(&support, 800, 600);
    assert_eq!(chain.config.image_sharing_mode, SharingMode::Concurrent);
    assert_eq!(chain.config.queue_family_indices, vec![1, 2]);
}

fn swapchain_support() -> SwapChainSupportDetail {
    SwapChainSupportDetail {
        capabilities: SurfaceCapabilities {
            min_image_count: 2,
            max_image_count: 0,
            current_extent: Extent2D { width: 800, height: 600 },
            min_image_extent: Extent2D { width: 1, height: 1 },
            max_image_extent: Extent2D { width: 4096, height: 4096 },
            current_transform: 1,
            supported_composite_alpha: CompositeAlphaSupport {
                opaque: true,
                pre_multiplied: false,
                post_multiplied: false,
                inherit: false,
            },
        },
        formats: vec![SurfaceFormat {
            format: FORMAT_B8G8R8A8_SRGB,
            color_space: COLOR_SPACE_SRGB_NONLINEAR,
        }],
        present_modes: vec![PRESENT_MODE_FIFO],
    }
}

#[test]
fn api_version_parts_come_from_the_packed_word() {
    // 1.3.281 packed as Vulkan does it: (1 << 22) | (3 << 12) | 281.
    let packed: u32 = (1 << 22) | (3 << 12) | 281;
    assert_eq!(api_version_major(packed), 1);
    assert_eq!(api_version_minor(packed), 3);
    assert_eq!(api_version_patch(packed), 281);
}

#[test]
fn device_type_labels_match_the_log_lines() {
    assert_eq!(device_type_name(PhysicalDeviceType::Cpu), "Cpu");
    assert_eq!(device_type_name(PhysicalDeviceType::IntegratedGpu), "Integrated GPU");
    assert_eq!(device_type_name(PhysicalDeviceType::DiscreteGpu), "Discrete GPU");
    assert_eq!(device_type_name(PhysicalDeviceType::VirtualGpu), "Virtual GPU");
    assert_eq!(device_type_name(PhysicalDeviceType::Other), "Other");
    assert_eq!(device_type_name(PhysicalDeviceType::Unknown), "Unknown Device Type");
}
