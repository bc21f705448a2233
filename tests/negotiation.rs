use koi::device::{
    first_missing_name, names_equal, select_physical_device, select_queue_families, validate_instance_config,
    validate_physical_device, DeviceConfigError, DeviceFeatures, DeviceType, InstanceConfigError,
    PhysicalDeviceProperties, PhysicalDeviceQueueFamilies, PhysicalDeviceReport, QueueFamilyReport,
    QueueFamilyType, RequiredFeature, ValidPhysicalDevice,
};
use koi::settings::Resolution;
use koi::swapchain::{
    check_surface_support, get_queue_family_config, negotiate_swapchain, select_present_mode,
    select_surface_format, select_swapchain_extent, select_swapchain_min_image_count, Extent2D, SharingMode,
    SurfaceCapabilities, SurfaceFormat, SurfaceSupport, SwapchainError, PRESENT_MODE_FIFO,
};

fn name(s: &str) -> Vec<u8> {
    s.as_bytes().to_vec()
}

fn all_features() -> DeviceFeatures {
    DeviceFeatures {
        geometry_shader: true,
        dynamic_rendering: true,
        synchronization2: true,
        buffer_device_address: true,
        descriptor_indexing: true,
    }
}

fn required() -> Vec<Vec<u8>> {
    vec![name("VK_KHR_swapchain"), name("VK_KHR_dynamic_rendering")]
}

fn good_device(handle: u64, dim: u32) -> PhysicalDeviceReport {
    PhysicalDeviceReport {
        handle,
        device_type: DeviceType::DiscreteGpu,
        properties: PhysicalDeviceProperties::new(dim),
        features: all_features(),
        extensions: vec![name("VK_KHR_dynamic_rendering"), name("VK_KHR_swapchain"), name("VK_EXT_other")],
        queue_families: vec![
            QueueFamilyReport { supports_graphics: false, supports_present: false },
            QueueFamilyReport { supports_graphics: true, supports_present: false },
            QueueFamilyReport { supports_graphics: true, supports_present: true },
        ],
    }
}

#[test]
fn valid_device_gets_first_family_with_graphics_and_present() {
    let r = validate_physical_device(&good_device(9, 16384), &required());
    assert_eq!(
        r,
        Ok(ValidPhysicalDevice::new(
            9,
            PhysicalDeviceProperties::new(16384),
            PhysicalDeviceQueueFamilies { graphics_family_index: Some(2), present_family_index: Some(2) },
        ))
    );
}

#[test]
fn integrated_gpu_is_rejected() {
    let mut d = good_device(1, 8192);
    d.device_type = DeviceType::IntegratedGpu;
    assert_eq!(validate_physical_device(&d, &required()), Err(DeviceConfigError::PropertyNotFulfilled));
}

#[test]
fn first_missing_feature_is_reported() {
    let mut d = good_device(1, 8192);
    d.features.synchronization2 = false;
    d.features.descriptor_indexing = false;
    assert_eq!(
        validate_physical_device(&d, &required()),
        Err(DeviceConfigError::FeatureNotSupported(RequiredFeature::Synchronization2))
    );
    d.features = all_features();
    d.features.geometry_shader = false;
    assert_eq!(
        validate_physical_device(&d, &required()),
        Err(DeviceConfigError::FeatureNotSupported(RequiredFeature::GeometryShader))
    );
}

#[test]
fn missing_extension_is_reported_by_name() {
    let mut d = good_device(1, 8192);
    d.extensions = vec![name("VK_KHR_dynamic_rendering")];
    assert_eq!(
        validate_physical_device(&d, &required()),
        Err(DeviceConfigError::ExtensionNotSupported(name("VK_KHR_swapchain")))
    );
}

#[test]
fn missing_queue_families_are_reported() {
    let mut d = good_device(1, 8192);
    d.queue_families = vec![QueueFamilyReport { supports_graphics: false, supports_present: true }];
    assert_eq!(
        validate_physical_device(&d, &required()),
        Err(DeviceConfigError::QueueFamilyNotSupported(QueueFamilyType::Graphics))
    );
    d.queue_families = vec![QueueFamilyReport { supports_graphics: true, supports_present: false }];
    assert_eq!(
        validate_physical_device(&d, &required()),
        Err(DeviceConfigError::QueueFamilyNotSupported(QueueFamilyType::Present))
    );
    d.queue_families = vec![];
    assert_eq!(
        validate_physical_device(&d, &required()),
        Err(DeviceConfigError::QueueFamilyNotSupported(QueueFamilyType::Graphics))
    );
    // Graphics and presentation in different families do not qualify.
    d.queue_families = vec![
        QueueFamilyReport { supports_graphics: true, supports_present: false },
        QueueFamilyReport { supports_graphics: false, supports_present: true },
    ];
    assert_eq!(
        validate_physical_device(&d, &required()),
        Err(DeviceConfigError::QueueFamilyNotSupported(QueueFamilyType::Present))
    );
    assert_eq!(select_physical_device(&vec![d], &required()), None);
}

#[test]
fn best_device_has_largest_image_dimension_first_on_ties() {
    let mut weak = good_device(1, 4096);
    weak.device_type = DeviceType::Cpu;
    let devices = vec![good_device(2, 8192), weak, good_device(3, 16384), good_device(4, 16384)];
    assert_eq!(select_physical_device(&devices, &required()), Some(2));
    let mut best_but_invalid = good_device(5, 32768);
    best_but_invalid.features.buffer_device_address = false;
    let devices = vec![good_device(6, 8192), best_but_invalid];
    assert_eq!(select_physical_device(&devices, &required()), Some(0));
}

#[test]
fn no_qualifying_device_selects_none() {
    assert_eq!(select_physical_device(&vec![], &required()), None);
    let mut d = good_device(1, 8192);
    d.device_type = DeviceType::VirtualGpu;
    assert_eq!(select_physical_device(&vec![d], &required()), None);
}

#[test]
fn queue_family_selection_and_unique_indices() {
    let families = vec![
        QueueFamilyReport { supports_graphics: false, supports_present: true },
        QueueFamilyReport { supports_graphics: true, supports_present: false },
        QueueFamilyReport { supports_graphics: true, supports_present: true },
        QueueFamilyReport { supports_graphics: true, supports_present: true },
    ];
    let q = select_queue_families(&families);
    assert_eq!(q.graphics_family_index, Some(2));
    assert_eq!(q.present_family_index, Some(2));
    assert_eq!(q.get_unique_indices(), vec![2]);
    assert_eq!(q.get_family_index(QueueFamilyType::Graphics), 2);
    assert_eq!(q.get_family_index(QueueFamilyType::Present), 2);
    let split = select_queue_families(&vec![
        QueueFamilyReport { supports_graphics: true, supports_present: false },
        QueueFamilyReport { supports_graphics: false, supports_present: true },
    ]);
    assert_eq!(split, PhysicalDeviceQueueFamilies::new());
    let apart = PhysicalDeviceQueueFamilies { graphics_family_index: Some(1), present_family_index: Some(0) };
    assert_eq!(apart.get_unique_indices(), vec![1, 0]);
    let same = PhysicalDeviceQueueFamilies { graphics_family_index: Some(3), present_family_index: Some(3) };
    assert_eq!(same.get_unique_indices(), vec![3]);
    let none = PhysicalDeviceQueueFamilies::new();
    assert_eq!(none.get_unique_indices(), Vec::<u32>::new());
    assert_eq!(none.get_family_index(QueueFamilyType::Graphics), u32::MAX);
}

#[test]
fn names_compare_by_bytes() {
    assert!(names_equal(&name("abc"), &name("abc")));
    assert!(!names_equal(&name("abc"), &name("abd")));
    assert!(!names_equal(&name("abc"), &name("ab")));
    assert_eq!(first_missing_name(&vec![name("a"), name("b")], &vec![name("b"), name("a")]), None);
    assert_eq!(first_missing_name(&vec![name("a"), name("c"), name("d")], &vec![name("a")]), Some(1));
}

#[test]
fn instance_layers_are_checked_before_extensions() {
    let layers = vec![name("VK_LAYER_KHRONOS_validation")];
    let exts = vec![name("VK_KHR_surface"), name("VK_KHR_xcb_surface")];
    assert_eq!(validate_instance_config(&layers, &layers, &exts, &exts), Ok(()));
    assert_eq!(
        validate_instance_config(&layers, &vec![], &exts, &vec![]),
        Err(InstanceConfigError::LayerNotSupported(name("VK_LAYER_KHRONOS_validation")))
    );
    assert_eq!(
        validate_instance_config(&vec![], &vec![], &exts, &vec![name("VK_KHR_surface")]),
        Err(InstanceConfigError::ExtensionNotSupported(name("VK_KHR_xcb_surface")))
    );
}

fn caps(min_count: u32, max_count: u32) -> SurfaceCapabilities {
    SurfaceCapabilities {
        min_image_count: min_count,
        max_image_count: max_count,
        min_image_extent: Extent2D { width: 640, height: 480 },
        max_image_extent: Extent2D { width: 2560, height: 1440 },
        current_transform: 1,
    }
}

fn support(c: SurfaceCapabilities, formats: Vec<SurfaceFormat>, modes: Vec<i32>) -> SurfaceSupport {
    check_surface_support(c, formats, modes).unwrap()
}

#[test]
fn surface_without_formats_or_modes_is_refused() {
    let f = vec![SurfaceFormat { format: 44, color_space: 0 }];
    assert_eq!(check_surface_support(caps(2, 3), vec![], vec![]).err(), Some(SwapchainError::NoSurfaceFormats));
    assert_eq!(check_surface_support(caps(2, 3), f, vec![]).err(), Some(SwapchainError::NoPresentModes));
}

#[test]
fn preferred_format_else_first() {
    let s = support(
        caps(2, 3),
        vec![SurfaceFormat { format: 37, color_space: 0 }, SurfaceFormat { format: 44, color_space: 0 }],
        vec![2],
    );
    assert_eq!(select_surface_format(&s, 44, 0), SurfaceFormat { format: 44, color_space: 0 });
    assert_eq!(select_surface_format(&s, 44, 1), SurfaceFormat { format: 37, color_space: 0 });
}

#[test]
fn preferred_present_mode_else_fifo() {
    let s = support(caps(2, 3), vec![SurfaceFormat { format: 44, color_space: 0 }], vec![0, 1]);
    assert_eq!(select_present_mode(&s, 1), 1);
    assert_eq!(select_present_mode(&s, 3), PRESENT_MODE_FIFO);
}

#[test]
fn extent_is_clamped_per_dimension() {
    let s = support(caps(2, 3), vec![SurfaceFormat { format: 44, color_space: 0 }], vec![2]);
    assert_eq!(select_swapchain_extent(&s, &Resolution::new(800, 600)), Extent2D { width: 800, height: 600 });
    assert_eq!(select_swapchain_extent(&s, &Resolution::new(100, 5000)), Extent2D { width: 640, height: 1440 });
    assert_eq!(select_swapchain_extent(&s, &Resolution::new(0, 0)), Extent2D { width: 640, height: 480 });
}

#[test]
fn image_count_is_one_over_minimum_within_maximum() {
    let f = vec![SurfaceFormat { format: 44, color_space: 0 }];
    assert_eq!(select_swapchain_min_image_count(&support(caps(2, 3), f.clone(), vec![2])), 3);
    assert_eq!(select_swapchain_min_image_count(&support(caps(3, 3), f.clone(), vec![2])), 3);
    assert_eq!(select_swapchain_min_image_count(&support(caps(3, 0), f.clone(), vec![2])), 4);
    assert_eq!(select_swapchain_min_image_count(&support(caps(u32::MAX, 0), f, vec![2])), u32::MAX);
}

#[test]
fn sharing_follows_queue_families() {
    let same = PhysicalDeviceQueueFamilies { graphics_family_index: Some(0), present_family_index: Some(0) };
    let (mode, indices) = get_queue_family_config(&same);
    assert_eq!(mode, SharingMode::Exclusive);
    assert!(indices.is_empty());
    let split = PhysicalDeviceQueueFamilies { graphics_family_index: Some(0), present_family_index: Some(2) };
    let (mode, indices) = get_queue_family_config(&split);
    assert_eq!(mode, SharingMode::Concurrent);
    assert_eq!(indices, vec![0, 2]);
}

#[test]
fn negotiation_combines_every_choice() {
    let s = support(caps(2, 0), vec![SurfaceFormat { format: 50, color_space: 0 }], vec![2, 1]);
    let split = PhysicalDeviceQueueFamilies { graphics_family_index: Some(1), present_family_index: Some(0) };
    let c = negotiate_swapchain(&s, &split, &Resolution::new(3000, 1000), 44, 0, 0);
    assert_eq!(c.surface_format, SurfaceFormat { format: 50, color_space: 0 });
    assert_eq!(c.present_mode, PRESENT_MODE_FIFO);
    assert_eq!(c.extent, Extent2D { width: 2560, height: 1000 });
    assert_eq!(c.min_image_count, 3);
    assert_eq!(c.sharing_mode, SharingMode::Concurrent);
    assert_eq!(c.queue_family_indices, vec![1, 0]);
    assert_eq!(c.pre_transform, 1);
}
