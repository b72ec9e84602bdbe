use vpb::{instance_config, swapchain_settings, Extent2D, InstanceError, SurfaceCapabilities};

fn caps(min: u32, max: u32, width: u32) -> SurfaceCapabilities {
    SurfaceCapabilities {
        min_image_count: min,
        max_image_count: max,
        current_extent: Extent2D { width, height: 600 },
        supported_transforms: 0b1001,
        current_transform: 0b1000,
    }
}

#[test]
fn swapchain_takes_one_more_image_than_minimum() {
    let s = swapchain_settings(caps(2, 8, 800), Extent2D { width: 1280, height: 720 }, &[0, 2]);
    assert_eq!(s.min_image_count, 3);
    assert_eq!(s.extent, Extent2D { width: 800, height: 600 });
    assert_eq!(s.pre_transform, 1);
    assert_eq!(s.present_mode, 2);
}

#[test]
fn swapchain_image_count_capped_by_maximum() {
    assert_eq!(swapchain_settings(caps(3, 3, 800), Extent2D { width: 1, height: 1 }, &[]).min_image_count, 3);
    assert_eq!(swapchain_settings(caps(3, 0, 800), Extent2D { width: 1, height: 1 }, &[]).min_image_count, 4);
}

#[test]
fn swapchain_uses_window_extent_when_surface_leaves_it_open() {
    let s = swapchain_settings(caps(1, 0, u32::MAX), Extent2D { width: 1280, height: 720 }, &[2]);
    assert_eq!(s.extent, Extent2D { width: 1280, height: 720 });
}

#[test]
fn swapchain_prefers_mailbox() {
    let s = swapchain_settings(caps(1, 0, 10), Extent2D { width: 1, height: 1 }, &[2, 3, 1]);
    assert_eq!(s.present_mode, 1);
}

#[test]
fn swapchain_keeps_current_transform_without_identity() {
    let mut c = caps(1, 0, 10);
    c.supported_transforms = 0b0110;
    c.current_transform = 0b0100;
    assert_eq!(swapchain_settings(c, Extent2D { width: 1, height: 1 }, &[]).pre_transform, 0b0100);
}

#[test]
fn instance_adds_debug_utils_and_validation() {
    let c = instance_config(vec!["VK_KHR_surface".to_string(), "VK_KHR_xcb_surface".to_string()]).unwrap();
    assert_eq!(c.layers, vec!["VK_LAYER_KHRONOS_validation".to_string()]);
    assert_eq!(
        c.extensions,
        vec!["VK_KHR_surface".to_string(), "VK_KHR_xcb_surface".to_string(), "VK_EXT_debug_utils".to_string()]
    );
    assert_eq!(c.api_version, 0x0040_3000);
    assert_eq!(c.api_version, ash::vk::make_api_version(0, 1, 3, 0));
}

#[test]
fn instance_needs_surface_extension() {
    assert!(matches!(
        instance_config(vec!["VK_KHR_xcb_surface".to_string()]),
        Err(InstanceError::MissingSurfaceExtension)
    ));
    assert!(matches!(instance_config(Vec::new()), Err(InstanceError::MissingSurfaceExtension)));
}
