use image_example::swapchain::{
    extent_drawable, first_supported_composite_alpha, swapchain_min_image_count, viewport_extent,
    CompositeAlphaKind,
};

#[test]
fn at_least_two_images() {
    assert_eq!(swapchain_min_image_count(0), 2);
    assert_eq!(swapchain_min_image_count(1), 2);
    assert_eq!(swapchain_min_image_count(2), 2);
    assert_eq!(swapchain_min_image_count(3), 3);
    assert_eq!(swapchain_min_image_count(u32::MAX), u32::MAX);
}

#[test]
fn first_composite_alpha_in_order() {
    assert_eq!(first_supported_composite_alpha(0b1111), Some(CompositeAlphaKind::Opaque));
    assert_eq!(first_supported_composite_alpha(0b1010), Some(CompositeAlphaKind::PreMultiplied));
    assert_eq!(first_supported_composite_alpha(0b1100), Some(CompositeAlphaKind::PostMultiplied));
    assert_eq!(first_supported_composite_alpha(0b1000), Some(CompositeAlphaKind::Inherit));
    assert_eq!(first_supported_composite_alpha(0), None);
    assert_eq!(first_supported_composite_alpha(0b1_0000), None);
}

#[test]
fn zero_sided_extent_is_not_drawable() {
    assert!(extent_drawable([800, 600]));
    assert!(!extent_drawable([0, 600]));
    assert!(!extent_drawable([800, 0]));
    assert!(!extent_drawable([0, 0]));
}

#[test]
fn viewport_follows_first_image() {
    assert_eq!(viewport_extent(&vec![[640, 480, 1], [1, 2, 1]]), [640, 480]);
}
