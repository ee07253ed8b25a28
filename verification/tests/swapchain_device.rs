use framesync::device::{class_rank, pick_device, DeviceCandidate, DeviceClass};
use framesync::extent::{Extent, ExtentBounds};
use framesync::swapchain::{SurfaceCaps, SwapchainError, SwapchainState};

fn caps(min_image_count: usize, formats: Vec<u32>) -> SurfaceCaps {
    SurfaceCaps {
        min_image_count,
        bounds: ExtentBounds {
            min: Extent { width: 1, height: 1 },
            max: Extent { width: 4096, height: 4096 },
        },
        formats,
    }
}

#[test]
fn extent_usability() {
    assert!(Extent::new(1, 1).usable());
    assert!(Extent::new(600, 600).usable());
    assert!(!Extent::new(0, 0).usable());
    assert!(!Extent::new(0, 600).usable());
    assert!(!Extent::new(600, 0).usable());
}

#[test]
fn bounds_support_their_edges() {
    let bounds = ExtentBounds {
        min: Extent { width: 100, height: 200 },
        max: Extent { width: 300, height: 400 },
    };
    assert!(bounds.supports(&Extent { width: 100, height: 200 }));
    assert!(bounds.supports(&Extent { width: 300, height: 400 }));
    assert!(bounds.supports(&Extent { width: 150, height: 350 }));
    assert!(!bounds.supports(&Extent { width: 99, height: 200 }));
    assert!(!bounds.supports(&Extent { width: 100, height: 401 }));
}

#[test]
fn create_uses_surface_preferences() {
    let s = SwapchainState::create(&caps(3, vec![44, 50]), Extent { width: 600, height: 600 }, 1)
        .unwrap();
    assert_eq!(s.format, 44);
    assert_eq!(s.present_mode, 1);
    assert_eq!(s.extent, Extent { width: 600, height: 600 });
    assert_eq!(s.image_count, 3);
}

#[test]
fn create_enforces_double_buffering() {
    let s = SwapchainState::create(&caps(1, vec![44]), Extent { width: 600, height: 600 }, 1)
        .unwrap();
    assert_eq!(s.image_count, 2);
}

#[test]
fn create_rejects_unsupported_extent() {
    let r = SwapchainState::create(&caps(2, vec![44]), Extent { width: 0, height: 0 }, 1);
    assert_eq!(r, Err(SwapchainError::UnsupportedExtent));
    let r2 = SwapchainState::create(&caps(2, vec![44]), Extent { width: 9999, height: 600 }, 1);
    assert_eq!(r2, Err(SwapchainError::UnsupportedExtent));
}

#[test]
fn create_without_formats_is_a_device_error() {
    let r = SwapchainState::create(&caps(2, vec![]), Extent { width: 600, height: 600 }, 1);
    assert_eq!(r, Err(SwapchainError::DeviceError));
}

#[test]
fn recreate_changes_only_the_extent() {
    let bounds = ExtentBounds {
        min: Extent { width: 1, height: 1 },
        max: Extent { width: 4096, height: 4096 },
    };
    let s = SwapchainState {
        format: 44,
        present_mode: 1,
        extent: Extent { width: 600, height: 600 },
        image_count: 3,
    };
    let s2 = s.recreate(&bounds, Extent { width: 800, height: 600 }).unwrap();
    assert_eq!(s2.extent, Extent { width: 800, height: 600 });
    assert_eq!(s2.format, s.format);
    assert_eq!(s2.present_mode, s.present_mode);
    assert_eq!(s2.image_count, s.image_count);
}

#[test]
fn recreate_rejects_a_minimized_surface() {
    let bounds = ExtentBounds {
        min: Extent { width: 1, height: 1 },
        max: Extent { width: 4096, height: 4096 },
    };
    let s = SwapchainState {
        format: 44,
        present_mode: 1,
        extent: Extent { width: 600, height: 600 },
        image_count: 2,
    };
    let r = s.recreate(&bounds, Extent { width: 0, height: 0 });
    assert_eq!(r, Err(SwapchainError::UnsupportedExtent));
}

#[test]
fn class_ranks_follow_the_preference_order() {
    assert_eq!(class_rank(DeviceClass::Discrete), 0);
    assert_eq!(class_rank(DeviceClass::Integrated), 1);
    assert_eq!(class_rank(DeviceClass::Virtual), 2);
    assert_eq!(class_rank(DeviceClass::Cpu), 3);
    assert_eq!(class_rank(DeviceClass::Other), 4);
}

#[test]
fn pick_device_prefers_the_best_class() {
    let candidates = vec![
        DeviceCandidate { class: DeviceClass::Cpu, eligible: true },
        DeviceCandidate { class: DeviceClass::Integrated, eligible: true },
        DeviceCandidate { class: DeviceClass::Discrete, eligible: true },
    ];
    assert_eq!(pick_device(&candidates), Some(2));
}

#[test]
fn pick_device_skips_ineligible_devices() {
    let candidates = vec![
        DeviceCandidate { class: DeviceClass::Discrete, eligible: false },
        DeviceCandidate { class: DeviceClass::Integrated, eligible: true },
    ];
    assert_eq!(pick_device(&candidates), Some(1));
}

#[test]
fn pick_device_takes_the_first_among_equals() {
    let candidates = vec![
        DeviceCandidate { class: DeviceClass::Integrated, eligible: true },
        DeviceCandidate { class: DeviceClass::Integrated, eligible: true },
    ];
    assert_eq!(pick_device(&candidates), Some(0));
}

#[test]
fn pick_device_with_no_eligible_candidate_is_none() {
    assert_eq!(pick_device(&vec![]), None);
    let candidates = vec![
        DeviceCandidate { class: DeviceClass::Discrete, eligible: false },
    ];
    assert_eq!(pick_device(&candidates), None);
}
