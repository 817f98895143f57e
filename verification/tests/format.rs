use auto_fov::{format_hundredths, CameraFov, ShowFovSystem};

#[test]
fn hundredths_round_values() {
    assert_eq!(format_hundredths(178), "1.78");
    assert_eq!(format_hundredths(100), "1.00");
    assert_eq!(format_hundredths(0), "0.00");
    assert_eq!(format_hundredths(7), "0.07");
    assert_eq!(format_hundredths(70), "0.70");
    assert_eq!(format_hundredths(123456), "1234.56");
}

#[test]
fn hundredths_negative_values() {
    assert_eq!(format_hundredths(-5), "-0.05");
    assert_eq!(format_hundredths(-178), "-1.78");
    assert_eq!(format_hundredths(-100), "-1.00");
}

#[test]
fn hundredths_extremes() {
    assert_eq!(format_hundredths(i64::MAX), "92233720368547758.07");
    assert_eq!(format_hundredths(i64::MIN + 1), "-92233720368547758.07");
}

#[test]
fn screen_aspect_text_matches_reading() {
    let system = ShowFovSystem;
    let updates = system.run::<u32>(178, Some(3), None, None, None);
    assert_eq!(updates.len(), 1);
    assert_eq!(updates[0].target, 3);
    assert_eq!(updates[0].text, "Screen Aspect Ratio: 1.78");
}

#[test]
fn camera_lines_follow_the_readings() {
    let system = ShowFovSystem;
    let camera = CameraFov { fovy: 90, aspect: 178, fovx: 160 };
    let updates = system.run::<u32>(178, Some(1), Some(camera), Some(2), Some(3));
    assert_eq!(updates.len(), 3);
    assert_eq!(updates[0].target, 1);
    assert_eq!(updates[0].text, "Screen Aspect Ratio: 1.78");
    assert_eq!(updates[1].target, 2);
    assert_eq!(updates[1].text, "Camera Aspect Ratio: 1.78");
    assert_eq!(updates[2].target, 3);
    assert_eq!(updates[2].text, "Camera Fov: (1.60, 0.90)");
}

#[test]
fn missing_overlay_elements_are_skipped() {
    let system = ShowFovSystem;
    let camera = CameraFov { fovy: 90, aspect: 178, fovx: 160 };
    let updates = system.run::<u32>(178, None, Some(camera), None, Some(3));
    assert_eq!(updates.len(), 1);
    assert_eq!(updates[0].target, 3);
    assert_eq!(updates[0].text, "Camera Fov: (1.60, 0.90)");
}

#[test]
fn missing_camera_leaves_camera_lines_alone() {
    let system = ShowFovSystem;
    let updates = system.run::<u32>(150, Some(1), None, Some(2), Some(3));
    assert_eq!(updates.len(), 1);
    assert_eq!(updates[0].target, 1);
    assert_eq!(updates[0].text, "Screen Aspect Ratio: 1.50");
}
