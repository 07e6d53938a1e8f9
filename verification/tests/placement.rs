use cat_recycle_bin::placement::{
    fallback_arithmetic_ok, fallback_position, fit_arithmetic_ok, fits_in_area, position_usable, resize_arithmetic_ok,
    resized_position, MonitorFit, WorkArea,
};

fn area() -> WorkArea {
    WorkArea { x: 0, y: 0, width: 1920, height: 1040 }
}

#[test]
fn default_place_is_bottom_right_with_margin() {
    assert!(fallback_arithmetic_ok(area(), 152, 176, 32));
    assert_eq!(fallback_position(area(), 152, 176, 32), (1920 - 152 - 32, 1040 - 176 - 32));
    let second = WorkArea { x: 1920, y: -200, width: 1280, height: 984 };
    assert_eq!(fallback_position(second, 76, 88, 16), (1920 + 1280 - 76 - 16, -200 + 984 - 88 - 16));
}

#[test]
fn saved_position_must_fit_a_monitor() {
    assert!(fit_arithmetic_ok(100, 100, 152, 176, area()));
    assert!(fits_in_area(100, 100, 152, 176, area()));
    assert!(fits_in_area(1920 - 152, 1040 - 176, 152, 176, area()));
    assert!(!fits_in_area(1920 - 151, 10, 152, 176, area()));
    assert!(!fits_in_area(-1, 10, 152, 176, area()));
    let monitors = vec![
        MonitorFit { area: area(), width: 152, height: 176 },
        MonitorFit { area: WorkArea { x: 1920, y: 0, width: 2560, height: 1400 }, width: 228, height: 264 },
    ];
    assert!(position_usable(2000, 100, &monitors));
    assert!(!position_usable(1900, 100, &monitors));
    assert!(!position_usable(100, 100, &Vec::new()));
}

#[test]
fn resize_keeps_the_bottom_right_corner() {
    assert!(resize_arithmetic_ok(1000, 600, 152, 176, 228, 264, area()));
    // Growing from 152x176 to 228x264: the corner at (1152, 776) stays.
    assert_eq!(resized_position(1000, 600, 152, 176, 228, 264, area()), (1152 - 228, 776 - 264));
    // Near the top-left corner the window is pushed back into the area.
    assert_eq!(resized_position(10, 20, 76, 88, 228, 264, area()), (0, 0));
    // A window larger than the area sticks to its top-left corner.
    let small = WorkArea { x: 5, y: 7, width: 100, height: 100 };
    assert_eq!(resized_position(50, 50, 76, 88, 228, 264, small), (5, 7));
}

#[test]
fn arithmetic_checks_catch_overflow() {
    assert!(!fit_arithmetic_ok(i32::MAX, 0, 1, 1, area()));
    assert!(!fallback_arithmetic_ok(WorkArea { x: i32::MAX, y: 0, width: 1, height: 1 }, 1, 1, 1));
    assert!(!resize_arithmetic_ok(i32::MIN, 0, 0, 0, 1, 1, area()));
}
