use button_latch::color::{dim, press_frame, rainbow_frame, wheel, Rgb};

#[test]
fn wheel_runs_from_red_over_green_and_blue() {
    assert_eq!(wheel(0), Rgb { r: 255, g: 0, b: 0 });
    assert_eq!(wheel(85), Rgb { r: 0, g: 255, b: 0 });
    assert_eq!(wheel(86), Rgb { r: 0, g: 252, b: 3 });
    assert_eq!(wheel(170), Rgb { r: 0, g: 0, b: 255 });
    assert_eq!(wheel(171), Rgb { r: 3, g: 0, b: 252 });
    assert_eq!(wheel(255), Rgb { r: 255, g: 0, b: 0 });
    assert_eq!(wheel(1), Rgb { r: 252, g: 3, b: 0 });
}

#[test]
fn dim_scales_each_channel() {
    assert_eq!(dim(Rgb { r: 255, g: 128, b: 1 }, 100), Rgb { r: 100, g: 50, b: 0 });
    assert_eq!(dim(Rgb { r: 255, g: 128, b: 1 }, 255), Rgb { r: 255, g: 128, b: 1 });
    assert_eq!(dim(Rgb { r: 255, g: 128, b: 1 }, 0), Rgb { r: 0, g: 0, b: 0 });
    assert_eq!(dim(Rgb { r: 255, g: 165, b: 0 }, 10), Rgb { r: 10, g: 7, b: 0 });
}

#[test]
fn presses_cycle_red_green_blue() {
    assert_eq!(press_frame(0), Rgb { r: 100, g: 0, b: 0 });
    assert_eq!(press_frame(1), Rgb { r: 0, g: 50, b: 0 });
    assert_eq!(press_frame(2), Rgb { r: 0, g: 0, b: 100 });
    assert_eq!(press_frame(3), Rgb { r: 100, g: 0, b: 0 });
}

#[test]
fn rainbow_hue_wraps_round() {
    assert_eq!(rainbow_frame(0), (Rgb { r: 25, g: 0, b: 0 }, 1));
    assert_eq!(rainbow_frame(85), (Rgb { r: 0, g: 25, b: 0 }, 86));
    assert_eq!(rainbow_frame(255), (Rgb { r: 25, g: 0, b: 0 }, 0));
}
