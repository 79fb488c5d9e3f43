use autorotate::orientation::{normalize, Accelerometer, LaptopOrientation};

fn classify(x: i64, y: i64, z: i64) -> LaptopOrientation {
    Accelerometer { x, y, z }.which_orientation()
}

#[test]
fn portrait_left_inside_band() {
    assert_eq!(classify(-8_000_000, 0, 0), LaptopOrientation::PortraitLeft);
}

#[test]
fn portrait_right_inside_band() {
    assert_eq!(classify(8_000_000, 0, 0), LaptopOrientation::PortraitRight);
}

#[test]
fn portrait_overrides_tablet_and_tent() {
    // x drives the classification regardless of y and z.
    assert_eq!(
        classify(-8_000_000, 9_000_000, -9_000_000),
        LaptopOrientation::PortraitLeft
    );
    assert_eq!(
        classify(8_000_000, 9_000_000, -9_000_000),
        LaptopOrientation::PortraitRight
    );
}

#[test]
fn portrait_band_boundaries() {
    assert_eq!(classify(-11_000_000, 0, 0), LaptopOrientation::PortraitLeft);
    assert_eq!(classify(-5_000_000, 0, 0), LaptopOrientation::PortraitLeft);
    assert_eq!(classify(-11_000_001, 0, 0), LaptopOrientation::Normal);
    assert_eq!(classify(-4_999_999, 0, 0), LaptopOrientation::Normal);
    assert_eq!(classify(5_000_000, 0, 0), LaptopOrientation::PortraitRight);
    assert_eq!(classify(11_000_000, 0, 0), LaptopOrientation::PortraitRight);
    assert_eq!(classify(11_000_001, 0, 0), LaptopOrientation::Normal);
}

#[test]
fn tablet_band_ignores_y() {
    assert_eq!(classify(0, 0, -9_800_000), LaptopOrientation::Tablet);
    assert_eq!(classify(0, 9_000_000, -9_800_000), LaptopOrientation::Tablet);
    assert_eq!(classify(0, -9_000_000, -7_000_000), LaptopOrientation::Tablet);
    assert_eq!(classify(0, 0, -11_000_000), LaptopOrientation::Tablet);
}

#[test]
fn tablet_band_boundaries() {
    assert_eq!(classify(0, 0, -6_999_999), LaptopOrientation::Normal);
    assert_eq!(classify(0, 0, -11_000_001), LaptopOrientation::Normal);
}

#[test]
fn tent_band() {
    assert_eq!(classify(0, 8_000_000, 0), LaptopOrientation::Tent);
    assert_eq!(classify(0, 7_000_000, 0), LaptopOrientation::Tent);
    assert_eq!(classify(0, 11_000_000, 0), LaptopOrientation::Tent);
    assert_eq!(classify(0, 6_999_999, 0), LaptopOrientation::Normal);
    assert_eq!(classify(0, 11_000_001, 0), LaptopOrientation::Normal);
}

#[test]
fn tablet_overrides_tent() {
    // z is checked before y: both bands hit, tablet wins.
    assert_eq!(classify(0, 8_000_000, -9_000_000), LaptopOrientation::Tablet);
}

#[test]
fn normal_fallback() {
    // The nominal normal-mode reading: gravity straight down the y axis.
    assert_eq!(classify(0, -9_800_000, 0), LaptopOrientation::Normal);
    // An all-zero (free-fall or noisy) reading still classifies.
    assert_eq!(classify(0, 0, 0), LaptopOrientation::Normal);
    // Positive z (screen facing the ground) has no band of its own.
    assert_eq!(classify(0, 0, 9_800_000), LaptopOrientation::Normal);
}

#[test]
fn normalize_adds_offset_then_scales() {
    assert_eq!(normalize(256, 9_582, 0), 2_452_992);
    assert_eq!(normalize(-1_000, 1_000, 500), -500_000);
    assert_eq!(normalize(0, 1_000, 0), 0);
}

#[test]
fn new_applies_offset_then_scale() {
    // normalized = (raw + offset) * scale, all inputs in thousandths.
    let a = Accelerometer::new(100, 200, 300, 2_000, 50);
    assert_eq!(a.x, 300_000);
    assert_eq!(a.y, 500_000);
    assert_eq!(a.z, 700_000);
}

#[test]
fn new_with_unit_scale_and_no_offset() {
    let a = Accelerometer::new(-8_000, 0, 0, 1_000, 0);
    assert_eq!(a.x, -8_000_000);
    assert_eq!(a.which_orientation(), LaptopOrientation::PortraitLeft);
}
