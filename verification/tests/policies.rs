use autorotate::orientation::LaptopOrientation;
use autorotate::policy::{activation, rotate_screen_output, transform, ScreenRotation};

const ALL: [LaptopOrientation; 5] = [
    LaptopOrientation::Normal,
    LaptopOrientation::PortraitLeft,
    LaptopOrientation::PortraitRight,
    LaptopOrientation::Tent,
    LaptopOrientation::Tablet,
];

#[test]
fn rotation_per_orientation() {
    assert_eq!(
        rotate_screen_output(&LaptopOrientation::Normal),
        ScreenRotation::Normal
    );
    assert_eq!(
        rotate_screen_output(&LaptopOrientation::Tablet),
        ScreenRotation::Normal
    );
    assert_eq!(
        rotate_screen_output(&LaptopOrientation::PortraitLeft),
        ScreenRotation::Right
    );
    assert_eq!(
        rotate_screen_output(&LaptopOrientation::PortraitRight),
        ScreenRotation::Left
    );
    assert_eq!(
        rotate_screen_output(&LaptopOrientation::Tent),
        ScreenRotation::Inverted
    );
}

#[test]
fn activation_only_in_normal_mode() {
    for o in ALL {
        let a = activation(&o);
        let expected = o == LaptopOrientation::Normal;
        assert_eq!(a.keyboard_enabled, expected);
        assert_eq!(a.touchpad_enabled, expected);
    }
}

#[test]
fn transform_per_orientation() {
    assert_eq!(
        transform(&LaptopOrientation::Normal),
        [1, 0, 0, 0, 1, 0, 0, 0, 1]
    );
    assert_eq!(
        transform(&LaptopOrientation::Tablet),
        [1, 0, 0, 0, 1, 0, 0, 0, 1]
    );
    assert_eq!(
        transform(&LaptopOrientation::PortraitLeft),
        [0, 1, 0, -1, 0, 1, 0, 0, 1]
    );
    assert_eq!(
        transform(&LaptopOrientation::PortraitRight),
        [0, -1, 1, 1, 0, 0, 0, 0, 1]
    );
    assert_eq!(
        transform(&LaptopOrientation::Tent),
        [-1, 0, 1, 0, -1, 1, 0, 0, 1]
    );
}

fn mat_mul(a: [i32; 9], b: [i32; 9]) -> [i32; 9] {
    let mut p = [0i32; 9];
    for r in 0..3 {
        for c in 0..3 {
            p[3 * r + c] =
                a[3 * r] * b[c] + a[3 * r + 1] * b[3 + c] + a[3 * r + 2] * b[6 + c];
        }
    }
    p
}

#[test]
fn transform_round_trip_is_identity() {
    // Each orientation's transform, composed with the transform of the
    // orientation that physically undoes it, multiplies back to identity.
    let pairs = [
        (LaptopOrientation::Normal, LaptopOrientation::Normal),
        (LaptopOrientation::Tablet, LaptopOrientation::Tablet),
        (LaptopOrientation::PortraitLeft, LaptopOrientation::PortraitRight),
        (LaptopOrientation::PortraitRight, LaptopOrientation::PortraitLeft),
        (LaptopOrientation::Tent, LaptopOrientation::Tent),
    ];
    let identity = [1, 0, 0, 0, 1, 0, 0, 0, 1];
    for (o, inv) in pairs {
        assert_eq!(mat_mul(transform(&o), transform(&inv)), identity);
    }
}
