//! Per-orientation policy: which screen rotation to apply, whether the
//! keyboard and touchpad stay enabled, and which coordinate transform to set
//! on touch-capable input devices.

use crate::orientation::LaptopOrientation;
use vstd::prelude::*;

verus! {

/// Rotation of the visible screen output, as the display server names it.
#[derive(Debug, PartialEq, Eq, Structural, Clone, Copy)]
pub enum ScreenRotation {
    /// The unrotated output.
    Normal,
    /// Output rotated a quarter turn counter-clockwise.
    Left,
    /// Output rotated a quarter turn clockwise.
    Right,
    /// Output rotated half a turn.
    Inverted,
}

/// Screen rotation owed to an orientation: normal and tablet postures keep
/// the unrotated output, the two portrait postures rotate it a quarter turn
/// toward the user, and tent flips it half a turn.
pub open spec fn rotation_for(o: LaptopOrientation) -> ScreenRotation {
    match o {
        LaptopOrientation::Normal => ScreenRotation::Normal,
        LaptopOrientation::Tablet => ScreenRotation::Normal,
        LaptopOrientation::PortraitLeft => ScreenRotation::Right,
        LaptopOrientation::PortraitRight => ScreenRotation::Left,
        LaptopOrientation::Tent => ScreenRotation::Inverted,
    }
}

/// Picks the screen rotation for an orientation.  Issuing the rotate command
/// to the display server is the caller's concern.
pub fn rotate_screen_output(orientation: &LaptopOrientation) -> (r: ScreenRotation)
    ensures
        r == rotation_for(*orientation),
{
    match orientation {
        LaptopOrientation::Normal | LaptopOrientation::Tablet => ScreenRotation::Normal,
        LaptopOrientation::PortraitLeft => ScreenRotation::Right,
        LaptopOrientation::PortraitRight => ScreenRotation::Left,
        LaptopOrientation::Tent => ScreenRotation::Inverted,
    }
}

/// Whether the built-in keyboard and the touchpad class stay enabled.
#[derive(Debug, PartialEq, Eq, Structural, Clone, Copy)]
pub struct DeviceActivation {
    pub keyboard_enabled: bool,
    pub touchpad_enabled: bool,
}

/// Decides which built-in input devices stay enabled: both only in normal
/// mode, since in every other posture the keyboard and touchpad are folded
/// away and must not intercept input accidentally.
pub fn activation(orientation: &LaptopOrientation) -> (a: DeviceActivation)
    ensures
        a.keyboard_enabled == (*orientation == LaptopOrientation::Normal),
        a.touchpad_enabled == (*orientation == LaptopOrientation::Normal),
{
    let enabled = match orientation {
        LaptopOrientation::Normal => true,
        LaptopOrientation::PortraitLeft
        | LaptopOrientation::PortraitRight
        | LaptopOrientation::Tent
        | LaptopOrientation::Tablet => false,
    };
    DeviceActivation { keyboard_enabled: enabled, touchpad_enabled: enabled }
}

/// A 3x3 coordinate-transform matrix in row-major order, as set on
/// touch-capable input devices so that touch coordinates stay aligned with
/// the rotated framebuffer.
pub type TransformMatrix = [i32; 9];

/// Touch transform owed to an orientation, row-major.  Normal and tablet
/// postures keep the identity; the portrait postures use the two quarter-turn
/// rotations and tent the half-turn rotation.  Tent shares no row with the
/// portrait postures because its screen is upside down without a left or
/// right rotation.
pub open spec fn transform_for(o: LaptopOrientation) -> Seq<i32> {
    match o {
        LaptopOrientation::Normal => seq![1i32, 0, 0, 0, 1, 0, 0, 0, 1],
        LaptopOrientation::Tablet => seq![1i32, 0, 0, 0, 1, 0, 0, 0, 1],
        LaptopOrientation::PortraitLeft => seq![0i32, 1, 0, -1i32, 0, 1, 0, 0, 1],
        LaptopOrientation::PortraitRight => seq![0i32, -1i32, 1, 1, 0, 0, 0, 0, 1],
        LaptopOrientation::Tent => seq![-1i32, 0, 1, 0, -1i32, 1, 0, 0, 1],
    }
}

/// Picks the touch transform matrix for an orientation.  Total; used for
/// touch-capable devices (touchscreen and stylus digitizer) only.
pub fn transform(orientation: &LaptopOrientation) -> (m: TransformMatrix)
    ensures
        m@ == transform_for(*orientation),
{
    let m: TransformMatrix = match orientation {
        LaptopOrientation::Normal | LaptopOrientation::Tablet => [1, 0, 0, 0, 1, 0, 0, 0, 1],
        LaptopOrientation::PortraitLeft => [0, 1, 0, -1, 0, 1, 0, 0, 1],
        LaptopOrientation::PortraitRight => [0, -1, 1, 1, 0, 0, 0, 0, 1],
        LaptopOrientation::Tent => [-1, 0, 1, 0, -1, 1, 0, 0, 1],
    };
    proof {
        assert(m@ =~= transform_for(*orientation));
    }
    m
}

/// The orientation that physically undoes another: the two portrait postures
/// undo each other, and every other posture undoes itself.
pub open spec fn inverse_orientation(o: LaptopOrientation) -> LaptopOrientation {
    match o {
        LaptopOrientation::PortraitLeft => LaptopOrientation::PortraitRight,
        LaptopOrientation::PortraitRight => LaptopOrientation::PortraitLeft,
        _ => o,
    }
}

/// Row-major product of two 3x3 matrices.
pub open spec fn mat_mul(a: Seq<i32>, b: Seq<i32>) -> Seq<int>
    recommends
        a.len() == 9,
        b.len() == 9,
{
    seq![
        a[0] * b[0] + a[1] * b[3] + a[2] * b[6],
        a[0] * b[1] + a[1] * b[4] + a[2] * b[7],
        a[0] * b[2] + a[1] * b[5] + a[2] * b[8],
        a[3] * b[0] + a[4] * b[3] + a[5] * b[6],
        a[3] * b[1] + a[4] * b[4] + a[5] * b[7],
        a[3] * b[2] + a[4] * b[5] + a[5] * b[8],
        a[6] * b[0] + a[7] * b[3] + a[8] * b[6],
        a[6] * b[1] + a[7] * b[4] + a[8] * b[7],
        a[6] * b[2] + a[7] * b[5] + a[8] * b[8],
    ]
}

/// The identity transform.
pub open spec fn identity_matrix() -> Seq<int> {
    seq![1, 0, 0, 0, 1, 0, 0, 0, 1]
}

/// Entries of a nine-element sequence written as a literal.  Indexing such a
/// literal unrolls one push per element, which the solver does not do on its
/// own; asserting the entries one by one walks it through.
proof fn lemma_seq9_entries(
    s: Seq<i32>,
    e0: i32, e1: i32, e2: i32, e3: i32, e4: i32, e5: i32, e6: i32, e7: i32, e8: i32,
)
    requires
        s == seq![e0, e1, e2, e3, e4, e5, e6, e7, e8],
    ensures
        s.len() == 9,
        s[0] == e0,
        s[1] == e1,
        s[2] == e2,
        s[3] == e3,
        s[4] == e4,
        s[5] == e5,
        s[6] == e6,
        s[7] == e7,
        s[8] == e8,
{
    assert(s[0] == e0);
    assert(s[1] == e1);
    assert(s[2] == e2);
    assert(s[3] == e3);
    assert(s[4] == e4);
    assert(s[5] == e5);
    assert(s[6] == e6);
    assert(s[7] == e7);
    assert(s[8] == e8);
}

/// Law: for every orientation, the touch transform composed with the
/// transform of the inverse orientation returns to the identity under matrix
/// multiplication.
pub proof fn lemma_transform_round_trip(o: LaptopOrientation)
    ensures
        mat_mul(transform_for(o), transform_for(inverse_orientation(o))) == identity_matrix(),
{
    let a = transform_for(o);
    let b = transform_for(inverse_orientation(o));
    match o {
        LaptopOrientation::Normal | LaptopOrientation::Tablet => {
            lemma_seq9_entries(a, 1i32, 0, 0, 0, 1, 0, 0, 0, 1);
            lemma_seq9_entries(b, 1i32, 0, 0, 0, 1, 0, 0, 0, 1);
        },
        LaptopOrientation::PortraitLeft => {
            lemma_seq9_entries(a, 0i32, 1, 0, -1i32, 0, 1, 0, 0, 1);
            lemma_seq9_entries(b, 0i32, -1i32, 1, 1, 0, 0, 0, 0, 1);
        },
        LaptopOrientation::PortraitRight => {
            lemma_seq9_entries(a, 0i32, -1i32, 1, 1, 0, 0, 0, 0, 1);
            lemma_seq9_entries(b, 0i32, 1, 0, -1i32, 0, 1, 0, 0, 1);
        },
        LaptopOrientation::Tent => {
            lemma_seq9_entries(a, -1i32, 0, 1, 0, -1i32, 1, 0, 0, 1);
            lemma_seq9_entries(b, -1i32, 0, 1, 0, -1i32, 1, 0, 0, 1);
        },
    }
    assert(mat_mul(a, b) == identity_matrix());
}

} // verus!
