//! One orientation-change cycle: the ordered list of actions owed to an
//! orientation, and the error reported when a step cannot proceed.
//!
//! The cycle has a fixed order — display rotation, keyboard, touchpads,
//! touch-capable inputs — and stops at the first failure; whatever was
//! already applied stays applied.  Device lookups are decided here; running
//! the actions against the display and input subsystems is the caller's
//! concern, and a step that fails there is reported with [`step_failure`].

use crate::matching::{find_inputs, matching_views, views_of};
use crate::orientation::LaptopOrientation;
use crate::policy::{activation, rotate_screen_output, rotation_for, transform, transform_for};
use crate::policy::{ScreenRotation, TransformMatrix};
use vstd::prelude::*;

verus! {

/// Logical grouping of the input devices the cycle manages.
#[derive(Debug, PartialEq, Eq, Structural, Clone, Copy)]
pub enum DeviceClass {
    /// The built-in keyboard.
    Keyboard,
    /// Touchpads and trackpoints: integrated devices that move the cursor.
    Touchpad,
    /// Touch-capable screen inputs: touchscreen and stylus digitizer.
    TouchInput,
}

/// Why a tick of the orientation loop failed.  The first failing step aborts
/// the remaining steps of the tick and its error is surfaced as the tick's
/// outcome.
#[derive(Debug, PartialEq, Eq, Clone)]
pub enum CoordinationError {
    /// The sensor source is missing or unreadable.
    SensorUnavailable,
    /// A sensor value parses neither as a decimal nor as an integer.
    SensorUnparseable,
    /// The input-device catalog cannot be listed.
    EnumerationFailed,
    /// No enumerated device matches the name patterns of the class.
    DeviceNotFound(DeviceClass),
    /// A device of the class failed to execute the requested action.
    DeviceActionFailed(DeviceClass, String),
    /// The display server refused the rotation.
    DisplayRotationFailed,
}

/// One action of an orientation-change cycle.
#[derive(Debug, PartialEq, Eq, Clone)]
pub enum PlanStep {
    /// Rotate the visible screen output.
    RotateDisplay { rotation: ScreenRotation },
    /// Enable or disable one input device, named as enumerated.
    SetDeviceEnabled { class: DeviceClass, device: String, enable: bool },
    /// Set the coordinate transform of one touch-capable device.
    SetDeviceTransform { device: String, matrix: TransformMatrix },
}

/// The error reported when executing a step fails.
pub open spec fn failure_of(step: PlanStep) -> CoordinationError {
    match step {
        PlanStep::RotateDisplay { .. } => CoordinationError::DisplayRotationFailed,
        PlanStep::SetDeviceEnabled { class, device, .. } => CoordinationError::DeviceActionFailed(
            class,
            device,
        ),
        PlanStep::SetDeviceTransform { device, .. } => CoordinationError::DeviceActionFailed(
            DeviceClass::TouchInput,
            device,
        ),
    }
}

/// Maps a step to the error its caller reports when running it fails: the
/// display step to a rotation failure, a device step to an action failure
/// carrying the class and the device name.
pub fn step_failure(step: &PlanStep) -> (e: CoordinationError)
    ensures
        e == failure_of(*step),
{
    match step {
        PlanStep::RotateDisplay { .. } => CoordinationError::DisplayRotationFailed,
        PlanStep::SetDeviceEnabled { class, device, .. } => CoordinationError::DeviceActionFailed(
            *class,
            device.clone(),
        ),
        PlanStep::SetDeviceTransform { device, .. } => CoordinationError::DeviceActionFailed(
            DeviceClass::TouchInput,
            device.clone(),
        ),
    }
}

/// Name patterns of the built-in keyboard.  Singular because a laptop has
/// one integrated keyboard.
pub open spec fn keyboard_patterns() -> Seq<Seq<char>> {
    seq!["AT Translated Set 2 keyboard"@]
}

/// Name patterns of the touchpad class.
pub open spec fn touchpad_patterns() -> Seq<Seq<char>> {
    seq!["touchpad"@, "trackpoint"@]
}

/// Name patterns of the touch-capable input class.
pub open spec fn touch_input_patterns() -> Seq<Seq<char>> {
    seq!["touchscreen"@, "wacom"@]
}

/// The step rotates the display as the orientation demands.
pub open spec fn is_rotate_step(s: PlanStep, o: LaptopOrientation) -> bool {
    s matches PlanStep::RotateDisplay { rotation } && rotation == rotation_for(o)
}

/// The step enables (or disables) the named device under the given class.
pub open spec fn is_enable_step(
    s: PlanStep,
    class: DeviceClass,
    dev: Seq<char>,
    enable: bool,
) -> bool {
    s matches PlanStep::SetDeviceEnabled { class: c, device: d, enable: e } && c == class && d@
        == dev && e == enable
}

/// The step sets the orientation's touch transform on the named device.
pub open spec fn is_transform_step(s: PlanStep, dev: Seq<char>, o: LaptopOrientation) -> bool {
    s matches PlanStep::SetDeviceTransform { device: d, matrix: m } && d@ == dev && m@
        == transform_for(o)
}

/// Builds one enable/disable step per matched device, in catalog order.
fn enable_steps_for(devs: &Vec<String>, class: DeviceClass, enable: bool) -> (steps: Vec<PlanStep>)
    ensures
        steps@.len() == devs@.len(),
        forall|j: int|
            0 <= j < devs@.len() ==> is_enable_step(
                #[trigger] steps@[j],
                class,
                views_of(devs@)[j],
                enable,
            ),
{
    let mut steps: Vec<PlanStep> = Vec::new();
    let mut i: usize = 0;
    while i < devs.len()
        invariant
            0 <= i <= devs@.len(),
            steps@.len() == i,
            forall|j: int|
                0 <= j < i ==> is_enable_step(
                    #[trigger] steps@[j],
                    class,
                    views_of(devs@)[j],
                    enable,
                ),
        decreases devs@.len() - i,
    {
        steps.push(PlanStep::SetDeviceEnabled { class, device: devs[i].clone(), enable });
        i += 1;
    }
    steps
}

/// Locates the built-in keyboard in the device catalog and decides whether
/// it is to be enabled (only in normal mode) or disabled.  Errs with
/// `DeviceNotFound(Keyboard)` exactly when no catalog entry matches the
/// keyboard pattern.
pub fn toggle_keyboard(orientation: &LaptopOrientation, inputs: &Vec<String>) -> (r: Result<
    Vec<PlanStep>,
    CoordinationError,
>)
    ensures
        ({
            let kb = matching_views(views_of(inputs@), keyboard_patterns());
            let enable = *orientation == LaptopOrientation::Normal;
            match r {
                Ok(steps) => kb.len() > 0 && steps@.len() == kb.len() && forall|j: int|
                    0 <= j < kb.len() ==> is_enable_step(#[trigger] steps@[j], DeviceClass::Keyboard, kb[j], enable),
                Err(e) => kb.len() == 0 && e == CoordinationError::DeviceNotFound(
                    DeviceClass::Keyboard,
                ),
            }
        }),
{
    let mut pats: Vec<String> = Vec::new();
    pats.push("AT Translated Set 2 keyboard".to_owned());
    proof {
        assert(views_of(pats@) =~= keyboard_patterns());
    }
    let found = find_inputs(inputs, &pats);
    if found.len() == 0 {
        return Err(CoordinationError::DeviceNotFound(DeviceClass::Keyboard));
    }
    let enable = activation(orientation).keyboard_enabled;
    Ok(enable_steps_for(&found, DeviceClass::Keyboard, enable))
}

/// Locates the touchpads and trackpoints in the device catalog and decides
/// whether they are to be enabled (only in normal mode) or disabled.  Errs
/// with `DeviceNotFound(Touchpad)` exactly when no catalog entry matches.
pub fn toggle_touchpads(orientation: &LaptopOrientation, inputs: &Vec<String>) -> (r: Result<
    Vec<PlanStep>,
    CoordinationError,
>)
    ensures
        ({
            let tp = matching_views(views_of(inputs@), touchpad_patterns());
            let enable = *orientation == LaptopOrientation::Normal;
            match r {
                Ok(steps) => tp.len() > 0 && steps@.len() == tp.len() && forall|j: int|
                    0 <= j < tp.len() ==> is_enable_step(#[trigger] steps@[j], DeviceClass::Touchpad, tp[j], enable),
                Err(e) => tp.len() == 0 && e == CoordinationError::DeviceNotFound(
                    DeviceClass::Touchpad,
                ),
            }
        }),
{
    let mut pats: Vec<String> = Vec::new();
    pats.push("touchpad".to_owned());
    pats.push("trackpoint".to_owned());
    proof {
        assert(views_of(pats@) =~= touchpad_patterns());
    }
    let found = find_inputs(inputs, &pats);
    if found.len() == 0 {
        return Err(CoordinationError::DeviceNotFound(DeviceClass::Touchpad));
    }
    let enable = activation(orientation).touchpad_enabled;
    Ok(enable_steps_for(&found, DeviceClass::Touchpad, enable))
}

/// Locates the touch-capable screen inputs and builds one transform step per
/// match, so touch coordinates stay aligned with the rotated output.  Errs
/// with `DeviceNotFound(TouchInput)` exactly when no catalog entry matches.
pub fn rotate_screen_inputs(orientation: &LaptopOrientation, inputs: &Vec<String>) -> (r: Result<
    Vec<PlanStep>,
    CoordinationError,
>)
    ensures
        ({
            let ti = matching_views(views_of(inputs@), touch_input_patterns());
            match r {
                Ok(steps) => ti.len() > 0 && steps@.len() == ti.len() && forall|j: int|
                    0 <= j < ti.len() ==> is_transform_step(#[trigger] steps@[j], ti[j], *orientation),
                Err(e) => ti.len() == 0 && e == CoordinationError::DeviceNotFound(
                    DeviceClass::TouchInput,
                ),
            }
        }),
{
    let mut pats: Vec<String> = Vec::new();
    pats.push("touchscreen".to_owned());
    pats.push("wacom".to_owned());
    proof {
        assert(views_of(pats@) =~= touch_input_patterns());
    }
    let found = find_inputs(inputs, &pats);
    if found.len() == 0 {
        return Err(CoordinationError::DeviceNotFound(DeviceClass::TouchInput));
    }
    let matrix = transform(orientation);
    let mut steps: Vec<PlanStep> = Vec::new();
    let mut i: usize = 0;
    while i < found.len()
        invariant
            0 <= i <= found@.len(),
            steps@.len() == i,
            matrix@ == transform_for(*orientation),
            forall|j: int|
                0 <= j < i ==> is_transform_step(
                    #[trigger] steps@[j],
                    views_of(found@)[j],
                    *orientation,
                ),
        decreases found@.len() - i,
    {
        steps.push(PlanStep::SetDeviceTransform { device: found[i].clone(), matrix });
        i += 1;
    }
    Ok(steps)
}

/// The decisions of one tick: the actions to run in order, and — when some
/// device class could not be located — the error to surface once the steps
/// before it have run.  Running the steps, and stopping at the first one the
/// operating system refuses, is the caller's concern.
#[derive(Debug, PartialEq, Eq, Clone)]
pub struct TickPlan {
    pub steps: Vec<PlanStep>,
    pub halted: Option<CoordinationError>,
}

/// What a tick plan owes to an orientation and a device catalog: first the
/// display rotation, then one enable step per keyboard match, then one per
/// touchpad match, then one transform step per touch-input match; the first
/// class with no match truncates the plan there and sets `halted` to its
/// `DeviceNotFound` error.
pub open spec fn plan_describes(
    o: LaptopOrientation,
    names: Seq<Seq<char>>,
    steps: Seq<PlanStep>,
    halted: Option<CoordinationError>,
) -> bool {
    let kb = matching_views(names, keyboard_patterns());
    let tp = matching_views(names, touchpad_patterns());
    let ti = matching_views(names, touch_input_patterns());
    let enable = o == LaptopOrientation::Normal;
    &&& steps.len() >= 1
    &&& is_rotate_step(steps[0], o)
    &&& if kb.len() == 0 {
        steps.len() == 1 && halted == Some(
            CoordinationError::DeviceNotFound(DeviceClass::Keyboard),
        )
    } else {
        &&& steps.len() >= 1 + kb.len()
        &&& (forall|j: int|
            0 <= j < kb.len() ==> is_enable_step(
                steps[1 + j],
                DeviceClass::Keyboard,
                #[trigger] kb[j],
                enable,
            ))
        &&& if tp.len() == 0 {
            steps.len() == 1 + kb.len() && halted == Some(
                CoordinationError::DeviceNotFound(DeviceClass::Touchpad),
            )
        } else {
            &&& steps.len() >= 1 + kb.len() + tp.len()
            &&& (forall|j: int|
                0 <= j < tp.len() ==> is_enable_step(
                    steps[1 + kb.len() + j],
                    DeviceClass::Touchpad,
                    #[trigger] tp[j],
                    enable,
                ))
            &&& if ti.len() == 0 {
                steps.len() == 1 + kb.len() + tp.len() && halted == Some(
                    CoordinationError::DeviceNotFound(DeviceClass::TouchInput),
                )
            } else {
                &&& steps.len() == 1 + kb.len() + tp.len() + ti.len()
                &&& (forall|j: int|
                    0 <= j < ti.len() ==> is_transform_step(
                        steps[1 + kb.len() + tp.len() + j],
                        #[trigger] ti[j],
                        o,
                    ))
                &&& halted is None
            }
        }
    }
}

/// Decides one whole orientation-change cycle against a device catalog.
/// The plan holds the actions in their fixed order — display rotation,
/// keyboard, touchpads, touch inputs — cut short at the first device class
/// with no catalog match, whose `DeviceNotFound` error it carries instead.
pub fn plan_tick(orientation: &LaptopOrientation, inputs: &Vec<String>) -> (p: TickPlan)
    ensures
        plan_describes(*orientation, views_of(inputs@), p.steps@, p.halted),
{
    let rotation = rotate_screen_output(orientation);
    let mut steps: Vec<PlanStep> = Vec::new();
    steps.push(PlanStep::RotateDisplay { rotation });

    let mut kb_steps = match toggle_keyboard(orientation, inputs) {
        Ok(s) => s,
        Err(e) => {
            return TickPlan { steps, halted: Some(e) };
        },
    };
    let ghost kbv = kb_steps@;
    let ghost before_kb = steps@;
    steps.append(&mut kb_steps);
    proof {
        assert forall|j: int| 0 <= j < kbv.len() implies steps@[1 + j] == kbv[j] by {
            assert(steps@ == before_kb + kbv);
        }
    }

    let mut tp_steps = match toggle_touchpads(orientation, inputs) {
        Ok(s) => s,
        Err(e) => {
            return TickPlan { steps, halted: Some(e) };
        },
    };
    let ghost tpv = tp_steps@;
    let ghost before_tp = steps@;
    steps.append(&mut tp_steps);
    proof {
        assert forall|j: int| 0 <= j < tpv.len() implies steps@[before_tp.len() + j] == tpv[j] by {
            assert(steps@ == before_tp + tpv);
        }
        assert(forall|j: int| 0 <= j < before_tp.len() ==> steps@[j] == #[trigger] before_tp[j]);
    }

    let mut ti_steps = match rotate_screen_inputs(orientation, inputs) {
        Ok(s) => s,
        Err(e) => {
            return TickPlan { steps, halted: Some(e) };
        },
    };
    let ghost tiv = ti_steps@;
    let ghost before_ti = steps@;
    steps.append(&mut ti_steps);
    proof {
        assert forall|j: int| 0 <= j < tiv.len() implies steps@[before_ti.len() + j] == tiv[j] by {
            assert(steps@ == before_ti + tiv);
        }
        assert(forall|j: int| 0 <= j < before_ti.len() ==> steps@[j] == #[trigger] before_ti[j]);
    }

    TickPlan { steps, halted: None }
}

/// Law: with a keyboard present but no catalog entry matching the touchpad
/// patterns, the tick halts with `DeviceNotFound(Touchpad)` after the
/// display and keyboard steps, and the touch-input step is never reached:
/// no step of the plan sets a transform.
pub proof fn lemma_missing_touchpad_halts(
    o: LaptopOrientation,
    names: Seq<Seq<char>>,
    steps: Seq<PlanStep>,
    halted: Option<CoordinationError>,
)
    requires
        plan_describes(o, names, steps, halted),
        matching_views(names, keyboard_patterns()).len() > 0,
        matching_views(names, touchpad_patterns()).len() == 0,
    ensures
        halted == Some(CoordinationError::DeviceNotFound(DeviceClass::Touchpad)),
        steps.len() == 1 + matching_views(names, keyboard_patterns()).len(),
        forall|j: int| 0 <= j < steps.len() ==> !(#[trigger] steps[j] is SetDeviceTransform),
{
    let kb = matching_views(names, keyboard_patterns());
    let enable = o == LaptopOrientation::Normal;
    assert forall|j: int| 0 <= j < steps.len() implies !(#[trigger] steps[j] is SetDeviceTransform) by {
        if j == 0 {
        } else {
            assert(is_enable_step(steps[j], DeviceClass::Keyboard, kb[j - 1], enable));
        }
    }
}

} // verus!
