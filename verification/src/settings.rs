//! The daemon's configuration: its integer, boolean and text settings, the
//! effect of each configuration key, and the consistency checks.
//!
//! The floating-point settings (times, distances, scales) are kept by the
//! caller; keys that name them are recognised and checked here and reported
//! back as a `FloatField`, and the checks on them reach `validate_config` as
//! booleans.

use vstd::prelude::*;
use vstd::string::*;
use crate::buttons::{BTN_LEFT, BTN_MIDDLE, BTN_RIGHT, parse_button_name, spec_parse_button_name, spec_button_name_error};
use crate::conf::{
    ConfigValue, ConfigValueView, DragMode, value_bool, value_i32, value_u32, value_u8, value_number, value_string,
};
use crate::reports::{MEDIUM_DOWN_PARAM, MEDIUM_UP_PARAM, ReportParams};
use crate::click::ClickSettings;
use crate::text::{str_eq, join2};

verus! {

broadcast use vstd::string::group_string_axioms;

/// Device settings.
#[derive(Clone, Debug)]
pub struct DeviceConfig {
    /// The hidraw device, or none to find it automatically.
    pub path: Option<String>,
    pub restore_on_exit: bool,
}

/// Virtual mouse settings.
#[derive(Clone, Copy, Debug, PartialEq, Eq, Structural)]
pub struct InputConfig {
    pub enabled: bool,
    pub force_button: Option<u16>,
    pub multi_touch_drag_motion: bool,
    pub multi_touch_motion_debug: bool,
}

/// Click pressure thresholds.
#[derive(Clone, Copy, Debug, PartialEq, Eq, Structural)]
pub struct ClickConfig {
    pub normal_threshold: i32,
    pub force_threshold: i32,
    pub double_click_force_threshold: i32,
    pub reset_threshold: i32,
    pub rearm_threshold: i32,
    pub force_rearm_threshold: i32,
    pub normal_release_threshold: i32,
}

/// Force release settings.
#[derive(Clone, Copy, Debug, PartialEq, Eq, Structural)]
pub struct ReleaseConfig {
    pub drop: i32,
}

/// Settings of the release of a click that became a drag.
#[derive(Clone, Copy, Debug, PartialEq, Eq, Structural)]
pub struct DragReleaseConfig {
    pub enabled: bool,
    pub threshold: i32,
    pub debug: bool,
}

/// Click haptic parameters.
#[derive(Clone, Copy, Debug, PartialEq, Eq, Structural)]
pub struct HapticsConfig {
    pub down_param: u32,
    pub up_param: u32,
    pub normal_down_byte3: u8,
    pub normal_up_byte3: u8,
    pub force_down_byte3: u8,
    pub force_up_byte3: u8,
}

/// Drag haptics settings.
#[derive(Clone, Copy, Debug, PartialEq, Eq, Structural)]
pub struct DragConfig {
    pub enabled: bool,
    pub mode: DragMode,
    pub max_pressure: Option<i32>,
    pub debug: bool,
}

/// Ridge haptics settings.
#[derive(Clone, Copy, Debug, PartialEq, Eq, Structural)]
pub struct RidgeConfig {
    pub enabled: bool,
    pub grid_columns: i32,
    pub grid_rows: i32,
    pub pulses: i32,
    pub down_param: u32,
    pub up_param: u32,
    pub down_byte3: u8,
    pub up_byte3: u8,
    pub debug: bool,
}

/// The integer, boolean and text settings of the daemon.
#[derive(Clone, Debug)]
pub struct Config {
    pub device: DeviceConfig,
    pub input: InputConfig,
    pub clicks: ClickConfig,
    pub release: ReleaseConfig,
    pub drag_release: DragReleaseConfig,
    pub haptics: HapticsConfig,
    pub drag: DragConfig,
    pub ridge: RidgeConfig,
}

/// The built-in settings: normal clicks at pressure 70, force clicks at 165
/// emitting the right button, and drag and ridge haptics off.
pub open spec fn spec_default_config() -> Config {
    Config {
        device: DeviceConfig { path: None, restore_on_exit: true },
        input: InputConfig {
            enabled: true,
            force_button: Some(BTN_RIGHT),
            multi_touch_drag_motion: true,
            multi_touch_motion_debug: false,
        },
        clicks: ClickConfig {
            normal_threshold: 70,
            force_threshold: 165,
            double_click_force_threshold: 220,
            reset_threshold: 35,
            rearm_threshold: 65,
            force_rearm_threshold: 125,
            normal_release_threshold: 60,
        },
        release: ReleaseConfig { drop: 18 },
        drag_release: DragReleaseConfig { enabled: true, threshold: 30, debug: false },
        haptics: HapticsConfig {
            down_param: MEDIUM_DOWN_PARAM,
            up_param: MEDIUM_UP_PARAM,
            normal_down_byte3: 0x17,
            normal_up_byte3: 0x14,
            force_down_byte3: 0x17,
            force_up_byte3: 0x14,
        },
        drag: DragConfig { enabled: false, mode: DragMode::Any, max_pressure: None, debug: false },
        ridge: RidgeConfig {
            enabled: false,
            grid_columns: 1,
            grid_rows: 1,
            pulses: 1,
            down_param: MEDIUM_DOWN_PARAM,
            up_param: MEDIUM_UP_PARAM,
            down_byte3: 0x17,
            up_byte3: 0x14,
            debug: false,
        },
    }
}

impl Default for Config {
    fn default() -> (c: Self)
        ensures
            c == spec_default_config(),
    {
        Config {
            device: DeviceConfig { path: None, restore_on_exit: true },
            input: InputConfig {
                enabled: true,
                force_button: Some(BTN_RIGHT),
                multi_touch_drag_motion: true,
                multi_touch_motion_debug: false,
            },
            clicks: ClickConfig {
                normal_threshold: 70,
                force_threshold: 165,
                double_click_force_threshold: 220,
                reset_threshold: 35,
                rearm_threshold: 65,
                force_rearm_threshold: 125,
                normal_release_threshold: 60,
            },
            release: ReleaseConfig { drop: 18 },
            drag_release: DragReleaseConfig { enabled: true, threshold: 30, debug: false },
            haptics: HapticsConfig {
                down_param: MEDIUM_DOWN_PARAM,
                up_param: MEDIUM_UP_PARAM,
                normal_down_byte3: 0x17,
                normal_up_byte3: 0x14,
                force_down_byte3: 0x17,
                force_up_byte3: 0x14,
            },
            drag: DragConfig { enabled: false, mode: DragMode::Any, max_pressure: None, debug: false },
            ridge: RidgeConfig {
                enabled: false,
                grid_columns: 1,
                grid_rows: 1,
                pulses: 1,
                down_param: MEDIUM_DOWN_PARAM,
                up_param: MEDIUM_UP_PARAM,
                down_byte3: 0x17,
                up_byte3: 0x14,
                debug: false,
            },
        }
    }
}

/// The floating-point settings, which the caller keeps.
#[derive(Clone, Copy, Debug, PartialEq, Eq, Structural)]
pub enum FloatField {
    DeviceSettleMs,
    InputPendingLeftMs,
    InputPendingLeftMotion,
    InputMultiTouchMotionXScale,
    InputMultiTouchMotionYScale,
    ClicksDoubleClickWindowMs,
    DragReleaseMovement,
    ClicksMinGapMs,
    ReleaseRate,
    ReleaseLockoutMs,
    ReleaseStackedReleaseGapMs,
    ReleaseSuppressNormalUpAfterForceMs,
    DragDistance,
    DragTwoFingerDistance,
    DragThreeFingerDistance,
    DragMinGapMs,
    DragTwoFingerMinGapMs,
    DragThreeFingerMinGapMs,
    DragDownMs,
    DragMotionEpsilon,
    DragClickSilenceMs,
    RidgePosition,
    RidgeGridXMin,
    RidgeGridXMax,
    RidgeGridYMin,
    RidgeGridYMax,
    RidgeDeadband,
    RidgeMinGapMs,
    RidgeDownMs,
    RidgePulseGapMs,
}

/// Whether a stored value went into this configuration or names a
/// floating-point setting that takes the (numeric) value.
#[derive(Clone, Copy, Debug, PartialEq, Eq, Structural)]
pub enum Applied {
    Stored,
    Number(FloatField),
}

/// A configuration key.
#[derive(Clone, Copy, Debug, PartialEq, Eq, Structural)]
pub enum ConfigKey {
    DevicePath,
    DeviceRestoreOnExit,
    DeviceSettleMs,
    InputEnabled,
    InputForceButton,
    InputPendingLeftMs,
    InputPendingLeftMotion,
    InputMultiTouchDragMotion,
    InputMultiTouchMotionXScale,
    InputMultiTouchMotionYScale,
    InputMultiTouchMotionDebug,
    ClicksNormalThreshold,
    ClicksForceThreshold,
    ClicksDoubleClickForceThreshold,
    ClicksDoubleClickWindowMs,
    ClicksResetThreshold,
    ClicksRearmThreshold,
    ClicksForceRearmThreshold,
    ClicksNormalReleaseThreshold,
    ClicksDragReleaseThreshold,
    ClicksDragReleaseMotion,
    ClicksMinGapMs,
    ReleaseDrop,
    ReleaseRate,
    ReleaseLockoutMs,
    ReleaseStackedReleaseGapMs,
    ReleaseSuppressNormalUpAfterForceMs,
    DragReleaseEnabled,
    DragReleaseMovement,
    DragReleaseThreshold,
    DragReleaseDebug,
    HapticsDownParam,
    HapticsUpParam,
    HapticsNormalDownByte3,
    HapticsNormalUpByte3,
    HapticsForceDownByte3,
    HapticsForceUpByte3,
    DragHapticsEnabled,
    DragHapticsMode,
    DragHapticsDistance,
    DragHapticsTwoFingerDistance,
    DragHapticsThreeFingerDistance,
    DragHapticsMinGapMs,
    DragHapticsTwoFingerMinGapMs,
    DragHapticsThreeFingerMinGapMs,
    DragHapticsDownMs,
    DragHapticsMotionEpsilon,
    DragHapticsClickSilenceMs,
    DragHapticsMaxPressure,
    DragHapticsDebug,
    RidgeHapticsEnabled,
    RidgeHapticsPosition,
    RidgeHapticsGridColumns,
    RidgeHapticsGridRows,
    RidgeHapticsGridXMin,
    RidgeHapticsGridXMax,
    RidgeHapticsGridYMin,
    RidgeHapticsGridYMax,
    RidgeHapticsDeadband,
    RidgeHapticsMinGapMs,
    RidgeHapticsDownMs,
    RidgeHapticsPulses,
    RidgeHapticsPulseGapMs,
    RidgeHapticsDownParam,
    RidgeHapticsUpParam,
    RidgeHapticsDownByte3,
    RidgeHapticsUpByte3,
    RidgeHapticsDebug,
}

/// The key that a configuration key text names, if any.
pub open spec fn spec_config_key(key: Seq<char>) -> Option<ConfigKey> {
    if key == "device.path"@ {
        Some(ConfigKey::DevicePath)
    } else if key == "device.restore_on_exit"@ {
        Some(ConfigKey::DeviceRestoreOnExit)
    } else if key == "device.settle_ms"@ {
        Some(ConfigKey::DeviceSettleMs)
    } else if key == "input.enabled"@ {
        Some(ConfigKey::InputEnabled)
    } else if key == "input.force_button"@ {
        Some(ConfigKey::InputForceButton)
    } else if key == "input.pending_left_ms"@ {
        Some(ConfigKey::InputPendingLeftMs)
    } else if key == "input.pending_left_motion"@ {
        Some(ConfigKey::InputPendingLeftMotion)
    } else if key == "input.multi_touch_drag_motion"@ {
        Some(ConfigKey::InputMultiTouchDragMotion)
    } else if key == "input.multi_touch_motion_x_scale"@ {
        Some(ConfigKey::InputMultiTouchMotionXScale)
    } else if key == "input.multi_touch_motion_y_scale"@ {
        Some(ConfigKey::InputMultiTouchMotionYScale)
    } else if key == "input.multi_touch_motion_debug"@ {
        Some(ConfigKey::InputMultiTouchMotionDebug)
    } else if key == "clicks.normal_threshold"@ {
        Some(ConfigKey::ClicksNormalThreshold)
    } else if key == "clicks.force_threshold"@ {
        Some(ConfigKey::ClicksForceThreshold)
    } else if key == "clicks.double_click_force_threshold"@ {
        Some(ConfigKey::ClicksDoubleClickForceThreshold)
    } else if key == "clicks.double_click_window_ms"@ {
        Some(ConfigKey::ClicksDoubleClickWindowMs)
    } else if key == "clicks.reset_threshold"@ {
        Some(ConfigKey::ClicksResetThreshold)
    } else if key == "clicks.rearm_threshold"@ {
        Some(ConfigKey::ClicksRearmThreshold)
    } else if key == "clicks.force_rearm_threshold"@ {
        Some(ConfigKey::ClicksForceRearmThreshold)
    } else if key == "clicks.normal_release_threshold"@ {
        Some(ConfigKey::ClicksNormalReleaseThreshold)
    } else if key == "clicks.drag_release_threshold"@ {
        Some(ConfigKey::ClicksDragReleaseThreshold)
    } else if key == "clicks.drag_release_motion"@ {
        Some(ConfigKey::ClicksDragReleaseMotion)
    } else if key == "clicks.min_gap_ms"@ {
        Some(ConfigKey::ClicksMinGapMs)
    } else if key == "release.drop"@ {
        Some(ConfigKey::ReleaseDrop)
    } else if key == "release.rate"@ {
        Some(ConfigKey::ReleaseRate)
    } else if key == "release.lockout_ms"@ {
        Some(ConfigKey::ReleaseLockoutMs)
    } else if key == "release.stacked_release_gap_ms"@ {
        Some(ConfigKey::ReleaseStackedReleaseGapMs)
    } else if key == "release.suppress_normal_up_after_force_ms"@ {
        Some(ConfigKey::ReleaseSuppressNormalUpAfterForceMs)
    } else if key == "drag_release.enabled"@ {
        Some(ConfigKey::DragReleaseEnabled)
    } else if key == "drag_release.movement"@ {
        Some(ConfigKey::DragReleaseMovement)
    } else if key == "drag_release.threshold"@ {
        Some(ConfigKey::DragReleaseThreshold)
    } else if key == "drag_release.debug"@ {
        Some(ConfigKey::DragReleaseDebug)
    } else if key == "haptics.down_param"@ {
        Some(ConfigKey::HapticsDownParam)
    } else if key == "haptics.up_param"@ {
        Some(ConfigKey::HapticsUpParam)
    } else if key == "haptics.normal.down_byte3"@ {
        Some(ConfigKey::HapticsNormalDownByte3)
    } else if key == "haptics.normal.up_byte3"@ {
        Some(ConfigKey::HapticsNormalUpByte3)
    } else if key == "haptics.force.down_byte3"@ {
        Some(ConfigKey::HapticsForceDownByte3)
    } else if key == "haptics.force.up_byte3"@ {
        Some(ConfigKey::HapticsForceUpByte3)
    } else if key == "drag_haptics.enabled"@ {
        Some(ConfigKey::DragHapticsEnabled)
    } else if key == "drag_haptics.mode"@ {
        Some(ConfigKey::DragHapticsMode)
    } else if key == "drag_haptics.distance"@ {
        Some(ConfigKey::DragHapticsDistance)
    } else if key == "drag_haptics.two_finger_distance"@ {
        Some(ConfigKey::DragHapticsTwoFingerDistance)
    } else if key == "drag_haptics.three_finger_distance"@ {
        Some(ConfigKey::DragHapticsThreeFingerDistance)
    } else if key == "drag_haptics.min_gap_ms"@ {
        Some(ConfigKey::DragHapticsMinGapMs)
    } else if key == "drag_haptics.two_finger_min_gap_ms"@ {
        Some(ConfigKey::DragHapticsTwoFingerMinGapMs)
    } else if key == "drag_haptics.three_finger_min_gap_ms"@ {
        Some(ConfigKey::DragHapticsThreeFingerMinGapMs)
    } else if key == "drag_haptics.down_ms"@ {
        Some(ConfigKey::DragHapticsDownMs)
    } else if key == "drag_haptics.motion_epsilon"@ {
        Some(ConfigKey::DragHapticsMotionEpsilon)
    } else if key == "drag_haptics.click_silence_ms"@ {
        Some(ConfigKey::DragHapticsClickSilenceMs)
    } else if key == "drag_haptics.max_pressure"@ {
        Some(ConfigKey::DragHapticsMaxPressure)
    } else if key == "drag_haptics.debug"@ {
        Some(ConfigKey::DragHapticsDebug)
    } else if key == "ridge_haptics.enabled"@ {
        Some(ConfigKey::RidgeHapticsEnabled)
    } else if key == "ridge_haptics.position"@ {
        Some(ConfigKey::RidgeHapticsPosition)
    } else if key == "ridge_haptics.grid_columns"@ {
        Some(ConfigKey::RidgeHapticsGridColumns)
    } else if key == "ridge_haptics.grid_rows"@ {
        Some(ConfigKey::RidgeHapticsGridRows)
    } else if key == "ridge_haptics.grid_x_min"@ {
        Some(ConfigKey::RidgeHapticsGridXMin)
    } else if key == "ridge_haptics.grid_x_max"@ {
        Some(ConfigKey::RidgeHapticsGridXMax)
    } else if key == "ridge_haptics.grid_y_min"@ {
        Some(ConfigKey::RidgeHapticsGridYMin)
    } else if key == "ridge_haptics.grid_y_max"@ {
        Some(ConfigKey::RidgeHapticsGridYMax)
    } else if key == "ridge_haptics.deadband"@ {
        Some(ConfigKey::RidgeHapticsDeadband)
    } else if key == "ridge_haptics.min_gap_ms"@ {
        Some(ConfigKey::RidgeHapticsMinGapMs)
    } else if key == "ridge_haptics.down_ms"@ {
        Some(ConfigKey::RidgeHapticsDownMs)
    } else if key == "ridge_haptics.pulses"@ {
        Some(ConfigKey::RidgeHapticsPulses)
    } else if key == "ridge_haptics.pulse_gap_ms"@ {
        Some(ConfigKey::RidgeHapticsPulseGapMs)
    } else if key == "ridge_haptics.down_param"@ {
        Some(ConfigKey::RidgeHapticsDownParam)
    } else if key == "ridge_haptics.up_param"@ {
        Some(ConfigKey::RidgeHapticsUpParam)
    } else if key == "ridge_haptics.down_byte3"@ {
        Some(ConfigKey::RidgeHapticsDownByte3)
    } else if key == "ridge_haptics.up_byte3"@ {
        Some(ConfigKey::RidgeHapticsUpByte3)
    } else if key == "ridge_haptics.debug"@ {
        Some(ConfigKey::RidgeHapticsDebug)
    } else {
        None
    }
}

/// The text of a configuration key.
pub open spec fn spec_config_key_name(k: ConfigKey) -> Seq<char> {
    match k {
        ConfigKey::DevicePath => "device.path"@,
        ConfigKey::DeviceRestoreOnExit => "device.restore_on_exit"@,
        ConfigKey::DeviceSettleMs => "device.settle_ms"@,
        ConfigKey::InputEnabled => "input.enabled"@,
        ConfigKey::InputForceButton => "input.force_button"@,
        ConfigKey::InputPendingLeftMs => "input.pending_left_ms"@,
        ConfigKey::InputPendingLeftMotion => "input.pending_left_motion"@,
        ConfigKey::InputMultiTouchDragMotion => "input.multi_touch_drag_motion"@,
        ConfigKey::InputMultiTouchMotionXScale => "input.multi_touch_motion_x_scale"@,
        ConfigKey::InputMultiTouchMotionYScale => "input.multi_touch_motion_y_scale"@,
        ConfigKey::InputMultiTouchMotionDebug => "input.multi_touch_motion_debug"@,
        ConfigKey::ClicksNormalThreshold => "clicks.normal_threshold"@,
        ConfigKey::ClicksForceThreshold => "clicks.force_threshold"@,
        ConfigKey::ClicksDoubleClickForceThreshold => "clicks.double_click_force_threshold"@,
        ConfigKey::ClicksDoubleClickWindowMs => "clicks.double_click_window_ms"@,
        ConfigKey::ClicksResetThreshold => "clicks.reset_threshold"@,
        ConfigKey::ClicksRearmThreshold => "clicks.rearm_threshold"@,
        ConfigKey::ClicksForceRearmThreshold => "clicks.force_rearm_threshold"@,
        ConfigKey::ClicksNormalReleaseThreshold => "clicks.normal_release_threshold"@,
        ConfigKey::ClicksDragReleaseThreshold => "clicks.drag_release_threshold"@,
        ConfigKey::ClicksDragReleaseMotion => "clicks.drag_release_motion"@,
        ConfigKey::ClicksMinGapMs => "clicks.min_gap_ms"@,
        ConfigKey::ReleaseDrop => "release.drop"@,
        ConfigKey::ReleaseRate => "release.rate"@,
        ConfigKey::ReleaseLockoutMs => "release.lockout_ms"@,
        ConfigKey::ReleaseStackedReleaseGapMs => "release.stacked_release_gap_ms"@,
        ConfigKey::ReleaseSuppressNormalUpAfterForceMs => "release.suppress_normal_up_after_force_ms"@,
        ConfigKey::DragReleaseEnabled => "drag_release.enabled"@,
        ConfigKey::DragReleaseMovement => "drag_release.movement"@,
        ConfigKey::DragReleaseThreshold => "drag_release.threshold"@,
        ConfigKey::DragReleaseDebug => "drag_release.debug"@,
        ConfigKey::HapticsDownParam => "haptics.down_param"@,
        ConfigKey::HapticsUpParam => "haptics.up_param"@,
        ConfigKey::HapticsNormalDownByte3 => "haptics.normal.down_byte3"@,
        ConfigKey::HapticsNormalUpByte3 => "haptics.normal.up_byte3"@,
        ConfigKey::HapticsForceDownByte3 => "haptics.force.down_byte3"@,
        ConfigKey::HapticsForceUpByte3 => "haptics.force.up_byte3"@,
        ConfigKey::DragHapticsEnabled => "drag_haptics.enabled"@,
        ConfigKey::DragHapticsMode => "drag_haptics.mode"@,
        ConfigKey::DragHapticsDistance => "drag_haptics.distance"@,
        ConfigKey::DragHapticsTwoFingerDistance => "drag_haptics.two_finger_distance"@,
        ConfigKey::DragHapticsThreeFingerDistance => "drag_haptics.three_finger_distance"@,
        ConfigKey::DragHapticsMinGapMs => "drag_haptics.min_gap_ms"@,
        ConfigKey::DragHapticsTwoFingerMinGapMs => "drag_haptics.two_finger_min_gap_ms"@,
        ConfigKey::DragHapticsThreeFingerMinGapMs => "drag_haptics.three_finger_min_gap_ms"@,
        ConfigKey::DragHapticsDownMs => "drag_haptics.down_ms"@,
        ConfigKey::DragHapticsMotionEpsilon => "drag_haptics.motion_epsilon"@,
        ConfigKey::DragHapticsClickSilenceMs => "drag_haptics.click_silence_ms"@,
        ConfigKey::DragHapticsMaxPressure => "drag_haptics.max_pressure"@,
        ConfigKey::DragHapticsDebug => "drag_haptics.debug"@,
        ConfigKey::RidgeHapticsEnabled => "ridge_haptics.enabled"@,
        ConfigKey::RidgeHapticsPosition => "ridge_haptics.position"@,
        ConfigKey::RidgeHapticsGridColumns => "ridge_haptics.grid_columns"@,
        ConfigKey::RidgeHapticsGridRows => "ridge_haptics.grid_rows"@,
        ConfigKey::RidgeHapticsGridXMin => "ridge_haptics.grid_x_min"@,
        ConfigKey::RidgeHapticsGridXMax => "ridge_haptics.grid_x_max"@,
        ConfigKey::RidgeHapticsGridYMin => "ridge_haptics.grid_y_min"@,
        ConfigKey::RidgeHapticsGridYMax => "ridge_haptics.grid_y_max"@,
        ConfigKey::RidgeHapticsDeadband => "ridge_haptics.deadband"@,
        ConfigKey::RidgeHapticsMinGapMs => "ridge_haptics.min_gap_ms"@,
        ConfigKey::RidgeHapticsDownMs => "ridge_haptics.down_ms"@,
        ConfigKey::RidgeHapticsPulses => "ridge_haptics.pulses"@,
        ConfigKey::RidgeHapticsPulseGapMs => "ridge_haptics.pulse_gap_ms"@,
        ConfigKey::RidgeHapticsDownParam => "ridge_haptics.down_param"@,
        ConfigKey::RidgeHapticsUpParam => "ridge_haptics.up_param"@,
        ConfigKey::RidgeHapticsDownByte3 => "ridge_haptics.down_byte3"@,
        ConfigKey::RidgeHapticsUpByte3 => "ridge_haptics.up_byte3"@,
        ConfigKey::RidgeHapticsDebug => "ridge_haptics.debug"@,
    }
}

/// Recognises a configuration key.
#[verifier::rlimit(60)]
pub fn config_key(key: &str) -> (k: Option<ConfigKey>)
    ensures
        k == spec_config_key(key@),
{
    if str_eq(key, "device.path") {
        return Some(ConfigKey::DevicePath);
    }
    if str_eq(key, "device.restore_on_exit") {
        return Some(ConfigKey::DeviceRestoreOnExit);
    }
    if str_eq(key, "device.settle_ms") {
        return Some(ConfigKey::DeviceSettleMs);
    }
    if str_eq(key, "input.enabled") {
        return Some(ConfigKey::InputEnabled);
    }
    if str_eq(key, "input.force_button") {
        return Some(ConfigKey::InputForceButton);
    }
    if str_eq(key, "input.pending_left_ms") {
        return Some(ConfigKey::InputPendingLeftMs);
    }
    if str_eq(key, "input.pending_left_motion") {
        return Some(ConfigKey::InputPendingLeftMotion);
    }
    if str_eq(key, "input.multi_touch_drag_motion") {
        return Some(ConfigKey::InputMultiTouchDragMotion);
    }
    if str_eq(key, "input.multi_touch_motion_x_scale") {
        return Some(ConfigKey::InputMultiTouchMotionXScale);
    }
    if str_eq(key, "input.multi_touch_motion_y_scale") {
        return Some(ConfigKey::InputMultiTouchMotionYScale);
    }
    if str_eq(key, "input.multi_touch_motion_debug") {
        return Some(ConfigKey::InputMultiTouchMotionDebug);
    }
    if str_eq(key, "clicks.normal_threshold") {
        return Some(ConfigKey::ClicksNormalThreshold);
    }
    if str_eq(key, "clicks.force_threshold") {
        return Some(ConfigKey::ClicksForceThreshold);
    }
    if str_eq(key, "clicks.double_click_force_threshold") {
        return Some(ConfigKey::ClicksDoubleClickForceThreshold);
    }
    if str_eq(key, "clicks.double_click_window_ms") {
        return Some(ConfigKey::ClicksDoubleClickWindowMs);
    }
    if str_eq(key, "clicks.reset_threshold") {
        return Some(ConfigKey::ClicksResetThreshold);
    }
    if str_eq(key, "clicks.rearm_threshold") {
        return Some(ConfigKey::ClicksRearmThreshold);
    }
    if str_eq(key, "clicks.force_rearm_threshold") {
        return Some(ConfigKey::ClicksForceRearmThreshold);
    }
    if str_eq(key, "clicks.normal_release_threshold") {
        return Some(ConfigKey::ClicksNormalReleaseThreshold);
    }
    if str_eq(key, "clicks.drag_release_threshold") {
        return Some(ConfigKey::ClicksDragReleaseThreshold);
    }
    if str_eq(key, "clicks.drag_release_motion") {
        return Some(ConfigKey::ClicksDragReleaseMotion);
    }
    if str_eq(key, "clicks.min_gap_ms") {
        return Some(ConfigKey::ClicksMinGapMs);
    }
    if str_eq(key, "release.drop") {
        return Some(ConfigKey::ReleaseDrop);
    }
    if str_eq(key, "release.rate") {
        return Some(ConfigKey::ReleaseRate);
    }
    if str_eq(key, "release.lockout_ms") {
        return Some(ConfigKey::ReleaseLockoutMs);
    }
    if str_eq(key, "release.stacked_release_gap_ms") {
        return Some(ConfigKey::ReleaseStackedReleaseGapMs);
    }
    if str_eq(key, "release.suppress_normal_up_after_force_ms") {
        return Some(ConfigKey::ReleaseSuppressNormalUpAfterForceMs);
    }
    if str_eq(key, "drag_release.enabled") {
        return Some(ConfigKey::DragReleaseEnabled);
    }
    if str_eq(key, "drag_release.movement") {
        return Some(ConfigKey::DragReleaseMovement);
    }
    if str_eq(key, "drag_release.threshold") {
        return Some(ConfigKey::DragReleaseThreshold);
    }
    if str_eq(key, "drag_release.debug") {
        return Some(ConfigKey::DragReleaseDebug);
    }
    if str_eq(key, "haptics.down_param") {
        return Some(ConfigKey::HapticsDownParam);
    }
    if str_eq(key, "haptics.up_param") {
        return Some(ConfigKey::HapticsUpParam);
    }
    if str_eq(key, "haptics.normal.down_byte3") {
        return Some(ConfigKey::HapticsNormalDownByte3);
    }
    if str_eq(key, "haptics.normal.up_byte3") {
        return Some(ConfigKey::HapticsNormalUpByte3);
    }
    if str_eq(key, "haptics.force.down_byte3") {
        return Some(ConfigKey::HapticsForceDownByte3);
    }
    if str_eq(key, "haptics.force.up_byte3") {
        return Some(ConfigKey::HapticsForceUpByte3);
    }
    if str_eq(key, "drag_haptics.enabled") {
        return Some(ConfigKey::DragHapticsEnabled);
    }
    if str_eq(key, "drag_haptics.mode") {
        return Some(ConfigKey::DragHapticsMode);
    }
    if str_eq(key, "drag_haptics.distance") {
        return Some(ConfigKey::DragHapticsDistance);
    }
    if str_eq(key, "drag_haptics.two_finger_distance") {
        return Some(ConfigKey::DragHapticsTwoFingerDistance);
    }
    if str_eq(key, "drag_haptics.three_finger_distance") {
        return Some(ConfigKey::DragHapticsThreeFingerDistance);
    }
    if str_eq(key, "drag_haptics.min_gap_ms") {
        return Some(ConfigKey::DragHapticsMinGapMs);
    }
    if str_eq(key, "drag_haptics.two_finger_min_gap_ms") {
        return Some(ConfigKey::DragHapticsTwoFingerMinGapMs);
    }
    if str_eq(key, "drag_haptics.three_finger_min_gap_ms") {
        return Some(ConfigKey::DragHapticsThreeFingerMinGapMs);
    }
    if str_eq(key, "drag_haptics.down_ms") {
        return Some(ConfigKey::DragHapticsDownMs);
    }
    if str_eq(key, "drag_haptics.motion_epsilon") {
        return Some(ConfigKey::DragHapticsMotionEpsilon);
    }
    if str_eq(key, "drag_haptics.click_silence_ms") {
        return Some(ConfigKey::DragHapticsClickSilenceMs);
    }
    if str_eq(key, "drag_haptics.max_pressure") {
        return Some(ConfigKey::DragHapticsMaxPressure);
    }
    if str_eq(key, "drag_haptics.debug") {
        return Some(ConfigKey::DragHapticsDebug);
    }
    if str_eq(key, "ridge_haptics.enabled") {
        return Some(ConfigKey::RidgeHapticsEnabled);
    }
    if str_eq(key, "ridge_haptics.position") {
        return Some(ConfigKey::RidgeHapticsPosition);
    }
    if str_eq(key, "ridge_haptics.grid_columns") {
        return Some(ConfigKey::RidgeHapticsGridColumns);
    }
    if str_eq(key, "ridge_haptics.grid_rows") {
        return Some(ConfigKey::RidgeHapticsGridRows);
    }
    if str_eq(key, "ridge_haptics.grid_x_min") {
        return Some(ConfigKey::RidgeHapticsGridXMin);
    }
    if str_eq(key, "ridge_haptics.grid_x_max") {
        return Some(ConfigKey::RidgeHapticsGridXMax);
    }
    if str_eq(key, "ridge_haptics.grid_y_min") {
        return Some(ConfigKey::RidgeHapticsGridYMin);
    }
    if str_eq(key, "ridge_haptics.grid_y_max") {
        return Some(ConfigKey::RidgeHapticsGridYMax);
    }
    if str_eq(key, "ridge_haptics.deadband") {
        return Some(ConfigKey::RidgeHapticsDeadband);
    }
    if str_eq(key, "ridge_haptics.min_gap_ms") {
        return Some(ConfigKey::RidgeHapticsMinGapMs);
    }
    if str_eq(key, "ridge_haptics.down_ms") {
        return Some(ConfigKey::RidgeHapticsDownMs);
    }
    if str_eq(key, "ridge_haptics.pulses") {
        return Some(ConfigKey::RidgeHapticsPulses);
    }
    if str_eq(key, "ridge_haptics.pulse_gap_ms") {
        return Some(ConfigKey::RidgeHapticsPulseGapMs);
    }
    if str_eq(key, "ridge_haptics.down_param") {
        return Some(ConfigKey::RidgeHapticsDownParam);
    }
    if str_eq(key, "ridge_haptics.up_param") {
        return Some(ConfigKey::RidgeHapticsUpParam);
    }
    if str_eq(key, "ridge_haptics.down_byte3") {
        return Some(ConfigKey::RidgeHapticsDownByte3);
    }
    if str_eq(key, "ridge_haptics.up_byte3") {
        return Some(ConfigKey::RidgeHapticsUpByte3);
    }
    if str_eq(key, "ridge_haptics.debug") {
        return Some(ConfigKey::RidgeHapticsDebug);
    }
    None
}

/// What storing `value` under the recognised key `k` (written `key`) does.
pub open spec fn spec_apply_key(c: Config, k: ConfigKey, key: Seq<char>, value: ConfigValue) -> Result<(Config, Applied), Seq<char>> {
    match k {
        ConfigKey::DevicePath => match value { ConfigValue::String(p) => Ok((Config { device: DeviceConfig { path: if p@ == "auto"@ { None } else { Some(p) }, ..c.device }, ..c }, Applied::Stored)), _ => Err(key + " must be a string"@) },
        ConfigKey::DeviceRestoreOnExit => match value@ { ConfigValueView::Bool(v) => Ok((Config { device: DeviceConfig { restore_on_exit: v, ..c.device }, ..c }, Applied::Stored)), _ => Err(key + " must be a boolean"@) },
        ConfigKey::DeviceSettleMs => match value@ { ConfigValueView::Int(_) | ConfigValueView::Float(_) => Ok((c, Applied::Number(FloatField::DeviceSettleMs))), _ => Err(key + " must be numeric"@) },
        ConfigKey::InputEnabled => match value@ { ConfigValueView::Bool(v) => Ok((Config { input: InputConfig { enabled: v, ..c.input }, ..c }, Applied::Stored)), _ => Err(key + " must be a boolean"@) },
        ConfigKey::InputForceButton => match value { ConfigValue::String(p) => match spec_parse_button_name(p@) { Some(btn) => Ok((Config { input: InputConfig { force_button: btn, ..c.input }, ..c }, Applied::Stored)), None => Err(spec_button_name_error(key)) }, _ => Err(key + " must be a string"@) },
        ConfigKey::InputPendingLeftMs => match value@ { ConfigValueView::Int(_) | ConfigValueView::Float(_) => Ok((c, Applied::Number(FloatField::InputPendingLeftMs))), _ => Err(key + " must be numeric"@) },
        ConfigKey::InputPendingLeftMotion => match value@ { ConfigValueView::Int(_) | ConfigValueView::Float(_) => Ok((c, Applied::Number(FloatField::InputPendingLeftMotion))), _ => Err(key + " must be numeric"@) },
        ConfigKey::InputMultiTouchDragMotion => match value@ { ConfigValueView::Bool(v) => Ok((Config { input: InputConfig { multi_touch_drag_motion: v, ..c.input }, ..c }, Applied::Stored)), _ => Err(key + " must be a boolean"@) },
        ConfigKey::InputMultiTouchMotionXScale => match value@ { ConfigValueView::Int(_) | ConfigValueView::Float(_) => Ok((c, Applied::Number(FloatField::InputMultiTouchMotionXScale))), _ => Err(key + " must be numeric"@) },
        ConfigKey::InputMultiTouchMotionYScale => match value@ { ConfigValueView::Int(_) | ConfigValueView::Float(_) => Ok((c, Applied::Number(FloatField::InputMultiTouchMotionYScale))), _ => Err(key + " must be numeric"@) },
        ConfigKey::InputMultiTouchMotionDebug => match value@ { ConfigValueView::Bool(v) => Ok((Config { input: InputConfig { multi_touch_motion_debug: v, ..c.input }, ..c }, Applied::Stored)), _ => Err(key + " must be a boolean"@) },
        ConfigKey::ClicksNormalThreshold => match value@ { ConfigValueView::Int(v) if i32::MIN <= v <= i32::MAX => Ok((Config { clicks: ClickConfig { normal_threshold: v as i32, ..c.clicks }, ..c }, Applied::Stored)), _ => Err(key + " must be a 32-bit integer"@) },
        ConfigKey::ClicksForceThreshold => match value@ { ConfigValueView::Int(v) if i32::MIN <= v <= i32::MAX => Ok((Config { clicks: ClickConfig { force_threshold: v as i32, ..c.clicks }, ..c }, Applied::Stored)), _ => Err(key + " must be a 32-bit integer"@) },
        ConfigKey::ClicksDoubleClickForceThreshold => match value@ { ConfigValueView::Int(v) if i32::MIN <= v <= i32::MAX => Ok((Config { clicks: ClickConfig { double_click_force_threshold: v as i32, ..c.clicks }, ..c }, Applied::Stored)), _ => Err(key + " must be a 32-bit integer"@) },
        ConfigKey::ClicksDoubleClickWindowMs => match value@ { ConfigValueView::Int(_) | ConfigValueView::Float(_) => Ok((c, Applied::Number(FloatField::ClicksDoubleClickWindowMs))), _ => Err(key + " must be numeric"@) },
        ConfigKey::ClicksResetThreshold => match value@ { ConfigValueView::Int(v) if i32::MIN <= v <= i32::MAX => Ok((Config { clicks: ClickConfig { reset_threshold: v as i32, ..c.clicks }, ..c }, Applied::Stored)), _ => Err(key + " must be a 32-bit integer"@) },
        ConfigKey::ClicksRearmThreshold => match value@ { ConfigValueView::Int(v) if i32::MIN <= v <= i32::MAX => Ok((Config { clicks: ClickConfig { rearm_threshold: v as i32, ..c.clicks }, ..c }, Applied::Stored)), _ => Err(key + " must be a 32-bit integer"@) },
        ConfigKey::ClicksForceRearmThreshold => match value@ { ConfigValueView::Int(v) if i32::MIN <= v <= i32::MAX => Ok((Config { clicks: ClickConfig { force_rearm_threshold: v as i32, ..c.clicks }, ..c }, Applied::Stored)), _ => Err(key + " must be a 32-bit integer"@) },
        ConfigKey::ClicksNormalReleaseThreshold => match value@ { ConfigValueView::Int(v) if i32::MIN <= v <= i32::MAX => Ok((Config { clicks: ClickConfig { normal_release_threshold: v as i32, ..c.clicks }, ..c }, Applied::Stored)), _ => Err(key + " must be a 32-bit integer"@) },
        ConfigKey::ClicksDragReleaseThreshold => match value@ { ConfigValueView::Int(v) if i32::MIN <= v <= i32::MAX => Ok((Config { drag_release: DragReleaseConfig { threshold: v as i32, ..c.drag_release }, ..c }, Applied::Stored)), _ => Err(key + " must be a 32-bit integer"@) },
        ConfigKey::ClicksDragReleaseMotion => match value@ { ConfigValueView::Int(_) | ConfigValueView::Float(_) => Ok((c, Applied::Number(FloatField::DragReleaseMovement))), _ => Err(key + " must be numeric"@) },
        ConfigKey::ClicksMinGapMs => match value@ { ConfigValueView::Int(_) | ConfigValueView::Float(_) => Ok((c, Applied::Number(FloatField::ClicksMinGapMs))), _ => Err(key + " must be numeric"@) },
        ConfigKey::ReleaseDrop => match value@ { ConfigValueView::Int(v) if i32::MIN <= v <= i32::MAX => Ok((Config { release: ReleaseConfig { drop: v as i32, ..c.release }, ..c }, Applied::Stored)), _ => Err(key + " must be a 32-bit integer"@) },
        ConfigKey::ReleaseRate => match value@ { ConfigValueView::Int(_) | ConfigValueView::Float(_) => Ok((c, Applied::Number(FloatField::ReleaseRate))), _ => Err(key + " must be numeric"@) },
        ConfigKey::ReleaseLockoutMs => match value@ { ConfigValueView::Int(_) | ConfigValueView::Float(_) => Ok((c, Applied::Number(FloatField::ReleaseLockoutMs))), _ => Err(key + " must be numeric"@) },
        ConfigKey::ReleaseStackedReleaseGapMs => match value@ { ConfigValueView::Int(_) | ConfigValueView::Float(_) => Ok((c, Applied::Number(FloatField::ReleaseStackedReleaseGapMs))), _ => Err(key + " must be numeric"@) },
        ConfigKey::ReleaseSuppressNormalUpAfterForceMs => match value@ { ConfigValueView::Int(_) | ConfigValueView::Float(_) => Ok((c, Applied::Number(FloatField::ReleaseSuppressNormalUpAfterForceMs))), _ => Err(key + " must be numeric"@) },
        ConfigKey::DragReleaseEnabled => match value@ { ConfigValueView::Bool(v) => Ok((Config { drag_release: DragReleaseConfig { enabled: v, ..c.drag_release }, ..c }, Applied::Stored)), _ => Err(key + " must be a boolean"@) },
        ConfigKey::DragReleaseMovement => match value@ { ConfigValueView::Int(_) | ConfigValueView::Float(_) => Ok((c, Applied::Number(FloatField::DragReleaseMovement))), _ => Err(key + " must be numeric"@) },
        ConfigKey::DragReleaseThreshold => match value@ { ConfigValueView::Int(v) if i32::MIN <= v <= i32::MAX => Ok((Config { drag_release: DragReleaseConfig { threshold: v as i32, ..c.drag_release }, ..c }, Applied::Stored)), _ => Err(key + " must be a 32-bit integer"@) },
        ConfigKey::DragReleaseDebug => match value@ { ConfigValueView::Bool(v) => Ok((Config { drag_release: DragReleaseConfig { debug: v, ..c.drag_release }, ..c }, Applied::Stored)), _ => Err(key + " must be a boolean"@) },
        ConfigKey::HapticsDownParam => match value@ { ConfigValueView::Int(v) if 0 <= v <= u32::MAX => Ok((Config { haptics: HapticsConfig { down_param: v as u32, ..c.haptics }, ..c }, Applied::Stored)), _ => Err(key + " must be a 32-bit unsigned integer"@) },
        ConfigKey::HapticsUpParam => match value@ { ConfigValueView::Int(v) if 0 <= v <= u32::MAX => Ok((Config { haptics: HapticsConfig { up_param: v as u32, ..c.haptics }, ..c }, Applied::Stored)), _ => Err(key + " must be a 32-bit unsigned integer"@) },
        ConfigKey::HapticsNormalDownByte3 => match value@ { ConfigValueView::Int(v) if 0 <= v <= u8::MAX => Ok((Config { haptics: HapticsConfig { normal_down_byte3: v as u8, ..c.haptics }, ..c }, Applied::Stored)), _ => Err(key + " must be a byte integer"@) },
        ConfigKey::HapticsNormalUpByte3 => match value@ { ConfigValueView::Int(v) if 0 <= v <= u8::MAX => Ok((Config { haptics: HapticsConfig { normal_up_byte3: v as u8, ..c.haptics }, ..c }, Applied::Stored)), _ => Err(key + " must be a byte integer"@) },
        ConfigKey::HapticsForceDownByte3 => match value@ { ConfigValueView::Int(v) if 0 <= v <= u8::MAX => Ok((Config { haptics: HapticsConfig { force_down_byte3: v as u8, ..c.haptics }, ..c }, Applied::Stored)), _ => Err(key + " must be a byte integer"@) },
        ConfigKey::HapticsForceUpByte3 => match value@ { ConfigValueView::Int(v) if 0 <= v <= u8::MAX => Ok((Config { haptics: HapticsConfig { force_up_byte3: v as u8, ..c.haptics }, ..c }, Applied::Stored)), _ => Err(key + " must be a byte integer"@) },
        ConfigKey::DragHapticsEnabled => match value@ { ConfigValueView::Bool(v) => Ok((Config { drag: DragConfig { enabled: v, ..c.drag }, ..c }, Applied::Stored)), _ => Err(key + " must be a boolean"@) },
        ConfigKey::DragHapticsMode => match value { ConfigValue::String(p) => if p@ == "any"@ { Ok((Config { drag: DragConfig { mode: DragMode::Any, ..c.drag }, ..c }, Applied::Stored)) } else if p@ == "scroll"@ { Ok((Config { drag: DragConfig { mode: DragMode::Scroll, ..c.drag }, ..c }, Applied::Stored)) } else { Err("drag_haptics.mode must be 'any' or 'scroll'"@) }, _ => Err(key + " must be a string"@) },
        ConfigKey::DragHapticsDistance => match value@ { ConfigValueView::Int(_) | ConfigValueView::Float(_) => Ok((c, Applied::Number(FloatField::DragDistance))), _ => Err(key + " must be numeric"@) },
        ConfigKey::DragHapticsTwoFingerDistance => match value@ { ConfigValueView::Int(_) | ConfigValueView::Float(_) => Ok((c, Applied::Number(FloatField::DragTwoFingerDistance))), _ => Err(key + " must be numeric"@) },
        ConfigKey::DragHapticsThreeFingerDistance => match value@ { ConfigValueView::Int(_) | ConfigValueView::Float(_) => Ok((c, Applied::Number(FloatField::DragThreeFingerDistance))), _ => Err(key + " must be numeric"@) },
        ConfigKey::DragHapticsMinGapMs => match value@ { ConfigValueView::Int(_) | ConfigValueView::Float(_) => Ok((c, Applied::Number(FloatField::DragMinGapMs))), _ => Err(key + " must be numeric"@) },
        ConfigKey::DragHapticsTwoFingerMinGapMs => match value@ { ConfigValueView::Int(_) | ConfigValueView::Float(_) => Ok((c, Applied::Number(FloatField::DragTwoFingerMinGapMs))), _ => Err(key + " must be numeric"@) },
        ConfigKey::DragHapticsThreeFingerMinGapMs => match value@ { ConfigValueView::Int(_) | ConfigValueView::Float(_) => Ok((c, Applied::Number(FloatField::DragThreeFingerMinGapMs))), _ => Err(key + " must be numeric"@) },
        ConfigKey::DragHapticsDownMs => match value@ { ConfigValueView::Int(_) | ConfigValueView::Float(_) => Ok((c, Applied::Number(FloatField::DragDownMs))), _ => Err(key + " must be numeric"@) },
        ConfigKey::DragHapticsMotionEpsilon => match value@ { ConfigValueView::Int(_) | ConfigValueView::Float(_) => Ok((c, Applied::Number(FloatField::DragMotionEpsilon))), _ => Err(key + " must be numeric"@) },
        ConfigKey::DragHapticsClickSilenceMs => match value@ { ConfigValueView::Int(_) | ConfigValueView::Float(_) => Ok((c, Applied::Number(FloatField::DragClickSilenceMs))), _ => Err(key + " must be numeric"@) },
        ConfigKey::DragHapticsMaxPressure => match value@ { ConfigValueView::Int(v) if i32::MIN <= v <= i32::MAX => Ok((Config { drag: DragConfig { max_pressure: Some(v as i32), ..c.drag }, ..c }, Applied::Stored)), _ => Err(key + " must be a 32-bit integer"@) },
        ConfigKey::DragHapticsDebug => match value@ { ConfigValueView::Bool(v) => Ok((Config { drag: DragConfig { debug: v, ..c.drag }, ..c }, Applied::Stored)), _ => Err(key + " must be a boolean"@) },
        ConfigKey::RidgeHapticsEnabled => match value@ { ConfigValueView::Bool(v) => Ok((Config { ridge: RidgeConfig { enabled: v, ..c.ridge }, ..c }, Applied::Stored)), _ => Err(key + " must be a boolean"@) },
        ConfigKey::RidgeHapticsPosition => match value@ { ConfigValueView::Int(_) | ConfigValueView::Float(_) => Ok((c, Applied::Number(FloatField::RidgePosition))), _ => Err(key + " must be numeric"@) },
        ConfigKey::RidgeHapticsGridColumns => match value@ { ConfigValueView::Int(v) if i32::MIN <= v <= i32::MAX => Ok((Config { ridge: RidgeConfig { grid_columns: v as i32, ..c.ridge }, ..c }, Applied::Stored)), _ => Err(key + " must be a 32-bit integer"@) },
        ConfigKey::RidgeHapticsGridRows => match value@ { ConfigValueView::Int(v) if i32::MIN <= v <= i32::MAX => Ok((Config { ridge: RidgeConfig { grid_rows: v as i32, ..c.ridge }, ..c }, Applied::Stored)), _ => Err(key + " must be a 32-bit integer"@) },
        ConfigKey::RidgeHapticsGridXMin => match value@ { ConfigValueView::Int(_) | ConfigValueView::Float(_) => Ok((c, Applied::Number(FloatField::RidgeGridXMin))), _ => Err(key + " must be numeric"@) },
        ConfigKey::RidgeHapticsGridXMax => match value@ { ConfigValueView::Int(_) | ConfigValueView::Float(_) => Ok((c, Applied::Number(FloatField::RidgeGridXMax))), _ => Err(key + " must be numeric"@) },
        ConfigKey::RidgeHapticsGridYMin => match value@ { ConfigValueView::Int(_) | ConfigValueView::Float(_) => Ok((c, Applied::Number(FloatField::RidgeGridYMin))), _ => Err(key + " must be numeric"@) },
        ConfigKey::RidgeHapticsGridYMax => match value@ { ConfigValueView::Int(_) | ConfigValueView::Float(_) => Ok((c, Applied::Number(FloatField::RidgeGridYMax))), _ => Err(key + " must be numeric"@) },
        ConfigKey::RidgeHapticsDeadband => match value@ { ConfigValueView::Int(_) | ConfigValueView::Float(_) => Ok((c, Applied::Number(FloatField::RidgeDeadband))), _ => Err(key + " must be numeric"@) },
        ConfigKey::RidgeHapticsMinGapMs => match value@ { ConfigValueView::Int(_) | ConfigValueView::Float(_) => Ok((c, Applied::Number(FloatField::RidgeMinGapMs))), _ => Err(key + " must be numeric"@) },
        ConfigKey::RidgeHapticsDownMs => match value@ { ConfigValueView::Int(_) | ConfigValueView::Float(_) => Ok((c, Applied::Number(FloatField::RidgeDownMs))), _ => Err(key + " must be numeric"@) },
        ConfigKey::RidgeHapticsPulses => match value@ { ConfigValueView::Int(v) if i32::MIN <= v <= i32::MAX => Ok((Config { ridge: RidgeConfig { pulses: v as i32, ..c.ridge }, ..c }, Applied::Stored)), _ => Err(key + " must be a 32-bit integer"@) },
        ConfigKey::RidgeHapticsPulseGapMs => match value@ { ConfigValueView::Int(_) | ConfigValueView::Float(_) => Ok((c, Applied::Number(FloatField::RidgePulseGapMs))), _ => Err(key + " must be numeric"@) },
        ConfigKey::RidgeHapticsDownParam => match value@ { ConfigValueView::Int(v) if 0 <= v <= u32::MAX => Ok((Config { ridge: RidgeConfig { down_param: v as u32, ..c.ridge }, ..c }, Applied::Stored)), _ => Err(key + " must be a 32-bit unsigned integer"@) },
        ConfigKey::RidgeHapticsUpParam => match value@ { ConfigValueView::Int(v) if 0 <= v <= u32::MAX => Ok((Config { ridge: RidgeConfig { up_param: v as u32, ..c.ridge }, ..c }, Applied::Stored)), _ => Err(key + " must be a 32-bit unsigned integer"@) },
        ConfigKey::RidgeHapticsDownByte3 => match value@ { ConfigValueView::Int(v) if 0 <= v <= u8::MAX => Ok((Config { ridge: RidgeConfig { down_byte3: v as u8, ..c.ridge }, ..c }, Applied::Stored)), _ => Err(key + " must be a byte integer"@) },
        ConfigKey::RidgeHapticsUpByte3 => match value@ { ConfigValueView::Int(v) if 0 <= v <= u8::MAX => Ok((Config { ridge: RidgeConfig { up_byte3: v as u8, ..c.ridge }, ..c }, Applied::Stored)), _ => Err(key + " must be a byte integer"@) },
        ConfigKey::RidgeHapticsDebug => match value@ { ConfigValueView::Bool(v) => Ok((Config { ridge: RidgeConfig { debug: v, ..c.ridge }, ..c }, Applied::Stored)), _ => Err(key + " must be a boolean"@) },
    }
}

/// What storing `value` under `key` does: the configuration afterwards and
/// whether a floating-point setting (kept by the caller) takes the number;
/// or the error for an unknown key or a value of the wrong kind.
pub open spec fn spec_apply_config_value(c: Config, key: Seq<char>, value: ConfigValue) -> Result<(Config, Applied), Seq<char>> {
    match spec_config_key(key) {
        None => Err("unknown config key: "@ + key),
        Some(k) => spec_apply_key(c, k, key, value),
    }
}

/// The section (by key prefix) of a configuration key.
pub open spec fn key_section(k: ConfigKey) -> nat {
    match k {
        ConfigKey::DevicePath => 0,
        ConfigKey::DeviceRestoreOnExit => 0,
        ConfigKey::DeviceSettleMs => 0,
        ConfigKey::InputEnabled => 1,
        ConfigKey::InputForceButton => 1,
        ConfigKey::InputPendingLeftMs => 1,
        ConfigKey::InputPendingLeftMotion => 1,
        ConfigKey::InputMultiTouchDragMotion => 1,
        ConfigKey::InputMultiTouchMotionXScale => 1,
        ConfigKey::InputMultiTouchMotionYScale => 1,
        ConfigKey::InputMultiTouchMotionDebug => 1,
        ConfigKey::ClicksNormalThreshold => 2,
        ConfigKey::ClicksForceThreshold => 2,
        ConfigKey::ClicksDoubleClickForceThreshold => 2,
        ConfigKey::ClicksDoubleClickWindowMs => 2,
        ConfigKey::ClicksResetThreshold => 2,
        ConfigKey::ClicksRearmThreshold => 2,
        ConfigKey::ClicksForceRearmThreshold => 2,
        ConfigKey::ClicksNormalReleaseThreshold => 2,
        ConfigKey::ClicksDragReleaseThreshold => 2,
        ConfigKey::ClicksDragReleaseMotion => 2,
        ConfigKey::ClicksMinGapMs => 2,
        ConfigKey::ReleaseDrop => 3,
        ConfigKey::ReleaseRate => 3,
        ConfigKey::ReleaseLockoutMs => 3,
        ConfigKey::ReleaseStackedReleaseGapMs => 3,
        ConfigKey::ReleaseSuppressNormalUpAfterForceMs => 3,
        ConfigKey::DragReleaseEnabled => 4,
        ConfigKey::DragReleaseMovement => 4,
        ConfigKey::DragReleaseThreshold => 4,
        ConfigKey::DragReleaseDebug => 4,
        ConfigKey::HapticsDownParam => 5,
        ConfigKey::HapticsUpParam => 5,
        ConfigKey::HapticsNormalDownByte3 => 5,
        ConfigKey::HapticsNormalUpByte3 => 5,
        ConfigKey::HapticsForceDownByte3 => 5,
        ConfigKey::HapticsForceUpByte3 => 5,
        ConfigKey::DragHapticsEnabled => 6,
        ConfigKey::DragHapticsMode => 6,
        ConfigKey::DragHapticsDistance => 6,
        ConfigKey::DragHapticsTwoFingerDistance => 6,
        ConfigKey::DragHapticsThreeFingerDistance => 6,
        ConfigKey::DragHapticsMinGapMs => 6,
        ConfigKey::DragHapticsTwoFingerMinGapMs => 6,
        ConfigKey::DragHapticsThreeFingerMinGapMs => 6,
        ConfigKey::DragHapticsDownMs => 6,
        ConfigKey::DragHapticsMotionEpsilon => 6,
        ConfigKey::DragHapticsClickSilenceMs => 6,
        ConfigKey::DragHapticsMaxPressure => 6,
        ConfigKey::DragHapticsDebug => 6,
        ConfigKey::RidgeHapticsEnabled => 7,
        ConfigKey::RidgeHapticsPosition => 7,
        ConfigKey::RidgeHapticsGridColumns => 7,
        ConfigKey::RidgeHapticsGridRows => 7,
        ConfigKey::RidgeHapticsGridXMin => 7,
        ConfigKey::RidgeHapticsGridXMax => 7,
        ConfigKey::RidgeHapticsGridYMin => 7,
        ConfigKey::RidgeHapticsGridYMax => 7,
        ConfigKey::RidgeHapticsDeadband => 7,
        ConfigKey::RidgeHapticsMinGapMs => 7,
        ConfigKey::RidgeHapticsDownMs => 7,
        ConfigKey::RidgeHapticsPulses => 7,
        ConfigKey::RidgeHapticsPulseGapMs => 7,
        ConfigKey::RidgeHapticsDownParam => 7,
        ConfigKey::RidgeHapticsUpParam => 7,
        ConfigKey::RidgeHapticsDownByte3 => 7,
        ConfigKey::RidgeHapticsUpByte3 => 7,
        ConfigKey::RidgeHapticsDebug => 7,
    }
}

fn apply_device_key(config: &mut Config, k: ConfigKey, key: &str, value: ConfigValue) -> (r: Result<Applied, String>)
    requires
        key_section(k) == 0,
    ensures
        match (r, spec_apply_key(*old(config), k, key@, value)) {
            (Ok(a), Ok((c, sa))) => *final(config) == c && a == sa,
            (Err(e), Err(m)) => e@ == m && *final(config) == *old(config),
            _ => false,
        },
{
    match k {
        ConfigKey::DevicePath => {
            match value_string(key, value) {
                Ok(p) => {
                    if str_eq(p.as_str(), "auto") {
                        config.device.path = None;
                    } else {
                        config.device.path = Some(p);
                    }
                    Ok(Applied::Stored)
                },
                Err(e) => Err(e),
            }
        },
        ConfigKey::DeviceRestoreOnExit => {
            match value_bool(key, value) {
                Ok(v) => {
                    config.device.restore_on_exit = v;
                    Ok(Applied::Stored)
                },
                Err(e) => Err(e),
            }
        },
        ConfigKey::DeviceSettleMs => {
            match value_number(key, &value) {
                Ok(()) => Ok(Applied::Number(FloatField::DeviceSettleMs)),
                Err(e) => Err(e),
            }
        },
        _ => {
            proof {
                assert(false);
            }
            Err(join2("unknown config key: ", key))
        },
    }
}

fn apply_input_key(config: &mut Config, k: ConfigKey, key: &str, value: ConfigValue) -> (r: Result<Applied, String>)
    requires
        key_section(k) == 1,
    ensures
        match (r, spec_apply_key(*old(config), k, key@, value)) {
            (Ok(a), Ok((c, sa))) => *final(config) == c && a == sa,
            (Err(e), Err(m)) => e@ == m && *final(config) == *old(config),
            _ => false,
        },
{
    match k {
        ConfigKey::InputEnabled => {
            match value_bool(key, value) {
                Ok(v) => {
                    config.input.enabled = v;
                    Ok(Applied::Stored)
                },
                Err(e) => Err(e),
            }
        },
        ConfigKey::InputForceButton => {
            match value_string(key, value) {
                Ok(p) => match parse_button_name(key, p.as_str()) {
                    Ok(btn) => {
                        config.input.force_button = btn;
                        Ok(Applied::Stored)
                    },
                    Err(e) => Err(e),
                },
                Err(e) => Err(e),
            }
        },
        ConfigKey::InputPendingLeftMs => {
            match value_number(key, &value) {
                Ok(()) => Ok(Applied::Number(FloatField::InputPendingLeftMs)),
                Err(e) => Err(e),
            }
        },
        ConfigKey::InputPendingLeftMotion => {
            match value_number(key, &value) {
                Ok(()) => Ok(Applied::Number(FloatField::InputPendingLeftMotion)),
                Err(e) => Err(e),
            }
        },
        ConfigKey::InputMultiTouchDragMotion => {
            match value_bool(key, value) {
                Ok(v) => {
                    config.input.multi_touch_drag_motion = v;
                    Ok(Applied::Stored)
                },
                Err(e) => Err(e),
            }
        },
        ConfigKey::InputMultiTouchMotionXScale => {
            match value_number(key, &value) {
                Ok(()) => Ok(Applied::Number(FloatField::InputMultiTouchMotionXScale)),
                Err(e) => Err(e),
            }
        },
        ConfigKey::InputMultiTouchMotionYScale => {
            match value_number(key, &value) {
                Ok(()) => Ok(Applied::Number(FloatField::InputMultiTouchMotionYScale)),
                Err(e) => Err(e),
            }
        },
        ConfigKey::InputMultiTouchMotionDebug => {
            match value_bool(key, value) {
                Ok(v) => {
                    config.input.multi_touch_motion_debug = v;
                    Ok(Applied::Stored)
                },
                Err(e) => Err(e),
            }
        },
        _ => {
            proof {
                assert(false);
            }
            Err(join2("unknown config key: ", key))
        },
    }
}

fn apply_clicks_key(config: &mut Config, k: ConfigKey, key: &str, value: ConfigValue) -> (r: Result<Applied, String>)
    requires
        key_section(k) == 2,
    ensures
        match (r, spec_apply_key(*old(config), k, key@, value)) {
            (Ok(a), Ok((c, sa))) => *final(config) == c && a == sa,
            (Err(e), Err(m)) => e@ == m && *final(config) == *old(config),
            _ => false,
        },
{
    match k {
        ConfigKey::ClicksNormalThreshold => {
            match value_i32(key, value) {
                Ok(v) => {
                    config.clicks.normal_threshold = v;
                    Ok(Applied::Stored)
                },
                Err(e) => Err(e),
            }
        },
        ConfigKey::ClicksForceThreshold => {
            match value_i32(key, value) {
                Ok(v) => {
                    config.clicks.force_threshold = v;
                    Ok(Applied::Stored)
                },
                Err(e) => Err(e),
            }
        },
        ConfigKey::ClicksDoubleClickForceThreshold => {
            match value_i32(key, value) {
                Ok(v) => {
                    config.clicks.double_click_force_threshold = v;
                    Ok(Applied::Stored)
                },
                Err(e) => Err(e),
            }
        },
        ConfigKey::ClicksDoubleClickWindowMs => {
            match value_number(key, &value) {
                Ok(()) => Ok(Applied::Number(FloatField::ClicksDoubleClickWindowMs)),
                Err(e) => Err(e),
            }
        },
        ConfigKey::ClicksResetThreshold => {
            match value_i32(key, value) {
                Ok(v) => {
                    config.clicks.reset_threshold = v;
                    Ok(Applied::Stored)
                },
                Err(e) => Err(e),
            }
        },
        ConfigKey::ClicksRearmThreshold => {
            match value_i32(key, value) {
                Ok(v) => {
                    config.clicks.rearm_threshold = v;
                    Ok(Applied::Stored)
                },
                Err(e) => Err(e),
            }
        },
        ConfigKey::ClicksForceRearmThreshold => {
            match value_i32(key, value) {
                Ok(v) => {
                    config.clicks.force_rearm_threshold = v;
                    Ok(Applied::Stored)
                },
                Err(e) => Err(e),
            }
        },
        ConfigKey::ClicksNormalReleaseThreshold => {
            match value_i32(key, value) {
                Ok(v) => {
                    config.clicks.normal_release_threshold = v;
                    Ok(Applied::Stored)
                },
                Err(e) => Err(e),
            }
        },
        ConfigKey::ClicksDragReleaseThreshold => {
            match value_i32(key, value) {
                Ok(v) => {
                    config.drag_release.threshold = v;
                    Ok(Applied::Stored)
                },
                Err(e) => Err(e),
            }
        },
        ConfigKey::ClicksDragReleaseMotion => {
            match value_number(key, &value) {
                Ok(()) => Ok(Applied::Number(FloatField::DragReleaseMovement)),
                Err(e) => Err(e),
            }
        },
        ConfigKey::ClicksMinGapMs => {
            match value_number(key, &value) {
                Ok(()) => Ok(Applied::Number(FloatField::ClicksMinGapMs)),
                Err(e) => Err(e),
            }
        },
        _ => {
            proof {
                assert(false);
            }
            Err(join2("unknown config key: ", key))
        },
    }
}

fn apply_release_key(config: &mut Config, k: ConfigKey, key: &str, value: ConfigValue) -> (r: Result<Applied, String>)
    requires
        key_section(k) == 3,
    ensures
        match (r, spec_apply_key(*old(config), k, key@, value)) {
            (Ok(a), Ok((c, sa))) => *final(config) == c && a == sa,
            (Err(e), Err(m)) => e@ == m && *final(config) == *old(config),
            _ => false,
        },
{
    match k {
        ConfigKey::ReleaseDrop => {
            match value_i32(key, value) {
                Ok(v) => {
                    config.release.drop = v;
                    Ok(Applied::Stored)
                },
                Err(e) => Err(e),
            }
        },
        ConfigKey::ReleaseRate => {
            match value_number(key, &value) {
                Ok(()) => Ok(Applied::Number(FloatField::ReleaseRate)),
                Err(e) => Err(e),
            }
        },
        ConfigKey::ReleaseLockoutMs => {
            match value_number(key, &value) {
                Ok(()) => Ok(Applied::Number(FloatField::ReleaseLockoutMs)),
                Err(e) => Err(e),
            }
        },
        ConfigKey::ReleaseStackedReleaseGapMs => {
            match value_number(key, &value) {
                Ok(()) => Ok(Applied::Number(FloatField::ReleaseStackedReleaseGapMs)),
                Err(e) => Err(e),
            }
        },
        ConfigKey::ReleaseSuppressNormalUpAfterForceMs => {
            match value_number(key, &value) {
                Ok(()) => Ok(Applied::Number(FloatField::ReleaseSuppressNormalUpAfterForceMs)),
                Err(e) => Err(e),
            }
        },
        _ => {
            proof {
                assert(false);
            }
            Err(join2("unknown config key: ", key))
        },
    }
}

fn apply_drag_release_key(config: &mut Config, k: ConfigKey, key: &str, value: ConfigValue) -> (r: Result<Applied, String>)
    requires
        key_section(k) == 4,
    ensures
        match (r, spec_apply_key(*old(config), k, key@, value)) {
            (Ok(a), Ok((c, sa))) => *final(config) == c && a == sa,
            (Err(e), Err(m)) => e@ == m && *final(config) == *old(config),
            _ => false,
        },
{
    match k {
        ConfigKey::DragReleaseEnabled => {
            match value_bool(key, value) {
                Ok(v) => {
                    config.drag_release.enabled = v;
                    Ok(Applied::Stored)
                },
                Err(e) => Err(e),
            }
        },
        ConfigKey::DragReleaseMovement => {
            match value_number(key, &value) {
                Ok(()) => Ok(Applied::Number(FloatField::DragReleaseMovement)),
                Err(e) => Err(e),
            }
        },
        ConfigKey::DragReleaseThreshold => {
            match value_i32(key, value) {
                Ok(v) => {
                    config.drag_release.threshold = v;
                    Ok(Applied::Stored)
                },
                Err(e) => Err(e),
            }
        },
        ConfigKey::DragReleaseDebug => {
            match value_bool(key, value) {
                Ok(v) => {
                    config.drag_release.debug = v;
                    Ok(Applied::Stored)
                },
                Err(e) => Err(e),
            }
        },
        _ => {
            proof {
                assert(false);
            }
            Err(join2("unknown config key: ", key))
        },
    }
}

fn apply_haptics_key(config: &mut Config, k: ConfigKey, key: &str, value: ConfigValue) -> (r: Result<Applied, String>)
    requires
        key_section(k) == 5,
    ensures
        match (r, spec_apply_key(*old(config), k, key@, value)) {
            (Ok(a), Ok((c, sa))) => *final(config) == c && a == sa,
            (Err(e), Err(m)) => e@ == m && *final(config) == *old(config),
            _ => false,
        },
{
    match k {
        ConfigKey::HapticsDownParam => {
            match value_u32(key, value) {
                Ok(v) => {
                    config.haptics.down_param = v;
                    Ok(Applied::Stored)
                },
                Err(e) => Err(e),
            }
        },
        ConfigKey::HapticsUpParam => {
            match value_u32(key, value) {
                Ok(v) => {
                    config.haptics.up_param = v;
                    Ok(Applied::Stored)
                },
                Err(e) => Err(e),
            }
        },
        ConfigKey::HapticsNormalDownByte3 => {
            match value_u8(key, value) {
                Ok(v) => {
                    config.haptics.normal_down_byte3 = v;
                    Ok(Applied::Stored)
                },
                Err(e) => Err(e),
            }
        },
        ConfigKey::HapticsNormalUpByte3 => {
            match value_u8(key, value) {
                Ok(v) => {
                    config.haptics.normal_up_byte3 = v;
                    Ok(Applied::Stored)
                },
                Err(e) => Err(e),
            }
        },
        ConfigKey::HapticsForceDownByte3 => {
            match value_u8(key, value) {
                Ok(v) => {
                    config.haptics.force_down_byte3 = v;
                    Ok(Applied::Stored)
                },
                Err(e) => Err(e),
            }
        },
        ConfigKey::HapticsForceUpByte3 => {
            match value_u8(key, value) {
                Ok(v) => {
                    config.haptics.force_up_byte3 = v;
                    Ok(Applied::Stored)
                },
                Err(e) => Err(e),
            }
        },
        _ => {
            proof {
                assert(false);
            }
            Err(join2("unknown config key: ", key))
        },
    }
}

fn apply_drag_haptics_key(config: &mut Config, k: ConfigKey, key: &str, value: ConfigValue) -> (r: Result<Applied, String>)
    requires
        key_section(k) == 6,
    ensures
        match (r, spec_apply_key(*old(config), k, key@, value)) {
            (Ok(a), Ok((c, sa))) => *final(config) == c && a == sa,
            (Err(e), Err(m)) => e@ == m && *final(config) == *old(config),
            _ => false,
        },
{
    proof {
        reveal_strlit("any");
        reveal_strlit("scroll");
        assert("any"@.len() == 3 && "scroll"@.len() == 6);
    }
    match k {
        ConfigKey::DragHapticsEnabled => {
            match value_bool(key, value) {
                Ok(v) => {
                    config.drag.enabled = v;
                    Ok(Applied::Stored)
                },
                Err(e) => Err(e),
            }
        },
        ConfigKey::DragHapticsMode => {
            match value_string(key, value) {
                Ok(p) => match DragMode::parse(p.as_str()) {
                    Ok(m) => {
                        config.drag.mode = m;
                        Ok(Applied::Stored)
                    },
                    Err(e) => Err(e),
                },
                Err(e) => Err(e),
            }
        },
        ConfigKey::DragHapticsDistance => {
            match value_number(key, &value) {
                Ok(()) => Ok(Applied::Number(FloatField::DragDistance)),
                Err(e) => Err(e),
            }
        },
        ConfigKey::DragHapticsTwoFingerDistance => {
            match value_number(key, &value) {
                Ok(()) => Ok(Applied::Number(FloatField::DragTwoFingerDistance)),
                Err(e) => Err(e),
            }
        },
        ConfigKey::DragHapticsThreeFingerDistance => {
            match value_number(key, &value) {
                Ok(()) => Ok(Applied::Number(FloatField::DragThreeFingerDistance)),
                Err(e) => Err(e),
            }
        },
        ConfigKey::DragHapticsMinGapMs => {
            match value_number(key, &value) {
                Ok(()) => Ok(Applied::Number(FloatField::DragMinGapMs)),
                Err(e) => Err(e),
            }
        },
        ConfigKey::DragHapticsTwoFingerMinGapMs => {
            match value_number(key, &value) {
                Ok(()) => Ok(Applied::Number(FloatField::DragTwoFingerMinGapMs)),
                Err(e) => Err(e),
            }
        },
        ConfigKey::DragHapticsThreeFingerMinGapMs => {
            match value_number(key, &value) {
                Ok(()) => Ok(Applied::Number(FloatField::DragThreeFingerMinGapMs)),
                Err(e) => Err(e),
            }
        },
        ConfigKey::DragHapticsDownMs => {
            match value_number(key, &value) {
                Ok(()) => Ok(Applied::Number(FloatField::DragDownMs)),
                Err(e) => Err(e),
            }
        },
        ConfigKey::DragHapticsMotionEpsilon => {
            match value_number(key, &value) {
                Ok(()) => Ok(Applied::Number(FloatField::DragMotionEpsilon)),
                Err(e) => Err(e),
            }
        },
        ConfigKey::DragHapticsClickSilenceMs => {
            match value_number(key, &value) {
                Ok(()) => Ok(Applied::Number(FloatField::DragClickSilenceMs)),
                Err(e) => Err(e),
            }
        },
        ConfigKey::DragHapticsMaxPressure => {
            match value_i32(key, value) {
                Ok(v) => {
                    config.drag.max_pressure = Some(v);
                    Ok(Applied::Stored)
                },
                Err(e) => Err(e),
            }
        },
        ConfigKey::DragHapticsDebug => {
            match value_bool(key, value) {
                Ok(v) => {
                    config.drag.debug = v;
                    Ok(Applied::Stored)
                },
                Err(e) => Err(e),
            }
        },
        _ => {
            proof {
                assert(false);
            }
            Err(join2("unknown config key: ", key))
        },
    }
}

fn apply_ridge_haptics_key(config: &mut Config, k: ConfigKey, key: &str, value: ConfigValue) -> (r: Result<Applied, String>)
    requires
        key_section(k) == 7,
    ensures
        match (r, spec_apply_key(*old(config), k, key@, value)) {
            (Ok(a), Ok((c, sa))) => *final(config) == c && a == sa,
            (Err(e), Err(m)) => e@ == m && *final(config) == *old(config),
            _ => false,
        },
{
    match k {
        ConfigKey::RidgeHapticsEnabled => {
            match value_bool(key, value) {
                Ok(v) => {
                    config.ridge.enabled = v;
                    Ok(Applied::Stored)
                },
                Err(e) => Err(e),
            }
        },
        ConfigKey::RidgeHapticsPosition => {
            match value_number(key, &value) {
                Ok(()) => Ok(Applied::Number(FloatField::RidgePosition)),
                Err(e) => Err(e),
            }
        },
        ConfigKey::RidgeHapticsGridColumns => {
            match value_i32(key, value) {
                Ok(v) => {
                    config.ridge.grid_columns = v;
                    Ok(Applied::Stored)
                },
                Err(e) => Err(e),
            }
        },
        ConfigKey::RidgeHapticsGridRows => {
            match value_i32(key, value) {
                Ok(v) => {
                    config.ridge.grid_rows = v;
                    Ok(Applied::Stored)
                },
                Err(e) => Err(e),
            }
        },
        ConfigKey::RidgeHapticsGridXMin => {
            match value_number(key, &value) {
                Ok(()) => Ok(Applied::Number(FloatField::RidgeGridXMin)),
                Err(e) => Err(e),
            }
        },
        ConfigKey::RidgeHapticsGridXMax => {
            match value_number(key, &value) {
                Ok(()) => Ok(Applied::Number(FloatField::RidgeGridXMax)),
                Err(e) => Err(e),
            }
        },
        ConfigKey::RidgeHapticsGridYMin => {
            match value_number(key, &value) {
                Ok(()) => Ok(Applied::Number(FloatField::RidgeGridYMin)),
                Err(e) => Err(e),
            }
        },
        ConfigKey::RidgeHapticsGridYMax => {
            match value_number(key, &value) {
                Ok(()) => Ok(Applied::Number(FloatField::RidgeGridYMax)),
                Err(e) => Err(e),
            }
        },
        ConfigKey::RidgeHapticsDeadband => {
            match value_number(key, &value) {
                Ok(()) => Ok(Applied::Number(FloatField::RidgeDeadband)),
                Err(e) => Err(e),
            }
        },
        ConfigKey::RidgeHapticsMinGapMs => {
            match value_number(key, &value) {
                Ok(()) => Ok(Applied::Number(FloatField::RidgeMinGapMs)),
                Err(e) => Err(e),
            }
        },
        ConfigKey::RidgeHapticsDownMs => {
            match value_number(key, &value) {
                Ok(()) => Ok(Applied::Number(FloatField::RidgeDownMs)),
                Err(e) => Err(e),
            }
        },
        ConfigKey::RidgeHapticsPulses => {
            match value_i32(key, value) {
                Ok(v) => {
                    config.ridge.pulses = v;
                    Ok(Applied::Stored)
                },
                Err(e) => Err(e),
            }
        },
        ConfigKey::RidgeHapticsPulseGapMs => {
            match value_number(key, &value) {
                Ok(()) => Ok(Applied::Number(FloatField::RidgePulseGapMs)),
                Err(e) => Err(e),
            }
        },
        ConfigKey::RidgeHapticsDownParam => {
            match value_u32(key, value) {
                Ok(v) => {
                    config.ridge.down_param = v;
                    Ok(Applied::Stored)
                },
                Err(e) => Err(e),
            }
        },
        ConfigKey::RidgeHapticsUpParam => {
            match value_u32(key, value) {
                Ok(v) => {
                    config.ridge.up_param = v;
                    Ok(Applied::Stored)
                },
                Err(e) => Err(e),
            }
        },
        ConfigKey::RidgeHapticsDownByte3 => {
            match value_u8(key, value) {
                Ok(v) => {
                    config.ridge.down_byte3 = v;
                    Ok(Applied::Stored)
                },
                Err(e) => Err(e),
            }
        },
        ConfigKey::RidgeHapticsUpByte3 => {
            match value_u8(key, value) {
                Ok(v) => {
                    config.ridge.up_byte3 = v;
                    Ok(Applied::Stored)
                },
                Err(e) => Err(e),
            }
        },
        ConfigKey::RidgeHapticsDebug => {
            match value_bool(key, value) {
                Ok(v) => {
                    config.ridge.debug = v;
                    Ok(Applied::Stored)
                },
                Err(e) => Err(e),
            }
        },
        _ => {
            proof {
                assert(false);
            }
            Err(join2("unknown config key: ", key))
        },
    }
}

/// Stores a value under a recognised key (see `spec_apply_key`).
pub fn apply_key(config: &mut Config, k: ConfigKey, key: &str, value: ConfigValue) -> (r: Result<Applied, String>)
    ensures
        match (r, spec_apply_key(*old(config), k, key@, value)) {
            (Ok(a), Ok((c, sa))) => *final(config) == c && a == sa,
            (Err(e), Err(m)) => e@ == m && *final(config) == *old(config),
            _ => false,
        },
{
    if key_section_of(k) == 0 {
        apply_device_key(config, k, key, value)
    } else if key_section_of(k) == 1 {
        apply_input_key(config, k, key, value)
    } else if key_section_of(k) == 2 {
        apply_clicks_key(config, k, key, value)
    } else if key_section_of(k) == 3 {
        apply_release_key(config, k, key, value)
    } else if key_section_of(k) == 4 {
        apply_drag_release_key(config, k, key, value)
    } else if key_section_of(k) == 5 {
        apply_haptics_key(config, k, key, value)
    } else if key_section_of(k) == 6 {
        apply_drag_haptics_key(config, k, key, value)
    } else {
        apply_ridge_haptics_key(config, k, key, value)
    }
}

/// The section (by key prefix) of a configuration key.
fn key_section_of(k: ConfigKey) -> (s: u8)
    ensures
        s as nat == key_section(k),
{
    match k {
        ConfigKey::DevicePath => 0,
        ConfigKey::DeviceRestoreOnExit => 0,
        ConfigKey::DeviceSettleMs => 0,
        ConfigKey::InputEnabled => 1,
        ConfigKey::InputForceButton => 1,
        ConfigKey::InputPendingLeftMs => 1,
        ConfigKey::InputPendingLeftMotion => 1,
        ConfigKey::InputMultiTouchDragMotion => 1,
        ConfigKey::InputMultiTouchMotionXScale => 1,
        ConfigKey::InputMultiTouchMotionYScale => 1,
        ConfigKey::InputMultiTouchMotionDebug => 1,
        ConfigKey::ClicksNormalThreshold => 2,
        ConfigKey::ClicksForceThreshold => 2,
        ConfigKey::ClicksDoubleClickForceThreshold => 2,
        ConfigKey::ClicksDoubleClickWindowMs => 2,
        ConfigKey::ClicksResetThreshold => 2,
        ConfigKey::ClicksRearmThreshold => 2,
        ConfigKey::ClicksForceRearmThreshold => 2,
        ConfigKey::ClicksNormalReleaseThreshold => 2,
        ConfigKey::ClicksDragReleaseThreshold => 2,
        ConfigKey::ClicksDragReleaseMotion => 2,
        ConfigKey::ClicksMinGapMs => 2,
        ConfigKey::ReleaseDrop => 3,
        ConfigKey::ReleaseRate => 3,
        ConfigKey::ReleaseLockoutMs => 3,
        ConfigKey::ReleaseStackedReleaseGapMs => 3,
        ConfigKey::ReleaseSuppressNormalUpAfterForceMs => 3,
        ConfigKey::DragReleaseEnabled => 4,
        ConfigKey::DragReleaseMovement => 4,
        ConfigKey::DragReleaseThreshold => 4,
        ConfigKey::DragReleaseDebug => 4,
        ConfigKey::HapticsDownParam => 5,
        ConfigKey::HapticsUpParam => 5,
        ConfigKey::HapticsNormalDownByte3 => 5,
        ConfigKey::HapticsNormalUpByte3 => 5,
        ConfigKey::HapticsForceDownByte3 => 5,
        ConfigKey::HapticsForceUpByte3 => 5,
        ConfigKey::DragHapticsEnabled => 6,
        ConfigKey::DragHapticsMode => 6,
        ConfigKey::DragHapticsDistance => 6,
        ConfigKey::DragHapticsTwoFingerDistance => 6,
        ConfigKey::DragHapticsThreeFingerDistance => 6,
        ConfigKey::DragHapticsMinGapMs => 6,
        ConfigKey::DragHapticsTwoFingerMinGapMs => 6,
        ConfigKey::DragHapticsThreeFingerMinGapMs => 6,
        ConfigKey::DragHapticsDownMs => 6,
        ConfigKey::DragHapticsMotionEpsilon => 6,
        ConfigKey::DragHapticsClickSilenceMs => 6,
        ConfigKey::DragHapticsMaxPressure => 6,
        ConfigKey::DragHapticsDebug => 6,
        ConfigKey::RidgeHapticsEnabled => 7,
        ConfigKey::RidgeHapticsPosition => 7,
        ConfigKey::RidgeHapticsGridColumns => 7,
        ConfigKey::RidgeHapticsGridRows => 7,
        ConfigKey::RidgeHapticsGridXMin => 7,
        ConfigKey::RidgeHapticsGridXMax => 7,
        ConfigKey::RidgeHapticsGridYMin => 7,
        ConfigKey::RidgeHapticsGridYMax => 7,
        ConfigKey::RidgeHapticsDeadband => 7,
        ConfigKey::RidgeHapticsMinGapMs => 7,
        ConfigKey::RidgeHapticsDownMs => 7,
        ConfigKey::RidgeHapticsPulses => 7,
        ConfigKey::RidgeHapticsPulseGapMs => 7,
        ConfigKey::RidgeHapticsDownParam => 7,
        ConfigKey::RidgeHapticsUpParam => 7,
        ConfigKey::RidgeHapticsDownByte3 => 7,
        ConfigKey::RidgeHapticsUpByte3 => 7,
        ConfigKey::RidgeHapticsDebug => 7,
    }
}

/// Stores a configuration value under its key (see `spec_apply_config_value`).
pub fn apply_config_value(config: &mut Config, key: &str, value: ConfigValue) -> (r: Result<Applied, String>)
    ensures
        match (r, spec_apply_config_value(*old(config), key@, value)) {
            (Ok(a), Ok((c, sa))) => *final(config) == c && a == sa,
            (Err(e), Err(m)) => e@ == m && *final(config) == *old(config),
            _ => false,
        },
{
    match config_key(key) {
        None => Err(join2("unknown config key: ", key)),
        Some(k) => apply_key(config, k, key, value),
    }
}


/// The outcome of the checks on the floating-point settings, computed by
/// the caller that keeps them. Each field tells whether that check fails.
#[derive(Clone, Copy, Debug)]
pub struct FloatChecks {
    /// `clicks.double_click_window_ms < 0`
    pub double_click_window_negative: bool,
    /// `input.pending_left_ms < 0`
    pub pending_left_ms_negative: bool,
    /// `input.pending_left_motion < 0`
    pub pending_left_motion_negative: bool,
    /// `input.multi_touch_motion_x_scale` is not finite
    pub x_scale_not_finite: bool,
    /// `input.multi_touch_motion_y_scale` is not finite
    pub y_scale_not_finite: bool,
    /// `drag_release.movement < 1`
    pub drag_release_movement_below_one: bool,
    /// `drag_haptics.min_gap_ms < 20`
    pub drag_min_gap_below_20: bool,
    /// `drag_haptics.down_ms >= drag_haptics.min_gap_ms`
    pub drag_down_not_below_min_gap: bool,
    /// the two-finger gap (or the base gap) `< 20`
    pub drag_two_finger_min_gap_below_20: bool,
    /// `drag_haptics.down_ms >=` the two-finger gap (or the base gap)
    pub drag_down_not_below_two_finger_min_gap: bool,
    /// the three-finger gap (or the base gap) `< 20`
    pub drag_three_finger_min_gap_below_20: bool,
    /// `drag_haptics.down_ms >=` the three-finger gap (or the base gap)
    pub drag_down_not_below_three_finger_min_gap: bool,
    /// `drag_haptics.distance < 1`
    pub drag_distance_below_one: bool,
    /// the two-finger distance (or the base distance) `< 1`
    pub drag_two_finger_distance_below_one: bool,
    /// the three-finger distance (or the base distance) `< 1`
    pub drag_three_finger_distance_below_one: bool,
    /// `drag_haptics.motion_epsilon < 0`
    pub drag_motion_epsilon_negative: bool,
    /// `drag_haptics.click_silence_ms < 0`
    pub drag_click_silence_negative: bool,
    /// `ridge_haptics.deadband < 1`
    pub ridge_deadband_below_one: bool,
    /// `ridge_haptics.grid_x_min >= ridge_haptics.grid_x_max`
    pub ridge_x_range_empty: bool,
    /// `ridge_haptics.grid_y_min >= ridge_haptics.grid_y_max`
    pub ridge_y_range_empty: bool,
    /// the deadband is at least the grid column width
    pub ridge_deadband_not_below_column_width: bool,
    /// the deadband is at least the grid row height
    pub ridge_deadband_not_below_row_height: bool,
    /// `ridge_haptics.min_gap_ms < 20`
    pub ridge_min_gap_below_20: bool,
    /// `ridge_haptics.down_ms >= ridge_haptics.min_gap_ms`
    pub ridge_down_not_below_min_gap: bool,
    /// `ridge_haptics.pulse_gap_ms < 5`
    pub ridge_pulse_gap_below_5: bool,
    /// the burst of pulses lasts at least `ridge_haptics.min_gap_ms`
    pub ridge_burst_not_below_min_gap: bool,
}

/// The first failing check of the click and input settings.
pub open spec fn spec_check_clicks(c: Config, f: FloatChecks) -> Option<Seq<char>> {
    let k = c.clicks;
    if !(k.reset_threshold < k.rearm_threshold && k.rearm_threshold < k.normal_threshold && k.normal_threshold
        < k.force_rearm_threshold && k.force_rearm_threshold < k.force_threshold) {
        Some("click thresholds must be strictly increasing through force_threshold"@)
    } else if k.double_click_force_threshold < k.force_threshold {
        Some("clicks.double_click_force_threshold must be at least clicks.force_threshold"@)
    } else if f.double_click_window_negative {
        Some("clicks.double_click_window_ms must not be negative"@)
    } else if f.pending_left_ms_negative {
        Some("input.pending_left_ms must not be negative"@)
    } else if f.pending_left_motion_negative {
        Some("input.pending_left_motion must not be negative"@)
    } else if f.x_scale_not_finite {
        Some("input.multi_touch_motion_x_scale must be finite"@)
    } else if f.y_scale_not_finite {
        Some("input.multi_touch_motion_y_scale must be finite"@)
    } else if k.normal_release_threshold < 0 || k.normal_release_threshold >= k.normal_threshold {
        Some("clicks.normal_release_threshold must be below clicks.normal_threshold"@)
    } else {
        None
    }
}

/// The first failing check of the drag release settings (only when on).
pub open spec fn spec_check_drag_release(c: Config, f: FloatChecks) -> Option<Seq<char>> {
    if !c.drag_release.enabled {
        None
    } else if f.drag_release_movement_below_one {
        Some("drag_release.movement must be at least 1"@)
    } else if !(0 <= c.drag_release.threshold <= 255) {
        Some("drag_release.threshold must be in byte range 0..255"@)
    } else if c.drag_release.threshold >= c.clicks.normal_threshold {
        Some("drag_release.threshold must be below clicks.normal_threshold"@)
    } else {
        None
    }
}

/// The first failing check of the drag haptics settings (only when on).
pub open spec fn spec_check_drag(c: Config, f: FloatChecks) -> Option<Seq<char>> {
    if !c.drag.enabled {
        None
    } else if f.drag_min_gap_below_20 {
        Some("drag_haptics.min_gap_ms must be at least 20"@)
    } else if f.drag_down_not_below_min_gap {
        Some("drag_haptics.down_ms must be smaller than drag_haptics.min_gap_ms"@)
    } else if f.drag_two_finger_min_gap_below_20 {
        Some("drag_haptics.two_finger_min_gap_ms must be at least 20"@)
    } else if f.drag_down_not_below_two_finger_min_gap {
        Some("drag_haptics.down_ms must be smaller than drag_haptics.two_finger_min_gap_ms"@)
    } else if f.drag_three_finger_min_gap_below_20 {
        Some("drag_haptics.three_finger_min_gap_ms must be at least 20"@)
    } else if f.drag_down_not_below_three_finger_min_gap {
        Some("drag_haptics.down_ms must be smaller than drag_haptics.three_finger_min_gap_ms"@)
    } else if f.drag_distance_below_one {
        Some("drag_haptics.distance must be at least 1"@)
    } else if f.drag_two_finger_distance_below_one {
        Some("drag_haptics.two_finger_distance must be at least 1"@)
    } else if f.drag_three_finger_distance_below_one {
        Some("drag_haptics.three_finger_distance must be at least 1"@)
    } else if f.drag_motion_epsilon_negative {
        Some("drag_haptics.motion_epsilon must not be negative"@)
    } else if f.drag_click_silence_negative {
        Some("drag_haptics.click_silence_ms must not be negative"@)
    } else if c.drag.max_pressure matches Some(m) && !(0 <= m <= 255) {
        Some("drag_haptics.max_pressure must be in byte range 0..255"@)
    } else {
        None
    }
}

/// The first failing check of the ridge haptics settings (only when on).
pub open spec fn spec_check_ridge(c: Config, f: FloatChecks) -> Option<Seq<char>> {
    let r = c.ridge;
    if !r.enabled {
        None
    } else if f.ridge_deadband_below_one {
        Some("ridge_haptics.deadband must be at least 1"@)
    } else if !(1 <= r.grid_columns <= 16) {
        Some("ridge_haptics.grid_columns must be between 1 and 16"@)
    } else if !(1 <= r.grid_rows <= 16) {
        Some("ridge_haptics.grid_rows must be between 1 and 16"@)
    } else if f.ridge_x_range_empty {
        Some("ridge_haptics.grid_x_min must be less than grid_x_max"@)
    } else if f.ridge_y_range_empty {
        Some("ridge_haptics.grid_y_min must be less than grid_y_max"@)
    } else if r.grid_columns > 1 && f.ridge_deadband_not_below_column_width {
        Some("ridge_haptics.deadband must be smaller than grid column width"@)
    } else if r.grid_rows > 1 && f.ridge_deadband_not_below_row_height {
        Some("ridge_haptics.deadband must be smaller than grid row height"@)
    } else if f.ridge_min_gap_below_20 {
        Some("ridge_haptics.min_gap_ms must be at least 20"@)
    } else if f.ridge_down_not_below_min_gap {
        Some("ridge_haptics.down_ms must be smaller than ridge_haptics.min_gap_ms"@)
    } else if !(1 <= r.pulses <= 3) {
        Some("ridge_haptics.pulses must be between 1 and 3"@)
    } else if f.ridge_pulse_gap_below_5 {
        Some("ridge_haptics.pulse_gap_ms must be at least 5"@)
    } else if f.ridge_burst_not_below_min_gap {
        Some("ridge haptic burst must be shorter than ridge_haptics.min_gap_ms"@)
    } else {
        None
    }
}

/// The message of the first failing check, in the order clicks and input,
/// drag release, drag haptics, ridge haptics; none when all pass.
pub open spec fn spec_validate_config(c: Config, f: FloatChecks) -> Option<Seq<char>> {
    match spec_check_clicks(c, f) {
        Some(m) => Some(m),
        None => match spec_check_drag_release(c, f) {
            Some(m) => Some(m),
            None => match spec_check_drag(c, f) {
                Some(m) => Some(m),
                None => spec_check_ridge(c, f),
            },
        },
    }
}

fn check_clicks(c: &Config, f: &FloatChecks) -> (r: Option<&'static str>)
    ensures
        match (r, spec_check_clicks(*c, *f)) {
            (None, None) => true,
            (Some(a), Some(b)) => a@ == b,
            _ => false,
        },
{
    let k = &c.clicks;
    if !(k.reset_threshold < k.rearm_threshold && k.rearm_threshold < k.normal_threshold && k.normal_threshold
        < k.force_rearm_threshold && k.force_rearm_threshold < k.force_threshold) {
        return Some("click thresholds must be strictly increasing through force_threshold");
    }
    if k.double_click_force_threshold < k.force_threshold {
        return Some("clicks.double_click_force_threshold must be at least clicks.force_threshold");
    }
    if f.double_click_window_negative {
        return Some("clicks.double_click_window_ms must not be negative");
    }
    if f.pending_left_ms_negative {
        return Some("input.pending_left_ms must not be negative");
    }
    if f.pending_left_motion_negative {
        return Some("input.pending_left_motion must not be negative");
    }
    if f.x_scale_not_finite {
        return Some("input.multi_touch_motion_x_scale must be finite");
    }
    if f.y_scale_not_finite {
        return Some("input.multi_touch_motion_y_scale must be finite");
    }
    if k.normal_release_threshold < 0 || k.normal_release_threshold >= k.normal_threshold {
        return Some("clicks.normal_release_threshold must be below clicks.normal_threshold");
    }
    None
}

fn check_drag_release(c: &Config, f: &FloatChecks) -> (r: Option<&'static str>)
    ensures
        match (r, spec_check_drag_release(*c, *f)) {
            (None, None) => true,
            (Some(a), Some(b)) => a@ == b,
            _ => false,
        },
{
    if !c.drag_release.enabled {
        return None;
    }
    if f.drag_release_movement_below_one {
        return Some("drag_release.movement must be at least 1");
    }
    if !(0 <= c.drag_release.threshold && c.drag_release.threshold <= 255) {
        return Some("drag_release.threshold must be in byte range 0..255");
    }
    if c.drag_release.threshold >= c.clicks.normal_threshold {
        return Some("drag_release.threshold must be below clicks.normal_threshold");
    }
    None
}

fn check_drag(c: &Config, f: &FloatChecks) -> (r: Option<&'static str>)
    ensures
        match (r, spec_check_drag(*c, *f)) {
            (None, None) => true,
            (Some(a), Some(b)) => a@ == b,
            _ => false,
        },
{
    if !c.drag.enabled {
        return None;
    }
    if f.drag_min_gap_below_20 {
        return Some("drag_haptics.min_gap_ms must be at least 20");
    }
    if f.drag_down_not_below_min_gap {
        return Some("drag_haptics.down_ms must be smaller than drag_haptics.min_gap_ms");
    }
    if f.drag_two_finger_min_gap_below_20 {
        return Some("drag_haptics.two_finger_min_gap_ms must be at least 20");
    }
    if f.drag_down_not_below_two_finger_min_gap {
        return Some("drag_haptics.down_ms must be smaller than drag_haptics.two_finger_min_gap_ms");
    }
    if f.drag_three_finger_min_gap_below_20 {
        return Some("drag_haptics.three_finger_min_gap_ms must be at least 20");
    }
    if f.drag_down_not_below_three_finger_min_gap {
        return Some("drag_haptics.down_ms must be smaller than drag_haptics.three_finger_min_gap_ms");
    }
    if f.drag_distance_below_one {
        return Some("drag_haptics.distance must be at least 1");
    }
    if f.drag_two_finger_distance_below_one {
        return Some("drag_haptics.two_finger_distance must be at least 1");
    }
    if f.drag_three_finger_distance_below_one {
        return Some("drag_haptics.three_finger_distance must be at least 1");
    }
    if f.drag_motion_epsilon_negative {
        return Some("drag_haptics.motion_epsilon must not be negative");
    }
    if f.drag_click_silence_negative {
        return Some("drag_haptics.click_silence_ms must not be negative");
    }
    match c.drag.max_pressure {
        Some(m) => {
            if !(0 <= m && m <= 255) {
                return Some("drag_haptics.max_pressure must be in byte range 0..255");
            }
        },
        None => {},
    }
    None
}

fn check_ridge(c: &Config, f: &FloatChecks) -> (r: Option<&'static str>)
    ensures
        match (r, spec_check_ridge(*c, *f)) {
            (None, None) => true,
            (Some(a), Some(b)) => a@ == b,
            _ => false,
        },
{
    let r = &c.ridge;
    if !r.enabled {
        return None;
    }
    if f.ridge_deadband_below_one {
        return Some("ridge_haptics.deadband must be at least 1");
    }
    if !(1 <= r.grid_columns && r.grid_columns <= 16) {
        return Some("ridge_haptics.grid_columns must be between 1 and 16");
    }
    if !(1 <= r.grid_rows && r.grid_rows <= 16) {
        return Some("ridge_haptics.grid_rows must be between 1 and 16");
    }
    if f.ridge_x_range_empty {
        return Some("ridge_haptics.grid_x_min must be less than grid_x_max");
    }
    if f.ridge_y_range_empty {
        return Some("ridge_haptics.grid_y_min must be less than grid_y_max");
    }
    if r.grid_columns > 1 && f.ridge_deadband_not_below_column_width {
        return Some("ridge_haptics.deadband must be smaller than grid column width");
    }
    if r.grid_rows > 1 && f.ridge_deadband_not_below_row_height {
        return Some("ridge_haptics.deadband must be smaller than grid row height");
    }
    if f.ridge_min_gap_below_20 {
        return Some("ridge_haptics.min_gap_ms must be at least 20");
    }
    if f.ridge_down_not_below_min_gap {
        return Some("ridge_haptics.down_ms must be smaller than ridge_haptics.min_gap_ms");
    }
    if !(1 <= r.pulses && r.pulses <= 3) {
        return Some("ridge_haptics.pulses must be between 1 and 3");
    }
    if f.ridge_pulse_gap_below_5 {
        return Some("ridge_haptics.pulse_gap_ms must be at least 5");
    }
    if f.ridge_burst_not_below_min_gap {
        return Some("ridge haptic burst must be shorter than ridge_haptics.min_gap_ms");
    }
    None
}

/// Checks the consistency of the settings: the first failing check's
/// message (see `spec_validate_config`), or success.
pub fn validate_config(config: &Config, floats: &FloatChecks) -> (r: Result<(), String>)
    ensures
        match spec_validate_config(*config, *floats) {
            None => r is Ok,
            Some(m) => r matches Err(e) && e@ == m,
        },
{
    let m = match check_clicks(config, floats) {
        Some(m) => Some(m),
        None => match check_drag_release(config, floats) {
            Some(m) => Some(m),
            None => match check_drag(config, floats) {
                Some(m) => Some(m),
                None => check_ridge(config, floats),
            },
        },
    };
    match m {
        Some(m) => Err(m.to_owned()),
        None => Ok(()),
    }
}

/// Valid settings order the click thresholds: reset below re-arm below
/// normal below force re-arm below force, the double-click threshold at
/// least the force threshold, the normal release threshold at least 0 and
/// below the normal threshold, and (when on) the drag release threshold a
/// byte below the normal threshold; ridge grids and pulse counts are within
/// their ranges.
pub proof fn lemma_valid_config_orders_thresholds(c: Config, f: FloatChecks)
    requires
        spec_validate_config(c, f) is None,
    ensures
        c.clicks.reset_threshold < c.clicks.rearm_threshold < c.clicks.normal_threshold
            < c.clicks.force_rearm_threshold < c.clicks.force_threshold,
        c.clicks.force_threshold <= c.clicks.double_click_force_threshold,
        0 <= c.clicks.normal_release_threshold < c.clicks.normal_threshold,
        c.drag_release.enabled ==> 0 <= c.drag_release.threshold < c.clicks.normal_threshold,
        c.drag_release.threshold <= 255 || !c.drag_release.enabled,
        c.ridge.enabled ==> 1 <= c.ridge.grid_columns <= 16 && 1 <= c.ridge.grid_rows <= 16 && 1
            <= c.ridge.pulses <= 3,
{
}

/// The settings pass validation exactly when every check of every section
/// passes: the click thresholds and input checks always; the drag release
/// checks when drag release is on; every drag haptics check (gaps, down
/// time, distances, motion epsilon, click silence, maximum pressure) when
/// drag haptics are on; and every ridge check (deadband, grid size and
/// ranges, cell sizes where there is more than one cell, gaps, pulses, burst)
/// when ridge haptics are on.
pub proof fn lemma_valid_config_exactly_when_checks_pass(c: Config, f: FloatChecks)
    ensures
        (spec_validate_config(c, f) is None) == ({
            let k = c.clicks;
            let r = c.ridge;
            &&& k.reset_threshold < k.rearm_threshold < k.normal_threshold < k.force_rearm_threshold
                < k.force_threshold
            &&& k.force_threshold <= k.double_click_force_threshold
            &&& !f.double_click_window_negative
            &&& !f.pending_left_ms_negative
            &&& !f.pending_left_motion_negative
            &&& !f.x_scale_not_finite
            &&& !f.y_scale_not_finite
            &&& 0 <= k.normal_release_threshold < k.normal_threshold
            &&& c.drag_release.enabled ==> {
                &&& !f.drag_release_movement_below_one
                &&& 0 <= c.drag_release.threshold <= 255
                &&& c.drag_release.threshold < k.normal_threshold
            }
            &&& c.drag.enabled ==> {
                &&& !f.drag_min_gap_below_20
                &&& !f.drag_down_not_below_min_gap
                &&& !f.drag_two_finger_min_gap_below_20
                &&& !f.drag_down_not_below_two_finger_min_gap
                &&& !f.drag_three_finger_min_gap_below_20
                &&& !f.drag_down_not_below_three_finger_min_gap
                &&& !f.drag_distance_below_one
                &&& !f.drag_two_finger_distance_below_one
                &&& !f.drag_three_finger_distance_below_one
                &&& !f.drag_motion_epsilon_negative
                &&& !f.drag_click_silence_negative
                &&& (c.drag.max_pressure matches Some(m) ==> 0 <= m <= 255)
            }
            &&& r.enabled ==> {
                &&& !f.ridge_deadband_below_one
                &&& 1 <= r.grid_columns <= 16
                &&& 1 <= r.grid_rows <= 16
                &&& !f.ridge_x_range_empty
                &&& !f.ridge_y_range_empty
                &&& (r.grid_columns > 1 ==> !f.ridge_deadband_not_below_column_width)
                &&& (r.grid_rows > 1 ==> !f.ridge_deadband_not_below_row_height)
                &&& !f.ridge_min_gap_below_20
                &&& !f.ridge_down_not_below_min_gap
                &&& 1 <= r.pulses <= 3
                &&& !f.ridge_pulse_gap_below_5
                &&& !f.ridge_burst_not_below_min_gap
            }
        }),
{
}

/// Whether the ridge haptics use a grid rather than a single ridge.
pub fn grid_enabled(c: &Config) -> (g: bool)
    ensures
        g == (c.ridge.grid_columns > 1 || c.ridge.grid_rows > 1),
{
    c.ridge.grid_columns > 1 || c.ridge.grid_rows > 1
}

/// The settings that the click state machine reads; the caller tells
/// whether `input.pending_left_ms` and `release.stacked_release_gap_ms`
/// are positive.
pub fn click_settings(c: &Config, pending_left_positive: bool, stacked_gap_positive: bool) -> (s: ClickSettings)
    ensures
        s == (ClickSettings {
            normal_threshold: c.clicks.normal_threshold,
            force_threshold: c.clicks.force_threshold,
            double_click_force_threshold: c.clicks.double_click_force_threshold,
            reset_threshold: c.clicks.reset_threshold,
            rearm_threshold: c.clicks.rearm_threshold,
            force_rearm_threshold: c.clicks.force_rearm_threshold,
            normal_release_threshold: c.clicks.normal_release_threshold,
            release_drop: c.release.drop,
            drag_release_enabled: c.drag_release.enabled,
            drag_release_threshold: c.drag_release.threshold,
            input_enabled: c.input.enabled,
            force_button: c.input.force_button,
            pending_left_enabled: pending_left_positive,
            stacked_release_gap_enabled: stacked_gap_positive,
        }),
{
    ClickSettings {
        normal_threshold: c.clicks.normal_threshold,
        force_threshold: c.clicks.force_threshold,
        double_click_force_threshold: c.clicks.double_click_force_threshold,
        reset_threshold: c.clicks.reset_threshold,
        rearm_threshold: c.clicks.rearm_threshold,
        force_rearm_threshold: c.clicks.force_rearm_threshold,
        normal_release_threshold: c.clicks.normal_release_threshold,
        release_drop: c.release.drop,
        drag_release_enabled: c.drag_release.enabled,
        drag_release_threshold: c.drag_release.threshold,
        input_enabled: c.input.enabled,
        force_button: c.input.force_button,
        pending_left_enabled: pending_left_positive,
        stacked_release_gap_enabled: stacked_gap_positive,
    }
}

/// The haptic parameters that the reports are built from.
pub fn report_params(c: &Config) -> (p: ReportParams)
    ensures
        p == (ReportParams {
            down_param: c.haptics.down_param,
            up_param: c.haptics.up_param,
            normal_down_byte3: c.haptics.normal_down_byte3,
            normal_up_byte3: c.haptics.normal_up_byte3,
            force_down_byte3: c.haptics.force_down_byte3,
            force_up_byte3: c.haptics.force_up_byte3,
            ridge_down_param: c.ridge.down_param,
            ridge_up_param: c.ridge.up_param,
            ridge_down_byte3: c.ridge.down_byte3,
            ridge_up_byte3: c.ridge.up_byte3,
        }),
{
    ReportParams {
        down_param: c.haptics.down_param,
        up_param: c.haptics.up_param,
        normal_down_byte3: c.haptics.normal_down_byte3,
        normal_up_byte3: c.haptics.normal_up_byte3,
        force_down_byte3: c.haptics.force_down_byte3,
        force_up_byte3: c.haptics.force_up_byte3,
        ridge_down_param: c.ridge.down_param,
        ridge_up_param: c.ridge.up_param,
        ridge_down_byte3: c.ridge.down_byte3,
        ridge_up_byte3: c.ridge.up_byte3,
    }
}

} // verus!

verus! {

/// Whether drag haptics apply to this many fingers: any count in `any`
/// mode, two or three fingers in `scroll` mode.
pub open spec fn spec_drag_touch_count_allowed(mode: DragMode, touch_count: nat) -> bool {
    mode == DragMode::Any || (mode == DragMode::Scroll && (touch_count == 2 || touch_count == 3))
}

/// Whether drag haptics apply to this many fingers.
pub fn drag_touch_count_allowed(mode: DragMode, touch_count: usize) -> (a: bool)
    ensures
        a == spec_drag_touch_count_allowed(mode, touch_count as nat),
{
    match mode {
        DragMode::Any => true,
        DragMode::Scroll => touch_count == 2 || touch_count == 3,
    }
}

/// Whether drag haptics apply at this pressure: always without a maximum,
/// otherwise up to the maximum.
pub fn drag_pressure_allowed(max_pressure: Option<i32>, pressure: i32) -> (a: bool)
    ensures
        a == match max_pressure {
            Some(m) => pressure <= m,
            None => true,
        },
{
    match max_pressure {
        Some(m) => pressure <= m,
        None => true,
    }
}

} // verus!

verus! {

/// Every configuration key is recognised under its own name.
#[verifier::rlimit(100)]
pub proof fn lemma_config_key_names_recognised(k: ConfigKey)
    ensures
        spec_config_key(spec_config_key_name(k)) == Some(k),
{
    // The names differ in length, or else in the character asserted below.
    reveal_strlit("device.path");
    reveal_strlit("device.restore_on_exit");
    reveal_strlit("device.settle_ms");
    reveal_strlit("input.enabled");
    reveal_strlit("input.force_button");
    reveal_strlit("input.pending_left_ms");
    reveal_strlit("input.pending_left_motion");
    reveal_strlit("input.multi_touch_drag_motion");
    reveal_strlit("input.multi_touch_motion_x_scale");
    reveal_strlit("input.multi_touch_motion_y_scale");
    reveal_strlit("input.multi_touch_motion_debug");
    reveal_strlit("clicks.normal_threshold");
    reveal_strlit("clicks.force_threshold");
    reveal_strlit("clicks.double_click_force_threshold");
    reveal_strlit("clicks.double_click_window_ms");
    reveal_strlit("clicks.reset_threshold");
    reveal_strlit("clicks.rearm_threshold");
    reveal_strlit("clicks.force_rearm_threshold");
    reveal_strlit("clicks.normal_release_threshold");
    reveal_strlit("clicks.drag_release_threshold");
    reveal_strlit("clicks.drag_release_motion");
    reveal_strlit("clicks.min_gap_ms");
    reveal_strlit("release.drop");
    reveal_strlit("release.rate");
    reveal_strlit("release.lockout_ms");
    reveal_strlit("release.stacked_release_gap_ms");
    reveal_strlit("release.suppress_normal_up_after_force_ms");
    reveal_strlit("drag_release.enabled");
    reveal_strlit("drag_release.movement");
    reveal_strlit("drag_release.threshold");
    reveal_strlit("drag_release.debug");
    reveal_strlit("haptics.down_param");
    reveal_strlit("haptics.up_param");
    reveal_strlit("haptics.normal.down_byte3");
    reveal_strlit("haptics.normal.up_byte3");
    reveal_strlit("haptics.force.down_byte3");
    reveal_strlit("haptics.force.up_byte3");
    reveal_strlit("drag_haptics.enabled");
    reveal_strlit("drag_haptics.mode");
    reveal_strlit("drag_haptics.distance");
    reveal_strlit("drag_haptics.two_finger_distance");
    reveal_strlit("drag_haptics.three_finger_distance");
    reveal_strlit("drag_haptics.min_gap_ms");
    reveal_strlit("drag_haptics.two_finger_min_gap_ms");
    reveal_strlit("drag_haptics.three_finger_min_gap_ms");
    reveal_strlit("drag_haptics.down_ms");
    reveal_strlit("drag_haptics.motion_epsilon");
    reveal_strlit("drag_haptics.click_silence_ms");
    reveal_strlit("drag_haptics.max_pressure");
    reveal_strlit("drag_haptics.debug");
    reveal_strlit("ridge_haptics.enabled");
    reveal_strlit("ridge_haptics.position");
    reveal_strlit("ridge_haptics.grid_columns");
    reveal_strlit("ridge_haptics.grid_rows");
    reveal_strlit("ridge_haptics.grid_x_min");
    reveal_strlit("ridge_haptics.grid_x_max");
    reveal_strlit("ridge_haptics.grid_y_min");
    reveal_strlit("ridge_haptics.grid_y_max");
    reveal_strlit("ridge_haptics.deadband");
    reveal_strlit("ridge_haptics.min_gap_ms");
    reveal_strlit("ridge_haptics.down_ms");
    reveal_strlit("ridge_haptics.pulses");
    reveal_strlit("ridge_haptics.pulse_gap_ms");
    reveal_strlit("ridge_haptics.down_param");
    reveal_strlit("ridge_haptics.up_param");
    reveal_strlit("ridge_haptics.down_byte3");
    reveal_strlit("ridge_haptics.up_byte3");
    reveal_strlit("ridge_haptics.debug");
    assert("device.path"@.len() == 11);
    assert("device.restore_on_exit"@.len() == 22);
    assert("device.settle_ms"@.len() == 16);
    assert("input.enabled"@.len() == 13);
    assert("input.force_button"@.len() == 18);
    assert("input.pending_left_ms"@.len() == 21);
    assert("input.pending_left_motion"@.len() == 25);
    assert("input.multi_touch_drag_motion"@.len() == 29);
    assert("input.multi_touch_motion_x_scale"@.len() == 32);
    assert("input.multi_touch_motion_y_scale"@.len() == 32);
    assert("input.multi_touch_motion_debug"@.len() == 30);
    assert("clicks.normal_threshold"@.len() == 23);
    assert("clicks.force_threshold"@.len() == 22);
    assert("clicks.double_click_force_threshold"@.len() == 35);
    assert("clicks.double_click_window_ms"@.len() == 29);
    assert("clicks.reset_threshold"@.len() == 22);
    assert("clicks.rearm_threshold"@.len() == 22);
    assert("clicks.force_rearm_threshold"@.len() == 28);
    assert("clicks.normal_release_threshold"@.len() == 31);
    assert("clicks.drag_release_threshold"@.len() == 29);
    assert("clicks.drag_release_motion"@.len() == 26);
    assert("clicks.min_gap_ms"@.len() == 17);
    assert("release.drop"@.len() == 12);
    assert("release.rate"@.len() == 12);
    assert("release.lockout_ms"@.len() == 18);
    assert("release.stacked_release_gap_ms"@.len() == 30);
    assert("release.suppress_normal_up_after_force_ms"@.len() == 41);
    assert("drag_release.enabled"@.len() == 20);
    assert("drag_release.movement"@.len() == 21);
    assert("drag_release.threshold"@.len() == 22);
    assert("drag_release.debug"@.len() == 18);
    assert("haptics.down_param"@.len() == 18);
    assert("haptics.up_param"@.len() == 16);
    assert("haptics.normal.down_byte3"@.len() == 25);
    assert("haptics.normal.up_byte3"@.len() == 23);
    assert("haptics.force.down_byte3"@.len() == 24);
    assert("haptics.force.up_byte3"@.len() == 22);
    assert("drag_haptics.enabled"@.len() == 20);
    assert("drag_haptics.mode"@.len() == 17);
    assert("drag_haptics.distance"@.len() == 21);
    assert("drag_haptics.two_finger_distance"@.len() == 32);
    assert("drag_haptics.three_finger_distance"@.len() == 34);
    assert("drag_haptics.min_gap_ms"@.len() == 23);
    assert("drag_haptics.two_finger_min_gap_ms"@.len() == 34);
    assert("drag_haptics.three_finger_min_gap_ms"@.len() == 36);
    assert("drag_haptics.down_ms"@.len() == 20);
    assert("drag_haptics.motion_epsilon"@.len() == 27);
    assert("drag_haptics.click_silence_ms"@.len() == 29);
    assert("drag_haptics.max_pressure"@.len() == 25);
    assert("drag_haptics.debug"@.len() == 18);
    assert("ridge_haptics.enabled"@.len() == 21);
    assert("ridge_haptics.position"@.len() == 22);
    assert("ridge_haptics.grid_columns"@.len() == 26);
    assert("ridge_haptics.grid_rows"@.len() == 23);
    assert("ridge_haptics.grid_x_min"@.len() == 24);
    assert("ridge_haptics.grid_x_max"@.len() == 24);
    assert("ridge_haptics.grid_y_min"@.len() == 24);
    assert("ridge_haptics.grid_y_max"@.len() == 24);
    assert("ridge_haptics.deadband"@.len() == 22);
    assert("ridge_haptics.min_gap_ms"@.len() == 24);
    assert("ridge_haptics.down_ms"@.len() == 21);
    assert("ridge_haptics.pulses"@.len() == 20);
    assert("ridge_haptics.pulse_gap_ms"@.len() == 26);
    assert("ridge_haptics.down_param"@.len() == 24);
    assert("ridge_haptics.up_param"@.len() == 22);
    assert("ridge_haptics.down_byte3"@.len() == 24);
    assert("ridge_haptics.up_byte3"@.len() == 22);
    assert("ridge_haptics.debug"@.len() == 19);
    assert("input.multi_touch_motion_x_scale"@[25] != "input.multi_touch_motion_y_scale"@[25]);
    assert("device.restore_on_exit"@[0] != "clicks.force_threshold"@[0]);
    assert("input.multi_touch_drag_motion"@[0] != "clicks.double_click_window_ms"@[0]);
    assert("device.restore_on_exit"@[0] != "clicks.reset_threshold"@[0]);
    assert("clicks.force_threshold"@[7] != "clicks.reset_threshold"@[7]);
    assert("device.restore_on_exit"@[0] != "clicks.rearm_threshold"@[0]);
    assert("clicks.force_threshold"@[7] != "clicks.rearm_threshold"@[7]);
    assert("clicks.reset_threshold"@[9] != "clicks.rearm_threshold"@[9]);
    assert("input.multi_touch_drag_motion"@[0] != "clicks.drag_release_threshold"@[0]);
    assert("clicks.double_click_window_ms"@[8] != "clicks.drag_release_threshold"@[8]);
    assert("release.drop"@[8] != "release.rate"@[8]);
    assert("input.force_button"@[0] != "release.lockout_ms"@[0]);
    assert("input.multi_touch_motion_debug"@[0] != "release.stacked_release_gap_ms"@[0]);
    assert("input.pending_left_ms"@[0] != "drag_release.movement"@[0]);
    assert("device.restore_on_exit"@[1] != "drag_release.threshold"@[1]);
    assert("clicks.force_threshold"@[0] != "drag_release.threshold"@[0]);
    assert("clicks.reset_threshold"@[0] != "drag_release.threshold"@[0]);
    assert("clicks.rearm_threshold"@[0] != "drag_release.threshold"@[0]);
    assert("input.force_button"@[0] != "drag_release.debug"@[0]);
    assert("release.lockout_ms"@[0] != "drag_release.debug"@[0]);
    assert("input.force_button"@[0] != "haptics.down_param"@[0]);
    assert("release.lockout_ms"@[0] != "haptics.down_param"@[0]);
    assert("drag_release.debug"@[0] != "haptics.down_param"@[0]);
    assert("device.settle_ms"@[0] != "haptics.up_param"@[0]);
    assert("input.pending_left_motion"@[0] != "haptics.normal.down_byte3"@[0]);
    assert("clicks.normal_threshold"@[0] != "haptics.normal.up_byte3"@[0]);
    assert("device.restore_on_exit"@[0] != "haptics.force.up_byte3"@[0]);
    assert("clicks.force_threshold"@[0] != "haptics.force.up_byte3"@[0]);
    assert("clicks.reset_threshold"@[0] != "haptics.force.up_byte3"@[0]);
    assert("clicks.rearm_threshold"@[0] != "haptics.force.up_byte3"@[0]);
    assert("drag_release.threshold"@[0] != "haptics.force.up_byte3"@[0]);
    assert("drag_release.enabled"@[5] != "drag_haptics.enabled"@[5]);
    assert("clicks.min_gap_ms"@[0] != "drag_haptics.mode"@[0]);
    assert("input.pending_left_ms"@[0] != "drag_haptics.distance"@[0]);
    assert("drag_release.movement"@[5] != "drag_haptics.distance"@[5]);
    assert("input.multi_touch_motion_x_scale"@[0] != "drag_haptics.two_finger_distance"@[0]);
    assert("input.multi_touch_motion_y_scale"@[0] != "drag_haptics.two_finger_distance"@[0]);
    assert("clicks.normal_threshold"@[0] != "drag_haptics.min_gap_ms"@[0]);
    assert("haptics.normal.up_byte3"@[0] != "drag_haptics.min_gap_ms"@[0]);
    assert("drag_haptics.three_finger_distance"@[14] != "drag_haptics.two_finger_min_gap_ms"@[14]);
    assert("drag_release.enabled"@[5] != "drag_haptics.down_ms"@[5]);
    assert("drag_haptics.enabled"@[13] != "drag_haptics.down_ms"@[13]);
    assert("input.multi_touch_drag_motion"@[0] != "drag_haptics.click_silence_ms"@[0]);
    assert("clicks.double_click_window_ms"@[0] != "drag_haptics.click_silence_ms"@[0]);
    assert("clicks.drag_release_threshold"@[0] != "drag_haptics.click_silence_ms"@[0]);
    assert("input.pending_left_motion"@[0] != "drag_haptics.max_pressure"@[0]);
    assert("haptics.normal.down_byte3"@[0] != "drag_haptics.max_pressure"@[0]);
    assert("input.force_button"@[0] != "drag_haptics.debug"@[0]);
    assert("release.lockout_ms"@[0] != "drag_haptics.debug"@[0]);
    assert("drag_release.debug"@[5] != "drag_haptics.debug"@[5]);
    assert("haptics.down_param"@[0] != "drag_haptics.debug"@[0]);
    assert("input.pending_left_ms"@[0] != "ridge_haptics.enabled"@[0]);
    assert("drag_release.movement"@[0] != "ridge_haptics.enabled"@[0]);
    assert("drag_haptics.distance"@[0] != "ridge_haptics.enabled"@[0]);
    assert("device.restore_on_exit"@[0] != "ridge_haptics.position"@[0]);
    assert("clicks.force_threshold"@[0] != "ridge_haptics.position"@[0]);
    assert("clicks.reset_threshold"@[0] != "ridge_haptics.position"@[0]);
    assert("clicks.rearm_threshold"@[0] != "ridge_haptics.position"@[0]);
    assert("drag_release.threshold"@[0] != "ridge_haptics.position"@[0]);
    assert("haptics.force.up_byte3"@[0] != "ridge_haptics.position"@[0]);
    assert("clicks.drag_release_motion"@[0] != "ridge_haptics.grid_columns"@[0]);
    assert("clicks.normal_threshold"@[0] != "ridge_haptics.grid_rows"@[0]);
    assert("haptics.normal.up_byte3"@[0] != "ridge_haptics.grid_rows"@[0]);
    assert("drag_haptics.min_gap_ms"@[0] != "ridge_haptics.grid_rows"@[0]);
    assert("haptics.force.down_byte3"@[0] != "ridge_haptics.grid_x_min"@[0]);
    assert("haptics.force.down_byte3"@[0] != "ridge_haptics.grid_x_max"@[0]);
    assert("ridge_haptics.grid_x_min"@[22] != "ridge_haptics.grid_x_max"@[22]);
    assert("haptics.force.down_byte3"@[0] != "ridge_haptics.grid_y_min"@[0]);
    assert("ridge_haptics.grid_x_min"@[19] != "ridge_haptics.grid_y_min"@[19]);
    assert("ridge_haptics.grid_x_max"@[19] != "ridge_haptics.grid_y_min"@[19]);
    assert("haptics.force.down_byte3"@[0] != "ridge_haptics.grid_y_max"@[0]);
    assert("ridge_haptics.grid_x_min"@[19] != "ridge_haptics.grid_y_max"@[19]);
    assert("ridge_haptics.grid_x_max"@[19] != "ridge_haptics.grid_y_max"@[19]);
    assert("ridge_haptics.grid_y_min"@[22] != "ridge_haptics.grid_y_max"@[22]);
    assert("device.restore_on_exit"@[0] != "ridge_haptics.deadband"@[0]);
    assert("clicks.force_threshold"@[0] != "ridge_haptics.deadband"@[0]);
    assert("clicks.reset_threshold"@[0] != "ridge_haptics.deadband"@[0]);
    assert("clicks.rearm_threshold"@[0] != "ridge_haptics.deadband"@[0]);
    assert("drag_release.threshold"@[0] != "ridge_haptics.deadband"@[0]);
    assert("haptics.force.up_byte3"@[0] != "ridge_haptics.deadband"@[0]);
    assert("ridge_haptics.position"@[14] != "ridge_haptics.deadband"@[14]);
    assert("haptics.force.down_byte3"@[0] != "ridge_haptics.min_gap_ms"@[0]);
    assert("ridge_haptics.grid_x_min"@[14] != "ridge_haptics.min_gap_ms"@[14]);
    assert("ridge_haptics.grid_x_max"@[14] != "ridge_haptics.min_gap_ms"@[14]);
    assert("ridge_haptics.grid_y_min"@[14] != "ridge_haptics.min_gap_ms"@[14]);
    assert("ridge_haptics.grid_y_max"@[14] != "ridge_haptics.min_gap_ms"@[14]);
    assert("input.pending_left_ms"@[0] != "ridge_haptics.down_ms"@[0]);
    assert("drag_release.movement"@[0] != "ridge_haptics.down_ms"@[0]);
    assert("drag_haptics.distance"@[0] != "ridge_haptics.down_ms"@[0]);
    assert("ridge_haptics.enabled"@[14] != "ridge_haptics.down_ms"@[14]);
    assert("drag_release.enabled"@[0] != "ridge_haptics.pulses"@[0]);
    assert("drag_haptics.enabled"@[0] != "ridge_haptics.pulses"@[0]);
    assert("drag_haptics.down_ms"@[0] != "ridge_haptics.pulses"@[0]);
    assert("clicks.drag_release_motion"@[0] != "ridge_haptics.pulse_gap_ms"@[0]);
    assert("ridge_haptics.grid_columns"@[14] != "ridge_haptics.pulse_gap_ms"@[14]);
    assert("haptics.force.down_byte3"@[0] != "ridge_haptics.down_param"@[0]);
    assert("ridge_haptics.grid_x_min"@[14] != "ridge_haptics.down_param"@[14]);
    assert("ridge_haptics.grid_x_max"@[14] != "ridge_haptics.down_param"@[14]);
    assert("ridge_haptics.grid_y_min"@[14] != "ridge_haptics.down_param"@[14]);
    assert("ridge_haptics.grid_y_max"@[14] != "ridge_haptics.down_param"@[14]);
    assert("ridge_haptics.min_gap_ms"@[14] != "ridge_haptics.down_param"@[14]);
    assert("device.restore_on_exit"@[0] != "ridge_haptics.up_param"@[0]);
    assert("clicks.force_threshold"@[0] != "ridge_haptics.up_param"@[0]);
    assert("clicks.reset_threshold"@[0] != "ridge_haptics.up_param"@[0]);
    assert("clicks.rearm_threshold"@[0] != "ridge_haptics.up_param"@[0]);
    assert("drag_release.threshold"@[0] != "ridge_haptics.up_param"@[0]);
    assert("haptics.force.up_byte3"@[0] != "ridge_haptics.up_param"@[0]);
    assert("ridge_haptics.position"@[14] != "ridge_haptics.up_param"@[14]);
    assert("ridge_haptics.deadband"@[14] != "ridge_haptics.up_param"@[14]);
    assert("haptics.force.down_byte3"@[0] != "ridge_haptics.down_byte3"@[0]);
    assert("ridge_haptics.grid_x_min"@[14] != "ridge_haptics.down_byte3"@[14]);
    assert("ridge_haptics.grid_x_max"@[14] != "ridge_haptics.down_byte3"@[14]);
    assert("ridge_haptics.grid_y_min"@[14] != "ridge_haptics.down_byte3"@[14]);
    assert("ridge_haptics.grid_y_max"@[14] != "ridge_haptics.down_byte3"@[14]);
    assert("ridge_haptics.min_gap_ms"@[14] != "ridge_haptics.down_byte3"@[14]);
    assert("ridge_haptics.down_param"@[19] != "ridge_haptics.down_byte3"@[19]);
    assert("device.restore_on_exit"@[0] != "ridge_haptics.up_byte3"@[0]);
    assert("clicks.force_threshold"@[0] != "ridge_haptics.up_byte3"@[0]);
    assert("clicks.reset_threshold"@[0] != "ridge_haptics.up_byte3"@[0]);
    assert("clicks.rearm_threshold"@[0] != "ridge_haptics.up_byte3"@[0]);
    assert("drag_release.threshold"@[0] != "ridge_haptics.up_byte3"@[0]);
    assert("haptics.force.up_byte3"@[0] != "ridge_haptics.up_byte3"@[0]);
    assert("ridge_haptics.position"@[14] != "ridge_haptics.up_byte3"@[14]);
    assert("ridge_haptics.deadband"@[14] != "ridge_haptics.up_byte3"@[14]);
    assert("ridge_haptics.up_param"@[17] != "ridge_haptics.up_byte3"@[17]);
}

} // verus!

verus! {

/// A stored (not floating-point) setting of `Config`.
#[derive(Clone, Copy, Debug, PartialEq, Eq, Structural)]
pub enum Setting {
    DevicePath,
    DeviceRestoreOnExit,
    InputEnabled,
    InputForceButton,
    InputMultiTouchDragMotion,
    InputMultiTouchMotionDebug,
    ClicksNormalThreshold,
    ClicksForceThreshold,
    ClicksDoubleClickForceThreshold,
    ClicksResetThreshold,
    ClicksRearmThreshold,
    ClicksForceRearmThreshold,
    ClicksNormalReleaseThreshold,
    DragReleaseThreshold,
    ReleaseDrop,
    DragReleaseEnabled,
    DragReleaseDebug,
    HapticsDownParam,
    HapticsUpParam,
    HapticsNormalDownByte3,
    HapticsNormalUpByte3,
    HapticsForceDownByte3,
    HapticsForceUpByte3,
    DragHapticsEnabled,
    DragHapticsMode,
    DragHapticsMaxPressure,
    DragHapticsDebug,
    RidgeHapticsEnabled,
    RidgeHapticsGridColumns,
    RidgeHapticsGridRows,
    RidgeHapticsPulses,
    RidgeHapticsDownParam,
    RidgeHapticsUpParam,
    RidgeHapticsDownByte3,
    RidgeHapticsUpByte3,
    RidgeHapticsDebug,
}

/// The stored setting that a key writes, or none for a floating-point key.
pub open spec fn setting_of(k: ConfigKey) -> Option<Setting> {
    match k {
        ConfigKey::DevicePath => Some(Setting::DevicePath),
        ConfigKey::DeviceRestoreOnExit => Some(Setting::DeviceRestoreOnExit),
        ConfigKey::DeviceSettleMs => None,
        ConfigKey::InputEnabled => Some(Setting::InputEnabled),
        ConfigKey::InputForceButton => Some(Setting::InputForceButton),
        ConfigKey::InputPendingLeftMs => None,
        ConfigKey::InputPendingLeftMotion => None,
        ConfigKey::InputMultiTouchDragMotion => Some(Setting::InputMultiTouchDragMotion),
        ConfigKey::InputMultiTouchMotionXScale => None,
        ConfigKey::InputMultiTouchMotionYScale => None,
        ConfigKey::InputMultiTouchMotionDebug => Some(Setting::InputMultiTouchMotionDebug),
        ConfigKey::ClicksNormalThreshold => Some(Setting::ClicksNormalThreshold),
        ConfigKey::ClicksForceThreshold => Some(Setting::ClicksForceThreshold),
        ConfigKey::ClicksDoubleClickForceThreshold => Some(Setting::ClicksDoubleClickForceThreshold),
        ConfigKey::ClicksDoubleClickWindowMs => None,
        ConfigKey::ClicksResetThreshold => Some(Setting::ClicksResetThreshold),
        ConfigKey::ClicksRearmThreshold => Some(Setting::ClicksRearmThreshold),
        ConfigKey::ClicksForceRearmThreshold => Some(Setting::ClicksForceRearmThreshold),
        ConfigKey::ClicksNormalReleaseThreshold => Some(Setting::ClicksNormalReleaseThreshold),
        ConfigKey::ClicksDragReleaseThreshold => Some(Setting::DragReleaseThreshold),
        ConfigKey::ClicksDragReleaseMotion => None,
        ConfigKey::ClicksMinGapMs => None,
        ConfigKey::ReleaseDrop => Some(Setting::ReleaseDrop),
        ConfigKey::ReleaseRate => None,
        ConfigKey::ReleaseLockoutMs => None,
        ConfigKey::ReleaseStackedReleaseGapMs => None,
        ConfigKey::ReleaseSuppressNormalUpAfterForceMs => None,
        ConfigKey::DragReleaseEnabled => Some(Setting::DragReleaseEnabled),
        ConfigKey::DragReleaseMovement => None,
        ConfigKey::DragReleaseThreshold => Some(Setting::DragReleaseThreshold),
        ConfigKey::DragReleaseDebug => Some(Setting::DragReleaseDebug),
        ConfigKey::HapticsDownParam => Some(Setting::HapticsDownParam),
        ConfigKey::HapticsUpParam => Some(Setting::HapticsUpParam),
        ConfigKey::HapticsNormalDownByte3 => Some(Setting::HapticsNormalDownByte3),
        ConfigKey::HapticsNormalUpByte3 => Some(Setting::HapticsNormalUpByte3),
        ConfigKey::HapticsForceDownByte3 => Some(Setting::HapticsForceDownByte3),
        ConfigKey::HapticsForceUpByte3 => Some(Setting::HapticsForceUpByte3),
        ConfigKey::DragHapticsEnabled => Some(Setting::DragHapticsEnabled),
        ConfigKey::DragHapticsMode => Some(Setting::DragHapticsMode),
        ConfigKey::DragHapticsDistance => None,
        ConfigKey::DragHapticsTwoFingerDistance => None,
        ConfigKey::DragHapticsThreeFingerDistance => None,
        ConfigKey::DragHapticsMinGapMs => None,
        ConfigKey::DragHapticsTwoFingerMinGapMs => None,
        ConfigKey::DragHapticsThreeFingerMinGapMs => None,
        ConfigKey::DragHapticsDownMs => None,
        ConfigKey::DragHapticsMotionEpsilon => None,
        ConfigKey::DragHapticsClickSilenceMs => None,
        ConfigKey::DragHapticsMaxPressure => Some(Setting::DragHapticsMaxPressure),
        ConfigKey::DragHapticsDebug => Some(Setting::DragHapticsDebug),
        ConfigKey::RidgeHapticsEnabled => Some(Setting::RidgeHapticsEnabled),
        ConfigKey::RidgeHapticsPosition => None,
        ConfigKey::RidgeHapticsGridColumns => Some(Setting::RidgeHapticsGridColumns),
        ConfigKey::RidgeHapticsGridRows => Some(Setting::RidgeHapticsGridRows),
        ConfigKey::RidgeHapticsGridXMin => None,
        ConfigKey::RidgeHapticsGridXMax => None,
        ConfigKey::RidgeHapticsGridYMin => None,
        ConfigKey::RidgeHapticsGridYMax => None,
        ConfigKey::RidgeHapticsDeadband => None,
        ConfigKey::RidgeHapticsMinGapMs => None,
        ConfigKey::RidgeHapticsDownMs => None,
        ConfigKey::RidgeHapticsPulses => Some(Setting::RidgeHapticsPulses),
        ConfigKey::RidgeHapticsPulseGapMs => None,
        ConfigKey::RidgeHapticsDownParam => Some(Setting::RidgeHapticsDownParam),
        ConfigKey::RidgeHapticsUpParam => Some(Setting::RidgeHapticsUpParam),
        ConfigKey::RidgeHapticsDownByte3 => Some(Setting::RidgeHapticsDownByte3),
        ConfigKey::RidgeHapticsUpByte3 => Some(Setting::RidgeHapticsUpByte3),
        ConfigKey::RidgeHapticsDebug => Some(Setting::RidgeHapticsDebug),
    }
}

/// `c` with the setting `s` taken from `from`.
pub open spec fn with_setting(c: Config, from: Config, s: Setting) -> Config {
    match s {
        Setting::DevicePath => Config { device: DeviceConfig { path: from.device.path, ..c.device }, ..c },
        Setting::DeviceRestoreOnExit => Config { device: DeviceConfig { restore_on_exit: from.device.restore_on_exit, ..c.device }, ..c },
        Setting::InputEnabled => Config { input: InputConfig { enabled: from.input.enabled, ..c.input }, ..c },
        Setting::InputForceButton => Config { input: InputConfig { force_button: from.input.force_button, ..c.input }, ..c },
        Setting::InputMultiTouchDragMotion => Config { input: InputConfig { multi_touch_drag_motion: from.input.multi_touch_drag_motion, ..c.input }, ..c },
        Setting::InputMultiTouchMotionDebug => Config { input: InputConfig { multi_touch_motion_debug: from.input.multi_touch_motion_debug, ..c.input }, ..c },
        Setting::ClicksNormalThreshold => Config { clicks: ClickConfig { normal_threshold: from.clicks.normal_threshold, ..c.clicks }, ..c },
        Setting::ClicksForceThreshold => Config { clicks: ClickConfig { force_threshold: from.clicks.force_threshold, ..c.clicks }, ..c },
        Setting::ClicksDoubleClickForceThreshold => Config { clicks: ClickConfig { double_click_force_threshold: from.clicks.double_click_force_threshold, ..c.clicks }, ..c },
        Setting::ClicksResetThreshold => Config { clicks: ClickConfig { reset_threshold: from.clicks.reset_threshold, ..c.clicks }, ..c },
        Setting::ClicksRearmThreshold => Config { clicks: ClickConfig { rearm_threshold: from.clicks.rearm_threshold, ..c.clicks }, ..c },
        Setting::ClicksForceRearmThreshold => Config { clicks: ClickConfig { force_rearm_threshold: from.clicks.force_rearm_threshold, ..c.clicks }, ..c },
        Setting::ClicksNormalReleaseThreshold => Config { clicks: ClickConfig { normal_release_threshold: from.clicks.normal_release_threshold, ..c.clicks }, ..c },
        Setting::DragReleaseThreshold => Config { drag_release: DragReleaseConfig { threshold: from.drag_release.threshold, ..c.drag_release }, ..c },
        Setting::ReleaseDrop => Config { release: ReleaseConfig { drop: from.release.drop, ..c.release }, ..c },
        Setting::DragReleaseEnabled => Config { drag_release: DragReleaseConfig { enabled: from.drag_release.enabled, ..c.drag_release }, ..c },
        Setting::DragReleaseDebug => Config { drag_release: DragReleaseConfig { debug: from.drag_release.debug, ..c.drag_release }, ..c },
        Setting::HapticsDownParam => Config { haptics: HapticsConfig { down_param: from.haptics.down_param, ..c.haptics }, ..c },
        Setting::HapticsUpParam => Config { haptics: HapticsConfig { up_param: from.haptics.up_param, ..c.haptics }, ..c },
        Setting::HapticsNormalDownByte3 => Config { haptics: HapticsConfig { normal_down_byte3: from.haptics.normal_down_byte3, ..c.haptics }, ..c },
        Setting::HapticsNormalUpByte3 => Config { haptics: HapticsConfig { normal_up_byte3: from.haptics.normal_up_byte3, ..c.haptics }, ..c },
        Setting::HapticsForceDownByte3 => Config { haptics: HapticsConfig { force_down_byte3: from.haptics.force_down_byte3, ..c.haptics }, ..c },
        Setting::HapticsForceUpByte3 => Config { haptics: HapticsConfig { force_up_byte3: from.haptics.force_up_byte3, ..c.haptics }, ..c },
        Setting::DragHapticsEnabled => Config { drag: DragConfig { enabled: from.drag.enabled, ..c.drag }, ..c },
        Setting::DragHapticsMode => Config { drag: DragConfig { mode: from.drag.mode, ..c.drag }, ..c },
        Setting::DragHapticsMaxPressure => Config { drag: DragConfig { max_pressure: from.drag.max_pressure, ..c.drag }, ..c },
        Setting::DragHapticsDebug => Config { drag: DragConfig { debug: from.drag.debug, ..c.drag }, ..c },
        Setting::RidgeHapticsEnabled => Config { ridge: RidgeConfig { enabled: from.ridge.enabled, ..c.ridge }, ..c },
        Setting::RidgeHapticsGridColumns => Config { ridge: RidgeConfig { grid_columns: from.ridge.grid_columns, ..c.ridge }, ..c },
        Setting::RidgeHapticsGridRows => Config { ridge: RidgeConfig { grid_rows: from.ridge.grid_rows, ..c.ridge }, ..c },
        Setting::RidgeHapticsPulses => Config { ridge: RidgeConfig { pulses: from.ridge.pulses, ..c.ridge }, ..c },
        Setting::RidgeHapticsDownParam => Config { ridge: RidgeConfig { down_param: from.ridge.down_param, ..c.ridge }, ..c },
        Setting::RidgeHapticsUpParam => Config { ridge: RidgeConfig { up_param: from.ridge.up_param, ..c.ridge }, ..c },
        Setting::RidgeHapticsDownByte3 => Config { ridge: RidgeConfig { down_byte3: from.ridge.down_byte3, ..c.ridge }, ..c },
        Setting::RidgeHapticsUpByte3 => Config { ridge: RidgeConfig { up_byte3: from.ridge.up_byte3, ..c.ridge }, ..c },
        Setting::RidgeHapticsDebug => Config { ridge: RidgeConfig { debug: from.ridge.debug, ..c.ridge }, ..c },
    }
}

/// How the setting `s` of `c` reads as a configuration value: the value that,
/// stored under its key, gives it. A device path of none reads as `auto`, a
/// force button as its name; a maximum pressure of none, or a force button
/// with no name, reads as nothing.
pub open spec fn setting_reading(c: Config, s: Setting) -> Option<ConfigValueView> {
    match s {
        Setting::DevicePath => match c.device.path { Some(p) => Some(ConfigValueView::String(p@)), None => Some(ConfigValueView::String("auto"@)) },
        Setting::DeviceRestoreOnExit => Some(ConfigValueView::Bool(c.device.restore_on_exit)),
        Setting::InputEnabled => Some(ConfigValueView::Bool(c.input.enabled)),
        Setting::InputForceButton => match c.input.force_button {
            None => Some(ConfigValueView::String("none"@)),
            Some(b) => if b == BTN_LEFT {
                Some(ConfigValueView::String("left"@))
            } else if b == BTN_RIGHT {
                Some(ConfigValueView::String("right"@))
            } else if b == BTN_MIDDLE {
                Some(ConfigValueView::String("middle"@))
            } else {
                None
            },
        },
        Setting::InputMultiTouchDragMotion => Some(ConfigValueView::Bool(c.input.multi_touch_drag_motion)),
        Setting::InputMultiTouchMotionDebug => Some(ConfigValueView::Bool(c.input.multi_touch_motion_debug)),
        Setting::ClicksNormalThreshold => Some(ConfigValueView::Int(c.clicks.normal_threshold as int)),
        Setting::ClicksForceThreshold => Some(ConfigValueView::Int(c.clicks.force_threshold as int)),
        Setting::ClicksDoubleClickForceThreshold => Some(ConfigValueView::Int(c.clicks.double_click_force_threshold as int)),
        Setting::ClicksResetThreshold => Some(ConfigValueView::Int(c.clicks.reset_threshold as int)),
        Setting::ClicksRearmThreshold => Some(ConfigValueView::Int(c.clicks.rearm_threshold as int)),
        Setting::ClicksForceRearmThreshold => Some(ConfigValueView::Int(c.clicks.force_rearm_threshold as int)),
        Setting::ClicksNormalReleaseThreshold => Some(ConfigValueView::Int(c.clicks.normal_release_threshold as int)),
        Setting::DragReleaseThreshold => Some(ConfigValueView::Int(c.drag_release.threshold as int)),
        Setting::ReleaseDrop => Some(ConfigValueView::Int(c.release.drop as int)),
        Setting::DragReleaseEnabled => Some(ConfigValueView::Bool(c.drag_release.enabled)),
        Setting::DragReleaseDebug => Some(ConfigValueView::Bool(c.drag_release.debug)),
        Setting::HapticsDownParam => Some(ConfigValueView::Int(c.haptics.down_param as int)),
        Setting::HapticsUpParam => Some(ConfigValueView::Int(c.haptics.up_param as int)),
        Setting::HapticsNormalDownByte3 => Some(ConfigValueView::Int(c.haptics.normal_down_byte3 as int)),
        Setting::HapticsNormalUpByte3 => Some(ConfigValueView::Int(c.haptics.normal_up_byte3 as int)),
        Setting::HapticsForceDownByte3 => Some(ConfigValueView::Int(c.haptics.force_down_byte3 as int)),
        Setting::HapticsForceUpByte3 => Some(ConfigValueView::Int(c.haptics.force_up_byte3 as int)),
        Setting::DragHapticsEnabled => Some(ConfigValueView::Bool(c.drag.enabled)),
        Setting::DragHapticsMode => match c.drag.mode { DragMode::Any => Some(ConfigValueView::String("any"@)), DragMode::Scroll => Some(ConfigValueView::String("scroll"@)) },
        Setting::DragHapticsMaxPressure => match c.drag.max_pressure { Some(m) => Some(ConfigValueView::Int(m as int)), None => None },
        Setting::DragHapticsDebug => Some(ConfigValueView::Bool(c.drag.debug)),
        Setting::RidgeHapticsEnabled => Some(ConfigValueView::Bool(c.ridge.enabled)),
        Setting::RidgeHapticsGridColumns => Some(ConfigValueView::Int(c.ridge.grid_columns as int)),
        Setting::RidgeHapticsGridRows => Some(ConfigValueView::Int(c.ridge.grid_rows as int)),
        Setting::RidgeHapticsPulses => Some(ConfigValueView::Int(c.ridge.pulses as int)),
        Setting::RidgeHapticsDownParam => Some(ConfigValueView::Int(c.ridge.down_param as int)),
        Setting::RidgeHapticsUpParam => Some(ConfigValueView::Int(c.ridge.up_param as int)),
        Setting::RidgeHapticsDownByte3 => Some(ConfigValueView::Int(c.ridge.down_byte3 as int)),
        Setting::RidgeHapticsUpByte3 => Some(ConfigValueView::Int(c.ridge.up_byte3 as int)),
        Setting::RidgeHapticsDebug => Some(ConfigValueView::Bool(c.ridge.debug)),
    }
}

proof fn lemma_apply_section_0(c: Config, d: Config, k: ConfigKey, key: Seq<char>, value: ConfigValue)
    requires
        key_section(k) == 0,
    ensures
        spec_apply_key(c, k, key, value) matches Ok((c2, a)) ==> match setting_of(k) {
            Some(s) => c2 == with_setting(c, c2, s) && a == Applied::Stored && setting_reading(c2, s) == Some(
                value@,
            ),
            None => c2 == c && a is Number && (value@ is Int || value@ is Float),
        },
        setting_of(k) matches Some(s) && setting_reading(d, s) == Some(value@) ==> spec_apply_key(
            c,
            k,
            key,
            value,
        ) is Ok,
{
    match k {
        ConfigKey::DevicePath => {},
        ConfigKey::DeviceRestoreOnExit => {},
        ConfigKey::DeviceSettleMs => {},
        _ => {},
    }
}

proof fn lemma_apply_section_1(c: Config, d: Config, k: ConfigKey, key: Seq<char>, value: ConfigValue)
    requires
        key_section(k) == 1,
    ensures
        spec_apply_key(c, k, key, value) matches Ok((c2, a)) ==> match setting_of(k) {
            Some(s) => c2 == with_setting(c, c2, s) && a == Applied::Stored && setting_reading(c2, s) == Some(
                value@,
            ),
            None => c2 == c && a is Number && (value@ is Int || value@ is Float),
        },
        setting_of(k) matches Some(s) && setting_reading(d, s) == Some(value@) ==> spec_apply_key(
            c,
            k,
            key,
            value,
        ) is Ok,
{
    match k {
        ConfigKey::InputEnabled => {},
        ConfigKey::InputForceButton => {},
        ConfigKey::InputPendingLeftMs => {},
        ConfigKey::InputPendingLeftMotion => {},
        ConfigKey::InputMultiTouchDragMotion => {},
        ConfigKey::InputMultiTouchMotionXScale => {},
        ConfigKey::InputMultiTouchMotionYScale => {},
        ConfigKey::InputMultiTouchMotionDebug => {},
        _ => {},
    }
}

proof fn lemma_apply_section_2(c: Config, d: Config, k: ConfigKey, key: Seq<char>, value: ConfigValue)
    requires
        key_section(k) == 2,
    ensures
        spec_apply_key(c, k, key, value) matches Ok((c2, a)) ==> match setting_of(k) {
            Some(s) => c2 == with_setting(c, c2, s) && a == Applied::Stored && setting_reading(c2, s) == Some(
                value@,
            ),
            None => c2 == c && a is Number && (value@ is Int || value@ is Float),
        },
        setting_of(k) matches Some(s) && setting_reading(d, s) == Some(value@) ==> spec_apply_key(
            c,
            k,
            key,
            value,
        ) is Ok,
{
    match k {
        ConfigKey::ClicksNormalThreshold => {},
        ConfigKey::ClicksForceThreshold => {},
        ConfigKey::ClicksDoubleClickForceThreshold => {},
        ConfigKey::ClicksDoubleClickWindowMs => {},
        ConfigKey::ClicksResetThreshold => {},
        ConfigKey::ClicksRearmThreshold => {},
        ConfigKey::ClicksForceRearmThreshold => {},
        ConfigKey::ClicksNormalReleaseThreshold => {},
        ConfigKey::ClicksDragReleaseThreshold => {},
        ConfigKey::ClicksDragReleaseMotion => {},
        ConfigKey::ClicksMinGapMs => {},
        _ => {},
    }
}

proof fn lemma_apply_section_3(c: Config, d: Config, k: ConfigKey, key: Seq<char>, value: ConfigValue)
    requires
        key_section(k) == 3,
    ensures
        spec_apply_key(c, k, key, value) matches Ok((c2, a)) ==> match setting_of(k) {
            Some(s) => c2 == with_setting(c, c2, s) && a == Applied::Stored && setting_reading(c2, s) == Some(
                value@,
            ),
            None => c2 == c && a is Number && (value@ is Int || value@ is Float),
        },
        setting_of(k) matches Some(s) && setting_reading(d, s) == Some(value@) ==> spec_apply_key(
            c,
            k,
            key,
            value,
        ) is Ok,
{
    match k {
        ConfigKey::ReleaseDrop => {},
        ConfigKey::ReleaseRate => {},
        ConfigKey::ReleaseLockoutMs => {},
        ConfigKey::ReleaseStackedReleaseGapMs => {},
        ConfigKey::ReleaseSuppressNormalUpAfterForceMs => {},
        _ => {},
    }
}

proof fn lemma_apply_section_4(c: Config, d: Config, k: ConfigKey, key: Seq<char>, value: ConfigValue)
    requires
        key_section(k) == 4,
    ensures
        spec_apply_key(c, k, key, value) matches Ok((c2, a)) ==> match setting_of(k) {
            Some(s) => c2 == with_setting(c, c2, s) && a == Applied::Stored && setting_reading(c2, s) == Some(
                value@,
            ),
            None => c2 == c && a is Number && (value@ is Int || value@ is Float),
        },
        setting_of(k) matches Some(s) && setting_reading(d, s) == Some(value@) ==> spec_apply_key(
            c,
            k,
            key,
            value,
        ) is Ok,
{
    match k {
        ConfigKey::DragReleaseEnabled => {},
        ConfigKey::DragReleaseMovement => {},
        ConfigKey::DragReleaseThreshold => {},
        ConfigKey::DragReleaseDebug => {},
        _ => {},
    }
}

proof fn lemma_apply_section_5(c: Config, d: Config, k: ConfigKey, key: Seq<char>, value: ConfigValue)
    requires
        key_section(k) == 5,
    ensures
        spec_apply_key(c, k, key, value) matches Ok((c2, a)) ==> match setting_of(k) {
            Some(s) => c2 == with_setting(c, c2, s) && a == Applied::Stored && setting_reading(c2, s) == Some(
                value@,
            ),
            None => c2 == c && a is Number && (value@ is Int || value@ is Float),
        },
        setting_of(k) matches Some(s) && setting_reading(d, s) == Some(value@) ==> spec_apply_key(
            c,
            k,
            key,
            value,
        ) is Ok,
{
    match k {
        ConfigKey::HapticsDownParam => {},
        ConfigKey::HapticsUpParam => {},
        ConfigKey::HapticsNormalDownByte3 => {},
        ConfigKey::HapticsNormalUpByte3 => {},
        ConfigKey::HapticsForceDownByte3 => {},
        ConfigKey::HapticsForceUpByte3 => {},
        _ => {},
    }
}

proof fn lemma_apply_section_6(c: Config, d: Config, k: ConfigKey, key: Seq<char>, value: ConfigValue)
    requires
        key_section(k) == 6,
    ensures
        spec_apply_key(c, k, key, value) matches Ok((c2, a)) ==> match setting_of(k) {
            Some(s) => c2 == with_setting(c, c2, s) && a == Applied::Stored && setting_reading(c2, s) == Some(
                value@,
            ),
            None => c2 == c && a is Number && (value@ is Int || value@ is Float),
        },
        setting_of(k) matches Some(s) && setting_reading(d, s) == Some(value@) ==> spec_apply_key(
            c,
            k,
            key,
            value,
        ) is Ok,
{
    match k {
        ConfigKey::DragHapticsEnabled => {},
        ConfigKey::DragHapticsMode => {},
        ConfigKey::DragHapticsDistance => {},
        ConfigKey::DragHapticsTwoFingerDistance => {},
        ConfigKey::DragHapticsThreeFingerDistance => {},
        ConfigKey::DragHapticsMinGapMs => {},
        ConfigKey::DragHapticsTwoFingerMinGapMs => {},
        ConfigKey::DragHapticsThreeFingerMinGapMs => {},
        ConfigKey::DragHapticsDownMs => {},
        ConfigKey::DragHapticsMotionEpsilon => {},
        ConfigKey::DragHapticsClickSilenceMs => {},
        ConfigKey::DragHapticsMaxPressure => {},
        ConfigKey::DragHapticsDebug => {},
        _ => {},
    }
}

proof fn lemma_apply_section_7(c: Config, d: Config, k: ConfigKey, key: Seq<char>, value: ConfigValue)
    requires
        key_section(k) == 7,
    ensures
        spec_apply_key(c, k, key, value) matches Ok((c2, a)) ==> match setting_of(k) {
            Some(s) => c2 == with_setting(c, c2, s) && a == Applied::Stored && setting_reading(c2, s) == Some(
                value@,
            ),
            None => c2 == c && a is Number && (value@ is Int || value@ is Float),
        },
        setting_of(k) matches Some(s) && setting_reading(d, s) == Some(value@) ==> spec_apply_key(
            c,
            k,
            key,
            value,
        ) is Ok,
{
    match k {
        ConfigKey::RidgeHapticsEnabled => {},
        ConfigKey::RidgeHapticsPosition => {},
        ConfigKey::RidgeHapticsGridColumns => {},
        ConfigKey::RidgeHapticsGridRows => {},
        ConfigKey::RidgeHapticsGridXMin => {},
        ConfigKey::RidgeHapticsGridXMax => {},
        ConfigKey::RidgeHapticsGridYMin => {},
        ConfigKey::RidgeHapticsGridYMax => {},
        ConfigKey::RidgeHapticsDeadband => {},
        ConfigKey::RidgeHapticsMinGapMs => {},
        ConfigKey::RidgeHapticsDownMs => {},
        ConfigKey::RidgeHapticsPulses => {},
        ConfigKey::RidgeHapticsPulseGapMs => {},
        ConfigKey::RidgeHapticsDownParam => {},
        ConfigKey::RidgeHapticsUpParam => {},
        ConfigKey::RidgeHapticsDownByte3 => {},
        ConfigKey::RidgeHapticsUpByte3 => {},
        ConfigKey::RidgeHapticsDebug => {},
        _ => {},
    }
}

/// The per-key form of `lemma_apply_changes_at_most_one_setting`.
pub proof fn lemma_apply_key_changes_at_most_one_setting(c: Config, d: Config, k: ConfigKey, key: Seq<char>, value: ConfigValue)
    ensures
        spec_apply_key(c, k, key, value) matches Ok((c2, a)) ==> match setting_of(k) {
            Some(s) => c2 == with_setting(c, c2, s) && a == Applied::Stored && setting_reading(c2, s) == Some(
                value@,
            ),
            None => c2 == c && a is Number && (value@ is Int || value@ is Float),
        },
        setting_of(k) matches Some(s) && setting_reading(d, s) == Some(value@) ==> spec_apply_key(
            c,
            k,
            key,
            value,
        ) is Ok,
{
    if key_section(k) == 0 {
        lemma_apply_section_0(c, d, k, key, value);
    }
    if key_section(k) == 1 {
        lemma_apply_section_1(c, d, k, key, value);
    }
    if key_section(k) == 2 {
        lemma_apply_section_2(c, d, k, key, value);
    }
    if key_section(k) == 3 {
        lemma_apply_section_3(c, d, k, key, value);
    }
    if key_section(k) == 4 {
        lemma_apply_section_4(c, d, k, key, value);
    }
    if key_section(k) == 5 {
        lemma_apply_section_5(c, d, k, key, value);
    }
    if key_section(k) == 6 {
        lemma_apply_section_6(c, d, k, key, value);
    }
    if key_section(k) == 7 {
        lemma_apply_section_7(c, d, k, key, value);
    }
}

/// A successful store changes at most the one setting that its key names: a
/// key of a stored setting changes that setting alone, and a key of a
/// floating-point setting leaves the configuration as it was and hands the
/// number to the caller.
pub proof fn lemma_apply_changes_at_most_one_setting(c: Config, key: Seq<char>, value: ConfigValue)
    ensures
        spec_apply_config_value(c, key, value) matches Ok((c2, a)) ==> spec_config_key(key) matches Some(k)
            && match setting_of(k) {
            Some(s) => c2 == with_setting(c, c2, s) && a == Applied::Stored,
            None => c2 == c && a is Number,
        },
{
    if let Some(k) = spec_config_key(key) {
        lemma_apply_key_changes_at_most_one_setting(c, c, k, key, value);
    }
}

/// A successful store of a stored setting sets it to the value stored: the
/// setting afterwards reads back as exactly that value (a boolean as that
/// boolean, an integer as that integer, `auto`, a button name or a drag mode
/// as itself). A floating-point key takes only an integer or a
/// floating-point value.
pub proof fn lemma_apply_reads_back(c: Config, key: Seq<char>, value: ConfigValue)
    ensures
        spec_apply_config_value(c, key, value) matches Ok((c2, a)) ==> spec_config_key(key) matches Some(k)
            && match setting_of(k) {
            Some(s) => setting_reading(c2, s) == Some(value@),
            None => value@ is Int || value@ is Float,
        },
{
    if let Some(k) = spec_config_key(key) {
        lemma_apply_key_changes_at_most_one_setting(c, c, k, key, value);
    }
}

/// Every value that a stored setting can hold is accepted under its key: if
/// the setting of some configuration `d` reads as `value`, storing `value`
/// succeeds on any configuration.
pub proof fn lemma_apply_accepts_setting_values(c: Config, d: Config, key: Seq<char>, value: ConfigValue)
    requires
        spec_config_key(key) matches Some(k) && setting_of(k) matches Some(s) && setting_reading(d, s) == Some(
            value@,
        ),
    ensures
        spec_apply_config_value(c, key, value) is Ok,
{
    lemma_apply_key_changes_at_most_one_setting(c, d, spec_config_key(key)->0, key, value);
}

/// `clicks.drag_release_threshold` and `clicks.drag_release_motion` act as
/// `drag_release.threshold` and `drag_release.movement` do: each succeeds
/// exactly when the other does, with the same configuration and the same
/// floating-point setting.
pub proof fn lemma_drag_release_aliases(c: Config, value: ConfigValue)
    ensures
        (spec_apply_config_value(c, "clicks.drag_release_threshold"@, value) is Ok) == (spec_apply_config_value(
            c,
            "drag_release.threshold"@,
            value,
        ) is Ok),
        spec_apply_config_value(c, "clicks.drag_release_threshold"@, value) is Ok ==> spec_apply_config_value(
            c,
            "clicks.drag_release_threshold"@,
            value,
        ) == spec_apply_config_value(c, "drag_release.threshold"@, value),
        (spec_apply_config_value(c, "clicks.drag_release_motion"@, value) is Ok) == (spec_apply_config_value(
            c,
            "drag_release.movement"@,
            value,
        ) is Ok),
        spec_apply_config_value(c, "clicks.drag_release_motion"@, value) is Ok ==> spec_apply_config_value(
            c,
            "clicks.drag_release_motion"@,
            value,
        ) == spec_apply_config_value(c, "drag_release.movement"@, value),
{
    lemma_config_key_names_recognised(ConfigKey::ClicksDragReleaseThreshold);
    lemma_config_key_names_recognised(ConfigKey::DragReleaseThreshold);
    lemma_config_key_names_recognised(ConfigKey::ClicksDragReleaseMotion);
    lemma_config_key_names_recognised(ConfigKey::DragReleaseMovement);
}

} // verus!
