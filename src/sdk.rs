//! The driver's calls and the values that cross its boundary.

use vstd::prelude::*;

verus! {

/// Image type: 8 bits per pixel, raw sensor data.
pub const IMG_RAW8: i32 = 0;
/// Image type: 24 bits per pixel, colour.
pub const IMG_RGB24: i32 = 1;
/// Image type: 16 bits per pixel, raw sensor data.
pub const IMG_RAW16: i32 = 2;
/// Image type: 8 bits per pixel, luminance.
pub const IMG_Y8: i32 = 3;
/// Ends the driver's list of supported image types.
pub const IMG_END: i32 = -1;

pub const CONTROL_GAIN: u32 = 0;
/// Exposure time, in microseconds.
pub const CONTROL_EXPOSURE: u32 = 1;
pub const CONTROL_GAMMA: u32 = 2;
pub const CONTROL_WB_R: u32 = 3;
pub const CONTROL_WB_B: u32 = 4;
pub const CONTROL_OFFSET: u32 = 5;
pub const CONTROL_BANDWIDTH_OVERLOAD: u32 = 6;
pub const CONTROL_OVERCLOCK: u32 = 7;
pub const CONTROL_TEMPERATURE: u32 = 8;
pub const CONTROL_FLIP: u32 = 9;
pub const CONTROL_AUTO_MAX_GAIN: u32 = 10;
pub const CONTROL_AUTO_MAX_EXP: u32 = 11;
pub const CONTROL_AUTO_TARGET_BRIGHTNESS: u32 = 12;
pub const CONTROL_HARDWARE_BIN: u32 = 13;
pub const CONTROL_HIGH_SPEED_MODE: u32 = 14;
pub const CONTROL_COOLER_POWER_PERC: u32 = 15;
pub const CONTROL_TARGET_TEMP: u32 = 16;
pub const CONTROL_COOLER_ON: u32 = 17;
pub const CONTROL_MONO_BIN: u32 = 18;
pub const CONTROL_FAN_ON: u32 = 19;
pub const CONTROL_PATTERN_ADJUST: u32 = 20;
pub const CONTROL_ANTI_DEW_HEATER: u32 = 21;

/// Values of the flip control.
pub const FLIP_NONE: i64 = 0;
pub const FLIP_HORIZ: i64 = 1;
pub const FLIP_VERT: i64 = 2;
pub const FLIP_BOTH: i64 = 3;

/// The driver's encoding of a boolean.
pub open spec fn bool_code(b: bool) -> u32 {
    if b {
        1
    } else {
        0
    }
}

/// Encodes a boolean the way the driver takes it.
pub fn to_asi_bool(b: bool) -> (r: u32)
    ensures
        r == bool_code(b),
{
    if b {
        1
    } else {
        0
    }
}

/// Reads a boolean the driver returned: any nonzero value is true.
pub fn from_asi_bool(v: u32) -> (r: bool)
    ensures
        r == (v != 0),
{
    v != 0
}

/// The state of a single-shot exposure.
#[derive(Debug, Clone, Copy, PartialEq, Eq, Structural)]
pub enum ExposureStatus {
    Idle,
    Working,
    Success,
    Failed,
}

/// The status that the driver reports as `raw`, if it is one it documents.
pub open spec fn exposure_status_of(raw: u32) -> Option<ExposureStatus> {
    if raw == 0 {
        Some(ExposureStatus::Idle)
    } else if raw == 1 {
        Some(ExposureStatus::Working)
    } else if raw == 2 {
        Some(ExposureStatus::Success)
    } else if raw == 3 {
        Some(ExposureStatus::Failed)
    } else {
        None
    }
}

impl ExposureStatus {
    /// Reads an exposure status as the driver reports it.
    pub fn from_raw(raw: u32) -> (r: Option<ExposureStatus>)
        ensures
            r == exposure_status_of(raw),
    {
        match raw {
            0 => Some(ExposureStatus::Idle),
            1 => Some(ExposureStatus::Working),
            2 => Some(ExposureStatus::Success),
            3 => Some(ExposureStatus::Failed),
            _ => None,
        }
    }
}

/// Bytes per pixel of an image type, for the types the driver documents.
pub open spec fn pixel_bytes(img_type: i32) -> Option<int> {
    if img_type == IMG_RAW8 || img_type == IMG_Y8 {
        Some(1)
    } else if img_type == IMG_RAW16 {
        Some(2)
    } else if img_type == IMG_RGB24 {
        Some(3)
    } else {
        None
    }
}

/// The size in bytes of one frame of `width` by `height` pixels of
/// `img_type`: `None` for a negative dimension, an unknown image type, or a
/// size that does not fit in an `i64`.
pub fn roi_buffer_size(width: i32, height: i32, img_type: i32) -> (r: Option<i64>)
    ensures
        r == (if width >= 0 && height >= 0 && pixel_bytes(img_type) is Some && width * height
            * pixel_bytes(img_type).unwrap() <= i64::MAX {
            Some((width * height * pixel_bytes(img_type).unwrap()) as i64)
        } else {
            None
        }),
{
    let bytes: i64 = if img_type == IMG_RAW8 || img_type == IMG_Y8 {
        1
    } else if img_type == IMG_RAW16 {
        2
    } else if img_type == IMG_RGB24 {
        3
    } else {
        return None;
    };
    if width < 0 || height < 0 {
        return None;
    }
    proof {
        let (w, h) = (width as int, height as int);
        assert(0 <= w * h <= 2147483647 * 2147483647) by (nonlinear_arith)
            requires
                0 <= w <= 2147483647,
                0 <= h <= 2147483647,
        ;
    }
    let area: i64 = (width as i64) * (height as i64);
    area.checked_mul(bytes)
}

/// One call into the camera driver, with its arguments.
#[derive(Debug, Clone, Copy, PartialEq, Eq, Structural)]
pub enum SdkCall {
    GetNumOfConnectedCameras,
    GetCameraProperty { camera_index: i32 },
    OpenCamera { camera_id: i32 },
    InitCamera { camera_id: i32 },
    CloseCamera { camera_id: i32 },
    GetNumOfControls { camera_id: i32 },
    GetControlCaps { camera_id: i32, control_index: i32 },
    GetControlValue { camera_id: i32, control_type: u32 },
    SetControlValue { camera_id: i32, control_type: u32, value: i64, auto: u32 },
    GetROIFormat { camera_id: i32 },
    SetROIFormat { camera_id: i32, width: i32, height: i32, bin: i32, img_type: i32 },
    GetStartPos { camera_id: i32 },
    SetStartPos { camera_id: i32, start_x: i32, start_y: i32 },
    GetDroppedFrames { camera_id: i32 },
    StartVideoCapture { camera_id: i32 },
    StopVideoCapture { camera_id: i32 },
    GetVideoData { camera_id: i32, buff_size: i64, wait_ms: i32 },
    StartExposure { camera_id: i32, is_dark: u32 },
    StopExposure { camera_id: i32 },
    GetExpStatus { camera_id: i32 },
    GetDataAfterExp { camera_id: i32, buff_size: i64 },
}

/// The camera a call addresses; `None` for the calls that enumerate devices.
pub open spec fn call_camera(c: SdkCall) -> Option<i32> {
    match c {
        SdkCall::GetNumOfConnectedCameras => None,
        SdkCall::GetCameraProperty { .. } => None,
        SdkCall::OpenCamera { camera_id } => Some(camera_id),
        SdkCall::InitCamera { camera_id } => Some(camera_id),
        SdkCall::CloseCamera { camera_id } => Some(camera_id),
        SdkCall::GetNumOfControls { camera_id } => Some(camera_id),
        SdkCall::GetControlCaps { camera_id, .. } => Some(camera_id),
        SdkCall::GetControlValue { camera_id, .. } => Some(camera_id),
        SdkCall::SetControlValue { camera_id, .. } => Some(camera_id),
        SdkCall::GetROIFormat { camera_id } => Some(camera_id),
        SdkCall::SetROIFormat { camera_id, .. } => Some(camera_id),
        SdkCall::GetStartPos { camera_id } => Some(camera_id),
        SdkCall::SetStartPos { camera_id, .. } => Some(camera_id),
        SdkCall::GetDroppedFrames { camera_id } => Some(camera_id),
        SdkCall::StartVideoCapture { camera_id } => Some(camera_id),
        SdkCall::StopVideoCapture { camera_id } => Some(camera_id),
        SdkCall::GetVideoData { camera_id, .. } => Some(camera_id),
        SdkCall::StartExposure { camera_id, .. } => Some(camera_id),
        SdkCall::StopExposure { camera_id } => Some(camera_id),
        SdkCall::GetExpStatus { camera_id } => Some(camera_id),
        SdkCall::GetDataAfterExp { camera_id, .. } => Some(camera_id),
    }
}

/// The name of the operation that makes a call, as its errors report it.
pub open spec fn operation_name(c: SdkCall) -> Seq<char> {
    match c {
        SdkCall::GetNumOfConnectedCameras => "num_connected_asi_cameras"@,
        SdkCall::GetCameraProperty { .. } => "get_property"@,
        SdkCall::OpenCamera { .. } => "open"@,
        SdkCall::InitCamera { .. } => "init"@,
        SdkCall::CloseCamera { .. } => "close"@,
        SdkCall::GetNumOfControls { .. } => "get_num_controls"@,
        SdkCall::GetControlCaps { .. } => "get_control_caps"@,
        SdkCall::GetControlValue { .. } => "get_control_value"@,
        SdkCall::SetControlValue { .. } => "set_control_value"@,
        SdkCall::GetROIFormat { .. } => "get_roi_format"@,
        SdkCall::SetROIFormat { .. } => "set_roi_format"@,
        SdkCall::GetStartPos { .. } => "get_start_pos"@,
        SdkCall::SetStartPos { .. } => "set_start_pos"@,
        SdkCall::GetDroppedFrames { .. } => "get_dropped_frames"@,
        SdkCall::StartVideoCapture { .. } => "start_video_capture"@,
        SdkCall::StopVideoCapture { .. } => "stop_video_capture"@,
        SdkCall::GetVideoData { .. } => "get_video_data"@,
        SdkCall::StartExposure { .. } => "start_exposure"@,
        SdkCall::StopExposure { .. } => "stop_exposure"@,
        SdkCall::GetExpStatus { .. } => "get_exp_status"@,
        SdkCall::GetDataAfterExp { .. } => "get_data_after_exp"@,
    }
}

impl SdkCall {
    /// The name of the operation that makes this call.
    pub fn operation(&self) -> (r: &'static str)
        ensures
            r@ == operation_name(*self),
    {
        match self {
            SdkCall::GetNumOfConnectedCameras => "num_connected_asi_cameras",
            SdkCall::GetCameraProperty { .. } => "get_property",
            SdkCall::OpenCamera { .. } => "open",
            SdkCall::InitCamera { .. } => "init",
            SdkCall::CloseCamera { .. } => "close",
            SdkCall::GetNumOfControls { .. } => "get_num_controls",
            SdkCall::GetControlCaps { .. } => "get_control_caps",
            SdkCall::GetControlValue { .. } => "get_control_value",
            SdkCall::SetControlValue { .. } => "set_control_value",
            SdkCall::GetROIFormat { .. } => "get_roi_format",
            SdkCall::SetROIFormat { .. } => "set_roi_format",
            SdkCall::GetStartPos { .. } => "get_start_pos",
            SdkCall::SetStartPos { .. } => "set_start_pos",
            SdkCall::GetDroppedFrames { .. } => "get_dropped_frames",
            SdkCall::StartVideoCapture { .. } => "start_video_capture",
            SdkCall::StopVideoCapture { .. } => "stop_video_capture",
            SdkCall::GetVideoData { .. } => "get_video_data",
            SdkCall::StartExposure { .. } => "start_exposure",
            SdkCall::StopExposure { .. } => "stop_exposure",
            SdkCall::GetExpStatus { .. } => "get_exp_status",
            SdkCall::GetDataAfterExp { .. } => "get_data_after_exp",
        }
    }

    /// The camera this call addresses, if it addresses one.
    pub fn camera(&self) -> (r: Option<i32>)
        ensures
            r == call_camera(*self),
    {
        match *self {
            SdkCall::GetNumOfConnectedCameras => None,
            SdkCall::GetCameraProperty { .. } => None,
            SdkCall::OpenCamera { camera_id } => Some(camera_id),
            SdkCall::InitCamera { camera_id } => Some(camera_id),
            SdkCall::CloseCamera { camera_id } => Some(camera_id),
            SdkCall::GetNumOfControls { camera_id } => Some(camera_id),
            SdkCall::GetControlCaps { camera_id, .. } => Some(camera_id),
            SdkCall::GetControlValue { camera_id, .. } => Some(camera_id),
            SdkCall::SetControlValue { camera_id, .. } => Some(camera_id),
            SdkCall::GetROIFormat { camera_id } => Some(camera_id),
            SdkCall::SetROIFormat { camera_id, .. } => Some(camera_id),
            SdkCall::GetStartPos { camera_id } => Some(camera_id),
            SdkCall::SetStartPos { camera_id, .. } => Some(camera_id),
            SdkCall::GetDroppedFrames { camera_id } => Some(camera_id),
            SdkCall::StartVideoCapture { camera_id } => Some(camera_id),
            SdkCall::StopVideoCapture { camera_id } => Some(camera_id),
            SdkCall::GetVideoData { camera_id, .. } => Some(camera_id),
            SdkCall::StartExposure { camera_id, .. } => Some(camera_id),
            SdkCall::StopExposure { camera_id } => Some(camera_id),
            SdkCall::GetExpStatus { camera_id } => Some(camera_id),
            SdkCall::GetDataAfterExp { camera_id, .. } => Some(camera_id),
        }
    }
}

} // verus!
