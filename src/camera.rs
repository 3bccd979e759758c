//! The camera session: which driver call each operation makes, and how the
//! session's open/closed state follows the driver's answers.
//!
//! A session never calls the driver. Each operation returns the [`SdkCall`]
//! to perform (or `None` where nothing needs doing); the host performs it and
//! hands the status code, with any output, to [`ASICamera::complete`].

use vstd::prelude::*;

use crate::error::{status_outcome, status_result, ASIError};
use crate::sdk::{bool_code, call_camera, operation_name, to_asi_bool, SdkCall};

verus! {

/// A session with one camera. It is created closed; the driver's handle is
/// held from a successful open until a successful close.
#[derive(Debug)]
pub struct ASICamera {
    camera_id: i32,
    opened: bool,
}

/// Whether a session is open after `call` answered `status`, given whether
/// it was open before: a successful open opens it, a successful close closes
/// it, and nothing else changes it.
pub open spec fn open_after(opened: bool, call: SdkCall, status: i32) -> bool {
    match call {
        SdkCall::OpenCamera { .. } => opened || status == 0,
        SdkCall::CloseCamera { .. } => opened && status != 0,
        _ => opened,
    }
}

/// `t` is the session `s` after the driver answered `status` to `call`, as
/// [`ASICamera::complete`] leaves it.
pub open spec fn completed(s: ASICamera, t: ASICamera, call: SdkCall, status: i32) -> bool {
    &&& t.camera_id() == s.camera_id()
    &&& t.is_open() == open_after(s.is_open(), call, status)
}

impl ASICamera {
    /// The camera id the session is bound to.
    pub closed spec fn spec_camera_id(&self) -> i32 {
        self.camera_id
    }

    /// Whether the session holds an open driver handle.
    pub closed spec fn spec_is_open(&self) -> bool {
        self.opened
    }

    /// The call that opening the session makes, if any.
    pub open spec fn open_call(&self) -> Option<SdkCall> {
        if self.is_open() {
            None
        } else {
            Some(SdkCall::OpenCamera { camera_id: self.camera_id() })
        }
    }

    /// The call that closing the session makes, if any.
    pub open spec fn close_call(&self) -> Option<SdkCall> {
        if self.is_open() {
            Some(SdkCall::CloseCamera { camera_id: self.camera_id() })
        } else {
            None
        }
    }

    /// A closed session for `camera_id`. The id is not checked here: the
    /// driver rejects an invalid one when the session is opened.
    pub fn new(camera_id: i32) -> (r: ASICamera)
        ensures
            r.camera_id() == camera_id,
            !r.is_open(),
    {
        ASICamera { camera_id, opened: false }
    }

    #[verifier::when_used_as_spec(spec_camera_id)]
    pub fn camera_id(&self) -> (r: i32)
        ensures
            r == self.camera_id(),
    {
        self.camera_id
    }

    #[verifier::when_used_as_spec(spec_is_open)]
    pub fn is_open(&self) -> (r: bool)
        ensures
            r == self.is_open(),
    {
        self.opened
    }

    /// The call that counts the connected cameras.
    pub fn num_connected_asi_cameras() -> (r: SdkCall)
        ensures
            r == SdkCall::GetNumOfConnectedCameras,
    {
        SdkCall::GetNumOfConnectedCameras
    }

    /// The call that reads the properties of the camera at `camera_index`.
    pub fn get_property(camera_index: i32) -> (r: SdkCall)
        ensures
            r == (SdkCall::GetCameraProperty { camera_index }),
    {
        SdkCall::GetCameraProperty { camera_index }
    }

    /// Opening: no call when the session is already open, else the driver's
    /// open.
    pub fn open(&self) -> (r: Option<SdkCall>)
        ensures
            r == self.open_call(),
    {
        if self.opened {
            None
        } else {
            Some(SdkCall::OpenCamera { camera_id: self.camera_id })
        }
    }

    /// Closing: no call when the session is already closed, else the
    /// driver's close.
    pub fn close(&self) -> (r: Option<SdkCall>)
        ensures
            r == self.close_call(),
    {
        if self.opened {
            Some(SdkCall::CloseCamera { camera_id: self.camera_id })
        } else {
            None
        }
    }

    pub fn init(&self) -> (r: SdkCall)
        ensures
            r == (SdkCall::InitCamera { camera_id: self.camera_id() }),
    {
        SdkCall::InitCamera { camera_id: self.camera_id }
    }

    pub fn get_num_controls(&self) -> (r: SdkCall)
        ensures
            r == (SdkCall::GetNumOfControls { camera_id: self.camera_id() }),
    {
        SdkCall::GetNumOfControls { camera_id: self.camera_id }
    }

    pub fn get_control_caps(&self, control_index: i32) -> (r: SdkCall)
        ensures
            r == (SdkCall::GetControlCaps { camera_id: self.camera_id(), control_index }),
    {
        SdkCall::GetControlCaps { camera_id: self.camera_id, control_index }
    }

    pub fn get_control_value(&self, control_type: u32) -> (r: SdkCall)
        ensures
            r == (SdkCall::GetControlValue { camera_id: self.camera_id(), control_type }),
    {
        SdkCall::GetControlValue { camera_id: self.camera_id, control_type }
    }

    pub fn set_control_value(&self, control_type: u32, value: i64, auto: bool) -> (r: SdkCall)
        ensures
            r == (SdkCall::SetControlValue {
                camera_id: self.camera_id(),
                control_type,
                value,
                auto: bool_code(auto),
            }),
    {
        SdkCall::SetControlValue {
            camera_id: self.camera_id,
            control_type,
            value,
            auto: to_asi_bool(auto),
        }
    }

    pub fn get_roi_format(&self) -> (r: SdkCall)
        ensures
            r == (SdkCall::GetROIFormat { camera_id: self.camera_id() }),
    {
        SdkCall::GetROIFormat { camera_id: self.camera_id }
    }

    pub fn set_roi_format(&self, width: i32, height: i32, bin: i32, img_type: i32) -> (r: SdkCall)
        ensures
            r == (SdkCall::SetROIFormat {
                camera_id: self.camera_id(),
                width,
                height,
                bin,
                img_type,
            }),
    {
        SdkCall::SetROIFormat { camera_id: self.camera_id, width, height, bin, img_type }
    }

    pub fn get_start_pos(&self) -> (r: SdkCall)
        ensures
            r == (SdkCall::GetStartPos { camera_id: self.camera_id() }),
    {
        SdkCall::GetStartPos { camera_id: self.camera_id }
    }

    pub fn set_start_pos(&self, start_x: i32, start_y: i32) -> (r: SdkCall)
        ensures
            r == (SdkCall::SetStartPos { camera_id: self.camera_id(), start_x, start_y }),
    {
        SdkCall::SetStartPos { camera_id: self.camera_id, start_x, start_y }
    }

    pub fn get_dropped_frames(&self) -> (r: SdkCall)
        ensures
            r == (SdkCall::GetDroppedFrames { camera_id: self.camera_id() }),
    {
        SdkCall::GetDroppedFrames { camera_id: self.camera_id }
    }

    pub fn start_video_capture(&self) -> (r: SdkCall)
        ensures
            r == (SdkCall::StartVideoCapture { camera_id: self.camera_id() }),
    {
        SdkCall::StartVideoCapture { camera_id: self.camera_id }
    }

    pub fn stop_video_capture(&self) -> (r: SdkCall)
        ensures
            r == (SdkCall::StopVideoCapture { camera_id: self.camera_id() }),
    {
        SdkCall::StopVideoCapture { camera_id: self.camera_id }
    }

    /// Reads the next video frame into a buffer of `buff_size` bytes, waiting
    /// at most `wait_ms` milliseconds (a negative value waits indefinitely).
    pub fn get_video_data(&self, buff_size: i64, wait_ms: i32) -> (r: SdkCall)
        ensures
            r == (SdkCall::GetVideoData { camera_id: self.camera_id(), buff_size, wait_ms }),
    {
        SdkCall::GetVideoData { camera_id: self.camera_id, buff_size, wait_ms }
    }

    /// Starts a single-shot exposure; `is_dark` matters only to a camera with
    /// a mechanical shutter.
    pub fn start_exposure(&self, is_dark: bool) -> (r: SdkCall)
        ensures
            r == (SdkCall::StartExposure {
                camera_id: self.camera_id(),
                is_dark: bool_code(is_dark),
            }),
    {
        SdkCall::StartExposure { camera_id: self.camera_id, is_dark: to_asi_bool(is_dark) }
    }

    pub fn stop_exposure(&self) -> (r: SdkCall)
        ensures
            r == (SdkCall::StopExposure { camera_id: self.camera_id() }),
    {
        SdkCall::StopExposure { camera_id: self.camera_id }
    }

    pub fn get_exp_status(&self) -> (r: SdkCall)
        ensures
            r == (SdkCall::GetExpStatus { camera_id: self.camera_id() }),
    {
        SdkCall::GetExpStatus { camera_id: self.camera_id }
    }

    /// Reads the finished exposure into a buffer of `buff_size` bytes.
    pub fn get_data_after_exp(&self, buff_size: i64) -> (r: SdkCall)
        ensures
            r == (SdkCall::GetDataAfterExp { camera_id: self.camera_id(), buff_size }),
    {
        SdkCall::GetDataAfterExp { camera_id: self.camera_id, buff_size }
    }

    /// Takes the driver's answer to `call`, a call of this session: `status`
    /// and, where the call returns values, `output`. A zero status succeeds
    /// with `output`; any other fails with an error naming the operation. A
    /// successful open marks the session open, a successful close marks it
    /// closed; a failed one leaves it as it was.
    pub fn complete<T>(&mut self, call: &SdkCall, status: i32, output: T) -> (r: Result<
        T,
        ASIError,
    >)
        requires
            call_camera(*call) == Some(old(self).camera_id()),
        ensures
            status_outcome(status, operation_name(*call), output, r),
            final(self).camera_id() == old(self).camera_id(),
            final(self).is_open() == open_after(old(self).is_open(), *call, status),
    {
        if status == 0 {
            match call {
                SdkCall::OpenCamera { .. } => {
                    self.opened = true;
                },
                SdkCall::CloseCamera { .. } => {
                    self.opened = false;
                },
                _ => {},
            }
        }
        status_result(status, call.operation(), output)
    }
}

/// Opening is idempotent. Whether or not `s` was open, once its open has
/// succeeded (no call, or the driver's open answered `0`), the session `t` is
/// open and a second open makes no driver call and succeeds.
pub proof fn open_is_idempotent(s: ASICamera, t: ASICamera)
    requires
        s.open_call() matches Some(c) ==> completed(s, t, c, 0),
        s.open_call() is None ==> t == s,
    ensures
        t.is_open(),
        t.open_call() is None,
        t.camera_id() == s.camera_id(),
{
}

/// Closing is idempotent. A session that is not open, never opened or
/// already closed, closes without a driver call; once a close has succeeded
/// the session is closed and a further close makes no call either.
pub proof fn close_is_idempotent(s: ASICamera, t: ASICamera)
    requires
        s.close_call() matches Some(c) ==> completed(s, t, c, 0),
        s.close_call() is None ==> t == s,
    ensures
        !s.is_open() ==> s.close_call() is None,
        !t.is_open(),
        t.close_call() is None,
{
}

/// Releasing an open session makes exactly one driver call, the close of its
/// camera; once that close has succeeded nothing is left to close.
pub proof fn release_closes_once(s: ASICamera, t: ASICamera)
    requires
        s.is_open(),
        completed(s, t, SdkCall::CloseCamera { camera_id: s.camera_id() }, 0),
    ensures
        s.close_call() == Some(SdkCall::CloseCamera { camera_id: s.camera_id() }),
        !t.is_open(),
        t.close_call() is None,
{
}

/// A control value round-trips through the driver. Setting hands the driver
/// `value` unchanged and the flag `bool_code(auto)`; a driver that stores what
/// it is given answers the next read with that pair, and the flag reads back,
/// as `from_asi_bool` reads it, as `auto`. So the read reports `(value, auto)`.
pub proof fn control_value_round_trip(auto: bool)
    ensures
        (bool_code(auto) != 0) == auto,
{
}

} // verus!
