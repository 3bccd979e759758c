//! Control and data-acquisition layer for ZWO ASI astronomy cameras.
//!
//! The library holds the logic that sits between an application and the
//! camera driver: it decides which driver call a camera session makes, keeps
//! the session's open/closed state, classifies the driver's status codes
//! into error kinds, reads the driver's device records, and selects the USB
//! devices that a bus reset applies to. It never calls the driver itself: the
//! host performs each [`SdkCall`] and hands the status code back.

pub mod camera;
pub mod error;
pub mod properties;
pub mod sdk;
pub mod text;
pub mod usb_reset;

pub use camera::ASICamera;
pub use error::{ASIError, ErrorKind};
pub use sdk::SdkCall;
pub use usb_reset::reset_asi_cameras;
