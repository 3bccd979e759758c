//! The driver's device and control records, read into plain values.
//!
//! The driver fills fixed-size arrays whose used part ends at a sentinel: a
//! NUL byte in names, `0` in the list of binnings, `-1` in the list of image
//! types. The records here hold only the used part.

use vstd::prelude::*;

use crate::sdk::IMG_END;

verus! {

/// `prefix` is the part of `s` before the first `stop`, or all of `s` when
/// `stop` does not occur in it.
pub open spec fn stops_at<T>(prefix: Seq<T>, s: Seq<T>, stop: T) -> bool {
    &&& prefix.len() <= s.len()
    &&& prefix == s.take(prefix.len() as int)
    &&& forall|i: int| 0 <= i < prefix.len() ==> s[i] != stop
    &&& (prefix.len() == s.len() || s[prefix.len() as int] == stop)
}

/// The bytes of a NUL-terminated name, without the terminator.
pub fn until_nul(bytes: &Vec<u8>) -> (r: Vec<u8>)
    ensures
        stops_at(r@, bytes@, 0u8),
{
    let mut r: Vec<u8> = Vec::new();
    let mut i: usize = 0;
    while i < bytes.len() && bytes[i] != 0
        invariant
            i <= bytes.len(),
            r@ == bytes@.take(i as int),
            forall|j: int| 0 <= j < i ==> bytes@[j] != 0u8,
        decreases bytes.len() - i,
    {
        r.push(bytes[i]);
        i = i + 1;
        assert(r@ =~= bytes@.take(i as int));
    }
    r
}

/// The values of a list that ends at `stop`, without it.
pub fn until_sentinel(values: &Vec<i32>, stop: i32) -> (r: Vec<i32>)
    ensures
        stops_at(r@, values@, stop),
{
    let mut r: Vec<i32> = Vec::new();
    let mut i: usize = 0;
    while i < values.len() && values[i] != stop
        invariant
            i <= values.len(),
            r@ == values@.take(i as int),
            forall|j: int| 0 <= j < i ==> values@[j] != stop,
        decreases values.len() - i,
    {
        r.push(values[i]);
        i = i + 1;
        assert(r@ =~= values@.take(i as int));
    }
    r
}

/// A camera's description as the driver fills it in, field for field.
/// Booleans are the driver's integers; the two real-valued fields are kept as
/// their IEEE-754 bits.
#[derive(Debug, Clone)]
pub struct CameraInfoRecord {
    pub name: Vec<u8>,
    pub camera_id: i32,
    pub max_height: i64,
    pub max_width: i64,
    pub is_color_cam: u32,
    pub bayer_pattern: u32,
    pub supported_bins: Vec<i32>,
    pub supported_video_format: Vec<i32>,
    pub pixel_size_bits: u64,
    pub mechanical_shutter: u32,
    pub st4_port: u32,
    pub is_cooler_cam: u32,
    pub is_usb3_host: u32,
    pub is_usb3_camera: u32,
    pub elec_per_adu_bits: u32,
    pub bit_depth: i32,
    pub is_trigger_cam: u32,
}

/// The static description of one connected camera.
#[derive(Debug, Clone)]
pub struct CameraProperties {
    pub name: Vec<u8>,
    pub camera_id: i32,
    pub max_height: i64,
    pub max_width: i64,
    pub is_color_cam: bool,
    pub bayer_pattern: u32,
    /// The binning factors the camera supports, in the driver's order.
    pub supported_bins: Vec<i32>,
    /// The image types the camera supports, in the driver's order.
    pub supported_video_formats: Vec<i32>,
    /// Pixel size in micrometres, as IEEE-754 double bits.
    pub pixel_size_bits: u64,
    pub mechanical_shutter: bool,
    pub st4_port: bool,
    pub is_cooler_cam: bool,
    pub is_usb3_host: bool,
    pub is_usb3_camera: bool,
    /// Electrons per ADU, as IEEE-754 single bits.
    pub elec_per_adu_bits: u32,
    pub bit_depth: i32,
    pub is_trigger_cam: bool,
}

/// `p` describes what `rec` holds.
pub open spec fn describes(p: CameraProperties, rec: CameraInfoRecord) -> bool {
    &&& stops_at(p.name@, rec.name@, 0u8)
    &&& p.camera_id == rec.camera_id
    &&& p.max_height == rec.max_height
    &&& p.max_width == rec.max_width
    &&& p.is_color_cam == (rec.is_color_cam != 0)
    &&& p.bayer_pattern == rec.bayer_pattern
    &&& stops_at(p.supported_bins@, rec.supported_bins@, 0i32)
    &&& stops_at(p.supported_video_formats@, rec.supported_video_format@, IMG_END)
    &&& p.pixel_size_bits == rec.pixel_size_bits
    &&& p.mechanical_shutter == (rec.mechanical_shutter != 0)
    &&& p.st4_port == (rec.st4_port != 0)
    &&& p.is_cooler_cam == (rec.is_cooler_cam != 0)
    &&& p.is_usb3_host == (rec.is_usb3_host != 0)
    &&& p.is_usb3_camera == (rec.is_usb3_camera != 0)
    &&& p.elec_per_adu_bits == rec.elec_per_adu_bits
    &&& p.bit_depth == rec.bit_depth
    &&& p.is_trigger_cam == (rec.is_trigger_cam != 0)
}

impl CameraProperties {
    /// Reads the driver's record of a camera.
    pub fn from_record(rec: &CameraInfoRecord) -> (p: CameraProperties)
        ensures
            describes(p, *rec),
    {
        CameraProperties {
            name: until_nul(&rec.name),
            camera_id: rec.camera_id,
            max_height: rec.max_height,
            max_width: rec.max_width,
            is_color_cam: rec.is_color_cam != 0,
            bayer_pattern: rec.bayer_pattern,
            supported_bins: until_sentinel(&rec.supported_bins, 0),
            supported_video_formats: until_sentinel(&rec.supported_video_format, IMG_END),
            pixel_size_bits: rec.pixel_size_bits,
            mechanical_shutter: rec.mechanical_shutter != 0,
            st4_port: rec.st4_port != 0,
            is_cooler_cam: rec.is_cooler_cam != 0,
            is_usb3_host: rec.is_usb3_host != 0,
            is_usb3_camera: rec.is_usb3_camera != 0,
            elec_per_adu_bits: rec.elec_per_adu_bits,
            bit_depth: rec.bit_depth,
            is_trigger_cam: rec.is_trigger_cam != 0,
        }
    }
}

/// A control's capability as the driver fills it in, field for field.
#[derive(Debug, Clone)]
pub struct ControlCapsRecord {
    pub name: Vec<u8>,
    pub description: Vec<u8>,
    pub max_value: i64,
    pub min_value: i64,
    pub default_value: i64,
    pub is_auto_supported: u32,
    pub is_writable: u32,
    pub control_type: u32,
}

/// What one control of a camera accepts.
#[derive(Debug, Clone)]
pub struct ControlCaps {
    pub name: Vec<u8>,
    pub description: Vec<u8>,
    pub max_value: i64,
    pub min_value: i64,
    pub default_value: i64,
    pub is_auto_supported: bool,
    pub is_writable: bool,
    pub control_type: u32,
}

/// `c` describes what `rec` holds.
pub open spec fn caps_describe(c: ControlCaps, rec: ControlCapsRecord) -> bool {
    &&& stops_at(c.name@, rec.name@, 0u8)
    &&& stops_at(c.description@, rec.description@, 0u8)
    &&& c.max_value == rec.max_value
    &&& c.min_value == rec.min_value
    &&& c.default_value == rec.default_value
    &&& c.is_auto_supported == (rec.is_auto_supported != 0)
    &&& c.is_writable == (rec.is_writable != 0)
    &&& c.control_type == rec.control_type
}

impl ControlCaps {
    /// Reads the driver's record of a control.
    pub fn from_record(rec: &ControlCapsRecord) -> (c: ControlCaps)
        ensures
            caps_describe(c, *rec),
    {
        ControlCaps {
            name: until_nul(&rec.name),
            description: until_nul(&rec.description),
            max_value: rec.max_value,
            min_value: rec.min_value,
            default_value: rec.default_value,
            is_auto_supported: rec.is_auto_supported != 0,
            is_writable: rec.is_writable != 0,
            control_type: rec.control_type,
        }
    }
}

} // verus!
