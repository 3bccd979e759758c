use asi_camera2::properties::{
    until_nul, until_sentinel, CameraInfoRecord, CameraProperties, ControlCaps, ControlCapsRecord,
};
use asi_camera2::sdk::{
    from_asi_bool, roi_buffer_size, to_asi_bool, ExposureStatus, IMG_END, IMG_RAW16, IMG_RAW8,
    IMG_RGB24, IMG_Y8,
};

fn padded(text: &[u8], len: usize) -> Vec<u8> {
    let mut v = text.to_vec();
    v.resize(len, 0);
    v
}

#[test]
fn names_end_at_nul() {
    assert_eq!(until_nul(&padded(b"ZWO ASI120MM", 64)), b"ZWO ASI120MM".to_vec());
    assert_eq!(until_nul(&vec![0, 65, 66]), Vec::<u8>::new());
    assert_eq!(until_nul(&vec![65, 66]), vec![65, 66]);
    assert_eq!(until_nul(&Vec::new()), Vec::<u8>::new());
}

#[test]
fn lists_end_at_their_sentinel() {
    let mut bins = vec![1, 2, 4];
    bins.resize(16, 0);
    assert_eq!(until_sentinel(&bins, 0), vec![1, 2, 4]);
    let formats = vec![0, 2, 3, -1, 1, -1, -1, -1];
    assert_eq!(until_sentinel(&formats, -1), vec![0, 2, 3]);
    assert_eq!(until_sentinel(&vec![5, 6], 0), vec![5, 6]);
    assert_eq!(until_sentinel(&vec![-1, 2], -1), Vec::<i32>::new());
}

fn camera_record() -> CameraInfoRecord {
    let mut bins = vec![1, 2];
    bins.resize(16, 0);
    CameraInfoRecord {
        name: padded(b"ZWO ASI183MM Pro", 64),
        camera_id: 3,
        max_height: 1080,
        max_width: 1920,
        is_color_cam: 0,
        bayer_pattern: 0,
        supported_bins: bins,
        supported_video_format: vec![0, 2, 3, -1, 0, 0, 0, 0],
        pixel_size_bits: 2.4f64.to_bits(),
        mechanical_shutter: 0,
        st4_port: 1,
        is_cooler_cam: 1,
        is_usb3_host: 1,
        is_usb3_camera: 1,
        elec_per_adu_bits: 0.25f32.to_bits(),
        bit_depth: 12,
        is_trigger_cam: 0,
    }
}

#[test]
fn camera_properties_from_record() {
    let p = CameraProperties::from_record(&camera_record());
    assert_eq!(p.name, b"ZWO ASI183MM Pro".to_vec());
    assert_eq!(p.camera_id, 3);
    assert_eq!((p.max_width, p.max_height), (1920, 1080));
    assert!(!p.is_color_cam);
    assert_eq!(p.supported_bins, vec![1, 2]);
    assert_eq!(p.supported_video_formats, vec![0, 2, 3]);
    assert_eq!(f64::from_bits(p.pixel_size_bits), 2.4);
    assert!(!p.mechanical_shutter);
    assert!(p.st4_port && p.is_cooler_cam && p.is_usb3_host && p.is_usb3_camera);
    assert_eq!(f32::from_bits(p.elec_per_adu_bits), 0.25);
    assert_eq!(p.bit_depth, 12);
    assert!(!p.is_trigger_cam);
}

#[test]
fn control_caps_from_record() {
    let rec = ControlCapsRecord {
        name: padded(b"Exposure", 64),
        description: padded(b"Exposure Time(us)", 128),
        max_value: 2_000_000_000,
        min_value: 32,
        default_value: 10_000,
        is_auto_supported: 1,
        is_writable: 1,
        control_type: 1,
    };
    let c = ControlCaps::from_record(&rec);
    assert_eq!(c.name, b"Exposure".to_vec());
    assert_eq!(c.description, b"Exposure Time(us)".to_vec());
    assert_eq!((c.min_value, c.max_value, c.default_value), (32, 2_000_000_000, 10_000));
    assert!(c.is_auto_supported && c.is_writable);
    assert_eq!(c.control_type, 1);
}

#[test]
fn exposure_status_codes() {
    assert_eq!(ExposureStatus::from_raw(0), Some(ExposureStatus::Idle));
    assert_eq!(ExposureStatus::from_raw(1), Some(ExposureStatus::Working));
    assert_eq!(ExposureStatus::from_raw(2), Some(ExposureStatus::Success));
    assert_eq!(ExposureStatus::from_raw(3), Some(ExposureStatus::Failed));
    assert_eq!(ExposureStatus::from_raw(4), None);
}

#[test]
fn driver_booleans() {
    assert_eq!(to_asi_bool(true), 1);
    assert_eq!(to_asi_bool(false), 0);
    assert!(from_asi_bool(1));
    assert!(from_asi_bool(7));
    assert!(!from_asi_bool(0));
}

#[test]
fn frame_sizes() {
    assert_eq!(roi_buffer_size(1920, 1080, IMG_RAW8), Some(2_073_600));
    assert_eq!(roi_buffer_size(1920, 1080, IMG_Y8), Some(2_073_600));
    assert_eq!(roi_buffer_size(1920, 1080, IMG_RAW16), Some(4_147_200));
    assert_eq!(roi_buffer_size(1920, 1080, IMG_RGB24), Some(6_220_800));
    assert_eq!(roi_buffer_size(0, 1080, IMG_RAW8), Some(0));
    assert_eq!(roi_buffer_size(1920, 1080, IMG_END), None);
    assert_eq!(roi_buffer_size(-1, 1080, IMG_RAW8), None);
    assert_eq!(roi_buffer_size(i32::MAX, i32::MAX, IMG_RAW16), Some(2 * (i32::MAX as i64) * (i32::MAX as i64)));
    assert_eq!(roi_buffer_size(i32::MAX, i32::MAX, IMG_RGB24), None);
}
