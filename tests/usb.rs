use asi_camera2::usb_reset::{
    device_matches, first_error, reset_asi_cameras, reset_plan, UsbDeviceId, ZWO_VENDOR_ID,
};

fn dev(vendor_id: u16, product_id: u16) -> UsbDeviceId {
    UsbDeviceId { vendor_id, product_id }
}

#[test]
fn no_matching_device_resets_nothing() {
    let devices = vec![dev(0x1d6b, 0x0002), dev(0x046d, 0xc52b)];
    let plan = reset_asi_cameras(&devices);
    assert!(plan.is_empty());
    let outcomes: Vec<Result<(), String>> = plan.iter().map(|_| Ok(())).collect();
    assert_eq!(first_error(outcomes), Ok(()));
    assert!(reset_plan(&Vec::new(), 0x03c3, None).is_empty());
}

#[test]
fn asi_cameras_of_every_product_are_selected() {
    let devices = vec![dev(0x03c3, 0x120a), dev(0x1d6b, 0x0002), dev(0x03c3, 0x183b)];
    assert_eq!(ZWO_VENDOR_ID, 0x03c3);
    assert_eq!(reset_asi_cameras(&devices), vec![0, 2]);
}

#[test]
fn product_id_narrows_the_selection() {
    let devices = vec![dev(0x03c3, 0x120a), dev(0x03c3, 0x183b), dev(0x1234, 0x183b)];
    assert_eq!(reset_plan(&devices, 0x03c3, Some(0x183b)), vec![1]);
    assert_eq!(reset_plan(&devices, 0x03c3, Some(0x9999)), Vec::<usize>::new());
    assert!(device_matches(&devices[0], 0x03c3, None));
    assert!(!device_matches(&devices[0], 0x03c3, Some(0x183b)));
    assert!(!device_matches(&devices[2], 0x03c3, Some(0x183b)));
}

#[test]
fn first_failure_is_reported_after_all_attempts() {
    let outcomes: Vec<Result<(), &str>> = vec![Ok(()), Err("busy"), Ok(()), Err("gone")];
    assert_eq!(first_error(outcomes), Err("busy"));
    let all_ok: Vec<Result<(), &str>> = vec![Ok(()), Ok(())];
    assert_eq!(first_error(all_ok), Ok(()));
}
