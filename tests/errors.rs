use asi_camera2::error::{classify, status_result, ASIError, ErrorKind};
use asi_camera2::sdk::SdkCall;
use asi_camera2::text::append_decimal;

fn error(code: i32, source: &str) -> ASIError {
    ASIError { error_code: code, source: source.to_string() }
}

#[test]
fn zero_is_success() {
    assert_eq!(classify(0), ErrorKind::Success);
    assert_eq!(ErrorKind::Success.message(), "OK");
}

#[test]
fn every_documented_code_has_its_kind() {
    let kinds = [
        ErrorKind::Success,
        ErrorKind::InvalidIndex,
        ErrorKind::InvalidId,
        ErrorKind::InvalidControlType,
        ErrorKind::CameraClosed,
        ErrorKind::CameraRemoved,
        ErrorKind::InvalidPath,
        ErrorKind::InvalidFileFormat,
        ErrorKind::InvalidSize,
        ErrorKind::InvalidImageType,
        ErrorKind::OutOfBoundary,
        ErrorKind::Timeout,
        ErrorKind::InvalidSequence,
        ErrorKind::BufferTooSmall,
        ErrorKind::VideoModeActive,
        ErrorKind::ExposureInProgress,
        ErrorKind::GeneralError,
    ];
    for (code, kind) in kinds.iter().enumerate() {
        assert_eq!(classify(code as i32), *kind);
    }
}

#[test]
fn undocumented_codes_are_unknown() {
    assert_eq!(classify(17), ErrorKind::Unknown);
    assert_eq!(classify(12345), ErrorKind::Unknown);
    assert_eq!(classify(-1), ErrorKind::Unknown);
    assert_eq!(classify(i32::MIN), ErrorKind::Unknown);
}

#[test]
fn unknown_code_text_shows_the_number() {
    let e = error(12345, "open");
    assert_eq!(e.kind(), ErrorKind::Unknown);
    let text = e.to_string();
    assert!(text.contains("12345"));
    assert_eq!(text, "Unknown error (source=open, code=12345)");
}

#[test]
fn error_text_format() {
    assert_eq!(
        error(13, "get_video_data").to_string(),
        "Buffer size is not big enough (source=get_video_data, code=13)"
    );
    assert_eq!(
        error(1, "get_property").to_string(),
        "No camera connected or index value out of boundary (source=get_property, code=1)"
    );
    assert_eq!(error(-7, "init").to_string(), "Unknown error (source=init, code=-7)");
    assert_eq!(error(4, "init").to_string(), "Camera didn't open (source=init, code=4)");
}

#[test]
fn error_messages() {
    assert_eq!(ErrorKind::InvalidId.message(), "Invalid ID");
    assert_eq!(ErrorKind::InvalidPath.message(), "Cannot find the path of the file");
    assert_eq!(ErrorKind::InvalidFileFormat.message(), "Invalid file format");
    assert_eq!(ErrorKind::InvalidSize.message(), "Wrong video format size");
    assert_eq!(ErrorKind::InvalidImageType.message(), "Unsupported image format");
    assert_eq!(ErrorKind::InvalidSequence.message(), "Stop capture first");
    assert_eq!(ErrorKind::VideoModeActive.message(), "Video mode active");
    assert_eq!(ErrorKind::ExposureInProgress.message(), "Exposure in progress");
    assert_eq!(
        ErrorKind::GeneralError.message(),
        "General error, e.g. value is out of valid range"
    );
    assert_eq!(ErrorKind::Unknown.message(), "Unknown error");
}

#[test]
fn decimal_rendering() {
    let cases: [(i32, &str); 6] = [
        (0, "0"),
        (9, "9"),
        (10, "10"),
        (-42, "-42"),
        (i32::MAX, "2147483647"),
        (i32::MIN, "-2147483648"),
    ];
    for (n, text) in cases.iter() {
        let mut s = String::from("x=");
        append_decimal(&mut s, *n);
        assert_eq!(s, format!("x={}", text));
    }
}

#[test]
fn status_result_keeps_output_or_records_error() {
    assert_eq!(status_result(0, "get_num_controls", 12i32).unwrap(), 12);
    let e = status_result(4, "get_num_controls", 12i32).unwrap_err();
    assert_eq!(e.error_code(), 4);
    assert_eq!(e.source(), "get_num_controls");
    assert_eq!(e.kind(), ErrorKind::CameraClosed);
}

#[test]
fn property_query_without_cameras_is_invalid_index() {
    let call = SdkCall::GetCameraProperty { camera_index: 0 };
    let e = status_result(1, call.operation(), ()).unwrap_err();
    assert_eq!(e.kind(), ErrorKind::InvalidIndex);
    assert_eq!(e.source(), "get_property");
}
