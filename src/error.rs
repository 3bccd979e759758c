//! Classification of the driver's status codes and the error record that
//! every fallible operation returns.

use vstd::prelude::*;

use crate::text::{append_decimal, decimal, occurs_in};

verus! {

/// What a driver status code means.
#[derive(Debug, Clone, Copy, PartialEq, Eq, Structural)]
pub enum ErrorKind {
    Success,
    InvalidIndex,
    InvalidId,
    InvalidControlType,
    CameraClosed,
    CameraRemoved,
    InvalidPath,
    InvalidFileFormat,
    InvalidSize,
    InvalidImageType,
    OutOfBoundary,
    Timeout,
    InvalidSequence,
    BufferTooSmall,
    VideoModeActive,
    ExposureInProgress,
    GeneralError,
    /// Any code the driver does not document.
    Unknown,
}

/// The kind of the status code `code`, as the driver documents its codes.
pub open spec fn kind_of(code: int) -> ErrorKind {
    if code == 0 {
        ErrorKind::Success
    } else if code == 1 {
        ErrorKind::InvalidIndex
    } else if code == 2 {
        ErrorKind::InvalidId
    } else if code == 3 {
        ErrorKind::InvalidControlType
    } else if code == 4 {
        ErrorKind::CameraClosed
    } else if code == 5 {
        ErrorKind::CameraRemoved
    } else if code == 6 {
        ErrorKind::InvalidPath
    } else if code == 7 {
        ErrorKind::InvalidFileFormat
    } else if code == 8 {
        ErrorKind::InvalidSize
    } else if code == 9 {
        ErrorKind::InvalidImageType
    } else if code == 10 {
        ErrorKind::OutOfBoundary
    } else if code == 11 {
        ErrorKind::Timeout
    } else if code == 12 {
        ErrorKind::InvalidSequence
    } else if code == 13 {
        ErrorKind::BufferTooSmall
    } else if code == 14 {
        ErrorKind::VideoModeActive
    } else if code == 15 {
        ErrorKind::ExposureInProgress
    } else if code == 16 {
        ErrorKind::GeneralError
    } else {
        ErrorKind::Unknown
    }
}

/// Classifies a driver status code.
pub fn classify(code: i32) -> (k: ErrorKind)
    ensures
        k == kind_of(code as int),
{
    match code {
        0 => ErrorKind::Success,
        1 => ErrorKind::InvalidIndex,
        2 => ErrorKind::InvalidId,
        3 => ErrorKind::InvalidControlType,
        4 => ErrorKind::CameraClosed,
        5 => ErrorKind::CameraRemoved,
        6 => ErrorKind::InvalidPath,
        7 => ErrorKind::InvalidFileFormat,
        8 => ErrorKind::InvalidSize,
        9 => ErrorKind::InvalidImageType,
        10 => ErrorKind::OutOfBoundary,
        11 => ErrorKind::Timeout,
        12 => ErrorKind::InvalidSequence,
        13 => ErrorKind::BufferTooSmall,
        14 => ErrorKind::VideoModeActive,
        15 => ErrorKind::ExposureInProgress,
        16 => ErrorKind::GeneralError,
        _ => ErrorKind::Unknown,
    }
}

/// The human-readable text of each kind.
pub open spec fn kind_text(k: ErrorKind) -> Seq<char> {
    match k {
        ErrorKind::Success => "OK"@,
        ErrorKind::InvalidIndex => "No camera connected or index value out of boundary"@,
        ErrorKind::InvalidId => "Invalid ID"@,
        ErrorKind::InvalidControlType => "Invalid control type"@,
        ErrorKind::CameraClosed => "Camera didn't open"@,
        ErrorKind::CameraRemoved => "Failed to find the camera, maybe the camera has been removed"@,
        ErrorKind::InvalidPath => "Cannot find the path of the file"@,
        ErrorKind::InvalidFileFormat => "Invalid file format"@,
        ErrorKind::InvalidSize => "Wrong video format size"@,
        ErrorKind::InvalidImageType => "Unsupported image format"@,
        ErrorKind::OutOfBoundary => "The startpos is outside the image boundary"@,
        ErrorKind::Timeout => "Timeout"@,
        ErrorKind::InvalidSequence => "Stop capture first"@,
        ErrorKind::BufferTooSmall => "Buffer size is not big enough"@,
        ErrorKind::VideoModeActive => "Video mode active"@,
        ErrorKind::ExposureInProgress => "Exposure in progress"@,
        ErrorKind::GeneralError => "General error, e.g. value is out of valid range"@,
        ErrorKind::Unknown => "Unknown error"@,
    }
}

impl ErrorKind {
    /// The human-readable text of this kind.
    pub fn message(&self) -> (r: &'static str)
        ensures
            r@ == kind_text(*self),
    {
        match self {
            ErrorKind::Success => "OK",
            ErrorKind::InvalidIndex => "No camera connected or index value out of boundary",
            ErrorKind::InvalidId => "Invalid ID",
            ErrorKind::InvalidControlType => "Invalid control type",
            ErrorKind::CameraClosed => "Camera didn't open",
            ErrorKind::CameraRemoved => "Failed to find the camera, maybe the camera has been removed",
            ErrorKind::InvalidPath => "Cannot find the path of the file",
            ErrorKind::InvalidFileFormat => "Invalid file format",
            ErrorKind::InvalidSize => "Wrong video format size",
            ErrorKind::InvalidImageType => "Unsupported image format",
            ErrorKind::OutOfBoundary => "The startpos is outside the image boundary",
            ErrorKind::Timeout => "Timeout",
            ErrorKind::InvalidSequence => "Stop capture first",
            ErrorKind::BufferTooSmall => "Buffer size is not big enough",
            ErrorKind::VideoModeActive => "Video mode active",
            ErrorKind::ExposureInProgress => "Exposure in progress",
            ErrorKind::GeneralError => "General error, e.g. value is out of valid range",
            ErrorKind::Unknown => "Unknown error",
        }
    }
}

/// A failed driver call: its status code and the operation that made it.
#[derive(Debug)]
pub struct ASIError {
    pub error_code: i32,
    pub source: String,
}

/// The text an error shows: `<message> (source=<operation>, code=<code>)`.
pub open spec fn error_text(code: i32, source: Seq<char>) -> Seq<char> {
    kind_text(kind_of(code as int)) + " (source="@ + source + ", code="@ + decimal(code as int)
        + ")"@
}

impl ASIError {
    /// The kind of this error's status code.
    pub fn kind(&self) -> (k: ErrorKind)
        ensures
            k == kind_of(self.error_code as int),
    {
        classify(self.error_code)
    }

    /// The driver's status code.
    pub fn error_code(&self) -> (r: i32)
        ensures
            r == self.error_code,
    {
        self.error_code
    }

    /// The name of the operation that failed.
    pub fn source(&self) -> (r: &str)
        ensures
            r@ == self.source@,
    {
        self.source.as_str()
    }

    /// The error as text: its kind's message, the operation and the code.
    pub fn to_string(&self) -> (r: String)
        ensures
            r@ == error_text(self.error_code, self.source@),
    {
        let kind = self.kind();
        let mut r = String::from_str(kind.message());
        r.append(" (source=");
        r.append(self.source.as_str());
        r.append(", code=");
        append_decimal(&mut r, self.error_code);
        r.append(")");
        r
    }
}

/// The result owed for a driver call that answered `status` and, when it
/// succeeded, `output`; `operation` is the name of the operation that made it.
pub open spec fn status_outcome<T>(status: i32, operation: Seq<char>, output: T, r: Result<T, ASIError>) -> bool {
    if status == 0 {
        r == Ok::<T, ASIError>(output)
    } else {
        r matches Err(e) && e.error_code == status && e.source@ == operation
    }
}

/// Turns a driver status code into a result: `0` succeeds with `output`, any
/// other code fails with an error that records it and `operation`.
pub fn status_result<T>(status: i32, operation: &str, output: T) -> (r: Result<T, ASIError>)
    ensures
        status_outcome(status, operation@, output, r),
{
    if status == 0 {
        Ok(output)
    } else {
        Err(ASIError { error_code: status, source: String::from_str(operation) })
    }
}

/// Status `0` is success; any other code the driver does not document is
/// `Unknown`, and the text of an error with that code shows the code.
pub proof fn unknown_codes_show_their_number(code: i32, source: Seq<char>)
    requires
        code < 0 || code > 16,
    ensures
        kind_of(0) == ErrorKind::Success,
        kind_of(code as int) == ErrorKind::Unknown,
        occurs_in(decimal(code as int), error_text(code, source)),
{
    let prefix = kind_text(ErrorKind::Unknown) + " (source="@ + source + ", code="@;
    let d = decimal(code as int);
    let text = error_text(code, source);
    assert(text == prefix + d + ")"@);
    assert(text.subrange(prefix.len() as int, (prefix.len() + d.len()) as int) =~= d);
}

} // verus!
