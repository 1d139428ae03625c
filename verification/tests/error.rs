use tritonserver_rs::error::{Error, ErrorCode};
use tritonserver_rs::memory::MemoryType;

#[test]
fn create() {
    let error_code: ErrorCode = ErrorCode::Unknown;
    let error_description: &str = "some error";

    let err = Error::new(error_code, error_description);

    assert_eq!(err.code(), error_code);
    assert_eq!(err.message(), error_description);
}

#[test]
fn error_names() {
    assert_eq!(Error::new(ErrorCode::Unknown, "").name(), "Unknown");
    assert_eq!(Error::new(ErrorCode::Internal, "").name(), "Internal");
    assert_eq!(Error::new(ErrorCode::NotFound, "").name(), "Not found");
    assert_eq!(Error::new(ErrorCode::InvalidArg, "").name(), "Invalid argument");
    assert_eq!(Error::new(ErrorCode::Unavailable, "").name(), "Unavailable");
    assert_eq!(Error::new(ErrorCode::Unsupported, "").name(), "Unsupported");
    assert_eq!(Error::new(ErrorCode::Alreadyxists, "").name(), "Already exists");
}

#[test]
fn wrong_type_is_unsupported() {
    let err = Error::wrong_type(MemoryType::Gpu);
    assert_eq!(err.code(), ErrorCode::Unsupported);
}
