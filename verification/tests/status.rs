use rpc_core::status::{Status, StatusCode};
use rpc_core::status::{
    GRPC_STATUS_ABORTED, GRPC_STATUS_ALREADY_EXISTS, GRPC_STATUS_CANCELLED, GRPC_STATUS_DATA_LOSS,
    GRPC_STATUS_DEADLINE_EXCEEDED, GRPC_STATUS_FAILED_PRECONDITION, GRPC_STATUS_INTERNAL,
    GRPC_STATUS_INVALID_ARGUMENT, GRPC_STATUS_NOT_FOUND, GRPC_STATUS_OK,
    GRPC_STATUS_OUT_OF_RANGE, GRPC_STATUS_PERMISSION_DENIED, GRPC_STATUS_RESOURCE_EXHAUSTED,
    GRPC_STATUS_UNAUTHENTICATED, GRPC_STATUS_UNAVAILABLE, GRPC_STATUS_UNIMPLEMENTED,
    GRPC_STATUS_UNKNOWN,
};

#[test]
fn numeric_values_match_the_fixed_table() {
    assert_eq!(StatusCode::Okay.as_i32(), GRPC_STATUS_OK);
    assert_eq!(StatusCode::Cancelled.as_i32(), GRPC_STATUS_CANCELLED);
    assert_eq!(StatusCode::Unknown.as_i32(), GRPC_STATUS_UNKNOWN);
    assert_eq!(StatusCode::InvalidArgument.as_i32(), GRPC_STATUS_INVALID_ARGUMENT);
    assert_eq!(StatusCode::DeadlineExceeded.as_i32(), GRPC_STATUS_DEADLINE_EXCEEDED);
    assert_eq!(StatusCode::NotFound.as_i32(), GRPC_STATUS_NOT_FOUND);
    assert_eq!(StatusCode::AlreadyExists.as_i32(), GRPC_STATUS_ALREADY_EXISTS);
    assert_eq!(StatusCode::PermissionDenied.as_i32(), GRPC_STATUS_PERMISSION_DENIED);
    assert_eq!(StatusCode::ResourceExhausted.as_i32(), GRPC_STATUS_RESOURCE_EXHAUSTED);
    assert_eq!(StatusCode::FailedPrecondition.as_i32(), GRPC_STATUS_FAILED_PRECONDITION);
    assert_eq!(StatusCode::Aborted.as_i32(), GRPC_STATUS_ABORTED);
    assert_eq!(StatusCode::OutOfRange.as_i32(), GRPC_STATUS_OUT_OF_RANGE);
    assert_eq!(StatusCode::Unimplemented.as_i32(), GRPC_STATUS_UNIMPLEMENTED);
    assert_eq!(StatusCode::Internal.as_i32(), GRPC_STATUS_INTERNAL);
    assert_eq!(StatusCode::Unavailable.as_i32(), GRPC_STATUS_UNAVAILABLE);
    assert_eq!(StatusCode::DataLoss.as_i32(), GRPC_STATUS_DATA_LOSS);
    assert_eq!(StatusCode::Unauthenticated.as_i32(), GRPC_STATUS_UNAUTHENTICATED);
    assert_eq!(GRPC_STATUS_OK, 0);
    assert_eq!(GRPC_STATUS_DEADLINE_EXCEEDED, 4);
    assert_eq!(GRPC_STATUS_DATA_LOSS, 15);
    assert_eq!(GRPC_STATUS_UNAUTHENTICATED, 16);
}

#[test]
fn from_i32_roundtrips_every_assigned_value() {
    for n in 0..=16 {
        let code = StatusCode::from_i32(n).unwrap();
        assert_eq!(code.as_i32(), n);
    }
    assert_eq!(StatusCode::from_i32(-1), None);
    assert_eq!(StatusCode::from_i32(17), None);
    assert_eq!(StatusCode::from_i32(255), None);
}

#[test]
fn status_carries_code_message_details() {
    let st = Status::new(StatusCode::NotFound, "no such thing".to_string(), Some("detail".to_string()));
    assert_eq!(st.get_code(), 5);
    assert_eq!(st.get_message(), "no such thing");
    assert_eq!(st.get_details(), "detail");
    assert!(st.is_not_found());
    assert!(!st.is_ok());
}

#[test]
fn absent_details_default_to_empty() {
    let st = Status::new(StatusCode::Okay, "done".to_string(), None);
    assert_eq!(st.get_details(), "");
    assert!(st.is_ok());
}

#[test]
fn classification_predicates_match_codes() {
    let st = Status::new(StatusCode::Aborted, "a".to_string(), None);
    assert!(st.is_aborted());
    assert!(!st.is_cancelled());
    assert!(!st.is_unknown());
    assert!(!st.is_invalid_argument());
    assert!(!st.is_deadline_exceeded());
    assert!(!st.is_already_exists());
    assert!(!st.is_permission_denied());
    assert!(!st.is_unauthenticated());
    assert!(!st.is_resource_exhausted());
    assert!(!st.is_failed_precondition());
    assert!(!st.is_out_of_range());
    assert!(!st.is_unimplemented());
    assert!(!st.is_internal());
    assert!(!st.is_unavailable());
    assert!(!st.is_data_loss());
}

#[test]
fn rendering_is_exact() {
    let st = Status::new(StatusCode::Internal, "boom".to_string(), Some("stack".to_string()));
    assert_eq!(st.to_string(), "Status(code=13, message='boom', details='stack')");
}

#[test]
fn deadline_exceeded_constructor() {
    let st = Status::deadline_exceeded();
    assert_eq!(st.get_code(), 4);
    assert!(st.is_deadline_exceeded());
    assert_eq!(st.get_message(), "Deadline exceeded");
    assert_eq!(st.get_details(), "");
}
