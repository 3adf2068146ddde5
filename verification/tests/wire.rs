use key_value_service::gateway::tonic_status_into_hyper_status_code;
use key_value_service::rpc::{RpcCode, RpcStatus};
use key_value_service::storage::{InMemoryKeyValueStorage, NO_ENTRY_MESSAGE};

/// The library's code for a status of the RPC framework.
fn code_of(status: &tonic::Status) -> RpcCode {
    RpcCode::from_i32(i32::from(status.code()))
}

#[test]
fn code_numbers_are_those_of_the_rpc_framework() {
    for number in -3..=40 {
        let code = RpcCode::from_i32(number);
        assert_eq!(code.as_i32(), i32::from(tonic::Code::from_i32(number)));
        assert_eq!(tonic::Code::from_i32(code.as_i32()), tonic::Code::from_i32(number));
    }
}

#[test]
fn codes_convert_to_the_same_name() {
    let pairs = [
        (tonic::Code::Ok, RpcCode::Okay),
        (tonic::Code::Cancelled, RpcCode::Cancelled),
        (tonic::Code::Unknown, RpcCode::Unknown),
        (tonic::Code::InvalidArgument, RpcCode::InvalidArgument),
        (tonic::Code::DeadlineExceeded, RpcCode::DeadlineExceeded),
        (tonic::Code::NotFound, RpcCode::NotFound),
        (tonic::Code::AlreadyExists, RpcCode::AlreadyExists),
        (tonic::Code::PermissionDenied, RpcCode::PermissionDenied),
        (tonic::Code::ResourceExhausted, RpcCode::ResourceExhausted),
        (tonic::Code::FailedPrecondition, RpcCode::FailedPrecondition),
        (tonic::Code::Aborted, RpcCode::Aborted),
        (tonic::Code::OutOfRange, RpcCode::OutOfRange),
        (tonic::Code::Unimplemented, RpcCode::Unimplemented),
        (tonic::Code::Internal, RpcCode::Internal),
        (tonic::Code::Unavailable, RpcCode::Unavailable),
        (tonic::Code::DataLoss, RpcCode::DataLoss),
        (tonic::Code::Unauthenticated, RpcCode::Unauthenticated),
    ];
    for (theirs, ours) in pairs {
        assert_eq!(RpcCode::from_i32(i32::from(theirs)), ours);
        assert_eq!(tonic::Code::from_i32(ours.as_i32()), theirs);
    }
}

#[test]
fn statuses_of_the_rpc_framework_map_to_the_statuses_of_the_http_server() {
    let pairs = [
        (tonic::Code::Ok, hyper::StatusCode::OK),
        (tonic::Code::Cancelled, hyper::StatusCode::REQUEST_TIMEOUT),
        (tonic::Code::Unknown, hyper::StatusCode::INTERNAL_SERVER_ERROR),
        (tonic::Code::InvalidArgument, hyper::StatusCode::BAD_REQUEST),
        (tonic::Code::DeadlineExceeded, hyper::StatusCode::GATEWAY_TIMEOUT),
        (tonic::Code::NotFound, hyper::StatusCode::NOT_FOUND),
        (tonic::Code::AlreadyExists, hyper::StatusCode::CONFLICT),
        (tonic::Code::PermissionDenied, hyper::StatusCode::FORBIDDEN),
        (tonic::Code::ResourceExhausted, hyper::StatusCode::TOO_MANY_REQUESTS),
        (tonic::Code::FailedPrecondition, hyper::StatusCode::PRECONDITION_FAILED),
        (tonic::Code::Aborted, hyper::StatusCode::CONFLICT),
        (tonic::Code::OutOfRange, hyper::StatusCode::BAD_REQUEST),
        (tonic::Code::Unimplemented, hyper::StatusCode::NOT_IMPLEMENTED),
        (tonic::Code::Internal, hyper::StatusCode::INTERNAL_SERVER_ERROR),
        (tonic::Code::Unavailable, hyper::StatusCode::SERVICE_UNAVAILABLE),
        (tonic::Code::DataLoss, hyper::StatusCode::INTERNAL_SERVER_ERROR),
        (tonic::Code::Unauthenticated, hyper::StatusCode::UNAUTHORIZED),
    ];
    for (code, expected) in pairs {
        let tonic_status = tonic::Status::new(code, "synthetic failure");
        let status = RpcStatus::new(code_of(&tonic_status), tonic_status.message());
        let answered = tonic_status_into_hyper_status_code(status);
        assert_eq!(hyper::StatusCode::from_u16(answered.as_u16()).ok(), Some(expected));
    }
}

#[test]
fn a_missing_entry_reads_as_the_not_found_status_of_the_rpc_framework() {
    let storage = InMemoryKeyValueStorage::new();
    let request = key_value_service::rpc::LoadRequest { key: "key".to_string() };
    let status = storage.load_key_value(request).expect_err("nothing was stored");
    let expected = tonic::Status::not_found("There is no entry under provided key");
    assert_eq!(tonic::Code::from_i32(status.code.as_i32()), expected.code());
    assert_eq!(status.message, expected.message());
    assert_eq!(NO_ENTRY_MESSAGE, expected.message());
}
