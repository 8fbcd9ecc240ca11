use aws_nitro_enclaves_nsm_api::api::ErrorCode;
use aws_nitro_enclaves_nsm_api::api::Request;
use aws_nitro_enclaves_nsm_api::api::Response;
use nsm_driver::nsm_process_request;
use nsm_driver::nsm_process_request_bytes;
use nsm_driver::MockPlatform;
use nsm_driver::NSM_REQUEST_MAX_SIZE;
use nsm_driver::NSM_RESPONSE_MAX_SIZE;
use serde_bytes::ByteBuf;

#[test]
fn oversize_encoding_returns_input_too_large_without_exchange() {
    // One byte over the input capacity: rejected locally, no exchange happens.
    let mut mock = MockPlatform::new(None, Vec::new(), 3);
    let bytes = vec![0u8; NSM_REQUEST_MAX_SIZE + 1];
    assert_eq!(bytes.len(), 4097);
    let r = nsm_process_request_bytes(&mut mock, 3, bytes);
    assert!(matches!(r, Response::Error(ErrorCode::InputTooLarge)));
    assert_eq!(mock.ioctl_calls, 0);
}

#[test]
fn oversize_request_returns_input_too_large_without_exchange() {
    let request = Request::Attestation {
        user_data: Some(ByteBuf::from(vec![7u8; 5000])),
        nonce: None,
        public_key: None,
    };
    let encoded = serde_cbor::to_vec(&request).unwrap();
    assert!(encoded.len() > NSM_REQUEST_MAX_SIZE);

    let mut mock = MockPlatform::new(None, Vec::new(), 3);
    let r = nsm_process_request(&mut mock, 3, request);
    assert!(matches!(r, Response::Error(ErrorCode::InputTooLarge)));
    assert_eq!(mock.ioctl_calls, 0);
}

#[test]
fn boundary_size_request_is_exchanged() {
    // Exactly at the input capacity: the exchange is performed. The mock
    // writes nothing, so the decode of an empty region fails safely.
    let mut mock = MockPlatform::new(None, Vec::new(), 3);
    let bytes = vec![0u8; NSM_REQUEST_MAX_SIZE];
    let r = nsm_process_request_bytes(&mut mock, 3, bytes);
    assert_eq!(mock.ioctl_calls, 1);
    assert!(matches!(r, Response::Error(ErrorCode::InternalError)));
}

#[test]
fn success_returns_exact_decoded_response() {
    // The request encodes to 10 bytes; the mock succeeds and writes a valid
    // minimal response, which comes back decoded.
    let encoded_request = serde_cbor::to_vec(&Request::GetRandom).unwrap();
    assert_eq!(encoded_request.len(), 10);

    let written = serde_cbor::to_vec(&Response::LockPCR).unwrap();
    let mut mock = MockPlatform::new(None, written, 3);
    let r = nsm_process_request(&mut mock, 3, Request::GetRandom);
    assert!(matches!(r, Response::LockPCR));
    assert_eq!(mock.ioctl_calls, 1);
}

#[test]
fn success_returns_decoded_payload_fields() {
    let written = serde_cbor::to_vec(&Response::GetRandom { random: vec![1u8, 2, 3, 4] }).unwrap();
    let mut mock = MockPlatform::new(None, written, 3);
    let r = nsm_process_request(&mut mock, 3, Request::GetRandom);
    match r {
        Response::GetRandom { random } => assert_eq!(random, vec![1u8, 2, 3, 4]),
        other => panic!("unexpected response: {:?}", other),
    }
    assert_eq!(mock.ioctl_calls, 1);
}

#[test]
fn failure_code_ninety_maps_to_input_too_large() {
    let mut mock = MockPlatform::new(Some(90), Vec::new(), 3);
    let r = nsm_process_request(&mut mock, 3, Request::GetRandom);
    assert!(matches!(r, Response::Error(ErrorCode::InputTooLarge)));
    assert_eq!(mock.ioctl_calls, 1);
}

#[test]
fn other_failure_codes_map_to_internal_error() {
    for code in [5i32, 12, 22] {
        let mut mock = MockPlatform::new(Some(code), Vec::new(), 3);
        let r = nsm_process_request(&mut mock, 3, Request::GetRandom);
        assert!(matches!(r, Response::Error(ErrorCode::InternalError)));
        assert_eq!(mock.ioctl_calls, 1);
    }
}

#[test]
fn oversize_programmed_output_is_cut_to_capacity() {
    // A platform reporting more bytes than the output region holds is cut to
    // the region's capacity; the cut bytes decode fail-safe.
    let written = vec![0xa5u8; NSM_RESPONSE_MAX_SIZE + 700];
    let mut mock = MockPlatform::new(None, written, 3);
    let r = nsm_process_request(&mut mock, 3, Request::GetRandom);
    assert!(matches!(r, Response::Error(ErrorCode::InternalError)));
}
