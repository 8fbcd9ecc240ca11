use nsm_driver::handle_of_open;
use nsm_driver::lifecycle::NO_DEVICE_HANDLE;
use nsm_driver::MockPlatform;
use nsm_driver::NsmMessage;
use nsm_driver::Platform;

#[test]
fn successful_open_keeps_the_descriptor() {
    assert_eq!(handle_of_open(Some(0)), 0);
    assert_eq!(handle_of_open(Some(5)), 5);
}

#[test]
fn failed_open_yields_the_sentinel() {
    assert_eq!(handle_of_open(None), -1);
    assert_eq!(handle_of_open(None), NO_DEVICE_HANDLE);
}

#[test]
fn mock_open_returns_programmed_handle_and_records_the_call() {
    let mut mock = MockPlatform::new(None, Vec::new(), 9);
    assert_eq!(mock.open_dev(), 9);
    assert_eq!(mock.open_dev(), 9);
    assert_eq!(mock.open_calls, 2);
}

#[test]
fn close_completes_for_any_handle_value() {
    // Closing never raises a typed error, whatever the handle value is.
    let mut mock = MockPlatform::new(None, Vec::new(), 9);
    mock.close_dev(9);
    mock.close_dev(-1);
    mock.close_dev(i32::MIN);
    assert_eq!(mock.close_calls, 3);
}

#[test]
fn exchange_keeps_request_and_writes_programmed_output() {
    let mut mock = MockPlatform::new(Some(7), vec![4u8, 5, 6], 3);
    let mut message = NsmMessage { request: vec![1u8, 2], response: vec![0u8; 12288] };
    let status = mock.nsm_ioctl(3, &mut message);
    assert_eq!(status, Some(7));
    assert_eq!(message.request, vec![1u8, 2]);
    assert_eq!(message.response, vec![4u8, 5, 6]);
    assert_eq!(mock.ioctl_calls, 1);
}
