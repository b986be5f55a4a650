use energy_monitor::driver::error::CommError;
use energy_monitor::driver::error::ParseError;

#[test]
fn test_parse_error_message() {
    assert_eq!(ParseError.message(), "failed to parse frame");
}

#[test]
fn test_comm_error_message() {
    assert_eq!(CommError.message(), "communication with device failed");
}
