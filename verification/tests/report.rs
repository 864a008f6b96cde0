use flick_rust::report::accept_error_message;
use flick_rust::report::bind_error_message;
use flick_rust::report::connect_back_error_message;
use flick_rust::report::file_info_message;
use flick_rust::report::local_bind_error_message;
use flick_rust::report::metadata_error_message;
use flick_rust::report::notify_error_message;
use flick_rust::report::receive_incomplete_message;
use flick_rust::report::receive_success_message;
use flick_rust::report::send_incomplete_message;
use flick_rust::report::send_success_message;
use flick_rust::report::u64_to_decimal;

#[test]
fn decimal_rendering() {
    assert_eq!(u64_to_decimal(0), "0");
    assert_eq!(u64_to_decimal(7), "7");
    assert_eq!(u64_to_decimal(10), "10");
    assert_eq!(u64_to_decimal(24243), "24243");
    assert_eq!(u64_to_decimal(65536), "65536");
    assert_eq!(u64_to_decimal(1_000_000), "1000000");
    assert_eq!(u64_to_decimal(u64::MAX), "18446744073709551615");
}

#[test]
fn file_info_summary() {
    assert_eq!(
        file_info_message("holiday.jpg", 1_000_000),
        "Success!\nFile Name: holiday.jpg\nSize: 1000000 bytes"
    );
    assert_eq!(
        file_info_message("empty.bin", 0),
        "Success!\nFile Name: empty.bin\nSize: 0 bytes"
    );
}

#[test]
fn error_messages() {
    assert_eq!(bind_error_message("in use"), "Bind Error: in use");
    assert_eq!(local_bind_error_message("in use"), "Local Bind Error: in use");
    assert_eq!(accept_error_message("reset"), "Accept Error: reset");
    assert_eq!(
        connect_back_error_message("refused"),
        "Failed to connect back to PC: refused"
    );
    assert_eq!(notify_error_message(), "Could not notify remote device");
    assert_eq!(metadata_error_message("bad handle"), "Rust FD Error: bad handle");
}

#[test]
fn final_messages() {
    assert_eq!(send_success_message(), "File Sent Successfully");
    assert_eq!(send_incomplete_message(), "File Send Incomplete");
    assert_eq!(receive_success_message(), "Transfer Successful");
    assert_eq!(receive_incomplete_message(), "Transfer Incomplete");
}
