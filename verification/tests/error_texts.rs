use external_memory_tools::{BufferError, ErrorText, ExternalMemory};

#[test]
fn data_too_short_text() {
    let e: BufferError<()> = BufferError::DataTooShort { position: 3, minimal_length: 2 };
    assert_eq!(
        e.error_text(),
        "Data is too short for expected content. Expected at least 2 element(s) after position 3."
    );
}

#[test]
fn data_too_short_text_zero_position() {
    let e: BufferError<()> = BufferError::DataTooShort { position: 0, minimal_length: 10 };
    assert_eq!(
        e.error_text(),
        "Data is too short for expected content. Expected at least 10 element(s) after position 0."
    );
}

#[test]
fn out_of_range_text() {
    let e: BufferError<()> = BufferError::OutOfRange { position: 5, total_length: 4 };
    assert_eq!(e.error_text(), "Position 5 is out of range for data length 4.");
}

#[test]
fn out_of_range_text_multi_digit() {
    let e: BufferError<()> = BufferError::OutOfRange { position: 123, total_length: 45 };
    assert_eq!(e.error_text(), "Position 123 is out of range for data length 45.");
}

#[test]
fn out_of_range_text_largest_position() {
    let e: BufferError<()> = BufferError::OutOfRange { position: usize::MAX, total_length: 0 };
    assert_eq!(
        e.error_text(),
        "Position 18446744073709551615 is out of range for data length 0."
    );
}

#[derive(Debug, PartialEq, Eq)]
struct DeviceStalled;

impl ErrorText for DeviceStalled {
    fn spec_text(&self) -> vstd::seq::Seq<char> {
        panic!()
    }

    fn text(&self) -> String {
        "device stalled".to_owned()
    }
}

#[derive(Debug)]
struct Device;

impl ExternalMemory for Device {
    type ExternalMemoryError = DeviceStalled;
}

#[test]
fn external_error_text() {
    let e: BufferError<Device> = BufferError::External(DeviceStalled);
    assert_eq!(e.error_text(), "Error accessing external memory. device stalled");
}

#[test]
fn errors_compare_structurally() {
    let a: BufferError<()> = BufferError::OutOfRange { position: 1, total_length: 2 };
    let b: BufferError<()> = BufferError::OutOfRange { position: 1, total_length: 2 };
    let c: BufferError<()> = BufferError::DataTooShort { position: 1, minimal_length: 2 };
    assert_eq!(a, b);
    assert_ne!(a, c);
}
