use quotewall::{availability_from_status, decimal_text, unavailable, PrinterAvailability};

// 0b0001_0010: the fixed pattern with no flag set.
const CLEAR: u8 = 0b0001_0010;

#[test]
fn available_printer_with_paper() {
    let status = availability_from_status([CLEAR, CLEAR], 2).unwrap();
    assert_eq!(
        status,
        PrinterAvailability {
            available: true,
            paper_present: true,
            paper_low: false,
            message: "Printer is available.".to_owned(),
        }
    );
}

#[test]
fn offline_printer_is_reported_first() {
    // Bit 3 of the printer byte: offline. Paper also out.
    let status = availability_from_status([0b0001_1010, 0b0111_0010], 2).unwrap();
    assert!(!status.available);
    assert!(!status.paper_present);
    assert!(!status.paper_low);
    assert_eq!(status.message, "Printer is offline.");
}

#[test]
fn out_of_paper() {
    // Bits 5 and 6 of the paper byte: roll end.
    let status = availability_from_status([CLEAR, 0b0111_0010], 2).unwrap();
    assert!(status.available);
    assert!(!status.paper_present);
    assert!(!status.paper_low);
    assert_eq!(status.message, "Printer is out of paper.");
}

#[test]
fn paper_end_sensor_on_one_bit_is_enough() {
    let status = availability_from_status([CLEAR, 0b0011_0010], 2).unwrap();
    assert!(!status.paper_present);
}

#[test]
fn paper_running_low() {
    // Bits 2 and 3 of the paper byte: near end.
    let status = availability_from_status([CLEAR, 0b0001_1110], 2).unwrap();
    assert!(status.available);
    assert!(status.paper_present);
    assert!(status.paper_low);
    assert_eq!(
        status.message,
        "Printer is available, but the paper roll is running low."
    );
    // A single near-end bit is enough too.
    let status = availability_from_status([CLEAR, 0b0001_0110], 2).unwrap();
    assert!(status.paper_low);
}

#[test]
fn low_paper_is_not_reported_without_paper() {
    let status = availability_from_status([CLEAR, 0b0111_1110], 2).unwrap();
    assert!(!status.paper_present);
    assert!(!status.paper_low);
}

#[test]
fn incomplete_status_response() {
    assert_eq!(
        availability_from_status([CLEAR, CLEAR], 1),
        Err("Incomplete printer status response: expected 2 bytes, received 1".to_owned())
    );
    assert_eq!(
        availability_from_status([CLEAR, CLEAR], 0),
        Err("Incomplete printer status response: expected 2 bytes, received 0".to_owned())
    );
    assert_eq!(
        availability_from_status([CLEAR, CLEAR], 305),
        Err("Incomplete printer status response: expected 2 bytes, received 305".to_owned())
    );
}

#[test]
fn invalid_printer_status_byte() {
    assert_eq!(
        availability_from_status([0b0000_0000, CLEAR], 2),
        Err("Invalid response: invalid response pattern: 00000000 (0xx1xx10 expected)".to_owned())
    );
}

#[test]
fn invalid_paper_status_byte() {
    assert_eq!(
        availability_from_status([CLEAR, 0b1001_0010], 2),
        Err("Invalid response: invalid response pattern: 10010010 (0xx1xx10 expected)".to_owned())
    );
}

#[test]
fn unavailable_reports_the_error() {
    let status = unavailable("No such device".to_owned());
    assert_eq!(
        status,
        PrinterAvailability {
            available: false,
            paper_present: false,
            paper_low: false,
            message: "No such device".to_owned(),
        }
    );
}

#[test]
fn decimal_rendering() {
    assert_eq!(decimal_text(0), "0");
    assert_eq!(decimal_text(7), "7");
    assert_eq!(decimal_text(10), "10");
    assert_eq!(decimal_text(1234567), "1234567");
    assert_eq!(decimal_text(usize::MAX), usize::MAX.to_string());
}
