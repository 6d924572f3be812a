//! What the printer's real-time status bytes say about its availability.
use vstd::prelude::*;

use crate::text::{decimal, decimal_text};
use escpos::utils::{RealTimeStatusRequest, RealTimeStatusResponse as Flag};

verus! {

/// What the status endpoint reports about the printer.
#[derive(Debug, Clone, PartialEq, Eq)]
pub struct PrinterAvailability {
    pub available: bool,
    pub paper_present: bool,
    pub paper_low: bool,
    pub message: String,
}

/// The two status requests that the worker sends (DLE EOT 1 and DLE EOT 4).
#[derive(Debug, Clone, Copy, PartialEq, Eq, Structural)]
pub enum StatusQuery {
    Printer,
    RollPaperSensor,
}

/// The flags of one parsed status byte that the availability check reads;
/// `None` where the parsed response holds no such flag.
#[derive(Debug, Clone, Copy, PartialEq, Eq, Structural)]
pub struct StatusBits {
    pub online: Option<bool>,
    pub paper_adequate: Option<bool>,
    pub paper_present: Option<bool>,
}

/// The weight of bit `i` of a byte.
pub open spec fn bit_weight(i: int) -> int {
    if i == 0 { 1 }
    else if i == 1 { 2 }
    else if i == 2 { 4 }
    else if i == 3 { 8 }
    else if i == 4 { 16 }
    else if i == 5 { 32 }
    else if i == 6 { 64 }
    else { 128 }
}

/// Bit `i` (0 is the least significant) of `b` is set.
pub open spec fn bit(b: u8, i: int) -> bool {
    (b as int / bit_weight(i)) % 2 == 1
}

/// A real-time status byte has the fixed pattern `0xx1xx10`.
pub open spec fn status_pattern_valid(b: u8) -> bool {
    &&& !bit(b, 0)
    &&& bit(b, 1)
    &&& bit(b, 4)
    &&& !bit(b, 7)
}

/// The eight binary digits of `b`, most significant first (`{:08b}`).
pub open spec fn binary8(b: u8) -> Seq<char> {
    Seq::new(8, |k: int| if bit(b, 7 - k) { '1' } else { '0' })
}

/// The text of the error that a status byte with a wrong pattern gives.
pub open spec fn invalid_pattern_message(b: u8) -> Seq<char> {
    "Invalid response: invalid response pattern: "@ + binary8(b) + " (0xx1xx10 expected)"@
}

/// The flags of a well-formed status byte, as the ESC/POS manual lays them out:
/// bit 3 clear means online; bits 2 and 3 clear mean the paper is adequate
/// (near-end sensor); bits 5 and 6 clear mean paper is present (end sensor).
pub open spec fn status_bits(query: StatusQuery, b: u8) -> StatusBits {
    match query {
        StatusQuery::Printer => StatusBits {
            online: Some(!bit(b, 3)),
            paper_adequate: None,
            paper_present: None,
        },
        StatusQuery::RollPaperSensor => StatusBits {
            online: None,
            paper_adequate: Some(!bit(b, 2) && !bit(b, 3)),
            paper_present: Some(!bit(b, 5) && !bit(b, 6)),
        },
    }
}

/// Parses one real-time status byte with escpos's
/// `RealTimeStatusResponse::parse`. As its source shows, the call fails exactly
/// when the byte breaks the `0xx1xx10` pattern, with the message stated here;
/// otherwise the map it returns holds the flags that `status_bits` gives.
#[verifier::external_body]
fn parse_status(query: StatusQuery, response: u8) -> (r: Result<StatusBits, String>)
    ensures
        r is Ok <==> status_pattern_valid(response),
        r matches Ok(bits) ==> bits == status_bits(query, response),
        r matches Err(m) ==> m@ == invalid_pattern_message(response),
{
    let request = match query {
        StatusQuery::Printer => RealTimeStatusRequest::Printer,
        StatusQuery::RollPaperSensor => RealTimeStatusRequest::RollPaperSensor,
    };
    match Flag::parse(request, response) {
        Ok(map) => Ok(StatusBits {
            online: map.get(&Flag::Online).copied(),
            paper_adequate: map.get(&Flag::RollPaperNearEndSensorPaperAdequate).copied(),
            paper_present: map.get(&Flag::RollPaperEndSensorPaperPresent).copied(),
        }),
        Err(error) => Err(error.to_string()),
    }
}

/// The message shown for a printer state, the first problem first.
pub open spec fn availability_message(available: bool, paper_present: bool, paper_low: bool) -> Seq<char> {
    if !available {
        "Printer is offline."@
    } else if !paper_present {
        "Printer is out of paper."@
    } else if paper_low {
        "Printer is available, but the paper roll is running low."@
    } else {
        "Printer is available."@
    }
}

/// The availability that two well-formed status bytes describe: the printer
/// status byte and the roll paper sensor byte.
pub open spec fn availability_of(printer_byte: u8, paper_byte: u8, a: PrinterAvailability) -> bool {
    let available = !bit(printer_byte, 3);
    let paper_present = !bit(paper_byte, 5) && !bit(paper_byte, 6);
    let paper_adequate = !bit(paper_byte, 2) && !bit(paper_byte, 3);
    &&& a.available == available
    &&& a.paper_present == paper_present
    &&& a.paper_low == (paper_present && !paper_adequate)
    &&& a.message@ == availability_message(available, paper_present, paper_present && !paper_adequate)
}

/// The error for a status read that returned the wrong number of bytes.
pub open spec fn incomplete_response_message(bytes_read: nat) -> Seq<char> {
    "Incomplete printer status response: expected 2 bytes, received "@ + decimal(bytes_read)
}

fn availability_text(available: bool, paper_present: bool, paper_low: bool) -> (s: String)
    ensures
        s@ == availability_message(available, paper_present, paper_low),
{
    if !available {
        String::from_str("Printer is offline.")
    } else if !paper_present {
        String::from_str("Printer is out of paper.")
    } else if paper_low {
        String::from_str("Printer is available, but the paper roll is running low.")
    } else {
        String::from_str("Printer is available.")
    }
}

/// Reads the availability out of the answer to the two status requests:
/// `response[0]` answers the printer status request, `response[1]` the roll
/// paper sensor request, and `bytes_read` says how many bytes came back.
pub fn availability_from_status(response: [u8; 2], bytes_read: usize) -> (r: Result<PrinterAvailability, String>)
    ensures
        bytes_read != 2 ==> (r matches Err(m) && m@ == incomplete_response_message(bytes_read as nat)),
        bytes_read == 2 && !status_pattern_valid(response[0]) ==>
            (r matches Err(m) && m@ == invalid_pattern_message(response[0])),
        bytes_read == 2 && status_pattern_valid(response[0]) && !status_pattern_valid(response[1]) ==>
            (r matches Err(m) && m@ == invalid_pattern_message(response[1])),
        bytes_read == 2 && status_pattern_valid(response[0]) && status_pattern_valid(response[1]) ==>
            (r matches Ok(a) && availability_of(response[0], response[1], a)),
{
    if bytes_read != 2 {
        let mut message = String::from_str("Incomplete printer status response: expected 2 bytes, received ");
        let count = decimal_text(bytes_read);
        message.append(count.as_str());
        return Err(message);
    }
    let printer_status = match parse_status(StatusQuery::Printer, response[0]) {
        Ok(bits) => bits,
        Err(error) => return Err(error),
    };
    let paper_status = match parse_status(StatusQuery::RollPaperSensor, response[1]) {
        Ok(bits) => bits,
        Err(error) => return Err(error),
    };
    let available = match printer_status.online {
        Some(flag) => flag,
        None => false,
    };
    let paper_present = match paper_status.paper_present {
        Some(flag) => flag,
        None => false,
    };
    let paper_adequate = match paper_status.paper_adequate {
        Some(flag) => flag,
        None => false,
    };
    let paper_low = paper_present && !paper_adequate;
    let message = availability_text(available, paper_present, paper_low);
    Ok(PrinterAvailability { available, paper_present, paper_low, message })
}

/// The availability reported when the printer could not be reached or
/// checked: nothing is available, and the message is the error.
pub fn unavailable(error: String) -> (a: PrinterAvailability)
    ensures
        !a.available,
        !a.paper_present,
        !a.paper_low,
        a.message == error,
{
    PrinterAvailability { available: false, paper_present: false, paper_low: false, message: error }
}

/// Law: a low paper roll is only ever reported while paper is present, and
/// the message "Printer is available." is only shown when nothing is wrong.
pub proof fn lemma_availability_consistent(printer_byte: u8, paper_byte: u8, a: PrinterAvailability)
    requires
        availability_of(printer_byte, paper_byte, a),
    ensures
        a.paper_low ==> a.paper_present,
        a.message@ == "Printer is available."@ ==> (a.available && a.paper_present && !a.paper_low),
        !a.available ==> a.message@ == "Printer is offline."@,
{
    reveal_strlit("Printer is available.");
    reveal_strlit("Printer is offline.");
    reveal_strlit("Printer is out of paper.");
    reveal_strlit("Printer is available, but the paper roll is running low.");
    assert("Printer is offline."@.len() != "Printer is available."@.len());
    assert("Printer is out of paper."@.len() != "Printer is available."@.len());
    assert("Printer is available, but the paper roll is running low."@.len()
        != "Printer is available."@.len());
}

/// Law: the availability depends on the status bits as follows, with no
/// other input: the printer is available exactly when bit 3 of the printer
/// status byte is clear, whatever the paper byte says; paper is present
/// exactly when bits 5 and 6 of the paper byte are clear; the roll is low
/// exactly when paper is present and bit 2 or bit 3 of the paper byte is
/// set; and the message names the first problem found.
pub proof fn lemma_availability_from_bits(printer_byte: u8, paper_byte: u8, a: PrinterAvailability)
    requires
        availability_of(printer_byte, paper_byte, a),
    ensures
        a.available == ((printer_byte as int / 8) % 2 == 0),
        a.paper_present == ((paper_byte as int / 32) % 2 == 0 && (paper_byte as int / 64) % 2 == 0),
        a.paper_low == (a.paper_present && ((paper_byte as int / 4) % 2 == 1 || (paper_byte as int / 8) % 2 == 1)),
        !a.available ==> a.message@ == "Printer is offline."@,
        a.available && !a.paper_present ==> a.message@ == "Printer is out of paper."@,
        a.available && a.paper_low ==> a.message@ == "Printer is available, but the paper roll is running low."@,
        a.available && a.paper_present && !a.paper_low ==> a.message@ == "Printer is available."@,
{
}

/// Law: a status byte is well formed exactly when it is even, below 128,
/// and has bits 1 and 4 set (the pattern `0xx1xx10`).
pub proof fn lemma_status_pattern(b: u8)
    ensures
        status_pattern_valid(b) <==> (b as int % 2 == 0 && (b as int / 2) % 2 == 1
            && (b as int / 16) % 2 == 1 && (b as int) < 128),
{
}

/// Law: the same printer status byte gives the same availability flag,
/// whatever the paper byte is.
pub proof fn lemma_available_ignores_paper(printer_byte: u8, paper1: u8, paper2: u8, a1: PrinterAvailability, a2: PrinterAvailability)
    requires
        availability_of(printer_byte, paper1, a1),
        availability_of(printer_byte, paper2, a2),
    ensures
        a1.available == a2.available,
{
}
} // verus!
