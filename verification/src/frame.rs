//! Liana frames: the HID reports sent to the keyboard's IAP loader and the
//! replies read back from it.
//!
//! A request report is the HID report id, an eight-byte outer header (start
//! of header, version, route, sequence, a 24-bit payload length, end of
//! header) and a payload of command, key and arguments, zero filled to the
//! report size. A reply has the same layout without the report id.

use vstd::prelude::*;
use vstd::string::*;
use vstd::slice::{slice_subrange, slice_to_vec};

use crate::error::{AP2FlashError, hex2};
use crate::target::AP2Target;
use crate::text::{decimal, push_decimal, push_hex};

verus! {

pub const HID_REPORT_ID: u8 = 0;
pub const HID_REPORT_SIZE: usize = 64;
pub const HID_WRITE_SIZE: usize = 65;
pub const LIANA_SOH: u8 = 0x7b;
pub const LIANA_EOH: u8 = 0x7d;
pub const LIANA_VERSION: u8 = 0x10;
pub const LIANA_SEQUENCE: u8 = 0x10;
pub const COMMAND_HEADER_SIZE: usize = 2;
pub const OUTER_HEADER_SIZE: usize = 8;
pub const MAX_PAYLOAD_SIZE: usize = 56;

/// The report that carries `command`, `key` and `args` from the USB host to
/// `target`: report id, outer header with the payload length, payload, and
/// zeros up to the report size.
pub open spec fn report_bytes(target: AP2Target, command: u8, key: u8, args: Seq<u8>) -> Seq<u8> {
    seq![
        HID_REPORT_ID,
        LIANA_SOH,
        LIANA_VERSION,
        (target.code() * 16 + AP2Target::UsbHost.code()) as u8,
        LIANA_SEQUENCE,
        (COMMAND_HEADER_SIZE + args.len()) as u8,
        0u8,
        0u8,
        LIANA_EOH,
        command,
        key,
    ] + args + Seq::new((54 - args.len()) as nat, |i: int| 0u8)
}

/// Frames a request for the IAP loader.
///
/// Fails, and only then, when the payload (command, key and arguments) does
/// not fit in one report.
pub fn build_report(target: AP2Target, command: u8, key: u8, args: &[u8]) -> (report: Result<
    [u8; HID_WRITE_SIZE],
    AP2FlashError,
>)
    ensures
        COMMAND_HEADER_SIZE + args@.len() <= MAX_PAYLOAD_SIZE ==> (report matches Ok(r) && r@
            == report_bytes(target, command, key, args@)),
        COMMAND_HEADER_SIZE + args@.len() > MAX_PAYLOAD_SIZE ==> (report matches Err(e)
            && e.is_protocol(
            "payload is too large: "@ + decimal((COMMAND_HEADER_SIZE + args@.len()) as nat)
                + " bytes"@,
        )),
{
    if args.len() > MAX_PAYLOAD_SIZE - COMMAND_HEADER_SIZE {
        let mut text = String::from_str("payload is too large: ");
        push_decimal(&mut text, COMMAND_HEADER_SIZE as u128 + args.len() as u128);
        text.append(" bytes");
        return Err(AP2FlashError::Protocol(text));
    }
    let payload_len = COMMAND_HEADER_SIZE + args.len();
    let mut report = [0u8; HID_WRITE_SIZE];
    report[0] = HID_REPORT_ID;
    report[1] = LIANA_SOH;
    report[2] = LIANA_VERSION;
    report[3] = target.as_u8() * 16 + AP2Target::UsbHost.as_u8();
    report[4] = LIANA_SEQUENCE;
    report[5] = payload_len as u8;
    report[6] = 0;
    report[7] = 0;
    report[8] = LIANA_EOH;
    report[9] = command;
    report[10] = key;
    let ghost header = report@.subrange(0, 11);
    let mut i: usize = 0;
    while i < args.len()
        invariant
            args@.len() <= 54,
            i <= args@.len(),
            report@.len() == 65,
            report@.subrange(0, 11) == header,
            forall|j: int| 0 <= j < i ==> report@[11 + j] == args@[j],
            forall|j: int| 11 + i <= j < 65 ==> report@[j] == 0u8,
        decreases args@.len() - i,
    {
        report[11 + i] = args[i];
        i = i + 1;
    }
    assert(report@ =~= report_bytes(target, command, key, args@)) by {
        assert(header =~= report_bytes(target, command, key, args@).subrange(0, 11));
        assert forall|j: int| 0 <= j < 65 implies report@[j] == report_bytes(
            target,
            command,
            key,
            args@,
        )[j] by {
            if j < 11 {
                assert(report@[j] == report@.subrange(0, 11)[j]);
            }
        }
    }
    Ok(report)
}

/// A reply read from the IAP loader.
#[derive(Debug, PartialEq, Eq)]
pub struct ResponseFrame {
    pub source: u8,
    pub destination: u8,
    pub command: u8,
    pub key: u8,
    pub body: Vec<u8>,
}

/// A little-endian `u32` from four bytes.
pub open spec fn le_u32(b0: u8, b1: u8, b2: u8, b3: u8) -> u32 {
    (b0 + b1 * 0x100 + b2 * 0x1_0000 + b3 * 0x100_0000) as u32
}

/// Reads a little-endian `u32` from the first four bytes.
pub fn read_u32_le(bytes: &[u8]) -> (value: u32)
    requires
        bytes@.len() >= 4,
    ensures
        value == le_u32(bytes@[0], bytes@[1], bytes@[2], bytes@[3]),
{
    bytes[0] as u32 + bytes[1] as u32 * 0x100 + bytes[2] as u32 * 0x1_0000 + bytes[3] as u32
        * 0x100_0000
}

/// The bytes of a `u32`, least significant first.
pub open spec fn le_bytes(value: u32) -> Seq<u8> {
    seq![
        (value % 0x100) as u8,
        (value / 0x100 % 0x100) as u8,
        (value / 0x1_0000 % 0x100) as u8,
        (value / 0x100_0000) as u8,
    ]
}

/// The bytes of a `u32`, least significant first.
pub fn u32_le_bytes(value: u32) -> (bytes: Vec<u8>)
    ensures
        bytes@ == le_bytes(value),
{
    let mut bytes = Vec::new();
    bytes.push((value % 0x100) as u8);
    bytes.push((value / 0x100 % 0x100) as u8);
    bytes.push((value / 0x1_0000 % 0x100) as u8);
    bytes.push((value / 0x100_0000) as u8);
    assert(bytes@ =~= le_bytes(value));
    bytes
}

/// A word written with `le_bytes` reads back unchanged with `le_u32`.
pub proof fn law_le_bytes_read_back(value: u32)
    ensures
        ({
            let b = le_bytes(value);
            le_u32(b[0], b[1], b[2], b[3]) == value
        }),
{
    assert((value % 0x100) as u8 + ((value / 0x100 % 0x100) as u8) * 0x100 + ((value / 0x1_0000
        % 0x100) as u8) * 0x1_0000 + ((value / 0x100_0000) as u8) * 0x100_0000 == value)
        by (bit_vector);
}

/// Bytes as `{:02x?}` prints a slice of them: `[7b, 10, ...]`, without the
/// brackets.
pub open spec fn hex_items(bytes: Seq<u8>) -> Seq<char>
    decreases bytes.len(),
{
    if bytes.len() == 0 {
        Seq::empty()
    } else if bytes.len() == 1 {
        hex2(bytes[0])
    } else {
        hex_items(bytes.drop_last()) + ", "@ + hex2(bytes.last())
    }
}

/// Appends bytes as `{:02x?}` prints a slice of them.
fn push_hex_list(s: &mut String, bytes: &[u8])
    ensures
        final(s)@ == old(s)@ + "["@ + hex_items(bytes@) + "]"@,
{
    s.append("[");
    let ghost start = s@;
    let mut i: usize = 0;
    while i < bytes.len()
        invariant
            i <= bytes@.len(),
            s@ == start + hex_items(bytes@.take(i as int)),
        decreases bytes@.len() - i,
    {
        if i > 0 {
            s.append(", ");
        }
        push_hex(s, bytes[i] as u32, 2);
        assert(bytes@.take(i + 1).drop_last() =~= bytes@.take(i as int));
        i = i + 1;
        assert(s@ =~= start + hex_items(bytes@.take(i as int)));
    }
    assert(bytes@.take(bytes@.len() as int) =~= bytes@);
    s.append("]");
}

/// The payload length that a reply's header states.
pub open spec fn stated_payload_len(report: Seq<u8>) -> nat {
    (report[4] + report[5] * 0x100 + report[6] * 0x1_0000) as nat
}

/// The header of a reply has the start and end marks, version and sequence
/// that the loader sends.
pub open spec fn valid_reply_header(report: Seq<u8>) -> bool {
    &&& report[0] == LIANA_SOH
    &&& report[1] == LIANA_VERSION
    &&& report[3] == LIANA_SEQUENCE
    &&& report[7] == LIANA_EOH
}

/// The outcome of reading a reply from `report`: an error text for each way
/// the report can be malformed, or the frame it holds.
pub open spec fn reply_fault(report: Seq<u8>) -> Option<Seq<char>> {
    if report.len() < 10 {
        Some("short HID response: "@ + decimal(report.len()) + " bytes"@)
    } else if !valid_reply_header(report) {
        Some("invalid Liana frame header: "@ + "["@ + hex_items(report.take(8)) + "]"@)
    } else if stated_payload_len(report) < 2 {
        Some("response payload is too short: "@ + decimal(stated_payload_len(report))
            + " bytes"@)
    } else if 8 + stated_payload_len(report) > report.len() {
        Some("truncated response payload: header says "@ + decimal(stated_payload_len(report))
            + ", report has "@ + decimal((report.len() - 8) as nat))
    } else {
        None
    }
}

/// `frame` is the reply that a well-formed `report` holds: source and
/// destination from the route byte, command and key, and the body that the
/// stated payload length covers.
pub open spec fn frame_of(report: Seq<u8>, frame: ResponseFrame) -> bool {
    &&& frame.source == report[2] % 16
    &&& frame.destination == report[2] / 16
    &&& frame.command == report[8]
    &&& frame.key == report[9]
    &&& frame.body@ == report.subrange(10, 8 + stated_payload_len(report) as int)
}

/// A request report, read back without its report id as the loader's
/// replies are, is well formed and holds what was framed: the route from
/// the USB host to the target, the command, the key and exactly the
/// arguments.
pub proof fn law_request_reads_back(target: AP2Target, command: u8, key: u8, args: Seq<u8>)
    requires
        COMMAND_HEADER_SIZE + args.len() <= MAX_PAYLOAD_SIZE,
    ensures
        ({
            let report = report_bytes(target, command, key, args).drop_first();
            &&& reply_fault(report) is None
            &&& report[2] % 16 == AP2Target::UsbHost.code()
            &&& report[2] / 16 == target.code()
            &&& report[8] == command
            &&& report[9] == key
            &&& report.subrange(10, 8 + stated_payload_len(report) as int) == args
        }),
{
    let report = report_bytes(target, command, key, args).drop_first();
    assert(report.len() == 64);
    assert(stated_payload_len(report) == 2 + args.len());
    assert(report.subrange(10, 8 + stated_payload_len(report) as int) =~= args);
}

/// Reads a reply of the IAP loader.
///
/// Fails exactly when the report is shorter than both headers, has a wrong
/// header, states a payload shorter than command and key, or states a payload
/// longer than the report holds.
pub fn parse_response(report: &[u8]) -> (frame: Result<ResponseFrame, AP2FlashError>)
    ensures
        match reply_fault(report@) {
            Some(text) => frame matches Err(e) && e.is_protocol(text),
            None => frame matches Ok(f) && frame_of(report@, f),
        },
{
    if report.len() < OUTER_HEADER_SIZE + COMMAND_HEADER_SIZE {
        let mut text = String::from_str("short HID response: ");
        push_decimal(&mut text, report.len() as u128);
        text.append(" bytes");
        return Err(AP2FlashError::Protocol(text));
    }
    if report[0] != LIANA_SOH || report[1] != LIANA_VERSION || report[3] != LIANA_SEQUENCE
        || report[7] != LIANA_EOH {
        let mut text = String::from_str("invalid Liana frame header: ");
        push_hex_list(&mut text, slice_subrange(report, 0, OUTER_HEADER_SIZE));
        return Err(AP2FlashError::Protocol(text));
    }
    let payload_len = report[4] as usize + report[5] as usize * 0x100 + report[6] as usize
        * 0x1_0000;
    if payload_len < COMMAND_HEADER_SIZE {
        let mut text = String::from_str("response payload is too short: ");
        push_decimal(&mut text, payload_len as u128);
        text.append(" bytes");
        return Err(AP2FlashError::Protocol(text));
    }
    if payload_len > report.len() - OUTER_HEADER_SIZE {
        let mut text = String::from_str("truncated response payload: header says ");
        push_decimal(&mut text, payload_len as u128);
        text.append(", report has ");
        push_decimal(&mut text, (report.len() - OUTER_HEADER_SIZE) as u128);
        return Err(AP2FlashError::Protocol(text));
    }
    let route = report[2];
    Ok(
        ResponseFrame {
            source: route % 16,
            destination: route / 16,
            command: report[8],
            key: report[9],
            body: slice_to_vec(slice_subrange(report, 10, OUTER_HEADER_SIZE + payload_len)),
        },
    )
}

/// What to do with a report read while waiting for a reply.
#[derive(Debug, PartialEq, Eq)]
pub enum ReplyDecision {
    /// The reply that was awaited; its body.
    Accept(Vec<u8>),
    /// Nothing was read, or the reply is for another host or from another
    /// node.
    Ignore,
    /// A reply from the awaited node to another command.
    IgnoreUnrelated { source: u8, command: u8, key: u8 },
}

/// Sorts a report read while waiting for the reply to `command`/`key` from
/// `target` (any node when `target` is `Reserved`). An empty read is skipped;
/// a malformed report fails as `parse_response` does; a reply is accepted
/// only when it is addressed to the USB host, comes from the target and
/// answers the same command and key.
pub fn match_response(target: AP2Target, command: u8, key: u8, report: &[u8]) -> (decision: Result<
    ReplyDecision,
    AP2FlashError,
>)
    ensures
        report@.len() == 0 ==> decision matches Ok(ReplyDecision::Ignore),
        report@.len() > 0 ==> match reply_fault(report@) {
            Some(text) => decision matches Err(e) && e.is_protocol(text),
            None => {
                let route = report@[2];
                if route / 16 != AP2Target::UsbHost.code() || (target != AP2Target::Reserved
                    && route % 16 != target.code()) {
                    decision matches Ok(ReplyDecision::Ignore)
                } else if report@[8] != command || report@[9] != key {
                    decision == Ok::<ReplyDecision, AP2FlashError>(
                        ReplyDecision::IgnoreUnrelated {
                            source: route % 16,
                            command: report@[8],
                            key: report@[9],
                        },
                    )
                } else {
                    decision matches Ok(ReplyDecision::Accept(body)) && body@ == report@.subrange(
                        10,
                        8 + stated_payload_len(report@) as int,
                    )
                }
            },
        },
{
    if report.len() == 0 {
        return Ok(ReplyDecision::Ignore);
    }
    let frame = match parse_response(report) {
        Ok(frame) => frame,
        Err(e) => return Err(e),
    };
    if frame.destination != AP2Target::UsbHost.as_u8() {
        return Ok(ReplyDecision::Ignore);
    }
    if target != AP2Target::Reserved && frame.source != target.as_u8() {
        return Ok(ReplyDecision::Ignore);
    }
    if frame.command != command || frame.key != key {
        return Ok(
            ReplyDecision::IgnoreUnrelated {
                source: frame.source,
                command: frame.command,
                key: frame.key,
            },
        );
    }
    Ok(ReplyDecision::Accept(frame.body))
}

/// Checks that a whole request report went out.
pub fn check_report_written(written: usize) -> (checked: Result<(), AP2FlashError>)
    ensures
        written == HID_WRITE_SIZE ==> checked is Ok,
        written != HID_WRITE_SIZE ==> (checked matches Err(e) && e.is_usb(
            "short HID write: expected 65, wrote "@ + decimal(written as nat),
        )),
{
    if written != HID_WRITE_SIZE {
        let mut text = String::from_str("short HID write: expected 65, wrote ");
        push_decimal(&mut text, written as u128);
        return Err(AP2FlashError::Usb(text));
    }
    Ok(())
}

/// How long a reply is waited for, in seconds.
pub const REPLY_WAIT_SECS: u64 = 5;

/// How long the reply to an erase is waited for, in seconds.
pub const ERASE_WAIT_SECS: u64 = 30;

/// How long the reply to a request is waited for, in seconds: longer for a
/// request that may take long (an erase).
pub fn reply_wait_secs(long_wait: bool) -> (secs: u64)
    ensures
        secs == if long_wait {
            30u64
        } else {
            5u64
        },
{
    if long_wait {
        ERASE_WAIT_SECS
    } else {
        REPLY_WAIT_SECS
    }
}

/// Decides, before each read of a reply, whether the wait for the reply to
/// `key` from `target` is over: once the deadline has passed it fails as a
/// timeout of that key.
pub fn check_reply_deadline(target: AP2Target, key: u8, deadline_passed: bool) -> (checked: Result<
    (),
    AP2FlashError,
>)
    ensures
        !deadline_passed ==> checked is Ok,
        deadline_passed ==> checked == Err::<(), AP2FlashError>(
            AP2FlashError::Timeout { target, command: key },
        ),
{
    if deadline_passed {
        return Err(AP2FlashError::Timeout { target, command: key });
    }
    Ok(())
}

/// How long one read may wait, in milliseconds, when `remaining_millis`
/// are left before the reply is due: at least 1 and at most `i32::MAX`.
pub fn poll_timeout_ms(remaining_millis: u128) -> (timeout: i32)
    ensures
        timeout as int == if remaining_millis < 1 {
            1
        } else if remaining_millis > i32::MAX {
            i32::MAX as int
        } else {
            remaining_millis as int
        },
{
    if remaining_millis < 1 {
        1
    } else if remaining_millis > i32::MAX as u128 {
        i32::MAX
    } else {
        remaining_millis as i32
    }
}

} // verus!
