//! The flashing sequence as a state machine.
//!
//! A session decides which request goes to the keyboard next and what each
//! reply means; whoever holds the HID device sends the request, reads the
//! matching reply (see `frame::match_response`) and hands its body back. The
//! sequence is: read the partition layout, read the target's IAP mode, erase
//! the application region, write the image in fixed-size chunks, and, if
//! asked, restart the keyboard.

use vstd::prelude::*;
use vstd::string::*;

use crate::error::{AP2FlashError, hex2};
use crate::frame::{law_le_bytes_read_back, le_bytes, le_u32, u32_le_bytes};
use crate::layout::{
    FirmwareLayout,
    chunk_size,
    check_iap_mode,
    expect_success,
    iap_mode_from_reply,
    image_span_fault,
    padded_size,
    ready_mode,
    validate_image_span,
    write_unit,
};
use crate::target::{AP2Target, KeyCommand, L2Command};
use crate::text::{decimal, format_transfer_progress, progress_text};

verus! {

/// Image bytes between two refreshes of the progress line.
pub const PROGRESS_INTERVAL: usize = 4096;

/// Where a session stands.
#[derive(Debug, Copy, Clone, PartialEq, Eq, Structural)]
pub enum FlashStage {
    /// The partition layout is to be read.
    ReadLayout,
    /// The layout gave `base`; the target's IAP mode is to be read.
    ReadMode { layout: FirmwareLayout, base: u32 },
    /// The target is ready; its application region is to be erased.
    Erase { layout: FirmwareLayout, base: u32 },
    /// The image bytes from `offset` on are still to be written; the
    /// progress line is due again once `next_progress` bytes are written.
    Write { layout: FirmwareLayout, base: u32, offset: usize, next_progress: usize },
    /// The image is written; the keyboard is to be restarted.
    Restart,
    /// Nothing is left to do.
    Complete,
}

/// One request for the keyboard.
#[derive(Debug)]
pub struct HidRequest {
    pub target: AP2Target,
    pub command: u8,
    pub key: u8,
    pub args: Vec<u8>,
    /// A reply is to be read back.
    pub awaits_reply: bool,
    /// The reply may take long (an erase).
    pub long_wait: bool,
}

/// What a step has to show to people.
#[derive(Debug)]
pub enum FlashNotice {
    Quiet,
    /// Writing starts; the first progress line.
    WriteStarted(String),
    /// Writing went on; a new progress line.
    Progress(String),
    /// Writing is done; the last progress line.
    WriteFinished(String),
}

/// `request` asks `target` for `command`/`key` with `args`.
pub open spec fn is_request(
    request: HidRequest,
    target: AP2Target,
    command: u8,
    key: u8,
    args: Seq<u8>,
    awaits_reply: bool,
    long_wait: bool,
) -> bool {
    &&& request.target == target
    &&& request.command == command
    &&& request.key == key
    &&& request.args@ == args
    &&& request.awaits_reply == awaits_reply
    &&& request.long_wait == long_wait
}

/// The image bytes of the write at `offset`, zero filled to a whole unit.
pub open spec fn chunk_of(image: Seq<u8>, unit: nat, offset: nat) -> Seq<u8> {
    let end = if offset + unit < image.len() {
        offset + unit
    } else {
        image.len()
    };
    image.subrange(offset as int, end as int) + Seq::new((offset + unit - end) as nat, |i: int| 0u8)
}

/// The request that `stage` calls for, if any.
pub open spec fn planned_request(
    target: AP2Target,
    image: Seq<u8>,
    stage: FlashStage,
    request: Option<HidRequest>,
) -> bool {
    let firmware = L2Command::Firmware.code();
    match stage {
        FlashStage::ReadLayout => request matches Some(r) && is_request(
            r,
            AP2Target::McuMain,
            firmware,
            KeyCommand::IapGetFwVersion.code(),
            Seq::empty(),
            true,
            false,
        ),
        FlashStage::ReadMode { .. } => request matches Some(r) && is_request(
            r,
            target,
            firmware,
            KeyCommand::IapGetMode.code(),
            Seq::empty(),
            true,
            false,
        ),
        FlashStage::Erase { base, .. } => request matches Some(r) && is_request(
            r,
            target,
            firmware,
            KeyCommand::IapEraseMemory.code(),
            le_bytes(base),
            true,
            true,
        ),
        FlashStage::Write { base, offset, .. } => request matches Some(r) && is_request(
            r,
            target,
            firmware,
            KeyCommand::IapWriteMemory.code(),
            le_bytes((base + offset) as u32) + chunk_of(image, write_unit(target), offset as nat),
            true,
            false,
        ),
        FlashStage::Restart => request matches Some(r) && is_request(
            r,
            AP2Target::McuMain,
            firmware,
            KeyCommand::IapMode.code(),
            seq![2u8],
            false,
            false,
        ),
        FlashStage::Complete => request is None,
    }
}

/// The base that the device reports for `target` has been accepted for an
/// image of `size` bytes: it is the layout's partition base, an explicitly
/// requested base equals it, and the image fits above it.
pub open spec fn accepted_base(
    target: AP2Target,
    requested_base: Option<u32>,
    size: nat,
    layout: FirmwareLayout,
    base: u32,
) -> bool {
    &&& layout.partition_base(target) == Some(base)
    &&& (requested_base matches Some(r) ==> r == base)
    &&& image_span_fault(target, base, size) is None
}

/// The image bytes written once the write at `offset` has succeeded.
pub open spec fn written_after(size: nat, unit: nat, offset: nat) -> nat {
    if offset + unit < size {
        offset + unit
    } else {
        size
    }
}

/// `a + b`, capped at `usize::MAX`.
pub open spec fn saturating_sum(a: nat, b: nat) -> usize {
    if a + b > usize::MAX {
        usize::MAX
    } else {
        (a + b) as usize
    }
}

/// The stage that follows `stage` when `reply` comes back, or `None` when
/// the reply ends the session with an error. A complete session takes no
/// replies.
pub open spec fn step(
    target: AP2Target,
    requested_base: Option<u32>,
    image: Seq<u8>,
    boot: bool,
    stage: FlashStage,
    reply: Seq<u8>,
) -> Option<FlashStage> {
    match stage {
        FlashStage::ReadLayout => if reply.len() < 26 {
            None
        } else {
            let layout = FirmwareLayout::from_body(reply);
            match layout.partition_base(target) {
                None => None,
                Some(detected) => if accepted_base(
                    target,
                    requested_base,
                    image.len(),
                    layout,
                    detected,
                ) {
                    Some(FlashStage::ReadMode { layout, base: detected })
                } else {
                    None
                },
            }
        },
        FlashStage::ReadMode { layout, base } => if reply.len() > 0 && ready_mode(reply[0]) {
            Some(FlashStage::Erase { layout, base })
        } else {
            None
        },
        FlashStage::Erase { layout, base } => if reply.len() > 0 && reply[0] == 0 {
            Some(FlashStage::Write { layout, base, offset: 0, next_progress: PROGRESS_INTERVAL })
        } else {
            None
        },
        FlashStage::Write { layout, base, offset, next_progress } => if reply.len() > 0
            && reply[0] == 0 {
            let unit = write_unit(target);
            let written = written_after(image.len(), unit, offset as nat);
            if written >= image.len() {
                Some(
                    if boot {
                        FlashStage::Restart
                    } else {
                        FlashStage::Complete
                    },
                )
            } else if written >= next_progress {
                Some(
                    FlashStage::Write {
                        layout,
                        base,
                        offset: (offset + unit) as usize,
                        next_progress: saturating_sum(written, PROGRESS_INTERVAL as nat),
                    },
                )
            } else {
                Some(
                    FlashStage::Write {
                        layout,
                        base,
                        offset: (offset + unit) as usize,
                        next_progress,
                    },
                )
            }
        } else {
            None
        },
        FlashStage::Restart => Some(FlashStage::Complete),
        FlashStage::Complete => None,
    }
}

/// The error with which `reply` ends the session in `stage`.
pub open spec fn step_error(
    target: AP2Target,
    requested_base: Option<u32>,
    image: Seq<u8>,
    stage: FlashStage,
    reply: Seq<u8>,
    error: AP2FlashError,
) -> bool {
    match stage {
        FlashStage::ReadLayout => if reply.len() < 26 {
            error.is_protocol(
                "firmware layout response is too short: "@ + decimal(reply.len()) + " bytes"@,
            )
        } else {
            let layout = FirmwareLayout::from_body(reply);
            match layout.partition_base(target) {
                None => error == AP2FlashError::UnsupportedTarget(target),
                Some(detected) => match requested_base {
                    Some(r) if r != detected => error == AP2FlashError::BaseMismatch {
                        target,
                        requested: r,
                        detected,
                    },
                    _ => match image_span_fault(target, detected, image.len()) {
                        Some(text) => error.is_protocol(text),
                        None => false,
                    },
                },
            }
        },
        FlashStage::ReadMode { .. } => if reply.len() == 0 {
            error.is_protocol(target.spoken_name() + " IAP mode response has no mode byte"@)
        } else {
            error.is_protocol(
                target.spoken_name() + " is not in IAP mode (reported mode "@ + decimal(
                    reply[0] as nat,
                ) + ")"@,
            )
        },
        FlashStage::Erase { .. } => status_error(target, KeyCommand::IapEraseMemory.code(), reply, error),
        FlashStage::Write { .. } => status_error(target, KeyCommand::IapWriteMemory.code(), reply, error),
        _ => false,
    }
}

/// The error that a failed status reply to `command` stands for.
pub open spec fn status_error(target: AP2Target, command: u8, reply: Seq<u8>, error: AP2FlashError) -> bool {
    if reply.len() == 0 {
        error.is_protocol(
            target.spoken_name() + " command 0x"@ + hex2(command) + " response has no status byte"@,
        )
    } else {
        error == AP2FlashError::DeviceRejected { target, command, status: reply[0] }
    }
}

/// What a successful step from `stage` shows: the first progress line once
/// the erase succeeded, a new one after a write that reached the next
/// interval, the last one after the final write, nothing otherwise.
pub open spec fn step_notice(
    target: AP2Target,
    image: Seq<u8>,
    stage: FlashStage,
    notice: FlashNotice,
) -> bool {
    match stage {
        FlashStage::Erase { base, .. } => notice matches FlashNotice::WriteStarted(line) && line@
            == progress_text(0, image.len(), base as nat),
        FlashStage::Write { base, offset, next_progress, .. } => {
            let unit = write_unit(target);
            let written = written_after(image.len(), unit, offset as nat);
            let next_address = base + offset + unit;
            if written >= image.len() {
                notice matches FlashNotice::WriteFinished(line) && line@ == progress_text(
                    written,
                    image.len(),
                    next_address as nat,
                )
            } else if written >= next_progress {
                notice matches FlashNotice::Progress(line) && line@ == progress_text(
                    written,
                    image.len(),
                    next_address as nat,
                )
            } else {
                notice is Quiet
            }
        },
        _ => notice is Quiet,
    }
}

/// A request that awaits a reply of the firmware class, with no arguments
/// and the normal wait.
fn read_request(target: AP2Target, key: u8) -> (request: HidRequest)
    ensures
        is_request(request, target, L2Command::Firmware.code(), key, Seq::empty(), true, false),
{
    HidRequest {
        target,
        command: L2Command::Firmware.as_u8(),
        key,
        args: Vec::new(),
        awaits_reply: true,
        long_wait: false,
    }
}

/// The requests of a probe, in order: the partition layout from the main
/// MCU, then the IAP mode of the main, LED and BLE MCUs. A probe only reads:
/// none of its requests erases, writes, sets a flag or changes a mode.
pub fn probe_requests() -> (requests: Vec<HidRequest>)
    ensures
        requests@.len() == 4,
        is_request(
            requests@[0],
            AP2Target::McuMain,
            L2Command::Firmware.code(),
            KeyCommand::IapGetFwVersion.code(),
            Seq::empty(),
            true,
            false,
        ),
        is_request(
            requests@[1],
            AP2Target::McuMain,
            L2Command::Firmware.code(),
            KeyCommand::IapGetMode.code(),
            Seq::empty(),
            true,
            false,
        ),
        is_request(
            requests@[2],
            AP2Target::McuLed,
            L2Command::Firmware.code(),
            KeyCommand::IapGetMode.code(),
            Seq::empty(),
            true,
            false,
        ),
        is_request(
            requests@[3],
            AP2Target::McuBle,
            L2Command::Firmware.code(),
            KeyCommand::IapGetMode.code(),
            Seq::empty(),
            true,
            false,
        ),
        forall|i: int|
            0 <= i < 4 ==> {
                let key = (#[trigger] requests@[i]).key;
                &&& key != KeyCommand::IapEraseMemory.code()
                &&& key != KeyCommand::IapWriteMemory.code()
                &&& key != KeyCommand::IapWriteApFlag.code()
                &&& key != KeyCommand::IapMode.code()
            },
{
    let mut requests = Vec::new();
    requests.push(read_request(AP2Target::McuMain, KeyCommand::IapGetFwVersion.as_u8()));
    let mode = KeyCommand::IapGetMode.as_u8();
    requests.push(read_request(AP2Target::McuMain, mode));
    requests.push(read_request(AP2Target::McuLed, mode));
    requests.push(read_request(AP2Target::McuBle, mode));
    requests
}

/// The state of one flashing run.
pub struct FlashSession {
    target: AP2Target,
    requested_base: Option<u32>,
    image: Vec<u8>,
    boot: bool,
    stage: FlashStage,
}

/// The write at `offset` stays inside the image rounded up to whole units.
proof fn lemma_chunk_inside_padding(size: nat, unit: nat, offset: nat)
    requires
        unit > 0,
        offset % unit == 0,
        offset < size,
    ensures
        offset + unit <= (size + unit - 1) as nat / unit * unit,
{
    let n = (size + unit - 1) as nat;
    let k = offset / unit;
    vstd::arithmetic::div_mod::lemma_fundamental_div_mod(offset as int, unit as int);
    vstd::arithmetic::div_mod::lemma_fundamental_div_mod(n as int, unit as int);
    assert(offset == k * unit);
    assert((k + 1) * unit <= n) by (nonlinear_arith)
        requires
            offset == k * unit,
            offset < size,
            n == size + unit - 1,
    ;
    assert(k + 1 <= n / unit) by (nonlinear_arith)
        requires
            (k + 1) * unit <= n,
            n == unit * (n / unit) + n % unit,
            0 <= n % unit < unit,
            unit > 0,
    ;
    assert(offset + unit <= n / unit * unit) by (nonlinear_arith)
        requires
            k + 1 <= n / unit,
            unit > 0,
            offset == k * unit,
    ;
}

/// The stage that a session reaches from the start when `replies` come back
/// in turn, or `None` when one of them ends it with an error.
pub open spec fn run(
    target: AP2Target,
    requested_base: Option<u32>,
    image: Seq<u8>,
    boot: bool,
    replies: Seq<Seq<u8>>,
) -> Option<FlashStage>
    decreases replies.len(),
{
    if replies.len() == 0 {
        Some(FlashStage::ReadLayout)
    } else {
        match run(target, requested_base, image, boot, replies.drop_last()) {
            Some(stage) => step(target, requested_base, image, boot, stage, replies.last()),
            None => None,
        }
    }
}

/// A reply whose status byte reports success.
pub open spec fn status_ok(reply: Seq<u8>) -> bool {
    reply.len() > 0 && reply[0] == 0
}

/// A reply that reports an IAP mode ready for writes.
pub open spec fn mode_ready(reply: Seq<u8>) -> bool {
    reply.len() > 0 && ready_mode(reply[0])
}

/// `reply` states `layout`, whose base for `target` was accepted as `base`.
pub open spec fn layout_accepted(
    target: AP2Target,
    requested_base: Option<u32>,
    size: nat,
    reply: Seq<u8>,
    layout: FirmwareLayout,
    base: u32,
) -> bool {
    &&& reply.len() >= 26
    &&& layout == FirmwareLayout::from_body(reply)
    &&& accepted_base(target, requested_base, size, layout, base)
}

/// The number of write requests that carry an image of `size` bytes.
pub open spec fn write_count(target: AP2Target, size: nat) -> nat {
    padded_size(target, size) / write_unit(target)
}

/// The replies that led a session to `stage`: the layout reply first, then
/// the mode reply, then one successful status reply for the erase and each
/// write so far, then the reply to the restart request.
pub open spec fn history(
    target: AP2Target,
    requested_base: Option<u32>,
    image: Seq<u8>,
    boot: bool,
    replies: Seq<Seq<u8>>,
    stage: FlashStage,
) -> bool {
    let n = replies.len();
    let size = image.len();
    match stage {
        FlashStage::ReadLayout => n == 0,
        FlashStage::ReadMode { layout, base } => n == 1 && layout_accepted(
            target,
            requested_base,
            size,
            replies[0],
            layout,
            base,
        ),
        FlashStage::Erase { layout, base } => {
            &&& n == 2
            &&& layout_accepted(target, requested_base, size, replies[0], layout, base)
            &&& mode_ready(replies[1])
        },
        FlashStage::Write { layout, base, offset, .. } => {
            &&& n >= 3
            &&& layout_accepted(target, requested_base, size, replies[0], layout, base)
            &&& mode_ready(replies[1])
            &&& forall|i: int| 2 <= i < n ==> status_ok(#[trigger] replies[i])
            &&& offset == (n - 3) * write_unit(target)
            &&& offset < size
        },
        FlashStage::Restart => {
            &&& boot
            &&& n == 3 + write_count(target, size)
            &&& exists|layout: FirmwareLayout, base: u32|
                layout_accepted(target, requested_base, size, replies[0], layout, base)
            &&& mode_ready(replies[1])
            &&& forall|i: int| 2 <= i < n ==> status_ok(#[trigger] replies[i])
        },
        FlashStage::Complete => {
            &&& n == 3 + write_count(target, size) + (if boot {
                1nat
            } else {
                0nat
            })
            &&& exists|layout: FirmwareLayout, base: u32|
                layout_accepted(target, requested_base, size, replies[0], layout, base)
            &&& mode_ready(replies[1])
            &&& forall|i: int| 2 <= i < 3 + write_count(target, size) ==> status_ok(
                #[trigger] replies[i],
            )
        },
    }
}

/// The last write, the one at `k` units, covers the end of the image: then
/// `k + 1` writes carry it.
proof fn lemma_last_write(target: AP2Target, size: nat, k: nat)
    requires
        k * write_unit(target) < size <= (k + 1) * write_unit(target),
    ensures
        write_count(target, size) == k + 1,
{
    let unit = write_unit(target);
    let n = (size + unit - 1) as nat;
    let r = (n - (k + 1) * unit) as int;
    assert(0 <= r < unit) by (nonlinear_arith)
        requires
            k * unit < size <= (k + 1) * unit,
            n == size + unit - 1,
            r == n - (k + 1) * unit,
            unit > 0,
    ;
    assert(n == (k + 1) * unit + r) by (nonlinear_arith)
        requires
            r == n - (k + 1) * unit,
    ;
    vstd::arithmetic::div_mod::lemma_fundamental_div_mod_converse_div(
        n as int,
        unit as int,
        (k + 1) as int,
        r,
    );
    assert(padded_size(target, size) == (k + 1) * unit);
    vstd::arithmetic::div_mod::lemma_div_multiples_vanish((k + 1) as int, unit as int);
    assert((k + 1) * unit == unit * (k + 1)) by (nonlinear_arith);
}

/// What the replies of a run say about the stage it reached.
proof fn lemma_history(
    target: AP2Target,
    requested_base: Option<u32>,
    image: Seq<u8>,
    boot: bool,
    replies: Seq<Seq<u8>>,
)
    requires
        image.len() > 0,
        run(target, requested_base, image, boot, replies) is Some,
    ensures
        history(
            target,
            requested_base,
            image,
            boot,
            replies,
            run(target, requested_base, image, boot, replies).unwrap(),
        ),
    decreases replies.len(),
{
    if replies.len() > 0 {
        let earlier = replies.drop_last();
        let reply = replies.last();
        lemma_history(target, requested_base, image, boot, earlier);
        let before = run(target, requested_base, image, boot, earlier).unwrap();
        let after = run(target, requested_base, image, boot, replies).unwrap();
        let n = replies.len();
        let size = image.len();
        let unit = write_unit(target);
        assert(forall|i: int| 0 <= i < n - 1 ==> earlier[i] == replies[i]);
        assert(reply == replies[n - 1]);
        match before {
            FlashStage::Write { layout, base, offset, next_progress } => {
                let k = (n - 4) as nat;
                assert(offset == k * unit);
                assert((k + 1) * unit == offset + unit) by (nonlinear_arith)
                    requires
                        offset == k * unit,
                ;
                if offset + unit >= size {
                    lemma_last_write(target, size, k);
                    assert(layout_accepted(target, requested_base, size, replies[0], layout, base));
                } else {
                    assert(after matches FlashStage::Write { offset: o, .. } && o == offset + unit);
                }
            },
            FlashStage::Restart => {
                let w = choose|layout: FirmwareLayout, base: u32|
                    layout_accepted(target, requested_base, size, earlier[0], layout, base);
                assert(layout_accepted(target, requested_base, size, replies[0], w.0, w.1));
            },
            _ => {},
        }
    }
}

/// Nothing is erased before the keyboard has reported its partition layout,
/// the target's base has been taken from it (an explicitly requested base
/// must equal it), the image has been found to fit above it, and the
/// target has reported that it is in IAP mode: a session asks for the erase
/// (stage `Erase`) only after exactly these two replies.
pub proof fn law_erase_follows_checks(
    target: AP2Target,
    requested_base: Option<u32>,
    image: Seq<u8>,
    boot: bool,
    replies: Seq<Seq<u8>>,
    layout: FirmwareLayout,
    base: u32,
)
    requires
        image.len() > 0,
        run(target, requested_base, image, boot, replies) == Some(
            FlashStage::Erase { layout, base },
        ),
    ensures
        replies.len() == 2,
        replies[0].len() >= 26,
        layout == FirmwareLayout::from_body(replies[0]),
        layout.partition_base(target) == Some(base),
        requested_base matches Some(r) ==> r == base,
        image_span_fault(target, base, image.len()) is None,
        mode_ready(replies[1]),
{
    lemma_history(target, requested_base, image, boot, replies);
}

/// Writing goes through the image in order: the session's next write starts
/// as many whole units into the image as writes have succeeded, every erase
/// and write reply so far reported success, and the base is the one checked
/// before the erase.
pub proof fn law_writes_in_order(
    target: AP2Target,
    requested_base: Option<u32>,
    image: Seq<u8>,
    boot: bool,
    replies: Seq<Seq<u8>>,
    layout: FirmwareLayout,
    base: u32,
    offset: usize,
    next_progress: usize,
)
    requires
        image.len() > 0,
        run(target, requested_base, image, boot, replies) == Some(
            FlashStage::Write { layout, base, offset, next_progress },
        ),
    ensures
        replies.len() >= 3,
        offset == (replies.len() - 3) * write_unit(target),
        offset < image.len(),
        layout_accepted(target, requested_base, image.len(), replies[0], layout, base),
        mode_ready(replies[1]),
        forall|i: int| 2 <= i < replies.len() ==> status_ok(#[trigger] replies[i]),
{
    lemma_history(target, requested_base, image, boot, replies);
}

/// A session completes only after the layout and mode replies, a successful
/// erase and one successful write for every unit of the image rounded up,
/// and, when asked to, one restart request.
pub proof fn law_complete_transfer(
    target: AP2Target,
    requested_base: Option<u32>,
    image: Seq<u8>,
    boot: bool,
    replies: Seq<Seq<u8>>,
)
    requires
        image.len() > 0,
        run(target, requested_base, image, boot, replies) == Some(FlashStage::Complete),
    ensures
        replies.len() == 3 + write_count(target, image.len()) + (if boot {
            1nat
        } else {
            0nat
        }),
        mode_ready(replies[1]),
        forall|i: int| 2 <= i < 3 + write_count(target, image.len()) ==> status_ok(
            #[trigger] replies[i],
        ),
{
    lemma_history(target, requested_base, image, boot, replies);
}

/// Giving the base that the device reports is the same as giving none: when
/// the layout reply states `detected` as the target's base, a session with
/// the explicit base `detected` reaches the same stage as one without, after
/// any replies, so it asks for the same requests (`planned_request` depends
/// on the stage alone); and a reply that ends one ends the other with the
/// same error.
pub proof fn law_matching_base_same_as_none(
    target: AP2Target,
    image: Seq<u8>,
    boot: bool,
    replies: Seq<Seq<u8>>,
    detected: u32,
)
    requires
        image.len() > 0,
        replies.len() > 0,
        replies[0].len() >= 26,
        FirmwareLayout::from_body(replies[0]).partition_base(target) == Some(detected),
    ensures
        run(target, Some(detected), image, boot, replies) == run(target, None, image, boot, replies),
        forall|e: AP2FlashError|
            step_error(target, Some(detected), image, FlashStage::ReadLayout, replies[0], e)
                == step_error(target, None, image, FlashStage::ReadLayout, replies[0], e),
        forall|stage: FlashStage, reply: Seq<u8>, e: AP2FlashError|
            !(stage is ReadLayout) ==> step_error(target, Some(detected), image, stage, reply, e)
                == step_error(target, None, image, stage, reply, e),
    decreases replies.len(),
{
    let earlier = replies.drop_last();
    if replies.len() > 1 {
        assert(earlier[0] == replies[0]);
        law_matching_base_same_as_none(target, image, boot, earlier, detected);
        if let Some(stage) = run(target, Some(detected), image, boot, earlier) {
            lemma_history(target, Some(detected), image, boot, earlier);
            assert(!(stage is ReadLayout));
            let reply = replies.last();
            assert(step(target, Some(detected), image, boot, stage, reply) == step(
                target,
                None,
                image,
                boot,
                stage,
                reply,
            ));
        }
    } else {
        assert(earlier.len() == 0);
        assert(replies.last() == replies[0]);
        let layout = FirmwareLayout::from_body(replies[0]);
        assert(accepted_base(target, Some(detected), image.len(), layout, detected)
            == accepted_base(target, None, image.len(), layout, detected));
        assert(run(target, Some(detected), image, boot, earlier) == Some(FlashStage::ReadLayout));
        assert(run(target, None, image, boot, earlier) == Some(FlashStage::ReadLayout));
    }
}

/// The base that the layout reply `reply` states for `target`: the
/// little-endian word at bytes 2..6 for the main MCU, 12..16 for the LED MCU
/// and 22..26 for the BLE MCU.
pub open spec fn reported_base(target: AP2Target, reply: Seq<u8>, base: u32) -> bool {
    &&& target == AP2Target::McuMain ==> base == le_u32(reply[2], reply[3], reply[4], reply[5])
    &&& target == AP2Target::McuLed ==> base == le_u32(reply[12], reply[13], reply[14], reply[15])
    &&& target == AP2Target::McuBle ==> base == le_u32(reply[22], reply[23], reply[24], reply[25])
    &&& (target == AP2Target::McuMain || target == AP2Target::McuLed || target
        == AP2Target::McuBle)
}

/// The erase goes to the target, awaits its reply with the long wait, and
/// carries, as a little-endian word, the partition base that the device
/// reported for the target in its layout reply (and that an explicit base,
/// if given, equals).
pub proof fn law_erase_address(
    target: AP2Target,
    requested_base: Option<u32>,
    image: Seq<u8>,
    boot: bool,
    replies: Seq<Seq<u8>>,
    layout: FirmwareLayout,
    base: u32,
    request: HidRequest,
)
    requires
        image.len() > 0,
        run(target, requested_base, image, boot, replies) == Some(
            FlashStage::Erase { layout, base },
        ),
        planned_request(target, image, FlashStage::Erase { layout, base }, Some(request)),
    ensures
        request.target == target,
        request.command == L2Command::Firmware.code(),
        request.key == KeyCommand::IapEraseMemory.code(),
        request.awaits_reply && request.long_wait,
        request.args@.len() == 4,
        le_u32(request.args@[0], request.args@[1], request.args@[2], request.args@[3]) == base,
        reported_base(target, replies[0], base),
        requested_base matches Some(r) ==> r == base,
{
    law_erase_follows_checks(target, requested_base, image, boot, replies, layout, base);
    law_le_bytes_read_back(base);
}

/// Writes go to consecutive addresses: after `k` successful writes the next
/// one goes to the target at the reported partition base plus `k` write
/// units, as a full 32-bit little-endian word, and carries the image bytes
/// from `k` units on, zero filled past the image's end.
pub proof fn law_write_address(
    target: AP2Target,
    requested_base: Option<u32>,
    image: Seq<u8>,
    boot: bool,
    replies: Seq<Seq<u8>>,
    layout: FirmwareLayout,
    base: u32,
    offset: usize,
    next_progress: usize,
    request: HidRequest,
)
    requires
        image.len() > 0,
        run(target, requested_base, image, boot, replies) == Some(
            FlashStage::Write { layout, base, offset, next_progress },
        ),
        planned_request(
            target,
            image,
            FlashStage::Write { layout, base, offset, next_progress },
            Some(request),
        ),
    ensures
        request.target == target,
        request.command == L2Command::Firmware.code(),
        request.key == KeyCommand::IapWriteMemory.code(),
        request.awaits_reply && !request.long_wait,
        request.args@.len() == 4 + write_unit(target),
        le_u32(request.args@[0], request.args@[1], request.args@[2], request.args@[3]) == base
            + (replies.len() - 3) * write_unit(target),
        reported_base(target, replies[0], base),
        forall|i: int|
            0 <= i < write_unit(target) ==> #[trigger] request.args@[4 + i] == if (replies.len()
                - 3) * write_unit(target) + i < image.len() {
                image[(replies.len() - 3) * write_unit(target) + i]
            } else {
                0u8
            },
{
    law_writes_in_order(
        target,
        requested_base,
        image,
        boot,
        replies,
        layout,
        base,
        offset,
        next_progress,
    );
    let unit = write_unit(target);
    let size = image.len();
    let k = (replies.len() - 3) as int;
    vstd::arithmetic::div_mod::lemma_mod_multiples_basic(k, unit as int);
    assert(offset as int == k * unit);
    lemma_chunk_inside_padding(size, unit, offset as nat);
    assert(base + offset <= u32::MAX);
    law_le_bytes_read_back((base + offset) as u32);
    let head = le_bytes((base + offset) as u32);
    let chunk = chunk_of(image, unit, offset as nat);
    assert(request.args@ == head + chunk);
    assert forall|i: int| 0 <= i < unit implies #[trigger] request.args@[4 + i] == if offset + i
        < size {
        image[offset + i]
    } else {
        0u8
    } by {
        assert(request.args@[4 + i] == chunk[i]);
    }
}

/// The image bytes, zero filled, that the first `count` writes carry.
pub open spec fn written_data(image: Seq<u8>, unit: nat, count: nat) -> Seq<u8>
    decreases count,
{
    if count == 0 {
        Seq::empty()
    } else {
        written_data(image, unit, (count - 1) as nat) + chunk_of(
            image,
            unit,
            ((count - 1) * unit) as nat,
        )
    }
}

/// `count` zero bytes.
pub open spec fn zeros(count: nat) -> Seq<u8> {
    Seq::new(count, |i: int| 0u8)
}

/// The image bytes before `start`, followed by the write at `start`, are the
/// image bytes up to the write's end, zero filled to a whole unit.
proof fn lemma_chunk_extends(image: Seq<u8>, unit: nat, start: nat)
    requires
        unit > 0,
        start < image.len(),
    ensures
        ({
            let end = if start + unit < image.len() {
                start + unit
            } else {
                image.len()
            };
            image.take(start as int) + chunk_of(image, unit, start) == image.take(end as int)
                + zeros((start + unit - end) as nat)
        }),
{
    let end = if start + unit < image.len() {
        start + unit
    } else {
        image.len()
    };
    assert(image.take(start as int) + chunk_of(image, unit, start) =~= image.take(end as int)
        + zeros((start + unit - end) as nat));
}

#[verifier::spinoff_prover]
proof fn lemma_written_prefix(image: Seq<u8>, unit: nat, count: nat)
    requires
        unit > 0,
        count == 0 || (count - 1) * unit < image.len(),
    ensures
        ({
            let covered = if count * unit < image.len() {
                count * unit
            } else {
                image.len()
            };
            written_data(image, unit, count) == image.take(covered as int) + zeros(
                (count * unit - covered) as nat,
            )
        }),
    decreases count,
{
    if count == 0 {
        assert(written_data(image, unit, 0) =~= image.take(0) + zeros(0));
    } else {
        let c = (count - 1) as nat;
        let start = c * unit;
        assert(count * unit == start + unit) by (nonlinear_arith)
            requires
                start == c * unit,
                c == count - 1,
        ;
        if c > 0 {
            assert((c - 1) * unit < image.len()) by (nonlinear_arith)
                requires
                    c * unit < image.len(),
                    c > 0,
                    unit > 0,
            ;
        }
        lemma_written_prefix(image, unit, c);
        // The first `c` writes end before the image does, with no padding.
        assert(written_data(image, unit, c) =~= image.take(start as int)) by {
            assert(zeros(0) =~= Seq::<u8>::empty());
        }
        assert(written_data(image, unit, count) == written_data(image, unit, c) + chunk_of(
            image,
            unit,
            start,
        ));
        lemma_chunk_extends(image, unit, start);
    }
}

/// The writes of a complete transfer carry exactly the image, followed by
/// zeros up to a whole number of write units.
pub proof fn law_writes_carry_image(target: AP2Target, image: Seq<u8>)
    requires
        image.len() > 0,
    ensures
        written_data(image, write_unit(target), write_count(target, image.len())) == image
            + zeros((padded_size(target, image.len()) - image.len()) as nat),
{
    let unit = write_unit(target);
    let size = image.len();
    let count = write_count(target, size);
    let n = (size + unit - 1) as nat;
    let q = n / unit;
    vstd::arithmetic::div_mod::lemma_fundamental_div_mod(n as int, unit as int);
    vstd::arithmetic::div_mod::lemma_div_multiples_vanish(q as int, unit as int);
    assert(q * unit == unit * q) by (nonlinear_arith);
    assert(count == q);
    assert(q >= 1) by (nonlinear_arith)
        requires
            n == unit * q + n % unit,
            0 <= n % unit < unit,
            n >= unit,
    ;
    assert((q - 1) * unit < size) by (nonlinear_arith)
        requires
            n == unit * q + n % unit,
            0 <= n % unit < unit,
            n == size + unit - 1,
            q >= 1,
    ;
    assert(q * unit >= size) by (nonlinear_arith)
        requires
            n == unit * q + n % unit,
            0 <= n % unit < unit,
            n == size + unit - 1,
    ;
    lemma_written_prefix(image, unit, count);
    assert(image.take(size as int) =~= image);
}

impl FlashSession {
    /// The node being flashed.
    pub closed spec fn plan_target(&self) -> AP2Target {
        self.target
    }

    /// The partition base given on the command line, if any.
    pub closed spec fn plan_requested_base(&self) -> Option<u32> {
        self.requested_base
    }

    /// The firmware image.
    pub closed spec fn plan_image(&self) -> Seq<u8> {
        self.image@
    }

    /// Whether the keyboard is restarted after a successful transfer.
    pub closed spec fn plan_boot(&self) -> bool {
        self.boot
    }

    /// Where the session stands.
    pub closed spec fn current_stage(&self) -> FlashStage {
        self.stage
    }

    /// The session's invariant: the image is not empty, every stage past the
    /// layout holds a base that was accepted, and a pending write starts at a
    /// whole unit inside the image.
    pub open spec fn wf(&self) -> bool {
        &&& self.plan_image().len() > 0
        &&& match self.current_stage() {
            FlashStage::ReadMode { layout, base } | FlashStage::Erase { layout, base } => accepted_base(
                self.plan_target(),
                self.plan_requested_base(),
                self.plan_image().len(),
                layout,
                base,
            ),
            FlashStage::Write { layout, base, offset, .. } => {
                &&& accepted_base(
                    self.plan_target(),
                    self.plan_requested_base(),
                    self.plan_image().len(),
                    layout,
                    base,
                )
                &&& offset < self.plan_image().len()
                &&& offset as nat % write_unit(self.plan_target()) == 0
            },
            _ => true,
        }
    }

    /// Starts a session that flashes `image` to `target`, checking the
    /// device's partition base against `requested_base` if one is given, and
    /// restarting the keyboard afterwards if `boot` is set.
    pub fn new(target: AP2Target, requested_base: Option<u32>, image: Vec<u8>, boot: bool) -> (session: Self)
        requires
            image@.len() > 0,
        ensures
            session.wf(),
            session.plan_target() == target,
            session.plan_requested_base() == requested_base,
            session.plan_image() == image@,
            session.plan_boot() == boot,
            session.current_stage() == FlashStage::ReadLayout,
    {
        FlashSession { target, requested_base, image, boot, stage: FlashStage::ReadLayout }
    }

    /// Where the session stands.
    pub fn stage(&self) -> (stage: FlashStage)
        ensures
            stage == self.current_stage(),
    {
        self.stage
    }

    /// The node being flashed.
    pub fn target(&self) -> (target: AP2Target)
        ensures
            target == self.plan_target(),
    {
        self.target
    }

    /// The request that the session needs next; none once it is complete.
    pub fn next_request(&self) -> (request: Option<HidRequest>)
        requires
            self.wf(),
        ensures
            planned_request(self.plan_target(), self.plan_image(), self.current_stage(), request),
    {
        let firmware = L2Command::Firmware.as_u8();
        match self.stage {
            FlashStage::ReadLayout => Some(
                HidRequest {
                    target: AP2Target::McuMain,
                    command: firmware,
                    key: KeyCommand::IapGetFwVersion.as_u8(),
                    args: Vec::new(),
                    awaits_reply: true,
                    long_wait: false,
                },
            ),
            FlashStage::ReadMode { .. } => Some(
                HidRequest {
                    target: self.target,
                    command: firmware,
                    key: KeyCommand::IapGetMode.as_u8(),
                    args: Vec::new(),
                    awaits_reply: true,
                    long_wait: false,
                },
            ),
            FlashStage::Erase { base, .. } => Some(
                HidRequest {
                    target: self.target,
                    command: firmware,
                    key: KeyCommand::IapEraseMemory.as_u8(),
                    args: u32_le_bytes(base),
                    awaits_reply: true,
                    long_wait: true,
                },
            ),
            FlashStage::Write { base, offset, .. } => {
                let unit = chunk_size(self.target);
                proof {
                    lemma_chunk_inside_padding(self.image@.len(), unit as nat, offset as nat);
                }
                let address = base + offset as u32;
                let mut args = u32_le_bytes(address);
                let end = if offset + unit < self.image.len() {
                    offset + unit
                } else {
                    self.image.len()
                };
                let ghost head = args@;
                let mut i = offset;
                while i < end
                    invariant
                        offset <= i <= end <= self.image@.len(),
                        args@ == head + self.image@.subrange(offset as int, i as int),
                    decreases end - i,
                {
                    args.push(self.image[i]);
                    i = i + 1;
                    assert(args@ =~= head + self.image@.subrange(offset as int, i as int));
                }
                let ghost data = args@;
                let mut fill = end;
                while fill < offset + unit
                    invariant
                        offset + unit <= usize::MAX,
                        end <= fill <= offset + unit,
                        args@ == data + Seq::new((fill - end) as nat, |i: int| 0u8),
                    decreases offset + unit - fill,
                {
                    args.push(0);
                    fill = fill + 1;
                    assert(args@ =~= data + Seq::new((fill - end) as nat, |i: int| 0u8));
                }
                assert(args@ =~= le_bytes((base + offset) as u32) + chunk_of(
                    self.image@,
                    unit as nat,
                    offset as nat,
                ));
                Some(
                    HidRequest {
                        target: self.target,
                        command: firmware,
                        key: KeyCommand::IapWriteMemory.as_u8(),
                        args,
                        awaits_reply: true,
                        long_wait: false,
                    },
                )
            },
            FlashStage::Restart => {
                let mut args = Vec::new();
                args.push(2u8);
                assert(args@ =~= seq![2u8]);
                Some(
                    HidRequest {
                        target: AP2Target::McuMain,
                        command: firmware,
                        key: KeyCommand::IapMode.as_u8(),
                        args,
                        awaits_reply: false,
                        long_wait: false,
                    },
                )
            },
            FlashStage::Complete => None,
        }
    }

    /// Takes the reply to the request that `next_request` gave (any bytes
    /// for a request that awaits none; there is none once the session is
    /// complete) and moves on as `step` says, showing
    /// what `step_notice` says; when the reply ends the session, the error is
    /// the one `step_error` names and the session stays where it was.
    pub fn advance(&mut self, reply: &[u8]) -> (notice: Result<FlashNotice, AP2FlashError>)
        requires
            old(self).wf(),
            !(old(self).current_stage() is Complete),
        ensures
            final(self).wf(),
            final(self).plan_target() == old(self).plan_target(),
            final(self).plan_requested_base() == old(self).plan_requested_base(),
            final(self).plan_image() == old(self).plan_image(),
            final(self).plan_boot() == old(self).plan_boot(),
            match step(
                old(self).plan_target(),
                old(self).plan_requested_base(),
                old(self).plan_image(),
                old(self).plan_boot(),
                old(self).current_stage(),
                reply@,
            ) {
                Some(next) => notice matches Ok(n) && final(self).current_stage() == next
                    && step_notice(
                    old(self).plan_target(),
                    old(self).plan_image(),
                    old(self).current_stage(),
                    n,
                ),
                None => notice matches Err(e) && final(self).current_stage()
                    == old(self).current_stage() && step_error(
                    old(self).plan_target(),
                    old(self).plan_requested_base(),
                    old(self).plan_image(),
                    old(self).current_stage(),
                    reply@,
                    e,
                ),
            },
    {
        let target = self.target;
        match self.stage {
            FlashStage::ReadLayout => {
                let layout = match FirmwareLayout::from_response(reply) {
                    Ok(layout) => layout,
                    Err(e) => return Err(e),
                };
                let detected = match layout.base_for(target) {
                    Ok(base) => base,
                    Err(e) => return Err(e),
                };
                let base = match self.requested_base {
                    Some(requested) => {
                        if requested != detected {
                            return Err(
                                AP2FlashError::BaseMismatch { target, requested, detected },
                            );
                        }
                        requested
                    },
                    None => detected,
                };
                match validate_image_span(target, base, self.image.len()) {
                    Ok(()) => {},
                    Err(e) => return Err(e),
                }
                self.stage = FlashStage::ReadMode { layout, base };
                Ok(FlashNotice::Quiet)
            },
            FlashStage::ReadMode { layout, base } => {
                let mode = match iap_mode_from_reply(target, reply) {
                    Ok(mode) => mode,
                    Err(e) => return Err(e),
                };
                match check_iap_mode(target, mode) {
                    Ok(()) => {},
                    Err(e) => return Err(e),
                }
                self.stage = FlashStage::Erase { layout, base };
                Ok(FlashNotice::Quiet)
            },
            FlashStage::Erase { layout, base } => {
                match expect_success(target, KeyCommand::IapEraseMemory.as_u8(), reply) {
                    Ok(()) => {},
                    Err(e) => return Err(e),
                }
                self.stage = FlashStage::Write {
                    layout,
                    base,
                    offset: 0,
                    next_progress: PROGRESS_INTERVAL,
                };
                Ok(FlashNotice::WriteStarted(format_transfer_progress(0, self.image.len(), base)))
            },
            FlashStage::Write { layout, base, offset, next_progress } => {
                match expect_success(target, KeyCommand::IapWriteMemory.as_u8(), reply) {
                    Ok(()) => {},
                    Err(e) => return Err(e),
                }
                let unit = chunk_size(target);
                let total = self.image.len();
                proof {
                    lemma_chunk_inside_padding(total as nat, unit as nat, offset as nat);
                    vstd::arithmetic::div_mod::lemma_mod_add_multiples_vanish(
                        offset as int,
                        unit as int,
                    );
                }
                let current_address = base + offset as u32;
                let next_address = match current_address.checked_add(unit as u32) {
                    Some(address) => address,
                    None => {
                        return Err(
                            AP2FlashError::Protocol(String::from_str("flash address overflow")),
                        )
                    },
                };
                let written = if offset + unit < total {
                    offset + unit
                } else {
                    total
                };
                if written >= total {
                    self.stage = if self.boot {
                        FlashStage::Restart
                    } else {
                        FlashStage::Complete
                    };
                    Ok(
                        FlashNotice::WriteFinished(
                            format_transfer_progress(written, total, next_address),
                        ),
                    )
                } else if written >= next_progress {
                    self.stage = FlashStage::Write {
                        layout,
                        base,
                        offset: offset + unit,
                        next_progress: written.saturating_add(PROGRESS_INTERVAL),
                    };
                    Ok(FlashNotice::Progress(format_transfer_progress(written, total, next_address)))
                } else {
                    self.stage = FlashStage::Write {
                        layout,
                        base,
                        offset: offset + unit,
                        next_progress,
                    };
                    Ok(FlashNotice::Quiet)
                }
            },
            FlashStage::Restart | FlashStage::Complete => {
                self.stage = FlashStage::Complete;
                Ok(FlashNotice::Quiet)
            },
        }
    }
}

} // verus!
