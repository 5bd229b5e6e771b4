use annepro2_tools::error::AP2FlashError;
use annepro2_tools::frame::reply_wait_secs;
use annepro2_tools::layout::{
    check_iap_mode, chunk_size, iap_mode_from_reply, read_firmware_image, validate_image_span,
};
use annepro2_tools::session::{FlashNotice, FlashSession, FlashStage, HidRequest};
use annepro2_tools::target::AP2Target;

fn layout_body(main: u32, led: u32, ble: u32) -> Vec<u8> {
    let mut body = vec![0u8; 26];
    body[2..6].copy_from_slice(&main.to_le_bytes());
    body[12..16].copy_from_slice(&led.to_le_bytes());
    body[22..26].copy_from_slice(&ble.to_le_bytes());
    body
}

fn protocol_text(error: AP2FlashError) -> String {
    match error {
        AP2FlashError::Protocol(text) => text,
        other => panic!("not a protocol error: {other:?}"),
    }
}

/// Runs a session against a device that accepts everything, returning the
/// requests sent and the progress lines shown.
fn run_ok(session: &mut FlashSession, layout: Vec<u8>, mode: u8) -> (Vec<HidRequest>, Vec<String>) {
    let mut requests = Vec::new();
    let mut lines = Vec::new();
    while let Some(request) = session.next_request() {
        let reply = match request.key {
            3 => layout.clone(),
            2 => vec![mode],
            _ => vec![0],
        };
        match session.advance(&reply).unwrap() {
            FlashNotice::Quiet => {}
            FlashNotice::WriteStarted(line)
            | FlashNotice::Progress(line)
            | FlashNotice::WriteFinished(line) => lines.push(line),
        }
        requests.push(request);
    }
    (requests, lines)
}

#[test]
fn a_transfer_goes_layout_mode_erase_writes_restart() {
    let image: Vec<u8> = (0..100u8).collect();
    let mut session = FlashSession::new(AP2Target::McuBle, Some(0x8000), image.clone(), true);
    let (requests, lines) = run_ok(&mut session, layout_body(0x4000, 0x2000, 0x8000), 1);

    assert_eq!(requests.len(), 3 + 4 + 1);
    assert_eq!((requests[0].target, requests[0].command, requests[0].key), (AP2Target::McuMain, 2, 3));
    assert!(requests[0].args.is_empty());
    assert_eq!((requests[1].target, requests[1].key), (AP2Target::McuBle, 2));
    assert_eq!(requests[2].key, 0x43);
    assert!(requests[2].long_wait);
    assert_eq!(requests[2].args, 0x8000u32.to_le_bytes().to_vec());

    let mut carried = Vec::new();
    for (i, write) in requests[3..7].iter().enumerate() {
        assert_eq!(write.key, 0x31);
        assert_eq!(write.target, AP2Target::McuBle);
        assert_eq!(write.args.len(), 4 + 32);
        assert_eq!(&write.args[..4], &(0x8000u32 + 32 * i as u32).to_le_bytes());
        carried.extend_from_slice(&write.args[4..]);
    }
    let mut expected = image.clone();
    expected.resize(128, 0);
    assert_eq!(carried, expected);

    let restart = &requests[7];
    assert_eq!((restart.target, restart.key, restart.awaits_reply), (AP2Target::McuMain, 1, false));
    assert_eq!(restart.args, vec![2]);
    assert_eq!(session.stage(), FlashStage::Complete);
    assert!(session.next_request().is_none());

    assert_eq!(lines.len(), 2);
    assert_eq!(lines[0], "Writing [------------------------]   0% 0 B/100 B (next 0x00008000)");
    assert_eq!(lines[1], "Writing [========================] 100% 100 B/100 B (next 0x00008080)");
}

#[test]
fn progress_is_shown_every_four_kib() {
    let image = vec![0x5au8; 10_000];
    let mut session = FlashSession::new(AP2Target::McuMain, None, image, false);
    let (requests, lines) = run_ok(&mut session, layout_body(0x4000, 0x2000, 0x8000), 0);
    // 10 000 bytes in 48-byte writes: 209 writes, no restart.
    assert_eq!(requests.len(), 3 + 209);
    assert_eq!(lines.len(), 4);
    assert_eq!(lines[1], "Writing [=========---------------]  41% 4.0 KiB/9.8 KiB (next 0x00005020)");
    assert_eq!(lines[2], "Writing [===================-----]  82% 8.1 KiB/9.8 KiB (next 0x00006040)");
    assert_eq!(lines[3], "Writing [========================] 100% 9.8 KiB/9.8 KiB (next 0x00006730)");
}

#[test]
fn a_different_explicit_base_is_refused_before_erasing() {
    let mut session = FlashSession::new(AP2Target::McuLed, Some(0x3000), vec![1, 2, 3], false);
    let request = session.next_request().unwrap();
    assert_eq!(request.key, 3);
    let error = session.advance(&layout_body(0x4000, 0x2000, 0x8000)).unwrap_err();
    assert!(matches!(
        error,
        AP2FlashError::BaseMismatch {
            target: AP2Target::McuLed,
            requested: 0x3000,
            detected: 0x2000
        }
    ));
    assert_eq!(session.stage(), FlashStage::ReadLayout);
}

#[test]
fn non_flashable_targets_and_short_layouts_are_refused() {
    let mut session = FlashSession::new(AP2Target::UsbHost, None, vec![1], false);
    assert!(matches!(
        session.advance(&layout_body(1, 2, 3)),
        Err(AP2FlashError::UnsupportedTarget(AP2Target::UsbHost))
    ));
    let mut session = FlashSession::new(AP2Target::McuMain, None, vec![1], false);
    let error = session.advance(&[0u8; 25]).unwrap_err();
    assert_eq!(protocol_text(error), "firmware layout response is too short: 25 bytes");
}

#[test]
fn an_image_past_the_address_space_is_refused() {
    let mut session = FlashSession::new(AP2Target::McuBle, None, vec![0; 17], false);
    let error = session.advance(&layout_body(0, 0, u32::MAX - 31)).unwrap_err();
    assert_eq!(protocol_text(error), "firmware image exceeds the IAP address space");
    let mut session = FlashSession::new(AP2Target::McuBle, None, vec![0; 32], false);
    assert!(session.advance(&layout_body(0, 0, u32::MAX - 31)).is_err());
    let mut session = FlashSession::new(AP2Target::McuBle, None, vec![0; 32], false);
    session.advance(&layout_body(0, 0, u32::MAX - 32)).unwrap();
}

#[test]
fn a_target_outside_iap_mode_is_not_erased() {
    let mut session = FlashSession::new(AP2Target::McuMain, None, vec![1], false);
    session.advance(&layout_body(0x4000, 0, 0)).unwrap();
    let error = session.advance(&[2]).unwrap_err();
    assert_eq!(protocol_text(error), "main MCU is not in IAP mode (reported mode 2)");
    let error = session.advance(&[]).unwrap_err();
    assert_eq!(protocol_text(error), "main MCU IAP mode response has no mode byte");
    session.advance(&[1]).unwrap();
    assert_eq!(session.next_request().unwrap().key, 0x43);
}

#[test]
fn a_rejected_write_stops_the_transfer() {
    let mut session = FlashSession::new(AP2Target::McuBle, None, vec![1; 70], false);
    session.advance(&layout_body(0, 0, 0x8000)).unwrap();
    session.advance(&[0]).unwrap();
    assert!(matches!(session.advance(&[0]).unwrap(), FlashNotice::WriteStarted(_)));
    session.advance(&[0]).unwrap();
    let error = session.advance(&[3]).unwrap_err();
    assert!(matches!(
        error,
        AP2FlashError::DeviceRejected {
            target: AP2Target::McuBle,
            command: 0x31,
            status: 3
        }
    ));
    let stage = session.stage();
    assert!(matches!(stage, FlashStage::Write { offset: 32, .. }));
    let error = session.advance(&[]).unwrap_err();
    assert_eq!(protocol_text(error), "BLE MCU command 0x31 response has no status byte");
}

#[test]
fn a_rejected_erase_stops_the_transfer() {
    let mut session = FlashSession::new(AP2Target::McuLed, None, vec![1; 70], false);
    session.advance(&layout_body(0, 0x2000, 0)).unwrap();
    session.advance(&[0]).unwrap();
    assert!(matches!(
        session.advance(&[0x10]),
        Err(AP2FlashError::DeviceRejected {
            target: AP2Target::McuLed,
            command: 0x43,
            status: 0x10
        })
    ));
}

#[test]
fn image_and_span_checks() {
    assert_eq!(chunk_size(AP2Target::McuBle), 32);
    assert_eq!(chunk_size(AP2Target::McuMain), 48);
    assert_eq!(chunk_size(AP2Target::McuLed), 48);
    assert!(validate_image_span(AP2Target::McuBle, u32::MAX - 32, 16).is_ok());
    assert!(validate_image_span(AP2Target::McuBle, u32::MAX - 31, 16).is_err());
    assert!(validate_image_span(AP2Target::McuMain, u32::MAX - 48, 48).is_ok());
    assert!(validate_image_span(AP2Target::McuMain, u32::MAX - 48, 49).is_err());
    let error = validate_image_span(AP2Target::McuMain, 0, usize::MAX - 10).unwrap_err();
    assert_eq!(protocol_text(error), "firmware image size overflow");

    let error = read_firmware_image(Err("no such file".to_owned())).unwrap_err();
    assert!(matches!(error, AP2FlashError::Io(ref text) if text == "no such file"));
    assert_eq!(read_firmware_image(Ok(vec![7, 8])).unwrap(), vec![7, 8]);

    assert_eq!(iap_mode_from_reply(AP2Target::McuLed, &[4, 5]).unwrap(), 4);
    assert!(check_iap_mode(AP2Target::McuLed, 1).is_ok());
    assert!(check_iap_mode(AP2Target::McuLed, 0).is_ok());
    assert!(check_iap_mode(AP2Target::McuLed, 2).is_err());
}

#[test]
fn a_probe_only_reads() {
    let requests = annepro2_tools::session::probe_requests();
    let seen: Vec<(AP2Target, u8, u8, bool, bool)> = requests
        .iter()
        .map(|r| (r.target, r.command, r.key, r.awaits_reply, r.long_wait))
        .collect();
    assert_eq!(
        seen,
        vec![
            (AP2Target::McuMain, 2, 3, true, false),
            (AP2Target::McuMain, 2, 2, true, false),
            (AP2Target::McuLed, 2, 2, true, false),
            (AP2Target::McuBle, 2, 2, true, false),
        ]
    );
    assert!(requests.iter().all(|r| r.args.is_empty()));
}

#[test]
fn a_matching_explicit_base_runs_as_no_base() {
    let image: Vec<u8> = (0..70u8).collect();
    let layout = layout_body(0x4000, 0x2000, 0x8000);
    let mut with_base = FlashSession::new(AP2Target::McuLed, Some(0x2000), image.clone(), true);
    let mut without = FlashSession::new(AP2Target::McuLed, None, image, true);
    let (a, _) = run_ok(&mut with_base, layout.clone(), 1);
    let (b, _) = run_ok(&mut without, layout, 1);
    let view = |requests: &Vec<HidRequest>| -> Vec<(AP2Target, u8, u8, Vec<u8>)> {
        requests
            .iter()
            .map(|r| (r.target, r.command, r.key, r.args.clone()))
            .collect()
    };
    assert_eq!(view(&a), view(&b));
}

#[test]
fn erases_wait_longer_than_other_replies() {
    assert_eq!(reply_wait_secs(true), 30);
    assert_eq!(reply_wait_secs(false), 5);
}
