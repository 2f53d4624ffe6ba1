use skoffroad::recovery::{
    RecoveryMessage, HookKind, RecoveryKind, CodecError, RecoveryState, request_recovery,
    kind_label, AttachIdCounter,
};

#[test]
fn request_wire_format() {
    let m = RecoveryMessage::Request {
        target_hook: HookKind::CageHook,
        our_hook: HookKind::FrontHook,
        kind: RecoveryKind::Winch,
        attach_id: 7,
    };
    assert_eq!(m.encode_bytes().unwrap(), vec![0u8, 2, 0, 0, 7]);
}

#[test]
fn large_ids_use_varint_markers() {
    let m = RecoveryMessage::Accept { attach_id: 300 };
    assert_eq!(m.encode_bytes().unwrap(), vec![1u8, 251, 44, 1]);
    let m = RecoveryMessage::Detach { attach_id: 70000 };
    assert_eq!(m.encode_bytes().unwrap(), vec![4u8, 252, 0x70, 0x11, 0x01, 0x00]);
}

#[test]
fn messages_round_trip() {
    let all = [
        RecoveryMessage::Request { target_hook: HookKind::RearHook, our_hook: HookKind::CageHook, kind: RecoveryKind::TowStrap, attach_id: u32::MAX },
        RecoveryMessage::Accept { attach_id: 0 },
        RecoveryMessage::Reject,
        RecoveryMessage::Retract { attach_id: 250 },
        RecoveryMessage::Detach { attach_id: 65536 },
    ];
    for m in all {
        let bytes = m.encode_bytes().unwrap();
        assert_eq!(RecoveryMessage::decode_bytes(&bytes), Ok(m));
    }
}

#[test]
fn decode_errors() {
    assert_eq!(RecoveryMessage::decode_bytes(&[]), Err(CodecError::Malformed));
    assert_eq!(RecoveryMessage::decode_bytes(&[9]), Err(CodecError::UnexpectedVariant { found: 9 }));
    assert_eq!(RecoveryMessage::decode_bytes(&[0, 3, 0, 0, 1]), Err(CodecError::UnexpectedVariant { found: 3 }));
    assert_eq!(RecoveryMessage::decode_bytes(&[1]), Err(CodecError::Malformed));
    assert_eq!(RecoveryMessage::decode_bytes(&[1, 251, 44]), Err(CodecError::Malformed));
}

#[test]
fn handshake_links_both_sides() {
    let mut rescuer = RecoveryState::new();
    let mut victim = RecoveryState::new();
    let mut ids = AttachIdCounter { next: 5 };
    let req = request_recovery(HookKind::FrontHook, 22, HookKind::RearHook, RecoveryKind::Winch, &mut rescuer, &mut ids).unwrap();
    assert!(rescuer.is_busy());
    assert_eq!(ids.next, 6);
    assert!(request_recovery(HookKind::FrontHook, 22, HookKind::RearHook, RecoveryKind::Winch, &mut rescuer, &mut ids).is_none());
    assert_eq!(ids.next, 6, "a refused request uses no id");
    let got = victim.receive_bytes(11, &req).unwrap();
    assert!(got.connected);
    let link = victim.active.unwrap();
    assert_eq!((link.peer_id, link.rescuer, link.attach_id), (11, false, 5));
    assert_eq!(link.our_hook, HookKind::RearHook);
    let reply = got.reply.unwrap();
    assert_eq!(RecoveryMessage::decode_bytes(&reply), Ok(RecoveryMessage::Accept { attach_id: 5 }));
    let back = rescuer.receive_bytes(22, &reply).unwrap();
    assert!(back.connected);
    assert!(back.reply.is_none());
    let link = rescuer.active.unwrap();
    assert!(link.rescuer);
    assert!(rescuer.pending_request.is_none());
}

#[test]
fn busy_victim_rejects() {
    let mut a = RecoveryState::new();
    let mut b = RecoveryState::new();
    let mut ids = AttachIdCounter::new();
    let req = request_recovery(HookKind::FrontHook, 2, HookKind::FrontHook, RecoveryKind::TowStrap, &mut a, &mut ids).unwrap();
    assert_eq!(RecoveryMessage::decode_bytes(&req), Ok(RecoveryMessage::Request {
        target_hook: HookKind::FrontHook, our_hook: HookKind::FrontHook, kind: RecoveryKind::TowStrap, attach_id: 1 }));
    b.receive_bytes(1, &req).unwrap();
    let again = b.receive_bytes(3, &req).unwrap();
    assert!(!again.connected);
    assert_eq!(RecoveryMessage::decode_bytes(&again.reply.unwrap()), Ok(RecoveryMessage::Reject));
}

#[test]
fn retract_and_detach() {
    let mut a = RecoveryState::new();
    let mut b = RecoveryState::new();
    let mut ids = AttachIdCounter { next: 9 };
    let req = request_recovery(HookKind::CageHook, 2, HookKind::FrontHook, RecoveryKind::Winch, &mut a, &mut ids).unwrap();
    let acc = b.receive_bytes(1, &req).unwrap().reply.unwrap();
    a.receive_bytes(2, &acc).unwrap();
    assert!(a.retract(false).is_none());
    let (peer, bytes) = a.retract(true).unwrap();
    assert_eq!(peer, 2);
    b.receive_bytes(1, &bytes).unwrap();
    assert!(b.active.unwrap().retracting);
    assert!(b.pull_step(false, false));
    assert!(!b.active.unwrap().retracting);
    let (peer, bytes) = a.detach().unwrap();
    assert_eq!(peer, 2);
    assert!(a.active.is_none());
    b.receive_bytes(1, &bytes).unwrap();
    assert!(b.active.is_none());
    assert_eq!(kind_label(RecoveryKind::Winch), "Winching");
}

#[test]
fn malformed_bytes_change_nothing() {
    let mut s = RecoveryState::new();
    assert_eq!(s.receive_bytes(1, &[7]).err(), Some(CodecError::UnexpectedVariant { found: 7 }));
    assert!(s.active.is_none() && s.pending_request.is_none());
}

#[test]
fn attach_ids_count_up_and_wrap() {
    let mut ids = AttachIdCounter::new();
    assert_eq!(ids.issue(), 1);
    assert_eq!(ids.issue(), 2);
    let mut top = AttachIdCounter { next: u32::MAX };
    assert_eq!(top.issue(), u32::MAX);
    assert_eq!(top.issue(), 0);
}
