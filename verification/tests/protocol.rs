use ringcon_osc::messages::{InitializationStep, Status};
use ringcon_osc::protocol::{
    stage_accepts, stage_prelude, stage_request, CommandDecision, CommandOutcome, Handshake,
};

/// A response frame with the given bytes set and everything else zero.
fn frame(set: &[(usize, u8)]) -> [u8; 362] {
    let mut f = [0u8; 362];
    for &(i, b) in set {
        f[i] = b;
    }
    f
}

/// A frame that completes the given stage.
fn matching_frame(step: InitializationStep) -> [u8; 362] {
    match step {
        InitializationStep::Configuring => frame(&[]),
        InitializationStep::McuConfiguration0 => frame(&[(13, 0x80), (14, 0x22)]),
        InitializationStep::McuConfiguration1 => frame(&[(0, 0x21), (15, 1), (22, 3)]),
        InitializationStep::McuState => frame(&[(0, 0x21), (15, 9), (17, 1)]),
        InitializationStep::Step4 => frame(&[(0, 0x21), (14, 0x59), (16, 0x20)]),
        InitializationStep::Step5 => frame(&[(0, 0x21), (14, 0x5c)]),
        InitializationStep::Step6 => frame(&[(0, 0x21), (14, 0x5a)]),
        InitializationStep::Step7 => frame(&[(0, 0x21), (14, 0x58)]),
    }
}

#[test]
fn handshake_walks_the_stages_in_order() {
    let mut h = Handshake::new();
    assert_eq!(h.current, Some(InitializationStep::Configuring));
    assert_eq!(
        h.current_status(),
        Some(Status::Initializing(InitializationStep::Configuring))
    );
    // The first stage completes on its prelude alone.
    h.advance();

    let expected = [
        InitializationStep::McuConfiguration0,
        InitializationStep::McuConfiguration1,
        InitializationStep::McuState,
        InitializationStep::Step4,
        InitializationStep::Step5,
        InitializationStep::Step6,
        InitializationStep::Step7,
    ];
    for step in expected {
        assert_eq!(h.current, Some(step));
        assert!(!h.complete());
        let d = h.on_outcome(&CommandOutcome::Replied(matching_frame(step)));
        assert_eq!(d, CommandDecision::Advance);
    }
    assert!(h.complete());
    assert_eq!(h.current_status(), None);
}

#[test]
fn three_rejections_then_match_advances_once() {
    let mut h = Handshake::new();
    h.advance();
    assert_eq!(h.current, Some(InitializationStep::McuConfiguration0));

    // Three responses without the stage's markers: the stage is retried and
    // the announced status never moves.
    let bad = frame(&[(13, 0x80)]); // second marker missing
    for _ in 0..3 {
        let d = h.on_outcome(&CommandOutcome::Replied(bad));
        assert_eq!(d, CommandDecision::Resend);
        assert_eq!(
            h.current_status(),
            Some(Status::Initializing(InitializationStep::McuConfiguration0))
        );
    }

    // The fourth response matches: the handshake advances, exactly once.
    let good = matching_frame(InitializationStep::McuConfiguration0);
    let d = h.on_outcome(&CommandOutcome::Replied(good));
    assert_eq!(d, CommandDecision::Advance);
    assert_eq!(h.current, Some(InitializationStep::McuConfiguration1));

    // The same frame does not move the next stage: its markers differ.
    let d = h.on_outcome(&CommandOutcome::Replied(good));
    assert_eq!(d, CommandDecision::Resend);
    assert_eq!(h.current, Some(InitializationStep::McuConfiguration1));
}

#[test]
fn rejection_resends_and_failure_aborts() {
    let mut h = Handshake::new();
    h.advance();
    let d = h.on_outcome(&CommandOutcome::Rejected);
    assert_eq!(d, CommandDecision::Resend);
    assert_eq!(h.current, Some(InitializationStep::McuConfiguration0));
    let d = h.on_outcome(&CommandOutcome::Failed);
    assert_eq!(d, CommandDecision::Abort);
    assert_eq!(h.current, Some(InitializationStep::McuConfiguration0));
}

#[test]
fn stage_requests_carry_the_frozen_bytes() {
    assert!(stage_request(InitializationStep::Configuring).is_none());

    let r = stage_request(InitializationStep::McuConfiguration0).unwrap();
    assert_eq!(r.command, 0x22);
    assert_eq!(r.payload, vec![0x01]);

    let r = stage_request(InitializationStep::McuConfiguration1).unwrap();
    assert_eq!(r.command, 0x21);
    assert_eq!(r.payload.len(), 37);
    assert_eq!(&r.payload[..3], &[0x21, 0x00, 0x03]);
    assert!(r.payload[3..36].iter().all(|&b| b == 0));
    assert_eq!(r.payload[36], 0xfa);

    let r = stage_request(InitializationStep::McuState).unwrap();
    assert_eq!(r.command, 0x21);
    assert_eq!(&r.payload[..3], &[0x21, 0x01, 0x01]);
    assert_eq!(r.payload[36], 0xf3);

    let r = stage_request(InitializationStep::Step4).unwrap();
    assert_eq!(r.command, 0x59);
    assert!(r.payload.is_empty());

    let r = stage_request(InitializationStep::Step5).unwrap();
    assert_eq!(r.command, 0x5c);
    assert_eq!(
        r.payload,
        vec![
            0x06, 0x03, 0x25, 0x06, 0x00, 0x00, 0x00, 0x00, 0x1c, 0x16, 0xed, 0x34, 0x36, 0x00,
            0x00, 0x00, 0x0a, 0x64, 0x0b, 0xe6, 0xa9, 0x22, 0x00, 0x00, 0x04, 0x00, 0x00, 0x00,
            0x00, 0x00, 0x00, 0x00, 0x90, 0xa8, 0xe1, 0x34, 0x36,
        ]
    );

    let r = stage_request(InitializationStep::Step6).unwrap();
    assert_eq!(r.command, 0x5a);
    assert_eq!(r.payload, vec![0x04, 0x01, 0x01, 0x02]);

    let r = stage_request(InitializationStep::Step7).unwrap();
    assert_eq!(r.command, 0x58);
    assert_eq!(r.payload, vec![0x04, 0x04, 0x12, 0x02]);
}

#[test]
fn stage_preludes_carry_the_frozen_bytes() {
    let p = stage_prelude(InitializationStep::Configuring);
    let got: Vec<(u8, Vec<u8>)> = p.into_iter().map(|r| (r.command, r.payload)).collect();
    assert_eq!(
        got,
        vec![
            (0x48, vec![0x01]), // enable vibration
            (0x40, vec![0x01]), // enable the inertial unit
            (0x03, vec![0x30]), // full input reports
        ]
    );

    let p = stage_prelude(InitializationStep::Step5);
    let got: Vec<(u8, Vec<u8>)> = p.into_iter().map(|r| (r.command, r.payload)).collect();
    assert_eq!(
        got,
        vec![(0x40, vec![0x03]), (0x40, vec![0x02]), (0x40, vec![0x01])]
    );

    assert!(stage_prelude(InitializationStep::McuConfiguration0).is_empty());
    assert!(stage_prelude(InitializationStep::Step7).is_empty());
}

#[test]
fn stage_markers_are_checked_at_their_offsets() {
    let steps = [
        InitializationStep::McuConfiguration0,
        InitializationStep::McuConfiguration1,
        InitializationStep::McuState,
        InitializationStep::Step4,
        InitializationStep::Step5,
        InitializationStep::Step6,
        InitializationStep::Step7,
    ];
    for step in steps {
        assert!(stage_accepts(step, &matching_frame(step)), "{step:?}");
        assert!(!stage_accepts(step, &frame(&[])), "{step:?} accepted zeros");
    }
    // A frame acknowledging one command does not complete a stage waiting on
    // another.
    assert!(!stage_accepts(
        InitializationStep::Step6,
        &matching_frame(InitializationStep::Step7)
    ));
    // The first stage has no markers to wait for.
    assert!(stage_accepts(InitializationStep::Configuring, &frame(&[])));
}
