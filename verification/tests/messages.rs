use ringcon_osc::messages::{ByteRange, Configuration, FixedRange, InitializationStep};

#[test]
fn stages_run_in_the_handshake_order() {
    let mut step = InitializationStep::first();
    let mut seen = vec![step];
    while let Some(next) = step.next() {
        seen.push(next);
        step = next;
    }
    assert_eq!(
        seen,
        vec![
            InitializationStep::Configuring,
            InitializationStep::McuConfiguration0,
            InitializationStep::McuConfiguration1,
            InitializationStep::McuState,
            InitializationStep::Step4,
            InitializationStep::Step5,
            InitializationStep::Step6,
            InitializationStep::Step7,
        ]
    );
}

#[test]
fn progress_index_follows_the_declaration_order() {
    assert_eq!(InitializationStep::Configuring.progress_index(), 0);
    assert_eq!(InitializationStep::McuState.progress_index(), 1);
    assert_eq!(InitializationStep::McuConfiguration0.progress_index(), 2);
    assert_eq!(InitializationStep::McuConfiguration1.progress_index(), 3);
    assert_eq!(InitializationStep::Step4.progress_index(), 4);
    assert_eq!(InitializationStep::Step5.progress_index(), 5);
    assert_eq!(InitializationStep::Step6.progress_index(), 6);
    assert_eq!(InitializationStep::Step7.progress_index(), 7);
}

#[test]
fn duplicate_copies_every_field() {
    let config = Configuration {
        udp_address: "127.0.0.1:9000".to_string(),
        osc_address: "/a".to_string(),
        in_range: ByteRange { start: 7, end: 24 },
        in_center: 15,
        out_range: FixedRange { start: -5, end: 12 },
        out_idle: 3,
    };
    assert_eq!(config.duplicate(), config);
}
