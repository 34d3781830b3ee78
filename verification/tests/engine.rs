use ringcon_osc::engine::{
    failure_emission, frame_flex, read_step, status_for_flex, Debouncer, ReadOutcome,
};
use ringcon_osc::messages::Status;

/// A full-size input report with the sensor byte set.
fn sensor_frame(tag: u8, flex: u8) -> Vec<u8> {
    let mut f = vec![0u8; 362];
    f[0] = tag;
    f[40] = flex;
    f
}

#[test]
fn wrong_tag_is_discarded() {
    let mut deb = Debouncer::new();
    let f = sensor_frame(0x31, 9);
    assert_eq!(read_step(&mut deb, &f, 0), ReadOutcome::Discarded);
    // Nothing was recorded: the next valid frame still acts.
    assert_eq!(deb.last, None);
}

#[test]
fn short_frame_is_discarded() {
    let mut deb = Debouncer::new();
    let mut f = vec![0u8; 39];
    f[0] = 0x30;
    assert_eq!(read_step(&mut deb, &f, 0), ReadOutcome::Discarded);
    assert_eq!(deb.last, None);
    // Forty bytes still cannot reach the sensor byte at offset forty.
    let mut f = vec![0u8; 40];
    f[0] = 0x30;
    assert_eq!(frame_flex(&f), None);
    // Forty-one bytes can.
    let mut f = vec![0u8; 41];
    f[0] = 0x30;
    f[40] = 7;
    assert_eq!(frame_flex(&f), Some(7));
}

#[test]
fn valid_frame_emits_packet_and_status() {
    let mut deb = Debouncer::new();
    let f = sensor_frame(0x30, 9);
    assert_eq!(
        read_step(&mut deb, &f, 0),
        ReadOutcome::Emit {
            flex: 9,
            status: Status::Active(9)
        }
    );
    assert_eq!(deb.last, Some((9, 0)));
}

#[test]
fn zero_reading_reports_no_ring_con() {
    let mut deb = Debouncer::new();
    let f = sensor_frame(0x30, 0);
    assert_eq!(
        read_step(&mut deb, &f, 0),
        ReadOutcome::Emit {
            flex: 0,
            status: Status::NoRingCon
        }
    );
    assert_eq!(status_for_flex(0), Status::NoRingCon);
    assert_eq!(status_for_flex(200), Status::Active(200));
}

#[test]
fn repeated_reading_within_a_second_is_suppressed() {
    let mut deb = Debouncer::new();
    let f = sensor_frame(0x30, 9);
    assert!(matches!(read_step(&mut deb, &f, 0), ReadOutcome::Emit { .. }));
    assert_eq!(read_step(&mut deb, &f, 500), ReadOutcome::Discarded);
    assert_eq!(read_step(&mut deb, &f, 999), ReadOutcome::Discarded);
    // The recorded action is still the first one.
    assert_eq!(deb.last, Some((9, 0)));
}

#[test]
fn held_reading_heartbeats_exactly_once_per_second() {
    let mut deb = Debouncer::new();
    let f = sensor_frame(0x30, 9);
    assert!(matches!(read_step(&mut deb, &f, 0), ReadOutcome::Emit { .. }));
    // One second later the heartbeat fires, once.
    assert!(matches!(
        read_step(&mut deb, &f, 1000),
        ReadOutcome::Emit { .. }
    ));
    assert_eq!(deb.last, Some((9, 1000)));
    // The refreshed window suppresses the same reading for another second.
    assert_eq!(read_step(&mut deb, &f, 1500), ReadOutcome::Discarded);
    assert_eq!(read_step(&mut deb, &f, 1999), ReadOutcome::Discarded);
    assert!(matches!(
        read_step(&mut deb, &f, 2000),
        ReadOutcome::Emit { .. }
    ));
}

#[test]
fn changed_reading_acts_immediately() {
    let mut deb = Debouncer::new();
    assert!(matches!(
        read_step(&mut deb, &sensor_frame(0x30, 9), 0),
        ReadOutcome::Emit { .. }
    ));
    assert_eq!(
        read_step(&mut deb, &sensor_frame(0x30, 10), 1),
        ReadOutcome::Emit {
            flex: 10,
            status: Status::Active(10)
        }
    );
}

#[test]
fn read_failure_emits_zero_then_disconnected() {
    assert_eq!(failure_emission(), (0, Status::Disconnected));
}
