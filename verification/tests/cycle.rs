use blinky::channel::Channel;
use blinky::cycle::Firmware;
use blinky::cycle::InitError;
use blinky::cycle::Stage;
use blinky::handoff::Handoff;
use blinky::indicator::Indicator;
use blinky::sensor::BusError;

fn all_ok_replies(bytes: [u8; 14]) -> Vec<Result<u8, BusError>> {
    bytes.iter().map(|b| Ok(*b)).collect()
}

fn serial_of(fw: &Firmware) -> Vec<u8> {
    match (&fw.channel.cache, &fw.channel.slot) {
        (Some(ch), _) => ch.sent.clone(),
        (_, Some(ch)) => ch.sent.clone(),
        _ => panic!("channel is held nowhere"),
    }
}

fn pin_of(fw: &Firmware) -> &Indicator {
    match (&fw.indicator.cache, &fw.indicator.slot) {
        (Some(p), _) => p,
        (_, Some(p)) => p,
        _ => panic!("indicator is held nowhere"),
    }
}

fn exclusive<T>(h: &Handoff<T>) -> bool {
    !(h.slot.is_some() && h.cache.is_some())
}

#[test]
fn init_with_responding_sensor_arms() {
    let fw = Firmware::init(true).unwrap();
    assert_eq!(fw.stage, Stage::Armed);
    assert!(serial_of(&fw).is_empty());
    assert!(fw.sensor.slot.is_some() && fw.sensor.cache.is_none());
    assert_eq!(fw.sensor.extractions, 0);
}

#[test]
fn init_with_silent_sensor_never_arms() {
    match Firmware::init(false) {
        Ok(_) => panic!("a silent sensor must be fatal"),
        Err(e) => assert_eq!(e, InitError::SensorNotResponding),
    }
}

#[test]
fn first_firing_extracts_once_then_never_again() {
    let mut fw = Firmware::init(true).unwrap();
    let replies = all_ok_replies([0; 14]);
    assert_eq!(fw.sensor.extractions, 0);
    fw.firing(&replies).unwrap();
    assert_eq!(fw.sensor.extractions, 1);
    assert_eq!(fw.channel.extractions, 1);
    assert_eq!(fw.indicator.extractions, 1);
    fw.firing(&replies).unwrap();
    fw.firing(&replies).unwrap();
    assert_eq!(fw.sensor.extractions, 1);
    assert_eq!(fw.channel.extractions, 1);
    assert_eq!(fw.indicator.extractions, 1);
}

#[test]
fn slot_and_cache_never_both_populated() {
    let mut fw = Firmware::init(true).unwrap();
    assert!(exclusive(&fw.sensor) && exclusive(&fw.channel) && exclusive(&fw.indicator));
    let replies = all_ok_replies([1; 14]);
    for _ in 0..3 {
        fw.firing(&replies).unwrap();
        assert!(exclusive(&fw.sensor) && exclusive(&fw.channel) && exclusive(&fw.indicator));
        assert!(fw.sensor.slot.is_none() && fw.sensor.cache.is_some());
    }
}

#[test]
fn three_firings_repeat_header_and_report() {
    let mut fw = Firmware::init(true).unwrap();
    // acc 258, -2, 772; temp -513; gyro 0, 300, -300
    let replies = all_ok_replies([
        0x01, 0x02, 0xFF, 0xFE, 0x03, 0x04, 0xFD, 0xFF, 0x00, 0x00, 0x01, 0x2C, 0xFE, 0xD4,
    ]);
    for _ in 0..3 {
        fw.firing(&replies).unwrap();
    }
    let one = b"\nFROM MPU6050: \nAX: 258\nAY: -2\nAZ: 772\nTP: -513\nGX: 0\nGY: 300\nGZ: -300\n";
    let mut expected: Vec<u8> = Vec::new();
    expected.extend_from_slice(one);
    expected.extend_from_slice(one);
    expected.extend_from_slice(one);
    assert_eq!(serial_of(&fw), expected);
}

#[test]
fn firing_flashes_and_releases_pin() {
    let mut fw = Firmware::init(true).unwrap();
    let replies = all_ok_replies([0; 14]);
    fw.firing(&replies).unwrap();
    assert!(!pin_of(&fw).active);
    assert_eq!(pin_of(&fw).trace, vec![true, false]);
    fw.firing(&replies).unwrap();
    assert!(!pin_of(&fw).active);
    assert_eq!(pin_of(&fw).trace, vec![true, false, true, false]);
}

#[test]
fn bus_failure_halts_after_header_without_flash() {
    let mut fw = Firmware::init(true).unwrap();
    let ok = all_ok_replies([0; 14]);
    fw.firing(&ok).unwrap();
    let sent_before = serial_of(&fw);
    let mut bad = all_ok_replies([0; 14]);
    bad[3] = Err(BusError::Arbitration);
    let e = fw.firing(&bad).unwrap_err();
    assert_eq!(e, BusError::Arbitration);
    assert_eq!(fw.stage, Stage::Halted);
    let mut expected = sent_before;
    expected.extend_from_slice(b"\nFROM MPU6050: \n");
    assert_eq!(serial_of(&fw), expected);
    // the failed cycle did not flash
    assert_eq!(pin_of(&fw).trace, vec![true, false]);
}

#[test]
fn handoff_lifecycle_directly() {
    let mut h: Handoff<Channel> = Handoff::new();
    assert!(h.slot.is_none() && h.cache.is_none() && h.extractions == 0);
    h.store(Channel::new());
    assert!(h.slot.is_some() && h.cache.is_none() && h.extractions == 0);
    h.resolve();
    assert!(h.slot.is_none() && h.cache.is_some() && h.extractions == 1);
    h.resolve();
    assert!(h.slot.is_none() && h.cache.is_some() && h.extractions == 1);
}

#[test]
fn indicator_flash_is_net_idempotent() {
    let mut p = Indicator::new();
    assert!(!p.active);
    p.flash();
    let after_one = p.active;
    p.flash();
    assert_eq!(p.active, after_one);
    assert!(!p.active);
    assert_eq!(p.trace, vec![true, false, true, false]);
}

#[test]
fn channel_sends_in_order() {
    let mut ch = Channel::new();
    ch.send_byte(1);
    ch.send_bytes(&vec![2, 3, 4]);
    ch.send_byte(5);
    assert_eq!(ch.sent, vec![1, 2, 3, 4, 5]);
}

#[test]
fn channel_send_str_sends_encoding_bytes() {
    let mut ch = Channel::new();
    ch.send_str("TP: -3\n");
    ch.send_str("");
    ch.send_str("GX: 0\n");
    assert_eq!(ch.sent, b"TP: -3\nGX: 0\n".to_vec());
}
