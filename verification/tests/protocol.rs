use camctl_rs::protocol::{payload, Channel, Info, PAYLOAD_LEN, STATUS_LEN};

#[test]
fn payload_fan_bytes() {
    for percent in [0u8, 1, 50, 75, 100] {
        let p = payload(Channel::Fan, percent);
        assert_eq!(p.len(), PAYLOAD_LEN);
        assert_eq!(p[0], 2);
        assert_eq!(p[1], 77);
        assert_eq!(p[2], 0);
        assert_eq!(p[3], 0);
        assert_eq!(p[4], percent);
        for i in 5..PAYLOAD_LEN {
            assert_eq!(p[i], 0);
        }
    }
}

#[test]
fn payload_pump_bytes() {
    for percent in [0u8, 60, 100] {
        let p = payload(Channel::Pump, percent);
        assert_eq!(p.len(), PAYLOAD_LEN);
        assert_eq!(p[0], 2);
        assert_eq!(p[1], 77);
        assert_eq!(p[2], 64);
        assert_eq!(p[3], 0);
        assert_eq!(p[4], percent);
        for i in 5..PAYLOAD_LEN {
            assert_eq!(p[i], 0);
        }
    }
}

#[test]
fn decode_example_frame() {
    let mut frame = vec![0u8; STATUS_LEN];
    frame[1] = 20;
    frame[2] = 5;
    frame[3] = 0;
    frame[4] = 150;
    frame[5] = 0;
    frame[6] = 90;
    let info = Info::from(&frame);
    assert_eq!(info.liquid_temp_deg, 20);
    assert_eq!(info.liquid_temp_tenths, 5);
    assert_eq!(info.fan_speed, 150);
    assert_eq!(info.pump_speed, 90);
}

#[test]
fn decode_big_endian_speeds() {
    let mut frame = vec![0u8; STATUS_LEN];
    frame[3] = 0x12;
    frame[4] = 0x34;
    frame[5] = 0xff;
    frame[6] = 0xff;
    let info = Info::from(&frame);
    assert_eq!(info.fan_speed, 0x1234);
    assert_eq!(info.pump_speed, 0xffff);
}

#[test]
fn decode_zero_frame() {
    let frame = vec![0u8; STATUS_LEN];
    let info = Info::from(&frame);
    assert_eq!(
        info,
        Info { liquid_temp_deg: 0, liquid_temp_tenths: 0, fan_speed: 0, pump_speed: 0 }
    );
}

#[test]
fn decode_is_deterministic() {
    let mut frame = vec![0u8; STATUS_LEN];
    frame[1] = 31;
    frame[2] = 9;
    frame[3] = 2;
    frame[4] = 88;
    let a = Info::from(&frame);
    let b = Info::from(&frame);
    assert_eq!(a, b);
}
