use someip_gateway::buffer::WriteBuf;
use someip_gateway::codec::{FromSomeIP, ToSomeIP};
use someip_gateway::e2e::{E2EError, E2EErrorLocal, E2EProtectedType};
use someip_gateway::interface::{bool_byte, bool_from_wire, CloseWindows, RainSensor, WindowsPosition};
use someip_gateway::profile::{E2EGatewayProfile, E2EShowcaseProfile, NoE2EProtection};

#[test]
fn booleans_are_one_byte() {
    assert_eq!(bool_byte(true), 1);
    assert_eq!(bool_byte(false), 0);
    assert_eq!(bool_from_wire(&[0]), Some(false));
    assert_eq!(bool_from_wire(&[1, 7]), Some(true));
    assert_eq!(bool_from_wire(&[2]), None);
    assert_eq!(bool_from_wire(&[]), None);
}

#[test]
fn windows_position_is_read_from_four_bytes() {
    let read = WindowsPosition::from_someip(&[10, 20, 30, 40], None);
    assert_eq!(read, Ok(WindowsPosition { fl: 10, fr: 20, rl: 30, rr: 40 }));
    let longer = WindowsPosition::from_someip(&[1, 2, 3, 4, 5], None);
    assert_eq!(longer, Ok(WindowsPosition { fl: 1, fr: 2, rl: 3, rr: 4 }));
    assert_eq!(WindowsPosition::from_someip(&[10, 20, 30], None), Err(()));
}

#[test]
fn rain_sensor_and_close_windows_are_read_from_one_byte() {
    assert_eq!(RainSensor::from_someip(&[0], None), Ok(RainSensor { is_wet: false }));
    assert_eq!(RainSensor::from_someip(&[1], None), Ok(RainSensor { is_wet: true }));
    assert_eq!(RainSensor::from_someip(&[2], None), Err(()));
    assert_eq!(RainSensor::from_someip(&[], None), Err(()));
    assert_eq!(CloseWindows::from_someip(&[1], None), Ok(CloseWindows { close: true }));
    assert_eq!(CloseWindows::from_someip(&[0], None), Ok(CloseWindows { close: false }));
    assert_eq!(CloseWindows::from_someip(&[9], None), Err(()));
}

#[test]
fn close_windows_writes_one_byte() {
    let mut buffer = WriteBuf::new(1500);
    let mut profile = NoE2EProtection::new();
    assert!(CloseWindows { close: true }.to_someip(&mut buffer, Some(&mut profile)).is_ok());
    assert_eq!(buffer.filled_len(), 1);
    assert_eq!(buffer.filled(), &[0x01u8][..]);
}

#[test]
fn records_are_appended_behind_what_is_filled() {
    let mut buffer = WriteBuf::new(6);
    assert!(buffer.put_u8(0xEE).is_ok());
    assert!(WindowsPosition { fl: 1, fr: 2, rl: 3, rr: 4 }.to_someip(&mut buffer, None).is_ok());
    assert!(RainSensor { is_wet: true }.to_someip(&mut buffer, None).is_ok());
    assert_eq!(buffer.filled(), &[0xEEu8, 1, 2, 3, 4, 1][..]);
    assert!(CloseWindows { close: false }.to_someip(&mut buffer, None).is_err());
    assert_eq!(buffer.filled_len(), 6);
    let mut small = WriteBuf::new(3);
    assert!(WindowsPosition { fl: 1, fr: 2, rl: 3, rr: 4 }.to_someip(&mut small, None).is_err());
    assert_eq!(small.filled_len(), 0);
}

#[test]
fn protected_rain_sensor_carries_its_integrity_byte_in_front() {
    let mut profile = E2EShowcaseProfile::new();
    let mut buffer = WriteBuf::new(1500);
    let wet = E2EProtectedType::from_local(RainSensor { is_wet: true });
    assert!(wet.to_someip(&mut buffer, Some(&mut profile)).is_ok());
    assert_eq!(buffer.filled(), &[1u8, 1][..]);
    let dry = E2EProtectedType::from_local(RainSensor { is_wet: false });
    assert!(dry.to_someip(&mut buffer, Some(&mut profile)).is_ok());
    assert_eq!(buffer.filled(), &[1u8, 1, 0, 0][..]);
}

#[test]
fn protected_write_fails_without_profile_or_room_and_leaves_the_buffer() {
    let mut profile = E2EShowcaseProfile::new();
    let wet = E2EProtectedType::from_local(RainSensor { is_wet: true });
    let mut buffer = WriteBuf::new(4);
    assert!(buffer.put_slice(&[9, 9, 9]).is_ok());
    assert!(wet.to_someip(&mut buffer, Some(&mut profile)).is_err());
    assert_eq!(buffer.filled(), &[9u8, 9, 9][..]);
    let mut empty = WriteBuf::new(4);
    assert!(wet.to_someip(&mut empty, None).is_err());
    assert_eq!(empty.filled_len(), 0);
    let mut full = WriteBuf::new(0);
    assert!(wet.to_someip(&mut full, Some(&mut profile)).is_err());
}

#[test]
fn envelope_that_failed_its_check_is_not_written() {
    let mut profile = E2EShowcaseProfile::new();
    let broken: E2EProtectedType<RainSensor> = E2EProtectedType::from_gateway(None, 5, E2EError::CrcError);
    let mut buffer = WriteBuf::new(16);
    assert!(broken.to_someip(&mut buffer, Some(&mut profile)).is_err());
    assert_eq!(buffer.filled_len(), 0);
    let received = E2EProtectedType::from_gateway(Some(RainSensor { is_wet: true }), 1, E2EError::NoError);
    assert!(received.to_someip(&mut buffer, Some(&mut profile)).is_ok());
    assert_eq!(buffer.filled(), &[1u8, 1][..]);
}

#[test]
fn protected_read_checks_before_it_converts() {
    let mut profile = E2EShowcaseProfile::new();
    let read = E2EProtectedType::<RainSensor>::from_someip(&[0x00, 0x00], Some(&mut profile));
    let envelope = read.expect("the payload passes the check");
    assert_eq!(envelope.gateway_check(), E2EError::NoError);
    assert_eq!(envelope.raw_e2e(), 0);
    assert!(!envelope.is_locally_produced());
    match envelope.checked_with(|_| true) {
        Ok(value) => assert_eq!(*value, RainSensor { is_wet: false }),
        Err(_) => panic!("the value is there"),
    }
}

#[test]
fn protected_read_wraps_a_crc_failure_without_a_value() {
    let mut profile = E2EShowcaseProfile::new();
    let read = E2EProtectedType::<RainSensor>::from_someip(&[0x05, 0x00], Some(&mut profile));
    let envelope = read.expect("a crc failure is wrapped");
    assert_eq!(envelope.gateway_check(), E2EError::CrcError);
    assert_eq!(envelope.raw_e2e(), 5);
    assert!(matches!(envelope.checked_with(|_| true), Err(E2EErrorLocal::CrcError)));
}

#[test]
fn protected_read_fails_on_bad_data_or_without_profile() {
    let mut profile = E2EShowcaseProfile::new();
    assert!(E2EProtectedType::<RainSensor>::from_someip(&[2, 2], Some(&mut profile)).is_err());
    assert!(E2EProtectedType::<RainSensor>::from_someip(&[0, 0], None).is_err());
    let mut none = NoE2EProtection::new();
    assert!(E2EProtectedType::<WindowsPosition>::from_someip(&[1, 2, 3], Some(&mut none)).is_err());
}

#[test]
fn reading_undoes_writing_for_every_bound_type() {
    let mut showcase = E2EShowcaseProfile::new();
    for is_wet in [false, true] {
        let mut buffer = WriteBuf::new(1500);
        let sent = E2EProtectedType::from_local(RainSensor { is_wet });
        assert!(sent.to_someip(&mut buffer, Some(&mut showcase)).is_ok());
        let read = E2EProtectedType::<RainSensor>::from_someip(buffer.filled(), Some(&mut showcase));
        let envelope = read.expect("what was written is read");
        assert_eq!(envelope.gateway_check(), E2EError::NoError);
        match envelope.checked_with(|_| true) {
            Ok(value) => assert_eq!(*value, RainSensor { is_wet }),
            Err(_) => panic!("the value is there"),
        };
    }
    let mut none = NoE2EProtection::new();
    let position = WindowsPosition { fl: 10, fr: 20, rl: 30, rr: 40 };
    let mut buffer = WriteBuf::new(1500);
    assert!(E2EProtectedType::from_local(position).to_someip(&mut buffer, Some(&mut none)).is_ok());
    assert_eq!(buffer.filled(), &[10u8, 20, 30, 40][..]);
    let read = E2EProtectedType::<WindowsPosition>::from_someip(buffer.filled(), Some(&mut none));
    match read.expect("what was written is read").checked_with(|_| true) {
        Ok(value) => assert_eq!(*value, position),
        Err(_) => panic!("the value is there"),
    };
    for close in [false, true] {
        let mut buffer = WriteBuf::new(1500);
        assert!(E2EProtectedType::from_local(CloseWindows { close }).to_someip(&mut buffer, Some(&mut none)).is_ok());
        let read = E2EProtectedType::<CloseWindows>::from_someip(buffer.filled(), Some(&mut none));
        match read.expect("what was written is read").checked_with(|_| true) {
            Ok(value) => assert_eq!(*value, CloseWindows { close }),
            Err(_) => panic!("the value is there"),
        };
    }
}
