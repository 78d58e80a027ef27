use someip_gateway::e2e::{E2EApplicationProfile, E2ESomeUserProfile, E2ESomeUserProfile2};
use someip_gateway::profile::{e2e_byte, E2EGatewayError, E2EGatewayProfile, E2EShowcaseProfile, NoE2EProtection};

#[test]
fn no_protection_is_the_identity() {
    let mut profile = NoE2EProtection::new();
    let payload = [10u8, 20, 30, 40];
    match profile.check(&payload) {
        Ok((data, raw)) => {
            assert_eq!(data, &payload[..]);
            assert_eq!(raw, 0);
        },
        Err(_) => panic!("no protection accepts everything"),
    }
    assert!(profile.check(&[]).is_ok());
    assert_eq!(profile.calculate_e2e(&payload), None);
    assert_eq!(profile.e2e_offset(), 0);
    assert_eq!(profile.e2e_size(), 0);
    assert_eq!(profile.profile_id(), 0);
}

#[test]
fn showcase_accepts_first_byte_equal_to_second_modulo_45() {
    let mut profile = E2EShowcaseProfile::new();
    match profile.check(&[0x00, 0x00]) {
        Ok((data, raw)) => {
            assert_eq!(data, &[0x00u8][..]);
            assert_eq!(raw, 0);
        },
        Err(_) => panic!("0 is 0 modulo 45"),
    }
    match profile.check(&[44, 89, 7]) {
        Ok((data, raw)) => {
            assert_eq!(data, &[89u8, 7][..]);
            assert_eq!(raw, 44);
        },
        Err(_) => panic!("89 is 44 modulo 45"),
    }
}

#[test]
fn showcase_rejects_a_wrong_first_byte() {
    let mut profile = E2EShowcaseProfile::new();
    assert!(matches!(profile.check(&[0x05, 0x00]), Err((E2EGatewayError::CrcError, 5))));
    assert!(matches!(profile.check(&[0x2B, 0x01]), Err((E2EGatewayError::CrcError, 0x2B))));
    assert!(matches!(profile.check(&[45, 45]), Err((E2EGatewayError::CrcError, 45))));
}

#[test]
fn showcase_rejects_a_payload_that_is_too_short() {
    let mut profile = E2EShowcaseProfile::new();
    assert!(matches!(profile.check(&[7]), Err((E2EGatewayError::CrcError, 7))));
    assert!(matches!(profile.check(&[]), Err((E2EGatewayError::CrcError, 0))));
}

#[test]
fn showcase_computes_the_first_byte_modulo_45() {
    let profile = E2EShowcaseProfile::new();
    assert_eq!(profile.calculate_e2e(&[46, 9]), Some(1));
    assert_eq!(profile.calculate_e2e(&[44]), Some(44));
    assert_eq!(profile.calculate_e2e(&[255]), Some(30));
    assert_eq!(profile.calculate_e2e(&[]), None);
    assert_eq!(profile.e2e_offset(), 0);
    assert_eq!(profile.e2e_size(), 1);
    assert_eq!(profile.profile_id(), 0x0A);
}

#[test]
fn gateway_and_application_profile_ids_agree() {
    assert_eq!(NoE2EProtection::new().profile_id(), E2ESomeUserProfile {}.profile_id());
    assert_eq!(E2EShowcaseProfile::new().profile_id(), E2ESomeUserProfile2 {}.profile_id());
}

#[test]
fn integrity_bytes_are_little_endian() {
    assert_eq!(e2e_byte(0x1234_5678, 0), 0x78);
    assert_eq!(e2e_byte(0x1234_5678, 1), 0x56);
    assert_eq!(e2e_byte(0x1234_5678, 2), 0x34);
    assert_eq!(e2e_byte(0x1234_5678, 3), 0x12);
    assert_eq!(e2e_byte(0x1234_5678, 4), 0);
}
