use nas_boot::wol::{
    get_subnet_broadcast, magic_packet, parse_mac_address, plan_wake, wake_ports, wake_succeeded,
    MacError, PathOutcome, WakePath, MAGIC_PACKET_LEN, PATH_TIMEOUT_SECS,
};

#[test]
fn mac_with_colons_parses() {
    assert_eq!(
        parse_mac_address("00:08:9B:DB:EF:9A"),
        Ok([0x00, 0x08, 0x9b, 0xdb, 0xef, 0x9a])
    );
}

#[test]
fn mac_with_dashes_parses() {
    assert_eq!(
        parse_mac_address("00-08-9b-db-ef-9a"),
        Ok([0x00, 0x08, 0x9b, 0xdb, 0xef, 0x9a])
    );
}

#[test]
fn mac_without_separators_parses() {
    assert_eq!(
        parse_mac_address("aAbBcCdDeEfF"),
        Ok([0xaa, 0xbb, 0xcc, 0xdd, 0xee, 0xff])
    );
}

#[test]
fn mac_with_mixed_separators_parses() {
    assert_eq!(
        parse_mac_address("01:23-45:67-89:ab"),
        Ok([0x01, 0x23, 0x45, 0x67, 0x89, 0xab])
    );
}

#[test]
fn mac_too_short_is_invalid_length() {
    assert_eq!(parse_mac_address("00:08:9B:DB:EF"), Err(MacError::InvalidLength));
    assert_eq!(parse_mac_address(""), Err(MacError::InvalidLength));
    assert_eq!(parse_mac_address("::--"), Err(MacError::InvalidLength));
}

#[test]
fn mac_too_long_is_invalid_length() {
    assert_eq!(parse_mac_address("00:08:9B:DB:EF:9A:01"), Err(MacError::InvalidLength));
}

#[test]
fn mac_with_other_separator_is_invalid_length() {
    assert_eq!(parse_mac_address("00.08.9B.DB.EF.9A"), Err(MacError::InvalidLength));
}

#[test]
fn mac_with_non_hex_digit_is_invalid_hex() {
    assert_eq!(parse_mac_address("00:08:9B:DB:EF:9G"), Err(MacError::InvalidHex));
    assert_eq!(parse_mac_address("zz:08:9B:DB:EF:9A"), Err(MacError::InvalidHex));
    assert_eq!(parse_mac_address("00 08 9B DB "), Err(MacError::InvalidHex));
}

#[test]
fn mac_with_sign_is_invalid_hex() {
    assert_eq!(parse_mac_address("+0:08:9B:DB:EF:9A"), Err(MacError::InvalidHex));
}

#[test]
fn mac_with_non_ascii_is_refused() {
    // Six two-byte characters: twelve bytes, none of them a hexadecimal digit.
    assert_eq!(parse_mac_address("éééééé"), Err(MacError::InvalidHex));
    assert_eq!(parse_mac_address("é"), Err(MacError::InvalidLength));
}

#[test]
fn mac_error_messages() {
    assert_eq!(MacError::InvalidLength.message(), "Invalid MAC address length");
    assert_eq!(MacError::InvalidHex.message(), "Invalid hex in MAC address");
}

#[test]
fn magic_packet_layout() {
    let mac = [0x00, 0x08, 0x9b, 0xdb, 0xef, 0x9a];
    let packet = magic_packet(&mac);
    assert_eq!(packet.len(), 102);
    assert_eq!(MAGIC_PACKET_LEN, 102);
    assert_eq!(&packet[..6], &[0xff; 6]);
    for round in 0..16 {
        assert_eq!(&packet[6 + 6 * round..12 + 6 * round], &mac);
    }
}

#[test]
fn magic_packet_exact_bytes() {
    let mac = [1, 2, 3, 4, 5, 6];
    let mut expected = vec![0xffu8; 6];
    for _ in 0..16 {
        expected.extend_from_slice(&mac);
    }
    assert_eq!(magic_packet(&mac), expected);
}

#[test]
fn subnet_broadcast_for_192_168() {
    assert_eq!(get_subnet_broadcast([192, 168, 42, 2]), Some([192, 168, 42, 255]));
}

#[test]
fn subnet_broadcast_for_10() {
    assert_eq!(get_subnet_broadcast([10, 1, 2, 3]), Some([10, 1, 2, 255]));
}

#[test]
fn subnet_broadcast_for_other_ranges_is_none() {
    assert_eq!(get_subnet_broadcast([172, 16, 0, 1]), None);
    assert_eq!(get_subnet_broadcast([192, 169, 0, 1]), None);
    assert_eq!(get_subnet_broadcast([8, 8, 8, 8]), None);
    assert_eq!(get_subnet_broadcast([11, 168, 0, 1]), None);
}

#[test]
fn wake_plan_in_private_range_has_three_paths() {
    let plan = plan_wake("00:08:9B:DB:EF:9A", Some([192, 168, 42, 2])).unwrap();
    assert_eq!(plan.packet, magic_packet(&[0x00, 0x08, 0x9b, 0xdb, 0xef, 0x9a]));
    assert_eq!(plan.ports, [7, 9]);
    assert_eq!(plan.path_timeout_secs, 2);
    let routes: Vec<(WakePath, [u8; 4])> =
        plan.deliveries.iter().map(|d| (d.path, d.address)).collect();
    assert_eq!(
        routes,
        vec![
            (WakePath::GlobalBroadcast, [255, 255, 255, 255]),
            (WakePath::SubnetBroadcast, [192, 168, 42, 255]),
            (WakePath::Unicast, [192, 168, 42, 2]),
        ]
    );
}

#[test]
fn wake_plan_outside_private_range_skips_subnet() {
    let plan = plan_wake("00:08:9B:DB:EF:9A", Some([172, 16, 0, 9])).unwrap();
    let routes: Vec<(WakePath, [u8; 4])> =
        plan.deliveries.iter().map(|d| (d.path, d.address)).collect();
    assert_eq!(
        routes,
        vec![
            (WakePath::GlobalBroadcast, [255, 255, 255, 255]),
            (WakePath::Unicast, [172, 16, 0, 9]),
        ]
    );
}

#[test]
fn wake_plan_without_address_only_broadcasts() {
    let plan = plan_wake("00:08:9B:DB:EF:9A", None).unwrap();
    assert_eq!(plan.deliveries.len(), 1);
    assert_eq!(plan.deliveries[0].path, WakePath::GlobalBroadcast);
    assert_eq!(plan.deliveries[0].address, [255, 255, 255, 255]);
}

#[test]
fn wake_plan_refuses_bad_mac_before_anything_is_sent() {
    assert_eq!(
        plan_wake("not a mac", Some([192, 168, 42, 2])).err(),
        Some(MacError::InvalidLength)
    );
    assert_eq!(
        plan_wake("xx:08:9B:DB:EF:9A", Some([192, 168, 42, 2])).err(),
        Some(MacError::InvalidHex)
    );
}

#[test]
fn wake_ports_and_timeout() {
    assert_eq!(wake_ports(), [7, 9]);
    assert_eq!(PATH_TIMEOUT_SECS, 2);
}

#[test]
fn wake_succeeds_if_any_path_does() {
    assert!(wake_succeeded(&[PathOutcome::Failed, PathOutcome::TimedOut, PathOutcome::Sent]));
    assert!(wake_succeeded(&[PathOutcome::Sent]));
    assert!(!wake_succeeded(&[PathOutcome::Failed, PathOutcome::TimedOut]));
    assert!(!wake_succeeded(&[]));
}
