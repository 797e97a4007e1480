use srun_auto_dial::error::SrunError;
use srun_auto_dial::service::mac::{
    format_mac, generate_mac_address, generate_macvlan_name, is_managed_macvlan_name, local_unicast_mac,
    macvlan_name_for, parse_mac,
    validate_mac_bytes,
};

#[test]
fn parses_and_normalizes_valid_mac_addresses() {
    assert_eq!(
        parse_mac("02:1A:2b:3C:4d:5E").unwrap(),
        [0x02, 0x1a, 0x2b, 0x3c, 0x4d, 0x5e]
    );
    assert_eq!(
        parse_mac("02-1a-2b-3c-4d-5e").unwrap(),
        [0x02, 0x1a, 0x2b, 0x3c, 0x4d, 0x5e]
    );
}

#[test]
fn rejects_malformed_or_unusable_mac_addresses() {
    for value in [
        "2:1a:2b:3c:4d:5e",
        "01:1a:2b:3c:4d:5e",
        "00:00:00:00:00:00",
        "ff:ff:ff:ff:ff:ff",
        "02:1a-2b:3c:4d:5e",
    ] {
        assert!(parse_mac(value).is_err(), "{value} should be rejected");
    }
}

#[test]
fn generated_mac_is_local_unicast() {
    for _ in 0..32 {
        let mac = generate_mac_address();
        assert_eq!(mac[0] & 0b0000_0011, 0b0000_0010);
    }
}

#[test]
fn managed_macvlan_names_are_linux_safe_and_recognizable() {
    let name = generate_macvlan_name();
    assert_eq!(name.len(), 15);
    assert!(is_managed_macvlan_name(&name));
    assert!(!is_managed_macvlan_name("srun"));
}

#[test]
fn format_mac_writes_lowercase_colon_separated_pairs() {
    assert_eq!(format_mac(&[0x02, 0x1a, 0x2b, 0x3c, 0x4d, 0x5e]), "02:1a:2b:3c:4d:5e");
    assert_eq!(format_mac(&[0x0f, 0xa0]), "0f:a0");
    assert_eq!(format_mac(&[]), "");
}

#[test]
fn parse_of_format_gives_back_the_address() {
    for mac in [[0x02u8, 0, 0, 0, 0, 1], [0xfe, 0xdc, 0xba, 0x98, 0x76, 0x54], [0x06, 0xff, 0xff, 0xff, 0xff, 0xfe]] {
        assert_eq!(parse_mac(&format_mac(&mac)).unwrap(), mac);
    }
}

#[test]
fn parse_mac_trims_surrounding_whitespace() {
    assert_eq!(parse_mac("  02:00:00:00:00:01\n").unwrap(), [0x02, 0, 0, 0, 0, 1]);
}

#[test]
fn parse_mac_reports_each_kind_of_problem() {
    match parse_mac("02:1a:2b:3c:4d") {
        Err(SrunError::InvalidMac(m)) => assert_eq!(m, "expected 6 octets, got 5"),
        other => panic!("unexpected {other:?}"),
    }
    match parse_mac("02:1a:2b:3c:4d:zz") {
        Err(SrunError::InvalidMac(m)) => {
            assert_eq!(m, "octet 6 must contain exactly two hexadecimal digits")
        }
        other => panic!("unexpected {other:?}"),
    }
    match parse_mac("01:00:00:00:00:00") {
        Err(SrunError::InvalidMac(m)) => {
            assert_eq!(m, "multicast addresses are not usable for a network interface")
        }
        other => panic!("unexpected {other:?}"),
    }
}

#[test]
fn validate_mac_bytes_rejects_unusable_addresses() {
    assert!(validate_mac_bytes(&[0x02, 0, 0, 0, 0, 1]).is_ok());
    match validate_mac_bytes(&[0x02, 0, 0, 0, 0]) {
        Err(SrunError::InvalidMac(m)) => assert_eq!(m, "expected 6 octets, got 5"),
        other => panic!("unexpected {other:?}"),
    }
    match parse_mac("02:1a:2b-3c:4d:5e") {
        Err(SrunError::InvalidMac(m)) => assert_eq!(m, "use six two-digit octets separated by ':' or '-'"),
        other => panic!("unexpected {other:?}"),
    }
    assert!(validate_mac_bytes(&[0, 0, 0, 0, 0, 0]).is_err());
    assert!(validate_mac_bytes(&[0xff, 0xff, 0xff, 0xff, 0xff, 0xff]).is_err());
    assert!(validate_mac_bytes(&[0x03, 0, 0, 0, 0, 1]).is_err());
}

#[test]
fn generated_names_start_with_the_service_prefix() {
    for _ in 0..16 {
        let name = generate_macvlan_name();
        assert!(name.starts_with("srn"));
        assert!(name[3..].bytes().all(|b| b.is_ascii_digit() || (b'a'..=b'f').contains(&b)));
    }
    assert!(!is_managed_macvlan_name("srn00000000000g"));
    assert!(!is_managed_macvlan_name("eth0"));
    assert!(is_managed_macvlan_name("srnABCDEF012345"));
}

#[test]
fn formatting_a_parsed_mac_gives_its_canonical_text() {
    for text in ["  02-1A-2b-3C-4d-5E\t", "02:1a:2b:3c:4d:5e", "0A:BC:de:F0:12:34"] {
        let mac = parse_mac(text).unwrap();
        let canonical = text.trim().to_ascii_lowercase().replace('-', ":");
        assert_eq!(format_mac(&mac), canonical);
    }
}

#[test]
fn local_unicast_mac_sets_only_the_two_low_bits_of_the_first_byte() {
    assert_eq!(local_unicast_mac([0xff, 1, 2, 3, 4, 5]), [0xfe, 1, 2, 3, 4, 5]);
    assert_eq!(local_unicast_mac([0x00, 0xaa, 0xbb, 0xcc, 0xdd, 0xee]), [0x02, 0xaa, 0xbb, 0xcc, 0xdd, 0xee]);
    assert_eq!(local_unicast_mac([0x31, 0, 0, 0, 0, 0]), [0x32, 0, 0, 0, 0, 0]);
}

#[test]
fn macvlan_names_spell_the_low_48_bits_of_the_suffix() {
    assert_eq!(macvlan_name_for(0), "srn000000000000");
    assert_eq!(macvlan_name_for(0x0123_4567_89ab), "srn0123456789ab");
    assert_eq!(macvlan_name_for(0xffff_dead_beef_0042), "srndeadbeef0042");
    assert_ne!(macvlan_name_for(1), macvlan_name_for(2));
}
