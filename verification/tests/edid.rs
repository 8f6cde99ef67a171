use linux_cec::address::PhysicalAddress;
use linux_cec::device::ConnectorInfo;
use linux_cec::drm::{CardEntry, ConnectorSearch, DrmConnector, ENOENT};
use linux_cec::error::Error;

// An EDID whose extension, of some length and at some place, is zero but for a few bytes.
fn edid(before: usize, len: usize, bytes: &[(usize, &[u8])]) -> Vec<u8> {
    let mut edid = vec![0u8; before + len];
    for (offset, run) in bytes {
        let start = before + offset;
        edid[start..start + run.len()].copy_from_slice(run);
    }
    edid
}

#[test]
fn test_parse_edid_missing() {
    let edid = edid(0x80, 0x80, &[(0x00, &[0x02, 0x03][..])]);
    assert_eq!(DrmConnector::parse_hdmi_edid_pa(&edid), None);
}

#[test]
fn test_parse_edid_missing_header() {
    let edid = edid(0x80, 0x80, &[(0x04, &[0x65, 0x03, 0x0c, 0x00, 0x12, 0x34][..])]);
    assert_eq!(DrmConnector::parse_hdmi_edid_pa(&edid), None);
}

#[test]
fn test_parse_edid_early() {
    let edid = edid(0x80, 0x80, &[(0x00, &[0x02, 0x03][..]), (0x04, &[0x65, 0x03, 0x0c, 0x00, 0x12, 0x34][..])]);
    assert_eq!(DrmConnector::parse_hdmi_edid_pa(&edid), Some(PhysicalAddress::from(0x1234)));
}

#[test]
fn test_parse_edid_extra_block() {
    let edid = edid(0x100, 0x80, &[(0x00, &[0x02, 0x03][..]), (0x04, &[0x65, 0x03, 0x0c, 0x00, 0x12, 0x34][..])]);
    assert_eq!(DrmConnector::parse_hdmi_edid_pa(&edid), Some(PhysicalAddress::from(0x1234)));
}

#[test]
fn test_parse_edid_island() {
    let edid = edid(0x80, 0x80, &[(0x00, &[0x02, 0x03][..]), (0x08, &[0x65, 0x03, 0x0c, 0x00, 0x12, 0x34][..])]);
    assert_eq!(DrmConnector::parse_hdmi_edid_pa(&edid), Some(PhysicalAddress::from(0x1234)));
}

#[test]
fn test_parse_edid_skipped() {
    let edid = edid(0x80, 0x80, &[(0x00, &[0x02, 0x03][..]), (0x04, &[0x6b][..]), (0x08, &[0x65, 0x03, 0x0c, 0x00, 0x12, 0x34][..])]);
    assert_eq!(DrmConnector::parse_hdmi_edid_pa(&edid), None);
}

#[test]
fn test_parse_edid_cutoff_0() {
    let edid = edid(0x80, 0x80, &[(0x00, &[0x02, 0x03, 0x04, 0x00, 0x65, 0x03, 0x0c, 0x00, 0x12, 0x34][..])]);
    assert_eq!(DrmConnector::parse_hdmi_edid_pa(&edid), None);
}

#[test]
fn test_parse_edid_cutoff_1() {
    let edid = edid(0x80, 0x80, &[(0x00, &[0x02, 0x03, 0x05, 0x00, 0x65, 0x03, 0x0c, 0x00, 0x12, 0x34][..])]);
    assert_eq!(DrmConnector::parse_hdmi_edid_pa(&edid), None);
}

#[test]
fn test_parse_edid_cutoff_2() {
    let edid = edid(0x80, 0x80, &[(0x00, &[0x02, 0x03, 0x06, 0x00, 0x65, 0x03, 0x0c, 0x00, 0x12, 0x34][..])]);
    assert_eq!(DrmConnector::parse_hdmi_edid_pa(&edid), None);
}

#[test]
fn test_parse_edid_cutoff_3() {
    let edid = edid(0x80, 0x80, &[(0x00, &[0x02, 0x03, 0x07, 0x00, 0x65, 0x03, 0x0c, 0x00, 0x12, 0x34][..])]);
    assert_eq!(DrmConnector::parse_hdmi_edid_pa(&edid), None);
}

#[test]
fn test_parse_edid_cutoff_4() {
    let edid = edid(0x80, 0x80, &[(0x00, &[0x02, 0x03, 0x08, 0x00, 0x65, 0x03, 0x0c, 0x00, 0x12, 0x34][..])]);
    assert_eq!(DrmConnector::parse_hdmi_edid_pa(&edid), None);
}

#[test]
fn test_parse_edid_cutoff_5() {
    let edid = edid(0x80, 0x80, &[(0x00, &[0x02, 0x03, 0x09, 0x00, 0x65, 0x03, 0x0c, 0x00, 0x12, 0x34][..])]);
    assert_eq!(DrmConnector::parse_hdmi_edid_pa(&edid), None);
}

#[test]
fn test_parse_edid_cutoff_6() {
    let edid = edid(0x80, 0x80, &[(0x00, &[0x02, 0x03, 0x0a, 0x00, 0x65, 0x03, 0x0c, 0x00, 0x12, 0x34][..])]);
    assert_eq!(DrmConnector::parse_hdmi_edid_pa(&edid), Some(PhysicalAddress::from(0x1234)));
}

#[test]
fn test_parse_edid_cutoff_7() {
    let edid = edid(0x80, 0x80, &[(0x00, &[0x02, 0x03, 0x0b, 0x00, 0x65, 0x03, 0x0c, 0x00, 0x12, 0x34][..])]);
    assert_eq!(DrmConnector::parse_hdmi_edid_pa(&edid), Some(PhysicalAddress::from(0x1234)));
}

#[test]
fn test_parse_edid_cutoff_end() {
    let edid = edid(0x80, 0x80, &[(0x00, &[0x02, 0x03, 0x7f][..]), (0x7a, &[0x65, 0x03, 0x0c, 0x00, 0x12, 0x34][..])]);
    assert_eq!(DrmConnector::parse_hdmi_edid_pa(&edid), None);
}

#[test]
fn test_parse_edid_cutoff_invalid_len() {
    let edid = edid(0x80, 0x80, &[(0x00, &[0x02, 0x03, 0x80][..]), (0x7a, &[0x65, 0x03, 0x0c, 0x00, 0x12, 0x34][..])]);
    assert_eq!(DrmConnector::parse_hdmi_edid_pa(&edid), None);
}

// An EDID with one extension, whose first data block holds an address.
fn edid_with(address: u16) -> Vec<u8> {
    let mut edid = vec![0u8; 0x100];
    edid[0x80] = 0x02;
    edid[0x81] = 0x03;
    edid[0x84..0x8a].copy_from_slice(&[0x65, 0x03, 0x0c, 0x00, (address >> 8) as u8, address as u8]);
    edid
}

fn failure(text: &str) -> Error {
    Error::UnknownError(String::from(text))
}

#[test]
fn test_drm_connector_from_drm_path_invalid_base() {
    assert_eq!(
        DrmConnector::from_drm_path("data/../data/test/card1-DP-1", None, None),
        Err(failure("Not a DRM path"))
    );
    assert_eq!(
        DrmConnector::from_drm_path("/sys/class/drmx/card1-DP-1", None, None),
        Err(failure("Not a DRM path"))
    );
}

#[test]
fn test_drm_connector_from_drm_path_no_hyphen() {
    assert_eq!(
        DrmConnector::from_drm_path("/sys/class/drm/card1", None, None),
        Err(failure("Invalid path"))
    );
}

#[test]
fn test_drm_connector_from_drm_path_disconnected() {
    let edid = edid_with(0x1234);
    assert_eq!(
        DrmConnector::from_drm_path("/sys/class/drm/card1-DP-1", Some("disconnected\n"), Some(&edid)),
        Ok(None)
    );
}

#[test]
fn test_drm_connector_from_drm_path_no_edid() {
    assert_eq!(
        DrmConnector::from_drm_path("/sys/class/drm/card1-DP-2", Some("connected\n"), None),
        Ok(None)
    );
    assert_eq!(
        DrmConnector::from_drm_path("/sys/class/drm/card1-DP-2", None, None),
        Ok(None)
    );
}

#[test]
fn test_drm_connector_from_drm_path_no_phys_addr() {
    let edid = vec![0u8; 0x80];
    assert_eq!(
        DrmConnector::from_drm_path("/sys/class/drm/card1-HDMI-A-1", Some("connected\n"), Some(&edid)),
        Ok(None)
    );
}

#[test]
fn test_drm_connector_from_drm_path_invalid_phys_addr() {
    for address in [0xFFFF, 0x0000] {
        let edid = edid_with(address);
        assert_eq!(
            DrmConnector::from_drm_path(
                "/sys/class/drm/card1-HDMI-A-2",
                Some("connected\n"),
                Some(&edid)
            ),
            Ok(None)
        );
    }
}

#[test]
fn test_drm_connector_from_drm_path_valid_phys_addr() {
    let edid = edid_with(0x1234);
    for path in ["/sys/class/drm/card1-HDMI-B-1", "/sys//class/./drm/card1-HDMI-B-1/"] {
        assert_eq!(
            DrmConnector::from_drm_path(path, Some("connected\n"), Some(&edid)),
            Ok(Some(DrmConnector {
                card: 1,
                connector: String::from("HDMI-B-1"),
                physical_address: PhysicalAddress::from(0x1234),
            }))
        );
    }
}

#[test]
fn test_drm_connector_from_drm_path_invalid_format() {
    assert_eq!(
        DrmConnector::from_drm_path("/sys/class/drm/cardZ-DP-1", None, None),
        Err(failure("Invalid card number"))
    );
}

fn entry(name: &str, connector_id: Option<&str>) -> Result<CardEntry, Error> {
    Ok(CardEntry {
        name: String::from(name),
        is_text: true,
        connector_id: Ok(connector_id.map(String::from)),
    })
}

// What is below the directory of a card with one connector.
fn card1() -> Vec<Result<CardEntry, Error>> {
    vec![entry("device", Some("2\n")), entry("card1-DP-1", Some("2\n")), entry("uevent", None)]
}

fn card1_dp1(address: u16) -> DrmConnector {
    DrmConnector {
        card: 1,
        connector: String::from("DP-1"),
        physical_address: PhysicalAddress::from(address),
    }
}

#[test]
fn test_connector_info_to_drm_connector_none() {
    assert_eq!(
        DrmConnector::from_connector_info(
            &ConnectorInfo::NoConnector,
            PhysicalAddress::from(0x1000),
            card1()
        ),
        Err(failure("Not a DRM connector"))
    );
}

#[test]
fn test_connector_info_to_drm_connector_unknown() {
    assert_eq!(
        DrmConnector::from_connector_info(
            &ConnectorInfo::Unknown { ty: 2, data: [0; 16] },
            PhysicalAddress::from(0x1000),
            card1()
        ),
        Err(failure("Not a DRM connector"))
    );
}

#[test]
fn test_connector_info_to_drm_card_missing() {
    assert_eq!(
        DrmConnector::from_connector_info(
            &ConnectorInfo::DrmConnector { card_no: 0, connector_id: 0 },
            PhysicalAddress::from(0x1000),
            vec![Err(Error::SystemError(ENOENT))]
        ),
        Err(Error::SystemError(ENOENT))
    );
}

#[test]
fn test_connector_info_to_drm_connector_missing() {
    let info = ConnectorInfo::DrmConnector { card_no: 1, connector_id: 0 };
    assert_eq!(
        DrmConnector::from_connector_info(&info, PhysicalAddress::from(0x1000), card1()),
        Err(Error::SystemError(ENOENT))
    );
}

#[test]
fn test_connector_info_to_drm_connector_present() {
    assert_eq!(
        DrmConnector::from_connector_info(
            &ConnectorInfo::DrmConnector { card_no: 1, connector_id: 2 },
            PhysicalAddress::from(0x1000),
            card1()
        ),
        Ok(card1_dp1(0x1000))
    );
}

#[test]
fn what_is_found_describes_itself() {
    assert!(DrmConnector::is_connector_name(1, "card1-DP-1"));
    assert!(!DrmConnector::is_connector_name(1, "card11-DP-1"));
    let info = ConnectorInfo::DrmConnector { card_no: 1, connector_id: 7 };
    let found = |dir| DrmConnector::from_connector_info(&info, PhysicalAddress(0x1200), dir);
    let connector = found(vec![
        entry("card11-DP-1", Some("7\n")),
        entry("card1-DP-1", Some("x")),
        entry("card1-DP-2", None),
        entry("card1-HDMI-A-1", Some(" 7\n")),
        entry("card1-DP-3", Some("7\n")),
        Err(Error::SystemError(5)),
    ])
    .unwrap();
    assert_eq!(connector.connector, "HDMI-A-1");
    assert_eq!(connector.drm_path(), "/sys/class/drm/card1-HDMI-A-1");
    assert_eq!(connector.to_connector_info(" 7\n").unwrap(), info);
    // What cannot be read ends the search.
    let unreadable = || {
        Ok(CardEntry {
            name: String::from("card1-DP-1"),
            is_text: true,
            connector_id: Err(Error::SystemError(13)),
        })
    };
    let dir = vec![unreadable(), entry("card1-DP-2", Some("7\n"))];
    assert_eq!(found(dir), Err(Error::SystemError(13)));
    let dir = vec![entry("card1-DP-2", Some("7\n")), unreadable()];
    assert_eq!(found(dir).unwrap().connector, "DP-2");
    let odd = Ok(CardEntry {
        name: String::from("card1-DP-\u{fffd}"),
        is_text: false,
        connector_id: Ok(Some(String::from("7"))),
    });
    assert_eq!(found(vec![odd]), Err(failure("Invalid path")));
}

#[test]
fn test_drm_connector_to_connector_info_present() {
    let connector = DrmConnector {
        card: 1,
        connector: String::from("DP-1"),
        physical_address: PhysicalAddress::default(),
    };
    assert_eq!(connector.drm_path(), "/sys/class/drm/card1-DP-1");
    assert_eq!(
        connector.to_connector_info("2\n"),
        Ok(ConnectorInfo::DrmConnector { card_no: 1, connector_id: 2 })
    );
    assert_eq!(connector.to_connector_info("two"), Err(failure("Invalid connector id")));
}

#[test]
fn an_address_is_reloaded() {
    let mut connector = DrmConnector {
        card: 1,
        connector: String::from("DP-1"),
        physical_address: PhysicalAddress::from(0x1000),
    };
    assert_eq!(connector.reload_physical_address(&edid_with(0x2100)), Ok(()));
    assert_eq!(connector.physical_address, PhysicalAddress::from(0x2100));
    assert_eq!(
        connector.reload_physical_address(&[0; 0x80]),
        Err(failure("Failed to parse EDID"))
    );
    assert_eq!(connector.physical_address, PhysicalAddress::from(0x2100));
}

#[test]
fn only_one_connector_is_found() {
    let connector = |n: u32| DrmConnector {
        card: n,
        connector: String::from("DP-1"),
        physical_address: PhysicalAddress::from(0x1000),
    };
    assert_eq!(ConnectorSearch::new().finish(), None);
    let mut search = ConnectorSearch::new();
    search.add_found(connector(0));
    assert_eq!(search.finish(), Some(connector(0)));
    let mut search = ConnectorSearch::new();
    search.add_found(connector(0));
    search.add_found(connector(1));
    assert_eq!(search.finish(), None);
    assert!(DrmConnector::is_any_connector_name("card0-DP-1"));
    assert!(!DrmConnector::is_any_connector_name("card0"));
    assert!(!DrmConnector::is_any_connector_name("renderD128-x"));
}
