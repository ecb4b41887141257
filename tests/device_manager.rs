use camfc::link::{get_id_command, get_totp_command, set_time_command, LinkError};
use camfc::manager::{ConnectionStatus, CpenDeviceManager, EnsureStep, RetryVerdict, MAX_COMMAND_RETRIES};
use camfc::peer::{filter_cpen_devices, is_pen, BluetoothDevice, DeviceInfo};

fn peer(name: &str, address: &str) -> DeviceInfo {
    DeviceInfo { name: name.to_string(), address: address.to_string(), services: vec![] }
}

fn connected_manager() -> CpenDeviceManager {
    let mut m = CpenDeviceManager::new();
    assert!(matches!(m.ensure_connected_start(), EnsureStep::EnableRadio));
    assert!(matches!(m.radio_checked(Ok(())), EnsureStep::Scan));
    let step = m.scanned(Ok(vec![peer("Mouse", "AA"), peer("CPEN-1", "BB"), peer("cpen2", "CC")]));
    let device = match step {
        EnsureStep::Connect(d) => d,
        other => panic!("unexpected step {:?}", other),
    };
    assert_eq!(device.address, "BB");
    assert!(matches!(m.connect_finished(device, Ok(())), EnsureStep::Finished(Ok(()))));
    m
}

#[test]
fn ensure_connected_picks_first_pen() {
    let m = connected_manager();
    assert_eq!(m.status, ConnectionStatus::Connected);
    assert_eq!(m.connected_address, Some("BB".to_string()));
    assert_eq!(m.get_connection_status(), "已连接到设备: CPEN-1 (BB)");
    assert_eq!(m.get_current_device_info(), Some("CPEN-1 - BB".to_string()));
}

#[test]
fn radio_probe_is_fallback() {
    let mut m = CpenDeviceManager::new();
    let step = m.radio_checked(Err("no radio api".to_string()));
    let native = match step {
        EnsureStep::ProbeStack { radio_error } => radio_error,
        other => panic!("unexpected step {:?}", other),
    };
    assert!(matches!(m.stack_probed(native.clone(), Ok(())), EnsureStep::Scan));
    assert_eq!(m.status, ConnectionStatus::Connecting);

    let mut m = CpenDeviceManager::new();
    match m.stack_probed(native, Err("stack down".to_string())) {
        EnsureStep::Finished(Err(LinkError::RadioUnavailable { native, probe })) => {
            assert_eq!(native, "no radio api");
            assert_eq!(probe, "stack down");
        }
        other => panic!("unexpected step {:?}", other),
    }
    assert_eq!(m.status, ConnectionStatus::Disconnected);
}

#[test]
fn scan_without_pen_reports_no_device() {
    let mut m = CpenDeviceManager::new();
    assert!(matches!(m.radio_checked(Ok(())), EnsureStep::Scan));
    let step = m.scanned(Ok(vec![peer("Mouse", "AA"), peer("Cpe", "BB")]));
    assert!(matches!(step, EnsureStep::Finished(Err(LinkError::NoDeviceFound))));
    assert_eq!(m.status, ConnectionStatus::Disconnected);
    assert_eq!(m.get_connection_status(), "未连接设备");
}

#[test]
fn scan_and_connect_failures_are_reported() {
    let mut m = CpenDeviceManager::new();
    m.radio_checked(Ok(()));
    assert!(matches!(m.scanned(Err("adapter gone".to_string())), EnsureStep::Finished(Err(LinkError::DiscoveryFailed(_)))));
    let mut m = CpenDeviceManager::new();
    m.radio_checked(Ok(()));
    let d = match m.scanned(Ok(vec![peer("cpen", "AA")])) {
        EnsureStep::Connect(d) => d,
        other => panic!("unexpected step {:?}", other),
    };
    assert!(matches!(m.connect_finished(d, Err("timeout".to_string())), EnsureStep::Finished(Err(LinkError::ConnectFailed(_)))));
    assert_eq!(m.connected_address, None);
    assert_eq!(m.status, ConnectionStatus::Disconnected);
}

#[test]
fn live_link_is_reused() {
    let mut m = connected_manager();
    assert!(matches!(m.radio_checked(Ok(())), EnsureStep::CheckAlive { radio_checked: true }));
    assert!(matches!(m.liveness_checked(true, Ok(true)), EnsureStep::Finished(Ok(()))));
    assert_eq!(m.connected_address, Some("BB".to_string()));
}

#[test]
fn dead_link_is_cleared_before_rescan() {
    let mut m = connected_manager();
    assert!(matches!(m.liveness_checked(true, Ok(false)), EnsureStep::Scan));
    assert_eq!(m.connected_address, None);
    let mut m = connected_manager();
    assert!(matches!(m.refresh_start(), EnsureStep::CheckAlive { radio_checked: false }));
    assert!(matches!(m.liveness_checked(false, Err("gatt error".to_string())), EnsureStep::EnableRadio));
    assert_eq!(m.connected_address, None);
    assert_eq!(m.status, ConnectionStatus::Disconnected);
}

#[test]
fn second_link_is_never_recorded() {
    let mut m = connected_manager();
    let step = m.connect_finished(peer("Cpen-9", "ZZ"), Ok(()));
    assert!(matches!(step, EnsureStep::Finished(Err(LinkError::ProtocolError(_)))));
    assert_eq!(m.connected_address, Some("BB".to_string()));
    let step = m.scanned(Ok(vec![peer("Cpen-9", "ZZ")]));
    assert!(matches!(step, EnsureStep::Finished(Err(LinkError::ProtocolError(_)))));
    assert_eq!(m.connected_address, Some("BB".to_string()));
}

#[test]
fn disconnect_clears_identity_state() {
    let mut m = connected_manager();
    m.totp_received(b"654321".to_vec(), 100).unwrap();
    m.id_received(b"pen-7".to_vec()).unwrap();
    assert_eq!(m.cached_totp(101), Some("654321".to_string()));
    assert!(m.disconnect());
    assert_eq!(m.get_connection_status(), "未连接设备");
    assert_eq!(m.cached_totp(101), None);
    assert_eq!(m.cached_device_id(), None);
    assert!(matches!(m.refresh_start(), EnsureStep::EnableRadio));
    assert!(!m.disconnect());
}

#[test]
fn reconnect_retry_returns_second_attempt_once() {
    let mut m = connected_manager();
    let now = 5000;
    assert_eq!(m.cached_totp(now), None);
    // attempt 1 of "getTotp" loses the link
    let verdict = m.exchange_failed(LinkError::ConnectionDropped("link lost".to_string()), 0, MAX_COMMAND_RETRIES);
    assert!(matches!(verdict, RetryVerdict::Reconnect));
    assert_eq!(m.connected_address, None);
    assert!(m.credentials.totp.is_none());
    // reconnect
    assert!(matches!(m.ensure_connected_start(), EnsureStep::EnableRadio));
    assert!(matches!(m.radio_checked(Ok(())), EnsureStep::Scan));
    let d = match m.scanned(Ok(vec![peer("Cpen", "BB")])) {
        EnsureStep::Connect(d) => d,
        other => panic!("unexpected step {:?}", other),
    };
    assert!(matches!(m.connect_finished(d, Ok(())), EnsureStep::Finished(Ok(()))));
    // attempt 2 succeeds
    assert_eq!(m.totp_received(b"909090".to_vec(), now).unwrap(), "909090");
    let cached = m.credentials.totp.clone().unwrap();
    assert_eq!(cached.value, "909090");
    assert_eq!(cached.captured_at, now);
    assert_eq!(m.cached_totp(now + 1), Some("909090".to_string()));
}

#[test]
fn retry_budget_and_error_kinds() {
    let mut m = connected_manager();
    let v = m.exchange_failed(LinkError::ConnectionDropped("x".to_string()), 2, 2);
    assert!(matches!(v, RetryVerdict::GiveUp(LinkError::ConnectionDropped(_))));
    assert_eq!(m.connected_address, Some("BB".to_string()));
    let v = m.exchange_failed(LinkError::ProtocolTimeout("read".to_string()), 0, 2);
    assert!(matches!(v, RetryVerdict::GiveUp(LinkError::ProtocolTimeout(_))));
    assert!(m.has_link());
}

#[test]
fn malformed_answer_is_an_encoding_error() {
    let mut m = connected_manager();
    let r = m.totp_received(vec![0xff, 0xfe, 0x41], 10);
    assert!(matches!(r, Err(LinkError::EncodingError)));
    assert!(m.credentials.totp.is_none());
    let r = m.id_received(vec![0xc3]);
    assert!(matches!(r, Err(LinkError::EncodingError)));
    assert_eq!(m.cached_device_id(), None);
    assert_eq!(m.id_received("笔-1".as_bytes().to_vec()).unwrap(), "笔-1");
}

#[test]
fn is_connected_follows_liveness() {
    let mut m = CpenDeviceManager::new();
    assert!(matches!(m.is_connected(Ok(true)), Ok(false)));
    let mut m = connected_manager();
    assert!(matches!(m.is_connected(Ok(true)), Ok(true)));
    assert!(matches!(m.is_connected(Err("busy".to_string())), Err(LinkError::ProtocolError(_))));
    assert!(m.has_link());
    assert!(matches!(m.is_connected(Ok(false)), Ok(false)));
    assert!(!m.has_link());
    assert_eq!(m.status, ConnectionStatus::Disconnected);
}

#[test]
fn pen_names_match_case_insensitively() {
    assert!(is_pen("Cpen"));
    assert!(is_pen("cPeN-42"));
    assert!(is_pen("CPEN笔"));
    assert!(!is_pen("Cpe"));
    assert!(!is_pen("xcpen"));
    assert!(!is_pen("笔cpen"));
    let found = filter_cpen_devices(&vec![peer("cpenA", "1"), peer("mouse", "2"), peer("CPENB", "3")]);
    let addresses: Vec<&str> = found.iter().map(|d| d.address.as_str()).collect();
    assert_eq!(addresses, vec!["1", "3"]);
}

#[test]
fn commands_are_plain_text() {
    assert_eq!(get_totp_command(), "getTotp");
    assert_eq!(get_id_command(), "getId");
    assert_eq!(set_time_command(1_700_000_000), "setTime:1700000000");
    assert_eq!(set_time_command(0), "setTime:0");
}

#[test]
fn listed_peer_helpers() {
    let d = BluetoothDevice::new("Cpen-2".to_string(), "AA:BB".to_string());
    assert!(!d.is_connected);
    assert!(d.starts_with("Cpen"));
    assert!(!d.starts_with("cpen"));
    assert!(d.starts_with(""));
    assert!(!d.starts_with("Cpen-2x"));
    assert_eq!(d.display_info(), "Cpen-2 - AA:BB");
}
