use runtime_ble::config::{
    Build, Family, RuntimeBleCharDef, RuntimeBleConfig, RuntimeBleServiceDef,
    RUNTIME_BLE_ABI_VERSION,
};
use runtime_ble::controller::{publish_load, BringUp};
use runtime_ble::runtime::{
    bond_admin_cmd, runtime_ble_bond_delete, runtime_ble_bond_delete_all,
    runtime_ble_bond_enumerate, runtime_ble_char_index, runtime_ble_indicate, runtime_ble_init,
    runtime_ble_load_status, runtime_ble_notify, runtime_ble_passkey_confirm,
    runtime_ble_passkey_input, runtime_ble_read_att_mtu, runtime_ble_read_phy,
    runtime_ble_read_rssi, runtime_ble_read_security, runtime_ble_request_connection_rate,
    runtime_ble_request_security, runtime_ble_run, runtime_ble_send, runtime_ble_set_io_capability,
    runtime_ble_set_phy, runtime_ble_signal_unload, runtime_ble_update_conn_params,
    runtime_ble_update_data_length, runtime_ble_update_frame_space, valid_io_capability, BondCmd,
    LinkCmd, Runtime, TxKind, TxTarget, RUNTIME_BLE_ERR_ABI, RUNTIME_BLE_ERR_INVALID,
    RUNTIME_BLE_ERR_MPSL, RUNTIME_BLE_ERR_NO_MEM, RUNTIME_BLE_ERR_SDC, RUNTIME_BLE_LOAD_PENDING,
    RUNTIME_BLE_OK, SEND_BUF_CAP,
};

fn full_build() -> Build {
    Build { family: Family::Nrf54l, central: true, l2cap: true, lean: false }
}

fn runtime() -> Runtime {
    Runtime::new(full_build())
}

fn config() -> RuntimeBleConfig {
    RuntimeBleConfig { abi_version: RUNTIME_BLE_ABI_VERSION, ..Default::default() }
}

#[test]
fn test_init_null_is_rejected() {
    let mut rt = runtime();
    assert_eq!(runtime_ble_init(&mut rt, None), RUNTIME_BLE_ERR_INVALID);
    assert!(rt.config.is_none());
}

#[test]
fn a_new_state_is_empty() {
    let rt = runtime();
    assert_eq!(rt.load_status, RUNTIME_BLE_LOAD_PENDING);
    assert!(!rt.unload && !rt.send.pending && !rt.l2cap.pending && !rt.l2cap.disconnect);
    assert_eq!((rt.send.target, rt.send.kind), (TxTarget::Nus, TxKind::Auto));
    assert!(rt.send.data.is_empty() && rt.l2cap.data.is_empty());
    assert!(rt.central.uuid.is_empty() && rt.central.data.is_empty());
    assert_eq!((rt.link.cmd, rt.bond.cmd, rt.central.cmd), (None, None, None));
    assert_eq!((rt.bond.index, rt.bond.io_capability), (0, 0));
    assert_eq!((rt.central.handle, rt.central.addr, rt.central.addr_kind), (0, [0; 6], 0));
    assert!(!rt.scan.active && !rt.scan.filter_duplicates && !rt.scan.filter_addr_enabled);
    assert_eq!((rt.scan.interval_ms, rt.scan.window_ms, rt.scan.timeout_ms), (0, 0, 0));
    assert_eq!((rt.scan.filter_addr, rt.scan.filter_addr_kind), ([0; 6], 0));
}

#[test]
fn init_checks_the_layout_version_first() {
    let mut rt = runtime();
    let mut cfg = config();
    cfg.abi_version = 2;
    cfg.adv.filter_policy = 9;
    assert_eq!(runtime_ble_init(&mut rt, Some(cfg)), RUNTIME_BLE_ERR_ABI);
    assert!(rt.config.is_none());
}

#[test]
fn init_rejects_values_out_of_range() {
    let bad: Vec<fn(&mut RuntimeBleConfig)> = vec![
        |c| c.l2cap.credit_policy = 2,
        |c| c.l2cap.mtu = 22,
        |c| c.l2cap.mps = 22,
        |c| c.adv.filter_policy = 4,
        |c| c.adv.filter_policy = 1,
        |c| c.adv.extended = 2,
        |c| c.adv.primary_phy = 4,
        |c| c.adv.secondary_phy = 4,
        |c| c.adv.periodic = 2,
        |c| c.adv.periodic = 1,
        |c| {
            c.adv.periodic = 1;
            c.adv.extended = 1;
        },
    ];
    for change in bad {
        let mut rt = runtime();
        let mut cfg = config();
        change(&mut cfg);
        assert_eq!(runtime_ble_init(&mut rt, Some(cfg)), RUNTIME_BLE_ERR_INVALID);
        assert!(rt.config.is_none());
    }
}

#[test]
fn init_accepts_the_edges_of_the_ranges() {
    let mut cfg = config();
    cfg.l2cap.credit_policy = 1;
    cfg.l2cap.mtu = 23;
    cfg.l2cap.mps = 23;
    cfg.adv.filter_policy = 3;
    cfg.adv.accept_address = Some([1, 2, 3, 4, 5, 6]);
    cfg.adv.extended = 1;
    cfg.adv.nonconnectable = 1;
    cfg.adv.periodic = 1;
    cfg.adv.primary_phy = 3;
    cfg.adv.secondary_phy = 3;
    let mut rt = runtime();
    assert_eq!(runtime_ble_init(&mut rt, Some(cfg)), RUNTIME_BLE_OK);
    let got = rt.config.as_ref().unwrap();
    assert_eq!(got.l2cap_mtu, 23);
    assert_eq!(got.adv_filter_policy, 3);
    assert_eq!(got.adv_accept_address, Some([1, 2, 3, 4, 5, 6]));
    assert_eq!(got.periodic_adv, 1);
}

#[test]
fn a_refused_init_keeps_the_captured_configuration() {
    let mut rt = runtime();
    let mut cfg = config();
    cfg.device_name = Some(b"first".to_vec());
    cfg.central.conn_timeout_ms = 4000;
    assert_eq!(runtime_ble_init(&mut rt, Some(cfg)), RUNTIME_BLE_OK);
    let mut worse = config();
    worse.l2cap.mtu = 1;
    assert_eq!(runtime_ble_init(&mut rt, Some(worse)), RUNTIME_BLE_ERR_INVALID);
    let kept = rt.config.as_ref().unwrap();
    assert_eq!(kept.device_name, Some(b"first".to_vec()));
    assert_eq!(kept.central_conn_timeout_ms, 4000);
}

#[test]
fn test_send_argument_validation() {
    let mut rt = runtime();
    assert_eq!(runtime_ble_send(&mut rt, None), RUNTIME_BLE_ERR_INVALID);
    assert_eq!(runtime_ble_send(&mut rt, Some(&[])), RUNTIME_BLE_ERR_INVALID);
    let big = vec![0u8; SEND_BUF_CAP + 1];
    assert_eq!(runtime_ble_send(&mut rt, Some(&big)), RUNTIME_BLE_ERR_INVALID);
    assert!(!rt.send.pending);
    let full = vec![7u8; SEND_BUF_CAP];
    assert_eq!(runtime_ble_send(&mut rt, Some(&full)), RUNTIME_BLE_OK);
    assert_eq!(rt.send.data.len(), 512);
}

#[test]
fn test_send_before_load_queues_then_full() {
    let mut rt = runtime();
    assert_eq!(runtime_ble_send(&mut rt, Some(&[1, 2])), RUNTIME_BLE_OK);
    assert_eq!(runtime_ble_send(&mut rt, Some(&[3])), RUNTIME_BLE_ERR_NO_MEM);
    assert_eq!(runtime_ble_notify(&mut rt, 4, Some(&[3])), RUNTIME_BLE_ERR_NO_MEM);
    assert_eq!(rt.send.data, vec![1, 2]);
    assert_eq!(rt.send.target, TxTarget::Nus);
    assert_eq!(rt.send.kind, TxKind::Auto);
}

#[test]
fn indicate_queues_an_indication() {
    let mut rt = runtime();
    assert_eq!(runtime_ble_indicate(&mut rt, 3, Some(&[9])), RUNTIME_BLE_OK);
    assert_eq!(rt.send.target, TxTarget::Chr(3));
    assert_eq!(rt.send.kind, TxKind::Indicate);
}

#[test]
fn a_session_starts_clean() {
    let mut rt = runtime();
    assert_eq!(runtime_ble_load_status(&rt), RUNTIME_BLE_LOAD_PENDING);
    assert!(!runtime_ble_run(&mut rt, 0));
    assert_eq!(runtime_ble_init(&mut rt, Some(config())), RUNTIME_BLE_OK);
    assert_eq!(runtime_ble_send(&mut rt, Some(&[1])), RUNTIME_BLE_OK);
    assert_eq!(runtime_ble_read_rssi(&mut rt), RUNTIME_BLE_OK);
    runtime_ble_signal_unload(&mut rt);
    publish_load(&mut rt, BringUp::Loaded);
    assert!(rt.unload);
    assert!(runtime_ble_run(&mut rt, 0));
    assert!(!rt.unload);
    assert!(!rt.send.pending);
    assert_eq!(rt.link.cmd, Some(LinkCmd::ReadRssi));
    assert_eq!(runtime_ble_load_status(&rt), RUNTIME_BLE_LOAD_PENDING);
}

#[test]
fn load_results_are_published() {
    let mut rt = runtime();
    publish_load(&mut rt, BringUp::Loaded);
    assert_eq!(runtime_ble_load_status(&rt), RUNTIME_BLE_OK);
    publish_load(&mut rt, BringUp::MpslFailed);
    assert_eq!(runtime_ble_load_status(&rt), RUNTIME_BLE_ERR_MPSL);
    publish_load(&mut rt, BringUp::SdcFailed);
    assert_eq!(runtime_ble_load_status(&rt), RUNTIME_BLE_ERR_SDC);
}

fn chr(uuid: Option<Vec<u8>>) -> RuntimeBleCharDef {
    RuntimeBleCharDef { uuid, ..Default::default() }
}

#[test]
fn char_index_is_the_first_place_in_declaration_order() {
    let mut rt = runtime();
    assert_eq!(runtime_ble_char_index(&rt, Some(&[1, 0])), RUNTIME_BLE_ERR_INVALID);
    let long: Vec<u8> = (0u8..16).collect();
    let mut cfg = config();
    cfg.services = Some(vec![
        RuntimeBleServiceDef {
            uuid: None,
            chars: Some(vec![chr(None), chr(Some(vec![1, 0]))]),
        },
        RuntimeBleServiceDef { uuid: None, chars: None },
        RuntimeBleServiceDef {
            uuid: None,
            chars: Some(vec![chr(Some(long.clone())), chr(Some(vec![1, 0]))]),
        },
    ]);
    assert_eq!(runtime_ble_init(&mut rt, Some(cfg)), RUNTIME_BLE_OK);
    assert_eq!(runtime_ble_char_index(&rt, Some(&[1, 0])), 1);
    assert_eq!(runtime_ble_char_index(&rt, Some(&long)), 2);
    assert_eq!(runtime_ble_char_index(&rt, Some(&[2, 0])), RUNTIME_BLE_ERR_INVALID);
    assert_eq!(runtime_ble_char_index(&rt, Some(&[1])), RUNTIME_BLE_ERR_INVALID);
    assert_eq!(runtime_ble_char_index(&rt, None), RUNTIME_BLE_ERR_INVALID);
}

#[test]
fn char_index_knows_no_builtin_characteristic() {
    let mut rt = runtime();
    assert_eq!(runtime_ble_init(&mut rt, Some(config())), RUNTIME_BLE_OK);
    assert_eq!(runtime_ble_char_index(&rt, Some(&[1, 0])), RUNTIME_BLE_ERR_INVALID);
}

#[test]
fn link_requests_are_checked_and_single() {
    let mut rt = runtime();
    assert_eq!(runtime_ble_set_phy(&mut rt, 0), RUNTIME_BLE_ERR_INVALID);
    assert_eq!(runtime_ble_set_phy(&mut rt, 4), RUNTIME_BLE_ERR_INVALID);
    assert_eq!(runtime_ble_passkey_input(&mut rt, 1_000_000), RUNTIME_BLE_ERR_INVALID);
    assert!(rt.link.cmd.is_none());
    assert_eq!(runtime_ble_set_phy(&mut rt, 2), RUNTIME_BLE_OK);
    assert_eq!(runtime_ble_read_phy(&mut rt), RUNTIME_BLE_ERR_NO_MEM);
    assert_eq!(runtime_ble_update_data_length(&mut rt, 100, 200), RUNTIME_BLE_ERR_NO_MEM);
    assert_eq!(rt.link.cmd, Some(LinkCmd::SetPhy));
    assert_eq!(rt.link.phy, 2);
    assert_eq!(rt.link.dle_octets, 100);
}

#[test]
fn each_link_call_makes_its_request() {
    let cases: Vec<(fn(&mut Runtime) -> i32, LinkCmd)> = vec![
        (|rt| runtime_ble_read_rssi(rt), LinkCmd::ReadRssi),
        (|rt| runtime_ble_read_att_mtu(rt), LinkCmd::ReadAttMtu),
        (|rt| runtime_ble_read_phy(rt), LinkCmd::ReadPhy),
        (|rt| runtime_ble_read_security(rt), LinkCmd::ReadSecurity),
        (|rt| runtime_ble_request_security(rt), LinkCmd::SecurityRequest),
        (|rt| runtime_ble_passkey_confirm(rt, 0), LinkCmd::PasskeyCancel),
        (|rt| runtime_ble_passkey_confirm(rt, 1), LinkCmd::PasskeyConfirm),
        (|rt| runtime_ble_passkey_input(rt, 999_999), LinkCmd::PasskeyInput),
        (|rt| runtime_ble_update_conn_params(rt, 30, 60, 0, 4000), LinkCmd::ConnParams),
        (|rt| runtime_ble_update_frame_space(rt, 1, 2, 3, 4), LinkCmd::FrameSpace),
        (
            |rt| runtime_ble_request_connection_rate(rt, 1, 2, 3, 4, 5, 6, 7),
            LinkCmd::ConnectionRate,
        ),
    ];
    for (call, cmd) in cases {
        let mut rt = runtime();
        assert_eq!(call(&mut rt), RUNTIME_BLE_OK);
        assert_eq!(rt.link.cmd, Some(cmd));
    }
}

#[test]
fn a_connection_rate_keeps_each_parameter() {
    let mut rt = runtime();
    assert_eq!(
        runtime_ble_request_connection_rate(&mut rt, 1, 2, 3, 4, 5, 6, 7),
        RUNTIME_BLE_OK
    );
    assert_eq!(rt.link.conn_min_ms, 1);
    assert_eq!(rt.link.conn_max_ms, 2);
    assert_eq!(rt.link.subrate_min, 3);
    assert_eq!(rt.link.subrate_max, 4);
    assert_eq!(rt.link.conn_latency, 5);
    assert_eq!(rt.link.continuation_number, 6);
    assert_eq!(rt.link.conn_timeout_ms, 7);
}

#[test]
fn bond_requests_are_checked_and_single() {
    assert!(valid_io_capability(5));
    assert!(!valid_io_capability(6));
    let mut rt = runtime();
    assert_eq!(runtime_ble_set_io_capability(&mut rt, 6), RUNTIME_BLE_ERR_INVALID);
    assert_eq!(runtime_ble_bond_delete(&mut rt, 2), RUNTIME_BLE_OK);
    assert_eq!(rt.bond.cmd, Some(BondCmd::Delete));
    assert_eq!(rt.bond.index, 2);
    assert_eq!(runtime_ble_bond_delete(&mut rt, 3), RUNTIME_BLE_ERR_NO_MEM);
    assert_eq!(runtime_ble_bond_enumerate(&mut rt), RUNTIME_BLE_ERR_NO_MEM);
    assert_eq!(runtime_ble_bond_delete_all(&mut rt), RUNTIME_BLE_ERR_NO_MEM);
    assert_eq!(bond_admin_cmd(&mut rt, BondCmd::SetIoCapability, 1), RUNTIME_BLE_ERR_NO_MEM);
    assert_eq!(rt.bond.index, 2);
    assert_eq!(rt.bond.io_capability, 0);
}
