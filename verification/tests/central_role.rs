use runtime_ble::address::Address;
use runtime_ble::central::{
    pack, runtime_ble_client_discover, runtime_ble_client_discover_all,
    runtime_ble_client_discover_descriptors, runtime_ble_client_discover_services,
    runtime_ble_client_read, runtime_ble_client_read_blob, runtime_ble_client_read_by_uuid,
    runtime_ble_client_read_descriptor, runtime_ble_client_read_descriptor_blob,
    runtime_ble_client_subscribe, runtime_ble_client_subscribe_indicate,
    runtime_ble_client_unsubscribe, runtime_ble_client_write, runtime_ble_client_write_descriptor,
    runtime_ble_client_write_no_rsp, runtime_ble_connect, runtime_ble_connect_addr,
    runtime_ble_disconnect, runtime_ble_scan_start, runtime_ble_scan_start_ex,
    runtime_ble_scan_stop,
};
use runtime_ble::client::{
    central_connect_params, central_link_step, central_step, client_step, emit_client_read,
    emit_client_status, empty_char_store, find_cccd, on_notification, report_char,
    report_descriptor, report_service, report_value, CentralAction, CentralEvent, CentralStep,
    ClientAction, CLIENT_OP_DISCOVER_DESCRIPTORS, CLIENT_OP_READ, CLIENT_OP_SUBSCRIBE,
    CLIENT_OP_SUBSCRIBE_INDICATE, CLIENT_OP_UNSUBSCRIBE, CLIENT_STATUS_FAILED, CLIENT_STATUS_OK,
};
use runtime_ble::config::{Build, Family, RuntimeBleCallbacks, RuntimeCfg};
use runtime_ble::emit::Emit;
use runtime_ble::events::PhyKind;
use runtime_ble::gatt::{CharEntry, GattIndex};
use runtime_ble::host::ConnParams;
use runtime_ble::runtime::{
    runtime_ble_notify, CentralCmd, Runtime, RUNTIME_BLE_ERR_INVALID, RUNTIME_BLE_ERR_NO_MEM,
    RUNTIME_BLE_OK,
};
use runtime_ble::scan::{
    ext_data_status_flags, legacy_adv_flags, on_adv_report, on_ext_adv_report, plan_scan,
    scan_deadline, scan_phys, scan_step, AdvEventKind, ExtDataStatus, ExtEventKind, ScanPhys,
    ScanStep,
};
use runtime_ble::server::{tx_step, TxAction};

const BUILD: Build = Build { family: Family::Nrf54l, central: true, l2cap: false, lean: false };

fn runtime() -> Runtime {
    Runtime::new(BUILD)
}

fn every_callback() -> RuntimeBleCallbacks {
    RuntimeBleCallbacks {
        on_scan_result: true,
        on_scan_result_ext: true,
        on_scan_result_meta: true,
        on_service: true,
        on_discovered: true,
        on_descriptor: true,
        on_read: true,
        on_notification: true,
        on_client_status: true,
        ..Default::default()
    }
}

#[test]
fn a_build_without_the_central_role_refuses_every_call() {
    let mut rt = Runtime::new(Build { central: false, l2cap: true, ..BUILD });
    let uuid: [u8; 2] = [1, 2];
    let results = vec![
        runtime_ble_scan_start(&mut rt, 1, 100, 50, 0),
        runtime_ble_scan_start_ex(&mut rt, 1, 100, 50, 0, 1, Some([1; 6]), 1),
        runtime_ble_scan_stop(&mut rt),
        runtime_ble_connect(&mut rt, Some([1; 6])),
        runtime_ble_connect_addr(&mut rt, Some([1; 6]), 1),
        runtime_ble_disconnect(&mut rt),
        runtime_ble_client_discover_services(&mut rt),
        runtime_ble_client_discover(&mut rt, Some(&uuid)),
        runtime_ble_client_discover_all(&mut rt),
        runtime_ble_client_read(&mut rt, 3),
        runtime_ble_client_read_blob(&mut rt, 3, 4),
        runtime_ble_client_read_by_uuid(&mut rt, 1, 2, Some(&uuid)),
        runtime_ble_client_discover_descriptors(&mut rt, 1, 2),
        runtime_ble_client_write(&mut rt, 3, Some(&[1])),
        runtime_ble_client_write_no_rsp(&mut rt, 3, Some(&[1])),
        runtime_ble_client_subscribe(&mut rt, 3),
        runtime_ble_client_subscribe_indicate(&mut rt, 3),
        runtime_ble_client_unsubscribe(&mut rt, 3),
    ];
    for r in results {
        assert_eq!(r, RUNTIME_BLE_ERR_INVALID);
    }
    assert!(rt.central.cmd.is_none());
    assert_eq!(rt.central.addr, [0; 6]);
    assert!(rt.central.data.is_empty());
    assert_eq!(rt.scan.interval_ms, 0);
}

#[test]
fn arguments_are_checked() {
    let mut rt = runtime();
    assert_eq!(runtime_ble_connect(&mut rt, None), RUNTIME_BLE_ERR_INVALID);
    assert_eq!(runtime_ble_client_discover(&mut rt, None), RUNTIME_BLE_ERR_INVALID);
    assert_eq!(runtime_ble_client_discover(&mut rt, Some(&[1, 2, 3])), RUNTIME_BLE_ERR_INVALID);
    assert_eq!(
        runtime_ble_client_read_by_uuid(&mut rt, 0, 5, Some(&[1, 2])),
        RUNTIME_BLE_ERR_INVALID
    );
    assert_eq!(
        runtime_ble_client_read_by_uuid(&mut rt, 6, 5, Some(&[1, 2])),
        RUNTIME_BLE_ERR_INVALID
    );
    assert_eq!(runtime_ble_client_read_by_uuid(&mut rt, 5, 5, None), RUNTIME_BLE_ERR_INVALID);
    assert_eq!(runtime_ble_client_discover_descriptors(&mut rt, 0, 5), RUNTIME_BLE_ERR_INVALID);
    assert_eq!(runtime_ble_client_discover_descriptors(&mut rt, 6, 5), RUNTIME_BLE_ERR_INVALID);
    assert_eq!(runtime_ble_client_write(&mut rt, 1, Some(&[])), RUNTIME_BLE_ERR_INVALID);
    assert_eq!(
        runtime_ble_client_write(&mut rt, 1, Some(&vec![0u8; 513])),
        RUNTIME_BLE_ERR_INVALID
    );
    assert!(rt.central.cmd.is_none());
}

#[test]
fn one_request_at_a_time() {
    let mut rt = runtime();
    assert_eq!(runtime_ble_client_read(&mut rt, 7), RUNTIME_BLE_OK);
    assert_eq!(runtime_ble_client_read(&mut rt, 8), RUNTIME_BLE_ERR_NO_MEM);
    assert_eq!(runtime_ble_client_write(&mut rt, 8, Some(&[5, 6])), RUNTIME_BLE_ERR_NO_MEM);
    assert_eq!(rt.central.cmd, Some(CentralCmd::Read));
    assert_eq!(rt.central.handle, 7);
    assert_eq!(rt.central.data, vec![5, 6]);
    assert!(rt.send.data.is_empty());
    let store = empty_char_store();
    assert_eq!(client_step(&mut rt, &store), ClientAction::Read { handle: 7 });
    assert_eq!(client_step(&mut rt, &store), ClientAction::Idle);
    assert_eq!(runtime_ble_client_read(&mut rt, 8), RUNTIME_BLE_OK);
}

#[test]
fn requests_arrive_with_their_parameters() {
    assert_eq!(pack(0x1234, 0xabcd), 0x1234_abcd);
    let mut rt = runtime();
    let store = empty_char_store();
    assert_eq!(runtime_ble_client_read_blob(&mut rt, 0xfffe, 0x0102), RUNTIME_BLE_OK);
    assert_eq!(
        client_step(&mut rt, &store),
        ClientAction::ReadBlob { handle: 0xfffe, offset: 0x0102 }
    );
    assert_eq!(runtime_ble_client_read_descriptor_blob(&mut rt, 9, 3), RUNTIME_BLE_OK);
    assert_eq!(client_step(&mut rt, &store), ClientAction::ReadBlob { handle: 9, offset: 3 });
    assert_eq!(runtime_ble_client_read_descriptor(&mut rt, 9), RUNTIME_BLE_OK);
    assert_eq!(client_step(&mut rt, &store), ClientAction::Read { handle: 9 });
    assert_eq!(runtime_ble_client_read_by_uuid(&mut rt, 2, 9, Some(&[0x37, 0x2a])), RUNTIME_BLE_OK);
    assert_eq!(
        client_step(&mut rt, &store),
        ClientAction::ReadByUuid { start: 2, end: 9, uuid: vec![0x37, 0x2a] }
    );
    let long: Vec<u8> = (1u8..17).collect();
    assert_eq!(runtime_ble_client_discover(&mut rt, Some(&long)), RUNTIME_BLE_OK);
    assert_eq!(client_step(&mut rt, &store), ClientAction::Discover { uuid: long });
    assert_eq!(runtime_ble_client_discover_descriptors(&mut rt, 5, 5), RUNTIME_BLE_OK);
    assert_eq!(
        client_step(&mut rt, &store),
        ClientAction::DiscoverDescriptors { start: 5, end: 5 }
    );
    assert_eq!(runtime_ble_client_discover_services(&mut rt), RUNTIME_BLE_OK);
    assert_eq!(client_step(&mut rt, &store), ClientAction::DiscoverServices);
    assert_eq!(runtime_ble_client_discover_all(&mut rt), RUNTIME_BLE_OK);
    assert_eq!(client_step(&mut rt, &store), ClientAction::DiscoverAll);
    assert_eq!(runtime_ble_disconnect(&mut rt), RUNTIME_BLE_OK);
    assert_eq!(client_step(&mut rt, &store), ClientAction::Disconnect);
    assert_eq!(runtime_ble_scan_stop(&mut rt), RUNTIME_BLE_OK);
    assert_eq!(client_step(&mut rt, &store), ClientAction::Idle);
}

#[test]
fn a_bad_range_in_the_slot_is_rejected() {
    let mut rt = runtime();
    rt.central.cmd = Some(CentralCmd::DiscoverDescriptors);
    rt.central.handle = pack(4, 3);
    let store = empty_char_store();
    let action = client_step(&mut rt, &store);
    assert_eq!(action, ClientAction::RejectedRange { start: 4 });
    assert_eq!(
        emit_client_status(&every_callback(), &action, false),
        vec![Emit::ClientStatus {
            op: CLIENT_OP_DISCOVER_DESCRIPTORS,
            status: CLIENT_STATUS_FAILED,
            handle: 4
        }]
    );
}

#[test]
fn writes_carry_what_a_value_holds() {
    let data: Vec<u8> = (0..300u32).map(|i| i as u8).collect();
    let store = empty_char_store();
    let mut rt = runtime();
    assert_eq!(runtime_ble_client_write(&mut rt, 3, Some(&data)), RUNTIME_BLE_OK);
    assert_eq!(
        client_step(&mut rt, &store),
        ClientAction::Write { handle: 3, data: data[..244].to_vec() }
    );
    assert_eq!(runtime_ble_client_write_no_rsp(&mut rt, 3, Some(&[1])), RUNTIME_BLE_OK);
    assert_eq!(
        client_step(&mut rt, &store),
        ClientAction::WriteNoRsp { handle: 3, data: vec![1] }
    );
    assert_eq!(runtime_ble_client_write_descriptor(&mut rt, 4, Some(&[2])), RUNTIME_BLE_OK);
    assert_eq!(client_step(&mut rt, &store), ClientAction::Write { handle: 4, data: vec![2] });
}

#[test]
fn the_server_and_the_client_keep_their_bytes_apart() {
    let mut rt = runtime();
    let store = empty_char_store();
    assert_eq!(runtime_ble_client_read(&mut rt, 3), RUNTIME_BLE_OK);
    assert_eq!(runtime_ble_notify(&mut rt, 0, Some(&[1, 2, 3])), RUNTIME_BLE_OK);
    assert_eq!(runtime_ble_client_write(&mut rt, 3, Some(&[9])), RUNTIME_BLE_ERR_NO_MEM);
    assert_eq!(client_step(&mut rt, &store), ClientAction::Read { handle: 3 });
    assert_eq!(runtime_ble_client_write(&mut rt, 3, Some(&[8])), RUNTIME_BLE_OK);
    let index = GattIndex {
        chars: vec![CharEntry { handle: 9, cccd: Some(10) }],
        props: vec![0x08],
        descriptors: Vec::new(),
        nus_rx: None,
        nus_tx: None,
    };
    assert_eq!(tx_step(&mut rt, &index), TxAction::Notify { chr: 0, data: vec![1, 2, 3] });
    assert_eq!(runtime_ble_notify(&mut rt, 0, Some(&[4])), RUNTIME_BLE_OK);
    assert_eq!(
        client_step(&mut rt, &store),
        ClientAction::Write { handle: 3, data: vec![8] }
    );
}

#[test]
fn subscriptions_use_the_discovered_configuration() {
    let cb = every_callback();
    let mut store = empty_char_store();
    let found = report_char(&cb, &mut store, 10, Some(15), &[0x37, 0x2a], 0x3e);
    assert_eq!(
        found,
        vec![Emit::Discovered { handle: 10, uuid: vec![0x37, 0x2a], props: 0x1f }]
    );
    report_char(&cb, &mut store, 20, None, &[0x38, 0x2a], 0x02);
    let mut rt = runtime();
    assert_eq!(runtime_ble_client_subscribe(&mut rt, 10), RUNTIME_BLE_OK);
    assert_eq!(
        client_step(&mut rt, &store),
        ClientAction::Configure { op: CLIENT_OP_SUBSCRIBE, handle: 10, cccd: 15, value: 1 }
    );
    assert_eq!(runtime_ble_client_subscribe_indicate(&mut rt, 20), RUNTIME_BLE_OK);
    assert_eq!(
        client_step(&mut rt, &store),
        ClientAction::Configure {
            op: CLIENT_OP_SUBSCRIBE_INDICATE,
            handle: 20,
            cccd: 21,
            value: 2
        }
    );
    assert_eq!(runtime_ble_client_unsubscribe(&mut rt, 10), RUNTIME_BLE_OK);
    assert_eq!(
        client_step(&mut rt, &store),
        ClientAction::Configure { op: CLIENT_OP_UNSUBSCRIBE, handle: 10, cccd: 15, value: 0 }
    );
    assert_eq!(find_cccd(&store, 0xffff), 0);
}

#[test]
fn thirty_two_characteristics_are_tracked() {
    let cb = every_callback();
    let mut store = empty_char_store();
    for i in 0u16..33 {
        let told = report_char(&cb, &mut store, 2 * i, Some(1000 + i), &[0, 0], 0x10);
        assert_eq!(told.len(), 1);
    }
    assert_eq!(find_cccd(&store, 62), 1031);
    assert_eq!(find_cccd(&store, 64), 65);
}

#[test]
fn the_first_characteristic_with_a_handle_counts() {
    let cb = RuntimeBleCallbacks::default();
    let mut store = empty_char_store();
    assert!(report_char(&cb, &mut store, 10, Some(12), &[0, 0], 0).is_empty());
    report_char(&cb, &mut store, 10, Some(13), &[0, 0], 0);
    assert_eq!(find_cccd(&store, 10), 12);
}

#[test]
fn reads_report_the_value_then_the_status() {
    let cb = every_callback();
    let action: ClientAction<Vec<u8>> = ClientAction::Read { handle: 6 };
    let data = vec![3u8; 250];
    assert_eq!(
        emit_client_read(&cb, &action, 6, Some(&data)),
        vec![
            Emit::Read { handle: 6, data: vec![3u8; 244] },
            Emit::ClientStatus { op: CLIENT_OP_READ, status: CLIENT_STATUS_OK, handle: 6 },
        ]
    );
    assert_eq!(
        emit_client_read(&cb, &action, 6, None),
        vec![Emit::ClientStatus { op: CLIENT_OP_READ, status: CLIENT_STATUS_FAILED, handle: 6 }]
    );
    assert_eq!(
        report_value(&cb, 7, &data),
        vec![Emit::Read { handle: 7, data: vec![3u8; 244] }]
    );
}

#[test]
fn each_operation_reports_its_own_number() {
    let cb = every_callback();
    let cases: Vec<(ClientAction<Vec<u8>>, u8, u16)> = vec![
        (ClientAction::DiscoverServices, 1, 0),
        (ClientAction::Discover { uuid: vec![0, 0] }, 2, 0),
        (ClientAction::DiscoverAll, 3, 0),
        (ClientAction::DiscoverDescriptors { start: 4, end: 9 }, 4, 4),
        (ClientAction::Read { handle: 5 }, 5, 5),
        (ClientAction::ReadBlob { handle: 6, offset: 1 }, 6, 6),
        (ClientAction::Write { handle: 7, data: vec![] }, 7, 7),
        (ClientAction::WriteNoRsp { handle: 8, data: vec![] }, 8, 8),
        (ClientAction::Configure { op: 9, handle: 9, cccd: 10, value: 1 }, 9, 9),
        (ClientAction::ReadByUuid { start: 11, end: 12, uuid: vec![0, 0] }, 11, 11),
    ];
    for (action, op, handle) in cases {
        assert_eq!(
            emit_client_status(&cb, &action, true),
            vec![Emit::ClientStatus { op, status: 0, handle }]
        );
        assert_eq!(
            emit_client_status(&cb, &action, false),
            vec![Emit::ClientStatus { op, status: -1, handle }]
        );
    }
    assert!(emit_client_status(&cb, &ClientAction::Disconnect, true).is_empty());
    assert!(emit_client_status(&cb, &ClientAction::Idle, true).is_empty());
}

#[test]
fn discoveries_and_notifications_are_passed_on() {
    let cb = every_callback();
    assert_eq!(
        report_service(&cb, 1, 9, &[0x0a, 0x18]),
        vec![Emit::Service { start: 1, end: 9, uuid: vec![0x0a, 0x18] }]
    );
    assert_eq!(
        report_descriptor(&cb, 5, &[0x02, 0x29]),
        vec![Emit::Descriptor { handle: 5, uuid: vec![0x02, 0x29] }]
    );
    let data = vec![1u8; 400];
    assert_eq!(
        on_notification(&cb, 5, &data, false),
        (vec![Emit::Notification { handle: 5, data: data.clone() }], false)
    );
    assert_eq!(
        on_notification(&cb, 5, &data, true),
        (vec![Emit::Notification { handle: 5, data }], true)
    );
}

#[test]
fn the_configured_device_is_connected_to_once() {
    let mut rt = runtime();
    let cfg = RuntimeCfg {
        peer_address: Some([1, 2, 3, 4, 5, 6]),
        peer_address_kind: 1,
        ..Default::default()
    };
    let mut auto = true;
    assert_eq!(
        central_step(&mut rt, &cfg, &mut auto),
        CentralStep::Connect(Address { kind: 0, addr: [1, 2, 3, 4, 5, 6] })
    );
    assert!(!auto);
    assert_eq!(central_step(&mut rt, &cfg, &mut auto), CentralStep::Wait);
    assert_eq!(runtime_ble_connect(&mut rt, Some([9; 6])), RUNTIME_BLE_OK);
    assert_eq!(
        central_step(&mut rt, &cfg, &mut auto),
        CentralStep::Connect(Address { kind: 1, addr: [9; 6] })
    );
    assert_eq!(runtime_ble_scan_start(&mut rt, 0, 0, 0, 0), RUNTIME_BLE_OK);
    assert_eq!(central_step(&mut rt, &cfg, &mut auto), CentralStep::Scan);
    assert_eq!(runtime_ble_client_read(&mut rt, 1), RUNTIME_BLE_OK);
    assert_eq!(central_step(&mut rt, &cfg, &mut auto), CentralStep::Wait);
    assert!(rt.central.cmd.is_none());
    rt.unload = true;
    assert_eq!(central_step(&mut rt, &cfg, &mut auto), CentralStep::Unloaded);
}

#[test]
fn links_are_reported_in_turn_and_failures_are_not() {
    let cb =
        RuntimeBleCallbacks { on_connected: true, on_disconnected: true, ..Default::default() };
    let mut told: Vec<Emit<Vec<u8>>> = Vec::new();
    for (event, action) in [
        (CentralEvent::ConnectFailed, CentralAction::Pause),
        (CentralEvent::LinkUp, CentralAction::Serve),
        (CentralEvent::LinkDown, CentralAction::Next),
        (CentralEvent::ConnectFailed, CentralAction::Pause),
        (CentralEvent::LinkUp, CentralAction::Serve),
    ] {
        let (list, next) = central_link_step(&cb, event);
        assert_eq!(next, action);
        told.extend(list);
        assert!(central_link_step(&RuntimeBleCallbacks::default(), event).0.is_empty());
    }
    assert_eq!(
        told,
        vec![Emit::Connected, Emit::Disconnected { reason: 0 }, Emit::Connected]
    );
}

#[test]
fn a_lean_build_writes_and_reads_full_values() {
    let mut rt = Runtime::new(Build { lean: true, ..BUILD });
    let store = empty_char_store();
    assert_eq!(runtime_ble_client_write(&mut rt, 3, Some(&[7; 200])), RUNTIME_BLE_OK);
    assert_eq!(
        client_step(&mut rt, &store),
        ClientAction::Write { handle: 3, data: vec![7; 200] }
    );
    let cb = RuntimeBleCallbacks { on_read: true, ..Default::default() };
    assert_eq!(
        report_value(&cb, 7, &[8; 200]),
        vec![Emit::Read { handle: 7, data: vec![8; 200] }]
    );
}

#[test]
fn connection_parameters_fall_back_to_the_defaults() {
    let cfg = RuntimeCfg::default();
    let defaults = ConnParams {
        min_interval_ms: 80,
        max_interval_ms: 80,
        max_latency: 0,
        min_event_ms: 0,
        max_event_ms: 0,
        supervision_timeout_ms: 8000,
    };
    assert_eq!(central_connect_params(&cfg), (defaults, true));
    let tuned = RuntimeCfg {
        central_conn_min_interval_ms: 30,
        central_conn_max_interval_ms: 60,
        central_conn_latency: 2,
        central_conn_timeout_ms: 4000,
        ..Default::default()
    };
    assert_eq!(
        central_connect_params(&tuned),
        (
            ConnParams {
                min_interval_ms: 30,
                max_interval_ms: 60,
                max_latency: 2,
                min_event_ms: 0,
                max_event_ms: 0,
                supervision_timeout_ms: 4000,
            },
            true
        )
    );
    let crossed = RuntimeCfg {
        central_conn_min_interval_ms: 60,
        central_conn_max_interval_ms: 30,
        ..Default::default()
    };
    assert_eq!(central_connect_params(&crossed), (defaults, false));
}

#[test]
fn scans_run_with_their_parameters() {
    let mut rt = runtime();
    assert_eq!(runtime_ble_scan_start(&mut rt, 0, 0, 0, 0), RUNTIME_BLE_OK);
    let plan = plan_scan(&rt);
    assert!(!plan.active);
    assert_eq!(plan.interval_ms, 100);
    assert_eq!(plan.window_ms, 50);
    assert_eq!(plan.filter, None);
    assert_eq!(plan.phys, ScanPhys::M1);
    assert_eq!(scan_deadline(&plan, 1000), None);
    rt.central.cmd = None;
    assert_eq!(
        runtime_ble_scan_start_ex(&mut rt, 1, 200, 150, 3000, 0x0b, Some([7; 6]), 1),
        RUNTIME_BLE_OK
    );
    let plan = plan_scan(&rt);
    assert!(plan.active);
    assert_eq!(plan.interval_ms, 200);
    assert_eq!(plan.window_ms, 150);
    assert_eq!(plan.timeout_ms, 3000);
    assert!(plan.filter_duplicates);
    assert_eq!(plan.phys, ScanPhys::M1Coded);
    assert_eq!(plan.filter, Some(Address { kind: 0, addr: [7; 6] }));
    assert_eq!(scan_deadline(&plan, 1000), Some(4000));
}

#[test]
fn scan_phys_follow_the_bits() {
    let cases = [
        (0x00, ScanPhys::M1),
        (0x02, ScanPhys::M1),
        (0x04, ScanPhys::M2),
        (0x06, ScanPhys::M1M2),
        (0x08, ScanPhys::Coded),
        (0x0a, ScanPhys::M1Coded),
        (0x0c, ScanPhys::M2Coded),
        (0x0e, ScanPhys::M1M2Coded),
        (0xf1, ScanPhys::M1),
    ];
    for (bits, phys) in cases {
        assert_eq!(scan_phys(bits), phys);
    }
}

#[test]
fn a_scan_ends_by_unload_timeout_stop_or_connect() {
    let mut rt = runtime();
    assert_eq!(scan_step(&mut rt, Some(10), 9), ScanStep::Continue);
    assert_eq!(runtime_ble_scan_stop(&mut rt), RUNTIME_BLE_OK);
    assert_eq!(scan_step(&mut rt, Some(10), 10), ScanStep::TimedOut);
    assert_eq!(rt.central.cmd, Some(CentralCmd::ScanStop));
    assert_eq!(scan_step(&mut rt, None, u64::MAX), ScanStep::Stopped);
    assert_eq!(runtime_ble_connect_addr(&mut rt, Some([3; 6]), 1), RUNTIME_BLE_OK);
    assert_eq!(
        scan_step(&mut rt, None, 0),
        ScanStep::Connect(Address { kind: 0, addr: [3; 6] })
    );
    assert_eq!(runtime_ble_client_read(&mut rt, 1), RUNTIME_BLE_OK);
    assert_eq!(scan_step(&mut rt, None, 0), ScanStep::Continue);
    assert!(rt.central.cmd.is_none());
    rt.unload = true;
    assert_eq!(scan_step(&mut rt, Some(0), 5), ScanStep::Unloaded);
}

#[test]
fn report_flags() {
    assert_eq!(legacy_adv_flags(AdvEventKind::AdvInd), 0x13);
    assert_eq!(legacy_adv_flags(AdvEventKind::AdvDirectInd), 0x15);
    assert_eq!(legacy_adv_flags(AdvEventKind::AdvScanInd), 0x12);
    assert_eq!(legacy_adv_flags(AdvEventKind::AdvNonconnInd), 0x10);
    assert_eq!(legacy_adv_flags(AdvEventKind::ScanRsp), 0x18);
    assert_eq!(ext_data_status_flags(ExtDataStatus::Complete), 0);
    assert_eq!(ext_data_status_flags(ExtDataStatus::IncompleteMoreExpected), 0x20);
    assert_eq!(ext_data_status_flags(ExtDataStatus::IncompleteTruncated), 0x40);
    assert_eq!(ext_data_status_flags(ExtDataStatus::Reserved), 0x20);
}

#[test]
fn legacy_reports_reach_each_callback() {
    let told = on_adv_report(
        &every_callback(),
        [1, 2, 3, 4, 5, 6],
        0,
        -60,
        AdvEventKind::AdvInd,
        &[2, 1, 6],
    );
    assert_eq!(
        told,
        vec![
            Emit::ScanResultMeta {
                addr: [1, 2, 3, 4, 5, 6],
                addr_kind: 1,
                rssi: -60,
                adv: vec![2, 1, 6],
                flags: 0x13,
                primary_phy: 1,
                secondary_phy: 0,
                tx_power_dbm: 127,
                sid: 0xff,
            },
            Emit::ScanResultExt {
                addr: [1, 2, 3, 4, 5, 6],
                addr_kind: 1,
                rssi: -60,
                adv: vec![2, 1, 6],
            },
            Emit::ScanResult { addr: [1, 2, 3, 4, 5, 6], rssi: -60, adv: vec![2, 1, 6] },
        ]
    );
    let none = RuntimeBleCallbacks::default();
    assert!(on_adv_report(&none, [0; 6], 0, 0, AdvEventKind::AdvInd, &[]).is_empty());
}

#[test]
fn extended_reports_carry_their_metadata() {
    let cb = RuntimeBleCallbacks { on_scan_result_meta: true, ..Default::default() };
    let kind = ExtEventKind {
        connectable: true,
        scannable: false,
        directed: true,
        scan_response: false,
        legacy: false,
        data_status: ExtDataStatus::IncompleteTruncated,
    };
    let told = on_ext_adv_report(
        &cb,
        [9; 6],
        1,
        -3,
        kind,
        &[],
        PhyKind::LeCoded,
        Some(PhyKind::Le2M),
        8,
        5,
    );
    assert_eq!(
        told,
        vec![Emit::ScanResultMeta {
            addr: [9; 6],
            addr_kind: 0,
            rssi: -3,
            adv: vec![],
            flags: 0x45,
            primary_phy: 3,
            secondary_phy: 2,
            tx_power_dbm: 8,
            sid: 5,
        }]
    );
}
