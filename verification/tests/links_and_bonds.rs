use runtime_ble::bond::{
    bond_deleted, bond_slot_count, bond_step, bond_to_delete, c_to_security_level,
    deserialize_bond, empty_bond_slots, io_capability_from_c, note_restored, report_bonds,
    restore_blob, security_level_to_c, serialize_bond, slots_in_use, store_bond, Bond, BondAction,
    IoCapability, Restored, SecurityLevel,
};
use runtime_ble::config::{Build, Family, RuntimeBleCallbacks, RuntimeCfg};
use runtime_ble::controller::{
    plan_controller, required_mem_line, sdc_pool, session_roles, Roles, SDC_DISABLE_CODED_PHY,
    SDC_DISABLE_EXT_ADV, SDC_DISABLE_PERIODIC_ADV,
};
use runtime_ble::emit::Emit;
use runtime_ble::events::{
    disconnect_reason_line, emit_att_mtu, emit_connected, emit_disconnected, emit_local_oob_data,
    emit_phy, emit_rssi, emit_security_state, link_setup, load_oob_data, on_link_event, phy_to_c,
    wants_local_oob_data, LinkEvent, LinkSetup, MtuReport, PhyKind,
};
use runtime_ble::host::{ConnParams, Identity};
use runtime_ble::l2cap::{
    l2cap_closed, l2cap_enabled, l2cap_open, l2cap_step, on_l2cap_data, plan_channel,
    CreditPolicy, PumpStep,
};
use runtime_ble::link::{link_step, FrameSpacePhys, FrameSpaceTypes, LinkAction, Phy, RateParams};
use runtime_ble::runtime::{
    runtime_ble_bond_delete, runtime_ble_bond_delete_all, runtime_ble_bond_enumerate,
    runtime_ble_l2cap_disconnect, runtime_ble_l2cap_send, runtime_ble_passkey_confirm,
    runtime_ble_passkey_input, runtime_ble_read_rssi, runtime_ble_request_connection_rate,
    runtime_ble_set_io_capability, runtime_ble_set_phy, runtime_ble_update_conn_params,
    runtime_ble_update_data_length, runtime_ble_update_frame_space, Runtime,
    RUNTIME_BLE_ERR_INVALID, RUNTIME_BLE_ERR_NO_MEM, RUNTIME_BLE_OK,
};

const BUILD: Build =
    Build { family: Family::Nrf54l, central: true, l2cap: true, lean: false };

const NRF52: Build = Build { family: Family::Nrf52, ..BUILD };

fn runtime() -> Runtime {
    Runtime::new(BUILD)
}

#[test]
fn link_requests_become_actions() {
    let mut rt = runtime();
    assert_eq!(link_step(&mut rt), LinkAction::Idle);
    for (phy, kind) in [(1u8, Phy::Le1M), (2, Phy::Le2M), (3, Phy::LeCoded)] {
        assert_eq!(runtime_ble_set_phy(&mut rt, phy), RUNTIME_BLE_OK);
        assert_eq!(link_step(&mut rt), LinkAction::SetPhy(kind));
    }
    assert_eq!(runtime_ble_update_data_length(&mut rt, 0, 0), RUNTIME_BLE_OK);
    assert_eq!(link_step(&mut rt), LinkAction::DataLength { octets: 251, time_us: 2120 });
    assert_eq!(runtime_ble_update_data_length(&mut rt, 100, 400), RUNTIME_BLE_OK);
    assert_eq!(link_step(&mut rt), LinkAction::DataLength { octets: 100, time_us: 400 });
    assert_eq!(runtime_ble_passkey_input(&mut rt, 123456), RUNTIME_BLE_OK);
    assert_eq!(link_step(&mut rt), LinkAction::PasskeyInput(123456));
    assert_eq!(runtime_ble_passkey_confirm(&mut rt, 0), RUNTIME_BLE_OK);
    assert_eq!(link_step(&mut rt), LinkAction::PasskeyCancel);
    assert_eq!(runtime_ble_read_rssi(&mut rt), RUNTIME_BLE_OK);
    assert_eq!(link_step(&mut rt), LinkAction::ReadRssi);
    assert_eq!(link_step(&mut rt), LinkAction::Idle);
}

#[test]
fn connection_parameters_are_checked() {
    let mut rt = runtime();
    assert_eq!(runtime_ble_update_conn_params(&mut rt, 30, 60, 1, 4000), RUNTIME_BLE_OK);
    assert_eq!(
        link_step(&mut rt),
        LinkAction::ConnParams(ConnParams {
            min_interval_ms: 30,
            max_interval_ms: 60,
            max_latency: 1,
            min_event_ms: 0,
            max_event_ms: 0,
            supervision_timeout_ms: 4000,
        })
    );
    let cases: Vec<(u16, u16, u16, u16, bool)> = vec![
        (0, 0, 0, 0, true),
        (7, 60, 0, 4000, false),
        (8, 60, 0, 4000, true),
        (61, 60, 0, 4000, false),
        (60, 4000, 0, 8001, true),
        (60, 4001, 0, 32000, false),
        (60, 60, 500, 32000, false),
        (60, 60, 0, 99, false),
        (8, 8, 0, 100, true),
        (60, 60, 0, 32001, false),
        (100, 100, 9, 2000, false),
        (100, 100, 9, 2001, true),
    ];
    for (min, max, latency, timeout, ok) in cases {
        assert_eq!(
            runtime_ble_update_conn_params(&mut rt, min, max, latency, timeout),
            RUNTIME_BLE_OK
        );
        let action = link_step(&mut rt);
        assert_eq!(matches!(action, LinkAction::ConnParams(_)), ok);
        assert_eq!(action == LinkAction::InvalidConnParams, !ok);
    }
}

#[test]
fn frame_spacing() {
    let mut rt = runtime();
    assert_eq!(runtime_ble_update_frame_space(&mut rt, 0, 0, 0, 0), RUNTIME_BLE_OK);
    assert_eq!(
        link_step(&mut rt),
        LinkAction::FrameSpace {
            min_us: 150,
            max_us: 10_000,
            phys: FrameSpacePhys { le_1m: true, le_2m: true, le_coded: true },
            types: FrameSpaceTypes {
                t_ifs_acl_cp: true,
                t_ifs_acl_pc: true,
                t_mces: false,
                t_ifs_cis: false,
                t_mss_cis: false,
            },
        }
    );
    assert_eq!(runtime_ble_update_frame_space(&mut rt, 1, 2, 0x05, 0x1a), RUNTIME_BLE_OK);
    assert_eq!(
        link_step(&mut rt),
        LinkAction::FrameSpace {
            min_us: 1,
            max_us: 2,
            phys: FrameSpacePhys { le_1m: true, le_2m: false, le_coded: true },
            types: FrameSpaceTypes {
                t_ifs_acl_cp: false,
                t_ifs_acl_pc: true,
                t_mces: false,
                t_ifs_cis: true,
                t_mss_cis: true,
            },
        }
    );
    assert_eq!(runtime_ble_update_frame_space(&mut rt, 3, 2, 0, 0), RUNTIME_BLE_OK);
    assert_eq!(link_step(&mut rt), LinkAction::InvalidFrameSpace);
}

#[test]
fn connection_rates() {
    let mut rt = runtime();
    assert_eq!(
        runtime_ble_request_connection_rate(&mut rt, 0, 100, 0, 4, 3, 2, 0),
        RUNTIME_BLE_OK
    );
    assert_eq!(
        link_step(&mut rt),
        LinkAction::ConnectionRate(RateParams {
            min_interval_ms: 80,
            max_interval_ms: 100,
            subrate_min: 1,
            subrate_max: 4,
            max_latency: 3,
            continuation_number: 2,
            supervision_timeout_ms: 8000,
        })
    );
    assert_eq!(
        runtime_ble_request_connection_rate(&mut rt, 90, 0, 0, 0, 0, 0, 0),
        RUNTIME_BLE_OK
    );
    assert_eq!(link_step(&mut rt), LinkAction::InvalidConnectionRate);
    assert_eq!(
        runtime_ble_request_connection_rate(&mut rt, 0, 0, 5, 4, 0, 0, 0),
        RUNTIME_BLE_OK
    );
    assert_eq!(link_step(&mut rt), LinkAction::InvalidConnectionRate);
}

fn all_events() -> RuntimeCfg {
    RuntimeCfg {
        callbacks: RuntimeBleCallbacks {
            on_conn_params: true,
            on_phy_update: true,
            on_data_length_update: true,
            on_frame_space: true,
            on_connection_rate: true,
            on_security_event: true,
            on_bond_store: true,
            on_bond: true,
            on_bond_deleted: true,
            on_oob_local_data: true,
            on_oob_request: true,
            on_security_state: true,
            on_att_mtu: true,
            on_rssi: true,
            on_connected: true,
            on_disconnected: true,
            ..Default::default()
        },
        ..Default::default()
    }
}

#[test]
fn link_events_are_reported() {
    let cfg = all_events();
    let mut slots = empty_bond_slots();
    let cases: Vec<(LinkEvent, Emit<Vec<u8>>)> = vec![
        (
            LinkEvent::ConnParamsUpdated { interval_ms: 70000, latency: 3, timeout_ms: 4000 },
            Emit::ConnParams { interval_ms: 65535, latency: 3, timeout_ms: 4000 },
        ),
        (
            LinkEvent::PhyUpdated { tx: PhyKind::Le2M, rx: PhyKind::LeCodedS2 },
            Emit::PhyUpdate { tx: 2, rx: 3 },
        ),
        (
            LinkEvent::DataLengthUpdated { tx_octets: 251, rx_octets: 27 },
            Emit::DataLengthUpdate { tx_octets: 251, rx_octets: 27 },
        ),
        (
            LinkEvent::FrameSpaceUpdated { micros: 1 << 33 },
            Emit::FrameSpace { micros: u32::MAX },
        ),
        (
            LinkEvent::ConnectionRateChanged {
                interval_ms: 50,
                subrate_factor: 2,
                latency: 1,
                continuation_number: 4,
                timeout_ms: 1 << 20,
            },
            Emit::ConnectionRate {
                interval_ms: 50,
                subrate_factor: 2,
                latency: 1,
                continuation_number: 4,
                timeout_ms: 65535,
            },
        ),
        (
            LinkEvent::PassKeyDisplay(42),
            Emit::SecurityEvent { event: 1, level: 0, passkey: 42, flags: 0 },
        ),
        (
            LinkEvent::PassKeyConfirm(43),
            Emit::SecurityEvent { event: 2, level: 0, passkey: 43, flags: 0 },
        ),
        (
            LinkEvent::PassKeyInput,
            Emit::SecurityEvent { event: 3, level: 0, passkey: 0, flags: 0 },
        ),
        (
            LinkEvent::PairingComplete { level: SecurityLevel::Encrypted, bond: None },
            Emit::SecurityEvent { event: 4, level: 1, passkey: 0, flags: 0 },
        ),
        (
            LinkEvent::PairingFailed,
            Emit::SecurityEvent { event: 5, level: 0, passkey: 0, flags: 0 },
        ),
        (
            LinkEvent::BondLost,
            Emit::SecurityEvent { event: 6, level: 0, passkey: 0, flags: 0 },
        ),
        (
            LinkEvent::Encrypted { level: SecurityLevel::EncryptedAuthenticated, bond: None },
            Emit::SecurityEvent { event: 7, level: 2, passkey: 0, flags: 0 },
        ),
        (
            LinkEvent::OobRequest,
            Emit::SecurityEvent { event: 8, level: 0, passkey: 0, flags: 0 },
        ),
    ];
    let silent = RuntimeCfg::default();
    for (event, told) in cases {
        assert_eq!(on_link_event(&cfg, &mut slots, event), vec![told]);
        assert!(on_link_event(&silent, &mut slots, event).is_empty());
    }
    assert_eq!(phy_to_c(PhyKind::Le1M), 1);
}

fn bond(last: u8, irk: Option<u128>) -> Bond {
    Bond {
        identity: Identity { kind: 1, addr: [1, 2, 3, 4, 5, last], irk },
        ltk: 0x0102_0304_0506_0708_090a_0b0c_0d0e_0f10,
        level: SecurityLevel::EncryptedAuthenticated,
        is_bonded: true,
    }
}

#[test]
fn a_bond_is_stored_before_it_is_reported() {
    let cfg = all_events();
    let mut slots = empty_bond_slots();
    let b = bond(6, Some(7));
    let event = LinkEvent::PairingComplete { level: SecurityLevel::Encrypted, bond: Some(b) };
    assert_eq!(
        on_link_event(&cfg, &mut slots, event),
        vec![
            Emit::BondStore { index: 0, blob: serialize_bond(&b) },
            Emit::SecurityEvent { event: 4, level: 1, passkey: 0, flags: 1 },
        ]
    );
    assert_eq!(slots_in_use(&slots), vec![0]);
}

#[test]
fn the_blob_of_a_bond() {
    let blob = serialize_bond(&bond(6, Some(0x0201)));
    let mut expected: Vec<u8> = vec![1, 3, 2, 1, 1, 2, 3, 4, 5, 6];
    expected.extend((1u8..=16).rev());
    expected.extend([0x01, 0x02]);
    expected.extend([0u8; 15]);
    assert_eq!(blob, expected);
    assert_eq!(blob.len(), 43);
    let plain = serialize_bond(&Bond { is_bonded: false, ..bond(6, None) });
    assert_eq!(plain[1], 0);
    assert_eq!(plain[26..], [0u8; 17]);
}

#[test]
fn bonds_survive_storage() {
    for irk in [None, Some(1u128), Some(u128::MAX)] {
        for level in [
            SecurityLevel::NoEncryption,
            SecurityLevel::Encrypted,
            SecurityLevel::EncryptedAuthenticated,
        ] {
            for is_bonded in [false, true] {
                let b = Bond { level, is_bonded, ..bond(9, irk) };
                let blob = serialize_bond(&b);
                assert_eq!(deserialize_bond(&blob), Some(b));
                assert_eq!(deserialize_bond(&blob[..42]), Some(b));
                assert_eq!(restore_blob(&blob, 43), Restored::Bond(b));
            }
        }
    }
}

#[test]
fn blobs_that_hold_no_bond() {
    let blob = serialize_bond(&bond(9, None));
    assert_eq!(deserialize_bond(&blob[..41]), None);
    let mut version = blob.clone();
    version[0] = 2;
    assert_eq!(deserialize_bond(&version), None);
    let mut level = blob.clone();
    level[2] = 3;
    assert_eq!(deserialize_bond(&level), None);
    let mut zero_key = blob.clone();
    zero_key[1] = 3;
    assert_eq!(deserialize_bond(&zero_key).unwrap().identity.irk, None);
    assert_eq!(restore_blob(&blob, 0), Restored::Empty);
    assert_eq!(restore_blob(&blob, 7), Restored::Invalid);
    assert!(matches!(restore_blob(&blob, 1000), Restored::Bond(_)));
}

#[test]
fn security_levels_have_numbers() {
    for (level, code) in [
        (SecurityLevel::NoEncryption, 0u8),
        (SecurityLevel::Encrypted, 1),
        (SecurityLevel::EncryptedAuthenticated, 2),
    ] {
        assert_eq!(security_level_to_c(level), code);
        assert_eq!(c_to_security_level(code), Some(level));
    }
    assert_eq!(c_to_security_level(3), None);
}

#[test]
fn slot_counts() {
    for (configured, count) in [(0u8, 4u8), (1, 1), (4, 4), (5, 4), (255, 4)] {
        let cfg = RuntimeCfg { bond_slot_count: configured, ..Default::default() };
        assert_eq!(bond_slot_count(&cfg), count);
    }
}

fn stored_slot(told: &[Emit<Vec<u8>>]) -> u8 {
    match told {
        [Emit::BondStore { index, .. }] => *index,
        _ => panic!("no bond was stored"),
    }
}

#[test]
fn devices_take_the_next_slot_and_then_the_first() {
    let cfg = RuntimeCfg { bond_slot_count: 2, ..all_events() };
    let mut slots = empty_bond_slots();
    assert_eq!(stored_slot(&store_bond(&cfg, &mut slots, &bond(1, None))), 0);
    assert_eq!(stored_slot(&store_bond(&cfg, &mut slots, &bond(2, None))), 1);
    assert_eq!(stored_slot(&store_bond(&cfg, &mut slots, &bond(1, None))), 0);
    assert_eq!(stored_slot(&store_bond(&cfg, &mut slots, &bond(2, None))), 1);
    assert_eq!(stored_slot(&store_bond(&cfg, &mut slots, &bond(3, None))), 0);
    assert_eq!(bond_to_delete(&slots, 0).unwrap().addr[5], 3);
    assert_eq!(stored_slot(&store_bond(&cfg, &mut slots, &bond(2, Some(5)))), 0);
    let silent = RuntimeCfg::default();
    assert!(store_bond(&silent, &mut slots, &bond(9, None)).is_empty());
    assert_eq!(slots_in_use(&slots), vec![0, 1]);
}

#[test]
fn a_slot_in_use_is_not_given_out_again() {
    let cfg = RuntimeCfg { bond_slot_count: 3, ..all_events() };
    let mut slots = empty_bond_slots();
    store_bond(&cfg, &mut slots, &bond(1, None));
    store_bond(&cfg, &mut slots, &bond(2, None));
    bond_deleted(&cfg.callbacks, &mut slots, 0, true);
    assert_eq!(stored_slot(&store_bond(&cfg, &mut slots, &bond(3, None))), 0);
    assert_eq!(stored_slot(&store_bond(&cfg, &mut slots, &bond(4, None))), 2);
    assert_eq!(slots_in_use(&slots), vec![1, 0, 2]);
    assert_eq!(stored_slot(&store_bond(&cfg, &mut slots, &bond(5, None))), 0);
    assert_eq!(slots_in_use(&slots), vec![1, 0, 2]);
    assert_eq!(bond_to_delete(&slots, 0).unwrap().addr[5], 5);
    assert_eq!(bond_to_delete(&slots, 1).unwrap().addr[5], 2);
}

#[test]
fn deleting_every_slot_in_use_leaves_none() {
    let cfg = all_events();
    let mut slots = empty_bond_slots();
    for i in 1u8..=3 {
        store_bond(&cfg, &mut slots, &bond(i, None));
    }
    bond_deleted(&cfg.callbacks, &mut slots, 0, true);
    store_bond(&cfg, &mut slots, &bond(4, None));
    let in_use = slots_in_use(&slots);
    assert_eq!(in_use, vec![1, 2, 0]);
    for index in in_use {
        assert_eq!(
            bond_deleted(&cfg.callbacks, &mut slots, index, true),
            vec![Emit::BondClear { index }, Emit::BondDeleted { index, status: 0 }]
        );
    }
    assert!(slots_in_use(&slots).is_empty());
}

#[test]
fn a_restored_slot_is_not_given_out_again() {
    let cfg = RuntimeCfg { bond_slot_count: 2, ..all_events() };
    let mut slots = empty_bond_slots();
    note_restored(&mut slots, bond(1, None).identity, 1);
    assert_eq!(stored_slot(&store_bond(&cfg, &mut slots, &bond(2, None))), 0);
    assert_eq!(stored_slot(&store_bond(&cfg, &mut slots, &bond(1, None))), 1);
}

#[test]
fn a_resolved_address_type_names_the_same_device() {
    let cfg = all_events();
    let mut slots = empty_bond_slots();
    let b = bond(1, Some(3));
    store_bond(&cfg, &mut slots, &b);
    let mut resolved = b;
    resolved.identity.kind = 3;
    assert_eq!(stored_slot(&store_bond(&cfg, &mut slots, &resolved)), 0);
    assert_eq!(slots_in_use(&slots), vec![0]);
    let mut public = b;
    public.identity.kind = 0;
    assert_eq!(stored_slot(&store_bond(&cfg, &mut slots, &public)), 1);
}

#[test]
fn restored_bonds_keep_their_slots() {
    let cfg = all_events();
    let mut slots = empty_bond_slots();
    note_restored(&mut slots, bond(1, None).identity, 2);
    assert_eq!(stored_slot(&store_bond(&cfg, &mut slots, &bond(1, None))), 2);
    for i in 2u8..8 {
        note_restored(&mut slots, bond(i, None).identity, i);
    }
    assert_eq!(slots_in_use(&slots), vec![2, 2, 3, 4]);
}

#[test]
fn bond_requests_become_actions() {
    let mut rt = runtime();
    assert_eq!(bond_step(&mut rt), BondAction::Idle);
    assert_eq!(runtime_ble_bond_enumerate(&mut rt), RUNTIME_BLE_OK);
    assert_eq!(bond_step(&mut rt), BondAction::Enumerate);
    assert_eq!(runtime_ble_bond_delete(&mut rt, 3), RUNTIME_BLE_OK);
    assert_eq!(bond_step(&mut rt), BondAction::Delete(3));
    assert_eq!(runtime_ble_bond_delete_all(&mut rt), RUNTIME_BLE_OK);
    assert_eq!(bond_step(&mut rt), BondAction::DeleteAll);
    assert_eq!(runtime_ble_set_io_capability(&mut rt, 5), RUNTIME_BLE_OK);
    assert_eq!(bond_step(&mut rt), BondAction::SetIoCapability(IoCapability::KeyboardDisplay));
    for (code, capability) in [
        (0u8, IoCapability::NoInputNoOutput),
        (1, IoCapability::DisplayOnly),
        (2, IoCapability::DisplayYesNo),
        (3, IoCapability::KeyboardOnly),
        (4, IoCapability::NoInputNoOutput),
        (5, IoCapability::KeyboardDisplay),
        (9, IoCapability::NoInputNoOutput),
    ] {
        assert_eq!(io_capability_from_c(code), capability);
    }
}

#[test]
fn bonds_are_enumerated_and_deleted() {
    let cfg = all_events();
    let mut slots = empty_bond_slots();
    store_bond(&cfg, &mut slots, &bond(1, None));
    store_bond(&cfg, &mut slots, &bond(2, Some(8)));
    let known = vec![bond(2, Some(8))];
    assert_eq!(
        report_bonds(&cfg.callbacks, &slots, &known),
        vec![
            Emit::Bond {
                index: 0,
                addr: [1, 2, 3, 4, 5, 1],
                addr_kind: 0,
                level: 0,
                key_len: 0,
                flags: 0,
            },
            Emit::Bond {
                index: 1,
                addr: [1, 2, 3, 4, 5, 2],
                addr_kind: 0,
                level: 2,
                key_len: 0,
                flags: 1,
            },
        ]
    );
    assert_eq!(bond_to_delete(&slots, 0), Some(bond(1, None).identity));
    assert_eq!(bond_to_delete(&slots, 3), None);
    assert_eq!(
        bond_deleted(&cfg.callbacks, &mut slots, 0, false),
        vec![Emit::BondDeleted { index: 0, status: -1 }]
    );
    assert_eq!(
        bond_deleted(&cfg.callbacks, &mut slots, 0, true),
        vec![Emit::BondClear { index: 0 }, Emit::BondDeleted { index: 0, status: 0 }]
    );
    assert_eq!(
        bond_deleted(&cfg.callbacks, &mut slots, 0, true),
        vec![Emit::BondDeleted { index: 0, status: -1 }]
    );
    assert_eq!(slots_in_use(&slots), vec![1]);
}

#[test]
fn link_state_reports() {
    let cb = all_events().callbacks;
    assert_eq!(emit_connected(&cb), vec![Emit::Connected]);
    assert_eq!(emit_disconnected(&cb), vec![Emit::Disconnected { reason: 0 }]);
    assert_eq!(emit_att_mtu(&cb, 247), vec![Emit::AttMtu { mtu: 247 }]);
    assert_eq!(emit_rssi(&cb, Some(-7)), vec![Emit::Rssi { rssi: -7 }]);
    assert!(emit_rssi(&cb, None).is_empty());
    assert_eq!(
        emit_phy(&cb, Some((PhyKind::Le1M, PhyKind::LeCoded))),
        vec![Emit::PhyUpdate { tx: 1, rx: 3 }]
    );
    assert!(emit_phy(&cb, None).is_empty());
    assert_eq!(
        emit_security_state(&cb, Some(SecurityLevel::EncryptedAuthenticated), true),
        vec![Emit::SecurityState { level: 2, key_len: 0, flags: 1 }]
    );
    assert_eq!(
        emit_security_state(&cb, None, false),
        vec![Emit::SecurityState { level: 0, key_len: 0, flags: 0 }]
    );
}

#[test]
fn the_reason_of_a_lost_link_is_logged() {
    assert_eq!(
        disconnect_reason_line(0x13),
        b"[link] disconnected reason=0x13\0".to_vec()
    );
    assert_eq!(
        disconnect_reason_line(0xaf),
        b"[link] disconnected reason=0xaf\0".to_vec()
    );
    assert_eq!(
        disconnect_reason_line(0x08),
        b"[link] disconnected reason=0x08\0".to_vec()
    );
}

#[test]
fn out_of_band_data() {
    let mut cfg = all_events();
    assert!(!wants_local_oob_data(&cfg));
    assert!(emit_local_oob_data(&cfg, [1; 16], [2; 16]).is_empty());
    cfg.security_oob_available = 1;
    assert_eq!(
        emit_local_oob_data(&cfg, [1; 16], [2; 16]),
        vec![Emit::OobLocalData { random: [1; 16], confirm: [2; 16] }]
    );
    assert!(load_oob_data(&cfg.callbacks, 1));
    assert!(!load_oob_data(&cfg.callbacks, 0));
    assert!(!load_oob_data(&RuntimeBleCallbacks::default(), 1));
}

#[test]
fn links_are_set_up_as_configured() {
    let cfg = RuntimeCfg {
        security_bondable: 2,
        security_request_on_connect: 1,
        ..Default::default()
    };
    assert_eq!(
        link_setup(&cfg),
        LinkSetup { bondable: true, oob_available: false, request_security: true }
    );
}

#[test]
fn the_mtu_is_reported_once() {
    let mut report = MtuReport::new(1000);
    assert!(!report.take(1399));
    assert!(report.take(1400));
    assert!(!report.take(2000));
}

#[test]
fn l2cap_packets_are_single_and_sent() {
    let cb = RuntimeBleCallbacks {
        on_l2cap_connected: true,
        on_l2cap_data: true,
        on_l2cap_disconnected: true,
        ..Default::default()
    };
    let mut rt = runtime();
    assert_eq!(runtime_ble_l2cap_send(&mut rt, None), RUNTIME_BLE_ERR_INVALID);
    assert_eq!(runtime_ble_l2cap_send(&mut rt, Some(&[])), RUNTIME_BLE_ERR_INVALID);
    assert_eq!(runtime_ble_l2cap_send(&mut rt, Some(&[1])), RUNTIME_BLE_OK);
    assert_eq!(l2cap_open(&mut rt, &cb), vec![Emit::L2capConnected]);
    assert_eq!(l2cap_step(&mut rt), PumpStep::Idle);
    assert_eq!(runtime_ble_l2cap_send(&mut rt, Some(&[2; 300])), RUNTIME_BLE_OK);
    assert_eq!(runtime_ble_l2cap_send(&mut rt, Some(&[3])), RUNTIME_BLE_ERR_NO_MEM);
    assert_eq!(l2cap_step(&mut rt), PumpStep::Send { data: vec![2; 244] });
    assert_eq!(runtime_ble_l2cap_send(&mut rt, Some(&[3])), RUNTIME_BLE_OK);
    assert_eq!(runtime_ble_l2cap_disconnect(&mut rt), RUNTIME_BLE_OK);
    assert_eq!(l2cap_step(&mut rt), PumpStep::Close);
    assert_eq!(l2cap_step(&mut rt), PumpStep::Idle);
    assert_eq!(on_l2cap_data(&cb, &[4]), vec![Emit::L2capData { data: vec![4] }]);
    assert_eq!(l2cap_closed(&cb), vec![Emit::L2capDisconnected]);
}

#[test]
fn a_lean_build_sends_full_packets() {
    let mut rt = Runtime::new(Build { central: false, lean: true, ..BUILD });
    assert_eq!(runtime_ble_l2cap_send(&mut rt, Some(&[2; 200])), RUNTIME_BLE_OK);
    assert_eq!(l2cap_step(&mut rt), PumpStep::Send { data: vec![2; 200] });
}

#[test]
fn a_build_without_channels_refuses_them() {
    let mut rt = Runtime::new(Build { l2cap: false, ..BUILD });
    assert_eq!(runtime_ble_l2cap_send(&mut rt, Some(&[1])), RUNTIME_BLE_ERR_INVALID);
    assert_eq!(runtime_ble_l2cap_disconnect(&mut rt), RUNTIME_BLE_ERR_INVALID);
    assert!(!rt.l2cap.pending);
    assert!(!rt.l2cap.disconnect);
}

#[test]
fn channels_are_set_up_as_configured() {
    let mut cfg = RuntimeCfg::default();
    assert!(!l2cap_enabled(&BUILD, &cfg));
    let open = plan_channel(&cfg);
    assert_eq!(open.mtu, None);
    assert_eq!(open.policy, None);
    cfg.l2cap_psm = 0x80;
    cfg.l2cap_mtu = 100;
    cfg.l2cap_mps = 50;
    cfg.l2cap_initial_credits = 7;
    cfg.l2cap_credit_policy_value = 3;
    assert!(l2cap_enabled(&BUILD, &cfg));
    assert!(!l2cap_enabled(&Build { central: false, l2cap: false, ..BUILD }, &cfg));
    let plan = plan_channel(&cfg);
    assert_eq!(plan.mtu, Some(100));
    assert_eq!(plan.mps, Some(50));
    assert_eq!(plan.initial_credits, Some(7));
    assert_eq!(plan.policy, Some(CreditPolicy::Every(3)));
    cfg.l2cap_credit_policy = 1;
    assert_eq!(plan_channel(&cfg).policy, Some(CreditPolicy::MinThreshold(3)));
}

#[test]
fn the_controller_has_what_is_left_in_or_configured() {
    let full = plan_controller(&BUILD, &RuntimeCfg::default(), 191);
    assert!(full.ext_adv && full.periodic_adv && full.le_2m_phy && full.le_coded_phy);
    assert!(full.dle && full.frame_space && full.subrating && full.extended_feature_set);
    assert!(full.central);
    assert_eq!(full.adv_buffer, 191);
    assert_eq!(full.pool, 24576);
    let mut cfg = RuntimeCfg {
        sdc_disable: SDC_DISABLE_EXT_ADV | SDC_DISABLE_PERIODIC_ADV | SDC_DISABLE_CODED_PHY,
        ..Default::default()
    };
    let trimmed = plan_controller(&NRF52, &cfg, 191);
    assert!(!trimmed.ext_adv && !trimmed.periodic_adv && !trimmed.le_coded_phy);
    assert!(trimmed.le_2m_phy && trimmed.dle);
    assert_eq!(trimmed.adv_buffer, 31);
    cfg.periodic_adv = 1;
    let kept = plan_controller(&NRF52, &cfg, 191);
    assert!(kept.ext_adv && kept.periodic_adv);
    cfg.periodic_adv = 0;
    cfg.adv_extended = 1;
    let ext = plan_controller(&NRF52, &cfg, 191);
    assert!(ext.ext_adv && !ext.periodic_adv);
    let lean = Build { central: false, l2cap: false, lean: true, ..BUILD };
    let small = plan_controller(&lean, &cfg, 191);
    assert!(!small.ext_adv && !small.le_coded_phy && !small.subrating && !small.frame_space);
    assert!(!small.extended_feature_set && small.le_2m_phy);
    assert_eq!(small.pool, 6144);
    let nrf52 = Build { family: Family::Nrf52, ..lean };
    assert!(plan_controller(&nrf52, &cfg, 191).extended_feature_set);
    assert_eq!(sdc_pool(&nrf52), 16384);
}

#[test]
fn controller_pools() {
    let peripheral = Build { central: false, l2cap: false, ..BUILD };
    assert_eq!(sdc_pool(&peripheral), 18432);
    assert_eq!(sdc_pool(&Build { family: Family::Nrf52, ..peripheral }), 16384);
    assert_eq!(sdc_pool(&BUILD), 24576);
    assert_eq!(sdc_pool(&NRF52), 20480);
}

#[test]
fn the_memory_of_the_controller_is_logged() {
    assert_eq!(
        required_mem_line(Some(5120), 6144),
        b"[runtime-ble] sdc mem: need 5120 have 6144\0".to_vec()
    );
    assert_eq!(
        required_mem_line(Some(0), 10),
        b"[runtime-ble] sdc mem: need 0 have 10\0".to_vec()
    );
    assert_eq!(
        required_mem_line(None, 6144),
        b"[runtime-ble] sdc required_memory query failed\0".to_vec()
    );
}

#[test]
fn roles() {
    let peripheral = Build { central: false, l2cap: false, ..BUILD };
    let cases = [
        (0u8, BUILD, true, false),
        (1, BUILD, false, true),
        (2, BUILD, true, true),
        (1, peripheral, true, false),
        (2, peripheral, true, false),
        (9, BUILD, true, false),
    ];
    for (role, build, server, central) in cases {
        let cfg = RuntimeCfg { role, ..Default::default() };
        assert_eq!(session_roles(&build, &cfg), Roles { server, central });
    }
}
