use runtime_ble::address::{addr_kind_to_c, c_addr_kind, device_address, peer_address, Address};
use runtime_ble::adv::{
    adv_tx_power, advertising_params, advertising_payload, build_adv_payload,
    connectable_advertisement, device_name, directed_peer, discoverability_flags, gap_appearance,
    nonconnectable_advertisement, AdvError, Advertisement, ChannelMap, FilterPolicy,
};
use runtime_ble::config::{
    Build, Family, RuntimeBleCallbacks, RuntimeBleCharDef, RuntimeBleDescDef,
    RuntimeBleServiceDef, RuntimeCfg,
};
use runtime_ble::emit::Emit;
use runtime_ble::gatt::{
    descriptor_is_writable, descriptor_permissions, index_gatt, map_permission, map_props,
    plan_gatt, props_to_c, uuid_from, AttPermissions, CharEntry, CharHandles, DescMeta, GattIndex,
    PermissionLevel,
};
use runtime_ble::runtime::{
    runtime_ble_indicate, runtime_ble_notify, runtime_ble_send, Runtime, RUNTIME_BLE_ERR_NO_MEM,
    RUNTIME_BLE_OK,
};
use runtime_ble::serve::{serve_step, ServeAction, ServeEvent};
use runtime_ble::server::{
    find_attribute, on_read, on_write, read_answer_len, tx_step, Attribute, ReadSource, TxAction,
};

const BUILD: Build = Build { family: Family::Nrf54l, central: false, l2cap: false, lean: false };

const LEAN: Build = Build { family: Family::Nrf54l, central: false, l2cap: false, lean: true };

#[test]
fn addresses() {
    assert_eq!(c_addr_kind(1), 0);
    assert_eq!(c_addr_kind(0), 1);
    assert_eq!(c_addr_kind(7), 1);
    assert_eq!(addr_kind_to_c(0), 1);
    assert_eq!(addr_kind_to_c(1), 0);
    assert_eq!(addr_kind_to_c(2), 0);
    assert_eq!(peer_address([1; 6], 1), Address { kind: 0, addr: [1; 6] });
    let cfg = RuntimeCfg { address: Some([5; 6]), ..Default::default() };
    assert_eq!(device_address(&cfg, [9; 6]), Address { kind: 1, addr: [5; 6] });
    assert_eq!(
        device_address(&RuntimeCfg::default(), [9; 6]),
        Address { kind: 1, addr: [9; 6] }
    );
}

#[test]
fn a_zero_configuration_advertises_the_defaults() {
    let cfg = RuntimeCfg::default();
    let mut adv: Vec<u8> = vec![2, 0x01, 0x06, 12, 0x09];
    adv.extend_from_slice(b"RUNTIME-BLE");
    assert_eq!(
        connectable_advertisement(&cfg),
        Ok(Advertisement::ConnectableScannable { adv, scan: vec![] })
    );
    let params = advertising_params(&cfg);
    assert_eq!(params.interval_min_ms, 30);
    assert_eq!(params.interval_max_ms, 60);
    assert_eq!(params.tx_power_dbm, 0);
    assert_eq!(params.channel_map, None);
    assert_eq!(params.filter_policy, FilterPolicy::Unfiltered);
    assert_eq!(params.accept, None);
}

#[test]
fn the_payload_holds_every_configured_structure_in_order() {
    let cfg = RuntimeCfg {
        manufacturer_id: 0xffff,
        adv_service_uuid: Some(vec![0x0a, 0x18]),
        adv_service_data_uuid: Some(vec![0xf0, 0xfe]),
        adv_service_data: Some(vec![0x01, 0x64]),
        appearance: 0x0540,
        adv_appearance: 1,
        adv_tx_power_dbm: -4,
        adv_tx_power_present: 1,
        ..Default::default()
    };
    let payload = build_adv_payload(&cfg, 0x06, &[], b"ab").unwrap();
    assert_eq!(
        payload,
        vec![
            2, 0x01, 0x06, 3, 0xff, 0xff, 0xff, 3, 0x03, 0x0a, 0x18, 5, 0x16, 0xf0, 0xfe, 0x01,
            0x64, 3, 0x19, 0x40, 0x05, 2, 0x0a, 0xfc, 3, 0x09, b'a', b'b',
        ]
    );
}

#[test]
fn a_long_name_is_shortened() {
    let name = [b'n'; 40];
    let payload = build_adv_payload(&RuntimeCfg::default(), 0x06, &[], &name).unwrap();
    assert_eq!(payload.len(), 31);
    assert_eq!(payload[3], 27);
    assert_eq!(payload[4], 0x08);
    assert!(payload[5..].iter().all(|b| *b == b'n'));
}

#[test]
fn a_payload_that_does_not_fit_is_an_error() {
    let cfg = RuntimeCfg { manufacturer_id: 1, ..Default::default() };
    assert_eq!(build_adv_payload(&cfg, 0x06, &[0; 28], b"a"), None);
    assert_eq!(build_adv_payload(&cfg, 0x06, &[0; 24], b"a"), None);
    let raw = RuntimeCfg { adv_data: Some(vec![0; 32]), ..Default::default() };
    assert_eq!(connectable_advertisement(&raw), Err(AdvError::InvalidValue));
    assert_eq!(nonconnectable_advertisement(&raw), Err(AdvError::InvalidValue));
}

#[test]
fn a_raw_payload_is_sent_as_it_is() {
    let cfg = RuntimeCfg {
        adv_data: Some(vec![1, 2, 3]),
        manufacturer_id: 9,
        ..Default::default()
    };
    assert_eq!(advertising_payload(&cfg, 0, &[9; 60], b"x"), Some(vec![1, 2, 3]));
}

#[test]
fn directed_advertising_names_the_peer() {
    let cfg = RuntimeCfg {
        directed_peer_address: Some([4; 6]),
        directed_peer_address_kind: 1,
        directed_high_duty: 1,
        adv_data: Some(vec![0; 99]),
        ..Default::default()
    };
    let peer = Address { kind: 0, addr: [4; 6] };
    assert_eq!(directed_peer(&cfg), Some(peer));
    assert_eq!(
        connectable_advertisement(&cfg),
        Ok(Advertisement::Directed { peer, high_duty: true })
    );
}

#[test]
fn a_broadcaster_is_scannable_with_a_scan_response() {
    let mut cfg = RuntimeCfg { adv_data: Some(vec![1]), ..Default::default() };
    assert_eq!(
        nonconnectable_advertisement(&cfg),
        Ok(Advertisement::NonconnectableNonscannable { adv: vec![1] })
    );
    cfg.scan_response_data = Some(vec![5; 40]);
    assert_eq!(
        nonconnectable_advertisement(&cfg),
        Ok(Advertisement::NonconnectableScannable { adv: vec![1], scan: vec![5; 31] })
    );
}

#[test]
fn advertising_parameters() {
    let cfg = RuntimeCfg {
        adv_interval_min_ms: 100,
        adv_interval_max_ms: 200,
        adv_channel_map: 0xfd,
        adv_tx_power_present: 1,
        adv_tx_power_dbm: 8,
        adv_filter_policy: 2,
        adv_accept_address: Some([6; 6]),
        adv_accept_address_kind: 0,
        ..Default::default()
    };
    let params = advertising_params(&cfg);
    assert_eq!(params.interval_min_ms, 100);
    assert_eq!(params.interval_max_ms, 200);
    assert_eq!(params.channel_map, Some(ChannelMap { ch37: true, ch38: false, ch39: true }));
    assert_eq!(params.tx_power_dbm, 8);
    assert_eq!(params.filter_policy, FilterPolicy::FilterConn);
    assert_eq!(params.accept, Some(Address { kind: 1, addr: [6; 6] }));
    for (dbm, sent) in [(-40i8, -40i8), (-39, 0), (1, 0), (9, 0), (20, 20), (-128, 0)] {
        let cfg =
            RuntimeCfg { adv_tx_power_present: 1, adv_tx_power_dbm: dbm, ..Default::default() };
        assert_eq!(adv_tx_power(&cfg), sent);
    }
}

#[test]
fn names_flags_and_appearance() {
    assert_eq!(device_name(&RuntimeCfg::default()), b"RUNTIME-BLE".to_vec());
    let named = RuntimeCfg { device_name: Some("héllo".as_bytes().to_vec()), ..Default::default() };
    assert_eq!(device_name(&named), "héllo".as_bytes().to_vec());
    let broken = RuntimeCfg { device_name: Some(vec![0xc3, 0x28]), ..Default::default() };
    assert_eq!(device_name(&broken), b"RUNTIME-BLE".to_vec());
    for (d, flags) in [(0u8, 0x06u8), (1, 0x05), (2, 0x04), (3, 0x06)] {
        let cfg = RuntimeCfg { discoverable: d, ..Default::default() };
        assert_eq!(discoverability_flags(&cfg), flags);
    }
    assert_eq!(gap_appearance(0), 0x0780);
    assert_eq!(gap_appearance(0x0540), 0x0540);
}

#[test]
fn properties_map_both_ways() {
    assert_eq!(map_props(0x01), 0x02);
    assert_eq!(map_props(0x02), 0x08);
    assert_eq!(map_props(0x04), 0x04);
    assert_eq!(map_props(0x08), 0x10);
    assert_eq!(map_props(0x10), 0x20);
    assert_eq!(map_props(0xffe0), 0);
    for props in 0u16..32 {
        assert_eq!(props_to_c(map_props(props)), props);
    }
    assert_eq!(props_to_c(0xc1), 0);
}

#[test]
fn permissions() {
    assert_eq!(map_permission(0x03, 0x01, 0x02), Some(PermissionLevel::AuthenticationRequired));
    assert_eq!(map_permission(0x01, 0x01, 0x02), Some(PermissionLevel::EncryptionRequired));
    assert_eq!(map_permission(0x04, 0x01, 0x02), None);
    assert_eq!(
        descriptor_permissions(0),
        AttPermissions { read: PermissionLevel::Allowed, write: PermissionLevel::NotAllowed }
    );
    assert_eq!(
        descriptor_permissions(0x4a),
        AttPermissions {
            read: PermissionLevel::AuthenticationRequired,
            write: PermissionLevel::Allowed
        }
    );
    assert_eq!(descriptor_permissions(0x04).write, PermissionLevel::EncryptionRequired);
    assert!(!descriptor_is_writable(0x33));
    assert!(descriptor_is_writable(0x04));
    assert!(descriptor_is_writable(0x08));
    assert!(descriptor_is_writable(0x40));
}

#[test]
fn uuids() {
    assert_eq!(uuid_from(&Some(vec![0x01, 0x29])), vec![0x01, 0x29]);
    assert_eq!(uuid_from(&Some(vec![7; 16])), vec![7; 16]);
    assert_eq!(uuid_from(&Some(vec![7; 3])), vec![0, 0]);
    assert_eq!(uuid_from(&None), vec![0, 0]);
}

fn nus_index() -> GattIndex {
    let plan = plan_gatt(&BUILD, &RuntimeCfg::default());
    assert!(plan.builtin);
    assert_eq!(plan.services.len(), 1);
    assert_eq!(plan.services[0].uuid[12], 1);
    assert_eq!(plan.services[0].chars.len(), 2);
    assert_eq!(plan.services[0].chars[0].ble_props, 0x0c);
    assert_eq!(plan.services[0].chars[0].uuid[12], 2);
    assert_eq!(plan.services[0].chars[1].ble_props, 0x10);
    assert_eq!(plan.services[0].chars[1].uuid[12], 3);
    let handles = vec![
        CharHandles { value: 9, cccd: None, descriptors: vec![] },
        CharHandles { value: 11, cccd: Some(12), descriptors: vec![] },
    ];
    index_gatt(&plan, &handles).unwrap()
}

#[test]
fn without_services_the_table_is_the_uart_service() {
    let index = nus_index();
    assert_eq!(index.nus_rx, Some(0));
    assert_eq!(index.nus_tx, Some(1));
    assert_eq!(index.props, vec![0x06, 0x08]);
}

fn declared() -> RuntimeCfg {
    let descriptor = |permissions: u16, len: usize| RuntimeBleDescDef {
        uuid: Some(vec![0x01, 0x29]),
        value: Some(vec![b'd'; len]),
        permissions,
    };
    RuntimeCfg {
        services: Some(vec![
            RuntimeBleServiceDef {
                uuid: Some(vec![0x0a, 0x18]),
                chars: Some(vec![RuntimeBleCharDef {
                    uuid: Some(vec![0x29, 0x2a]),
                    props: 0x03,
                    permissions: 0x05,
                    ..Default::default()
                }]),
            },
            RuntimeBleServiceDef {
                uuid: Some(vec![8; 16]),
                chars: Some(vec![
                    RuntimeBleCharDef {
                        uuid: Some(vec![9; 16]),
                        props: 0x18,
                        permissions: 0x20,
                        descriptors: Some(vec![descriptor(0, 300), descriptor(0x40, 300)]),
                        ..Default::default()
                    },
                    RuntimeBleCharDef {
                        uuid: Some(vec![10; 16]),
                        props: 0x10,
                        ..Default::default()
                    },
                ]),
            },
        ]),
        ..Default::default()
    }
}

fn declared_index() -> GattIndex {
    let plan = plan_gatt(&BUILD, &declared());
    let handles = vec![
        CharHandles { value: 9, cccd: None, descriptors: vec![] },
        CharHandles { value: 12, cccd: Some(13), descriptors: vec![14, 15] },
        CharHandles { value: 17, cccd: Some(18), descriptors: vec![] },
    ];
    index_gatt(&plan, &handles).unwrap()
}

#[test]
fn declared_services_become_the_table() {
    let plan = plan_gatt(&BUILD, &declared());
    assert!(!plan.builtin);
    assert_eq!(plan.services.len(), 2);
    let first = &plan.services[0].chars[0];
    assert_eq!(first.uuid, vec![0x29, 0x2a]);
    assert_eq!(first.ble_props, 0x0a);
    assert_eq!(first.read, Some(PermissionLevel::EncryptionRequired));
    assert_eq!(first.write, Some(PermissionLevel::EncryptionRequired));
    assert_eq!(first.cccd, None);
    let second = &plan.services[1].chars[0];
    assert_eq!(second.cccd, Some(PermissionLevel::AuthenticationRequired));
    assert!(!second.descriptors[0].writable);
    assert_eq!(second.descriptors[0].value.len(), 300);
    assert!(second.descriptors[1].writable);
    assert_eq!(second.descriptors[1].value.len(), 244);
    let lean = plan_gatt(&LEAN, &declared());
    assert_eq!(lean.services[1].chars[0].descriptors[1].value.len(), 128);
}

#[test]
fn the_index_follows_the_handles() {
    let index = declared_index();
    assert_eq!(
        index.chars,
        vec![
            CharEntry { handle: 9, cccd: None },
            CharEntry { handle: 12, cccd: Some(13) },
            CharEntry { handle: 17, cccd: Some(18) },
        ]
    );
    assert_eq!(index.props, vec![0x03, 0x18, 0x10]);
    assert_eq!(
        index.descriptors,
        vec![
            DescMeta { handle: 14, chr: 1, desc: 0 },
            DescMeta { handle: 15, chr: 1, desc: 1 },
        ]
    );
    assert_eq!(index.nus_rx, None);
    let plan = plan_gatt(&BUILD, &declared());
    let few = vec![CharHandles { value: 9, cccd: None, descriptors: vec![] }];
    assert_eq!(index_gatt(&plan, &few), None);
    let wrong = vec![
        CharHandles { value: 9, cccd: None, descriptors: vec![1] },
        CharHandles { value: 12, cccd: Some(13), descriptors: vec![14, 15] },
        CharHandles { value: 17, cccd: Some(18), descriptors: vec![] },
    ];
    assert_eq!(index_gatt(&plan, &wrong), None);
    assert_eq!(index_gatt(&plan, &vec![]), None);
}

fn server_callbacks() -> RuntimeBleCallbacks {
    RuntimeBleCallbacks {
        on_data: true,
        on_write: true,
        on_write_ext: true,
        on_subscription: true,
        on_descriptor_write: true,
        on_descriptor_write_ext: true,
        on_read_value: true,
        on_descriptor_read_value: true,
        ..Default::default()
    }
}

#[test]
fn writes_reach_the_callback_of_their_attribute() {
    let cb = server_callbacks();
    let nus = nus_index();
    assert_eq!(
        on_write(&BUILD, &nus, &cb, 9, 0, &[1, 2, 3]),
        vec![Emit::Data { data: vec![1, 2, 3] }]
    );
    let index = declared_index();
    assert_eq!(
        on_write(&BUILD, &index, &cb, 9, 4, &[5; 300]),
        vec![
            Emit::Write { chr: 0, data: vec![5; 244] },
            Emit::WriteExt { chr: 0, offset: 4, data: vec![5; 244] },
        ]
    );
    assert_eq!(
        on_write(&LEAN, &index, &cb, 9, 0, &[5; 300])[0],
        Emit::Write { chr: 0, data: vec![5; 128] }
    );
    assert_eq!(
        on_write(&BUILD, &index, &cb, 15, 2, &[6]),
        vec![
            Emit::DescriptorWrite { handle: 15, chr: 1, desc: 1, data: vec![6] },
            Emit::DescriptorWriteExt { handle: 15, chr: 1, desc: 1, offset: 2, data: vec![6] },
        ]
    );
    assert!(on_write(&BUILD, &index, &cb, 99, 0, &[6]).is_empty());
    let none = RuntimeBleCallbacks::default();
    assert!(on_write(&BUILD, &index, &none, 9, 0, &[6]).is_empty());
}

#[test]
fn subscriptions_report_both_bits() {
    let cb = server_callbacks();
    let index = declared_index();
    let cases: Vec<(Vec<u8>, u8, u8)> = vec![
        (vec![0, 0], 0, 0),
        (vec![1, 0], 1, 0),
        (vec![2, 0], 0, 1),
        (vec![3, 0], 1, 1),
        (vec![0, 3], 0, 0),
        (vec![1], 0, 0),
    ];
    for (data, notify, indicate) in cases {
        assert_eq!(
            on_write(&BUILD, &index, &cb, 13, 0, &data),
            vec![Emit::Subscription { chr: 1, notify, indicate }]
        );
    }
}

#[test]
fn handles_are_told_apart() {
    let index = declared_index();
    assert_eq!(find_attribute(&index, 12), Attribute::Value(1));
    assert_eq!(find_attribute(&index, 18), Attribute::Cccd(2));
    assert_eq!(
        find_attribute(&index, 14),
        Attribute::Descriptor(DescMeta { handle: 14, chr: 1, desc: 0 })
    );
    assert_eq!(find_attribute(&index, 1), Attribute::Other);
}

#[test]
fn reads_are_answered_by_the_application_where_it_takes_them() {
    let cb = server_callbacks();
    let index = declared_index();
    assert_eq!(on_read(&index, &cb, 17), ReadSource::Characteristic(2));
    assert_eq!(
        on_read(&index, &cb, 14),
        ReadSource::Descriptor(DescMeta { handle: 14, chr: 1, desc: 0 })
    );
    assert_eq!(on_read(&index, &cb, 13), ReadSource::Table);
    let none = RuntimeBleCallbacks::default();
    assert_eq!(on_read(&index, &none, 17), ReadSource::Table);
    assert_eq!(on_read(&index, &none, 14), ReadSource::Table);
    assert_eq!(read_answer_len(&BUILD, 10), 10);
    assert_eq!(read_answer_len(&BUILD, 1000), 244);
    assert_eq!(read_answer_len(&LEAN, 1000), 128);
}

#[test]
fn only_the_smallest_peripheral_build_has_short_values() {
    assert_eq!(BUILD.value_len(), 244);
    assert_eq!(LEAN.value_len(), 128);
    assert_eq!(Build { family: Family::Nrf52, ..LEAN }.value_len(), 244);
    assert_eq!(Build { central: true, ..LEAN }.value_len(), 244);
    assert_eq!(Build { l2cap: true, ..LEAN }.value_len(), 244);
    let mut rt = Runtime::new(LEAN);
    assert_eq!(runtime_ble_send(&mut rt, Some(&[4; 300])), RUNTIME_BLE_OK);
    let sent = tx_step(&mut rt, &nus_index());
    assert_eq!(sent, TxAction::Notify { chr: 1, data: vec![4; 128] });
}

#[test]
fn sent_bytes_are_notified_on_the_uart_service() {
    let mut rt = Runtime::new(BUILD);
    let index = nus_index();
    assert_eq!(tx_step(&mut rt, &index), TxAction::Idle);
    assert_eq!(runtime_ble_send(&mut rt, Some(&[4; 300])), RUNTIME_BLE_OK);
    assert_eq!(runtime_ble_send(&mut rt, Some(&[5])), RUNTIME_BLE_ERR_NO_MEM);
    assert_eq!(tx_step(&mut rt, &index), TxAction::Notify { chr: 1, data: vec![4; 244] });
    assert_eq!(runtime_ble_send(&mut rt, Some(&[5])), RUNTIME_BLE_OK);
    assert_eq!(tx_step(&mut rt, &declared_index()), TxAction::Dropped);
}

#[test]
fn notify_falls_back_to_an_indication() {
    let mut rt = Runtime::new(BUILD);
    let index = declared_index();
    assert_eq!(runtime_ble_notify(&mut rt, 1, Some(&[1])), RUNTIME_BLE_OK);
    assert_eq!(tx_step(&mut rt, &index), TxAction::Notify { chr: 1, data: vec![1] });
    assert_eq!(runtime_ble_notify(&mut rt, 2, Some(&[2])), RUNTIME_BLE_OK);
    assert_eq!(tx_step(&mut rt, &index), TxAction::Indicate { chr: 2, data: vec![2] });
    assert_eq!(runtime_ble_indicate(&mut rt, 1, Some(&[3])), RUNTIME_BLE_OK);
    assert_eq!(tx_step(&mut rt, &index), TxAction::Indicate { chr: 1, data: vec![3] });
    assert_eq!(runtime_ble_indicate(&mut rt, 0, Some(&[4])), RUNTIME_BLE_OK);
    assert_eq!(tx_step(&mut rt, &index), TxAction::Dropped);
}

#[test]
fn test_notify_unknown_characteristic() {
    let mut rt = Runtime::new(BUILD);
    assert_eq!(runtime_ble_notify(&mut rt, 200, Some(&[1])), RUNTIME_BLE_OK);
    assert_eq!(tx_step(&mut rt, &nus_index()), TxAction::Dropped);
    assert!(!rt.send.pending);
}

#[test]
fn the_server_side_advertises_and_serves() {
    let mut cfg = RuntimeCfg { adv_data: Some(vec![1]), ..Default::default() };
    cfg.callbacks.on_connected = true;
    cfg.callbacks.on_disconnected = true;
    let open = || Advertisement::ConnectableScannable { adv: vec![1], scan: vec![] };
    assert_eq!(
        serve_step(&cfg, false, ServeEvent::Ready),
        (vec![], ServeAction::Accept(open()))
    );
    assert_eq!(
        serve_step(&cfg, false, ServeEvent::AdvertiseFailed),
        (vec![], ServeAction::Pause)
    );
    assert_eq!(
        serve_step(&cfg, false, ServeEvent::LinkUp),
        (vec![Emit::Connected], ServeAction::ServeLink)
    );
    assert_eq!(
        serve_step(&cfg, true, ServeEvent::LinkDown),
        (vec![Emit::Disconnected { reason: 0 }], ServeAction::Accept(open()))
    );
    cfg.nonconnectable = 1;
    assert_eq!(
        serve_step(&cfg, false, ServeEvent::Ready),
        (
            vec![],
            ServeAction::Broadcast(Advertisement::NonconnectableNonscannable { adv: vec![1] })
        )
    );
    assert_eq!(serve_step(&cfg, true, ServeEvent::Ready), (vec![], ServeAction::Stop));
    assert_eq!(serve_step(&cfg, false, ServeEvent::BroadcastEnded), (vec![], ServeAction::Stop));
    cfg.adv_data = Some(vec![0; 40]);
    assert_eq!(serve_step(&cfg, false, ServeEvent::Ready), (vec![], ServeAction::Pause));
}

#[test]
fn served_links_are_reported_in_turn() {
    let mut cfg = RuntimeCfg::default();
    cfg.callbacks.on_connected = true;
    cfg.callbacks.on_disconnected = true;
    let mut told: Vec<Emit<Vec<u8>>> = Vec::new();
    for event in [
        ServeEvent::Ready,
        ServeEvent::AdvertiseFailed,
        ServeEvent::Ready,
        ServeEvent::LinkUp,
        ServeEvent::LinkDown,
        ServeEvent::LinkUp,
    ] {
        told.extend(serve_step(&cfg, false, event).0);
    }
    assert_eq!(
        told,
        vec![Emit::Connected, Emit::Disconnected { reason: 0 }, Emit::Connected]
    );
}
