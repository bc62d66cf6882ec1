//! Configuration handed over by the application, and the flat copy that a
//! session reads.
//!
//! A buffer that the application may leave out is an `Option`: `None` is the
//! null pointer of the C interface, `Some` the bytes behind the pointer. A
//! callback is a flag that says whether the application installed one.

use vstd::prelude::*;

verus! {

/// Version of the configuration layout that this library accepts.
pub const RUNTIME_BLE_ABI_VERSION: u32 = 1;

/// Role value: peripheral (advertise and serve a GATT).
pub const RUNTIME_BLE_ROLE_PERIPHERAL: u8 = 0;

/// Role value: central (scan, connect and run a GATT client).
pub const RUNTIME_BLE_ROLE_CENTRAL: u8 = 1;

/// Role value: peripheral and central at the same time, on two links.
pub const RUNTIME_BLE_ROLE_DUAL: u8 = 2;

/// A family of chips.
#[derive(Clone, Copy, Debug, PartialEq, Eq, Structural)]
pub enum Family {
    Nrf54l,
    Nrf52,
}

/// The chips that this build of the library is for, and which optional parts
/// it contains.
#[derive(Clone, Copy, Debug, PartialEq, Eq, Structural)]
pub struct Build {
    pub family: Family,
    /// Central role: scanning, connecting, GATT client.
    pub central: bool,
    /// L2CAP connection-oriented channels.
    pub l2cap: bool,
    /// Smallest controller: no extended or periodic advertising, no coded
    /// PHY, no subrating, no frame spacing. Only the nRF54L family has it.
    pub lean: bool,
}

/// Length of the buffer behind a characteristic value, and the most bytes that
/// one L2CAP packet, client read or client write carries.
pub const VALUE_LEN: usize = 244;

/// Length of the buffer behind a characteristic value in the smallest
/// peripheral build.
pub const LEAN_VALUE_LEN: usize = 128;

impl Build {
    /// The controller is the smallest one of a family that has one.
    pub open spec fn smallest(self) -> bool {
        self.family is Nrf54l && self.lean
    }

    /// Length of the buffer behind every characteristic value of the server,
    /// and the most bytes that one notification, read or write of it carries.
    /// Builds with the central role or L2CAP channels have full buffers.
    pub open spec fn cap(self) -> usize {
        if self.smallest() && !self.central && !self.l2cap {
            LEAN_VALUE_LEN
        } else {
            VALUE_LEN
        }
    }

    /// Whether the controller is the smallest one of a family that has one.
    pub fn is_smallest(&self) -> (r: bool)
        ensures
            r == self.smallest(),
    {
        match self.family {
            Family::Nrf54l => self.lean,
            Family::Nrf52 => false,
        }
    }

    /// Length of the buffer behind every characteristic value of the server,
    /// and the most bytes that one notification, read or write of it carries.
    pub fn value_len(&self) -> (r: usize)
        ensures
            r == self.cap(),
    {
        if self.is_smallest() && !self.central && !self.l2cap {
            LEAN_VALUE_LEN
        } else {
            VALUE_LEN
        }
    }
}

/// Which callbacks the application installed.
#[derive(Clone, Copy, Debug, Default, PartialEq, Eq, Structural)]
pub struct RuntimeBleCallbacks {
    pub on_connected: bool,
    pub on_disconnected: bool,
    pub on_data: bool,
    pub on_write: bool,
    pub on_read_value: bool,
    pub on_scan_result: bool,
    pub on_scan_result_ext: bool,
    pub on_scan_result_meta: bool,
    pub on_service: bool,
    pub on_discovered: bool,
    pub on_descriptor: bool,
    pub on_read: bool,
    pub on_notification: bool,
    pub on_subscription: bool,
    pub on_conn_params: bool,
    pub on_phy_update: bool,
    pub on_data_length_update: bool,
    pub on_att_mtu: bool,
    pub on_frame_space: bool,
    pub on_connection_rate: bool,
    pub on_rssi: bool,
    pub on_security_event: bool,
    pub on_bond_load: bool,
    pub on_bond_store: bool,
    pub on_bond: bool,
    pub on_bond_deleted: bool,
    pub on_oob_request: bool,
    pub on_oob_local_data: bool,
    pub on_log: bool,
    pub on_l2cap_connected: bool,
    pub on_l2cap_data: bool,
    pub on_l2cap_disconnected: bool,
    pub on_client_status: bool,
    pub on_descriptor_write: bool,
    pub on_descriptor_read_value: bool,
    pub on_security_state: bool,
    pub on_write_ext: bool,
    pub on_descriptor_write_ext: bool,
}

/// One descriptor of a user-defined characteristic.
#[derive(Clone, Debug, Default)]
pub struct RuntimeBleDescDef {
    pub uuid: Option<Vec<u8>>,
    pub value: Option<Vec<u8>>,
    pub permissions: u16,
}

/// One user-defined characteristic.
#[derive(Clone, Debug, Default)]
pub struct RuntimeBleCharDef {
    pub uuid: Option<Vec<u8>>,
    pub props: u16,
    pub max_len: u16,
    pub permissions: u16,
    pub descriptors: Option<Vec<RuntimeBleDescDef>>,
}

/// One user-defined service and its characteristics.
#[derive(Clone, Debug, Default)]
pub struct RuntimeBleServiceDef {
    pub uuid: Option<Vec<u8>>,
    pub chars: Option<Vec<RuntimeBleCharDef>>,
}

/// Advertising and GAP settings. A value with every field zero or absent is a
/// sensible default: connectable, general-discoverable, an interval of
/// 30 to 60 ms.
#[derive(Clone, Debug, Default)]
pub struct RuntimeBleAdv {
    pub data: Option<Vec<u8>>,
    pub manufacturer_id: u16,
    pub manufacturer_data: Option<Vec<u8>>,
    pub service_uuid: Option<Vec<u8>>,
    pub service_data_uuid: Option<Vec<u8>>,
    pub service_data: Option<Vec<u8>>,
    pub appearance: u16,
    pub appearance_present: u8,
    pub tx_power_dbm: i8,
    pub tx_power_present: u8,
    pub scan_response_data: Option<Vec<u8>>,
    pub nonconnectable: u8,
    pub interval_min_ms: u16,
    pub interval_max_ms: u16,
    pub channel_map: u8,
    pub filter_policy: u8,
    pub accept_address: Option<[u8; 6]>,
    pub accept_address_kind: u8,
    pub discoverable: u8,
    pub directed_peer_address: Option<[u8; 6]>,
    pub directed_peer_address_kind: u8,
    pub directed_high_duty: u8,
    pub extended: u8,
    pub primary_phy: u8,
    pub secondary_phy: u8,
    pub periodic: u8,
    pub periodic_interval_min_ms: u16,
    pub periodic_interval_max_ms: u16,
    pub periodic_data: Option<Vec<u8>>,
    pub periodic_include_tx_power: u8,
}

/// Settings of the central role.
#[derive(Clone, Copy, Debug, Default)]
pub struct RuntimeBleCentral {
    pub peer_address: Option<[u8; 6]>,
    pub peer_address_kind: u8,
    pub conn_min_interval_ms: u16,
    pub conn_max_interval_ms: u16,
    pub conn_latency: u16,
    pub conn_timeout_ms: u16,
}

/// Settings of L2CAP connection-oriented channels.
#[derive(Clone, Copy, Debug, Default)]
pub struct RuntimeBleL2cap {
    pub psm: u16,
    pub mtu: u16,
    pub mps: u16,
    pub initial_credits: u16,
    pub credit_policy: u8,
    pub credit_policy_value: u16,
}

/// Settings of the Security Manager.
#[derive(Clone, Copy, Debug, Default)]
pub struct RuntimeBleSecurity {
    pub bondable: u8,
    pub request_on_connect: u8,
    pub oob_available: u8,
    pub io_capability: u8,
    pub bond_slot_count: u8,
}

/// The configuration that the application passes to `runtime_ble_init`.
#[derive(Clone, Debug, Default)]
pub struct RuntimeBleConfig {
    /// Must equal `RUNTIME_BLE_ABI_VERSION`.
    pub abi_version: u32,
    /// Device name up to, and without, its terminating NUL.
    pub device_name: Option<Vec<u8>>,
    /// Custom static-random address; `None` takes the one of the device.
    pub address: Option<[u8; 6]>,
    /// One of `RUNTIME_BLE_ROLE_*`.
    pub role: u8,
    pub adv: RuntimeBleAdv,
    pub central: RuntimeBleCentral,
    pub l2cap: RuntimeBleL2cap,
    pub security: RuntimeBleSecurity,
    /// User-defined GATT; none or empty gives the built-in Nordic UART Service.
    pub services: Option<Vec<RuntimeBleServiceDef>>,
    pub sdc_disable: u32,
    pub callbacks: RuntimeBleCallbacks,
}

/// The configuration as a session reads it, captured at init.
#[derive(Clone, Debug, Default)]
pub struct RuntimeCfg {
    pub device_name: Option<Vec<u8>>,
    pub adv_data: Option<Vec<u8>>,
    pub manufacturer_id: u16,
    pub manufacturer_data: Option<Vec<u8>>,
    pub adv_service_uuid: Option<Vec<u8>>,
    pub adv_service_data_uuid: Option<Vec<u8>>,
    pub adv_service_data: Option<Vec<u8>>,
    pub appearance: u16,
    pub adv_appearance: u8,
    pub adv_tx_power_dbm: i8,
    pub adv_tx_power_present: u8,
    pub scan_response_data: Option<Vec<u8>>,
    pub nonconnectable: u8,
    pub adv_interval_min_ms: u16,
    pub adv_interval_max_ms: u16,
    pub adv_channel_map: u8,
    pub adv_filter_policy: u8,
    pub adv_accept_address: Option<[u8; 6]>,
    pub adv_accept_address_kind: u8,
    pub discoverable: u8,
    pub address: Option<[u8; 6]>,
    pub directed_peer_address: Option<[u8; 6]>,
    pub directed_peer_address_kind: u8,
    pub directed_high_duty: u8,
    pub adv_extended: u8,
    pub adv_primary_phy: u8,
    pub adv_secondary_phy: u8,
    pub periodic_adv: u8,
    pub periodic_adv_interval_min_ms: u16,
    pub periodic_adv_interval_max_ms: u16,
    pub periodic_adv_data: Option<Vec<u8>>,
    pub periodic_adv_include_tx_power: u8,
    pub services: Option<Vec<RuntimeBleServiceDef>>,
    pub role: u8,
    pub peer_address: Option<[u8; 6]>,
    pub peer_address_kind: u8,
    pub central_conn_min_interval_ms: u16,
    pub central_conn_max_interval_ms: u16,
    pub central_conn_latency: u16,
    pub central_conn_timeout_ms: u16,
    pub l2cap_psm: u16,
    pub l2cap_mtu: u16,
    pub l2cap_mps: u16,
    pub l2cap_initial_credits: u16,
    pub l2cap_credit_policy: u8,
    pub l2cap_credit_policy_value: u16,
    pub security_bondable: u8,
    pub security_request_on_connect: u8,
    pub security_oob_available: u8,
    pub security_io_capability: u8,
    pub bond_slot_count: u8,
    pub sdc_disable: u32,
    pub callbacks: RuntimeBleCallbacks,
}

/// The services of a configuration; none where the application gave none.
pub open spec fn service_defs(
    services: Option<Vec<RuntimeBleServiceDef>>,
) -> Seq<RuntimeBleServiceDef> {
    match services {
        Some(s) => s@,
        None => Seq::empty(),
    }
}

/// The characteristics of a service; none where the application gave none.
pub open spec fn char_defs(service: RuntimeBleServiceDef) -> Seq<RuntimeBleCharDef> {
    match service.chars {
        Some(c) => c@,
        None => Seq::empty(),
    }
}

/// The descriptors of a characteristic; none where the application gave none.
pub open spec fn desc_defs(chr: RuntimeBleCharDef) -> Seq<RuntimeBleDescDef> {
    match chr.descriptors {
        Some(d) => d@,
        None => Seq::empty(),
    }
}

/// Services and characteristics are counted in one byte each.
pub open spec fn counts_fit(services: Option<Vec<RuntimeBleServiceDef>>) -> bool {
    &&& service_defs(services).len() <= u8::MAX
    &&& forall|i: int|
        0 <= i < service_defs(services).len() ==> #[trigger] char_defs(
            service_defs(services)[i],
        ).len() <= u8::MAX
}

impl RuntimeBleConfig {
    /// The element counts are those that the one-byte count fields can hold.
    pub open spec fn wf(self) -> bool {
        counts_fit(self.services)
    }

    /// The values that `runtime_ble_init` accepts, layout version aside.
    pub open spec fn acceptable(self) -> bool {
        &&& self.l2cap.credit_policy <= 1
        &&& (self.l2cap.mtu == 0 || self.l2cap.mtu >= 23)
        &&& (self.l2cap.mps == 0 || self.l2cap.mps >= 23)
        &&& self.adv.filter_policy <= 3
        &&& self.adv.extended <= 1
        &&& self.adv.primary_phy <= 3
        &&& self.adv.secondary_phy <= 3
        &&& self.adv.periodic <= 1
        &&& (self.adv.periodic != 0 ==> self.adv.extended != 0 && self.adv.nonconnectable != 0)
        &&& (self.adv.filter_policy != 0 ==> self.adv.accept_address is Some)
    }

    /// Whether `runtime_ble_init` accepts the values, layout version aside.
    pub fn is_acceptable(&self) -> (r: bool)
        ensures
            r == self.acceptable(),
    {
        !(self.l2cap.credit_policy > 1 || (self.l2cap.mtu != 0 && self.l2cap.mtu < 23) || (
        self.l2cap.mps != 0 && self.l2cap.mps < 23) || self.adv.filter_policy > 3
            || self.adv.extended > 1 || self.adv.primary_phy > 3 || self.adv.secondary_phy > 3
            || self.adv.periodic > 1 || (self.adv.periodic != 0 && (self.adv.extended == 0
            || self.adv.nonconnectable == 0)) || (self.adv.filter_policy != 0
            && self.adv.accept_address.is_none()))
    }

    /// The flat copy that a session reads: every field of every group, under
    /// its flat name.
    pub open spec fn flat(self) -> RuntimeCfg {
        RuntimeCfg {
            device_name: self.device_name,
            adv_data: self.adv.data,
            manufacturer_id: self.adv.manufacturer_id,
            manufacturer_data: self.adv.manufacturer_data,
            adv_service_uuid: self.adv.service_uuid,
            adv_service_data_uuid: self.adv.service_data_uuid,
            adv_service_data: self.adv.service_data,
            appearance: self.adv.appearance,
            adv_appearance: self.adv.appearance_present,
            adv_tx_power_dbm: self.adv.tx_power_dbm,
            adv_tx_power_present: self.adv.tx_power_present,
            scan_response_data: self.adv.scan_response_data,
            nonconnectable: self.adv.nonconnectable,
            adv_interval_min_ms: self.adv.interval_min_ms,
            adv_interval_max_ms: self.adv.interval_max_ms,
            adv_channel_map: self.adv.channel_map,
            adv_filter_policy: self.adv.filter_policy,
            adv_accept_address: self.adv.accept_address,
            adv_accept_address_kind: self.adv.accept_address_kind,
            discoverable: self.adv.discoverable,
            address: self.address,
            directed_peer_address: self.adv.directed_peer_address,
            directed_peer_address_kind: self.adv.directed_peer_address_kind,
            directed_high_duty: self.adv.directed_high_duty,
            adv_extended: self.adv.extended,
            adv_primary_phy: self.adv.primary_phy,
            adv_secondary_phy: self.adv.secondary_phy,
            periodic_adv: self.adv.periodic,
            periodic_adv_interval_min_ms: self.adv.periodic_interval_min_ms,
            periodic_adv_interval_max_ms: self.adv.periodic_interval_max_ms,
            periodic_adv_data: self.adv.periodic_data,
            periodic_adv_include_tx_power: self.adv.periodic_include_tx_power,
            services: self.services,
            role: self.role,
            peer_address: self.central.peer_address,
            peer_address_kind: self.central.peer_address_kind,
            central_conn_min_interval_ms: self.central.conn_min_interval_ms,
            central_conn_max_interval_ms: self.central.conn_max_interval_ms,
            central_conn_latency: self.central.conn_latency,
            central_conn_timeout_ms: self.central.conn_timeout_ms,
            l2cap_psm: self.l2cap.psm,
            l2cap_mtu: self.l2cap.mtu,
            l2cap_mps: self.l2cap.mps,
            l2cap_initial_credits: self.l2cap.initial_credits,
            l2cap_credit_policy: self.l2cap.credit_policy,
            l2cap_credit_policy_value: self.l2cap.credit_policy_value,
            security_bondable: self.security.bondable,
            security_request_on_connect: self.security.request_on_connect,
            security_oob_available: self.security.oob_available,
            security_io_capability: self.security.io_capability,
            bond_slot_count: self.security.bond_slot_count,
            sdc_disable: self.sdc_disable,
            callbacks: self.callbacks,
        }
    }

    /// Flattens the grouped configuration.
    pub fn flatten(self) -> (r: RuntimeCfg)
        ensures
            r == self.flat(),
    {
        let adv = self.adv;
        let central = self.central;
        let l2cap = self.l2cap;
        let security = self.security;
        RuntimeCfg {
            device_name: self.device_name,
            adv_data: adv.data,
            manufacturer_id: adv.manufacturer_id,
            manufacturer_data: adv.manufacturer_data,
            adv_service_uuid: adv.service_uuid,
            adv_service_data_uuid: adv.service_data_uuid,
            adv_service_data: adv.service_data,
            appearance: adv.appearance,
            adv_appearance: adv.appearance_present,
            adv_tx_power_dbm: adv.tx_power_dbm,
            adv_tx_power_present: adv.tx_power_present,
            scan_response_data: adv.scan_response_data,
            nonconnectable: adv.nonconnectable,
            adv_interval_min_ms: adv.interval_min_ms,
            adv_interval_max_ms: adv.interval_max_ms,
            adv_channel_map: adv.channel_map,
            adv_filter_policy: adv.filter_policy,
            adv_accept_address: adv.accept_address,
            adv_accept_address_kind: adv.accept_address_kind,
            discoverable: adv.discoverable,
            address: self.address,
            directed_peer_address: adv.directed_peer_address,
            directed_peer_address_kind: adv.directed_peer_address_kind,
            directed_high_duty: adv.directed_high_duty,
            adv_extended: adv.extended,
            adv_primary_phy: adv.primary_phy,
            adv_secondary_phy: adv.secondary_phy,
            periodic_adv: adv.periodic,
            periodic_adv_interval_min_ms: adv.periodic_interval_min_ms,
            periodic_adv_interval_max_ms: adv.periodic_interval_max_ms,
            periodic_adv_data: adv.periodic_data,
            periodic_adv_include_tx_power: adv.periodic_include_tx_power,
            services: self.services,
            role: self.role,
            peer_address: central.peer_address,
            peer_address_kind: central.peer_address_kind,
            central_conn_min_interval_ms: central.conn_min_interval_ms,
            central_conn_max_interval_ms: central.conn_max_interval_ms,
            central_conn_latency: central.conn_latency,
            central_conn_timeout_ms: central.conn_timeout_ms,
            l2cap_psm: l2cap.psm,
            l2cap_mtu: l2cap.mtu,
            l2cap_mps: l2cap.mps,
            l2cap_initial_credits: l2cap.initial_credits,
            l2cap_credit_policy: l2cap.credit_policy,
            l2cap_credit_policy_value: l2cap.credit_policy_value,
            security_bondable: security.bondable,
            security_request_on_connect: security.request_on_connect,
            security_oob_available: security.oob_available,
            security_io_capability: security.io_capability,
            bond_slot_count: security.bond_slot_count,
            sdc_disable: self.sdc_disable,
            callbacks: self.callbacks,
        }
    }
}

impl RuntimeCfg {
    /// The element counts are those that the one-byte count fields can hold.
    pub open spec fn wf(self) -> bool {
        counts_fit(self.services)
    }
}

} // verus!
