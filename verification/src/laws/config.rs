//! From the configuration of the application to what a session reads.

use crate::config::{Build, Family, RuntimeBleConfig, RuntimeCfg};
use crate::runtime::{runtime_ble_init, Runtime};
use vstd::prelude::*;

verus! {

/// A configuration is accepted exactly where its layout version is 1 and every
/// checked value is in range; a missing one and values out of range give -1,
/// another version -6. Nothing but the configuration changes, and that only
/// where it is accepted.
pub proof fn law_init_accepts_what_is_in_range(
    rt: &mut Runtime,
    cfg: Option<RuntimeBleConfig>,
    r: i32,
)
    requires
        call_ensures(runtime_ble_init, (rt, cfg), r),
    ensures
        cfg is None ==> r == -1,
        cfg matches Some(c) ==> {
            &&& c.abi_version != 1 ==> r == -6
            &&& c.abi_version == 1 ==> r == 0 || r == -1
            &&& r == 0 <==> {
                &&& c.abi_version == 1
                &&& c.l2cap.credit_policy == 0 || c.l2cap.credit_policy == 1
                &&& c.l2cap.mtu == 0 || 23 <= c.l2cap.mtu
                &&& c.l2cap.mps == 0 || 23 <= c.l2cap.mps
                &&& c.adv.filter_policy < 4
                &&& c.adv.extended < 2
                &&& c.adv.primary_phy < 4
                &&& c.adv.secondary_phy < 4
                &&& c.adv.periodic < 2
                &&& c.adv.periodic == 0 || (c.adv.extended == 1 && c.adv.nonconnectable > 0)
                &&& c.adv.filter_policy == 0 || c.adv.accept_address is Some
            }
        },
        r != 0 ==> final(rt)@ == old(rt)@,
        r == 0 ==> {
            &&& final(rt).config is Some
            &&& final(rt).build == old(rt).build
            &&& final(rt).load_status == old(rt).load_status
            &&& final(rt).unload == old(rt).unload
            &&& final(rt)@.send == old(rt)@.send
            &&& final(rt).link == old(rt).link
            &&& final(rt).bond == old(rt).bond
            &&& final(rt)@.central == old(rt)@.central
            &&& final(rt).scan == old(rt).scan
            &&& final(rt)@.l2cap == old(rt)@.l2cap
        },
{
}

/// The advertising fields of a configuration that was accepted are what the
/// session reads under their names.
pub proof fn law_advertising_fields_are_captured(rt: &mut Runtime, c: RuntimeBleConfig, r: i32)
    requires
        call_ensures(runtime_ble_init, (rt, Some(c)), r),
        r == 0,
    ensures
        final(rt).config matches Some(f) && {
            &&& f.device_name == c.device_name
            &&& f.address == c.address
            &&& f.adv_data == c.adv.data
            &&& f.manufacturer_id == c.adv.manufacturer_id
            &&& f.manufacturer_data == c.adv.manufacturer_data
            &&& f.adv_service_uuid == c.adv.service_uuid
            &&& f.adv_service_data_uuid == c.adv.service_data_uuid
            &&& f.adv_service_data == c.adv.service_data
            &&& f.appearance == c.adv.appearance
            &&& f.adv_appearance == c.adv.appearance_present
            &&& f.adv_tx_power_dbm == c.adv.tx_power_dbm
            &&& f.adv_tx_power_present == c.adv.tx_power_present
            &&& f.scan_response_data == c.adv.scan_response_data
            &&& f.nonconnectable == c.adv.nonconnectable
            &&& f.adv_interval_min_ms == c.adv.interval_min_ms
            &&& f.adv_interval_max_ms == c.adv.interval_max_ms
            &&& f.adv_channel_map == c.adv.channel_map
            &&& f.adv_filter_policy == c.adv.filter_policy
            &&& f.adv_accept_address == c.adv.accept_address
            &&& f.adv_accept_address_kind == c.adv.accept_address_kind
            &&& f.discoverable == c.adv.discoverable
            &&& f.directed_peer_address == c.adv.directed_peer_address
            &&& f.directed_peer_address_kind == c.adv.directed_peer_address_kind
            &&& f.directed_high_duty == c.adv.directed_high_duty
            &&& f.adv_extended == c.adv.extended
            &&& f.adv_primary_phy == c.adv.primary_phy
            &&& f.adv_secondary_phy == c.adv.secondary_phy
            &&& f.periodic_adv == c.adv.periodic
            &&& f.periodic_adv_interval_min_ms == c.adv.periodic_interval_min_ms
            &&& f.periodic_adv_interval_max_ms == c.adv.periodic_interval_max_ms
            &&& f.periodic_adv_data == c.adv.periodic_data
            &&& f.periodic_adv_include_tx_power == c.adv.periodic_include_tx_power
        },
{
}

/// The other fields of a configuration that was accepted are what the session
/// reads under their names.
pub proof fn law_other_fields_are_captured(rt: &mut Runtime, c: RuntimeBleConfig, r: i32)
    requires
        call_ensures(runtime_ble_init, (rt, Some(c)), r),
        r == 0,
    ensures
        final(rt).config matches Some(f) && {
            &&& f.services == c.services
            &&& f.role == c.role
            &&& f.peer_address == c.central.peer_address
            &&& f.peer_address_kind == c.central.peer_address_kind
            &&& f.central_conn_min_interval_ms == c.central.conn_min_interval_ms
            &&& f.central_conn_max_interval_ms == c.central.conn_max_interval_ms
            &&& f.central_conn_latency == c.central.conn_latency
            &&& f.central_conn_timeout_ms == c.central.conn_timeout_ms
            &&& f.l2cap_psm == c.l2cap.psm
            &&& f.l2cap_mtu == c.l2cap.mtu
            &&& f.l2cap_mps == c.l2cap.mps
            &&& f.l2cap_initial_credits == c.l2cap.initial_credits
            &&& f.l2cap_credit_policy == c.l2cap.credit_policy
            &&& f.l2cap_credit_policy_value == c.l2cap.credit_policy_value
            &&& f.security_bondable == c.security.bondable
            &&& f.security_request_on_connect == c.security.request_on_connect
            &&& f.security_oob_available == c.security.oob_available
            &&& f.security_io_capability == c.security.io_capability
            &&& f.bond_slot_count == c.security.bond_slot_count
            &&& f.sdc_disable == c.sdc_disable
            &&& f.callbacks == c.callbacks
        },
{
}

/// A value of the server holds 244 bytes, and 128 in the lean nRF54L build that
/// has neither the central role nor L2CAP channels.
pub proof fn law_room_of_a_value(build: Build, r: usize)
    requires
        call_ensures(Build::value_len, (&build,), r),
    ensures
        r == 128 || r == 244,
        r == 128 <==> build.family == Family::Nrf54l && build.lean && !build.central
            && !build.l2cap,
        r == build.cap(),
{
}

/// Flattening a configuration is what an accepted one is captured by.
pub proof fn law_flattening_is_capturing(
    rt: &mut Runtime,
    c: RuntimeBleConfig,
    r: i32,
    f: RuntimeCfg,
)
    requires
        call_ensures(runtime_ble_init, (rt, Some(c)), r),
        call_ensures(RuntimeBleConfig::flatten, (c,), f),
        r == 0,
    ensures
        final(rt).config == Some(f),
{
}

} // verus!
