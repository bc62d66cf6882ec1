//! Advertising: the payload, the parameters and the kind of advertisement.

use crate::address::{peer, peer_address, Address};
use crate::bytes::{append, clip, clipped, copied, le16, le16_bytes, opt_vec};
use crate::config::RuntimeCfg;
use crate::host::{br_edr_not_supported, generic_power_device, is_utf8, le_general_discoverable};
use vstd::prelude::*;

verus! {

/// Most bytes in a legacy advertising payload or scan response.
pub const ADV_LEN: usize = 31;

/// Advertising flag: limited discoverable mode.
pub const LE_LIMITED_DISCOVERABLE: u8 = 0x01;

pub const AD_FLAGS: u8 = 0x01;

pub const AD_UUID16_COMPLETE: u8 = 0x03;

pub const AD_UUID128_COMPLETE: u8 = 0x07;

pub const AD_NAME_SHORT: u8 = 0x08;

pub const AD_NAME_COMPLETE: u8 = 0x09;

pub const AD_TX_POWER: u8 = 0x0a;

pub const AD_SERVICE_DATA16: u8 = 0x16;

pub const AD_APPEARANCE: u8 = 0x19;

pub const AD_SERVICE_DATA128: u8 = 0x21;

pub const AD_MANUFACTURER: u8 = 0xff;

/// One advertising structure as sent: its length, its type, its data.
pub open spec fn ad(ty: u8, data: Seq<u8>) -> Seq<u8> {
    seq![(data.len() + 1) as u8, ty] + data
}

/// Advertising structures one after the other.
pub open spec fn encode(ads: Seq<(u8, Seq<u8>)>) -> Seq<u8>
    decreases ads.len(),
{
    if ads.len() == 0 {
        Seq::empty()
    } else {
        encode(ads.drop_last()) + ad(ads.last().0, ads.last().1)
    }
}

/// The advertising structures that a receiver reads from a payload; none where
/// a length is zero or runs past the end.
pub open spec fn decode(s: Seq<u8>) -> Option<Seq<(u8, Seq<u8>)>>
    decreases s.len(),
{
    if s.len() == 0 {
        Some(Seq::empty())
    } else if s[0] == 0 || s.len() < s[0] + 1 {
        None
    } else {
        match decode(s.skip(s[0] + 1)) {
            Some(rest) => Some(seq![(s[1], s.subrange(2, s[0] + 1))] + rest),
            None => None,
        }
    }
}

/// Whether a UUID field holds a UUID of two or of sixteen bytes.
pub open spec fn has_uuid(uuid: Option<Vec<u8>>) -> bool {
    uuid matches Some(u) && (u@.len() == 2 || u@.len() == 16)
}

/// The appearance value of a configuration: that of a generic power device
/// where none is set.
pub open spec fn appearance_of(appearance: u16) -> u16 {
    if appearance == 0 {
        0x0780
    } else {
        appearance
    }
}

/// The manufacturer data structure, sent when there is an identifier or data.
pub open spec fn manufacturer_ad(cfg: RuntimeCfg, man: Seq<u8>) -> Seq<(u8, Seq<u8>)> {
    if cfg.manufacturer_id != 0 || man.len() > 0 {
        seq![(AD_MANUFACTURER, le16(cfg.manufacturer_id) + man)]
    } else {
        Seq::empty()
    }
}

/// The service UUID structure.
pub open spec fn service_uuid_ad(cfg: RuntimeCfg) -> Seq<(u8, Seq<u8>)> {
    if has_uuid(cfg.adv_service_uuid) {
        let uuid = cfg.adv_service_uuid->0@;
        seq![(if uuid.len() == 2 { AD_UUID16_COMPLETE } else { AD_UUID128_COMPLETE }, uuid)]
    } else {
        Seq::empty()
    }
}

/// The service data structure, sent when there is a UUID and data.
pub open spec fn service_data_ad(cfg: RuntimeCfg) -> Seq<(u8, Seq<u8>)> {
    if has_uuid(cfg.adv_service_data_uuid) && (cfg.adv_service_data matches Some(d) && d@.len()
        > 0) {
        let uuid = cfg.adv_service_data_uuid->0@;
        seq![
            (
                if uuid.len() == 2 { AD_SERVICE_DATA16 } else { AD_SERVICE_DATA128 },
                uuid + cfg.adv_service_data->0@,
            ),
        ]
    } else {
        Seq::empty()
    }
}

/// The appearance structure.
pub open spec fn appearance_ad(cfg: RuntimeCfg) -> Seq<(u8, Seq<u8>)> {
    if cfg.adv_appearance != 0 {
        seq![(AD_APPEARANCE, le16(appearance_of(cfg.appearance)))]
    } else {
        Seq::empty()
    }
}

/// The transmit power structure.
pub open spec fn tx_power_ad(cfg: RuntimeCfg) -> Seq<(u8, Seq<u8>)> {
    if cfg.adv_tx_power_present != 0 {
        seq![(AD_TX_POWER, seq![cfg.adv_tx_power_dbm as u8])]
    } else {
        Seq::empty()
    }
}

/// Every structure that stands before the name, in order.
pub open spec fn leading_ads(cfg: RuntimeCfg, flags: u8, man: Seq<u8>) -> Seq<(u8, Seq<u8>)> {
    seq![(AD_FLAGS, seq![flags])] + manufacturer_ad(cfg, man) + service_uuid_ad(cfg)
        + service_data_ad(cfg) + appearance_ad(cfg) + tx_power_ad(cfg)
}

/// The structures of the automatic payload: those before the name, then the
/// whole name, or as much of it as there is room for; none where not even one
/// byte of it fits.
pub open spec fn payload_ads(cfg: RuntimeCfg, flags: u8, man: Seq<u8>, name: Seq<u8>) -> Option<
    Seq<(u8, Seq<u8>)>,
> {
    let ads = leading_ads(cfg, flags, man);
    let used = encode(ads).len();
    if used > ADV_LEN {
        None
    } else if used + 2 + name.len() <= ADV_LEN {
        Some(ads.push((AD_NAME_COMPLETE, name)))
    } else if used + 3 > ADV_LEN {
        None
    } else {
        Some(ads.push((AD_NAME_SHORT, name.take(ADV_LEN - 2 - used))))
    }
}

/// The automatic payload as bytes.
pub open spec fn auto_payload(cfg: RuntimeCfg, flags: u8, man: Seq<u8>, name: Seq<u8>) -> Option<
    Seq<u8>,
> {
    match payload_ads(cfg, flags, man, name) {
        Some(ads) => Some(encode(ads)),
        None => None,
    }
}

proof fn lemma_encode_concat(a: Seq<(u8, Seq<u8>)>, b: Seq<(u8, Seq<u8>)>)
    ensures
        encode(a + b) == encode(a) + encode(b),
    decreases b.len(),
{
    if b.len() == 0 {
        assert(a + b =~= a);
    } else {
        lemma_encode_concat(a, b.drop_last());
        assert((a + b).drop_last() =~= a + b.drop_last());
        assert((a + b).last() == b.last());
        assert(encode(a + b) =~= encode(a) + encode(b));
    }
}

proof fn lemma_encode_one(ty: u8, data: Seq<u8>)
    ensures
        encode(seq![(ty, data)]) == ad(ty, data),
{
    let one = seq![(ty, data)];
    assert(one.drop_last() =~= Seq::empty());
    assert(encode(one.drop_last()) =~= Seq::<u8>::empty());
    assert(encode(one) =~= ad(ty, data));
}

/// Appends one advertising structure, unless it would overrun the payload.
pub fn push_ad(dst: &mut Vec<u8>, ty: u8, data: &[u8]) -> (r: bool)
    requires
        old(dst)@.len() <= ADV_LEN,
    ensures
        r == (old(dst)@.len() + 2 + data@.len() <= ADV_LEN),
        r ==> final(dst)@ == old(dst)@ + ad(ty, data@),
        !r ==> final(dst)@ == old(dst)@,
        final(dst)@.len() <= ADV_LEN,
{
    if data.len() > ADV_LEN || dst.len() + data.len() + 2 > ADV_LEN {
        return false;
    }
    dst.push((data.len() + 1) as u8);
    dst.push(ty);
    append(dst, data);
    assert(dst@ =~= old(dst)@ + ad(ty, data@));
    true
}

/// Appends the structure `(ty, data)` to a payload that holds `ads`.
fn extend_ads(
    dst: &mut Vec<u8>,
    ty: u8,
    data: &[u8],
    ads: Ghost<Seq<(u8, Seq<u8>)>>,
) -> (r: bool)
    requires
        old(dst)@ == encode(ads@),
        old(dst)@.len() <= ADV_LEN,
    ensures
        r == (encode(ads@ + seq![(ty, data@)]).len() <= ADV_LEN),
        r ==> final(dst)@ == encode(ads@ + seq![(ty, data@)]),
        r ==> final(dst)@.len() <= ADV_LEN,
{
    proof {
        lemma_encode_concat(ads@, seq![(ty, data@)]);
        lemma_encode_one(ty, data@);
    }
    push_ad(dst, ty, data)
}

/// What the structures before some point encode to is no longer than what all
/// of them do.
proof fn lemma_leading_prefixes(cfg: RuntimeCfg, flags: u8, man: Seq<u8>)
    ensures
        ({
            let a = seq![(AD_FLAGS, seq![flags])];
            let b = a + manufacturer_ad(cfg, man);
            let c = b + service_uuid_ad(cfg);
            let d = c + service_data_ad(cfg);
            let e = d + appearance_ad(cfg);
            let f = e + tx_power_ad(cfg);
            &&& f == leading_ads(cfg, flags, man)
            &&& encode(a).len() <= encode(b).len() <= encode(c).len() <= encode(d).len() <= encode(
                e,
            ).len() <= encode(f).len()
        }),
{
    let a = seq![(AD_FLAGS, seq![flags])];
    let b = a + manufacturer_ad(cfg, man);
    let c = b + service_uuid_ad(cfg);
    let d = c + service_data_ad(cfg);
    let e = d + appearance_ad(cfg);
    lemma_encode_concat(a, manufacturer_ad(cfg, man));
    lemma_encode_concat(b, service_uuid_ad(cfg));
    lemma_encode_concat(c, service_data_ad(cfg));
    lemma_encode_concat(d, appearance_ad(cfg));
    lemma_encode_concat(e, tx_power_ad(cfg));
}

/// Builds the automatic payload: flags, then manufacturer data, service UUID,
/// service data, appearance and transmit power as configured, then the name,
/// shortened where it has to be.
pub fn build_adv_payload(
    cfg: &RuntimeCfg,
    flags: u8,
    manufacturer_data: &[u8],
    name: &[u8],
) -> (r: Option<Vec<u8>>)
    ensures
        opt_vec(r) == auto_payload(*cfg, flags, manufacturer_data@, name@),
{
    let ghost man = manufacturer_data@;
    proof {
        lemma_leading_prefixes(*cfg, flags, man);
    }
    let ghost none: Seq<(u8, Seq<u8>)> = Seq::empty();
    let ghost a = seq![(AD_FLAGS, seq![flags])];
    let ghost b = a + manufacturer_ad(*cfg, man);
    let ghost c = b + service_uuid_ad(*cfg);
    let ghost d = c + service_data_ad(*cfg);
    let ghost e = d + appearance_ad(*cfg);
    let ghost f = leading_ads(*cfg, flags, man);

    let mut dst: Vec<u8> = Vec::new();
    let flag_data: [u8; 1] = [flags];
    assert(flag_data@ =~= seq![flags]);
    assert(none + a =~= a);
    if !extend_ads(&mut dst, AD_FLAGS, flag_data.as_slice(), Ghost(none)) {
        return None;
    }
    if cfg.manufacturer_id != 0 || !manufacturer_data.is_empty() {
        let mut data: Vec<u8> = copied(le16_bytes(cfg.manufacturer_id).as_slice());
        append(&mut data, manufacturer_data);
        if !extend_ads(&mut dst, AD_MANUFACTURER, data.as_slice(), Ghost(a)) {
            return None;
        }
    } else {
        assert(b =~= a);
    }
    if let Some(uuid) = &cfg.adv_service_uuid {
        if uuid.len() == 2 || uuid.len() == 16 {
            let ty: u8 = if uuid.len() == 2 {
                AD_UUID16_COMPLETE
            } else {
                AD_UUID128_COMPLETE
            };
            if !extend_ads(&mut dst, ty, uuid.as_slice(), Ghost(b)) {
                return None;
            }
        } else {
            assert(c =~= b);
        }
    } else {
        assert(c =~= b);
    }
    let mut service_data_sent: bool = false;
    if let (Some(uuid), Some(service_data)) = (&cfg.adv_service_data_uuid, &cfg.adv_service_data) {
        if service_data.len() > 0 && (uuid.len() == 2 || uuid.len() == 16) {
            let ty: u8 = if uuid.len() == 2 {
                AD_SERVICE_DATA16
            } else {
                AD_SERVICE_DATA128
            };
            let mut data: Vec<u8> = copied(uuid.as_slice());
            append(&mut data, service_data.as_slice());
            if !extend_ads(&mut dst, ty, data.as_slice(), Ghost(c)) {
                return None;
            }
            service_data_sent = true;
        }
    }
    assert(!service_data_sent ==> d =~= c);
    if cfg.adv_appearance != 0 {
        let appearance: u16 = gap_appearance(cfg.appearance);
        if !extend_ads(&mut dst, AD_APPEARANCE, le16_bytes(appearance).as_slice(), Ghost(d)) {
            return None;
        }
    } else {
        assert(e =~= d);
    }
    if cfg.adv_tx_power_present != 0 {
        let power: [u8; 1] = [cfg.adv_tx_power_dbm as u8];
        assert(power@ =~= seq![cfg.adv_tx_power_dbm as u8]);
        if !extend_ads(&mut dst, AD_TX_POWER, power.as_slice(), Ghost(e)) {
            return None;
        }
    } else {
        assert(f =~= e);
    }
    proof {
        lemma_encode_concat(f, seq![(AD_NAME_COMPLETE, name@)]);
        lemma_encode_one(AD_NAME_COMPLETE, name@);
        assert(f + seq![(AD_NAME_COMPLETE, name@)] =~= f.push((AD_NAME_COMPLETE, name@)));
    }
    if push_ad(&mut dst, AD_NAME_COMPLETE, name) {
        return Some(dst);
    }
    let avail: usize = ADV_LEN - dst.len();
    if avail < 3 {
        return None;
    }
    let short = clipped(name, avail - 2);
    proof {
        lemma_encode_concat(f, seq![(AD_NAME_SHORT, short@)]);
        lemma_encode_one(AD_NAME_SHORT, short@);
        assert(f + seq![(AD_NAME_SHORT, short@)] =~= f.push((AD_NAME_SHORT, short@)));
    }
    if !push_ad(&mut dst, AD_NAME_SHORT, short.as_slice()) {
        return None;
    }
    Some(dst)
}

/// The appearance value that the GAP service and the advertising payload show.
pub fn gap_appearance(value: u16) -> (r: u16)
    ensures
        r == appearance_of(value),
{
    if value == 0 {
        generic_power_device()
    } else {
        value
    }
}

/// The name that a session uses: the configured one where it is UTF-8, else
/// `RUNTIME-BLE`.
pub open spec fn name_of(name: Option<Seq<u8>>) -> Seq<u8> {
    match name {
        Some(n) if vstd::utf8::valid_utf8(n) => n,
        _ => seq![0x52u8, 0x55, 0x4e, 0x54, 0x49, 0x4d, 0x45, 0x2d, 0x42, 0x4c, 0x45],
    }
}

/// The name that a session uses.
pub fn device_name(cfg: &RuntimeCfg) -> (r: Vec<u8>)
    ensures
        r@ == name_of(opt_vec(cfg.device_name)),
{
    if let Some(name) = &cfg.device_name {
        if is_utf8(name.as_slice()) {
            return copied(name.as_slice());
        }
    }
    let fallback: [u8; 11] = [
        0x52,
        0x55,
        0x4e,
        0x54,
        0x49,
        0x4d,
        0x45,
        0x2d,
        0x42,
        0x4c,
        0x45,
    ];
    let r = copied(fallback.as_slice());
    assert(r@ =~= name_of(None));
    r
}

/// The discoverability flags: limited for 1, none for 2, general for the rest;
/// classic Bluetooth is never supported.
pub open spec fn flags_of(discoverable: u8) -> u8 {
    if discoverable == 1 {
        0x05
    } else if discoverable == 2 {
        0x04
    } else {
        0x06
    }
}

/// The discoverability flags of a configuration.
pub fn discoverability_flags(cfg: &RuntimeCfg) -> (r: u8)
    ensures
        r == flags_of(cfg.discoverable),
{
    let no_classic: u8 = br_edr_not_supported();
    let general: u8 = le_general_discoverable();
    assert(0x01u8 | 0x04u8 == 0x05u8 && 0x02u8 | 0x04u8 == 0x06u8) by (bit_vector);
    match cfg.discoverable {
        1 => LE_LIMITED_DISCOVERABLE | no_classic,
        2 => no_classic,
        _ => general | no_classic,
    }
}

/// The payload of a configuration: the raw payload where one is given and
/// fits, else the automatic one.
pub open spec fn payload_of(cfg: RuntimeCfg, flags: u8, man: Seq<u8>, name: Seq<u8>) -> Option<
    Seq<u8>,
> {
    match cfg.adv_data {
        Some(raw) if raw@.len() > 0 => if raw@.len() <= ADV_LEN {
            Some(raw@)
        } else {
            None
        },
        _ => auto_payload(cfg, flags, man, name),
    }
}

/// The payload of a configuration.
pub fn advertising_payload(
    cfg: &RuntimeCfg,
    flags: u8,
    manufacturer_data: &[u8],
    name: &[u8],
) -> (r: Option<Vec<u8>>)
    ensures
        opt_vec(r) == payload_of(*cfg, flags, manufacturer_data@, name@),
{
    if let Some(raw) = &cfg.adv_data {
        if raw.len() > 0 {
            if raw.len() > ADV_LEN {
                return None;
            }
            return Some(copied(raw.as_slice()));
        }
    }
    build_adv_payload(cfg, flags, manufacturer_data, name)
}

/// The transmit powers, in dBm, that an advertisement can ask for.
pub open spec fn is_tx_power(dbm: i8) -> bool {
    ||| dbm == -40 || dbm == -20 || dbm == -16 || dbm == -12 || dbm == -8 || dbm == -4
    ||| dbm == 0 || 2 <= dbm <= 8
    ||| dbm == 10 || dbm == 12 || dbm == 14 || dbm == 16 || dbm == 18 || dbm == 20
}

/// The transmit power of an advertisement in dBm: the configured one where it
/// is one that can be asked for, else 0.
pub open spec fn tx_power_of(present: u8, dbm: i8) -> i8 {
    if present != 0 && is_tx_power(dbm) {
        dbm
    } else {
        0
    }
}

/// The transmit power of an advertisement in dBm.
pub fn adv_tx_power(cfg: &RuntimeCfg) -> (r: i8)
    ensures
        r == tx_power_of(cfg.adv_tx_power_present, cfg.adv_tx_power_dbm),
{
    if cfg.adv_tx_power_present == 0 {
        return 0;
    }
    let dbm: i8 = cfg.adv_tx_power_dbm;
    match dbm {
        -40 => dbm,
        -20 => dbm,
        -16 => dbm,
        -12 => dbm,
        -8 => dbm,
        -4 => dbm,
        2 => dbm,
        3 => dbm,
        4 => dbm,
        5 => dbm,
        6 => dbm,
        7 => dbm,
        8 => dbm,
        10 => dbm,
        12 => dbm,
        14 => dbm,
        16 => dbm,
        18 => dbm,
        20 => dbm,
        _ => 0,
    }
}

/// The primary advertising channels in use.
#[derive(Clone, Copy, Debug, PartialEq, Eq, Structural)]
pub struct ChannelMap {
    pub ch37: bool,
    pub ch38: bool,
    pub ch39: bool,
}

/// The channel map of a configuration: one bit per channel; none, which means
/// all three, where no bit is set.
pub open spec fn channels_of(bits: u8) -> Option<ChannelMap> {
    let map = ChannelMap {
        ch37: bits & 0x01 != 0,
        ch38: bits & 0x02 != 0,
        ch39: bits & 0x04 != 0,
    };
    if map.ch37 || map.ch38 || map.ch39 {
        Some(map)
    } else {
        None
    }
}

/// The channel map of a configuration.
pub fn adv_channel_map(cfg: &RuntimeCfg) -> (r: Option<ChannelMap>)
    ensures
        r == channels_of(cfg.adv_channel_map),
{
    let raw: u8 = cfg.adv_channel_map;
    let bits: u8 = raw & 0x07;
    assert(raw & 0x07 == bits ==> (bits & 0x01 == raw & 0x01 && bits & 0x02 == raw & 0x02 && bits
        & 0x04 == raw & 0x04 && (bits == 0 <==> raw & 0x01 == 0 && raw & 0x02 == 0 && raw & 0x04
        == 0))) by (bit_vector);
    if bits == 0 {
        None
    } else {
        Some(
            ChannelMap {
                ch37: (bits & 0x01) != 0,
                ch38: (bits & 0x02) != 0,
                ch39: (bits & 0x04) != 0,
            },
        )
    }
}

/// Whose scan and connection requests an advertiser answers.
#[derive(Clone, Copy, Debug, PartialEq, Eq, Structural)]
pub enum FilterPolicy {
    Unfiltered,
    /// Scan requests only from the accept list.
    FilterScan,
    /// Connection requests only from the accept list.
    FilterConn,
    FilterConnAndScan,
}

/// The filter policy of a configuration, numbered as the controller does.
pub open spec fn filter_of(policy: u8) -> FilterPolicy {
    if policy == 1 {
        FilterPolicy::FilterScan
    } else if policy == 2 {
        FilterPolicy::FilterConn
    } else if policy == 3 {
        FilterPolicy::FilterConnAndScan
    } else {
        FilterPolicy::Unfiltered
    }
}

/// The filter policy of a configuration.
pub fn adv_filter_policy(cfg: &RuntimeCfg) -> (r: FilterPolicy)
    ensures
        r == filter_of(cfg.adv_filter_policy),
{
    match cfg.adv_filter_policy {
        1 => FilterPolicy::FilterScan,
        2 => FilterPolicy::FilterConn,
        3 => FilterPolicy::FilterConnAndScan,
        _ => FilterPolicy::Unfiltered,
    }
}

/// The one address on the accept list of a filtered advertisement.
pub open spec fn accepted_of(cfg: RuntimeCfg) -> Option<Address> {
    match cfg.adv_accept_address {
        Some(a) if cfg.adv_filter_policy != 0 => Some(peer(a, cfg.adv_accept_address_kind)),
        _ => None,
    }
}

/// The one address on the accept list of a filtered advertisement.
pub fn adv_accept_address(cfg: &RuntimeCfg) -> (r: Option<Address>)
    ensures
        r == accepted_of(*cfg),
{
    if cfg.adv_filter_policy == 0 {
        return None;
    }
    match cfg.adv_accept_address {
        Some(a) => Some(peer_address(a, cfg.adv_accept_address_kind)),
        None => None,
    }
}

/// Parameters of an advertisement.
#[derive(Clone, Copy, Debug)]
pub struct AdvParams {
    pub interval_min_ms: u64,
    pub interval_max_ms: u64,
    pub tx_power_dbm: i8,
    pub channel_map: Option<ChannelMap>,
    pub filter_policy: FilterPolicy,
    pub accept: Option<Address>,
}

/// The parameters of a configuration; an interval of zero is 30 ms at least
/// and 60 ms at most.
pub open spec fn params_of(cfg: RuntimeCfg) -> AdvParams {
    AdvParams {
        interval_min_ms: if cfg.adv_interval_min_ms == 0 {
            30
        } else {
            cfg.adv_interval_min_ms as u64
        },
        interval_max_ms: if cfg.adv_interval_max_ms == 0 {
            60
        } else {
            cfg.adv_interval_max_ms as u64
        },
        tx_power_dbm: tx_power_of(cfg.adv_tx_power_present, cfg.adv_tx_power_dbm),
        channel_map: channels_of(cfg.adv_channel_map),
        filter_policy: filter_of(cfg.adv_filter_policy),
        accept: accepted_of(cfg),
    }
}

/// The parameters of a configuration.
pub fn advertising_params(cfg: &RuntimeCfg) -> (r: AdvParams)
    ensures
        r == params_of(*cfg),
{
    AdvParams {
        interval_min_ms: if cfg.adv_interval_min_ms == 0 {
            30
        } else {
            cfg.adv_interval_min_ms as u64
        },
        interval_max_ms: if cfg.adv_interval_max_ms == 0 {
            60
        } else {
            cfg.adv_interval_max_ms as u64
        },
        tx_power_dbm: adv_tx_power(cfg),
        channel_map: adv_channel_map(cfg),
        filter_policy: adv_filter_policy(cfg),
        accept: adv_accept_address(cfg),
    }
}

/// The peer that a directed advertisement calls.
pub open spec fn directed_of(cfg: RuntimeCfg) -> Option<Address> {
    match cfg.directed_peer_address {
        Some(a) => Some(peer(a, cfg.directed_peer_address_kind)),
        None => None,
    }
}

/// The peer that a directed advertisement calls.
pub fn directed_peer(cfg: &RuntimeCfg) -> (r: Option<Address>)
    ensures
        r == directed_of(*cfg),
{
    match cfg.directed_peer_address {
        Some(a) => Some(peer_address(a, cfg.directed_peer_address_kind)),
        None => None,
    }
}

/// An advertisement, with its payloads in `B`.
#[derive(Debug, PartialEq, Eq)]
pub enum Advertisement<B> {
    /// Connectable, not scannable, without a payload.
    Directed { peer: Address, high_duty: bool },
    ConnectableScannable { adv: B, scan: B },
    NonconnectableScannable { adv: B, scan: B },
    NonconnectableNonscannable { adv: B },
}

impl View for Advertisement<Vec<u8>> {
    type V = Advertisement<Seq<u8>>;

    open spec fn view(&self) -> Advertisement<Seq<u8>> {
        match *self {
            Advertisement::Directed { peer, high_duty } => Advertisement::Directed {
                peer,
                high_duty,
            },
            Advertisement::ConnectableScannable { adv, scan } => {
                Advertisement::ConnectableScannable { adv: adv@, scan: scan@ }
            },
            Advertisement::NonconnectableScannable { adv, scan } => {
                Advertisement::NonconnectableScannable { adv: adv@, scan: scan@ }
            },
            Advertisement::NonconnectableNonscannable { adv } => {
                Advertisement::NonconnectableNonscannable { adv: adv@ }
            },
        }
    }
}

/// Why a configuration cannot be advertised.
#[derive(Clone, Copy, Debug, PartialEq, Eq, Structural)]
pub enum AdvError {
    /// The payload does not fit.
    InvalidValue,
}

/// The manufacturer data of a configuration.
pub open spec fn manufacturer_of(cfg: RuntimeCfg) -> Seq<u8> {
    match cfg.manufacturer_data {
        Some(m) => m@,
        None => Seq::empty(),
    }
}

/// The advertising payload of a configuration, from all of its fields.
pub open spec fn adv_data_of(cfg: RuntimeCfg) -> Option<Seq<u8>> {
    payload_of(
        cfg,
        flags_of(cfg.discoverable),
        manufacturer_of(cfg),
        name_of(opt_vec(cfg.device_name)),
    )
}

/// The scan response of a configuration: at most its first 31 bytes.
pub open spec fn scan_data_of(cfg: RuntimeCfg) -> Seq<u8> {
    match cfg.scan_response_data {
        Some(s) => clip(s@, ADV_LEN as int),
        None => Seq::empty(),
    }
}

/// The advertising payload and the scan response of a configuration.
pub fn advertising_parts(cfg: &RuntimeCfg) -> (r: Result<(Vec<u8>, Vec<u8>), AdvError>)
    ensures
        r is Ok <==> adv_data_of(*cfg) is Some,
        r matches Ok((adv, scan)) ==> Some(adv@) == adv_data_of(*cfg) && scan@ == scan_data_of(
            *cfg,
        ),
{
    let name = device_name(cfg);
    let flags: u8 = discoverability_flags(cfg);
    let empty: Vec<u8> = Vec::new();
    let man: &[u8] = match &cfg.manufacturer_data {
        Some(m) => m.as_slice(),
        None => empty.as_slice(),
    };
    assert(man@ =~= manufacturer_of(*cfg));
    match advertising_payload(cfg, flags, man, name.as_slice()) {
        None => Err(AdvError::InvalidValue),
        Some(adv) => {
            let scan: Vec<u8> = match &cfg.scan_response_data {
                Some(s) => clipped(s.as_slice(), ADV_LEN),
                None => Vec::new(),
            };
            Ok((adv, scan))
        },
    }
}

/// The advertisement that invites connections: directed where a peer is
/// configured, else open to all.
pub open spec fn connectable_of(cfg: RuntimeCfg) -> Option<Advertisement<Seq<u8>>> {
    match directed_of(cfg) {
        Some(peer) => Some(
            Advertisement::Directed { peer, high_duty: cfg.directed_high_duty != 0 },
        ),
        None => match adv_data_of(cfg) {
            Some(adv) => Some(
                Advertisement::ConnectableScannable { adv, scan: scan_data_of(cfg) },
            ),
            None => None,
        },
    }
}

/// The advertisement that invites connections.
pub fn connectable_advertisement(cfg: &RuntimeCfg) -> (r: Result<Advertisement<Vec<u8>>, AdvError>)
    ensures
        r is Ok <==> connectable_of(*cfg) is Some,
        r matches Ok(a) ==> Some(a@) == connectable_of(*cfg),
{
    if let Some(peer) = directed_peer(cfg) {
        return Ok(Advertisement::Directed { peer, high_duty: cfg.directed_high_duty != 0 });
    }
    match advertising_parts(cfg) {
        Ok((adv, scan)) => Ok(Advertisement::ConnectableScannable { adv, scan }),
        Err(e) => Err(e),
    }
}

/// The advertisement of a broadcaster: scannable where there is a scan
/// response.
pub open spec fn nonconnectable_of(cfg: RuntimeCfg) -> Option<Advertisement<Seq<u8>>> {
    match adv_data_of(cfg) {
        Some(adv) => if scan_data_of(cfg).len() == 0 {
            Some(Advertisement::NonconnectableNonscannable { adv })
        } else {
            Some(Advertisement::NonconnectableScannable { adv, scan: scan_data_of(cfg) })
        },
        None => None,
    }
}

/// The advertisement of a broadcaster.
pub fn nonconnectable_advertisement(cfg: &RuntimeCfg) -> (r: Result<
    Advertisement<Vec<u8>>,
    AdvError,
>)
    ensures
        r is Ok <==> nonconnectable_of(*cfg) is Some,
        r matches Ok(a) ==> Some(a@) == nonconnectable_of(*cfg),
{
    match advertising_parts(cfg) {
        Ok((adv, scan)) => if scan.len() == 0 {
            Ok(Advertisement::NonconnectableNonscannable { adv })
        } else {
            Ok(Advertisement::NonconnectableScannable { adv, scan })
        },
        Err(e) => Err(e),
    }
}

proof fn lemma_decode_encode(ads: Seq<(u8, Seq<u8>)>)
    requires
        forall|i: int| 0 <= i < ads.len() ==> (#[trigger] ads[i]).1.len() <= 254,
    ensures
        decode(encode(ads)) == Some(ads),
    decreases ads.len(),
{
    if ads.len() == 0 {
        assert(ads =~= Seq::empty());
    } else {
        let first = seq![ads[0]];
        let rest = ads.drop_first();
        assert(first + rest =~= ads);
        lemma_encode_concat(first, rest);
        lemma_encode_one(ads[0].0, ads[0].1);
        lemma_decode_encode(rest);
        let s = encode(ads);
        let n: int = ads[0].1.len() as int;
        assert(s[0] == n + 1);
        assert(s[1] == ads[0].0);
        assert(s.skip(n + 2) =~= encode(rest));
        assert(s.subrange(2, n + 2) =~= ads[0].1);
        assert(seq![(s[1], s.subrange(2, n + 2))] + rest =~= ads);
    }
}

/// A receiver reads back from an automatic payload exactly the structures that
/// were put into it, and the payload fits.
pub proof fn law_payload_reads_back(cfg: RuntimeCfg, flags: u8, man: Seq<u8>, name: Seq<u8>)
    ensures
        payload_ads(cfg, flags, man, name) matches Some(ads) ==> {
            &&& auto_payload(cfg, flags, man, name) == Some(encode(ads))
            &&& encode(ads).len() <= ADV_LEN
            &&& decode(encode(ads)) == Some(ads)
        },
{
    if payload_ads(cfg, flags, man, name) is Some {
        let ads = payload_ads(cfg, flags, man, name)->0;
        let lead = leading_ads(cfg, flags, man);
        let last = ads.last();
        assert(ads =~= lead + seq![last]);
        lemma_encode_concat(lead, seq![last]);
        lemma_encode_one(last.0, last.1);
        assert forall|i: int| 0 <= i < ads.len() implies (#[trigger] ads[i]).1.len() <= 254 by {
            lemma_member_fits(ads, i);
        }
        lemma_decode_encode(ads);
    }
}

proof fn lemma_member_fits(ads: Seq<(u8, Seq<u8>)>, i: int)
    requires
        0 <= i < ads.len(),
    ensures
        ads[i].1.len() + 2 <= encode(ads).len(),
    decreases ads.len(),
{
    if i < ads.len() - 1 {
        lemma_member_fits(ads.drop_last(), i);
    }
}

/// Every automatic payload opens with the discoverability flags and carries
/// the name, whole or shortened, last.
pub proof fn law_payload_frame(cfg: RuntimeCfg, flags: u8, man: Seq<u8>, name: Seq<u8>)
    ensures
        payload_ads(cfg, flags, man, name) matches Some(ads) ==> {
            &&& ads[0] == (AD_FLAGS, seq![flags])
            &&& ads.last() == (AD_NAME_COMPLETE, name) || (ads.last().0 == AD_NAME_SHORT
                && 1 <= ads.last().1.len() < name.len() && ads.last().1 == name.take(
                ads.last().1.len() as int,
            ))
        },
{
}

/// A raw payload bypasses the automatic builder: what is sent does not depend
/// on any other field.
pub proof fn law_raw_payload_bypasses(
    a: RuntimeCfg,
    b: RuntimeCfg,
    flags_a: u8,
    flags_b: u8,
    man_a: Seq<u8>,
    man_b: Seq<u8>,
    name_a: Seq<u8>,
    name_b: Seq<u8>,
)
    requires
        a.adv_data == b.adv_data,
        a.adv_data is Some,
        a.adv_data->0@.len() > 0,
    ensures
        payload_of(a, flags_a, man_a, name_a) == payload_of(b, flags_b, man_b, name_b),
{
}

/// A configuration with no advertising field set is advertised with the
/// defaults: connectable by anyone, general-discoverable, every 30 to 60 ms,
/// on all channels, under the name `RUNTIME-BLE`.
pub proof fn law_zero_config_defaults(cfg: RuntimeCfg)
    requires
        cfg.directed_peer_address is None,
        cfg.adv_data is None,
        cfg.manufacturer_id == 0,
        cfg.manufacturer_data is None,
        cfg.adv_service_uuid is None,
        cfg.adv_service_data is None,
        cfg.adv_appearance == 0,
        cfg.adv_tx_power_present == 0,
        cfg.scan_response_data is None,
        cfg.discoverable == 0,
        cfg.device_name is None,
        cfg.adv_interval_min_ms == 0,
        cfg.adv_interval_max_ms == 0,
        cfg.adv_channel_map == 0,
        cfg.adv_filter_policy == 0,
    ensures
        connectable_of(cfg) == Some(
            Advertisement::ConnectableScannable {
                adv: ad(AD_FLAGS, seq![0x06u8]) + ad(AD_NAME_COMPLETE, name_of(None)),
                scan: Seq::<u8>::empty(),
            },
        ),
        params_of(cfg) == (AdvParams {
            interval_min_ms: 30,
            interval_max_ms: 60,
            tx_power_dbm: 0,
            channel_map: None,
            filter_policy: FilterPolicy::Unfiltered,
            accept: None,
        }),
{
    let flags_ad = seq![(AD_FLAGS, seq![0x06u8])];
    let lead = leading_ads(cfg, 0x06, Seq::empty());
    assert(lead =~= flags_ad);
    lemma_encode_one(AD_FLAGS, seq![0x06u8]);
    let name = (AD_NAME_COMPLETE, name_of(None));
    assert(lead.push(name) =~= flags_ad + seq![name]);
    lemma_encode_concat(flags_ad, seq![name]);
    lemma_encode_one(AD_NAME_COMPLETE, name_of(None));
    assert(0u8 & 0x01 == 0 && 0u8 & 0x02 == 0 && 0u8 & 0x04 == 0) by (bit_vector);
}

} // verus!
