//! Advertising: what a receiver reads from a payload, and with which parameters
//! and in which form it is sent.

use crate::address::Address;
use crate::adv::{
    adv_accept_address, adv_channel_map, adv_filter_policy, adv_tx_power, advertising_params,
    advertising_parts, advertising_payload, appearance_ad, build_adv_payload,
    connectable_advertisement, decode, device_name, directed_peer, discoverability_flags, encode,
    gap_appearance, law_payload_reads_back, leading_ads, manufacturer_ad,
    nonconnectable_advertisement, payload_ads, push_ad, service_data_ad, service_uuid_ad,
    tx_power_ad, AdvError, AdvParams, Advertisement, ChannelMap, FilterPolicy,
};
use crate::config::{RuntimeBleConfig, RuntimeCfg};
use crate::runtime::{runtime_ble_init, Runtime};
use vstd::prelude::*;
use vstd::string::StringSliceAdditionalSpecFns;

verus! {

/// The data of the first structure of a type.
pub open spec fn first_of(ads: Seq<(u8, Seq<u8>)>, ty: u8) -> Option<Seq<u8>>
    decreases ads.len(),
{
    if ads.len() == 0 {
        None
    } else if ads[0].0 == ty {
        Some(ads[0].1)
    } else {
        first_of(ads.drop_first(), ty)
    }
}

proof fn lemma_first_of_concat(a: Seq<(u8, Seq<u8>)>, b: Seq<(u8, Seq<u8>)>, ty: u8)
    ensures
        first_of(a + b, ty) == if first_of(a, ty) is Some {
            first_of(a, ty)
        } else {
            first_of(b, ty)
        },
    decreases a.len(),
{
    if a.len() == 0 {
        assert(a + b =~= b);
    } else {
        lemma_first_of_concat(a.drop_first(), b, ty);
        assert((a + b).drop_first() =~= a.drop_first() + b);
    }
}

proof fn lemma_first_of_one(ads: Seq<(u8, Seq<u8>)>, ty: u8)
    requires
        ads.len() <= 1,
    ensures
        first_of(ads, ty) == if ads.len() == 1 && ads[0].0 == ty {
            Some(ads[0].1)
        } else {
            None
        },
{
    if ads.len() == 1 {
        assert(ads.drop_first() =~= Seq::empty());
        assert(first_of(ads.drop_first(), ty) is None);
    }
}

/// The first structure of a type in an automatic payload with the name `name`.
proof fn lemma_first_of_payload(
    cfg: RuntimeCfg,
    flags: u8,
    man: Seq<u8>,
    name: (u8, Seq<u8>),
    ty: u8,
)
    ensures
        first_of(leading_ads(cfg, flags, man).push(name), ty) == if ty == 0x01 {
            Some(seq![flags])
        } else if manufacturer_ad(cfg, man).len() == 1 && manufacturer_ad(cfg, man)[0].0 == ty {
            Some(manufacturer_ad(cfg, man)[0].1)
        } else if service_uuid_ad(cfg).len() == 1 && service_uuid_ad(cfg)[0].0 == ty {
            Some(service_uuid_ad(cfg)[0].1)
        } else if service_data_ad(cfg).len() == 1 && service_data_ad(cfg)[0].0 == ty {
            Some(service_data_ad(cfg)[0].1)
        } else if appearance_ad(cfg).len() == 1 && appearance_ad(cfg)[0].0 == ty {
            Some(appearance_ad(cfg)[0].1)
        } else if tx_power_ad(cfg).len() == 1 && tx_power_ad(cfg)[0].0 == ty {
            Some(tx_power_ad(cfg)[0].1)
        } else if name.0 == ty {
            Some(name.1)
        } else {
            None
        },
        leading_ads(cfg, flags, man).push(name).len() == 2 + manufacturer_ad(cfg, man).len()
            + service_uuid_ad(cfg).len() + service_data_ad(cfg).len() + appearance_ad(cfg).len()
            + tx_power_ad(cfg).len(),
{
    let a = seq![(0x01u8, seq![flags])];
    let b = a + manufacturer_ad(cfg, man);
    let c = b + service_uuid_ad(cfg);
    let d = c + service_data_ad(cfg);
    let e = d + appearance_ad(cfg);
    let f = e + tx_power_ad(cfg);
    let last = seq![name];
    assert(f =~= leading_ads(cfg, flags, man));
    assert(f + last =~= leading_ads(cfg, flags, man).push(name));
    lemma_first_of_concat(f, last, ty);
    lemma_first_of_concat(e, tx_power_ad(cfg), ty);
    lemma_first_of_concat(d, appearance_ad(cfg), ty);
    lemma_first_of_concat(c, service_data_ad(cfg), ty);
    lemma_first_of_concat(b, service_uuid_ad(cfg), ty);
    lemma_first_of_concat(a, manufacturer_ad(cfg, man), ty);
    lemma_first_of_one(a, ty);
    lemma_first_of_one(manufacturer_ad(cfg, man), ty);
    lemma_first_of_one(service_uuid_ad(cfg), ty);
    lemma_first_of_one(service_data_ad(cfg), ty);
    lemma_first_of_one(appearance_ad(cfg), ty);
    lemma_first_of_one(tx_power_ad(cfg), ty);
    lemma_first_of_one(last, ty);
}

/// The bytes of a field that may be left out.
pub open spec fn bytes_in(field: Option<Vec<u8>>) -> Seq<u8> {
    match field {
        Some(v) => v@,
        None => Seq::empty(),
    }
}

/// A UUID field holds a UUID.
pub open spec fn names_uuid(field: Option<Vec<u8>>) -> bool {
    bytes_in(field).len() == 2 || bytes_in(field).len() == 16
}

/// The length of everything that stands before the name: two bytes, and the
/// data, for each structure.
pub open spec fn room_before_name(cfg: RuntimeCfg, man: Seq<u8>) -> int {
    3 + (if cfg.manufacturer_id != 0 || man.len() > 0 {
        4 + man.len()
    } else {
        0
    }) + (if names_uuid(cfg.adv_service_uuid) {
        2 + bytes_in(cfg.adv_service_uuid).len()
    } else {
        0
    }) + (if names_uuid(cfg.adv_service_data_uuid) && bytes_in(cfg.adv_service_data).len() > 0 {
        2 + bytes_in(cfg.adv_service_data_uuid).len() + bytes_in(cfg.adv_service_data).len()
    } else {
        0
    }) + (if cfg.adv_appearance != 0 {
        4int
    } else {
        0int
    }) + (if cfg.adv_tx_power_present != 0 {
        3int
    } else {
        0int
    })
}

/// A receiver reads the flags, the company identifier with its data, the
/// service UUID, the service data, the appearance and the transmit power from
/// an automatic payload, each where it is configured and under its type, and
/// nothing else but a name.
pub proof fn law_receiver_reads_what_is_configured(
    cfg: RuntimeCfg,
    flags: u8,
    man: &[u8],
    name: &[u8],
    r: Option<Vec<u8>>,
)
    requires
        call_ensures(build_adv_payload, (&cfg, flags, man, name), r),
    ensures
        r matches Some(p) ==> (decode(p@) matches Some(ads) && {
            let company = cfg.manufacturer_id != 0 || man@.len() > 0;
            let uuid = bytes_in(cfg.adv_service_uuid);
            let data_uuid = bytes_in(cfg.adv_service_data_uuid);
            let data = bytes_in(cfg.adv_service_data);
            let has_data = names_uuid(cfg.adv_service_data_uuid) && data.len() > 0;
            let count = |b: bool|
                if b {
                    1int
                } else {
                    0int
                };
            &&& ads[0] == (0x01u8, seq![flags])
            &&& first_of(ads, 0xff) is Some <==> company
            &&& first_of(ads, 0xff) matches Some(d) ==> d.len() >= 2 && d[0] + 256 * d[1]
                == cfg.manufacturer_id && d.skip(2) == man@
            &&& first_of(ads, 0x03) == if uuid.len() == 2 {
                Some(uuid)
            } else {
                None
            }
            &&& first_of(ads, 0x07) == if uuid.len() == 16 {
                Some(uuid)
            } else {
                None
            }
            &&& first_of(ads, 0x16) is Some <==> has_data && data_uuid.len() == 2
            &&& first_of(ads, 0x16) matches Some(d) ==> d.take(2) == data_uuid && d.skip(2) == data
            &&& first_of(ads, 0x21) is Some <==> has_data && data_uuid.len() == 16
            &&& first_of(ads, 0x21) matches Some(d) ==> d.take(16) == data_uuid && d.skip(16)
                == data
            &&& first_of(ads, 0x19) is Some <==> cfg.adv_appearance != 0
            &&& first_of(ads, 0x19) matches Some(d) ==> d.len() == 2 && d[0] + 256 * d[1] == if
                cfg.appearance == 0 {
                0x0780
            } else {
                cfg.appearance as int
            }
            &&& first_of(ads, 0x0a) is Some <==> cfg.adv_tx_power_present != 0
            &&& first_of(ads, 0x0a) matches Some(d) ==> d.len() == 1 && d[0] as int == if
                cfg.adv_tx_power_dbm < 0 {
                cfg.adv_tx_power_dbm + 256
            } else {
                cfg.adv_tx_power_dbm as int
            }
            &&& ads.len() == 2 + count(company) + count(names_uuid(cfg.adv_service_uuid)) + count(
                has_data,
            ) + count(cfg.adv_appearance != 0) + count(cfg.adv_tx_power_present != 0)
        }),
{
    if let Some(p) = r {
        let m = man@;
        law_payload_reads_back(cfg, flags, m, name@);
        let ads = payload_ads(cfg, flags, m, name@)->0;
        let last = ads.last();
        assert(ads =~= leading_ads(cfg, flags, m).push(last));
        lemma_first_of_payload(cfg, flags, m, last, 0xff);
        lemma_first_of_payload(cfg, flags, m, last, 0x03);
        lemma_first_of_payload(cfg, flags, m, last, 0x07);
        lemma_first_of_payload(cfg, flags, m, last, 0x16);
        lemma_first_of_payload(cfg, flags, m, last, 0x21);
        lemma_first_of_payload(cfg, flags, m, last, 0x19);
        lemma_first_of_payload(cfg, flags, m, last, 0x0a);
        if let Some(d) = first_of(ads, 0xff) {
            assert(d.skip(2) =~= m);
        }
        if let Some(d) = first_of(ads, 0x16) {
            assert(d.take(2) =~= bytes_in(cfg.adv_service_data_uuid));
            assert(d.skip(2) =~= bytes_in(cfg.adv_service_data));
        }
        if let Some(d) = first_of(ads, 0x21) {
            assert(d.take(16) =~= bytes_in(cfg.adv_service_data_uuid));
            assert(d.skip(16) =~= bytes_in(cfg.adv_service_data));
        }
        let dbm = cfg.adv_tx_power_dbm;
        assert(dbm < 0 ==> (dbm as u8) as int == dbm + 256) by (bit_vector);
        assert(dbm >= 0 ==> (dbm as u8) as int == dbm as int) by (bit_vector);
    }
}

/// A receiver reads structure after structure: a length that counts the type,
/// the type, and the data. It reads nothing where a length is zero or runs past
/// the end.
pub proof fn law_receiver_reads_structure_after_structure(
    ty: u8,
    data: Seq<u8>,
    rest: Seq<u8>,
    s: Seq<u8>,
)
    requires
        data.len() < 255,
    ensures
        decode(Seq::empty()) == Some(Seq::<(u8, Seq<u8>)>::empty()),
        s.len() > 0 && (s[0] == 0 || s.len() <= s[0]) ==> decode(s) is None,
        decode(rest) is None ==> decode(seq![(1 + data.len()) as u8, ty] + data + rest) is None,
        decode(rest) is Some ==> decode(seq![(1 + data.len()) as u8, ty] + data + rest) == Some(
            seq![(ty, data)] + decode(rest)->0,
        ),
{
    let whole = seq![(1 + data.len()) as u8, ty] + data + rest;
    assert(whole.skip(whole[0] + 1) =~= rest);
    assert(whole.subrange(2, whole[0] + 1) =~= data);
}

/// The place of a type in a payload.
pub open spec fn place_of(ty: u8) -> int {
    if ty == 0x01 {
        0
    } else if ty == 0xff {
        1
    } else if ty == 0x03 || ty == 0x07 {
        2
    } else if ty == 0x16 || ty == 0x21 {
        3
    } else if ty == 0x19 {
        4
    } else if ty == 0x0a {
        5
    } else {
        6
    }
}

/// Structures stand in the order of their places, none beyond `last`.
pub open spec fn in_order(ads: Seq<(u8, Seq<u8>)>, last: int) -> bool {
    &&& forall|i: int| 0 <= i < ads.len() ==> place_of((#[trigger] ads[i]).0) <= last
    &&& forall|i: int, j: int|
        0 <= i < j < ads.len() ==> place_of((#[trigger] ads[i]).0) < place_of(
            (#[trigger] ads[j]).0,
        )
}

proof fn lemma_in_order(ads: Seq<(u8, Seq<u8>)>, last: int, more: Seq<(u8, Seq<u8>)>)
    requires
        in_order(ads, last),
        more.len() <= 1,
        more.len() == 1 ==> place_of(more[0].0) == last + 1,
    ensures
        in_order(ads + more, last + 1),
{
    let all = ads + more;
    assert forall|i: int| 0 <= i < all.len() implies place_of((#[trigger] all[i]).0) <= last
        + 1 by {
        if i < ads.len() {
            assert(all[i] == ads[i]);
        }
    }
    assert forall|i: int, j: int| 0 <= i < j < all.len() implies place_of((#[trigger] all[i]).0)
        < place_of((#[trigger] all[j]).0) by {
        assert(all[i] == ads[i]);
        if j < ads.len() {
            assert(all[j] == ads[j]);
        }
    }
}

/// The structures of an automatic payload stand in one order: flags, company
/// data, service UUID, service data, appearance, transmit power, name.
pub proof fn law_structures_stand_in_order(
    cfg: RuntimeCfg,
    flags: u8,
    man: &[u8],
    name: &[u8],
    r: Option<Vec<u8>>,
)
    requires
        call_ensures(build_adv_payload, (&cfg, flags, man, name), r),
    ensures
        r matches Some(p) ==> decode(p@) is Some && in_order(decode(p@)->0, 6),
{
    if let Some(p) = r {
        let m = man@;
        law_payload_reads_back(cfg, flags, m, name@);
        let ads = payload_ads(cfg, flags, m, name@)->0;
        let a = seq![(0x01u8, seq![flags])];
        let b = a + manufacturer_ad(cfg, m);
        let c = b + service_uuid_ad(cfg);
        let d = c + service_data_ad(cfg);
        let e = d + appearance_ad(cfg);
        let f = e + tx_power_ad(cfg);
        lemma_in_order(a, 0, manufacturer_ad(cfg, m));
        lemma_in_order(b, 1, service_uuid_ad(cfg));
        lemma_in_order(c, 2, service_data_ad(cfg));
        lemma_in_order(d, 3, appearance_ad(cfg));
        lemma_in_order(e, 4, tx_power_ad(cfg));
        lemma_in_order(f, 5, seq![ads.last()]);
        assert(ads =~= f + seq![ads.last()]);
    }
}

/// The name closes an automatic payload: whole under type 0x09 where it fits,
/// else cut to what is left of 31 bytes under type 0x08. There is no payload
/// where what stands before the name, or not one byte of a name that is cut,
/// fits.
pub proof fn law_name_takes_the_room_that_is_left(
    cfg: RuntimeCfg,
    flags: u8,
    man: &[u8],
    name: &[u8],
    r: Option<Vec<u8>>,
)
    requires
        call_ensures(build_adv_payload, (&cfg, flags, man, name), r),
    ensures
        ({
            let used = room_before_name(cfg, man@);
            &&& r is Some <==> used + 2 + name@.len() <= 31 || used + 3 <= 31
            &&& r matches Some(p) ==> p@.len() <= 31
            &&& r matches Some(p) ==> (decode(p@) matches Some(ads) && ads.len() > 0 && if used + 2
                + name@.len() <= 31 {
                &&& ads.last() == (0x09u8, name@)
                &&& p@.len() == used + 2 + name@.len()
            } else {
                &&& ads.last().0 == 0x08
                &&& ads.last().1 == name@.take(29 - used)
                &&& p@.len() == 31
            })
        }),
{
    let m = man@;
    lemma_leading_len(cfg, flags, m);
    law_payload_reads_back(cfg, flags, m, name@);
    if let Some(p) = r {
        let ads = payload_ads(cfg, flags, m, name@)->0;
        let lead = leading_ads(cfg, flags, m);
        assert(ads.drop_last() =~= lead);
    }
}

proof fn lemma_one_len(ads: Seq<(u8, Seq<u8>)>)
    requires
        ads.len() <= 1,
    ensures
        encode(ads).len() == if ads.len() == 1 {
            2 + ads[0].1.len()
        } else {
            0
        },
{
    if ads.len() == 1 {
        assert(ads.drop_last() =~= Seq::empty());
        assert(encode(ads.drop_last()) =~= Seq::<u8>::empty());
    }
}

proof fn lemma_concat_len(a: Seq<(u8, Seq<u8>)>, b: Seq<(u8, Seq<u8>)>)
    ensures
        encode(a + b).len() == encode(a).len() + encode(b).len(),
    decreases b.len(),
{
    if b.len() == 0 {
        assert(a + b =~= a);
    } else {
        lemma_concat_len(a, b.drop_last());
        assert((a + b).drop_last() =~= a + b.drop_last());
        assert((a + b).last() == b.last());
    }
}

proof fn lemma_leading_len(cfg: RuntimeCfg, flags: u8, man: Seq<u8>)
    ensures
        encode(leading_ads(cfg, flags, man)).len() == room_before_name(cfg, man),
{
    let a = seq![(0x01u8, seq![flags])];
    let b = a + manufacturer_ad(cfg, man);
    let c = b + service_uuid_ad(cfg);
    let d = c + service_data_ad(cfg);
    let e = d + appearance_ad(cfg);
    assert(e + tx_power_ad(cfg) =~= leading_ads(cfg, flags, man));
    lemma_concat_len(e, tx_power_ad(cfg));
    lemma_concat_len(d, appearance_ad(cfg));
    lemma_concat_len(c, service_data_ad(cfg));
    lemma_concat_len(b, service_uuid_ad(cfg));
    lemma_concat_len(a, manufacturer_ad(cfg, man));
    lemma_one_len(a);
    lemma_one_len(manufacturer_ad(cfg, man));
    lemma_one_len(service_uuid_ad(cfg));
    lemma_one_len(service_data_ad(cfg));
    lemma_one_len(appearance_ad(cfg));
    lemma_one_len(tx_power_ad(cfg));
}

/// A structure is appended as the number of bytes that follow, its type and its
/// data, and only where the payload stays within 31 bytes.
pub proof fn law_structure_is_appended(dst: &mut Vec<u8>, ty: u8, data: &[u8], r: bool)
    requires
        call_ensures(push_ad, (dst, ty, data), r),
    ensures
        r <==> old(dst)@.len() + 2 + data@.len() <= 31,
        !r ==> final(dst)@ == old(dst)@,
        r ==> ({
            let n = old(dst)@.len() as int;
            &&& final(dst)@.len() == n + 2 + data@.len()
            &&& final(dst)@.take(n) == old(dst)@
            &&& final(dst)@[n] == data@.len() + 1
            &&& final(dst)@[n + 1] == ty
            &&& final(dst)@.skip(n + 2) == data@
        }),
{
    if r {
        let n = old(dst)@.len() as int;
        assert(final(dst)@.take(n) =~= old(dst)@);
        assert(final(dst)@.skip(n + 2) =~= data@);
    }
}

/// A raw payload is sent as it is, or not at all where it is over 31 bytes; an
/// absent or empty one gives way to the automatic payload.
pub proof fn law_raw_payload_is_sent_as_it_is(
    cfg: RuntimeCfg,
    flags: u8,
    man: &[u8],
    name: &[u8],
    r: Option<Vec<u8>>,
    built: Option<Vec<u8>>,
)
    requires
        call_ensures(advertising_payload, (&cfg, flags, man, name), r),
        call_ensures(build_adv_payload, (&cfg, flags, man, name), built),
    ensures
        ({
            let raw = bytes_in(cfg.adv_data);
            &&& 0 < raw.len() <= 31 ==> r is Some && r->0@ == raw
            &&& raw.len() > 31 ==> r is None
            &&& raw.len() == 0 ==> (r is Some <==> built is Some)
            &&& raw.len() == 0 && r is Some ==> r->0@ == built->0@
        }),
{
}

/// The flags say limited discoverable for 1, general discoverable for all but 1
/// and 2, and always that there is no classic Bluetooth.
pub proof fn law_flags_say_how_discoverable(cfg: RuntimeCfg, r: u8)
    requires
        call_ensures(discoverability_flags, (&cfg,), r),
    ensures
        r & 0x01 != 0 <==> cfg.discoverable == 1,
        r & 0x02 != 0 <==> cfg.discoverable != 1 && cfg.discoverable != 2,
        r & 0x04 != 0,
        r & 0xf8 == 0,
{
    assert(0x05u8 & 0x01 != 0 && 0x05u8 & 0x02 == 0 && 0x05u8 & 0x04 != 0 && 0x05u8 & 0xf8 == 0
        && 0x04u8 & 0x01 == 0 && 0x04u8 & 0x02 == 0 && 0x04u8 & 0x04 != 0 && 0x04u8 & 0xf8 == 0
        && 0x06u8 & 0x01 == 0 && 0x06u8 & 0x02 != 0 && 0x06u8 & 0x04 != 0 && 0x06u8 & 0xf8 == 0)
        by (bit_vector);
}

/// The name of a session is the configured one where that is text, and
/// otherwise `RUNTIME-BLE`.
pub proof fn law_name_is_the_configured_one(cfg: RuntimeCfg, r: Vec<u8>)
    requires
        call_ensures(device_name, (&cfg,), r),
    ensures
        cfg.device_name is Some && vstd::utf8::valid_utf8(cfg.device_name->0@) ==> r@
            == cfg.device_name->0@,
        cfg.device_name is None || !vstd::utf8::valid_utf8(cfg.device_name->0@) ==> r@
            == "RUNTIME-BLE".spec_bytes(),
{
    reveal_strlit("RUNTIME-BLE");
    vstd::string::is_ascii_spec_bytes("RUNTIME-BLE");
    assert("RUNTIME-BLE".spec_bytes() =~= crate::adv::name_of(None));
}

/// An appearance of zero shows a generic power device, any other one itself.
pub proof fn law_appearance_is_shown(value: u16, r: u16)
    requires
        call_ensures(gap_appearance, (value,), r),
    ensures
        value != 0 ==> r == value,
        value == 0 ==> r == 30 * 64,
{
}

/// The transmit power is the configured one where that is present and one that
/// a controller can be asked for, and otherwise 0 dBm.
pub proof fn law_power_is_the_configured_one(cfg: RuntimeCfg, r: i8)
    requires
        call_ensures(adv_tx_power, (&cfg,), r),
    ensures
        r == 0 || (cfg.adv_tx_power_present != 0 && r == cfg.adv_tx_power_dbm),
        ({
            let dbm = cfg.adv_tx_power_dbm as int;
            let low = dbm == -40 || (-20 <= dbm <= 0 && dbm % 4 == 0);
            let high = 2 <= dbm <= 8 || (10 <= dbm <= 20 && dbm % 2 == 0);
            cfg.adv_tx_power_present != 0 && (low || high) <==> cfg.adv_tx_power_present != 0 && (r
                == dbm)
        }),
{
}

/// A channel is used where its bit is set; where no bit of a channel is set,
/// the choice is left open.
pub proof fn law_channels_are_the_configured_ones(cfg: RuntimeCfg, r: Option<ChannelMap>)
    requires
        call_ensures(adv_channel_map, (&cfg,), r),
    ensures
        r is None <==> cfg.adv_channel_map & 0x07 == 0,
        r matches Some(m) ==> {
            &&& m.ch37 <==> cfg.adv_channel_map & 0x01 != 0
            &&& m.ch38 <==> cfg.adv_channel_map & 0x02 != 0
            &&& m.ch39 <==> cfg.adv_channel_map & 0x04 != 0
        },
{
    let raw = cfg.adv_channel_map;
    assert(raw & 0x07 == 0 <==> raw & 0x01 == 0 && raw & 0x02 == 0 && raw & 0x04 == 0)
        by (bit_vector);
}

/// The policy filters scan requests where it is 1 or 3, connection requests
/// where it is 2 or 3; where it filters, the configured address is the one that
/// is accepted.
pub proof fn law_filter_is_the_configured_one(
    cfg: RuntimeCfg,
    policy: FilterPolicy,
    accept: Option<Address>,
)
    requires
        call_ensures(adv_filter_policy, (&cfg,), policy),
        call_ensures(adv_accept_address, (&cfg,), accept),
    ensures
        policy is FilterScan || policy is FilterConnAndScan <==> cfg.adv_filter_policy == 1
            || cfg.adv_filter_policy == 3,
        policy is FilterConn || policy is FilterConnAndScan <==> cfg.adv_filter_policy == 2
            || cfg.adv_filter_policy == 3,
        accept is Some <==> cfg.adv_filter_policy != 0 && cfg.adv_accept_address is Some,
        accept matches Some(a) ==> {
            &&& Some(a.addr) == cfg.adv_accept_address
            &&& a.kind == 0 <==> cfg.adv_accept_address_kind == 1
            &&& a.kind == 1 <==> cfg.adv_accept_address_kind != 1
        },
{
}

/// The parameters of an advertisement are the configured ones: the least and
/// the greatest interval, 30 and 60 ms where they are zero, and the power,
/// channels, policy and accepted address.
pub proof fn law_parameters_are_the_configured_ones(
    cfg: RuntimeCfg,
    p: AdvParams,
    power: i8,
    channels: Option<ChannelMap>,
    policy: FilterPolicy,
    accept: Option<Address>,
)
    requires
        call_ensures(advertising_params, (&cfg,), p),
        call_ensures(adv_tx_power, (&cfg,), power),
        call_ensures(adv_channel_map, (&cfg,), channels),
        call_ensures(adv_filter_policy, (&cfg,), policy),
        call_ensures(adv_accept_address, (&cfg,), accept),
    ensures
        cfg.adv_interval_min_ms > 0 ==> p.interval_min_ms == cfg.adv_interval_min_ms,
        cfg.adv_interval_min_ms == 0 ==> p.interval_min_ms == 30,
        cfg.adv_interval_max_ms > 0 ==> p.interval_max_ms == cfg.adv_interval_max_ms,
        cfg.adv_interval_max_ms == 0 ==> p.interval_max_ms == 60,
        p.tx_power_dbm == power,
        p.channel_map == channels,
        p.filter_policy == policy,
        p.accept == accept,
{
}

/// A session advertises with the intervals that the application configured: the
/// least is the least and the greatest the greatest, so that in order they stay
/// in order.
pub proof fn law_session_advertises_as_configured(
    rt: &mut Runtime,
    c: RuntimeBleConfig,
    r: i32,
    p: AdvParams,
)
    requires
        call_ensures(runtime_ble_init, (rt, Some(c)), r),
        r == 0,
        call_ensures(advertising_params, (&final(rt).config->0,), p),
    ensures
        c.adv.interval_min_ms > 0 ==> p.interval_min_ms == c.adv.interval_min_ms,
        c.adv.interval_max_ms > 0 ==> p.interval_max_ms == c.adv.interval_max_ms,
        c.adv.interval_min_ms == 0 && c.adv.interval_max_ms == 0 ==> p.interval_min_ms == 30
            && p.interval_max_ms == 60,
        0 < c.adv.interval_min_ms <= c.adv.interval_max_ms ==> p.interval_min_ms
            <= p.interval_max_ms,
        c.adv.filter_policy == 0 ==> p.accept is None && p.filter_policy is Unfiltered,
        c.adv.filter_policy != 0 ==> p.accept is Some && Some(p.accept->0.addr)
            == c.adv.accept_address,
{
}

/// A directed advertisement calls the configured peer; there is one exactly
/// where a peer is configured.
pub proof fn law_directed_peer_is_the_configured_one(cfg: RuntimeCfg, r: Option<Address>)
    requires
        call_ensures(directed_peer, (&cfg,), r),
    ensures
        r is Some <==> cfg.directed_peer_address is Some,
        r matches Some(a) ==> {
            &&& Some(a.addr) == cfg.directed_peer_address
            &&& a.kind == 0 <==> cfg.directed_peer_address_kind == 1
            &&& a.kind == 1 <==> cfg.directed_peer_address_kind != 1
        },
{
}

/// The payload of a session is the one for its flags, its manufacturer data and
/// its name; the scan response is the first 31 bytes of the configured one.
pub proof fn law_parts_are_payload_and_scan_response(
    cfg: RuntimeCfg,
    man: &[u8],
    name: Vec<u8>,
    text: &[u8],
    flags: u8,
    payload: Option<Vec<u8>>,
    r: Result<(Vec<u8>, Vec<u8>), AdvError>,
)
    requires
        man@ == bytes_in(cfg.manufacturer_data),
        call_ensures(device_name, (&cfg,), name),
        text@ == name@,
        call_ensures(discoverability_flags, (&cfg,), flags),
        call_ensures(advertising_payload, (&cfg, flags, man, text), payload),
        call_ensures(advertising_parts, (&cfg,), r),
    ensures
        r is Ok <==> payload is Some,
        r matches Ok((adv, scan)) ==> {
            let whole = bytes_in(cfg.scan_response_data);
            &&& adv@ == payload->0@
            &&& scan@.len() == if whole.len() < 31 {
                whole.len()
            } else {
                31
            }
            &&& scan@ == whole.take(scan@.len() as int)
        },
{
    if let Ok((adv, scan)) = r {
        let whole = bytes_in(cfg.scan_response_data);
        assert(scan@ =~= whole.take(scan@.len() as int));
    }
}

/// A connectable device with a configured peer calls that peer and sends no
/// payload; any other one sends its payload and its scan response, connectable
/// and scannable.
pub proof fn law_connectable_form(
    cfg: RuntimeCfg,
    peer: Option<Address>,
    parts: Result<(Vec<u8>, Vec<u8>), AdvError>,
    r: Result<Advertisement<Vec<u8>>, AdvError>,
)
    requires
        call_ensures(directed_peer, (&cfg,), peer),
        call_ensures(advertising_parts, (&cfg,), parts),
        call_ensures(connectable_advertisement, (&cfg,), r),
    ensures
        peer is Some ==> (r matches Ok(a) && (a@ matches Advertisement::Directed {
            peer: p,
            high_duty,
        } && p == peer->0 && (high_duty <==> cfg.directed_high_duty != 0))),
        peer is None ==> (r is Ok <==> parts is Ok),
        peer is None && r is Ok ==> (r->Ok_0@ matches Advertisement::ConnectableScannable {
            adv,
            scan,
        } && adv == parts->Ok_0.0@ && scan == parts->Ok_0.1@),
{
}

/// A broadcaster sends its payload, scannable exactly where there is a scan
/// response, and never calls a peer.
pub proof fn law_nonconnectable_form(
    cfg: RuntimeCfg,
    parts: Result<(Vec<u8>, Vec<u8>), AdvError>,
    r: Result<Advertisement<Vec<u8>>, AdvError>,
)
    requires
        call_ensures(advertising_parts, (&cfg,), parts),
        call_ensures(nonconnectable_advertisement, (&cfg,), r),
    ensures
        r is Ok <==> parts is Ok,
        r is Ok && bytes_in(cfg.scan_response_data).len() == 0 ==> (
        r->Ok_0@ matches Advertisement::NonconnectableNonscannable { adv } && adv
            == parts->Ok_0.0@),
        r is Ok && bytes_in(cfg.scan_response_data).len() > 0 ==> (
        r->Ok_0@ matches Advertisement::NonconnectableScannable { adv, scan } && adv
            == parts->Ok_0.0@ && scan == parts->Ok_0.1@),
{
}

} // verus!
