//! The attribute table: what is built for each declaration, and where it is
//! found again.

use crate::config::{
    char_defs, desc_defs, service_defs, Build, RuntimeBleCharDef, RuntimeBleDescDef,
    RuntimeBleServiceDef, RuntimeCfg,
};
use crate::gatt::{
    descriptor_is_writable, descriptor_permissions, flat_char_defs, flat_chars,
    index_gatt, map_permission, map_props, plan_gatt, props_to_c, uuid_from, AttPermissions,
    CharHandles, CharPlan, GattIndex, GattPlan, PermissionLevel, ServicePlan,
};
use crate::runtime::{runtime_ble_char_index, Runtime};
use vstd::prelude::*;

verus! {

/// What is declared in a list that may be left out.
pub open spec fn listed<T>(list: Option<Vec<T>>) -> Seq<T> {
    match list {
        Some(v) => v@,
        None => Seq::empty(),
    }
}

/// A field that holds a UUID of two or sixteen bytes gives that UUID.
pub open spec fn keeps_uuid(field: Option<Vec<u8>>, uuid: Seq<u8>) -> bool {
    (listed(field).len() == 2 || listed(field).len() == 16) ==> uuid == listed(field)
}

/// A UUID of two or sixteen bytes is kept, and anything else becomes the
/// two-byte UUID zero.
pub proof fn law_uuid_is_kept(field: Option<Vec<u8>>, r: Vec<u8>)
    requires
        call_ensures(uuid_from, (&field,), r),
    ensures
        keeps_uuid(field, r@),
        listed(field).len() != 2 && listed(field).len() != 16 ==> r@.len() == 2 && r@[0] == 0
            && r@[1] == 0,
{
}

/// Each property of the application interface is one bit of the standard: read
/// 0x02, write without response 0x04, write 0x08, notify 0x10, indicate 0x20.
pub proof fn law_properties_are_mapped(props: u16, r: u8)
    requires
        call_ensures(map_props, (props,), r),
    ensures
        r & 0x02 != 0 <==> props & 0x01 != 0,
        r & 0x08 != 0 <==> props & 0x02 != 0,
        r & 0x04 != 0 <==> props & 0x04 != 0,
        r & 0x10 != 0 <==> props & 0x08 != 0,
        r & 0x20 != 0 <==> props & 0x10 != 0,
        r & 0xc1 == 0,
{
    lemma_props(props);
}

proof fn lemma_props(props: u16)
    ensures
        ({
            let r = crate::gatt::ble_props(props);
            &&& r & 0x02 != 0 <==> props & 0x01 != 0
            &&& r & 0x08 != 0 <==> props & 0x02 != 0
            &&& r & 0x04 != 0 <==> props & 0x04 != 0
            &&& r & 0x10 != 0 <==> props & 0x08 != 0
            &&& r & 0x20 != 0 <==> props & 0x10 != 0
            &&& r & 0xc1 == 0
        }),
{
    let r = crate::gatt::ble_props(props);
    assert({
        let q = (if props & 0x01 != 0 { 0x02u8 } else { 0u8 }) | (if props & 0x04 != 0 {
            0x04u8
        } else {
            0u8
        }) | (if props & 0x02 != 0 { 0x08u8 } else { 0u8 }) | (if props & 0x08 != 0 {
            0x10u8
        } else {
            0u8
        }) | (if props & 0x10 != 0 { 0x20u8 } else { 0u8 });
        &&& (q & 0x02 != 0) == (props & 0x01 != 0)
        &&& (q & 0x08 != 0) == (props & 0x02 != 0)
        &&& (q & 0x04 != 0) == (props & 0x04 != 0)
        &&& (q & 0x10 != 0) == (props & 0x08 != 0)
        &&& (q & 0x20 != 0) == (props & 0x10 != 0)
        &&& q & 0xc1 == 0
    }) by (bit_vector);
}

/// Each property of the standard is reported as one bit of the application
/// interface, the other way round.
pub proof fn law_properties_are_reported(ble: u8, r: u16)
    requires
        call_ensures(props_to_c, (ble,), r),
    ensures
        r & 0x01 != 0 <==> ble & 0x02 != 0,
        r & 0x02 != 0 <==> ble & 0x08 != 0,
        r & 0x04 != 0 <==> ble & 0x04 != 0,
        r & 0x08 != 0 <==> ble & 0x10 != 0,
        r & 0x10 != 0 <==> ble & 0x20 != 0,
        r & 0xffe0 == 0,
{
    assert({
        let q = (if ble & 0x02 != 0 { 0x01u16 } else { 0u16 }) | (if ble & 0x04 != 0 {
            0x04u16
        } else {
            0u16
        }) | (if ble & 0x08 != 0 { 0x02u16 } else { 0u16 }) | (if ble & 0x10 != 0 {
            0x08u16
        } else {
            0u16
        }) | (if ble & 0x20 != 0 { 0x10u16 } else { 0u16 });
        &&& (q & 0x01 != 0) == (ble & 0x02 != 0)
        &&& (q & 0x02 != 0) == (ble & 0x08 != 0)
        &&& (q & 0x04 != 0) == (ble & 0x04 != 0)
        &&& (q & 0x08 != 0) == (ble & 0x10 != 0)
        &&& (q & 0x10 != 0) == (ble & 0x20 != 0)
        &&& q & 0xffe0 == 0
    }) by (bit_vector);
}

/// A level is demanded where one of its two bits is set, and authentication
/// wherever the second is.
pub proof fn law_level_follows_its_bits(
    mask: u16,
    encrypt: u16,
    auth: u16,
    r: Option<PermissionLevel>,
)
    requires
        call_ensures(map_permission, (mask, encrypt, auth), r),
    ensures
        r is None <==> mask & encrypt == 0 && mask & auth == 0,
        r == Some(PermissionLevel::AuthenticationRequired) <==> mask & auth != 0,
        r == Some(PermissionLevel::EncryptionRequired) <==> mask & auth == 0 && mask & encrypt != 0,
{
}

/// Who may read a descriptor is said by bits 0x01 and 0x02 of its permissions,
/// and everybody may where neither is set; who may write it by bits 0x40, 0x04
/// and 0x08, and nobody may where none is set.
pub proof fn law_descriptor_demands(mask: u16, r: AttPermissions, writable: bool)
    requires
        call_ensures(descriptor_permissions, (mask,), r),
        call_ensures(descriptor_is_writable, (mask,), writable),
    ensures
        r.read == PermissionLevel::Allowed <==> mask & 0x01 == 0 && mask & 0x02 == 0,
        r.read == PermissionLevel::EncryptionRequired <==> mask & 0x01 != 0 && mask & 0x02 == 0,
        r.read == PermissionLevel::AuthenticationRequired <==> mask & 0x02 != 0,
        r.write == PermissionLevel::Allowed <==> mask & 0x40 != 0,
        r.write == PermissionLevel::AuthenticationRequired <==> mask & 0x40 == 0 && mask & 0x08
            != 0,
        r.write == PermissionLevel::EncryptionRequired <==> mask & 0x40 == 0 && mask & 0x08 == 0
            && mask & 0x04 != 0,
        r.write == PermissionLevel::NotAllowed <==> mask & 0x40 == 0 && mask & 0x08 == 0 && mask
            & 0x04 == 0,
        writable <==> r.write != PermissionLevel::NotAllowed,
{
}

/// A characteristic is built with the UUID and the properties that it was
/// declared with.
pub open spec fn shows_declaration(chr: CharPlan, def: RuntimeBleCharDef) -> bool {
    &&& keeps_uuid(def.uuid, chr.uuid@)
    &&& chr.props == def.props
    &&& chr.ble_props & 0x02 != 0 <==> def.props & 0x01 != 0
    &&& chr.ble_props & 0x08 != 0 <==> def.props & 0x02 != 0
    &&& chr.ble_props & 0x04 != 0 <==> def.props & 0x04 != 0
    &&& chr.ble_props & 0x10 != 0 <==> def.props & 0x08 != 0
    &&& chr.ble_props & 0x20 != 0 <==> def.props & 0x10 != 0
    &&& chr.ble_props & 0xc1 == 0
    &&& chr.descriptors@.len() == listed(def.descriptors).len()
}

/// Reading a characteristic demands what bits 0x01 and 0x02 of its permissions
/// say, writing it what bits 0x04 and 0x08 say, and subscribing, where it can
/// notify or indicate, what bits 0x10 and 0x20 say; the lower bit of each pair
/// demands encryption, the upper one authentication.
pub open spec fn guards_operations(chr: CharPlan, def: RuntimeBleCharDef) -> bool {
    let mask = def.permissions;
    let subscribable = def.props & 0x08 != 0 || def.props & 0x10 != 0;
    &&& chr.read is None <==> mask & 0x01 == 0 && mask & 0x02 == 0
    &&& chr.read == Some(PermissionLevel::AuthenticationRequired) <==> mask & 0x02 != 0
    &&& chr.read == Some(PermissionLevel::EncryptionRequired) <==> mask & 0x02 == 0 && mask & 0x01
        != 0
    &&& chr.write is None <==> mask & 0x04 == 0 && mask & 0x08 == 0
    &&& chr.write == Some(PermissionLevel::AuthenticationRequired) <==> mask & 0x08 != 0
    &&& chr.write == Some(PermissionLevel::EncryptionRequired) <==> mask & 0x08 == 0 && mask & 0x04
        != 0
    &&& chr.cccd is None <==> !subscribable || (mask & 0x10 == 0 && mask & 0x20 == 0)
    &&& chr.cccd == Some(PermissionLevel::AuthenticationRequired) <==> subscribable && mask & 0x20
        != 0
    &&& chr.cccd == Some(PermissionLevel::EncryptionRequired) <==> subscribable && mask & 0x20 == 0
        && mask & 0x10 != 0
}

/// Every declared service and characteristic is built in its place: with its
/// UUID and properties, and guarded as its permissions say.
pub proof fn law_table_is_built_as_declared(
    build: Build,
    cfg: RuntimeCfg,
    plan: GattPlan,
    i: int,
    j: int,
)
    requires
        call_ensures(plan_gatt, (&build, &cfg), plan),
        0 <= i < listed(cfg.services).len(),
        0 <= j < listed(listed(cfg.services)[i].chars).len(),
    ensures
        !plan.builtin,
        plan.services@.len() == listed(cfg.services).len(),
        plan.services@[i].chars@.len() == listed(listed(cfg.services)[i].chars).len(),
        keeps_uuid(listed(cfg.services)[i].uuid, plan.services@[i].uuid@),
        shows_declaration(
            plan.services@[i].chars@[j],
            listed(listed(cfg.services)[i].chars)[j],
        ),
        guards_operations(
            plan.services@[i].chars@[j],
            listed(listed(cfg.services)[i].chars)[j],
        ),
{
    lemma_listed(cfg.services);
    lemma_char_built(build, cfg, plan, i, j);
    let def = listed(listed(cfg.services)[i].chars)[j];
    lemma_props(def.props);
}

proof fn lemma_listed(services: Option<Vec<RuntimeBleServiceDef>>)
    ensures
        listed(services) == service_defs(services),
        forall|s: RuntimeBleServiceDef| #[trigger] char_defs(s) == listed(s.chars),
        forall|c: RuntimeBleCharDef| #[trigger] desc_defs(c) == listed(c.descriptors),
{
}

proof fn lemma_char_built(build: Build, cfg: RuntimeCfg, plan: GattPlan, i: int, j: int)
    requires
        call_ensures(plan_gatt, (&build, &cfg), plan),
        0 <= i < listed(cfg.services).len(),
        0 <= j < listed(listed(cfg.services)[i].chars).len(),
    ensures
        plan.services@.len() == listed(cfg.services).len(),
        plan.services@[i].builds(listed(cfg.services)[i], build.cap()),
        plan.services@[i].chars@[j].builds(
            listed(listed(cfg.services)[i].chars)[j],
            build.cap(),
        ),
{
    lemma_listed(cfg.services);
    assert(plan.services@[i].builds(service_defs(cfg.services)[i], build.cap()));
    assert(char_defs(listed(cfg.services)[i]) == listed(listed(cfg.services)[i].chars));
    assert(plan.services@[i].chars@[j].builds(
        char_defs(service_defs(cfg.services)[i])[j],
        build.cap(),
    ));
}

/// A permission to read says nothing of writing, and the other way round: two
/// declarations whose permissions agree on the bits of an operation demand the
/// same of it.
pub proof fn law_permissions_are_separate(
    build: Build,
    cfg: RuntimeCfg,
    plan: GattPlan,
    i: int,
    j: int,
    k: int,
    l: int,
)
    requires
        call_ensures(plan_gatt, (&build, &cfg), plan),
        0 <= i < listed(cfg.services).len(),
        0 <= j < listed(listed(cfg.services)[i].chars).len(),
        0 <= k < listed(cfg.services).len(),
        0 <= l < listed(listed(cfg.services)[k].chars).len(),
    ensures
        ({
            let a = listed(listed(cfg.services)[i].chars)[j].permissions;
            let b = listed(listed(cfg.services)[k].chars)[l].permissions;
            let x = plan.services@[i].chars@[j];
            let y = plan.services@[k].chars@[l];
            &&& a & 0x03 == b & 0x03 ==> x.read == y.read
            &&& a & 0x0c == b & 0x0c ==> x.write == y.write
            &&& a == 0x01 ==> x.read is Some && x.write is None
            &&& a == 0x04 ==> x.read is None && x.write is Some
        }),
{
    law_table_is_built_as_declared(build, cfg, plan, i, j);
    law_table_is_built_as_declared(build, cfg, plan, k, l);
    let a = listed(listed(cfg.services)[i].chars)[j].permissions;
    let b = listed(listed(cfg.services)[k].chars)[l].permissions;
    assert(a & 0x03 == b & 0x03 ==> a & 0x01 == b & 0x01 && a & 0x02 == b & 0x02) by (bit_vector);
    assert(a & 0x0c == b & 0x0c ==> a & 0x04 == b & 0x04 && a & 0x08 == b & 0x08) by (bit_vector);
    assert(0x01u16 & 0x01 != 0 && 0x01u16 & 0x04 == 0 && 0x01u16 & 0x08 == 0 && 0x04u16 & 0x04 != 0
        && 0x04u16 & 0x01 == 0 && 0x04u16 & 0x02 == 0) by (bit_vector);
    lemma_char_built(build, cfg, plan, i, j);
    lemma_char_built(build, cfg, plan, k, l);
}

/// Every declared descriptor is built in its place: with its UUID, guarded as
/// its permissions say, and with its value, which is cut to what a value holds
/// where the peer may write it.
pub proof fn law_descriptors_are_built_as_declared(
    build: Build,
    cfg: RuntimeCfg,
    plan: GattPlan,
    room: usize,
    i: int,
    j: int,
    k: int,
)
    requires
        call_ensures(plan_gatt, (&build, &cfg), plan),
        call_ensures(Build::value_len, (&build,), room),
        0 <= i < listed(cfg.services).len(),
        0 <= j < listed(listed(cfg.services)[i].chars).len(),
        0 <= k < listed(listed(listed(cfg.services)[i].chars)[j].descriptors).len(),
    ensures
        ({
            let def: RuntimeBleDescDef = listed(
                listed(listed(cfg.services)[i].chars)[j].descriptors,
            )[k];
            let desc = plan.services@[i].chars@[j].descriptors@[k];
            let mask = def.permissions;
            let value = listed(def.value);
            let writable = mask & 0x40 != 0 || mask & 0x04 != 0 || mask & 0x08 != 0;
            &&& plan.services@[i].chars@[j].descriptors@.len() == listed(
                listed(listed(cfg.services)[i].chars)[j].descriptors,
            ).len()
            &&& keeps_uuid(def.uuid, desc.uuid@)
            &&& desc.writable <==> writable
            &&& desc.permissions.read == PermissionLevel::Allowed <==> mask & 0x01 == 0 && mask
                & 0x02 == 0
            &&& desc.permissions.read == PermissionLevel::AuthenticationRequired <==> mask & 0x02
                != 0
            &&& desc.permissions.read == PermissionLevel::EncryptionRequired <==> mask & 0x02 == 0
                && mask & 0x01 != 0
            &&& desc.permissions.write == PermissionLevel::Allowed <==> mask & 0x40 != 0
            &&& desc.permissions.write == PermissionLevel::AuthenticationRequired <==> mask & 0x40
                == 0 && mask & 0x08 != 0
            &&& desc.permissions.write == PermissionLevel::EncryptionRequired <==> mask & 0x40 == 0
                && mask & 0x08 == 0 && mask & 0x04 != 0
            &&& !writable || value.len() <= room ==> desc.value@ == value
            &&& writable && value.len() > room ==> desc.value@ == value.take(room as int)
        }),
{
    lemma_listed(cfg.services);
    lemma_char_built(build, cfg, plan, i, j);
    let chr = listed(listed(cfg.services)[i].chars)[j];
    assert(desc_defs(chr) == listed(chr.descriptors));
    assert(plan.services@[i].chars@[j].descriptors@[k].builds(desc_defs(chr)[k], build.cap()));
    assert(listed(desc_defs(chr)[k].value) =~= crate::gatt::desc_value(desc_defs(chr)[k]));
}

/// Without declared services the table is the Nordic UART Service, whose first
/// characteristic is written and whose second one notifies, open to all.
pub proof fn law_builtin_table_is_the_uart_service(build: Build, cfg: RuntimeCfg, plan: GattPlan)
    requires
        call_ensures(plan_gatt, (&build, &cfg), plan),
        listed(cfg.services).len() == 0,
    ensures
        plan.builtin,
        plan.services@.len() == 1,
        ({
            let service = plan.services@[0];
            &&& is_uart_uuid(service.uuid@, 1)
            &&& service.chars@.len() == 2
            &&& is_uart_uuid(service.chars@[0].uuid@, 2)
            &&& service.chars@[0].ble_props == 0x0c
            &&& service.chars@[0].props == 0x06
            &&& is_uart_uuid(service.chars@[1].uuid@, 3)
            &&& service.chars@[1].ble_props == 0x10
            &&& service.chars@[1].props == 0x08
            &&& forall|i: int|
                0 <= i < 2 ==> (#[trigger] service.chars@[i]).read is None
                    && service.chars@[i].write is None && service.chars@[i].cccd is None
                    && service.chars@[i].descriptors@.len() == 0
        }),
{
    assert(0x02u16 | 0x04u16 == 0x06u16) by (bit_vector);
    assert(crate::gatt::ble_props(0x06) == 0x0c && crate::gatt::ble_props(0x08) == 0x10)
        by (bit_vector);
}

/// The UUID 6e40xxxx-b5a3-f393-e0a9-e50e24dcca9e, low byte first, with the
/// number `n` in the place of the x.
pub open spec fn is_uart_uuid(uuid: Seq<u8>, n: u8) -> bool {
    uuid == seq![
        0x9eu8,
        0xca,
        0xdc,
        0x24,
        0x0e,
        0xe5,
        0xa9,
        0xe0,
        0x93,
        0xf3,
        0xa3,
        0xb5,
        n,
        0x00,
        0x40,
        0x6e,
    ]
}

/// The number of characteristics that are declared in the services before `i`.
pub open spec fn declared_before(services: Seq<RuntimeBleServiceDef>, i: int) -> int
    decreases i,
{
    if i <= 0 {
        0
    } else {
        declared_before(services, i - 1) + listed(services[i - 1].chars).len()
    }
}

/// The number of characteristics that are built in the services before `i`.
pub open spec fn built_before(services: Seq<ServicePlan>, i: int) -> int
    decreases i,
{
    if i <= 0 {
        0
    } else {
        built_before(services, i - 1) + services[i - 1].chars@.len()
    }
}

/// The place of a characteristic is how many are declared before it: those of
/// earlier services and earlier ones of its own.
pub proof fn law_place_counts_declarations(services: Seq<RuntimeBleServiceDef>, i: int, j: int)
    requires
        0 <= i < services.len(),
        0 <= j < listed(services[i].chars).len(),
    ensures
        0 <= declared_before(services, i) + j < flat_char_defs(services).len(),
        flat_char_defs(services)[declared_before(services, i) + j] == listed(services[i].chars)[j],
        flat_char_defs(services).len() == declared_before(services, services.len() as int),
    decreases services.len(),
{
    lemma_declared_len(services);
    let rest = services.drop_last();
    lemma_declared_same(services, i);
    if i < services.len() - 1 {
        law_place_counts_declarations(rest, i, j);
        assert(rest[i] == services[i]);
    } else {
        lemma_declared_len(rest);
        lemma_declared_same(services, services.len() - 1);
    }
    assert(char_defs(services.last()) == listed(services.last().chars));
}

proof fn lemma_declared_len(services: Seq<RuntimeBleServiceDef>)
    ensures
        flat_char_defs(services).len() == declared_before(services, services.len() as int),
    decreases services.len(),
{
    if services.len() > 0 {
        lemma_declared_len(services.drop_last());
        lemma_declared_same(services, services.len() - 1);
        assert(char_defs(services.last()) == listed(services.last().chars));
    }
}

proof fn lemma_declared_same(services: Seq<RuntimeBleServiceDef>, i: int)
    requires
        0 <= i < services.len(),
    ensures
        declared_before(services.drop_last(), i) == declared_before(services, i),
    decreases i,
{
    if i > 0 {
        lemma_declared_same(services, i - 1);
    }
}

/// The place of a built characteristic is how many are built before it.
pub proof fn law_place_counts_what_is_built(services: Seq<ServicePlan>, i: int, j: int)
    requires
        0 <= i < services.len(),
        0 <= j < services[i].chars@.len(),
    ensures
        0 <= built_before(services, i) + j < flat_chars(services).len(),
        flat_chars(services)[built_before(services, i) + j] == services[i].chars@[j],
        flat_chars(services).len() == built_before(services, services.len() as int),
    decreases services.len(),
{
    lemma_built_len(services);
    let rest = services.drop_last();
    lemma_built_same(services, i);
    if i < services.len() - 1 {
        law_place_counts_what_is_built(rest, i, j);
        assert(rest[i] == services[i]);
    } else {
        lemma_built_len(rest);
        lemma_built_same(services, services.len() - 1);
    }
}

proof fn lemma_built_len(services: Seq<ServicePlan>)
    ensures
        flat_chars(services).len() == built_before(services, services.len() as int),
    decreases services.len(),
{
    if services.len() > 0 {
        lemma_built_len(services.drop_last());
        lemma_built_same(services, services.len() - 1);
    }
}

proof fn lemma_built_same(services: Seq<ServicePlan>, i: int)
    requires
        0 <= i < services.len(),
    ensures
        built_before(services.drop_last(), i) == built_before(services, i),
    decreases i,
{
    if i > 0 {
        lemma_built_same(services, i - 1);
    }
}

/// A UUID is looked up among the declared characteristics: the answer is the
/// place of one that has it, none before it has it, and -1 is answered where no
/// one has it or it is no UUID.
pub proof fn law_lookup_finds_the_first(rt: Runtime, uuid: Option<&[u8]>, r: i32, i: int, j: int)
    requires
        call_ensures(runtime_ble_char_index, (&rt, uuid), r),
        rt.config is Some,
        0 <= i < listed(rt.config->0.services).len(),
        0 <= j < listed(listed(rt.config->0.services)[i].chars).len(),
    ensures
        ({
            let services = listed(rt.config->0.services);
            let place = declared_before(services, i) + j;
            let own = listed(services[i].chars)[j].uuid;
            let same = uuid is Some && own is Some && own->0@ == uuid->0@;
            let proper = uuid is Some && (uuid->0@.len() == 2 || uuid->0@.len() == 16);
            &&& r >= -1
            &&& !proper ==> r == -1
            &&& proper && same ==> 0 <= r <= place
            &&& r == place ==> same
        }),
{
    let services = listed(rt.config->0.services);
    lemma_listed(rt.config->0.services);
    law_place_counts_declarations(services, i, j);
    let place = declared_before(services, i) + j;
    let def = crate::runtime::declared(rt.config)[place];
    assert(def == listed(services[i].chars)[j]);
}

/// A table is indexed where the handles belong to it: each characteristic has
/// the handles that it was given, its declared properties, and its descriptors
/// under its place; only the built-in table has the places of the UART service.
pub proof fn law_index_has_every_handle(
    plan: GattPlan,
    handles: Vec<CharHandles>,
    r: Option<GattIndex>,
    i: int,
)
    requires
        call_ensures(index_gatt, (&plan, &handles), r),
        0 <= i < handles@.len(),
    ensures
        r matches Some(index) ==> {
            &&& index.chars@.len() == handles@.len()
            &&& index.props@.len() == handles@.len()
            &&& index.chars@[i].handle == handles@[i].value
            &&& index.chars@[i].cccd == handles@[i].cccd
            &&& index.props@[i] == flat_chars(plan.services@)[i].props
            &&& plan.builtin ==> index.nus_rx == Some(0usize) && index.nus_tx == Some(1usize)
            &&& !plan.builtin ==> index.nus_rx is None && index.nus_tx is None
        },
        r is None ==> handles@.len() != flat_chars(plan.services@).len() || exists|k: int|
            0 <= k < handles@.len() && (#[trigger] handles@[k]).descriptors@.len() != flat_chars(
                plan.services@,
            )[k].descriptors@.len(),
{
}

} // verus!
