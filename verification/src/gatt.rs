//! The GATT of a session: properties, permissions, the table to build, and the
//! index of what was built.

use crate::bytes::{clip, clipped, copied, opt_vec, same_bytes};
use crate::config::{
    char_defs, counts_fit, desc_defs, service_defs, Build, RuntimeBleCharDef, RuntimeBleDescDef,
    RuntimeBleServiceDef, RuntimeCfg,
};
use vstd::prelude::*;

verus! {

/// Property of the application interface: read.
pub const C_PROP_READ: u16 = 0x01;

/// Property of the application interface: write with response.
pub const C_PROP_WRITE: u16 = 0x02;

/// Property of the application interface: write without response.
pub const C_PROP_WRITE_NR: u16 = 0x04;

/// Property of the application interface: notify.
pub const C_PROP_NOTIFY: u16 = 0x08;

/// Property of the application interface: indicate.
pub const C_PROP_INDICATE: u16 = 0x10;

pub const C_PERM_READ_ENCRYPT: u16 = 0x01;

pub const C_PERM_READ_AUTH: u16 = 0x02;

pub const C_PERM_WRITE_ENCRYPT: u16 = 0x04;

pub const C_PERM_WRITE_AUTH: u16 = 0x08;

pub const C_PERM_CCCD_ENCRYPT: u16 = 0x10;

pub const C_PERM_CCCD_AUTH: u16 = 0x20;

pub const C_PERM_WRITE_ALLOWED: u16 = 0x40;

/// Whether `mask` has a bit of `bits`.
pub open spec fn any_bit(mask: u16, bits: u16) -> bool {
    mask & bits != 0
}

/// The characteristic properties of the Bluetooth standard for properties of
/// the application interface.
pub open spec fn ble_props(props: u16) -> u8 {
    (if props & C_PROP_READ != 0 { 0x02u8 } else { 0u8 }) | (if props & C_PROP_WRITE_NR != 0 {
        0x04u8
    } else {
        0u8
    }) | (if props & C_PROP_WRITE != 0 { 0x08u8 } else { 0u8 }) | (if props & C_PROP_NOTIFY != 0 {
        0x10u8
    } else {
        0u8
    }) | (if props & C_PROP_INDICATE != 0 { 0x20u8 } else { 0u8 })
}

/// The properties of the application interface for the characteristic
/// properties of the Bluetooth standard.
pub open spec fn c_props(ble: u8) -> u16 {
    (if ble & 0x02 != 0 { C_PROP_READ } else { 0u16 }) | (if ble & 0x04 != 0 {
        C_PROP_WRITE_NR
    } else {
        0u16
    }) | (if ble & 0x08 != 0 { C_PROP_WRITE } else { 0u16 }) | (if ble & 0x10 != 0 {
        C_PROP_NOTIFY
    } else {
        0u16
    }) | (if ble & 0x20 != 0 { C_PROP_INDICATE } else { 0u16 })
}

/// The characteristic properties of the Bluetooth standard for properties of
/// the application interface.
pub fn map_props(props: u16) -> (r: u8)
    ensures
        r == ble_props(props),
{
    (if props & C_PROP_READ != 0 { 0x02u8 } else { 0u8 }) | (if props & C_PROP_WRITE_NR != 0 {
        0x04u8
    } else {
        0u8
    }) | (if props & C_PROP_WRITE != 0 { 0x08u8 } else { 0u8 }) | (if props & C_PROP_NOTIFY != 0 {
        0x10u8
    } else {
        0u8
    }) | (if props & C_PROP_INDICATE != 0 { 0x20u8 } else { 0u8 })
}

/// The properties of the application interface for the characteristic
/// properties of the Bluetooth standard.
pub fn props_to_c(ble: u8) -> (r: u16)
    ensures
        r == c_props(ble),
{
    (if ble & 0x02 != 0 { C_PROP_READ } else { 0u16 }) | (if ble & 0x04 != 0 {
        C_PROP_WRITE_NR
    } else {
        0u16
    }) | (if ble & 0x08 != 0 { C_PROP_WRITE } else { 0u16 }) | (if ble & 0x10 != 0 {
        C_PROP_NOTIFY
    } else {
        0u16
    }) | (if ble & 0x20 != 0 { C_PROP_INDICATE } else { 0u16 })
}

/// Mapping properties to the standard and back loses nothing but bits that
/// name no property, and the other way round.
pub proof fn law_props_round_trip(props: u16, ble: u8)
    ensures
        c_props(ble_props(props)) == props & 0x1f,
        ble_props(c_props(ble)) == ble & 0x3e,
{
    assert(c_props(ble_props(props)) == props & 0x1f) by (bit_vector);
    assert(ble_props(c_props(ble)) == ble & 0x3e) by (bit_vector);
}

/// What an attribute operation demands of the link.
#[derive(Clone, Copy, Debug, PartialEq, Eq, Structural)]
pub enum PermissionLevel {
    Allowed,
    EncryptionRequired,
    AuthenticationRequired,
    NotAllowed,
}

/// The level that a permission mask demands; authentication where both bits
/// are set, none where neither is.
pub open spec fn level_of(mask: u16, encrypt_bit: u16, auth_bit: u16) -> Option<PermissionLevel> {
    if any_bit(mask, auth_bit) {
        Some(PermissionLevel::AuthenticationRequired)
    } else if any_bit(mask, encrypt_bit) {
        Some(PermissionLevel::EncryptionRequired)
    } else {
        None
    }
}

/// The level that a permission mask demands.
pub fn map_permission(mask: u16, encrypt_bit: u16, auth_bit: u16) -> (r: Option<PermissionLevel>)
    ensures
        r == level_of(mask, encrypt_bit, auth_bit),
{
    if mask & auth_bit != 0 {
        Some(PermissionLevel::AuthenticationRequired)
    } else if mask & encrypt_bit != 0 {
        Some(PermissionLevel::EncryptionRequired)
    } else {
        None
    }
}

/// What a descriptor demands of readers: nothing unless the mask says so.
pub open spec fn desc_read_of(mask: u16) -> PermissionLevel {
    match level_of(mask, C_PERM_READ_ENCRYPT, C_PERM_READ_AUTH) {
        Some(level) => level,
        None => PermissionLevel::Allowed,
    }
}

/// What a descriptor demands of writers: writing is not allowed unless the
/// mask allows it to all or demands something.
pub open spec fn desc_write_of(mask: u16) -> PermissionLevel {
    if any_bit(mask, C_PERM_WRITE_ALLOWED) {
        PermissionLevel::Allowed
    } else {
        match level_of(mask, C_PERM_WRITE_ENCRYPT, C_PERM_WRITE_AUTH) {
            Some(level) => level,
            None => PermissionLevel::NotAllowed,
        }
    }
}

/// What a descriptor demands of readers and of writers.
#[derive(Clone, Copy, Debug, PartialEq, Eq, Structural)]
pub struct AttPermissions {
    pub read: PermissionLevel,
    pub write: PermissionLevel,
}

/// What a descriptor demands of readers and of writers.
pub fn descriptor_permissions(mask: u16) -> (r: AttPermissions)
    ensures
        r == (AttPermissions { read: desc_read_of(mask), write: desc_write_of(mask) }),
{
    let read = match map_permission(mask, C_PERM_READ_ENCRYPT, C_PERM_READ_AUTH) {
        Some(level) => level,
        None => PermissionLevel::Allowed,
    };
    let write = if mask & C_PERM_WRITE_ALLOWED != 0 {
        PermissionLevel::Allowed
    } else {
        match map_permission(mask, C_PERM_WRITE_ENCRYPT, C_PERM_WRITE_AUTH) {
            Some(level) => level,
            None => PermissionLevel::NotAllowed,
        }
    };
    AttPermissions { read, write }
}

/// Whether the mask of a descriptor lets anybody write it.
pub open spec fn writable_of(mask: u16) -> bool {
    any_bit(mask, C_PERM_WRITE_ALLOWED) || any_bit(mask, C_PERM_WRITE_ENCRYPT) || any_bit(
        mask,
        C_PERM_WRITE_AUTH,
    )
}

/// Whether the mask of a descriptor lets anybody write it.
pub fn descriptor_is_writable(mask: u16) -> (r: bool)
    ensures
        r == writable_of(mask),
{
    assert((mask & (0x40u16 | 0x04u16 | 0x08u16) != 0) == (mask & 0x40 != 0 || mask & 0x04 != 0
        || mask & 0x08 != 0)) by (bit_vector);
    mask & (C_PERM_WRITE_ALLOWED | C_PERM_WRITE_ENCRYPT | C_PERM_WRITE_AUTH) != 0
}

/// A descriptor keeps a value of its own to write to exactly where writing it
/// is allowed to somebody; without a write bit it is read-only.
pub proof fn law_writable_iff_permitted(mask: u16)
    ensures
        writable_of(mask) <==> desc_write_of(mask) != PermissionLevel::NotAllowed,
{
}

/// The UUID behind a UUID field, low byte first; the two-byte UUID zero where
/// the field holds none of two or sixteen bytes.
pub open spec fn uuid_of(uuid: Option<Seq<u8>>) -> Seq<u8> {
    match uuid {
        Some(u) if u.len() == 2 || u.len() == 16 => u,
        _ => seq![0u8, 0u8],
    }
}

/// The UUID behind a UUID field.
pub fn uuid_from(uuid: &Option<Vec<u8>>) -> (r: Vec<u8>)
    ensures
        r@ == uuid_of(opt_vec(*uuid)),
{
    if let Some(u) = uuid {
        if u.len() == 2 || u.len() == 16 {
            return copied(u.as_slice());
        }
    }
    let zero: [u8; 2] = [0, 0];
    let r = copied(zero.as_slice());
    assert(r@ =~= seq![0u8, 0u8]);
    r
}

/// A UUID of the Nordic UART Service, low byte first; `n` tells them apart.
pub open spec fn nus_uuid(n: u8) -> Seq<u8> {
    seq![
        0x9eu8,
        0xca,
        0xdc,
        0x24,
        0x0e,
        0xe5,
        0xa9,
        0xe0,
        0x93,
        0xf3,
        0xa3,
        0xb5,
        n,
        0x00,
        0x40,
        0x6e,
    ]
}

/// Number of the Nordic UART Service itself.
pub const NUS_SVC: u8 = 1;

/// Number of its receive characteristic.
pub const NUS_RX: u8 = 2;

/// Number of its transmit characteristic.
pub const NUS_TX: u8 = 3;

fn nus_uuid_bytes(n: u8) -> (r: Vec<u8>)
    ensures
        r@ == nus_uuid(n),
{
    let raw: [u8; 16] = [
        0x9e,
        0xca,
        0xdc,
        0x24,
        0x0e,
        0xe5,
        0xa9,
        0xe0,
        0x93,
        0xf3,
        0xa3,
        0xb5,
        n,
        0x00,
        0x40,
        0x6e,
    ];
    let r = copied(raw.as_slice());
    assert(r@ =~= nus_uuid(n));
    r
}

/// A descriptor to build.
#[derive(Debug, PartialEq, Eq)]
pub struct DescPlan {
    pub uuid: Vec<u8>,
    pub permissions: AttPermissions,
    /// Whether it keeps a value of its own, which `value` only starts.
    pub writable: bool,
    pub value: Vec<u8>,
}

/// A characteristic to build; `read`, `write` and `cccd` are the permissions
/// to set where they are not left as they are.
#[derive(Debug, PartialEq, Eq)]
pub struct CharPlan {
    pub uuid: Vec<u8>,
    pub ble_props: u8,
    pub props: u16,
    pub read: Option<PermissionLevel>,
    pub write: Option<PermissionLevel>,
    pub cccd: Option<PermissionLevel>,
    pub descriptors: Vec<DescPlan>,
}

/// A service to build.
#[derive(Debug, PartialEq, Eq)]
pub struct ServicePlan {
    pub uuid: Vec<u8>,
    pub chars: Vec<CharPlan>,
}

/// The attribute table to build.
#[derive(Debug, PartialEq, Eq)]
pub struct GattPlan {
    /// Whether it is the built-in Nordic UART Service.
    pub builtin: bool,
    pub services: Vec<ServicePlan>,
}

/// The value bytes of a descriptor definition.
pub open spec fn desc_value(def: RuntimeBleDescDef) -> Seq<u8> {
    match def.value {
        Some(v) => v@,
        None => Seq::empty(),
    }
}

impl DescPlan {
    /// This is the descriptor that `def` asks for.
    pub open spec fn builds(self, def: RuntimeBleDescDef, cap: usize) -> bool {
        &&& self.uuid@ == uuid_of(opt_vec(def.uuid))
        &&& self.permissions.read == desc_read_of(def.permissions)
        &&& self.permissions.write == desc_write_of(def.permissions)
        &&& self.writable == writable_of(def.permissions)
        &&& self.value@ == if writable_of(def.permissions) {
            clip(desc_value(def), cap as int)
        } else {
            desc_value(def)
        }
    }
}

impl CharPlan {
    /// This is the characteristic that `def` asks for.
    pub open spec fn builds(self, def: RuntimeBleCharDef, cap: usize) -> bool {
        &&& self.uuid@ == uuid_of(opt_vec(def.uuid))
        &&& self.ble_props == ble_props(def.props)
        &&& self.props == def.props
        &&& self.read == level_of(def.permissions, C_PERM_READ_ENCRYPT, C_PERM_READ_AUTH)
        &&& self.write == level_of(def.permissions, C_PERM_WRITE_ENCRYPT, C_PERM_WRITE_AUTH)
        &&& self.cccd == if any_bit(def.props, C_PROP_NOTIFY) || any_bit(
            def.props,
            C_PROP_INDICATE,
        ) {
            level_of(def.permissions, C_PERM_CCCD_ENCRYPT, C_PERM_CCCD_AUTH)
        } else {
            None
        }
        &&& self.descriptors@.len() == desc_defs(def).len()
        &&& forall|j: int|
            0 <= j < desc_defs(def).len() ==> (#[trigger] self.descriptors@[j]).builds(
                desc_defs(def)[j],
                cap,
            )
    }

    /// This is a characteristic of the Nordic UART Service.
    pub open spec fn is_nus(self, n: u8, props: u16) -> bool {
        &&& self.uuid@ == nus_uuid(n)
        &&& self.ble_props == ble_props(props)
        &&& self.props == props
        &&& self.read is None
        &&& self.write is None
        &&& self.cccd is None
        &&& self.descriptors@.len() == 0
    }
}

impl ServicePlan {
    /// This is the service that `def` asks for.
    pub open spec fn builds(self, def: RuntimeBleServiceDef, cap: usize) -> bool {
        &&& self.uuid@ == uuid_of(opt_vec(def.uuid))
        &&& self.chars@.len() == char_defs(def).len()
        &&& forall|j: int|
            0 <= j < char_defs(def).len() ==> (#[trigger] self.chars@[j]).builds(
                char_defs(def)[j],
                cap,
            )
    }
}

impl GattPlan {
    /// This is the table that a configuration asks for: its services in
    /// declaration order, or the Nordic UART Service where it has none.
    pub open spec fn builds(self, services: Option<Vec<RuntimeBleServiceDef>>, cap: usize) -> bool {
        let defs = service_defs(services);
        if defs.len() == 0 {
            &&& self.builtin
            &&& self.services@.len() == 1
            &&& self.services@[0].uuid@ == nus_uuid(NUS_SVC)
            &&& self.services@[0].chars@.len() == 2
            &&& self.services@[0].chars@[0].is_nus(NUS_RX, C_PROP_WRITE | C_PROP_WRITE_NR)
            &&& self.services@[0].chars@[1].is_nus(NUS_TX, C_PROP_NOTIFY)
        } else {
            &&& !self.builtin
            &&& self.services@.len() == defs.len()
            &&& forall|i: int|
                0 <= i < defs.len() ==> (#[trigger] self.services@[i]).builds(defs[i], cap)
        }
    }
}

/// The descriptor that a definition asks for.
fn plan_descriptor(def: &RuntimeBleDescDef, cap: usize) -> (r: DescPlan)
    ensures
        r.builds(*def, cap),
{
    let empty: Vec<u8> = Vec::new();
    let value: &[u8] = match &def.value {
        Some(v) => v.as_slice(),
        None => empty.as_slice(),
    };
    assert(value@ =~= desc_value(*def));
    let writable: bool = descriptor_is_writable(def.permissions);
    DescPlan {
        uuid: uuid_from(&def.uuid),
        permissions: descriptor_permissions(def.permissions),
        writable,
        value: if writable {
            clipped(value, cap)
        } else {
            copied(value)
        },
    }
}

/// The characteristic that a definition asks for.
fn plan_characteristic(def: &RuntimeBleCharDef, cap: usize) -> (r: CharPlan)
    ensures
        r.builds(*def, cap),
{
    let mut descriptors: Vec<DescPlan> = Vec::new();
    if let Some(defs) = &def.descriptors {
        let n: usize = defs.len();
        for j in 0..n
            invariant
                n == defs@.len(),
                defs@ == desc_defs(*def),
                descriptors@.len() == j,
                forall|k: int| 0 <= k < j ==> (#[trigger] descriptors@[k]).builds(defs@[k], cap),
        {
            descriptors.push(plan_descriptor(&defs[j], cap));
        }
    }
    let props: u16 = def.props;
    assert((props & (0x08u16 | 0x10u16) != 0) == (props & 0x08 != 0 || props & 0x10 != 0))
        by (bit_vector);
    CharPlan {
        uuid: uuid_from(&def.uuid),
        ble_props: map_props(def.props),
        props,
        read: map_permission(def.permissions, C_PERM_READ_ENCRYPT, C_PERM_READ_AUTH),
        write: map_permission(def.permissions, C_PERM_WRITE_ENCRYPT, C_PERM_WRITE_AUTH),
        cccd: if props & (C_PROP_NOTIFY | C_PROP_INDICATE) != 0 {
            map_permission(def.permissions, C_PERM_CCCD_ENCRYPT, C_PERM_CCCD_AUTH)
        } else {
            None
        },
        descriptors,
    }
}

/// The service that a definition asks for.
fn plan_service(def: &RuntimeBleServiceDef, cap: usize) -> (r: ServicePlan)
    ensures
        r.builds(*def, cap),
{
    let mut chars: Vec<CharPlan> = Vec::new();
    if let Some(defs) = &def.chars {
        let n: usize = defs.len();
        for j in 0..n
            invariant
                n == defs@.len(),
                defs@ == char_defs(*def),
                chars@.len() == j,
                forall|k: int| 0 <= k < j ==> (#[trigger] chars@[k]).builds(defs@[k], cap),
        {
            chars.push(plan_characteristic(&defs[j], cap));
        }
    }
    ServicePlan { uuid: uuid_from(&def.uuid), chars }
}

/// A characteristic of the Nordic UART Service.
fn plan_nus_char(n: u8, props: u16) -> (r: CharPlan)
    ensures
        r.is_nus(n, props),
{
    CharPlan {
        uuid: nus_uuid_bytes(n),
        ble_props: map_props(props),
        props,
        read: None,
        write: None,
        cccd: None,
        descriptors: Vec::new(),
    }
}

/// The attribute table that a configuration asks for, in a build.
pub fn plan_gatt(build: &Build, cfg: &RuntimeCfg) -> (r: GattPlan)
    ensures
        r.builds(cfg.services, build.cap()),
{
    let cap: usize = build.value_len();
    if let Some(defs) = &cfg.services {
        if defs.len() > 0 {
            let mut services: Vec<ServicePlan> = Vec::new();
            let n: usize = defs.len();
            for i in 0..n
                invariant
                    n == defs@.len(),
                    services@.len() == i,
                    forall|k: int| 0 <= k < i ==> (#[trigger] services@[k]).builds(defs@[k], cap),
            {
                services.push(plan_service(&defs[i], cap));
            }
            return GattPlan { builtin: false, services };
        }
    }
    let mut chars: Vec<CharPlan> = Vec::new();
    chars.push(plan_nus_char(NUS_RX, C_PROP_WRITE | C_PROP_WRITE_NR));
    chars.push(plan_nus_char(NUS_TX, C_PROP_NOTIFY));
    let mut services: Vec<ServicePlan> = Vec::new();
    services.push(ServicePlan { uuid: nus_uuid_bytes(NUS_SVC), chars });
    GattPlan { builtin: true, services }
}

/// The characteristics of a list of services, in declaration order.
pub open spec fn flat_char_defs(services: Seq<RuntimeBleServiceDef>) -> Seq<RuntimeBleCharDef>
    decreases services.len(),
{
    if services.len() == 0 {
        Seq::empty()
    } else {
        flat_char_defs(services.drop_last()) + char_defs(services.last())
    }
}

/// The characteristics to build, in declaration order; a characteristic is
/// known by its place in this sequence.
pub open spec fn flat_chars(services: Seq<ServicePlan>) -> Seq<CharPlan>
    decreases services.len(),
{
    if services.len() == 0 {
        Seq::empty()
    } else {
        flat_chars(services.drop_last()) + services.last().chars@
    }
}

/// The definition has the UUID `uuid`.
pub open spec fn has_uuid(def: RuntimeBleCharDef, uuid: Seq<u8>) -> bool {
    opt_vec(def.uuid) == Some(uuid)
}

proof fn lemma_flat_defs_prefix(services: Seq<RuntimeBleServiceDef>, n: int)
    requires
        0 <= n <= services.len(),
    ensures
        flat_char_defs(services.take(n)).len() <= flat_char_defs(services).len(),
        forall|k: int|
            0 <= k < flat_char_defs(services.take(n)).len() ==> #[trigger] flat_char_defs(
                services.take(n),
            )[k] == flat_char_defs(services)[k],
    decreases services.len() - n,
{
    if n < services.len() {
        lemma_flat_defs_prefix(services, n + 1);
        assert(services.take(n + 1).drop_last() =~= services.take(n));
        assert forall|k: int| 0 <= k < flat_char_defs(services.take(n)).len() implies
            #[trigger] flat_char_defs(services.take(n))[k] == flat_char_defs(services)[k] by {
            assert(flat_char_defs(services.take(n + 1))[k] == flat_char_defs(services)[k]);
        }
    } else {
        assert(services.take(n) =~= services);
    }
}

/// The place of the first characteristic with the UUID `want`, in declaration
/// order.
pub fn find_char(services: &Vec<RuntimeBleServiceDef>, want: &[u8]) -> (r: Option<u16>)
    requires
        counts_fit(Some(*services)),
    ensures
        r is None ==> forall|k: int|
            0 <= k < flat_char_defs(services@).len() ==> !has_uuid(
                #[trigger] flat_char_defs(services@)[k],
                want@,
            ),
        r matches Some(i) ==> i < flat_char_defs(services@).len() && has_uuid(
            flat_char_defs(services@)[i as int],
            want@,
        ) && forall|k: int|
            0 <= k < i ==> !has_uuid(#[trigger] flat_char_defs(services@)[k], want@),
{
    let mut idx: u16 = 0;
    let n: usize = services.len();
    let mut i: usize = 0;
    while i < n
        invariant
            i <= n,
            n == services@.len(),
            n <= u8::MAX,
            counts_fit(Some(*services)),
            idx == flat_char_defs(services@.take(i as int)).len(),
            idx <= 255 * i,
            forall|k: int|
                0 <= k < idx ==> !has_uuid(
                    #[trigger] flat_char_defs(services@.take(i as int))[k],
                    want@,
                ),
        decreases n - i,
    {
        let ghost before = flat_char_defs(services@.take(i as int));
        let ghost after = flat_char_defs(services@.take(i + 1));
        assert(services@.take(i + 1).drop_last() =~= services@.take(i as int));
        assert(char_defs(service_defs(Some(*services))[i as int]).len() <= u8::MAX);
        proof {
            lemma_flat_defs_prefix(services@, i + 1);
        }
        if let Some(defs) = &services[i].chars {
            assert(after =~= before + defs@);
            assert forall|k: int| 0 <= k < idx implies !has_uuid(#[trigger] after[k], want@) by {
                assert(after[k] == before[k]);
            }
            let m: usize = defs.len();
            for j in 0..m
                invariant
                    m == defs@.len(),
                    m <= u8::MAX,
                    i < 255,
                    before.len() <= 255 * i,
                    idx == before.len() + j,
                    after == before + defs@,
                    after.len() <= flat_char_defs(services@).len(),
                    forall|k: int|
                        0 <= k < after.len() ==> #[trigger] after[k] == flat_char_defs(
                            services@,
                        )[k],
                    forall|k: int| 0 <= k < idx ==> !has_uuid(#[trigger] after[k], want@),
            {
                assert(after[idx as int] == defs@[j as int]);
                if let Some(uuid) = &defs[j].uuid {
                    if same_bytes(uuid.as_slice(), want) {
                        assert(flat_char_defs(services@)[idx as int] == after[idx as int]);
                        assert forall|k: int| 0 <= k < idx implies !has_uuid(
                            #[trigger] flat_char_defs(services@)[k],
                            want@,
                        ) by {
                            assert(after[k] == flat_char_defs(services@)[k]);
                        }
                        return Some(idx);
                    }
                }
                idx = idx + 1;
            }
        } else {
            assert(after =~= before);
        }
        i = i + 1;
    }
    assert(services@.take(n as int) =~= services@);
    None
}

/// The built table has, at every place, the characteristic that the definition
/// at that place asks for.
pub proof fn law_table_follows_declarations(
    plan: GattPlan,
    services: Option<Vec<RuntimeBleServiceDef>>,
    cap: usize,
)
    requires
        plan.builds(services, cap),
        service_defs(services).len() > 0,
    ensures
        flat_chars(plan.services@).len() == flat_char_defs(service_defs(services)).len(),
        forall|k: int|
            0 <= k < flat_chars(plan.services@).len() ==> (#[trigger] flat_chars(
                plan.services@,
            )[k]).builds(flat_char_defs(service_defs(services))[k], cap),
{
    lemma_flat_builds(plan.services@, service_defs(services), cap);
}

proof fn lemma_flat_builds(
    services: Seq<ServicePlan>,
    defs: Seq<RuntimeBleServiceDef>,
    cap: usize,
)
    requires
        services.len() == defs.len(),
        forall|i: int| 0 <= i < defs.len() ==> (#[trigger] services[i]).builds(defs[i], cap),
    ensures
        flat_chars(services).len() == flat_char_defs(defs).len(),
        forall|k: int|
            0 <= k < flat_chars(services).len() ==> (#[trigger] flat_chars(services)[k]).builds(
                flat_char_defs(defs)[k],
                cap,
            ),
    decreases defs.len(),
{
    if defs.len() > 0 {
        assert forall|i: int| 0 <= i < defs.len() - 1 implies (#[trigger] services.drop_last()[i])
            .builds(defs.drop_last()[i], cap) by {
            assert(services[i].builds(defs[i], cap));
        }
        lemma_flat_builds(services.drop_last(), defs.drop_last(), cap);
        let n = flat_chars(services.drop_last()).len();
        assert(services[defs.len() - 1].builds(defs[defs.len() - 1], cap));
        assert forall|k: int| 0 <= k < flat_chars(services).len() implies (#[trigger] flat_chars(
            services,
        )[k]).builds(flat_char_defs(defs)[k], cap) by {
            if k < n {
                assert(flat_chars(services.drop_last())[k].builds(
                    flat_char_defs(defs.drop_last())[k],
                    cap,
                ));
            } else {
                assert(services.last().chars@[k - n].builds(char_defs(defs.last())[k - n], cap));
            }
        }
    }
}

/// Looking a UUID up among the definitions gives the place of a characteristic
/// with that UUID in the built table.
pub proof fn law_found_char_is_built(
    plan: GattPlan,
    services: Option<Vec<RuntimeBleServiceDef>>,
    cap: usize,
    uuid: Seq<u8>,
    place: int,
)
    requires
        plan.builds(services, cap),
        uuid.len() == 2 || uuid.len() == 16,
        0 <= place < flat_char_defs(service_defs(services)).len(),
        has_uuid(flat_char_defs(service_defs(services))[place], uuid),
    ensures
        place < flat_chars(plan.services@).len(),
        flat_chars(plan.services@)[place].uuid@ == uuid,
{
    if service_defs(services).len() > 0 {
        law_table_follows_declarations(plan, services, cap);
    }
}

/// The attribute handles that a built characteristic was given.
#[derive(Debug)]
pub struct CharHandles {
    /// Handle of the value.
    pub value: u16,
    /// Handle of the client characteristic configuration, where there is one.
    pub cccd: Option<u16>,
    /// Handles of the user-defined descriptors, in declaration order.
    pub descriptors: Vec<u16>,
}

/// Handles by which a characteristic is found again.
#[derive(Clone, Copy, Debug, PartialEq, Eq, Structural)]
pub struct CharEntry {
    pub handle: u16,
    pub cccd: Option<u16>,
}

/// A user-defined descriptor: its handle, the place of its characteristic, and
/// its own place in that characteristic.
#[derive(Clone, Copy, Debug, PartialEq, Eq, Structural)]
pub struct DescMeta {
    pub handle: u16,
    pub chr: u16,
    pub desc: u8,
}

/// What a built table is addressed by: every characteristic by its place.
#[derive(Debug, PartialEq, Eq)]
pub struct GattIndex {
    pub chars: Vec<CharEntry>,
    pub props: Vec<u16>,
    pub descriptors: Vec<DescMeta>,
    /// Place of the built-in receive characteristic, in the built-in table.
    pub nus_rx: Option<usize>,
    /// Place of the built-in transmit characteristic, in the built-in table.
    pub nus_tx: Option<usize>,
}

/// The handles belong to the table: one entry for every characteristic, with
/// one handle for every descriptor.
pub open spec fn handles_fit(services: Seq<ServicePlan>, handles: Seq<CharHandles>) -> bool {
    &&& handles.len() == flat_chars(services).len()
    &&& forall|i: int|
        0 <= i < handles.len() ==> (#[trigger] handles[i]).descriptors@.len() == flat_chars(
            services,
        )[i].descriptors@.len()
}

/// The descriptors of the characteristic at place `chr`. Places over 255 within
/// a characteristic are all called 255.
pub open spec fn metas_of(handles: Seq<u16>, chr: int) -> Seq<DescMeta> {
    Seq::new(
        handles.len(),
        |j: int|
            DescMeta {
                handle: handles[j],
                chr: chr as u16,
                desc: if j <= 255 {
                    j as u8
                } else {
                    255
                },
            },
    )
}

/// The descriptors of the first `n` characteristics, in declaration order.
pub open spec fn desc_metas(handles: Seq<CharHandles>, n: int) -> Seq<DescMeta>
    decreases n,
{
    if n <= 0 {
        Seq::empty()
    } else {
        desc_metas(handles, n - 1) + metas_of(handles[n - 1].descriptors@, n - 1)
    }
}

impl GattIndex {
    /// This indexes the table `plan` that was built with `handles`.
    pub open spec fn indexes(self, plan: GattPlan, handles: Seq<CharHandles>) -> bool {
        &&& self.chars@.len() == handles.len()
        &&& forall|i: int|
            0 <= i < handles.len() ==> #[trigger] self.chars@[i] == (CharEntry {
                handle: handles[i].value,
                cccd: handles[i].cccd,
            })
        &&& self.props@.len() == handles.len()
        &&& forall|i: int|
            0 <= i < handles.len() ==> #[trigger] self.props@[i] == flat_chars(
                plan.services@,
            )[i].props
        &&& self.descriptors@ == desc_metas(handles, handles.len() as int)
        &&& self.nus_rx == if plan.builtin {
            Some(0usize)
        } else {
            None
        }
        &&& self.nus_tx == if plan.builtin {
            Some(1usize)
        } else {
            None
        }
    }
}

proof fn lemma_flat_chars_prefix(services: Seq<ServicePlan>, n: int)
    requires
        0 <= n <= services.len(),
    ensures
        flat_chars(services.take(n)).len() <= flat_chars(services).len(),
        forall|k: int|
            0 <= k < flat_chars(services.take(n)).len() ==> #[trigger] flat_chars(
                services.take(n),
            )[k] == flat_chars(services)[k],
    decreases services.len() - n,
{
    if n < services.len() {
        lemma_flat_chars_prefix(services, n + 1);
        assert(services.take(n + 1).drop_last() =~= services.take(n));
        assert forall|k: int| 0 <= k < flat_chars(services.take(n)).len() implies
            #[trigger] flat_chars(services.take(n))[k] == flat_chars(services)[k] by {
            assert(flat_chars(services.take(n + 1))[k] == flat_chars(services)[k]);
        }
    } else {
        assert(services.take(n) =~= services);
    }
}

/// Adds the descriptors of the characteristic at place `chr`.
fn push_metas(list: &mut Vec<DescMeta>, handles: &Vec<u16>, chr: usize)
    ensures
        final(list)@ == old(list)@ + metas_of(handles@, chr as int),
{
    let n: usize = handles.len();
    for j in 0..n
        invariant
            n == handles@.len(),
            list@ =~= old(list)@ + metas_of(handles@, chr as int).take(j as int),
    {
        list.push(
            DescMeta {
                handle: handles[j],
                chr: chr as u16,
                desc: if j <= 255 {
                    j as u8
                } else {
                    255
                },
            },
        );
    }
    assert(metas_of(handles@, chr as int).take(n as int) =~= metas_of(handles@, chr as int));
}

/// Indexes the table `plan` by the handles that its characteristics were given
/// in declaration order; nothing where the handles do not belong to the table.
pub fn index_gatt(plan: &GattPlan, handles: &Vec<CharHandles>) -> (r: Option<GattIndex>)
    ensures
        r is Some <==> handles_fit(plan.services@, handles@),
        r matches Some(index) ==> index.indexes(*plan, handles@),
{
    let mut chars: Vec<CharEntry> = Vec::new();
    let mut props: Vec<u16> = Vec::new();
    let mut descriptors: Vec<DescMeta> = Vec::new();
    let mut idx: usize = 0;
    let n: usize = plan.services.len();
    let ghost all = flat_chars(plan.services@);
    for i in 0..n
        invariant
            n == plan.services@.len(),
            all == flat_chars(plan.services@),
            idx == flat_chars(plan.services@.take(i as int)).len(),
            idx <= handles@.len(),
            chars@.len() == idx,
            props@.len() == idx,
            forall|k: int|
                0 <= k < idx ==> #[trigger] chars@[k] == (CharEntry {
                    handle: handles@[k].value,
                    cccd: handles@[k].cccd,
                }),
            forall|k: int| 0 <= k < idx ==> #[trigger] props@[k] == all[k].props,
            forall|k: int|
                0 <= k < idx ==> (#[trigger] handles@[k]).descriptors@.len()
                    == all[k].descriptors@.len(),
            descriptors@ == desc_metas(handles@, idx as int),
    {
        let ghost before = flat_chars(plan.services@.take(i as int));
        let ghost after = flat_chars(plan.services@.take(i + 1));
        assert(plan.services@.take(i + 1).drop_last() =~= plan.services@.take(i as int));
        assert(after =~= before + plan.services@[i as int].chars@);
        proof {
            lemma_flat_chars_prefix(plan.services@, i + 1);
        }
        let defs: &Vec<CharPlan> = &plan.services[i].chars;
        let m: usize = defs.len();
        for j in 0..m
            invariant
                m == defs@.len(),
                idx == before.len() + j,
                after == before + defs@,
                all == flat_chars(plan.services@),
                after.len() <= all.len(),
                forall|k: int| 0 <= k < after.len() ==> #[trigger] after[k] == all[k],
                idx <= handles@.len(),
                chars@.len() == idx,
                props@.len() == idx,
                forall|k: int|
                    0 <= k < idx ==> #[trigger] chars@[k] == (CharEntry {
                        handle: handles@[k].value,
                        cccd: handles@[k].cccd,
                    }),
                forall|k: int| 0 <= k < idx ==> #[trigger] props@[k] == all[k].props,
                forall|k: int|
                    0 <= k < idx ==> (#[trigger] handles@[k]).descriptors@.len()
                        == all[k].descriptors@.len(),
                descriptors@ == desc_metas(handles@, idx as int),
        {
            assert(after[idx as int] == defs@[j as int]);
            assert(all[idx as int] == defs@[j as int]);
            if idx >= handles.len() {
                return None;
            }
            let h: &CharHandles = &handles[idx];
            if h.descriptors.len() != defs[j].descriptors.len() {
                return None;
            }
            chars.push(CharEntry { handle: h.value, cccd: h.cccd });
            props.push(defs[j].props);
            push_metas(&mut descriptors, &h.descriptors, idx);
            idx = idx + 1;
        }
    }
    assert(plan.services@.take(n as int) =~= plan.services@);
    if idx != handles.len() {
        return None;
    }
    Some(
        GattIndex {
            chars,
            props,
            descriptors,
            nus_rx: if plan.builtin {
                Some(0)
            } else {
                None
            },
            nus_tx: if plan.builtin {
                Some(1)
            } else {
                None
            },
        },
    )
}

} // verus!
