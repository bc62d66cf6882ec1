//! Bringing the radio up: the features of the controller and its memory, the
//! outcome of a load, and the roles of a session.

use crate::bytes::append;
use crate::config::{
    Build, Family, RuntimeCfg, RUNTIME_BLE_ROLE_CENTRAL, RUNTIME_BLE_ROLE_DUAL,
};
use crate::runtime::{
    Runtime, State, RUNTIME_BLE_ERR_MPSL, RUNTIME_BLE_ERR_SDC, RUNTIME_BLE_OK,
};
use vstd::prelude::*;
use vstd::string::StringSliceAdditionalSpecFns;

verus! {

pub const SDC_DISABLE_EXT_ADV: u32 = 0x01;

pub const SDC_DISABLE_PERIODIC_ADV: u32 = 0x02;

pub const SDC_DISABLE_CODED_PHY: u32 = 0x04;

pub const SDC_DISABLE_2M_PHY: u32 = 0x08;

pub const SDC_DISABLE_DLE: u32 = 0x10;

pub const SDC_DISABLE_SUBRATING: u32 = 0x20;

pub const SDC_DISABLE_FRAME_SPACE: u32 = 0x40;

/// Length of a legacy advertising payload.
pub const LEGACY_ADV_DATA_MAX: u16 = 31;

/// Memory set aside for the smallest controller.
pub const NRF54L_LEAN_POOL: usize = 6144;

/// Memory set aside for the controller of an nRF54L.
pub const NRF54L_POOL: usize = 18432;

/// Memory set aside for the controller of an nRF54L with the central role.
pub const NRF54L_CENTRAL_POOL: usize = 24576;

/// Memory set aside for the controller of an nRF52.
pub const NRF52_POOL: usize = 16384;

/// Memory set aside for the controller of an nRF52 with the central role.
pub const NRF52_CENTRAL_POOL: usize = 20480;

/// The features that the controller is built with, beside advertising, the
/// peripheral role and PHY updates, which it always has.
#[derive(Clone, Copy, Debug, PartialEq, Eq, Structural)]
pub struct SdcPlan {
    pub ext_adv: bool,
    pub periodic_adv: bool,
    pub le_2m_phy: bool,
    pub le_coded_phy: bool,
    pub dle: bool,
    pub frame_space: bool,
    pub subrating: bool,
    pub extended_feature_set: bool,
    /// Scanning and the central role, each with the extended form.
    pub central: bool,
    /// Length of the advertising buffer.
    pub adv_buffer: u16,
    /// Memory set aside for the controller.
    pub pool: usize,
}

/// The application left the feature in: its bit in the mask is not set.
pub open spec fn left_in(mask: u32, bit: u32) -> bool {
    mask & bit == 0
}

/// Memory set aside for the controller.
pub open spec fn pool_size(build: Build) -> usize {
    match build.family {
        Family::Nrf54l => if build.lean {
            NRF54L_LEAN_POOL
        } else if build.central {
            NRF54L_CENTRAL_POOL
        } else {
            NRF54L_POOL
        },
        Family::Nrf52 => if build.central {
            NRF52_CENTRAL_POOL
        } else {
            NRF52_POOL
        },
    }
}

/// The controller that a configuration asks for. The smallest build drops the
/// heavy features; otherwise a feature is in where the application left it in,
/// and extended and periodic advertising also where they are configured. The
/// advertising buffer holds `ext_adv_max` bytes with extended advertising.
pub open spec fn controller_of(build: Build, cfg: RuntimeCfg, ext_adv_max: u16) -> SdcPlan {
    let full = !build.smallest();
    let mask = cfg.sdc_disable;
    let ext_adv = full && (cfg.adv_extended != 0 || cfg.periodic_adv != 0 || left_in(
        mask,
        SDC_DISABLE_EXT_ADV,
    ));
    SdcPlan {
        ext_adv,
        periodic_adv: full && (cfg.periodic_adv != 0 || left_in(mask, SDC_DISABLE_PERIODIC_ADV)),
        le_2m_phy: left_in(mask, SDC_DISABLE_2M_PHY),
        le_coded_phy: full && left_in(mask, SDC_DISABLE_CODED_PHY),
        dle: left_in(mask, SDC_DISABLE_DLE),
        frame_space: full && left_in(mask, SDC_DISABLE_FRAME_SPACE),
        subrating: full && left_in(mask, SDC_DISABLE_SUBRATING),
        extended_feature_set: full,
        central: build.central,
        adv_buffer: if ext_adv {
            ext_adv_max
        } else {
            LEGACY_ADV_DATA_MAX
        },
        pool: pool_size(build),
    }
}

/// Memory set aside for the controller.
pub fn sdc_pool(build: &Build) -> (r: usize)
    ensures
        r == pool_size(*build),
{
    match build.family {
        Family::Nrf54l => if build.lean {
            NRF54L_LEAN_POOL
        } else if build.central {
            NRF54L_CENTRAL_POOL
        } else {
            NRF54L_POOL
        },
        Family::Nrf52 => if build.central {
            NRF52_CENTRAL_POOL
        } else {
            NRF52_POOL
        },
    }
}

/// The controller that a configuration asks for.
pub fn plan_controller(build: &Build, cfg: &RuntimeCfg, ext_adv_max: u16) -> (r: SdcPlan)
    ensures
        r == controller_of(*build, *cfg, ext_adv_max),
{
    let full: bool = !build.is_smallest();
    let mask: u32 = cfg.sdc_disable;
    let ext_adv: bool = full && (cfg.adv_extended != 0 || cfg.periodic_adv != 0 || mask
        & SDC_DISABLE_EXT_ADV == 0);
    SdcPlan {
        ext_adv,
        periodic_adv: full && (cfg.periodic_adv != 0 || mask & SDC_DISABLE_PERIODIC_ADV == 0),
        le_2m_phy: mask & SDC_DISABLE_2M_PHY == 0,
        le_coded_phy: full && mask & SDC_DISABLE_CODED_PHY == 0,
        dle: mask & SDC_DISABLE_DLE == 0,
        frame_space: full && mask & SDC_DISABLE_FRAME_SPACE == 0,
        subrating: full && mask & SDC_DISABLE_SUBRATING == 0,
        extended_feature_set: full,
        central: build.central,
        adv_buffer: if ext_adv {
            ext_adv_max
        } else {
            LEGACY_ADV_DATA_MAX
        },
        pool: sdc_pool(build),
    }
}

/// Outside the smallest build, extended and periodic advertising that are
/// configured are kept whatever the mask says, and a mask of zero keeps every
/// feature.
pub proof fn law_configured_features_are_kept(build: Build, cfg: RuntimeCfg, ext_adv_max: u16)
    requires
        !build.smallest(),
    ensures
        ({
            let plan = controller_of(build, cfg, ext_adv_max);
            &&& cfg.adv_extended != 0 ==> plan.ext_adv
            &&& cfg.periodic_adv != 0 ==> plan.ext_adv && plan.periodic_adv
            &&& cfg.sdc_disable == 0 ==> plan.ext_adv && plan.periodic_adv && plan.le_2m_phy
                && plan.le_coded_phy && plan.dle && plan.frame_space && plan.subrating
                && plan.extended_feature_set
        }),
{
    assert(0u32 & 0x01 == 0 && 0u32 & 0x02 == 0 && 0u32 & 0x04 == 0 && 0u32 & 0x08 == 0 && 0u32
        & 0x10 == 0 && 0u32 & 0x20 == 0 && 0u32 & 0x40 == 0) by (bit_vector);
}

/// The smallest build advertises in the legacy form only and has none of the
/// heavy features, whatever is configured.
pub proof fn law_smallest_build_is_lean(build: Build, cfg: RuntimeCfg, ext_adv_max: u16)
    requires
        build.smallest(),
    ensures
        ({
            let plan = controller_of(build, cfg, ext_adv_max);
            &&& !plan.ext_adv && !plan.periodic_adv && !plan.le_coded_phy && !plan.subrating
            &&& !plan.frame_space && !plan.extended_feature_set
            &&& plan.adv_buffer == LEGACY_ADV_DATA_MAX
        }),
{
}

/// The decimal digits of a number.
pub open spec fn decimal(n: nat) -> Seq<u8>
    decreases n,
{
    if n < 10 {
        seq![(0x30 + n) as u8]
    } else {
        decimal(n / 10).push((0x30 + n % 10) as u8)
    }
}

/// The log line on the memory that the controller needs, which `required` gives
/// where the controller knew it, and the memory set aside for it. It ends in a
/// zero byte.
pub open spec fn mem_line(required: Option<usize>, pool: usize) -> Seq<u8> {
    match required {
        Some(n) => "[runtime-ble] sdc mem: need ".spec_bytes() + decimal(n as nat)
            + " have ".spec_bytes() + decimal(pool as nat) + seq![0u8],
        None => "[runtime-ble] sdc required_memory query failed".spec_bytes() + seq![0u8],
    }
}

/// Appends the decimal digits of a number.
fn push_decimal(line: &mut Vec<u8>, n: usize)
    ensures
        final(line)@ == old(line)@ + decimal(n as nat),
    decreases n,
{
    if n >= 10 {
        push_decimal(line, n / 10);
    }
    line.push(0x30 + (n % 10) as u8);
    assert(line@ =~= old(line)@ + decimal(n as nat));
}

/// The log line on the memory that the controller needs and has.
pub fn required_mem_line(required: Option<usize>, pool: usize) -> (r: Vec<u8>)
    ensures
        r@ == mem_line(required, pool),
{
    let mut line: Vec<u8> = Vec::new();
    match required {
        Some(n) => {
            append(&mut line, "[runtime-ble] sdc mem: need ".as_bytes());
            push_decimal(&mut line, n);
            append(&mut line, " have ".as_bytes());
            push_decimal(&mut line, pool);
        },
        None => {
            append(&mut line, "[runtime-ble] sdc required_memory query failed".as_bytes());
        },
    }
    line.push(0);
    assert(line@ =~= mem_line(required, pool));
    line
}

/// How bringing the radio up ended.
#[derive(Clone, Copy, Debug, PartialEq, Eq, Structural)]
pub enum BringUp {
    Loaded,
    /// The multiprotocol service layer did not start.
    MpslFailed,
    /// The controller did not start.
    SdcFailed,
}

/// The load result of an outcome.
pub open spec fn load_result(outcome: BringUp) -> i32 {
    match outcome {
        BringUp::Loaded => RUNTIME_BLE_OK,
        BringUp::MpslFailed => RUNTIME_BLE_ERR_MPSL,
        BringUp::SdcFailed => RUNTIME_BLE_ERR_SDC,
    }
}

/// Publishes how bringing the radio up ended.
pub fn publish_load(rt: &mut Runtime, outcome: BringUp)
    ensures
        final(rt)@ == (State { load_status: load_result(outcome), ..old(rt)@ }),
{
    rt.load_status = match outcome {
        BringUp::Loaded => RUNTIME_BLE_OK,
        BringUp::MpslFailed => RUNTIME_BLE_ERR_MPSL,
        BringUp::SdcFailed => RUNTIME_BLE_ERR_SDC,
    };
}

/// The roles of a session.
#[derive(Clone, Copy, Debug, PartialEq, Eq, Structural)]
pub struct Roles {
    /// Advertise and serve a GATT.
    pub server: bool,
    /// Scan, connect and run a GATT client.
    pub central: bool,
}

/// The roles of a session: those that are configured, as far as the build has
/// them; the server where it has not.
pub fn session_roles(build: &Build, cfg: &RuntimeCfg) -> (r: Roles)
    ensures
        r == (Roles {
            server: !(build.central && cfg.role == RUNTIME_BLE_ROLE_CENTRAL),
            central: build.central && (cfg.role == RUNTIME_BLE_ROLE_CENTRAL || cfg.role
                == RUNTIME_BLE_ROLE_DUAL),
        }),
        r.server || r.central,
{
    Roles {
        server: !(build.central && cfg.role == RUNTIME_BLE_ROLE_CENTRAL),
        central: build.central && (cfg.role == RUNTIME_BLE_ROLE_CENTRAL || cfg.role
            == RUNTIME_BLE_ROLE_DUAL),
    }
}

} // verus!
