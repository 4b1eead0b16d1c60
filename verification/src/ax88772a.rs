//! The AX88772A driver: device matcher and lifecycle operations.
//!
//! Each operation borrows the host-owned device for its own duration and
//! issues a bounded sequence of bus accesses.  The contract of each exec
//! function pins its result and the device's final state exactly, through
//! the spec functions in this module; the bus traffic an operation causes
//! is visible in the device's operation log.

use vstd::prelude::*;

use crate::device::BusOp;
use crate::device::Device;
use crate::device::DeviceModel;
use crate::device::DeviceState;
use crate::device::IoError;
use crate::device::MII_REG_COUNT;

verus! {

/// Chip identifier this driver claims, matched exactly.
pub const PHY_ID_ASIX_AX88772A: u32 = 0x003b1861;

/// Exact-match mask for the host's device table: all identifier bits count.
pub const PHY_ID_MASK_EXACT: u32 = 0xffffffff;

/// Address of the MII Basic Mode Control Register.
pub const MII_BMCR: u32 = 0x00;

/// Control-register bit that indicates 100 Mbps rather than 10 Mbps.
///
/// On this chip family speed and duplex are read back from the control
/// register; other families expose them in a separate status register, so
/// these bit meanings are local to this one driver variant.
pub const BMCR_SPEED100: u16 = 0x2000;

/// Control-register bit that indicates full rather than half duplex.
pub const BMCR_FULLDPLX: u16 = 0x0100;

/// Speed encoded in a control-register value: 100 Mbps iff the
/// speed-select bit is set, else 10 Mbps.
pub open spec fn bmcr_speed(v: u16) -> u32 {
    if v & BMCR_SPEED100 != 0 {
        100
    } else {
        10
    }
}

/// Duplex encoded in a control-register value: full iff the duplex-select
/// bit is set.
pub open spec fn bmcr_full_duplex(v: u16) -> bool {
    v & BMCR_FULLDPLX != 0
}

/// Whether status resolution on a device in state `d` fails: the link
/// refresh fails, or the link is up and the control-register read or the
/// partner-ability refresh fails.
pub open spec fn read_status_err(d: DeviceModel) -> bool {
    ||| d.faults.update_link
    ||| (d.hw_link && (d.faults.read_reg || d.faults.read_lpa))
}

/// The device state after status resolution on a device in state `d`:
/// the link flag is refreshed; while the link is down nothing further is
/// touched; with the link up, speed and duplex are decoded from the
/// control register, the partner-ability state is refreshed, and completed
/// autonegotiation resolves the final link mode.  A failed bus access
/// aborts the sequence where it stands.
pub open spec fn read_status_post(d: DeviceModel) -> DeviceModel {
    if d.faults.update_link {
        DeviceModel { log: d.log.push(BusOp::UpdateLink), ..d }
    } else if !d.hw_link {
        DeviceModel { link: false, log: d.log.push(BusOp::UpdateLink), ..d }
    } else if d.faults.read_reg {
        DeviceModel {
            link: true,
            log: d.log.push(BusOp::UpdateLink).push(BusOp::ReadReg(MII_BMCR)),
            ..d
        }
    } else if d.faults.read_lpa {
        DeviceModel {
            link: true,
            speed: bmcr_speed(d.regs[MII_BMCR as int]),
            duplex: bmcr_full_duplex(d.regs[MII_BMCR as int]),
            log: d.log.push(BusOp::UpdateLink).push(BusOp::ReadReg(MII_BMCR)).push(
                BusOp::ReadLpa,
            ),
            ..d
        }
    } else if d.autoneg_enabled && d.autoneg_completed {
        DeviceModel {
            link: true,
            speed: d.negotiated_speed,
            duplex: d.negotiated_duplex,
            log: d.log.push(BusOp::UpdateLink).push(BusOp::ReadReg(MII_BMCR)).push(
                BusOp::ReadLpa,
            ).push(BusOp::ResolveAneg),
            ..d
        }
    } else {
        DeviceModel {
            link: true,
            speed: bmcr_speed(d.regs[MII_BMCR as int]),
            duplex: bmcr_full_duplex(d.regs[MII_BMCR as int]),
            log: d.log.push(BusOp::UpdateLink).push(BusOp::ReadReg(MII_BMCR)).push(
                BusOp::ReadLpa,
            ),
            ..d
        }
    }
}

/// Whether soft reset on a device in state `d` fails: the clearing write
/// fails, or the generic reset sequence does.
pub open spec fn soft_reset_err(d: DeviceModel) -> bool {
    d.faults.write_reg || d.faults.soft_reset
}

/// The device state after soft reset on a device in state `d`: the control
/// register is cleared to zero, then the generic reset sequence runs.  A
/// failed write aborts before the generic sequence.
pub open spec fn soft_reset_post(d: DeviceModel) -> DeviceModel {
    if d.faults.write_reg {
        DeviceModel { log: d.log.push(BusOp::WriteReg(MII_BMCR, 0)), ..d }
    } else {
        DeviceModel {
            regs: d.regs.update(MII_BMCR as int, 0u16),
            log: d.log.push(BusOp::WriteReg(MII_BMCR, 0)).push(BusOp::SoftReset),
            ..d
        }
    }
}

/// The device state after the link-change hook on a device in state `d`:
/// in state `NoLink` the hardware is re-initialized and autonegotiation
/// restarted, each attempted exactly once whatever the other's outcome;
/// in every other state the device is untouched.
pub open spec fn link_change_notify_post(d: DeviceModel) -> DeviceModel {
    if d.state == DeviceState::NoLink {
        DeviceModel {
            autoneg_enabled: if d.faults.start_aneg {
                d.autoneg_enabled
            } else {
                true
            },
            autoneg_completed: if d.faults.start_aneg {
                d.autoneg_completed
            } else {
                false
            },
            log: d.log.push(BusOp::InitHw).push(BusOp::StartAneg),
            ..d
        }
    } else {
        d
    }
}

/// Decide whether a discovered device belongs to this driver: its
/// identifier must equal the claimed constant over all 32 bits.  No side
/// effects; the host may call this speculatively against many candidates.
pub fn match_phy_device(dev: &Device) -> (r: bool)
    ensures
        r <==> dev@.id == PHY_ID_ASIX_AX88772A,
{
    dev.id() == PHY_ID_ASIX_AX88772A
}

/// Read and resolve the device's link status.
///
/// Refresh the link flag; if the link is down, succeed at once without any
/// further register access.  Otherwise decode speed and duplex from the
/// Basic Mode Control Register (this chip family reports them there),
/// refresh the link-partner ability state, and, if autonegotiation is
/// enabled and has completed, resolve the final advertised link mode.
/// Every bus failure aborts the sequence and surfaces as `IoError`.
pub fn read_status(dev: &mut Device) -> (r: Result<(), IoError>)
    requires
        old(dev)@.wf(),
    ensures
        r is Err <==> read_status_err(old(dev)@),
        final(dev)@ == read_status_post(old(dev)@),
{
    dev.update_link()?;
    if !dev.link() {
        return Ok(());
    }
    let ret = dev.read(MII_BMCR)?;

    if ret & BMCR_SPEED100 != 0 {
        dev.set_speed(100);
    } else {
        dev.set_speed(10);
    }

    let duplex = ret & BMCR_FULLDPLX != 0;
    dev.set_duplex(duplex);

    dev.read_lpa()?;

    if dev.is_autoneg_enabled() && dev.is_autoneg_completed() {
        dev.resolve_aneg_linkmode();
    }

    Ok(())
}

/// Suspend the device: pure delegation to the handle's generic suspend
/// sequence; its error, if any, is passed through unchanged.
pub fn suspend(dev: &mut Device) -> (r: Result<(), IoError>)
    ensures
        r is Err <==> old(dev)@.faults.suspend,
        final(dev)@ == (DeviceModel {
            log: old(dev)@.log.push(BusOp::Suspend),
            ..old(dev)@
        }),
{
    dev.suspend()
}

/// Resume the device: pure delegation to the handle's generic resume
/// sequence; its error, if any, is passed through unchanged.
pub fn resume(dev: &mut Device) -> (r: Result<(), IoError>)
    ensures
        r is Err <==> old(dev)@.faults.resume,
        final(dev)@ == (DeviceModel {
            log: old(dev)@.log.push(BusOp::Resume),
            ..old(dev)@
        }),
{
    dev.resume()
}

/// Soft-reset the device: write zero to the control register (clearing
/// power-down, isolate and loopback along with everything else), then run
/// the generic reset sequence.  Either step's failure surfaces as
/// `IoError`; there is no internal retry.
pub fn soft_reset(dev: &mut Device) -> (r: Result<(), IoError>)
    requires
        old(dev)@.wf(),
    ensures
        r is Err <==> soft_reset_err(old(dev)@),
        final(dev)@ == soft_reset_post(old(dev)@),
{
    dev.write(MII_BMCR, 0)?;
    dev.soft_reset()
}

/// React to a coarse state change: if the device has no link, re-initialize
/// the hardware and restart autonegotiation, best effort.  Errors from both
/// recovery steps are deliberately swallowed — the hook has no caller to
/// report to, and the next poll cycle will fire it again.  In any other
/// state, do nothing.
pub fn link_change_notify(dev: &mut Device)
    ensures
        final(dev)@ == link_change_notify_post(old(dev)@),
{
    if dev.state() == DeviceState::NoLink {
        let _ = dev.init_hw();
        let _ = dev.start_aneg();
    }
}

/// What the driver registers with the host: the claimed identifier, the
/// exact-match mask for the host's device table, and the capability flag
/// saying the PHY is bus-internal (no external MDIO needed).
pub struct DriverDescriptor {
    pub phy_id: u32,
    pub phy_id_mask: u32,
    pub internal: bool,
}

/// Whether a device-table entry with this identifier and mask routes a
/// device with identifier `id` to its driver.
pub open spec fn table_matches(entry_id: u32, entry_mask: u32, id: u32) -> bool {
    id & entry_mask == entry_id & entry_mask
}

/// The one descriptor this driver registers.
pub fn driver_descriptor() -> (d: DriverDescriptor)
    ensures
        d.phy_id == PHY_ID_ASIX_AX88772A,
        d.phy_id_mask == PHY_ID_MASK_EXACT,
        d.internal,
{
    DriverDescriptor {
        phy_id: PHY_ID_ASIX_AX88772A,
        phy_id_mask: PHY_ID_MASK_EXACT,
        internal: true,
    }
}

/// The host's table lookup: mask the candidate identifier and compare.
pub fn id_table_matches(desc: &DriverDescriptor, id: u32) -> (r: bool)
    ensures
        r == table_matches(desc.phy_id, desc.phy_id_mask, id),
{
    id & desc.phy_id_mask == desc.phy_id & desc.phy_id_mask
}

} // verus!
