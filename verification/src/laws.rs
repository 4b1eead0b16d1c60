//! Properties relating the driver operations, proved over the spec
//! functions that the operations' own contracts use.

use vstd::prelude::*;

use crate::ax88772a::bmcr_full_duplex;
use crate::ax88772a::bmcr_speed;
use crate::ax88772a::link_change_notify_post;
use crate::ax88772a::read_status_err;
use crate::ax88772a::read_status_post;
use crate::ax88772a::soft_reset_post;
use crate::ax88772a::table_matches;
use crate::ax88772a::BMCR_FULLDPLX;
use crate::ax88772a::BMCR_SPEED100;
use crate::ax88772a::MII_BMCR;
use crate::ax88772a::PHY_ID_ASIX_AX88772A;
use crate::ax88772a::PHY_ID_MASK_EXACT;
use crate::device::BusOp;
use crate::device::DeviceModel;
use crate::device::DeviceState;

verus! {

/// The exact-match device-table entry routes a device to this driver for
/// precisely the identifiers the match predicate accepts: with a mask of
/// all ones, table matching is exact equality with the claimed constant.
pub proof fn lemma_exact_mask_table(id: u32)
    ensures
        table_matches(PHY_ID_ASIX_AX88772A, PHY_ID_MASK_EXACT, id) <==> id
            == PHY_ID_ASIX_AX88772A,
{
    assert(id & 0xffffffffu32 == id) by (bit_vector);
    assert(0x003b1861u32 & 0xffffffffu32 == 0x003b1861u32) by (bit_vector);
}

/// Status resolution is idempotent: resolving status twice in succession,
/// with no intervening change to the device, yields the same link, speed
/// and duplex outcome both times, and the same success or failure.
pub proof fn lemma_read_status_idempotent(d: DeviceModel)
    ensures
        read_status_post(read_status_post(d)).link == read_status_post(d).link,
        read_status_post(read_status_post(d)).speed == read_status_post(d).speed,
        read_status_post(read_status_post(d)).duplex == read_status_post(d).duplex,
        read_status_err(read_status_post(d)) == read_status_err(d),
{
}

/// Link-down short-circuit: when the link refresh succeeds and reports the
/// link down, status resolution succeeds at once — the only bus operation
/// issued is the link refresh itself (in particular no register read and no
/// partner-ability refresh), and speed and duplex are left untouched.
pub proof fn lemma_link_down_short_circuit(d: DeviceModel)
    requires
        !d.faults.update_link,
        !d.hw_link,
    ensures
        !read_status_err(d),
        read_status_post(d) == (DeviceModel {
            link: false,
            log: d.log.push(BusOp::UpdateLink),
            ..d
        }),
        read_status_post(d).speed == d.speed,
        read_status_post(d).duplex == d.duplex,
{
}

/// The speed and duplex decode depends on the speed-select and
/// duplex-select bits alone: two control-register values that agree on
/// those bits decode alike, whatever their other bits hold.
pub proof fn lemma_decode_ignores_other_bits(v: u16, w: u16)
    requires
        v & BMCR_SPEED100 == w & BMCR_SPEED100,
        v & BMCR_FULLDPLX == w & BMCR_FULLDPLX,
    ensures
        bmcr_speed(v) == bmcr_speed(w),
        bmcr_full_duplex(v) == bmcr_full_duplex(w),
{
}

/// Soft reset clears the control register first: the first bus operation
/// it issues is a write of exactly zero to the control register, and only
/// when that write succeeds does the generic reset sequence follow, with
/// the control register then holding zero.
pub proof fn lemma_soft_reset_clears_first(d: DeviceModel)
    requires
        d.wf(),
    ensures
        soft_reset_post(d).log[d.log.len() as int] == BusOp::WriteReg(MII_BMCR, 0),
        d.faults.write_reg ==> soft_reset_post(d).log.len() == d.log.len() + 1,
        !d.faults.write_reg ==> soft_reset_post(d).log.len() == d.log.len() + 2
            && soft_reset_post(d).log[d.log.len() as int + 1] == BusOp::SoftReset
            && soft_reset_post(d).regs[MII_BMCR as int] == 0,
{
}

/// A bus failure on the control-register read, after the link refresh has
/// confirmed the link up, makes status resolution fail with the bus error,
/// with the speed and duplex setters never invoked and no further bus
/// operation issued.
pub proof fn lemma_read_failure_propagates(d: DeviceModel)
    requires
        !d.faults.update_link,
        d.hw_link,
        d.faults.read_reg,
    ensures
        read_status_err(d),
        read_status_post(d).speed == d.speed,
        read_status_post(d).duplex == d.duplex,
        read_status_post(d).log == d.log.push(BusOp::UpdateLink).push(
            BusOp::ReadReg(MII_BMCR),
        ),
{
}

/// The link-change hook touches the device only in the no-link state: in
/// every other coarse state it issues no bus operation and changes nothing.
pub proof fn lemma_link_change_only_no_link(d: DeviceModel)
    requires
        d.state != DeviceState::NoLink,
    ensures
        link_change_notify_post(d) == d,
{
}

/// In the no-link state the link-change hook attempts recovery exactly
/// once: whatever the outcome of either step, precisely one hardware init
/// and one autonegotiation restart are issued, in that order.
pub proof fn lemma_link_change_recovers_once(d: DeviceModel)
    requires
        d.state == DeviceState::NoLink,
    ensures
        link_change_notify_post(d).log == d.log.push(BusOp::InitHw).push(BusOp::StartAneg),
{
}

} // verus!
