use asix_phy::ax88772a;
use asix_phy::device::BusOp;
use asix_phy::device::Device;
use asix_phy::device::DeviceState;

fn linked_device(id: u32, bmcr: u16) -> Device {
    let mut d = Device::new(id);
    d.hw_link = true;
    d.regs[0] = bmcr;
    d
}

#[test]
fn match_accepts_exact_id() {
    let d = Device::new(0x003b1861);
    assert!(ax88772a::match_phy_device(&d));
}

#[test]
fn match_rejects_other_ids() {
    for id in [0u32, 0x003b1860, 0x003b1862, 0x013b1861, 0xffffffff] {
        let d = Device::new(id);
        assert!(!ax88772a::match_phy_device(&d));
    }
}

#[test]
fn match_has_no_side_effect() {
    let d = Device::new(0x003b1861);
    ax88772a::match_phy_device(&d);
    assert!(d.log.is_empty());
}

#[test]
fn decode_0x0000_speed_10_half() {
    let mut d = linked_device(1, 0x0000);
    assert!(ax88772a::read_status(&mut d).is_ok());
    assert_eq!(d.speed, 10);
    assert!(!d.duplex);
}

#[test]
fn decode_0x2000_speed_100_half() {
    let mut d = linked_device(1, 0x2000);
    assert!(ax88772a::read_status(&mut d).is_ok());
    assert_eq!(d.speed, 100);
    assert!(!d.duplex);
}

#[test]
fn decode_0x0100_speed_10_full() {
    let mut d = linked_device(1, 0x0100);
    assert!(ax88772a::read_status(&mut d).is_ok());
    assert_eq!(d.speed, 10);
    assert!(d.duplex);
}

#[test]
fn decode_0x2100_speed_100_full() {
    let mut d = linked_device(1, 0x2100);
    assert!(ax88772a::read_status(&mut d).is_ok());
    assert_eq!(d.speed, 100);
    assert!(d.duplex);
}

#[test]
fn decode_ignores_other_bits() {
    // Every other control-register bit set, both select bits clear.
    let mut d = linked_device(1, 0xdeff);
    assert!(ax88772a::read_status(&mut d).is_ok());
    assert_eq!(d.speed, 10);
    assert!(!d.duplex);
    // Both select bits set among unrelated bits.
    let mut d = linked_device(1, 0x2100 | 0x8041);
    assert!(ax88772a::read_status(&mut d).is_ok());
    assert_eq!(d.speed, 100);
    assert!(d.duplex);
}

#[test]
fn read_status_bus_trace_link_up() {
    let mut d = linked_device(1, 0x2100);
    assert!(ax88772a::read_status(&mut d).is_ok());
    assert_eq!(
        d.log,
        vec![BusOp::UpdateLink, BusOp::ReadReg(0), BusOp::ReadLpa]
    );
    assert!(d.link);
}

#[test]
fn read_status_idempotent() {
    let mut d = linked_device(1, 0x2100);
    d.autoneg_enabled = true;
    d.autoneg_completed = true;
    d.negotiated_speed = 100;
    d.negotiated_duplex = true;
    assert!(ax88772a::read_status(&mut d).is_ok());
    let (link1, speed1, duplex1) = (d.link, d.speed, d.duplex);
    assert!(ax88772a::read_status(&mut d).is_ok());
    assert_eq!((d.link, d.speed, d.duplex), (link1, speed1, duplex1));
}

#[test]
fn read_status_link_down_short_circuit() {
    let mut d = Device::new(1);
    d.regs[0] = 0x2100;
    d.speed = 77;
    d.duplex = true;
    d.hw_link = false;
    assert!(ax88772a::read_status(&mut d).is_ok());
    // Only the link refresh went over the bus: no control-register read,
    // no partner-ability refresh, speed and duplex untouched.
    assert_eq!(d.log, vec![BusOp::UpdateLink]);
    assert!(!d.link);
    assert_eq!(d.speed, 77);
    assert!(d.duplex);
}

#[test]
fn read_status_resolves_after_completed_autoneg() {
    let mut d = linked_device(1, 0x0000);
    d.autoneg_enabled = true;
    d.autoneg_completed = true;
    d.negotiated_speed = 100;
    d.negotiated_duplex = true;
    assert!(ax88772a::read_status(&mut d).is_ok());
    assert_eq!(d.speed, 100);
    assert!(d.duplex);
    assert_eq!(
        d.log,
        vec![
            BusOp::UpdateLink,
            BusOp::ReadReg(0),
            BusOp::ReadLpa,
            BusOp::ResolveAneg
        ]
    );
}

#[test]
fn read_status_skips_resolution_while_negotiating() {
    let mut d = linked_device(1, 0x2000);
    d.autoneg_enabled = true;
    d.autoneg_completed = false;
    d.negotiated_speed = 10;
    d.negotiated_duplex = false;
    assert!(ax88772a::read_status(&mut d).is_ok());
    // Premature resolution would report the wrong capabilities: the
    // control-register decode stands.
    assert_eq!(d.speed, 100);
    assert!(!d.duplex);
    assert_eq!(
        d.log,
        vec![BusOp::UpdateLink, BusOp::ReadReg(0), BusOp::ReadLpa]
    );
}

#[test]
fn read_status_update_link_failure() {
    let mut d = linked_device(1, 0x2100);
    d.faults.update_link = true;
    d.speed = 77;
    assert!(ax88772a::read_status(&mut d).is_err());
    assert_eq!(d.log, vec![BusOp::UpdateLink]);
    assert_eq!(d.speed, 77);
}

#[test]
fn read_status_control_read_failure() {
    let mut d = linked_device(1, 0x2100);
    d.faults.read_reg = true;
    d.speed = 77;
    d.duplex = true;
    assert!(ax88772a::read_status(&mut d).is_err());
    // The failure propagates at once: no partner-ability refresh, and the
    // speed and duplex setters were never invoked.
    assert_eq!(d.log, vec![BusOp::UpdateLink, BusOp::ReadReg(0)]);
    assert_eq!(d.speed, 77);
    assert!(d.duplex);
}

#[test]
fn read_status_lpa_failure() {
    let mut d = linked_device(1, 0x2100);
    d.autoneg_enabled = true;
    d.autoneg_completed = true;
    d.faults.read_lpa = true;
    assert!(ax88772a::read_status(&mut d).is_err());
    // Speed and duplex were already applied; resolution never ran.
    assert_eq!(d.speed, 100);
    assert!(d.duplex);
    assert_eq!(
        d.log,
        vec![BusOp::UpdateLink, BusOp::ReadReg(0), BusOp::ReadLpa]
    );
}

#[test]
fn soft_reset_clears_control_register_first() {
    let mut d = Device::new(1);
    d.regs[0] = 0xffff;
    assert!(ax88772a::soft_reset(&mut d).is_ok());
    assert_eq!(d.regs[0], 0x0000);
    assert_eq!(d.log, vec![BusOp::WriteReg(0, 0), BusOp::SoftReset]);
}

#[test]
fn soft_reset_write_failure_skips_generic_reset() {
    let mut d = Device::new(1);
    d.regs[0] = 0xffff;
    d.faults.write_reg = true;
    assert!(ax88772a::soft_reset(&mut d).is_err());
    assert_eq!(d.regs[0], 0xffff);
    assert_eq!(d.log, vec![BusOp::WriteReg(0, 0)]);
}

#[test]
fn soft_reset_generic_failure_propagates() {
    let mut d = Device::new(1);
    d.regs[0] = 0x1234;
    d.faults.soft_reset = true;
    assert!(ax88772a::soft_reset(&mut d).is_err());
    // The clearing write had already landed.
    assert_eq!(d.regs[0], 0x0000);
    assert_eq!(d.log, vec![BusOp::WriteReg(0, 0), BusOp::SoftReset]);
}

#[test]
fn suspend_delegates() {
    let mut d = Device::new(1);
    assert!(ax88772a::suspend(&mut d).is_ok());
    assert_eq!(d.log, vec![BusOp::Suspend]);
}

#[test]
fn suspend_failure_propagates() {
    let mut d = Device::new(1);
    d.faults.suspend = true;
    assert!(ax88772a::suspend(&mut d).is_err());
}

#[test]
fn resume_delegates() {
    let mut d = Device::new(1);
    assert!(ax88772a::resume(&mut d).is_ok());
    assert_eq!(d.log, vec![BusOp::Resume]);
}

#[test]
fn resume_failure_propagates() {
    let mut d = Device::new(1);
    d.faults.resume = true;
    assert!(ax88772a::resume(&mut d).is_err());
}

#[test]
fn link_change_notify_recovers_in_no_link() {
    let mut d = Device::new(1);
    d.state = DeviceState::NoLink;
    ax88772a::link_change_notify(&mut d);
    // Exactly one hardware init and one autonegotiation restart.
    assert_eq!(d.log, vec![BusOp::InitHw, BusOp::StartAneg]);
    assert!(d.autoneg_enabled);
    assert!(!d.autoneg_completed);
}

#[test]
fn link_change_notify_swallows_init_error() {
    let mut d = Device::new(1);
    d.state = DeviceState::NoLink;
    d.faults.init_hw = true;
    // Returns unit: a failed init is not propagated, and the
    // autonegotiation restart still runs.
    ax88772a::link_change_notify(&mut d);
    assert_eq!(d.log, vec![BusOp::InitHw, BusOp::StartAneg]);
    assert!(d.autoneg_enabled);
}

#[test]
fn link_change_notify_swallows_aneg_error() {
    let mut d = Device::new(1);
    d.state = DeviceState::NoLink;
    d.faults.start_aneg = true;
    ax88772a::link_change_notify(&mut d);
    assert_eq!(d.log, vec![BusOp::InitHw, BusOp::StartAneg]);
    assert!(!d.autoneg_enabled);
}

#[test]
fn link_change_notify_ignores_other_states() {
    for state in [
        DeviceState::Down,
        DeviceState::Ready,
        DeviceState::Halted,
        DeviceState::Error,
        DeviceState::Up,
        DeviceState::Running,
    ] {
        let mut d = Device::new(1);
        d.state = state;
        ax88772a::link_change_notify(&mut d);
        assert!(d.log.is_empty());
        assert!(!d.autoneg_enabled);
    }
}

#[test]
fn descriptor_claims_exact_match_internal_phy() {
    let desc = ax88772a::driver_descriptor();
    assert_eq!(desc.phy_id, 0x003b1861);
    assert_eq!(desc.phy_id_mask, 0xffffffff);
    assert!(desc.internal);
}

#[test]
fn id_table_agrees_with_match_predicate() {
    let desc = ax88772a::driver_descriptor();
    for id in [0u32, 0x003b1861, 0x003b1860, 0x803b1861, 0xffffffff] {
        let d = Device::new(id);
        assert_eq!(
            ax88772a::id_table_matches(&desc, id),
            ax88772a::match_phy_device(&d)
        );
    }
}
