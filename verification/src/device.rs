//! A model of the host-owned PHY device handle.
//!
//! The host environment owns the transceiver; the driver borrows it for one
//! operation at a time and reaches the chip only through the handle's
//! capability set: register reads and writes, the resolved link fields, and
//! the generic hardware sequences (link refresh, suspend, resume, soft
//! reset, hardware init, autonegotiation).  Every one of those goes over a
//! management bus whose transactions can fail.
//!
//! `Device` models that handle as plain data.  `faults` models the bus: an
//! operation whose fault flag is set fails with `IoError` and leaves the
//! device unchanged.  `log` records every bus operation in order, so that a
//! contract can state exactly which bus traffic an operation causes.

use vstd::prelude::*;

verus! {

/// Number of registers in the MII management register space.
pub const MII_REG_COUNT: u32 = 32;

/// A failed bus transaction: the only error this driver core surfaces.
#[derive(Clone, Copy, PartialEq, Eq, Structural, Debug)]
pub struct IoError;

/// Coarse device state, owned and driven by the host environment.
#[derive(Clone, Copy, PartialEq, Eq, Structural, Debug)]
pub enum DeviceState {
    Down,
    Ready,
    Halted,
    Error,
    Up,
    Running,
    NoLink,
}

/// Which bus operations fail.  A set flag makes every call of that
/// operation fail with `IoError` until the flag is cleared.
#[derive(Clone, Copy, PartialEq, Eq, Structural, Debug)]
pub struct Faults {
    pub update_link: bool,
    pub read_reg: bool,
    pub write_reg: bool,
    pub read_lpa: bool,
    pub suspend: bool,
    pub resume: bool,
    pub soft_reset: bool,
    pub init_hw: bool,
    pub start_aneg: bool,
}

/// The set of faults in which every bus operation succeeds.
pub open spec fn no_faults() -> Faults {
    Faults {
        update_link: false,
        read_reg: false,
        write_reg: false,
        read_lpa: false,
        suspend: false,
        resume: false,
        soft_reset: false,
        init_hw: false,
        start_aneg: false,
    }
}

impl Default for Faults {
    /// All flags clear: every bus operation succeeds.
    fn default() -> (r: Faults)
        ensures
            r == no_faults(),
    {
        Faults {
            update_link: false,
            read_reg: false,
            write_reg: false,
            read_lpa: false,
            suspend: false,
            resume: false,
            soft_reset: false,
            init_hw: false,
            start_aneg: false,
        }
    }
}

/// One bus operation, as the device records it.
#[derive(Clone, Copy, PartialEq, Eq, Structural, Debug)]
pub enum BusOp {
    /// Refresh the resolved link-up flag from hardware.
    UpdateLink,
    /// Read the register at this address.
    ReadReg(u32),
    /// Write this value to the register at this address.
    WriteReg(u32, u16),
    /// Refresh the link-partner ability state.
    ReadLpa,
    /// The generic suspend sequence.
    Suspend,
    /// The generic resume sequence.
    Resume,
    /// The generic soft-reset sequence (set the reset bit, poll for completion).
    SoftReset,
    /// Re-initialize the hardware.
    InitHw,
    /// Start (or restart) autonegotiation.
    StartAneg,
    /// Resolve the final link mode after completed autonegotiation.
    ResolveAneg,
}

/// The mathematical value of a `Device`.
pub ghost struct DeviceModel {
    pub id: u32,
    pub regs: Seq<u16>,
    pub hw_link: bool,
    pub link: bool,
    pub speed: u32,
    pub duplex: bool,
    pub autoneg_enabled: bool,
    pub autoneg_completed: bool,
    pub state: DeviceState,
    pub negotiated_speed: u32,
    pub negotiated_duplex: bool,
    pub faults: Faults,
    pub log: Seq<BusOp>,
}

impl DeviceModel {
    /// Well-formed: the register file covers the MII register space.
    pub open spec fn wf(self) -> bool {
        self.regs.len() == MII_REG_COUNT
    }
}

/// One PHY device as the host hands it to the driver.
///
/// `id` is the chip identifier read at probe time.  `regs` is the MII
/// register file as bus reads return it.  `hw_link` is the link status the
/// hardware currently reports; `update_link` copies it into `link`, the
/// handle's resolved link-up flag.  `speed` and `duplex` (true = full) are
/// the resolved fields the network stack consumes.  `negotiated_speed` and
/// `negotiated_duplex` are what the host's mode-resolution routine reports
/// for the currently advertised mode sets; `resolve_aneg_linkmode` installs
/// them.  `faults` and `log` model the bus, as described at the module head.
pub struct Device {
    pub id: u32,
    pub regs: Vec<u16>,
    pub hw_link: bool,
    pub link: bool,
    pub speed: u32,
    pub duplex: bool,
    pub autoneg_enabled: bool,
    pub autoneg_completed: bool,
    pub state: DeviceState,
    pub negotiated_speed: u32,
    pub negotiated_duplex: bool,
    pub faults: Faults,
    pub log: Vec<BusOp>,
}

impl View for Device {
    type V = DeviceModel;

    open spec fn view(&self) -> DeviceModel {
        DeviceModel {
            id: self.id,
            regs: self.regs@,
            hw_link: self.hw_link,
            link: self.link,
            speed: self.speed,
            duplex: self.duplex,
            autoneg_enabled: self.autoneg_enabled,
            autoneg_completed: self.autoneg_completed,
            state: self.state,
            negotiated_speed: self.negotiated_speed,
            negotiated_duplex: self.negotiated_duplex,
            faults: self.faults,
            log: self.log@,
        }
    }
}

/// The model of a freshly created device: registers cleared, no link,
/// speed unknown (0), autonegotiation off, state `Down`, a sound bus, and
/// no bus traffic yet.
pub open spec fn initial_model(id: u32) -> DeviceModel {
    DeviceModel {
        id,
        regs: Seq::new(MII_REG_COUNT as nat, |i: int| 0u16),
        hw_link: false,
        link: false,
        speed: 0,
        duplex: false,
        autoneg_enabled: false,
        autoneg_completed: false,
        state: DeviceState::Down,
        negotiated_speed: 0,
        negotiated_duplex: false,
        faults: no_faults(),
        log: Seq::empty(),
    }
}

impl Device {
    /// A fresh device with the given chip identifier.
    pub fn new(id: u32) -> (d: Device)
        ensures
            d@ == initial_model(id),
            d@.wf(),
    {
        let mut regs: Vec<u16> = Vec::new();
        while regs.len() < MII_REG_COUNT as usize
            invariant
                regs@.len() <= MII_REG_COUNT,
                forall|i: int| 0 <= i < regs@.len() ==> regs@[i] == 0u16,
            decreases MII_REG_COUNT as int - regs@.len(),
        {
            regs.push(0u16);
        }
        proof {
            assert(regs@ =~= Seq::new(MII_REG_COUNT as nat, |i: int| 0u16));
        }
        let d = Device {
            id,
            regs,
            hw_link: false,
            link: false,
            speed: 0,
            duplex: false,
            autoneg_enabled: false,
            autoneg_completed: false,
            state: DeviceState::Down,
            negotiated_speed: 0,
            negotiated_duplex: false,
            faults: Faults::default(),
            log: Vec::new(),
        };
        proof {
            assert(d@ =~= initial_model(id));
        }
        d
    }

    /// The chip identifier, cached by the host at probe time; no bus access.
    pub fn id(&self) -> (r: u32)
        ensures
            r == self@.id,
    {
        self.id
    }

    /// The resolved link-up flag; no bus access.
    pub fn link(&self) -> (r: bool)
        ensures
            r == self@.link,
    {
        self.link
    }

    /// The coarse device state; no bus access.
    pub fn state(&self) -> (r: DeviceState)
        ensures
            r == self@.state,
    {
        self.state
    }

    /// Whether autonegotiation is enabled; no bus access.
    pub fn is_autoneg_enabled(&self) -> (r: bool)
        ensures
            r == self@.autoneg_enabled,
    {
        self.autoneg_enabled
    }

    /// Whether autonegotiation has completed; no bus access.
    pub fn is_autoneg_completed(&self) -> (r: bool)
        ensures
            r == self@.autoneg_completed,
    {
        self.autoneg_completed
    }

    /// Refresh the resolved link-up flag from what the hardware reports.
    pub fn update_link(&mut self) -> (r: Result<(), IoError>)
        ensures
            r is Err <==> old(self)@.faults.update_link,
            final(self)@ == (DeviceModel {
                link: if old(self)@.faults.update_link {
                    old(self)@.link
                } else {
                    old(self)@.hw_link
                },
                log: old(self)@.log.push(BusOp::UpdateLink),
                ..old(self)@
            }),
    {
        self.log.push(BusOp::UpdateLink);
        if self.faults.update_link {
            Err(IoError)
        } else {
            self.link = self.hw_link;
            Ok(())
        }
    }

    /// Read the register at `regnum` over the management bus.
    pub fn read(&mut self, regnum: u32) -> (r: Result<u16, IoError>)
        requires
            old(self)@.wf(),
            regnum < MII_REG_COUNT,
        ensures
            r == (if old(self)@.faults.read_reg {
                Err::<u16, IoError>(IoError)
            } else {
                Ok::<u16, IoError>(old(self)@.regs[regnum as int])
            }),
            final(self)@ == (DeviceModel {
                log: old(self)@.log.push(BusOp::ReadReg(regnum)),
                ..old(self)@
            }),
    {
        self.log.push(BusOp::ReadReg(regnum));
        if self.faults.read_reg {
            Err(IoError)
        } else {
            Ok(self.regs[regnum as usize])
        }
    }

    /// Write `val` to the register at `regnum` over the management bus.
    /// A failed write leaves the register file unchanged.
    pub fn write(&mut self, regnum: u32, val: u16) -> (r: Result<(), IoError>)
        requires
            old(self)@.wf(),
            regnum < MII_REG_COUNT,
        ensures
            r is Err <==> old(self)@.faults.write_reg,
            final(self)@ == (DeviceModel {
                regs: if old(self)@.faults.write_reg {
                    old(self)@.regs
                } else {
                    old(self)@.regs.update(regnum as int, val)
                },
                log: old(self)@.log.push(BusOp::WriteReg(regnum, val)),
                ..old(self)@
            }),
    {
        self.log.push(BusOp::WriteReg(regnum, val));
        if self.faults.write_reg {
            Err(IoError)
        } else {
            self.regs.set(regnum as usize, val);
            Ok(())
        }
    }

    /// Refresh the link-partner ability state.  The partner's advertised
    /// capabilities themselves are not part of this model; their resolved
    /// outcome is (`negotiated_speed`, `negotiated_duplex`).
    pub fn read_lpa(&mut self) -> (r: Result<(), IoError>)
        ensures
            r is Err <==> old(self)@.faults.read_lpa,
            final(self)@ == (DeviceModel {
                log: old(self)@.log.push(BusOp::ReadLpa),
                ..old(self)@
            }),
    {
        self.log.push(BusOp::ReadLpa);
        if self.faults.read_lpa {
            Err(IoError)
        } else {
            Ok(())
        }
    }

    /// Set the resolved speed field; no bus access.
    pub fn set_speed(&mut self, speed: u32)
        ensures
            final(self)@ == (DeviceModel { speed, ..old(self)@ }),
    {
        self.speed = speed;
    }

    /// Set the resolved duplex field (true = full); no bus access.
    pub fn set_duplex(&mut self, full: bool)
        ensures
            final(self)@ == (DeviceModel { duplex: full, ..old(self)@ }),
    {
        self.duplex = full;
    }

    /// Resolve the final advertised link mode set after completed
    /// autonegotiation: install the negotiated speed and duplex.
    pub fn resolve_aneg_linkmode(&mut self)
        ensures
            final(self)@ == (DeviceModel {
                speed: old(self)@.negotiated_speed,
                duplex: old(self)@.negotiated_duplex,
                log: old(self)@.log.push(BusOp::ResolveAneg),
                ..old(self)@
            }),
    {
        self.log.push(BusOp::ResolveAneg);
        self.speed = self.negotiated_speed;
        self.duplex = self.negotiated_duplex;
    }

    /// The generic suspend sequence.  Its register traffic is the host's
    /// concern; the model records only the delegation and its outcome.
    pub fn suspend(&mut self) -> (r: Result<(), IoError>)
        ensures
            r is Err <==> old(self)@.faults.suspend,
            final(self)@ == (DeviceModel {
                log: old(self)@.log.push(BusOp::Suspend),
                ..old(self)@
            }),
    {
        self.log.push(BusOp::Suspend);
        if self.faults.suspend {
            Err(IoError)
        } else {
            Ok(())
        }
    }

    /// The generic resume sequence; modeled like `suspend`.
    pub fn resume(&mut self) -> (r: Result<(), IoError>)
        ensures
            r is Err <==> old(self)@.faults.resume,
            final(self)@ == (DeviceModel {
                log: old(self)@.log.push(BusOp::Resume),
                ..old(self)@
            }),
    {
        self.log.push(BusOp::Resume);
        if self.faults.resume {
            Err(IoError)
        } else {
            Ok(())
        }
    }

    /// The generic soft-reset sequence (set the reset bit, poll until it
    /// clears); modeled like `suspend`.
    pub fn soft_reset(&mut self) -> (r: Result<(), IoError>)
        ensures
            r is Err <==> old(self)@.faults.soft_reset,
            final(self)@ == (DeviceModel {
                log: old(self)@.log.push(BusOp::SoftReset),
                ..old(self)@
            }),
    {
        self.log.push(BusOp::SoftReset);
        if self.faults.soft_reset {
            Err(IoError)
        } else {
            Ok(())
        }
    }

    /// Re-initialize the hardware; modeled like `suspend`.
    pub fn init_hw(&mut self) -> (r: Result<(), IoError>)
        ensures
            r is Err <==> old(self)@.faults.init_hw,
            final(self)@ == (DeviceModel {
                log: old(self)@.log.push(BusOp::InitHw),
                ..old(self)@
            }),
    {
        self.log.push(BusOp::InitHw);
        if self.faults.init_hw {
            Err(IoError)
        } else {
            Ok(())
        }
    }

    /// Start (or restart) autonegotiation.  On success negotiation is
    /// enabled and no longer complete; a failed call changes nothing.
    pub fn start_aneg(&mut self) -> (r: Result<(), IoError>)
        ensures
            r is Err <==> old(self)@.faults.start_aneg,
            final(self)@ == (DeviceModel {
                autoneg_enabled: if old(self)@.faults.start_aneg {
                    old(self)@.autoneg_enabled
                } else {
                    true
                },
                autoneg_completed: if old(self)@.faults.start_aneg {
                    old(self)@.autoneg_completed
                } else {
                    false
                },
                log: old(self)@.log.push(BusOp::StartAneg),
                ..old(self)@
            }),
    {
        self.log.push(BusOp::StartAneg);
        if self.faults.start_aneg {
            Err(IoError)
        } else {
            self.autoneg_enabled = true;
            self.autoneg_completed = false;
            Ok(())
        }
    }
}

} // verus!
