//! The kernel resources bundle: what a board gives the kernel's main loop.
//!
//! A board fills one slot for each subsystem that the main loop asks for. A
//! slot that the board leaves to the no-op unit value says that the subsystem
//! is absent on purpose; that is not an error.

use vstd::prelude::*;
use crate::capabilities::{MainLoopCapability, PrivilegedOperations};

verus! {

/// The subsystems that the main loop asks a board for.
#[derive(Clone, Copy, Debug, PartialEq, Eq)]
pub enum Resource {
    SyscallDriverLookup,
    SyscallFilter,
    ProcessFault,
    Scheduler,
    SchedulerTimer,
    WatchDog,
    ContextSwitchCallback,
}

/// How a board fills a slot.
#[derive(Clone, Copy, Debug, PartialEq, Eq)]
pub enum Slot {
    /// The board provides the subsystem.
    Provided,
    /// The subsystem is absent on purpose; the no-op unit value stands in.
    Absent,
}

/// The bundle of the kernel test platform: a scheduler and its timer, a
/// driver lookup without drivers, and nothing else.
pub struct Platform {
    scheduler: Slot,
    scheduler_timer: Slot,
}

impl Platform {
    /// How the slot of `resource` is filled.
    pub closed spec fn spec_slot(&self, resource: Resource) -> Slot {
        match resource {
            Resource::SyscallDriverLookup => Slot::Provided,
            Resource::Scheduler => self.scheduler,
            Resource::SchedulerTimer => self.scheduler_timer,
            _ => Slot::Absent,
        }
    }

    /// The bundle of the kernel test platform.
    pub fn new() -> (platform: Self)
        ensures
            forall|resource: Resource|
                #[trigger] platform.spec_slot(resource) == if resource is SyscallDriverLookup
                    || resource is Scheduler || resource is SchedulerTimer {
                    Slot::Provided
                } else {
                    Slot::Absent
                },
    {
        Platform { scheduler: Slot::Provided, scheduler_timer: Slot::Provided }
    }

    /// How the slot of `resource` is filled.
    pub fn slot(&self, resource: Resource) -> (slot: Slot)
        ensures
            slot == self.spec_slot(resource),
    {
        match resource {
            Resource::SyscallDriverLookup => Slot::Provided,
            Resource::Scheduler => self.scheduler,
            Resource::SchedulerTimer => self.scheduler_timer,
            _ => Slot::Absent,
        }
    }

    /// Looks up the driver with the number `driver_num`: the kernel test
    /// platform has no drivers.
    pub fn with_driver(&self, driver_num: usize) -> (driver: Option<usize>)
        ensures
            driver is None,
    {
        None
    }

    pub fn syscall_driver_lookup(&self) -> (slot: Slot)
        ensures
            slot == self.spec_slot(Resource::SyscallDriverLookup),
            slot == Slot::Provided,
    {
        self.slot(Resource::SyscallDriverLookup)
    }

    pub fn syscall_filter(&self) -> (slot: Slot)
        ensures
            slot == self.spec_slot(Resource::SyscallFilter),
            slot == Slot::Absent,
    {
        self.slot(Resource::SyscallFilter)
    }

    pub fn process_fault(&self) -> (slot: Slot)
        ensures
            slot == self.spec_slot(Resource::ProcessFault),
            slot == Slot::Absent,
    {
        self.slot(Resource::ProcessFault)
    }

    pub fn scheduler(&self) -> (slot: Slot)
        ensures
            slot == self.spec_slot(Resource::Scheduler),
    {
        self.slot(Resource::Scheduler)
    }

    pub fn scheduler_timer(&self) -> (slot: Slot)
        ensures
            slot == self.spec_slot(Resource::SchedulerTimer),
    {
        self.slot(Resource::SchedulerTimer)
    }

    pub fn watchdog(&self) -> (slot: Slot)
        ensures
            slot == self.spec_slot(Resource::WatchDog),
            slot == Slot::Absent,
    {
        self.slot(Resource::WatchDog)
    }

    pub fn context_switch_callback(&self) -> (slot: Slot)
        ensures
            slot == self.spec_slot(Resource::ContextSwitchCallback),
            slot == Slot::Absent,
    {
        self.slot(Resource::ContextSwitchCallback)
    }

    /// Presents the bundle and the capability for the main loop, and records
    /// that the loop is entered.
    pub fn kernel_loop(&self, ops: &mut PrivilegedOperations, capability: &MainLoopCapability)
        ensures
            final(ops).main_loop_entered(),
            final(ops).debug_writer_set() == old(ops).debug_writer_set(),
    {
        ops.enter_main_loop(capability);
    }
}

} // verus!
