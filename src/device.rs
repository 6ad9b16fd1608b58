//! Register access and the capability interface that every backend offers.
use crate::calendar::{is_display_calendar_of, raw_to_calendar, RtcTime};
use crate::error::RtcError;
use vstd::prelude::*;

verus! {

/// A window of 32-bit device registers, addressed by byte offset from the
/// device's base. Reads and writes go straight to the device, which may
/// change what a register holds between two accesses.
pub trait RtcIORegion {
    fn read_at(&self, offset: usize) -> u32;

    fn write_at(&self, offset: usize, value: u32);
}

/// One register access: a read that returned `value`, or a write of `value`.
pub struct RegAccess {
    pub is_write: bool,
    pub offset: usize,
    pub value: u32,
}

/// A read of register `offset` that returned `value`.
pub open spec fn read_of(offset: usize, value: u32) -> RegAccess {
    RegAccess { is_write: false, offset, value }
}

/// A write of `value` to register `offset`.
pub open spec fn write_of(offset: usize, value: u32) -> RegAccess {
    RegAccess { is_write: true, offset, value }
}

/// `a` is a read of register `offset`, whatever it returned.
pub open spec fn is_read_at(a: RegAccess, offset: usize) -> bool {
    !a.is_write && a.offset == offset
}

/// `after` is `before` with further accesses appended.
pub open spec fn extends(before: Seq<RegAccess>, after: Seq<RegAccess>) -> bool {
    before.len() <= after.len() && forall|i: int| 0 <= i < before.len() ==> after[i] == before[i]
}

/// The accesses that `after` holds beyond `before`.
pub open spec fn appended(before: Seq<RegAccess>, after: Seq<RegAccess>) -> Seq<RegAccess> {
    after.skip(before.len() as int)
}

/// A register window together with the history of every access made
/// through it.
pub struct RegisterBus<R: RtcIORegion> {
    region: R,
    history: Ghost<Seq<RegAccess>>,
}

impl<R: RtcIORegion> RegisterBus<R> {
    /// The accesses made so far, oldest first.
    pub closed spec fn history(&self) -> Seq<RegAccess> {
        self.history@
    }

    pub fn new(region: R) -> (r: Self)
        ensures
            r.history() == Seq::<RegAccess>::empty(),
    {
        RegisterBus { region, history: Ghost(Seq::empty()) }
    }

    /// Reads register `offset` once.
    pub fn read(&mut self, offset: usize) -> (r: u32)
        ensures
            final(self).history() == old(self).history().push(read_of(offset, r)),
    {
        let v = self.region.read_at(offset);
        self.history = Ghost(self.history@.push(read_of(offset, v)));
        v
    }

    /// Writes `value` to register `offset` once.
    pub fn write(&mut self, offset: usize, value: u32)
        ensures
            final(self).history() == old(self).history().push(write_of(offset, value)),
    {
        self.region.write_at(offset, value);
        self.history = Ghost(self.history@.push(write_of(offset, value)));
    }
}

/// The operations of a real-time clock. Every operation only reads and
/// writes device registers; `accesses` records them. A backend that lacks an
/// operation answers `Err(RtcError::Unsupported)`.
pub trait LowRtcDevice {
    /// The register accesses the device has made so far, oldest first.
    spec fn accesses(&self) -> Seq<RegAccess>;

    /// Whether `done` is exactly the accesses of one `read_time` call.
    spec fn is_time_read(done: Seq<RegAccess>) -> bool;

    /// What a `read_time` call whose accesses were `done` returns.
    spec fn time_read_result(done: Seq<RegAccess>) -> Result<u64, RtcError>;

    /// Whether `done` is exactly the accesses of one `read_alarm` call.
    spec fn is_alarm_read(done: Seq<RegAccess>) -> bool;

    /// What a `read_alarm` call whose accesses were `done` returns.
    spec fn alarm_read_result(done: Seq<RegAccess>) -> Result<u64, RtcError>;

    /// The current time, in nanoseconds since the Unix epoch.
    fn read_time(&mut self) -> (r: Result<u64, RtcError>)
        ensures
            extends(old(self).accesses(), final(self).accesses()),
            Self::is_time_read(appended(old(self).accesses(), final(self).accesses())),
            r == Self::time_read_result(appended(old(self).accesses(), final(self).accesses())),
    ;

    /// Sets the time, in nanoseconds since the Unix epoch.
    fn set_time(&mut self, time: u64) -> (r: Result<(), RtcError>)
        ensures
            extends(old(self).accesses(), final(self).accesses()),
    ;

    /// Enables the clock's interrupt.
    fn enable_irq(&mut self) -> (r: Result<(), RtcError>)
        ensures
            extends(old(self).accesses(), final(self).accesses()),
    ;

    /// Disables the clock's interrupt.
    fn disable_irq(&mut self) -> (r: Result<(), RtcError>)
        ensures
            extends(old(self).accesses(), final(self).accesses()),
    ;

    /// Acknowledges a pending interrupt.
    fn clear_irq(&mut self) -> (r: Result<(), RtcError>)
        ensures
            extends(old(self).accesses(), final(self).accesses()),
    ;

    /// The alarm time, in nanoseconds since the Unix epoch.
    fn read_alarm(&mut self) -> (r: Result<u64, RtcError>)
        ensures
            extends(old(self).accesses(), final(self).accesses()),
            Self::is_alarm_read(appended(old(self).accesses(), final(self).accesses())),
            r == Self::alarm_read_result(appended(old(self).accesses(), final(self).accesses())),
    ;

    /// Sets the alarm time, in nanoseconds since the Unix epoch.
    fn set_alarm(&mut self, time: u64) -> (r: Result<(), RtcError>)
        ensures
            extends(old(self).accesses(), final(self).accesses()),
    ;

    /// Clears the alarm.
    fn clear_alarm(&mut self) -> (r: Result<(), RtcError>)
        ensures
            extends(old(self).accesses(), final(self).accesses()),
    ;

    /// Whether the alarm has fired.
    fn alarm_status(&mut self) -> (r: Result<bool, RtcError>)
        ensures
            extends(old(self).accesses(), final(self).accesses()),
    ;

    /// Whether the interrupt is enabled.
    fn is_irq_enabled(&mut self) -> (r: Result<bool, RtcError>)
        ensures
            extends(old(self).accesses(), final(self).accesses()),
    ;

    /// The current time as a calendar record at the display offset.
    fn read_time_formatted(&mut self) -> (r: Result<RtcTime, RtcError>)
        ensures
            extends(old(self).accesses(), final(self).accesses()),
            Self::is_time_read(appended(old(self).accesses(), final(self).accesses())),
            calendar_result_of(
                Self::time_read_result(appended(old(self).accesses(), final(self).accesses())),
                r,
            ),
    {
        match self.read_time() {
            Ok(t) => Ok(raw_to_calendar(t)),
            Err(e) => Err(e),
        }
    }

    /// The alarm time as a calendar record at the display offset.
    fn read_alarm_formatted(&mut self) -> (r: Result<RtcTime, RtcError>)
        ensures
            extends(old(self).accesses(), final(self).accesses()),
            Self::is_alarm_read(appended(old(self).accesses(), final(self).accesses())),
            calendar_result_of(
                Self::alarm_read_result(appended(old(self).accesses(), final(self).accesses())),
                r,
            ),
    {
        match self.read_alarm() {
            Ok(t) => Ok(raw_to_calendar(t)),
            Err(e) => Err(e),
        }
    }
}

/// `r` is the timestamp result `t` shown as a calendar record: the same
/// error, or the record of the same timestamp.
pub open spec fn calendar_result_of(t: Result<u64, RtcError>, r: Result<RtcTime, RtcError>) -> bool {
    match t {
        Ok(ns) => r.is_ok() && is_display_calendar_of(ns, r.unwrap()),
        Err(e) => r == Err::<RtcTime, RtcError>(e),
    }
}

} // verus!
