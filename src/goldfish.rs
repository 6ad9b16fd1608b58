//! The Goldfish virtual clock: time and alarm are 64-bit nanosecond counts,
//! each held in a pair of 32-bit registers.
use crate::device::{
    appended, extends, is_read_at, read_of, write_of, LowRtcDevice, RegAccess, RegisterBus,
    RtcIORegion,
};
use crate::error::RtcError;
use vstd::prelude::*;

verus! {

pub const RTC_TIME_LOW: usize = 0x00;
pub const RTC_TIME_HIGH: usize = 0x04;
pub const RTC_ALARM_LOW: usize = 0x08;
pub const RTC_ALARM_HIGH: usize = 0x0c;
pub const RTC_IRQ_ENABLED: usize = 0x10;
pub const RTC_CLEAR_ALARM: usize = 0x14;
pub const RTC_ALARM_STATUS: usize = 0x18;
pub const RTC_CLEAR_INTERRUPT: usize = 0x1c;

/// The 64-bit value whose high half is `high` and low half is `low`.
pub open spec fn join_words(low: u32, high: u32) -> int {
    high as int * 0x1_0000_0000 + low as int
}

/// The low 32 bits of `t`.
pub open spec fn low_word(t: u64) -> u32 {
    (t % 0x1_0000_0000) as u32
}

/// The high 32 bits of `t`.
pub open spec fn high_word(t: u64) -> u32 {
    (t / 0x1_0000_0000) as u32
}

/// `done` reads the low register, then the high register.
pub open spec fn is_pair_read(done: Seq<RegAccess>, low_reg: usize, high_reg: usize) -> bool {
    done.len() == 2 && is_read_at(done[0], low_reg) && is_read_at(done[1], high_reg)
}

/// The value a pair read returns: the two words read, joined.
pub open spec fn pair_read_result(done: Seq<RegAccess>) -> Result<u64, RtcError> {
    Ok(join_words(done[0].value, done[1].value) as u64)
}

/// The two writes that store `t`: low half first, then high half.
pub open spec fn pair_write(t: u64, low_reg: usize, high_reg: usize) -> Seq<RegAccess> {
    seq![write_of(low_reg, low_word(t)), write_of(high_reg, high_word(t))]
}

/// Splitting a timestamp into two register words loses nothing: a time
/// read that finds in the registers the words that `set_time(t)` wrote
/// returns `t`.
pub proof fn lemma_set_then_read_time(t: u64, written: Seq<RegAccess>, done: Seq<RegAccess>)
    requires
        written == pair_write(t, RTC_TIME_LOW, RTC_TIME_HIGH),
        is_pair_read(done, RTC_TIME_LOW, RTC_TIME_HIGH),
        done[0].value == written[0].value,
        done[1].value == written[1].value,
    ensures
        pair_read_result(done) == Ok::<u64, RtcError>(t),
{
}

/// Joins two register words into one 64-bit value.
fn join_u32_pair(low: u32, high: u32) -> (r: u64)
    ensures
        r as int == join_words(low, high),
{
    let r: u64 = (high as u64) << 32u64 | low as u64;
    proof {
        let h = high as u64;
        let l = low as u64;
        assert((h << 32u64 | l) == h * 0x1_0000_0000u64 + l) by (bit_vector)
            requires
                h < 0x1_0000_0000u64,
                l < 0x1_0000_0000u64,
        ;
    }
    r
}

/// A Goldfish clock reached through a register window.
pub struct GoldFishRtc<R: RtcIORegion> {
    bus: RegisterBus<R>,
}

impl<R: RtcIORegion> GoldFishRtc<R> {
    pub fn new(region: R) -> (r: Self)
        ensures
            r.accesses() == Seq::<RegAccess>::empty(),
    {
        GoldFishRtc { bus: RegisterBus::new(region) }
    }

    fn read_pair(&mut self, low_reg: usize, high_reg: usize) -> (r: u64)
        ensures
            extends(old(self).accesses(), final(self).accesses()),
            is_pair_read(appended(old(self).accesses(), final(self).accesses()), low_reg, high_reg),
            Ok::<u64, RtcError>(r) == pair_read_result(
                appended(old(self).accesses(), final(self).accesses()),
            ),
    {
        let low = self.bus.read(low_reg);
        let high = self.bus.read(high_reg);
        let r = join_u32_pair(low, high);
        assert(appended(old(self).accesses(), final(self).accesses()) =~= seq![
            read_of(low_reg, low),
            read_of(high_reg, high),
        ]);
        r
    }

    fn write_pair(&mut self, t: u64, low_reg: usize, high_reg: usize)
        ensures
            final(self).accesses() == old(self).accesses() + pair_write(t, low_reg, high_reg),
    {
        self.bus.write(low_reg, (t % 0x1_0000_0000) as u32);
        self.bus.write(high_reg, (t / 0x1_0000_0000) as u32);
        assert(final(self).accesses() =~= old(self).accesses() + pair_write(t, low_reg, high_reg));
    }

    fn read_flag(&mut self, reg: usize) -> (r: bool)
        ensures
            final(self).accesses().len() == old(self).accesses().len() + 1,
            final(self).accesses() == old(self).accesses().push(
                read_of(reg, final(self).accesses().last().value),
            ),
            r == (final(self).accesses().last().value == 1),
    {
        let v = self.bus.read(reg);
        v == 1
    }
}

impl<R: RtcIORegion> LowRtcDevice for GoldFishRtc<R> {
    closed spec fn accesses(&self) -> Seq<RegAccess> {
        self.bus.history()
    }

    open spec fn is_time_read(done: Seq<RegAccess>) -> bool {
        is_pair_read(done, RTC_TIME_LOW, RTC_TIME_HIGH)
    }

    open spec fn time_read_result(done: Seq<RegAccess>) -> Result<u64, RtcError> {
        pair_read_result(done)
    }

    open spec fn is_alarm_read(done: Seq<RegAccess>) -> bool {
        is_pair_read(done, RTC_ALARM_LOW, RTC_ALARM_HIGH)
    }

    open spec fn alarm_read_result(done: Seq<RegAccess>) -> Result<u64, RtcError> {
        pair_read_result(done)
    }

    /// Reads the low word, then the high word; the pair is not checked
    /// for a carry between the two reads.
    fn read_time(&mut self) -> (r: Result<u64, RtcError>) {
        Ok(self.read_pair(RTC_TIME_LOW, RTC_TIME_HIGH))
    }

    fn set_time(&mut self, time: u64) -> (r: Result<(), RtcError>)
        ensures
            final(self).accesses() == old(self).accesses() + pair_write(
                time,
                RTC_TIME_LOW,
                RTC_TIME_HIGH,
            ),
            r == Ok::<(), RtcError>(()),
    {
        self.write_pair(time, RTC_TIME_LOW, RTC_TIME_HIGH);
        Ok(())
    }

    fn enable_irq(&mut self) -> (r: Result<(), RtcError>)
        ensures
            final(self).accesses() == old(self).accesses().push(write_of(RTC_IRQ_ENABLED, 1)),
            r == Ok::<(), RtcError>(()),
    {
        self.bus.write(RTC_IRQ_ENABLED, 1);
        Ok(())
    }

    fn disable_irq(&mut self) -> (r: Result<(), RtcError>)
        ensures
            final(self).accesses() == old(self).accesses().push(write_of(RTC_IRQ_ENABLED, 0)),
            r == Ok::<(), RtcError>(()),
    {
        self.bus.write(RTC_IRQ_ENABLED, 0);
        Ok(())
    }

    fn clear_irq(&mut self) -> (r: Result<(), RtcError>)
        ensures
            final(self).accesses() == old(self).accesses().push(write_of(RTC_CLEAR_INTERRUPT, 1)),
            r == Ok::<(), RtcError>(()),
    {
        self.bus.write(RTC_CLEAR_INTERRUPT, 1);
        Ok(())
    }

    fn read_alarm(&mut self) -> (r: Result<u64, RtcError>) {
        Ok(self.read_pair(RTC_ALARM_LOW, RTC_ALARM_HIGH))
    }

    fn set_alarm(&mut self, time: u64) -> (r: Result<(), RtcError>)
        ensures
            final(self).accesses() == old(self).accesses() + pair_write(
                time,
                RTC_ALARM_LOW,
                RTC_ALARM_HIGH,
            ),
            r == Ok::<(), RtcError>(()),
    {
        self.write_pair(time, RTC_ALARM_LOW, RTC_ALARM_HIGH);
        Ok(())
    }

    fn clear_alarm(&mut self) -> (r: Result<(), RtcError>)
        ensures
            final(self).accesses() == old(self).accesses().push(write_of(RTC_CLEAR_ALARM, 1)),
            r == Ok::<(), RtcError>(()),
    {
        self.bus.write(RTC_CLEAR_ALARM, 1);
        Ok(())
    }

    /// True exactly when the status register reads 1.
    fn alarm_status(&mut self) -> (r: Result<bool, RtcError>)
        ensures
            final(self).accesses() == old(self).accesses().push(
                read_of(RTC_ALARM_STATUS, final(self).accesses().last().value),
            ),
            r == Ok::<bool, RtcError>(final(self).accesses().last().value == 1),
    {
        Ok(self.read_flag(RTC_ALARM_STATUS))
    }

    /// True exactly when the enable register reads 1.
    fn is_irq_enabled(&mut self) -> (r: Result<bool, RtcError>)
        ensures
            final(self).accesses() == old(self).accesses().push(
                read_of(RTC_IRQ_ENABLED, final(self).accesses().last().value),
            ),
            r == Ok::<bool, RtcError>(final(self).accesses().last().value == 1),
    {
        Ok(self.read_flag(RTC_IRQ_ENABLED))
    }
}

} // verus!
