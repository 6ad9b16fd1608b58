//! The StarFive JH7110 clock: time and date are packed BCD fields, and a
//! one-second tick flag tells when a sample may straddle a rollover.
use crate::bits::{bcd_to_binary, bcd_value, bits_of, extract_bits};
use crate::calendar::{calendar_to_raw, is_display_calendar_of, raw_of_calendar, RtcTime};
use crate::device::{
    appended, extends, is_read_at, read_of, write_of, LowRtcDevice, RegAccess, RegisterBus,
    RtcIORegion,
};
use crate::error::RtcError;
use vstd::arithmetic::power2::{lemma2_to64, pow2};
use vstd::prelude::*;

verus! {

// Register offsets.
pub const SFT_RTC_CFG: usize = 0x00;
pub const SFT_RTC_SW_CAL_VALUE: usize = 0x04;
pub const SFT_RTC_HW_CAL_CFG: usize = 0x08;
pub const SFT_RTC_CMP_CFG: usize = 0x0C;
pub const SFT_RTC_IRQ_EN: usize = 0x10;
pub const SFT_RTC_IRQ_EVENT: usize = 0x14;
pub const SFT_RTC_IRQ_STATUS: usize = 0x18;
pub const SFT_RTC_CAL_VALUE: usize = 0x24;
pub const SFT_RTC_CFG_TIME: usize = 0x28;
pub const SFT_RTC_CFG_DATE: usize = 0x2C;
pub const SFT_RTC_ACT_TIME: usize = 0x34;
pub const SFT_RTC_ACT_DATE: usize = 0x38;
pub const SFT_RTC_TIME: usize = 0x3C;
pub const SFT_RTC_DATE: usize = 0x40;
pub const SFT_RTC_TIME_LATCH: usize = 0x44;
pub const SFT_RTC_DATE_LATCH: usize = 0x48;

// Bits of the configuration register.
pub const RTC_CFG_ENABLE: u32 = 0x1;
pub const RTC_CFG_CAL_EN_HW: u32 = 0x2;
pub const RTC_CFG_CAL_SEL: u32 = 0x4;
pub const RTC_CFG_HOUR_MODE: u32 = 0x8;

// Bits of the interrupt enable, event and status registers.
pub const RTC_IRQ_CAL_START: u32 = 0x1;
pub const RTC_IRQ_CAL_FINISH: u32 = 0x2;
pub const RTC_IRQ_CMP: u32 = 0x4;
pub const RTC_IRQ_1SEC: u32 = 0x8;
pub const RTC_IRQ_ALARM: u32 = 0x10;

/// How the clock counts hours.
#[derive(Debug, Clone, Copy, PartialEq, Eq, Structural)]
pub enum RtcHourMode {
    Hour12,
    Hour24,
}

/// The configuration word `cfg` with its hour-mode bit set for `mode`.
pub open spec fn with_hour_mode(cfg: u32, mode: RtcHourMode) -> u32 {
    match mode {
        RtcHourMode::Hour24 => cfg | RTC_CFG_HOUR_MODE,
        RtcHourMode::Hour12 => cfg & !RTC_CFG_HOUR_MODE,
    }
}

/// The configuration word `cfg` with its enable bit set to `enabled`.
pub open spec fn with_enabled(cfg: u32, enabled: bool) -> u32 {
    if enabled {
        cfg | RTC_CFG_ENABLE
    } else {
        cfg & !RTC_CFG_ENABLE
    }
}

/// The configuration word `cfg` selects 24-hour mode.
pub open spec fn is_24_hour(cfg: u32) -> bool {
    cfg & RTC_CFG_HOUR_MODE != 0
}

/// The configuration word `cfg` has the clock enabled.
pub open spec fn is_enabled_cfg(cfg: u32) -> bool {
    cfg & RTC_CFG_ENABLE != 0
}

/// The status word `status` shows that a one-second tick occurred.
pub open spec fn is_tick(status: u32) -> bool {
    status & RTC_IRQ_1SEC != 0
}

/// `done` reads the configuration register, then writes `written` to it.
pub open spec fn is_cfg_rewrite(done: Seq<RegAccess>, written: u32) -> bool {
    done.len() == 2 && is_read_at(done[0], SFT_RTC_CFG) && done[1] == write_of(
        SFT_RTC_CFG,
        written,
    )
}

/// The calendar record packed in a time word and a date word: seconds in
/// bits 0-6, minutes 7-13 and hours 14-20 of the time word; day in bits
/// 0-5, month 6-10 and years since 2000 in 11-18 of the date word, each
/// in BCD.
pub open spec fn decoded(time: u32, date: u32) -> RtcTime {
    RtcTime {
        year: (2000 + bcd_value(bits_of(date, 18, 11))) as u32,
        month: bcd_value(bits_of(date, 10, 6)) as u8,
        day: bcd_value(bits_of(date, 5, 0)) as u8,
        hour: bcd_value(bits_of(time, 20, 14)) as u8,
        minute: bcd_value(bits_of(time, 13, 7)) as u8,
        second: bcd_value(bits_of(time, 6, 0)) as u8,
    }
}

/// `done[i]` and `done[i + 1]` read the time word, then the date word.
pub open spec fn is_sample_at(done: Seq<RegAccess>, i: int) -> bool {
    is_read_at(done[i], SFT_RTC_CFG_TIME) && is_read_at(done[i + 1], SFT_RTC_CFG_DATE)
}

/// The tearing-safe sampling: one sample; then, unless a tick was already
/// seen before it, the tick flag is read again, and if a tick has occurred
/// meanwhile exactly one more sample is taken and kept.
pub open spec fn is_sampling(done: Seq<RegAccess>, tick_seen: bool) -> bool {
    if tick_seen {
        done.len() == 2 && is_sample_at(done, 0)
    } else {
        done.len() >= 3 && is_sample_at(done, 0) && is_read_at(done[2], SFT_RTC_IRQ_STATUS) && if is_tick(
            done[2].value,
        ) {
            done.len() == 5 && is_sample_at(done, 3)
        } else {
            done.len() == 3
        }
    }
}

/// The sample that a sampling keeps: the last one taken.
pub open spec fn sampled_time(done: Seq<RegAccess>) -> RtcTime {
    if done.len() == 5 {
        decoded(done[3].value, done[4].value)
    } else {
        decoded(done[0].value, done[1].value)
    }
}

/// `done` is one time read: the configuration register, and when it shows
/// the clock enabled, the tick flag followed by a sampling.
pub open spec fn is_time_read_seq(done: Seq<RegAccess>) -> bool {
    done.len() >= 1 && is_read_at(done[0], SFT_RTC_CFG) && if !is_enabled_cfg(done[0].value) {
        done.len() == 1
    } else {
        done.len() >= 2 && is_read_at(done[1], SFT_RTC_IRQ_STATUS) && is_sampling(
            done.skip(2),
            is_tick(done[1].value),
        )
    }
}

/// What a time read returns: zero on a disabled clock, else the kept
/// sample as a timestamp.
pub open spec fn time_read_value(done: Seq<RegAccess>) -> Result<u64, RtcError> {
    if !is_enabled_cfg(done[0].value) {
        Ok(0)
    } else {
        raw_of_calendar(sampled_time(done.skip(2)))
    }
}

/// The earliest time the clock supports: 2001-01-01 00:00:00.
pub open spec fn supported_min() -> RtcTime {
    RtcTime { year: 2001, month: 1, day: 1, hour: 0, minute: 0, second: 0 }
}

/// The latest time the clock supports: 2099-12-31 23:59:59.
pub open spec fn supported_max() -> RtcTime {
    RtcTime { year: 2099, month: 12, day: 31, hour: 23, minute: 59, second: 59 }
}

/// Every field of `t` lies between the same fields of `lo` and `hi`.
pub open spec fn fields_within(t: RtcTime, lo: RtcTime, hi: RtcTime) -> bool {
    lo.year <= t.year <= hi.year && lo.month <= t.month <= hi.month && lo.day <= t.day <= hi.day
        && lo.hour <= t.hour <= hi.hour && lo.minute <= t.minute <= hi.minute && lo.second
        <= t.second <= hi.second
}

/// `in_range` is the verdict on the time read at start-up: false on a
/// failed read, else whether its calendar record lies in the supported
/// range.
pub open spec fn is_start_verdict(t: Result<u64, RtcError>, in_range: bool) -> bool {
    match t {
        Ok(ns) => exists|c: RtcTime|
            is_display_calendar_of(ns, c) && in_range == fields_within(
                c,
                supported_min(),
                supported_max(),
            ),
        Err(_) => !in_range,
    }
}

/// A time read on a disabled clock reads the configuration register only,
/// never the time, date or status registers, and returns zero.
pub proof fn lemma_disabled_read(done: Seq<RegAccess>)
    requires
        is_time_read_seq(done),
        !is_enabled_cfg(done[0].value),
    ensures
        done.len() == 1,
        time_read_value(done) == Ok::<u64, RtcError>(0),
{
}

/// A tick flag that is clear before sampling and set after it makes the
/// read take exactly one more sample, which is kept without a further
/// check.
pub proof fn lemma_rollover_retried_once(done: Seq<RegAccess>)
    requires
        is_time_read_seq(done),
        is_enabled_cfg(done[0].value),
        !is_tick(done[1].value),
        is_tick(done[4].value),
    ensures
        done.len() == 7,
        is_sample_at(done, 2),
        is_read_at(done[4], SFT_RTC_IRQ_STATUS),
        is_sample_at(done, 5),
        time_read_value(done) == raw_of_calendar(decoded(done[5].value, done[6].value)),
{
    assert(done.skip(2)[2] == done[4]);
    assert(done.skip(2)[3] == done[5]);
    assert(done.skip(2)[4] == done[6]);
}

/// A time read takes at most two samples: it makes at most seven register
/// accesses.
pub proof fn lemma_time_read_bounded(done: Seq<RegAccess>)
    requires
        is_time_read_seq(done),
    ensures
        done.len() <= 7,
{
}

/// Start-up selects 24-hour mode and enables the clock whatever the
/// configuration register held: each rewrite sets its bit, and when the
/// register keeps the first rewrite, the second leaves both bits set.
pub proof fn lemma_start_config(before: u32, between: u32)
    ensures
        is_24_hour(with_hour_mode(before, RtcHourMode::Hour24)),
        is_enabled_cfg(with_enabled(between, true)),
        between == with_hour_mode(before, RtcHourMode::Hour24) ==> is_24_hour(
            with_enabled(between, true),
        ),
{
    assert((before | 8u32) & 8u32 != 0u32) by (bit_vector);
    assert((between | 1u32) & 1u32 != 0u32) by (bit_vector);
    assert(((before | 8u32) | 1u32) & 8u32 != 0u32) by (bit_vector);
}

/// The supported range, earliest time first.
pub fn supported_range() -> (r: (RtcTime, RtcTime))
    ensures
        r.0 == supported_min(),
        r.1 == supported_max(),
{
    (RtcTime::new(2001, 1, 1, 0, 0, 0), RtcTime::new(2099, 12, 31, 23, 59, 59))
}

/// Whether every field of `t` lies between the same fields of the two
/// ends of the supported range. Each field is checked on its own: this is
/// not a comparison of dates.
pub fn in_supported_range(t: &RtcTime) -> (r: bool)
    ensures
        r == fields_within(*t, supported_min(), supported_max()),
{
    let (lo, hi) = supported_range();
    lo.year <= t.year && t.year <= hi.year && lo.month <= t.month && t.month <= hi.month && lo.day
        <= t.day && t.day <= hi.day && lo.hour <= t.hour && t.hour <= hi.hour && lo.minute
        <= t.minute && t.minute <= hi.minute && lo.second <= t.second && t.second <= hi.second
}

/// Decodes the BCD field at bits `low..=high` of `word`, at most 8 bits wide.
fn bcd_field(word: u32, high: usize, low: usize) -> (r: u8)
    requires
        low <= high <= 31,
        high - low < 8,
    ensures
        r as nat == bcd_value(bits_of(word, high as nat, low as nat)),
{
    let v = extract_bits(word, high, low);
    proof {
        lemma2_to64();
        vstd::arithmetic::power2::lemma_pow2_strictly_increases((high - low + 1) as nat, 9);
        assert(bits_of(word, high as nat, low as nat) < pow2((high - low + 1) as nat)) by {
            vstd::arithmetic::power2::lemma_pow2_pos((high - low + 1) as nat);
        }
    }
    bcd_to_binary(v as u8)
}

/// The calendar record packed in a time word and a date word.
pub fn decode_time_date(time: u32, date: u32) -> (r: RtcTime)
    ensures
        r == decoded(time, date),
{
    let year = bcd_field(date, 18, 11);
    RtcTime {
        year: 2000 + year as u32,
        month: bcd_field(date, 10, 6),
        day: bcd_field(date, 5, 0),
        hour: bcd_field(time, 20, 14),
        minute: bcd_field(time, 13, 7),
        second: bcd_field(time, 6, 0),
    }
}


/// A StarFive clock reached through a register window.
pub struct StarFiveRtc<R: RtcIORegion> {
    bus: RegisterBus<R>,
    initial_time_in_range: bool,
}

impl<R: RtcIORegion> StarFiveRtc<R> {
    /// Whether the time read at start-up lay in the supported range.
    pub closed spec fn spec_initial_time_in_range(&self) -> bool {
        self.initial_time_in_range
    }

    /// Brings the clock up: 24-hour mode, then enabled, each by a
    /// read-modify-write of the configuration register; then reads the
    /// time once and records whether it lies in the supported range. An
    /// out-of-range time is left as it is: nothing is written back.
    pub fn new(region: R) -> (r: Self)
        ensures
            r.accesses().len() >= 4,
            is_cfg_rewrite(
                r.accesses().take(2),
                with_hour_mode(r.accesses()[0].value, RtcHourMode::Hour24),
            ),
            is_cfg_rewrite(r.accesses().subrange(2, 4), with_enabled(r.accesses()[2].value, true)),
            is_time_read_seq(r.accesses().skip(4)),
            is_start_verdict(
                time_read_value(r.accesses().skip(4)),
                r.spec_initial_time_in_range(),
            ),
    {
        let mut rtc = StarFiveRtc { bus: RegisterBus::new(region), initial_time_in_range: false };
        rtc.set_mode(RtcHourMode::Hour24);
        rtc.set_enabled(true);
        let ghost configured = rtc.accesses();
        let in_range = match rtc.read_time_formatted() {
            Ok(t) => in_supported_range(&t),
            Err(_) => false,
        };
        rtc.initial_time_in_range = in_range;
        proof {
            let all = rtc.accesses();
            assert(all.take(2) =~= configured.take(2));
            assert(all.subrange(2, 4) =~= configured.subrange(2, 4));
            assert(all.skip(4) =~= appended(configured, all));
        }
        rtc
    }

    /// Whether the time read at start-up lay in the supported range.
    pub fn initial_time_in_range(&self) -> (r: bool)
        ensures
            r == self.spec_initial_time_in_range(),
    {
        self.initial_time_in_range
    }

    /// Sets the hour mode by a read-modify-write of the configuration
    /// register; the other bits are kept.
    pub fn set_mode(&mut self, mode: RtcHourMode)
        ensures
            extends(old(self).accesses(), final(self).accesses()),
            is_cfg_rewrite(
                appended(old(self).accesses(), final(self).accesses()),
                with_hour_mode(
                    appended(old(self).accesses(), final(self).accesses())[0].value,
                    mode,
                ),
            ),
            final(self).spec_initial_time_in_range() == old(self).spec_initial_time_in_range(),
    {
        let cfg = self.bus.read(SFT_RTC_CFG);
        let value = match mode {
            RtcHourMode::Hour24 => cfg | RTC_CFG_HOUR_MODE,
            RtcHourMode::Hour12 => cfg & !RTC_CFG_HOUR_MODE,
        };
        self.bus.write(SFT_RTC_CFG, value);
        assert(appended(old(self).accesses(), self.accesses()) =~= seq![
            read_of(SFT_RTC_CFG, cfg),
            write_of(SFT_RTC_CFG, value),
        ]);
    }

    /// Enables or disables the clock by a read-modify-write of the
    /// configuration register; the other bits are kept.
    pub fn set_enabled(&mut self, enabled: bool)
        ensures
            extends(old(self).accesses(), final(self).accesses()),
            is_cfg_rewrite(
                appended(old(self).accesses(), final(self).accesses()),
                with_enabled(appended(old(self).accesses(), final(self).accesses())[0].value, enabled),
            ),
            final(self).spec_initial_time_in_range() == old(self).spec_initial_time_in_range(),
    {
        let cfg = self.bus.read(SFT_RTC_CFG);
        let value = if enabled {
            cfg | RTC_CFG_ENABLE
        } else {
            cfg & !RTC_CFG_ENABLE
        };
        self.bus.write(SFT_RTC_CFG, value);
        assert(appended(old(self).accesses(), self.accesses()) =~= seq![
            read_of(SFT_RTC_CFG, cfg),
            write_of(SFT_RTC_CFG, value),
        ]);
    }

    /// Whether the configuration register shows the clock enabled.
    pub fn is_enabled(&mut self) -> (r: bool)
        ensures
            final(self).accesses().len() == old(self).accesses().len() + 1,
            final(self).accesses() == old(self).accesses().push(
                read_of(SFT_RTC_CFG, final(self).accesses().last().value),
            ),
            r == is_enabled_cfg(final(self).accesses().last().value),
            final(self).spec_initial_time_in_range() == old(self).spec_initial_time_in_range(),
    {
        let cfg = self.bus.read(SFT_RTC_CFG);
        cfg & RTC_CFG_ENABLE != 0
    }

    /// Reads the time and date words and decodes them; unless a tick was
    /// seen before, reads the tick flag again and, if a tick occurred in
    /// between, takes one more sample and keeps it.
    fn read_time_sample(&mut self, tick_seen: bool) -> (r: RtcTime)
        ensures
            extends(old(self).accesses(), final(self).accesses()),
            is_sampling(appended(old(self).accesses(), final(self).accesses()), tick_seen),
            r == sampled_time(appended(old(self).accesses(), final(self).accesses())),
            final(self).spec_initial_time_in_range() == old(self).spec_initial_time_in_range(),
    {
        let ghost before = self.accesses();
        let time = self.bus.read(SFT_RTC_CFG_TIME);
        let date = self.bus.read(SFT_RTC_CFG_DATE);
        let first = decode_time_date(time, date);
        if tick_seen {
            assert(appended(before, self.accesses()) =~= seq![
                read_of(SFT_RTC_CFG_TIME, time),
                read_of(SFT_RTC_CFG_DATE, date),
            ]);
            return first;
        }
        let status = self.bus.read(SFT_RTC_IRQ_STATUS);
        if status & RTC_IRQ_1SEC == 0 {
            assert(appended(before, self.accesses()) =~= seq![
                read_of(SFT_RTC_CFG_TIME, time),
                read_of(SFT_RTC_CFG_DATE, date),
                read_of(SFT_RTC_IRQ_STATUS, status),
            ]);
            return first;
        }
        let time2 = self.bus.read(SFT_RTC_CFG_TIME);
        let date2 = self.bus.read(SFT_RTC_CFG_DATE);
        assert(appended(before, self.accesses()) =~= seq![
            read_of(SFT_RTC_CFG_TIME, time),
            read_of(SFT_RTC_CFG_DATE, date),
            read_of(SFT_RTC_IRQ_STATUS, status),
            read_of(SFT_RTC_CFG_TIME, time2),
            read_of(SFT_RTC_CFG_DATE, date2),
        ]);
        decode_time_date(time2, date2)
    }
}

impl<R: RtcIORegion> LowRtcDevice for StarFiveRtc<R> {
    closed spec fn accesses(&self) -> Seq<RegAccess> {
        self.bus.history()
    }

    open spec fn is_time_read(done: Seq<RegAccess>) -> bool {
        is_time_read_seq(done)
    }

    open spec fn time_read_result(done: Seq<RegAccess>) -> Result<u64, RtcError> {
        time_read_value(done)
    }

    open spec fn is_alarm_read(done: Seq<RegAccess>) -> bool {
        done.len() == 0
    }

    open spec fn alarm_read_result(done: Seq<RegAccess>) -> Result<u64, RtcError> {
        Err(RtcError::Unsupported)
    }

    /// Zero when the clock is disabled; else the tearing-safe sample as a
    /// timestamp, its fields read at offset zero.
    fn read_time(&mut self) -> (r: Result<u64, RtcError>)
        ensures
            final(self).spec_initial_time_in_range() == old(self).spec_initial_time_in_range(),
    {
        let ghost before = self.accesses();
        if !self.is_enabled() {
            assert(appended(before, self.accesses()) =~= seq![self.accesses().last()]);
            return Ok(0);
        }
        let ghost after_cfg = self.accesses();
        let status = self.bus.read(SFT_RTC_IRQ_STATUS);
        let ghost after_status = self.accesses();
        let tm = self.read_time_sample(status & RTC_IRQ_1SEC != 0);
        proof {
            let done = appended(before, self.accesses());
            assert(done.skip(2) =~= appended(after_status, self.accesses()));
            assert(done[0] == after_cfg.last());
            assert(done[1] == read_of(SFT_RTC_IRQ_STATUS, status));
        }
        calendar_to_raw(&tm)
    }

    fn set_time(&mut self, time: u64) -> (r: Result<(), RtcError>)
        ensures
            final(self).accesses() == old(self).accesses(),
            r == Err::<(), RtcError>(RtcError::Unsupported),
    {
        Err(RtcError::Unsupported)
    }

    fn enable_irq(&mut self) -> (r: Result<(), RtcError>)
        ensures
            final(self).accesses() == old(self).accesses(),
            r == Err::<(), RtcError>(RtcError::Unsupported),
    {
        Err(RtcError::Unsupported)
    }

    fn disable_irq(&mut self) -> (r: Result<(), RtcError>)
        ensures
            final(self).accesses() == old(self).accesses(),
            r == Err::<(), RtcError>(RtcError::Unsupported),
    {
        Err(RtcError::Unsupported)
    }

    fn clear_irq(&mut self) -> (r: Result<(), RtcError>)
        ensures
            final(self).accesses() == old(self).accesses(),
            r == Err::<(), RtcError>(RtcError::Unsupported),
    {
        Err(RtcError::Unsupported)
    }

    fn read_alarm(&mut self) -> (r: Result<u64, RtcError>) {
        assert(appended(self.accesses(), self.accesses()) =~= Seq::<RegAccess>::empty());
        Err(RtcError::Unsupported)
    }

    fn set_alarm(&mut self, time: u64) -> (r: Result<(), RtcError>)
        ensures
            final(self).accesses() == old(self).accesses(),
            r == Err::<(), RtcError>(RtcError::Unsupported),
    {
        Err(RtcError::Unsupported)
    }

    fn clear_alarm(&mut self) -> (r: Result<(), RtcError>)
        ensures
            final(self).accesses() == old(self).accesses(),
            r == Err::<(), RtcError>(RtcError::Unsupported),
    {
        Err(RtcError::Unsupported)
    }

    fn alarm_status(&mut self) -> (r: Result<bool, RtcError>)
        ensures
            final(self).accesses() == old(self).accesses(),
            r == Err::<bool, RtcError>(RtcError::Unsupported),
    {
        Err(RtcError::Unsupported)
    }

    fn is_irq_enabled(&mut self) -> (r: Result<bool, RtcError>)
        ensures
            final(self).accesses() == old(self).accesses(),
            r == Err::<bool, RtcError>(RtcError::Unsupported),
    {
        Err(RtcError::Unsupported)
    }
}

} // verus!
