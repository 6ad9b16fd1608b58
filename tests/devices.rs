use rtc::{
    decode_time_date, in_supported_range, supported_range, GoldFishRtc, LowRtcDevice,
    RtcError, RtcHourMode, RtcIORegion, RtcTime, StarFiveRtc,
};
use std::cell::RefCell;
use std::collections::{HashMap, VecDeque};
use std::rc::Rc;

#[derive(Default)]
struct Board {
    regs: HashMap<usize, u32>,
    scripted: HashMap<usize, VecDeque<u32>>,
    log: Vec<(bool, usize, u32)>,
}

/// A register window over a shared board: reads of a scripted register
/// take the next scripted value (the last one repeats), others read what
/// was last written.
#[derive(Clone, Default)]
struct Probe(Rc<RefCell<Board>>);

impl Probe {
    fn set(&self, offset: usize, value: u32) {
        self.0.borrow_mut().regs.insert(offset, value);
    }
    fn script(&self, offset: usize, values: &[u32]) {
        self.0.borrow_mut().scripted.insert(offset, values.iter().copied().collect());
    }
    fn get(&self, offset: usize) -> u32 {
        *self.0.borrow().regs.get(&offset).unwrap_or(&0)
    }
    fn reads_of(&self, offset: usize) -> usize {
        self.0.borrow().log.iter().filter(|a| !a.0 && a.1 == offset).count()
    }
    fn clear_log(&self) {
        self.0.borrow_mut().log.clear();
    }
    fn log(&self) -> Vec<(bool, usize, u32)> {
        self.0.borrow().log.clone()
    }
}

impl RtcIORegion for Probe {
    fn read_at(&self, offset: usize) -> u32 {
        let mut b = self.0.borrow_mut();
        let v = match b.scripted.get_mut(&offset) {
            Some(q) if q.len() > 1 => q.pop_front().unwrap(),
            Some(q) if q.len() == 1 => q[0],
            _ => *b.regs.get(&offset).unwrap_or(&0),
        };
        b.log.push((false, offset, v));
        v
    }
    fn write_at(&self, offset: usize, value: u32) {
        let mut b = self.0.borrow_mut();
        b.regs.insert(offset, value);
        b.log.push((true, offset, value));
    }
}

fn tm(year: u32, month: u8, day: u8, hour: u8, minute: u8, second: u8) -> RtcTime {
    RtcTime { year, month, day, hour, minute, second }
}

// 12:34:56 and 12:34:57 in the time word; 2024-06-15 in the date word.
const TIME_A: u32 = 0x49a56;
const TIME_B: u32 = 0x49a57;
const DATE: u32 = 0x12195;
const NS_A: u64 = 1_718_454_896_000_000_000;
const NS_B: u64 = 1_718_454_897_000_000_000;

#[test]
fn goldfish_set_then_read_time() {
    let probe = Probe::default();
    let mut rtc = GoldFishRtc::new(probe.clone());
    for t in [0x1234_5678_9abc_def0u64, u64::MAX, 0, 1 << 32, 0xffff_ffff] {
        assert_eq!(rtc.set_time(t), Ok(()));
        assert_eq!(probe.get(0x00), t as u32);
        assert_eq!(probe.get(0x04), (t >> 32) as u32);
        assert_eq!(rtc.read_time(), Ok(t));
    }
}

#[test]
fn goldfish_reads_low_word_first() {
    let probe = Probe::default();
    probe.set(0x00, 0x1111_2222);
    probe.set(0x04, 0x3);
    let mut rtc = GoldFishRtc::new(probe.clone());
    assert_eq!(rtc.read_time(), Ok(0x3_1111_2222));
    assert_eq!(probe.log(), vec![(false, 0x00, 0x1111_2222), (false, 0x04, 0x3)]);
}

#[test]
fn goldfish_alarm_round_trip() {
    let probe = Probe::default();
    let mut rtc = GoldFishRtc::new(probe.clone());
    assert_eq!(rtc.set_alarm(0xdead_beef_0000_0001), Ok(()));
    assert_eq!(probe.get(0x08), 0x0000_0001);
    assert_eq!(probe.get(0x0c), 0xdead_beef);
    assert_eq!(rtc.read_alarm(), Ok(0xdead_beef_0000_0001));
    assert_eq!(rtc.clear_alarm(), Ok(()));
    assert_eq!(probe.get(0x14), 1);
}

#[test]
fn goldfish_irq_flags() {
    let probe = Probe::default();
    let mut rtc = GoldFishRtc::new(probe.clone());
    assert_eq!(rtc.enable_irq(), Ok(()));
    assert_eq!(rtc.is_irq_enabled(), Ok(true));
    assert_eq!(rtc.disable_irq(), Ok(()));
    assert_eq!(rtc.is_irq_enabled(), Ok(false));
    assert_eq!(rtc.clear_irq(), Ok(()));
    assert_eq!(probe.get(0x1c), 1);
    probe.set(0x18, 1);
    assert_eq!(rtc.alarm_status(), Ok(true));
    probe.set(0x18, 2);
    assert_eq!(rtc.alarm_status(), Ok(false));
}

#[test]
fn goldfish_formatted_read() {
    let probe = Probe::default();
    let mut rtc = GoldFishRtc::new(probe.clone());
    rtc.set_time(1_700_000_000_123_456_789).unwrap();
    assert_eq!(rtc.read_time_formatted(), Ok(tm(2023, 11, 15, 6, 13, 20)));
    rtc.set_alarm(0).unwrap();
    assert_eq!(rtc.read_alarm_formatted(), Ok(tm(1970, 1, 1, 8, 0, 0)));
}

fn starfive_board(cfg: u32, time: u32, date: u32) -> Probe {
    let probe = Probe::default();
    probe.set(0x00, cfg);
    probe.set(0x28, time);
    probe.set(0x2c, date);
    probe
}

#[test]
fn starfive_start_forces_24_hour_and_enabled() {
    for cfg in [0u32, 0x6, 0x8, 0x1, 0xffff_fff0] {
        let probe = starfive_board(cfg, TIME_A, DATE);
        let mut rtc = StarFiveRtc::new(probe.clone());
        let log = probe.log();
        assert_eq!(log[0], (false, 0x00, cfg));
        assert_eq!(log[1], (true, 0x00, cfg | 0x8));
        assert_eq!(log[3], (true, 0x00, cfg | 0x9));
        assert_eq!(probe.get(0x00) & 0x9, 0x9);
        assert!(rtc.is_enabled());
        assert!(rtc.initial_time_in_range());
        assert!(log.iter().skip(4).all(|a| !a.0));
    }
}

#[test]
fn starfive_start_with_time_out_of_range() {
    // Year field 0x00 gives 2000, below the supported range.
    let probe = starfive_board(0, TIME_A, 0x0195);
    let rtc = StarFiveRtc::new(probe.clone());
    assert!(!rtc.initial_time_in_range());
    assert_eq!(probe.get(0x28), TIME_A);
}

#[test]
fn starfive_read_without_tick() {
    let probe = starfive_board(0x9, TIME_A, DATE);
    let mut rtc = StarFiveRtc::new(probe.clone());
    probe.clear_log();
    probe.script(0x18, &[0, 0]);
    assert_eq!(rtc.read_time(), Ok(NS_A));
    assert_eq!(probe.reads_of(0x28), 1);
    assert_eq!(probe.reads_of(0x18), 2);
}

#[test]
fn starfive_rollover_retried_once() {
    let probe = starfive_board(0x9, TIME_A, DATE);
    let mut rtc = StarFiveRtc::new(probe.clone());
    probe.clear_log();
    probe.script(0x18, &[0, 0x8]);
    probe.script(0x28, &[TIME_A, TIME_B]);
    assert_eq!(rtc.read_time(), Ok(NS_B));
    assert_eq!(probe.reads_of(0x28), 2);
    assert_eq!(probe.reads_of(0x2c), 2);
    assert_eq!(probe.reads_of(0x18), 2);
}

#[test]
fn starfive_tick_seen_before_sampling() {
    let probe = starfive_board(0x9, TIME_A, DATE);
    let mut rtc = StarFiveRtc::new(probe.clone());
    probe.clear_log();
    probe.script(0x18, &[0x8]);
    assert_eq!(rtc.read_time(), Ok(NS_A));
    assert_eq!(probe.reads_of(0x28), 1);
    assert_eq!(probe.reads_of(0x18), 1);
}

#[test]
fn starfive_disabled_reads_zero() {
    let probe = starfive_board(0x9, TIME_A, DATE);
    let mut rtc = StarFiveRtc::new(probe.clone());
    rtc.set_enabled(false);
    assert_eq!(probe.get(0x00), 0x8);
    assert!(!rtc.is_enabled());
    probe.clear_log();
    assert_eq!(rtc.read_time(), Ok(0));
    assert_eq!(probe.log(), vec![(false, 0x00, 0x8)]);
}

#[test]
fn starfive_malformed_sample_is_an_error() {
    // Month field 0x13 is not a month.
    let probe = starfive_board(0x9, TIME_A, 0x124d5);
    let mut rtc = StarFiveRtc::new(probe.clone());
    assert!(!rtc.initial_time_in_range());
    assert_eq!(rtc.read_time(), Err(RtcError::InvalidDateTime));
    assert_eq!(rtc.read_time_formatted(), Err(RtcError::InvalidDateTime));
}

#[test]
fn starfive_formatted_read_applies_display_offset() {
    let probe = starfive_board(0x9, TIME_A, DATE);
    let mut rtc = StarFiveRtc::new(probe.clone());
    assert_eq!(rtc.read_time_formatted(), Ok(tm(2024, 6, 15, 20, 34, 56)));
}

#[test]
fn starfive_hour_mode_rewrites() {
    let probe = starfive_board(0xf, TIME_A, DATE);
    let mut rtc = StarFiveRtc::new(probe.clone());
    rtc.set_mode(RtcHourMode::Hour12);
    assert_eq!(probe.get(0x00), 0x7);
    rtc.set_mode(RtcHourMode::Hour24);
    assert_eq!(probe.get(0x00), 0xf);
}

#[test]
fn starfive_unsupported_operations() {
    let probe = starfive_board(0x9, TIME_A, DATE);
    let mut rtc = StarFiveRtc::new(probe.clone());
    probe.clear_log();
    assert_eq!(rtc.set_time(5), Err(RtcError::Unsupported));
    assert_eq!(rtc.enable_irq(), Err(RtcError::Unsupported));
    assert_eq!(rtc.disable_irq(), Err(RtcError::Unsupported));
    assert_eq!(rtc.clear_irq(), Err(RtcError::Unsupported));
    assert_eq!(rtc.read_alarm(), Err(RtcError::Unsupported));
    assert_eq!(rtc.read_alarm_formatted(), Err(RtcError::Unsupported));
    assert_eq!(rtc.set_alarm(5), Err(RtcError::Unsupported));
    assert_eq!(rtc.clear_alarm(), Err(RtcError::Unsupported));
    assert_eq!(rtc.alarm_status(), Err(RtcError::Unsupported));
    assert_eq!(rtc.is_irq_enabled(), Err(RtcError::Unsupported));
    assert!(probe.log().is_empty());
}

#[test]
fn decode_packed_fields() {
    assert_eq!(decode_time_date(TIME_A, DATE), tm(2024, 6, 15, 12, 34, 56));
    assert_eq!(decode_time_date(0, 0), tm(2000, 0, 0, 0, 0, 0));
    // Bits above the fields are ignored.
    assert_eq!(decode_time_date(0xffe0_0000 | TIME_A, 0xfff8_0000 | DATE), tm(2024, 6, 15, 12, 34, 56));
}

#[test]
fn supported_range_is_checked_field_by_field() {
    let (lo, hi) = supported_range();
    assert_eq!(lo, tm(2001, 1, 1, 0, 0, 0));
    assert_eq!(hi, tm(2099, 12, 31, 23, 59, 59));
    assert!(in_supported_range(&tm(2050, 6, 15, 12, 30, 30)));
    assert!(!in_supported_range(&tm(2000, 6, 15, 12, 30, 30)));
    assert!(!in_supported_range(&tm(2100, 1, 1, 0, 0, 0)));
    assert!(!in_supported_range(&tm(2050, 0, 15, 12, 30, 30)));
    assert!(!in_supported_range(&tm(2050, 6, 15, 24, 30, 30)));
}
