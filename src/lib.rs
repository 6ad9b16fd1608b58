//! Real-time-clock drivers: register codecs, calendar conversion and two
//! device backends behind one capability interface.
pub mod bits;
pub mod calendar;
pub mod device;
pub mod error;
pub mod goldfish;
pub mod starfive;

pub use bits::{bcd_to_binary, bcd_to_binary_checked, extract_bits, genmask_u32, genmask_u64};
pub use calendar::{calendar_to_raw, raw_to_calendar, RtcTime, DISPLAY_OFFSET_SECS, NANOS_PER_SEC};
pub use device::{LowRtcDevice, RegAccess, RegisterBus, RtcIORegion};
pub use error::RtcError;
pub use goldfish::GoldFishRtc;
pub use starfive::{
    decode_time_date, in_supported_range, supported_range, RtcHourMode, StarFiveRtc,
};
