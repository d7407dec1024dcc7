//! Core logic of a network camera appliance: joining a wireless network,
//! scheduling periodic image captures, keeping the latest frame available,
//! and serving frames over a minimal HTTP surface.
use vstd::prelude::*;
use vstd::string::StringExecFns;

pub mod access_point;
pub mod archive;
pub mod frame;
pub mod http;
pub mod join;
pub mod scheduler;
pub mod text;

use crate::scheduler::{parsed_duration_millis, CaptureScheduler, SchedulerError};

verus! {

/// Resolved configuration for the appliance: network credentials, the total
/// timelapse period as a duration string, and how many pictures to take.
pub struct Config {
    pub wifi_ssid: String,
    pub wifi_password: String,
    pub timelapse_period: String,
    pub picture_count: u32,
}

impl Config {
    /// A configuration is usable only if it asks for at least one picture.
    pub open spec fn valid(&self) -> bool {
        self.picture_count >= 1
    }

    /// Plans the capture schedule this configuration asks for: its picture
    /// count spread uniformly over its timelapse period. The period string
    /// must be shorter than 21 characters — a limit of the underlying
    /// parser, with ample room for any sensible period.
    pub fn capture_scheduler(&self) -> (r: Result<CaptureScheduler, SchedulerError>)
        requires
            self.timelapse_period@.len() < 21,
        ensures
            self.picture_count == 0 ==> r == Err::<CaptureScheduler, SchedulerError>(
                SchedulerError::ZeroPictureCount,
            ),
            self.valid() && parsed_duration_millis(self.timelapse_period@) is None ==> r == Err::<
                CaptureScheduler,
                SchedulerError,
            >(SchedulerError::InvalidPeriod),
            self.valid() ==> (parsed_duration_millis(self.timelapse_period@) matches Some(ms) ==> (
            r matches Ok(s) && s.count == self.picture_count && s.delay_ms == ms / (
            self.picture_count as u64))),
    {
        CaptureScheduler::from_period(self.timelapse_period.as_str(), self.picture_count)
    }
}

impl Default for Config {
    /// The configuration used when nothing was supplied: empty credentials,
    /// a one-hour timelapse period, six pictures.
    fn default() -> (r: Self)
        ensures
            r.wifi_ssid@ == Seq::<char>::empty(),
            r.wifi_password@ == Seq::<char>::empty(),
            r.timelapse_period@ == "1h"@,
            r.picture_count == 6,
            r.valid(),
    {
        Config {
            wifi_ssid: String::new(),
            wifi_password: String::new(),
            timelapse_period: String::from_str("1h"),
            picture_count: 6,
        }
    }
}

} // verus!
