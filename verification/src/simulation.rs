//! The parameters of a simulation run, derived once from its options.

use crate::clock::TimeSpan;
use vstd::prelude::*;

verus! {

/// Seconds in a day.
pub const SECONDS_PER_DAY: u64 = 86400;

/// Contact numbers buffered per user on each shard's broadcast channel.
pub const BUFFERED_PER_USER: usize = 20;

/// What every user of a run goes by.
#[derive(Debug, Clone, Copy, PartialEq, Eq, Structural)]
pub struct Schedule {
    /// Contact keys used per authorization key.
    pub tcks_per_rak: u16,
    /// Ticks in the whole run.
    pub max_tcks: u64,
    /// Authorization keys reported upon infection.
    pub raks_to_report: u64,
}

/// Whether a schedule can be derived from the options: both rotation
/// intervals are positive, the contact keys per authorization key fit the
/// ratchet's index, and the day counts can be turned into seconds.
pub open spec fn spec_schedulable(
    tck_rotation_secs: u64,
    rak_rotation_secs: u64,
    simulation_days: u64,
    incubation_period_days: u64,
) -> bool {
    &&& tck_rotation_secs > 0
    &&& rak_rotation_secs > 0
    &&& rak_rotation_secs / tck_rotation_secs <= u16::MAX
    &&& 86400 * simulation_days <= u64::MAX
    &&& 86400 * incubation_period_days <= u64::MAX
}

impl Schedule {
    /// Derives the schedule of a run: `rak_rotation_secs / tck_rotation_secs`
    /// contact keys per authorization key, `86400 * simulation_days /
    /// tck_rotation_secs` ticks, and `86400 * incubation_period_days /
    /// rak_rotation_secs` keys to report. There is none where a division by
    /// zero or a number out of range stands in the way.
    pub fn new(
        tck_rotation_secs: u64,
        rak_rotation_secs: u64,
        simulation_days: u64,
        incubation_period_days: u64,
    ) -> (schedule: Option<Schedule>)
        ensures
            schedule is Some <==> spec_schedulable(
                tck_rotation_secs,
                rak_rotation_secs,
                simulation_days,
                incubation_period_days,
            ),
            schedule is Some ==> schedule->0.tcks_per_rak == rak_rotation_secs / tck_rotation_secs
                && schedule->0.max_tcks == 86400 * simulation_days / (tck_rotation_secs as int)
                && schedule->0.raks_to_report == 86400 * incubation_period_days / (
            rak_rotation_secs as int),
    {
        if tck_rotation_secs == 0 || rak_rotation_secs == 0 {
            return None;
        }
        let per_rak = rak_rotation_secs / tck_rotation_secs;
        if per_rak > 65535 {
            return None;
        }
        if simulation_days > u64::MAX / SECONDS_PER_DAY || incubation_period_days > u64::MAX
            / SECONDS_PER_DAY {
            return None;
        }
        Some(
            Schedule {
                tcks_per_rak: per_rak as u16,
                max_tcks: SECONDS_PER_DAY * simulation_days / tck_rotation_secs,
                raks_to_report: SECONDS_PER_DAY * incubation_period_days / rak_rotation_secs,
            },
        )
    }
}

/// The size of each shard's broadcast buffer for `num_users` users, if it
/// can be counted.
pub fn broadcast_buffer_size(num_users: usize) -> (size: Option<usize>)
    ensures
        size is Some <==> num_users * 20 <= usize::MAX,
        size is Some ==> size->0 == num_users * 20,
{
    if num_users > usize::MAX / BUFFERED_PER_USER {
        None
    } else {
        Some(num_users * BUFFERED_PER_USER)
    }
}

/// Whether a fetch is due: more than `server_batch_interval` seconds have
/// gone by since the last one.
pub fn fetch_due(since_last_check: &TimeSpan, server_batch_interval: u64) -> (due: bool)
    ensures
        due == (since_last_check@ > server_batch_interval * 1_000_000_000),
{
    let secs = since_last_check.as_secs();
    let nanos = since_last_check.subsec_nanos();
    secs > server_batch_interval || (secs == server_batch_interval && nanos > 0)
}

} // verus!
