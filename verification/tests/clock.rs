use tcn_exchange::clock::{TimeSpan, UnixTime};
use tcn_exchange::simulation::{broadcast_buffer_size, fetch_due, Schedule};

#[test]
fn a_point_in_time_needs_less_than_a_second_of_nanos() {
    assert!(UnixTime::new(5, 999_999_999).is_some());
    assert!(UnixTime::new(5, 1_000_000_000).is_none());
    assert!(TimeSpan::new(0, 1_000_000_000).is_none());
    let t = UnixTime::new(5, 7).unwrap();
    assert_eq!(t.as_secs(), 5);
    assert_eq!(t.subsec_nanos(), 7);
    assert_eq!(UnixTime::from_secs(9), UnixTime::new(9, 0).unwrap());
}

#[test]
fn the_clock_reads_a_time_after_2020() {
    let now = UnixTime::now().unwrap();
    assert!(now.as_secs() > 1_577_836_800);
    assert!(now.subsec_nanos() < 1_000_000_000);
}

#[test]
fn earlier_points_come_before_later_ones() {
    let a = UnixTime::new(5, 999_999_999).unwrap();
    let b = UnixTime::new(6, 0).unwrap();
    assert!(a.is_before(&b));
    assert!(!b.is_before(&a));
    assert!(!a.is_before(&a));
    assert!(a < b);
}

#[test]
fn durations_are_exact() {
    let a = UnixTime::new(5, 999_999_999).unwrap();
    let b = UnixTime::new(7, 1).unwrap();
    let span = b.duration_since(&a).unwrap();
    assert_eq!(span.as_nanos(), 1_000_000_002);
    assert_eq!(span.as_secs(), 1);
    assert_eq!(span.subsec_nanos(), 2);
    assert_eq!(a.duration_since(&a).unwrap().as_nanos(), 0);
    assert!(a.duration_since(&b).is_err());
}

#[test]
fn the_nanosecond_before() {
    assert_eq!(
        UnixTime::new(6, 0).unwrap().pred(),
        UnixTime::new(5, 999_999_999)
    );
    assert_eq!(UnixTime::new(6, 5).unwrap().pred(), UnixTime::new(6, 4));
    assert_eq!(UnixTime::from_secs(0).pred(), None);
}

#[test]
fn the_default_options_give_the_default_schedule() {
    let schedule = Schedule::new(300, 86400, 28, 14).unwrap();
    assert_eq!(schedule.tcks_per_rak, 288);
    assert_eq!(schedule.max_tcks, 8064);
    assert_eq!(schedule.raks_to_report, 14);
}

#[test]
fn a_schedule_needs_sound_options() {
    assert!(Schedule::new(0, 86400, 28, 14).is_none());
    assert!(Schedule::new(300, 0, 28, 14).is_none());
    // 65536 contact keys do not fit the ratchet's index; 65535 do.
    assert!(Schedule::new(1, 65536, 28, 14).is_none());
    assert_eq!(Schedule::new(1, 65535, 28, 14).unwrap().tcks_per_rak, 65535);
    assert!(Schedule::new(300, 86400, u64::MAX / 86400 + 1, 14).is_none());
    assert!(Schedule::new(300, 86400, 28, u64::MAX / 86400 + 1).is_none());
    assert!(Schedule::new(300, 86400, u64::MAX / 86400, u64::MAX / 86400).is_some());
}

#[test]
fn the_broadcast_buffer_holds_twenty_numbers_per_user() {
    assert_eq!(broadcast_buffer_size(100), Some(2000));
    assert_eq!(broadcast_buffer_size(0), Some(0));
    assert_eq!(broadcast_buffer_size(usize::MAX / 20), Some(usize::MAX / 20 * 20));
    assert_eq!(broadcast_buffer_size(usize::MAX / 20 + 1), None);
}

#[test]
fn a_fetch_is_due_after_more_than_the_interval() {
    assert!(!fetch_due(&TimeSpan::new(5, 999_999_999).unwrap(), 6));
    assert!(!fetch_due(&TimeSpan::new(6, 0).unwrap(), 6));
    assert!(fetch_due(&TimeSpan::new(6, 1).unwrap(), 6));
    assert!(fetch_due(&TimeSpan::new(7, 0).unwrap(), 6));
}
