use netcons_modules::error::FatalError;
use netcons_modules::get_features;
use netcons_modules::printer::format_uptime;
use netcons_modules::printer::ThroughputState;
use netcons_modules::stats::StatsHolder;

#[test]
fn stats_ceiling_is_enforced_with_no_partial_init() {
    assert!(matches!(StatsHolder::new(257, 0), Err(FatalError::TooManyWorkers)));
    assert!(StatsHolder::new(256, 0).is_ok());
}

#[test]
fn snapshot_counts_events_and_distinct_hosts() {
    let mut holder = StatsHolder::new(8, 1_000).expect("worker count in range");
    // six events over three workers; four distinct addresses, each
    // arriving on exactly one worker
    holder.on_new_message(0, Some(0xaa), true, false);
    holder.on_new_message(0, Some(0xaa), true, false);
    holder.on_new_message(1, Some(0xbb), false, true);
    holder.on_new_message(1, Some(0xcc), false, true);
    holder.on_new_message(2, Some(0xdd), false, true);
    holder.on_new_message(2, Some(0xdd), false, true);
    let stats = holder.compute_stats(4_000);
    assert_eq!(stats.msg_count, 6);
    assert_eq!(stats.legacy_count, 2);
    assert_eq!(stats.extended_count, 4);
    assert_eq!(stats.hosts_count, 4);
    assert_eq!(stats.uptime_ms, 3_000);
}

#[test]
fn address_seen_by_two_workers_is_counted_twice() {
    let mut holder = StatsHolder::new(4, 0).expect("worker count in range");
    holder.on_new_message(0, Some(0x11), true, false);
    holder.on_new_message(3, Some(0x11), true, false);
    let stats = holder.compute_stats(0);
    assert_eq!(stats.msg_count, 2);
    // the documented over-count: one address, two per-worker sets
    assert_eq!(stats.hosts_count, 2);
}

#[test]
fn event_without_source_or_shape_only_bumps_message_count() {
    let mut holder = StatsHolder::new(2, 0).expect("worker count in range");
    holder.on_new_message(1, None, false, false);
    let stats = holder.compute_stats(0);
    assert_eq!(stats.msg_count, 1);
    assert_eq!(stats.legacy_count, 0);
    assert_eq!(stats.extended_count, 0);
    assert_eq!(stats.hosts_count, 0);
}

#[test]
fn events_on_inactive_slots_are_not_summed() {
    let mut holder = StatsHolder::new(2, 0).expect("worker count in range");
    holder.on_new_message(0, Some(1), true, false);
    holder.on_new_message(5, Some(2), true, false);
    let stats = holder.compute_stats(0);
    assert_eq!(stats.msg_count, 1);
    assert_eq!(stats.hosts_count, 1);
}

#[test]
fn estimator_converges_under_steady_rate() {
    // fifty messages per second, sampled a hair past each rollover
    let mut state = ThroughputState::new(0);
    assert_eq!(state.get_messages_per_sec(50, 1_001), 49);
    assert_eq!(state.get_messages_per_sec(100, 2_001), 49);
    assert_eq!(state.get_messages_per_sec(150, 3_001), 49);
    // mid-window the interpolation lands exactly on the rate
    assert_eq!(state.get_messages_per_sec(175, 3_500), 50);
}

#[test]
fn estimator_ignores_stale_previous_window() {
    let mut state = ThroughputState::new(0);
    // a long silent gap: the rollover advances by exactly one window,
    // and the now-stale previous delta gets zero weight
    assert_eq!(state.get_messages_per_sec(10, 5_000), 0);
}

#[test]
fn uptime_renders_zero_padded_clock() {
    assert_eq!(format_uptime(0), "00:00:00");
    assert_eq!(format_uptime(59), "00:00:59");
    assert_eq!(format_uptime(3_661), "01:01:01");
    assert_eq!(format_uptime(86_399), "23:59:59");
    assert_eq!(format_uptime(363_599), "100:59:59");
}

#[test]
fn feature_list_names_the_three_modules() {
    assert_eq!(get_features(), vec!["printer", "stats", "sqlite"]);
}
