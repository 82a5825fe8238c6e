use latencee::aggregator::{apply_update, initial_statuses};
use latencee::graph::{draw_graph, graph_columns, GRAPH_WIDTH};
use latencee::history::{record_sample, snapshot, Sample, HISTORY_WINDOW_MS};
use latencee::monitor::{Monitor, MonitorAction, POLL_INTERVAL_MS};
use latencee::servers::get_default_servers;
use latencee::status::ServerStatus;
use latencee::tier::{classify_latency, ConnectionStatus};
use std::collections::VecDeque;

fn history_of(samples: &[Sample]) -> VecDeque<Sample> {
    samples.iter().copied().collect()
}

#[test]
fn classify_tiers_and_boundaries() {
    assert_eq!(classify_latency(Some(0)), ConnectionStatus::Good);
    assert_eq!(classify_latency(Some(30_000)), ConnectionStatus::Good);
    assert_eq!(classify_latency(Some(49_999)), ConnectionStatus::Good);
    assert_eq!(classify_latency(Some(50_000)), ConnectionStatus::Fair);
    assert_eq!(classify_latency(Some(149_999)), ConnectionStatus::Fair);
    assert_eq!(classify_latency(Some(150_000)), ConnectionStatus::Poor);
    assert_eq!(classify_latency(Some(499_999)), ConnectionStatus::Poor);
    assert_eq!(classify_latency(Some(500_000)), ConnectionStatus::Timeout);
    assert_eq!(classify_latency(Some(u64::MAX)), ConnectionStatus::Timeout);
    assert_eq!(classify_latency(None), ConnectionStatus::Timeout);
}

#[test]
fn symbols_of_tiers() {
    assert_eq!(ConnectionStatus::Good.symbol(), "●");
    assert_eq!(ConnectionStatus::Fair.symbol(), "◐");
    assert_eq!(ConnectionStatus::Poor.symbol(), "◑");
    assert_eq!(ConnectionStatus::Timeout.symbol(), "○");
}

#[test]
fn record_evicts_stale_front() {
    let mut h = VecDeque::new();
    record_sample(&mut h, 0, ConnectionStatus::Good);
    record_sample(&mut h, 300_000, ConnectionStatus::Fair);
    assert_eq!(h.len(), 2);
    record_sample(&mut h, 700_000, ConnectionStatus::Poor);
    let got: Vec<Sample> = h.iter().copied().collect();
    assert_eq!(
        got,
        vec![(300_000, ConnectionStatus::Fair), (700_000, ConnectionStatus::Poor)]
    );
}

#[test]
fn record_keeps_sample_exactly_one_window_old() {
    let mut h = history_of(&[(100_000, ConnectionStatus::Good)]);
    record_sample(&mut h, 100_000 + HISTORY_WINDOW_MS, ConnectionStatus::Fair);
    assert_eq!(h.len(), 2);
    record_sample(&mut h, 100_001 + HISTORY_WINDOW_MS, ConnectionStatus::Fair);
    assert_eq!(h.len(), 2);
    assert_eq!(h[0].0, 100_000 + HISTORY_WINDOW_MS);
}

#[test]
fn record_after_long_gap_clears_all_old() {
    let mut h = history_of(&[(0, ConnectionStatus::Good), (2_000, ConnectionStatus::Good)]);
    record_sample(&mut h, 5_000_000, ConnectionStatus::Timeout);
    let got: Vec<Sample> = h.iter().copied().collect();
    assert_eq!(got, vec![(5_000_000, ConnectionStatus::Timeout)]);
}

#[test]
fn every_sample_within_window_after_each_append() {
    let mut h = VecDeque::new();
    let mut now: u64 = 0;
    for k in 0..400u64 {
        now += 1_000 + (k % 7) * 1_500;
        record_sample(&mut h, now, classify_latency(Some(k * 3_000)));
        assert!(h.iter().all(|s| s.0 + HISTORY_WINDOW_MS >= now));
        assert_eq!(h.back().copied(), Some((now, classify_latency(Some(k * 3_000)))));
    }
}

#[test]
fn fifteen_minutes_of_samples_keep_only_last_ten() {
    let mut h = VecDeque::new();
    let mut calls = 0;
    let mut now: u64 = 0;
    while now <= 15 * 60_000 {
        record_sample(&mut h, now, ConnectionStatus::Good);
        calls += 1;
        let trailing = (0..=now / 2_000)
            .filter(|k| k * 2_000 + HISTORY_WINDOW_MS >= now)
            .count();
        assert_eq!(h.len(), trailing);
        now += 2_000;
    }
    assert_eq!(calls, 451);
    assert_eq!(h.len(), 301);
    assert_eq!(h[0].0, 300_000);
}

#[test]
fn snapshot_is_an_equal_copy() {
    let h = history_of(&[(1, ConnectionStatus::Good), (2, ConnectionStatus::Poor)]);
    let copy = snapshot(&h);
    assert_eq!(copy, h);
}

#[test]
fn empty_history_draws_blank_line() {
    let h = VecDeque::new();
    assert_eq!(draw_graph(&h, 0), " ".repeat(GRAPH_WIDTH));
    assert_eq!(draw_graph(&h, 1_000_000), " ".repeat(GRAPH_WIDTH));
    assert_eq!(graph_columns(&h, 0, 8, 80), vec![None; 8]);
}

#[test]
fn later_sample_wins_in_shared_column() {
    let now: u64 = 600_000;
    let h = history_of(&[
        (100_000, ConnectionStatus::Good),
        (101_000, ConnectionStatus::Poor),
    ]);
    let cols = graph_columns(&h, now, GRAPH_WIDTH, HISTORY_WINDOW_MS);
    assert_eq!(cols[10], Some(ConnectionStatus::Poor));
    assert_eq!(cols.iter().filter(|c| c.is_some()).count(), 1);
    let text: Vec<char> = draw_graph(&h, now).chars().collect();
    assert_eq!(text.len(), GRAPH_WIDTH);
    assert_eq!(text[10], '◑');
    assert_eq!(text[9], ' ');
}

#[test]
fn rendering_twice_gives_same_text() {
    let h = history_of(&[
        (590_000, ConnectionStatus::Fair),
        (595_000, ConnectionStatus::Timeout),
        (650_000, ConnectionStatus::Good),
    ]);
    let first = draw_graph(&h, 700_000);
    let second = draw_graph(&h, 700_000);
    assert_eq!(first, second);
    assert_ne!(first, " ".repeat(GRAPH_WIDTH));
}

#[test]
fn graph_columns_place_samples_by_time() {
    let now: u64 = 1_000_000;
    let h = history_of(&[
        (300_000, ConnectionStatus::Good),
        (400_000, ConnectionStatus::Good),
        (400_001, ConnectionStatus::Fair),
        (409_999, ConnectionStatus::Poor),
        (999_999, ConnectionStatus::Timeout),
        (1_000_000, ConnectionStatus::Good),
        (1_000_500, ConnectionStatus::Good),
    ]);
    let cols = graph_columns(&h, now, GRAPH_WIDTH, HISTORY_WINDOW_MS);
    let mut expected = vec![None; GRAPH_WIDTH];
    expected[0] = Some(ConnectionStatus::Poor);
    expected[59] = Some(ConnectionStatus::Timeout);
    assert_eq!(cols, expected);
    let text: String = draw_graph(&h, now);
    let mut want = String::from("◑");
    want.push_str(&" ".repeat(58));
    want.push('○');
    assert_eq!(text, want);
}

#[test]
fn graph_early_in_run_uses_window_before_zero() {
    let h = history_of(&[(0, ConnectionStatus::Fair), (5_000, ConnectionStatus::Good)]);
    let cols = graph_columns(&h, 5_000, GRAPH_WIDTH, HISTORY_WINDOW_MS);
    let mut expected = vec![None; GRAPH_WIDTH];
    expected[59] = Some(ConnectionStatus::Fair);
    assert_eq!(cols, expected);
}

#[test]
fn graph_columns_custom_width() {
    let h = history_of(&[
        (0, ConnectionStatus::Good),
        (15, ConnectionStatus::Fair),
        (29, ConnectionStatus::Poor),
        (39, ConnectionStatus::Timeout),
    ]);
    let cols = graph_columns(&h, 40, 4, 40);
    assert_eq!(
        cols,
        vec![
            Some(ConnectionStatus::Good),
            Some(ConnectionStatus::Fair),
            Some(ConnectionStatus::Poor),
            Some(ConnectionStatus::Timeout),
        ]
    );
}

#[test]
fn aggregator_tracks_each_target_independently() {
    let targets = vec![("A", "a.example"), ("B", "b.example")];
    let mut statuses = initial_statuses(&targets, 0);
    let mut a = Monitor::new(String::from("A"), String::from("a.example"));
    let mut b = Monitor::new(String::from("B"), String::from("b.example"));

    let snap_b = b.on_probe(Some(200_000), 1_000);
    assert_eq!(apply_update(&mut statuses, snap_b), Some(1));

    let snap_a = a.on_probe(Some(30_000), 2_000);
    assert_eq!(apply_update(&mut statuses, snap_a), Some(0));
    assert_eq!(statuses[0].status, ConnectionStatus::Good);
    assert_eq!(statuses[0].latency, Some(30_000));

    let snap_a = a.on_probe(None, 4_000);
    assert_eq!(apply_update(&mut statuses, snap_a), Some(0));
    assert_eq!(statuses[0].status, ConnectionStatus::Timeout);
    assert_eq!(statuses[0].latency, None);
    assert_eq!(statuses[0].last_update, 4_000);
    assert_eq!(statuses[0].history.len(), 2);

    assert_eq!(statuses[1].name, "B");
    assert_eq!(statuses[1].status, ConnectionStatus::Poor);
    assert_eq!(statuses[1].latency, Some(200_000));
    assert_eq!(statuses[1].last_update, 1_000);
}

#[test]
fn unmatched_update_is_dropped() {
    let targets = vec![("A", "a.example")];
    let mut statuses = initial_statuses(&targets, 7);
    let stray = ServerStatus::unprobed(String::from("Z"), 9);
    assert_eq!(apply_update(&mut statuses, stray), None);
    assert_eq!(statuses.len(), 1);
    assert_eq!(statuses[0].name, "A");
    assert_eq!(statuses[0].last_update, 7);
}

#[test]
fn update_replaces_first_entry_with_name() {
    let targets = vec![("A", "x"), ("A", "y")];
    let mut statuses = initial_statuses(&targets, 0);
    let mut m = Monitor::new(String::from("A"), String::from("x"));
    let snap = m.on_probe(Some(60_000), 10);
    assert_eq!(apply_update(&mut statuses, snap), Some(0));
    assert_eq!(statuses[0].status, ConnectionStatus::Fair);
    assert_eq!(statuses[1].status, ConnectionStatus::Timeout);
}

#[test]
fn initial_statuses_are_unprobed() {
    let targets = get_default_servers();
    let statuses = initial_statuses(&targets, 42);
    assert_eq!(statuses.len(), 5);
    for (s, t) in statuses.iter().zip(targets.iter()) {
        assert_eq!(s.name, t.0);
        assert_eq!(s.latency, None);
        assert_eq!(s.last_update, 42);
        assert_eq!(s.status, ConnectionStatus::Timeout);
        assert!(s.history.is_empty());
    }
}

#[test]
fn default_servers_list() {
    assert_eq!(
        get_default_servers(),
        vec![
            ("Google DNS", "8.8.8.8"),
            ("Cloudflare DNS", "1.1.1.1"),
            ("Google", "google.com"),
            ("GitHub", "github.com"),
            ("Stack Overflow", "stackoverflow.com"),
        ]
    );
}

#[test]
fn monitor_snapshot_matches_its_history() {
    let mut m = Monitor::new(String::from("A"), String::from("a"));
    m.on_probe(Some(10), 0);
    let snap = m.on_probe(Some(700_000), 2_000);
    assert_eq!(snap.name, "A");
    assert_eq!(snap.status, ConnectionStatus::Timeout);
    assert_eq!(snap.latency, Some(700_000));
    assert_eq!(snap.last_update, 2_000);
    assert_eq!(snap.history, m.history);
    let got: Vec<Sample> = snap.history.iter().copied().collect();
    assert_eq!(
        got,
        vec![(0, ConnectionStatus::Good), (2_000, ConnectionStatus::Timeout)]
    );
}

#[test]
fn monitor_stops_when_aggregator_is_gone() {
    let mut m = Monitor::new(String::from("A"), String::from("a"));
    m.on_probe(None, 0);
    assert_eq!(m.after_send(false), MonitorAction::Stop);
    assert_eq!(m.after_send(true), MonitorAction::Sleep(POLL_INTERVAL_MS));
    assert_eq!(POLL_INTERVAL_MS, 2_000);
}
