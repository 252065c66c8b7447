use polymer::app::{ActivePane, App, ConfirmationState, StatPeriod, DAY_MS};
use polymer::config::Config;
use polymer::model::{Deployment, Status};
use polymer::network::{NetworkCommand, NetworkEvent};

const HOUR_MS: u64 = 3_600_000;
const NOW: u64 = 1_700_000_000_000;

fn dep(id: &str, name: &str, branch: &str, age_ms: u64, status: Status) -> Deployment {
    Deployment {
        id: id.to_string(),
        name: name.to_string(),
        repo: name.to_string(),
        status,
        commit_msg: "msg".to_string(),
        time: "Just now".to_string(),
        timestamp: NOW - age_ms,
        duration_ms: 0,
        domain: format!("{}.example.app", id),
        branch: branch.to_string(),
        creator: "dev".to_string(),
        target: "preview".to_string(),
        short_id: id.to_string(),
    }
}

fn fresh_app() -> App {
    App::new(&Config::default())
}

fn ids(v: &[Deployment]) -> Vec<String> {
    v.iter().map(|d| d.id.clone()).collect()
}

#[test]
fn filter_predicate_window_and_query() {
    let mut app = fresh_app();
    app.stat_period = StatPeriod::Last24h;
    app.filter_query = "main".to_string();
    app.deployments = vec![
        dep("in", "site", "main-2", 23 * HOUR_MS, Status::Ready),
        dep("out", "site", "main-2", 25 * HOUR_MS, Status::Ready),
    ];
    app.update_filter_at(NOW);
    assert_eq!(ids(&app.filtered_deployments), vec!["in".to_string()]);
}

#[test]
fn filter_query_ignores_case() {
    let mut app = fresh_app();
    app.stat_period = StatPeriod::All;
    app.filter_query = "MAIN".to_string();
    app.deployments = vec![
        dep("a", "site", "Main-fix", 100 * DAY_MS, Status::Ready),
        dep("b", "site", "dev", HOUR_MS, Status::Ready),
    ];
    app.update_filter_at(NOW);
    assert_eq!(ids(&app.filtered_deployments), vec!["a".to_string()]);
}

#[test]
fn filter_windows_of_each_length() {
    let mut app = fresh_app();
    app.deployments = vec![
        dep("h", "site", "main", HOUR_MS, Status::Ready),
        dep("d3", "site", "main", 3 * DAY_MS, Status::Ready),
        dep("d10", "site", "main", 10 * DAY_MS, Status::Ready),
        dep("d40", "site", "main", 40 * DAY_MS, Status::Ready),
    ];
    app.stat_period = StatPeriod::Last24h;
    app.update_filter_at(NOW);
    assert_eq!(app.filtered_deployments.len(), 1);
    app.stat_period = StatPeriod::Last7d;
    app.update_filter_at(NOW);
    assert_eq!(app.filtered_deployments.len(), 2);
    app.stat_period = StatPeriod::Last30d;
    app.update_filter_at(NOW);
    assert_eq!(app.filtered_deployments.len(), 3);
    app.stat_period = StatPeriod::All;
    app.update_filter_at(NOW);
    assert_eq!(app.filtered_deployments.len(), 4);
}

#[test]
fn filter_with_current_clock() {
    let mut app = fresh_app();
    let now = polymer::clock::now_millis();
    let mut d = dep("a", "site", "main", 0, Status::Ready);
    d.timestamp = now - 1000;
    let mut old = dep("b", "site", "main", 0, Status::Ready);
    old.timestamp = now - 2 * DAY_MS;
    app.deployments = vec![d, old];
    app.update_filter();
    assert_eq!(ids(&app.filtered_deployments), vec!["a".to_string()]);
}

#[test]
fn end_to_end_scenario() {
    let mut app = fresh_app();
    app.stat_period = StatPeriod::Last24h;
    let list = vec![
        dep("A", "site", "main", HOUR_MS, Status::Ready),
        dep("B", "site", "dev", 30 * HOUR_MS, Status::Building),
    ];
    app.apply_event(NetworkEvent::Deployments(list), NOW);
    assert_eq!(ids(&app.filtered_deployments), vec!["A".to_string()]);
    assert_eq!(app.selected, Some(0));
    app.update_stats_at(NOW);
    assert_eq!(app.total_builds, 1);
    assert_eq!(app.success_rate, 100);
    assert_eq!(app.active_builds, 0);
    assert_eq!(app.error_count, 0);
}

#[test]
fn selection_follows_id_across_replacement() {
    let mut app = fresh_app();
    app.stat_period = StatPeriod::All;
    let first = vec![
        dep("a", "site", "main", HOUR_MS, Status::Ready),
        dep("b", "site", "main", HOUR_MS, Status::Ready),
        dep("c", "site", "main", HOUR_MS, Status::Ready),
    ];
    app.apply_event(NetworkEvent::Deployments(first), NOW);
    app.selected = Some(1);
    let second = vec![
        dep("new", "site", "main", 0, Status::Building),
        dep("a", "site", "main", HOUR_MS, Status::Ready),
        dep("c", "site", "main", HOUR_MS, Status::Ready),
        dep("b", "site", "main", HOUR_MS, Status::Ready),
    ];
    app.apply_event(NetworkEvent::Deployments(second), NOW);
    assert_eq!(app.selected, Some(3));
    assert_eq!(app.get_selected_deployment_id(), Some("b".to_string()));
}

#[test]
fn selection_falls_back_to_first_row_or_none() {
    let mut app = fresh_app();
    app.stat_period = StatPeriod::All;
    app.apply_event(
        NetworkEvent::Deployments(vec![dep("a", "site", "main", 0, Status::Ready)]),
        NOW,
    );
    app.apply_event(
        NetworkEvent::Deployments(vec![
            dep("x", "site", "main", 0, Status::Ready),
            dep("y", "site", "main", 0, Status::Ready),
        ]),
        NOW,
    );
    assert_eq!(app.selected, Some(0));
    app.apply_event(NetworkEvent::Deployments(vec![]), NOW);
    assert_eq!(app.selected, None);
    assert_eq!(app.get_selected_deployment_id(), None);
}

#[test]
fn select_deployment_by_id_cases() {
    let mut app = fresh_app();
    app.filtered_deployments = vec![
        dep("a", "site", "main", 0, Status::Ready),
        dep("b", "site", "main", 0, Status::Ready),
    ];
    app.select_deployment_by_id(Some("b".to_string()));
    assert_eq!(app.selected, Some(1));
    app.select_deployment_by_id(Some("gone".to_string()));
    assert_eq!(app.selected, Some(0));
    app.select_deployment_by_id(None);
    assert_eq!(app.selected, Some(0));
}

#[test]
fn stats_cover_selected_project_only() {
    let mut app = fresh_app();
    app.stat_period = StatPeriod::Last7d;
    let mut r1 = dep("r1", "site", "main", HOUR_MS, Status::Ready);
    r1.duration_ms = 30_000;
    let mut r2 = dep("r2", "site", "main", 2 * HOUR_MS, Status::Ready);
    r2.duration_ms = 61_000;
    let list = vec![
        r1,
        r2,
        dep("e", "site", "main", HOUR_MS, Status::Error),
        dep("b", "site", "main", HOUR_MS, Status::Building),
        dep("other", "api", "main", HOUR_MS, Status::Error),
        dep("stale", "site", "main", 8 * DAY_MS, Status::Error),
    ];
    app.apply_event(NetworkEvent::Deployments(list), NOW);
    app.selected = Some(0);
    app.update_stats_at(NOW);
    assert_eq!(app.total_builds, 4);
    assert_eq!(app.success_rate, 50);
    assert_eq!(app.avg_duration_s, 45);
    assert_eq!(app.active_builds, 1);
    assert_eq!(app.error_count, 1);
}

#[test]
fn stats_success_rate_rounds_down() {
    let mut app = fresh_app();
    app.stat_period = StatPeriod::All;
    let list = vec![
        dep("a", "site", "main", 0, Status::Ready),
        dep("b", "site", "main", 0, Status::Error),
        dep("c", "site", "main", 0, Status::Canceled),
    ];
    app.apply_event(NetworkEvent::Deployments(list), NOW);
    app.update_stats_at(NOW);
    assert_eq!(app.total_builds, 3);
    assert_eq!(app.success_rate, 33);
    assert_eq!(app.avg_duration_s, 0);
}

#[test]
fn stats_reset_on_empty_view() {
    let mut app = fresh_app();
    app.total_builds = 9;
    app.success_rate = 9;
    app.active_builds = 9;
    app.error_count = 9;
    app.avg_duration_s = 9;
    app.update_stats_at(NOW);
    assert_eq!(app.total_builds, 0);
    assert_eq!(app.success_rate, 0);
    assert_eq!(app.active_builds, 0);
    assert_eq!(app.error_count, 0);
    assert_eq!(app.avg_duration_s, 0);
}

#[test]
fn stats_with_current_clock() {
    let mut app = fresh_app();
    app.stat_period = StatPeriod::All;
    app.apply_event(
        NetworkEvent::Deployments(vec![dep("a", "site", "main", 0, Status::Building)]),
        NOW,
    );
    app.update_stats();
    assert_eq!(app.total_builds, 1);
    assert_eq!(app.active_builds, 1);
}

#[test]
fn confirmation_gate_redeploy() {
    let mut app = fresh_app();
    app.stat_period = StatPeriod::All;
    app.apply_event(
        NetworkEvent::Deployments(vec![
            dep("A", "site", "main", 0, Status::Ready),
            dep("B", "site", "main", 0, Status::Ready),
        ]),
        NOW,
    );
    assert!(app.press_redeploy(10).is_none());
    assert!(matches!(&app.confirmation_mode, ConfirmationState::RedeployPending(x, 10) if x == "A"));
    let cmd = app.press_redeploy(20);
    assert!(matches!(cmd, Some(NetworkCommand::Redeploy(ref x)) if x == "A"));
    assert!(matches!(app.confirmation_mode, ConfirmationState::Idle));

    assert!(app.press_redeploy(30).is_none());
    app.selected = Some(1);
    assert!(app.press_redeploy(40).is_none());
    assert!(matches!(&app.confirmation_mode, ConfirmationState::RedeployPending(x, 40) if x == "B"));
}

#[test]
fn confirmation_reset_by_navigation_and_escape() {
    let mut app = fresh_app();
    app.stat_period = StatPeriod::All;
    app.apply_event(
        NetworkEvent::Deployments(vec![
            dep("A", "site", "main", 0, Status::Ready),
            dep("B", "site", "main", 0, Status::Ready),
        ]),
        NOW,
    );
    app.press_redeploy(1);
    app.move_down();
    assert!(matches!(app.confirmation_mode, ConfirmationState::Idle));
    assert_eq!(app.selected, Some(1));
    app.press_redeploy(2);
    app.error_message = Some("boom".to_string());
    app.dismiss();
    assert!(matches!(app.confirmation_mode, ConfirmationState::Idle));
    assert!(app.error_message.is_none());
}

#[test]
fn kill_only_on_building() {
    let mut app = fresh_app();
    app.stat_period = StatPeriod::All;
    app.apply_event(
        NetworkEvent::Deployments(vec![
            dep("A", "site", "main", 0, Status::Ready),
            dep("B", "site", "main", 0, Status::Building),
        ]),
        NOW,
    );
    assert!(app.press_kill(5).is_none());
    assert_eq!(app.selected, Some(1));
    assert!(matches!(app.confirmation_mode, ConfirmationState::Idle));
    assert!(app.press_kill(6).is_none());
    assert!(matches!(&app.confirmation_mode, ConfirmationState::CancelPending(x, 6) if x == "B"));
    let cmd = app.press_kill(7);
    assert!(matches!(cmd, Some(NetworkCommand::Cancel(ref x)) if x == "B"));
    assert!(matches!(app.confirmation_mode, ConfirmationState::Idle));
}

#[test]
fn redeploy_ignored_when_logs_focused() {
    let mut app = fresh_app();
    app.apply_event(
        NetworkEvent::Deployments(vec![dep("A", "site", "main", 0, Status::Ready)]),
        NOW,
    );
    app.active_pane = ActivePane::Logs;
    assert!(app.press_redeploy(1).is_none());
    assert!(matches!(app.confirmation_mode, ConfirmationState::Idle));
}

#[test]
fn debounce_coalesces_rapid_selection() {
    let mut app = fresh_app();
    app.stat_period = StatPeriod::All;
    app.apply_event(
        NetworkEvent::Deployments(vec![
            dep("a", "site", "main", 0, Status::Ready),
            dep("b", "site", "main", 0, Status::Ready),
            dep("c", "site", "main", 0, Status::Ready),
        ]),
        NOW,
    );
    app.logs = vec!["old".to_string()];
    app.track_selection(0);
    assert!(app.logs.is_empty());
    assert!(app.is_loading_logs);
    assert!(app.due_log_fetch(0).is_empty());
    app.move_down();
    app.track_selection(100);
    assert!(app.due_log_fetch(300).is_empty());
    app.move_down();
    app.track_selection(200);
    assert!(app.due_log_fetch(599).is_empty());
    let cmds = app.due_log_fetch(600);
    assert_eq!(cmds.len(), 2);
    assert!(matches!(&cmds[0], NetworkCommand::StartStream(x) if x == "c"));
    assert!(matches!(&cmds[1], NetworkCommand::Logs(x) if x == "c"));
    assert!(app.due_log_fetch(10_000).is_empty());
    app.track_selection(20_000);
    assert!(app.due_log_fetch(20_400).is_empty());
}

#[test]
fn logs_only_for_selected_deployment() {
    let mut app = fresh_app();
    app.stat_period = StatPeriod::All;
    app.apply_event(
        NetworkEvent::Deployments(vec![dep("a", "site", "main", 0, Status::Ready)]),
        NOW,
    );
    app.is_loading_logs = true;
    app.apply_event(NetworkEvent::Logs("zzz".to_string(), vec!["x".to_string()]), NOW);
    assert!(app.logs.is_empty());
    assert!(app.is_loading_logs);
    app.apply_event(NetworkEvent::Logs("a".to_string(), vec!["one".to_string()]), NOW);
    assert_eq!(app.logs, vec!["one".to_string()]);
    assert!(!app.is_loading_logs);
    app.apply_event(NetworkEvent::LogChunk("a".to_string(), vec!["two".to_string()]), NOW);
    assert_eq!(app.logs, vec!["one".to_string(), "two".to_string()]);
    app.apply_event(NetworkEvent::LogChunk("b".to_string(), vec!["three".to_string()]), NOW);
    assert_eq!(app.logs.len(), 2);
}

#[test]
fn info_and_error_events() {
    let mut app = fresh_app();
    app.is_loading_logs = true;
    app.apply_event(NetworkEvent::Error("bad".to_string()), NOW);
    assert_eq!(app.error_message, Some("bad".to_string()));
    assert!(!app.is_loading_logs);
    app.apply_event(NetworkEvent::Info("done".to_string()), NOW + 1);
    assert!(app.error_message.is_none());
    assert_eq!(app.toast_message, Some(("done".to_string(), NOW + 1)));
}

#[test]
fn cycle_period_keeps_selection() {
    let mut app = fresh_app();
    app.stat_period = StatPeriod::Last24h;
    app.deployments = vec![
        dep("old", "site", "main", 3 * DAY_MS, Status::Ready),
        dep("new", "site", "main", HOUR_MS, Status::Ready),
    ];
    app.update_filter_at(NOW);
    app.selected = Some(0);
    app.cycle_period(NOW);
    assert_eq!(app.stat_period, StatPeriod::Last7d);
    assert_eq!(app.filtered_deployments.len(), 2);
    assert_eq!(app.get_selected_deployment_id(), Some("new".to_string()));
}

#[test]
fn navigation_wraps_in_list() {
    let mut app = fresh_app();
    app.stat_period = StatPeriod::All;
    app.apply_event(
        NetworkEvent::Deployments(vec![
            dep("a", "site", "main", 0, Status::Ready),
            dep("b", "site", "main", 0, Status::Ready),
        ]),
        NOW,
    );
    app.move_up();
    assert_eq!(app.selected, Some(1));
    app.move_down();
    assert_eq!(app.selected, Some(0));
    app.active_pane = ActivePane::Logs;
    app.logs = vec!["1".to_string(), "2".to_string()];
    app.move_up();
    assert_eq!(app.log_selected, Some(1));
    app.move_down();
    assert_eq!(app.log_selected, Some(1));
}

#[test]
fn open_logs_requests_full_fetch() {
    let mut app = fresh_app();
    app.apply_event(
        NetworkEvent::Deployments(vec![dep("a", "site", "main", 0, Status::Ready)]),
        NOW,
    );
    app.logs = vec!["x".to_string()];
    let cmd = app.open_logs();
    assert!(matches!(cmd, Some(NetworkCommand::Logs(ref x)) if x == "a"));
    assert!(app.logs.is_empty());
    assert!(app.is_loading_logs);
}

#[test]
fn stat_period_cycle_labels_and_settings() {
    assert_eq!(StatPeriod::Last24h.next(), StatPeriod::Last7d);
    assert_eq!(StatPeriod::Last7d.next(), StatPeriod::Last30d);
    assert_eq!(StatPeriod::Last30d.next(), StatPeriod::All);
    assert_eq!(StatPeriod::All.next(), StatPeriod::Last24h);
    assert_eq!(StatPeriod::Last24h.display_text(), "Last 24h");
    assert_eq!(StatPeriod::All.display_text(), "All Time");
    assert_eq!(StatPeriod::from_setting("30d"), StatPeriod::Last30d);
    assert_eq!(StatPeriod::from_setting("bogus"), StatPeriod::Last24h);
    assert_eq!(StatPeriod::Last7d.setting(), "7d");
    assert_eq!(StatPeriod::Last30d.millis(), 30 * DAY_MS);
}

#[test]
fn config_round_trip_through_app() {
    let mut config = Config::default();
    assert_eq!(config.theme_name, "Default");
    assert_eq!(config.stat_period, "24h");
    config.stat_period = "all".to_string();
    config.last_project_name = Some("site".to_string());
    config.last_project_id = Some("prj_1".to_string());
    let mut app = App::new(&config);
    assert_eq!(app.stat_period, StatPeriod::All);
    assert_eq!(app.current_project, "site");
    app.current_project = "All Projects".to_string();
    app.stat_period = StatPeriod::Last7d;
    let mut saved = Config::default();
    saved.vercel_token = Some("tok".to_string());
    app.save_config(&mut saved);
    assert_eq!(saved.stat_period, "7d");
    assert_eq!(saved.last_project_name, None);
    assert_eq!(saved.last_project_id, Some("prj_1".to_string()));
    assert_eq!(saved.vercel_token, Some("tok".to_string()));
}

#[test]
fn on_tick_wraps_spinner() {
    let mut app = fresh_app();
    app.on_tick();
    assert_eq!(app.spinner_frame, 1);
    app.spinner_frame = usize::MAX;
    app.on_tick();
    assert_eq!(app.spinner_frame, 0);
}

#[test]
fn jumps_reset_confirmation() {
    let mut app = fresh_app();
    app.stat_period = StatPeriod::All;
    app.apply_event(
        NetworkEvent::Deployments(vec![
            dep("a", "site", "main", 0, Status::Ready),
            dep("b", "site", "main", 0, Status::Ready),
            dep("c", "site", "main", 0, Status::Ready),
        ]),
        NOW,
    );
    app.press_redeploy(1);
    app.jump_bottom();
    assert_eq!(app.selected, Some(2));
    assert!(matches!(app.confirmation_mode, ConfirmationState::Idle));
    app.press_redeploy(2);
    app.jump_top();
    assert_eq!(app.selected, Some(0));
    assert!(matches!(app.confirmation_mode, ConfirmationState::Idle));
    let fresh = fresh_app();
    assert_eq!(fresh.success_rate, 0);
    assert_eq!(fresh.avg_duration_s, 0);
    assert_eq!(fresh.active_builds, 0);
    assert_eq!(fresh.error_count, 0);
}
