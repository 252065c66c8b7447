use polymer::app::{ActivePane, App, ConfirmationState, StatPeriod};
use polymer::config::Config;
use polymer::input::{browser_url, MENU_KILL, MENU_OPEN, MENU_REDEPLOY};
use polymer::model::{Deployment, Project, Status};
use polymer::network::{NetworkCommand, NetworkEvent};

const NOW: u64 = 1_700_000_000_000;

fn dep(id: &str, branch: &str, status: Status) -> Deployment {
    Deployment {
        id: id.to_string(),
        name: "site".to_string(),
        repo: "site".to_string(),
        status,
        commit_msg: "msg".to_string(),
        time: "Just now".to_string(),
        timestamp: NOW,
        duration_ms: 0,
        domain: format!("{}.example.app", id),
        branch: branch.to_string(),
        creator: "dev".to_string(),
        target: "preview".to_string(),
        short_id: id.to_string(),
    }
}

fn loaded(list: Vec<Deployment>) -> App {
    let mut app = App::new(&Config::default());
    app.stat_period = StatPeriod::All;
    app.apply_event(NetworkEvent::Deployments(list), NOW);
    app
}

#[test]
fn typing_a_query_filters_and_resets_selection() {
    let mut app = loaded(vec![dep("a", "main", Status::Ready), dep("b", "dev", Status::Ready)]);
    app.selected = Some(1);
    app.is_filter_mode = true;
    app.filter_push('d', NOW);
    assert_eq!(app.filter_query, "d");
    assert_eq!(app.filtered_deployments.len(), 1);
    assert_eq!(app.filtered_deployments[0].id, "b");
    assert_eq!(app.selected, Some(0));
    app.filter_pop(NOW);
    assert_eq!(app.filter_query, "");
    assert_eq!(app.filtered_deployments.len(), 2);
    app.filter_pop(NOW);
    assert_eq!(app.filter_query, "");
    app.filter_push('x', NOW);
    assert!(app.filtered_deployments.is_empty());
    app.filter_escape(NOW);
    assert!(!app.is_filter_mode);
    assert_eq!(app.filter_query, "");
    assert_eq!(app.filtered_deployments.len(), 2);
}

#[test]
fn clicks_select_rows_and_detect_double_clicks() {
    let mut app = loaded(vec![dep("a", "main", Status::Ready), dep("b", "main", Status::Ready)]);
    app.active_pane = ActivePane::Logs;
    assert_eq!(app.row_at(0), None);
    assert_eq!(app.row_at(7), Some(1));
    assert_eq!(app.row_at(12), None);
    assert!(!app.click(7, 3, 9, 1000));
    assert_eq!(app.selected, Some(1));
    assert_eq!(app.active_pane, ActivePane::Deployments);
    assert!(app.click(7, 3, 9, 1400));
    assert_eq!(app.last_click, None);
    assert!(!app.click(7, 3, 9, 1500));
    assert!(!app.click(7, 3, 9, 2100));
    assert!(!app.click(1, 4, 9, 2200));
    assert_eq!(app.selected, Some(0));
    app.press_redeploy(5);
    app.click_outside();
    assert!(matches!(app.confirmation_mode, ConfirmationState::Idle));
    assert_eq!(app.last_click, None);
}

#[test]
fn project_selector_switches_project() {
    let mut app = loaded(vec![dep("a", "main", Status::Ready)]);
    app.stat_period = StatPeriod::Last7d;
    app.projects = vec![
        Project { id: "p1".to_string(), name: "one".to_string() },
        Project { id: "p2".to_string(), name: "two".to_string() },
    ];
    app.show_project_selector = true;
    app.project_selected = Some(0);
    app.project_up();
    assert_eq!(app.project_selected, Some(1));
    app.project_down();
    assert_eq!(app.project_selected, Some(0));
    app.project_down();
    let cmd = app.choose_project();
    assert!(matches!(cmd, Some(NetworkCommand::Deployments(Some(ref p))) if p == "p2"));
    assert_eq!(app.current_project, "two");
    assert_eq!(app.current_project_id, Some("p2".to_string()));
    assert_eq!(app.stat_period, StatPeriod::All);
    assert!(app.deployments.is_empty());
    assert!(app.filtered_deployments.is_empty());
    assert_eq!(app.selected, None);
    assert!(!app.show_project_selector);
}

#[test]
fn project_selector_without_choice_only_closes() {
    let mut app = loaded(vec![dep("a", "main", Status::Ready)]);
    app.show_project_selector = true;
    app.project_selected = Some(3);
    assert!(app.choose_project().is_none());
    assert!(!app.show_project_selector);
    assert_eq!(app.deployments.len(), 1);
}

#[test]
fn context_menu_entries() {
    let mut app = loaded(vec![dep("a", "main", Status::Ready), dep("b", "main", Status::Building)]);
    app.open_context_menu(5, 1, 1);
    assert!(app.context_menu.is_none());
    app.open_context_menu(0, 10, 12);
    let menu = app.context_menu.as_ref().unwrap();
    assert_eq!(menu.options, vec![MENU_OPEN.to_string(), MENU_REDEPLOY.to_string(), MENU_KILL.to_string()]);
    assert_eq!(menu.position, (10, 12));
    assert_eq!(app.choose_menu_entry(1), Some("https://a.example.app".to_string()));
    assert!(app.context_menu.is_none());

    app.open_context_menu(0, 10, 12);
    app.menu_down();
    app.menu_down();
    app.menu_down();
    assert_eq!(app.context_menu.as_ref().unwrap().selected_index, 2);
    assert_eq!(app.choose_menu_entry(2), None);
    assert!(matches!(app.confirmation_mode, ConfirmationState::Idle));

    app.open_context_menu(1, 10, 12);
    app.menu_down();
    app.menu_down();
    app.menu_up();
    assert_eq!(app.context_menu.as_ref().unwrap().selected_index, 1);
    assert_eq!(app.choose_menu_entry(3), None);
    assert!(matches!(&app.confirmation_mode, ConfirmationState::RedeployPending(x, 3) if x == "b"));

    app.open_context_menu(1, 10, 12);
    app.menu_down();
    app.menu_down();
    app.choose_menu_entry(4);
    assert!(matches!(&app.confirmation_mode, ConfirmationState::CancelPending(x, 4) if x == "b"));
}

#[test]
fn browser_address_of_deployment() {
    assert_eq!(browser_url(&dep("z", "main", Status::Ready)), "https://z.example.app");
}
