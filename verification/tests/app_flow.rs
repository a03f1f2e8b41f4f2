use aws_tui::app::App;
use aws_tui::components::aws_base_component::{focus_after, focus_before};
use aws_tui::components::tab::{calculate_popup_area, get_content_area, Completion, Tab};
use aws_tui::components::{Command, ComponentFocus};
use aws_tui::event_managment::event::{AppEvent, Event, KeyCode, KeyEvent, KeyModifiers};
use aws_tui::widgets::input_box::ClipboardExchange;
use aws_tui::widgets::Area;
use aws_tui::components::cloudwatch::{log_events_fetched, log_groups_fetched, CloudWatch};
use aws_tui::components::dynamodb::DynamoDB;
use aws_tui::components::s3::S3Component;
use aws_tui::event_managment::event::{
    CloudWatchComponentActions, ComponentActions, DynamoDBComponentActions, InputBoxType,
    S3ComponentActions, ServiceNavigatorEvent, TabEvent, WidgetAction, WidgetType,
};
use aws_tui::services::aws::cloudwatch_client::CloudWatchClientError;
use std::collections::VecDeque;

type TestApp = App<u8, u8, u8>;

fn key(code: KeyCode) -> KeyEvent {
    KeyEvent::plain(code)
}

fn ctrl(c: char) -> KeyEvent {
    KeyEvent { code: KeyCode::Char(c), modifiers: KeyModifiers::control() }
}

/// Delivers the events that commands queue, as the application loop does, and
/// returns the commands that ask for outside work.
fn run(app: &mut TestApp, cmds: Vec<Command>) -> Vec<Command> {
    let mut queue: VecDeque<Command> = cmds.into_iter().collect();
    let mut work = Vec::new();
    while let Some(c) = queue.pop_front() {
        match c {
            Command::Send(Event::Tab(e)) => {
                assert!(app.accepts_tab_event(&e));
                queue.extend(app.apply_tab_state(e));
            }
            Command::Send(Event::App(e)) => app.apply_app_state(e),
            Command::Send(_) => {}
            other => work.push(other),
        }
    }
    work
}

fn press(app: &mut TestApp, k: KeyEvent) -> Vec<Command> {
    let mut clip = ClipboardExchange::empty();
    let cmds = app.handle_key_events(k, &mut clip);
    run(app, cmds)
}

fn profiles() -> Vec<String> {
    vec!["dev".to_string(), "prod".to_string()]
}

#[test]
fn app_starts_with_three_tabs() {
    let app: TestApp = App::new(profiles());
    assert_eq!(app.tab_names(), vec!["Tab 1", "Tab 2", "Tab 3"]);
    assert_eq!(app.active_index(), 0);
    assert!(app.running);
}

#[test]
fn app_shortcuts_switch_create_and_close_tabs() {
    let mut app: TestApp = App::new(profiles());
    press(&mut app, ctrl('j'));
    assert_eq!(app.active_index(), 2);
    press(&mut app, ctrl('l'));
    assert_eq!(app.active_index(), 0);
    press(&mut app, ctrl('l'));
    assert_eq!(app.active_index(), 1);
    press(&mut app, ctrl('t'));
    assert_eq!(app.tab_names(), vec!["Tab 1", "Tab 2", "Tab 3", "New Tab"]);
    press(&mut app, ctrl('w'));
    assert_eq!(app.tab_names(), vec!["Tab 1", "Tab 3", "New Tab"]);
    assert_eq!(app.active_index(), 0);
    press(&mut app, ctrl('q'));
    assert!(!app.running);
}

#[test]
fn app_never_closes_the_last_tab() {
    let mut app: TestApp = App::new(profiles());
    app.apply_app_state(AppEvent::CloseTab);
    app.apply_app_state(AppEvent::CloseTab);
    app.apply_app_state(AppEvent::CloseTab);
    app.apply_app_state(AppEvent::CloseTab);
    assert_eq!(app.tab_names(), vec!["Tab 3"]);
    assert_eq!(app.active_index(), 0);
    app.apply_app_state(AppEvent::NextTab);
    assert_eq!(app.active_index(), 0);
}

#[test]
fn shortcut_reports_an_app_event() {
    let mut app: TestApp = App::new(profiles());
    let mut clip = ClipboardExchange::empty();
    let cmds = app.handle_key_events(ctrl('t'), &mut clip);
    assert_eq!(cmds.len(), 1);
    assert!(matches!(cmds[0], Command::Send(Event::App(AppEvent::CreateTab))));
    assert_eq!(app.tab_names().len(), 3);
}

#[test]
fn choosing_a_profile_renames_the_tab() {
    let mut app: TestApp = App::new(profiles());
    press(&mut app, key(KeyCode::Down));
    let work = press(&mut app, key(KeyCode::Enter));
    assert!(work.is_empty());
    assert_eq!(app.tab_names(), vec!["prod", "Tab 2", "Tab 3"]);
    assert!(!app.active_tab().popup_open());
}

#[test]
fn escape_closes_the_profile_popup_without_choosing() {
    let mut app: TestApp = App::new(profiles());
    press(&mut app, key(KeyCode::Esc));
    assert_eq!(app.tab_names(), vec!["Tab 1", "Tab 2", "Tab 3"]);
    assert!(!app.active_tab().popup_open());
    let work = press(&mut app, key(KeyCode::Enter));
    assert_eq!(work.len(), 1);
    match &work[0] {
        Command::CreateS3Client { profile, .. } => assert_eq!(profile, ""),
        _ => panic!("the service list takes the keys once the popup is closed"),
    }
}

#[test]
fn alt_p_reopens_the_profile_popup() {
    let mut app: TestApp = App::new(profiles());
    press(&mut app, key(KeyCode::Enter));
    assert_eq!(app.tab_names()[0], "dev");
    let alt_p = KeyEvent { code: KeyCode::Char('p'), modifiers: KeyModifiers::alt() };
    let work = press(&mut app, alt_p);
    assert!(work.is_empty());
    assert!(app.active_tab().popup_open());
    assert!(app.active_tab().popup().is_visible());
    press(&mut app, key(KeyCode::Down));
    press(&mut app, key(KeyCode::Enter));
    assert_eq!(app.tab_names()[0], "prod");
}

#[test]
fn ctrl_tab_moves_to_the_next_tab() {
    let mut app: TestApp = App::new(profiles());
    let ctrl_tab = KeyEvent { code: KeyCode::Tab, modifiers: KeyModifiers::control() };
    press(&mut app, ctrl_tab);
    assert_eq!(app.active_index(), 1);
    press(&mut app, ctrl_tab);
    press(&mut app, ctrl_tab);
    assert_eq!(app.active_index(), 0);
}

#[test]
fn selecting_s3_asks_for_a_client_then_lists_buckets() {
    let mut app: TestApp = App::new(profiles());
    press(&mut app, key(KeyCode::Enter));
    let work = press(&mut app, key(KeyCode::Enter));
    assert_eq!(work.len(), 1);
    match &work[0] {
        Command::CreateS3Client { profile, region } => {
            assert_eq!(profile, "dev");
            assert_eq!(region, "eu-west-1");
        }
        _ => panic!("expected a client request"),
    }
    let cmds = app.complete(Completion::S3ClientCreated(7));
    let work = run(&mut app, cmds);
    assert_eq!(work.len(), 1);
    assert!(matches!(work[0], Command::ListBuckets));
    assert_eq!(app.active_tab().s3().get_client(), Some(&7));
}

#[test]
fn selecting_dynamodb_after_moving_down() {
    let mut app: TestApp = App::new(profiles());
    press(&mut app, key(KeyCode::Enter));
    press(&mut app, key(KeyCode::Down));
    let work = press(&mut app, key(KeyCode::Enter));
    assert_eq!(work.len(), 1);
    assert!(matches!(work[0], Command::CreateDynamoDBClient { .. }));
    let cmds = app.complete(Completion::DynamoDBClientCreated(3));
    let work = run(&mut app, cmds);
    assert!(matches!(work[0], Command::ListTables));
}

#[test]
fn new_tab_content_names_its_popup() {
    let tab: Tab<u8, u8, u8> = Tab::new("Mine", "Pick one", profiles());
    assert_eq!(tab.name(), "Mine");
    assert!(tab.popup_open());
    assert_eq!(tab.popup().title(), "Pick one");
}

#[test]
fn component_focus_cycles() {
    assert_eq!(focus_after(ComponentFocus::Navigation), ComponentFocus::Input);
    assert_eq!(focus_after(ComponentFocus::Input), ComponentFocus::TimeRange);
    assert_eq!(focus_after(ComponentFocus::TimeRange), ComponentFocus::Results);
    assert_eq!(focus_after(ComponentFocus::Results), ComponentFocus::NoFocus);
    assert_eq!(focus_after(ComponentFocus::NoFocus), ComponentFocus::Navigation);
    assert_eq!(focus_before(ComponentFocus::Navigation), ComponentFocus::NoFocus);
    assert_eq!(focus_before(focus_after(ComponentFocus::Input)), ComponentFocus::Input);
}

#[test]
fn layout_areas() {
    let area = Area { x: 0, y: 0, width: 100, height: 40 };
    assert_eq!(get_content_area(area), Area { x: 0, y: 3, width: 100, height: 37 });
    assert_eq!(calculate_popup_area(area), Area { x: 5, y: 5, width: 90, height: 30 });
}

#[test]
fn next_then_previous_tab_returns() {
    let mut app: TestApp = App::new(profiles());
    for start in 0..3 {
        while app.active_index() != start {
            app.apply_app_state(AppEvent::NextTab);
        }
        app.apply_app_state(AppEvent::NextTab);
        app.apply_app_state(AppEvent::PreviousTab);
        assert_eq!(app.active_index(), start);
        app.apply_app_state(AppEvent::PreviousTab);
        app.apply_app_state(AppEvent::NextTab);
        assert_eq!(app.active_index(), start);
    }
}

#[test]
fn service_list_selection_stops_at_the_last_service() {
    let mut app: TestApp = App::new(profiles());
    press(&mut app, key(KeyCode::Enter));
    for _ in 0..5 {
        press(&mut app, key(KeyCode::Down));
    }
    let work = press(&mut app, key(KeyCode::Enter));
    assert_eq!(work.len(), 1);
    assert!(matches!(work[0], Command::CreateCloudWatchClient { .. }));
}

#[test]
fn profile_popup_selection_stays_on_the_list() {
    let mut app: TestApp = App::new(profiles());
    for _ in 0..4 {
        press(&mut app, key(KeyCode::Down));
    }
    press(&mut app, key(KeyCode::Up));
    press(&mut app, key(KeyCode::Enter));
    assert_eq!(app.tab_names(), vec!["dev", "Tab 2", "Tab 3"]);
}

#[test]
fn s3_folder_then_up_lists_the_parent() {
    let mut s3: S3Component<u8> = S3Component::new();
    s3.set_client(1);
    let cmds = s3.process_event(S3ComponentActions::SelectBucket("bucket".to_string()));
    match &cmds[..] {
        [Command::ListObjects { bucket, prefix, title }] => {
            assert_eq!(bucket, "bucket");
            assert_eq!(prefix, "");
            assert_eq!(title, "Objects");
        }
        _ => panic!("selecting a bucket lists it"),
    }
    s3.process_event(S3ComponentActions::NavigateFolder("logs".to_string()));
    let cmds = s3.process_event(S3ComponentActions::NavigateFolder("2024".to_string()));
    match &cmds[..] {
        [Command::ListObjects { prefix, title, .. }] => {
            assert_eq!(prefix, "logs/2024");
            assert_eq!(title, "Path: logs/2024");
        }
        _ => panic!("entering a folder lists it"),
    }
    let cmds = s3.process_event(S3ComponentActions::NavigateUp);
    match &cmds[..] {
        [Command::Send(Event::Tab(TabEvent::ComponentActions(ComponentActions::S3ComponentActions(
            S3ComponentActions::LoadPath(bucket, path),
        ))))] => {
            assert_eq!(bucket, "bucket");
            assert_eq!(path, "logs");
        }
        _ => panic!("going up loads the parent"),
    }
    let cmds = s3.process_event(S3ComponentActions::LoadPath("bucket".to_string(), String::new()));
    match &cmds[..] {
        [Command::ListObjects { title, .. }] => assert_eq!(title, "Path: /"),
        _ => panic!("loading a path lists it"),
    }
}

#[test]
fn cloudwatch_log_group_selection_fetches_in_the_background() {
    let mut cw: CloudWatch<u8> = CloudWatch::new();
    cw.set_client(1);
    let cmds = cw.process_event(CloudWatchComponentActions::SelectLogGroup("/aws/x".to_string()));
    assert_eq!(cmds.len(), 3);
    match &cmds[2] {
        Command::FetchLogs { log_group, filter, time_range, title } => {
            assert_eq!(log_group, "/aws/x");
            assert_eq!(filter, "");
            assert_eq!(time_range, "5m");
            assert_eq!(title, "Log Events");
        }
        _ => panic!("expected a fetch"),
    }
    let cmds = cw.process_event(CloudWatchComponentActions::SetTimeRange("1h".to_string()));
    match &cmds[2] {
        Command::FetchLogs { time_range, title, .. } => {
            assert_eq!(time_range, "1h");
            assert_eq!(title, "Search Results");
        }
        _ => panic!("expected a fetch"),
    }
    let done = log_events_fetched(None, "Log Events".to_string());
    match &done[0] {
        Command::Send(Event::Tab(TabEvent::ComponentActions(
            ComponentActions::CloudWatchComponentActions(CloudWatchComponentActions::WidgetAction(
                WidgetAction::ServiceNavigatorEvent(
                    ServiceNavigatorEvent::UpdateContent(lines),
                    WidgetType::QueryResultsNavigator,
                ),
            )),
        ))) => assert_eq!(lines, &vec!["Request timed out after 30 seconds".to_string()]),
        _ => panic!("a time-out is reported in the results"),
    }
    let failed = log_groups_fetched(Some(Err(CloudWatchClientError::AwsError("denied".to_string()))));
    match &failed[0] {
        Command::Send(Event::Tab(TabEvent::ComponentActions(
            ComponentActions::CloudWatchComponentActions(CloudWatchComponentActions::WidgetAction(
                WidgetAction::ServiceNavigatorEvent(
                    ServiceNavigatorEvent::UpdateContent(lines),
                    WidgetType::AWSServiceNavigator,
                ),
            )),
        ))) => assert_eq!(lines, &vec!["Error fetching log groups: AWS SDK error: denied".to_string()]),
        _ => panic!("an error is reported in the navigator"),
    }
}

#[test]
fn dynamodb_query_names_table_and_keys() {
    let mut db: DynamoDB<u8> = DynamoDB::new();
    let cmds = db.process_event(DynamoDBComponentActions::SetQuery("42".to_string()));
    assert!(cmds.is_empty());
    db.set_client(1);
    let cmds = db.update();
    assert!(matches!(cmds[..], [Command::ListTables]));
    db.process_event(DynamoDBComponentActions::SetTitle("users".to_string()));
    let cmds = db.process_event(DynamoDBComponentActions::SetQuery("42".to_string()));
    match &cmds[..] {
        [Command::QueryTable { table, partition_key, sort_key }] => {
            assert_eq!(table, "users");
            assert_eq!(partition_key, "42");
            assert_eq!(sort_key, &None);
        }
        _ => panic!("a query for the selected table"),
    }
    db.query_completed(Err("Query error".to_string()));
    assert_eq!(db.get_current_focus(), ComponentFocus::Results);
}

#[test]
fn component_focus_round_trips() {
    let mut s3: S3Component<u8> = S3Component::new();
    let start = s3.get_current_focus();
    s3.process_event(S3ComponentActions::NextFocus);
    assert_ne!(s3.get_current_focus(), start);
    s3.process_event(S3ComponentActions::PreviousFocus);
    assert_eq!(s3.get_current_focus(), start);
    let mut cw: CloudWatch<u8> = CloudWatch::new();
    for _ in 0..3 {
        let before = cw.get_current_focus();
        cw.process_event(CloudWatchComponentActions::NextFocus);
        cw.process_event(CloudWatchComponentActions::PreviousFocus);
        assert_eq!(cw.get_current_focus(), before);
        cw.process_event(CloudWatchComponentActions::NextFocus);
    }
    let mut db: DynamoDB<u8> = DynamoDB::new();
    for _ in 0..4 {
        let before = db.get_current_focus();
        db.process_event(DynamoDBComponentActions::PreviousFocus);
        db.process_event(DynamoDBComponentActions::NextFocus);
        assert_eq!(db.get_current_focus(), before);
        db.process_event(DynamoDBComponentActions::NextFocus);
    }
}

#[test]
fn dynamodb_back_from_sort_key_goes_to_partition_key() {
    let mut db: DynamoDB<u8> = DynamoDB::new();
    db.process_event(DynamoDBComponentActions::NextFocus);
    assert_eq!(db.get_current_focus(), ComponentFocus::Input);
    db.process_event(DynamoDBComponentActions::NextFocus);
    assert_eq!(db.get_current_focus(), ComponentFocus::TimeRange);
    assert!(db.widgets().2.is_active());
    db.process_event(DynamoDBComponentActions::PreviousFocus);
    assert_eq!(db.get_current_focus(), ComponentFocus::Input);
    assert!(!db.widgets().2.is_active());
    let mut clip = ClipboardExchange::empty();
    let cmds = db.handle_input(key(KeyCode::Char('x')), &mut clip);
    match &cmds[..] {
        [Command::Send(Event::Tab(TabEvent::ComponentActions(
            ComponentActions::DynamoDBComponentActions(DynamoDBComponentActions::WidgetActions(
                WidgetAction::InputBoxEvent(_, InputBoxType::Text),
            )),
        )))] => {}
        _ => panic!("typed keys go to the partition-key input"),
    }
}
