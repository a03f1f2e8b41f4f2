use aws_tui::event_managment::event::{
    InputBoxEvent, InputBoxType, KeyCode, KeyEvent, KeyModifiers, PopupAction,
    ServiceNavigatorEvent, WidgetAction, WidgetEventType, WidgetType,
};
use aws_tui::widgets::input_box::{ClipboardExchange, InputBoxWidget};
use aws_tui::widgets::paragraph::{decimal, ParagraphWidget};
use aws_tui::widgets::popup::{calculate_content_area, PopupContent, PopupWidget};
use aws_tui::widgets::service_navigator::{AWSServiceNavigator, NavigatorBody, NavigatorContent};
use aws_tui::widgets::Area;

fn key(code: KeyCode) -> KeyEvent {
    KeyEvent::plain(code)
}

fn ctrl(c: char) -> KeyEvent {
    KeyEvent { code: KeyCode::Char(c), modifiers: KeyModifiers::control() }
}

fn services() -> NavigatorContent {
    NavigatorContent::Services(WidgetEventType::values())
}

fn selected_service(r: Option<WidgetAction>) -> Option<String> {
    match r {
        Some(WidgetAction::ServiceNavigatorEvent(ServiceNavigatorEvent::ItemSelected(s), _)) => {
            Some(s.display_text())
        }
        _ => None,
    }
}

#[test]
fn navigator_starts_on_first_service() {
    let mut nav = AWSServiceNavigator::new(WidgetType::AWSServiceNavigator, true, services());
    assert_eq!(nav.frame_title(), "AWS Services");
    assert_eq!(nav.inner_title(), "Available Services");
    let r = nav.process_event(WidgetAction::ServiceNavigatorEvent(
        ServiceNavigatorEvent::Enter,
        WidgetType::AWSServiceNavigator,
    ));
    assert_eq!(selected_service(r), Some("S3".to_string()));
}

#[test]
fn navigator_moves_and_stops_at_the_ends() {
    let mut nav = AWSServiceNavigator::new(WidgetType::AWSServiceNavigator, true, services());
    nav.handle_input(key(KeyCode::Down));
    nav.handle_input(key(KeyCode::Down));
    nav.handle_input(key(KeyCode::Down));
    let enter = || {
        WidgetAction::ServiceNavigatorEvent(ServiceNavigatorEvent::Enter, WidgetType::AWSServiceNavigator)
    };
    assert_eq!(selected_service(nav.process_event(enter())), Some("CloudWatch".to_string()));
    nav.handle_input(key(KeyCode::Up));
    assert_eq!(selected_service(nav.process_event(enter())), Some("DynamoDB".to_string()));
    nav.handle_input(key(KeyCode::Home));
    assert_eq!(selected_service(nav.process_event(enter())), Some("S3".to_string()));
    nav.handle_input(key(KeyCode::Up));
    assert_eq!(selected_service(nav.process_event(enter())), Some("S3".to_string()));
    nav.handle_input(key(KeyCode::End));
    assert_eq!(selected_service(nav.process_event(enter())), Some("CloudWatch".to_string()));
}

#[test]
fn navigator_filter_ignores_case() {
    let mut nav = AWSServiceNavigator::new(WidgetType::AWSServiceNavigator, true, services());
    nav.apply_filter("DYN");
    assert_eq!(nav.frame_title(), "[Filtered: dyn] AWS Services ");
    let r = nav.process_event(WidgetAction::ServiceNavigatorEvent(
        ServiceNavigatorEvent::Enter,
        WidgetType::AWSServiceNavigator,
    ));
    assert_eq!(selected_service(r), Some("DynamoDB".to_string()));
    match nav.body(10) {
        NavigatorBody::Lines(lines) => assert_eq!(lines, vec!["> DynamoDB".to_string()]),
        NavigatorBody::Message(m) => panic!("unexpected message {}", m),
    }
}

#[test]
fn navigator_filter_with_no_match_shows_message() {
    let mut nav = AWSServiceNavigator::new(WidgetType::AWSServiceNavigator, true, services());
    nav.apply_filter("zzz");
    match nav.body(10) {
        NavigatorBody::Message(m) => assert_eq!(m, "No items match your filter"),
        NavigatorBody::Lines(_) => panic!("expected a message"),
    }
}

#[test]
fn navigator_filter_mode_typing_and_escape() {
    let mut nav = AWSServiceNavigator::new(WidgetType::AWSServiceNavigator, true, services());
    let r = nav.handle_input(key(KeyCode::Char('/')));
    assert!(matches!(r, Some(WidgetAction::ServiceNavigatorEvent(ServiceNavigatorEvent::Enter, _))));
    let r = nav.handle_input(key(KeyCode::Char('c')));
    match r {
        Some(WidgetAction::InputBoxEvent(InputBoxEvent::Written(t), InputBoxType::Text)) => {
            assert_eq!(t, "c")
        }
        _ => panic!("expected the filter text"),
    }
    assert_eq!(nav.frame_title(), "[Filter: c] AWS Services ");
    let r = nav.handle_input(key(KeyCode::Backspace));
    assert!(matches!(r, Some(WidgetAction::InputBoxEvent(InputBoxEvent::Backspace, _))));
    nav.handle_input(key(KeyCode::Char('w')));
    nav.process_event(WidgetAction::ServiceNavigatorEvent(
        ServiceNavigatorEvent::Escape,
        WidgetType::AWSServiceNavigator,
    ));
    assert_eq!(nav.frame_title(), "AWS Services");
}

#[test]
fn navigator_records_and_new_content_keep_filter() {
    let records = vec!["alpha".to_string(), "beta".to_string(), "Alphabet".to_string()];
    let mut nav = AWSServiceNavigator::new(
        WidgetType::QueryResultsNavigator,
        true,
        NavigatorContent::Records(records),
    );
    assert_eq!(nav.inner_title(), "Available Records");
    nav.apply_filter("alpha");
    match nav.body(10) {
        NavigatorBody::Lines(lines) => {
            assert_eq!(lines, vec!["> alpha".to_string(), "  Alphabet".to_string()])
        }
        NavigatorBody::Message(_) => panic!("expected lines"),
    }
    nav.set_content(NavigatorContent::Records(vec!["gamma".to_string(), "ALPHA-2".to_string()]));
    match nav.body(10) {
        NavigatorBody::Lines(lines) => assert_eq!(lines, vec!["> ALPHA-2".to_string()]),
        NavigatorBody::Message(_) => panic!("expected lines"),
    }
}

#[test]
fn navigator_scroll_indicators() {
    let records: Vec<String> = (0..20).map(|i| format!("r{}", i)).collect();
    let mut nav = AWSServiceNavigator::new(
        WidgetType::QueryResultsNavigator,
        true,
        NavigatorContent::Records(records),
    );
    match nav.body(5) {
        NavigatorBody::Lines(lines) => {
            assert_eq!(lines.len(), 5);
            assert_eq!(lines[0], "> r0");
            assert_eq!(lines[4], "▼ Scroll down for more");
        }
        NavigatorBody::Message(_) => panic!("expected lines"),
    }
    for _ in 0..12 {
        nav.handle_input(key(KeyCode::Down));
    }
    match nav.body(5) {
        NavigatorBody::Lines(lines) => {
            assert_eq!(lines[0], "▲ Scroll up for more");
        }
        NavigatorBody::Message(_) => panic!("expected lines"),
    }
    nav.handle_input(key(KeyCode::PageDown));
    let r = nav.process_event(WidgetAction::ServiceNavigatorEvent(
        ServiceNavigatorEvent::Enter,
        WidgetType::QueryResultsNavigator,
    ));
    assert_eq!(selected_service(r), Some("r17".to_string()));
}

#[test]
fn input_box_type_backspace_restores() {
    let mut input = InputBoxWidget::new(InputBoxType::Text, "Query", true);
    input.process_event(WidgetAction::InputBoxEvent(
        InputBoxEvent::KeyPress(key(KeyCode::Char('a'))),
        InputBoxType::Text,
    ));
    input.process_event(WidgetAction::InputBoxEvent(
        InputBoxEvent::KeyPress(key(KeyCode::Char('b'))),
        InputBoxType::Text,
    ));
    assert_eq!(input.text(), "ab");
    assert_eq!(input.display_text(), "ab|");
    input.process_event(WidgetAction::InputBoxEvent(
        InputBoxEvent::KeyPress(key(KeyCode::Char('c'))),
        InputBoxType::Text,
    ));
    input.process_event(WidgetAction::InputBoxEvent(InputBoxEvent::Backspace, InputBoxType::Text));
    assert_eq!(input.text(), "ab");
    assert_eq!(input.display_text(), "ab|");
}

#[test]
fn input_box_cursor_moves_and_inserts() {
    let mut input = InputBoxWidget::new(InputBoxType::Text, "Query", true);
    input.paste("hello");
    input.process_event(WidgetAction::InputBoxEvent(InputBoxEvent::Left, InputBoxType::Text));
    input.process_event(WidgetAction::InputBoxEvent(InputBoxEvent::Left, InputBoxType::Text));
    input.process_event(WidgetAction::InputBoxEvent(
        InputBoxEvent::KeyPress(key(KeyCode::Char('X'))),
        InputBoxType::Text,
    ));
    assert_eq!(input.text(), "helXlo");
    assert_eq!(input.display_text(), "helX|lo");
    input.process_event(WidgetAction::InputBoxEvent(InputBoxEvent::Delete, InputBoxType::Text));
    assert_eq!(input.text(), "helXo");
    input.process_event(WidgetAction::InputBoxEvent(InputBoxEvent::Left, InputBoxType::Text));
    input.process_event(WidgetAction::InputBoxEvent(InputBoxEvent::Right, InputBoxType::Text));
    assert_eq!(input.display_text(), "helX|o");
    let r = input.process_event(WidgetAction::InputBoxEvent(InputBoxEvent::Enter, InputBoxType::Text));
    match r {
        Some(WidgetAction::InputBoxEvent(InputBoxEvent::Written(t), InputBoxType::Text)) => {
            assert_eq!(t, "helXo")
        }
        _ => panic!("Enter submits the text"),
    }
}

#[test]
fn input_box_backspace_at_start_does_nothing() {
    let mut input = InputBoxWidget::new(InputBoxType::TimeRange, "Range", false);
    input.process_event(WidgetAction::InputBoxEvent(InputBoxEvent::Backspace, InputBoxType::TimeRange));
    assert_eq!(input.text(), "");
    assert_eq!(input.get_content(), None);
    assert_eq!(input.display_text(), "");
}

#[test]
fn input_box_clipboard_paste_and_copy() {
    let mut input = InputBoxWidget::new(InputBoxType::Text, "Query", true);
    let mut clip = ClipboardExchange { paste_text: Some("pasted".to_string()), copy_text: None };
    let r = input.handle_input(ctrl('v'), &mut clip);
    match r {
        Some(WidgetAction::InputBoxEvent(InputBoxEvent::Written(t), _)) => assert_eq!(t, "pasted"),
        _ => panic!("paste reports the text"),
    }
    assert_eq!(input.text(), "pasted");
    let mut clip2 = ClipboardExchange::empty();
    input.handle_input(ctrl('c'), &mut clip2);
    assert_eq!(clip2.copy_text, Some("pasted".to_string()));
    let r = input.handle_input(key(KeyCode::Char('q')), &mut clip2);
    assert!(matches!(r, Some(WidgetAction::InputBoxEvent(InputBoxEvent::KeyPress(_), _))));
    assert_eq!(input.get_content(), Some("pasted".to_string()));
}

#[test]
fn popup_profiles_navigation_and_selection() {
    let profiles = vec!["dev".to_string(), "prod".to_string()];
    let mut popup = PopupWidget::new(PopupContent::Profiles(profiles), "Profiles", true, true);
    assert_eq!(popup.render_content(), "> dev\n  prod");
    popup.process_event(WidgetAction::PopupAction(PopupAction::ArrowDown));
    popup.process_event(WidgetAction::PopupAction(PopupAction::ArrowDown));
    assert_eq!(popup.render_content(), "  dev\n> prod");
    let r = popup.process_event(WidgetAction::PopupAction(PopupAction::Enter));
    match r {
        Some(WidgetAction::PopupAction(PopupAction::ItemSelected(p))) => assert_eq!(p, "prod"),
        _ => panic!("Enter selects the profile"),
    }
    popup.process_event(WidgetAction::PopupAction(PopupAction::Escape));
    assert!(!popup.is_visible());
}

#[test]
fn popup_details_pretty_prints_json() {
    let popup = PopupWidget::new(
        PopupContent::Details("{\"a\":1}".to_string()),
        "Details",
        true,
        true,
    );
    assert_eq!(popup.render_content(), "{\n  \"a\": 1\n}");
    assert_eq!(popup.size_percent(), 80);
}

#[test]
fn popup_details_json_after_timestamp() {
    let popup = PopupWidget::new(
        PopupContent::Details("[2024-01-01 00:00:00] {\"k\":\"v\"}".to_string()),
        "Details",
        true,
        true,
    );
    assert_eq!(popup.render_content(), "{\n  \"k\": \"v\"\n}");
}

#[test]
fn popup_details_plain_text_unchanged() {
    let popup = PopupWidget::new(PopupContent::Details("not json".to_string()), "Details", true, true);
    assert_eq!(popup.render_content(), "not json");
    assert_eq!(popup.content_len(), 0);
}

#[test]
fn popup_content_area_is_inset() {
    let area = Area { x: 10, y: 5, width: 40, height: 20 };
    assert_eq!(calculate_content_area(area), Area { x: 12, y: 6, width: 36, height: 18 });
}

#[test]
fn paragraph_counts_keys() {
    let mut p = ParagraphWidget::new("Hello", true);
    p.handle_input(key(KeyCode::Up));
    p.handle_input(key(KeyCode::Up));
    p.handle_input(key(KeyCode::Down));
    assert_eq!(p.display_text(), "Hello\nCount: 1");
    p.handle_input(key(KeyCode::Down));
    p.handle_input(key(KeyCode::Down));
    assert_eq!(p.display_text(), "Hello\nCount: 0");
}

#[test]
fn decimal_digits() {
    assert_eq!(decimal(0), "0");
    assert_eq!(decimal(7), "7");
    assert_eq!(decimal(1203), "1203");
}

#[test]
fn input_box_cursor_counts_bytes() {
    let mut input = InputBoxWidget::new(InputBoxType::Text, "Query", true);
    assert!(input.can_paste("é"));
    input.paste("é");
    assert_eq!(input.display_text(), "é|");
    let left = WidgetAction::InputBoxEvent(InputBoxEvent::Left, InputBoxType::Text);
    assert!(input.accepts_action(&left));
    input.process_event(left);
    assert!(!input.can_display());
    let typed = WidgetAction::InputBoxEvent(
        InputBoxEvent::KeyPress(key(KeyCode::Char('x'))),
        InputBoxType::Text,
    );
    assert!(!input.accepts_action(&typed));
    input.process_event(WidgetAction::InputBoxEvent(InputBoxEvent::Right, InputBoxType::Text));
    assert_eq!(input.display_text(), "é|");
    let backspace = WidgetAction::InputBoxEvent(InputBoxEvent::Backspace, InputBoxType::Text);
    assert!(!input.accepts_action(&backspace));
    input.process_event(WidgetAction::InputBoxEvent(InputBoxEvent::Left, InputBoxType::Text));
    input.process_event(WidgetAction::InputBoxEvent(InputBoxEvent::Left, InputBoxType::Text));
    assert_eq!(input.display_text(), "|é");
    let delete = WidgetAction::InputBoxEvent(InputBoxEvent::Delete, InputBoxType::Text);
    assert!(input.accepts_action(&delete));
    input.process_event(delete);
    assert_eq!(input.text(), "");
}

#[test]
fn input_box_typing_a_wide_character_moves_one_byte() {
    let mut input = InputBoxWidget::new(InputBoxType::Text, "Query", true);
    input.process_event(WidgetAction::InputBoxEvent(
        InputBoxEvent::KeyPress(key(KeyCode::Char('ü'))),
        InputBoxType::Text,
    ));
    assert_eq!(input.text(), "ü");
    assert!(!input.can_display());
    input.process_event(WidgetAction::InputBoxEvent(InputBoxEvent::Right, InputBoxType::Text));
    assert!(input.can_display());
    assert_eq!(input.display_text(), "ü|");
}

fn shown(nav: &AWSServiceNavigator) -> Vec<String> {
    match nav.body(20) {
        NavigatorBody::Lines(lines) => lines,
        NavigatorBody::Message(m) => vec![m],
    }
}

#[test]
fn longer_filter_shows_fewer_items() {
    let records = vec![
        "api-gateway".to_string(),
        "Apple".to_string(),
        "lambda".to_string(),
        "APIs".to_string(),
    ];
    let mut nav = AWSServiceNavigator::new(
        WidgetType::QueryResultsNavigator,
        true,
        NavigatorContent::Records(records),
    );
    nav.apply_filter("a");
    assert_eq!(shown(&nav), vec!["> api-gateway", "  Apple", "  lambda", "  APIs"]);
    nav.apply_filter("AP");
    assert_eq!(shown(&nav), vec!["> api-gateway", "  Apple", "  APIs"]);
    nav.apply_filter("api");
    assert_eq!(shown(&nav), vec!["> api-gateway", "  APIs"]);
    nav.apply_filter("api");
    assert_eq!(shown(&nav), vec!["> api-gateway", "  APIs"]);
}

#[test]
fn removing_the_added_filter_character_restores() {
    let records = vec!["alpha".to_string(), "beta".to_string(), "alps".to_string()];
    let mut nav = AWSServiceNavigator::new(
        WidgetType::QueryResultsNavigator,
        true,
        NavigatorContent::Records(records),
    );
    nav.apply_filter("al");
    nav.handle_input(key(KeyCode::Down));
    let before = shown(&nav);
    nav.add_to_filter('P');
    assert_eq!(shown(&nav), vec!["> alpha", "  alps"]);
    nav.remove_from_filter();
    nav.apply_filter("al");
    let reapplied = shown(&nav);
    nav.add_to_filter('p');
    nav.remove_from_filter();
    assert_eq!(shown(&nav), reapplied);
    assert_eq!(before, vec!["  alpha", "> alps"]);
    assert_eq!(reapplied, vec!["> alpha", "  alps"]);
    assert_eq!(nav.frame_title(), "[Filtered: al] AWS Services ");
}

#[test]
fn escape_outside_filter_mode_clears_the_filter() {
    let mut nav = AWSServiceNavigator::new(WidgetType::AWSServiceNavigator, true, services());
    nav.apply_filter("dyn");
    let r = nav.handle_input(key(KeyCode::Esc));
    let esc = match r {
        Some(a) => a,
        None => panic!("Esc reports an escape while a filter is set"),
    };
    nav.process_event(esc);
    assert_eq!(nav.frame_title(), "AWS Services");
    assert_eq!(shown(&nav), vec!["> S3", "  DynamoDB", "  CloudWatch"]);
    assert!(nav.handle_input(key(KeyCode::Esc)).is_none());
}
