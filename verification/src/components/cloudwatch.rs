//! CloudWatch component: log groups on the left, a search filter and a time
//! range, and the log events of the selected group.
//!
//! Log groups and log events are fetched in the background: the component
//! asks for them with a command and receives them back as navigator events.
use vstd::prelude::*;
use crate::components::{
    Command, CommandView, ComponentFocus, cloudwatch_command, commands_view, one_command,
    send_cloudwatch,
};
use crate::components::aws_base_component::{
    AWSComponentBase, BaseView, focus_after, focus_before, initial_input, next_focus, no_records,
    previous_focus,
};
use crate::event_managment::event::{
    CloudWatchComponentActions, CloudWatchComponentActionsView, InputBoxEvent, InputBoxEventView,
    InputBoxType, KeyCode, KeyEvent, ServiceNavigatorEvent, ServiceNavigatorEventView,
    WidgetAction, WidgetActionView, WidgetEventType, WidgetEventTypeView, WidgetType, action_view,
};
use crate::services::aws::cloudwatch_client::{CloudWatchClientError, CloudWatchClientErrorView};
use crate::text::{join2, join3, opt_text};
use crate::widgets::input_box::{ClipboardExchange, InputBoxView, InputBoxWidget};
use crate::widgets::popup::{PopupContent, PopupContentView, PopupView};
use crate::widgets::service_navigator::{ContentView, NavigatorContent, NavigatorView};

verus! {

/// Component for interacting with AWS CloudWatch logs
pub struct CloudWatch<C> {
    base: AWSComponentBase,
    cloudwatch_client: Option<C>,
    selected_log_group: Option<String>,
    time_range_input: InputBoxWidget,
    time_range: Option<String>,
}

pub struct CloudWatchView {
    pub base: BaseView,
    pub has_client: bool,
    pub selected_log_group: Option<Seq<char>>,
    pub time_range_input: InputBoxView,
    pub time_range: Option<Seq<char>>,
}

impl<C> View for CloudWatch<C> {
    type V = CloudWatchView;

    closed spec fn view(&self) -> CloudWatchView {
        CloudWatchView {
            base: self.base@,
            has_client: self.cloudwatch_client is Some,
            selected_log_group: opt_text(self.selected_log_group),
            time_range_input: self.time_range_input@,
            time_range: opt_text(self.time_range),
        }
    }
}

pub open spec fn cw_widget(a: Option<WidgetActionView>) -> Seq<CommandView> {
    match a {
        Some(w) => seq![send_cloudwatch(CloudWatchComponentActionsView::WidgetAction(w))],
        None => Seq::empty(),
    }
}

/// Queue a navigator event for one of the component's lists.
pub open spec fn to_list(e: ServiceNavigatorEventView, list: WidgetType) -> CommandView {
    send_cloudwatch(
        CloudWatchComponentActionsView::WidgetAction(
            WidgetActionView::ServiceNavigatorEvent(e, list),
        ),
    )
}

/// The time range used when none was entered.
pub open spec fn default_time_range() -> Seq<char> {
    "5m"@
}

/// The results title while logs are loading.
pub open spec fn loading_title(prefix: Seq<char>, filter: Seq<char>) -> Seq<char> {
    if filter.len() == 0 {
        prefix + " (Loading...)"@
    } else {
        prefix + ": "@ + filter + " (Loading...)"@
    }
}

/// The commands that fetch logs: show the loading state, then fetch in the background.
pub open spec fn fetch_commands(
    has_client: bool,
    log_group: Seq<char>,
    filter: Seq<char>,
    time_range: Seq<char>,
    prefix: Seq<char>,
) -> Seq<CommandView> {
    if has_client {
        seq![
            to_list(
                ServiceNavigatorEventView::UpdateTitle(loading_title(prefix, filter)),
                WidgetType::QueryResultsNavigator,
            ),
            to_list(
                ServiceNavigatorEventView::UpdateContent(seq!["Fetching logs, please wait..."@]),
                WidgetType::QueryResultsNavigator,
            ),
            CommandView::FetchLogs { log_group, filter, time_range, title: prefix },
        ]
    } else {
        Seq::empty()
    }
}

/// The outcome of a background fetch: the listing, the time-out notice, or the error.
pub open spec fn fetch_outcome(result: Option<Result<Seq<Seq<char>>, CloudWatchClientErrorView>>) -> Result<
    Seq<Seq<char>>,
    CloudWatchClientErrorView,
> {
    match result {
        Some(r) => r,
        None => Ok(seq!["Request timed out after 30 seconds"@]),
    }
}

pub open spec fn fetch_result_view(result: Option<Result<Vec<String>, CloudWatchClientError>>) -> Option<
    Result<Seq<Seq<char>>, CloudWatchClientErrorView>,
> {
    match result {
        Some(Ok(v)) => Some(Ok(v.deep_view())),
        Some(Err(e)) => Some(Err(e@)),
        None => None,
    }
}

/// The events that deliver fetched log events to the results list.
pub open spec fn log_events_commands(
    result: Option<Result<Seq<Seq<char>>, CloudWatchClientErrorView>>,
    title: Seq<char>,
) -> Seq<CommandView> {
    match fetch_outcome(result) {
        Ok(logs) => seq![
            to_list(ServiceNavigatorEventView::UpdateContent(logs), WidgetType::QueryResultsNavigator),
            to_list(ServiceNavigatorEventView::UpdateTitle(title), WidgetType::QueryResultsNavigator),
        ],
        Err(e) => seq![
            to_list(
                ServiceNavigatorEventView::UpdateContent(seq![e.message()]),
                WidgetType::QueryResultsNavigator,
            ),
        ],
    }
}

/// The events that deliver fetched log groups to the navigator.
pub open spec fn log_groups_commands(result: Option<Result<Seq<Seq<char>>, CloudWatchClientErrorView>>) -> Seq<
    CommandView,
> {
    match fetch_outcome(result) {
        Ok(groups) => seq![
            to_list(ServiceNavigatorEventView::UpdateContent(groups), WidgetType::AWSServiceNavigator),
            to_list(ServiceNavigatorEventView::UpdateTitle("Log Groups"@), WidgetType::AWSServiceNavigator),
        ],
        Err(e) => seq![
            to_list(
                ServiceNavigatorEventView::UpdateContent(
                    seq!["Error fetching log groups: "@ + e.message()],
                ),
                WidgetType::AWSServiceNavigator,
            ),
            to_list(
                ServiceNavigatorEventView::UpdateTitle("Log Groups (Error)"@),
                WidgetType::AWSServiceNavigator,
            ),
        ],
    }
}

impl CloudWatchView {
    /// The component as it starts.
    pub open spec fn initial() -> CloudWatchView {
        CloudWatchView {
            base: BaseView::initial(ContentView::Records(Seq::empty())),
            has_client: false,
            selected_log_group: None,
            time_range_input: initial_input(InputBoxType::TimeRange, "Time Range (e.g. 1h, 1d, 7d)"@),
            time_range: None,
        }
    }

    /// The state after the component gains or loses the focus of the tab; the
    /// time-range input always loses it.
    pub open spec fn activated(self, active: bool) -> CloudWatchView {
        CloudWatchView {
            base: BaseView { active, ..self.base },
            time_range_input: InputBoxView { active: false, ..self.time_range_input },
            ..self
        }.with_widget_states()
    }

    /// The state with the focus back on the navigator.
    pub open spec fn reset(self) -> CloudWatchView {
        self.focused(ComponentFocus::Navigation)
    }

    /// The state with the focus on the results, the last area.
    pub open spec fn focus_last(self) -> CloudWatchView {
        self.with_focus(ComponentFocus::Results).with_widget_states()
    }

    pub open spec fn with_widget_states(self) -> CloudWatchView {
        CloudWatchView { base: self.base.with_widget_states(), ..self }
    }

    /// Gives the time-range input the focus, or takes it away from it.
    pub open spec fn with_time_range_focus(self, activate: bool) -> CloudWatchView {
        CloudWatchView {
            time_range_input: InputBoxView { active: activate, ..self.time_range_input },
            base: BaseView {
                input: InputBoxView { active: !activate, ..self.base.input },
                navigator: NavigatorView { active: !activate, ..self.base.navigator },
                results: NavigatorView { active: !activate, ..self.base.results },
                focus: if activate {
                    ComponentFocus::TimeRange
                } else {
                    self.base.focus
                },
                ..self.base
            },
            ..self
        }
    }

    pub open spec fn with_focus(self, f: ComponentFocus) -> CloudWatchView {
        CloudWatchView { base: BaseView { focus: f, ..self.base }, ..self }
    }

    /// Focus on an area other than the time range.
    pub open spec fn focused(self, f: ComponentFocus) -> CloudWatchView {
        self.with_focus(f).with_time_range_focus(false).with_widget_states()
    }

    pub open spec fn popup_takes(self, key: KeyEvent) -> bool {
        self.base.popup.visible && self.base.popup.key_action(key) is Some
    }

    pub open spec fn alt_digit(self, key: KeyEvent) -> Option<char> {
        if key.modifiers.spec_alt_only() {
            match key.code {
                KeyCode::Char(c) => if c == '1' || c == '2' || c == '3' || c == '4' {
                    Some(c)
                } else {
                    None
                },
                _ => None,
            }
        } else {
            None
        }
    }

    pub open spec fn forwards(self, key: KeyEvent) -> bool {
        !self.popup_takes(key) && self.alt_digit(key) is None && key.code != KeyCode::Tab
            && key.code != KeyCode::BackTab && key.code != KeyCode::Esc
    }

    /// The component can take the key: a paste into the focused input box
    /// needs room at its cursor.
    pub open spec fn accepts_key(self, key: KeyEvent, paste: Option<Seq<char>>) -> bool {
        &&& self.base.focus == ComponentFocus::Input ==> self.base.input.accepts_key(key, paste)
        &&& self.base.focus == ComponentFocus::TimeRange ==> self.time_range_input.accepts_key(
            key,
            paste,
        )
    }

    /// The component can take the action: an input-box event needs the box it
    /// goes to (the filter box for text, the time-range box otherwise) to accept it.
    pub open spec fn accepts_action(self, a: CloudWatchComponentActionsView) -> bool {
        match a {
            CloudWatchComponentActionsView::WidgetAction(w) => match w {
                WidgetActionView::InputBoxEvent(_, t) => if t == InputBoxType::Text {
                    self.base.input.accepts_action(w)
                } else {
                    self.time_range_input.accepts_action(w)
                },
                _ => true,
            },
            _ => true,
        }
    }

    pub open spec fn forwarded(self, key: KeyEvent, paste: Option<Seq<char>>) -> CloudWatchView {
        match self.base.focus {
            ComponentFocus::Navigation => CloudWatchView {
                base: BaseView { navigator: self.base.navigator.after_key(key), ..self.base },
                ..self
            },
            ComponentFocus::Input => CloudWatchView {
                base: BaseView { input: self.base.input.after_key(key, paste), ..self.base },
                ..self
            },
            ComponentFocus::TimeRange => CloudWatchView {
                time_range_input: self.time_range_input.after_key(key, paste),
                ..self
            },
            ComponentFocus::Results => CloudWatchView {
                base: BaseView { results: self.base.results.after_key(key), ..self.base },
                ..self
            },
            _ => self,
        }
    }

    pub open spec fn forwarded_action(self, key: KeyEvent, paste: Option<Seq<char>>) -> Option<
        WidgetActionView,
    > {
        match self.base.focus {
            ComponentFocus::Navigation => self.base.navigator.key_action(key),
            ComponentFocus::Input => self.base.input.key_action(key, paste),
            ComponentFocus::TimeRange => self.time_range_input.key_action(key, paste),
            ComponentFocus::Results => self.base.results.key_action(key),
            _ => None,
        }
    }

    pub open spec fn forwarded_copy(self, key: KeyEvent) -> Option<Seq<char>> {
        match self.base.focus {
            ComponentFocus::Input => self.base.input.key_copy(key),
            ComponentFocus::TimeRange => self.time_range_input.key_copy(key),
            _ => None,
        }
    }

    /// The state after a key press.
    pub open spec fn after_key(self, key: KeyEvent, paste: Option<Seq<char>>) -> CloudWatchView {
        if self.popup_takes(key) {
            self
        } else if let Some(d) = self.alt_digit(key) {
            if d == '1' {
                self.focused(ComponentFocus::Navigation)
            } else if d == '2' {
                self.focused(ComponentFocus::Input)
            } else if d == '3' {
                self.with_time_range_focus(true)
            } else {
                self.focused(ComponentFocus::Results)
            }
        } else if key.code == KeyCode::Esc {
            if self.base.focus != ComponentFocus::Navigation {
                self.focused(ComponentFocus::Navigation)
            } else {
                self
            }
        } else if self.forwards(key) {
            self.forwarded(key, paste)
        } else {
            self
        }
    }

    /// The commands a key press produces.
    pub open spec fn key_commands(self, key: KeyEvent, paste: Option<Seq<char>>) -> Seq<
        CommandView,
    > {
        if self.popup_takes(key) {
            cw_widget(self.base.popup.key_action(key))
        } else if key.code == KeyCode::Tab {
            seq![send_cloudwatch(CloudWatchComponentActionsView::NextFocus)]
        } else if key.code == KeyCode::BackTab {
            seq![send_cloudwatch(CloudWatchComponentActionsView::PreviousFocus)]
        } else if self.forwards(key) {
            cw_widget(self.forwarded_action(key, paste))
        } else {
            Seq::empty()
        }
    }

    pub open spec fn key_copy(self, key: KeyEvent) -> Option<Seq<char>> {
        if self.forwards(key) {
            self.forwarded_copy(key)
        } else {
            None
        }
    }

    /// The time range in use: the one entered, or five minutes.
    pub open spec fn time_range_or_default(self) -> Seq<char> {
        match self.time_range {
            Some(t) => t,
            None => default_time_range(),
        }
    }

    pub open spec fn focus_moved_next(self) -> CloudWatchView {
        if self.base.focus == ComponentFocus::TimeRange {
            self.with_time_range_focus(false).with_focus(ComponentFocus::Results).with_widget_states()
        } else {
            let moved = self.with_focus(next_focus(self.base.focus));
            if moved.base.focus == ComponentFocus::TimeRange {
                moved.with_time_range_focus(true)
            } else {
                moved.with_widget_states()
            }
        }
    }

    pub open spec fn focus_moved_previous(self) -> CloudWatchView {
        if self.base.focus == ComponentFocus::TimeRange {
            self.with_time_range_focus(false).with_focus(ComponentFocus::Input).with_widget_states()
        } else {
            let moved = self.with_focus(previous_focus(self.base.focus));
            if moved.base.focus == ComponentFocus::TimeRange {
                moved.with_time_range_focus(true)
            } else {
                moved.with_widget_states()
            }
        }
    }

    pub open spec fn with_details(self, d: Seq<char>) -> CloudWatchView {
        CloudWatchView {
            base: BaseView {
                popup: PopupView {
                    content: PopupContentView::Details(d),
                    visible: true,
                    active: true,
                    ..self.base.popup
                },
                ..self.base
            },
            ..self
        }
    }

    /// The state after a CloudWatch action.
    pub open spec fn after_action(self, a: CloudWatchComponentActionsView) -> CloudWatchView {
        match a {
            CloudWatchComponentActionsView::SelectLogGroup(g) => CloudWatchView {
                selected_log_group: Some(g),
                base: BaseView {
                    navigator: NavigatorView { title: "Log Group: "@ + g, ..self.base.navigator },
                    ..self.base
                },
                ..self
            },
            CloudWatchComponentActionsView::SetTimeRange(t) => CloudWatchView {
                time_range: Some(t),
                ..self
            },
            CloudWatchComponentActionsView::ViewLogDetails(d) => self.with_details(d),
            CloudWatchComponentActionsView::PopupDetails(d) => self.with_details(d),
            CloudWatchComponentActionsView::NextFocus => self.focus_moved_next(),
            CloudWatchComponentActionsView::PreviousFocus => self.focus_moved_previous(),
            CloudWatchComponentActionsView::WidgetAction(w) => match w {
                WidgetActionView::ServiceNavigatorEvent(_, wt) => if wt
                    == WidgetType::AWSServiceNavigator {
                    CloudWatchView {
                        base: BaseView {
                            navigator: self.base.navigator.after_action(w),
                            ..self.base
                        },
                        ..self
                    }
                } else if wt == WidgetType::QueryResultsNavigator {
                    CloudWatchView {
                        base: BaseView { results: self.base.results.after_action(w), ..self.base },
                        ..self
                    }
                } else {
                    self
                },
                WidgetActionView::InputBoxEvent(_, t) => if t == InputBoxType::Text {
                    CloudWatchView {
                        base: BaseView { input: self.base.input.after_action(w), ..self.base },
                        ..self
                    }
                } else {
                    CloudWatchView {
                        time_range_input: self.time_range_input.after_action(w),
                        ..self
                    }
                },
                WidgetActionView::PopupAction(_) => CloudWatchView {
                    base: BaseView {
                        popup: PopupView { visible: false, active: false, ..self.base.popup },
                        ..self.base
                    },
                    ..self
                },
                _ => self,
            },
            _ => self,
        }
    }

    /// The commands a CloudWatch action produces.
    pub open spec fn action_commands(self, a: CloudWatchComponentActionsView) -> Seq<CommandView> {
        match a {
            CloudWatchComponentActionsView::SelectLogGroup(g) => fetch_commands(
                self.has_client,
                g,
                self.base.input.content,
                self.time_range_or_default(),
                "Log Events"@,
            ),
            CloudWatchComponentActionsView::SearchLogs(f) => match self.selected_log_group {
                Some(g) => fetch_commands(
                    self.has_client,
                    g,
                    f,
                    self.time_range_or_default(),
                    "Search Results"@,
                ),
                None => Seq::empty(),
            },
            CloudWatchComponentActionsView::SetTimeRange(t) => match self.selected_log_group {
                Some(g) => fetch_commands(
                    self.has_client,
                    g,
                    self.base.input.content,
                    t,
                    "Search Results"@,
                ),
                None => Seq::empty(),
            },
            CloudWatchComponentActionsView::WidgetAction(w) => match w {
                WidgetActionView::ServiceNavigatorEvent(_, wt) => if wt
                    == WidgetType::AWSServiceNavigator {
                    match self.base.navigator.action_result(w) {
                        Some(
                            WidgetActionView::ServiceNavigatorEvent(
                                ServiceNavigatorEventView::ItemSelected(
                                    WidgetEventTypeView::RecordSelected(g),
                                ),
                                WidgetType::AWSServiceNavigator,
                            ),
                        ) => seq![send_cloudwatch(CloudWatchComponentActionsView::SelectLogGroup(g))],
                        _ => Seq::empty(),
                    }
                } else if wt == WidgetType::QueryResultsNavigator {
                    match self.base.results.action_result(w) {
                        Some(
                            WidgetActionView::ServiceNavigatorEvent(
                                ServiceNavigatorEventView::ItemSelected(
                                    WidgetEventTypeView::RecordSelected(c),
                                ),
                                WidgetType::QueryResultsNavigator,
                            ),
                        ) => seq![send_cloudwatch(CloudWatchComponentActionsView::PopupDetails(c))],
                        _ => Seq::empty(),
                    }
                } else {
                    Seq::empty()
                },
                WidgetActionView::InputBoxEvent(_, t) => if t == InputBoxType::Text {
                    match self.base.input.action_result(w) {
                        Some(
                            WidgetActionView::InputBoxEvent(InputBoxEventView::Written(content), _),
                        ) => if self.selected_log_group is Some {
                            seq![send_cloudwatch(CloudWatchComponentActionsView::SearchLogs(content))]
                        } else {
                            Seq::empty()
                        },
                        _ => Seq::empty(),
                    }
                } else {
                    match self.time_range_input.action_result(w) {
                        Some(
                            WidgetActionView::InputBoxEvent(InputBoxEventView::Written(content), _),
                        ) => seq![send_cloudwatch(CloudWatchComponentActionsView::SetTimeRange(content))],
                        _ => Seq::empty(),
                    }
                },
                _ => Seq::empty(),
            },
            _ => Seq::empty(),
        }
    }

    /// The loading state shown while the log groups are fetched.
    pub open spec fn loading_groups(self) -> CloudWatchView {
        CloudWatchView {
            base: BaseView {
                navigator: NavigatorView {
                    title: "Log Groups (Loading...)"@,
                    ..self.base.navigator
                }.with_content(ContentView::Records(seq!["Fetching log groups, please wait..."@])),
                results: NavigatorView {
                    title: "Select a log group"@,
                    ..self.base.results.with_content(ContentView::Records(Seq::empty()))
                },
                ..self.base
            },
            ..self
        }
    }

    pub open spec fn help_items(self) -> Seq<(Seq<char>, Seq<char>)> {
        if self.base.focus == ComponentFocus::TimeRange {
            seq![
                ("Enter"@, "Apply time range"@),
                ("Time formats"@, "15m, 1h, 1d, 7d"@),
                ("Esc"@, "Return to navigation"@),
            ]
        } else {
            self.base.help_items() + seq![("Alt+3"@, "Time range"@)]
        }
    }
}

/// Queue a navigator event for one of the component's lists.
fn list_command(e: ServiceNavigatorEvent, list: WidgetType) -> (c: Command)
    ensures
        c@ == to_list(e@, list),
{
    cloudwatch_command(
        CloudWatchComponentActions::WidgetAction(WidgetAction::ServiceNavigatorEvent(e, list)),
    )
}

/// The commands that fetch logs.
fn fetch_logs(
    has_client: bool,
    log_group: &str,
    filter_pattern: &str,
    time_range: &str,
    title_prefix: &str,
) -> (cmds: Vec<Command>)
    ensures
        commands_view(cmds@) == fetch_commands(
            has_client,
            log_group@,
            filter_pattern@,
            time_range@,
            title_prefix@,
        ),
{
    let mut cmds: Vec<Command> = Vec::new();
    if has_client {
        let title = if filter_pattern.is_empty() {
            join2(title_prefix, " (Loading...)")
        } else {
            let head = join3(title_prefix, ": ", filter_pattern);
            join2(head.as_str(), " (Loading...)")
        };
        cmds.push(
            list_command(ServiceNavigatorEvent::UpdateTitle(title), WidgetType::QueryResultsNavigator),
        );
        let mut waiting = Vec::new();
        waiting.push("Fetching logs, please wait...".to_string());
        assert(waiting.deep_view() =~= seq!["Fetching logs, please wait..."@]);
        cmds.push(
            list_command(
                ServiceNavigatorEvent::UpdateContent(waiting),
                WidgetType::QueryResultsNavigator,
            ),
        );
        cmds.push(
            Command::FetchLogs {
                log_group: log_group.to_string(),
                filter: filter_pattern.to_string(),
                time_range: time_range.to_string(),
                title: title_prefix.to_string(),
            },
        );
    }
    assert(commands_view(cmds@) =~= fetch_commands(
        has_client,
        log_group@,
        filter_pattern@,
        time_range@,
        title_prefix@,
    ));
    cmds
}

/// The events that deliver the outcome of a background log fetch (`None`
/// where it timed out) to the results list.
pub fn log_events_fetched(result: Option<Result<Vec<String>, CloudWatchClientError>>, title: String) -> (cmds:
    Vec<Command>)
    ensures
        commands_view(cmds@) == log_events_commands(fetch_result_view(result), title@),
{
    let outcome = match result {
        Some(r) => r,
        None => {
            let mut v = Vec::new();
            v.push("Request timed out after 30 seconds".to_string());
            assert(v.deep_view() =~= seq!["Request timed out after 30 seconds"@]);
            Ok(v)
        },
    };
    let mut cmds: Vec<Command> = Vec::new();
    match outcome {
        Ok(logs) => {
            cmds.push(
                list_command(ServiceNavigatorEvent::UpdateContent(logs), WidgetType::QueryResultsNavigator),
            );
            cmds.push(
                list_command(ServiceNavigatorEvent::UpdateTitle(title), WidgetType::QueryResultsNavigator),
            );
        },
        Err(err) => {
            let mut lines = Vec::new();
            lines.push(err.message());
            assert(lines.deep_view() =~= seq![err@.message()]);
            cmds.push(
                list_command(ServiceNavigatorEvent::UpdateContent(lines), WidgetType::QueryResultsNavigator),
            );
        },
    }
    assert(commands_view(cmds@) =~= log_events_commands(fetch_result_view(result), title@));
    cmds
}

/// The events that deliver the outcome of the background log-group listing
/// (`None` where it timed out) to the navigator.
pub fn log_groups_fetched(result: Option<Result<Vec<String>, CloudWatchClientError>>) -> (cmds: Vec<
    Command,
>)
    ensures
        commands_view(cmds@) == log_groups_commands(fetch_result_view(result)),
{
    let outcome = match result {
        Some(r) => r,
        None => {
            let mut v = Vec::new();
            v.push("Request timed out after 30 seconds".to_string());
            assert(v.deep_view() =~= seq!["Request timed out after 30 seconds"@]);
            Ok(v)
        },
    };
    let mut cmds: Vec<Command> = Vec::new();
    match outcome {
        Ok(groups) => {
            cmds.push(
                list_command(ServiceNavigatorEvent::UpdateContent(groups), WidgetType::AWSServiceNavigator),
            );
            cmds.push(
                list_command(
                    ServiceNavigatorEvent::UpdateTitle("Log Groups".to_string()),
                    WidgetType::AWSServiceNavigator,
                ),
            );
        },
        Err(err) => {
            let mut lines = Vec::new();
            let message = err.message();
            lines.push(join2("Error fetching log groups: ", message.as_str()));
            assert(lines.deep_view() =~= seq!["Error fetching log groups: "@ + err@.message()]);
            cmds.push(
                list_command(ServiceNavigatorEvent::UpdateContent(lines), WidgetType::AWSServiceNavigator),
            );
            cmds.push(
                list_command(
                    ServiceNavigatorEvent::UpdateTitle("Log Groups (Error)".to_string()),
                    WidgetType::AWSServiceNavigator,
                ),
            );
        },
    }
    assert(commands_view(cmds@) =~= log_groups_commands(fetch_result_view(result)));
    cmds
}

impl<C> CloudWatch<C> {
    /// Creates a new CloudWatch component
    pub fn new() -> (c: CloudWatch<C>)
        ensures
            c@ == CloudWatchView::initial(),
    {
        Self {
            base: AWSComponentBase::new(no_records()),
            cloudwatch_client: None,
            selected_log_group: None,
            time_range_input: InputBoxWidget::new(
                InputBoxType::TimeRange,
                "Time Range (e.g. 1h, 1d, 7d)",
                false,
            ),
            time_range: None,
        }
    }

    /// Assigns a CloudWatch client to this component
    pub fn set_client(&mut self, client: C)
        ensures
            final(self)@ == (CloudWatchView { has_client: true, ..old(self)@ }),
            final(self).client() == Some(client),
    {
        self.cloudwatch_client = Some(client);
    }

    pub closed spec fn client(&self) -> Option<C> {
        self.cloudwatch_client
    }

    /// The client the component uses, if it has one.
    pub fn get_client(&self) -> (c: Option<&C>)
        ensures
            match c {
                Some(x) => self.client() == Some(*x),
                None => self.client() is None,
            },
            c is Some == self@.has_client,
    {
        self.cloudwatch_client.as_ref()
    }

    /// The shared widgets, for rendering.
    pub fn base(&self) -> (b: &AWSComponentBase)
        ensures
            b@ == self@.base,
    {
        &self.base
    }

    /// The time-range input, for rendering.
    pub fn time_range_input(&self) -> (w: &InputBoxWidget)
        ensures
            w@ == self@.time_range_input,
    {
        &self.time_range_input
    }

    /// Updates focus for the time range input and other components
    fn update_time_range_focus(&mut self, activate: bool)
        ensures
            final(self)@ == old(self)@.with_time_range_focus(activate),
    {
        self.time_range_input.set_active(activate);
        self.base.input.set_active(!activate);
        self.base.navigator.set_active(!activate);
        self.base.results_navigator.set_active(!activate);
        if activate {
            self.base.current_focus = ComponentFocus::TimeRange;
        }
    }

    /// Focus on an area other than the time range.
    fn focus_on(&mut self, f: ComponentFocus)
        ensures
            final(self)@ == old(self)@.focused(f),
    {
        self.base.current_focus = f;
        self.update_time_range_focus(false);
        self.base.update_widget_states();
    }

    fn forward_key(&mut self, key_event: KeyEvent, clipboard: &mut ClipboardExchange) -> (r: Option<
        WidgetAction,
    >)
        requires
            old(self)@.accepts_key(key_event, old(clipboard).paste_view()),
        ensures
            final(self)@ == old(self)@.forwarded(key_event, old(clipboard).paste_view()),
            action_view(r) == old(self)@.forwarded_action(key_event, old(clipboard).paste_view()),
            final(clipboard).paste_text == old(clipboard).paste_text,
            final(clipboard).copy_view() == match old(self)@.forwarded_copy(key_event) {
                Some(t) => Some(t),
                None => old(clipboard).copy_view(),
            },
    {
        match self.base.current_focus {
            ComponentFocus::Navigation => self.base.navigator.handle_input(key_event),
            ComponentFocus::Input => self.base.input.handle_input(key_event, clipboard),
            ComponentFocus::TimeRange => self.time_range_input.handle_input(key_event, clipboard),
            ComponentFocus::Results => self.base.results_navigator.handle_input(key_event),
            ComponentFocus::NoFocus => None,
        }
    }

    /// Whether the component can take the key, given the clipboard.
    pub fn accepts_key(&self, key_event: KeyEvent, clipboard: &ClipboardExchange) -> (b: bool)
        ensures
            b == self@.accepts_key(key_event, clipboard.paste_view()),
    {
        match self.base.current_focus {
            ComponentFocus::Input => self.base.input.accepts_key(key_event, clipboard),
            ComponentFocus::TimeRange => self.time_range_input.accepts_key(key_event, clipboard),
            _ => true,
        }
    }

    /// Whether the component can take the action.
    pub fn accepts_action(&self, event: &CloudWatchComponentActions) -> (b: bool)
        ensures
            b == self@.accepts_action(event@),
    {
        match event {
            CloudWatchComponentActions::WidgetAction(w) => match w {
                WidgetAction::InputBoxEvent(_, t) => match t {
                    InputBoxType::Text => self.base.input.accepts_action(w),
                    InputBoxType::TimeRange => self.time_range_input.accepts_action(w),
                },
                _ => true,
            },
            _ => true,
        }
    }

    /// Handles keyboard input for the CloudWatch component
    #[verifier::rlimit(40)]
    pub fn handle_input(&mut self, key_event: KeyEvent, clipboard: &mut ClipboardExchange) -> (cmds:
        Vec<Command>)
        requires
            old(self)@.accepts_key(key_event, old(clipboard).paste_view()),
        ensures
            final(self)@ == old(self)@.after_key(key_event, old(clipboard).paste_view()),
            commands_view(cmds@) == old(self)@.key_commands(key_event, old(clipboard).paste_view()),
            final(clipboard).paste_text == old(clipboard).paste_text,
            final(clipboard).copy_view() == match old(self)@.key_copy(key_event) {
                Some(t) => Some(t),
                None => old(clipboard).copy_view(),
            },
    {
        let ghost v = self@;
        if self.base.details_popup.is_visible() {
            if let Some(signal) = self.base.details_popup.handle_input(key_event) {
                return one_command(cloudwatch_command(CloudWatchComponentActions::WidgetAction(signal)));
            }
        }
        let alt = key_event.modifiers.is_alt_only();
        let empty: Vec<Command> = Vec::new();
        assert(commands_view(empty@) =~= Seq::empty());
        match key_event.code {
            KeyCode::Tab => {
                return one_command(cloudwatch_command(CloudWatchComponentActions::NextFocus));
            },
            KeyCode::BackTab => {
                return one_command(cloudwatch_command(CloudWatchComponentActions::PreviousFocus));
            },
            KeyCode::Char(c) => {
                if alt && c == '1' {
                    self.focus_on(ComponentFocus::Navigation);
                    return empty;
                } else if alt && c == '2' {
                    self.focus_on(ComponentFocus::Input);
                    return empty;
                } else if alt && c == '3' {
                    self.update_time_range_focus(true);
                    return empty;
                } else if alt && c == '4' {
                    self.focus_on(ComponentFocus::Results);
                    return empty;
                }
            },
            KeyCode::Esc => {
                if self.base.current_focus != ComponentFocus::Navigation {
                    self.focus_on(ComponentFocus::Navigation);
                }
                return empty;
            },
            _ => {},
        }
        assert(v.forwards(key_event));
        match self.forward_key(key_event, clipboard) {
            Some(signal) => one_command(cloudwatch_command(CloudWatchComponentActions::WidgetAction(signal))),
            None => empty,
        }
    }

    /// Processes CloudWatch-specific component actions
    #[verifier::rlimit(40)]
    pub fn process_event(&mut self, event: CloudWatchComponentActions) -> (cmds: Vec<Command>)
        requires
            old(self)@.accepts_action(event@),
        ensures
            final(self)@ == old(self)@.after_action(event@),
            commands_view(cmds@) == old(self)@.action_commands(event@),
    {
        let mut cmds: Vec<Command> = Vec::new();
        assert(commands_view(cmds@) =~= Seq::empty());
        let has_client = self.cloudwatch_client.is_some();
        match event {
            CloudWatchComponentActions::SelectLogGroup(log_group) => {
                cmds = self.handle_log_group_selection(log_group);
            },
            CloudWatchComponentActions::SearchLogs(filter) => {
                if let Some(log_group) = &self.selected_log_group {
                    let time_range = match &self.time_range {
                        Some(t) => t.clone(),
                        None => "5m".to_string(),
                    };
                    cmds = fetch_logs(
                        has_client,
                        log_group.as_str(),
                        filter.as_str(),
                        time_range.as_str(),
                        "Search Results",
                    );
                }
            },
            CloudWatchComponentActions::SetTimeRange(time_range) => {
                cmds = self.set_time_range(time_range);
            },
            CloudWatchComponentActions::ViewLogDetails(log_content) => {
                self.view_log_details(log_content);
            },
            CloudWatchComponentActions::PopupDetails(details) => {
                self.view_log_details(details);
            },
            CloudWatchComponentActions::NextFocus => {
                if self.base.current_focus == ComponentFocus::TimeRange {
                    self.update_time_range_focus(false);
                    self.base.current_focus = ComponentFocus::Results;
                    self.base.update_widget_states();
                } else {
                    let prev_focus = self.base.current_focus;
                    self.base.current_focus = focus_after(self.base.current_focus);
                    if prev_focus != ComponentFocus::TimeRange && self.base.current_focus
                        == ComponentFocus::TimeRange {
                        self.update_time_range_focus(true);
                    } else {
                        self.base.update_widget_states();
                    }
                }
            },
            CloudWatchComponentActions::PreviousFocus => {
                if self.base.current_focus == ComponentFocus::TimeRange {
                    self.update_time_range_focus(false);
                    self.base.current_focus = ComponentFocus::Input;
                    self.base.update_widget_states();
                } else {
                    let prev_focus = self.base.current_focus;
                    self.base.current_focus = focus_before(self.base.current_focus);
                    if prev_focus != ComponentFocus::TimeRange && self.base.current_focus
                        == ComponentFocus::TimeRange {
                        self.update_time_range_focus(true);
                    } else {
                        self.base.update_widget_states();
                    }
                }
            },
            CloudWatchComponentActions::WidgetAction(widget_action) => {
                cmds = self.process_widget_action(widget_action);
            },
        }
        cmds
    }

    /// Selects a log group and fetches its recent events.
    fn handle_log_group_selection(&mut self, log_group: String) -> (cmds: Vec<Command>)
        ensures
            final(self)@ == old(self)@.after_action(
                CloudWatchComponentActionsView::SelectLogGroup(log_group@),
            ),
            commands_view(cmds@) == old(self)@.action_commands(
                CloudWatchComponentActionsView::SelectLogGroup(log_group@),
            ),
    {
        let has_client = self.cloudwatch_client.is_some();
        let time_range = match &self.time_range {
            Some(t) => t.clone(),
            None => "5m".to_string(),
        };
        let filter = self.base.input.text();
        let cmds = fetch_logs(
            has_client,
            log_group.as_str(),
            filter.as_str(),
            time_range.as_str(),
            "Log Events",
        );
        self.base.navigator.set_title(join2("Log Group: ", log_group.as_str()));
        self.selected_log_group = Some(log_group);
        cmds
    }

    /// Sets the time range and fetches the selected group's events again.
    fn set_time_range(&mut self, time_range: String) -> (cmds: Vec<Command>)
        ensures
            final(self)@ == old(self)@.after_action(
                CloudWatchComponentActionsView::SetTimeRange(time_range@),
            ),
            commands_view(cmds@) == old(self)@.action_commands(
                CloudWatchComponentActionsView::SetTimeRange(time_range@),
            ),
    {
        let has_client = self.cloudwatch_client.is_some();
        let mut cmds: Vec<Command> = Vec::new();
        assert(commands_view(cmds@) =~= Seq::empty());
        if let Some(log_group) = &self.selected_log_group {
            let filter = self.base.input.text();
            cmds = fetch_logs(
                has_client,
                log_group.as_str(),
                filter.as_str(),
                time_range.as_str(),
                "Search Results",
            );
        }
        self.time_range = Some(time_range);
        cmds
    }

    /// Shows a log entry in the details popup.
    fn view_log_details(&mut self, details: String)
        ensures
            final(self)@ == old(self)@.with_details(details@),
    {
        self.base.details_popup.set_content(PopupContent::Details(details));
        self.base.details_popup.set_visible(true);
        self.base.details_popup.set_active(true);
    }

    /// Routes an action of one of the component's widgets.
    fn process_widget_action(&mut self, widget_action: WidgetAction) -> (cmds: Vec<Command>)
        requires
            old(self)@.accepts_action(CloudWatchComponentActionsView::WidgetAction(widget_action@)),
        ensures
            final(self)@ == old(self)@.after_action(
                CloudWatchComponentActionsView::WidgetAction(widget_action@),
            ),
            commands_view(cmds@) == old(self)@.action_commands(
                CloudWatchComponentActionsView::WidgetAction(widget_action@),
            ),
    {
        let mut cmds: Vec<Command> = Vec::new();
        assert(commands_view(cmds@) =~= Seq::empty());
        match widget_action {
            WidgetAction::ServiceNavigatorEvent(nav_event, widget_type) => {
                let action = WidgetAction::ServiceNavigatorEvent(nav_event, widget_type);
                if widget_type == WidgetType::AWSServiceNavigator {
                    let signal = self.base.navigator.process_event(action);
                    if let Some(
                        WidgetAction::ServiceNavigatorEvent(
                            ServiceNavigatorEvent::ItemSelected(
                                WidgetEventType::RecordSelected(log_group),
                            ),
                            WidgetType::AWSServiceNavigator,
                        ),
                    ) = signal {
                        cmds = one_command(
                            cloudwatch_command(CloudWatchComponentActions::SelectLogGroup(log_group)),
                        );
                    }
                } else if widget_type == WidgetType::QueryResultsNavigator {
                    let signal = self.base.results_navigator.process_event(action);
                    if let Some(
                        WidgetAction::ServiceNavigatorEvent(
                            ServiceNavigatorEvent::ItemSelected(
                                WidgetEventType::RecordSelected(log_content),
                            ),
                            WidgetType::QueryResultsNavigator,
                        ),
                    ) = signal {
                        cmds = one_command(
                            cloudwatch_command(CloudWatchComponentActions::PopupDetails(log_content)),
                        );
                    }
                }
            },
            WidgetAction::InputBoxEvent(input_event, input_type) => {
                let action = WidgetAction::InputBoxEvent(input_event, input_type);
                match input_type {
                    InputBoxType::Text => {
                        let signal = self.base.input.process_event(action);
                        if let Some(WidgetAction::InputBoxEvent(InputBoxEvent::Written(content), _)) = signal {
                            if self.selected_log_group.is_some() {
                                cmds = one_command(
                                    cloudwatch_command(CloudWatchComponentActions::SearchLogs(content)),
                                );
                            }
                        }
                    },
                    InputBoxType::TimeRange => {
                        let signal = self.time_range_input.process_event(action);
                        if let Some(WidgetAction::InputBoxEvent(InputBoxEvent::Written(content), _)) = signal {
                            cmds = one_command(
                                cloudwatch_command(CloudWatchComponentActions::SetTimeRange(content)),
                            );
                        }
                    },
                }
            },
            WidgetAction::PopupAction(_) => {
                self.base.details_popup.set_visible(false);
                self.base.details_popup.set_active(false);
            },
            _ => {},
        }
        cmds
    }

    /// Sets the active state of this component; the time-range input always
    /// loses the focus.
    pub fn set_active(&mut self, active: bool)
        ensures
            final(self)@ == old(self)@.activated(active),
    {
        self.base.active = active;
        self.time_range_input.set_active(false);
        self.base.update_widget_states();
    }

    pub fn is_active(&self) -> (b: bool)
        ensures
            b == self@.base.active,
    {
        self.base.active
    }

    pub fn set_visible(&mut self, visible: bool)
        ensures
            final(self)@ == (CloudWatchView {
                base: BaseView { visible, ..old(self)@.base },
                ..old(self)@
            }),
    {
        self.base.visible = visible;
    }

    pub fn is_visible(&self) -> (b: bool)
        ensures
            b == self@.base.visible,
    {
        self.base.visible
    }

    /// Shows the loading state and asks for the log groups, where there is a client.
    pub fn update(&mut self) -> (cmds: Vec<Command>)
        ensures
            old(self)@.has_client ==> final(self)@ == old(self)@.loading_groups() && commands_view(
                cmds@,
            ) == seq![CommandView::ListLogGroups],
            !old(self)@.has_client ==> final(self)@ == old(self)@ && cmds@.len() == 0,
    {
        if self.cloudwatch_client.is_some() {
            self.base.navigator.set_title("Log Groups (Loading...)".to_string());
            let mut waiting = Vec::new();
            waiting.push("Fetching log groups, please wait...".to_string());
            assert(waiting.deep_view() =~= seq!["Fetching log groups, please wait..."@]);
            self.base.navigator.set_content(NavigatorContent::Records(waiting));
            self.base.results_navigator.set_content(no_records());
            self.base.results_navigator.set_title("Select a log group".to_string());
            one_command(Command::ListLogGroups)
        } else {
            Vec::new()
        }
    }

    pub fn get_current_focus(&self) -> (f: ComponentFocus)
        ensures
            f == self@.base.focus,
    {
        self.base.current_focus
    }

    /// Resets focus to the navigation pane
    pub fn reset_focus(&mut self)
        ensures
            final(self)@ == old(self)@.reset(),
    {
        self.focus_on(ComponentFocus::Navigation);
    }

    /// Moves the focus to the results, the last area in the cycle.
    pub fn set_focus_to_last(&mut self)
        ensures
            final(self)@ == old(self)@.focus_last(),
    {
        self.base.set_focus_to_last();
        self.base.update_widget_states();
    }

    pub fn get_help_items(&self) -> (items: Vec<(String, String)>)
        ensures
            items.deep_view() == self@.help_items(),
    {
        let mut items = Vec::new();
        if self.base.current_focus == ComponentFocus::TimeRange {
            items.push(("Enter".to_string(), "Apply time range".to_string()));
            items.push(("Time formats".to_string(), "15m, 1h, 1d, 7d".to_string()));
            items.push(("Esc".to_string(), "Return to navigation".to_string()));
        } else {
            items = self.base.get_help_items();
            items.push(("Alt+3".to_string(), "Time range".to_string()));
        }
        assert(items.deep_view() =~= self@.help_items());
        items
    }
}

/// Moving the focus forward and then back (or back and then forward) returns
/// it to the area it was on.
#[verifier::rlimit(40)]
pub proof fn lemma_cloudwatch_focus_round_trip(v: CloudWatchView)
    ensures
        v.after_action(CloudWatchComponentActionsView::NextFocus).after_action(
            CloudWatchComponentActionsView::PreviousFocus,
        ).base.focus == v.base.focus,
        v.after_action(CloudWatchComponentActionsView::PreviousFocus).after_action(
            CloudWatchComponentActionsView::NextFocus,
        ).base.focus == v.base.focus,
{
    assert(v.focus_moved_next().focus_moved_previous().base.focus == v.base.focus);
    assert(v.focus_moved_previous().focus_moved_next().base.focus == v.base.focus);
}

/// A search on the selected log group fetches with exactly the searched
/// pattern, in the time range set (five minutes when none is), under the title
/// "Search Results", and shows the pattern in the loading title.
pub proof fn lemma_search_uses_pattern(v: CloudWatchView, g: Seq<char>, f: Seq<char>)
    requires
        v.has_client,
        v.selected_log_group == Some(g),
    ensures
        v.action_commands(CloudWatchComponentActionsView::SearchLogs(f)).len() == 3,
        v.action_commands(CloudWatchComponentActionsView::SearchLogs(f))[2] == (CommandView::FetchLogs {
            log_group: g,
            filter: f,
            time_range: match v.time_range {
                Some(t) => t,
                None => "5m"@,
            },
            title: "Search Results"@,
        }),
        f.len() > 0 ==> v.action_commands(CloudWatchComponentActionsView::SearchLogs(f))[0]
            == to_list(
            ServiceNavigatorEventView::UpdateTitle("Search Results: "@ + f + " (Loading...)"@),
            WidgetType::QueryResultsNavigator,
        ),
{
    reveal_strlit("Search Results: ");
    reveal_strlit("Search Results");
    reveal_strlit(": ");
    assert("Search Results: "@ =~= "Search Results"@ + ": "@);
}

} // verus!
