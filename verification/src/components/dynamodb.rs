//! DynamoDB component: tables on the left, a partition-key and a sort-key
//! input, and the items a query returns.
use vstd::prelude::*;
use crate::components::{
    Command, CommandView, ComponentFocus, commands_view, dynamodb_command, one_command,
    send_dynamodb,
};
use crate::components::aws_base_component::{
    focus_after, focus_before, initial_details_popup, initial_input, initial_navigator,
    new_details_popup, next_focus, no_records, previous_focus,
};
use crate::event_managment::event::{
    DynamoDBComponentActions, DynamoDBComponentActionsView, InputBoxEvent, InputBoxEventView,
    InputBoxType, KeyCode, KeyEvent, ServiceNavigatorEvent, ServiceNavigatorEventView,
    WidgetAction, WidgetActionView, WidgetEventType, WidgetEventTypeView, WidgetType, action_view,
};
use crate::text::opt_text;
use crate::widgets::input_box::{ClipboardExchange, InputBoxView, InputBoxWidget};
use crate::widgets::popup::{PopupContent, PopupContentView, PopupView, PopupWidget};
use crate::widgets::service_navigator::{
    AWSServiceNavigator, ContentView, NavigatorContent, NavigatorView,
};

verus! {

/// Component for interacting with AWS DynamoDB
pub struct DynamoDB<C> {
    dynamodb_client: Option<C>,
    sort_key_input: InputBoxWidget,
    current_sub_focus: ComponentFocus,
    navigator: AWSServiceNavigator,
    input: InputBoxWidget,
    results_navigator: AWSServiceNavigator,
    details_popup: PopupWidget,
    active: bool,
    visible: bool,
    current_focus: ComponentFocus,
    selected_item: Option<String>,
    selected_query: Option<String>,
}

pub struct DynamoDBView {
    pub has_client: bool,
    pub sort_key_input: InputBoxView,
    pub sub_focus: ComponentFocus,
    pub navigator: NavigatorView,
    pub input: InputBoxView,
    pub results: NavigatorView,
    pub popup: PopupView,
    pub active: bool,
    pub visible: bool,
    pub focus: ComponentFocus,
    pub selected_item: Option<Seq<char>>,
    pub selected_query: Option<Seq<char>>,
}

impl<C> View for DynamoDB<C> {
    type V = DynamoDBView;

    closed spec fn view(&self) -> DynamoDBView {
        DynamoDBView {
            has_client: self.dynamodb_client is Some,
            sort_key_input: self.sort_key_input@,
            sub_focus: self.current_sub_focus,
            navigator: self.navigator@,
            input: self.input@,
            results: self.results_navigator@,
            popup: self.details_popup@,
            active: self.active,
            visible: self.visible,
            focus: self.current_focus,
            selected_item: opt_text(self.selected_item),
            selected_query: opt_text(self.selected_query),
        }
    }
}

pub open spec fn dyn_widget(a: Option<WidgetActionView>) -> Seq<CommandView> {
    match a {
        Some(w) => seq![send_dynamodb(DynamoDBComponentActionsView::WidgetActions(w))],
        None => Seq::empty(),
    }
}

impl DynamoDBView {
    /// The state after the component gains or loses the focus of the tab.
    pub open spec fn activated(self, active: bool) -> DynamoDBView {
        DynamoDBView { active, ..self }.with_widget_states()
    }

    /// The state with the focus back on the navigator and the partition key.
    pub open spec fn reset(self) -> DynamoDBView {
        DynamoDBView { sub_focus: ComponentFocus::Input, ..self }.focused(ComponentFocus::Navigation)
    }

    /// The state with the focus on the results, the last area.
    pub open spec fn focus_last(self) -> DynamoDBView {
        self.focused(ComponentFocus::Results)
    }

    /// The widgets' active flags follow the focus while the component is active.
    pub open spec fn with_widget_states(self) -> DynamoDBView {
        DynamoDBView {
            navigator: NavigatorView {
                active: self.active && self.focus == ComponentFocus::Navigation,
                ..self.navigator
            },
            input: InputBoxView {
                active: self.active && self.focus == ComponentFocus::Input,
                ..self.input
            },
            results: NavigatorView {
                active: self.active && self.focus == ComponentFocus::Results,
                ..self.results
            },
            ..self
        }
    }

    /// Gives the sort-key input the focus, or takes it away from it (and the
    /// keys of the input area go back to the partition-key input).
    pub open spec fn with_sort_key_focus(self, activate: bool) -> DynamoDBView {
        DynamoDBView {
            sort_key_input: InputBoxView { active: activate, ..self.sort_key_input },
            input: InputBoxView { active: !activate, ..self.input },
            navigator: NavigatorView { active: !activate, ..self.navigator },
            results: NavigatorView { active: !activate, ..self.results },
            sub_focus: if activate {
                ComponentFocus::TimeRange
            } else {
                ComponentFocus::Input
            },
            ..self
        }
    }

    /// Focus on an area other than the sort key.
    pub open spec fn focused(self, f: ComponentFocus) -> DynamoDBView {
        DynamoDBView { focus: f, ..self }.with_sort_key_focus(false).with_widget_states()
    }

    pub open spec fn popup_takes(self, key: KeyEvent) -> bool {
        self.popup.visible && self.popup.key_action(key) is Some
    }

    /// The digit of an Alt+digit shortcut, if the key is one of the four.
    pub open spec fn alt_digit(self, key: KeyEvent) -> Option<char> {
        if key.modifiers.spec_alt_only() {
            match key.code {
                KeyCode::Char(c) => if c == '1' || c == '2' || c == '3' || c == '4' {
                    Some(c)
                } else {
                    None
                },
                _ => None,
            }
        } else {
            None
        }
    }

    /// The input box that keys reach while the input area has the focus.
    pub open spec fn focused_input(self) -> InputBoxView {
        if self.sub_focus == ComponentFocus::TimeRange {
            self.sort_key_input
        } else {
            self.input
        }
    }

    /// The component can take the key: a paste into the focused input box
    /// needs room at its cursor.
    pub open spec fn accepts_key(self, key: KeyEvent, paste: Option<Seq<char>>) -> bool {
        self.focus == ComponentFocus::Input ==> self.focused_input().accepts_key(key, paste)
    }

    /// The component can take the action: an input-box event needs the box it
    /// goes to (the query box for text, the sort-key box otherwise) to accept it.
    pub open spec fn accepts_action(self, a: DynamoDBComponentActionsView) -> bool {
        match a {
            DynamoDBComponentActionsView::WidgetActions(w) => match w {
                WidgetActionView::InputBoxEvent(_, t) => if t == InputBoxType::Text {
                    self.input.accepts_action(w)
                } else {
                    self.sort_key_input.accepts_action(w)
                },
                _ => true,
            },
            _ => true,
        }
    }

    pub open spec fn forwards(self, key: KeyEvent) -> bool {
        !self.popup_takes(key) && self.alt_digit(key) is None && key.code != KeyCode::Tab
            && key.code != KeyCode::BackTab && key.code != KeyCode::Esc
    }

    pub open spec fn forwarded(self, key: KeyEvent, paste: Option<Seq<char>>) -> DynamoDBView {
        match self.focus {
            ComponentFocus::Navigation => DynamoDBView {
                navigator: self.navigator.after_key(key),
                ..self
            },
            ComponentFocus::Input => if self.sub_focus == ComponentFocus::TimeRange {
                DynamoDBView { sort_key_input: self.sort_key_input.after_key(key, paste), ..self }
            } else {
                DynamoDBView { input: self.input.after_key(key, paste), ..self }
            },
            ComponentFocus::Results => DynamoDBView { results: self.results.after_key(key), ..self },
            _ => self,
        }
    }

    pub open spec fn forwarded_action(self, key: KeyEvent, paste: Option<Seq<char>>) -> Option<
        WidgetActionView,
    > {
        match self.focus {
            ComponentFocus::Navigation => self.navigator.key_action(key),
            ComponentFocus::Input => if self.sub_focus == ComponentFocus::TimeRange {
                self.sort_key_input.key_action(key, paste)
            } else {
                self.input.key_action(key, paste)
            },
            ComponentFocus::Results => self.results.key_action(key),
            _ => None,
        }
    }

    pub open spec fn forwarded_copy(self, key: KeyEvent) -> Option<Seq<char>> {
        match self.focus {
            ComponentFocus::Input => if self.sub_focus == ComponentFocus::TimeRange {
                self.sort_key_input.key_copy(key)
            } else {
                self.input.key_copy(key)
            },
            _ => None,
        }
    }

    /// The state after a key press.
    pub open spec fn after_key(self, key: KeyEvent, paste: Option<Seq<char>>) -> DynamoDBView {
        if self.popup_takes(key) {
            self
        } else if let Some(d) = self.alt_digit(key) {
            if d == '1' {
                self.focused(ComponentFocus::Navigation)
            } else if d == '2' {
                self.focused(ComponentFocus::Input)
            } else if d == '3' {
                DynamoDBView { focus: ComponentFocus::Input, ..self }.with_sort_key_focus(true)
            } else {
                self.focused(ComponentFocus::Results)
            }
        } else if key.code == KeyCode::Esc {
            if self.focus != ComponentFocus::Navigation {
                self.focused(ComponentFocus::Navigation)
            } else {
                self
            }
        } else if self.forwards(key) {
            self.forwarded(key, paste)
        } else {
            self
        }
    }

    /// The commands a key press produces.
    pub open spec fn key_commands(self, key: KeyEvent, paste: Option<Seq<char>>) -> Seq<
        CommandView,
    > {
        if self.popup_takes(key) {
            dyn_widget(self.popup.key_action(key))
        } else if key.code == KeyCode::Tab {
            seq![send_dynamodb(DynamoDBComponentActionsView::NextFocus)]
        } else if key.code == KeyCode::BackTab {
            seq![send_dynamodb(DynamoDBComponentActionsView::PreviousFocus)]
        } else if self.forwards(key) {
            dyn_widget(self.forwarded_action(key, paste))
        } else {
            Seq::empty()
        }
    }

    pub open spec fn key_copy(self, key: KeyEvent) -> Option<Seq<char>> {
        if self.forwards(key) {
            self.forwarded_copy(key)
        } else {
            None
        }
    }

    /// The state after moving the focus forward.
    pub open spec fn focus_moved_next(self) -> DynamoDBView {
        if self.focus == ComponentFocus::TimeRange {
            DynamoDBView { focus: ComponentFocus::Results, ..self.with_sort_key_focus(false) }.with_widget_states()
        } else {
            let moved = DynamoDBView { focus: next_focus(self.focus), ..self };
            if moved.focus == ComponentFocus::TimeRange {
                moved.with_sort_key_focus(true)
            } else {
                moved.with_widget_states()
            }
        }
    }

    /// The state after moving the focus back.
    pub open spec fn focus_moved_previous(self) -> DynamoDBView {
        if self.focus == ComponentFocus::TimeRange {
            DynamoDBView { focus: ComponentFocus::Input, ..self.with_sort_key_focus(false) }.with_widget_states()
        } else {
            let moved = DynamoDBView { focus: previous_focus(self.focus), ..self };
            if moved.focus == ComponentFocus::TimeRange {
                moved.with_sort_key_focus(true)
            } else {
                moved.with_widget_states()
            }
        }
    }

    /// The state after a DynamoDB action.
    pub open spec fn after_action(self, a: DynamoDBComponentActionsView) -> DynamoDBView {
        match a {
            DynamoDBComponentActionsView::SetTitle(t) => DynamoDBView {
                navigator: NavigatorView { title: t, ..self.navigator },
                selected_item: Some(t),
                focus: next_focus(self.focus),
                ..self
            }.with_widget_states(),
            DynamoDBComponentActionsView::PopupDetails(d) => DynamoDBView {
                popup: PopupView {
                    content: PopupContentView::Details(d),
                    visible: true,
                    active: true,
                    ..self.popup
                },
                ..self
            },
            DynamoDBComponentActionsView::NextFocus => self.focus_moved_next(),
            DynamoDBComponentActionsView::PreviousFocus => self.focus_moved_previous(),
            DynamoDBComponentActionsView::SetQuery(pk) => DynamoDBView {
                results: NavigatorView { title: pk, ..self.results },
                selected_query: Some(pk),
                ..self
            }.focused(ComponentFocus::Results),
            DynamoDBComponentActionsView::WidgetActions(w) => match w {
                WidgetActionView::ServiceNavigatorEvent(_, wt) => if wt
                    == WidgetType::AWSServiceNavigator {
                    DynamoDBView { navigator: self.navigator.after_action(w), ..self }
                } else if wt == WidgetType::QueryResultsNavigator {
                    DynamoDBView { results: self.results.after_action(w), ..self }
                } else {
                    self
                },
                WidgetActionView::InputBoxEvent(_, t) => if t == InputBoxType::Text {
                    DynamoDBView { input: self.input.after_action(w), ..self }
                } else {
                    DynamoDBView { sort_key_input: self.sort_key_input.after_action(w), ..self }
                },
                WidgetActionView::PopupAction(_) => DynamoDBView {
                    popup: PopupView { visible: false, active: false, ..self.popup },
                    ..self
                },
                _ => self,
            },
            _ => self,
        }
    }

    /// The commands a DynamoDB action produces.
    pub open spec fn action_commands(self, a: DynamoDBComponentActionsView) -> Seq<CommandView> {
        match a {
            DynamoDBComponentActionsView::SetQuery(pk) => if self.has_client {
                match self.selected_item {
                    Some(table) => seq![
                        CommandView::QueryTable {
                            table,
                            partition_key: pk,
                            sort_key: self.sort_key_input.content_option(),
                        },
                    ],
                    None => Seq::empty(),
                }
            } else {
                Seq::empty()
            },
            DynamoDBComponentActionsView::WidgetActions(w) => match w {
                WidgetActionView::ServiceNavigatorEvent(_, wt) => if wt
                    == WidgetType::AWSServiceNavigator {
                    match self.navigator.action_result(w) {
                        Some(
                            WidgetActionView::ServiceNavigatorEvent(
                                ServiceNavigatorEventView::ItemSelected(
                                    WidgetEventTypeView::RecordSelected(t),
                                ),
                                WidgetType::AWSServiceNavigator,
                            ),
                        ) => seq![send_dynamodb(DynamoDBComponentActionsView::SetTitle(t))],
                        _ => Seq::empty(),
                    }
                } else if wt == WidgetType::QueryResultsNavigator {
                    match self.results.action_result(w) {
                        Some(
                            WidgetActionView::ServiceNavigatorEvent(
                                ServiceNavigatorEventView::ItemSelected(
                                    WidgetEventTypeView::RecordSelected(t),
                                ),
                                WidgetType::QueryResultsNavigator,
                            ),
                        ) => seq![send_dynamodb(DynamoDBComponentActionsView::PopupDetails(t))],
                        _ => Seq::empty(),
                    }
                } else {
                    Seq::empty()
                },
                WidgetActionView::InputBoxEvent(_, t) => if t == InputBoxType::Text {
                    match self.input.action_result(w) {
                        Some(
                            WidgetActionView::InputBoxEvent(InputBoxEventView::Written(content), _),
                        ) => seq![send_dynamodb(DynamoDBComponentActionsView::SetQuery(content))],
                        _ => Seq::empty(),
                    }
                } else {
                    match self.sort_key_input.action_result(w) {
                        Some(WidgetActionView::InputBoxEvent(InputBoxEventView::Written(_), _)) => {
                            match self.input.content_option() {
                                Some(pk) => seq![
                                    send_dynamodb(DynamoDBComponentActionsView::SetQuery(pk)),
                                ],
                                None => Seq::empty(),
                            }
                        },
                        _ => Seq::empty(),
                    }
                },
                _ => Seq::empty(),
            },
            _ => Seq::empty(),
        }
    }

    /// The keyboard help for the popup or for the focused area.
    pub open spec fn base_help_items(self) -> Seq<(Seq<char>, Seq<char>)> {
        if self.popup.visible {
            seq![("Esc"@, "Close details"@), ("PgUp/PgDn"@, "Scroll content"@)]
        } else {
            match self.focus {
                ComponentFocus::Navigation => seq![
                    ("Enter"@, "Select table"@),
                    ("Alt+2"@, "Focus query input"@),
                    ("Alt+4"@, "Focus results"@),
                ],
                ComponentFocus::Results => seq![
                    ("Enter"@, "View item details"@),
                    ("Alt+1"@, "Focus tables"@),
                    ("Alt+2"@, "Focus query input"@),
                ],
                ComponentFocus::Input => seq![
                    ("Enter"@, "Execute query"@),
                    ("Alt+1"@, "Focus tables"@),
                    ("Alt+4"@, "Focus results"@),
                ],
                _ => Seq::empty(),
            }
        }
    }

    pub open spec fn help_items(self) -> Seq<(Seq<char>, Seq<char>)> {
        self.base_help_items() + if self.focus == ComponentFocus::Input {
            if self.sub_focus == ComponentFocus::TimeRange {
                seq![("Alt+2"@, "Partition Key"@)]
            } else {
                seq![("Alt+3"@, "Sort Key"@)]
            }
        } else {
            Seq::empty()
        }
    }

    /// The component as it starts.
    pub open spec fn initial() -> DynamoDBView {
        DynamoDBView {
            has_client: false,
            sort_key_input: initial_input(InputBoxType::TimeRange, "Sort Key (if applicable)"@),
            sub_focus: ComponentFocus::Input,
            navigator: initial_navigator(
                WidgetType::AWSServiceNavigator,
                ContentView::Records(Seq::empty()),
            ),
            input: initial_input(InputBoxType::Text, "Query Input"@),
            results: initial_navigator(
                WidgetType::QueryResultsNavigator,
                ContentView::Records(Seq::empty()),
            ),
            popup: initial_details_popup(),
            active: false,
            visible: true,
            focus: ComponentFocus::Navigation,
            selected_item: None,
            selected_query: None,
        }
    }
}

impl<C> DynamoDB<C> {
    /// Creates a new DynamoDB component
    pub fn new() -> (d: DynamoDB<C>)
        ensures
            d@ == DynamoDBView::initial(),
    {
        Self {
            dynamodb_client: None,
            sort_key_input: InputBoxWidget::new(
                InputBoxType::TimeRange,
                "Sort Key (if applicable)",
                false,
            ),
            current_sub_focus: ComponentFocus::Input,
            navigator: AWSServiceNavigator::new(WidgetType::AWSServiceNavigator, false, no_records()),
            input: InputBoxWidget::new(InputBoxType::Text, "Query Input", false),
            results_navigator: AWSServiceNavigator::new(
                WidgetType::QueryResultsNavigator,
                false,
                no_records(),
            ),
            details_popup: new_details_popup(),
            active: false,
            visible: true,
            current_focus: ComponentFocus::Navigation,
            selected_item: None,
            selected_query: None,
        }
    }

    /// Assigns a DynamoDB client to this component
    pub fn set_client(&mut self, client: C)
        ensures
            final(self)@ == (DynamoDBView { has_client: true, ..old(self)@ }),
            final(self).client() == Some(client),
    {
        self.dynamodb_client = Some(client);
    }

    pub closed spec fn client(&self) -> Option<C> {
        self.dynamodb_client
    }

    /// The client the component uses, if it has one.
    pub fn get_client(&self) -> (c: Option<&C>)
        ensures
            match c {
                Some(x) => self.client() == Some(*x),
                None => self.client() is None,
            },
            c is Some == self@.has_client,
    {
        self.dynamodb_client.as_ref()
    }

    /// Updates active states of all widgets based on current focus
    fn update_widget_states(&mut self)
        ensures
            final(self)@ == old(self)@.with_widget_states(),
            final(self).client() == old(self).client(),
    {
        let active = self.active;
        let focus = self.current_focus;
        self.navigator.set_active(active && focus == ComponentFocus::Navigation);
        self.input.set_active(active && focus == ComponentFocus::Input);
        self.results_navigator.set_active(active && focus == ComponentFocus::Results);
    }

    /// Updates focus for sort key input and other components
    fn update_sort_key_focus(&mut self, activate: bool)
        ensures
            final(self)@ == old(self)@.with_sort_key_focus(activate),
            final(self).client() == old(self).client(),
    {
        self.sort_key_input.set_active(activate);
        self.input.set_active(!activate);
        self.navigator.set_active(!activate);
        self.results_navigator.set_active(!activate);
        if activate {
            self.current_sub_focus = ComponentFocus::TimeRange;
        } else {
            self.current_sub_focus = ComponentFocus::Input;
        }
    }

    /// Focus on an area other than the sort key.
    fn focus_on(&mut self, f: ComponentFocus)
        ensures
            final(self)@ == old(self)@.focused(f),
            final(self).client() == old(self).client(),
    {
        self.current_focus = f;
        self.update_sort_key_focus(false);
        self.update_widget_states();
    }

    /// Hands the key to the focused widget.
    fn forward_key(&mut self, key_event: KeyEvent, clipboard: &mut ClipboardExchange) -> (r: Option<
        WidgetAction,
    >)
        requires
            old(self)@.accepts_key(key_event, old(clipboard).paste_view()),
        ensures
            final(self)@ == old(self)@.forwarded(key_event, old(clipboard).paste_view()),
            action_view(r) == old(self)@.forwarded_action(key_event, old(clipboard).paste_view()),
            final(clipboard).paste_text == old(clipboard).paste_text,
            final(clipboard).copy_view() == match old(self)@.forwarded_copy(key_event) {
                Some(t) => Some(t),
                None => old(clipboard).copy_view(),
            },
            final(self).client() == old(self).client(),
    {
        match self.current_focus {
            ComponentFocus::Navigation => self.navigator.handle_input(key_event),
            ComponentFocus::Input => {
                if self.current_sub_focus == ComponentFocus::TimeRange {
                    self.sort_key_input.handle_input(key_event, clipboard)
                } else {
                    self.input.handle_input(key_event, clipboard)
                }
            },
            ComponentFocus::Results => self.results_navigator.handle_input(key_event),
            _ => None,
        }
    }

    /// Whether the component can take the key, given the clipboard.
    pub fn accepts_key(&self, key_event: KeyEvent, clipboard: &ClipboardExchange) -> (b: bool)
        ensures
            b == self@.accepts_key(key_event, clipboard.paste_view()),
    {
        if self.current_focus != ComponentFocus::Input {
            true
        } else if self.current_sub_focus == ComponentFocus::TimeRange {
            self.sort_key_input.accepts_key(key_event, clipboard)
        } else {
            self.input.accepts_key(key_event, clipboard)
        }
    }

    /// Whether the component can take the action.
    pub fn accepts_action(&self, event: &DynamoDBComponentActions) -> (b: bool)
        ensures
            b == self@.accepts_action(event@),
    {
        match event {
            DynamoDBComponentActions::WidgetActions(w) => match w {
                WidgetAction::InputBoxEvent(_, t) => match t {
                    InputBoxType::Text => self.input.accepts_action(w),
                    InputBoxType::TimeRange => self.sort_key_input.accepts_action(w),
                },
                _ => true,
            },
            _ => true,
        }
    }

    /// Handles keyboard input events
    #[verifier::rlimit(40)]
    pub fn handle_input(&mut self, key_event: KeyEvent, clipboard: &mut ClipboardExchange) -> (cmds:
        Vec<Command>)
        requires
            old(self)@.accepts_key(key_event, old(clipboard).paste_view()),
        ensures
            final(self)@ == old(self)@.after_key(key_event, old(clipboard).paste_view()),
            commands_view(cmds@) == old(self)@.key_commands(key_event, old(clipboard).paste_view()),
            final(clipboard).paste_text == old(clipboard).paste_text,
            final(clipboard).copy_view() == match old(self)@.key_copy(key_event) {
                Some(t) => Some(t),
                None => old(clipboard).copy_view(),
            },
            final(self).client() == old(self).client(),
    {
        let ghost v = self@;
        if self.details_popup.is_visible() {
            if let Some(signal) = self.details_popup.handle_input(key_event) {
                return one_command(dynamodb_command(DynamoDBComponentActions::WidgetActions(signal)));
            }
        }
        let alt = key_event.modifiers.is_alt_only();
        let mut empty: Vec<Command> = Vec::new();
        assert(commands_view(empty@) =~= Seq::empty());
        match key_event.code {
            KeyCode::Tab => {
                return one_command(dynamodb_command(DynamoDBComponentActions::NextFocus));
            },
            KeyCode::BackTab => {
                return one_command(dynamodb_command(DynamoDBComponentActions::PreviousFocus));
            },
            KeyCode::Char(c) => {
                if alt && c == '1' {
                    self.focus_on(ComponentFocus::Navigation);
                    return empty;
                } else if alt && c == '2' {
                    self.focus_on(ComponentFocus::Input);
                    return empty;
                } else if alt && c == '3' {
                    self.current_focus = ComponentFocus::Input;
                    self.update_sort_key_focus(true);
                    return empty;
                } else if alt && c == '4' {
                    self.focus_on(ComponentFocus::Results);
                    return empty;
                }
            },
            KeyCode::Esc => {
                if self.current_focus != ComponentFocus::Navigation {
                    self.focus_on(ComponentFocus::Navigation);
                }
                return empty;
            },
            _ => {},
        }
        assert(v.forwards(key_event));
        match self.forward_key(key_event, clipboard) {
            Some(signal) => one_command(dynamodb_command(DynamoDBComponentActions::WidgetActions(signal))),
            None => empty,
        }
    }

    /// Processes component-specific actions
    #[verifier::rlimit(40)]
    pub fn process_event(&mut self, event: DynamoDBComponentActions) -> (cmds: Vec<Command>)
        requires
            old(self)@.accepts_action(event@),
        ensures
            final(self)@ == old(self)@.after_action(event@),
            commands_view(cmds@) == old(self)@.action_commands(event@),
            final(self).client() == old(self).client(),
    {
        let mut cmds: Vec<Command> = Vec::new();
        assert(commands_view(cmds@) =~= Seq::empty());
        match event {
            DynamoDBComponentActions::SetTitle(title) => {
                self.navigator.set_title(title.clone());
                self.selected_item = Some(title);
                self.current_focus = focus_after(self.current_focus);
                self.update_widget_states();
            },
            DynamoDBComponentActions::PopupDetails(details) => {
                self.details_popup.set_content(PopupContent::Details(details));
                self.details_popup.set_visible(true);
                self.details_popup.set_active(true);
            },
            DynamoDBComponentActions::NextFocus => {
                if self.current_focus == ComponentFocus::TimeRange {
                    self.update_sort_key_focus(false);
                    self.current_focus = ComponentFocus::Results;
                    self.update_widget_states();
                } else {
                    let prev_focus = self.current_focus;
                    self.current_focus = focus_after(self.current_focus);
                    if prev_focus != ComponentFocus::TimeRange && self.current_focus
                        == ComponentFocus::TimeRange {
                        self.update_sort_key_focus(true);
                    } else {
                        self.update_widget_states();
                    }
                }
            },
            DynamoDBComponentActions::PreviousFocus => {
                if self.current_focus == ComponentFocus::TimeRange {
                    self.update_sort_key_focus(false);
                    self.current_focus = ComponentFocus::Input;
                    self.update_widget_states();
                } else {
                    let prev_focus = self.current_focus;
                    self.current_focus = focus_before(self.current_focus);
                    if prev_focus != ComponentFocus::TimeRange && self.current_focus
                        == ComponentFocus::TimeRange {
                        self.update_sort_key_focus(true);
                    } else {
                        self.update_widget_states();
                    }
                }
            },
            DynamoDBComponentActions::SetQuery(partition_key) => {
                self.results_navigator.set_title(partition_key.clone());
                self.selected_query = Some(partition_key.clone());
                if self.dynamodb_client.is_some() {
                    if let Some(selected_table) = &self.selected_item {
                        let sort_key = self.sort_key_input.get_content();
                        cmds = one_command(
                            Command::QueryTable {
                                table: selected_table.clone(),
                                partition_key,
                                sort_key,
                            },
                        );
                    }
                }
                self.focus_on(ComponentFocus::Results);
            },
            DynamoDBComponentActions::WidgetActions(widget_action) => {
                cmds = self.process_widget_action(widget_action);
            },
            _ => {},
        }
        cmds
    }

    /// Routes an action of one of the component's widgets.
    fn process_widget_action(&mut self, widget_action: WidgetAction) -> (cmds: Vec<Command>)
        requires
            old(self)@.accepts_action(DynamoDBComponentActionsView::WidgetActions(widget_action@)),
        ensures
            final(self)@ == old(self)@.after_action(
                DynamoDBComponentActionsView::WidgetActions(widget_action@),
            ),
            commands_view(cmds@) == old(self)@.action_commands(
                DynamoDBComponentActionsView::WidgetActions(widget_action@),
            ),
            final(self).client() == old(self).client(),
    {
        let mut cmds: Vec<Command> = Vec::new();
        assert(commands_view(cmds@) =~= Seq::empty());
        match widget_action {
            WidgetAction::ServiceNavigatorEvent(nav_event, widget_type) => {
                let action = WidgetAction::ServiceNavigatorEvent(nav_event, widget_type);
                if widget_type == WidgetType::AWSServiceNavigator {
                    let signal = self.navigator.process_event(action);
                    if let Some(
                        WidgetAction::ServiceNavigatorEvent(
                            ServiceNavigatorEvent::ItemSelected(WidgetEventType::RecordSelected(title)),
                            WidgetType::AWSServiceNavigator,
                        ),
                    ) = signal {
                        cmds = one_command(dynamodb_command(DynamoDBComponentActions::SetTitle(title)));
                    }
                } else if widget_type == WidgetType::QueryResultsNavigator {
                    let signal = self.results_navigator.process_event(action);
                    if let Some(
                        WidgetAction::ServiceNavigatorEvent(
                            ServiceNavigatorEvent::ItemSelected(WidgetEventType::RecordSelected(title)),
                            WidgetType::QueryResultsNavigator,
                        ),
                    ) = signal {
                        cmds = one_command(
                            dynamodb_command(DynamoDBComponentActions::PopupDetails(title)),
                        );
                    }
                }
            },
            WidgetAction::InputBoxEvent(input_event, input_type) => {
                let action = WidgetAction::InputBoxEvent(input_event, input_type);
                match input_type {
                    InputBoxType::Text => {
                        let signal = self.input.process_event(action);
                        if let Some(WidgetAction::InputBoxEvent(InputBoxEvent::Written(content), _)) = signal {
                            cmds = one_command(
                                dynamodb_command(DynamoDBComponentActions::SetQuery(content)),
                            );
                        }
                    },
                    InputBoxType::TimeRange => {
                        let signal = self.sort_key_input.process_event(action);
                        if let Some(WidgetAction::InputBoxEvent(InputBoxEvent::Written(_), _)) = signal {
                            if let Some(partition_key) = self.input.get_content() {
                                cmds = one_command(
                                    dynamodb_command(DynamoDBComponentActions::SetQuery(partition_key)),
                                );
                            }
                        }
                    },
                }
            },
            WidgetAction::PopupAction(_) => {
                self.details_popup.set_visible(false);
                self.details_popup.set_active(false);
            },
            _ => {},
        }
        cmds
    }

    /// Sets focus to the last widget in the component: the results.
    pub fn set_focus_to_last(&mut self)
        ensures
            final(self)@ == old(self)@.focus_last(),
            final(self).client() == old(self).client(),
    {
        self.focus_on(ComponentFocus::Results);
    }

    /// Sets the active state of this component
    pub fn set_active(&mut self, active: bool)
        ensures
            final(self)@ == old(self)@.activated(active),
            final(self).client() == old(self).client(),
    {
        self.active = active;
        self.update_widget_states();
    }

    pub fn is_active(&self) -> (b: bool)
        ensures
            b == self@.active,
    {
        self.active
    }

    pub fn set_visible(&mut self, visible: bool)
        ensures
            final(self)@ == (DynamoDBView { visible, ..old(self)@ }),
            final(self).client() == old(self).client(),
    {
        self.visible = visible;
    }

    pub fn is_visible(&self) -> (b: bool)
        ensures
            b == self@.visible,
    {
        self.visible
    }

    /// The requests that refresh the component: the table list, where there is a client.
    pub fn update(&self) -> (cmds: Vec<Command>)
        ensures
            commands_view(cmds@) == if self@.has_client {
                seq![CommandView::ListTables]
            } else {
                Seq::<CommandView>::empty()
            },
    {
        if self.dynamodb_client.is_some() {
            one_command(Command::ListTables)
        } else {
            let v: Vec<Command> = Vec::new();
            assert(commands_view(v@) =~= Seq::empty());
            v
        }
    }

    /// Shows the table list that arrived; a failed listing is handed back unchanged.
    pub fn tables_listed(&mut self, result: Result<Vec<String>, String>) -> (r: Result<(), String>)
        ensures
            match result {
                Ok(t) => r is Ok && final(self)@ == (DynamoDBView {
                    navigator: old(self)@.navigator.with_content(ContentView::Records(t.deep_view())),
                    ..old(self)@
                }),
                Err(e) => r == Err::<(), String>(e) && final(self)@ == old(self)@,
            },
            final(self).client() == old(self).client(),
    {
        match result {
            Ok(tables) => {
                self.navigator.set_content(NavigatorContent::Records(tables));
                Ok(())
            },
            Err(e) => Err(e),
        }
    }

    /// Shows the items a query returned, or an error line.
    pub fn query_completed(&mut self, result: Result<Vec<String>, String>)
        ensures
            final(self)@ == (DynamoDBView {
                results: old(self)@.results.with_content(
                    ContentView::Records(
                        match result {
                            Ok(items) => items.deep_view(),
                            Err(_) => seq!["Query error"@],
                        },
                    ),
                ),
                ..old(self)@
            }),
            final(self).client() == old(self).client(),
    {
        let items = match result {
            Ok(items) => items,
            Err(_) => {
                let mut v = Vec::new();
                v.push("Query error".to_string());
                assert(v.deep_view() =~= seq!["Query error"@]);
                v
            },
        };
        self.results_navigator.set_content(NavigatorContent::Records(items));
    }

    pub fn get_current_focus(&self) -> (f: ComponentFocus)
        ensures
            f == self@.focus,
    {
        self.current_focus
    }

    /// Resets focus to the navigation pane
    pub fn reset_focus(&mut self)
        ensures
            final(self)@ == old(self)@.reset(),
            final(self).client() == old(self).client(),
    {
        self.current_sub_focus = ComponentFocus::Input;
        self.focus_on(ComponentFocus::Navigation);
    }

    /// Returns contextual help items based on current component state
    fn get_base_help_items(&self) -> (items: Vec<(String, String)>)
        ensures
            items.deep_view() == self@.base_help_items(),
    {
        let mut items = Vec::new();
        if self.details_popup.is_visible() {
            items.push(("Esc".to_string(), "Close details".to_string()));
            items.push(("PgUp/PgDn".to_string(), "Scroll content".to_string()));
            assert(items.deep_view() =~= self@.base_help_items());
            return items;
        }
        match self.current_focus {
            ComponentFocus::Navigation => {
                items.push(("Enter".to_string(), "Select table".to_string()));
                items.push(("Alt+2".to_string(), "Focus query input".to_string()));
                items.push(("Alt+4".to_string(), "Focus results".to_string()));
            },
            ComponentFocus::Results => {
                items.push(("Enter".to_string(), "View item details".to_string()));
                items.push(("Alt+1".to_string(), "Focus tables".to_string()));
                items.push(("Alt+2".to_string(), "Focus query input".to_string()));
            },
            ComponentFocus::Input => {
                items.push(("Enter".to_string(), "Execute query".to_string()));
                items.push(("Alt+1".to_string(), "Focus tables".to_string()));
                items.push(("Alt+4".to_string(), "Focus results".to_string()));
            },
            _ => {},
        }
        assert(items.deep_view() =~= self@.base_help_items());
        items
    }

    pub fn get_help_items(&self) -> (items: Vec<(String, String)>)
        ensures
            items.deep_view() == self@.help_items(),
    {
        let mut help_items = self.get_base_help_items();
        let ghost base = help_items.deep_view();
        if self.current_focus == ComponentFocus::Input {
            if self.current_sub_focus == ComponentFocus::TimeRange {
                help_items.push(("Alt+2".to_string(), "Partition Key".to_string()));
            } else {
                help_items.push(("Alt+3".to_string(), "Sort Key".to_string()));
            }
        }
        assert(help_items.deep_view() =~= self@.help_items());
        help_items
    }

    /// The widgets, for rendering: tables, partition key, sort key, results, popup.
    pub fn widgets(&self) -> (w: (
        &AWSServiceNavigator,
        &InputBoxWidget,
        &InputBoxWidget,
        &AWSServiceNavigator,
        &PopupWidget,
    ))
        ensures
            w.0@ == self@.navigator,
            w.1@ == self@.input,
            w.2@ == self@.sort_key_input,
            w.3@ == self@.results,
            w.4@ == self@.popup,
    {
        (
            &self.navigator,
            &self.input,
            &self.sort_key_input,
            &self.results_navigator,
            &self.details_popup,
        )
    }
}

/// Moving the focus forward and then back (or back and then forward) returns
/// it to the area it was on.
pub proof fn lemma_dynamodb_focus_round_trip(v: DynamoDBView)
    ensures
        v.after_action(DynamoDBComponentActionsView::NextFocus).after_action(
            DynamoDBComponentActionsView::PreviousFocus,
        ).focus == v.focus,
        v.after_action(DynamoDBComponentActionsView::PreviousFocus).after_action(
            DynamoDBComponentActionsView::NextFocus,
        ).focus == v.focus,
{
}

/// Going back from the sort-key input returns to the partition-key input: the
/// input area has the focus, the sort-key input does not, and typed keys go to
/// the partition-key input.
pub proof fn lemma_back_to_partition_key(v: DynamoDBView)
    requires
        v.focus == ComponentFocus::TimeRange,
    ensures
        v.after_action(DynamoDBComponentActionsView::PreviousFocus).focus == ComponentFocus::Input,
        v.after_action(DynamoDBComponentActionsView::PreviousFocus).sub_focus == ComponentFocus::Input,
        !v.after_action(DynamoDBComponentActionsView::PreviousFocus).sort_key_input.active,
        v.after_action(DynamoDBComponentActionsView::PreviousFocus).focused_input()
            == v.after_action(DynamoDBComponentActionsView::PreviousFocus).input,
{
}

/// A query asks for the selected table by the given partition key, refined by
/// the sort key the sort-key box holds: `Some` of its text when it holds any,
/// `None` when it is empty.
pub proof fn lemma_query_uses_sort_key_box(v: DynamoDBView, table: Seq<char>, pk: Seq<char>)
    requires
        v.has_client,
        v.selected_item == Some(table),
    ensures
        v.sort_key_input.content.len() > 0 ==> v.action_commands(
            DynamoDBComponentActionsView::SetQuery(pk),
        ) == seq![
            CommandView::QueryTable {
                table,
                partition_key: pk,
                sort_key: Some(v.sort_key_input.content),
            },
        ],
        v.sort_key_input.content.len() == 0 ==> v.action_commands(
            DynamoDBComponentActionsView::SetQuery(pk),
        ) == seq![CommandView::QueryTable { table, partition_key: pk, sort_key: None }],
{
}

} // verus!
