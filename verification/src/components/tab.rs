//! A tab: a profile popup, the list of services on the left, and the three
//! service components on the right, one of them active.
use vstd::prelude::*;
use crate::components::{
    Command, CommandView, ComponentFocus, commands_view, one_command, send_cloudwatch,
    send_dynamodb, send_s3, send_tab, cloudwatch_command, dynamodb_command, s3_command,
    widget_command,
};
use crate::components::cloudwatch::{CloudWatch, CloudWatchView};
use crate::components::dynamodb::{DynamoDB, DynamoDBView};
use crate::components::s3::{S3Component, S3View};
use crate::event_managment::event::{
    CloudWatchComponentActions, CloudWatchComponentActionsView, ComponentActions,
    ComponentActionsView, DynamoDBComponentActions, DynamoDBComponentActionsView, Event, KeyCode,
    KeyEvent, PopupAction, PopupActionView, S3ComponentActions, S3ComponentActionsView,
    ServiceNavigatorEvent, ServiceNavigatorEventView, TabAction, TabActionView, TabEvent,
    TabEventView, WidgetAction, WidgetActionView, WidgetEventType, WidgetEventTypeView, WidgetType,
};
use crate::services::aws::s3_client::S3ClientError;
use crate::services::aws::tab_clients::{TabClients, TabClientsView};
use crate::widgets::Area;
use crate::widgets::aws_service_navigator::{AWSServiceNavigator, ListNavigatorView};
use crate::widgets::input_box::ClipboardExchange;
use crate::widgets::popup::{PopupContent, PopupContentView, PopupView, PopupWidget};
use crate::widgets::service_navigator::{ContentView, NavigatorContent};

verus! {

/// Height of the tab bar.
pub const TAB_HEIGHT: u16 = 3;

/// Distance of the profile popup from the edges of the content area.
pub const POPUP_PADDING: u16 = 5;

/// Height of the help toolbar.
pub const HELP_HEIGHT: u16 = 2;

/// The region every tab's clients use.
pub open spec fn default_region() -> Seq<char> {
    "eu-west-1"@
}

/// Work whose result the caller hands back to the tab.
pub enum Completion<S, D, W> {
    /// A client was created for the S3 component.
    S3ClientCreated(S),
    /// A client was created for the DynamoDB component.
    DynamoDBClientCreated(D),
    /// A client was created for the CloudWatch component.
    CloudWatchClientCreated(W),
    /// The bucket listing finished.
    BucketsListed(Result<Vec<String>, S3ClientError>),
    /// An object listing finished; it is shown under `title`.
    ObjectsListed { title: String, result: Result<Vec<String>, S3ClientError> },
    /// Object details arrived.
    ObjectDetailsLoaded(Result<String, S3ClientError>),
    /// The table listing finished.
    TablesListed(Result<Vec<String>, String>),
    /// A query finished.
    QueryCompleted(Result<Vec<String>, String>),
}

/// Indicates which side of the tab is currently in focus
#[derive(Debug, Clone, Copy, PartialEq, Eq, Structural)]
pub enum TabFocus {
    /// Service navigator is focused
    Left,
    /// Service component is focused
    Right,
}

/// Represents a tab within the application containing AWS service components
pub struct Tab<S, D, W> {
    /// Display name for the tab (usually AWS profile name)
    pub name: String,
    popup_mod: bool,
    popup_widget: PopupWidget,
    s3: S3Component<S>,
    dynamodb: DynamoDB<D>,
    cloudwatch: CloudWatch<W>,
    left_widgets: AWSServiceNavigator,
    active_right_widget: WidgetType,
    current_focus: TabFocus,
    aws_clients: TabClients<S, D, W>,
}

pub struct TabView<S, D, W> {
    pub name: Seq<char>,
    pub popup_mod: bool,
    pub popup: PopupView,
    pub s3: S3View,
    pub dynamodb: DynamoDBView,
    pub cloudwatch: CloudWatchView,
    pub left: ListNavigatorView,
    pub active: WidgetType,
    pub focus: TabFocus,
    pub clients: TabClientsView<S, D, W>,
}

impl<S, D, W> View for Tab<S, D, W> {
    type V = TabView<S, D, W>;

    closed spec fn view(&self) -> TabView<S, D, W> {
        TabView {
            name: self.name@,
            popup_mod: self.popup_mod,
            popup: self.popup_widget@,
            s3: self.s3@,
            dynamodb: self.dynamodb@,
            cloudwatch: self.cloudwatch@,
            left: self.left_widgets@,
            active: self.active_right_widget,
            focus: self.current_focus,
            clients: self.aws_clients@,
        }
    }
}

/// Alt+P: the key that opens the profile popup.
pub open spec fn opens_profiles(key: KeyEvent) -> bool {
    key.code == KeyCode::Char('p') && key.modifiers.spec_alt_only()
}

pub open spec fn tab_widget(a: Option<WidgetActionView>) -> Seq<CommandView> {
    match a {
        Some(w) => seq![send_tab(TabEventView::WidgetActions(w))],
        None => Seq::empty(),
    }
}

pub open spec fn tab_action(a: TabActionView) -> CommandView {
    send_tab(TabEventView::TabAction(a))
}

/// The services listed on the left of every tab.
pub open spec fn service_list() -> ContentView {
    ContentView::Services(
        seq![WidgetEventTypeView::S3, WidgetEventTypeView::DynamoDB, WidgetEventTypeView::CloudWatch],
    )
}

impl<S, D, W> TabView<S, D, W> {
    /// A tab as it opens: the profile popup over the service list, DynamoDB
    /// active, no clients yet.
    pub open spec fn initial(name: Seq<char>, content: Seq<char>, profiles: Seq<Seq<char>>) -> TabView<S, D, W> {
        TabView {
            name,
            popup_mod: true,
            popup: PopupView {
                content: PopupContentView::Profiles(profiles),
                title: content,
                selected_item: None,
                selection_index: 0,
                active: true,
                visible: true,
            },
            s3: S3View::initial(),
            dynamodb: DynamoDBView::initial(),
            cloudwatch: CloudWatchView::initial(),
            left: ListNavigatorView {
                title: "AWS Services"@,
                widget_type: WidgetType::AWSServiceNavigator,
                content: service_list(),
                selected: 0,
                scroll: 0,
                active: false,
                visible: true,
            },
            active: WidgetType::DynamoDB,
            focus: TabFocus::Left,
            clients: TabClientsView {
                s3: None,
                dynamodb: None,
                cloudwatch: None,
                profile: Seq::empty(),
                region: default_region(),
            },
        }
    }

    /// A component is on the right for the active service.
    pub open spec fn has_right(self) -> bool {
        self.active == WidgetType::S3 || self.active == WidgetType::DynamoDB || self.active
            == WidgetType::CloudWatch
    }

    /// The focus inside the active component.
    pub open spec fn right_focus(self) -> ComponentFocus {
        if self.active == WidgetType::S3 {
            self.s3.base.focus
        } else if self.active == WidgetType::DynamoDB {
            self.dynamodb.focus
        } else {
            self.cloudwatch.base.focus
        }
    }

    /// The active component gains or loses the focus.
    pub open spec fn right_activated(self, active: bool) -> TabView<S, D, W> {
        if self.active == WidgetType::S3 {
            TabView { s3: self.s3.activated(active), ..self }
        } else if self.active == WidgetType::DynamoDB {
            TabView { dynamodb: self.dynamodb.activated(active), ..self }
        } else if self.active == WidgetType::CloudWatch {
            TabView { cloudwatch: self.cloudwatch.activated(active), ..self }
        } else {
            self
        }
    }

    /// The active component's focus goes back to its navigator.
    pub open spec fn right_reset(self) -> TabView<S, D, W> {
        if self.active == WidgetType::S3 {
            TabView { s3: self.s3.reset(), ..self }
        } else if self.active == WidgetType::DynamoDB {
            TabView { dynamodb: self.dynamodb.reset(), ..self }
        } else if self.active == WidgetType::CloudWatch {
            TabView { cloudwatch: self.cloudwatch.reset(), ..self }
        } else {
            self
        }
    }

    /// The active component's focus moves to its results.
    pub open spec fn right_focus_last(self) -> TabView<S, D, W> {
        if self.active == WidgetType::S3 {
            TabView { s3: self.s3.focus_last(), ..self }
        } else if self.active == WidgetType::DynamoDB {
            TabView { dynamodb: self.dynamodb.focus_last(), ..self }
        } else if self.active == WidgetType::CloudWatch {
            TabView { cloudwatch: self.cloudwatch.focus_last(), ..self }
        } else {
            self
        }
    }

    /// The event that moves the focus inside the active component.
    pub open spec fn right_focus_command(self, forward: bool) -> Seq<CommandView> {
        if self.active == WidgetType::S3 {
            seq![
                send_s3(
                    if forward {
                        S3ComponentActionsView::NextFocus
                    } else {
                        S3ComponentActionsView::PreviousFocus
                    },
                ),
            ]
        } else if self.active == WidgetType::DynamoDB {
            seq![
                send_dynamodb(
                    if forward {
                        DynamoDBComponentActionsView::NextFocus
                    } else {
                        DynamoDBComponentActionsView::PreviousFocus
                    },
                ),
            ]
        } else if self.active == WidgetType::CloudWatch {
            seq![
                send_cloudwatch(
                    if forward {
                        CloudWatchComponentActionsView::NextFocus
                    } else {
                        CloudWatchComponentActionsView::PreviousFocus
                    },
                ),
            ]
        } else {
            Seq::empty()
        }
    }

    /// The state after the focus moves forward: from the services to the
    /// component, through the component, and back to the services after it.
    pub open spec fn after_next_focus(self) -> TabView<S, D, W> {
        if self.focus == TabFocus::Left {
            TabView { focus: TabFocus::Right, ..self }.right_activated(true)
        } else if self.has_right() {
            if self.right_focus() == ComponentFocus::NoFocus {
                TabView { focus: TabFocus::Left, ..self }.right_reset().right_activated(false)
            } else {
                self.right_activated(true)
            }
        } else {
            self
        }
    }

    pub open spec fn next_focus_commands(self) -> Seq<CommandView> {
        if self.focus == TabFocus::Right && self.has_right() && self.right_focus()
            != ComponentFocus::NoFocus {
            self.right_focus_command(true)
        } else {
            Seq::empty()
        }
    }

    /// The state after the focus moves back.
    pub open spec fn after_previous_focus(self) -> TabView<S, D, W> {
        if self.focus == TabFocus::Right {
            if self.has_right() && self.right_focus() == ComponentFocus::Navigation {
                TabView { focus: TabFocus::Left, ..self }.right_activated(false)
            } else {
                self
            }
        } else {
            TabView { focus: TabFocus::Right, ..self }.right_activated(true).right_focus_last()
        }
    }

    pub open spec fn previous_focus_commands(self) -> Seq<CommandView> {
        if self.focus == TabFocus::Right && self.has_right() && self.right_focus()
            != ComponentFocus::Navigation {
            self.right_focus_command(false)
        } else {
            Seq::empty()
        }
    }

    /// The state after choosing a profile: the tab takes its name, the popup
    /// closes, and the clients follow the profile.
    pub open spec fn with_profile(self, p: Seq<char>) -> TabView<S, D, W> {
        TabView { name: p, popup_mod: false, clients: self.clients.with_profile(p), ..self }
    }

    /// The service that a selection on the left makes active.
    pub open spec fn selected_service(s: WidgetEventTypeView) -> Option<WidgetType> {
        match s {
            WidgetEventTypeView::S3 => Some(WidgetType::S3),
            WidgetEventTypeView::DynamoDB => Some(WidgetType::DynamoDB),
            WidgetEventTypeView::CloudWatch => Some(WidgetType::CloudWatch),
            _ => None,
        }
    }

    /// The tab can take the event: moving down in the profile popup needs a profile.
    pub open spec fn accepts(self, e: TabEventView) -> bool {
        match e {
            TabEventView::WidgetActions(w) => (w is PopupAction && self.popup_mod)
                ==> self.popup.accepts(w),
            TabEventView::ComponentActions(c) => self.accepts_component_action(c),
            _ => true,
        }
    }

    /// The active component can take a component action addressed to it.
    pub open spec fn accepts_component_action(self, c: ComponentActionsView) -> bool {
        match c {
            ComponentActionsView::S3ComponentActions(a) => self.active == WidgetType::S3
                ==> self.s3.accepts_action(a),
            ComponentActionsView::DynamoDBComponentActions(a) => self.active == WidgetType::DynamoDB
                ==> self.dynamodb.accepts_action(a),
            ComponentActionsView::CloudWatchComponentActions(a) => self.active
                == WidgetType::CloudWatch ==> self.cloudwatch.accepts_action(a),
        }
    }

    /// The tab can take the key: a key that reaches the active component must
    /// be one it can take (a paste needs room in the focused input box).
    pub open spec fn accepts_key(self, event: KeyEvent, paste: Option<Seq<char>>) -> bool {
        (!opens_profiles(event) && !self.popup_mod && event.code != KeyCode::Tab && event.code
            != KeyCode::BackTab && self.focus == TabFocus::Right) ==> {
            &&& self.active == WidgetType::S3 ==> self.s3.accepts_key(event, paste)
            &&& self.active == WidgetType::DynamoDB ==> self.dynamodb.accepts_key(event, paste)
            &&& self.active == WidgetType::CloudWatch ==> self.cloudwatch.accepts_key(event, paste)
        }
    }

    /// The state after a key press, given what the clipboard holds: the open
    /// popup and the focus keys leave the tab as it is; other keys go to the
    /// focused side.
    pub open spec fn after_key(self, event: KeyEvent, paste: Option<Seq<char>>) -> TabView<S, D, W> {
        if opens_profiles(event) {
            TabView {
                popup_mod: true,
                popup: PopupView { visible: true, active: true, ..self.popup },
                ..self
            }
        } else if self.popup_mod || event.code == KeyCode::Tab || event.code == KeyCode::BackTab {
            self
        } else if self.focus == TabFocus::Left {
            TabView { left: self.left.after_key(event), ..self }
        } else if self.active == WidgetType::S3 {
            TabView { s3: self.s3.after_key(event, paste), ..self }
        } else if self.active == WidgetType::DynamoDB {
            TabView { dynamodb: self.dynamodb.after_key(event, paste), ..self }
        } else if self.active == WidgetType::CloudWatch {
            TabView { cloudwatch: self.cloudwatch.after_key(event, paste), ..self }
        } else {
            self
        }
    }

    /// The commands a key press produces: the popup's action while it is
    /// open, a focus change for Tab and BackTab, else those of the focused side.
    pub open spec fn key_commands(self, event: KeyEvent, paste: Option<Seq<char>>) -> Seq<CommandView> {
        if opens_profiles(event) {
            Seq::empty()
        } else if self.popup_mod {
            self.popup_key_commands(event)
        } else if event.code == KeyCode::Tab {
            seq![tab_action(TabActionView::NextFocus)]
        } else if event.code == KeyCode::BackTab {
            seq![tab_action(TabActionView::PreviousFocus)]
        } else if self.focus == TabFocus::Left {
            tab_widget(self.left.key_action(event))
        } else if self.active == WidgetType::S3 {
            self.s3.key_commands(event, paste)
        } else if self.active == WidgetType::DynamoDB {
            self.dynamodb.key_commands(event, paste)
        } else if self.active == WidgetType::CloudWatch {
            self.cloudwatch.key_commands(event, paste)
        } else {
            Seq::empty()
        }
    }

    /// What a key press puts on the clipboard, if anything.
    pub open spec fn key_copy(self, event: KeyEvent) -> Option<Seq<char>> {
        if opens_profiles(event) || self.popup_mod || event.code == KeyCode::Tab || event.code
            == KeyCode::BackTab || self.focus == TabFocus::Left {
            None
        } else if self.active == WidgetType::S3 {
            self.s3.key_copy(event)
        } else if self.active == WidgetType::DynamoDB {
            self.dynamodb.key_copy(event)
        } else if self.active == WidgetType::CloudWatch {
            self.cloudwatch.key_copy(event)
        } else {
            None
        }
    }

    /// The state after a key press while the profile popup is open: the popup
    /// does not change on a key; it reports an action.
    pub open spec fn popup_key_commands(self, key: KeyEvent) -> Seq<CommandView> {
        tab_widget(self.popup.key_action(key))
    }

    /// The keyboard help for the popup, or for the focused side.
    pub open spec fn help_items(self) -> Seq<(Seq<char>, Seq<char>)> {
        if self.popup_mod {
            self.popup.help_items()
        } else {
            (if self.focus == TabFocus::Left {
                self.left.help_items()
            } else if self.active == WidgetType::S3 {
                self.s3.base.help_items()
            } else if self.active == WidgetType::DynamoDB {
                self.dynamodb.help_items()
            } else if self.active == WidgetType::CloudWatch {
                self.cloudwatch.help_items()
            } else {
                Seq::empty()
            }) + seq![("Tab"@, "Switch focus"@)]
        }
    }
}

/// The area below the tab bar.
pub fn get_content_area(area: Area) -> (r: Area)
    requires
        area.height >= TAB_HEIGHT,
        area.y + TAB_HEIGHT <= u16::MAX,
    ensures
        r == (Area {
            x: area.x,
            y: (area.y + TAB_HEIGHT) as u16,
            width: area.width,
            height: (area.height - TAB_HEIGHT) as u16,
        }),
{
    Area { x: area.x, y: area.y + TAB_HEIGHT, width: area.width, height: area.height - TAB_HEIGHT }
}

/// The area of the profile popup: the content area less the padding on every side.
pub fn calculate_popup_area(base_area: Area) -> (r: Area)
    requires
        base_area.x + POPUP_PADDING <= u16::MAX,
        base_area.y + POPUP_PADDING <= u16::MAX,
        base_area.width >= 2 * POPUP_PADDING,
        base_area.height >= 2 * POPUP_PADDING,
    ensures
        r == (Area {
            x: (base_area.x + POPUP_PADDING) as u16,
            y: (base_area.y + POPUP_PADDING) as u16,
            width: (base_area.width - 2 * POPUP_PADDING) as u16,
            height: (base_area.height - 2 * POPUP_PADDING) as u16,
        }),
{
    Area {
        x: base_area.x + POPUP_PADDING,
        y: base_area.y + POPUP_PADDING,
        width: base_area.width - 2 * POPUP_PADDING,
        height: base_area.height - 2 * POPUP_PADDING,
    }
}

/// The service list of the left side.
fn services() -> (c: NavigatorContent)
    ensures
        c@ == service_list(),
{
    let v = WidgetEventType::values();
    let c = NavigatorContent::Services(v);
    assert(v.deep_view() =~= seq![
        WidgetEventTypeView::S3,
        WidgetEventTypeView::DynamoDB,
        WidgetEventTypeView::CloudWatch,
    ]);
    c
}

impl<S: Clone, D: Clone, W: Clone> Tab<S, D, W> {
    /// Creates a new tab: the profile popup open over the service list, with
    /// DynamoDB as the active service.
    pub fn new(name: &str, content: &str, profiles: Vec<String>) -> (t: Tab<S, D, W>)
        ensures
            t@ == TabView::<S, D, W>::initial(name@, content@, profiles.deep_view()),
    {
        Self {
            name: name.to_string(),
            popup_mod: true,
            left_widgets: AWSServiceNavigator::new(WidgetType::AWSServiceNavigator, false, services()),
            popup_widget: PopupWidget::new(PopupContent::Profiles(profiles), content, true, true),
            s3: S3Component::new(),
            dynamodb: DynamoDB::new(),
            cloudwatch: CloudWatch::new(),
            active_right_widget: WidgetType::DynamoDB,
            current_focus: TabFocus::Left,
            aws_clients: TabClients::new(String::new(), "eu-west-1".to_string()),
        }
    }

    /// Changes the active AWS service
    pub fn set_active_service(&mut self, service_type: WidgetType)
        ensures
            final(self)@ == (TabView { active: service_type, ..old(self)@ }),
    {
        self.active_right_widget = service_type;
    }

    /// Get the tab's name/title
    pub fn name(&self) -> (s: &str)
        ensures
            s@ == self@.name,
    {
        self.name.as_str()
    }

    /// Set the tab name and configure the AWS profile
    pub fn set_name(&mut self, name: String)
        ensures
            final(self)@ == old(self)@.with_profile(name@),
    {
        self.name = name;
        self.popup_mod = false;
        self.aws_clients.set_profile(self.name.clone());
    }

    /// Handles keyboard input events for the tab
    pub fn handle_input(&mut self, event: KeyEvent, clipboard: &mut ClipboardExchange) -> (cmds: Vec<
        Command,
    >)
        requires
            old(self)@.accepts_key(event, old(clipboard).paste_view()),
        ensures
            final(self)@ == old(self)@.after_key(event, old(clipboard).paste_view()),
            commands_view(cmds@) == old(self)@.key_commands(event, old(clipboard).paste_view()),
            final(clipboard).paste_text == old(clipboard).paste_text,
            final(clipboard).copy_view() == match old(self)@.key_copy(event) {
                Some(t) => Some(t),
                None => old(clipboard).copy_view(),
            },
    {
        let mut cmds: Vec<Command> = Vec::new();
        assert(commands_view(cmds@) =~= Seq::empty());
        if event.code == KeyCode::Char('p') && event.modifiers.is_alt_only() {
            self.popup_mod = true;
            self.popup_widget.set_visible(true);
            self.popup_widget.set_active(true);
            return cmds;
        }
        if self.popup_mod {
            if let Some(signal) = self.popup_widget.handle_input(event) {
                cmds = one_command(widget_command(signal));
            }
            return cmds;
        }
        match event.code {
            KeyCode::Tab => {
                cmds = one_command(
                    Command::Send(Event::Tab(TabEvent::TabAction(TabAction::NextFocus))),
                );
            },
            KeyCode::BackTab => {
                cmds = one_command(
                    Command::Send(Event::Tab(TabEvent::TabAction(TabAction::PreviousFocus))),
                );
            },
            _ => {
                if self.current_focus == TabFocus::Left {
                    if let Some(signal) = self.left_widgets.handle_input(event) {
                        cmds = one_command(widget_command(signal));
                    }
                } else if self.active_right_widget == WidgetType::S3 {
                    cmds = self.s3.handle_input(event, clipboard);
                } else if self.active_right_widget == WidgetType::DynamoDB {
                    cmds = self.dynamodb.handle_input(event, clipboard);
                } else if self.active_right_widget == WidgetType::CloudWatch {
                    cmds = self.cloudwatch.handle_input(event, clipboard);
                }
            },
        }
        cmds
    }

    /// Whether the tab can take the event.
    pub fn accepts(&self, event: &TabEvent) -> (b: bool)
        ensures
            b == self@.accepts(event@),
    {
        match event {
            TabEvent::WidgetActions(WidgetAction::PopupAction(PopupAction::ArrowDown)) => {
                !self.popup_mod || self.popup_widget.content_len() > 0
            },
            TabEvent::ComponentActions(c) => match c {
                ComponentActions::S3ComponentActions(a) => self.active_right_widget != WidgetType::S3
                    || self.s3.accepts_action(a),
                ComponentActions::DynamoDBComponentActions(a) => self.active_right_widget
                    != WidgetType::DynamoDB || self.dynamodb.accepts_action(a),
                ComponentActions::CloudWatchComponentActions(a) => self.active_right_widget
                    != WidgetType::CloudWatch || self.cloudwatch.accepts_action(a),
            },
            _ => true,
        }
    }

    /// Whether the tab can take the key, given the clipboard.
    pub fn accepts_key(&self, event: KeyEvent, clipboard: &ClipboardExchange) -> (b: bool)
        ensures
            b == self@.accepts_key(event, clipboard.paste_view()),
    {
        if (event.code == KeyCode::Char('p') && event.modifiers.is_alt_only()) || self.popup_mod
            || event.code == KeyCode::Tab || event.code == KeyCode::BackTab || self.current_focus
            == TabFocus::Left {
            true
        } else if self.active_right_widget == WidgetType::S3 {
            self.s3.accepts_key(event, clipboard)
        } else if self.active_right_widget == WidgetType::DynamoDB {
            self.dynamodb.accepts_key(event, clipboard)
        } else if self.active_right_widget == WidgetType::CloudWatch {
            self.cloudwatch.accepts_key(event, clipboard)
        } else {
            true
        }
    }

    /// Processes tab events and routes them to appropriate handlers
    pub fn process_event(&mut self, tab_event: TabEvent) -> (cmds: Vec<Command>)
        requires
            old(self)@.accepts(tab_event@),
        ensures
            match tab_event@ {
                TabEventView::TabAction(a) => final(self)@ == old(self)@.after_tab_action(a)
                    && commands_view(cmds@) == old(self)@.tab_action_commands(a),
                TabEventView::WidgetActions(w) => final(self)@ == old(self)@.after_widget_action(w)
                    && commands_view(cmds@) == old(self)@.widget_action_commands(w),
                TabEventView::ComponentActions(c) => final(self)@ == old(self)@.after_component_action(
                    c,
                ) && commands_view(cmds@) == old(self)@.component_action_commands(c),
            },
    {
        match tab_event {
            TabEvent::TabAction(tab_action) => self.process_tab_action(tab_action),
            TabEvent::WidgetActions(widget_action) => self.process_widget_action(widget_action),
            TabEvent::ComponentActions(component_action) => self.process_component_action(
                component_action,
            ),
        }
    }

    /// Routes a widget action to the popup or to the service list.
    fn process_widget_action(&mut self, widget_action: WidgetAction) -> (cmds: Vec<Command>)
        requires
            old(self)@.accepts(TabEventView::WidgetActions(widget_action@)),
        ensures
            final(self)@ == old(self)@.after_widget_action(widget_action@),
            commands_view(cmds@) == old(self)@.widget_action_commands(widget_action@),
    {
        let mut cmds: Vec<Command> = Vec::new();
        assert(commands_view(cmds@) =~= Seq::empty());
        match widget_action {
            WidgetAction::PopupAction(popup_action) => {
                if self.popup_mod {
                    let closing = matches!(popup_action, PopupAction::Escape);
                    let signal = self.popup_widget.process_event(WidgetAction::PopupAction(popup_action));
                    if closing {
                        self.popup_mod = false;
                    }
                    if let Some(WidgetAction::PopupAction(PopupAction::ItemSelected(selected))) = signal {
                        cmds = one_command(
                            Command::Send(
                                Event::Tab(TabEvent::TabAction(TabAction::SelectProfile(selected))),
                            ),
                        );
                    }
                }
            },
            WidgetAction::ServiceNavigatorEvent(nav_event, widget_type) => {
                let signal = self.left_widgets.process_event(
                    WidgetAction::ServiceNavigatorEvent(nav_event, widget_type),
                );
                if let Some(
                    WidgetAction::ServiceNavigatorEvent(ServiceNavigatorEvent::ItemSelected(selected), _),
                ) = signal {
                    cmds = one_command(
                        Command::Send(Event::Tab(TabEvent::TabAction(TabAction::SelectService(selected)))),
                    );
                }
            },
            _ => {},
        }
        cmds
    }

    /// Delivers a component action to the active component, if it is of its kind.
    fn process_component_action(&mut self, component_action: ComponentActions) -> (cmds: Vec<Command>)
        requires
            old(self)@.accepts_component_action(component_action@),
        ensures
            final(self)@ == old(self)@.after_component_action(component_action@),
            commands_view(cmds@) == old(self)@.component_action_commands(component_action@),
    {
        let mut cmds: Vec<Command> = Vec::new();
        assert(commands_view(cmds@) =~= Seq::empty());
        match component_action {
            ComponentActions::S3ComponentActions(a) => {
                if self.active_right_widget == WidgetType::S3 {
                    cmds = self.s3.process_event(a);
                }
            },
            ComponentActions::DynamoDBComponentActions(a) => {
                if self.active_right_widget == WidgetType::DynamoDB {
                    cmds = self.dynamodb.process_event(a);
                }
            },
            ComponentActions::CloudWatchComponentActions(a) => {
                if self.active_right_widget == WidgetType::CloudWatch {
                    cmds = self.cloudwatch.process_event(a);
                }
            },
        }
        cmds
    }

    /// The active component gains or loses the focus.
    fn set_right_active(&mut self, active: bool)
        ensures
            final(self)@ == old(self)@.right_activated(active),
    {
        if self.active_right_widget == WidgetType::S3 {
            self.s3.set_active(active);
        } else if self.active_right_widget == WidgetType::DynamoDB {
            self.dynamodb.set_active(active);
        } else if self.active_right_widget == WidgetType::CloudWatch {
            self.cloudwatch.set_active(active);
        }
    }

    /// The focus inside the active component.
    fn right_focus(&self) -> (f: ComponentFocus)
        ensures
            f == self@.right_focus(),
    {
        if self.active_right_widget == WidgetType::S3 {
            self.s3.get_current_focus()
        } else if self.active_right_widget == WidgetType::DynamoDB {
            self.dynamodb.get_current_focus()
        } else {
            self.cloudwatch.get_current_focus()
        }
    }

    /// The event that moves the focus inside the active component.
    fn right_focus_command(&self, forward: bool) -> (cmds: Vec<Command>)
        ensures
            commands_view(cmds@) == self@.right_focus_command(forward),
    {
        if self.active_right_widget == WidgetType::S3 {
            one_command(
                s3_command(
                    if forward {
                        S3ComponentActions::NextFocus
                    } else {
                        S3ComponentActions::PreviousFocus
                    },
                ),
            )
        } else if self.active_right_widget == WidgetType::DynamoDB {
            one_command(
                dynamodb_command(
                    if forward {
                        DynamoDBComponentActions::NextFocus
                    } else {
                        DynamoDBComponentActions::PreviousFocus
                    },
                ),
            )
        } else if self.active_right_widget == WidgetType::CloudWatch {
            one_command(
                cloudwatch_command(
                    if forward {
                        CloudWatchComponentActions::NextFocus
                    } else {
                        CloudWatchComponentActions::PreviousFocus
                    },
                ),
            )
        } else {
            let v: Vec<Command> = Vec::new();
            assert(commands_view(v@) =~= Seq::empty());
            v
        }
    }

    /// Makes a service active and gives its component a client: the cached
    /// one, or asks for a new one to be created.
    fn select_service(&mut self, service: WidgetType) -> (cmds: Vec<Command>)
        requires
            service == WidgetType::S3 || service == WidgetType::DynamoDB || service
                == WidgetType::CloudWatch,
        ensures
            final(self)@ == old(self)@.after_select(service),
            commands_view(cmds@) == old(self)@.select_commands(service),
    {
        self.active_right_widget = service;
        if service == WidgetType::S3 {
            match self.aws_clients.s3_client() {
                Some(client) => {
                    let client = client.clone();
                    self.s3.set_client(client);
                    self.s3.update()
                },
                None => one_command(
                    Command::CreateS3Client {
                        profile: self.aws_clients.profile(),
                        region: self.aws_clients.region(),
                    },
                ),
            }
        } else if service == WidgetType::DynamoDB {
            match self.aws_clients.dynamodb_client() {
                Some(client) => {
                    let client = client.clone();
                    self.dynamodb.set_client(client);
                    self.dynamodb.update()
                },
                None => one_command(
                    Command::CreateDynamoDBClient {
                        profile: self.aws_clients.profile(),
                        region: self.aws_clients.region(),
                    },
                ),
            }
        } else {
            match self.aws_clients.cloudwatch_client() {
                Some(client) => {
                    let client = client.clone();
                    self.cloudwatch.set_client(client);
                    self.cloudwatch.update()
                },
                None => one_command(
                    Command::CreateCloudWatchClient {
                        profile: self.aws_clients.profile(),
                        region: self.aws_clients.region(),
                    },
                ),
            }
        }
    }

    /// Handles tab-level actions like focus changes and profile selection
    pub fn process_tab_action(&mut self, tab_action: TabAction) -> (cmds: Vec<Command>)
        ensures
            final(self)@ == old(self)@.after_tab_action(tab_action@),
            commands_view(cmds@) == old(self)@.tab_action_commands(tab_action@),
    {
        let mut cmds: Vec<Command> = Vec::new();
        assert(commands_view(cmds@) =~= Seq::empty());
        match tab_action {
            TabAction::SelectProfile(profile) => {
                self.set_name(profile);
            },
            TabAction::SelectService(service) => {
                match service {
                    WidgetEventType::DynamoDB => {
                        cmds = self.select_service(WidgetType::DynamoDB);
                    },
                    WidgetEventType::S3 => {
                        cmds = self.select_service(WidgetType::S3);
                    },
                    WidgetEventType::CloudWatch => {
                        cmds = self.select_service(WidgetType::CloudWatch);
                    },
                    _ => {},
                }
            },
            TabAction::NextFocus => {
                if self.current_focus == TabFocus::Left {
                    self.current_focus = TabFocus::Right;
                    self.set_right_active(true);
                } else if self.active_right_widget == WidgetType::S3 || self.active_right_widget
                    == WidgetType::DynamoDB || self.active_right_widget == WidgetType::CloudWatch {
                    if self.right_focus() == ComponentFocus::NoFocus {
                        self.current_focus = TabFocus::Left;
                        if self.active_right_widget == WidgetType::S3 {
                            self.s3.reset_focus();
                        } else if self.active_right_widget == WidgetType::DynamoDB {
                            self.dynamodb.reset_focus();
                        } else {
                            self.cloudwatch.reset_focus();
                        }
                        self.set_right_active(false);
                    } else {
                        self.set_right_active(true);
                        cmds = self.right_focus_command(true);
                    }
                }
            },
            TabAction::PreviousFocus => {
                if self.current_focus == TabFocus::Right {
                    if self.active_right_widget == WidgetType::S3 || self.active_right_widget
                        == WidgetType::DynamoDB || self.active_right_widget
                        == WidgetType::CloudWatch {
                        if self.right_focus() != ComponentFocus::Navigation {
                            cmds = self.right_focus_command(false);
                        } else {
                            self.current_focus = TabFocus::Left;
                            self.set_right_active(false);
                        }
                    }
                } else {
                    self.current_focus = TabFocus::Right;
                    self.set_right_active(true);
                    if self.active_right_widget == WidgetType::S3 {
                        self.s3.set_focus_to_last();
                    } else if self.active_right_widget == WidgetType::DynamoDB {
                        self.dynamodb.set_focus_to_last();
                    } else if self.active_right_widget == WidgetType::CloudWatch {
                        self.cloudwatch.set_focus_to_last();
                    }
                }
            },
        }
        cmds
    }

    /// Keeps a newly created S3 client and lets the S3 component use it.
    pub fn s3_client_created(&mut self, client: S) -> (cmds: Vec<Command>)
        ensures
            final(self)@ == (TabView {
                clients: TabClientsView { s3: Some(client), ..old(self)@.clients },
                s3: S3View { has_client: true, ..old(self)@.s3 },
                ..old(self)@
            }),
            commands_view(cmds@) == seq![CommandView::ListBuckets],
    {
        let copy = client.clone();
        self.aws_clients.store_s3_client(client);
        self.s3.set_client(copy);
        self.s3.update()
    }

    /// Keeps a newly created DynamoDB client and lets the DynamoDB component use it.
    pub fn dynamodb_client_created(&mut self, client: D) -> (cmds: Vec<Command>)
        ensures
            final(self)@ == (TabView {
                clients: TabClientsView { dynamodb: Some(client), ..old(self)@.clients },
                dynamodb: DynamoDBView { has_client: true, ..old(self)@.dynamodb },
                ..old(self)@
            }),
            commands_view(cmds@) == seq![CommandView::ListTables],
    {
        let copy = client.clone();
        self.aws_clients.store_dynamodb_client(client);
        self.dynamodb.set_client(copy);
        self.dynamodb.update()
    }

    /// Keeps a newly created CloudWatch client and lets the CloudWatch component use it.
    pub fn cloudwatch_client_created(&mut self, client: W) -> (cmds: Vec<Command>)
        ensures
            final(self)@ == (TabView {
                clients: TabClientsView { cloudwatch: Some(client), ..old(self)@.clients },
                cloudwatch: CloudWatchView { has_client: true, ..old(self)@.cloudwatch }.loading_groups(),
                ..old(self)@
            }),
            commands_view(cmds@) == seq![CommandView::ListLogGroups],
    {
        let copy = client.clone();
        self.aws_clients.store_cloudwatch_client(client);
        self.cloudwatch.set_client(copy);
        self.cloudwatch.update()
    }

    /// The keyboard help for the popup, or for the focused side.
    pub fn help_items(&self) -> (items: Vec<(String, String)>)
        ensures
            items.deep_view() == self@.help_items(),
    {
        if self.popup_mod {
            return self.popup_widget.get_help_items();
        }
        let mut items = if self.current_focus == TabFocus::Left {
            self.left_widgets.get_help_items()
        } else if self.active_right_widget == WidgetType::S3 {
            self.s3.get_help_items()
        } else if self.active_right_widget == WidgetType::DynamoDB {
            self.dynamodb.get_help_items()
        } else if self.active_right_widget == WidgetType::CloudWatch {
            self.cloudwatch.get_help_items()
        } else {
            Vec::new()
        };
        let ghost before = items.deep_view();
        items.push(("Tab".to_string(), "Switch focus".to_string()));
        assert(items.deep_view() =~= before + seq![("Tab"@, "Switch focus"@)]);
        items
    }

    /// Hands the result of a command to the component that asked for it.
    pub fn complete(&mut self, completion: Completion<S, D, W>) -> (cmds: Vec<Command>)
        ensures
            final(self)@ == old(self)@.after_completion(completion),
            commands_view(cmds@) == old(self)@.completion_commands(completion),
    {
        match completion {
            Completion::S3ClientCreated(c) => self.s3_client_created(c),
            Completion::DynamoDBClientCreated(c) => self.dynamodb_client_created(c),
            Completion::CloudWatchClientCreated(c) => self.cloudwatch_client_created(c),
            Completion::BucketsListed(r) => {
                self.s3_buckets_listed(r);
                Vec::new()
            },
            Completion::ObjectsListed { title, result } => {
                self.s3_objects_listed(title, result);
                Vec::new()
            },
            Completion::ObjectDetailsLoaded(r) => {
                self.s3_object_details_loaded(r);
                Vec::new()
            },
            Completion::TablesListed(r) => {
                self.dynamodb_tables_listed(r);
                Vec::new()
            },
            Completion::QueryCompleted(r) => {
                self.dynamodb_query_completed(r);
                Vec::new()
            },
        }
    }

    // ------------------------------------------------------------------
    // Access for rendering and for performing commands
    // ------------------------------------------------------------------

    /// Whether the profile popup is open.
    pub fn popup_open(&self) -> (b: bool)
        ensures
            b == self@.popup_mod,
    {
        self.popup_mod
    }

    pub fn popup(&self) -> (p: &PopupWidget)
        ensures
            p@ == self@.popup,
    {
        &self.popup_widget
    }

    pub fn left(&self) -> (l: &AWSServiceNavigator)
        ensures
            l@ == self@.left,
    {
        &self.left_widgets
    }

    pub fn s3(&self) -> (c: &S3Component<S>)
        ensures
            c@ == self@.s3,
    {
        &self.s3
    }

    pub fn dynamodb(&self) -> (c: &DynamoDB<D>)
        ensures
            c@ == self@.dynamodb,
    {
        &self.dynamodb
    }

    pub fn cloudwatch(&self) -> (c: &CloudWatch<W>)
        ensures
            c@ == self@.cloudwatch,
    {
        &self.cloudwatch
    }

    pub fn active_service(&self) -> (w: WidgetType)
        ensures
            w == self@.active,
    {
        self.active_right_widget
    }

    pub fn focus(&self) -> (f: TabFocus)
        ensures
            f == self@.focus,
    {
        self.current_focus
    }

    /// Shows an S3 object listing that arrived.
    pub fn s3_objects_listed(&mut self, title: String, result: Result<Vec<String>, S3ClientError>)
        ensures
            final(self)@ == (TabView {
                s3: old(self)@.s3.with_objects(
                    title@,
                    crate::components::s3::listing_or_error(
                        match result {
                            Ok(v) => Ok(v.deep_view()),
                            Err(_) => Err(()),
                        },
                    ),
                ),
                ..old(self)@
            }),
    {
        self.s3.objects_listed(title, result);
    }

    /// Shows S3 object details that arrived.
    pub fn s3_object_details_loaded(&mut self, result: Result<String, S3ClientError>)
        ensures
            final(self)@ == (TabView {
                s3: old(self)@.s3.with_details(
                    match result {
                        Ok(d) => d@,
                        Err(_) => "Error fetching object details"@,
                    },
                ),
                ..old(self)@
            }),
    {
        self.s3.object_details_loaded(result);
    }

    /// Shows the S3 bucket list that arrived; a failure changes nothing.
    pub fn s3_buckets_listed(&mut self, result: Result<Vec<String>, S3ClientError>)
        ensures
            final(self)@ == (TabView {
                s3: match result {
                    Ok(b) => old(self)@.s3.with_buckets(b.deep_view()),
                    Err(_) => old(self)@.s3,
                },
                ..old(self)@
            }),
    {
        let _ = self.s3.buckets_listed(result);
    }

    /// Shows the DynamoDB table list that arrived; a failure changes nothing.
    pub fn dynamodb_tables_listed(&mut self, result: Result<Vec<String>, String>)
        ensures
            final(self)@ == (TabView {
                dynamodb: match result {
                    Ok(t) => DynamoDBView {
                        navigator: old(self)@.dynamodb.navigator.with_content(
                            ContentView::Records(t.deep_view()),
                        ),
                        ..old(self)@.dynamodb
                    },
                    Err(_) => old(self)@.dynamodb,
                },
                ..old(self)@
            }),
    {
        let _ = self.dynamodb.tables_listed(result);
    }

    /// Shows the items of a DynamoDB query that arrived.
    pub fn dynamodb_query_completed(&mut self, result: Result<Vec<String>, String>)
        ensures
            final(self)@ == (TabView {
                dynamodb: DynamoDBView {
                    results: old(self)@.dynamodb.results.with_content(
                        ContentView::Records(
                            match result {
                                Ok(items) => items.deep_view(),
                                Err(_) => seq!["Query error"@],
                            },
                        ),
                    ),
                    ..old(self)@.dynamodb
                },
                ..old(self)@
            }),
    {
        self.dynamodb.query_completed(result);
    }
}

impl<S, D, W> TabView<S, D, W> {
    /// The state after a service is selected on the left.
    pub open spec fn after_select(self, service: WidgetType) -> TabView<S, D, W> {
        let t = TabView { active: service, ..self };
        if service == WidgetType::S3 {
            if self.clients.s3 is Some {
                TabView { s3: S3View { has_client: true, ..self.s3 }, ..t }
            } else {
                t
            }
        } else if service == WidgetType::DynamoDB {
            if self.clients.dynamodb is Some {
                TabView { dynamodb: DynamoDBView { has_client: true, ..self.dynamodb }, ..t }
            } else {
                t
            }
        } else if self.clients.cloudwatch is Some {
            TabView {
                cloudwatch: CloudWatchView { has_client: true, ..self.cloudwatch }.loading_groups(),
                ..t
            }
        } else {
            t
        }
    }

    /// The commands a service selection produces: a listing with the cached
    /// client, or a request for a new client.
    pub open spec fn select_commands(self, service: WidgetType) -> Seq<CommandView> {
        if service == WidgetType::S3 {
            if self.clients.s3 is Some {
                seq![CommandView::ListBuckets]
            } else {
                seq![CommandView::CreateS3Client { profile: self.clients.profile, region: self.clients.region }]
            }
        } else if service == WidgetType::DynamoDB {
            if self.clients.dynamodb is Some {
                seq![CommandView::ListTables]
            } else {
                seq![
                    CommandView::CreateDynamoDBClient {
                        profile: self.clients.profile,
                        region: self.clients.region,
                    },
                ]
            }
        } else if self.clients.cloudwatch is Some {
            seq![CommandView::ListLogGroups]
        } else {
            seq![
                CommandView::CreateCloudWatchClient {
                    profile: self.clients.profile,
                    region: self.clients.region,
                },
            ]
        }
    }

    /// The state after the result of a command arrives.
    pub open spec fn after_completion(self, c: Completion<S, D, W>) -> TabView<S, D, W> {
        match c {
            Completion::S3ClientCreated(x) => TabView {
                clients: TabClientsView { s3: Some(x), ..self.clients },
                s3: S3View { has_client: true, ..self.s3 },
                ..self
            },
            Completion::DynamoDBClientCreated(x) => TabView {
                clients: TabClientsView { dynamodb: Some(x), ..self.clients },
                dynamodb: DynamoDBView { has_client: true, ..self.dynamodb },
                ..self
            },
            Completion::CloudWatchClientCreated(x) => TabView {
                clients: TabClientsView { cloudwatch: Some(x), ..self.clients },
                cloudwatch: CloudWatchView { has_client: true, ..self.cloudwatch }.loading_groups(),
                ..self
            },
            Completion::BucketsListed(r) => TabView {
                s3: match r {
                    Ok(b) => self.s3.with_buckets(b.deep_view()),
                    Err(_) => self.s3,
                },
                ..self
            },
            Completion::ObjectsListed { title, result } => TabView {
                s3: self.s3.with_objects(
                    title@,
                    crate::components::s3::listing_or_error(
                        match result {
                            Ok(v) => Ok(v.deep_view()),
                            Err(_) => Err(()),
                        },
                    ),
                ),
                ..self
            },
            Completion::ObjectDetailsLoaded(r) => TabView {
                s3: self.s3.with_details(
                    match r {
                        Ok(d) => d@,
                        Err(_) => "Error fetching object details"@,
                    },
                ),
                ..self
            },
            Completion::TablesListed(r) => TabView {
                dynamodb: match r {
                    Ok(t) => DynamoDBView {
                        navigator: self.dynamodb.navigator.with_content(
                            ContentView::Records(t.deep_view()),
                        ),
                        ..self.dynamodb
                    },
                    Err(_) => self.dynamodb,
                },
                ..self
            },
            Completion::QueryCompleted(r) => TabView {
                dynamodb: DynamoDBView {
                    results: self.dynamodb.results.with_content(
                        ContentView::Records(
                            match r {
                                Ok(items) => items.deep_view(),
                                Err(_) => seq!["Query error"@],
                            },
                        ),
                    ),
                    ..self.dynamodb
                },
                ..self
            },
        }
    }

    /// The commands the result of a command produces: a new client refreshes its component.
    pub open spec fn completion_commands(self, c: Completion<S, D, W>) -> Seq<CommandView> {
        match c {
            Completion::S3ClientCreated(_) => seq![CommandView::ListBuckets],
            Completion::DynamoDBClientCreated(_) => seq![CommandView::ListTables],
            Completion::CloudWatchClientCreated(_) => seq![CommandView::ListLogGroups],
            _ => Seq::empty(),
        }
    }

    /// The state after a tab action.
    pub open spec fn after_tab_action(self, a: TabActionView) -> TabView<S, D, W> {
        match a {
            TabActionView::SelectProfile(p) => self.with_profile(p),
            TabActionView::SelectService(s) => match Self::selected_service(s) {
                Some(w) => self.after_select(w),
                None => self,
            },
            TabActionView::NextFocus => self.after_next_focus(),
            TabActionView::PreviousFocus => self.after_previous_focus(),
        }
    }

    /// The commands a tab action produces.
    pub open spec fn tab_action_commands(self, a: TabActionView) -> Seq<CommandView> {
        match a {
            TabActionView::SelectProfile(_) => Seq::empty(),
            TabActionView::SelectService(s) => match Self::selected_service(s) {
                Some(w) => self.select_commands(w),
                None => Seq::empty(),
            },
            TabActionView::NextFocus => self.next_focus_commands(),
            TabActionView::PreviousFocus => self.previous_focus_commands(),
        }
    }

    /// The state after a widget action: popup actions go to the open popup,
    /// navigator events to the service list.
    pub open spec fn after_widget_action(self, w: WidgetActionView) -> TabView<S, D, W> {
        match w {
            WidgetActionView::PopupAction(p) => if self.popup_mod {
                TabView { popup: self.popup.after_action(w), popup_mod: !(p is Escape), ..self }
            } else {
                self
            },
            WidgetActionView::ServiceNavigatorEvent(_, _) => TabView {
                left: self.left.after_action(w),
                ..self
            },
            _ => self,
        }
    }

    /// The commands a widget action produces: a chosen profile or service
    /// comes back as a tab action.
    pub open spec fn widget_action_commands(self, w: WidgetActionView) -> Seq<CommandView> {
        match w {
            WidgetActionView::PopupAction(_) => if self.popup_mod {
                match self.popup.action_result(w) {
                    Some(WidgetActionView::PopupAction(PopupActionView::ItemSelected(p))) => seq![
                        tab_action(TabActionView::SelectProfile(p)),
                    ],
                    _ => Seq::empty(),
                }
            } else {
                Seq::empty()
            },
            WidgetActionView::ServiceNavigatorEvent(_, _) => match self.left.action_result(w) {
                Some(
                    WidgetActionView::ServiceNavigatorEvent(
                        ServiceNavigatorEventView::ItemSelected(s),
                        _,
                    ),
                ) => seq![tab_action(TabActionView::SelectService(s))],
                _ => Seq::empty(),
            },
            _ => Seq::empty(),
        }
    }

    /// The state after a component action: only the active component of the
    /// same kind takes it.
    pub open spec fn after_component_action(self, c: ComponentActionsView) -> TabView<S, D, W> {
        match c {
            ComponentActionsView::S3ComponentActions(a) => if self.active == WidgetType::S3 {
                TabView { s3: self.s3.after_action(a), ..self }
            } else {
                self
            },
            ComponentActionsView::DynamoDBComponentActions(a) => if self.active
                == WidgetType::DynamoDB {
                TabView { dynamodb: self.dynamodb.after_action(a), ..self }
            } else {
                self
            },
            ComponentActionsView::CloudWatchComponentActions(a) => if self.active
                == WidgetType::CloudWatch {
                TabView { cloudwatch: self.cloudwatch.after_action(a), ..self }
            } else {
                self
            },
        }
    }

    pub open spec fn component_action_commands(self, c: ComponentActionsView) -> Seq<CommandView> {
        match c {
            ComponentActionsView::S3ComponentActions(a) => if self.active == WidgetType::S3 {
                self.s3.action_commands(a)
            } else {
                Seq::empty()
            },
            ComponentActionsView::DynamoDBComponentActions(a) => if self.active
                == WidgetType::DynamoDB {
                self.dynamodb.action_commands(a)
            } else {
                Seq::empty()
            },
            ComponentActionsView::CloudWatchComponentActions(a) => if self.active
                == WidgetType::CloudWatch {
                self.cloudwatch.action_commands(a)
            } else {
                Seq::empty()
            },
        }
    }
}

/// Enter in the open profile popup chooses the highlighted profile; choosing a
/// profile names the tab after it, closes the popup, and points the tab's
/// clients at it (dropping those of another profile).
pub proof fn lemma_profile_choice<S, D, W>(t: TabView<S, D, W>, p: Seq<char>)
    requires
        t.popup_mod,
        t.popup.content.get(t.popup.selection_index as int) == Some(p),
    ensures
        t.widget_action_commands(WidgetActionView::PopupAction(PopupActionView::Enter)) == seq![
            tab_action(TabActionView::SelectProfile(p)),
        ],
        t.after_tab_action(TabActionView::SelectProfile(p)).name == p,
        !t.after_tab_action(TabActionView::SelectProfile(p)).popup_mod,
        t.after_tab_action(TabActionView::SelectProfile(p)).clients == t.clients.with_profile(p),
        t.after_tab_action(TabActionView::SelectProfile(p)).clients.profile == p,
{
}

/// Escape in the open profile popup closes it and chooses nothing.
pub proof fn lemma_popup_escape<S, D, W>(t: TabView<S, D, W>)
    requires
        t.popup_mod,
    ensures
        !t.after_widget_action(WidgetActionView::PopupAction(PopupActionView::Escape)).popup.visible,
        !t.after_widget_action(WidgetActionView::PopupAction(PopupActionView::Escape)).popup_mod,
        t.after_widget_action(WidgetActionView::PopupAction(PopupActionView::Escape)).name == t.name,
        t.widget_action_commands(WidgetActionView::PopupAction(PopupActionView::Escape)) == Seq::<
            CommandView,
        >::empty(),
{
}

/// Alt+P opens the profile popup from any state of the tab, and nothing else
/// about the tab changes.
pub proof fn lemma_profiles_reopen<S, D, W>(t: TabView<S, D, W>, key: KeyEvent, paste: Option<Seq<char>>)
    requires
        opens_profiles(key),
    ensures
        t.after_key(key, paste).popup_mod,
        t.after_key(key, paste).popup.visible,
        t.after_key(key, paste).popup.content == t.popup.content,
        t.after_key(key, paste).name == t.name,
        t.after_key(key, paste).clients == t.clients,
        t.key_commands(key, paste) == Seq::<CommandView>::empty(),
{
}

/// A tab makes each service's client once per profile: with a client cached,
/// choosing the service uses it and asks for no new one; without, it asks for
/// one for the tab's profile and region, and the client that comes back is
/// cached (a client that could not be made is never handed back, and the tab
/// stays as it was).
pub proof fn lemma_clients_cached<S, D, W>(t: TabView<S, D, W>, s: S, d: D, w: W)
    ensures
        t.clients.s3 is Some ==> t.select_commands(WidgetType::S3) == seq![CommandView::ListBuckets]
            && t.after_select(WidgetType::S3).clients == t.clients,
        t.clients.s3 is None ==> t.select_commands(WidgetType::S3) == seq![
            CommandView::CreateS3Client { profile: t.clients.profile, region: t.clients.region },
        ],
        t.after_completion(Completion::S3ClientCreated(s)).clients == (TabClientsView {
            s3: Some(s),
            ..t.clients
        }),
        t.clients.dynamodb is Some ==> t.select_commands(WidgetType::DynamoDB) == seq![
            CommandView::ListTables,
        ] && t.after_select(WidgetType::DynamoDB).clients == t.clients,
        t.clients.dynamodb is None ==> t.select_commands(WidgetType::DynamoDB) == seq![
            CommandView::CreateDynamoDBClient {
                profile: t.clients.profile,
                region: t.clients.region,
            },
        ],
        t.after_completion(Completion::DynamoDBClientCreated(d)).clients == (TabClientsView {
            dynamodb: Some(d),
            ..t.clients
        }),
        t.clients.cloudwatch is Some ==> t.select_commands(WidgetType::CloudWatch) == seq![
            CommandView::ListLogGroups,
        ] && t.after_select(WidgetType::CloudWatch).clients == t.clients,
        t.clients.cloudwatch is None ==> t.select_commands(WidgetType::CloudWatch) == seq![
            CommandView::CreateCloudWatchClient {
                profile: t.clients.profile,
                region: t.clients.region,
            },
        ],
        t.after_completion(Completion::CloudWatchClientCreated(w)).clients == (TabClientsView {
            cloudwatch: Some(w),
            ..t.clients
        }),
{
}

} // verus!
