//! Events exchanged between the application loop, tabs, components and widgets.
//!
//! Every enum that carries text has a spec-level view in which `String`
//! becomes `Seq<char>`; contracts are stated over those views.
use vstd::prelude::*;

verus! {

/// A key on the keyboard, as far as this application distinguishes keys.
#[derive(Clone, Copy, PartialEq, Eq, Structural, Debug)]
pub enum KeyCode {
    Backspace,
    Enter,
    Left,
    Right,
    Up,
    Down,
    Home,
    End,
    PageUp,
    PageDown,
    Tab,
    BackTab,
    Delete,
    Esc,
    Char(char),
    /// Any key this application does not react to.
    Other,
}

/// The modifier keys held during a key press.
#[derive(Clone, Copy, PartialEq, Eq, Structural, Debug)]
pub struct KeyModifiers {
    pub shift: bool,
    pub control: bool,
    pub alt: bool,
    pub super_key: bool,
    pub hyper: bool,
    pub meta: bool,
}

impl KeyModifiers {
    pub open spec fn is_none_held(self) -> bool {
        !self.shift && !self.control && !self.alt && !self.super_key && !self.hyper && !self.meta
    }

    /// Exactly the control key is held.
    pub open spec fn spec_control_only(self) -> bool {
        !self.shift && self.control && !self.alt && !self.super_key && !self.hyper && !self.meta
    }

    /// Exactly the alt key is held.
    pub open spec fn spec_alt_only(self) -> bool {
        !self.shift && !self.control && self.alt && !self.super_key && !self.hyper && !self.meta
    }

    /// No modifier held.
    pub fn none() -> (m: KeyModifiers)
        ensures
            m.is_none_held(),
    {
        KeyModifiers {
            shift: false,
            control: false,
            alt: false,
            super_key: false,
            hyper: false,
            meta: false,
        }
    }

    /// Only the control key held.
    pub fn control() -> (m: KeyModifiers)
        ensures
            m.spec_control_only(),
    {
        KeyModifiers { control: true, ..KeyModifiers::none() }
    }

    /// Only the alt key held.
    pub fn alt() -> (m: KeyModifiers)
        ensures
            m.spec_alt_only(),
    {
        KeyModifiers { alt: true, ..KeyModifiers::none() }
    }

    pub fn is_control_only(&self) -> (b: bool)
        ensures
            b == self.spec_control_only(),
    {
        !self.shift && self.control && !self.alt && !self.super_key && !self.hyper && !self.meta
    }

    pub fn is_alt_only(&self) -> (b: bool)
        ensures
            b == self.spec_alt_only(),
    {
        !self.shift && !self.control && self.alt && !self.super_key && !self.hyper && !self.meta
    }
}

/// A key press: the key and the modifiers held with it.
#[derive(Clone, Copy, PartialEq, Eq, Structural, Debug)]
pub struct KeyEvent {
    pub code: KeyCode,
    pub modifiers: KeyModifiers,
}

impl KeyEvent {
    pub open spec fn spec_is_paste_shortcut(self) -> bool {
        self.code == KeyCode::Char('v') && self.modifiers.spec_control_only()
    }

    /// A plain key press without modifiers.
    pub fn plain(code: KeyCode) -> (k: KeyEvent)
        ensures
            k.code == code,
            k.modifiers.is_none_held(),
    {
        KeyEvent { code, modifiers: KeyModifiers::none() }
    }

    /// Ctrl+V: the only key that reads the clipboard.
    pub fn is_paste_shortcut(&self) -> (b: bool)
        ensures
            b == self.spec_is_paste_shortcut(),
    {
        match self.code {
            KeyCode::Char(c) => c == 'v' && self.modifiers.is_control_only(),
            _ => false,
        }
    }
}

/// Main event of the application loop.
pub enum Event {
    /// Regular interval event for animations and polling
    Tick,
    /// A key press from the terminal
    Crossterm(KeyEvent),
    /// Application-level events
    App(AppEvent),
    /// Tab-level events
    Tab(TabEvent),
}

/// Events related to tab functionality
pub enum TabEvent {
    TabAction(TabAction),
    WidgetActions(WidgetAction),
    ComponentActions(ComponentActions),
}

/// Actions for AWS service components
pub enum ComponentActions {
    S3ComponentActions(S3ComponentActions),
    DynamoDBComponentActions(DynamoDBComponentActions),
    CloudWatchComponentActions(CloudWatchComponentActions),
}

/// Actions specific to CloudWatch services
pub enum CloudWatchComponentActions {
    SelectLogGroup(String),
    SearchLogs(String),
    SetTimeRange(String),
    ViewLogDetails(String),
    PopupDetails(String),
    NextFocus,
    PreviousFocus,
    WidgetAction(WidgetAction),
}

/// Actions specific to S3 services
pub enum S3ComponentActions {
    ArrowUp,
    ArrowDown,
    NextFocus,
    PreviousFocus,
    SelectBucket(String),
    NavigateFolder(String),
    NavigateUp,
    /// bucket, path
    LoadPath(String, String),
    PopupDetails(String),
    WidgetAction(WidgetAction),
}

/// Actions specific to DynamoDB services
pub enum DynamoDBComponentActions {
    ArrowUp,
    ArrowDown,
    NextFocus,
    PreviousFocus,
    SetTitle(String),
    SetQuery(String),
    PopupDetails(String),
    WidgetActions(WidgetAction),
}

/// Actions that can be performed on widgets
pub enum WidgetAction {
    ServiceNavigatorEvent(ServiceNavigatorEvent, WidgetType),
    InputBoxEvent(InputBoxEvent, InputBoxType),
    ParagraphEvent(ParagraphEvent),
    ToggleFocusState,
    PopupAction(PopupAction),
}

/// Actions specific to tab navigation and selection
pub enum TabAction {
    NextFocus,
    PreviousFocus,
    SelectProfile(String),
    SelectService(WidgetEventType),
}

/// Events for popup widgets
pub enum PopupAction {
    ItemSelected(String),
    ArrowUp,
    ArrowDown,
    Enter,
    Escape,
    Cancel,
}

/// Events for AWS service navigation
pub enum ServiceNavigatorEvent {
    ItemSelected(WidgetEventType),
    UpdateTitle(String),
    UpdateContent(Vec<String>),
    ArrowUp,
    ArrowDown,
    PageDown,
    PageUp,
    Home,
    End,
    Enter,
    Escape,
    Cancel,
}

/// Events for input box widgets
pub enum InputBoxEvent {
    ArrowUp,
    ArrowDown,
    Enter,
    Escape,
    Cancel,
    Backspace,
    Delete,
    Left,
    Right,
    Written(String),
    KeyPress(KeyEvent),
}

/// The role of an input box inside a component
#[derive(Clone, Copy, PartialEq, Eq, Structural, Debug)]
pub enum InputBoxType {
    Text,
    TimeRange,
}

/// Events for paragraph widgets
#[derive(Clone, Copy, PartialEq, Eq, Structural, Debug)]
pub enum ParagraphEvent {
    ArrowUp,
    ArrowDown,
    Enter,
    Escape,
    Cancel,
}

/// Types of widgets that can be interacted with
pub enum WidgetEventType {
    S3,
    DynamoDB,
    CloudWatch,
    RecordSelected(String),
}

/// High-level application events
#[derive(Clone, Copy, PartialEq, Eq, Structural, Debug)]
pub enum AppEvent {
    NextTab,
    PreviousTab,
    CreateTab,
    CloseTab,
    Quit,
}

/// Identifiers for different widget types in the application
#[derive(Clone, Copy, PartialEq, Eq, Structural, Debug, Hash)]
pub enum WidgetType {
    Default,
    AWSServiceNavigator,
    AWSService,
    S3,
    DynamoDB,
    CloudWatch,
    InputBox,
    QueryResultsNavigator,
}

// ------------------------------------------------------------------------
// Spec-level views
// ------------------------------------------------------------------------
pub enum WidgetEventTypeView {
    S3,
    DynamoDB,
    CloudWatch,
    RecordSelected(Seq<char>),
}

pub enum PopupActionView {
    ItemSelected(Seq<char>),
    ArrowUp,
    ArrowDown,
    Enter,
    Escape,
    Cancel,
}

pub enum ServiceNavigatorEventView {
    ItemSelected(WidgetEventTypeView),
    UpdateTitle(Seq<char>),
    UpdateContent(Seq<Seq<char>>),
    ArrowUp,
    ArrowDown,
    PageDown,
    PageUp,
    Home,
    End,
    Enter,
    Escape,
    Cancel,
}

pub enum InputBoxEventView {
    ArrowUp,
    ArrowDown,
    Enter,
    Escape,
    Cancel,
    Backspace,
    Delete,
    Left,
    Right,
    Written(Seq<char>),
    KeyPress(KeyEvent),
}

pub enum WidgetActionView {
    ServiceNavigatorEvent(ServiceNavigatorEventView, WidgetType),
    InputBoxEvent(InputBoxEventView, InputBoxType),
    ParagraphEvent(ParagraphEvent),
    ToggleFocusState,
    PopupAction(PopupActionView),
}

pub enum TabActionView {
    NextFocus,
    PreviousFocus,
    SelectProfile(Seq<char>),
    SelectService(WidgetEventTypeView),
}

pub enum S3ComponentActionsView {
    ArrowUp,
    ArrowDown,
    NextFocus,
    PreviousFocus,
    SelectBucket(Seq<char>),
    NavigateFolder(Seq<char>),
    NavigateUp,
    LoadPath(Seq<char>, Seq<char>),
    PopupDetails(Seq<char>),
    WidgetAction(WidgetActionView),
}

pub enum DynamoDBComponentActionsView {
    ArrowUp,
    ArrowDown,
    NextFocus,
    PreviousFocus,
    SetTitle(Seq<char>),
    SetQuery(Seq<char>),
    PopupDetails(Seq<char>),
    WidgetActions(WidgetActionView),
}

pub enum CloudWatchComponentActionsView {
    SelectLogGroup(Seq<char>),
    SearchLogs(Seq<char>),
    SetTimeRange(Seq<char>),
    ViewLogDetails(Seq<char>),
    PopupDetails(Seq<char>),
    NextFocus,
    PreviousFocus,
    WidgetAction(WidgetActionView),
}

pub enum ComponentActionsView {
    S3ComponentActions(S3ComponentActionsView),
    DynamoDBComponentActions(DynamoDBComponentActionsView),
    CloudWatchComponentActions(CloudWatchComponentActionsView),
}

pub enum TabEventView {
    TabAction(TabActionView),
    WidgetActions(WidgetActionView),
    ComponentActions(ComponentActionsView),
}

pub enum EventView {
    Tick,
    Crossterm(KeyEvent),
    App(AppEvent),
    Tab(TabEventView),
}

impl View for WidgetEventType {
    type V = WidgetEventTypeView;

    open spec fn view(&self) -> WidgetEventTypeView {
        match self {
            WidgetEventType::S3 => WidgetEventTypeView::S3,
            WidgetEventType::DynamoDB => WidgetEventTypeView::DynamoDB,
            WidgetEventType::CloudWatch => WidgetEventTypeView::CloudWatch,
            WidgetEventType::RecordSelected(r) => WidgetEventTypeView::RecordSelected(r@),
        }
    }
}

impl DeepView for WidgetEventType {
    type V = WidgetEventTypeView;

    open spec fn deep_view(&self) -> WidgetEventTypeView {
        self@
    }
}

impl View for PopupAction {
    type V = PopupActionView;

    open spec fn view(&self) -> PopupActionView {
        match self {
            PopupAction::ItemSelected(s) => PopupActionView::ItemSelected(s@),
            PopupAction::ArrowUp => PopupActionView::ArrowUp,
            PopupAction::ArrowDown => PopupActionView::ArrowDown,
            PopupAction::Enter => PopupActionView::Enter,
            PopupAction::Escape => PopupActionView::Escape,
            PopupAction::Cancel => PopupActionView::Cancel,
        }
    }
}

impl View for ServiceNavigatorEvent {
    type V = ServiceNavigatorEventView;

    open spec fn view(&self) -> ServiceNavigatorEventView {
        match self {
            ServiceNavigatorEvent::ItemSelected(w) => ServiceNavigatorEventView::ItemSelected(w@),
            ServiceNavigatorEvent::UpdateTitle(t) => ServiceNavigatorEventView::UpdateTitle(t@),
            ServiceNavigatorEvent::UpdateContent(c) => ServiceNavigatorEventView::UpdateContent(
                c.deep_view(),
            ),
            ServiceNavigatorEvent::ArrowUp => ServiceNavigatorEventView::ArrowUp,
            ServiceNavigatorEvent::ArrowDown => ServiceNavigatorEventView::ArrowDown,
            ServiceNavigatorEvent::PageDown => ServiceNavigatorEventView::PageDown,
            ServiceNavigatorEvent::PageUp => ServiceNavigatorEventView::PageUp,
            ServiceNavigatorEvent::Home => ServiceNavigatorEventView::Home,
            ServiceNavigatorEvent::End => ServiceNavigatorEventView::End,
            ServiceNavigatorEvent::Enter => ServiceNavigatorEventView::Enter,
            ServiceNavigatorEvent::Escape => ServiceNavigatorEventView::Escape,
            ServiceNavigatorEvent::Cancel => ServiceNavigatorEventView::Cancel,
        }
    }
}

impl View for InputBoxEvent {
    type V = InputBoxEventView;

    open spec fn view(&self) -> InputBoxEventView {
        match self {
            InputBoxEvent::ArrowUp => InputBoxEventView::ArrowUp,
            InputBoxEvent::ArrowDown => InputBoxEventView::ArrowDown,
            InputBoxEvent::Enter => InputBoxEventView::Enter,
            InputBoxEvent::Escape => InputBoxEventView::Escape,
            InputBoxEvent::Cancel => InputBoxEventView::Cancel,
            InputBoxEvent::Backspace => InputBoxEventView::Backspace,
            InputBoxEvent::Delete => InputBoxEventView::Delete,
            InputBoxEvent::Left => InputBoxEventView::Left,
            InputBoxEvent::Right => InputBoxEventView::Right,
            InputBoxEvent::Written(s) => InputBoxEventView::Written(s@),
            InputBoxEvent::KeyPress(k) => InputBoxEventView::KeyPress(*k),
        }
    }
}

impl View for WidgetAction {
    type V = WidgetActionView;

    open spec fn view(&self) -> WidgetActionView {
        match self {
            WidgetAction::ServiceNavigatorEvent(e, t) => WidgetActionView::ServiceNavigatorEvent(
                e@,
                *t,
            ),
            WidgetAction::InputBoxEvent(e, t) => WidgetActionView::InputBoxEvent(e@, *t),
            WidgetAction::ParagraphEvent(e) => WidgetActionView::ParagraphEvent(*e),
            WidgetAction::ToggleFocusState => WidgetActionView::ToggleFocusState,
            WidgetAction::PopupAction(a) => WidgetActionView::PopupAction(a@),
        }
    }
}

impl View for TabAction {
    type V = TabActionView;

    open spec fn view(&self) -> TabActionView {
        match self {
            TabAction::NextFocus => TabActionView::NextFocus,
            TabAction::PreviousFocus => TabActionView::PreviousFocus,
            TabAction::SelectProfile(p) => TabActionView::SelectProfile(p@),
            TabAction::SelectService(s) => TabActionView::SelectService(s@),
        }
    }
}

impl View for S3ComponentActions {
    type V = S3ComponentActionsView;

    open spec fn view(&self) -> S3ComponentActionsView {
        match self {
            S3ComponentActions::ArrowUp => S3ComponentActionsView::ArrowUp,
            S3ComponentActions::ArrowDown => S3ComponentActionsView::ArrowDown,
            S3ComponentActions::NextFocus => S3ComponentActionsView::NextFocus,
            S3ComponentActions::PreviousFocus => S3ComponentActionsView::PreviousFocus,
            S3ComponentActions::SelectBucket(b) => S3ComponentActionsView::SelectBucket(b@),
            S3ComponentActions::NavigateFolder(p) => S3ComponentActionsView::NavigateFolder(p@),
            S3ComponentActions::NavigateUp => S3ComponentActionsView::NavigateUp,
            S3ComponentActions::LoadPath(b, p) => S3ComponentActionsView::LoadPath(b@, p@),
            S3ComponentActions::PopupDetails(k) => S3ComponentActionsView::PopupDetails(k@),
            S3ComponentActions::WidgetAction(w) => S3ComponentActionsView::WidgetAction(w@),
        }
    }
}

impl View for DynamoDBComponentActions {
    type V = DynamoDBComponentActionsView;

    open spec fn view(&self) -> DynamoDBComponentActionsView {
        match self {
            DynamoDBComponentActions::ArrowUp => DynamoDBComponentActionsView::ArrowUp,
            DynamoDBComponentActions::ArrowDown => DynamoDBComponentActionsView::ArrowDown,
            DynamoDBComponentActions::NextFocus => DynamoDBComponentActionsView::NextFocus,
            DynamoDBComponentActions::PreviousFocus => DynamoDBComponentActionsView::PreviousFocus,
            DynamoDBComponentActions::SetTitle(t) => DynamoDBComponentActionsView::SetTitle(t@),
            DynamoDBComponentActions::SetQuery(q) => DynamoDBComponentActionsView::SetQuery(q@),
            DynamoDBComponentActions::PopupDetails(d) => DynamoDBComponentActionsView::PopupDetails(
                d@,
            ),
            DynamoDBComponentActions::WidgetActions(w) => DynamoDBComponentActionsView::WidgetActions(
                w@,
            ),
        }
    }
}

impl View for CloudWatchComponentActions {
    type V = CloudWatchComponentActionsView;

    open spec fn view(&self) -> CloudWatchComponentActionsView {
        match self {
            CloudWatchComponentActions::SelectLogGroup(g) => CloudWatchComponentActionsView::SelectLogGroup(
                g@,
            ),
            CloudWatchComponentActions::SearchLogs(f) => CloudWatchComponentActionsView::SearchLogs(
                f@,
            ),
            CloudWatchComponentActions::SetTimeRange(t) => CloudWatchComponentActionsView::SetTimeRange(
                t@,
            ),
            CloudWatchComponentActions::ViewLogDetails(l) => CloudWatchComponentActionsView::ViewLogDetails(
                l@,
            ),
            CloudWatchComponentActions::PopupDetails(d) => CloudWatchComponentActionsView::PopupDetails(
                d@,
            ),
            CloudWatchComponentActions::NextFocus => CloudWatchComponentActionsView::NextFocus,
            CloudWatchComponentActions::PreviousFocus => CloudWatchComponentActionsView::PreviousFocus,
            CloudWatchComponentActions::WidgetAction(w) => CloudWatchComponentActionsView::WidgetAction(
                w@,
            ),
        }
    }
}

impl View for ComponentActions {
    type V = ComponentActionsView;

    open spec fn view(&self) -> ComponentActionsView {
        match self {
            ComponentActions::S3ComponentActions(a) => ComponentActionsView::S3ComponentActions(a@),
            ComponentActions::DynamoDBComponentActions(a) => ComponentActionsView::DynamoDBComponentActions(
                a@,
            ),
            ComponentActions::CloudWatchComponentActions(a) => ComponentActionsView::CloudWatchComponentActions(
                a@,
            ),
        }
    }
}

impl View for TabEvent {
    type V = TabEventView;

    open spec fn view(&self) -> TabEventView {
        match self {
            TabEvent::TabAction(a) => TabEventView::TabAction(a@),
            TabEvent::WidgetActions(w) => TabEventView::WidgetActions(w@),
            TabEvent::ComponentActions(c) => TabEventView::ComponentActions(c@),
        }
    }
}

impl View for Event {
    type V = EventView;

    open spec fn view(&self) -> EventView {
        match self {
            Event::Tick => EventView::Tick,
            Event::Crossterm(k) => EventView::Crossterm(*k),
            Event::App(a) => EventView::App(*a),
            Event::Tab(t) => EventView::Tab(t@),
        }
    }
}

/// The view of an optional widget action.
pub open spec fn action_view(r: Option<WidgetAction>) -> Option<WidgetActionView> {
    match r {
        Some(a) => Some(a@),
        None => None,
    }
}

impl WidgetEventTypeView {
    /// The text by which a service or record is shown and filtered.
    pub open spec fn display_text(self) -> Seq<char> {
        match self {
            WidgetEventTypeView::S3 => "S3"@,
            WidgetEventTypeView::DynamoDB => "DynamoDB"@,
            WidgetEventTypeView::CloudWatch => "CloudWatch"@,
            WidgetEventTypeView::RecordSelected(r) => r,
        }
    }
}

impl WidgetEventType {
    /// The three services, in the order in which the navigator lists them.
    pub fn values() -> (v: Vec<WidgetEventType>)
        ensures
            v@.len() == 3,
            v@[0]@ == WidgetEventTypeView::S3,
            v@[1]@ == WidgetEventTypeView::DynamoDB,
            v@[2]@ == WidgetEventTypeView::CloudWatch,
    {
        let mut v = Vec::new();
        v.push(WidgetEventType::S3);
        v.push(WidgetEventType::DynamoDB);
        v.push(WidgetEventType::CloudWatch);
        v
    }

    /// The text by which the item is displayed.
    pub fn display_text(&self) -> (s: String)
        ensures
            s@ == self@.display_text(),
    {
        match self {
            WidgetEventType::S3 => "S3".to_string(),
            WidgetEventType::DynamoDB => "DynamoDB".to_string(),
            WidgetEventType::CloudWatch => "CloudWatch".to_string(),
            WidgetEventType::RecordSelected(record) => record.clone(),
        }
    }

    /// A copy of the item with the same view.
    pub fn duplicate(&self) -> (c: WidgetEventType)
        ensures
            c@ == self@,
    {
        match self {
            WidgetEventType::S3 => WidgetEventType::S3,
            WidgetEventType::DynamoDB => WidgetEventType::DynamoDB,
            WidgetEventType::CloudWatch => WidgetEventType::CloudWatch,
            WidgetEventType::RecordSelected(record) => WidgetEventType::RecordSelected(record.clone()),
        }
    }
}

} // verus!
