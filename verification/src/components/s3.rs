//! S3 component: buckets on the left, the objects under the current path on
//! the right, and a popup with the metadata of an object.
use vstd::prelude::*;
use crate::components::{
    Command, CommandView, ComponentFocus, commands_view, one_command, s3_command, send_s3,
    widget_as_s3,
};
use crate::components::aws_base_component::{
    AWSComponentBase, BaseView, next_focus, previous_focus, no_records,
};
use crate::event_managment::event::{
    InputBoxEvent, InputBoxEventView, InputBoxType, KeyCode, KeyEvent, S3ComponentActions,
    S3ComponentActionsView, ServiceNavigatorEvent, ServiceNavigatorEventView, WidgetAction,
    WidgetActionView, WidgetEventType, WidgetEventTypeView, WidgetType,
};
use crate::services::aws::s3_client::{S3ClientError, object_listing, object_listing_of};
use crate::text::{
    chars_of, chars_prefix, join2, join3, last_index_of, opt_text, rfind, string_from_chars,
    trim_trailing, trim_trailing_chars,
};
use crate::widgets::input_box::{ClipboardExchange, InputBoxView};
use crate::widgets::popup::{PopupContent, PopupContentView, PopupView};
use crate::widgets::service_navigator::{ContentView, NavigatorContent, NavigatorView};

verus! {

/// Component for interacting with AWS S3 storage
pub struct S3Component<C> {
    base: AWSComponentBase,
    s3_client: Option<C>,
    current_path: String,
    selected_bucket: Option<String>,
}

pub struct S3View {
    pub base: BaseView,
    pub has_client: bool,
    pub current_path: Seq<char>,
    pub selected_bucket: Option<Seq<char>>,
}

impl<C> View for S3Component<C> {
    type V = S3View;

    closed spec fn view(&self) -> S3View {
        S3View {
            base: self.base@,
            has_client: self.s3_client is Some,
            current_path: self.current_path@,
            selected_bucket: opt_text(self.selected_bucket),
        }
    }
}

/// A path inside the current one: the segment itself at the top level.
pub open spec fn join_path(current: Seq<char>, segment: Seq<char>) -> Seq<char> {
    if current.len() == 0 {
        segment
    } else {
        current + "/"@ + segment
    }
}

/// The path one level up: everything before the last slash, or the top.
pub open spec fn parent_path(path: Seq<char>) -> Seq<char> {
    match last_index_of(path, '/') {
        Some(i) => path.subrange(0, i),
        None => Seq::empty(),
    }
}

/// The title of an object listing: the path, or `/` at the top.
pub open spec fn path_title(path: Seq<char>) -> Seq<char> {
    "Path: "@ + if path.len() == 0 {
        "/"@
    } else {
        path
    }
}

/// The listing shown for a result: the objects, or an error line.
pub open spec fn listing_or_error(result: Result<Seq<Seq<char>>, ()>) -> Seq<Seq<char>> {
    match result {
        Ok(objects) => objects,
        Err(_) => seq!["Error listing objects"@],
    }
}

impl S3View {
    /// The component as it starts.
    pub open spec fn initial() -> S3View {
        S3View {
            base: BaseView::initial(ContentView::Records(Seq::empty())),
            has_client: false,
            current_path: Seq::empty(),
            selected_bucket: None,
        }
    }

    /// The state after the component gains or loses the focus of the tab.
    pub open spec fn activated(self, active: bool) -> S3View {
        S3View { base: BaseView { active, ..self.base }.with_widget_states(), ..self }
    }

    /// The state with the focus back on the navigator.
    pub open spec fn reset(self) -> S3View {
        self.with_focus(ComponentFocus::Navigation)
    }

    /// The state with the focus on the results, the last area.
    pub open spec fn focus_last(self) -> S3View {
        self.with_focus(ComponentFocus::Results)
    }

    /// The popup is showing and claims the key.
    pub open spec fn popup_takes(self, key: KeyEvent) -> bool {
        self.base.popup.visible && self.base.popup.key_action(key) is Some
    }

    /// Alt+1, Alt+2 and Alt+3 move the focus directly.
    pub open spec fn alt_target(self, key: KeyEvent) -> Option<ComponentFocus> {
        if key.modifiers.spec_alt_only() {
            match key.code {
                KeyCode::Char(c) => if c == '1' {
                    Some(ComponentFocus::Navigation)
                } else if c == '2' {
                    Some(ComponentFocus::Results)
                } else if c == '3' {
                    Some(ComponentFocus::Input)
                } else {
                    None
                },
                _ => None,
            }
        } else {
            None
        }
    }

    /// The key goes on to the focused widget.
    pub open spec fn forwards(self, key: KeyEvent) -> bool {
        !self.popup_takes(key) && self.alt_target(key) is None && key.code != KeyCode::Tab
            && key.code != KeyCode::BackTab && key.code != KeyCode::Backspace && key.code
            != KeyCode::Esc
    }

    /// The component can take the key: a paste into the focused input box
    /// needs room at its cursor.
    pub open spec fn accepts_key(self, key: KeyEvent, paste: Option<Seq<char>>) -> bool {
        self.base.focus == ComponentFocus::Input ==> self.base.input.accepts_key(key, paste)
    }

    /// The component can take the action: an input-box event needs the box to
    /// accept it.
    pub open spec fn accepts_action(self, a: S3ComponentActionsView) -> bool {
        match a {
            S3ComponentActionsView::WidgetAction(w) => self.base.input.accepts_action(w),
            _ => true,
        }
    }

    pub open spec fn with_focus(self, f: ComponentFocus) -> S3View {
        S3View { base: BaseView { focus: f, ..self.base }.with_widget_states(), ..self }
    }

    /// The state after the focused widget takes the key.
    pub open spec fn forwarded(self, key: KeyEvent, paste: Option<Seq<char>>) -> S3View {
        match self.base.focus {
            ComponentFocus::Navigation => S3View {
                base: BaseView { navigator: self.base.navigator.after_key(key), ..self.base },
                ..self
            },
            ComponentFocus::Input => S3View {
                base: BaseView { input: self.base.input.after_key(key, paste), ..self.base },
                ..self
            },
            ComponentFocus::Results => S3View {
                base: BaseView { results: self.base.results.after_key(key), ..self.base },
                ..self
            },
            _ => self,
        }
    }

    /// The action the focused widget produces for the key.
    pub open spec fn forwarded_action(self, key: KeyEvent, paste: Option<Seq<char>>) -> Option<
        WidgetActionView,
    > {
        match self.base.focus {
            ComponentFocus::Navigation => self.base.navigator.key_action(key),
            ComponentFocus::Input => self.base.input.key_action(key, paste),
            ComponentFocus::Results => self.base.results.key_action(key),
            _ => None,
        }
    }

    /// The state after a key press.
    pub open spec fn after_key(self, key: KeyEvent, paste: Option<Seq<char>>) -> S3View {
        if self.popup_takes(key) {
            self
        } else if let Some(f) = self.alt_target(key) {
            self.with_focus(f)
        } else if key.code == KeyCode::Esc {
            if self.base.focus != ComponentFocus::Navigation {
                self.with_focus(ComponentFocus::Navigation)
            } else {
                self
            }
        } else if self.forwards(key) {
            self.forwarded(key, paste)
        } else {
            self
        }
    }

    /// The commands a key press produces.
    pub open spec fn key_commands(self, key: KeyEvent, paste: Option<Seq<char>>) -> Seq<
        CommandView,
    > {
        if self.popup_takes(key) {
            widget_as_s3(self.base.popup.key_action(key))
        } else if key.code == KeyCode::Tab {
            seq![send_s3(S3ComponentActionsView::NextFocus)]
        } else if key.code == KeyCode::BackTab {
            seq![send_s3(S3ComponentActionsView::PreviousFocus)]
        } else if key.code == KeyCode::Backspace {
            if self.base.focus == ComponentFocus::Results {
                seq![send_s3(S3ComponentActionsView::NavigateUp)]
            } else {
                Seq::empty()
            }
        } else if self.forwards(key) {
            widget_as_s3(self.forwarded_action(key, paste))
        } else {
            Seq::empty()
        }
    }

    /// What a key press copies to the clipboard.
    pub open spec fn key_copy(self, key: KeyEvent) -> Option<Seq<char>> {
        if self.forwards(key) && self.base.focus == ComponentFocus::Input {
            self.base.input.key_copy(key)
        } else {
            None
        }
    }

    /// The state after an S3 action.
    pub open spec fn after_action(self, a: S3ComponentActionsView) -> S3View {
        match a {
            S3ComponentActionsView::SelectBucket(b) => S3View {
                selected_bucket: Some(b),
                current_path: Seq::empty(),
                base: BaseView {
                    navigator: NavigatorView { title: "Bucket: "@ + b, ..self.base.navigator },
                    ..self.base
                },
                ..self
            },
            S3ComponentActionsView::NavigateFolder(p) => if self.selected_bucket is Some {
                S3View { current_path: join_path(self.current_path, p), ..self }
            } else {
                self
            },
            S3ComponentActionsView::NavigateUp => if self.current_path.len() > 0 {
                S3View { current_path: parent_path(self.current_path), ..self }
            } else {
                self
            },
            S3ComponentActionsView::NextFocus => self.with_focus(next_focus(self.base.focus)),
            S3ComponentActionsView::PreviousFocus => self.with_focus(
                previous_focus(self.base.focus),
            ),
            S3ComponentActionsView::WidgetAction(w) => match w {
                WidgetActionView::ServiceNavigatorEvent(_, wt) => if wt
                    == WidgetType::AWSServiceNavigator {
                    S3View {
                        base: BaseView {
                            navigator: self.base.navigator.after_action(w),
                            ..self.base
                        },
                        ..self
                    }
                } else if wt == WidgetType::QueryResultsNavigator {
                    S3View {
                        base: BaseView { results: self.base.results.after_action(w), ..self.base },
                        ..self
                    }
                } else {
                    self
                },
                WidgetActionView::InputBoxEvent(_, _) => S3View {
                    base: BaseView { input: self.base.input.after_action(w), ..self.base },
                    ..self
                },
                WidgetActionView::PopupAction(_) => S3View {
                    base: BaseView {
                        popup: PopupView { visible: false, active: false, ..self.base.popup },
                        ..self.base
                    },
                    ..self
                },
                _ => self,
            },
            _ => self,
        }
    }

    /// The commands an S3 action produces.
    pub open spec fn action_commands(self, a: S3ComponentActionsView) -> Seq<CommandView> {
        match a {
            S3ComponentActionsView::SelectBucket(b) => if self.has_client {
                seq![CommandView::ListObjects { bucket: b, prefix: Seq::empty(), title: "Objects"@ }]
            } else {
                Seq::empty()
            },
            S3ComponentActionsView::NavigateFolder(p) => match self.selected_bucket {
                Some(b) => if self.has_client {
                    let full = join_path(self.current_path, p);
                    seq![CommandView::ListObjects { bucket: b, prefix: full, title: "Path: "@ + full }]
                } else {
                    Seq::empty()
                },
                None => Seq::empty(),
            },
            S3ComponentActionsView::NavigateUp => if self.current_path.len() > 0 {
                match self.selected_bucket {
                    Some(b) => seq![
                        send_s3(S3ComponentActionsView::LoadPath(b, parent_path(self.current_path))),
                    ],
                    None => Seq::empty(),
                }
            } else {
                Seq::empty()
            },
            S3ComponentActionsView::LoadPath(b, p) => if self.has_client {
                seq![CommandView::ListObjects { bucket: b, prefix: p, title: path_title(p) }]
            } else {
                Seq::empty()
            },
            S3ComponentActionsView::PopupDetails(k) => match self.selected_bucket {
                Some(b) => if self.has_client {
                    seq![CommandView::GetObjectDetails { bucket: b, key: join_path(self.current_path, k) }]
                } else {
                    Seq::empty()
                },
                None => Seq::empty(),
            },
            S3ComponentActionsView::WidgetAction(w) => match w {
                WidgetActionView::ServiceNavigatorEvent(_, wt) => if wt
                    == WidgetType::AWSServiceNavigator {
                    match self.base.navigator.action_result(w) {
                        Some(
                            WidgetActionView::ServiceNavigatorEvent(
                                ServiceNavigatorEventView::ItemSelected(
                                    WidgetEventTypeView::RecordSelected(bucket),
                                ),
                                WidgetType::AWSServiceNavigator,
                            ),
                        ) => seq![send_s3(S3ComponentActionsView::SelectBucket(bucket))],
                        _ => Seq::empty(),
                    }
                } else if wt == WidgetType::QueryResultsNavigator {
                    match self.base.results.action_result(w) {
                        Some(
                            WidgetActionView::ServiceNavigatorEvent(
                                ServiceNavigatorEventView::ItemSelected(
                                    WidgetEventTypeView::RecordSelected(path),
                                ),
                                WidgetType::QueryResultsNavigator,
                            ),
                        ) => if path.len() > 0 && path.last() == '/' {
                            seq![
                                send_s3(
                                    S3ComponentActionsView::NavigateFolder(trim_trailing(path, '/')),
                                ),
                            ]
                        } else {
                            seq![send_s3(S3ComponentActionsView::PopupDetails(path))]
                        },
                        _ => Seq::empty(),
                    }
                } else {
                    Seq::empty()
                },
                WidgetActionView::InputBoxEvent(_, _) => match self.base.input.action_result(w) {
                    Some(WidgetActionView::InputBoxEvent(InputBoxEventView::Written(content), _)) => {
                        match self.selected_bucket {
                            Some(b) => seq![
                                send_s3(
                                    S3ComponentActionsView::LoadPath(
                                        b,
                                        join_path(self.current_path, content),
                                    ),
                                ),
                            ],
                            None => Seq::empty(),
                        }
                    },
                    _ => Seq::empty(),
                },
                _ => Seq::empty(),
            },
            _ => Seq::empty(),
        }
    }

    /// The state after an object listing arrives.
    pub open spec fn with_objects(self, title: Seq<char>, objects: Seq<Seq<char>>) -> S3View {
        S3View {
            base: BaseView {
                results: NavigatorView { title, ..self.base.results }.with_content(
                    ContentView::Records(objects),
                ),
                ..self.base
            },
            ..self
        }
    }

    /// The state after object details arrive: the popup shows them.
    pub open spec fn with_details(self, details: Seq<char>) -> S3View {
        S3View {
            base: BaseView {
                popup: PopupView {
                    content: PopupContentView::Details(details),
                    visible: true,
                    active: true,
                    ..self.base.popup
                },
                ..self.base
            },
            ..self
        }
    }

    /// The state after the bucket list arrives.
    pub open spec fn with_buckets(self, buckets: Seq<Seq<char>>) -> S3View {
        S3View {
            base: BaseView {
                navigator: self.base.navigator.with_content(ContentView::Records(buckets)),
                results: NavigatorView {
                    title: "Select a bucket"@,
                    ..self.base.results.with_content(ContentView::Records(Seq::empty()))
                },
                ..self.base
            },
            ..self
        }
    }
}

/// A path inside the current one.
fn join_path_exec(current: &String, segment: &str) -> (r: String)
    ensures
        r@ == join_path(current@, segment@),
{
    if current.as_str().is_empty() {
        segment.to_string()
    } else {
        join3(current.as_str(), "/", segment)
    }
}

impl<C> S3Component<C> {
    /// Creates a new S3 component
    pub fn new() -> (c: S3Component<C>)
        ensures
            c@ == S3View::initial(),
    {
        Self {
            base: AWSComponentBase::new(no_records()),
            s3_client: None,
            current_path: String::new(),
            selected_bucket: None,
        }
    }

    /// Assigns an S3 client to this component
    pub fn set_client(&mut self, s3_client: C)
        ensures
            final(self)@ == (S3View { has_client: true, ..old(self)@ }),
            final(self).client() == Some(s3_client),
    {
        self.s3_client = Some(s3_client);
    }

    /// The client the component uses, if it has one.
    pub closed spec fn client(&self) -> Option<C> {
        self.s3_client
    }

    /// The client the component uses, if it has one.
    pub fn get_client(&self) -> (c: Option<&C>)
        ensures
            match c {
                Some(x) => self.client() == Some(*x),
                None => self.client() is None,
            },
            c is Some == self@.has_client,
    {
        self.s3_client.as_ref()
    }

    /// The shared widgets, for rendering.
    pub fn base(&self) -> (b: &AWSComponentBase)
        ensures
            b@ == self@.base,
    {
        &self.base
    }

    /// Whether the component can take the key, given the clipboard.
    pub fn accepts_key(&self, key_event: KeyEvent, clipboard: &ClipboardExchange) -> (b: bool)
        ensures
            b == self@.accepts_key(key_event, clipboard.paste_view()),
    {
        self.base.current_focus != ComponentFocus::Input || self.base.input.accepts_key(key_event, clipboard)
    }

    /// Whether the component can take the action.
    pub fn accepts_action(&self, event: &S3ComponentActions) -> (b: bool)
        ensures
            b == self@.accepts_action(event@),
    {
        match event {
            S3ComponentActions::WidgetAction(w) => self.base.input.accepts_action(w),
            _ => true,
        }
    }

    /// Handles keyboard input for the S3 component
    #[verifier::rlimit(40)]
    pub fn handle_input(&mut self, key_event: KeyEvent, clipboard: &mut ClipboardExchange) -> (cmds:
        Vec<Command>)
        requires
            old(self)@.accepts_key(key_event, old(clipboard).paste_view()),
        ensures
            final(self)@ == old(self)@.after_key(key_event, old(clipboard).paste_view()),
            commands_view(cmds@) == old(self)@.key_commands(key_event, old(clipboard).paste_view()),
            final(clipboard).paste_text == old(clipboard).paste_text,
            final(clipboard).copy_view() == match old(self)@.key_copy(key_event) {
                Some(t) => Some(t),
                None => old(clipboard).copy_view(),
            },
    {
        let ghost v = self@;
        if self.base.details_popup.is_visible() {
            if let Some(signal) = self.base.details_popup.handle_input(key_event) {
                return one_command(s3_command(S3ComponentActions::WidgetAction(signal)));
            }
        }
        assert(!v.popup_takes(key_event));
        let alt = key_event.modifiers.is_alt_only();
        match key_event.code {
            KeyCode::Tab => {
                return one_command(s3_command(S3ComponentActions::NextFocus));
            },
            KeyCode::BackTab => {
                return one_command(s3_command(S3ComponentActions::PreviousFocus));
            },
            KeyCode::Backspace => {
                if self.base.current_focus == ComponentFocus::Results {
                    return one_command(s3_command(S3ComponentActions::NavigateUp));
                }
                let v: Vec<Command> = Vec::new();
                assert(commands_view(v@) =~= Seq::empty());
                return v;
            },
            KeyCode::Char(c) => {
                if alt && (c == '1' || c == '2' || c == '3') {
                    self.base.current_focus = if c == '1' {
                        ComponentFocus::Navigation
                    } else if c == '2' {
                        ComponentFocus::Results
                    } else {
                        ComponentFocus::Input
                    };
                    self.base.update_widget_states();
                    let v: Vec<Command> = Vec::new();
                    assert(commands_view(v@) =~= Seq::empty());
                    return v;
                }
            },
            KeyCode::Esc => {
                if self.base.current_focus != ComponentFocus::Navigation {
                    self.base.current_focus = ComponentFocus::Navigation;
                    self.base.update_widget_states();
                }
                let v: Vec<Command> = Vec::new();
                assert(commands_view(v@) =~= Seq::empty());
                return v;
            },
            _ => {},
        }
        assert(v.forwards(key_event));
        let signal = self.forward_key(key_event, clipboard);
        match signal {
            Some(signal) => one_command(s3_command(S3ComponentActions::WidgetAction(signal))),
            None => {
                let v: Vec<Command> = Vec::new();
                assert(commands_view(v@) =~= Seq::empty());
                v
            },
        }
    }

    /// Hands the key to the focused widget.
    fn forward_key(&mut self, key_event: KeyEvent, clipboard: &mut ClipboardExchange) -> (r: Option<
        WidgetAction,
    >)
        requires
            old(self)@.accepts_key(key_event, old(clipboard).paste_view()),
        ensures
            final(self)@ == old(self)@.forwarded(key_event, old(clipboard).paste_view()),
            crate::event_managment::event::action_view(r) == old(self)@.forwarded_action(
                key_event,
                old(clipboard).paste_view(),
            ),
            final(clipboard).paste_text == old(clipboard).paste_text,
            final(clipboard).copy_view() == match (if old(self)@.base.focus == ComponentFocus::Input {
                old(self)@.base.input.key_copy(key_event)
            } else {
                None
            }) {
                Some(t) => Some(t),
                None => old(clipboard).copy_view(),
            },
    {
        match self.base.current_focus {
            ComponentFocus::Navigation => self.base.navigator.handle_input(key_event),
            ComponentFocus::Input => self.base.input.handle_input(key_event, clipboard),
            ComponentFocus::Results => self.base.results_navigator.handle_input(key_event),
            _ => None,
        }
    }

    /// Processes S3-specific component actions
    pub fn process_event(&mut self, event: S3ComponentActions) -> (cmds: Vec<Command>)
        requires
            old(self)@.accepts_action(event@),
        ensures
            final(self)@ == old(self)@.after_action(event@),
            commands_view(cmds@) == old(self)@.action_commands(event@),
    {
        let mut cmds: Vec<Command> = Vec::new();
        assert(commands_view(cmds@) =~= Seq::empty());
        match event {
            S3ComponentActions::SelectBucket(bucket) => {
                cmds = self.handle_bucket_selection(bucket);
            },
            S3ComponentActions::NavigateFolder(path) => {
                cmds = self.navigate_folder(path);
            },
            S3ComponentActions::NavigateUp => {
                cmds = self.navigate_up();
            },
            S3ComponentActions::LoadPath(bucket, path) => {
                if self.s3_client.is_some() {
                    let shown = if path.as_str().is_empty() {
                        "/".to_string()
                    } else {
                        path.clone()
                    };
                    cmds = one_command(
                        Command::ListObjects {
                            bucket,
                            prefix: path,
                            title: join2("Path: ", shown.as_str()),
                        },
                    );
                }
            },
            S3ComponentActions::PopupDetails(key) => {
                if let Some(bucket) = &self.selected_bucket {
                    if self.s3_client.is_some() {
                        let full_key = join_path_exec(&self.current_path, key.as_str());
                        cmds = one_command(
                            Command::GetObjectDetails { bucket: bucket.clone(), key: full_key },
                        );
                    }
                }
            },
            S3ComponentActions::NextFocus => {
                self.base.focus_next();
                self.base.update_widget_states();
            },
            S3ComponentActions::PreviousFocus => {
                self.base.focus_previous();
                self.base.update_widget_states();
            },
            S3ComponentActions::WidgetAction(widget_action) => {
                cmds = self.process_widget_action(widget_action);
            },
            _ => {},
        }
        cmds
    }

    /// Opens a bucket at its top level and lists its objects.
    fn handle_bucket_selection(&mut self, bucket: String) -> (cmds: Vec<Command>)
        ensures
            final(self)@ == old(self)@.after_action(S3ComponentActionsView::SelectBucket(bucket@)),
            commands_view(cmds@) == old(self)@.action_commands(
                S3ComponentActionsView::SelectBucket(bucket@),
            ),
    {
        let mut cmds: Vec<Command> = Vec::new();
        assert(commands_view(cmds@) =~= Seq::empty());
        self.selected_bucket = Some(bucket.clone());
        self.current_path = String::new();
        self.base.navigator.set_title(join2("Bucket: ", bucket.as_str()));
        if self.s3_client.is_some() {
            cmds = one_command(
                Command::ListObjects { bucket, prefix: String::new(), title: "Objects".to_string() },
            );
        }
        cmds
    }

    /// Navigate into a folder in the current bucket
    fn navigate_folder(&mut self, path: String) -> (cmds: Vec<Command>)
        ensures
            final(self)@ == old(self)@.after_action(S3ComponentActionsView::NavigateFolder(path@)),
            commands_view(cmds@) == old(self)@.action_commands(
                S3ComponentActionsView::NavigateFolder(path@),
            ),
    {
        let mut cmds: Vec<Command> = Vec::new();
        assert(commands_view(cmds@) =~= Seq::empty());
        if let Some(bucket) = &self.selected_bucket {
            let full_path = join_path_exec(&self.current_path, path.as_str());
            if self.s3_client.is_some() {
                cmds = one_command(
                    Command::ListObjects {
                        bucket: bucket.clone(),
                        prefix: full_path.clone(),
                        title: join2("Path: ", full_path.as_str()),
                    },
                );
            }
            self.current_path = full_path;
        }
        cmds
    }

    /// Navigate up one directory level
    fn navigate_up(&mut self) -> (cmds: Vec<Command>)
        ensures
            final(self)@ == old(self)@.after_action(S3ComponentActionsView::NavigateUp),
            commands_view(cmds@) == old(self)@.action_commands(S3ComponentActionsView::NavigateUp),
    {
        let mut cmds: Vec<Command> = Vec::new();
        assert(commands_view(cmds@) =~= Seq::empty());
        if !self.current_path.as_str().is_empty() {
            let chars = chars_of(self.current_path.as_str());
            let parent = match rfind(chars.as_slice(), '/') {
                Some(last_slash) => string_from_chars(chars_prefix(chars.as_slice(), last_slash).as_slice()),
                None => String::new(),
            };
            self.current_path = parent;
            if let Some(bucket) = &self.selected_bucket {
                cmds = one_command(
                    s3_command(S3ComponentActions::LoadPath(bucket.clone(), self.current_path.clone())),
                );
            }
        }
        cmds
    }

    /// Routes an action of one of the component's widgets.
    fn process_widget_action(&mut self, widget_action: WidgetAction) -> (cmds: Vec<Command>)
        requires
            old(self)@.accepts_action(S3ComponentActionsView::WidgetAction(widget_action@)),
        ensures
            final(self)@ == old(self)@.after_action(
                S3ComponentActionsView::WidgetAction(widget_action@),
            ),
            commands_view(cmds@) == old(self)@.action_commands(
                S3ComponentActionsView::WidgetAction(widget_action@),
            ),
    {
        let mut cmds: Vec<Command> = Vec::new();
        assert(commands_view(cmds@) =~= Seq::empty());
        match widget_action {
            WidgetAction::ServiceNavigatorEvent(nav_event, widget_type) => {
                let action = WidgetAction::ServiceNavigatorEvent(nav_event, widget_type);
                if widget_type == WidgetType::AWSServiceNavigator {
                    let signal = self.base.navigator.process_event(action);
                    if let Some(
                        WidgetAction::ServiceNavigatorEvent(
                            ServiceNavigatorEvent::ItemSelected(
                                WidgetEventType::RecordSelected(bucket),
                            ),
                            WidgetType::AWSServiceNavigator,
                        ),
                    ) = signal {
                        cmds = one_command(s3_command(S3ComponentActions::SelectBucket(bucket)));
                    }
                } else if widget_type == WidgetType::QueryResultsNavigator {
                    let signal = self.base.results_navigator.process_event(action);
                    if let Some(
                        WidgetAction::ServiceNavigatorEvent(
                            ServiceNavigatorEvent::ItemSelected(
                                WidgetEventType::RecordSelected(path),
                            ),
                            WidgetType::QueryResultsNavigator,
                        ),
                    ) = signal {
                        let chars = chars_of(path.as_str());
                        if chars.len() > 0 && chars[chars.len() - 1] == '/' {
                            let folder = string_from_chars(
                                trim_trailing_chars(chars.as_slice(), '/').as_slice(),
                            );
                            cmds = one_command(s3_command(S3ComponentActions::NavigateFolder(folder)));
                        } else {
                            cmds = one_command(s3_command(S3ComponentActions::PopupDetails(path)));
                        }
                    }
                }
            },
            WidgetAction::InputBoxEvent(input_event, input_type) => {
                let action = WidgetAction::InputBoxEvent(input_event, input_type);
                let signal = self.base.input.process_event(action);
                if let Some(WidgetAction::InputBoxEvent(InputBoxEvent::Written(content), _)) = signal {
                    if let Some(bucket) = &self.selected_bucket {
                        let search_path = join_path_exec(&self.current_path, content.as_str());
                        cmds = one_command(
                            s3_command(S3ComponentActions::LoadPath(bucket.clone(), search_path)),
                        );
                    }
                }
            },
            WidgetAction::PopupAction(_) => {
                self.base.details_popup.set_visible(false);
                self.base.details_popup.set_active(false);
            },
            _ => {},
        }
        cmds
    }

    /// Shows an object listing that arrived, or an error line where the listing failed.
    pub fn objects_listed(&mut self, title: String, result: Result<Vec<String>, S3ClientError>)
        ensures
            final(self)@ == old(self)@.with_objects(
                title@,
                listing_or_error(
                    match result {
                        Ok(v) => Ok(v.deep_view()),
                        Err(_) => Err(()),
                    },
                ),
            ),
    {
        let objects = match result {
            Ok(objects) => objects,
            Err(_) => {
                let mut v = Vec::new();
                v.push("Error listing objects".to_string());
                assert(v.deep_view() =~= seq!["Error listing objects"@]);
                v
            },
        };
        self.base.results_navigator.set_title(title);
        self.base.results_navigator.set_content(NavigatorContent::Records(objects));
    }

    /// Shows the metadata of an object in the popup, or an error text.
    pub fn object_details_loaded(&mut self, result: Result<String, S3ClientError>)
        ensures
            final(self)@ == old(self)@.with_details(
                match result {
                    Ok(d) => d@,
                    Err(_) => "Error fetching object details"@,
                },
            ),
    {
        let details = match result {
            Ok(details) => details,
            Err(_) => "Error fetching object details".to_string(),
        };
        self.base.details_popup.set_content(PopupContent::Details(details));
        self.base.details_popup.set_visible(true);
        self.base.details_popup.set_active(true);
    }

    /// The requests that refresh the component: the bucket list, where there is a client.
    pub fn update(&self) -> (cmds: Vec<Command>)
        ensures
            commands_view(cmds@) == if self@.has_client {
                seq![CommandView::ListBuckets]
            } else {
                Seq::<CommandView>::empty()
            },
    {
        if self.s3_client.is_some() {
            one_command(Command::ListBuckets)
        } else {
            let v: Vec<Command> = Vec::new();
            assert(commands_view(v@) =~= Seq::empty());
            v
        }
    }

    /// Shows the bucket list that arrived; a failed listing is handed back unchanged.
    pub fn buckets_listed(&mut self, result: Result<Vec<String>, S3ClientError>) -> (r: Result<
        (),
        S3ClientError,
    >)
        ensures
            match result {
                Ok(b) => r is Ok && final(self)@ == old(self)@.with_buckets(b.deep_view()),
                Err(e) => r == Err::<(), S3ClientError>(e) && final(self)@ == old(self)@,
            },
    {
        match result {
            Ok(buckets) => {
                self.base.navigator.set_content(NavigatorContent::Records(buckets));
                self.base.results_navigator.set_content(no_records());
                self.base.results_navigator.set_title("Select a bucket".to_string());
                Ok(())
            },
            Err(e) => Err(e),
        }
    }

    /// Sets the active state of this component
    pub fn set_active(&mut self, active: bool)
        ensures
            final(self)@ == old(self)@.activated(active),
    {
        self.base.active = active;
        self.base.update_widget_states();
    }

    pub fn is_active(&self) -> (b: bool)
        ensures
            b == self@.base.active,
    {
        self.base.active
    }

    pub fn set_visible(&mut self, visible: bool)
        ensures
            final(self)@ == (S3View { base: BaseView { visible, ..old(self)@.base }, ..old(self)@ }),
    {
        self.base.visible = visible;
    }

    pub fn is_visible(&self) -> (b: bool)
        ensures
            b == self@.base.visible,
    {
        self.base.visible
    }

    pub fn get_current_focus(&self) -> (f: ComponentFocus)
        ensures
            f == self@.base.focus,
    {
        self.base.current_focus
    }

    /// Resets focus to the navigation pane
    pub fn reset_focus(&mut self)
        ensures
            final(self)@ == old(self)@.reset(),
    {
        self.base.current_focus = ComponentFocus::Navigation;
        self.base.update_widget_states();
    }

    /// Moves the focus to the results, the last area in the cycle.
    pub fn set_focus_to_last(&mut self)
        ensures
            final(self)@ == old(self)@.focus_last(),
    {
        self.base.set_focus_to_last();
        self.base.update_widget_states();
    }

    pub fn get_help_items(&self) -> (items: Vec<(String, String)>)
        ensures
            items.deep_view() == self@.base.help_items(),
    {
        self.base.get_help_items()
    }
}

proof fn lemma_last_slash_after(a: Seq<char>, b: Seq<char>)
    requires
        !b.contains('/'),
    ensures
        last_index_of(a + seq!['/'] + b, '/') == Some(a.len() as int),
    decreases b.len(),
{
    let s = a + seq!['/'] + b;
    if b.len() == 0 {
        assert(s.last() == '/');
    } else {
        assert(s.last() == b.last());
        assert(!b.drop_last().contains('/')) by {
            if b.drop_last().contains('/') {
                let i = choose|i: int| 0 <= i < b.drop_last().len() && b.drop_last()[i] == '/';
                assert(b[i] == '/');
            }
        }
        assert(s.drop_last() =~= a + seq!['/'] + b.drop_last());
        lemma_last_slash_after(a, b.drop_last());
    }
}

proof fn lemma_no_slash(b: Seq<char>)
    requires
        !b.contains('/'),
    ensures
        last_index_of(b, '/') is None,
    decreases b.len(),
{
    if b.len() > 0 {
        assert(b.last() == b[b.len() - 1]);
        assert(!b.drop_last().contains('/')) by {
            if b.drop_last().contains('/') {
                let i = choose|i: int| 0 <= i < b.drop_last().len() && b.drop_last()[i] == '/';
                assert(b[i] == '/');
            }
        }
        lemma_no_slash(b.drop_last());
    }
}

/// Going into a folder and then up comes back to the folder one started in
/// (for a folder name without a slash, in an open bucket); going up asks for
/// the listing of the parent path.
pub proof fn lemma_folder_then_up(v: S3View, folder: Seq<char>)
    requires
        v.selected_bucket is Some,
        !folder.contains('/'),
    ensures
        v.after_action(S3ComponentActionsView::NavigateFolder(folder)).after_action(
            S3ComponentActionsView::NavigateUp,
        ).current_path == v.current_path,
{
    let inside = v.after_action(S3ComponentActionsView::NavigateFolder(folder));
    if v.current_path.len() == 0 {
        assert(inside.current_path == folder);
        lemma_no_slash(folder);
        assert(Seq::<char>::empty() =~= v.current_path);
    } else {
        reveal_strlit("/");
        assert("/"@ =~= seq!['/']);
        assert(inside.current_path == v.current_path + seq!['/'] + folder);
        lemma_last_slash_after(v.current_path, folder);
        assert((v.current_path + seq!['/'] + folder).subrange(0, v.current_path.len() as int)
            =~= v.current_path);
    }
}

/// Moving the focus forward and then back (or back and then forward) returns
/// it to the area it was on.
pub proof fn lemma_s3_focus_round_trip(v: S3View)
    ensures
        v.after_action(S3ComponentActionsView::NextFocus).after_action(
            S3ComponentActionsView::PreviousFocus,
        ).base.focus == v.base.focus,
        v.after_action(S3ComponentActionsView::PreviousFocus).after_action(
            S3ComponentActionsView::NextFocus,
        ).base.focus == v.base.focus,
{
}

/// The details asked for are those of the object in the current folder: with
/// a bucket open and a client, the key requested is the current path, a `/`
/// and the name, or the name alone at the top of the bucket.
pub proof fn lemma_details_key_in_current_folder(v: S3View, name: Seq<char>, b: Seq<char>)
    requires
        v.selected_bucket == Some(b),
        v.has_client,
    ensures
        v.current_path.len() > 0 ==> v.action_commands(S3ComponentActionsView::PopupDetails(name))
            == seq![CommandView::GetObjectDetails { bucket: b, key: v.current_path + seq!['/'] + name }],
        v.current_path.len() == 0 ==> v.action_commands(S3ComponentActionsView::PopupDetails(name))
            == seq![CommandView::GetObjectDetails { bucket: b, key: name }],
{
    reveal_strlit("/");
    assert("/"@ =~= seq!['/']);
}

/// A search submitted in the input box lists the objects under the typed
/// prefix inside the current folder: in folder `p` the prefix loaded is `p`, a
/// `/` and the text (so it starts with `p`), at the top of the bucket the text
/// alone. Enter submits the text the box holds.
pub proof fn lemma_search_under_current_folder(
    v: S3View,
    e: InputBoxEventView,
    t: InputBoxType,
    b: Seq<char>,
    text: Seq<char>,
)
    requires
        v.selected_bucket == Some(b),
        v.base.input.action_result(WidgetActionView::InputBoxEvent(e, t)) matches Some(
            WidgetActionView::InputBoxEvent(InputBoxEventView::Written(c), _),
        ) && c == text,
    ensures
        v.current_path.len() > 0 ==> v.action_commands(
            S3ComponentActionsView::WidgetAction(WidgetActionView::InputBoxEvent(e, t)),
        ) == seq![
            send_s3(S3ComponentActionsView::LoadPath(b, v.current_path + seq!['/'] + text)),
        ],
        v.current_path.len() > 0 ==> v.current_path.is_prefix_of(v.current_path + seq!['/'] + text),
        v.current_path.len() == 0 ==> v.action_commands(
            S3ComponentActionsView::WidgetAction(WidgetActionView::InputBoxEvent(e, t)),
        ) == seq![send_s3(S3ComponentActionsView::LoadPath(b, text))],
        e == InputBoxEventView::Enter ==> text == v.base.input.content,
{
    reveal_strlit("/");
    assert("/"@ =~= seq!['/']);
    assert(v.current_path =~= (v.current_path + seq!['/'] + text).subrange(0, v.current_path.len() as int));
}

} // verus!
