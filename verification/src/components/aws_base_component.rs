//! The part shared by the S3 and CloudWatch components: a navigator on the
//! left, an input box, a results list and a details popup, with a focus that
//! cycles through them.
use vstd::prelude::*;
use crate::components::ComponentFocus;
use crate::event_managment::event::{InputBoxType, WidgetType};
use crate::widgets::input_box::{InputBoxView, InputBoxWidget};
use crate::widgets::popup::{PopupContent, PopupContentView, PopupView, PopupWidget};
use crate::widgets::service_navigator::{AWSServiceNavigator, ContentView, NavigatorContent, NavigatorView};

verus! {

/// The focus after the current one, in the cycle
/// Navigation, Input, TimeRange, Results, None.
pub open spec fn next_focus(f: ComponentFocus) -> ComponentFocus {
    match f {
        ComponentFocus::Navigation => ComponentFocus::Input,
        ComponentFocus::Input => ComponentFocus::TimeRange,
        ComponentFocus::TimeRange => ComponentFocus::Results,
        ComponentFocus::Results => ComponentFocus::NoFocus,
        ComponentFocus::NoFocus => ComponentFocus::Navigation,
    }
}

/// The focus before the current one in the same cycle.
pub open spec fn previous_focus(f: ComponentFocus) -> ComponentFocus {
    match f {
        ComponentFocus::Navigation => ComponentFocus::NoFocus,
        ComponentFocus::Input => ComponentFocus::Navigation,
        ComponentFocus::TimeRange => ComponentFocus::Input,
        ComponentFocus::Results => ComponentFocus::TimeRange,
        ComponentFocus::NoFocus => ComponentFocus::Results,
    }
}

/// Moving the focus forward and then back returns it where it was, and so
/// does moving back and then forward.
pub proof fn lemma_focus_next_previous_inverse(f: ComponentFocus)
    ensures
        previous_focus(next_focus(f)) == f,
        next_focus(previous_focus(f)) == f,
{
}

/// Moving the focus forward five times returns it where it was: the cycle
/// has five places.
pub proof fn lemma_focus_cycle(f: ComponentFocus)
    ensures
        next_focus(next_focus(next_focus(next_focus(next_focus(f))))) == f,
        next_focus(f) != f,
{
}

/// The focus after the current one.
pub fn focus_after(f: ComponentFocus) -> (r: ComponentFocus)
    ensures
        r == next_focus(f),
{
    match f {
        ComponentFocus::Navigation => ComponentFocus::Input,
        ComponentFocus::Input => ComponentFocus::TimeRange,
        ComponentFocus::TimeRange => ComponentFocus::Results,
        ComponentFocus::Results => ComponentFocus::NoFocus,
        ComponentFocus::NoFocus => ComponentFocus::Navigation,
    }
}

/// The focus before the current one.
pub fn focus_before(f: ComponentFocus) -> (r: ComponentFocus)
    ensures
        r == previous_focus(f),
{
    match f {
        ComponentFocus::Navigation => ComponentFocus::NoFocus,
        ComponentFocus::Input => ComponentFocus::Navigation,
        ComponentFocus::TimeRange => ComponentFocus::Input,
        ComponentFocus::Results => ComponentFocus::TimeRange,
        ComponentFocus::NoFocus => ComponentFocus::Results,
    }
}

/// Base component providing common functionality for all AWS service components
pub struct AWSComponentBase {
    /// Left navigator widget for service/bucket/table lists
    pub navigator: AWSServiceNavigator,
    /// Input widget for search/filter/query commands
    pub input: InputBoxWidget,
    /// Results area displaying query results or service content
    pub results_navigator: AWSServiceNavigator,
    /// Popup for displaying details and additional information
    pub details_popup: PopupWidget,
    /// Whether the component is currently active
    pub active: bool,
    /// Whether the component is currently visible
    pub visible: bool,
    /// Current focus state within the component
    pub current_focus: ComponentFocus,
    /// Currently selected item (bucket, table, log group, etc.)
    pub selected_item: Option<String>,
    /// Current query string being executed
    pub selected_query: Option<String>,
}

pub struct BaseView {
    pub navigator: NavigatorView,
    pub input: InputBoxView,
    pub results: NavigatorView,
    pub popup: PopupView,
    pub active: bool,
    pub visible: bool,
    pub focus: ComponentFocus,
    pub selected_item: Option<Seq<char>>,
    pub selected_query: Option<Seq<char>>,
}

impl View for AWSComponentBase {
    type V = BaseView;

    open spec fn view(&self) -> BaseView {
        BaseView {
            navigator: self.navigator@,
            input: self.input@,
            results: self.results_navigator@,
            popup: self.details_popup@,
            active: self.active,
            visible: self.visible,
            focus: self.current_focus,
            selected_item: match self.selected_item {
                Some(s) => Some(s@),
                None => None,
            },
            selected_query: match self.selected_query {
                Some(s) => Some(s@),
                None => None,
            },
        }
    }
}

/// The details popup as a component starts with it: hidden, holding a placeholder.
pub open spec fn initial_details_popup() -> PopupView {
    PopupView {
        content: PopupContentView::Profiles(seq!["No content"@]),
        title: "Details"@,
        selected_item: None,
        selection_index: 0,
        active: false,
        visible: false,
    }
}

/// A filterable navigator as components start with it.
pub open spec fn initial_navigator(widget_type: WidgetType, content: ContentView) -> NavigatorView {
    NavigatorView {
        title: "AWS Services"@,
        widget_type,
        content,
        filtered: content,
        filter_text: Seq::empty(),
        selected: 0,
        scroll: 0,
        active: false,
        visible: true,
        filter_mode: false,
    }
}

/// An input box as components start with it.
pub open spec fn initial_input(input_type: InputBoxType, title: Seq<char>) -> InputBoxView {
    InputBoxView {
        input_type,
        content: Seq::empty(),
        cursor: 0,
        active: false,
        visible: true,
        title,
    }
}

impl BaseView {
    /// The widgets' active flags follow the focus while the component is active.
    pub open spec fn with_widget_states(self) -> BaseView {
        BaseView {
            navigator: NavigatorView {
                active: self.active && self.focus == ComponentFocus::Navigation,
                ..self.navigator
            },
            input: InputBoxView {
                active: self.active && self.focus == ComponentFocus::Input,
                ..self.input
            },
            results: NavigatorView {
                active: self.active && self.focus == ComponentFocus::Results,
                ..self.results
            },
            ..self
        }
    }

    /// The keyboard help for the popup or for the focused area.
    pub open spec fn help_items(self) -> Seq<(Seq<char>, Seq<char>)> {
        if self.popup.visible {
            seq![("Esc"@, "Close details"@), ("PgUp/PgDn"@, "Scroll content"@)]
        } else {
            match self.focus {
                ComponentFocus::Navigation => seq![
                    ("Enter"@, "Select log group"@),
                    ("Alt+2"@, "Focus results"@),
                    ("Alt+3"@, "Focus input"@),
                ],
                ComponentFocus::Results => seq![
                    ("Enter"@, "View log details"@),
                    ("Alt+1"@, "Focus log groups"@),
                    ("Alt+3"@, "Focus input"@),
                ],
                ComponentFocus::Input => seq![
                    ("Enter"@, "Search logs"@),
                    ("Alt+1"@, "Focus log groups"@),
                    ("Alt+2"@, "Focus results"@),
                ],
                _ => Seq::empty(),
            }
        }
    }

    /// A base as it is created around a navigator content.
    pub open spec fn initial(content: ContentView) -> BaseView {
        BaseView {
            navigator: initial_navigator(WidgetType::AWSServiceNavigator, content),
            input: initial_input(InputBoxType::Text, "Query Input"@),
            results: initial_navigator(WidgetType::QueryResultsNavigator, ContentView::Records(Seq::empty())),
            popup: initial_details_popup(),
            active: false,
            visible: true,
            focus: ComponentFocus::Navigation,
            selected_item: None,
            selected_query: None,
        }
    }
}

/// The details popup as a component starts with it.
pub fn new_details_popup() -> (p: PopupWidget)
    ensures
        p@ == initial_details_popup(),
{
    let mut placeholder = Vec::new();
    placeholder.push("No content".to_string());
    let content = PopupContent::Profiles(placeholder);
    assert(content@ == PopupContentView::Profiles(seq!["No content"@])) by {
        assert(placeholder.deep_view() =~= seq!["No content"@]);
    }
    PopupWidget::new(content, "Details", false, false)
}

/// An empty record list.
pub fn no_records() -> (c: NavigatorContent)
    ensures
        c@ == ContentView::Records(Seq::empty()),
{
    let v: Vec<String> = Vec::new();
    assert(v.deep_view() =~= Seq::<Seq<char>>::empty());
    NavigatorContent::Records(v)
}

impl AWSComponentBase {
    /// Creates a new base component with default widget configuration
    pub fn new(navigator_content: NavigatorContent) -> (b: AWSComponentBase)
        ensures
            b@ == BaseView::initial(navigator_content@),
    {
        Self {
            navigator: AWSServiceNavigator::new(
                WidgetType::AWSServiceNavigator,
                false,
                navigator_content,
            ),
            input: InputBoxWidget::new(InputBoxType::Text, "Query Input", false),
            results_navigator: AWSServiceNavigator::new(
                WidgetType::QueryResultsNavigator,
                false,
                no_records(),
            ),
            details_popup: new_details_popup(),
            active: false,
            visible: true,
            current_focus: ComponentFocus::Navigation,
            selected_item: None,
            selected_query: None,
        }
    }

    /// Updates active states of all widgets based on current focus
    pub fn update_widget_states(&mut self)
        ensures
            final(self)@ == old(self)@.with_widget_states(),
    {
        let active = self.active;
        let focus = self.current_focus;
        self.navigator.set_active(active && focus == ComponentFocus::Navigation);
        self.input.set_active(active && focus == ComponentFocus::Input);
        self.results_navigator.set_active(active && focus == ComponentFocus::Results);
    }

    /// Shifts focus to the previous widget in the cyclic order
    pub fn focus_previous(&mut self) -> (f: ComponentFocus)
        ensures
            final(self)@ == (BaseView { focus: previous_focus(old(self)@.focus), ..old(self)@ }),
            f == previous_focus(old(self)@.focus),
    {
        self.current_focus = focus_before(self.current_focus);
        self.current_focus
    }

    /// Shifts focus to the next widget in the cyclic order
    pub fn focus_next(&mut self) -> (f: ComponentFocus)
        ensures
            final(self)@ == (BaseView { focus: next_focus(old(self)@.focus), ..old(self)@ }),
            f == next_focus(old(self)@.focus),
    {
        self.current_focus = focus_after(self.current_focus);
        self.current_focus
    }

    /// Sets focus to the results area (typically the last widget in focus order)
    pub fn set_focus_to_last(&mut self) -> (f: ComponentFocus)
        ensures
            final(self)@ == (BaseView { focus: ComponentFocus::Results, ..old(self)@ }),
            f == ComponentFocus::Results,
    {
        self.current_focus = ComponentFocus::Results;
        self.current_focus
    }

    /// Returns contextual help items based on current component state
    pub fn get_help_items(&self) -> (items: Vec<(String, String)>)
        ensures
            items.deep_view() == self@.help_items(),
    {
        let mut items = Vec::new();
        if self.details_popup.is_visible() {
            items.push(("Esc".to_string(), "Close details".to_string()));
            items.push(("PgUp/PgDn".to_string(), "Scroll content".to_string()));
            assert(items.deep_view() =~= self@.help_items());
            return items;
        }
        match self.current_focus {
            ComponentFocus::Navigation => {
                items.push(("Enter".to_string(), "Select log group".to_string()));
                items.push(("Alt+2".to_string(), "Focus results".to_string()));
                items.push(("Alt+3".to_string(), "Focus input".to_string()));
            },
            ComponentFocus::Results => {
                items.push(("Enter".to_string(), "View log details".to_string()));
                items.push(("Alt+1".to_string(), "Focus log groups".to_string()));
                items.push(("Alt+3".to_string(), "Focus input".to_string()));
            },
            ComponentFocus::Input => {
                items.push(("Enter".to_string(), "Search logs".to_string()));
                items.push(("Alt+1".to_string(), "Focus log groups".to_string()));
                items.push(("Alt+2".to_string(), "Focus results".to_string()));
            },
            _ => {},
        }
        assert(items.deep_view() =~= self@.help_items());
        items
    }
}

} // verus!
