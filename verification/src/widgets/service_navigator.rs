//! Service navigator: a scrollable, filterable list of services or records.
//!
//! The list keeps its full content and the part of it that matches the
//! filter; selection and scrolling work on the filtered part.
use vstd::prelude::*;
use crate::event_managment::event::{
    InputBoxEvent, InputBoxEventView, InputBoxType, KeyCode, KeyEvent, ServiceNavigatorEvent,
    ServiceNavigatorEventView, WidgetAction, WidgetActionView, WidgetEventType,
    WidgetEventTypeView, WidgetType, action_view,
};
use crate::text::{
    chars_of, contains, contains_text, lemma_contains_transitive, lemma_filter_take_step,
    lemma_filter_twice, lowercase, lowercase_of, occurs_at, ascii_lower, is_ascii_text,
    string_from_chars, join2, join3, clone_strings,
};
use crate::widgets::popup::marked_line;

verus! {

/// Content types that can be displayed in the navigator
/// Services are AWS service types, Records are string entries like log groups
pub enum NavigatorContent {
    Services(Vec<WidgetEventType>),
    Records(Vec<String>),
}

pub enum ContentView {
    Services(Seq<WidgetEventTypeView>),
    Records(Seq<Seq<char>>),
}

impl View for NavigatorContent {
    type V = ContentView;

    open spec fn view(&self) -> ContentView {
        match self {
            NavigatorContent::Services(s) => ContentView::Services(s.deep_view()),
            NavigatorContent::Records(r) => ContentView::Records(r.deep_view()),
        }
    }
}

/// A text passes the filter when its lowercase form contains the filter.
pub open spec fn matches_filter(text: Seq<char>, filter: Seq<char>) -> bool {
    contains_text(lowercase_of(text), filter)
}

pub open spec fn service_filter(filter: Seq<char>) -> spec_fn(WidgetEventTypeView) -> bool {
    |w: WidgetEventTypeView| matches_filter(w.display_text(), filter)
}

pub open spec fn record_filter(filter: Seq<char>) -> spec_fn(Seq<char>) -> bool {
    |r: Seq<char>| matches_filter(r, filter)
}

impl ContentView {
    pub open spec fn len(self) -> nat {
        match self {
            ContentView::Services(s) => s.len(),
            ContentView::Records(r) => r.len(),
        }
    }

    /// The item at index `i`, a record being reported as a selected record.
    pub open spec fn item(self, i: int) -> WidgetEventTypeView {
        match self {
            ContentView::Services(s) => s[i],
            ContentView::Records(r) => WidgetEventTypeView::RecordSelected(r[i]),
        }
    }

    /// The text shown for the item at index `i`.
    pub open spec fn display(self, i: int) -> Seq<char> {
        self.item(i).display_text()
    }

    /// The items that pass the filter, in order.
    pub open spec fn filtered(self, filter: Seq<char>) -> ContentView {
        match self {
            ContentView::Services(s) => ContentView::Services(s.filter(service_filter(filter))),
            ContentView::Records(r) => ContentView::Records(r.filter(record_filter(filter))),
        }
    }
}

/// What the navigator shows inside its frame.
pub enum NavigatorBody {
    /// A single centred message, when there is nothing to list.
    Message(String),
    /// The list lines, with scroll indicators.
    Lines(Vec<String>),
}

pub enum NavigatorBodyView {
    Message(Seq<char>),
    Lines(Seq<Seq<char>>),
}

impl View for NavigatorBody {
    type V = NavigatorBodyView;

    open spec fn view(&self) -> NavigatorBodyView {
        match self {
            NavigatorBody::Message(m) => NavigatorBodyView::Message(m@),
            NavigatorBody::Lines(l) => NavigatorBodyView::Lines(l.deep_view()),
        }
    }
}

/// Widget for navigating AWS services or records with filtering capabilities
/// Handles navigation, selection, and filtering of items
pub struct AWSServiceNavigator {
    title: String,
    widget_type: WidgetType,
    content: NavigatorContent,
    filtered_content: NavigatorContent,
    filter_text: String,
    selected_index: usize,
    scroll_offset: usize,
    active: bool,
    visible: bool,
    filter_mode: bool,
}

pub struct NavigatorView {
    pub title: Seq<char>,
    pub widget_type: WidgetType,
    pub content: ContentView,
    pub filtered: ContentView,
    pub filter_text: Seq<char>,
    pub selected: nat,
    pub scroll: nat,
    pub active: bool,
    pub visible: bool,
    pub filter_mode: bool,
}

/// Rows the list scrolls by, before the renderer knows the real height.
pub const SCROLL_HEIGHT: usize = 10;

/// Rows PageUp and PageDown move the selection by.
pub const JUMP_SIZE: usize = 5;

pub open spec fn min_int(a: int, b: int) -> int {
    if a < b { a } else { b }
}

impl NavigatorView {
    /// The navigator event reported with this navigator's widget type.
    pub open spec fn nav(self, e: ServiceNavigatorEventView) -> Option<WidgetActionView> {
        Some(WidgetActionView::ServiceNavigatorEvent(e, self.widget_type))
    }

    /// The state after applying a filter: lowercase it, show the matching
    /// items (all of them for an empty filter), and go back to the top.
    pub open spec fn with_filter(self, filter: Seq<char>) -> NavigatorView {
        let f = lowercase_of(filter);
        NavigatorView {
            filter_text: f,
            selected: 0,
            scroll: 0,
            filtered: if f.len() == 0 {
                self.content
            } else {
                self.content.filtered(f)
            },
            ..self
        }
    }

    /// The state after deleting the last filter character, if there is one.
    pub open spec fn filter_popped(self) -> NavigatorView {
        if self.filter_text.len() > 0 {
            self.with_filter(self.filter_text.drop_last())
        } else {
            self
        }
    }

    /// The state after clearing the filter and leaving filter mode.
    pub open spec fn filter_cleared(self) -> NavigatorView {
        NavigatorView {
            filter_text: Seq::empty(),
            filtered: self.content,
            filter_mode: false,
            ..self
        }
    }

    /// The state after new content: the current filter applies to it.
    pub open spec fn with_content(self, c: ContentView) -> NavigatorView {
        let s = NavigatorView { content: c, ..self };
        if self.filter_text.len() > 0 {
            s.with_filter(self.filter_text)
        } else {
            NavigatorView { filtered: c, selected: 0, scroll: 0, ..s }
        }
    }

    /// The scroll position that keeps the selection within `height` rows.
    pub open spec fn scrolled(self, height: nat) -> NavigatorView {
        let h = if height == 0 { 1 } else { height };
        if self.selected < self.scroll {
            NavigatorView { scroll: self.selected, ..self }
        } else if self.selected >= self.scroll + h {
            NavigatorView { scroll: (self.selected - h + 1) as nat, ..self }
        } else {
            self
        }
    }

    pub open spec fn with_selected(self, i: nat) -> NavigatorView {
        NavigatorView { selected: i, ..self }.scrolled(SCROLL_HEIGHT as nat)
    }

    /// The selection can move down.
    pub open spec fn can_move_down(self) -> bool {
        self.filtered.len() > 0 && self.selected + 1 < self.filtered.len()
    }

    /// The state after a key press.
    pub open spec fn after_key(self, key: KeyEvent) -> NavigatorView {
        let len = self.filtered.len();
        if self.filter_mode {
            match key.code {
                KeyCode::Char(c) => if !key.modifiers.control {
                    self.with_filter(self.filter_text.push(c))
                } else {
                    self
                },
                KeyCode::Backspace => self.filter_popped(),
                KeyCode::Delete => self.filter_popped(),
                KeyCode::Esc => NavigatorView { filter_mode: false, ..self },
                KeyCode::Enter => NavigatorView { filter_mode: false, ..self },
                _ => self,
            }
        } else {
            match key.code {
                KeyCode::Char(c) => if (c == 'f' && key.modifiers.control) || c == '/' {
                    NavigatorView { filter_mode: true, ..self }
                } else {
                    self
                },
                KeyCode::Up => if self.selected > 0 {
                    self.with_selected((self.selected - 1) as nat)
                } else {
                    self
                },
                KeyCode::Down => if self.can_move_down() {
                    self.with_selected(self.selected + 1)
                } else {
                    self
                },
                KeyCode::PageUp => if self.selected > 0 {
                    self.with_selected(
                        if self.selected >= JUMP_SIZE {
                            (self.selected - JUMP_SIZE) as nat
                        } else {
                            0
                        },
                    )
                } else {
                    self
                },
                KeyCode::PageDown => if self.can_move_down() {
                    self.with_selected(min_int(self.selected + JUMP_SIZE, len - 1) as nat)
                } else {
                    self
                },
                KeyCode::Home => if self.selected > 0 {
                    NavigatorView { selected: 0, scroll: 0, ..self }
                } else {
                    self
                },
                KeyCode::End => if self.can_move_down() {
                    self.with_selected((len - 1) as nat)
                } else {
                    self
                },
                _ => self,
            }
        }
    }

    /// The action a key press produces.
    pub open spec fn key_action(self, key: KeyEvent) -> Option<WidgetActionView> {
        if self.filter_mode {
            match key.code {
                KeyCode::Char(_) => Some(
                    WidgetActionView::InputBoxEvent(
                        InputBoxEventView::Written(self.after_key(key).filter_text),
                        InputBoxType::Text,
                    ),
                ),
                KeyCode::Backspace => Some(
                    WidgetActionView::InputBoxEvent(InputBoxEventView::Backspace, InputBoxType::Text),
                ),
                KeyCode::Delete => Some(
                    WidgetActionView::InputBoxEvent(InputBoxEventView::Delete, InputBoxType::Text),
                ),
                KeyCode::Esc => self.nav(ServiceNavigatorEventView::Escape),
                KeyCode::Enter => self.nav(ServiceNavigatorEventView::Enter),
                _ => None,
            }
        } else {
            match key.code {
                KeyCode::Char(c) => if (c == 'f' && key.modifiers.control) || c == '/' {
                    self.nav(ServiceNavigatorEventView::Enter)
                } else {
                    None
                },
                KeyCode::Esc => if self.filter_text.len() > 0 {
                    self.nav(ServiceNavigatorEventView::Escape)
                } else {
                    None
                },
                KeyCode::Up => self.nav(ServiceNavigatorEventView::ArrowUp),
                KeyCode::Down => self.nav(ServiceNavigatorEventView::ArrowDown),
                KeyCode::PageUp => self.nav(ServiceNavigatorEventView::PageUp),
                KeyCode::PageDown => self.nav(ServiceNavigatorEventView::PageDown),
                KeyCode::Enter => self.nav(ServiceNavigatorEventView::Enter),
                KeyCode::Home => self.nav(ServiceNavigatorEventView::Home),
                KeyCode::End => self.nav(ServiceNavigatorEventView::End),
                _ => None,
            }
        }
    }

    /// The selected item, reported as a navigator selection.
    pub open spec fn selection(self) -> Option<WidgetActionView> {
        if self.selected < self.filtered.len() {
            self.nav(ServiceNavigatorEventView::ItemSelected(self.filtered.item(self.selected as int)))
        } else {
            None
        }
    }

    /// The state after a widget action.
    pub open spec fn after_action(self, a: WidgetActionView) -> NavigatorView {
        match a {
            WidgetActionView::ServiceNavigatorEvent(e, _) => match e {
                ServiceNavigatorEventView::Escape => if self.filter_mode || self.filter_text.len() > 0 {
                    self.filter_cleared()
                } else {
                    self
                },
                ServiceNavigatorEventView::UpdateTitle(t) => NavigatorView { title: t, ..self },
                ServiceNavigatorEventView::UpdateContent(c) => self.with_content(
                    ContentView::Records(c),
                ),
                _ => self,
            },
            WidgetActionView::InputBoxEvent(e, _) => match e {
                InputBoxEventView::Written(text) => if self.filter_mode {
                    self.with_filter(text)
                } else {
                    self
                },
                InputBoxEventView::Backspace => if self.filter_mode {
                    self.filter_popped()
                } else {
                    self
                },
                InputBoxEventView::Delete => if self.filter_mode {
                    self.filter_popped()
                } else {
                    self
                },
                _ => self,
            },
            _ => self,
        }
    }

    /// The action produced by a widget action: Enter reports the selection.
    pub open spec fn action_result(self, a: WidgetActionView) -> Option<WidgetActionView> {
        match a {
            WidgetActionView::ServiceNavigatorEvent(ServiceNavigatorEventView::Enter, _) => self.selection(),
            _ => None,
        }
    }

    /// The frame title, prefixed by the filter while one is set.
    pub open spec fn frame_title(self) -> Seq<char> {
        if self.filter_mode {
            "[Filter: "@ + self.filter_text + "] "@ + self.title + " "@
        } else if self.filter_text.len() > 0 {
            "[Filtered: "@ + self.filter_text + "] "@ + self.title + " "@
        } else {
            self.title
        }
    }

    /// The title of the inner frame, by the kind of content.
    pub open spec fn inner_title(self) -> Seq<char> {
        match self.content {
            ContentView::Services(_) => "Available Services"@,
            ContentView::Records(_) => "Available Records"@,
        }
    }

    /// Rows taken by the scroll indicators, for a given visible height.
    pub open spec fn indicator_rows(self, visible_height: nat) -> int {
        (if self.scroll > 0 { 1int } else { 0int }) + (if self.scroll + visible_height
            < self.filtered.len() {
            1int
        } else {
            0int
        })
    }

    /// Rows left for items.
    pub open spec fn available_rows(self, visible_height: nat) -> nat {
        let used = self.indicator_rows(visible_height) + if self.filter_mode { 1int } else { 0int };
        if visible_height >= used { (visible_height - used) as nat } else { 0 }
    }

    /// Number of items shown.
    pub open spec fn shown_count(self, visible_height: nat) -> nat {
        if self.scroll < self.filtered.len() {
            min_int(self.available_rows(visible_height) as int, self.filtered.len() - self.scroll) as nat
        } else {
            0
        }
    }

    /// The item lines shown, the selected one marked.
    pub open spec fn item_lines(self, visible_height: nat) -> Seq<Seq<char>> {
        Seq::new(
            self.shown_count(visible_height),
            |j: int|
                marked_line(self.filtered.display(self.scroll + j), self.scroll + j == self.selected),
        )
    }

    /// What is shown inside the frame for a given visible height.
    pub open spec fn body(self, visible_height: nat) -> NavigatorBodyView {
        if self.filtered.len() == 0 {
            NavigatorBodyView::Message(
                if self.filter_text.len() > 0 {
                    "No items match your filter"@
                } else {
                    "No items available"@
                },
            )
        } else {
            let header = (if self.filter_mode {
                seq!["Type to filter, Esc to exit filter mode"@]
            } else {
                Seq::<Seq<char>>::empty()
            }) + (if self.scroll > 0 {
                seq!["▲ Scroll up for more"@]
            } else {
                Seq::<Seq<char>>::empty()
            });
            let footer = if self.scroll + self.available_rows(visible_height) < self.filtered.len() {
                seq!["▼ Scroll down for more"@]
            } else {
                Seq::<Seq<char>>::empty()
            };
            NavigatorBodyView::Lines(header + self.item_lines(visible_height) + footer)
        }
    }

    /// The keyboard help for the current mode.
    pub open spec fn help_items(self) -> Seq<(Seq<char>, Seq<char>)> {
        if self.filter_mode {
            seq![("Type"@, "Filter"@), ("Esc"@, "Exit filter"@), ("Enter"@, "Apply filter"@)]
        } else {
            seq![("Enter"@, "Select"@), ("Ctrl+F"@, "Filter"@), ("/"@, "Filter"@)] + (if self.filter_text.len()
                > 0 {
                seq![("Esc"@, "Clear filter"@)]
            } else {
                Seq::empty()
            }) + seq![
                ("↑/↓"@, "Navigate"@),
                ("PgUp/PgDn"@, "Scroll"@),
                ("Home/End"@, "Jump to start/end"@),
            ]
        }
    }
}

/// A copy of the content with the same view.
pub fn copy_content(c: &NavigatorContent) -> (r: NavigatorContent)
    ensures
        r@ == c@,
{
    match c {
        NavigatorContent::Services(s) => {
            let mut out: Vec<WidgetEventType> = Vec::new();
            let mut i: usize = 0;
            while i < s.len()
                invariant
                    i <= s@.len(),
                    out@.len() == i,
                    forall|j: int| 0 <= j < i ==> #[trigger] out@[j]@ == s@[j]@,
                decreases s@.len() - i,
            {
                out.push(s[i].duplicate());
                i = i + 1;
            }
            assert(out.deep_view() =~= s.deep_view());
            NavigatorContent::Services(out)
        },
        NavigatorContent::Records(r) => NavigatorContent::Records(clone_strings(r)),
    }
}

/// Whether a text passes a lowercase filter.
fn passes_filter(text: &str, filter: &Vec<char>) -> (b: bool)
    ensures
        b == matches_filter(text@, filter@),
{
    let low = lowercase(text);
    let low_chars = chars_of(low.as_str());
    contains(low_chars.as_slice(), filter.as_slice())
}

/// The items of the content that pass the filter.
pub fn filter_content(c: &NavigatorContent, filter: &str) -> (r: NavigatorContent)
    ensures
        r@ == c@.filtered(filter@),
{
    let f = chars_of(filter);
    match c {
        NavigatorContent::Services(s) => {
            let ghost pred = service_filter(filter@);
            let mut out: Vec<WidgetEventType> = Vec::new();
            let mut i: usize = 0;
            while i < s.len()
                invariant
                    i <= s@.len(),
                    f@ == filter@,
                    pred == service_filter(filter@),
                    out.deep_view() == s.deep_view().take(i as int).filter(pred),
                decreases s@.len() - i,
            {
                proof {
                    lemma_filter_take_step(s.deep_view(), pred, i as int);
                }
                let text = s[i].display_text();
                if passes_filter(text.as_str(), &f) {
                    out.push(s[i].duplicate());
                    assert(out.deep_view() =~= s.deep_view().take(i as int).filter(pred).push(
                        s.deep_view()[i as int],
                    ));
                }
                i = i + 1;
            }
            assert(s.deep_view().take(s@.len() as int) =~= s.deep_view());
            NavigatorContent::Services(out)
        },
        NavigatorContent::Records(r) => {
            let ghost pred = record_filter(filter@);
            let mut out: Vec<String> = Vec::new();
            let mut i: usize = 0;
            while i < r.len()
                invariant
                    i <= r@.len(),
                    f@ == filter@,
                    pred == record_filter(filter@),
                    out.deep_view() == r.deep_view().take(i as int).filter(pred),
                decreases r@.len() - i,
            {
                proof {
                    lemma_filter_take_step(r.deep_view(), pred, i as int);
                }
                if passes_filter(r[i].as_str(), &f) {
                    out.push(r[i].clone());
                    assert(out.deep_view() =~= r.deep_view().take(i as int).filter(pred).push(
                        r.deep_view()[i as int],
                    ));
                }
                i = i + 1;
            }
            assert(r.deep_view().take(r@.len() as int) =~= r.deep_view());
            NavigatorContent::Records(out)
        },
    }
}

impl View for AWSServiceNavigator {
    type V = NavigatorView;

    closed spec fn view(&self) -> NavigatorView {
        NavigatorView {
            title: self.title@,
            widget_type: self.widget_type,
            content: self.content@,
            filtered: self.filtered_content@,
            filter_text: self.filter_text@,
            selected: self.selected_index as nat,
            scroll: self.scroll_offset as nat,
            active: self.active,
            visible: self.visible,
            filter_mode: self.filter_mode,
        }
    }
}

impl AWSServiceNavigator {
    /// Creates a new navigator with the specified widget type, active state, and content
    pub fn new(widget_type: WidgetType, active: bool, content: NavigatorContent) -> (n:
        AWSServiceNavigator)
        ensures
            n@ == (NavigatorView {
                title: "AWS Services"@,
                widget_type,
                content: content@,
                filtered: content@,
                filter_text: Seq::empty(),
                selected: 0,
                scroll: 0,
                active,
                visible: true,
                filter_mode: false,
            }),
    {
        AWSServiceNavigator {
            title: "AWS Services".to_string(),
            widget_type,
            content: copy_content(&content),
            filtered_content: content,
            filter_text: String::new(),
            selected_index: 0,
            scroll_offset: 0,
            active,
            visible: true,
            filter_mode: false,
        }
    }

    /// Returns the number of items in the current (filtered) content
    fn content_len(&self) -> (n: usize)
        ensures
            n == self@.filtered.len(),
    {
        match &self.filtered_content {
            NavigatorContent::Services(services) => services.len(),
            NavigatorContent::Records(records) => records.len(),
        }
    }

    /// Returns a widget action for the currently selected item
    fn selected_item(&self) -> (r: Option<WidgetAction>)
        ensures
            action_view(r) == self@.selection(),
    {
        match &self.filtered_content {
            NavigatorContent::Services(services) => {
                if self.selected_index < services.len() {
                    Some(
                        WidgetAction::ServiceNavigatorEvent(
                            ServiceNavigatorEvent::ItemSelected(
                                services[self.selected_index].duplicate(),
                            ),
                            self.widget_type,
                        ),
                    )
                } else {
                    None
                }
            },
            NavigatorContent::Records(records) => {
                if self.selected_index < records.len() {
                    Some(
                        WidgetAction::ServiceNavigatorEvent(
                            ServiceNavigatorEvent::ItemSelected(
                                WidgetEventType::RecordSelected(records[self.selected_index].clone()),
                            ),
                            self.widget_type,
                        ),
                    )
                } else {
                    None
                }
            },
        }
    }

    /// Adjusts scroll position to keep selected item visible
    fn update_scroll_offset(&mut self, height: usize)
        ensures
            final(self)@ == old(self)@.scrolled(height as nat),
    {
        let height = if height == 0 { 1 } else { height };
        if self.selected_index < self.scroll_offset {
            self.scroll_offset = self.selected_index;
            return;
        }
        if self.selected_index - self.scroll_offset >= height {
            self.scroll_offset = self.selected_index - height + 1;
        }
    }

    /// Moves the selection and scrolls to keep it in view.
    fn select(&mut self, index: usize)
        ensures
            final(self)@ == old(self)@.with_selected(index as nat),
    {
        self.selected_index = index;
        self.update_scroll_offset(SCROLL_HEIGHT);
    }

    /// Applies a filter to the content, showing only items containing the filter text
    pub fn apply_filter(&mut self, filter: &str)
        ensures
            final(self)@ == old(self)@.with_filter(filter@),
            filter@.len() > 0 && lowercase_of(filter@.drop_last()) == filter@.drop_last() && (
            filter@.last() as u32) < 128 ==> final(self)@.filter_text == filter@.drop_last().push(
                ascii_lower(filter@.last()),
            ),
            is_ascii_text(filter@) ==> final(self)@.filter_text == filter@.map_values(
                |c: char| ascii_lower(c),
            ),
    {
        self.filter_text = lowercase(filter);
        self.selected_index = 0;
        self.scroll_offset = 0;
        if self.filter_text.as_str().is_empty() {
            proof {
                assert(self.filter_text@.len() == 0);
            }
            self.filtered_content = copy_content(&self.content);
            return;
        }
        proof {
            assert(self.filter_text@.len() > 0);
        }
        self.filtered_content = filter_content(&self.content, self.filter_text.as_str());
    }

    /// Adds a character to the filter and applies it. Where the filter is
    /// already lowercase and the character is ASCII, removing the last
    /// character afterwards gives what applying the old filter gives.
    pub fn add_to_filter(&mut self, c: char)
        ensures
            final(self)@ == old(self)@.with_filter(old(self)@.filter_text.push(c)),
            lowercase_of(old(self)@.filter_text) == old(self)@.filter_text && (c as u32) < 128
                ==> final(self)@.filter_popped() == old(self)@.with_filter(old(self)@.filter_text),
    {
        let ghost before = self@;
        let mut chars = chars_of(self.filter_text.as_str());
        chars.push(c);
        let extended = string_from_chars(chars.as_slice());
        assert(extended@.drop_last() =~= before.filter_text);
        self.apply_filter(extended.as_str());
        proof {
            if lowercase_of(before.filter_text) == before.filter_text && (c as u32) < 128 {
                assert(self@.filter_text.drop_last() =~= before.filter_text);
            }
        }
    }

    /// Removes the last character from the filter and applies it
    pub fn remove_from_filter(&mut self)
        ensures
            final(self)@ == old(self)@.filter_popped(),
    {
        let mut chars = chars_of(self.filter_text.as_str());
        if let Some(_) = chars.pop() {
            let shortened = string_from_chars(chars.as_slice());
            self.apply_filter(shortened.as_str());
        }
    }

    /// Clears the filter and shows all content
    fn clear_filter(&mut self)
        ensures
            final(self)@ == old(self)@.filter_cleared(),
    {
        self.filter_text = String::new();
        self.filtered_content = copy_content(&self.content);
        self.filter_mode = false;
    }

    /// Sets new content for the navigator
    /// If a filter is active, it will be applied to the new content
    pub fn set_content(&mut self, content: NavigatorContent)
        ensures
            final(self)@ == old(self)@.with_content(content@),
    {
        self.content = copy_content(&content);
        if !self.filter_text.as_str().is_empty() {
            proof {
                assert(self.filter_text@.len() > 0);
            }
            let filter_text_clone = self.filter_text.clone();
            self.apply_filter(filter_text_clone.as_str());
        } else {
            proof {
                assert(self.filter_text@.len() == 0);
            }
            self.filtered_content = content;
        }
        self.selected_index = 0;
        self.scroll_offset = 0;
    }

    /// Handles keyboard input and returns appropriate widget actions
    pub fn handle_input(&mut self, key_event: KeyEvent) -> (r: Option<WidgetAction>)
        ensures
            final(self)@ == old(self)@.after_key(key_event),
            action_view(r) == old(self)@.key_action(key_event),
    {
        let wt = self.widget_type;
        if self.filter_mode {
            match key_event.code {
                KeyCode::Char(c) => {
                    if !key_event.modifiers.control {
                        self.add_to_filter(c);
                    }
                    Some(
                        WidgetAction::InputBoxEvent(
                            InputBoxEvent::Written(self.filter_text.clone()),
                            InputBoxType::Text,
                        ),
                    )
                },
                KeyCode::Backspace => {
                    self.remove_from_filter();
                    Some(WidgetAction::InputBoxEvent(InputBoxEvent::Backspace, InputBoxType::Text))
                },
                KeyCode::Delete => {
                    self.remove_from_filter();
                    Some(WidgetAction::InputBoxEvent(InputBoxEvent::Delete, InputBoxType::Text))
                },
                KeyCode::Esc => {
                    self.filter_mode = false;
                    Some(WidgetAction::ServiceNavigatorEvent(ServiceNavigatorEvent::Escape, wt))
                },
                KeyCode::Enter => {
                    self.filter_mode = false;
                    Some(WidgetAction::ServiceNavigatorEvent(ServiceNavigatorEvent::Enter, wt))
                },
                _ => None,
            }
        } else {
            match key_event.code {
                KeyCode::Char(c) => {
                    if (c == 'f' && key_event.modifiers.control) || c == '/' {
                        self.filter_mode = true;
                        Some(WidgetAction::ServiceNavigatorEvent(ServiceNavigatorEvent::Enter, wt))
                    } else {
                        None
                    }
                },
                KeyCode::Esc => {
                    if !self.filter_text.as_str().is_empty() {
                        proof {
                            assert(self.filter_text@.len() > 0);
                        }
                        Some(WidgetAction::ServiceNavigatorEvent(ServiceNavigatorEvent::Escape, wt))
                    } else {
                        proof {
                            assert(self.filter_text@.len() == 0);
                        }
                        None
                    }
                },
                KeyCode::Up => {
                    if self.selected_index > 0 {
                        self.select(self.selected_index - 1);
                    }
                    Some(WidgetAction::ServiceNavigatorEvent(ServiceNavigatorEvent::ArrowUp, wt))
                },
                KeyCode::Down => {
                    let content_len = self.content_len();
                    if content_len > 0 && self.selected_index < content_len - 1 {
                        self.select(self.selected_index + 1);
                    }
                    Some(WidgetAction::ServiceNavigatorEvent(ServiceNavigatorEvent::ArrowDown, wt))
                },
                KeyCode::PageUp => {
                    if self.selected_index > 0 {
                        let target = if self.selected_index >= JUMP_SIZE {
                            self.selected_index - JUMP_SIZE
                        } else {
                            0
                        };
                        self.select(target);
                    }
                    Some(WidgetAction::ServiceNavigatorEvent(ServiceNavigatorEvent::PageUp, wt))
                },
                KeyCode::PageDown => {
                    let content_len = self.content_len();
                    if content_len > 0 && self.selected_index < content_len - 1 {
                        let last = content_len - 1;
                        let target = if last - self.selected_index > JUMP_SIZE {
                            self.selected_index + JUMP_SIZE
                        } else {
                            last
                        };
                        self.select(target);
                    }
                    Some(WidgetAction::ServiceNavigatorEvent(ServiceNavigatorEvent::PageDown, wt))
                },
                KeyCode::Enter => Some(
                    WidgetAction::ServiceNavigatorEvent(ServiceNavigatorEvent::Enter, wt),
                ),
                KeyCode::Home => {
                    if self.selected_index > 0 {
                        self.selected_index = 0;
                        self.scroll_offset = 0;
                    }
                    Some(WidgetAction::ServiceNavigatorEvent(ServiceNavigatorEvent::Home, wt))
                },
                KeyCode::End => {
                    let content_len = self.content_len();
                    if content_len > 0 && self.selected_index < content_len - 1 {
                        self.select(content_len - 1);
                    }
                    Some(WidgetAction::ServiceNavigatorEvent(ServiceNavigatorEvent::End, wt))
                },
                _ => None,
            }
        }
    }

    /// Processes widget events and returns actions as needed
    pub fn process_event(&mut self, event: WidgetAction) -> (r: Option<WidgetAction>)
        ensures
            final(self)@ == old(self)@.after_action(event@),
            action_view(r) == old(self)@.action_result(event@),
    {
        match event {
            WidgetAction::ServiceNavigatorEvent(event, _) => match event {
                ServiceNavigatorEvent::Enter => self.selected_item(),
                ServiceNavigatorEvent::Escape => {
                    if self.filter_mode || !self.filter_text.as_str().is_empty() {
                        proof {
                            assert(!self.filter_mode ==> self.filter_text@.len() > 0);
                        }
                        self.filter_mode = false;
                        self.clear_filter();
                    } else {
                        proof {
                            assert(self.filter_text@.len() == 0);
                        }
                    }
                    None
                },
                ServiceNavigatorEvent::UpdateTitle(title) => {
                    self.title = title;
                    None
                },
                ServiceNavigatorEvent::UpdateContent(records) => {
                    self.set_content(NavigatorContent::Records(records));
                    None
                },
                _ => None,
            },
            WidgetAction::InputBoxEvent(input_event, _) => match input_event {
                InputBoxEvent::Written(text) => {
                    if self.filter_mode {
                        self.apply_filter(text.as_str());
                    }
                    None
                },
                InputBoxEvent::Backspace => {
                    if self.filter_mode {
                        self.remove_from_filter();
                    }
                    None
                },
                InputBoxEvent::Delete => {
                    if self.filter_mode {
                        self.remove_from_filter();
                    }
                    None
                },
                _ => None,
            },
            _ => None,
        }
    }

    /// The frame title, prefixed by the filter while one is set.
    pub fn frame_title(&self) -> (s: String)
        ensures
            s@ == self@.frame_title(),
    {
        if self.filter_mode {
            let head = join3("[Filter: ", self.filter_text.as_str(), "] ");
            join3(head.as_str(), self.title.as_str(), " ")
        } else if !self.filter_text.as_str().is_empty() {
            proof {
                assert(self.filter_text@.len() > 0);
            }
            let head = join3("[Filtered: ", self.filter_text.as_str(), "] ");
            join3(head.as_str(), self.title.as_str(), " ")
        } else {
            proof {
                assert(self.filter_text@.len() == 0);
            }
            self.title.clone()
        }
    }

    /// The title of the inner frame, by the kind of content.
    pub fn inner_title(&self) -> (s: String)
        ensures
            s@ == self@.inner_title(),
    {
        match &self.content {
            NavigatorContent::Services(_) => "Available Services".to_string(),
            NavigatorContent::Records(_) => "Available Records".to_string(),
        }
    }

    /// The text shown for the item at an index of the filtered content.
    fn display_at(&self, i: usize) -> (s: String)
        requires
            i < self@.filtered.len(),
        ensures
            s@ == self@.filtered.display(i as int),
    {
        match &self.filtered_content {
            NavigatorContent::Services(services) => services[i].display_text(),
            NavigatorContent::Records(records) => records[i].clone(),
        }
    }

    /// What is shown inside the frame when `visible_height` rows are available.
    pub fn body(&self, visible_height: usize) -> (b: NavigatorBody)
        ensures
            b@ == self@.body(visible_height as nat),
    {
        let total = self.content_len();
        if total == 0 {
            if !self.filter_text.as_str().is_empty() {
                proof {
                    assert(self.filter_text@.len() > 0);
                }
                return NavigatorBody::Message("No items match your filter".to_string());
            } else {
                proof {
                    assert(self.filter_text@.len() == 0);
                }
                return NavigatorBody::Message("No items available".to_string());
            }
        }
        let ghost v = self@;
        let mut lines: Vec<String> = Vec::new();
        if self.filter_mode {
            lines.push("Type to filter, Esc to exit filter mode".to_string());
        }
        if self.scroll_offset > 0 {
            lines.push("▲ Scroll up for more".to_string());
        }
        let ghost header = lines.deep_view();
        assert(header =~= (if v.filter_mode {
            seq!["Type to filter, Esc to exit filter mode"@]
        } else {
            Seq::<Seq<char>>::empty()
        }) + (if v.scroll > 0 {
            seq!["▲ Scroll up for more"@]
        } else {
            Seq::<Seq<char>>::empty()
        }));
        let down_indicator: usize = if self.scroll_offset < total && visible_height < total
            - self.scroll_offset {
            1
        } else {
            0
        };
        let up_indicator: usize = if self.scroll_offset > 0 { 1 } else { 0 };
        let filter_bar: usize = if self.filter_mode { 1 } else { 0 };
        let used = up_indicator + down_indicator + filter_bar;
        let available = if visible_height >= used { visible_height - used } else { 0 };
        assert(available == v.available_rows(visible_height as nat));
        let shown: usize = if self.scroll_offset < total {
            if available < total - self.scroll_offset { available } else { total - self.scroll_offset }
        } else {
            0
        };
        assert(shown == v.shown_count(visible_height as nat));
        let mut j: usize = 0;
        while j < shown
            invariant
                v == self@,
                total == v.filtered.len(),
                shown == v.shown_count(visible_height as nat),
                j <= shown,
                shown > 0 ==> self.scroll_offset + shown <= total,
                lines.deep_view() == header + v.item_lines(visible_height as nat).subrange(
                    0,
                    j as int,
                ),
            decreases shown - j,
        {
            let index = self.scroll_offset + j;
            let text = self.display_at(index);
            let ghost expected = v.item_lines(visible_height as nat)[j as int];
            assert(expected == marked_line(
                v.filtered.display(index as int),
                index == self.selected_index,
            ));
            let ghost before = lines.deep_view();
            if index == self.selected_index {
                lines.push(join2("> ", text.as_str()));
            } else {
                lines.push(join2("  ", text.as_str()));
            }
            assert(lines.deep_view() =~= before.push(expected));
            j = j + 1;
            assert(lines.deep_view() =~= header + v.item_lines(visible_height as nat).subrange(
                0,
                j as int,
            ));
        }
        assert(v.item_lines(visible_height as nat).subrange(0, shown as int) =~= v.item_lines(
            visible_height as nat,
        ));
        let more_below = self.scroll_offset < total && available < total - self.scroll_offset;
        if more_below {
            lines.push("▼ Scroll down for more".to_string());
        }
        assert(lines.deep_view() =~= header + v.item_lines(visible_height as nat) + (
        if v.scroll + v.available_rows(visible_height as nat) < v.filtered.len() {
            seq!["▼ Scroll down for more"@]
        } else {
            Seq::<Seq<char>>::empty()
        }));
        NavigatorBody::Lines(lines)
    }

    /// Returns help items based on the current state
    pub fn get_help_items(&self) -> (items: Vec<(String, String)>)
        ensures
            items.deep_view() == self@.help_items(),
    {
        let mut items = Vec::new();
        if self.filter_mode {
            items.push(("Type".to_string(), "Filter".to_string()));
            items.push(("Esc".to_string(), "Exit filter".to_string()));
            items.push(("Enter".to_string(), "Apply filter".to_string()));
        } else {
            items.push(("Enter".to_string(), "Select".to_string()));
            items.push(("Ctrl+F".to_string(), "Filter".to_string()));
            items.push(("/".to_string(), "Filter".to_string()));
            if !self.filter_text.as_str().is_empty() {
                proof {
                    assert(self.filter_text@.len() > 0);
                }
                items.push(("Esc".to_string(), "Clear filter".to_string()));
            } else {
                proof {
                    assert(self.filter_text@.len() == 0);
                }
            }
            items.push(("↑/↓".to_string(), "Navigate".to_string()));
            items.push(("PgUp/PgDn".to_string(), "Scroll".to_string()));
            items.push(("Home/End".to_string(), "Jump to start/end".to_string()));
        }
        assert(items.deep_view() =~= self@.help_items());
        items
    }

    /// Returns whether the widget is visible
    pub fn is_visible(&self) -> (b: bool)
        ensures
            b == self@.visible,
    {
        self.visible
    }

    /// Returns whether the widget is active
    pub fn is_active(&self) -> (b: bool)
        ensures
            b == self@.active,
    {
        self.active
    }

    /// Sets the active state of the widget
    pub fn set_active(&mut self, active: bool)
        ensures
            final(self)@ == (NavigatorView { active, ..old(self)@ }),
    {
        self.active = active;
    }

    /// Sets the widget to inactive
    pub fn set_inactive(&mut self)
        ensures
            final(self)@ == (NavigatorView { active: false, ..old(self)@ }),
    {
        self.active = false;
    }

    /// Sets the visibility of the widget
    pub fn set_visible(&mut self, visible: bool)
        ensures
            final(self)@ == (NavigatorView { visible, ..old(self)@ }),
    {
        self.visible = visible;
    }

    /// Sets the title of the widget
    pub fn set_title(&mut self, title: String)
        ensures
            final(self)@ == (NavigatorView { title: title@, ..old(self)@ }),
    {
        self.title = title;
    }
}

impl NavigatorView {
    /// The list shows exactly what the filter lets through (everything for an
    /// empty filter), and the selection is on it (or at the top of an empty list).
    pub open spec fn consistent(self) -> bool {
        &&& self.filtered == (if self.filter_text.len() == 0 {
            self.content
        } else {
            self.content.filtered(self.filter_text)
        })
        &&& (self.selected == 0 || self.selected < self.filtered.len())
    }
}

proof fn lemma_filtered_len(c: ContentView, f: Seq<char>)
    ensures
        c.filtered(f).len() <= c.len(),
{
    match c {
        ContentView::Services(s) => s.lemma_filter_len(service_filter(f)),
        ContentView::Records(r) => r.lemma_filter_len(record_filter(f)),
    }
}

/// A new navigator shows all its content, with the first item selected.
pub proof fn lemma_new_navigator_consistent(
    widget_type: WidgetType,
    active: bool,
    content: ContentView,
)
    ensures
        (NavigatorView {
            title: "AWS Services"@,
            widget_type,
            content,
            filtered: content,
            filter_text: Seq::empty(),
            selected: 0,
            scroll: 0,
            active,
            visible: true,
            filter_mode: false,
        }).consistent(),
{
}

/// Every key press and every widget action keeps the shown list equal to the
/// filtered content and the selection on it.
pub proof fn lemma_navigator_stays_consistent(v: NavigatorView, key: KeyEvent, a: WidgetActionView)
    requires
        v.consistent(),
    ensures
        v.after_key(key).consistent(),
        v.after_action(a).consistent(),
{
    lemma_filtered_len(v.content, v.filter_text);
}

/// Every item shown under a nonempty filter passes the filter, and every item
/// of the content that passes it is shown.
pub proof fn lemma_filter_shows_matches(v: NavigatorView)
    requires
        v.consistent(),
        v.filter_text.len() > 0,
    ensures
        forall|i: int| 0 <= i < v.filtered.len() ==> matches_filter(#[trigger] v.filtered.display(i), v.filter_text),
        forall|i: int| 0 <= i < v.content.len() && matches_filter(#[trigger] v.content.display(i), v.filter_text)
            ==> exists|j: int| 0 <= j < v.filtered.len() && v.filtered.item(j) == v.content.item(i),
{
    broadcast use vstd::seq_lib::group_filter_ensures;

    match v.content {
        ContentView::Services(s) => {
            let p = service_filter(v.filter_text);
            assert forall|i: int| 0 <= i < v.filtered.len() implies matches_filter(#[trigger] v.filtered.display(i), v.filter_text) by {
                s.lemma_filter_pred(p, i);
            }
            assert forall|i: int| 0 <= i < v.content.len() && matches_filter(#[trigger] v.content.display(i), v.filter_text)
                implies exists|j: int| 0 <= j < v.filtered.len() && v.filtered.item(j) == v.content.item(i) by {
                s.lemma_filter_contains(p, i);
                let j = choose|j: int| 0 <= j < s.filter(p).len() && s.filter(p)[j] == s[i];
                assert(v.filtered.item(j) == v.content.item(i));
            }
        },
        ContentView::Records(r) => {
            let p = record_filter(v.filter_text);
            assert forall|i: int| 0 <= i < v.filtered.len() implies matches_filter(#[trigger] v.filtered.display(i), v.filter_text) by {
                r.lemma_filter_pred(p, i);
            }
            assert forall|i: int| 0 <= i < v.content.len() && matches_filter(#[trigger] v.content.display(i), v.filter_text)
                implies exists|j: int| 0 <= j < v.filtered.len() && v.filtered.item(j) == v.content.item(i) by {
                r.lemma_filter_contains(p, i);
                let j = choose|j: int| 0 <= j < r.filter(p).len() && r.filter(p)[j] == r[i];
                assert(v.filtered.item(j) == v.content.item(i));
            }
        },
    }
}

/// After moving the selection, it lies within the rows shown.
pub proof fn lemma_selection_visible(v: NavigatorView, i: nat)
    ensures
        v.with_selected(i).scroll <= i < v.with_selected(i).scroll + SCROLL_HEIGHT,
{
}

/// Clearing the filter shows all of the content again.
pub proof fn lemma_filter_cleared_shows_all(v: NavigatorView)
    ensures
        v.filter_cleared().filtered == v.content,
        v.filter_cleared().filter_text.len() == 0,
        !v.filter_cleared().filter_mode,
{
}

/// A filter whose lowercase form contains that of another shows the items the
/// other shows that also pass it, in the same order, and so never more items;
/// applying a filter again shows the same items.
pub proof fn lemma_longer_filter_shows_fewer(v: NavigatorView, f1: Seq<char>, f2: Seq<char>)
    requires
        contains_text(lowercase_of(f2), lowercase_of(f1)),
    ensures
        lowercase_of(f2).len() > 0 ==> v.with_filter(f2).filtered == v.with_filter(f1).filtered.filtered(
            lowercase_of(f2),
        ),
        lowercase_of(f2).len() == 0 ==> v.with_filter(f2).filtered == v.with_filter(f1).filtered,
        v.with_filter(f2).filtered.len() <= v.with_filter(f1).filtered.len(),
        v.with_filter(f1).with_filter(f1).filtered == v.with_filter(f1).filtered,
{
    let l1 = lowercase_of(f1);
    let l2 = lowercase_of(f2);
    if l2.len() == 0 {
        let i = choose|i: int| occurs_at(l2, l1, i);
        assert(l1.len() == 0);
    } else if l1.len() > 0 {
        assert forall|t: Seq<char>| matches_filter(t, l2) implies matches_filter(t, l1) by {
            lemma_contains_transitive(lowercase_of(t), l2, l1);
        }
        match v.content {
            ContentView::Services(s) => {
                assert forall|x: WidgetEventTypeView| #[trigger] service_filter(l2)(x) implies service_filter(l1)(x) by {
                    assert(matches_filter(x.display_text(), l2));
                }
                lemma_filter_twice(s, service_filter(l1), service_filter(l2));
            },
            ContentView::Records(r) => {
                assert forall|x: Seq<char>| #[trigger] record_filter(l2)(x) implies record_filter(l1)(x) by {
                    assert(matches_filter(x, l2));
                }
                lemma_filter_twice(r, record_filter(l1), record_filter(l2));
            },
        }
    }
    lemma_filtered_len(v.with_filter(f1).filtered, l2);
    lemma_filtered_len(v.content, l2);
}

/// Escape clears a filter that is set, or leaves filter mode, whatever the
/// mode: afterwards all of the content is shown.
pub proof fn lemma_escape_clears_filter(v: NavigatorView, w: WidgetType)
    requires
        v.filter_mode || v.filter_text.len() > 0,
    ensures
        v.after_action(WidgetActionView::ServiceNavigatorEvent(ServiceNavigatorEventView::Escape, w))
            == v.filter_cleared(),
        v.after_action(
            WidgetActionView::ServiceNavigatorEvent(ServiceNavigatorEventView::Escape, w),
        ).filtered == v.content,
        v.after_action(
            WidgetActionView::ServiceNavigatorEvent(ServiceNavigatorEventView::Escape, w),
        ).filter_text.len() == 0,
        !v.after_action(
            WidgetActionView::ServiceNavigatorEvent(ServiceNavigatorEventView::Escape, w),
        ).filter_mode,
{
}

/// PageUp moves the selection five items up, or to the top when it is fewer
/// than five from it; PageDown then PageUp comes back where it started when
/// there are at least five items below.
pub proof fn lemma_page_up(v: NavigatorView, key: KeyEvent, key2: KeyEvent)
    requires
        key.code == KeyCode::PageUp,
        key2.code == KeyCode::PageDown,
        !v.filter_mode,
    ensures
        v.selected >= 5 ==> v.after_key(key).selected == v.selected - 5,
        v.selected < 5 ==> v.after_key(key).selected == 0,
        v.selected + 5 < v.filtered.len() ==> v.after_key(key2).after_key(key).selected == v.selected,
{
}

} // verus!
