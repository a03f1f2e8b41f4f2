//! Popup widget: a centred overlay that either lists profiles to choose from
//! or shows a detail text, pretty-printed where it holds JSON.
use vstd::prelude::*;
use crate::event_managment::event::{KeyCode, KeyEvent, PopupAction, PopupActionView, WidgetAction, WidgetActionView, action_view};
use crate::text::{chars_of, chars_from, find, first_occurrence, join_lines, join_with_newlines, join2, opt_text, string_from_chars, trim, trim_text};
use crate::widgets::{Area, sat_add, sat_sub};

verus! {

/// What `serde_json` makes of a text: `None` where `from_str::<Value>` rejects
/// it, `Some(None)` where it parses but `to_string_pretty` fails, and
/// `Some(Some(p))` with the pretty-printed form otherwise.
pub uninterp spec fn reformatted_json(text: Seq<char>) -> Option<Option<Seq<char>>>;

/// `serde_json::from_str::<serde_json::Value>` followed by
/// `serde_json::to_string_pretty`: parses the text as JSON and prints it
/// again with indentation. The result is only named, not described.
#[verifier::external_body]
fn reformat_json(text: &str) -> (r: Option<Option<String>>)
    ensures
        reformat_view(r) == reformatted_json(text@),
{
    match serde_json::from_str::<serde_json::Value>(text) {
        Ok(value) => Some(serde_json::to_string_pretty(&value).ok()),
        Err(_) => None,
    }
}

/// Minimum width of an area that can hold a popup.
pub const MIN_POPUP_WIDTH: u16 = 20;

/// Minimum height of an area that can hold a popup.
pub const MIN_POPUP_HEIGHT: u16 = 10;

/// Content types for the popup dialog
///
/// Profiles displays a selectable list of AWS profiles
/// Details displays formatted text content (often JSON)
pub enum PopupContent {
    Profiles(Vec<String>),
    Details(String),
}

pub enum PopupContentView {
    Profiles(Seq<Seq<char>>),
    Details(Seq<char>),
}

impl View for PopupContent {
    type V = PopupContentView;

    open spec fn view(&self) -> PopupContentView {
        match self {
            PopupContent::Profiles(p) => PopupContentView::Profiles(p.deep_view()),
            PopupContent::Details(d) => PopupContentView::Details(d@),
        }
    }
}

impl PopupContentView {
    /// Number of selectable items: the profiles, none for details.
    pub open spec fn len(self) -> nat {
        match self {
            PopupContentView::Profiles(p) => p.len(),
            PopupContentView::Details(_) => 0,
        }
    }

    /// The selectable item at an index.
    pub open spec fn get(self, i: int) -> Option<Seq<char>> {
        match self {
            PopupContentView::Profiles(p) => if 0 <= i < p.len() {
                Some(p[i])
            } else {
                None
            },
            PopupContentView::Details(_) => None,
        }
    }
}

impl PopupContent {
    /// Returns the number of selectable items in the content
    pub fn len(&self) -> (n: usize)
        ensures
            n == self@.len(),
    {
        match self {
            PopupContent::Profiles(profiles) => profiles.len(),
            PopupContent::Details(_) => 0,
        }
    }

    /// Gets an item at the specified index
    pub fn get(&self, index: usize) -> (r: Option<&String>)
        ensures
            match r {
                Some(s) => self@.get(index as int) == Some(s@),
                None => self@.get(index as int) is None,
            },
    {
        match self {
            PopupContent::Profiles(profiles) => {
                if index < profiles.len() {
                    Some(&profiles[index])
                } else {
                    None
                }
            },
            PopupContent::Details(_) => None,
        }
    }
}

/// Widget for displaying popup dialogs with different content types
pub struct PopupWidget {
    content: PopupContent,
    title: String,
    selected_item: Option<String>,
    selection_index: usize,
    active: bool,
    visible: bool,
}

pub struct PopupView {
    pub content: PopupContentView,
    pub title: Seq<char>,
    pub selected_item: Option<Seq<char>>,
    pub selection_index: nat,
    pub active: bool,
    pub visible: bool,
}

/// The view of what `reformat_json` returned.
pub open spec fn reformat_view(r: Option<Option<String>>) -> Option<Option<Seq<char>>> {
    match r {
        Some(Some(p)) => Some(Some(p@)),
        Some(None) => Some(None),
        None => None,
    }
}

/// The pretty-printed form where there is one, else the text as it was.
pub open spec fn pretty_or_text(content: Seq<char>, reformatted: Option<Option<Seq<char>>>) -> Seq<
    char,
> {
    match reformatted {
        Some(Some(p)) => p,
        _ => content,
    }
}

/// The part of a detail text after a bracketed timestamp: what follows the
/// `]` of the first `] {`, trimmed.
pub open spec fn json_part_of(content: Seq<char>) -> Option<Seq<char>> {
    match first_occurrence(content, "] {"@) {
        Some(i) => Some(trim_text(content.subrange(i + 1, content.len() as int))),
        None => None,
    }
}

/// The detail text as shown when it has a timestamp part: that part
/// pretty-printed if it parses (the text as it was if it parses but cannot be
/// printed), else the whole text pretty-printed where it parses.
pub open spec fn details_with_part_text(
    content: Seq<char>,
    part: Option<Option<Seq<char>>>,
    whole: Option<Option<Seq<char>>>,
) -> Seq<char> {
    match part {
        Some(Some(p)) => p,
        Some(None) => content,
        None => pretty_or_text(content, whole),
    }
}

/// The detail text as shown: the JSON after a `] {` marker (the part after a
/// bracketed timestamp) or the whole text, pretty-printed where it parses.
pub open spec fn details_text(content: Seq<char>) -> Seq<char> {
    match json_part_of(content) {
        Some(part) => details_with_part_text(
            content,
            reformatted_json(part),
            reformatted_json(content),
        ),
        None => pretty_or_text(content, reformatted_json(content)),
    }
}

/// The pretty-printed form where `reformatted` holds one, else `content`.
pub fn pretty_or(content: &String, reformatted: Option<Option<String>>) -> (s: String)
    ensures
        s@ == pretty_or_text(content@, reformat_view(reformatted)),
{
    match reformatted {
        Some(Some(p)) => p,
        _ => content.clone(),
    }
}

/// The part of a detail text after a bracketed timestamp, if it has one.
pub fn json_part(content: &str) -> (r: Option<String>)
    ensures
        opt_text(r) == json_part_of(content@),
{
    let chars = chars_of(content);
    let marker = chars_of("] {");
    proof {
        reveal_strlit("] {");
    }
    match find(chars.as_slice(), marker.as_slice()) {
        Some(json_start) => {
            let n = chars.len();
            assert(json_start + 1 <= n);
            let tail = chars_from(chars.as_slice(), json_start + 1);
            Some(string_from_chars(trim(tail.as_slice()).as_slice()))
        },
        None => None,
    }
}

/// The detail text as shown when it has a timestamp part, from what
/// `reformat_json` made of that part and of the whole text.
pub fn details_with_part(
    content: &String,
    part: Option<Option<String>>,
    whole: Option<Option<String>>,
) -> (s: String)
    ensures
        s@ == details_with_part_text(content@, reformat_view(part), reformat_view(whole)),
{
    match part {
        Some(Some(p)) => p,
        Some(None) => content.clone(),
        None => pretty_or(content, whole),
    }
}

/// A list line: the selected one marked with `> `, the others indented.
pub open spec fn marked_line(item: Seq<char>, selected: bool) -> Seq<char> {
    if selected {
        "> "@ + item
    } else {
        "  "@ + item
    }
}

impl PopupView {
    /// The action a key press produces.
    pub open spec fn key_action(self, key: KeyEvent) -> Option<WidgetActionView> {
        match key.code {
            KeyCode::Up => Some(WidgetActionView::PopupAction(PopupActionView::ArrowUp)),
            KeyCode::Down => Some(WidgetActionView::PopupAction(PopupActionView::ArrowDown)),
            KeyCode::Enter => Some(WidgetActionView::PopupAction(PopupActionView::Enter)),
            KeyCode::Esc => Some(WidgetActionView::PopupAction(PopupActionView::Escape)),
            _ => None,
        }
    }

    /// The popup can take the action without its arithmetic going below zero:
    /// moving down needs at least one selectable item.
    pub open spec fn accepts(self, a: WidgetActionView) -> bool {
        a == WidgetActionView::PopupAction(PopupActionView::ArrowDown) ==> self.content.len() > 0
    }

    /// The state after a widget action.
    pub open spec fn after_action(self, a: WidgetActionView) -> PopupView {
        match a {
            WidgetActionView::PopupAction(p) => match p {
                PopupActionView::ArrowUp => if self.selection_index > 0 {
                    PopupView { selection_index: (self.selection_index - 1) as nat, ..self }
                } else {
                    self
                },
                PopupActionView::ArrowDown => if self.selection_index + 1 < self.content.len() {
                    PopupView { selection_index: self.selection_index + 1, ..self }
                } else {
                    self
                },
                PopupActionView::Enter => match self.content.get(self.selection_index as int) {
                    Some(item) => PopupView { selected_item: Some(item), ..self },
                    None => self,
                },
                PopupActionView::Escape => PopupView { visible: false, ..self },
                _ => self,
            },
            _ => self,
        }
    }

    /// The action produced by a widget action: Enter selects the highlighted profile.
    pub open spec fn action_result(self, a: WidgetActionView) -> Option<WidgetActionView> {
        match a {
            WidgetActionView::PopupAction(PopupActionView::Enter) => match self.content.get(
                self.selection_index as int,
            ) {
                Some(item) => Some(
                    WidgetActionView::PopupAction(PopupActionView::ItemSelected(item)),
                ),
                None => None,
            },
            _ => None,
        }
    }

    /// The lines of the profile list, the selected one marked.
    pub open spec fn profile_lines(self, items: Seq<Seq<char>>) -> Seq<Seq<char>> {
        Seq::new(items.len(), |i: int| marked_line(items[i], i == self.selection_index))
    }

    /// The text shown inside the popup.
    pub open spec fn content_text(self) -> Seq<char> {
        match self.content {
            PopupContentView::Profiles(items) => join_lines(self.profile_lines(items)),
            PopupContentView::Details(d) => details_text(d),
        }
    }

    /// The keyboard help of the popup.
    pub open spec fn help_items(self) -> Seq<(Seq<char>, Seq<char>)> {
        let first = match self.content {
            PopupContentView::Profiles(_) => seq![("Enter"@, "Select profile"@)],
            PopupContentView::Details(_) => seq![("PgUp/PgDn"@, "Scroll content"@)],
        };
        first + seq![("Esc"@, "Close popup"@), ("↑/↓"@, "Navigate"@)]
    }

    /// Percentage of the screen the popup takes in each direction.
    pub open spec fn size_percent(self) -> u16 {
        match self.content {
            PopupContentView::Details(_) => 80,
            _ => 60,
        }
    }
}

impl View for PopupWidget {
    type V = PopupView;

    closed spec fn view(&self) -> PopupView {
        PopupView {
            content: self.content@,
            title: self.title@,
            selected_item: match self.selected_item {
                Some(s) => Some(s@),
                None => None,
            },
            selection_index: self.selection_index as nat,
            active: self.active,
            visible: self.visible,
        }
    }
}

/// The inner area of a popup: two cells in from the sides, one from top and bottom.
pub fn calculate_content_area(popup_area: Area) -> (r: Area)
    ensures
        r.x == sat_add(popup_area.x, 2),
        r.y == sat_add(popup_area.y, 1),
        r.width == sat_sub(popup_area.width, 4),
        r.height == sat_sub(popup_area.height, 2),
{
    Area {
        x: popup_area.x.saturating_add(2),
        y: popup_area.y.saturating_add(1),
        width: popup_area.width.saturating_sub(4),
        height: popup_area.height.saturating_sub(2),
    }
}

impl PopupWidget {
    /// Creates a new popup widget with optional initial visibility and active state
    pub fn new(content: PopupContent, title: &str, visible: bool, active: bool) -> (w: PopupWidget)
        ensures
            w@ == (PopupView {
                content: content@,
                title: title@,
                selected_item: None,
                selection_index: 0,
                active,
                visible,
            }),
    {
        PopupWidget {
            title: title.to_string(),
            selected_item: None,
            content,
            selection_index: 0,
            active,
            visible,
        }
    }

    /// Updates the content of the popup
    pub fn set_content(&mut self, content: PopupContent)
        ensures
            final(self)@ == (PopupView { content: content@, ..old(self)@ }),
    {
        self.content = content;
    }

    /// Whether an area is large enough to hold the popup.
    pub fn fits(area: Area) -> (b: bool)
        ensures
            b == (area.width > MIN_POPUP_WIDTH && area.height > MIN_POPUP_HEIGHT),
    {
        !(area.width <= MIN_POPUP_WIDTH || area.height <= MIN_POPUP_HEIGHT)
    }

    /// Number of selectable items.
    pub fn content_len(&self) -> (n: usize)
        ensures
            n == self@.content.len(),
    {
        self.content.len()
    }

    /// Percentage of the screen the popup takes: larger for details than for profiles.
    pub fn size_percent(&self) -> (p: u16)
        ensures
            p == self@.size_percent(),
    {
        match self.content {
            PopupContent::Details(_) => 80,
            _ => 60,
        }
    }

    /// The text shown inside the popup: the profile list with the selected
    /// line marked, or the detail text pretty-printed where it is JSON.
    pub fn render_content(&self) -> (s: String)
        ensures
            s@ == self@.content_text(),
    {
        match &self.content {
            PopupContent::Profiles(items) => {
                let mut lines: Vec<String> = Vec::new();
                let mut i: usize = 0;
                while i < items.len()
                    invariant
                        i <= items@.len(),
                        lines@.len() == i,
                        forall|j: int|
                            0 <= j < i ==> #[trigger] lines@[j]@ == marked_line(
                                items@[j]@,
                                j == self.selection_index,
                            ),
                    decreases items@.len() - i,
                {
                    if i == self.selection_index {
                        lines.push(join2("> ", items[i].as_str()));
                    } else {
                        lines.push(join2("  ", items[i].as_str()));
                    }
                    i = i + 1;
                }
                assert(lines.deep_view() =~= self@.profile_lines(items.deep_view()));
                join_with_newlines(&lines)
            },
            PopupContent::Details(content) => Self::format_details(content),
        }
    }

    /// The detail text as shown, pretty-printed where it holds JSON.
    fn format_details(content: &String) -> (s: String)
        ensures
            s@ == details_text(content@),
    {
        match json_part(content.as_str()) {
            Some(part) => {
                let part_result = reformat_json(part.as_str());
                match part_result {
                    None => {
                        let whole = reformat_json(content.as_str());
                        details_with_part(content, None, whole)
                    },
                    _ => {
                        proof {
                            assert(details_with_part_text(content@, reformat_view(part_result), reformatted_json(content@))
                                == details_with_part_text(content@, reformat_view(part_result), None));
                        }
                        details_with_part(content, part_result, None)
                    },
                }
            },
            None => pretty_or(content, reformat_json(content.as_str())),
        }
    }

    /// Handles keyboard input for popup navigation
    pub fn handle_input(&self, key_event: KeyEvent) -> (r: Option<WidgetAction>)
        ensures
            action_view(r) == self@.key_action(key_event),
    {
        match key_event.code {
            KeyCode::Up => Some(WidgetAction::PopupAction(PopupAction::ArrowUp)),
            KeyCode::Down => Some(WidgetAction::PopupAction(PopupAction::ArrowDown)),
            KeyCode::Enter => Some(WidgetAction::PopupAction(PopupAction::Enter)),
            KeyCode::Esc => Some(WidgetAction::PopupAction(PopupAction::Escape)),
            _ => None,
        }
    }

    /// Processes popup events and updates state accordingly
    pub fn process_event(&mut self, event: WidgetAction) -> (r: Option<WidgetAction>)
        requires
            old(self)@.accepts(event@),
        ensures
            final(self)@ == old(self)@.after_action(event@),
            action_view(r) == old(self)@.action_result(event@),
    {
        match event {
            WidgetAction::PopupAction(event) => match event {
                PopupAction::ArrowUp => {
                    if self.selection_index > 0 {
                        self.selection_index = self.selection_index - 1;
                    }
                    None
                },
                PopupAction::ArrowDown => {
                    if self.selection_index < self.content.len() - 1 {
                        self.selection_index = self.selection_index + 1;
                    }
                    None
                },
                PopupAction::Enter => {
                    match self.content.get(self.selection_index) {
                        Some(item) => {
                            let chosen = item.clone();
                            self.selected_item = Some(item.clone());
                            Some(WidgetAction::PopupAction(PopupAction::ItemSelected(chosen)))
                        },
                        None => None,
                    }
                },
                PopupAction::Escape => {
                    self.visible = false;
                    None
                },
                _ => None,
            },
            _ => None,
        }
    }

    /// Returns help items for the help toolbar
    pub fn get_help_items(&self) -> (items: Vec<(String, String)>)
        ensures
            items.deep_view() == self@.help_items(),
    {
        let mut items = Vec::new();
        match self.content {
            PopupContent::Profiles(_) => {
                items.push(("Enter".to_string(), "Select profile".to_string()));
            },
            PopupContent::Details(_) => {
                items.push(("PgUp/PgDn".to_string(), "Scroll content".to_string()));
            },
        }
        items.push(("Esc".to_string(), "Close popup".to_string()));
        items.push(("↑/↓".to_string(), "Navigate".to_string()));
        assert(items.deep_view() =~= self@.help_items());
        items
    }

    /// The title shown in the border.
    pub fn title(&self) -> (s: String)
        ensures
            s@ == self@.title,
    {
        self.title.clone()
    }

    /// Returns whether the popup is currently visible
    pub fn is_visible(&self) -> (b: bool)
        ensures
            b == self@.visible,
    {
        self.visible
    }

    /// Returns whether the popup has focus
    pub fn is_active(&self) -> (b: bool)
        ensures
            b == self@.active,
    {
        self.active
    }

    /// Sets the focus state of the popup
    pub fn set_active(&mut self, active: bool)
        ensures
            final(self)@ == (PopupView { active, ..old(self)@ }),
    {
        self.active = active;
    }

    /// Removes focus from the popup
    pub fn set_inactive(&mut self)
        ensures
            final(self)@ == (PopupView { active: false, ..old(self)@ }),
    {
        self.active = false;
    }

    /// Controls visibility of the popup
    pub fn set_visible(&mut self, visible: bool)
        ensures
            final(self)@ == (PopupView { visible, ..old(self)@ }),
    {
        self.visible = visible;
    }

    /// Updates the popup's title
    pub fn set_title(&mut self, title: String)
        ensures
            final(self)@ == (PopupView { title: title@, ..old(self)@ }),
    {
        self.title = title;
    }
}

/// Moving the highlight keeps it on the list (or at the top of an empty list).
pub proof fn lemma_popup_selection_in_range(v: PopupView, a: WidgetActionView)
    requires
        v.selection_index == 0 || v.selection_index < v.content.len(),
    ensures
        v.after_action(a).selection_index == 0 || v.after_action(a).selection_index < v.after_action(
            a,
        ).content.len(),
{
}

} // verus!
