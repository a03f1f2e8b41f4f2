//! The plain service navigator of the tab's left side: a scrollable list of
//! services with a selection, without filtering.
use vstd::prelude::*;
use crate::event_managment::event::{
    KeyCode, KeyEvent, ServiceNavigatorEvent, ServiceNavigatorEventView, WidgetAction,
    WidgetActionView, WidgetEventType, WidgetType, action_view,
};
use crate::text::join2;
use crate::widgets::popup::marked_line;
pub use crate::widgets::service_navigator::{NavigatorContent, ContentView, copy_content, min_int, JUMP_SIZE, SCROLL_HEIGHT};

verus! {

pub struct AWSServiceNavigator {
    title: String,
    widget_type: WidgetType,
    content: NavigatorContent,
    selected_index: usize,
    scroll_offset: usize,
    active: bool,
    visible: bool,
}

pub struct ListNavigatorView {
    pub title: Seq<char>,
    pub widget_type: WidgetType,
    pub content: ContentView,
    pub selected: nat,
    pub scroll: nat,
    pub active: bool,
    pub visible: bool,
}

impl ListNavigatorView {
    pub open spec fn nav(self, e: ServiceNavigatorEventView) -> Option<WidgetActionView> {
        Some(WidgetActionView::ServiceNavigatorEvent(e, self.widget_type))
    }

    /// The scroll position that keeps the selection within `height` rows.
    pub open spec fn scrolled(self, height: nat) -> ListNavigatorView {
        let h = if height == 0 { 1 } else { height };
        if self.selected < self.scroll {
            ListNavigatorView { scroll: self.selected, ..self }
        } else if self.selected >= self.scroll + h {
            ListNavigatorView { scroll: (self.selected - h + 1) as nat, ..self }
        } else {
            self
        }
    }

    pub open spec fn with_selected(self, i: nat) -> ListNavigatorView {
        ListNavigatorView { selected: i, ..self }.scrolled(SCROLL_HEIGHT as nat)
    }

    pub open spec fn can_move_down(self) -> bool {
        self.content.len() > 0 && self.selected + 1 < self.content.len()
    }

    /// The state after a key press.
    pub open spec fn after_key(self, key: KeyEvent) -> ListNavigatorView {
        let len = self.content.len();
        match key.code {
            KeyCode::Up => if self.selected > 0 {
                self.with_selected((self.selected - 1) as nat)
            } else {
                self
            },
            KeyCode::Down => if self.can_move_down() {
                self.with_selected(self.selected + 1)
            } else {
                self
            },
            KeyCode::PageUp => if self.selected > 0 {
                self.with_selected(
                    if self.selected >= JUMP_SIZE {
                        (self.selected - JUMP_SIZE) as nat
                    } else {
                        0
                    },
                )
            } else {
                self
            },
            KeyCode::PageDown => if self.can_move_down() {
                self.with_selected(min_int(self.selected + JUMP_SIZE, len - 1) as nat)
            } else {
                self
            },
            KeyCode::Home => if self.selected > 0 {
                ListNavigatorView { selected: 0, scroll: 0, ..self }
            } else {
                self
            },
            KeyCode::End => if self.can_move_down() {
                self.with_selected((len - 1) as nat)
            } else {
                self
            },
            _ => self,
        }
    }

    /// The action a key press produces.
    pub open spec fn key_action(self, key: KeyEvent) -> Option<WidgetActionView> {
        match key.code {
            KeyCode::Up => self.nav(ServiceNavigatorEventView::ArrowUp),
            KeyCode::Down => self.nav(ServiceNavigatorEventView::ArrowDown),
            KeyCode::PageUp => self.nav(ServiceNavigatorEventView::PageUp),
            KeyCode::PageDown => self.nav(ServiceNavigatorEventView::PageDown),
            KeyCode::Enter => self.nav(ServiceNavigatorEventView::Enter),
            KeyCode::Home => self.nav(ServiceNavigatorEventView::Home),
            KeyCode::End => self.nav(ServiceNavigatorEventView::End),
            _ => None,
        }
    }

    pub open spec fn selection(self) -> Option<WidgetActionView> {
        if self.selected < self.content.len() {
            self.nav(ServiceNavigatorEventView::ItemSelected(self.content.item(self.selected as int)))
        } else {
            None
        }
    }

    /// The state after a widget action: Escape hides the list.
    pub open spec fn after_action(self, a: WidgetActionView) -> ListNavigatorView {
        match a {
            WidgetActionView::ServiceNavigatorEvent(ServiceNavigatorEventView::Escape, _) => ListNavigatorView {
                visible: false,
                ..self
            },
            _ => self,
        }
    }

    /// The action produced by a widget action: Enter reports the selection.
    pub open spec fn action_result(self, a: WidgetActionView) -> Option<WidgetActionView> {
        match a {
            WidgetActionView::ServiceNavigatorEvent(ServiceNavigatorEventView::Enter, _) => self.selection(),
            _ => None,
        }
    }

    pub open spec fn inner_title(self) -> Seq<char> {
        match self.content {
            ContentView::Services(_) => "Available Services"@,
            ContentView::Records(_) => "Available Records"@,
        }
    }

    pub open spec fn indicator_rows(self, visible_height: nat) -> int {
        (if self.scroll > 0 { 1int } else { 0int }) + (if self.scroll + visible_height
            < self.content.len() {
            1int
        } else {
            0int
        })
    }

    pub open spec fn available_rows(self, visible_height: nat) -> nat {
        let used = self.indicator_rows(visible_height);
        if visible_height >= used { (visible_height - used) as nat } else { 0 }
    }

    pub open spec fn shown_count(self, visible_height: nat) -> nat {
        if self.scroll < self.content.len() {
            min_int(self.available_rows(visible_height) as int, self.content.len() - self.scroll) as nat
        } else {
            0
        }
    }

    pub open spec fn item_lines(self, visible_height: nat) -> Seq<Seq<char>> {
        Seq::new(
            self.shown_count(visible_height),
            |j: int|
                marked_line(self.content.display(self.scroll + j), self.scroll + j == self.selected),
        )
    }

    /// The lines shown inside the frame for a given visible height.
    pub open spec fn lines(self, visible_height: nat) -> Seq<Seq<char>> {
        let header = if self.scroll > 0 {
            seq!["▲ Scroll up for more"@]
        } else {
            Seq::<Seq<char>>::empty()
        };
        let footer = if self.scroll + self.available_rows(visible_height) < self.content.len() {
            seq!["▼ Scroll down for more"@]
        } else {
            Seq::<Seq<char>>::empty()
        };
        header + self.item_lines(visible_height) + footer
    }

    /// The keyboard help: the keys this list reacts to.
    pub open spec fn help_items(self) -> Seq<(Seq<char>, Seq<char>)> {
        seq![
            ("Enter"@, "Select"@),
            ("↑/↓"@, "Navigate"@),
            ("PgUp/PgDn"@, "Scroll"@),
            ("Home/End"@, "Jump to start/end"@),
        ]
    }
}

impl View for AWSServiceNavigator {
    type V = ListNavigatorView;

    closed spec fn view(&self) -> ListNavigatorView {
        ListNavigatorView {
            title: self.title@,
            widget_type: self.widget_type,
            content: self.content@,
            selected: self.selected_index as nat,
            scroll: self.scroll_offset as nat,
            active: self.active,
            visible: self.visible,
        }
    }
}

impl AWSServiceNavigator {
    pub fn new(widget_type: WidgetType, active: bool, content: NavigatorContent) -> (n:
        AWSServiceNavigator)
        ensures
            n@ == (ListNavigatorView {
                title: "AWS Services"@,
                widget_type,
                content: content@,
                selected: 0,
                scroll: 0,
                active,
                visible: true,
            }),
    {
        AWSServiceNavigator {
            title: "AWS Services".to_string(),
            widget_type,
            content,
            selected_index: 0,
            scroll_offset: 0,
            active,
            visible: true,
        }
    }

    fn content_len(&self) -> (n: usize)
        ensures
            n == self@.content.len(),
    {
        match &self.content {
            NavigatorContent::Services(services) => services.len(),
            NavigatorContent::Records(records) => records.len(),
        }
    }

    fn selected_item(&self) -> (r: Option<WidgetAction>)
        ensures
            action_view(r) == self@.selection(),
    {
        match &self.content {
            NavigatorContent::Services(services) => {
                if self.selected_index < services.len() {
                    Some(
                        WidgetAction::ServiceNavigatorEvent(
                            ServiceNavigatorEvent::ItemSelected(
                                services[self.selected_index].duplicate(),
                            ),
                            self.widget_type,
                        ),
                    )
                } else {
                    None
                }
            },
            NavigatorContent::Records(records) => {
                if self.selected_index < records.len() {
                    Some(
                        WidgetAction::ServiceNavigatorEvent(
                            ServiceNavigatorEvent::ItemSelected(
                                WidgetEventType::RecordSelected(records[self.selected_index].clone()),
                            ),
                            self.widget_type,
                        ),
                    )
                } else {
                    None
                }
            },
        }
    }

    fn update_scroll_offset(&mut self, height: usize)
        ensures
            final(self)@ == old(self)@.scrolled(height as nat),
    {
        let height = if height == 0 { 1 } else { height };
        if self.selected_index < self.scroll_offset {
            self.scroll_offset = self.selected_index;
            return;
        }
        if self.selected_index - self.scroll_offset >= height {
            self.scroll_offset = self.selected_index - height + 1;
        }
    }

    fn select(&mut self, index: usize)
        ensures
            final(self)@ == old(self)@.with_selected(index as nat),
    {
        self.selected_index = index;
        self.update_scroll_offset(SCROLL_HEIGHT);
    }

    pub fn set_content(&mut self, content: NavigatorContent)
        ensures
            final(self)@ == (ListNavigatorView {
                content: content@,
                selected: 0,
                scroll: 0,
                ..old(self)@
            }),
    {
        self.content = content;
        self.selected_index = 0;
        self.scroll_offset = 0;
    }

    pub fn handle_input(&mut self, key_event: KeyEvent) -> (r: Option<WidgetAction>)
        ensures
            final(self)@ == old(self)@.after_key(key_event),
            action_view(r) == old(self)@.key_action(key_event),
    {
        let wt = self.widget_type;
        match key_event.code {
            KeyCode::Up => {
                if self.selected_index > 0 {
                    self.select(self.selected_index - 1);
                }
                Some(WidgetAction::ServiceNavigatorEvent(ServiceNavigatorEvent::ArrowUp, wt))
            },
            KeyCode::Down => {
                let content_len = self.content_len();
                if content_len > 0 && self.selected_index < content_len - 1 {
                    self.select(self.selected_index + 1);
                }
                Some(WidgetAction::ServiceNavigatorEvent(ServiceNavigatorEvent::ArrowDown, wt))
            },
            KeyCode::PageUp => {
                if self.selected_index > 0 {
                    let target = if self.selected_index >= JUMP_SIZE {
                        self.selected_index - JUMP_SIZE
                    } else {
                        0
                    };
                    self.select(target);
                }
                Some(WidgetAction::ServiceNavigatorEvent(ServiceNavigatorEvent::PageUp, wt))
            },
            KeyCode::PageDown => {
                let content_len = self.content_len();
                if content_len > 0 && self.selected_index < content_len - 1 {
                    let last = content_len - 1;
                    let target = if last - self.selected_index > JUMP_SIZE {
                        self.selected_index + JUMP_SIZE
                    } else {
                        last
                    };
                    self.select(target);
                }
                Some(WidgetAction::ServiceNavigatorEvent(ServiceNavigatorEvent::PageDown, wt))
            },
            KeyCode::Enter => Some(
                WidgetAction::ServiceNavigatorEvent(ServiceNavigatorEvent::Enter, wt),
            ),
            KeyCode::Home => {
                if self.selected_index > 0 {
                    self.selected_index = 0;
                    self.scroll_offset = 0;
                }
                Some(WidgetAction::ServiceNavigatorEvent(ServiceNavigatorEvent::Home, wt))
            },
            KeyCode::End => {
                let content_len = self.content_len();
                if content_len > 0 && self.selected_index < content_len - 1 {
                    self.select(content_len - 1);
                }
                Some(WidgetAction::ServiceNavigatorEvent(ServiceNavigatorEvent::End, wt))
            },
            _ => None,
        }
    }

    pub fn process_event(&mut self, event: WidgetAction) -> (r: Option<WidgetAction>)
        ensures
            final(self)@ == old(self)@.after_action(event@),
            action_view(r) == old(self)@.action_result(event@),
    {
        match event {
            WidgetAction::ServiceNavigatorEvent(event, _) => match event {
                ServiceNavigatorEvent::Enter => self.selected_item(),
                ServiceNavigatorEvent::Escape => {
                    self.visible = false;
                    None
                },
                _ => None,
            },
            _ => None,
        }
    }

    pub fn title(&self) -> (s: String)
        ensures
            s@ == self@.title,
    {
        self.title.clone()
    }

    pub fn inner_title(&self) -> (s: String)
        ensures
            s@ == self@.inner_title(),
    {
        match &self.content {
            NavigatorContent::Services(_) => "Available Services".to_string(),
            NavigatorContent::Records(_) => "Available Records".to_string(),
        }
    }

    fn display_at(&self, i: usize) -> (s: String)
        requires
            i < self@.content.len(),
        ensures
            s@ == self@.content.display(i as int),
    {
        match &self.content {
            NavigatorContent::Services(services) => services[i].display_text(),
            NavigatorContent::Records(records) => records[i].clone(),
        }
    }

    /// The lines shown inside the frame when `visible_height` rows are available.
    pub fn lines(&self, visible_height: usize) -> (lines: Vec<String>)
        ensures
            lines.deep_view() == self@.lines(visible_height as nat),
    {
        let total = self.content_len();
        let ghost v = self@;
        let mut lines: Vec<String> = Vec::new();
        if self.scroll_offset > 0 {
            lines.push("▲ Scroll up for more".to_string());
        }
        let ghost header = lines.deep_view();
        assert(header =~= (if v.scroll > 0 {
            seq!["▲ Scroll up for more"@]
        } else {
            Seq::<Seq<char>>::empty()
        }));
        let down_indicator: usize = if self.scroll_offset < total && visible_height < total
            - self.scroll_offset {
            1
        } else {
            0
        };
        let up_indicator: usize = if self.scroll_offset > 0 { 1 } else { 0 };
        let used = up_indicator + down_indicator;
        let available = if visible_height >= used { visible_height - used } else { 0 };
        assert(available == v.available_rows(visible_height as nat));
        let shown: usize = if self.scroll_offset < total {
            if available < total - self.scroll_offset { available } else { total - self.scroll_offset }
        } else {
            0
        };
        assert(shown == v.shown_count(visible_height as nat));
        let mut j: usize = 0;
        while j < shown
            invariant
                v == self@,
                total == v.content.len(),
                shown == v.shown_count(visible_height as nat),
                j <= shown,
                shown > 0 ==> self.scroll_offset + shown <= total,
                lines.deep_view() == header + v.item_lines(visible_height as nat).subrange(
                    0,
                    j as int,
                ),
            decreases shown - j,
        {
            let index = self.scroll_offset + j;
            let text = self.display_at(index);
            let ghost expected = v.item_lines(visible_height as nat)[j as int];
            assert(expected == marked_line(
                v.content.display(index as int),
                index == self.selected_index,
            ));
            let ghost before = lines.deep_view();
            if index == self.selected_index {
                lines.push(join2("> ", text.as_str()));
            } else {
                lines.push(join2("  ", text.as_str()));
            }
            assert(lines.deep_view() =~= before.push(expected));
            j = j + 1;
            assert(lines.deep_view() =~= header + v.item_lines(visible_height as nat).subrange(
                0,
                j as int,
            ));
        }
        assert(v.item_lines(visible_height as nat).subrange(0, shown as int) =~= v.item_lines(
            visible_height as nat,
        ));
        let more_below = self.scroll_offset < total && available < total - self.scroll_offset;
        if more_below {
            lines.push("▼ Scroll down for more".to_string());
        }
        assert(lines.deep_view() =~= v.lines(visible_height as nat));
        lines
    }

    pub fn get_help_items(&self) -> (items: Vec<(String, String)>)
        ensures
            items.deep_view() == self@.help_items(),
    {
        let mut items = Vec::new();
        items.push(("Enter".to_string(), "Select".to_string()));
        items.push(("↑/↓".to_string(), "Navigate".to_string()));
        items.push(("PgUp/PgDn".to_string(), "Scroll".to_string()));
        items.push(("Home/End".to_string(), "Jump to start/end".to_string()));
        assert(items.deep_view() =~= self@.help_items());
        items
    }

    pub fn is_visible(&self) -> (b: bool)
        ensures
            b == self@.visible,
    {
        self.visible
    }

    pub fn is_active(&self) -> (b: bool)
        ensures
            b == self@.active,
    {
        self.active
    }

    pub fn set_active(&mut self, active: bool)
        ensures
            final(self)@ == (ListNavigatorView { active, ..old(self)@ }),
    {
        self.active = active;
    }

    pub fn set_inactive(&mut self)
        ensures
            final(self)@ == (ListNavigatorView { active: false, ..old(self)@ }),
    {
        self.active = false;
    }

    pub fn set_visible(&mut self, visible: bool)
        ensures
            final(self)@ == (ListNavigatorView { visible, ..old(self)@ }),
    {
        self.visible = visible;
    }

    pub fn set_title(&mut self, title: String)
        ensures
            final(self)@ == (ListNavigatorView { title: title@, ..old(self)@ }),
    {
        self.title = title;
    }
}

/// Every key press and action keeps the selection on the list (or at the top
/// of an empty list), and after a move the selection lies within the rows
/// shown.
pub proof fn lemma_list_selection_in_range(v: ListNavigatorView, key: KeyEvent, a: WidgetActionView)
    requires
        v.selected == 0 || v.selected < v.content.len(),
    ensures
        v.after_key(key).selected == 0 || v.after_key(key).selected < v.content.len(),
        v.after_action(a).selected == 0 || v.after_action(a).selected < v.content.len(),
        v.after_key(key).selected != v.selected ==> v.after_key(key).scroll <= v.after_key(
            key,
        ).selected < v.after_key(key).scroll + SCROLL_HEIGHT,
{
}

/// PageUp moves the selection five items up, or to the top when it is fewer
/// than five from it; PageDown then PageUp comes back where it started when
/// there are at least five items below.
pub proof fn lemma_list_page_up(v: ListNavigatorView, key: KeyEvent, key2: KeyEvent)
    requires
        key.code == KeyCode::PageUp,
        key2.code == KeyCode::PageDown,
    ensures
        v.selected >= 5 ==> v.after_key(key).selected == v.selected - 5,
        v.selected < 5 ==> v.after_key(key).selected == 0,
        v.selected + 5 < v.content.len() ==> v.after_key(key2).after_key(key).selected == v.selected,
{
}

} // verus!
