//! The application: its tabs, which one is active, and whether it still runs.
//!
//! The application loop itself (drawing, reading events, performing commands)
//! belongs to the caller; this module decides what each event does.
use vstd::prelude::*;
use crate::components::{Command, CommandView, commands_view, one_command};
use crate::components::tab::{Completion, Tab, TabView};
use crate::event_managment::event::{AppEvent, Event, KeyCode, KeyEvent, TabEvent, TabEventView};
use crate::text::clone_strings;
use crate::widgets::input_box::ClipboardExchange;

verus! {

/// Main application state container
pub struct App<S, D, W> {
    /// Whether the application is still running
    pub running: bool,
    /// Generic counter for application state
    pub counter: u8,
    active_tab: usize,
    tabs: Vec<Tab<S, D, W>>,
    profiles: Vec<String>,
}

pub struct AppView<S, D, W> {
    pub running: bool,
    pub counter: u8,
    pub active_tab: nat,
    pub tabs: Seq<TabView<S, D, W>>,
    pub profiles: Seq<Seq<char>>,
}

impl<S, D, W> View for App<S, D, W> {
    type V = AppView<S, D, W>;

    closed spec fn view(&self) -> AppView<S, D, W> {
        AppView {
            running: self.running,
            counter: self.counter,
            active_tab: self.active_tab as nat,
            tabs: Seq::new(self.tabs@.len(), |i: int| self.tabs@[i]@),
            profiles: self.profiles.deep_view(),
        }
    }
}

/// The tab after the active one, wrapping round to the first.
pub open spec fn next_index(i: nat, n: nat) -> nat {
    ((i as int + 1) % (n as int)) as nat
}

/// The tab before the active one, wrapping round to the last.
pub open spec fn previous_index(i: nat, n: nat) -> nat {
    if i == 0 {
        (n - 1) as nat
    } else {
        (i - 1) as nat
    }
}

/// The application event a key press stands for: Ctrl with W, T, L, J, Q or Tab.
pub open spec fn shortcut(key: KeyEvent) -> Option<AppEvent> {
    if key.modifiers.spec_control_only() {
        match key.code {
            KeyCode::Tab => Some(AppEvent::NextTab),
            KeyCode::Char(c) => if c == 'w' {
                Some(AppEvent::CloseTab)
            } else if c == 't' {
                Some(AppEvent::CreateTab)
            } else if c == 'l' {
                Some(AppEvent::NextTab)
            } else if c == 'j' {
                Some(AppEvent::PreviousTab)
            } else if c == 'q' {
                Some(AppEvent::Quit)
            } else {
                None
            },
            _ => None,
        }
    } else {
        None
    }
}

impl<S, D, W> AppView<S, D, W> {
    /// There is always a tab, and the active one is one of them.
    pub open spec fn wf(self) -> bool {
        self.tabs.len() >= 1 && self.active_tab < self.tabs.len()
    }

    pub open spec fn active(self) -> TabView<S, D, W> {
        self.tabs[self.active_tab as int]
    }

    /// The state with the active tab replaced.
    pub open spec fn with_active(self, t: TabView<S, D, W>) -> AppView<S, D, W> {
        AppView { tabs: self.tabs.update(self.active_tab as int, t), ..self }
    }

    /// The state after an application event. A new tab is described by its
    /// view `fresh`.
    pub open spec fn after_app_event(self, e: AppEvent, fresh: TabView<S, D, W>) -> AppView<S, D, W> {
        match e {
            AppEvent::NextTab => AppView {
                active_tab: next_index(self.active_tab, self.tabs.len()),
                ..self
            },
            AppEvent::PreviousTab => AppView {
                active_tab: previous_index(self.active_tab, self.tabs.len()),
                ..self
            },
            AppEvent::CreateTab => AppView { tabs: self.tabs.push(fresh), ..self },
            AppEvent::CloseTab => if self.tabs.len() > 1 {
                AppView {
                    tabs: self.tabs.remove(self.active_tab as int),
                    active_tab: if self.active_tab > 0 {
                        (self.active_tab - 1) as nat
                    } else {
                        0
                    },
                    ..self
                }
            } else {
                self
            },
            AppEvent::Quit => AppView { running: false, ..self },
        }
    }
}

/// The tab the application opens on request.
pub open spec fn new_tab<S, D, W>(profiles: Seq<Seq<char>>) -> TabView<S, D, W> {
    TabView::initial("New Tab"@, "This is a new tab."@, profiles)
}

impl<S: Clone, D: Clone, W: Clone> App<S, D, W> {
    /// Creates the application with three tabs, each opening with a popup
    /// that lists the profiles.
    pub fn new(profiles: Vec<String>) -> (app: App<S, D, W>)
        ensures
            app@.wf(),
            app@.running,
            app@.counter == 0,
            app@.active_tab == 0,
            app@.tabs.len() == 3,
            app@.tabs[0] == TabView::<S, D, W>::initial("Tab 1"@, "This is Tab 1."@, profiles.deep_view()),
            app@.tabs[1] == TabView::<S, D, W>::initial("Tab 2"@, "This is Tab 2."@, profiles.deep_view()),
            app@.tabs[2] == TabView::<S, D, W>::initial("Tab 3"@, "This is Tab 3."@, profiles.deep_view()),
            app@.profiles == profiles.deep_view(),
    {
        let mut tabs: Vec<Tab<S, D, W>> = Vec::new();
        tabs.push(Tab::new("Tab 1", "This is Tab 1.", clone_strings(&profiles)));
        tabs.push(Tab::new("Tab 2", "This is Tab 2.", clone_strings(&profiles)));
        tabs.push(Tab::new("Tab 3", "This is Tab 3.", clone_strings(&profiles)));
        App { running: true, counter: 0, tabs, active_tab: 0, profiles }
    }

    /// The names of all tabs, for the tab bar.
    pub fn tab_names(&self) -> (names: Vec<String>)
        ensures
            names.deep_view() == Seq::new(self@.tabs.len(), |i: int| self@.tabs[i].name),
    {
        let mut names: Vec<String> = Vec::new();
        let mut i: usize = 0;
        while i < self.tabs.len()
            invariant
                i <= self.tabs@.len(),
                names@.len() == i,
                forall|j: int| 0 <= j < i ==> #[trigger] names@[j]@ == self@.tabs[j].name,
            decreases self.tabs@.len() - i,
        {
            names.push(self.tabs[i].name().to_owned());
            i = i + 1;
        }
        assert(names.deep_view() =~= Seq::new(self@.tabs.len(), |i: int| self@.tabs[i].name));
        names
    }

    /// The index of the active tab.
    pub fn active_index(&self) -> (i: usize)
        ensures
            i == self@.active_tab,
    {
        self.active_tab
    }

    /// The active tab, for rendering and for performing its commands.
    pub fn active_tab(&self) -> (t: &Tab<S, D, W>)
        requires
            self@.wf(),
        ensures
            t@ == self@.active(),
    {
        &self.tabs[self.active_tab]
    }

    /// Whether the application can take the key, given the clipboard: a key
    /// that is no shortcut goes to the active tab, which must be able to take it.
    pub fn accepts_key_event(&self, key_event: KeyEvent, clipboard: &ClipboardExchange) -> (b: bool)
        requires
            self@.wf(),
        ensures
            b == (shortcut(key_event) is None ==> self@.active().accepts_key(
                key_event,
                clipboard.paste_view(),
            )),
    {
        let is_shortcut = key_event.modifiers.is_control_only() && match key_event.code {
            KeyCode::Tab => true,
            KeyCode::Char(c) => c == 'w' || c == 't' || c == 'l' || c == 'j' || c == 'q',
            _ => false,
        };
        is_shortcut || self.tabs[self.active_tab].accepts_key(key_event, clipboard)
    }

    /// Processes keyboard events and routes them to appropriate handlers
    ///
    /// Handles global shortcuts and routes other keypresses to the active tab
    pub fn handle_key_events(&mut self, key_event: KeyEvent, clipboard: &mut ClipboardExchange) -> (cmds:
        Vec<Command>)
        requires
            shortcut(key_event) is None ==> old(self)@.active().accepts_key(
                key_event,
                old(clipboard).paste_view(),
            ),
            old(self)@.wf(),
        ensures
            final(self)@.wf(),
            match shortcut(key_event) {
                Some(e) => final(self)@ == old(self)@ && commands_view(cmds@) == seq![
                    CommandView::Send(crate::event_managment::event::EventView::App(e)),
                ] && *final(clipboard) == *old(clipboard),
                None => final(self)@ == old(self)@.with_active(
                    old(self)@.active().after_key(key_event, old(clipboard).paste_view()),
                ) && commands_view(cmds@) == old(self)@.active().key_commands(
                    key_event,
                    old(clipboard).paste_view(),
                ) && final(clipboard).copy_view() == match old(self)@.active().key_copy(key_event) {
                    Some(t) => Some(t),
                    None => old(clipboard).copy_view(),
                },
            },
            final(clipboard).paste_text == old(clipboard).paste_text,
    {
        let control = key_event.modifiers.is_control_only();
        if control {
            if key_event.code == KeyCode::Tab {
                return one_command(Command::Send(Event::App(AppEvent::NextTab)));
            }
            if let KeyCode::Char(c) = key_event.code {
                let event = if c == 'w' {
                    Some(AppEvent::CloseTab)
                } else if c == 't' {
                    Some(AppEvent::CreateTab)
                } else if c == 'l' {
                    Some(AppEvent::NextTab)
                } else if c == 'j' {
                    Some(AppEvent::PreviousTab)
                } else if c == 'q' {
                    Some(AppEvent::Quit)
                } else {
                    None
                };
                if let Some(e) = event {
                    return one_command(Command::Send(Event::App(e)));
                }
            }
        }
        let i = self.active_tab;
        let ghost before = self@;
        let mut tab = self.tabs.remove(i);
        let cmds = tab.handle_input(key_event, clipboard);
        self.tabs.insert(i, tab);
        assert(self@.tabs =~= before.tabs.update(i as int, self@.tabs[i as int]));
        cmds
    }

    /// Updates application state based on application events
    ///
    /// Handles tab switching, creation, closure and application exit
    pub fn apply_app_state(&mut self, app_state: AppEvent)
        requires
            old(self)@.wf(),
        ensures
            final(self)@.wf(),
            final(self)@ == old(self)@.after_app_event(app_state, new_tab(old(self)@.profiles)),
    {
        match app_state {
            AppEvent::NextTab => self.next_tab(),
            AppEvent::PreviousTab => self.previous_tab(),
            AppEvent::CreateTab => {
                let tab = Tab::new("New Tab", "This is a new tab.", clone_strings(&self.profiles));
                let ghost fresh = tab@;
                let ghost before = self@;
                self.tabs.push(tab);
                assert(self@.tabs =~= before.tabs.push(fresh));
            },
            AppEvent::CloseTab => {
                if self.tabs.len() > 1 {
                    let ghost before = self@;
                    self.tabs.remove(self.active_tab);
                    self.active_tab = if self.active_tab > 0 { self.active_tab - 1 } else { 0 };
                    assert(self@.tabs =~= before.tabs.remove(before.active_tab as int));
                }
            },
            AppEvent::Quit => self.quit(),
        }
    }

    /// Whether the active tab can take the event.
    pub fn accepts_tab_event(&self, tab_event: &TabEvent) -> (b: bool)
        requires
            self@.wf(),
        ensures
            b == self@.active().accepts(tab_event@),
    {
        self.tabs[self.active_tab].accepts(tab_event)
    }

    /// Routes tab events to the currently active tab
    #[verifier::rlimit(40)]
    pub fn apply_tab_state(&mut self, tab_event: TabEvent) -> (cmds: Vec<Command>)
        requires
            old(self)@.wf(),
            old(self)@.active().accepts(tab_event@),
        ensures
            final(self)@.wf(),
            final(self)@.running == old(self)@.running,
            final(self)@.active_tab == old(self)@.active_tab,
            final(self)@.tabs.len() == old(self)@.tabs.len(),
            forall|i: int|
                0 <= i < old(self)@.tabs.len() && i != old(self)@.active_tab ==> #[trigger] final(self)@.tabs[i] == old(self)@.tabs[i],
            match tab_event@ {
                TabEventView::TabAction(a) => final(self)@.active() == old(self)@.active().after_tab_action(a)
                    && commands_view(cmds@) == old(self)@.active().tab_action_commands(a),
                TabEventView::WidgetActions(w) => final(self)@.active() == old(self)@.active().after_widget_action(w) && commands_view(cmds@) == old(self)@.active().widget_action_commands(w),
                TabEventView::ComponentActions(c) => final(self)@.active() == old(self)@.active().after_component_action(c) && commands_view(cmds@) == old(self)@.active().component_action_commands(c),
            },
    {
        let i = self.active_tab;
        let ghost before = self@;
        let mut tab = self.tabs.remove(i);
        let cmds = tab.process_event(tab_event);
        self.tabs.insert(i, tab);
        assert(self@.tabs =~= before.tabs.update(i as int, self@.tabs[i as int]));
        cmds
    }

    /// Hands the result of a command back to the active tab.
    pub fn complete(&mut self, completion: Completion<S, D, W>) -> (cmds: Vec<Command>)
        requires
            old(self)@.wf(),
        ensures
            final(self)@.wf(),
            final(self)@.running == old(self)@.running,
            final(self)@.active_tab == old(self)@.active_tab,
            final(self)@.tabs.len() == old(self)@.tabs.len(),
            forall|i: int|
                0 <= i < old(self)@.tabs.len() && i != old(self)@.active_tab ==> #[trigger] final(self)@.tabs[i] == old(self)@.tabs[i],
            final(self)@.active() == old(self)@.active().after_completion(completion),
            commands_view(cmds@) == old(self)@.active().completion_commands(completion),
    {
        let i = self.active_tab;
        let ghost before = self@;
        let mut tab = self.tabs.remove(i);
        let cmds = tab.complete(completion);
        self.tabs.insert(i, tab);
        assert(self@.tabs =~= before.tabs.update(i as int, self@.tabs[i as int]));
        cmds
    }
}

impl<S, D, W> App<S, D, W> {
    /// Handles the tick event of the terminal
    pub fn tick(&self) {
    }

    /// Terminates the application by setting running to false
    pub fn quit(&mut self)
        ensures
            final(self)@ == (AppView { running: false, ..old(self)@ }),
    {
        self.running = false;
    }

    /// Cycles to the next tab in the tab collection
    pub fn next_tab(&mut self)
        requires
            old(self)@.wf(),
        ensures
            final(self)@ == (AppView {
                active_tab: next_index(old(self)@.active_tab, old(self)@.tabs.len()),
                ..old(self)@
            }),
            final(self)@.wf(),
    {
        let n = self.tabs.len();
        if self.active_tab == n - 1 {
            assert((n as int - 1 + 1) % (n as int) == 0) by (nonlinear_arith)
                requires
                    n >= 1,
            ;
            self.active_tab = 0;
        } else {
            let i = self.active_tab;
            assert((i as int + 1) % (n as int) == i + 1) by (nonlinear_arith)
                requires
                    i + 1 < n,
            ;
            self.active_tab = i + 1;
        }
    }

    /// Cycles to the previous tab in the tab collection
    pub fn previous_tab(&mut self)
        requires
            old(self)@.wf(),
        ensures
            final(self)@ == (AppView {
                active_tab: previous_index(old(self)@.active_tab, old(self)@.tabs.len()),
                ..old(self)@
            }),
            final(self)@.wf(),
    {
        if self.active_tab == 0 {
            self.active_tab = self.tabs.len() - 1;
        } else {
            self.active_tab = self.active_tab - 1;
        }
    }
}

/// Moving to the next tab and then to the previous one comes back to the
/// same tab, and so does the reverse.
pub proof fn lemma_next_previous_inverse(i: nat, n: nat)
    requires
        i < n,
    ensures
        previous_index(next_index(i, n), n) == i,
        next_index(previous_index(i, n), n) == i,
{
    if i + 1 < n {
        assert((i as int + 1) % (n as int) == i + 1) by (nonlinear_arith)
            requires
                i + 1 < n,
        ;
    } else {
        assert((i as int + 1) % (n as int) == 0) by (nonlinear_arith)
            requires
                i + 1 == n,
        ;
    }
    if i == 0 {
        assert((n as int - 1 + 1) % (n as int) == 0) by (nonlinear_arith)
            requires
                n >= 1,
        ;
    } else {
        assert((i as int - 1 + 1) % (n as int) == i) by (nonlinear_arith)
            requires
                i < n,
                i >= 1,
        ;
    }
}

/// Every application event keeps a tab open and the active index on one of them.
pub proof fn lemma_app_events_keep_wf<S, D, W>(
    app: AppView<S, D, W>,
    e: AppEvent,
    fresh: TabView<S, D, W>,
)
    requires
        app.wf(),
    ensures
        app.after_app_event(e, fresh).wf(),
        e == AppEvent::CloseTab ==> app.after_app_event(e, fresh).tabs.len() >= 1,
        e == AppEvent::CreateTab ==> app.after_app_event(e, fresh).tabs.len() == app.tabs.len() + 1,
        e == AppEvent::Quit ==> !app.after_app_event(e, fresh).running,
{
    if e == AppEvent::NextTab {
        assert((app.active_tab as int + 1) % (app.tabs.len() as int) < app.tabs.len()) by (nonlinear_arith)
            requires
                app.tabs.len() >= 1,
        ;
    }
}

} // verus!
