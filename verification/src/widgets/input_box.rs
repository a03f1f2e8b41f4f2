//! Input box widget: a line of text with a cursor, edited key by key, with
//! copy and paste through the system clipboard.
//!
//! The cursor is a byte offset into the UTF-8 text, as `String` indices are:
//! it moves one byte per arrow key, and edits at an offset that falls inside a
//! character are not accepted (see `accepts_event`). The clipboard is an outside service: the
//! caller reads it before a key press (see [`ClipboardExchange`]) and writes
//! back what the widget copied.
use vstd::prelude::*;
use crate::event_managment::event::{
    InputBoxEvent, InputBoxEventView, InputBoxType, KeyCode, KeyEvent, WidgetAction,
    WidgetActionView, action_view,
};
use crate::text::{chars_of, opt_text, string_from_chars};
use crate::utf8::{
    at_boundary, byte_count, byte_len, bytes_exceed, char_index, char_index_at, char_utf8_len,
    lemma_byte_len_concat, lemma_byte_len_single, lemma_byte_len_take_le, lemma_char_index_unique,
    utf8_len,
};

verus! {

/// The clipboard as seen by one key press: what a paste would insert (read by
/// the caller before the key is handled, `None` where the clipboard cannot be
/// read) and what a copy put there (written by the caller afterwards).
pub struct ClipboardExchange {
    pub paste_text: Option<String>,
    pub copy_text: Option<String>,
}

impl ClipboardExchange {
    /// No clipboard contents available, nothing copied.
    pub fn empty() -> (c: ClipboardExchange)
        ensures
            c.paste_text is None,
            c.copy_text is None,
    {
        ClipboardExchange { paste_text: None, copy_text: None }
    }

    pub open spec fn paste_view(self) -> Option<Seq<char>> {
        opt_text(self.paste_text)
    }

    pub open spec fn copy_view(self) -> Option<Seq<char>> {
        opt_text(self.copy_text)
    }
}

/// Widget for text input with cursor positioning and clipboard integration
pub struct InputBoxWidget {
    input_type: InputBoxType,
    content: Vec<char>,
    cursor_position: usize,
    active: bool,
    visible: bool,
    title: String,
}

/// The state of an input box.
pub struct InputBoxView {
    pub input_type: InputBoxType,
    pub content: Seq<char>,
    /// The cursor, in bytes of the UTF-8 text.
    pub cursor: nat,
    pub active: bool,
    pub visible: bool,
    pub title: Seq<char>,
}

/// `s` with `t` inserted before index `i`.
pub open spec fn insert_text(s: Seq<char>, i: int, t: Seq<char>) -> Seq<char> {
    s.subrange(0, i) + t + s.subrange(i, s.len() as int)
}

/// The largest text a `String` can hold, in bytes.
pub open spec fn max_text_bytes() -> nat {
    isize::MAX as nat
}

proof fn lemma_insert_bytes(s: Seq<char>, k: int, t: Seq<char>)
    requires
        0 <= k <= s.len(),
    ensures
        byte_len(insert_text(s, k, t)) == byte_len(s) + byte_len(t),
        insert_text(s, k, t).take(k) == s.take(k),
        insert_text(s, k, t).take(k + t.len()) == s.take(k) + t,
{
    lemma_byte_len_concat(s.subrange(0, k) + t, s.subrange(k, s.len() as int));
    lemma_byte_len_concat(s.subrange(0, k), t);
    lemma_byte_len_concat(s.subrange(0, k), s.subrange(k, s.len() as int));
    assert(s.subrange(0, k) + s.subrange(k, s.len() as int) =~= s);
    assert(insert_text(s, k, t).take(k) =~= s.take(k));
    assert(insert_text(s, k, t).take(k + t.len()) =~= s.take(k) + t);
}

proof fn lemma_remove_bytes(s: Seq<char>, k: int)
    requires
        0 <= k < s.len(),
    ensures
        byte_len(s.remove(k)) + utf8_len(s[k]) == byte_len(s),
        byte_len(s.take(k)) <= byte_len(s.remove(k)),
        s.remove(k).take(k) == s.take(k),
{
    let a = s.take(k);
    let b = s.subrange(k + 1, s.len() as int);
    assert(s.remove(k) =~= a + b);
    assert(s =~= a + seq![s[k]] + b);
    lemma_byte_len_concat(a, b);
    lemma_byte_len_concat(a + seq![s[k]], b);
    lemma_byte_len_concat(a, seq![s[k]]);
    lemma_byte_len_single(s[k]);
    assert(s.remove(k).take(k) =~= s.take(k));
}

impl InputBoxView {
    /// The cursor lies within the text, and the text fits in a `String`.
    pub open spec fn wf(self) -> bool {
        self.cursor <= byte_len(self.content) && byte_len(self.content) <= max_text_bytes()
    }

    /// The cursor is where a character starts (or at the end of the text).
    pub open spec fn cursor_at_char(self) -> bool {
        at_boundary(self.content, self.cursor as int)
    }

    /// The index of the character at the cursor.
    pub open spec fn cursor_char(self) -> int {
        char_index(self.content, self.cursor as int)
    }

    /// `t` can be pasted: the cursor is at a character and the text still fits.
    pub open spec fn can_paste(self, t: Seq<char>) -> bool {
        self.cursor_at_char() && byte_len(self.content) + byte_len(t) <= max_text_bytes()
    }

    /// The state after pasting `t` at the cursor.
    pub open spec fn pasted(self, t: Seq<char>) -> InputBoxView {
        InputBoxView {
            content: insert_text(self.content, self.cursor_char(), t),
            cursor: self.cursor + byte_len(t),
            ..self
        }
    }

    /// The box can take the key: a paste needs room at the cursor.
    pub open spec fn accepts_key(self, key: KeyEvent, paste: Option<Seq<char>>) -> bool {
        key.code == KeyCode::Char('v') && key.modifiers.spec_control_only() ==> match paste {
            Some(t) => self.can_paste(t),
            None => true,
        }
    }

    /// The box can take the event: an edit at the cursor needs the cursor (or,
    /// for Backspace, the byte before it) at the start of a character, and
    /// typing needs room for the character.
    pub open spec fn accepts_event(self, e: InputBoxEventView) -> bool {
        match e {
            InputBoxEventView::KeyPress(k) => match k.code {
                KeyCode::Char(c) => self.cursor_at_char() && byte_len(self.content) + utf8_len(c)
                    <= max_text_bytes(),
                _ => true,
            },
            InputBoxEventView::Backspace => self.cursor > 0 ==> at_boundary(
                self.content,
                self.cursor - 1,
            ),
            InputBoxEventView::Delete => self.cursor < byte_len(self.content) ==> self.cursor_at_char(),
            _ => true,
        }
    }

    /// The box can take the widget action.
    pub open spec fn accepts_action(self, a: WidgetActionView) -> bool {
        match a {
            WidgetActionView::InputBoxEvent(e, _) => self.accepts_event(e),
            _ => true,
        }
    }

    /// The box can be shown: while active, the cursor bar goes at a character.
    pub open spec fn displayable(self) -> bool {
        self.active ==> self.cursor_at_char()
    }

    /// The state after a key press, given what the clipboard holds.
    pub open spec fn after_key(self, key: KeyEvent, paste: Option<Seq<char>>) -> InputBoxView {
        if key.code == KeyCode::Char('v') && key.modifiers.spec_control_only() {
            match paste {
                Some(t) => self.pasted(t),
                None => self,
            }
        } else {
            self
        }
    }

    /// The action a key press produces, given what the clipboard holds.
    pub open spec fn key_action(self, key: KeyEvent, paste: Option<Seq<char>>) -> Option<
        WidgetActionView,
    > {
        let written = Some(
            WidgetActionView::InputBoxEvent(
                InputBoxEventView::Written(self.after_key(key, paste).content),
                self.input_type,
            ),
        );
        let plain = |e: InputBoxEventView| Some(WidgetActionView::InputBoxEvent(e, self.input_type));
        match key.code {
            KeyCode::Char(c) => if (c == 'v' || c == 'c') && key.modifiers.spec_control_only() {
                written
            } else {
                plain(InputBoxEventView::KeyPress(key))
            },
            KeyCode::Backspace => plain(InputBoxEventView::Backspace),
            KeyCode::Delete => plain(InputBoxEventView::Delete),
            KeyCode::Left => plain(InputBoxEventView::Left),
            KeyCode::Right => plain(InputBoxEventView::Right),
            KeyCode::Enter => plain(InputBoxEventView::Enter),
            _ => None,
        }
    }

    /// What a key press puts on the clipboard, if anything.
    pub open spec fn key_copy(self, key: KeyEvent) -> Option<Seq<char>> {
        if key.code == KeyCode::Char('c') && key.modifiers.spec_control_only() {
            Some(self.content)
        } else {
            None
        }
    }

    /// The state after an input-box event: a typed character goes in at the
    /// cursor, which moves one byte on; Backspace removes the character that
    /// starts one byte before the cursor; Delete the one at the cursor; the
    /// arrows move the cursor by one byte.
    pub open spec fn after_event(self, e: InputBoxEventView) -> InputBoxView {
        match e {
            InputBoxEventView::KeyPress(k) => match k.code {
                KeyCode::Char(c) => InputBoxView {
                    content: insert_text(self.content, self.cursor_char(), seq![c]),
                    cursor: self.cursor + 1,
                    ..self
                },
                _ => self,
            },
            InputBoxEventView::Backspace => if self.cursor > 0 {
                InputBoxView {
                    content: self.content.remove(char_index(self.content, self.cursor - 1)),
                    cursor: (self.cursor - 1) as nat,
                    ..self
                }
            } else {
                self
            },
            InputBoxEventView::Delete => if self.cursor < byte_len(self.content) {
                InputBoxView { content: self.content.remove(self.cursor_char()), ..self }
            } else {
                self
            },
            InputBoxEventView::Left => if self.cursor > 0 {
                InputBoxView { cursor: (self.cursor - 1) as nat, ..self }
            } else {
                self
            },
            InputBoxEventView::Right => if self.cursor < byte_len(self.content) {
                InputBoxView { cursor: self.cursor + 1, ..self }
            } else {
                self
            },
            _ => self,
        }
    }

    /// The action an input-box event produces: Enter submits the text.
    pub open spec fn event_action(self, e: InputBoxEventView) -> Option<WidgetActionView> {
        match e {
            InputBoxEventView::Enter => Some(
                WidgetActionView::InputBoxEvent(
                    InputBoxEventView::Written(self.content),
                    self.input_type,
                ),
            ),
            _ => None,
        }
    }

    /// The state after a widget action addressed to this box.
    pub open spec fn after_action(self, a: WidgetActionView) -> InputBoxView {
        match a {
            WidgetActionView::InputBoxEvent(e, _) => self.after_event(e),
            _ => self,
        }
    }

    /// The action produced by a widget action addressed to this box.
    pub open spec fn action_result(self, a: WidgetActionView) -> Option<WidgetActionView> {
        match a {
            WidgetActionView::InputBoxEvent(e, _) => self.event_action(e),
            _ => None,
        }
    }

    /// The text shown: the content, with a bar at the cursor while active.
    pub open spec fn display_text(self) -> Seq<char> {
        if self.active {
            insert_text(self.content, self.cursor_char(), seq!['|'])
        } else {
            self.content
        }
    }

    /// The submitted text, if any.
    pub open spec fn content_option(self) -> Option<Seq<char>> {
        if self.content.len() == 0 {
            None
        } else {
            Some(self.content)
        }
    }
}

/// `v` with `t` inserted before index `i`.
fn insert_chars(v: &mut Vec<char>, i: usize, t: &[char])
    requires
        i <= old(v)@.len(),
    ensures
        final(v)@ == insert_text(old(v)@, i as int, t@),
{
    let mut k: usize = 0;
    while k < t.len()
        invariant
            i <= old(v)@.len(),
            k <= t@.len(),
            v@ == insert_text(old(v)@, i as int, t@.subrange(0, k as int)),
        decreases t@.len() - k,
    {
        let vlen = v.len();
        assert(i + k <= vlen);
        v.insert(i + k, t[k]);
        k = k + 1;
        assert(v@ =~= insert_text(old(v)@, i as int, t@.subrange(0, k as int)));
    }
    assert(t@.subrange(0, t@.len() as int) =~= t@);
}

impl View for InputBoxWidget {
    type V = InputBoxView;

    closed spec fn view(&self) -> InputBoxView {
        InputBoxView {
            input_type: self.input_type,
            content: self.content@,
            cursor: self.cursor_position as nat,
            active: self.active,
            visible: self.visible,
            title: self.title@,
        }
    }
}

impl InputBoxWidget {
    #[verifier::type_invariant]
    spec fn cursor_in_text(self) -> bool {
        self.cursor_position <= byte_len(self.content@) && byte_len(self.content@) <= max_text_bytes()
    }

    /// Creates a new input box with the specified title and active state
    pub fn new(input_type: InputBoxType, title: &str, active: bool) -> (w: InputBoxWidget)
        ensures
            w@ == (InputBoxView {
                input_type,
                content: Seq::empty(),
                cursor: 0,
                active,
                visible: true,
                title: title@,
            }),
            w@.wf(),
    {
        InputBoxWidget {
            input_type,
            content: Vec::new(),
            cursor_position: 0,
            active,
            visible: true,
            title: title.to_string(),
        }
    }

    /// Whether `t` can be pasted at the cursor.
    pub fn can_paste(&self, text: &str) -> (b: bool)
        ensures
            b == self@.can_paste(text@),
    {
        proof {
            use_type_invariant(self);
        }
        let t = chars_of(text);
        if char_index_at(&self.content, self.cursor_position).is_none() {
            return false;
        }
        let limit = isize::MAX as usize;
        if bytes_exceed(&t, limit) {
            return false;
        }
        let tb = byte_count(&t);
        !bytes_exceed(&self.content, limit - tb)
    }

    /// Inserts text at the cursor and moves the cursor past it.
    pub fn paste(&mut self, text: &str)
        requires
            old(self)@.can_paste(text@),
        ensures
            final(self)@ == old(self)@.pasted(text@),
            final(self)@.wf(),
    {
        proof {
            use_type_invariant(&*self);
        }
        let t = chars_of(text);
        let k = match char_index_at(&self.content, self.cursor_position) {
            Some(k) => k,
            None => {
                return;
            },
        };
        let tb = byte_count(&t);
        let mut content = self.content.clone();
        assert(content@ =~= self.content@);
        proof {
            lemma_insert_bytes(self.content@, k as int, t@);
        }
        insert_chars(&mut content, k, t.as_slice());
        self.content = content;
        self.cursor_position = self.cursor_position + tb;
    }

    /// Handles a key press and returns the widget action it produces.
    ///
    /// Ctrl+V pastes what `clipboard.paste_text` holds; Ctrl+C puts the text
    /// into `clipboard.copy_text`.
    pub fn handle_input(&mut self, key_event: KeyEvent, clipboard: &mut ClipboardExchange) -> (r:
        Option<WidgetAction>)
        requires
            old(self)@.accepts_key(key_event, old(clipboard).paste_view()),
        ensures
            final(self)@ == old(self)@.after_key(key_event, old(clipboard).paste_view()),
            action_view(r) == old(self)@.key_action(
                key_event,
                old(clipboard).paste_view(),
            ),
            final(clipboard).paste_text == old(clipboard).paste_text,
            final(clipboard).copy_view() == match old(self)@.key_copy(key_event) {
                Some(t) => Some(t),
                None => old(clipboard).copy_view(),
            },
            final(self)@.wf(),
    {
        proof {
            use_type_invariant(&*self);
        }
        let control_only = key_event.modifiers.is_control_only();
        match key_event.code {
            KeyCode::Char(c) => {
                if c == 'v' && control_only {
                    match &clipboard.paste_text {
                        Some(t) => self.paste(t.as_str()),
                        None => {},
                    }
                    Some(WidgetAction::InputBoxEvent(InputBoxEvent::Written(self.text()), self.input_type))
                } else if c == 'c' && control_only {
                    clipboard.copy_text = Some(self.text());
                    Some(WidgetAction::InputBoxEvent(InputBoxEvent::Written(self.text()), self.input_type))
                } else {
                    Some(WidgetAction::InputBoxEvent(InputBoxEvent::KeyPress(key_event), self.input_type))
                }
            },
            KeyCode::Backspace => Some(WidgetAction::InputBoxEvent(InputBoxEvent::Backspace, self.input_type)),
            KeyCode::Delete => Some(WidgetAction::InputBoxEvent(InputBoxEvent::Delete, self.input_type)),
            KeyCode::Left => Some(WidgetAction::InputBoxEvent(InputBoxEvent::Left, self.input_type)),
            KeyCode::Right => Some(WidgetAction::InputBoxEvent(InputBoxEvent::Right, self.input_type)),
            KeyCode::Enter => Some(WidgetAction::InputBoxEvent(InputBoxEvent::Enter, self.input_type)),
            _ => None,
        }
    }

    /// Whether the box can take the key, given the clipboard.
    pub fn accepts_key(&self, key_event: KeyEvent, clipboard: &ClipboardExchange) -> (b: bool)
        ensures
            b == self@.accepts_key(key_event, clipboard.paste_view()),
    {
        if key_event.code == KeyCode::Char('v') && key_event.modifiers.is_control_only() {
            match &clipboard.paste_text {
                Some(t) => self.can_paste(t.as_str()),
                None => true,
            }
        } else {
            true
        }
    }

    /// Whether the box can take the widget action.
    pub fn accepts_action(&self, event: &WidgetAction) -> (b: bool)
        ensures
            b == self@.accepts_action(event@),
    {
        proof {
            use_type_invariant(self);
        }
        match event {
            WidgetAction::InputBoxEvent(input_event, _) => match input_event {
                InputBoxEvent::KeyPress(key_event) => match key_event.code {
                    KeyCode::Char(c) => {
                        let u = char_utf8_len(c);
                        char_index_at(&self.content, self.cursor_position).is_some()
                            && !bytes_exceed(&self.content, isize::MAX as usize - u)
                    },
                    _ => true,
                },
                InputBoxEvent::Backspace => {
                    if self.cursor_position > 0 {
                        char_index_at(&self.content, self.cursor_position - 1).is_some()
                    } else {
                        true
                    }
                },
                InputBoxEvent::Delete => {
                    if bytes_exceed(&self.content, self.cursor_position) {
                        char_index_at(&self.content, self.cursor_position).is_some()
                    } else {
                        true
                    }
                },
                _ => true,
            },
            _ => true,
        }
    }

    /// Types a character at the cursor.
    fn type_char(&mut self, c: char)
        requires
            old(self)@.cursor_at_char(),
            byte_len(old(self)@.content) + utf8_len(c) <= max_text_bytes(),
        ensures
            final(self)@ == (InputBoxView {
                content: insert_text(old(self)@.content, old(self)@.cursor_char(), seq![c]),
                cursor: old(self)@.cursor + 1,
                ..old(self)@
            }),
    {
        proof {
            use_type_invariant(&*self);
        }
        if let Some(k) = char_index_at(&self.content, self.cursor_position) {
            let mut content = self.content.clone();
            assert(content@ =~= self.content@);
            proof {
                lemma_insert_bytes(self.content@, k as int, seq![c]);
                lemma_byte_len_single(c);
            }
            content.insert(k, c);
            assert(content@ =~= insert_text(self.content@, k as int, seq![c]));
            let cursor = self.cursor_position + 1;
            self.cursor_position = 0;
            self.content = content;
            self.cursor_position = cursor;
        }
    }

    /// Removes the character that starts at byte `at`, leaving the cursor there.
    fn remove_char_at(&mut self, at: usize)
        requires
            at < byte_len(old(self)@.content),
            at_boundary(old(self)@.content, at as int),
        ensures
            final(self)@ == (InputBoxView {
                content: old(self)@.content.remove(char_index(old(self)@.content, at as int)),
                cursor: at as nat,
                ..old(self)@
            }),
    {
        proof {
            use_type_invariant(&*self);
        }
        if let Some(k) = char_index_at(&self.content, at) {
            proof {
                assert(self.content@.take(self.content@.len() as int) =~= self.content@);
                if k == self.content@.len() {
                    assert(false);
                }
                lemma_remove_bytes(self.content@, k as int);
            }
            let mut content = self.content.clone();
            assert(content@ =~= self.content@);
            content.remove(k);
            self.cursor_position = at;
            self.content = content;
        }
    }

    /// Applies an input-box event to the text and cursor; Enter submits the text.
    pub fn process_event(&mut self, event: WidgetAction) -> (r: Option<WidgetAction>)
        requires
            old(self)@.accepts_action(event@),
        ensures
            final(self)@ == old(self)@.after_action(event@),
            action_view(r) == old(self)@.action_result(event@),
            final(self)@.wf(),
    {
        proof {
            use_type_invariant(&*self);
        }
        let r = match event {
            WidgetAction::InputBoxEvent(input_event, _) => match input_event {
                InputBoxEvent::KeyPress(key_event) => {
                    if let KeyCode::Char(c) = key_event.code {
                        self.type_char(c);
                    }
                    None
                },
                InputBoxEvent::Backspace => {
                    if self.cursor_position > 0 {
                        let at = self.cursor_position - 1;
                        self.remove_char_at(at);
                    }
                    None
                },
                InputBoxEvent::Delete => {
                    if bytes_exceed(&self.content, self.cursor_position) {
                        let at = self.cursor_position;
                        self.remove_char_at(at);
                    }
                    None
                },
                InputBoxEvent::Left => {
                    if self.cursor_position > 0 {
                        self.cursor_position = self.cursor_position - 1;
                    }
                    None
                },
                InputBoxEvent::Right => {
                    if bytes_exceed(&self.content, self.cursor_position) {
                        self.cursor_position = self.cursor_position + 1;
                    }
                    None
                },
                InputBoxEvent::Enter => Some(
                    WidgetAction::InputBoxEvent(InputBoxEvent::Written(self.text()), self.input_type),
                ),
                _ => None,
            },
            _ => None,
        };
        proof {
            use_type_invariant(&*self);
        }
        r
    }

    /// The whole text, empty or not.
    pub fn text(&self) -> (s: String)
        ensures
            s@ == self@.content,
    {
        string_from_chars(self.content.as_slice())
    }

    /// Returns the current text content of the input box
    pub fn get_content(&self) -> (r: Option<String>)
        ensures
            opt_text(r) == self@.content_option(),
    {
        if self.content.len() == 0 {
            None
        } else {
            Some(self.text())
        }
    }

    /// Whether the box can be shown: while active, the cursor bar goes at the
    /// start of a character.
    pub fn can_display(&self) -> (b: bool)
        ensures
            b == self@.displayable(),
    {
        if self.active {
            char_index_at(&self.content, self.cursor_position).is_some()
        } else {
            true
        }
    }

    /// The text as displayed, with a bar at the cursor while the box is active.
    pub fn display_text(&self) -> (s: String)
        requires
            self@.displayable(),
        ensures
            s@ == self@.display_text(),
    {
        if self.active {
            match char_index_at(&self.content, self.cursor_position) {
                Some(k) => {
                    let mut shown = self.content.clone();
                    shown.insert(k, '|');
                    assert(shown@ =~= insert_text(self.content@, k as int, seq!['|']));
                    string_from_chars(shown.as_slice())
                },
                None => self.text(),
            }
        } else {
            self.text()
        }
    }

    /// The title shown in the border.
    pub fn title(&self) -> (s: String)
        ensures
            s@ == self@.title,
    {
        self.title.clone()
    }

    /// Returns available keyboard shortcuts for the help toolbar
    pub fn get_help_items(&self) -> (items: Vec<(String, String)>)
        ensures
            items.deep_view() == seq![
                ("Ctrl+V"@, "Paste"@),
                ("Ctrl+C"@, "Copy"@),
                ("Enter"@, "Submit"@),
                ("Esc"@, "Close"@),
            ],
    {
        let mut items = Vec::new();
        items.push(("Ctrl+V".to_string(), "Paste".to_string()));
        items.push(("Ctrl+C".to_string(), "Copy".to_string()));
        items.push(("Enter".to_string(), "Submit".to_string()));
        items.push(("Esc".to_string(), "Close".to_string()));
        assert(items.deep_view() =~= seq![
            ("Ctrl+V"@, "Paste"@),
            ("Ctrl+C"@, "Copy"@),
            ("Enter"@, "Submit"@),
            ("Esc"@, "Close"@),
        ]);
        items
    }

    pub fn is_visible(&self) -> (b: bool)
        ensures
            b == self@.visible,
    {
        self.visible
    }

    pub fn is_active(&self) -> (b: bool)
        ensures
            b == self@.active,
    {
        self.active
    }

    /// Sets whether the widget is active (has focus)
    pub fn set_active(&mut self, active: bool)
        ensures
            final(self)@ == (InputBoxView { active, ..old(self)@ }),
    {
        proof {
            use_type_invariant(&*self);
        }
        self.active = active;
    }

    /// Removes focus from the widget
    pub fn set_inactive(&mut self)
        ensures
            final(self)@ == (InputBoxView { active: false, ..old(self)@ }),
    {
        proof {
            use_type_invariant(&*self);
        }
        self.active = false;
    }

    /// Controls visibility of the widget
    pub fn set_visible(&mut self, visible: bool)
        ensures
            final(self)@ == (InputBoxView { visible, ..old(self)@ }),
    {
        proof {
            use_type_invariant(&*self);
        }
        self.visible = visible;
    }

    /// Updates the widget's title
    pub fn set_title(&mut self, title: String)
        ensures
            final(self)@ == (InputBoxView { title: title@, ..old(self)@ }),
    {
        proof {
            use_type_invariant(&*self);
        }
        self.title = title;
    }
}

/// Typing a character and then deleting back over it leaves the box as it was.
pub proof fn lemma_type_then_backspace(v: InputBoxView, key: KeyEvent, c: char)
    requires
        v.wf(),
        key.code == KeyCode::Char(c),
        v.accepts_event(InputBoxEventView::KeyPress(key)),
    ensures
        v.after_event(InputBoxEventView::KeyPress(key)).accepts_event(InputBoxEventView::Backspace),
        v.after_event(InputBoxEventView::KeyPress(key)).after_event(InputBoxEventView::Backspace) == v,
{
    let k = v.cursor_char();
    let typed = v.after_event(InputBoxEventView::KeyPress(key));
    lemma_insert_bytes(v.content, k, seq![c]);
    assert(byte_len(typed.content.take(k)) == v.cursor);
    lemma_char_index_unique(typed.content, k);
    assert(typed.content.remove(k) =~= v.content);
}

/// Moving the cursor left and then right (or right and then left) comes back
/// to the same place, unless the first move hit the end of the text.
pub proof fn lemma_left_right_inverse(v: InputBoxView)
    requires
        v.wf(),
    ensures
        v.cursor > 0 ==> v.after_event(InputBoxEventView::Left).after_event(InputBoxEventView::Right) == v,
        v.cursor < byte_len(v.content) ==> v.after_event(InputBoxEventView::Right).after_event(
            InputBoxEventView::Left,
        ) == v,
{
}

/// Every event the box accepts, and every paste that fits, keeps the cursor
/// within the text and the text within a `String`.
pub proof fn lemma_cursor_in_text(v: InputBoxView, e: InputBoxEventView, t: Seq<char>)
    requires
        v.wf(),
    ensures
        v.accepts_event(e) ==> v.after_event(e).wf(),
        v.can_paste(t) ==> v.pasted(t).wf(),
{
    if v.cursor_at_char() {
        lemma_insert_bytes(v.content, v.cursor_char(), t);
        lemma_insert_bytes(v.content, v.cursor_char(), seq![' ']);
    }
    assert(v.content.take(v.content.len() as int) =~= v.content);
    match e {
        InputBoxEventView::KeyPress(k) => {
            if let KeyCode::Char(c) = k.code {
                if v.accepts_event(e) {
                    lemma_insert_bytes(v.content, v.cursor_char(), seq![c]);
                    lemma_byte_len_single(c);
                }
            }
        },
        InputBoxEventView::Backspace => {
            if v.accepts_event(e) && v.cursor > 0 {
                let k = char_index(v.content, v.cursor - 1);
                if k < v.content.len() {
                    lemma_remove_bytes(v.content, k);
                }
            }
        },
        InputBoxEventView::Delete => {
            if v.accepts_event(e) && v.cursor < byte_len(v.content) {
                let k = v.cursor_char();
                if k < v.content.len() {
                    lemma_remove_bytes(v.content, k);
                }
            }
        },
        _ => {},
    }
}

} // verus!
