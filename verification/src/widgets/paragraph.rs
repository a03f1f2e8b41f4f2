//! Paragraph widget: a block of text with a counter moved by the arrow keys.
use vstd::prelude::*;
use crate::event_managment::event::{KeyCode, KeyEvent};
pub use crate::event_managment::event::ParagraphEvent;
use crate::text::{join3, string_from_chars};

verus! {

/// The decimal digits of a number, most significant first.
pub open spec fn decimal_text(n: nat) -> Seq<char>
    decreases n,
{
    if n < 10 {
        seq![digit_char(n)]
    } else {
        decimal_text(n / 10) + seq![digit_char(n % 10)]
    }
}

pub open spec fn digit_char(d: nat) -> char {
    if d == 0 { '0' }
    else if d == 1 { '1' }
    else if d == 2 { '2' }
    else if d == 3 { '3' }
    else if d == 4 { '4' }
    else if d == 5 { '5' }
    else if d == 6 { '6' }
    else if d == 7 { '7' }
    else if d == 8 { '8' }
    else { '9' }
}

fn digit(d: u64) -> (c: char)
    requires
        d < 10,
    ensures
        c == digit_char(d as nat),
{
    if d == 0 { '0' }
    else if d == 1 { '1' }
    else if d == 2 { '2' }
    else if d == 3 { '3' }
    else if d == 4 { '4' }
    else if d == 5 { '5' }
    else if d == 6 { '6' }
    else if d == 7 { '7' }
    else if d == 8 { '8' }
    else { '9' }
}

/// The decimal form of a number.
pub fn decimal(n: u64) -> (s: String)
    ensures
        s@ == decimal_text(n as nat),
{
    let mut digits: Vec<char> = Vec::new();
    let mut rest: u64 = n;
    digits.push(digit(rest % 10));
    rest = rest / 10;
    while rest > 0
        invariant
            decimal_text(n as nat) == decimal_text(rest as nat) + digits@.reverse() || (rest == 0
                && decimal_text(n as nat) == digits@.reverse()),
            rest == 0 ==> decimal_text(n as nat) == digits@.reverse(),
        decreases rest,
    {
        let ghost old_digits = digits@;
        let d = rest % 10;
        digits.push(digit(d));
        assert(digits@.reverse() =~= seq![digit_char(d as nat)] + old_digits.reverse());
        rest = rest / 10;
    }
    let mut out: Vec<char> = Vec::new();
    let mut i: usize = digits.len();
    while i > 0
        invariant
            i <= digits@.len(),
            out@ == digits@.reverse().subrange(0, digits@.len() - i),
        decreases i,
    {
        i = i - 1;
        out.push(digits[i]);
        assert(out@ =~= digits@.reverse().subrange(0, digits@.len() - i));
    }
    assert(out@ =~= digits@.reverse());
    string_from_chars(out.as_slice())
}

pub struct ParagraphWidget {
    pub text: String,
    pub selected_profile_index: usize,
    count: usize,
    active: bool,
    visible: bool,
}

pub struct ParagraphView {
    pub text: Seq<char>,
    pub selected_profile_index: nat,
    pub count: nat,
    pub active: bool,
    pub visible: bool,
}

impl View for ParagraphWidget {
    type V = ParagraphView;

    closed spec fn view(&self) -> ParagraphView {
        ParagraphView {
            text: self.text@,
            selected_profile_index: self.selected_profile_index as nat,
            count: self.count as nat,
            active: self.active,
            visible: self.visible,
        }
    }
}

impl ParagraphView {
    /// The counter can take the key: Up needs room to count one more.
    pub open spec fn accepts(self, key: KeyEvent) -> bool {
        key.code == KeyCode::Up ==> self.count < usize::MAX
    }

    /// The state after a key press: Up counts up, Down counts down to zero.
    pub open spec fn after_key(self, key: KeyEvent) -> ParagraphView {
        match key.code {
            KeyCode::Up => ParagraphView { count: self.count + 1, ..self },
            KeyCode::Down => if self.count > 0 {
                ParagraphView { count: (self.count - 1) as nat, ..self }
            } else {
                self
            },
            _ => self,
        }
    }

    /// The text shown: the paragraph and the counter below it.
    pub open spec fn display_text(self) -> Seq<char> {
        self.text + "\nCount: "@ + decimal_text(self.count)
    }
}

impl ParagraphWidget {
    pub fn new(text: &str, active: bool) -> (w: ParagraphWidget)
        ensures
            w@ == (ParagraphView {
                text: text@,
                selected_profile_index: 0,
                count: 0,
                active,
                visible: true,
            }),
    {
        ParagraphWidget {
            text: text.to_string(),
            selected_profile_index: 0,
            count: 0,
            active,
            visible: true,
        }
    }

    pub fn handle_input(&mut self, key_event: KeyEvent)
        requires
            old(self)@.accepts(key_event),
        ensures
            final(self)@ == old(self)@.after_key(key_event),
    {
        match key_event.code {
            KeyCode::Up => {
                self.count = self.count + 1;
            },
            KeyCode::Down => {
                if self.count > 0 {
                    self.count = self.count - 1;
                }
            },
            _ => {},
        }
    }

    /// The text shown: the paragraph and the counter below it.
    pub fn display_text(&self) -> (s: String)
        ensures
            s@ == self@.display_text(),
    {
        let number = decimal(self.count as u64);
        join3(self.text.as_str(), "\nCount: ", number.as_str())
    }

    pub fn is_visible(&self) -> (b: bool)
        ensures
            b == self@.visible,
    {
        self.visible
    }

    pub fn set_active(&mut self)
        ensures
            final(self)@ == (ParagraphView { active: true, ..old(self)@ }),
    {
        self.active = true;
    }

    pub fn set_inactive(&mut self)
        ensures
            final(self)@ == (ParagraphView { active: false, ..old(self)@ }),
    {
        self.active = false;
    }

    pub fn set_visible(&mut self, visible: bool)
        ensures
            final(self)@ == (ParagraphView { visible, ..old(self)@ }),
    {
        self.visible = visible;
    }
}

} // verus!
