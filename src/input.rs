use vstd::prelude::*;
use vstd::string::StringExecFns;

verus! {

/// A key press, already normalised from the terminal's raw events.
#[derive(Clone, Copy, PartialEq, Eq, Structural, Debug)]
pub enum Key {
    Enter,
    Tab,
    ShiftTab,
    Backspace,
    Esc,
    Left,
    Right,
    Up,
    Down,
    CtrlLeft,
    CtrlRight,
    CtrlUp,
    CtrlDown,
    Ins,
    Delete,
    Home,
    End,
    PageUp,
    PageDown,
    Char(char),
    Ctrl(char),
    Alt(char),
    Unknown,
}

/// What the event source hands to the controller: a key or a periodic tick.
pub enum KeyEvent {
    Input(Key),
    Tick,
}

/// Keys that move a cursor forwards: Tab, Right and Down.
pub open spec fn is_forward_key(k: Key) -> bool {
    k is Tab || k is Right || k is Down
}

/// Keys that move a cursor backwards: Shift+Tab, Left and Up.
pub open spec fn is_backward_key(k: Key) -> bool {
    k is ShiftTab || k is Left || k is Up
}

/// The text that names a key in the notification history.
pub open spec fn key_label(k: Key) -> Seq<char> {
    match k {
        Key::Enter => "<Enter>"@,
        Key::Tab => "<Tab>"@,
        Key::ShiftTab => "<Shift+Tab>"@,
        Key::Backspace => "<Backspace>"@,
        Key::Esc => "<Esc>"@,
        Key::Left => "<Left Arrow Key>"@,
        Key::Right => "<Right Arrow Key>"@,
        Key::Up => "<Up Arrow Key>"@,
        Key::Down => "<Down Arrow Key>"@,
        Key::CtrlLeft => "<Ctrl+Left>"@,
        Key::CtrlRight => "<Ctrl+Right>"@,
        Key::CtrlUp => "<Ctrl+Up>"@,
        Key::CtrlDown => "<Ctrl+Down>"@,
        Key::Ins => "<Ins>"@,
        Key::Delete => "<Delete>"@,
        Key::Home => "<Home>"@,
        Key::End => "<End>"@,
        Key::PageUp => "<PageUp>"@,
        Key::PageDown => "<PageDown>"@,
        Key::Char(c) => seq![c],
        Key::Ctrl(c) => "<Ctrl+"@ + seq![c] + ">"@,
        Key::Alt(c) => "<Alt+"@ + seq![c] + ">"@,
        Key::Unknown => "<Unknown>"@,
    }
}

/// Relies on String::push: the character is appended at the end.
#[verifier::external_body]
fn push_char(s: &mut String, c: char)
    ensures
        final(s)@ == old(s)@.push(c),
{
    s.push(c)
}

impl Key {
    /// True for Tab, Right and Down.
    pub fn is_forward(&self) -> (r: bool)
        ensures
            r == is_forward_key(*self),
    {
        matches!(self, Key::Tab | Key::Right | Key::Down)
    }

    /// True for Shift+Tab, Left and Up.
    pub fn is_backward(&self) -> (r: bool)
        ensures
            r == is_backward_key(*self),
    {
        matches!(self, Key::ShiftTab | Key::Left | Key::Up)
    }

    /// The key's name as shown in the notification history.
    pub fn label(&self) -> (r: String)
        ensures
            r@ == key_label(*self),
    {
        match *self {
            Key::Enter => String::from_str("<Enter>"),
            Key::Tab => String::from_str("<Tab>"),
            Key::ShiftTab => String::from_str("<Shift+Tab>"),
            Key::Backspace => String::from_str("<Backspace>"),
            Key::Esc => String::from_str("<Esc>"),
            Key::Left => String::from_str("<Left Arrow Key>"),
            Key::Right => String::from_str("<Right Arrow Key>"),
            Key::Up => String::from_str("<Up Arrow Key>"),
            Key::Down => String::from_str("<Down Arrow Key>"),
            Key::CtrlLeft => String::from_str("<Ctrl+Left>"),
            Key::CtrlRight => String::from_str("<Ctrl+Right>"),
            Key::CtrlUp => String::from_str("<Ctrl+Up>"),
            Key::CtrlDown => String::from_str("<Ctrl+Down>"),
            Key::Ins => String::from_str("<Ins>"),
            Key::Delete => String::from_str("<Delete>"),
            Key::Home => String::from_str("<Home>"),
            Key::End => String::from_str("<End>"),
            Key::PageUp => String::from_str("<PageUp>"),
            Key::PageDown => String::from_str("<PageDown>"),
            Key::Char(c) => {
                let mut s = String::new();
                push_char(&mut s, c);
                assert(s@ =~= seq![c]);
                s
            },
            Key::Ctrl(c) => {
                let mut s = String::from_str("<Ctrl+");
                push_char(&mut s, c);
                s.append(">");
                s
            },
            Key::Alt(c) => {
                let mut s = String::from_str("<Alt+");
                push_char(&mut s, c);
                s.append(">");
                s
            },
            Key::Unknown => String::from_str("<Unknown>"),
        }
    }
}

} // verus!
