//! The input line of the interactive client.
//!
//! Keys are collected into a line until it is submitted. The editor decides
//! what each key means; drawing on the terminal and sending the line are done
//! by its owner.

use crate::text::{blank, is_blank};
use vstd::prelude::*;
use vstd::string::*;

verus! {

/// The part of a key that the editor looks at.
#[derive(Clone, Copy, Debug, PartialEq, Eq)]
pub enum KeyCode {
    /// A character key.
    Char(char),
    /// The backspace key.
    Backspace,
    /// The enter key.
    Enter,
    /// Any other key.
    Other,
}

/// One key event, reduced to what the editor reads from it.
#[derive(Clone, Copy, Debug, PartialEq, Eq)]
pub struct KeyPress {
    /// Which key it is.
    pub code: KeyCode,
    /// Whether the control key, and no other modifier, was held.
    pub control: bool,
    /// Whether the key went down. A key that repeats or goes up is reported
    /// too, and is ignored.
    pub pressed: bool,
}

/// What the owner of the editor is to do after a key.
#[derive(Debug, PartialEq, Eq)]
pub enum Edit {
    /// Nothing.
    Nothing,
    /// Leave the client.
    Quit,
    /// Show this character, which was added to the line.
    Echo(char),
    /// Wipe the last character from the screen; it was removed from the line.
    Erase,
    /// Clear the input line on the screen and send this message, which is the
    /// line that was typed and a newline.
    Submit(String),
}

/// [`Edit`] with the message as plain text.
pub enum EditView {
    /// Nothing.
    Nothing,
    /// Leave the client.
    Quit,
    /// Show this character.
    Echo(char),
    /// Wipe the last character.
    Erase,
    /// Send this message.
    Submit(Seq<char>),
}

impl View for Edit {
    type V = EditView;

    open spec fn view(&self) -> EditView {
        match self {
            Edit::Nothing => EditView::Nothing,
            Edit::Quit => EditView::Quit,
            Edit::Echo(c) => EditView::Echo(*c),
            Edit::Erase => EditView::Erase,
            Edit::Submit(message) => EditView::Submit(message@),
        }
    }
}

/// Whether `key` asks to leave: control and `c`.
pub open spec fn is_interrupt(key: KeyPress) -> bool {
    key.pressed && key.control && key.code == KeyCode::Char('c')
}

/// What `key` makes of the line `typed`.
pub open spec fn line_after(typed: Seq<char>, key: KeyPress) -> Seq<char> {
    if !key.pressed || is_interrupt(key) {
        typed
    } else {
        match key.code {
            KeyCode::Char(c) => typed.push(c),
            KeyCode::Backspace => if typed.len() > 0 {
                typed.drop_last()
            } else {
                typed
            },
            KeyCode::Enter => if blank(typed) {
                typed
            } else {
                Seq::empty()
            },
            KeyCode::Other => typed,
        }
    }
}

/// What is to be done when `key` arrives while the line is `typed`.
pub open spec fn edit_for(typed: Seq<char>, key: KeyPress) -> EditView {
    if !key.pressed {
        EditView::Nothing
    } else if is_interrupt(key) {
        EditView::Quit
    } else {
        match key.code {
            KeyCode::Char(c) => EditView::Echo(c),
            KeyCode::Backspace => if typed.len() > 0 {
                EditView::Erase
            } else {
                EditView::Nothing
            },
            KeyCode::Enter => if blank(typed) {
                EditView::Nothing
            } else {
                EditView::Submit(typed.push('\n'))
            },
            KeyCode::Other => EditView::Nothing,
        }
    }
}

/// `String::push`: the character is appended to the text.
#[verifier::external_body]
fn push_char(text: &mut String, c: char)
    ensures
        final(text)@ == old(text)@.push(c),
{
    text.push(c)
}

/// The characters as one text.
fn text_of(chars: &Vec<char>) -> (text: String)
    ensures
        text@ == chars@,
{
    let mut text = String::new();
    let mut i: usize = 0;
    while i < chars.len()
        invariant
            i <= chars.len(),
            text@ == chars@.take(i as int),
        decreases chars.len() - i,
    {
        push_char(&mut text, chars[i]);
        i = i + 1;
    }
    text
}

/// The line that is being typed.
pub struct LineEditor {
    typed: Vec<char>,
}

impl View for LineEditor {
    type V = Seq<char>;

    closed spec fn view(&self) -> Seq<char> {
        self.typed@
    }
}

impl LineEditor {
    /// An editor with an empty line.
    pub fn new() -> (editor: LineEditor)
        ensures
            editor@ == Seq::<char>::empty(),
    {
        LineEditor { typed: Vec::new() }
    }

    /// The line as typed so far.
    pub fn typed(&self) -> (text: String)
        ensures
            text@ == self@,
    {
        text_of(&self.typed)
    }

    /// Takes a key and returns what is to be done about it.
    ///
    /// A character is added to the line and echoed. Backspace removes the
    /// last character, if there is one. Enter submits the line with a newline
    /// added and empties it; a blank line is not submitted and stays as it
    /// is. Control and `c` asks to leave. Anything else is ignored, and so is
    /// every key that is not going down.
    pub fn on_key(&mut self, key: KeyPress) -> (edit: Edit)
        ensures
            final(self)@ == line_after(old(self)@, key),
            edit@ == edit_for(old(self)@, key),
    {
        if !key.pressed {
            return Edit::Nothing;
        }
        match key.code {
            KeyCode::Char(c) => {
                if key.control && c == 'c' {
                    Edit::Quit
                } else {
                    self.typed.push(c);
                    Edit::Echo(c)
                }
            },
            KeyCode::Backspace => {
                if self.typed.len() > 0 {
                    self.typed.pop();
                    Edit::Erase
                } else {
                    Edit::Nothing
                }
            },
            KeyCode::Enter => {
                let mut message = text_of(&self.typed);
                if is_blank(message.as_str()) {
                    Edit::Nothing
                } else {
                    proof {
                        reveal_strlit("\n");
                    }
                    message.append("\n");
                    assert(message@ =~= old(self)@.push('\n'));
                    self.typed.clear();
                    Edit::Submit(message)
                }
            },
            KeyCode::Other => Edit::Nothing,
        }
    }
}

} // verus!
