//! The decisions of the terminal front end: what a key press leads to, and
//! where the input box goes. Reading keys and drawing are left to the
//! caller, which feeds each key in and carries out what comes back.

use vstd::prelude::*;

verus! {

/// What the action bound to a key asks for. `F` is the caller's type of
/// callback that takes the line typed into the input box.
pub enum Control<F> {
    /// Redraw and go on.
    Continue,
    /// Open the input box and hand the line to the callback.
    Input(F),
    /// Leave with this exit code.
    Quit(i32),
}

/// A key press.
#[derive(Clone, Copy, Debug, PartialEq, Eq, Structural)]
pub enum Key {
    Backspace,
    Left,
    Right,
    Up,
    Down,
    Home,
    End,
    PageUp,
    PageDown,
    BackTab,
    Delete,
    Insert,
    F(u8),
    Char(char),
    Alt(char),
    Ctrl(char),
    Null,
    Esc,
}

/// Where the front end is: on the main view, or in the input box with the
/// line typed so far.
pub enum Screen<F> {
    Main,
    Prompt { callback: F, input: Vec<char> },
}

/// What the caller is to do after a key or an action.
pub enum Transition<F> {
    /// Leave with this exit code.
    Exit(i32),
    /// Stay on the main view. Run the action bound to the key, if there is
    /// one, and report what it asks for with [`on_control`].
    Dispatch,
    /// Go to the main view and draw it.
    Redraw,
    /// Be in the input box with this line, and draw it.
    Prompt { callback: F, input: Vec<char> },
    /// Hand the line to the callback, then go to the main view and draw it.
    Submit { callback: F, input: Vec<char> },
}

/// The line in the input box after a key: a character is added at the end,
/// backspace takes the last one away, any other key leaves the line.
pub open spec fn edited(input: Seq<char>, key: Key) -> Seq<char> {
    match key {
        Key::Char(c) => if c == '\n' {
            input
        } else {
            input.push(c)
        },
        Key::Backspace => if input.len() > 0 {
            input.drop_last()
        } else {
            input
        },
        _ => input,
    }
}

/// Handles a key. On the main view escape leaves with code 0 and every other
/// key is dispatched to its action. In the input box escape leaves with code
/// 0, a line feed submits the line, and every other key edits the line.
pub fn on_key<F>(screen: Screen<F>, key: Key) -> (r: Transition<F>)
    ensures
        match screen {
            Screen::Main => r == (if key == Key::Esc {
                Transition::<F>::Exit(0)
            } else {
                Transition::<F>::Dispatch
            }),
            Screen::Prompt { callback, input } => match r {
                Transition::Exit(code) => key == Key::Esc && code == 0,
                Transition::Submit { callback: c, input: line } => {
                    &&& key == Key::Char('\n')
                    &&& c == callback
                    &&& line@ == input@
                },
                Transition::Prompt { callback: c, input: line } => {
                    &&& key != Key::Esc
                    &&& key != Key::Char('\n')
                    &&& c == callback
                    &&& line@ == edited(input@, key)
                },
                Transition::Dispatch => false,
                Transition::Redraw => false,
            },
        },
{
    match screen {
        Screen::Main => match key {
            Key::Esc => Transition::Exit(0),
            _ => Transition::Dispatch,
        },
        Screen::Prompt { callback, input } => match key {
            Key::Esc => Transition::Exit(0),
            Key::Char(c) => {
                if c == '\n' {
                    Transition::Submit { callback, input }
                } else {
                    let mut line = input;
                    line.push(c);
                    Transition::Prompt { callback, input: line }
                }
            },
            Key::Backspace => {
                let mut line = input;
                if line.len() > 0 {
                    line.pop();
                }
                Transition::Prompt { callback, input: line }
            },
            _ => Transition::Prompt { callback, input },
        },
    }
}

/// Handles what an action asked for: `Continue` redraws, `Input` opens the
/// input box with an empty line, `Quit` leaves with its code.
pub fn on_control<F>(control: Control<F>) -> (r: Transition<F>)
    ensures
        match control {
            Control::Continue => r == Transition::<F>::Redraw,
            Control::Input(callback) => r matches Transition::Prompt { callback: c, input }
                && c == callback && input@.len() == 0,
            Control::Quit(code) => r == Transition::<F>::Exit(code),
        },
{
    match control {
        Control::Continue => Transition::Redraw,
        Control::Input(callback) => Transition::Prompt { callback, input: Vec::new() },
        Control::Quit(code) => Transition::Exit(code),
    }
}

/// A rectangle on the terminal.
#[derive(Clone, Copy, Debug, PartialEq, Eq, Structural)]
pub struct Rect {
    pub x: u16,
    pub y: u16,
    pub width: u16,
    pub height: u16,
}

/// The smaller of two numbers.
pub open spec fn least(a: int, b: int) -> int {
    if a <= b {
        a
    } else {
        b
    }
}

/// The rectangle of at most `w` by `h` cells in the middle of `size`: it is
/// cut to `size` where that is smaller, and what is left over is split
/// evenly, the odd cell going to the right and to the bottom.
pub fn center(size: Rect, w: u16, h: u16) -> (r: Rect)
    requires
        size.x + (size.width - least(size.width as int, w as int)) / 2 <= u16::MAX,
        size.y + (size.height - least(size.height as int, h as int)) / 2 <= u16::MAX,
    ensures
        r.width == least(size.width as int, w as int),
        r.height == least(size.height as int, h as int),
        r.x == size.x + (size.width - r.width) / 2,
        r.y == size.y + (size.height - r.height) / 2,
{
    let w = if size.width < w {
        size.width
    } else {
        w
    };
    let h = if size.height < h {
        size.height
    } else {
        h
    };
    let x = size.x + ((size.width - w) / 2);
    let y = size.y + ((size.height - h) / 2);
    Rect { x, y, width: w, height: h }
}

} // verus!
