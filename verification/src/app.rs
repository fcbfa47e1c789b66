//! Application state: the two editable fields, the focus, and the cursor.

use vstd::prelude::*;

use crate::engine::compiles;
use crate::engine::lines_view;

verus! {

/// Which of the two editable fields currently receives keystrokes.
#[derive(Debug, PartialEq, Eq, Structural)]
pub enum CurrentField {
    Regex,
    Text,
}

impl CurrentField {
    /// Toggles the focus to the other field.
    pub fn next(&mut self)
        ensures
            *old(self) is Regex ==> *final(self) is Text,
            *old(self) is Text ==> *final(self) is Regex,
    {
        match self {
            Self::Regex => *self = Self::Text,
            Self::Text => *self = Self::Regex,
        }
    }

    pub fn is_text(&self) -> (r: bool)
        ensures
            r == (*self is Text),
    {
        self == &CurrentField::Text
    }

    pub fn is_regex(&self) -> (r: bool)
        ensures
            r == (*self is Regex),
    {
        self == &CurrentField::Regex
    }
}

/// A zero-based cursor position: `x` is the column, `y` the row.
#[derive(Debug, PartialEq, Eq, Structural)]
pub struct Position {
    pub x: u16,
    pub y: u16,
}

impl Default for Position {
    fn default() -> (r: Self)
        ensures
            r.x == 0 && r.y == 0,
    {
        Position { x: 0, y: 0 }
    }
}

/// Application state.
#[derive(Debug)]
pub struct App {
    /// Is the application running?
    pub running: bool,
    /// Which field keystrokes currently go to.
    pub current_input: CurrentField,
    /// The source of the last successfully compiled pattern; `None` until a
    /// pattern compiles, and kept unchanged when a later pattern fails to
    /// compile.
    pub re: Option<String>,
    /// The pattern field: the raw (uncompiled) regular-expression source.
    pub regex: String,
    /// The body: an ordered, never-empty sequence of text lines.
    pub text: Vec<String>,
    /// The rendered output panel: a compile-error message or the match
    /// report.
    pub output: String,
    /// The cursor within the focused field; for the pattern field `y` keeps
    /// the body row the cursor will return to.
    pub cursor_pos: Position,
}

/// The mathematical model of the application state: every buffer as a
/// sequence of characters.
pub ghost struct AppView {
    pub running: bool,
    pub current_input: CurrentField,
    pub re: Option<Seq<char>>,
    pub regex: Seq<char>,
    pub text: Seq<Seq<char>>,
    pub output: Seq<char>,
    pub x: u16,
    pub y: u16,
}

impl View for App {
    type V = AppView;

    open spec fn view(&self) -> AppView {
        AppView {
            running: self.running,
            current_input: self.current_input,
            re: (match self.re {
                Option::Some(s) => Option::Some(s@),
                Option::None => Option::<Seq<char>>::None,
            }),
            regex: self.regex@,
            text: lines_view(self.text@),
            output: self.output@,
            x: self.cursor_pos.x,
            y: self.cursor_pos.y,
        }
    }
}

impl AppView {
    /// The line the cursor edits: the pattern source when the pattern field
    /// is focused, the body line at the cursor's row otherwise.
    pub open spec fn focused_line(self) -> Seq<char> {
        if self.current_input is Regex {
            self.regex
        } else {
            self.text[self.y as int]
        }
    }

    /// Well-formedness: the body is never empty, the cursor is inside it,
    /// the column is within the focused line, and the retained compiled
    /// pattern really compiles.
    pub open spec fn wf(self) -> bool {
        &&& self.text.len() >= 1
        &&& (self.y as int) < self.text.len()
        &&& self.x as int <= self.focused_line().len()
        &&& (match self.re {
            Option::Some(src) => compiles(src),
            Option::None => true,
        })
    }
}

/// The state every session starts from: running, body focused, one empty
/// body line, everything else empty.
pub open spec fn init_view() -> AppView {
    AppView {
        running: true,
        current_input: CurrentField::Text,
        re: Option::None,
        regex: Seq::empty(),
        text: seq![Seq::empty()],
        output: Seq::empty(),
        x: 0,
        y: 0,
    }
}

impl Default for App {
    fn default() -> (r: Self)
        ensures
            r@ == init_view(),
            r@.wf(),
    {
        let text: Vec<String> = vec![String::new()];
        let r = App {
            running: true,
            current_input: CurrentField::Text,
            re: None,
            regex: String::new(),
            text,
            output: String::new(),
            cursor_pos: Position { x: 0, y: 0 },
        };
        proof {
            assert(r@.text =~= init_view().text);
            assert(r@ == init_view());
        }
        r
    }
}

impl App {
    /// Constructs a new instance of [`App`].
    pub fn new() -> (r: Self)
        ensures
            r@ == init_view(),
            r@.wf(),
    {
        Self::default()
    }

    /// Handles the tick event of the terminal: reserved, performs no work.
    pub fn tick(&self) {
    }

    /// Screen position of the hardware cursor, given the origin of the
    /// focused field's panel: one cell in from the border, at the cursor's
    /// column, and at the cursor's row when the body is focused.
    pub fn cursor_screen(&self, origin_x: u16, origin_y: u16) -> (p: Position)
        requires
            origin_x + self.cursor_pos.x + 1 <= u16::MAX,
            origin_y + self.cursor_pos.y + 1 <= u16::MAX,
        ensures
            p.x == origin_x + self.cursor_pos.x + 1,
            self.current_input is Regex ==> p.y == origin_y + 1,
            self.current_input is Text ==> p.y == origin_y + self.cursor_pos.y + 1,
    {
        match self.current_input {
            CurrentField::Regex => Position { x: origin_x + self.cursor_pos.x + 1, y: origin_y + 1 },
            CurrentField::Text => Position {
                x: origin_x + self.cursor_pos.x + 1,
                y: origin_y + self.cursor_pos.y + 1,
            },
        }
    }
}

} // verus!
