//! Key handling: translates discrete key events into buffer and cursor
//! mutations, and recomputes the rendered output after every edit that can
//! change the match results.

use vstd::prelude::*;
use vstd::string::*;

use crate::app::App;
use crate::app::AppView;
use crate::app::CurrentField;
use crate::app::init_view;
use crate::engine::capture_rows;
use crate::engine::captures_table;
use crate::engine::compile_outcome;
use crate::engine::compile_report;
use crate::engine::join_lines;
use crate::engine::joined_lines;
use crate::engine::lines_view;
use crate::engine::push_char;
use crate::engine::render_captures;
use crate::engine::rendered_report;

verus! {

/// A discrete key event, after the terminal's modifier handling: `ClearLine`
/// is the clear-to-start-of-line shortcut, `Other` any unrecognized key
/// (a no-op).
#[derive(Debug, PartialEq, Eq, Structural, Clone, Copy)]
pub enum KeyInput {
    Esc,
    Char(char),
    Enter,
    Tab,
    Backspace,
    Up,
    Down,
    Left,
    Right,
    ClearLine,
    Other,
}

/// A column set from a line length: columns saturate at the largest value a
/// `u16` can hold.
pub open spec fn col_of(n: nat) -> u16 {
    if n > u16::MAX as nat {
        u16::MAX
    } else {
        n as u16
    }
}

fn col_of_len(n: usize) -> (c: u16)
    ensures
        c == col_of(n as nat),
{
    if n > u16::MAX as usize {
        u16::MAX
    } else {
        n as u16
    }
}

/// Inserts a character at a character (not byte) offset of a line.
fn insert_char(line: &mut String, x: usize, c: char)
    requires
        x <= old(line)@.len(),
    ensures
        final(line)@ == old(line)@.insert(x as int, c),
{
    let n = line.as_str().unicode_len();
    let mut r = line.as_str().substring_char(0, x).to_owned();
    push_char(&mut r, c);
    r.append(line.as_str().substring_char(x, n));
    proof {
        assert(r@ =~= old(line)@.insert(x as int, c));
    }
    *line = r;
}

/// Removes the character at a character (not byte) offset of a line.
fn remove_char(line: &mut String, x: usize)
    requires
        x < old(line)@.len(),
    ensures
        final(line)@ == old(line)@.remove(x as int),
{
    let n = line.as_str().unicode_len();
    let mut r = line.as_str().substring_char(0, x).to_owned();
    r.append(line.as_str().substring_char(x + 1, n));
    proof {
        assert(r@ =~= old(line)@.remove(x as int));
    }
    *line = r;
}

/// What recomputing the rendered output does to the state. While the pattern
/// field is focused, an empty pattern clears the compiled pattern and the
/// output; a pattern that fails to compile puts the error message in the
/// output and leaves the compiled pattern unchanged; a valid pattern becomes
/// the new compiled pattern. Then, whatever the focus, the output becomes the
/// rendered report of the compiled pattern against the joined body — or stays
/// as it is when no pattern was ever compiled.
pub open spec fn recompute_spec(v: AppView) -> AppView {
    let v1 = (if v.current_input is Regex {
        if v.regex.len() == 0 {
            AppView { re: Option::None, output: Seq::empty(), ..v }
        } else {
            match compile_outcome(v.regex) {
                Option::Some(msg) => AppView { output: msg, ..v },
                Option::None => AppView { re: Option::Some(v.regex), ..v },
            }
        }
    } else {
        v
    });
    if v.current_input is Regex && v.regex.len() > 0 && compile_outcome(v.regex) is Some {
        v1
    } else {
        match v1.re {
            Option::Some(src) => AppView {
                output: rendered_report(capture_rows(src, joined_lines(v1.text))),
                ..v1
            },
            Option::None => v1,
        }
    }
}

/// Recomputes the rendered output from the pattern field and the body.
pub fn update_output(app: &mut App)
    requires
        old(app)@.wf(),
    ensures
        final(app)@ == recompute_spec(old(app)@),
        final(app)@.wf(),
{
    if app.current_input.is_regex() {
        if !app.regex.as_str().is_empty() {
            match compile_report(app.regex.as_str()) {
                Option::Some(msg) => {
                    app.output = msg;
                    return;
                },
                Option::None => {
                    app.re = Some(app.regex.clone());
                },
            }
        } else {
            app.re = None;
            app.output = String::new();
        }
    }
    match &app.re {
        Option::Some(src) => {
            let joined = join_lines(&app.text);
            let table = captures_table(src.as_str(), joined.as_str());
            let rendered = render_captures(&table);
            app.output = rendered;
        },
        Option::None => {},
    }
}

/// Clearing the focused line: the line becomes empty and the column returns
/// to 0. The output is not recomputed.
pub open spec fn clear_line_spec(v: AppView) -> AppView {
    if v.current_input is Regex {
        AppView { regex: Seq::empty(), x: 0, ..v }
    } else {
        AppView { text: v.text.update(v.y as int, Seq::empty()), x: 0, ..v }
    }
}

/// Inserting a printable character at the cursor column of the focused line;
/// the column advances by one. A cursor already at the largest column leaves
/// the state unchanged.
pub open spec fn insert_spec(v: AppView, c: char) -> AppView {
    if v.x == u16::MAX {
        v
    } else if v.current_input is Regex {
        AppView { regex: v.regex.insert(v.x as int, c), x: (v.x + 1) as u16, ..v }
    } else {
        AppView {
            text: v.text.update(v.y as int, v.text[v.y as int].insert(v.x as int, c)),
            x: (v.x + 1) as u16,
            ..v
        }
    }
}

/// Enter while the body is focused: a new empty line is pushed onto the body,
/// the row advances by one and the column returns to 0. While the pattern
/// field is focused (or the row cannot advance) the buffers are unchanged.
pub open spec fn enter_spec(v: AppView) -> AppView {
    if v.current_input is Text && v.y < u16::MAX {
        AppView { text: v.text.push(Seq::empty()), y: (v.y + 1) as u16, x: 0, ..v }
    } else {
        v
    }
}

/// Tab: the focus toggles and the column becomes the length of the newly
/// focused line; the row is preserved.
pub open spec fn toggle_spec(v: AppView) -> AppView {
    if v.current_input is Regex {
        AppView {
            current_input: CurrentField::Text,
            x: col_of(v.text[v.y as int].len()),
            ..v
        }
    } else {
        AppView { current_input: CurrentField::Regex, x: col_of(v.regex.len()), ..v }
    }
}

/// Backspace: with the column past 0, the character before the cursor leaves
/// the focused line; at column 0 on a body row past 0, the current line
/// leaves the body and the cursor moves to the end of the preceding line;
/// otherwise the buffers are unchanged.
pub open spec fn backspace_spec(v: AppView) -> AppView {
    if v.current_input is Regex {
        if v.x > 0 {
            AppView { regex: v.regex.remove(v.x as int - 1), x: (v.x - 1) as u16, ..v }
        } else {
            v
        }
    } else {
        if v.x == 0 {
            if v.y != 0 {
                AppView {
                    text: v.text.remove(v.y as int),
                    y: (v.y - 1) as u16,
                    x: col_of(v.text[v.y as int - 1].len()),
                    ..v
                }
            } else {
                v
            }
        } else {
            AppView {
                text: v.text.update(v.y as int, v.text[v.y as int].remove(v.x as int - 1)),
                x: (v.x - 1) as u16,
                ..v
            }
        }
    }
}

/// Up while the body is focused and the row is past 0: the cursor moves to
/// the end of the previous line.
pub open spec fn up_spec(v: AppView) -> AppView {
    if v.current_input is Text && v.y > 0 {
        AppView { y: (v.y - 1) as u16, x: col_of(v.text[v.y as int - 1].len()), ..v }
    } else {
        v
    }
}

/// Down while the body is focused and a next line exists: the cursor moves to
/// the end of the next line.
pub open spec fn down_spec(v: AppView) -> AppView {
    if v.current_input is Text && v.y < u16::MAX && (v.y as int) + 1 < v.text.len() {
        AppView { y: (v.y + 1) as u16, x: col_of(v.text[v.y as int + 1].len()), ..v }
    } else {
        v
    }
}

/// Left: the column retreats by one when it is past 0.
pub open spec fn left_spec(v: AppView) -> AppView {
    if v.x > 0 {
        AppView { x: (v.x - 1) as u16, ..v }
    } else {
        v
    }
}

/// Right: the column advances by one while it is short of the focused line's
/// length.
pub open spec fn right_spec(v: AppView) -> AppView {
    if (v.x as int) < v.focused_line().len() && v.x < u16::MAX {
        AppView { x: (v.x + 1) as u16, ..v }
    } else {
        v
    }
}

/// The whole editor state machine: what one key event does to the state.
/// Character insertion, Enter and Backspace recompute the rendered output;
/// cursor movement, focus toggling and line clearing do not; Esc stops the
/// application; any other key is a no-op.
pub open spec fn step_spec(v: AppView, k: KeyInput) -> AppView {
    match k {
        KeyInput::Esc => AppView { running: false, ..v },
        KeyInput::Char(c) => recompute_spec(insert_spec(v, c)),
        KeyInput::Enter => recompute_spec(enter_spec(v)),
        KeyInput::Tab => toggle_spec(v),
        KeyInput::Backspace => recompute_spec(backspace_spec(v)),
        KeyInput::Up => up_spec(v),
        KeyInput::Down => down_spec(v),
        KeyInput::Left => left_spec(v),
        KeyInput::Right => right_spec(v),
        KeyInput::ClearLine => clear_line_spec(v),
        KeyInput::Other => v,
    }
}

/// Handles one key event, updating the state of [`App`] exactly as
/// [`step_spec`] says.
pub fn handle_key_events(key: KeyInput, app: &mut App)
    requires
        old(app)@.wf(),
    ensures
        final(app)@ == step_spec(old(app)@, key),
        final(app)@.wf(),
{
    match key {
        KeyInput::Esc => {
            app.running = false;
        },
        KeyInput::Char(c) => {
            if app.cursor_pos.x < u16::MAX {
                if app.current_input.is_regex() {
                    insert_char(&mut app.regex, app.cursor_pos.x as usize, c);
                } else {
                    let y = app.cursor_pos.y as usize;
                    let mut line = app.text[y].clone();
                    insert_char(&mut line, app.cursor_pos.x as usize, c);
                    app.text[y] = line;
                    proof {
                        assert(app@.text =~= insert_spec(old(app)@, c).text);
                    }
                }
                app.cursor_pos.x = app.cursor_pos.x + 1;
            }
            update_output(app);
        },
        KeyInput::Enter => {
            if app.current_input.is_text() && app.cursor_pos.y < u16::MAX {
                app.text.push(String::new());
                app.cursor_pos.y = app.cursor_pos.y + 1;
                app.cursor_pos.x = 0;
                proof {
                    assert(app@.text =~= enter_spec(old(app)@).text);
                }
            }
            update_output(app);
        },
        KeyInput::Tab => {
            app.current_input.next();
            if app.current_input.is_regex() {
                let n = app.regex.as_str().unicode_len();
                app.cursor_pos.x = col_of_len(n);
            } else {
                let n = app.text[app.cursor_pos.y as usize].as_str().unicode_len();
                app.cursor_pos.x = col_of_len(n);
            }
        },
        KeyInput::Backspace => {
            if app.current_input.is_regex() {
                if app.cursor_pos.x > 0 {
                    remove_char(&mut app.regex, app.cursor_pos.x as usize - 1);
                    app.cursor_pos.x = app.cursor_pos.x - 1;
                }
            } else {
                if app.cursor_pos.x == 0 {
                    if app.cursor_pos.y != 0 {
                        app.text.remove(app.cursor_pos.y as usize);
                        app.cursor_pos.y = app.cursor_pos.y - 1;
                        proof {
                            assert(app@.text =~= backspace_spec(old(app)@).text);
                        }
                        let n = app.text[app.cursor_pos.y as usize].as_str().unicode_len();
                        app.cursor_pos.x = col_of_len(n);
                    }
                } else {
                    let y = app.cursor_pos.y as usize;
                    let mut line = app.text[y].clone();
                    remove_char(&mut line, app.cursor_pos.x as usize - 1);
                    app.text[y] = line;
                    app.cursor_pos.x = app.cursor_pos.x - 1;
                    proof {
                        assert(app@.text =~= backspace_spec(old(app)@).text);
                    }
                }
            }
            update_output(app);
        },
        KeyInput::Up => {
            if app.current_input.is_text() && app.cursor_pos.y > 0 {
                app.cursor_pos.y = app.cursor_pos.y - 1;
                let n = app.text[app.cursor_pos.y as usize].as_str().unicode_len();
                app.cursor_pos.x = col_of_len(n);
            }
        },
        KeyInput::Down => {
            if app.current_input.is_text() && app.cursor_pos.y < u16::MAX && app.cursor_pos.y as usize
                + 1 < app.text.len() {
                app.cursor_pos.y = app.cursor_pos.y + 1;
                let n = app.text[app.cursor_pos.y as usize].as_str().unicode_len();
                app.cursor_pos.x = col_of_len(n);
            }
        },
        KeyInput::Left => {
            if app.cursor_pos.x > 0 {
                app.cursor_pos.x = app.cursor_pos.x - 1;
            }
        },
        KeyInput::Right => {
            let n = (if app.current_input.is_regex() {
                app.regex.as_str().unicode_len()
            } else {
                app.text[app.cursor_pos.y as usize].as_str().unicode_len()
            });
            if (app.cursor_pos.x as usize) < n && app.cursor_pos.x < u16::MAX {
                app.cursor_pos.x = app.cursor_pos.x + 1;
            }
        },
        KeyInput::ClearLine => {
            if app.current_input.is_regex() {
                app.regex = String::new();
            } else {
                app.text[app.cursor_pos.y as usize] = String::new();
                proof {
                    assert(app@.text =~= clear_line_spec(old(app)@).text);
                }
            }
            app.cursor_pos.x = 0;
        },
        KeyInput::Other => {},
    }
}

/// The state after a whole key sequence, starting from `v`.
pub open spec fn steps_spec(v: AppView, keys: Seq<KeyInput>) -> AppView
    decreases keys.len(),
{
    if keys.len() == 0 {
        v
    } else {
        steps_spec(step_spec(v, keys[0]), keys.skip(1))
    }
}

/// Runs a whole key sequence against a fresh application state.
pub fn replay(keys: &Vec<KeyInput>) -> (app: App)
    ensures
        app@ == steps_spec(init_view(), keys@),
{
    let mut app = App::new();
    proof {
        assert(keys@.skip(0) =~= keys@);
    }
    let mut i: usize = 0;
    while i < keys.len()
        invariant
            i <= keys@.len(),
            app@.wf(),
            steps_spec(app@, keys@.skip(i as int)) == steps_spec(init_view(), keys@),
        decreases keys@.len() - i,
    {
        let ghost pre = keys@.skip(i as int);
        handle_key_events(keys[i], &mut app);
        proof {
            assert(pre[0] == keys@[i as int]);
            assert(pre.skip(1) =~= keys@.skip(i as int + 1));
        }
        i = i + 1;
    }
    app
}

} // verus!
