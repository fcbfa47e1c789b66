//! Laws of the editor state machine and the match engine, proved once and
//! for all over the state model.

use vstd::prelude::*;

use crate::app::AppView;
use crate::engine::capture_rows;
use crate::engine::compile_outcome;
use crate::engine::joined_lines;
use crate::engine::rendered_report;
use crate::handler::KeyInput;
use crate::handler::col_of;
use crate::handler::recompute_spec;
use crate::handler::step_spec;
use crate::handler::steps_spec;

verus! {

/// Recomputing the rendered output touches only the compiled pattern and the
/// output: the buffers, the focus and the cursor stay as they are.
pub proof fn lemma_recompute_preserves_editor(v: AppView)
    ensures
        recompute_spec(v).running == v.running,
        recompute_spec(v).current_input == v.current_input,
        recompute_spec(v).regex == v.regex,
        recompute_spec(v).text == v.text,
        recompute_spec(v).x == v.x,
        recompute_spec(v).y == v.y,
{
}

/// Every key event preserves well-formedness of the state; in particular the
/// body never loses its last line.
pub proof fn lemma_step_preserves_wf(v: AppView, k: KeyInput)
    requires
        v.wf(),
    ensures
        step_spec(v, k).wf(),
{
}

/// The body holds at least one line after any sequence of key events
/// whatsoever — Enter and Backspace included.
pub proof fn lemma_body_never_empty(v: AppView, keys: Seq<KeyInput>)
    requires
        v.wf(),
    ensures
        steps_spec(v, keys).wf(),
        steps_spec(v, keys).text.len() >= 1,
    decreases keys.len(),
{
    if keys.len() > 0 {
        lemma_step_preserves_wf(v, keys[0]);
        lemma_body_never_empty(step_spec(v, keys[0]), keys.skip(1));
    }
}

/// Backspace at column 0 on a body row past 0 removes exactly one line, and
/// the cursor lands at the end of the preceding line (saturated at the
/// largest column a `u16` can hold).
pub proof fn lemma_backspace_removes_line(v: AppView)
    requires
        v.wf(),
        v.current_input is Text,
        v.x == 0,
        v.y > 0,
    ensures
        step_spec(v, KeyInput::Backspace).text == v.text.remove(v.y as int),
        step_spec(v, KeyInput::Backspace).text.len() == v.text.len() - 1,
        step_spec(v, KeyInput::Backspace).y == v.y - 1,
        step_spec(v, KeyInput::Backspace).x == col_of(v.text[v.y as int - 1].len()),
        v.text[v.y as int - 1].len() <= u16::MAX ==> step_spec(v, KeyInput::Backspace).x as int
            == v.text[v.y as int - 1].len(),
{
    lemma_recompute_preserves_editor(
        AppView {
            text: v.text.remove(v.y as int),
            y: (v.y - 1) as u16,
            x: col_of(v.text[v.y as int - 1].len()),
            ..v
        },
    );
}

/// A compile error leaves the previously compiled pattern unchanged, and
/// shows the error message instead of a report.
pub proof fn lemma_error_keeps_pattern(v: AppView)
    requires
        v.current_input is Regex,
        v.regex.len() > 0,
        compile_outcome(v.regex) is Some,
    ensures
        recompute_spec(v).re == v.re,
        recompute_spec(v).output == compile_outcome(v.regex)->0,
{
}

/// While the body is focused, matching always uses the retained compiled
/// pattern — the last one that compiled — whatever was typed into the
/// pattern field since.
pub proof fn lemma_stale_pattern_matches(v: AppView)
    requires
        v.current_input is Text,
        v.re is Some,
    ensures
        recompute_spec(v).output == rendered_report(
            capture_rows(v.re->0, joined_lines(v.text)),
        ),
        recompute_spec(v).re == v.re,
{
}

/// Recomputation is idempotent: with the pattern and the body unchanged, a
/// second recomputation leaves the whole state — the rendered output
/// included — exactly as the first left it.
pub proof fn lemma_recompute_idempotent(v: AppView)
    ensures
        recompute_spec(recompute_spec(v)) == recompute_spec(v),
{
}

/// An empty pattern field clears the rendered output and the compiled
/// pattern, whatever the prior state.
pub proof fn lemma_empty_pattern_clears(v: AppView)
    requires
        v.current_input is Regex,
        v.regex.len() == 0,
    ensures
        recompute_spec(v).output == Seq::<char>::empty(),
        recompute_spec(v).re is None,
{
}

/// Toggling the focus twice returns to the original focus, keeps both
/// buffers and the row, and puts the cursor column at the length of the
/// focused field's current line (saturated at the largest `u16` column).
pub proof fn lemma_tab_toggle_restores(v: AppView)
    requires
        v.wf(),
    ensures
        step_spec(step_spec(v, KeyInput::Tab), KeyInput::Tab).current_input == v.current_input,
        step_spec(step_spec(v, KeyInput::Tab), KeyInput::Tab).regex == v.regex,
        step_spec(step_spec(v, KeyInput::Tab), KeyInput::Tab).text == v.text,
        step_spec(step_spec(v, KeyInput::Tab), KeyInput::Tab).y == v.y,
        step_spec(step_spec(v, KeyInput::Tab), KeyInput::Tab).x == col_of(
            v.focused_line().len(),
        ),
        v.focused_line().len() <= u16::MAX ==> step_spec(
            step_spec(v, KeyInput::Tab),
            KeyInput::Tab,
        ).x as int == v.focused_line().len(),
{
}

/// One typed character, as a key event.
pub open spec fn char_key(c: char) -> KeyInput {
    KeyInput::Char(c)
}

/// The key sequence that types the characters of `cs`, in order.
pub open spec fn char_keys(cs: Seq<char>) -> Seq<KeyInput> {
    cs.map_values(|c: char| char_key(c))
}

/// Typing a run of characters with the cursor at the end of the focused body
/// line appends them, in order, and leaves the cursor at the end again.
pub proof fn lemma_insert_run(v: AppView, cs: Seq<char>)
    requires
        v.wf(),
        v.current_input is Text,
        v.x as int == v.text[v.y as int].len(),
        v.x + cs.len() <= u16::MAX,
    ensures
        steps_spec(v, char_keys(cs)).current_input is Text,
        steps_spec(v, char_keys(cs)).y == v.y,
        steps_spec(v, char_keys(cs)).text[v.y as int] == v.text[v.y as int] + cs,
        steps_spec(v, char_keys(cs)).x as int == v.text[v.y as int].len() + cs.len(),
    decreases cs.len(),
{
    if cs.len() == 0 {
        assert(char_keys(cs).len() == 0);
        assert(v.text[v.y as int] + cs =~= v.text[v.y as int]);
    } else {
        let c = cs[0];
        let line = v.text[v.y as int];
        let v1 = AppView {
            text: v.text.update(v.y as int, line.insert(v.x as int, c)),
            x: (v.x + 1) as u16,
            ..v
        };
        assert(line.insert(v.x as int, c) =~= line + seq![c]);
        let w = step_spec(v, KeyInput::Char(c));
        lemma_recompute_preserves_editor(v1);
        lemma_step_preserves_wf(v, KeyInput::Char(c));
        lemma_insert_run(w, cs.skip(1));
        assert(char_keys(cs).skip(1) =~= char_keys(cs.skip(1)));
        assert(w.text[v.y as int] + cs.skip(1) =~= line + cs);
    }
}

/// Any sequence of printable-character insertions into an empty body line
/// yields exactly the concatenation of the typed characters, with the cursor
/// column equal to the line's length.
pub proof fn lemma_insert_into_empty_line(v: AppView, cs: Seq<char>)
    requires
        v.wf(),
        v.current_input is Text,
        v.text[v.y as int] == Seq::<char>::empty(),
        v.x == 0,
        cs.len() <= u16::MAX,
    ensures
        steps_spec(v, char_keys(cs)).text[v.y as int] == cs,
        steps_spec(v, char_keys(cs)).x as int == cs.len(),
        steps_spec(v, char_keys(cs)).y == v.y,
{
    lemma_insert_run(v, cs);
    assert(v.text[v.y as int] + cs =~= cs);
}

} // verus!
