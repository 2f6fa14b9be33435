//! The text the picker shows for the current history and selection.

use crate::history::History;
use crate::selection::Selection;
use vstd::prelude::*;

verus! {

/// How many characters of an entry the picker shows before cutting it short.
pub const PREVIEW_CHARS: usize = 100;

/// An entry as the picker shows it: longer entries are cut to
/// `PREVIEW_CHARS` characters followed by an ellipsis.
pub open spec fn spec_preview(s: Seq<char>) -> Seq<char> {
    if s.len() > PREVIEW_CHARS {
        s.subrange(0, PREVIEW_CHARS as int) + "..."@
    } else {
        s
    }
}

/// The lines the picker shows: nothing while hidden; while shown, a notice
/// when the history is empty, then the highlighted entry (an empty entry is
/// shown as empty text), or an out-of-range notice when the slot holds no
/// entry.
pub open spec fn spec_picker_lines(h: Seq<Seq<char>>, s: Selection) -> Seq<Seq<char>> {
    match s {
        Selection::Hidden => seq![],
        Selection::Visible(i) => {
            let notice: Seq<Seq<char>> = if h.len() == 0 {
                seq!["No clipboard history yet"@]
            } else {
                seq![]
            };
            let line = if i < h.len() {
                spec_preview(h[i as int])
            } else {
                "Out of range of stored history."@
            };
            notice.push(line)
        },
    }
}

/// An entry as the picker shows it.
pub fn preview(content: &str) -> (r: String)
    ensures
        r@ == spec_preview(content@),
{
    if content.unicode_len() > PREVIEW_CHARS {
        let head = String::from_str(content.substring_char(0, PREVIEW_CHARS));
        head.concat("...")
    } else {
        String::from_str(content)
    }
}

/// The lines the picker shows for this history and selection.
pub fn picker_lines(history: &History, selection: Selection) -> (r: Vec<String>)
    ensures
        r@.map_values(|l: String| l@) == spec_picker_lines(history@, selection),
{
    let mut r: Vec<String> = Vec::new();
    match selection {
        Selection::Hidden => {},
        Selection::Visible(i) => {
            if history.is_empty() {
                r.push(String::from_str("No clipboard history yet"));
            }
            let line = match history.get(i) {
                Some(entry) => preview(entry.as_str()),
                None => String::from_str("Out of range of stored history."),
            };
            r.push(line);
        },
    }
    assert(r@.map_values(|l: String| l@) =~= spec_picker_lines(history@, selection));
    r
}

} // verus!
