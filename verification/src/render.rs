//! Pure decisions made on behalf of the external renderer: which transition
//! marker and text an on/off row shows, and whether the terminal is big
//! enough. Layout and drawing themselves stay outside the library.

use vstd::prelude::*;

verus! {

/// The transition marker of an on/off row: `=` when the state held, `+` on a
/// rising edge, `-` on a falling edge, `#` for a freshly set field, `?` when
/// the current state is unknown.
pub open spec fn bool_marker(prev: Option<bool>, curr: Option<bool>) -> Seq<char> {
    match (prev, curr) {
        (Some(p), Some(c)) => if p == c {
            "="@
        } else if c {
            "+"@
        } else {
            "-"@
        },
        (None, Some(_)) => "#"@,
        _ => "?"@,
    }
}

/// The state text of an on/off row: `ON` or `OFF` for a known current state,
/// `?` otherwise.
pub open spec fn bool_text(curr: Option<bool>) -> Seq<char> {
    match curr {
        Some(c) => if c {
            "ON"@
        } else {
            "OFF"@
        },
        None => "?"@,
    }
}

/// The marker and state text an on/off row shows for the previous and
/// current value of one field.
pub fn bool_cells(prev: Option<bool>, curr: Option<bool>) -> (r: (String, String))
    ensures
        r.0@ == bool_marker(prev, curr),
        r.1@ == bool_text(curr),
{
    let marker: String = match (prev, curr) {
        (Some(p), Some(c)) => {
            if p == c {
                "=".to_string()
            } else if c {
                "+".to_string()
            } else {
                "-".to_string()
            }
        },
        (None, Some(_)) => "#".to_string(),
        _ => "?".to_string(),
    };
    let text: String = match curr {
        Some(c) => {
            if c {
                "ON".to_string()
            } else {
                "OFF".to_string()
            }
        },
        None => "?".to_string(),
    };
    (marker, text)
}

/// Whether a terminal of the given size can hold the layout: at least 52
/// columns and 28 rows. A caller refuses to draw otherwise.
pub fn size_ok(width: u16, height: u16) -> (r: bool)
    ensures
        r == (width >= 52 && height >= 28),
{
    width >= 52 && height >= 28
}

} // verus!
