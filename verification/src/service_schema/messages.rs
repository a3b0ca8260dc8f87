//! The rustdoc a generated `<Operation>Request` message carries.

use vstd::prelude::*;

verus! {

/// The first rustdoc line of a message declared for `operation`: empty where the operation takes
/// nothing after the context, and read off its argument list otherwise.
pub open spec fn cost_note_opening(operation: Seq<char>, empty: bool) -> Seq<char> {
    if empty {
        " The message operation `"@ + operation
            + "` receives, declared empty because the operation takes nothing after the context."@
    } else {
        " The message operation `"@ + operation
            + "` receives, declared from its argument list because the operation names no message of its own."@
    }
}

/// The rustdoc lines a generated message carries, written where an author will read them before
/// reaching for the multi-argument form.
pub open spec fn cost_note_lines(operation: Seq<char>, empty: bool) -> Seq<Seq<char>> {
    if empty {
        seq![
            cost_note_opening(operation, true),
            Seq::empty(),
            " An operation that later needs a field gains one here, rather than changing from carrying no payload to carrying one and breaking every caller."@,
            Seq::empty(),
            " A field added here takes its name from the parameter it stands for, so renaming that parameter moves a key on the wire and no compiler will flag it."@,
        ]
    } else {
        seq![
            cost_note_opening(operation, false),
            Seq::empty(),
            " Its field names are the operation's parameter names, so renaming a parameter, an invisible refactor in Rust, moves a key on the wire and no compiler will flag it. An operation that takes one already-declared message instead pays nothing of the sort."@,
        ]
    }
}

pub open spec fn line_views(lines: Seq<String>) -> Seq<Seq<char>> {
    lines.map_values(|line: String| line@)
}

/// The rustdoc a generated message carries: its field names are parameter names, so renaming a
/// parameter moves a key on the wire and nothing in Rust says so.
pub fn cost_note(operation: &str, empty: bool) -> (r: Vec<String>)
    ensures
        line_views(r@) == cost_note_lines(operation@, empty),
{
    let mut opening = String::from_str(" The message operation `");
    opening.append(operation);
    let mut r: Vec<String> = Vec::new();
    if empty {
        opening.append(
            "` receives, declared empty because the operation takes nothing after the context.",
        );
        r.push(opening);
        r.push(String::new());
        r.push(
            String::from_str(
                " An operation that later needs a field gains one here, rather than changing from carrying no payload to carrying one and breaking every caller.",
            ),
        );
        r.push(String::new());
        r.push(
            String::from_str(
                " A field added here takes its name from the parameter it stands for, so renaming that parameter moves a key on the wire and no compiler will flag it.",
            ),
        );
    } else {
        opening.append(
            "` receives, declared from its argument list because the operation names no message of its own.",
        );
        r.push(opening);
        r.push(String::new());
        r.push(
            String::from_str(
                " Its field names are the operation's parameter names, so renaming a parameter, an invisible refactor in Rust, moves a key on the wire and no compiler will flag it. An operation that takes one already-declared message instead pays nothing of the sort.",
            ),
        );
    }
    assert(line_views(r@) =~= cost_note_lines(operation@, empty));
    r
}

} // verus!
