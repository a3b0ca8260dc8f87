//! The names a type is published under, and the module its schema lives in.

use crate::text::{ascii_lower, is_ascii_lower, is_ascii_upper, lower_char, push_char};
use vstd::prelude::*;

verus! {

/// The suffix a `Json` companion type carries and its published name drops.
pub open spec fn json_suffix() -> Seq<char> {
    seq!['J', 's', 'o', 'n']
}

/// `key` without a trailing `Json`, where it ends in one.
pub open spec fn safe_type_name_seq(key: Seq<char>) -> Seq<char> {
    if key.len() >= 4 && key.skip(key.len() - 4) == json_suffix() {
        key.take(key.len() - 4)
    } else {
        key
    }
}

/// `to_snake_case` read over a prefix: the text written so far, and whether the last character
/// read was an ASCII lowercase letter (or an uppercase one just lowered).
pub open spec fn snake_state(s: Seq<char>) -> (Seq<char>, bool)
    decreases s.len(),
{
    if s.len() == 0 {
        (Seq::empty(), false)
    } else {
        let (written, prev_lower) = snake_state(s.drop_last());
        let c = s.last();
        if is_ascii_upper(c) {
            if prev_lower {
                (written.push('_').push(lower_char(c)), true)
            } else {
                (written.push(lower_char(c)), true)
            }
        } else {
            (written.push(c), is_ascii_lower(c))
        }
    }
}

/// A Rust type name in `snake_case`: a `_` before each ASCII capital that follows a lowercase
/// letter or a capital, and every capital lowered.
pub open spec fn snake_case_seq(s: Seq<char>) -> Seq<char> {
    snake_state(s).0
}

pub open spec fn schema_module_seq(rust_ident: Seq<char>) -> Seq<char> {
    snake_case_seq(safe_type_name_seq(rust_ident)) + "_schema"@
}

pub open spec fn item_export_seq(rust_ident: Seq<char>, override_name: Option<Seq<char>>) -> Seq<
    char,
> {
    match override_name {
        Some(name) => name,
        None => safe_type_name_seq(rust_ident),
    }
}

pub open spec fn alias_export_seq(rust_ident: Seq<char>, override_name: Option<Seq<char>>) -> Seq<
    char,
> {
    match override_name {
        Some(name) => name,
        None => safe_type_name_seq(rust_ident) + "Type"@,
    }
}

pub open spec fn opt_view(o: Option<&str>) -> Option<Seq<char>> {
    match o {
        Some(s) => Some(s@),
        None => None,
    }
}

/// The name a type is published under when it has no override: the `Json` suffix read through.
pub fn safe_type_name(key: &str) -> (r: String)
    ensures
        r@ == safe_type_name_seq(key@),
{
    let chars = crate::text::chars_of(key);
    let n = chars.len();
    if n >= 4 && chars[n - 4] == 'J' && chars[n - 3] == 's' && chars[n - 2] == 'o' && chars[n
        - 1] == 'n' {
        assert(key@.skip(n - 4) == json_suffix());
        crate::text::string_of_range(&chars, 0, n - 4)
    } else {
        proof {
            if n >= 4 {
                let tail = key@.skip(n - 4);
                assert(tail[0] == chars@[n - 4]);
                assert(tail[1] == chars@[n - 3]);
                assert(tail[2] == chars@[n - 2]);
                assert(tail[3] == chars@[n - 1]);
                assert(tail != json_suffix());
            }
        }
        key.to_owned()
    }
}

pub fn to_snake_case(name: &str) -> (r: String)
    ensures
        r@ == snake_case_seq(name@),
{
    let mut result = String::new();
    let mut prev_lower = false;
    for ch in it: name.chars()
        invariant
            it.seq() == name@,
            (result@, prev_lower) == snake_state(name@.take(it.index() as int)),
    {
        proof {
            let p = name@.take(it.index() + 1);
            assert(p.drop_last() == name@.take(it.index() as int));
        }
        if 'A' <= ch && ch <= 'Z' {
            if prev_lower {
                push_char(&mut result, '_');
            }
            push_char(&mut result, ascii_lower(ch));
            prev_lower = true;
        } else {
            push_char(&mut result, ch);
            prev_lower = 'a' <= ch && ch <= 'z';
        }
    }
    assert(name@.take(name@.len() as int) == name@);
    result
}

/// The schema module a `#[model_schema()]` item publishes — an alias, a struct, an enum, a branded
/// newtype alike — which is also the module a reference assumes for a name the registry does not
/// hold. It is named from the Rust ident alone, so a rename moves what the item is exported as and
/// never where its schema lives.
pub fn ident_schema_module_name(rust_ident: &str) -> (r: String)
    ensures
        r@ == schema_module_seq(rust_ident@),
{
    let safe = safe_type_name(rust_ident);
    let mut r = to_snake_case(safe.as_str());
    r.append("_schema");
    r
}

/// The name an alias is exported under: the override verbatim, or the ident with `Type` appended.
pub fn compute_alias_export_name(rust_ident: &str, override_name: Option<&str>) -> (r: String)
    ensures
        r@ == alias_export_seq(rust_ident@, opt_view(override_name)),
{
    match override_name {
        Some(name) => name.to_owned(),
        None => {
            let mut r = safe_type_name(rust_ident);
            r.append("Type");
            r
        },
    }
}

/// The name a declared item is exported under: the override verbatim, or the name it is declared
/// under.
pub fn compute_item_export_name(rust_ident: &str, override_name: Option<&str>) -> (r: String)
    ensures
        r@ == item_export_seq(rust_ident@, opt_view(override_name)),
{
    match override_name {
        Some(name) => name.to_owned(),
        None => safe_type_name(rust_ident),
    }
}

pub open spec fn ts_reexport_seq(ident: Seq<char>, export: Seq<char>, generics: Seq<char>) -> Seq<
    char,
> {
    if safe_type_name_seq(ident) == export {
        Seq::empty()
    } else {
        "\n\nexport type "@ + safe_type_name_seq(ident) + generics + " = "@ + export + generics
            + ";"@
    }
}

pub open spec fn zod_reexport_seq(ident: Seq<char>, export: Seq<char>, suffix: Seq<char>) -> Seq<
    char,
> {
    if safe_type_name_seq(ident) == export {
        Seq::empty()
    } else {
        "\n\nexport const "@ + safe_type_name_seq(ident) + suffix + " = "@ + export + suffix + ";"@
    }
}

/// The TypeScript line that binds the ident's own spelling to the name the item was exported
/// under, written only where the two differ.
pub fn ident_reexport_ts(rust_ident: &str, export_name: &str, generics: &str) -> (r: String)
    ensures
        r@ == ts_reexport_seq(rust_ident@, export_name@, generics@),
{
    let answered = safe_type_name(rust_ident);
    if crate::text::str_eq(answered.as_str(), export_name) {
        String::new()
    } else {
        let mut r = String::from_str("\n\nexport type ");
        r.append(answered.as_str());
        r.append(generics);
        r.append(" = ");
        r.append(export_name);
        r.append(generics);
        r.append(";");
        r
    }
}

/// The Zod binding for the ident's own spelling, under the suffix the item published its schema
/// with, written only where the export moved off the ident.
pub fn ident_reexport_zod(rust_ident: &str, export_name: &str, suffix: &str) -> (r: String)
    ensures
        r@ == zod_reexport_seq(rust_ident@, export_name@, suffix@),
{
    let answered = safe_type_name(rust_ident);
    if crate::text::str_eq(answered.as_str(), export_name) {
        String::new()
    } else {
        let mut r = String::from_str("\n\nexport const ");
        r.append(answered.as_str());
        r.append(suffix);
        r.append(" = ");
        r.append(export_name);
        r.append(suffix);
        r.append(";");
        r
    }
}

pub open spec fn lower_camel_seq(s: Seq<char>) -> Seq<char> {
    if s.len() == 0 {
        s
    } else {
        seq![lower_char(s[0])] + s.drop_first()
    }
}

/// The argument a Zod factory binds for a type parameter: the parameter with its first character
/// lowered, so it reads as the parameter it fills while staying a name of its own.
pub fn zod_factory_argument(parameter: &str) -> (r: String)
    ensures
        r@ == lower_camel_seq(parameter@),
{
    let mut r = String::new();
    let mut first = true;
    for ch in it: parameter.chars()
        invariant
            it.seq() == parameter@,
            first == (it.index() == 0),
            r@ == lower_camel_seq(parameter@.take(it.index() as int)),
    {
        proof {
            let p = parameter@.take(it.index() + 1);
            assert(p == parameter@.take(it.index() as int).push(ch));
            if it.index() > 0 {
                assert(p.drop_first() == parameter@.take(it.index() as int).drop_first().push(ch));
            }
        }
        if first {
            push_char(&mut r, ascii_lower(ch));
        } else {
            push_char(&mut r, ch);
        }
        first = false;
    }
    assert(parameter@.take(parameter@.len() as int) == parameter@);
    r
}


/// An item published under the name it is declared with lives in the module that name gives: the
/// module derived from the ident and the one derived from the unrenamed export agree.
pub proof fn lemma_unrenamed_item_module_agrees(rust_ident: Seq<char>)
    ensures
        schema_module_seq(rust_ident) == snake_case_seq(item_export_seq(rust_ident, None)) + "_schema"@,
{
}

/// A rename moves what an item is exported as and never where its schema lives: the module is a
/// function of the ident alone, whatever override the export takes.
pub proof fn lemma_rename_leaves_the_module(rust_ident: Seq<char>, renamed: Seq<char>)
    ensures
        item_export_seq(rust_ident, Some(renamed)) == renamed,
        schema_module_seq(rust_ident) == snake_case_seq(safe_type_name_seq(rust_ident)) + "_schema"@,
{
}

/// A name with no ASCII capital in it is already `snake_case`, and is left as it is.
pub proof fn lemma_snake_case_keeps_a_name_without_capitals(name: Seq<char>)
    requires
        forall|i: int| 0 <= i < name.len() ==> !is_ascii_upper(#[trigger] name[i]),
    ensures
        snake_case_seq(name) == name,
    decreases name.len(),
{
    if name.len() > 0 {
        let prefix = name.drop_last();
        assert forall|i: int| 0 <= i < prefix.len() implies !is_ascii_upper(#[trigger] prefix[i]) by {
            assert(prefix[i] == name[i]);
        }
        lemma_snake_case_keeps_a_name_without_capitals(prefix);
        assert(prefix.push(name.last()) =~= name);
    }
}

/// `to_snake_case` never reads a name twice: its result has no ASCII capital left, so snake-casing
/// it again leaves it as it is.
pub proof fn lemma_snake_case_is_idempotent(name: Seq<char>)
    ensures
        snake_case_seq(snake_case_seq(name)) == snake_case_seq(name),
{
    lemma_snake_case_has_no_capitals(name);
    lemma_snake_case_keeps_a_name_without_capitals(snake_case_seq(name));
}

/// What `to_snake_case` writes holds no ASCII capital.
pub proof fn lemma_snake_case_has_no_capitals(name: Seq<char>)
    ensures
        forall|i: int|
            0 <= i < snake_case_seq(name).len() ==> !is_ascii_upper(#[trigger] snake_case_seq(name)[i]),
    decreases name.len(),
{
    if name.len() > 0 {
        lemma_snake_case_has_no_capitals(name.drop_last());
        let (written, prev) = snake_state(name.drop_last());
        let c = name.last();
        let out = snake_state(name).0;
        let earlier = snake_case_seq(name.drop_last());
        assert(written == earlier);
        if is_ascii_upper(c) {
            assert(!is_ascii_upper(lower_char(c)));
            if prev {
                let once = written.push('_');
                assert(out == once.push(lower_char(c)));
                assert forall|i: int| 0 <= i < out.len() implies !is_ascii_upper(#[trigger] out[i]) by {
                    if i < once.len() {
                        assert(out[i] == once[i]);
                        if i < written.len() {
                            assert(once[i] == written[i]);
                            assert(!is_ascii_upper(earlier[i]));
                        } else {
                            assert(once[i] == '_');
                        }
                    } else {
                        assert(out[i] == lower_char(c));
                    }
                }
            } else {
                assert(out == written.push(lower_char(c)));
                assert forall|i: int| 0 <= i < out.len() implies !is_ascii_upper(#[trigger] out[i]) by {
                    if i < written.len() {
                        assert(out[i] == written[i]);
                        assert(!is_ascii_upper(earlier[i]));
                    } else {
                        assert(out[i] == lower_char(c));
                    }
                }
            }
        } else {
            assert(out == written.push(c));
            assert forall|i: int| 0 <= i < out.len() implies !is_ascii_upper(#[trigger] out[i]) by {
                if i < written.len() {
                    assert(out[i] == written[i]);
                    assert(!is_ascii_upper(earlier[i]));
                }
            }
        }
    }
}

/// One character of `to_snake_case` read onto what was written and whether the last character
/// read was a letter an underscore may follow.
pub open spec fn snake_step(state: (Seq<char>, bool), c: char) -> (Seq<char>, bool) {
    if is_ascii_upper(c) {
        if state.1 {
            (state.0.push('_').push(lower_char(c)), true)
        } else {
            (state.0.push(lower_char(c)), true)
        }
    } else {
        (state.0.push(c), is_ascii_lower(c))
    }
}

/// `to_snake_case` read over `s` from a given state.
pub open spec fn snake_run(state: (Seq<char>, bool), s: Seq<char>) -> (Seq<char>, bool)
    decreases s.len(),
{
    if s.len() == 0 {
        state
    } else {
        snake_step(snake_run(state, s.drop_last()), s.last())
    }
}

proof fn lemma_snake_state_is_a_run(s: Seq<char>)
    ensures
        snake_state(s) == snake_run((Seq::empty(), false), s),
    decreases s.len(),
{
    if s.len() > 0 {
        lemma_snake_state_is_a_run(s.drop_last());
    }
}

proof fn lemma_snake_run_composes(state: (Seq<char>, bool), a: Seq<char>, b: Seq<char>)
    ensures
        snake_run(state, a + b) == snake_run(snake_run(state, a), b),
    decreases b.len(),
{
    if b.len() == 0 {
        assert(a + b =~= a);
    } else {
        assert((a + b).drop_last() =~= a + b.drop_last());
        assert((a + b).last() == b.last());
        lemma_snake_run_composes(state, a, b.drop_last());
    }
}

proof fn lemma_snake_run_keeps_what_was_written(written: Seq<char>, flag: bool, s: Seq<char>)
    ensures
        snake_run((written, flag), s) == (
            written + snake_run((Seq::empty(), flag), s).0,
            snake_run((Seq::empty(), flag), s).1,
        ),
    decreases s.len(),
{
    if s.len() == 0 {
        assert(written + Seq::<char>::empty() =~= written);
    } else {
        lemma_snake_run_keeps_what_was_written(written, flag, s.drop_last());
        let inner = snake_run((Seq::empty(), flag), s.drop_last());
        let c = s.last();
        if is_ascii_upper(c) {
            if inner.1 {
                assert((written + inner.0).push('_').push(lower_char(c)) =~= written + inner.0.push('_').push(
                    lower_char(c),
                ));
            } else {
                assert((written + inner.0).push(lower_char(c)) =~= written + inner.0.push(lower_char(c)));
            }
        } else {
            assert((written + inner.0).push(c) =~= written + inner.0.push(c));
        }
    }
}

/// Every word break gets its underscore: where a name that ends in an ASCII letter is followed by
/// a part starting with an ASCII capital, the snake-cased whole is the snake-cased name, `_`, and
/// the snake-cased part — `GetUser` + `Profile` is `get_user` + `_` + `profile`.
pub proof fn lemma_snake_case_breaks_before_every_capital(name: Seq<char>, part: Seq<char>)
    requires
        name.len() > 0,
        is_ascii_lower(name.last()) || is_ascii_upper(name.last()),
        part.len() > 0,
        is_ascii_upper(part[0]),
    ensures
        snake_case_seq(name + part) == snake_case_seq(name) + seq!['_'] + snake_case_seq(part),
{
    let empty = Seq::<char>::empty();
    let first = seq![part[0]];
    let rest = part.drop_first();
    assert(part =~= first + rest);
    lemma_snake_state_is_a_run(name + part);
    lemma_snake_state_is_a_run(name);
    lemma_snake_state_is_a_run(part);
    lemma_snake_run_composes((empty, false), name, part);
    let after_name = snake_run((empty, false), name);
    assert(snake_run((empty, false), name.drop_last()) == snake_state(name.drop_last())) by {
        lemma_snake_state_is_a_run(name.drop_last());
    }
    assert(after_name.1);
    lemma_snake_run_composes(after_name, first, rest);
    lemma_snake_run_composes((empty, false), first, rest);
    assert(first.drop_last() =~= empty);
    assert(first.last() == part[0]);
    assert(snake_run(after_name, first.drop_last()) == after_name);
    assert(snake_run((empty, false), first.drop_last()) == (empty, false));
    let lowered = lower_char(part[0]);
    assert(snake_run(after_name, first) == (after_name.0.push('_').push(lowered), true));
    assert(snake_run((empty, false), first) == (empty.push(lowered), true));
    lemma_snake_run_keeps_what_was_written(after_name.0.push('_').push(lowered), true, rest);
    lemma_snake_run_keeps_what_was_written(empty.push(lowered), true, rest);
    let tail = snake_run((empty, true), rest).0;
    assert(after_name.0.push('_').push(lowered) + tail =~= after_name.0 + seq!['_'] + (empty.push(lowered)
        + tail));
}

} // verus!
