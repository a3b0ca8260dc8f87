//! Documentation lines: the ` ```rust example ` blocks they carry, and the `JSDoc` body a type is
//! published under.

use crate::syntax::{
    attribute_meta, attribute_meta_of, attribute_name, attribute_name_of, attribute_span,
    attribute_span_of, enum_attributes, enum_attributes_of, expr_string, expr_string_of,
    field_attributes, field_attributes_of, meta_value, meta_value_of, struct_attributes,
    struct_attributes_of, variant_attributes, variant_attributes_of,
};
use crate::text::{chars_of, push_char, strip_prefix_char, strip_prefix_char_seq, str_eq, string_of_range, trim, trim_seq};
use vstd::prelude::*;

verus! {

/// The views of a list of strings.
pub open spec fn views(lines: Seq<String>) -> Seq<Seq<char>> {
    lines.map_values(|line: String| line@)
}

/// `list` joined by `sep`.
pub open spec fn join_seq(list: Seq<Seq<char>>, sep: Seq<char>) -> Seq<char>
    decreases list.len(),
{
    if list.len() == 0 {
        Seq::empty()
    } else if list.len() == 1 {
        list[0]
    } else {
        join_seq(list.drop_last(), sep) + sep + list.last()
    }
}

/// A doc line with its block-comment asterisk and surrounding white space taken off, which is
/// what the fences are recognised by.
pub open spec fn cleaned_seq(line: Seq<char>) -> Seq<char> {
    trim_seq(strip_prefix_char_seq(trim_seq(line), '*'))
}

pub open spec fn opening_fence() -> Seq<char> {
    "```rust example"@
}

pub open spec fn closing_fence() -> Seq<char> {
    "```"@
}

/// `strip_examples_from_docs` read over a prefix: the lines kept so far, and whether the reader is
/// inside an example block.
pub open spec fn strip_state(docs: Seq<Seq<char>>) -> (Seq<Seq<char>>, bool)
    decreases docs.len(),
{
    if docs.len() == 0 {
        (Seq::empty(), false)
    } else {
        let (kept, in_block) = strip_state(docs.drop_last());
        let line = docs.last();
        let cleaned = cleaned_seq(line);
        if cleaned == opening_fence() {
            (kept, true)
        } else if in_block && cleaned == closing_fence() {
            (kept, false)
        } else if in_block {
            (kept, true)
        } else {
            (kept.push(line), false)
        }
    }
}

/// The doc lines with every example block, fences included, taken out.
pub open spec fn stripped_seq(docs: Seq<Seq<char>>) -> Seq<Seq<char>> {
    strip_state(docs).0
}

/// A line of the `JSDoc` body.
pub open spec fn jsdoc_line(line: Seq<char>) -> Seq<char> {
    " * "@ + line
}

pub open spec fn jsdoc_seq(docs: Seq<Seq<char>>, fallback: Seq<char>) -> Seq<char> {
    let described = stripped_seq(docs);
    if described.len() == 0 {
        " * "@ + fallback + "\n * "@
    } else {
        join_seq(described.map_values(|line: Seq<char>| jsdoc_line(line)).push(" * "@), "\n"@)
    }
}

fn cleaned(line: &str) -> (r: String)
    ensures
        r@ == cleaned_seq(line@),
{
    let trimmed = trim(line);
    let unstarred = strip_prefix_char(trimmed.as_str(), '*');
    trim(unstarred.as_str())
}

/// Strips example code blocks from documentation lines, so a description never carries the
/// example written beside it.
pub fn strip_examples_from_docs(docs: &[String]) -> (r: Vec<String>)
    ensures
        views(r@) == stripped_seq(views(docs@)),
{
    let mut result: Vec<String> = Vec::new();
    let mut in_example_block = false;
    let mut i: usize = 0;
    while i < docs.len()
        invariant
            0 <= i <= docs@.len(),
            (views(result@), in_example_block) == strip_state(views(docs@).take(i as int)),
        decreases docs@.len() - i,
    {
        let line = &docs[i];
        proof {
            let p = views(docs@).take(i + 1);
            assert(p.drop_last() == views(docs@).take(i as int));
            assert(p.last() == line@);
        }
        let cleaned = cleaned(line.as_str());
        if str_eq(cleaned.as_str(), "```rust example") {
            in_example_block = true;
        } else if in_example_block && str_eq(cleaned.as_str(), "```") {
            in_example_block = false;
        } else if !in_example_block {
            let ghost before = result@;
            result.push(line.clone());
            assert(views(result@) == views(before).push(line@));
        }
        i = i + 1;
    }
    assert(views(docs@).take(docs@.len() as int) == views(docs@));
    result
}

/// `list` joined by `sep`, for lines held as strings.
pub fn join_strings(list: &Vec<String>, sep: &str) -> (r: String)
    ensures
        r@ == join_seq(views(list@), sep@),
{
    let mut r = String::new();
    let mut i: usize = 0;
    while i < list.len()
        invariant
            0 <= i <= list@.len(),
            r@ == join_seq(views(list@).take(i as int), sep@),
        decreases list@.len() - i,
    {
        proof {
            let p = views(list@).take(i + 1);
            assert(p.drop_last() == views(list@).take(i as int));
        }
        if i > 0 {
            r.append(sep);
        }
        r.append(list[i].as_str());
        i = i + 1;
    }
    assert(views(list@).take(list@.len() as int) == views(list@));
    r
}

/// The `JSDoc` comment body an alias's `export type` is emitted under. An alias's example block is
/// dropped before its lines reach the body, and an alias documented with nothing but an example is
/// left naming itself, as an undocumented one is.
pub fn format_docs_for_ts(docs: &[String], fallback_name: &str) -> (r: String)
    ensures
        r@ == jsdoc_seq(views(docs@), fallback_name@),
{
    let described = strip_examples_from_docs(docs);
    if described.len() == 0 {
        let mut r = String::from_str(" * ");
        r.append(fallback_name);
        r.append("\n * ");
        r
    } else {
        let mut lines: Vec<String> = Vec::new();
        let mut i: usize = 0;
        while i < described.len()
            invariant
                0 <= i <= described@.len(),
                views(lines@) == views(described@).take(i as int).map_values(
                    |line: Seq<char>| jsdoc_line(line),
                ),
            decreases described@.len() - i,
        {
            let mut line = String::from_str(" * ");
            line.append(described[i].as_str());
            let ghost before = lines@;
            lines.push(line);
            assert(views(described@).take(i + 1) == views(described@).take(i as int).push(
                described@[i as int]@,
            ));
            assert(views(lines@) == views(before).push(jsdoc_line(described@[i as int]@)));
            i = i + 1;
        }
        assert(views(described@).take(described@.len() as int) == views(described@));
        let ghost before = lines@;
        lines.push(String::from_str(" * "));
        assert(views(lines@) == views(before).push(" * "@));
        join_strings(&lines, "\n")
    }
}


pub open spec fn opt_string_view(o: Option<String>) -> Option<Seq<char>> {
    match o {
        Some(s) => Some(s@),
        None => None,
    }
}

/// What `regex::Regex::new(pattern)` then `replace_all(text, replacement)` returns, or `None`
/// where the pattern does not compile.
pub uninterp spec fn regex_replace_all(
    pattern: Seq<char>,
    text: Seq<char>,
    replacement: Seq<char>,
) -> Option<Seq<char>>;

/// What `regex::Regex::new(pattern)` then `replace(text, replacement)` returns — the first match
/// replaced — or `None` where the pattern does not compile.
pub uninterp spec fn regex_replace_first(
    pattern: Seq<char>,
    text: Seq<char>,
    replacement: Seq<char>,
) -> Option<Seq<char>>;

/// What `regex::Regex::new(pattern)` then `captures(text)` reads for capture group `group`: `None`
/// where the pattern does not compile, `Some(None)` where nothing matched or the group took no
/// part in the match, and the captured text otherwise.
pub uninterp spec fn regex_capture(pattern: Seq<char>, text: Seq<char>, group: usize) -> Option<
    Option<Seq<char>>,
>;

/// `regex::Regex::new(pattern)` and `Regex::replace_all(text, replacement)`: every
/// non-overlapping match of the pattern in `text` replaced, `$` references in `replacement`
/// expanded. The result is named, not spelled out: it is the `regex` crate's reading of the
/// pattern.
#[verifier::external_body]
fn replace_all_matches(pattern: &str, text: &str, replacement: &str) -> (r: Option<String>)
    ensures
        opt_string_view(r) == regex_replace_all(pattern@, text@, replacement@),
{
    match regex::Regex::new(pattern) {
        Ok(re) => Some(re.replace_all(text, replacement).into_owned()),
        Err(_) => None,
    }
}

/// `regex::Regex::new(pattern)` and `Regex::replace(text, replacement)`: the leftmost-first match
/// replaced, `$` references in `replacement` expanded.
#[verifier::external_body]
fn replace_first_match(pattern: &str, text: &str, replacement: &str) -> (r: Option<String>)
    ensures
        opt_string_view(r) == regex_replace_first(pattern@, text@, replacement@),
{
    match regex::Regex::new(pattern) {
        Ok(re) => Some(re.replace(text, replacement).into_owned()),
        Err(_) => None,
    }
}

/// `regex::Regex::new(pattern)`, `Regex::captures(text)` and `Captures::get(group)`: the text
/// capture group `group` took in the leftmost-first match.
#[verifier::external_body]
fn first_capture(pattern: &str, text: &str, group: usize) -> (r: Option<Option<String>>)
    ensures
        match (r, regex_capture(pattern@, text@, group)) {
            (None, None) => true,
            (Some(None), Some(None)) => true,
            (Some(Some(s)), Some(Some(t))) => s@ == t,
            _ => false,
        },
{
    match regex::Regex::new(pattern) {
        Err(_) => None,
        Ok(re) => match re.captures(text) {
            None => Some(None),
            Some(caps) => match caps.get(group) {
                None => Some(None),
                Some(m) => Some(Some(m.as_str().to_owned())),
            },
        },
    }
}

pub open spec fn use_statement_pattern() -> Seq<char> {
    "(?m)^\\s*use\\s+[^;]+;\\s*\\n?"@
}

pub open spec fn println_pattern() -> Seq<char> {
    "println!\\s*\\([^,)]+,\\s*([^)]+)\\)\\s*;?\\s*$"@
}

pub open spec fn let_underscore_pattern() -> Seq<char> {
    "let\\s+_(?:\\s*:\\s*[^=]+)?\\s*=\\s*([^;]+)\\s*;?\\s*$"@
}

/// One unwrapping step: where `pattern` captures a value in `code`, the match replaced by that
/// value; otherwise `code` unchanged.
pub open spec fn unwrap_step(pattern: Seq<char>, code: Seq<char>) -> Seq<char> {
    match regex_capture(pattern, code, 1) {
        Some(Some(value)) => match regex_replace_first(pattern, code, value) {
            Some(replaced) => replaced,
            None => code,
        },
        _ => code,
    }
}

/// Doctest-compatible example code made to evaluate to its value: `use` lines stripped,
/// `println!("...", value);` and `let _: Type = value;` unwrapped to `value`, the rest trimmed.
/// A pattern the `regex` crate refused would leave its step's input as it was.
pub open spec fn transformed_seq(code: Seq<char>) -> Seq<char> {
    let unused = match regex_replace_all(use_statement_pattern(), code, Seq::empty()) {
        Some(stripped) => stripped,
        None => code,
    };
    trim_seq(unwrap_step(let_underscore_pattern(), unwrap_step(println_pattern(), unused)))
}

fn unwrap_matched(pattern: &str, code: String) -> (r: String)
    ensures
        r@ == unwrap_step(pattern@, code@),
{
    match first_capture(pattern, code.as_str(), 1) {
        Some(Some(value)) => match replace_first_match(pattern, code.as_str(), value.as_str()) {
            Some(replaced) => replaced,
            None => code,
        },
        _ => code,
    }
}

/// Transforms doctest-compatible example code to be suitable for `schema_example()`.
pub fn transform_example_code(code: &str) -> (r: String)
    ensures
        r@ == transformed_seq(code@),
{
    let unused = match replace_all_matches("(?m)^\\s*use\\s+[^;]+;\\s*\\n?", code, "") {
        Some(stripped) => stripped,
        None => code.to_owned(),
    };
    assert(use_statement_pattern() == "(?m)^\\s*use\\s+[^;]+;\\s*\\n?"@);
    proof {
        reveal_strlit("");
        assert(""@ =~= Seq::<char>::empty());
        assert(unused@ == match regex_replace_all(use_statement_pattern(), code@, Seq::empty()) {
            Some(stripped) => stripped,
            None => code@,
        });
    }
    let printed = unwrap_matched("println!\\s*\\([^,)]+,\\s*([^)]+)\\)\\s*;?\\s*$", unused);
    assert(printed@ == unwrap_step(println_pattern(), unused@));
    let bound = unwrap_matched("let\\s+_(?:\\s*:\\s*[^=]+)?\\s*=\\s*([^;]+)\\s*;?\\s*$", printed);
    trim(bound.as_str())
}

/// `extract_example_from_docs` read over a prefix: whether the reader is inside an example block,
/// the example lines collected, and whether the reader has stopped.
pub open spec fn example_state(docs: Seq<Seq<char>>) -> (bool, Seq<Seq<char>>, bool)
    decreases docs.len(),
{
    if docs.len() == 0 {
        (false, Seq::empty(), false)
    } else {
        let (in_block, lines, stopped) = example_state(docs.drop_last());
        let line = docs.last();
        let cleaned = cleaned_seq(line);
        if stopped {
            (in_block, lines, true)
        } else if cleaned == opening_fence() {
            if lines.len() > 0 {
                (in_block, lines, true)
            } else {
                (true, lines, false)
            }
        } else if in_block && cleaned == closing_fence() {
            (in_block, lines, true)
        } else if in_block {
            (in_block, lines.push(line), false)
        } else {
            (in_block, lines, false)
        }
    }
}

/// The first example's code, made to evaluate to its value, or `None` where the docs hold none.
pub open spec fn example_seq(docs: Seq<Seq<char>>) -> Option<Seq<char>> {
    let lines = example_state(docs).1;
    if lines.len() == 0 {
        None
    } else {
        Some(transformed_seq(join_seq(lines, "\n"@)))
    }
}

/// Extracts the first Rust code example from documentation comments: the lines between a
/// ` ```rust example ` fence and the closing ` ``` `, joined and made to evaluate to the example's
/// value. Only the first example is returned.
pub fn extract_example_from_docs(docs: &[String]) -> (r: Option<String>)
    ensures
        opt_string_view(r) == example_seq(views(docs@)),
{
    let mut in_example_block = false;
    let mut example_lines: Vec<String> = Vec::new();
    let mut i: usize = 0;
    let ghost all = views(docs@);
    assert(all.take(all.len() as int) == all);
    while i < docs.len()
        invariant_except_break
            (in_example_block, views(example_lines@), false) == example_state(all.take(i as int)),
        invariant
            0 <= i <= docs@.len(),
            all == views(docs@),
            all.take(all.len() as int) == all,
        ensures
            views(example_lines@) == example_state(all).1,
        decreases docs@.len() - i,
    {
        let line = &docs[i];
        proof {
            let p = all.take(i + 1);
            assert(p.drop_last() == all.take(i as int));
            assert(p.last() == line@);
        }
        let cleaned = cleaned(line.as_str());
        if str_eq(cleaned.as_str(), "```rust example") {
            if example_lines.len() > 0 {
                proof {
                    assert(example_state(all.take(i + 1)).1 == views(example_lines@));
                    lemma_example_state_stays_stopped(all, i as int + 1);
                }
                break;
            }
            in_example_block = true;
        } else if in_example_block && str_eq(cleaned.as_str(), "```") {
            proof {
                assert(example_state(all.take(i + 1)).1 == views(example_lines@));
                lemma_example_state_stays_stopped(all, i as int + 1);
            }
            break;
        } else if in_example_block {
            let ghost before = example_lines@;
            example_lines.push(line.clone());
            assert(views(example_lines@) == views(before).push(line@));
        }
        i = i + 1;
    }
    if example_lines.len() == 0 {
        None
    } else {
        let code = join_strings(&example_lines, "\n");
        Some(transform_example_code(code.as_str()))
    }
}

/// Once the reader has stopped, no later line changes what it collected.
proof fn lemma_example_state_stays_stopped(docs: Seq<Seq<char>>, i: int)
    requires
        0 <= i <= docs.len(),
        example_state(docs.take(i)).2,
    ensures
        example_state(docs).1 == example_state(docs.take(i)).1,
        example_state(docs).2,
    decreases docs.len() - i,
{
    if i < docs.len() {
        let p = docs.take(i + 1);
        assert(p.drop_last() == docs.take(i));
        lemma_example_state_stays_stopped(docs, i + 1);
    } else {
        assert(docs.take(i) == docs);
    }
}

/// `s` with one trailing carriage return taken off, where it ends with one.
pub open spec fn strip_cr(line: Seq<char>) -> Seq<char> {
    if line.len() > 0 && line.last() == '\r' {
        line.drop_last()
    } else {
        line
    }
}

/// `str::lines` read over a prefix: the lines ended so far, and the line being read.
pub open spec fn lines_state(s: Seq<char>) -> (Seq<Seq<char>>, Seq<char>)
    decreases s.len(),
{
    if s.len() == 0 {
        (Seq::empty(), Seq::empty())
    } else {
        let (done, current) = lines_state(s.drop_last());
        if s.last() == '\n' {
            (done.push(strip_cr(current)), Seq::empty())
        } else {
            (done, current.push(s.last()))
        }
    }
}

/// The lines `str::lines` yields: split after each `\n`, the `\n` and a `\r` before it dropped,
/// and no empty line after a final line ending.
pub open spec fn lines_seq(s: Seq<char>) -> Seq<Seq<char>> {
    let (done, current) = lines_state(s);
    if current.len() > 0 {
        done.push(current)
    } else {
        done
    }
}

/// The documentation lines a list of `#[doc = "..."]` values holds, in order, each split into
/// lines and trimmed, as block comments arrive with embedded line endings.
pub open spec fn doc_lines_seq(values: Seq<Seq<char>>) -> Seq<Seq<char>>
    decreases values.len(),
{
    if values.len() == 0 {
        Seq::empty()
    } else {
        doc_lines_seq(values.drop_last()) + lines_seq(values.last()).map_values(
            |line: Seq<char>| trim_seq(line),
        )
    }
}

/// Which value each of [`doc_lines_seq`]'s lines came from.
pub open spec fn doc_origins_seq(values: Seq<Seq<char>>) -> Seq<int>
    decreases values.len(),
{
    if values.len() == 0 {
        Seq::empty()
    } else {
        doc_origins_seq(values.drop_last()) + Seq::new(
            lines_seq(values.last()).len(),
            |k: int| values.len() - 1,
        )
    }
}

/// The lines `s` holds, as `str::lines` yields them.
pub fn lines_of(s: &str) -> (r: Vec<String>)
    ensures
        views(r@) == lines_seq(s@),
{
    let chars = chars_of(s);
    let mut done: Vec<String> = Vec::new();
    let mut current = String::new();
    let mut i: usize = 0;
    while i < chars.len()
        invariant
            0 <= i <= chars@.len(),
            chars@ == s@,
            (views(done@), current@) == lines_state(s@.take(i as int)),
        decreases chars@.len() - i,
    {
        assert(s@.take(i + 1).drop_last() == s@.take(i as int));
        let c = chars[i];
        if c == '\n' {
            let ended = if ends_with_cr(&current) {
                let all = chars_of(current.as_str());
                string_of_range(&all, 0, all.len() - 1)
            } else {
                current
            };
            let ghost before = done@;
            done.push(ended);
            assert(views(done@) == views(before).push(ended@));
            current = String::new();
        } else {
            push_char(&mut current, c);
        }
        i = i + 1;
    }
    assert(s@.take(chars@.len() as int) == s@);
    if !current.as_str().is_empty() {
        let ghost before = done@;
        done.push(current);
        assert(views(done@) == views(before).push(current@));
    }
    done
}

/// Whether `s` ends with a carriage return.
fn ends_with_cr(s: &String) -> (r: bool)
    ensures
        r == (s@.len() > 0 && s@.last() == '\r'),
{
    let chars = chars_of(s.as_str());
    chars.len() > 0 && chars[chars.len() - 1] == '\r'
}

/// The documentation lines a list of `#[doc = "..."]` values holds, each split into lines and
/// trimmed, with the index of the value each line came from.
pub fn doc_lines_with_origins(values: &Vec<String>) -> (r: (Vec<String>, Vec<usize>))
    ensures
        views(r.0@) == doc_lines_seq(views(values@)),
        r.1@.map_values(|k: usize| k as int) == doc_origins_seq(views(values@)),
{
    let ghost all = views(values@);
    let mut lines: Vec<String> = Vec::new();
    let mut origins: Vec<usize> = Vec::new();
    let mut v: usize = 0;
    while v < values.len()
        invariant
            0 <= v <= values@.len(),
            all == views(values@),
            views(lines@) == doc_lines_seq(all.take(v as int)),
            origins@.map_values(|k: usize| k as int) == doc_origins_seq(all.take(v as int)),
        decreases values@.len() - v,
    {
        let ghost p = all.take(v + 1);
        assert(p.drop_last() == all.take(v as int));
        assert(p.last() == values@[v as int]@);
        let split = lines_of(values[v].as_str());
        let ghost lines_before = views(lines@);
        let ghost origins_before = origins@.map_values(|k: usize| k as int);
        let mut k: usize = 0;
        while k < split.len()
            invariant
                0 <= k <= split@.len(),
                views(lines@) == lines_before + views(split@).take(k as int).map_values(
                    |line: Seq<char>| trim_seq(line),
                ),
                origins@.map_values(|o: usize| o as int) == origins_before + Seq::new(
                    k as nat,
                    |j: int| v as int,
                ),
            decreases split@.len() - k,
        {
            let trimmed = trim(split[k].as_str());
            let ghost lb = lines@;
            let ghost ob = origins@;
            lines.push(trimmed);
            origins.push(v);
            assert(views(split@).take(k + 1) == views(split@).take(k as int).push(split@[k as int]@));
            assert(views(lines@) == views(lb).push(trimmed@));
            assert(views(lines@) =~= lines_before + views(split@).take(k + 1).map_values(
                |line: Seq<char>| trim_seq(line),
            ));
            assert(origins@.map_values(|o: usize| o as int) == ob.map_values(|o: usize| o as int).push(v as int));
            assert(origins@.map_values(|o: usize| o as int) =~= origins_before + Seq::new(
                (k + 1) as nat,
                |j: int| v as int,
            ));
            k = k + 1;
        }
        assert(views(split@).take(split@.len() as int) == views(split@));
        v = v + 1;
    }
    assert(all.take(values@.len() as int) == all);
    (lines, origins)
}

/// The value of a `#[doc = "..."]` attribute, or `None` for any other attribute.
pub open spec fn doc_value_of(attribute: syn::Attribute) -> Option<Seq<char>> {
    if attribute_name_of(attribute) == Some("doc"@) {
        match meta_value_of(attribute_meta_of(attribute)) {
            Some(Some(expr)) => expr_string_of(expr),
            _ => None,
        }
    } else {
        None
    }
}

/// The `#[doc = "..."]` values among the attributes, in order.
pub open spec fn doc_values_of(attrs: Seq<syn::Attribute>) -> Seq<Seq<char>>
    decreases attrs.len(),
{
    if attrs.len() == 0 {
        Seq::empty()
    } else {
        match doc_value_of(attrs.last()) {
            Some(value) => doc_values_of(attrs.drop_last()).push(value),
            None => doc_values_of(attrs.drop_last()),
        }
    }
}

/// Where each `#[doc = "..."]` value among the attributes was written, in order.
pub open spec fn doc_spans_of(attrs: Seq<syn::Attribute>) -> Seq<proc_macro2::Span>
    decreases attrs.len(),
{
    if attrs.len() == 0 {
        Seq::empty()
    } else {
        match doc_value_of(attrs.last()) {
            Some(_) => doc_spans_of(attrs.drop_last()).push(attribute_span_of(attrs.last())),
            None => doc_spans_of(attrs.drop_last()),
        }
    }
}

/// The `#[doc = "..."]` values among the attributes, in order, with where each was written.
pub fn doc_values(attrs: &[syn::Attribute]) -> (r: (Vec<String>, Vec<proc_macro2::Span>))
    ensures
        views(r.0@) == doc_values_of(attrs@),
        r.1@ == doc_spans_of(attrs@),
        r.0@.len() == r.1@.len(),
{
    let mut values: Vec<String> = Vec::new();
    let mut spans: Vec<proc_macro2::Span> = Vec::new();
    let mut i: usize = 0;
    while i < attrs.len()
        invariant
            0 <= i <= attrs@.len(),
            values@.len() == spans@.len(),
            views(values@) == doc_values_of(attrs@.take(i as int)),
            spans@ == doc_spans_of(attrs@.take(i as int)),
        decreases attrs@.len() - i,
    {
        let attr = &attrs[i];
        proof {
            assert(attrs@.take(i + 1).drop_last() == attrs@.take(i as int));
            assert(attrs@.take(i + 1).last() == *attr);
            reveal_strlit("doc");
        }
        let is_doc = match attribute_name(attr) {
            Some(name) => str_eq(name.as_str(), "doc"),
            None => false,
        };
        let ghost before = values@;
        if is_doc {
            let meta = attribute_meta(attr);
            match meta_value(&meta) {
                Some(Some(expr)) => match expr_string(&expr) {
                    Some(text) => {
                        values.push(text);
                        spans.push(attribute_span(attr));
                        assert(views(values@) =~= views(before).push(text@));
                    },
                    None => {},
                },
                _ => {},
            }
        }
        i = i + 1;
    }
    assert(attrs@.take(attrs@.len() as int) == attrs@);
    (values, spans)
}

/// The documentation lines a list of `#[doc = "..."]` values holds, or `None` where it holds
/// none.
pub fn doc_lines(values: &Vec<String>) -> (r: Option<Vec<String>>)
    ensures
        match r {
            Some(lines) => views(lines@) == doc_lines_seq(views(values@)) && lines@.len() > 0,
            None => doc_lines_seq(views(values@)).len() == 0,
        },
{
    let (lines, _) = doc_lines_with_origins(values);
    if lines.len() == 0 {
        None
    } else {
        Some(lines)
    }
}

/// The documentation lines a list of `#[doc = "..."]` values holds, or `None` where it holds none.
pub open spec fn doc_lines_outcome(values: Seq<Seq<char>>) -> Option<Seq<Seq<char>>> {
    if doc_lines_seq(values).len() == 0 {
        None
    } else {
        Some(doc_lines_seq(values))
    }
}

/// The lines a reading of documentation gave, as text.
pub open spec fn lines_view(read: Option<Vec<String>>) -> Option<Seq<Seq<char>>> {
    match read {
        Some(lines) => Some(views(lines@)),
        None => None,
    }
}


/// The documentation comments written among `attrs`, one entry per line, trimmed: `None` where
/// there are none.
fn collect_doc_lines(attrs: &[syn::Attribute]) -> (r: Option<Vec<String>>)
    ensures
        r is Some ==> r->Some_0@.len() > 0,
        lines_view(r) == doc_lines_outcome(doc_values_of(attrs@)),
{
    let (values, _) = doc_values(attrs);
    let r = doc_lines(&values);
    assert(doc_lines_outcome(views(values@)) == lines_view(r));
    r
}

/// The documentation lines written among an item's attributes.
pub fn get_item_docs(attrs: &[syn::Attribute]) -> (r: Option<Vec<String>>)
    ensures
        r is Some ==> r->Some_0@.len() > 0,
        lines_view(r) == doc_lines_outcome(doc_values_of(attrs@)),
{
    collect_doc_lines(attrs)
}

/// The documentation lines written on a struct.
pub fn get_struct_docs(item_struct: &syn::ItemStruct) -> (r: Option<Vec<String>>)
    ensures
        r is Some ==> r->Some_0@.len() > 0,
        lines_view(r) == doc_lines_outcome(doc_values_of(struct_attributes_of(*item_struct))),
{
    collect_doc_lines(struct_attributes(item_struct).as_slice())
}

/// The documentation lines written on an enum.
pub fn get_enum_docs(item_enum: &syn::ItemEnum) -> (r: Option<Vec<String>>)
    ensures
        r is Some ==> r->Some_0@.len() > 0,
        lines_view(r) == doc_lines_outcome(doc_values_of(enum_attributes_of(*item_enum))),
{
    collect_doc_lines(enum_attributes(item_enum).as_slice())
}

/// The documentation lines written on an enum variant.
pub fn get_variant_docs(variant: &syn::Variant) -> (r: Option<Vec<String>>)
    ensures
        r is Some ==> r->Some_0@.len() > 0,
        lines_view(r) == doc_lines_outcome(doc_values_of(variant_attributes_of(*variant))),
{
    collect_doc_lines(variant_attributes(variant).as_slice())
}

/// The documentation lines written on a field.
pub fn get_field_docs(field: &syn::Field) -> (r: Option<Vec<String>>)
    ensures
        r is Some ==> r->Some_0@.len() > 0,
        lines_view(r) == doc_lines_outcome(doc_values_of(field_attributes_of(*field))),
{
    collect_doc_lines(field_attributes(field).as_slice())
}

/// Where in `docs` the first example's lines are, in order: the lines [`example_state`] collects.
pub fn example_lines_at(docs: &Vec<String>) -> (r: Vec<usize>)
    ensures
        forall|k: int| 0 <= k < r@.len() ==> r@[k] < docs@.len(),
        r@.map_values(|i: usize| docs@[i as int]@) == example_state(views(docs@)).1,
{
    let mut in_example_block = false;
    let mut at: Vec<usize> = Vec::new();
    let mut i: usize = 0;
    let ghost all = views(docs@);
    assert(all.take(all.len() as int) == all);
    while i < docs.len()
        invariant_except_break
            (in_example_block, at@.map_values(|j: usize| docs@[j as int]@), false)
                == example_state(all.take(i as int)),
        invariant
            0 <= i <= docs@.len(),
            all == views(docs@),
            all.take(all.len() as int) == all,
            forall|k: int| 0 <= k < at@.len() ==> at@[k] < docs@.len(),
        ensures
            at@.map_values(|j: usize| docs@[j as int]@) == example_state(all).1,
        decreases docs@.len() - i,
    {
        let line = &docs[i];
        proof {
            let p = all.take(i + 1);
            assert(p.drop_last() == all.take(i as int));
            assert(p.last() == line@);
        }
        let cleaned = cleaned(line.as_str());
        if str_eq(cleaned.as_str(), "```rust example") {
            if at.len() > 0 {
                proof {
                    lemma_example_state_stays_stopped(all, i as int + 1);
                }
                break;
            }
            in_example_block = true;
        } else if in_example_block && str_eq(cleaned.as_str(), "```") {
            proof {
                lemma_example_state_stays_stopped(all, i as int + 1);
            }
            break;
        } else if in_example_block {
            let ghost before = at@;
            at.push(i);
            assert(at@.map_values(|j: usize| docs@[j as int]@) == before.map_values(
                |j: usize| docs@[j as int]@,
            ).push(line@));
        }
        i = i + 1;
    }
    at
}

/// Every line a value gives comes from a value that is there.
pub proof fn lemma_doc_origins_in_range(values: Seq<Seq<char>>)
    ensures
        doc_origins_seq(values).len() == doc_lines_seq(values).len(),
        forall|k: int|
            0 <= k < doc_origins_seq(values).len() ==> 0 <= #[trigger] doc_origins_seq(values)[k]
                < values.len(),
    decreases values.len(),
{
    if values.len() > 0 {
        lemma_doc_origins_in_range(values.drop_last());
    }
}


/// Doc lines that open no ` ```rust example ` fence are published as they are, and carry no
/// example.
pub proof fn lemma_docs_without_a_fence_are_kept_whole(docs: Seq<Seq<char>>)
    requires
        forall|i: int| 0 <= i < docs.len() ==> cleaned_seq(#[trigger] docs[i]) != opening_fence(),
    ensures
        stripped_seq(docs) == docs,
        example_seq(docs) is None,
{
    lemma_strip_state_without_a_fence(docs);
    lemma_example_state_without_a_fence(docs);
}

proof fn lemma_strip_state_without_a_fence(docs: Seq<Seq<char>>)
    requires
        forall|i: int| 0 <= i < docs.len() ==> cleaned_seq(#[trigger] docs[i]) != opening_fence(),
    ensures
        strip_state(docs) == (docs, false),
    decreases docs.len(),
{
    if docs.len() > 0 {
        let prefix = docs.drop_last();
        assert forall|i: int| 0 <= i < prefix.len() implies cleaned_seq(#[trigger] prefix[i])
            != opening_fence() by {
            assert(prefix[i] == docs[i]);
        }
        lemma_strip_state_without_a_fence(prefix);
        assert(cleaned_seq(docs[docs.len() - 1]) != opening_fence());
        assert(prefix.push(docs.last()) =~= docs);
    }
}

proof fn lemma_example_state_without_a_fence(docs: Seq<Seq<char>>)
    requires
        forall|i: int| 0 <= i < docs.len() ==> cleaned_seq(#[trigger] docs[i]) != opening_fence(),
    ensures
        example_state(docs) == (false, Seq::<Seq<char>>::empty(), false),
    decreases docs.len(),
{
    if docs.len() > 0 {
        let prefix = docs.drop_last();
        assert forall|i: int| 0 <= i < prefix.len() implies cleaned_seq(#[trigger] prefix[i])
            != opening_fence() by {
            assert(prefix[i] == docs[i]);
        }
        lemma_example_state_without_a_fence(prefix);
        assert(cleaned_seq(docs[docs.len() - 1]) != opening_fence());
    }
}

/// Docs holding nothing but an example leave a type named by its fallback, as undocumented docs
/// do.
pub proof fn lemma_example_only_docs_fall_back_to_the_name(docs: Seq<Seq<char>>, fallback: Seq<char>)
    requires
        stripped_seq(docs).len() == 0,
    ensures
        jsdoc_seq(docs, fallback) == " * "@ + fallback + "\n * "@,
{
}


/// What [`strip_state`] keeps never opens a fence.
proof fn lemma_kept_lines_open_no_fence(docs: Seq<Seq<char>>)
    ensures
        forall|i: int|
            0 <= i < strip_state(docs).0.len() ==> cleaned_seq(#[trigger] strip_state(docs).0[i])
                != opening_fence(),
    decreases docs.len(),
{
    if docs.len() > 0 {
        lemma_kept_lines_open_no_fence(docs.drop_last());
        let kept = strip_state(docs.drop_last()).0;
        let now = strip_state(docs).0;
        assert forall|i: int| 0 <= i < now.len() implies cleaned_seq(#[trigger] now[i])
            != opening_fence() by {
            if i < kept.len() {
                assert(now[i] == kept[i]);
            }
        }
    }
}

/// A description stripped of its examples carries none: every example block is taken out whole,
/// so nothing left opens one.
pub proof fn lemma_stripped_docs_hold_no_example(docs: Seq<Seq<char>>)
    ensures
        example_seq(stripped_seq(docs)) is None,
        stripped_seq(stripped_seq(docs)) == stripped_seq(docs),
{
    lemma_kept_lines_open_no_fence(docs);
    lemma_docs_without_a_fence_are_kept_whole(stripped_seq(docs));
}

/// Whether doc line `j` opens an example block.
pub open spec fn opens_example(docs: Seq<Seq<char>>, j: int) -> bool {
    cleaned_seq(docs[j]) == opening_fence()
}

/// Whether doc line `k` closes a block.
pub open spec fn closes_block(docs: Seq<Seq<char>>, k: int) -> bool {
    cleaned_seq(docs[k]) == closing_fence()
}

/// Whether the lines up to and including `i` leave an example block open: some line at or before
/// `i` opens one, and no line after it, up to `i`, closes it.
pub open spec fn block_open_after(docs: Seq<Seq<char>>, i: int) -> bool {
    exists|j: int|
        0 <= j <= i && #[trigger] opens_example(docs, j) && forall|k: int|
            j < k <= i ==> !#[trigger] closes_block(docs, k)
}

/// Whether stripping keeps doc line `i`: it opens no block, and no block is open before it.
pub open spec fn line_kept(docs: Seq<Seq<char>>, i: int) -> bool {
    !opens_example(docs, i) && !block_open_after(docs, i - 1)
}

/// The positions `at` pick, in increasing order, exactly the lines among the first `n` that
/// stripping keeps, and `lines` are those lines.
pub open spec fn picks_kept_lines(docs: Seq<Seq<char>>, n: int, lines: Seq<Seq<char>>, at: Seq<int>) -> bool {
    &&& at.len() == lines.len()
    &&& forall|t: int| 0 <= t < at.len() ==> 0 <= #[trigger] at[t] < n && lines[t] == docs[at[t]] && line_kept(docs, at[t])
    &&& forall|t: int, u: int| 0 <= t < u < at.len() ==> #[trigger] at[t] < #[trigger] at[u]
    &&& forall|i: int| 0 <= i < n && line_kept(docs, i) ==> #[trigger] at.contains(i)
}

proof fn lemma_strip_state_reads_the_blocks(docs: Seq<Seq<char>>, n: int)
    requires
        0 <= n <= docs.len(),
    ensures
        strip_state(docs.take(n)).1 == block_open_after(docs, n - 1),
        exists|at: Seq<int>| #[trigger] picks_kept_lines(docs, n, strip_state(docs.take(n)).0, at),
    decreases n,
{
    if n == 0 {
        assert(docs.take(0) =~= Seq::<Seq<char>>::empty());
        assert(!block_open_after(docs, -1));
        assert(strip_state(docs.take(0)).0 =~= Seq::<Seq<char>>::empty());
        assert(picks_kept_lines(docs, 0, strip_state(docs.take(0)).0, Seq::<int>::empty()));
    } else {
        lemma_strip_state_reads_the_blocks(docs, n - 1);
        let prefix = docs.take(n);
        assert(prefix.drop_last() =~= docs.take(n - 1));
        assert(prefix.last() == docs[n - 1]);
        let (kept, open_before) = strip_state(docs.take(n - 1));
        let at = choose|at: Seq<int>| #[trigger] picks_kept_lines(docs, n - 1, kept, at);
        let i = n - 1;
        if opens_example(docs, i) {
            assert(block_open_after(docs, i)) by {
                assert(opens_example(docs, i));
            }
        } else if open_before && closes_block(docs, i) {
            assert(!block_open_after(docs, i)) by {
                if block_open_after(docs, i) {
                    let j = choose|j: int|
                        0 <= j <= i && #[trigger] opens_example(docs, j) && forall|k: int|
                            j < k <= i ==> !#[trigger] closes_block(docs, k);
                    assert(j != i);
                    assert(!closes_block(docs, i));
                }
            }
        } else if open_before {
            assert(block_open_after(docs, i)) by {
                let j = choose|j: int|
                    0 <= j <= i - 1 && #[trigger] opens_example(docs, j) && forall|k: int|
                        j < k <= i - 1 ==> !#[trigger] closes_block(docs, k);
                assert forall|k: int| j < k <= i implies !#[trigger] closes_block(docs, k) by {
                    if k < i {
                    }
                }
            }
        } else {
            assert(!block_open_after(docs, i)) by {
                if block_open_after(docs, i) {
                    let j = choose|j: int|
                        0 <= j <= i && #[trigger] opens_example(docs, j) && forall|k: int|
                            j < k <= i ==> !#[trigger] closes_block(docs, k);
                    assert(j != i);
                    assert(forall|k: int| j < k <= i - 1 ==> !#[trigger] closes_block(docs, k));
                    assert(block_open_after(docs, i - 1));
                }
            }
        }
        let kept_now = !opens_example(docs, i) && !open_before;
        assert(line_kept(docs, i) == kept_now);
        if kept_now {
            let more = at.push(i);
            assert(strip_state(prefix).0 == kept.push(docs[i]));
            assert forall|t: int| 0 <= t < more.len() implies 0 <= #[trigger] more[t] < n && kept.push(docs[i])[t]
                == docs[more[t]] && line_kept(docs, more[t]) by {
                if t < at.len() {
                    assert(more[t] == at[t]);
                }
            }
            assert forall|t: int, u: int| 0 <= t < u < more.len() implies #[trigger] more[t] < #[trigger] more[u] by {
                if u < at.len() {
                    assert(more[t] == at[t] && more[u] == at[u]);
                } else {
                    assert(more[t] == at[t]);
                }
            }
            assert forall|q: int| 0 <= q < n && line_kept(docs, q) implies #[trigger] more.contains(q) by {
                if q < i {
                    assert(at.contains(q));
                    let w = choose|w: int| 0 <= w < at.len() && at[w] == q;
                    assert(more[w] == q);
                } else {
                    assert(more[more.len() - 1] == q);
                }
            }
            assert(picks_kept_lines(docs, n, strip_state(prefix).0, more));
        } else {
            assert(strip_state(prefix).0 == kept);
            assert forall|q: int| 0 <= q < n && line_kept(docs, q) implies #[trigger] at.contains(q) by {
                if q == i {
                    assert(!line_kept(docs, q));
                }
            }
            assert(picks_kept_lines(docs, n, strip_state(prefix).0, at));
        }
    }
}

/// Stripping takes out each line that opens a ` ```rust example ` block and every line after it up
/// to and including the next closing fence (to the end where there is none), and keeps every
/// other line, as written and in order.
pub proof fn lemma_stripping_takes_out_whole_blocks(docs: Seq<Seq<char>>)
    ensures
        exists|at: Seq<int>| #[trigger] picks_kept_lines(docs, docs.len() as int, stripped_seq(docs), at),
{
    lemma_strip_state_reads_the_blocks(docs, docs.len() as int);
    assert(docs.take(docs.len() as int) =~= docs);
    let at = choose|at: Seq<int>| #[trigger] picks_kept_lines(docs, docs.len() as int, strip_state(docs.take(docs.len() as int)).0, at);
    assert(picks_kept_lines(docs, docs.len() as int, stripped_seq(docs), at));
}

/// Where the first example block opens at line `open` and closes at line `close`: no line before
/// it opens one, the lines between are neither fence, and there is at least one of them.
pub open spec fn first_example_block(docs: Seq<Seq<char>>, open: int, close: int) -> bool {
    &&& 0 <= open && open + 1 < close < docs.len()
    &&& forall|i: int| 0 <= i < open ==> !#[trigger] opens_example(docs, i)
    &&& opens_example(docs, open)
    &&& forall|k: int| open < k < close ==> !#[trigger] opens_example(docs, k)
    &&& forall|k: int| open < k < close ==> !#[trigger] closes_block(docs, k)
    &&& closes_block(docs, close)
}

proof fn lemma_example_state_over_the_first_block(docs: Seq<Seq<char>>, open: int, close: int, n: int)
    requires
        first_example_block(docs, open, close),
        0 <= n <= docs.len(),
    ensures
        n <= open ==> example_state(docs.take(n)) == (false, Seq::<Seq<char>>::empty(), false),
        open < n <= close ==> example_state(docs.take(n)) == (true, docs.subrange(open + 1, n), false),
        close < n ==> example_state(docs.take(n)) == (true, docs.subrange(open + 1, close), true),
    decreases n,
{
    if n == 0 {
        assert(docs.take(0) =~= Seq::<Seq<char>>::empty());
    } else {
        lemma_example_state_over_the_first_block(docs, open, close, n - 1);
        let prefix = docs.take(n);
        assert(prefix.drop_last() =~= docs.take(n - 1));
        assert(prefix.last() == docs[n - 1]);
        let i = n - 1;
        if n <= open {
            assert(!opens_example(docs, i));
        } else if n == open + 1 {
            assert(opens_example(docs, i));
            assert(docs.subrange(open + 1, n) =~= Seq::<Seq<char>>::empty());
        } else if n <= close {
            assert(!opens_example(docs, i) && !closes_block(docs, i));
            assert(docs.subrange(open + 1, n) =~= docs.subrange(open + 1, n - 1).push(docs[i]));
        } else if n == close + 1 {
            assert(closes_block(docs, i));
            assert(docs.subrange(open + 1, close).len() > 0);
        }
    }
}

/// Only the first example is returned: where the first ` ```rust example ` block opens at `open`
/// and closes at `close`, the example is the lines between, joined and made to evaluate to its
/// value, whatever the lines after it hold, later examples included.
pub proof fn lemma_only_the_first_example_is_returned(docs: Seq<Seq<char>>, open: int, close: int)
    requires
        first_example_block(docs, open, close),
    ensures
        example_seq(docs) == Some(transformed_seq(join_seq(docs.subrange(open + 1, close), "\n"@))),
{
    lemma_example_state_over_the_first_block(docs, open, close, docs.len() as int);
    assert(docs.take(docs.len() as int) =~= docs);
}

/// Each of `lines` followed by `sep`.
pub open spec fn each_followed_by(lines: Seq<Seq<char>>, sep: Seq<char>) -> Seq<Seq<char>> {
    lines.map_values(|line: Seq<char>| line + sep)
}

proof fn lemma_join_is_each_but_the_last_followed_by_the_separator(lines: Seq<Seq<char>>, sep: Seq<char>)
    requires
        lines.len() > 0,
    ensures
        join_seq(lines, sep) == crate::rename_rule::concatenated(each_followed_by(lines.drop_last(), sep))
            + lines.last(),
    decreases lines.len(),
{
    let before = lines.drop_last();
    if lines.len() == 1 {
        assert(before =~= Seq::<Seq<char>>::empty());
        assert(each_followed_by(before, sep) =~= Seq::<Seq<char>>::empty());
        assert(Seq::<char>::empty() + lines.last() =~= lines[0]);
    } else {
        lemma_join_is_each_but_the_last_followed_by_the_separator(before, sep);
        let all = each_followed_by(before, sep);
        assert(all.drop_last() =~= each_followed_by(before.drop_last(), sep));
        assert(all.last() == before.last() + sep);
        assert(crate::rename_rule::concatenated(each_followed_by(before.drop_last(), sep)) + before.last()
            + sep + lines.last() =~= crate::rename_rule::concatenated(each_followed_by(before.drop_last(), sep))
            + (before.last() + sep) + lines.last());
    }
}

/// A described item's `JSDoc` body is every line of its description, examples taken out, each
/// written ` * ` + line and ended with a line break, in order, and then a closing ` * ` — one line
/// per described line and one more.
pub proof fn lemma_jsdoc_writes_every_described_line(docs: Seq<Seq<char>>, fallback: Seq<char>)
    requires
        stripped_seq(docs).len() > 0,
    ensures
        jsdoc_seq(docs, fallback) == crate::rename_rule::concatenated(
            stripped_seq(docs).map_values(|line: Seq<char>| " * "@ + line + "\n"@),
        ) + " * "@,
{
    let described = stripped_seq(docs);
    let written = described.map_values(|line: Seq<char>| jsdoc_line(line)).push(" * "@);
    lemma_join_is_each_but_the_last_followed_by_the_separator(written, "\n"@);
    assert(written.drop_last() =~= described.map_values(|line: Seq<char>| jsdoc_line(line)));
    assert(each_followed_by(written.drop_last(), "\n"@) =~= described.map_values(
        |line: Seq<char>| " * "@ + line + "\n"@,
    ));
}

/// An item whose docs describe nothing once examples are taken out — none at all, or only an
/// example — is described by its own name: ` * <name>`, a line break, and a closing ` * `.
pub proof fn lemma_jsdoc_names_an_undescribed_item(docs: Seq<Seq<char>>, fallback: Seq<char>)
    requires
        stripped_seq(docs).len() == 0,
    ensures
        jsdoc_seq(docs, fallback) == " * "@ + fallback + "\n * "@,
{
}

} // verus!
