//! A doc comment's ` ```rust example ` block as the tokens `schema_example()` returns, each run of
//! lines spanned on the doc line it was written on, so a compile error in an example points at
//! that line rather than at the whole item.

use crate::text::{chars_of, push_char, str_eq, trim, trim_seq};
use crate::utils::docs::{
    doc_values_of, doc_lines_seq, doc_lines_with_origins, doc_values, example_lines_at, example_seq, example_state,
    extract_example_from_docs, join_seq, lemma_doc_origins_in_range, views,
};
use vstd::prelude::*;

verus! {

/// `str::parse::<proc_macro2::TokenStream>`: whether `text` lexes as Rust tokens. Inside a macro
/// expansion the compiler's lexer answers and elsewhere proc-macro2's own, so the answer is not
/// stated: what the library does with it is.
#[verifier::external_body]
fn tokens_lex(text: &str) -> bool {
    text.parse::<proc_macro2::TokenStream>().is_ok()
}

/// `str::parse::<proc_macro2::TokenStream>`, then `TokenTree::set_span` on each top-level
/// token: the tokens `text` lexes to, each spanned on `span`, or `None` where it does not lex.
/// Which lexer answers depends on the process, as for [`tokens_lex`], so neither whether tokens
/// come back nor the tokens themselves are stated.
#[verifier::external_body]
fn respanned_tokens(text: &str, span: proc_macro2::Span) -> Option<proc_macro2::TokenStream> {
    let parsed: proc_macro2::TokenStream = text.parse().ok()?;
    let mut respanned = proc_macro2::TokenStream::new();
    for mut tree in parsed {
        tree.set_span(span);
        respanned.extend(std::iter::once(tree));
    }
    Some(respanned)
}

/// `TokenStream::new`.
/// Nothing is stated of the result.
#[verifier::external_body]
fn empty_tokens() -> proc_macro2::TokenStream {
    proc_macro2::TokenStream::new()
}

/// `TokenStream::extend`: `more` appended to `tokens`.
/// Nothing is stated of the change.
#[verifier::external_body]
fn extend_tokens(tokens: &mut proc_macro2::TokenStream, more: proc_macro2::TokenStream) {
    tokens.extend(more);
}

/// `s` split at each `\n` read over a prefix: the pieces ended so far and the one being read.
pub open spec fn pieces_state(s: Seq<char>) -> (Seq<Seq<char>>, Seq<char>)
    decreases s.len(),
{
    if s.len() == 0 {
        (Seq::empty(), Seq::empty())
    } else {
        let (done, current) = pieces_state(s.drop_last());
        if s.last() == '\n' {
            (done.push(current), Seq::empty())
        } else {
            (done, current.push(s.last()))
        }
    }
}

/// `s` split at each `\n`, every piece kept: joining them with `\n` gives `s` back.
pub open spec fn pieces_seq(s: Seq<char>) -> Seq<Seq<char>> {
    let (done, current) = pieces_state(s);
    done.push(current)
}

/// The first example line at or after `from` that reads as `piece` does, white space aside; the
/// example's length where none does.
pub open spec fn home_from(example: Seq<Seq<char>>, piece: Seq<char>, from: int) -> int
    decreases example.len() - from,
{
    if from < 0 || from >= example.len() {
        example.len() as int
    } else if trim_seq(example[from]) == trim_seq(piece) {
        from
    } else {
        home_from(example, piece, from + 1)
    }
}

/// The example line each piece of the example's code was written on, read in order: a piece
/// goes home to the next example line that reads as it does, and a piece the unwrapping rewrote,
/// which reads as no line, to the line the reading stands at.
pub open spec fn homes_from(example: Seq<Seq<char>>, code: Seq<Seq<char>>, from: int) -> Seq<int>
    decreases code.len(),
{
    if code.len() == 0 {
        Seq::empty()
    } else {
        let found = home_from(example, code[0], from);
        if found < example.len() {
            seq![found] + homes_from(example, code.drop_first(), found + 1)
        } else {
            let standing = if from < example.len() {
                from
            } else {
                example.len() - 1
            };
            seq![standing] + homes_from(example, code.drop_first(), from)
        }
    }
}

/// The pieces `code[i..j]` joined back into the text they were split from.
pub open spec fn run_text(code: Seq<Seq<char>>, i: int, j: int) -> Seq<char> {
    join_seq(code.subrange(i, j), "\n"@)
}

/// The runs the pieces fall into from piece `i` on, the run starting at `i` being tried up to
/// piece `j`, given the lexer's answers in the order the texts are asked about: each run is the
/// shortest the lexer accepts, and `None` where the last one is never accepted (or the answers run
/// out).
pub open spec fn runs_scan(code: Seq<Seq<char>>, i: int, j: int, answers: Seq<bool>) -> Option<
    Seq<(int, int)>,
>
    decreases code.len() - j,
{
    if !(0 <= i < j <= code.len()) || answers.len() == 0 {
        None
    } else if answers[0] {
        if j == code.len() {
            Some(seq![(i, j)])
        } else {
            match runs_scan(code, j, j + 1, answers.drop_first()) {
                Some(rest) => Some(seq![(i, j)] + rest),
                None => None,
            }
        }
    } else if j == code.len() {
        None
    } else {
        runs_scan(code, i, j + 1, answers.drop_first())
    }
}

/// The runs the pieces fall into, given the lexer's answers in order.
pub open spec fn runs_seq(code: Seq<Seq<char>>, answers: Seq<bool>) -> Option<Seq<(int, int)>> {
    if code.len() == 0 {
        Some(Seq::empty())
    } else {
        runs_scan(code, 0, 1, answers)
    }
}

/// The first example's code in runs of lines that lex, each with the example line it starts on,
/// given the lexer's answers in order, or `None` where the docs hold no example or its code does
/// not lex.
pub open spec fn example_runs_seq(docs: Seq<Seq<char>>, answers: Seq<bool>) -> Option<
    Seq<(Seq<char>, int)>,
> {
    match example_seq(docs) {
        None => None,
        Some(code) => {
            let pieces = pieces_seq(code);
            let homes = homes_from(example_state(docs).1, pieces, 0);
            match runs_seq(pieces, answers) {
                None => None,
                Some(runs) => Some(
                    runs.map_values(|run: (int, int)| (run_text(pieces, run.0, run.1), homes[run.0])),
                ),
            }
        },
    }
}

/// One run of an example's lines: its text, and the index among the example's lines of the line
/// it starts on.
pub struct ExampleRun {
    pub text: String,
    pub example_line: usize,
}

pub open spec fn run_views(runs: Seq<ExampleRun>) -> Seq<(Seq<char>, int)> {
    runs.map_values(|run: ExampleRun| (run.text@, run.example_line as int))
}

/// `s` split at each `\n`, every piece kept.
pub fn pieces_of(s: &str) -> (r: Vec<String>)
    ensures
        views(r@) == pieces_seq(s@),
{
    let chars = chars_of(s);
    let mut done: Vec<String> = Vec::new();
    let mut current = String::new();
    let mut i: usize = 0;
    while i < chars.len()
        invariant
            0 <= i <= chars@.len(),
            chars@ == s@,
            (views(done@), current@) == pieces_state(s@.take(i as int)),
        decreases chars@.len() - i,
    {
        assert(s@.take(i + 1).drop_last() == s@.take(i as int));
        let c = chars[i];
        if c == '\n' {
            let ghost before = done@;
            done.push(current);
            assert(views(done@) == views(before).push(current@));
            current = String::new();
        } else {
            push_char(&mut current, c);
        }
        i = i + 1;
    }
    assert(s@.take(chars@.len() as int) == s@);
    let ghost before = done@;
    done.push(current);
    assert(views(done@) == views(before).push(current@));
    done
}

/// The home [`home_from`] finds for `piece`.
fn home_of(example: &Vec<String>, piece: &str, from: usize) -> (r: usize)
    ensures
        r == home_from(views(example@), piece@, from as int),
    decreases example@.len() - from,
{
    if from >= example.len() {
        example.len()
    } else {
        let line = trim(example[from].as_str());
        let read = trim(piece);
        if str_eq(line.as_str(), read.as_str()) {
            from
        } else {
            home_of(example, piece, from + 1)
        }
    }
}

/// A home found lies on the example or just past it.
proof fn lemma_home_in_range(example: Seq<Seq<char>>, piece: Seq<char>, from: int)
    requires
        0 <= from,
    ensures
        from <= home_from(example, piece, from) <= example.len() || home_from(example, piece, from)
            == example.len(),
    decreases example.len() - from,
{
    if 0 <= from < example.len() && trim_seq(example[from]) != trim_seq(piece) {
        lemma_home_in_range(example, piece, from + 1);
    }
}

/// Every home lies on the example, where it has a line.
proof fn lemma_homes_in_range(example: Seq<Seq<char>>, code: Seq<Seq<char>>, from: int)
    requires
        0 <= from,
        example.len() > 0,
    ensures
        homes_from(example, code, from).len() == code.len(),
        forall|k: int|
            0 <= k < code.len() ==> 0 <= #[trigger] homes_from(example, code, from)[k]
                < example.len(),
    decreases code.len(),
{
    if code.len() > 0 {
        lemma_home_in_range(example, code[0], from);
        let found = home_from(example, code[0], from);
        if found < example.len() {
            lemma_homes_in_range(example, code.drop_first(), found + 1);
        } else {
            lemma_homes_in_range(example, code.drop_first(), from);
        }
    }
}

/// The homes of every piece, in order.
fn homes_of(example: &Vec<String>, code: &Vec<String>) -> (r: Vec<usize>)
    requires
        example@.len() > 0,
    ensures
        r@.map_values(|h: usize| h as int) == homes_from(views(example@), views(code@), 0),
{
    let ghost ex = views(example@);
    let ghost all = views(code@);
    let mut r: Vec<usize> = Vec::new();
    let mut from: usize = 0;
    let mut k: usize = 0;
    assert(all.subrange(0, all.len() as int) == all);
    assert(r@.map_values(|h: usize| h as int) + homes_from(ex, all, 0) =~= homes_from(ex, all, 0));
    while k < code.len()
        invariant
            0 <= k <= code@.len(),
            ex == views(example@),
            ex.len() > 0,
            all == views(code@),
            from <= example@.len(),
            r@.map_values(|h: usize| h as int) + homes_from(
                ex,
                all.subrange(k as int, all.len() as int),
                from as int,
            ) == homes_from(ex, all, 0),
        decreases code@.len() - k,
    {
        let ghost rest = all.subrange(k as int, all.len() as int);
        let ghost at = from as int;
        assert(rest[0] == code@[k as int]@);
        assert(rest.drop_first() == all.subrange(k + 1, all.len() as int));
        proof {
            lemma_home_in_range(ex, rest[0], from as int);
        }
        let found = home_of(example, code[k].as_str(), from);
        let ghost before = r@.map_values(|h: usize| h as int);
        if found < example.len() {
            r.push(found);
            from = found + 1;
        } else {
            let standing = if from < example.len() {
                from
            } else {
                example.len() - 1
            };
            r.push(standing);
        }
        assert(homes_from(ex, rest, at) == seq![r@.last() as int] + homes_from(
            ex,
            rest.drop_first(),
            from as int,
        ));
        assert(r@.map_values(|h: usize| h as int) == before.push(r@.last() as int));
        assert(r@.map_values(|h: usize| h as int) + homes_from(ex, rest.drop_first(), from as int)
            =~= before + homes_from(ex, rest, at));
        k = k + 1;
    }
    assert(all.subrange(all.len() as int, all.len() as int) =~= Seq::<Seq<char>>::empty());
    assert(r@.map_values(|h: usize| h as int) + Seq::<int>::empty() =~= r@.map_values(
        |h: usize| h as int,
    ));
    r
}

/// The pieces `code[i..j]` joined back with `\n`.
fn run_text_of(code: &Vec<String>, i: usize, j: usize) -> (r: String)
    requires
        i < j <= code@.len(),
    ensures
        r@ == run_text(views(code@), i as int, j as int),
{
    let ghost all = views(code@);
    let mut r = String::new();
    let mut k: usize = i;
    while k < j
        invariant
            i <= k <= j <= code@.len(),
            all == views(code@),
            k > i ==> r@ == join_seq(all.subrange(i as int, k as int), "\n"@),
            k == i ==> r@ == Seq::<char>::empty(),
        decreases j - k,
    {
        let ghost before = r@;
        if k > i {
            r.append("\n");
        }
        r.append(code[k].as_str());
        proof {
            let p = all.subrange(i as int, k + 1);
            assert(p.drop_last() =~= all.subrange(i as int, k as int));
            assert(p.last() == code@[k as int]@);
            if k == i {
                assert(r@ =~= code@[k as int]@);
            }
        }
        k = k + 1;
    }
    r
}

/// A run list prefixed by the runs already found.
pub open spec fn after_runs(found: Seq<(int, int)>, rest: Option<Seq<(int, int)>>) -> Option<Seq<(int, int)>> {
    match rest {
        Some(more) => Some(found + more),
        None => None,
    }
}

pub open spec fn pair_views(pairs: Seq<(usize, usize)>) -> Seq<(int, int)> {
    pairs.map_values(|p: (usize, usize)| (p.0 as int, p.1 as int))
}

/// The runs [`runs_seq`] splits the pieces into, for the answers the lexer gave.
fn runs_of(code: &Vec<String>) -> (r: Option<Vec<(usize, usize)>>)
    ensures
        exists|answers: Seq<bool>|
            match r {
                Some(runs) => #[trigger] runs_seq(views(code@), answers) == Some(pair_views(runs@)),
                None => runs_seq(views(code@), answers) is None,
            },
        r is Some ==> forall|k: int|
            0 <= k < r->Some_0@.len() ==> #[trigger] r->Some_0@[k].0 < r->Some_0@[k].1 <= code@.len(),
{
    let ghost all = views(code@);
    let mut runs: Vec<(usize, usize)> = Vec::new();
    if code.len() == 0 {
        assert(pair_views(runs@) =~= Seq::<(int, int)>::empty());
        assert(runs_seq(all, Seq::empty()) == Some(pair_views(runs@)));
        return Some(runs);
    }
    let mut i: usize = 0;
    let mut j: usize = 1;
    let ghost mut asked: Seq<bool> = Seq::empty();
    assert forall|more: Seq<bool>|
        after_runs(pair_views(runs@), #[trigger] runs_scan(all, 0, 1, more)) == runs_seq(
            all,
            asked + more,
        ) by {
        assert(pair_views(runs@) =~= Seq::<(int, int)>::empty());
        assert(asked + more =~= more);
        match runs_scan(all, 0, 1, more) {
            Some(found) => {
                assert(Seq::<(int, int)>::empty() + found =~= found);
            },
            None => {},
        }
    }
    loop
        invariant
            0 <= i < j <= code@.len(),
            all == views(code@),
            forall|more: Seq<bool>|
                after_runs(pair_views(runs@), #[trigger] runs_scan(all, i as int, j as int, more))
                    == runs_seq(all, asked + more),
            forall|k: int| 0 <= k < runs@.len() ==> #[trigger] runs@[k].0 < runs@[k].1 <= code@.len(),
        decreases code@.len() - j,
    {
        let text = run_text_of(code, i, j);
        let ghost found = pair_views(runs@);
        let ghost before = asked;
        let lexed = tokens_lex(text.as_str());
        proof {
            asked = asked.push(lexed);
        }
        if lexed {
            runs.push((i, j));
            assert(pair_views(runs@) == found.push((i as int, j as int)));
            if j == code.len() {
                proof {
                    let tail = Seq::<bool>::empty();
                    assert(before + (seq![lexed] + tail) =~= asked + tail);
                    assert(asked + tail =~= asked);
                    assert(runs_scan(all, i as int, j as int, seq![lexed] + tail) == Some(seq![(i as int, j as int)]));
                    assert(found + seq![(i as int, j as int)] =~= pair_views(runs@));
                }
                return Some(runs);
            }
            proof {
                assert forall|more: Seq<bool>|
                    after_runs(pair_views(runs@), #[trigger] runs_scan(all, j as int, j + 1, more))
                        == runs_seq(all, asked + more) by {
                    let given = seq![lexed] + more;
                    assert(given.drop_first() =~= more);
                    assert(before + given =~= asked + more);
                    assert(runs_scan(all, i as int, j as int, given) == match runs_scan(all, j as int, j + 1, more) {
                        Some(rest) => Some(seq![(i as int, j as int)] + rest),
                        None => None,
                    });
                    match runs_scan(all, j as int, j + 1, more) {
                        Some(rest) => {
                            assert(found + (seq![(i as int, j as int)] + rest) =~= pair_views(runs@) + rest);
                        },
                        None => {},
                    }
                }
            }
            i = j;
            j = j + 1;
        } else {
            if j == code.len() {
                proof {
                    let tail = Seq::<bool>::empty();
                    assert(before + (seq![lexed] + tail) =~= asked);
                    assert(runs_scan(all, i as int, j as int, seq![lexed] + tail) is None);
                }
                return None;
            }
            proof {
                assert forall|more: Seq<bool>|
                    after_runs(pair_views(runs@), #[trigger] runs_scan(all, i as int, j + 1, more))
                        == runs_seq(all, asked + more) by {
                    let given = seq![lexed] + more;
                    assert(given.drop_first() =~= more);
                    assert(before + given =~= asked + more);
                    assert(runs_scan(all, i as int, j as int, given) == runs_scan(all, i as int, j + 1, more));
                }
            }
            j = j + 1;
        }
    }
}

/// The first example's code in runs of lines that each lex, every run with the example line it
/// starts on: `None` where the docs hold no example or its code does not lex. The runs are what
/// [`example_runs_seq`] makes of the answers the lexer gave.
pub fn example_runs(docs: &Vec<String>) -> (r: Option<Vec<ExampleRun>>)
    ensures
        exists|answers: Seq<bool>|
            match r {
                Some(runs) => #[trigger] example_runs_seq(views(docs@), answers) == Some(run_views(runs@)),
                None => example_runs_seq(views(docs@), answers) is None,
            },
        r is Some ==> forall|k: int|
            0 <= k < r->Some_0@.len() ==> #[trigger] r->Some_0@[k].example_line
                < example_state(views(docs@)).1.len(),
{
    let ghost all = views(docs@);
    match extract_example_from_docs(docs.as_slice()) {
        None => {
            assert(example_runs_seq(all, Seq::<bool>::empty()) is None);
            None
        },
        Some(code) => {
            let at = example_lines_at(docs);
            let mut example: Vec<String> = Vec::new();
            let mut k: usize = 0;
            while k < at.len()
                invariant
                    0 <= k <= at@.len(),
                    forall|m: int| 0 <= m < at@.len() ==> at@[m] < docs@.len(),
                    views(example@) == at@.take(k as int).map_values(|i: usize| docs@[i as int]@),
                decreases at@.len() - k,
            {
                let line = docs[at[k]].clone();
                let ghost before = example@;
                example.push(line);
                assert(views(example@) == views(before).push(line@));
                assert(at@.take(k + 1).map_values(|i: usize| docs@[i as int]@) =~= at@.take(
                    k as int,
                ).map_values(|i: usize| docs@[i as int]@).push(docs@[at@[k as int] as int]@));
                k = k + 1;
            }
            assert(at@.take(at@.len() as int) == at@);
            assert(views(example@) == example_state(all).1);
            let pieces = pieces_of(code.as_str());
            let homes = homes_of(&example, &pieces);
            proof {
                lemma_homes_in_range(views(example@), views(pieces@), 0);
                let hv = homes@.map_values(|h: usize| h as int);
                assert(hv.len() == homes@.len());
                assert forall|q: int| 0 <= q < homes@.len() implies #[trigger] homes@[q] < example@.len() by {
                    assert(hv[q] == homes@[q] as int);
                }
            }
            let split = runs_of(&pieces);
            let ghost answers = choose|answers: Seq<bool>|
                match split {
                    Some(runs) => #[trigger] runs_seq(views(pieces@), answers) == Some(pair_views(runs@)),
                    None => runs_seq(views(pieces@), answers) is None,
                };
            match split {
                None => {
                    assert(example_runs_seq(all, answers) is None);
                    None
                },
                Some(pairs) => {
                    let ghost runs_spec = pair_views(pairs@);
                    let mut runs: Vec<ExampleRun> = Vec::new();
                    let mut m: usize = 0;
                    while m < pairs.len()
                        invariant
                            0 <= m <= pairs@.len(),
                            runs_spec == pair_views(pairs@),
                            forall|q: int| 0 <= q < pairs@.len() ==> #[trigger] pairs@[q].0 < pairs@[q].1 <= pieces@.len(),
                            homes@.len() == pieces@.len(),
                            forall|q: int| 0 <= q < homes@.len() ==> #[trigger] homes@[q] < example@.len(),
                            homes@.map_values(|h: usize| h as int) == homes_from(views(example@), views(pieces@), 0),
                            run_views(runs@) == runs_spec.take(m as int).map_values(
                                |run: (int, int)| (run_text(views(pieces@), run.0, run.1), homes_from(views(example@), views(pieces@), 0)[run.0]),
                            ),
                            forall|q: int| 0 <= q < runs@.len() ==> #[trigger] runs@[q].example_line < example@.len(),
                        decreases pairs@.len() - m,
                    {
                        let (i, j) = pairs[m];
                        let text = run_text_of(&pieces, i, j);
                        let home = homes[i];
                        assert(home as int == homes_from(views(example@), views(pieces@), 0)[i as int]);
                        let ghost before = runs@;
                        let ghost entry = (text@, home as int);
                        runs.push(ExampleRun { text, example_line: home });
                        assert(runs_spec[m as int] == (i as int, j as int));
                        assert(run_views(runs@) == run_views(before).push(entry));
                        assert(runs_spec.take(m + 1) == runs_spec.take(m as int).push(runs_spec[m as int]));
                        assert(run_views(runs@) =~= runs_spec.take(m + 1).map_values(
                            |run: (int, int)| (run_text(views(pieces@), run.0, run.1), homes_from(views(example@), views(pieces@), 0)[run.0]),
                        ));
                        m = m + 1;
                    }
                    assert(runs_spec.take(pairs@.len() as int) == runs_spec);
                    assert(example_runs_seq(all, answers) == Some(run_views(runs@)));
                    Some(runs)
                },
            }
        },
    }
}

/// The tokens of the first ` ```rust example ` block in the doc comments among `attrs`, made to
/// evaluate to the example's value, each run of lines that lexes spanned on the doc line it starts
/// on: `None` where the comments hold no example or its code does not lex. A value written over
/// several lines has no line of its own, so the whole run takes the span of its first line.
pub fn extract_example_tokens(attrs: &[syn::Attribute]) -> (r: Option<proc_macro2::TokenStream>)
    ensures
        example_seq(doc_lines_seq(doc_values_of(attrs@))) is None ==> r is None,
        r is Some ==> exists|answers: Seq<bool>|
            #[trigger] example_runs_seq(doc_lines_seq(doc_values_of(attrs@)), answers) is Some,
{
    let (values, spans) = doc_values(attrs);
    let (lines, origins) = doc_lines_with_origins(&values);
    proof {
        lemma_doc_origins_in_range(views(values@));
        let ov = origins@.map_values(|k: usize| k as int);
        assert(ov.len() == origins@.len());
        assert forall|q: int| 0 <= q < origins@.len() implies #[trigger] origins@[q] < spans@.len() by {
            assert(ov[q] == origins@[q] as int);
        }
        assert(views(lines@).len() == lines@.len());
    }
    let at = example_lines_at(&lines);
    match example_runs(&lines) {
        None => None,
        Some(runs) => {
            let ghost answers = choose|answers: Seq<bool>|
                #[trigger] example_runs_seq(views(lines@), answers) == Some(run_views(runs@));
            assert(example_runs_seq(doc_lines_seq(views(values@)), answers) is Some);
            assert(example_seq(views(lines@)) is Some);
            let mut tokens = empty_tokens();
            let mut k: usize = 0;
            while k < runs.len()
                invariant
                    0 <= k <= runs@.len(),
                    at@.len() == example_state(views(lines@)).1.len(),
                    forall|q: int| 0 <= q < runs@.len() ==> #[trigger] runs@[q].example_line < at@.len(),
                    forall|q: int| 0 <= q < at@.len() ==> #[trigger] at@[q] < lines@.len(),
                    origins@.len() == lines@.len(),
                    forall|q: int| 0 <= q < origins@.len() ==> #[trigger] origins@[q] < spans@.len(),
                decreases runs@.len() - k,
            {
                let run = &runs[k];
                let line = at[run.example_line];
                let span = spans[origins[line]];
                match respanned_tokens(run.text.as_str(), span) {
                    Some(more) => extend_tokens(&mut tokens, more),
                    None => {
                        return None;
                    },
                }
                k = k + 1;
            }
            Some(tokens)
        },
    }
}

} // verus!
