//! Splicing a regex between the `/` delimiters of a JavaScript regex literal.

use crate::text::{chars_of, push_char};
use vstd::prelude::*;

verus! {

/// The escape body a JavaScript regex literal spells a line terminator with, i.e. what follows the
/// backslash. The literal grammar excludes a raw line terminator outright, both on its own and as
/// the character a backslash escapes, so these are the only spellings available.
pub open spec fn line_terminator_escape(ch: char) -> Option<Seq<char>> {
    if ch == '\n' {
        Some("n"@)
    } else if ch == '\r' {
        Some("r"@)
    } else if ch == '\u{2028}' {
        Some("u2028"@)
    } else if ch == '\u{2029}' {
        Some("u2029"@)
    } else {
        None
    }
}

pub open spec fn is_line_terminator(ch: char) -> bool {
    line_terminator_escape(ch) is Some
}

/// What follows a backslash that escaped `ch`: the terminator's escape body, or `ch` itself.
pub open spec fn escaped_body(ch: char) -> Seq<char> {
    match line_terminator_escape(ch) {
        Some(body) => body,
        None => seq![ch],
    }
}

/// `pattern` escaped for a JavaScript regex literal, read from the front: a backslash escape is
/// consumed whole, a bare `/` becomes `\/`, and a raw line terminator becomes its escape.
pub open spec fn escaped_seq(pattern: Seq<char>) -> Seq<char>
    decreases pattern.len(),
{
    if pattern.len() == 0 {
        Seq::empty()
    } else {
        let ch = pattern[0];
        if ch == '\\' {
            if pattern.len() >= 2 {
                seq!['\\'] + escaped_body(pattern[1]) + escaped_seq(pattern.skip(2))
            } else {
                seq!['\\']
            }
        } else if ch == '/' {
            seq!['\\', '/'] + escaped_seq(pattern.skip(1))
        } else if is_line_terminator(ch) {
            seq!['\\'] + escaped_body(ch) + escaped_seq(pattern.skip(1))
        } else {
            seq![ch] + escaped_seq(pattern.skip(1))
        }
    }
}

/// The escape body of a line terminator, or `None` for any other character.
pub fn js_line_terminator_escape(ch: char) -> (r: Option<&'static str>)
    ensures
        match r {
            Some(body) => line_terminator_escape(ch) == Some(body@),
            None => line_terminator_escape(ch) is None,
        },
{
    if ch == '\n' {
        Some("n")
    } else if ch == '\r' {
        Some("r")
    } else if ch == '\u{2028}' {
        Some("u2028")
    } else if ch == '\u{2029}' {
        Some("u2029")
    } else {
        None
    }
}

fn push_escaped_body(result: &mut String, ch: char)
    ensures
        final(result)@ == old(result)@ + escaped_body(ch),
{
    match js_line_terminator_escape(ch) {
        Some(body) => result.append(body),
        None => {
            push_char(result, ch);
            assert(old(result)@.push(ch) == old(result)@ + seq![ch]);
        },
    }
}

/// Escapes a regex pattern for splicing between the `/` delimiters of a JavaScript regex literal.
///
/// The pattern is already a regex, so what needs work is what the literal syntax alone gives a
/// meaning to: the `/` delimiter, which becomes `\/`, and a raw line terminator, which the literal
/// cannot carry at all and so becomes its escape. A backslash escape is consumed whole, which keeps
/// an authored `\/` from gaining a second backslash and keeps a literal `\\` from being read as the
/// escape for the `/` that follows it. A backslash before a raw line terminator is an identity
/// escape, and the escape form denotes that same character.
pub fn escape_js_regex_literal(pattern: &str) -> (r: String)
    ensures
        r@ == escaped_seq(pattern@),
{
    let chars = chars_of(pattern);
    let n = chars.len();
    let mut result = String::new();
    let mut i: usize = 0;
    assert(chars@.skip(0) == chars@);
    while i < n
        invariant
            0 <= i <= n == chars@.len(),
            chars@ == pattern@,
            result@ + escaped_seq(chars@.skip(i as int)) == escaped_seq(chars@),
        decreases n - i,
    {
        let ch = chars[i];
        let ghost rest = chars@.skip(i as int);
        assert(rest[0] == ch);
        if ch == '\\' {
            push_char(&mut result, '\\');
            if i + 1 < n {
                assert(rest[1] == chars@[i + 1]);
                assert(rest.skip(2) == chars@.skip(i + 2));
                push_escaped_body(&mut result, chars[i + 1]);
                i = i + 2;
            } else {
                i = i + 1;
                assert(chars@.skip(i as int) == Seq::<char>::empty());
            }
        } else if ch == '/' {
            push_char(&mut result, '\\');
            push_char(&mut result, '/');
            assert(rest.skip(1) == chars@.skip(i + 1));
            i = i + 1;
        } else {
            match js_line_terminator_escape(ch) {
                Some(body) => {
                    push_char(&mut result, '\\');
                    result.append(body);
                },
                None => {
                    push_char(&mut result, ch);
                },
            }
            assert(rest.skip(1) == chars@.skip(i + 1));
            i = i + 1;
        }
    }
    assert(chars@.skip(n as int) == Seq::<char>::empty());
    result
}


/// Whether `s` carries no raw line terminator.
pub open spec fn terminator_free(s: Seq<char>) -> bool {
    forall|i: int| 0 <= i < s.len() ==> !is_line_terminator(#[trigger] s[i])
}

proof fn lemma_terminator_free_concat(a: Seq<char>, b: Seq<char>)
    requires
        terminator_free(a),
        terminator_free(b),
    ensures
        terminator_free(a + b),
{
    assert forall|i: int| 0 <= i < (a + b).len() implies !is_line_terminator(#[trigger] (a + b)[i]) by {
        if i < a.len() {
            assert((a + b)[i] == a[i]);
        } else {
            assert((a + b)[i] == b[i - a.len()]);
        }
    }
}

/// What follows an escaping backslash is never a raw line terminator.
proof fn lemma_escaped_body_is_terminator_free(ch: char)
    ensures
        terminator_free(escaped_body(ch)),
{
    reveal_strlit("n");
    reveal_strlit("r");
    reveal_strlit("u2028");
    reveal_strlit("u2029");
}

/// An escaped pattern carries no raw line terminator: every one became its escape.
pub proof fn lemma_escaped_pattern_has_no_raw_line_terminator(pattern: Seq<char>)
    ensures
        terminator_free(escaped_seq(pattern)),
    decreases pattern.len(),
{
    if pattern.len() > 0 {
        let ch = pattern[0];
        if ch == '\\' {
            if pattern.len() >= 2 {
                lemma_escaped_pattern_has_no_raw_line_terminator(pattern.skip(2));
                lemma_escaped_body_is_terminator_free(pattern[1]);
                lemma_terminator_free_concat(seq!['\\'], escaped_body(pattern[1]));
                lemma_terminator_free_concat(
                    seq!['\\'] + escaped_body(pattern[1]),
                    escaped_seq(pattern.skip(2)),
                );
            }
        } else if ch == '/' {
            lemma_escaped_pattern_has_no_raw_line_terminator(pattern.skip(1));
            lemma_terminator_free_concat(seq!['\\', '/'], escaped_seq(pattern.skip(1)));
        } else if is_line_terminator(ch) {
            lemma_escaped_pattern_has_no_raw_line_terminator(pattern.skip(1));
            lemma_escaped_body_is_terminator_free(ch);
            lemma_terminator_free_concat(seq!['\\'], escaped_body(ch));
            lemma_terminator_free_concat(seq!['\\'] + escaped_body(ch), escaped_seq(pattern.skip(1)));
        } else {
            lemma_escaped_pattern_has_no_raw_line_terminator(pattern.skip(1));
            lemma_terminator_free_concat(seq![ch], escaped_seq(pattern.skip(1)));
        }
    }
}


/// A character escaping leaves as it is, wherever it stands.
pub open spec fn passes_through(c: char) -> bool {
    c != '\\' && c != '/' && !is_line_terminator(c)
}

/// A run of characters escaping leaves as they are is left so ahead of anything.
proof fn lemma_escaping_passes_over(run: Seq<char>, rest: Seq<char>)
    requires
        forall|i: int| 0 <= i < run.len() ==> passes_through(#[trigger] run[i]),
    ensures
        escaped_seq(run + rest) == run + escaped_seq(rest),
    decreases run.len(),
{
    if run.len() > 0 {
        let whole = run + rest;
        assert(whole[0] == run[0]);
        assert(whole.skip(1) =~= run.skip(1) + rest);
        lemma_escaping_passes_over(run.skip(1), rest);
        assert(seq![run[0]] + (run.skip(1) + rest) =~= whole);
        assert(seq![run[0]] + run.skip(1) =~= run);
        assert(escaped_seq(whole) =~= seq![run[0]] + (run.skip(1) + escaped_seq(rest)));
    }
}

/// An escape the escaping wrote — a backslash and what follows it — is read back as itself.
proof fn lemma_written_escape_reads_back(follower: char, rest: Seq<char>)
    ensures
        escaped_seq(seq!['\\'] + escaped_body(follower) + rest) == seq!['\\'] + escaped_body(
            follower,
        ) + escaped_seq(rest),
{
    reveal_strlit("n");
    reveal_strlit("r");
    reveal_strlit("u2028");
    reveal_strlit("u2029");
    let body = escaped_body(follower);
    let whole = seq!['\\'] + body + rest;
    if line_terminator_escape(follower) is Some {
        let tail = body.skip(1);
        assert(forall|i: int| 0 <= i < tail.len() ==> passes_through(#[trigger] tail[i]));
        assert(whole[0] == '\\');
        assert(whole[1] == body[0]);
        assert(!is_line_terminator(body[0]));
        assert(escaped_body(body[0]) == seq![body[0]]);
        assert(whole.skip(2) =~= tail + rest);
        lemma_escaping_passes_over(tail, rest);
        assert(seq!['\\'] + seq![body[0]] + (tail + escaped_seq(rest)) =~= seq!['\\'] + body
            + escaped_seq(rest));
    } else {
        assert(body == seq![follower]);
        assert(whole[0] == '\\');
        assert(whole[1] == follower);
        assert(whole.skip(2) =~= rest);
        assert(escaped_body(follower) == seq![follower]);
    }
}

/// Escaping an escaped pattern changes nothing: each escape is consumed whole, so an authored
/// `\/` gains no second backslash and an escaped line terminator stays one escape.
pub proof fn lemma_escaping_is_idempotent(pattern: Seq<char>)
    ensures
        escaped_seq(escaped_seq(pattern)) == escaped_seq(pattern),
    decreases pattern.len(),
{
    if pattern.len() > 0 {
        let ch = pattern[0];
        if ch == '\\' {
            if pattern.len() >= 2 {
                let rest = escaped_seq(pattern.skip(2));
                lemma_escaping_is_idempotent(pattern.skip(2));
                lemma_written_escape_reads_back(pattern[1], rest);
            } else {
                assert(escaped_seq(pattern) == seq!['\\']);
                assert(escaped_seq(seq!['\\']) == seq!['\\']);
            }
        } else if ch == '/' {
            let rest = escaped_seq(pattern.skip(1));
            lemma_escaping_is_idempotent(pattern.skip(1));
            assert(escaped_body('/') == seq!['/']);
            assert(seq!['\\', '/'] =~= seq!['\\'] + escaped_body('/'));
            lemma_written_escape_reads_back('/', rest);
        } else if is_line_terminator(ch) {
            let rest = escaped_seq(pattern.skip(1));
            lemma_escaping_is_idempotent(pattern.skip(1));
            lemma_written_escape_reads_back(ch, rest);
        } else {
            let rest = escaped_seq(pattern.skip(1));
            lemma_escaping_is_idempotent(pattern.skip(1));
            lemma_escaping_passes_over(seq![ch], rest);
        }
    }
}

/// Whether `text`, read from the front with each backslash taken together with the character after
/// it as one escape, meets no `/` outside an escape.
pub open spec fn no_bare_slash(text: Seq<char>) -> bool
    decreases text.len(),
{
    if text.len() == 0 {
        true
    } else if text[0] == '\\' {
        text.len() < 2 || no_bare_slash(text.skip(2))
    } else if text[0] == '/' {
        false
    } else {
        no_bare_slash(text.skip(1))
    }
}

/// Text without a backslash or a `/` can be read past without changing what follows.
proof fn lemma_no_bare_slash_passes_over(run: Seq<char>, rest: Seq<char>)
    requires
        forall|k: int| 0 <= k < run.len() ==> run[k] != '\\' && run[k] != '/',
    ensures
        no_bare_slash(run + rest) == no_bare_slash(rest),
    decreases run.len(),
{
    if run.len() > 0 {
        assert((run + rest).skip(1) =~= run.skip(1) + rest);
        assert((run + rest)[0] == run[0]);
        lemma_no_bare_slash_passes_over(run.skip(1), rest);
    } else {
        assert(run + rest =~= rest);
    }
}

/// A backslash followed by an escape body reads as one escape, and the reading goes on after it.
proof fn lemma_escape_reads_as_one(ch: char, rest: Seq<char>)
    ensures
        no_bare_slash(seq!['\\'] + escaped_body(ch) + rest) == no_bare_slash(rest),
{
    let body = escaped_body(ch);
    let all = seq!['\\'] + body + rest;
    reveal_strlit("n");
    reveal_strlit("r");
    reveal_strlit("u2028");
    reveal_strlit("u2029");
    assert(body.len() >= 1);
    assert(all[0] == '\\');
    assert(all.skip(2) =~= body.skip(1) + rest);
    assert forall|k: int| 0 <= k < body.skip(1).len() implies body.skip(1)[k] != '\\' && body.skip(1)[k] != '/' by {
        reveal_strlit("n");
        reveal_strlit("r");
        reveal_strlit("u2028");
        reveal_strlit("u2029");
    }
    lemma_no_bare_slash_passes_over(body.skip(1), rest);
}

/// An escaped pattern meets no `/` outside an escape: every `/` it holds is written `\/`, so the
/// literal cannot end early.
pub proof fn lemma_escaped_pattern_has_no_bare_slash(pattern: Seq<char>)
    ensures
        no_bare_slash(escaped_seq(pattern)),
    decreases pattern.len(),
{
    if pattern.len() > 0 {
        let ch = pattern[0];
        if ch == '\\' {
            if pattern.len() >= 2 {
                lemma_escaped_pattern_has_no_bare_slash(pattern.skip(2));
                lemma_escape_reads_as_one(pattern[1], escaped_seq(pattern.skip(2)));
            } else {
                assert(escaped_seq(pattern) == seq!['\\']);
            }
        } else if ch == '/' {
            lemma_escaped_pattern_has_no_bare_slash(pattern.skip(1));
            let all = seq!['\\', '/'] + escaped_seq(pattern.skip(1));
            assert(all.skip(2) =~= escaped_seq(pattern.skip(1)));
        } else if is_line_terminator(ch) {
            lemma_escaped_pattern_has_no_bare_slash(pattern.skip(1));
            lemma_escape_reads_as_one(ch, escaped_seq(pattern.skip(1)));
        } else {
            lemma_escaped_pattern_has_no_bare_slash(pattern.skip(1));
            let all = seq![ch] + escaped_seq(pattern.skip(1));
            assert(all.skip(1) =~= escaped_seq(pattern.skip(1)));
        }
    }
}

/// A pattern with no `/` and no line terminator comes back unchanged: there is nothing in it the
/// literal syntax gives a meaning to.
pub proof fn lemma_a_pattern_with_nothing_to_escape_is_unchanged(pattern: Seq<char>)
    requires
        forall|k: int| 0 <= k < pattern.len() ==> pattern[k] != '/' && !is_line_terminator(#[trigger] pattern[k]),
    ensures
        escaped_seq(pattern) == pattern,
    decreases pattern.len(),
{
    if pattern.len() > 0 {
        let ch = pattern[0];
        if ch == '\\' && pattern.len() >= 2 {
            assert(!is_line_terminator(pattern[1]));
            assert forall|k: int| 0 <= k < pattern.skip(2).len() implies pattern.skip(2)[k] != '/'
                && !is_line_terminator(#[trigger] pattern.skip(2)[k]) by {
                assert(pattern.skip(2)[k] == pattern[k + 2]);
            }
            lemma_a_pattern_with_nothing_to_escape_is_unchanged(pattern.skip(2));
            assert(seq!['\\'] + seq![pattern[1]] + pattern.skip(2) =~= pattern);
        } else if ch == '\\' {
            assert(seq!['\\'] =~= pattern);
        } else {
            assert(!is_line_terminator(pattern[0]));
            assert forall|k: int| 0 <= k < pattern.skip(1).len() implies pattern.skip(1)[k] != '/'
                && !is_line_terminator(#[trigger] pattern.skip(1)[k]) by {
                assert(pattern.skip(1)[k] == pattern[k + 1]);
            }
            lemma_a_pattern_with_nothing_to_escape_is_unchanged(pattern.skip(1));
            assert(seq![ch] + pattern.skip(1) =~= pattern);
        }
    }
}

} // verus!
