//! What a `pattern` says about the values it is checked against: whether it turns any value away
//! at all, and whether it is a plain text test a regex engine is avoidable work for.

use crate::syntax::{error_messages_of, error_on_literal, literal_span_of};
use crate::text::push_char;
use crate::utils::pattern::{parse_pattern, pattern_syntax, Anchor, PatternNode, RepeatKind};
use crate::utils::portable::result_view;
use vstd::prelude::*;

verus! {

/// Whether a repetition may occur zero times.
pub open spec fn may_skip(kind: RepeatKind) -> bool {
    match kind {
        RepeatKind::ZeroOrOne | RepeatKind::ZeroOrMore => true,
        RepeatKind::OneOrMore => false,
        RepeatKind::Exactly(m) => m == 0,
        RepeatKind::AtLeast(m) => m == 0,
        RepeatKind::Bounded(m, _) => m == 0,
    }
}

/// Whether an assertion holds at the start (`at_start`) or at the end of every string.
pub open spec fn anchor_holds(a: Anchor, at_start: bool) -> bool {
    if at_start {
        a == Anchor::StartLine || a == Anchor::StartText
    } else {
        a == Anchor::EndLine || a == Anchor::EndText
    }
}

/// Whether `node` matches the empty string at the start (`at_start`) or at the end of every
/// string, whatever the string holds.
pub open spec fn empty_at(node: PatternNode, at_start: bool) -> bool
    decreases node,
{
    match node {
        PatternNode::Empty | PatternNode::Flags => true,
        PatternNode::Assertion(a) => anchor_holds(a, at_start),
        PatternNode::Repetition { kind, node } => may_skip(kind) || empty_at(*node, at_start),
        PatternNode::Group { node, .. } => empty_at(*node, at_start),
        PatternNode::Alternation(nodes) => any_empty_at(nodes@, at_start),
        PatternNode::Concat(nodes) => all_empty_at(nodes@, at_start),
        _ => false,
    }
}

pub open spec fn any_empty_at(nodes: Seq<PatternNode>, at_start: bool) -> bool
    decreases nodes,
{
    nodes.len() > 0 && (any_empty_at(nodes.drop_last(), at_start) || empty_at(nodes.last(), at_start))
}

pub open spec fn all_empty_at(nodes: Seq<PatternNode>, at_start: bool) -> bool
    decreases nodes,
{
    nodes.len() == 0 || (all_empty_at(nodes.drop_last(), at_start) && empty_at(nodes.last(), at_start))
}

/// A pattern admits every value where it matches at some position of every string: at its start
/// or at its end, with nothing consumed.
pub open spec fn admits_every_value(node: PatternNode) -> bool {
    empty_at(node, true) || empty_at(node, false)
}

fn empty_matched(node: &PatternNode, at_start: bool) -> (r: bool)
    ensures
        r == empty_at(*node, at_start),
    decreases node,
{
    match node {
        PatternNode::Empty | PatternNode::Flags => true,
        PatternNode::Assertion(a) => if at_start {
            *a == Anchor::StartLine || *a == Anchor::StartText
        } else {
            *a == Anchor::EndLine || *a == Anchor::EndText
        },
        PatternNode::Repetition { kind, node: inner } => {
            let skips = match kind {
                RepeatKind::ZeroOrOne | RepeatKind::ZeroOrMore => true,
                RepeatKind::OneOrMore => false,
                RepeatKind::Exactly(m) => *m == 0,
                RepeatKind::AtLeast(m) => *m == 0,
                RepeatKind::Bounded(m, _) => *m == 0,
            };
            skips || empty_matched(inner, at_start)
        },
        PatternNode::Group { node: inner, .. } => empty_matched(inner, at_start),
        PatternNode::Alternation(nodes) => any_matched(nodes, at_start),
        PatternNode::Concat(nodes) => all_matched(nodes, at_start),
        _ => false,
    }
}

fn any_matched(nodes: &Vec<PatternNode>, at_start: bool) -> (r: bool)
    ensures
        r == any_empty_at(nodes@, at_start),
    decreases nodes,
{
    let mut any = false;
    let mut i: usize = 0;
    while i < nodes.len()
        invariant
            0 <= i <= nodes@.len(),
            any == any_empty_at(nodes@.take(i as int), at_start),
        decreases nodes@.len() - i,
    {
        assert(nodes@.take(i + 1).drop_last() == nodes@.take(i as int));
        let here = empty_matched(&nodes[i], at_start);
        any = any || here;
        i = i + 1;
    }
    assert(nodes@.take(nodes@.len() as int) == nodes@);
    any
}

fn all_matched(nodes: &Vec<PatternNode>, at_start: bool) -> (r: bool)
    ensures
        r == all_empty_at(nodes@, at_start),
    decreases nodes,
{
    let mut all = true;
    let mut i: usize = 0;
    while i < nodes.len()
        invariant
            0 <= i <= nodes@.len(),
            all == all_empty_at(nodes@.take(i as int), at_start),
        decreases nodes@.len() - i,
    {
        assert(nodes@.take(i + 1).drop_last() == nodes@.take(i as int));
        let here = empty_matched(&nodes[i], at_start);
        all = all && here;
        i = i + 1;
    }
    assert(nodes@.take(nodes@.len() as int) == nodes@);
    all
}

/// Whether the pattern `node` is the syntax tree of matches at some position of every string, so
/// that it constrains nothing.
pub fn unconstraining(node: &PatternNode) -> (r: bool)
    ensures
        r == admits_every_value(*node),
{
    empty_matched(node, true) || empty_matched(node, false)
}

/// The refusal of a pattern that admits every value.
pub open spec fn unconstraining_text() -> Seq<char> {
    "`pattern` admits every value: it matches at some position of every string, so it constrains nothing, and the validator, the Zod schema and the JSON Schema `pattern` keyword would each pass any value they are handed. Drop the `pattern`, or anchor it so it turns some value away."@
}

/// What the second guard answers a portable pattern with: the pattern itself, or the refusal where
/// the `regex` crate's reading of it admits every value.
pub open spec fn constraint_outcome(portable: Seq<char>) -> Result<Seq<char>, Seq<char>> {
    match pattern_syntax(portable) {
        Ok(node) => if admits_every_value(node) {
            Err(unconstraining_text())
        } else {
            Ok(portable)
        },
        Err(_) => Ok(portable),
    }
}

/// The portable spelling of a pattern, handed back where it turns some value away, and refused
/// where it admits every value.
pub fn constraining_spelling(portable: String) -> (r: Result<String, String>)
    ensures
        result_view(r) == constraint_outcome(portable@),
{
    match parse_pattern(portable.as_str()) {
        Ok(node) => if unconstraining(&node) {
            Err(
                String::from_str(
                    "`pattern` admits every value: it matches at some position of every string, so it constrains nothing, and the validator, the Zod schema and the JSON Schema `pattern` keyword would each pass any value they are handed. Drop the `pattern`, or anchor it so it turns some value away.",
                ),
            )
        } else {
            Ok(portable)
        },
        Err(_) => Ok(portable),
    }
}

/// The second `pattern` guard, run on what [`crate::utils::portable::portable_pattern`] handed
/// back: a pattern admitting every value is refused, spanned on the literal the author wrote.
pub fn constraining_pattern(lit: &syn::LitStr, portable: String) -> (r: Result<String, syn::Error>)
    ensures
        r is Ok <==> constraint_outcome(portable@) is Ok,
        r is Ok ==> r->Ok_0@ == portable@,
        match constraint_outcome(portable@) {
            Ok(_) => true,
            Err(message) => r matches Err(error) && error_messages_of(error) == seq![
                (literal_span_of(*lit), literal_span_of(*lit), message),
            ],
        },
{
    match constraining_spelling(portable) {
        Ok(kept) => Ok(kept),
        Err(message) => Err(error_on_literal(lit, message.as_str())),
    }
}

/// The plain text test a pattern amounts to, where a regex engine is avoidable work for it.
#[derive(Debug, PartialEq, Eq)]
pub enum TrivialPattern {
    /// `^abc`
    StartsWith(String),
    /// `abc$`
    EndsWith(String),
    /// `^abc$`
    Equals(String),
    /// `^$`
    IsEmpty,
    /// `abc`
    Contains(String),
}

/// A [`TrivialPattern`] as plain values.
pub enum TrivialTest {
    StartsWith(Seq<char>),
    EndsWith(Seq<char>),
    Equals(Seq<char>),
    IsEmpty,
    Contains(Seq<char>),
}

impl View for TrivialPattern {
    type V = TrivialTest;

    open spec fn view(&self) -> TrivialTest {
        match self {
            TrivialPattern::StartsWith(s) => TrivialTest::StartsWith(s@),
            TrivialPattern::EndsWith(s) => TrivialTest::EndsWith(s@),
            TrivialPattern::Equals(s) => TrivialTest::Equals(s@),
            TrivialPattern::IsEmpty => TrivialTest::IsEmpty,
            TrivialPattern::Contains(s) => TrivialTest::Contains(s@),
        }
    }
}

/// The nodes a pattern concatenates, in order.
pub open spec fn pattern_items(node: PatternNode) -> Seq<PatternNode> {
    match node {
        PatternNode::Concat(nodes) => nodes@,
        PatternNode::Empty => Seq::empty(),
        _ => seq![node],
    }
}

pub open spec fn is_anchor(node: PatternNode, a: Anchor) -> bool {
    node matches PatternNode::Assertion(x) && x == a
}

/// The characters a run of literal nodes spells, or `None` where a node in it is no literal.
pub open spec fn literal_run(items: Seq<PatternNode>) -> Option<Seq<char>>
    decreases items.len(),
{
    if items.len() == 0 {
        Some(Seq::empty())
    } else {
        match (literal_run(items.drop_last()), items.last()) {
            (Some(run), PatternNode::Literal(l)) => Some(run.push(l.c)),
            _ => None,
        }
    }
}

/// The text test a pattern amounts to: a run of literals, under a leading `^`, a trailing `$`,
/// both or neither; `^$` alone is the empty test. A pattern with nothing between its anchors is
/// no text test otherwise, and neither is any pattern holding another construct.
pub open spec fn trivial_reading(node: PatternNode) -> Option<TrivialTest> {
    let items = pattern_items(node);
    let starts = items.len() > 0 && is_anchor(items[0], Anchor::StartLine);
    let rest = if starts {
        items.drop_first()
    } else {
        items
    };
    let ends = rest.len() > 0 && is_anchor(rest.last(), Anchor::EndLine);
    let middle = if ends {
        rest.drop_last()
    } else {
        rest
    };
    trivial_shape(literal_run(middle), starts, ends)
}

/// The text test a literal run amounts to under the anchors around it.
pub open spec fn trivial_shape(run: Option<Seq<char>>, starts: bool, ends: bool) -> Option<TrivialTest> {
    match run {
        None => None,
        Some(needle) => if needle.len() == 0 {
            if starts && ends {
                Some(TrivialTest::IsEmpty)
            } else {
                None
            }
        } else if starts && ends {
            Some(TrivialTest::Equals(needle))
        } else if starts {
            Some(TrivialTest::StartsWith(needle))
        } else if ends {
            Some(TrivialTest::EndsWith(needle))
        } else {
            Some(TrivialTest::Contains(needle))
        },
    }
}

pub open spec fn trivial_view(r: Option<TrivialPattern>) -> Option<TrivialTest> {
    match r {
        Some(t) => Some(t@),
        None => None,
    }
}

fn items_count(node: &PatternNode) -> (r: usize)
    ensures
        r == pattern_items(*node).len(),
{
    match node {
        PatternNode::Concat(nodes) => nodes.len(),
        PatternNode::Empty => 0,
        _ => 1,
    }
}

fn item_at(node: &PatternNode, i: usize) -> (r: &PatternNode)
    requires
        i < pattern_items(*node).len(),
    ensures
        *r == pattern_items(*node)[i as int],
{
    match node {
        PatternNode::Concat(nodes) => &nodes[i],
        _ => node,
    }
}

fn is_anchored(node: &PatternNode, a: Anchor) -> (r: bool)
    ensures
        r == is_anchor(*node, a),
{
    match node {
        PatternNode::Assertion(x) => *x == a,
        _ => false,
    }
}

proof fn lemma_literal_run_extends(items: Seq<PatternNode>, lo: int, i: int)
    requires
        0 <= lo <= i < items.len(),
    ensures
        items.subrange(lo, i + 1).drop_last() == items.subrange(lo, i),
        items.subrange(lo, i + 1).last() == items[i],
{
    assert(items.subrange(lo, i + 1).drop_last() =~= items.subrange(lo, i));
}

proof fn lemma_literal_run_len(items: Seq<PatternNode>)
    requires
        literal_run(items) is Some,
    ensures
        literal_run(items)->Some_0.len() == items.len(),
    decreases items.len(),
{
    if items.len() > 0 {
        lemma_literal_run_len(items.drop_last());
    }
}

/// A run broken by a node that is no literal stays broken however far it is read on.
proof fn lemma_literal_run_stays_broken(items: Seq<PatternNode>, lo: int, i: int, hi: int)
    requires
        0 <= lo <= i < hi <= items.len(),
        literal_run(items.subrange(lo, i + 1)) is None,
    ensures
        literal_run(items.subrange(lo, hi)) is None,
    decreases hi - i,
{
    if hi > i + 1 {
        lemma_literal_run_stays_broken(items, lo, i, hi - 1);
        lemma_literal_run_extends(items, lo, hi - 1);
    }
}

/// The text test the pattern with syntax tree `node` amounts to, as [`trivial_reading`] reads it.
pub fn trivial_of(node: &PatternNode) -> (r: Option<TrivialPattern>)
    ensures
        trivial_view(r) == trivial_reading(*node),
{
    let ghost items = pattern_items(*node);
    let n = items_count(node);
    let starts = n > 0 && is_anchored(item_at(node, 0), Anchor::StartLine);
    let lo: usize = if starts { 1 } else { 0 };
    let ends = n > lo && is_anchored(item_at(node, n - 1), Anchor::EndLine);
    let hi: usize = if ends { n - 1 } else { n };
    proof {
        let rest = if starts { items.drop_first() } else { items };
        assert(rest == items.subrange(lo as int, n as int));
        if rest.len() > 0 {
            assert(rest.last() == items[n - 1]);
        }
        let middle = if ends { rest.drop_last() } else { rest };
        assert(middle == items.subrange(lo as int, hi as int));
    }
    let mut needle = String::new();
    let mut i: usize = lo;
    assert(items.subrange(lo as int, lo as int) =~= Seq::<PatternNode>::empty());
    while i < hi
        invariant
            lo <= i <= hi <= n,
            n == items.len(),
            items == pattern_items(*node),
            literal_run(items.subrange(lo as int, i as int)) == Some(needle@),
            trivial_reading(*node) == trivial_shape(literal_run(items.subrange(lo as int, hi as int)), starts, ends),
        decreases hi - i,
    {
        proof {
            lemma_literal_run_extends(items, lo as int, i as int);
        }
        match item_at(node, i) {
            PatternNode::Literal(l) => {
                push_char(&mut needle, l.c);
            },
            _ => {
                proof {
                    lemma_literal_run_stays_broken(items, lo as int, i as int, hi as int);
                }
                return None;
            },
        }
        i = i + 1;
    }
    assert(needle@.len() == hi - lo) by {
        lemma_literal_run_len(items.subrange(lo as int, hi as int));
    }
    if hi == lo {
        if starts && ends {
            Some(TrivialPattern::IsEmpty)
        } else {
            None
        }
    } else if starts && ends {
        Some(TrivialPattern::Equals(needle))
    } else if starts {
        Some(TrivialPattern::StartsWith(needle))
    } else if ends {
        Some(TrivialPattern::EndsWith(needle))
    } else {
        Some(TrivialPattern::Contains(needle))
    }
}

/// The text test a pattern amounts to, where it is one: `None` for a pattern the `regex` crate's
/// parser refuses, and for every pattern of any other shape.
pub fn trivial_pattern(pattern: &str) -> (r: Option<TrivialPattern>)
    ensures
        trivial_view(r) == match pattern_syntax(pattern@) {
            Ok(node) => trivial_reading(node),
            Err(_) => None,
        },
{
    match parse_pattern(pattern) {
        Ok(node) => trivial_of(&node),
        Err(_) => None,
    }
}


/// Every node of a literal run is a literal.
proof fn lemma_literal_run_holds_literals(items: Seq<PatternNode>)
    requires
        literal_run(items) is Some,
    ensures
        forall|i: int| 0 <= i < items.len() ==> (#[trigger] items[i]) is Literal,
    decreases items.len(),
{
    if items.len() > 0 {
        lemma_literal_run_holds_literals(items.drop_last());
        assert forall|i: int| 0 <= i < items.len() implies (#[trigger] items[i]) is Literal by {
            if i < items.len() - 1 {
                assert(items[i] == items.drop_last()[i]);
            }
        }
    }
}

/// A concatenation matches empty only where each of its nodes does.
proof fn lemma_all_empty_at_each(nodes: Seq<PatternNode>, at_start: bool, i: int)
    requires
        all_empty_at(nodes, at_start),
        0 <= i < nodes.len(),
    ensures
        empty_at(nodes[i], at_start),
    decreases nodes.len(),
{
    if i < nodes.len() - 1 {
        assert(nodes.drop_last()[i] == nodes[i]);
        lemma_all_empty_at_each(nodes.drop_last(), at_start, i);
    }
}

/// A pattern read as a plain text test still turns some value away, so the two guards never part
/// ways over it: every shape [`trivial_reading`] names clears [`admits_every_value`].
pub proof fn lemma_a_text_test_constrains(node: PatternNode)
    requires
        trivial_reading(node) is Some,
    ensures
        !admits_every_value(node),
{
    let items = pattern_items(node);
    let starts = items.len() > 0 && is_anchor(items[0], Anchor::StartLine);
    let rest = if starts {
        items.drop_first()
    } else {
        items
    };
    let ends = rest.len() > 0 && is_anchor(rest.last(), Anchor::EndLine);
    let middle = if ends {
        rest.drop_last()
    } else {
        rest
    };
    lemma_literal_run_len(middle);
    lemma_literal_run_holds_literals(middle);
    let first = if starts { 1int } else { 0int };
    if middle.len() > 0 {
        assert(items[first] == middle[0]);
        assert(middle[0] is Literal);
    }
    match node {
        PatternNode::Concat(nodes) => {
            assert(items == nodes@);
            if middle.len() > 0 {
                if all_empty_at(items, true) {
                    lemma_all_empty_at_each(items, true, first);
                }
                if all_empty_at(items, false) {
                    lemma_all_empty_at_each(items, false, first);
                }
            } else {
                assert(starts && ends);
                assert(items.len() == 2);
                assert(is_anchor(items[1], Anchor::EndLine));
                if all_empty_at(items, true) {
                    lemma_all_empty_at_each(items, true, 1);
                }
                if all_empty_at(items, false) {
                    lemma_all_empty_at_each(items, false, 0);
                }
            }
        },
        PatternNode::Empty => {},
        _ => {
            assert(items == seq![node]);
        },
    }
}

} // verus!
