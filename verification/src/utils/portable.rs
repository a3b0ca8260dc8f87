//! The `pattern` guard: a regex reaches three surfaces — the Rust validator, the Zod schema's
//! JavaScript regex literal and the JSON Schema `pattern` keyword — and the guard decides, from the
//! `regex` crate's own reading of it, whether one string can mean the same thing on all three.
//!
//! Where the two grammars spell one construct differently the spelling is rewritten: `(?P<name>`
//! becomes `(?<name>`, and `\d`, `\w`, `\s` are written out in the members both engines agree on.
//! Where no spelling reads alike, the first construct that parts the grammars is refused.

use crate::syntax::{error_messages_of, error_on_literal, literal_span_of, literal_text, literal_value};
use crate::text::{chars_of, string_of_range};
use crate::utils::pattern::{
    parse_pattern, pattern_syntax, regex_builds, regex_refusal, Anchor, BracketedClass, ClassItem,
    ClassOperator, ClassSetNode, FlagItem, FlagKind, GroupShape, HexKind, LiteralShape,
    PatternLiteral, PatternNode, PerlClass, PerlKind, SpecialKind,
};
use vstd::prelude::*;

verus! {

/// The JavaScript engine generation the emitted schemas target. A construct that engine does not
/// parse is refused, however recent the runtime at hand.
pub const JS_ENGINE_BASELINE: &'static str = "ES2018";

/// A construct the `regex` crate reads that the JavaScript surfaces cannot carry as written.
#[derive(Clone, Copy, PartialEq, Eq, Structural, Debug)]
pub enum Construct {
    /// `(?flags)`
    InlineFlags,
    /// `.`
    AnyCharacter,
    /// `\D`, `\S`, `\W`
    NegatedPerl(PerlKind),
    /// `[^...]`
    NegatedClass,
    /// `\p{...}`, `\pL`, `\P{...}`
    UnicodeClass,
    /// `[:name:]`
    PosixClass,
    /// `[a[b]]`
    NestedClass,
    /// `&&`, `--`, `~~` inside a class
    ClassOperation(ClassOperator),
    /// A flag set on a `(?flags:...)` group.
    ModifierFlag(FlagKind),
    /// `\A`
    StartTextAnchor,
    /// `\z`
    EndTextAnchor,
    /// `\b{start}`, `\b{end}`
    BoundaryStartEnd,
    /// `\b{start-half}`, `\b{end-half}`
    BoundaryHalf,
    /// `\<`, `\>`
    BoundaryAngle,
    /// `\141`
    OctalEscape,
    /// `\x{...}`, `\u{...}`, `\U{...}`
    BracedEscape,
    /// `\U0001F600`
    LongUnicodeEscape,
    /// `\a`
    BellEscape,
    /// `[]...]`
    ClassOpeningBracket,
}

/// The constructs both grammars read but over different characters, so that no spelling equalises
/// them: a flagless JavaScript literal matches one UTF-16 code unit where the `regex` crate
/// matches one character.
pub open spec fn diverges(c: Construct) -> bool {
    match c {
        Construct::AnyCharacter | Construct::NegatedPerl(_) | Construct::NegatedClass => true,
        _ => false,
    }
}

/// What the refusal names a construct by.
pub open spec fn construct_written(c: Construct) -> Seq<char> {
    match c {
        Construct::InlineFlags => "an inline flag directive `(?...)`"@,
        Construct::AnyCharacter => "the `.` any-character class"@,
        Construct::NegatedPerl(PerlKind::Digit) => "the `\\D` negated digit class"@,
        Construct::NegatedPerl(PerlKind::Word) => "the `\\W` negated word class"@,
        Construct::NegatedPerl(PerlKind::Space) => "the `\\S` negated whitespace class"@,
        Construct::NegatedClass => "a negated character class `[^...]`"@,
        Construct::UnicodeClass => "a Unicode class -- `\\p{...}`, `\\pL` or `\\P{...}`"@,
        Construct::PosixClass => "a POSIX class `[:name:]`"@,
        Construct::NestedClass => "a class nested inside another class"@,
        Construct::ClassOperation(ClassOperator::Intersection) => "the `&&` class intersection"@,
        Construct::ClassOperation(ClassOperator::Difference) => "the `--` class difference"@,
        Construct::ClassOperation(ClassOperator::SymmetricDifference) =>
            "the `~~` class symmetric difference"@,
        Construct::ModifierFlag(FlagKind::CaseInsensitive) =>
            "the case-insensitive flag on a `(?i:...)` group"@,
        Construct::ModifierFlag(FlagKind::MultiLine) => "the multi-line flag on a `(?m:...)` group"@,
        Construct::ModifierFlag(FlagKind::DotMatchesNewLine) =>
            "the dot-matches-newline flag on a `(?s:...)` group"@,
        Construct::ModifierFlag(FlagKind::SwapGreed) => "the swap-greed flag on a `(?U:...)` group"@,
        Construct::ModifierFlag(FlagKind::Unicode) => "the Unicode flag on a `(?u:...)` group"@,
        Construct::ModifierFlag(FlagKind::Crlf) => "the CRLF flag on a `(?R:...)` group"@,
        Construct::ModifierFlag(FlagKind::IgnoreWhitespace) =>
            "the ignore-whitespace flag on a `(?x:...)` group"@,
        Construct::StartTextAnchor => "the `\\A` anchor"@,
        Construct::EndTextAnchor => "the `\\z` anchor"@,
        Construct::BoundaryStartEnd => "a `\\b{start}` or `\\b{end}` word boundary"@,
        Construct::BoundaryHalf => "a `\\b{start-half}` or `\\b{end-half}` word boundary"@,
        Construct::BoundaryAngle => "a `\\<` or `\\>` word boundary"@,
        Construct::OctalEscape => "an octal escape"@,
        Construct::BracedEscape => "a braced code point escape -- `\\x{...}`, `\\u{...}` or `\\U{...}`"@,
        Construct::LongUnicodeEscape => "the eight-digit `\\U...` code point escape"@,
        Construct::BellEscape => "the `\\a` bell escape"@,
        Construct::ClassOpeningBracket => "an unescaped `]` opening a character class"@,
    }
}

/// What a JavaScript regex literal makes of the same bytes instead, for a construct it does not
/// read the way the `regex` crate does.
pub open spec fn construct_read_as(c: Construct) -> Seq<char> {
    match c {
        Construct::InlineFlags => "a group opening no JavaScript regex parses"@,
        Construct::UnicodeClass =>
            "an escaped `p` or `P` followed by a literal `{...}`, since a Unicode class there needs the `u` flag and a spliced literal carries no flags"@,
        Construct::PosixClass =>
            "the characters `[`, `:` and the name, listed as members of the class"@,
        Construct::NestedClass => "a literal `[` listed as a member of the outer class"@,
        Construct::ClassOperation(_) =>
            "the operator's own characters, listed as members of the class"@,
        Construct::ModifierFlag(FlagKind::CaseInsensitive)
        | Construct::ModifierFlag(FlagKind::MultiLine)
        | Construct::ModifierFlag(FlagKind::DotMatchesNewLine) =>
            "a modifier group, which JavaScript reads only since ES2025 brought regular expression modifiers; the emitted schemas target ES2018, whose engines refuse the group outright"@,
        Construct::ModifierFlag(_) =>
            "a group opening no JavaScript regex parses: its modifier groups carry `i`, `m` and `s` and nothing else"@,
        Construct::StartTextAnchor =>
            "an escaped `A`, matching that letter; a flagless literal spells the same anchor `^`"@,
        Construct::EndTextAnchor =>
            "an escaped `z`, matching that letter; a flagless literal spells the same anchor `$`"@,
        Construct::BoundaryStartEnd =>
            "a plain word boundary followed by a literal `{start}` or `{end}`"@,
        Construct::BoundaryHalf =>
            "a plain word boundary followed by a literal `{start-half}` or `{end-half}`"@,
        Construct::BoundaryAngle => "an escaped `<` or `>`, matching that character"@,
        Construct::OctalEscape =>
            "a legacy escape a JavaScript regex reads by its own rules and refuses outright under a Unicode flag"@,
        Construct::BracedEscape =>
            "an escaped `x`, `u` or `U` followed by a literal `{...}`, since the one braced form JavaScript has needs the `u` flag and a spliced literal carries no flags"@,
        Construct::LongUnicodeEscape => "an escaped `U` followed by the digits themselves"@,
        Construct::BellEscape => "an escaped `a`, matching that letter"@,
        Construct::ClassOpeningBracket =>
            "the empty class `[]`, which matches nothing, followed by the rest of the class as ordinary text; the member both grammars read is `\\]`"@,
        Construct::AnyCharacter | Construct::NegatedPerl(_) | Construct::NegatedClass =>
            "the same construct over a different set of characters"@,
    }
}

/// The refusal the guard answers a construct with.
pub open spec fn refusal_text(c: Construct) -> Seq<char> {
    if diverges(c) {
        "`pattern` uses "@ + construct_written(c)
            + ", which the `regex` crate and a JavaScript regex literal both read but cover different characters by: the `regex` crate matches one character where a flagless JavaScript regex literal matches one UTF-16 code unit, so the two part ways over every character outside the Basic Multilingual Plane. No spelling makes them agree, and the Zod schema and the JSON Schema `pattern` keyword would admit a different set of values than the Rust validator written beside them."@
    } else {
        "`pattern` uses "@ + construct_written(c)
            + ", which the `regex` crate reads and a JavaScript regex literal does not: there the same bytes are "@
            + construct_read_as(c)
            + ". The Zod schema splices this string between `/` delimiters and the JSON Schema `pattern` keyword is an ECMA-262 regex, so the constraint would say one thing in the Rust validator and another -- or nothing at all -- on the surfaces generated beside it."@
    }
}

/// [`construct_written`], as text.
fn written_text(c: Construct) -> (r: &'static str)
    ensures
        r@ == construct_written(c),
{
    match c {
        Construct::InlineFlags => "an inline flag directive `(?...)`",
        Construct::AnyCharacter => "the `.` any-character class",
        Construct::NegatedPerl(PerlKind::Digit) => "the `\\D` negated digit class",
        Construct::NegatedPerl(PerlKind::Word) => "the `\\W` negated word class",
        Construct::NegatedPerl(PerlKind::Space) => "the `\\S` negated whitespace class",
        Construct::NegatedClass => "a negated character class `[^...]`",
        Construct::UnicodeClass => "a Unicode class -- `\\p{...}`, `\\pL` or `\\P{...}`",
        Construct::PosixClass => "a POSIX class `[:name:]`",
        Construct::NestedClass => "a class nested inside another class",
        Construct::ClassOperation(ClassOperator::Intersection) => "the `&&` class intersection",
        Construct::ClassOperation(ClassOperator::Difference) => "the `--` class difference",
        Construct::ClassOperation(ClassOperator::SymmetricDifference) =>
            "the `~~` class symmetric difference",
        Construct::ModifierFlag(FlagKind::CaseInsensitive) =>
            "the case-insensitive flag on a `(?i:...)` group",
        Construct::ModifierFlag(FlagKind::MultiLine) => "the multi-line flag on a `(?m:...)` group",
        Construct::ModifierFlag(FlagKind::DotMatchesNewLine) =>
            "the dot-matches-newline flag on a `(?s:...)` group",
        Construct::ModifierFlag(FlagKind::SwapGreed) => "the swap-greed flag on a `(?U:...)` group",
        Construct::ModifierFlag(FlagKind::Unicode) => "the Unicode flag on a `(?u:...)` group",
        Construct::ModifierFlag(FlagKind::Crlf) => "the CRLF flag on a `(?R:...)` group",
        Construct::ModifierFlag(FlagKind::IgnoreWhitespace) =>
            "the ignore-whitespace flag on a `(?x:...)` group",
        Construct::StartTextAnchor => "the `\\A` anchor",
        Construct::EndTextAnchor => "the `\\z` anchor",
        Construct::BoundaryStartEnd => "a `\\b{start}` or `\\b{end}` word boundary",
        Construct::BoundaryHalf => "a `\\b{start-half}` or `\\b{end-half}` word boundary",
        Construct::BoundaryAngle => "a `\\<` or `\\>` word boundary",
        Construct::OctalEscape => "an octal escape",
        Construct::BracedEscape => "a braced code point escape -- `\\x{...}`, `\\u{...}` or `\\U{...}`",
        Construct::LongUnicodeEscape => "the eight-digit `\\U...` code point escape",
        Construct::BellEscape => "the `\\a` bell escape",
        Construct::ClassOpeningBracket => "an unescaped `]` opening a character class",
    }
}

/// [`construct_read_as`], as text.
fn read_as_text(c: Construct) -> (r: &'static str)
    ensures
        r@ == construct_read_as(c),
{
    match c {
        Construct::InlineFlags => "a group opening no JavaScript regex parses",
        Construct::UnicodeClass =>
            "an escaped `p` or `P` followed by a literal `{...}`, since a Unicode class there needs the `u` flag and a spliced literal carries no flags",
        Construct::PosixClass =>
            "the characters `[`, `:` and the name, listed as members of the class",
        Construct::NestedClass => "a literal `[` listed as a member of the outer class",
        Construct::ClassOperation(_) =>
            "the operator's own characters, listed as members of the class",
        Construct::ModifierFlag(FlagKind::CaseInsensitive)
        | Construct::ModifierFlag(FlagKind::MultiLine)
        | Construct::ModifierFlag(FlagKind::DotMatchesNewLine) =>
            "a modifier group, which JavaScript reads only since ES2025 brought regular expression modifiers; the emitted schemas target ES2018, whose engines refuse the group outright",
        Construct::ModifierFlag(_) =>
            "a group opening no JavaScript regex parses: its modifier groups carry `i`, `m` and `s` and nothing else",
        Construct::StartTextAnchor =>
            "an escaped `A`, matching that letter; a flagless literal spells the same anchor `^`",
        Construct::EndTextAnchor =>
            "an escaped `z`, matching that letter; a flagless literal spells the same anchor `$`",
        Construct::BoundaryStartEnd =>
            "a plain word boundary followed by a literal `{start}` or `{end}`",
        Construct::BoundaryHalf =>
            "a plain word boundary followed by a literal `{start-half}` or `{end-half}`",
        Construct::BoundaryAngle => "an escaped `<` or `>`, matching that character",
        Construct::OctalEscape =>
            "a legacy escape a JavaScript regex reads by its own rules and refuses outright under a Unicode flag",
        Construct::BracedEscape =>
            "an escaped `x`, `u` or `U` followed by a literal `{...}`, since the one braced form JavaScript has needs the `u` flag and a spliced literal carries no flags",
        Construct::LongUnicodeEscape => "an escaped `U` followed by the digits themselves",
        Construct::BellEscape => "an escaped `a`, matching that letter",
        Construct::ClassOpeningBracket =>
            "the empty class `[]`, which matches nothing, followed by the rest of the class as ordinary text; the member both grammars read is `\\]`",
        Construct::AnyCharacter | Construct::NegatedPerl(_) | Construct::NegatedClass =>
            "the same construct over a different set of characters",
    }
}

fn is_divergent(c: Construct) -> (r: bool)
    ensures
        r == diverges(c),
{
    match c {
        Construct::AnyCharacter | Construct::NegatedPerl(_) | Construct::NegatedClass => true,
        _ => false,
    }
}

/// The refusal a construct is answered with, as [`refusal_text`] spells it.
pub fn refusal_message(c: Construct) -> (r: String)
    ensures
        r@ == refusal_text(c),
{
    let mut r = String::from_str("`pattern` uses ");
    r.append(written_text(c));
    if is_divergent(c) {
        r.append(", which the `regex` crate and a JavaScript regex literal both read but cover different characters by: the `regex` crate matches one character where a flagless JavaScript regex literal matches one UTF-16 code unit, so the two part ways over every character outside the Basic Multilingual Plane. No spelling makes them agree, and the Zod schema and the JSON Schema `pattern` keyword would admit a different set of values than the Rust validator written beside them.");
    } else {
        r.append(", which the `regex` crate reads and a JavaScript regex literal does not: there the same bytes are ");
        r.append(read_as_text(c));
        r.append(". The Zod schema splices this string between `/` delimiters and the JSON Schema `pattern` keyword is an ECMA-262 regex, so the constraint would say one thing in the Rust validator and another -- or nothing at all -- on the surfaces generated beside it.");
    }
    r
}

/// The first of two findings, in walk order.
pub open spec fn first_of(a: Option<Construct>, b: Option<Construct>) -> Option<Construct> {
    match a {
        Some(_) => a,
        None => b,
    }
}

/// What a literal character is refused as; `in_class` where it is a member of a bracketed class.
pub open spec fn literal_refusal(l: PatternLiteral, in_class: bool) -> Option<Construct> {
    if in_class && l.c == ']' && l.shape == LiteralShape::Verbatim {
        Some(Construct::ClassOpeningBracket)
    } else {
        match l.shape {
            LiteralShape::Octal => Some(Construct::OctalEscape),
            LiteralShape::HexBrace(_) => Some(Construct::BracedEscape),
            LiteralShape::HexFixed(HexKind::UnicodeLong) => Some(Construct::LongUnicodeEscape),
            LiteralShape::Special(SpecialKind::Bell) => Some(Construct::BellEscape),
            _ => None,
        }
    }
}

/// What a zero-width assertion is refused as: `^`, `$`, `\b` and `\B` read alike in both grammars.
pub open spec fn anchor_refusal(a: Anchor) -> Option<Construct> {
    match a {
        Anchor::StartLine | Anchor::EndLine | Anchor::WordBoundary | Anchor::NotWordBoundary => None,
        Anchor::StartText => Some(Construct::StartTextAnchor),
        Anchor::EndText => Some(Construct::EndTextAnchor),
        Anchor::WordBoundaryStart | Anchor::WordBoundaryEnd => Some(Construct::BoundaryStartEnd),
        Anchor::WordBoundaryStartHalf | Anchor::WordBoundaryEndHalf => Some(Construct::BoundaryHalf),
        Anchor::WordBoundaryStartAngle | Anchor::WordBoundaryEndAngle => Some(
            Construct::BoundaryAngle,
        ),
    }
}

/// A Perl class is refused where it is negated; the plain ones are written out instead.
pub open spec fn perl_refusal(p: PerlClass) -> Option<Construct> {
    if p.negated {
        Some(Construct::NegatedPerl(p.kind))
    } else {
        None
    }
}

/// The first flag a `(?flags:...)` group sets, refused: the engine baseline reads no modifier
/// group at all.
pub open spec fn flags_refusal(items: Seq<FlagItem>) -> Option<Construct>
    decreases items.len(),
{
    if items.len() == 0 {
        None
    } else {
        first_of(
            flags_refusal(items.drop_last()),
            match items.last() {
                FlagItem::Flag(f) => Some(Construct::ModifierFlag(f)),
                FlagItem::Negation => None,
            },
        )
    }
}

pub open spec fn shape_refusal(shape: GroupShape) -> Option<Construct> {
    match shape {
        GroupShape::NonCapturing(items) => flags_refusal(items@),
        _ => None,
    }
}

/// The first construct among a class's members that the JavaScript surfaces cannot carry.
pub open spec fn item_refusal(item: ClassItem) -> Option<Construct>
    decreases item,
{
    match item {
        ClassItem::Empty => None,
        ClassItem::Literal(l) => literal_refusal(l, true),
        ClassItem::Range(start, end) => first_of(literal_refusal(start, true), literal_refusal(end, true)),
        ClassItem::Ascii => Some(Construct::PosixClass),
        ClassItem::Unicode => Some(Construct::UnicodeClass),
        ClassItem::Perl(p) => perl_refusal(p),
        ClassItem::Bracketed(_) => Some(Construct::NestedClass),
        ClassItem::Union(items) => items_refusal(items@),
    }
}

pub open spec fn items_refusal(items: Seq<ClassItem>) -> Option<Construct>
    decreases items,
{
    if items.len() == 0 {
        None
    } else {
        first_of(items_refusal(items.drop_last()), item_refusal(items.last()))
    }
}

pub open spec fn set_refusal(set: ClassSetNode) -> Option<Construct> {
    match set {
        ClassSetNode::Item(item) => item_refusal(item),
        ClassSetNode::BinaryOp { operator, .. } => Some(Construct::ClassOperation(operator)),
    }
}

/// A negated class is refused before its members are read.
pub open spec fn bracketed_refusal(class: BracketedClass) -> Option<Construct> {
    if class.negated {
        Some(Construct::NegatedClass)
    } else {
        set_refusal(class.set)
    }
}

/// The first construct, in the order the pattern is written, that the JavaScript surfaces cannot
/// carry as the `regex` crate reads it.
pub open spec fn node_refusal(node: PatternNode) -> Option<Construct>
    decreases node,
{
    match node {
        PatternNode::Empty => None,
        PatternNode::Flags => Some(Construct::InlineFlags),
        PatternNode::Literal(l) => literal_refusal(l, false),
        PatternNode::Dot => Some(Construct::AnyCharacter),
        PatternNode::Assertion(a) => anchor_refusal(a),
        PatternNode::UnicodeClass => Some(Construct::UnicodeClass),
        PatternNode::Perl(p) => perl_refusal(p),
        PatternNode::Bracketed(class) => bracketed_refusal(class),
        PatternNode::Repetition { node, .. } => node_refusal(*node),
        PatternNode::Group { shape, node, .. } => first_of(shape_refusal(shape), node_refusal(*node)),
        PatternNode::Alternation(nodes) => nodes_refusal(nodes@),
        PatternNode::Concat(nodes) => nodes_refusal(nodes@),
    }
}

pub open spec fn nodes_refusal(nodes: Seq<PatternNode>) -> Option<Construct>
    decreases nodes,
{
    if nodes.len() == 0 {
        None
    } else {
        first_of(nodes_refusal(nodes.drop_last()), node_refusal(nodes.last()))
    }
}

fn literal_refused(l: PatternLiteral, in_class: bool) -> (r: Option<Construct>)
    ensures
        r == literal_refusal(l, in_class),
{
    if in_class && l.c == ']' && l.shape == LiteralShape::Verbatim {
        Some(Construct::ClassOpeningBracket)
    } else {
        match l.shape {
            LiteralShape::Octal => Some(Construct::OctalEscape),
            LiteralShape::HexBrace(_) => Some(Construct::BracedEscape),
            LiteralShape::HexFixed(HexKind::UnicodeLong) => Some(Construct::LongUnicodeEscape),
            LiteralShape::Special(SpecialKind::Bell) => Some(Construct::BellEscape),
            _ => None,
        }
    }
}

fn anchor_refused(a: Anchor) -> (r: Option<Construct>)
    ensures
        r == anchor_refusal(a),
{
    match a {
        Anchor::StartLine | Anchor::EndLine | Anchor::WordBoundary | Anchor::NotWordBoundary => None,
        Anchor::StartText => Some(Construct::StartTextAnchor),
        Anchor::EndText => Some(Construct::EndTextAnchor),
        Anchor::WordBoundaryStart | Anchor::WordBoundaryEnd => Some(Construct::BoundaryStartEnd),
        Anchor::WordBoundaryStartHalf | Anchor::WordBoundaryEndHalf => Some(Construct::BoundaryHalf),
        Anchor::WordBoundaryStartAngle | Anchor::WordBoundaryEndAngle => Some(
            Construct::BoundaryAngle,
        ),
    }
}

fn perl_refused(p: PerlClass) -> (r: Option<Construct>)
    ensures
        r == perl_refusal(p),
{
    if p.negated {
        Some(Construct::NegatedPerl(p.kind))
    } else {
        None
    }
}

fn flags_refused(items: &Vec<FlagItem>) -> (r: Option<Construct>)
    ensures
        r == flags_refusal(items@),
{
    let mut r: Option<Construct> = None;
    let mut i: usize = 0;
    while i < items.len()
        invariant
            0 <= i <= items@.len(),
            r == flags_refusal(items@.take(i as int)),
        decreases items@.len() - i,
    {
        proof {
            let p = items@.take(i + 1);
            assert(p.drop_last() == items@.take(i as int));
        }
        if r.is_none() {
            match items[i] {
                FlagItem::Flag(f) => {
                    r = Some(Construct::ModifierFlag(f));
                },
                FlagItem::Negation => {},
            }
        }
        i = i + 1;
    }
    assert(items@.take(items@.len() as int) == items@);
    r
}

fn shape_refused(shape: &GroupShape) -> (r: Option<Construct>)
    ensures
        r == shape_refusal(*shape),
{
    match shape {
        GroupShape::NonCapturing(items) => flags_refused(items),
        _ => None,
    }
}

fn item_refused(item: &ClassItem) -> (r: Option<Construct>)
    ensures
        r == item_refusal(*item),
    decreases item,
{
    match item {
        ClassItem::Empty => None,
        ClassItem::Literal(l) => literal_refused(*l, true),
        ClassItem::Range(start, end) => {
            let first = literal_refused(*start, true);
            if first.is_some() {
                first
            } else {
                literal_refused(*end, true)
            }
        },
        ClassItem::Ascii => Some(Construct::PosixClass),
        ClassItem::Unicode => Some(Construct::UnicodeClass),
        ClassItem::Perl(p) => perl_refused(*p),
        ClassItem::Bracketed(_) => Some(Construct::NestedClass),
        ClassItem::Union(items) => items_refused(items),
    }
}

fn items_refused(items: &Vec<ClassItem>) -> (r: Option<Construct>)
    ensures
        r == items_refusal(items@),
    decreases items,
{
    let mut r: Option<Construct> = None;
    let mut i: usize = 0;
    while i < items.len()
        invariant
            0 <= i <= items@.len(),
            r == items_refusal(items@.take(i as int)),
        decreases items@.len() - i,
    {
        proof {
            let p = items@.take(i + 1);
            assert(p.drop_last() == items@.take(i as int));
        }
        if r.is_none() {
            r = item_refused(&items[i]);
        }
        i = i + 1;
    }
    assert(items@.take(items@.len() as int) == items@);
    r
}

fn bracketed_refused(class: &BracketedClass) -> (r: Option<Construct>)
    ensures
        r == bracketed_refusal(*class),
{
    if class.negated {
        Some(Construct::NegatedClass)
    } else {
        match &class.set {
            ClassSetNode::Item(item) => item_refused(item),
            ClassSetNode::BinaryOp { operator, .. } => Some(Construct::ClassOperation(*operator)),
        }
    }
}

/// The first construct, in written order, that the JavaScript surfaces cannot carry.
pub fn node_refused(node: &PatternNode) -> (r: Option<Construct>)
    ensures
        r == node_refusal(*node),
    decreases node,
{
    match node {
        PatternNode::Empty => None,
        PatternNode::Flags => Some(Construct::InlineFlags),
        PatternNode::Literal(l) => literal_refused(*l, false),
        PatternNode::Dot => Some(Construct::AnyCharacter),
        PatternNode::Assertion(a) => anchor_refused(*a),
        PatternNode::UnicodeClass => Some(Construct::UnicodeClass),
        PatternNode::Perl(p) => perl_refused(*p),
        PatternNode::Bracketed(class) => bracketed_refused(class),
        PatternNode::Repetition { node: inner, .. } => node_refused(inner),
        PatternNode::Group { shape, node: inner, .. } => {
            let first = shape_refused(shape);
            if first.is_some() {
                first
            } else {
                node_refused(inner)
            }
        },
        PatternNode::Alternation(nodes) => nodes_refused(nodes),
        PatternNode::Concat(nodes) => nodes_refused(nodes),
    }
}

fn nodes_refused(nodes: &Vec<PatternNode>) -> (r: Option<Construct>)
    ensures
        r == nodes_refusal(nodes@),
    decreases nodes,
{
    let mut r: Option<Construct> = None;
    let mut i: usize = 0;
    while i < nodes.len()
        invariant
            0 <= i <= nodes@.len(),
            r == nodes_refusal(nodes@.take(i as int)),
        decreases nodes@.len() - i,
    {
        proof {
            let p = nodes@.take(i + 1);
            assert(p.drop_last() == nodes@.take(i as int));
        }
        if r.is_none() {
            r = node_refused(&nodes[i]);
        }
        i = i + 1;
    }
    assert(nodes@.take(nodes@.len() as int) == nodes@);
    r
}

/// A rewrite: the bytes `start..end` of the pattern replaced by `text`.
pub struct Edit {
    pub start: u128,
    pub end: u128,
    pub text: String,
}

/// An edit as plain values.
pub open spec fn edit_view(e: Edit) -> (int, int, Seq<char>) {
    (e.start as int, e.end as int, e.text@)
}

pub open spec fn edit_views(edits: Seq<Edit>) -> Seq<(int, int, Seq<char>)> {
    edits.map_values(|e: Edit| edit_view(e))
}

/// The members both engines agree a plain Perl class covers, as they are listed inside a class.
pub open spec fn perl_members(kind: PerlKind) -> Seq<char> {
    match kind {
        PerlKind::Digit => "0-9"@,
        PerlKind::Word => "0-9A-Za-z_"@,
        PerlKind::Space => "\\t\\n\\v\\f\\r "@,
    }
}

/// The same members as a class of their own.
pub open spec fn perl_class_spelling(kind: PerlKind) -> Seq<char> {
    seq!['['] + perl_members(kind) + seq![']']
}

pub open spec fn perl_edits(p: PerlClass, in_class: bool) -> Seq<(int, int, Seq<char>)> {
    if p.negated {
        Seq::empty()
    } else if in_class {
        seq![(p.span.start as int, p.span.end as int, perl_members(p.kind))]
    } else {
        seq![(p.span.start as int, p.span.end as int, perl_class_spelling(p.kind))]
    }
}

/// The `P` of a `(?P<name>` sits two bytes into the group and is dropped; `(?<name>` is the
/// spelling both grammars read.
pub open spec fn shape_edits(start: int, shape: GroupShape) -> Seq<(int, int, Seq<char>)> {
    match shape {
        GroupShape::CaptureName { starts_with_p } => if starts_with_p {
            seq![(start + 2, start + 3, Seq::<char>::empty())]
        } else {
            Seq::empty()
        },
        _ => Seq::empty(),
    }
}

pub open spec fn item_edits(item: ClassItem) -> Seq<(int, int, Seq<char>)>
    decreases item,
{
    match item {
        ClassItem::Perl(p) => perl_edits(p, true),
        ClassItem::Union(items) => items_edits(items@),
        _ => Seq::empty(),
    }
}

pub open spec fn items_edits(items: Seq<ClassItem>) -> Seq<(int, int, Seq<char>)>
    decreases items,
{
    if items.len() == 0 {
        Seq::empty()
    } else {
        items_edits(items.drop_last()) + item_edits(items.last())
    }
}

pub open spec fn set_edits(set: ClassSetNode) -> Seq<(int, int, Seq<char>)> {
    match set {
        ClassSetNode::Item(item) => item_edits(item),
        ClassSetNode::BinaryOp { .. } => Seq::empty(),
    }
}

/// The rewrites a pattern needs for the one string to read alike everywhere, in written order.
/// Only a pattern nothing in is refused is rewritten, so a refused construct's members carry none.
pub open spec fn node_edits(node: PatternNode) -> Seq<(int, int, Seq<char>)>
    decreases node,
{
    match node {
        PatternNode::Perl(p) => perl_edits(p, false),
        PatternNode::Bracketed(class) => set_edits(class.set),
        PatternNode::Repetition { node, .. } => node_edits(*node),
        PatternNode::Group { span, shape, node } => shape_edits(span.start as int, shape) + node_edits(*node),
        PatternNode::Alternation(nodes) => nodes_edits(nodes@),
        PatternNode::Concat(nodes) => nodes_edits(nodes@),
        _ => Seq::empty(),
    }
}

pub open spec fn nodes_edits(nodes: Seq<PatternNode>) -> Seq<(int, int, Seq<char>)>
    decreases nodes,
{
    if nodes.len() == 0 {
        Seq::empty()
    } else {
        nodes_edits(nodes.drop_last()) + node_edits(nodes.last())
    }
}

fn perl_members_text(kind: PerlKind) -> (r: &'static str)
    ensures
        r@ == perl_members(kind),
{
    match kind {
        PerlKind::Digit => "0-9",
        PerlKind::Word => "0-9A-Za-z_",
        PerlKind::Space => "\\t\\n\\v\\f\\r ",
    }
}

fn push_edit(out: &mut Vec<Edit>, edit: Edit)
    ensures
        edit_views(final(out)@) == edit_views(old(out)@).push(edit_view(edit)),
{
    let ghost before = out@;
    out.push(edit);
    assert(edit_views(out@) == edit_views(before).push(edit_view(edit)));
}

fn perl_edited(p: PerlClass, in_class: bool, out: &mut Vec<Edit>)
    ensures
        edit_views(final(out)@) == edit_views(old(out)@) + perl_edits(p, in_class),
{
    if !p.negated {
        let members = perl_members_text(p.kind);
        let text = if in_class {
            String::from_str(members)
        } else {
            let mut bracketed = String::from_str("[");
            bracketed.append(members);
            bracketed.append("]");
            proof {
                reveal_strlit("[");
                reveal_strlit("]");
                assert(bracketed@ =~= perl_class_spelling(p.kind));
            }
            bracketed
        };
        let edit = Edit { start: p.span.start as u128, end: p.span.end as u128, text };
        let ghost view = edit_view(edit);
        push_edit(out, edit);
        assert(edit_views(out@) =~= edit_views(old(out)@) + perl_edits(p, in_class));
    } else {
        assert(edit_views(out@) =~= edit_views(old(out)@) + perl_edits(p, in_class));
    }
}

fn item_edited(item: &ClassItem, out: &mut Vec<Edit>)
    ensures
        edit_views(final(out)@) == edit_views(old(out)@) + item_edits(*item),
    decreases item,
{
    match item {
        ClassItem::Perl(p) => perl_edited(*p, true, out),
        ClassItem::Union(items) => items_edited(items, out),
        _ => {
            assert(edit_views(out@) == edit_views(old(out)@) + item_edits(*item));
        },
    }
}

fn items_edited(items: &Vec<ClassItem>, out: &mut Vec<Edit>)
    ensures
        edit_views(final(out)@) == edit_views(old(out)@) + items_edits(items@),
    decreases items,
{
    let ghost start = edit_views(out@);
    let mut i: usize = 0;
    while i < items.len()
        invariant
            0 <= i <= items@.len(),
            edit_views(out@) == start + items_edits(items@.take(i as int)),
        decreases items@.len() - i,
    {
        proof {
            let p = items@.take(i + 1);
            assert(p.drop_last() == items@.take(i as int));
        }
        item_edited(&items[i], out);
        i = i + 1;
    }
    assert(items@.take(items@.len() as int) == items@);
}

/// Appends the rewrites `node` needs, in written order.
pub fn node_edited(node: &PatternNode, out: &mut Vec<Edit>)
    ensures
        edit_views(final(out)@) == edit_views(old(out)@) + node_edits(*node),
    decreases node,
{
    match node {
        PatternNode::Perl(p) => perl_edited(*p, false, out),
        PatternNode::Bracketed(class) => match &class.set {
            ClassSetNode::Item(item) => item_edited(item, out),
            ClassSetNode::BinaryOp { .. } => {
                assert(edit_views(out@) == edit_views(old(out)@) + node_edits(*node));
            },
        },
        PatternNode::Repetition { node: inner, .. } => node_edited(inner, out),
        PatternNode::Group { span, shape, node: inner } => {
            match shape {
                GroupShape::CaptureName { starts_with_p } => {
                    if *starts_with_p {
                        let at = span.start as u128;
                        push_edit(out, Edit { start: at + 2, end: at + 3, text: String::new() });
                    }
                },
                _ => {},
            }
            assert(edit_views(out@) == edit_views(old(out)@) + shape_edits(span.start as int, *shape));
            let ghost mid = edit_views(out@);
            node_edited(inner, out);
            assert(edit_views(out@) == mid + node_edits(**inner));
        },
        PatternNode::Alternation(nodes) => nodes_edited(nodes, out),
        PatternNode::Concat(nodes) => nodes_edited(nodes, out),
        _ => {
            assert(edit_views(out@) == edit_views(old(out)@) + node_edits(*node));
        },
    }
}

fn nodes_edited(nodes: &Vec<PatternNode>, out: &mut Vec<Edit>)
    ensures
        edit_views(final(out)@) == edit_views(old(out)@) + nodes_edits(nodes@),
    decreases nodes,
{
    let ghost start = edit_views(out@);
    let mut i: usize = 0;
    while i < nodes.len()
        invariant
            0 <= i <= nodes@.len(),
            edit_views(out@) == start + nodes_edits(nodes@.take(i as int)),
        decreases nodes@.len() - i,
    {
        proof {
            let p = nodes@.take(i + 1);
            assert(p.drop_last() == nodes@.take(i as int));
        }
        node_edited(&nodes[i], out);
        i = i + 1;
    }
    assert(nodes@.take(nodes@.len() as int) == nodes@);
}

/// How many bytes UTF-8 encodes a character in.
pub open spec fn utf8_width(c: char) -> nat {
    if (c as u32) < 0x80 {
        1
    } else if (c as u32) < 0x800 {
        2
    } else if (c as u32) < 0x10000 {
        3
    } else {
        4
    }
}

/// How many bytes UTF-8 encodes `s` in.
pub open spec fn byte_len(s: Seq<char>) -> nat
    decreases s.len(),
{
    if s.len() == 0 {
        0
    } else {
        byte_len(s.drop_last()) + utf8_width(s.last())
    }
}

/// The character index `b` bytes into `s`, where `b` falls between two characters.
pub open spec fn char_at_byte(s: Seq<char>, b: int) -> Option<int> {
    if exists|i: int| 0 <= i <= s.len() && byte_len(#[trigger] s.take(i)) == b {
        Some(choose|i: int| 0 <= i <= s.len() && byte_len(#[trigger] s.take(i)) == b)
    } else {
        None
    }
}

/// `s` from character `cut` on, with each edit applied in turn where both its ends fall between
/// characters at or after the last edit applied; an edit that does not is passed over.
pub open spec fn splice_from(s: Seq<char>, edits: Seq<(int, int, Seq<char>)>, cut: int) -> Seq<char>
    decreases edits.len(),
{
    if edits.len() == 0 {
        s.subrange(cut, s.len() as int)
    } else {
        let e = edits[0];
        match (char_at_byte(s, e.0), char_at_byte(s, e.1)) {
            (Some(a), Some(b)) => if cut <= a && a <= b {
                s.subrange(cut, a) + e.2 + splice_from(s, edits.drop_first(), b)
            } else {
                splice_from(s, edits.drop_first(), cut)
            },
            _ => splice_from(s, edits.drop_first(), cut),
        }
    }
}

/// `s` with the edits, given in byte offsets, applied.
pub open spec fn spliced(s: Seq<char>, edits: Seq<(int, int, Seq<char>)>) -> Seq<char> {
    splice_from(s, edits, 0)
}

/// A longer prefix is longer in bytes too.
pub proof fn lemma_byte_len_grows(s: Seq<char>, i: int, j: int)
    requires
        0 <= i < j <= s.len(),
    ensures
        byte_len(s.take(i)) < byte_len(s.take(j)),
    decreases j,
{
    assert(s.take(j).drop_last() == s.take(j - 1));
    if i < j - 1 {
        lemma_byte_len_grows(s, i, j - 1);
    }
}

/// Where a byte offset falls between two characters, it falls there once.
proof fn lemma_char_at_byte_is(s: Seq<char>, i: int)
    requires
        0 <= i <= s.len(),
    ensures
        char_at_byte(s, byte_len(s.take(i)) as int) == Some(i),
{
    let b = byte_len(s.take(i)) as int;
    assert(0 <= i <= s.len() && byte_len(s.take(i)) == b);
    let j = choose|j: int| 0 <= j <= s.len() && byte_len(#[trigger] s.take(j)) == b;
    if j < i {
        lemma_byte_len_grows(s, j, i);
    } else if i < j {
        lemma_byte_len_grows(s, i, j);
    }
}

fn utf8_width_of(c: char) -> (r: u128)
    ensures
        r == utf8_width(c),
{
    let v = c as u32;
    if v < 0x80 {
        1
    } else if v < 0x800 {
        2
    } else if v < 0x10000 {
        3
    } else {
        4
    }
}

/// The character index `b` bytes into `chars`, where `b` falls between two characters.
fn char_index_at_byte(chars: &Vec<char>, b: u128) -> (r: Option<usize>)
    ensures
        match r {
            Some(i) => char_at_byte(chars@, b as int) == Some(i as int),
            None => char_at_byte(chars@, b as int) is None,
        },
{
    let mut i: usize = 0;
    let mut total: u128 = 0;
    while i < chars.len() && total < b
        invariant
            0 <= i <= chars@.len(),
            total == byte_len(chars@.take(i as int)),
            total <= 4 * i,
            forall|j: int| 0 <= j < i ==> byte_len(#[trigger] chars@.take(j)) < b,
        decreases chars@.len() - i,
    {
        assert(chars@.take(i + 1).drop_last() == chars@.take(i as int));
        total = total + utf8_width_of(chars[i]);
        i = i + 1;
    }
    if total == b {
        proof {
            lemma_char_at_byte_is(chars@, i as int);
        }
        Some(i)
    } else {
        proof {
            assert forall|j: int| 0 <= j <= chars@.len() implies byte_len(#[trigger] chars@.take(j)) != b by {
                if i < j {
                    lemma_byte_len_grows(chars@, i as int, j);
                }
            }
        }
        None
    }
}

/// The pattern with the edits applied, as [`spliced`] reads them.
fn splice(chars: &Vec<char>, edits: &Vec<Edit>) -> (r: String)
    ensures
        r@ == spliced(chars@, edit_views(edits@)),
{
    let ghost views = edit_views(edits@);
    let mut out = String::new();
    let mut cut: usize = 0;
    let mut k: usize = 0;
    proof {
        assert(views.subrange(0, views.len() as int) =~= views);
        assert(out@ + spliced(chars@, views) =~= spliced(chars@, views));
    }
    while k < edits.len()
        invariant
            0 <= k <= edits@.len(),
            cut <= chars@.len(),
            views == edit_views(edits@),
            out@ + splice_from(chars@, views.subrange(k as int, views.len() as int), cut as int)
                == spliced(chars@, views),
        decreases edits@.len() - k,
    {
        let edit = &edits[k];
        let start = char_index_at_byte(chars, edit.start);
        let end = char_index_at_byte(chars, edit.end);
        let ghost rest = views.subrange(k as int, views.len() as int);
        assert(rest[0] == edit_view(*edit));
        assert(rest.drop_first() == views.subrange(k + 1, views.len() as int));
        match (start, end) {
            (Some(a), Some(b)) => {
                if cut <= a && a <= b {
                    let ghost before = out@;
                    let piece = string_of_range(chars, cut, a);
                    out.append(piece.as_str());
                    out.append(edit.text.as_str());
                    let ghost tail = splice_from(chars@, rest.drop_first(), b as int);
                    assert(before + (chars@.subrange(cut as int, a as int) + edit.text@ + tail)
                        =~= out@ + tail);
                    cut = b;
                }
            },
            _ => {},
        }
        k = k + 1;
    }
    let last = string_of_range(chars, cut, chars.len());
    out.append(last.as_str());
    out
}

/// The pattern in the spelling every surface reads alike, given the `regex` crate's reading of
/// it, or the first construct that has no such spelling.
pub open spec fn javascript_spelling(pattern: Seq<char>, node: PatternNode) -> Result<Seq<char>, Construct> {
    match node_refusal(node) {
        Some(c) => Err(c),
        None => Ok(spliced(pattern, node_edits(node))),
    }
}

/// The refusal of a pattern the `regex` crate cannot build, quoting the crate's own error.
pub open spec fn regex_refused_text(error: Seq<char>) -> Seq<char> {
    "`pattern` is not a regex the `regex` crate can parse. The generated validator builds it with `regex::Regex::new(...).unwrap()`, so accepting it here would turn the first validated value into a panic. "@
        + error
}

/// The refusal of a pattern the `regex` crate builds and its syntax parser does not read.
pub open spec fn syntax_refused_text(error: Seq<char>) -> Seq<char> {
    "`pattern` parses for `regex::Regex::new` but not for the grammar this guard reads it back with, so what the Zod and JSON Schema surfaces would be handed cannot be decided. "@
        + error
}

/// What the guard answers a pattern with: its portable spelling, or the refusal.
pub open spec fn portable_outcome(pattern: Seq<char>) -> Result<Seq<char>, Seq<char>> {
    match regex_refusal(pattern) {
        Some(error) => Err(regex_refused_text(error)),
        None => match pattern_syntax(pattern) {
            Err(error) => Err(syntax_refused_text(error)),
            Ok(node) => match javascript_spelling(pattern, node) {
                Ok(spelling) => Ok(spelling),
                Err(c) => Err(refusal_text(c)),
            },
        },
    }
}

pub open spec fn result_view(r: Result<String, String>) -> Result<Seq<char>, Seq<char>> {
    match r {
        Ok(s) => Ok(s@),
        Err(e) => Err(e@),
    }
}

/// The pattern rewritten to the spelling every surface reads alike, given the `regex` crate's
/// syntax tree of it, or the first construct that has no such spelling.
pub fn spelled_for_javascript(pattern: &str, node: &PatternNode) -> (r: Result<String, Construct>)
    ensures
        match r {
            Ok(s) => javascript_spelling(pattern@, *node) == Ok::<Seq<char>, Construct>(s@),
            Err(c) => javascript_spelling(pattern@, *node) == Err::<Seq<char>, Construct>(c),
        },
{
    match node_refused(node) {
        Some(c) => Err(c),
        None => {
            let mut edits: Vec<Edit> = Vec::new();
            node_edited(node, &mut edits);
            assert(edit_views(edits@) =~= node_edits(*node));
            let chars = chars_of(pattern);
            Ok(splice(&chars, &edits))
        },
    }
}

/// The pattern rewritten to the spelling a JavaScript regex literal reads the same way, or the
/// refusal naming the first construct in it that a JavaScript regex literal has no reading for.
fn js_spelling(pattern: &str) -> (r: Result<String, String>)
    requires
        regex_refusal(pattern@) is None,
    ensures
        result_view(r) == portable_outcome(pattern@),
{
    match parse_pattern(pattern) {
        Err(error) => {
            let mut message = String::from_str(
                "`pattern` parses for `regex::Regex::new` but not for the grammar this guard reads it back with, so what the Zod and JSON Schema surfaces would be handed cannot be decided. ",
            );
            message.append(error.as_str());
            Err(message)
        },
        Ok(node) => match spelled_for_javascript(pattern, &node) {
            Ok(spelling) => Ok(spelling),
            Err(c) => Err(refusal_message(c)),
        },
    }
}

/// A `pattern` value in the spelling every surface it is spliced into reads the same way, or the
/// refusal that keeps it off them.
///
/// A pattern the `regex` crate cannot build is refused with the crate's own words: the generated
/// validator would panic on the first value it checks. One it builds is read back through the
/// crate's syntax tree, and refused where a construct in it has no JavaScript reading, or covers
/// different characters in the two engines; otherwise its `(?P<name>` groups are respelled
/// `(?<name>` and its `\d`, `\w` and `\s` written out in the members both engines agree on.
pub fn portable_spelling(pattern: &str) -> (r: Result<String, String>)
    ensures
        result_view(r) == portable_outcome(pattern@),
{
    match regex_builds(pattern) {
        Some(error) => {
            let mut message = String::from_str(
                "`pattern` is not a regex the `regex` crate can parse. The generated validator builds it with `regex::Regex::new(...).unwrap()`, so accepting it here would turn the first validated value into a panic. ",
            );
            message.append(error.as_str());
            Err(message)
        },
        None => js_spelling(pattern),
    }
}

/// A `pattern` attribute value in the spelling every surface it is spliced into reads the same
/// way, or the rejection that keeps it off them, spanned on the literal the author wrote. The
/// verdict is [`portable_spelling`]'s on the literal's value.
pub fn portable_pattern(lit: &syn::LitStr) -> (r: Result<String, syn::Error>)
    ensures
        match portable_outcome(literal_text(*lit)) {
            Ok(spelling) => r matches Ok(given) && given@ == spelling,
            Err(message) => r matches Err(error) && error_messages_of(error) == seq![
                (literal_span_of(*lit), literal_span_of(*lit), message),
            ],
        },
{
    let pattern = literal_value(lit);
    match portable_spelling(pattern.as_str()) {
        Ok(spelling) => Ok(spelling),
        Err(message) => Err(error_on_literal(lit, message.as_str())),
    }
}


/// A pattern both grammars already read alike comes back byte for byte: with nothing to refuse
/// and nothing to rewrite, the guard hands the author's string on untouched.
pub proof fn lemma_a_shared_pattern_comes_back_unchanged(pattern: Seq<char>, node: PatternNode)
    requires
        node_refusal(node) is None,
        node_edits(node).len() == 0,
    ensures
        javascript_spelling(pattern, node) == Ok::<Seq<char>, Construct>(pattern),
{
    assert(pattern.subrange(0, pattern.len() as int) =~= pattern);
}

/// A pattern the `regex` crate refuses is refused in the crate's own words, ahead of any question
/// of what JavaScript would make of it.
pub proof fn lemma_the_regex_crate_is_asked_first(pattern: Seq<char>)
    requires
        regex_refusal(pattern) is Some,
    ensures
        portable_outcome(pattern) == Err::<Seq<char>, Seq<char>>(
            regex_refused_text(regex_refusal(pattern)->Some_0),
        ),
{
}

/// Whatever the guard hands on is exactly the spelling of the `regex` crate's own reading of the
/// pattern, and whatever it refuses names the first construct that reading holds with no JavaScript
/// counterpart.
pub proof fn lemma_the_verdict_follows_the_regex_crate_s_reading(pattern: Seq<char>, node: PatternNode)
    requires
        regex_refusal(pattern) is None,
        pattern_syntax(pattern) == Ok::<PatternNode, Seq<char>>(node),
    ensures
        node_refusal(node) is Some ==> portable_outcome(pattern) == Err::<Seq<char>, Seq<char>>(
            refusal_text(node_refusal(node)->Some_0),
        ),
        node_refusal(node) is None ==> portable_outcome(pattern) == Ok::<Seq<char>, Seq<char>>(
            spliced(pattern, node_edits(node)),
        ),
{
}

} // verus!
