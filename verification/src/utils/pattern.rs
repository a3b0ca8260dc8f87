//! A `pattern` attribute value as the `regex` crate's own parser reads it, held as plain values:
//! the nodes of the syntax tree the guards walk, with the byte offsets a rewrite needs.

use regex_syntax::ast::{
    Assertion, AssertionKind, Ast, ClassBracketed, ClassPerl, ClassPerlKind, ClassSet, ClassSetBinaryOpKind,
    ClassSetItem, Flag, FlagsItem, FlagsItemKind, Group, GroupKind, HexLiteralKind, Literal, LiteralKind,
    Repetition, RepetitionKind, RepetitionRange, SpecialLiteralKind,
};
use vstd::prelude::*;

verus! {

#[verifier::external_type_specification]
#[verifier::external_body]
pub struct ExAst(Ast);

#[verifier::external_type_specification]
#[verifier::external_body]
pub struct ExLiteral(regex_syntax::ast::Literal);

#[verifier::external_type_specification]
#[verifier::external_body]
pub struct ExLiteralKind(regex_syntax::ast::LiteralKind);

#[verifier::external_type_specification]
#[verifier::external_body]
pub struct ExHexLiteralKind(regex_syntax::ast::HexLiteralKind);

#[verifier::external_type_specification]
#[verifier::external_body]
pub struct ExSpecialLiteralKind(regex_syntax::ast::SpecialLiteralKind);

#[verifier::external_type_specification]
#[verifier::external_body]
pub struct ExAssertion(regex_syntax::ast::Assertion);

#[verifier::external_type_specification]
#[verifier::external_body]
pub struct ExClassPerl(regex_syntax::ast::ClassPerl);

#[verifier::external_type_specification]
#[verifier::external_body]
pub struct ExClassBracketed(regex_syntax::ast::ClassBracketed);

#[verifier::external_type_specification]
#[verifier::external_body]
pub struct ExClassSet(regex_syntax::ast::ClassSet);

#[verifier::external_type_specification]
#[verifier::external_body]
pub struct ExClassSetItem(regex_syntax::ast::ClassSetItem);

#[verifier::external_type_specification]
#[verifier::external_body]
pub struct ExClassSetBinaryOpKind(regex_syntax::ast::ClassSetBinaryOpKind);

#[verifier::external_type_specification]
#[verifier::external_body]
pub struct ExGroupKind(regex_syntax::ast::GroupKind);

#[verifier::external_type_specification]
#[verifier::external_body]
pub struct ExFlagsItem(regex_syntax::ast::FlagsItem);

#[verifier::external_type_specification]
#[verifier::external_body]
pub struct ExFlag(regex_syntax::ast::Flag);

#[verifier::external_type_specification]
#[verifier::external_body]
pub struct ExRepetition(regex_syntax::ast::Repetition);

#[verifier::external_type_specification]
#[verifier::external_body]
pub struct ExGroup(regex_syntax::ast::Group);

#[verifier::external_type_specification]
#[verifier::external_body]
pub struct ExRepetitionKind(regex_syntax::ast::RepetitionKind);

/// Where a node was written: byte offsets into the pattern, end exclusive.
#[derive(Clone, Copy, PartialEq, Eq, Structural, Debug)]
pub struct ByteSpan {
    pub start: usize,
    pub end: usize,
}

/// How a hex escape was introduced.
#[derive(Clone, Copy, PartialEq, Eq, Structural, Debug)]
pub enum HexKind {
    /// `\x`
    X,
    /// `\u`
    UnicodeShort,
    /// `\U`
    UnicodeLong,
}

/// The escapes the parser recognises by letter.
#[derive(Clone, Copy, PartialEq, Eq, Structural, Debug)]
pub enum SpecialKind {
    Bell,
    FormFeed,
    Tab,
    LineFeed,
    CarriageReturn,
    VerticalTab,
    Space,
}

/// How a literal character was written.
#[derive(Clone, Copy, PartialEq, Eq, Structural, Debug)]
pub enum LiteralShape {
    /// As itself, e.g. `a`.
    Verbatim,
    /// Escaped because it is a meta character, e.g. `\*`.
    Meta,
    /// Escaped without need, e.g. `\/`.
    Superfluous,
    /// An octal escape, e.g. `\141`.
    Octal,
    /// A hex escape with a fixed number of digits, e.g. `\x61`.
    HexFixed(HexKind),
    /// A braced hex escape, e.g. `\x{61}`.
    HexBrace(HexKind),
    /// A lettered escape, e.g. `\n`.
    Special(SpecialKind),
}

/// One literal character and how it was written.
#[derive(Clone, Copy, PartialEq, Eq, Structural, Debug)]
pub struct PatternLiteral {
    pub shape: LiteralShape,
    pub c: char,
}

/// The zero-width assertions.
#[derive(Clone, Copy, PartialEq, Eq, Structural, Debug)]
pub enum Anchor {
    /// `^`
    StartLine,
    /// `$`
    EndLine,
    /// `\A`
    StartText,
    /// `\z`
    EndText,
    /// `\b`
    WordBoundary,
    /// `\B`
    NotWordBoundary,
    /// `\b{start}`
    WordBoundaryStart,
    /// `\b{end}`
    WordBoundaryEnd,
    /// `\<`
    WordBoundaryStartAngle,
    /// `\>`
    WordBoundaryEndAngle,
    /// `\b{start-half}`
    WordBoundaryStartHalf,
    /// `\b{end-half}`
    WordBoundaryEndHalf,
}

/// The three Perl classes.
#[derive(Clone, Copy, PartialEq, Eq, Structural, Debug)]
pub enum PerlKind {
    /// `\d`
    Digit,
    /// `\s`
    Space,
    /// `\w`
    Word,
}

/// A Perl class where it was written, and whether it was negated (`\D`, `\S`, `\W`).
#[derive(Clone, Copy, PartialEq, Eq, Structural, Debug)]
pub struct PerlClass {
    pub span: ByteSpan,
    pub kind: PerlKind,
    pub negated: bool,
}

/// The set operators a bracketed class can be written with.
#[derive(Clone, Copy, PartialEq, Eq, Structural, Debug)]
pub enum ClassOperator {
    /// `&&`
    Intersection,
    /// `--`
    Difference,
    /// `~~`
    SymmetricDifference,
}

/// A bracketed class: whether it opens with `^`, and what it holds.
pub struct BracketedClass {
    pub negated: bool,
    pub set: ClassSetNode,
}

/// What a bracketed class holds: members, or a set operation over two member lists.
pub enum ClassSetNode {
    Item(ClassItem),
    BinaryOp { operator: ClassOperator, lhs: Box<ClassSetNode>, rhs: Box<ClassSetNode> },
}

/// One member of a bracketed class.
pub enum ClassItem {
    Empty,
    Literal(PatternLiteral),
    Range(PatternLiteral, PatternLiteral),
    /// `[:name:]`
    Ascii,
    /// `\p{...}`
    Unicode,
    Perl(PerlClass),
    Bracketed(Box<BracketedClass>),
    Union(Vec<ClassItem>),
}

/// The flags a `(?flags:...)` group can set.
#[derive(Clone, Copy, PartialEq, Eq, Structural, Debug)]
pub enum FlagKind {
    /// `i`
    CaseInsensitive,
    /// `m`
    MultiLine,
    /// `s`
    DotMatchesNewLine,
    /// `U`
    SwapGreed,
    /// `u`
    Unicode,
    /// `R`
    Crlf,
    /// `x`
    IgnoreWhitespace,
}

/// One item of a flag list: the `-` that negates the flags after it, or a flag.
#[derive(Clone, Copy, PartialEq, Eq, Structural, Debug)]
pub enum FlagItem {
    Negation,
    Flag(FlagKind),
}

/// How a group was opened.
pub enum GroupShape {
    /// `(a)`
    CaptureIndex,
    /// `(?<name>a)`, or `(?P<name>a)` where `starts_with_p`.
    CaptureName { starts_with_p: bool },
    /// `(?:a)` or `(?flags:a)`.
    NonCapturing(Vec<FlagItem>),
}

/// How often a repeated node may occur.
#[derive(Clone, Copy, PartialEq, Eq, Structural, Debug)]
pub enum RepeatKind {
    /// `?`
    ZeroOrOne,
    /// `*`
    ZeroOrMore,
    /// `+`
    OneOrMore,
    /// `{m}`
    Exactly(u32),
    /// `{m,}`
    AtLeast(u32),
    /// `{m,n}`
    Bounded(u32, u32),
}

/// A node of a pattern's syntax tree.
pub enum PatternNode {
    /// The empty pattern, which matches everywhere.
    Empty,
    /// An inline flag directive, `(?flags)`.
    Flags,
    Literal(PatternLiteral),
    /// `.`
    Dot,
    Assertion(Anchor),
    /// `\p{...}` outside a bracketed class.
    UnicodeClass,
    Perl(PerlClass),
    Bracketed(BracketedClass),
    Repetition { kind: RepeatKind, node: Box<PatternNode> },
    Group { span: ByteSpan, shape: GroupShape, node: Box<PatternNode> },
    Alternation(Vec<PatternNode>),
    Concat(Vec<PatternNode>),
}

/// What `regex_syntax::ast::parse::Parser::new().parse(pattern)` reads `pattern` as: its syntax
/// tree, or the text of the parse error.
pub uninterp spec fn pattern_syntax(pattern: Seq<char>) -> Result<PatternNode, Seq<char>>;

/// What `regex::Regex::new(pattern)` refuses `pattern` with: the text of its error, or `None`
/// where it builds a regex.
pub uninterp spec fn regex_refusal(pattern: Seq<char>) -> Option<Seq<char>>;

/// `regex_syntax::ast::parse::Parser::new().parse(pattern)`, the parser `regex::Regex::new` is
/// built on, with default settings: the syntax tree read into plain values, or the parse error's
/// `Display` text. The contract names the result; nothing about its shape is stated.
#[verifier::external_body]
pub(crate) fn parse_pattern(pattern: &str) -> (r: Result<PatternNode, String>)
    ensures
        match r {
            Ok(node) => pattern_syntax(pattern@) == Ok::<PatternNode, Seq<char>>(node),
            Err(message) => pattern_syntax(pattern@) == Err::<PatternNode, Seq<char>>(message@),
        },
{
    match regex_syntax::ast::parse::Parser::new().parse(pattern) {
        Ok(ast) => Ok(node_of(&ast)),
        Err(refused) => Err(refused.to_string()),
    }
}

/// `regex::Regex::new(pattern)`: `None` where it builds, and the error's `Display` text where it
/// refuses.
#[verifier::external_body]
pub(crate) fn regex_builds(pattern: &str) -> (r: Option<String>)
    ensures
        match r {
            Some(message) => regex_refusal(pattern@) == Some(message@),
            None => regex_refusal(pattern@) == None::<Seq<char>>,
        },
{
    match regex::Regex::new(pattern) {
        Ok(_) => None,
        Err(refused) => Some(refused.to_string()),
    }
}

/// An `Ast` node read into a [`PatternNode`], variant for variant.
/// Part of the conversion [`parse_pattern`] hands back, and called from nowhere else; its
/// result is what [`pattern_syntax`] names, and nothing more is stated.
#[verifier::external_body]
fn node_of(ast: &Ast) -> PatternNode {
    match ast {
        Ast::Empty(_) => PatternNode::Empty,
        Ast::Flags(_) => PatternNode::Flags,
        Ast::Literal(lit) => PatternNode::Literal(literal_of(lit)),
        Ast::Dot(_) => PatternNode::Dot,
        Ast::Assertion(a) => PatternNode::Assertion(anchor_of(a)),
        Ast::ClassUnicode(_) => PatternNode::UnicodeClass,
        Ast::ClassPerl(p) => PatternNode::Perl(perl_of(p)),
        Ast::ClassBracketed(b) => PatternNode::Bracketed(bracketed_of(b)),
        Ast::Repetition(r) => repetition_of(r),
        Ast::Group(g) => group_of(g),
        Ast::Alternation(a) => PatternNode::Alternation(a.asts.iter().map(node_of).collect()),
        Ast::Concat(c) => PatternNode::Concat(c.asts.iter().map(node_of).collect()),
    }
}

/// A `Repetition` read into a [`PatternNode::Repetition`].
/// Part of the conversion [`parse_pattern`] hands back, and called from nowhere else; its
/// result is what [`pattern_syntax`] names, and nothing more is stated.
#[verifier::external_body]
fn repetition_of(repetition: &Repetition) -> PatternNode {
    PatternNode::Repetition { kind: repeat_of(&repetition.op.kind), node: Box::new(node_of(&repetition.ast)) }
}

/// A `Group` read into a [`PatternNode::Group`].
/// Part of the conversion [`parse_pattern`] hands back, and called from nowhere else; its
/// result is what [`pattern_syntax`] names, and nothing more is stated.
#[verifier::external_body]
fn group_of(group: &Group) -> PatternNode {
    let span = ByteSpan { start: group.span.start.offset, end: group.span.end.offset };
    PatternNode::Group { span, shape: shape_of(&group.kind), node: Box::new(node_of(&group.ast)) }
}

/// A `Literal` read into a [`PatternLiteral`].
/// Part of the conversion [`parse_pattern`] hands back, and called from nowhere else; its
/// result is what [`pattern_syntax`] names, and nothing more is stated.
#[verifier::external_body]
fn literal_of(lit: &Literal) -> PatternLiteral {
    PatternLiteral { shape: literal_shape_of(&lit.kind), c: lit.c }
}

/// A `LiteralKind` read into a [`LiteralShape`], variant for variant.
/// Part of the conversion [`parse_pattern`] hands back, and called from nowhere else; its
/// result is what [`pattern_syntax`] names, and nothing more is stated.
#[verifier::external_body]
fn literal_shape_of(kind: &LiteralKind) -> LiteralShape {
    match kind {
        LiteralKind::Verbatim => LiteralShape::Verbatim,
        LiteralKind::Meta => LiteralShape::Meta,
        LiteralKind::Superfluous => LiteralShape::Superfluous,
        LiteralKind::Octal => LiteralShape::Octal,
        LiteralKind::HexFixed(hex) => LiteralShape::HexFixed(hex_of(hex)),
        LiteralKind::HexBrace(hex) => LiteralShape::HexBrace(hex_of(hex)),
        LiteralKind::Special(special) => LiteralShape::Special(special_of(special)),
    }
}

/// A `HexLiteralKind` read into a [`HexKind`], variant for variant.
/// Part of the conversion [`parse_pattern`] hands back, and called from nowhere else; its
/// result is what [`pattern_syntax`] names, and nothing more is stated.
#[verifier::external_body]
fn hex_of(kind: &HexLiteralKind) -> HexKind {
    match kind {
        HexLiteralKind::X => HexKind::X,
        HexLiteralKind::UnicodeShort => HexKind::UnicodeShort,
        HexLiteralKind::UnicodeLong => HexKind::UnicodeLong,
    }
}

/// A `SpecialLiteralKind` read into a [`SpecialKind`], variant for variant.
/// Part of the conversion [`parse_pattern`] hands back, and called from nowhere else; its
/// result is what [`pattern_syntax`] names, and nothing more is stated.
#[verifier::external_body]
fn special_of(kind: &SpecialLiteralKind) -> SpecialKind {
    match kind {
        SpecialLiteralKind::Bell => SpecialKind::Bell,
        SpecialLiteralKind::FormFeed => SpecialKind::FormFeed,
        SpecialLiteralKind::Tab => SpecialKind::Tab,
        SpecialLiteralKind::LineFeed => SpecialKind::LineFeed,
        SpecialLiteralKind::CarriageReturn => SpecialKind::CarriageReturn,
        SpecialLiteralKind::VerticalTab => SpecialKind::VerticalTab,
        SpecialLiteralKind::Space => SpecialKind::Space,
    }
}

/// An `Assertion`'s kind read into an [`Anchor`], variant for variant.
/// Part of the conversion [`parse_pattern`] hands back, and called from nowhere else; its
/// result is what [`pattern_syntax`] names, and nothing more is stated.
#[verifier::external_body]
fn anchor_of(assertion: &Assertion) -> Anchor {
    match assertion.kind {
        AssertionKind::StartLine => Anchor::StartLine,
        AssertionKind::EndLine => Anchor::EndLine,
        AssertionKind::StartText => Anchor::StartText,
        AssertionKind::EndText => Anchor::EndText,
        AssertionKind::WordBoundary => Anchor::WordBoundary,
        AssertionKind::NotWordBoundary => Anchor::NotWordBoundary,
        AssertionKind::WordBoundaryStart => Anchor::WordBoundaryStart,
        AssertionKind::WordBoundaryEnd => Anchor::WordBoundaryEnd,
        AssertionKind::WordBoundaryStartAngle => Anchor::WordBoundaryStartAngle,
        AssertionKind::WordBoundaryEndAngle => Anchor::WordBoundaryEndAngle,
        AssertionKind::WordBoundaryStartHalf => Anchor::WordBoundaryStartHalf,
        AssertionKind::WordBoundaryEndHalf => Anchor::WordBoundaryEndHalf,
    }
}

/// A `ClassPerl` read into a [`PerlClass`].
/// Part of the conversion [`parse_pattern`] hands back, and called from nowhere else; its
/// result is what [`pattern_syntax`] names, and nothing more is stated.
#[verifier::external_body]
fn perl_of(class: &ClassPerl) -> PerlClass {
    let kind = match class.kind {
        ClassPerlKind::Digit => PerlKind::Digit,
        ClassPerlKind::Space => PerlKind::Space,
        ClassPerlKind::Word => PerlKind::Word,
    };
    let span = ByteSpan { start: class.span.start.offset, end: class.span.end.offset };
    PerlClass { span, kind, negated: class.negated }
}

/// A `ClassBracketed` read into a [`BracketedClass`].
/// Part of the conversion [`parse_pattern`] hands back, and called from nowhere else; its
/// result is what [`pattern_syntax`] names, and nothing more is stated.
#[verifier::external_body]
fn bracketed_of(class: &ClassBracketed) -> BracketedClass {
    BracketedClass { negated: class.negated, set: set_of(&class.kind) }
}

/// A `ClassSet` read into a [`ClassSetNode`], variant for variant.
/// Part of the conversion [`parse_pattern`] hands back, and called from nowhere else; its
/// result is what [`pattern_syntax`] names, and nothing more is stated.
#[verifier::external_body]
fn set_of(set: &ClassSet) -> ClassSetNode {
    match set {
        ClassSet::Item(item) => ClassSetNode::Item(item_of(item)),
        ClassSet::BinaryOp(op) => ClassSetNode::BinaryOp {
            operator: operator_of(&op.kind),
            lhs: Box::new(set_of(&op.lhs)),
            rhs: Box::new(set_of(&op.rhs)),
        },
    }
}

/// A `ClassSetItem` read into a [`ClassItem`], variant for variant.
/// Part of the conversion [`parse_pattern`] hands back, and called from nowhere else; its
/// result is what [`pattern_syntax`] names, and nothing more is stated.
#[verifier::external_body]
fn item_of(item: &ClassSetItem) -> ClassItem {
    match item {
        ClassSetItem::Empty(_) => ClassItem::Empty,
        ClassSetItem::Literal(lit) => ClassItem::Literal(literal_of(lit)),
        ClassSetItem::Range(range) => ClassItem::Range(literal_of(&range.start), literal_of(&range.end)),
        ClassSetItem::Ascii(_) => ClassItem::Ascii,
        ClassSetItem::Unicode(_) => ClassItem::Unicode,
        ClassSetItem::Perl(class) => ClassItem::Perl(perl_of(class)),
        ClassSetItem::Bracketed(class) => ClassItem::Bracketed(Box::new(bracketed_of(class))),
        ClassSetItem::Union(union) => ClassItem::Union(union.items.iter().map(item_of).collect()),
    }
}

/// A `ClassSetBinaryOpKind` read into a [`ClassOperator`], variant for variant.
/// Part of the conversion [`parse_pattern`] hands back, and called from nowhere else; its
/// result is what [`pattern_syntax`] names, and nothing more is stated.
#[verifier::external_body]
fn operator_of(kind: &ClassSetBinaryOpKind) -> ClassOperator {
    match kind {
        ClassSetBinaryOpKind::Intersection => ClassOperator::Intersection,
        ClassSetBinaryOpKind::Difference => ClassOperator::Difference,
        ClassSetBinaryOpKind::SymmetricDifference => ClassOperator::SymmetricDifference,
    }
}

/// A `GroupKind` read into a [`GroupShape`], variant for variant.
/// Part of the conversion [`parse_pattern`] hands back, and called from nowhere else; its
/// result is what [`pattern_syntax`] names, and nothing more is stated.
#[verifier::external_body]
fn shape_of(kind: &GroupKind) -> GroupShape {
    match kind {
        GroupKind::CaptureIndex(_) => GroupShape::CaptureIndex,
        GroupKind::CaptureName { starts_with_p, .. } => GroupShape::CaptureName { starts_with_p: *starts_with_p },
        GroupKind::NonCapturing(flags) => GroupShape::NonCapturing(flags.items.iter().map(flag_item_of).collect()),
    }
}

/// A `FlagsItem` read into a [`FlagItem`], variant for variant.
/// Part of the conversion [`parse_pattern`] hands back, and called from nowhere else; its
/// result is what [`pattern_syntax`] names, and nothing more is stated.
#[verifier::external_body]
fn flag_item_of(item: &FlagsItem) -> FlagItem {
    match &item.kind {
        FlagsItemKind::Negation => FlagItem::Negation,
        FlagsItemKind::Flag(flag) => FlagItem::Flag(flag_of(flag)),
    }
}

/// A `Flag` read into a [`FlagKind`], variant for variant.
/// Part of the conversion [`parse_pattern`] hands back, and called from nowhere else; its
/// result is what [`pattern_syntax`] names, and nothing more is stated.
#[verifier::external_body]
fn flag_of(flag: &Flag) -> FlagKind {
    match flag {
        Flag::CaseInsensitive => FlagKind::CaseInsensitive,
        Flag::MultiLine => FlagKind::MultiLine,
        Flag::DotMatchesNewLine => FlagKind::DotMatchesNewLine,
        Flag::SwapGreed => FlagKind::SwapGreed,
        Flag::Unicode => FlagKind::Unicode,
        Flag::CRLF => FlagKind::Crlf,
        Flag::IgnoreWhitespace => FlagKind::IgnoreWhitespace,
    }
}

/// A `RepetitionKind` read into a [`RepeatKind`], variant for variant.
/// Part of the conversion [`parse_pattern`] hands back, and called from nowhere else; its
/// result is what [`pattern_syntax`] names, and nothing more is stated.
#[verifier::external_body]
fn repeat_of(kind: &RepetitionKind) -> RepeatKind {
    match kind {
        RepetitionKind::ZeroOrOne => RepeatKind::ZeroOrOne,
        RepetitionKind::ZeroOrMore => RepeatKind::ZeroOrMore,
        RepetitionKind::OneOrMore => RepeatKind::OneOrMore,
        RepetitionKind::Range(RepetitionRange::Exactly(m)) => RepeatKind::Exactly(*m),
        RepetitionKind::Range(RepetitionRange::AtLeast(m)) => RepeatKind::AtLeast(*m),
        RepetitionKind::Range(RepetitionRange::Bounded(m, n)) => RepeatKind::Bounded(*m, *n),
    }
}

} // verus!
