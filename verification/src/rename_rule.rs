//! serde's `rename_all` casing rules.
//!
//! The spellings follow serde's own casing table, so generated TypeScript and Zod schemas carry
//! exactly the strings serde puts on the wire. serde applies different rules to struct fields
//! (already `snake_case` in Rust source) than to enum variants (`PascalCase` in Rust source), so
//! the two stay separate here as well.

use crate::text::{
    ascii_lower, ascii_upper, is_uppercase, lower_char, lower_seq, push_char, replace_char, replace_seq,
    str_eq, to_ascii_lowercase, to_ascii_uppercase, upper_char, uppercase, upper_seq,
};
use vstd::prelude::*;

verus! {

#[derive(Clone, Copy, Debug, PartialEq, Eq, Structural)]
pub enum RenameRule {
    CamelCase,
    KebabCase,
    LowerCase,
    NoRule,
    PascalCase,
    ScreamingKebabCase,
    ScreamingSnakeCase,
    SnakeCase,
    UpperCase,
}

/// `field_to_pascal` read over a prefix: the text written so far, and whether the next character
/// that is not `_` starts a word.
pub open spec fn pascal_state(s: Seq<char>) -> (Seq<char>, bool)
    decreases s.len(),
{
    if s.len() == 0 {
        (Seq::empty(), true)
    } else {
        let (written, capitalize) = pascal_state(s.drop_last());
        let c = s.last();
        if c == '_' {
            (written, true)
        } else if capitalize {
            (written.push(upper_char(c)), false)
        } else {
            (written.push(c), false)
        }
    }
}

/// A `snake_case` field in `PascalCase`: each `_` dropped and the character after it, and the first
/// character, uppercased.
pub open spec fn pascal_seq(s: Seq<char>) -> Seq<char> {
    pascal_state(s).0
}

/// The first character lowercased, the rest untouched.
pub open spec fn lower_first_seq(s: Seq<char>) -> Seq<char> {
    if s.len() == 0 {
        s
    } else {
        seq![lower_char(s[0])] + s.drop_first()
    }
}

/// A `PascalCase` variant in `snake_case`: a `_` before every uppercase character past the first,
/// and every character ASCII-lowercased.
pub open spec fn snake_seq(s: Seq<char>) -> Seq<char>
    decreases s.len(),
{
    if s.len() == 0 {
        Seq::empty()
    } else {
        let head = snake_seq(s.drop_last());
        let c = s.last();
        if s.len() > 1 && uppercase(c) {
            head.push('_').push(lower_char(c))
        } else {
            head.push(lower_char(c))
        }
    }
}

pub open spec fn kebab_seq(s: Seq<char>) -> Seq<char> {
    replace_seq(s, '_', '-')
}

/// What serde writes for a field declared as `field` under `rule`.
pub open spec fn field_spelling(rule: RenameRule, field: Seq<char>) -> Seq<char> {
    match rule {
        RenameRule::NoRule | RenameRule::LowerCase | RenameRule::SnakeCase => field,
        RenameRule::UpperCase | RenameRule::ScreamingSnakeCase => upper_seq(field),
        RenameRule::PascalCase => pascal_seq(field),
        RenameRule::CamelCase => lower_first_seq(pascal_seq(field)),
        RenameRule::KebabCase => kebab_seq(field),
        RenameRule::ScreamingKebabCase => kebab_seq(upper_seq(field)),
    }
}

/// What serde writes for a variant declared as `variant` under `rule`.
pub open spec fn variant_spelling(rule: RenameRule, variant: Seq<char>) -> Seq<char> {
    match rule {
        RenameRule::NoRule | RenameRule::PascalCase => variant,
        RenameRule::LowerCase => lower_seq(variant),
        RenameRule::UpperCase => upper_seq(variant),
        RenameRule::CamelCase => lower_first_seq(variant),
        RenameRule::SnakeCase => snake_seq(variant),
        RenameRule::ScreamingSnakeCase => upper_seq(snake_seq(variant)),
        RenameRule::KebabCase => kebab_seq(snake_seq(variant)),
        RenameRule::ScreamingKebabCase => kebab_seq(upper_seq(snake_seq(variant))),
    }
}

/// The mode serde spells `rule` as, for every rule serde accepts a mode for.
pub open spec fn mode_name(rule: RenameRule) -> Seq<char> {
    match rule {
        RenameRule::LowerCase => "lowercase"@,
        RenameRule::UpperCase => "UPPERCASE"@,
        RenameRule::PascalCase => "PascalCase"@,
        RenameRule::CamelCase => "camelCase"@,
        RenameRule::SnakeCase => "snake_case"@,
        RenameRule::ScreamingSnakeCase => "SCREAMING_SNAKE_CASE"@,
        RenameRule::KebabCase => "kebab-case"@,
        RenameRule::ScreamingKebabCase => "SCREAMING-KEBAB-CASE"@,
        RenameRule::NoRule => Seq::empty(),
    }
}

/// The rules serde names a mode for, in the order a refusal lists them.
pub open spec fn supported_rule(i: int) -> RenameRule {
    if i == 0 {
        RenameRule::LowerCase
    } else if i == 1 {
        RenameRule::UpperCase
    } else if i == 2 {
        RenameRule::PascalCase
    } else if i == 3 {
        RenameRule::CamelCase
    } else if i == 4 {
        RenameRule::SnakeCase
    } else if i == 5 {
        RenameRule::ScreamingSnakeCase
    } else if i == 6 {
        RenameRule::KebabCase
    } else {
        RenameRule::ScreamingKebabCase
    }
}

pub open spec fn supported_count() -> int {
    8
}

/// The first supported rule, from index `i` on, whose mode is spelled `mode`.
pub open spec fn mode_rule_from(mode: Seq<char>, i: int) -> Option<RenameRule>
    decreases supported_count() - i,
{
    if i >= supported_count() || i < 0 {
        None
    } else if mode_name(supported_rule(i)) == mode {
        Some(supported_rule(i))
    } else {
        mode_rule_from(mode, i + 1)
    }
}

/// The rule a `rename_all = "<mode>"` names, or `None` for a mode serde does not accept.
pub open spec fn mode_rule(mode: Seq<char>) -> Option<RenameRule> {
    mode_rule_from(mode, 0)
}

/// The supported modes from index `i` on, each in backticks-free form, joined by `, `.
pub open spec fn joined_modes_from(i: int) -> Seq<char>
    decreases supported_count() - i,
{
    if i >= supported_count() - 1 || i < 0 {
        mode_name(supported_rule(supported_count() - 1))
    } else {
        mode_name(supported_rule(i)) + ", "@ + joined_modes_from(i + 1)
    }
}

/// What the refusal of an unsupported `mode` says.
pub open spec fn unsupported_message_seq(mode: Seq<char>) -> Seq<char> {
    "unsupported serde `rename_all = \""@ + mode + "\"` in model_schema; supported modes: "@
        + joined_modes_from(0)
}

impl RenameRule {
    /// The mode this rule is spelled as, where serde accepts one for it.
    pub fn mode(self) -> (r: &'static str)
        ensures
            r@ == mode_name(self),
    {
        match self {
            RenameRule::LowerCase => "lowercase",
            RenameRule::UpperCase => "UPPERCASE",
            RenameRule::PascalCase => "PascalCase",
            RenameRule::CamelCase => "camelCase",
            RenameRule::SnakeCase => "snake_case",
            RenameRule::ScreamingSnakeCase => "SCREAMING_SNAKE_CASE",
            RenameRule::KebabCase => "kebab-case",
            RenameRule::ScreamingKebabCase => "SCREAMING-KEBAB-CASE",
            RenameRule::NoRule => {
                proof {
                    reveal_strlit("");
                }
                ""
            },
        }
    }

    pub fn apply_to_field(self, field: &str) -> (r: String)
        ensures
            r@ == field_spelling(self, field@),
    {
        match self {
            RenameRule::NoRule | RenameRule::LowerCase | RenameRule::SnakeCase => field.to_owned(),
            RenameRule::UpperCase | RenameRule::ScreamingSnakeCase => to_ascii_uppercase(field),
            RenameRule::PascalCase => field_to_pascal(field),
            RenameRule::CamelCase => {
                let pascal = field_to_pascal(field);
                lower_first(pascal.as_str())
            },
            RenameRule::KebabCase => replace_char(field, '_', '-'),
            RenameRule::ScreamingKebabCase => {
                let upper = to_ascii_uppercase(field);
                replace_char(upper.as_str(), '_', '-')
            },
        }
    }

    pub fn apply_to_variant(self, variant: &str) -> (r: String)
        ensures
            r@ == variant_spelling(self, variant@),
    {
        match self {
            RenameRule::NoRule | RenameRule::PascalCase => variant.to_owned(),
            RenameRule::LowerCase => to_ascii_lowercase(variant),
            RenameRule::UpperCase => to_ascii_uppercase(variant),
            RenameRule::CamelCase => lower_first(variant),
            RenameRule::SnakeCase => variant_to_snake(variant),
            RenameRule::ScreamingSnakeCase => {
                let snake = variant_to_snake(variant);
                to_ascii_uppercase(snake.as_str())
            },
            RenameRule::KebabCase => {
                let snake = variant_to_snake(variant);
                replace_char(snake.as_str(), '_', '-')
            },
            RenameRule::ScreamingKebabCase => {
                let snake = variant_to_snake(variant);
                let upper = to_ascii_uppercase(snake.as_str());
                replace_char(upper.as_str(), '_', '-')
            },
        }
    }

    /// The rule a serde `rename_all` mode names, or `None` for a mode this table does not hold.
    pub fn from_mode(mode: &str) -> (r: Option<RenameRule>)
        ensures
            r == mode_rule(mode@),
    {
        let supported = supported_rules();
        let mut i: usize = 0;
        while i < 8
            invariant
                0 <= i <= 8,
                supported@.len() == 8,
                forall|j: int| 0 <= j < 8 ==> supported@[j] == supported_rule(j),
                mode_rule(mode@) == mode_rule_from(mode@, i as int),
            decreases 8 - i,
        {
            let rule = supported[i];
            if str_eq(mode, rule.mode()) {
                return Some(rule);
            }
            i = i + 1;
        }
        None
    }
}

/// The rules serde names a mode for, in table order.
fn supported_rules() -> (r: Vec<RenameRule>)
    ensures
        r@.len() == 8,
        forall|j: int| 0 <= j < 8 ==> r@[j] == supported_rule(j),
{
    vec![
        RenameRule::LowerCase,
        RenameRule::UpperCase,
        RenameRule::PascalCase,
        RenameRule::CamelCase,
        RenameRule::SnakeCase,
        RenameRule::ScreamingSnakeCase,
        RenameRule::KebabCase,
        RenameRule::ScreamingKebabCase,
    ]
}

fn field_to_pascal(field: &str) -> (r: String)
    ensures
        r@ == pascal_seq(field@),
{
    let mut pascal = String::new();
    let mut capitalize = true;
    for ch in it: field.chars()
        invariant
            it.seq() == field@,
            (pascal@, capitalize) == pascal_state(field@.take(it.index() as int)),
    {
        proof {
            let p = field@.take(it.index() + 1);
            assert(p.drop_last() == field@.take(it.index() as int));
        }
        if ch == '_' {
            capitalize = true;
        } else if capitalize {
            push_char(&mut pascal, ascii_upper(ch));
            capitalize = false;
        } else {
            push_char(&mut pascal, ch);
        }
    }
    assert(field@.take(field@.len() as int) == field@);
    pascal
}

/// serde lowercases only the leading character, leaving the rest untouched.
fn lower_first(name: &str) -> (r: String)
    ensures
        r@ == lower_first_seq(name@),
{
    let mut r = String::new();
    let mut first = true;
    for ch in it: name.chars()
        invariant
            it.seq() == name@,
            first == (it.index() == 0),
            r@ == lower_first_seq(name@.take(it.index() as int)),
    {
        proof {
            let p = name@.take(it.index() + 1);
            assert(p == name@.take(it.index() as int).push(ch));
            if it.index() > 0 {
                assert(p.drop_first() == name@.take(it.index() as int).drop_first().push(ch));
            }
        }
        if first {
            push_char(&mut r, ascii_lower(ch));
        } else {
            push_char(&mut r, ch);
        }
        first = false;
    }
    assert(name@.take(name@.len() as int) == name@);
    r
}

/// serde inserts a separator before every uppercase character past the first, so an acronym run
/// yields one underscore per capital (`HttpSSHProxy` -> `http_s_s_h_proxy`) and digits, not being
/// uppercase, never introduce a word break (`Base64Payload` -> `base64_payload`).
fn variant_to_snake(variant: &str) -> (r: String)
    ensures
        r@ == snake_seq(variant@),
{
    let mut snake = String::new();
    let mut first = true;
    for ch in it: variant.chars()
        invariant
            it.seq() == variant@,
            first == (it.index() == 0),
            snake@ == snake_seq(variant@.take(it.index() as int)),
    {
        proof {
            let p = variant@.take(it.index() + 1);
            assert(p.drop_last() == variant@.take(it.index() as int));
        }
        if !first && is_uppercase(ch) {
            push_char(&mut snake, '_');
        }
        push_char(&mut snake, ascii_lower(ch));
        first = false;
    }
    assert(variant@.take(variant@.len() as int) == variant@);
    snake
}

/// Resolves a `rename_all` mode string; the mode, where there is one, is one the table holds.
pub fn resolve_rename_rule(rename_all: Option<&str>) -> (r: RenameRule)
    requires
        rename_all matches Some(mode) ==> mode_rule(mode@) is Some,
    ensures
        r == (match rename_all {
            Some(mode) => mode_rule(mode@).unwrap(),
            None => RenameRule::NoRule,
        }),
{
    match rename_all {
        None => RenameRule::NoRule,
        Some(mode) => {
            let rule = RenameRule::from_mode(mode);
            rule.unwrap()
        },
    }
}

/// What a refusal of an unsupported `rename_all` mode says: the mode, and every supported one.
pub fn unsupported_mode_message(mode: &str) -> (r: String)
    ensures
        r@ == unsupported_message_seq(mode@),
{
    let supported = supported_rules();
    let mut joined = String::new();
    let mut i: usize = 8;
    while i > 0
        invariant
            0 <= i <= 8,
            supported@.len() == 8,
            forall|j: int| 0 <= j < 8 ==> supported@[j] == supported_rule(j),
            i < 8 ==> joined@ == joined_modes_from(i as int),
            i == 8 ==> joined@ == Seq::<char>::empty(),
        decreases i,
    {
        i = i - 1;
        let name = supported[i].mode();
        let mut next = String::from_str(name);
        if i < 7 {
            next.append(", ");
            next.append(joined.as_str());
        }
        joined = next;
    }
    let mut message = String::from_str("unsupported serde `rename_all = \"");
    message.append(mode);
    message.append("\"` in model_schema; supported modes: ");
    message.append(joined.as_str());
    message
}


/// Every mode serde accepts reads back to the rule it names: the table pairs each rule with one
/// spelling, and no spelling with two rules.
pub proof fn lemma_mode_reads_back_its_rule(rule: RenameRule)
    requires
        rule != RenameRule::NoRule,
    ensures
        mode_rule(mode_name(rule)) == Some(rule),
{
    reveal_strlit("lowercase");
    reveal_strlit("UPPERCASE");
    reveal_strlit("PascalCase");
    reveal_strlit("camelCase");
    reveal_strlit("snake_case");
    reveal_strlit("SCREAMING_SNAKE_CASE");
    reveal_strlit("kebab-case");
    reveal_strlit("SCREAMING-KEBAB-CASE");
    let m = mode_name(rule);
    assert forall|i: int, j: int| 0 <= i < j < supported_count() implies mode_name(
        #[trigger] supported_rule(i),
    ) != mode_name(#[trigger] supported_rule(j)) by {
        let a = mode_name(supported_rule(i));
        let b = mode_name(supported_rule(j));
        if a.len() == b.len() {
            if a[0] == b[0] {
                assert(a[9] != b[9]);
            } else {
                assert(a[0] != b[0]);
            }
        }
    }
    let k: int = if rule == RenameRule::LowerCase {
        0
    } else if rule == RenameRule::UpperCase {
        1
    } else if rule == RenameRule::PascalCase {
        2
    } else if rule == RenameRule::CamelCase {
        3
    } else if rule == RenameRule::SnakeCase {
        4
    } else if rule == RenameRule::ScreamingSnakeCase {
        5
    } else if rule == RenameRule::KebabCase {
        6
    } else {
        7
    };
    assert(supported_rule(k) == rule);
    lemma_mode_rule_from_finds(m, 0, k);
}

/// Reading from `i`, a mode spelled only by the rule at `k` is found there.
proof fn lemma_mode_rule_from_finds(mode: Seq<char>, i: int, k: int)
    requires
        0 <= i <= k < supported_count(),
        mode_name(supported_rule(k)) == mode,
        forall|a: int, b: int|
            0 <= a < b < supported_count() ==> mode_name(#[trigger] supported_rule(a)) != mode_name(
                #[trigger] supported_rule(b),
            ),
    ensures
        mode_rule_from(mode, i) == Some(supported_rule(k)),
    decreases k - i,
{
    if i < k {
        assert(mode_name(supported_rule(i)) != mode_name(supported_rule(k)));
        lemma_mode_rule_from_finds(mode, i + 1, k);
    }
}

/// `s` split at each `_` read over a prefix: the pieces ended so far and the one being read.
pub open spec fn underscore_split_state(s: Seq<char>) -> (Seq<Seq<char>>, Seq<char>)
    decreases s.len(),
{
    if s.len() == 0 {
        (Seq::empty(), Seq::empty())
    } else {
        let (done, current) = underscore_split_state(s.drop_last());
        if s.last() == '_' {
            (done.push(current), Seq::empty())
        } else {
            (done, current.push(s.last()))
        }
    }
}

/// The pieces `str::split('_')` gives of `s`, empty ones included.
pub open spec fn underscore_pieces(s: Seq<char>) -> Seq<Seq<char>> {
    underscore_split_state(s).0.push(underscore_split_state(s).1)
}

/// A piece with its first character ASCII-uppercased.
pub open spec fn capitalized(piece: Seq<char>) -> Seq<char> {
    if piece.len() == 0 {
        piece
    } else {
        seq![upper_char(piece[0])] + piece.drop_first()
    }
}

/// Pieces written one after the other.
pub open spec fn concatenated(pieces: Seq<Seq<char>>) -> Seq<char>
    decreases pieces.len(),
{
    if pieces.len() == 0 {
        Seq::empty()
    } else {
        concatenated(pieces.drop_last()) + pieces.last()
    }
}

proof fn lemma_pascal_state_splits(s: Seq<char>)
    ensures
        pascal_state(s).0 == concatenated(
            underscore_split_state(s).0.map_values(|piece: Seq<char>| capitalized(piece)),
        ) + capitalized(underscore_split_state(s).1),
        pascal_state(s).1 == (underscore_split_state(s).1.len() == 0),
    decreases s.len(),
{
    if s.len() > 0 {
        lemma_pascal_state_splits(s.drop_last());
        let (done, current) = underscore_split_state(s.drop_last());
        let c = s.last();
        let mapped = done.map_values(|piece: Seq<char>| capitalized(piece));
        if c == '_' {
            let more = done.push(current).map_values(|piece: Seq<char>| capitalized(piece));
            assert(more =~= mapped.push(capitalized(current)));
            assert(more.drop_last() =~= mapped);
            assert(concatenated(more) == concatenated(mapped) + capitalized(current));
            assert(capitalized(Seq::<char>::empty()) =~= Seq::<char>::empty());
            assert(concatenated(more) + capitalized(Seq::<char>::empty()) =~= concatenated(more));
        } else if current.len() == 0 {
            assert(capitalized(current.push(c)) =~= seq![upper_char(c)]);
            assert(capitalized(current) =~= Seq::<char>::empty());
        } else {
            assert(capitalized(current.push(c)) =~= capitalized(current).push(c));
        }
    }
}

/// A field's `PascalCase` spelling is its pieces between underscores, each with its first
/// character ASCII-uppercased, written one after the other; `camelCase` is that with its first
/// character ASCII-lowercased.
pub proof fn lemma_pascal_case_capitalises_each_piece(field: Seq<char>)
    ensures
        field_spelling(RenameRule::PascalCase, field) == concatenated(
            underscore_pieces(field).map_values(|piece: Seq<char>| capitalized(piece)),
        ),
        field_spelling(RenameRule::CamelCase, field) == lower_first_seq(
            concatenated(underscore_pieces(field).map_values(|piece: Seq<char>| capitalized(piece))),
        ),
{
    lemma_pascal_state_splits(field);
    let (done, current) = underscore_split_state(field);
    let all = done.push(current).map_values(|piece: Seq<char>| capitalized(piece));
    assert(all.drop_last() =~= done.map_values(|piece: Seq<char>| capitalized(piece)));
    assert(all.last() == capitalized(current));
}

} // verus!
