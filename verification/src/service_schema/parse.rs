//! The shape a `#[service_schema]` trait is read into, and the only place it is read.
//!
//! `parse_service` turns a declared trait into a [`ServiceDef`]. Every emitter downstream reads
//! that value and re-reads the trait for nothing, so a rule about what a service may say is written
//! once, here.
//!
//! Per operation the representation answers what it is called (the Rust ident, the camelCased
//! TypeScript name and the kebab-cased wire name, only the last overridable), what it receives (one
//! message, always), and what it answers with (the two declared arms, or nothing). The context is
//! on [`ServiceDef`], not on any operation: every operation takes it, and it reaches no message and
//! no schema.

use crate::rename_rule::{field_spelling, RenameRule};
use crate::service_schema::declared::{
    declared_service, declared_service_of, DeclaredInput, DeclaredOperation, DeclaredOutput, DeclaredService,
};
use crate::syntax::{
    argument_as_type_of, ident_text_of, path_type_last_segment_of, segment_angle_arguments_of,
    segment_ident_of, argument_as_type, clone_error, clone_ident, clone_type, combine_errors, error_at, error_messages_of, plain_type_name,
    ident_text,
    parse_ident, path_type_last_segment, segment_angle_arguments, segment_ident, Refusal,
    WrittenArgument, WrittenValue,
};
use crate::text::{chars_of, str_eq};
use vstd::prelude::*;

verus! {

/// One service, read once.
pub struct ServiceDef {
    /// The trait's type parameter, which every operation takes and no message carries.
    pub context_param: proc_macro2::Ident,
    /// The trait as declared: `UsageService`.
    pub ident: proc_macro2::Ident,
    pub operations: Vec<OperationDef>,
    /// The messages the macro declares, one per operation that named none, in operation order.
    pub generated_messages: Vec<GeneratedMessage>,
}

/// One operation: a name in three spellings, a message in, and either a reply or nothing.
pub struct OperationDef {
    /// The trait method as declared: `get_available_balance`.
    pub ident: proc_macro2::Ident,
    pub inputs: OperationInputs,
    pub outcome: OperationOutcome,
    /// How a TypeScript caller spells it: `getAvailableBalance`.
    pub ts_name: String,
    /// What the wire carries: `get-available-balance`, or the `message = "..."` override.
    pub wire_name: String,
}

/// How the incoming message was declared. Which one it is decides who declares the message, never
/// whether there is one — every operation receives exactly one.
pub enum OperationInputs {
    /// No arguments after the context. An empty message is declared for it.
    Empty,
    /// More than one argument after the context, in declaration order. The message is declared
    /// from the list and each argument's name becomes a field on it.
    Generated(Vec<(proc_macro2::Ident, syn::Type)>),
    /// Exactly one argument after the context. That argument's type already is the message.
    Named(Box<syn::Type>),
}

/// What the operation answers with.
pub enum OperationOutcome {
    /// Marked `#[service_schema_op(one_way)]`: no reply, and therefore no error arm either.
    OneWay,
    /// The two arms of the declared `Result<Success, Error>`.
    Reply { error: Box<syn::Type>, success: Box<syn::Type> },
}

/// A message the macro declares for an operation that named none: `<Operation>Request`, with one
/// field per argument, in declaration order.
pub struct GeneratedMessage {
    pub ident: proc_macro2::Ident,
    /// The operation it is declared for, which its documentation names.
    pub declared_for: proc_macro2::Ident,
    pub fields: Vec<(proc_macro2::Ident, syn::Type)>,
}

/// A refusal an operation earned: one written here, or one the parser of its attribute raised.
pub enum Refused {
    Written(Refusal),
    Parsed(syn::Error),
}

// --- What the names are ---------------------------------------------------------------------

pub open spec fn ts_name_seq(declared: Seq<char>) -> Seq<char> {
    field_spelling(RenameRule::CamelCase, declared)
}

pub open spec fn wire_name_seq(declared: Seq<char>, message: Option<Seq<char>>) -> Seq<char> {
    match message {
        Some(name) => name,
        None => field_spelling(RenameRule::KebabCase, declared),
    }
}

pub open spec fn generated_message_seq(declared: Seq<char>) -> Seq<char> {
    field_spelling(RenameRule::PascalCase, declared) + "Request"@
}

/// How a TypeScript caller spells the operation declared as `declared`.
pub fn ts_name(declared: &str) -> (r: String)
    ensures
        r@ == ts_name_seq(declared@),
{
    RenameRule::CamelCase.apply_to_field(declared)
}

/// What the wire carries for the operation declared as `declared`: the override, or the
/// kebab-cased name.
pub fn wire_name(declared: &str, message: Option<String>) -> (r: String)
    ensures
        r@ == wire_name_seq(
            declared@,
            match message {
                Some(name) => Some(name@),
                None => None,
            },
        ),
{
    match message {
        Some(name) => name,
        None => RenameRule::KebabCase.apply_to_field(declared),
    }
}

/// The name of the message the macro declares for the operation declared as `declared`.
pub fn generated_message_name(declared: &str) -> (r: String)
    ensures
        r@ == generated_message_seq(declared@),
{
    let mut r = RenameRule::PascalCase.apply_to_field(declared);
    r.append("Request");
    r
}

// --- What the refusals say ------------------------------------------------------------------

pub open spec fn missing_context_parameter_seq(service: Seq<char>) -> Seq<char> {
    "service_schema: trait `"@ + service
        + "` declares no context type parameter\n       give it one, as in `trait "@ + service
        + "<Ctx>`, and take it in every operation"@
}

pub open spec fn missing_context_argument_seq(operation: Seq<char>, context: Seq<char>) -> Seq<char> {
    "service_schema: operation `"@ + operation
        + "` does not take the context\n       every operation takes `ctx: &"@ + context
        + "` as its first argument after `&self`"@
}

pub open spec fn missing_receiver_seq(operation: Seq<char>) -> Seq<char> {
    "service_schema: operation `"@ + operation
        + "` does not take `&self`\n       an operation is called on the service value, so `&self` comes first"@
}

pub open spec fn missing_return_type_seq(operation: Seq<char>) -> Seq<char> {
    "service_schema: operation `"@ + operation
        + "` has no return type\n       add `#[service_schema_op(one_way)]` if it expects no reply,\n       or give it a `Result<Success, Error>` return"@
}

pub open spec fn non_result_return_seq(operation: Seq<char>) -> Seq<char> {
    "service_schema: operation `"@ + operation
        + "` must return `Result<Success, Error>`\n       an operation declares its success type and its error type in one signature"@
}

pub open spec fn one_way_returns_a_value_seq(operation: Seq<char>) -> Seq<char> {
    "service_schema: operation `"@ + operation
        + "` is marked `one_way` but returns a value\n       a one-way operation produces no reply"@
}

pub open spec fn plain_argument_name_seq(operation: Seq<char>) -> Seq<char> {
    "service_schema: operation `"@ + operation
        + "` takes an argument that is not a plain name\n       an argument's name becomes a field on the message declared from the argument list"@
}

pub open spec fn context_on_the_wire_seq(operation: Seq<char>, context: Seq<char>) -> Seq<char> {
    "service_schema: operation `"@ + operation + "` puts the context type `"@ + context
        + "` on the wire\n       the context reaches no message and no schema, so it belongs in neither the arguments nor either result arm"@
}

pub open spec fn duplicate_ts_name_seq(
    service: Seq<char>,
    spelling: Seq<char>,
    taken: Seq<char>,
    second: Seq<char>,
) -> Seq<char> {
    "service_schema: trait `"@ + service + "` spells two operations `"@ + spelling
        + "` in TypeScript\n       `"@ + taken + "` and `"@ + second
        + "` differ in Rust and collide once camelCased"@
}

pub open spec fn duplicate_wire_name_seq(
    service: Seq<char>,
    carried: Seq<char>,
    taken: Seq<char>,
    second: Seq<char>,
) -> Seq<char> {
    "service_schema: trait `"@ + service + "` carries the wire name `"@ + carried
        + "` on two operations\n       `"@ + taken + "` and `"@ + second
        + "` would be indistinguishable on the wire; move one with `#[service_schema_op(message = \"...\")]`"@
}

pub open spec fn message_collision_seq(
    declared_for: Seq<char>,
    message: Seq<char>,
    naming: Seq<char>,
) -> Seq<char> {
    "service_schema: operation `"@ + declared_for + "` names no message, so `"@ + message
        + "` is declared for it, and operation `"@ + naming + "` already names a type spelled `"@
        + message
        + "`\n       one name cannot carry two declarations; rename the operation, or have it take the existing `"@
        + message + "` as its one argument"@
}

pub open spec fn unknown_directive_seq() -> Seq<char> {
    "service_schema: unknown `service_schema_op` directive\n       the directives are `message = \"<wire name>\"` and `one_way`"@
}

pub fn missing_context_parameter_message(service: &str) -> (r: String)
    ensures
        r@ == missing_context_parameter_seq(service@),
{
    let mut r = String::from_str("service_schema: trait `");
    r.append(service);
    r.append("` declares no context type parameter\n       give it one, as in `trait ");
    r.append(service);
    r.append("<Ctx>`, and take it in every operation");
    r
}

pub fn missing_context_argument_message(operation: &str, context: &str) -> (r: String)
    ensures
        r@ == missing_context_argument_seq(operation@, context@),
{
    let mut r = String::from_str("service_schema: operation `");
    r.append(operation);
    r.append("` does not take the context\n       every operation takes `ctx: &");
    r.append(context);
    r.append("` as its first argument after `&self`");
    r
}

pub fn missing_receiver_message(operation: &str) -> (r: String)
    ensures
        r@ == missing_receiver_seq(operation@),
{
    let mut r = String::from_str("service_schema: operation `");
    r.append(operation);
    r.append(
        "` does not take `&self`\n       an operation is called on the service value, so `&self` comes first",
    );
    r
}

pub fn missing_return_type_message(operation: &str) -> (r: String)
    ensures
        r@ == missing_return_type_seq(operation@),
{
    let mut r = String::from_str("service_schema: operation `");
    r.append(operation);
    r.append(
        "` has no return type\n       add `#[service_schema_op(one_way)]` if it expects no reply,\n       or give it a `Result<Success, Error>` return",
    );
    r
}

pub fn non_result_return_message(operation: &str) -> (r: String)
    ensures
        r@ == non_result_return_seq(operation@),
{
    let mut r = String::from_str("service_schema: operation `");
    r.append(operation);
    r.append(
        "` must return `Result<Success, Error>`\n       an operation declares its success type and its error type in one signature",
    );
    r
}

pub fn one_way_returns_a_value_message(operation: &str) -> (r: String)
    ensures
        r@ == one_way_returns_a_value_seq(operation@),
{
    let mut r = String::from_str("service_schema: operation `");
    r.append(operation);
    r.append("` is marked `one_way` but returns a value\n       a one-way operation produces no reply");
    r
}

pub fn plain_argument_name_message(operation: &str) -> (r: String)
    ensures
        r@ == plain_argument_name_seq(operation@),
{
    let mut r = String::from_str("service_schema: operation `");
    r.append(operation);
    r.append(
        "` takes an argument that is not a plain name\n       an argument's name becomes a field on the message declared from the argument list",
    );
    r
}

pub fn context_on_the_wire_message(operation: &str, context: &str) -> (r: String)
    ensures
        r@ == context_on_the_wire_seq(operation@, context@),
{
    let mut r = String::from_str("service_schema: operation `");
    r.append(operation);
    r.append("` puts the context type `");
    r.append(context);
    r.append(
        "` on the wire\n       the context reaches no message and no schema, so it belongs in neither the arguments nor either result arm",
    );
    r
}

pub fn duplicate_ts_name_message(service: &str, spelling: &str, taken: &str, second: &str) -> (r:
    String)
    ensures
        r@ == duplicate_ts_name_seq(service@, spelling@, taken@, second@),
{
    let mut r = String::from_str("service_schema: trait `");
    r.append(service);
    r.append("` spells two operations `");
    r.append(spelling);
    r.append("` in TypeScript\n       `");
    r.append(taken);
    r.append("` and `");
    r.append(second);
    r.append("` differ in Rust and collide once camelCased");
    r
}

pub fn duplicate_wire_name_message(service: &str, carried: &str, taken: &str, second: &str) -> (r:
    String)
    ensures
        r@ == duplicate_wire_name_seq(service@, carried@, taken@, second@),
{
    let mut r = String::from_str("service_schema: trait `");
    r.append(service);
    r.append("` carries the wire name `");
    r.append(carried);
    r.append("` on two operations\n       `");
    r.append(taken);
    r.append("` and `");
    r.append(second);
    r.append(
        "` would be indistinguishable on the wire; move one with `#[service_schema_op(message = \"...\")]`",
    );
    r
}

pub fn message_collision_message(declared_for: &str, message: &str, naming: &str) -> (r: String)
    ensures
        r@ == message_collision_seq(declared_for@, message@, naming@),
{
    let mut r = String::from_str("service_schema: operation `");
    r.append(declared_for);
    r.append("` names no message, so `");
    r.append(message);
    r.append("` is declared for it, and operation `");
    r.append(naming);
    r.append("` already names a type spelled `");
    r.append(message);
    r.append(
        "`\n       one name cannot carry two declarations; rename the operation, or have it take the existing `",
    );
    r.append(message);
    r.append("` as its one argument");
    r
}

// --- Whether a type names the context -------------------------------------------------------

/// Whether `c` can continue an identifier, as far as the printed tokens of a type are concerned.
pub open spec fn is_ident_char(c: char) -> bool {
    ('a' <= c && c <= 'z') || ('A' <= c && c <= 'Z') || ('0' <= c && c <= '9') || c == '_'
        || c > '\x7f'
}

/// Reading the first `n` characters of printed tokens: whether a string literal is open there, and
/// whether its last character was an escaping backslash.
pub open spec fn string_state(text: Seq<char>, n: int) -> (bool, bool)
    decreases n,
{
    if n <= 0 {
        (false, false)
    } else {
        let (open, escaped) = string_state(text, n - 1);
        let c = text[n - 1];
        if !open {
            (c == '"', false)
        } else if escaped {
            (true, false)
        } else if c == '\\' {
            (true, true)
        } else if c == '"' {
            (false, false)
        } else {
            (true, false)
        }
    }
}

/// Whether `word` occurs in `text` at `at` as a whole identifier token: neither side continues it,
/// it is not the tail of a raw identifier `r#...`, and it is not inside a string literal.
pub open spec fn word_at(text: Seq<char>, word: Seq<char>, at: int) -> bool {
    &&& 0 <= at
    &&& at + word.len() <= text.len()
    &&& text.subrange(at, at + word.len()) == word
    &&& (at == 0 || (!is_ident_char(text[at - 1]) && text[at - 1] != '#'))
    &&& (at + word.len() == text.len() || !is_ident_char(text[at + word.len()]))
    &&& !string_state(text, at).0
}

/// Whether the printed tokens `text` name the identifier `word` anywhere.
pub open spec fn names_word(text: Seq<char>, word: Seq<char>) -> bool {
    word.len() > 0 && exists|at: int| word_at(text, word, at)
}

fn ident_char(c: char) -> (r: bool)
    ensures
        r == is_ident_char(c),
{
    ('a' <= c && c <= 'z') || ('A' <= c && c <= 'Z') || ('0' <= c && c <= '9') || c == '_' || c
        > '\x7f'
}

/// Whether the printed tokens of a type hold the identifier `word` as a token of its own, `Ctx`
/// and `Vec < Ctx >` alike, neither `r#Ctx` nor the text of a string literal counting. The context
/// is a type parameter of the trait, so an occurrence of its name in a message or a result arm is
/// the context itself rather than a coincidence.
pub fn text_names_word(text: &str, word: &str) -> (r: bool)
    ensures
        r == names_word(text@, word@),
{
    let t = chars_of(text);
    let w = chars_of(word);
    let n = t.len();
    let m = w.len();
    if m == 0 || m > n {
        proof {
            if m > n {
                assert forall|at: int| !word_at(text@, word@, at) by {}
            }
        }
        return false;
    }
    let mut at: usize = 0;
    let mut open = false;
    let mut escaped = false;
    while at <= n - m
        invariant
            t@ == text@,
            w@ == word@,
            n == t@.len(),
            m == w@.len(),
            0 < m <= n,
            at <= n - m + 1,
            (open, escaped) == string_state(text@, at as int),
            forall|k: int| 0 <= k < at ==> !word_at(text@, word@, k),
        decreases n - at,
    {
        let mut j: usize = 0;
        let mut same = true;
        while j < m
            invariant
                t@ == text@,
                w@ == word@,
                n == t@.len(),
                m == w@.len(),
                at + m <= n,
                0 <= j <= m,
                same == (forall|k: int| 0 <= k < j ==> t@[at + k] == w@[k]),
            decreases m - j,
        {
            if t[at + j] != w[j] {
                same = false;
            }
            j = j + 1;
        }
        proof {
            if same {
                assert(t@.subrange(at as int, at + m) =~= w@);
            } else {
                let k = choose|k: int| 0 <= k < m && t@[at + k] != w@[k];
                assert(t@.subrange(at as int, at + m)[k] != w@[k]);
            }
        }
        let before = at == 0 || (!ident_char(t[at - 1]) && t[at - 1] != '#');
        let after = at + m == n || !ident_char(t[at + m]);
        if same && before && after && !open {
            assert(word_at(text@, word@, at as int));
            return true;
        }
        let c = t[at];
        if !open {
            open = c == '"';
            escaped = false;
        } else if escaped {
            escaped = false;
        } else if c == '\\' {
            escaped = true;
        } else if c == '"' {
            open = false;
        }
        at = at + 1;
    }
    assert forall|k: int| !word_at(text@, word@, k) by {
        if k >= at {
            assert(k + m > n);
        }
    }
    false
}

// --- When two operations are one -----------------------------------------------------------

/// The views of a list of strings.
pub open spec fn name_views(names: Seq<String>) -> Seq<Seq<char>> {
    names.map_values(|name: String| name@)
}

/// The latest position below `j` carrying the same name as position `i`.
pub open spec fn taker_below(names: Seq<Seq<char>>, i: int, j: int) -> Option<int>
    decreases j,
{
    if j <= 0 {
        None
    } else if names[j - 1] == names[i] {
        Some(j - 1)
    } else {
        taker_below(names, i, j - 1)
    }
}

/// The latest earlier position carrying the same name as position `i`, which is what a map keyed
/// by name hands back when the name is inserted a second time.
pub open spec fn taker(names: Seq<Seq<char>>, i: int) -> Option<int> {
    taker_below(names, i, i)
}

/// No two positions carry the same name.
pub open spec fn all_distinct(names: Seq<Seq<char>>) -> bool {
    forall|a: int, b: int| 0 <= a < b < names.len() ==> names[a] != names[b]
}

/// Where position `i`'s name was already taken, the position that took it last.
pub fn taken_earlier(names: &Vec<String>, i: usize) -> (r: Option<usize>)
    requires
        i < names@.len(),
    ensures
        match r {
            Some(j) => taker(name_views(names@), i as int) == Some(j as int) && j < i,
            None => taker(name_views(names@), i as int) is None,
        },
        r is None ==> forall|j: int| 0 <= j < i ==> names@[j]@ != names@[i as int]@,
{
    let ghost views = name_views(names@);
    let mut j = i;
    while j > 0
        invariant
            0 <= j <= i < names@.len(),
            views == name_views(names@),
            taker(views, i as int) == taker_below(views, i as int, j as int),
            forall|k: int| j <= k < i ==> names@[k]@ != names@[i as int]@,
        decreases j,
    {
        j = j - 1;
        assert(views[j as int] == names@[j as int]@);
        if str_eq(names[j].as_str(), names[i].as_str()) {
            return Some(j);
        }
    }
    None
}

// --- What the answer is ----------------------------------------------------------------------

/// What the `one_way` flag and the return type together decide.
#[derive(Clone, Copy, Debug, PartialEq, Eq, Structural)]
pub enum OutcomeDecision {
    OneWay,
    Reply,
    MissingReturnType,
    OneWayReturnsAValue,
    NotAResult,
}

pub open spec fn outcome_decision_spec(answers: bool, one_way: bool, result_arms: bool) -> OutcomeDecision {
    if !answers {
        if one_way {
            OutcomeDecision::OneWay
        } else {
            OutcomeDecision::MissingReturnType
        }
    } else if one_way {
        OutcomeDecision::OneWayReturnsAValue
    } else if result_arms {
        OutcomeDecision::Reply
    } else {
        OutcomeDecision::NotAResult
    }
}

/// The `one_way` flag and the return type have to agree, and the check runs in both directions: a
/// forgotten `Result` is a refusal naming both choices rather than a silent fire-and-forget, and a
/// `one_way` operation that returns something is refused just as loudly.
pub fn outcome_decision(answers: bool, one_way: bool, result_arms: bool) -> (r: OutcomeDecision)
    ensures
        r == outcome_decision_spec(answers, one_way, result_arms),
{
    if !answers {
        if one_way {
            OutcomeDecision::OneWay
        } else {
            OutcomeDecision::MissingReturnType
        }
    } else if one_way {
        OutcomeDecision::OneWayReturnsAValue
    } else if result_arms {
        OutcomeDecision::Reply
    } else {
        OutcomeDecision::NotAResult
    }
}

/// The positions of the generic arguments that are types, in order.
pub open spec fn type_positions(kinds: Seq<bool>) -> Seq<int>
    decreases kinds.len(),
{
    if kinds.len() == 0 {
        Seq::empty()
    } else if kinds.last() {
        type_positions(kinds.drop_last()).push(kinds.len() - 1)
    } else {
        type_positions(kinds.drop_last())
    }
}

/// Where a return type whose last path segment is `name`, with generic arguments of the given kinds
/// (`true` for a type), holds its success and error arms: it is a `Result` naming exactly two
/// types, and they are the arms in order. Anything else — a bare value, a `Result` naming one arm
/// — holds none.
pub open spec fn result_arms_reading(name: Seq<char>, kinds: Seq<bool>) -> Option<(int, int)> {
    let types = type_positions(kinds);
    if name == "Result"@ && types.len() == 2 {
        Some((types[0], types[1]))
    } else {
        None
    }
}

/// The positions of a `Result`'s success and error arms among its generic arguments, as
/// [`result_arms_reading`] reads them.
pub fn result_arm_positions(name: &str, kinds: &Vec<bool>) -> (r: Option<(usize, usize)>)
    ensures
        match r {
            Some((success, error)) => result_arms_reading(name@, kinds@) == Some(
                (success as int, error as int),
            ),
            None => result_arms_reading(name@, kinds@) is None,
        },
{
    let mut positions: Vec<usize> = Vec::new();
    let mut i: usize = 0;
    while i < kinds.len()
        invariant
            0 <= i <= kinds@.len(),
            positions@.map_values(|p: usize| p as int) == type_positions(kinds@.take(i as int)),
        decreases kinds@.len() - i,
    {
        assert(kinds@.take(i + 1).drop_last() == kinds@.take(i as int));
        let ghost before = positions@;
        if kinds[i] {
            positions.push(i);
            assert(positions@.map_values(|p: usize| p as int) == before.map_values(|p: usize| p as int).push(
                i as int,
            ));
        }
        i = i + 1;
    }
    assert(kinds@.take(kinds@.len() as int) == kinds@);
    let ghost view = positions@.map_values(|p: usize| p as int);
    if str_eq(name, "Result") && positions.len() == 2 {
        assert(view[0] == positions@[0] as int);
        assert(view[1] == positions@[1] as int);
        Some((positions[0], positions[1]))
    } else {
        None
    }
}

/// Every position [`type_positions`] lists is one of the arguments, and of the type kind.
proof fn lemma_type_positions_are_types(kinds: Seq<bool>)
    ensures
        forall|k: int|
            0 <= k < type_positions(kinds).len() ==> 0 <= #[trigger] type_positions(kinds)[k]
                < kinds.len() && kinds[type_positions(kinds)[k]],
    decreases kinds.len(),
{
    if kinds.len() > 0 {
        let prefix = kinds.drop_last();
        lemma_type_positions_are_types(prefix);
        let earlier = type_positions(prefix);
        assert forall|k: int| 0 <= k < type_positions(kinds).len() implies 0
            <= #[trigger] type_positions(kinds)[k] < kinds.len() && kinds[type_positions(kinds)[k]] by {
            if k < earlier.len() {
                assert(type_positions(kinds)[k] == earlier[k]);
                assert(prefix[earlier[k]] == kinds[earlier[k]]);
            }
        }
    }
}

/// Which generic arguments are types, in order.
pub open spec fn argument_kinds(arguments: Seq<syn::GenericArgument>) -> Seq<bool> {
    arguments.map_values(|argument: syn::GenericArgument| argument_as_type_of(argument) is Some)
}

/// The success and error arms of a `Result<Success, Error>`: a path type whose last segment is
/// `Result`, with angle-bracketed arguments naming exactly two types, as [`result_arms_reading`]
/// reads them; `None` for anything else.
pub open spec fn result_arms_of(answered: syn::Type) -> Option<(syn::Type, syn::Type)> {
    match path_type_last_segment_of(answered) {
        None => None,
        Some(last) => match segment_angle_arguments_of(last) {
            None => None,
            Some(arguments) => match result_arms_reading(
                ident_text_of(segment_ident_of(last)),
                argument_kinds(arguments),
            ) {
                None => None,
                Some((success, error)) => Some(
                    (
                        argument_as_type_of(arguments[success])->Some_0,
                        argument_as_type_of(arguments[error])->Some_0,
                    ),
                ),
            },
        },
    }
}

/// The success and error arms of a `Result<Success, Error>`, or `None` for anything else — a bare
/// value, a unit, or a `Result` that names only one arm — as [`result_arm_positions`] decides.
pub(crate) fn result_arms(answered: &syn::Type) -> (r: Option<(syn::Type, syn::Type)>)
    ensures
        r == result_arms_of(*answered),
{
    let last = path_type_last_segment(answered)?;
    let named = ident_text(&segment_ident(&last));
    let declared = segment_angle_arguments(&last)?;
    let mut types: Vec<Option<syn::Type>> = Vec::new();
    let mut kinds: Vec<bool> = Vec::new();
    let mut i: usize = 0;
    while i < declared.len()
        invariant
            0 <= i <= declared@.len(),
            types@.len() == i,
            kinds@ == argument_kinds(declared@).take(i as int),
            forall|k: int| 0 <= k < i ==> #[trigger] types@[k] == argument_as_type_of(declared@[k]),
        decreases declared@.len() - i,
    {
        let arm = argument_as_type(&declared[i]);
        kinds.push(arm.is_some());
        types.push(arm);
        assert(argument_kinds(declared@).take(i + 1) =~= argument_kinds(declared@).take(i as int).push(
            argument_as_type_of(declared@[i as int]) is Some,
        ));
        i = i + 1;
    }
    assert(argument_kinds(declared@).take(declared@.len() as int) =~= argument_kinds(declared@));
    let (success, error) = result_arm_positions(named.as_str(), &kinds)?;
    proof {
        lemma_type_positions_are_types(kinds@);
        let positions = type_positions(kinds@);
        assert(positions[0] == success as int);
        assert(positions[1] == error as int);
    }
    match (&types[success], &types[error]) {
        (Some(success), Some(error)) => Some((clone_type(success), clone_type(error))),
        _ => None,
    }
}


fn written(span: proc_macro2::Span, message: String) -> (r: Refused)
    ensures
        r matches Refused::Written(refusal) && refusal.span == span && refusal.message@ == message@,
{
    Refused::Written(Refusal { span, message })
}

// --- Reading one declared operation ------------------------------------------------------------

/// How a refusal reads: one written here, with where it points and what it says, or the error the
/// parser of a directive's arguments raised.
pub enum RefusedView {
    Written(proc_macro2::Span, Seq<char>),
    Parsed(syn::Error),
}

pub open spec fn refused_view(refused: Refused) -> RefusedView {
    match refused {
        Refused::Written(refusal) => RefusedView::Written(refusal.span, refusal.message@),
        Refused::Parsed(error) => RefusedView::Parsed(error),
    }
}

pub open spec fn refused_views(refusals: Seq<Refused>) -> Seq<RefusedView> {
    refusals.map_values(|refused: Refused| refused_view(refused))
}

/// What a method's `#[service_schema_op(...)]` directives say, read in order from no override and
/// not one-way: the wire name override and the flag, or the first refusal, which is the parser's
/// error where a directive's arguments did not parse.
pub open spec fn directives_reading(
    directives: Seq<Result<Vec<WrittenArgument>, syn::Error>>,
) -> Result<(Option<Seq<char>>, bool), RefusedView>
    decreases directives.len(),
{
    if directives.len() == 0 {
        Ok((None, false))
    } else {
        match directives_reading(directives.drop_last()) {
            Err(refused) => Err(refused),
            Ok(read) => match directives.last() {
                Err(error) => Err(RefusedView::Parsed(error)),
                Ok(arguments) => match directive_arguments_reading(read, arguments@) {
                    Ok(state) => Ok(state),
                    Err((span, message)) => Err(RefusedView::Written(span, message)),
                },
            },
        }
    }
}

/// Once the directives have been refused, further directives keep that refusal.
proof fn lemma_directives_reading_stops(
    directives: Seq<Result<Vec<WrittenArgument>, syn::Error>>,
    i: int,
)
    requires
        0 <= i <= directives.len(),
        directives_reading(directives.take(i)) is Err,
    ensures
        directives_reading(directives) == directives_reading(directives.take(i)),
    decreases directives.len() - i,
{
    if i < directives.len() {
        assert(directives.take(i + 1).drop_last() == directives.take(i));
        lemma_directives_reading_stops(directives, i + 1);
    } else {
        assert(directives.take(i) == directives);
    }
}

/// What one operation's directives said, in the order they were written: the wire name override,
/// and the flag.
fn read_directive(directives: &Vec<Result<Vec<WrittenArgument>, syn::Error>>) -> (r: Result<
    (Option<String>, bool),
    Refused,
>)
    ensures
        match directives_reading(directives@) {
            Ok(state) => r matches Ok(read) && directive_state_view(read) == state,
            Err(refused) => r matches Err(given) && refused_view(given) == refused,
        },
{
    let mut read: (Option<String>, bool) = (None, false);
    let mut a: usize = 0;
    while a < directives.len()
        invariant
            0 <= a <= directives@.len(),
            directives_reading(directives@.take(a as int)) == Ok::<
                (Option<Seq<char>>, bool),
                RefusedView,
            >(directive_state_view(read)),
        decreases directives@.len() - a,
    {
        proof {
            assert(directives@.take(a + 1).drop_last() == directives@.take(a as int));
            assert(directives@.take(a + 1).last() == directives@[a as int]);
        }
        match &directives[a] {
            Err(error) => {
                proof {
                    lemma_directives_reading_stops(directives@, a + 1);
                }
                return Err(Refused::Parsed(clone_error(error)));
            },
            Ok(arguments) => match read_directive_arguments(read, arguments) {
                Ok(state) => {
                    read = state;
                },
                Err(refusal) => {
                    proof {
                        lemma_directives_reading_stops(directives@, a + 1);
                    }
                    return Err(Refused::Written(refusal));
                },
            },
        }
        a = a + 1;
    }
    assert(directives@.take(directives@.len() as int) == directives@);
    Ok(read)
}

/// How the rules see one declared input.
pub open spec fn input_shape_of(input: DeclaredInput) -> InputShape {
    match input {
        DeclaredInput::Receiver => InputShape::Receiver,
        DeclaredInput::Typed { name, borrowed, .. } => InputShape::Typed {
            plain_name: name is Some,
            borrowed,
        },
    }
}

pub open spec fn input_shapes(inputs: Seq<DeclaredInput>) -> Seq<InputShape> {
    inputs.map_values(|input: DeclaredInput| input_shape_of(input))
}

/// Where an input's type was written, or the signature for the receiver.
pub open spec fn input_type_span(input: DeclaredInput, signature: proc_macro2::Span) -> proc_macro2::Span {
    match input {
        DeclaredInput::Typed { argument, .. } => argument.span,
        DeclaredInput::Receiver => signature,
    }
}

/// Where an input's pattern was written, or the signature for the receiver.
pub open spec fn input_pattern_span(input: DeclaredInput, signature: proc_macro2::Span) -> proc_macro2::Span {
    match input {
        DeclaredInput::Typed { pattern_span, .. } => pattern_span,
        DeclaredInput::Receiver => signature,
    }
}

/// The printed tokens of an input's type, or nothing for the receiver.
pub open spec fn input_text(input: DeclaredInput) -> Seq<char> {
    match input {
        DeclaredInput::Typed { argument, .. } => argument.text@,
        DeclaredInput::Receiver => Seq::empty(),
    }
}

/// The refusal an operation's inputs earn, spanned where the rules point: the signature where
/// `&self` or the context is missing, the type that should have been `&Context`, or the pattern
/// that is not a plain name.
pub open spec fn inputs_refused(
    inputs: Seq<DeclaredInput>,
    signature: proc_macro2::Span,
    operation: Seq<char>,
    context: Seq<char>,
    refusal: InputsRefusal,
) -> RefusedView {
    match refusal {
        InputsRefusal::MissingReceiver => RefusedView::Written(signature, missing_receiver_seq(operation)),
        InputsRefusal::MissingContext => RefusedView::Written(
            signature,
            missing_context_argument_seq(operation, context),
        ),
        InputsRefusal::ContextNotBorrowed => RefusedView::Written(
            input_type_span(inputs[1], signature),
            missing_context_argument_seq(operation, context),
        ),
        InputsRefusal::UnnamedArgument(at) => RefusedView::Written(
            input_pattern_span(inputs[at as int], signature),
            plain_argument_name_seq(operation),
        ),
    }
}

/// What an operation's inputs are read as: the positions of the arguments its message carries, or
/// the refusal, as [`read_inputs`] decides.
pub open spec fn inputs_view(
    inputs: Seq<DeclaredInput>,
    signature: proc_macro2::Span,
    operation: Seq<char>,
    context: Seq<char>,
) -> Result<Seq<int>, RefusedView> {
    match inputs_reading(input_shapes(inputs), context) {
        Ok(positions) => Ok(positions),
        Err(refusal) => Err(inputs_refused(inputs, signature, operation, context, refusal)),
    }
}

/// The name and type of an argument a message carries.
pub open spec fn carried_argument(input: DeclaredInput) -> Option<(proc_macro2::Ident, syn::Type)> {
    match input {
        DeclaredInput::Typed { name: Some(name), argument, .. } => Some((name, argument.declared)),
        _ => None,
    }
}

/// The inputs an operation is given for the carried positions: nothing where none is carried, the
/// one type where one is, and every name and type in order where several are.
pub open spec fn inputs_match(made: OperationInputs, inputs: Seq<DeclaredInput>, positions: Seq<int>) -> bool {
    if positions.len() == 0 {
        made is Empty
    } else if positions.len() == 1 {
        made matches OperationInputs::Named(only) && carried_argument(inputs[positions[0]]) matches Some(
            argument,
        ) && argument.1 == *only
    } else {
        made matches OperationInputs::Generated(arguments) && arguments@.len() == positions.len()
            && forall|k: int|
            0 <= k < positions.len() ==> carried_argument(inputs[positions[k]]) == Some(
                #[trigger] arguments@[k],
            )
    }
}

/// Copies what an input's type refers to.
fn copy_borrowed(borrowed: &Option<(bool, Option<String>)>) -> (r: Option<(bool, Option<String>)>)
    ensures
        r == *borrowed,
{
    match borrowed {
        None => None,
        Some((qualified, None)) => Some((*qualified, None)),
        Some((qualified, Some(named))) => Some((*qualified, Some(named.clone()))),
    }
}

/// Everything the operation takes after `&self` and the context, in declaration order, read as
/// [`read_inputs`] decides, with the positions of the carried arguments: one argument is the
/// message, several are carried in order, none gives an empty message.
fn operation_inputs(
    inputs: &Vec<DeclaredInput>,
    signature: proc_macro2::Span,
    operation: &str,
    context: &str,
) -> (r: Result<(OperationInputs, Vec<usize>), Refused>)
    ensures
        match inputs_view(inputs@, signature, operation@, context@) {
            Ok(positions) => r matches Ok((made, at)) && positions_view(at@) == positions
                && inputs_match(made, inputs@, positions),
            Err(refused) => r matches Err(given) && refused_view(given) == refused,
        },
{
    let mut shapes: Vec<InputShape> = Vec::new();
    let mut k: usize = 0;
    while k < inputs.len()
        invariant
            0 <= k <= inputs@.len(),
            shapes@ == input_shapes(inputs@).take(k as int),
        decreases inputs@.len() - k,
    {
        let shape = match &inputs[k] {
            DeclaredInput::Receiver => InputShape::Receiver,
            DeclaredInput::Typed { name, borrowed, .. } => InputShape::Typed {
                plain_name: name.is_some(),
                borrowed: copy_borrowed(borrowed),
            },
        };
        shapes.push(shape);
        assert(input_shapes(inputs@).take(k + 1) =~= input_shapes(inputs@).take(k as int).push(
            input_shape_of(inputs@[k as int]),
        ));
        k = k + 1;
    }
    assert(input_shapes(inputs@).take(inputs@.len() as int) =~= input_shapes(inputs@));
    match read_inputs(&shapes, context) {
        Err(InputsRefusal::MissingReceiver) => Err(written(signature, missing_receiver_message(operation))),
        Err(InputsRefusal::MissingContext) => Err(
            written(signature, missing_context_argument_message(operation, context)),
        ),
        Err(InputsRefusal::ContextNotBorrowed) => {
            let span = match &inputs[1] {
                DeclaredInput::Typed { argument, .. } => argument.span,
                DeclaredInput::Receiver => signature,
            };
            Err(written(span, missing_context_argument_message(operation, context)))
        },
        Err(InputsRefusal::UnnamedArgument(at)) => {
            proof {
                lemma_unnamed_argument_is_an_input(shapes@, 2, at);
            }
            let span = match &inputs[at] {
                DeclaredInput::Typed { pattern_span, .. } => *pattern_span,
                DeclaredInput::Receiver => signature,
            };
            Err(written(span, plain_argument_name_message(operation)))
        },
        Ok(positions) => {
            let ghost pv = positions_view(positions@);
            proof {
                lemma_carried_positions_are_inputs(shapes@, 2);
                assert(inputs_reading(shapes@, context@) == carried_from(shapes@, 2));
                assert forall|m: int| 0 <= m < positions@.len() implies #[trigger] positions@[m]
                    < inputs@.len() && carried_argument(inputs@[positions@[m] as int]) is Some by {
                    assert(pv[m] == positions@[m] as int);
                    let p = pv[m];
                    assert(shapes@[p] == input_shape_of(inputs@[p]));
                    assert(shapes@[p] matches InputShape::Typed { plain_name: true, .. });
                }
            }
            if positions.len() == 0 {
                Ok((OperationInputs::Empty, positions))
            } else if positions.len() == 1 {
                assert(pv[0] == positions@[0] as int);
                match &inputs[positions[0]] {
                    DeclaredInput::Typed { argument, .. } => {
                        let only = clone_type(&argument.declared);
                        Ok((OperationInputs::Named(Box::new(only)), positions))
                    },
                    DeclaredInput::Receiver => Ok((OperationInputs::Empty, positions)),
                }
            } else {
                let mut carried: Vec<(proc_macro2::Ident, syn::Type)> = Vec::new();
                let mut q: usize = 0;
                while q < positions.len()
                    invariant
                        0 <= q <= positions@.len(),
                        carried@.len() == q,
                        pv == positions_view(positions@),
                        forall|m: int| 0 <= m < positions@.len() ==> #[trigger] positions@[m]
                            < inputs@.len() && carried_argument(inputs@[positions@[m] as int]) is Some,
                        forall|m: int|
                            0 <= m < q ==> carried_argument(inputs@[pv[m]]) == Some(#[trigger] carried@[m]),
                    decreases positions@.len() - q,
                {
                    assert(pv[q as int] == positions@[q as int] as int);
                    let ghost before = carried@;
                    match &inputs[positions[q]] {
                        DeclaredInput::Typed { name: Some(named), argument, .. } => {
                            carried.push((clone_ident(named), clone_type(&argument.declared)));
                        },
                        _ => {
                            assert(false);
                        },
                    }
                    assert forall|m: int| 0 <= m < q + 1 implies carried_argument(inputs@[pv[m]])
                        == Some(#[trigger] carried@[m]) by {
                        if m < q {
                            assert(carried@[m] == before[m]);
                        }
                    }
                    q = q + 1;
                }
                Ok((OperationInputs::Generated(carried), positions))
            }
        },
    }
}

/// What an operation answers with, once the flag and the return type have been checked against
/// each other: no reply where it is one-way and declares none, the two arms of a declared
/// `Result<Success, Error>` where it is not, and otherwise the refusal, spanned on the signature
/// where no return type was written and on the return type where one was.
pub open spec fn outcome_view(
    output: Option<DeclaredOutput>,
    one_way: bool,
    signature: proc_macro2::Span,
    operation: Seq<char>,
) -> Result<Option<(syn::Type, syn::Type)>, RefusedView> {
    match output {
        None => if one_way {
            Ok(None)
        } else {
            Err(RefusedView::Written(signature, missing_return_type_seq(operation)))
        },
        Some(declared) => if one_way {
            Err(RefusedView::Written(declared.answered.span, one_way_returns_a_value_seq(operation)))
        } else {
            match declared.arms {
                Some((success, error)) => Ok(Some((success.declared, error.declared))),
                None => Err(RefusedView::Written(declared.answered.span, non_result_return_seq(operation))),
            }
        },
    }
}

/// The outcome an operation is given for what it answers with.
pub open spec fn outcome_matches(made: OperationOutcome, arms: Option<(syn::Type, syn::Type)>) -> bool {
    match arms {
        None => made is OneWay,
        Some((success_arm, error_arm)) => made matches OperationOutcome::Reply { error, success }
            && *success == success_arm && *error == error_arm,
    }
}

/// Whether a declared return type names both arms of a `Result`.
pub open spec fn names_result_arms(output: Option<DeclaredOutput>) -> bool {
    match output {
        Some(declared) => declared.arms is Some,
        None => false,
    }
}

/// What the operation answers with, as [`outcome_decision`] decides for the flag and the return
/// type.
fn operation_outcome(
    output: &Option<DeclaredOutput>,
    signature: proc_macro2::Span,
    operation: &str,
    one_way: bool,
) -> (r: Result<OperationOutcome, Refused>)
    ensures
        match outcome_view(*output, one_way, signature, operation@) {
            Ok(arms) => r matches Ok(made) && outcome_matches(made, arms),
            Err(refused) => r matches Err(given) && refused_view(given) == refused,
        },
        r is Ok <==> (outcome_decision_spec(output is Some, one_way, names_result_arms(*output)) is OneWay
            || outcome_decision_spec(output is Some, one_way, names_result_arms(*output)) is Reply),
{
    let arms = match output {
        Some(declared) => declared.arms.is_some(),
        None => false,
    };
    match outcome_decision(output.is_some(), one_way, arms) {
        OutcomeDecision::OneWay => Ok(OperationOutcome::OneWay),
        OutcomeDecision::MissingReturnType => Err(written(signature, missing_return_type_message(operation))),
        OutcomeDecision::OneWayReturnsAValue => match output {
            Some(declared) => Err(written(declared.answered.span, one_way_returns_a_value_message(operation))),
            None => Err(written(signature, one_way_returns_a_value_message(operation))),
        },
        OutcomeDecision::NotAResult => match output {
            Some(declared) => Err(written(declared.answered.span, non_result_return_message(operation))),
            None => Err(written(signature, non_result_return_message(operation))),
        },
        OutcomeDecision::Reply => match output {
            Some(declared) => match &declared.arms {
                Some((success, error)) => Ok(
                    OperationOutcome::Reply {
                        error: Box::new(clone_type(&error.declared)),
                        success: Box::new(clone_type(&success.declared)),
                    },
                ),
                None => Err(written(signature, non_result_return_message(operation))),
            },
            None => Err(written(signature, non_result_return_message(operation))),
        },
    }
}

/// What one declared operation is read as: its directives, then its inputs, then its outcome,
/// the first refusal stopping the read — or the wire name override, the carried positions and the
/// reply arms.
pub open spec fn operation_view(operation: DeclaredOperation, context: Seq<char>) -> Result<
    (Option<Seq<char>>, Seq<int>, Option<(syn::Type, syn::Type)>),
    RefusedView,
> {
    match directives_reading(operation.directives@) {
        Err(refused) => Err(refused),
        Ok((message, one_way)) => match inputs_view(
            operation.inputs@,
            operation.signature_span,
            operation.name@,
            context,
        ) {
            Err(refused) => Err(refused),
            Ok(positions) => match outcome_view(
                operation.output,
                one_way,
                operation.signature_span,
                operation.name@,
            ) {
                Err(refused) => Err(refused),
                Ok(arms) => Ok((message, positions, arms)),
            },
        },
    }
}

/// The operation a declared one is read into: its own identifier, its name camel-cased for
/// TypeScript and kebab-cased (or overridden) for the wire, its inputs and its outcome.
pub open spec fn operation_matches(
    made: OperationDef,
    operation: DeclaredOperation,
    read: (Option<Seq<char>>, Seq<int>, Option<(syn::Type, syn::Type)>),
) -> bool {
    &&& made.ident == operation.ident
    &&& made.ts_name@ == ts_name_seq(operation.name@)
    &&& made.wire_name@ == wire_name_seq(operation.name@, read.0)
    &&& inputs_match(made.inputs, operation.inputs@, read.1)
    &&& outcome_matches(made.outcome, read.2)
}

/// Reads one declared operation, with the positions of the arguments its message carries.
fn parse_operation(operation: &DeclaredOperation, context: &str) -> (r: Result<
    (OperationDef, Vec<usize>),
    Refused,
>)
    ensures
        match operation_view(*operation, context@) {
            Ok(read) => r matches Ok((made, at)) && operation_matches(made, *operation, read)
                && positions_view(at@) == read.1,
            Err(refused) => r matches Err(given) && refused_view(given) == refused,
        },
{
    let (message, one_way) = read_directive(&operation.directives)?;
    let name = operation.name.as_str();
    let (inputs, positions) = operation_inputs(&operation.inputs, operation.signature_span, name, context)?;
    let outcome = operation_outcome(&operation.output, operation.signature_span, name, one_way)?;
    let ghost written_message: Option<Seq<char>> = match &message {
        Some(wire) => Some(wire@),
        None => None,
    };
    let ts = ts_name(name);
    let wire = wire_name(name, message);
    assert(wire@ == wire_name_seq(operation.name@, written_message));
    Ok((OperationDef { ident: clone_ident(&operation.ident), inputs, outcome, ts_name: ts, wire_name: wire }, positions))
}


/// What the directives read so far said: the wire name override, and the `one_way` flag.
pub open spec fn directive_state_view(state: (Option<String>, bool)) -> (Option<Seq<char>>, bool) {
    (
        match state.0 {
            Some(wire) => Some(wire@),
            None => None,
        },
        state.1,
    )
}

/// What one argument of `#[service_schema_op(...)]` does to what was read so far: `one_way` sets
/// the flag, `message = "..."` sets the override, and anything else is refused where it points.
pub open spec fn directive_argument_reading(
    read: (Option<Seq<char>>, bool),
    argument: WrittenArgument,
) -> Result<(Option<Seq<char>>, bool), (proc_macro2::Span, Seq<char>)> {
    match argument.name {
        Some(name) if name@ == "one_way"@ => match argument.value {
            WrittenValue::Bare => Ok((read.0, true)),
            _ => Err((argument.name_span, unknown_directive_seq())),
        },
        Some(name) if name@ == "message"@ => match argument.value {
            WrittenValue::Valued { span, text, .. } => match text {
                Some(wire) => Ok((Some(wire@), read.1)),
                None => Err((span, "expected string literal"@)),
            },
            _ => Err((argument.name_span, "expected `=`"@)),
        },
        _ => Err((argument.name_span, unknown_directive_seq())),
    }
}

/// The arguments of one `#[service_schema_op(...)]` read in order onto what was read before,
/// stopping at the first refusal.
pub open spec fn directive_arguments_reading(
    read: (Option<Seq<char>>, bool),
    arguments: Seq<WrittenArgument>,
) -> Result<(Option<Seq<char>>, bool), (proc_macro2::Span, Seq<char>)>
    decreases arguments.len(),
{
    if arguments.len() == 0 {
        Ok(read)
    } else {
        match directive_arguments_reading(read, arguments.drop_last()) {
            Err(refused) => Err(refused),
            Ok(so_far) => directive_argument_reading(so_far, arguments.last()),
        }
    }
}

/// Reads one `#[service_schema_op(...)]`'s arguments onto what the directives before it said.
pub fn read_directive_arguments(
    read: (Option<String>, bool),
    arguments: &Vec<WrittenArgument>,
) -> (r: Result<(Option<String>, bool), Refusal>)
    ensures
        match r {
            Ok(state) => directive_arguments_reading(directive_state_view(read), arguments@) == Ok::<
                (Option<Seq<char>>, bool),
                (proc_macro2::Span, Seq<char>),
            >(directive_state_view(state)),
            Err(refusal) => directive_arguments_reading(directive_state_view(read), arguments@)
                == Err::<(Option<Seq<char>>, bool), (proc_macro2::Span, Seq<char>)>(
                (refusal.span, refusal.message@),
            ),
        },
{
    let ghost start = directive_state_view(read);
    let (mut message, mut one_way) = read;
    let mut i: usize = 0;
    while i < arguments.len()
        invariant
            0 <= i <= arguments@.len(),
            start == directive_state_view(read),
            directive_arguments_reading(start, arguments@.take(i as int)) == Ok::<
                (Option<Seq<char>>, bool),
                (proc_macro2::Span, Seq<char>),
            >(directive_state_view((message, one_way))),
        decreases arguments@.len() - i,
    {
        let argument = &arguments[i];
        proof {
            let p = arguments@.take(i + 1);
            assert(p.drop_last() == arguments@.take(i as int));
            assert(p.last() == *argument);
            reveal_strlit("one_way");
            reveal_strlit("message");
        }
        let (is_one_way, is_message) = match &argument.name {
            Some(name) => (str_eq(name.as_str(), "one_way"), str_eq(name.as_str(), "message")),
            None => (false, false),
        };
        if is_one_way {
            match &argument.value {
                WrittenValue::Bare => {
                    one_way = true;
                },
                _ => {
                    let refusal = Refusal { span: argument.name_span, message: unknown_directive_text() };
                    proof {
                        lemma_directive_reading_stops(start, arguments@, i as int + 1);
                    }
                    return Err(refusal);
                },
            }
        } else if is_message {
            match &argument.value {
                WrittenValue::Valued { span, text, .. } => match text {
                    Some(wire) => {
                        message = Some(wire.clone());
                    },
                    None => {
                        proof {
                            lemma_directive_reading_stops(start, arguments@, i as int + 1);
                        }
                        return Err(Refusal { span: *span, message: "expected string literal".to_owned() });
                    },
                },
                _ => {
                    proof {
                        lemma_directive_reading_stops(start, arguments@, i as int + 1);
                    }
                    return Err(Refusal { span: argument.name_span, message: "expected `=`".to_owned() });
                },
            }
        } else {
            let refusal = Refusal { span: argument.name_span, message: unknown_directive_text() };
            proof {
                lemma_directive_reading_stops(start, arguments@, i as int + 1);
            }
            return Err(refusal);
        }
        i = i + 1;
    }
    assert(arguments@.take(arguments@.len() as int) == arguments@);
    Ok((message, one_way))
}

/// Once a reading has been refused, reading further arguments keeps that refusal.
proof fn lemma_directive_reading_stops(
    read: (Option<Seq<char>>, bool),
    arguments: Seq<WrittenArgument>,
    i: int,
)
    requires
        0 <= i <= arguments.len(),
        directive_arguments_reading(read, arguments.take(i)) is Err,
    ensures
        directive_arguments_reading(read, arguments) == directive_arguments_reading(
            read,
            arguments.take(i),
        ),
    decreases arguments.len() - i,
{
    if i < arguments.len() {
        assert(arguments.take(i + 1).drop_last() == arguments.take(i));
        lemma_directive_reading_stops(read, arguments, i + 1);
    } else {
        assert(arguments.take(i) == arguments);
    }
}

/// Reading two lists of arguments one after the other is reading them as one list.
proof fn lemma_directive_reading_goes_on(
    read: (Option<Seq<char>>, bool),
    first: Seq<WrittenArgument>,
    then: Seq<WrittenArgument>,
)
    ensures
        directive_arguments_reading(read, first + then) == match directive_arguments_reading(
            read,
            first,
        ) {
            Ok(so_far) => directive_arguments_reading(so_far, then),
            Err(refused) => Err(refused),
        },
    decreases then.len(),
{
    if then.len() == 0 {
        assert(first + then =~= first);
    } else {
        assert((first + then).drop_last() =~= first + then.drop_last());
        assert((first + then).last() == then.last());
        lemma_directive_reading_goes_on(read, first, then.drop_last());
    }
}

fn unknown_directive_text() -> (r: String)
    ensures
        r@ == unknown_directive_seq(),
{
    "service_schema: unknown `service_schema_op` directive\n       the directives are `message = \"<wire name>\"` and `one_way`".to_owned()
}

/// One input of a declared method as the rules read it: the receiver, or a typed argument —
/// whether its pattern is a plain name, and, where its type is a reference to a path, whether that
/// path is qualified and the single identifier it is.
pub enum InputShape {
    Receiver,
    Typed { plain_name: bool, borrowed: Option<(bool, Option<String>)> },
}

/// Why an operation's inputs are refused, and where the refusal points.
#[derive(Clone, Copy, Debug, PartialEq, Eq, Structural)]
pub enum InputsRefusal {
    /// The first input is not `&self`: points at the signature.
    MissingReceiver,
    /// Nothing follows `&self`: points at the signature.
    MissingContext,
    /// What follows `&self` is not `&Context`: points at its type.
    ContextNotBorrowed,
    /// The argument at this position is not a plain name: points at its pattern.
    UnnamedArgument(usize),
}

/// Whether an input is `&Context`: a reference to the bare, unqualified context parameter.
pub open spec fn is_context_input(shape: InputShape, context: Seq<char>) -> bool {
    match shape {
        InputShape::Typed { borrowed: Some((qualified, Some(named))), .. } => !qualified && named@
            == context,
        _ => false,
    }
}

/// The positions, from `i` on, of the arguments the message carries, or the first that is not a
/// plain name.
pub open spec fn carried_from(shapes: Seq<InputShape>, i: int) -> Result<Seq<int>, InputsRefusal>
    decreases shapes.len() - i,
{
    if i < 0 || i >= shapes.len() {
        Ok(Seq::empty())
    } else {
        match shapes[i] {
            InputShape::Receiver => carried_from(shapes, i + 1),
            InputShape::Typed { plain_name, .. } => if !plain_name {
                Err(InputsRefusal::UnnamedArgument(i as usize))
            } else {
                match carried_from(shapes, i + 1) {
                    Ok(rest) => Ok(seq![i] + rest),
                    Err(refused) => Err(refused),
                }
            },
        }
    }
}

/// What an operation's inputs are read as: `&self`, then `&Context`, then the arguments the
/// message carries, each a plain name — the positions of those, or the refusal.
pub open spec fn inputs_reading(shapes: Seq<InputShape>, context: Seq<char>) -> Result<
    Seq<int>,
    InputsRefusal,
> {
    if shapes.len() == 0 || !(shapes[0] is Receiver) {
        Err(InputsRefusal::MissingReceiver)
    } else if shapes.len() < 2 || shapes[1] is Receiver {
        Err(InputsRefusal::MissingContext)
    } else if !is_context_input(shapes[1], context) {
        Err(InputsRefusal::ContextNotBorrowed)
    } else {
        carried_from(shapes, 2)
    }
}

pub open spec fn positions_view(positions: Seq<usize>) -> Seq<int> {
    positions.map_values(|p: usize| p as int)
}

/// Reads an operation's inputs: the positions of the arguments its message carries, in
/// declaration order, or the refusal the inputs earn.
pub fn read_inputs(shapes: &Vec<InputShape>, context: &str) -> (r: Result<Vec<usize>, InputsRefusal>)
    ensures
        match r {
            Ok(positions) => inputs_reading(shapes@, context@) == Ok::<Seq<int>, InputsRefusal>(
                positions_view(positions@),
            ),
            Err(refused) => inputs_reading(shapes@, context@) == Err::<Seq<int>, InputsRefusal>(
                refused,
            ),
        },
{
    if shapes.len() == 0 {
        return Err(InputsRefusal::MissingReceiver);
    }
    match &shapes[0] {
        InputShape::Receiver => {},
        _ => {
            return Err(InputsRefusal::MissingReceiver);
        },
    }
    if shapes.len() < 2 {
        return Err(InputsRefusal::MissingContext);
    }
    let borrowed_context = match &shapes[1] {
        InputShape::Receiver => {
            return Err(InputsRefusal::MissingContext);
        },
        InputShape::Typed { borrowed, .. } => match borrowed {
            Some((qualified, Some(named))) => !*qualified && str_eq(named.as_str(), context),
            _ => false,
        },
    };
    if !borrowed_context {
        return Err(InputsRefusal::ContextNotBorrowed);
    }
    let mut positions: Vec<usize> = Vec::new();
    let mut i: usize = 2;
    while i < shapes.len()
        invariant
            2 <= i <= shapes@.len(),
            inputs_reading(shapes@, context@) == carried_from(shapes@, 2),
            carried_from(shapes@, 2) == match carried_from(shapes@, i as int) {
                Ok(rest) => Ok(positions_view(positions@) + rest),
                Err(refused) => Err::<Seq<int>, InputsRefusal>(refused),
            },
        decreases shapes@.len() - i,
    {
        match &shapes[i] {
            InputShape::Receiver => {},
            InputShape::Typed { plain_name, .. } => {
                if !*plain_name {
                    return Err(InputsRefusal::UnnamedArgument(i));
                }
                let ghost before = positions_view(positions@);
                positions.push(i);
                assert(positions_view(positions@) == before.push(i as int));
                proof {
                    match carried_from(shapes@, i + 1) {
                        Ok(rest) => {
                            assert(before + (seq![i as int] + rest) =~= positions_view(positions@) + rest);
                        },
                        Err(_) => {},
                    }
                }
            },
        }
        i = i + 1;
    }
    assert(positions_view(positions@) + Seq::<int>::empty() =~= positions_view(positions@));
    Ok(positions)
}

/// An unnamed argument the reading points at is one of the inputs.
proof fn lemma_unnamed_argument_is_an_input(shapes: Seq<InputShape>, i: int, at: usize)
    requires
        0 <= i,
        carried_from(shapes, i) == Err::<Seq<int>, InputsRefusal>(InputsRefusal::UnnamedArgument(at)),
    ensures
        at < shapes.len(),
    decreases shapes.len() - i,
{
    if 0 <= i < shapes.len() {
        match shapes[i] {
            InputShape::Receiver => lemma_unnamed_argument_is_an_input(shapes, i + 1, at),
            InputShape::Typed { plain_name, .. } => if plain_name {
                lemma_unnamed_argument_is_an_input(shapes, i + 1, at);
            },
        }
    }
}

/// Every position the reading carries is one of the inputs.
proof fn lemma_carried_positions_are_inputs(shapes: Seq<InputShape>, i: int)
    requires
        0 <= i,
    ensures
        carried_from(shapes, i) is Ok ==> forall|m: int|
            0 <= m < carried_from(shapes, i)->Ok_0.len() ==> 0 <= #[trigger] carried_from(
                shapes,
                i,
            )->Ok_0[m] < shapes.len() && shapes[carried_from(shapes, i)->Ok_0[m]] matches InputShape::Typed {
                plain_name: true,
                ..
            },
    decreases shapes.len() - i,
{
    if 0 <= i < shapes.len() {
        lemma_carried_positions_are_inputs(shapes, i + 1);
        match shapes[i] {
            InputShape::Receiver => {},
            InputShape::Typed { plain_name, .. } => if plain_name {
                match carried_from(shapes, i + 1) {
                    Ok(rest) => {
                        let all = seq![i] + rest;
                        assert forall|m: int| 0 <= m < all.len() implies 0 <= #[trigger] all[m]
                            < shapes.len() && shapes[all[m]] matches InputShape::Typed {
                            plain_name: true,
                            ..
                        } by {
                            if m > 0 {
                                assert(all[m] == rest[m - 1]);
                            }
                        }
                    },
                    Err(_) => {},
                }
            },
        }
    }
}

// --- Reading the whole service ----------------------------------------------------------------

/// The types a list of references points at.
pub open spec fn referenced(types: Seq<&syn::Type>) -> Seq<syn::Type> {
    types.map_values(|declared: &syn::Type| *declared)
}

/// The types of a list of arguments, in order.
pub open spec fn argument_types(arguments: Seq<(proc_macro2::Ident, syn::Type)>) -> Seq<syn::Type> {
    arguments.map_values(|argument: (proc_macro2::Ident, syn::Type)| argument.1)
}

/// The types an operation receives: its arguments' where a message is declared from them, the one
/// it names, or none.
pub open spec fn received_types(inputs: OperationInputs) -> Seq<syn::Type> {
    match inputs {
        OperationInputs::Empty => Seq::empty(),
        OperationInputs::Generated(arguments) => argument_types(arguments@),
        OperationInputs::Named(declared) => seq![*declared],
    }
}

/// Every type an operation puts on the wire: what it receives, then the success and error arms of
/// its reply.
pub open spec fn carried_types(operation: OperationDef) -> Seq<syn::Type> {
    received_types(operation.inputs) + match operation.outcome {
        OperationOutcome::OneWay => Seq::empty(),
        OperationOutcome::Reply { error, success } => seq![*success, *error],
    }
}

/// Every type an operation puts on the wire: the message it receives, and both arms of the reply
/// it answers with.
fn wire_types(operation: &OperationDef) -> (r: Vec<&syn::Type>)
    ensures
        referenced(r@) == carried_types(*operation),
{
    let mut carried: Vec<&syn::Type> = Vec::new();
    match &operation.inputs {
        OperationInputs::Empty => {},
        OperationInputs::Generated(arguments) => {
            let mut i: usize = 0;
            while i < arguments.len()
                invariant
                    0 <= i <= arguments@.len(),
                    referenced(carried@) == argument_types(arguments@).take(i as int),
                decreases arguments@.len() - i,
            {
                let ghost before = carried@;
                carried.push(&arguments[i].1);
                assert(referenced(carried@) =~= referenced(before).push(arguments@[i as int].1));
                assert(argument_types(arguments@).take(i + 1) == argument_types(arguments@).take(
                    i as int,
                ).push(arguments@[i as int].1));
                i = i + 1;
            }
            assert(argument_types(arguments@).take(arguments@.len() as int) == argument_types(
                arguments@,
            ));
        },
        OperationInputs::Named(declared) => {
            carried.push(&**declared);
        },
    }
    assert(referenced(carried@) =~= received_types(operation.inputs));
    let ghost received = referenced(carried@);
    match &operation.outcome {
        OperationOutcome::OneWay => {},
        OperationOutcome::Reply { error, success } => {
            carried.push(&**success);
            carried.push(&**error);
            assert(referenced(carried@) =~= received + seq![**success, **error]);
        },
    }
    assert(referenced(carried@) =~= carried_types(*operation));
    carried
}

/// How many fields the message declared for an operation's inputs has: none for an operation that
/// takes nothing, one per argument for one that takes several, and no message for one that names
/// its own.
pub open spec fn declared_fields(inputs: OperationInputs) -> Option<int> {
    match inputs {
        OperationInputs::Empty => Some(0),
        OperationInputs::Generated(arguments) => Some(arguments@.len() as int),
        OperationInputs::Named(_) => None,
    }
}

/// Each message is declared for an operation that named none, at the positions `from` gives, in
/// operation order, with one field for each of that operation's arguments.
pub open spec fn declared_from(
    messages: Seq<GeneratedMessage>,
    operations: Seq<OperationDef>,
    from: Seq<int>,
) -> bool {
    &&& from.len() == messages.len()
    &&& forall|k: int|
        0 <= k < from.len() ==> 0 <= #[trigger] from[k] < operations.len() && declared_fields(
            operations[from[k]].inputs,
        ) == Some(messages[k].fields@.len() as int)
    &&& forall|k: int, j: int| 0 <= k < j < from.len() ==> #[trigger] from[k] < #[trigger] from[j]
}

/// The name of the message the macro declares for an operation: `<Operation>Request`.
pub open spec fn message_name_of(operation: OperationDef) -> Seq<char> {
    generated_message_seq(ident_text_of(operation.ident))
}

/// The positions, among the first `n` operations, of those that name no message, in order.
pub open spec fn message_positions(operations: Seq<OperationDef>, n: int) -> Seq<int>
    decreases n,
{
    if n <= 0 {
        Seq::empty()
    } else if declared_fields(operations[n - 1].inputs) is Some {
        message_positions(operations, n - 1).push(n - 1)
    } else {
        message_positions(operations, n - 1)
    }
}

/// Every message the macro would declare among the first `n` operations has a plain type name.
pub open spec fn plain_message_names(operations: Seq<OperationDef>, n: int) -> bool {
    forall|i: int|
        0 <= i < n && declared_fields(operations[i].inputs) is Some ==> plain_type_name(
            #[trigger] message_name_of(operations[i]),
        )
}

/// A message declared for an operation: named `<Operation>Request`, recording the operation, with
/// no field for an operation taking nothing and the operation's arguments, in order, for one taking
/// several.
pub open spec fn message_declared_for(message: GeneratedMessage, operation: OperationDef) -> bool {
    &&& message.declared_for == operation.ident
    &&& ident_text_of(message.ident) == message_name_of(operation)
    &&& match operation.inputs {
        OperationInputs::Empty => message.fields@.len() == 0,
        OperationInputs::Generated(arguments) => message.fields@ == arguments@,
        OperationInputs::Named(_) => false,
    }
}

/// The messages declared for some operations: one per operation that names none, in operation
/// order, each declared for it.
pub open spec fn messages_declared(messages: Seq<GeneratedMessage>, operations: Seq<OperationDef>) -> bool {
    let at = message_positions(operations, operations.len() as int);
    &&& messages.len() == at.len()
    &&& forall|k: int| 0 <= k < at.len() ==> message_declared_for(#[trigger] messages[k], operations[at[k]])
}

proof fn lemma_message_positions(operations: Seq<OperationDef>, n: int)
    requires
        0 <= n <= operations.len(),
    ensures
        forall|k: int|
            0 <= k < message_positions(operations, n).len() ==> 0 <= #[trigger] message_positions(
                operations,
                n,
            )[k] < n && !(operations[message_positions(operations, n)[k]].inputs is Named),
        forall|k: int, j: int|
            0 <= k < j < message_positions(operations, n).len() ==> #[trigger] message_positions(
                operations,
                n,
            )[k] < #[trigger] message_positions(operations, n)[j],
        forall|i: int|
            0 <= i < n && !(#[trigger] operations[i].inputs is Named) ==> message_positions(
                operations,
                n,
            ).contains(i),
    decreases n,
{
    if n > 0 {
        lemma_message_positions(operations, n - 1);
        let before = message_positions(operations, n - 1);
        let all = message_positions(operations, n);
        assert forall|k: int| 0 <= k < all.len() implies 0 <= #[trigger] all[k] < n && !(
        operations[all[k]].inputs is Named) by {
            if k < before.len() {
                assert(all[k] == before[k]);
            }
        }
        assert forall|k: int, j: int| 0 <= k < j < all.len() implies #[trigger] all[k] < #[trigger] all[j] by {
            if j < before.len() {
                assert(all[k] == before[k] && all[j] == before[j]);
            } else {
                assert(all[k] == before[k]);
            }
        }
        assert forall|i: int| 0 <= i < n && !(#[trigger] operations[i].inputs is Named) implies all.contains(i) by {
            if i < n - 1 {
                let w = choose|w: int| 0 <= w < before.len() && before[w] == i;
                assert(all[w] == i);
            } else {
                assert(all[all.len() - 1] == i);
            }
        }
    }
}

/// A message is declared for every operation that names none and for no other: the messages are,
/// in order, one for each such operation in operation order, each named `<Operation>Request`,
/// recording its operation, and carrying that operation's arguments, in order, as its fields.
pub proof fn lemma_a_message_is_declared_for_every_operation_that_names_none(
    messages: Seq<GeneratedMessage>,
    operations: Seq<OperationDef>,
)
    requires
        messages_declared(messages, operations),
    ensures
        exists|at: Seq<int>|
            {
                &&& at.len() == messages.len()
                &&& forall|k: int, j: int| 0 <= k < j < at.len() ==> #[trigger] at[k] < #[trigger] at[j]
                &&& forall|k: int|
                    0 <= k < at.len() ==> 0 <= #[trigger] at[k] < operations.len() && !(
                    operations[at[k]].inputs is Named) && messages[k].declared_for == operations[at[k]].ident
                        && ident_text_of(messages[k].ident) == generated_message_seq(
                        ident_text_of(operations[at[k]].ident),
                    ) && match operations[at[k]].inputs {
                        OperationInputs::Generated(arguments) => messages[k].fields@ == arguments@,
                        _ => messages[k].fields@.len() == 0,
                    }
                &&& forall|i: int|
                    0 <= i < operations.len() && !(#[trigger] operations[i].inputs is Named) ==> at.contains(i)
            },
{
    let n = operations.len() as int;
    lemma_message_positions(operations, n);
    let at = message_positions(operations, n);
    assert forall|k: int| 0 <= k < at.len() implies 0 <= #[trigger] at[k] < operations.len() && !(
    operations[at[k]].inputs is Named) && messages[k].declared_for == operations[at[k]].ident
        && ident_text_of(messages[k].ident) == generated_message_seq(ident_text_of(operations[at[k]].ident))
        && match operations[at[k]].inputs {
        OperationInputs::Generated(arguments) => messages[k].fields@ == arguments@,
        _ => messages[k].fields@.len() == 0,
    } by {
        assert(message_declared_for(messages[k], operations[at[k]]));
    }
}

/// The messages the macro declares: one per operation that named none, in operation order.
fn generated_messages(operations: &Vec<OperationDef>) -> (r: Vec<GeneratedMessage>)
    ensures
        exists|from: Seq<int>| declared_from(r@, operations@, from),
        plain_message_names(operations@, operations@.len() as int) ==> messages_declared(r@, operations@),
{
    let mut declared: Vec<GeneratedMessage> = Vec::new();
    let ghost mut from: Seq<int> = Seq::empty();
    let mut o: usize = 0;
    while o < operations.len()
        invariant
            0 <= o <= operations@.len(),
            declared_from(declared@, operations@, from),
            forall|k: int| 0 <= k < from.len() ==> #[trigger] from[k] < o,
            plain_message_names(operations@, o as int) ==> from == message_positions(operations@, o as int),
            plain_message_names(operations@, o as int) ==> forall|k: int|
                0 <= k < declared@.len() ==> message_declared_for(#[trigger] declared@[k], operations@[from[k]]),
        decreases operations@.len() - o,
    {
        let operation = &operations[o];
        let fields: Option<Vec<(proc_macro2::Ident, syn::Type)>> = match &operation.inputs {
            OperationInputs::Empty => Some(Vec::new()),
            OperationInputs::Generated(arguments) => {
                let mut copied: Vec<(proc_macro2::Ident, syn::Type)> = Vec::new();
                let mut i: usize = 0;
                while i < arguments.len()
                    invariant
                        0 <= i <= arguments@.len(),
                        copied@.len() == i,
                        forall|j: int| 0 <= j < i ==> #[trigger] copied@[j] == arguments@[j],
                    decreases arguments@.len() - i,
                {
                    copied.push((clone_ident(&arguments[i].0), clone_type(&arguments[i].1)));
                    i = i + 1;
                }
                assert(copied@ =~= arguments@);
                Some(copied)
            },
            OperationInputs::Named(_) => None,
        };
        assert(match fields {
            Some(made) => declared_fields(operation.inputs) == Some(made@.len() as int) && match operation.inputs {
                OperationInputs::Empty => made@.len() == 0,
                OperationInputs::Generated(arguments) => made@ == arguments@,
                OperationInputs::Named(_) => false,
            },
            None => declared_fields(operation.inputs) is None,
        });
        let ghost old_declared = declared@;
        let ghost old_from = from;
        if let Some(fields) = fields {
            let name = generated_message_name(ident_text(&operation.ident).as_str());
            if let Some(ident) = parse_ident(name.as_str()) {
                declared.push(
                    GeneratedMessage { ident, declared_for: clone_ident(&operation.ident), fields },
                );
                proof {
                    from = from.push(o as int);
                }
            }
        }
        proof {
            if plain_message_names(operations@, o + 1) {
                assert(plain_message_names(operations@, o as int));
                if declared_fields(operations@[o as int].inputs) is Some {
                    assert(plain_type_name(message_name_of(operations@[o as int])));
                }
                assert forall|k: int| 0 <= k < declared@.len() implies message_declared_for(
                    #[trigger] declared@[k],
                    operations@[from[k]],
                ) by {
                    if k < old_declared.len() {
                        assert(declared@[k] == old_declared[k]);
                        assert(from[k] == old_from[k]);
                    }
                }
            }
        }
        o = o + 1;
    }
    declared
}

/// What the rules checked across operations read of one operation: its name as declared, its wire
/// name, its TypeScript spelling, and the printed tokens of each type it puts on the wire.
pub struct OperationReading {
    pub declared: String,
    pub wire: String,
    pub ts: String,
    pub carried: Vec<String>,
}

/// Where a refusal of the rules checked across operations points: at an operation's name, or at
/// one of the types an operation puts on the wire.
#[derive(Clone, Copy, Debug, PartialEq, Eq, Structural)]
pub enum RefusalSite {
    Operation(usize),
    CarriedType(usize, usize),
}

pub open spec fn wire_names(readings: Seq<OperationReading>) -> Seq<Seq<char>> {
    readings.map_values(|o: OperationReading| o.wire@)
}

pub open spec fn ts_names(readings: Seq<OperationReading>) -> Seq<Seq<char>> {
    readings.map_values(|o: OperationReading| o.ts@)
}

/// The refusals for the context reaching the first `n` types operation `i` carries.
pub open spec fn context_refusals(
    context: Seq<char>,
    reading: OperationReading,
    i: int,
    n: int,
) -> Seq<(RefusalSite, Seq<char>)>
    decreases n,
{
    if n <= 0 {
        Seq::empty()
    } else {
        context_refusals(context, reading, i, n - 1) + if names_word(
            reading.carried@[n - 1]@,
            context,
        ) {
            seq![
                (
                    RefusalSite::CarriedType(i as usize, (n - 1) as usize),
                    context_on_the_wire_seq(reading.declared@, context),
                ),
            ]
        } else {
            Seq::empty()
        }
    }
}

/// The refusals operation `i` earns against the ones before it and on its own: its wire name taken,
/// its TypeScript spelling taken, the context on the wire.
pub open spec fn operation_refusals(
    service: Seq<char>,
    context: Seq<char>,
    readings: Seq<OperationReading>,
    i: int,
) -> Seq<(RefusalSite, Seq<char>)> {
    let reading = readings[i];
    let wire = match taker(wire_names(readings), i) {
        Some(j) => seq![
            (
                RefusalSite::Operation(i as usize),
                duplicate_wire_name_seq(service, reading.wire@, readings[j].declared@, reading.declared@),
            ),
        ],
        None => Seq::empty(),
    };
    let ts = match taker(ts_names(readings), i) {
        Some(j) => seq![
            (
                RefusalSite::Operation(i as usize),
                duplicate_ts_name_seq(service, reading.ts@, readings[j].declared@, reading.declared@),
            ),
        ],
        None => Seq::empty(),
    };
    wire + ts + context_refusals(context, reading, i, reading.carried@.len() as int)
}

/// The refusals of the first `n` operations, in operation order.
pub open spec fn operations_refusals(
    service: Seq<char>,
    context: Seq<char>,
    readings: Seq<OperationReading>,
    n: int,
) -> Seq<(RefusalSite, Seq<char>)>
    decreases n,
{
    if n <= 0 {
        Seq::empty()
    } else {
        operations_refusals(service, context, readings, n - 1) + operation_refusals(
            service,
            context,
            readings,
            n - 1,
        )
    }
}

/// The refusals for the first `n` types operation `o` carries that are spelled as the declared
/// message `message`, declared for `declared_for`.
pub open spec fn collision_refusals(
    message: (Seq<char>, Seq<char>),
    reading: OperationReading,
    o: int,
    n: int,
) -> Seq<(RefusalSite, Seq<char>)>
    decreases n,
{
    if n <= 0 {
        Seq::empty()
    } else {
        collision_refusals(message, reading, o, n - 1) + if reading.carried@[n - 1]@ == message.0 {
            seq![
                (
                    RefusalSite::CarriedType(o as usize, (n - 1) as usize),
                    message_collision_seq(message.1, message.0, reading.declared@),
                ),
            ]
        } else {
            Seq::empty()
        }
    }
}

/// The refusals one declared message earns against the first `n` operations.
pub open spec fn message_refusals(
    message: (Seq<char>, Seq<char>),
    readings: Seq<OperationReading>,
    n: int,
) -> Seq<(RefusalSite, Seq<char>)>
    decreases n,
{
    if n <= 0 {
        Seq::empty()
    } else {
        message_refusals(message, readings, n - 1) + collision_refusals(
            message,
            readings[n - 1],
            n - 1,
            readings[n - 1].carried@.len() as int,
        )
    }
}

/// The refusals of the first `n` declared messages, in message order.
pub open spec fn messages_refusals(
    messages: Seq<(Seq<char>, Seq<char>)>,
    readings: Seq<OperationReading>,
    n: int,
) -> Seq<(RefusalSite, Seq<char>)>
    decreases n,
{
    if n <= 0 {
        Seq::empty()
    } else {
        messages_refusals(messages, readings, n - 1) + message_refusals(
            messages[n - 1],
            readings,
            readings.len() as int,
        )
    }
}

/// Everything the rules checked across operations refuse, in the order they are reported: per
/// operation its taken names and the context on its wire, then per declared message every type an
/// operation already spells that way.
pub open spec fn across_refusals(
    service: Seq<char>,
    context: Seq<char>,
    readings: Seq<OperationReading>,
    messages: Seq<(Seq<char>, Seq<char>)>,
) -> Seq<(RefusalSite, Seq<char>)> {
    operations_refusals(service, context, readings, readings.len() as int) + messages_refusals(
        messages,
        readings,
        messages.len() as int,
    )
}

pub open spec fn site_views(refusals: Seq<(RefusalSite, String)>) -> Seq<(RefusalSite, Seq<char>)> {
    refusals.map_values(|r: (RefusalSite, String)| (r.0, r.1@))
}

pub open spec fn message_name_views(messages: Seq<(String, String)>) -> Seq<(Seq<char>, Seq<char>)> {
    messages.map_values(|m: (String, String)| (m.0@, m.1@))
}

fn push_refusal(out: &mut Vec<(RefusalSite, String)>, site: RefusalSite, message: String)
    ensures
        site_views(final(out)@) == site_views(old(out)@).push((site, message@)),
        final(out)@.len() == old(out)@.len() + 1,
{
    let ghost before = out@;
    out.push((site, message));
    assert(site_views(out@) =~= site_views(before).push((site, message@)));
}

/// The names the operations carry, one list per spelling, in operation order.
fn reading_names(readings: &Vec<OperationReading>) -> (r: (Vec<String>, Vec<String>))
    ensures
        name_views(r.0@) == wire_names(readings@),
        name_views(r.1@) == ts_names(readings@),
{
    let mut wires: Vec<String> = Vec::new();
    let mut tss: Vec<String> = Vec::new();
    let mut i: usize = 0;
    while i < readings.len()
        invariant
            0 <= i <= readings@.len(),
            name_views(wires@) == wire_names(readings@).take(i as int),
            name_views(tss@) == ts_names(readings@).take(i as int),
        decreases readings@.len() - i,
    {
        let ghost wb = wires@;
        let ghost tb = tss@;
        let wire = readings[i].wire.clone();
        let ts = readings[i].ts.clone();
        wires.push(wire);
        tss.push(ts);
        assert(name_views(wires@) == name_views(wb).push(readings@[i as int].wire@));
        assert(name_views(tss@) == name_views(tb).push(readings@[i as int].ts@));
        assert(wire_names(readings@).take(i + 1) =~= wire_names(readings@).take(i as int).push(
            readings@[i as int].wire@,
        ));
        assert(ts_names(readings@).take(i + 1) =~= ts_names(readings@).take(i as int).push(
            readings@[i as int].ts@,
        ));
        i = i + 1;
    }
    assert(wire_names(readings@).take(readings@.len() as int) =~= wire_names(readings@));
    assert(ts_names(readings@).take(readings@.len() as int) =~= ts_names(readings@));
    (wires, tss)
}

/// The refusals the rules checked across operations earn, each with where it points, in the order
/// [`across_refusals`] reports them. Where there are none, no wire name and no TypeScript spelling
/// is carried by two operations.
#[verifier::rlimit(40)]
pub fn across_operation_refusals(
    service: &str,
    context: &str,
    readings: &Vec<OperationReading>,
    messages: &Vec<(String, String)>,
) -> (r: Vec<(RefusalSite, String)>)
    ensures
        site_views(r@) == across_refusals(service@, context@, readings@, message_name_views(messages@)),
        r@.len() == 0 ==> all_distinct(wire_names(readings@)),
        r@.len() == 0 ==> all_distinct(ts_names(readings@)),
{
    let (wires, tss) = reading_names(readings);
    let ghost wv = wire_names(readings@);
    let ghost tv = ts_names(readings@);
    let mut out: Vec<(RefusalSite, String)> = Vec::new();
    let mut i: usize = 0;
    while i < readings.len()
        invariant
            0 <= i <= readings@.len(),
            name_views(wires@) == wv,
            name_views(tss@) == tv,
            wv == wire_names(readings@),
            tv == ts_names(readings@),
            wv.len() == readings@.len(),
            tv.len() == readings@.len(),
            site_views(out@) == operations_refusals(service@, context@, readings@, i as int),
            out@.len() == 0 ==> forall|a: int, b: int| 0 <= a < b < i ==> wv[a] != wv[b],
            out@.len() == 0 ==> forall|a: int, b: int| 0 <= a < b < i ==> tv[a] != tv[b],
        decreases readings@.len() - i,
    {
        let reading = &readings[i];
        let wire_taken = taken_earlier(&wires, i);
        match wire_taken {
            Some(j) => {
                let message = duplicate_wire_name_message(
                    service,
                    reading.wire.as_str(),
                    readings[j].declared.as_str(),
                    reading.declared.as_str(),
                );
                push_refusal(&mut out, RefusalSite::Operation(i), message);
            },
            None => {},
        }
        assert(wire_taken is Some ==> out@.len() > 0);
        let ts_taken = taken_earlier(&tss, i);
        match ts_taken {
            Some(j) => {
                let message = duplicate_ts_name_message(
                    service,
                    reading.ts.as_str(),
                    readings[j].declared.as_str(),
                    reading.declared.as_str(),
                );
                push_refusal(&mut out, RefusalSite::Operation(i), message);
            },
            None => {},
        }
        let ghost after_ts = site_views(out@);
        assert((wire_taken is Some || ts_taken is Some) ==> out@.len() > 0);
        proof {
            if out@.len() == 0 {
                assert forall|j: int| 0 <= j < i implies wv[j] != wv[i as int] by {
                    assert(wv[j] == wires@[j]@);
                    assert(wv[i as int] == wires@[i as int]@);
                }
                assert forall|j: int| 0 <= j < i implies tv[j] != tv[i as int] by {
                    assert(tv[j] == tss@[j]@);
                    assert(tv[i as int] == tss@[i as int]@);
                }
            }
        }
        let mut t: usize = 0;
        while t < reading.carried.len()
            invariant
                0 <= t <= reading.carried@.len(),
                site_views(out@) == after_ts + context_refusals(context@, *reading, i as int, t as int),
                out@.len() == 0 ==> forall|j: int| 0 <= j < i ==> wv[j] != wv[i as int],
                out@.len() == 0 ==> forall|j: int| 0 <= j < i ==> tv[j] != tv[i as int],
                out@.len() == 0 ==> after_ts.len() == 0,
            decreases reading.carried@.len() - t,
        {
            let ghost before = site_views(out@);
            if text_names_word(reading.carried[t].as_str(), context) {
                push_refusal(
                    &mut out,
                    RefusalSite::CarriedType(i, t),
                    context_on_the_wire_message(reading.declared.as_str(), context),
                );
            }
            assert(site_views(out@) =~= after_ts + context_refusals(
                context@,
                *reading,
                i as int,
                t + 1,
            ));
            t = t + 1;
        }
        assert(site_views(out@) =~= operations_refusals(service@, context@, readings@, i + 1));
        i = i + 1;
    }
    let ghost operations_part = site_views(out@);
    let ghost mv = message_name_views(messages@);
    let mut m: usize = 0;
    while m < messages.len()
        invariant
            0 <= m <= messages@.len(),
            mv == message_name_views(messages@),
            site_views(out@) == operations_part + messages_refusals(mv, readings@, m as int),
            out@.len() == 0 ==> all_distinct(wv),
            out@.len() == 0 ==> all_distinct(tv),
            wv == wire_names(readings@),
            tv == ts_names(readings@),
        decreases messages@.len() - m,
    {
        let (name, declared_for) = (&messages[m].0, &messages[m].1);
        let ghost message = mv[m as int];
        assert(message == (name@, declared_for@));
        let ghost before_message = site_views(out@);
        let mut o: usize = 0;
        while o < readings.len()
            invariant
                0 <= o <= readings@.len(),
                message == (name@, declared_for@),
                site_views(out@) == before_message + message_refusals(message, readings@, o as int),
                out@.len() == 0 ==> all_distinct(wv),
                out@.len() == 0 ==> all_distinct(tv),
            decreases readings@.len() - o,
        {
            let reading = &readings[o];
            let ghost before_operation = site_views(out@);
            let mut t: usize = 0;
            while t < reading.carried.len()
                invariant
                    0 <= t <= reading.carried@.len(),
                    message == (name@, declared_for@),
                    site_views(out@) == before_operation + collision_refusals(
                        message,
                        *reading,
                        o as int,
                        t as int,
                    ),
                    out@.len() == 0 ==> all_distinct(wv),
                    out@.len() == 0 ==> all_distinct(tv),
                decreases reading.carried@.len() - t,
            {
                if str_eq(reading.carried[t].as_str(), name.as_str()) {
                    push_refusal(
                        &mut out,
                        RefusalSite::CarriedType(o, t),
                        message_collision_message(declared_for.as_str(), name.as_str(), reading.declared.as_str()),
                    );
                }
                assert(site_views(out@) =~= before_operation + collision_refusals(
                    message,
                    *reading,
                    o as int,
                    t + 1,
                ));
                t = t + 1;
            }
            assert(site_views(out@) =~= before_message + message_refusals(message, readings@, o + 1));
            o = o + 1;
        }
        assert(site_views(out@) =~= operations_part + messages_refusals(mv, readings@, m + 1));
        m = m + 1;
    }
    out
}

/// Whether a refusal's site is one of the operations, or one of the types an operation carries.
pub open spec fn site_fits(site: RefusalSite, readings: Seq<OperationReading>) -> bool {
    match site {
        RefusalSite::Operation(i) => i < readings.len(),
        RefusalSite::CarriedType(i, t) => i < readings.len() && t < readings[i as int].carried@.len(),
    }
}

pub open spec fn all_fit(refusals: Seq<(RefusalSite, Seq<char>)>, readings: Seq<OperationReading>) -> bool {
    forall|k: int| 0 <= k < refusals.len() ==> site_fits(#[trigger] refusals[k].0, readings)
}

proof fn lemma_all_fit_concat(
    a: Seq<(RefusalSite, Seq<char>)>,
    b: Seq<(RefusalSite, Seq<char>)>,
    readings: Seq<OperationReading>,
)
    requires
        all_fit(a, readings),
        all_fit(b, readings),
    ensures
        all_fit(a + b, readings),
{
    assert forall|k: int| 0 <= k < (a + b).len() implies site_fits(#[trigger] (a + b)[k].0, readings) by {
        if k < a.len() {
            assert((a + b)[k] == a[k]);
        } else {
            assert((a + b)[k] == b[k - a.len()]);
        }
    }
}

proof fn lemma_context_refusals_fit(
    context: Seq<char>,
    readings: Seq<OperationReading>,
    i: int,
    n: int,
)
    requires
        0 <= i < readings.len() <= usize::MAX,
        n <= readings[i].carried@.len(),
    ensures
        all_fit(context_refusals(context, readings[i], i, n), readings),
    decreases n,
{
    if n > 0 {
        lemma_context_refusals_fit(context, readings, i, n - 1);
        let last = if names_word(readings[i].carried@[n - 1]@, context) {
            seq![
                (
                    RefusalSite::CarriedType(i as usize, (n - 1) as usize),
                    context_on_the_wire_seq(readings[i].declared@, context),
                ),
            ]
        } else {
            Seq::empty()
        };
        lemma_all_fit_concat(context_refusals(context, readings[i], i, n - 1), last, readings);
    }
}

proof fn lemma_operations_refusals_fit(
    service: Seq<char>,
    context: Seq<char>,
    readings: Seq<OperationReading>,
    n: int,
)
    requires
        n <= readings.len() <= usize::MAX,
    ensures
        all_fit(operations_refusals(service, context, readings, n), readings),
    decreases n,
{
    if n > 0 {
        let i = n - 1;
        lemma_operations_refusals_fit(service, context, readings, i);
        lemma_context_refusals_fit(context, readings, i, readings[i].carried@.len() as int);
        let whole = operation_refusals(service, context, readings, i);
        let reading = readings[i];
        let wire = match taker(wire_names(readings), i) {
            Some(j) => seq![
                (
                    RefusalSite::Operation(i as usize),
                    duplicate_wire_name_seq(service, reading.wire@, readings[j].declared@, reading.declared@),
                ),
            ],
            None => Seq::empty(),
        };
        let ts = match taker(ts_names(readings), i) {
            Some(j) => seq![
                (
                    RefusalSite::Operation(i as usize),
                    duplicate_ts_name_seq(service, reading.ts@, readings[j].declared@, reading.declared@),
                ),
            ],
            None => Seq::empty(),
        };
        lemma_all_fit_concat(wire, ts, readings);
        lemma_all_fit_concat(
            wire + ts,
            context_refusals(context, reading, i, reading.carried@.len() as int),
            readings,
        );
        lemma_all_fit_concat(operations_refusals(service, context, readings, i), whole, readings);
    }
}

proof fn lemma_collision_refusals_fit(
    message: (Seq<char>, Seq<char>),
    readings: Seq<OperationReading>,
    o: int,
    n: int,
)
    requires
        0 <= o < readings.len() <= usize::MAX,
        n <= readings[o].carried@.len(),
    ensures
        all_fit(collision_refusals(message, readings[o], o, n), readings),
    decreases n,
{
    if n > 0 {
        lemma_collision_refusals_fit(message, readings, o, n - 1);
        let last = if readings[o].carried@[n - 1]@ == message.0 {
            seq![
                (
                    RefusalSite::CarriedType(o as usize, (n - 1) as usize),
                    message_collision_seq(message.1, message.0, readings[o].declared@),
                ),
            ]
        } else {
            Seq::empty()
        };
        lemma_all_fit_concat(collision_refusals(message, readings[o], o, n - 1), last, readings);
    }
}

proof fn lemma_message_refusals_fit(
    message: (Seq<char>, Seq<char>),
    readings: Seq<OperationReading>,
    n: int,
)
    requires
        n <= readings.len() <= usize::MAX,
    ensures
        all_fit(message_refusals(message, readings, n), readings),
    decreases n,
{
    if n > 0 {
        lemma_message_refusals_fit(message, readings, n - 1);
        lemma_collision_refusals_fit(message, readings, n - 1, readings[n - 1].carried@.len() as int);
        lemma_all_fit_concat(
            message_refusals(message, readings, n - 1),
            collision_refusals(message, readings[n - 1], n - 1, readings[n - 1].carried@.len() as int),
            readings,
        );
    }
}

proof fn lemma_messages_refusals_fit(
    messages: Seq<(Seq<char>, Seq<char>)>,
    readings: Seq<OperationReading>,
    n: int,
)
    requires
        n <= messages.len(),
        readings.len() <= usize::MAX,
    ensures
        all_fit(messages_refusals(messages, readings, n), readings),
    decreases n,
{
    if n > 0 {
        lemma_messages_refusals_fit(messages, readings, n - 1);
        lemma_message_refusals_fit(messages[n - 1], readings, readings.len() as int);
        lemma_all_fit_concat(
            messages_refusals(messages, readings, n - 1),
            message_refusals(messages[n - 1], readings, readings.len() as int),
            readings,
        );
    }
}

proof fn lemma_taker_below_is_none(names: Seq<Seq<char>>, i: int, j: int)
    requires
        0 <= i < names.len(),
        0 <= j <= names.len(),
    ensures
        taker_below(names, i, j) is None <==> forall|k: int| 0 <= k < j ==> names[k] != names[i],
    decreases j,
{
    if j > 0 {
        lemma_taker_below_is_none(names, i, j - 1);
    }
}

proof fn lemma_distinct_exactly_when_nothing_is_taken(names: Seq<Seq<char>>)
    ensures
        all_distinct(names) <==> forall|i: int| 0 <= i < names.len() ==> #[trigger] taker(names, i) is None,
{
    assert forall|i: int| 0 <= i < names.len() implies (#[trigger] taker(names, i) is None <==> forall|k: int|
        0 <= k < i ==> names[k] != names[i]) by {
        lemma_taker_below_is_none(names, i, i);
    }
    if all_distinct(names) {
        assert forall|i: int| 0 <= i < names.len() implies #[trigger] taker(names, i) is None by {
            assert forall|k: int| 0 <= k < i implies names[k] != names[i] by {}
        }
    }
    if forall|i: int| 0 <= i < names.len() ==> #[trigger] taker(names, i) is None {
        assert forall|a: int, b: int| 0 <= a < b < names.len() implies names[a] != names[b] by {
            assert(taker(names, b) is None);
        }
    }
}

proof fn lemma_context_refusals_empty(context: Seq<char>, reading: OperationReading, i: int, n: int)
    requires
        0 <= n <= reading.carried@.len(),
    ensures
        context_refusals(context, reading, i, n).len() == 0 <==> forall|t: int|
            0 <= t < n ==> !names_word(#[trigger] reading.carried@[t]@, context),
    decreases n,
{
    if n > 0 {
        lemma_context_refusals_empty(context, reading, i, n - 1);
    }
}

proof fn lemma_operations_refusals_empty(
    service: Seq<char>,
    context: Seq<char>,
    readings: Seq<OperationReading>,
    n: int,
)
    requires
        0 <= n <= readings.len(),
    ensures
        operations_refusals(service, context, readings, n).len() == 0 <==> forall|i: int|
            0 <= i < n ==> (#[trigger] taker(wire_names(readings), i) is None && taker(ts_names(readings), i)
                is None && forall|t: int|
                0 <= t < readings[i].carried@.len() ==> !names_word(readings[i].carried@[t]@, context)),
    decreases n,
{
    if n > 0 {
        lemma_operations_refusals_empty(service, context, readings, n - 1);
        let i = n - 1;
        lemma_context_refusals_empty(context, readings[i], i, readings[i].carried@.len() as int);
    }
}

proof fn lemma_collision_refusals_empty(
    message: (Seq<char>, Seq<char>),
    reading: OperationReading,
    o: int,
    n: int,
)
    requires
        0 <= n <= reading.carried@.len(),
    ensures
        collision_refusals(message, reading, o, n).len() == 0 <==> forall|t: int|
            0 <= t < n ==> #[trigger] reading.carried@[t]@ != message.0,
    decreases n,
{
    if n > 0 {
        lemma_collision_refusals_empty(message, reading, o, n - 1);
    }
}

proof fn lemma_message_refusals_empty(message: (Seq<char>, Seq<char>), readings: Seq<OperationReading>, n: int)
    requires
        0 <= n <= readings.len(),
    ensures
        message_refusals(message, readings, n).len() == 0 <==> forall|o: int, t: int|
            0 <= o < n && 0 <= t < readings[o].carried@.len() ==> #[trigger] readings[o].carried@[t]@ != message.0,
    decreases n,
{
    if n > 0 {
        lemma_message_refusals_empty(message, readings, n - 1);
        lemma_collision_refusals_empty(message, readings[n - 1], n - 1, readings[n - 1].carried@.len() as int);
    }
}

proof fn lemma_messages_refusals_empty(
    messages: Seq<(Seq<char>, Seq<char>)>,
    readings: Seq<OperationReading>,
    n: int,
)
    requires
        0 <= n <= messages.len(),
    ensures
        messages_refusals(messages, readings, n).len() == 0 <==> forall|m: int, o: int, t: int|
            #![trigger readings[o].carried@[t], messages[m]]
            0 <= m < n && 0 <= o < readings.len() && 0 <= t < readings[o].carried@.len()
                ==> readings[o].carried@[t]@ != messages[m].0,
    decreases n,
{
    if n > 0 {
        lemma_messages_refusals_empty(messages, readings, n - 1);
        lemma_message_refusals_empty(messages[n - 1], readings, readings.len() as int);
        if messages_refusals(messages, readings, n).len() == 0 {
            assert forall|m: int, o: int, t: int|
                #![trigger readings[o].carried@[t], messages[m]]
                0 <= m < n && 0 <= o < readings.len() && 0 <= t < readings[o].carried@.len()
                    implies readings[o].carried@[t]@ != messages[m].0 by {
                if m == n - 1 {
                    assert(readings[o].carried@[t]@ != messages[n - 1].0);
                }
            }
        }
    }
}

/// The rules checked across operations refuse nothing exactly when no wire name and no TypeScript
/// spelling is carried by two operations, no type an operation carries names the context, and no
/// type an operation carries is spelled as a message the macro declares.
pub proof fn lemma_no_refusal_across_operations_exactly_when(
    service: Seq<char>,
    context: Seq<char>,
    readings: Seq<OperationReading>,
    messages: Seq<(Seq<char>, Seq<char>)>,
)
    ensures
        across_refusals(service, context, readings, messages).len() == 0 <==> {
            &&& all_distinct(wire_names(readings))
            &&& all_distinct(ts_names(readings))
            &&& forall|i: int, t: int|
                0 <= i < readings.len() && 0 <= t < readings[i].carried@.len() ==> !names_word(
                    #[trigger] readings[i].carried@[t]@,
                    context,
                )
            &&& forall|m: int, o: int, t: int|
                #![trigger readings[o].carried@[t], messages[m]]
                0 <= m < messages.len() && 0 <= o < readings.len() && 0 <= t < readings[o].carried@.len()
                    ==> readings[o].carried@[t]@ != messages[m].0
        },
{
    let n = readings.len() as int;
    lemma_operations_refusals_empty(service, context, readings, n);
    lemma_messages_refusals_empty(messages, readings, messages.len() as int);
    lemma_distinct_exactly_when_nothing_is_taken(wire_names(readings));
    lemma_distinct_exactly_when_nothing_is_taken(ts_names(readings));
    if across_refusals(service, context, readings, messages).len() == 0 {
        assert forall|i: int, t: int|
            0 <= i < readings.len() && 0 <= t < readings[i].carried@.len() implies !names_word(
                #[trigger] readings[i].carried@[t]@,
                context,
            ) by {
            assert(taker(wire_names(readings), i) is None);
        }
        assert forall|i: int| 0 <= i < wire_names(readings).len() implies #[trigger] taker(wire_names(readings), i) is None by {
            assert(taker(wire_names(readings), i) is None);
        }
        assert forall|i: int| 0 <= i < ts_names(readings).len() implies #[trigger] taker(ts_names(readings), i) is None by {
            assert(taker(wire_names(readings), i) is None);
        }
    }
    if all_distinct(wire_names(readings)) && all_distinct(ts_names(readings)) && (forall|i: int, t: int|
        0 <= i < readings.len() && 0 <= t < readings[i].carried@.len() ==> !names_word(
            #[trigger] readings[i].carried@[t]@,
            context,
        )) {
        assert forall|i: int| 0 <= i < n implies (#[trigger] taker(wire_names(readings), i) is None && taker(
            ts_names(readings),
            i,
        ) is None && forall|t: int|
            0 <= t < readings[i].carried@.len() ==> !names_word(readings[i].carried@[t]@, context)) by {
            assert(taker(ts_names(readings), i) is None);
        }
    }
}

/// Every refusal the rules checked across operations report points at an operation that is
/// there, or at a type that operation carries.
pub proof fn lemma_across_refusals_point_at_what_was_read(
    service: Seq<char>,
    context: Seq<char>,
    readings: Seq<OperationReading>,
    messages: Seq<(Seq<char>, Seq<char>)>,
)
    requires
        readings.len() <= usize::MAX,
    ensures
        all_fit(across_refusals(service, context, readings, messages), readings),
{
    lemma_operations_refusals_fit(service, context, readings, readings.len() as int);
    lemma_messages_refusals_fit(messages, readings, messages.len() as int);
    lemma_all_fit_concat(
        operations_refusals(service, context, readings, readings.len() as int),
        messages_refusals(messages, readings, messages.len() as int),
        readings,
    );
}

// --- Reading the whole service -------------------------------------------------------------------

/// The printed tokens of each type an operation puts on the wire: the arguments its message
/// carries, then the success and error arms of its reply.
pub open spec fn carried_texts(operation: DeclaredOperation, positions: Seq<int>, reply: bool) -> Seq<
    Seq<char>,
> {
    positions.map_values(|p: int| input_text(operation.inputs@[p])) + if reply {
        reply_texts(operation.output)
    } else {
        Seq::empty()
    }
}

pub open spec fn reply_texts(output: Option<DeclaredOutput>) -> Seq<Seq<char>> {
    match output {
        Some(declared) => match declared.arms {
            Some((success, error)) => seq![success.text@, error.text@],
            None => Seq::empty(),
        },
        None => Seq::empty(),
    }
}

/// Where each type an operation puts on the wire was written, in the order of [`carried_texts`].
pub open spec fn carried_spans(operation: DeclaredOperation, positions: Seq<int>, reply: bool) -> Seq<
    proc_macro2::Span,
> {
    positions.map_values(|p: int| input_type_span(operation.inputs@[p], operation.signature_span))
        + if reply {
        reply_spans(operation.output)
    } else {
        Seq::empty()
    }
}

pub open spec fn reply_spans(output: Option<DeclaredOutput>) -> Seq<proc_macro2::Span> {
    match output {
        Some(declared) => match declared.arms {
            Some((success, error)) => seq![success.span, error.span],
            None => Seq::empty(),
        },
        None => Seq::empty(),
    }
}

/// The refusals the first `n` operations earn one by one, in operation order.
pub open spec fn operation_refusal_views(
    operations: Seq<DeclaredOperation>,
    context: Seq<char>,
    n: int,
) -> Seq<RefusedView>
    decreases n,
{
    if n <= 0 {
        Seq::empty()
    } else {
        operation_refusal_views(operations, context, n - 1) + match operation_view(
            operations[n - 1],
            context,
        ) {
            Err(refused) => seq![refused],
            Ok(_) => Seq::empty(),
        }
    }
}

/// An operation that was read, what the rules checked across operations read of it, and where its
/// name and the types it carries were written, all as the declared operation has them.
pub open spec fn entry_fits(
    made: OperationDef,
    reading: OperationReading,
    spans: (proc_macro2::Span, Vec<proc_macro2::Span>),
    operation: DeclaredOperation,
    context: Seq<char>,
) -> bool {
    let read = operation_view(operation, context)->Ok_0;
    &&& operation_matches(made, operation, read)
    &&& reading_fits(reading, operation, context)
    &&& spans.0 == operation.name_span
    &&& spans.1@ == carried_spans(operation, read.1, read.2 is Some)
}

/// A service a parsed trait declaration is read into.
pub open spec fn read_into(declared: syn::ItemTrait, made: ServiceDef) -> bool {
    exists|service: DeclaredService, readings: Seq<OperationReading>|
        declared_service_of(service, declared) && #[trigger] service_read_as(
            service,
            readings,
            Ok::<ServiceDef, Vec<Refused>>(made),
        )
}

/// How a parsed trait declaration is read: it is read into plain values ([`declared_service_of`]),
/// and those are read as [`service_of`] reads them — the service where it earns no refusal, and an
/// error where it earns any.
pub open spec fn service_reading_of(declared: syn::ItemTrait, r: Result<ServiceDef, syn::Error>) -> bool {
    match r {
        Ok(made) => read_into(declared, made),
        Err(error) => exists|service: DeclaredService, readings: Seq<OperationReading>, refusals: Vec<Refused>|
            declared_service_of(service, declared) && #[trigger] service_read_as(
                service,
                readings,
                Err::<ServiceDef, Vec<Refused>>(refusals),
            ) && error_messages_of(error) == refusals_messages(refused_views(refusals@)),
    }
}

/// Whether an operation is read, earning no refusal of its own.
pub open spec fn is_read(operation: DeclaredOperation, context: Seq<char>) -> bool {
    operation_view(operation, context) is Ok
}

/// The positions, among the first `n` operations, of those that are read.
pub open spec fn read_positions(operations: Seq<DeclaredOperation>, context: Seq<char>, n: int) -> Seq<int>
    decreases n,
{
    if n <= 0 {
        Seq::empty()
    } else {
        read_positions(operations, context, n - 1) + if operation_view(operations[n - 1], context) is Ok {
            seq![n - 1]
        } else {
            Seq::empty()
        }
    }
}

/// The messages the macro declares among the first `n` operations, each by its name and the name
/// of the operation it is declared for: one per operation that is read and names no message.
pub open spec fn declared_message_names(
    operations: Seq<DeclaredOperation>,
    context: Seq<char>,
    n: int,
) -> Seq<(Seq<char>, Seq<char>)>
    decreases n,
{
    if n <= 0 {
        Seq::empty()
    } else {
        declared_message_names(operations, context, n - 1) + match operation_view(
            operations[n - 1],
            context,
        ) {
            Ok(read) => if read.1.len() != 1 {
                seq![(generated_message_seq(operations[n - 1].name@), operations[n - 1].name@)]
            } else {
                Seq::empty()
            },
            Err(_) => Seq::empty(),
        }
    }
}

/// What the rules checked across operations read of one operation that was read.
pub open spec fn reading_fits(reading: OperationReading, operation: DeclaredOperation, context: Seq<char>) -> bool {
    let read = operation_view(operation, context)->Ok_0;
    &&& reading.declared@ == operation.name@
    &&& reading.wire@ == wire_name_seq(operation.name@, read.0)
    &&& reading.ts@ == ts_name_seq(operation.name@)
    &&& name_views(reading.carried@) == carried_texts(operation, read.1, read.2 is Some)
}

/// One reading per operation that was read, in operation order.
pub open spec fn readings_fit(
    readings: Seq<OperationReading>,
    operations: Seq<DeclaredOperation>,
    context: Seq<char>,
) -> bool {
    let positions = read_positions(operations, context, operations.len() as int);
    &&& readings.len() == positions.len()
    &&& forall|k: int|
        0 <= k < readings.len() ==> reading_fits(#[trigger] readings[k], operations[positions[k]], context)
}

/// Where a refusal of the rules checked across operations is spanned: on the operation's name, or
/// on the type it carries.
pub open spec fn site_span(site: RefusalSite, operations: Seq<DeclaredOperation>, context: Seq<char>) -> proc_macro2::Span {
    let positions = read_positions(operations, context, operations.len() as int);
    match site {
        RefusalSite::Operation(i) => operations[positions[i as int]].name_span,
        RefusalSite::CarriedType(i, t) => carried_spans(
            operations[positions[i as int]],
            operation_view(operations[positions[i as int]], context)->Ok_0.1,
            operation_view(operations[positions[i as int]], context)->Ok_0.2 is Some,
        )[t as int],
    }
}

/// Every refusal a declared service earns, in the order they are reported: a trait without a type
/// parameter earns that one alone; otherwise each operation's own refusal in operation order, then
/// what [`across_refusals`] finds among the operations that were read.
pub open spec fn service_refusal_views(service: DeclaredService, readings: Seq<OperationReading>) -> Seq<RefusedView> {
    match service.context {
        None => seq![RefusedView::Written(service.name_span, missing_context_parameter_seq(service.name@))],
        Some((_, context)) => operation_refusal_views(
            service.operations@,
            context@,
            service.operations@.len() as int,
        ) + across_refusals(
            service.name@,
            context@,
            readings,
            declared_message_names(service.operations@, context@, service.operations@.len() as int),
        ).map_values(
            |found: (RefusalSite, Seq<char>)|
                RefusedView::Written(site_span(found.0, service.operations@, context@), found.1),
        ),
    }
}

/// The service a declared one is read into: its identifier, its context parameter, and each
/// operation that was read, in order, with the messages declared for those that name none.
pub open spec fn service_matches(made: ServiceDef, service: DeclaredService) -> bool {
    let context = service.context->Some_0;
    let positions = read_positions(service.operations@, context.1@, service.operations@.len() as int);
    &&& service.context is Some
    &&& made.ident == service.ident
    &&& made.context_param == context.0
    &&& made.operations@.len() == positions.len()
    &&& forall|k: int|
        0 <= k < positions.len() ==> operation_matches(
            #[trigger] made.operations@[k],
            service.operations@[positions[k]],
            operation_view(service.operations@[positions[k]], context.1@)->Ok_0,
        )
    &&& exists|from: Seq<int>| declared_from(made.generated_messages@, made.operations@, from)
    &&& plain_message_names(made.operations@, made.operations@.len() as int) ==> messages_declared(
        made.generated_messages@,
        made.operations@,
    )
}

/// How a declared service is read, given the readings of its operations: the service where it
/// earns no refusal, and otherwise every refusal it earns, in order.
pub open spec fn service_read_as(
    service: DeclaredService,
    readings: Seq<OperationReading>,
    r: Result<ServiceDef, Vec<Refused>>,
) -> bool {
    &&& service.context matches Some(context) ==> readings_fit(readings, service.operations@, context.1@)
    &&& match r {
        Ok(made) => service_refusal_views(service, readings).len() == 0 && service_matches(made, service),
        Err(refusals) => service_refusal_views(service, readings).len() > 0 && refused_views(refusals@)
            == service_refusal_views(service, readings),
    }
}

/// The wire names of some operations, in order.
pub open spec fn operation_wire_names(operations: Seq<OperationDef>) -> Seq<Seq<char>> {
    operations.map_values(|o: OperationDef| o.wire_name@)
}

/// The TypeScript spellings of some operations, in order.
pub open spec fn operation_ts_names(operations: Seq<OperationDef>) -> Seq<Seq<char>> {
    operations.map_values(|o: OperationDef| o.ts_name@)
}

/// The carried texts and spans of an operation that was read.
fn carried_of(operation: &DeclaredOperation, positions: &Vec<usize>, reply: bool) -> (r: (
    Vec<String>,
    Vec<proc_macro2::Span>,
))
    requires
        forall|m: int| 0 <= m < positions@.len() ==> #[trigger] positions@[m] < operation.inputs@.len(),
    ensures
        name_views(r.0@) == carried_texts(*operation, positions_view(positions@), reply),
        r.1@ == carried_spans(*operation, positions_view(positions@), reply),
{
    let ghost pv = positions_view(positions@);
    let mut texts: Vec<String> = Vec::new();
    let mut spans: Vec<proc_macro2::Span> = Vec::new();
    let mut q: usize = 0;
    while q < positions.len()
        invariant
            0 <= q <= positions@.len(),
            pv == positions_view(positions@),
            forall|m: int| 0 <= m < positions@.len() ==> #[trigger] positions@[m] < operation.inputs@.len(),
            name_views(texts@) == pv.take(q as int).map_values(|p: int| input_text(operation.inputs@[p])),
            spans@ == pv.take(q as int).map_values(
                |p: int| input_type_span(operation.inputs@[p], operation.signature_span),
            ),
        decreases positions@.len() - q,
    {
        let p = positions[q];
        assert(pv[q as int] == p as int);
        let (text, span) = match &operation.inputs[p] {
            DeclaredInput::Typed { argument, .. } => (argument.text.clone(), argument.span),
            DeclaredInput::Receiver => (String::new(), operation.signature_span),
        };
        let ghost tb = texts@;
        texts.push(text);
        spans.push(span);
        assert(name_views(texts@) =~= name_views(tb).push(text@));
        assert(pv.take(q + 1) =~= pv.take(q as int).push(p as int));
        assert(name_views(texts@) =~= pv.take(q + 1).map_values(|p: int| input_text(operation.inputs@[p])));
        assert(spans@ =~= pv.take(q + 1).map_values(
            |p: int| input_type_span(operation.inputs@[p], operation.signature_span),
        ));
        q = q + 1;
    }
    assert(pv.take(positions@.len() as int) =~= pv);
    let ghost received_texts = name_views(texts@);
    let ghost received_spans = spans@;
    if reply {
        match &operation.output {
            Some(declared) => match &declared.arms {
                Some((success, error)) => {
                    texts.push(success.text.clone());
                    texts.push(error.text.clone());
                    spans.push(success.span);
                    spans.push(error.span);
                },
                None => {},
            },
            None => {},
        }
    }
    assert(name_views(texts@) =~= received_texts + if reply { reply_texts(operation.output) } else { Seq::empty() });
    assert(spans@ =~= received_spans + if reply { reply_spans(operation.output) } else { Seq::empty() });
    (texts, spans)
}

/// Where a refusal of the rules checked across operations is spanned, given where each operation's
/// name and each type it carries were written.
pub open spec fn spans_site(
    spans: Seq<(proc_macro2::Span, Vec<proc_macro2::Span>)>,
    site: RefusalSite,
) -> proc_macro2::Span {
    match site {
        RefusalSite::Operation(i) => spans[i as int].0,
        RefusalSite::CarriedType(i, t) => spans[i as int].1@[t as int],
    }
}

/// The rules that can only be checked once every operation has been read, as
/// [`across_operation_refusals`] decides them over the readings, each spanned where it points:
/// on the operation's name, or on the type it carries. Where there are none, no wire name and no
/// TypeScript spelling is carried by two operations.
fn service_refusals(
    service: &str,
    context: &str,
    readings: &Vec<OperationReading>,
    messages: &Vec<(String, String)>,
    spans: &Vec<(proc_macro2::Span, Vec<proc_macro2::Span>)>,
) -> (r: Vec<Refused>)
    requires
        spans@.len() == readings@.len(),
        forall|q: int| 0 <= q < readings@.len() ==> (#[trigger] spans@[q]).1@.len() == readings@[q].carried@.len(),
    ensures
        refused_views(r@) == across_refusals(service@, context@, readings@, message_name_views(messages@)).map_values(
            |f: (RefusalSite, Seq<char>)| RefusedView::Written(spans_site(spans@, f.0), f.1),
        ),
        r@.len() == 0 ==> all_distinct(wire_names(readings@)),
        r@.len() == 0 ==> all_distinct(ts_names(readings@)),
{
    let found = across_operation_refusals(service, context, readings, messages);
    let count = readings.len();
    let ghost across = across_refusals(service@, context@, readings@, message_name_views(messages@)).map_values(
        |f: (RefusalSite, Seq<char>)| RefusedView::Written(spans_site(spans@, f.0), f.1),
    );
    proof {
        assert(count as int == readings@.len());
        lemma_across_refusals_point_at_what_was_read(service@, context@, readings@, message_name_views(messages@));
        let views = site_views(found@);
        assert forall|k: int| 0 <= k < found@.len() implies site_fits(#[trigger] found@[k].0, readings@) by {
            assert(views[k].0 == found@[k].0);
        }
    }
    let mut refusals: Vec<Refused> = Vec::new();
    let mut k: usize = 0;
    while k < found.len()
        invariant
            0 <= k <= found@.len(),
            site_views(found@) == across_refusals(service@, context@, readings@, message_name_views(messages@)),
            across == across_refusals(service@, context@, readings@, message_name_views(messages@)).map_values(
                |f: (RefusalSite, Seq<char>)| RefusedView::Written(spans_site(spans@, f.0), f.1),
            ),
            refused_views(refusals@) == across.take(k as int),
            spans@.len() == readings@.len(),
            forall|q: int| 0 <= q < readings@.len() ==> (#[trigger] spans@[q]).1@.len() == readings@[q].carried@.len(),
            forall|q: int| 0 <= q < found@.len() ==> site_fits(#[trigger] found@[q].0, readings@),
        decreases found@.len() - k,
    {
        let site = found[k].0;
        let span = match site {
            RefusalSite::Operation(i) => spans[i].0,
            RefusalSite::CarriedType(i, t) => spans[i].1[t],
        };
        let ghost rb = refusals@;
        refusals.push(written(span, found[k].1.clone()));
        proof {
            assert(site_views(found@)[k as int] == (found@[k as int].0, found@[k as int].1@));
            assert(spans_site(spans@, site) == span);
            assert(across[k as int] == RefusedView::Written(span, found@[k as int].1@));
            assert(across.take(k + 1) =~= across.take(k as int).push(across[k as int]));
            assert(refused_views(refusals@) =~= refused_views(rb).push(across[k as int]));
        }
        k = k + 1;
    }
    assert(across.take(found@.len() as int) =~= across);
    refusals
}

/// Reads a declared service: every operation in order, then the rules checked across the
/// operations that were read. Refusals are accumulated rather than reported one at a time, so an
/// author fixing a service sees everything wrong with it at once; a service that earns none is
/// read, and then carries no wire name and no TypeScript spelling on two operations.
pub fn service_of(service: &DeclaredService) -> (r: Result<ServiceDef, Vec<Refused>>)
    ensures
        exists|readings: Seq<OperationReading>| #[trigger] service_read_as(*service, readings, r),
        r matches Ok(made) ==> all_distinct(operation_wire_names(made.operations@)),
        r matches Ok(made) ==> all_distinct(operation_ts_names(made.operations@)),
{
    let (context_param, context) = match &service.context {
        None => {
            let mut refusals: Vec<Refused> = Vec::new();
            refusals.push(
                written(service.name_span, missing_context_parameter_message(service.name.as_str())),
            );
            let r: Result<ServiceDef, Vec<Refused>> = Err(refusals);
            assert(refused_views(refusals@) =~= service_refusal_views(*service, Seq::empty()));
            assert(service_read_as(*service, Seq::empty(), r));
            return r;
        },
        Some((param, text)) => (param, text),
    };
    let ghost ops = service.operations@;
    let ghost cv = context@;
    let mut operations: Vec<OperationDef> = Vec::new();
    let mut refusals: Vec<Refused> = Vec::new();
    let mut readings: Vec<OperationReading> = Vec::new();
    let mut spans: Vec<(proc_macro2::Span, Vec<proc_macro2::Span>)> = Vec::new();
    let mut names: Vec<(String, String)> = Vec::new();
    let mut i: usize = 0;
    while i < service.operations.len()
        invariant
            0 <= i <= ops.len(),
            ops == service.operations@,
            cv == context@,
            refused_views(refusals@) == operation_refusal_views(ops, cv, i as int),
            message_name_views(names@) == declared_message_names(ops, cv, i as int),
            operations@.len() == read_positions(ops, cv, i as int).len(),
            readings@.len() == operations@.len(),
            spans@.len() == operations@.len(),
            forall|k: int|
                0 <= k < operations@.len() ==> entry_fits(
                    #[trigger] operations@[k],
                    readings@[k],
                    spans@[k],
                    ops[read_positions(ops, cv, i as int)[k]],
                    cv,
                ),
        decreases ops.len() - i,
    {
        let operation = &service.operations[i];
        let ghost before_positions = read_positions(ops, cv, i as int);
        let ghost before_refusals = refusals@;
        let ghost before_names = message_name_views(names@);
        let ghost old_operations = operations@;
        let ghost old_readings = readings@;
        let ghost old_spans = spans@;
        match parse_operation(operation, context.as_str()) {
            Ok((made, positions)) => {
                let ghost read = operation_view(ops[i as int], cv)->Ok_0;
                proof {
                    lemma_carried_positions_fit(operation.inputs@, operation.signature_span, operation.name@, cv);
                    let pv = positions_view(positions@);
                    assert(pv == read.1);
                    assert forall|m: int| 0 <= m < positions@.len() implies #[trigger] positions@[m]
                        < operation.inputs@.len() by {
                        assert(pv[m] == positions@[m] as int);
                    }
                }
                let reply = match &made.outcome {
                    OperationOutcome::Reply { .. } => true,
                    OperationOutcome::OneWay => false,
                };
                let (carried, at) = carried_of(operation, &positions, reply);
                if positions.len() != 1 {
                    let ghost nb = names@;
                    names.push((generated_message_name(operation.name.as_str()), operation.name.clone()));
                    assert(message_name_views(names@) =~= message_name_views(nb).push(
                        (generated_message_seq(operation.name@), operation.name@),
                    ));
                }
                let reading = OperationReading {
                    declared: operation.name.clone(),
                    wire: made.wire_name.clone(),
                    ts: made.ts_name.clone(),
                    carried,
                };
                assert(reply == (read.2 is Some));
                readings.push(reading);
                spans.push((operation.name_span, at));
                operations.push(made);
                proof {
                    let np = read_positions(ops, cv, i + 1);
                    assert(np =~= before_positions.push(i as int));
                    assert forall|k: int| 0 <= k < operations@.len() implies entry_fits(
                        #[trigger] operations@[k],
                        readings@[k],
                        spans@[k],
                        ops[np[k]],
                        cv,
                    ) by {
                        if k < old_operations.len() {
                            assert(np[k] == before_positions[k]);
                            assert(operations@[k] == old_operations[k]);
                            assert(readings@[k] == old_readings[k]);
                            assert(spans@[k] == old_spans[k]);
                            let p = np[k];
                            let rd = operation_view(ops[p], cv)->Ok_0;
                            assert(operation_matches(old_operations[k], ops[p], rd));
                            assert(reading_fits(old_readings[k], ops[p], cv));
                            assert(old_spans[k].0 == ops[p].name_span);
                            assert(old_spans[k].1@ == carried_spans(ops[p], rd.1, rd.2 is Some));
                        } else {
                            assert(np[k] == i as int);
                            assert(operations@[k] == made);
                            assert(readings@[k] == reading);
                            assert(is_read(ops[i as int], cv));
                            assert(operation_matches(made, ops[i as int], read));
                            assert(reading.wire@ == made.wire_name@);
                            assert(reading.ts@ == made.ts_name@);
                            assert(name_views(reading.carried@) == carried_texts(ops[i as int], read.1, read.2 is Some));
                            assert(reading_fits(reading, ops[i as int], cv));
                            assert(spans@[k].1@ == carried_spans(ops[i as int], read.1, read.2 is Some));
                            assert(spans@[k].0 == ops[i as int].name_span);
                            let p = np[k];
                            let rd = operation_view(ops[p], cv)->Ok_0;
                            assert(p == i as int);
                            assert(rd == read);
                            assert(operation_matches(operations@[k], ops[p], rd));
                            assert(reading_fits(readings@[k], ops[p], cv));
                        }
                    }
                }
            },
            Err(refused) => {
                refusals.push(refused);
                assert(refused_views(refusals@) =~= refused_views(before_refusals).push(refused_view(refused)));
                proof {
                    let np = read_positions(ops, cv, i + 1);
                    assert(np =~= before_positions);
                    assert forall|k: int| 0 <= k < operations@.len() implies entry_fits(
                        #[trigger] operations@[k],
                        readings@[k],
                        spans@[k],
                        ops[np[k]],
                        cv,
                    ) by {
                        assert(np[k] == before_positions[k]);
                    }
                }
            },
        }
        proof {
            assert(read_positions(ops, cv, i + 1) == before_positions + if operation_view(ops[i as int], cv) is Ok {
                seq![i as int]
            } else {
                Seq::<int>::empty()
            });
        }
        i = i + 1;
    }
    let ghost positions = read_positions(ops, cv, ops.len() as int);
    proof {
        lemma_read_positions(ops, cv, ops.len() as int);
        assert forall|k: int| 0 <= k < readings@.len() implies reading_fits(
            #[trigger] readings@[k],
            ops[positions[k]],
            cv,
        ) by {
            assert(operation_matches(operations@[k], ops[positions[k]], operation_view(ops[positions[k]], cv)->Ok_0));
        }
        assert(readings_fit(readings@, ops, cv));
    }
    proof {
        lemma_read_positions(ops, cv, ops.len() as int);
        assert forall|k: int| 0 <= k < readings@.len() implies (#[trigger] spans@[k]).1@.len()
            == readings@[k].carried@.len() by {
            let p = positions[k];
            let read = operation_view(ops[p], cv)->Ok_0;
            assert(entry_fits(operations@[k], readings@[k], spans@[k], ops[p], cv));
            lemma_carried_lengths(ops[p], read.1, read.2 is Some);
            assert(name_views(readings@[k].carried@).len() == readings@[k].carried@.len());
        }
    }
    let ghost own = refused_views(refusals@);
    let mut across_found = service_refusals(service.name.as_str(), context.as_str(), &readings, &names, &spans);
    let ghost found_sites = across_refusals(service.name@, cv, readings@, message_name_views(names@));
    let ghost across = found_sites.map_values(
        |f: (RefusalSite, Seq<char>)| RefusedView::Written(site_span(f.0, ops, cv), f.1),
    );
    let count = readings.len();
    proof {
        assert(count as int == readings@.len());
        lemma_across_refusals_point_at_what_was_read(service.name@, cv, readings@, message_name_views(names@));
        assert(refused_views(across_found@) =~= across) by {
            assert forall|k: int| 0 <= k < found_sites.len() implies #[trigger] spans_site(spans@, found_sites[k].0)
                == site_span(found_sites[k].0, ops, cv) by {
                assert(site_fits(found_sites[k].0, readings@));
                match found_sites[k].0 {
                    RefusalSite::Operation(i) => {
                        assert(entry_fits(operations@[i as int], readings@[i as int], spans@[i as int], ops[positions[i as int]], cv));
                    },
                    RefusalSite::CarriedType(i, t) => {
                        assert(entry_fits(operations@[i as int], readings@[i as int], spans@[i as int], ops[positions[i as int]], cv));
                    },
                }
            }
        }
    }
    let ghost before_across = refusals@;
    let ghost appended = across_found@;
    refusals.append(&mut across_found);
    assert(refusals@ == before_across + appended);
    assert(refused_views(refusals@) =~= own + across);
    if refusals.len() == 0 {
        let messages = generated_messages(&operations);
        let ghost gm = messages@;
        let ghost opsv = operations@;
        assert(exists|from: Seq<int>| declared_from(gm, opsv, from));
        let made = ServiceDef {
            context_param: clone_ident(context_param),
            ident: clone_ident(&service.ident),
            operations,
            generated_messages: messages,
        };
        proof {
            assert(operation_wire_names(made.operations@) =~= wire_names(readings@));
            assert(operation_ts_names(made.operations@) =~= ts_names(readings@));
        }
        let r: Result<ServiceDef, Vec<Refused>> = Ok(made);
        proof {
            assert(service_refusal_views(*service, readings@) =~= own + across);
            assert(made.operations@ == operations@);
            let from = choose|from: Seq<int>| declared_from(gm, opsv, from);
            assert(made.generated_messages@ == gm && made.operations@ == opsv);
            assert(declared_from(made.generated_messages@, made.operations@, from));
            assert(service_matches(made, *service));
        }
        assert(service_read_as(*service, readings@, r));
        r
    } else {
        let r: Result<ServiceDef, Vec<Refused>> = Err(refusals);
        assert(service_refusal_views(*service, readings@) =~= own + across);
        assert(service_read_as(*service, readings@, r));
        r
    }
}

/// The positions of the operations that are read are, in order, operations among the first `n`
/// that are read.
proof fn lemma_read_positions(operations: Seq<DeclaredOperation>, context: Seq<char>, n: int)
    requires
        0 <= n <= operations.len(),
    ensures
        forall|k: int|
            0 <= k < read_positions(operations, context, n).len() ==> 0 <= #[trigger] read_positions(
                operations,
                context,
                n,
            )[k] < n && is_read(operations[read_positions(operations, context, n)[k]], context),
    decreases n,
{
    if n > 0 {
        lemma_read_positions(operations, context, n - 1);
        let before = read_positions(operations, context, n - 1);
        let all = read_positions(operations, context, n);
        assert forall|k: int| 0 <= k < all.len() implies 0 <= #[trigger] all[k] < n && is_read(
            operations[all[k]],
            context,
        ) by {
            if k < before.len() {
                assert(all[k] == before[k]);
            }
        }
    }
}

/// The positions an operation's inputs carry are among its inputs.
proof fn lemma_carried_positions_fit(
    inputs: Seq<DeclaredInput>,
    signature: proc_macro2::Span,
    operation: Seq<char>,
    context: Seq<char>,
)
    ensures
        inputs_view(inputs, signature, operation, context) matches Ok(positions) ==> forall|m: int|
            0 <= m < positions.len() ==> 0 <= #[trigger] positions[m] < inputs.len(),
{
    lemma_carried_positions_are_inputs(input_shapes(inputs), 2);
}

/// An operation's carried types and where they were written come in equal numbers.
proof fn lemma_carried_lengths(operation: DeclaredOperation, positions: Seq<int>, reply: bool)
    ensures
        carried_texts(operation, positions, reply).len() == carried_spans(operation, positions, reply).len(),
{
    assert(reply_texts(operation.output).len() == reply_spans(operation.output).len());
}

/// The messages a refusal reads as in a compile error: one written here, spanned where it
/// points, or every message of the parser's error.
pub open spec fn refused_messages(refused: RefusedView) -> Seq<(proc_macro2::Span, proc_macro2::Span, Seq<char>)> {
    match refused {
        RefusedView::Written(span, message) => seq![(span, span, message)],
        RefusedView::Parsed(error) => error_messages_of(error),
    }
}

/// The messages of several refusals, one after the other, in order.
pub open spec fn refusals_messages(refusals: Seq<RefusedView>) -> Seq<(proc_macro2::Span, proc_macro2::Span, Seq<char>)>
    decreases refusals.len(),
{
    if refusals.len() == 0 {
        Seq::empty()
    } else {
        refusals_messages(refusals.drop_last()) + refused_messages(refusals.last())
    }
}

fn refused_error(refused: &Refused) -> (r: syn::Error)
    ensures
        error_messages_of(r) == refused_messages(refused_view(*refused)),
{
    match refused {
        Refused::Written(refusal) => error_at(refusal.span, refusal.message.as_str()),
        Refused::Parsed(error) => clone_error(error),
    }
}

/// Reads and validates a declared trait into the representation every emitter consumes: the trait
/// is read into a [`DeclaredService`], which [`service_of`] reads, and every refusal it earns is
/// combined into one error, in order.
#[verifier::rlimit(40)]
pub fn parse_service(declared: &syn::ItemTrait) -> (r: Result<ServiceDef, syn::Error>)
    ensures
        service_reading_of(*declared, r),
        r matches Ok(made) ==> all_distinct(operation_wire_names(made.operations@)),
        r matches Ok(made) ==> all_distinct(operation_ts_names(made.operations@)),
{
    let service = declared_service(declared);
    let read = service_of(&service);
    let ghost readings = choose|readings: Seq<OperationReading>| #[trigger] service_read_as(service, readings, read);
    match read {
        Ok(made) => {
            assert(service_read_as(service, readings, Ok::<ServiceDef, Vec<Refused>>(made)));
            assert(declared_service_of(service, *declared));
            assert(read_into(*declared, made));
            Ok(made)
        },
        Err(refusals) => {
            let ghost views = refused_views(refusals@);
            assert(views.len() == refusals@.len());
            let mut combined = refused_error(&refusals[0]);
            assert(refusals_messages(views.take(1)) =~= refused_messages(views[0])) by {
                assert(views.take(1).drop_last() =~= Seq::<RefusedView>::empty());
                assert(refusals_messages(Seq::<RefusedView>::empty()) =~= Seq::empty());
            }
            let mut k: usize = 1;
            while k < refusals.len()
                invariant
                    1 <= k <= refusals@.len(),
                    views == refused_views(refusals@),
                    error_messages_of(combined) == refusals_messages(views.take(k as int)),
                decreases refusals@.len() - k,
            {
                combine_errors(&mut combined, refused_error(&refusals[k]));
                assert(views.take(k + 1).drop_last() =~= views.take(k as int));
                assert(views.take(k + 1).last() == refused_view(refusals@[k as int]));
                k = k + 1;
            }
            assert(views.take(refusals@.len() as int) =~= views);
            assert(service_read_as(service, readings, Err::<ServiceDef, Vec<Refused>>(refusals)));
            assert(service_reading_of(*declared, Err::<ServiceDef, syn::Error>(combined)));
            Err(combined)
        },
    }
}

} // verus!
