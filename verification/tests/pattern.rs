use syn::LitStr;
use tixschema::utils::{
    constraining_pattern, portable_pattern, trivial_pattern, TrivialPattern, JS_ENGINE_BASELINE,
};

const PORTABLE_PATTERNS: [&str; 9] = [
    "^[a-z]+$",
    "^[0-9a-fA-F]{24}$",
    r"^\/[a-z]+$",
    "^/[a-z]+$",
    r"^a\n[a-z]+$",
    "(?<word>[a-z]+)",
    "[(?P<]",
    "[--/]",
    r"[a\]b]",
];

const EQUALISED_PATTERNS: [(&str, &str); 10] = [
    (r"^\d$", "^[0-9]$"),
    (r"^\d+$", "^[0-9]+$"),
    (r"^\w$", "^[0-9A-Za-z_]$"),
    (r"^\w+$", "^[0-9A-Za-z_]+$"),
    (r"^\s$", r"^[\t\n\v\f\r ]$"),
    (r"^\s+$", r"^[\t\n\v\f\r ]+$"),
    (r"^[a\d]$", "^[a0-9]$"),
    (r"^[a\s]$", r"^[a\t\n\v\f\r ]$"),
    (r"^[\w-]$", "^[0-9A-Za-z_-]$"),
    (r"^\d{3}\.\d{3}-\d{2}$", r"^[0-9]{3}\.[0-9]{3}-[0-9]{2}$"),
];

const TRIVIAL_PATTERNS: [&str; 10] = [
    "^/",
    "^abc",
    r"^foo\.bar",
    "^\u{e9}",
    "abc$",
    "/$",
    "^abc$",
    "^/$",
    "^$",
    "abc",
];

const NON_TRIVIAL_PATTERNS: [&str; 16] = [
    "^[a-z]+$",
    "^/[a-z]+$",
    "^[0-9a-fA-F]{24}$",
    "^[a-z0-9_]+$",
    r"^\s*$",
    "(?<word>[a-z]+)",
    r"^[0-9]{3}\.[0-9]{3}-[0-9]{2}$",
    "^[a-z]+",
    "^a[0-9]",
    "[0-9]a$",
    "^a[0-9]b$",
    "",
    "^",
    "$",
    r"\b",
    "a|b",
];

const UNCONSTRAINING_PATTERNS: [&str; 12] = [
    "", "^", "$", "|", "()", "(^)", "a*", "a?", "a|", "^a*", "a*$", "(?:ab)*",
];

const CONSTRAINING_PATTERNS: [&str; 8] = [
    "^$", "^a*$", r"\b", r"\B", "a+", "(?:ab)+", "^[a-z]+$", r"^\s*$",
];

const NEGATED_CLASS_PATTERNS: [&str; 6] = [
    "^[^a]$",
    "^[^0-9]$",
    r"^[^\n]$",
    "^[^a-z]$",
    r"^[^\x00-\x7F]$",
    r"^[^\d]$",
];

fn portable(pattern: &str) -> Result<String, String> {
    let lit = LitStr::new(pattern, proc_macro2::Span::call_site());
    portable_pattern(&lit).map_err(|rejection| rejection.to_string())
}

fn constraining(pattern: &str) -> Result<String, String> {
    let lit = LitStr::new(pattern, proc_macro2::Span::call_site());
    portable_pattern(&lit)
        .and_then(|portable| constraining_pattern(&lit, portable))
        .map_err(|rejection| rejection.to_string())
}

#[test]
fn test_portable_pattern_translates_the_rust_named_group_spelling() {
    assert_eq!(portable("(?P<w>[a-z]+)").unwrap(), "(?<w>[a-z]+)");
    assert_eq!(
        portable("^(?P<w>[a-z]+)-(?P<n>[0-9]+)$").unwrap(),
        "^(?<w>[a-z]+)-(?<n>[0-9]+)$"
    );
    assert_eq!(
        portable("(?P<outer>(?P<inner>a))").unwrap(),
        "(?<outer>(?<inner>a))"
    );
    assert_eq!(portable("\u{e9}(?P<w>a)").unwrap(), "\u{e9}(?<w>a)");
}

#[test]
fn test_portable_pattern_leaves_a_shared_pattern_byte_identical() {
    for pattern in PORTABLE_PATTERNS {
        assert_eq!(portable(pattern).as_deref(), Ok(pattern), "for {pattern}");
    }
}

#[test]
fn test_portable_pattern_admits_the_boundary_both_grammars_agree_on() {
    for pattern in [r"\ba", r"\Ba"] {
        assert_eq!(portable(pattern).as_deref(), Ok(pattern), "for {pattern}");
    }
}

#[test]
fn test_portable_pattern_equalises_the_classes_the_engines_cover_differently() {
    for (written, equalised) in EQUALISED_PATTERNS {
        assert_eq!(portable(written).as_deref(), Ok(equalised), "for {written}");
    }
}

#[test]
fn test_portable_pattern_refuses_what_no_spelling_equalises() {
    for pattern in ["^.$", r"^\D$", r"^\W$", r"^\S$", r"[a\D]", r"[\s\S]"] {
        let rejection = portable(pattern).unwrap_err();
        assert!(
            rejection.contains("cover different characters"),
            "{pattern} is not refused for a value-set divergence: {rejection}"
        );
    }
}

#[test]
fn test_portable_pattern_refuses_a_negated_class_whatever_its_members() {
    for pattern in NEGATED_CLASS_PATTERNS {
        let rejection = portable(pattern).unwrap_err();
        for needle in ["negated character class", "cover different characters"] {
            assert!(
                rejection.contains(needle),
                "{needle} missing for {pattern}: {rejection}"
            );
        }
    }
}

#[test]
fn test_portable_pattern_refuses_a_modifier_group_the_baseline_predates() {
    for pattern in ["(?i:abc)", "(?m:^a)", "(?s:a)", "(?-i:abc)", "(?i-s:abc)"] {
        let rejection = portable(pattern).unwrap_err();
        for needle in [
            JS_ENGINE_BASELINE,
            "modifier",
            "regular expression modifiers",
        ] {
            assert!(
                rejection.contains(needle),
                "{needle} missing for {pattern}: {rejection}"
            );
        }
    }
}

#[test]
fn test_the_engine_baseline_still_admits_what_it_dates_from() {
    assert_eq!(JS_ENGINE_BASELINE, "ES2018");
    assert_eq!(portable("(?P<w>[a-z]+)").unwrap(), "(?<w>[a-z]+)");
    assert_eq!(portable("(?<w>[a-z]+)").unwrap(), "(?<w>[a-z]+)");
}

#[test]
fn test_portable_pattern_quotes_the_regex_crate_on_a_pattern_it_refuses() {
    let rejection = portable(r"^ab\").unwrap_err();
    for needle in [
        "pattern",
        "regex parse error",
        "incomplete escape sequence",
        "panic",
    ] {
        assert!(rejection.contains(needle), "{needle} missing: {rejection}");
    }
}

#[test]
fn test_trivial_pattern_names_the_call_the_lint_names() {
    let expected = [
        ("^/", TrivialPattern::StartsWith("/".to_owned())),
        ("^abc", TrivialPattern::StartsWith("abc".to_owned())),
        (
            r"^foo\.bar",
            TrivialPattern::StartsWith("foo.bar".to_owned()),
        ),
        ("^\u{e9}", TrivialPattern::StartsWith("\u{e9}".to_owned())),
        ("abc$", TrivialPattern::EndsWith("abc".to_owned())),
        ("/$", TrivialPattern::EndsWith("/".to_owned())),
        ("^abc$", TrivialPattern::Equals("abc".to_owned())),
        ("^/$", TrivialPattern::Equals("/".to_owned())),
        ("^$", TrivialPattern::IsEmpty),
        ("abc", TrivialPattern::Contains("abc".to_owned())),
    ];
    assert_eq!(
        expected.len(),
        TRIVIAL_PATTERNS.len(),
        "every classified pattern needs the call it is classified as written down"
    );
    for (pattern, call) in expected {
        assert_eq!(
            trivial_pattern(pattern),
            Some(call),
            "{pattern} was not classified as the call the lint names for it"
        );
    }
}

#[test]
fn test_trivial_pattern_leaves_every_other_pattern_its_regex() {
    for pattern in NON_TRIVIAL_PATTERNS {
        assert!(
            trivial_pattern(pattern).is_none(),
            "{pattern} was classified as trivial and is not"
        );
    }
}

#[test]
fn test_a_pattern_admitting_every_value_is_refused() {
    for pattern in UNCONSTRAINING_PATTERNS {
        let rejection = constraining(pattern).unwrap_err();
        for needle in ["pattern", "admits every value", "constrains nothing"] {
            assert!(
                rejection.contains(needle),
                "{needle} missing for {pattern}: {rejection}"
            );
        }
    }
}

#[test]
fn test_a_pattern_turning_some_value_away_clears_the_guard() {
    for pattern in CONSTRAINING_PATTERNS {
        assert!(
            constraining(pattern).is_ok(),
            "{pattern} constrains something and was refused: {:?}",
            constraining(pattern)
        );
    }
}

#[test]
fn test_the_shapes_already_classified_still_clear_the_guard() {
    for pattern in TRIVIAL_PATTERNS.into_iter().chain(PORTABLE_PATTERNS) {
        assert_eq!(
            constraining(pattern).as_deref(),
            Ok(pattern),
            "{pattern} was refused, or came back in a different spelling"
        );
    }
}

const UNPORTABLE_PATTERNS: [(&str, &str); 34] = [
    ("(?i)abc", "inline flag directive"),
    ("abc(?i)def", "inline flag directive"),
    ("(?i:abc)", "case-insensitive flag on a `(?i:...)` group"),
    ("(?m:^a)", "multi-line flag on a `(?m:...)` group"),
    ("(?s:a)", "dot-matches-newline flag on a `(?s:...)` group"),
    ("(?-i:abc)", "case-insensitive flag on a `(?i:...)` group"),
    ("(?i-s:abc)", "case-insensitive flag on a `(?i:...)` group"),
    ("^.$", "the `.` any-character class"),
    (r"^\D$", r"the `\D` negated digit class"),
    (r"^\W$", r"the `\W` negated word class"),
    (r"^\S$", r"the `\S` negated whitespace class"),
    (r"[a\D]", r"the `\D` negated digit class"),
    ("(?x:a b)", "ignore-whitespace flag"),
    ("(?U:a+)", "swap-greed flag"),
    ("(?u:a)", "Unicode flag"),
    ("(?R:a)", "CRLF flag"),
    (r"\Aabc", r"`\A` anchor"),
    (r"abc\z", r"`\z` anchor"),
    (r"\b{start}a", "word boundary"),
    (r"\<a", "word boundary"),
    (r"\p{L}", "Unicode class"),
    (r"\pL", "Unicode class"),
    (r"[\p{L}]", "Unicode class"),
    ("[[:alpha:]]", "POSIX class"),
    (r"[\w&&\d]", "`&&` class intersection"),
    ("[+--]", "`--` class difference"),
    (r"[\d~~\w]", "`~~` class symmetric difference"),
    ("[a[b]]", "class nested inside another class"),
    (r"\x{41}", "braced code point escape"),
    ("[]]", "unescaped `]` opening a character class"),
    ("[^]]", "negated character class"),
    ("[]-a]", "unescaped `]` opening a character class"),
    ("[^a]", "negated character class"),
    (r"[^\w]", "negated character class"),
];

const REWRITE_HAYSTACKS: [&str; 12] = [
    "", "a", "abc", "]", "]]", "a]", "-", "/", "a-b", "word-42", "AB", "[",
];

#[test]
fn test_portable_pattern_names_the_construct_javascript_cannot_carry() {
    for (pattern, construct) in UNPORTABLE_PATTERNS {
        assert!(
            regex::Regex::new(pattern).is_ok(),
            "{pattern} is not a pattern the `regex` crate accepts, so it probes nothing"
        );
        let rejection = portable(pattern).unwrap_err();
        for needle in [construct, "JavaScript regex literal", "Zod", "JSON Schema"] {
            assert!(
                rejection.contains(needle),
                "{needle} missing for {pattern}: {rejection}"
            );
        }
    }
}

#[test]
fn test_portable_pattern_does_not_escape_a_class_opening_bracket() {
    let escaped = regex::Regex::new(r"[\]-a]").unwrap();
    let written = regex::Regex::new("[]-a]").unwrap();
    assert!(escaped.is_match("_"));
    assert!(!written.is_match("_"));
    portable("[]-a]").unwrap_err();
}

#[test]
fn test_portable_pattern_rewrite_keeps_what_the_pattern_matched() {
    for pattern in [
        "(?P<w>[a-z]+)",
        "^(?P<w>[a-z]+)-(?P<n>[0-9]+)$",
        "(?P<outer>(?P<inner>a))",
        r"(?P<w>[a-z]+)|(?P<n>\d+)",
    ] {
        let rewritten = portable(pattern).unwrap();
        let before = regex::Regex::new(pattern).unwrap();
        let after = regex::Regex::new(&rewritten).unwrap();
        for haystack in REWRITE_HAYSTACKS {
            assert_eq!(
                before.is_match(haystack),
                after.is_match(haystack),
                "{pattern} and {rewritten} part ways over {haystack:?}"
            );
        }
    }
}

#[test]
fn a_pattern_the_guard_emits_is_a_fixed_point_of_it() {
    for (written, _) in EQUALISED_PATTERNS {
        let once = portable(written).unwrap();
        assert_eq!(portable(&once).as_deref(), Ok(once.as_str()), "for {written}");
    }
    for pattern in ["(?P<w>[a-z]+)", "^[0-9a-fA-F]{24}$"] {
        let once = portable(pattern).unwrap();
        assert_eq!(portable(&once).as_deref(), Ok(once.as_str()), "for {pattern}");
    }
}

#[test]
fn a_pattern_spelled_the_way_only_one_grammar_reads_it_is_refused_in_order() {
    let rejection = portable(r"(?i:a)\z").unwrap_err();
    assert!(rejection.contains("case-insensitive flag"), "{rejection}");
    assert!(!rejection.contains("`\\z` anchor"), "{rejection}");
}

const CROSS_ENGINE_HAYSTACKS: [&str; 20] = [
    "",
    "5",
    "a",
    "_",
    "-",
    " ",
    "\t",
    "\n",
    "\u{b}",
    "\r",
    "\u{661}",
    "\u{e9}",
    "\u{3b1}",
    "\u{85}",
    "\u{a0}",
    "\u{feff}",
    "\u{1f600}",
    "\u{1d7d9}",
    "12",
    "\u{661}\u{662}",
];

const JAVASCRIPT_VERDICTS: [(&str, [bool; 20]); 22] = [
    (
        r"^\d$",
        [
            false, true, false, false, false, false, false, false, false, false, false, false,
            false, false, false, false, false, false, false, false,
        ],
    ),
    (
        r"^\d+$",
        [
            false, true, false, false, false, false, false, false, false, false, false, false,
            false, false, false, false, false, false, true, false,
        ],
    ),
    (
        r"^\w$",
        [
            false, true, true, true, false, false, false, false, false, false, false, false, false,
            false, false, false, false, false, false, false,
        ],
    ),
    (
        r"^\w+$",
        [
            false, true, true, true, false, false, false, false, false, false, false, false, false,
            false, false, false, false, false, true, false,
        ],
    ),
    (
        r"^\s$",
        [
            false, false, false, false, false, true, true, true, true, true, false, false, false,
            false, true, true, false, false, false, false,
        ],
    ),
    (
        r"^\s+$",
        [
            false, false, false, false, false, true, true, true, true, true, false, false, false,
            false, true, true, false, false, false, false,
        ],
    ),
    (
        r"^[a\d]$",
        [
            false, true, true, false, false, false, false, false, false, false, false, false,
            false, false, false, false, false, false, false, false,
        ],
    ),
    (
        r"^[a\s]$",
        [
            false, false, true, false, false, true, true, true, true, true, false, false, false,
            false, true, true, false, false, false, false,
        ],
    ),
    (
        r"^[\w-]$",
        [
            false, true, true, true, true, false, false, false, false, false, false, false, false,
            false, false, false, false, false, false, false,
        ],
    ),
    (
        r"^\d{3}\.\d{3}-\d{2}$",
        [
            false, false, false, false, false, false, false, false, false, false, false, false,
            false, false, false, false, false, false, false, false,
        ],
    ),
    (
        "^[0-9]$",
        [
            false, true, false, false, false, false, false, false, false, false, false, false,
            false, false, false, false, false, false, false, false,
        ],
    ),
    (
        "^[0-9]+$",
        [
            false, true, false, false, false, false, false, false, false, false, false, false,
            false, false, false, false, false, false, true, false,
        ],
    ),
    (
        "^[0-9A-Za-z_]$",
        [
            false, true, true, true, false, false, false, false, false, false, false, false, false,
            false, false, false, false, false, false, false,
        ],
    ),
    (
        "^[0-9A-Za-z_]+$",
        [
            false, true, true, true, false, false, false, false, false, false, false, false, false,
            false, false, false, false, false, true, false,
        ],
    ),
    (
        r"^[\t\n\v\f\r ]$",
        [
            false, false, false, false, false, true, true, true, true, true, false, false, false,
            false, false, false, false, false, false, false,
        ],
    ),
    (
        r"^[\t\n\v\f\r ]+$",
        [
            false, false, false, false, false, true, true, true, true, true, false, false, false,
            false, false, false, false, false, false, false,
        ],
    ),
    (
        "^[a0-9]$",
        [
            false, true, true, false, false, false, false, false, false, false, false, false,
            false, false, false, false, false, false, false, false,
        ],
    ),
    (
        r"^[a\t\n\v\f\r ]$",
        [
            false, false, true, false, false, true, true, true, true, true, false, false, false,
            false, false, false, false, false, false, false,
        ],
    ),
    (
        "^[0-9A-Za-z_-]$",
        [
            false, true, true, true, true, false, false, false, false, false, false, false, false,
            false, false, false, false, false, false, false,
        ],
    ),
    (
        r"^[0-9]{3}\.[0-9]{3}-[0-9]{2}$",
        [
            false, false, false, false, false, false, false, false, false, false, false, false,
            false, false, false, false, false, false, false, false,
        ],
    ),
    (
        "^[0-9a-fA-F]{24}$",
        [
            false, false, false, false, false, false, false, false, false, false, false, false,
            false, false, false, false, false, false, false, false,
        ],
    ),
    (
        "^[a-z]+$",
        [
            false, false, true, false, false, false, false, false, false, false, false, false,
            false, false, false, false, false, false, false, false,
        ],
    ),
];

fn classification_haystacks() -> Vec<&'static str> {
    CROSS_ENGINE_HAYSTACKS
        .into_iter()
        .chain(REWRITE_HAYSTACKS)
        .chain(["ab", "abab", "xay", "word boundary", "  "])
        .collect()
}

fn trivial_haystacks() -> Vec<String> {
    CROSS_ENGINE_HAYSTACKS
        .iter()
        .chain(REWRITE_HAYSTACKS.iter())
        .map(|haystack| (*haystack).to_owned())
        .chain(
            [
                "/",
                "/var",
                "var/",
                "/var/log",
                "abc",
                "xabc",
                "abcx",
                "xabcx",
                "foo.bar",
                "fooxbar",
                "\u{e9}t\u{e9}",
                "t\u{e9}",
            ]
            .into_iter()
            .map(str::to_owned),
        )
        .collect()
}

fn accepts(trivial: &TrivialPattern, haystack: &str) -> bool {
    match trivial {
        TrivialPattern::Contains(needle) => haystack.contains(needle),
        TrivialPattern::EndsWith(needle) => haystack.ends_with(needle),
        TrivialPattern::Equals(needle) => haystack == needle,
        TrivialPattern::IsEmpty => haystack.is_empty(),
        TrivialPattern::StartsWith(needle) => haystack.starts_with(needle),
    }
}

#[test]
fn test_the_emitted_pattern_picks_out_the_same_haystacks_in_both_engines() {
    for (written, _) in EQUALISED_PATTERNS
        .into_iter()
        .chain([("^[0-9a-fA-F]{24}$", ""), ("^[a-z]+$", "")])
    {
        let emitted = portable(written).unwrap();
        let recorded = JAVASCRIPT_VERDICTS
            .into_iter()
            .find_map(|(source, verdicts)| (source == emitted).then_some(verdicts));
        assert!(
            recorded.is_some(),
            "{written} emits {emitted}, which no JavaScript verdict was recorded for"
        );
        let javascript = recorded.unwrap();
        let rust = regex::Regex::new(&emitted).unwrap();
        for (haystack, expected) in CROSS_ENGINE_HAYSTACKS.into_iter().zip(javascript) {
            assert_eq!(
                rust.is_match(haystack),
                expected,
                "{written} emits {emitted}, which parts ways with JavaScript over {haystack:?}"
            );
        }
    }
}

#[test]
fn test_no_spelling_of_a_negated_class_agrees_across_the_engines() {
    for candidate in NEGATED_CLASS_PATTERNS.into_iter().chain(["^[^\u{1f601}]$"]) {
        let rust = regex::Regex::new(candidate).unwrap();
        assert!(
            rust.is_match("\u{1f600}"),
            "{candidate} was expected to match an astral character in the `regex` crate"
        );
    }
    let astral_bounded = regex::Regex::new("^[^\u{10000}-\u{10ffff}]$").unwrap();
    assert!(
        !astral_bounded.is_match("\u{1f600}"),
        "the astral-bounded class was expected to be the one whose `regex` reading excludes them"
    );
    assert!(
        astral_bounded.is_match("\u{661}"),
        "the astral-bounded class was expected to keep every character below the astral range"
    );
}

#[test]
fn test_no_spelling_of_the_dot_agrees_across_the_engines() {
    for candidate in ["^.$", r"^[^\n]$", r"^[\s\S]$", r"^[^\n\r\u{2028}\u{2029}]$"] {
        let rust = regex::Regex::new(candidate).unwrap();
        // A flagless literal tests one code unit at a time, so a lone astral character can never
        // fill a one-character pattern there.
        assert!(
            rust.is_match("\u{1f600}"),
            "{candidate} was expected to match an astral character in the `regex` crate"
        );
    }
}

#[test]
fn test_trivial_pattern_accepts_exactly_what_its_regex_accepts() {
    let haystacks = trivial_haystacks();
    for pattern in TRIVIAL_PATTERNS {
        let trivial = trivial_pattern(pattern).unwrap();
        let regex = regex::Regex::new(pattern).unwrap();
        for haystack in &haystacks {
            assert_eq!(
                accepts(&trivial, haystack),
                regex.is_match(haystack),
                "{pattern} and the call it was classified as part ways over {haystack:?}"
            );
        }
    }
}

#[test]
fn test_the_unconstraining_verdict_is_the_regex_crate_s_own() {
    let haystacks = classification_haystacks();
    for pattern in UNCONSTRAINING_PATTERNS {
        let regex = regex::Regex::new(pattern).unwrap();
        for haystack in &haystacks {
            assert!(
                regex.is_match(haystack),
                "{pattern} is called unconstraining and turns {haystack:?} away"
            );
        }
    }
    for pattern in CONSTRAINING_PATTERNS {
        let regex = regex::Regex::new(pattern).unwrap();
        assert!(
            haystacks.iter().any(|haystack| !regex.is_match(haystack)),
            "{pattern} is left on the regex path and turns nothing in the corpus away"
        );
    }
}
