//! What a registered Rust ident resolves to, for the references written after it.

use vstd::prelude::*;

verus! {

/// What a registered Rust ident, *written as a type path*, resolves to — the two facts a map key
/// asks of it: whether it carries an inherent `enum_members()`, and whether serde writes it as a
/// bare string, which is what a JSON object key is.
#[derive(Clone, Copy, Debug, PartialEq, Eq, Structural)]
pub enum AliasKind {
    /// A plain unit enum, or an alias chain ending in one.
    EnumMembers,
    /// Provably has neither: a struct, a brand over a non-string inner, a non-plain enum, or an
    /// alias whose target is a primitive, a collection, or one of those.
    NoEnumMembers,
    /// No `enum_members()`, but serde writes it as a bare string.
    StringWire,
    /// Undecidable at this expansion — an alias naming a type that was not registered before it.
    Unknown,
}

pub struct AliasInfo {
    pub export_name: String,
    pub kind: AliasKind,
    pub module_name: String,
}

/// An [`AliasInfo`] as the values it holds.
pub struct AliasInfoView {
    pub export_name: Seq<char>,
    pub kind: AliasKind,
    pub module_name: Seq<char>,
}

impl View for AliasInfo {
    type V = AliasInfoView;

    open spec fn view(&self) -> AliasInfoView {
        AliasInfoView {
            export_name: self.export_name@,
            kind: self.kind,
            module_name: self.module_name@,
        }
    }
}

impl AliasInfo {
    /// A copy holding the same values.
    pub fn copied(&self) -> (r: AliasInfo)
        ensures
            r@ == self@,
    {
        AliasInfo {
            export_name: self.export_name.clone(),
            kind: self.kind,
            module_name: self.module_name.clone(),
        }
    }
}

/// The registry of aliases expanded so far, keyed by the Rust ident each was declared under.
pub struct AliasRegistry {
    entries: Vec<(String, AliasInfo)>,
}

impl AliasRegistry {
    /// No ident is registered twice: a second registration replaces the first.
    pub closed spec fn wf(&self) -> bool {
        forall|i: int, j: int|
            0 <= i < j < self.entries@.len() ==> (#[trigger] self.entries@[i]).0@ != (
            #[trigger] self.entries@[j]).0@
    }

    pub closed spec fn holds(&self, ident: Seq<char>) -> bool {
        exists|i: int| 0 <= i < self.entries@.len() && (#[trigger] self.entries@[i]).0@ == ident
    }

    pub closed spec fn entry_of(&self, ident: Seq<char>) -> AliasInfoView {
        self.entries@[choose|i: int|
            0 <= i < self.entries@.len() && (#[trigger] self.entries@[i]).0@ == ident].1@
    }
}

impl View for AliasRegistry {
    type V = Map<Seq<char>, AliasInfoView>;

    closed spec fn view(&self) -> Map<Seq<char>, AliasInfoView> {
        Map::new(|k: Seq<char>| self.holds(k), |k: Seq<char>| self.entry_of(k))
    }
}

impl AliasRegistry {
    pub fn new() -> (r: AliasRegistry)
        ensures
            r.wf(),
            r@ == Map::<Seq<char>, AliasInfoView>::empty(),
    {
        let r = AliasRegistry { entries: Vec::new() };
        assert(r@ =~= Map::<Seq<char>, AliasInfoView>::empty());
        r
    }

    /// Where `ident` is registered, the index of its entry.
    fn position(&self, ident: &str) -> (r: Option<usize>)
        requires
            self.wf(),
        ensures
            match r {
                Some(i) => i < self.entries@.len() && self.entries@[i as int].0@ == ident@,
                None => !self.holds(ident@),
            },
    {
        let mut i: usize = 0;
        while i < self.entries.len()
            invariant
                0 <= i <= self.entries@.len(),
                forall|j: int| 0 <= j < i ==> (#[trigger] self.entries@[j]).0@ != ident@,
            decreases self.entries@.len() - i,
        {
            if crate::text::str_eq(self.entries[i].0.as_str(), ident) {
                return Some(i);
            }
            i = i + 1;
        }
        None
    }
}

/// Records what `rust_ident` resolves to, replacing whatever an earlier registration said.
pub fn register_alias_info(
    registry: &mut AliasRegistry,
    rust_ident: &str,
    export_name: &str,
    module_name: &str,
    kind: AliasKind,
)
    requires
        old(registry).wf(),
    ensures
        final(registry).wf(),
        final(registry)@ == old(registry)@.insert(
            rust_ident@,
            AliasInfoView { export_name: export_name@, kind, module_name: module_name@ },
        ),
{
    let info = AliasInfo {
        export_name: export_name.to_owned(),
        kind,
        module_name: module_name.to_owned(),
    };
    let ghost before = *registry;
    let ghost expected = old(registry)@.insert(rust_ident@, info@);
    match registry.position(rust_ident) {
        Some(i) => {
            let key = registry.entries[i].0.clone();
            registry.entries.set(i, (key, info));
            proof {
                assert forall|a: int, b: int|
                    0 <= a < b < registry.entries@.len() implies (#[trigger] registry.entries@[a]).0@
                    != (#[trigger] registry.entries@[b]).0@ by {
                    assert(before.entries@[a].0@ != before.entries@[b].0@);
                }
                assert forall|k: Seq<char>| #[trigger] registry@.contains_key(k) <==> expected.contains_key(k) by {
                    if k == rust_ident@ {
                        assert(registry.entries@[i as int].0@ == k);
                    } else if before.holds(k) {
                        let w = choose|w: int| 0 <= w < before.entries@.len() && (#[trigger] before.entries@[w]).0@ == k;
                        assert(registry.entries@[w].0@ == k);
                    } else if registry.holds(k) {
                        let w = choose|w: int| 0 <= w < registry.entries@.len() && (#[trigger] registry.entries@[w]).0@ == k;
                        assert(before.entries@[w].0@ == k);
                    }
                }
                assert forall|k: Seq<char>| #[trigger] registry@.contains_key(k) implies registry@[k] == expected[k] by {
                    let w = choose|w: int| 0 <= w < registry.entries@.len() && (#[trigger] registry.entries@[w]).0@ == k;
                    if k == rust_ident@ {
                        assert(w == i);
                    } else {
                        assert(before.entries@[w].0@ == k);
                        let v = choose|v: int| 0 <= v < before.entries@.len() && (#[trigger] before.entries@[v]).0@ == k;
                        assert(v == w);
                    }
                }
                assert(registry@ =~= expected);
            }
        },
        None => {
            let key = rust_ident.to_owned();
            registry.entries.push((key, info));
            proof {
                let n = before.entries@.len() as int;
                assert forall|a: int, b: int|
                    0 <= a < b < registry.entries@.len() implies (#[trigger] registry.entries@[a]).0@
                    != (#[trigger] registry.entries@[b]).0@ by {
                    if b < n {
                        assert(before.entries@[a].0@ != before.entries@[b].0@);
                    } else {
                        assert(registry.entries@[a] == before.entries@[a]);
                    }
                }
                assert forall|k: Seq<char>| #[trigger] registry@.contains_key(k) <==> expected.contains_key(k) by {
                    if k == rust_ident@ {
                        assert(registry.entries@[n].0@ == k);
                    } else if before.holds(k) {
                        let w = choose|w: int| 0 <= w < before.entries@.len() && (#[trigger] before.entries@[w]).0@ == k;
                        assert(registry.entries@[w].0@ == k);
                    } else if registry.holds(k) {
                        let w = choose|w: int| 0 <= w < registry.entries@.len() && (#[trigger] registry.entries@[w]).0@ == k;
                        assert(before.entries@[w].0@ == k);
                    }
                }
                assert forall|k: Seq<char>| #[trigger] registry@.contains_key(k) implies registry@[k] == expected[k] by {
                    let w = choose|w: int| 0 <= w < registry.entries@.len() && (#[trigger] registry.entries@[w]).0@ == k;
                    if k == rust_ident@ {
                        assert(w == n);
                    } else {
                        assert(before.entries@[w].0@ == k);
                        let v = choose|v: int| 0 <= v < before.entries@.len() && (#[trigger] before.entries@[v]).0@ == k;
                        assert(v == w);
                    }
                }
                assert(registry@ =~= expected);
            }
        },
    }
}

/// What `rust_ident` was last registered as, if it was registered at all.
pub fn lookup_alias_info(registry: &AliasRegistry, rust_ident: &str) -> (r: Option<AliasInfo>)
    requires
        registry.wf(),
    ensures
        match r {
            Some(info) => registry@.contains_key(rust_ident@) && info@ == registry@[rust_ident@],
            None => !registry@.contains_key(rust_ident@),
        },
{
    match registry.position(rust_ident) {
        Some(i) => {
            proof {
                let w = choose|w: int| 0 <= w < registry.entries@.len() && (#[trigger] registry.entries@[w]).0@ == rust_ident@;
                assert(w == i);
            }
            Some(registry.entries[i].1.copied())
        },
        None => None,
    }
}


/// What a registration records is what the next lookup of that ident reads back, and every other
/// ident reads what it read before.
pub proof fn lemma_lookup_reads_back_the_registration(
    before: AliasRegistry,
    after: AliasRegistry,
    rust_ident: Seq<char>,
    info: AliasInfoView,
    other: Seq<char>,
)
    requires
        after@ == before@.insert(rust_ident, info),
    ensures
        after@.contains_key(rust_ident),
        after@[rust_ident] == info,
        other != rust_ident ==> (after@.contains_key(other) == before@.contains_key(other)),
        other != rust_ident && before@.contains_key(other) ==> after@[other] == before@[other],
{
}

} // verus!
