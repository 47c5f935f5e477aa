//! The provider registry: the bundled or network-refreshed catalog of
//! predefined providers, and how a newer copy replaces the current one.

use vstd::prelude::*;

use crate::version::{
    dot_pieces, version_order, version_order_antisymmetric, version_order_reflexive,
    version_order_transitive,
};
use crate::version_cmp::cmp_version;

verus! {

/// A single model entry in the provider registry. Prices are carried as the
/// bit patterns of their `f64` values (`f64::to_bits`).
pub struct RegistryModel {
    pub name: String,
    pub label: Option<String>,
    pub context_window: Option<i64>,
    pub max_output_tokens: Option<i64>,
    pub input: Option<u64>,
    pub output: Option<u64>,
    pub description: Option<String>,
}

/// A single provider definition in the registry.
pub struct RegistryProvider {
    pub id: String,
    pub name: String,
    /// `"openai"` for ChatGPT-login providers, `"apiKey"` for providers that
    /// only need an API key, `"custom"` otherwise.
    pub provider_type: String,
    pub recommended: bool,
    pub description: Option<String>,
    pub base_url: Option<String>,
    pub env_key: Option<String>,
    pub icon: Option<String>,
    pub models: Vec<RegistryModel>,
}

/// The provider registry document, with a version for upgrade detection.
pub struct ProviderRegistry {
    pub version: String,
    pub providers: Vec<RegistryProvider>,
}

/// The major part of a version: the text before its first `.`.
pub open spec fn major_part(v: Seq<char>) -> Seq<char> {
    dot_pieces(v)[0]
}

proof fn lemma_first_piece_stable(s: Seq<char>, c: char)
    ensures
        dot_pieces(s).len() >= 1,
        dot_pieces(s.push(c)).len() >= 1,
        dot_pieces(s.push(c)).len() >= dot_pieces(s).len(),
        dot_pieces(s).len() >= 2 ==> dot_pieces(s.push(c))[0] == dot_pieces(s)[0],
        dot_pieces(s).len() == 1 && c == '.' ==> dot_pieces(s.push(c))[0] == dot_pieces(s)[0]
            && dot_pieces(s.push(c)).len() == 2,
        dot_pieces(s).len() == 1 && c != '.' ==> dot_pieces(s.push(c)).len() == 1
            && dot_pieces(s.push(c))[0] == dot_pieces(s)[0].push(c),
    decreases s.len(),
{
    assert(s.push(c).drop_last() =~= s);
    assert(s.push(c).last() == c);
    if s.len() > 0 {
        lemma_first_piece_stable(s.drop_last(), s.last());
    }
    let p = dot_pieces(s);
    if c == '.' {
        assert(dot_pieces(s.push(c)) == p.push(Seq::<char>::empty()));
    } else {
        assert(dot_pieces(s.push(c)) == p.update(p.len() - 1, p.last().push(c)));
    }
}

/// The characters of the major part of a version.
fn major_of(v: &str) -> (m: Vec<char>)
    ensures
        m@ == major_part(v@),
{
    let mut m: Vec<char> = Vec::new();
    let mut done = false;
    for c in it: v.chars()
        invariant
            it.seq() == v@,
            dot_pieces(v@.subrange(0, it.index())).len() >= 1,
            !done ==> dot_pieces(v@.subrange(0, it.index())).len() == 1,
            done ==> dot_pieces(v@.subrange(0, it.index())).len() >= 2,
            m@ == dot_pieces(v@.subrange(0, it.index()))[0],
    {
        let ghost prefix = v@.subrange(0, it.index());
        proof {
            lemma_first_piece_stable(prefix, c);
            assert(v@.subrange(0, it.index() + 1) =~= prefix.push(c));
        }
        if !done {
            if c == '.' {
                done = true;
            } else {
                m.push(c);
            }
        }
    }
    proof {
        assert(v@.subrange(0, v@.len() as int) =~= v@);
    }
    m
}

/// Whether two character vectors are equal.
fn same_chars(a: &Vec<char>, b: &Vec<char>) -> (r: bool)
    ensures
        r == (a@ == b@),
{
    if a.len() != b.len() {
        return false;
    }
    let mut i: usize = 0;
    while i < a.len()
        invariant
            a@.len() == b@.len(),
            i <= a@.len(),
            forall|j: int| 0 <= j < i ==> a@[j] == b@[j],
        decreases a@.len() - i,
    {
        if a[i] != b[i] {
            assert(a@[i as int] != b@[i as int]);
            return false;
        }
        i = i + 1;
    }
    assert(a@ =~= b@);
    true
}

/// Whether a freshly fetched registry should replace the current one: same
/// major version (compared as text) and a strictly higher version.
pub open spec fn is_registry_update_spec(fetched: Seq<char>, current: Seq<char>) -> bool {
    major_part(fetched) == major_part(current) && version_order(fetched, current) == 1
}

/// Returns `true` when `fetched` has the same major version as `current` but
/// a higher version, meaning it should replace the local copy.
pub fn is_registry_update(fetched: &ProviderRegistry, current: &ProviderRegistry) -> (r: bool)
    ensures
        r == is_registry_update_spec(fetched.version@, current.version@),
{
    let a = major_of(fetched.version.as_str());
    let b = major_of(current.version.as_str());
    if !same_chars(&a, &b) {
        return false;
    }
    match cmp_version(fetched.version.as_str(), current.version.as_str()) {
        std::cmp::Ordering::Greater => true,
        _ => false,
    }
}

/// The registry to use given the persisted copy (if it parsed) and the
/// bundled default: the persisted one when its version is not lower.
pub fn select_registry(persisted: Option<ProviderRegistry>, bundled: ProviderRegistry) -> (r:
    ProviderRegistry)
    ensures
        r == (match persisted {
            Some(p) => if version_order(p.version@, bundled.version@) >= 0 {
                p
            } else {
                bundled
            },
            None => bundled,
        }),
{
    match persisted {
        Some(remote) => {
            let use_remote = match cmp_version(remote.version.as_str(), bundled.version.as_str()) {
                std::cmp::Ordering::Less => false,
                _ => true,
            };
            if use_remote {
                remote
            } else {
                bundled
            }
        },
        None => bundled,
    }
}

/// The registry to serve after a network refresh attempt, and whether it is
/// the refreshed one (which the caller then persists).
pub fn refresh_registry(current: ProviderRegistry, fetched: Option<ProviderRegistry>) -> (r: (
    ProviderRegistry,
    bool,
))
    ensures
        match fetched {
            Some(f) => if is_registry_update_spec(f.version@, current.version@) {
                r == (f, true)
            } else {
                r == (current, false)
            },
            None => r == (current, false),
        },
{
    match fetched {
        Some(f) => {
            if is_registry_update(&f, &current) {
                (f, true)
            } else {
                (current, false)
            }
        },
        None => (current, false),
    }
}

/// A registry never updates itself, and of two registries at most one is
/// an update of the other.
pub proof fn registry_update_is_strict(a: Seq<char>, b: Seq<char>)
    ensures
        !is_registry_update_spec(a, a),
        is_registry_update_spec(a, b) ==> !is_registry_update_spec(b, a),
{
    version_order_reflexive(a);
    version_order_antisymmetric(a, b);
}

/// Updates chain: an update of an update is an update of the original.
pub proof fn registry_update_is_transitive(a: Seq<char>, b: Seq<char>, c: Seq<char>)
    requires
        is_registry_update_spec(a, b),
        is_registry_update_spec(b, c),
    ensures
        is_registry_update_spec(a, c),
{
    version_order_antisymmetric(a, b);
    version_order_antisymmetric(b, c);
    version_order_antisymmetric(a, c);
    version_order_antisymmetric(c, a);
    version_order_transitive(c, b, a);
    if version_order(a, c) == 0 {
        version_order_antisymmetric(c, b);
        version_order_transitive(b, a, c);
        version_order_antisymmetric(b, a);
    }
}

} // verus!
