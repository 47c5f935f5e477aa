//! Which environment variables the API keys of `auth.json` are exported to:
//! a variable that is already set is never overwritten, and of several keys
//! for one variable the first one wins.

use vstd::prelude::*;

use crate::codexium::{env_assignments_upto, CodexiumAuthFile, ModelProviderInfo};
use crate::str_map::StrMap;

verus! {

/// The character contents of a list of `(variable, value)` pairs.
pub open spec fn text_pairs(v: Seq<(String, String)>) -> Seq<(Seq<char>, Seq<char>)> {
    v.map_values(|p: (String, String)| (p.0@, p.1@))
}

/// Some assignment of `a` names variable `v`.
pub open spec fn assigns_var(a: Seq<(Seq<char>, Seq<char>)>, v: Seq<char>) -> bool {
    exists|i: int| 0 <= i < a.len() && (#[trigger] a[i]).0 == v
}

/// The value of the first assignment of `a` that names `v`.
pub open spec fn first_assigned(a: Seq<(Seq<char>, Seq<char>)>, v: Seq<char>) -> Seq<char>
    decreases a.len(),
{
    if a.len() == 0 {
        Seq::empty()
    } else if assigns_var(a.drop_last(), v) {
        first_assigned(a.drop_last(), v)
    } else {
        a.last().1
    }
}

/// The exports that applying the assignments `a` in order performs when the
/// variables `set0` are already set: each assignment whose variable is
/// neither already set nor named by an earlier assignment.
pub open spec fn env_exports_of(a: Seq<(Seq<char>, Seq<char>)>, set0: Set<Seq<char>>) -> Seq<
    (Seq<char>, Seq<char>),
>
    decreases a.len(),
{
    if a.len() == 0 {
        Seq::empty()
    } else {
        let prev = env_exports_of(a.drop_last(), set0);
        let last = a.last();
        if set0.contains(last.0) || assigns_var(a.drop_last(), last.0) {
            prev
        } else {
            prev.push(last)
        }
    }
}

/// The environment `env` after the exports `e`, in order.
pub open spec fn env_after(env: Map<Seq<char>, Seq<char>>, e: Seq<(Seq<char>, Seq<char>)>) -> Map<
    Seq<char>,
    Seq<char>,
>
    decreases e.len(),
{
    if e.len() == 0 {
        env
    } else {
        env_after(env, e.drop_last()).insert(e.last().0, e.last().1)
    }
}

proof fn lemma_assigns_push(a: Seq<(Seq<char>, Seq<char>)>, v: Seq<char>)
    requires
        a.len() > 0,
    ensures
        assigns_var(a, v) <==> (assigns_var(a.drop_last(), v) || a.last().0 == v),
{
    if assigns_var(a, v) {
        let i = choose|i: int| 0 <= i < a.len() && (#[trigger] a[i]).0 == v;
        if i < a.len() - 1 {
            assert(a.drop_last()[i] == a[i]);
        }
    }
    if assigns_var(a.drop_last(), v) {
        let i = choose|i: int| 0 <= i < a.drop_last().len() && (#[trigger] a.drop_last()[i]).0 == v;
        assert(a[i] == a.drop_last()[i]);
    }
    if a.last().0 == v {
        assert(a[a.len() - 1].0 == v);
    }
}

/// Exporting the API keys keeps every variable that was already set, sets
/// each unset variable that an assignment names to the key of the first such
/// assignment, and leaves every other variable unset.
pub proof fn env_exports_keep_set_variables(
    env0: Map<Seq<char>, Seq<char>>,
    a: Seq<(Seq<char>, Seq<char>)>,
    v: Seq<char>,
)
    ensures
        ({
            let env1 = env_after(env0, env_exports_of(a, env0.dom()));
            &&& env0.contains_key(v) ==> env1.contains_key(v) && env1[v] == env0[v]
            &&& !env0.contains_key(v) && assigns_var(a, v) ==> env1.contains_key(v) && env1[v]
                == first_assigned(a, v)
            &&& !env0.contains_key(v) && !assigns_var(a, v) ==> !env1.contains_key(v)
        }),
    decreases a.len(),
{
    if a.len() > 0 {
        let p = a.drop_last();
        let l = a.last();
        env_exports_keep_set_variables(env0, p, v);
        lemma_assigns_push(a, v);
        let prev = env_exports_of(p, env0.dom());
        if !(env0.dom().contains(l.0) || assigns_var(p, l.0)) {
            assert(env_exports_of(a, env0.dom()) == prev.push(l));
            assert(prev.push(l).drop_last() =~= prev);
        }
    }
}

/// Entry `j` of `auth.json` (in the order of its providers) names variable
/// `v`: its provider is a known runtime provider whose `env_key` is `v`.
pub open spec fn auth_entry_names(
    auth: CodexiumAuthFile,
    providers: Map<Seq<char>, ModelProviderInfo>,
    j: int,
    v: Seq<char>,
) -> bool {
    let id = auth.providers.keys()[j];
    &&& providers.contains_key(id)
    &&& providers[id].env_key matches Some(e) && e@ == v
}

proof fn lemma_assignments_of_entries(
    auth: CodexiumAuthFile,
    providers: Map<Seq<char>, ModelProviderInfo>,
    k: int,
    v: Seq<char>,
)
    requires
        0 <= k <= auth.providers.keys().len(),
    ensures
        ({
            let a = env_assignments_upto(auth, providers, k);
            &&& assigns_var(a, v) <==> exists|j: int|
                0 <= j < k && #[trigger] auth_entry_names(auth, providers, j, v)
            &&& assigns_var(a, v) ==> exists|j: int|
                0 <= j < k && #[trigger] auth_entry_names(auth, providers, j, v) && (forall|j2: int|
                    0 <= j2 < j ==> !#[trigger] auth_entry_names(auth, providers, j2, v))
                    && first_assigned(a, v) == auth.providers@[auth.providers.keys()[j]]@
        }),
    decreases k,
{
    if k > 0 {
        lemma_assignments_of_entries(auth, providers, k - 1, v);
        let prev = env_assignments_upto(auth, providers, k - 1);
        let a = env_assignments_upto(auth, providers, k);
        let id = auth.providers.keys()[k - 1];
        if providers.contains_key(id) && providers[id].env_key is Some {
            assert(a.drop_last() =~= prev);
            lemma_assigns_push(a, v);
            if assigns_var(a, v) && !assigns_var(prev, v) {
                assert(auth_entry_names(auth, providers, k - 1, v));
                assert forall|j2: int| 0 <= j2 < k - 1 implies !#[trigger] auth_entry_names(
                    auth,
                    providers,
                    j2,
                    v,
                ) by {}
            }
        } else {
            assert(!auth_entry_names(auth, providers, k - 1, v));
        }
        if exists|j: int| 0 <= j < k && #[trigger] auth_entry_names(auth, providers, j, v) {
            let j = choose|j: int| 0 <= j < k && #[trigger] auth_entry_names(auth, providers, j, v);
            if j < k - 1 {
                assert(exists|j3: int|
                    0 <= j3 < k - 1 && #[trigger] auth_entry_names(auth, providers, j3, v));
            }
        }
    }
}

/// Injecting the API keys of `auth.json` into the environment keeps every
/// variable that was already set; sets each unset variable that an entry's
/// runtime provider names as its `env_key` to the key of the first such
/// entry; and leaves every other variable unset.
pub proof fn auth_keys_reach_unset_variables(
    auth: CodexiumAuthFile,
    providers: Map<Seq<char>, ModelProviderInfo>,
    env0: Map<Seq<char>, Seq<char>>,
    v: Seq<char>,
)
    ensures
        ({
            let n = auth.providers.keys().len() as int;
            let a = env_assignments_upto(auth, providers, n);
            let env1 = env_after(env0, env_exports_of(a, env0.dom()));
            &&& env0.contains_key(v) ==> env1.contains_key(v) && env1[v] == env0[v]
            &&& !env0.contains_key(v) && (exists|j: int|
                0 <= j < n && #[trigger] auth_entry_names(auth, providers, j, v)) ==> exists|j: int|
                0 <= j < n && #[trigger] auth_entry_names(auth, providers, j, v) && (forall|j2: int|
                    0 <= j2 < j ==> !#[trigger] auth_entry_names(auth, providers, j2, v))
                    && env1.contains_key(v) && env1[v]
                    == auth.providers@[auth.providers.keys()[j]]@
            &&& !env0.contains_key(v) && !(exists|j: int|
                0 <= j < n && #[trigger] auth_entry_names(auth, providers, j, v)) ==> !env1.contains_key(
                v,
            )
        }),
{
    let n = auth.providers.keys().len() as int;
    lemma_assignments_of_entries(auth, providers, n, v);
    env_exports_keep_set_variables(env0, env_assignments_upto(auth, providers, n), v);
}

/// The exports to perform for the assignments, given which of their
/// variables are already set: an assignment is exported when its variable is
/// not set and no earlier assignment names it.
pub fn env_exports(assignments: Vec<(String, String)>, already_set: &StrMap<()>) -> (r: Vec<
    (String, String),
>)
    ensures
        text_pairs(r@) == env_exports_of(text_pairs(assignments@), already_set@.dom()),
{
    let ghost all = text_pairs(assignments@);
    let ghost set0 = already_set@.dom();
    let n = assignments.len();
    let mut named: StrMap<()> = StrMap::new();
    let mut out: Vec<(String, String)> = Vec::new();
    let mut i: usize = 0;
    for pair in it: assignments
        invariant
            all == text_pairs(it.seq()),
            n == all.len(),
            i == it.index(),
            set0 == already_set@.dom(),
            text_pairs(out@) == env_exports_of(all.subrange(0, i as int), set0),
            forall|v: Seq<char>|
                #[trigger] named@.contains_key(v) <==> assigns_var(all.subrange(0, i as int), v),
    {
        proof {
            assert(i < n);
        }
        let ghost prefix = all.subrange(0, i as int);
        let ghost next = all.subrange(0, i + 1);
        proof {
            assert(next.drop_last() =~= prefix);
            assert(next.last() == (pair.0@, pair.1@));
            assert forall|v: Seq<char>| #[trigger]
                assigns_var(next, v) <==> (assigns_var(prefix, v) || pair.0@ == v) by {
                lemma_assigns_push(next, v);
            }
        }
        let (var, value) = pair;
        let skip = already_set.contains_key(var.as_str()) || named.contains_key(var.as_str());
        let key = var.clone();
        named.insert(key, ());
        if !skip {
            let ghost before = out@;
            out.push((var, value));
            proof {
                assert(text_pairs(out@) =~= text_pairs(before).push(next.last()));
            }
        }
        i = i + 1;
    }
    proof {
        assert(all.subrange(0, n as int) =~= all);
    }
    out
}

} // verus!
