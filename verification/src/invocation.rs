//! Which skill a shell command implicitly invokes: a host-owned skill found
//! by the host snapshot, or the first executor-owned skill of the catalog
//! whose document the command reads or whose scripts it runs.

use vstd::prelude::*;

use crate::shadow_selection::SkillSourceKind;
use crate::str_map::StrMap;
use crate::text::{
    concat_strs, join_path, joined_path, parent_path, path_parent, path_starts_with, paths_equal,
    same_path, starts_with_path,
};

verus! {

/// A detected implicit skill invocation.
pub struct ImplicitSkillInvocation {
    /// Stable identifier the caller uses to deduplicate the notification.
    pub seen_key: String,
    /// Path or opaque resource id surfaced to contributors.
    pub skill_resource: String,
}

/// How a command touches a file that may belong to a skill.
pub enum ImplicitSkillAccess {
    /// The command reads this document.
    Document(String),
    /// The command runs this script.
    Script(String),
}

/// The parts of an executor-side catalog entry that detection reads.
pub struct ExecutorSkillEntry {
    /// The resource id of the skill's main prompt.
    pub main_prompt: String,
    /// The environment and path of the main prompt, when it has one.
    pub environment_path: Option<(String, String)>,
    pub enabled: bool,
    pub kind: SkillSourceKind,
}

/// The folder, under a skill's folder, that holds its scripts.
pub const SCRIPTS_DIR_NAME: &'static str = "scripts";

/// Whether `access` touches the skill whose main prompt is at `skill_path`:
/// reading that document, or running a script under the `scripts` folder
/// beside it.
pub open spec fn access_matches(access: ImplicitSkillAccess, skill_path: Seq<char>) -> bool {
    match access {
        ImplicitSkillAccess::Document(p) => same_path(p@, skill_path),
        ImplicitSkillAccess::Script(p) => match path_parent(skill_path) {
            Some(dir) => path_starts_with(p@, joined_path(dir, SCRIPTS_DIR_NAME@)),
            None => false,
        },
    }
}

/// Whether catalog entry `entry` is an enabled executor skill of environment
/// `env` that `access` touches.
pub open spec fn entry_matches(entry: ExecutorSkillEntry, access: ImplicitSkillAccess, env: Seq<char>) -> bool {
    match entry.environment_path {
        Some(ep) => {
            &&& entry.enabled
            &&& entry.kind is Executor
            &&& ep.0@ == env
            &&& access_matches(access, ep.1@)
        },
        None => false,
    }
}

/// No pair of an access and an entry before `(a, e)`, accesses first, matches.
pub open spec fn no_match_before(
    accesses: Seq<ImplicitSkillAccess>,
    entries: Seq<ExecutorSkillEntry>,
    env: Seq<char>,
    a: int,
    e: int,
) -> bool {
    forall|a2: int, e2: int|
        0 <= a2 < accesses.len() && 0 <= e2 < entries.len() && (a2 < a || (a2 == a && e2 < e))
            ==> !entry_matches(#[trigger] entries[e2], #[trigger] accesses[a2], env)
}

/// `inv` reports the executor skill of catalog entry `entry`.
pub open spec fn is_resource_invocation(inv: ImplicitSkillInvocation, entry: ExecutorSkillEntry) -> bool {
    &&& inv.skill_resource@ == entry.main_prompt@
    &&& inv.seen_key@ == "resource:"@ + entry.main_prompt@
}

/// `inv` reports the host skill at `path`.
pub open spec fn is_host_invocation(inv: ImplicitSkillInvocation, path: Seq<char>) -> bool {
    &&& inv.skill_resource@ == path
    &&& inv.seen_key@ == "host:"@ + path
}

fn access_touches(access: &ImplicitSkillAccess, skill_path: &str) -> (r: bool)
    ensures
        r == access_matches(*access, skill_path@),
{
    match access {
        ImplicitSkillAccess::Document(p) => paths_equal(p.as_str(), skill_path),
        ImplicitSkillAccess::Script(p) => match parent_path(skill_path) {
            Some(dir) => {
                let scripts = join_path(dir.as_str(), SCRIPTS_DIR_NAME);
                starts_with_path(p.as_str(), scripts.as_str())
            },
            None => false,
        },
    }
}

fn entry_touched(entry: &ExecutorSkillEntry, access: &ImplicitSkillAccess, env: &str) -> (r: bool)
    ensures
        r == entry_matches(*entry, *access, env@),
{
    match &entry.environment_path {
        None => false,
        Some(ep) => {
            let kind_ok = match entry.kind {
                SkillSourceKind::Executor => true,
                _ => false,
            };
            if !entry.enabled || !kind_ok || !crate::text::str_eq(ep.0.as_str(), env) {
                false
            } else {
                access_touches(access, ep.1.as_str())
            }
        },
    }
}

/// The invocation of the host skill at `path`.
pub fn host_skill_invocation(path: &str) -> (inv: ImplicitSkillInvocation)
    ensures
        is_host_invocation(inv, path@),
{
    proof {
        reveal_strlit("host:");
    }
    ImplicitSkillInvocation { skill_resource: path.to_owned(), seen_key: concat_strs("host:", path) }
}

/// The first executor skill of the catalog that one of the accesses touches,
/// trying the accesses in order and, for each, the entries in order.
pub fn detect_executor_skill_invocation(
    environment_id: &str,
    accesses: &Vec<ImplicitSkillAccess>,
    entries: &Vec<ExecutorSkillEntry>,
) -> (r: Option<ImplicitSkillInvocation>)
    ensures
        match r {
            Some(inv) => exists|a: int, e: int|
                0 <= a < accesses@.len() && 0 <= e < entries@.len() && entry_matches(
                    #[trigger] entries@[e],
                    #[trigger] accesses@[a],
                    environment_id@,
                ) && no_match_before(accesses@, entries@, environment_id@, a, e)
                    && is_resource_invocation(inv, entries@[e]),
            None => no_match_before(
                accesses@,
                entries@,
                environment_id@,
                accesses@.len() as int,
                0,
            ),
        },
{
    let na = accesses.len();
    let ne = entries.len();
    let mut a: usize = 0;
    while a < na
        invariant
            na == accesses@.len(),
            ne == entries@.len(),
            a <= na,
            no_match_before(accesses@, entries@, environment_id@, a as int, 0),
        decreases na - a,
    {
        let mut e: usize = 0;
        while e < ne
            invariant
                na == accesses@.len(),
                ne == entries@.len(),
                a < na,
                e <= ne,
                no_match_before(accesses@, entries@, environment_id@, a as int, e as int),
            decreases ne - e,
        {
            if entry_touched(&entries[e], &accesses[a], environment_id) {
                proof {
                    reveal_strlit("resource:");
                }
                let id = &entries[e].main_prompt;
                return Some(
                    ImplicitSkillInvocation {
                        skill_resource: id.clone(),
                        seen_key: concat_strs("resource:", id.as_str()),
                    },
                );
            }
            e = e + 1;
        }
        proof {
            assert forall|a2: int, e2: int|
                0 <= a2 < accesses@.len() && 0 <= e2 < entries@.len() && (a2 < a + 1 || (a2 == a
                    + 1 && e2 < 0)) implies !entry_matches(
                #[trigger] entries@[e2],
                #[trigger] accesses@[a2],
                environment_id@,
            ) by {
                if a2 == a {
                    assert(e2 < ne);
                }
            }
        }
        a = a + 1;
    }
    None
}

/// Whether the host snapshot is consulted: the command runs in the local
/// environment, with a native working directory, in a turn that holds a host
/// skills snapshot.
pub open spec fn host_lookup_applies(
    environment_id: Seq<char>,
    local_environment_id: Seq<char>,
    has_native_workdir: bool,
    host_snapshot_present: bool,
) -> bool {
    environment_id == local_environment_id && has_native_workdir && host_snapshot_present
}

/// The skill that a command implicitly invokes. When the command runs in the
/// local environment (`local_environment_id`) with a native working
/// directory and the turn holds a host snapshot, the host skill that the
/// snapshot finds for the command (`host_skill_path`) wins; otherwise, when
/// the turn has an executor catalog, its first executor skill that one of the
/// command's accesses touches.
pub fn detect_implicit_skill_invocation(
    environment_id: &str,
    local_environment_id: &str,
    native_workdir: Option<&str>,
    host_snapshot_present: bool,
    host_skill_path: Option<String>,
    accesses: &Vec<ImplicitSkillAccess>,
    catalog: Option<&Vec<ExecutorSkillEntry>>,
) -> (r: Option<ImplicitSkillInvocation>)
    ensures
        ({
            let gate = host_lookup_applies(
                environment_id@,
                local_environment_id@,
                native_workdir is Some,
                host_snapshot_present,
            );
            if gate && host_skill_path is Some {
                r matches Some(inv) && is_host_invocation(inv, host_skill_path->0@)
            } else {
                match catalog {
                    None => r is None,
                    Some(entries) => match r {
                        Some(inv) => exists|a: int, e: int|
                            0 <= a < accesses@.len() && 0 <= e < entries@.len() && entry_matches(
                                #[trigger] entries@[e],
                                #[trigger] accesses@[a],
                                environment_id@,
                            ) && no_match_before(accesses@, entries@, environment_id@, a, e)
                                && is_resource_invocation(inv, entries@[e]),
                        None => no_match_before(
                            accesses@,
                            entries@,
                            environment_id@,
                            accesses@.len() as int,
                            0,
                        ),
                    },
                }
            }
        }),
{
    let gate = crate::text::str_eq(environment_id, local_environment_id) && native_workdir.is_some()
        && host_snapshot_present;
    if gate {
        if let Some(path) = host_skill_path {
            return Some(host_skill_invocation(path.as_str()));
        }
    }
    match catalog {
        None => None,
        Some(entries) => detect_executor_skill_invocation(environment_id, accesses, entries),
    }
}

/// The invocation keys already notified during a turn.
pub struct ImplicitSkillInvocations {
    seen: StrMap<()>,
}

impl ImplicitSkillInvocations {
    /// The keys notified so far.
    pub closed spec fn seen_keys(self) -> Set<Seq<char>> {
        self.seen@.dom()
    }

    /// No key notified yet.
    pub fn new() -> (s: Self)
        ensures
            s.seen_keys() == Set::<Seq<char>>::empty(),
    {
        ImplicitSkillInvocations { seen: StrMap::new() }
    }

    /// Whether `key` has been notified.
    pub fn contains(&self, key: &str) -> (r: bool)
        ensures
            r == self.seen_keys().contains(key@),
    {
        self.seen.contains_key(key)
    }

    /// Marks `key` notified; true when it was not yet.
    pub fn insert(&mut self, key: String) -> (inserted: bool)
        ensures
            inserted == !old(self).seen_keys().contains(key@),
            final(self).seen_keys() == old(self).seen_keys().insert(key@),
    {
        if self.seen.contains_key(key.as_str()) {
            proof {
                assert(self.seen@.dom() =~= self.seen@.dom().insert(key@));
            }
            false
        } else {
            self.seen.insert(key, ());
            true
        }
    }
}

/// `announce` and the seen keys `after` are what handling `invocation` with
/// the seen keys `before` gives: a detected invocation is announced the first
/// time its seen key comes up, and its key is remembered.
pub open spec fn is_emit_step(
    before: Set<Seq<char>>,
    invocation: Option<ImplicitSkillInvocation>,
    after: Set<Seq<char>>,
    announce: Option<String>,
) -> bool {
    match invocation {
        None => announce is None && after == before,
        Some(inv) => {
            &&& after == before.insert(inv.seen_key@)
            &&& if before.contains(inv.seen_key@) {
                announce is None
            } else {
                announce == Some(inv.skill_resource)
            }
        },
    }
}

/// The skill resource to announce to the invocation contributors for a
/// detected invocation: announced once per turn and seen key.
pub fn maybe_emit_implicit_skill_invocation(
    seen: &mut ImplicitSkillInvocations,
    invocation: Option<ImplicitSkillInvocation>,
) -> (announce: Option<String>)
    ensures
        is_emit_step(old(seen).seen_keys(), invocation, final(seen).seen_keys(), announce),
{
    match invocation {
        None => None,
        Some(inv) => {
            let ImplicitSkillInvocation { seen_key, skill_resource } = inv;
            if seen.insert(seen_key) {
                Some(skill_resource)
            } else {
                None
            }
        },
    }
}

/// An invocation is announced at most once per turn: once one is handled,
/// any later invocation with the same seen key is not announced, and the
/// keys remembered only grow.
pub proof fn invocation_announced_once(
    s0: Set<Seq<char>>,
    first: ImplicitSkillInvocation,
    s1: Set<Seq<char>>,
    a1: Option<String>,
    later: ImplicitSkillInvocation,
    s2: Set<Seq<char>>,
    a2: Option<String>,
)
    requires
        is_emit_step(s0, Some(first), s1, a1),
        is_emit_step(s1, Some(later), s2, a2),
        later.seen_key@ == first.seen_key@,
    ensures
        a2 is None,
        s2 == s1,
        s0.subset_of(s1),
{
    assert(s1.contains(first.seen_key@));
    assert(s2 =~= s1);
}

} // verus!
