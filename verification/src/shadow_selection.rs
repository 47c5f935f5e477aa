//! Bookkeeping of the shadow skill-selection experiment: recently invoked
//! skills, sanitised selections and the bounded selection query.

use std::collections::HashSet;
use std::collections::VecDeque;

use vstd::prelude::*;
use vstd::string::StringExecFns;

use crate::str_map::StrMap;
use crate::text::{push_char, texts};

verus! {

broadcast use vstd::std_specs::hash::group_hash_axioms;

/// Upper bound on the bytes of a selection query.
pub const MAX_SHADOW_QUERY_BYTES: usize = 16 * 1024;

/// Upper bound on selection results and on remembered recent invocations.
pub const MAX_SHADOW_RESULTS: usize = 50;

/// `s` with every backslash turned into a forward slash.
pub open spec fn normalized_resource(s: Seq<char>) -> Seq<char> {
    s.map_values(|c: char| if c == '\\' { '/' } else { c })
}

/// Normalises a skill resource path to forward slashes.
pub fn normalize_skill_resource(skill_resource: &str) -> (r: String)
    ensures
        r@ == normalized_resource(skill_resource@),
{
    let mut out = String::new();
    for c in it: skill_resource.chars()
        invariant
            it.seq() == skill_resource@,
            out@ == normalized_resource(skill_resource@.subrange(0, it.index())),
    {
        let ghost before = skill_resource@.subrange(0, it.index());
        if c == '\\' {
            push_char(&mut out, '/');
        } else {
            push_char(&mut out, c);
        }
        proof {
            let after = skill_resource@.subrange(0, it.index() + 1);
            assert(after =~= before.push(c));
            assert(normalized_resource(after) =~= normalized_resource(before).push(
                if c == '\\' { '/' } else { c },
            ));
        }
    }
    proof {
        assert(skill_resource@.subrange(0, skill_resource@.len() as int) =~= skill_resource@);
    }
    out
}

/// `items` without its first occurrence of `x`.
pub open spec fn without_first<T>(items: Seq<T>, x: T) -> Seq<T>
    decreases items.len(),
{
    if items.len() == 0 {
        items
    } else if items[0] == x {
        items.drop_first()
    } else {
        seq![items[0]] + without_first(items.drop_first(), x)
    }
}

/// The history after recording `x`: `x` moves to the front (removing its
/// earlier entry) and only the most recent `MAX_SHADOW_RESULTS` are kept.
pub open spec fn recorded<T>(items: Seq<T>, x: T) -> Seq<T> {
    let moved = seq![x] + without_first(items, x);
    if moved.len() > MAX_SHADOW_RESULTS {
        moved.subrange(0, MAX_SHADOW_RESULTS as int)
    } else {
        moved
    }
}

proof fn lemma_remove_first_occurrence<T>(items: Seq<T>, x: T, i: int)
    requires
        0 <= i < items.len(),
        items[i] == x,
        forall|j: int| 0 <= j < i ==> items[j] != x,
    ensures
        items.remove(i) == without_first(items, x),
    decreases i,
{
    if i > 0 {
        lemma_remove_first_occurrence(items.drop_first(), x, i - 1);
        assert(items.remove(i) =~= seq![items[0]] + items.drop_first().remove(i - 1));
    } else {
        assert(items.remove(0) =~= items.drop_first());
    }
}

proof fn lemma_without_absent<T>(items: Seq<T>, x: T)
    requires
        !items.contains(x),
    ensures
        without_first(items, x) == items,
    decreases items.len(),
{
    if items.len() > 0 {
        assert(!items.drop_first().contains(x)) by {
            if items.drop_first().contains(x) {
                let j = choose|j: int| 0 <= j < items.drop_first().len() && items.drop_first()[j] == x;
                assert(items[j + 1] == x);
            }
        }
        lemma_without_absent(items.drop_first(), x);
        assert(items =~= seq![items[0]] + items.drop_first());
    }
}

proof fn lemma_without_first_contents<T>(items: Seq<T>, x: T)
    requires
        items.no_duplicates(),
    ensures
        without_first(items, x).no_duplicates(),
        !without_first(items, x).contains(x),
        forall|y: T| y != x ==> (without_first(items, x).contains(y) <==> items.contains(y)),
    decreases items.len(),
{
    if items.len() > 0 {
        let rest = items.drop_first();
        assert(rest.no_duplicates());
        lemma_without_first_contents(rest, x);
        if items[0] == x {
            assert(!rest.contains(x)) by {
                if rest.contains(x) {
                    let j = choose|j: int| 0 <= j < rest.len() && rest[j] == x;
                    assert(items[j + 1] == x);
                }
            }
            assert forall|y: T| y != x implies (rest.contains(y) <==> items.contains(y)) by {
                if items.contains(y) {
                    let j = choose|j: int| 0 <= j < items.len() && items[j] == y;
                    assert(j > 0);
                    assert(rest[j - 1] == y);
                }
                if rest.contains(y) {
                    let j = choose|j: int| 0 <= j < rest.len() && rest[j] == y;
                    assert(items[j + 1] == y);
                }
            }
        } else {
            let w = without_first(items, x);
            let wr = without_first(rest, x);
            assert(w == seq![items[0]] + wr);
            assert(!wr.contains(items[0])) by {
                if wr.contains(items[0]) {
                    assert(rest.contains(items[0]));
                    let j = choose|j: int| 0 <= j < rest.len() && rest[j] == items[0];
                    assert(items[j + 1] == items[0]);
                }
            }
            assert(!w.contains(x)) by {
                if w.contains(x) {
                    let j = choose|j: int| 0 <= j < w.len() && w[j] == x;
                    if j > 0 {
                        assert(wr[j - 1] == x);
                    }
                }
            }
            assert forall|y: T| y != x implies (w.contains(y) <==> items.contains(y)) by {
                if items.contains(y) {
                    let j = choose|j: int| 0 <= j < items.len() && items[j] == y;
                    if j > 0 {
                        assert(rest[j - 1] == y);
                        assert(rest.contains(y));
                        assert(wr.contains(y));
                        let k = choose|k: int| 0 <= k < wr.len() && wr[k] == y;
                        assert(w[k + 1] == y);
                    } else {
                        assert(w[0] == y);
                    }
                }
                if w.contains(y) {
                    let j = choose|j: int| 0 <= j < w.len() && w[j] == y;
                    if j > 0 {
                        assert(wr[j - 1] == y);
                        assert(wr.contains(y));
                        assert(rest.contains(y));
                        let k = choose|k: int| 0 <= k < rest.len() && rest[k] == y;
                        assert(items[k + 1] == y);
                    } else {
                        assert(items[0] == y);
                    }
                }
            }
            assert forall|a: int, b: int| 0 <= a < w.len() && 0 <= b < w.len() && a != b implies w[a]
                != w[b] by {
                if a > 0 && b > 0 {
                    assert(w[a] == wr[a - 1] && w[b] == wr[b - 1]);
                } else if a == 0 {
                    assert(wr.contains(w[b]));
                } else {
                    assert(wr.contains(w[a]));
                }
            }
        }
    }
}

/// Skills invoked recently, most recent first, without repeats.
pub struct RecentSkillInvocations {
    pub skill_resources: VecDeque<String>,
}

impl RecentSkillInvocations {
    /// An empty history.
    pub fn new() -> (r: Self)
        ensures
            texts(r.skill_resources@) == Seq::<Seq<char>>::empty(),
    {
        let r = RecentSkillInvocations { skill_resources: VecDeque::new() };
        assert(texts(r.skill_resources@) =~= Seq::<Seq<char>>::empty());
        r
    }

    /// The recent skills, most recent first.
    pub fn snapshot(&self) -> (r: Vec<String>)
        ensures
            texts(r@) == texts(self.skill_resources@),
    {
        let mut out: Vec<String> = Vec::new();
        let n = self.skill_resources.len();
        let mut i: usize = 0;
        while i < n
            invariant
                n == self.skill_resources@.len(),
                i <= n,
                texts(out@) =~= texts(self.skill_resources@.subrange(0, i as int)),
            decreases n - i,
        {
            let ghost old_out = out@;
            let s = self.skill_resources[i].clone();
            out.push(s);
            proof {
                assert(texts(out@) =~= texts(old_out).push(self.skill_resources@[i as int]@));
                assert(texts(self.skill_resources@.subrange(0, i + 1)) =~= texts(
                    self.skill_resources@.subrange(0, i as int),
                ).push(self.skill_resources@[i as int]@));
                assert(self.skill_resources@.subrange(0, i + 1) =~= self.skill_resources@.subrange(
                    0,
                    i as int,
                ).push(self.skill_resources@[i as int]));
            }
            i = i + 1;
        }
        proof {
            assert(self.skill_resources@.subrange(0, n as int) =~= self.skill_resources@);
        }
        out
    }

    /// Records an invocation of `skill_resource`: it becomes the most recent,
    /// its earlier entry goes away, and only `MAX_SHADOW_RESULTS` are kept.
    pub fn record(&mut self, skill_resource: &str)
        ensures
            texts(final(self).skill_resources@) == recorded(
                texts(old(self).skill_resources@),
                skill_resource@,
            ),
    {
        let ghost before = texts(self.skill_resources@);
        let n = self.skill_resources.len();
        let mut i: usize = 0;
        let mut found: Option<usize> = None;
        while i < n && found.is_none()
            invariant
                n == self.skill_resources@.len(),
                before == texts(self.skill_resources@),
                i <= n,
                forall|j: int| 0 <= j < i ==> before[j] != skill_resource@,
                found matches Some(k) ==> k == i && i < n && before[k as int] == skill_resource@,
            decreases n - i + (if found is None { 1int } else { 0 }),
        {
            if crate::text::str_eq(self.skill_resources[i].as_str(), skill_resource) {
                found = Some(i);
            } else {
                assert(before[i as int] == self.skill_resources@[i as int]@);
                i = i + 1;
            }
        }
        let ghost without: Seq<Seq<char>> = without_first(before, skill_resource@);
        match found {
            Some(index) => {
                proof {
                    lemma_remove_first_occurrence(before, skill_resource@, i as int);
                }
                let _ = self.skill_resources.remove(index);
                proof {
                    assert(texts(self.skill_resources@) =~= before.remove(i as int));
                }
            },
            None => {
                proof {
                    assert(!before.contains(skill_resource@)) by {
                        if before.contains(skill_resource@) {
                            let j = choose|j: int|
                                0 <= j < before.len() && before[j] == skill_resource@;
                            assert(before[j] != skill_resource@);
                        }
                    }
                    lemma_without_absent(before, skill_resource@);
                }
            },
        }
        let owned = skill_resource.to_owned();
        self.skill_resources.push_front(owned);
        proof {
            assert(texts(self.skill_resources@) =~= seq![skill_resource@] + without);
        }
        self.skill_resources.truncate(MAX_SHADOW_RESULTS);
        proof {
            assert(texts(self.skill_resources@) =~= recorded(before, skill_resource@));
        }
    }
}

/// Recording an invocation puts it first, keeps the history within
/// `MAX_SHADOW_RESULTS`, never repeats a skill, and keeps every other skill
/// that was not pushed out by the bound.
pub proof fn recorded_history_is_bounded_recency_list(items: Seq<Seq<char>>, x: Seq<char>)
    requires
        items.no_duplicates(),
    ensures
        recorded(items, x).len() >= 1,
        recorded(items, x)[0] == x,
        recorded(items, x).len() <= MAX_SHADOW_RESULTS,
        recorded(items, x).no_duplicates(),
        items.len() < MAX_SHADOW_RESULTS ==> forall|y: Seq<char>|
            #[trigger] items.contains(y) ==> recorded(items, x).contains(y),
{
    lemma_without_first_contents(items, x);
    let w = without_first(items, x);
    let moved = seq![x] + w;
    assert forall|a: int, b: int| 0 <= a < moved.len() && 0 <= b < moved.len() && a != b implies moved[a]
        != moved[b] by {
        if a > 0 && b > 0 {
            assert(moved[a] == w[a - 1] && moved[b] == w[b - 1]);
        } else if a == 0 {
            assert(w.contains(moved[b]));
        } else {
            assert(w.contains(moved[a]));
        }
    }
    if items.len() < MAX_SHADOW_RESULTS {
        assert(w.len() <= items.len()) by {
            lemma_without_first_len(items, x);
        }
        assert forall|y: Seq<char>| #[trigger] items.contains(y) implies recorded(items, x).contains(
            y,
        ) by {
            if y == x {
                assert(moved[0] == x);
            } else {
                let k = choose|k: int| 0 <= k < w.len() && w[k] == y;
                assert(moved[k + 1] == y);
            }
        }
    }
}

proof fn lemma_without_first_len<T>(items: Seq<T>, x: T)
    ensures
        without_first(items, x).len() <= items.len(),
    decreases items.len(),
{
    if items.len() > 0 {
        lemma_without_first_len(items.drop_first(), x);
    }
}

/// The result of one cheap selector: candidate entry ids, best first.
pub struct CheapSkillSelection {
    pub candidate_ids: Vec<usize>,
    pub query_term_count: usize,
    pub query_truncated: bool,
    pub candidate_set_truncated: bool,
}

/// The eligible candidates of `ids`, each at its first occurrence, in order.
pub open spec fn eligible_first_occurrences(ids: Seq<usize>, eligible: Set<usize>) -> Seq<usize>
    decreases ids.len(),
{
    if ids.len() == 0 {
        ids
    } else {
        let kept = eligible_first_occurrences(ids.drop_last(), eligible);
        if eligible.contains(ids.last()) && !kept.contains(ids.last()) {
            kept.push(ids.last())
        } else {
            kept
        }
    }
}

/// The sanitised selection: eligible ids without repeats, at most `MAX_SHADOW_RESULTS`.
pub open spec fn sanitized_ids(ids: Seq<usize>, eligible: Set<usize>) -> Seq<usize> {
    let kept = eligible_first_occurrences(ids, eligible);
    if kept.len() > MAX_SHADOW_RESULTS {
        kept.subrange(0, MAX_SHADOW_RESULTS as int)
    } else {
        kept
    }
}

proof fn lemma_first_occurrences_prefix(ids: Seq<usize>, eligible: Set<usize>, j: int)
    requires
        0 <= j <= ids.len(),
    ensures
        eligible_first_occurrences(ids.subrange(0, j), eligible).len()
            <= eligible_first_occurrences(ids, eligible).len(),
        eligible_first_occurrences(ids, eligible).subrange(
            0,
            eligible_first_occurrences(ids.subrange(0, j), eligible).len() as int,
        ) == eligible_first_occurrences(ids.subrange(0, j), eligible),
    decreases ids.len(),
{
    if j == ids.len() {
        assert(ids.subrange(0, j) =~= ids);
        let k = eligible_first_occurrences(ids, eligible);
        assert(k.subrange(0, k.len() as int) =~= k);
    } else {
        lemma_first_occurrences_prefix(ids.drop_last(), eligible, j);
        assert(ids.drop_last().subrange(0, j) =~= ids.subrange(0, j));
        let k = eligible_first_occurrences(ids, eligible);
        let kd = eligible_first_occurrences(ids.drop_last(), eligible);
        let kj = eligible_first_occurrences(ids.subrange(0, j), eligible);
        assert(k.subrange(0, kj.len() as int) =~= kd.subrange(0, kj.len() as int));
    }
}

/// Keeps the eligible candidate ids of a selection, each once, in order, and
/// at most `MAX_SHADOW_RESULTS` of them.
pub fn sanitize_selected_ids(selection: &CheapSkillSelection, eligible_ids: &HashSet<usize>) -> (r:
    Vec<usize>)
    ensures
        r@ == sanitized_ids(selection.candidate_ids@, eligible_ids@),
{
    let ids = &selection.candidate_ids;
    let n = ids.len();
    let mut seen: HashSet<usize> = HashSet::new();
    let mut out: Vec<usize> = Vec::new();
    let mut i: usize = 0;
    while i < n && out.len() < MAX_SHADOW_RESULTS
        invariant
            n == ids@.len(),
            i <= n,
            out@ == eligible_first_occurrences(ids@.subrange(0, i as int), eligible_ids@),
            seen@ == out@.to_set(),
            out@.len() <= MAX_SHADOW_RESULTS,
        decreases n - i,
    {
        let id = ids[i];
        let ghost prefix = ids@.subrange(0, i as int);
        proof {
            assert(ids@.subrange(0, i + 1).drop_last() =~= prefix);
            assert(ids@.subrange(0, i + 1).last() == id);
        }
        let ghost old_out = out@;
        proof {
            assert(old_out.contains(id) <==> old_out.to_set().contains(id));
        }
        if eligible_ids.contains(&id) {
            let fresh = seen.insert(id);
            if fresh {
                out.push(id);
                proof {
                    Seq::lemma_to_set_insert_commutes(old_out, id);
                    assert(out@ =~= old_out + seq![id]);
                }
            }
        }
        i = i + 1;
    }
    proof {
        let full = eligible_first_occurrences(ids@, eligible_ids@);
        lemma_first_occurrences_prefix(ids@, eligible_ids@, i as int);
        if i == n {
            assert(ids@.subrange(0, i as int) =~= ids@);
        } else {
            assert(out@.len() == MAX_SHADOW_RESULTS);
        }
    }
    out
}

proof fn lemma_encode_concat(a: Seq<char>, b: Seq<char>)
    ensures
        vstd::utf8::encode_utf8(a + b) == vstd::utf8::encode_utf8(a) + vstd::utf8::encode_utf8(b),
    decreases a.len(),
{
    if a.len() > 0 {
        assert((a + b).drop_first() =~= a.drop_first() + b);
        assert((a + b)[0] == a[0]);
        lemma_encode_concat(a.drop_first(), b);
    } else {
        assert(a + b =~= b);
    }
}

/// The largest character boundary of `bytes` at or below `n`.
pub open spec fn boundary_at_or_below(bytes: Seq<u8>, n: int) -> int
    decreases n,
{
    if n <= 0 {
        0
    } else if vstd::utf8::is_char_boundary(bytes, n) {
        n
    } else {
        boundary_at_or_below(bytes, n - 1)
    }
}

/// The UTF-8 size of a character sequence.
pub open spec fn utf8_len(s: Seq<char>) -> int {
    vstd::utf8::encode_utf8(s).len() as int
}

/// What appending `value` to `dest` within `MAX_SHADOW_QUERY_BYTES` gives: the
/// whole of `value` when it fits, else its longest prefix that fits and ends
/// on a character boundary; and whether all of `value` fit.
pub open spec fn bounded_append(dest: Seq<char>, value: Seq<char>) -> (Seq<char>, bool) {
    let remaining = if utf8_len(dest) <= MAX_SHADOW_QUERY_BYTES {
        MAX_SHADOW_QUERY_BYTES - utf8_len(dest)
    } else {
        0
    };
    let bytes = vstd::utf8::encode_utf8(value);
    if bytes.len() <= remaining {
        (dest + value, true)
    } else {
        (
            dest + vstd::utf8::decode_utf8(
                bytes.subrange(0, boundary_at_or_below(bytes, remaining)),
            ),
            false,
        )
    }
}

/// Appends `value` to `destination` without letting it exceed
/// `MAX_SHADOW_QUERY_BYTES` bytes; returns whether all of `value` fit.
pub fn push_bounded(destination: &mut String, value: &str) -> (fit: bool)
    requires
        utf8_len(old(destination)@) <= usize::MAX,
        utf8_len(value@) <= usize::MAX,
    ensures
        (final(destination)@, fit) == bounded_append(old(destination)@, value@),
{
    let used = destination.as_str().len();
    let remaining = MAX_SHADOW_QUERY_BYTES.saturating_sub(used);
    proof {
        vstd::utf8::encode_utf8_decode_utf8(value@);
    }
    proof {
        assert(used == utf8_len(old(destination)@));
    }
    if value.len() <= remaining {
        destination.append(value);
        assert(vstd::utf8::encode_utf8(value@).len() <= remaining);
        return true;
    }
    let ghost bytes = vstd::utf8::encode_utf8(value@);
    proof {
        vstd::utf8::encode_utf8_valid_utf8(value@);
    }
    let mut end = remaining;
    while !value.is_char_boundary(end)
        invariant
            bytes == vstd::utf8::encode_utf8(value@),
            vstd::utf8::valid_utf8(bytes),
            end <= remaining,
            remaining < bytes.len(),
            boundary_at_or_below(bytes, end as int) == boundary_at_or_below(bytes, remaining as int),
        decreases end,
    {
        proof {
            if end == 0 {
                vstd::utf8::is_char_boundary_start_end_of_seq(bytes);
            }
        }
        end = end - 1;
    }
    let (head, _) = value.split_at(end);
    proof {
        vstd::utf8::encode_utf8_decode_utf8(head@);
        assert(boundary_at_or_below(bytes, end as int) == end);
        assert(head@ == vstd::utf8::decode_utf8(bytes.subrange(0, end as int)));
    }
    destination.append(head);
    false
}

proof fn lemma_boundary_at_or_below(bytes: Seq<u8>, n: int)
    requires
        vstd::utf8::valid_utf8(bytes),
    ensures
        0 <= boundary_at_or_below(bytes, n),
        n >= 0 ==> boundary_at_or_below(bytes, n) <= n,
        vstd::utf8::is_char_boundary(bytes, boundary_at_or_below(bytes, n)),
    decreases n,
{
    if n > 0 && !vstd::utf8::is_char_boundary(bytes, n) {
        lemma_boundary_at_or_below(bytes, n - 1);
    }
}

/// A bounded append never takes a string that is within `MAX_SHADOW_QUERY_BYTES`
/// beyond it, and it only ever extends the string it appends to.
pub proof fn bounded_append_stays_within_limit(dest: Seq<char>, value: Seq<char>)
    requires
        utf8_len(dest) <= MAX_SHADOW_QUERY_BYTES,
    ensures
        utf8_len(bounded_append(dest, value).0) <= MAX_SHADOW_QUERY_BYTES,
        bounded_append(dest, value).0.subrange(0, dest.len() as int) == dest,
        dest.len() <= bounded_append(dest, value).0.len(),
{
    let remaining = MAX_SHADOW_QUERY_BYTES - utf8_len(dest);
    let bytes = vstd::utf8::encode_utf8(value);
    vstd::utf8::encode_utf8_valid_utf8(value);
    if bytes.len() <= remaining {
        lemma_encode_concat(dest, value);
        assert((dest + value).subrange(0, dest.len() as int) =~= dest);
    } else {
        let b = boundary_at_or_below(bytes, remaining);
        lemma_boundary_at_or_below(bytes, remaining);
        vstd::utf8::valid_utf8_split(bytes, b);
        let part = vstd::utf8::decode_utf8(bytes.subrange(0, b));
        vstd::utf8::decode_utf8_encode_utf8(bytes.subrange(0, b));
        lemma_encode_concat(dest, part);
        assert((dest + part).subrange(0, dest.len() as int) =~= dest);
    }
}

/// The parts of a user input that make up a selection query.
pub enum UserInput {
    Text { text: String },
    Skill { name: String },
    Mention { name: String },
    Other,
}

/// The text an input contributes to the query, if any.
pub open spec fn input_text(input: UserInput) -> Option<Seq<char>> {
    match input {
        UserInput::Text { text } => Some(text@),
        UserInput::Skill { name } => Some(name@),
        UserInput::Mention { name } => Some(name@),
        UserInput::Other => None,
    }
}

/// A selection query and whether it was cut short by the byte bound.
pub struct ShadowQuery {
    pub text: String,
    pub truncated: bool,
}

/// The query for `inputs`: their non-empty texts joined by single spaces,
/// kept within `MAX_SHADOW_QUERY_BYTES`; building stops at the first cut.
pub open spec fn shadow_query_of(inputs: Seq<UserInput>) -> (Seq<char>, bool)
    decreases inputs.len(),
{
    if inputs.len() == 0 {
        (Seq::<char>::empty(), false)
    } else {
        let (text, truncated) = shadow_query_of(inputs.drop_last());
        if truncated {
            (text, true)
        } else {
            match input_text(inputs.last()) {
                None => (text, false),
                Some(part) => if part.len() == 0 {
                    (text, false)
                } else if text.len() != 0 && !bounded_append(text, seq![' ']).1 {
                    (bounded_append(text, seq![' ']).0, true)
                } else {
                    let with_space = if text.len() != 0 {
                        bounded_append(text, seq![' ']).0
                    } else {
                        text
                    };
                    let (joined, fit) = bounded_append(with_space, part);
                    (joined, !fit)
                },
            }
        }
    }
}

proof fn lemma_space_utf8_len()
    ensures
        utf8_len(seq![' ']) == 1,
{
    let s = seq![' '];
    assert(s.drop_first() =~= Seq::<char>::empty());
    reveal_with_fuel(vstd::utf8::encode_utf8, 2);
}

/// Builds the selection query from the user inputs.
pub fn build_shadow_query(inputs: &[UserInput]) -> (q: ShadowQuery)
    requires
        forall|i: int|
            0 <= i < inputs@.len() ==> ((#[trigger] input_text(inputs@[i])) matches Some(t)
                ==> utf8_len(t) <= usize::MAX),
    ensures
        (q.text@, q.truncated) == shadow_query_of(inputs@),
        utf8_len(q.text@) <= MAX_SHADOW_QUERY_BYTES,
{
    let mut text = String::new();
    let mut truncated = false;
    let n = inputs.len();
    let mut i: usize = 0;
    proof {
        reveal_with_fuel(vstd::utf8::encode_utf8, 1);
        assert(shadow_query_of(inputs@.subrange(0, 0)) == (Seq::<char>::empty(), false));
        lemma_space_utf8_len();
    }
    while i < n && !truncated
        invariant
            n == inputs@.len(),
            i <= n,
            forall|j: int|
                0 <= j < inputs@.len() ==> ((#[trigger] input_text(inputs@[j])) matches Some(t)
                    ==> utf8_len(t) <= usize::MAX),
            utf8_len(seq![' ']) == 1,
            (text@, truncated) == shadow_query_of(inputs@.subrange(0, i as int)),
            utf8_len(text@) <= MAX_SHADOW_QUERY_BYTES,
        decreases n - i + (if truncated { 0int } else { 1 }),
    {
        let ghost prefix = inputs@.subrange(0, i as int);
        let ghost next = inputs@.subrange(0, i + 1);
        proof {
            assert(next.drop_last() =~= prefix);
            assert(next.last() == inputs@[i as int]);
        }
        let part: Option<&str> = match &inputs[i] {
            UserInput::Text { text } => Some(text.as_str()),
            UserInput::Skill { name } => Some(name.as_str()),
            UserInput::Mention { name } => Some(name.as_str()),
            UserInput::Other => None,
        };
        proof {
            reveal_strlit(" ");
            assert(" "@ =~= seq![' ']);
        }
        if let Some(part) = part {
            assert(input_text(inputs@[i as int]) == Some(part@));
            if !part.is_empty() {
                let mut cut = false;
                if !text.as_str().is_empty() {
                    proof {
                        bounded_append_stays_within_limit(text@, seq![' ']);
                    }
                    if !push_bounded(&mut text, " ") {
                        cut = true;
                    }
                }
                if cut {
                    truncated = true;
                } else {
                    proof {
                        bounded_append_stays_within_limit(text@, part@);
                    }
                    if !push_bounded(&mut text, part) {
                        truncated = true;
                    }
                }
            }
        }
        i = i + 1;
    }
    proof {
        if !truncated {
            assert(inputs@.subrange(0, i as int) =~= inputs@);
        } else {
            lemma_query_stops_when_truncated(inputs@, i as int);
        }
    }
    ShadowQuery { text, truncated }
}

proof fn lemma_query_stops_when_truncated(inputs: Seq<UserInput>, i: int)
    requires
        0 <= i <= inputs.len(),
        shadow_query_of(inputs.subrange(0, i)).1,
    ensures
        shadow_query_of(inputs) == shadow_query_of(inputs.subrange(0, i)),
    decreases inputs.len() - i,
{
    if i == inputs.len() {
        assert(inputs.subrange(0, i) =~= inputs);
    } else {
        let next = inputs.subrange(0, i + 1);
        assert(next.drop_last() =~= inputs.subrange(0, i));
        lemma_query_stops_when_truncated(inputs, i + 1);
    }
}

/// Where a skill in the catalog comes from.
#[derive(Clone, Copy, Debug, PartialEq, Eq)]
pub enum SkillSourceKind {
    Host,
    Orchestrator,
    Executor,
    Plugin,
}

/// The parts of a skill catalog entry that candidate selection reads.
pub struct SkillCatalogEntry {
    /// Path or opaque resource id of the skill's main prompt.
    pub main_prompt: String,
    /// Whether the model may see this skill.
    pub model_visible: bool,
    pub kind: SkillSourceKind,
}

/// The cheap selectors the experiment runs side by side.
#[derive(Clone, Copy, Debug, PartialEq, Eq)]
pub enum ShadowSelectorMethod {
    WeightedLexical,
    FieldedBm25,
    CharacterNgram,
    MultiQueryLexical,
    RrfLexicalChar,
    RoutingCardLexical,
}

/// The shadow skill-selection experiment.
pub struct ShadowSelectionExperiment {
    pub selectors: Vec<ShadowSelectorMethod>,
}

/// Per-turn state of the experiment: the skills that could have been selected
/// (normalised resource to catalog position) and those already seen invoked.
pub struct ShadowSelectionTurnState {
    pub eligible_skill_ids_by_resource: StrMap<usize>,
    pub seen_skill_resources: StrMap<()>,
}

/// Whether a catalog entry is a selection candidate: visible to the model,
/// from the host or the orchestrator (the sources whose invocations are
/// observed), and not explicitly selected already.
pub open spec fn is_candidate(entry: SkillCatalogEntry, explicit: Map<Seq<char>, ()>) -> bool {
    &&& entry.model_visible
    &&& (entry.kind == SkillSourceKind::Host || entry.kind == SkillSourceKind::Orchestrator)
    &&& !explicit.contains_key(normalized_resource(entry.main_prompt@))
}

/// Candidate positions by normalised resource; a later entry with the same
/// resource replaces an earlier one.
pub open spec fn candidates_by_resource(
    entries: Seq<SkillCatalogEntry>,
    explicit: Map<Seq<char>, ()>,
) -> Map<Seq<char>, usize>
    decreases entries.len(),
{
    if entries.len() == 0 {
        Map::empty()
    } else {
        let m = candidates_by_resource(entries.drop_last(), explicit);
        if is_candidate(entries.last(), explicit) {
            m.insert(normalized_resource(entries.last().main_prompt@), (entries.len() - 1) as usize)
        } else {
            m
        }
    }
}

/// The normalised resources of a list of entries.
pub open spec fn resources_of(entries: Seq<SkillCatalogEntry>) -> Map<Seq<char>, ()>
    decreases entries.len(),
{
    if entries.len() == 0 {
        Map::empty()
    } else {
        resources_of(entries.drop_last()).insert(
            normalized_resource(entries.last().main_prompt@),
            (),
        )
    }
}

/// Only skills that the model sees and that come from the host or the
/// orchestrator are selection candidates: every resource of the candidate
/// map is the normalised resource of such a catalog entry, at the position
/// the map gives, and was not explicitly selected.
pub proof fn candidates_come_from_observed_sources(
    entries: Seq<SkillCatalogEntry>,
    explicit: Map<Seq<char>, ()>,
    r: Seq<char>,
)
    requires
        entries.len() <= usize::MAX,
    ensures
        candidates_by_resource(entries, explicit).contains_key(r) ==> {
            let i = candidates_by_resource(entries, explicit)[r] as int;
            &&& 0 <= i < entries.len()
            &&& entries[i].model_visible
            &&& (entries[i].kind == SkillSourceKind::Host || entries[i].kind
                == SkillSourceKind::Orchestrator)
            &&& normalized_resource(entries[i].main_prompt@) == r
            &&& !explicit.contains_key(r)
        },
    decreases entries.len(),
{
    if entries.len() > 0 {
        let p = entries.drop_last();
        candidates_come_from_observed_sources(p, explicit, r);
        let m = candidates_by_resource(p, explicit);
        if m.contains_key(r) {
            let i = m[r] as int;
            assert(entries[i] == p[i]);
        }
    }
}

impl ShadowSelectionExperiment {
    /// The experiment with its six text selectors.
    pub fn new() -> (e: Self)
        ensures
            e.selectors@ == seq![
                ShadowSelectorMethod::WeightedLexical,
                ShadowSelectorMethod::FieldedBm25,
                ShadowSelectorMethod::CharacterNgram,
                ShadowSelectorMethod::MultiQueryLexical,
                ShadowSelectorMethod::RrfLexicalChar,
                ShadowSelectorMethod::RoutingCardLexical,
            ],
    {
        ShadowSelectionExperiment {
            selectors: vec![
                ShadowSelectorMethod::WeightedLexical,
                ShadowSelectorMethod::FieldedBm25,
                ShadowSelectorMethod::CharacterNgram,
                ShadowSelectorMethod::MultiQueryLexical,
                ShadowSelectorMethod::RrfLexicalChar,
                ShadowSelectorMethod::RoutingCardLexical,
            ],
        }
    }

    /// Starts a turn: finds the catalog entries that are selection candidates
    /// and returns the turn state with nothing seen yet.
    pub fn run(
        &self,
        catalog: &Vec<SkillCatalogEntry>,
        explicitly_selected: &Vec<SkillCatalogEntry>,
    ) -> (state: ShadowSelectionTurnState)
        ensures
            state.eligible_skill_ids_by_resource@ == candidates_by_resource(
                catalog@,
                resources_of(explicitly_selected@),
            ),
            state.seen_skill_resources@ == Map::<Seq<char>, ()>::empty(),
    {
        let mut explicit: StrMap<()> = StrMap::new();
        let m = explicitly_selected.len();
        let mut j: usize = 0;
        while j < m
            invariant
                m == explicitly_selected@.len(),
                j <= m,
                explicit@ == resources_of(explicitly_selected@.subrange(0, j as int)),
            decreases m - j,
        {
            let resource = normalize_skill_resource(explicitly_selected[j].main_prompt.as_str());
            explicit.insert(resource, ());
            proof {
                assert(explicitly_selected@.subrange(0, j + 1).drop_last()
                    =~= explicitly_selected@.subrange(0, j as int));
            }
            j = j + 1;
        }
        proof {
            assert(explicitly_selected@.subrange(0, m as int) =~= explicitly_selected@);
        }
        let mut eligible: StrMap<usize> = StrMap::new();
        let n = catalog.len();
        let mut i: usize = 0;
        while i < n
            invariant
                n == catalog@.len(),
                i <= n,
                explicit@ == resources_of(explicitly_selected@),
                eligible@ == candidates_by_resource(
                    catalog@.subrange(0, i as int),
                    resources_of(explicitly_selected@),
                ),
            decreases n - i,
        {
            let entry = &catalog[i];
            let resource = normalize_skill_resource(entry.main_prompt.as_str());
            let from_observed_source = match entry.kind {
                SkillSourceKind::Host | SkillSourceKind::Orchestrator => true,
                _ => false,
            };
            if entry.model_visible && from_observed_source && !explicit.contains_key(
                resource.as_str(),
            ) {
                eligible.insert(resource, i);
            }
            proof {
                let next = catalog@.subrange(0, i + 1);
                assert(next.drop_last() =~= catalog@.subrange(0, i as int));
                assert(next.last() == catalog@[i as int]);
            }
            i = i + 1;
        }
        proof {
            assert(catalog@.subrange(0, n as int) =~= catalog@);
        }
        ShadowSelectionTurnState { eligible_skill_ids_by_resource: eligible, seen_skill_resources: StrMap::new() }
    }

    /// Notes an invocation of `skill_resource` during the turn: an eligible
    /// skill seen for the first time this turn is marked seen and recorded as
    /// the most recent invocation; anything else changes nothing.
    pub fn record_invocation(
        &self,
        state: &mut ShadowSelectionTurnState,
        recent: &mut RecentSkillInvocations,
        skill_resource: &str,
    )
        ensures
            ({
                let r = normalized_resource(skill_resource@);
                if old(state).eligible_skill_ids_by_resource@.contains_key(r)
                    && !old(state).seen_skill_resources@.contains_key(r) {
                    &&& final(state).seen_skill_resources@ == old(state).seen_skill_resources@.insert(r, ())
                    &&& texts(final(recent).skill_resources@) == recorded(
                        texts(old(recent).skill_resources@),
                        r,
                    )
                } else {
                    &&& final(state).seen_skill_resources@ == old(state).seen_skill_resources@
                    &&& final(recent).skill_resources@ == old(recent).skill_resources@
                }
            }),
            final(state).eligible_skill_ids_by_resource@ == old(
                state,
            ).eligible_skill_ids_by_resource@,
    {
        let resource = normalize_skill_resource(skill_resource);
        if !state.eligible_skill_ids_by_resource.contains_key(resource.as_str()) {
            return;
        }
        if state.seen_skill_resources.contains_key(resource.as_str()) {
            return;
        }
        let key = resource.clone();
        state.seen_skill_resources.insert(key, ());
        recent.record(resource.as_str());
    }
}

} // verus!
