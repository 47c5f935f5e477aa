//! `codexium/providers/check`: which providers to probe, what to request of
//! each, and how an HTTP status reads as a provider status.

use vstd::prelude::*;
use vstd::string::StringExecFns;
use vstd::string::StrSliceExecFns;

use crate::codexium::{CodexiumModelsFile, OPENAI_PROVIDER_ID};
use crate::protocol::{CodexiumProviderStatus, CodexiumProvidersCheckParams};
use crate::str_map::StrMap;
use crate::text::{concat_strs, push_char, str_eq, texts};

verus! {

/// The message of a provider id that names no stored provider.
pub const PROVIDER_NOT_CONFIGURED_MESSAGE: &'static str = "provider not configured";

/// The message of a provider without a base URL.
pub const NO_BASE_URL_MESSAGE: &'static str = "no base URL configured";

/// The path probed under a provider's base URL.
pub const MODELS_ENDPOINT_PATH: &'static str = "/models";

/// What checking one provider asks for.
pub enum ProviderCheckTarget {
    /// The id names no stored provider.
    NotConfigured,
    /// The provider has no base URL, or an empty one.
    NoBaseUrl,
    /// A GET of `url`, authorized by the stored API key, or without one by the
    /// environment variable `env_key` when it is set.
    Endpoint { url: String, api_key: Option<String>, env_key: Option<String> },
}

/// How a provider answered the probe.
#[derive(PartialEq, Eq, Structural, Clone, Copy, Debug)]
pub enum CheckVerdict {
    /// `200`: the key is accepted.
    Accepted,
    /// `401` or `403`: the key is refused.
    Unauthorized,
    /// `404`: the endpoint does not exist.
    NotFound,
    /// Any other status: the provider answered, successfully only with a
    /// `2xx` status.
    Responded,
}

/// `s` without its trailing `/` characters.
pub open spec fn trim_trailing_slashes(s: Seq<char>) -> Seq<char>
    decreases s.len(),
{
    if s.len() > 0 && s.last() == '/' {
        trim_trailing_slashes(s.drop_last())
    } else {
        s
    }
}

/// The probe URL of a base URL: the base without trailing slashes, then `/models`.
pub open spec fn models_endpoint_of(base: Seq<char>) -> Seq<char> {
    trim_trailing_slashes(base) + MODELS_ENDPOINT_PATH@
}

/// The verdict of an HTTP status code.
pub open spec fn verdict_of(code: u16) -> CheckVerdict {
    if code == 200 {
        CheckVerdict::Accepted
    } else if code == 401 || code == 403 {
        CheckVerdict::Unauthorized
    } else if code == 404 {
        CheckVerdict::NotFound
    } else {
        CheckVerdict::Responded
    }
}

/// Whether the API answered successfully: a `2xx` status.
pub open spec fn status_ok(code: u16) -> bool {
    200 <= code && code < 300
}

/// The character of a decimal digit.
pub open spec fn digit_char(d: nat) -> char {
    if d == 0 {
        '0'
    } else if d == 1 {
        '1'
    } else if d == 2 {
        '2'
    } else if d == 3 {
        '3'
    } else if d == 4 {
        '4'
    } else if d == 5 {
        '5'
    } else if d == 6 {
        '6'
    } else if d == 7 {
        '7'
    } else if d == 8 {
        '8'
    } else {
        '9'
    }
}

/// The decimal notation of `n`, without leading zeros.
pub open spec fn decimal_text(n: nat) -> Seq<char>
    decreases n,
{
    if n < 10 {
        seq![digit_char(n)]
    } else {
        decimal_text(n / 10).push(digit_char(n % 10))
    }
}

/// The message of a status code `code` whose display text is `shown`.
pub open spec fn check_message_of(code: u16, shown: Seq<char>) -> Seq<char> {
    match verdict_of(code) {
        CheckVerdict::Accepted => "OK ("@ + shown + ")"@,
        CheckVerdict::Unauthorized => "unauthorized ("@ + shown + ")"@,
        CheckVerdict::NotFound => "not found ("@ + shown + ")"@,
        CheckVerdict::Responded => "responded ("@ + decimal_text(code as nat) + ")"@,
    }
}

/// The ids that a check covers: the one asked for, or every stored provider
/// but `openai`.
pub open spec fn is_check_list(
    ids: Seq<Seq<char>>,
    file: CodexiumModelsFile,
    params: CodexiumProvidersCheckParams,
) -> bool {
    match params.provider_id {
        Some(id) => ids == seq![id@],
        None => {
            &&& ids.no_duplicates()
            &&& forall|k: Seq<char>|
                #[trigger] ids.contains(k) <==> (file.providers@.contains_key(k) && k
                    != OPENAI_PROVIDER_ID@)
        },
    }
}

/// The ids of the providers that `codexium/providers/check` probes.
pub fn provider_ids_to_check(file: &CodexiumModelsFile, params: &CodexiumProvidersCheckParams) -> (ids:
    Vec<String>)
    ensures
        is_check_list(texts(ids@), *file, *params),
{
    match &params.provider_id {
        Some(id) => {
            let ids = vec![id.clone()];
            proof {
                assert(texts(ids@) =~= seq![id@]);
            }
            ids
        },
        None => {
            proof {
                reveal_strlit("openai");
            }
            let n = file.providers.len();
            let mut ids: Vec<String> = Vec::new();
            let mut i: usize = 0;
            while i < n
                invariant
                    n == file.providers.keys().len(),
                    file.providers.keys().no_duplicates(),
                    file.providers@.dom() == file.providers.keys().to_set(),
                    i <= n,
                    texts(ids@).no_duplicates(),
                    forall|k: Seq<char>|
                        #[trigger] texts(ids@).contains(k) <==> (exists|j: int|
                            0 <= j < i && file.providers.keys()[j] == k && k
                                != OPENAI_PROVIDER_ID@),
                decreases n - i,
            {
                let key = file.providers.key_at(i);
                let ghost before = texts(ids@);
                if !str_eq(key.as_str(), OPENAI_PROVIDER_ID) {
                    ids.push(key.clone());
                    proof {
                        let after = texts(ids@);
                        assert(after =~= before.push(key@));
                        assert(!before.contains(key@)) by {
                            if before.contains(key@) {
                                let j = choose|j: int|
                                    0 <= j < i && file.providers.keys()[j] == key@ && key@
                                        != OPENAI_PROVIDER_ID@;
                                assert(file.providers.keys()[j] == file.providers.keys()[i as int]);
                            }
                        }
                        assert forall|k: Seq<char>| #[trigger]
                            after.contains(k) <==> (exists|j: int|
                                0 <= j < i + 1 && file.providers.keys()[j] == k && k
                                    != OPENAI_PROVIDER_ID@) by {
                            if after.contains(k) {
                                let x = choose|x: int| 0 <= x < after.len() && after[x] == k;
                                if x < before.len() {
                                    assert(before.contains(k));
                                } else {
                                    assert(file.providers.keys()[i as int] == k);
                                }
                            }
                            if exists|j: int|
                                0 <= j < i + 1 && file.providers.keys()[j] == k && k
                                    != OPENAI_PROVIDER_ID@ {
                                let j = choose|j: int|
                                    0 <= j < i + 1 && file.providers.keys()[j] == k && k
                                        != OPENAI_PROVIDER_ID@;
                                if j < i {
                                    assert(before.contains(k));
                                    let x = choose|x: int| 0 <= x < before.len() && before[x] == k;
                                    assert(after[x] == k);
                                } else {
                                    assert(after[before.len() as int] == k);
                                }
                            }
                        }
                    }
                } else {
                    proof {
                        assert forall|k: Seq<char>| #[trigger]
                            before.contains(k) <==> (exists|j: int|
                                0 <= j < i + 1 && file.providers.keys()[j] == k && k
                                    != OPENAI_PROVIDER_ID@) by {
                            if exists|j: int|
                                0 <= j < i + 1 && file.providers.keys()[j] == k && k
                                    != OPENAI_PROVIDER_ID@ {
                                let j = choose|j: int|
                                    0 <= j < i + 1 && file.providers.keys()[j] == k && k
                                        != OPENAI_PROVIDER_ID@;
                                assert(j < i);
                            }
                        }
                    }
                }
                i = i + 1;
            }
            proof {
                let v = texts(ids@);
                assert forall|k: Seq<char>| #[trigger]
                    v.contains(k) <==> (file.providers@.contains_key(k) && k
                        != OPENAI_PROVIDER_ID@) by {
                    if file.providers@.contains_key(k) && k != OPENAI_PROVIDER_ID@ {
                        assert(file.providers.keys().to_set().contains(k));
                        let j = choose|j: int|
                            0 <= j < file.providers.keys().len() && file.providers.keys()[j] == k;
                        assert(file.providers.keys()[j] == k);
                    }
                    if v.contains(k) {
                        let j = choose|j: int|
                            0 <= j < n && file.providers.keys()[j] == k && k != OPENAI_PROVIDER_ID@;
                        assert(file.providers.keys().to_set().contains(k));
                    }
                }
            }
            ids
        },
    }
}

/// The probe URL of a base URL (`trim_end_matches('/')`, then `/models`).
pub fn models_endpoint(base: &str) -> (url: String)
    ensures
        url@ == models_endpoint_of(base@),
{
    let mut end = base.unicode_len();
    proof {
        assert(base@.subrange(0, end as int) =~= base@);
    }
    while end > 0 && base.get_char(end - 1) == '/'
        invariant
            end <= base@.len(),
            trim_trailing_slashes(base@.subrange(0, end as int)) == trim_trailing_slashes(base@),
        decreases end,
    {
        proof {
            let s = base@.subrange(0, end as int);
            assert(s.drop_last() =~= base@.subrange(0, end - 1));
        }
        end = end - 1;
    }
    proof {
        reveal_strlit("/models");
        let s = base@.subrange(0, end as int);
        if end > 0 {
            assert(s.last() == base@[end - 1]);
        }
    }
    let trimmed = base.substring_char(0, end);
    concat_strs(trimmed, MODELS_ENDPOINT_PATH)
}

/// What checking provider `id` asks for, from the loaded `models.json` and
/// `auth.json` providers.
pub fn check_target(file: &CodexiumModelsFile, auth: &StrMap<String>, id: &str) -> (t:
    ProviderCheckTarget)
    ensures
        !file.providers@.contains_key(id@) <==> t is NotConfigured,
        file.providers@.contains_key(id@) ==> {
            let p = file.providers@[id@];
            let base = match p.base_url {
                Some(b) => b@,
                None => Seq::<char>::empty(),
            };
            &&& base.len() == 0 <==> t is NoBaseUrl
            &&& t matches ProviderCheckTarget::Endpoint { url, api_key, env_key } ==> {
                &&& url@ == models_endpoint_of(base)
                &&& env_key == p.env_key
                &&& api_key == if auth@.contains_key(id@) {
                    Some(auth@[id@])
                } else {
                    None
                }
            }
        },
{
    match file.providers.get(id) {
        None => ProviderCheckTarget::NotConfigured,
        Some(provider) => {
            let empty = match &provider.base_url {
                Some(b) => b.as_str().unicode_len() == 0,
                None => true,
            };
            if empty {
                ProviderCheckTarget::NoBaseUrl
            } else {
                let url = match &provider.base_url {
                    Some(b) => models_endpoint(b.as_str()),
                    None => models_endpoint(""),
                };
                let api_key = match auth.get(id) {
                    Some(k) => Some(k.clone()),
                    None => None,
                };
                let env_key = match &provider.env_key {
                    Some(k) => Some(k.clone()),
                    None => None,
                };
                ProviderCheckTarget::Endpoint { url, api_key, env_key }
            }
        },
    }
}

/// The verdict of an HTTP status code of the probe.
pub fn check_verdict(code: u16) -> (v: CheckVerdict)
    ensures
        v == verdict_of(code),
{
    if code == 200 {
        CheckVerdict::Accepted
    } else if code == 401 || code == 403 {
        CheckVerdict::Unauthorized
    } else if code == 404 {
        CheckVerdict::NotFound
    } else {
        CheckVerdict::Responded
    }
}

fn digit_to_char(d: u64) -> (c: char)
    requires
        d < 10,
    ensures
        c == digit_char(d as nat),
{
    if d == 0 {
        '0'
    } else if d == 1 {
        '1'
    } else if d == 2 {
        '2'
    } else if d == 3 {
        '3'
    } else if d == 4 {
        '4'
    } else if d == 5 {
        '5'
    } else if d == 6 {
        '6'
    } else if d == 7 {
        '7'
    } else if d == 8 {
        '8'
    } else {
        '9'
    }
}

/// Appends the decimal notation of `n`.
pub fn push_decimal(s: &mut String, n: u64)
    ensures
        final(s)@ == old(s)@ + decimal_text(n as nat),
    decreases n,
{
    if n >= 10 {
        push_decimal(s, n / 10);
    }
    let c = digit_to_char(n % 10);
    push_char(s, c);
    proof {
        if n < 10 {
            assert(n % 10 == n);
        }
    }
}

/// Whether the probe that answered `code` found a working provider (the API
/// answered successfully, with a `2xx` status), and the message for it;
/// `shown` is the status as displayed (code and reason).
pub fn check_message(code: u16, shown: &str) -> (r: (bool, String))
    ensures
        r.0 == status_ok(code),
        r.1@ == check_message_of(code, shown@),
{
    proof {
        reveal_strlit("OK (");
        reveal_strlit("unauthorized (");
        reveal_strlit("not found (");
        reveal_strlit("responded (");
        reveal_strlit(")");
    }
    let v = check_verdict(code);
    match v {
        CheckVerdict::Accepted => {
            let mut m = "OK (".to_owned();
            m.append(shown);
            m.append(")");
            (true, m)
        },
        CheckVerdict::Unauthorized => {
            let mut m = "unauthorized (".to_owned();
            m.append(shown);
            m.append(")");
            (false, m)
        },
        CheckVerdict::NotFound => {
            let mut m = "not found (".to_owned();
            m.append(shown);
            m.append(")");
            (false, m)
        },
        CheckVerdict::Responded => {
            let mut m = "responded (".to_owned();
            push_decimal(&mut m, code as u64);
            m.append(")");
            (200 <= code && code < 300, m)
        },
    }
}

/// The latency reported for a check that took `elapsed_ms` milliseconds:
/// never negative, saturating at `i64::MAX`.
pub open spec fn latency_of(elapsed_ms: u128) -> i64 {
    if elapsed_ms <= i64::MAX {
        elapsed_ms as i64
    } else {
        i64::MAX
    }
}

/// The status reported for a provider: `target` is what checking it asked
/// for, `probe` the answer of the request (status code and its display text,
/// or the transport error) when the target asked for one, `elapsed_ms` the
/// time the check took in milliseconds (reported as a latency that
/// saturates at `i64::MAX`) and `checked_at` when it ran (Unix seconds). An id with
/// no stored provider fails with no latency; a provider without a base URL
/// fails without a request; otherwise the answer decides.
pub fn provider_status(
    provider_id: String,
    target: &ProviderCheckTarget,
    probe: Option<Result<(u16, String), String>>,
    elapsed_ms: u128,
    checked_at: i64,
) -> (s: CodexiumProviderStatus)
    requires
        (target is Endpoint) == (probe is Some),
    ensures
        s.provider_id == provider_id,
        s.checked_at == checked_at,
        match *target {
            ProviderCheckTarget::NotConfigured => {
                &&& !s.ok
                &&& s.message@ == PROVIDER_NOT_CONFIGURED_MESSAGE@
                &&& s.latency_ms == 0
            },
            ProviderCheckTarget::NoBaseUrl => {
                &&& !s.ok
                &&& s.message@ == NO_BASE_URL_MESSAGE@
                &&& s.latency_ms == latency_of(elapsed_ms)
            },
            ProviderCheckTarget::Endpoint { .. } => {
                &&& s.latency_ms == latency_of(elapsed_ms)
                &&& match probe {
                    Some(Ok(answer)) => s.ok == status_ok(answer.0) && s.message@ == check_message_of(
                        answer.0,
                        answer.1@,
                    ),
                    Some(Err(e)) => !s.ok && s.message == e,
                    None => false,
                }
            },
        },
{
    let latency_ms: i64 = if elapsed_ms <= 9223372036854775807u128 {
        elapsed_ms as i64
    } else {
        i64::MAX
    };
    match target {
        ProviderCheckTarget::NotConfigured => CodexiumProviderStatus {
            provider_id,
            ok: false,
            message: PROVIDER_NOT_CONFIGURED_MESSAGE.to_owned(),
            latency_ms: 0,
            checked_at,
        },
        ProviderCheckTarget::NoBaseUrl => CodexiumProviderStatus {
            provider_id,
            ok: false,
            message: NO_BASE_URL_MESSAGE.to_owned(),
            latency_ms,
            checked_at,
        },
        ProviderCheckTarget::Endpoint { .. } => {
            let (ok, message) = match probe {
                Some(Ok((code, shown))) => check_message(code, shown.as_str()),
                Some(Err(e)) => (false, e),
                None => (false, String::new()),
            };
            CodexiumProviderStatus { provider_id, ok, message, latency_ms, checked_at }
        },
    }
}

/// The `Authorization` header value for an API key.
pub fn bearer_value(key: &str) -> (v: String)
    ensures
        v@ == "Bearer "@ + key@,
{
    proof {
        reveal_strlit("Bearer ");
    }
    concat_strs("Bearer ", key)
}

} // verus!
