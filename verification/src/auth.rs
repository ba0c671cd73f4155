//! The authorization gate: the single decision consulted by every query and
//! mutation before any read or write happens.

use vstd::prelude::*;
use vstd::string::*;

use crate::errors::CoreError;
use crate::text::str_eq;

verus! {

/// ASCII whitespace, as trimmed from the credential header.
pub open spec fn is_space_char(c: char) -> bool {
    c == ' ' || c == '\t' || c == '\n' || c == '\r' || c == '\u{c}'
}

fn exec_is_space(c: char) -> (r: bool)
    ensures
        r == is_space_char(c),
{
    c == ' ' || c == '\t' || c == '\n' || c == '\r' || c == '\u{c}'
}

/// Leading ASCII whitespace removed.
pub open spec fn spec_trim_lead_ws(s: Seq<char>) -> Seq<char>
    decreases s.len(),
{
    if s.len() > 0 && is_space_char(s.first()) {
        spec_trim_lead_ws(s.drop_first())
    } else {
        s
    }
}

/// Trailing ASCII whitespace removed.
pub open spec fn spec_trim_trail_ws(s: Seq<char>) -> Seq<char>
    decreases s.len(),
{
    if s.len() > 0 && is_space_char(s.last()) {
        spec_trim_trail_ws(s.drop_last())
    } else {
        s
    }
}

/// ASCII whitespace removed from both ends.
pub open spec fn spec_trim_ws(s: Seq<char>) -> Seq<char> {
    spec_trim_lead_ws(spec_trim_trail_ws(s))
}

/// Strip ASCII whitespace from both ends of a credential.
pub fn trim_spaces(s: &str) -> (r: &str)
    ensures
        r@ == spec_trim_ws(s@),
{
    let n = s.unicode_len();
    proof {
        assert(s@.take(n as int) =~= s@);
    }
    let ghost trail_target = spec_trim_trail_ws(s@);
    let mut end: usize = n;
    while end > 0 && exec_is_space(s.get_char(end - 1))
        invariant
            n == s@.len(),
            end <= n,
            spec_trim_trail_ws(s@.take(end as int)) == trail_target,
        decreases end,
    {
        proof {
            assert(s@.take(end as int).last() == s@[end as int - 1]);
            assert(s@.take(end as int).drop_last() =~= s@.take(end as int - 1));
        }
        end = end - 1;
    }
    proof {
        let cut = s@.take(end as int);
        if end > 0 {
            assert(cut.last() == s@[end as int - 1]);
        }
        assert(spec_trim_trail_ws(cut) == cut);
        assert(cut.skip(0) =~= cut);
    }
    let ghost target = spec_trim_lead_ws(trail_target);
    let mut start: usize = 0;
    while start < end && exec_is_space(s.get_char(start))
        invariant
            n == s@.len(),
            start <= end <= n,
            spec_trim_lead_ws(s@.take(end as int).skip(start as int)) == target,
        decreases end - start,
    {
        proof {
            let cur = s@.take(end as int).skip(start as int);
            assert(cur.first() == s@[start as int]);
            assert(cur.drop_first() =~= s@.take(end as int).skip(start as int + 1));
        }
        start = start + 1;
    }
    proof {
        let cur = s@.take(end as int).skip(start as int);
        if start < end {
            assert(cur.first() == s@[start as int]);
            assert(spec_trim_lead_ws(cur) == cur);
        } else {
            assert(cur =~= Seq::<char>::empty());
            assert(spec_trim_lead_ws(cur) == cur);
        }
    }
    let r = s.substring_char(start, end);
    proof {
        assert(r@ =~= s@.take(end as int).skip(start as int));
    }
    r
}

/// The conventional bearer-prefixed form of a shared secret.
pub open spec fn spec_bearer(key: Seq<char>) -> Seq<char> {
    "Bearer "@ + key
}

/// Whether a request is authorized, per the deployment policy:
/// - with the authorization requirement disabled, always;
/// - otherwise the credential must be present and non-blank;
/// - and if a shared secret is configured, the trimmed credential must equal
///   the secret verbatim or in bearer-prefixed form.
pub open spec fn spec_authorized(
    require_auth: bool,
    credential: Option<Seq<char>>,
    api_key: Option<Seq<char>>,
) -> bool {
    if !require_auth {
        true
    } else {
        match credential {
            None => false,
            Some(c) => {
                let t = spec_trim_ws(c);
                if t.len() == 0 {
                    false
                } else {
                    match api_key {
                        None => true,
                        Some(k) => t == k || t == spec_bearer(k),
                    }
                }
            },
        }
    }
}

/// The character view of an optional string.
pub open spec fn view_opt(s: Option<&str>) -> Option<Seq<char>> {
    match s {
        None => None,
        Some(v) => Some(v@),
    }
}

/// Decide whether a request may proceed, from the deployment's authorization
/// requirement, the raw credential header (if one parsed), and the
/// configured shared secret (if any).
pub fn is_authorized(require_auth: bool, credential: Option<&str>, api_key: Option<&str>) -> (r:
    bool)
    ensures
        r == spec_authorized(require_auth, view_opt(credential), view_opt(api_key)),
{
    if !require_auth {
        return true;
    }
    let raw = match credential {
        None => {
            return false;
        },
        Some(c) => c,
    };
    let trimmed = trim_spaces(raw);
    if trimmed.is_empty() {
        return false;
    }
    match api_key {
        None => true,
        Some(key) => {
            if str_eq(trimmed, key) {
                return true;
            }
            let mut bearer = "Bearer ".to_owned();
            bearer.append(key);
            str_eq(trimmed, bearer.as_str())
        },
    }
}

/// Gate an inbound operation: `Err(Unauthorized)` unless authorization is
/// disabled or the transport marked the request authorized.
pub fn ensure_auth(require_auth: bool, request_authorized: Option<bool>) -> (r: Result<
    (),
    CoreError,
>)
    ensures
        (!require_auth || request_authorized == Some(true)) ==> r == Ok::<(), CoreError>(()),
        (require_auth && request_authorized != Some(true)) ==> r == Err::<(), CoreError>(
            CoreError::Unauthorized,
        ),
{
    if !require_auth {
        return Ok(());
    }
    match request_authorized {
        Some(true) => Ok(()),
        _ => Err(CoreError::Unauthorized),
    }
}

/// With authorization required and no shared secret configured, exactly the
/// requests carrying a credential that is non-blank after trimming are
/// authorized; an absent or blank credential never is.
pub proof fn lemma_auth_without_secret(credential: Option<Seq<char>>)
    ensures
        spec_authorized(true, credential, None) <==> match credential {
            Some(c) => spec_trim_ws(c).len() > 0,
            None => false,
        },
{
}

} // verus!
