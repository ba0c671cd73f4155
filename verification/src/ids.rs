//! Identifier allocation: opaque ids, team-scoped sequential issue numbers,
//! the human-readable `KEY-n` identifiers, and derived entity URLs.

use vstd::prelude::*;
use vstd::string::*;

use crate::digits::{lemma_dec_injective, spec_dec, u64_to_dec};
use crate::text::{is_digit_char, spec_starts_with, spec_trim_trailing_slash, trim_trailing_slash};

verus! {

/// Relies on `uuid::Uuid::new_v4` and its `simple` formatter: a random
/// version-4 UUID renders as 32 lowercase hexadecimal characters, of which
/// the first 12 are kept. The token is random, so nothing relates two calls.
#[verifier::external_body]
pub(crate) fn short_id() -> (r: String)
    ensures
        r@.len() == 12,
        forall|i: int|
            0 <= i < r@.len() ==> is_digit_char(#[trigger] r@[i]) || ('a' <= r@[i] && r@[i]
                <= 'f'),
{
    uuid::Uuid::new_v4().simple().to_string()[..12].to_string()
}

/// Relies on `chrono::Utc::now` and `DateTime::to_rfc3339`: the current
/// instant rendered in RFC 3339 form, never empty. The value depends on the
/// clock, so nothing more is stated.
#[verifier::external_body]
pub(crate) fn now_iso() -> (r: String)
    ensures
        r@.len() > 0,
{
    chrono::Utc::now().to_rfc3339()
}

/// Allocate an opaque id: the prefix, an underscore, and a 12-character
/// random token. Collisions are never checked; the token space makes them
/// negligible.
pub fn new_opaque_id(prefix: &str) -> (r: String)
    ensures
        r@.len() == prefix@.len() + 13,
        spec_starts_with(r@, prefix@ + seq!['_']),
{
    let token = short_id();
    let mut r = prefix.to_owned();
    r.append("_");
    proof {
        reveal_strlit("_");
        assert("_"@ =~= seq!['_']);
    }
    r.append(token.as_str());
    proof {
        assert((prefix@ + seq!['_'] + token@).take((prefix@ + seq!['_']).len() as int) =~= prefix@
            + seq!['_']);
    }
    r
}

/// The next sequential issue number for a team: one past the maximum
/// already assigned, so the first issue gets number 1.
pub fn next_issue_number(max_existing: i64) -> (n: i64)
    requires
        0 <= max_existing < i64::MAX,
    ensures
        n == max_existing + 1,
{
    max_existing + 1
}

/// Numbers drawn sequentially (each call seeing the previous call's result
/// as the maximum) are exactly 1, 2, 3, ...: strictly increasing, pairwise
/// distinct, starting at 1.
pub proof fn lemma_issue_numbers_sequential(s: Seq<int>)
    requires
        s.len() > 0,
        s[0] == 1,
        forall|i: int| 0 <= i < s.len() - 1 ==> s[i + 1] == #[trigger] s[i] + 1,
    ensures
        forall|i: int| 0 <= i < s.len() ==> #[trigger] s[i] == i + 1,
        forall|i: int, j: int| 0 <= i < j < s.len() ==> s[i] < s[j],
    decreases s.len(),
{
    if s.len() > 1 {
        let p = s.drop_last();
        assert forall|i: int| 0 <= i < p.len() - 1 implies p[i + 1] == #[trigger] p[i] + 1 by {
            assert(s[i + 1] == s[i] + 1);
        }
        lemma_issue_numbers_sequential(p);
        assert forall|i: int| 0 <= i < s.len() implies #[trigger] s[i] == i + 1 by {
            if i < s.len() - 1 {
                assert(s[i] == p[i]);
            } else {
                assert(p[i - 1] == s[i - 1]);
                assert(p[i - 1] == i);
                assert(s[i] == s[i - 1] + 1);
            }
        }
    }
}

/// The human-readable issue identifier `{key}-{number}`.
pub open spec fn spec_identifier(key: Seq<char>, number: nat) -> Seq<char> {
    key + seq!['-'] + spec_dec(number)
}

/// Format a team-scoped issue identifier from the team key and the issue
/// number.
pub fn format_identifier(key: &str, number: u64) -> (r: String)
    ensures
        r@ == spec_identifier(key@, number as nat),
{
    let mut r = key.to_owned();
    r.append("-");
    proof {
        reveal_strlit("-");
        assert("-"@ =~= seq!['-']);
    }
    let digits = u64_to_dec(number);
    r.append(digits.as_str());
    r
}

/// Within one team (one key), distinct issue numbers yield distinct
/// identifiers.
pub proof fn lemma_identifier_injective(key: Seq<char>, a: nat, b: nat)
    requires
        spec_identifier(key, a) == spec_identifier(key, b),
    ensures
        a == b,
{
    let pa = key + seq!['-'];
    assert(spec_dec(a) =~= spec_identifier(key, a).skip(pa.len() as int));
    assert(spec_dec(b) =~= spec_identifier(key, b).skip(pa.len() as int));
    lemma_dec_injective(a, b);
}

/// The URL of an entity: the base address with trailing slashes stripped,
/// the path segment for the entity kind, and the entity's id or identifier.
pub open spec fn spec_entity_url(base: Seq<char>, segment: Seq<char>, id: Seq<char>) -> Seq<
    char,
> {
    spec_trim_trailing_slash(base) + segment + id
}

/// Build the URL for a created project.
pub fn project_url(base: &str, id: &str) -> (r: String)
    ensures
        r@ == spec_entity_url(base@, "/project/"@, id@),
{
    let mut r = trim_trailing_slash(base).to_owned();
    r.append("/project/");
    r.append(id);
    r
}

/// Build the URL for a created issue, addressed by its identifier.
pub fn issue_url(base: &str, identifier: &str) -> (r: String)
    ensures
        r@ == spec_entity_url(base@, "/issue/"@, identifier@),
{
    let mut r = trim_trailing_slash(base).to_owned();
    r.append("/issue/");
    r.append(identifier);
    r
}

/// Build the URL for a created comment.
pub fn comment_url(base: &str, id: &str) -> (r: String)
    ensures
        r@ == spec_entity_url(base@, "/comment/"@, id@),
{
    let mut r = trim_trailing_slash(base).to_owned();
    r.append("/comment/");
    r.append(id);
    r
}

} // verus!
