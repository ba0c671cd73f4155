//! Character-level text helpers: URL-slug derivation, team-key sanitizing,
//! and small string trims shared by the rest of the crate.

use vstd::prelude::*;
use vstd::string::*;

verus! {

/// ASCII decimal digit.
pub open spec fn is_digit_char(c: char) -> bool {
    '0' <= c && c <= '9'
}

/// ASCII lowercase letter.
pub open spec fn is_lower_char(c: char) -> bool {
    'a' <= c && c <= 'z'
}

/// ASCII uppercase letter.
pub open spec fn is_upper_char(c: char) -> bool {
    'A' <= c && c <= 'Z'
}

/// ASCII letter or digit.
pub open spec fn is_alnum_char(c: char) -> bool {
    is_digit_char(c) || is_lower_char(c) || is_upper_char(c)
}

/// An uppercase ASCII letter mapped to lowercase; everything else unchanged.
pub open spec fn to_lower_char(c: char) -> char {
    if is_upper_char(c) {
        ((c as u32) + 32) as char
    } else {
        c
    }
}

/// A lowercase ASCII letter mapped to uppercase; everything else unchanged.
pub open spec fn to_upper_char(c: char) -> char {
    if is_lower_char(c) {
        ((c as u32) - 32) as char
    } else {
        c
    }
}

fn exec_is_alnum(c: char) -> (r: bool)
    ensures
        r == is_alnum_char(c),
{
    ('0' <= c && c <= '9') || ('a' <= c && c <= 'z') || ('A' <= c && c <= 'Z')
}

/// Bytes below 128 read as the characters they encode in ASCII.
pub open spec fn bytes_as_chars(b: Seq<u8>) -> Seq<char> {
    b.map_values(|x: u8| x as char)
}

/// Relies on `String::from_utf8`: a sequence of ASCII bytes is valid UTF-8
/// and decodes to exactly the characters with the same code points.
#[verifier::external_body]
fn ascii_bytes_to_string(v: Vec<u8>) -> (r: String)
    requires
        forall|i: int| 0 <= i < v@.len() ==> v@[i] < 128,
    ensures
        r@ == bytes_as_chars(v@),
{
    String::from_utf8(v).unwrap_or_default()
}

/// The raw slug of `s`: ASCII alphanumerics lowercased, every run of other
/// characters collapsed into a single hyphen.
pub open spec fn spec_slug_raw(s: Seq<char>) -> Seq<char>
    decreases s.len(),
{
    if s.len() == 0 {
        Seq::<char>::empty()
    } else {
        let r = spec_slug_raw(s.drop_last());
        let c = s.last();
        if is_alnum_char(c) {
            r.push(to_lower_char(c))
        } else if r.len() > 0 && r.last() == '-' {
            r
        } else {
            r.push('-')
        }
    }
}

/// Leading hyphens removed.
pub open spec fn spec_trim_lead_dash(s: Seq<char>) -> Seq<char>
    decreases s.len(),
{
    if s.len() > 0 && s.first() == '-' {
        spec_trim_lead_dash(s.drop_first())
    } else {
        s
    }
}

/// Trailing hyphens removed.
pub open spec fn spec_trim_trail_dash(s: Seq<char>) -> Seq<char>
    decreases s.len(),
{
    if s.len() > 0 && s.last() == '-' {
        spec_trim_trail_dash(s.drop_last())
    } else {
        s
    }
}

/// The fallback slug used when a name yields nothing slug-worthy.
pub open spec fn spec_fallback_slug() -> Seq<char> {
    seq!['p', 'r', 'o', 'j', 'e', 'c', 't']
}

/// The slug derived from a project name: lowercased alphanumerics with runs
/// of other characters collapsed to single hyphens, outer hyphens trimmed,
/// and the literal fallback when that leaves nothing.
pub open spec fn spec_slugify(s: Seq<char>) -> Seq<char> {
    let t = spec_trim_lead_dash(spec_trim_trail_dash(spec_slug_raw(s)));
    if t.len() == 0 {
        spec_fallback_slug()
    } else {
        t
    }
}

/// Derive a URL-safe slug from a display name.
pub fn slugify(input: &str) -> (r: String)
    ensures
        r@ == spec_slugify(input@),
        r@.len() > 0,
{
    let n = input.unicode_len();
    let mut out: Vec<u8> = Vec::new();
    let mut prev_dash = false;
    for i in 0..n
        invariant
            n == input@.len(),
            bytes_as_chars(out@) == spec_slug_raw(input@.take(i as int)),
            forall|j: int| 0 <= j < out@.len() ==> out@[j] < 128,
            prev_dash == (out@.len() > 0 && out@.last() == ('-' as u8)),
    {
        let c = input.get_char(i);
        proof {
            assert(input@.take(i as int + 1).drop_last() =~= input@.take(i as int));
            assert(input@.take(i as int + 1).last() == c);
        }
        if exec_is_alnum(c) {
            let u: u32 = c as u32;
            let b: u8 = if 'A' <= c && c <= 'Z' {
                (u + 32) as u8
            } else {
                u as u8
            };
            assert(b as char == to_lower_char(c));
            out.push(b);
            prev_dash = false;
            proof {
                assert(bytes_as_chars(out@) =~= spec_slug_raw(input@.take(i as int)).push(
                    to_lower_char(c),
                ));
            }
        } else if !prev_dash {
            out.push('-' as u8);
            prev_dash = true;
            proof {
                assert(bytes_as_chars(out@) =~= spec_slug_raw(input@.take(i as int)).push('-'));
            }
        } else {
            proof {
                assert(bytes_as_chars(out@).last() == '-');
            }
        }
    }
    proof {
        assert(input@.take(n as int) =~= input@);
    }
    // Trim hyphens from both ends of the raw slug.
    let ghost trail_target = spec_trim_trail_dash(bytes_as_chars(out@));
    proof {
        assert(out@.take(out@.len() as int) =~= out@);
    }
    let mut end: usize = out.len();
    while end > 0 && out[end - 1] == ('-' as u8)
        invariant
            end <= out@.len(),
            forall|j: int| 0 <= j < out@.len() ==> out@[j] < 128,
            spec_trim_trail_dash(bytes_as_chars(out@.take(end as int))) == trail_target,
        decreases end,
    {
        proof {
            assert(bytes_as_chars(out@.take(end as int)).last() == '-');
            assert(bytes_as_chars(out@.take(end as int)).drop_last() =~= bytes_as_chars(
                out@.take(end as int - 1),
            ));
        }
        end = end - 1;
    }
    proof {
        let cut = bytes_as_chars(out@.take(end as int));
        if end > 0 {
            assert(cut.last() == out@[end as int - 1] as char);
            assert(cut.last() != '-');
        }
        assert(spec_trim_trail_dash(cut) == cut);
        assert(cut.skip(0) =~= cut);
    }
    let ghost target = spec_trim_lead_dash(trail_target);
    let mut start: usize = 0;
    while start < end && out[start] == ('-' as u8)
        invariant
            start <= end <= out@.len(),
            forall|j: int| 0 <= j < out@.len() ==> out@[j] < 128,
            spec_trim_lead_dash(bytes_as_chars(out@.take(end as int)).skip(start as int))
                == target,
        decreases end - start,
    {
        proof {
            let cur = bytes_as_chars(out@.take(end as int)).skip(start as int);
            assert(cur.first() == '-');
            assert(cur.drop_first() =~= bytes_as_chars(out@.take(end as int)).skip(
                start as int + 1,
            ));
        }
        start = start + 1;
    }
    proof {
        let trimmed = bytes_as_chars(out@.take(end as int)).skip(start as int);
        if start < end {
            // Loop exited because the first character is not a hyphen.
            assert(trimmed.first() == out@[start as int] as char);
            assert(trimmed.first() != '-');
            assert(spec_trim_lead_dash(trimmed) == trimmed);
        } else {
            assert(trimmed =~= Seq::<char>::empty());
            assert(spec_trim_lead_dash(trimmed) == trimmed);
        }
        assert(trimmed == target);
    }
    if start == end {
        let r = "project".to_owned();
        proof {
            reveal_strlit("project");
            assert(r@ =~= spec_fallback_slug());
            assert(bytes_as_chars(out@.take(end as int)).skip(start as int).len() == 0);
        }
        r
    } else {
        let mut trimmed: Vec<u8> = Vec::new();
        let mut k: usize = start;
        while k < end
            invariant
                start <= k <= end <= out@.len(),
                forall|j: int| 0 <= j < out@.len() ==> out@[j] < 128,
                trimmed@ =~= out@.subrange(start as int, k as int),
            decreases end - k,
        {
            let b = out[k];
            trimmed.push(b);
            k = k + 1;
        }
        proof {
            assert(trimmed@ =~= out@.take(end as int).skip(start as int));
            assert(bytes_as_chars(trimmed@) =~= bytes_as_chars(out@.take(end as int)).skip(
                start as int,
            ));
        }
        let r = ascii_bytes_to_string(trimmed);
        r
    }
}

/// The sanitized team key: ASCII alphanumerics kept and uppercased.
pub open spec fn spec_key_raw(s: Seq<char>) -> Seq<char>
    decreases s.len(),
{
    if s.len() == 0 {
        Seq::<char>::empty()
    } else {
        let r = spec_key_raw(s.drop_last());
        let c = s.last();
        if is_alnum_char(c) {
            r.push(to_upper_char(c))
        } else {
            r
        }
    }
}

/// The default team key used when sanitizing leaves nothing.
pub open spec fn spec_default_key() -> Seq<char> {
    seq!['S', 'Y', 'N']
}

/// The team key derived from raw input: alphanumerics uppercased, with the
/// default key substituted when nothing remains.
pub open spec fn spec_sanitize_team_key(s: Seq<char>) -> Seq<char> {
    if spec_key_raw(s).len() == 0 {
        spec_default_key()
    } else {
        spec_key_raw(s)
    }
}

/// Sanitize a configured team key down to uppercase ASCII alphanumerics.
pub fn sanitize_team_key(input: &str) -> (r: String)
    ensures
        r@ == spec_sanitize_team_key(input@),
        r@.len() > 0,
{
    let n = input.unicode_len();
    let mut out: Vec<u8> = Vec::new();
    for i in 0..n
        invariant
            n == input@.len(),
            bytes_as_chars(out@) == spec_key_raw(input@.take(i as int)),
            forall|j: int| 0 <= j < out@.len() ==> out@[j] < 128,
    {
        let c = input.get_char(i);
        proof {
            assert(input@.take(i as int + 1).drop_last() =~= input@.take(i as int));
            assert(input@.take(i as int + 1).last() == c);
        }
        if exec_is_alnum(c) {
            let u: u32 = c as u32;
            let b: u8 = if 'a' <= c && c <= 'z' {
                (u - 32) as u8
            } else {
                u as u8
            };
            assert(b as char == to_upper_char(c));
            out.push(b);
            proof {
                assert(bytes_as_chars(out@) =~= spec_key_raw(input@.take(i as int)).push(
                    to_upper_char(c),
                ));
            }
        }
    }
    proof {
        assert(input@.take(n as int) =~= input@);
    }
    if out.len() == 0 {
        let r = "SYN".to_owned();
        proof {
            reveal_strlit("SYN");
            assert(r@ =~= spec_default_key());
        }
        r
    } else {
        ascii_bytes_to_string(out)
    }
}

/// The string with every trailing `/` removed.
pub open spec fn spec_trim_trailing_slash(s: Seq<char>) -> Seq<char>
    decreases s.len(),
{
    if s.len() > 0 && s.last() == '/' {
        spec_trim_trailing_slash(s.drop_last())
    } else {
        s
    }
}

/// Strip trailing slashes from a configured base address.
pub fn trim_trailing_slash(input: &str) -> (r: &str)
    ensures
        r@ == spec_trim_trailing_slash(input@),
{
    let n = input.unicode_len();
    proof {
        assert(input@.take(n as int) =~= input@);
    }
    let ghost target = spec_trim_trailing_slash(input@);
    let mut end: usize = n;
    while end > 0 && input.get_char(end - 1) == '/'
        invariant
            n == input@.len(),
            end <= n,
            spec_trim_trailing_slash(input@.take(end as int)) == target,
        decreases end,
    {
        proof {
            assert(input@.take(end as int).last() == '/');
            assert(input@.take(end as int).drop_last() =~= input@.take(end as int - 1));
        }
        end = end - 1;
    }
    proof {
        let cur = input@.take(end as int);
        if end > 0 {
            assert(cur.last() == input@[end as int - 1]);
            assert(spec_trim_trailing_slash(cur) == cur);
        } else {
            assert(cur =~= Seq::<char>::empty());
        }
    }
    let r = input.substring_char(0, end);
    proof {
        assert(r@ =~= input@.take(end as int));
    }
    r
}

/// Character-by-character string equality.
pub fn str_eq(a: &str, b: &str) -> (r: bool)
    ensures
        r == (a@ == b@),
{
    let na = a.unicode_len();
    let nb = b.unicode_len();
    if na != nb {
        proof {
            assert(a@ != b@);
        }
        return false;
    }
    let mut i: usize = 0;
    while i < na
        invariant
            na == a@.len(),
            nb == b@.len(),
            na == nb,
            i <= na,
            forall|j: int| 0 <= j < i ==> a@[j] == b@[j],
        decreases na - i,
    {
        if a.get_char(i) != b.get_char(i) {
            return false;
        }
        i = i + 1;
    }
    proof {
        assert(a@ =~= b@);
    }
    true
}

/// Whether `s` begins with the characters of `prefix`.
pub open spec fn spec_starts_with(s: Seq<char>, prefix: Seq<char>) -> bool {
    prefix.len() <= s.len() && s.take(prefix.len() as int) == prefix
}

fn starts_with_str(s: &str, prefix: &str) -> (r: bool)
    ensures
        r == spec_starts_with(s@, prefix@),
{
    let np = prefix.unicode_len();
    let ns = s.unicode_len();
    if np > ns {
        proof {
            assert(!spec_starts_with(s@, prefix@));
        }
        return false;
    }
    let mut i: usize = 0;
    while i < np
        invariant
            np == prefix@.len(),
            ns == s@.len(),
            np <= ns,
            i <= np,
            forall|j: int| 0 <= j < i ==> s@[j] == prefix@[j],
        decreases np - i,
    {
        if s.get_char(i) != prefix.get_char(i) {
            proof {
                assert(s@.take(np as int)[i as int] != prefix@[i as int]);
            }
            return false;
        }
        i = i + 1;
    }
    proof {
        assert(s@.take(np as int) =~= prefix@);
    }
    true
}

/// Whether a storage location denotes a remote database rather than a local
/// file path.
pub fn looks_remote_url(url: &str) -> (r: bool)
    ensures
        r == (spec_starts_with(url@, "libsql://"@) || spec_starts_with(url@, "https://"@)
            || spec_starts_with(url@, "http://"@)),
{
    starts_with_str(url, "libsql://") || starts_with_str(url, "https://") || starts_with_str(
        url,
        "http://",
    )
}

} // verus!
