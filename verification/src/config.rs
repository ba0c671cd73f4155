//! Deployment configuration policy: how raw configuration values become
//! the flags and defaults the rest of the crate consumes. Reading the
//! process environment itself happens outside this crate.

use vstd::prelude::*;
use vstd::string::*;

use crate::digits::{spec_dec, u64_to_dec};
use crate::text::{
    sanitize_team_key, spec_sanitize_team_key, spec_starts_with, str_eq,
};

verus! {

/// Whether authorization is required: the default, unless the configured
/// value explicitly enables it; any other value disables it.
pub fn require_auth_flag(value: Option<&str>) -> (r: bool)
    ensures
        match value {
            None => r == true,
            Some(v) => r == (v@ == "1"@ || v@ == "true"@ || v@ == "TRUE"@ || v@ == "yes"@ || v@
                == "YES"@),
        },
{
    match value {
        None => true,
        Some(v) => str_eq(v, "1") || str_eq(v, "true") || str_eq(v, "TRUE") || str_eq(v, "yes")
            || str_eq(v, "YES"),
    }
}

/// The seeded team key: the configured value sanitized to uppercase
/// alphanumerics, or the default key when nothing is configured.
pub fn seed_team_key_config(value: Option<&str>) -> (r: String)
    ensures
        match value {
            None => r@ == "SYN"@,
            Some(v) => r@ == spec_sanitize_team_key(v@),
        },
        r@.len() > 0,
{
    match value {
        None => {
            let r = "SYN".to_owned();
            proof {
                reveal_strlit("SYN");
            }
            r
        },
        Some(v) => sanitize_team_key(v),
    }
}

/// The default base address for derived URLs when none is configured:
/// the local host on the configured port.
pub fn default_base_url(port: u16) -> (r: String)
    ensures
        r@ == "http://localhost:"@ + spec_dec(port as nat),
{
    let mut r = "http://localhost:".to_owned();
    let digits = u64_to_dec(port as u64);
    r.append(digits.as_str());
    r
}

/// The local path of a database location: a `file:` scheme prefix is
/// stripped, anything else is used as given.
pub fn local_db_path(url: &str) -> (r: &str)
    ensures
        spec_starts_with(url@, "file:"@) ==> r@ == url@.skip(5),
        !spec_starts_with(url@, "file:"@) ==> r@ == url@,
{
    proof {
        reveal_strlit("file:");
    }
    let n = url.unicode_len();
    if n < 5 {
        proof {
            assert(!spec_starts_with(url@, "file:"@));
        }
        return url;
    }
    let is_file = url.get_char(0) == 'f' && url.get_char(1) == 'i' && url.get_char(2) == 'l'
        && url.get_char(3) == 'e' && url.get_char(4) == ':';
    if is_file {
        proof {
            assert(url@.take(5) =~= "file:"@);
        }
        let r = url.substring_char(5, n);
        proof {
            assert(r@ =~= url@.skip(5));
        }
        r
    } else {
        proof {
            if spec_starts_with(url@, "file:"@) {
                assert(url@.take(5)[0] == 'f');
                assert(url@.take(5)[1] == 'i');
                assert(url@.take(5)[2] == 'l');
                assert(url@.take(5)[3] == 'e');
                assert(url@.take(5)[4] == ':');
                assert(false);
            }
        }
        url
    }
}

} // verus!
