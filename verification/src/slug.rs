//! Collision-resolved project slug allocation: probe the base slug, then
//! `-2`, `-3`, ... until a slug free of the already-persisted ones is found.
//! The probe provably terminates: candidates are pairwise distinct, so at
//! most one more candidate than there are persisted slugs is ever tried.

use vstd::prelude::*;
use vstd::seq_lib::*;
use vstd::set_lib::{lemma_int_range, lemma_len_subset, set_int_range};
use vstd::string::*;

use crate::digits::{lemma_dec_injective, lemma_dec_len, spec_dec, u64_to_dec};
use crate::text::{slugify, spec_slugify, str_eq};

verus! {

/// Whether `s` is among the persisted slugs.
pub open spec fn spec_taken(taken: Seq<String>, s: Seq<char>) -> bool {
    exists|i: int| 0 <= i < taken.len() && taken[i]@ == s
}

/// The k-th slug candidate for a base: the base itself, then `base-2`,
/// `base-3`, and so on.
pub open spec fn spec_candidate(base: Seq<char>, k: nat) -> Seq<char>
    recommends
        k >= 1,
{
    if k == 1 {
        base
    } else {
        base + seq!['-'] + spec_dec(k)
    }
}

/// Distinct candidate indices yield distinct candidate slugs.
pub proof fn lemma_candidate_injective(base: Seq<char>, k1: nat, k2: nat)
    requires
        1 <= k1,
        1 <= k2,
        spec_candidate(base, k1) == spec_candidate(base, k2),
    ensures
        k1 == k2,
{
    lemma_dec_len(k1);
    lemma_dec_len(k2);
    if k1 == 1 && k2 == 1 {
    } else if k1 == 1 || k2 == 1 {
        // One candidate is the bare base, the other is strictly longer.
        assert(spec_candidate(base, k1).len() == spec_candidate(base, k2).len());
        assert(false);
    } else {
        let p = base + seq!['-'];
        assert(spec_dec(k1) =~= spec_candidate(base, k1).skip(p.len() as int));
        assert(spec_dec(k2) =~= spec_candidate(base, k2).skip(p.len() as int));
        lemma_dec_injective(k1, k2);
    }
}

fn is_taken(taken: &Vec<String>, cand: &str) -> (r: bool)
    ensures
        r == spec_taken(taken@, cand@),
{
    let mut i: usize = 0;
    while i < taken.len()
        invariant
            i <= taken@.len(),
            forall|j: int| 0 <= j < i ==> taken@[j]@ != cand@,
        decreases taken@.len() - i,
    {
        if str_eq(taken[i].as_str(), cand) {
            return true;
        }
        i = i + 1;
    }
    false
}

fn candidate(base: &str, k: u64) -> (r: String)
    requires
        k >= 1,
    ensures
        r@ == spec_candidate(base@, k as nat),
{
    if k == 1 {
        base.to_owned()
    } else {
        let mut r = base.to_owned();
        r.append("-");
        proof {
            reveal_strlit("-");
            assert("-"@ =~= seq!['-']);
        }
        let digits = u64_to_dec(k);
        r.append(digits.as_str());
        r
    }
}

/// Allocate a slug for a project name: derive the base slug from the name
/// and return the first candidate (`base`, `base-2`, `base-3`, ...) that is
/// not already persisted. The result is pinned exactly: it is free, and
/// every earlier candidate is taken.
pub fn next_project_slug(name: &str, taken: &Vec<String>) -> (r: String)
    requires
        taken@.len() < u64::MAX,
    ensures
        !spec_taken(taken@, r@),
        exists|k: nat|
            1 <= k && r@ == #[trigger] spec_candidate(spec_slugify(name@), k) && (forall|j: nat|
                1 <= j < k ==> spec_taken(taken@, spec_candidate(spec_slugify(name@), j))),
{
    let base = slugify(name);
    let mut k: u64 = 1;
    let ghost mut hits: Seq<int> = Seq::empty();
    loop
        invariant
            base@ == spec_slugify(name@),
            taken@.len() < u64::MAX,
            1 <= k <= taken@.len() + 1,
            hits.len() == k - 1,
            hits.no_duplicates(),
            forall|j: int|
                0 <= j < hits.len() ==> 0 <= #[trigger] hits[j] < taken@.len()
                    && taken@[hits[j]]@ == spec_candidate(base@, (j + 1) as nat),
        decreases taken@.len() + 1 - k,
    {
        let cand = candidate(base.as_str(), k);
        if !is_taken(taken, cand.as_str()) {
            proof {
                assert forall|j: nat| 1 <= j < k implies spec_taken(
                    taken@,
                    spec_candidate(base@, j),
                ) by {
                    assert(taken@[hits[j - 1]]@ == spec_candidate(base@, j));
                }
                assert(1 <= k as nat && cand@ == spec_candidate(spec_slugify(name@), k as nat)
                    && (forall|j: nat|
                    1 <= j < k as nat ==> spec_taken(
                        taken@,
                        spec_candidate(spec_slugify(name@), j),
                    )));
            }
            return cand;
        }
        proof {
            let i = choose|i: int| 0 <= i < taken@.len() && taken@[i]@ == cand@;
            assert forall|j: int| 0 <= j < hits.len() implies hits[j] != i by {
                if hits[j] == i {
                    lemma_candidate_injective(base@, (j + 1) as nat, k as nat);
                }
            }
            let pushed = hits.push(i);
            assert forall|a: int, b: int|
                0 <= a < pushed.len() && 0 <= b < pushed.len() && a != b implies pushed[a]
                != pushed[b] by {
                if a < hits.len() && b < hits.len() {
                    assert(hits[a] != hits[b]);
                }
            }
            hits = pushed;
            // Pigeonhole: k distinct indices into `taken` bound k by its length.
            hits.unique_seq_to_set();
            assert forall|x: int| hits.to_set().contains(x) implies set_int_range(
                0,
                taken@.len() as int,
            ).contains(x) by {
                let j = choose|j: int| 0 <= j < hits.len() && hits[j] == x;
            }
            assert(hits.to_set() <= set_int_range(0, taken@.len() as int));
            lemma_int_range(0, taken@.len() as int);
            lemma_len_subset(hits.to_set(), set_int_range(0, taken@.len() as int));
            assert(hits.len() <= taken@.len());
        }
        k = k + 1;
    }
}

/// In an empty store the allocated slug is the base slug itself; once the
/// base slug is persisted, a later allocation for the same name yields a
/// distinct, suffixed slug. `r` is any result allowed by
/// `next_project_slug`'s contract for `name` against `taken`.
pub proof fn lemma_slug_allocation(name: Seq<char>, taken: Seq<String>, r: Seq<char>)
    requires
        !spec_taken(taken, r),
        exists|k: nat|
            1 <= k && r == #[trigger] spec_candidate(spec_slugify(name), k) && (forall|j: nat|
                1 <= j < k ==> spec_taken(taken, spec_candidate(spec_slugify(name), j))),
    ensures
        taken.len() == 0 ==> r == spec_slugify(name),
        spec_taken(taken, spec_slugify(name)) ==> r != spec_slugify(name) && exists|k: nat|
            2 <= k && r == #[trigger] spec_candidate(spec_slugify(name), k),
{
    let base = spec_slugify(name);
    let k = choose|k: nat|
        1 <= k && r == #[trigger] spec_candidate(base, k) && (forall|j: nat|
            1 <= j < k ==> spec_taken(taken, spec_candidate(base, j)));
    if taken.len() == 0 {
        if k > 1 {
            assert(spec_taken(taken, spec_candidate(base, 1)));
            assert(false);
        }
    }
    if spec_taken(taken, base) {
        assert(r != base);
        if k == 1 {
            assert(r == spec_candidate(base, 1));
            assert(false);
        }
        assert(2 <= k && r == spec_candidate(base, k));
    }
}

/// Slug allocation is deterministic: any two results allowed by
/// `next_project_slug`'s contract for the same name and the same persisted
/// slugs are equal.
pub proof fn lemma_slug_deterministic(name: Seq<char>, taken: Seq<String>, r1: Seq<char>, r2: Seq<
    char,
>)
    requires
        !spec_taken(taken, r1),
        exists|k: nat|
            1 <= k && r1 == #[trigger] spec_candidate(spec_slugify(name), k) && (forall|j: nat|
                1 <= j < k ==> spec_taken(taken, spec_candidate(spec_slugify(name), j))),
        !spec_taken(taken, r2),
        exists|k: nat|
            1 <= k && r2 == #[trigger] spec_candidate(spec_slugify(name), k) && (forall|j: nat|
                1 <= j < k ==> spec_taken(taken, spec_candidate(spec_slugify(name), j))),
    ensures
        r1 == r2,
{
    let base = spec_slugify(name);
    let k1 = choose|k: nat|
        1 <= k && r1 == #[trigger] spec_candidate(base, k) && (forall|j: nat|
            1 <= j < k ==> spec_taken(taken, spec_candidate(base, j)));
    let k2 = choose|k: nat|
        1 <= k && r2 == #[trigger] spec_candidate(base, k) && (forall|j: nat|
            1 <= j < k ==> spec_taken(taken, spec_candidate(base, j)));
    if k1 < k2 {
        assert(spec_taken(taken, spec_candidate(base, k1)));
        assert(false);
    }
    if k2 < k1 {
        assert(spec_taken(taken, spec_candidate(base, k2)));
        assert(false);
    }
}

} // verus!
