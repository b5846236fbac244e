use vstd::prelude::*;
use vstd::string::*;

verus! {

/// True when `pat` occurs in `s` as a contiguous run of characters.
pub open spec fn occurs_in(s: Seq<char>, pat: Seq<char>) -> bool {
    exists|j: int| 0 <= j && j + pat.len() <= s.len() && #[trigger] s.subrange(j, j + pat.len()) == pat
}

/// True when some log line mentions a creation ("Create" or "create").
pub open spec fn announces_creation(logs: Seq<String>) -> bool {
    exists|i: int| 0 <= i < logs.len() && (occurs_in(#[trigger] logs[i]@, "Create"@) || occurs_in(logs[i]@, "create"@))
}

/// Whether `pat` occurs in `s`.
pub fn contains_text(s: &str, pat: &str) -> (r: bool)
    ensures
        r <==> occurs_in(s@, pat@),
{
    let n = s.unicode_len();
    let m = pat.unicode_len();
    if m > n {
        proof {
            assert forall|j: int| 0 <= j && j + pat@.len() <= s@.len() implies #[trigger] s@.subrange(j, j + pat@.len()) != pat@ by {}
        }
        return false;
    }
    let mut j: usize = 0;
    while j <= n - m
        invariant
            n == s@.len(),
            m == pat@.len(),
            m <= n,
            j <= n - m + 1,
            forall|q: int| 0 <= q < j ==> #[trigger] s@.subrange(q, q + m) != pat@,
        decreases n - m + 1 - j,
    {
        let mut k: usize = 0;
        let mut same = true;
        while k < m
            invariant
                n == s@.len(),
                m == pat@.len(),
                j + m <= n,
                k <= m,
                same <==> forall|t: int| 0 <= t < k ==> s@[j + t] == pat@[t],
            decreases m - k,
        {
            if s.get_char(j + k) != pat.get_char(k) {
                same = false;
            }
            k = k + 1;
        }
        if same {
            proof {
                assert(s@.subrange(j as int, j + m) =~= pat@);
            }
            return true;
        }
        proof {
            let t = choose|t: int| 0 <= t < m && s@[j + t] != pat@[t];
            assert(s@.subrange(j as int, j + m)[t] != pat@[t]);
        }
        j = j + 1;
    }
    false
}

/// Whether a batch of program logs announces a token creation.
pub fn parse_token_creation(logs: &Vec<String>) -> (r: bool)
    ensures
        r <==> announces_creation(logs@),
{
    let mut i: usize = 0;
    while i < logs.len()
        invariant
            i <= logs@.len(),
            forall|q: int| 0 <= q < i ==> !occurs_in(#[trigger] logs@[q]@, "Create"@) && !occurs_in(logs@[q]@, "create"@),
        decreases logs@.len() - i,
    {
        if contains_text(logs[i].as_str(), "Create") || contains_text(logs[i].as_str(), "create") {
            return true;
        }
        i = i + 1;
    }
    false
}

} // verus!
