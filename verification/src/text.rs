use vstd::prelude::*;
use vstd::string::*;

verus! {

/// The whitespace characters that free-text prompt input is stripped of:
/// the blank, and the line-ending and tabulation controls that a terminal
/// line read can leave behind.
pub open spec fn is_space_char(c: char) -> bool {
    c == ' ' || c == '\n' || c == '\t' || c == '\r'
}

/// Every character of `s` is whitespace (vacuously true of the empty string).
pub open spec fn all_whitespace(s: Seq<char>) -> bool {
    forall|k: int| 0 <= k < s.len() ==> is_space_char(s[k])
}

/// The string neither starts nor ends with whitespace.
pub open spec fn is_trimmed(s: Seq<char>) -> bool {
    s.len() > 0 ==> !is_space_char(s[0]) && !is_space_char(s[s.len() - 1])
}

/// `r` is `s` with its whitespace margins removed: `r` is the slice of `s`
/// from `i` to `j`, everything outside that slice is whitespace, and the
/// slice itself is trimmed.
pub open spec fn trim_witness(s: Seq<char>, r: Seq<char>, i: int, j: int) -> bool {
    &&& 0 <= i <= j <= s.len()
    &&& r == s.subrange(i, j)
    &&& forall|k: int| 0 <= k < i ==> is_space_char(s[k])
    &&& forall|k: int| j <= k < s.len() ==> is_space_char(s[k])
    &&& is_trimmed(r)
}

fn is_space(c: char) -> (r: bool)
    ensures
        r == is_space_char(c),
{
    c == ' ' || c == '\n' || c == '\t' || c == '\r'
}

/// Returns `s` with leading and trailing whitespace removed; the result is
/// empty exactly when `s` holds nothing but whitespace.
pub fn trimmed_of(s: &str) -> (r: String)
    ensures
        exists|i: int, j: int| trim_witness(s@, r@, i, j),
        is_trimmed(r@),
        (r@.len() == 0) <==> all_whitespace(s@),
{
    let n = s.unicode_len();
    let mut i: usize = 0;
    loop
        invariant
            i <= n,
            n == s@.len(),
            forall|k: int| 0 <= k < i ==> is_space_char(s@[k]),
        ensures
            i <= n,
            forall|k: int| 0 <= k < i ==> is_space_char(s@[k]),
            i < n ==> !is_space_char(s@[i as int]),
        decreases n - i,
    {
        if i >= n {
            break;
        }
        if !is_space(s.get_char(i)) {
            break;
        }
        i = i + 1;
    }
    if i >= n {
        let r = String::new();
        proof {
            assert(r@ =~= s@.subrange(n as int, n as int));
            assert(trim_witness(s@, r@, n as int, n as int));
        }
        return r;
    }
    let mut j: usize = n;
    loop
        invariant
            i < n,
            n == s@.len(),
            !is_space_char(s@[i as int]),
            i < j <= n,
            forall|k: int| j <= k < n ==> is_space_char(s@[k]),
        ensures
            i < j <= n,
            forall|k: int| j <= k < n ==> is_space_char(s@[k]),
            !is_space_char(s@[j - 1]),
        decreases j,
    {
        if !is_space(s.get_char(j - 1)) {
            break;
        }
        j = j - 1;
    }
    let r = s.substring_char(i, j).to_owned();
    proof {
        assert(r@[0] == s@[i as int]);
        assert(r@[r@.len() - 1] == s@[j - 1]);
        assert(trim_witness(s@, r@, i as int, j as int));
    }
    r
}

/// Character-for-character equality of two string slices.
pub fn str_eq(a: &str, b: &str) -> (r: bool)
    ensures
        r == (a@ == b@),
{
    let ao = a.to_owned();
    let bo = b.to_owned();
    ao == bo
}

} // verus!
