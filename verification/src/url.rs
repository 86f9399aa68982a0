//! Target-URL construction: the base URL, with any trailing slashes stripped,
//! joined to one wordlist entry by a single slash.

use vstd::prelude::*;
use vstd::string::StrSliceExecFns;
use vstd::string::StringExecFns;

verus! {

/// `s` with every trailing `'/'` removed.
pub open spec fn spec_strip_trailing_slashes(s: Seq<char>) -> Seq<char>
    decreases s.len(),
{
    if s.len() > 0 && s.last() == '/' {
        spec_strip_trailing_slashes(s.drop_last())
    } else {
        s
    }
}

/// The target URL probed for one entry: the base with trailing slashes
/// stripped, a single slash, then the entry verbatim (no escaping; the
/// wordlist is expected to hold valid path segments).
pub open spec fn spec_join_url(base: Seq<char>, entry: Seq<char>) -> Seq<char> {
    spec_strip_trailing_slashes(base) + seq!['/'] + entry
}

/// Build the target URL for one wordlist entry.
pub fn join_url(base: &str, entry: &str) -> (r: String)
    ensures
        r@ == spec_join_url(base@, entry@),
{
    let n = base.unicode_len();
    let mut k = n;
    proof {
        assert(base@.subrange(0, n as int) =~= base@);
    }
    while k > 0 && base.get_char(k - 1) == '/'
        invariant
            k <= n,
            n == base@.len(),
            spec_strip_trailing_slashes(base@) == spec_strip_trailing_slashes(
                base@.subrange(0, k as int),
            ),
        decreases k,
    {
        proof {
            let prefix = base@.subrange(0, k as int);
            assert(prefix.last() == '/');
            assert(prefix.drop_last() =~= base@.subrange(0, k - 1));
        }
        k = k - 1;
    }
    proof {
        let stripped = base@.subrange(0, k as int);
        assert(spec_strip_trailing_slashes(stripped) == stripped);
        reveal_strlit("/");
        assert(("/")@ =~= seq!['/']);
    }
    let mut r = String::from_str(base.substring_char(0, k));
    r.append("/");
    r.append(entry);
    r
}

} // verus!
