//! Extracting a backslash-escaped, double-quote-terminated prefix from a
//! string: the scanner copies characters until the first unescaped `"`,
//! which is included in the result; a backslash always carries the next
//! character along verbatim.

use vstd::prelude::*;
use vstd::string::StrSliceExecFns;
use vstd::string::StringExecFns;

verus! {

/// The prefix of `s` up to and including its first unescaped double quote.
/// `None` when the scan runs off the end: no unescaped quote before the end
/// of `s`, or a lone trailing backslash.
pub open spec fn take_spec(s: Seq<char>) -> Option<Seq<char>>
    decreases s.len(),
{
    if s.len() == 0 {
        None
    } else if s[0] == '"' {
        Some(seq!['"'])
    } else if s[0] == '\\' {
        if s.len() == 1 {
            None
        } else {
            match take_spec(s.skip(2)) {
                Some(t) => Some(seq![s[0], s[1]] + t),
                None => None,
            }
        }
    } else {
        match take_spec(s.skip(1)) {
            Some(t) => Some(seq![s[0]] + t),
            None => None,
        }
    }
}

/// Prepends an already-copied prefix to a scan outcome; a failed scan stays
/// failed.
spec fn with_prefix(p: Seq<char>, o: Option<Seq<char>>) -> Option<Seq<char>> {
    match o {
        Some(t) => Some(p + t),
        None => None,
    }
}

/// Scans `s` for its quote-terminated prefix; `None` exactly when `s` has
/// none.
pub fn try_take_string(s: &str) -> (r: Option<String>)
    ensures
        r is Some <==> take_spec(s@) is Some,
        r matches Some(out) ==> Some(out@) == take_spec(s@),
{
    let n = s.unicode_len();
    let mut ret = String::new();
    let mut i: usize = 0;
    proof {
        assert(s@.skip(0) =~= s@);
        if take_spec(s@) is Some {
            assert(ret@ + take_spec(s@)->Some_0 =~= take_spec(s@)->Some_0);
        }
    }
    while i < n
        invariant
            n == s@.len(),
            i <= n,
            take_spec(s@) == with_prefix(ret@, take_spec(s@.skip(i as int))),
        decreases n - i,
    {
        let ghost t = s@.skip(i as int);
        proof {
            assert(t[0] == s@[i as int]);
        }
        let c = s.get_char(i);
        if c == '"' {
            let piece = s.substring_char(i, i + 1);
            let ghost before = ret@;
            ret.append(piece);
            proof {
                assert(s@.subrange(i as int, i as int + 1) =~= seq![s@[i as int]]);
                assert(take_spec(t) == Some(seq!['"']));
                assert(ret@ == before + seq!['"']);
            }
            return Some(ret);
        } else if c == '\\' {
            if i + 1 == n {
                proof {
                    assert(t.len() == 1);
                    assert(take_spec(t) is None);
                }
                return None;
            }
            let piece = s.substring_char(i, i + 2);
            let ghost before = ret@;
            ret.append(piece);
            proof {
                assert(t[1] == s@[i as int + 1]);
                assert(t.skip(2) =~= s@.skip(i as int + 2));
                assert(s@.subrange(i as int, i as int + 2) =~= seq![t[0], t[1]]);
                assert(take_spec(t) == with_prefix(seq![t[0], t[1]], take_spec(t.skip(2))));
                if take_spec(t.skip(2)) is Some {
                    assert(before + (seq![t[0], t[1]] + take_spec(t.skip(2))->Some_0) =~= ret@
                        + take_spec(t.skip(2))->Some_0);
                }
            }
            i = i + 2;
        } else {
            let piece = s.substring_char(i, i + 1);
            let ghost before = ret@;
            ret.append(piece);
            proof {
                assert(t.skip(1) =~= s@.skip(i as int + 1));
                assert(s@.subrange(i as int, i as int + 1) =~= seq![t[0]]);
                assert(take_spec(t) == with_prefix(seq![t[0]], take_spec(t.skip(1))));
                if take_spec(t.skip(1)) is Some {
                    assert(before + (seq![t[0]] + take_spec(t.skip(1))->Some_0) =~= ret@
                        + take_spec(t.skip(1))->Some_0);
                }
            }
            i = i + 1;
        }
    }
    proof {
        assert(s@.skip(n as int).len() == 0);
    }
    None
}

/// Copies `s` up to and including its first unescaped double quote. The
/// caller owes a string that has one: on such input the scan can never run
/// off the end, so this function cannot fail.
pub fn take_string(s: &str) -> (r: String)
    requires
        take_spec(s@) is Some,
    ensures
        Some(r@) == take_spec(s@),
{
    match try_take_string(s) {
        Some(r) => r,
        None => vstd::pervasive::unreached(),
    }
}

} // verus!
