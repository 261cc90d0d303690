//! The enablement filter: decides, per call site, whether output occurs.
//!
//! The filter holds one optional string. An absent or empty value disables
//! all output; the wildcard value `"*"` enables every call site; any other
//! value enables exactly the call sites whose location tag contains it as a
//! substring.

use vstd::prelude::*;

verus! {

/// `needle` occurs in `hay` starting at position `i`.
pub open spec fn contains_at(hay: Seq<char>, needle: Seq<char>, i: int) -> bool {
    0 <= i && i + needle.len() <= hay.len() && hay.subrange(i, i + needle.len()) == needle
}

/// `needle` occurs somewhere in `hay` (plain substring containment,
/// not a glob or a regex).
pub open spec fn is_substring(needle: Seq<char>, hay: Seq<char>) -> bool {
    exists|i: int| contains_at(hay, needle, i)
}

/// The filter value that matches every location.
pub open spec fn wildcard() -> Seq<char> {
    seq!['*']
}

/// Whether a call site tagged `location` is enabled under filter value
/// `filter`: false when the value is absent or empty, true for every
/// location when the value is the wildcard, and otherwise true iff the
/// location contains the value as a substring.
pub open spec fn enabled(filter: Option<Seq<char>>, location: Seq<char>) -> bool {
    match filter {
        Option::None => false,
        Option::Some(f) => f.len() > 0 && (f == wildcard() || is_substring(f, location)),
    }
}

/// `needle` occurs in `hay` starting at position `i`.
fn matches_at(hay: &str, needle: &str, i: usize) -> (r: bool)
    requires
        i + needle@.len() <= hay@.len(),
    ensures
        r == contains_at(hay@, needle@, i as int),
{
    let n = hay.unicode_len();
    let m = needle.unicode_len();
    let mut j: usize = 0;
    while j < m
        invariant
            n == hay@.len(),
            m == needle@.len(),
            i + m <= n,
            j <= m,
            forall|k: int| 0 <= k < j ==> hay@[i + k] == needle@[k],
        decreases m - j,
    {
        if hay.get_char(i + j) != needle.get_char(j) {
            proof {
                assert(hay@.subrange(i as int, i + needle@.len())[j as int] != needle@[j as int]);
            }
            return false;
        }
        j += 1;
    }
    proof {
        assert(hay@.subrange(i as int, i + needle@.len()) =~= needle@);
    }
    true
}

/// `needle` occurs somewhere in `hay`.
pub fn contains_substring(hay: &str, needle: &str) -> (r: bool)
    ensures
        r == is_substring(needle@, hay@),
{
    let n = hay.unicode_len();
    let m = needle.unicode_len();
    if m > n {
        proof {
            assert(forall|i: int| !contains_at(hay@, needle@, i));
        }
        return false;
    }
    let diff = n - m;
    let mut i: usize = 0;
    loop
        invariant
            n == hay@.len(),
            m == needle@.len(),
            m <= n,
            diff == n - m,
            i <= diff,
            forall|k: int| 0 <= k < i ==> !contains_at(hay@, needle@, k),
        decreases diff - i,
    {
        if matches_at(hay, needle, i) {
            return true;
        }
        if i == diff {
            proof {
                assert forall|k: int| !contains_at(hay@, needle@, k) by {
                    if 0 <= k <= diff {
                        assert(!contains_at(hay@, needle@, k));
                    }
                }
            }
            return false;
        }
        i += 1;
    }
}

/// The enablement filter. Holds the one optional, runtime-replaceable
/// filter string; `None` means "not configured".
pub struct Filter {
    value: Option<String>,
}

impl Filter {
    /// The filter value as a mathematical optional character sequence.
    pub closed spec fn view(&self) -> Option<Seq<char>> {
        match self.value {
            Option::None => Option::None,
            Option::Some(ref s) => Option::Some(s@),
        }
    }

    /// A filter with no value configured: everything is disabled.
    pub fn new() -> (r: Filter)
        ensures
            r@ == Option::<Seq<char>>::None,
    {
        Filter { value: None }
    }

    /// Replace the filter value at runtime.
    pub fn set(&mut self, value: &str)
        ensures
            final(self)@ == Option::Some(value@),
    {
        self.value = Some(value.to_owned());
    }

    /// Whether a call site tagged `location` is enabled under the current
    /// filter value.
    pub fn is_enabled(&self, location: &str) -> (r: bool)
        ensures
            r == enabled(self@, location@),
    {
        match &self.value {
            None => false,
            Some(f) => {
                let fs: &str = f.as_str();
                if fs.is_empty() {
                    false
                } else if fs.unicode_len() == 1 && fs.get_char(0) == '*' {
                    proof {
                        assert(f@ =~= wildcard());
                    }
                    true
                } else {
                    proof {
                        assert(f@ != wildcard());
                    }
                    contains_substring(location, fs)
                }
            },
        }
    }
}

} // verus!
