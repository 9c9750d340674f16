//! A package URL held as its location (everything before the fragment) and
//! an optional fragment.
use vstd::prelude::*;

verus! {

/// The position of the first `#` in `s`, if any.
pub open spec fn first_hash(s: Seq<char>, k: int) -> bool {
    0 <= k < s.len() && s[k] == '#' && forall|i: int| 0 <= i < k ==> s[i] != '#'
}

pub open spec fn has_hash(s: Seq<char>) -> bool {
    exists|i: int| 0 <= i < s.len() && s[i] == '#'
}

#[derive(Debug, Clone)]
pub struct PackageUrl {
    /// Scheme, host, path and query of the URL.
    pub location: String,
    /// The text after `#`, if the URL has a fragment.
    pub fragment: Option<String>,
}

impl PackageUrl {
    /// The location holds no `#`: a `#` in a serialized URL starts its fragment.
    pub open spec fn wf(&self) -> bool {
        !has_hash(self.location@)
    }

    /// The serialized URL.
    pub open spec fn text(&self) -> Seq<char> {
        match self.fragment {
            Some(f) => self.location@ + seq!['#'] + f@,
            None => self.location@,
        }
    }

    /// Splits a serialized URL at its first `#`.
    pub fn parse(s: &str) -> (r: PackageUrl)
        ensures
            r.wf(),
            r.text() == s@,
            !has_hash(s@) ==> r.location@ == s@ && r.fragment is None,
            forall|k: int| #[trigger] first_hash(s@, k) ==> {
                &&& r.location@ == s@.subrange(0, k)
                &&& r.fragment matches Some(f) && f@ == s@.subrange(k + 1, s@.len() as int)
            },
    {
        let n = s.unicode_len();
        let mut k: usize = 0;
        while k < n
            invariant
                n == s@.len(),
                k <= n,
                forall|i: int| 0 <= i < k ==> s@[i] != '#',
            decreases n - k,
        {
            if s.get_char(k) == '#' {
                let location = String::from_str(s.substring_char(0, k));
                let fragment = String::from_str(s.substring_char(k + 1, n));
                let r = PackageUrl { location, fragment: Some(fragment) };
                proof {
                    assert(first_hash(s@, k as int));
                    assert(r.text() =~= s@);
                    assert forall|j: int| #[trigger] first_hash(s@, j) implies j == k by {
                        if j < k {
                        } else if j > k {
                            assert(s@[k as int] != '#');
                        }
                    }
                }
                return r;
            }
            k = k + 1;
        }
        PackageUrl { location: String::from_str(s), fragment: None }
    }

    /// The same location with `fragment` in place of any earlier fragment.
    pub fn with_fragment(&self, fragment: String) -> (r: PackageUrl)
        ensures
            r.location@ == self.location@,
            r.fragment matches Some(f) && f@ == fragment@,
    {
        PackageUrl { location: self.location.clone(), fragment: Some(fragment) }
    }

    /// Serializes the URL.
    pub fn to_text(&self) -> (r: String)
        ensures
            r@ == self.text(),
    {
        let mut out = self.location.clone();
        match &self.fragment {
            Some(f) => {
                proof {
                    reveal_strlit("#");
                }
                out.append("#");
                out.append(f.as_str());
            },
            None => {},
        }
        out
    }
}

} // verus!
