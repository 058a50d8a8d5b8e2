//! Run configuration handed to the analysis: the optional author identity
//! map and the optional list of repository names to ignore. Both are plain,
//! already-parsed values; loading them from a file is a caller's concern.

use vstd::prelude::*;

verus! {

/// A read-only mapping from author email to canonical display name,
/// applied when resolving each commit's author name.
#[derive(Clone)]
pub struct AuthorMap {
    /// The mapping as (email, display name) pairs; the first matching
    /// entry wins.
    pub entries: Vec<(String, String)>,
}

/// The name mapped to `email`: the second component of the first entry
/// whose first component has exactly the characters of `email`.
pub open spec fn lookup_spec(entries: Seq<(Seq<char>, Seq<char>)>, email: Seq<char>) -> Option<
    Seq<char>,
>
    decreases entries.len(),
{
    if entries.len() == 0 {
        None
    } else if entries[0].0 == email {
        Some(entries[0].1)
    } else {
        lookup_spec(entries.drop_first(), email)
    }
}

impl AuthorMap {
    /// Builds the map from its entry list.
    pub fn new(entries: Vec<(String, String)>) -> (r: AuthorMap)
        ensures
            r.entries == entries,
    {
        AuthorMap { entries }
    }

    /// The canonical display name for `email`, if the map has one.
    pub fn lookup(&self, email: &String) -> (r: Option<String>)
        ensures
            r.deep_view() == lookup_spec(self.entries.deep_view(), email@),
    {
        let n = self.entries.len();
        let mut k: usize = 0;
        proof {
            assert(self.entries.deep_view().skip(0) =~= self.entries.deep_view());
        }
        while k < n
            invariant
                0 <= k <= n,
                n == self.entries@.len(),
                self.entries.deep_view().len() == self.entries@.len(),
                forall|m: int|
                    0 <= m < n ==> self.entries.deep_view()[m] == (
                    self.entries@[m].0@,
                    self.entries@[m].1@,
                ),
                lookup_spec(self.entries.deep_view(), email@) == lookup_spec(
                    self.entries.deep_view().skip(k as int),
                    email@,
                ),
            decreases n - k,
        {
            let ghost dv = self.entries.deep_view();
            if self.entries[k].0 == *email {
                proof {
                    assert(dv.skip(k as int)[0] == dv[k as int]);
                    assert(dv[k as int].0 == email@);
                    assert(lookup_spec(dv.skip(k as int), email@) == Some(
                        dv.skip(k as int)[0].1,
                    ));
                }
                return Some(self.entries[k].1.clone());
            }
            proof {
                assert(dv.skip(k as int)[0] == dv[k as int]);
                assert(dv[k as int].0 != email@);
                assert(dv.skip(k as int).drop_first() =~= dv.skip(k + 1));
                assert(lookup_spec(dv.skip(k as int), email@) == lookup_spec(
                    dv.skip(k + 1),
                    email@,
                ));
            }
            k += 1;
        }
        proof {
            assert(self.entries.deep_view().skip(k as int) =~= Seq::<(
                Seq<char>,
                Seq<char>,
            )>::empty());
        }
        None
    }
}

/// The optional configuration supplied once per run.
pub struct Config {
    /// Repository names that discovery leaves out of the batch.
    pub ignored_repositories: Option<Vec<String>>,
    /// Email address to display name map used to normalize author names.
    pub author_map: Option<AuthorMap>,
}

impl Default for Config {
    /// The configuration used when no file supplies one: nothing ignored,
    /// no author normalization.
    fn default() -> (r: Config)
        ensures
            r.ignored_repositories is None,
            r.author_map is None,
    {
        Config { ignored_repositories: None, author_map: None }
    }
}

} // verus!
