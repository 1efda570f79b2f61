//! Content-source routing for the development server: binds content sources
//! to subpaths by longest-standing (first-match) prefix, with a fallback
//! source for every other subpath.
//!
//! A content source itself serves requests asynchronously out of this core;
//! here it is identified by a handle, and the routing decision — which source
//! serves a path, and what remains of the path — is what is verified.

use vstd::prelude::*;
use vstd::string::StrSliceExecFns;

verus! {

/// Handle of a content source known to the development server.
pub type ContentSourceId = u32;

/// Handle of a directory in the development server's file system.
pub type FileSystemPathId = u32;

/// `p` is a prefix of `s`.
pub open spec fn spec_is_prefix(p: Seq<char>, s: Seq<char>) -> bool {
    p.len() <= s.len() && s.subrange(0, p.len() as int) == p
}

/// Whether `path` starts with `prefix`.
pub fn str_starts_with(path: &str, prefix: &str) -> (r: bool)
    ensures
        r == spec_is_prefix(prefix@, path@),
{
    let n = prefix.unicode_len();
    let m = path.unicode_len();
    if n > m {
        return false;
    }
    let mut i: usize = 0;
    while i < n
        invariant
            i <= n,
            n == prefix@.len(),
            n <= m == path@.len(),
            forall|j: int| 0 <= j < i ==> path@[j] == prefix@[j],
        decreases n - i,
    {
        if path.get_char(i) != prefix.get_char(i) {
            proof {
                assert(path@.subrange(0, n as int)[i as int] != prefix@[i as int]);
            }
            return false;
        }
        i = i + 1;
    }
    proof {
        assert(path@.subrange(0, n as int) =~= prefix@);
    }
    true
}

/// Binds content sources to subpaths. A fallback source serves all other
/// subpaths.
pub struct RouterContentSource {
    /// The bound routes: a path prefix, and the source serving below it.
    pub routes: Vec<(String, ContentSourceId)>,
    /// The source serving every path no route matches.
    pub fallback: ContentSourceId,
}

/// The first route whose prefix the path starts with, with the rest of the
/// path after that prefix; `None` when no route matches.
pub open spec fn spec_first_route(
    routes: Seq<(String, ContentSourceId)>,
    path: Seq<char>,
) -> Option<(ContentSourceId, Seq<char>)>
    decreases routes.len(),
{
    if routes.len() == 0 {
        None
    } else if spec_is_prefix(routes[0].0@, path) {
        Some((routes[0].1, path.skip(routes[0].0@.len() as int)))
    } else {
        spec_first_route(routes.drop_first(), path)
    }
}

impl RouterContentSource {
    /// The source serving `path`: the first route whose prefix matches, with
    /// the matched prefix stripped from the path, and otherwise the fallback
    /// source with the path untouched.
    pub fn get_source<'a>(&self, path: &'a str) -> (r: (ContentSourceId, &'a str))
        ensures
            match spec_first_route(self.routes@, path@) {
                Some((src, rest)) => r.0 == src && r.1@ == rest,
                None => r.0 == self.fallback && r.1@ == path@,
            },
    {
        proof {
            assert(self.routes@.skip(0) =~= self.routes@);
        }
        let mut i: usize = 0;
        while i < self.routes.len()
            invariant
                i <= self.routes@.len(),
                spec_first_route(self.routes@, path@) == spec_first_route(
                    self.routes@.skip(i as int),
                    path@,
                ),
            decreases self.routes@.len() - i,
        {
            proof {
                assert(self.routes@.skip(i as int).drop_first() =~= self.routes@.skip(i + 1));
                assert(self.routes@.skip(i as int)[0] == self.routes@[i as int]);
            }
            let route = &self.routes[i].0;
            if str_starts_with(path, route.as_str()) {
                let n = route.as_str().unicode_len();
                let rest = path.substring_char(n, path.unicode_len());
                proof {
                    assert(rest@ =~= path@.skip(route@.len() as int));
                }
                return (self.routes[i].1, rest);
            }
            i = i + 1;
        }
        (self.fallback, path)
    }
}

/// Serves the files below one directory under a path prefix.
pub struct StaticAssetsContentSource {
    /// The path prefix this source serves below; empty, or ending in `/`.
    pub prefix: String,
    /// The directory whose files are served.
    pub dir: FileSystemPathId,
}

impl StaticAssetsContentSource {
    /// Binds `dir` below `prefix`, normalizing the prefix: a non-empty prefix
    /// that does not end in `/` gets one appended, so that joining it with a
    /// file name never glues two path segments together.
    pub fn new(prefix: String, dir: FileSystemPathId) -> (r: StaticAssetsContentSource)
        ensures
            r.dir == dir,
            prefix@.len() == 0 ==> r.prefix@ == prefix@,
            prefix@.len() > 0 && prefix@.last() == '/' ==> r.prefix@ == prefix@,
            prefix@.len() > 0 && prefix@.last() != '/' ==> r.prefix@ == prefix@.push('/'),
    {
        let mut prefix = prefix;
        let ghost given = prefix@;
        let n = prefix.as_str().unicode_len();
        if n != 0 && prefix.as_str().get_char(n - 1) != '/' {
            proof {
                reveal_strlit("/");
            }
            prefix.append("/");
            proof {
                assert("/"@ =~= seq!['/']);
                assert(prefix@ =~= given.push('/'));
            }
        }
        StaticAssetsContentSource { prefix, dir }
    }

    /// The request paths this source serves: a non-empty path that starts
    /// with the prefix, with the rest naming the file below the directory.
    /// The decision mirrors the serving path: everything else is not found.
    pub fn route_request<'a>(&self, path: &'a str) -> (r: Option<&'a str>)
        ensures
            match r {
                Some(rest) => path@.len() > 0 && spec_is_prefix(self.prefix@, path@) && rest@
                    == path@.skip(self.prefix@.len() as int),
                None => path@.len() == 0 || !spec_is_prefix(self.prefix@, path@),
            },
    {
        if path.unicode_len() == 0 {
            return None;
        }
        if str_starts_with(path, self.prefix.as_str()) {
            let n = self.prefix.as_str().unicode_len();
            let rest = path.substring_char(n, path.unicode_len());
            proof {
                assert(rest@ =~= path@.skip(self.prefix@.len() as int));
            }
            Some(rest)
        } else {
            None
        }
    }
}

} // verus!
