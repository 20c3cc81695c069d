//! The repository-reference model: a remote locator reduced to the
//! `{host, owner, name}` triple that determines its canonical local path.

use gix::bstr::ByteSlice;
use vstd::prelude::*;

verus! {

/// The host and path segments that the URL parser extracts from a locator,
/// for locators it accepts at all. The result depends on the locator's
/// characters alone.
pub uninterp spec fn locator_parts(s: Seq<char>) -> Option<(Option<Seq<char>>, Seq<char>)>;

/// Relies on `gix::Url::from_bytes` and `gix::Url::host`: parses a remote
/// locator (URL-style or SCP-style) and hands back its host segment and the
/// path that follows it.
#[verifier::external_body]
fn split_locator(s: &str) -> (r: Option<(Option<String>, String)>)
    ensures
        match locator_parts(s@) {
            None => r is None,
            Some(parts) => match r {
                None => false,
                Some(rp) => rp.1@ == parts.1 && match (parts.0, rp.0) {
                    (None, None) => true,
                    (Some(h), Some(rh)) => rh@ == h,
                    _ => false,
                },
            },
        },
{
    let url = match gix::Url::from_bytes(s.as_bytes().into()) {
        Ok(u) => u,
        Err(_) => return None,
    };
    let host = match url.host() {
        Some(h) => Some(h.to_owned()),
        None => None,
    };
    let path = match url.path.to_str() {
        Ok(p) => p.to_owned(),
        Err(_) => return None,
    };
    Some((host, path))
}

/// Why a repository locator was rejected.
#[derive(Clone, Copy, Debug, PartialEq, Eq, Structural)]
pub enum ParseError {
    /// The locator is not a recognizable remote reference at all.
    InvalidLocator,
    /// The locator has no host segment.
    MissingHost,
    /// The path after the host has no owner segment.
    MissingOwner,
    /// The path after the host has no repository-name segment.
    MissingRepoName,
}

/// A remote repository reference reduced to its identifying parts.
/// `host` and `owner` are non-empty; `repo_name` has a trailing
/// version-control suffix already stripped.
#[derive(Clone, Debug, PartialEq, Eq)]
pub struct RepoUrl {
    pub host: String,
    pub owner: String,
    pub repo_name: String,
}

/// The mathematical model of a repository reference.
pub struct RepoRef {
    pub host: Seq<char>,
    pub owner: Seq<char>,
    pub repo_name: Seq<char>,
}

impl View for RepoUrl {
    type V = RepoRef;

    open spec fn view(&self) -> RepoRef {
        RepoRef { host: self.host@, owner: self.owner@, repo_name: self.repo_name@ }
    }
}

/// Index of the first occurrence of `c` in `s`, if any.
pub open spec fn find_char(s: Seq<char>, c: char) -> Option<int>
    decreases s.len(),
{
    if s.len() == 0 {
        None
    } else if s[0] == c {
        Some(0int)
    } else {
        match find_char(s.subrange(1, s.len() as int), c) {
            None => None,
            Some(i) => Some(i + 1),
        }
    }
}

/// `find_char` returns the least index holding `c`, or `None` when `c`
/// does not occur.
pub proof fn lemma_find_char_is_first(s: Seq<char>, c: char)
    ensures
        match find_char(s, c) {
            Some(i) => 0 <= i < s.len() && s[i] == c && (forall|j: int| 0 <= j < i ==> s[j] != c),
            None => forall|j: int| 0 <= j < s.len() ==> s[j] != c,
        },
    decreases s.len(),
{
    if s.len() > 0 && s[0] != c {
        let tail = s.subrange(1, s.len() as int);
        lemma_find_char_is_first(tail, c);
        assert forall|j: int| 1 <= j < s.len() implies s[j] == tail[j - 1] by {}
    }
}

/// The conventional version-control suffix stripped from repository names.
pub open spec fn vcs_suffix() -> Seq<char> {
    seq!['.', 'g', 'i', 't']
}

/// `name` with one trailing version-control suffix removed, if present.
pub open spec fn strip_vcs_suffix(name: Seq<char>) -> Seq<char> {
    if name.len() >= 4 && name.subrange(name.len() - 4, name.len() as int) == vcs_suffix() {
        name.subrange(0, name.len() - 4)
    } else {
        name
    }
}

/// A locator path with one leading separator removed, so that the owner
/// segment starts at index zero for both URL-style and SCP-style paths.
pub open spec fn norm_path(path: Seq<char>) -> Seq<char> {
    if path.len() > 0 && path[0] == '/' {
        path.subrange(1, path.len() as int)
    } else {
        path
    }
}

/// What a reference built from a host segment and a locator path must be:
/// the owner is the first path segment, the name is the second with its
/// version-control suffix stripped, and an empty host, a missing owner or
/// a missing name segment is rejected.
pub open spec fn spec_reference(host: Seq<char>, path: Seq<char>) -> Result<RepoRef, ParseError> {
    if host.len() == 0 {
        Err(ParseError::MissingHost)
    } else {
        let q = norm_path(path);
        match find_char(q, '/') {
            None => if q.len() == 0 {
                Err(ParseError::MissingOwner)
            } else {
                Err(ParseError::MissingRepoName)
            },
            Some(i) => if i == 0 {
                Err(ParseError::MissingOwner)
            } else {
                let rest = q.subrange(i + 1, q.len() as int);
                let name_seg = match find_char(rest, '/') {
                    None => rest,
                    Some(j) => rest.subrange(0, j),
                };
                Ok(RepoRef {
                    host,
                    owner: q.subrange(0, i),
                    repo_name: strip_vcs_suffix(name_seg),
                })
            },
        }
    }
}

/// How an executable parse result refines the model-level one.
pub open spec fn reference_matches(
    r: Result<RepoUrl, ParseError>,
    m: Result<RepoRef, ParseError>,
) -> bool {
    match r {
        Ok(u) => m matches Ok(mr) && u@ == mr,
        Err(e) => m matches Err(me) && e == me,
    }
}

/// Index of the first `/` in `s`, if any.
fn find_slash(s: &str) -> (r: Option<usize>)
    ensures
        match r {
            Some(i) => find_char(s@, '/') == Some(i as int),
            None => find_char(s@, '/') is None,
        },
{
    let len = s.unicode_len();
    let mut i: usize = 0;
    while i < len
        invariant
            i <= len,
            len == s@.len(),
            forall|j: int| 0 <= j < i ==> s@[j] != '/',
        decreases len - i,
    {
        if s.get_char(i) == '/' {
            proof {
                lemma_find_char_is_first(s@, '/');
            }
            return Some(i);
        }
        i = i + 1;
    }
    proof {
        lemma_find_char_is_first(s@, '/');
    }
    None
}

/// `name` with one trailing `.git` removed, if present.
fn strip_suffix_exec(name: &str) -> (r: String)
    ensures
        r@ == strip_vcs_suffix(name@),
{
    let len = name.unicode_len();
    if len >= 4 && name.get_char(len - 4) == '.' && name.get_char(len - 3) == 'g'
        && name.get_char(len - 2) == 'i' && name.get_char(len - 1) == 't' {
        proof {
            assert(name@.subrange(len - 4, len as int) =~= vcs_suffix());
        }
        name.substring_char(0, len - 4).to_owned()
    } else {
        proof {
            if name@.len() >= 4 && name@.subrange(name@.len() - 4, name@.len() as int)
                == vcs_suffix() {
                assert(name@[len - 4] == vcs_suffix()[0]);
                assert(name@[len - 3] == vcs_suffix()[1]);
                assert(name@[len - 2] == vcs_suffix()[2]);
                assert(name@[len - 1] == vcs_suffix()[3]);
            }
        }
        name.to_owned()
    }
}

/// What `parse` must return for any locator: the reference assembled from
/// the locator's host and path, or the error naming the part that is
/// missing or malformed.
pub open spec fn spec_parse(s: Seq<char>) -> Result<RepoRef, ParseError> {
    match locator_parts(s) {
        None => Err(ParseError::InvalidLocator),
        Some(parts) => match parts.0 {
            None => Err(ParseError::MissingHost),
            Some(h) => spec_reference(h, parts.1),
        },
    }
}

impl RepoUrl {
    /// Parses a remote repository locator into a reference.
    pub fn parse(locator: &str) -> (r: Result<RepoUrl, ParseError>)
        ensures
            reference_matches(r, spec_parse(locator@)),
    {
        match split_locator(locator) {
            None => Err(ParseError::InvalidLocator),
            Some(parts) => match parts.0 {
                None => Err(ParseError::MissingHost),
                Some(h) => RepoUrl::from_url(h.as_str(), parts.1.as_str()),
            },
        }
    }

    /// Builds a reference from an already-split locator: the host segment
    /// and the path that follows it.
    pub fn from_url(host: &str, path: &str) -> (r: Result<RepoUrl, ParseError>)
        ensures
            reference_matches(r, spec_reference(host@, path@)),
    {
        if host.unicode_len() == 0 {
            return Err(ParseError::MissingHost);
        }
        let plen = path.unicode_len();
        let q: &str = if plen > 0 && path.get_char(0) == '/' {
            path.substring_char(1, plen)
        } else {
            path
        };
        let qlen = q.unicode_len();
        proof {
            assert(q@ == norm_path(path@));
        }
        match find_slash(q) {
            None => {
                if qlen == 0 {
                    Err(ParseError::MissingOwner)
                } else {
                    Err(ParseError::MissingRepoName)
                }
            },
            Some(i) => {
                if i == 0 {
                    Err(ParseError::MissingOwner)
                } else {
                    proof {
                        lemma_find_char_is_first(q@, '/');
                    }
                    let owner = q.substring_char(0, i).to_owned();
                    let rest = q.substring_char(i + 1, qlen);
                    proof {
                        lemma_find_char_is_first(rest@, '/');
                    }
                    let name_seg: &str = match find_slash(rest) {
                        None => rest,
                        Some(j) => rest.substring_char(0, j),
                    };
                    let repo_name = strip_suffix_exec(name_seg);
                    Ok(RepoUrl { host: host.to_owned(), owner, repo_name })
                }
            },
        }
    }
}

/// `find_char` finds exactly the least index holding `c`.
proof fn lemma_find_char_at(s: Seq<char>, c: char, i: int)
    requires
        0 <= i < s.len(),
        s[i] == c,
        forall|j: int| 0 <= j < i ==> s[j] != c,
    ensures
        find_char(s, c) == Some(i),
{
    lemma_find_char_is_first(s, c);
}

/// `find_char` reports absence exactly when no index holds `c`.
proof fn lemma_find_char_absent(s: Seq<char>, c: char)
    requires
        forall|j: int| 0 <= j < s.len() ==> s[j] != c,
    ensures
        find_char(s, c) is None,
{
    lemma_find_char_is_first(s, c);
}

/// Stripping absorbs one appended version-control suffix: the name that a
/// parse produced comes back unchanged when the suffix is re-appended.
pub proof fn lemma_strip_appended_suffix(name: Seq<char>)
    ensures
        strip_vcs_suffix(name + vcs_suffix()) == name,
{
    let w = name + vcs_suffix();
    assert(w.subrange(w.len() - 4, w.len() as int) =~= vcs_suffix());
    assert(w.subrange(0, w.len() - 4) =~= name);
}

/// For any locator path of the form `owner/name`, the reference is exactly
/// `{host, owner, name}` with the version-control suffix stripped from the
/// name.
pub proof fn lemma_reference_of_plain_path(host: Seq<char>, owner: Seq<char>, name: Seq<char>)
    requires
        host.len() > 0,
        owner.len() > 0,
        forall|j: int| 0 <= j < owner.len() ==> owner[j] != '/',
        forall|j: int| 0 <= j < name.len() ==> name[j] != '/',
    ensures
        spec_reference(host, owner + seq!['/'] + name) == Ok::<RepoRef, ParseError>(
            RepoRef { host, owner, repo_name: strip_vcs_suffix(name) },
        ),
{
    let w = owner + seq!['/'] + name;
    assert(w[0] == owner[0]);
    assert(norm_path(w) =~= w);
    let i = owner.len() as int;
    assert(w[i] == '/');
    assert(forall|j: int| 0 <= j < i ==> w[j] == owner[j]);
    lemma_find_char_at(w, '/', i);
    assert(w.subrange(0, i) =~= owner);
    let rest = w.subrange(i + 1, w.len() as int);
    assert(rest =~= name);
    lemma_find_char_absent(rest, '/');
}

/// Suffix stripping is idempotent across a re-parse: appending the
/// version-control suffix to a parsed name and parsing the rebuilt
/// `owner/name` path yields the same reference again.
pub proof fn lemma_suffix_strip_round_trip(host: Seq<char>, owner: Seq<char>, name: Seq<char>)
    requires
        host.len() > 0,
        owner.len() > 0,
        forall|j: int| 0 <= j < owner.len() ==> owner[j] != '/',
        forall|j: int| 0 <= j < name.len() ==> name[j] != '/',
    ensures
        ({
            let first = spec_reference(host, owner + seq!['/'] + name);
            let again = spec_reference(
                host,
                owner + seq!['/'] + first->Ok_0.repo_name + vcs_suffix(),
            );
            again == first
        }),
{
    lemma_reference_of_plain_path(host, owner, name);
    let stripped = strip_vcs_suffix(name);
    assert forall|j: int| 0 <= j < stripped.len() implies stripped[j] != '/' by {
        assert(stripped[j] == name[j]);
    }
    let rebuilt = stripped + vcs_suffix();
    assert forall|j: int| 0 <= j < rebuilt.len() implies rebuilt[j] != '/' by {
        if j < stripped.len() {
            assert(rebuilt[j] == stripped[j]);
        } else {
            assert(rebuilt[j] == vcs_suffix()[j - stripped.len()]);
        }
    }
    lemma_reference_of_plain_path(host, owner, rebuilt);
    lemma_strip_appended_suffix(stripped);
    assert(owner + seq!['/'] + stripped + vcs_suffix() =~= owner + seq!['/'] + rebuilt);
}

} // verus!
