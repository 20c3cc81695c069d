//! Configuration model and the path resolver: maps a repository reference
//! plus per-host layout rules to its canonical local directory.

use crate::repo_url::{RepoRef, RepoUrl};
use vstd::prelude::*;

verus! {

/// Per-host layout rule: `flatten` omits the owner segment from the
/// canonical path.
#[derive(Clone, Copy, Debug, PartialEq, Eq, Structural)]
pub struct HostConfig {
    pub flatten: bool,
}

/// General settings: the root directory that every canonical path starts
/// from.
#[derive(Clone, Debug)]
pub struct ConfigConfig {
    pub src_dir: String,
}

/// The configuration: the source root, per-host layout rules looked up by
/// host name (first match wins), and the hosts synchronized to when the
/// invocation names none.
pub struct Config {
    pub config: ConfigConfig,
    pub hosts: Vec<(String, HostConfig)>,
    pub sync_default: Vec<String>,
}

/// The flatten rule for `host`: the first matching entry decides, and a
/// host without an entry is not flattened.
pub open spec fn spec_flatten_rule(hosts: Seq<(String, HostConfig)>, host: Seq<char>) -> bool
    decreases hosts.len(),
{
    if hosts.len() == 0 {
        false
    } else if hosts[0].0@ == host {
        hosts[0].1.flatten
    } else {
        spec_flatten_rule(hosts.subrange(1, hosts.len() as int), host)
    }
}

/// Character-for-character equality of two string slices.
pub fn str_eq(a: &str, b: &str) -> (r: bool)
    ensures
        r == (a@ == b@),
{
    let alen = a.unicode_len();
    let blen = b.unicode_len();
    if alen != blen {
        proof {
            if a@ == b@ {
                assert(a@.len() == b@.len());
            }
        }
        return false;
    }
    let mut i: usize = 0;
    while i < alen
        invariant
            i <= alen,
            alen == a@.len(),
            alen == b@.len(),
            forall|j: int| 0 <= j < i ==> a@[j] == b@[j],
        decreases alen - i,
    {
        if a.get_char(i) != b.get_char(i) {
            proof {
                if a@ == b@ {
                    assert(a@[i as int] == b@[i as int]);
                }
            }
            return false;
        }
        i = i + 1;
    }
    proof {
        assert(a@ =~= b@);
    }
    true
}

impl Config {
    /// The canonical directory for `r`: the source root, then the host,
    /// then — unless a flatten rule says otherwise — the owner, then the
    /// repository name.
    pub open spec fn spec_directory_for(&self, r: RepoRef) -> Seq<char> {
        let base = self.config.src_dir@ + "/"@ + r.host;
        let with_owner = if spec_flatten_rule(self.hosts@, r.host) {
            base
        } else {
            base + "/"@ + r.owner
        };
        with_owner + "/"@ + r.repo_name
    }

    /// The flatten rule configured for `host`, defaulting to `false`.
    pub fn flatten_for(&self, host: &str) -> (r: bool)
        ensures
            r == spec_flatten_rule(self.hosts@, host@),
    {
        let n = self.hosts.len();
        let mut i: usize = 0;
        proof {
            assert(self.hosts@.subrange(0, n as int) =~= self.hosts@);
        }
        while i < n
            invariant
                i <= n,
                n == self.hosts@.len(),
                spec_flatten_rule(self.hosts@, host@) == spec_flatten_rule(
                    self.hosts@.subrange(i as int, n as int),
                    host@,
                ),
            decreases n - i,
        {
            let matched = str_eq(self.hosts[i].0.as_str(), host);
            proof {
                assert(self.hosts@.subrange(i as int, n as int)[0] == self.hosts@[i as int]);
                assert(self.hosts@.subrange(i as int, n as int).subrange(
                    1,
                    (n - i) as int,
                ) =~= self.hosts@.subrange(i + 1, n as int));
            }
            if matched {
                return self.hosts[i].1.flatten;
            }
            i = i + 1;
        }
        false
    }

    /// Resolves the canonical local directory for `repo`. Pure: touches no
    /// filesystem state.
    pub fn get_directory_for(&self, repo: &RepoUrl) -> (r: String)
        ensures
            r@ == self.spec_directory_for(repo@),
    {
        let mut ret = self.config.src_dir.clone();
        ret.append("/");
        ret.append(repo.host.as_str());
        if !self.flatten_for(repo.host.as_str()) {
            ret.append("/");
            ret.append(repo.owner.as_str());
        }
        ret.append("/");
        ret.append(repo.repo_name.as_str());
        ret
    }
}

/// What tilde expansion must yield: `~/rest` becomes `home/rest`, a bare
/// `~` becomes `home`, and anything else passes through unchanged.
pub open spec fn spec_expanduser(path: Seq<char>, home: Seq<char>) -> Seq<char> {
    if path.len() >= 2 && path[0] == '~' && path[1] == '/' {
        home + "/"@ + path.subrange(2, path.len() as int)
    } else if path.len() == 1 && path[0] == '~' {
        home
    } else {
        path
    }
}

/// Expands a leading `~` in `path` to `home`.
pub fn expanduser(path: &str, home: &str) -> (r: String)
    ensures
        r@ == spec_expanduser(path@, home@),
{
    let len = path.unicode_len();
    if len >= 2 && path.get_char(0) == '~' && path.get_char(1) == '/' {
        let mut ret = home.to_owned();
        ret.append("/");
        ret.append(path.substring_char(2, len));
        ret
    } else if len == 1 && path.get_char(0) == '~' {
        home.to_owned()
    } else {
        path.to_owned()
    }
}

/// The layout law: without a flatten rule the canonical path is
/// `root/host/owner/name`; with one it is `root/host/name`.
pub proof fn lemma_resolve_layout(cfg: Config, r: RepoRef)
    ensures
        !spec_flatten_rule(cfg.hosts@, r.host) ==> cfg.spec_directory_for(r) == cfg.config.src_dir@
            + "/"@ + r.host + "/"@ + r.owner + "/"@ + r.repo_name,
        spec_flatten_rule(cfg.hosts@, r.host) ==> cfg.spec_directory_for(r) == cfg.config.src_dir@
            + "/"@ + r.host + "/"@ + r.repo_name,
{
}

/// A host with no configured rule behaves as `flatten = false`.
pub proof fn lemma_missing_rule_is_not_flattened(hosts: Seq<(String, HostConfig)>, host: Seq<char>)
    requires
        forall|i: int| 0 <= i < hosts.len() ==> hosts[i].0@ != host,
    ensures
        !spec_flatten_rule(hosts, host),
    decreases hosts.len(),
{
    if hosts.len() > 0 {
        let tail = hosts.subrange(1, hosts.len() as int);
        assert forall|i: int| 0 <= i < tail.len() implies tail[i].0@ != host by {
            assert(tail[i] == hosts[i + 1]);
        }
        lemma_missing_rule_is_not_flattened(tail, host);
    }
}

/// The expansion law: `~/rest` resolves below the home directory, a bare
/// `~` resolves to it, and a path that does not start with `~` is
/// returned unchanged.
pub proof fn lemma_expanduser_cases(path: Seq<char>, home: Seq<char>)
    ensures
        path.len() >= 2 && path[0] == '~' && path[1] == '/' ==> spec_expanduser(path, home)
            == home + "/"@ + path.subrange(2, path.len() as int),
        path.len() == 1 && path[0] == '~' ==> spec_expanduser(path, home) == home,
        !(path.len() >= 1 && path[0] == '~') ==> spec_expanduser(path, home) == path,
{
}

} // verus!
