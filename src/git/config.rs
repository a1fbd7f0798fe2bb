//! The policy store: which repositories may be triggered, with which secret,
//! for which event, and what is done then.

use crate::text::str_eq;
use vstd::prelude::*;

verus! {

/// The event that a policy reacts to.
#[derive(Debug, PartialEq, Eq, Structural)]
pub enum Event {
    Push,
}

/// The hosting service that sends the webhook.
#[derive(Debug, PartialEq, Eq, Structural)]
pub enum Service {
    Github,
}

/// What is done once a request has been authenticated.
#[derive(Debug)]
pub enum Action {
    Pull { path: String, remote: String, branch: String, ssh_key_path: String },
}

/// A policy entry as the configuration file writes it.
#[derive(Debug)]
pub struct UserPolicy {
    pub service: Service,
    /// `"owner/repo"`.
    pub full_repo_name: String,
    pub secret: String,
    pub event: Event,
    pub action: Action,
}

/// The configuration file's contents.
#[derive(Debug)]
pub struct UserConfig {
    pub policies: Vec<UserPolicy>,
}

/// A policy, with its repository identity split and its remote derived.
#[derive(Debug)]
pub struct Policy {
    pub secret: String,
    pub service: Service,
    pub user: String,
    pub repo_name: String,
    pub full_repo_name: String,
    pub ssh_url: String,
    pub event: Event,
    pub action: Action,
}

/// Why a configuration cannot become a policy store.
#[derive(Debug, PartialEq, Eq, Structural)]
pub enum ConfigError {
    /// A `full_repo_name` is not two non-empty segments around one `/`.
    InvalidRepoName,
    /// Two policies share a `repo_name`.
    DuplicateRepoName,
}

/// The policy store: policies in configuration order, each `repo_name` once.
#[derive(Debug)]
pub struct Config {
    pub policies: Vec<Policy>,
}

/// `s` is `owner/repo` with its only `/` at `k` and both sides non-empty.
pub open spec fn is_split_at(s: Seq<char>, k: int) -> bool {
    &&& 0 < k < s.len() - 1
    &&& s[k] == '/'
    &&& forall|i: int| 0 <= i < s.len() && i != k ==> s[i] != '/'
}

/// `s` is two non-empty segments around exactly one `/`.
pub open spec fn valid_full_name(s: Seq<char>) -> bool {
    exists|k: int| is_split_at(s, k)
}

/// Position of the `/` in a valid full repository name.
pub open spec fn slash_index(s: Seq<char>) -> int {
    choose|k: int| is_split_at(s, k)
}

/// The owner segment of a valid full repository name.
pub open spec fn owner_of(s: Seq<char>) -> Seq<char> {
    s.take(slash_index(s))
}

/// The repository segment of a valid full repository name.
pub open spec fn repo_of(s: Seq<char>) -> Seq<char> {
    s.skip(slash_index(s) + 1)
}

/// The SSH remote of a repository hosted on GitHub.
pub open spec fn ssh_url_of(full: Seq<char>) -> Seq<char> {
    "git@github.com:"@ + full + ".git"@
}

/// `p` is the policy that `up` describes.
pub open spec fn policy_of(p: Policy, up: UserPolicy) -> bool {
    let f = up.full_repo_name@;
    &&& p.secret == up.secret
    &&& p.service == up.service
    &&& p.user@ == owner_of(f)
    &&& p.repo_name@ == repo_of(f)
    &&& p.full_repo_name@ == f
    &&& p.ssh_url@ == ssh_url_of(f)
    &&& p.event == up.event
    &&& p.action == up.action
}

/// Every entry has a valid full repository name.
pub open spec fn all_names_valid(ups: Seq<UserPolicy>) -> bool {
    forall|i: int| 0 <= i < ups.len() ==> valid_full_name(#[trigger] ups[i].full_repo_name@)
}

/// Two entries name the same repository.
pub open spec fn has_duplicate(ups: Seq<UserPolicy>) -> bool {
    exists|i: int, j: int|
        0 <= i < j < ups.len() && repo_of(#[trigger] ups[i].full_repo_name@) == repo_of(
            #[trigger] ups[j].full_repo_name@,
        )
}

/// No two policies share a `repo_name`.
pub open spec fn names_unique(ps: Seq<Policy>) -> bool {
    forall|i: int, j: int|
        0 <= i < j < ps.len() ==> (#[trigger] ps[i]).repo_name@ != (#[trigger] ps[j]).repo_name@
}

/// `ps` are the policies that `ups` describe, in the same order.
pub open spec fn policies_of(ps: Seq<Policy>, ups: Seq<UserPolicy>) -> bool {
    &&& ps.len() == ups.len()
    &&& forall|i: int| 0 <= i < ps.len() ==> policy_of(#[trigger] ps[i], ups[i])
}

/// Index of the policy named `name`, if there is one.
pub open spec fn find_policy(ps: Seq<Policy>, name: Seq<char>) -> Option<int> {
    if exists|i: int| 0 <= i < ps.len() && (#[trigger] ps[i]).repo_name@ == name {
        Some(choose|i: int| 0 <= i < ps.len() && (#[trigger] ps[i]).repo_name@ == name)
    } else {
        None
    }
}

/// The slash of a valid full name is the one `slash_index` picks.
pub proof fn lemma_split_unique(s: Seq<char>, k: int)
    requires
        is_split_at(s, k),
    ensures
        slash_index(s) == k,
{
    let j = slash_index(s);
    assert(is_split_at(s, j));
}

/// With unique names, any policy named `name` is the one `find_policy` picks.
pub proof fn lemma_find_unique(ps: Seq<Policy>, name: Seq<char>, i: int)
    requires
        names_unique(ps),
        0 <= i < ps.len(),
        ps[i].repo_name@ == name,
    ensures
        find_policy(ps, name) == Some(i),
{
    let j = choose|j: int| 0 <= j < ps.len() && (#[trigger] ps[j]).repo_name@ == name;
    if j < i {
        assert(ps[j].repo_name@ != ps[i].repo_name@);
    } else if i < j {
        assert(ps[i].repo_name@ != ps[j].repo_name@);
    }
}

pub(crate) fn clone_string(s: &String) -> (r: String)
    ensures
        r == *s,
{
    s.clone()
}

impl Action {
    /// A copy of this action.
    pub fn duplicate(&self) -> (r: Action)
        ensures
            r == *self,
    {
        match self {
            Action::Pull { path, remote, branch, ssh_key_path } => Action::Pull {
                path: clone_string(path),
                remote: clone_string(remote),
                branch: clone_string(branch),
                ssh_key_path: clone_string(ssh_key_path),
            },
        }
    }
}

impl Event {
    fn duplicate(&self) -> (r: Event)
        ensures
            r == *self,
    {
        match self {
            Event::Push => Event::Push,
        }
    }
}

impl Service {
    fn duplicate(&self) -> (r: Service)
        ensures
            r == *self,
    {
        match self {
            Service::Github => Service::Github,
        }
    }
}

impl Policy {
    /// Builds the policy that `up` describes; fails when its full repository
    /// name is not `owner/repo` with both segments non-empty.
    pub fn from_user_policy(up: &UserPolicy) -> (r: Result<Policy, ConfigError>)
        ensures
            r is Ok <==> valid_full_name(up.full_repo_name@),
            match r {
                Ok(p) => policy_of(p, *up),
                Err(e) => e == ConfigError::InvalidRepoName,
            },
    {
        let f = up.full_repo_name.as_str();
        let n = f.unicode_len();
        let mut slashes: usize = 0;
        let mut pos: usize = 0;
        let mut i: usize = 0;
        while i < n
            invariant
                n == f@.len(),
                f@ == up.full_repo_name@,
                i <= n,
                slashes <= i,
                slashes == 0 ==> forall|j: int| 0 <= j < i ==> f@[j] != '/',
                slashes == 1 ==> pos < i && f@[pos as int] == '/' && forall|j: int|
                    0 <= j < i && j != pos ==> f@[j] != '/',
                slashes >= 2 ==> exists|a: int, b: int|
                    0 <= a < b < i && f@[a] == '/' && f@[b] == '/',
            decreases n - i,
        {
            if f.get_char(i) == '/' {
                if slashes == 0 {
                    pos = i;
                } else if slashes == 1 {
                    assert(0 <= pos < i && f@[pos as int] == '/' && f@[i as int] == '/');
                }
                slashes = if slashes < 2 { slashes + 1 } else { 2 };
            }
            i = i + 1;
        }
        if slashes != 1 || pos == 0 || pos + 1 == n {
            proof {
                if valid_full_name(f@) {
                    let k = choose|k: int| is_split_at(f@, k);
                    if slashes >= 2 {
                        let (a, b) = choose|a: int, b: int|
                            0 <= a < b < n && f@[a] == '/' && f@[b] == '/';
                        assert(a == k && b == k);
                    } else if slashes == 1 {
                        assert(k == pos);
                    } else {
                        assert(f@[k] != '/');
                    }
                }
            }
            return Err(ConfigError::InvalidRepoName);
        }
        proof {
            assert(is_split_at(f@, pos as int));
            lemma_split_unique(f@, pos as int);
        }
        let user = String::from_str(f.substring_char(0, pos));
        let repo_name = String::from_str(f.substring_char(pos + 1, n));
        let mut ssh_url = String::from_str("git@github.com:");
        ssh_url.append(f);
        ssh_url.append(".git");
        proof {
            assert(user@ =~= owner_of(f@));
            assert(repo_name@ =~= repo_of(f@));
        }
        Ok(
            Policy {
                secret: clone_string(&up.secret),
                service: up.service.duplicate(),
                user,
                repo_name,
                full_repo_name: clone_string(&up.full_repo_name),
                ssh_url,
                event: up.event.duplicate(),
                action: up.action.duplicate(),
            },
        )
    }
}

impl Config {
    /// The store's invariant: each `repo_name` names one policy.
    pub open spec fn wf(&self) -> bool {
        names_unique(self.policies@)
    }

    /// Builds the store from the configuration's entries, in their order.
    /// Fails with `InvalidRepoName` when an entry's full repository name is
    /// malformed, else with `DuplicateRepoName` when two entries name the same
    /// repository; no store is built then.
    pub fn from_user_config(user_config: UserConfig) -> (r: Result<Config, ConfigError>)
        ensures
            r is Ok <==> all_names_valid(user_config.policies@) && !has_duplicate(
                user_config.policies@,
            ),
            match r {
                Ok(c) => c.wf() && policies_of(c.policies@, user_config.policies@),
                Err(e) => if all_names_valid(user_config.policies@) {
                    e == ConfigError::DuplicateRepoName
                } else {
                    e == ConfigError::InvalidRepoName
                },
            },
    {
        let ups = &user_config.policies;
        let n = ups.len();
        let mut policies: Vec<Policy> = Vec::new();
        let mut i: usize = 0;
        while i < n
            invariant
                n == ups@.len(),
                ups@ == user_config.policies@,
                i <= n,
                policies@.len() == i,
                forall|j: int| 0 <= j < i ==> valid_full_name(#[trigger] ups@[j].full_repo_name@),
                forall|j: int| 0 <= j < i ==> policy_of(#[trigger] policies@[j], ups@[j]),
            decreases n - i,
        {
            match Policy::from_user_policy(&ups[i]) {
                Ok(p) => policies.push(p),
                Err(e) => return Err(e),
            }
            i = i + 1;
        }
        let mut a: usize = 0;
        while a < n
            invariant
                n == ups@.len(),
                ups@ == user_config.policies@,
                all_names_valid(ups@),
                policies_of(policies@, ups@),
                a <= n,
                forall|x: int, y: int|
                    0 <= x < a && x < y < n ==> (#[trigger] policies@[x]).repo_name@
                        != (#[trigger] policies@[y]).repo_name@,
            decreases n - a,
        {
            let mut b: usize = a + 1;
            while b < n
                invariant
                    n == ups@.len(),
                ups@ == user_config.policies@,
                    all_names_valid(ups@),
                    policies_of(policies@, ups@),
                    a < n,
                    a + 1 <= b <= n,
                    forall|x: int, y: int|
                        0 <= x < a && x < y < n ==> (#[trigger] policies@[x]).repo_name@
                            != (#[trigger] policies@[y]).repo_name@,
                    forall|y: int|
                        a < y < b ==> policies@[a as int].repo_name@
                            != (#[trigger] policies@[y]).repo_name@,
                decreases n - b,
            {
                if policies[a].repo_name == policies[b].repo_name {
                    proof {
                        assert(policy_of(policies@[a as int], ups@[a as int]));
                        assert(policy_of(policies@[b as int], ups@[b as int]));
                    }
                    return Err(ConfigError::DuplicateRepoName);
                }
                b = b + 1;
            }
            a = a + 1;
        }
        proof {
            if has_duplicate(ups@) {
                let (x, y) = choose|x: int, y: int|
                    0 <= x < y < ups@.len() && repo_of(#[trigger] ups@[x].full_repo_name@)
                        == repo_of(#[trigger] ups@[y].full_repo_name@);
                assert(policy_of(policies@[x], ups@[x]));
                assert(policy_of(policies@[y], ups@[y]));
            }
        }
        Ok(Config { policies })
    }

    /// Position of the policy named `repo_name`, if there is one.
    pub fn policy_index(&self, repo_name: &str) -> (r: Option<usize>)
        requires
            self.wf(),
        ensures
            match r {
                Some(i) => find_policy(self.policies@, repo_name@) == Some(i as int),
                None => find_policy(self.policies@, repo_name@) is None,
            },
    {
        let n = self.policies.len();
        let mut i: usize = 0;
        while i < n
            invariant
                self.wf(),
                n == self.policies@.len(),
                i <= n,
                forall|j: int| 0 <= j < i ==> (#[trigger] self.policies@[j]).repo_name@ != repo_name@,
            decreases n - i,
        {
            if str_eq(self.policies[i].repo_name.as_str(), repo_name) {
                proof {
                    lemma_find_unique(self.policies@, repo_name@, i as int);
                }
                return Some(i);
            }
            i = i + 1;
        }
        None
    }

    /// The policy named `repo_name`, if there is one.
    pub fn get_policy_from_name(&self, repo_name: &str) -> (r: Option<&Policy>)
        requires
            self.wf(),
        ensures
            match find_policy(self.policies@, repo_name@) {
                Some(i) => r == Some(&self.policies@[i]),
                None => r is None,
            },
    {
        match self.policy_index(repo_name) {
            Some(i) => Some(&self.policies[i]),
            None => None,
        }
    }
}

/// A store built from entries with distinct repository names finds each entry's
/// policy under its repository name, and finds nothing under any other name;
/// entries that share a repository name never yield a store.
pub proof fn lemma_store_lookup(ups: Seq<UserPolicy>, c: Config, name: Seq<char>)
    requires
        policies_of(c.policies@, ups),
        c.wf(),
    ensures
        !has_duplicate(ups),
        forall|i: int|
            0 <= i < ups.len() ==> find_policy(c.policies@, repo_of(#[trigger] ups[i].full_repo_name@))
                == Some(i),
        forall|i: int|
            0 <= i < ups.len() ==> (#[trigger] c.policies@[i]).repo_name@ == repo_of(
                ups[i].full_repo_name@,
            ),
        (forall|i: int| 0 <= i < ups.len() ==> repo_of(#[trigger] ups[i].full_repo_name@) != name)
            ==> find_policy(c.policies@, name) is None,
{
    let ps = c.policies@;
    assert forall|i: int| 0 <= i < ups.len() implies find_policy(
        ps,
        repo_of(#[trigger] ups[i].full_repo_name@),
    ) == Some(i) by {
        assert(policy_of(ps[i], ups[i]));
        lemma_find_unique(ps, repo_of(ups[i].full_repo_name@), i);
    }
    assert forall|i: int| 0 <= i < ups.len() implies (#[trigger] ps[i]).repo_name@ == repo_of(
        ups[i].full_repo_name@,
    ) by {
        assert(policy_of(ps[i], ups[i]));
    }
    if has_duplicate(ups) {
        let (x, y) = choose|x: int, y: int|
            0 <= x < y < ups.len() && repo_of(#[trigger] ups[x].full_repo_name@) == repo_of(
                #[trigger] ups[y].full_repo_name@,
            );
        assert(policy_of(ps[x], ups[x]));
        assert(policy_of(ps[y], ups[y]));
    }
    if forall|i: int| 0 <= i < ups.len() ==> repo_of(#[trigger] ups[i].full_repo_name@) != name {
        if exists|i: int| 0 <= i < ps.len() && (#[trigger] ps[i]).repo_name@ == name {
            let i = choose|i: int| 0 <= i < ps.len() && (#[trigger] ps[i]).repo_name@ == name;
            assert(policy_of(ps[i], ups[i]));
        }
    }
}

} // verus!
