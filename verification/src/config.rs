//! Static per-repository configuration: where the working copy lives, which
//! remote branch it follows, how to authenticate, and how updates may be
//! triggered.

use vstd::prelude::*;
use vstd::string::StringExecFns;

verus! {

/// An opaque value resolvable either directly or by reading a file at
/// use-time. Resolution (reading the file) is I/O and happens outside the
/// library; the resolved value is handed back in as a plain string.
#[derive(Clone, Debug)]
pub enum Secret {
    Literal(String),
    File { file: String },
}

/// SSH credentials: the private key and passphrase are secrets, resolved
/// fresh for every fetch attempt.
#[derive(Clone, Debug)]
pub struct SshCredentials {
    pub username: String,
    pub public_key: Option<String>,
    pub private_key: Secret,
    pub passphrase: Option<Secret>,
}

/// Username and password credentials; the password is a secret.
#[derive(Clone, Debug)]
pub struct PasswordCredentials {
    pub username: String,
    pub password: Secret,
}

/// Exactly one authentication mode is active per repository.
#[derive(Clone, Debug)]
pub enum Credentials {
    Ssh(SshCredentials),
    Password(PasswordCredentials),
}

/// Webhook policy that accepts any POST without validation.
#[derive(Clone, Debug)]
pub struct PlainWebhook {}

/// GitHub webhook policy: an optional shared secret for signature checking
/// and an optional branch-match switch (absent means "check the branch").
#[derive(Clone, Debug)]
pub struct GitHubWebhook {
    pub secret: Option<Secret>,
    pub check_branch: Option<bool>,
}

/// GitLab webhook policy: an optional shared token and an optional
/// branch-match switch (absent means "check the branch").
#[derive(Clone, Debug)]
pub struct GitLabWebhook {
    pub token: Option<Secret>,
    pub check_branch: Option<bool>,
}

/// The webhook policy configured for a repository.
#[derive(Clone, Debug)]
pub enum Webhook {
    Plain(PlainWebhook),
    GitHub(GitHubWebhook),
    GitLab(GitLabWebhook),
}

/// A periodic check interval, in milliseconds. Absence of an `Interval` in
/// the configuration means "no periodic checking".
#[derive(Clone, Debug)]
pub struct Interval {
    pub interval: u64,
}

/// The static fields of one repository unit, created once at startup and
/// immutable thereafter.
#[derive(Clone, Debug)]
pub struct Config {
    pub path: String,
    pub remote_url: String,
    pub remote_branch: String,
    pub on_change: Option<String>,
    pub credentials: Option<Credentials>,
    pub interval: Option<Interval>,
    pub webhook: Option<Webhook>,
}

/// `check_branch` defaults to true when absent: an event is acted on only if
/// its declared ref matches the configured remote branch.
pub open spec fn spec_check_branch(check_branch: Option<bool>) -> bool {
    match check_branch {
        Some(b) => b,
        None => true,
    }
}

/// Executable form of the `check_branch` default.
pub fn check_branch_effective(check_branch: &Option<bool>) -> (r: bool)
    ensures
        r == spec_check_branch(*check_branch),
{
    match check_branch {
        Some(b) => *b,
        None => true,
    }
}

impl Config {
    /// The fully-qualified remote ref that this repository follows.
    pub fn remote_ref(&self) -> (r: String)
        ensures
            r@ == "refs/heads/"@ + self.remote_branch@,
    {
        let mut r = String::from_str("refs/heads/");
        r.append(self.remote_branch.as_str());
        r
    }
}

} // verus!
