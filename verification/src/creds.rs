//! The credential-negotiation rules used during the git handshake.
//!
//! The git transport negotiates in rounds: it may first ask only for a
//! username, then for the actual secret, each time naming which credential
//! kinds it accepts. The secrets are resolved (file-backed ones read) once
//! per fetch attempt, before the handshake, outside the library; each round's
//! answer is decided here.

use vstd::prelude::*;
use crate::repo::UpdateError;

verus! {

/// Which credential kinds the transport accepts in the current round.
#[derive(Clone, Copy, Debug)]
pub struct AllowedTypes {
    pub username: bool,
    pub ssh_key: bool,
    pub user_pass_plaintext: bool,
}

/// SSH credentials with every secret resolved to its plain value.
#[derive(Clone, Debug)]
pub struct ResolvedSsh {
    pub username: String,
    pub public_key: Option<String>,
    pub private_key: String,
    pub passphrase: Option<String>,
}

/// Password credentials with the password resolved to its plain value.
#[derive(Clone, Debug)]
pub struct ResolvedPassword {
    pub username: String,
    pub password: String,
}

/// The repository's configured authentication mode, secrets resolved.
#[derive(Clone, Debug)]
pub enum ResolvedCredentials {
    Ssh(ResolvedSsh),
    Password(ResolvedPassword),
}

/// The credential a negotiation round answers with.
#[derive(Clone, Debug)]
pub enum CredChoice {
    /// Only the username, without touching any secret.
    Username(String),
    /// A plaintext username and password pair.
    UserPass(String, String),
    /// An in-memory SSH key; the public key is optional.
    SshKey {
        username: String,
        public_key: Option<String>,
        private_key: String,
        passphrase: Option<String>,
    },
}

/// The answer to one negotiation round.
///
/// With password credentials the transport's username hint must match the
/// configured username; then a username-only round is answered with the
/// username and a plaintext round with the pair. With SSH credentials a
/// username-only round is answered with the username and a key round with
/// the in-memory key. Everything else — no credentials configured though
/// the transport demands some, or a mode mismatch — fails the negotiation.
pub open spec fn spec_answer(
    creds: Option<ResolvedCredentials>,
    username_hint: Option<String>,
    allowed: AllowedTypes,
) -> Result<CredChoice, UpdateError> {
    match creds {
        None => Err(UpdateError::Auth),
        Some(ResolvedCredentials::Password(p)) => if !(username_hint matches Some(u)
            && u@ == p.username@) {
            Err(UpdateError::Auth)
        } else if allowed.username {
            Ok(CredChoice::Username(p.username))
        } else if allowed.user_pass_plaintext {
            Ok(CredChoice::UserPass(p.username, p.password))
        } else {
            Err(UpdateError::Auth)
        },
        Some(ResolvedCredentials::Ssh(s)) => if allowed.username {
            Ok(CredChoice::Username(s.username))
        } else if allowed.ssh_key {
            Ok(
                CredChoice::SshKey {
                    username: s.username,
                    public_key: s.public_key,
                    private_key: s.private_key,
                    passphrase: s.passphrase,
                },
            )
        } else {
            Err(UpdateError::Auth)
        },
    }
}

/// Answer one round of the credential negotiation.
pub fn answer_challenge(
    creds: Option<ResolvedCredentials>,
    username_hint: Option<String>,
    allowed: AllowedTypes,
) -> (r: Result<CredChoice, UpdateError>)
    ensures
        r == spec_answer(creds, username_hint, allowed),
{
    match creds {
        None => Err(UpdateError::Auth),
        Some(ResolvedCredentials::Password(p)) => {
            let hint_matches = match &username_hint {
                Some(u) => *u == p.username,
                None => false,
            };
            if !hint_matches {
                Err(UpdateError::Auth)
            } else if allowed.username {
                Ok(CredChoice::Username(p.username))
            } else if allowed.user_pass_plaintext {
                Ok(CredChoice::UserPass(p.username, p.password))
            } else {
                Err(UpdateError::Auth)
            }
        },
        Some(ResolvedCredentials::Ssh(s)) => {
            if allowed.username {
                Ok(CredChoice::Username(s.username))
            } else if allowed.ssh_key {
                Ok(
                    CredChoice::SshKey {
                        username: s.username,
                        public_key: s.public_key,
                        private_key: s.private_key,
                        passphrase: s.passphrase,
                    },
                )
            } else {
                Err(UpdateError::Auth)
            }
        },
    }
}

} // verus!
