//! The user-facing configuration of one account, and the completion of
//! its secrets from the account name.
use vstd::prelude::*;
use vstd::string::StringExecFns;

use crate::backend::{BackendConfig, BackendGlobalConfig, ImapAuthConfig, Secret};
use crate::sync_config::{EnvelopeSyncFilters, FolderSyncStrategy};

verus! {

/// The folders that an account synchronizes.
#[derive(Clone, Debug, PartialEq, Eq)]
pub struct FolderConfig {
    pub filter: FolderSyncStrategy,
}

/// The envelopes that an account synchronizes.
#[derive(Clone, Debug, PartialEq, Eq)]
pub struct EnvelopeConfig {
    pub filter: EnvelopeSyncFilters,
}

/// The configuration of one account: its two sides, and the policies
/// shared by both.
#[derive(Clone, Debug, PartialEq, Eq)]
pub struct AccountConfig {
    /// Whether this account is the one used when none is named; unset
    /// means no.
    pub default: Option<bool>,
    /// The folders to synchronize; unset means the default strategy.
    pub folder: Option<FolderConfig>,
    /// The envelopes to synchronize; unset means the default filters.
    pub envelope: Option<EnvelopeConfig>,
    /// One side of the synchronization.
    pub left: BackendGlobalConfig,
    /// The other side of the synchronization.
    pub right: BackendGlobalConfig,
}

/// Why the secrets of an account could not be completed.
#[derive(Clone, Copy, Debug, PartialEq, Eq)]
pub enum ConfigureError {
    /// A keyring entry cannot be named after an empty account name.
    EmptyAccountName,
}

/// The keyring entry that holds the IMAP password of the account `name`.
pub open spec fn default_keyring_entry(name: Seq<char>) -> Seq<char> {
    name + "-imap-passwd"@
}

/// The backend holds a secret whose source is not given yet.
pub open spec fn has_undefined_secret(b: BackendConfig) -> bool {
    match b {
        BackendConfig::Imap(c) => match c.auth {
            ImapAuthConfig::Password(s) => s is Undefined,
        },
        _ => false,
    }
}

/// `new` is `old` with each undefined secret replaced by the keyring
/// entry named after the account `name`.
pub open spec fn backend_configured(old: BackendConfig, new: BackendConfig, name: Seq<char>) -> bool {
    if has_undefined_secret(old) {
        match (old, new) {
            (BackendConfig::Imap(o), BackendConfig::Imap(n)) => {
                &&& n.host == o.host
                &&& n.port == o.port
                &&& n.login == o.login
                &&& match n.auth {
                    ImapAuthConfig::Password(Secret::KeyringEntry(e)) => e@ == default_keyring_entry(name),
                    _ => false,
                }
            },
            _ => false,
        }
    } else {
        new == old
    }
}

/// `new` is `old` with the undefined secrets of both sides completed from
/// the account `name`, and nothing else changed.
pub open spec fn account_configured(old: AccountConfig, new: AccountConfig, name: Seq<char>) -> bool {
    &&& new.default == old.default
    &&& new.folder == old.folder
    &&& new.envelope == old.envelope
    &&& new.left.folder == old.left.folder
    &&& new.left.flag == old.left.flag
    &&& new.left.message == old.left.message
    &&& new.right.folder == old.right.folder
    &&& new.right.flag == old.right.flag
    &&& new.right.message == old.right.message
    &&& backend_configured(old.left.backend, new.left.backend, name)
    &&& backend_configured(old.right.backend, new.right.backend, name)
}

/// Completing the secrets of the account fails: some secret is undefined
/// and the account name is empty.
pub open spec fn configure_fails(a: AccountConfig, name: Seq<char>) -> bool {
    &&& name.len() == 0
    &&& (has_undefined_secret(a.left.backend) || has_undefined_secret(a.right.backend))
}

/// Replaces an undefined secret of `backend` by the keyring entry named
/// after the account.
fn configure_backend(backend: &mut BackendConfig, account_name: &str) -> (r: Result<
    (),
    ConfigureError,
>)
    ensures
        r is Err <==> has_undefined_secret(*old(backend)) && account_name@.len() == 0,
        r is Ok ==> backend_configured(*old(backend), *final(backend), account_name@),
        r is Err ==> *final(backend) == *old(backend),
{
    match backend {
        BackendConfig::Imap(config) => {
            match &mut config.auth {
                ImapAuthConfig::Password(secret) => {
                    if let Secret::Undefined = secret {
                        if account_name.is_empty() {
                            return Err(ConfigureError::EmptyAccountName);
                        }
                        let mut entry = String::from_str(account_name);
                        entry.append("-imap-passwd");
                        *secret = Secret::KeyringEntry(entry);
                    }
                },
            }
        },
        _ => {},
    }
    Ok(())
}

impl AccountConfig {
    /// Completes the configuration with what follows from the account
    /// name: each undefined secret of either side becomes the keyring
    /// entry named after the account. The left side is handled first;
    /// on an error nothing is changed.
    pub fn configure(&mut self, account_name: &str) -> (r: Result<(), ConfigureError>)
        ensures
            r is Err <==> configure_fails(*old(self), account_name@),
            r is Ok ==> account_configured(*old(self), *final(self), account_name@),
            r is Err ==> *final(self) == *old(self),
            !old(self).left.backend.has_auth() ==> final(self).left.backend == old(self).left.backend,
            !old(self).right.backend.has_auth() ==> final(self).right.backend
                == old(self).right.backend,
    {
        configure_backend(&mut self.left.backend, account_name)?;
        configure_backend(&mut self.right.backend, account_name)?;
        Ok(())
    }
}

/// Completing the secrets twice with the same name changes nothing the
/// second time, and the second time cannot fail.
pub proof fn lemma_configure_idempotent(
    a: AccountConfig,
    b: AccountConfig,
    c: AccountConfig,
    name: Seq<char>,
)
    requires
        account_configured(a, b, name),
        account_configured(b, c, name),
    ensures
        c == b,
        !configure_fails(b, name),
{
}

/// Completing the secrets leaves every backend without authentication as
/// it was.
pub proof fn lemma_configure_keeps_backends_without_auth(
    a: AccountConfig,
    b: AccountConfig,
    name: Seq<char>,
)
    requires
        account_configured(a, b, name),
    ensures
        !a.left.backend.has_auth() ==> b.left.backend == a.left.backend,
        !a.right.backend.has_auth() ==> b.right.backend == a.right.backend,
{
}

} // verus!
