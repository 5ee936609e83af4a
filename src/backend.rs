//! The backends of the two sides of an account, and the resolution of
//! one side into the configuration consumed by the synchronization
//! engine.
use vstd::prelude::*;

use crate::sync_config::{
    default_flag_permissions, default_folder_permissions, default_message_permissions,
    EnvelopeSyncConfig, EnvelopeSyncFilters, FlagSyncConfig, FlagSyncPermissions,
    FolderSyncConfig, FolderSyncPermissions, FolderSyncStrategy, MessageSyncConfig,
    MessageSyncPermissions, SyncAccountConfig,
};

verus! {

/// Where a secret (a password, a token) is read from.
#[derive(Clone, Debug, PartialEq, Eq)]
pub enum Secret {
    /// No source given yet.
    Undefined,
    /// The secret itself.
    Raw(String),
    /// A shell command whose first output line is the secret.
    Command(String),
    /// An entry of the user's keyring.
    KeyringEntry(String),
}

/// How to authenticate against an IMAP server.
#[derive(Clone, Debug, PartialEq, Eq)]
pub enum ImapAuthConfig {
    /// A password, read from the given secret.
    Password(Secret),
}

/// A remote mailbox reached over IMAP.
#[derive(Clone, Debug, PartialEq, Eq)]
pub struct ImapConfig {
    pub host: String,
    pub port: u16,
    pub login: String,
    pub auth: ImapAuthConfig,
}

/// A local Maildir tree.
#[derive(Clone, Debug, PartialEq, Eq)]
pub struct MaildirConfig {
    pub root_dir: String,
}

/// A local Notmuch index.
#[derive(Clone, Debug, PartialEq, Eq)]
pub struct NotmuchConfig {
    pub database_path: String,
}

/// The backend of one side; the variant is the kind of the backend.
#[derive(Clone, Debug, PartialEq, Eq)]
pub enum BackendConfig {
    Imap(ImapConfig),
    Maildir(MaildirConfig),
    Notmuch(NotmuchConfig),
}

impl BackendConfig {
    /// The backends that authenticate, and hence hold secrets.
    pub open spec fn has_auth(self) -> bool {
        self is Imap
    }
}

/// Folder permissions of one side.
#[derive(Clone, Debug, PartialEq, Eq)]
pub struct FolderBackendConfig {
    pub permissions: FolderSyncPermissions,
}

/// Flag permissions of one side.
#[derive(Clone, Debug, PartialEq, Eq)]
pub struct FlagBackendConfig {
    pub permissions: FlagSyncPermissions,
}

/// Message permissions of one side.
#[derive(Clone, Debug, PartialEq, Eq)]
pub struct MessageBackendConfig {
    pub permissions: MessageSyncPermissions,
}

/// One side of an account: its backend and the permissions that
/// override the defaults.
#[derive(Clone, Debug, PartialEq, Eq)]
pub struct BackendGlobalConfig {
    pub backend: BackendConfig,
    pub folder: Option<FolderBackendConfig>,
    pub flag: Option<FlagBackendConfig>,
    pub message: Option<MessageBackendConfig>,
}

/// The folder permissions of a side: its override, else the default.
pub open spec fn folder_permissions_of(c: Option<FolderBackendConfig>) -> FolderSyncPermissions {
    match c {
        Some(f) => f.permissions,
        None => default_folder_permissions(),
    }
}

/// The flag permissions of a side: its override, else the default.
pub open spec fn flag_permissions_of(c: Option<FlagBackendConfig>) -> FlagSyncPermissions {
    match c {
        Some(f) => f.permissions,
        None => default_flag_permissions(),
    }
}

/// The message permissions of a side: its override, else the default.
pub open spec fn message_permissions_of(c: Option<MessageBackendConfig>) -> MessageSyncPermissions {
    match c {
        Some(m) => m.permissions,
        None => default_message_permissions(),
    }
}

/// The engine-facing configuration of side `g` under the account name
/// `name` and the filters shared by both sides.
pub open spec fn resolved_config(
    g: BackendGlobalConfig,
    name: String,
    folder_filter: FolderSyncStrategy,
    envelope_filter: EnvelopeSyncFilters,
) -> SyncAccountConfig {
    SyncAccountConfig {
        name,
        folder: FolderSyncConfig {
            filter: folder_filter,
            permissions: folder_permissions_of(g.folder),
        },
        envelope: EnvelopeSyncConfig { filter: envelope_filter },
        flag: FlagSyncConfig { permissions: flag_permissions_of(g.flag) },
        message: MessageSyncConfig { permissions: message_permissions_of(g.message) },
    }
}

impl BackendGlobalConfig {
    /// Splits this side into its backend and the configuration that the
    /// synchronization engine consumes for it. Absent permissions take
    /// their defaults; the two filters are taken as given.
    pub fn into_account_config(
        self,
        name: String,
        folder_filter: FolderSyncStrategy,
        envelope_filter: EnvelopeSyncFilters,
    ) -> (r: (BackendConfig, SyncAccountConfig))
        ensures
            r.0 == self.backend,
            r.1 == resolved_config(self, name, folder_filter, envelope_filter),
            self.folder is None ==> r.1.folder.permissions == default_folder_permissions(),
            self.folder matches Some(f) ==> r.1.folder.permissions == f.permissions,
    {
        let folder_permissions = match self.folder {
            Some(f) => f.permissions,
            None => FolderSyncPermissions::default(),
        };
        let flag_permissions = match self.flag {
            Some(f) => f.permissions,
            None => FlagSyncPermissions::default(),
        };
        let message_permissions = match self.message {
            Some(m) => m.permissions,
            None => MessageSyncPermissions::default(),
        };
        (
            self.backend,
            SyncAccountConfig {
                name,
                folder: FolderSyncConfig { filter: folder_filter, permissions: folder_permissions },
                envelope: EnvelopeSyncConfig { filter: envelope_filter },
                flag: FlagSyncConfig { permissions: flag_permissions },
                message: MessageSyncConfig { permissions: message_permissions },
            },
        )
    }
}

/// Resolving a side depends on its inputs alone: equal inputs give equal
/// backends and equal engine-facing configurations.
pub proof fn lemma_into_account_config_deterministic(
    g1: BackendGlobalConfig,
    g2: BackendGlobalConfig,
    name1: String,
    name2: String,
    folder_filter1: FolderSyncStrategy,
    folder_filter2: FolderSyncStrategy,
    envelope_filter1: EnvelopeSyncFilters,
    envelope_filter2: EnvelopeSyncFilters,
)
    requires
        g1 == g2,
        name1 == name2,
        folder_filter1 == folder_filter2,
        envelope_filter1 == envelope_filter2,
    ensures
        g1.backend == g2.backend,
        resolved_config(g1, name1, folder_filter1, envelope_filter1) == resolved_config(
            g2,
            name2,
            folder_filter2,
            envelope_filter2,
        ),
{
}

} // verus!
