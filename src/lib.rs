//! Account configuration of a two-sided mail synchronization: the
//! user-facing declaration of each account, the backends of its two
//! sides, and its resolution into the configuration consumed by the
//! synchronization engine.
use vstd::prelude::*;

pub mod account;
pub mod backend;
pub mod sync_config;

pub use account::{AccountConfig, ConfigureError, EnvelopeConfig, FolderConfig};
pub use backend::{
    BackendConfig, BackendGlobalConfig, FlagBackendConfig, FolderBackendConfig, ImapAuthConfig,
    ImapConfig, MaildirConfig, MessageBackendConfig, NotmuchConfig, Secret,
};
pub use sync_config::{
    EnvelopeSyncConfig, EnvelopeSyncFilters, FlagSyncConfig, FlagSyncPermissions,
    FolderSyncConfig, FolderSyncPermissions, FolderSyncStrategy, MessageSyncConfig,
    MessageSyncPermissions, SyncAccountConfig,
};

verus! {

} // verus!
