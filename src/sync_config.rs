//! Synchronization policies: which folders and envelopes take part in a
//! synchronization, and which changes each side may receive.
//!
//! Every policy type owns a canonical default value, stated for proofs as
//! an open function and produced at run time by `Default`.
use vstd::prelude::*;

verus! {

/// Which folders take part in a synchronization.
#[derive(Clone, Debug, PartialEq, Eq)]
pub enum FolderSyncStrategy {
    /// Every folder.
    All,
    /// Only the folders with one of these names.
    Include(Vec<String>),
    /// Every folder but the ones with one of these names.
    Exclude(Vec<String>),
}

/// Which envelopes take part in a synchronization, by folder name.
#[derive(Clone, Debug, PartialEq, Eq)]
pub enum EnvelopeSyncFilters {
    /// Every envelope.
    All,
    /// Only the envelopes of the folders with one of these names.
    Include(Vec<String>),
    /// Every envelope but those of the folders with one of these names.
    Exclude(Vec<String>),
}

/// What a synchronization may do to the folders of one side.
#[derive(Clone, Copy, Debug, PartialEq, Eq)]
pub struct FolderSyncPermissions {
    pub create: bool,
    pub delete: bool,
}

/// What a synchronization may do to the flags of one side.
#[derive(Clone, Copy, Debug, PartialEq, Eq)]
pub struct FlagSyncPermissions {
    pub update: bool,
}

/// What a synchronization may do to the messages of one side.
#[derive(Clone, Copy, Debug, PartialEq, Eq)]
pub struct MessageSyncPermissions {
    pub create: bool,
    pub delete: bool,
}

pub open spec fn default_folder_strategy() -> FolderSyncStrategy {
    FolderSyncStrategy::All
}

pub open spec fn default_envelope_filters() -> EnvelopeSyncFilters {
    EnvelopeSyncFilters::All
}

/// By default folders may be created and deleted.
pub open spec fn default_folder_permissions() -> FolderSyncPermissions {
    FolderSyncPermissions { create: true, delete: true }
}

/// By default flags may be updated.
pub open spec fn default_flag_permissions() -> FlagSyncPermissions {
    FlagSyncPermissions { update: true }
}

/// By default messages may be created and deleted.
pub open spec fn default_message_permissions() -> MessageSyncPermissions {
    MessageSyncPermissions { create: true, delete: true }
}

impl Default for FolderSyncStrategy {
    fn default() -> (r: Self)
        ensures
            r == default_folder_strategy(),
    {
        FolderSyncStrategy::All
    }
}

impl Default for EnvelopeSyncFilters {
    fn default() -> (r: Self)
        ensures
            r == default_envelope_filters(),
    {
        EnvelopeSyncFilters::All
    }
}

impl Default for FolderSyncPermissions {
    fn default() -> (r: Self)
        ensures
            r == default_folder_permissions(),
    {
        FolderSyncPermissions { create: true, delete: true }
    }
}

impl Default for FlagSyncPermissions {
    fn default() -> (r: Self)
        ensures
            r == default_flag_permissions(),
    {
        FlagSyncPermissions { update: true }
    }
}

impl Default for MessageSyncPermissions {
    fn default() -> (r: Self)
        ensures
            r == default_message_permissions(),
    {
        MessageSyncPermissions { create: true, delete: true }
    }
}

/// The folder part of the engine-facing configuration.
#[derive(Clone, Debug, PartialEq, Eq)]
pub struct FolderSyncConfig {
    pub filter: FolderSyncStrategy,
    pub permissions: FolderSyncPermissions,
}

/// The envelope part of the engine-facing configuration: envelopes carry
/// a filter and no permissions.
#[derive(Clone, Debug, PartialEq, Eq)]
pub struct EnvelopeSyncConfig {
    pub filter: EnvelopeSyncFilters,
}

/// The flag part of the engine-facing configuration.
#[derive(Clone, Debug, PartialEq, Eq)]
pub struct FlagSyncConfig {
    pub permissions: FlagSyncPermissions,
}

/// The message part of the engine-facing configuration.
#[derive(Clone, Debug, PartialEq, Eq)]
pub struct MessageSyncConfig {
    pub permissions: MessageSyncPermissions,
}

/// The fully resolved configuration of one side of an account, as the
/// synchronization engine consumes it: no policy is left absent.
#[derive(Clone, Debug, PartialEq, Eq)]
pub struct SyncAccountConfig {
    pub name: String,
    pub folder: FolderSyncConfig,
    pub envelope: EnvelopeSyncConfig,
    pub flag: FlagSyncConfig,
    pub message: MessageSyncConfig,
}

} // verus!
