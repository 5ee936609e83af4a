use neverest::{
    AccountConfig, BackendConfig, BackendGlobalConfig, ConfigureError, EnvelopeConfig,
    EnvelopeSyncFilters, FlagBackendConfig, FlagSyncPermissions, FolderBackendConfig,
    FolderConfig, FolderSyncPermissions, FolderSyncStrategy, ImapAuthConfig, ImapConfig,
    MaildirConfig, MessageBackendConfig, MessageSyncPermissions, NotmuchConfig, Secret,
};

fn maildir(root: &str) -> BackendConfig {
    BackendConfig::Maildir(MaildirConfig {
        root_dir: root.to_string(),
    })
}

fn imap(login: &str, secret: Secret) -> BackendConfig {
    BackendConfig::Imap(ImapConfig {
        host: "imap.example.org".to_string(),
        port: 993,
        login: login.to_string(),
        auth: ImapAuthConfig::Password(secret),
    })
}

fn side(backend: BackendConfig) -> BackendGlobalConfig {
    BackendGlobalConfig {
        backend,
        folder: None,
        flag: None,
        message: None,
    }
}

fn account(left: BackendConfig, right: BackendConfig) -> AccountConfig {
    AccountConfig {
        default: None,
        folder: None,
        envelope: None,
        left: side(left),
        right: side(right),
    }
}

#[test]
fn absent_folder_override_gives_default_permissions() {
    let (_, config) = side(maildir("/mail/a")).into_account_config(
        "a".to_string(),
        FolderSyncStrategy::All,
        EnvelopeSyncFilters::All,
    );
    assert_eq!(
        config.folder.permissions,
        FolderSyncPermissions {
            create: true,
            delete: true
        }
    );
    assert_eq!(config.folder.permissions, FolderSyncPermissions::default());
}

#[test]
fn folder_override_is_kept_exactly() {
    let p = FolderSyncPermissions {
        create: false,
        delete: true,
    };
    let mut g = side(maildir("/mail/a"));
    g.folder = Some(FolderBackendConfig { permissions: p });
    let (_, config) = g.into_account_config(
        "a".to_string(),
        FolderSyncStrategy::All,
        EnvelopeSyncFilters::All,
    );
    assert_eq!(config.folder.permissions, p);
}

#[test]
fn absent_flag_and_message_overrides_give_defaults() {
    let (_, config) = side(maildir("/mail/a")).into_account_config(
        "a".to_string(),
        FolderSyncStrategy::All,
        EnvelopeSyncFilters::All,
    );
    assert_eq!(config.flag.permissions, FlagSyncPermissions { update: true });
    assert_eq!(
        config.message.permissions,
        MessageSyncPermissions {
            create: true,
            delete: true
        }
    );
}

#[test]
fn flag_and_message_overrides_are_kept() {
    let mut g = side(maildir("/mail/a"));
    g.flag = Some(FlagBackendConfig {
        permissions: FlagSyncPermissions { update: false },
    });
    g.message = Some(MessageBackendConfig {
        permissions: MessageSyncPermissions {
            create: true,
            delete: false,
        },
    });
    let (_, config) = g.into_account_config(
        "a".to_string(),
        FolderSyncStrategy::Exclude(vec!["Trash".to_string()]),
        EnvelopeSyncFilters::All,
    );
    assert_eq!(config.flag.permissions, FlagSyncPermissions { update: false });
    assert_eq!(
        config.message.permissions,
        MessageSyncPermissions {
            create: true,
            delete: false
        }
    );
    assert_eq!(
        config.folder.filter,
        FolderSyncStrategy::Exclude(vec!["Trash".to_string()])
    );
    assert_eq!(config.name, "a");
}

#[test]
fn resolution_is_deterministic() {
    let mut g = side(imap("me", Secret::Raw("pw".to_string())));
    g.folder = Some(FolderBackendConfig {
        permissions: FolderSyncPermissions {
            create: false,
            delete: false,
        },
    });
    let filter = FolderSyncStrategy::Include(vec!["INBOX".to_string()]);
    let first = g.clone().into_account_config(
        "n".to_string(),
        filter.clone(),
        EnvelopeSyncFilters::All,
    );
    let second = g.into_account_config("n".to_string(), filter, EnvelopeSyncFilters::All);
    assert_eq!(first, second);
}

#[test]
fn resolution_hands_back_the_backend() {
    let backend = BackendConfig::Notmuch(NotmuchConfig {
        database_path: "/mail/index".to_string(),
    });
    let (out, _) = side(backend.clone()).into_account_config(
        "n".to_string(),
        FolderSyncStrategy::All,
        EnvelopeSyncFilters::All,
    );
    assert_eq!(out, backend);
}

#[test]
fn configure_is_idempotent() {
    let mut a = account(imap("me", Secret::Undefined), imap("you", Secret::Undefined));
    assert_eq!(a.configure("work"), Ok(()));
    let once = a.clone();
    assert_eq!(a.configure("work"), Ok(()));
    assert_eq!(a, once);
}

#[test]
fn configure_names_the_keyring_entry_after_the_account() {
    let mut a = account(maildir("/mail/a"), imap("me", Secret::Undefined));
    assert_eq!(a.configure("work"), Ok(()));
    assert_eq!(
        a.right.backend,
        imap("me", Secret::KeyringEntry("work-imap-passwd".to_string()))
    );
}

#[test]
fn configure_keeps_defined_secrets() {
    let mut a = account(
        imap("me", Secret::Command("pass show mail".to_string())),
        imap("you", Secret::Raw("pw".to_string())),
    );
    let before = a.clone();
    assert_eq!(a.configure("work"), Ok(()));
    assert_eq!(a, before);
}

#[test]
fn configure_leaves_backends_without_auth_alone() {
    let notmuch = BackendConfig::Notmuch(NotmuchConfig {
        database_path: "/mail/index".to_string(),
    });
    let mut a = account(maildir("/mail/a"), notmuch.clone());
    let before = a.clone();
    assert_eq!(a.configure("work"), Ok(()));
    assert_eq!(a, before);
    assert_eq!(a.left.backend, maildir("/mail/a"));
    assert_eq!(a.right.backend, notmuch);
}

#[test]
fn configure_fails_on_empty_name_with_undefined_secret() {
    let mut a = account(imap("me", Secret::Undefined), imap("you", Secret::Undefined));
    let before = a.clone();
    assert_eq!(a.configure(""), Err(ConfigureError::EmptyAccountName));
    assert_eq!(a, before);
}

#[test]
fn configure_fails_on_right_side_and_changes_nothing() {
    let mut a = account(maildir("/mail/a"), imap("you", Secret::Undefined));
    let before = a.clone();
    assert_eq!(a.configure(""), Err(ConfigureError::EmptyAccountName));
    assert_eq!(a, before);
}

#[test]
fn configure_with_empty_name_succeeds_when_nothing_is_undefined() {
    let mut a = account(maildir("/mail/a"), imap("you", Secret::Raw("pw".to_string())));
    let before = a.clone();
    assert_eq!(a.configure(""), Ok(()));
    assert_eq!(a, before);
}

#[test]
fn directory_and_protocol_sides_resolve_with_shared_envelope_filter() {
    let mut a = account(maildir("/mail/a"), imap("work", Secret::Undefined));
    a.envelope = Some(EnvelopeConfig {
        filter: EnvelopeSyncFilters::Include(vec!["INBOX".to_string()]),
    });
    assert_eq!(a.configure("work"), Ok(()));
    match &a.right.backend {
        BackendConfig::Imap(c) => match &c.auth {
            ImapAuthConfig::Password(s) => assert_ne!(*s, Secret::Undefined),
        },
        other => panic!("unexpected backend {:?}", other),
    }
    let envelope_filter = a.envelope.clone().unwrap().filter;
    let folder_filter = a
        .folder
        .clone()
        .map(|f: FolderConfig| f.filter)
        .unwrap_or_default();
    let (_, config) = a
        .right
        .into_account_config("work".to_string(), folder_filter, envelope_filter);
    assert_eq!(
        config.envelope.filter,
        EnvelopeSyncFilters::Include(vec!["INBOX".to_string()])
    );
    assert_eq!(config.name, "work");
    assert_eq!(config.folder.filter, FolderSyncStrategy::All);
}

#[test]
fn policy_defaults() {
    assert_eq!(FolderSyncStrategy::default(), FolderSyncStrategy::All);
    assert_eq!(EnvelopeSyncFilters::default(), EnvelopeSyncFilters::All);
    assert_eq!(FlagSyncPermissions::default(), FlagSyncPermissions { update: true });
    assert_eq!(
        MessageSyncPermissions::default(),
        MessageSyncPermissions {
            create: true,
            delete: true
        }
    );
}
