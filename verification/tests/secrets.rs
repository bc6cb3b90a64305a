//! Tests of the credential store rules.
use transonic::secrets::{
    build_key, keyring_delete_result, keyring_load_result, FileSecrets, KeyringReply,
};

#[test]
fn secret_keys_join_service_and_profile() {
    assert_eq!(build_key("transonic", "profile-1"), "transonic:profile-1");
}

#[test]
fn file_secrets_give_back_what_was_saved() {
    let mut secrets = FileSecrets::new();
    secrets.save_secret("transonic", "one", "secret-1");
    secrets.save_secret("transonic", "two", "secret-2");
    secrets.save_secret("transonic", "one", "secret-3");

    assert_eq!(secrets.load_secret("transonic", "one").as_deref(), Some("secret-3"));
    assert_eq!(secrets.load_secret("transonic", "two").as_deref(), Some("secret-2"));
    assert_eq!(secrets.entries().len(), 2);

    secrets.delete_secret("transonic", "one");
    assert_eq!(secrets.load_secret("transonic", "one"), None);
    assert_eq!(secrets.load_secret("transonic", "two").as_deref(), Some("secret-2"));
    assert_eq!(secrets.version(), 1);
}

#[test]
fn file_secrets_from_entries_keep_the_last_duplicate() {
    let secrets = FileSecrets::from_entries(
        1,
        vec![
            ("a:1".to_string(), "x".to_string()),
            ("a:2".to_string(), "y".to_string()),
            ("a:1".to_string(), "z".to_string()),
        ],
    );
    assert_eq!(secrets.get("a:1").as_deref(), Some("z"));
    assert_eq!(secrets.get("a:2").as_deref(), Some("y"));
    assert_eq!(secrets.entries().len(), 2);
}

#[test]
fn keyring_replies_become_results() {
    assert_eq!(
        keyring_load_result(KeyringReply::Found("s".to_string())),
        Ok(Some("s".to_string()))
    );
    assert_eq!(keyring_load_result(KeyringReply::NoEntry), Ok(None));
    assert_eq!(
        keyring_load_result(KeyringReply::Failed("locked".to_string())),
        Err("Failed to load credentials from the OS keyring: locked".to_string())
    );
    assert_eq!(keyring_delete_result(KeyringReply::NoEntry), Ok(()));
    assert_eq!(
        keyring_delete_result(KeyringReply::Failed("locked".to_string())),
        Err("Failed to delete credentials from the OS keyring: locked".to_string())
    );
}
