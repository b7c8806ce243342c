use quantum_launcher::saved_accounts::{SavedAccountType, SavedLogin};
use quantum_launcher::token_store::{token_store_step, TokenScreen, TokenStorage, TokenStoreAction, TokenStoreMsg, TokenStoreState};

fn login(name: &str) -> SavedLogin {
    SavedLogin {
        access_token: None,
        uuid: "u".to_string(),
        refresh_token: "r".to_string(),
        needs_refresh: false,
        account_type: SavedAccountType::ElyBy,
        username: name.to_string(),
        nice_username: name.to_string(),
        custom_auth_url: None,
    }
}

fn state() -> TokenStoreState {
    TokenStoreState {
        screen: TokenScreen::Other,
        token_storage: Some(TokenStorage::EncryptedFile),
        config_accounts: Some(vec![
            ("alex".to_string(), TokenStorage::EncryptedFile),
            ("sam".to_string(), TokenStorage::Keyring),
        ]),
        accounts: vec![("alex".to_string(), login("alex")), ("sam".to_string(), login("sam"))],
        dropdown: vec!["alex".to_string(), "sam".to_string(), "(Offline)".to_string(), "+ Add Account".to_string()],
        selected: Some("alex".to_string()),
        keyring_available: true,
    }
}

#[test]
fn deleting_the_encrypted_store_drops_its_accounts() {
    let mut s = state();
    token_store_step(&mut s, TokenStoreMsg::DeleteEncryptedStore);
    assert!(matches!(&s.screen, TokenScreen::ConfirmDelete { msg1, .. } if msg1 == "delete the encrypted token store"));
    assert!(matches!(token_store_step(&mut s, TokenStoreMsg::DeleteEncryptedStoreConfirm), TokenStoreAction::DeleteStore));
    let r = token_store_step(&mut s, TokenStoreMsg::StoreDeleted(Ok(())));
    assert!(matches!(r, TokenStoreAction::UseStorage(TokenStorage::Keyring)));
    assert_eq!(s.config_accounts, Some(vec![("sam".to_string(), TokenStorage::Keyring)]));
    assert_eq!(s.accounts.len(), 1);
    assert_eq!(s.accounts[0].0, "sam");
    assert_eq!(s.dropdown, vec!["sam", "(Offline)", "+ Add Account"]);
    assert_eq!(s.token_storage, Some(TokenStorage::Keyring));
    assert!(matches!(s.screen, TokenScreen::Settings));
}

#[test]
fn failed_delete_changes_nothing() {
    let mut s = state();
    let r = token_store_step(&mut s, TokenStoreMsg::StoreDeleted(Err("locked".to_string())));
    assert!(matches!(r, TokenStoreAction::ShowError(ref e) if e == "Could not delete encrypted store: locked"));
    assert_eq!(s.accounts.len(), 2);
}

#[test]
fn locked_store_asks_for_its_password() {
    let mut s = state();
    token_store_step(&mut s, TokenStoreMsg::TokenEnsureLoaded { storage: TokenStorage::EncryptedFile, unlocked: true, file_exists: true });
    assert!(matches!(s.screen, TokenScreen::Other));
    token_store_step(&mut s, TokenStoreMsg::TokenEnsureLoaded { storage: TokenStorage::EncryptedFile, unlocked: false, file_exists: true });
    match &s.screen {
        TokenScreen::Prompt(m) => assert!(m.confirm_password.is_none()),
        _ => panic!("expected the password prompt"),
    }
    token_store_step(&mut s, TokenStoreMsg::SetupEncryptedStore);
    match &s.screen {
        TokenScreen::Prompt(m) => assert_eq!(m.confirm_password.as_deref(), Some("")),
        _ => panic!("expected the password prompt"),
    }
}

#[test]
fn switching_storage_rereads_the_accounts() {
    let mut s = state();
    assert!(matches!(token_store_step(&mut s, TokenStoreMsg::TokenStorageChanged(TokenStorage::Keyring)), TokenStoreAction::UseStorage(TokenStorage::Keyring)));
    assert_eq!(s.token_storage, Some(TokenStorage::Keyring));
    token_store_step(
        &mut s,
        TokenStoreMsg::AccountsReloaded {
            storage: TokenStorage::Keyring,
            accounts: Vec::new(),
            dropdown: vec!["(Offline)".to_string()],
            selected: None,
            keyring_failed: false,
            keyring_available: false,
        },
    );
    assert!(!s.keyring_available);
    assert_eq!(s.dropdown, vec!["(Offline)"]);
    assert_eq!(s.selected, None);
}
