use quantum_launcher::saved_accounts::{SavedAccountType, SavedLogin};
use quantum_launcher::token_password::{
    token_password_step, ReloadedAccounts, TokenPasswordAction, TokenPasswordMenu, TokenPasswordMsg,
    TokenPasswordState,
};

fn login(name: &str, token: &str) -> SavedLogin {
    SavedLogin {
        access_token: None,
        uuid: "u".to_string(),
        refresh_token: token.to_string(),
        needs_refresh: true,
        account_type: SavedAccountType::ElyBy,
        username: name.to_string(),
        nice_username: name.to_string(),
        custom_auth_url: None,
    }
}

fn prompt(confirm: Option<&str>) -> TokenPasswordState {
    TokenPasswordState {
        prompt: Some(TokenPasswordMenu {
            password: "secret".to_string(),
            confirm_password: confirm.map(str::to_string),
            show_password: false,
            error: None,
            is_loading: false,
        }),
        accounts: vec![("alex".to_string(), login("alex", "old"))],
        dropdown: vec!["alex".to_string(), "(Offline)".to_string(), "+ Add Account".to_string()],
        selected: Some("(Offline)".to_string()),
    }
}

#[test]
fn new_store_needs_the_password_twice() {
    let mut s = prompt(Some("secreT"));
    let r = token_password_step(&mut s, TokenPasswordMsg::Submit);
    assert!(matches!(r, TokenPasswordAction::Nothing));
    let m = s.prompt.as_ref().unwrap();
    assert_eq!(m.error.as_deref(), Some("Passwords do not match."));
    assert!(!m.is_loading);
    token_password_step(&mut s, TokenPasswordMsg::ConfirmPasswordChanged("secret".to_string()));
    assert_eq!(s.prompt.as_ref().unwrap().error, None);
    let r = token_password_step(&mut s, TokenPasswordMsg::Submit);
    assert!(matches!(r, TokenPasswordAction::CreateStore(ref p) if p == "secret"));
    assert!(s.prompt.as_ref().unwrap().is_loading);
}

#[test]
fn existing_store_is_unlocked() {
    let mut s = prompt(None);
    token_password_step(&mut s, TokenPasswordMsg::ConfirmPasswordChanged("x".to_string()));
    assert_eq!(s.prompt.as_ref().unwrap().confirm_password, None);
    let r = token_password_step(&mut s, TokenPasswordMsg::Submit);
    assert!(matches!(r, TokenPasswordAction::UnlockStore(ref p) if p == "secret"));
}

#[test]
fn unlocked_accounts_join_the_list() {
    let mut s = prompt(None);
    let reloaded = ReloadedAccounts {
        accounts: vec![("alex".to_string(), login("alex", "new")), ("sam".to_string(), login("sam", "t"))],
        entries: vec!["sam".to_string(), "alex".to_string(), "kim".to_string()],
        saved_selection: Some("sam".to_string()),
    };
    let r = token_password_step(&mut s, TokenPasswordMsg::SubmitDone(Ok(reloaded)));
    assert!(matches!(r, TokenPasswordAction::OpenLaunchScreen));
    assert_eq!(s.accounts.len(), 2);
    assert_eq!(s.accounts[0].1.refresh_token, "new");
    assert_eq!(s.accounts[1].0, "sam");
    assert_eq!(s.dropdown, vec!["kim", "sam", "alex", "(Offline)", "+ Add Account"]);
    assert_eq!(s.selected.as_deref(), Some("sam"));
}

#[test]
fn failed_unlock_shows_the_error() {
    let mut s = prompt(None);
    token_password_step(&mut s, TokenPasswordMsg::Submit);
    token_password_step(&mut s, TokenPasswordMsg::SubmitDone(Err("wrong password".to_string())));
    let m = s.prompt.as_ref().unwrap();
    assert_eq!(m.error.as_deref(), Some("wrong password"));
    assert!(!m.is_loading);
    assert!(matches!(token_password_step(&mut s, TokenPasswordMsg::Skip), TokenPasswordAction::OpenLaunchScreen));
}
