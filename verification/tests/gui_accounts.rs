use quantum_launcher::gui_accounts::{account_step, AccountAction, AccountMsg, AccountScreen, AccountsState, AltAccount};
use quantum_launcher::saved_accounts::{SavedAccountType, SavedLogin};

fn login(name: &str, t: SavedAccountType, url: Option<&str>) -> SavedLogin {
    SavedLogin {
        access_token: None,
        uuid: "u".to_string(),
        refresh_token: "r".to_string(),
        needs_refresh: true,
        account_type: t,
        username: name.to_string(),
        nice_username: name.to_string(),
        custom_auth_url: url.map(str::to_string),
    }
}

fn state() -> AccountsState {
    AccountsState {
        screen: AccountScreen::Launch,
        accounts: Vec::new(),
        dropdown: vec!["(Offline)".to_string(), "+ Add Account".to_string()],
        selected: Some("(Offline)".to_string()),
        config_accounts: Vec::new(),
    }
}

#[test]
fn added_account_heads_the_dropdown_and_is_selected() {
    let mut s = state();
    let r = account_step(&mut s, AccountMsg::Response3(Ok(("steve".to_string(), login("steve", SavedAccountType::Microsoft, None)))));
    assert!(matches!(r, AccountAction::OpenLaunchScreen));
    assert_eq!(s.dropdown[0], "steve");
    assert_eq!(s.selected.as_deref(), Some("steve"));
    assert_eq!(s.accounts.len(), 1);
    assert_eq!(s.config_accounts[0].1.account_type.as_deref(), Some("Microsoft"));
}

#[test]
fn logout_removes_the_account_and_selects_the_first_entry() {
    let mut s = state();
    account_step(&mut s, AccountMsg::Response3(Ok(("alex (elyby)".to_string(), login("alex (elyby)", SavedAccountType::ElyBy, None)))));
    let r = account_step(&mut s, AccountMsg::LogoutConfirm);
    match r {
        AccountAction::Logout { account_type, username } => {
            assert_eq!(account_type, SavedAccountType::ElyBy);
            assert_eq!(username, "alex");
        }
        _ => panic!("expected a logout"),
    }
    assert!(s.accounts.is_empty() && s.config_accounts.is_empty());
    assert_eq!(s.dropdown, vec!["(Offline)".to_string(), "+ Add Account".to_string()]);
    assert_eq!(s.selected.as_deref(), Some("(Offline)"));
}

#[test]
fn blessing_logout_with_server_removes_the_account() {
    let mut s = state();
    account_step(&mut s, AccountMsg::Response3(Ok(("bob".to_string(), login("bob", SavedAccountType::BlessingSkin, Some("https://s"))))));
    let r = account_step(&mut s, AccountMsg::LogoutConfirm);
    assert!(matches!(r, AccountAction::LogoutBlessingSkin { ref url, .. } if url == "https://s"));
    assert!(s.accounts.is_empty() && s.config_accounts.is_empty());
    assert_eq!(s.selected.as_deref(), Some("(Offline)"));
}

#[test]
fn add_account_entry_opens_the_login_screen() {
    let mut s = state();
    account_step(&mut s, AccountMsg::Selected("+ Add Account".to_string()));
    assert!(matches!(s.screen, AccountScreen::AccountLogin));
    assert_eq!(s.selected.as_deref(), Some("(Offline)"));
}

#[test]
fn elyby_login_sends_password_with_code() {
    let mut s = state();
    account_step(&mut s, AccountMsg::OpenElyBy(false));
    account_step(&mut s, AccountMsg::AltUsernameInput("steve".to_string()));
    account_step(&mut s, AccountMsg::AltPasswordInput("pw".to_string()));
    account_step(&mut s, AccountMsg::AltOtpInput("123".to_string()));
    match account_step(&mut s, AccountMsg::AltLogin) {
        AccountAction::LoginElyBy { username, password } => {
            assert_eq!(username, "steve");
            assert_eq!(password, "pw:123");
        }
        _ => panic!("expected an ElyBy login"),
    }
    account_step(&mut s, AccountMsg::AltLoginResponse(Ok(AltAccount::NeedsOtp)));
    match &s.screen {
        AccountScreen::LoginAlternate(m) => {
            assert!(!m.is_loading);
            assert_eq!(m.otp.as_deref(), Some(""));
        }
        _ => panic!("expected the login form"),
    }
}

#[test]
fn blessing_login_needs_a_server() {
    let mut s = state();
    account_step(&mut s, AccountMsg::BlessingSkinWarningProceed(true));
    assert!(matches!(account_step(&mut s, AccountMsg::BlessingSkinLogin), AccountAction::Nothing));
    account_step(&mut s, AccountMsg::BlessingSkinUrlInput("https://s".to_string()));
    assert!(matches!(account_step(&mut s, AccountMsg::BlessingSkinLogin), AccountAction::LoginBlessingSkin { .. }));
}

#[test]
fn refresh_launches_with_the_selected_account() {
    let mut s = state();
    account_step(&mut s, AccountMsg::Response3(Ok(("steve".to_string(), login("steve", SavedAccountType::Microsoft, None)))));
    let r = account_step(&mut s, AccountMsg::RefreshComplete(Ok(("steve".to_string(), login("steve", SavedAccountType::Microsoft, None)))));
    assert!(matches!(r, AccountAction::LaunchAfterRefresh(Some(ref l)) if l.username == "steve"));
    account_step(&mut s, AccountMsg::Selected("(Offline)".to_string()));
    let r = account_step(&mut s, AccountMsg::RefreshComplete(Err("x".to_string())));
    assert!(matches!(r, AccountAction::Fail(_)));
}

#[test]
fn microsoft_code_then_token_then_progress() {
    let mut s = state();
    let r = account_step(
        &mut s,
        AccountMsg::Response1 { r: Ok(("https://microsoft.com/link".to_string(), "ABCD".to_string())), is_from_welcome_screen: true },
    );
    assert!(matches!(r, AccountAction::WaitForMicrosoftCode));
    match &s.screen {
        AccountScreen::LoginMicrosoft { url, code, is_from_welcome_screen } => {
            assert_eq!(url, "https://microsoft.com/link");
            assert_eq!(code, "ABCD");
            assert!(*is_from_welcome_screen);
        }
        _ => panic!("expected the Microsoft login screen"),
    }
    let r = account_step(&mut s, AccountMsg::Response2(Ok(())));
    assert!(matches!(r, AccountAction::FinishMicrosoftLogin));
    assert!(matches!(s.screen, AccountScreen::LoginProgress));
    let r = account_step(&mut s, AccountMsg::Response2(Err("expired".to_string())));
    assert!(matches!(r, AccountAction::Fail(ref e) if e == "expired"));
    assert!(matches!(s.screen, AccountScreen::LoginProgress));
}

#[test]
fn littleskin_device_code_is_shown_and_polled() {
    let mut s = state();
    account_step(&mut s, AccountMsg::OpenLittleSkin(false));
    account_step(&mut s, AccountMsg::LittleSkinOauthButtonClicked);
    let r = account_step(
        &mut s,
        AccountMsg::LittleSkinDeviceCodeReady {
            user_code: "XY-12".to_string(),
            verification_uri: "https://littleskin.cn/device".to_string(),
            expires_in: 600,
            interval: 5,
            device_code: "dev".to_string(),
        },
    );
    match r {
        AccountAction::PollDeviceToken { device_code, interval, expires_in } => {
            assert_eq!(device_code, "dev");
            assert_eq!(interval, 5);
            assert_eq!(expires_in, 600);
        }
        _ => panic!("expected polling"),
    }
    match &s.screen {
        AccountScreen::LoginAlternate(m) => {
            assert!(!m.is_loading);
            let code = m.oauth.as_ref().expect("device code");
            assert_eq!(code.user_code, "XY-12");
            assert_eq!(code.verification_uri, "https://littleskin.cn/device");
            assert_eq!(code.expires_in, 600);
        }
        _ => panic!("expected the login form"),
    }
}
