use quantum_launcher::saved_accounts::SavedAccountEntry;
use quantum_launcher::startup::{startup_accounts, startup_screen, StartScreen};

fn entry(kind: &str, url: Option<&str>) -> SavedAccountEntry {
    SavedAccountEntry {
        account_type: Some(kind.to_string()),
        uuid: "u".to_string(),
        username_nice: None,
        custom_auth_url: url.map(str::to_string),
    }
}

#[test]
fn first_screen_depends_on_user_and_version() {
    let mut v = Some("0.4.1".to_string());
    assert!(matches!(startup_screen(None, true, &mut v, "0.4.1"), StartScreen::Welcome));
    assert!(matches!(startup_screen(Some("hi".to_string()), false, &mut v, "0.4.1"), StartScreen::Launch(Some(ref m)) if m == "hi"));
    assert!(matches!(startup_screen(None, false, &mut v, "0.4.2"), StartScreen::ChangeLog));
    assert_eq!(v.as_deref(), Some("0.4.2"));
    let mut none = None;
    assert!(matches!(startup_screen(None, false, &mut none, "0.3.0"), StartScreen::Launch(None)));
    assert_eq!(none, None);
}

#[test]
fn accounts_without_tokens_leave_the_config() {
    let mut config = vec![
        ("alex".to_string(), entry("ElyBy", None)),
        ("sam".to_string(), entry("LittleSkin", None)),
        ("kim".to_string(), entry("BlessingSkin", None)),
        ("pat".to_string(), entry("Microsoft", None)),
    ];
    let tokens = vec![
        Ok("t1".to_string()),
        Err("missing".to_string()),
        Err("missing".to_string()),
        Ok("t4".to_string()),
    ];
    let (accounts, dropdown, selected) = startup_accounts(&mut config, tokens);
    assert_eq!(accounts.len(), 2);
    assert_eq!(accounts[0].0, "alex");
    assert_eq!(accounts[0].1.refresh_token, "t1");
    assert_eq!(accounts[1].0, "pat");
    assert_eq!(dropdown, vec!["pat", "alex", "(Offline)", "+ Add Account"]);
    assert_eq!(selected, "pat");
    let keys: Vec<&str> = config.iter().map(|(k, _)| k.as_str()).collect();
    assert_eq!(keys, vec!["alex", "kim", "pat"]);
}

#[test]
fn no_accounts_selects_offline() {
    let mut config = Vec::new();
    let (accounts, dropdown, selected) = startup_accounts(&mut config, Vec::new());
    assert!(accounts.is_empty());
    assert_eq!(dropdown, vec!["(Offline)", "+ Add Account"]);
    assert_eq!(selected, "(Offline)");
}
