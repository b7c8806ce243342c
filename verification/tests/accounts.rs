use quantum_launcher::accounts::{
    auth_type_from_name, clean_username_for_launch, clean_username_for_selected_account,
    keyring_username, Account, AccountType, AuthAccountType,
};
use quantum_launcher::app_accounts::{stored_token_key, StoredAccount};
use quantum_launcher::app_state::App;
use quantum_launcher::launch::{
    minimal_account_data, stored_account_data, token_lookup, AccountData, ConfigAccount,
};

fn account(name: &str, kind: &str) -> Account {
    Account { username: name.to_string(), account_type: kind.to_string(), uuid: "uuid-1".to_string(), is_logged_in: true }
}

fn config(keyring: Option<&str>, nice: Option<&str>) -> ConfigAccount {
    ConfigAccount {
        keyring_identifier: keyring.map(|s| s.to_string()),
        uuid: "cfg-uuid".to_string(),
        username_nice: nice.map(|s| s.to_string()),
    }
}

#[test]
fn account_type_all_and_labels() {
    assert_eq!(AccountType::all(), vec![AccountType::Microsoft, AccountType::ElyBy, AccountType::LittleSkin, AccountType::Offline]);
    assert_eq!(AccountType::Microsoft.label(), "Microsoft (Coming Soon)");
    assert_eq!(AccountType::Offline.label(), "Offline");
}

#[test]
fn service_names_and_keyring_names() {
    assert_eq!(auth_type_from_name("ElyBy"), AuthAccountType::ElyBy);
    assert_eq!(auth_type_from_name("LittleSkin"), AuthAccountType::LittleSkin);
    assert_eq!(auth_type_from_name("whatever"), AuthAccountType::Microsoft);
    assert_eq!(keyring_username("bob (elyby)", AuthAccountType::ElyBy), "bob");
    assert_eq!(keyring_username("bob (elyby)", AuthAccountType::LittleSkin), "bob (elyby)");
    assert_eq!(keyring_username("x (littleskin)", AuthAccountType::LittleSkin), "x");
    assert_eq!(keyring_username("x (littleskin)", AuthAccountType::Microsoft), "x (littleskin)");
}

#[test]
fn player_names_for_launch() {
    assert_eq!(clean_username_for_launch("a@b.c", "Nice_Name", AuthAccountType::ElyBy), "Nice_Name");
    assert_eq!(clean_username_for_launch("john.doe@mail.org", "has space", AuthAccountType::ElyBy), "johndoe");
    assert_eq!(clean_username_for_launch("...@mail.org", "-", AuthAccountType::LittleSkin), "User_mailorg");
    assert_eq!(clean_username_for_launch("!!!", "-", AuthAccountType::Microsoft), "Player");
    assert_eq!(clean_username_for_launch("averyveryverylongname12345", "-", AuthAccountType::Microsoft), "averyveryverylon");
    // An empty display name passes the check as it is.
    assert_eq!(clean_username_for_launch("someone", "", AuthAccountType::ElyBy), "");
    // 16 bytes at most: "é" takes two.
    assert_eq!(clean_username_for_launch("x", "éééééééé_", AuthAccountType::Microsoft), "x");
}

#[test]
fn player_names_for_selected_account() {
    assert_eq!(clean_username_for_selected_account(&account("Steve!", "Offline"), &None), "Steve");
    assert_eq!(clean_username_for_selected_account(&account("a@b.c", "ElyBy"), &Some("Nice".to_string())), "Nice");
    assert_eq!(clean_username_for_selected_account(&account("ann@b.c", "ElyBy"), &Some("no good".to_string())), "ann");
    assert_eq!(clean_username_for_selected_account(&account("m@x", "Microsoft"), &None), "mx");
}

#[test]
fn token_keys() {
    let (k, t) = token_lookup(&account("bob (elyby)", "ElyBy"), &config(None, None));
    assert_eq!((k.as_str(), t), ("bob", AuthAccountType::ElyBy));
    let (k, _) = token_lookup(&account("bob (elyby)", "ElyBy"), &config(Some("kid"), None));
    assert_eq!(k, "kid");
    let (k, t) = stored_token_key("z (littleskin)", "LittleSkin", &None);
    assert_eq!((k.as_str(), t), ("z", AuthAccountType::LittleSkin));
}

#[test]
fn stored_account_data_cases() {
    let d: AccountData = stored_account_data(&account("bob (elyby)", "ElyBy"), &config(None, Some("Bobby")), Some("tok".to_string())).unwrap();
    assert_eq!(d.refresh_token, "tok");
    assert_eq!(d.username, "bob");
    assert_eq!(d.nice_username, "Bobby");
    assert_eq!(d.uuid, "cfg-uuid");
    assert_eq!(d.access_token.as_deref(), Some("0"));
    assert!(d.needs_refresh);
    let d = stored_account_data(&account("bob (elyby)", "ElyBy"), &config(None, None), None).unwrap();
    assert_eq!(d.refresh_token, "");
    assert_eq!(d.username, "bob (elyby)");
    assert_eq!(d.nice_username, "bob (elyby)");
    assert!(stored_account_data(&account("ms", "Microsoft"), &config(None, None), None).is_none());
}

#[test]
fn minimal_data_only_for_authlib_services() {
    let d = minimal_account_data(&account("ly", "LittleSkin"), &Some("Ly".to_string())).unwrap();
    assert_eq!(d.account_type, AuthAccountType::LittleSkin);
    assert_eq!(d.nice_username, "Ly");
    assert_eq!(d.uuid, "uuid-1");
    assert!(minimal_account_data(&account("m", "Microsoft"), &None).is_none());
}

#[test]
fn launch_data_of_selected_account() {
    let mut app = App::new();
    assert!(app.account_data_for_launch(&Some(config(None, None)), Some("t".to_string())).is_none());
    app.account_list.accounts = vec![account("off", "Offline"), account("e (elyby)", "ElyBy")];
    assert!(app.account_data_for_launch(&Some(config(None, None)), None).is_none());
    let d = app.selected_account_data(&None, None).unwrap();
    assert!(!d.needs_refresh);
    assert_eq!(d.username, "off");
    app.account_list.selected_account = 1;
    assert!(app.account_data_for_launch(&None, Some("t".to_string())).is_none());
    let d = app.account_data_for_launch(&Some(config(None, None)), Some("t".to_string())).unwrap();
    assert_eq!(d.username, "e");
}

#[test]
fn launching_picks_name_and_status() {
    let mut app = App::new();
    assert!(app.launch_instance("pack", None, None, None).is_none());
    assert_eq!(app.status_message, "❌ Authentication system not initialized");
    app.set_auth_channel();
    let req = app.launch_instance("pack", None, None, None).unwrap();
    assert_eq!(req.username, "Player");
    assert!(req.account_data.is_none());
    assert_eq!(app.status_message, "WARNING: No accounts available. Launching offline as 'Player'. Add account with 'a' then 'n'.");
    app.account_list.accounts = vec![account("Steve", "Offline")];
    let req = app.launch_instance("pack", None, None, None).unwrap();
    assert_eq!(req.username, "Steve");
    assert_eq!(app.status_message, "LAUNCHING: offline account Steve");
    app.account_list.accounts = vec![account("e@x.org (elyby)", "ElyBy")];
    let req = app.launch_instance("pack", None, None, Some("Elly".to_string())).unwrap();
    assert_eq!(req.username, "Elly");
    assert_eq!(app.status_message, "WARNING: Using Elly (ElyBy) offline - may need re-auth");
    assert_eq!(req.account_data.unwrap().nice_username, "Elly");
    let data = stored_account_data(&account("e@x.org (elyby)", "ElyBy"), &config(None, Some("Elly")), Some("tok".to_string()));
    let req = app.launch_instance("pack", data, None, None).unwrap();
    assert_eq!(req.instance_name, "pack");
    assert_eq!(req.username, "Elly");
    assert_eq!(app.status_message, "LAUNCHING: Elly (ElyBy)");
    assert_eq!(req.account_data.unwrap().refresh_token, "tok");
}

#[test]
fn loading_accounts_from_config() {
    let mut app = App::new();
    app.load_accounts(Err("broken".to_string()));
    assert_eq!(app.status_message, "Error loading config: broken");
    app.status_message = "Ready".to_string();
    app.load_accounts(Ok(None));
    assert_eq!(app.status_message, "Ready (No accounts configured)");
    app.load_accounts(Ok(Some((vec![
        StoredAccount { key: "k1".to_string(), account_type: None, uuid: "1".to_string(), has_token: false },
        StoredAccount { key: "k2".to_string(), account_type: Some("Offline".to_string()), uuid: "2".to_string(), has_token: false },
    ], Some("k2".to_string())))));
    assert_eq!(app.account_list.accounts.len(), 2);
    assert_eq!(app.account_list.accounts[0].account_type, "Microsoft");
    assert!(!app.account_list.accounts[0].is_logged_in);
    assert!(app.account_list.accounts[1].is_logged_in);
    assert_eq!(app.account_list.current_account.as_deref(), Some("k2"));
    assert_eq!(app.status_message, "Loaded 0 instances and 2 accounts");
    assert!(app.can_launch_offline());
}
