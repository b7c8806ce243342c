use quantum_launcher::saved_accounts::{
    load_account, saved_account_type, token_query, SavedAccountEntry, SavedAccountType, SavedLogin,
};

fn entry(t: Option<&str>, nice: Option<&str>, url: Option<&str>) -> SavedAccountEntry {
    SavedAccountEntry {
        account_type: t.map(str::to_string),
        uuid: "uuid-1".to_string(),
        username_nice: nice.map(str::to_string),
        custom_auth_url: url.map(str::to_string),
    }
}

#[test]
fn account_type_from_config_or_marker() {
    assert_eq!(saved_account_type("steve", &Some("ElyBy".to_string())), SavedAccountType::ElyBy);
    assert_eq!(saved_account_type("steve (elyby)", &None), SavedAccountType::ElyBy);
    assert_eq!(saved_account_type("alex (littleskin)", &None), SavedAccountType::LittleSkin);
    assert_eq!(saved_account_type("alex (blessing)", &None), SavedAccountType::BlessingSkin);
    assert_eq!(saved_account_type("alex", &Some("Other".to_string())), SavedAccountType::Microsoft);
    assert_eq!(saved_account_type("alex", &None), SavedAccountType::Microsoft);
}

#[test]
fn token_query_strips_the_marker() {
    let q = token_query("steve (elyby)", &entry(None, None, None)).unwrap();
    assert_eq!(q.account_type, SavedAccountType::ElyBy);
    assert_eq!(q.username, "steve");
    assert!(q.auth_url.is_none());
    let q = token_query("bob (blessing)", &entry(None, None, Some("https://skin.example"))).unwrap();
    assert_eq!(q.username, "bob");
    assert_eq!(q.auth_url.as_deref(), Some("https://skin.example"));
    assert!(token_query("bob (blessing)", &entry(None, None, None)).is_none());
}

#[test]
fn found_token_adds_the_account_first() {
    let mut accounts: Vec<(String, SavedLogin)> = Vec::new();
    let mut dropdown = vec!["old".to_string()];
    let mut remove: Vec<String> = Vec::new();
    load_account(&mut accounts, &mut dropdown, &mut remove, "steve (elyby)", &entry(Some("ElyBy"), None, None), Ok("tok".to_string()));
    assert_eq!(dropdown, vec!["steve (elyby)".to_string(), "old".to_string()]);
    assert!(remove.is_empty());
    assert_eq!(accounts.len(), 1);
    let (key, login) = &accounts[0];
    assert_eq!(key, "steve (elyby)");
    assert_eq!(login.username, "steve");
    assert_eq!(login.nice_username, "steve");
    assert_eq!(login.refresh_token, "tok");
    assert!(login.needs_refresh);
    assert!(login.access_token.is_none());
    assert_eq!(login.uuid, "uuid-1");
}

#[test]
fn reloaded_account_replaces_the_old_one() {
    let mut accounts: Vec<(String, SavedLogin)> = Vec::new();
    let mut dropdown: Vec<String> = Vec::new();
    let mut remove: Vec<String> = Vec::new();
    let e = entry(None, Some("Steve"), None);
    load_account(&mut accounts, &mut dropdown, &mut remove, "steve", &e, Ok("a".to_string()));
    load_account(&mut accounts, &mut dropdown, &mut remove, "steve", &e, Ok("b".to_string()));
    assert_eq!(accounts.len(), 1);
    assert_eq!(accounts[0].1.refresh_token, "b");
    assert_eq!(accounts[0].1.nice_username, "Steve");
    assert_eq!(dropdown.len(), 2);
}

#[test]
fn missing_token_marks_the_account_for_removal() {
    let mut accounts: Vec<(String, SavedLogin)> = Vec::new();
    let mut dropdown: Vec<String> = Vec::new();
    let mut remove: Vec<String> = Vec::new();
    load_account(&mut accounts, &mut dropdown, &mut remove, "alex", &entry(None, None, None), Err("no entry".to_string()));
    assert!(accounts.is_empty());
    assert!(dropdown.is_empty());
    assert_eq!(remove, vec!["alex".to_string()]);
}

#[test]
fn blessing_account_without_server_is_skipped() {
    let mut accounts: Vec<(String, SavedLogin)> = Vec::new();
    let mut dropdown: Vec<String> = Vec::new();
    let mut remove: Vec<String> = Vec::new();
    load_account(&mut accounts, &mut dropdown, &mut remove, "bob (blessing)", &entry(None, None, None), Err("x".to_string()));
    assert!(accounts.is_empty() && dropdown.is_empty() && remove.is_empty());
    load_account(&mut accounts, &mut dropdown, &mut remove, "bob (blessing)", &entry(None, None, Some("https://s")), Ok("t".to_string()));
    assert_eq!(accounts[0].1.account_type, SavedAccountType::BlessingSkin);
    assert_eq!(accounts[0].1.custom_auth_url.as_deref(), Some("https://s"));
}
