use std_library_types::accounts::{Account, AccountInfo, Accounts};
use std_library_types::hashmap::{alternate_custom_key_types, basic, hashset, try_logon};
use std_library_types::run_hashmap;

fn account(username: &str, password: &str) -> Account {
    Account { username: username.to_string(), password: password.to_string() }
}

fn info(name: &str, email: &str) -> AccountInfo {
    AccountInfo { name: name.to_string(), email: email.to_string() }
}

fn name_of(found: Option<&AccountInfo>) -> Option<String> {
    found.map(|info| info.name.clone())
}

#[test]
fn study_of_a_map_of_contacts() {
    let tour = basic();
    assert_eq!(tour.found.as_deref(), Some("555-0100"));
    assert_eq!(tour.stranger, None);
    assert_eq!(tour.updated.as_deref(), Some("555-0199"));
    assert_eq!(tour.size, 4);
    assert_eq!(tour.removed, None);
    assert_eq!(tour.size_after_removal, 3);
}

#[test]
fn an_inserted_account_is_found_again() {
    let mut accounts = Accounts::new();
    accounts.insert(account("ada", "engine-42"), info("Ada Lovelace", "ada@example.org"));
    let found = accounts.get(&account("ada", "engine-42"));
    assert_eq!(name_of(found), Some("Ada Lovelace".to_string()));
    assert_eq!(found.map(|info| info.email.as_str()), Some("ada@example.org"));
}

#[test]
fn an_empty_map_finds_nothing() {
    let accounts = Accounts::new();
    assert!(accounts.get(&account("ada", "engine-42")).is_none());
    assert!(try_logon(&accounts, "", "").is_none());
}

#[test]
fn the_later_of_two_values_under_one_key_is_kept() {
    let mut accounts = Accounts::new();
    accounts.insert(account("ada", "engine-42"), info("Ada", "ada@example.org"));
    accounts.insert(account("blaise", "wager"), info("Blaise", "blaise@example.org"));
    accounts.insert(account("ada", "engine-42"), info("Countess of Lovelace", "ada@example.com"));
    let found = accounts.get(&account("ada", "engine-42"));
    assert_eq!(name_of(found), Some("Countess of Lovelace".to_string()));
    assert_eq!(found.map(|info| info.email.as_str()), Some("ada@example.com"));
    let other = accounts.get(&account("blaise", "wager"));
    assert_eq!(name_of(other), Some("Blaise".to_string()));
}

#[test]
fn both_texts_of_a_key_count() {
    let mut accounts = Accounts::new();
    accounts.insert(account("ada", "engine-42"), info("Ada", "ada@example.org"));
    accounts.insert(account("ada", "loom"), info("Another Ada", "other@example.org"));
    assert_eq!(name_of(try_logon(&accounts, "ada", "engine-42")), Some("Ada".to_string()));
    assert_eq!(name_of(try_logon(&accounts, "ada", "loom")), Some("Another Ada".to_string()));
    assert_eq!(name_of(try_logon(&accounts, "ada", "engine")), None);
    assert_eq!(name_of(try_logon(&accounts, "engine-42", "ada")), None);
    assert_eq!(name_of(try_logon(&accounts, "Ada", "engine-42")), None);
}

#[test]
fn accounts_compare_by_both_texts() {
    assert!(account("ada", "engine-42") == account("ada", "engine-42"));
    assert!(account("ada", "engine-42") != account("ada", "engine"));
    assert!(account("ada", "engine-42") != account("adb", "engine-42"));
}

#[test]
fn study_of_a_map_keyed_by_accounts() {
    let tour = alternate_custom_key_types();
    assert!(tour.rejected.is_none());
    let accepted = tour.accepted.expect("the right password finds the account");
    assert_eq!(accepted.name, "Ada Lovelace");
    assert_eq!(accepted.email, "ada@example.org");
}

#[test]
fn study_of_a_set_of_names() {
    let tour = hashset();
    assert!(tour.fresh);
    assert!(!tour.repeated);
    assert_eq!(tour.forward.len(), 3);
    assert_eq!(tour.backward.len(), 3);
    for name in ["Ada", "Blaise", "Charles"] {
        assert!(tour.forward.contains(name));
        assert!(tour.backward.contains(name));
    }
    assert!(!tour.forward.contains("Grace"));
    assert!(!tour.backward.contains("ada"));
}

#[test]
fn study_of_hashing_collections() {
    let tour = run_hashmap();
    assert_eq!(tour.contacts.found.as_deref(), Some("555-0100"));
    assert_eq!(tour.contacts.updated.as_deref(), Some("555-0199"));
    assert_eq!(tour.contacts.size, 4);
    assert_eq!(tour.contacts.size_after_removal, 3);
    assert!(tour.logons.rejected.is_none());
    assert_eq!(tour.logons.accepted.map(|info| info.name), Some("Ada Lovelace".to_string()));
    assert!(tour.names.fresh);
    assert!(!tour.names.repeated);
    assert_eq!(tour.names.forward.len(), 3);
    assert_eq!(tour.names.backward.len(), 3);
}

#[test]
fn accounts_are_keys_of_the_standard_hash_map_too() {
    let mut logons = std::collections::HashMap::new();
    logons.insert(account("ada", "engine-42"), 1);
    logons.insert(account("ada", "loom"), 2);
    logons.insert(account("ada", "engine-42"), 3);
    assert_eq!(logons.len(), 2);
    assert_eq!(logons.get(&account("ada", "engine-42")), Some(&3));
    assert_eq!(logons.get(&account("ada", "loom")), Some(&2));
    assert_eq!(logons.get(&account("ada", "engine")), None);
}
