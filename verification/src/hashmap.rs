//! Hash maps and hash sets: values found again by key, and keys kept once.

use crate::accounts::{Account, AccountInfo, Accounts};
use vstd::hash_map::StringHashMap;
use vstd::hash_set::StringHashSet;
use vstd::prelude::*;

verus! {

/// Looking a key up right after inserting it finds the inserted value.
pub proof fn lemma_insert_then_lookup<K, V>(map: Map<K, V>, key: K, value: V)
    ensures
        map.insert(key, value).contains_key(key),
        map.insert(key, value)[key] == value,
{
}

/// Of two values inserted under one key, only the later one is kept: the
/// map is the one that inserting the later value alone would have made.
pub proof fn lemma_insert_twice_keeps_latest<K, V>(map: Map<K, V>, key: K, earlier: V, later: V)
    ensures
        map.insert(key, earlier).insert(key, later) == map.insert(key, later),
{
}

/// A set holds each entry once: inserting an entry that is there changes
/// nothing, not even the size, and the order of two insertions does not
/// matter.
pub proof fn lemma_set_keeps_entries_once<K>(set: Set<K>, a: K, b: K)
    requires
        set.finite(),
    ensures
        set.insert(a).insert(a) == set.insert(a),
        set.insert(a).insert(a).len() == set.insert(a).len(),
        set.contains(a) ==> set.insert(a) == set && set.insert(a).len() == set.len(),
        set.insert(a).insert(b) == set.insert(b).insert(a),
{
}

/// What the study of a map from names to phone numbers produced.
pub struct ContactsTour {
    /// The number found for a name that was inserted.
    pub found: Option<String>,
    /// What looking up a name that was never inserted gave.
    pub stranger: Option<String>,
    /// The number found once another was inserted under the same name.
    pub updated: Option<String>,
    /// How many names the map held then.
    pub size: usize,
    /// What looking up a name gave once it was removed.
    pub removed: Option<String>,
    /// How many names were left.
    pub size_after_removal: usize,
}

/// A copy of the text that was found, if any was.
fn owned(found: Option<&String>) -> (copy: Option<String>)
    ensures
        found is None <==> copy is None,
        found matches Some(text) ==> copy matches Some(own) && own@ == text@,
{
    match found {
        None => None,
        Some(text) => Some(text.clone()),
    }
}

/// Fills a map from names to phone numbers, looks names up, replaces one
/// number and removes one name.
pub fn basic() -> (tour: ContactsTour)
    ensures
        tour.found matches Some(number) && number@ == "555-0100"@,
        tour.stranger is None,
        tour.updated matches Some(number) && number@ == "555-0199"@,
        tour.size == 4,
        tour.removed is None,
        tour.size_after_removal == 3,
{
    broadcast use vstd::hash_map::group_hash_map_axioms;

    proof {
        reveal_strlit("Ada");
        reveal_strlit("Blaise");
        reveal_strlit("Charles");
        reveal_strlit("Grace");
        reveal_strlit("Nobody");
        assert("Ada"@.len() == 3 && "Blaise"@.len() == 6 && "Charles"@.len() == 7);
        assert("Blaise"@[0] != "Nobody"@[0]);
    }
    let mut contacts: StringHashMap<String> = StringHashMap::new();
    contacts.insert(String::from_str("Ada"), String::from_str("555-0100"));
    contacts.insert(String::from_str("Blaise"), String::from_str("555-0101"));
    contacts.insert(String::from_str("Charles"), String::from_str("555-0102"));
    contacts.insert(String::from_str("Grace"), String::from_str("555-0103"));

    let found: Option<String> = owned(contacts.get("Ada"));
    let stranger: Option<String> = owned(contacts.get("Nobody"));

    contacts.insert(String::from_str("Ada"), String::from_str("555-0199"));
    let updated: Option<String> = owned(contacts.get("Ada"));
    let size: usize = contacts.len();

    contacts.remove("Blaise");
    let removed: Option<String> = owned(contacts.get("Blaise"));
    let size_after_removal: usize = contacts.len();

    ContactsTour { found, stranger, updated, size, removed, size_after_removal }
}

/// Looks up what is kept for the account with this user name and this
/// password. A user name alone finds nothing: the key is the pair.
pub fn try_logon<'a>(accounts: &'a Accounts, username: &str, password: &str) -> (found: Option<
    &'a AccountInfo,
>)
    requires
        accounts.wf(),
    ensures
        match found {
            Some(info) => accounts@.contains_key((username@, password@)) && info@ == accounts@[(
                username@,
                password@,
            )],
            None => !accounts@.contains_key((username@, password@)),
        },
{
    let logon = Account {
        username: String::from_str(username),
        password: String::from_str(password),
    };
    accounts.get(&logon)
}

/// What the study of a map keyed by accounts produced.
pub struct LogonTour {
    /// What a logon with a wrong password found.
    pub rejected: Option<AccountInfo>,
    /// What a logon with the right password found.
    pub accepted: Option<AccountInfo>,
}

/// Keeps one account in a map keyed by accounts, and tries to log on twice:
/// with a wrong password, then with the right one.
pub fn alternate_custom_key_types() -> (tour: LogonTour)
    ensures
        tour.rejected is None,
        tour.accepted matches Some(info) && info@ == ("Ada Lovelace"@, "ada@example.org"@),
{
    proof {
        reveal_strlit("engine-42");
        reveal_strlit("engine");
        assert("engine-42"@.len() != "engine"@.len());
    }
    let mut accounts = Accounts::new();
    accounts.insert(
        Account { username: String::from_str("ada"), password: String::from_str("engine-42") },
        AccountInfo {
            name: String::from_str("Ada Lovelace"),
            email: String::from_str("ada@example.org"),
        },
    );

    let rejected: Option<AccountInfo> = try_logon(&accounts, "ada", "engine").cloned();
    let accepted: Option<AccountInfo> = try_logon(&accounts, "ada", "engine-42").cloned();

    LogonTour { rejected, accepted }
}

/// What the study of a set of names produced.
pub struct SetTour {
    /// Whether inserting a name for the first time reported it as new.
    pub fresh: bool,
    /// Whether inserting the same name again reported it as new.
    pub repeated: bool,
    /// Three names, inserted in one order, the first of them twice.
    pub forward: StringHashSet,
    /// The same names, inserted in the opposite order, the last of them twice.
    pub backward: StringHashSet,
}

/// Builds the same set of names twice, in two orders and with one name given
/// twice each time.
pub fn hashset() -> (tour: SetTour)
    ensures
        tour.fresh,
        !tour.repeated,
        tour.forward@ == set!["Ada"@, "Blaise"@, "Charles"@],
        tour.backward@ == tour.forward@,
        tour.forward@.len() == 3,
{
    proof {
        reveal_strlit("Ada");
        reveal_strlit("Blaise");
        reveal_strlit("Charles");
        assert("Ada"@.len() == 3 && "Blaise"@.len() == 6 && "Charles"@.len() == 7);
    }
    let mut forward = StringHashSet::new();
    let fresh: bool = forward.insert(String::from_str("Ada"));
    let repeated: bool = forward.insert(String::from_str("Ada"));
    forward.insert(String::from_str("Blaise"));
    forward.insert(String::from_str("Charles"));

    let mut backward = StringHashSet::new();
    backward.insert(String::from_str("Charles"));
    backward.insert(String::from_str("Charles"));
    backward.insert(String::from_str("Blaise"));
    backward.insert(String::from_str("Ada"));

    SetTour { fresh, repeated, forward, backward }
}

/// What the three studies of hashing collections produced.
pub struct HashmapTour {
    /// The study of a map from names to phone numbers.
    pub contacts: ContactsTour,
    /// The study of a map keyed by accounts.
    pub logons: LogonTour,
    /// The study of a set of names.
    pub names: SetTour,
}

/// Runs the three studies of hashing collections, one after the other.
pub fn run_hashmap() -> (tour: HashmapTour)
    ensures
        tour.contacts.found matches Some(number) && number@ == "555-0100"@,
        tour.contacts.stranger is None,
        tour.contacts.updated matches Some(number) && number@ == "555-0199"@,
        tour.contacts.size == 4,
        tour.contacts.removed is None,
        tour.contacts.size_after_removal == 3,
        tour.logons.rejected is None,
        tour.logons.accepted matches Some(info) && info@ == ("Ada Lovelace"@, "ada@example.org"@),
        tour.names.fresh,
        !tour.names.repeated,
        tour.names.forward@ == set!["Ada"@, "Blaise"@, "Charles"@],
        tour.names.backward@ == tour.names.forward@,
        tour.names.forward@.len() == 3,
{
    HashmapTour { contacts: basic(), logons: alternate_custom_key_types(), names: hashset() }
}

} // verus!
