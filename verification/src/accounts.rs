//! A map whose keys are a type of this library.
//!
//! The key is an account: a user name and a password. All that the map asks
//! of its keys is that two of them can be compared.

use vstd::prelude::*;
use vstd::std_specs::cmp::PartialEqSpecImpl;

verus! {

/// A key made of two texts. Two accounts are the same key when both their
/// texts are the same.
#[derive(Debug, Hash)]
pub struct Account {
    /// The name that the user logs on with.
    pub username: String,
    /// The password that goes with it.
    pub password: String,
}

impl View for Account {
    type V = (Seq<char>, Seq<char>);

    open spec fn view(&self) -> (Seq<char>, Seq<char>) {
        (self.username@, self.password@)
    }
}

impl PartialEq for Account {
    fn eq(&self, other: &Self) -> (same: bool) {
        self.username == other.username && self.password == other.password
    }
}

impl Eq for Account {

}

impl PartialEqSpecImpl for Account {
    open spec fn obeys_eq_spec() -> bool {
        true
    }

    open spec fn eq_spec(&self, other: &Self) -> bool {
        self@ == other@
    }
}

/// What is kept for an account.
#[derive(Debug)]
pub struct AccountInfo {
    /// The user's full name.
    pub name: String,
    /// Where to write to the user.
    pub email: String,
}

impl View for AccountInfo {
    type V = (Seq<char>, Seq<char>);

    open spec fn view(&self) -> (Seq<char>, Seq<char>) {
        (self.name@, self.email@)
    }
}

impl Clone for AccountInfo {
    fn clone(&self) -> (copy: Self)
        ensures
            copy@ == self@,
    {
        AccountInfo { name: self.name.clone(), email: self.email.clone() }
    }
}

/// Whether some entry of `entries` has the key `key`.
spec fn holds_key(entries: Seq<(Account, AccountInfo)>, key: (Seq<char>, Seq<char>)) -> bool {
    exists|i: int| 0 <= i < entries.len() && (#[trigger] entries[i]).0@ == key
}

/// A place in `entries` at which the key `key` stands, where there is one.
spec fn place_of(entries: Seq<(Account, AccountInfo)>, key: (Seq<char>, Seq<char>)) -> int {
    choose|i: int| 0 <= i < entries.len() && (#[trigger] entries[i]).0@ == key
}

/// Whether no key stands at two places of `entries`.
spec fn keys_once(entries: Seq<(Account, AccountInfo)>) -> bool {
    forall|i: int, j: int|
        0 <= i < entries.len() && 0 <= j < entries.len() && (#[trigger] entries[i]).0@ == (
        #[trigger] entries[j]).0@ ==> i == j
}

/// The map that `entries` stands for.
spec fn map_of(entries: Seq<(Account, AccountInfo)>) -> Map<
    (Seq<char>, Seq<char>),
    (Seq<char>, Seq<char>),
> {
    Map::new(
        |key: (Seq<char>, Seq<char>)| holds_key(entries, key),
        |key: (Seq<char>, Seq<char>)| entries[place_of(entries, key)].1@,
    )
}

/// A map keyed by accounts. It keeps its entries in a vector, each key once,
/// and finds a key by comparing it with the keys it holds.
pub struct Accounts {
    entries: Vec<(Account, AccountInfo)>,
}

impl View for Accounts {
    type V = Map<(Seq<char>, Seq<char>), (Seq<char>, Seq<char>)>;

    closed spec fn view(&self) -> Map<(Seq<char>, Seq<char>), (Seq<char>, Seq<char>)> {
        map_of(self.entries@)
    }
}

impl Accounts {
    /// Whether each key is held once.
    pub closed spec fn wf(&self) -> bool {
        keys_once(self.entries@)
    }

    /// A map without entries.
    pub fn new() -> (accounts: Self)
        ensures
            accounts.wf(),
            accounts@ == Map::<(Seq<char>, Seq<char>), (Seq<char>, Seq<char>)>::empty(),
    {
        Accounts { entries: Vec::new() }
    }

    /// Where `account` is held, if it is.
    fn find(&self, account: &Account) -> (place: Option<usize>)
        requires
            self.wf(),
        ensures
            match place {
                Some(i) => i < self.entries@.len() && self.entries@[i as int].0@ == account@
                    && place_of(self.entries@, account@) == i,
                None => !holds_key(self.entries@, account@),
            },
    {
        let mut i: usize = 0;
        while i < self.entries.len()
            invariant
                self.wf(),
                i <= self.entries@.len(),
                forall|j: int| 0 <= j < i ==> (#[trigger] self.entries@[j]).0@ != account@,
            decreases self.entries@.len() - i,
        {
            if self.entries[i].0 == *account {
                proof {
                    assert(holds_key(self.entries@, account@));
                    let place = place_of(self.entries@, account@);
                    assert(self.entries@[place].0@ == self.entries@[i as int].0@);
                }
                return Some(i);
            }
            i = i + 1;
        }
        None
    }

    /// Keeps `info` for `account`, in place of what was kept for it before.
    pub fn insert(&mut self, account: Account, info: AccountInfo)
        requires
            old(self).wf(),
        ensures
            final(self).wf(),
            final(self)@ == old(self)@.insert(account@, info@),
    {
        let ghost key = account@;
        let ghost value = info@;
        let ghost before = self.entries@;
        match self.find(&account) {
            Some(i) => {
                self.entries.set(i, (account, info));
            },
            None => {
                self.entries.push((account, info));
            },
        }
        proof {
            let after = self.entries@;
            // The keys stand where they stood; a key that is new stands last.
            assert forall|k: (Seq<char>, Seq<char>)|
                holds_key(after, k) <==> (k == key || holds_key(before, k)) by {
                if holds_key(before, k) {
                    let i = place_of(before, k);
                    assert(after[i].0@ == before[i].0@);
                }
                if k == key && !holds_key(before, key) {
                    assert(after[after.len() - 1].0@ == key);
                }
            }
            // Under `key` stands `value`; under any other key, what stood there.
            assert forall|k: (Seq<char>, Seq<char>)| holds_key(after, k) implies map_of(after)[k]
                == map_of(before).insert(key, value)[k] by {
                let i = place_of(after, k);
                if k != key {
                    let j = place_of(before, k);
                    assert(after[j].0@ == before[j].0@);
                }
            }
        }
    }

    /// What is kept for `account`, if anything is.
    pub fn get(&self, account: &Account) -> (found: Option<&AccountInfo>)
        requires
            self.wf(),
        ensures
            match found {
                Some(info) => self@.contains_key(account@) && info@ == self@[account@],
                None => !self@.contains_key(account@),
            },
    {
        match self.find(account) {
            Some(i) => Some(&self.entries[i].1),
            None => None,
        }
    }
}

} // verus!
