//! Where profile credentials are kept: the store interface, the key of a credential, and the
//! map of the file store.
use vstd::prelude::*;
use crate::text::{join3, same_text};

verus! {

/// The name of the file of the file secret store.
pub const SECRETS_FILENAME: &'static str = "secrets-v1.json";

/// A store of profile credentials, by service name and profile id.
pub trait SecretStore {
    /// Saves the credential of a profile.
    fn save_secret(&self, service_name: &str, profile_id: &str, secret: &str) -> Result<(), String>;

    /// The saved credential of a profile, if any.
    fn load_secret(&self, service_name: &str, profile_id: &str) -> Result<Option<String>, String>;

    /// Forgets the credential of a profile.
    fn delete_secret(&self, service_name: &str, profile_id: &str) -> Result<(), String>;
}

/// The key under which the credential of a profile is kept.
pub open spec fn secret_key(service_name: Seq<char>, profile_id: Seq<char>) -> Seq<char> {
    service_name + ":"@ + profile_id
}

/// The key under which the credential of a profile is kept: `service:profile`.
pub fn build_key(service_name: &str, profile_id: &str) -> (r: String)
    ensures
        r@ == secret_key(service_name@, profile_id@),
{
    join3(service_name, ":", profile_id)
}

/// The version written into a new secrets file.
pub fn default_version() -> (r: u32)
    ensures
        r == 1,
{
    1
}

/// The entries list has each key at most once.
pub open spec fn distinct_keys(entries: Seq<(String, String)>) -> bool {
    forall|i: int, j: int|
        0 <= i < entries.len() && 0 <= j < entries.len() && i != j ==> #[trigger] entries[i].0@
            != #[trigger] entries[j].0@
}

/// Some entry has the key `k`.
pub open spec fn has_key(entries: Seq<(String, String)>, k: Seq<char>) -> bool {
    exists|i: int| 0 <= i < entries.len() && #[trigger] entries[i].0@ == k
}

/// The value of an entry with key `k`.
pub open spec fn value_of(entries: Seq<(String, String)>, k: Seq<char>) -> Seq<char> {
    entries[choose|i: int| 0 <= i < entries.len() && #[trigger] entries[i].0@ == k].1@
}

/// The map that a list of entries with distinct keys stands for.
pub open spec fn entries_map(entries: Seq<(String, String)>) -> Map<Seq<char>, Seq<char>> {
    Map::new(|k: Seq<char>| has_key(entries, k), |k: Seq<char>| value_of(entries, k))
}

/// The map a list of entries gives when they are inserted in order, a later entry winning
/// over an earlier one with the same key.
pub open spec fn inserted_in_order(entries: Seq<(String, String)>) -> Map<Seq<char>, Seq<char>>
    decreases entries.len(),
{
    if entries.len() == 0 {
        Map::empty()
    } else {
        inserted_in_order(entries.drop_last()).insert(entries.last().0@, entries.last().1@)
    }
}

/// In a list with distinct keys, the entry at `i` is the one with its key.
proof fn lemma_value_at(entries: Seq<(String, String)>, i: int)
    requires
        distinct_keys(entries),
        0 <= i < entries.len(),
    ensures
        has_key(entries, entries[i].0@),
        value_of(entries, entries[i].0@) == entries[i].1@,
{
    let k = entries[i].0@;
    assert(0 <= i < entries.len() && entries[i].0@ == k);
    let j = choose|j: int| 0 <= j < entries.len() && #[trigger] entries[j].0@ == k;
    if j != i {
        assert(entries[i].0@ != entries[j].0@);
    }
}

/// The credentials of the file store, each key once.
#[derive(Debug, Clone, PartialEq, Eq)]
pub struct FileSecrets {
    version: u32,
    entries: Vec<(String, String)>,
}

impl View for FileSecrets {
    type V = Map<Seq<char>, Seq<char>>;

    closed spec fn view(&self) -> Map<Seq<char>, Seq<char>> {
        entries_map(self.entries@)
    }
}

impl FileSecrets {
    /// The version of the file format.
    pub closed spec fn version_view(self) -> u32 {
        self.version
    }

    /// The version of the file format.
    pub fn version(&self) -> (r: u32)
        ensures
            r == self.version_view(),
    {
        self.version
    }

    /// The invariant: each key once.
    pub closed spec fn wf(self) -> bool {
        distinct_keys(self.entries@)
    }

    /// No credentials, at the current version.
    pub fn new() -> (r: Self)
        ensures
            r.wf(),
            r@ == Map::<Seq<char>, Seq<char>>::empty(),
            r.version_view() == 1,
    {
        let r = FileSecrets { version: default_version(), entries: Vec::new() };
        assert(r@ =~= Map::<Seq<char>, Seq<char>>::empty());
        r
    }

    /// The credentials of a file's entries, a later entry winning over an earlier one with
    /// the same key.
    pub fn from_entries(version: u32, entries: Vec<(String, String)>) -> (r: Self)
        ensures
            r.wf(),
            r@ == inserted_in_order(entries@),
            r.version_view() == version,
    {
        let mut r = FileSecrets { version, entries: Vec::new() };
        assert(r@ =~= Map::<Seq<char>, Seq<char>>::empty());
        let mut i: usize = 0;
        while i < entries.len()
            invariant
                i <= entries@.len(),
                r.wf(),
                r.version_view() == version,
                r@ == inserted_in_order(entries@.subrange(0, i as int)),
            decreases entries@.len() - i,
        {
            let key = entries[i].0.clone();
            let value = entries[i].1.clone();
            r.insert(key, value);
            proof {
                let s = entries@.subrange(0, i + 1);
                assert(s.drop_last() =~= entries@.subrange(0, i as int));
                assert(s.last() == entries@[i as int]);
            }
            i = i + 1;
        }
        assert(entries@.subrange(0, entries@.len() as int) =~= entries@);
        r
    }

    /// The entries, each key once, in the order they were first saved.
    pub fn entries(&self) -> (r: &Vec<(String, String)>)
        requires
            self.wf(),
        ensures
            distinct_keys(r@),
            entries_map(r@) == self@,
    {
        &self.entries
    }

    /// The position of the entry with key `key`.
    fn position(&self, key: &str) -> (r: Option<usize>)
        requires
            self.wf(),
        ensures
            match r {
                Some(i) => i < self.entries@.len() && self.entries@[i as int].0@ == key@,
                None => !has_key(self.entries@, key@),
            },
    {
        let mut i: usize = 0;
        while i < self.entries.len()
            invariant
                i <= self.entries@.len(),
                forall|j: int| 0 <= j < i ==> self.entries@[j].0@ != key@,
            decreases self.entries@.len() - i,
        {
            if same_text(self.entries[i].0.as_str(), key) {
                return Some(i);
            }
            i = i + 1;
        }
        None
    }

    /// The credential saved under `key`.
    pub fn get(&self, key: &str) -> (r: Option<String>)
        requires
            self.wf(),
        ensures
            match r {
                Some(v) => self@.contains_key(key@) && self@[key@] == v@,
                None => !self@.contains_key(key@),
            },
    {
        match self.position(key) {
            Some(i) => {
                proof {
                    lemma_value_at(self.entries@, i as int);
                }
                Some(self.entries[i].1.clone())
            },
            None => None,
        }
    }

    /// Saves `value` under `key`, in place of what was saved under it.
    pub fn insert(&mut self, key: String, value: String)
        requires
            old(self).wf(),
        ensures
            final(self).wf(),
            final(self).version_view() == old(self).version_view(),
            final(self)@ == old(self)@.insert(key@, value@),
    {
        let ghost before = self.entries@;
        let ghost k = key@;
        let ghost v = value@;
        match self.position(key.as_str()) {
            Some(i) => {
                self.entries.set(i, (key, value));
                proof {
                    let after = self.entries@;
                    assert(distinct_keys(after)) by {
                        assert forall|a: int, b: int|
                            0 <= a < after.len() && 0 <= b < after.len() && a != b implies #[trigger] after[a].0@
                            != #[trigger] after[b].0@ by {
                            if a != i && b != i {
                                assert(after[a] == before[a] && after[b] == before[b]);
                                assert(before[a].0@ != before[b].0@);
                            } else if a == i {
                                assert(after[b] == before[b]);
                                assert(before[i as int].0@ != before[b].0@);
                            } else {
                                assert(after[a] == before[a]);
                                assert(before[a].0@ != before[i as int].0@);
                            }
                        }
                    }
                    assert(entries_map(after) =~= entries_map(before).insert(k, v)) by {
                        assert forall|q: Seq<char>| #[trigger] has_key(after, q) == (has_key(before, q) || q == k) by {
                            if has_key(before, q) {
                                let j = choose|j: int| 0 <= j < before.len() && #[trigger] before[j].0@ == q;
                                if j == i {
                                    assert(after[i as int].0@ == q);
                                } else {
                                    assert(after[j].0@ == q);
                                }
                            }
                            if q == k {
                                assert(after[i as int].0@ == q);
                            }
                            if has_key(after, q) {
                                let j = choose|j: int| 0 <= j < after.len() && #[trigger] after[j].0@ == q;
                                if j != i {
                                    assert(before[j].0@ == q);
                                }
                            }
                        }
                        assert forall|q: Seq<char>| has_key(after, q) implies #[trigger] value_of(after, q)
                            == entries_map(before).insert(k, v)[q] by {
                            let j = choose|j: int| 0 <= j < after.len() && #[trigger] after[j].0@ == q;
                            lemma_value_at(after, j);
                            if j == i {
                                assert(q == k);
                            } else {
                                assert(before[j] == after[j]);
                                lemma_value_at(before, j);
                            }
                        }
                    }
                }
            },
            None => {
                self.entries.push((key, value));
                proof {
                    let after = self.entries@;
                    let n = before.len() as int;
                    assert(after =~= before.push((after[n].0, after[n].1)));
                    assert(distinct_keys(after)) by {
                        assert forall|a: int, b: int|
                            0 <= a < after.len() && 0 <= b < after.len() && a != b implies #[trigger] after[a].0@
                            != #[trigger] after[b].0@ by {
                            if a < n && b < n {
                                assert(before[a].0@ != before[b].0@);
                            } else if a == n {
                                assert(before[b].0@ != k);
                            } else {
                                assert(before[a].0@ != k);
                            }
                        }
                    }
                    assert(entries_map(after) =~= entries_map(before).insert(k, v)) by {
                        assert forall|q: Seq<char>| #[trigger] has_key(after, q) == (has_key(before, q) || q == k) by {
                            if has_key(before, q) {
                                let j = choose|j: int| 0 <= j < before.len() && #[trigger] before[j].0@ == q;
                                assert(after[j].0@ == q);
                            }
                            if q == k {
                                assert(after[n].0@ == q);
                            }
                            if has_key(after, q) {
                                let j = choose|j: int| 0 <= j < after.len() && #[trigger] after[j].0@ == q;
                                if j != n {
                                    assert(before[j].0@ == q);
                                }
                            }
                        }
                        assert forall|q: Seq<char>| has_key(after, q) implies #[trigger] value_of(after, q)
                            == entries_map(before).insert(k, v)[q] by {
                            let j = choose|j: int| 0 <= j < after.len() && #[trigger] after[j].0@ == q;
                            lemma_value_at(after, j);
                            if j == n {
                                assert(q == k);
                            } else {
                                assert(before[j] == after[j]);
                                lemma_value_at(before, j);
                            }
                        }
                    }
                }
            },
        }
    }

    /// Forgets what was saved under `key`.
    pub fn remove(&mut self, key: &str)
        requires
            old(self).wf(),
        ensures
            final(self).wf(),
            final(self).version_view() == old(self).version_view(),
            final(self)@ == old(self)@.remove(key@),
    {
        let ghost before = self.entries@;
        let ghost k = key@;
        match self.position(key) {
            Some(i) => {
                let _ = self.entries.remove(i);
                proof {
                    let after = self.entries@;
                    assert(after =~= before.remove(i as int));
                    assert(distinct_keys(after)) by {
                        assert forall|a: int, b: int|
                            0 <= a < after.len() && 0 <= b < after.len() && a != b implies #[trigger] after[a].0@
                            != #[trigger] after[b].0@ by {
                            let a0 = if a < i { a } else { a + 1 };
                            let b0 = if b < i { b } else { b + 1 };
                            assert(after[a] == before[a0] && after[b] == before[b0]);
                            assert(before[a0].0@ != before[b0].0@);
                        }
                    }
                    assert(entries_map(after) =~= entries_map(before).remove(k)) by {
                        assert forall|q: Seq<char>| #[trigger] has_key(after, q) == (has_key(before, q) && q != k) by {
                            if has_key(before, q) && q != k {
                                let j = choose|j: int| 0 <= j < before.len() && #[trigger] before[j].0@ == q;
                                assert(j != i);
                                let j1 = if j < i { j } else { j - 1 };
                                assert(after[j1] == before[j]);
                            }
                            if has_key(after, q) {
                                let j = choose|j: int| 0 <= j < after.len() && #[trigger] after[j].0@ == q;
                                let j0 = if j < i { j } else { j + 1 };
                                assert(after[j] == before[j0]);
                                assert(before[j0].0@ != before[i as int].0@);
                            }
                        }
                        assert forall|q: Seq<char>| has_key(after, q) implies #[trigger] value_of(after, q)
                            == entries_map(before)[q] by {
                            let j = choose|j: int| 0 <= j < after.len() && #[trigger] after[j].0@ == q;
                            lemma_value_at(after, j);
                            let j0 = if j < i { j } else { j + 1 };
                            assert(after[j] == before[j0]);
                            lemma_value_at(before, j0);
                        }
                    }
                }
            },
            None => {
                assert(entries_map(before) =~= entries_map(before).remove(k));
            },
        }
    }

    /// Saves the credential of a profile.
    pub fn save_secret(&mut self, service_name: &str, profile_id: &str, secret: &str)
        requires
            old(self).wf(),
        ensures
            final(self).wf(),
            final(self).version_view() == old(self).version_view(),
            final(self)@ == old(self)@.insert(secret_key(service_name@, profile_id@), secret@),
    {
        self.insert(build_key(service_name, profile_id), String::from_str(secret));
    }

    /// The saved credential of a profile.
    pub fn load_secret(&self, service_name: &str, profile_id: &str) -> (r: Option<String>)
        requires
            self.wf(),
        ensures
            match r {
                Some(v) => self@.contains_key(secret_key(service_name@, profile_id@)) && self@[secret_key(
                    service_name@,
                    profile_id@,
                )] == v@,
                None => !self@.contains_key(secret_key(service_name@, profile_id@)),
            },
    {
        let key = build_key(service_name, profile_id);
        self.get(key.as_str())
    }

    /// Forgets the credential of a profile.
    pub fn delete_secret(&mut self, service_name: &str, profile_id: &str)
        requires
            old(self).wf(),
        ensures
            final(self).wf(),
            final(self).version_view() == old(self).version_view(),
            final(self)@ == old(self)@.remove(secret_key(service_name@, profile_id@)),
    {
        let key = build_key(service_name, profile_id);
        self.remove(key.as_str());
    }
}

/// What the OS keyring answered a read or a removal with.
#[derive(Debug, Clone, PartialEq, Eq)]
pub enum KeyringReply {
    /// The saved credential.
    Found(String),
    /// Nothing is saved for the entry.
    NoEntry,
    /// The keyring failed, with its message.
    Failed(String),
}

/// The result of loading a credential from the keyring's answer: nothing saved is no
/// credential; a failure is an error that says so.
pub fn keyring_load_result(reply: KeyringReply) -> (r: Result<Option<String>, String>)
    ensures
        match reply {
            KeyringReply::Found(s) => r == Ok::<Option<String>, String>(Some(s)),
            KeyringReply::NoEntry => r == Ok::<Option<String>, String>(None),
            KeyringReply::Failed(m) => r matches Err(e) && e@
                == "Failed to load credentials from the OS keyring: "@ + m@,
        },
{
    match reply {
        KeyringReply::Found(s) => Ok(Some(s)),
        KeyringReply::NoEntry => Ok(None),
        KeyringReply::Failed(m) => Err(
            crate::text::join2("Failed to load credentials from the OS keyring: ", m.as_str()),
        ),
    }
}

/// The result of deleting a credential from the keyring's answer: removing what is not
/// there succeeds; a failure is an error that says so.
pub fn keyring_delete_result(reply: KeyringReply) -> (r: Result<(), String>)
    ensures
        match reply {
            KeyringReply::Failed(m) => r matches Err(e) && e@
                == "Failed to delete credentials from the OS keyring: "@ + m@,
            _ => r is Ok,
        },
{
    match reply {
        KeyringReply::Failed(m) => Err(
            crate::text::join2("Failed to delete credentials from the OS keyring: ", m.as_str()),
        ),
        _ => Ok(()),
    }
}

/// Saving the credential of one profile leaves the credential of every other profile of the
/// same service as it was.
pub proof fn law_save_keeps_other_profiles(
    m: Map<Seq<char>, Seq<char>>,
    service_name: Seq<char>,
    profile_id: Seq<char>,
    other_profile_id: Seq<char>,
    secret: Seq<char>,
)
    requires
        profile_id != other_profile_id,
    ensures
        m.insert(secret_key(service_name, profile_id), secret).contains_key(
            secret_key(service_name, other_profile_id),
        ) == m.contains_key(secret_key(service_name, other_profile_id)),
        m.insert(secret_key(service_name, profile_id), secret)[secret_key(
            service_name,
            other_profile_id,
        )] == m[secret_key(service_name, other_profile_id)],
{
    reveal_strlit(":");
    let a = secret_key(service_name, profile_id);
    let b = secret_key(service_name, other_profile_id);
    let n = service_name.len() + 1;
    assert(a.subrange(n as int, a.len() as int) =~= profile_id);
    assert(b.subrange(n as int, b.len() as int) =~= other_profile_id);
    assert(a != b);
}

/// A credential saved for a profile is what loading it gives back.
pub proof fn law_load_after_save(
    m: Map<Seq<char>, Seq<char>>,
    service_name: Seq<char>,
    profile_id: Seq<char>,
    secret: Seq<char>,
)
    ensures
        m.insert(secret_key(service_name, profile_id), secret).contains_key(
            secret_key(service_name, profile_id),
        ),
        m.insert(secret_key(service_name, profile_id), secret)[secret_key(service_name, profile_id)]
            == secret,
        !m.remove(secret_key(service_name, profile_id)).contains_key(
            secret_key(service_name, profile_id),
        ),
{
}

} // verus!
