//! Secure storage: a key-value store for private keys, session tokens and
//! other secrets, the key naming of the storage manager, and the Android
//! and iOS back ends.

use vstd::prelude::*;
use vstd::slice::slice_to_vec;
use vstd::utf8::{decode_utf8, encode_utf8, valid_utf8};
use std::collections::HashMap;
use chacha20poly1305::aead::{Aead, KeyInit};
use crate::error::Error;
use crate::text::concat_str;
use crate::mobile::platform_adaptations::PlatformType;

verus! {

/// Cross-platform secure storage interface.
pub trait SecureStorage {
    /// Store a secure value with the given key.
    fn store(&mut self, key: &str, value: &[u8]) -> Result<(), Error>;

    /// Retrieve a secure value by key.
    fn retrieve(&self, key: &str) -> Result<Option<Vec<u8>>, Error>;

    /// Delete a secure value by key.
    fn delete(&mut self, key: &str) -> Result<(), Error>;

    /// Check if a key exists in secure storage.
    fn key_exists(&self, key: &str) -> Result<bool, Error>;

    /// List all available keys (not values).
    fn list_keys(&self) -> Result<Vec<String>, Error>;

    /// Clear all stored values.
    fn clear_all(&mut self) -> Result<(), Error>;
}

/// Some entry of `s` has key `k`.
pub open spec fn has_key(s: Seq<(String, Vec<u8>)>, k: Seq<char>) -> bool {
    exists|i: int| 0 <= i < s.len() && (#[trigger] s[i]).0@ == k
}

/// Position of an entry of `s` with key `k`.
pub open spec fn key_index(s: Seq<(String, Vec<u8>)>, k: Seq<char>) -> int {
    choose|i: int| 0 <= i < s.len() && (#[trigger] s[i]).0@ == k
}

/// The map that a list of (key, value) entries stands for.
pub open spec fn entries_map(s: Seq<(String, Vec<u8>)>) -> Map<Seq<char>, Seq<u8>> {
    Map::new(|k: Seq<char>| has_key(s, k), |k: Seq<char>| s[key_index(s, k)].1@)
}

/// No two entries have the same key.
pub open spec fn keys_unique(s: Seq<(String, Vec<u8>)>) -> bool {
    forall|i: int, j: int| 0 <= i < s.len() && 0 <= j < s.len() && i != j ==> s[i].0@ != s[j].0@
}

/// `keys` names each key of `m` exactly once.
pub open spec fn lists_keys(m: Map<Seq<char>, Seq<u8>>, keys: Seq<String>) -> bool {
    &&& forall|k: Seq<char>| m.contains_key(k) <==> exists|i: int| 0 <= i < keys.len() && (#[trigger] keys[i])@ == k
    &&& forall|i: int, j: int| 0 <= i < keys.len() && 0 <= j < keys.len() && i != j ==> keys[i]@ != keys[j]@
}

proof fn lemma_index_unique(s: Seq<(String, Vec<u8>)>, i: int)
    requires
        keys_unique(s),
        0 <= i < s.len(),
    ensures
        has_key(s, s[i].0@),
        key_index(s, s[i].0@) == i,
        entries_map(s).contains_key(s[i].0@),
        entries_map(s)[s[i].0@] == s[i].1@,
{
    assert(has_key(s, s[i].0@));
}

proof fn lemma_entries_map_ext(t: Seq<(String, Vec<u8>)>, m: Map<Seq<char>, Seq<u8>>)
    requires
        forall|k: Seq<char>| #[trigger] has_key(t, k) <==> m.contains_key(k),
        forall|k: Seq<char>| #[trigger] has_key(t, k) ==> t[key_index(t, k)].1@ == m[k],
    ensures
        entries_map(t) == m,
{
    assert(entries_map(t) =~= m);
}

/// Position of the entry with key `key`, if any.
fn find_entry(entries: &Vec<(String, Vec<u8>)>, key: &str) -> (r: Option<usize>)
    ensures
        r matches Some(i) ==> i < entries@.len() && entries@[i as int].0@ == key@,
        r is None ==> !has_key(entries@, key@),
{
    let k = key.to_owned();
    let mut i: usize = 0;
    while i < entries.len()
        invariant
            i <= entries.len(),
            k@ == key@,
            forall|j: int| 0 <= j < i ==> (#[trigger] entries@[j]).0@ != key@,
        decreases entries.len() - i,
    {
        if entries[i].0.eq(&k) {
            return Some(i);
        }
        i = i + 1;
    }
    None
}

/// Sets the value of `key`, replacing an entry with that key or adding one.
fn put_entry(entries: &mut Vec<(String, Vec<u8>)>, key: &str, value: &[u8])
    requires
        keys_unique(old(entries)@),
    ensures
        keys_unique(final(entries)@),
        entries_map(final(entries)@) == entries_map(old(entries)@).insert(key@, value@),
{
    let ghost s = entries@;
    let entry = (key.to_owned(), slice_to_vec(value));
    match find_entry(entries, key) {
        Some(i) => {
            entries.set(i, entry);
            proof {
                let t = entries@;
                assert(keys_unique(t)) by {
                    assert forall|a: int, b: int| 0 <= a < t.len() && 0 <= b < t.len() && a != b implies t[a].0@ != t[b].0@ by {
                        assert(t[a].0@ == s[a].0@ && t[b].0@ == s[b].0@);
                    }
                }
                let ghost m = entries_map(s).insert(key@, value@);
                assert forall|k: Seq<char>| #[trigger] has_key(t, k) <==> m.contains_key(k)
                    && (has_key(t, k) ==> t[key_index(t, k)].1@ == m[k]) by {
                    lemma_index_unique(t, i as int);
                    if k != key@ {
                        if has_key(s, k) {
                            let j = key_index(s, k);
                            lemma_index_unique(s, j);
                            assert(t[j] == s[j]);
                            lemma_index_unique(t, j);
                        }
                        if has_key(t, k) {
                            let j = key_index(t, k);
                            assert(t[j] == s[j]);
                        }
                    }
                }
                lemma_entries_map_ext(t, m);
            }
        },
        None => {
            entries.push(entry);
            proof {
                let t = entries@;
                assert(keys_unique(t)) by {
                    assert forall|a: int, b: int| 0 <= a < t.len() && 0 <= b < t.len() && a != b implies t[a].0@ != t[b].0@ by {
                        if a < s.len() && b < s.len() {
                            assert(t[a] == s[a] && t[b] == s[b]);
                        } else if a < s.len() {
                            assert(t[a] == s[a]);
                        } else {
                            assert(t[b] == s[b]);
                        }
                    }
                }
                let ghost m = entries_map(s).insert(key@, value@);
                assert forall|k: Seq<char>| #[trigger] has_key(t, k) <==> m.contains_key(k)
                    && (has_key(t, k) ==> t[key_index(t, k)].1@ == m[k]) by {
                    lemma_index_unique(t, s.len() as int);
                    if k != key@ {
                        if has_key(s, k) {
                            let j = key_index(s, k);
                            lemma_index_unique(s, j);
                            assert(t[j] == s[j]);
                            lemma_index_unique(t, j);
                        }
                        if has_key(t, k) {
                            let j = key_index(t, k);
                            if j < s.len() {
                                assert(t[j] == s[j]);
                            }
                        }
                    }
                }
                lemma_entries_map_ext(t, m);
            }
        },
    }
}

/// Removes the entry with key `key`, if any.
fn remove_entry(entries: &mut Vec<(String, Vec<u8>)>, key: &str)
    requires
        keys_unique(old(entries)@),
    ensures
        keys_unique(final(entries)@),
        entries_map(final(entries)@) == entries_map(old(entries)@).remove(key@),
{
    let ghost s = entries@;
    match find_entry(entries, key) {
        Some(i) => {
            entries.remove(i);
            proof {
                let t = entries@;
                assert(forall|a: int| 0 <= a < i ==> t[a] == s[a]);
                assert(forall|a: int| i <= a < t.len() ==> t[a] == s[a + 1]);
                assert(keys_unique(t)) by {
                    assert forall|a: int, b: int| 0 <= a < t.len() && 0 <= b < t.len() && a != b implies t[a].0@ != t[b].0@ by {
                        let a2 = if a < i { a } else { a + 1 };
                        let b2 = if b < i { b } else { b + 1 };
                        assert(t[a] == s[a2] && t[b] == s[b2]);
                    }
                }
                let ghost m = entries_map(s).remove(key@);
                assert forall|k: Seq<char>| #[trigger] has_key(t, k) <==> m.contains_key(k)
                    && (has_key(t, k) ==> t[key_index(t, k)].1@ == m[k]) by {
                    if k == key@ {
                        if has_key(t, k) {
                            let j = key_index(t, k);
                            let j2 = if j < i { j } else { j + 1 };
                            assert(t[j] == s[j2]);
                        }
                    } else {
                        if has_key(s, k) {
                            let j = key_index(s, k);
                            lemma_index_unique(s, j);
                            let j2 = if j < i { j } else { j - 1 };
                            assert(t[j2] == s[j]);
                            lemma_index_unique(t, j2);
                        }
                        if has_key(t, k) {
                            let j = key_index(t, k);
                            let j2 = if j < i { j } else { j + 1 };
                            assert(t[j] == s[j2]);
                        }
                    }
                }
                lemma_entries_map_ext(t, m);
            }
        },
        None => {
            assert(entries_map(s) =~= entries_map(s).remove(key@));
        },
    }
}

/// In-memory secure storage for testing and development, and the storage
/// used on platforms without a system keystore.
pub struct MemorySecureStorage {
    entries: Vec<(String, Vec<u8>)>,
}

impl View for MemorySecureStorage {
    type V = Map<Seq<char>, Seq<u8>>;

    closed spec fn view(&self) -> Map<Seq<char>, Seq<u8>> {
        entries_map(self.entries@)
    }
}

impl MemorySecureStorage {
    #[verifier::type_invariant]
    spec fn inv(self) -> bool {
        keys_unique(self.entries@)
    }

    /// An empty storage.
    pub fn new() -> (s: Self)
        ensures
            s@ == Map::<Seq<char>, Seq<u8>>::empty(),
    {
        let s = MemorySecureStorage { entries: Vec::new() };
        assert(s@ =~= Map::<Seq<char>, Seq<u8>>::empty());
        s
    }
}

impl Default for MemorySecureStorage {
    fn default() -> (s: Self)
        ensures
            s@ == Map::<Seq<char>, Seq<u8>>::empty(),
    {
        Self::new()
    }
}

impl SecureStorage for MemorySecureStorage {
    fn store(&mut self, key: &str, value: &[u8]) -> (r: Result<(), Error>)
        ensures
            r is Ok,
            final(self)@ == old(self)@.insert(key@, value@),
    {
        proof {
            use_type_invariant(&*self);
        }
        let mut entries = Vec::new();
        std::mem::swap(&mut entries, &mut self.entries);
        put_entry(&mut entries, key, value);
        self.entries = entries;
        Ok(())
    }

    fn retrieve(&self, key: &str) -> (r: Result<Option<Vec<u8>>, Error>)
        ensures
            r matches Ok(v) && (v is Some <==> self@.contains_key(key@)),
            r matches Ok(Some(v)) ==> v@ == self@[key@],
    {
        proof {
            use_type_invariant(self);
        }
        match find_entry(&self.entries, key) {
            Some(i) => {
                proof {
                    lemma_index_unique(self.entries@, i as int);
                }
                Ok(Some(slice_to_vec(self.entries[i].1.as_slice())))
            },
            None => Ok(None),
        }
    }

    fn delete(&mut self, key: &str) -> (r: Result<(), Error>)
        ensures
            r is Ok,
            final(self)@ == old(self)@.remove(key@),
    {
        proof {
            use_type_invariant(&*self);
        }
        let mut entries = Vec::new();
        std::mem::swap(&mut entries, &mut self.entries);
        remove_entry(&mut entries, key);
        self.entries = entries;
        Ok(())
    }

    fn key_exists(&self, key: &str) -> (r: Result<bool, Error>)
        ensures
            r matches Ok(b) && b == self@.contains_key(key@),
    {
        proof {
            use_type_invariant(self);
        }
        match find_entry(&self.entries, key) {
            Some(i) => {
                proof {
                    lemma_index_unique(self.entries@, i as int);
                }
                Ok(true)
            },
            None => Ok(false),
        }
    }

    fn list_keys(&self) -> (r: Result<Vec<String>, Error>)
        ensures
            r is Ok,
            r matches Ok(keys) ==> lists_keys(self@, keys@),
    {
        proof {
            use_type_invariant(self);
        }
        let mut keys: Vec<String> = Vec::new();
        let mut i: usize = 0;
        while i < self.entries.len()
            invariant
                keys_unique(self.entries@),
                i <= self.entries.len(),
                keys@.len() == i,
                forall|j: int| 0 <= j < i ==> (#[trigger] keys@[j])@ == self.entries@[j].0@,
            decreases self.entries.len() - i,
        {
            keys.push(self.entries[i].0.clone());
            i = i + 1;
        }
        proof {
            let s = self.entries@;
            assert forall|k: Seq<char>| self@.contains_key(k) <==> exists|i: int| 0 <= i < keys@.len() && (#[trigger] keys@[i])@ == k by {
                if self@.contains_key(k) {
                    let j = key_index(s, k);
                    assert(keys@[j]@ == k);
                }
                if exists|i: int| 0 <= i < keys@.len() && (#[trigger] keys@[i])@ == k {
                    let j = choose|i: int| 0 <= i < keys@.len() && (#[trigger] keys@[i])@ == k;
                    assert(s[j].0@ == k);
                }
            }
            assert forall|i: int, j: int| 0 <= i < keys@.len() && 0 <= j < keys@.len() && i != j implies keys@[i]@ != keys@[j]@ by {
                assert(keys@[i]@ == s[i].0@ && keys@[j]@ == s[j].0@);
            }
            assert(lists_keys(self@, keys@));
        }
        Ok(keys)
    }

    fn clear_all(&mut self) -> (r: Result<(), Error>)
        ensures
            r is Ok,
            final(self)@ == Map::<Seq<char>, Seq<u8>>::empty(),
    {
        self.entries = Vec::new();
        assert(self@ =~= Map::<Seq<char>, Seq<u8>>::empty());
        Ok(())
    }
}


// ============= Storage manager =============

/// Storage key of the private key with id `id`.
pub open spec fn private_key_name(id: Seq<char>) -> Seq<char> {
    "private_key_"@ + id
}

/// Storage key of the session token of session `id`.
pub open spec fn session_token_name(id: Seq<char>) -> Seq<char> {
    "session_token_"@ + id
}

/// Storage key of the serialized credentials of user `id`.
pub open spec fn user_credentials_name(id: Seq<char>) -> Seq<char> {
    "user_credentials_"@ + id
}

/// Storage key of the serialized checkpoint of game `id`.
pub open spec fn game_checkpoint_name(id: Seq<char>) -> Seq<char> {
    "game_checkpoint_"@ + id
}

/// `after` is `before` with `v` stored under `k` where the storage takes
/// `v` (`ok`), and `before` unchanged where it refuses it.
pub open spec fn stored_under(before: PlatformStorage, after: PlatformStorage, k: Seq<char>, v: Seq<u8>, ok: bool) -> bool {
    &&& ok <==> before.storable(v)
    &&& after.same_platform(before)
    &&& ok ==> after.holds(k, v) && after.entries() == before.entries().insert(k, after.entries()[k])
    &&& !ok ==> after.entries() == before.entries()
}

/// `r` is what reading `k` from `s` gives: nothing for a missing key, the
/// value that the entry reads back as, and otherwise a cipher error.
pub open spec fn read_from(s: PlatformStorage, k: Seq<char>, r: Result<Option<Vec<u8>>, Error>) -> bool {
    &&& !s.entries().contains_key(k) ==> (r matches Ok(None))
    &&& forall|v: Seq<u8>| #[trigger] s.holds(k, v) ==> (r matches Ok(Some(w)) && w@ == v)
    &&& s.entries().contains_key(k) ==> (r matches Ok(Some(_)) || r matches Err(Error::Crypto(_)))
}

/// Secure storage manager: names the entries for private keys, session
/// tokens, user credentials and game checkpoints in the platform storage.
/// Credentials and checkpoints are kept in their serialized form.
pub struct SecureStorageManager {
    pub storage: PlatformStorage,
}

impl SecureStorageManager {
    /// A manager over an empty in-memory storage, the storage of platforms
    /// other than Android and iOS.
    pub fn new() -> (r: Result<Self, Error>)
        ensures
            r matches Ok(m) && m.storage is Memory && m.storage.entries() == Map::<Seq<char>, Seq<u8>>::empty(),
    {
        Ok(SecureStorageManager { storage: PlatformStorage::Memory(MemorySecureStorage::new()) })
    }

    /// A manager over an empty storage of `platform`: the Android keystore
    /// storage, the iOS keychain storage, or the in-memory storage on any
    /// other platform.
    pub fn for_platform(platform: PlatformType) -> (r: Result<Self, Error>)
        ensures
            r matches Ok(m) && m.storage.entries() == Map::<Seq<char>, Seq<u8>>::empty()
                && (m.storage is Android <==> platform == PlatformType::Android)
                && (m.storage is Ios <==> platform == PlatformType::Ios),
    {
        let storage = match platform {
            PlatformType::Android => PlatformStorage::Android(AndroidSecureStorage::new()?),
            PlatformType::Ios => PlatformStorage::Ios(IOSSecureStorage::new()?),
            _ => PlatformStorage::Memory(MemorySecureStorage::new()),
        };
        Ok(SecureStorageManager { storage })
    }

    /// Store a private key securely.
    pub fn store_private_key(&mut self, key_id: &str, private_key: &[u8]) -> (r: Result<(), Error>)
        ensures
            stored_under(old(self).storage, final(self).storage, private_key_name(key_id@), private_key@, r is Ok),
            r matches Err(e) ==> e is Crypto,
    {
        let key = concat_str("private_key_", key_id);
        self.storage.store(key.as_str(), private_key)
    }

    /// Retrieve a private key.
    pub fn retrieve_private_key(&self, key_id: &str) -> (r: Result<Option<Vec<u8>>, Error>)
        ensures
            read_from(self.storage, private_key_name(key_id@), r),
    {
        let key = concat_str("private_key_", key_id);
        self.storage.retrieve(key.as_str())
    }

    /// Store a session authentication token (its UTF-8 bytes).
    pub fn store_session_token(&mut self, session_id: &str, token: &str) -> (r: Result<(), Error>)
        ensures
            stored_under(old(self).storage, final(self).storage, session_token_name(session_id@), encode_utf8(token@), r is Ok),
            r matches Err(e) ==> e is Crypto,
    {
        let key = concat_str("session_token_", session_id);
        self.storage.store(key.as_str(), token.as_bytes())
    }

    /// Retrieve a session authentication token; stored bytes that are not
    /// UTF-8 are reported as invalid data.
    pub fn retrieve_session_token(&self, session_id: &str) -> (r: Result<Option<String>, Error>)
        ensures
            ({
                let k = session_token_name(session_id@);
                &&& !self.storage.entries().contains_key(k) ==> (r matches Ok(None))
                &&& forall|v: Seq<u8>| #[trigger] self.storage.holds(k, v) ==> {
                    &&& valid_utf8(v) ==> (r matches Ok(Some(t)) && t@ == decode_utf8(v))
                    &&& !valid_utf8(v) ==> (r matches Err(Error::InvalidData(_)))
                }
                &&& self.storage.entries().contains_key(k) ==> (r matches Ok(Some(_)) || r matches Err(Error::InvalidData(_))
                    || r matches Err(Error::Crypto(_)))
            }),
    {
        let key = concat_str("session_token_", session_id);
        match self.storage.retrieve(key.as_str()) {
            Ok(Some(bytes)) => match string_from_utf8(bytes) {
                Ok(t) => Ok(Some(t)),
                Err(msg) => Err(Error::InvalidData(concat_str("Invalid session token format: ", msg.as_str()))),
            },
            Ok(None) => Ok(None),
            Err(e) => Err(e),
        }
    }

    /// Store the serialized credentials of a user.
    pub fn store_user_credentials(&mut self, user_id: &str, credentials: &[u8]) -> (r: Result<(), Error>)
        ensures
            stored_under(old(self).storage, final(self).storage, user_credentials_name(user_id@), credentials@, r is Ok),
            r matches Err(e) ==> e is Crypto,
    {
        let key = concat_str("user_credentials_", user_id);
        self.storage.store(key.as_str(), credentials)
    }

    /// Retrieve the serialized credentials of a user.
    pub fn retrieve_user_credentials(&self, user_id: &str) -> (r: Result<Option<Vec<u8>>, Error>)
        ensures
            read_from(self.storage, user_credentials_name(user_id@), r),
    {
        let key = concat_str("user_credentials_", user_id);
        self.storage.retrieve(key.as_str())
    }

    /// Store the serialized checkpoint of a game.
    pub fn store_game_checkpoint(&mut self, game_id: &str, checkpoint: &[u8]) -> (r: Result<(), Error>)
        ensures
            stored_under(old(self).storage, final(self).storage, game_checkpoint_name(game_id@), checkpoint@, r is Ok),
            r matches Err(e) ==> e is Crypto,
    {
        let key = concat_str("game_checkpoint_", game_id);
        self.storage.store(key.as_str(), checkpoint)
    }

    /// Retrieve the serialized checkpoint of a game.
    pub fn retrieve_game_checkpoint(&self, game_id: &str) -> (r: Result<Option<Vec<u8>>, Error>)
        ensures
            read_from(self.storage, game_checkpoint_name(game_id@), r),
    {
        let key = concat_str("game_checkpoint_", game_id);
        self.storage.retrieve(key.as_str())
    }

    /// Delete the private key and the credentials of a user.
    pub fn delete_user_data(&mut self, user_id: &str) -> (r: Result<(), Error>)
        ensures
            r is Ok,
            final(self).storage.same_platform(old(self).storage),
            final(self).storage.entries() == old(self).storage.entries().remove(private_key_name(user_id@)).remove(
                user_credentials_name(user_id@),
            ),
    {
        let ghost m0 = self.storage.entries();
        let k1 = concat_str("private_key_", user_id);
        let k2 = concat_str("user_credentials_", user_id);
        match self.storage.key_exists(k1.as_str()) {
            Ok(true) => {
                let _ = self.storage.delete(k1.as_str());
            },
            _ => {
                assert(m0.remove(k1@) =~= m0);
            },
        }
        let ghost m1 = self.storage.entries();
        match self.storage.key_exists(k2.as_str()) {
            Ok(true) => {
                let _ = self.storage.delete(k2.as_str());
            },
            _ => {
                assert(m1.remove(k2@) =~= m1);
            },
        }
        Ok(())
    }
}

/// Decodes UTF-8 bytes into a `String` (std's `String::from_utf8`), giving
/// the error's message for bytes that are not UTF-8.
#[verifier::external_body]
fn string_from_utf8(bytes: Vec<u8>) -> (r: Result<String, String>)
    ensures
        r is Ok <==> valid_utf8(bytes@),
        r matches Ok(s) ==> s@ == decode_utf8(bytes@),
{
    String::from_utf8(bytes).map_err(|e| e.to_string())
}

/// The entries of the different kinds never share a storage key, so an
/// operation on one kind leaves the others as they were.
pub proof fn lemma_storage_names_disjoint(a: Seq<char>, b: Seq<char>)
    ensures
        private_key_name(a) != session_token_name(b),
        private_key_name(a) != user_credentials_name(b),
        private_key_name(a) != game_checkpoint_name(b),
        session_token_name(a) != user_credentials_name(b),
        session_token_name(a) != game_checkpoint_name(b),
        user_credentials_name(a) != game_checkpoint_name(b),
{
    reveal_strlit("private_key_");
    reveal_strlit("session_token_");
    reveal_strlit("user_credentials_");
    reveal_strlit("game_checkpoint_");
    assert(private_key_name(a)[0] == 'p');
    assert(session_token_name(b)[0] == 's');
    assert(session_token_name(a)[0] == 's');
    assert(user_credentials_name(b)[0] == 'u');
    assert(game_checkpoint_name(b)[0] == 'g');
}

/// Different ids give different storage keys of the same kind.
pub proof fn lemma_storage_names_injective(a: Seq<char>, b: Seq<char>)
    requires
        a != b,
    ensures
        private_key_name(a) != private_key_name(b),
        session_token_name(a) != session_token_name(b),
        user_credentials_name(a) != user_credentials_name(b),
        game_checkpoint_name(a) != game_checkpoint_name(b),
{
    assert(private_key_name(a).subrange(12, private_key_name(a).len() as int) =~= a) by {
        reveal_strlit("private_key_");
    }
    assert(private_key_name(b).subrange(12, private_key_name(b).len() as int) =~= b) by {
        reveal_strlit("private_key_");
    }
    assert(session_token_name(a).subrange(14, session_token_name(a).len() as int) =~= a) by {
        reveal_strlit("session_token_");
    }
    assert(session_token_name(b).subrange(14, session_token_name(b).len() as int) =~= b) by {
        reveal_strlit("session_token_");
    }
    assert(user_credentials_name(a).subrange(17, user_credentials_name(a).len() as int) =~= a) by {
        reveal_strlit("user_credentials_");
    }
    assert(user_credentials_name(b).subrange(17, user_credentials_name(b).len() as int) =~= b) by {
        reveal_strlit("user_credentials_");
    }
    assert(game_checkpoint_name(a).subrange(16, game_checkpoint_name(a).len() as int) =~= a) by {
        reveal_strlit("game_checkpoint_");
    }
    assert(game_checkpoint_name(b).subrange(16, game_checkpoint_name(b).len() as int) =~= b) by {
        reveal_strlit("game_checkpoint_");
    }
}

/// A session token that was stored is read back as the same text.
pub proof fn lemma_session_token_roundtrip(m: Map<Seq<char>, Seq<u8>>, session_id: Seq<char>, token: Seq<char>)
    ensures
        ({
            let k = session_token_name(session_id);
            let m2 = m.insert(k, encode_utf8(token));
            m2.contains_key(k) && valid_utf8(m2[k]) && decode_utf8(m2[k]) == token
        }),
{
    vstd::utf8::encode_utf8_valid_utf8(token);
    vstd::utf8::encode_utf8_decode_utf8(token);
}

/// User credentials as kept in secure storage.
pub struct UserCredentials {
    pub user_id: String,
    pub encrypted_private_key: Vec<u8>,
    pub public_key: Vec<u8>,
    pub created_at: u64,
    pub last_used: u64,
}

/// Game checkpoint for secure state preservation.
pub struct GameCheckpoint {
    pub game_id: String,
    pub state_hash: Vec<u8>,
    pub player_balances: HashMap<String, u64>,
    pub bet_history: Vec<String>,
    pub checkpoint_time: u64,
}


// ============= Android secure storage =============

/// Info string under which the Android storage derives its cipher key.
pub open spec fn android_storage_info() -> Seq<u8> {
    encode_utf8("bitcraps-android-storage"@)
}

/// Largest plaintext length, in 64-byte blocks, that ChaCha20Poly1305 seals.
pub open spec fn sealable(plaintext: Seq<u8>) -> bool {
    plaintext.len() / 64 < 0xffff_ffff
}

/// The 32-byte cipher key that the Android storage derives from a
/// keystore key: its first 32 bytes, or HKDF-SHA256 of a shorter key.
pub open spec fn android_cipher_key(key: Seq<u8>) -> Seq<u8> {
    if key.len() >= 32 {
        key.subrange(0, 32)
    } else {
        hkdf_sha256_okm32(key, android_storage_info())
    }
}

/// Output keying material of 32 bytes that HKDF-SHA256, without salt,
/// expands from `ikm` and `info`.
pub uninterp spec fn hkdf_sha256_okm32(ikm: Seq<u8>, info: Seq<u8>) -> Seq<u8>;

/// Ciphertext with appended tag that ChaCha20Poly1305 gives for `plaintext`
/// under `key` and `nonce`, without associated data.
pub uninterp spec fn chacha20poly1305_seal(key: Seq<u8>, nonce: Seq<u8>, plaintext: Seq<u8>) -> Seq<u8>;

/// Plaintext that ChaCha20Poly1305 recovers from `ciphertext` under `key`
/// and `nonce`, or `None` where the tag does not verify.
pub uninterp spec fn chacha20poly1305_open(key: Seq<u8>, nonce: Seq<u8>, ciphertext: Seq<u8>) -> Option<Seq<u8>>;

/// `hkdf::Hkdf::<Sha256>::new(None, ikm)` then `expand(info, ..)` into 32
/// bytes. The crate fails `expand` only for outputs longer than 255 hash
/// blocks, so this call succeeds.
#[verifier::external_body]
fn hkdf_sha256_expand32(ikm: &[u8], info: &[u8]) -> (r: Result<Vec<u8>, ()>)
    ensures
        r is Ok,
        r matches Ok(k) ==> k@ == hkdf_sha256_okm32(ikm@, info@) && k@.len() == 32,
{
    let mut okm = [0u8; 32];
    match hkdf::Hkdf::<sha2::Sha256>::new(None, ikm).expand(info, &mut okm) {
        Ok(()) => Ok(okm.to_vec()),
        Err(_) => Err(()),
    }
}

/// `ChaCha20Poly1305::encrypt` with a 32-byte key and a 12-byte nonce: the
/// plaintext followed by the 16-byte tag, or the error's message. The crate
/// refuses exactly the plaintexts of `u32::MAX` blocks of 64 bytes or more.
#[verifier::external_body]
fn chacha20poly1305_encrypt(key: &[u8], nonce: &[u8], plaintext: &[u8]) -> (r: Result<Vec<u8>, String>)
    requires
        key@.len() == 32,
        nonce@.len() == 12,
    ensures
        r is Ok <==> sealable(plaintext@),
        r matches Ok(c) ==> c@ == chacha20poly1305_seal(key@, nonce@, plaintext@)
            && c@.len() == plaintext@.len() + 16,
{
    let cipher = chacha20poly1305::ChaCha20Poly1305::new(chacha20poly1305::Key::from_slice(key));
    cipher.encrypt(chacha20poly1305::Nonce::from_slice(nonce), plaintext).map_err(|e| e.to_string())
}

/// `ChaCha20Poly1305::decrypt` with a 32-byte key and a 12-byte nonce: the
/// plaintext, or the error's message where the tag does not verify. What
/// this cipher sealed under the same key and nonce opens to the plaintext.
#[verifier::external_body]
fn chacha20poly1305_decrypt(key: &[u8], nonce: &[u8], ciphertext: &[u8]) -> (r: Result<Vec<u8>, String>)
    requires
        key@.len() == 32,
        nonce@.len() == 12,
    ensures
        r is Ok <==> chacha20poly1305_open(key@, nonce@, ciphertext@) is Some,
        r matches Ok(p) ==> chacha20poly1305_open(key@, nonce@, ciphertext@) == Some(p@),
        forall|p: Seq<u8>|
            sealable(p) && ciphertext@ == chacha20poly1305_seal(key@, nonce@, p) ==> (r is Ok && r->Ok_0@ == p),
{
    let cipher = chacha20poly1305::ChaCha20Poly1305::new(chacha20poly1305::Key::from_slice(key));
    cipher.decrypt(chacha20poly1305::Nonce::from_slice(nonce), ciphertext).map_err(|e| e.to_string())
}

/// Twelve bytes from the operating system's random source (`OsRng`, which
/// panics if the source fails). Nothing is stated of their values.
#[verifier::external_body]
fn random_nonce() -> (n: Vec<u8>)
    ensures
        n@.len() == 12,
{
    let mut bytes = [0u8; 12];
    rand::RngCore::fill_bytes(&mut chacha20poly1305::aead::OsRng, &mut bytes);
    bytes.to_vec()
}

/// The keystore key off Android: a fixed development key.
pub open spec fn android_dev_key() -> Seq<u8> {
    encode_utf8("test_key_for_development_only"@)
}

/// `c` is `v` sealed by the Android storage: a 12-byte nonce followed by
/// `v` sealed under the cipher key of the keystore key and that nonce.
pub open spec fn sealed_value(c: Seq<u8>, v: Seq<u8>) -> bool {
    sealable(v) && exists|n: Seq<u8>| n.len() == 12 && c == n + chacha20poly1305_seal(
        android_cipher_key(android_dev_key()),
        n,
        v,
    )
}

/// What the Android storage keeps for a stored value is read back as that
/// value: the key is kept, with the value sealed under it.
pub proof fn lemma_android_store_read_back(m: Map<Seq<char>, Seq<u8>>, key: Seq<char>, c: Seq<u8>, v: Seq<u8>)
    requires
        sealed_value(c, v),
    ensures
        m.insert(key, c).contains_key(key),
        sealed_value(m.insert(key, c)[key], v),
{
}

/// Android-specific secure storage using the Android Keystore System: the
/// values are sealed with a key derived from the keystore key and kept in
/// the app's preferences (here an in-memory store).
pub struct AndroidSecureStorage {
    pub keystore_alias: String,
    pub preferences: MemorySecureStorage,
}

impl AndroidSecureStorage {
    /// The sealed values kept, by key.
    pub closed spec fn sealed(self) -> Map<Seq<char>, Seq<u8>> {
        self.preferences@
    }

    pub fn new() -> (r: Result<Self, Error>)
        ensures
            r matches Ok(s) && s.keystore_alias@ == "bitcraps_secure_storage"@ && s.sealed() == Map::<Seq<char>, Seq<u8>>::empty(),
    {
        Ok(AndroidSecureStorage { keystore_alias: "bitcraps_secure_storage".to_owned(), preferences: MemorySecureStorage::new() })
    }

    /// Android secure storage with biometric protection.
    pub fn new_with_biometric() -> (r: Result<Self, Error>)
        ensures
            r matches Ok(s) && s.keystore_alias@ == "bitcraps_biometric_storage"@ && s.sealed() == Map::<Seq<char>, Seq<u8>>::empty(),
    {
        Ok(AndroidSecureStorage { keystore_alias: "bitcraps_biometric_storage".to_owned(), preferences: MemorySecureStorage::new() })
    }

    /// The keystore key; off Android a fixed development key.
    fn get_android_keystore_key(&self) -> (r: Result<Vec<u8>, Error>)
        ensures
            r matches Ok(k) && k@ == encode_utf8("test_key_for_development_only"@),
    {
        Ok(slice_to_vec("test_key_for_development_only".as_bytes()))
    }

    /// The 32-byte cipher key derived from a keystore key.
    fn cipher_key(key: &[u8]) -> (r: Result<Vec<u8>, Error>)
        ensures
            r matches Ok(k) && k@ == android_cipher_key(key@) && k@.len() == 32,
    {
        if key.len() >= 32 {
            Ok(slice_to_vec(vstd::slice::slice_subrange(key, 0, 32)))
        } else {
            match hkdf_sha256_expand32(key, "bitcraps-android-storage".as_bytes()) {
                Ok(k) => Ok(k),
                Err(()) => Err(Error::Crypto("Key derivation failed".to_owned())),
            }
        }
    }

    /// Encrypts `value` under the key derived from `key`: a fresh random
    /// nonce followed by the sealed value.
    pub fn encrypt_value(&self, value: &[u8], key: &[u8]) -> (r: Result<Vec<u8>, Error>)
        ensures
            r is Ok <==> sealable(value@),
            r matches Ok(c) ==> exists|n: Seq<u8>|
                n.len() == 12 && c@ == n + chacha20poly1305_seal(android_cipher_key(key@), n, value@),
            r matches Err(e) ==> e is Crypto,
    {
        let actual_key = Self::cipher_key(key)?;
        let nonce = random_nonce();
        match chacha20poly1305_encrypt(actual_key.as_slice(), nonce.as_slice(), value) {
            Ok(ciphertext) => {
                let mut result = nonce.clone();
                let mut tail = ciphertext;
                result.append(&mut tail);
                assert(result@ == nonce@ + chacha20poly1305_seal(android_cipher_key(key@), nonce@, value@));
                Ok(result)
            },
            Err(msg) => Err(Error::Crypto(concat_str("Encryption failed: ", msg.as_str()))),
        }
    }

    /// Decrypts what `encrypt_value` produced: splits off the 12-byte nonce
    /// and opens the rest under the key derived from `key`.
    pub fn decrypt_value(&self, encrypted_value: &[u8], key: &[u8]) -> (r: Result<Vec<u8>, Error>)
        ensures
            encrypted_value@.len() < 12 ==> (r matches Err(Error::Crypto(m)) && m@
                == "Invalid encrypted data: too short"@),
            encrypted_value@.len() >= 12 ==> ({
                let opened = chacha20poly1305_open(
                    android_cipher_key(key@),
                    encrypted_value@.subrange(0, 12),
                    encrypted_value@.subrange(12, encrypted_value@.len() as int),
                );
                &&& (r is Ok <==> opened is Some)
                &&& (r matches Ok(p) ==> opened == Some(p@))
                &&& (r matches Err(e) ==> e is Crypto)
            }),
            forall|n: Seq<u8>, p: Seq<u8>|
                n.len() == 12 && sealable(p) && encrypted_value@ == n + chacha20poly1305_seal(
                    android_cipher_key(key@),
                    n,
                    p,
                ) ==> (r matches Ok(q) && q@ == p),
    {
        if encrypted_value.len() < 12 {
            return Err(Error::Crypto("Invalid encrypted data: too short".to_owned()));
        }
        let nonce = vstd::slice::slice_subrange(encrypted_value, 0, 12);
        let ciphertext = vstd::slice::slice_subrange(encrypted_value, 12, encrypted_value.len());
        let actual_key = Self::cipher_key(key)?;
        let r = chacha20poly1305_decrypt(actual_key.as_slice(), nonce, ciphertext);
        proof {
            assert forall|n: Seq<u8>, p: Seq<u8>|
                n.len() == 12 && sealable(p) && encrypted_value@ == n + chacha20poly1305_seal(
                    android_cipher_key(key@),
                    n,
                    p,
                ) implies (r matches Ok(q) && q@ == p) by {
                let sealed = chacha20poly1305_seal(android_cipher_key(key@), n, p);
                assert(nonce@ =~= n);
                assert(ciphertext@ =~= sealed);
            }
        }
        match r {
            Ok(plaintext) => Ok(plaintext),
            Err(msg) => Err(Error::Crypto(concat_str("Decryption failed: ", msg.as_str()))),
        }
    }

    /// Keeps `value` under `key` in the preferences.
    fn store_in_android_preferences(&mut self, key: &str, value: &[u8]) -> (r: Result<(), Error>)
        ensures
            r is Ok,
            final(self).sealed() == old(self).sealed().insert(key@, value@),
            final(self).keystore_alias == old(self).keystore_alias,
    {
        self.preferences.store(key, value)
    }

    /// The value kept under `key` in the preferences, if any.
    fn retrieve_from_android_preferences(&self, key: &str) -> (r: Result<Option<Vec<u8>>, Error>)
        ensures
            r matches Ok(v) && (v is Some <==> self.sealed().contains_key(key@)),
            r matches Ok(Some(v)) ==> v@ == self.sealed()[key@],
    {
        self.preferences.retrieve(key)
    }
}

impl SecureStorage for AndroidSecureStorage {
    fn store(&mut self, key: &str, value: &[u8]) -> (r: Result<(), Error>)
        ensures
            r is Ok <==> sealable(value@),
            r matches Err(e) ==> e is Crypto && final(self).sealed() == old(self).sealed(),
            r is Ok ==> final(self).sealed().contains_key(key@) && sealed_value(final(self).sealed()[key@], value@)
                && final(self).sealed() == old(self).sealed().insert(key@, final(self).sealed()[key@]),
            final(self).keystore_alias@ == old(self).keystore_alias@,
    {
        let encryption_key = self.get_android_keystore_key()?;
        let encrypted_value = self.encrypt_value(value, encryption_key.as_slice())?;
        assert(sealed_value(encrypted_value@, value@));
        self.store_in_android_preferences(key, encrypted_value.as_slice())
    }

    fn retrieve(&self, key: &str) -> (r: Result<Option<Vec<u8>>, Error>)
        ensures
            !self.sealed().contains_key(key@) ==> r matches Ok(None),
            self.sealed().contains_key(key@) ==> forall|v: Seq<u8>| #[trigger] sealed_value(self.sealed()[key@], v) ==> (r matches Ok(Some(w)) && w@ == v),
            self.sealed().contains_key(key@) ==> r matches Ok(Some(_)) || r matches Err(Error::Crypto(_)),
    {
        match self.retrieve_from_android_preferences(key)? {
            Some(encrypted_value) => {
                let encryption_key = self.get_android_keystore_key()?;
                let decrypted_value = self.decrypt_value(encrypted_value.as_slice(), encryption_key.as_slice())?;
                Ok(Some(decrypted_value))
            },
            None => Ok(None),
        }
    }

    fn delete(&mut self, key: &str) -> (r: Result<(), Error>)
        ensures
            r is Ok,
            final(self).sealed() == old(self).sealed().remove(key@),
            final(self).keystore_alias == old(self).keystore_alias,
    {
        self.preferences.delete(key)
    }

    fn key_exists(&self, key: &str) -> (r: Result<bool, Error>)
        ensures
            r matches Ok(b) && b == self.sealed().contains_key(key@),
    {
        self.preferences.key_exists(key)
    }

    fn list_keys(&self) -> (r: Result<Vec<String>, Error>)
        ensures
            r matches Ok(keys) && lists_keys(self.sealed(), keys@),
    {
        self.preferences.list_keys()
    }

    fn clear_all(&mut self) -> (r: Result<(), Error>)
        ensures
            r is Ok,
            final(self).sealed() == Map::<Seq<char>, Seq<u8>>::empty(),
            final(self).keystore_alias == old(self).keystore_alias,
    {
        self.preferences.clear_all()
    }
}

// ============= iOS secure storage =============

/// iOS-specific secure storage using iOS Keychain Services: the keychain
/// (here an in-memory store) keeps the values under the service name.
pub struct IOSSecureStorage {
    pub service_name: String,
    pub keychain: MemorySecureStorage,
}

impl IOSSecureStorage {
    /// The values kept, by key.
    pub closed spec fn items(self) -> Map<Seq<char>, Seq<u8>> {
        self.keychain@
    }

    pub fn new() -> (r: Result<Self, Error>)
        ensures
            r matches Ok(s) && s.service_name@ == "com.bitcraps.secure_storage"@ && s.items() == Map::<Seq<char>, Seq<u8>>::empty(),
    {
        Ok(IOSSecureStorage { service_name: "com.bitcraps.secure_storage".to_owned(), keychain: MemorySecureStorage::new() })
    }
}

impl SecureStorage for IOSSecureStorage {
    fn store(&mut self, key: &str, value: &[u8]) -> (r: Result<(), Error>)
        ensures
            r is Ok,
            final(self).items() == old(self).items().insert(key@, value@),
            final(self).service_name == old(self).service_name,
    {
        self.keychain.store(key, value)
    }

    fn retrieve(&self, key: &str) -> (r: Result<Option<Vec<u8>>, Error>)
        ensures
            r matches Ok(v) && (v is Some <==> self.items().contains_key(key@)),
            r matches Ok(Some(v)) ==> v@ == self.items()[key@],
    {
        self.keychain.retrieve(key)
    }

    fn delete(&mut self, key: &str) -> (r: Result<(), Error>)
        ensures
            r is Ok,
            final(self).items() == old(self).items().remove(key@),
            final(self).service_name == old(self).service_name,
    {
        self.keychain.delete(key)
    }

    fn key_exists(&self, key: &str) -> (r: Result<bool, Error>)
        ensures
            r matches Ok(b) && b == self.items().contains_key(key@),
    {
        self.keychain.key_exists(key)
    }

    fn list_keys(&self) -> (r: Result<Vec<String>, Error>)
        ensures
            r matches Ok(keys) && lists_keys(self.items(), keys@),
    {
        self.keychain.list_keys()
    }

    fn clear_all(&mut self) -> (r: Result<(), Error>)
        ensures
            r is Ok,
            final(self).items() == Map::<Seq<char>, Seq<u8>>::empty(),
            final(self).service_name == old(self).service_name,
    {
        self.keychain.clear_all()
    }
}

// ============= Platform storage =============

/// The storage of a platform: the Android or the iOS storage, or the
/// in-memory storage on other platforms.
pub enum PlatformStorage {
    Android(AndroidSecureStorage),
    Ios(IOSSecureStorage),
    Memory(MemorySecureStorage),
}

impl PlatformStorage {
    /// The entries as kept, by key: sealed on Android, as given elsewhere.
    pub open spec fn entries(self) -> Map<Seq<char>, Seq<u8>> {
        match self {
            PlatformStorage::Android(s) => s.sealed(),
            PlatformStorage::Ios(s) => s.items(),
            PlatformStorage::Memory(s) => s@,
        }
    }

    /// The entry under `k` reads back as `v`.
    pub open spec fn holds(self, k: Seq<char>, v: Seq<u8>) -> bool {
        &&& self.entries().contains_key(k)
        &&& match self {
            PlatformStorage::Android(s) => sealed_value(s.sealed()[k], v),
            _ => self.entries()[k] == v,
        }
    }

    /// Values the storage can keep: the Android storage refuses a value
    /// too long to seal.
    pub open spec fn storable(self, v: Seq<u8>) -> bool {
        match self {
            PlatformStorage::Android(_) => sealable(v),
            _ => true,
        }
    }

    /// Both are storages of the same platform.
    pub open spec fn same_platform(self, other: PlatformStorage) -> bool {
        &&& (self is Android <==> other is Android)
        &&& (self is Ios <==> other is Ios)
        &&& (self is Memory <==> other is Memory)
    }
}

impl SecureStorage for PlatformStorage {
    fn store(&mut self, key: &str, value: &[u8]) -> (r: Result<(), Error>)
        ensures
            r is Ok <==> old(self).storable(value@),
            final(self).same_platform(*old(self)),
            r matches Err(e) ==> e is Crypto && final(self).entries() == old(self).entries(),
            r is Ok ==> final(self).holds(key@, value@) && final(self).entries() == old(self).entries().insert(
                key@,
                final(self).entries()[key@],
            ),
    {
        match self {
            PlatformStorage::Android(s) => s.store(key, value),
            PlatformStorage::Ios(s) => s.store(key, value),
            PlatformStorage::Memory(s) => s.store(key, value),
        }
    }

    fn retrieve(&self, key: &str) -> (r: Result<Option<Vec<u8>>, Error>)
        ensures
            !self.entries().contains_key(key@) ==> r matches Ok(None),
            forall|v: Seq<u8>| #[trigger] self.holds(key@, v) ==> (r matches Ok(Some(w)) && w@ == v),
            self.entries().contains_key(key@) ==> r matches Ok(Some(_)) || r matches Err(Error::Crypto(_)),
            !(self is Android) && self.entries().contains_key(key@) ==> (r matches Ok(Some(w)) && w@ == self.entries()[key@]),
    {
        match self {
            PlatformStorage::Android(s) => s.retrieve(key),
            PlatformStorage::Ios(s) => s.retrieve(key),
            PlatformStorage::Memory(s) => s.retrieve(key),
        }
    }

    fn delete(&mut self, key: &str) -> (r: Result<(), Error>)
        ensures
            r is Ok,
            final(self).same_platform(*old(self)),
            final(self).entries() == old(self).entries().remove(key@),
    {
        match self {
            PlatformStorage::Android(s) => s.delete(key),
            PlatformStorage::Ios(s) => s.delete(key),
            PlatformStorage::Memory(s) => s.delete(key),
        }
    }

    fn key_exists(&self, key: &str) -> (r: Result<bool, Error>)
        ensures
            r matches Ok(b) && b == self.entries().contains_key(key@),
    {
        match self {
            PlatformStorage::Android(s) => s.key_exists(key),
            PlatformStorage::Ios(s) => s.key_exists(key),
            PlatformStorage::Memory(s) => s.key_exists(key),
        }
    }

    fn list_keys(&self) -> (r: Result<Vec<String>, Error>)
        ensures
            r matches Ok(keys) && lists_keys(self.entries(), keys@),
    {
        match self {
            PlatformStorage::Android(s) => s.list_keys(),
            PlatformStorage::Ios(s) => s.list_keys(),
            PlatformStorage::Memory(s) => s.list_keys(),
        }
    }

    fn clear_all(&mut self) -> (r: Result<(), Error>)
        ensures
            r is Ok,
            final(self).same_platform(*old(self)),
            final(self).entries() == Map::<Seq<char>, Seq<u8>>::empty(),
    {
        match self {
            PlatformStorage::Android(s) => s.clear_all(),
            PlatformStorage::Ios(s) => s.clear_all(),
            PlatformStorage::Memory(s) => s.clear_all(),
        }
    }
}

} // verus!
