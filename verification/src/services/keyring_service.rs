//! The keys of the secrets that are known to be stored, and their stored form.
//!
//! The secret store itself and the file that holds the key list are the
//! caller's: this service keeps the set of keys and reads and writes the
//! list as JSON text.

use crate::table::{lemma_take_one_more, Table};
use crate::types::config::texts;
use crate::types::errors::AppError;
use vstd::prelude::*;

verus! {

/// `serde_json::Error`. Opaque.
#[verifier::external_type_specification]
#[verifier::external_body]
pub struct ExJsonError(serde_json::Error);

/// The list of strings that `serde_json::from_str` reads from a text, or
/// `None` where it reports an error.
pub uninterp spec fn parsed_key_list(contents: Seq<char>) -> Option<Seq<Seq<char>>>;

/// The text that `serde_json::to_string_pretty` writes for a list of strings.
pub uninterp spec fn pretty_key_list(keys: Seq<Seq<char>>) -> Seq<char>;

/// Calls `serde_json::from_str` for a `Vec<String>`. What it returns is a
/// function of the text alone, named `parsed_key_list`.
#[verifier::external_body]
fn parse_key_list(contents: &str) -> (r: Result<Vec<String>, serde_json::Error>)
    ensures
        match r {
            Ok(keys) => parsed_key_list(contents@) == Some(texts(keys@)),
            Err(_) => parsed_key_list(contents@) is None,
        },
{
    serde_json::from_str::<Vec<String>>(contents)
}

/// Calls `serde_json::to_string_pretty` on a list of strings. It succeeds:
/// the encoder writes into a byte vector, which takes every write, and a
/// list of strings holds nothing that the encoder refuses. The text is a
/// function of the list alone, named `pretty_key_list`.
#[verifier::external_body]
fn print_key_list(keys: &Vec<String>) -> (r: Result<String, serde_json::Error>)
    ensures
        r is Ok,
        r->Ok_0@ == pretty_key_list(texts(keys@)),
{
    serde_json::to_string_pretty(keys)
}

/// The message of a `serde_json::Error`, as its `Display` writes it.
#[verifier::external_body]
fn json_error_text(error: &serde_json::Error) -> String {
    error.to_string()
}

/// A list without its repetitions: each text where it first occurs.
pub open spec fn first_occurrences(items: Seq<Seq<char>>) -> Seq<Seq<char>>
    decreases items.len(),
{
    if items.len() == 0 {
        Seq::empty()
    } else if first_occurrences(items.drop_last()).contains(items.last()) {
        first_occurrences(items.drop_last())
    } else {
        first_occurrences(items.drop_last()).push(items.last())
    }
}

/// The keys that a stored list stands for: those it lists, or none where
/// there is no list or it cannot be read.
pub open spec fn stored_key_set(stored: Option<Seq<char>>) -> Set<Seq<char>> {
    match stored {
        Some(contents) => match parsed_key_list(contents) {
            Some(list) => list.to_set(),
            None => Set::empty(),
        },
        None => Set::empty(),
    }
}

/// The known keys of one service of the secret store.
#[derive(Debug)]
pub struct KeyringService {
    service_name: String,
    known_keys: Table<()>,
}

impl KeyringService {
    /// The name of the service in the secret store.
    pub closed spec fn name(&self) -> Seq<char> {
        self.service_name@
    }

    /// The known keys, in the order in which they became known.
    pub closed spec fn key_list(&self) -> Seq<Seq<char>> {
        self.known_keys.names()
    }

    /// The known keys as a set.
    pub closed spec fn keys(&self) -> Set<Seq<char>> {
        self.known_keys@.dom()
    }

    /// A service that knows the given keys. A key given twice is known once.
    pub fn with_keys(service_name: &str, keys: Vec<String>) -> (service: Self)
        ensures
            service.name() == service_name@,
            service.keys() == texts(keys@).to_set(),
            service.key_list() == first_occurrences(texts(keys@)),
    {
        let mut known: Table<()> = Table::new();
        let ghost all = texts(keys@);
        let mut i: usize = 0;
        assert(all.take(0) =~= Seq::<Seq<char>>::empty());
        while i < keys.len()
            invariant
                i <= keys.len(),
                all == texts(keys@),
                all.len() == keys@.len(),
                known.names() == first_occurrences(all.take(i as int)),
                forall|k: Seq<char>| #[trigger]
                    known@.contains_key(k) <==> all.take(i as int).contains(k),
            decreases keys.len() - i,
        {
            proof {
                known.lemma_domain_is_names();
                assert(all.take(i as int + 1).drop_last() =~= all.take(i as int));
                assert(all.take(i as int + 1).last() == all[i as int]);
                assert forall|k: Seq<char>|
                    all.take(i as int + 1).contains(k) <==> (all.take(i as int).contains(k) || k
                        == all[i as int]) by {
                    lemma_take_one_more(all, i as int, k);
                }
                assert(all[i as int] == keys@[i as int]@);
            }
            known.insert(keys[i].clone(), ());
            i += 1;
        }
        let service = KeyringService { service_name: service_name.to_owned(), known_keys: known };
        proof {
            assert(all.take(keys@.len() as int) =~= all);
            assert(service.keys() =~= all.to_set());
        }
        service
    }

    /// A service with the keys of a stored list. Without a list, or with one
    /// that cannot be read, no key is known.
    pub fn new(service_name: &str, stored_keys: Option<&str>) -> (service: Self)
        ensures
            service.name() == service_name@,
            service.keys() == stored_key_set(
                match stored_keys {
                    Some(contents) => Some(contents@),
                    None => None,
                },
            ),
    {
        let keys = match stored_keys {
            Some(contents) => match parse_key_list(contents) {
                Ok(keys) => keys,
                Err(_) => Vec::new(),
            },
            None => Vec::new(),
        };
        proof {
            if keys@.len() == 0 {
                assert(texts(keys@).to_set() =~= Set::<Seq<char>>::empty());
            }
        }
        KeyringService::with_keys(service_name, keys)
    }

    /// The name of the service in the secret store.
    pub fn service_name(&self) -> (name: &String)
        ensures
            name@ == self.name(),
    {
        &self.service_name
    }

    /// Whether `key` is known.
    pub fn knows(&self, key: &str) -> (r: bool)
        ensures
            r == self.keys().contains(key@),
    {
        self.known_keys.contains_key(key)
    }

    /// The known keys, each once.
    pub fn list_keys(&self) -> (keys: Vec<String>)
        ensures
            texts(keys@) == self.key_list(),
            texts(keys@).no_duplicates(),
            texts(keys@).to_set() == self.keys(),
    {
        let n = self.known_keys.len();
        let mut keys: Vec<String> = Vec::new();
        let mut i: usize = 0;
        while i < n
            invariant
                i <= n,
                n == self.known_keys.names().len(),
                keys@.len() == i,
                forall|j: int| 0 <= j < i ==> keys@[j]@ == self.known_keys.names()[j],
            decreases n - i,
        {
            keys.push(self.known_keys.name_at(i).clone());
            i += 1;
        }
        assert(texts(keys@) =~= self.key_list());
        keys
    }

    /// Makes `key` unknown.
    pub fn forget(&mut self, key: &str)
        ensures
            final(self).name() == old(self).name(),
            final(self).keys() == old(self).keys().remove(key@),
            final(self).key_list() == if old(self).keys().contains(key@) {
                old(self).key_list().remove(old(self).key_list().index_of(key@))
            } else {
                old(self).key_list()
            },
    {
        self.known_keys.remove(key);
        assert(self.keys() =~= old(self).keys().remove(key@));
    }

    /// The key list as the JSON text to store. The encoding of a list of
    /// strings succeeds; were the encoder to fail, the failure would be
    /// reported as `Io` with the encoder's message.
    pub fn keys_json(&self) -> (r: Result<String, AppError>)
        ensures
            r is Ok,
            r->Ok_0@ == pretty_key_list(self.key_list()),
    {
        let keys = self.list_keys();
        match print_key_list(&keys) {
            Ok(text) => Ok(text),
            Err(e) => Err(AppError::Io(json_error_text(&e))),
        }
    }

    /// Makes `key` known and returns the key list to store.
    pub fn remember_key(&mut self, key: &str) -> (r: Result<String, AppError>)
        ensures
            final(self).name() == old(self).name(),
            final(self).keys() == old(self).keys().insert(key@),
            final(self).key_list() == if old(self).keys().contains(key@) {
                old(self).key_list()
            } else {
                old(self).key_list().push(key@)
            },
            r is Ok,
            r->Ok_0@ == pretty_key_list(final(self).key_list()),
    {
        self.known_keys.insert(key.to_owned(), ());
        assert(self.keys() =~= old(self).keys().insert(key@));
        self.keys_json()
    }

    /// Makes `key` unknown and returns the key list to store.
    pub fn remove_key(&mut self, key: &str) -> (r: Result<String, AppError>)
        ensures
            final(self).name() == old(self).name(),
            final(self).keys() == old(self).keys().remove(key@),
            final(self).key_list() == if old(self).keys().contains(key@) {
                old(self).key_list().remove(old(self).key_list().index_of(key@))
            } else {
                old(self).key_list()
            },
            r is Ok,
            r->Ok_0@ == pretty_key_list(final(self).key_list()),
    {
        self.forget(key);
        self.keys_json()
    }
}

} // verus!
