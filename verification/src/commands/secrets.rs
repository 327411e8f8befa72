//! Listing the stored secrets.

use crate::services::keyring_service::KeyringService;
use crate::types::config::texts;
use vstd::prelude::*;

verus! {

/// A secret with its key.
#[derive(Debug, PartialEq, Eq)]
pub struct SecretEntry {
    pub key: String,
    pub value: String,
}

impl View for SecretEntry {
    type V = (Seq<char>, Seq<char>);

    open spec fn view(&self) -> (Seq<char>, Seq<char>) {
        (self.key@, self.value@)
    }
}

impl Clone for SecretEntry {
    fn clone(&self) -> (r: Self)
        ensures
            r@ == self@,
    {
        SecretEntry { key: self.key.clone(), value: self.value.clone() }
    }
}

/// What reading each known key from the secret store gave: the key, and its
/// value where the store had one.
pub open spec fn lookup_views(lookups: Seq<(String, Option<String>)>) -> Seq<
    (Seq<char>, Option<Seq<char>>),
> {
    lookups.map_values(
        |l: (String, Option<String>)|
            (
                l.0@,
                match l.1 {
                    Some(v) => Some(v@),
                    None => None,
                },
            ),
    )
}

/// The entries of a list of secrets as pairs of key and value.
pub open spec fn entry_views(entries: Seq<SecretEntry>) -> Seq<(Seq<char>, Seq<char>)> {
    entries.map_values(|e: SecretEntry| e@)
}

/// The lookups that gave a value, in order, each with its value.
pub open spec fn readable(lookups: Seq<(Seq<char>, Option<Seq<char>>)>) -> Seq<
    (Seq<char>, Seq<char>),
>
    decreases lookups.len(),
{
    if lookups.len() == 0 {
        Seq::empty()
    } else {
        match lookups.last().1 {
            Some(value) => readable(lookups.drop_last()).push((lookups.last().0, value)),
            None => readable(lookups.drop_last()),
        }
    }
}

/// The keys whose lookup gave no value, in order.
pub open spec fn unreadable(lookups: Seq<(Seq<char>, Option<Seq<char>>)>) -> Seq<Seq<char>>
    decreases lookups.len(),
{
    if lookups.len() == 0 {
        Seq::empty()
    } else {
        match lookups.last().1 {
            Some(_) => unreadable(lookups.drop_last()),
            None => unreadable(lookups.drop_last()).push(lookups.last().0),
        }
    }
}

/// The secrets that could be read, and the keys that could not.
#[derive(Debug)]
pub struct SecretListing {
    pub secrets: Vec<SecretEntry>,
    pub stale: Vec<String>,
}

/// Sorts the lookups of the known keys: a key with a value becomes an entry
/// of the listing; a key without one is stale and is no longer known to the
/// service afterwards.
pub fn get_secrets(service: &mut KeyringService, lookups: &Vec<(String, Option<String>)>) -> (listing:
    SecretListing)
    ensures
        entry_views(listing.secrets@) == readable(lookup_views(lookups@)),
        texts(listing.stale@) == unreadable(lookup_views(lookups@)),
        final(service).name() == old(service).name(),
        final(service).keys() == old(service).keys().difference(
            unreadable(lookup_views(lookups@)).to_set(),
        ),
{
    let mut secrets: Vec<SecretEntry> = Vec::new();
    let mut stale: Vec<String> = Vec::new();
    let ghost all = lookup_views(lookups@);
    let mut i: usize = 0;
    proof {
        assert(all.take(0) =~= Seq::empty());
        assert(entry_views(secrets@) =~= readable(all.take(0)));
        assert(texts(stale@) =~= unreadable(all.take(0)));
        assert(service.keys() =~= old(service).keys().difference(
            unreadable(all.take(0)).to_set(),
        ));
    }
    while i < lookups.len()
        invariant
            i <= lookups.len(),
            all == lookup_views(lookups@),
            all.len() == lookups@.len(),
            entry_views(secrets@) == readable(all.take(i as int)),
            texts(stale@) == unreadable(all.take(i as int)),
            service.name() == old(service).name(),
            service.keys() == old(service).keys().difference(
                unreadable(all.take(i as int)).to_set(),
            ),
        decreases lookups.len() - i,
    {
        proof {
            assert(all.take(i as int + 1).drop_last() =~= all.take(i as int));
            assert(all.take(i as int + 1).last() == all[i as int]);
        }
        let ghost before_keys = service.keys();
        match &lookups[i].1 {
            Some(value) => {
                secrets.push(SecretEntry { key: lookups[i].0.clone(), value: value.clone() });
                proof {
                    assert(entry_views(secrets@) =~= readable(all.take(i as int)).push(
                        (all[i as int].0, value@),
                    ));
                }
            },
            None => {
                stale.push(lookups[i].0.clone());
                service.forget(lookups[i].0.as_str());
                proof {
                    let gone = unreadable(all.take(i as int));
                    let key = all[i as int].0;
                    assert(texts(stale@) =~= gone.push(key));
                    assert forall|k: Seq<char>| gone.push(key).to_set().contains(k) <==> (
                    gone.to_set().contains(k) || k == key) by {
                        if gone.to_set().contains(k) {
                            let j = gone.index_of(k);
                            assert(gone.contains(k));
                            assert(0 <= j < gone.len() && gone[j] == k);
                            assert(gone.push(key)[j] == k);
                        }
                        if k == key {
                            assert(gone.push(key)[gone.len() as int] == k);
                        }
                        if gone.push(key).to_set().contains(k) {
                            assert(gone.push(key).contains(k));
                            let j = gone.push(key).index_of(k);
                            assert(0 <= j < gone.len() + 1 && gone.push(key)[j] == k);
                            if j < gone.len() {
                                assert(gone[j] == k);
                            }
                        }
                    }
                    assert(service.keys() =~= old(service).keys().difference(
                        gone.push(key).to_set(),
                    ));
                }
            },
        }
        i += 1;
    }
    proof {
        assert(all.take(lookups@.len() as int) =~= all);
    }
    SecretListing { secrets, stale }
}

} // verus!
