//! The environment that the stored secrets give to a server.

use crate::commands::secrets::lookup_views;
use crate::table::Table;
use crate::types::config::env_map;
use vstd::prelude::*;

verus! {

/// The variables that a list of lookups defines: each key that has a value,
/// with that value; where a key occurs twice, the later lookup counts.
pub open spec fn secret_env(lookups: Seq<(Seq<char>, Option<Seq<char>>)>) -> Map<
    Seq<char>,
    Seq<char>,
>
    decreases lookups.len(),
{
    if lookups.len() == 0 {
        Map::empty()
    } else {
        match lookups.last().1 {
            Some(value) => secret_env(lookups.drop_last()).insert(lookups.last().0, value),
            None => secret_env(lookups.drop_last()),
        }
    }
}

/// The overrides for a start: every secret that could be read, under its
/// key. The secrets are not chosen by server: all of them go to each.
pub fn env_overrides(lookups: &Vec<(String, Option<String>)>) -> (env: Table<String>)
    ensures
        env_map(env@) == secret_env(lookup_views(lookups@)),
{
    let mut env: Table<String> = Table::new();
    let ghost all = lookup_views(lookups@);
    let mut i: usize = 0;
    proof {
        assert(all.take(0) =~= Seq::empty());
        assert(env_map(env@) =~= secret_env(all.take(0)));
    }
    while i < lookups.len()
        invariant
            i <= lookups.len(),
            all == lookup_views(lookups@),
            all.len() == lookups@.len(),
            env_map(env@) == secret_env(all.take(i as int)),
        decreases lookups.len() - i,
    {
        proof {
            assert(all.take(i as int + 1).drop_last() =~= all.take(i as int));
            assert(all.take(i as int + 1).last() == all[i as int]);
        }
        match &lookups[i].1 {
            Some(value) => {
                let ghost before = env@;
                env.insert(lookups[i].0.clone(), value.clone());
                proof {
                    assert(env_map(env@) =~= env_map(before).insert(all[i as int].0, value@));
                }
            },
            None => {},
        }
        i += 1;
    }
    proof {
        assert(all.take(lookups@.len() as int) =~= all);
    }
    env
}

} // verus!
