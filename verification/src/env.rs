//! Read-only lookup into the platform's configuration store.
//!
//! The store is modelled as the snapshot of key/value pairs the platform
//! holds for the current invocation; the platform itself owns the live
//! store, and the surrounding runtime glue seeds a value of this type from
//! it. Lookup never mutates, and a platform-side retrieval failure is
//! deliberately collapsed into absence: callers cannot distinguish
//! "missing" from "unreadable".

use vstd::prelude::*;
use crate::text::str_eq;

verus! {

/// The value stored under `key`: the value of the first pair whose name
/// equals `key`, or `None` when no pair matches.
pub open spec fn env_lookup(vars: Seq<(String, String)>, key: Seq<char>) -> Option<Seq<char>>
    decreases vars.len(),
{
    if vars.len() == 0 {
        None
    } else if vars[0].0@ == key {
        Some(vars[0].1@)
    } else {
        env_lookup(vars.drop_first(), key)
    }
}

/// Read-only snapshot of the platform's configuration store.
pub struct EnvCloudflare {
    pub vars: Vec<(String, String)>,
}

impl EnvCloudflare {
    /// Wraps a snapshot of the platform's store.
    pub fn init(vars: Vec<(String, String)>) -> (s: Self)
        ensures
            s.vars == vars,
    {
        EnvCloudflare { vars }
    }

    /// Looks `key` up in the store: the stored string when present,
    /// `None` otherwise.
    pub fn get(&self, key: &str) -> (r: Option<String>)
        ensures
            match r {
                Some(v) => env_lookup(self.vars@, key@) == Some(v@),
                None => env_lookup(self.vars@, key@) is None,
            },
    {
        let n = self.vars.len();
        let mut i: usize = 0;
        proof {
            assert(self.vars@.skip(0) =~= self.vars@);
        }
        while i < n
            invariant
                n == self.vars@.len(),
                0 <= i <= n,
                env_lookup(self.vars@, key@) == env_lookup(
                    self.vars@.skip(i as int),
                    key@,
                ),
            decreases n - i,
        {
            let ghost rest = self.vars@.skip(i as int);
            assert(rest[0] == self.vars@[i as int]);
            if str_eq(self.vars[i].0.as_str(), key) {
                let v = self.vars[i].1.clone();
                assert(env_lookup(rest, key@) == Some(v@));
                return Some(v);
            }
            proof {
                assert(rest.drop_first() =~= self.vars@.skip(i as int + 1));
            }
            i = i + 1;
        }
        proof {
            assert(self.vars@.skip(n as int).len() == 0);
        }
        None
    }
}

} // verus!
