//! In-memory state store: the fallback backend for local runs when the
//! sidecar is unavailable.

use vstd::prelude::*;
use vstd::hash_map::StringHashMap;
use crate::server::BackendError;
use crate::server::StateClient;

verus! {

/// In-memory state backend: a plain key-to-bytes map. The store name is
/// accepted but does not partition data; all entries live in one global
/// namespace, matching this backend's local-development role. Nothing is
/// persisted across process restarts.
///
/// Its operations always succeed (`reliable()` holds), so callers are
/// owed an `Ok` from every call.
pub struct MemStore {
    data: StringHashMap<Vec<u8>>,
}

impl MemStore {
    /// Creates an empty store.
    pub fn new() -> (s: Self)
        ensures
            s.model() == Map::<Seq<char>, Seq<u8>>::empty(),
            s.reliable(),
    {
        let s = MemStore { data: StringHashMap::new() };
        proof {
            assert(s.model() =~= Map::<Seq<char>, Seq<u8>>::empty());
        }
        s
    }
}

impl StateClient for MemStore {
    closed spec fn model(&self) -> Map<Seq<char>, Seq<u8>> {
        self.data@.map_values(|v: Vec<u8>| v@)
    }

    open spec fn reliable(&self) -> bool {
        true
    }

    fn get_state(&self, store: &str, key: &str) -> (r: Result<Option<Vec<u8>>, BackendError>) {
        match self.data.get(key) {
            Some(v) => {
                let c = v.clone();
                proof {
                    assert(c@ =~= v@);
                }
                Ok(Some(c))
            },
            None => Ok(None),
        }
    }

    fn save_state(&mut self, store: &str, key: &str, value: Vec<u8>) -> (r: Result<
        (),
        BackendError,
    >) {
        let ghost val = value@;
        self.data.insert(key.to_owned(), value);
        proof {
            assert(self.model() =~= old(self).model().insert(key@, val));
        }
        Ok(())
    }

    fn delete_state(&mut self, store: &str, key: &str) -> (r: Result<(), BackendError>) {
        self.data.remove(key);
        proof {
            assert(self.model() =~= old(self).model().remove(key@));
        }
        Ok(())
    }
}

} // verus!
