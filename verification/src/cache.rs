//! The single-slot snapshot cache, as the pipeline sees it: the one
//! most recent successfully fetched payload, replaced wholesale on
//! every successful fetch and read back only on a fetch failure. The
//! persistent storage behind the slot stays with the caller.

use vstd::prelude::*;

verus! {

/// The cache's single slot.
pub struct SnapshotCache {
    pub slot: Option<String>,
}

/// What a load yields: the stored payload, unless the slot is empty
/// or holds an empty payload — an empty snapshot is treated as
/// missing.
pub open spec fn load_spec(c: SnapshotCache) -> Option<String> {
    match c.slot {
        Some(s) => if s@.len() > 0 {
            Some(s)
        } else {
            None
        },
        None => None,
    }
}

impl SnapshotCache {
    /// An empty cache, before any fetch has succeeded.
    pub fn new() -> (r: SnapshotCache)
        ensures
            r.slot is None,
    {
        SnapshotCache { slot: None }
    }

    /// Replaces the slot wholesale with a freshly fetched payload;
    /// nothing of any prior snapshot survives.
    pub fn save(&mut self, raw: String)
        ensures
            final(self).slot == Some(raw),
    {
        self.slot = Some(raw);
    }

    /// Retrieves the stored payload, or nothing when no usable
    /// snapshot exists.
    pub fn load(&self) -> (r: Option<String>)
        ensures
            r == load_spec(*self),
    {
        match &self.slot {
            Some(s) => {
                if s.as_str().unicode_len() > 0 {
                    Some(s.clone())
                } else {
                    None
                }
            },
            None => None,
        }
    }
}

/// Law: saving a payload and immediately loading yields that payload
/// back byte-identical. (An empty payload is the one exception: the
/// cache treats it as missing.)
pub proof fn lemma_cache_round_trip(saved: SnapshotCache, raw: String)
    requires
        raw@.len() > 0,
        saved.slot == Some(raw),
    ensures
        load_spec(saved) == Some(raw),
{
}

} // verus!
