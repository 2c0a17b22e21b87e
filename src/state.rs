use vstd::prelude::*;

use crate::engine::GeoRuleEngine;
use crate::matching::GeoRule;
use crate::provider::{accepts_dataset, GeoDB, LoadError};

verus! {

/// The process-wide holder of the geographic dataset, if one was loaded at
/// startup. It is never changed afterwards, so concurrent readers share it
/// without a lock: each takes a reference-counted handle.
pub struct ResolutionState {
    provider: Option<GeoDB>,
}

impl ResolutionState {
    /// The bytes of the held dataset, if there is one.
    pub closed spec fn dataset(&self) -> Option<Seq<u8>> {
        match self.provider {
            Some(db) => Some(db.dataset()),
            None => None,
        }
    }

    /// Holds `provider` for the life of the process.
    pub fn new(provider: Option<GeoDB>) -> (r: ResolutionState)
        ensures
            r.dataset() == match provider {
                Some(d) => Some(d.dataset()),
                None => None::<Seq<u8>>,
            },
    {
        ResolutionState { provider }
    }

    /// The startup step: no blob, or one that does not open, leaves the
    /// process without geographic matching (the load error is handed back
    /// for reporting); a blob that opens is held.
    pub fn from_blob(blob: Option<Vec<u8>>) -> (r: (ResolutionState, Option<LoadError>))
        ensures
            match blob {
                None => r.0.dataset() is None && r.1 is None,
                Some(b) => if accepts_dataset(b@) {
                    r.0.dataset() == Some(b@) && r.1 is None
                } else {
                    r.0.dataset() is None && r.1 is Some
                },
            },
    {
        match blob {
            None => (ResolutionState { provider: None }, None),
            Some(b) => match GeoDB::open_from_bytes(b) {
                Ok(db) => (ResolutionState { provider: Some(db) }, None),
                Err(e) => (ResolutionState { provider: None }, Some(e)),
            },
        }
    }

    /// A shared handle on the held dataset; the data is not copied.
    pub fn current(&self) -> (r: Option<GeoDB>)
        ensures
            match r {
                Some(d) => self.dataset() == Some(d.dataset()),
                None => self.dataset() is None,
            },
    {
        match &self.provider {
            Some(db) => Some(db.clone()),
            None => None,
        }
    }

    /// An engine over the held dataset with the given rules, in their order.
    pub fn engine(&self, rules: Vec<GeoRule>) -> (r: GeoRuleEngine)
        ensures
            r.rule_list() == rules@,
            r.dataset() == self.dataset(),
    {
        let mut engine = GeoRuleEngine::new(self.current());
        engine.set_rules(rules);
        engine
    }
}

} // verus!
