//! Geography-aware target resolution: ordered routing rules, matched
//! first-to-last against the country that a geographic dataset gives for a
//! client address.

pub mod matching;
pub mod provider;
pub mod engine;
pub mod state;
pub mod resolve;
pub mod access;

pub use engine::GeoRuleEngine;
pub use matching::GeoRule;
pub use provider::GeoDB;
