//! A map with a fixed set of keys, chosen when it is built, and one value per key.
//!
//! Lookups scan the keys in order and stop at the first one that matches the
//! query, so duplicate keys are allowed and only the first of them is reachable.
pub mod const_map;
pub mod key_match;
pub mod laws;

pub use const_map::ConstMap;
pub use key_match::KeyMatch;
