//! A per-user store of push notification rules.
//!
//! A ruleset holds five ordered collections of rules, one per kind. The order
//! inside a collection is a priority order, and a rule is found by its
//! identifier inside the collection of its kind. The whole ruleset of a user is
//! kept as one JSON document; every operation of [`push`] reads such a
//! document and reads or changes one rule, and one that changes a rule hands
//! the new document back: the stored one with the rules replaced and with
//! everything beside the rules kept.
pub mod error;
pub mod kind;
pub mod laws;
pub mod model;
pub mod push;
pub mod rule;
pub mod ruleset;
pub mod store;
pub mod uiaa;
