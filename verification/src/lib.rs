//! Roll-call votes of the two chambers of Congress, normalized and aggregated.
//!
//! The chambers publish each roll call as a loosely typed JSON document.
//! This library decodes the documents (`responses`, `house`, `senate`),
//! extracts one vote for each legislator (`json_master`), derives stable
//! identifiers by hashing (`sqllite`), files the votes in a tree by chamber,
//! congress, session and roll call (`json_master`, `aggregation`), and shapes
//! what is written out: the tree as one JSON document (`sink`) and the rows
//! of a database (`sql_house`, `sql_senate`, `sqllite`). `endpoints` gives the
//! addresses under which the chambers publish, `paths` reads what the place
//! of a stored file says, and `json`, `fields` and `text` are what the rest
//! is built on.
//!
//! Every function is verified against its contract, but for the few that
//! call into `serde_json`, `sha2` and the standard library; those say in
//! their documentation what is taken on trust. Contracts speak of the
//! mathematical model of a value, its `deep_view`: texts as sequences of
//! characters, lists as sequences, maps as maps.
use vstd::prelude::*;

pub mod aggregation;
pub mod endpoints;
pub mod fields;
pub mod house;
pub mod json;
pub mod json_master;
pub mod paths;
pub mod responses;
pub mod senate;
pub mod senate_text;
pub mod sink;
pub mod sql_house;
pub mod sql_senate;
pub mod sqllite;
pub mod text;

verus! {

/// Number of the congress in session when this library was last revised.
pub const CURRENT_CONGRESS: u32 = 118;

/// Session of the current congress.
pub const CURRENT_SESSION: u32 = 2;

/// Earliest congress whose roll calls are published in machine-readable form.
pub const OLDEST_CONGRESS: u32 = 101;

/// Latest roll call known for the current session.
pub const CURRENT_ROLL: u32 = 255;

} // verus!
