use vstd::prelude::*;

pub mod batch;
pub mod model;
pub mod probe;
pub mod reconcile;

verus! {

/// How to reach the remote system: host and access token, supplied by the
/// configuration source before the engine starts.
#[derive(Debug)]
pub struct Gitlab {
    pub host: String,
    pub token: String,
}

/// A whole run's configuration: the connection and the ordered collection of
/// raw resource records to reconcile.
#[derive(Debug)]
pub struct Config {
    pub gitlab: Gitlab,
    pub projects: Vec<crate::model::RawProject>,
}

} // verus!
