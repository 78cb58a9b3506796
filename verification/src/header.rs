//! The metadata that every successful response carries.

use vstd::prelude::*;

verus! {

/// Where in the cluster and in its history a response was produced.
#[derive(Clone, Copy, Debug, PartialEq, Eq, Structural)]
pub struct ResponseHeader {
    pub cluster_id: u64,
    pub member_id: u64,
    pub revision: i64,
    pub raft_term: u64,
}

impl ResponseHeader {
    pub fn new(cluster_id: u64, member_id: u64, revision: i64, raft_term: u64) -> (h: ResponseHeader)
        ensures
            h == (ResponseHeader { cluster_id, member_id, revision, raft_term }),
    {
        ResponseHeader { cluster_id, member_id, revision, raft_term }
    }
}

} // verus!
