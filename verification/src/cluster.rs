//! Cluster membership data.

use vstd::prelude::*;

verus! {

/// One member of the cluster.
#[derive(Clone, Debug)]
pub struct Member {
    pub id: u64,
    pub name: String,
    pub peer_urls: Vec<String>,
    pub client_urls: Vec<String>,
    pub is_learner: bool,
}

impl Member {
    /// The member read off the wire fields.
    pub fn from_parts(
        id: u64,
        name: String,
        peer_urls: Vec<String>,
        client_urls: Vec<String>,
        is_learner: bool,
    ) -> (m: Member)
        ensures
            m.id == id,
            m.name == name,
            m.peer_urls == peer_urls,
            m.client_urls == client_urls,
            m.is_learner == is_learner,
    {
        Member { id, name, peer_urls, client_urls, is_learner }
    }
}

} // verus!
