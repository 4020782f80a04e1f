//! The events of the transport layer.

use vstd::prelude::*;

use crate::types::PublicKey;

verus! {

/// Event which you should probably take some action in response to.
#[derive(Clone, Debug, PartialEq, Eq)]
pub enum Event {
    /// A peer told which protocols it supports.
    ListProtocols {
        /// The node id of the peer.
        counterparty_node_id: PublicKey,
        /// The numbers of the protocols.
        protocols: Vec<u16>,
    },
}

/// What a peer answered to a request.
#[derive(Clone, Debug, PartialEq, Eq)]
pub struct Answer {
    /// The id of the request.
    pub id: crate::lsps0::msgs::RequestId,
    /// What was answered.
    pub result: Event,
}

} // verus!
