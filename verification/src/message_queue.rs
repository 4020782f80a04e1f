//! Holds types and traits used to implement message queues for LSPS messages.

use std::collections::VecDeque;

use vstd::prelude::*;

use crate::types::PublicKey;

verus! {

/// A queue that holds messages on their way to the peers.
pub trait MessageQueue<M> {
    /// The messages that were enqueued and not taken yet, in order.
    spec fn pending(&self) -> Seq<(PublicKey, M)>;

    /// Enqueues an LSPS message to be sent to the counterparty with the given node id.
    ///
    /// Implementations need to take care of message delivery to the counterparty via the
    /// LSPS0/BOLT8 transport protocol.
    fn enqueue(&mut self, counterparty_node_id: &PublicKey, msg: M)
        ensures
            final(self).pending() == old(self).pending().push((*counterparty_node_id, msg)),
    ;
}

/// The default [`MessageQueue`] implementation, which keeps messages until they are taken.
pub struct DefaultMessageQueue<M> {
    queue: VecDeque<(PublicKey, M)>,
}

impl<M> DefaultMessageQueue<M> {
    /// Creates an empty queue.
    pub fn new() -> (queue: Self)
        ensures
            queue.pending() == Seq::<(PublicKey, M)>::empty(),
    {
        DefaultMessageQueue { queue: VecDeque::new() }
    }

    /// Takes all messages, in order.
    pub fn get_and_clear_pending_msgs(&mut self) -> (messages: Vec<(PublicKey, M)>)
        ensures
            messages@ == old(self).pending(),
            final(self).pending() == Seq::<(PublicKey, M)>::empty(),
    {
        let mut messages: Vec<(PublicKey, M)> = Vec::new();
        while self.queue.len() > 0
            invariant
                messages@ + self.pending() == old(self).pending(),
            decreases self.pending().len(),
        {
            let ghost before = self.pending();
            if let Some(message) = self.queue.pop_front() {
                messages.push(message);
                assert(before =~= seq![message] + self.pending());
                assert(messages@ + self.pending() =~= old(self).pending());
            }
        }
        assert(self.pending() =~= Seq::<(PublicKey, M)>::empty());
        assert(messages@ + self.pending() =~= messages@);
        messages
    }
}

impl<M> MessageQueue<M> for DefaultMessageQueue<M> {
    closed spec fn pending(&self) -> Seq<(PublicKey, M)> {
        self.queue@
    }

    fn enqueue(&mut self, counterparty_node_id: &PublicKey, msg: M) {
        self.queue.push_back((*counterparty_node_id, msg));
    }
}

impl<M> MessageQueue<M> for Vec<(PublicKey, M)> {
    open spec fn pending(&self) -> Seq<(PublicKey, M)> {
        self@
    }

    fn enqueue(&mut self, counterparty_node_id: &PublicKey, msg: M) {
        self.push((*counterparty_node_id, msg));
    }
}

} // verus!
