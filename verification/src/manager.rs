//! Contains [`LiquidityManager`], the main interface into LSP functionality.

use vstd::prelude::*;

use crate::collections::KeyedMap;
use crate::errors::{info, info_error, ErrorAction, ErrorKind, Level, LightningError, Protocol};
use crate::events::{Event, EventQueue};
use crate::lsps0::envelope::{Dialect, EnvelopeView};
use crate::lsps0::message_handler::{lsps0_takes_in, Pending, ProtocolMessageHandler};
use crate::lsps0::msgs::{
    frame_of, DecodeError, Frame, FrameView, LSPS0Message, LSPSMessage,
};
use crate::lsps0::protocol::LSPS0MessageHandler;
use crate::lsps1::msgs::LSPS1Message;
use crate::lsps2::msgs::LSPS2Message;
use crate::types::PublicKey;

verus! {

/// The feature bit by which nodes announce that they provide liquidity.
pub const LSPS_FEATURE_BIT: usize = 729;

/// A Bitcoin network.
#[derive(Clone, Copy, Debug, PartialEq, Eq)]
pub enum Network {
    Bitcoin,
    Testnet,
    Signet,
    Regtest,
}

/// The bytes of the hash of the first block of a network.
pub uninterp spec fn genesis_block_hash(network: Network) -> Seq<u8>;

/// Calls `bitcoin::blockdata::constants::genesis_block` and returns the hash of the block's header.
///
/// Every network has one first block, so that the bytes are a function of the network alone.
#[verifier::external_body]
fn genesis_hash(network: Network) -> (hash: [u8; 32])
    ensures
        hash@ == genesis_block_hash(network),
{
    let network = match network {
        Network::Bitcoin => bitcoin::Network::Bitcoin,
        Network::Testnet => bitcoin::Network::Testnet,
        Network::Signet => bitcoin::Network::Signet,
        Network::Regtest => bitcoin::Network::Regtest,
    };
    let block = bitcoin::blockdata::constants::genesis_block(network);
    bitcoin::hashes::Hash::to_byte_array(block.header.block_hash())
}

/// The last block of the chain that is known.
#[derive(Clone, Copy, Debug, PartialEq, Eq)]
pub struct BestBlock {
    pub block_hash: [u8; 32],
    pub height: u32,
}

/// The chain that the node follows.
#[derive(Clone, Copy, Debug, PartialEq, Eq)]
pub struct ChainParameters {
    pub network: Network,
    pub best_block: BestBlock,
}

/// A configuration for [`LiquidityManager`].
///
/// Allows end-user to configure options when using the [`LiquidityManager`]
/// to provide liquidity services to clients.
pub struct LiquidityProviderConfig<H1, H2> {
    /// The handler of LSPS1 messages, should you want to support them.
    pub lsps1_message_handler: Option<H1>,
    /// The handler of LSPS2 messages, should you want to support JIT channels.
    pub lsps2_message_handler: Option<H2>,
}

/// The main interface into LSP functionality.
///
/// Users need to continually poll [`LiquidityManager::get_and_clear_pending_events`] in order to
/// surface [`Event`]'s that likely need to be handled.
pub struct LiquidityManager<H1, H2> {
    pub pending_messages: Vec<(PublicKey, LSPSMessage)>,
    pub pending_events: EventQueue,
    pub request_id_to_method_map: KeyedMap<String, String>,
    pub lsps0_message_handler: LSPS0MessageHandler,
    pub lsps1_message_handler: Option<H1>,
    pub lsps2_message_handler: Option<H2>,
    pub provides_liquidity: bool,
    pub genesis_hash: Option<[u8; 32]>,
    pub best_block: Option<BestBlock>,
}

/// The contents of a [`LiquidityManager`].
#[verifier::ext_equal]
pub struct LiquidityManagerView<H1, H2> {
    pub pending: Pending,
    /// The methods of the requests that were sent, by their ids.
    pub methods: Map<Seq<char>, Seq<char>>,
    pub protocols: Seq<u16>,
    pub lsps1_message_handler: Option<H1>,
    pub lsps2_message_handler: Option<H2>,
    pub provides_liquidity: bool,
    pub genesis_hash: Option<Seq<u8>>,
    pub best_block: Option<BestBlock>,
}

impl<H1, H2> View for LiquidityManager<H1, H2> {
    type V = LiquidityManagerView<H1, H2>;

    open spec fn view(&self) -> LiquidityManagerView<H1, H2> {
        LiquidityManagerView {
            pending: Pending {
                messages: self.pending_messages@,
                events: self.pending_events@,
            },
            methods: self.request_id_to_method_map@,
            protocols: self.lsps0_message_handler@,
            lsps1_message_handler: self.lsps1_message_handler,
            lsps2_message_handler: self.lsps2_message_handler,
            provides_liquidity: self.provides_liquidity,
            genesis_hash: match self.genesis_hash {
                Some(hash) => Some(hash@),
                None => None,
            },
            best_block: self.best_block,
        }
    }
}

/// The methods of the requests that were sent, after the given messages were sent too.
pub open spec fn methods_after(
    methods: Map<Seq<char>, Seq<char>>,
    messages: Seq<(PublicKey, LSPSMessage)>,
) -> Map<Seq<char>, Seq<char>>
    decreases messages.len(),
{
    if messages.len() == 0 {
        methods
    } else {
        let before = methods_after(methods, messages.drop_last());
        match messages.last().1.request_id_and_method() {
            Some((request_id, method)) => before.insert(request_id, method.name()),
            None => before,
        }
    }
}

/// The error for a message that no handler is configured for.
pub open spec fn no_handler(protocol: Protocol, counterparty_node_id: PublicKey) -> LightningError {
    info(ErrorKind::NoHandler { protocol, counterparty_node_id })
}

/// The error for a peer that did not understand us.
pub open spec fn not_understood(counterparty_node_id: PublicKey) -> LightningError {
    LightningError {
        err: ErrorKind::NotUnderstood { counterparty_node_id },
        action: ErrorAction::IgnoreAndLog(Level::Error),
    }
}

impl<
    H1: ProtocolMessageHandler<LSPS1Message>,
    H2: ProtocolMessageHandler<LSPS2Message>,
> LiquidityManagerView<H1, H2> {
    /// Whether taking in a message leads from this state to another, with the given result.
    pub open spec fn takes_in(
        self,
        after: Self,
        message: LSPSMessage,
        sender_node_id: PublicKey,
        result: Result<(), LightningError>,
    ) -> bool {
        match message {
            LSPSMessage::Invalid => {
                &&& after == self
                &&& result == Err::<(), LightningError>(not_understood(sender_node_id))
            },
            LSPSMessage::LSPS0(message) => {
                &&& after == (LiquidityManagerView { pending: after.pending, ..self })
                &&& lsps0_takes_in(
                    self.protocols,
                    self.pending,
                    after.pending,
                    message,
                    sender_node_id,
                    result,
                )
            },
            LSPSMessage::LSPS1(message) => match self.lsps1_message_handler {
                Some(handler) => {
                    &&& after.lsps1_message_handler is Some
                    &&& after == (LiquidityManagerView {
                        pending: after.pending,
                        lsps1_message_handler: after.lsps1_message_handler,
                        ..self
                    })
                    &&& H1::takes_in(
                        (handler, self.pending),
                        (after.lsps1_message_handler->0, after.pending),
                        message,
                        sender_node_id,
                        result,
                    )
                },
                None => {
                    &&& after == self
                    &&& result == Err::<(), LightningError>(
                        no_handler(Protocol::LSPS1, sender_node_id),
                    )
                },
            },
            LSPSMessage::LSPS2(message) => match self.lsps2_message_handler {
                Some(handler) => {
                    &&& after.lsps2_message_handler is Some
                    &&& after == (LiquidityManagerView {
                        pending: after.pending,
                        lsps2_message_handler: after.lsps2_message_handler,
                        ..self
                    })
                    &&& H2::takes_in(
                        (handler, self.pending),
                        (after.lsps2_message_handler->0, after.pending),
                        message,
                        sender_node_id,
                        result,
                    )
                },
                None => {
                    &&& after == self
                    &&& result == Err::<(), LightningError>(
                        no_handler(Protocol::LSPS2, sender_node_id),
                    )
                },
            },
        }
    }
}

impl<
    H1: ProtocolMessageHandler<LSPS1Message>,
    H2: ProtocolMessageHandler<LSPS2Message>,
> LiquidityManager<H1, H2> {
    /// Constructor for the [`LiquidityManager`].
    ///
    /// Sets up the required protocol message handlers based on the given
    /// [`LiquidityProviderConfig`].
    pub fn new(
        provider_config: Option<LiquidityProviderConfig<H1, H2>>,
        chain_params: Option<ChainParameters>,
    ) -> (manager: Self)
        ensures
            manager@ == (LiquidityManagerView {
                pending: Pending { messages: Seq::empty(), events: Seq::empty() },
                methods: Map::empty(),
                protocols: Seq::empty(),
                lsps1_message_handler: match provider_config {
                    Some(config) => config.lsps1_message_handler,
                    None => None,
                },
                lsps2_message_handler: match provider_config {
                    Some(config) => config.lsps2_message_handler,
                    None => None,
                },
                provides_liquidity: provider_config is Some,
                genesis_hash: match chain_params {
                    Some(params) => Some(genesis_block_hash(params.network)),
                    None => None,
                },
                best_block: match chain_params {
                    Some(params) => Some(params.best_block),
                    None => None,
                },
            }),
    {
        let provides_liquidity = provider_config.is_some();
        let (lsps1_message_handler, lsps2_message_handler) = match provider_config {
            Some(config) => (config.lsps1_message_handler, config.lsps2_message_handler),
            None => (None, None),
        };
        let (genesis, best_block) = match chain_params {
            Some(params) => (Some(genesis_hash(params.network)), Some(params.best_block)),
            None => (None, None),
        };
        LiquidityManager {
            pending_messages: Vec::new(),
            pending_events: EventQueue::new(),
            request_id_to_method_map: KeyedMap::new(),
            lsps0_message_handler: LSPS0MessageHandler::new(Vec::new()),
            lsps1_message_handler,
            lsps2_message_handler,
            provides_liquidity,
            genesis_hash: genesis,
            best_block,
        }
    }

    /// Returns a reference to the LSPS0 message handler.
    pub fn lsps0_message_handler(&self) -> (handler: &LSPS0MessageHandler)
        ensures
            *handler == self.lsps0_message_handler,
    {
        &self.lsps0_message_handler
    }

    /// Returns a reference to the LSPS1 message handler.
    pub fn lsps1_message_handler(&self) -> (handler: Option<&H1>)
        ensures
            handler == (match self.lsps1_message_handler {
                Some(handler) => Some(&handler),
                None => None,
            }),
    {
        self.lsps1_message_handler.as_ref()
    }

    /// Returns a reference to the LSPS2 message handler.
    pub fn lsps2_message_handler(&self) -> (handler: Option<&H2>)
        ensures
            handler == (match self.lsps2_message_handler {
                Some(handler) => Some(&handler),
                None => None,
            }),
    {
        self.lsps2_message_handler.as_ref()
    }

    /// Takes the next event of a manager that has one, and tells whether another waiter is to be
    /// woken because events remain.
    pub fn wait_next_event(&mut self) -> (event: (Event, bool))
        requires
            old(self)@.pending.events.len() > 0,
        ensures
            event.0 == old(self)@.pending.events.first(),
            event.1 == (final(self)@.pending.events.len() > 0),
            final(self)@ == (LiquidityManagerView {
                pending: Pending {
                    events: old(self)@.pending.events.drop_first(),
                    ..old(self)@.pending
                },
                ..old(self)@
            }),
    {
        self.pending_events.wait_next_event()
    }

    /// Returns `Some` if an event is ready.
    pub fn next_event(&mut self) -> (event: Option<Event>)
        ensures
            match event {
                Some(event) => {
                    &&& old(self)@.pending.events.len() > 0
                    &&& event == old(self)@.pending.events.first()
                    &&& final(self)@ == (LiquidityManagerView {
                        pending: Pending {
                            events: old(self)@.pending.events.drop_first(),
                            ..old(self)@.pending
                        },
                        ..old(self)@
                    })
                },
                None => old(self)@.pending.events.len() == 0 && final(self)@ == old(self)@,
            },
    {
        self.pending_events.next_event()
    }

    /// Returns and clears all events without blocking.
    pub fn get_and_clear_pending_events(&mut self) -> (events: Vec<Event>)
        ensures
            events@ == old(self)@.pending.events,
            final(self)@ == (LiquidityManagerView {
                pending: Pending { events: Seq::empty(), ..old(self)@.pending },
                ..old(self)@
            }),
    {
        self.pending_events.get_and_clear_pending_events()
    }

    fn handle_lsps_message(&mut self, msg: LSPSMessage, sender_node_id: &PublicKey) -> (result:
        Result<(), LightningError>)
        ensures
            old(self)@.takes_in(final(self)@, msg, *sender_node_id, result),
    {
        match msg {
            LSPSMessage::Invalid => Err(
                LightningError {
                    err: ErrorKind::NotUnderstood { counterparty_node_id: *sender_node_id },
                    action: ErrorAction::IgnoreAndLog(Level::Error),
                },
            ),
            LSPSMessage::LSPS0(msg) => {
                let result = <LSPS0MessageHandler as ProtocolMessageHandler<
                    LSPS0Message,
                >>::handle_message(
                    &mut self.lsps0_message_handler,
                    msg,
                    sender_node_id,
                    &mut self.pending_messages,
                    &mut self.pending_events,
                );
                result
            },
            LSPSMessage::LSPS1(msg) => match self.lsps1_message_handler.take() {
                Some(mut handler) => {
                    let result = handler.handle_message(
                        msg,
                        sender_node_id,
                        &mut self.pending_messages,
                        &mut self.pending_events,
                    );
                    self.lsps1_message_handler = Some(handler);
                    result
                },
                None => Err(
                    info_error(
                        ErrorKind::NoHandler {
                            protocol: Protocol::LSPS1,
                            counterparty_node_id: *sender_node_id,
                        },
                    ),
                ),
            },
            LSPSMessage::LSPS2(msg) => match self.lsps2_message_handler.take() {
                Some(mut handler) => {
                    let result = handler.handle_message(
                        msg,
                        sender_node_id,
                        &mut self.pending_messages,
                        &mut self.pending_events,
                    );
                    self.lsps2_message_handler = Some(handler);
                    result
                },
                None => Err(
                    info_error(
                        ErrorKind::NoHandler {
                            protocol: Protocol::LSPS2,
                            counterparty_node_id: *sender_node_id,
                        },
                    ),
                ),
            },
        }
    }

    fn enqueue_message(&mut self, node_id: PublicKey, msg: LSPSMessage)
        ensures
            final(self)@ == (LiquidityManagerView {
                pending: Pending {
                    messages: old(self)@.pending.messages.push((node_id, msg)),
                    ..old(self)@.pending
                },
                ..old(self)@
            }),
    {
        self.pending_messages.push((node_id, msg));
    }

    /// Reads a message from a peer up to its parameters or its result.
    ///
    /// A response ends its request.
    pub fn decode_message(&mut self, payload: &str) -> (frame: Result<Frame, DecodeError>)
        ensures
            match EnvelopeView::of_text(Dialect::Lenient, payload@) {
                Some(envelope) => {
                    let (methods, outcome) = frame_of(envelope, old(self)@.methods);
                    &&& final(self)@ == (LiquidityManagerView { methods, ..old(self)@ })
                    &&& match (frame, outcome) {
                        (Ok(frame), Ok(view)) => frame@ == view,
                        (Err(e), Err(expected)) => e == expected,
                        _ => false,
                    }
                },
                None => {
                    &&& final(self)@ == old(self)@
                    &&& frame == Err::<Frame, DecodeError>(DecodeError::Json)
                },
            },
    {
        LSPSMessage::from_str_with_id_map(payload, &mut self.request_id_to_method_map)
    }

    /// Takes in what was read from a peer. A peer whose message could not be read is told so.
    pub fn handle_custom_message(
        &mut self,
        message: Result<LSPSMessage, DecodeError>,
        sender_node_id: &PublicKey,
    ) -> (result: Result<(), LightningError>)
        ensures
            match message {
                Ok(message) => old(self)@.takes_in(final(self)@, message, *sender_node_id, result),
                Err(_) => {
                    &&& result == Ok::<(), LightningError>(())
                    &&& final(self)@ == (LiquidityManagerView {
                        pending: Pending {
                            messages: old(self)@.pending.messages.push(
                                (*sender_node_id, LSPSMessage::Invalid),
                            ),
                            ..old(self)@.pending
                        },
                        ..old(self)@
                    })
                },
            },
    {
        match message {
            Ok(msg) => self.handle_lsps_message(msg, sender_node_id),
            Err(_) => {
                self.enqueue_message(*sender_node_id, LSPSMessage::Invalid);
                Ok(())
            },
        }
    }

    /// Takes all messages that are to be sent, in order, and remembers the methods of the requests
    /// among them.
    pub fn get_and_clear_pending_msg(&mut self) -> (messages: Vec<(PublicKey, LSPSMessage)>)
        ensures
            messages@ == old(self)@.pending.messages,
            final(self)@ == (LiquidityManagerView {
                pending: Pending { messages: Seq::empty(), ..old(self)@.pending },
                methods: methods_after(old(self)@.methods, old(self)@.pending.messages),
                ..old(self)@
            }),
    {
        let mut messages: Vec<(PublicKey, LSPSMessage)> = Vec::new();
        std::mem::swap(&mut messages, &mut self.pending_messages);
        let ghost sent = messages@;
        let mut i: usize = 0;
        assert(sent.take(0) =~= Seq::empty());
        while i < messages.len()
            invariant
                i <= messages@.len(),
                sent == messages@,
                self@ == (LiquidityManagerView {
                    pending: Pending { messages: Seq::empty(), ..old(self)@.pending },
                    methods: methods_after(old(self)@.methods, sent.take(i as int)),
                    ..old(self)@
                }),
            decreases messages@.len() - i,
        {
            assert(sent.take(i + 1).drop_last() =~= sent.take(i as int));
            if let Some((request_id, method_name)) = messages[i].1.get_request_id_and_method() {
                self.request_id_to_method_map.insert(request_id, method_name);
            }
            i += 1;
        }
        assert(sent.take(i as int) =~= sent);
        messages
    }

    /// Returns whether a block that is connected to the chain comes in chain order: it builds on the
    /// last block that is known, one above its height.
    pub fn filtered_block_connected(&self, prev_blockhash: &[u8; 32], height: u32) -> (in_order:
        bool)
        requires
            self@.best_block is Some ==> height > 0,
        ensures
            in_order == (match self@.best_block {
                Some(best_block) => best_block.block_hash@ == prev_blockhash@ && best_block.height
                    == height - 1,
                None => true,
            }),
    {
        match &self.best_block {
            Some(best_block) => same_hash(&best_block.block_hash, prev_blockhash)
                && best_block.height == height - 1,
            None => true,
        }
    }

    /// Takes in that a block was disconnected from the chain, and returns whether that came in chain
    /// order: it is the last block that is known.
    pub fn block_disconnected(
        &mut self,
        block_hash: &[u8; 32],
        prev_blockhash: &[u8; 32],
        height: u32,
    ) -> (in_order: bool)
        requires
            height > 0,
        ensures
            match old(self)@.best_block {
                Some(best_block) => {
                    &&& in_order == (best_block.block_hash@ == block_hash@ && best_block.height
                        == height)
                    &&& final(self)@ == if in_order {
                        LiquidityManagerView {
                            best_block: Some(
                                BestBlock {
                                    block_hash: *prev_blockhash,
                                    height: (height - 1) as u32,
                                },
                            ),
                            ..old(self)@
                        }
                    } else {
                        old(self)@
                    }
                },
                None => in_order && final(self)@ == old(self)@,
            },
    {
        match self.best_block {
            Some(best_block) => {
                if same_hash(&best_block.block_hash, block_hash) && best_block.height == height {
                    self.best_block = Some(
                        BestBlock { block_hash: *prev_blockhash, height: height - 1 },
                    );
                    true
                } else {
                    false
                }
            },
            None => true,
        }
    }
}

/// Returns whether two hashes hold the same bytes.
fn same_hash(a: &[u8; 32], b: &[u8; 32]) -> (same: bool)
    ensures
        same == (a@ == b@),
{
    let mut i: usize = 0;
    while i < 32
        invariant
            i <= 32,
            forall|j: int| 0 <= j < i ==> a@[j] == b@[j],
        decreases 32 - i,
    {
        if a[i] != b[i] {
            return false;
        }
        i += 1;
    }
    assert(a@ =~= b@);
    true
}

/// A request that was sent is remembered, unless a later request reuses its id.
pub proof fn lemma_sent_request_is_remembered(
    methods: Map<Seq<char>, Seq<char>>,
    messages: Seq<(PublicKey, LSPSMessage)>,
    i: int,
)
    requires
        0 <= i < messages.len(),
        messages[i].1.request_id_and_method() is Some,
        forall|j: int|
            i < j < messages.len() && (#[trigger] messages[j]).1.request_id_and_method() is Some
                ==> (messages[j].1.request_id_and_method()->0).0 != (
            messages[i].1.request_id_and_method()->0).0,
    ensures
        ({
            let (request_id, method) = messages[i].1.request_id_and_method()->0;
            let after = methods_after(methods, messages);
            &&& after.contains_key(request_id)
            &&& after[request_id] == method.name()
        }),
    decreases messages.len(),
{
    if i < messages.len() - 1 {
        let before = messages.drop_last();
        assert forall|j: int|
            i < j < before.len() && (#[trigger] before[j]).1.request_id_and_method()
                is Some implies (before[j].1.request_id_and_method()->0).0 != (
        before[i].1.request_id_and_method()->0).0 by {
            assert(before[j] == messages[j]);
        }
        lemma_sent_request_is_remembered(methods, before, i);
        assert(messages.last() == messages[messages.len() - 1]);
    }
}

/// A request that is taken from the queue and answered is ended: its answer is read as an answer to
/// its method, and a second answer with its id belongs to no request.
pub proof fn lemma_request_is_answered_once(
    methods: Map<Seq<char>, Seq<char>>,
    first: EnvelopeView,
    second: EnvelopeView,
)
    requires
        first.method is None,
        first.id is Some,
        second.method is None,
        second.id == first.id,
        methods.contains_key(first.id->0),
    ensures
        ({
            let (after, outcome) = frame_of(first, methods);
            &&& outcome != Err::<FrameView, DecodeError>(DecodeError::UnknownRequestId)
            &&& frame_of(second, after).1 == Err::<FrameView, DecodeError>(
                DecodeError::UnknownRequestId,
            )
        }),
{
}

/// A message goes to the handler of its protocol, and to no other. Where there is none, or the peer did
/// not understand us, nothing changes and an error says so.
pub proof fn lemma_messages_go_to_their_handler<
    H1: ProtocolMessageHandler<LSPS1Message>,
    H2: ProtocolMessageHandler<LSPS2Message>,
>(
    manager: LiquidityManagerView<H1, H2>,
    after: LiquidityManagerView<H1, H2>,
    message: LSPSMessage,
    node: PublicKey,
    result: Result<(), LightningError>,
)
    requires
        manager.takes_in(after, message, node, result),
    ensures
        after.methods == manager.methods,
        after.protocols == manager.protocols,
        after.provides_liquidity == manager.provides_liquidity,
        after.genesis_hash == manager.genesis_hash,
        after.best_block == manager.best_block,
        !(message is LSPS1) ==> after.lsps1_message_handler == manager.lsps1_message_handler,
        !(message is LSPS2) ==> after.lsps2_message_handler == manager.lsps2_message_handler,
        message is Invalid ==> {
            &&& after.pending == manager.pending
            &&& result is Err
            &&& result->Err_0.err == (ErrorKind::NotUnderstood { counterparty_node_id: node })
            &&& result->Err_0.action == ErrorAction::IgnoreAndLog(Level::Error)
        },
        message is LSPS0 ==> lsps0_takes_in(
            manager.protocols,
            manager.pending,
            after.pending,
            message->LSPS0_0,
            node,
            result,
        ),
        message is LSPS1 && manager.lsps1_message_handler is Some ==> {
            &&& after.lsps1_message_handler is Some
            &&& H1::takes_in(
                (manager.lsps1_message_handler->0, manager.pending),
                (after.lsps1_message_handler->0, after.pending),
                message->LSPS1_0,
                node,
                result,
            )
        },
        message is LSPS2 && manager.lsps2_message_handler is Some ==> {
            &&& after.lsps2_message_handler is Some
            &&& H2::takes_in(
                (manager.lsps2_message_handler->0, manager.pending),
                (after.lsps2_message_handler->0, after.pending),
                message->LSPS2_0,
                node,
                result,
            )
        },
        message is LSPS1 && manager.lsps1_message_handler is None ==> {
            &&& after == manager
            &&& result is Err
            &&& result->Err_0.err == (ErrorKind::NoHandler {
                protocol: Protocol::LSPS1,
                counterparty_node_id: node,
            })
        },
        message is LSPS2 && manager.lsps2_message_handler is None ==> {
            &&& after == manager
            &&& result is Err
            &&& result->Err_0.err == (ErrorKind::NoHandler {
                protocol: Protocol::LSPS2,
                counterparty_node_id: node,
            })
        },
{
}

/// Sending remembers the requests one after the other, each by its id, and what is no request changes
/// nothing that is remembered.
pub proof fn lemma_sent_requests_are_remembered_in_turn(
    methods: Map<Seq<char>, Seq<char>>,
    messages: Seq<(PublicKey, LSPSMessage)>,
    last: (PublicKey, LSPSMessage),
)
    ensures
        methods_after(methods, Seq::empty()) == methods,
        last.1.request_id_and_method() is None ==> methods_after(methods, messages.push(last))
            == methods_after(methods, messages),
        last.1.request_id_and_method() is Some ==> {
            let (request_id, method) = last.1.request_id_and_method()->0;
            methods_after(methods, messages.push(last)) == methods_after(methods, messages).insert(
                request_id,
                method.name(),
            )
        },
{
    assert(messages.push(last).drop_last() =~= messages);
}

/// A block comes in chain order exactly where it builds on the last block that is known. Disconnecting
/// the last block that is known leads back to the one before it, and any other changes nothing.
pub proof fn lemma_blocks_come_in_order<
    H1: ProtocolMessageHandler<LSPS1Message>,
    H2: ProtocolMessageHandler<LSPS2Message>,
>(
    manager: &mut LiquidityManager<H1, H2>,
    block_hash: [u8; 32],
    prev_blockhash: [u8; 32],
    height: u32,
    disconnected: bool,
    other: LiquidityManager<H1, H2>,
    connected: bool,
)
    requires
        call_ensures(
            LiquidityManager::<H1, H2>::block_disconnected,
            (manager, &block_hash, &prev_blockhash, height),
            disconnected,
        ),
        call_ensures(
            LiquidityManager::<H1, H2>::filtered_block_connected,
            (&other, &prev_blockhash, height),
            connected,
        ),
        height > 0,
    ensures
        ({
            let before = old(manager)@;
            let after = final(manager)@;
            let last = before.best_block is Some && before.best_block->0.block_hash@ == block_hash@
                && before.best_block->0.height == height;
            &&& disconnected <==> last || before.best_block is None
            &&& last ==> {
                &&& after.best_block is Some
                &&& after.best_block->0.block_hash == prev_blockhash
                &&& after.best_block->0.height == height - 1
            }
            &&& !last ==> after == before
            &&& after.pending == before.pending
            &&& after.methods == before.methods
            &&& after.protocols == before.protocols
            &&& after.lsps1_message_handler == before.lsps1_message_handler
            &&& after.lsps2_message_handler == before.lsps2_message_handler
            &&& after.provides_liquidity == before.provides_liquidity
            &&& after.genesis_hash == before.genesis_hash
        }),
        connected <==> other@.best_block is None || other@.best_block->0.block_hash@
            == prev_blockhash@ && other@.best_block->0.height + 1 == height,
{
}

/// Taking the messages gives all that waited, in order, and leaves none. Taking an event gives the first
/// that waited, and taking all events gives them in order and leaves none.
pub proof fn lemma_what_waits_is_taken_once<
    H1: ProtocolMessageHandler<LSPS1Message>,
    H2: ProtocolMessageHandler<LSPS2Message>,
>(
    manager: &mut LiquidityManager<H1, H2>,
    messages: Vec<(PublicKey, LSPSMessage)>,
    second: &mut LiquidityManager<H1, H2>,
    event: Option<Event>,
    third: &mut LiquidityManager<H1, H2>,
    events: Vec<Event>,
)
    requires
        call_ensures(
            LiquidityManager::<H1, H2>::get_and_clear_pending_msg,
            (manager, ),
            messages,
        ),
        call_ensures(LiquidityManager::<H1, H2>::next_event, (second, ), event),
        call_ensures(
            LiquidityManager::<H1, H2>::get_and_clear_pending_events,
            (third, ),
            events,
        ),
    ensures
        messages@ == old(manager)@.pending.messages,
        final(manager)@.pending.messages.len() == 0,
        final(manager)@.pending.events == old(manager)@.pending.events,
        event is None <==> old(second)@.pending.events.len() == 0,
        event is Some ==> {
            &&& event->0 == old(second)@.pending.events[0]
            &&& final(second)@.pending.events == old(second)@.pending.events.skip(1)
            &&& final(second)@.pending.messages == old(second)@.pending.messages
        },
        events@ == old(third)@.pending.events,
        final(third)@.pending.events.len() == 0,
        final(third)@.pending.messages == old(third)@.pending.messages,
{
    if event is Some {
        assert(old(second)@.pending.events.drop_first() =~= old(second)@.pending.events.skip(1));
    }
}

/// A message that could not be read is answered by one that says so, and changes nothing else.
pub proof fn lemma_unreadable_messages_are_answered<
    H1: ProtocolMessageHandler<LSPS1Message>,
    H2: ProtocolMessageHandler<LSPS2Message>,
>(
    manager: &mut LiquidityManager<H1, H2>,
    message: Result<LSPSMessage, DecodeError>,
    node: PublicKey,
    result: Result<(), LightningError>,
)
    requires
        call_ensures(
            LiquidityManager::<H1, H2>::handle_custom_message,
            (manager, message, &node),
            result,
        ),
        message is Err,
    ensures
        ({
            let before = old(manager)@;
            let after = final(manager)@;
            &&& result is Ok
            &&& after.pending.messages.len() == before.pending.messages.len() + 1
            &&& after.pending.messages.drop_last() == before.pending.messages
            &&& after.pending.messages.last() == (node, LSPSMessage::Invalid)
            &&& after.pending.events == before.pending.events
            &&& after.methods == before.methods
            &&& after.protocols == before.protocols
            &&& after.lsps1_message_handler == before.lsps1_message_handler
            &&& after.lsps2_message_handler == before.lsps2_message_handler
            &&& after.best_block == before.best_block
        }),
{
}

/// A new manager has nothing that waits and has sent no request. It has the handlers of the
/// configuration, if there is one, and knows the chain that it was given.
pub proof fn lemma_managers_start_empty<
    H1: ProtocolMessageHandler<LSPS1Message>,
    H2: ProtocolMessageHandler<LSPS2Message>,
>(
    config: Option<LiquidityProviderConfig<H1, H2>>,
    chain_params: Option<ChainParameters>,
    manager: LiquidityManager<H1, H2>,
)
    requires
        call_ensures(LiquidityManager::<H1, H2>::new, (config, chain_params), manager),
    ensures
        manager@.pending.messages.len() == 0,
        manager@.pending.events.len() == 0,
        forall|id: Seq<char>| !#[trigger] manager@.methods.contains_key(id),
        manager@.provides_liquidity <==> config is Some,
        config is Some ==> {
            &&& manager@.lsps1_message_handler == config->0.lsps1_message_handler
            &&& manager@.lsps2_message_handler == config->0.lsps2_message_handler
        },
        config is None ==> manager@.lsps1_message_handler is None && manager@.lsps2_message_handler
            is None,
        chain_params is Some ==> {
            &&& manager@.genesis_hash == Some(genesis_block_hash(chain_params->0.network))
            &&& manager@.best_block == Some(chain_params->0.best_block)
        },
        chain_params is None ==> manager@.genesis_hash is None && manager@.best_block is None,
{
}

} // verus!
