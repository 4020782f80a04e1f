//! Contains the main LSPS2 client object, [`LSPS2ClientHandler`].

use vstd::prelude::*;

use crate::collections::{KeyedMap, KeyedSet};
use crate::errors::{
    info, info_error, misuse, misuse_error, APIError, ChannelState, ChannelStateError, ErrorKind,
    LightningError, Protocol, Reply,
};
use crate::events::{Event, EventQueue};
use crate::lsps0::msgs::{LSPSMessage, RequestId, ResponseError};
use crate::lsps2::event::LSPS2ClientEvent;
use crate::lsps2::msgs::{
    BuyRequest, BuyResponse, GetInfoRequest, GetInfoResponse, InterceptScid, LSPS2Message,
    LSPS2Request, LSPS2Response, OpeningFeeParams,
};
use crate::message_queue::MessageQueue;
use crate::types::PublicKey;
use crate::utils::{generate_request_id, parsed_scid, request_id_text};

verus! {

/// Client-side configuration options for JIT channels.
#[derive(Clone, Debug, Copy)]
pub struct LSPS2ClientConfig {
    /// Trust the LSP to create a valid channel funding transaction and have it confirmed on-chain.
    ///
    /// Defaults to `true`.
    pub client_trusts_lsp: bool,
}

impl Default for LSPS2ClientConfig {
    fn default() -> (config: Self)
        ensures
            config.client_trusts_lsp,
    {
        LSPS2ClientConfig { client_trusts_lsp: true }
    }
}

/// How far the purchase of a channel to us has come.
#[derive(Debug, PartialEq, Eq)]
pub enum InboundJITChannelState {
    BuyRequested,
    PendingPayment { client_trusts_lsp: bool, intercept_scid: InterceptScid },
}

impl InboundJITChannelState {
    /// Tells the state in an error.
    fn channel_state(&self) -> (state: ChannelState)
        ensures
            state == ChannelState::InboundJIT(*self),
    {
        ChannelState::InboundJIT(
            match self {
                InboundJITChannelState::BuyRequested => InboundJITChannelState::BuyRequested,
                InboundJITChannelState::PendingPayment { client_trusts_lsp, intercept_scid } => {
                    InboundJITChannelState::PendingPayment {
                        client_trusts_lsp: *client_trusts_lsp,
                        intercept_scid: intercept_scid.clone(),
                    }
                },
            },
        )
    }

    /// The state after the LSP has sent what the invoice needs.
    pub open spec fn after_invoice_params(
        self,
        client_trusts_lsp: bool,
        intercept_scid: InterceptScid,
    ) -> Result<Self, ErrorKind> {
        if self is BuyRequested {
            Ok(InboundJITChannelState::PendingPayment { client_trusts_lsp, intercept_scid })
        } else {
            Err(ErrorKind::UnexpectedInvoiceParams { state: ChannelState::InboundJIT(self) })
        }
    }

    /// Goes on from what the LSP has sent for the invoice.
    pub fn invoice_params_received(
        &self,
        client_trusts_lsp: bool,
        intercept_scid: InterceptScid,
    ) -> (next: Result<Self, ChannelStateError>)
        ensures
            next == (match self.after_invoice_params(client_trusts_lsp, intercept_scid) {
                Ok(state) => Ok(state),
                Err(e) => Err(ChannelStateError(e)),
            }),
    {
        match self {
            InboundJITChannelState::BuyRequested => Ok(
                InboundJITChannelState::PendingPayment { client_trusts_lsp, intercept_scid },
            ),
            _ => Err(
                ChannelStateError(ErrorKind::UnexpectedInvoiceParams { state: self.channel_state() }),
            ),
        }
    }
}

/// A channel that an LSP is to open to us.
#[derive(Debug, PartialEq, Eq)]
pub struct InboundJITChannel {
    pub state: InboundJITChannelState,
    pub user_channel_id: u128,
    pub payment_size_msat: Option<u64>,
}

impl View for InboundJITChannel {
    type V = InboundJITChannel;

    open spec fn view(&self) -> InboundJITChannel {
        *self
    }
}

impl InboundJITChannel {
    /// Creates a channel whose purchase has been requested.
    pub fn new(user_channel_id: u128, payment_size_msat: Option<u64>) -> (channel: Self)
        ensures
            channel == (InboundJITChannel {
                state: InboundJITChannelState::BuyRequested,
                user_channel_id,
                payment_size_msat,
            }),
    {
        InboundJITChannel {
            user_channel_id,
            payment_size_msat,
            state: InboundJITChannelState::BuyRequested,
        }
    }

    /// Goes on from what the LSP has sent for the invoice.
    pub fn invoice_params_received(
        &mut self,
        client_trusts_lsp: bool,
        intercept_scid: InterceptScid,
    ) -> (result: Result<(), LightningError>)
        ensures
            match old(self).state.after_invoice_params(client_trusts_lsp, intercept_scid) {
                Ok(state) => *final(self) == (InboundJITChannel { state, ..*old(self) })
                    && result == Ok::<(), LightningError>(()),
                Err(e) => *final(self) == *old(self) && result == Err::<(), LightningError>(
                    info(e),
                ),
            },
    {
        match self.state.invoice_params_received(client_trusts_lsp, intercept_scid) {
            Ok(state) => {
                self.state = state;
                Ok(())
            },
            Err(e) => Err(LightningError::from(e)),
        }
    }
}

/// The negotiations with one LSP.
pub struct PeerState {
    pub inbound_channels_by_id: KeyedMap<u128, InboundJITChannel>,
    pub pending_get_info_requests: KeyedSet<RequestId>,
    pub pending_buy_requests: KeyedMap<RequestId, u128>,
}

/// The contents of a [`PeerState`].
#[verifier::ext_equal]
pub struct PeerStateView {
    pub inbound_channels_by_id: Map<u128, InboundJITChannel>,
    pub pending_get_info_requests: Set<Seq<char>>,
    pub pending_buy_requests: Map<Seq<char>, u128>,
}

impl View for PeerState {
    type V = PeerStateView;

    open spec fn view(&self) -> PeerStateView {
        PeerStateView {
            inbound_channels_by_id: self.inbound_channels_by_id@,
            pending_get_info_requests: self.pending_get_info_requests@,
            pending_buy_requests: self.pending_buy_requests@,
        }
    }
}

impl PeerStateView {
    /// No negotiation at all.
    pub open spec fn empty() -> Self {
        PeerStateView {
            inbound_channels_by_id: Map::empty(),
            pending_get_info_requests: Set::empty(),
            pending_buy_requests: Map::empty(),
        }
    }

    /// With a `get_info` request of ours.
    pub open spec fn with_info_request(self, request_id: Seq<char>) -> Self {
        PeerStateView {
            pending_get_info_requests: self.pending_get_info_requests.insert(request_id),
            ..self
        }
    }

    /// Without a `get_info` request of ours.
    pub open spec fn without_info_request(self, request_id: Seq<char>) -> Self {
        PeerStateView {
            pending_get_info_requests: self.pending_get_info_requests.remove(request_id),
            ..self
        }
    }

    /// With a `buy` request of ours that concerns a channel.
    pub open spec fn with_buy_request(self, request_id: Seq<char>, id: u128) -> Self {
        PeerStateView {
            pending_buy_requests: self.pending_buy_requests.insert(request_id, id),
            ..self
        }
    }

    /// With a channel added or replaced.
    pub open spec fn with_channel(self, id: u128, channel: InboundJITChannel) -> Self {
        PeerStateView {
            inbound_channels_by_id: self.inbound_channels_by_id.insert(id, channel),
            ..self
        }
    }

    /// A reply to a `buy` request ends the request and takes out the channel that it concerns.
    pub open spec fn reply_taken(self, request_id: RequestId, reply: Reply) -> (
        PeerStateView,
        Result<(u128, InboundJITChannel), ErrorKind>,
    ) {
        if !self.pending_buy_requests.contains_key(request_id.0@) {
            (self, Err(ErrorKind::UnknownRequest { reply, request_id }))
        } else {
            let id = self.pending_buy_requests[request_id.0@];
            let ended = PeerStateView {
                pending_buy_requests: self.pending_buy_requests.remove(request_id.0@),
                ..self
            };
            if !self.inbound_channels_by_id.contains_key(id) {
                (ended, Err(ErrorKind::UnknownChannel { reply, channel_id: id }))
            } else {
                (
                    PeerStateView {
                        inbound_channels_by_id: self.inbound_channels_by_id.remove(id),
                        ..ended
                    },
                    Ok((id, self.inbound_channels_by_id[id])),
                )
            }
        }
    }

    /// What a `buy` response leads to: the channel awaits payment to the short channel id. It is
    /// given up where the LSP requires trust that is not granted.
    pub open spec fn buy_step(
        self,
        request_id: RequestId,
        response: BuyResponse,
        trust_granted: bool,
    ) -> (PeerStateView, Result<(u64, InboundJITChannel), ErrorKind>) {
        match self.reply_taken(request_id, Reply::BuyResponse) {
            (peer, Ok((id, channel))) => if response.client_trusts_lsp && !trust_granted {
                (peer, Err(ErrorKind::TrustNotGranted))
            } else {
                match channel.state.after_invoice_params(
                    response.client_trusts_lsp,
                    response.intercept_scid,
                ) {
                    Ok(state) => {
                        let next = InboundJITChannel { state, ..channel };
                        (
                            peer.with_channel(id, next),
                            match parsed_scid(response.intercept_scid.0@) {
                                Some(scid) => Ok((scid, next)),
                                None => Err(
                                    ErrorKind::InvalidScid { text: response.intercept_scid.0 },
                                ),
                            },
                        )
                    },
                    Err(e) => (peer, Err(e)),
                }
            },
            (peer, Err(e)) => (peer, Err(e)),
        }
    }
}

impl PeerState {
    /// Creates the state of an LSP with whom nothing is negotiated.
    pub fn new() -> (peer: Self)
        ensures
            peer@ == PeerStateView::empty(),
    {
        PeerState {
            inbound_channels_by_id: KeyedMap::new(),
            pending_get_info_requests: KeyedSet::new(),
            pending_buy_requests: KeyedMap::new(),
        }
    }

    /// Ends the `buy` request that a reply belongs to, and takes out the channel that it concerns.
    fn take_reply(&mut self, request_id: RequestId, reply: Reply) -> (taken: Result<
        (u128, InboundJITChannel),
        ErrorKind,
    >)
        ensures
            (final(self)@, taken) == old(self)@.reply_taken(request_id, reply),
    {
        match self.pending_buy_requests.remove(&request_id) {
            Some(id) => match self.inbound_channels_by_id.remove(&id) {
                Some(channel) => Ok((id, channel)),
                None => Err(ErrorKind::UnknownChannel { reply, channel_id: id }),
            },
            None => Err(ErrorKind::UnknownRequest { reply, request_id }),
        }
    }

    /// Goes on from a `buy` response, and returns the short channel id, the payment size and the
    /// user channel id.
    fn buy_response(
        &mut self,
        request_id: RequestId,
        response: &BuyResponse,
        trust_granted: bool,
    ) -> (ready: Result<(u64, Option<u64>, u128), LightningError>)
        ensures
            ({
                let (peer, outcome) = old(self)@.buy_step(request_id, *response, trust_granted);
                &&& final(self)@ == peer
                &&& ready == (match outcome {
                    Ok((scid, channel)) => Ok::<(u64, Option<u64>, u128), LightningError>(
                        (scid, channel.payment_size_msat, channel.user_channel_id),
                    ),
                    Err(e) => Err(info(e)),
                })
            }),
    {
        match self.take_reply(request_id, Reply::BuyResponse) {
            Ok((id, mut channel)) => {
                if response.client_trusts_lsp && !trust_granted {
                    return Err(info_error(ErrorKind::TrustNotGranted));
                }
                match channel.invoice_params_received(
                    response.client_trusts_lsp,
                    response.intercept_scid.clone(),
                ) {
                    Ok(()) => {
                        let payment_size_msat = channel.payment_size_msat;
                        let user_channel_id: u128 = channel.user_channel_id;
                        self.inbound_channels_by_id.insert(id, channel);
                        match response.intercept_scid.to_scid() {
                            Ok(scid) => Ok((scid, payment_size_msat, user_channel_id)),
                            Err(()) => Err(
                                info_error(
                                    ErrorKind::InvalidScid {
                                        text: response.intercept_scid.0.clone(),
                                    },
                                ),
                            ),
                        }
                    },
                    Err(e) => Err(e),
                }
            },
            Err(e) => Err(info_error(e)),
        }
    }
}

/// Whether the messages are those before and one more request of ours, with an id made of the given
/// random bytes.
pub open spec fn request_enqueued(
    before: Seq<(PublicKey, LSPSMessage)>,
    after: Seq<(PublicKey, LSPSMessage)>,
    counterparty_node_id: PublicKey,
    entropy: Seq<u8>,
    request: LSPS2Request,
) -> bool {
    &&& after.len() == before.len() + 1
    &&& after.drop_last() == before
    &&& after.last().0 == counterparty_node_id
    &&& match after.last().1 {
        LSPSMessage::LSPS2(LSPS2Message::Request(request_id, sent)) => request_id.0@
            == request_id_text(entropy) && sent == request,
        _ => false,
    }
}

/// The main object allowing to send and receive LSPS2 messages.
pub struct LSPS2ClientHandler {
    per_peer_state: KeyedMap<PublicKey, PeerState>,
    config: LSPS2ClientConfig,
}

/// The contents of an [`LSPS2ClientHandler`].
#[verifier::ext_equal]
pub struct LSPS2ClientHandlerView {
    pub per_peer_state: Map<PublicKey, PeerStateView>,
    pub config: LSPS2ClientConfig,
}

impl View for LSPS2ClientHandler {
    type V = LSPS2ClientHandlerView;

    closed spec fn view(&self) -> LSPS2ClientHandlerView {
        LSPS2ClientHandlerView { per_peer_state: self.per_peer_state@, config: self.config }
    }
}

impl LSPS2ClientHandlerView {
    /// The state of an LSP, which is empty until something is negotiated.
    pub open spec fn peer(self, counterparty_node_id: PublicKey) -> PeerStateView {
        if self.per_peer_state.contains_key(counterparty_node_id) {
            self.per_peer_state[counterparty_node_id]
        } else {
            PeerStateView::empty()
        }
    }

    /// With the state of one LSP replaced.
    pub open spec fn with_peer(self, counterparty_node_id: PublicKey, peer: PeerStateView) -> Self {
        LSPS2ClientHandlerView {
            per_peer_state: self.per_peer_state.insert(counterparty_node_id, peer),
            ..self
        }
    }

    /// The state, the events and the result after a `get_info` response.
    pub open spec fn after_info_response(
        self,
        events: Seq<Event>,
        request_id: RequestId,
        counterparty_node_id: PublicKey,
        response: GetInfoResponse,
    ) -> (Self, Seq<Event>, Result<(), LightningError>) {
        if !self.per_peer_state.contains_key(counterparty_node_id) {
            (
                self,
                events,
                Err(
                    info(
                        ErrorKind::UnknownPeer {
                            reply: Reply::GetInfoResponse,
                            counterparty_node_id,
                        },
                    ),
                ),
            )
        } else {
            let peer = self.per_peer_state[counterparty_node_id];
            if !peer.pending_get_info_requests.contains(request_id.0@) {
                (
                    self,
                    events,
                    Err(
                        info(
                            ErrorKind::UnknownRequest { reply: Reply::GetInfoResponse, request_id },
                        ),
                    ),
                )
            } else {
                (
                    self.with_peer(
                        counterparty_node_id,
                        peer.without_info_request(request_id.0@),
                    ),
                    events.push(
                        Event::LSPS2Client(
                            LSPS2ClientEvent::OpeningParametersReady {
                                request_id,
                                counterparty_node_id,
                                opening_fee_params_menu: response.opening_fee_params_menu,
                                min_payment_size_msat: response.min_payment_size_msat,
                                max_payment_size_msat: response.max_payment_size_msat,
                            },
                        ),
                    ),
                    Ok(()),
                )
            }
        }
    }

    /// The state and the result after an error in answer to a `get_info` request.
    pub open spec fn after_info_error(
        self,
        request_id: RequestId,
        counterparty_node_id: PublicKey,
    ) -> (Self, Result<(), LightningError>) {
        if !self.per_peer_state.contains_key(counterparty_node_id) {
            (
                self,
                Err(
                    info(
                        ErrorKind::UnknownPeer { reply: Reply::GetInfoError, counterparty_node_id },
                    ),
                ),
            )
        } else {
            let peer = self.per_peer_state[counterparty_node_id];
            if !peer.pending_get_info_requests.contains(request_id.0@) {
                (
                    self,
                    Err(info(ErrorKind::UnknownRequest { reply: Reply::GetInfoError, request_id })),
                )
            } else {
                (
                    self.with_peer(
                        counterparty_node_id,
                        peer.without_info_request(request_id.0@),
                    ),
                    Ok(()),
                )
            }
        }
    }

    /// The state, the events and the result after a `buy` response.
    pub open spec fn after_buy_response(
        self,
        events: Seq<Event>,
        request_id: RequestId,
        counterparty_node_id: PublicKey,
        response: BuyResponse,
    ) -> (Self, Seq<Event>, Result<(), LightningError>) {
        if !self.per_peer_state.contains_key(counterparty_node_id) {
            (
                self,
                events,
                Err(
                    info(
                        ErrorKind::UnknownPeer { reply: Reply::BuyResponse, counterparty_node_id },
                    ),
                ),
            )
        } else {
            let (peer, outcome) = self.per_peer_state[counterparty_node_id].buy_step(
                request_id,
                response,
                self.config.client_trusts_lsp,
            );
            let after = self.with_peer(counterparty_node_id, peer);
            match outcome {
                Ok((scid, channel)) => (
                    after,
                    events.push(
                        Event::LSPS2Client(
                            LSPS2ClientEvent::InvoiceParametersReady {
                                counterparty_node_id,
                                intercept_scid: scid,
                                cltv_expiry_delta: response.lsp_cltv_expiry_delta,
                                payment_size_msat: channel.payment_size_msat,
                                user_channel_id: channel.user_channel_id,
                            },
                        ),
                    ),
                    Ok(()),
                ),
                Err(e) => (after, events, Err(info(e))),
            }
        }
    }

    /// The state and the result after an error in answer to a `buy` request: the channel is given
    /// up.
    pub open spec fn after_buy_error(
        self,
        request_id: RequestId,
        counterparty_node_id: PublicKey,
    ) -> (Self, Result<(), LightningError>) {
        if !self.per_peer_state.contains_key(counterparty_node_id) {
            (
                self,
                Err(info(ErrorKind::UnknownPeer { reply: Reply::BuyError, counterparty_node_id })),
            )
        } else {
            let (peer, outcome) = self.per_peer_state[counterparty_node_id].reply_taken(
                request_id,
                Reply::BuyError,
            );
            (
                self.with_peer(counterparty_node_id, peer),
                match outcome {
                    Ok(_) => Ok(()),
                    Err(e) => Err(info(e)),
                },
            )
        }
    }
}

impl LSPS2ClientHandler {
    /// Constructs an `LSPS2ClientHandler`.
    pub fn new(config: LSPS2ClientConfig) -> (handler: Self)
        ensures
            handler@ == (LSPS2ClientHandlerView { per_peer_state: Map::empty(), config }),
    {
        LSPS2ClientHandler { per_peer_state: KeyedMap::new(), config }
    }

    /// Takes out the state of an LSP, or makes one.
    fn take_peer(&mut self, counterparty_node_id: &PublicKey) -> (peer: PeerState)
        ensures
            peer@ == old(self)@.peer(*counterparty_node_id),
            final(self)@ == (LSPS2ClientHandlerView {
                per_peer_state: old(self)@.per_peer_state.remove(*counterparty_node_id),
                ..old(self)@
            }),
    {
        match self.per_peer_state.remove(counterparty_node_id) {
            Some(peer) => peer,
            None => PeerState::new(),
        }
    }

    /// Request the channel opening parameters from the LSP.
    ///
    /// This initiates the JIT-channel flow that, at the end of it, will have the LSP
    /// open a channel with sufficient inbound liquidity to be able to receive the payment.
    ///
    /// The user will receive the LSP's response via an [`OpeningParametersReady`] event.
    ///
    /// `counterparty_node_id` is the `node_id` of the LSP you would like to use.
    ///
    /// `token` is an optional `String` that will be provided to the LSP.
    /// It can be used by the LSP as an API key, coupon code, or some other way to identify a user.
    ///
    /// Returns the used [`RequestId`], which will be returned via [`OpeningParametersReady`]. It is
    /// made of random bytes.
    ///
    /// [`OpeningParametersReady`]: crate::lsps2::event::LSPS2ClientEvent::OpeningParametersReady
    pub fn request_opening_params<MQ: MessageQueue<LSPSMessage>>(
        &mut self,
        counterparty_node_id: PublicKey,
        token: Option<String>,
        request_entropy: &[u8; 32],
        pending_messages: &mut MQ,
    ) -> (request_id: RequestId)
        ensures
            request_id.0@ == request_id_text(request_entropy@),
            final(self)@ == old(self)@.with_peer(
                counterparty_node_id,
                old(self)@.peer(counterparty_node_id).with_info_request(request_id.0@),
            ),
            final(pending_messages).pending() == old(pending_messages).pending().push(
                (
                    counterparty_node_id,
                    LSPSMessage::LSPS2(
                        LSPS2Message::Request(
                            request_id,
                            LSPS2Request::GetInfo(GetInfoRequest { token }),
                        ),
                    ),
                ),
            ),
    {
        let request_id = generate_request_id(request_entropy);
        let mut peer_state = self.take_peer(&counterparty_node_id);
        peer_state.pending_get_info_requests.insert(request_id.clone());
        self.per_peer_state.insert(counterparty_node_id, peer_state);
        pending_messages.enqueue(
            &counterparty_node_id,
            LSPSMessage::from(
                LSPS2Message::Request(
                    request_id.clone(),
                    LSPS2Request::GetInfo(GetInfoRequest { token }),
                ),
            ),
        );
        request_id
    }

    /// Confirms a set of chosen channel opening parameters to use for the JIT channel and
    /// requests the necessary invoice generation parameters from the LSP.
    ///
    /// Should be called in response to receiving a [`OpeningParametersReady`] event.
    ///
    /// The user will receive the LSP's response via an [`InvoiceParametersReady`] event.
    ///
    /// The user needs to provide a locally unique `user_channel_id` which will be used for
    /// tracking the channel state. Where it is in use, the channel starts anew, but no request is
    /// made.
    ///
    /// If `payment_size_msat` is [`Option::Some`] then the invoice will be for a fixed amount
    /// and MPP can be used to pay it.
    ///
    /// If `payment_size_msat` is [`Option::None`] then the invoice can be for an arbitrary amount
    /// but MPP can no longer be used to pay it.
    ///
    /// The client agrees to paying an opening fee equal to
    /// `max(min_fee_msat, proportional*(payment_size_msat/1_000_000))`.
    ///
    /// [`OpeningParametersReady`]: crate::lsps2::event::LSPS2ClientEvent::OpeningParametersReady
    /// [`InvoiceParametersReady`]: crate::lsps2::event::LSPS2ClientEvent::InvoiceParametersReady
    pub fn select_opening_params<MQ: MessageQueue<LSPSMessage>>(
        &mut self,
        counterparty_node_id: PublicKey,
        user_channel_id: u128,
        payment_size_msat: Option<u64>,
        opening_fee_params: OpeningFeeParams,
        request_entropy: &[u8; 32],
        pending_messages: &mut MQ,
    ) -> (result: Result<(), APIError>)
        ensures
            ({
                let peer = old(self)@.peer(counterparty_node_id);
                let started = peer.with_channel(
                    user_channel_id,
                    InboundJITChannel {
                        state: InboundJITChannelState::BuyRequested,
                        user_channel_id,
                        payment_size_msat,
                    },
                );
                if peer.inbound_channels_by_id.contains_key(user_channel_id) {
                    &&& result == Err::<(), APIError>(misuse(ErrorKind::DuplicateUserChannelId))
                    &&& final(self)@ == old(self)@.with_peer(counterparty_node_id, started)
                    &&& final(pending_messages).pending() == old(pending_messages).pending()
                } else {
                    &&& result == Ok::<(), APIError>(())
                    &&& final(self)@ == old(self)@.with_peer(
                        counterparty_node_id,
                        started.with_buy_request(
                            request_id_text(request_entropy@),
                            user_channel_id,
                        ),
                    )
                    &&& request_enqueued(
                        old(pending_messages).pending(),
                        final(pending_messages).pending(),
                        counterparty_node_id,
                        request_entropy@,
                        LSPS2Request::Buy(BuyRequest { opening_fee_params, payment_size_msat }),
                    )
                }
            }),
    {
        let mut peer_state = self.take_peer(&counterparty_node_id);
        let jit_channel = InboundJITChannel::new(user_channel_id, payment_size_msat);
        let replaced = peer_state.inbound_channels_by_id.insert(user_channel_id, jit_channel);
        if replaced.is_some() {
            self.per_peer_state.insert(counterparty_node_id, peer_state);
            return Err(misuse_error(ErrorKind::DuplicateUserChannelId));
        }
        let request_id = generate_request_id(request_entropy);
        peer_state.pending_buy_requests.insert(request_id.clone(), user_channel_id);
        self.per_peer_state.insert(counterparty_node_id, peer_state);
        pending_messages.enqueue(
            &counterparty_node_id,
            LSPSMessage::from(
                LSPS2Message::Request(
                    request_id,
                    LSPS2Request::Buy(BuyRequest { opening_fee_params, payment_size_msat }),
                ),
            ),
        );
        assert(pending_messages.pending().drop_last() =~= old(pending_messages).pending());
        Ok(())
    }

    fn handle_get_info_response(
        &mut self,
        request_id: RequestId,
        counterparty_node_id: &PublicKey,
        response: GetInfoResponse,
        pending_events: &mut EventQueue,
    ) -> (result: Result<(), LightningError>)
        ensures
            (final(self)@, final(pending_events)@, result) == old(self)@.after_info_response(
                old(pending_events)@,
                request_id,
                *counterparty_node_id,
                response,
            ),
    {
        match self.per_peer_state.remove(counterparty_node_id) {
            Some(mut peer_state) => {
                let ghost before = peer_state@;
                let known = peer_state.pending_get_info_requests.remove(&request_id);
                self.per_peer_state.insert(*counterparty_node_id, peer_state);
                if !known {
                    assert(peer_state@.pending_get_info_requests
                        =~= before.pending_get_info_requests);
                    assert(peer_state@ =~= before);
                    assert(self@.per_peer_state =~= old(self)@.per_peer_state);
                    return Err(
                        info_error(
                            ErrorKind::UnknownRequest { reply: Reply::GetInfoResponse, request_id },
                        ),
                    );
                }
                pending_events.enqueue(
                    Event::LSPS2Client(
                        LSPS2ClientEvent::OpeningParametersReady {
                            request_id,
                            counterparty_node_id: *counterparty_node_id,
                            opening_fee_params_menu: response.opening_fee_params_menu,
                            min_payment_size_msat: response.min_payment_size_msat,
                            max_payment_size_msat: response.max_payment_size_msat,
                        },
                    ),
                );
                assert(self@ =~= old(self)@.with_peer(
                    *counterparty_node_id,
                    before.without_info_request(request_id.0@),
                ));
                Ok(())
            },
            None => {
                assert(self@ =~= old(self)@);
                Err(
                    info_error(
                        ErrorKind::UnknownPeer {
                            reply: Reply::GetInfoResponse,
                            counterparty_node_id: *counterparty_node_id,
                        },
                    ),
                )
            },
        }
    }

    fn handle_get_info_error(
        &mut self,
        request_id: RequestId,
        counterparty_node_id: &PublicKey,
        _error: ResponseError,
    ) -> (result: Result<(), LightningError>)
        ensures
            (final(self)@, result) == old(self)@.after_info_error(
                request_id,
                *counterparty_node_id,
            ),
    {
        match self.per_peer_state.remove(counterparty_node_id) {
            Some(mut peer_state) => {
                let ghost before = peer_state@;
                let known = peer_state.pending_get_info_requests.remove(&request_id);
                self.per_peer_state.insert(*counterparty_node_id, peer_state);
                if !known {
                    assert(peer_state@.pending_get_info_requests
                        =~= before.pending_get_info_requests);
                    assert(peer_state@ =~= before);
                    assert(self@.per_peer_state =~= old(self)@.per_peer_state);
                    return Err(
                        info_error(
                            ErrorKind::UnknownRequest { reply: Reply::GetInfoError, request_id },
                        ),
                    );
                }
                assert(self@ =~= old(self)@.with_peer(
                    *counterparty_node_id,
                    before.without_info_request(request_id.0@),
                ));
                Ok(())
            },
            None => {
                assert(self@ =~= old(self)@);
                Err(
                    info_error(
                        ErrorKind::UnknownPeer {
                            reply: Reply::GetInfoError,
                            counterparty_node_id: *counterparty_node_id,
                        },
                    ),
                )
            },
        }
    }

    fn handle_buy_response(
        &mut self,
        request_id: RequestId,
        counterparty_node_id: &PublicKey,
        response: BuyResponse,
        pending_events: &mut EventQueue,
    ) -> (result: Result<(), LightningError>)
        ensures
            (final(self)@, final(pending_events)@, result) == old(self)@.after_buy_response(
                old(pending_events)@,
                request_id,
                *counterparty_node_id,
                response,
            ),
    {
        match self.per_peer_state.remove(counterparty_node_id) {
            Some(mut peer_state) => {
                let ready = peer_state.buy_response(
                    request_id,
                    &response,
                    self.config.client_trusts_lsp,
                );
                self.per_peer_state.insert(*counterparty_node_id, peer_state);
                assert(self@ =~= old(self)@.with_peer(*counterparty_node_id, peer_state@));
                match ready {
                    Ok((intercept_scid, payment_size_msat, user_channel_id)) => {
                        pending_events.enqueue(
                            Event::LSPS2Client(
                                LSPS2ClientEvent::InvoiceParametersReady {
                                    counterparty_node_id: *counterparty_node_id,
                                    intercept_scid,
                                    cltv_expiry_delta: response.lsp_cltv_expiry_delta,
                                    payment_size_msat,
                                    user_channel_id,
                                },
                            ),
                        );
                        Ok(())
                    },
                    Err(e) => Err(e),
                }
            },
            None => {
                assert(self@ =~= old(self)@);
                Err(
                    info_error(
                        ErrorKind::UnknownPeer {
                            reply: Reply::BuyResponse,
                            counterparty_node_id: *counterparty_node_id,
                        },
                    ),
                )
            },
        }
    }

    fn handle_buy_error(
        &mut self,
        request_id: RequestId,
        counterparty_node_id: &PublicKey,
        _error: ResponseError,
    ) -> (result: Result<(), LightningError>)
        ensures
            (final(self)@, result) == old(self)@.after_buy_error(
                request_id,
                *counterparty_node_id,
            ),
    {
        match self.per_peer_state.remove(counterparty_node_id) {
            Some(mut peer_state) => {
                let taken = peer_state.take_reply(request_id, Reply::BuyError);
                self.per_peer_state.insert(*counterparty_node_id, peer_state);
                assert(self@ =~= old(self)@.with_peer(*counterparty_node_id, peer_state@));
                match taken {
                    Ok(_) => Ok(()),
                    Err(e) => Err(info_error(e)),
                }
            },
            None => {
                assert(self@ =~= old(self)@);
                Err(
                    info_error(
                        ErrorKind::UnknownPeer {
                            reply: Reply::BuyError,
                            counterparty_node_id: *counterparty_node_id,
                        },
                    ),
                )
            },
        }
    }

    /// Takes in an LSPS2 message from an LSP.
    pub fn handle_message(
        &mut self,
        message: LSPS2Message,
        counterparty_node_id: &PublicKey,
        pending_events: &mut EventQueue,
    ) -> (result: Result<(), LightningError>)
        ensures
            match message {
                LSPS2Message::Response(request_id, LSPS2Response::GetInfo(response)) => {
                    (final(self)@, final(pending_events)@, result) == old(self)@.after_info_response(
                        old(pending_events)@,
                        request_id,
                        *counterparty_node_id,
                        response,
                    )
                },
                LSPS2Message::Response(request_id, LSPS2Response::GetInfoError(_)) => {
                    &&& final(pending_events)@ == old(pending_events)@
                    &&& (final(self)@, result) == old(self)@.after_info_error(
                        request_id,
                        *counterparty_node_id,
                    )
                },
                LSPS2Message::Response(request_id, LSPS2Response::Buy(response)) => {
                    (final(self)@, final(pending_events)@, result) == old(self)@.after_buy_response(
                        old(pending_events)@,
                        request_id,
                        *counterparty_node_id,
                        response,
                    )
                },
                LSPS2Message::Response(request_id, LSPS2Response::BuyError(_)) => {
                    &&& final(pending_events)@ == old(pending_events)@
                    &&& (final(self)@, result) == old(self)@.after_buy_error(
                        request_id,
                        *counterparty_node_id,
                    )
                },
                LSPS2Message::Request(_, _) => {
                    &&& final(self)@ == old(self)@
                    &&& final(pending_events)@ == old(pending_events)@
                    &&& result == Err::<(), LightningError>(
                        info(
                            ErrorKind::RequestAtClient {
                                protocol: Protocol::LSPS2,
                                counterparty_node_id: *counterparty_node_id,
                            },
                        ),
                    )
                },
            },
    {
        match message {
            LSPS2Message::Response(request_id, response) => match response {
                LSPS2Response::GetInfo(response) => self.handle_get_info_response(
                    request_id,
                    counterparty_node_id,
                    response,
                    pending_events,
                ),
                LSPS2Response::GetInfoError(error) => self.handle_get_info_error(
                    request_id,
                    counterparty_node_id,
                    error,
                ),
                LSPS2Response::Buy(response) => self.handle_buy_response(
                    request_id,
                    counterparty_node_id,
                    response,
                    pending_events,
                ),
                LSPS2Response::BuyError(error) => self.handle_buy_error(
                    request_id,
                    counterparty_node_id,
                    error,
                ),
            },
            LSPS2Message::Request(_, _) => Err(
                info_error(
                    ErrorKind::RequestAtClient {
                        protocol: Protocol::LSPS2,
                        counterparty_node_id: *counterparty_node_id,
                    },
                ),
            ),
        }
    }
}

/// A request for opening parameters is answered once: the first response with the id of the request
/// gives one event, with that id and what the response says. Any later response with that id, whatever
/// it says, belongs to no request and changes nothing.
pub proof fn lemma_opening_params_arrive_once(
    client: LSPS2ClientHandlerView,
    events: Seq<Event>,
    counterparty_node_id: PublicKey,
    request_id: RequestId,
    response: GetInfoResponse,
    later_events: Seq<Event>,
    later_response: GetInfoResponse,
)
    ensures
        ({
            let asked = client.with_peer(
                counterparty_node_id,
                client.peer(counterparty_node_id).with_info_request(request_id.0@),
            );
            let (told, told_events, told_result) = asked.after_info_response(
                events,
                request_id,
                counterparty_node_id,
                response,
            );
            &&& told_result == Ok::<(), LightningError>(())
            &&& told_events == events.push(
                Event::LSPS2Client(
                    LSPS2ClientEvent::OpeningParametersReady {
                        request_id,
                        counterparty_node_id,
                        opening_fee_params_menu: response.opening_fee_params_menu,
                        min_payment_size_msat: response.min_payment_size_msat,
                        max_payment_size_msat: response.max_payment_size_msat,
                    },
                ),
            )
            &&& told.after_info_response(
                later_events,
                request_id,
                counterparty_node_id,
                later_response,
            ) == (
                told,
                later_events,
                Err::<(), LightningError>(
                    info(ErrorKind::UnknownRequest { reply: Reply::GetInfoResponse, request_id }),
                ),
            )
        }),
{
}

/// A channel that was bought with a fresh user channel id awaits payment after the LSP's response,
/// and the user learns the short channel id, the payment size and the user channel id.
pub proof fn lemma_purchase_gives_invoice_parameters(
    client: LSPS2ClientHandlerView,
    events: Seq<Event>,
    counterparty_node_id: PublicKey,
    request_id: RequestId,
    user_channel_id: u128,
    payment_size_msat: Option<u64>,
    response: BuyResponse,
)
    requires
        parsed_scid(response.intercept_scid.0@) is Some,
        response.client_trusts_lsp ==> client.config.client_trusts_lsp,
    ensures
        ({
            let asked = client.with_peer(
                counterparty_node_id,
                client.peer(counterparty_node_id).with_channel(
                    user_channel_id,
                    InboundJITChannel {
                        state: InboundJITChannelState::BuyRequested,
                        user_channel_id,
                        payment_size_msat,
                    },
                ).with_buy_request(request_id.0@, user_channel_id),
            );
            let (bought, told_events, result) = asked.after_buy_response(
                events,
                request_id,
                counterparty_node_id,
                response,
            );
            &&& result == Ok::<(), LightningError>(())
            &&& bought.peer(counterparty_node_id).inbound_channels_by_id.contains_key(
                user_channel_id,
            )
            &&& told_events == events.push(
                Event::LSPS2Client(
                    LSPS2ClientEvent::InvoiceParametersReady {
                        counterparty_node_id,
                        intercept_scid: parsed_scid(response.intercept_scid.0@)->0,
                        cltv_expiry_delta: response.lsp_cltv_expiry_delta,
                        payment_size_msat,
                        user_channel_id,
                    },
                ),
            )
        }),
{
}

/// Without trust in the LSP, a response that requires trust gives no invoice parameters, and the
/// channel is given up.
pub proof fn lemma_trust_is_not_forced(
    client: LSPS2ClientHandlerView,
    events: Seq<Event>,
    counterparty_node_id: PublicKey,
    request_id: RequestId,
    response: BuyResponse,
)
    requires
        !client.config.client_trusts_lsp,
        response.client_trusts_lsp,
    ensures
        ({
            let (after, after_events, result) = client.after_buy_response(
                events,
                request_id,
                counterparty_node_id,
                response,
            );
            &&& result is Err
            &&& after_events == events
            &&& client.peer(counterparty_node_id).pending_buy_requests.contains_key(
                request_id.0@,
            ) ==> !after.peer(counterparty_node_id).inbound_channels_by_id.contains_key(
                client.peer(counterparty_node_id).pending_buy_requests[request_id.0@],
            )
        }),
{
}

/// A menu is shown to the user exactly where it answers a request for one, as the LSP sent it; an error
/// in its place ends the request and shows nothing. Channels and purchases are left alone.
pub proof fn lemma_awaited_menus_are_shown(
    client: LSPS2ClientHandlerView,
    events: Seq<Event>,
    request_id: RequestId,
    node: PublicKey,
    response: GetInfoResponse,
)
    ensures
        ({
            let (after, told, result) = client.after_info_response(
                events,
                request_id,
                node,
                response,
            );
            let (ended, ending) = client.after_info_error(request_id, node);
            let known = client.per_peer_state.contains_key(node);
            let peer = client.per_peer_state[node];
            let asked = known && peer.pending_get_info_requests.contains(request_id.0@);
            &&& result is Ok <==> asked
            &&& ending is Ok <==> asked
            &&& asked ==> {
                let next = after.per_peer_state[node];
                &&& told == events.push(
                    Event::LSPS2Client(
                        LSPS2ClientEvent::OpeningParametersReady {
                            request_id,
                            counterparty_node_id: node,
                            opening_fee_params_menu: response.opening_fee_params_menu,
                            min_payment_size_msat: response.min_payment_size_msat,
                            max_payment_size_msat: response.max_payment_size_msat,
                        },
                    ),
                )
                &&& ended == after
                &&& after.per_peer_state == client.per_peer_state.insert(node, next)
                &&& next.pending_get_info_requests == peer.pending_get_info_requests.remove(
                    request_id.0@,
                )
                &&& next.pending_buy_requests == peer.pending_buy_requests
                &&& next.inbound_channels_by_id == peer.inbound_channels_by_id
            }
            &&& !asked ==> after == client && ended == client && told == events
            &&& known && !asked ==> {
                &&& result->Err_0.err == (ErrorKind::UnknownRequest {
                    reply: Reply::GetInfoResponse,
                    request_id,
                })
                &&& ending->Err_0.err == (ErrorKind::UnknownRequest {
                    reply: Reply::GetInfoError,
                    request_id,
                })
            }
            &&& !known ==> {
                &&& result->Err_0.err == (ErrorKind::UnknownPeer {
                    reply: Reply::GetInfoResponse,
                    counterparty_node_id: node,
                })
                &&& ending->Err_0.err == (ErrorKind::UnknownPeer {
                    reply: Reply::GetInfoError,
                    counterparty_node_id: node,
                })
            }
            &&& after.config == client.config && ended.config == client.config
        }),
{
}

/// The user learns the invoice parameters exactly where the response answers a purchase that is waited
/// for, asks for no more trust than the client grants and carries a valid short channel id. A purchase
/// whose response asks for more trust, or that fails, is given up.
pub proof fn lemma_awaited_purchases_are_shown(
    client: LSPS2ClientHandlerView,
    events: Seq<Event>,
    request_id: RequestId,
    node: PublicKey,
    response: BuyResponse,
)
    ensures
        ({
            let (after, told, result) = client.after_buy_response(
                events,
                request_id,
                node,
                response,
            );
            let (ended, ending) = client.after_buy_error(request_id, node);
            let known = client.per_peer_state.contains_key(node);
            let peer = client.per_peer_state[node];
            let asked = known && peer.pending_buy_requests.contains_key(request_id.0@);
            let id = peer.pending_buy_requests[request_id.0@];
            let found = asked && peer.inbound_channels_by_id.contains_key(id);
            let channel = peer.inbound_channels_by_id[id];
            let trusted = response.client_trusts_lsp ==> client.config.client_trusts_lsp;
            let goes_on = found && channel.state is BuyRequested && trusted;
            let scid = parsed_scid(response.intercept_scid.0@);
            &&& result is Ok <==> goes_on && scid is Some
            &&& result is Ok ==> told == events.push(
                Event::LSPS2Client(
                    LSPS2ClientEvent::InvoiceParametersReady {
                        counterparty_node_id: node,
                        intercept_scid: scid->0,
                        cltv_expiry_delta: response.lsp_cltv_expiry_delta,
                        payment_size_msat: channel.payment_size_msat,
                        user_channel_id: channel.user_channel_id,
                    },
                ),
            )
            &&& result is Err ==> told == events
            &&& goes_on ==> {
                let next = after.per_peer_state[node].inbound_channels_by_id[id];
                &&& after.per_peer_state[node].inbound_channels_by_id
                    == peer.inbound_channels_by_id.insert(id, next)
                &&& next.user_channel_id == channel.user_channel_id
                &&& next.payment_size_msat == channel.payment_size_msat
                &&& next.state is PendingPayment
                &&& next.state->client_trusts_lsp == response.client_trusts_lsp
                &&& next.state->intercept_scid == response.intercept_scid
                &&& scid is None ==> result->Err_0.err == (ErrorKind::InvalidScid {
                    text: response.intercept_scid.0,
                })
            }
            &&& found && !goes_on ==> after.per_peer_state[node].inbound_channels_by_id
                == peer.inbound_channels_by_id.remove(id)
            &&& found && !trusted ==> result->Err_0.err == ErrorKind::TrustNotGranted
            &&& found && trusted && !(channel.state is BuyRequested) ==> result->Err_0.err == (
            ErrorKind::UnexpectedInvoiceParams { state: ChannelState::InboundJIT(channel.state) })
            &&& ending is Ok <==> found
            &&& found ==> ended.per_peer_state[node].inbound_channels_by_id
                == peer.inbound_channels_by_id.remove(id)
            &&& asked ==> {
                &&& after.per_peer_state[node].pending_buy_requests
                    == peer.pending_buy_requests.remove(request_id.0@)
                &&& ended.per_peer_state[node].pending_buy_requests
                    == peer.pending_buy_requests.remove(request_id.0@)
            }
            &&& asked && !found ==> {
                &&& after.per_peer_state[node].inbound_channels_by_id == peer.inbound_channels_by_id
                &&& ended.per_peer_state[node].inbound_channels_by_id == peer.inbound_channels_by_id
                &&& result->Err_0.err == (ErrorKind::UnknownChannel {
                    reply: Reply::BuyResponse,
                    channel_id: id,
                })
                &&& ending->Err_0.err == (ErrorKind::UnknownChannel {
                    reply: Reply::BuyError,
                    channel_id: id,
                })
            }
            &&& known && !asked ==> {
                &&& after.per_peer_state[node] == peer && ended.per_peer_state[node] == peer
                &&& result->Err_0.err == (ErrorKind::UnknownRequest {
                    reply: Reply::BuyResponse,
                    request_id,
                })
                &&& ending->Err_0.err == (ErrorKind::UnknownRequest {
                    reply: Reply::BuyError,
                    request_id,
                })
            }
            &&& known ==> {
                &&& after.per_peer_state == client.per_peer_state.insert(
                    node,
                    after.per_peer_state[node],
                )
                &&& ended.per_peer_state == client.per_peer_state.insert(
                    node,
                    ended.per_peer_state[node],
                )
                &&& after.per_peer_state[node].pending_get_info_requests
                    == peer.pending_get_info_requests
                &&& ended.per_peer_state[node].pending_get_info_requests
                    == peer.pending_get_info_requests
            }
            &&& !known ==> {
                &&& after == client && ended == client
                &&& result->Err_0.err == (ErrorKind::UnknownPeer {
                    reply: Reply::BuyResponse,
                    counterparty_node_id: node,
                })
                &&& ending->Err_0.err == (ErrorKind::UnknownPeer {
                    reply: Reply::BuyError,
                    counterparty_node_id: node,
                })
            }
            &&& after.config == client.config && ended.config == client.config
        }),
{
}

/// A change concerns one LSP, and of that LSP one channel or one request.
pub proof fn lemma_changes_are_local(
    client: LSPS2ClientHandlerView,
    node: PublicKey,
    peer: PeerStateView,
    id: u128,
    channel: InboundJITChannel,
    request_id: Seq<char>,
)
    ensures
        client.with_peer(node, peer).per_peer_state == client.per_peer_state.insert(node, peer),
        client.with_peer(node, peer).config == client.config,
        client.per_peer_state.contains_key(node) ==> client.peer(node)
            == client.per_peer_state[node],
        !client.per_peer_state.contains_key(node) ==> {
            &&& client.peer(node).inbound_channels_by_id == Map::<u128, InboundJITChannel>::empty()
            &&& client.peer(node).pending_get_info_requests == Set::<Seq<char>>::empty()
            &&& client.peer(node).pending_buy_requests == Map::<Seq<char>, u128>::empty()
        },
        peer.with_channel(id, channel).inbound_channels_by_id == peer.inbound_channels_by_id.insert(
            id,
            channel,
        ),
        peer.with_channel(id, channel).pending_get_info_requests == peer.pending_get_info_requests,
        peer.with_channel(id, channel).pending_buy_requests == peer.pending_buy_requests,
        peer.with_info_request(request_id).pending_get_info_requests
            == peer.pending_get_info_requests.insert(request_id),
        peer.with_info_request(request_id).inbound_channels_by_id == peer.inbound_channels_by_id,
        peer.with_info_request(request_id).pending_buy_requests == peer.pending_buy_requests,
        peer.without_info_request(request_id).pending_get_info_requests
            == peer.pending_get_info_requests.remove(request_id),
        peer.without_info_request(request_id).inbound_channels_by_id == peer.inbound_channels_by_id,
        peer.without_info_request(request_id).pending_buy_requests == peer.pending_buy_requests,
        peer.with_buy_request(request_id, id).pending_buy_requests
            == peer.pending_buy_requests.insert(request_id, id),
        peer.with_buy_request(request_id, id).inbound_channels_by_id == peer.inbound_channels_by_id,
        peer.with_buy_request(request_id, id).pending_get_info_requests
            == peer.pending_get_info_requests,
{
}

/// A request is one more message, to the LSP that it is for, under an id made of the given randomness.
pub proof fn lemma_what_is_asked(
    before: Seq<(PublicKey, LSPSMessage)>,
    after: Seq<(PublicKey, LSPSMessage)>,
    node: PublicKey,
    entropy: Seq<u8>,
    request: LSPS2Request,
)
    requires
        request_enqueued(before, after, node, entropy, request),
    ensures
        after.len() == before.len() + 1,
        forall|i: int| 0 <= i < before.len() ==> #[trigger] after[i] == before[i],
        after.last().0 == node,
        after.last().1 matches LSPSMessage::LSPS2(LSPS2Message::Request(id, sent)) && id.0@
            == request_id_text(entropy) && sent == request,
{
    assert forall|i: int| 0 <= i < before.len() implies #[trigger] after[i] == before[i] by {
        assert(after.drop_last()[i] == before[i]);
    }
}

/// Asking for the opening parameters of an LSP sends one request, with the given token, whose id the
/// user gets and whose answer is awaited.
pub proof fn lemma_menus_are_asked_for<MQ: MessageQueue<LSPSMessage>>(
    client: &mut LSPS2ClientHandler,
    node: PublicKey,
    token: Option<String>,
    request_entropy: [u8; 32],
    messages: &mut MQ,
    request_id: RequestId,
)
    requires
        call_ensures(
            LSPS2ClientHandler::request_opening_params::<MQ>,
            (client, node, token, &request_entropy, messages),
            request_id,
        ),
    ensures
        ({
            let before = old(client)@;
            let after = final(client)@;
            let sent = final(messages).pending();
            let next = after.per_peer_state[node];
            &&& request_id.0@ == request_id_text(request_entropy@)
            &&& sent.len() == old(messages).pending().len() + 1
            &&& sent.drop_last() == old(messages).pending()
            &&& sent.last().0 == node
            &&& sent.last().1 matches LSPSMessage::LSPS2(
                LSPS2Message::Request(id, LSPS2Request::GetInfo(asked)),
            ) && id == request_id && asked.token == token
            &&& after.per_peer_state == before.per_peer_state.insert(node, next)
            &&& next.pending_get_info_requests.contains(request_id.0@)
            &&& before.per_peer_state.contains_key(node) ==> {
                let peer = before.per_peer_state[node];
                &&& next.pending_get_info_requests == peer.pending_get_info_requests.insert(
                    request_id.0@,
                )
                &&& next.pending_buy_requests == peer.pending_buy_requests
                &&& next.inbound_channels_by_id == peer.inbound_channels_by_id
            }
            &&& after.config == before.config
        }),
{
}

/// A selection sends one request to buy, with the selected parameters and the given payment size, exactly
/// where its user channel id is not in use. The channel then awaits the answer.
pub proof fn lemma_selections_are_bought<MQ: MessageQueue<LSPSMessage>>(
    client: &mut LSPS2ClientHandler,
    node: PublicKey,
    user_channel_id: u128,
    payment_size_msat: Option<u64>,
    selected: OpeningFeeParams,
    request_entropy: [u8; 32],
    messages: &mut MQ,
    result: Result<(), APIError>,
)
    requires
        call_ensures(
            LSPS2ClientHandler::select_opening_params::<MQ>,
            (
                client,
                node,
                user_channel_id,
                payment_size_msat,
                selected,
                &request_entropy,
                messages,
            ),
            result,
        ),
    ensures
        ({
            let before = old(client)@;
            let after = final(client)@;
            let sent = final(messages).pending();
            let next = after.per_peer_state[node];
            let peer = before.per_peer_state[node];
            let known = before.per_peer_state.contains_key(node);
            let used = known && peer.inbound_channels_by_id.contains_key(user_channel_id);
            let channel = next.inbound_channels_by_id[user_channel_id];
            let request_id = request_id_text(request_entropy@);
            &&& result is Ok <==> !used
            &&& used ==> {
                &&& sent == old(messages).pending()
                &&& result->Err_0->err == ErrorKind::DuplicateUserChannelId
                &&& next.pending_buy_requests == peer.pending_buy_requests
            }
            &&& !used ==> {
                &&& sent.len() == old(messages).pending().len() + 1
                &&& sent.drop_last() == old(messages).pending()
                &&& sent.last().0 == node
                &&& sent.last().1 matches LSPSMessage::LSPS2(
                    LSPS2Message::Request(id, LSPS2Request::Buy(bought)),
                ) && id.0@ == request_id && bought.opening_fee_params == selected
                    && bought.payment_size_msat == payment_size_msat
                &&& next.pending_buy_requests.contains_key(request_id)
                &&& next.pending_buy_requests[request_id] == user_channel_id
            }
            &&& next.inbound_channels_by_id.contains_key(user_channel_id)
            &&& channel.state is BuyRequested
            &&& channel.user_channel_id == user_channel_id
            &&& channel.payment_size_msat == payment_size_msat
            &&& known ==> {
                &&& next.inbound_channels_by_id == peer.inbound_channels_by_id.insert(
                    user_channel_id,
                    channel,
                )
                &&& next.pending_get_info_requests == peer.pending_get_info_requests
                &&& !used ==> next.pending_buy_requests == peer.pending_buy_requests.insert(
                    request_id,
                    user_channel_id,
                )
            }
            &&& after.per_peer_state == before.per_peer_state.insert(node, next)
            &&& after.config == before.config
        }),
{
}

/// The user learns the invoice parameters exactly where the response answers a purchase that is waited
/// for, asks for no more trust than the client grants and carries a valid short channel id.
pub proof fn lemma_purchases_are_taken_in(
    client: &mut LSPS2ClientHandler,
    request_id: RequestId,
    response: BuyResponse,
    node: PublicKey,
    events: &mut EventQueue,
    result: Result<(), LightningError>,
)
    requires
        call_ensures(
            LSPS2ClientHandler::handle_message,
            (
                client,
                LSPS2Message::Response(request_id, LSPS2Response::Buy(response)),
                &node,
                events,
            ),
            result,
        ),
    ensures
        ({
            let before = old(client)@;
            let peer = before.per_peer_state[node];
            let id = peer.pending_buy_requests[request_id.0@];
            let channel = peer.inbound_channels_by_id[id];
            let scid = parsed_scid(response.intercept_scid.0@);
            let accepted = {
                &&& before.per_peer_state.contains_key(node)
                &&& peer.pending_buy_requests.contains_key(request_id.0@)
                &&& peer.inbound_channels_by_id.contains_key(id)
                &&& channel.state is BuyRequested
                &&& response.client_trusts_lsp ==> before.config.client_trusts_lsp
                &&& scid is Some
            };
            &&& result is Ok <==> accepted
            &&& accepted ==> final(events)@ == old(events)@.push(
                Event::LSPS2Client(
                    LSPS2ClientEvent::InvoiceParametersReady {
                        counterparty_node_id: node,
                        intercept_scid: scid->0,
                        cltv_expiry_delta: response.lsp_cltv_expiry_delta,
                        payment_size_msat: channel.payment_size_msat,
                        user_channel_id: channel.user_channel_id,
                    },
                ),
            )
            &&& !accepted ==> final(events)@ == old(events)@
        }),
{
}

/// What the other messages of a peer lead to: each reply goes to the step that takes in what it says, and
/// a client takes in no requests.
pub proof fn lemma_other_messages_at_the_client(
    client: &mut LSPS2ClientHandler,
    message: LSPS2Message,
    node: PublicKey,
    events: &mut EventQueue,
    result: Result<(), LightningError>,
)
    requires
        call_ensures(LSPS2ClientHandler::handle_message, (client, message, &node, events), result),
    ensures
        ({
            let before = old(client)@;
            let after = final(client)@;
            let told = final(events)@;
            match message {
                LSPS2Message::Response(request_id, LSPS2Response::GetInfo(response)) => {
                    (after, told, result) == before.after_info_response(
                        old(events)@,
                        request_id,
                        node,
                        response,
                    )
                },
                LSPS2Message::Response(request_id, LSPS2Response::GetInfoError(_)) => {
                    &&& told == old(events)@
                    &&& (after, result) == before.after_info_error(request_id, node)
                },
                LSPS2Message::Response(request_id, LSPS2Response::Buy(response)) => {
                    (after, told, result) == before.after_buy_response(
                        old(events)@,
                        request_id,
                        node,
                        response,
                    )
                },
                LSPS2Message::Response(request_id, LSPS2Response::BuyError(_)) => {
                    &&& told == old(events)@
                    &&& (after, result) == before.after_buy_error(request_id, node)
                },
                LSPS2Message::Request(_, _) => {
                    &&& after == before
                    &&& told == old(events)@
                    &&& result is Err
                    &&& result->Err_0.err == (ErrorKind::RequestAtClient {
                        protocol: Protocol::LSPS2,
                        counterparty_node_id: node,
                    })
                },
            }
        }),
{
}

/// A new client has asked nothing yet, and keeps its configuration. By default it trusts the LSP.
pub proof fn lemma_clients_start_empty(
    config: LSPS2ClientConfig,
    client: LSPS2ClientHandler,
    unconfigured: LSPS2ClientConfig,
)
    requires
        call_ensures(LSPS2ClientHandler::new, (config, ), client),
        call_ensures(<LSPS2ClientConfig as Default>::default, (), unconfigured),
    ensures
        unconfigured.client_trusts_lsp,
        forall|node: PublicKey| !#[trigger] client@.per_peer_state.contains_key(node),
        client@.config.client_trusts_lsp == config.client_trusts_lsp,
{
}

} // verus!
