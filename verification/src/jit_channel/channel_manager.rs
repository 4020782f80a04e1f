//! The state of JIT channels that are being negotiated, as client and as LSP.

use vstd::prelude::*;

use crate::collections::KeyedMap;
use crate::errors::{
    info, info_error, misuse, misuse_error, APIError, ChannelState, ChannelStateError, ErrorKind,
    LightningError, PeerRequest, Reply,
};
use crate::events::{Event, EventQueue};
use crate::jit_channel::msgs::{
    menu_promised_as, menu_response, promise_menu, scid_response, BuyRequest, BuyResponse,
    GetInfoRequest, GetInfoResponse, GetVersionsRequest, GetVersionsResponse, JitChannelScid,
    Message, OpeningFeeParams, RawOpeningFeeParams, Request, Response,
};
use crate::jit_channel::utils::{
    compute_opening_fee, is_least_fee, is_valid_opening_fee_params, lemma_opening_fee_is_least,
    not_past, opening_fee, promise_text, rfc3339_seconds,
};
use crate::lsps0::msgs::{RequestId, ResponseError};
use crate::lsps1::msgs::clone_text;
use crate::lsps2::event::LSPS2Event;
use crate::types::{InterceptId, PublicKey};
use crate::utils::{
    be_value, generate_channel_id, generate_request_id, parsed_scid, request_id_text, scid_text,
};
use crate::versioned_msgs::{
    find_max_shared_version, max_shared_version, supported_versions, LSPSMessage,
};

verus! {

/// What the user asked for when requesting a JIT channel.
#[derive(Debug, PartialEq, Eq)]
pub struct InboundJITChannelConfig {
    pub user_id: u128,
    pub token: Option<String>,
    pub payment_size_msat: Option<u64>,
}

/// How far the negotiation of a channel to us has come.
#[derive(Debug, PartialEq, Eq)]
pub enum InboundJITChannelState {
    VersionsRequested,
    MenuRequested { version: u16 },
    PendingMenuSelection { version: u16 },
    BuyRequested { version: u16 },
    PendingPayment { client_trusts_lsp: bool, short_channel_id: JitChannelScid },
}

impl InboundJITChannelState {
    /// Tells the state in an error.
    fn channel_state(&self) -> (state: ChannelState)
        ensures
            state == ChannelState::VersionedInboundJIT(*self),
    {
        ChannelState::VersionedInboundJIT(
            match self {
                InboundJITChannelState::VersionsRequested => InboundJITChannelState::VersionsRequested,
                InboundJITChannelState::MenuRequested { version } => InboundJITChannelState::MenuRequested {
                    version: *version,
                },
                InboundJITChannelState::PendingMenuSelection { version } => {
                    InboundJITChannelState::PendingMenuSelection { version: *version }
                },
                InboundJITChannelState::BuyRequested { version } => InboundJITChannelState::BuyRequested {
                    version: *version,
                },
                InboundJITChannelState::PendingPayment { client_trusts_lsp, short_channel_id } => {
                    InboundJITChannelState::PendingPayment {
                        client_trusts_lsp: *client_trusts_lsp,
                        short_channel_id: short_channel_id.clone(),
                    }
                },
            },
        )
    }

    /// The state after the LSP has listed its versions.
    pub open spec fn after_versions(self, versions: Vec<u16>) -> Result<Self, ErrorKind> {
        match max_shared_version(versions@) {
            Some(version) => if self is VersionsRequested {
                Ok(InboundJITChannelState::MenuRequested { version })
            } else {
                Err(
                    ErrorKind::UnexpectedVersions { state: ChannelState::VersionedInboundJIT(self) },
                )
            },
            None => Err(ErrorKind::NoSharedVersion { theirs: versions }),
        }
    }

    /// Goes on from the versions that the LSP has listed.
    pub fn versions_received(&self, versions: Vec<u16>) -> (next: Result<Self, ChannelStateError>)
        ensures
            next == (match self.after_versions(versions) {
                Ok(state) => Ok(state),
                Err(e) => Err(ChannelStateError(e)),
            }),
    {
        match find_max_shared_version(&versions) {
            Some(version) => match self {
                InboundJITChannelState::VersionsRequested => Ok(
                    InboundJITChannelState::MenuRequested { version },
                ),
                _ => Err(
                    ChannelStateError(ErrorKind::UnexpectedVersions { state: self.channel_state() }),
                ),
            },
            None => Err(ChannelStateError(ErrorKind::NoSharedVersion { theirs: versions })),
        }
    }

    /// The state after the LSP has sent its menu.
    pub open spec fn after_info(self) -> Result<Self, ErrorKind> {
        match self {
            InboundJITChannelState::MenuRequested { version } => Ok(
                InboundJITChannelState::PendingMenuSelection { version },
            ),
            _ => Err(ErrorKind::UnexpectedInfo { state: ChannelState::VersionedInboundJIT(self) }),
        }
    }

    /// Goes on from the menu that the LSP has sent.
    pub fn info_received(&self) -> (next: Result<Self, ChannelStateError>)
        ensures
            next == (match self.after_info() {
                Ok(state) => Ok(state),
                Err(e) => Err(ChannelStateError(e)),
            }),
    {
        match self {
            InboundJITChannelState::MenuRequested { version } => Ok(
                InboundJITChannelState::PendingMenuSelection { version: *version },
            ),
            _ => Err(ChannelStateError(ErrorKind::UnexpectedInfo { state: self.channel_state() })),
        }
    }

    /// The state after the user has selected from the menu.
    pub open spec fn after_selection(self) -> Result<Self, ErrorKind> {
        match self {
            InboundJITChannelState::PendingMenuSelection { version } => Ok(
                InboundJITChannelState::BuyRequested { version },
            ),
            _ => Err(
                ErrorKind::UnexpectedSelection { state: ChannelState::VersionedInboundJIT(self) },
            ),
        }
    }

    /// Goes on from the user's selection.
    pub fn opening_fee_params_selected(&self) -> (next: Result<Self, ChannelStateError>)
        ensures
            next == (match self.after_selection() {
                Ok(state) => Ok(state),
                Err(e) => Err(ChannelStateError(e)),
            }),
    {
        match self {
            InboundJITChannelState::PendingMenuSelection { version } => Ok(
                InboundJITChannelState::BuyRequested { version: *version },
            ),
            _ => Err(
                ChannelStateError(ErrorKind::UnexpectedSelection { state: self.channel_state() }),
            ),
        }
    }

    /// The state after the LSP has sent what the invoice needs.
    pub open spec fn after_invoice_params(
        self,
        client_trusts_lsp: bool,
        short_channel_id: JitChannelScid,
    ) -> Result<Self, ErrorKind> {
        if self is BuyRequested {
            Ok(InboundJITChannelState::PendingPayment { client_trusts_lsp, short_channel_id })
        } else {
            Err(
                ErrorKind::UnexpectedInvoiceParams { state: ChannelState::VersionedInboundJIT(self) },
            )
        }
    }

    /// Goes on from what the LSP has sent for the invoice.
    pub fn invoice_params_received(
        &self,
        client_trusts_lsp: bool,
        short_channel_id: JitChannelScid,
    ) -> (next: Result<Self, ChannelStateError>)
        ensures
            next == (match self.after_invoice_params(client_trusts_lsp, short_channel_id) {
                Ok(state) => Ok(state),
                Err(e) => Err(ChannelStateError(e)),
            }),
    {
        match self {
            InboundJITChannelState::BuyRequested { .. } => Ok(
                InboundJITChannelState::PendingPayment { client_trusts_lsp, short_channel_id },
            ),
            _ => Err(
                ChannelStateError(ErrorKind::UnexpectedInvoiceParams { state: self.channel_state() }),
            ),
        }
    }
}

/// A channel that an LSP is to open to us.
#[derive(Debug, PartialEq, Eq)]
pub struct InboundJITChannel {
    pub id: u128,
    pub state: InboundJITChannelState,
    pub config: InboundJITChannelConfig,
}

impl View for InboundJITChannel {
    type V = InboundJITChannel;

    open spec fn view(&self) -> InboundJITChannel {
        *self
    }
}

impl InboundJITChannel {
    /// Creates a channel for which the LSP's versions have been requested.
    pub fn new(
        id: u128,
        user_id: u128,
        payment_size_msat: Option<u64>,
        token: Option<String>,
    ) -> (channel: Self)
        ensures
            channel == (InboundJITChannel {
                id,
                state: InboundJITChannelState::VersionsRequested,
                config: InboundJITChannelConfig { user_id, token, payment_size_msat },
            }),
    {
        InboundJITChannel {
            id,
            config: InboundJITChannelConfig { user_id, payment_size_msat, token },
            state: InboundJITChannelState::VersionsRequested,
        }
    }

    /// Goes on from the versions that the LSP has listed, and returns the shared version.
    pub fn versions_received(&mut self, versions: Vec<u16>) -> (version: Result<
        u16,
        LightningError,
    >)
        ensures
            match old(self).state.after_versions(versions) {
                Ok(state) => *final(self) == (InboundJITChannel { state, ..*old(self) })
                    && version == Ok::<u16, LightningError>(state->MenuRequested_version),
                Err(e) => *final(self) == *old(self) && version == Err::<u16, LightningError>(
                    info(e),
                ),
            },
    {
        match self.state.versions_received(versions) {
            Ok(state) => {
                let version: u16 = match &state {
                    InboundJITChannelState::MenuRequested { version } => *version,
                    _ => vstd::pervasive::unreached(),
                };
                self.state = state;
                Ok(version)
            },
            Err(e) => Err(LightningError::from(e)),
        }
    }

    /// Goes on from the menu that the LSP has sent.
    pub fn info_received(&mut self) -> (result: Result<(), LightningError>)
        ensures
            match old(self).state.after_info() {
                Ok(state) => *final(self) == (InboundJITChannel { state, ..*old(self) })
                    && result == Ok::<(), LightningError>(()),
                Err(e) => *final(self) == *old(self) && result == Err::<(), LightningError>(
                    info(e),
                ),
            },
    {
        match self.state.info_received() {
            Ok(state) => {
                self.state = state;
                Ok(())
            },
            Err(e) => Err(LightningError::from(e)),
        }
    }

    /// Goes on from the user's selection, and returns the version in use.
    pub fn opening_fee_params_selected(&mut self) -> (version: Result<u16, LightningError>)
        ensures
            match old(self).state.after_selection() {
                Ok(state) => *final(self) == (InboundJITChannel { state, ..*old(self) })
                    && version == Ok::<u16, LightningError>(state->BuyRequested_version),
                Err(e) => *final(self) == *old(self) && version == Err::<u16, LightningError>(
                    info(e),
                ),
            },
    {
        match self.state.opening_fee_params_selected() {
            Ok(state) => {
                let version: u16 = match &state {
                    InboundJITChannelState::BuyRequested { version } => *version,
                    _ => vstd::pervasive::unreached(),
                };
                self.state = state;
                Ok(version)
            },
            Err(e) => Err(LightningError::from(e)),
        }
    }

    /// Goes on from what the LSP has sent for the invoice.
    pub fn invoice_params_received(
        &mut self,
        client_trusts_lsp: bool,
        jit_channel_scid: JitChannelScid,
    ) -> (result: Result<(), LightningError>)
        ensures
            match old(self).state.after_invoice_params(client_trusts_lsp, jit_channel_scid) {
                Ok(state) => *final(self) == (InboundJITChannel { state, ..*old(self) })
                    && result == Ok::<(), LightningError>(()),
                Err(e) => *final(self) == *old(self) && result == Err::<(), LightningError>(
                    info(e),
                ),
            },
    {
        match self.state.invoice_params_received(client_trusts_lsp, jit_channel_scid) {
            Ok(state) => {
                self.state = state;
                Ok(())
            },
            Err(e) => Err(LightningError::from(e)),
        }
    }
}

/// How far the opening of a channel to a client has come.
#[derive(Debug, PartialEq, Eq)]
pub enum OutboundJITChannelState {
    InvoiceParametersGenerated {
        short_channel_id: u64,
        cltv_expiry_delta: u32,
        payment_size_msat: Option<u64>,
        opening_fee_params: OpeningFeeParams,
    },
    PendingChannelOpen { intercept_id: InterceptId, opening_fee_msat: u64, amt_to_forward_msat: u64 },
    ChannelReady { intercept_id: InterceptId, amt_to_forward_msat: u64 },
}

impl OutboundJITChannelState {
    /// Tells the state in an error.
    fn channel_state(&self) -> (state: ChannelState)
        ensures
            state == ChannelState::SingleOutboundJIT(*self),
    {
        ChannelState::SingleOutboundJIT(
            match self {
                OutboundJITChannelState::InvoiceParametersGenerated {
                    short_channel_id,
                    cltv_expiry_delta,
                    payment_size_msat,
                    opening_fee_params,
                } => OutboundJITChannelState::InvoiceParametersGenerated {
                    short_channel_id: *short_channel_id,
                    cltv_expiry_delta: *cltv_expiry_delta,
                    payment_size_msat: *payment_size_msat,
                    opening_fee_params: opening_fee_params.clone(),
                },
                OutboundJITChannelState::PendingChannelOpen {
                    intercept_id,
                    opening_fee_msat,
                    amt_to_forward_msat,
                } => OutboundJITChannelState::PendingChannelOpen {
                    intercept_id: *intercept_id,
                    opening_fee_msat: *opening_fee_msat,
                    amt_to_forward_msat: *amt_to_forward_msat,
                },
                OutboundJITChannelState::ChannelReady { intercept_id, amt_to_forward_msat } => {
                    OutboundJITChannelState::ChannelReady {
                        intercept_id: *intercept_id,
                        amt_to_forward_msat: *amt_to_forward_msat,
                    }
                },
            },
        )
    }

    /// Creates the state of a channel for which a payment is awaited.
    pub fn new(
        short_channel_id: u64,
        cltv_expiry_delta: u32,
        payment_size_msat: Option<u64>,
        opening_fee_params: OpeningFeeParams,
    ) -> (state: Self)
        ensures
            state == (OutboundJITChannelState::InvoiceParametersGenerated {
                short_channel_id,
                cltv_expiry_delta,
                payment_size_msat,
                opening_fee_params,
            }),
    {
        OutboundJITChannelState::InvoiceParametersGenerated {
            short_channel_id,
            cltv_expiry_delta,
            payment_size_msat,
            opening_fee_params,
        }
    }

    /// Whether an HTLC of the given amount can pay the opening fee that it owes.
    pub open spec fn fee_covered(self, expected_outbound_amount_msat: u64) -> bool {
        match self {
            OutboundJITChannelState::InvoiceParametersGenerated { opening_fee_params, .. } => {
                match opening_fee(
                    expected_outbound_amount_msat,
                    opening_fee_params.min_fee_msat,
                    opening_fee_params.proportional as u64,
                ) {
                    Some(fee) => fee <= expected_outbound_amount_msat,
                    None => true,
                }
            },
            _ => true,
        }
    }

    /// The state after an HTLC was intercepted.
    pub open spec fn after_htlc(
        self,
        expected_outbound_amount_msat: u64,
        intercept_id: InterceptId,
    ) -> Result<Self, ErrorKind> {
        match self {
            OutboundJITChannelState::InvoiceParametersGenerated { opening_fee_params, .. } => {
                match opening_fee(
                    expected_outbound_amount_msat,
                    opening_fee_params.min_fee_msat,
                    opening_fee_params.proportional as u64,
                ) {
                    Some(fee) => Ok(
                        OutboundJITChannelState::PendingChannelOpen {
                            intercept_id,
                            opening_fee_msat: fee,
                            amt_to_forward_msat: (expected_outbound_amount_msat - fee) as u64,
                        },
                    ),
                    None => Err(
                        ErrorKind::OpeningFeeOverflow {
                            min_fee_msat: opening_fee_params.min_fee_msat,
                            proportional: opening_fee_params.proportional,
                            expected_outbound_amount_msat,
                        },
                    ),
                }
            },
            _ => Err(ErrorKind::UnexpectedHtlc { state: ChannelState::SingleOutboundJIT(self) }),
        }
    }

    /// Returns whether an HTLC of the given amount can pay the opening fee that it owes.
    pub fn covers_fee(&self, expected_outbound_amount_msat: u64) -> (covered: bool)
        ensures
            covered == self.fee_covered(expected_outbound_amount_msat),
    {
        match self {
            OutboundJITChannelState::InvoiceParametersGenerated { opening_fee_params, .. } => {
                match compute_opening_fee(
                    expected_outbound_amount_msat,
                    opening_fee_params.min_fee_msat,
                    opening_fee_params.proportional as u64,
                ) {
                    Some(fee) => fee <= expected_outbound_amount_msat,
                    None => true,
                }
            },
            _ => true,
        }
    }

    /// Goes on from an intercepted HTLC.
    pub fn htlc_intercepted(
        &self,
        expected_outbound_amount_msat: u64,
        intercept_id: InterceptId,
    ) -> (next: Result<Self, ChannelStateError>)
        requires
            self.fee_covered(expected_outbound_amount_msat),
        ensures
            next == (match self.after_htlc(expected_outbound_amount_msat, intercept_id) {
                Ok(state) => Ok(state),
                Err(e) => Err(ChannelStateError(e)),
            }),
    {
        match self {
            OutboundJITChannelState::InvoiceParametersGenerated { opening_fee_params, .. } => {
                match compute_opening_fee(
                    expected_outbound_amount_msat,
                    opening_fee_params.min_fee_msat,
                    opening_fee_params.proportional as u64,
                ) {
                    Some(opening_fee_msat) => Ok(
                        OutboundJITChannelState::PendingChannelOpen {
                            intercept_id,
                            opening_fee_msat,
                            amt_to_forward_msat: expected_outbound_amount_msat - opening_fee_msat,
                        },
                    ),
                    None => Err(
                        ChannelStateError(
                            ErrorKind::OpeningFeeOverflow {
                                min_fee_msat: opening_fee_params.min_fee_msat,
                                proportional: opening_fee_params.proportional,
                                expected_outbound_amount_msat,
                            },
                        ),
                    ),
                }
            },
            _ => Err(ChannelStateError(ErrorKind::UnexpectedHtlc { state: self.channel_state() })),
        }
    }

    /// The state after the channel became ready.
    pub open spec fn after_ready(self) -> Result<Self, ErrorKind> {
        match self {
            OutboundJITChannelState::PendingChannelOpen {
                intercept_id,
                amt_to_forward_msat,
                ..
            } => Ok(OutboundJITChannelState::ChannelReady { intercept_id, amt_to_forward_msat }),
            _ => Err(
                ErrorKind::UnexpectedChannelReady { state: ChannelState::SingleOutboundJIT(self) },
            ),
        }
    }

    /// Goes on from the channel being ready.
    pub fn channel_ready(&self) -> (next: Result<Self, ChannelStateError>)
        ensures
            next == (match self.after_ready() {
                Ok(state) => Ok(state),
                Err(e) => Err(ChannelStateError(e)),
            }),
    {
        match self {
            OutboundJITChannelState::PendingChannelOpen {
                intercept_id,
                amt_to_forward_msat,
                ..
            } => Ok(
                OutboundJITChannelState::ChannelReady {
                    intercept_id: *intercept_id,
                    amt_to_forward_msat: *amt_to_forward_msat,
                },
            ),
            _ => Err(
                ChannelStateError(ErrorKind::UnexpectedChannelReady { state: self.channel_state() }),
            ),
        }
    }
}

/// A channel that we are to open to a client.
#[derive(Debug, PartialEq, Eq)]
pub struct OutboundJITChannel {
    pub state: OutboundJITChannelState,
}

impl View for OutboundJITChannel {
    type V = OutboundJITChannel;

    open spec fn view(&self) -> OutboundJITChannel {
        *self
    }
}

impl OutboundJITChannel {
    /// Creates a channel for which a payment is awaited.
    pub fn new(
        scid: u64,
        cltv_expiry_delta: u32,
        payment_size_msat: Option<u64>,
        opening_fee_params: OpeningFeeParams,
    ) -> (channel: Self)
        ensures
            channel.state == (OutboundJITChannelState::InvoiceParametersGenerated {
                short_channel_id: scid,
                cltv_expiry_delta,
                payment_size_msat,
                opening_fee_params,
            }),
    {
        OutboundJITChannel {
            state: OutboundJITChannelState::new(
                scid,
                cltv_expiry_delta,
                payment_size_msat,
                opening_fee_params,
            ),
        }
    }

    /// Goes on from an intercepted HTLC, and returns the opening fee and the amount to forward.
    pub fn htlc_intercepted(
        &mut self,
        expected_outbound_amount_msat: u64,
        intercept_id: InterceptId,
    ) -> (amounts: Result<(u64, u64), LightningError>)
        requires
            old(self).state.fee_covered(expected_outbound_amount_msat),
        ensures
            match old(self).state.after_htlc(expected_outbound_amount_msat, intercept_id) {
                Ok(state) => final(self).state == state && amounts == Ok::<
                    (u64, u64),
                    LightningError,
                >(
                    (
                        state->PendingChannelOpen_opening_fee_msat,
                        state->PendingChannelOpen_amt_to_forward_msat,
                    ),
                ),
                Err(e) => *final(self) == *old(self) && amounts == Err::<
                    (u64, u64),
                    LightningError,
                >(info(e)),
            },
    {
        match self.state.htlc_intercepted(expected_outbound_amount_msat, intercept_id) {
            Ok(state) => {
                let amounts = match &state {
                    OutboundJITChannelState::PendingChannelOpen {
                        opening_fee_msat,
                        amt_to_forward_msat,
                        ..
                    } => (*opening_fee_msat, *amt_to_forward_msat),
                    _ => vstd::pervasive::unreached(),
                };
                self.state = state;
                Ok(amounts)
            },
            Err(e) => Err(LightningError::from(e)),
        }
    }

    /// Goes on from the channel being ready, and returns which HTLC to forward with what amount.
    pub fn channel_ready(&mut self) -> (forward: Result<(InterceptId, u64), LightningError>)
        ensures
            match old(self).state.after_ready() {
                Ok(state) => final(self).state == state && forward == Ok::<
                    (InterceptId, u64),
                    LightningError,
                >(
                    (
                        state->ChannelReady_intercept_id,
                        state->ChannelReady_amt_to_forward_msat,
                    ),
                ),
                Err(e) => *final(self) == *old(self) && forward == Err::<
                    (InterceptId, u64),
                    LightningError,
                >(info(e)),
            },
    {
        match self.state.channel_ready() {
            Ok(state) => {
                let forward = match &state {
                    OutboundJITChannelState::ChannelReady { intercept_id, amt_to_forward_msat } => (
                        *intercept_id,
                        *amt_to_forward_msat,
                    ),
                    _ => vstd::pervasive::unreached(),
                };
                self.state = state;
                Ok(forward)
            },
            Err(e) => Err(LightningError::from(e)),
        }
    }
}

/// The negotiations with one peer.
pub struct PeerState {
    pub inbound_channels_by_id: KeyedMap<u128, InboundJITChannel>,
    pub outbound_channels_by_scid: KeyedMap<u64, OutboundJITChannel>,
    pub request_to_cid: KeyedMap<RequestId, u128>,
    pub pending_requests: KeyedMap<RequestId, Request>,
}

/// The contents of a [`PeerState`].
#[verifier::ext_equal]
pub struct PeerStateView {
    pub inbound_channels_by_id: Map<u128, InboundJITChannel>,
    pub outbound_channels_by_scid: Map<u64, OutboundJITChannel>,
    pub request_to_cid: Map<Seq<char>, u128>,
    pub pending_requests: Map<Seq<char>, Request>,
}

impl View for PeerState {
    type V = PeerStateView;

    open spec fn view(&self) -> PeerStateView {
        PeerStateView {
            inbound_channels_by_id: self.inbound_channels_by_id@,
            outbound_channels_by_scid: self.outbound_channels_by_scid@,
            request_to_cid: self.request_to_cid@,
            pending_requests: self.pending_requests@,
        }
    }
}

impl PeerStateView {
    /// No negotiation at all.
    pub open spec fn empty() -> Self {
        PeerStateView {
            inbound_channels_by_id: Map::empty(),
            outbound_channels_by_scid: Map::empty(),
            request_to_cid: Map::empty(),
            pending_requests: Map::empty(),
        }
    }

    /// With a channel to us added or replaced.
    pub open spec fn with_inbound(self, id: u128, channel: InboundJITChannel) -> Self {
        PeerStateView {
            inbound_channels_by_id: self.inbound_channels_by_id.insert(id, channel),
            ..self
        }
    }

    /// With a channel to the peer added or replaced.
    pub open spec fn with_outbound(self, scid: u64, channel: OutboundJITChannel) -> Self {
        PeerStateView {
            outbound_channels_by_scid: self.outbound_channels_by_scid.insert(scid, channel),
            ..self
        }
    }

    /// With a request of ours that concerns a channel.
    pub open spec fn with_request(self, request_id: Seq<char>, id: u128) -> Self {
        PeerStateView { request_to_cid: self.request_to_cid.insert(request_id, id), ..self }
    }

    /// With a request of the peer that awaits our answer.
    pub open spec fn with_pending(self, request_id: Seq<char>, request: Request) -> Self {
        PeerStateView {
            pending_requests: self.pending_requests.insert(request_id, request),
            ..self
        }
    }

    /// Without a request of the peer.
    pub open spec fn without_pending(self, request_id: Seq<char>) -> Self {
        PeerStateView { pending_requests: self.pending_requests.remove(request_id), ..self }
    }

    /// A reply ends its request and takes out the channel that the request concerns.
    pub open spec fn reply_taken(self, request_id: RequestId, reply: Reply) -> (
        PeerStateView,
        Result<(u128, InboundJITChannel), ErrorKind>,
    ) {
        if !self.request_to_cid.contains_key(request_id.0@) {
            (self, Err(ErrorKind::UnknownRequest { reply, request_id }))
        } else {
            let id = self.request_to_cid[request_id.0@];
            let ended = PeerStateView {
                request_to_cid: self.request_to_cid.remove(request_id.0@),
                ..self
            };
            if !self.inbound_channels_by_id.contains_key(id) {
                (ended, Err(ErrorKind::UnknownChannel { reply, channel_id: id }))
            } else {
                (
                    PeerStateView {
                        inbound_channels_by_id: self.inbound_channels_by_id.remove(id),
                        ..ended
                    },
                    Ok((id, self.inbound_channels_by_id[id])),
                )
            }
        }
    }

    /// What a `get_versions` response leads to: the next request, for the shared version and with
    /// the user's token.
    pub open spec fn versions_step(
        self,
        request_id: RequestId,
        versions: Vec<u16>,
        next_request_id: Seq<char>,
    ) -> (PeerStateView, Result<GetInfoRequest, ErrorKind>) {
        match self.reply_taken(request_id, Reply::GetVersionsResponse) {
            (peer, Ok((id, channel))) => match channel.state.after_versions(versions) {
                Ok(state) => (
                    peer.with_inbound(id, InboundJITChannel { state, ..channel }).with_request(
                        next_request_id,
                        id,
                    ),
                    Ok(
                        GetInfoRequest {
                            version: state->MenuRequested_version,
                            token: channel.config.token,
                        },
                    ),
                ),
                Err(e) => (peer, Err(e)),
            },
            (peer, Err(e)) => (peer, Err(e)),
        }
    }

    /// What a `get_info` response leads to: the channel with the menu pending.
    pub open spec fn info_step(self, request_id: RequestId) -> (
        PeerStateView,
        Result<InboundJITChannel, ErrorKind>,
    ) {
        match self.reply_taken(request_id, Reply::GetInfoResponse) {
            (peer, Ok((id, channel))) => match channel.state.after_info() {
                Ok(state) => {
                    let next = InboundJITChannel { state, ..channel };
                    (peer.with_inbound(id, next), Ok(next))
                },
                Err(e) => (peer, Err(e)),
            },
            (peer, Err(e)) => (peer, Err(e)),
        }
    }

    /// What an error leads to: the channel is given up.
    pub open spec fn error_step(self, request_id: RequestId, reply: Reply) -> (
        PeerStateView,
        Result<(), ErrorKind>,
    ) {
        match self.reply_taken(request_id, reply) {
            (peer, Ok(_)) => (peer, Ok(())),
            (peer, Err(e)) => (peer, Err(e)),
        }
    }

    /// What a `buy` response leads to: the channel awaits payment to the short channel id.
    pub open spec fn buy_step(self, request_id: RequestId, result: BuyResponse) -> (
        PeerStateView,
        Result<(u64, InboundJITChannel), ErrorKind>,
    ) {
        match self.reply_taken(request_id, Reply::BuyResponse) {
            (peer, Ok((id, channel))) => match channel.state.after_invoice_params(
                result.client_trusts_lsp,
                result.jit_channel_scid,
            ) {
                Ok(state) => {
                    let next = InboundJITChannel { state, ..channel };
                    (
                        peer.with_inbound(id, next),
                        match parsed_scid(result.jit_channel_scid.0@) {
                            Some(scid) => Ok((scid, next)),
                            None => Err(ErrorKind::InvalidScid { text: result.jit_channel_scid.0 }),
                        },
                    )
                },
                Err(e) => (peer, Err(e)),
            },
            (peer, Err(e)) => (peer, Err(e)),
        }
    }

    /// What the user's selection leads to: the `buy` request.
    pub open spec fn selection_step(
        self,
        id: u128,
        opening_fee_params: OpeningFeeParams,
        next_request_id: Seq<char>,
    ) -> (PeerStateView, Result<BuyRequest, ErrorKind>) {
        if !self.inbound_channels_by_id.contains_key(id) {
            (self, Err(ErrorKind::ChannelNotFound { channel_id: id }))
        } else {
            let channel = self.inbound_channels_by_id[id];
            match channel.state.after_selection() {
                Ok(state) => (
                    self.with_inbound(id, InboundJITChannel { state, ..channel }).with_request(
                        next_request_id,
                        id,
                    ),
                    Ok(
                        BuyRequest {
                            version: state->BuyRequested_version,
                            opening_fee_params,
                            payment_size_msat: channel.config.payment_size_msat,
                        },
                    ),
                ),
                Err(e) => (
                    PeerStateView {
                        inbound_channels_by_id: self.inbound_channels_by_id.remove(id),
                        ..self
                    },
                    Err(e),
                ),
            }
        }
    }
}

impl PeerState {
    /// Creates the state of a peer with whom nothing is negotiated.
    pub fn new() -> (peer: Self)
        ensures
            peer@ == PeerStateView::empty(),
    {
        PeerState {
            inbound_channels_by_id: KeyedMap::new(),
            outbound_channels_by_scid: KeyedMap::new(),
            request_to_cid: KeyedMap::new(),
            pending_requests: KeyedMap::new(),
        }
    }

    /// Adds or replaces a channel to us.
    pub fn insert_inbound_channel(&mut self, jit_channel_id: u128, channel: InboundJITChannel)
        ensures
            final(self)@ == old(self)@.with_inbound(jit_channel_id, channel),
    {
        self.inbound_channels_by_id.insert(jit_channel_id, channel);
    }

    /// Adds or replaces a channel to the peer.
    pub fn insert_outbound_channel(&mut self, scid: u64, channel: OutboundJITChannel)
        ensures
            final(self)@ == old(self)@.with_outbound(scid, channel),
    {
        self.outbound_channels_by_scid.insert(scid, channel);
    }

    /// Notes which channel a request of ours concerns.
    pub fn insert_request(&mut self, request_id: RequestId, jit_channel_id: u128)
        ensures
            final(self)@ == old(self)@.with_request(request_id.0@, jit_channel_id),
    {
        self.request_to_cid.insert(request_id, jit_channel_id);
    }

    /// Gives up a channel to us.
    pub fn remove_inbound_channel(&mut self, jit_channel_id: u128)
        ensures
            final(self)@ == (PeerStateView {
                inbound_channels_by_id: old(self)@.inbound_channels_by_id.remove(jit_channel_id),
                ..old(self)@
            }),
    {
        self.inbound_channels_by_id.remove(&jit_channel_id);
    }

    /// Gives up a channel to the peer.
    pub fn remove_outbound_channel(&mut self, scid: u64)
        ensures
            final(self)@ == (PeerStateView {
                outbound_channels_by_scid: old(self)@.outbound_channels_by_scid.remove(scid),
                ..old(self)@
            }),
    {
        self.outbound_channels_by_scid.remove(&scid);
    }

    /// Ends the request that a reply belongs to, and takes out the channel that it concerns.
    fn take_reply(&mut self, request_id: RequestId, reply: Reply) -> (taken: Result<
        (u128, InboundJITChannel),
        ErrorKind,
    >)
        ensures
            (final(self)@, taken) == old(self)@.reply_taken(request_id, reply),
    {
        match self.request_to_cid.remove(&request_id) {
            Some(id) => match self.inbound_channels_by_id.remove(&id) {
                Some(channel) => Ok((id, channel)),
                None => Err(ErrorKind::UnknownChannel { reply, channel_id: id }),
            },
            None => Err(ErrorKind::UnknownRequest { reply, request_id }),
        }
    }

    /// Goes on from a `get_versions` response.
    fn versions_response(
        &mut self,
        request_id: RequestId,
        versions: Vec<u16>,
        next_request_id: RequestId,
    ) -> (request: Result<GetInfoRequest, LightningError>)
        ensures
            ({
                let (peer, outcome) = old(self)@.versions_step(
                    request_id,
                    versions,
                    next_request_id.0@,
                );
                &&& final(self)@ == peer
                &&& request == (match outcome {
                    Ok(request) => Ok::<GetInfoRequest, LightningError>(request),
                    Err(e) => Err(info(e)),
                })
            }),
    {
        match self.take_reply(request_id, Reply::GetVersionsResponse) {
            Ok((id, mut channel)) => {
                let token = clone_text(&channel.config.token);
                match channel.versions_received(versions) {
                    Ok(version) => {
                        self.insert_inbound_channel(id, channel);
                        self.insert_request(next_request_id, id);
                        Ok(GetInfoRequest { version, token })
                    },
                    Err(e) => Err(e),
                }
            },
            Err(e) => Err(info_error(e)),
        }
    }

    /// Goes on from a `get_info` response, and returns the ids of the channel and of its user.
    fn info_response(&mut self, request_id: RequestId) -> (ids: Result<
        (u128, u128),
        LightningError,
    >)
        ensures
            ({
                let (peer, outcome) = old(self)@.info_step(request_id);
                &&& final(self)@ == peer
                &&& ids == (match outcome {
                    Ok(channel) => Ok::<(u128, u128), LightningError>(
                        (channel.id, channel.config.user_id),
                    ),
                    Err(e) => Err(info(e)),
                })
            }),
    {
        match self.take_reply(request_id, Reply::GetInfoResponse) {
            Ok((id, mut channel)) => match channel.info_received() {
                Ok(()) => {
                    let ids = (channel.id, channel.config.user_id);
                    self.insert_inbound_channel(id, channel);
                    Ok(ids)
                },
                Err(e) => Err(e),
            },
            Err(e) => Err(info_error(e)),
        }
    }

    /// Gives up the channel that an error concerns.
    fn error_response(&mut self, request_id: RequestId, reply: Reply) -> (result: Result<
        (),
        LightningError,
    >)
        ensures
            ({
                let (peer, outcome) = old(self)@.error_step(request_id, reply);
                &&& final(self)@ == peer
                &&& result == (match outcome {
                    Ok(_) => Ok::<(), LightningError>(()),
                    Err(e) => Err(info(e)),
                })
            }),
    {
        match self.take_reply(request_id, reply) {
            Ok(_) => Ok(()),
            Err(e) => Err(info_error(e)),
        }
    }

    /// Goes on from a `buy` response, and returns the short channel id, the payment size and the
    /// id of the channel's user.
    fn buy_response(&mut self, request_id: RequestId, result: &BuyResponse) -> (ready: Result<
        (u64, Option<u64>, u128),
        LightningError,
    >)
        ensures
            ({
                let (peer, outcome) = old(self)@.buy_step(request_id, *result);
                &&& final(self)@ == peer
                &&& ready == (match outcome {
                    Ok((scid, channel)) => Ok::<(u64, Option<u64>, u128), LightningError>(
                        (scid, channel.config.payment_size_msat, channel.config.user_id),
                    ),
                    Err(e) => Err(info(e)),
                })
            }),
    {
        match self.take_reply(request_id, Reply::BuyResponse) {
            Ok((id, mut channel)) => match channel.invoice_params_received(
                result.client_trusts_lsp,
                result.jit_channel_scid.clone(),
            ) {
                Ok(()) => {
                    let payment_size_msat = channel.config.payment_size_msat;
                    let user_id: u128 = channel.config.user_id;
                    self.insert_inbound_channel(id, channel);
                    match result.jit_channel_scid.to_scid() {
                        Ok(scid) => Ok((scid, payment_size_msat, user_id)),
                        Err(()) => Err(
                            info_error(
                                ErrorKind::InvalidScid { text: result.jit_channel_scid.0.clone() },
                            ),
                        ),
                    }
                },
                Err(e) => Err(e),
            },
            Err(e) => Err(info_error(e)),
        }
    }

    /// Goes on from the user's selection.
    fn params_selected(
        &mut self,
        id: u128,
        opening_fee_params: OpeningFeeParams,
        next_request_id: RequestId,
    ) -> (request: Result<BuyRequest, ErrorKind>)
        ensures
            (final(self)@, request) == old(self)@.selection_step(
                id,
                opening_fee_params,
                next_request_id.0@,
            ),
    {
        match self.inbound_channels_by_id.remove(&id) {
            Some(mut channel) => match channel.opening_fee_params_selected() {
                Ok(version) => {
                    let payment_size_msat = channel.config.payment_size_msat;
                    self.insert_inbound_channel(id, channel);
                    self.insert_request(next_request_id, id);
                    assert(self@.inbound_channels_by_id =~= old(self)@.selection_step(
                        id,
                        opening_fee_params,
                        next_request_id.0@,
                    ).0.inbound_channels_by_id);
                    Ok(BuyRequest { version, opening_fee_params, payment_size_msat })
                },
                Err(e) => Err(e.err),
            },
            None => Err(ErrorKind::ChannelNotFound { channel_id: id }),
        }
    }
}

/// The messages after one more request of ours, with an id made of the given random bytes.
pub open spec fn request_enqueued(
    before: Seq<(PublicKey, LSPSMessage)>,
    after: Seq<(PublicKey, LSPSMessage)>,
    counterparty_node_id: PublicKey,
    entropy: Seq<u8>,
    request: Request,
) -> bool {
    &&& after.len() == before.len() + 1
    &&& after.drop_last() == before
    &&& after.last().0 == counterparty_node_id
    &&& match after.last().1 {
        LSPSMessage::LSPS2(Message::Request(request_id, sent)) => request_id.0@ == request_id_text(
            entropy,
        ) && sent == request,
        _ => false,
    }
}

/// The messages after one more response of ours.
pub open spec fn with_response(
    before: Seq<(PublicKey, LSPSMessage)>,
    counterparty_node_id: PublicKey,
    request_id: RequestId,
    response: Response,
) -> Seq<(PublicKey, LSPSMessage)> {
    before.push((counterparty_node_id, LSPSMessage::LSPS2(Message::Response(request_id, response))))
}

fn enqueue_request(
    pending_messages: &mut Vec<(PublicKey, LSPSMessage)>,
    counterparty_node_id: PublicKey,
    request_id: RequestId,
    request: Request,
)
    ensures
        final(pending_messages)@ == old(pending_messages)@.push(
            (counterparty_node_id, LSPSMessage::LSPS2(Message::Request(request_id, request))),
        ),
        final(pending_messages)@.drop_last() == old(pending_messages)@,
{
    pending_messages.push(
        (counterparty_node_id, LSPSMessage::from(Message::Request(request_id, request))),
    );
}

fn enqueue_response(
    pending_messages: &mut Vec<(PublicKey, LSPSMessage)>,
    counterparty_node_id: PublicKey,
    request_id: RequestId,
    response: Response,
)
    ensures
        final(pending_messages)@ == with_response(
            old(pending_messages)@,
            counterparty_node_id,
            request_id,
            response,
        ),
{
    pending_messages.push(
        (counterparty_node_id, LSPSMessage::from(Message::Response(request_id, response))),
    );
}

/// An HTLC that the node is to fail, after which the channel that awaited it is given up with
/// [`JITChannelManager::intercepted_htlc_failed`].
#[derive(Debug, PartialEq, Eq)]
pub struct HtlcToFail {
    pub intercept_id: InterceptId,
    pub counterparty_node_id: PublicKey,
    pub scid: u64,
    pub err: ErrorKind,
}

/// An HTLC that the node is to forward over a channel that became ready.
#[derive(Clone, Copy, Debug, PartialEq, Eq)]
pub struct HtlcToForward {
    pub intercept_id: InterceptId,
    pub amt_to_forward_msat: u64,
}

/// Negotiates JIT channels with any number of peers.
pub struct JITChannelManager {
    per_peer_state: KeyedMap<PublicKey, PeerState>,
    peer_by_scid: KeyedMap<u64, PublicKey>,
    promise_secret: [u8; 32],
}

/// The contents of a [`JITChannelManager`].
#[verifier::ext_equal]
pub struct JITChannelManagerView {
    pub per_peer_state: Map<PublicKey, PeerStateView>,
    pub peer_by_scid: Map<u64, PublicKey>,
    pub promise_secret: Seq<u8>,
}

impl View for JITChannelManager {
    type V = JITChannelManagerView;

    closed spec fn view(&self) -> JITChannelManagerView {
        JITChannelManagerView {
            per_peer_state: self.per_peer_state@,
            peer_by_scid: self.peer_by_scid@,
            promise_secret: self.promise_secret@,
        }
    }
}

impl JITChannelManagerView {
    /// The state of a peer, which is empty until something is negotiated.
    pub open spec fn peer(self, counterparty_node_id: PublicKey) -> PeerStateView {
        if self.per_peer_state.contains_key(counterparty_node_id) {
            self.per_peer_state[counterparty_node_id]
        } else {
            PeerStateView::empty()
        }
    }

    /// With the state of one peer replaced.
    pub open spec fn with_peer(self, counterparty_node_id: PublicKey, peer: PeerStateView) -> Self {
        JITChannelManagerView {
            per_peer_state: self.per_peer_state.insert(counterparty_node_id, peer),
            ..self
        }
    }

    /// The channel that awaits an HTLC for a short channel id, with the peer that it is for.
    pub open spec fn awaiting_htlc(self, scid: u64) -> Option<(PublicKey, OutboundJITChannel)> {
        if self.peer_by_scid.contains_key(scid) {
            let counterparty_node_id = self.peer_by_scid[scid];
            if self.per_peer_state.contains_key(counterparty_node_id)
                && self.per_peer_state[counterparty_node_id].outbound_channels_by_scid.contains_key(
                scid,
            ) {
                Some(
                    (
                        counterparty_node_id,
                        self.per_peer_state[counterparty_node_id].outbound_channels_by_scid[scid],
                    ),
                )
            } else {
                None
            }
        } else {
            None
        }
    }

    /// Whether an HTLC for a short channel id can pay the opening fee that it owes, if any.
    pub open spec fn fee_covered(self, scid: u64, expected_outbound_amount_msat: u64) -> bool {
        match self.awaiting_htlc(scid) {
            Some((_, channel)) => channel.state.fee_covered(expected_outbound_amount_msat),
            None => true,
        }
    }
}

impl JITChannelManager {
    /// Creates a manager that negotiates nothing yet.
    pub fn new(promise_secret: [u8; 32]) -> (manager: Self)
        ensures
            manager@ == (JITChannelManagerView {
                per_peer_state: Map::empty(),
                peer_by_scid: Map::empty(),
                promise_secret: promise_secret@,
            }),
    {
        JITChannelManager {
            per_peer_state: KeyedMap::new(),
            peer_by_scid: KeyedMap::new(),
            promise_secret,
        }
    }

    /// Takes out the state of a peer, or makes one.
    fn take_peer(&mut self, counterparty_node_id: &PublicKey) -> (peer: PeerState)
        ensures
            peer@ == old(self)@.peer(*counterparty_node_id),
            final(self)@ == (JITChannelManagerView {
                per_peer_state: old(self)@.per_peer_state.remove(*counterparty_node_id),
                ..old(self)@
            }),
    {
        match self.per_peer_state.remove(counterparty_node_id) {
            Some(peer) => peer,
            None => PeerState::new(),
        }
    }

    /// Starts the negotiation of a channel to us: the LSP is asked for its versions.
    ///
    /// The ids of the channel and of the request are made of random bytes.
    pub fn create_invoice(
        &mut self,
        counterparty_node_id: PublicKey,
        payment_size_msat: Option<u64>,
        token: Option<String>,
        user_channel_id: u128,
        channel_entropy: &[u8; 32],
        request_entropy: &[u8; 32],
        pending_messages: &mut Vec<(PublicKey, LSPSMessage)>,
    )
        ensures
            ({
                let id = be_value(channel_entropy@.take(16)) as u128;
                final(self)@ == old(self)@.with_peer(
                    counterparty_node_id,
                    old(self)@.peer(counterparty_node_id).with_inbound(
                        id,
                        InboundJITChannel {
                            id,
                            state: InboundJITChannelState::VersionsRequested,
                            config: InboundJITChannelConfig {
                                user_id: user_channel_id,
                                token,
                                payment_size_msat,
                            },
                        },
                    ).with_request(request_id_text(request_entropy@), id),
                )
            }),
            request_enqueued(
                old(pending_messages)@,
                final(pending_messages)@,
                counterparty_node_id,
                request_entropy@,
                Request::GetVersions(GetVersionsRequest {  }),
            ),
    {
        let jit_channel_id: u128 = generate_channel_id(channel_entropy);
        let channel = InboundJITChannel::new(
            jit_channel_id,
            user_channel_id,
            payment_size_msat,
            token,
        );
        let mut peer_state = self.take_peer(&counterparty_node_id);
        peer_state.insert_inbound_channel(jit_channel_id, channel);
        let request_id = generate_request_id(request_entropy);
        peer_state.insert_request(request_id.clone(), jit_channel_id);
        self.per_peer_state.insert(counterparty_node_id, peer_state);
        enqueue_request(
            pending_messages,
            counterparty_node_id,
            request_id,
            Request::GetVersions(GetVersionsRequest {  }),
        );
    }

    /// Answers a client's `get_info` request with a menu.
    ///
    /// The request is no longer pending afterwards, whatever it was.
    pub fn opening_fee_params_generated(
        &mut self,
        counterparty_node_id: PublicKey,
        request_id: RequestId,
        opening_fee_params_menu: Vec<RawOpeningFeeParams>,
        min_payment_size_msat: u64,
        max_payment_size_msat: u64,
        pending_messages: &mut Vec<(PublicKey, LSPSMessage)>,
    ) -> (result: Result<(), APIError>)
        ensures
            !old(self)@.per_peer_state.contains_key(counterparty_node_id) ==> {
                &&& final(self)@ == old(self)@
                &&& final(pending_messages)@ == old(pending_messages)@
                &&& result == Err::<(), APIError>(
                    misuse(ErrorKind::NoPeerState { counterparty_node_id }),
                )
            },
            old(self)@.per_peer_state.contains_key(counterparty_node_id) ==> {
                let peer = old(self)@.per_peer_state[counterparty_node_id];
                &&& final(self)@ == old(self)@.with_peer(
                    counterparty_node_id,
                    peer.without_pending(request_id.0@),
                )
                &&& if peer.pending_requests.contains_key(request_id.0@)
                    && peer.pending_requests[request_id.0@] is GetInfo {
                    &&& result == Ok::<(), APIError>(())
                    &&& exists|menu: Vec<OpeningFeeParams>|
                        menu_promised_as(
                            opening_fee_params_menu@,
                            old(self)@.promise_secret,
                            menu@,
                        ) && final(pending_messages)@ == with_response(
                            old(pending_messages)@,
                            counterparty_node_id,
                            request_id,
                            Response::GetInfo(
                                #[trigger] menu_response(
                                    menu,
                                    min_payment_size_msat,
                                    max_payment_size_msat,
                                ),
                            ),
                        )
                } else {
                    &&& final(pending_messages)@ == old(pending_messages)@
                    &&& result == Err::<(), APIError>(
                        misuse(
                            ErrorKind::NoPendingRequest {
                                request: PeerRequest::GetInfo,
                                request_id,
                            },
                        ),
                    )
                }
            },
    {
        match self.per_peer_state.remove(&counterparty_node_id) {
            Some(mut peer_state) => {
                let pending = peer_state.pending_requests.remove(&request_id);
                self.per_peer_state.insert(counterparty_node_id, peer_state);
                match pending {
                    Some(Request::GetInfo(_)) => {
                        let menu = promise_menu(opening_fee_params_menu, &self.promise_secret);
                        let response = GetInfoResponse {
                            opening_fee_params_menu: menu,
                            min_payment_size_msat,
                            max_payment_size_msat,
                        };
                        assert(response == menu_response(
                            menu,
                            min_payment_size_msat,
                            max_payment_size_msat,
                        ));
                        enqueue_response(
                            pending_messages,
                            counterparty_node_id,
                            request_id,
                            Response::GetInfo(response),
                        );
                        Ok(())
                    },
                    _ => Err(
                        misuse_error(
                            ErrorKind::NoPendingRequest {
                                request: PeerRequest::GetInfo,
                                request_id,
                            },
                        ),
                    ),
                }
            },
            None => Err(misuse_error(ErrorKind::NoPeerState { counterparty_node_id })),
        }
    }

    /// Buys a channel with the parameters that the user selected from the menu.
    pub fn opening_fee_params_selected(
        &mut self,
        counterparty_node_id: PublicKey,
        jit_channel_id: u128,
        opening_fee_params: OpeningFeeParams,
        request_entropy: &[u8; 32],
        pending_messages: &mut Vec<(PublicKey, LSPSMessage)>,
    ) -> (result: Result<(), APIError>)
        ensures
            !old(self)@.per_peer_state.contains_key(counterparty_node_id) ==> {
                &&& final(self)@ == old(self)@
                &&& final(pending_messages)@ == old(pending_messages)@
                &&& result == Err::<(), APIError>(
                    misuse(ErrorKind::NoPeerState { counterparty_node_id }),
                )
            },
            old(self)@.per_peer_state.contains_key(counterparty_node_id) ==> {
                let (peer, outcome) = old(self)@.per_peer_state[counterparty_node_id].selection_step(
                    jit_channel_id,
                    opening_fee_params,
                    request_id_text(request_entropy@),
                );
                &&& final(self)@ == old(self)@.with_peer(counterparty_node_id, peer)
                &&& match outcome {
                    Ok(request) => result == Ok::<(), APIError>(()) && request_enqueued(
                        old(pending_messages)@,
                        final(pending_messages)@,
                        counterparty_node_id,
                        request_entropy@,
                        Request::Buy(request),
                    ),
                    Err(e) => result == Err::<(), APIError>(misuse(e)) && final(pending_messages)@
                        == old(pending_messages)@,
                }
            },
    {
        match self.per_peer_state.remove(&counterparty_node_id) {
            Some(mut peer_state) => {
                let request_id = generate_request_id(request_entropy);
                let request = peer_state.params_selected(
                    jit_channel_id,
                    opening_fee_params,
                    request_id.clone(),
                );
                self.per_peer_state.insert(counterparty_node_id, peer_state);
                match request {
                    Ok(request) => {
                        enqueue_request(
                            pending_messages,
                            counterparty_node_id,
                            request_id,
                            Request::Buy(request),
                        );
                        Ok(())
                    },
                    Err(e) => Err(misuse_error(e)),
                }
            },
            None => Err(misuse_error(ErrorKind::NoPeerState { counterparty_node_id })),
        }
    }

    /// Answers a client's `buy` request with a short channel id, and awaits payment to it.
    ///
    /// The request is no longer pending afterwards, whatever it was.
    pub fn invoice_parameters_generated(
        &mut self,
        counterparty_node_id: PublicKey,
        request_id: RequestId,
        scid: u64,
        cltv_expiry_delta: u32,
        client_trusts_lsp: bool,
        pending_messages: &mut Vec<(PublicKey, LSPSMessage)>,
    ) -> (result: Result<(), APIError>)
        ensures
            !old(self)@.per_peer_state.contains_key(counterparty_node_id) ==> {
                &&& final(self)@ == old(self)@
                &&& final(pending_messages)@ == old(pending_messages)@
                &&& result == Err::<(), APIError>(
                    misuse(ErrorKind::NoPeerState { counterparty_node_id }),
                )
            },
            old(self)@.per_peer_state.contains_key(counterparty_node_id) ==> {
                let peer = old(self)@.per_peer_state[counterparty_node_id];
                let answered = peer.without_pending(request_id.0@);
                if peer.pending_requests.contains_key(request_id.0@)
                    && peer.pending_requests[request_id.0@] is Buy {
                    let buy_request = peer.pending_requests[request_id.0@]->Buy_0;
                    let channel = OutboundJITChannel {
                        state: OutboundJITChannelState::InvoiceParametersGenerated {
                            short_channel_id: scid,
                            cltv_expiry_delta,
                            payment_size_msat: buy_request.payment_size_msat,
                            opening_fee_params: buy_request.opening_fee_params,
                        },
                    };
                    &&& result == Ok::<(), APIError>(())
                    &&& final(self)@ == (JITChannelManagerView {
                        peer_by_scid: old(self)@.peer_by_scid.insert(scid, counterparty_node_id),
                        ..old(self)@.with_peer(
                            counterparty_node_id,
                            answered.with_outbound(scid, channel),
                        )
                    })
                    &&& exists|jit_channel_scid: JitChannelScid|
                        jit_channel_scid.0@ == scid_text(scid) && final(pending_messages)@
                            == with_response(
                            old(pending_messages)@,
                            counterparty_node_id,
                            request_id,
                            Response::Buy(
                                #[trigger] scid_response(
                                    jit_channel_scid,
                                    cltv_expiry_delta,
                                    client_trusts_lsp,
                                ),
                            ),
                        )
                } else {
                    &&& final(self)@ == old(self)@.with_peer(counterparty_node_id, answered)
                    &&& final(pending_messages)@ == old(pending_messages)@
                    &&& result == Err::<(), APIError>(
                        misuse(
                            ErrorKind::NoPendingRequest { request: PeerRequest::Buy, request_id },
                        ),
                    )
                }
            },
    {
        match self.per_peer_state.remove(&counterparty_node_id) {
            Some(mut peer_state) => {
                let pending = peer_state.pending_requests.remove(&request_id);
                match pending {
                    Some(Request::Buy(buy_request)) => {
                        self.peer_by_scid.insert(scid, counterparty_node_id);
                        let channel = OutboundJITChannel::new(
                            scid,
                            cltv_expiry_delta,
                            buy_request.payment_size_msat,
                            buy_request.opening_fee_params,
                        );
                        peer_state.insert_outbound_channel(scid, channel);
                        self.per_peer_state.insert(counterparty_node_id, peer_state);
                        let jit_channel_scid = JitChannelScid::from_scid(scid);
                        let ghost text = jit_channel_scid;
                        let response = BuyResponse {
                            jit_channel_scid,
                            lsp_cltv_expiry_delta: cltv_expiry_delta,
                            client_trusts_lsp,
                        };
                        assert(response == scid_response(
                            text,
                            cltv_expiry_delta,
                            client_trusts_lsp,
                        ));
                        enqueue_response(
                            pending_messages,
                            counterparty_node_id,
                            request_id,
                            Response::Buy(response),
                        );
                        Ok(())
                    },
                    _ => {
                        self.per_peer_state.insert(counterparty_node_id, peer_state);
                        Err(
                            misuse_error(
                                ErrorKind::NoPendingRequest {
                                    request: PeerRequest::Buy,
                                    request_id,
                                },
                            ),
                        )
                    },
                }
            },
            None => Err(misuse_error(ErrorKind::NoPeerState { counterparty_node_id })),
        }
    }

    /// Returns whether an HTLC for a short channel id can pay the opening fee that it owes, if
    /// any.
    pub fn covers_fee(&self, scid: u64, expected_outbound_amount_msat: u64) -> (covered: bool)
        ensures
            covered == self@.fee_covered(scid, expected_outbound_amount_msat),
    {
        match self.peer_by_scid.get(&scid) {
            Some(counterparty_node_id) => match self.per_peer_state.get(counterparty_node_id) {
                Some(peer_state) => match peer_state.outbound_channels_by_scid.get(&scid) {
                    Some(channel) => channel.state.covers_fee(expected_outbound_amount_msat),
                    None => true,
                },
                None => true,
            },
            None => true,
        }
    }

    /// Goes on from an HTLC that was intercepted for a short channel id.
    ///
    /// The user is told to open a channel. Where that cannot be, the node is to fail the HTLC.
    /// An HTLC for a short channel id that was not given out is left alone.
    pub fn htlc_intercepted(
        &mut self,
        scid: u64,
        intercept_id: InterceptId,
        inbound_amount_msat: u64,
        expected_outbound_amount_msat: u64,
        pending_events: &mut EventQueue,
    ) -> (to_fail: Result<Option<HtlcToFail>, APIError>)
        requires
            old(self)@.fee_covered(scid, expected_outbound_amount_msat),
        ensures
            match old(self)@.awaiting_htlc(scid) {
                Some((counterparty_node_id, channel)) => match channel.state.after_htlc(
                    expected_outbound_amount_msat,
                    intercept_id,
                ) {
                    Ok(state) => {
                        &&& to_fail == Ok::<Option<HtlcToFail>, APIError>(None)
                        &&& final(self)@ == old(self)@.with_peer(
                            counterparty_node_id,
                            old(self)@.per_peer_state[counterparty_node_id].with_outbound(
                                scid,
                                OutboundJITChannel { state },
                            ),
                        )
                        &&& final(pending_events)@ == old(pending_events)@.push(
                            Event::LSPS2(
                                LSPS2Event::OpenChannel {
                                    their_network_key: counterparty_node_id,
                                    inbound_amount_msat,
                                    expected_outbound_amount_msat,
                                    amt_to_forward_msat:
                                        state->PendingChannelOpen_amt_to_forward_msat,
                                    opening_fee_msat: state->PendingChannelOpen_opening_fee_msat,
                                    user_channel_id: scid as u128,
                                },
                            ),
                        )
                    },
                    Err(err) => {
                        &&& to_fail == Ok::<Option<HtlcToFail>, APIError>(
                            Some(HtlcToFail { intercept_id, counterparty_node_id, scid, err }),
                        )
                        &&& final(self)@ == old(self)@
                        &&& final(pending_events)@ == old(pending_events)@
                    },
                },
                None => {
                    &&& final(self)@ == old(self)@
                    &&& final(pending_events)@ == old(pending_events)@
                    &&& to_fail == if old(self)@.peer_by_scid.contains_key(scid)
                        && !old(self)@.per_peer_state.contains_key(old(self)@.peer_by_scid[scid]) {
                        Err::<Option<HtlcToFail>, APIError>(
                            misuse(ErrorKind::NoPeerForScid { scid }),
                        )
                    } else {
                        Ok(None)
                    }
                },
            },
    {
        let counterparty_node_id = match self.peer_by_scid.get(&scid) {
            Some(counterparty_node_id) => *counterparty_node_id,
            None => return Ok(None),
        };
        match self.per_peer_state.remove(&counterparty_node_id) {
            Some(mut peer_state) => {
                let mut to_fail: Option<HtlcToFail> = None;
                let taken = peer_state.outbound_channels_by_scid.remove(&scid);
                if let Some(mut channel) = taken {
                    match channel.htlc_intercepted(expected_outbound_amount_msat, intercept_id) {
                        Ok((opening_fee_msat, amt_to_forward_msat)) => {
                            pending_events.enqueue(
                                Event::LSPS2(
                                    LSPS2Event::OpenChannel {
                                        their_network_key: counterparty_node_id,
                                        inbound_amount_msat,
                                        expected_outbound_amount_msat,
                                        amt_to_forward_msat,
                                        opening_fee_msat,
                                        user_channel_id: scid as u128,
                                    },
                                ),
                            );
                        },
                        Err(e) => {
                            to_fail = Some(
                                HtlcToFail { intercept_id, counterparty_node_id, scid, err: e.err },
                            );
                        },
                    }
                    peer_state.insert_outbound_channel(scid, channel);
                }
                self.per_peer_state.insert(counterparty_node_id, peer_state);
                proof {
                    let before = old(self)@.per_peer_state[counterparty_node_id];
                    let after = self@.per_peer_state[counterparty_node_id];
                    if old(self)@.awaiting_htlc(scid) is None || to_fail is Some {
                        assert(after.outbound_channels_by_scid
                            =~= before.outbound_channels_by_scid);
                        assert(after =~= before);
                        assert(self@.per_peer_state =~= old(self)@.per_peer_state);
                    } else {
                        assert(after =~= before.with_outbound(
                            scid,
                            after.outbound_channels_by_scid[scid],
                        ));
                    }
                }
                Ok(to_fail)
            },
            None => {
                assert(self@.per_peer_state =~= old(self)@.per_peer_state);
                Err(misuse_error(ErrorKind::NoPeerForScid { scid }))
            },
        }
    }

    /// Gives up the channel that awaited an HTLC, after the node failed the HTLC, and returns the
    /// reason.
    pub fn intercepted_htlc_failed(&mut self, failed: HtlcToFail) -> (error: APIError)
        ensures
            error == misuse(failed.err),
            final(self)@ == if old(self)@.per_peer_state.contains_key(
                failed.counterparty_node_id,
            ) {
                let peer = old(self)@.per_peer_state[failed.counterparty_node_id];
                old(self)@.with_peer(
                    failed.counterparty_node_id,
                    PeerStateView {
                        outbound_channels_by_scid: peer.outbound_channels_by_scid.remove(
                            failed.scid,
                        ),
                        ..peer
                    },
                )
            } else {
                old(self)@
            },
    {
        match self.per_peer_state.remove(&failed.counterparty_node_id) {
            Some(mut peer_state) => {
                peer_state.remove_outbound_channel(failed.scid);
                self.per_peer_state.insert(failed.counterparty_node_id, peer_state);
            },
            None => {
                assert(self@.per_peer_state =~= old(self)@.per_peer_state);
            },
        }
        misuse_error(failed.err)
    }

    /// Goes on from a channel that became ready, and returns the HTLC that the node is to forward
    /// over it.
    ///
    /// A channel whose user channel id is no short channel id is left alone.
    pub fn channel_ready(
        &mut self,
        user_channel_id: u128,
        counterparty_node_id: &PublicKey,
    ) -> (to_forward: Result<Option<HtlcToForward>, APIError>)
        ensures
            user_channel_id > u64::MAX ==> final(self)@ == old(self)@ && to_forward == Ok::<
                Option<HtlcToForward>,
                APIError,
            >(None),
            user_channel_id <= u64::MAX && !old(self)@.per_peer_state.contains_key(
                *counterparty_node_id,
            ) ==> {
                &&& final(self)@ == old(self)@
                &&& to_forward == Err::<Option<HtlcToForward>, APIError>(
                    misuse(
                        ErrorKind::NoPeerState { counterparty_node_id: *counterparty_node_id },
                    ),
                )
            },
            user_channel_id <= u64::MAX && old(self)@.per_peer_state.contains_key(
                *counterparty_node_id,
            ) ==> {
                let scid = user_channel_id as u64;
                let peer = old(self)@.per_peer_state[*counterparty_node_id];
                if !peer.outbound_channels_by_scid.contains_key(scid) {
                    &&& final(self)@ == old(self)@
                    &&& to_forward == Err::<Option<HtlcToForward>, APIError>(
                        misuse(ErrorKind::UserChannelNotFound { user_channel_id }),
                    )
                } else {
                    match peer.outbound_channels_by_scid[scid].state.after_ready() {
                        Ok(state) => {
                            &&& final(self)@ == old(self)@.with_peer(
                                *counterparty_node_id,
                                peer.with_outbound(scid, OutboundJITChannel { state }),
                            )
                            &&& to_forward == Ok::<Option<HtlcToForward>, APIError>(
                                Some(
                                    HtlcToForward {
                                        intercept_id: state->ChannelReady_intercept_id,
                                        amt_to_forward_msat:
                                            state->ChannelReady_amt_to_forward_msat,
                                    },
                                ),
                            )
                        },
                        Err(e) => {
                            &&& final(self)@ == old(self)@
                            &&& to_forward == Err::<Option<HtlcToForward>, APIError>(
                                misuse(ErrorKind::ChannelReadyFailed { cause: Box::new(e) }),
                            )
                        },
                    }
                }
            },
    {
        if user_channel_id > u64::MAX as u128 {
            return Ok(None);
        }
        let scid: u64 = user_channel_id as u64;
        match self.per_peer_state.remove(counterparty_node_id) {
            Some(mut peer_state) => {
                let taken = peer_state.outbound_channels_by_scid.remove(&scid);
                let to_forward = match taken {
                    Some(mut channel) => {
                        let forward = channel.channel_ready();
                        peer_state.insert_outbound_channel(scid, channel);
                        match forward {
                            Ok((intercept_id, amt_to_forward_msat)) => Ok(
                                Some(HtlcToForward { intercept_id, amt_to_forward_msat }),
                            ),
                            Err(e) => Err(
                                misuse_error(
                                    ErrorKind::ChannelReadyFailed { cause: Box::new(e.err) },
                                ),
                            ),
                        }
                    },
                    None => Err(misuse_error(ErrorKind::UserChannelNotFound { user_channel_id })),
                };
                self.per_peer_state.insert(*counterparty_node_id, peer_state);
                proof {
                    let before = old(self)@.per_peer_state[*counterparty_node_id];
                    let after = self@.per_peer_state[*counterparty_node_id];
                    if to_forward is Err {
                        assert(after.outbound_channels_by_scid
                            =~= before.outbound_channels_by_scid);
                        assert(after =~= before);
                        assert(self@.per_peer_state =~= old(self)@.per_peer_state);
                    } else {
                        assert(after =~= before.with_outbound(
                            scid,
                            after.outbound_channels_by_scid[scid],
                        ));
                    }
                }
                to_forward
            },
            None => {
                assert(self@.per_peer_state =~= old(self)@.per_peer_state);
                Err(
                    misuse_error(
                        ErrorKind::NoPeerState { counterparty_node_id: *counterparty_node_id },
                    ),
                )
            },
        }
    }
}

impl JITChannelManagerView {
    /// How a `get_versions` request is answered: with the versions that this library supports.
    pub open spec fn versions_answered(
        messages: Seq<(PublicKey, LSPSMessage)>,
        after: Seq<(PublicKey, LSPSMessage)>,
        request_id: RequestId,
        counterparty_node_id: PublicKey,
    ) -> bool {
        &&& after.len() == messages.len() + 1
        &&& after.drop_last() == messages
        &&& after.last().0 == counterparty_node_id
        &&& match after.last().1 {
            LSPSMessage::LSPS2(
                Message::Response(id, Response::GetVersions(response)),
            ) => id == request_id && response.versions@ == seq![1u16],
            _ => false,
        }
    }

    /// How a `get_versions` response is taken in.
    pub open spec fn versions_taken_in(
        self,
        after: Self,
        messages: Seq<(PublicKey, LSPSMessage)>,
        messages_after: Seq<(PublicKey, LSPSMessage)>,
        request_id: RequestId,
        counterparty_node_id: PublicKey,
        versions: Vec<u16>,
        request_entropy: Seq<u8>,
        result: Result<(), LightningError>,
    ) -> bool {
        if !self.per_peer_state.contains_key(counterparty_node_id) {
            &&& after == self
            &&& messages_after == messages
            &&& result == Err::<(), LightningError>(
                info(
                    ErrorKind::UnknownPeer {
                        reply: Reply::GetVersionsResponse,
                        counterparty_node_id,
                    },
                ),
            )
        } else {
            let (peer, outcome) = self.per_peer_state[counterparty_node_id].versions_step(
                request_id,
                versions,
                request_id_text(request_entropy),
            );
            &&& after == self.with_peer(counterparty_node_id, peer)
            &&& match outcome {
                Ok(request) => result == Ok::<(), LightningError>(()) && request_enqueued(
                    messages,
                    messages_after,
                    counterparty_node_id,
                    request_entropy,
                    Request::GetInfo(request),
                ),
                Err(e) => result == Err::<(), LightningError>(info(e)) && messages_after
                    == messages,
            }
        }
    }

    /// The state and the events after a `get_info` request, which awaits the user's menu.
    pub open spec fn after_info_request(
        self,
        events: Seq<Event>,
        request_id: RequestId,
        counterparty_node_id: PublicKey,
        params: GetInfoRequest,
    ) -> (Self, Seq<Event>) {
        (
            self.with_peer(
                counterparty_node_id,
                self.peer(counterparty_node_id).with_pending(
                    request_id.0@,
                    Request::GetInfo(params),
                ),
            ),
            events.push(
                Event::LSPS2(
                    LSPS2Event::GetInfo {
                        request_id,
                        counterparty_node_id,
                        version: params.version,
                        token: params.token,
                    },
                ),
            ),
        )
    }

    /// The state, the events and the result after a `get_info` response.
    pub open spec fn after_info_response(
        self,
        events: Seq<Event>,
        request_id: RequestId,
        counterparty_node_id: PublicKey,
        response: GetInfoResponse,
    ) -> (Self, Seq<Event>, Result<(), LightningError>) {
        if !self.per_peer_state.contains_key(counterparty_node_id) {
            (
                self,
                events,
                Err(
                    info(
                        ErrorKind::UnknownPeer {
                            reply: Reply::GetInfoResponse,
                            counterparty_node_id,
                        },
                    ),
                ),
            )
        } else {
            let (peer, outcome) = self.per_peer_state[counterparty_node_id].info_step(request_id);
            let after = self.with_peer(counterparty_node_id, peer);
            match outcome {
                Ok(channel) => (
                    after,
                    events.push(
                        Event::LSPS2(
                            LSPS2Event::GetInfoResponse {
                                jit_channel_id: channel.id,
                                counterparty_node_id,
                                opening_fee_params_menu: response.opening_fee_params_menu,
                                min_payment_size_msat: response.min_payment_size_msat,
                                max_payment_size_msat: response.max_payment_size_msat,
                                user_channel_id: channel.config.user_id,
                            },
                        ),
                    ),
                    Ok(()),
                ),
                Err(e) => (after, events, Err(info(e))),
            }
        }
    }

    /// The state and the result after an error in answer to one of our requests.
    pub open spec fn after_error(
        self,
        request_id: RequestId,
        counterparty_node_id: PublicKey,
        reply: Reply,
    ) -> (Self, Result<(), LightningError>) {
        if !self.per_peer_state.contains_key(counterparty_node_id) {
            (self, Err(info(ErrorKind::UnknownPeer { reply, counterparty_node_id })))
        } else {
            let (peer, outcome) = self.per_peer_state[counterparty_node_id].error_step(
                request_id,
                reply,
            );
            (
                self.with_peer(counterparty_node_id, peer),
                match outcome {
                    Ok(_) => Ok(()),
                    Err(e) => Err(info(e)),
                },
            )
        }
    }

    /// The state and the events after a `buy` request: one with valid parameters awaits the
    /// user's short channel id, and any other is dropped.
    pub open spec fn after_buy_request(
        self,
        events: Seq<Event>,
        request_id: RequestId,
        counterparty_node_id: PublicKey,
        params: BuyRequest,
        seconds_since_epoch: u64,
    ) -> (Self, Seq<Event>) {
        if params.opening_fee_params.valid_at(self.promise_secret, seconds_since_epoch) {
            (
                self.with_peer(
                    counterparty_node_id,
                    self.peer(counterparty_node_id).with_pending(
                        request_id.0@,
                        Request::Buy(params),
                    ),
                ),
                events.push(
                    Event::LSPS2(
                        LSPS2Event::BuyRequest {
                            request_id,
                            counterparty_node_id,
                            version: params.version,
                            opening_fee_params: params.opening_fee_params,
                            payment_size_msat: params.payment_size_msat,
                        },
                    ),
                ),
            )
        } else {
            (self, events)
        }
    }

    /// The state, the events and the result after a `buy` response.
    pub open spec fn after_buy_response(
        self,
        events: Seq<Event>,
        request_id: RequestId,
        counterparty_node_id: PublicKey,
        response: BuyResponse,
    ) -> (Self, Seq<Event>, Result<(), LightningError>) {
        if !self.per_peer_state.contains_key(counterparty_node_id) {
            (
                self,
                events,
                Err(
                    info(
                        ErrorKind::UnknownPeer { reply: Reply::BuyResponse, counterparty_node_id },
                    ),
                ),
            )
        } else {
            let (peer, outcome) = self.per_peer_state[counterparty_node_id].buy_step(
                request_id,
                response,
            );
            let after = self.with_peer(counterparty_node_id, peer);
            match outcome {
                Ok((scid, channel)) => (
                    after,
                    events.push(
                        Event::LSPS2(
                            LSPS2Event::InvoiceGenerationReady {
                                counterparty_node_id,
                                scid,
                                cltv_expiry_delta: response.lsp_cltv_expiry_delta,
                                payment_size_msat: channel.config.payment_size_msat,
                                client_trusts_lsp: response.client_trusts_lsp,
                                user_channel_id: channel.config.user_id,
                            },
                        ),
                    ),
                    Ok(()),
                ),
                Err(e) => (after, events, Err(info(e))),
            }
        }
    }
}

impl JITChannelManager {
    fn handle_get_versions_request(
        &self,
        request_id: RequestId,
        counterparty_node_id: &PublicKey,
        pending_messages: &mut Vec<(PublicKey, LSPSMessage)>,
    ) -> (result: Result<(), LightningError>)
        ensures
            result == Ok::<(), LightningError>(()),
            JITChannelManagerView::versions_answered(
                old(pending_messages)@,
                final(pending_messages)@,
                request_id,
                *counterparty_node_id,
            ),
    {
        enqueue_response(
            pending_messages,
            *counterparty_node_id,
            request_id,
            Response::GetVersions(GetVersionsResponse { versions: supported_versions() }),
        );
        assert(pending_messages@.drop_last() =~= old(pending_messages)@);
        Ok(())
    }

    fn handle_get_versions_response(
        &mut self,
        request_id: RequestId,
        counterparty_node_id: &PublicKey,
        response: GetVersionsResponse,
        request_entropy: &[u8; 32],
        pending_messages: &mut Vec<(PublicKey, LSPSMessage)>,
    ) -> (result: Result<(), LightningError>)
        ensures
            old(self)@.versions_taken_in(
                final(self)@,
                old(pending_messages)@,
                final(pending_messages)@,
                request_id,
                *counterparty_node_id,
                response.versions,
                request_entropy@,
                result,
            ),
    {
        match self.per_peer_state.remove(counterparty_node_id) {
            Some(mut peer_state) => {
                let next_request_id = generate_request_id(request_entropy);
                let request = peer_state.versions_response(
                    request_id,
                    response.versions,
                    next_request_id.clone(),
                );
                self.per_peer_state.insert(*counterparty_node_id, peer_state);
                assert(self@ =~= old(self)@.with_peer(*counterparty_node_id, peer_state@));
                match request {
                    Ok(request) => {
                        enqueue_request(
                            pending_messages,
                            *counterparty_node_id,
                            next_request_id,
                            Request::GetInfo(request),
                        );
                        Ok(())
                    },
                    Err(e) => Err(e),
                }
            },
            None => {
                assert(self@ =~= old(self)@);
                Err(
                    info_error(
                        ErrorKind::UnknownPeer {
                            reply: Reply::GetVersionsResponse,
                            counterparty_node_id: *counterparty_node_id,
                        },
                    ),
                )
            },
        }
    }

    fn handle_get_info_request(
        &mut self,
        request_id: RequestId,
        counterparty_node_id: &PublicKey,
        params: GetInfoRequest,
        pending_events: &mut EventQueue,
    ) -> (result: Result<(), LightningError>)
        ensures
            result == Ok::<(), LightningError>(()),
            (final(self)@, final(pending_events)@) == old(self)@.after_info_request(
                old(pending_events)@,
                request_id,
                *counterparty_node_id,
                params,
            ),
    {
        let mut peer_state = self.take_peer(counterparty_node_id);
        peer_state.pending_requests.insert(request_id.clone(), Request::GetInfo(params.clone()));
        self.per_peer_state.insert(*counterparty_node_id, peer_state);
        pending_events.enqueue(
            Event::LSPS2(
                LSPS2Event::GetInfo {
                    request_id,
                    counterparty_node_id: *counterparty_node_id,
                    version: params.version,
                    token: params.token,
                },
            ),
        );
        Ok(())
    }

    fn handle_get_info_response(
        &mut self,
        request_id: RequestId,
        counterparty_node_id: &PublicKey,
        response: GetInfoResponse,
        pending_events: &mut EventQueue,
    ) -> (result: Result<(), LightningError>)
        ensures
            (final(self)@, final(pending_events)@, result) == old(self)@.after_info_response(
                old(pending_events)@,
                request_id,
                *counterparty_node_id,
                response,
            ),
    {
        match self.per_peer_state.remove(counterparty_node_id) {
            Some(mut peer_state) => {
                let ids = peer_state.info_response(request_id);
                self.per_peer_state.insert(*counterparty_node_id, peer_state);
                assert(self@ =~= old(self)@.with_peer(*counterparty_node_id, peer_state@));
                match ids {
                    Ok((jit_channel_id, user_channel_id)) => {
                        pending_events.enqueue(
                            Event::LSPS2(
                                LSPS2Event::GetInfoResponse {
                                    counterparty_node_id: *counterparty_node_id,
                                    opening_fee_params_menu: response.opening_fee_params_menu,
                                    min_payment_size_msat: response.min_payment_size_msat,
                                    max_payment_size_msat: response.max_payment_size_msat,
                                    jit_channel_id,
                                    user_channel_id,
                                },
                            ),
                        );
                        Ok(())
                    },
                    Err(e) => Err(e),
                }
            },
            None => {
                assert(self@ =~= old(self)@);
                Err(
                    info_error(
                        ErrorKind::UnknownPeer {
                            reply: Reply::GetInfoResponse,
                            counterparty_node_id: *counterparty_node_id,
                        },
                    ),
                )
            },
        }
    }

    /// Gives up the channel that an error in answer to one of our requests concerns.
    fn handle_error(
        &mut self,
        request_id: RequestId,
        counterparty_node_id: &PublicKey,
        reply: Reply,
    ) -> (result: Result<(), LightningError>)
        ensures
            (final(self)@, result) == old(self)@.after_error(
                request_id,
                *counterparty_node_id,
                reply,
            ),
    {
        match self.per_peer_state.remove(counterparty_node_id) {
            Some(mut peer_state) => {
                let result = peer_state.error_response(request_id, reply);
                self.per_peer_state.insert(*counterparty_node_id, peer_state);
                assert(self@ =~= old(self)@.with_peer(*counterparty_node_id, peer_state@));
                result
            },
            None => {
                assert(self@ =~= old(self)@);
                Err(
                    info_error(
                        ErrorKind::UnknownPeer {
                            reply,
                            counterparty_node_id: *counterparty_node_id,
                        },
                    ),
                )
            },
        }
    }

    fn handle_get_info_error(
        &mut self,
        request_id: RequestId,
        counterparty_node_id: &PublicKey,
        _error: ResponseError,
    ) -> (result: Result<(), LightningError>)
        ensures
            (final(self)@, result) == old(self)@.after_error(
                request_id,
                *counterparty_node_id,
                Reply::GetInfoError,
            ),
    {
        self.handle_error(request_id, counterparty_node_id, Reply::GetInfoError)
    }

    fn handle_buy_request(
        &mut self,
        request_id: RequestId,
        counterparty_node_id: &PublicKey,
        params: BuyRequest,
        seconds_since_epoch: u64,
        pending_events: &mut EventQueue,
    ) -> (result: Result<(), LightningError>)
        ensures
            result == Ok::<(), LightningError>(()),
            (final(self)@, final(pending_events)@) == old(self)@.after_buy_request(
                old(pending_events)@,
                request_id,
                *counterparty_node_id,
                params,
                seconds_since_epoch,
            ),
    {
        if is_valid_opening_fee_params(
            &params.opening_fee_params,
            &self.promise_secret,
            seconds_since_epoch,
        ) {
            let mut peer_state = self.take_peer(counterparty_node_id);
            peer_state.pending_requests.insert(request_id.clone(), Request::Buy(params.clone()));
            self.per_peer_state.insert(*counterparty_node_id, peer_state);
            pending_events.enqueue(
                Event::LSPS2(
                    LSPS2Event::BuyRequest {
                        request_id,
                        version: params.version,
                        counterparty_node_id: *counterparty_node_id,
                        opening_fee_params: params.opening_fee_params,
                        payment_size_msat: params.payment_size_msat,
                    },
                ),
            );
        }
        Ok(())
    }

    fn handle_buy_response(
        &mut self,
        request_id: RequestId,
        counterparty_node_id: &PublicKey,
        response: BuyResponse,
        pending_events: &mut EventQueue,
    ) -> (result: Result<(), LightningError>)
        ensures
            (final(self)@, final(pending_events)@, result) == old(self)@.after_buy_response(
                old(pending_events)@,
                request_id,
                *counterparty_node_id,
                response,
            ),
    {
        match self.per_peer_state.remove(counterparty_node_id) {
            Some(mut peer_state) => {
                let ready = peer_state.buy_response(request_id, &response);
                self.per_peer_state.insert(*counterparty_node_id, peer_state);
                assert(self@ =~= old(self)@.with_peer(*counterparty_node_id, peer_state@));
                match ready {
                    Ok((scid, payment_size_msat, user_channel_id)) => {
                        pending_events.enqueue(
                            Event::LSPS2(
                                LSPS2Event::InvoiceGenerationReady {
                                    counterparty_node_id: *counterparty_node_id,
                                    scid,
                                    cltv_expiry_delta: response.lsp_cltv_expiry_delta,
                                    payment_size_msat,
                                    client_trusts_lsp: response.client_trusts_lsp,
                                    user_channel_id,
                                },
                            ),
                        );
                        Ok(())
                    },
                    Err(e) => Err(e),
                }
            },
            None => {
                assert(self@ =~= old(self)@);
                Err(
                    info_error(
                        ErrorKind::UnknownPeer {
                            reply: Reply::BuyResponse,
                            counterparty_node_id: *counterparty_node_id,
                        },
                    ),
                )
            },
        }
    }

    fn handle_buy_error(
        &mut self,
        request_id: RequestId,
        counterparty_node_id: &PublicKey,
        _error: ResponseError,
    ) -> (result: Result<(), LightningError>)
        ensures
            (final(self)@, result) == old(self)@.after_error(
                request_id,
                *counterparty_node_id,
                Reply::BuyError,
            ),
    {
        self.handle_error(request_id, counterparty_node_id, Reply::BuyError)
    }

    /// Takes in an LSPS2 message from a peer.
    ///
    /// `seconds_since_epoch` is the current time, and `request_entropy` gives the id of a request
    /// that the message may lead to.
    pub fn handle_message(
        &mut self,
        message: Message,
        counterparty_node_id: &PublicKey,
        seconds_since_epoch: u64,
        request_entropy: &[u8; 32],
        pending_messages: &mut Vec<(PublicKey, LSPSMessage)>,
        pending_events: &mut EventQueue,
    ) -> (result: Result<(), LightningError>)
        ensures
            match message {
                Message::Request(request_id, Request::GetVersions(_)) => {
                    &&& result == Ok::<(), LightningError>(())
                    &&& final(self)@ == old(self)@
                    &&& final(pending_events)@ == old(pending_events)@
                    &&& JITChannelManagerView::versions_answered(
                        old(pending_messages)@,
                        final(pending_messages)@,
                        request_id,
                        *counterparty_node_id,
                    )
                },
                Message::Request(request_id, Request::GetInfo(params)) => {
                    &&& result == Ok::<(), LightningError>(())
                    &&& final(pending_messages)@ == old(pending_messages)@
                    &&& (final(self)@, final(pending_events)@) == old(self)@.after_info_request(
                        old(pending_events)@,
                        request_id,
                        *counterparty_node_id,
                        params,
                    )
                },
                Message::Request(request_id, Request::Buy(params)) => {
                    &&& result == Ok::<(), LightningError>(())
                    &&& final(pending_messages)@ == old(pending_messages)@
                    &&& (final(self)@, final(pending_events)@) == old(self)@.after_buy_request(
                        old(pending_events)@,
                        request_id,
                        *counterparty_node_id,
                        params,
                        seconds_since_epoch,
                    )
                },
                Message::Response(request_id, Response::GetVersions(response)) => {
                    &&& final(pending_events)@ == old(pending_events)@
                    &&& old(self)@.versions_taken_in(
                        final(self)@,
                        old(pending_messages)@,
                        final(pending_messages)@,
                        request_id,
                        *counterparty_node_id,
                        response.versions,
                        request_entropy@,
                        result,
                    )
                },
                Message::Response(request_id, Response::GetInfo(response)) => {
                    &&& final(pending_messages)@ == old(pending_messages)@
                    &&& (final(self)@, final(pending_events)@, result) == old(self)@.after_info_response(
                        old(pending_events)@,
                        request_id,
                        *counterparty_node_id,
                        response,
                    )
                },
                Message::Response(request_id, Response::GetInfoError(_)) => {
                    &&& final(pending_messages)@ == old(pending_messages)@
                    &&& final(pending_events)@ == old(pending_events)@
                    &&& (final(self)@, result) == old(self)@.after_error(
                        request_id,
                        *counterparty_node_id,
                        Reply::GetInfoError,
                    )
                },
                Message::Response(request_id, Response::Buy(response)) => {
                    &&& final(pending_messages)@ == old(pending_messages)@
                    &&& (final(self)@, final(pending_events)@, result) == old(self)@.after_buy_response(
                        old(pending_events)@,
                        request_id,
                        *counterparty_node_id,
                        response,
                    )
                },
                Message::Response(request_id, Response::BuyError(_)) => {
                    &&& final(pending_messages)@ == old(pending_messages)@
                    &&& final(pending_events)@ == old(pending_events)@
                    &&& (final(self)@, result) == old(self)@.after_error(
                        request_id,
                        *counterparty_node_id,
                        Reply::BuyError,
                    )
                },
            },
    {
        match message {
            Message::Request(request_id, request) => match request {
                Request::GetVersions(_) => self.handle_get_versions_request(
                    request_id,
                    counterparty_node_id,
                    pending_messages,
                ),
                Request::GetInfo(params) => self.handle_get_info_request(
                    request_id,
                    counterparty_node_id,
                    params,
                    pending_events,
                ),
                Request::Buy(params) => self.handle_buy_request(
                    request_id,
                    counterparty_node_id,
                    params,
                    seconds_since_epoch,
                    pending_events,
                ),
            },
            Message::Response(request_id, response) => match response {
                Response::GetVersions(response) => self.handle_get_versions_response(
                    request_id,
                    counterparty_node_id,
                    response,
                    request_entropy,
                    pending_messages,
                ),
                Response::GetInfo(response) => self.handle_get_info_response(
                    request_id,
                    counterparty_node_id,
                    response,
                    pending_events,
                ),
                Response::GetInfoError(error) => self.handle_get_info_error(
                    request_id,
                    counterparty_node_id,
                    error,
                ),
                Response::Buy(response) => self.handle_buy_response(
                    request_id,
                    counterparty_node_id,
                    response,
                    pending_events,
                ),
                Response::BuyError(error) => self.handle_buy_error(
                    request_id,
                    counterparty_node_id,
                    error,
                ),
            },
        }
    }
}

/// The opening fee and the amount to forward add up to the amount of the intercepted HTLC.
pub proof fn lemma_htlc_is_split(
    state: OutboundJITChannelState,
    expected_outbound_amount_msat: u64,
    intercept_id: InterceptId,
)
    requires
        state.fee_covered(expected_outbound_amount_msat),
    ensures
        match state.after_htlc(expected_outbound_amount_msat, intercept_id) {
            Ok(next) => next is PendingChannelOpen && next->PendingChannelOpen_opening_fee_msat
                + next->PendingChannelOpen_amt_to_forward_msat == expected_outbound_amount_msat,
            Err(_) => true,
        },
{
}

/// A channel takes one HTLC, becomes ready once, and then forwards that HTLC with the amount that
/// was split off for it.
pub proof fn lemma_htlc_is_forwarded_once(
    state: OutboundJITChannelState,
    expected_outbound_amount_msat: u64,
    intercept_id: InterceptId,
    later_amount_msat: u64,
    later_intercept_id: InterceptId,
)
    requires
        state.after_htlc(expected_outbound_amount_msat, intercept_id) is Ok,
    ensures
        ({
            let pending = state.after_htlc(expected_outbound_amount_msat, intercept_id)->Ok_0;
            let ready = pending.after_ready();
            &&& pending.after_htlc(later_amount_msat, later_intercept_id) == Err::<
                OutboundJITChannelState,
                ErrorKind,
            >(ErrorKind::UnexpectedHtlc { state: ChannelState::SingleOutboundJIT(pending) })
            &&& ready == Ok::<OutboundJITChannelState, ErrorKind>(
                OutboundJITChannelState::ChannelReady {
                    intercept_id,
                    amt_to_forward_msat: pending->PendingChannelOpen_amt_to_forward_msat,
                },
            )
            &&& ready->Ok_0.after_ready() is Err
            &&& ready->Ok_0.after_htlc(later_amount_msat, later_intercept_id) is Err
        }),
{
}

/// A reply ends its request: the same reply a second time belongs to no request.
pub proof fn lemma_reply_is_taken_once(
    peer: PeerStateView,
    request_id: RequestId,
    reply: Reply,
    later: Reply,
)
    ensures
        ({
            let after = peer.reply_taken(request_id, reply).0;
            after.reply_taken(request_id, later) == (
                after,
                Err::<(u128, InboundJITChannel), ErrorKind>(
                    ErrorKind::UnknownRequest { reply: later, request_id },
                ),
            )
        }),
{
}

/// A client that is answered as it asks gets from its first request to an invoice: each reply
/// leads to the next request, and the last to the short channel id.
pub proof fn lemma_client_flow(
    peer: PeerStateView,
    id: u128,
    config: InboundJITChannelConfig,
    versions_request: RequestId,
    versions: Vec<u16>,
    info_request: RequestId,
    selected: OpeningFeeParams,
    buy_request: RequestId,
    bought: BuyResponse,
)
    requires
        max_shared_version(versions@) is Some,
        parsed_scid(bought.jit_channel_scid.0@) is Some,
    ensures
        ({
            let version = max_shared_version(versions@)->0;
            let start = InboundJITChannel {
                id,
                state: InboundJITChannelState::VersionsRequested,
                config,
            };
            let asked = peer.with_inbound(id, start).with_request(versions_request.0@, id);
            let (offered, info) = asked.versions_step(versions_request, versions, info_request.0@);
            let (shown, menu) = offered.info_step(info_request);
            let (chosen, buy) = shown.selection_step(id, selected, buy_request.0@);
            let (done, invoice) = chosen.buy_step(buy_request, bought);
            &&& info == Ok::<GetInfoRequest, ErrorKind>(
                GetInfoRequest { version, token: config.token },
            )
            &&& menu is Ok
            &&& buy == Ok::<BuyRequest, ErrorKind>(
                BuyRequest {
                    version,
                    opening_fee_params: selected,
                    payment_size_msat: config.payment_size_msat,
                },
            )
            &&& invoice is Ok
            &&& invoice->Ok_0.0 == parsed_scid(bought.jit_channel_scid.0@)->0
            &&& invoice->Ok_0.1.config == config
            &&& done.inbound_channels_by_id.contains_key(id)
        }),
{
}

/// A message concerns no peer but the one that sent it.
pub proof fn lemma_peers_are_independent(
    manager: JITChannelManagerView,
    counterparty_node_id: PublicKey,
    other: PublicKey,
    peer: PeerStateView,
)
    requires
        other != counterparty_node_id,
    ensures
        ({
            let after = manager.with_peer(counterparty_node_id, peer);
            &&& after.peer(other) == manager.peer(other)
            &&& after.per_peer_state.contains_key(other) == manager.per_peer_state.contains_key(
                other,
            )
            &&& after.peer_by_scid == manager.peer_by_scid
        }),
{
}

/// Fee parameters that were given out under a secret are accepted in a `buy` request until they
/// expire.
pub proof fn lemma_promised_params_can_be_bought(
    manager: JITChannelManagerView,
    raw: RawOpeningFeeParams,
    params: OpeningFeeParams,
    seconds_since_epoch: u64,
)
    requires
        raw.promised_as(manager.promise_secret, params),
        not_past(rfc3339_seconds(raw.valid_until@), seconds_since_epoch),
    ensures
        params.valid_at(manager.promise_secret, seconds_since_epoch),
{
}

/// What an HTLC for a short channel id that was given out leads to: the channel is to be opened for
/// the least fee that is no less than the minimum and covers the proportional fee of the amount, and
/// the rest of the amount is to be forwarded. The amount covers the fee where it is no smaller.
pub proof fn lemma_htlc_pays_the_opening_fee(
    state: OutboundJITChannelState,
    expected_outbound_amount_msat: u64,
    intercept_id: InterceptId,
    fee: u64,
)
    ensures
        ({
            let outcome = state.after_htlc(expected_outbound_amount_msat, intercept_id);
            let params = state->opening_fee_params;
            let computable = expected_outbound_amount_msat * params.proportional + 999999
                <= u64::MAX;
            let right_fee = is_least_fee(
                fee as int,
                expected_outbound_amount_msat as int,
                params.min_fee_msat as int,
                params.proportional as int,
            );
            &&& state is InvoiceParametersGenerated && !computable ==> {
                &&& state.fee_covered(expected_outbound_amount_msat)
                &&& outcome == Err::<OutboundJITChannelState, ErrorKind>(
                    ErrorKind::OpeningFeeOverflow {
                        min_fee_msat: params.min_fee_msat,
                        proportional: params.proportional,
                        expected_outbound_amount_msat,
                    },
                )
            }
            &&& state is InvoiceParametersGenerated && computable && right_fee ==> {
                &&& state.fee_covered(expected_outbound_amount_msat) <==> fee
                    <= expected_outbound_amount_msat
                &&& outcome is Ok
                &&& outcome->Ok_0 is PendingChannelOpen
                &&& outcome->Ok_0->PendingChannelOpen_intercept_id == intercept_id
                &&& outcome->Ok_0->opening_fee_msat == fee
                &&& fee <= expected_outbound_amount_msat
                    ==> outcome->Ok_0->PendingChannelOpen_amt_to_forward_msat
                    == expected_outbound_amount_msat - fee
            }
            &&& !(state is InvoiceParametersGenerated) ==> {
                &&& state.fee_covered(expected_outbound_amount_msat)
                &&& outcome == Err::<OutboundJITChannelState, ErrorKind>(
                    ErrorKind::UnexpectedHtlc { state: ChannelState::SingleOutboundJIT(state) },
                )
            }
        }),
{
    lemma_opening_fee_is_least(
        expected_outbound_amount_msat,
        state->opening_fee_params.min_fee_msat,
        state->opening_fee_params.proportional as u64,
        fee as int,
    );
}

/// A channel is never opened for less than what the parameters ask: the fee is no less than the
/// minimum, it covers the proportional fee and is no more than that takes, and what it leaves of the
/// amount is forwarded.
pub proof fn lemma_opened_channel_is_charged_for(
    state: OutboundJITChannelState,
    expected_outbound_amount_msat: u64,
    intercept_id: InterceptId,
)
    requires
        state.fee_covered(expected_outbound_amount_msat),
        state.after_htlc(expected_outbound_amount_msat, intercept_id) is Ok,
    ensures
        state is InvoiceParametersGenerated,
        ({
            let next = state.after_htlc(expected_outbound_amount_msat, intercept_id)->Ok_0;
            let params = state->opening_fee_params;
            let owed = expected_outbound_amount_msat * params.proportional;
            &&& next is PendingChannelOpen
            &&& next->PendingChannelOpen_intercept_id == intercept_id
            &&& params.min_fee_msat <= next->opening_fee_msat
            &&& owed <= next->opening_fee_msat * 1000000
            &&& next->opening_fee_msat == params.min_fee_msat || (next->opening_fee_msat - 1)
                * 1000000 < owed
            &&& next->opening_fee_msat + next->PendingChannelOpen_amt_to_forward_msat
                == expected_outbound_amount_msat
        }),
{
    lemma_opening_fee_is_least(
        expected_outbound_amount_msat,
        state->opening_fee_params.min_fee_msat,
        state->opening_fee_params.proportional as u64,
        0,
    );
}

/// A channel becomes ready once it is paid for, with the HTLC and the amount to forward that it was
/// opened for, and at no other time.
pub proof fn lemma_paid_channel_becomes_ready(state: OutboundJITChannelState)
    ensures
        state is PendingChannelOpen ==> {
            &&& state.after_ready() is Ok
            &&& state.after_ready()->Ok_0 is ChannelReady
            &&& state.after_ready()->Ok_0->ChannelReady_intercept_id
                == state->PendingChannelOpen_intercept_id
            &&& state.after_ready()->Ok_0->ChannelReady_amt_to_forward_msat
                == state->PendingChannelOpen_amt_to_forward_msat
        },
        !(state is PendingChannelOpen) ==> state.after_ready() == Err::<
            OutboundJITChannelState,
            ErrorKind,
        >(ErrorKind::UnexpectedChannelReady { state: ChannelState::SingleOutboundJIT(state) }),
{
}

/// The negotiation of a channel to us takes its steps in one order: the versions, of which the first
/// is the one in use, then the menu, then the selection, then the short channel id. The version stays
/// the one that was agreed on.
pub proof fn lemma_negotiation_has_one_order(
    state: InboundJITChannelState,
    versions: Vec<u16>,
    client_trusts_lsp: bool,
    short_channel_id: JitChannelScid,
)
    ensures
        state is VersionsRequested && versions@.contains(1) ==> state.after_versions(versions) == Ok::<
            InboundJITChannelState,
            ErrorKind,
        >(InboundJITChannelState::MenuRequested { version: 1 }),
        !versions@.contains(1) ==> state.after_versions(versions) == Err::<
            InboundJITChannelState,
            ErrorKind,
        >(ErrorKind::NoSharedVersion { theirs: versions }),
        !(state is VersionsRequested) && versions@.contains(1) ==> state.after_versions(versions)
            == Err::<InboundJITChannelState, ErrorKind>(
            ErrorKind::UnexpectedVersions { state: ChannelState::VersionedInboundJIT(state) },
        ),
        state is MenuRequested ==> {
            &&& state.after_info() is Ok
            &&& state.after_info()->Ok_0 is PendingMenuSelection
            &&& state.after_info()->Ok_0->PendingMenuSelection_version
                == state->MenuRequested_version
        },
        !(state is MenuRequested) ==> state.after_info() == Err::<InboundJITChannelState, ErrorKind>(
            ErrorKind::UnexpectedInfo { state: ChannelState::VersionedInboundJIT(state) },
        ),
        state is PendingMenuSelection ==> {
            &&& state.after_selection() is Ok
            &&& state.after_selection()->Ok_0 is BuyRequested
            &&& state.after_selection()->Ok_0->BuyRequested_version
                == state->PendingMenuSelection_version
        },
        !(state is PendingMenuSelection) ==> state.after_selection() == Err::<
            InboundJITChannelState,
            ErrorKind,
        >(ErrorKind::UnexpectedSelection { state: ChannelState::VersionedInboundJIT(state) }),
        state is BuyRequested ==> {
            let next = state.after_invoice_params(client_trusts_lsp, short_channel_id);
            &&& next is Ok
            &&& next->Ok_0 is PendingPayment
            &&& next->Ok_0->client_trusts_lsp == client_trusts_lsp
            &&& next->Ok_0->PendingPayment_short_channel_id == short_channel_id
        },
        !(state is BuyRequested) ==> state.after_invoice_params(client_trusts_lsp, short_channel_id)
            == Err::<InboundJITChannelState, ErrorKind>(
            ErrorKind::UnexpectedInvoiceParams { state: ChannelState::VersionedInboundJIT(state) },
        ),
{
}

/// A change concerns one peer, and of that peer one channel or one request.
pub proof fn lemma_changes_are_local(
    manager: JITChannelManagerView,
    node: PublicKey,
    peer: PeerStateView,
    id: u128,
    inbound: InboundJITChannel,
    scid: u64,
    outbound: OutboundJITChannel,
    request_id: Seq<char>,
    request: Request,
)
    ensures
        manager.with_peer(node, peer).per_peer_state == manager.per_peer_state.insert(node, peer),
        manager.with_peer(node, peer).peer_by_scid == manager.peer_by_scid,
        manager.with_peer(node, peer).promise_secret == manager.promise_secret,
        manager.per_peer_state.contains_key(node) ==> manager.peer(node)
            == manager.per_peer_state[node],
        !manager.per_peer_state.contains_key(node) ==> {
            &&& manager.peer(node).inbound_channels_by_id == Map::<u128, InboundJITChannel>::empty()
            &&& manager.peer(node).outbound_channels_by_scid
                == Map::<u64, OutboundJITChannel>::empty()
            &&& manager.peer(node).request_to_cid == Map::<Seq<char>, u128>::empty()
            &&& manager.peer(node).pending_requests == Map::<Seq<char>, Request>::empty()
        },
        peer.with_inbound(id, inbound).inbound_channels_by_id == peer.inbound_channels_by_id.insert(
            id,
            inbound,
        ),
        peer.with_inbound(id, inbound).outbound_channels_by_scid == peer.outbound_channels_by_scid,
        peer.with_inbound(id, inbound).request_to_cid == peer.request_to_cid,
        peer.with_inbound(id, inbound).pending_requests == peer.pending_requests,
        peer.with_outbound(scid, outbound).outbound_channels_by_scid
            == peer.outbound_channels_by_scid.insert(scid, outbound),
        peer.with_outbound(scid, outbound).inbound_channels_by_id == peer.inbound_channels_by_id,
        peer.with_outbound(scid, outbound).request_to_cid == peer.request_to_cid,
        peer.with_outbound(scid, outbound).pending_requests == peer.pending_requests,
        peer.with_request(request_id, id).request_to_cid == peer.request_to_cid.insert(
            request_id,
            id,
        ),
        peer.with_request(request_id, id).inbound_channels_by_id == peer.inbound_channels_by_id,
        peer.with_request(request_id, id).outbound_channels_by_scid
            == peer.outbound_channels_by_scid,
        peer.with_request(request_id, id).pending_requests == peer.pending_requests,
        peer.with_pending(request_id, request).pending_requests == peer.pending_requests.insert(
            request_id,
            request,
        ),
        peer.with_pending(request_id, request).inbound_channels_by_id
            == peer.inbound_channels_by_id,
        peer.with_pending(request_id, request).outbound_channels_by_scid
            == peer.outbound_channels_by_scid,
        peer.with_pending(request_id, request).request_to_cid == peer.request_to_cid,
        peer.without_pending(request_id).pending_requests == peer.pending_requests.remove(
            request_id,
        ),
        peer.without_pending(request_id).inbound_channels_by_id == peer.inbound_channels_by_id,
        peer.without_pending(request_id).outbound_channels_by_scid
            == peer.outbound_channels_by_scid,
        peer.without_pending(request_id).request_to_cid == peer.request_to_cid,
{
}

/// A `buy` request is taken in, with or without a payment size, exactly where its promise is the one
/// that our secret gives for its other fields and its time has not passed. It then awaits our answer,
/// beside what awaited one before, and the user is told all that it says. Otherwise nothing changes.
pub proof fn lemma_buy_requests_need_a_valid_promise(
    manager: JITChannelManagerView,
    events: Seq<Event>,
    request_id: RequestId,
    node: PublicKey,
    params: BuyRequest,
    seconds_since_epoch: u64,
)
    ensures
        ({
            let (after, told) = manager.after_buy_request(
                events,
                request_id,
                node,
                params,
                seconds_since_epoch,
            );
            let offer = params.opening_fee_params;
            let promised = offer.promise@ == promise_text(
                manager.promise_secret,
                offer.min_fee_msat,
                offer.proportional,
                offer.valid_until@,
                offer.min_lifetime,
                offer.max_client_to_self_delay,
            );
            let in_time = rfc3339_seconds(offer.valid_until@) is Some && seconds_since_epoch
                <= rfc3339_seconds(offer.valid_until@)->0;
            let known = manager.per_peer_state.contains_key(node);
            let before = manager.per_peer_state[node];
            &&& !(promised && in_time) ==> after == manager && told == events
            &&& promised && in_time ==> {
                &&& told.len() == events.len() + 1
                &&& told.drop_last() == events
                &&& told.last() == Event::LSPS2(
                    LSPS2Event::BuyRequest {
                        request_id,
                        counterparty_node_id: node,
                        version: params.version,
                        opening_fee_params: offer,
                        payment_size_msat: params.payment_size_msat,
                    },
                )
                &&& after.per_peer_state.contains_key(node)
                &&& after.per_peer_state[node].pending_requests == (if known {
                    before.pending_requests
                } else {
                    Map::<Seq<char>, Request>::empty()
                }).insert(request_id.0@, Request::Buy(params))
                &&& known ==> {
                    &&& after.per_peer_state[node].inbound_channels_by_id
                        == before.inbound_channels_by_id
                    &&& after.per_peer_state[node].outbound_channels_by_scid
                        == before.outbound_channels_by_scid
                    &&& after.per_peer_state[node].request_to_cid == before.request_to_cid
                }
                &&& after.per_peer_state.remove(node) == manager.per_peer_state.remove(node)
                &&& after.peer_by_scid == manager.peer_by_scid
                &&& after.promise_secret == manager.promise_secret
            }
        }),
{
}

/// A `get_info` request is always taken in: it awaits our answer, beside what awaited one before, and
/// the user is told all that it says.
pub proof fn lemma_info_requests_are_handed_on(
    manager: JITChannelManagerView,
    events: Seq<Event>,
    request_id: RequestId,
    node: PublicKey,
    params: GetInfoRequest,
)
    ensures
        ({
            let (after, told) = manager.after_info_request(events, request_id, node, params);
            let known = manager.per_peer_state.contains_key(node);
            let before = manager.per_peer_state[node];
            &&& told == events.push(
                Event::LSPS2(
                    LSPS2Event::GetInfo {
                        request_id,
                        counterparty_node_id: node,
                        version: params.version,
                        token: params.token,
                    },
                ),
            )
            &&& after.per_peer_state.contains_key(node)
            &&& after.per_peer_state[node].pending_requests == (if known {
                before.pending_requests
            } else {
                Map::<Seq<char>, Request>::empty()
            }).insert(request_id.0@, Request::GetInfo(params))
            &&& known ==> {
                &&& after.per_peer_state[node].inbound_channels_by_id
                    == before.inbound_channels_by_id
                &&& after.per_peer_state[node].outbound_channels_by_scid
                    == before.outbound_channels_by_scid
                &&& after.per_peer_state[node].request_to_cid == before.request_to_cid
            }
            &&& after.per_peer_state.remove(node) == manager.per_peer_state.remove(node)
            &&& after.peer_by_scid == manager.peer_by_scid
            &&& after.promise_secret == manager.promise_secret
        }),
{
}

/// A reply belongs to the channel that its request was made for. It ends the request, and the channel
/// is kept only if the reply is one that it awaits. A reply to no request changes nothing.
pub proof fn lemma_replies_find_their_channel(
    peer: PeerStateView,
    request_id: RequestId,
    reply: Reply,
)
    ensures
        ({
            let (after, taken) = peer.reply_taken(request_id, reply);
            let asked = peer.request_to_cid.contains_key(request_id.0@);
            let id = peer.request_to_cid[request_id.0@];
            let found = peer.inbound_channels_by_id.contains_key(id);
            &&& !asked ==> after == peer && taken == Err::<(u128, InboundJITChannel), ErrorKind>(
                ErrorKind::UnknownRequest { reply, request_id },
            )
            &&& asked ==> after.request_to_cid == peer.request_to_cid.remove(request_id.0@)
            &&& asked && !found ==> after.inbound_channels_by_id == peer.inbound_channels_by_id
                && taken == Err::<(u128, InboundJITChannel), ErrorKind>(
                ErrorKind::UnknownChannel { reply, channel_id: id },
            )
            &&& asked && found ==> after.inbound_channels_by_id
                == peer.inbound_channels_by_id.remove(id) && taken == Ok::<
                (u128, InboundJITChannel),
                ErrorKind,
            >((id, peer.inbound_channels_by_id[id]))
            &&& after.outbound_channels_by_scid == peer.outbound_channels_by_scid
            &&& after.pending_requests == peer.pending_requests
            &&& peer.error_step(request_id, reply).0 == after
            &&& peer.error_step(request_id, reply).1 is Ok <==> asked && found
            &&& peer.error_step(request_id, reply).1 is Err ==> peer.error_step(
                request_id,
                reply,
            ).1->Err_0 == taken->Err_0
        }),
{
}

/// A reply that a channel awaits takes it one step on, and makes the next request in its name: the
/// versions lead to a request for the menu with the user's token, the menu waits for a selection, the
/// selection leads to a purchase for the user's payment size, and the purchase leads to a short
/// channel id. What the user asked for stays as it was.
pub proof fn lemma_awaited_replies_lead_on(
    peer: PeerStateView,
    request_id: RequestId,
    versions: Vec<u16>,
    next_request_id: Seq<char>,
    selected: OpeningFeeParams,
    bought: BuyResponse,
)
    requires
        peer.request_to_cid.contains_key(request_id.0@),
        peer.inbound_channels_by_id.contains_key(peer.request_to_cid[request_id.0@]),
    ensures
        ({
            let id = peer.request_to_cid[request_id.0@];
            let channel = peer.inbound_channels_by_id[id];
            let ended = peer.request_to_cid.remove(request_id.0@);
            let (offered, info) = peer.versions_step(request_id, versions, next_request_id);
            let (shown, menu) = peer.info_step(request_id);
            let (chosen, buy) = peer.selection_step(id, selected, next_request_id);
            let (done, invoice) = peer.buy_step(request_id, bought);
            &&& channel.state is VersionsRequested && versions@.contains(1) ==> {
                let next = offered.inbound_channels_by_id[id];
                &&& info is Ok
                &&& info->Ok_0.version == 1
                &&& info->Ok_0.token == channel.config.token
                &&& offered.request_to_cid == ended.insert(next_request_id, id)
                &&& offered.inbound_channels_by_id == peer.inbound_channels_by_id.insert(id, next)
                &&& next.id == channel.id
                &&& next.config == channel.config
                &&& next.state == InboundJITChannelState::MenuRequested { version: 1 }
            }
            &&& !(channel.state is VersionsRequested && versions@.contains(1)) ==> {
                &&& info is Err
                &&& offered.request_to_cid == ended
                &&& offered.inbound_channels_by_id == peer.inbound_channels_by_id.remove(id)
            }
            &&& channel.state is MenuRequested ==> {
                let next = shown.inbound_channels_by_id[id];
                &&& menu == Ok::<InboundJITChannel, ErrorKind>(next)
                &&& shown.request_to_cid == ended
                &&& shown.inbound_channels_by_id == peer.inbound_channels_by_id.insert(id, next)
                &&& next.id == channel.id
                &&& next.config == channel.config
                &&& next.state is PendingMenuSelection
                &&& next.state->PendingMenuSelection_version == channel.state->MenuRequested_version
            }
            &&& !(channel.state is MenuRequested) ==> {
                &&& menu is Err
                &&& shown.request_to_cid == ended
                &&& shown.inbound_channels_by_id == peer.inbound_channels_by_id.remove(id)
            }
            &&& channel.state is PendingMenuSelection ==> {
                let next = chosen.inbound_channels_by_id[id];
                &&& buy is Ok
                &&& buy->Ok_0.version == channel.state->PendingMenuSelection_version
                &&& buy->Ok_0.opening_fee_params == selected
                &&& buy->Ok_0.payment_size_msat == channel.config.payment_size_msat
                &&& chosen.request_to_cid == peer.request_to_cid.insert(next_request_id, id)
                &&& chosen.inbound_channels_by_id == peer.inbound_channels_by_id.insert(id, next)
                &&& next.id == channel.id
                &&& next.config == channel.config
                &&& next.state is BuyRequested
                &&& next.state->BuyRequested_version == channel.state->PendingMenuSelection_version
            }
            &&& !(channel.state is PendingMenuSelection) ==> {
                &&& buy is Err
                &&& chosen.request_to_cid == peer.request_to_cid
                &&& chosen.inbound_channels_by_id == peer.inbound_channels_by_id.remove(id)
            }
            &&& channel.state is BuyRequested ==> {
                let next = done.inbound_channels_by_id[id];
                let scid = parsed_scid(bought.jit_channel_scid.0@);
                &&& done.request_to_cid == ended
                &&& done.inbound_channels_by_id == peer.inbound_channels_by_id.insert(id, next)
                &&& next.id == channel.id
                &&& next.config == channel.config
                &&& next.state is PendingPayment
                &&& next.state->client_trusts_lsp == bought.client_trusts_lsp
                &&& next.state->PendingPayment_short_channel_id == bought.jit_channel_scid
                &&& scid is Some ==> invoice == Ok::<(u64, InboundJITChannel), ErrorKind>(
                    (scid->0, next),
                )
                &&& scid is None ==> invoice == Err::<(u64, InboundJITChannel), ErrorKind>(
                    ErrorKind::InvalidScid { text: bought.jit_channel_scid.0 },
                )
            }
            &&& !(channel.state is BuyRequested) ==> {
                &&& invoice is Err
                &&& done.request_to_cid == ended
                &&& done.inbound_channels_by_id == peer.inbound_channels_by_id.remove(id)
            }
            &&& offered.outbound_channels_by_scid == peer.outbound_channels_by_scid
                && shown.outbound_channels_by_scid == peer.outbound_channels_by_scid
                && chosen.outbound_channels_by_scid == peer.outbound_channels_by_scid
                && done.outbound_channels_by_scid == peer.outbound_channels_by_scid
            &&& offered.pending_requests == peer.pending_requests && shown.pending_requests
                == peer.pending_requests && chosen.pending_requests == peer.pending_requests
                && done.pending_requests == peer.pending_requests
        }),
{
}

/// The user is told the menu and the invoice parameters exactly where the reply that carries them is
/// taken in: the menu as the LSP sent it, and the short channel id that its text denotes. Each event
/// names the user's own id for the channel. A reply from an unknown peer changes nothing.
pub proof fn lemma_users_are_told_of_replies(
    manager: JITChannelManagerView,
    events: Seq<Event>,
    request_id: RequestId,
    node: PublicKey,
    offered: GetInfoResponse,
    bought: BuyResponse,
    reply: Reply,
)
    ensures
        ({
            let known = manager.per_peer_state.contains_key(node);
            let peer = manager.per_peer_state[node];
            let id = peer.request_to_cid[request_id.0@];
            let found = known && peer.request_to_cid.contains_key(request_id.0@)
                && peer.inbound_channels_by_id.contains_key(id);
            let channel = peer.inbound_channels_by_id[id];
            let (shown, menu_told, menu) = manager.after_info_response(
                events,
                request_id,
                node,
                offered,
            );
            let (done, invoice_told, invoice) = manager.after_buy_response(
                events,
                request_id,
                node,
                bought,
            );
            let (ended, ending) = manager.after_error(request_id, node, reply);
            &&& menu is Ok <==> found && channel.state is MenuRequested
            &&& menu is Ok ==> menu_told == events.push(
                Event::LSPS2(
                    LSPS2Event::GetInfoResponse {
                        jit_channel_id: channel.id,
                        counterparty_node_id: node,
                        opening_fee_params_menu: offered.opening_fee_params_menu,
                        min_payment_size_msat: offered.min_payment_size_msat,
                        max_payment_size_msat: offered.max_payment_size_msat,
                        user_channel_id: channel.config.user_id,
                    },
                ),
            )
            &&& menu is Err ==> menu_told == events
            &&& invoice is Ok <==> found && channel.state is BuyRequested && parsed_scid(
                bought.jit_channel_scid.0@,
            ) is Some
            &&& invoice is Ok ==> invoice_told == events.push(
                Event::LSPS2(
                    LSPS2Event::InvoiceGenerationReady {
                        counterparty_node_id: node,
                        scid: parsed_scid(bought.jit_channel_scid.0@)->0,
                        cltv_expiry_delta: bought.lsp_cltv_expiry_delta,
                        payment_size_msat: channel.config.payment_size_msat,
                        client_trusts_lsp: bought.client_trusts_lsp,
                        user_channel_id: channel.config.user_id,
                    },
                ),
            )
            &&& invoice is Err ==> invoice_told == events
            &&& ending is Ok <==> found
            &&& !known ==> {
                &&& shown == manager && done == manager && ended == manager
                &&& menu->Err_0.err == (ErrorKind::UnknownPeer {
                    reply: Reply::GetInfoResponse,
                    counterparty_node_id: node,
                })
                &&& invoice->Err_0.err == (ErrorKind::UnknownPeer {
                    reply: Reply::BuyResponse,
                    counterparty_node_id: node,
                })
                &&& ending->Err_0.err == (ErrorKind::UnknownPeer {
                    reply,
                    counterparty_node_id: node,
                })
            }
            &&& known ==> {
                &&& shown.per_peer_state == manager.per_peer_state.insert(
                    node,
                    peer.info_step(request_id).0,
                )
                &&& done.per_peer_state == manager.per_peer_state.insert(
                    node,
                    peer.buy_step(request_id, bought).0,
                )
                &&& ended.per_peer_state == manager.per_peer_state.insert(
                    node,
                    peer.reply_taken(request_id, reply).0,
                )
                &&& menu is Err ==> menu->Err_0.err == peer.info_step(request_id).1->Err_0
                &&& invoice is Err ==> invoice->Err_0.err == peer.buy_step(
                    request_id,
                    bought,
                ).1->Err_0
            }
            &&& shown.peer_by_scid == manager.peer_by_scid && done.peer_by_scid
                == manager.peer_by_scid && ended.peer_by_scid == manager.peer_by_scid
            &&& shown.promise_secret == manager.promise_secret && done.promise_secret
                == manager.promise_secret && ended.promise_secret == manager.promise_secret
        }),
{
}

/// The channel that an HTLC is for is the one that was sold under its short channel id to the client
/// that bought it.
pub proof fn lemma_channels_are_found_by_scid(
    manager: JITChannelManagerView,
    scid: u64,
    node: PublicKey,
    channel: OutboundJITChannel,
    amount_msat: u64,
)
    ensures
        manager.awaiting_htlc(scid) == Some((node, channel)) <==> {
            &&& manager.peer_by_scid.contains_key(scid)
            &&& manager.peer_by_scid[scid] == node
            &&& manager.per_peer_state.contains_key(node)
            &&& manager.per_peer_state[node].outbound_channels_by_scid.contains_key(scid)
            &&& manager.per_peer_state[node].outbound_channels_by_scid[scid] == channel
        },
        manager.awaiting_htlc(scid) == Some((node, channel)) ==> manager.fee_covered(
            scid,
            amount_msat,
        ) == channel.state.fee_covered(amount_msat),
        manager.awaiting_htlc(scid) is None ==> manager.fee_covered(scid, amount_msat),
{
}

/// What is sent is one more message, to the peer that it is for: a request under an id made of the
/// given randomness, or an answer under the id of the request that it answers.
pub proof fn lemma_what_is_sent(
    before: Seq<(PublicKey, LSPSMessage)>,
    after: Seq<(PublicKey, LSPSMessage)>,
    node: PublicKey,
    entropy: Seq<u8>,
    request: Request,
    request_id: RequestId,
    response: Response,
)
    ensures
        request_enqueued(before, after, node, entropy, request) ==> {
            &&& after.len() == before.len() + 1
            &&& forall|i: int| 0 <= i < before.len() ==> #[trigger] after[i] == before[i]
            &&& after.last().0 == node
            &&& after.last().1 matches LSPSMessage::LSPS2(Message::Request(id, sent)) && id.0@
                == request_id_text(entropy) && sent == request
        },
        JITChannelManagerView::versions_answered(before, after, request_id, node) ==> {
            &&& after.len() == before.len() + 1
            &&& forall|i: int| 0 <= i < before.len() ==> #[trigger] after[i] == before[i]
            &&& after.last().0 == node
            &&& after.last().1 matches LSPSMessage::LSPS2(
                Message::Response(id, Response::GetVersions(listed)),
            ) && id == request_id && listed.versions@.len() == 1 && listed.versions@[0] == 1
        },
        with_response(before, node, request_id, response).len() == before.len() + 1,
        forall|i: int|
            0 <= i < before.len() ==> #[trigger] with_response(
                before,
                node,
                request_id,
                response,
            )[i] == before[i],
        with_response(before, node, request_id, response).last() == (
            node,
            LSPSMessage::LSPS2(Message::Response(request_id, response)),
        ),
{
    assert forall|i: int|
        after.len() == before.len() + 1 && after.drop_last() == before && 0 <= i
            < before.len() implies #[trigger] after[i] == before[i] by {
        assert(after.drop_last()[i] == before[i]);
    }
}

/// The versions that an LSP answers with are taken in by the step of the channel that asked: where it
/// goes on, the menu is asked for, and where it does not, nothing is sent.
pub proof fn lemma_versions_lead_to_the_menu(
    manager: JITChannelManagerView,
    after: JITChannelManagerView,
    messages: Seq<(PublicKey, LSPSMessage)>,
    messages_after: Seq<(PublicKey, LSPSMessage)>,
    request_id: RequestId,
    node: PublicKey,
    versions: Vec<u16>,
    request_entropy: Seq<u8>,
    result: Result<(), LightningError>,
)
    requires
        manager.versions_taken_in(
            after,
            messages,
            messages_after,
            request_id,
            node,
            versions,
            request_entropy,
            result,
        ),
    ensures
        ({
            let known = manager.per_peer_state.contains_key(node);
            let peer = manager.per_peer_state[node];
            let id = peer.request_to_cid[request_id.0@];
            let channel = peer.inbound_channels_by_id[id];
            let goes_on = known && peer.request_to_cid.contains_key(request_id.0@)
                && peer.inbound_channels_by_id.contains_key(id) && channel.state
                is VersionsRequested && versions@.contains(1);
            &&& result is Ok <==> goes_on
            &&& goes_on ==> {
                &&& messages_after.len() == messages.len() + 1
                &&& messages_after.drop_last() == messages
                &&& messages_after.last().0 == node
                &&& messages_after.last().1 matches LSPSMessage::LSPS2(
                    Message::Request(asked, Request::GetInfo(params)),
                ) && asked.0@ == request_id_text(request_entropy) && params.version == 1
                    && params.token == channel.config.token
            }
            &&& !goes_on ==> messages_after == messages
            &&& known ==> after.per_peer_state == manager.per_peer_state.insert(
                node,
                peer.versions_step(request_id, versions, request_id_text(request_entropy)).0,
            )
            &&& !known ==> after.per_peer_state == manager.per_peer_state
            &&& after.peer_by_scid == manager.peer_by_scid
            &&& after.promise_secret == manager.promise_secret
        }),
{
}

/// A purchase of a client is handed to the user, with or without a payment size, exactly where its
/// promise is the one that our secret gives for its other fields and its time has not passed: then it
/// awaits our answer and one event tells of it. Otherwise the manager and the events stay as they are.
/// No message is sent either way.
pub proof fn lemma_purchases_at_the_manager(
    manager: &mut JITChannelManager,
    request_id: RequestId,
    params: BuyRequest,
    node: PublicKey,
    seconds_since_epoch: u64,
    request_entropy: [u8; 32],
    messages: &mut Vec<(PublicKey, LSPSMessage)>,
    events: &mut EventQueue,
    result: Result<(), LightningError>,
)
    requires
        call_ensures(
            JITChannelManager::handle_message,
            (
                manager,
                Message::Request(request_id, Request::Buy(params)),
                &node,
                seconds_since_epoch,
                &request_entropy,
                messages,
                events,
            ),
            result,
        ),
    ensures
        ({
            let before = old(manager)@;
            let after = final(manager)@;
            let offer = params.opening_fee_params;
            let promised = offer.promise@ == promise_text(
                before.promise_secret,
                offer.min_fee_msat,
                offer.proportional,
                offer.valid_until@,
                offer.min_lifetime,
                offer.max_client_to_self_delay,
            );
            let in_time = rfc3339_seconds(offer.valid_until@) is Some && seconds_since_epoch
                <= rfc3339_seconds(offer.valid_until@)->0;
            let known = before.per_peer_state.contains_key(node);
            &&& result is Ok
            &&& final(messages)@ == old(messages)@
            &&& promised && in_time ==> {
                &&& final(events)@.len() == old(events)@.len() + 1
                &&& final(events)@.drop_last() == old(events)@
                &&& final(events)@.last() == Event::LSPS2(
                    LSPS2Event::BuyRequest {
                        request_id,
                        counterparty_node_id: node,
                        version: params.version,
                        opening_fee_params: offer,
                        payment_size_msat: params.payment_size_msat,
                    },
                )
                &&& after.per_peer_state == before.per_peer_state.insert(
                    node,
                    after.per_peer_state[node],
                )
                &&& after.per_peer_state[node].pending_requests == (if known {
                    before.per_peer_state[node].pending_requests
                } else {
                    Map::<Seq<char>, Request>::empty()
                }).insert(request_id.0@, Request::Buy(params))
            }
            &&& !(promised && in_time) ==> after == before && final(events)@ == old(events)@
            &&& after.peer_by_scid == before.peer_by_scid
            &&& after.promise_secret == before.promise_secret
        }),
{
}

/// What an intercepted HTLC leads to at the manager. Where it is the first for a short channel id that
/// was given out, and the opening fee can be computed, the user is told to open a channel to the client:
/// for the least fee that is no less than the minimum and covers the proportional fee of the amount, with
/// the rest of the amount to be forwarded. Any other HTLC for a channel is to be failed, and one for no
/// channel is left alone.
pub proof fn lemma_intercepted_htlcs(
    manager: &mut JITChannelManager,
    scid: u64,
    intercept_id: InterceptId,
    inbound_amount_msat: u64,
    amount_msat: u64,
    events: &mut EventQueue,
    to_fail: Result<Option<HtlcToFail>, APIError>,
    node: PublicKey,
)
    requires
        call_ensures(
            JITChannelManager::htlc_intercepted,
            (manager, scid, intercept_id, inbound_amount_msat, amount_msat, events),
            to_fail,
        ),
        old(manager)@.fee_covered(scid, amount_msat),
        old(manager)@.peer_by_scid.contains_key(scid) ==> old(manager)@.peer_by_scid[scid] == node,
    ensures
        ({
            let before = old(manager)@;
            let after = final(manager)@;
            let sold = before.peer_by_scid.contains_key(scid);
            let known = sold && before.per_peer_state.contains_key(node);
            let channels = before.per_peer_state[node].outbound_channels_by_scid;
            let found = known && channels.contains_key(scid);
            let offer = channels[scid].state->opening_fee_params;
            let opens = found && channels[scid].state is InvoiceParametersGenerated && amount_msat
                * offer.proportional + 999999 <= u64::MAX;
            &&& after.peer_by_scid == before.peer_by_scid
            &&& after.promise_secret == before.promise_secret
            &&& opens ==> {
                let next = after.per_peer_state[node].outbound_channels_by_scid[scid].state;
                let fee = next->opening_fee_msat;
                &&& to_fail == Ok::<Option<HtlcToFail>, APIError>(None)
                &&& next is PendingChannelOpen
                &&& next->PendingChannelOpen_intercept_id == intercept_id
                &&& offer.min_fee_msat <= fee
                &&& amount_msat * offer.proportional <= fee * 1000000
                &&& fee == offer.min_fee_msat || (fee - 1) * 1000000 < amount_msat
                    * offer.proportional
                &&& fee + next->PendingChannelOpen_amt_to_forward_msat == amount_msat
                &&& final(events)@ == old(events)@.push(
                    Event::LSPS2(
                        LSPS2Event::OpenChannel {
                            their_network_key: node,
                            inbound_amount_msat,
                            expected_outbound_amount_msat: amount_msat,
                            amt_to_forward_msat: next->PendingChannelOpen_amt_to_forward_msat,
                            opening_fee_msat: fee,
                            user_channel_id: scid as u128,
                        },
                    ),
                )
                &&& after.per_peer_state == before.per_peer_state.insert(
                    node,
                    after.per_peer_state[node],
                )
                &&& after.per_peer_state[node].outbound_channels_by_scid == channels.insert(
                    scid,
                    after.per_peer_state[node].outbound_channels_by_scid[scid],
                )
                &&& after.per_peer_state[node].inbound_channels_by_id
                    == before.per_peer_state[node].inbound_channels_by_id
                &&& after.per_peer_state[node].request_to_cid
                    == before.per_peer_state[node].request_to_cid
                &&& after.per_peer_state[node].pending_requests
                    == before.per_peer_state[node].pending_requests
            }
            &&& !opens ==> after == before && final(events)@ == old(events)@
            &&& found && !opens ==> {
                &&& to_fail is Ok
                &&& to_fail->Ok_0 is Some
                &&& to_fail->Ok_0->0.intercept_id == intercept_id
                &&& to_fail->Ok_0->0.counterparty_node_id == node
                &&& to_fail->Ok_0->0.scid == scid
            }
            &&& sold && !known ==> to_fail == Err::<Option<HtlcToFail>, APIError>(
                APIError::APIMisuseError { err: ErrorKind::NoPeerForScid { scid } },
            )
            &&& !sold || known && !found ==> to_fail == Ok::<Option<HtlcToFail>, APIError>(None)
        }),
{
    let state = old(manager)@.per_peer_state[node].outbound_channels_by_scid[scid].state;
    lemma_opening_fee_is_least(
        amount_msat,
        state->opening_fee_params.min_fee_msat,
        state->opening_fee_params.proportional as u64,
        0,
    );
}

/// Failing an HTLC gives up the channel that it was for, and nothing else, and the reason is reported.
pub proof fn lemma_failed_htlcs_give_up_their_channel(
    manager: &mut JITChannelManager,
    failed: HtlcToFail,
    error: APIError,
)
    requires
        call_ensures(JITChannelManager::intercepted_htlc_failed, (manager, failed), error),
    ensures
        ({
            let before = old(manager)@;
            let after = final(manager)@;
            let node = failed.counterparty_node_id;
            &&& error == (APIError::APIMisuseError { err: failed.err })
            &&& !before.per_peer_state.contains_key(node) ==> after == before
            &&& before.per_peer_state.contains_key(node) ==> {
                let peer = before.per_peer_state[node];
                let next = after.per_peer_state[node];
                &&& after.per_peer_state == before.per_peer_state.insert(node, next)
                &&& next.outbound_channels_by_scid == peer.outbound_channels_by_scid.remove(
                    failed.scid,
                )
                &&& next.inbound_channels_by_id == peer.inbound_channels_by_id
                &&& next.request_to_cid == peer.request_to_cid
                &&& next.pending_requests == peer.pending_requests
            }
            &&& after.peer_by_scid == before.peer_by_scid
            &&& after.promise_secret == before.promise_secret
        }),
{
}

/// Once a channel that was paid for is ready, its HTLC is forwarded with the amount that was split off
/// for it. No other channel forwards anything.
pub proof fn lemma_ready_channels_forward_their_htlc(
    manager: &mut JITChannelManager,
    user_channel_id: u128,
    node: PublicKey,
    to_forward: Result<Option<HtlcToForward>, APIError>,
)
    requires
        call_ensures(
            JITChannelManager::channel_ready,
            (manager, user_channel_id, &node),
            to_forward,
        ),
    ensures
        ({
            let before = old(manager)@;
            let after = final(manager)@;
            let scid = user_channel_id as u64;
            let fits = user_channel_id <= u64::MAX;
            let known = fits && before.per_peer_state.contains_key(node);
            let peer = before.per_peer_state[node];
            let found = known && peer.outbound_channels_by_scid.contains_key(scid);
            let state = peer.outbound_channels_by_scid[scid].state;
            let next = after.per_peer_state[node];
            &&& found && state is PendingChannelOpen ==> {
                &&& to_forward is Ok
                &&& to_forward->Ok_0 is Some
                &&& to_forward->Ok_0->0.intercept_id == state->PendingChannelOpen_intercept_id
                &&& to_forward->Ok_0->0.amt_to_forward_msat
                    == state->PendingChannelOpen_amt_to_forward_msat
                &&& after.per_peer_state == before.per_peer_state.insert(node, next)
                &&& next.outbound_channels_by_scid == peer.outbound_channels_by_scid.insert(
                    scid,
                    next.outbound_channels_by_scid[scid],
                )
                &&& next.outbound_channels_by_scid[scid].state == (
                OutboundJITChannelState::ChannelReady {
                    intercept_id: state->PendingChannelOpen_intercept_id,
                    amt_to_forward_msat: state->PendingChannelOpen_amt_to_forward_msat,
                })
                &&& next.inbound_channels_by_id == peer.inbound_channels_by_id
                &&& next.request_to_cid == peer.request_to_cid
                &&& next.pending_requests == peer.pending_requests
            }
            &&& !(found && state is PendingChannelOpen) ==> after == before
            &&& !fits ==> to_forward == Ok::<Option<HtlcToForward>, APIError>(None)
            &&& fits && !(found && state is PendingChannelOpen) ==> to_forward is Err
            &&& fits && !known ==> to_forward->Err_0->err == (ErrorKind::NoPeerState {
                counterparty_node_id: node,
            })
            &&& known && !found ==> to_forward->Err_0->err == (ErrorKind::UserChannelNotFound {
                user_channel_id,
            })
            &&& after.peer_by_scid == before.peer_by_scid
            &&& after.promise_secret == before.promise_secret
        }),
{
}

/// Asking for a channel starts its negotiation: the LSP is asked for its versions, and the channel keeps
/// what the user asked for.
pub proof fn lemma_negotiations_start(
    manager: &mut JITChannelManager,
    node: PublicKey,
    payment_size_msat: Option<u64>,
    token: Option<String>,
    user_channel_id: u128,
    channel_entropy: [u8; 32],
    request_entropy: [u8; 32],
    messages: &mut Vec<(PublicKey, LSPSMessage)>,
    result: (),
)
    requires
        call_ensures(
            JITChannelManager::create_invoice,
            (
                manager,
                node,
                payment_size_msat,
                token,
                user_channel_id,
                &channel_entropy,
                &request_entropy,
                messages,
            ),
            result,
        ),
    ensures
        ({
            let before = old(manager)@;
            let after = final(manager)@;
            let id = be_value(channel_entropy@.take(16)) as u128;
            let request_id = request_id_text(request_entropy@);
            let next = after.per_peer_state[node];
            let started = next.inbound_channels_by_id[id];
            &&& final(messages)@.len() == old(messages)@.len() + 1
            &&& final(messages)@.drop_last() == old(messages)@
            &&& final(messages)@.last().0 == node
            &&& final(messages)@.last().1 matches LSPSMessage::LSPS2(
                Message::Request(asked, Request::GetVersions(_)),
            ) && asked.0@ == request_id
            &&& after.per_peer_state == before.per_peer_state.insert(node, next)
            &&& next.inbound_channels_by_id.contains_key(id)
            &&& next.request_to_cid.contains_key(request_id)
            &&& next.request_to_cid[request_id] == id
            &&& started.id == id
            &&& started.state is VersionsRequested
            &&& started.config.user_id == user_channel_id
            &&& started.config.token == token
            &&& started.config.payment_size_msat == payment_size_msat
            &&& before.per_peer_state.contains_key(node) ==> {
                let peer = before.per_peer_state[node];
                &&& next.inbound_channels_by_id == peer.inbound_channels_by_id.insert(id, started)
                &&& next.request_to_cid == peer.request_to_cid.insert(request_id, id)
                &&& next.outbound_channels_by_scid == peer.outbound_channels_by_scid
                &&& next.pending_requests == peer.pending_requests
            }
            &&& after.peer_by_scid == before.peer_by_scid
            &&& after.promise_secret == before.promise_secret
        }),
{
}

/// A selection buys the channel that awaits one: the LSP is asked for it with the parameters that were
/// selected, the version that was agreed on and the payment size that the user asked for. Any other
/// channel is given up, and nothing is sent.
pub proof fn lemma_selections_are_bought(
    manager: &mut JITChannelManager,
    node: PublicKey,
    id: u128,
    selected: OpeningFeeParams,
    request_entropy: [u8; 32],
    messages: &mut Vec<(PublicKey, LSPSMessage)>,
    result: Result<(), APIError>,
)
    requires
        call_ensures(
            JITChannelManager::opening_fee_params_selected,
            (manager, node, id, selected, &request_entropy, messages),
            result,
        ),
    ensures
        ({
            let before = old(manager)@;
            let after = final(manager)@;
            let known = before.per_peer_state.contains_key(node);
            let peer = before.per_peer_state[node];
            let found = known && peer.inbound_channels_by_id.contains_key(id);
            let channel = peer.inbound_channels_by_id[id];
            let buys = found && channel.state is PendingMenuSelection;
            let next = after.per_peer_state[node];
            &&& result is Ok <==> buys
            &&& !buys ==> final(messages)@ == old(messages)@
            &&& buys ==> {
                &&& final(messages)@.len() == old(messages)@.len() + 1
                &&& final(messages)@.drop_last() == old(messages)@
                &&& final(messages)@.last().0 == node
                &&& final(messages)@.last().1 matches LSPSMessage::LSPS2(
                    Message::Request(asked, Request::Buy(bought)),
                ) && asked.0@ == request_id_text(request_entropy@) && bought.opening_fee_params
                    == selected && bought.version == channel.state->PendingMenuSelection_version
                    && bought.payment_size_msat == channel.config.payment_size_msat
                &&& next.inbound_channels_by_id == peer.inbound_channels_by_id.insert(
                    id,
                    next.inbound_channels_by_id[id],
                )
                &&& next.inbound_channels_by_id[id].state is BuyRequested
                &&& next.inbound_channels_by_id[id].config == channel.config
                &&& next.request_to_cid == peer.request_to_cid.insert(
                    request_id_text(request_entropy@),
                    id,
                )
            }
            &&& found && !buys ==> {
                &&& next.inbound_channels_by_id == peer.inbound_channels_by_id.remove(id)
                &&& result->Err_0->err == (ErrorKind::UnexpectedSelection {
                    state: ChannelState::VersionedInboundJIT(channel.state),
                })
            }
            &&& known && !found ==> next == peer && result->Err_0->err == (
            ErrorKind::ChannelNotFound { channel_id: id })
            &&& known ==> {
                &&& after.per_peer_state == before.per_peer_state.insert(node, next)
                &&& next.outbound_channels_by_scid == peer.outbound_channels_by_scid
                &&& next.pending_requests == peer.pending_requests
            }
            &&& !known ==> after == before && result->Err_0->err == (ErrorKind::NoPeerState {
                counterparty_node_id: node,
            })
            &&& after.peer_by_scid == before.peer_by_scid
            &&& after.promise_secret == before.promise_secret
        }),
{
}

/// A menu answers the request that asked for one: it is sent to the client, under the id of the request,
/// with the entries that were given, a promise for each of them, and the given limits. Where there is no
/// such request, nothing is sent.
pub proof fn lemma_menus_answer_requests(
    manager: &mut JITChannelManager,
    node: PublicKey,
    request_id: RequestId,
    raw: Vec<RawOpeningFeeParams>,
    min_payment_size_msat: u64,
    max_payment_size_msat: u64,
    messages: &mut Vec<(PublicKey, LSPSMessage)>,
    result: Result<(), APIError>,
)
    requires
        call_ensures(
            JITChannelManager::opening_fee_params_generated,
            (
                manager,
                node,
                request_id,
                raw,
                min_payment_size_msat,
                max_payment_size_msat,
                messages,
            ),
            result,
        ),
    ensures
        ({
            let before = old(manager)@;
            let after = final(manager)@;
            let known = before.per_peer_state.contains_key(node);
            let peer = before.per_peer_state[node];
            let asked = known && peer.pending_requests.contains_key(request_id.0@)
                && peer.pending_requests[request_id.0@] is GetInfo;
            &&& result is Ok <==> asked
            &&& !asked ==> final(messages)@ == old(messages)@
            &&& asked ==> {
                &&& final(messages)@.len() == old(messages)@.len() + 1
                &&& final(messages)@.drop_last() == old(messages)@
                &&& final(messages)@.last().0 == node
                &&& final(messages)@.last().1 matches LSPSMessage::LSPS2(
                    Message::Response(id, Response::GetInfo(menu)),
                ) && {
                    &&& id == request_id
                    &&& menu.min_payment_size_msat == min_payment_size_msat
                    &&& menu.max_payment_size_msat == max_payment_size_msat
                    &&& menu.opening_fee_params_menu@.len() == raw@.len()
                    &&& forall|i: int|
                        0 <= i < raw@.len() ==> {
                            let entry = #[trigger] menu.opening_fee_params_menu@[i];
                            &&& entry.min_fee_msat == raw@[i].min_fee_msat
                            &&& entry.proportional == raw@[i].proportional
                            &&& entry.valid_until@ == raw@[i].valid_until@
                            &&& entry.min_lifetime == raw@[i].min_lifetime
                            &&& entry.max_client_to_self_delay == raw@[i].max_client_to_self_delay
                            &&& entry.promise@ == promise_text(
                                before.promise_secret,
                                raw@[i].min_fee_msat,
                                raw@[i].proportional,
                                raw@[i].valid_until@,
                                raw@[i].min_lifetime,
                                raw@[i].max_client_to_self_delay,
                            )
                        }
                }
            }
            &&& known ==> {
                let next = after.per_peer_state[node];
                &&& after.per_peer_state == before.per_peer_state.insert(node, next)
                &&& next.pending_requests == peer.pending_requests.remove(request_id.0@)
                &&& next.outbound_channels_by_scid == peer.outbound_channels_by_scid
                &&& next.inbound_channels_by_id == peer.inbound_channels_by_id
                &&& next.request_to_cid == peer.request_to_cid
            }
            &&& !known ==> after == before && result->Err_0->err == (ErrorKind::NoPeerState {
                counterparty_node_id: node,
            })
            &&& known && !asked ==> result->Err_0->err == (ErrorKind::NoPendingRequest {
                request: PeerRequest::GetInfo,
                request_id,
            })
            &&& after.peer_by_scid == before.peer_by_scid
            &&& after.promise_secret == before.promise_secret
        }),
{
}

/// A short channel id answers the request that bought it: it is sent to the client, under the id of the
/// request, and an HTLC for it is awaited on the parameters that were asked for. Where there is no such
/// request, nothing is sent and no channel is sold.
pub proof fn lemma_purchases_are_answered(
    manager: &mut JITChannelManager,
    node: PublicKey,
    request_id: RequestId,
    scid: u64,
    cltv_expiry_delta: u32,
    client_trusts_lsp: bool,
    messages: &mut Vec<(PublicKey, LSPSMessage)>,
    result: Result<(), APIError>,
)
    requires
        call_ensures(
            JITChannelManager::invoice_parameters_generated,
            (manager, node, request_id, scid, cltv_expiry_delta, client_trusts_lsp, messages),
            result,
        ),
    ensures
        ({
            let before = old(manager)@;
            let after = final(manager)@;
            let known = before.per_peer_state.contains_key(node);
            let peer = before.per_peer_state[node];
            let asked = known && peer.pending_requests.contains_key(request_id.0@)
                && peer.pending_requests[request_id.0@] is Buy;
            let bought = peer.pending_requests[request_id.0@]->Buy_0;
            let next = after.per_peer_state[node];
            &&& result is Ok <==> asked
            &&& !asked ==> {
                &&& final(messages)@ == old(messages)@
                &&& after.peer_by_scid == before.peer_by_scid
            }
            &&& asked ==> {
                let sold = next.outbound_channels_by_scid[scid];
                &&& final(messages)@.len() == old(messages)@.len() + 1
                &&& final(messages)@.drop_last() == old(messages)@
                &&& final(messages)@.last().0 == node
                &&& final(messages)@.last().1 matches LSPSMessage::LSPS2(
                    Message::Response(id, Response::Buy(told)),
                ) && id == request_id && parsed_scid(told.jit_channel_scid.0@) == Some(scid)
                    && told.lsp_cltv_expiry_delta == cltv_expiry_delta && told.client_trusts_lsp
                    == client_trusts_lsp
                &&& after.peer_by_scid == before.peer_by_scid.insert(scid, node)
                &&& next.outbound_channels_by_scid == peer.outbound_channels_by_scid.insert(
                    scid,
                    sold,
                )
                &&& sold.state == (OutboundJITChannelState::InvoiceParametersGenerated {
                    short_channel_id: scid,
                    cltv_expiry_delta,
                    payment_size_msat: bought.payment_size_msat,
                    opening_fee_params: bought.opening_fee_params,
                })
            }
            &&& known ==> {
                &&& after.per_peer_state == before.per_peer_state.insert(node, next)
                &&& next.pending_requests == peer.pending_requests.remove(request_id.0@)
                &&& next.inbound_channels_by_id == peer.inbound_channels_by_id
                &&& next.request_to_cid == peer.request_to_cid
            }
            &&& known && !asked ==> next.outbound_channels_by_scid == peer.outbound_channels_by_scid
            &&& !known ==> after == before && result->Err_0->err == (ErrorKind::NoPeerState {
                counterparty_node_id: node,
            })
            &&& known && !asked ==> result->Err_0->err == (ErrorKind::NoPendingRequest {
                request: PeerRequest::Buy,
                request_id,
            })
            &&& after.promise_secret == before.promise_secret
        }),
{
    crate::utils::lemma_scid_round_trip(scid);
}

/// What the other messages of a peer lead to. Asked for its versions, the manager lists the first one.
/// A request for the menu is handed to the user. Each reply goes to the step that takes in what it says,
/// and only the versions lead to a further message.
pub proof fn lemma_other_messages_at_the_manager(
    manager: &mut JITChannelManager,
    message: Message,
    node: PublicKey,
    seconds_since_epoch: u64,
    request_entropy: [u8; 32],
    messages: &mut Vec<(PublicKey, LSPSMessage)>,
    events: &mut EventQueue,
    result: Result<(), LightningError>,
)
    requires
        call_ensures(
            JITChannelManager::handle_message,
            (
                manager,
                message,
                &node,
                seconds_since_epoch,
                &request_entropy,
                messages,
                events,
            ),
            result,
        ),
    ensures
        ({
            let before = old(manager)@;
            let after = final(manager)@;
            let told = final(events)@;
            let sent = final(messages)@;
            &&& !(message matches Message::Request(_, Request::GetVersions(_))) && !(
            message matches Message::Response(_, Response::GetVersions(_))) ==> sent
                == old(messages)@
            &&& match message {
                Message::Request(request_id, Request::GetVersions(_)) => {
                    &&& result is Ok
                    &&& after == before
                    &&& told == old(events)@
                    &&& sent.len() == old(messages)@.len() + 1
                    &&& sent.drop_last() == old(messages)@
                    &&& sent.last().0 == node
                    &&& sent.last().1 matches LSPSMessage::LSPS2(
                        Message::Response(id, Response::GetVersions(listed)),
                    ) && id == request_id && listed.versions@.len() == 1 && listed.versions@[0] == 1
                },
                Message::Request(request_id, Request::GetInfo(params)) => {
                    &&& result is Ok
                    &&& (after, told) == before.after_info_request(
                        old(events)@,
                        request_id,
                        node,
                        params,
                    )
                },
                Message::Response(request_id, Response::GetVersions(listed)) => {
                    &&& told == old(events)@
                    &&& before.versions_taken_in(
                        after,
                        old(messages)@,
                        sent,
                        request_id,
                        node,
                        listed.versions,
                        request_entropy@,
                        result,
                    )
                },
                Message::Response(request_id, Response::GetInfo(response)) => {
                    (after, told, result) == before.after_info_response(
                        old(events)@,
                        request_id,
                        node,
                        response,
                    )
                },
                Message::Response(request_id, Response::Buy(response)) => {
                    (after, told, result) == before.after_buy_response(
                        old(events)@,
                        request_id,
                        node,
                        response,
                    )
                },
                Message::Response(request_id, Response::GetInfoError(_)) => {
                    &&& told == old(events)@
                    &&& (after, result) == before.after_error(request_id, node, Reply::GetInfoError)
                },
                Message::Response(request_id, Response::BuyError(_)) => {
                    &&& told == old(events)@
                    &&& (after, result) == before.after_error(request_id, node, Reply::BuyError)
                },
                Message::Request(_, Request::Buy(_)) => true,
            }
        }),
{
}

/// A new manager has negotiated nothing yet, and makes its promises under its secret.
pub proof fn lemma_managers_start_empty(promise_secret: [u8; 32], manager: JITChannelManager)
    requires
        call_ensures(JITChannelManager::new, (promise_secret, ), manager),
    ensures
        forall|node: PublicKey| !#[trigger] manager@.per_peer_state.contains_key(node),
        forall|scid: u64| !#[trigger] manager@.peer_by_scid.contains_key(scid),
        manager@.promise_secret == promise_secret@,
{
}

} // verus!
