//! Contains the main LSPS2 server-side object, [`LSPS2ServiceHandler`].

use vstd::prelude::*;

use crate::collections::KeyedMap;
use crate::errors::{
    info, info_error, misuse, misuse_error, APIError, ChannelState, ChannelStateError, ErrorKind,
    LightningError, PeerRequest, Protocol,
};
use crate::events::{Event, EventQueue};
use crate::jit_channel::msgs::{
    menu_promised_as, promise_menu, BuyRequest, BuyResponse,
    GetInfoRequest, GetInfoResponse, GetVersionsResponse, JitChannelScid, Message,
    OpeningFeeParams, RawOpeningFeeParams, Request, Response,
    LSPS2_BUY_REQUEST_INVALID_OPENING_FEE_PARAMS_ERROR_CODE,
    LSPS2_BUY_REQUEST_INVALID_VERSION_ERROR_CODE,
    LSPS2_BUY_REQUEST_PAYMENT_SIZE_TOO_LARGE_ERROR_CODE,
    LSPS2_BUY_REQUEST_PAYMENT_SIZE_TOO_SMALL_ERROR_CODE,
    LSPS2_GET_INFO_REQUEST_INVALID_VERSION_ERROR_CODE,
    LSPS2_GET_INFO_REQUEST_UNRECOGNIZED_OR_STALE_TOKEN_ERROR_CODE,
};
use crate::jit_channel::utils::{
    compute_opening_fee, is_least_fee, is_not_past, is_valid_opening_fee_params,
    lemma_opening_fee_is_least, not_past, opening_fee, parse_rfc3339_seconds, promise_text,
    rfc3339_seconds,
};
use crate::lsps0::msgs::{RequestId, ResponseError, ResponseErrorView};
use crate::lsps2::event::LSPS2ServiceEvent;
pub use crate::lsps2::forwarding::{calculate_amount_to_forward_per_htlc, InterceptedHTLC};
use crate::lsps2::forwarding::{
    can_forward, check_can_forward, forwarded_msat, forwards, lemma_fee_is_spread_in_proportion,
    lemma_forwards_add_up, sum_msat, total_msat,
};
use crate::message_queue::MessageQueue;
use crate::types::{InterceptId, PublicKey};
use crate::utils::{parsed_scid, scid_text};
use crate::versioned_msgs::{
    is_supported_version, supported_versions, supports_version, unsupported_version_error,
    unsupported_version_text, LSPSMessage,
};

verus! {

/// Server-side configuration options for JIT channels.
#[derive(Clone, Copy, Debug)]
pub struct LSPS2ServiceConfig {
    /// Used to calculate the promise for channel parameters supplied to clients.
    ///
    /// Note: If this changes then old promises given out will be considered invalid.
    pub promise_secret: [u8; 32],
    /// The minimum payment size you are willing to accept.
    pub min_payment_size_msat: u64,
    /// The maximum payment size you are willing to accept.
    pub max_payment_size_msat: u64,
}

/// How far the opening of a channel to a client has come.
#[derive(Debug, PartialEq, Eq)]
pub enum OutboundJITChannelState {
    AwaitingPayment {
        min_fee_msat: u64,
        proportional_fee: u32,
        /// The end of the offer in seconds since the Unix epoch; an offer without one has expired.
        valid_until: Option<i64>,
        htlcs: Vec<InterceptedHTLC>,
        payment_size_msat: Option<u64>,
    },
    PendingChannelOpen {
        htlcs: Vec<InterceptedHTLC>,
        opening_fee_msat: u64,
        amt_to_forward_msat: u64,
    },
    ChannelReady { htlcs: Vec<InterceptedHTLC>, amt_to_forward_msat: u64 },
}

/// The contents of an [`OutboundJITChannelState`].
#[verifier::ext_equal]
pub enum OutboundJITChannelStateView {
    AwaitingPayment {
        min_fee_msat: u64,
        proportional_fee: u32,
        valid_until: Option<i64>,
        htlcs: Seq<InterceptedHTLC>,
        payment_size_msat: Option<u64>,
    },
    PendingChannelOpen {
        htlcs: Seq<InterceptedHTLC>,
        opening_fee_msat: u64,
        amt_to_forward_msat: u64,
    },
    ChannelReady { htlcs: Seq<InterceptedHTLC>, amt_to_forward_msat: u64 },
}

impl View for OutboundJITChannelState {
    type V = OutboundJITChannelStateView;

    open spec fn view(&self) -> OutboundJITChannelStateView {
        match self {
            OutboundJITChannelState::AwaitingPayment {
                min_fee_msat,
                proportional_fee,
                valid_until,
                htlcs,
                payment_size_msat,
            } => OutboundJITChannelStateView::AwaitingPayment {
                min_fee_msat: *min_fee_msat,
                proportional_fee: *proportional_fee,
                valid_until: *valid_until,
                htlcs: htlcs@,
                payment_size_msat: *payment_size_msat,
            },
            OutboundJITChannelState::PendingChannelOpen {
                htlcs,
                opening_fee_msat,
                amt_to_forward_msat,
            } => OutboundJITChannelStateView::PendingChannelOpen {
                htlcs: htlcs@,
                opening_fee_msat: *opening_fee_msat,
                amt_to_forward_msat: *amt_to_forward_msat,
            },
            OutboundJITChannelState::ChannelReady { htlcs, amt_to_forward_msat } => {
                OutboundJITChannelStateView::ChannelReady {
                    htlcs: htlcs@,
                    amt_to_forward_msat: *amt_to_forward_msat,
                }
            },
        }
    }
}

/// The contents of the reason why an [`OutboundJITChannelState`] does not go on.
#[verifier::ext_equal]
pub enum RefusalView {
    /// An HTLC was intercepted while the channel awaited something else.
    UnexpectedHtlc { state: OutboundJITChannelStateView },
    /// A channel became ready while none was being opened.
    UnexpectedChannelReady { state: OutboundJITChannelStateView },
    /// Any other reason.
    Other(ErrorKind),
}

impl RefusalView {
    /// The contents of a reason.
    pub open spec fn of(err: ErrorKind) -> Self {
        match err {
            ErrorKind::UnexpectedHtlc { state: ChannelState::OutboundJIT(state) } => {
                RefusalView::UnexpectedHtlc { state: state@ }
            },
            ErrorKind::UnexpectedChannelReady { state: ChannelState::OutboundJIT(state) } => {
                RefusalView::UnexpectedChannelReady { state: state@ }
            },
            _ => RefusalView::Other(err),
        }
    }
}

impl OutboundJITChannelStateView {
    /// Only a payment of a size that is known beforehand is collected over several HTLCs, and once
    /// enough has come, what is to be forwarded is part of it.
    pub open spec fn wf(self) -> bool {
        match self {
            OutboundJITChannelStateView::AwaitingPayment { htlcs, payment_size_msat, .. } => {
                &&& total_msat(htlcs) <= u64::MAX
                &&& payment_size_msat is None ==> htlcs.len() == 0
            },
            OutboundJITChannelStateView::PendingChannelOpen { htlcs, amt_to_forward_msat, .. } => {
                0 < amt_to_forward_msat <= total_msat(htlcs) <= u64::MAX
            },
            OutboundJITChannelStateView::ChannelReady { htlcs, amt_to_forward_msat } => {
                0 < amt_to_forward_msat <= total_msat(htlcs) <= u64::MAX
            },
        }
    }

    /// Whether the HTLCs that were collected and one more add up to an amount that is representable.
    pub open spec fn htlc_fits(self, amount_msat: u64) -> bool {
        match self {
            OutboundJITChannelStateView::AwaitingPayment { htlcs, .. } => {
                total_msat(htlcs) + amount_msat <= u64::MAX
            },
            _ => true,
        }
    }

    /// Whether a payment is awaited for an offer that has expired.
    pub open spec fn expired(self, seconds_since_epoch: u64) -> bool {
        match self {
            OutboundJITChannelStateView::AwaitingPayment { valid_until, .. } => {
                !not_past(valid_until, seconds_since_epoch)
            },
            _ => false,
        }
    }

    /// The state after an HTLC was intercepted at the given time.
    ///
    /// Once the HTLCs bring the expected payment, and the payment exceeds the opening fee, the
    /// channel is to be opened. An HTLC for an offer that has expired is refused.
    pub open spec fn after_htlc(self, htlc: InterceptedHTLC, seconds_since_epoch: u64) -> Result<
        Self,
        RefusalView,
    > {
        match self {
            OutboundJITChannelStateView::AwaitingPayment {
                min_fee_msat,
                proportional_fee,
                valid_until,
                htlcs,
                payment_size_msat,
            } => if self.expired(seconds_since_epoch) {
                Err(RefusalView::Other(ErrorKind::OfferExpired))
            } else {
                let collected = htlcs.push(htlc);
                let total = total_msat(collected);
                let expected = match payment_size_msat {
                    Some(size) => size,
                    None => total as u64,
                };
                match opening_fee(expected, min_fee_msat, proportional_fee as u64) {
                    Some(fee) => if total >= expected && fee < expected {
                        Ok(
                            OutboundJITChannelStateView::PendingChannelOpen {
                                htlcs: collected,
                                opening_fee_msat: fee,
                                amt_to_forward_msat: (expected - fee) as u64,
                            },
                        )
                    } else if payment_size_msat is Some {
                        Ok(
                            OutboundJITChannelStateView::AwaitingPayment {
                                min_fee_msat,
                                proportional_fee,
                                valid_until,
                                htlcs: collected,
                                payment_size_msat,
                            },
                        )
                    } else {
                        Err(RefusalView::Other(ErrorKind::HtlcTooSmall))
                    },
                    None => Err(
                        RefusalView::Other(
                            ErrorKind::OpeningFeeOverflow {
                                min_fee_msat,
                                proportional: proportional_fee,
                                expected_outbound_amount_msat: total as u64,
                            },
                        ),
                    ),
                }
            },
            _ => Err(RefusalView::UnexpectedHtlc { state: self }),
        }
    }

    /// The state after the channel became ready.
    pub open spec fn after_ready(self) -> Result<Self, RefusalView> {
        match self {
            OutboundJITChannelStateView::PendingChannelOpen { htlcs, amt_to_forward_msat, .. } => {
                Ok(OutboundJITChannelStateView::ChannelReady { htlcs, amt_to_forward_msat })
            },
            _ => Err(RefusalView::UnexpectedChannelReady { state: self }),
        }
    }

    /// Whether the amount to forward can be spread over the HTLCs once the channel is ready.
    pub open spec fn forwardable(self) -> bool {
        match self {
            OutboundJITChannelStateView::PendingChannelOpen { htlcs, amt_to_forward_msat, .. } => {
                can_forward(htlcs, amt_to_forward_msat as nat)
            },
            _ => true,
        }
    }
}

/// Copies a list of HTLCs.
fn clone_htlcs(htlcs: &Vec<InterceptedHTLC>) -> (copy: Vec<InterceptedHTLC>)
    ensures
        copy@ == htlcs@,
{
    vstd::slice::slice_to_vec(htlcs.as_slice())
}

impl OutboundJITChannelState {
    /// Tells the state in an error.
    fn channel_state(&self) -> (state: ChannelState)
        ensures
            state is OutboundJIT,
            state->OutboundJIT_0@ == self@,
    {
        ChannelState::OutboundJIT(
            match self {
                OutboundJITChannelState::AwaitingPayment {
                    min_fee_msat,
                    proportional_fee,
                    valid_until,
                    htlcs,
                    payment_size_msat,
                } => OutboundJITChannelState::AwaitingPayment {
                    min_fee_msat: *min_fee_msat,
                    proportional_fee: *proportional_fee,
                    valid_until: *valid_until,
                    htlcs: clone_htlcs(htlcs),
                    payment_size_msat: *payment_size_msat,
                },
                OutboundJITChannelState::PendingChannelOpen {
                    htlcs,
                    opening_fee_msat,
                    amt_to_forward_msat,
                } => OutboundJITChannelState::PendingChannelOpen {
                    htlcs: clone_htlcs(htlcs),
                    opening_fee_msat: *opening_fee_msat,
                    amt_to_forward_msat: *amt_to_forward_msat,
                },
                OutboundJITChannelState::ChannelReady { htlcs, amt_to_forward_msat } => {
                    OutboundJITChannelState::ChannelReady {
                        htlcs: clone_htlcs(htlcs),
                        amt_to_forward_msat: *amt_to_forward_msat,
                    }
                },
            },
        )
    }

    /// Creates the state of a channel for which a payment is awaited.
    pub fn new(payment_size_msat: Option<u64>, opening_fee_params: OpeningFeeParams) -> (state:
        Self)
        ensures
            state@ == (OutboundJITChannelStateView::AwaitingPayment {
                min_fee_msat: opening_fee_params.min_fee_msat,
                proportional_fee: opening_fee_params.proportional,
                valid_until: rfc3339_seconds(opening_fee_params.valid_until@),
                htlcs: Seq::empty(),
                payment_size_msat,
            }),
            state@.wf(),
    {
        OutboundJITChannelState::AwaitingPayment {
            min_fee_msat: opening_fee_params.min_fee_msat,
            proportional_fee: opening_fee_params.proportional,
            valid_until: parse_rfc3339_seconds(opening_fee_params.valid_until.as_str()),
            htlcs: Vec::new(),
            payment_size_msat,
        }
    }

    /// Returns whether the HTLCs that were collected and one more add up to an amount that is
    /// representable.
    pub fn fits_htlc(&self, amount_msat: u64) -> (fits: bool)
        requires
            self@.wf(),
        ensures
            fits == self@.htlc_fits(amount_msat),
    {
        match self {
            OutboundJITChannelState::AwaitingPayment { htlcs, .. } => {
                sum_msat(htlcs.as_slice()).checked_add(amount_msat).is_some()
            },
            _ => true,
        }
    }

    /// Goes on from an HTLC that was intercepted at the given time.
    pub fn htlc_intercepted(&self, htlc: InterceptedHTLC, seconds_since_epoch: u64) -> (next: Result<
        Self,
        ChannelStateError,
    >)
        requires
            self@.wf(),
            self@.htlc_fits(htlc.expected_outbound_amount_msat),
        ensures
            match (next, self@.after_htlc(htlc, seconds_since_epoch)) {
                (Ok(next), Ok(state)) => next@ == state && next@.wf(),
                (Err(ChannelStateError(e)), Err(refusal)) => RefusalView::of(e) == refusal,
                _ => false,
            },
    {
        match self {
            OutboundJITChannelState::AwaitingPayment {
                htlcs,
                payment_size_msat,
                min_fee_msat,
                proportional_fee,
                valid_until,
            } => {
                if !is_not_past(*valid_until, seconds_since_epoch) {
                    return Err(ChannelStateError(ErrorKind::OfferExpired));
                }
                let mut collected = clone_htlcs(htlcs);
                collected.push(htlc);
                assert(collected@.drop_last() == htlcs@);
                let total: u64 = sum_msat(collected.as_slice());
                let expected: u64 = match *payment_size_msat {
                    Some(size) => size,
                    None => total,
                };
                match compute_opening_fee(expected, *min_fee_msat, *proportional_fee as u64) {
                    Some(opening_fee_msat) => {
                        let amt_to_forward_msat: u64 = expected.saturating_sub(opening_fee_msat);
                        if total >= expected && amt_to_forward_msat > 0 {
                            Ok(
                                OutboundJITChannelState::PendingChannelOpen {
                                    htlcs: collected,
                                    opening_fee_msat,
                                    amt_to_forward_msat,
                                },
                            )
                        } else if payment_size_msat.is_some() {
                            Ok(
                                OutboundJITChannelState::AwaitingPayment {
                                    min_fee_msat: *min_fee_msat,
                                    proportional_fee: *proportional_fee,
                                    valid_until: *valid_until,
                                    htlcs: collected,
                                    payment_size_msat: *payment_size_msat,
                                },
                            )
                        } else {
                            Err(ChannelStateError(ErrorKind::HtlcTooSmall))
                        }
                    },
                    None => Err(
                        ChannelStateError(
                            ErrorKind::OpeningFeeOverflow {
                                min_fee_msat: *min_fee_msat,
                                proportional: *proportional_fee,
                                expected_outbound_amount_msat: total,
                            },
                        ),
                    ),
                }
            },
            _ => Err(
                ChannelStateError(ErrorKind::UnexpectedHtlc { state: self.channel_state() }),
            ),
        }
    }

    /// Goes on from the channel being ready.
    pub fn channel_ready(&self) -> (next: Result<Self, ChannelStateError>)
        requires
            self@.wf(),
        ensures
            match (next, self@.after_ready()) {
                (Ok(next), Ok(state)) => next@ == state && next@.wf(),
                (Err(ChannelStateError(e)), Err(refusal)) => RefusalView::of(e) == refusal,
                _ => false,
            },
    {
        match self {
            OutboundJITChannelState::PendingChannelOpen { htlcs, amt_to_forward_msat, .. } => Ok(
                OutboundJITChannelState::ChannelReady {
                    htlcs: clone_htlcs(htlcs),
                    amt_to_forward_msat: *amt_to_forward_msat,
                },
            ),
            _ => Err(
                ChannelStateError(
                    ErrorKind::UnexpectedChannelReady { state: self.channel_state() },
                ),
            ),
        }
    }

    /// Returns whether the amount to forward can be spread over the HTLCs once the channel is
    /// ready.
    pub fn is_forwardable(&self) -> (possible: bool)
        requires
            self@.wf(),
        ensures
            possible == self@.forwardable(),
    {
        match self {
            OutboundJITChannelState::PendingChannelOpen { htlcs, amt_to_forward_msat, .. } => {
                check_can_forward(htlcs.as_slice(), *amt_to_forward_msat)
            },
            _ => true,
        }
    }
}

/// A channel that we are to open to a client.
#[derive(Debug, PartialEq, Eq)]
pub struct OutboundJITChannel {
    pub state: OutboundJITChannelState,
    pub scid: u64,
    pub cltv_expiry_delta: u32,
    pub client_trusts_lsp: bool,
}

/// The contents of an [`OutboundJITChannel`].
#[verifier::ext_equal]
pub struct OutboundJITChannelView {
    pub state: OutboundJITChannelStateView,
    pub scid: u64,
    pub cltv_expiry_delta: u32,
    pub client_trusts_lsp: bool,
}

impl View for OutboundJITChannel {
    type V = OutboundJITChannelView;

    open spec fn view(&self) -> OutboundJITChannelView {
        OutboundJITChannelView {
            state: self.state@,
            scid: self.scid,
            cltv_expiry_delta: self.cltv_expiry_delta,
            client_trusts_lsp: self.client_trusts_lsp,
        }
    }
}

impl OutboundJITChannel {
    /// Creates a channel for which a payment is awaited.
    pub fn new(
        scid: u64,
        cltv_expiry_delta: u32,
        client_trusts_lsp: bool,
        payment_size_msat: Option<u64>,
        opening_fee_params: OpeningFeeParams,
    ) -> (channel: Self)
        ensures
            channel@ == (OutboundJITChannelView {
                state: OutboundJITChannelStateView::AwaitingPayment {
                    min_fee_msat: opening_fee_params.min_fee_msat,
                    proportional_fee: opening_fee_params.proportional,
                    valid_until: rfc3339_seconds(opening_fee_params.valid_until@),
                    htlcs: Seq::empty(),
                    payment_size_msat,
                },
                scid,
                cltv_expiry_delta,
                client_trusts_lsp,
            }),
            channel@.state.wf(),
    {
        OutboundJITChannel {
            scid,
            cltv_expiry_delta,
            client_trusts_lsp,
            state: OutboundJITChannelState::new(payment_size_msat, opening_fee_params),
        }
    }

    /// Goes on from an HTLC that was intercepted at the given time. Once the payment has come, the
    /// opening fee and the amount to forward are returned.
    pub fn htlc_intercepted(&mut self, htlc: InterceptedHTLC, seconds_since_epoch: u64) -> (amounts:
        Result<Option<(u64, u64)>, LightningError>)
        requires
            old(self)@.state.wf(),
            old(self)@.state.htlc_fits(htlc.expected_outbound_amount_msat),
        ensures
            final(self)@.state.wf(),
            match old(self)@.state.after_htlc(htlc, seconds_since_epoch) {
                Ok(state) => {
                    &&& final(self)@ == (OutboundJITChannelView { state, ..old(self)@ })
                    &&& amounts == Ok::<Option<(u64, u64)>, LightningError>(
                        match state {
                            OutboundJITChannelStateView::PendingChannelOpen {
                                opening_fee_msat,
                                amt_to_forward_msat,
                                ..
                            } => Some((opening_fee_msat, amt_to_forward_msat)),
                            _ => None,
                        },
                    )
                },
                Err(refusal) => {
                    &&& *final(self) == *old(self)
                    &&& amounts is Err
                    &&& amounts->Err_0 == info(amounts->Err_0.err)
                    &&& RefusalView::of(amounts->Err_0.err) == refusal
                },
            },
    {
        match self.state.htlc_intercepted(htlc, seconds_since_epoch) {
            Ok(state) => {
                let amounts = match &state {
                    OutboundJITChannelState::PendingChannelOpen {
                        opening_fee_msat,
                        amt_to_forward_msat,
                        ..
                    } => Some((*opening_fee_msat, *amt_to_forward_msat)),
                    _ => None,
                };
                self.state = state;
                Ok(amounts)
            },
            Err(e) => Err(LightningError::from(e)),
        }
    }

    /// Goes on from the channel being ready, and returns the HTLCs and the amount to forward.
    pub fn channel_ready(&mut self) -> (ready: Result<(Vec<InterceptedHTLC>, u64), LightningError>)
        requires
            old(self)@.state.wf(),
        ensures
            final(self)@.state.wf(),
            match old(self)@.state.after_ready() {
                Ok(state) => {
                    &&& final(self)@ == (OutboundJITChannelView { state, ..old(self)@ })
                    &&& ready is Ok
                    &&& ready->Ok_0.0@ == state->ChannelReady_htlcs
                    &&& ready->Ok_0.1 == state->ChannelReady_amt_to_forward_msat
                },
                Err(refusal) => {
                    &&& *final(self) == *old(self)
                    &&& ready is Err
                    &&& ready->Err_0 == info(ready->Err_0.err)
                    &&& RefusalView::of(ready->Err_0.err) == refusal
                },
            },
    {
        match self.state.channel_ready() {
            Ok(state) => {
                let ready = match &state {
                    OutboundJITChannelState::ChannelReady { htlcs, amt_to_forward_msat } => (
                        clone_htlcs(htlcs),
                        *amt_to_forward_msat,
                    ),
                    _ => vstd::pervasive::unreached(),
                };
                self.state = state;
                Ok(ready)
            },
            Err(e) => Err(LightningError::from(e)),
        }
    }
}

/// The negotiations with one client.
pub struct PeerState {
    pub outbound_channels_by_scid: KeyedMap<u64, OutboundJITChannel>,
    pub pending_requests: KeyedMap<RequestId, Request>,
}

/// The contents of a [`PeerState`].
#[verifier::ext_equal]
pub struct PeerStateView {
    pub outbound_channels_by_scid: Map<u64, OutboundJITChannelView>,
    pub pending_requests: Map<Seq<char>, Request>,
}

impl View for PeerState {
    type V = PeerStateView;

    open spec fn view(&self) -> PeerStateView {
        PeerStateView {
            outbound_channels_by_scid: self.outbound_channels_by_scid@,
            pending_requests: self.pending_requests@,
        }
    }
}

impl PeerStateView {
    /// No negotiation at all.
    pub open spec fn empty() -> Self {
        PeerStateView { outbound_channels_by_scid: Map::empty(), pending_requests: Map::empty() }
    }

    /// Every channel's state is well-formed.
    pub open spec fn wf(self) -> bool {
        forall|scid: u64|
            self.outbound_channels_by_scid.contains_key(scid)
                ==> (#[trigger] self.outbound_channels_by_scid[scid]).state.wf()
    }

    /// With a channel added or replaced.
    pub open spec fn with_channel(self, scid: u64, channel: OutboundJITChannelView) -> Self {
        PeerStateView {
            outbound_channels_by_scid: self.outbound_channels_by_scid.insert(scid, channel),
            ..self
        }
    }

    /// Without a channel.
    pub open spec fn without_channel(self, scid: u64) -> Self {
        PeerStateView {
            outbound_channels_by_scid: self.outbound_channels_by_scid.remove(scid),
            ..self
        }
    }

    /// With a request of the client that awaits our answer.
    pub open spec fn with_pending(self, request_id: Seq<char>, request: Request) -> Self {
        PeerStateView { pending_requests: self.pending_requests.insert(request_id, request), ..self }
    }

    /// Without a request of the client.
    pub open spec fn without_pending(self, request_id: Seq<char>) -> Self {
        PeerStateView { pending_requests: self.pending_requests.remove(request_id), ..self }
    }

    /// Whether a `get_info` request with the given id awaits our answer.
    pub open spec fn awaits_menu(self, request_id: Seq<char>) -> bool {
        self.pending_requests.contains_key(request_id) && self.pending_requests[request_id]
            is GetInfo
    }

    /// Whether a `buy` request with the given id awaits our answer.
    pub open spec fn awaits_scid(self, request_id: Seq<char>) -> bool {
        self.pending_requests.contains_key(request_id) && self.pending_requests[request_id] is Buy
    }
}

impl PeerState {
    /// Creates the state of a client with whom nothing is negotiated.
    pub fn new() -> (peer: Self)
        ensures
            peer@ == PeerStateView::empty(),
    {
        PeerState { outbound_channels_by_scid: KeyedMap::new(), pending_requests: KeyedMap::new() }
    }

    /// Adds or replaces a channel.
    pub fn insert_outbound_channel(&mut self, scid: u64, channel: OutboundJITChannel)
        ensures
            final(self)@ == old(self)@.with_channel(scid, channel@),
    {
        self.outbound_channels_by_scid.insert(scid, channel);
    }

    /// Gives up a channel.
    pub fn remove_outbound_channel(&mut self, scid: u64)
        ensures
            final(self)@ == old(self)@.without_channel(scid),
    {
        self.outbound_channels_by_scid.remove(&scid);
    }
}

/// An HTLC that the node is to fail, after which the channel that awaited it is given up with
/// [`LSPS2ServiceHandler::intercepted_htlc_failed`].
#[derive(Debug, PartialEq, Eq)]
pub struct HtlcToFail {
    pub intercept_id: InterceptId,
    pub counterparty_node_id: PublicKey,
    pub scid: u64,
    pub err: ErrorKind,
}

/// The main object allowing to send and receive LSPS2 messages.
pub struct LSPS2ServiceHandler {
    per_peer_state: KeyedMap<PublicKey, PeerState>,
    peer_by_scid: KeyedMap<u64, PublicKey>,
    config: LSPS2ServiceConfig,
}

/// The contents of an [`LSPS2ServiceHandler`].
#[verifier::ext_equal]
pub struct LSPS2ServiceHandlerView {
    pub per_peer_state: Map<PublicKey, PeerStateView>,
    pub peer_by_scid: Map<u64, PublicKey>,
    pub config: LSPS2ServiceConfig,
}

impl View for LSPS2ServiceHandler {
    type V = LSPS2ServiceHandlerView;

    closed spec fn view(&self) -> LSPS2ServiceHandlerView {
        LSPS2ServiceHandlerView {
            per_peer_state: self.per_peer_state@,
            peer_by_scid: self.peer_by_scid@,
            config: self.config,
        }
    }
}

/// Why a `buy` request is refused.
#[derive(Clone, Copy, Debug, PartialEq, Eq)]
pub enum BuyRefusal {
    UnsupportedVersion { version: u16 },
    PaymentSizeBelowMinimum,
    PaymentSizeAboveMaximum,
    PaymentSizeBelowFee,
    FeeOverflow,
    InvalidOpeningFeeParams,
}

impl BuyRefusal {
    /// What the client is told.
    pub open spec fn answer(self) -> ResponseErrorView {
        match self {
            BuyRefusal::UnsupportedVersion { version } => ResponseErrorView {
                code: LSPS2_BUY_REQUEST_INVALID_VERSION_ERROR_CODE,
                message: unsupported_version_text(version),
                data: Some("Supported versions are [1]"@),
            },
            BuyRefusal::PaymentSizeBelowMinimum => ResponseErrorView {
                code: LSPS2_BUY_REQUEST_PAYMENT_SIZE_TOO_SMALL_ERROR_CODE,
                message: "payment size is below our minimum supported payment size"@,
                data: None,
            },
            BuyRefusal::PaymentSizeAboveMaximum => ResponseErrorView {
                code: LSPS2_BUY_REQUEST_PAYMENT_SIZE_TOO_LARGE_ERROR_CODE,
                message: "payment size is above our maximum supported payment size"@,
                data: None,
            },
            BuyRefusal::PaymentSizeBelowFee => ResponseErrorView {
                code: LSPS2_BUY_REQUEST_PAYMENT_SIZE_TOO_SMALL_ERROR_CODE,
                message: "payment size is too small to cover the opening fee"@,
                data: None,
            },
            BuyRefusal::FeeOverflow => ResponseErrorView {
                code: LSPS2_BUY_REQUEST_PAYMENT_SIZE_TOO_LARGE_ERROR_CODE,
                message: "overflow error when calculating opening_fee"@,
                data: None,
            },
            BuyRefusal::InvalidOpeningFeeParams => ResponseErrorView {
                code: LSPS2_BUY_REQUEST_INVALID_OPENING_FEE_PARAMS_ERROR_CODE,
                message:
                    "valid_until is already past OR the promise did not match the provided parameters"@,
                data: None,
            },
        }
    }

    /// What is logged.
    pub open spec fn reason(self) -> ErrorKind {
        match self {
            BuyRefusal::UnsupportedVersion { version } => ErrorKind::UnsupportedVersion { version },
            BuyRefusal::PaymentSizeBelowMinimum => ErrorKind::PaymentSizeBelowMinimum,
            BuyRefusal::PaymentSizeAboveMaximum => ErrorKind::PaymentSizeAboveMaximum,
            BuyRefusal::PaymentSizeBelowFee => ErrorKind::PaymentSizeBelowFee,
            BuyRefusal::FeeOverflow => ErrorKind::FeeOverflow,
            BuyRefusal::InvalidOpeningFeeParams => ErrorKind::InvalidOpeningFeeParams,
        }
    }

    /// Makes the answer to the client.
    fn to_response_error(self) -> (error: ResponseError)
        ensures
            error@ == self.answer(),
    {
        match self {
            BuyRefusal::UnsupportedVersion { version } => unsupported_version_error(
                LSPS2_BUY_REQUEST_INVALID_VERSION_ERROR_CODE,
                version,
            ),
            BuyRefusal::PaymentSizeBelowMinimum => ResponseError {
                code: LSPS2_BUY_REQUEST_PAYMENT_SIZE_TOO_SMALL_ERROR_CODE,
                message: "payment size is below our minimum supported payment size".to_owned(),
                data: None,
            },
            BuyRefusal::PaymentSizeAboveMaximum => ResponseError {
                code: LSPS2_BUY_REQUEST_PAYMENT_SIZE_TOO_LARGE_ERROR_CODE,
                message: "payment size is above our maximum supported payment size".to_owned(),
                data: None,
            },
            BuyRefusal::PaymentSizeBelowFee => ResponseError {
                code: LSPS2_BUY_REQUEST_PAYMENT_SIZE_TOO_SMALL_ERROR_CODE,
                message: "payment size is too small to cover the opening fee".to_owned(),
                data: None,
            },
            BuyRefusal::FeeOverflow => ResponseError {
                code: LSPS2_BUY_REQUEST_PAYMENT_SIZE_TOO_LARGE_ERROR_CODE,
                message: "overflow error when calculating opening_fee".to_owned(),
                data: None,
            },
            BuyRefusal::InvalidOpeningFeeParams => ResponseError {
                code: LSPS2_BUY_REQUEST_INVALID_OPENING_FEE_PARAMS_ERROR_CODE,
                message:
                    "valid_until is already past OR the promise did not match the provided parameters".to_owned(),
                data: None,
            },
        }
    }

    /// Makes the error that is logged.
    fn to_error(self) -> (error: LightningError)
        ensures
            error == info(self.reason()),
    {
        info_error(
            match self {
                BuyRefusal::UnsupportedVersion { version } => ErrorKind::UnsupportedVersion {
                    version,
                },
                BuyRefusal::PaymentSizeBelowMinimum => ErrorKind::PaymentSizeBelowMinimum,
                BuyRefusal::PaymentSizeAboveMaximum => ErrorKind::PaymentSizeAboveMaximum,
                BuyRefusal::PaymentSizeBelowFee => ErrorKind::PaymentSizeBelowFee,
                BuyRefusal::FeeOverflow => ErrorKind::FeeOverflow,
                BuyRefusal::InvalidOpeningFeeParams => ErrorKind::InvalidOpeningFeeParams,
            },
        )
    }
}

impl LSPS2ServiceConfig {
    /// Why the size of a payment, where it is given, is refused.
    pub open spec fn size_refusal(self, params: BuyRequest) -> Option<BuyRefusal> {
        match params.payment_size_msat {
            Some(size) => if size < self.min_payment_size_msat {
                Some(BuyRefusal::PaymentSizeBelowMinimum)
            } else if size > self.max_payment_size_msat {
                Some(BuyRefusal::PaymentSizeAboveMaximum)
            } else {
                match opening_fee(
                    size,
                    params.opening_fee_params.min_fee_msat,
                    params.opening_fee_params.proportional as u64,
                ) {
                    Some(fee) => if fee >= size {
                        Some(BuyRefusal::PaymentSizeBelowFee)
                    } else {
                        None
                    },
                    None => Some(BuyRefusal::FeeOverflow),
                }
            },
            None => None,
        }
    }

    /// Why a `buy` request is refused: first by its version, next by its payment size, and last by
    /// its fee parameters.
    pub open spec fn buy_refusal(self, params: BuyRequest, seconds_since_epoch: u64) -> Option<
        BuyRefusal,
    > {
        if !supports_version(params.version) {
            Some(BuyRefusal::UnsupportedVersion { version: params.version })
        } else if self.size_refusal(params) is Some {
            self.size_refusal(params)
        } else if !params.opening_fee_params.valid_at(self.promise_secret@, seconds_since_epoch) {
            Some(BuyRefusal::InvalidOpeningFeeParams)
        } else {
            None
        }
    }

    /// Finds out why the size of a payment, where it is given, is refused.
    fn refuse_size(&self, params: &BuyRequest) -> (refusal: Option<BuyRefusal>)
        ensures
            refusal == self.size_refusal(*params),
    {
        match params.payment_size_msat {
            Some(payment_size_msat) => {
                if payment_size_msat < self.min_payment_size_msat {
                    return Some(BuyRefusal::PaymentSizeBelowMinimum);
                }
                if payment_size_msat > self.max_payment_size_msat {
                    return Some(BuyRefusal::PaymentSizeAboveMaximum);
                }
                match compute_opening_fee(
                    payment_size_msat,
                    params.opening_fee_params.min_fee_msat,
                    params.opening_fee_params.proportional as u64,
                ) {
                    Some(opening_fee) => if opening_fee >= payment_size_msat {
                        Some(BuyRefusal::PaymentSizeBelowFee)
                    } else {
                        None
                    },
                    None => Some(BuyRefusal::FeeOverflow),
                }
            },
            None => None,
        }
    }

    /// Finds out why a `buy` request is refused.
    fn refuse_buy(&self, params: &BuyRequest, seconds_since_epoch: u64) -> (refusal: Option<
        BuyRefusal,
    >)
        ensures
            refusal == self.buy_refusal(*params, seconds_since_epoch),
    {
        if !is_supported_version(params.version) {
            return Some(BuyRefusal::UnsupportedVersion { version: params.version });
        }
        let refusal = self.refuse_size(params);
        if refusal.is_some() {
            return refusal;
        }
        if !is_valid_opening_fee_params(
            &params.opening_fee_params,
            &self.promise_secret,
            seconds_since_epoch,
        ) {
            return Some(BuyRefusal::InvalidOpeningFeeParams);
        }
        None
    }
}

/// The messages after one more response of ours.
pub open spec fn with_response(
    before: Seq<(PublicKey, LSPSMessage)>,
    counterparty_node_id: PublicKey,
    request_id: RequestId,
    response: Response,
) -> Seq<(PublicKey, LSPSMessage)> {
    before.push((counterparty_node_id, LSPSMessage::LSPS2(Message::Response(request_id, response))))
}

/// Whether the messages are those before and one more, which answers a request as described.
pub open spec fn answered(
    before: Seq<(PublicKey, LSPSMessage)>,
    after: Seq<(PublicKey, LSPSMessage)>,
    counterparty_node_id: PublicKey,
    request_id: RequestId,
    describes: spec_fn(Response) -> bool,
) -> bool {
    &&& after.len() == before.len() + 1
    &&& after.drop_last() == before
    &&& after.last().0 == counterparty_node_id
    &&& match after.last().1 {
        LSPSMessage::LSPS2(Message::Response(id, response)) => id == request_id && describes(
            response,
        ),
        _ => false,
    }
}

/// A `get_info` request is answered with an error.
pub open spec fn is_info_error(error: ResponseErrorView) -> spec_fn(Response) -> bool {
    |response: Response|
        match response {
            Response::GetInfoError(e) => e@ == error,
            _ => false,
        }
}

/// A `buy` request is answered with an error.
pub open spec fn is_buy_error(error: ResponseErrorView) -> spec_fn(Response) -> bool {
    |response: Response|
        match response {
            Response::BuyError(e) => e@ == error,
            _ => false,
        }
}

/// A `get_info` request is answered with a menu, under promises of the given secret.
pub open spec fn is_menu(
    raw: Seq<RawOpeningFeeParams>,
    config: LSPS2ServiceConfig,
) -> spec_fn(Response) -> bool {
    |response: Response|
        match response {
            Response::GetInfo(menu) => {
                &&& menu_promised_as(raw, config.promise_secret@, menu.opening_fee_params_menu@)
                &&& menu.min_payment_size_msat == config.min_payment_size_msat
                &&& menu.max_payment_size_msat == config.max_payment_size_msat
            },
            _ => false,
        }
}

/// A `buy` request is answered with a short channel id.
pub open spec fn is_scid(
    scid: u64,
    cltv_expiry_delta: u32,
    client_trusts_lsp: bool,
) -> spec_fn(Response) -> bool {
    |response: Response|
        match response {
            Response::Buy(bought) => {
                &&& bought.jit_channel_scid.0@ == scid_text(scid)
                &&& bought.lsp_cltv_expiry_delta == cltv_expiry_delta
                &&& bought.client_trusts_lsp == client_trusts_lsp
            },
            _ => false,
        }
}

/// A `get_versions` request is answered with the versions that this library supports.
pub open spec fn is_versions() -> spec_fn(Response) -> bool {
    |response: Response|
        match response {
            Response::GetVersions(listed) => listed.versions@ == seq![1u16],
            _ => false,
        }
}

impl LSPS2ServiceHandlerView {
    /// Every channel's state is well-formed.
    pub open spec fn wf(self) -> bool {
        forall|node: PublicKey|
            self.per_peer_state.contains_key(node) ==> (#[trigger] self.per_peer_state[node]).wf()
    }

    /// The state of a client, which is empty until something is negotiated.
    pub open spec fn peer(self, counterparty_node_id: PublicKey) -> PeerStateView {
        if self.per_peer_state.contains_key(counterparty_node_id) {
            self.per_peer_state[counterparty_node_id]
        } else {
            PeerStateView::empty()
        }
    }

    /// With the state of one client replaced.
    pub open spec fn with_peer(self, counterparty_node_id: PublicKey, peer: PeerStateView) -> Self {
        LSPS2ServiceHandlerView {
            per_peer_state: self.per_peer_state.insert(counterparty_node_id, peer),
            ..self
        }
    }

    /// The channel with a short channel id to a client.
    pub open spec fn channel(self, counterparty_node_id: PublicKey, scid: u64) -> Option<
        OutboundJITChannelView,
    > {
        if self.per_peer_state.contains_key(counterparty_node_id)
            && self.per_peer_state[counterparty_node_id].outbound_channels_by_scid.contains_key(
            scid,
        ) {
            Some(self.per_peer_state[counterparty_node_id].outbound_channels_by_scid[scid])
        } else {
            None
        }
    }

    /// The channel that awaits HTLCs for a short channel id, with the client that it is for.
    pub open spec fn awaiting_htlc(self, scid: u64) -> Option<(PublicKey, OutboundJITChannelView)> {
        if self.peer_by_scid.contains_key(scid) {
            match self.channel(self.peer_by_scid[scid], scid) {
                Some(channel) => Some((self.peer_by_scid[scid], channel)),
                None => None,
            }
        } else {
            None
        }
    }

    /// Whether the HTLCs for a short channel id and one more add up to an amount that is
    /// representable.
    pub open spec fn htlc_fits(self, scid: u64, amount_msat: u64) -> bool {
        match self.awaiting_htlc(scid) {
            Some((_, channel)) => channel.state.htlc_fits(amount_msat),
            None => true,
        }
    }

    /// The channel that we open to a client under the given user channel id, with its short channel
    /// id.
    pub open spec fn opened_channel(
        self,
        user_channel_id: u128,
        counterparty_node_id: PublicKey,
    ) -> Option<(u64, OutboundJITChannelView)> {
        if user_channel_id <= u64::MAX {
            match self.channel(counterparty_node_id, user_channel_id as u64) {
                Some(channel) => Some((user_channel_id as u64, channel)),
                None => None,
            }
        } else {
            None
        }
    }

    /// Whether the amount to forward over a channel that becomes ready can be spread over its
    /// HTLCs.
    pub open spec fn forwardable(
        self,
        user_channel_id: u128,
        counterparty_node_id: PublicKey,
    ) -> bool {
        match self.opened_channel(user_channel_id, counterparty_node_id) {
            Some((_, channel)) => channel.state.forwardable(),
            None => true,
        }
    }
}

impl LSPS2ServiceHandler {
    /// Constructs a `LSPS2ServiceHandler`.
    pub fn new(config: LSPS2ServiceConfig) -> (handler: Self)
        ensures
            handler@ == (LSPS2ServiceHandlerView {
                per_peer_state: Map::empty(),
                peer_by_scid: Map::empty(),
                config,
            }),
            handler@.wf(),
    {
        LSPS2ServiceHandler {
            per_peer_state: KeyedMap::new(),
            peer_by_scid: KeyedMap::new(),
            config,
        }
    }

    /// Takes out the state of a client, or makes one.
    fn take_peer(&mut self, counterparty_node_id: &PublicKey) -> (peer: PeerState)
        ensures
            peer@ == old(self)@.peer(*counterparty_node_id),
            final(self)@ == (LSPS2ServiceHandlerView {
                per_peer_state: old(self)@.per_peer_state.remove(*counterparty_node_id),
                ..old(self)@
            }),
    {
        match self.per_peer_state.remove(counterparty_node_id) {
            Some(peer) => peer,
            None => PeerState::new(),
        }
    }

    fn enqueue_response<MQ: MessageQueue<LSPSMessage>>(
        pending_messages: &mut MQ,
        counterparty_node_id: &PublicKey,
        request_id: RequestId,
        response: Response,
    )
        ensures
            final(pending_messages).pending() == with_response(
                old(pending_messages).pending(),
                *counterparty_node_id,
                request_id,
                response,
            ),
            final(pending_messages).pending().drop_last() == old(pending_messages).pending(),
    {
        pending_messages.enqueue(
            counterparty_node_id,
            LSPSMessage::from(Message::Response(request_id, response)),
        );
    }

    /// Ends a request of a client that awaits our answer, and returns it.
    ///
    /// The request is no longer pending afterwards, whatever it was.
    fn take_pending(&mut self, counterparty_node_id: &PublicKey, request_id: &RequestId) -> (pending:
        Option<Option<Request>>)
        requires
            old(self)@.wf(),
        ensures
            final(self)@.wf(),
            match pending {
                None => !old(self)@.per_peer_state.contains_key(*counterparty_node_id)
                    && final(self)@ == old(self)@,
                Some(request) => {
                    let peer = old(self)@.per_peer_state[*counterparty_node_id];
                    &&& old(self)@.per_peer_state.contains_key(*counterparty_node_id)
                    &&& final(self)@ == old(self)@.with_peer(
                        *counterparty_node_id,
                        peer.without_pending(request_id.0@),
                    )
                    &&& request == if peer.pending_requests.contains_key(request_id.0@) {
                        Some(peer.pending_requests[request_id.0@])
                    } else {
                        None
                    }
                },
            },
    {
        match self.per_peer_state.remove(counterparty_node_id) {
            Some(mut peer_state) => {
                let request = peer_state.pending_requests.remove(request_id);
                self.per_peer_state.insert(*counterparty_node_id, peer_state);
                assert(self@ =~= old(self)@.with_peer(*counterparty_node_id, peer_state@));
                Some(request)
            },
            None => {
                assert(self@ =~= old(self)@);
                None
            },
        }
    }

    /// Used by LSP to inform a client requesting a JIT Channel the token they used is invalid.
    ///
    /// Should be called in response to receiving a [`LSPS2ServiceEvent::GetInfo`] event.
    pub fn invalid_token_provided<MQ: MessageQueue<LSPSMessage>>(
        &mut self,
        counterparty_node_id: &PublicKey,
        request_id: RequestId,
        pending_messages: &mut MQ,
    ) -> (result: Result<(), APIError>)
        requires
            old(self)@.wf(),
        ensures
            final(self)@.wf(),
            !old(self)@.per_peer_state.contains_key(*counterparty_node_id) ==> {
                &&& final(self)@ == old(self)@
                &&& final(pending_messages).pending() == old(pending_messages).pending()
                &&& result == Err::<(), APIError>(
                    misuse(
                        ErrorKind::NoPeerState { counterparty_node_id: *counterparty_node_id },
                    ),
                )
            },
            old(self)@.per_peer_state.contains_key(*counterparty_node_id) ==> {
                let peer = old(self)@.per_peer_state[*counterparty_node_id];
                &&& final(self)@ == old(self)@.with_peer(
                    *counterparty_node_id,
                    peer.without_pending(request_id.0@),
                )
                &&& if peer.awaits_menu(request_id.0@) {
                    &&& result == Ok::<(), APIError>(())
                    &&& answered(
                        old(pending_messages).pending(),
                        final(pending_messages).pending(),
                        *counterparty_node_id,
                        request_id,
                        is_info_error(
                            ResponseErrorView {
                                code: LSPS2_GET_INFO_REQUEST_UNRECOGNIZED_OR_STALE_TOKEN_ERROR_CODE,
                                message: "an unrecognized or stale token was provided"@,
                                data: None,
                            },
                        ),
                    )
                } else {
                    &&& final(pending_messages).pending() == old(pending_messages).pending()
                    &&& result == Err::<(), APIError>(
                        misuse(
                            ErrorKind::NoPendingRequest {
                                request: PeerRequest::GetInfo,
                                request_id,
                            },
                        ),
                    )
                }
            },
    {
        match self.take_pending(counterparty_node_id, &request_id) {
            Some(Some(Request::GetInfo(_))) => {
                let error = ResponseError {
                    code: LSPS2_GET_INFO_REQUEST_UNRECOGNIZED_OR_STALE_TOKEN_ERROR_CODE,
                    message: "an unrecognized or stale token was provided".to_owned(),
                    data: None,
                };
                Self::enqueue_response(
                    pending_messages,
                    counterparty_node_id,
                    request_id,
                    Response::GetInfoError(error),
                );
                Ok(())
            },
            Some(_) => Err(
                misuse_error(
                    ErrorKind::NoPendingRequest { request: PeerRequest::GetInfo, request_id },
                ),
            ),
            None => Err(
                misuse_error(
                    ErrorKind::NoPeerState { counterparty_node_id: *counterparty_node_id },
                ),
            ),
        }
    }

    /// Used by LSP to provide fee parameters to a client requesting a JIT Channel.
    ///
    /// Should be called in response to receiving a [`LSPS2ServiceEvent::GetInfo`] event.
    pub fn opening_fee_params_generated<MQ: MessageQueue<LSPSMessage>>(
        &mut self,
        counterparty_node_id: &PublicKey,
        request_id: RequestId,
        opening_fee_params_menu: Vec<RawOpeningFeeParams>,
        pending_messages: &mut MQ,
    ) -> (result: Result<(), APIError>)
        requires
            old(self)@.wf(),
        ensures
            final(self)@.wf(),
            !old(self)@.per_peer_state.contains_key(*counterparty_node_id) ==> {
                &&& final(self)@ == old(self)@
                &&& final(pending_messages).pending() == old(pending_messages).pending()
                &&& result == Err::<(), APIError>(
                    misuse(
                        ErrorKind::NoPeerState { counterparty_node_id: *counterparty_node_id },
                    ),
                )
            },
            old(self)@.per_peer_state.contains_key(*counterparty_node_id) ==> {
                let peer = old(self)@.per_peer_state[*counterparty_node_id];
                &&& final(self)@ == old(self)@.with_peer(
                    *counterparty_node_id,
                    peer.without_pending(request_id.0@),
                )
                &&& if peer.awaits_menu(request_id.0@) {
                    &&& result == Ok::<(), APIError>(())
                    &&& answered(
                        old(pending_messages).pending(),
                        final(pending_messages).pending(),
                        *counterparty_node_id,
                        request_id,
                        is_menu(opening_fee_params_menu@, old(self)@.config),
                    )
                } else {
                    &&& final(pending_messages).pending() == old(pending_messages).pending()
                    &&& result == Err::<(), APIError>(
                        misuse(
                            ErrorKind::NoPendingRequest {
                                request: PeerRequest::GetInfo,
                                request_id,
                            },
                        ),
                    )
                }
            },
    {
        match self.take_pending(counterparty_node_id, &request_id) {
            Some(Some(Request::GetInfo(_))) => {
                let response = GetInfoResponse {
                    opening_fee_params_menu: promise_menu(
                        opening_fee_params_menu,
                        &self.config.promise_secret,
                    ),
                    min_payment_size_msat: self.config.min_payment_size_msat,
                    max_payment_size_msat: self.config.max_payment_size_msat,
                };
                Self::enqueue_response(
                    pending_messages,
                    counterparty_node_id,
                    request_id,
                    Response::GetInfo(response),
                );
                Ok(())
            },
            Some(_) => Err(
                misuse_error(
                    ErrorKind::NoPendingRequest { request: PeerRequest::GetInfo, request_id },
                ),
            ),
            None => Err(
                misuse_error(
                    ErrorKind::NoPeerState { counterparty_node_id: *counterparty_node_id },
                ),
            ),
        }
    }

    /// Used by LSP to provide client with the scid and cltv_expiry_delta to use in their invoice.
    ///
    /// Should be called in response to receiving a [`LSPS2ServiceEvent::BuyRequest`] event.
    pub fn invoice_parameters_generated<MQ: MessageQueue<LSPSMessage>>(
        &mut self,
        counterparty_node_id: &PublicKey,
        request_id: RequestId,
        scid: u64,
        cltv_expiry_delta: u32,
        client_trusts_lsp: bool,
        pending_messages: &mut MQ,
    ) -> (result: Result<(), APIError>)
        requires
            old(self)@.wf(),
        ensures
            final(self)@.wf(),
            !old(self)@.per_peer_state.contains_key(*counterparty_node_id) ==> {
                &&& final(self)@ == old(self)@
                &&& final(pending_messages).pending() == old(pending_messages).pending()
                &&& result == Err::<(), APIError>(
                    misuse(
                        ErrorKind::NoPeerState { counterparty_node_id: *counterparty_node_id },
                    ),
                )
            },
            old(self)@.per_peer_state.contains_key(*counterparty_node_id) ==> {
                let peer = old(self)@.per_peer_state[*counterparty_node_id];
                let ended = peer.without_pending(request_id.0@);
                if peer.awaits_scid(request_id.0@) {
                    let bought = peer.pending_requests[request_id.0@]->Buy_0;
                    &&& result == Ok::<(), APIError>(())
                    &&& final(self)@ == (LSPS2ServiceHandlerView {
                        peer_by_scid: old(self)@.peer_by_scid.insert(scid, *counterparty_node_id),
                        ..old(self)@.with_peer(
                            *counterparty_node_id,
                            ended.with_channel(
                                scid,
                                OutboundJITChannelView {
                                    state: OutboundJITChannelStateView::AwaitingPayment {
                                        min_fee_msat: bought.opening_fee_params.min_fee_msat,
                                        proportional_fee: bought.opening_fee_params.proportional,
                                        valid_until: rfc3339_seconds(
                                            bought.opening_fee_params.valid_until@,
                                        ),
                                        htlcs: Seq::empty(),
                                        payment_size_msat: bought.payment_size_msat,
                                    },
                                    scid,
                                    cltv_expiry_delta,
                                    client_trusts_lsp,
                                },
                            ),
                        )
                    })
                    &&& answered(
                        old(pending_messages).pending(),
                        final(pending_messages).pending(),
                        *counterparty_node_id,
                        request_id,
                        is_scid(scid, cltv_expiry_delta, client_trusts_lsp),
                    )
                } else {
                    &&& final(self)@ == old(self)@.with_peer(*counterparty_node_id, ended)
                    &&& final(pending_messages).pending() == old(pending_messages).pending()
                    &&& result == Err::<(), APIError>(
                        misuse(
                            ErrorKind::NoPendingRequest { request: PeerRequest::Buy, request_id },
                        ),
                    )
                }
            },
    {
        match self.take_pending(counterparty_node_id, &request_id) {
            Some(Some(Request::Buy(buy_request))) => {
                self.peer_by_scid.insert(scid, *counterparty_node_id);
                let channel = OutboundJITChannel::new(
                    scid,
                    cltv_expiry_delta,
                    client_trusts_lsp,
                    buy_request.payment_size_msat,
                    buy_request.opening_fee_params,
                );
                let mut peer_state = self.take_peer(counterparty_node_id);
                peer_state.insert_outbound_channel(scid, channel);
                self.per_peer_state.insert(*counterparty_node_id, peer_state);
                proof {
                    let ended = old(self)@.per_peer_state[*counterparty_node_id].without_pending(
                        request_id.0@,
                    );
                    assert(peer_state@ =~= ended.with_channel(scid, channel@));
                    assert(self@.per_peer_state =~= old(self)@.per_peer_state.insert(
                        *counterparty_node_id,
                        peer_state@,
                    ));
                }
                Self::enqueue_response(
                    pending_messages,
                    counterparty_node_id,
                    request_id,
                    Response::Buy(
                        BuyResponse {
                            jit_channel_scid: JitChannelScid::from_scid(scid),
                            lsp_cltv_expiry_delta: cltv_expiry_delta,
                            client_trusts_lsp,
                        },
                    ),
                );
                Ok(())
            },
            Some(_) => Err(
                misuse_error(ErrorKind::NoPendingRequest { request: PeerRequest::Buy, request_id }),
            ),
            None => Err(
                misuse_error(
                    ErrorKind::NoPeerState { counterparty_node_id: *counterparty_node_id },
                ),
            ),
        }
    }
}

impl LSPS2ServiceHandler {
    /// Returns whether the HTLCs for a short channel id and one more add up to an amount that is
    /// representable.
    pub fn fits_htlc(&self, scid: u64, amount_msat: u64) -> (fits: bool)
        requires
            self@.wf(),
        ensures
            fits == self@.htlc_fits(scid, amount_msat),
    {
        match self.peer_by_scid.get(&scid) {
            Some(counterparty_node_id) => match self.per_peer_state.get(counterparty_node_id) {
                Some(peer_state) => match peer_state.outbound_channels_by_scid.get(&scid) {
                    Some(channel) => {
                        assert(self@.per_peer_state[*counterparty_node_id].wf());
                        channel.state.fits_htlc(amount_msat)
                    },
                    None => true,
                },
                None => true,
            },
            None => true,
        }
    }

    /// Goes on from an HTLC that was intercepted for a short channel id.
    ///
    /// Once the HTLCs bring the payment that we are expecting, and the offer has not expired, the
    /// user is told to open a channel. Where the payment is incorrect or the offer has expired, the
    /// node is to fail the HTLC.
    ///
    /// Will do nothing if the scid does not match any of the ones we gave out.
    pub fn htlc_intercepted(
        &mut self,
        scid: u64,
        intercept_id: InterceptId,
        expected_outbound_amount_msat: u64,
        seconds_since_epoch: u64,
        pending_events: &mut EventQueue,
    ) -> (to_fail: Result<Option<HtlcToFail>, APIError>)
        requires
            old(self)@.wf(),
            old(self)@.htlc_fits(scid, expected_outbound_amount_msat),
        ensures
            final(self)@.wf(),
            match old(self)@.awaiting_htlc(scid) {
                Some((counterparty_node_id, channel)) => match channel.state.after_htlc(
                    InterceptedHTLC { intercept_id, expected_outbound_amount_msat },
                    seconds_since_epoch,
                ) {
                    Ok(state) => {
                        &&& to_fail == Ok::<Option<HtlcToFail>, APIError>(None)
                        &&& final(self)@ == old(self)@.with_peer(
                            counterparty_node_id,
                            old(self)@.per_peer_state[counterparty_node_id].with_channel(
                                scid,
                                OutboundJITChannelView { state, ..channel },
                            ),
                        )
                        &&& final(pending_events)@ == match state {
                            OutboundJITChannelStateView::PendingChannelOpen {
                                opening_fee_msat,
                                amt_to_forward_msat,
                                ..
                            } => old(pending_events)@.push(
                                Event::LSPS2Service(
                                    LSPS2ServiceEvent::OpenChannel {
                                        their_network_key: counterparty_node_id,
                                        amt_to_forward_msat,
                                        opening_fee_msat,
                                        user_channel_id: scid as u128,
                                    },
                                ),
                            ),
                            _ => old(pending_events)@,
                        }
                    },
                    Err(refusal) => {
                        &&& to_fail is Ok
                        &&& to_fail->Ok_0 is Some
                        &&& to_fail->Ok_0->0 == (HtlcToFail {
                            intercept_id,
                            counterparty_node_id,
                            scid,
                            err: to_fail->Ok_0->0.err,
                        })
                        &&& RefusalView::of(to_fail->Ok_0->0.err) == refusal
                        &&& final(self)@ == old(self)@
                        &&& final(pending_events)@ == old(pending_events)@
                    },
                },
                None => {
                    &&& final(self)@ == old(self)@
                    &&& final(pending_events)@ == old(pending_events)@
                    &&& to_fail == if old(self)@.peer_by_scid.contains_key(scid)
                        && !old(self)@.per_peer_state.contains_key(old(self)@.peer_by_scid[scid]) {
                        Err::<Option<HtlcToFail>, APIError>(
                            misuse(ErrorKind::NoPeerForScid { scid }),
                        )
                    } else {
                        Ok(None)
                    }
                },
            },
    {
        let counterparty_node_id = match self.peer_by_scid.get(&scid) {
            Some(counterparty_node_id) => *counterparty_node_id,
            None => return Ok(None),
        };
        match self.per_peer_state.remove(&counterparty_node_id) {
            Some(mut peer_state) => {
                let ghost before = peer_state@;
                assert(before.wf());
                let mut to_fail: Option<HtlcToFail> = None;
                let taken = peer_state.outbound_channels_by_scid.remove(&scid);
                if let Some(mut channel) = taken {
                    let htlc = InterceptedHTLC { intercept_id, expected_outbound_amount_msat };
                    match channel.htlc_intercepted(htlc, seconds_since_epoch) {
                        Ok(Some((opening_fee_msat, amt_to_forward_msat))) => {
                            pending_events.enqueue(
                                Event::LSPS2Service(
                                    LSPS2ServiceEvent::OpenChannel {
                                        their_network_key: counterparty_node_id,
                                        amt_to_forward_msat,
                                        opening_fee_msat,
                                        user_channel_id: scid as u128,
                                    },
                                ),
                            );
                        },
                        Ok(None) => {},
                        Err(e) => {
                            to_fail = Some(
                                HtlcToFail { intercept_id, counterparty_node_id, scid, err: e.err },
                            );
                        },
                    }
                    peer_state.insert_outbound_channel(scid, channel);
                }
                self.per_peer_state.insert(counterparty_node_id, peer_state);
                proof {
                    let after = peer_state@;
                    if old(self)@.awaiting_htlc(scid) is None || to_fail is Some {
                        assert(after.outbound_channels_by_scid
                            =~= before.outbound_channels_by_scid);
                        assert(after =~= before);
                        assert(self@.per_peer_state =~= old(self)@.per_peer_state);
                    } else {
                        assert(after =~= before.with_channel(
                            scid,
                            after.outbound_channels_by_scid[scid],
                        ));
                    }
                }
                Ok(to_fail)
            },
            None => {
                assert(self@.per_peer_state =~= old(self)@.per_peer_state);
                Err(misuse_error(ErrorKind::NoPeerForScid { scid }))
            },
        }
    }

    /// Gives up the channel that awaited an HTLC, after the node failed the HTLC, and returns the
    /// reason.
    pub fn intercepted_htlc_failed(&mut self, failed: HtlcToFail) -> (error: APIError)
        requires
            old(self)@.wf(),
        ensures
            final(self)@.wf(),
            error == misuse(failed.err),
            final(self)@ == if old(self)@.per_peer_state.contains_key(
                failed.counterparty_node_id,
            ) {
                old(self)@.with_peer(
                    failed.counterparty_node_id,
                    old(self)@.per_peer_state[failed.counterparty_node_id].without_channel(
                        failed.scid,
                    ),
                )
            } else {
                old(self)@
            },
    {
        match self.per_peer_state.remove(&failed.counterparty_node_id) {
            Some(mut peer_state) => {
                peer_state.remove_outbound_channel(failed.scid);
                self.per_peer_state.insert(failed.counterparty_node_id, peer_state);
                assert(old(self)@.per_peer_state[failed.counterparty_node_id].wf());
                assert(peer_state@.wf());
            },
            None => {
                assert(self@.per_peer_state =~= old(self)@.per_peer_state);
            },
        }
        misuse_error(failed.err)
    }

    /// Returns whether the amount to forward over a channel that becomes ready can be spread over
    /// its HTLCs.
    pub fn is_forwardable(&self, user_channel_id: u128, counterparty_node_id: &PublicKey) -> (possible:
        bool)
        requires
            self@.wf(),
        ensures
            possible == self@.forwardable(user_channel_id, *counterparty_node_id),
    {
        if user_channel_id > u64::MAX as u128 {
            return true;
        }
        let scid: u64 = user_channel_id as u64;
        match self.per_peer_state.get(counterparty_node_id) {
            Some(peer_state) => match peer_state.outbound_channels_by_scid.get(&scid) {
                Some(channel) => {
                    assert(self@.per_peer_state[*counterparty_node_id].wf());
                    channel.state.is_forwardable()
                },
                None => true,
            },
            None => true,
        }
    }

    /// Goes on from a channel that became ready, and returns the HTLCs that the node is to forward
    /// over it, with the amount for each.
    ///
    /// A channel that is none of those that we open is ignored.
    pub fn channel_ready(
        &mut self,
        user_channel_id: u128,
        counterparty_node_id: &PublicKey,
    ) -> (to_forward: Result<Vec<(InterceptId, u64)>, APIError>)
        requires
            old(self)@.wf(),
            old(self)@.forwardable(user_channel_id, *counterparty_node_id),
        ensures
            final(self)@.wf(),
            match old(self)@.opened_channel(user_channel_id, *counterparty_node_id) {
                Some((scid, channel)) => match channel.state.after_ready() {
                    Ok(state) => {
                        &&& final(self)@ == old(self)@.with_peer(
                            *counterparty_node_id,
                            old(self)@.per_peer_state[*counterparty_node_id].with_channel(
                                scid,
                                OutboundJITChannelView { state, ..channel },
                            ),
                        )
                        &&& to_forward is Ok
                        &&& to_forward->Ok_0@ == forwards(
                            state->ChannelReady_htlcs,
                            state->ChannelReady_amt_to_forward_msat as nat,
                        )
                    },
                    Err(refusal) => {
                        &&& final(self)@ == old(self)@
                        &&& to_forward matches Err(APIError::APIMisuseError {
                            err: ErrorKind::ChannelReadyFailed { cause },
                        }) && RefusalView::of(*cause) == refusal
                    },
                },
                None => {
                    &&& final(self)@ == old(self)@
                    &&& to_forward is Ok
                    &&& to_forward->Ok_0@ == Seq::<(InterceptId, u64)>::empty()
                },
            },
    {
        if user_channel_id > u64::MAX as u128 {
            return Ok(Vec::new());
        }
        let scid: u64 = user_channel_id as u64;
        match self.per_peer_state.remove(counterparty_node_id) {
            Some(mut peer_state) => {
                let ghost before = peer_state@;
                assert(before.wf());
                let taken = peer_state.outbound_channels_by_scid.remove(&scid);
                let to_forward = match taken {
                    Some(mut channel) => {
                        let ready = channel.channel_ready();
                        peer_state.insert_outbound_channel(scid, channel);
                        match ready {
                            Ok((htlcs, total_amt_to_forward_msat)) => Ok(
                                calculate_amount_to_forward_per_htlc(
                                    htlcs.as_slice(),
                                    total_amt_to_forward_msat,
                                ),
                            ),
                            Err(e) => Err(
                                misuse_error(
                                    ErrorKind::ChannelReadyFailed { cause: Box::new(e.err) },
                                ),
                            ),
                        }
                    },
                    None => Ok(Vec::new()),
                };
                self.per_peer_state.insert(*counterparty_node_id, peer_state);
                proof {
                    let after = peer_state@;
                    if taken is None || to_forward is Err {
                        assert(after.outbound_channels_by_scid
                            =~= before.outbound_channels_by_scid);
                        assert(after =~= before);
                        assert(self@.per_peer_state =~= old(self)@.per_peer_state);
                    } else {
                        assert(after =~= before.with_channel(
                            scid,
                            after.outbound_channels_by_scid[scid],
                        ));
                    }
                }
                to_forward
            },
            None => {
                assert(self@.per_peer_state =~= old(self)@.per_peer_state);
                Ok(Vec::new())
            },
        }
    }
}

impl LSPS2ServiceHandlerView {
    /// The state and the events after a `get_info` request of a version that is supported, which
    /// awaits the user's menu.
    pub open spec fn after_info_request(
        self,
        events: Seq<Event>,
        request_id: RequestId,
        counterparty_node_id: PublicKey,
        params: GetInfoRequest,
    ) -> (Self, Seq<Event>) {
        (
            self.with_peer(
                counterparty_node_id,
                self.peer(counterparty_node_id).with_pending(
                    request_id.0@,
                    Request::GetInfo(params),
                ),
            ),
            events.push(
                Event::LSPS2Service(
                    LSPS2ServiceEvent::GetInfo {
                        request_id,
                        counterparty_node_id,
                        version: params.version,
                        token: params.token,
                    },
                ),
            ),
        )
    }

    /// The state and the events after a `buy` request that is not refused, which awaits the user's
    /// short channel id.
    pub open spec fn after_buy_request(
        self,
        events: Seq<Event>,
        request_id: RequestId,
        counterparty_node_id: PublicKey,
        params: BuyRequest,
    ) -> (Self, Seq<Event>) {
        (
            self.with_peer(
                counterparty_node_id,
                self.peer(counterparty_node_id).with_pending(request_id.0@, Request::Buy(params)),
            ),
            events.push(
                Event::LSPS2Service(
                    LSPS2ServiceEvent::BuyRequest {
                        request_id,
                        counterparty_node_id,
                        version: params.version,
                        opening_fee_params: params.opening_fee_params,
                        payment_size_msat: params.payment_size_msat,
                    },
                ),
            ),
        )
    }
}

impl LSPS2ServiceHandler {
    fn handle_get_versions_request<MQ: MessageQueue<LSPSMessage>>(
        &self,
        request_id: RequestId,
        counterparty_node_id: &PublicKey,
        pending_messages: &mut MQ,
    ) -> (result: Result<(), LightningError>)
        ensures
            result == Ok::<(), LightningError>(()),
            answered(
                old(pending_messages).pending(),
                final(pending_messages).pending(),
                *counterparty_node_id,
                request_id,
                is_versions(),
            ),
    {
        Self::enqueue_response(
            pending_messages,
            counterparty_node_id,
            request_id,
            Response::GetVersions(GetVersionsResponse { versions: supported_versions() }),
        );
        Ok(())
    }

    fn handle_get_info_request<MQ: MessageQueue<LSPSMessage>>(
        &mut self,
        request_id: RequestId,
        counterparty_node_id: &PublicKey,
        params: GetInfoRequest,
        pending_messages: &mut MQ,
        pending_events: &mut EventQueue,
    ) -> (result: Result<(), LightningError>)
        requires
            old(self)@.wf(),
        ensures
            final(self)@.wf(),
            if supports_version(params.version) {
                &&& result == Ok::<(), LightningError>(())
                &&& final(pending_messages).pending() == old(pending_messages).pending()
                &&& (final(self)@, final(pending_events)@) == old(self)@.after_info_request(
                    old(pending_events)@,
                    request_id,
                    *counterparty_node_id,
                    params,
                )
            } else {
                &&& result == Err::<(), LightningError>(
                    info(ErrorKind::UnsupportedVersion { version: params.version }),
                )
                &&& final(self)@ == old(self)@
                &&& final(pending_events)@ == old(pending_events)@
                &&& answered(
                    old(pending_messages).pending(),
                    final(pending_messages).pending(),
                    *counterparty_node_id,
                    request_id,
                    is_info_error(
                        ResponseErrorView {
                            code: LSPS2_GET_INFO_REQUEST_INVALID_VERSION_ERROR_CODE,
                            message: unsupported_version_text(params.version),
                            data: Some("Supported versions are [1]"@),
                        },
                    ),
                )
            },
    {
        if !is_supported_version(params.version) {
            Self::enqueue_response(
                pending_messages,
                counterparty_node_id,
                request_id,
                Response::GetInfoError(
                    unsupported_version_error(
                        LSPS2_GET_INFO_REQUEST_INVALID_VERSION_ERROR_CODE,
                        params.version,
                    ),
                ),
            );
            return Err(info_error(ErrorKind::UnsupportedVersion { version: params.version }));
        }
        let mut peer_state = self.take_peer(counterparty_node_id);
        peer_state.pending_requests.insert(request_id.clone(), Request::GetInfo(params.clone()));
        self.per_peer_state.insert(*counterparty_node_id, peer_state);
        assert(old(self)@.peer(*counterparty_node_id).wf());
        assert(peer_state@.wf());
        pending_events.enqueue(
            Event::LSPS2Service(
                LSPS2ServiceEvent::GetInfo {
                    request_id,
                    counterparty_node_id: *counterparty_node_id,
                    version: params.version,
                    token: params.token,
                },
            ),
        );
        Ok(())
    }

    fn handle_buy_request<MQ: MessageQueue<LSPSMessage>>(
        &mut self,
        request_id: RequestId,
        counterparty_node_id: &PublicKey,
        params: BuyRequest,
        seconds_since_epoch: u64,
        pending_messages: &mut MQ,
        pending_events: &mut EventQueue,
    ) -> (result: Result<(), LightningError>)
        requires
            old(self)@.wf(),
        ensures
            final(self)@.wf(),
            match old(self)@.config.buy_refusal(params, seconds_since_epoch) {
                None => {
                    &&& result == Ok::<(), LightningError>(())
                    &&& final(pending_messages).pending() == old(pending_messages).pending()
                    &&& (final(self)@, final(pending_events)@) == old(self)@.after_buy_request(
                        old(pending_events)@,
                        request_id,
                        *counterparty_node_id,
                        params,
                    )
                },
                Some(refusal) => {
                    &&& result == Err::<(), LightningError>(info(refusal.reason()))
                    &&& final(self)@ == old(self)@
                    &&& final(pending_events)@ == old(pending_events)@
                    &&& answered(
                        old(pending_messages).pending(),
                        final(pending_messages).pending(),
                        *counterparty_node_id,
                        request_id,
                        is_buy_error(refusal.answer()),
                    )
                },
            },
    {
        if let Some(refusal) = self.config.refuse_buy(&params, seconds_since_epoch) {
            Self::enqueue_response(
                pending_messages,
                counterparty_node_id,
                request_id,
                Response::BuyError(refusal.to_response_error()),
            );
            return Err(refusal.to_error());
        }
        let mut peer_state = self.take_peer(counterparty_node_id);
        peer_state.pending_requests.insert(request_id.clone(), Request::Buy(params.clone()));
        self.per_peer_state.insert(*counterparty_node_id, peer_state);
        assert(old(self)@.peer(*counterparty_node_id).wf());
        assert(peer_state@.wf());
        pending_events.enqueue(
            Event::LSPS2Service(
                LSPS2ServiceEvent::BuyRequest {
                    request_id,
                    version: params.version,
                    counterparty_node_id: *counterparty_node_id,
                    opening_fee_params: params.opening_fee_params,
                    payment_size_msat: params.payment_size_msat,
                },
            ),
        );
        Ok(())
    }

    /// Takes in an LSPS2 message from a client.
    ///
    /// `seconds_since_epoch` is the current time.
    pub fn handle_message<MQ: MessageQueue<LSPSMessage>>(
        &mut self,
        message: Message,
        counterparty_node_id: &PublicKey,
        seconds_since_epoch: u64,
        pending_messages: &mut MQ,
        pending_events: &mut EventQueue,
    ) -> (result: Result<(), LightningError>)
        requires
            old(self)@.wf(),
        ensures
            final(self)@.wf(),
            match message {
                Message::Request(request_id, Request::GetVersions(_)) => {
                    &&& result == Ok::<(), LightningError>(())
                    &&& final(self)@ == old(self)@
                    &&& final(pending_events)@ == old(pending_events)@
                    &&& answered(
                        old(pending_messages).pending(),
                        final(pending_messages).pending(),
                        *counterparty_node_id,
                        request_id,
                        is_versions(),
                    )
                },
                Message::Request(request_id, Request::GetInfo(params)) => {
                    if supports_version(params.version) {
                        &&& result == Ok::<(), LightningError>(())
                        &&& final(pending_messages).pending() == old(pending_messages).pending()
                        &&& (final(self)@, final(pending_events)@) == old(self)@.after_info_request(
                            old(pending_events)@,
                            request_id,
                            *counterparty_node_id,
                            params,
                        )
                    } else {
                        &&& result == Err::<(), LightningError>(
                            info(ErrorKind::UnsupportedVersion { version: params.version }),
                        )
                        &&& final(self)@ == old(self)@
                        &&& final(pending_events)@ == old(pending_events)@
                        &&& answered(
                            old(pending_messages).pending(),
                            final(pending_messages).pending(),
                            *counterparty_node_id,
                            request_id,
                            is_info_error(
                                ResponseErrorView {
                                    code: LSPS2_GET_INFO_REQUEST_INVALID_VERSION_ERROR_CODE,
                                    message: unsupported_version_text(params.version),
                                    data: Some("Supported versions are [1]"@),
                                },
                            ),
                        )
                    }
                },
                Message::Request(request_id, Request::Buy(params)) => {
                    match old(self)@.config.buy_refusal(params, seconds_since_epoch) {
                        None => {
                            &&& result == Ok::<(), LightningError>(())
                            &&& final(pending_messages).pending() == old(pending_messages).pending()
                            &&& (final(self)@, final(pending_events)@)
                                == old(self)@.after_buy_request(
                                old(pending_events)@,
                                request_id,
                                *counterparty_node_id,
                                params,
                            )
                        },
                        Some(refusal) => {
                            &&& result == Err::<(), LightningError>(info(refusal.reason()))
                            &&& final(self)@ == old(self)@
                            &&& final(pending_events)@ == old(pending_events)@
                            &&& answered(
                                old(pending_messages).pending(),
                                final(pending_messages).pending(),
                                *counterparty_node_id,
                                request_id,
                                is_buy_error(refusal.answer()),
                            )
                        },
                    }
                },
                Message::Response(_, _) => {
                    &&& result == Err::<(), LightningError>(
                        info(
                            ErrorKind::ResponseAtService {
                                protocol: Protocol::LSPS2,
                                counterparty_node_id: *counterparty_node_id,
                            },
                        ),
                    )
                    &&& final(self)@ == old(self)@
                    &&& final(pending_messages).pending() == old(pending_messages).pending()
                    &&& final(pending_events)@ == old(pending_events)@
                },
            },
    {
        match message {
            Message::Request(request_id, request) => match request {
                Request::GetVersions(_) => self.handle_get_versions_request(
                    request_id,
                    counterparty_node_id,
                    pending_messages,
                ),
                Request::GetInfo(params) => self.handle_get_info_request(
                    request_id,
                    counterparty_node_id,
                    params,
                    pending_messages,
                    pending_events,
                ),
                Request::Buy(params) => self.handle_buy_request(
                    request_id,
                    counterparty_node_id,
                    params,
                    seconds_since_epoch,
                    pending_messages,
                    pending_events,
                ),
            },
            Message::Response(_, _) => Err(
                info_error(
                    ErrorKind::ResponseAtService {
                        protocol: Protocol::LSPS2,
                        counterparty_node_id: *counterparty_node_id,
                    },
                ),
            ),
        }
    }
}

/// Where the size of a payment is known beforehand, HTLCs are collected until they bring it: too
/// little leaves the channel awaiting the rest, and never gives it up while the offer lasts.
pub proof fn lemma_known_payment_is_collected(
    state: OutboundJITChannelStateView,
    htlc: InterceptedHTLC,
    seconds_since_epoch: u64,
)
    requires
        state is AwaitingPayment,
        !state.expired(seconds_since_epoch),
        state->AwaitingPayment_payment_size_msat is Some,
        opening_fee(
            state->AwaitingPayment_payment_size_msat->0,
            state->AwaitingPayment_min_fee_msat,
            state->AwaitingPayment_proportional_fee as u64,
        ) is Some,
    ensures
        state.after_htlc(htlc, seconds_since_epoch) is Ok,
        total_msat(state->AwaitingPayment_htlcs.push(htlc))
            < state->AwaitingPayment_payment_size_msat->0 ==> state.after_htlc(htlc, seconds_since_epoch)->Ok_0 == (
        OutboundJITChannelStateView::AwaitingPayment {
            min_fee_msat: state->AwaitingPayment_min_fee_msat,
            proportional_fee: state->AwaitingPayment_proportional_fee,
            valid_until: state->valid_until,
            htlcs: state->AwaitingPayment_htlcs.push(htlc),
            payment_size_msat: state->AwaitingPayment_payment_size_msat,
        }),
{
}

/// Where the size of a payment is not known beforehand, one HTLC pays for the channel or is
/// refused.
pub proof fn lemma_unknown_payment_is_one_htlc(
    state: OutboundJITChannelStateView,
    htlc: InterceptedHTLC,
    seconds_since_epoch: u64,
)
    requires
        state is AwaitingPayment,
        state.wf(),
        state->AwaitingPayment_payment_size_msat is None,
    ensures
        match state.after_htlc(htlc, seconds_since_epoch) {
            Ok(next) => {
                &&& next is PendingChannelOpen
                &&& next->PendingChannelOpen_htlcs == seq![htlc]
                &&& next->PendingChannelOpen_opening_fee_msat
                    + next->PendingChannelOpen_amt_to_forward_msat
                    == htlc.expected_outbound_amount_msat
            },
            Err(_) => true,
        },
{
    let collected = state->AwaitingPayment_htlcs.push(htlc);
    assert(collected =~= seq![htlc]);
    assert(collected.drop_last() =~= Seq::<InterceptedHTLC>::empty());
    assert(total_msat(collected.drop_last()) == 0);
    assert(total_msat(collected) == htlc.expected_outbound_amount_msat);
}

/// An offer that has expired opens no channel, whatever is paid: every HTLC for it is refused.
pub proof fn lemma_expired_offer_opens_no_channel(
    opening_fee_params: OpeningFeeParams,
    state: OutboundJITChannelStateView,
    htlc: InterceptedHTLC,
    seconds_since_epoch: u64,
)
    requires
        state is AwaitingPayment,
        state->valid_until == rfc3339_seconds(opening_fee_params.valid_until@),
        !not_past(rfc3339_seconds(opening_fee_params.valid_until@), seconds_since_epoch),
    ensures
        state.after_htlc(htlc, seconds_since_epoch) == Err::<
            OutboundJITChannelStateView,
            RefusalView,
        >(RefusalView::Other(ErrorKind::OfferExpired)),
{
}

/// A channel to open is paid for: the HTLCs bring the opening fee and the amount to forward.
pub proof fn lemma_channel_is_paid_for(
    state: OutboundJITChannelStateView,
    htlc: InterceptedHTLC,
    seconds_since_epoch: u64,
)
    requires
        state.wf(),
        state.htlc_fits(htlc.expected_outbound_amount_msat),
    ensures
        match state.after_htlc(htlc, seconds_since_epoch) {
            Ok(next) => {
                &&& next.wf()
                &&& next is PendingChannelOpen ==> next->PendingChannelOpen_opening_fee_msat
                    + next->PendingChannelOpen_amt_to_forward_msat <= total_msat(
                    next->PendingChannelOpen_htlcs,
                )
            },
            Err(_) => true,
        },
{
    if state is AwaitingPayment {
        let htlcs = state->AwaitingPayment_htlcs;
        assert(htlcs.push(htlc).drop_last() =~= htlcs);
    }
}

/// A channel becomes ready once, and what is forwarded over it adds up to the amount to forward.
pub proof fn lemma_ready_once(state: OutboundJITChannelStateView)
    requires
        state is PendingChannelOpen,
        state.forwardable(),
    ensures
        state.after_ready() is Ok,
        state.after_ready()->Ok_0.after_ready() is Err,
        crate::lsps2::forwarding::forwarded_msat(
            forwards(
                state.after_ready()->Ok_0->ChannelReady_htlcs,
                state.after_ready()->Ok_0->ChannelReady_amt_to_forward_msat as nat,
            ),
        ) == state->PendingChannelOpen_amt_to_forward_msat,
{
    crate::lsps2::forwarding::lemma_forwards_add_up(
        state->PendingChannelOpen_htlcs,
        state->PendingChannelOpen_amt_to_forward_msat as nat,
    );
}

/// A `buy` request that is not refused has a supported version, valid fee parameters and, where its
/// payment size is given, a size within the limits that exceeds the opening fee; and every such
/// request is accepted.
pub proof fn lemma_accepted_buy_requests(
    config: LSPS2ServiceConfig,
    params: BuyRequest,
    seconds_since_epoch: u64,
)
    ensures
        config.buy_refusal(params, seconds_since_epoch) is None <==> {
            &&& supports_version(params.version)
            &&& params.opening_fee_params.valid_at(config.promise_secret@, seconds_since_epoch)
            &&& match params.payment_size_msat {
                Some(size) => {
                    &&& config.min_payment_size_msat <= size <= config.max_payment_size_msat
                    &&& match opening_fee(
                        size,
                        params.opening_fee_params.min_fee_msat,
                        params.opening_fee_params.proportional as u64,
                    ) {
                        Some(fee) => fee < size,
                        None => false,
                    }
                },
                None => true,
            }
        },
{
}

/// What an HTLC for an offer leads to. After the end of the offer it is refused. Otherwise the payment
/// is the size that was agreed on or, where none was, what the HTLCs bring. Its opening fee is the least
/// one that is no less than the minimum and covers the proportional fee. Once the HTLCs bring the
/// payment, and it exceeds the fee, the channel is to be opened and the rest forwarded; until then, the
/// HTLCs are kept where a size was agreed on, and refused where none was.
pub proof fn lemma_htlc_pays_the_opening_fee(
    state: OutboundJITChannelStateView,
    htlc: InterceptedHTLC,
    seconds_since_epoch: u64,
    fee: u64,
)
    requires
        state is AwaitingPayment,
        total_msat(state->AwaitingPayment_htlcs) + htlc.expected_outbound_amount_msat <= u64::MAX,
    ensures
        ({
            let outcome = state.after_htlc(htlc, seconds_since_epoch);
            let htlcs = state->AwaitingPayment_htlcs;
            let size = state->AwaitingPayment_payment_size_msat;
            let min_fee_msat = state->AwaitingPayment_min_fee_msat;
            let proportional = state->AwaitingPayment_proportional_fee;
            let brought = total_msat(htlcs) + htlc.expected_outbound_amount_msat;
            let paid = if size is Some {
                size->0 as int
            } else {
                brought
            };
            let in_time = state->valid_until is Some && seconds_since_epoch
                <= state->valid_until->0;
            let computable = paid * proportional + 999999 <= u64::MAX;
            let right_fee = is_least_fee(
                fee as int,
                paid,
                min_fee_msat as int,
                proportional as int,
            );
            &&& !in_time ==> outcome == Err::<OutboundJITChannelStateView, RefusalView>(
                RefusalView::Other(ErrorKind::OfferExpired),
            )
            &&& in_time && !computable ==> outcome == Err::<
                OutboundJITChannelStateView,
                RefusalView,
            >(
                RefusalView::Other(
                    ErrorKind::OpeningFeeOverflow {
                        min_fee_msat,
                        proportional,
                        expected_outbound_amount_msat: brought as u64,
                    },
                ),
            )
            &&& in_time && computable && right_fee && paid <= brought && fee < paid ==> {
                &&& outcome is Ok
                &&& outcome->Ok_0 is PendingChannelOpen
                &&& outcome->Ok_0->PendingChannelOpen_htlcs == htlcs.push(htlc)
                &&& outcome->Ok_0->PendingChannelOpen_opening_fee_msat == fee
                &&& outcome->Ok_0->PendingChannelOpen_amt_to_forward_msat == paid - fee
            }
            &&& in_time && computable && right_fee && !(paid <= brought && fee < paid) && size
                is Some ==> {
                &&& outcome is Ok
                &&& outcome->Ok_0 is AwaitingPayment
                &&& outcome->Ok_0->AwaitingPayment_htlcs == htlcs.push(htlc)
                &&& outcome->Ok_0->AwaitingPayment_payment_size_msat == size
                &&& outcome->Ok_0->AwaitingPayment_min_fee_msat == min_fee_msat
                &&& outcome->Ok_0->AwaitingPayment_proportional_fee == proportional
                &&& outcome->Ok_0->valid_until == state->valid_until
            }
            &&& in_time && computable && right_fee && !(fee < paid) && size is None ==> outcome
                == Err::<OutboundJITChannelStateView, RefusalView>(
                RefusalView::Other(ErrorKind::HtlcTooSmall),
            )
        }),
{
    let htlcs = state->AwaitingPayment_htlcs;
    let min_fee_msat = state->AwaitingPayment_min_fee_msat;
    let proportional = state->AwaitingPayment_proportional_fee;
    crate::lsps2::forwarding::lemma_amounts_add_up(htlcs, htlc, Seq::empty(), (htlc.intercept_id, 0));
    let brought = total_msat(htlcs.push(htlc)) as u64;
    let paid = match state->AwaitingPayment_payment_size_msat {
        Some(size) => size,
        None => brought,
    };
    lemma_opening_fee_is_least(paid, min_fee_msat, proportional as u64, fee as int);
}

/// A channel is never opened for less than what the offer asks: the opening fee is no less than the
/// minimum, it covers the proportional fee of the payment and is no more than that takes, and with the
/// amount to forward it makes up the payment, which the HTLCs bring. The HTLCs are those that were
/// collected and the one that came.
pub proof fn lemma_opened_channel_is_charged_for(
    state: OutboundJITChannelStateView,
    htlc: InterceptedHTLC,
    seconds_since_epoch: u64,
)
    requires
        state.wf(),
        state.htlc_fits(htlc.expected_outbound_amount_msat),
        state.after_htlc(htlc, seconds_since_epoch) is Ok,
        state.after_htlc(htlc, seconds_since_epoch)->Ok_0 is PendingChannelOpen,
    ensures
        state is AwaitingPayment,
        ({
            let next = state.after_htlc(htlc, seconds_since_epoch)->Ok_0;
            let fee = next->PendingChannelOpen_opening_fee_msat;
            let forwarded = next->PendingChannelOpen_amt_to_forward_msat;
            let collected = next->PendingChannelOpen_htlcs;
            let min_fee_msat = state->AwaitingPayment_min_fee_msat;
            let proportional = state->AwaitingPayment_proportional_fee;
            let paid = fee + forwarded;
            &&& collected == state->AwaitingPayment_htlcs.push(htlc)
            &&& min_fee_msat <= fee
            &&& paid * proportional <= fee * 1000000
            &&& fee == min_fee_msat || (fee - 1) * 1000000 < paid * proportional
            &&& 0 < forwarded
            &&& paid <= total_msat(state->AwaitingPayment_htlcs)
                + htlc.expected_outbound_amount_msat
            &&& match state->AwaitingPayment_payment_size_msat {
                Some(size) => paid == size,
                None => paid == total_msat(state->AwaitingPayment_htlcs)
                    + htlc.expected_outbound_amount_msat,
            }
        }),
{
    crate::lsps2::forwarding::lemma_amounts_add_up(
        state->AwaitingPayment_htlcs,
        htlc,
        Seq::empty(),
        (htlc.intercept_id, 0),
    );
    lemma_opening_fee_is_least(
        match state->AwaitingPayment_payment_size_msat {
            Some(size) => size,
            None => total_msat(state->AwaitingPayment_htlcs.push(htlc)) as u64,
        },
        state->AwaitingPayment_min_fee_msat,
        state->AwaitingPayment_proportional_fee as u64,
        0,
    );
}

/// A channel that is paid for takes no more HTLCs. It becomes ready with the HTLCs and the amount to
/// forward that it was opened for, and no channel becomes ready before it is paid for or a second time.
pub proof fn lemma_steps_of_a_paid_channel(
    state: OutboundJITChannelStateView,
    htlc: InterceptedHTLC,
    seconds_since_epoch: u64,
)
    ensures
        !(state is AwaitingPayment) ==> state.after_htlc(htlc, seconds_since_epoch) == Err::<
            OutboundJITChannelStateView,
            RefusalView,
        >(RefusalView::UnexpectedHtlc { state }),
        state is PendingChannelOpen ==> {
            let ready = state.after_ready();
            &&& ready is Ok
            &&& ready->Ok_0 is ChannelReady
            &&& ready->Ok_0->ChannelReady_htlcs == state->PendingChannelOpen_htlcs
            &&& ready->Ok_0->ChannelReady_amt_to_forward_msat
                == state->PendingChannelOpen_amt_to_forward_msat
        },
        !(state is PendingChannelOpen) ==> state.after_ready() == Err::<
            OutboundJITChannelStateView,
            RefusalView,
        >(RefusalView::UnexpectedChannelReady { state }),
{
}

/// The channel that an HTLC is for is the one that was sold under its short channel id to the client
/// that bought it, and the channel that becomes ready is the one to the client whose short channel id is
/// its user channel id.
pub proof fn lemma_channels_are_found_by_scid(
    service: LSPS2ServiceHandlerView,
    scid: u64,
    user_channel_id: u128,
    node: PublicKey,
    channel: OutboundJITChannelView,
)
    ensures
        service.awaiting_htlc(scid) == Some((node, channel)) <==> {
            &&& service.peer_by_scid.contains_key(scid)
            &&& service.peer_by_scid[scid] == node
            &&& service.per_peer_state.contains_key(node)
            &&& service.per_peer_state[node].outbound_channels_by_scid.contains_key(scid)
            &&& service.per_peer_state[node].outbound_channels_by_scid[scid] == channel
        },
        service.opened_channel(user_channel_id, node) == Some((scid, channel)) <==> {
            &&& user_channel_id == scid
            &&& service.per_peer_state.contains_key(node)
            &&& service.per_peer_state[node].outbound_channels_by_scid.contains_key(scid)
            &&& service.per_peer_state[node].outbound_channels_by_scid[scid] == channel
        },
{
}

/// A change concerns one client, and of that client one channel or one request.
pub proof fn lemma_changes_are_local(
    service: LSPS2ServiceHandlerView,
    node: PublicKey,
    peer: PeerStateView,
    scid: u64,
    channel: OutboundJITChannelView,
    request_id: Seq<char>,
    request: Request,
)
    ensures
        service.with_peer(node, peer).per_peer_state == service.per_peer_state.insert(node, peer),
        service.with_peer(node, peer).peer_by_scid == service.peer_by_scid,
        service.with_peer(node, peer).config == service.config,
        service.per_peer_state.contains_key(node) ==> service.peer(node)
            == service.per_peer_state[node],
        !service.per_peer_state.contains_key(node) ==> service.peer(node).pending_requests
            == Map::<Seq<char>, Request>::empty() && service.peer(node).outbound_channels_by_scid
            == Map::<u64, OutboundJITChannelView>::empty(),
        peer.with_channel(scid, channel).outbound_channels_by_scid
            == peer.outbound_channels_by_scid.insert(scid, channel),
        peer.with_channel(scid, channel).pending_requests == peer.pending_requests,
        peer.without_channel(scid).outbound_channels_by_scid
            == peer.outbound_channels_by_scid.remove(scid),
        peer.without_channel(scid).pending_requests == peer.pending_requests,
        peer.with_pending(request_id, request).pending_requests == peer.pending_requests.insert(
            request_id,
            request,
        ),
        peer.with_pending(request_id, request).outbound_channels_by_scid
            == peer.outbound_channels_by_scid,
        peer.without_pending(request_id).pending_requests == peer.pending_requests.remove(
            request_id,
        ),
        peer.without_pending(request_id).outbound_channels_by_scid
            == peer.outbound_channels_by_scid,
        peer.awaits_menu(request_id) <==> peer.pending_requests.contains_key(request_id)
            && peer.pending_requests[request_id] is GetInfo,
        peer.awaits_scid(request_id) <==> peer.pending_requests.contains_key(request_id)
            && peer.pending_requests[request_id] is Buy,
{
}

/// A `buy` request is refused exactly for the first of these reasons that holds: its version is not
/// supported; its payment size, where it names one, is below the minimum or above the maximum, gives an
/// opening fee that is too large to compute, or does not exceed the opening fee; its fee parameters have
/// expired or were not given out under our secret.
pub proof fn lemma_why_buy_requests_are_refused(
    config: LSPS2ServiceConfig,
    params: BuyRequest,
    seconds_since_epoch: u64,
    fee: u64,
)
    ensures
        ({
            let refusal = config.buy_refusal(params, seconds_since_epoch);
            let offer = params.opening_fee_params;
            let sized = params.payment_size_msat is Some;
            let size = params.payment_size_msat->0;
            let below = sized && size < config.min_payment_size_msat;
            let above = sized && size > config.max_payment_size_msat;
            let overflows = sized && size * offer.proportional + 999999 > u64::MAX;
            let right_fee = is_least_fee(
                fee as int,
                size as int,
                offer.min_fee_msat as int,
                offer.proportional as int,
            );
            let promised = offer.promise@ == promise_text(
                config.promise_secret@,
                offer.min_fee_msat,
                offer.proportional,
                offer.valid_until@,
                offer.min_lifetime,
                offer.max_client_to_self_delay,
            );
            let in_time = rfc3339_seconds(offer.valid_until@) is Some && seconds_since_epoch
                <= rfc3339_seconds(offer.valid_until@)->0;
            &&& params.version != 1 ==> refusal == Some(
                BuyRefusal::UnsupportedVersion { version: params.version },
            )
            &&& params.version == 1 && below ==> refusal == Some(
                BuyRefusal::PaymentSizeBelowMinimum,
            )
            &&& params.version == 1 && !below && above ==> refusal == Some(
                BuyRefusal::PaymentSizeAboveMaximum,
            )
            &&& params.version == 1 && !below && !above && overflows ==> refusal == Some(
                BuyRefusal::FeeOverflow,
            )
            &&& params.version == 1 && !below && !above && !overflows && sized && right_fee && size
                <= fee ==> refusal == Some(BuyRefusal::PaymentSizeBelowFee)
            &&& params.version == 1 && !below && !above && !overflows && (sized ==> right_fee && fee
                < size) && !(promised && in_time) ==> refusal == Some(
                BuyRefusal::InvalidOpeningFeeParams,
            )
            &&& params.version == 1 && !below && !above && !overflows && (sized ==> right_fee && fee
                < size) && promised && in_time ==> refusal is None
        }),
{
    if let Some(size) = params.payment_size_msat {
        lemma_opening_fee_is_least(
            size,
            params.opening_fee_params.min_fee_msat,
            params.opening_fee_params.proportional as u64,
            fee as int,
        );
    }
}

/// The codes, the words and the reasons that refusals are told with.
pub proof fn lemma_how_buy_requests_are_refused(refusal: BuyRefusal)
    ensures
        match refusal {
            BuyRefusal::UnsupportedVersion { version } => refusal.answer().code == 1
                && refusal.reason() == (ErrorKind::UnsupportedVersion { version }),
            BuyRefusal::InvalidOpeningFeeParams => refusal.answer().code == 2 && refusal.reason()
                == ErrorKind::InvalidOpeningFeeParams,
            BuyRefusal::PaymentSizeBelowMinimum => refusal.answer().code == 3 && refusal.reason()
                == ErrorKind::PaymentSizeBelowMinimum,
            BuyRefusal::PaymentSizeBelowFee => refusal.answer().code == 3 && refusal.reason()
                == ErrorKind::PaymentSizeBelowFee,
            BuyRefusal::PaymentSizeAboveMaximum => refusal.answer().code == 4 && refusal.reason()
                == ErrorKind::PaymentSizeAboveMaximum,
            BuyRefusal::FeeOverflow => refusal.answer().code == 4 && refusal.reason()
                == ErrorKind::FeeOverflow,
        },
        refusal.answer().data is Some <==> refusal is UnsupportedVersion,
        refusal is UnsupportedVersion ==> refusal.answer().data == Some(
            "Supported versions are [1]"@,
        ),
        refusal.answer().message == (match refusal {
            BuyRefusal::UnsupportedVersion { version } => unsupported_version_text(version),
            BuyRefusal::PaymentSizeBelowMinimum => {
                "payment size is below our minimum supported payment size"@
            },
            BuyRefusal::PaymentSizeAboveMaximum => {
                "payment size is above our maximum supported payment size"@
            },
            BuyRefusal::PaymentSizeBelowFee => "payment size is too small to cover the opening fee"@,
            BuyRefusal::FeeOverflow => "overflow error when calculating opening_fee"@,
            BuyRefusal::InvalidOpeningFeeParams => {
                "valid_until is already past OR the promise did not match the provided parameters"@
            },
        }),
{
}

/// A request that is taken in awaits our answer under its id, beside what awaited one before, and the
/// user is told all that it says.
pub proof fn lemma_requests_are_handed_on(
    service: LSPS2ServiceHandlerView,
    events: Seq<Event>,
    request_id: RequestId,
    node: PublicKey,
    asked: GetInfoRequest,
    bought: BuyRequest,
)
    ensures
        ({
            let before = if service.per_peer_state.contains_key(node) {
                service.per_peer_state[node].pending_requests
            } else {
                Map::<Seq<char>, Request>::empty()
            };
            let (after, told) = service.after_info_request(events, request_id, node, asked);
            let (sold, sale_told) = service.after_buy_request(events, request_id, node, bought);
            &&& told == events.push(
                Event::LSPS2Service(
                    LSPS2ServiceEvent::GetInfo {
                        request_id,
                        counterparty_node_id: node,
                        version: asked.version,
                        token: asked.token,
                    },
                ),
            )
            &&& after.per_peer_state.contains_key(node)
            &&& after.per_peer_state[node].pending_requests == before.insert(
                request_id.0@,
                Request::GetInfo(asked),
            )
            &&& sale_told == events.push(
                Event::LSPS2Service(
                    LSPS2ServiceEvent::BuyRequest {
                        request_id,
                        counterparty_node_id: node,
                        version: bought.version,
                        opening_fee_params: bought.opening_fee_params,
                        payment_size_msat: bought.payment_size_msat,
                    },
                ),
            )
            &&& sold.per_peer_state.contains_key(node)
            &&& sold.per_peer_state[node].pending_requests == before.insert(
                request_id.0@,
                Request::Buy(bought),
            )
            &&& after.peer_by_scid == service.peer_by_scid && sold.peer_by_scid
                == service.peer_by_scid
            &&& after.config == service.config && sold.config == service.config
            &&& forall|other: PublicKey|
                other != node ==> (after.per_peer_state.contains_key(other)
                    <==> #[trigger] service.per_peer_state.contains_key(other)) && (
                sold.per_peer_state.contains_key(other) <==> service.per_peer_state.contains_key(
                    other,
                ))
            &&& forall|other: PublicKey|
                other != node && #[trigger] service.per_peer_state.contains_key(other)
                    ==> after.per_peer_state[other] == service.per_peer_state[other]
                    && sold.per_peer_state[other] == service.per_peer_state[other]
            &&& service.per_peer_state.contains_key(node)
                ==> after.per_peer_state[node].outbound_channels_by_scid
                == service.per_peer_state[node].outbound_channels_by_scid
                && sold.per_peer_state[node].outbound_channels_by_scid
                == service.per_peer_state[node].outbound_channels_by_scid
        }),
{
}

/// An answer is one more message, to the client that asked and under the id of its request, and it says
/// what it is to say: the menu with a promise for each entry and the limits, the short channel id in its
/// readable form with what else the invoice needs, the one supported version, or an error.
pub proof fn lemma_what_answers_say(
    before: Seq<(PublicKey, LSPSMessage)>,
    after: Seq<(PublicKey, LSPSMessage)>,
    node: PublicKey,
    request_id: RequestId,
    describes: spec_fn(Response) -> bool,
    response: Response,
    raw: Seq<RawOpeningFeeParams>,
    config: LSPS2ServiceConfig,
    scid: u64,
    cltv_expiry_delta: u32,
    client_trusts_lsp: bool,
    error: ResponseErrorView,
)
    ensures
        answered(before, after, node, request_id, describes) ==> {
            &&& after.len() == before.len() + 1
            &&& forall|i: int| 0 <= i < before.len() ==> #[trigger] after[i] == before[i]
            &&& after.last().0 == node
            &&& after.last().1 matches LSPSMessage::LSPS2(Message::Response(id, said)) && id
                == request_id && describes(said)
        },
        is_menu(raw, config)(response) ==> {
            &&& response matches Response::GetInfo(menu)
            &&& menu.min_payment_size_msat == config.min_payment_size_msat
            &&& menu.max_payment_size_msat == config.max_payment_size_msat
            &&& menu.opening_fee_params_menu@.len() == raw.len()
            &&& forall|i: int|
                0 <= i < raw.len() ==> {
                    let entry = #[trigger] menu.opening_fee_params_menu@[i];
                    &&& entry.min_fee_msat == raw[i].min_fee_msat
                    &&& entry.proportional == raw[i].proportional
                    &&& entry.valid_until@ == raw[i].valid_until@
                    &&& entry.min_lifetime == raw[i].min_lifetime
                    &&& entry.max_client_to_self_delay == raw[i].max_client_to_self_delay
                    &&& entry.promise@ == promise_text(
                        config.promise_secret@,
                        raw[i].min_fee_msat,
                        raw[i].proportional,
                        raw[i].valid_until@,
                        raw[i].min_lifetime,
                        raw[i].max_client_to_self_delay,
                    )
                }
        },
        is_scid(scid, cltv_expiry_delta, client_trusts_lsp)(response) ==> {
            &&& response matches Response::Buy(bought)
            &&& parsed_scid(bought.jit_channel_scid.0@) == Some(scid)
            &&& bought.lsp_cltv_expiry_delta == cltv_expiry_delta
            &&& bought.client_trusts_lsp == client_trusts_lsp
        },
        is_versions()(response) ==> {
            &&& response matches Response::GetVersions(listed)
            &&& listed.versions@.len() == 1
            &&& listed.versions@[0] == 1
        },
        is_info_error(error)(response) ==> response is GetInfoError && response->GetInfoError_0@
            == error,
        is_buy_error(error)(response) ==> response is BuyError && response->BuyError_0@ == error,
{
    if answered(before, after, node, request_id, describes) {
        assert forall|i: int| 0 <= i < before.len() implies #[trigger] after[i] == before[i] by {
            assert(after.drop_last()[i] == before[i]);
        }
    }
    crate::utils::lemma_scid_round_trip(scid);
}

/// Whatever HTLC a state takes in, it goes on to the opening of a channel only where the HTLCs bring the
/// payment, and then for the least fee that is no less than the minimum and covers the proportional fee
/// of the payment, with the rest to be forwarded.
pub proof fn lemma_htlcs_open_channels_for_the_fee(
    state: OutboundJITChannelState,
    htlc: InterceptedHTLC,
    seconds_since_epoch: u64,
    next: Result<OutboundJITChannelState, ChannelStateError>,
)
    requires
        call_ensures(
            OutboundJITChannelState::htlc_intercepted,
            (&state, htlc, seconds_since_epoch),
            next,
        ),
        state@ is AwaitingPayment,
        total_msat(state@->AwaitingPayment_htlcs) + htlc.expected_outbound_amount_msat <= u64::MAX,
    ensures
        ({
            let htlcs = state@->AwaitingPayment_htlcs;
            let size = state@->AwaitingPayment_payment_size_msat;
            let min_fee_msat = state@->AwaitingPayment_min_fee_msat;
            let proportional = state@->AwaitingPayment_proportional_fee;
            let brought = total_msat(htlcs) + htlc.expected_outbound_amount_msat;
            let paid = if size is Some {
                size->0 as int
            } else {
                brought
            };
            let in_time = state@->valid_until is Some && seconds_since_epoch
                <= state@->valid_until->0;
            let computable = paid * proportional + 999999 <= u64::MAX;
            &&& next is Ok && next->Ok_0@ is PendingChannelOpen ==> {
                let fee = next->Ok_0@->PendingChannelOpen_opening_fee_msat;
                &&& in_time && computable
                &&& paid <= brought
                &&& min_fee_msat <= fee
                &&& paid * proportional <= fee * 1000000
                &&& fee == min_fee_msat || (fee - 1) * 1000000 < paid * proportional
                &&& fee < paid
                &&& next->Ok_0@->PendingChannelOpen_amt_to_forward_msat == paid - fee
                &&& next->Ok_0@->PendingChannelOpen_htlcs == htlcs.push(htlc)
            }
            &&& next is Ok && !(next->Ok_0@ is PendingChannelOpen) ==> {
                &&& in_time && computable && size is Some
                &&& next->Ok_0@ is AwaitingPayment
                &&& next->Ok_0@->AwaitingPayment_htlcs == htlcs.push(htlc)
                &&& next->Ok_0@->AwaitingPayment_payment_size_msat == size
                &&& next->Ok_0@->AwaitingPayment_min_fee_msat == min_fee_msat
                &&& next->Ok_0@->AwaitingPayment_proportional_fee == proportional
                &&& next->Ok_0@->valid_until == state@->valid_until
                &&& brought < paid || paid <= min_fee_msat || (paid - 1) * 1000000 < paid
                    * proportional
            }
            &&& in_time && computable && paid <= brought && min_fee_msat < paid && paid
                * proportional <= (paid - 1) * 1000000 ==> next is Ok && next->Ok_0@
                is PendingChannelOpen
            &&& next is Err && in_time && computable ==> size is None && (paid <= min_fee_msat || (
            paid - 1) * 1000000 < paid * proportional)
        }),
{
    let htlcs = state@->AwaitingPayment_htlcs;
    let min_fee_msat = state@->AwaitingPayment_min_fee_msat;
    let proportional = state@->AwaitingPayment_proportional_fee;
    crate::lsps2::forwarding::lemma_amounts_add_up(htlcs, htlc, Seq::empty(), (htlc.intercept_id, 0));
    let paid = match state@->AwaitingPayment_payment_size_msat {
        Some(size) => size,
        None => total_msat(htlcs.push(htlc)) as u64,
    };
    lemma_opening_fee_is_least(paid, min_fee_msat, proportional as u64, 0);
    lemma_opening_fee_is_least(paid, min_fee_msat, proportional as u64, paid - 1);
}

/// What an intercepted HTLC leads to at the service. The channel that was sold under its short channel
/// id takes it in. Where that opens the channel, the user is told to open it, to the client that bought
/// it, for the fee that the channel is opened for; otherwise the user is told nothing. An HTLC that the
/// channel refuses is to be failed, and one for no channel is left alone.
pub proof fn lemma_intercepted_htlcs(
    service: &mut LSPS2ServiceHandler,
    scid: u64,
    intercept_id: InterceptId,
    amount_msat: u64,
    seconds_since_epoch: u64,
    events: &mut EventQueue,
    to_fail: Result<Option<HtlcToFail>, APIError>,
    node: PublicKey,
)
    requires
        call_ensures(
            LSPS2ServiceHandler::htlc_intercepted,
            (service, scid, intercept_id, amount_msat, seconds_since_epoch, events),
            to_fail,
        ),
        old(service)@.peer_by_scid.contains_key(scid) ==> old(service)@.peer_by_scid[scid] == node,
    ensures
        ({
            let before = old(service)@;
            let after = final(service)@;
            let sold = before.peer_by_scid.contains_key(scid);
            let known = sold && before.per_peer_state.contains_key(node);
            let channels = before.per_peer_state[node].outbound_channels_by_scid;
            let found = known && channels.contains_key(scid);
            let next = after.per_peer_state[node].outbound_channels_by_scid[scid];
            let htlc = InterceptedHTLC {
                intercept_id,
                expected_outbound_amount_msat: amount_msat,
            };
            let outcome = channels[scid].state.after_htlc(htlc, seconds_since_epoch);
            &&& after.peer_by_scid == before.peer_by_scid
            &&& after.config == before.config
            &&& after.per_peer_state.remove(node) == before.per_peer_state.remove(node)
            &&& found && outcome is Ok ==> {
                &&& to_fail == Ok::<Option<HtlcToFail>, APIError>(None)
                &&& after.per_peer_state[node].outbound_channels_by_scid == channels.insert(
                    scid,
                    next,
                )
                &&& after.per_peer_state[node].pending_requests
                    == before.per_peer_state[node].pending_requests
                &&& next.state == outcome->Ok_0
                &&& next.scid == channels[scid].scid
                &&& next.cltv_expiry_delta == channels[scid].cltv_expiry_delta
                &&& next.client_trusts_lsp == channels[scid].client_trusts_lsp
                &&& next.state is PendingChannelOpen ==> final(events)@ == old(events)@.push(
                    Event::LSPS2Service(
                        LSPS2ServiceEvent::OpenChannel {
                            their_network_key: node,
                            amt_to_forward_msat: next.state->PendingChannelOpen_amt_to_forward_msat,
                            opening_fee_msat: next.state->PendingChannelOpen_opening_fee_msat,
                            user_channel_id: scid as u128,
                        },
                    ),
                )
                &&& !(next.state is PendingChannelOpen) ==> final(events)@ == old(events)@
            }
            &&& !(found && outcome is Ok) ==> after == before && final(events)@ == old(events)@
            &&& found && outcome is Err ==> {
                &&& to_fail is Ok
                &&& to_fail->Ok_0 is Some
                &&& to_fail->Ok_0->0.intercept_id == intercept_id
                &&& to_fail->Ok_0->0.counterparty_node_id == node
                &&& to_fail->Ok_0->0.scid == scid
                &&& RefusalView::of(to_fail->Ok_0->0.err) == outcome->Err_0
            }
            &&& sold && !known ==> to_fail == Err::<Option<HtlcToFail>, APIError>(
                APIError::APIMisuseError { err: ErrorKind::NoPeerForScid { scid } },
            )
            &&& !sold || known && !found ==> to_fail == Ok::<Option<HtlcToFail>, APIError>(None)
        }),
{
}

/// Failing an HTLC gives up the channel that it was for, and nothing else, and the reason is reported.
pub proof fn lemma_failed_htlcs_give_up_their_channel(
    service: &mut LSPS2ServiceHandler,
    failed: HtlcToFail,
    error: APIError,
)
    requires
        call_ensures(LSPS2ServiceHandler::intercepted_htlc_failed, (service, failed), error),
    ensures
        ({
            let before = old(service)@;
            let after = final(service)@;
            let node = failed.counterparty_node_id;
            &&& error == (APIError::APIMisuseError { err: failed.err })
            &&& !before.per_peer_state.contains_key(node) ==> after == before
            &&& before.per_peer_state.contains_key(node) ==> {
                &&& after.per_peer_state == before.per_peer_state.insert(
                    node,
                    after.per_peer_state[node],
                )
                &&& after.per_peer_state[node].outbound_channels_by_scid
                    == before.per_peer_state[node].outbound_channels_by_scid.remove(failed.scid)
                &&& after.per_peer_state[node].pending_requests
                    == before.per_peer_state[node].pending_requests
            }
            &&& after.peer_by_scid == before.peer_by_scid
            &&& after.config == before.config
        }),
{
}

/// Once a channel that was paid for is ready, its HTLCs are forwarded: each once, in their order, none
/// with more than it brought, and together with the amount that the channel was opened for. All but the
/// last bear their share of the fee. A channel that is not known forwards nothing.
pub proof fn lemma_ready_channels_forward_their_htlcs(
    service: &mut LSPS2ServiceHandler,
    user_channel_id: u128,
    node: PublicKey,
    to_forward: Result<Vec<(InterceptId, u64)>, APIError>,
)
    requires
        call_ensures(
            LSPS2ServiceHandler::channel_ready,
            (service, user_channel_id, &node),
            to_forward,
        ),
        old(service)@.forwardable(user_channel_id, node),
    ensures
        ({
            let before = old(service)@;
            let after = final(service)@;
            let scid = user_channel_id as u64;
            let channels = before.per_peer_state[node].outbound_channels_by_scid;
            let found = user_channel_id <= u64::MAX && before.per_peer_state.contains_key(node)
                && channels.contains_key(scid);
            let state = channels[scid].state;
            let next = after.per_peer_state[node].outbound_channels_by_scid[scid];
            let htlcs = state->PendingChannelOpen_htlcs;
            let amount = state->PendingChannelOpen_amt_to_forward_msat;
            &&& !found ==> to_forward is Ok && to_forward->Ok_0@.len() == 0
            &&& found && !(state is PendingChannelOpen) ==> to_forward is Err
            &&& !(found && state is PendingChannelOpen) ==> after == before
            &&& found && state is PendingChannelOpen ==> {
                &&& to_forward is Ok
                &&& to_forward->Ok_0@.len() == htlcs.len()
                &&& forwarded_msat(to_forward->Ok_0@) == amount
                &&& forall|i: int|
                    0 <= i < htlcs.len() ==> (#[trigger] to_forward->Ok_0@[i]).0
                        == htlcs[i].intercept_id && to_forward->Ok_0@[i].1
                        <= htlcs[i].expected_outbound_amount_msat
                &&& forall|i: int|
                    0 <= i < htlcs.len() - 1 ==> {
                        let brought = htlcs[i].expected_outbound_amount_msat;
                        let withheld = brought - (#[trigger] to_forward->Ok_0@[i]).1;
                        let fee = total_msat(htlcs) - amount;
                        withheld * total_msat(htlcs) <= fee * brought < (withheld + 1) * total_msat(
                            htlcs,
                        )
                    }
                &&& after.per_peer_state[node].outbound_channels_by_scid == channels.insert(
                    scid,
                    next,
                )
                &&& after.per_peer_state[node].pending_requests
                    == before.per_peer_state[node].pending_requests
                &&& next.state == (OutboundJITChannelStateView::ChannelReady {
                    htlcs,
                    amt_to_forward_msat: amount,
                })
                &&& next.scid == channels[scid].scid
                &&& next.cltv_expiry_delta == channels[scid].cltv_expiry_delta
                &&& next.client_trusts_lsp == channels[scid].client_trusts_lsp
            }
            &&& after.per_peer_state.remove(node) == before.per_peer_state.remove(node)
            &&& after.peer_by_scid == before.peer_by_scid
            &&& after.config == before.config
        }),
{
    let scid = user_channel_id as u64;
    let state = old(service)@.per_peer_state[node].outbound_channels_by_scid[scid].state;
    if let Some((_, channel)) = old(service)@.opened_channel(user_channel_id, node) {
        if channel.state is PendingChannelOpen {
            let htlcs = state->PendingChannelOpen_htlcs;
            let amount = state->PendingChannelOpen_amt_to_forward_msat as nat;
            lemma_forwards_add_up(htlcs, amount);
            assert forall|i: int| 0 <= i < htlcs.len() implies (#[trigger] to_forward->Ok_0@[i]).0
                == htlcs[i].intercept_id && to_forward->Ok_0@[i].1
                <= htlcs[i].expected_outbound_amount_msat by {
                lemma_fee_is_spread_in_proportion(htlcs, amount, i);
            }
            assert forall|i: int| 0 <= i < htlcs.len() - 1 implies {
                let brought = htlcs[i].expected_outbound_amount_msat;
                let withheld = brought - (#[trigger] to_forward->Ok_0@[i]).1;
                let fee = total_msat(htlcs) - amount;
                withheld * total_msat(htlcs) <= fee * brought < (withheld + 1) * total_msat(htlcs)
            } by {
                lemma_fee_is_spread_in_proportion(htlcs, amount, i);
            }
        }
    }
}

/// A menu answers the request that asked for one: it is sent to the client, under the id of the request,
/// with the entries that were given and a promise for each of them, and with the limits of the service.
/// The request is answered then. Where there is no such request, nothing is sent.
pub proof fn lemma_menus_answer_requests<MQ: MessageQueue<LSPSMessage>>(
    service: &mut LSPS2ServiceHandler,
    node: PublicKey,
    request_id: RequestId,
    raw: Vec<RawOpeningFeeParams>,
    messages: &mut MQ,
    result: Result<(), APIError>,
)
    requires
        call_ensures(
            LSPS2ServiceHandler::opening_fee_params_generated::<MQ>,
            (service, &node, request_id, raw, messages),
            result,
        ),
    ensures
        ({
            let before = old(service)@;
            let after = final(service)@;
            let known = before.per_peer_state.contains_key(node);
            let pending = before.per_peer_state[node].pending_requests;
            let asked = known && pending.contains_key(request_id.0@) && pending[request_id.0@]
                is GetInfo;
            let sent = final(messages).pending();
            &&& result is Ok <==> asked
            &&& !asked ==> sent == old(messages).pending()
            &&& asked ==> {
                &&& sent.len() == old(messages).pending().len() + 1
                &&& sent.drop_last() == old(messages).pending()
                &&& sent.last().0 == node
                &&& sent.last().1 matches LSPSMessage::LSPS2(
                    Message::Response(id, Response::GetInfo(menu)),
                ) && {
                    &&& id == request_id
                    &&& menu.min_payment_size_msat == before.config.min_payment_size_msat
                    &&& menu.max_payment_size_msat == before.config.max_payment_size_msat
                    &&& menu.opening_fee_params_menu@.len() == raw@.len()
                    &&& forall|i: int|
                        0 <= i < raw@.len() ==> {
                            let entry = #[trigger] menu.opening_fee_params_menu@[i];
                            &&& entry.min_fee_msat == raw@[i].min_fee_msat
                            &&& entry.proportional == raw@[i].proportional
                            &&& entry.valid_until@ == raw@[i].valid_until@
                            &&& entry.min_lifetime == raw@[i].min_lifetime
                            &&& entry.max_client_to_self_delay == raw@[i].max_client_to_self_delay
                            &&& entry.promise@ == promise_text(
                                before.config.promise_secret@,
                                raw@[i].min_fee_msat,
                                raw@[i].proportional,
                                raw@[i].valid_until@,
                                raw@[i].min_lifetime,
                                raw@[i].max_client_to_self_delay,
                            )
                        }
                }
            }
            &&& known ==> {
                &&& after.per_peer_state == before.per_peer_state.insert(
                    node,
                    after.per_peer_state[node],
                )
                &&& after.per_peer_state[node].pending_requests == pending.remove(request_id.0@)
                &&& after.per_peer_state[node].outbound_channels_by_scid
                    == before.per_peer_state[node].outbound_channels_by_scid
            }
            &&& !known ==> after == before && result->Err_0->err == (ErrorKind::NoPeerState {
                counterparty_node_id: node,
            })
            &&& known && !asked ==> result->Err_0->err == (ErrorKind::NoPendingRequest {
                request: PeerRequest::GetInfo,
                request_id,
            })
            &&& after.peer_by_scid == before.peer_by_scid
            &&& after.config == before.config
        }),
{
}

/// A short channel id answers the request that bought it: it is sent to the client, under the id of the
/// request, and payment to it is awaited for the parameters and the size that were asked for. The request
/// is answered then. Where there is no such request, nothing is sent and no channel is sold.
pub proof fn lemma_purchases_are_answered<MQ: MessageQueue<LSPSMessage>>(
    service: &mut LSPS2ServiceHandler,
    node: PublicKey,
    request_id: RequestId,
    scid: u64,
    cltv_expiry_delta: u32,
    client_trusts_lsp: bool,
    messages: &mut MQ,
    result: Result<(), APIError>,
)
    requires
        call_ensures(
            LSPS2ServiceHandler::invoice_parameters_generated::<MQ>,
            (service, &node, request_id, scid, cltv_expiry_delta, client_trusts_lsp, messages),
            result,
        ),
    ensures
        ({
            let before = old(service)@;
            let after = final(service)@;
            let known = before.per_peer_state.contains_key(node);
            let pending = before.per_peer_state[node].pending_requests;
            let channels = before.per_peer_state[node].outbound_channels_by_scid;
            let asked = known && pending.contains_key(request_id.0@) && pending[request_id.0@]
                is Buy;
            let bought = pending[request_id.0@]->Buy_0;
            let sent = final(messages).pending();
            &&& result is Ok <==> asked
            &&& !asked ==> {
                &&& sent == old(messages).pending()
                &&& after.peer_by_scid == before.peer_by_scid
            }
            &&& asked ==> {
                let sold = after.per_peer_state[node].outbound_channels_by_scid[scid];
                &&& sent.len() == old(messages).pending().len() + 1
                &&& sent.drop_last() == old(messages).pending()
                &&& sent.last().0 == node
                &&& sent.last().1 matches LSPSMessage::LSPS2(
                    Message::Response(id, Response::Buy(told)),
                ) && id == request_id && parsed_scid(told.jit_channel_scid.0@) == Some(scid)
                    && told.lsp_cltv_expiry_delta == cltv_expiry_delta && told.client_trusts_lsp
                    == client_trusts_lsp
                &&& after.peer_by_scid == before.peer_by_scid.insert(scid, node)
                &&& after.per_peer_state[node].outbound_channels_by_scid == channels.insert(
                    scid,
                    sold,
                )
                &&& sold.scid == scid
                &&& sold.cltv_expiry_delta == cltv_expiry_delta
                &&& sold.client_trusts_lsp == client_trusts_lsp
                &&& sold.state is AwaitingPayment
                &&& sold.state->AwaitingPayment_min_fee_msat
                    == bought.opening_fee_params.min_fee_msat
                &&& sold.state->AwaitingPayment_proportional_fee
                    == bought.opening_fee_params.proportional
                &&& sold.state->valid_until == rfc3339_seconds(
                    bought.opening_fee_params.valid_until@,
                )
                &&& sold.state->AwaitingPayment_payment_size_msat == bought.payment_size_msat
                &&& sold.state->AwaitingPayment_htlcs.len() == 0
            }
            &&& known ==> {
                &&& after.per_peer_state == before.per_peer_state.insert(
                    node,
                    after.per_peer_state[node],
                )
                &&& after.per_peer_state[node].pending_requests == pending.remove(request_id.0@)
            }
            &&& known && !asked ==> {
                &&& after.per_peer_state[node].outbound_channels_by_scid == channels
                &&& result->Err_0->err == (ErrorKind::NoPendingRequest {
                    request: PeerRequest::Buy,
                    request_id,
                })
            }
            &&& !known ==> after == before && result->Err_0->err == (ErrorKind::NoPeerState {
                counterparty_node_id: node,
            })
            &&& after.config == before.config
        }),
{
    crate::utils::lemma_scid_round_trip(scid);
}

/// A token that is not accepted is told to the client that sent it, with the code for such tokens, and
/// its request is answered. Where there is no such request, nothing is sent.
pub proof fn lemma_tokens_are_refused<MQ: MessageQueue<LSPSMessage>>(
    service: &mut LSPS2ServiceHandler,
    node: PublicKey,
    request_id: RequestId,
    messages: &mut MQ,
    result: Result<(), APIError>,
)
    requires
        call_ensures(
            LSPS2ServiceHandler::invalid_token_provided::<MQ>,
            (service, &node, request_id, messages),
            result,
        ),
    ensures
        ({
            let before = old(service)@;
            let after = final(service)@;
            let known = before.per_peer_state.contains_key(node);
            let pending = before.per_peer_state[node].pending_requests;
            let asked = known && pending.contains_key(request_id.0@) && pending[request_id.0@]
                is GetInfo;
            let sent = final(messages).pending();
            &&& result is Ok <==> asked
            &&& !asked ==> sent == old(messages).pending()
            &&& asked ==> {
                &&& sent.len() == old(messages).pending().len() + 1
                &&& sent.drop_last() == old(messages).pending()
                &&& sent.last().0 == node
                &&& sent.last().1 matches LSPSMessage::LSPS2(
                    Message::Response(id, Response::GetInfoError(error)),
                ) && id == request_id && error.code == 2 && error.data is None && error.message@
                    == "an unrecognized or stale token was provided"@
            }
            &&& known ==> {
                &&& after.per_peer_state == before.per_peer_state.insert(
                    node,
                    after.per_peer_state[node],
                )
                &&& after.per_peer_state[node].pending_requests == pending.remove(request_id.0@)
                &&& after.per_peer_state[node].outbound_channels_by_scid
                    == before.per_peer_state[node].outbound_channels_by_scid
            }
            &&& !known ==> after == before && result->Err_0->err == (ErrorKind::NoPeerState {
                counterparty_node_id: node,
            })
            &&& known && !asked ==> result->Err_0->err == (ErrorKind::NoPendingRequest {
                request: PeerRequest::GetInfo,
                request_id,
            })
            &&& after.peer_by_scid == before.peer_by_scid
            &&& after.config == before.config
        }),
{
}

/// What a message of a client leads to. A purchase is handed to the user exactly where its version is
/// the supported one, its payment size, if there is one, is within the limits and exceeds the opening
/// fee, its promise is the one that our secret gives for its other fields, and its time has not passed. A
/// request for the menu is handed to the user where its version is the supported one. What is not handed
/// on is refused in one message to the client, under the id of its request, and changes nothing.
pub proof fn lemma_messages_at_the_service<MQ: MessageQueue<LSPSMessage>>(
    service: &mut LSPS2ServiceHandler,
    message: Message,
    node: PublicKey,
    seconds_since_epoch: u64,
    messages: &mut MQ,
    events: &mut EventQueue,
    result: Result<(), LightningError>,
)
    requires
        call_ensures(
            LSPS2ServiceHandler::handle_message::<MQ>,
            (service, message, &node, seconds_since_epoch, messages, events),
            result,
        ),
    ensures
        ({
            let before = old(service)@;
            let after = final(service)@;
            let known = before.per_peer_state.contains_key(node);
            let pending = if known {
                before.per_peer_state[node].pending_requests
            } else {
                Map::<Seq<char>, Request>::empty()
            };
            let sent = final(messages).pending();
            let offer = message->Request_1->Buy_0.opening_fee_params;
            let size = message->Request_1->Buy_0.payment_size_msat;
            let buyable = {
                &&& message->Request_1->Buy_0.version == 1
                &&& size is Some ==> {
                    &&& before.config.min_payment_size_msat <= size->0
                    &&& size->0 <= before.config.max_payment_size_msat
                    &&& size->0 * offer.proportional + 999999 <= u64::MAX
                    &&& offer.min_fee_msat < size->0
                    &&& size->0 * offer.proportional <= (size->0 - 1) * 1000000
                }
                &&& rfc3339_seconds(offer.valid_until@) is Some
                &&& seconds_since_epoch <= rfc3339_seconds(offer.valid_until@)->0
                &&& offer.promise@ == promise_text(
                    before.config.promise_secret@,
                    offer.min_fee_msat,
                    offer.proportional,
                    offer.valid_until@,
                    offer.min_lifetime,
                    offer.max_client_to_self_delay,
                )
            };
            let handed_on = message is Request && match message->Request_1 {
                Request::GetVersions(_) => false,
                Request::GetInfo(asked) => asked.version == 1,
                Request::Buy(_) => buyable,
            };
            &&& handed_on ==> {
                &&& result is Ok
                &&& sent == old(messages).pending()
                &&& final(events)@.len() == old(events)@.len() + 1
                &&& final(events)@.drop_last() == old(events)@
                &&& match message->Request_1 {
                    Request::GetInfo(asked) => final(events)@.last() == Event::LSPS2Service(
                        LSPS2ServiceEvent::GetInfo {
                            request_id: message->Request_0,
                            counterparty_node_id: node,
                            version: asked.version,
                            token: asked.token,
                        },
                    ),
                    Request::Buy(bought) => final(events)@.last() == Event::LSPS2Service(
                        LSPS2ServiceEvent::BuyRequest {
                            request_id: message->Request_0,
                            counterparty_node_id: node,
                            version: bought.version,
                            opening_fee_params: bought.opening_fee_params,
                            payment_size_msat: bought.payment_size_msat,
                        },
                    ),
                    Request::GetVersions(_) => true,
                }
                &&& after.per_peer_state == before.per_peer_state.insert(
                    node,
                    after.per_peer_state[node],
                )
                &&& after.per_peer_state[node].pending_requests == pending.insert(
                    (message->Request_0).0@,
                    message->Request_1,
                )
                &&& known ==> after.per_peer_state[node].outbound_channels_by_scid
                    == before.per_peer_state[node].outbound_channels_by_scid
            }
            &&& !handed_on ==> after == before && final(events)@ == old(events)@
            &&& message is Response ==> result is Err && sent == old(messages).pending()
            &&& message is Request && !handed_on ==> {
                &&& sent.len() == old(messages).pending().len() + 1
                &&& sent.drop_last() == old(messages).pending()
                &&& sent.last().0 == node
                &&& sent.last().1 matches LSPSMessage::LSPS2(Message::Response(id, said)) && id
                    == message->Request_0 && match message->Request_1 {
                    Request::GetVersions(_) => said is GetVersions,
                    Request::GetInfo(asked) => said matches Response::GetInfoError(error)
                        && error.code == 1 && error.message@ == unsupported_version_text(
                        asked.version,
                    ),
                    Request::Buy(bought) => said matches Response::BuyError(error) && error@
                        == before.config.buy_refusal(bought, seconds_since_epoch)->0.answer(),
                }
                &&& result is Ok <==> message->Request_1 is GetVersions
                &&& match message->Request_1 {
                    Request::GetVersions(_) => true,
                    Request::GetInfo(asked) => result->Err_0.err == (ErrorKind::UnsupportedVersion {
                        version: asked.version,
                    }),
                    Request::Buy(bought) => result->Err_0.err == before.config.buy_refusal(
                        bought,
                        seconds_since_epoch,
                    )->0.reason(),
                }
            }
            &&& after.peer_by_scid == before.peer_by_scid
            &&& after.config == before.config
        }),
{
    if let Message::Request(_, Request::Buy(bought)) = message {
        if let Some(size) = bought.payment_size_msat {
            lemma_opening_fee_is_least(
                size,
                bought.opening_fee_params.min_fee_msat,
                bought.opening_fee_params.proportional as u64,
                0,
            );
        }
    }
}

/// An HTLC fits a channel that awaits payment exactly where the sum of all amounts can be told, and any
/// other channel. What a channel was opened for can be spread over its HTLCs exactly where it can be
/// forwarded of them, which concerns no channel that is not being opened.
pub proof fn lemma_what_fits_a_channel(
    state: OutboundJITChannelState,
    amount_msat: u64,
    fits: bool,
    possible: bool,
)
    requires
        call_ensures(OutboundJITChannelState::fits_htlc, (&state, amount_msat), fits),
        call_ensures(OutboundJITChannelState::is_forwardable, (&state, ), possible),
    ensures
        fits <==> (state@ is AwaitingPayment ==> total_msat(state@->AwaitingPayment_htlcs)
            + amount_msat <= u64::MAX),
        possible <==> (state@ is PendingChannelOpen ==> can_forward(
            state@->PendingChannelOpen_htlcs,
            state@->PendingChannelOpen_amt_to_forward_msat as nat,
        )),
{
}

/// A channel that was just sold awaits payment on the terms of its parameters, and has no HTLCs.
pub proof fn lemma_sold_channels_await_payment(
    payment_size_msat: Option<u64>,
    params: OpeningFeeParams,
    state: OutboundJITChannelState,
)
    requires
        call_ensures(OutboundJITChannelState::new, (payment_size_msat, params), state),
    ensures
        state@ is AwaitingPayment,
        state@->AwaitingPayment_min_fee_msat == params.min_fee_msat,
        state@->AwaitingPayment_proportional_fee == params.proportional,
        state@->valid_until == rfc3339_seconds(params.valid_until@),
        state@->AwaitingPayment_payment_size_msat == payment_size_msat,
        state@->AwaitingPayment_htlcs.len() == 0,
{
}

/// A new service has sold nothing yet, and keeps its configuration.
pub proof fn lemma_services_start_empty(config: LSPS2ServiceConfig, service: LSPS2ServiceHandler)
    requires
        call_ensures(LSPS2ServiceHandler::new, (config, ), service),
    ensures
        forall|node: PublicKey| !#[trigger] service@.per_peer_state.contains_key(node),
        forall|scid: u64| !#[trigger] service@.peer_by_scid.contains_key(scid),
        service@.config.promise_secret == config.promise_secret,
        service@.config.min_payment_size_msat == config.min_payment_size_msat,
        service@.config.max_payment_size_msat == config.max_payment_size_msat,
{
}

} // verus!
