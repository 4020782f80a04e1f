//! Which orders an LSP supports.

use vstd::prelude::*;
use vstd::string::StringExecFns;

use crate::lsps1::msgs::{OptionsSupported, OrderParams, OrderPayment};
use crate::text::{decimal_digits, u64_to_string};

verus! {

impl OptionsSupported {
    /// Whether an order is within the options: the balances, the size of the channel and the time
    /// that it is leased for.
    pub open spec fn supports(self, order: OrderParams) -> bool {
        &&& self.min_initial_client_balance_sat <= order.client_balance_sat
            <= self.max_initial_client_balance_sat
        &&& self.min_initial_lsp_balance_sat <= order.lsp_balance_sat
            <= self.max_initial_lsp_balance_sat
        &&& self.min_channel_balance_sat <= order.client_balance_sat + order.lsp_balance_sat
            <= self.max_channel_balance_sat
        &&& order.channel_expiry_blocks <= self.max_channel_expiry_blocks
    }
}

/// Returns whether a value is within bounds.
fn check_range(min: u64, max: u64, value: u64) -> (within: bool)
    ensures
        within == (min <= value <= max),
{
    value >= min && value <= max
}

/// Returns whether an order is within the options that an LSP supports.
pub fn is_valid(order: &OrderParams, options: &OptionsSupported) -> (valid: bool)
    ensures
        valid == options.supports(*order),
        valid <==> {
            &&& options.min_initial_client_balance_sat <= order.client_balance_sat
            &&& order.client_balance_sat <= options.max_initial_client_balance_sat
            &&& options.min_initial_lsp_balance_sat <= order.lsp_balance_sat
            &&& order.lsp_balance_sat <= options.max_initial_lsp_balance_sat
            &&& options.min_channel_balance_sat <= order.lsp_balance_sat + order.client_balance_sat
            &&& order.lsp_balance_sat + order.client_balance_sat <= options.max_channel_balance_sat
            &&& order.channel_expiry_blocks <= options.max_channel_expiry_blocks
        },
{
    match order.client_balance_sat.checked_add(order.lsp_balance_sat) {
        Some(channel_balance_sat) => {
            check_range(
                options.min_initial_client_balance_sat,
                options.max_initial_client_balance_sat,
                order.client_balance_sat,
            ) && check_range(
                options.min_initial_lsp_balance_sat,
                options.max_initial_lsp_balance_sat,
                order.lsp_balance_sat,
            ) && check_range(
                options.min_channel_balance_sat,
                options.max_channel_balance_sat,
                channel_balance_sat,
            ) && order.channel_expiry_blocks <= options.max_channel_expiry_blocks
        },
        None => false,
    }
}

/// Whether the total of an order is what it charges and what the client provides.
pub open spec fn adds_up(payment: OrderPayment, order: OrderParams) -> bool {
    payment.fee_total_sat + order.client_balance_sat == payment.order_total_sat
}

/// Returns whether the total of an order is what it charges and what the client provides.
fn check_total(payment: &OrderPayment, order: &OrderParams) -> (correct: bool)
    ensures
        correct == adds_up(*payment, *order),
{
    match payment.fee_total_sat.checked_add(order.client_balance_sat) {
        Some(total_sat) => total_sat == payment.order_total_sat,
        None => false,
    }
}

/// Whether the total of an order adds up, and its fees do not exceed a limit.
pub open spec fn fees_accepted(
    payment: OrderPayment,
    order: OrderParams,
    max_channel_fees_msat: Option<u64>,
) -> bool {
    &&& adds_up(payment, order)
    &&& match max_channel_fees_msat {
        Some(limit_msat) => payment.fee_total_sat * 1000 <= limit_msat,
        None => true,
    }
}

/// Returns whether the total of an order adds up, and its fees do not exceed a limit.
pub fn accepts_fees(
    payment: &OrderPayment,
    order: &OrderParams,
    max_channel_fees_msat: Option<u64>,
) -> (accepted: bool)
    ensures
        accepted == fees_accepted(*payment, *order, max_channel_fees_msat),
        accepted <==> {
            &&& payment.order_total_sat == payment.fee_total_sat + order.client_balance_sat
            &&& max_channel_fees_msat is Some ==> payment.fee_total_sat * 1000
                <= max_channel_fees_msat->0
        },
{
    let within_limit = match max_channel_fees_msat {
        Some(limit_msat) => match payment.fee_total_sat.checked_mul(1000) {
            Some(fees_msat) => fees_msat <= limit_msat,
            None => false,
        },
        None => true,
    };
    check_total(payment, order) && within_limit
}

/// Whether the total of an order adds up, and stays below a limit.
pub open spec fn total_accepted(
    payment: OrderPayment,
    order: OrderParams,
    max_total_sat: Option<u64>,
) -> bool {
    &&& adds_up(payment, order)
    &&& payment.order_total_sat < match max_total_sat {
        Some(limit_sat) => limit_sat,
        None => u64::MAX,
    }
}

/// Returns whether the total of an order adds up, and stays below a limit.
pub fn accepts_total(
    payment: &OrderPayment,
    order: &OrderParams,
    max_total_sat: Option<u64>,
) -> (accepted: bool)
    ensures
        accepted == total_accepted(*payment, *order, max_total_sat),
        accepted <==> {
            &&& payment.order_total_sat == payment.fee_total_sat + order.client_balance_sat
            &&& payment.order_total_sat < u64::MAX
            &&& max_total_sat is Some ==> payment.order_total_sat < max_total_sat->0
        },
{
    let limit_sat: u64 = match max_total_sat {
        Some(limit_sat) => limit_sat,
        None => u64::MAX,
    };
    check_total(payment, order) && payment.order_total_sat < limit_sat
}

/// How an optional number is written.
pub open spec fn optional_text(value: Option<nat>) -> Seq<char> {
    match value {
        Some(value) => "Some("@ + decimal_digits(value) + ")"@,
        None => "None"@,
    }
}

/// How a truth value is written.
pub open spec fn bool_text(value: bool) -> Seq<char> {
    if value {
        "true"@
    } else {
        "false"@
    }
}

impl OptionsSupported {
    /// How the options are listed to a client whose order is not within them.
    pub open spec fn listing(self) -> Seq<char> {
        "Supported options are OptionsSupported { min_channel_confirmations: "@ + decimal_digits(
            self.min_channel_confirmations as nat,
        ) + ", min_onchain_payment_confirmations: "@ + optional_text(
            match self.min_onchain_payment_confirmations {
                Some(confirmations) => Some(confirmations as nat),
                None => None,
            },
        ) + ", supports_zero_channel_reserve: "@ + bool_text(self.supports_zero_channel_reserve)
            + ", min_onchain_payment_size_sat: "@ + optional_text(
            match self.min_onchain_payment_size_sat {
                Some(size) => Some(size as nat),
                None => None,
            },
        ) + ", max_channel_expiry_blocks: "@ + decimal_digits(self.max_channel_expiry_blocks as nat)
            + ", min_initial_client_balance_sat: "@ + decimal_digits(
            self.min_initial_client_balance_sat as nat,
        ) + ", max_initial_client_balance_sat: "@ + decimal_digits(
            self.max_initial_client_balance_sat as nat,
        ) + ", min_initial_lsp_balance_sat: "@ + decimal_digits(
            self.min_initial_lsp_balance_sat as nat,
        ) + ", max_initial_lsp_balance_sat: "@ + decimal_digits(
            self.max_initial_lsp_balance_sat as nat,
        ) + ", min_channel_balance_sat: "@ + decimal_digits(self.min_channel_balance_sat as nat)
            + ", max_channel_balance_sat: "@ + decimal_digits(self.max_channel_balance_sat as nat)
            + " }"@
    }

    /// Lists the options for a client whose order is not within them.
    pub fn list(&self) -> (text: String)
        ensures
            text@ == self.listing(),
    {
        let mut text =
            "Supported options are OptionsSupported { min_channel_confirmations: ".to_owned();
        text.append(u64_to_string(self.min_channel_confirmations as u64).as_str());
        text.append(", min_onchain_payment_confirmations: ");
        append_optional(
            &mut text,
            match self.min_onchain_payment_confirmations {
                Some(confirmations) => Some(confirmations as u64),
                None => None,
            },
        );
        text.append(", supports_zero_channel_reserve: ");
        if self.supports_zero_channel_reserve {
            text.append("true");
        } else {
            text.append("false");
        }
        text.append(", min_onchain_payment_size_sat: ");
        append_optional(
            &mut text,
            match self.min_onchain_payment_size_sat {
                Some(size) => Some(size as u64),
                None => None,
            },
        );
        text.append(", max_channel_expiry_blocks: ");
        text.append(u64_to_string(self.max_channel_expiry_blocks as u64).as_str());
        text.append(", min_initial_client_balance_sat: ");
        text.append(u64_to_string(self.min_initial_client_balance_sat).as_str());
        text.append(", max_initial_client_balance_sat: ");
        text.append(u64_to_string(self.max_initial_client_balance_sat).as_str());
        text.append(", min_initial_lsp_balance_sat: ");
        text.append(u64_to_string(self.min_initial_lsp_balance_sat).as_str());
        text.append(", max_initial_lsp_balance_sat: ");
        text.append(u64_to_string(self.max_initial_lsp_balance_sat).as_str());
        text.append(", min_channel_balance_sat: ");
        text.append(u64_to_string(self.min_channel_balance_sat).as_str());
        text.append(", max_channel_balance_sat: ");
        text.append(u64_to_string(self.max_channel_balance_sat).as_str());
        text.append(" }");
        text
    }
}

/// Appends an optional number.
fn append_optional(text: &mut String, value: Option<u64>)
    ensures
        final(text)@ == old(text)@ + optional_text(
            match value {
                Some(value) => Some(value as nat),
                None => None,
            },
        ),
{
    match value {
        Some(value) => {
            text.append("Some(");
            text.append(u64_to_string(value).as_str());
            text.append(")");
            assert(text@ =~= old(text)@ + optional_text(Some(value as nat)));
        },
        None => {
            text.append("None");
        },
    }
}

/// An order is supported exactly where the balance of the client, the balance of the LSP and the size
/// of the channel are within their bounds, and the lease is no longer than the longest one.
pub proof fn lemma_supported_orders(options: OptionsSupported, order: OrderParams)
    ensures
        options.supports(order) <==> {
            &&& options.min_initial_client_balance_sat <= order.client_balance_sat
            &&& order.client_balance_sat <= options.max_initial_client_balance_sat
            &&& options.min_initial_lsp_balance_sat <= order.lsp_balance_sat
            &&& order.lsp_balance_sat <= options.max_initial_lsp_balance_sat
            &&& options.min_channel_balance_sat <= order.lsp_balance_sat + order.client_balance_sat
            &&& order.lsp_balance_sat + order.client_balance_sat <= options.max_channel_balance_sat
            &&& order.channel_expiry_blocks <= options.max_channel_expiry_blocks
        },
{
}

/// A supported order stays supported with a shorter lease and under wider options: nothing counts but
/// its balances and its lease.
pub proof fn lemma_support_is_monotone(
    options: OptionsSupported,
    order: OrderParams,
    wider: OptionsSupported,
    shorter: OrderParams,
)
    requires
        options.supports(order),
        shorter.client_balance_sat == order.client_balance_sat,
        shorter.lsp_balance_sat == order.lsp_balance_sat,
        shorter.channel_expiry_blocks <= order.channel_expiry_blocks,
        wider.min_initial_client_balance_sat <= options.min_initial_client_balance_sat,
        options.max_initial_client_balance_sat <= wider.max_initial_client_balance_sat,
        wider.min_initial_lsp_balance_sat <= options.min_initial_lsp_balance_sat,
        options.max_initial_lsp_balance_sat <= wider.max_initial_lsp_balance_sat,
        wider.min_channel_balance_sat <= options.min_channel_balance_sat,
        options.max_channel_balance_sat <= wider.max_channel_balance_sat,
        options.max_channel_expiry_blocks <= wider.max_channel_expiry_blocks,
    ensures
        wider.supports(shorter),
{
}

/// The fees of an order are accepted exactly where its total is its fees and the balance of the
/// client, and its fees in millisatoshi are no more than the limit, if there is one.
pub proof fn lemma_accepted_fees(
    payment: OrderPayment,
    order: OrderParams,
    max_channel_fees_msat: Option<u64>,
)
    ensures
        fees_accepted(payment, order, max_channel_fees_msat) <==> {
            &&& payment.order_total_sat == payment.fee_total_sat + order.client_balance_sat
            &&& max_channel_fees_msat is Some ==> payment.fee_total_sat * 1000
                <= max_channel_fees_msat->0
        },
{
}

/// Fees that are accepted under a limit are accepted under a larger limit and without one, and so are
/// smaller fees.
pub proof fn lemma_fee_acceptance_is_monotone(
    payment: OrderPayment,
    order: OrderParams,
    limit_msat: u64,
    smaller: OrderPayment,
    larger_limit_msat: u64,
)
    requires
        fees_accepted(payment, order, Some(limit_msat)),
        limit_msat <= larger_limit_msat,
        smaller.fee_total_sat <= payment.fee_total_sat,
        payment.order_total_sat - smaller.order_total_sat == payment.fee_total_sat
            - smaller.fee_total_sat,
    ensures
        fees_accepted(smaller, order, Some(larger_limit_msat)),
        fees_accepted(smaller, order, None),
{
}

/// The total of an order is accepted exactly where it is the fees and the balance of the client, and
/// less than the limit, or than the largest number there is where there is no limit.
pub proof fn lemma_accepted_totals(
    payment: OrderPayment,
    order: OrderParams,
    max_total_sat: Option<u64>,
)
    ensures
        total_accepted(payment, order, max_total_sat) <==> {
            &&& payment.order_total_sat == payment.fee_total_sat + order.client_balance_sat
            &&& payment.order_total_sat < u64::MAX
            &&& max_total_sat is Some ==> payment.order_total_sat < max_total_sat->0
        },
{
}

/// Checking an order against the options, and what it charges against the limits, answers what the
/// bounds say: each bound may be reached, and the total must add up.
pub proof fn lemma_checks_of_orders(
    order: OrderParams,
    options: OptionsSupported,
    valid: bool,
    payment: OrderPayment,
    limit: Option<u64>,
    fees_pass: bool,
    total_passes: bool,
)
    requires
        call_ensures(is_valid, (&order, &options), valid),
        call_ensures(accepts_fees, (&payment, &order, limit), fees_pass),
        call_ensures(accepts_total, (&payment, &order, limit), total_passes),
    ensures
        valid <==> {
            &&& options.min_initial_client_balance_sat <= order.client_balance_sat
            &&& order.client_balance_sat <= options.max_initial_client_balance_sat
            &&& options.min_initial_lsp_balance_sat <= order.lsp_balance_sat
            &&& order.lsp_balance_sat <= options.max_initial_lsp_balance_sat
            &&& options.min_channel_balance_sat <= order.lsp_balance_sat + order.client_balance_sat
            &&& order.lsp_balance_sat + order.client_balance_sat <= options.max_channel_balance_sat
            &&& order.channel_expiry_blocks <= options.max_channel_expiry_blocks
        },
        fees_pass <==> {
            &&& payment.order_total_sat == payment.fee_total_sat + order.client_balance_sat
            &&& limit is Some ==> payment.fee_total_sat * 1000 <= limit->0
        },
        total_passes <==> {
            &&& payment.order_total_sat == payment.fee_total_sat + order.client_balance_sat
            &&& payment.order_total_sat < u64::MAX
            &&& limit is Some ==> payment.order_total_sat < limit->0
        },
{
}

/// The words that options are listed in: each of them by its name, in their order.
pub proof fn lemma_how_options_are_listed(options: OptionsSupported)
    ensures
        ({
            let number = |value: u64| decimal_digits(value as nat);
            let confirmations = match options.min_onchain_payment_confirmations {
                Some(confirmations) => "Some("@ + number(confirmations as u64) + ")"@,
                None => "None"@,
            };
            let size = match options.min_onchain_payment_size_sat {
                Some(size) => "Some("@ + number(size as u64) + ")"@,
                None => "None"@,
            };
            let reserve = if options.supports_zero_channel_reserve {
                "true"@
            } else {
                "false"@
            };
            options.listing() == "Supported options are OptionsSupported { min_channel_confirmations: "@
                + number(options.min_channel_confirmations as u64)
                + ", min_onchain_payment_confirmations: "@ + confirmations
                + ", supports_zero_channel_reserve: "@ + reserve
                + ", min_onchain_payment_size_sat: "@ + size + ", max_channel_expiry_blocks: "@
                + number(options.max_channel_expiry_blocks as u64)
                + ", min_initial_client_balance_sat: "@ + number(
                options.min_initial_client_balance_sat,
            ) + ", max_initial_client_balance_sat: "@ + number(
                options.max_initial_client_balance_sat,
            ) + ", min_initial_lsp_balance_sat: "@ + number(options.min_initial_lsp_balance_sat)
                + ", max_initial_lsp_balance_sat: "@ + number(options.max_initial_lsp_balance_sat)
                + ", min_channel_balance_sat: "@ + number(options.min_channel_balance_sat)
                + ", max_channel_balance_sat: "@ + number(options.max_channel_balance_sat) + " }"@
        }),
{
}

} // verus!
