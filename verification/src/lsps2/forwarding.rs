//! How the opening fee of a channel is spread over the HTLCs that pay for it.

use vstd::arithmetic::div_mod::lemma_fundamental_div_mod;
use vstd::arithmetic::mul::lemma_mul_is_commutative;
use vstd::prelude::*;

use crate::types::InterceptId;

verus! {

/// An HTLC that waits until the channel to its recipient is open.
#[derive(Copy, Clone, PartialEq, Eq, Debug)]
pub struct InterceptedHTLC {
    pub intercept_id: InterceptId,
    pub expected_outbound_amount_msat: u64,
}

/// The sum of the amounts of HTLCs.
pub open spec fn total_msat(htlcs: Seq<InterceptedHTLC>) -> nat
    decreases htlcs.len(),
{
    if htlcs.len() == 0 {
        0
    } else {
        total_msat(htlcs.drop_last()) + htlcs.last().expected_outbound_amount_msat as nat
    }
}

/// The part of a fee that falls to an amount out of a total, rounded down.
pub open spec fn fee_share(fee: nat, amount: nat, total: nat) -> nat {
    fee * amount / total
}

/// The sum of the fee's parts that fall to HTLCs.
pub open spec fn fee_shares(htlcs: Seq<InterceptedHTLC>, fee: nat, total: nat) -> nat
    decreases htlcs.len(),
{
    if htlcs.len() == 0 {
        0
    } else {
        fee_shares(htlcs.drop_last(), fee, total) + fee_share(
            fee,
            htlcs.last().expected_outbound_amount_msat as nat,
            total,
        )
    }
}

/// The fee that is withheld in all, when an amount is forwarded of what the HTLCs bring.
pub open spec fn withheld_fee(htlcs: Seq<InterceptedHTLC>, forwarded: nat) -> nat {
    (total_msat(htlcs) - forwarded) as nat
}

/// The fee that is withheld from the HTLC at an index: its share, and for the last HTLC whatever
/// the shares of the others leave.
pub open spec fn htlc_fee(htlcs: Seq<InterceptedHTLC>, forwarded: nat, i: int) -> int {
    let fee = withheld_fee(htlcs, forwarded);
    let total = total_msat(htlcs);
    if i == htlcs.len() - 1 {
        fee - fee_shares(htlcs.drop_last(), fee, total)
    } else {
        fee_share(fee, htlcs[i].expected_outbound_amount_msat as nat, total) as int
    }
}

/// Whether an amount can be forwarded of what HTLCs bring: they bring something, no less than the
/// amount, and the last HTLC covers the fee that falls to it.
pub open spec fn can_forward(htlcs: Seq<InterceptedHTLC>, forwarded: nat) -> bool {
    &&& total_msat(htlcs) <= u64::MAX
    &&& forwarded <= total_msat(htlcs)
    &&& htlcs.len() > 0 ==> total_msat(htlcs) > 0 && htlc_fee(
        htlcs,
        forwarded,
        htlcs.len() - 1,
    ) <= htlcs.last().expected_outbound_amount_msat
}

/// What is forwarded for each HTLC.
pub open spec fn forwards(htlcs: Seq<InterceptedHTLC>, forwarded: nat) -> Seq<(InterceptId, u64)> {
    Seq::new(
        htlcs.len(),
        |i: int|
            (
                htlcs[i].intercept_id,
                (htlcs[i].expected_outbound_amount_msat - htlc_fee(htlcs, forwarded, i)) as u64,
            ),
    )
}

/// The sum of what is forwarded.
pub open spec fn forwarded_msat(per_htlc: Seq<(InterceptId, u64)>) -> nat
    decreases per_htlc.len(),
{
    if per_htlc.len() == 0 {
        0
    } else {
        forwarded_msat(per_htlc.drop_last()) + per_htlc.last().1 as nat
    }
}

/// Whether what is withheld from an amount is the amount's proportional part of what is withheld from
/// the total, rounded down.
pub open spec fn bears_its_share(amount: int, forward: int, total: int, forwarded: int) -> bool {
    &&& 0 <= forward <= amount
    &&& (amount - forward) * total <= (total - forwarded) * amount
    &&& (total - forwarded) * amount < (amount - forward + 1) * total
}

/// Prefixes of HTLCs bring no more.
pub proof fn lemma_total_grows(htlcs: Seq<InterceptedHTLC>, n: int)
    requires
        0 <= n <= htlcs.len(),
    ensures
        total_msat(htlcs.take(n)) <= total_msat(htlcs),
    decreases htlcs.len() - n,
{
    if n < htlcs.len() {
        lemma_total_grows(htlcs, n + 1);
        assert(htlcs.take(n + 1).drop_last() == htlcs.take(n));
    } else {
        assert(htlcs.take(n) == htlcs);
    }
}

/// An amount's share of a fee that is no larger than the total is no larger than the amount.
proof fn lemma_share_is_covered(fee: nat, amount: nat, total: nat)
    requires
        fee <= total,
        0 < total,
    ensures
        fee_share(fee, amount, total) <= amount,
        fee_share(fee, amount, total) * total <= fee * amount,
        fee * amount < (fee_share(fee, amount, total) + 1) * total,
{
    assert(fee * amount <= total * amount) by (nonlinear_arith)
        requires
            fee <= total,
    ;
    let product: int = (fee * amount) as int;
    lemma_fundamental_div_mod(product, total as int);
    assert(product / (total as int) <= amount) by (nonlinear_arith)
        requires
            product <= total * amount,
            0 < total,
            product == total * (product / (total as int)) + product % (total as int),
            0 <= product % (total as int),
    ;
    lemma_mul_is_commutative(total as int, product / (total as int));
    let share = product / (total as int);
    assert(product < (share + 1) * total) by (nonlinear_arith)
        requires
            product == total * share + product % (total as int),
            product % (total as int) < total,
    ;
}

/// The shares of HTLCs in a fee are no more than the fee's part for what they bring.
proof fn lemma_shares_are_bounded(htlcs: Seq<InterceptedHTLC>, fee: nat, total: nat)
    requires
        fee <= total,
        0 < total,
        total_msat(htlcs) <= total,
    ensures
        fee_shares(htlcs, fee, total) * total <= fee * total_msat(htlcs),
        fee_shares(htlcs, fee, total) <= fee,
    decreases htlcs.len(),
{
    if htlcs.len() > 0 {
        let amount = htlcs.last().expected_outbound_amount_msat as nat;
        lemma_shares_are_bounded(htlcs.drop_last(), fee, total);
        lemma_share_is_covered(fee, amount, total);
        let before = fee_shares(htlcs.drop_last(), fee, total);
        let share = fee_share(fee, amount, total);
        let rest = total_msat(htlcs.drop_last());
        assert((before + share) * total <= fee * (rest + amount)) by (nonlinear_arith)
            requires
                before * total <= fee * rest,
                share * total <= fee * amount,
        ;
    } else {
        assert(0 * total <= fee * 0) by (nonlinear_arith);
    }
    let shares = fee_shares(htlcs, fee, total);
    let brought = total_msat(htlcs);
    assert(shares <= fee) by (nonlinear_arith)
        requires
            shares * total <= fee * brought,
            brought <= total,
            0 < total,
    ;
}

/// What is withheld from an HTLC is never more than its amount.
pub proof fn lemma_fee_is_covered(htlcs: Seq<InterceptedHTLC>, forwarded: nat, i: int)
    requires
        can_forward(htlcs, forwarded),
        0 <= i < htlcs.len(),
    ensures
        0 <= htlc_fee(htlcs, forwarded, i) <= htlcs[i].expected_outbound_amount_msat,
{
    let fee = withheld_fee(htlcs, forwarded);
    let total = total_msat(htlcs);
    lemma_share_is_covered(fee, htlcs[i].expected_outbound_amount_msat as nat, total);
    lemma_shares_are_bounded(htlcs.drop_last(), fee, total);
}

/// What is forwarded for the first HTLCs is what they bring less their shares.
proof fn lemma_forwarded_prefix(htlcs: Seq<InterceptedHTLC>, forwarded: nat, n: int)
    requires
        can_forward(htlcs, forwarded),
        0 <= n < htlcs.len(),
    ensures
        forwarded_msat(forwards(htlcs, forwarded).take(n)) == total_msat(htlcs.take(n))
            - fee_shares(htlcs.take(n), withheld_fee(htlcs, forwarded), total_msat(htlcs)),
    decreases n,
{
    let per_htlc = forwards(htlcs, forwarded);
    if n > 0 {
        lemma_forwarded_prefix(htlcs, forwarded, n - 1);
        lemma_fee_is_covered(htlcs, forwarded, n - 1);
        assert(per_htlc.take(n).drop_last() == per_htlc.take(n - 1));
        assert(htlcs.take(n).drop_last() == htlcs.take(n - 1));
    }
}

/// All that is forwarded adds up to the amount that was to be forwarded.
pub proof fn lemma_forwards_add_up(htlcs: Seq<InterceptedHTLC>, forwarded: nat)
    requires
        can_forward(htlcs, forwarded),
    ensures
        forwarded_msat(forwards(htlcs, forwarded)) == forwarded,
{
    let per_htlc = forwards(htlcs, forwarded);
    if htlcs.len() > 0 {
        let n = htlcs.len() - 1;
        lemma_forwarded_prefix(htlcs, forwarded, n);
        lemma_fee_is_covered(htlcs, forwarded, n);
        assert(per_htlc.drop_last() == per_htlc.take(n));
        assert(htlcs.drop_last() == htlcs.take(n));
    }
}

/// Adds up the amounts of HTLCs.
pub fn sum_msat(htlcs: &[InterceptedHTLC]) -> (total: u64)
    requires
        total_msat(htlcs@) <= u64::MAX,
    ensures
        total == total_msat(htlcs@),
{
    let mut total: u64 = 0;
    let mut i: usize = 0;
    while i < htlcs.len()
        invariant
            i <= htlcs@.len(),
            total == total_msat(htlcs@.take(i as int)),
            total_msat(htlcs@) <= u64::MAX,
        decreases htlcs@.len() - i,
    {
        proof {
            lemma_total_grows(htlcs@, i + 1);
            assert(htlcs@.take(i + 1).drop_last() == htlcs@.take(i as int));
        }
        total = total + htlcs[i].expected_outbound_amount_msat;
        i += 1;
    }
    assert(htlcs@.take(i as int) == htlcs@);
    total
}

/// Computes an amount's share of a fee.
fn compute_fee_share(fee: u64, amount: u64, total: u64) -> (share: u64)
    requires
        fee <= total,
        0 < total,
    ensures
        share == fee_share(fee as nat, amount as nat, total as nat),
        share <= amount,
        share * total <= fee * amount < (share + 1) * total,
{
    proof {
        lemma_share_is_covered(fee as nat, amount as nat, total as nat);
    }
    assert(fee * amount <= u64::MAX * u64::MAX) by (nonlinear_arith)
        requires
            fee <= u64::MAX,
            amount <= u64::MAX,
    ;
    ((fee as u128 * amount as u128) / total as u128) as u64
}

/// Returns whether an amount can be forwarded of what HTLCs bring.
pub fn check_can_forward(htlcs: &[InterceptedHTLC], forwarded: u64) -> (possible: bool)
    requires
        total_msat(htlcs@) <= u64::MAX,
    ensures
        possible == can_forward(htlcs@, forwarded as nat),
{
    let total: u64 = sum_msat(htlcs);
    if forwarded > total {
        return false;
    }
    if htlcs.len() == 0 {
        return true;
    }
    if total == 0 {
        return false;
    }
    let fee: u64 = total - forwarded;
    let mut remaining: u64 = fee;
    let mut i: usize = 0;
    let last: usize = htlcs.len() - 1;
    while i < last
        invariant
            i <= last < htlcs@.len(),
            last == htlcs@.len() - 1,
            total == total_msat(htlcs@),
            fee <= total,
            0 < total,
            remaining == fee - fee_shares(htlcs@.take(i as int), fee as nat, total as nat),
        decreases last - i,
    {
        proof {
            lemma_total_grows(htlcs@, i + 1);
            lemma_shares_are_bounded(htlcs@.take(i + 1), fee as nat, total as nat);
            assert(htlcs@.take(i + 1).drop_last() == htlcs@.take(i as int));
        }
        remaining = remaining - compute_fee_share(
            fee,
            htlcs[i].expected_outbound_amount_msat,
            total,
        );
        i += 1;
    }
    assert(htlcs@.take(last as int) == htlcs@.drop_last());
    remaining <= htlcs[last].expected_outbound_amount_msat
}

/// Computes what is forwarded for each HTLC, when an amount is forwarded of what they bring.
pub fn calculate_amount_to_forward_per_htlc(
    htlcs: &[InterceptedHTLC],
    total_amt_to_forward_msat: u64,
) -> (per_htlc_forwards: Vec<(InterceptId, u64)>)
    requires
        can_forward(htlcs@, total_amt_to_forward_msat as nat),
    ensures
        per_htlc_forwards@ == forwards(htlcs@, total_amt_to_forward_msat as nat),
        forwarded_msat(per_htlc_forwards@) == total_amt_to_forward_msat,
        per_htlc_forwards@.len() == htlcs@.len(),
        forall|i: int|
            0 <= i < htlcs@.len() ==> (#[trigger] per_htlc_forwards@[i]).0 == htlcs@[i].intercept_id
                && per_htlc_forwards@[i].1 <= htlcs@[i].expected_outbound_amount_msat,
        forall|i: int|
            0 <= i < htlcs@.len() - 1 ==> bears_its_share(
                htlcs@[i].expected_outbound_amount_msat as int,
                (#[trigger] per_htlc_forwards@[i]).1 as int,
                total_msat(htlcs@) as int,
                total_amt_to_forward_msat as int,
            ),
{
    let total_received_msat: u64 = sum_msat(htlcs);
    let total_fee_msat: u64 = total_received_msat - total_amt_to_forward_msat;
    let mut fee_remaining_msat: u64 = total_fee_msat;
    let mut per_htlc_forwards: Vec<(InterceptId, u64)> = Vec::new();
    let ghost result = forwards(htlcs@, total_amt_to_forward_msat as nat);
    let mut index: usize = 0;
    while index < htlcs.len()
        invariant
            index <= htlcs@.len(),
            can_forward(htlcs@, total_amt_to_forward_msat as nat),
            total_received_msat == total_msat(htlcs@),
            total_fee_msat == total_received_msat - total_amt_to_forward_msat,
            result == forwards(htlcs@, total_amt_to_forward_msat as nat),
            per_htlc_forwards@ == result.take(index as int),
            index < htlcs@.len() ==> fee_remaining_msat == total_fee_msat - fee_shares(
                htlcs@.take(index as int),
                total_fee_msat as nat,
                total_received_msat as nat,
            ),
        decreases htlcs@.len() - index,
    {
        let htlc = htlcs[index];
        proof {
            lemma_total_grows(htlcs@, index + 1);
            lemma_shares_are_bounded(
                htlcs@.take(index + 1),
                total_fee_msat as nat,
                total_received_msat as nat,
            );
            assert(htlcs@.take(index + 1).drop_last() == htlcs@.take(index as int));
            lemma_fee_is_covered(htlcs@, total_amt_to_forward_msat as nat, index as int);
        }
        let mut actual_fee_amt_msat: u64 = compute_fee_share(
            total_fee_msat,
            htlc.expected_outbound_amount_msat,
            total_received_msat,
        );
        fee_remaining_msat = fee_remaining_msat - actual_fee_amt_msat;
        if index == htlcs.len() - 1 {
            assert(htlcs@.take(index as int) == htlcs@.drop_last());
            actual_fee_amt_msat = actual_fee_amt_msat + fee_remaining_msat;
        }
        assert(actual_fee_amt_msat == htlc_fee(
            htlcs@,
            total_amt_to_forward_msat as nat,
            index as int,
        ));
        let amount_to_forward_msat: u64 = htlc.expected_outbound_amount_msat - actual_fee_amt_msat;
        per_htlc_forwards.push((htlc.intercept_id, amount_to_forward_msat));
        assert(per_htlc_forwards@ =~= result.take(index + 1));
        index += 1;
    }
    assert(result.take(index as int) == result);
    proof {
        let forwarded = total_amt_to_forward_msat as nat;
        lemma_forwards_add_up(htlcs@, forwarded);
        assert forall|i: int| 0 <= i < htlcs@.len() implies (#[trigger] per_htlc_forwards@[i]).0
            == htlcs@[i].intercept_id && per_htlc_forwards@[i].1
            <= htlcs@[i].expected_outbound_amount_msat by {
            lemma_fee_is_covered(htlcs@, forwarded, i);
        }
        assert forall|i: int| 0 <= i < htlcs@.len() - 1 implies bears_its_share(
            htlcs@[i].expected_outbound_amount_msat as int,
            (#[trigger] per_htlc_forwards@[i]).1 as int,
            total_msat(htlcs@) as int,
            total_amt_to_forward_msat as int,
        ) by {
            lemma_fee_is_spread_in_proportion(htlcs@, forwarded, i);
        }
    }
    per_htlc_forwards
}

/// No HTLCs bring nothing, and one more HTLC brings its amount more.
pub proof fn lemma_amounts_add_up(
    htlcs: Seq<InterceptedHTLC>,
    htlc: InterceptedHTLC,
    per_htlc: Seq<(InterceptId, u64)>,
    forward: (InterceptId, u64),
)
    ensures
        total_msat(Seq::empty()) == 0,
        total_msat(htlcs.push(htlc)) == total_msat(htlcs) + htlc.expected_outbound_amount_msat,
        forwarded_msat(Seq::empty()) == 0,
        forwarded_msat(per_htlc.push(forward)) == forwarded_msat(per_htlc) + forward.1,
{
    assert(htlcs.push(htlc).drop_last() =~= htlcs);
    assert(per_htlc.push(forward).drop_last() =~= per_htlc);
}

/// Every HTLC is forwarded once, in order and under its own id, and each but the last bears the part
/// of the fee that its amount has in the total, rounded down to whole millisatoshi: the withheld
/// amount is the largest that does not exceed the exact part.
pub proof fn lemma_fee_is_spread_in_proportion(htlcs: Seq<InterceptedHTLC>, forwarded: nat, i: int)
    requires
        can_forward(htlcs, forwarded),
        0 <= i < htlcs.len(),
    ensures
        ({
            let per_htlc = forwards(htlcs, forwarded);
            let amount = htlcs[i].expected_outbound_amount_msat;
            let withheld = amount - per_htlc[i].1;
            let total = total_msat(htlcs);
            let fee = total - forwarded;
            &&& per_htlc.len() == htlcs.len()
            &&& per_htlc[i].0 == htlcs[i].intercept_id
            &&& 0 <= withheld <= amount
            &&& i < htlcs.len() - 1 ==> withheld * total <= fee * amount
            &&& i < htlcs.len() - 1 ==> fee * amount < (withheld + 1) * total
        }),
{
    let fee = withheld_fee(htlcs, forwarded);
    let amount = htlcs[i].expected_outbound_amount_msat as nat;
    lemma_fee_is_covered(htlcs, forwarded, i);
    lemma_share_is_covered(fee, amount, total_msat(htlcs));
}

/// The last HTLC bears what the others leave of the fee, which is its own part and less than one
/// millisatoshi more for each of the others.
pub proof fn lemma_last_htlc_bears_the_rest(htlcs: Seq<InterceptedHTLC>, forwarded: nat)
    requires
        can_forward(htlcs, forwarded),
        htlcs.len() > 0,
    ensures
        ({
            let amount = htlcs.last().expected_outbound_amount_msat;
            let withheld = amount - forwards(htlcs, forwarded).last().1;
            let total = total_msat(htlcs);
            let fee = total - forwarded;
            &&& fee * amount <= withheld * total
            &&& withheld * total <= fee * amount + (htlcs.len() - 1) * total
        }),
{
    let n = htlcs.len() - 1;
    let total = total_msat(htlcs);
    let fee = withheld_fee(htlcs, forwarded);
    let amount = htlcs.last().expected_outbound_amount_msat as nat;
    lemma_fee_is_covered(htlcs, forwarded, n);
    lemma_shares_are_bounded(htlcs.drop_last(), fee, total);
    lemma_shares_reach(htlcs.drop_last(), fee, total);
    let shares = fee_shares(htlcs.drop_last(), fee, total);
    let rest = total_msat(htlcs.drop_last());
    let withheld = (fee - shares) as int;
    assert(fee * amount <= withheld * total && withheld * total <= fee * amount + n * total)
        by (nonlinear_arith)
        requires
            withheld == fee - shares,
            total == rest + amount,
            shares * total <= fee * rest,
            fee * rest <= shares * total + n * total,
    ;
}

/// The shares of HTLCs in a fee fall short of the fee's part for what they bring by less than one
/// each.
proof fn lemma_shares_reach(htlcs: Seq<InterceptedHTLC>, fee: nat, total: nat)
    requires
        fee <= total,
        0 < total,
    ensures
        fee * total_msat(htlcs) <= fee_shares(htlcs, fee, total) * total + htlcs.len() * total,
    decreases htlcs.len(),
{
    if htlcs.len() > 0 {
        let amount = htlcs.last().expected_outbound_amount_msat as nat;
        lemma_shares_reach(htlcs.drop_last(), fee, total);
        lemma_share_is_covered(fee, amount, total);
        let before = fee_shares(htlcs.drop_last(), fee, total);
        let share = fee_share(fee, amount, total);
        let rest = total_msat(htlcs.drop_last());
        let n = htlcs.drop_last().len();
        assert(fee * (rest + amount) <= (before + share) * total + (n + 1) * total)
            by (nonlinear_arith)
            requires
                fee * rest <= before * total + n * total,
                fee * amount < (share + 1) * total,
        ;
    } else {
        assert(fee * 0 <= 0 * total + 0 * total) by (nonlinear_arith);
    }
}

/// What can be forwarded is no more than the HTLCs bring. Where they bring something, one HTLC can
/// forward any part of it, several can forward all of it, and they can forward any part of which the
/// share of the last HTLC is at least one millisatoshi for each of the others.
pub proof fn lemma_what_can_be_forwarded(htlcs: Seq<InterceptedHTLC>, forwarded: nat)
    requires
        total_msat(htlcs) <= u64::MAX,
    ensures
        can_forward(htlcs, forwarded) ==> forwarded <= total_msat(htlcs),
        htlcs.len() == 0 ==> (can_forward(htlcs, forwarded) <==> forwarded == 0),
        htlcs.len() == 1 ==> (can_forward(htlcs, forwarded) <==> 0 < total_msat(htlcs)
            && forwarded <= total_msat(htlcs)),
        htlcs.len() > 1 && 0 < total_msat(htlcs) && forwarded <= total_msat(htlcs) && (
        htlcs.len() - 1) * total_msat(htlcs) <= htlcs.last().expected_outbound_amount_msat
            * forwarded ==> can_forward(htlcs, forwarded),
        0 < total_msat(htlcs) && forwarded == total_msat(htlcs) ==> can_forward(htlcs, forwarded),
{
    let total = total_msat(htlcs);
    if htlcs.len() > 0 && 0 < total && forwarded <= total {
        let n = htlcs.len() - 1;
        let fee = withheld_fee(htlcs, forwarded);
        let amount = htlcs.last().expected_outbound_amount_msat as nat;
        let shares = fee_shares(htlcs.drop_last(), fee, total);
        let rest = total_msat(htlcs.drop_last());
        lemma_shares_reach(htlcs.drop_last(), fee, total);
        lemma_shares_are_bounded(htlcs.drop_last(), fee, total);
        if n * total <= amount * forwarded {
            assert(fee - shares <= amount) by (nonlinear_arith)
                requires
                    fee * rest <= shares * total + n * total,
                    n * total <= amount * forwarded,
                    fee == total - forwarded,
                    total == rest + amount,
                    0 < total,
            ;
        }
        if htlcs.len() == 1 {
            assert(htlcs.drop_last() =~= Seq::<InterceptedHTLC>::empty());
        }
    }
}

/// What is forwarded of HTLCs is one amount for each of them, in their order and under their ids. The
/// amounts add up to what is to be forwarded, and each HTLC but the last bears its part of the fee,
/// rounded down to whole millisatoshi.
pub proof fn lemma_amounts_per_htlc(
    htlcs: &[InterceptedHTLC],
    forwarded: u64,
    per_htlc: Vec<(InterceptId, u64)>,
)
    requires
        call_ensures(calculate_amount_to_forward_per_htlc, (htlcs, forwarded), per_htlc),
        can_forward(htlcs@, forwarded as nat),
    ensures
        per_htlc@.len() == htlcs@.len(),
        forwarded_msat(per_htlc@) == forwarded,
        forall|i: int|
            0 <= i < htlcs@.len() ==> (#[trigger] per_htlc@[i]).0 == htlcs@[i].intercept_id
                && per_htlc@[i].1 <= htlcs@[i].expected_outbound_amount_msat,
        forall|i: int|
            0 <= i < htlcs@.len() - 1 ==> {
                let amount = htlcs@[i].expected_outbound_amount_msat;
                let withheld = amount - (#[trigger] per_htlc@[i]).1;
                let total = total_msat(htlcs@);
                let fee = total - forwarded;
                withheld * total <= fee * amount < (withheld + 1) * total
            },
{
    lemma_forwards_add_up(htlcs@, forwarded as nat);
    assert forall|i: int| 0 <= i < htlcs@.len() implies (#[trigger] per_htlc@[i]).0
        == htlcs@[i].intercept_id && per_htlc@[i].1 <= htlcs@[i].expected_outbound_amount_msat by {
        lemma_fee_is_spread_in_proportion(htlcs@, forwarded as nat, i);
    }
    assert forall|i: int| 0 <= i < htlcs@.len() - 1 implies {
        let amount = htlcs@[i].expected_outbound_amount_msat;
        let withheld = amount - (#[trigger] per_htlc@[i]).1;
        let total = total_msat(htlcs@);
        let fee = total - forwarded;
        withheld * total <= fee * amount < (withheld + 1) * total
    } by {
        lemma_fee_is_spread_in_proportion(htlcs@, forwarded as nat, i);
    }
}

} // verus!
