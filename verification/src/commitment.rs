//! Coloring of commitment transactions.

use crate::amounts;
use crate::channel;
use crate::coloring;
use crate::coloring::{Coloring, ColoringInfo};
use crate::error::Fault;
use crate::htlc_records;
use crate::htlc_records::HTLCOutputInCommitment;
use crate::ids::ChannelId;
use crate::records;
use crate::records::{RgbInfo, RgbPaymentInfo, TransferInfo};
use crate::rgb_store;
use crate::store;
use crate::store::{Contents, KVStoreSync};
use crate::transaction;
use crate::transaction::{Transaction, TxOut, Txid};
use std::collections::HashMap;
use vstd::prelude::*;

verus! {

broadcast use vstd::std_specs::hash::group_hash_axioms;

/// A commitment transaction that has been put together, with its id.
#[derive(Debug, PartialEq, Eq)]
pub struct BuiltCommitmentTransaction {
    /// The transaction
    pub transaction: Transaction,
    /// Its id
    pub txid: Txid,
}

/// A commitment transaction and what it was put together from.
#[derive(Debug, PartialEq, Eq)]
pub struct CommitmentTransaction {
    /// The transaction itself
    pub built: BuiltCommitmentTransaction,
    /// The HTLCs that have an output of their own
    pub nondust_htlcs: Vec<HTLCOutputInCommitment>,
    /// The place of the output that can be revoked, if there is one
    pub revokeable_output_index: Option<usize>,
}

/// What coloring needs to know of a channel.
#[derive(Clone, Copy, Debug, PartialEq, Eq)]
pub struct ChannelContext {
    /// The id of the channel
    pub channel_id: ChannelId,
    /// Whether the parties trust each other not to broadcast commitment transactions
    pub trusted_no_broadcast: bool,
}

/// The scripts to which the parties of a channel are paid directly.
#[derive(Debug, PartialEq, Eq)]
pub struct FundingScope {
    /// The script that pays the holder in the counterparty's commitment transaction
    pub holder_payment_script: Vec<u8>,
    /// The script that pays the counterparty in the holder's commitment transaction
    pub counterparty_payment_script: Vec<u8>,
}

/// How a commitment transaction is to be colored, and what it leaves to the holder.
#[derive(Debug, PartialEq, Eq)]
pub struct CommitmentColoring {
    /// How the transaction is to be colored
    pub coloring_info: ColoringInfo,
    /// The transaction as an unsigned PSBT
    pub psbt: String,
    /// The amount of the holder's own output
    pub holder_amount: u64,
    /// The amount of the HTLCs that count as the holder's
    pub htlc_amount: u64,
}

/// The mathematical content of a [`CommitmentColoring`].
pub ghost struct CommitmentPlan {
    pub coloring: Coloring,
    pub psbt: Seq<char>,
    pub holder_amount: u64,
    pub htlc_amount: u64,
}

impl View for CommitmentColoring {
    type V = CommitmentPlan;

    open spec fn view(&self) -> CommitmentPlan {
        CommitmentPlan {
            coloring: self.coloring_info@,
            psbt: self.psbt@,
            holder_amount: self.holder_amount,
            htlc_amount: self.htlc_amount,
        }
    }
}

/// The mathematical content of what preparing a commitment transaction comes to.
pub open spec fn viewed(r: Result<Option<CommitmentColoring>, Fault>) -> Result<
    Option<CommitmentPlan>,
    Fault,
> {
    match r {
        Ok(Some(plan)) => Ok(Some(plan@)),
        Ok(None) => Ok(None),
        Err(fault) => Err(fault),
    }
}

/// What the HTLCs of a commitment transaction come to.
pub ghost struct Tally {
    /// The assets that the holder offers
    pub offered: u64,
    /// The assets that the holder is to receive
    pub received: u64,
    /// The amount for each output
    pub output_map: Map<u32, u64>,
    /// What is recorded of the last payment
    pub last: Option<RgbPaymentInfo>,
}

/// The tally of no HTLCs.
pub open spec fn empty_tally() -> Tally {
    Tally { offered: 0, received: 0, output_map: Map::empty(), last: None }
}

/// The tally once a payment has been added, if the amounts stay in range.
pub open spec fn added(tally: Tally, vout: u32, payment: RgbPaymentInfo, inbound: bool) -> Option<
    Tally,
> {
    let offered = tally.offered + if inbound {
        0
    } else {
        payment.amount as int
    };
    let received = tally.received + if inbound {
        payment.amount as int
    } else {
        0
    };
    if offered <= u64::MAX && received <= u64::MAX {
        Some(
            Tally {
                offered: offered as u64,
                received: received as u64,
                output_map: tally.output_map.insert(vout, payment.amount),
                last: Some(payment),
            },
        )
    } else {
        None
    }
}

/// The contents and the tally once one more HTLC has been looked at.
pub open spec fn tally_step(
    contents: Contents,
    tally: Tally,
    channel: ChannelId,
    info: RgbInfo,
    counterparty: bool,
    htlc: HTLCOutputInCommitment,
) -> (Contents, Result<Tally, Fault>) {
    match htlc_records::colored_amount(htlc) {
        None => (contents, Ok(tally)),
        Some(amount) => match htlc.transaction_output_index {
            None => (contents, Err(Fault::HtlcWithoutOutput)),
            Some(vout) => {
                let inbound = htlc.offered == counterparty;
                let (after, result) = htlc_records::recorded(
                    contents,
                    channel,
                    info,
                    htlc.payment_hash,
                    amount,
                    inbound,
                );
                match result {
                    Err(fault) => (after, Err(fault)),
                    Ok(payment) => match added(tally, vout, payment, inbound) {
                        None => (after, Err(Fault::AmountOutOfRange)),
                        Some(tally) => (after, Ok(tally)),
                    },
                }
            },
        },
    }
}

/// The contents and the tally once HTLCs have been looked at in turn. The first fault ends it.
pub open spec fn tallied(
    contents: Contents,
    channel: ChannelId,
    info: RgbInfo,
    counterparty: bool,
    htlcs: Seq<HTLCOutputInCommitment>,
) -> (Contents, Result<Tally, Fault>)
    decreases htlcs.len(),
{
    if htlcs.len() == 0 {
        (contents, Ok(empty_tally()))
    } else {
        let (before, result) = tallied(contents, channel, info, counterparty, htlcs.drop_last());
        match result {
            Err(fault) => (before, Err(fault)),
            Ok(tally) => tally_step(before, tally, channel, info, counterparty, htlcs.last()),
        }
    }
}

/// A fault that comes up among the first HTLCs is that of all of them.
proof fn lemma_fault_ends(
    contents: Contents,
    channel: ChannelId,
    info: RgbInfo,
    counterparty: bool,
    htlcs: Seq<HTLCOutputInCommitment>,
    n: int,
)
    requires
        0 <= n <= htlcs.len(),
        tallied(contents, channel, info, counterparty, htlcs.take(n)).1 is Err,
    ensures
        tallied(contents, channel, info, counterparty, htlcs) == tallied(
            contents,
            channel,
            info,
            counterparty,
            htlcs.take(n),
        ),
    decreases htlcs.len(),
{
    if n == htlcs.len() {
        assert(htlcs.take(n) =~= htlcs);
    } else {
        assert(htlcs.drop_last().take(n) =~= htlcs.take(n));
        lemma_fault_ends(contents, channel, info, counterparty, htlcs.drop_last(), n);
    }
}

/// What is recorded of the payment behind an HTLC, when HTLCs are looked at in turn.
pub open spec fn payment_behind(
    contents: Contents,
    channel: ChannelId,
    info: RgbInfo,
    counterparty: bool,
    htlcs: Seq<HTLCOutputInCommitment>,
    i: int,
) -> Result<RgbPaymentInfo, Fault> {
    htlc_records::recorded(
        tallied(contents, channel, info, counterparty, htlcs.take(i)).0,
        channel,
        info,
        htlcs[i].payment_hash,
        htlc_records::colored_amount(htlcs[i])->0,
        htlcs[i].offered == counterparty,
    ).1
}

/// Whether the payments behind the first HTLCs are recorded as they were when the HTLCs were
/// looked at in turn.
pub open spec fn still_recorded(
    start: Contents,
    contents: Contents,
    channel: ChannelId,
    info: RgbInfo,
    counterparty: bool,
    htlcs: Seq<HTLCOutputInCommitment>,
    n: int,
) -> bool {
    forall|i: int|
        0 <= i < n && htlc_records::colored_amount(htlcs[i]) is Some ==> {
            &&& (#[trigger] payment_behind(start, channel, info, counterparty, htlcs, i)) is Ok
            &&& htlc_records::is_recorded(
                contents,
                channel,
                htlcs[i].payment_hash,
                htlcs[i].offered == counterparty,
                payment_behind(start, channel, info, counterparty, htlcs, i)->Ok_0,
            )
        }
}

/// Looking at HTLCs again whose payments are recorded changes nothing, and gives the same tally.
proof fn lemma_tally_again(
    start: Contents,
    contents: Contents,
    channel: ChannelId,
    info: RgbInfo,
    counterparty: bool,
    htlcs: Seq<HTLCOutputInCommitment>,
    n: int,
)
    requires
        0 <= n <= htlcs.len(),
        tallied(start, channel, info, counterparty, htlcs.take(n)).1 is Ok,
        still_recorded(start, contents, channel, info, counterparty, htlcs, n),
    ensures
        tallied(contents, channel, info, counterparty, htlcs.take(n)) == (
            contents,
            tallied(start, channel, info, counterparty, htlcs.take(n)).1,
        ),
    decreases n,
{
    if n > 0 {
        assert(htlcs.take(n).drop_last() =~= htlcs.take(n - 1));
        assert(htlcs.take(n).last() == htlcs[n - 1]);
        lemma_tally_again(start, contents, channel, info, counterparty, htlcs, n - 1);
        let payment = payment_behind(start, channel, info, counterparty, htlcs, n - 1);
        if htlc_records::colored_amount(htlcs[n - 1]) is Some {
            htlc_records::law_recording_again(
                contents,
                channel,
                info,
                htlcs[n - 1].payment_hash,
                htlc_records::colored_amount(htlcs[n - 1])->0,
                htlcs[n - 1].offered == counterparty,
                payment->Ok_0,
            );
        }
    }
}

/// Whether the payments behind all HTLCs that carry assets are recorded for the channel.
pub open spec fn all_recorded(
    contents: Contents,
    channel: ChannelId,
    counterparty: bool,
    htlcs: Seq<HTLCOutputInCommitment>,
) -> bool {
    forall|i: int|
        0 <= i < htlcs.len() && htlc_records::colored_amount(#[trigger] htlcs[i]) is Some
            ==> htlc_records::has_record(
            contents,
            channel,
            htlcs[i].payment_hash,
            htlcs[i].offered == counterparty,
        )
}

/// Where the payments behind all HTLCs are recorded, looking at the HTLCs leaves the records as
/// they are, whatever has become of the balances of the channel.
pub proof fn law_recorded_payments_stay(
    contents: Contents,
    channel: ChannelId,
    info: RgbInfo,
    counterparty: bool,
    htlcs: Seq<HTLCOutputInCommitment>,
)
    requires
        all_recorded(contents, channel, counterparty, htlcs),
    ensures
        tallied(contents, channel, info, counterparty, htlcs).0 == contents,
    decreases htlcs.len(),
{
    if htlcs.len() > 0 {
        let rest = htlcs.drop_last();
        let htlc = htlcs[htlcs.len() - 1];
        let inbound = htlc.offered == counterparty;
        assert forall|i: int| 0 <= i < rest.len() implies rest[i] == htlcs[i] by {}
        law_recorded_payments_stay(contents, channel, info, counterparty, rest);
        if htlc_records::colored_amount(htlc) is Some {
            htlc_records::law_recording_again(
                contents,
                channel,
                info,
                htlc.payment_hash,
                htlc_records::colored_amount(htlc)->0,
                inbound,
                htlc_records::record_of(contents, channel, htlc.payment_hash, inbound)->0,
            );
        }
    }
}

/// Looking at HTLCs touches payment info only.
pub proof fn law_tally_touches_payments_only(
    contents: Contents,
    channel: ChannelId,
    info: RgbInfo,
    counterparty: bool,
    htlcs: Seq<HTLCOutputInCommitment>,
)
    ensures
        store::same_but_payments(
            contents,
            tallied(contents, channel, info, counterparty, htlcs).0,
        ),
    decreases htlcs.len(),
{
    if htlcs.len() > 0 {
        law_tally_touches_payments_only(contents, channel, info, counterparty, htlcs.drop_last());
        let before = tallied(contents, channel, info, counterparty, htlcs.drop_last()).0;
        let htlc = htlcs.last();
        htlc_records::law_recording_touches_payments_only(
            before,
            channel,
            info,
            htlc.payment_hash,
            htlc_records::colored_amount(htlc)->0,
            htlc.offered == counterparty,
        );
    }
}

/// What is left to the holder and to the counterparty once the HTLCs are taken off, if there is
/// enough of it. The balances are those that went with the last payment, or else those of the
/// channel.
pub open spec fn settled_balances(info: RgbInfo, tally: Tally) -> Option<(u64, u64)> {
    match tally.last {
        None => Some((info.local_rgb_amount, info.remote_rgb_amount)),
        Some(payment) => if payment.local_rgb_amount >= tally.offered && payment.remote_rgb_amount
            >= tally.received {
            Some(
                (
                    (payment.local_rgb_amount - tally.offered) as u64,
                    (payment.remote_rgb_amount - tally.received) as u64,
                ),
            )
        } else {
            None
        },
    }
}

/// The map with an amount for the output at a place, if there is a place.
pub open spec fn with_output(output_map: Map<u32, u64>, place: Option<nat>, amount: u64) -> Map<
    u32,
    u64,
> {
    match place {
        Some(vout) => output_map.insert(vout as u32, amount),
        None => output_map,
    }
}

/// The script of the output that pays the other side of a commitment transaction directly.
pub open spec fn countersigner_script(funding: FundingScope, counterparty: bool) -> Seq<u8> {
    if counterparty {
        funding.holder_payment_script@
    } else {
        funding.counterparty_payment_script@
    }
}

/// How a commitment transaction is to be colored, given the tally of its HTLCs.
pub open spec fn plan_of(
    context: ChannelContext,
    funding: FundingScope,
    commitment: CommitmentTransaction,
    counterparty: bool,
    info: RgbInfo,
    tally: Tally,
) -> Result<Option<CommitmentPlan>, Fault> {
    if context.trusted_no_broadcast {
        Ok(None)
    } else {
        match settled_balances(info, tally) {
            None => Err(Fault::AmountOutOfRange),
            Some((local, remote)) => {
                let (direct, revokeable) = if counterparty {
                    (local, remote)
                } else {
                    (remote, local)
                };
                let direct_place = transaction::find(
                    commitment.built.transaction.output@,
                    transaction::pays_to(countersigner_script(funding, counterparty)),
                );
                let revokeable_place = match commitment.revokeable_output_index {
                    Some(vout) => Some(vout as nat),
                    None => None,
                };
                let output_map = with_output(
                    with_output(tally.output_map, direct_place, direct),
                    revokeable_place,
                    revokeable,
                );
                match transaction::unsigned_psbt(commitment.built.transaction.raw@) {
                    None => Err(Fault::NotUnsigned),
                    Some(psbt) => Ok(
                        Some(
                            CommitmentPlan {
                                coloring: coloring::static_coloring(
                                    info.contract_id,
                                    output_map,
                                    None,
                                ),
                                psbt,
                                holder_amount: local,
                                htlc_amount: if counterparty {
                                    tally.offered
                                } else {
                                    tally.received
                                },
                            },
                        ),
                    ),
                }
            },
        }
    }
}

/// Nothing is offered and nothing received where no payment was looked at.
proof fn lemma_no_payment(
    contents: Contents,
    channel: ChannelId,
    info: RgbInfo,
    counterparty: bool,
    htlcs: Seq<HTLCOutputInCommitment>,
)
    ensures
        tallied(contents, channel, info, counterparty, htlcs).1 matches Ok(tally) ==> (tally.last is None
            ==> tally == empty_tally()),
    decreases htlcs.len(),
{
    if htlcs.len() > 0 {
        lemma_no_payment(contents, channel, info, counterparty, htlcs.drop_last());
    }
}

/// What is recorded of the counterparty's commitment transaction is the whole balance of the
/// holder: what the holder offers is still the holder's until the HTLCs are settled.
pub proof fn law_counterparty_commitment_leaves_balance(
    contents: Contents,
    context: ChannelContext,
    funding: FundingScope,
    commitment: CommitmentTransaction,
    info: RgbInfo,
    tally: Tally,
    plan: CommitmentPlan,
)
    requires
        tallied(
            contents,
            context.channel_id,
            info,
            true,
            commitment.nondust_htlcs@,
        ).1 == Ok::<Tally, Fault>(tally),
        plan_of(context, funding, commitment, true, info, tally) == Ok::<
            Option<CommitmentPlan>,
            Fault,
        >(Some(plan)),
    ensures
        plan.holder_amount + plan.htlc_amount == match tally.last {
            Some(payment) => payment.local_rgb_amount,
            None => info.local_rgb_amount,
        },
{
    lemma_no_payment(contents, context.channel_id, info, true, commitment.nondust_htlcs@);
}

/// The outputs of the HTLCs that carry assets.
pub open spec fn htlc_outputs(htlcs: Seq<HTLCOutputInCommitment>) -> Set<u32> {
    Set::new(
        |vout: u32|
            exists|i: int|
                0 <= i < htlcs.len() && htlc_records::colored_amount(#[trigger] htlcs[i]) is Some
                    && htlcs[i].transaction_output_index == Some(vout),
    )
}

/// Whether the HTLCs that carry assets have different outputs.
pub open spec fn distinct_outputs(htlcs: Seq<HTLCOutputInCommitment>) -> bool {
    forall|i: int, j: int|
        0 <= i < j < htlcs.len() && htlc_records::colored_amount(#[trigger] htlcs[i]) is Some
            && htlc_records::colored_amount(#[trigger] htlcs[j]) is Some
            ==> htlcs[i].transaction_output_index != htlcs[j].transaction_output_index
}

/// The assets that are spread over a commitment transaction: the balances that went with the last
/// payment, or else those of the channel.
pub open spec fn assets_at_hand(info: RgbInfo, tally: Tally) -> int {
    match tally.last {
        Some(payment) => payment.local_rgb_amount + payment.remote_rgb_amount,
        None => info.local_rgb_amount + info.remote_rgb_amount,
    }
}

/// The amounts for the outputs of HTLCs sum up to what is offered and received.
proof fn lemma_tally_total(
    contents: Contents,
    channel: ChannelId,
    info: RgbInfo,
    counterparty: bool,
    htlcs: Seq<HTLCOutputInCommitment>,
)
    requires
        distinct_outputs(htlcs),
        tallied(contents, channel, info, counterparty, htlcs).1 is Ok,
    ensures
        ({
            let tally = tallied(contents, channel, info, counterparty, htlcs).1->Ok_0;
            &&& tally.output_map.dom().finite()
            &&& tally.output_map.dom() =~= htlc_outputs(htlcs)
            &&& amounts::total(tally.output_map) == tally.offered + tally.received
            &&& tally.last is None ==> tally.offered == 0 && tally.received == 0
        }),
    decreases htlcs.len(),
{
    if htlcs.len() == 0 {
        amounts::lemma_total_empty();
    } else {
        let rest = htlcs.drop_last();
        let htlc = htlcs.last();
        assert forall|i: int| 0 <= i < rest.len() implies rest[i] == htlcs[i] by {}
        assert(distinct_outputs(rest)) by {
            assert forall|i: int, j: int|
                0 <= i < j < rest.len() && htlc_records::colored_amount(#[trigger] rest[i]) is Some
                    && htlc_records::colored_amount(
                    #[trigger] rest[j],
                ) is Some implies rest[i].transaction_output_index
                != rest[j].transaction_output_index by {
                assert(rest[i] == htlcs[i] && rest[j] == htlcs[j]);
            }
        }
        lemma_tally_total(contents, channel, info, counterparty, rest);
        let before = tallied(contents, channel, info, counterparty, rest).1->Ok_0;
        let after = tallied(contents, channel, info, counterparty, htlcs).1->Ok_0;
        let last = htlcs.len() - 1;
        if htlc_records::colored_amount(htlc) is Some {
            let vout = htlc.transaction_output_index->0;
            assert(htlcs[last] == htlc);
            if htlc_outputs(rest).contains(vout) {
                let i = choose|i: int|
                    0 <= i < rest.len() && htlc_records::colored_amount(#[trigger] rest[i]) is Some
                        && rest[i].transaction_output_index == Some(vout);
                assert(htlcs[i] == rest[i]);
                assert(htlcs[i].transaction_output_index != htlcs[last].transaction_output_index);
            }
            let amount = after.output_map[vout];
            amounts::lemma_total_insert(before.output_map, vout, amount);
            assert(after.output_map =~= before.output_map.insert(vout, amount));
            assert forall|v: u32| htlc_outputs(htlcs).contains(v) <==> (htlc_outputs(rest).contains(
                v,
            ) || v == vout) by {
                if htlc_outputs(rest).contains(v) {
                    let i = choose|i: int|
                        0 <= i < rest.len() && htlc_records::colored_amount(
                            #[trigger] rest[i],
                        ) is Some && rest[i].transaction_output_index == Some(v);
                    assert(htlcs[i] == rest[i]);
                }
                if htlc_outputs(htlcs).contains(v) && v != vout {
                    let i = choose|i: int|
                        0 <= i < htlcs.len() && htlc_records::colored_amount(
                            #[trigger] htlcs[i],
                        ) is Some && htlcs[i].transaction_output_index == Some(v);
                    assert(rest[i] == htlcs[i]);
                }
            }
        } else {
            assert forall|v: u32| htlc_outputs(htlcs).contains(v) <==> htlc_outputs(rest).contains(
                v,
            ) by {
                if htlc_outputs(rest).contains(v) {
                    let i = choose|i: int|
                        0 <= i < rest.len() && htlc_records::colored_amount(
                            #[trigger] rest[i],
                        ) is Some && rest[i].transaction_output_index == Some(v);
                    assert(htlcs[i] == rest[i]);
                }
                if htlc_outputs(htlcs).contains(v) {
                    let i = choose|i: int|
                        0 <= i < htlcs.len() && htlc_records::colored_amount(
                            #[trigger] htlcs[i],
                        ) is Some && htlcs[i].transaction_output_index == Some(v);
                    assert(rest[i] == htlcs[i]);
                }
            }
        }
    }
}

/// Coloring a commitment transaction neither creates nor destroys assets: where both parties and
/// every HTLC that carries assets have an output of their own, the amounts for the outputs sum up
/// to the balances of the channel.
pub proof fn law_coloring_spreads_all(
    contents: Contents,
    context: ChannelContext,
    funding: FundingScope,
    commitment: CommitmentTransaction,
    counterparty: bool,
    info: RgbInfo,
    tally: Tally,
    plan: CommitmentPlan,
    direct: nat,
    revokeable: usize,
)
    requires
        tallied(
            contents,
            context.channel_id,
            info,
            counterparty,
            commitment.nondust_htlcs@,
        ).1 == Ok::<Tally, Fault>(tally),
        plan_of(context, funding, commitment, counterparty, info, tally) == Ok::<
            Option<CommitmentPlan>,
            Fault,
        >(Some(plan)),
        transaction::find(
            commitment.built.transaction.output@,
            transaction::pays_to(countersigner_script(funding, counterparty)),
        ) == Some(direct),
        commitment.revokeable_output_index == Some(revokeable),
        direct as u32 != revokeable as u32,
        !htlc_outputs(commitment.nondust_htlcs@).contains(direct as u32),
        !htlc_outputs(commitment.nondust_htlcs@).contains(revokeable as u32),
        distinct_outputs(commitment.nondust_htlcs@),
    ensures
        amounts::total(plan.coloring.output_map) == assets_at_hand(info, tally),
{
    lemma_tally_total(
        contents,
        context.channel_id,
        info,
        counterparty,
        commitment.nondust_htlcs@,
    );
    let (local, remote) = settled_balances(info, tally)->0;
    let (first, second) = if counterparty {
        (local, remote)
    } else {
        (remote, local)
    };
    let one = tally.output_map.insert(direct as u32, first);
    amounts::lemma_total_insert(tally.output_map, direct as u32, first);
    amounts::lemma_total_insert(one, (revokeable as nat) as u32, second);
    assert(plan.coloring.output_map == one.insert((revokeable as nat) as u32, second));
}

/// The contents once a commitment transaction has been prepared for coloring, and what that comes
/// to.
pub open spec fn prepared(
    contents: Contents,
    context: ChannelContext,
    funding: FundingScope,
    commitment: CommitmentTransaction,
    counterparty: bool,
) -> (Contents, Result<Option<CommitmentPlan>, Fault>) {
    match channel::required_info(contents, context.channel_id.text(), true) {
        Err(fault) => (contents, Err(fault)),
        Ok(info) => {
            let (after, result) = tallied(
                contents,
                context.channel_id,
                info,
                counterparty,
                commitment.nondust_htlcs@,
            );
            match result {
                Err(fault) => (after, Err(fault)),
                Ok(tally) => (
                    after,
                    plan_of(context, funding, commitment, counterparty, info, tally),
                ),
            }
        },
    }
}

/// The contents once a colored commitment transaction has been recorded, and how that ends.
pub open spec fn finished(contents: Contents, plan: CommitmentPlan, txid: Txid) -> (
    Contents,
    Result<(), Fault>,
) {
    let rgb_amount = plan.holder_amount + plan.htlc_amount;
    if rgb_amount <= u64::MAX {
        (
            coloring::transfer_recorded(
                contents,
                txid,
                plan.coloring.contract_id,
                rgb_amount as u64,
            ),
            Ok(()),
        )
    } else {
        (contents, Err(Fault::AmountOutOfRange))
    }
}

/// The place of the first output that pays the other side directly, if there is one.
pub fn counterparty_output_index(outputs: &Vec<TxOut>, counterparty_payment_script: &[u8]) -> (r:
    Option<usize>)
    ensures
        match r {
            Some(i) => transaction::find(
                outputs@,
                transaction::pays_to(counterparty_payment_script@),
            ) == Some(i as nat),
            None => transaction::find(
                outputs@,
                transaction::pays_to(counterparty_payment_script@),
            ) is None,
        },
        match r {
            Some(i) => {
                &&& i < outputs@.len()
                &&& outputs@[i as int].script_pubkey@ == counterparty_payment_script@
                &&& forall|j: int|
                    0 <= j < i ==> (#[trigger] outputs@[j]).script_pubkey@
                        != counterparty_payment_script@
            },
            None => forall|j: int|
                0 <= j < outputs@.len() ==> (#[trigger] outputs@[j]).script_pubkey@
                    != counterparty_payment_script@,
        },
{
    transaction::output_index(outputs, counterparty_payment_script)
}

/// What the HTLCs of a commitment transaction come to, as far as they have been looked at.
struct HtlcTotals {
    offered: u64,
    received: u64,
    output_map: HashMap<u32, u64>,
    last: Option<RgbPaymentInfo>,
}

impl View for HtlcTotals {
    type V = Tally;

    closed spec fn view(&self) -> Tally {
        Tally {
            offered: self.offered,
            received: self.received,
            output_map: self.output_map@,
            last: self.last,
        }
    }
}

/// The totals, as far as there are any.
spec fn totalled(r: Result<HtlcTotals, Fault>) -> Result<Tally, Fault> {
    match r {
        Ok(totals) => Ok(totals@),
        Err(fault) => Err(fault),
    }
}

impl HtlcTotals {
    /// The totals of no HTLCs.
    fn new() -> (r: HtlcTotals)
        ensures
            r@ == empty_tally(),
    {
        HtlcTotals { offered: 0, received: 0, output_map: HashMap::new(), last: None }
    }

    /// The totals once a payment has been added; none where an amount would leave its range.
    fn add_payment(self, vout: u32, payment: RgbPaymentInfo, inbound: bool) -> (r: Option<
        HtlcTotals,
    >)
        ensures
            match r {
                Some(totals) => added(self@, vout, payment, inbound) == Some(totals@),
                None => added(self@, vout, payment, inbound) is None,
            },
    {
        let mut totals = self;
        if inbound {
            match totals.received.checked_add(payment.amount) {
                Some(received) => {
                    totals.received = received;
                },
                None => {
                    return None;
                },
            }
        } else {
            match totals.offered.checked_add(payment.amount) {
                Some(offered) => {
                    totals.offered = offered;
                },
                None => {
                    return None;
                },
            }
        }
        totals.output_map.insert(vout, payment.amount);
        totals.last = Some(payment);
        Some(totals)
    }

    /// The totals once one more HTLC has been looked at.
    fn add_htlc<K: KVStoreSync>(
        self,
        channel_id: &ChannelId,
        rgb_info: &RgbInfo,
        counterparty: bool,
        htlc: &HTLCOutputInCommitment,
        kv_store: &mut K,
    ) -> (r: Result<HtlcTotals, Fault>)
        ensures
            store::settles(
                *old(kv_store),
                *final(kv_store),
                totalled(r),
                tally_step(
                    old(kv_store).contents(),
                    self@,
                    *channel_id,
                    *rgb_info,
                    counterparty,
                    *htlc,
                ),
            ),
            !(r matches Err(Fault::NotUnsigned)),
            r is Ok && htlc_records::colored_amount(*htlc) is Some ==> {
                let inbound = htlc.offered == counterparty;
                let (after, result) = htlc_records::recorded(
                    old(kv_store).contents(),
                    *channel_id,
                    *rgb_info,
                    htlc.payment_hash,
                    htlc_records::colored_amount(*htlc)->0,
                    inbound,
                );
                &&& final(kv_store).contents() == after
                &&& result matches Ok(payment)
                &&& htlc_records::is_recorded(
                    after,
                    *channel_id,
                    htlc.payment_hash,
                    inbound,
                    payment,
                )
            },
    {
        let htlc_amount_rgb: u64 = match htlc.rgb_amount() {
            Some(amount) => amount,
            None => {
                return Ok(self);
            },
        };
        let htlc_vout: u32 = match htlc.transaction_output_index {
            Some(vout) => vout,
            None => {
                return Err(Fault::HtlcWithoutOutput);
            },
        };
        let inbound = htlc.offered == counterparty;
        let rgb_payment_info = match htlc_records::record_htlc(
            channel_id,
            rgb_info,
            &htlc.payment_hash,
            htlc_amount_rgb,
            inbound,
            kv_store,
        ) {
            Ok(info) => info,
            Err(fault) => {
                return Err(fault);
            },
        };
        match self.add_payment(htlc_vout, rgb_payment_info, inbound) {
            Some(totals) => Ok(totals),
            None => Err(Fault::AmountOutOfRange),
        }
    }
}

/// Looking at one more HTLC leaves the payments behind those before it recorded.
proof fn lemma_still_recorded(
    start: Contents,
    before: Contents,
    after: Contents,
    channel: ChannelId,
    info: RgbInfo,
    counterparty: bool,
    htlcs: Seq<HTLCOutputInCommitment>,
    n: int,
)
    requires
        0 <= n < htlcs.len(),
        before == tallied(start, channel, info, counterparty, htlcs.take(n)).0,
        still_recorded(start, before, channel, info, counterparty, htlcs, n),
        htlc_records::colored_amount(htlcs[n]) is None ==> after == before,
        htlc_records::colored_amount(htlcs[n]) matches Some(amount) ==> {
            let inbound = htlcs[n].offered == counterparty;
            &&& after == htlc_records::recorded(
                before,
                channel,
                info,
                htlcs[n].payment_hash,
                amount,
                inbound,
            ).0
            &&& payment_behind(start, channel, info, counterparty, htlcs, n) matches Ok(payment)
            &&& htlc_records::is_recorded(
                after,
                channel,
                htlcs[n].payment_hash,
                inbound,
                payment,
            )
        },
    ensures
        still_recorded(start, after, channel, info, counterparty, htlcs, n + 1),
{
    if htlc_records::colored_amount(htlcs[n]) is Some {
        assert forall|i: int|
            0 <= i < n + 1 && htlc_records::colored_amount(htlcs[i]) is Some implies {
            &&& (#[trigger] payment_behind(start, channel, info, counterparty, htlcs, i)) is Ok
            &&& htlc_records::is_recorded(
                after,
                channel,
                htlcs[i].payment_hash,
                htlcs[i].offered == counterparty,
                payment_behind(start, channel, info, counterparty, htlcs, i)->Ok_0,
            )
        } by {
            if i < n {
                htlc_records::law_recording_keeps_others(
                    before,
                    channel,
                    info,
                    htlcs[n].payment_hash,
                    htlc_records::colored_amount(htlcs[n])->0,
                    htlcs[n].offered == counterparty,
                    htlcs[i].payment_hash,
                    htlcs[i].offered == counterparty,
                    payment_behind(start, channel, info, counterparty, htlcs, i)->Ok_0,
                );
            }
        }
    }
}

/// Records the payments behind the HTLCs of a commitment transaction, and adds them up.
fn tally_htlcs<K: KVStoreSync>(
    channel_id: &ChannelId,
    rgb_info: &RgbInfo,
    counterparty: bool,
    htlcs: &Vec<HTLCOutputInCommitment>,
    kv_store: &mut K,
) -> (r: Result<HtlcTotals, Fault>)
    ensures
        store::settles(
            *old(kv_store),
            *final(kv_store),
            totalled(r),
            tallied(old(kv_store).contents(), *channel_id, *rgb_info, counterparty, htlcs@),
        ),
        !(r matches Err(Fault::NotUnsigned)),
        r is Ok ==> tallied(
            final(kv_store).contents(),
            *channel_id,
            *rgb_info,
            counterparty,
            htlcs@,
        ) == (final(kv_store).contents(), totalled(r)),
        r is Ok ==> all_recorded(final(kv_store).contents(), *channel_id, counterparty, htlcs@),
{
    let mut totals = HtlcTotals::new();
    let mut i: usize = 0;
    while i < htlcs.len()
        invariant
            i <= htlcs.len(),
            kv_store.refusals() == old(kv_store).refusals(),
            kv_store.deferrals() == old(kv_store).deferrals(),
            tallied(
                old(kv_store).contents(),
                *channel_id,
                *rgb_info,
                counterparty,
                htlcs@.take(i as int),
            ) == (kv_store.contents(), Ok::<Tally, Fault>(totals@)),
            still_recorded(
                old(kv_store).contents(),
                kv_store.contents(),
                *channel_id,
                *rgb_info,
                counterparty,
                htlcs@,
                i as int,
            ),
        decreases htlcs.len() - i,
    {
        let ghost next = htlcs@.take(i + 1);
        let ghost before = kv_store.contents();
        proof {
            assert(next.drop_last() =~= htlcs@.take(i as int));
            assert(next.last() == htlcs@[i as int]);
        }
        match totals.add_htlc(channel_id, rgb_info, counterparty, &htlcs[i], kv_store) {
            Ok(t) => {
                totals = t;
                proof {
                    lemma_still_recorded(
                        old(kv_store).contents(),
                        before,
                        kv_store.contents(),
                        *channel_id,
                        *rgb_info,
                        counterparty,
                        htlcs@,
                        i as int,
                    );
                }
            },
            Err(fault) => {
                proof {
                    if kv_store.refusals() == old(kv_store).refusals() {
                        lemma_fault_ends(
                            old(kv_store).contents(),
                            *channel_id,
                            *rgb_info,
                            counterparty,
                            htlcs@,
                            i + 1,
                        );
                    }
                }
                return Err(fault);
            },
        }
        i += 1;
    }
    proof {
        assert(htlcs@.take(i as int) =~= htlcs@);
        lemma_tally_again(
            old(kv_store).contents(),
            kv_store.contents(),
            *channel_id,
            *rgb_info,
            counterparty,
            htlcs@,
            i as int,
        );
        assert forall|j: int|
            0 <= j < htlcs@.len() && htlc_records::colored_amount(
                #[trigger] htlcs@[j],
            ) is Some implies htlc_records::has_record(
            kv_store.contents(),
            *channel_id,
            htlcs@[j].payment_hash,
            htlcs@[j].offered == counterparty,
        ) by {
            let behind = payment_behind(
                old(kv_store).contents(),
                *channel_id,
                *rgb_info,
                counterparty,
                htlcs@,
                j,
            );
            assert(behind is Ok);
        }
    }
    Ok(totals)
}

/// How a commitment transaction is to be colored, given the totals of its HTLCs.
fn plan_coloring(
    channel_context: &ChannelContext,
    funding_scope: &FundingScope,
    commitment_transaction: &CommitmentTransaction,
    counterparty: bool,
    rgb_info: &RgbInfo,
    totals: HtlcTotals,
) -> (r: Result<Option<CommitmentColoring>, Fault>)
    ensures
        viewed(r) == plan_of(
            *channel_context,
            *funding_scope,
            *commitment_transaction,
            counterparty,
            *rgb_info,
            totals@,
        ),
        commitment_transaction.built.transaction.wf() ==> {
            &&& r matches Ok(Some(_)) ==> commitment_transaction.built.transaction.unsigned()
            &&& r matches Err(Fault::NotUnsigned)
                ==> !commitment_transaction.built.transaction.unsigned()
        },
{
    if channel_context.trusted_no_broadcast {
        return Ok(None);
    }
    let (local_amt, remote_amt): (u64, u64) = match totals.last {
        Some(last) => {
            if last.local_rgb_amount < totals.offered || last.remote_rgb_amount < totals.received {
                return Err(Fault::AmountOutOfRange);
            }
            (last.local_rgb_amount - totals.offered, last.remote_rgb_amount - totals.received)
        },
        None => (rgb_info.local_rgb_amount, rgb_info.remote_rgb_amount),
    };
    let (vout_p2wpkh_amt, vout_p2wsh_amt): (u64, u64) = if counterparty {
        (local_amt, remote_amt)
    } else {
        (remote_amt, local_amt)
    };
    let payment_script = if counterparty {
        funding_scope.holder_payment_script.as_slice()
    } else {
        funding_scope.counterparty_payment_script.as_slice()
    };

    let mut output_map = totals.output_map;
    let commitment_tx = &commitment_transaction.built.transaction;
    match counterparty_output_index(&commitment_tx.output, payment_script) {
        Some(vout_p2wpkh) => {
            output_map.insert(vout_p2wpkh as u32, vout_p2wpkh_amt);
        },
        None => {},
    }
    match commitment_transaction.revokeable_output_index {
        Some(vout_p2wsh) => {
            output_map.insert(vout_p2wsh as u32, vout_p2wsh_amt);
        },
        None => {},
    }
    match transaction::to_unsigned_psbt(commitment_tx) {
        Ok(psbt) => Ok(
            Some(
                CommitmentColoring {
                    coloring_info: coloring::coloring_info(rgb_info.contract_id, output_map, None),
                    psbt,
                    holder_amount: local_amt,
                    htlc_amount: if counterparty {
                        totals.offered
                    } else {
                        totals.received
                    },
                },
            ),
        ),
        Err(fault) => Err(fault),
    }
}

/// Prepares a commitment transaction for coloring: records the payments behind its HTLCs, and
/// says how the assets of the channel are to be spread over its outputs.
///
/// Where the parties trust each other not to broadcast, nothing is to be colored. Preparing the
/// same transaction again changes nothing, and comes to the same.
pub fn color_commitment<K: KVStoreSync>(
    channel_context: &ChannelContext,
    funding_scope: &FundingScope,
    commitment_transaction: &CommitmentTransaction,
    counterparty: bool,
    kv_store: &mut K,
) -> (r: Result<Option<CommitmentColoring>, Fault>)
    ensures
        store::settles(
            *old(kv_store),
            *final(kv_store),
            viewed(r),
            prepared(
                old(kv_store).contents(),
                *channel_context,
                *funding_scope,
                *commitment_transaction,
                counterparty,
            ),
        ),
        r is Ok ==> prepared(
            final(kv_store).contents(),
            *channel_context,
            *funding_scope,
            *commitment_transaction,
            counterparty,
        ) == (final(kv_store).contents(), viewed(r)),
        r is Ok ==> all_recorded(
            final(kv_store).contents(),
            channel_context.channel_id,
            counterparty,
            commitment_transaction.nondust_htlcs@,
        ),
        commitment_transaction.built.transaction.wf() ==> {
            &&& r matches Ok(Some(_)) ==> commitment_transaction.built.transaction.unsigned()
            &&& r matches Err(Fault::NotUnsigned)
                ==> !commitment_transaction.built.transaction.unsigned()
        },
{
    let channel_id = channel_context.channel_id;
    let rgb_info = match channel::get_rgb_channel_info_pending(&channel_id, kv_store) {
        Ok(info) => info,
        Err(fault) => {
            return Err(fault);
        },
    };
    proof {
        law_tally_touches_payments_only(
            old(kv_store).contents(),
            channel_id,
            rgb_info,
            counterparty,
            commitment_transaction.nondust_htlcs@,
        );
    }
    let totals = match tally_htlcs(
        &channel_id,
        &rgb_info,
        counterparty,
        &commitment_transaction.nondust_htlcs,
        kv_store,
    ) {
        Ok(totals) => totals,
        Err(fault) => {
            return Err(fault);
        },
    };
    proof {
        channel::lemma_info_kept(
            old(kv_store).contents(),
            kv_store.contents(),
            channel_id.text(),
        );
    }
    plan_coloring(
        channel_context,
        funding_scope,
        commitment_transaction,
        counterparty,
        &rgb_info,
        totals,
    )
}

/// Puts the colored transaction in the place of the one that it was made from, and records what
/// it leaves to the holder.
pub fn finish_commitment<K: KVStoreSync>(
    commitment_transaction: &mut CommitmentTransaction,
    plan: &CommitmentColoring,
    modified_tx: Transaction,
    txid: Txid,
    kv_store: &mut K,
) -> (r: Result<(), Fault>)
    ensures
        final(commitment_transaction).built == (BuiltCommitmentTransaction {
            transaction: modified_tx,
            txid,
        }),
        final(commitment_transaction).nondust_htlcs == old(commitment_transaction).nondust_htlcs,
        final(commitment_transaction).revokeable_output_index == old(
            commitment_transaction,
        ).revokeable_output_index,
        store::settles(
            *old(kv_store),
            *final(kv_store),
            r,
            finished(old(kv_store).contents(), plan@, txid),
        ),
        r is Ok ==> rgb_store::transfer_reading(final(kv_store).contents(), txid.text()) == Ok::<
            TransferInfo,
            Fault,
        >(
            (TransferInfo {
                contract_id: plan.coloring_info.contract_id,
                rgb_amount: (plan.holder_amount + plan.htlc_amount) as u64,
            }),
        ),
{
    commitment_transaction.built = BuiltCommitmentTransaction { transaction: modified_tx, txid };
    match plan.holder_amount.checked_add(plan.htlc_amount) {
        Some(rgb_amount) => coloring::record_transfer(
            &txid,
            plan.coloring_info.contract_id,
            rgb_amount,
            kv_store,
        ),
        None => Err(Fault::AmountOutOfRange),
    }
}

/// The content of a plan is that of its fields.
pub proof fn law_plan_content(plan: CommitmentColoring)
    ensures
        plan@.coloring == plan.coloring_info@,
        plan@.psbt == plan.psbt@,
        plan@.holder_amount == plan.holder_amount,
        plan@.htlc_amount == plan.htlc_amount,
        viewed(Ok(Some(plan))) == Ok::<Option<CommitmentPlan>, Fault>(Some(plan@)),
        viewed(Ok(None)) == Ok::<Option<CommitmentPlan>, Fault>(None),
        forall|fault: Fault| #[trigger]
            viewed(Err(fault)) == Err::<Option<CommitmentPlan>, Fault>(fault),
{
}

/// No HTLCs come to nothing, and leave the store alone.
pub proof fn law_tally_of_none(
    contents: Contents,
    channel: ChannelId,
    info: RgbInfo,
    counterparty: bool,
)
    ensures
        ({
            let (after, result) = tallied(contents, channel, info, counterparty, Seq::empty());
            &&& after == contents
            &&& result matches Ok(tally)
            &&& tally.offered == 0
            &&& tally.received == 0
            &&& tally.last is None
            &&& forall|vout: u32| !(#[trigger] tally.output_map.contains_key(vout))
        }),
{
}

/// An HTLC that carries no assets does not count.
pub proof fn law_tally_skips_uncolored(
    contents: Contents,
    channel: ChannelId,
    info: RgbInfo,
    counterparty: bool,
    htlcs: Seq<HTLCOutputInCommitment>,
    htlc: HTLCOutputInCommitment,
)
    requires
        htlc.rgb_payment matches Some((_, amount)) ==> amount == 0,
    ensures
        tallied(contents, channel, info, counterparty, htlcs.push(htlc)) == tallied(
            contents,
            channel,
            info,
            counterparty,
            htlcs,
        ),
{
    assert(htlcs.push(htlc).drop_last() =~= htlcs);
    assert(htlcs.push(htlc).last() == htlc);
}

/// One more HTLC that carries assets adds the recorded amount of the payment behind it to what is
/// received, where it comes from the other side, and to what is offered, where it goes there. Its
/// output gets that amount, no other output is affected, and its record is the last one.
pub proof fn law_tally_adds_payment(
    contents: Contents,
    channel: ChannelId,
    info: RgbInfo,
    counterparty: bool,
    htlcs: Seq<HTLCOutputInCommitment>,
    htlc: HTLCOutputInCommitment,
    amount: u64,
    vout: u32,
    tally: Tally,
    payment: RgbPaymentInfo,
)
    requires
        amount > 0,
        htlc.rgb_payment matches Some((_, a)) && a == amount,
        htlc.transaction_output_index == Some(vout),
        tallied(contents, channel, info, counterparty, htlcs).1 == Ok::<Tally, Fault>(tally),
        htlc_records::recorded(
            tallied(contents, channel, info, counterparty, htlcs).0,
            channel,
            info,
            htlc.payment_hash,
            amount,
            htlc.offered == counterparty,
        ).1 == Ok::<RgbPaymentInfo, Fault>(payment),
    ensures
        ({
            let before = tallied(contents, channel, info, counterparty, htlcs).0;
            let (after, result) = tallied(
                contents,
                channel,
                info,
                counterparty,
                htlcs.push(htlc),
            );
            let inbound = htlc.offered == counterparty;
            let counted = if inbound {
                tally.received
            } else {
                tally.offered
            };
            &&& after == htlc_records::recorded(
                before,
                channel,
                info,
                htlc.payment_hash,
                amount,
                inbound,
            ).0
            &&& counted + payment.amount > u64::MAX ==> result == Err::<Tally, Fault>(
                Fault::AmountOutOfRange,
            )
            &&& counted + payment.amount <= u64::MAX ==> {
                &&& result matches Ok(more)
                &&& inbound ==> more.received == tally.received + payment.amount && more.offered
                    == tally.offered
                &&& !inbound ==> more.offered == tally.offered + payment.amount && more.received
                    == tally.received
                &&& more.last == Some(payment)
                &&& more.output_map.contains_key(vout)
                &&& more.output_map[vout] == payment.amount
                &&& forall|v: u32|
                    v != vout ==> {
                        &&& #[trigger] more.output_map.contains_key(v)
                            <==> tally.output_map.contains_key(v)
                        &&& tally.output_map.contains_key(v) ==> more.output_map[v]
                            == tally.output_map[v]
                    }
            }
        }),
{
    assert(htlcs.push(htlc).drop_last() =~= htlcs);
    assert(htlcs.push(htlc).last() == htlc);
}

/// A fault stands, whatever HTLCs follow. An HTLC that carries assets and has no output is one, and
/// leaves the store alone; a payment that cannot be recorded is another.
pub proof fn law_tally_faults(
    contents: Contents,
    channel: ChannelId,
    info: RgbInfo,
    counterparty: bool,
    htlcs: Seq<HTLCOutputInCommitment>,
    htlc: HTLCOutputInCommitment,
)
    ensures
        ({
            let (before, known) = tallied(contents, channel, info, counterparty, htlcs);
            let (after, result) = tallied(
                contents,
                channel,
                info,
                counterparty,
                htlcs.push(htlc),
            );
            &&& known is Err ==> (after, result) == (before, known)
            &&& known is Ok ==> (htlc.rgb_payment matches Some((_, amount)) ==> {
                let recording = htlc_records::recorded(
                    before,
                    channel,
                    info,
                    htlc.payment_hash,
                    amount,
                    htlc.offered == counterparty,
                );
                &&& amount > 0 && htlc.transaction_output_index is None ==> after == before
                    && result == Err::<Tally, Fault>(Fault::HtlcWithoutOutput)
                &&& amount > 0 && htlc.transaction_output_index is Some ==> (recording.1 matches Err(
                    fault,
                ) ==> after == recording.0 && result == Err::<Tally, Fault>(fault))
            })
        }),
{
    assert(htlcs.push(htlc).drop_last() =~= htlcs);
    assert(htlcs.push(htlc).last() == htlc);
}

/// Every output of a commitment transaction gets just what belongs there. The revokeable output,
/// where there is one, gets what is left to the side whose commitment transaction it is. The first
/// output with the script of the other side, where there is one that is not the revokeable output,
/// gets what is left to that side, whether or not there is a revokeable output. Every other output
/// gets what the HTLCs come to there, and nothing where they come to nothing.
///
/// `direct` is the place of the first output with the script of the other side, or the number of
/// outputs where there is none.
pub proof fn law_outputs_get_what_belongs_there(
    contents: Contents,
    context: ChannelContext,
    funding: FundingScope,
    commitment: CommitmentTransaction,
    counterparty: bool,
    info: RgbInfo,
    tally: Tally,
    plan: CommitmentPlan,
    direct: int,
)
    requires
        rgb_store::channel_info_at(contents, context.channel_id.text(), true) == Some(info),
        tallied(
            contents,
            context.channel_id,
            info,
            counterparty,
            commitment.nondust_htlcs@,
        ).1 == Ok::<Tally, Fault>(tally),
        prepared(contents, context, funding, commitment, counterparty).1 == Ok::<
            Option<CommitmentPlan>,
            Fault,
        >(Some(plan)),
        ({
            let outputs = commitment.built.transaction.output@;
            let script = if counterparty {
                funding.holder_payment_script@
            } else {
                funding.counterparty_payment_script@
            };
            &&& 0 <= direct <= outputs.len()
            &&& direct < outputs.len() ==> outputs[direct].script_pubkey@ == script
            &&& forall|j: int|
                0 <= j < direct ==> (#[trigger] outputs[j]).script_pubkey@ != script
        }),
    ensures
        ({
            let paid = plan.coloring.output_map;
            let (local, remote) = match tally.last {
                Some(payment) => (
                    payment.local_rgb_amount - tally.offered,
                    payment.remote_rgb_amount - tally.received,
                ),
                None => (info.local_rgb_amount as int, info.remote_rgb_amount as int),
            };
            let at_direct = |vout: u32|
                direct < commitment.built.transaction.output@.len() && vout == direct as u32;
            let at_revokeable = |vout: u32|
                commitment.revokeable_output_index matches Some(place) && vout == place as u32;
            forall|vout: u32|
                {
                    &&& #[trigger] paid.contains_key(vout) <==> at_revokeable(vout) || at_direct(
                        vout,
                    ) || tally.output_map.contains_key(vout)
                    &&& at_revokeable(vout) ==> paid[vout] == if counterparty {
                        remote
                    } else {
                        local
                    }
                    &&& at_direct(vout) && !at_revokeable(vout) ==> paid[vout] == if counterparty {
                        local
                    } else {
                        remote
                    }
                    &&& !at_direct(vout) && !at_revokeable(vout) && tally.output_map.contains_key(
                        vout,
                    ) ==> paid[vout] == tally.output_map[vout]
                }
        }),
{
    let outputs = commitment.built.transaction.output@;
    let script = if counterparty {
        funding.holder_payment_script@
    } else {
        funding.counterparty_payment_script@
    };
    if direct < outputs.len() {
        transaction::lemma_first_is_found(outputs, script, direct);
    } else {
        transaction::lemma_none_is_found(outputs, script);
    }
}

/// A commitment transaction is colored under the contract of the channel, with the static blinding
/// and without a nonce, and goes to the wallet as its unsigned PSBT. What is left to the holder is
/// the local balance without what the holder offers; the HTLCs that count as the holder's are those
/// that it offers, in the counterparty's transaction, and those that it receives, in its own.
pub proof fn law_plan_of_commitment(
    contents: Contents,
    context: ChannelContext,
    funding: FundingScope,
    commitment: CommitmentTransaction,
    counterparty: bool,
    info: RgbInfo,
    tally: Tally,
    plan: CommitmentPlan,
)
    requires
        rgb_store::channel_info_at(contents, context.channel_id.text(), true) == Some(info),
        tallied(
            contents,
            context.channel_id,
            info,
            counterparty,
            commitment.nondust_htlcs@,
        ).1 == Ok::<Tally, Fault>(tally),
        prepared(contents, context, funding, commitment, counterparty).1 == Ok::<
            Option<CommitmentPlan>,
            Fault,
        >(Some(plan)),
    ensures
        plan.coloring.contract_id == info.contract_id,
        plan.coloring.nonce is None,
        plan.coloring.asset_blinding == Some(777u64),
        plan.coloring.static_blinding == Some(777u64),
        transaction::unsigned_psbt(commitment.built.transaction.raw@) == Some(plan.psbt),
        tally.last matches Some(payment) ==> plan.holder_amount + tally.offered
            == payment.local_rgb_amount,
        tally.last is None ==> plan.holder_amount == info.local_rgb_amount,
        counterparty ==> plan.htlc_amount == tally.offered,
        !counterparty ==> plan.htlc_amount == tally.received,
{
}

/// The payments behind the HTLCs are recorded before anything else is decided. Without pending
/// channel info, or with a fault among the HTLCs, nothing is colored. Where the parties trust each
/// other not to broadcast, nothing is to be colored. Otherwise the transaction is colored, unless
/// the balances do not suffice for the HTLCs or it is no unsigned transaction, in this order.
pub proof fn law_when_commitment_is_colored(
    contents: Contents,
    context: ChannelContext,
    funding: FundingScope,
    commitment: CommitmentTransaction,
    counterparty: bool,
)
    ensures
        ({
            let (after, result) = prepared(contents, context, funding, commitment, counterparty);
            match rgb_store::channel_info_at(contents, context.channel_id.text(), true) {
                None => after == contents && result == Err::<Option<CommitmentPlan>, Fault>(
                    Fault::ChannelInfoMissing,
                ),
                Some(info) => {
                    let (counted, tally) = tallied(
                        contents,
                        context.channel_id,
                        info,
                        counterparty,
                        commitment.nondust_htlcs@,
                    );
                    let unsigned = transaction::unsigned_psbt(
                        commitment.built.transaction.raw@,
                    ) is Some;
                    &&& after == counted
                    &&& tally matches Err(fault) ==> result == Err::<Option<CommitmentPlan>, Fault>(
                        fault,
                    )
                    &&& tally matches Ok(t) ==> {
                        let suffices = t.last matches Some(payment) ==> payment.local_rgb_amount
                            >= t.offered && payment.remote_rgb_amount >= t.received;
                        &&& result == Ok::<Option<CommitmentPlan>, Fault>(None)
                            <==> context.trusted_no_broadcast
                        &&& !context.trusted_no_broadcast && !suffices ==> result == Err::<
                            Option<CommitmentPlan>,
                            Fault,
                        >(Fault::AmountOutOfRange)
                        &&& !context.trusted_no_broadcast && suffices && !unsigned ==> result
                            == Err::<Option<CommitmentPlan>, Fault>(Fault::NotUnsigned)
                        &&& !context.trusted_no_broadcast && suffices && unsigned ==> result is Ok
                    }
                },
            }
        }),
{
}

/// A finished commitment transaction is recorded with what is left to the holder and the HTLCs that
/// count as the holder's, under its id and the contract of the plan. Where that sum leaves its
/// range nothing is recorded. Nothing else is touched.
pub proof fn law_finished_commitment_is_recorded(
    contents: Contents,
    plan: CommitmentPlan,
    txid: Txid,
    other: store::StoreKey,
)
    ensures
        ({
            let (after, result) = finished(contents, plan, txid);
            let at = ("rgb"@, "transfer_info"@, txid.text());
            let sum = plan.holder_amount + plan.htlc_amount;
            &&& result is Ok <==> sum <= u64::MAX
            &&& sum > u64::MAX ==> after == contents && result == Err::<(), Fault>(
                Fault::AmountOutOfRange,
            )
            &&& sum <= u64::MAX ==> after.contains_key(at) && after[at] == records::transfer_bytes(
                TransferInfo {
                    contract_id: plan.coloring.contract_id,
                    rgb_amount: sum as u64,
                },
            )
            &&& other != at ==> {
                &&& after.contains_key(other) <==> contents.contains_key(other)
                &&& contents.contains_key(other) ==> after[other] == contents[other]
            }
        }),
{
}

} // verus!
