//! Coloring of closing transactions.

use crate::amounts;
use crate::channel;
use crate::coloring;
use crate::coloring::{Coloring, ColoringInfo};
use crate::error::Fault;
use crate::ids::ChannelId;
use crate::records::{RgbInfo, TransferInfo};
use crate::rgb_store;
use crate::store;
use crate::store::{Contents, KVStoreSync};
use crate::transaction;
use crate::transaction::{Transaction, TxOut, Txid};
use std::collections::HashMap;
use vstd::prelude::*;

verus! {

broadcast use vstd::std_specs::hash::group_hash_axioms;

/// A closing transaction and what it was put together from.
#[derive(Debug, PartialEq, Eq)]
pub struct ClosingTransaction {
    /// The transaction itself
    pub built: Transaction,
    /// What the holder gets, in satoshis
    pub to_holder_value_sat: u64,
    /// What the counterparty gets, in satoshis
    pub to_counterparty_value_sat: u64,
    /// The script that pays the holder
    pub to_holder_script: Vec<u8>,
    /// The script that pays the counterparty
    pub to_counterparty_script: Vec<u8>,
}

/// How a closing transaction is to be colored, and what it leaves to the holder.
#[derive(Debug, PartialEq, Eq)]
pub struct ClosingColoring {
    /// How the transaction is to be colored
    pub coloring_info: ColoringInfo,
    /// The transaction as an unsigned PSBT
    pub psbt: String,
    /// The amount that the transaction leaves to the holder
    pub holder_amount: u64,
}

/// The mathematical content of a [`ClosingColoring`].
pub ghost struct ClosingPlan {
    pub coloring: Coloring,
    pub psbt: Seq<char>,
    pub holder_amount: u64,
}

impl View for ClosingColoring {
    type V = ClosingPlan;

    open spec fn view(&self) -> ClosingPlan {
        ClosingPlan {
            coloring: self.coloring_info@,
            psbt: self.psbt@,
            holder_amount: self.holder_amount,
        }
    }
}

/// The mathematical content of what preparing a closing transaction comes to.
pub open spec fn viewed(r: Result<ClosingColoring, Fault>) -> Result<ClosingPlan, Fault> {
    match r {
        Ok(plan) => Ok(plan@),
        Err(fault) => Err(fault),
    }
}

/// The map with an amount for the party that a script pays. A party that gets no satoshis has no
/// output, and gets no assets; one that gets some must have an output.
pub open spec fn with_party(
    output_map: Map<u32, u64>,
    outputs: Seq<TxOut>,
    value_sat: u64,
    script: Seq<u8>,
    amount: u64,
) -> Option<Map<u32, u64>> {
    if value_sat == 0 {
        Some(output_map)
    } else {
        match transaction::find(outputs, transaction::pays_to(script)) {
            Some(vout) => Some(output_map.insert(vout as u32, amount)),
            None => None,
        }
    }
}

/// The amounts for the outputs of a closing transaction: each party gets its balance.
pub open spec fn closing_map(closing: ClosingTransaction, info: RgbInfo) -> Option<Map<u32, u64>> {
    match with_party(
        Map::empty(),
        closing.built.output@,
        closing.to_holder_value_sat,
        closing.to_holder_script@,
        info.local_rgb_amount,
    ) {
        None => None,
        Some(output_map) => with_party(
            output_map,
            closing.built.output@,
            closing.to_counterparty_value_sat,
            closing.to_counterparty_script@,
            info.remote_rgb_amount,
        ),
    }
}

/// How a closing transaction is to be colored.
pub open spec fn plan_of(contents: Contents, channel: ChannelId, closing: ClosingTransaction) -> Result<
    ClosingPlan,
    Fault,
> {
    match channel::required_info(contents, channel.text(), true) {
        Err(fault) => Err(fault),
        Ok(info) => match closing_map(closing, info) {
            None => Err(Fault::OutputMissing),
            Some(output_map) => match transaction::unsigned_psbt(closing.built.raw@) {
                None => Err(Fault::NotUnsigned),
                Some(psbt) => Ok(
                    ClosingPlan {
                        coloring: coloring::static_coloring(info.contract_id, output_map, None),
                        psbt,
                        holder_amount: info.local_rgb_amount,
                    },
                ),
            },
        },
    }
}

/// Notes the amount for the party that a script pays; false where the party has no output that it
/// must have.
fn add_party(
    output_map: &mut HashMap<u32, u64>,
    outputs: &Vec<TxOut>,
    value_sat: u64,
    script: &Vec<u8>,
    amount: u64,
) -> (r: bool)
    ensures
        match with_party(old(output_map)@, outputs@, value_sat, script@, amount) {
            Some(expected) => r && final(output_map)@ == expected,
            None => !r,
        },
{
    if value_sat > 0 {
        match transaction::output_index(outputs, script.as_slice()) {
            Some(vout) => {
                output_map.insert(vout as u32, amount);
            },
            None => {
                return false;
            },
        }
    }
    true
}

/// Prepares a closing transaction for coloring: each party that is paid gets its balance.
pub fn color_closing<K: KVStoreSync>(
    channel_id: &ChannelId,
    closing_transaction: &ClosingTransaction,
    kv_store: &K,
) -> (r: Result<ClosingColoring, Fault>)
    ensures
        viewed(r) == plan_of(kv_store.contents(), *channel_id, *closing_transaction),
        closing_transaction.built.wf() ==> {
            &&& r is Ok ==> closing_transaction.built.unsigned()
            &&& r matches Err(Fault::NotUnsigned) ==> !closing_transaction.built.unsigned()
        },
{
    let rgb_info = match channel::get_rgb_channel_info_pending(channel_id, kv_store) {
        Ok(info) => info,
        Err(fault) => {
            return Err(fault);
        },
    };
    let holder_vout_amount: u64 = rgb_info.local_rgb_amount;
    let counterparty_vout_amount: u64 = rgb_info.remote_rgb_amount;
    let closing_tx = &closing_transaction.built;

    let mut output_map: HashMap<u32, u64> = HashMap::new();
    if !add_party(
        &mut output_map,
        &closing_tx.output,
        closing_transaction.to_holder_value_sat,
        &closing_transaction.to_holder_script,
        holder_vout_amount,
    ) {
        return Err(Fault::OutputMissing);
    }
    if !add_party(
        &mut output_map,
        &closing_tx.output,
        closing_transaction.to_counterparty_value_sat,
        &closing_transaction.to_counterparty_script,
        counterparty_vout_amount,
    ) {
        return Err(Fault::OutputMissing);
    }
    match transaction::to_unsigned_psbt(closing_tx) {
        Ok(psbt) => Ok(
            ClosingColoring {
                coloring_info: coloring::coloring_info(rgb_info.contract_id, output_map, None),
                psbt,
                holder_amount: holder_vout_amount,
            },
        ),
        Err(fault) => Err(fault),
    }
}

/// Puts the colored transaction in the place of the one that it was made from, and records what
/// it leaves to the holder.
pub fn finish_closing<K: KVStoreSync>(
    closing_transaction: &mut ClosingTransaction,
    plan: &ClosingColoring,
    modified_tx: Transaction,
    txid: Txid,
    kv_store: &mut K,
) -> (r: Result<(), Fault>)
    ensures
        *final(closing_transaction) == (ClosingTransaction {
            built: modified_tx,
            ..*old(closing_transaction)
        }),
        store::settles(
            *old(kv_store),
            *final(kv_store),
            r,
            (
                coloring::transfer_recorded(
                    old(kv_store).contents(),
                    txid,
                    plan.coloring_info.contract_id,
                    plan.holder_amount,
                ),
                Ok(()),
            ),
        ),
        r is Ok ==> rgb_store::transfer_reading(final(kv_store).contents(), txid.text()) == Ok::<
            TransferInfo,
            Fault,
        >(
            (TransferInfo {
                contract_id: plan.coloring_info.contract_id,
                rgb_amount: plan.holder_amount,
            }),
        ),
{
    closing_transaction.built = modified_tx;
    coloring::record_transfer(&txid, plan.coloring_info.contract_id, plan.holder_amount, kv_store)
}

/// Coloring a closing transaction neither creates nor destroys assets: where both parties are
/// paid, at different outputs, the amounts for the outputs sum up to the balances of the channel.
pub proof fn law_closing_spreads_all(
    closing: ClosingTransaction,
    info: RgbInfo,
    holder: nat,
    counterparty: nat,
)
    requires
        closing.to_holder_value_sat > 0,
        closing.to_counterparty_value_sat > 0,
        transaction::find(
            closing.built.output@,
            transaction::pays_to(closing.to_holder_script@),
        ) == Some(holder),
        transaction::find(
            closing.built.output@,
            transaction::pays_to(closing.to_counterparty_script@),
        ) == Some(counterparty),
        holder as u32 != counterparty as u32,
    ensures
        closing_map(closing, info) matches Some(output_map) && amounts::total(output_map)
            == info.local_rgb_amount + info.remote_rgb_amount,
{
    let none = Map::<u32, u64>::empty();
    amounts::lemma_total_empty();
    amounts::lemma_total_insert(none, holder as u32, info.local_rgb_amount);
    amounts::lemma_total_insert(
        none.insert(holder as u32, info.local_rgb_amount),
        counterparty as u32,
        info.remote_rgb_amount,
    );
}

/// The content of a plan is that of its fields.
pub proof fn law_plan_content(plan: ClosingColoring)
    ensures
        plan@.coloring == plan.coloring_info@,
        plan@.psbt == plan.psbt@,
        plan@.holder_amount == plan.holder_amount,
        viewed(Ok(plan)) == Ok::<ClosingPlan, Fault>(plan@),
        forall|fault: Fault| #[trigger] viewed(Err(fault)) == Err::<ClosingPlan, Fault>(fault),
{
}

/// Each party of a closing transaction gets its own balance at its own output: the holder, where
/// it is paid, the local balance at the first output with its script, unless the counterparty is
/// paid there; the counterparty, where it is paid, the remote balance at the first output with its
/// script. No other output gets anything. What is recorded as left to the holder is the local
/// balance.
pub proof fn law_each_party_gets_its_balance(
    contents: Contents,
    channel: ChannelId,
    closing: ClosingTransaction,
    info: RgbInfo,
    plan: ClosingPlan,
    holder: int,
    counterparty: int,
)
    requires
        rgb_store::channel_info_at(contents, channel.text(), true) == Some(info),
        plan_of(contents, channel, closing) == Ok::<ClosingPlan, Fault>(plan),
        closing.to_holder_value_sat > 0 ==> {
            &&& 0 <= holder < closing.built.output@.len()
            &&& closing.built.output@[holder].script_pubkey@ == closing.to_holder_script@
            &&& forall|j: int|
                0 <= j < holder ==> (#[trigger] closing.built.output@[j]).script_pubkey@
                    != closing.to_holder_script@
        },
        closing.to_counterparty_value_sat > 0 ==> {
            &&& 0 <= counterparty < closing.built.output@.len()
            &&& closing.built.output@[counterparty].script_pubkey@
                == closing.to_counterparty_script@
            &&& forall|j: int|
                0 <= j < counterparty ==> (#[trigger] closing.built.output@[j]).script_pubkey@
                    != closing.to_counterparty_script@
        },
    ensures
        ({
            let paid = plan.coloring.output_map;
            let at_holder = |vout: u32| closing.to_holder_value_sat > 0 && vout == holder as u32;
            let at_counterparty = |vout: u32|
                closing.to_counterparty_value_sat > 0 && vout == counterparty as u32;
            forall|vout: u32|
                {
                    &&& #[trigger] paid.contains_key(vout) <==> at_holder(vout) || at_counterparty(
                        vout,
                    )
                    &&& at_counterparty(vout) ==> paid[vout] == info.remote_rgb_amount
                    &&& at_holder(vout) && !at_counterparty(vout) ==> paid[vout]
                        == info.local_rgb_amount
                }
        }),
        plan.holder_amount == info.local_rgb_amount,
        plan.coloring.contract_id == info.contract_id,
        plan.coloring.nonce is None,
        plan.coloring.asset_blinding == Some(777u64),
        plan.coloring.static_blinding == Some(777u64),
        transaction::unsigned_psbt(closing.built.raw@) == Some(plan.psbt),
{
    transaction::law_find_is_first(
        closing.built.output@,
        transaction::pays_to(closing.to_holder_script@),
    );
    transaction::law_find_is_first(
        closing.built.output@,
        transaction::pays_to(closing.to_counterparty_script@),
    );
    if closing.to_holder_value_sat > 0 {
        transaction::lemma_first_is_found(
            closing.built.output@,
            closing.to_holder_script@,
            holder,
        );
    }
    if closing.to_counterparty_value_sat > 0 {
        transaction::lemma_first_is_found(
            closing.built.output@,
            closing.to_counterparty_script@,
            counterparty,
        );
    }
}

/// Preparing a closing transaction fails just where the channel has no pending info, where a party
/// is to be paid and no output has its script, or where it is no unsigned transaction, in this
/// order.
pub proof fn law_when_closing_is_colored(
    contents: Contents,
    channel: ChannelId,
    closing: ClosingTransaction,
)
    ensures
        ({
            let r = plan_of(contents, channel, closing);
            let known = rgb_store::channel_info_at(contents, channel.text(), true) is Some;
            let outputs = closing.built.output@;
            let holder_paid = exists|i: int|
                0 <= i < outputs.len() && (#[trigger] outputs[i]).script_pubkey@
                    == closing.to_holder_script@;
            let counterparty_paid = exists|i: int|
                0 <= i < outputs.len() && (#[trigger] outputs[i]).script_pubkey@
                    == closing.to_counterparty_script@;
            let paid = (closing.to_holder_value_sat > 0 ==> holder_paid) && (
            closing.to_counterparty_value_sat > 0 ==> counterparty_paid);
            let unsigned = transaction::unsigned_psbt(closing.built.raw@) is Some;
            &&& !known ==> r == Err::<ClosingPlan, Fault>(Fault::ChannelInfoMissing)
            &&& known && !paid ==> r == Err::<ClosingPlan, Fault>(Fault::OutputMissing)
            &&& known && paid && !unsigned ==> r == Err::<ClosingPlan, Fault>(Fault::NotUnsigned)
            &&& known && paid && unsigned ==> r is Ok
        }),
{
    let outputs = closing.built.output@;
    transaction::law_find_is_first(outputs, transaction::pays_to(closing.to_holder_script@));
    transaction::law_find_is_first(outputs, transaction::pays_to(closing.to_counterparty_script@));
    assert forall|i: int| 0 <= i < outputs.len() implies {
        &&& transaction::pays_to(closing.to_holder_script@)(#[trigger] outputs[i]) <==> outputs[i].script_pubkey@
            == closing.to_holder_script@
        &&& transaction::pays_to(closing.to_counterparty_script@)(outputs[i])
            <==> outputs[i].script_pubkey@ == closing.to_counterparty_script@
    } by {}
}

} // verus!
