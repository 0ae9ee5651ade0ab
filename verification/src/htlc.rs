//! Coloring of HTLC transactions.

use crate::amounts;
use crate::coloring;
use crate::coloring::{Coloring, ColoringInfo};
use crate::error::Fault;
use crate::htlc_records;
use crate::htlc_records::HTLCOutputInCommitment;
use crate::records::TransferInfo;
use crate::rgb_store;
use crate::rgb_store::RgbKvStoreExt;
use crate::store;
use crate::store::{Contents, KVStoreSync};
use crate::transaction;
use crate::transaction::{Transaction, Txid};
use std::collections::HashMap;
use vstd::prelude::*;

verus! {

broadcast use vstd::std_specs::hash::group_hash_axioms;

/// How an HTLC transaction is to be colored, and what it moves.
#[derive(Debug, PartialEq, Eq)]
pub struct HtlcColoring {
    /// How the transaction is to be colored
    pub coloring_info: ColoringInfo,
    /// The transaction as an unsigned PSBT
    pub psbt: String,
    /// The amount that the transaction moves
    pub rgb_amount: u64,
}

/// The mathematical content of an [`HtlcColoring`].
pub ghost struct HtlcPlan {
    pub coloring: Coloring,
    pub psbt: Seq<char>,
    pub rgb_amount: u64,
}

impl View for HtlcColoring {
    type V = HtlcPlan;

    open spec fn view(&self) -> HtlcPlan {
        HtlcPlan {
            coloring: self.coloring_info@,
            psbt: self.psbt@,
            rgb_amount: self.rgb_amount,
        }
    }
}

/// The mathematical content of what preparing an HTLC transaction comes to.
pub open spec fn viewed(r: Result<Option<HtlcColoring>, Fault>) -> Result<Option<HtlcPlan>, Fault> {
    match r {
        Ok(Some(plan)) => Ok(Some(plan@)),
        Ok(None) => Ok(None),
        Err(fault) => Err(fault),
    }
}

/// How an HTLC transaction is to be colored: all assets of the HTLC go to the first output. The
/// contract is that of the commitment transaction whose output the transaction spends.
pub open spec fn plan_of(contents: Contents, htlc_tx: Transaction, htlc: HTLCOutputInCommitment) -> Result<
    Option<HtlcPlan>,
    Fault,
> {
    match htlc_records::colored_amount(htlc) {
        None => Ok(None),
        Some(amount) => if htlc_tx.input@.len() == 0 {
            Err(Fault::InputMissing)
        } else {
            let commitment_txid = htlc_tx.input@[0].previous_output.txid.text();
            match rgb_store::transfer_reading(contents, commitment_txid) {
                Err(fault) => Err(fault),
                Ok(transfer) => match transaction::unsigned_psbt(htlc_tx.raw@) {
                    None => Err(Fault::NotUnsigned),
                    Some(psbt) => Ok(
                        Some(
                            HtlcPlan {
                                coloring: coloring::static_coloring(
                                    transfer.contract_id,
                                    Map::empty().insert(0, amount),
                                    Some(1),
                                ),
                                psbt,
                                rgb_amount: amount,
                            },
                        ),
                    ),
                },
            }
        },
    }
}

/// Prepares an HTLC transaction for coloring. Where the HTLC carries no assets, nothing is to be
/// colored.
pub fn color_htlc<K: KVStoreSync>(
    htlc_tx: &Transaction,
    htlc: &HTLCOutputInCommitment,
    kv_store: &K,
) -> (r: Result<Option<HtlcColoring>, Fault>)
    ensures
        viewed(r) == plan_of(kv_store.contents(), *htlc_tx, *htlc),
        htlc_tx.wf() ==> {
            &&& r matches Ok(Some(_)) ==> htlc_tx.unsigned()
            &&& r matches Err(Fault::NotUnsigned) ==> !htlc_tx.unsigned()
        },
{
    let htlc_amount_rgb: u64 = match htlc.rgb_amount() {
        Some(amount) => amount,
        None => {
            return Ok(None);
        },
    };
    if htlc_tx.input.len() == 0 {
        return Err(Fault::InputMissing);
    }
    let commitment_txid = htlc_tx.input[0].previous_output.txid.to_text();
    let transfer_info = match kv_store.read_rgb_transfer_info(commitment_txid.as_str()) {
        Ok(info) => info,
        Err(fault) => {
            return Err(fault);
        },
    };
    let contract_id = transfer_info.contract_id;
    let mut output_map: HashMap<u32, u64> = HashMap::new();
    output_map.insert(0, htlc_amount_rgb);
    match transaction::to_unsigned_psbt(htlc_tx) {
        Ok(psbt) => Ok(
            Some(
                HtlcColoring {
                    coloring_info: coloring::coloring_info(contract_id, output_map, Some(1)),
                    psbt,
                    rgb_amount: htlc_amount_rgb,
                },
            ),
        ),
        Err(fault) => Err(fault),
    }
}

/// Puts the colored transaction in the place of the one that it was made from, and records what
/// it moves.
pub fn finish_htlc<K: KVStoreSync>(
    htlc_tx: &mut Transaction,
    plan: &HtlcColoring,
    modified_tx: Transaction,
    txid: Txid,
    kv_store: &mut K,
) -> (r: Result<(), Fault>)
    ensures
        *final(htlc_tx) == modified_tx,
        store::settles(
            *old(kv_store),
            *final(kv_store),
            r,
            (
                coloring::transfer_recorded(
                    old(kv_store).contents(),
                    txid,
                    plan.coloring_info.contract_id,
                    plan.rgb_amount,
                ),
                Ok(()),
            ),
        ),
        r is Ok ==> rgb_store::transfer_reading(final(kv_store).contents(), txid.text()) == Ok::<
            TransferInfo,
            Fault,
        >(
            (TransferInfo {
                contract_id: plan.coloring_info.contract_id,
                rgb_amount: plan.rgb_amount,
            }),
        ),
{
    *htlc_tx = modified_tx;
    coloring::record_transfer(&txid, plan.coloring_info.contract_id, plan.rgb_amount, kv_store)
}

/// An HTLC transaction hands on all assets of the HTLC, under the contract that the commitment
/// transaction was colored with.
pub proof fn law_htlc_hands_on_all(
    contents: Contents,
    htlc_tx: Transaction,
    htlc: HTLCOutputInCommitment,
    plan: HtlcPlan,
)
    requires
        plan_of(contents, htlc_tx, htlc) == Ok::<Option<HtlcPlan>, Fault>(Some(plan)),
    ensures
        htlc_records::colored_amount(htlc) == Some(plan.rgb_amount),
        amounts::total(plan.coloring.output_map) == plan.rgb_amount,
        rgb_store::transfer_reading(
            contents,
            htlc_tx.input@[0].previous_output.txid.text(),
        ) matches Ok(transfer) && transfer.contract_id == plan.coloring.contract_id,
{
    amounts::lemma_total_empty();
    amounts::lemma_total_insert(Map::empty(), 0, plan.rgb_amount);
}

/// The content of a plan is that of its fields.
pub proof fn law_plan_content(plan: HtlcColoring)
    ensures
        plan@.coloring == plan.coloring_info@,
        plan@.psbt == plan.psbt@,
        plan@.rgb_amount == plan.rgb_amount,
        viewed(Ok(Some(plan))) == Ok::<Option<HtlcPlan>, Fault>(Some(plan@)),
        viewed(Ok(None)) == Ok::<Option<HtlcPlan>, Fault>(None),
        forall|fault: Fault| #[trigger]
            viewed(Err(fault)) == Err::<Option<HtlcPlan>, Fault>(fault),
{
}

/// All assets of an HTLC go to the first output of the HTLC transaction, and to no other, wherever
/// the HTLC is in the commitment transaction. The contract is that of the transfer that the
/// commitment transaction is recorded with, and the PSBT is that of the HTLC transaction.
pub proof fn law_htlc_assets_go_to_first_output(
    contents: Contents,
    htlc_tx: Transaction,
    htlc: HTLCOutputInCommitment,
    plan: HtlcPlan,
)
    requires
        plan_of(contents, htlc_tx, htlc) == Ok::<Option<HtlcPlan>, Fault>(Some(plan)),
    ensures
        htlc.rgb_payment matches Some((_, amount)) && {
            &&& amount > 0
            &&& plan.rgb_amount == amount
            &&& plan.coloring.output_map.contains_key(0)
            &&& plan.coloring.output_map[0] == amount
            &&& forall|vout: u32|
                vout != 0 ==> !(#[trigger] plan.coloring.output_map.contains_key(vout))
        },
        htlc_tx.input@.len() > 0,
        rgb_store::transfer_reading(
            contents,
            htlc_tx.input@[0].previous_output.txid.text(),
        ) matches Ok(transfer) && plan.coloring.contract_id == transfer.contract_id,
        transaction::unsigned_psbt(htlc_tx.raw@) == Some(plan.psbt),
        plan.coloring.nonce == Some(1u64),
        plan.coloring.asset_blinding == Some(777u64),
        plan.coloring.static_blinding == Some(777u64),
{
}

/// An HTLC transaction is colored just where the HTLC carries assets, and preparing it fails just
/// where it has no input, where the commitment transaction has no valid transfer record, or where
/// it is no unsigned transaction, in this order.
pub proof fn law_when_htlc_is_colored(
    contents: Contents,
    htlc_tx: Transaction,
    htlc: HTLCOutputInCommitment,
)
    ensures
        ({
            let r = plan_of(contents, htlc_tx, htlc);
            let carries = htlc.rgb_payment matches Some((_, amount)) && amount > 0;
            let reading = rgb_store::transfer_reading(
                contents,
                htlc_tx.input@[0].previous_output.txid.text(),
            );
            &&& r == Ok::<Option<HtlcPlan>, Fault>(None) <==> !carries
            &&& carries && htlc_tx.input@.len() == 0 ==> r == Err::<Option<HtlcPlan>, Fault>(
                Fault::InputMissing,
            )
            &&& carries && htlc_tx.input@.len() > 0 ==> (reading matches Err(fault) ==> r == Err::<
                Option<HtlcPlan>,
                Fault,
            >(fault))
            &&& carries && htlc_tx.input@.len() > 0 && reading is Ok ==> (
            transaction::unsigned_psbt(htlc_tx.raw@) is None ==> r == Err::<
                Option<HtlcPlan>,
                Fault,
            >(Fault::NotUnsigned))
            &&& carries && htlc_tx.input@.len() > 0 && reading is Ok ==> (
            transaction::unsigned_psbt(htlc_tx.raw@) is Some ==> r is Ok)
        }),
{
}

} // verus!
