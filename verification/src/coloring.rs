//! What a wallet is asked to color, and what is recorded of it.

use crate::constants::{RGB_TRANSFER_INFO_NS, STATIC_BLINDING};
use crate::contract_id_serde::ContractId;
use crate::error::Fault;
use crate::records;
use crate::records::TransferInfo;
use crate::rgb_store;
use crate::rgb_store::RgbKvStoreExt;
use crate::store;
use crate::store::{Contents, KVStoreSync};
use crate::transaction::Txid;
use std::collections::HashMap;
use vstd::prelude::*;

verus! {

/// How much of an asset goes to which output.
#[derive(Debug, PartialEq, Eq)]
pub struct AssetColoringInfo {
    /// The amount for each output that gets any
    pub output_map: HashMap<u32, u64>,
    /// The blinding factor of the assignments
    pub static_blinding: Option<u64>,
}

/// How a transaction is to be colored.
#[derive(Debug, PartialEq, Eq)]
pub struct ColoringInfo {
    /// The contract of the asset
    pub contract_id: ContractId,
    /// Where the asset goes
    pub asset_info: AssetColoringInfo,
    /// The blinding factor of the commitment
    pub static_blinding: Option<u64>,
    /// What sets transactions that are colored one after the other apart
    pub nonce: Option<u64>,
}

/// The mathematical content of a [`ColoringInfo`].
pub ghost struct Coloring {
    pub contract_id: ContractId,
    pub output_map: Map<u32, u64>,
    pub asset_blinding: Option<u64>,
    pub static_blinding: Option<u64>,
    pub nonce: Option<u64>,
}

impl View for ColoringInfo {
    type V = Coloring;

    open spec fn view(&self) -> Coloring {
        Coloring {
            contract_id: self.contract_id,
            output_map: self.asset_info.output_map@,
            asset_blinding: self.asset_info.static_blinding,
            static_blinding: self.static_blinding,
            nonce: self.nonce,
        }
    }
}

/// The coloring that sends amounts to outputs, with the static blinding throughout.
pub open spec fn static_coloring(
    contract_id: ContractId,
    output_map: Map<u32, u64>,
    nonce: Option<u64>,
) -> Coloring {
    Coloring {
        contract_id,
        output_map,
        asset_blinding: Some(STATIC_BLINDING),
        static_blinding: Some(STATIC_BLINDING),
        nonce,
    }
}

/// The coloring that sends amounts to outputs, with the static blinding throughout.
pub fn coloring_info(
    contract_id: ContractId,
    output_map: HashMap<u32, u64>,
    nonce: Option<u64>,
) -> (r: ColoringInfo)
    ensures
        r@ == static_coloring(contract_id, output_map@, nonce),
{
    ColoringInfo {
        contract_id,
        asset_info: AssetColoringInfo { output_map, static_blinding: Some(STATIC_BLINDING) },
        static_blinding: Some(STATIC_BLINDING),
        nonce,
    }
}

/// The contents once it is recorded what a colored transaction moves.
pub open spec fn transfer_recorded(
    contents: Contents,
    txid: Txid,
    contract_id: ContractId,
    rgb_amount: u64,
) -> Contents {
    store::put(
        contents,
        RGB_TRANSFER_INFO_NS@,
        txid.text(),
        records::transfer_bytes(TransferInfo { contract_id, rgb_amount }),
    )
}

/// Records what a colored transaction moves. It is found again under the id of the transaction.
pub fn record_transfer<K: KVStoreSync>(
    txid: &Txid,
    contract_id: ContractId,
    rgb_amount: u64,
    kv_store: &mut K,
) -> (r: Result<(), Fault>)
    ensures
        store::settles(
            *old(kv_store),
            *final(kv_store),
            r,
            (
                transfer_recorded(old(kv_store).contents(), *txid, contract_id, rgb_amount),
                Ok(()),
            ),
        ),
        r is Ok ==> rgb_store::transfer_reading(final(kv_store).contents(), txid.text()) == Ok::<
            TransferInfo,
            Fault,
        >((TransferInfo { contract_id, rgb_amount })),
{
    let transfer_info = TransferInfo { contract_id, rgb_amount };
    let key = txid.to_text();
    kv_store.write_rgb_transfer_info(key.as_str(), &transfer_info)
}

/// A coloring names its contract, spreads just the amounts that it is given, and is blinded with
/// the static blinding at both places.
pub proof fn law_static_coloring(
    contract_id: ContractId,
    output_map: Map<u32, u64>,
    nonce: Option<u64>,
)
    ensures
        static_coloring(contract_id, output_map, nonce).contract_id == contract_id,
        static_coloring(contract_id, output_map, nonce).output_map == output_map,
        static_coloring(contract_id, output_map, nonce).nonce == nonce,
        static_coloring(contract_id, output_map, nonce).asset_blinding == Some(777u64),
        static_coloring(contract_id, output_map, nonce).static_blinding == Some(777u64),
{
}

/// The content of a coloring is that of its fields.
pub proof fn law_coloring_content(info: ColoringInfo)
    ensures
        info@.contract_id == info.contract_id,
        info@.output_map == info.asset_info.output_map@,
        info@.asset_blinding == info.asset_info.static_blinding,
        info@.static_blinding == info.static_blinding,
        info@.nonce == info.nonce,
{
}

/// Recording a transfer puts its contract and its amount under the id of the transaction, and
/// touches nothing else.
pub proof fn law_transfer_is_recorded_under_txid(
    contents: Contents,
    txid: Txid,
    contract_id: ContractId,
    rgb_amount: u64,
    other: store::StoreKey,
)
    ensures
        ({
            let after = transfer_recorded(contents, txid, contract_id, rgb_amount);
            let at = ("rgb"@, "transfer_info"@, txid.text());
            &&& after.contains_key(at)
            &&& after[at] == records::transfer_bytes(TransferInfo { contract_id, rgb_amount })
            &&& other != at ==> {
                &&& after.contains_key(other) <==> contents.contains_key(other)
                &&& contents.contains_key(other) ==> after[other] == contents[other]
            }
        }),
{
}

} // verus!
