//! Funding of a channel with assets, on the receiving side.

use crate::constants::RGB_CONSIGNMENT_NS;
use crate::contract_id_serde::ContractId;
use crate::error::{ChannelError, Fault};
use crate::ids::ChannelId;
use crate::records;
use crate::records::{AssetSchema, RgbInfo};
use crate::rgb_store;
use crate::rgb_store::RgbKvStoreExt;
use crate::store;
use crate::store::{Contents, KVStoreSync};
use crate::text;
use vstd::prelude::*;

verus! {

/// What a consignment assigns.
#[derive(Clone, Copy, Debug, PartialEq, Eq, Structural)]
pub enum Assignment {
    /// An amount of a fungible asset
    Fungible(u64),
    /// An asset that cannot be divided
    NonFungible,
    /// Something else, such as a right
    Other,
}

/// Why a transfer was not accepted.
#[derive(Debug, PartialEq, Eq)]
pub enum AcceptError {
    /// The consignment is not valid
    InvalidConsignment,
    /// There is no consignment
    NoConsignment,
    /// The schema is not known
    UnknownRgbSchema {
        /// The id of the schema, as it is shown
        schema_id: String,
    },
    /// The schema is not supported
    UnsupportedSchema {
        /// The schema, as it is shown
        asset_schema: String,
    },
    /// The indexer failed
    Indexer {
        /// What the indexer said
        details: String,
    },
    /// The indexer cannot be used
    InvalidIndexer {
        /// What is wrong with the indexer
        details: String,
    },
    /// The network failed
    Network {
        /// What the network said
        details: String,
    },
    /// Anything else
    Other {
        /// The error, as it is shown
        error: String,
    },
}

/// A transfer that was accepted.
#[derive(Debug, PartialEq, Eq)]
pub struct AcceptedTransfer {
    /// The consignment, serialized
    pub consignment: Vec<u8>,
    /// The contract that the consignment is about
    pub contract_id: ContractId,
    /// The schema of the contract, if it is known
    pub schema: Option<AssetSchema>,
    /// What the consignment assigns to the funding output
    pub assignments: Vec<Assignment>,
}

/// The reason with which the channel is closed where the transfer was not accepted.
pub open spec fn refusal_reason(error: AcceptError) -> Seq<char> {
    match error {
        AcceptError::InvalidConsignment => "Invalid RGB consignment for funding"@,
        AcceptError::NoConsignment => "Failed to find RGB consignment"@,
        AcceptError::UnknownRgbSchema { schema_id } => "Unknown RGB schema: "@ + schema_id@,
        AcceptError::UnsupportedSchema { asset_schema } => "Unsupported RGB schema: "@
            + asset_schema@,
        AcceptError::Indexer { details } => "Failed to connect to indexer: "@ + details@,
        AcceptError::InvalidIndexer { details } => "Failed to connect to indexer: "@ + details@,
        AcceptError::Network { details } => "Failed to connect to indexer: "@ + details@,
        AcceptError::Other { error } => "Unexpected error: "@ + error@,
    }
}

/// The mathematical content of what funding comes to: the reason of a close stands for the error.
pub open spec fn viewed(r: Result<Result<(), ChannelError>, Fault>) -> Result<
    Result<(), Seq<char>>,
    Fault,
> {
    match r {
        Ok(Ok(_)) => Ok(Ok(())),
        Ok(Err(ChannelError::Close(reason))) => Ok(Err(reason@)),
        Err(fault) => Err(fault),
    }
}

/// The amount that is assigned; none where it is neither fungible nor non-fungible.
pub open spec fn assigned_amount(assignment: Assignment) -> Option<u64> {
    match assignment {
        Assignment::Fungible(amount) => Some(amount),
        Assignment::NonFungible => Some(1),
        Assignment::Other => None,
    }
}

/// The info of a new channel: what is pushed is the holder's, and the rest the counterparty's.
pub open spec fn funded_info(transfer: AcceptedTransfer, push: u64) -> Result<RgbInfo, Fault> {
    match assigned_amount(transfer.assignments@[0]) {
        None => Err(Fault::UnsupportedAssignment),
        Some(amount) => match transfer.schema {
            None => Err(Fault::UnknownSchema),
            Some(schema) => if push > amount {
                Err(Fault::AmountOutOfRange)
            } else {
                Ok(
                    RgbInfo {
                        contract_id: transfer.contract_id,
                        schema,
                        local_rgb_amount: push,
                        remote_rgb_amount: (amount - push) as u64,
                    },
                )
            },
        },
    }
}

/// The contents with a consignment under the id of the funding transaction and under that of the
/// channel.
pub open spec fn with_consignment(
    contents: Contents,
    txid: Seq<char>,
    channel: Seq<char>,
    consignment: Seq<u8>,
) -> Contents {
    store::put(
        store::put(contents, RGB_CONSIGNMENT_NS@, txid, consignment),
        RGB_CONSIGNMENT_NS@,
        channel,
        consignment,
    )
}

/// The contents once a channel has been funded, and what that comes to.
pub open spec fn funded(
    contents: Contents,
    channel: Seq<char>,
    txid: Seq<char>,
    outcome: Result<AcceptedTransfer, AcceptError>,
    push_asset_amount: Option<u64>,
) -> (Contents, Result<Result<(), Seq<char>>, Fault>) {
    match outcome {
        Err(error) => (contents, Ok(Err(refusal_reason(error)))),
        Ok(transfer) => {
            let after = with_consignment(contents, txid, channel, transfer.consignment@);
            if transfer.assignments@.len() != 1 {
                (
                    after,
                    Ok(
                        Err(
                            "Unexpected number of RGB assignments: "@ + text::decimal(
                                transfer.assignments@.len(),
                            ),
                        ),
                    ),
                )
            } else {
                let push = match push_asset_amount {
                    Some(amount) => amount,
                    None => 0,
                };
                match funded_info(transfer, push) {
                    Err(fault) => (after, Err(fault)),
                    Ok(info) => (
                        store::put(
                            store::put(
                                after,
                                store::channel_ns(true),
                                channel,
                                records::info_bytes(info),
                            ),
                            store::channel_ns(false),
                            channel,
                            records::info_bytes(info),
                        ),
                        Ok(Ok(())),
                    ),
                }
            }
        },
    }
}

/// Funding hands out all that is assigned, and no more: the two balances of the new channel sum
/// up to the amount that the transfer assigns.
pub proof fn law_funding_splits_all(transfer: AcceptedTransfer, push: u64)
    ensures
        funded_info(transfer, push) matches Ok(info) ==> {
            &&& assigned_amount(transfer.assignments@[0]) == Some(
                (info.local_rgb_amount + info.remote_rgb_amount) as u64,
            )
            &&& info.local_rgb_amount + info.remote_rgb_amount <= u64::MAX
            &&& info.local_rgb_amount == push
            &&& info.contract_id == transfer.contract_id
        },
{
}

/// A transfer that is not accepted leaves no trace, and closes the channel with a reason.
pub proof fn law_refused_transfer_leaves_no_trace(
    contents: Contents,
    channel: Seq<char>,
    txid: Seq<char>,
    error: AcceptError,
    push_asset_amount: Option<u64>,
)
    ensures
        funded(contents, channel, txid, Err(error), push_asset_amount) == (
            contents,
            Ok::<Result<(), Seq<char>>, Fault>(Err(refusal_reason(error))),
        ),
{
}

/// A channel that is not funded has the info that it had before.
pub proof fn law_failed_funding_keeps_info(
    contents: Contents,
    channel: Seq<char>,
    txid: Seq<char>,
    outcome: Result<AcceptedTransfer, AcceptError>,
    push_asset_amount: Option<u64>,
    id: Seq<char>,
    pending: bool,
)
    requires
        !(funded(contents, channel, txid, outcome, push_asset_amount).1 matches Ok(Ok(_))),
    ensures
        rgb_store::channel_info_at(
            funded(contents, channel, txid, outcome, push_asset_amount).0,
            id,
            pending,
        ) == rgb_store::channel_info_at(contents, id, pending),
{
    store::lemma_record_namespaces();
}

/// The reason with which the channel is closed where the transfer was not accepted.
pub fn refusal_text(error: &AcceptError) -> (r: String)
    ensures
        r@ == refusal_reason(*error),
{
    match error {
        AcceptError::InvalidConsignment => "Invalid RGB consignment for funding".to_owned(),
        AcceptError::NoConsignment => "Failed to find RGB consignment".to_owned(),
        AcceptError::UnknownRgbSchema { schema_id } => text::join(
            "Unknown RGB schema: ",
            schema_id.as_str(),
        ),
        AcceptError::UnsupportedSchema { asset_schema } => text::join(
            "Unsupported RGB schema: ",
            asset_schema.as_str(),
        ),
        AcceptError::Indexer { details } => text::join(
            "Failed to connect to indexer: ",
            details.as_str(),
        ),
        AcceptError::InvalidIndexer { details } => text::join(
            "Failed to connect to indexer: ",
            details.as_str(),
        ),
        AcceptError::Network { details } => text::join(
            "Failed to connect to indexer: ",
            details.as_str(),
        ),
        AcceptError::Other { error } => text::join("Unexpected error: ", error.as_str()),
    }
}

/// The info of a new channel, from a transfer with a single assignment.
fn new_channel_info(transfer: &AcceptedTransfer, push_amount: u64) -> (r: Result<
    RgbInfo,
    Fault,
>)
    requires
        transfer.assignments@.len() == 1,
    ensures
        r == funded_info(*transfer, push_amount),
{
    let channel_rgb_amount: u64 = match transfer.assignments[0] {
        Assignment::Fungible(amount) => amount,
        Assignment::NonFungible => 1,
        Assignment::Other => {
            return Err(Fault::UnsupportedAssignment);
        },
    };
    let schema = match transfer.schema {
        Some(schema) => schema,
        None => {
            return Err(Fault::UnknownSchema);
        },
    };
    if push_amount > channel_rgb_amount {
        return Err(Fault::AmountOutOfRange);
    }
    Ok(
        RgbInfo {
            contract_id: transfer.contract_id,
            schema,
            local_rgb_amount: push_amount,
            remote_rgb_amount: channel_rgb_amount - push_amount,
        },
    )
}

/// Handles funding on the receiver side, given whether the wallet accepted the transfer.
///
/// The inner result is what the counterparty is told.
pub fn handle_funding<K: KVStoreSync>(
    temporary_channel_id: &ChannelId,
    funding_txid: &str,
    accept_res: Result<AcceptedTransfer, AcceptError>,
    push_asset_amount: Option<u64>,
    kv_store: &mut K,
) -> (r: Result<Result<(), ChannelError>, Fault>)
    ensures
        store::settles(
            *old(kv_store),
            *final(kv_store),
            viewed(r),
            funded(
                old(kv_store).contents(),
                temporary_channel_id.text(),
                funding_txid@,
                accept_res,
                push_asset_amount,
            ),
        ),
        accept_res is Err ==> *final(kv_store) == *old(kv_store),
        r matches Ok(Ok(_)) ==> {
            let transfer = accept_res->Ok_0;
            let channel = temporary_channel_id.text();
            let push = match push_asset_amount {
                Some(amount) => amount,
                None => 0,
            };
            &&& funded_info(transfer, push) matches Ok(info)
            &&& rgb_store::channel_info_at(final(kv_store).contents(), channel, true) == Some(info)
            &&& rgb_store::channel_info_at(final(kv_store).contents(), channel, false) == Some(info)
            &&& store::lookup(final(kv_store).contents(), RGB_CONSIGNMENT_NS@, funding_txid@)
                == Some(transfer.consignment@)
            &&& store::lookup(final(kv_store).contents(), RGB_CONSIGNMENT_NS@, channel) == Some(
                transfer.consignment@,
            )
        },
{
    let transfer = match accept_res {
        Ok(transfer) => transfer,
        Err(error) => {
            return Ok(Err(ChannelError::close(refusal_text(&error))));
        },
    };
    let temp_chan_id = temporary_channel_id.to_text();
    match kv_store.write_rgb_consignment(funding_txid, transfer.consignment.clone()) {
        Ok(_) => {},
        Err(fault) => {
            return Err(fault);
        },
    }
    match kv_store.write_rgb_consignment(temp_chan_id.as_str(), transfer.consignment.clone()) {
        Ok(_) => {},
        Err(fault) => {
            return Err(fault);
        },
    }

    if transfer.assignments.len() != 1 {
        let count = text::decimal_text(transfer.assignments.len());
        return Ok(
            Err(
                ChannelError::close(
                    text::join("Unexpected number of RGB assignments: ", count.as_str()),
                ),
            ),
        );
    }
    let push_amount: u64 = match push_asset_amount {
        Some(amount) => amount,
        None => 0,
    };
    let rgb_info = match new_channel_info(&transfer, push_amount) {
        Ok(info) => info,
        Err(fault) => {
            return Err(fault);
        },
    };
    match kv_store.write_rgb_channel_info(temp_chan_id.as_str(), &rgb_info, true) {
        Ok(_) => {},
        Err(fault) => {
            return Err(fault);
        },
    }
    match kv_store.write_rgb_channel_info(temp_chan_id.as_str(), &rgb_info, false) {
        Ok(_) => {},
        Err(fault) => {
            return Err(fault);
        },
    }
    proof {
        store::lemma_record_namespaces();
    }
    Ok(Ok(()))
}

/// The content of what funding comes to is that of its parts.
pub proof fn law_outcome_content(reason: String)
    ensures
        viewed(Ok(Ok(()))) == Ok::<Result<(), Seq<char>>, Fault>(Ok(())),
        viewed(Ok(Err(ChannelError::Close(reason)))) == Ok::<Result<(), Seq<char>>, Fault>(
            Err(reason@),
        ),
        forall|fault: Fault| #[trigger]
            viewed(Err(fault)) == Err::<Result<(), Seq<char>>, Fault>(fault),
{
}

/// The counterparty is told why the transfer was not accepted, with what the wallet said of it.
pub proof fn law_refusals_say_why(details: String)
    ensures
        refusal_reason(AcceptError::InvalidConsignment) == "Invalid RGB consignment for funding"@,
        refusal_reason(AcceptError::NoConsignment) == "Failed to find RGB consignment"@,
        refusal_reason(AcceptError::UnknownRgbSchema { schema_id: details })
            == "Unknown RGB schema: "@ + details@,
        refusal_reason(AcceptError::UnsupportedSchema { asset_schema: details })
            == "Unsupported RGB schema: "@ + details@,
        refusal_reason(AcceptError::Indexer { details }) == "Failed to connect to indexer: "@
            + details@,
        refusal_reason(AcceptError::InvalidIndexer { details }) == "Failed to connect to indexer: "@
            + details@,
        refusal_reason(AcceptError::Network { details }) == "Failed to connect to indexer: "@
            + details@,
        refusal_reason(AcceptError::Other { error: details }) == "Unexpected error: "@ + details@,
{
}

/// A channel is funded just where the transfer is accepted with a single assignment, of a fungible
/// amount or of an indivisible asset, which counts as one, under a known schema, and where no more
/// is pushed than is assigned. Its info, pending and settled, then has the contract and the schema
/// of the transfer; what is pushed is the holder's, and the rest is the counterparty's.
pub proof fn law_funded_info_is_that_of_the_transfer(
    contents: Contents,
    channel: Seq<char>,
    txid: Seq<char>,
    outcome: Result<AcceptedTransfer, AcceptError>,
    push_asset_amount: Option<u64>,
)
    ensures
        ({
            let (after, result) = funded(contents, channel, txid, outcome, push_asset_amount);
            let push: u64 = match push_asset_amount {
                Some(amount) => amount,
                None => 0,
            };
            let assigns = |amount: u64|
                outcome matches Ok(transfer) && transfer.assignments@.len() == 1 && (
                transfer.assignments@[0] == Assignment::Fungible(amount) || (
                transfer.assignments@[0] == Assignment::NonFungible && amount == 1));
            &&& result == Ok::<Result<(), Seq<char>>, Fault>(Ok(())) <==> {
                &&& outcome matches Ok(transfer)
                &&& transfer.schema is Some
                &&& exists|amount: u64| #[trigger] assigns(amount) && push <= amount
            }
            &&& result == Ok::<Result<(), Seq<char>>, Fault>(Ok(())) ==> exists|
                info: RgbInfo,
                amount: u64,
            |
                {
                    &&& #[trigger] assigns(amount)
                    &&& outcome->Ok_0.schema == Some(info.schema)
                    &&& info.contract_id == outcome->Ok_0.contract_id
                    &&& info.local_rgb_amount == push
                    &&& info.local_rgb_amount + info.remote_rgb_amount == amount
                    &&& after.contains_key(("rgb"@, "channel_info"@, channel))
                    &&& after[("rgb"@, "channel_info"@, channel)] == #[trigger] records::info_bytes(
                        info,
                    )
                    &&& after.contains_key(("rgb"@, "channel_info_pending"@, channel))
                    &&& after[("rgb"@, "channel_info_pending"@, channel)] == records::info_bytes(
                        info,
                    )
                }
        }),
{
    store::lemma_record_namespaces();
    let push: u64 = match push_asset_amount {
        Some(amount) => amount,
        None => 0,
    };
    let assigns = |amount: u64|
        outcome matches Ok(transfer) && transfer.assignments@.len() == 1 && (
        transfer.assignments@[0] == Assignment::Fungible(amount) || (transfer.assignments@[0]
            == Assignment::NonFungible && amount == 1));
    let (after, result) = funded(contents, channel, txid, outcome, push_asset_amount);
    if outcome is Ok && outcome->Ok_0.assignments@.len() == 1 {
        let transfer = outcome->Ok_0;
        match assigned_amount(transfer.assignments@[0]) {
            Some(amount) => {
                assert(assigns(amount));
                assert forall|a: u64| #[trigger] assigns(a) implies a == amount by {}
                match funded_info(transfer, push) {
                    Ok(info) => {
                        assert(after[("rgb"@, "channel_info"@, channel)] == records::info_bytes(
                            info,
                        ));
                    },
                    Err(_) => {},
                }
            },
            None => {
                assert forall|a: u64| !(#[trigger] assigns(a)) by {}
            },
        }
    } else {
        assert forall|a: u64| !(#[trigger] assigns(a)) by {}
    }
}

/// The schema of a funded channel is that of the transfer that funds it, and so is the contract;
/// what is pushed is the holder's.
pub proof fn law_funded_schema_is_that_of_the_transfer(transfer: AcceptedTransfer, push: u64)
    ensures
        funded_info(transfer, push) matches Ok(info) ==> {
            &&& transfer.schema == Some(info.schema)
            &&& info.contract_id == transfer.contract_id
            &&& info.local_rgb_amount == push
            &&& transfer.assignments@[0] matches Assignment::Fungible(amount)
                ==> info.remote_rgb_amount == amount - push
            &&& transfer.assignments@[0] == Assignment::NonFungible ==> info.remote_rgb_amount == 1
                - push
            &&& transfer.assignments@[0] != Assignment::Other
        },
{
}

/// The consignment of an accepted transfer is kept under the funding transaction and under the
/// channel, even where the channel is not funded in the end. The info of a channel that is funded is
/// kept under the channel. No other data is touched.
pub proof fn law_funding_keeps_consignment(
    contents: Contents,
    channel: Seq<char>,
    txid: Seq<char>,
    transfer: AcceptedTransfer,
    push_asset_amount: Option<u64>,
    other: store::StoreKey,
)
    ensures
        ({
            let (after, result) = funded(contents, channel, txid, Ok(transfer), push_asset_amount);
            let by_txid = ("rgb"@, "consignment"@, txid);
            let by_channel = ("rgb"@, "consignment"@, channel);
            let info = ("rgb"@, "channel_info"@, channel);
            let info_pending = ("rgb"@, "channel_info_pending"@, channel);
            &&& after.contains_key(by_txid) && after[by_txid] == transfer.consignment@
            &&& after.contains_key(by_channel) && after[by_channel] == transfer.consignment@
            &&& other != by_txid && other != by_channel && (other != info && other != info_pending
                || !(result matches Ok(Ok(_)))) ==> {
                &&& after.contains_key(other) <==> contents.contains_key(other)
                &&& contents.contains_key(other) ==> after[other] == contents[other]
            }
        }),
{
    store::lemma_record_namespaces();
}

/// Where an accepted transfer does not fund the channel, that is because of the number of its
/// assignments, which closes the channel, or else because of the kind of the assignment, of an
/// unknown schema, or of a push that is too large, in this order.
pub proof fn law_why_funding_fails(
    contents: Contents,
    channel: Seq<char>,
    txid: Seq<char>,
    transfer: AcceptedTransfer,
    push: u64,
)
    ensures
        ({
            let result = funded(contents, channel, txid, Ok(transfer), Some(push)).1;
            let count = transfer.assignments@.len();
            let first = transfer.assignments@[0];
            &&& count != 1 ==> result == Ok::<Result<(), Seq<char>>, Fault>(
                Err("Unexpected number of RGB assignments: "@ + text::decimal(count)),
            )
            &&& count == 1 && first == Assignment::Other ==> result == Err::<
                Result<(), Seq<char>>,
                Fault,
            >(Fault::UnsupportedAssignment)
            &&& count == 1 && first != Assignment::Other && transfer.schema is None ==> result
                == Err::<Result<(), Seq<char>>, Fault>(Fault::UnknownSchema)
            &&& count == 1 && transfer.schema is Some ==> (first matches Assignment::Fungible(amount)
                ==> (result == Err::<Result<(), Seq<char>>, Fault>(Fault::AmountOutOfRange)
                <==> push > amount))
            &&& count == 1 && transfer.schema is Some && first == Assignment::NonFungible ==> (
            result == Err::<Result<(), Seq<char>>, Fault>(Fault::AmountOutOfRange) <==> push > 1)
            &&& funded(contents, channel, txid, Ok(transfer), None) == funded(
                contents,
                channel,
                txid,
                Ok(transfer),
                Some(0),
            )
        }),
{
}

} // verus!
