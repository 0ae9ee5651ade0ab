//! What is recorded of a channel and of the payments through it.

use crate::constants::{RGB_CONSIGNMENT_NS, RGB_PRIMARY_NS};
use crate::contract_id_serde::ContractId;
use crate::error::Fault;
use crate::ids::{ChannelId, PaymentHash};
use crate::records;
use crate::records::{RgbInfo, RgbPaymentInfo};
use crate::rgb_store;
use crate::rgb_store::RgbKvStoreExt;
use crate::store;
use crate::store::{Contents, KVStoreSync};
use crate::text;
use vstd::prelude::*;

verus! {

/// The channel info that must be in the store.
pub open spec fn required_info(contents: Contents, id: Seq<char>, pending: bool) -> Result<
    RgbInfo,
    Fault,
> {
    match rgb_store::channel_info_at(contents, id, pending) {
        Some(info) => Ok(info),
        None => Err(Fault::ChannelInfoMissing),
    }
}

/// Channel info is kept where payment info alone changes.
pub proof fn lemma_info_kept(before: Contents, after: Contents, id: Seq<char>)
    requires
        store::same_but_payments(before, after),
    ensures
        forall|pending: bool|
            required_info(after, id, pending) == #[trigger] required_info(before, id, pending),
{
    store::lemma_record_namespaces();
    assert forall|pending: bool|
        required_info(after, id, pending) == #[trigger] required_info(before, id, pending) by {
        let at = store::rgb_key(store::channel_ns(pending), id);
        assert(after.contains_key(at) == before.contains_key(at));
    }
}

/// Gets channel info from the store, which must hold it.
pub fn get_rgb_channel_info<K: KVStoreSync>(channel_id: &str, pending: bool, kv_store: &K) -> (r:
    Result<RgbInfo, Fault>)
    ensures
        r == required_info(kv_store.contents(), channel_id@, pending),
{
    match kv_store.read_rgb_channel_info(channel_id, pending) {
        Ok(info) => Ok(info),
        Err(_) => Err(Fault::ChannelInfoMissing),
    }
}

/// Gets pending channel info from the store, which must hold it.
pub fn get_rgb_channel_info_pending<K: KVStoreSync>(channel_id: &ChannelId, kv_store: &K) -> (r:
    Result<RgbInfo, Fault>)
    ensures
        r == required_info(kv_store.contents(), channel_id.text(), true),
{
    let id = channel_id.to_text();
    get_rgb_channel_info(id.as_str(), true, kv_store)
}

/// Whether the channel has RGB data in the store.
pub fn is_channel_rgb<K: KVStoreSync>(channel_id: &ChannelId, kv_store: &K) -> (r: bool)
    ensures
        r == (rgb_store::channel_info_at(kv_store.contents(), channel_id.text(), false) is Some),
{
    let id = channel_id.to_text();
    kv_store.read_rgb_channel_info(id.as_str(), false).is_ok()
}

/// The key of the pending copy of a record.
pub open spec fn pending_key(key: Seq<char>) -> Seq<char> {
    key + "_pending"@
}

/// The key of the pending copy of a record.
pub fn pending_key_text(key: &str) -> (r: String)
    ensures
        r@ == pending_key(key@),
{
    text::join(key, "_pending")
}

/// The info that is recorded of a new payment.
pub open spec fn new_payment_info(
    contract_id: ContractId,
    amount_rgb: u64,
    swap_payment: bool,
    inbound: bool,
) -> RgbPaymentInfo {
    RgbPaymentInfo {
        contract_id,
        amount: amount_rgb,
        local_rgb_amount: 0,
        remote_rgb_amount: 0,
        swap_payment,
        inbound,
    }
}

/// Records a new payment: under its hash, and as pending.
pub fn write_rgb_payment_info_file<K: KVStoreSync>(
    payment_hash: &PaymentHash,
    contract_id: ContractId,
    amount_rgb: u64,
    swap_payment: bool,
    inbound: bool,
    kv_store: &mut K,
) -> (r: Result<(), Fault>)
    ensures
        ({
            let info = new_payment_info(contract_id, amount_rgb, swap_payment, inbound);
            let data = records::payment_bytes(info);
            let key = payment_hash.text();
            let ns = store::payment_ns(inbound);
            &&& store::settles(
                *old(kv_store),
                *final(kv_store),
                r,
                (
                    store::put(
                        store::put(old(kv_store).contents(), ns, key, data),
                        ns,
                        pending_key(key),
                        data,
                    ),
                    Ok(()),
                ),
            )
            &&& r is Ok ==> {
                &&& rgb_store::payment_info_at(final(kv_store).contents(), key, inbound) == Some(
                    info,
                )
                &&& rgb_store::payment_info_at(
                    final(kv_store).contents(),
                    pending_key(key),
                    inbound,
                ) == Some(info)
            }
        }),
{
    let rgb_payment_info = RgbPaymentInfo {
        contract_id,
        amount: amount_rgb,
        local_rgb_amount: 0,
        remote_rgb_amount: 0,
        swap_payment,
        inbound,
    };
    match kv_store.write_rgb_payment_info(payment_hash, &rgb_payment_info) {
        Ok(_) => {},
        Err(fault) => {
            return Err(fault);
        },
    }
    let payment_hash_hex = payment_hash.to_text();
    let pending = pending_key_text(payment_hash_hex.as_str());
    let namespace = store::payment_namespace(inbound);
    let data = rgb_payment_info.encode();
    match kv_store.write(RGB_PRIMARY_NS, namespace, pending.as_str(), data) {
        Ok(_) => Ok(()),
        Err(_) => Err(Fault::StoreRefused),
    }
}

/// The contents once the records under one id have been put under another, and how that ends.
///
/// A channel that is renamed to the id that it has keeps its records as they are.
pub open spec fn renamed(contents: Contents, from: Seq<char>, to: Seq<char>) -> (
    Contents,
    Result<(), Fault>,
) {
    let settled = rgb_store::channel_info_at(contents, from, false);
    let pending = rgb_store::channel_info_at(contents, from, true);
    if from == to {
        (
            contents,
            if settled is Some && pending is Some {
                Ok(())
            } else {
                Err(Fault::RenameFailed)
            },
        )
    } else {
        match (settled, pending) {
            (None, _) => (contents, Err(Fault::RenameFailed)),
            (Some(settled), None) => (
                moved(contents, store::channel_ns(false), from, to, records::info_bytes(settled)),
                Err(Fault::RenameFailed),
            ),
            (Some(settled), Some(pending)) => {
                let after = moved(
                    moved(
                        contents,
                        store::channel_ns(false),
                        from,
                        to,
                        records::info_bytes(settled),
                    ),
                    store::channel_ns(true),
                    from,
                    to,
                    records::info_bytes(pending),
                );
                match store::lookup(contents, RGB_CONSIGNMENT_NS@, from) {
                    None => (after, Ok(())),
                    Some(data) => (moved(after, RGB_CONSIGNMENT_NS@, from, to, data), Ok(())),
                }
            },
        }
    }
}

/// The contents with the data put under one key and nothing left under another.
pub open spec fn moved(
    contents: Contents,
    namespace: Seq<char>,
    from: Seq<char>,
    to: Seq<char>,
    data: Seq<u8>,
) -> Contents {
    store::without(store::put(contents, namespace, to, data), namespace, from)
}

/// Whether two stores hold the same but for what one or the other of two keys holds.
pub open spec fn same_but_for_ids(
    before: Contents,
    after: Contents,
    from: Seq<char>,
    to: Seq<char>,
) -> bool {
    forall|at: store::StoreKey|
        at.0 != RGB_PRIMARY_NS@ || (at.2 != from && at.2 != to) ==> {
            &&& #[trigger] after.contains_key(at) <==> before.contains_key(at)
            &&& before.contains_key(at) ==> after[at] == before[at]
        }
}

/// Whether what is stored under an id stands for the channel info: it is the encoding of the info,
/// or it is read as the info.
pub open spec fn holds_info(contents: Contents, id: Seq<char>, pending: bool, info: RgbInfo) -> bool {
    &&& store::lookup(contents, store::channel_ns(pending), id) matches Some(data)
    &&& data == records::info_bytes(info) || records::info_of(data) == Some(info)
}

/// A channel that has settled and pending info can be renamed. What was found under the old id is
/// then found under the new one, nothing is found under the old one where that is another, and
/// what is stored under other keys stays as it was.
pub proof fn law_rename_moves_records(contents: Contents, from: Seq<char>, to: Seq<char>)
    requires
        rgb_store::channel_info_at(contents, from, false) is Some,
        rgb_store::channel_info_at(contents, from, true) is Some,
    ensures
        ({
            let (after, result) = renamed(contents, from, to);
            &&& result is Ok
            &&& forall|pending: bool|
                #[trigger] holds_info(
                    after,
                    to,
                    pending,
                    rgb_store::channel_info_at(contents, from, pending)->0,
                )
            &&& store::lookup(contents, RGB_CONSIGNMENT_NS@, from) is Some ==> store::lookup(
                after,
                RGB_CONSIGNMENT_NS@,
                to,
            ) == store::lookup(contents, RGB_CONSIGNMENT_NS@, from)
            &&& store::lookup(contents, RGB_CONSIGNMENT_NS@, from) is None ==> store::lookup(
                after,
                RGB_CONSIGNMENT_NS@,
                to,
            ) == store::lookup(contents, RGB_CONSIGNMENT_NS@, to)
            &&& from != to ==> {
                &&& store::lookup(after, store::channel_ns(false), from) is None
                &&& store::lookup(after, store::channel_ns(true), from) is None
                &&& store::lookup(after, RGB_CONSIGNMENT_NS@, from) is None
            }
            &&& same_but_for_ids(contents, after, from, to)
        }),
{
    store::lemma_record_namespaces();
}

/// A channel that is renamed to the id that it has keeps all its records.
pub proof fn law_rename_to_same_id_keeps_records(contents: Contents, id: Seq<char>)
    ensures
        renamed(contents, id, id).0 == contents,
{
}

/// Renames the records of a channel from its temporary to its final id.
///
/// The channel has the same info under its final id as it had under its temporary one. Where the
/// two ids are the same, the store is left alone.
pub fn rename_rgb_files<K: KVStoreSync>(
    channel_id: &ChannelId,
    temporary_channel_id: &ChannelId,
    kv_store: &mut K,
) -> (r: Result<(), Fault>)
    ensures
        store::settles(
            *old(kv_store),
            *final(kv_store),
            r,
            renamed(old(kv_store).contents(), temporary_channel_id.text(), channel_id.text()),
        ),
        r is Ok ==> {
            let (from, to) = (temporary_channel_id.text(), channel_id.text());
            &&& rgb_store::channel_info_at(final(kv_store).contents(), to, false)
                == rgb_store::channel_info_at(old(kv_store).contents(), from, false)
            &&& rgb_store::channel_info_at(final(kv_store).contents(), to, true)
                == rgb_store::channel_info_at(old(kv_store).contents(), from, true)
        },
        temporary_channel_id == channel_id ==> *final(kv_store) == *old(kv_store),
{
    proof {
        store::lemma_record_namespaces();
    }
    let temp_chan_id = temporary_channel_id.to_text();
    let chan_id = channel_id.to_text();
    if temp_chan_id == chan_id {
        return if kv_store.read_rgb_channel_info(chan_id.as_str(), false).is_ok()
            && kv_store.read_rgb_channel_info(chan_id.as_str(), true).is_ok() {
            Ok(())
        } else {
            Err(Fault::RenameFailed)
        };
    }

    let rgb_info = match kv_store.read_rgb_channel_info(temp_chan_id.as_str(), false) {
        Ok(info) => info,
        Err(_) => {
            return Err(Fault::RenameFailed);
        },
    };
    match kv_store.write_rgb_channel_info(chan_id.as_str(), &rgb_info, false) {
        Ok(_) => {},
        Err(fault) => {
            return Err(fault);
        },
    }
    match kv_store.remove_rgb_channel_info(temp_chan_id.as_str(), false) {
        Ok(_) => {},
        Err(_) => {
            return Err(Fault::StoreRefused);
        },
    }

    let rgb_info = match kv_store.read_rgb_channel_info(temp_chan_id.as_str(), true) {
        Ok(info) => info,
        Err(_) => {
            return Err(Fault::RenameFailed);
        },
    };
    match kv_store.write_rgb_channel_info(chan_id.as_str(), &rgb_info, true) {
        Ok(_) => {},
        Err(fault) => {
            return Err(fault);
        },
    }
    match kv_store.remove_rgb_channel_info(temp_chan_id.as_str(), true) {
        Ok(_) => {},
        Err(_) => {
            return Err(Fault::StoreRefused);
        },
    }

    match kv_store.read_rgb_consignment(temp_chan_id.as_str()) {
        Ok(consignment_data) => {
            match kv_store.write_rgb_consignment(chan_id.as_str(), consignment_data) {
                Ok(_) => {},
                Err(fault) => {
                    return Err(fault);
                },
            }
            kv_store.remove_rgb_consignment(temp_chan_id.as_str())
        },
        Err(_) => Ok(()),
    }
}

/// The channel info once assets have been offered to the other side and received from it, if
/// both balances stay in range.
pub open spec fn shifted(info: RgbInfo, offered: u64, received: u64) -> Option<RgbInfo> {
    let local = info.local_rgb_amount + received - offered;
    let remote = info.remote_rgb_amount + offered - received;
    if 0 <= local <= u64::MAX && 0 <= remote <= u64::MAX {
        Some(
            RgbInfo {
                local_rgb_amount: local as u64,
                remote_rgb_amount: remote as u64,
                contract_id: info.contract_id,
                schema: info.schema,
            },
        )
    } else {
        None
    }
}

/// Shifts the balances of a channel by what is offered and received; none where a balance would
/// leave its range.
pub fn shift_balances(rgb_info: RgbInfo, rgb_offered_htlc: u64, rgb_received_htlc: u64) -> (r:
    Option<RgbInfo>)
    ensures
        r == shifted(rgb_info, rgb_offered_htlc, rgb_received_htlc),
{
    let mut shifted_info = rgb_info;
    if rgb_offered_htlc > rgb_received_htlc {
        let spent: u64 = rgb_offered_htlc - rgb_received_htlc;
        if rgb_info.local_rgb_amount < spent || rgb_info.remote_rgb_amount > u64::MAX - spent {
            return None;
        }
        shifted_info.local_rgb_amount = rgb_info.local_rgb_amount - spent;
        shifted_info.remote_rgb_amount = rgb_info.remote_rgb_amount + spent;
    } else {
        let received: u64 = rgb_received_htlc - rgb_offered_htlc;
        if rgb_info.remote_rgb_amount < received || rgb_info.local_rgb_amount > u64::MAX
            - received {
            return None;
        }
        shifted_info.local_rgb_amount = rgb_info.local_rgb_amount + received;
        shifted_info.remote_rgb_amount = rgb_info.remote_rgb_amount - received;
    }
    Some(shifted_info)
}

/// The contents once the balances of a channel have been shifted, and how that ends.
pub open spec fn updated(
    contents: Contents,
    id: Seq<char>,
    offered: u64,
    received: u64,
    pending: bool,
) -> (Contents, Result<(), Fault>) {
    match rgb_store::channel_info_at(contents, id, pending) {
        None => (contents, Err(Fault::ChannelInfoMissing)),
        Some(info) => match shifted(info, offered, received) {
            None => (contents, Err(Fault::AmountOutOfRange)),
            Some(info) => (
                store::put(contents, store::channel_ns(pending), id, records::info_bytes(info)),
                Ok(()),
            ),
        },
    }
}

/// Updates the RGB amounts of a channel in the store.
pub fn update_rgb_channel_amount<K: KVStoreSync>(
    channel_id: &str,
    rgb_offered_htlc: u64,
    rgb_received_htlc: u64,
    pending: bool,
    kv_store: &mut K,
) -> (r: Result<(), Fault>)
    ensures
        store::settles(
            *old(kv_store),
            *final(kv_store),
            r,
            updated(
                old(kv_store).contents(),
                channel_id@,
                rgb_offered_htlc,
                rgb_received_htlc,
                pending,
            ),
        ),
        r is Ok ==> rgb_store::channel_info_at(final(kv_store).contents(), channel_id@, pending)
            == shifted(
            rgb_store::channel_info_at(old(kv_store).contents(), channel_id@, pending)->0,
            rgb_offered_htlc,
            rgb_received_htlc,
        ),
{
    let rgb_info = match get_rgb_channel_info(channel_id, pending, kv_store) {
        Ok(info) => info,
        Err(fault) => {
            return Err(fault);
        },
    };
    match shift_balances(rgb_info, rgb_offered_htlc, rgb_received_htlc) {
        Some(info) => kv_store.write_rgb_channel_info(channel_id, &info, pending),
        None => Err(Fault::AmountOutOfRange),
    }
}

/// Updates the pending RGB amounts of a channel in the store.
pub fn update_rgb_channel_amount_pending<K: KVStoreSync>(
    channel_id: &ChannelId,
    rgb_offered_htlc: u64,
    rgb_received_htlc: u64,
    kv_store: &mut K,
) -> (r: Result<(), Fault>)
    ensures
        store::settles(
            *old(kv_store),
            *final(kv_store),
            r,
            updated(
                old(kv_store).contents(),
                channel_id.text(),
                rgb_offered_htlc,
                rgb_received_htlc,
                true,
            ),
        ),
        r is Ok ==> rgb_store::channel_info_at(final(kv_store).contents(), channel_id.text(), true)
            == shifted(
            rgb_store::channel_info_at(old(kv_store).contents(), channel_id.text(), true)->0,
            rgb_offered_htlc,
            rgb_received_htlc,
        ),
{
    let id = channel_id.to_text();
    update_rgb_channel_amount(id.as_str(), rgb_offered_htlc, rgb_received_htlc, true, kv_store)
}

/// No shift creates or destroys assets: the two balances keep their sum, and the channel keeps
/// its contract and its schema.
pub proof fn law_shift_keeps_total(info: RgbInfo, offered: u64, received: u64)
    ensures
        shifted(info, offered, received) matches Some(after) ==> {
            &&& after.local_rgb_amount + after.remote_rgb_amount == info.local_rgb_amount
                + info.remote_rgb_amount
            &&& after.contract_id == info.contract_id
            &&& after.schema == info.schema
        },
{
}

/// Receiving what was offered, and offering what was received, takes a shift back.
pub proof fn law_shift_back(info: RgbInfo, offered: u64, received: u64)
    ensures
        shifted(info, offered, received) matches Some(after) ==> shifted(after, received, offered)
            == Some(info),
{
}

/// Channel info that must be there is that under the id of the channel, and its absence is a fault.
pub proof fn law_required_info(contents: Contents, id: Seq<char>, pending: bool)
    ensures
        rgb_store::channel_info_at(contents, id, pending) matches Some(info) ==> required_info(
            contents,
            id,
            pending,
        ) == Ok::<RgbInfo, Fault>(info),
        rgb_store::channel_info_at(contents, id, pending) is None ==> required_info(
            contents,
            id,
            pending,
        ) == Err::<RgbInfo, Fault>(Fault::ChannelInfoMissing),
{
}

/// A shift takes what is offered from the holder and gives it to the counterparty, and the other
/// way round with what is received. It is made just where both balances stay in range.
pub proof fn law_shift_moves_amounts(info: RgbInfo, offered: u64, received: u64)
    ensures
        shifted(info, offered, received) matches Some(after) ==> {
            &&& after.local_rgb_amount - info.local_rgb_amount == received - offered
            &&& info.remote_rgb_amount - after.remote_rgb_amount == received - offered
            &&& after.contract_id == info.contract_id
            &&& after.schema == info.schema
        },
        shifted(info, offered, received) is Some <==> {
            &&& offered <= info.local_rgb_amount + received
            &&& received <= info.remote_rgb_amount + offered
            &&& info.local_rgb_amount + received - offered <= u64::MAX
            &&& info.remote_rgb_amount + offered - received <= u64::MAX
        },
{
}

/// An update shifts the balances of the one record that it names, and touches nothing else. Where
/// there is no valid record, or a balance would leave its range, nothing is touched at all.
pub proof fn law_update_shifts_one_record(
    contents: Contents,
    id: Seq<char>,
    offered: u64,
    received: u64,
    pending: bool,
    other: store::StoreKey,
)
    ensures
        ({
            let (after, result) = updated(contents, id, offered, received, pending);
            let at = (
                "rgb"@,
                if pending {
                    "channel_info_pending"@
                } else {
                    "channel_info"@
                },
                id,
            );
            &&& other != at ==> {
                &&& after.contains_key(other) <==> contents.contains_key(other)
                &&& contents.contains_key(other) ==> after[other] == contents[other]
            }
            &&& result is Err ==> after == contents
            &&& match rgb_store::channel_info_at(contents, id, pending) {
                None => result == Err::<(), Fault>(Fault::ChannelInfoMissing),
                Some(info) => match shifted(info, offered, received) {
                    None => result == Err::<(), Fault>(Fault::AmountOutOfRange),
                    Some(shifted_info) => {
                        &&& result is Ok
                        &&& after.contains_key(at)
                        &&& after[at] == records::info_bytes(shifted_info)
                    },
                },
            }
        }),
{
}

/// A new payment is noted with its contract, its amount and its flags, and with no balances.
pub proof fn law_new_payment(
    contract_id: ContractId,
    amount_rgb: u64,
    swap_payment: bool,
    inbound: bool,
)
    ensures
        ({
            let info = new_payment_info(contract_id, amount_rgb, swap_payment, inbound);
            &&& info.contract_id == contract_id
            &&& info.amount == amount_rgb
            &&& info.local_rgb_amount == 0
            &&& info.remote_rgb_amount == 0
            &&& info.swap_payment == swap_payment
            &&& info.inbound == inbound
        }),
{
}

/// Pending copies are told by the end of their keys, and have a key for each key.
pub proof fn law_pending_keys(a: Seq<char>, b: Seq<char>)
    ensures
        pending_key(a) == a + "_pending"@,
        pending_key(a) == pending_key(b) ==> a == b,
{
    if pending_key(a) == pending_key(b) {
        assert(pending_key(a).len() == pending_key(b).len());
        assert(pending_key(a).take(a.len() as int) =~= a);
        assert(pending_key(b).take(b.len() as int) =~= b);
    }
}

/// A channel can be renamed just where it has settled and pending info. Both are then under the new
/// id, and so is the consignment, where there is one; they are no longer under the old id, where
/// that is another; and no other data is touched.
pub proof fn law_rename_moves_three_records(
    contents: Contents,
    from: Seq<char>,
    to: Seq<char>,
    other: store::StoreKey,
)
    ensures
        ({
            let (after, result) = renamed(contents, from, to);
            let settled = rgb_store::channel_info_at(contents, from, false);
            let pending = rgb_store::channel_info_at(contents, from, true);
            let ns = "channel_info"@;
            let ns_pending = "channel_info_pending"@;
            let ns_consignment = "consignment"@;
            let sent = contents.contains_key(("rgb"@, ns_consignment, from));
            &&& result is Ok <==> settled is Some && pending is Some
            &&& result is Err ==> result == Err::<(), Fault>(Fault::RenameFailed)
            &&& from == to ==> after == contents
            &&& settled is None ==> after == contents
            &&& from != to && settled is Some ==> {
                &&& after.contains_key(("rgb"@, ns, to))
                &&& after[("rgb"@, ns, to)] == records::info_bytes(settled->0)
                &&& !after.contains_key(("rgb"@, ns, from))
            }
            &&& from != to && result is Ok ==> {
                &&& after.contains_key(("rgb"@, ns_pending, to))
                &&& after[("rgb"@, ns_pending, to)] == records::info_bytes(pending->0)
                &&& !after.contains_key(("rgb"@, ns_pending, from))
                &&& !after.contains_key(("rgb"@, ns_consignment, from))
                &&& sent ==> {
                    &&& after.contains_key(("rgb"@, ns_consignment, to))
                    &&& after[("rgb"@, ns_consignment, to)] == contents[(
                        "rgb"@,
                        ns_consignment,
                        from,
                    )]
                }
            }
            &&& {
                ||| other.0 != "rgb"@
                ||| other.2 != from && other.2 != to
                ||| other.1 != ns && (result is Err || other.1 != ns_pending) && (result is Err
                    || !sent || other.1 != ns_consignment)
            } ==> {
                &&& after.contains_key(other) <==> contents.contains_key(other)
                &&& contents.contains_key(other) ==> after[other] == contents[other]
            }
        }),
{
    store::lemma_record_namespaces();
}

} // verus!
