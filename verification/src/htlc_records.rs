//! What is recorded of the payments that pass through a channel as HTLCs.

use crate::channel;
use crate::constants::RGB_PRIMARY_NS;
use crate::contract_id_serde::ContractId;
use crate::error::Fault;
use crate::ids;
use crate::ids::{ChannelId, PaymentHash};
use crate::records;
use crate::records::{RgbInfo, RgbPaymentInfo};
use crate::rgb_store;
use crate::store;
use crate::store::{Contents, KVStoreSync};
use crate::text;
use vstd::prelude::*;

verus! {

/// An HTLC, as it stands in a commitment transaction.
#[derive(Clone, Copy, Debug, PartialEq, Eq)]
pub struct HTLCOutputInCommitment {
    /// Whether the HTLC was offered by the side whose commitment transaction it is
    pub offered: bool,
    /// The hash that identifies the payment
    pub payment_hash: PaymentHash,
    /// The place of the HTLC's output in the commitment transaction
    pub transaction_output_index: Option<u32>,
    /// The contract and the amount of the assets that the HTLC carries
    pub rgb_payment: Option<(ContractId, u64)>,
}

/// The amount of assets that an HTLC carries, if it carries any.
pub open spec fn colored_amount(htlc: HTLCOutputInCommitment) -> Option<u64> {
    match htlc.rgb_payment {
        Some((_, amount)) => if amount == 0 {
            None
        } else {
            Some(amount)
        },
        None => None,
    }
}

impl HTLCOutputInCommitment {
    /// The amount of assets that the HTLC carries, if it carries any.
    pub fn rgb_amount(&self) -> (r: Option<u64>)
        ensures
            r == colored_amount(*self),
    {
        match self.rgb_payment {
            Some((_, amount)) => if amount == 0 {
                None
            } else {
                Some(amount)
            },
            None => None,
        }
    }
}

/// The key under which a payment is recorded for one channel.
pub open spec fn proxy_id(channel: ChannelId, hash: PaymentHash) -> Seq<char> {
    channel.text() + hash.text()
}

/// The payment info with the balances of the channel.
pub open spec fn with_balances(payment: RgbPaymentInfo, info: RgbInfo) -> RgbPaymentInfo {
    RgbPaymentInfo {
        local_rgb_amount: info.local_rgb_amount,
        remote_rgb_amount: info.remote_rgb_amount,
        ..payment
    }
}

/// What is recorded of a payment of which nothing was known.
pub open spec fn unknown_payment(info: RgbInfo, amount: u64, inbound: bool) -> RgbPaymentInfo {
    RgbPaymentInfo {
        contract_id: info.contract_id,
        amount,
        local_rgb_amount: info.local_rgb_amount,
        remote_rgb_amount: info.remote_rgb_amount,
        swap_payment: true,
        inbound,
    }
}

/// The contents once a payment has been recorded for a channel, and what is then recorded of it.
///
/// A pending record becomes the record for the channel, with the balances of the channel.
/// Without one, the record that there is for the channel stands. Without that, the payment is
/// recorded anew. Either way a pending copy for the channel is there afterwards.
pub open spec fn recorded(
    contents: Contents,
    channel: ChannelId,
    info: RgbInfo,
    hash: PaymentHash,
    amount: u64,
    inbound: bool,
) -> (Contents, Result<RgbPaymentInfo, Fault>) {
    let ns = store::payment_ns(inbound);
    let proxy = proxy_id(channel, hash);
    let proxy_pending = channel::pending_key(proxy);
    let pending = channel::pending_key(hash.text());
    match store::lookup(contents, ns, pending) {
        Some(data) => match records::payment_of(data) {
            Some(payment) => {
                let payment = with_balances(payment, info);
                let data = records::payment_bytes(payment);
                (
                    store::without(
                        store::put(store::put(contents, ns, proxy, data), ns, proxy_pending, data),
                        ns,
                        pending,
                    ),
                    Ok(payment),
                )
            },
            None => (contents, Err(Fault::InvalidRecord)),
        },
        None => match store::lookup(contents, ns, proxy) {
            Some(data) => match records::payment_of(data) {
                Some(payment) => (
                    if store::lookup(contents, ns, proxy_pending) is Some {
                        contents
                    } else {
                        store::put(contents, ns, proxy_pending, records::payment_bytes(payment))
                    },
                    Ok(payment),
                ),
                None => (contents, Err(Fault::InvalidRecord)),
            },
            None => {
                let payment = unknown_payment(info, amount, inbound);
                let data = records::payment_bytes(payment);
                (
                    store::put(
                        store::put(store::put(contents, ns, proxy, data), ns, proxy_pending, data),
                        ns,
                        hash.text(),
                        data,
                    ),
                    Ok(payment),
                )
            },
        },
    }
}

/// The four keys of a payment's records are different from one another.
pub proof fn law_record_keys_differ(channel: ChannelId, hash: PaymentHash)
    ensures
        ({
            let proxy = proxy_id(channel, hash);
            let proxy_pending = channel::pending_key(proxy);
            let pending = channel::pending_key(hash.text());
            &&& proxy != proxy_pending
            &&& proxy != pending
            &&& proxy != hash.text()
            &&& proxy_pending != pending
            &&& proxy_pending != hash.text()
            &&& pending != hash.text()
        }),
{
    reveal_strlit("_pending");
    assert(channel.text().len() == 64);
    assert(hash.text().len() == 64);
    assert(proxy_id(channel, hash).len() == 128);
    assert(channel::pending_key(proxy_id(channel, hash)).len() == 136);
    assert(channel::pending_key(hash.text()).len() == 72);
}

/// The records of different payments, and those of one payment in different channels, are kept
/// apart.
pub proof fn law_proxy_ids_differ(c1: ChannelId, h1: PaymentHash, c2: ChannelId, h2: PaymentHash)
    requires
        proxy_id(c1, h1) == proxy_id(c2, h2),
    ensures
        c1 == c2,
        h1 == h2,
{
    let x = proxy_id(c1, h1);
    let y = proxy_id(c2, h2);
    assert(c1.text().len() == 64 && c2.text().len() == 64);
    assert(h1.text().len() == 64 && h2.text().len() == 64);
    assert(x.subrange(0, 64) =~= c1.text());
    assert(y.subrange(0, 64) =~= c2.text());
    assert(x.subrange(64, 128) =~= h1.text());
    assert(y.subrange(64, 128) =~= h2.text());
    ids::law_channel_texts_differ(c1, c2);
    ids::law_payment_texts_differ(h1, h2);
}

/// Whether a payment is recorded for a channel: nothing is pending under its hash, and there is a
/// valid record for the channel and a pending copy.
pub open spec fn is_recorded(
    contents: Contents,
    channel: ChannelId,
    hash: PaymentHash,
    inbound: bool,
    payment: RgbPaymentInfo,
) -> bool {
    let ns = store::payment_ns(inbound);
    let proxy = proxy_id(channel, hash);
    &&& store::lookup(contents, ns, channel::pending_key(hash.text())) is None
    &&& rgb_store::payment_info_at(contents, proxy, inbound) == Some(payment)
    &&& store::lookup(contents, ns, channel::pending_key(proxy)) is Some
}

/// What is recorded of a payment for a channel, if there is a valid record.
pub open spec fn record_of(
    contents: Contents,
    channel: ChannelId,
    hash: PaymentHash,
    inbound: bool,
) -> Option<RgbPaymentInfo> {
    rgb_store::payment_info_at(contents, proxy_id(channel, hash), inbound)
}

/// Whether a payment is recorded for a channel, however it is.
pub open spec fn has_record(
    contents: Contents,
    channel: ChannelId,
    hash: PaymentHash,
    inbound: bool,
) -> bool {
    match record_of(contents, channel, hash, inbound) {
        Some(payment) => is_recorded(contents, channel, hash, inbound, payment),
        None => false,
    }
}

/// Recording a payment that is recorded changes nothing, and gives what is recorded.
pub proof fn law_recording_again(
    contents: Contents,
    channel: ChannelId,
    info: RgbInfo,
    hash: PaymentHash,
    amount: u64,
    inbound: bool,
    payment: RgbPaymentInfo,
)
    requires
        is_recorded(contents, channel, hash, inbound, payment),
    ensures
        recorded(contents, channel, info, hash, amount, inbound) == (
            contents,
            Ok::<RgbPaymentInfo, Fault>(payment),
        ),
{
}

/// What was noted of a payment before it reached the channel is what is recorded of it for the
/// channel, whatever the HTLC says, with the balances of the channel.
pub proof fn law_pending_payment_is_used(
    contents: Contents,
    channel: ChannelId,
    info: RgbInfo,
    hash: PaymentHash,
    amount: u64,
    inbound: bool,
    noted: RgbPaymentInfo,
)
    requires
        rgb_store::payment_info_at(contents, channel::pending_key(hash.text()), inbound) == Some(
            noted,
        ),
    ensures
        recorded(contents, channel, info, hash, amount, inbound).1 == Ok::<RgbPaymentInfo, Fault>(
            with_balances(noted, info),
        ),
{
}

/// Recording one payment leaves another one recorded as it was.
pub proof fn law_recording_keeps_others(
    contents: Contents,
    channel: ChannelId,
    info: RgbInfo,
    hash: PaymentHash,
    amount: u64,
    inbound: bool,
    other_hash: PaymentHash,
    other_inbound: bool,
    other: RgbPaymentInfo,
)
    requires
        is_recorded(contents, channel, other_hash, other_inbound, other),
    ensures
        is_recorded(
            recorded(contents, channel, info, hash, amount, inbound).0,
            channel,
            other_hash,
            other_inbound,
            other,
        ),
{
    if inbound == other_inbound && hash == other_hash {
        law_recording_again(contents, channel, info, hash, amount, inbound, other);
    } else if inbound == other_inbound {
        lemma_keys_of_two(channel, hash, other_hash);
    } else {
        store::lemma_record_namespaces();
    }
}

/// No key of one payment's records is a key that matters to another payment's.
proof fn lemma_keys_of_two(channel: ChannelId, hash: PaymentHash, other: PaymentHash)
    requires
        hash != other,
    ensures
        ({
            let proxy = proxy_id(channel, hash);
            let proxy_pending = channel::pending_key(proxy);
            let pending = channel::pending_key(hash.text());
            let other_proxy = proxy_id(channel, other);
            let other_proxy_pending = channel::pending_key(other_proxy);
            let other_pending = channel::pending_key(other.text());
            &&& other_proxy != proxy
            &&& other_proxy != proxy_pending
            &&& other_proxy != pending
            &&& other_proxy != hash.text()
            &&& other_proxy_pending != proxy
            &&& other_proxy_pending != proxy_pending
            &&& other_proxy_pending != pending
            &&& other_proxy_pending != hash.text()
            &&& other_pending != proxy
            &&& other_pending != proxy_pending
            &&& other_pending != hash.text()
        }),
{
    reveal_strlit("_pending");
    if proxy_id(channel, hash) == proxy_id(channel, other) {
        law_proxy_ids_differ(channel, hash, channel, other);
    }
    let proxy = proxy_id(channel, hash);
    let other_proxy = proxy_id(channel, other);
    if channel::pending_key(proxy) == channel::pending_key(other_proxy) {
        assert(channel::pending_key(proxy).take(128) =~= proxy);
        assert(channel::pending_key(other_proxy).take(128) =~= other_proxy);
    }
    assert(proxy.len() == 128 && other_proxy.len() == 128);
    assert(hash.text().len() == 64 && other.text().len() == 64);
    assert(channel::pending_key(proxy).len() == 136);
    assert(channel::pending_key(other_proxy).len() == 136);
    assert(channel::pending_key(hash.text()).len() == 72);
    assert(channel::pending_key(other.text()).len() == 72);
}

/// Recording a payment touches payment info only.
pub proof fn law_recording_touches_payments_only(
    contents: Contents,
    channel: ChannelId,
    info: RgbInfo,
    hash: PaymentHash,
    amount: u64,
    inbound: bool,
)
    ensures
        store::same_but_payments(
            contents,
            recorded(contents, channel, info, hash, amount, inbound).0,
        ),
{
}

/// Records a payment for a channel, and returns what is then recorded of it.
///
/// The payment is then recorded for the channel, so that doing so again changes nothing.
pub fn record_htlc<K: KVStoreSync>(
    channel_id: &ChannelId,
    rgb_info: &RgbInfo,
    payment_hash: &PaymentHash,
    htlc_amount_rgb: u64,
    inbound: bool,
    kv_store: &mut K,
) -> (r: Result<RgbPaymentInfo, Fault>)
    ensures
        store::settles(
            *old(kv_store),
            *final(kv_store),
            r,
            recorded(
                old(kv_store).contents(),
                *channel_id,
                *rgb_info,
                *payment_hash,
                htlc_amount_rgb,
                inbound,
            ),
        ),
        r matches Ok(payment) ==> is_recorded(
            final(kv_store).contents(),
            *channel_id,
            *payment_hash,
            inbound,
            payment,
        ),
{
    proof {
        law_record_keys_differ(*channel_id, *payment_hash);
    }
    let chan_id = channel_id.to_text();
    let htlc_payment_hash = payment_hash.to_text();
    let htlc_proxy_id = text::join(chan_id.as_str(), htlc_payment_hash.as_str());
    let htlc_proxy_id_pending = channel::pending_key_text(htlc_proxy_id.as_str());
    let pending_key = channel::pending_key_text(htlc_payment_hash.as_str());
    let namespace = store::payment_namespace(inbound);

    match kv_store.read(RGB_PRIMARY_NS, namespace, pending_key.as_str()) {
        Ok(data) => {
            let mut rgb_payment_info = match RgbPaymentInfo::decode(data.as_slice()) {
                Some(info) => info,
                None => {
                    return Err(Fault::InvalidRecord);
                },
            };
            rgb_payment_info.local_rgb_amount = rgb_info.local_rgb_amount;
            rgb_payment_info.remote_rgb_amount = rgb_info.remote_rgb_amount;
            let data = rgb_payment_info.encode();
            if kv_store.write(
                RGB_PRIMARY_NS,
                namespace,
                htlc_proxy_id.as_str(),
                data.clone(),
            ).is_err() {
                return Err(Fault::StoreRefused);
            }
            if kv_store.write(
                RGB_PRIMARY_NS,
                namespace,
                htlc_proxy_id_pending.as_str(),
                data,
            ).is_err() {
                return Err(Fault::StoreRefused);
            }
            if kv_store.remove(RGB_PRIMARY_NS, namespace, pending_key.as_str(), false).is_err() {
                return Err(Fault::StoreRefused);
            }
        },
        Err(_) => {},
    }

    let rgb_payment_info = match kv_store.read(
        RGB_PRIMARY_NS,
        namespace,
        htlc_proxy_id.as_str(),
    ) {
        Ok(data) => match RgbPaymentInfo::decode(data.as_slice()) {
            Some(info) => info,
            None => {
                return Err(Fault::InvalidRecord);
            },
        },
        Err(_) => {
            let rgb_payment_info = RgbPaymentInfo {
                contract_id: rgb_info.contract_id,
                amount: htlc_amount_rgb,
                local_rgb_amount: rgb_info.local_rgb_amount,
                remote_rgb_amount: rgb_info.remote_rgb_amount,
                swap_payment: true,
                inbound,
            };
            let data = rgb_payment_info.encode();
            if kv_store.write(
                RGB_PRIMARY_NS,
                namespace,
                htlc_proxy_id.as_str(),
                data.clone(),
            ).is_err() {
                return Err(Fault::StoreRefused);
            }
            if kv_store.write(
                RGB_PRIMARY_NS,
                namespace,
                htlc_proxy_id_pending.as_str(),
                data.clone(),
            ).is_err() {
                return Err(Fault::StoreRefused);
            }
            if kv_store.write(
                RGB_PRIMARY_NS,
                namespace,
                htlc_payment_hash.as_str(),
                data,
            ).is_err() {
                return Err(Fault::StoreRefused);
            }
            rgb_payment_info
        },
    };

    if kv_store.read(RGB_PRIMARY_NS, namespace, htlc_proxy_id_pending.as_str()).is_err() {
        let data = rgb_payment_info.encode();
        if kv_store.write(
            RGB_PRIMARY_NS,
            namespace,
            htlc_proxy_id_pending.as_str(),
            data,
        ).is_err() {
            return Err(Fault::StoreRefused);
        }
    }
    Ok(rgb_payment_info)
}

/// An HTLC carries the amount of its RGB payment, and carries none where that is nothing.
pub proof fn law_carried_amount(htlc: HTLCOutputInCommitment, amount: u64)
    ensures
        colored_amount(htlc) == Some(amount) <==> amount > 0 && (htlc.rgb_payment matches Some(
            (_, a),
        ) && a == amount),
{
}

/// A payment that was noted before it reached the channel is recorded with what was noted of it and
/// with the balances of the channel: under the key of the channel and the payment, and as pending
/// there. The note itself is gone, and nothing else is touched.
pub proof fn law_noted_payment_becomes_record(
    contents: Contents,
    channel: ChannelId,
    info: RgbInfo,
    hash: PaymentHash,
    amount: u64,
    inbound: bool,
    noted: RgbPaymentInfo,
    other: store::StoreKey,
)
    requires
        rgb_store::payment_info_at(contents, hash.text() + "_pending"@, inbound) == Some(noted),
    ensures
        ({
            let (after, result) = recorded(contents, channel, info, hash, amount, inbound);
            let ns = if inbound {
                "payment_info_inbound"@
            } else {
                "payment_info_outbound"@
            };
            let own = ("rgb"@, ns, channel.text() + hash.text());
            let own_pending = ("rgb"@, ns, channel.text() + hash.text() + "_pending"@);
            let note = ("rgb"@, ns, hash.text() + "_pending"@);
            &&& result matches Ok(payment)
            &&& payment.contract_id == noted.contract_id
            &&& payment.amount == noted.amount
            &&& payment.swap_payment == noted.swap_payment
            &&& payment.inbound == noted.inbound
            &&& payment.local_rgb_amount == info.local_rgb_amount
            &&& payment.remote_rgb_amount == info.remote_rgb_amount
            &&& after.contains_key(own) && after[own] == records::payment_bytes(payment)
            &&& after.contains_key(own_pending) && after[own_pending] == records::payment_bytes(
                payment,
            )
            &&& !after.contains_key(note)
            &&& other != own && other != own_pending && other != note ==> {
                &&& after.contains_key(other) <==> contents.contains_key(other)
                &&& contents.contains_key(other) ==> after[other] == contents[other]
            }
        }),
{
    law_record_keys_differ(channel, hash);
    assert(channel::pending_key(proxy_id(channel, hash)) =~= channel.text() + hash.text()
        + "_pending"@);
}

/// A payment that has a record for the channel, and of which nothing is noted, keeps that record,
/// whatever the HTLC and the channel say. A pending copy is made where there is none, and nothing
/// else is touched.
pub proof fn law_record_stands(
    contents: Contents,
    channel: ChannelId,
    info: RgbInfo,
    hash: PaymentHash,
    amount: u64,
    inbound: bool,
    known: RgbPaymentInfo,
    other: store::StoreKey,
)
    requires
        store::lookup(contents, store::payment_ns(inbound), hash.text() + "_pending"@) is None,
        rgb_store::payment_info_at(contents, channel.text() + hash.text(), inbound) == Some(known),
    ensures
        ({
            let (after, result) = recorded(contents, channel, info, hash, amount, inbound);
            let ns = if inbound {
                "payment_info_inbound"@
            } else {
                "payment_info_outbound"@
            };
            let own_pending = ("rgb"@, ns, channel.text() + hash.text() + "_pending"@);
            &&& result == Ok::<RgbPaymentInfo, Fault>(known)
            &&& after.contains_key(own_pending)
            &&& !contents.contains_key(own_pending) ==> after[own_pending]
                == records::payment_bytes(known)
            &&& other != own_pending || contents.contains_key(own_pending) ==> {
                &&& after.contains_key(other) <==> contents.contains_key(other)
                &&& contents.contains_key(other) ==> after[other] == contents[other]
            }
        }),
{
    law_record_keys_differ(channel, hash);
    assert(channel::pending_key(proxy_id(channel, hash)) =~= channel.text() + hash.text()
        + "_pending"@);
}

/// A payment of which nothing is known is recorded with the amount of the HTLC, with the contract
/// and the balances of the channel, and as one whose amount in the route is overridden: under the
/// key of the channel and the payment, as pending there, and under the payment. Nothing else is
/// touched.
pub proof fn law_new_payment_is_recorded(
    contents: Contents,
    channel: ChannelId,
    info: RgbInfo,
    hash: PaymentHash,
    amount: u64,
    inbound: bool,
    other: store::StoreKey,
)
    requires
        store::lookup(contents, store::payment_ns(inbound), hash.text() + "_pending"@) is None,
        store::lookup(contents, store::payment_ns(inbound), channel.text() + hash.text()) is None,
    ensures
        ({
            let (after, result) = recorded(contents, channel, info, hash, amount, inbound);
            let ns = if inbound {
                "payment_info_inbound"@
            } else {
                "payment_info_outbound"@
            };
            let own = ("rgb"@, ns, channel.text() + hash.text());
            let own_pending = ("rgb"@, ns, channel.text() + hash.text() + "_pending"@);
            let plain = ("rgb"@, ns, hash.text());
            &&& result matches Ok(payment)
            &&& payment.contract_id == info.contract_id
            &&& payment.amount == amount
            &&& payment.local_rgb_amount == info.local_rgb_amount
            &&& payment.remote_rgb_amount == info.remote_rgb_amount
            &&& payment.swap_payment
            &&& payment.inbound == inbound
            &&& after.contains_key(own) && after[own] == records::payment_bytes(payment)
            &&& after.contains_key(own_pending) && after[own_pending] == records::payment_bytes(
                payment,
            )
            &&& after.contains_key(plain) && after[plain] == records::payment_bytes(payment)
            &&& other != own && other != own_pending && other != plain ==> {
                &&& after.contains_key(other) <==> contents.contains_key(other)
                &&& contents.contains_key(other) ==> after[other] == contents[other]
            }
        }),
{
    law_record_keys_differ(channel, hash);
    assert(channel::pending_key(proxy_id(channel, hash)) =~= channel.text() + hash.text()
        + "_pending"@);
}

/// Recording a payment fails just where what it goes by is not a valid record: the note, where
/// there is one, and otherwise the record for the channel. The contents then stay as they are.
pub proof fn law_invalid_record_is_reported(
    contents: Contents,
    channel: ChannelId,
    info: RgbInfo,
    hash: PaymentHash,
    amount: u64,
    inbound: bool,
)
    ensures
        ({
            let (after, result) = recorded(contents, channel, info, hash, amount, inbound);
            let ns = store::payment_ns(inbound);
            let note = store::lookup(contents, ns, hash.text() + "_pending"@);
            let own = store::lookup(contents, ns, channel.text() + hash.text());
            let invalid = match note {
                Some(data) => records::payment_of(data) is None,
                None => own matches Some(data) && records::payment_of(data) is None,
            };
            &&& result is Err <==> invalid
            &&& invalid ==> result == Err::<RgbPaymentInfo, Fault>(Fault::InvalidRecord)
            &&& invalid ==> after == contents
        }),
{
}

} // verus!
