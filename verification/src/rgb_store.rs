//! RGB records in a key-value store.

use crate::constants::{
    RGB_CONSIGNMENT_NS, RGB_PRIMARY_NS, RGB_TRANSFER_INFO_NS, RGB_WALLET_CONFIG_NS,
};
use crate::error::{Fault, ReadError};
use crate::ids::{ChannelId, PaymentHash};
use crate::records;
use crate::records::{RgbInfo, RgbPaymentInfo, TransferInfo};
use crate::store;
use crate::store::{Contents, KVStoreSync};
use vstd::prelude::*;

verus! {

/// What is known of a channel that may be the first hop of a payment.
#[derive(Clone, Copy, Debug, PartialEq, Eq)]
pub struct ChannelDetails {
    /// The id of the channel
    pub channel_id: ChannelId,
}

/// The channel info that the store holds under an id, if it holds a valid one.
pub open spec fn channel_info_at(contents: Contents, id: Seq<char>, pending: bool) -> Option<
    RgbInfo,
> {
    match store::lookup(contents, store::channel_ns(pending), id) {
        Some(data) => records::info_of(data),
        None => None,
    }
}

/// The payment info that the store holds under a key, if it holds a valid one.
pub open spec fn payment_info_at(contents: Contents, key: Seq<char>, inbound: bool) -> Option<
    RgbPaymentInfo,
> {
    match store::lookup(contents, store::payment_ns(inbound), key) {
        Some(data) => records::payment_of(data),
        None => None,
    }
}

/// The text of a wallet setting, if it is set to a text.
pub open spec fn config_at(contents: Contents, key: Seq<char>) -> Option<Seq<char>> {
    match store::lookup(contents, RGB_WALLET_CONFIG_NS@, key) {
        Some(data) => if vstd::utf8::valid_utf8(data) {
            Some(vstd::utf8::decode_utf8(data))
        } else {
            None
        },
        None => None,
    }
}

/// What reading transfer info comes to.
pub open spec fn transfer_reading(contents: Contents, txid: Seq<char>) -> Result<
    TransferInfo,
    Fault,
> {
    match store::lookup(contents, RGB_TRANSFER_INFO_NS@, txid) {
        Some(data) => match records::transfer_of(data) {
            Some(info) => Ok(info),
            None => Err(Fault::InvalidRecord),
        },
        None => Err(Fault::ReadFailed),
    }
}

/// The error that reading a record gives: that of the store where nothing can be read, and
/// otherwise that the data is invalid.
pub open spec fn reading_error<K: KVStoreSync>(
    kv_store: K,
    namespace: Seq<char>,
    key: Seq<char>,
) -> ReadError<K::Failure> {
    if store::lookup(kv_store.contents(), namespace, key) is Some {
        ReadError::InvalidData
    } else {
        ReadError::Store(kv_store.read_failure(store::rgb_key(namespace, key)))
    }
}

/// Whether a channel can be the first hop of a payment: it holds the asset, and enough of it.
pub open spec fn hop_suffices(
    contents: Contents,
    payment: RgbPaymentInfo,
    hop: ChannelDetails,
) -> bool {
    match channel_info_at(contents, hop.channel_id.text(), false) {
        Some(info) => info.contract_id == payment.contract_id && info.local_rgb_amount
            >= payment.amount,
        None => false,
    }
}

/// The hops among which the first hop of a payment is chosen.
pub open spec fn sufficient_hops(
    contents: Contents,
    payment_hash: PaymentHash,
    hops: Seq<ChannelDetails>,
) -> Seq<ChannelDetails> {
    match payment_info_at(contents, payment_hash.text(), false) {
        Some(payment) => hops.filter(|hop: ChannelDetails| hop_suffices(contents, payment, hop)),
        None => hops,
    }
}

/// Filtering keeps just the hops that suffice: each hop that is kept was there and suffices, and
/// each hop that was there and suffices is kept. Where the payment is not colored, all are kept.
pub proof fn law_filter_keeps_sufficient(
    contents: Contents,
    payment_hash: PaymentHash,
    hops: Seq<ChannelDetails>,
    hop: ChannelDetails,
)
    ensures
        match payment_info_at(contents, payment_hash.text(), false) {
            Some(payment) => sufficient_hops(contents, payment_hash, hops).contains(hop) <==> (
            hops.contains(hop) && hop_suffices(contents, payment, hop)),
            None => sufficient_hops(contents, payment_hash, hops) == hops,
        },
{
    match payment_info_at(contents, payment_hash.text(), false) {
        Some(payment) => {
            let suffices = |h: ChannelDetails| hop_suffices(contents, payment, h);
            let kept = hops.filter(suffices);
            if kept.contains(hop) {
                let i = choose|i: int| 0 <= i < kept.len() && kept[i] == hop;
                hops.lemma_filter_pred(suffices, i);
                hops.lemma_filter_contains_rev(suffices, hop);
            }
            if hops.contains(hop) && suffices(hop) {
                let i = choose|i: int| 0 <= i < hops.len() && hops[i] == hop;
                hops.lemma_filter_contains(suffices, i);
            }
        },
        None => {},
    }
}

/// `String::from_utf8`: the text that the bytes encode in UTF-8, if they encode one.
#[verifier::external_body]
fn string_from_utf8(data: Vec<u8>) -> (r: Option<String>)
    ensures
        match r {
            Some(text) => vstd::utf8::valid_utf8(data@) && text@ == vstd::utf8::decode_utf8(data@),
            None => !vstd::utf8::valid_utf8(data@),
        },
{
    String::from_utf8(data).ok()
}

/// Extension trait for RGB-specific operations on a key-value store.
pub trait RgbKvStoreExt: KVStoreSync + Sized {
    /// Reads transfer info from the store.
    fn read_rgb_transfer_info(&self, txid: &str) -> (r: Result<TransferInfo, Fault>)
        ensures
            r == transfer_reading(self.contents(), txid@),
    ;

    /// Writes transfer info to the store. It is read back as it was written.
    fn write_rgb_transfer_info(&mut self, txid: &str, info: &TransferInfo) -> (r: Result<
        (),
        Fault,
    >)
        ensures
            store::settles(
                *old(self),
                *final(self),
                r,
                (
                    store::put(
                        old(self).contents(),
                        RGB_TRANSFER_INFO_NS@,
                        txid@,
                        records::transfer_bytes(*info),
                    ),
                    Ok(()),
                ),
            ),
            records::transfer_of(records::transfer_bytes(*info)) == Some(*info),
            r is Ok ==> transfer_reading(final(self).contents(), txid@) == Ok::<TransferInfo, Fault>(*info),
    ;

    /// Reads channel info from the store.
    fn read_rgb_channel_info(&self, channel_id: &str, pending: bool) -> (r: Result<
        RgbInfo,
        ReadError<Self::Failure>,
    >)
        ensures
            r == match channel_info_at(self.contents(), channel_id@, pending) {
                Some(info) => Ok(info),
                None => Err(reading_error(*self, store::channel_ns(pending), channel_id@)),
            },
    ;

    /// Writes channel info to the store. It is read back as it was written.
    fn write_rgb_channel_info(&mut self, channel_id: &str, rgb_info: &RgbInfo, pending: bool) -> (r:
        Result<(), Fault>)
        ensures
            store::settles(
                *old(self),
                *final(self),
                r,
                (
                    store::put(
                        old(self).contents(),
                        store::channel_ns(pending),
                        channel_id@,
                        records::info_bytes(*rgb_info),
                    ),
                    Ok(()),
                ),
            ),
            records::info_of(records::info_bytes(*rgb_info)) == Some(*rgb_info),
            r is Ok ==> channel_info_at(final(self).contents(), channel_id@, pending) == Some(
                *rgb_info,
            ),
    ;

    /// Reads payment info from the store.
    fn read_rgb_payment_info(&self, payment_hash: &PaymentHash, inbound: bool) -> (r: Result<
        RgbPaymentInfo,
        ReadError<Self::Failure>,
    >)
        ensures
            r == match payment_info_at(self.contents(), payment_hash.text(), inbound) {
                Some(info) => Ok(info),
                None => Err(
                    reading_error(*self, store::payment_ns(inbound), payment_hash.text()),
                ),
            },
    ;

    /// Writes payment info to the store. It is read back as it was written.
    fn write_rgb_payment_info(&mut self, payment_hash: &PaymentHash, info: &RgbPaymentInfo) -> (r:
        Result<(), Fault>)
        ensures
            store::settles(
                *old(self),
                *final(self),
                r,
                (
                    store::put(
                        old(self).contents(),
                        store::payment_ns(info.inbound),
                        payment_hash.text(),
                        records::payment_bytes(*info),
                    ),
                    Ok(()),
                ),
            ),
            records::payment_of(records::payment_bytes(*info)) == Some(*info),
            r is Ok ==> payment_info_at(final(self).contents(), payment_hash.text(), info.inbound)
                == Some(*info),
    ;

    /// Reads a consignment from the store.
    fn read_rgb_consignment(&self, id: &str) -> (r: Result<Vec<u8>, Self::Failure>)
        ensures
            match store::lookup(self.contents(), RGB_CONSIGNMENT_NS@, id@) {
                Some(data) => r matches Ok(found) && found@ == data,
                None => r == Err::<Vec<u8>, Self::Failure>(
                    self.read_failure(store::rgb_key(RGB_CONSIGNMENT_NS@, id@)),
                ),
            },
    ;

    /// Writes a consignment to the store. It is read back as it was written.
    fn write_rgb_consignment(&mut self, id: &str, data: Vec<u8>) -> (r: Result<(), Fault>)
        ensures
            store::settles(
                *old(self),
                *final(self),
                r,
                (store::put(old(self).contents(), RGB_CONSIGNMENT_NS@, id@, data@), Ok(())),
            ),
            r is Ok ==> store::lookup(final(self).contents(), RGB_CONSIGNMENT_NS@, id@) == Some(
                data@,
            ),
    ;

    /// Removes channel info from the store, without delay. None is read afterwards. A refusal
    /// of the store is handed back as it is.
    fn remove_rgb_channel_info(&mut self, channel_id: &str, pending: bool) -> (r: Result<
        (),
        Self::Failure,
    >)
        ensures
            match r {
                Ok(_) => {
                    &&& final(self).refusals() == old(self).refusals()
                    &&& final(self).contents() == store::without(
                        old(self).contents(),
                        store::channel_ns(pending),
                        channel_id@,
                    )
                },
                Err(e) => {
                    &&& final(self).refusals() == old(self).refusals() + 1
                    &&& e == old(self).remove_failure(
                        store::rgb_key(store::channel_ns(pending), channel_id@),
                    )
                },
            },
            r is Ok ==> channel_info_at(final(self).contents(), channel_id@, pending) is None,
            final(self).deferrals() == old(self).deferrals(),
    ;

    /// Removes a consignment from the store, without delay. None is read afterwards.
    fn remove_rgb_consignment(&mut self, id: &str) -> (r: Result<(), Fault>)
        ensures
            store::settles(
                *old(self),
                *final(self),
                r,
                (store::without(old(self).contents(), RGB_CONSIGNMENT_NS@, id@), Ok(())),
            ),
            r is Ok ==> store::lookup(final(self).contents(), RGB_CONSIGNMENT_NS@, id@) is None,
    ;

    /// Reads a wallet setting from the store.
    fn read_config(&self, key: &str) -> (r: Result<String, ReadError<Self::Failure>>)
        ensures
            match config_at(self.contents(), key@) {
                Some(value) => r matches Ok(found) && found@ == value,
                None => r == Err::<String, ReadError<Self::Failure>>(
                    reading_error(*self, RGB_WALLET_CONFIG_NS@, key@),
                ),
            },
    ;

    /// Writes a wallet setting to the store. It is read back as it was written.
    fn write_config(&mut self, key: &str, value: &str) -> (r: Result<(), Fault>)
        ensures
            store::settles(
                *old(self),
                *final(self),
                r,
                (
                    store::put(
                        old(self).contents(),
                        RGB_WALLET_CONFIG_NS@,
                        key@,
                        vstd::utf8::encode_utf8(value@),
                    ),
                    Ok(()),
                ),
            ),
            r is Ok ==> config_at(final(self).contents(), key@) == Some(value@),
    ;

    /// Whether the payment is colored.
    fn is_payment_rgb(&self, payment_hash: &PaymentHash) -> (r: bool)
        ensures
            r == (payment_info_at(self.contents(), payment_hash.text(), false) is Some
                || payment_info_at(self.contents(), payment_hash.text(), true) is Some),
    ;

    /// Filters first hops to only those channels that hold enough of the asset that is paid.
    fn filter_first_hops(&self, payment_hash: &PaymentHash, first_hops: &mut Vec<ChannelDetails>)
        ensures
            final(first_hops)@ == sufficient_hops(
                self.contents(),
                *payment_hash,
                old(first_hops)@,
            ),
    ;
}

impl<K: KVStoreSync> RgbKvStoreExt for K {
    fn read_rgb_transfer_info(&self, txid: &str) -> (r: Result<TransferInfo, Fault>) {
        match self.read(RGB_PRIMARY_NS, RGB_TRANSFER_INFO_NS, txid) {
            Ok(data) => match TransferInfo::decode(data.as_slice()) {
                Some(info) => Ok(info),
                None => Err(Fault::InvalidRecord),
            },
            Err(_) => Err(Fault::ReadFailed),
        }
    }

    fn write_rgb_transfer_info(&mut self, txid: &str, info: &TransferInfo) -> (r: Result<
        (),
        Fault,
    >) {
        let data = info.encode();
        match self.write(RGB_PRIMARY_NS, RGB_TRANSFER_INFO_NS, txid, data) {
            Ok(_) => Ok(()),
            Err(_) => Err(Fault::StoreRefused),
        }
    }

    fn read_rgb_channel_info(&self, channel_id: &str, pending: bool) -> (r: Result<
        RgbInfo,
        ReadError<Self::Failure>,
    >) {
        let namespace = store::channel_namespace(pending);
        match self.read(RGB_PRIMARY_NS, namespace, channel_id) {
            Ok(data) => match RgbInfo::decode(data.as_slice()) {
                Some(info) => Ok(info),
                None => Err(ReadError::InvalidData),
            },
            Err(e) => Err(ReadError::Store(e)),
        }
    }

    fn write_rgb_channel_info(&mut self, channel_id: &str, rgb_info: &RgbInfo, pending: bool) -> (r:
        Result<(), Fault>) {
        let namespace = store::channel_namespace(pending);
        let data = rgb_info.encode();
        match self.write(RGB_PRIMARY_NS, namespace, channel_id, data) {
            Ok(_) => Ok(()),
            Err(_) => Err(Fault::StoreRefused),
        }
    }

    fn read_rgb_payment_info(&self, payment_hash: &PaymentHash, inbound: bool) -> (r: Result<
        RgbPaymentInfo,
        ReadError<Self::Failure>,
    >) {
        let namespace = store::payment_namespace(inbound);
        let key = payment_hash.to_text();
        match self.read(RGB_PRIMARY_NS, namespace, key.as_str()) {
            Ok(data) => match RgbPaymentInfo::decode(data.as_slice()) {
                Some(info) => Ok(info),
                None => Err(ReadError::InvalidData),
            },
            Err(e) => Err(ReadError::Store(e)),
        }
    }

    fn write_rgb_payment_info(&mut self, payment_hash: &PaymentHash, info: &RgbPaymentInfo) -> (r:
        Result<(), Fault>) {
        let namespace = store::payment_namespace(info.inbound);
        let key = payment_hash.to_text();
        let data = info.encode();
        match self.write(RGB_PRIMARY_NS, namespace, key.as_str(), data) {
            Ok(_) => Ok(()),
            Err(_) => Err(Fault::StoreRefused),
        }
    }

    fn read_rgb_consignment(&self, id: &str) -> (r: Result<Vec<u8>, Self::Failure>) {
        self.read(RGB_PRIMARY_NS, RGB_CONSIGNMENT_NS, id)
    }

    fn write_rgb_consignment(&mut self, id: &str, data: Vec<u8>) -> (r: Result<(), Fault>) {
        match self.write(RGB_PRIMARY_NS, RGB_CONSIGNMENT_NS, id, data) {
            Ok(_) => Ok(()),
            Err(_) => Err(Fault::StoreRefused),
        }
    }

    fn remove_rgb_channel_info(&mut self, channel_id: &str, pending: bool) -> (r: Result<
        (),
        Self::Failure,
    >) {
        let namespace = store::channel_namespace(pending);
        self.remove(RGB_PRIMARY_NS, namespace, channel_id, false)
    }

    fn remove_rgb_consignment(&mut self, id: &str) -> (r: Result<(), Fault>) {
        match self.remove(RGB_PRIMARY_NS, RGB_CONSIGNMENT_NS, id, false) {
            Ok(_) => Ok(()),
            Err(_) => Err(Fault::StoreRefused),
        }
    }

    fn read_config(&self, key: &str) -> (r: Result<String, ReadError<Self::Failure>>) {
        match self.read(RGB_PRIMARY_NS, RGB_WALLET_CONFIG_NS, key) {
            Ok(data) => match string_from_utf8(data) {
                Some(text) => Ok(text),
                None => Err(ReadError::InvalidData),
            },
            Err(e) => Err(ReadError::Store(e)),
        }
    }

    fn write_config(&mut self, key: &str, value: &str) -> (r: Result<(), Fault>) {
        let data = vstd::slice::slice_to_vec(value.as_bytes());
        proof {
            vstd::utf8::encode_utf8_valid_utf8(value@);
            vstd::utf8::encode_utf8_decode_utf8(value@);
        }
        match self.write(RGB_PRIMARY_NS, RGB_WALLET_CONFIG_NS, key, data) {
            Ok(_) => Ok(()),
            Err(_) => Err(Fault::StoreRefused),
        }
    }

    fn is_payment_rgb(&self, payment_hash: &PaymentHash) -> (r: bool) {
        self.read_rgb_payment_info(payment_hash, false).is_ok() || self.read_rgb_payment_info(
            payment_hash,
            true,
        ).is_ok()
    }

    fn filter_first_hops(&self, payment_hash: &PaymentHash, first_hops: &mut Vec<ChannelDetails>) {
        let payment = match self.read_rgb_payment_info(payment_hash, false) {
            Ok(info) => info,
            Err(_) => {
                return ;
            },
        };
        let ghost hops = first_hops@;
        let ghost suffices = |hop: ChannelDetails| hop_suffices(self.contents(), payment, hop);
        let mut kept: Vec<ChannelDetails> = Vec::new();
        let mut i: usize = 0;
        assert(hops.take(0) =~= Seq::<ChannelDetails>::empty());
        reveal(Seq::filter);
        while i < first_hops.len()
            invariant
                i <= first_hops.len(),
                first_hops@ == hops,
                suffices == (|hop: ChannelDetails| hop_suffices(self.contents(), payment, hop)),
                kept@ == hops.take(i as int).filter(suffices),
            decreases first_hops.len() - i,
        {
            let hop = first_hops[i];
            let channel_id = hop.channel_id.to_text();
            let keep = match self.read_rgb_channel_info(channel_id.as_str(), false) {
                Ok(info) => info.contract_id.same(&payment.contract_id) && info.local_rgb_amount
                    >= payment.amount,
                Err(_) => false,
            };
            proof {
                reveal(Seq::filter);
                assert(hops.take(i + 1).drop_last() =~= hops.take(i as int));
                assert(hops.take(i + 1).last() == hop);
                assert(keep == suffices(hop));
            }
            if keep {
                kept.push(hop);
            }
            i += 1;
        }
        assert(hops.take(i as int) =~= hops);
        *first_hops = kept;
    }
}

/// Records are found at the keys that belong to them, and nowhere else: each reading is that of the
/// data under one key.
pub proof fn law_records_are_found_at_their_keys(contents: Contents, key: Seq<char>, flag: bool)
    ensures
        ({
            let at = (
                "rgb"@,
                if flag {
                    "channel_info_pending"@
                } else {
                    "channel_info"@
                },
                key,
            );
            &&& contents.contains_key(at) ==> channel_info_at(contents, key, flag)
                == records::info_of(contents[at])
            &&& !contents.contains_key(at) ==> channel_info_at(contents, key, flag) is None
        }),
        ({
            let at = (
                "rgb"@,
                if flag {
                    "payment_info_inbound"@
                } else {
                    "payment_info_outbound"@
                },
                key,
            );
            &&& contents.contains_key(at) ==> payment_info_at(contents, key, flag)
                == records::payment_of(contents[at])
            &&& !contents.contains_key(at) ==> payment_info_at(contents, key, flag) is None
        }),
        ({
            let at = ("rgb"@, "transfer_info"@, key);
            &&& !contents.contains_key(at) ==> transfer_reading(contents, key) == Err::<
                TransferInfo,
                Fault,
            >(Fault::ReadFailed)
            &&& contents.contains_key(at) && records::transfer_of(contents[at]) is None
                ==> transfer_reading(contents, key) == Err::<TransferInfo, Fault>(
                Fault::InvalidRecord,
            )
            &&& contents.contains_key(at) ==> (records::transfer_of(contents[at]) matches Some(info)
                ==> transfer_reading(contents, key) == Ok::<TransferInfo, Fault>(info))
        }),
        ({
            let at = ("rgb"@, "wallet_config"@, key);
            &&& !contents.contains_key(at) ==> config_at(contents, key) is None
            &&& contents.contains_key(at) ==> (config_at(contents, key) is Some
                <==> vstd::utf8::valid_utf8(contents[at]))
            &&& contents.contains_key(at) && vstd::utf8::valid_utf8(contents[at]) ==> config_at(
                contents,
                key,
            ) == Some(vstd::utf8::decode_utf8(contents[at]))
        }),
{
}

/// A failure of the store is told apart from data that is there and is invalid.
pub proof fn law_reading_errors<K: KVStoreSync>(
    kv_store: K,
    namespace: Seq<char>,
    key: Seq<char>,
)
    ensures
        kv_store.contents().contains_key(("rgb"@, namespace, key)) ==> reading_error(
            kv_store,
            namespace,
            key,
        ) == ReadError::<K::Failure>::InvalidData,
        !kv_store.contents().contains_key(("rgb"@, namespace, key)) ==> reading_error(
            kv_store,
            namespace,
            key,
        ) == ReadError::<K::Failure>::Store(kv_store.read_failure(("rgb"@, namespace, key))),
{
}

/// A hop is kept for an outbound colored payment if and only if it was given and its channel has
/// settled info with the contract of the payment and at least the amount of the payment on the
/// holder's side. What the other side has does not matter, nor does any other hop. A payment that
/// is not colored keeps every hop.
pub proof fn law_hop_is_kept_if_it_can_pay(
    contents: Contents,
    payment_hash: PaymentHash,
    hops: Seq<ChannelDetails>,
    hop: ChannelDetails,
)
    ensures
        payment_info_at(contents, payment_hash.text(), false) matches Some(payment) ==> (
        sufficient_hops(contents, payment_hash, hops).contains(hop) <==> {
            &&& hops.contains(hop)
            &&& channel_info_at(contents, hop.channel_id.text(), false) matches Some(info)
            &&& info.contract_id == payment.contract_id
            &&& info.local_rgb_amount >= payment.amount
        }),
        payment_info_at(contents, payment_hash.text(), false) is None ==> sufficient_hops(
            contents,
            payment_hash,
            hops,
        ) == hops,
{
    law_filter_keeps_sufficient(contents, payment_hash, hops, hop);
}

/// Filtering looks at each hop by itself, and keeps the order and the number of the hops that it
/// keeps: a further hop stands last, if it can pay, and changes nothing otherwise.
pub proof fn law_filter_keeps_order(
    contents: Contents,
    payment_hash: PaymentHash,
    hops: Seq<ChannelDetails>,
    hop: ChannelDetails,
    payment: RgbPaymentInfo,
)
    requires
        payment_info_at(contents, payment_hash.text(), false) == Some(payment),
    ensures
        sufficient_hops(contents, payment_hash, Seq::empty()) == Seq::<ChannelDetails>::empty(),
        ({
            let kept = sufficient_hops(contents, payment_hash, hops);
            let more = sufficient_hops(contents, payment_hash, hops.push(hop));
            let pays = {
                &&& channel_info_at(contents, hop.channel_id.text(), false) matches Some(info)
                &&& info.contract_id == payment.contract_id
                &&& info.local_rgb_amount >= payment.amount
            };
            &&& pays ==> more == kept.push(hop)
            &&& !pays ==> more == kept
        }),
{
    reveal(Seq::filter);
    assert(hops.push(hop).drop_last() =~= hops);
    assert(hops.push(hop).last() == hop);
}

} // verus!
