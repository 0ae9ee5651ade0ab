//! The key-value store that holds the records, as the library sees it.

use crate::constants::{
    RGB_CHANNEL_INFO_NS, RGB_CHANNEL_INFO_PENDING_NS, RGB_CONSIGNMENT_NS,
    RGB_PAYMENT_INFO_INBOUND_NS, RGB_PAYMENT_INFO_OUTBOUND_NS, RGB_PRIMARY_NS,
    RGB_TRANSFER_INFO_NS, RGB_WALLET_CONFIG_NS,
};
use crate::error::Fault;
use vstd::prelude::*;

verus! {

/// Where something is stored: a primary namespace, a secondary namespace and a key.
pub type StoreKey = (Seq<char>, Seq<char>, Seq<char>);

/// What a store holds: the data that can be read under each key.
pub type Contents = Map<StoreKey, Seq<u8>>;

/// A key-value store.
///
/// Implementations persist data under a primary namespace, a secondary namespace and a key. What
/// a store holds and what has been asked of it is told by the specification functions, over which
/// the contracts of the methods are stated. Nothing else may write to the store between two calls
/// that are made through it.
///
/// A verified implementation gives each specification function. The bodies here only spare
/// implementations that are not verified from naming ghost types: being one fixed value for each
/// type, they cannot meet the contracts of `write` and `remove`, and nothing should be concluded
/// of a type that keeps them. What such an implementation owes is that there are contents,
/// failures, and counts of refusals and deferrals, changing from call to call, for which its
/// methods keep their contracts.
pub trait KVStoreSync {
    /// The error of the store.
    type Failure;

    /// What can be read from the store.
    open spec fn contents(&self) -> Contents {
        arbitrary()
    }

    /// The error that reading a key gives under which nothing can be read.
    open spec fn read_failure(&self, at: StoreKey) -> Self::Failure {
        arbitrary()
    }

    /// The error that removing a key gives where the store refuses to remove it.
    open spec fn remove_failure(&self, at: StoreKey) -> Self::Failure {
        arbitrary()
    }

    /// How often the store has refused to write or to remove something, up to now.
    open spec fn refusals(&self) -> nat {
        arbitrary()
    }

    /// How often the store has been allowed to put off persisting a removal, up to now.
    open spec fn deferrals(&self) -> nat {
        arbitrary()
    }

    /// Returns the data stored under the key.
    fn read(
        &self,
        primary_namespace: &str,
        secondary_namespace: &str,
        key: &str,
    ) -> (r: Result<Vec<u8>, Self::Failure>)
        ensures
            ({
                let at = (primary_namespace@, secondary_namespace@, key@);
                match r {
                    Ok(data) => self.contents().contains_key(at) && self.contents()[at] == data@,
                    Err(e) => !self.contents().contains_key(at) && e == self.read_failure(at),
                }
            }),
    ;

    /// Persists the data under the key.
    ///
    /// What the store holds after it has refused to do so is left open.
    fn write(
        &mut self,
        primary_namespace: &str,
        secondary_namespace: &str,
        key: &str,
        buf: Vec<u8>,
    ) -> (r: Result<(), Self::Failure>)
        ensures
            final(self).deferrals() == old(self).deferrals(),
            match r {
                Ok(_) => {
                    &&& final(self).refusals() == old(self).refusals()
                    &&& final(self).contents() == old(self).contents().insert(
                        (primary_namespace@, secondary_namespace@, key@),
                        buf@,
                    )
                },
                Err(_) => final(self).refusals() == old(self).refusals() + 1,
            },
    ;

    /// Removes the data stored under the key, if there is any.
    ///
    /// What the store holds after it has refused to do so is left open. With `lazy` set, the
    /// store may put off persisting the removal.
    fn remove(
        &mut self,
        primary_namespace: &str,
        secondary_namespace: &str,
        key: &str,
        lazy: bool,
    ) -> (r: Result<(), Self::Failure>)
        ensures
            final(self).deferrals() == old(self).deferrals() + if lazy {
                1nat
            } else {
                0nat
            },
            match r {
                Ok(_) => {
                    &&& final(self).refusals() == old(self).refusals()
                    &&& final(self).contents() == old(self).contents().remove(
                        (primary_namespace@, secondary_namespace@, key@),
                    )
                },
                Err(e) => {
                    &&& final(self).refusals() == old(self).refusals() + 1
                    &&& e == old(self).remove_failure(
                        (primary_namespace@, secondary_namespace@, key@),
                    )
                },
            },
    ;
}

/// Where a piece of RGB data is stored.
pub open spec fn rgb_key(namespace: Seq<char>, key: Seq<char>) -> StoreKey {
    (RGB_PRIMARY_NS@, namespace, key)
}

/// The RGB data that can be read under a key, if any can.
pub open spec fn lookup(contents: Contents, namespace: Seq<char>, key: Seq<char>) -> Option<
    Seq<u8>,
> {
    if contents.contains_key(rgb_key(namespace, key)) {
        Some(contents[rgb_key(namespace, key)])
    } else {
        None
    }
}

/// The contents with a piece of RGB data put under a key.
pub open spec fn put(
    contents: Contents,
    namespace: Seq<char>,
    key: Seq<char>,
    data: Seq<u8>,
) -> Contents {
    contents.insert(rgb_key(namespace, key), data)
}

/// The contents without the RGB data under a key.
pub open spec fn without(contents: Contents, namespace: Seq<char>, key: Seq<char>) -> Contents {
    contents.remove(rgb_key(namespace, key))
}

/// What an operation on a store comes to, given what it comes to where the store refuses nothing.
///
/// Where the store has refused nothing, the contents and the result are the expected ones. The
/// first refusal ends the operation, and only a refusal makes it end with
/// [`Fault::StoreRefused`]. Either way the store has not been allowed to put off a removal.
pub open spec fn settles<K: KVStoreSync, T>(
    before: K,
    after: K,
    result: Result<T, Fault>,
    expected: (Contents, Result<T, Fault>),
) -> bool {
    &&& after.deferrals() == before.deferrals()
    &&& if after.refusals() == before.refusals() {
        &&& after.contents() == expected.0
        &&& result == expected.1
        &&& !(result matches Err(Fault::StoreRefused))
    } else {
        &&& after.refusals() == before.refusals() + 1
        &&& result matches Err(fault)
        &&& fault == Fault::StoreRefused
    }
}

/// The namespace of channel info.
pub open spec fn channel_ns(pending: bool) -> Seq<char> {
    if pending {
        RGB_CHANNEL_INFO_PENDING_NS@
    } else {
        RGB_CHANNEL_INFO_NS@
    }
}

/// The namespace of payment info.
pub open spec fn payment_ns(inbound: bool) -> Seq<char> {
    if inbound {
        RGB_PAYMENT_INFO_INBOUND_NS@
    } else {
        RGB_PAYMENT_INFO_OUTBOUND_NS@
    }
}

/// Whether two stores hold the same but for payment info.
pub open spec fn same_but_payments(before: Contents, after: Contents) -> bool {
    forall|at: StoreKey|
        at.0 != RGB_PRIMARY_NS@ || (at.1 != payment_ns(true) && at.1 != payment_ns(false)) ==> {
            &&& #[trigger] after.contains_key(at) <==> before.contains_key(at)
            &&& before.contains_key(at) ==> after[at] == before[at]
        }
}

/// The namespaces of the records are different from one another.
pub proof fn law_namespaces_differ()
    ensures
        ({
            let names = seq![
                RGB_CHANNEL_INFO_NS@,
                RGB_CHANNEL_INFO_PENDING_NS@,
                RGB_PAYMENT_INFO_INBOUND_NS@,
                RGB_PAYMENT_INFO_OUTBOUND_NS@,
                RGB_TRANSFER_INFO_NS@,
                RGB_CONSIGNMENT_NS@,
                RGB_WALLET_CONFIG_NS@,
            ];
            forall|i: int, j: int| 0 <= i < j < names.len() ==> names[i] != names[j]
        }),
{
    reveal_strlit("channel_info");
    reveal_strlit("channel_info_pending");
    reveal_strlit("payment_info_inbound");
    reveal_strlit("payment_info_outbound");
    reveal_strlit("transfer_info");
    reveal_strlit("consignment");
    reveal_strlit("wallet_config");
    assert(RGB_CHANNEL_INFO_NS@.len() == 12);
    assert(RGB_CHANNEL_INFO_PENDING_NS@.len() == 20 && RGB_CHANNEL_INFO_PENDING_NS@[0] == 'c');
    assert(RGB_PAYMENT_INFO_INBOUND_NS@.len() == 20 && RGB_PAYMENT_INFO_INBOUND_NS@[0] == 'p');
    assert(RGB_PAYMENT_INFO_OUTBOUND_NS@.len() == 21);
    assert(RGB_TRANSFER_INFO_NS@.len() == 13 && RGB_TRANSFER_INFO_NS@[0] == 't');
    assert(RGB_CONSIGNMENT_NS@.len() == 11);
    assert(RGB_WALLET_CONFIG_NS@.len() == 13 && RGB_WALLET_CONFIG_NS@[0] == 'w');
}

/// The namespaces between which records are looked up are different from one another.
pub proof fn lemma_record_namespaces()
    ensures
        channel_ns(true) != channel_ns(false),
        payment_ns(true) != payment_ns(false),
        forall|p: bool, q: bool| channel_ns(p) != payment_ns(q),
        forall|p: bool| channel_ns(p) != RGB_CONSIGNMENT_NS@,
        forall|p: bool| channel_ns(p) != RGB_TRANSFER_INFO_NS@,
        forall|q: bool| payment_ns(q) != RGB_TRANSFER_INFO_NS@,
        forall|q: bool| payment_ns(q) != RGB_CONSIGNMENT_NS@,
{
    let names = seq![
        RGB_CHANNEL_INFO_NS@,
        RGB_CHANNEL_INFO_PENDING_NS@,
        RGB_PAYMENT_INFO_INBOUND_NS@,
        RGB_PAYMENT_INFO_OUTBOUND_NS@,
        RGB_TRANSFER_INFO_NS@,
        RGB_CONSIGNMENT_NS@,
        RGB_WALLET_CONFIG_NS@,
    ];
    law_namespaces_differ();
    assert(forall|i: int, j: int| 0 <= i < j < names.len() ==> names[i] != names[j]);
    assert(names[0] == channel_ns(false) && names[1] == channel_ns(true));
    assert(names[2] == payment_ns(true) && names[3] == payment_ns(false));
    assert(names[4] == RGB_TRANSFER_INFO_NS@ && names[5] == RGB_CONSIGNMENT_NS@);
}

/// The secondary namespace for pending or for settled channel info.
pub fn channel_namespace(pending: bool) -> (r: &'static str)
    ensures
        r@ == channel_ns(pending),
{
    if pending {
        RGB_CHANNEL_INFO_PENDING_NS
    } else {
        RGB_CHANNEL_INFO_NS
    }
}

/// The secondary namespace for inbound or for outbound payment info.
pub fn payment_namespace(inbound: bool) -> (r: &'static str)
    ensures
        r@ == payment_ns(inbound),
{
    if inbound {
        RGB_PAYMENT_INFO_INBOUND_NS
    } else {
        RGB_PAYMENT_INFO_OUTBOUND_NS
    }
}

/// What is put under a key is found there, and nothing else is touched.
pub proof fn law_put_is_found(
    contents: Contents,
    namespace: Seq<char>,
    key: Seq<char>,
    data: Seq<u8>,
    other_namespace: Seq<char>,
    other_key: Seq<char>,
)
    ensures
        ({
            let after = put(contents, namespace, key, data);
            let at = (RGB_PRIMARY_NS@, namespace, key);
            &&& lookup(after, namespace, key) == Some(data)
            &&& (other_namespace, other_key) != (namespace, key) ==> lookup(
                after,
                other_namespace,
                other_key,
            ) == lookup(contents, other_namespace, other_key)
            &&& after.contains_key(at) && after[at] == data
            &&& forall|k: StoreKey|
                k != at ==> {
                    &&& #[trigger] after.contains_key(k) <==> contents.contains_key(k)
                    &&& contents.contains_key(k) ==> after[k] == contents[k]
                }
        }),
{
}

/// What is removed is no longer found, and nothing else is touched.
pub proof fn law_removed_is_gone(
    contents: Contents,
    namespace: Seq<char>,
    key: Seq<char>,
    other_namespace: Seq<char>,
    other_key: Seq<char>,
)
    ensures
        ({
            let after = without(contents, namespace, key);
            let at = (RGB_PRIMARY_NS@, namespace, key);
            &&& lookup(after, namespace, key) is None
            &&& (other_namespace, other_key) != (namespace, key) ==> lookup(
                after,
                other_namespace,
                other_key,
            ) == lookup(contents, other_namespace, other_key)
            &&& !after.contains_key(at)
            &&& forall|k: StoreKey|
                k != at ==> {
                    &&& #[trigger] after.contains_key(k) <==> contents.contains_key(k)
                    &&& contents.contains_key(k) ==> after[k] == contents[k]
                }
        }),
{
}

/// A store that refuses nothing ends up with just the contents and the result that are expected. A
/// store that refuses ends the operation at once, and lets nobody take it for a success.
pub proof fn law_settled_means_expected<K: KVStoreSync, T>(
    before: K,
    after: K,
    result: Result<T, Fault>,
    expected: (Contents, Result<T, Fault>),
)
    requires
        settles(before, after, result, expected),
    ensures
        after.refusals() == before.refusals() ==> after.contents() == expected.0 && result
            == expected.1,
        after.refusals() == before.refusals() || after.refusals() == before.refusals() + 1,
        after.refusals() != before.refusals() <==> result == Err::<T, Fault>(Fault::StoreRefused),
        after.deferrals() == before.deferrals(),
{
}

/// Pending and settled channel info, and inbound and outbound payment info, each have a namespace
/// of their own.
pub proof fn law_namespaces_are_fixed()
    ensures
        channel_ns(true) == "channel_info_pending"@,
        channel_ns(false) == "channel_info"@,
        payment_ns(true) == "payment_info_inbound"@,
        payment_ns(false) == "payment_info_outbound"@,
{
}

} // verus!
