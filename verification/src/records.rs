//! The records that are kept in the store, and their encoding.
//!
//! A record is encoded field by field: a text as its length in bytes, in eight bytes, and its
//! UTF-8 bytes; a number in eight bytes; the place of a variant in its enumeration in four bytes;
//! a flag in one byte. All numbers are little-endian. What follows a record is not looked at when
//! it is read.

use crate::contract_id_serde;
use crate::contract_id_serde::ContractId;
use vstd::prelude::*;

verus! {

/// The schema of an asset.
#[derive(Clone, Copy, Debug, PartialEq, Eq, Structural)]
pub enum AssetSchema {
    /// Non-inflatable fungible asset.
    Nia,
    /// Unique digital asset.
    Uda,
    /// Collectible fungible asset.
    Cfa,
    /// Inflatable fungible asset.
    Ifa,
}

impl AssetSchema {
    /// The place of the schema in the enumeration.
    pub open spec fn place(self) -> u32 {
        match self {
            AssetSchema::Nia => 0,
            AssetSchema::Uda => 1,
            AssetSchema::Cfa => 2,
            AssetSchema::Ifa => 3,
        }
    }

    /// The place of the schema in the enumeration, from zero.
    pub fn to_place(self) -> (r: u32)
        ensures
            r == self.place(),
    {
        match self {
            AssetSchema::Nia => 0,
            AssetSchema::Uda => 1,
            AssetSchema::Cfa => 2,
            AssetSchema::Ifa => 3,
        }
    }

    /// The schema at a place in the enumeration; none beyond the end.
    pub fn from_place(place: u32) -> (r: Option<AssetSchema>)
        ensures
            match r {
                Some(schema) => schema.place() == place,
                None => place > 3,
            },
    {
        match place {
            0 => Some(AssetSchema::Nia),
            1 => Some(AssetSchema::Uda),
            2 => Some(AssetSchema::Cfa),
            3 => Some(AssetSchema::Ifa),
            _ => None,
        }
    }
}

/// RGB channel info.
#[derive(Clone, Copy, Debug, PartialEq, Eq)]
pub struct RgbInfo {
    /// Channel contract ID
    pub contract_id: ContractId,
    /// Channel schema
    pub schema: AssetSchema,
    /// Channel RGB local amount
    pub local_rgb_amount: u64,
    /// Channel RGB remote amount
    pub remote_rgb_amount: u64,
}

/// RGB payment info.
#[derive(Clone, Copy, Debug, PartialEq, Eq)]
pub struct RgbPaymentInfo {
    /// RGB contract ID
    pub contract_id: ContractId,
    /// RGB payment amount
    pub amount: u64,
    /// RGB local amount
    pub local_rgb_amount: u64,
    /// RGB remote amount
    pub remote_rgb_amount: u64,
    /// Whether the RGB amount in route should be overridden
    pub swap_payment: bool,
    /// Whether the payment is inbound
    pub inbound: bool,
}

/// RGB transfer info.
#[derive(Clone, Copy, Debug, PartialEq, Eq)]
pub struct TransferInfo {
    /// Transfer contract ID
    pub contract_id: ContractId,
    /// Transfer RGB amount
    pub rgb_amount: u64,
}

/// The encoding of a number of eight bytes.
pub open spec fn number(n: u64) -> Seq<u8> {
    vstd::bytes::spec_u64_to_le_bytes(n)
}

/// The encoding of the place of a variant in its enumeration.
pub open spec fn variant(place: u32) -> Seq<u8> {
    vstd::bytes::spec_u32_to_le_bytes(place)
}

/// The encoding of a flag.
pub open spec fn flag(b: bool) -> Seq<u8> {
    seq![if b { 1u8 } else { 0u8 }]
}

/// The encoding of a text.
pub open spec fn text_field(text: Seq<char>) -> Seq<u8> {
    number(vstd::utf8::encode_utf8(text).len() as u64) + vstd::utf8::encode_utf8(text)
}

/// What follows the contract id in channel info.
pub open spec fn channel_fields(schema: u32, local: u64, remote: u64) -> Seq<u8> {
    variant(schema) + number(local) + number(remote)
}

/// What follows the contract id in payment info.
pub open spec fn payment_fields(
    amount: u64,
    local: u64,
    remote: u64,
    swap: bool,
    inbound: bool,
) -> Seq<u8> {
    number(amount) + number(local) + number(remote) + flag(swap) + flag(inbound)
}

/// The encoding of channel info in which the text stands for the contract id.
pub open spec fn channel_record(text: Seq<char>, schema: u32, local: u64, remote: u64) -> Seq<u8> {
    text_field(text) + channel_fields(schema, local, remote)
}

/// The encoding of payment info in which the text stands for the contract id.
pub open spec fn payment_record(
    text: Seq<char>,
    amount: u64,
    local: u64,
    remote: u64,
    swap: bool,
    inbound: bool,
) -> Seq<u8> {
    text_field(text) + payment_fields(amount, local, remote, swap, inbound)
}

/// The encoding of transfer info in which the text stands for the contract id.
pub open spec fn transfer_record(text: Seq<char>, amount: u64) -> Seq<u8> {
    text_field(text) + number(amount)
}

/// `bincode::serialize` of a text, a variant's place and two numbers: the fields one after the
/// other. For these types it does not fail.
#[verifier::external_body]
fn encode_channel_record(text: &str, schema: u32, local: u64, remote: u64) -> (r: Vec<u8>)
    ensures
        r@ == channel_record(text@, schema, local, remote),
{
    bincode::serialize(&(text, schema, local, remote)).expect("valid rgb channel info")
}

/// `bincode::serialize` of a text, three numbers and two flags: the fields one after the other.
/// For these types it does not fail.
#[verifier::external_body]
fn encode_payment_record(
    text: &str,
    amount: u64,
    local: u64,
    remote: u64,
    swap: bool,
    inbound: bool,
) -> (r: Vec<u8>)
    ensures
        r@ == payment_record(text@, amount, local, remote, swap, inbound),
{
    bincode::serialize(&(text, amount, local, remote, swap, inbound)).expect(
        "valid rgb payment info",
    )
}

/// `bincode::serialize` of a text and a number: the fields one after the other. For these types
/// it does not fail.
#[verifier::external_body]
fn encode_transfer_record(text: &str, amount: u64) -> (r: Vec<u8>)
    ensures
        r@ == transfer_record(text@, amount),
{
    bincode::serialize(&(text, amount)).expect("valid transfer info")
}

/// `bincode::deserialize` into a text, a variant's place and two numbers: the fields whose
/// encoding the data starts with, if there are such fields. Trailing bytes are ignored.
#[verifier::external_body]
fn decode_channel_record(data: &[u8]) -> (r: Option<(String, u32, u64, u64)>)
    ensures
        match r {
            Some((text, schema, local, remote)) => channel_record(
                text@,
                schema,
                local,
                remote,
            ).is_prefix_of(data@),
            None => forall|text: Seq<char>, schema: u32, local: u64, remote: u64|
                !(#[trigger] channel_record(text, schema, local, remote)).is_prefix_of(data@),
        },
{
    bincode::deserialize(data).ok()
}

/// `bincode::deserialize` into a text, three numbers and two flags: the fields whose encoding the
/// data starts with, if there are such fields. Trailing bytes are ignored.
#[verifier::external_body]
fn decode_payment_record(data: &[u8]) -> (r: Option<(String, u64, u64, u64, bool, bool)>)
    ensures
        match r {
            Some((text, amount, local, remote, swap, inbound)) => payment_record(
                text@,
                amount,
                local,
                remote,
                swap,
                inbound,
            ).is_prefix_of(data@),
            None => forall|
                text: Seq<char>,
                amount: u64,
                local: u64,
                remote: u64,
                swap: bool,
                inbound: bool,
            |
                !(#[trigger] payment_record(
                    text,
                    amount,
                    local,
                    remote,
                    swap,
                    inbound,
                )).is_prefix_of(data@),
        },
{
    bincode::deserialize(data).ok()
}

/// `bincode::deserialize` into a text and a number: the fields whose encoding the data starts
/// with, if there are such fields. Trailing bytes are ignored.
#[verifier::external_body]
fn decode_transfer_record(data: &[u8]) -> (r: Option<(String, u64)>)
    ensures
        match r {
            Some((text, amount)) => transfer_record(text@, amount).is_prefix_of(data@),
            None => forall|text: Seq<char>, amount: u64|
                !(#[trigger] transfer_record(text, amount)).is_prefix_of(data@),
        },
{
    bincode::deserialize(data).ok()
}

/// The data that stands for channel info in the store.
pub open spec fn info_bytes(info: RgbInfo) -> Seq<u8> {
    channel_record(
        contract_id_serde::contract_id_text(info.contract_id.0@),
        info.schema.place(),
        info.local_rgb_amount,
        info.remote_rgb_amount,
    )
}

/// The data that stands for payment info in the store.
pub open spec fn payment_bytes(info: RgbPaymentInfo) -> Seq<u8> {
    payment_record(
        contract_id_serde::contract_id_text(info.contract_id.0@),
        info.amount,
        info.local_rgb_amount,
        info.remote_rgb_amount,
        info.swap_payment,
        info.inbound,
    )
}

/// The data that stands for transfer info in the store.
pub open spec fn transfer_bytes(info: TransferInfo) -> Seq<u8> {
    transfer_record(contract_id_serde::contract_id_text(info.contract_id.0@), info.rgb_amount)
}

/// Whether the data starts with channel info, written with the given text for the contract id.
pub open spec fn starts_with_info(data: Seq<u8>, info: RgbInfo, text: Seq<char>) -> bool {
    &&& contract_id_serde::id_of_text(text) == Some(info.contract_id)
    &&& channel_record(
        text,
        info.schema.place(),
        info.local_rgb_amount,
        info.remote_rgb_amount,
    ).is_prefix_of(data)
}

/// Whether the data starts with payment info, written with the given text for the contract id.
pub open spec fn starts_with_payment(
    data: Seq<u8>,
    info: RgbPaymentInfo,
    text: Seq<char>,
) -> bool {
    &&& contract_id_serde::id_of_text(text) == Some(info.contract_id)
    &&& payment_record(
        text,
        info.amount,
        info.local_rgb_amount,
        info.remote_rgb_amount,
        info.swap_payment,
        info.inbound,
    ).is_prefix_of(data)
}

/// Whether the data starts with transfer info, written with the given text for the contract id.
pub open spec fn starts_with_transfer(data: Seq<u8>, info: TransferInfo, text: Seq<char>) -> bool {
    &&& contract_id_serde::id_of_text(text) == Some(info.contract_id)
    &&& transfer_record(text, info.rgb_amount).is_prefix_of(data)
}

/// The channel info that stored data stands for, if it stands for any.
pub open spec fn info_of(data: Seq<u8>) -> Option<RgbInfo> {
    if exists|info: RgbInfo, text: Seq<char>| starts_with_info(data, info, text) {
        let (info, text) = choose|info: RgbInfo, text: Seq<char>|
            starts_with_info(data, info, text);
        Some(info)
    } else {
        None
    }
}

/// The payment info that stored data stands for, if it stands for any.
pub open spec fn payment_of(data: Seq<u8>) -> Option<RgbPaymentInfo> {
    if exists|info: RgbPaymentInfo, text: Seq<char>| starts_with_payment(data, info, text) {
        let (info, text) = choose|info: RgbPaymentInfo, text: Seq<char>|
            starts_with_payment(data, info, text);
        Some(info)
    } else {
        None
    }
}

/// The transfer info that stored data stands for, if it stands for any.
pub open spec fn transfer_of(data: Seq<u8>) -> Option<TransferInfo> {
    if exists|info: TransferInfo, text: Seq<char>| starts_with_transfer(data, info, text) {
        let (info, text) = choose|info: TransferInfo, text: Seq<char>|
            starts_with_transfer(data, info, text);
        Some(info)
    } else {
        None
    }
}

/// Data starts with at most one text that is followed by fields of a given length.
proof fn lemma_text_field_unique(
    data: Seq<u8>,
    t1: Seq<char>,
    a: Seq<u8>,
    t2: Seq<char>,
    b: Seq<u8>,
)
    requires
        data.len() <= u64::MAX,
        (text_field(t1) + a).is_prefix_of(data),
        (text_field(t2) + b).is_prefix_of(data),
        a.len() == b.len(),
    ensures
        t1 == t2,
        a == b,
{
    vstd::bytes::lemma_auto_spec_u64_to_from_le_bytes();
    let u1 = vstd::utf8::encode_utf8(t1);
    let u2 = vstd::utf8::encode_utf8(t2);
    let r1 = text_field(t1) + a;
    let r2 = text_field(t2) + b;
    assert(r1.subrange(0, 8) =~= number(u1.len() as u64));
    assert(r2.subrange(0, 8) =~= number(u2.len() as u64));
    assert(r1.subrange(0, 8) =~= data.subrange(0, 8));
    assert(r2.subrange(0, 8) =~= data.subrange(0, 8));
    assert(u1.len() == u2.len());
    assert(r1 =~= r2);
    let n = 8 + u1.len() as int;
    assert(r1.subrange(8, n) =~= u1);
    assert(r2.subrange(8, n) =~= u2);
    vstd::utf8::encode_utf8_decode_utf8(t1);
    vstd::utf8::encode_utf8_decode_utf8(t2);
    assert(r1.subrange(n, r1.len() as int) =~= a);
    assert(r2.subrange(n, r2.len() as int) =~= b);
}

/// The fields of channel info are told by their encoding.
proof fn lemma_channel_fields_unique(s1: u32, l1: u64, m1: u64, s2: u32, l2: u64, m2: u64)
    ensures
        channel_fields(s1, l1, m1).len() == 20,
        channel_fields(s1, l1, m1) == channel_fields(s2, l2, m2) ==> s1 == s2 && l1 == l2 && m1
            == m2,
{
    vstd::bytes::lemma_auto_spec_u64_to_from_le_bytes();
    vstd::bytes::lemma_auto_spec_u32_to_from_le_bytes();
    let x = channel_fields(s1, l1, m1);
    let y = channel_fields(s2, l2, m2);
    assert(x.subrange(0, 4) =~= variant(s1) && y.subrange(0, 4) =~= variant(s2));
    assert(x.subrange(4, 12) =~= number(l1) && y.subrange(4, 12) =~= number(l2));
    assert(x.subrange(12, 20) =~= number(m1) && y.subrange(12, 20) =~= number(m2));
}

/// The fields of payment info are told by their encoding.
proof fn lemma_payment_fields_unique(
    a1: u64,
    l1: u64,
    m1: u64,
    s1: bool,
    i1: bool,
    a2: u64,
    l2: u64,
    m2: u64,
    s2: bool,
    i2: bool,
)
    ensures
        payment_fields(a1, l1, m1, s1, i1).len() == 26,
        payment_fields(a1, l1, m1, s1, i1) == payment_fields(a2, l2, m2, s2, i2) ==> {
            &&& a1 == a2
            &&& l1 == l2
            &&& m1 == m2
            &&& s1 == s2
            &&& i1 == i2
        },
{
    vstd::bytes::lemma_auto_spec_u64_to_from_le_bytes();
    let x = payment_fields(a1, l1, m1, s1, i1);
    let y = payment_fields(a2, l2, m2, s2, i2);
    assert(x.subrange(0, 8) =~= number(a1) && y.subrange(0, 8) =~= number(a2));
    assert(x.subrange(8, 16) =~= number(l1) && y.subrange(8, 16) =~= number(l2));
    assert(x.subrange(16, 24) =~= number(m1) && y.subrange(16, 24) =~= number(m2));
    assert(x[24] == flag(s1)[0] && y[24] == flag(s2)[0]);
    assert(x[25] == flag(i1)[0] && y[25] == flag(i2)[0]);
}

/// Data starts with at most one channel record.
proof fn lemma_channel_unique(
    data: Seq<u8>,
    t1: Seq<char>,
    s1: u32,
    l1: u64,
    m1: u64,
    t2: Seq<char>,
    s2: u32,
    l2: u64,
    m2: u64,
)
    requires
        data.len() <= u64::MAX,
        channel_record(t1, s1, l1, m1).is_prefix_of(data),
        channel_record(t2, s2, l2, m2).is_prefix_of(data),
    ensures
        t1 == t2,
        s1 == s2,
        l1 == l2,
        m1 == m2,
{
    lemma_channel_fields_unique(s1, l1, m1, s2, l2, m2);
    lemma_channel_fields_unique(s2, l2, m2, s1, l1, m1);
    lemma_text_field_unique(
        data,
        t1,
        channel_fields(s1, l1, m1),
        t2,
        channel_fields(s2, l2, m2),
    );
}

/// Data starts with at most one payment record.
proof fn lemma_payment_unique(
    data: Seq<u8>,
    t1: Seq<char>,
    a1: u64,
    l1: u64,
    m1: u64,
    s1: bool,
    i1: bool,
    t2: Seq<char>,
    a2: u64,
    l2: u64,
    m2: u64,
    s2: bool,
    i2: bool,
)
    requires
        data.len() <= u64::MAX,
        payment_record(t1, a1, l1, m1, s1, i1).is_prefix_of(data),
        payment_record(t2, a2, l2, m2, s2, i2).is_prefix_of(data),
    ensures
        t1 == t2,
        a1 == a2,
        l1 == l2,
        m1 == m2,
        s1 == s2,
        i1 == i2,
{
    lemma_payment_fields_unique(a1, l1, m1, s1, i1, a2, l2, m2, s2, i2);
    lemma_payment_fields_unique(a2, l2, m2, s2, i2, a1, l1, m1, s1, i1);
    lemma_text_field_unique(
        data,
        t1,
        payment_fields(a1, l1, m1, s1, i1),
        t2,
        payment_fields(a2, l2, m2, s2, i2),
    );
}

/// Data starts with at most one transfer record.
proof fn lemma_transfer_unique(data: Seq<u8>, t1: Seq<char>, a1: u64, t2: Seq<char>, a2: u64)
    requires
        data.len() <= u64::MAX,
        transfer_record(t1, a1).is_prefix_of(data),
        transfer_record(t2, a2).is_prefix_of(data),
    ensures
        t1 == t2,
        a1 == a2,
{
    vstd::bytes::lemma_auto_spec_u64_to_from_le_bytes();
    lemma_text_field_unique(data, t1, number(a1), t2, number(a2));
}

/// Data stands for at most one channel info.
proof fn lemma_info_of(data: Seq<u8>, info: RgbInfo, text: Seq<char>)
    requires
        data.len() <= u64::MAX,
        starts_with_info(data, info, text),
    ensures
        info_of(data) == Some(info),
{
    let (other, other_text) = choose|other: RgbInfo, other_text: Seq<char>|
        starts_with_info(data, other, other_text);
    lemma_channel_unique(
        data,
        text,
        info.schema.place(),
        info.local_rgb_amount,
        info.remote_rgb_amount,
        other_text,
        other.schema.place(),
        other.local_rgb_amount,
        other.remote_rgb_amount,
    );
}

/// Data stands for at most one payment info.
proof fn lemma_payment_of(data: Seq<u8>, info: RgbPaymentInfo, text: Seq<char>)
    requires
        data.len() <= u64::MAX,
        starts_with_payment(data, info, text),
    ensures
        payment_of(data) == Some(info),
{
    let (other, other_text) = choose|other: RgbPaymentInfo, other_text: Seq<char>|
        starts_with_payment(data, other, other_text);
    lemma_payment_unique(
        data,
        text,
        info.amount,
        info.local_rgb_amount,
        info.remote_rgb_amount,
        info.swap_payment,
        info.inbound,
        other_text,
        other.amount,
        other.local_rgb_amount,
        other.remote_rgb_amount,
        other.swap_payment,
        other.inbound,
    );
}

/// Data stands for at most one transfer info.
proof fn lemma_transfer_of(data: Seq<u8>, info: TransferInfo, text: Seq<char>)
    requires
        data.len() <= u64::MAX,
        starts_with_transfer(data, info, text),
    ensures
        transfer_of(data) == Some(info),
{
    let (other, other_text) = choose|other: TransferInfo, other_text: Seq<char>|
        starts_with_transfer(data, other, other_text);
    lemma_transfer_unique(data, text, info.rgb_amount, other_text, other.rgb_amount);
}

/// The encoding of channel info is read as the info, where the text of its contract id is read as
/// that id.
pub proof fn law_info_reads_back(info: RgbInfo)
    requires
        info_bytes(info).len() <= u64::MAX,
        contract_id_serde::reads_back(info.contract_id),
    ensures
        info_of(info_bytes(info)) == Some(info),
{
    let data = info_bytes(info);
    assert(data.subrange(0, data.len() as int) =~= data);
    lemma_info_of(data, info, contract_id_serde::contract_id_text(info.contract_id.0@));
}

/// The encoding of payment info is read as the info, where the text of its contract id is read as
/// that id.
pub proof fn law_payment_reads_back(info: RgbPaymentInfo)
    requires
        payment_bytes(info).len() <= u64::MAX,
        contract_id_serde::reads_back(info.contract_id),
    ensures
        payment_of(payment_bytes(info)) == Some(info),
{
    let data = payment_bytes(info);
    assert(data.subrange(0, data.len() as int) =~= data);
    lemma_payment_of(data, info, contract_id_serde::contract_id_text(info.contract_id.0@));
}

/// The encoding of transfer info is read as the info, where the text of its contract id is read as
/// that id.
pub proof fn law_transfer_reads_back(info: TransferInfo)
    requires
        transfer_bytes(info).len() <= u64::MAX,
        contract_id_serde::reads_back(info.contract_id),
    ensures
        transfer_of(transfer_bytes(info)) == Some(info),
{
    let data = transfer_bytes(info);
    assert(data.subrange(0, data.len() as int) =~= data);
    lemma_transfer_of(data, info, contract_id_serde::contract_id_text(info.contract_id.0@));
}

impl RgbInfo {
    /// The data that stands for this info in the store. It is read back as this info.
    pub fn encode(&self) -> (r: Vec<u8>)
        ensures
            r@ == info_bytes(*self),
            info_of(r@) == Some(*self),
    {
        let text = contract_id_serde::serialize(&self.contract_id);
        let r = encode_channel_record(
            text.as_str(),
            self.schema.to_place(),
            self.local_rgb_amount,
            self.remote_rgb_amount,
        );
        proof {
            assert(r@.len() == r.len());
            law_info_reads_back(*self);
        }
        r
    }

    /// The info that stored data stands for, if it stands for any.
    pub fn decode(data: &[u8]) -> (r: Option<RgbInfo>)
        ensures
            r == info_of(data@),
    {
        match decode_channel_record(data) {
            Some((text, place, local, remote)) => {
                let schema = AssetSchema::from_place(place);
                let contract_id = contract_id_serde::deserialize(text.as_str());
                proof {
                    assert(data@.len() == data.len());
                    assert forall|info: RgbInfo, t: Seq<char>|
                        starts_with_info(data@, info, t) implies schema == Some(info.schema)
                        && contract_id == Some(info.contract_id) by {
                        lemma_channel_unique(
                            data@,
                            text@,
                            place,
                            local,
                            remote,
                            t,
                            info.schema.place(),
                            info.local_rgb_amount,
                            info.remote_rgb_amount,
                        );
                    }
                }
                match (schema, contract_id) {
                    (Some(schema), Some(contract_id)) => {
                        let info = RgbInfo {
                            contract_id,
                            schema,
                            local_rgb_amount: local,
                            remote_rgb_amount: remote,
                        };
                        proof {
                            lemma_info_of(data@, info, text@);
                        }
                        Some(info)
                    },
                    _ => None,
                }
            },
            None => None,
        }
    }
}

impl RgbPaymentInfo {
    /// The data that stands for this info in the store. It is read back as this info.
    pub fn encode(&self) -> (r: Vec<u8>)
        ensures
            r@ == payment_bytes(*self),
            payment_of(r@) == Some(*self),
    {
        let text = contract_id_serde::serialize(&self.contract_id);
        let r = encode_payment_record(
            text.as_str(),
            self.amount,
            self.local_rgb_amount,
            self.remote_rgb_amount,
            self.swap_payment,
            self.inbound,
        );
        proof {
            assert(r@.len() == r.len());
            law_payment_reads_back(*self);
        }
        r
    }

    /// The info that stored data stands for, if it stands for any.
    pub fn decode(data: &[u8]) -> (r: Option<RgbPaymentInfo>)
        ensures
            r == payment_of(data@),
    {
        match decode_payment_record(data) {
            Some((text, amount, local, remote, swap, inbound)) => {
                let contract_id = contract_id_serde::deserialize(text.as_str());
                proof {
                    assert(data@.len() == data.len());
                    assert forall|info: RgbPaymentInfo, t: Seq<char>|
                        starts_with_payment(data@, info, t) implies contract_id == Some(
                        info.contract_id,
                    ) by {
                        lemma_payment_unique(
                            data@,
                            text@,
                            amount,
                            local,
                            remote,
                            swap,
                            inbound,
                            t,
                            info.amount,
                            info.local_rgb_amount,
                            info.remote_rgb_amount,
                            info.swap_payment,
                            info.inbound,
                        );
                    }
                }
                match contract_id {
                    Some(contract_id) => {
                        let info = RgbPaymentInfo {
                            contract_id,
                            amount,
                            local_rgb_amount: local,
                            remote_rgb_amount: remote,
                            swap_payment: swap,
                            inbound,
                        };
                        proof {
                            lemma_payment_of(data@, info, text@);
                        }
                        Some(info)
                    },
                    None => None,
                }
            },
            None => None,
        }
    }
}

impl TransferInfo {
    /// The data that stands for this info in the store. It is read back as this info.
    pub fn encode(&self) -> (r: Vec<u8>)
        ensures
            r@ == transfer_bytes(*self),
            transfer_of(r@) == Some(*self),
    {
        let text = contract_id_serde::serialize(&self.contract_id);
        let r = encode_transfer_record(text.as_str(), self.rgb_amount);
        proof {
            assert(r@.len() == r.len());
            law_transfer_reads_back(*self);
        }
        r
    }

    /// The info that stored data stands for, if it stands for any.
    pub fn decode(data: &[u8]) -> (r: Option<TransferInfo>)
        ensures
            r == transfer_of(data@),
    {
        match decode_transfer_record(data) {
            Some((text, amount)) => {
                let contract_id = contract_id_serde::deserialize(text.as_str());
                proof {
                    assert(data@.len() == data.len());
                    assert forall|info: TransferInfo, t: Seq<char>|
                        starts_with_transfer(data@, info, t) implies contract_id == Some(
                        info.contract_id,
                    ) by {
                        lemma_transfer_unique(data@, text@, amount, t, info.rgb_amount);
                    }
                }
                match contract_id {
                    Some(contract_id) => {
                        let info = TransferInfo { contract_id, rgb_amount: amount };
                        proof {
                            lemma_transfer_of(data@, info, text@);
                        }
                        Some(info)
                    },
                    None => None,
                }
            },
            None => None,
        }
    }
}

/// Records are laid out field by field: the text of the contract id with its length before it, then
/// the numbers, the place of the schema and the flags, each at a fixed distance behind the text.
pub proof fn law_layout(info: RgbInfo, payment: RgbPaymentInfo, transfer: TransferInfo)
    ensures
        ({
            let text = vstd::utf8::encode_utf8(
                contract_id_serde::contract_id_text(info.contract_id.0@),
            );
            let data = info_bytes(info);
            let n = 8 + text.len() as int;
            &&& data.len() == n + 20
            &&& data.subrange(0, 8) == vstd::bytes::spec_u64_to_le_bytes(text.len() as u64)
            &&& data.subrange(8, n) == text
            &&& data.subrange(n, n + 4) == vstd::bytes::spec_u32_to_le_bytes(
                match info.schema {
                    AssetSchema::Nia => 0u32,
                    AssetSchema::Uda => 1u32,
                    AssetSchema::Cfa => 2u32,
                    AssetSchema::Ifa => 3u32,
                },
            )
            &&& data.subrange(n + 4, n + 12) == vstd::bytes::spec_u64_to_le_bytes(
                info.local_rgb_amount,
            )
            &&& data.subrange(n + 12, n + 20) == vstd::bytes::spec_u64_to_le_bytes(
                info.remote_rgb_amount,
            )
        }),
        ({
            let text = vstd::utf8::encode_utf8(
                contract_id_serde::contract_id_text(payment.contract_id.0@),
            );
            let data = payment_bytes(payment);
            let n = 8 + text.len() as int;
            &&& data.len() == n + 26
            &&& data.subrange(0, 8) == vstd::bytes::spec_u64_to_le_bytes(text.len() as u64)
            &&& data.subrange(8, n) == text
            &&& data.subrange(n, n + 8) == vstd::bytes::spec_u64_to_le_bytes(payment.amount)
            &&& data.subrange(n + 8, n + 16) == vstd::bytes::spec_u64_to_le_bytes(
                payment.local_rgb_amount,
            )
            &&& data.subrange(n + 16, n + 24) == vstd::bytes::spec_u64_to_le_bytes(
                payment.remote_rgb_amount,
            )
            &&& data[n + 24] == if payment.swap_payment {
                1u8
            } else {
                0u8
            }
            &&& data[n + 25] == if payment.inbound {
                1u8
            } else {
                0u8
            }
        }),
        ({
            let text = vstd::utf8::encode_utf8(
                contract_id_serde::contract_id_text(transfer.contract_id.0@),
            );
            let data = transfer_bytes(transfer);
            let n = 8 + text.len() as int;
            &&& data.len() == n + 8
            &&& data.subrange(0, 8) == vstd::bytes::spec_u64_to_le_bytes(text.len() as u64)
            &&& data.subrange(8, n) == text
            &&& data.subrange(n, n + 8) == vstd::bytes::spec_u64_to_le_bytes(transfer.rgb_amount)
        }),
{
    vstd::bytes::lemma_auto_spec_u64_to_from_le_bytes();
    vstd::bytes::lemma_auto_spec_u32_to_from_le_bytes();
    let t = vstd::utf8::encode_utf8(contract_id_serde::contract_id_text(info.contract_id.0@));
    let d = info_bytes(info);
    let n = 8 + t.len() as int;
    assert(d.subrange(0, 8) =~= number(t.len() as u64));
    assert(d.subrange(8, n) =~= t);
    assert(d.subrange(n, n + 4) =~= variant(info.schema.place()));
    assert(d.subrange(n + 4, n + 12) =~= number(info.local_rgb_amount));
    assert(d.subrange(n + 12, n + 20) =~= number(info.remote_rgb_amount));
    let t = vstd::utf8::encode_utf8(contract_id_serde::contract_id_text(payment.contract_id.0@));
    let d = payment_bytes(payment);
    let n = 8 + t.len() as int;
    assert(d.subrange(0, 8) =~= number(t.len() as u64));
    assert(d.subrange(8, n) =~= t);
    assert(d.subrange(n, n + 8) =~= number(payment.amount));
    assert(d.subrange(n + 8, n + 16) =~= number(payment.local_rgb_amount));
    assert(d.subrange(n + 16, n + 24) =~= number(payment.remote_rgb_amount));
    let t = vstd::utf8::encode_utf8(contract_id_serde::contract_id_text(transfer.contract_id.0@));
    let d = transfer_bytes(transfer);
    let n = 8 + t.len() as int;
    assert(d.subrange(0, 8) =~= number(t.len() as u64));
    assert(d.subrange(8, n) =~= t);
    assert(d.subrange(n, n + 8) =~= number(transfer.rgb_amount));
}

/// Data is read by its start: whatever text stands for the contract id, and whatever follows, the
/// fields are those that were laid out.
pub proof fn law_records_are_read_by_their_start(
    text: Seq<char>,
    info: RgbInfo,
    payment: RgbPaymentInfo,
    transfer: TransferInfo,
    rest: Seq<u8>,
)
    requires
        vstd::utf8::encode_utf8(text).len() + rest.len() + 100 <= u64::MAX,
    ensures
        ({
            let start = vstd::bytes::spec_u64_to_le_bytes(
                vstd::utf8::encode_utf8(text).len() as u64,
            ) + vstd::utf8::encode_utf8(text);
            &&& contract_id_serde::id_of_text(text) == Some(info.contract_id) ==> info_of(
                start + vstd::bytes::spec_u32_to_le_bytes(
                    info.schema.place(),
                ) + vstd::bytes::spec_u64_to_le_bytes(info.local_rgb_amount)
                    + vstd::bytes::spec_u64_to_le_bytes(info.remote_rgb_amount) + rest,
            ) == Some(info)
            &&& contract_id_serde::id_of_text(text) == Some(payment.contract_id) ==> payment_of(
                start + vstd::bytes::spec_u64_to_le_bytes(payment.amount)
                    + vstd::bytes::spec_u64_to_le_bytes(payment.local_rgb_amount)
                    + vstd::bytes::spec_u64_to_le_bytes(payment.remote_rgb_amount) + seq![
                    if payment.swap_payment { 1u8 } else { 0u8 },
                    if payment.inbound { 1u8 } else { 0u8 },
                ] + rest,
            ) == Some(payment)
            &&& contract_id_serde::id_of_text(text) == Some(transfer.contract_id) ==> transfer_of(
                start + vstd::bytes::spec_u64_to_le_bytes(transfer.rgb_amount) + rest,
            ) == Some(transfer)
        }),
{
    vstd::bytes::lemma_auto_spec_u64_to_from_le_bytes();
    vstd::bytes::lemma_auto_spec_u32_to_from_le_bytes();
    let start = number(vstd::utf8::encode_utf8(text).len() as u64) + vstd::utf8::encode_utf8(text);
    if contract_id_serde::id_of_text(text) == Some(info.contract_id) {
        let data = start + variant(info.schema.place()) + number(info.local_rgb_amount) + number(
            info.remote_rgb_amount,
        ) + rest;
        let record = channel_record(
            text,
            info.schema.place(),
            info.local_rgb_amount,
            info.remote_rgb_amount,
        );
        assert(data =~= record + rest);
        assert(data.subrange(0, record.len() as int) =~= record);
        lemma_info_of(data, info, text);
    }
    if contract_id_serde::id_of_text(text) == Some(payment.contract_id) {
        let flags = seq![
            if payment.swap_payment { 1u8 } else { 0u8 },
            if payment.inbound { 1u8 } else { 0u8 },
        ];
        let data = start + number(payment.amount) + number(payment.local_rgb_amount) + number(
            payment.remote_rgb_amount,
        ) + flags + rest;
        let record = payment_record(
            text,
            payment.amount,
            payment.local_rgb_amount,
            payment.remote_rgb_amount,
            payment.swap_payment,
            payment.inbound,
        );
        assert(data =~= record + rest);
        assert(data.subrange(0, record.len() as int) =~= record);
        lemma_payment_of(data, payment, text);
    }
    if contract_id_serde::id_of_text(text) == Some(transfer.contract_id) {
        let data = start + number(transfer.rgb_amount) + rest;
        let record = transfer_record(text, transfer.rgb_amount);
        assert(data =~= record + rest);
        assert(data.subrange(0, record.len() as int) =~= record);
        lemma_transfer_of(data, transfer, text);
    }
}

/// What is read from data is laid out at its start, behind a text that stands for the contract id.
pub proof fn law_read_record_is_in_the_data(data: Seq<u8>)
    ensures
        info_of(data) matches Some(info) ==> exists|text: Seq<char>|
            {
                &&& #[trigger] contract_id_serde::id_of_text(text) == Some(info.contract_id)
                &&& (vstd::bytes::spec_u64_to_le_bytes(vstd::utf8::encode_utf8(text).len() as u64)
                    + vstd::utf8::encode_utf8(text) + vstd::bytes::spec_u32_to_le_bytes(
                    info.schema.place(),
                ) + vstd::bytes::spec_u64_to_le_bytes(info.local_rgb_amount)
                    + vstd::bytes::spec_u64_to_le_bytes(info.remote_rgb_amount)).is_prefix_of(data)
            },
        payment_of(data) matches Some(payment) ==> exists|text: Seq<char>|
            {
                &&& #[trigger] contract_id_serde::id_of_text(text) == Some(payment.contract_id)
                &&& (vstd::bytes::spec_u64_to_le_bytes(vstd::utf8::encode_utf8(text).len() as u64)
                    + vstd::utf8::encode_utf8(text) + vstd::bytes::spec_u64_to_le_bytes(
                    payment.amount,
                ) + vstd::bytes::spec_u64_to_le_bytes(payment.local_rgb_amount)
                    + vstd::bytes::spec_u64_to_le_bytes(payment.remote_rgb_amount) + seq![
                    if payment.swap_payment { 1u8 } else { 0u8 },
                    if payment.inbound { 1u8 } else { 0u8 },
                ]).is_prefix_of(data)
            },
        transfer_of(data) matches Some(transfer) ==> exists|text: Seq<char>|
            {
                &&& #[trigger] contract_id_serde::id_of_text(text) == Some(transfer.contract_id)
                &&& (vstd::bytes::spec_u64_to_le_bytes(vstd::utf8::encode_utf8(text).len() as u64)
                    + vstd::utf8::encode_utf8(text) + vstd::bytes::spec_u64_to_le_bytes(
                    transfer.rgb_amount,
                )).is_prefix_of(data)
            },
{
    match info_of(data) {
        Some(_) => {
            let (info, text) = choose|info: RgbInfo, text: Seq<char>|
                starts_with_info(data, info, text);
            assert(contract_id_serde::id_of_text(text) == Some(info.contract_id));
            assert(text_field(text) + variant(info.schema.place()) + number(info.local_rgb_amount)
                + number(info.remote_rgb_amount) =~= channel_record(
                text,
                info.schema.place(),
                info.local_rgb_amount,
                info.remote_rgb_amount,
            ));
        },
        None => {},
    }
    match payment_of(data) {
        Some(_) => {
            let (payment, text) = choose|payment: RgbPaymentInfo, text: Seq<char>|
                starts_with_payment(data, payment, text);
            assert(contract_id_serde::id_of_text(text) == Some(payment.contract_id));
            assert(text_field(text) + number(payment.amount) + number(payment.local_rgb_amount)
                + number(payment.remote_rgb_amount) + seq![
                if payment.swap_payment { 1u8 } else { 0u8 },
                if payment.inbound { 1u8 } else { 0u8 },
            ] =~= payment_record(
                text,
                payment.amount,
                payment.local_rgb_amount,
                payment.remote_rgb_amount,
                payment.swap_payment,
                payment.inbound,
            ));
        },
        None => {},
    }
    match transfer_of(data) {
        Some(_) => {
            let (transfer, text) = choose|transfer: TransferInfo, text: Seq<char>|
                starts_with_transfer(data, transfer, text);
            assert(contract_id_serde::id_of_text(text) == Some(transfer.contract_id));
        },
        None => {},
    }
}

} // verus!
