//! Identifiers of channels and payments.

use crate::text;
use vstd::prelude::*;

verus! {

/// The id of a channel.
#[derive(Clone, Copy, Debug, PartialEq, Eq)]
pub struct ChannelId(pub [u8; 32]);

/// The hash that identifies a payment.
#[derive(Clone, Copy, Debug, PartialEq, Eq)]
pub struct PaymentHash(pub [u8; 32]);

impl ChannelId {
    /// The id in hexadecimal.
    pub open spec fn text(self) -> Seq<char> {
        text::hex_lower(self.0@)
    }

    /// The id in lower-case hexadecimal, by which the records of the channel are found.
    pub fn to_text(&self) -> (r: String)
        ensures
            r@ == self.text(),
    {
        text::hex_text(&self.0)
    }
}

impl PaymentHash {
    /// The hash in hexadecimal.
    pub open spec fn text(self) -> Seq<char> {
        text::hex_lower(self.0@)
    }

    /// The hash in lower-case hexadecimal, by which the records of the payment are found.
    pub fn to_text(&self) -> (r: String)
        ensures
            r@ == self.text(),
    {
        text::hex_text(&self.0)
    }
}

/// Channels with the same text are the same channel.
pub proof fn law_channel_texts_differ(a: ChannelId, b: ChannelId)
    requires
        a.text() == b.text(),
    ensures
        a == b,
{
    text::lemma_hex_injective(a.0@, b.0@);
    assert forall|i: int| 0 <= i < 32 implies a.0[i] == b.0[i] by {
        assert(a.0@[i] == b.0@[i]);
    }
    assert(a.0 =~= b.0);
}

/// Payments with the same text are the same payment.
pub proof fn law_payment_texts_differ(a: PaymentHash, b: PaymentHash)
    requires
        a.text() == b.text(),
    ensures
        a == b,
{
    text::lemma_hex_injective(a.0@, b.0@);
    assert forall|i: int| 0 <= i < 32 implies a.0[i] == b.0[i] by {
        assert(a.0@[i] == b.0@[i]);
    }
    assert(a.0 =~= b.0);
}

/// The text of a channel has two hexadecimal digits for each byte, in the order of the bytes.
pub proof fn law_channel_text_is_hexadecimal(id: ChannelId, k: int)
    requires
        0 <= k < 32,
    ensures
        id.text().len() == 64,
        text::nibble_value(id.text()[2 * k]) >= 0,
        text::nibble_value(id.text()[2 * k + 1]) >= 0,
        16 * text::nibble_value(id.text()[2 * k]) + text::nibble_value(id.text()[2 * k + 1])
            == id.0[k],
{
    text::law_hex_stands_for_bytes(id.0@, k);
}

/// The text of a payment has two hexadecimal digits for each byte, in the order of the bytes.
pub proof fn law_payment_text_is_hexadecimal(id: PaymentHash, k: int)
    requires
        0 <= k < 32,
    ensures
        id.text().len() == 64,
        text::nibble_value(id.text()[2 * k]) >= 0,
        text::nibble_value(id.text()[2 * k + 1]) >= 0,
        16 * text::nibble_value(id.text()[2 * k]) + text::nibble_value(id.text()[2 * k + 1])
            == id.0[k],
{
    text::law_hex_stands_for_bytes(id.0@, k);
}

} // verus!
