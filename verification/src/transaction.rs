//! Bitcoin transactions and PSBTs, as far as coloring looks at them.

use crate::error::Fault;
use crate::text;
use bitcoin::consensus::serialize;
use bitcoin::psbt::ExtractTxError;
use std::str::FromStr;
use vstd::prelude::*;

verus! {

/// The id of a transaction, in the order in which it is hashed.
#[derive(Clone, Copy, Debug, PartialEq, Eq)]
pub struct Txid(pub [u8; 32]);

/// A reference to an output of a transaction.
#[derive(Clone, Copy, Debug, PartialEq, Eq)]
pub struct OutPoint {
    /// The transaction
    pub txid: Txid,
    /// The place of the output in it
    pub vout: u32,
}

/// An input of a transaction.
#[derive(Debug, PartialEq, Eq)]
pub struct TxIn {
    /// The output that it spends
    pub previous_output: OutPoint,
    /// The script that unlocks the output
    pub script_sig: Vec<u8>,
    /// The witness data that unlocks the output
    pub witness: Vec<Vec<u8>>,
}

/// An output of a transaction.
#[derive(Debug, PartialEq, Eq)]
pub struct TxOut {
    /// The value of the output, in satoshis
    pub value: u64,
    /// The script that guards the output
    pub script_pubkey: Vec<u8>,
}

/// A transaction: its consensus encoding, what it spends and what it pays.
#[derive(Debug, PartialEq, Eq)]
pub struct Transaction {
    /// The consensus encoding of the transaction
    pub raw: Vec<u8>,
    /// Its inputs, in order
    pub input: Vec<TxIn>,
    /// Its outputs, in order
    pub output: Vec<TxOut>,
}

impl Txid {
    /// The id as it is shown: its bytes backwards, in hexadecimal.
    pub open spec fn text(self) -> Seq<char> {
        text::hex_lower(self.0@.reverse())
    }

    /// The id as it is shown, by which the records of the transaction are found.
    pub fn to_text(&self) -> (r: String)
        ensures
            r@ == self.text(),
    {
        txid_to_string(&self.0)
    }
}

/// `bitcoin::Txid`, written out by its `Display`: the bytes backwards, in lower-case hexadecimal.
#[verifier::external_body]
fn txid_to_string(bytes: &[u8; 32]) -> (r: String)
    ensures
        r@ == text::hex_lower(bytes@.reverse()),
{
    <bitcoin::Txid as bitcoin::hashes::Hash>::from_byte_array(*bytes).to_string()
}

/// Transactions whose ids have the same text have the same id.
pub proof fn law_txid_texts_differ(a: Txid, b: Txid)
    requires
        a.text() == b.text(),
    ensures
        a == b,
{
    text::lemma_hex_injective(a.0@.reverse(), b.0@.reverse());
    assert forall|i: int| 0 <= i < 32 implies a.0[i] == b.0[i] by {
        assert(a.0@.reverse()[31 - i] == a.0@[i]);
        assert(b.0@.reverse()[31 - i] == b.0@[i]);
    }
    assert(a.0 =~= b.0);
}

/// Whether a script is that of an OP_RETURN output.
pub open spec fn is_op_return(script: Seq<u8>) -> bool {
    script.len() > 0 && script[0] == 0x6a
}

/// `bitcoin::Script::is_op_return`: whether the first byte of the script is the opcode OP_RETURN.
#[verifier::external_body]
fn script_is_op_return(script: &[u8]) -> (r: bool)
    ensures
        r == is_op_return(script@),
{
    bitcoin::Script::from_bytes(script).is_op_return()
}

/// The place of the first output from `start` on that is as asked for, if there is one.
pub open spec fn find_from(
    outputs: Seq<TxOut>,
    wanted: spec_fn(TxOut) -> bool,
    start: nat,
) -> Option<nat>
    decreases outputs.len() - start,
{
    if start >= outputs.len() {
        None
    } else if wanted(outputs[start as int]) {
        Some(start)
    } else {
        find_from(outputs, wanted, start + 1)
    }
}

/// The place of the first output that is as asked for, if there is one.
pub open spec fn find(outputs: Seq<TxOut>, wanted: spec_fn(TxOut) -> bool) -> Option<nat> {
    find_from(outputs, wanted, 0)
}

/// That an output is an OP_RETURN output.
pub open spec fn op_returns() -> spec_fn(TxOut) -> bool {
    |o: TxOut| is_op_return(o.script_pubkey@)
}

/// That an output pays to a script.
pub open spec fn pays_to(script: Seq<u8>) -> spec_fn(TxOut) -> bool {
    |o: TxOut| o.script_pubkey@ == script
}

/// The place that was searched for is the first one that is as asked for.
pub proof fn law_find_is_first(outputs: Seq<TxOut>, wanted: spec_fn(TxOut) -> bool)
    ensures
        match find(outputs, wanted) {
            Some(i) => {
                &&& i < outputs.len()
                &&& wanted(outputs[i as int])
                &&& forall|j: int| 0 <= j < i ==> !wanted(#[trigger] outputs[j])
            },
            None => forall|j: int| 0 <= j < outputs.len() ==> !wanted(#[trigger] outputs[j]),
        },
{
    lemma_find_from(outputs, wanted, 0);
}

/// What holds of a search that starts somewhere.
proof fn lemma_find_from(outputs: Seq<TxOut>, wanted: spec_fn(TxOut) -> bool, start: nat)
    ensures
        match find_from(outputs, wanted, start) {
            Some(i) => {
                &&& start <= i < outputs.len()
                &&& wanted(outputs[i as int])
                &&& forall|j: int| start <= j < i ==> !wanted(#[trigger] outputs[j])
            },
            None => forall|j: int|
                start <= j < outputs.len() ==> !wanted(#[trigger] outputs[j]),
        },
    decreases outputs.len() - start,
{
    if start < outputs.len() && !wanted(outputs[start as int]) {
        lemma_find_from(outputs, wanted, start + 1);
    }
}

/// Whether two byte strings are the same.
pub fn same_bytes(a: &[u8], b: &[u8]) -> (r: bool)
    ensures
        r == (a@ == b@),
{
    if a.len() != b.len() {
        return false;
    }
    let mut i: usize = 0;
    while i < a.len()
        invariant
            i <= a.len(),
            a.len() == b.len(),
            forall|j: int| 0 <= j < i ==> a@[j] == b@[j],
        decreases a.len() - i,
    {
        if a[i] != b[i] {
            return false;
        }
        i += 1;
    }
    assert(a@ =~= b@);
    true
}

/// The place of the first output that pays to the script, if there is one.
pub fn output_index(outputs: &Vec<TxOut>, script: &[u8]) -> (r: Option<usize>)
    ensures
        match r {
            Some(i) => find(outputs@, pays_to(script@)) == Some(i as nat),
            None => find(outputs@, pays_to(script@)) is None,
        },
        match r {
            Some(i) => {
                &&& i < outputs@.len()
                &&& outputs@[i as int].script_pubkey@ == script@
                &&& forall|j: int|
                    0 <= j < i ==> (#[trigger] outputs@[j]).script_pubkey@ != script@
            },
            None => forall|j: int|
                0 <= j < outputs@.len() ==> (#[trigger] outputs@[j]).script_pubkey@ != script@,
        },
{
    let mut i: usize = 0;
    while i < outputs.len()
        invariant
            i <= outputs.len(),
            find(outputs@, pays_to(script@)) == find_from(outputs@, pays_to(script@), i as nat),
            forall|j: int| 0 <= j < i ==> (#[trigger] outputs@[j]).script_pubkey@ != script@,
        decreases outputs.len() - i,
    {
        if same_bytes(outputs[i].script_pubkey.as_slice(), script) {
            return Some(i);
        }
        i += 1;
    }
    None
}

/// Return the position of the OP_RETURN output, if present.
pub fn op_return_position(tx: &Transaction) -> (r: Option<usize>)
    ensures
        match r {
            Some(i) => find(tx.output@, op_returns()) == Some(i as nat),
            None => find(tx.output@, op_returns()) is None,
        },
        match r {
            Some(i) => {
                &&& i < tx.output@.len()
                &&& tx.output@[i as int].script_pubkey@.len() > 0
                &&& tx.output@[i as int].script_pubkey@[0] == 0x6a
                &&& forall|j: int|
                    0 <= j < i && (#[trigger] tx.output@[j]).script_pubkey@.len() > 0
                        ==> tx.output@[j].script_pubkey@[0] != 0x6a
            },
            None => forall|j: int|
                0 <= j < tx.output@.len() && (#[trigger] tx.output@[j]).script_pubkey@.len() > 0
                    ==> tx.output@[j].script_pubkey@[0] != 0x6a,
        },
{
    let mut i: usize = 0;
    while i < tx.output.len()
        invariant
            i <= tx.output.len(),
            find(tx.output@, op_returns()) == find_from(tx.output@, op_returns(), i as nat),
            forall|j: int|
                0 <= j < i && (#[trigger] tx.output@[j]).script_pubkey@.len() > 0
                    ==> tx.output@[j].script_pubkey@[0] != 0x6a,
        decreases tx.output.len() - i,
    {
        if script_is_op_return(tx.output[i].script_pubkey.as_slice()) {
            return Some(i);
        }
        i += 1;
    }
    None
}

/// Whether the transaction is colored (i.e. it has an OP_RETURN output).
pub fn is_tx_colored(tx: &Transaction) -> (r: bool)
    ensures
        r == exists|i: int|
            0 <= i < tx.output@.len() && is_op_return(#[trigger] tx.output@[i].script_pubkey@),
        r == exists|i: int|
            0 <= i < tx.output@.len() && (#[trigger] tx.output@[i]).script_pubkey@.len() > 0
                && tx.output@[i].script_pubkey@[0] == 0x6a,
{
    proof {
        law_find_is_first(tx.output@, op_returns());
        assert forall|i: int|
            0 <= i < tx.output@.len() && is_op_return(
                #[trigger] tx.output@[i].script_pubkey@,
            ) implies op_returns()(tx.output@[i]) by {}
    }
    op_return_position(tx).is_some()
}

/// An input as plain values: the id of the transaction that it spends from, the place of the
/// output in that, the unlocking script, and the witness data.
pub type InputParts = (Seq<u8>, u32, Seq<u8>, Seq<Seq<u8>>);

/// An output as plain values: its value and its script.
pub type OutputParts = (u64, Seq<u8>);

/// The inputs and outputs that a consensus encoding holds, if it is one of a transaction.
pub uninterp spec fn tx_parts(raw: Seq<u8>) -> Option<(Seq<InputParts>, Seq<OutputParts>)>;

/// Inputs and outputs as plain values.
pub open spec fn parts(input: Seq<TxIn>, output: Seq<TxOut>) -> (
    Seq<InputParts>,
    Seq<OutputParts>,
) {
    (
        input.map_values(
            |i: TxIn|
                (
                    i.previous_output.txid.0@,
                    i.previous_output.vout,
                    i.script_sig@,
                    i.witness@.map_values(|w: Vec<u8>| w@),
                ),
        ),
        output.map_values(|o: TxOut| (o.value, o.script_pubkey@)),
    )
}

/// Whether no input carries anything that unlocks an output.
pub open spec fn all_unsigned(inputs: Seq<InputParts>) -> bool {
    forall|i: int|
        0 <= i < inputs.len() ==> (#[trigger] inputs[i]).2.len() == 0 && inputs[i].3.len() == 0
}

/// Whether the bytes encode a transaction that is not signed.
pub open spec fn encodes_unsigned(raw: Seq<u8>) -> bool {
    match tx_parts(raw) {
        Some((inputs, _)) => all_unsigned(inputs),
        None => false,
    }
}

/// `bitcoin::consensus::deserialize` of a transaction. The claim: whether the bytes encode a
/// transaction, and what its inputs and outputs are, depends on the bytes alone.
#[verifier::external_body]
fn consensus_decode(raw: &[u8]) -> (r: Option<(Vec<TxIn>, Vec<TxOut>)>)
    ensures
        match r {
            Some((input, output)) => tx_parts(raw@) == Some(parts(input@, output@)),
            None => tx_parts(raw@) is None,
        },
{
    let tx: bitcoin::Transaction = bitcoin::consensus::deserialize(raw).ok()?;
    let input = tx.input.iter().map(
        |i| TxIn {
            previous_output: OutPoint {
                txid: Txid(bitcoin::hashes::Hash::to_byte_array(i.previous_output.txid)),
                vout: i.previous_output.vout,
            },
            script_sig: i.script_sig.to_bytes(),
            witness: i.witness.to_vec(),
        },
    );
    let output = tx.output.iter().map(
        |o| TxOut { value: o.value.to_sat(), script_pubkey: o.script_pubkey.to_bytes() },
    );
    Some((input.collect(), output.collect()))
}

impl Transaction {
    /// Whether the inputs and outputs are those of the encoding.
    pub open spec fn wf(self) -> bool {
        tx_parts(self.raw@) == Some(parts(self.input@, self.output@))
    }

    /// Whether no input carries anything that unlocks an output.
    pub open spec fn unsigned(self) -> bool {
        forall|i: int|
            0 <= i < self.input@.len() ==> (#[trigger] self.input@[i]).script_sig@.len() == 0
                && self.input@[i].witness@.len() == 0
    }

    /// The transaction with the given consensus encoding; none where the bytes encode none.
    pub fn decode(raw: Vec<u8>) -> (r: Option<Transaction>)
        ensures
            match r {
                Some(tx) => tx.raw@ == raw@ && tx.wf(),
                None => tx_parts(raw@) is None,
            },
    {
        match consensus_decode(raw.as_slice()) {
            Some((input, output)) => Some(Transaction { raw, input, output }),
            None => None,
        }
    }
}

/// A transaction is unsigned just where its encoding says so.
proof fn lemma_unsigned(tx: Transaction)
    requires
        tx.wf(),
    ensures
        tx.unsigned() <==> encodes_unsigned(tx.raw@),
{
    let inputs = (tx_parts(tx.raw@)->0).0;
    assert(inputs.len() == tx.input@.len());
    assert forall|i: int| 0 <= i < inputs.len() implies {
        &&& (#[trigger] inputs[i]).2 == tx.input@[i].script_sig@
        &&& inputs[i].3.len() == tx.input@[i].witness@.len()
    } by {}
    if all_unsigned(inputs) {
        assert forall|i: int| 0 <= i < tx.input@.len() implies (
        #[trigger] tx.input@[i]).script_sig@.len() == 0 && tx.input@[i].witness@.len() == 0 by {
            assert(inputs[i].2.len() == 0);
        }
    }
    if tx.unsigned() {
        assert forall|i: int| 0 <= i < inputs.len() implies (#[trigger] inputs[i]).2.len() == 0
            && inputs[i].3.len() == 0 by {
            assert(tx.input@[i].script_sig@.len() == 0);
        }
    }
}

/// The id of the transaction with the given consensus encoding.
pub uninterp spec fn txid_of(raw: Seq<u8>) -> Seq<u8>;

/// `bitcoin::Transaction::compute_txid`. The claim: the id depends on the transaction alone, and
/// so on its encoding.
#[verifier::external_body]
fn compute_txid(raw: &[u8]) -> (r: [u8; 32])
    requires
        tx_parts(raw@) is Some,
    ensures
        r@ == txid_of(raw@),
{
    let tx: bitcoin::Transaction = bitcoin::consensus::deserialize(raw).expect("a transaction");
    bitcoin::hashes::Hash::to_byte_array(tx.compute_txid())
}

/// The PSBT, as text, of the unsigned transaction with the given consensus encoding; none where
/// the bytes encode no transaction or one that is signed.
pub uninterp spec fn unsigned_psbt(raw: Seq<u8>) -> Option<Seq<char>>;

/// `bitcoin::Psbt::from_unsigned_tx`, written out by the PSBT's `Display`. The claims: the outcome
/// depends on the transaction alone, and so on its encoding; there is a PSBT just where no input
/// has an unlocking script or witness data.
#[verifier::external_body]
fn psbt_from_unsigned_tx(raw: &[u8]) -> (r: Option<String>)
    ensures
        match r {
            Some(psbt) => unsigned_psbt(raw@) == Some(psbt@),
            None => unsigned_psbt(raw@) is None,
        },
        r is Some <==> encodes_unsigned(raw@),
{
    let tx: bitcoin::Transaction = bitcoin::consensus::deserialize(raw).ok()?;
    let psbt = bitcoin::Psbt::from_unsigned_tx(tx).ok()?;
    Some(psbt.to_string())
}

/// What can be said of the fee of a PSBT.
#[derive(Clone, Copy, Debug, PartialEq, Eq, Structural)]
pub enum FeeCheck {
    /// The text is no PSBT.
    NotPsbt,
    /// The fee is known.
    Known,
    /// The value of some input is not known.
    MissingUtxo,
    /// The outputs are worth more than the inputs.
    Negative,
    /// The sums of the values are out of range.
    Overflow,
    /// The PSBT contradicts itself on what it spends.
    Unsound,
}

/// What can be said of the fee of the PSBT with the given text.
pub uninterp spec fn fee_check(psbt: Seq<char>) -> FeeCheck;

/// `bitcoin::Psbt::fee` of a PSBT that is given as text. The claim: whether the text is a PSBT,
/// and what can be said of its fee, depends on the text alone.
#[verifier::external_body]
fn psbt_fee(psbt: &str) -> (r: FeeCheck)
    ensures
        r == fee_check(psbt@),
{
    match bitcoin::Psbt::from_str(psbt) {
        Err(_) => FeeCheck::NotPsbt,
        Ok(psbt) => match psbt.fee() {
            Ok(_) => FeeCheck::Known,
            Err(bitcoin::psbt::Error::MissingUtxo) => FeeCheck::MissingUtxo,
            Err(bitcoin::psbt::Error::NegativeFee) => FeeCheck::Negative,
            Err(bitcoin::psbt::Error::FeeOverflow) => FeeCheck::Overflow,
            Err(_) => FeeCheck::Unsound,
        },
    }
}

/// How a transaction is taken out of a PSBT.
#[derive(Clone, Copy, Debug, PartialEq, Eq, Structural)]
pub enum Extraction {
    /// Without reservation.
    Complete,
    /// With the reservation that the value of some input is not known.
    MissingInputValue,
    /// Not at all.
    Refused,
}

/// How a transaction is taken out of the PSBT with the given text, and its consensus encoding.
pub uninterp spec fn psbt_extraction(psbt: Seq<char>) -> (Extraction, Seq<u8>);

/// `bitcoin::Psbt::extract_tx` of a PSBT that is given as text; the transaction is handed out in
/// its consensus encoding. The claims: the outcome depends on the text alone; where the value of
/// some input is not known, the transaction comes with that reservation, and where the fee is
/// negative or out of range, it does not come at all; what was encoded can be decoded. The call
/// panics where the PSBT contradicts itself on what it spends, so such a PSBT is left out.
#[verifier::external_body]
fn psbt_extract_tx(psbt: &str) -> (r: (Extraction, Vec<u8>))
    requires
        fee_check(psbt@) != FeeCheck::NotPsbt,
        fee_check(psbt@) != FeeCheck::Unsound,
    ensures
        (r.0, r.1@) == psbt_extraction(psbt@),
        match fee_check(psbt@) {
            FeeCheck::MissingUtxo => r.0 == Extraction::MissingInputValue,
            FeeCheck::Negative | FeeCheck::Overflow => r.0 == Extraction::Refused,
            _ => r.0 != Extraction::MissingInputValue,
        },
        r.0 != Extraction::Refused ==> tx_parts(r.1@) is Some,
{
    match bitcoin::Psbt::from_str(psbt).expect("a PSBT").extract_tx() {
        Ok(tx) => (Extraction::Complete, serialize(&tx)),
        Err(ExtractTxError::MissingInputValue { tx }) => (
            Extraction::MissingInputValue,
            serialize(&tx),
        ),
        Err(_) => (Extraction::Refused, Vec::new()),
    }
}

/// The unsigned PSBT of a transaction, as text. There is one just where no input carries anything
/// that unlocks an output.
pub fn to_unsigned_psbt(tx: &Transaction) -> (r: Result<String, Fault>)
    ensures
        match unsigned_psbt(tx.raw@) {
            Some(psbt) => r matches Ok(text) && text@ == psbt,
            None => r == Err::<String, Fault>(Fault::NotUnsigned),
        },
        tx.wf() ==> (r is Ok <==> tx.unsigned()),
{
    proof {
        if tx.wf() {
            lemma_unsigned(*tx);
        }
    }
    match psbt_from_unsigned_tx(tx.raw.as_slice()) {
        Some(psbt) => Ok(psbt),
        None => Err(Fault::NotUnsigned),
    }
}

/// The transaction that is accepted out of a PSBT, given how it was taken out. That an input's
/// value is not known is no hindrance: a channel's transactions are put together without it.
pub fn accept_extraction(extraction: Extraction, raw: Vec<u8>) -> (r: Result<Transaction, Fault>)
    ensures
        if extraction != Extraction::Refused && tx_parts(raw@) is Some {
            r matches Ok(tx) && tx.raw@ == raw@ && tx.wf()
        } else {
            r == Err::<Transaction, Fault>(Fault::BadPsbt)
        },
{
    match extraction {
        Extraction::Complete | Extraction::MissingInputValue => match Transaction::decode(raw) {
            Some(tx) => Ok(tx),
            None => Err(Fault::BadPsbt),
        },
        Extraction::Refused => Err(Fault::BadPsbt),
    }
}

/// The consensus encoding of the transaction that a colored PSBT holds, if it holds one that is
/// accepted.
pub open spec fn colored_tx(psbt: Seq<char>) -> Option<Seq<u8>> {
    let (extraction, raw) = psbt_extraction(psbt);
    if {
        &&& fee_check(psbt) != FeeCheck::NotPsbt
        &&& fee_check(psbt) != FeeCheck::Unsound
        &&& extraction != Extraction::Refused
        &&& tx_parts(raw) is Some
    } {
        Some(raw)
    } else {
        None
    }
}

/// Takes the transaction out of a colored PSBT, and computes its id. Where the value of some input
/// is not known there is always a transaction to take out, and none where the inputs are not worth
/// what the outputs are.
pub fn extract_colored_tx(psbt: &str) -> (r: Result<(Transaction, Txid), Fault>)
    ensures
        match colored_tx(psbt@) {
            Some(raw) => {
                &&& r matches Ok((tx, txid))
                &&& tx.raw@ == raw
                &&& tx.wf()
                &&& txid.0@ == txid_of(raw)
            },
            None => r == Err::<(Transaction, Txid), Fault>(Fault::BadPsbt),
        },
        fee_check(psbt@) == FeeCheck::MissingUtxo ==> r is Ok,
        fee_check(psbt@) == FeeCheck::Negative ==> r is Err,
        fee_check(psbt@) == FeeCheck::Overflow ==> r is Err,
{
    match psbt_fee(psbt) {
        FeeCheck::NotPsbt | FeeCheck::Unsound => {
            return Err(Fault::BadPsbt);
        },
        _ => {},
    }
    let (extraction, raw) = psbt_extract_tx(psbt);
    match accept_extraction(extraction, raw) {
        Ok(tx) => {
            let txid = Txid(compute_txid(tx.raw.as_slice()));
            Ok((tx, txid))
        },
        Err(fault) => Err(fault),
    }
}

/// The first output that pays to a script is the one that a search for it finds.
pub proof fn lemma_first_is_found(outputs: Seq<TxOut>, script: Seq<u8>, place: int)
    requires
        0 <= place < outputs.len(),
        outputs[place].script_pubkey@ == script,
        forall|j: int| 0 <= j < place ==> (#[trigger] outputs[j]).script_pubkey@ != script,
    ensures
        find(outputs, pays_to(script)) == Some(place as nat),
{
    law_find_is_first(outputs, pays_to(script));
    assert(pays_to(script)(outputs[place]));
    match find(outputs, pays_to(script)) {
        Some(i) => {
            assert(pays_to(script)(outputs[i as int]));
        },
        None => {},
    }
}

/// A search for a script finds nothing where no output pays to it.
pub proof fn lemma_none_is_found(outputs: Seq<TxOut>, script: Seq<u8>)
    requires
        forall|j: int|
            0 <= j < outputs.len() ==> (#[trigger] outputs[j]).script_pubkey@ != script,
    ensures
        find(outputs, pays_to(script)) is None,
{
    law_find_is_first(outputs, pays_to(script));
}

/// The transaction that is taken out of a PSBT is the one that the PSBT holds, and is taken out
/// unless the text is no sound PSBT or the transaction is refused.
pub proof fn law_when_colored_tx_is_taken(psbt: Seq<char>)
    ensures
        colored_tx(psbt) matches Some(raw) ==> raw == psbt_extraction(psbt).1,
        colored_tx(psbt) is Some <==> {
            &&& fee_check(psbt) is Known || fee_check(psbt) is MissingUtxo || fee_check(
                psbt,
            ) is Negative || fee_check(psbt) is Overflow
            &&& psbt_extraction(psbt).0 is Complete || psbt_extraction(psbt).0 is MissingInputValue
            &&& tx_parts(psbt_extraction(psbt).1) is Some
        },
{
}

/// The text of a transaction id has two hexadecimal digits for each byte, the last byte first.
pub proof fn law_txid_text_is_hexadecimal(txid: Txid, k: int)
    requires
        0 <= k < 32,
    ensures
        txid.text().len() == 64,
        text::nibble_value(txid.text()[2 * k]) >= 0,
        text::nibble_value(txid.text()[2 * k + 1]) >= 0,
        16 * text::nibble_value(txid.text()[2 * k]) + text::nibble_value(txid.text()[2 * k + 1])
            == txid.0[31 - k],
{
    text::law_hex_stands_for_bytes(txid.0@.reverse(), k);
    assert(txid.0@.reverse()[k] == txid.0@[31 - k]);
}

} // verus!
