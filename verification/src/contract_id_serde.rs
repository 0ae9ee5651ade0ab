//! Contract ids, and the text that stands for them in records.

use rgbstd::ContractId as RgbContractId;
use std::str::FromStr;
use vstd::prelude::*;

verus! {

/// The id of an RGB contract: thirty-two bytes.
#[derive(Clone, Copy, Debug, PartialEq, Eq)]
pub struct ContractId(pub [u8; 32]);

impl ContractId {
    /// Whether two ids are the same.
    pub fn same(&self, other: &ContractId) -> (r: bool)
        ensures
            r == (*self == *other),
    {
        let mut i: usize = 0;
        while i < 32
            invariant
                i <= 32,
                forall|j: int| 0 <= j < i ==> self.0[j] == other.0[j],
            decreases 32 - i,
        {
            if self.0[i] != other.0[i] {
                return false;
            }
            i += 1;
        }
        assert(self.0 =~= other.0);
        true
    }
}

/// The text that `ContractId`'s `Display` writes for the id with these bytes.
pub uninterp spec fn contract_id_text(id: Seq<u8>) -> Seq<char>;

/// The bytes of the id that `ContractId`'s `FromStr` reads from a text, if it reads one.
pub uninterp spec fn parsed_contract_id(text: Seq<char>) -> Option<Seq<u8>>;

/// `rgbstd::ContractId`, written out by its `Display`. The claim: the text depends on the bytes
/// of the id alone, and `FromStr` reads the same bytes back from it (`Display` writes the prefix
/// `rgb:` and the bytes in base 64, cut by hyphens; `FromStr` takes the prefix and the hyphens
/// off and decodes).
#[verifier::external_body]
fn contract_id_to_string(id: &[u8; 32]) -> (r: String)
    ensures
        r@ == contract_id_text(id@),
        parsed_contract_id(r@) == Some(id@),
{
    RgbContractId::from(*id).to_string()
}

/// `rgbstd::ContractId::from_str`. The claim: whether it succeeds, and with which bytes, depends
/// on the text alone.
#[verifier::external_body]
fn contract_id_from_str(text: &str) -> (r: Option<[u8; 32]>)
    ensures
        match r {
            Some(id) => parsed_contract_id(text@) == Some(id@),
            None => parsed_contract_id(text@) is None,
        },
{
    match RgbContractId::from_str(text) {
        Ok(id) => Some(id.to_byte_array()),
        Err(_) => None,
    }
}

/// The contract id with the given bytes.
pub open spec fn id_of_bytes(bytes: Seq<u8>) -> ContractId {
    choose|id: ContractId| id.0@ == bytes
}

/// The contract id that a text stands for.
pub open spec fn id_of_text(text: Seq<char>) -> Option<ContractId> {
    match parsed_contract_id(text) {
        Some(bytes) => Some(id_of_bytes(bytes)),
        None => None,
    }
}

/// Whether the text of a contract id stands for that id. [`serialize`] finds that it does.
pub open spec fn reads_back(id: ContractId) -> bool {
    id_of_text(contract_id_text(id.0@)) == Some(id)
}

/// The text that stands for a contract id in a record.
///
/// Reading it with [`deserialize`] gives the id back.
pub fn serialize(id: &ContractId) -> (r: String)
    ensures
        r@ == contract_id_text(id.0@),
        id_of_text(r@) == Some(*id),
        parsed_contract_id(r@) == Some(id.0@),
        reads_back(*id),
{
    let r = contract_id_to_string(&id.0);
    proof {
        lemma_id_of_text(r@, *id);
    }
    r
}

/// The contract id that a text stands for; none where the text stands for no id.
pub fn deserialize(text: &str) -> (r: Option<ContractId>)
    ensures
        r == id_of_text(text@),
        r matches Some(id) ==> parsed_contract_id(text@) == Some(id.0@),
{
    match contract_id_from_str(text) {
        Some(bytes) => {
            let id = ContractId(bytes);
            proof {
                lemma_id_of_text(text@, id);
            }
            Some(id)
        },
        None => None,
    }
}

/// An id is told by its bytes.
proof fn lemma_id_of_text(text: Seq<char>, id: ContractId)
    requires
        parsed_contract_id(text) == Some(id.0@),
    ensures
        id_of_text(text) == Some(id),
{
    let other = id_of_bytes(id.0@);
    assert(other.0@ == id.0@);
    assert(other.0 =~= id.0) by {
        assert forall|i: int| 0 <= i < 32 implies other.0[i] == id.0[i] by {
            assert(other.0@[i] == id.0@[i]);
        }
    }
}

/// A text stands for a contract id just where the bytes of the id are read from it.
pub proof fn law_text_stands_for_parsed_id(text: Seq<char>, id: ContractId)
    ensures
        parsed_contract_id(text) == Some(id.0@) ==> id_of_text(text) == Some(id),
        parsed_contract_id(text) is None ==> id_of_text(text) is None,
{
    if parsed_contract_id(text) == Some(id.0@) {
        lemma_id_of_text(text, id);
    }
}

} // verus!
