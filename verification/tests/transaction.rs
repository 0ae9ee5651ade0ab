use rgb_utils::error::Fault;
use rgb_utils::transaction::{
    accept_extraction, extract_colored_tx, is_tx_colored, op_return_position, output_index,
    same_bytes, to_unsigned_psbt, Extraction, OutPoint, Transaction, TxOut, Txid,
};

fn bitcoin_tx(scripts: &[Vec<u8>]) -> bitcoin::Transaction {
    let mut output = Vec::new();
    for (i, script) in scripts.iter().enumerate() {
        output.push(bitcoin::TxOut {
            value: bitcoin::Amount::from_sat(1000 + i as u64),
            script_pubkey: bitcoin::ScriptBuf::from_bytes(script.clone()),
        });
    }
    bitcoin::Transaction {
        version: bitcoin::transaction::Version(2),
        lock_time: bitcoin::absolute::LockTime::ZERO,
        input: vec![bitcoin::TxIn {
            previous_output: bitcoin::OutPoint {
                txid: <bitcoin::Txid as bitcoin::hashes::Hash>::from_byte_array([0x21; 32]),
                vout: 3,
            },
            script_sig: bitcoin::ScriptBuf::new(),
            sequence: bitcoin::Sequence::MAX,
            witness: bitcoin::Witness::new(),
        }],
        output,
    }
}

fn decoded(tx: &bitcoin::Transaction) -> Transaction {
    Transaction::decode(bitcoin::consensus::serialize(tx)).unwrap()
}

#[test]
fn transactions_are_decoded() {
    let tx = decoded(&bitcoin_tx(&[vec![0x00, 0x14], vec![0x6a, 1, 2]]));
    assert_eq!(tx.input.len(), 1);
    assert_eq!(tx.input[0].previous_output, OutPoint { txid: Txid([0x21; 32]), vout: 3 });
    assert!(tx.input[0].script_sig.is_empty());
    assert!(tx.input[0].witness.is_empty());
    assert_eq!(
        tx.output,
        vec![
            TxOut { value: 1000, script_pubkey: vec![0x00, 0x14] },
            TxOut { value: 1001, script_pubkey: vec![0x6a, 1, 2] },
        ]
    );
}

#[test]
fn other_bytes_are_no_transaction() {
    assert_eq!(Transaction::decode(vec![]), None);
    assert_eq!(Transaction::decode(vec![1, 2, 3]), None);
    let mut raw = bitcoin::consensus::serialize(&bitcoin_tx(&[vec![1]]));
    raw.push(0);
    assert_eq!(Transaction::decode(raw), None);
}

#[test]
fn first_op_return_output_is_found() {
    let tx = decoded(&bitcoin_tx(&[vec![0x51], vec![0x6a], vec![0x6a, 1]]));
    assert_eq!(op_return_position(&tx), Some(1));
    assert!(is_tx_colored(&tx));
}

#[test]
fn without_op_return_a_transaction_is_not_colored() {
    let tx = decoded(&bitcoin_tx(&[vec![0x51, 0x6a], vec![]]));
    assert_eq!(op_return_position(&tx), None);
    assert!(!is_tx_colored(&tx));
}

#[test]
fn first_output_to_a_script_is_found() {
    let tx = decoded(&bitcoin_tx(&[vec![1], vec![2], vec![2]]));
    assert_eq!(output_index(&tx.output, &[2]), Some(1));
    assert_eq!(output_index(&tx.output, &[3]), None);
    assert_eq!(output_index(&tx.output, &[]), None);
}

#[test]
fn byte_strings_are_told_apart() {
    assert!(same_bytes(&[], &[]));
    assert!(same_bytes(&[1, 2], &[1, 2]));
    assert!(!same_bytes(&[1, 2], &[1, 3]));
    assert!(!same_bytes(&[1, 2], &[1]));
}

#[test]
fn txid_text_is_backwards() {
    let mut bytes = [0u8; 32];
    bytes[0] = 0x01;
    bytes[31] = 0xfe;
    assert_eq!(Txid(bytes).to_text(), format!("fe{}01", "00".repeat(30)));
    assert_eq!(Txid(bytes).to_text(), <bitcoin::Txid as bitcoin::hashes::Hash>::from_byte_array(bytes).to_string());
}

#[test]
fn unsigned_transactions_become_psbts() {
    let tx = bitcoin_tx(&[vec![1], vec![2]]);
    let psbt = bitcoin::Psbt::from_unsigned_tx(tx.clone()).unwrap();
    assert_eq!(to_unsigned_psbt(&decoded(&tx)), Ok(psbt.to_string()));
}

#[test]
fn signed_transactions_become_no_psbts() {
    let mut tx = bitcoin_tx(&[vec![1]]);
    tx.input[0].script_sig = bitcoin::ScriptBuf::from_bytes(vec![0x51]);
    assert_eq!(decoded(&tx).input[0].script_sig, vec![0x51]);
    assert_eq!(to_unsigned_psbt(&decoded(&tx)), Err(Fault::NotUnsigned));
    let mut tx = bitcoin_tx(&[vec![1]]);
    tx.input[0].witness.push(vec![7]);
    assert_eq!(decoded(&tx).input[0].witness, vec![vec![7]]);
    assert_eq!(to_unsigned_psbt(&decoded(&tx)), Err(Fault::NotUnsigned));
}

#[test]
fn transactions_without_input_values_are_extracted() {
    let tx = bitcoin_tx(&[vec![1], vec![0x6a]]);
    let psbt = bitcoin::Psbt::from_unsigned_tx(tx.clone()).unwrap();
    let (extracted, txid) = extract_colored_tx(&psbt.to_string()).unwrap();
    assert_eq!(extracted, decoded(&tx));
    assert_eq!(txid, Txid(bitcoin::hashes::Hash::to_byte_array(tx.compute_txid())));
    assert_eq!(txid.to_text(), tx.compute_txid().to_string());
}

#[test]
fn transactions_with_input_values_are_extracted() {
    let tx = bitcoin_tx(&[vec![1]]);
    let mut psbt = bitcoin::Psbt::from_unsigned_tx(tx.clone()).unwrap();
    psbt.inputs[0].witness_utxo = Some(bitcoin::TxOut {
        value: bitcoin::Amount::from_sat(1500),
        script_pubkey: bitcoin::ScriptBuf::new(),
    });
    let (extracted, _) = extract_colored_tx(&psbt.to_string()).unwrap();
    assert_eq!(extracted, decoded(&tx));
}

#[test]
fn transactions_that_spend_more_than_they_have_are_refused() {
    let tx = bitcoin_tx(&[vec![1]]);
    let mut psbt = bitcoin::Psbt::from_unsigned_tx(tx.clone()).unwrap();
    psbt.inputs[0].witness_utxo = Some(bitcoin::TxOut {
        value: bitcoin::Amount::from_sat(10),
        script_pubkey: bitcoin::ScriptBuf::new(),
    });
    assert_eq!(extract_colored_tx(&psbt.to_string()), Err(Fault::BadPsbt));
}

#[test]
fn absurd_fees_are_refused() {
    let tx = bitcoin_tx(&[vec![1]]);
    let mut psbt = bitcoin::Psbt::from_unsigned_tx(tx.clone()).unwrap();
    psbt.inputs[0].witness_utxo = Some(bitcoin::TxOut {
        value: bitcoin::Amount::from_sat(100_000_000_000),
        script_pubkey: bitcoin::ScriptBuf::new(),
    });
    assert_eq!(extract_colored_tx(&psbt.to_string()), Err(Fault::BadPsbt));
}

#[test]
fn contradictory_psbts_are_refused() {
    let mut other = bitcoin_tx(&[vec![1]]);
    other.output.truncate(1);
    let mut tx = bitcoin_tx(&[vec![2]]);
    tx.input[0].previous_output =
        bitcoin::OutPoint { txid: other.compute_txid(), vout: 5 };
    let mut psbt = bitcoin::Psbt::from_unsigned_tx(tx).unwrap();
    psbt.inputs[0].non_witness_utxo = Some(other);
    assert_eq!(extract_colored_tx(&psbt.to_string()), Err(Fault::BadPsbt));
}

#[test]
fn other_texts_are_no_psbts() {
    assert_eq!(extract_colored_tx(""), Err(Fault::BadPsbt));
    assert_eq!(extract_colored_tx("cHNidP8"), Err(Fault::BadPsbt));
}

#[test]
fn extractions_are_accepted_unless_refused() {
    let tx = bitcoin_tx(&[vec![1]]);
    let raw = bitcoin::consensus::serialize(&tx);
    assert_eq!(accept_extraction(Extraction::Complete, raw.clone()), Ok(decoded(&tx)));
    assert_eq!(accept_extraction(Extraction::MissingInputValue, raw.clone()), Ok(decoded(&tx)));
    assert_eq!(accept_extraction(Extraction::Refused, raw), Err(Fault::BadPsbt));
    assert_eq!(accept_extraction(Extraction::Complete, vec![]), Err(Fault::BadPsbt));
}
