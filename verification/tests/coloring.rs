use rgb_utils::closing::{color_closing, finish_closing, ClosingTransaction};
use rgb_utils::coloring::ColoringInfo;
use rgb_utils::commitment::{
    color_commitment, counterparty_output_index, finish_commitment, BuiltCommitmentTransaction,
    ChannelContext, CommitmentColoring, CommitmentTransaction, FundingScope,
};
use rgb_utils::constants::{
    RGB_PAYMENT_INFO_INBOUND_NS, RGB_PAYMENT_INFO_OUTBOUND_NS, RGB_PRIMARY_NS,
};
use rgb_utils::contract_id_serde::ContractId;
use rgb_utils::error::Fault;
use rgb_utils::htlc::{color_htlc, finish_htlc};
use rgb_utils::htlc_records::{record_htlc, HTLCOutputInCommitment};
use rgb_utils::ids::{ChannelId, PaymentHash};
use rgb_utils::memory::{MemoryStore, NotFound};
use rgb_utils::records::{AssetSchema, RgbInfo, RgbPaymentInfo, TransferInfo};
use rgb_utils::rgb_store::RgbKvStoreExt;
use rgb_utils::store::KVStoreSync;
use rgb_utils::transaction::{extract_colored_tx, is_tx_colored, Transaction, Txid};
use rgb_utils::write_rgb_payment_info_file;
use std::collections::HashMap;

const CHANNEL: ChannelId = ChannelId([0xaa; 32]);
const CONTRACT: ContractId = ContractId([5; 32]);

/// A store that holds what it is given and refuses to write.
struct ReadOnlyStore(MemoryStore);

impl KVStoreSync for ReadOnlyStore {
    type Failure = NotFound;

    fn read(&self, a: &str, b: &str, c: &str) -> Result<Vec<u8>, NotFound> {
        self.0.read(a, b, c)
    }

    fn write(&mut self, _: &str, _: &str, _: &str, _: Vec<u8>) -> Result<(), NotFound> {
        Err(NotFound)
    }

    fn remove(&mut self, _: &str, _: &str, _: &str, _: bool) -> Result<(), NotFound> {
        Err(NotFound)
    }
}

fn info(local: u64, remote: u64) -> RgbInfo {
    RgbInfo {
        contract_id: CONTRACT,
        schema: AssetSchema::Nia,
        local_rgb_amount: local,
        remote_rgb_amount: remote,
    }
}

fn tx_with(scripts: &[Vec<u8>], signed: bool) -> Transaction {
    let mut output = Vec::new();
    for script in scripts {
        output.push(bitcoin::TxOut {
            value: bitcoin::Amount::from_sat(1000),
            script_pubkey: bitcoin::ScriptBuf::from_bytes(script.clone()),
        });
    }
    let script_sig =
        if signed { bitcoin::ScriptBuf::from_bytes(vec![0x51]) } else { bitcoin::ScriptBuf::new() };
    let tx = bitcoin::Transaction {
        version: bitcoin::transaction::Version(2),
        lock_time: bitcoin::absolute::LockTime::ZERO,
        input: vec![bitcoin::TxIn {
            previous_output: bitcoin::OutPoint {
                txid: <bitcoin::Txid as bitcoin::hashes::Hash>::from_byte_array([0x21; 32]),
                vout: 0,
            },
            script_sig,
            sequence: bitcoin::Sequence::MAX,
            witness: bitcoin::Witness::new(),
        }],
        output,
    };
    Transaction::decode(bitcoin::consensus::serialize(&tx)).unwrap()
}

fn htlc(n: u8, offered: bool, vout: Option<u32>, amount: Option<u64>) -> HTLCOutputInCommitment {
    HTLCOutputInCommitment {
        offered,
        payment_hash: PaymentHash([n; 32]),
        transaction_output_index: vout,
        rgb_payment: amount.map(|a| (CONTRACT, a)),
    }
}

fn commitment(htlcs: Vec<HTLCOutputInCommitment>) -> CommitmentTransaction {
    CommitmentTransaction {
        built: BuiltCommitmentTransaction {
            transaction: tx_with(&[vec![9], vec![8], vec![1], vec![2], vec![3]], false),
            txid: Txid([0; 32]),
        },
        nondust_htlcs: htlcs,
        revokeable_output_index: Some(2),
    }
}

fn context() -> ChannelContext {
    ChannelContext { channel_id: CHANNEL, trusted_no_broadcast: false }
}

fn scope() -> FundingScope {
    FundingScope { holder_payment_script: vec![3], counterparty_payment_script: vec![2] }
}

fn store(local: u64, remote: u64) -> MemoryStore {
    let mut kv = MemoryStore::new();
    kv.write_rgb_channel_info(&CHANNEL.to_text(), &info(local, remote), true).unwrap();
    kv
}

fn map(entries: &[(u32, u64)]) -> HashMap<u32, u64> {
    entries.iter().copied().collect()
}

fn check_blinding(coloring: &ColoringInfo, nonce: Option<u64>) {
    assert_eq!(coloring.contract_id, CONTRACT);
    assert_eq!(coloring.asset_info.static_blinding, Some(777));
    assert_eq!(coloring.static_blinding, Some(777));
    assert_eq!(coloring.nonce, nonce);
}

fn plan(
    kv: &mut MemoryStore, htlcs: Vec<HTLCOutputInCommitment>, counterparty: bool,
) -> CommitmentColoring {
    color_commitment(&context(), &scope(), &commitment(htlcs), counterparty, kv).unwrap().unwrap()
}

fn payment(amount: u64, local: u64, remote: u64, swap: bool, inbound: bool) -> RgbPaymentInfo {
    RgbPaymentInfo {
        contract_id: CONTRACT,
        amount,
        local_rgb_amount: local,
        remote_rgb_amount: remote,
        swap_payment: swap,
        inbound,
    }
}

fn proxy(n: u8) -> String {
    format!("{}{}", CHANNEL.to_text(), PaymentHash([n; 32]).to_text())
}

fn hash_text(n: u8) -> String {
    PaymentHash([n; 32]).to_text()
}

fn read_payment(kv: &MemoryStore, inbound: bool, key: &str) -> Option<RgbPaymentInfo> {
    let ns = if inbound { RGB_PAYMENT_INFO_INBOUND_NS } else { RGB_PAYMENT_INFO_OUTBOUND_NS };
    kv.read(RGB_PRIMARY_NS, ns, key).ok().and_then(|data| RgbPaymentInfo::decode(&data))
}

#[test]
fn commitment_without_htlcs_holder_side() {
    let mut kv = store(70, 30);
    let plan = plan(&mut kv, vec![], false);
    check_blinding(&plan.coloring_info, None);
    assert_eq!(plan.coloring_info.asset_info.output_map, map(&[(3, 30), (2, 70)]));
    assert_eq!(plan.holder_amount, 70);
    assert_eq!(plan.htlc_amount, 0);
    let tx = commitment(vec![]).built.transaction;
    let tx: bitcoin::Transaction = bitcoin::consensus::deserialize(&tx.raw).unwrap();
    assert_eq!(plan.psbt, bitcoin::Psbt::from_unsigned_tx(tx).unwrap().to_string());
}

#[test]
fn commitment_without_htlcs_counterparty_side() {
    let mut kv = store(70, 30);
    let plan = plan(&mut kv, vec![], true);
    assert_eq!(plan.coloring_info.asset_info.output_map, map(&[(4, 70), (2, 30)]));
    assert_eq!(plan.holder_amount, 70);
    assert_eq!(plan.htlc_amount, 0);
}

#[test]
fn commitment_with_htlcs_sums_up_to_the_balances() {
    for counterparty in [false, true] {
        let mut kv = store(70, 30);
        // The holder offers ten and is to receive four.
        let htlcs = vec![
            htlc(1, !counterparty, Some(0), Some(10)),
            htlc(2, counterparty, Some(1), Some(4)),
            htlc(3, true, None, None),
            htlc(4, true, None, Some(0)),
        ];
        let plan = plan(&mut kv, htlcs, counterparty);
        let output_map = plan.coloring_info.asset_info.output_map;
        assert_eq!(output_map.values().sum::<u64>(), 100);
        assert_eq!(output_map[&0], 10);
        assert_eq!(output_map[&1], 4);
        assert_eq!(plan.holder_amount, 60);
        if counterparty {
            assert_eq!(output_map[&4], 60);
            assert_eq!(output_map[&2], 26);
            assert_eq!(plan.htlc_amount, 10);
        } else {
            assert_eq!(output_map[&3], 26);
            assert_eq!(output_map[&2], 60);
            assert_eq!(plan.htlc_amount, 4);
        }
        assert_eq!(read_payment(&kv, false, &proxy(1)), Some(payment(10, 70, 30, true, false)));
        assert_eq!(read_payment(&kv, true, &proxy(2)), Some(payment(4, 70, 30, true, true)));
        assert_eq!(read_payment(&kv, false, &hash_text(1)), read_payment(&kv, false, &proxy(1)));
        assert_eq!(
            read_payment(&kv, false, &format!("{}_pending", proxy(1))),
            read_payment(&kv, false, &proxy(1))
        );
        assert_eq!(read_payment(&kv, true, &proxy(3)), None);
        assert_eq!(read_payment(&kv, false, &proxy(3)), None);
    }
}

#[test]
fn preparing_a_commitment_again_comes_to_the_same() {
    let mut kv = store(70, 30);
    let htlcs = vec![
        htlc(1, true, Some(0), Some(10)),
        htlc(2, false, Some(1), Some(4)),
        htlc(1, true, Some(5), Some(3)),
    ];
    let first = plan(&mut kv, htlcs.clone(), false);
    let second = plan(&mut kv, htlcs, false);
    assert_eq!(first, second);
    // The record of the first part counts for both.
    assert_eq!(first.holder_amount, 50);
}

#[test]
fn recorded_payments_stay_when_the_balances_change() {
    let mut kv = store(70, 30);
    let htlcs = vec![htlc(1, true, Some(0), Some(10)), htlc(2, false, Some(1), Some(4))];
    let first = plan(&mut kv, htlcs.clone(), false);
    kv.write_rgb_channel_info(&CHANNEL.to_text(), &info(1, 2), true).unwrap();
    let second = plan(&mut kv, htlcs, false);
    assert_eq!(first, second);
    assert_eq!(read_payment(&kv, false, &proxy(1)), Some(payment(10, 70, 30, true, false)));
    assert_eq!(read_payment(&kv, true, &proxy(2)), Some(payment(4, 70, 30, true, true)));
}

#[test]
fn channel_info_is_left_alone_by_commitments() {
    let mut kv = store(70, 30);
    plan(&mut kv, vec![htlc(1, true, Some(0), Some(10))], false);
    assert_eq!(kv.read_rgb_channel_info(&CHANNEL.to_text(), true), Ok(info(70, 30)));
}

#[test]
fn pending_payments_are_used() {
    let mut kv = store(70, 30);
    let hash = PaymentHash([1; 32]);
    write_rgb_payment_info_file(&hash, CONTRACT, 15, false, false, &mut kv).unwrap();
    let plan = plan(&mut kv, vec![htlc(1, true, Some(0), Some(10))], false);
    assert_eq!(plan.coloring_info.asset_info.output_map[&0], 15);
    assert_eq!(plan.holder_amount, 55);
    let expected = payment(15, 70, 30, false, false);
    assert_eq!(read_payment(&kv, false, &proxy(1)), Some(expected));
    assert_eq!(read_payment(&kv, false, &format!("{}_pending", proxy(1))), Some(expected));
    assert_eq!(read_payment(&kv, false, &format!("{}_pending", hash_text(1))), None);
    assert_eq!(
        read_payment(&kv, false, &hash_text(1)),
        Some(payment(15, 0, 0, false, false))
    );
}

#[test]
fn pending_copies_are_made_again() {
    let mut kv = store(70, 30);
    let hash = PaymentHash([1; 32]);
    record_htlc(&CHANNEL, &info(70, 30), &hash, 10, false, &mut kv).unwrap();
    let key = format!("{}_pending", proxy(1));
    kv.remove(RGB_PRIMARY_NS, RGB_PAYMENT_INFO_OUTBOUND_NS, &key, false).unwrap();
    let again = record_htlc(&CHANNEL, &info(1, 2), &hash, 99, false, &mut kv);
    assert_eq!(again, Ok(payment(10, 70, 30, true, false)));
    assert_eq!(read_payment(&kv, false, &key), Some(payment(10, 70, 30, true, false)));
}

#[test]
fn invalid_payment_records_stop_coloring() {
    let hash = PaymentHash([1; 32]);
    for key in [format!("{}_pending", hash_text(1)), proxy(1)] {
        let mut kv = store(70, 30);
        kv.write(RGB_PRIMARY_NS, RGB_PAYMENT_INFO_OUTBOUND_NS, &key, vec![1]).unwrap();
        assert_eq!(
            record_htlc(&CHANNEL, &info(1, 2), &hash, 10, false, &mut kv),
            Err(Fault::InvalidRecord)
        );
        let tx = commitment(vec![htlc(1, true, Some(0), Some(10))]);
        assert_eq!(
            color_commitment(&context(), &scope(), &tx, false, &mut kv),
            Err(Fault::InvalidRecord)
        );
    }
}

#[test]
fn commitment_needs_channel_info() {
    let mut kv = MemoryStore::new();
    assert_eq!(
        color_commitment(&context(), &scope(), &commitment(vec![]), false, &mut kv),
        Err(Fault::ChannelInfoMissing)
    );
}

#[test]
fn colored_htlcs_need_an_output() {
    let mut kv = store(70, 30);
    let tx = commitment(vec![htlc(1, true, None, Some(10))]);
    assert_eq!(
        color_commitment(&context(), &scope(), &tx, false, &mut kv),
        Err(Fault::HtlcWithoutOutput)
    );
    assert_eq!(read_payment(&kv, false, &proxy(1)), None);
}

#[test]
fn commitment_amounts_stay_in_range() {
    let mut kv = store(70, 30);
    let tx = commitment(vec![htlc(1, true, Some(0), Some(71))]);
    assert_eq!(
        color_commitment(&context(), &scope(), &tx, false, &mut kv),
        Err(Fault::AmountOutOfRange)
    );
    let mut kv = store(70, 30);
    let tx = commitment(vec![htlc(1, false, Some(0), Some(31))]);
    assert_eq!(
        color_commitment(&context(), &scope(), &tx, false, &mut kv),
        Err(Fault::AmountOutOfRange)
    );
    let mut kv = store(70, 30);
    let tx = commitment(vec![
        htlc(1, true, Some(0), Some(u64::MAX)),
        htlc(2, true, Some(1), Some(1)),
    ]);
    assert_eq!(
        color_commitment(&context(), &scope(), &tx, false, &mut kv),
        Err(Fault::AmountOutOfRange)
    );
}

#[test]
fn trusting_parties_color_nothing_but_record_payments() {
    let mut kv = store(70, 30);
    let tx = commitment(vec![htlc(1, true, Some(0), Some(10))]);
    let context = ChannelContext { channel_id: CHANNEL, trusted_no_broadcast: true };
    assert_eq!(color_commitment(&context, &scope(), &tx, false, &mut kv), Ok(None));
    assert_eq!(read_payment(&kv, false, &proxy(1)), Some(payment(10, 70, 30, true, false)));
}

#[test]
fn signed_commitments_are_not_colored() {
    let mut kv = store(70, 30);
    let mut tx = commitment(vec![]);
    tx.built.transaction = tx_with(&[vec![1]], true);
    assert_eq!(
        color_commitment(&context(), &scope(), &tx, false, &mut kv),
        Err(Fault::NotUnsigned)
    );
}

#[test]
fn absent_outputs_get_nothing() {
    let mut kv = store(70, 30);
    let mut tx = commitment(vec![]);
    tx.built.transaction = tx_with(&[vec![9]], false);
    tx.revokeable_output_index = None;
    let plan = color_commitment(&context(), &scope(), &tx, false, &mut kv).unwrap().unwrap();
    assert!(plan.coloring_info.asset_info.output_map.is_empty());
}

#[test]
fn output_of_the_other_side_is_found() {
    let tx = tx_with(&[vec![9], vec![2], vec![2]], false);
    assert_eq!(counterparty_output_index(&tx.output, &[2]), Some(1));
    assert_eq!(counterparty_output_index(&tx.output, &[7]), None);
}

#[test]
fn finished_commitments_are_recorded() {
    let mut kv = store(70, 30);
    let htlcs = vec![htlc(1, true, Some(0), Some(10)), htlc(2, false, Some(1), Some(4))];
    let plan = plan(&mut kv, htlcs.clone(), false);
    let mut tx = commitment(htlcs.clone());
    let modified = tx_with(&[vec![0x6a]], false);
    let txid = Txid([7; 32]);
    assert_eq!(finish_commitment(&mut tx, &plan, modified, txid, &mut kv), Ok(()));
    assert_eq!(tx.built.transaction, tx_with(&[vec![0x6a]], false));
    assert_eq!(tx.built.txid, txid);
    assert_eq!(tx.nondust_htlcs, htlcs);
    assert_eq!(tx.revokeable_output_index, Some(2));
    assert_eq!(
        kv.read_rgb_transfer_info(&"07".repeat(32)),
        Ok(TransferInfo { contract_id: CONTRACT, rgb_amount: 64 })
    );
}

#[test]
fn finished_commitment_amounts_stay_in_range() {
    let mut kv = store(u64::MAX, 30);
    let htlcs = vec![htlc(2, false, Some(1), Some(4))];
    let plan = plan(&mut kv, htlcs.clone(), false);
    let mut tx = commitment(htlcs);
    let modified = tx_with(&[vec![0x6a]], false);
    assert_eq!(
        finish_commitment(&mut tx, &plan, modified, Txid([7; 32]), &mut kv),
        Err(Fault::AmountOutOfRange)
    );
    assert_eq!(kv.read_rgb_transfer_info(&"07".repeat(32)), Err(Fault::ReadFailed));
}

#[test]
fn refusing_stores_stop_coloring() {
    let mut kv = ReadOnlyStore(store(70, 30));
    let tx = commitment(vec![htlc(1, true, Some(0), Some(10))]);
    assert_eq!(
        color_commitment(&context(), &scope(), &tx, false, &mut kv),
        Err(Fault::StoreRefused)
    );
    let bare = commitment(vec![]);
    let plan = color_commitment(&context(), &scope(), &bare, false, &mut kv).unwrap().unwrap();
    let mut tx = commitment(vec![]);
    let modified = tx_with(&[vec![0x6a]], false);
    assert_eq!(
        finish_commitment(&mut tx, &plan, modified, Txid([7; 32]), &mut kv),
        Err(Fault::StoreRefused)
    );
}

#[test]
fn htlc_assets_go_to_the_first_output() {
    let mut kv = MemoryStore::new();
    let tx = tx_with(&[vec![1]], false);
    let htlc = htlc(1, true, Some(0), Some(10));
    assert_eq!(color_htlc(&tx, &htlc, &kv), Err(Fault::ReadFailed));
    let transfer = TransferInfo { contract_id: CONTRACT, rgb_amount: 1000 };
    kv.write_rgb_transfer_info(&"21".repeat(32), &transfer).unwrap();
    let plan = color_htlc(&tx, &htlc, &kv).unwrap().unwrap();
    check_blinding(&plan.coloring_info, Some(1));
    assert_eq!(plan.coloring_info.asset_info.output_map, map(&[(0, 10)]));
    assert_eq!(plan.rgb_amount, 10);
    let mut tx = tx;
    let modified = tx_with(&[vec![1], vec![0x6a]], false);
    assert_eq!(finish_htlc(&mut tx, &plan, modified, Txid([8; 32]), &mut kv), Ok(()));
    assert_eq!(tx, tx_with(&[vec![1], vec![0x6a]], false));
    assert!(is_tx_colored(&tx));
    assert_eq!(
        kv.read_rgb_transfer_info(&"08".repeat(32)),
        Ok(TransferInfo { contract_id: CONTRACT, rgb_amount: 10 })
    );
    assert_eq!(kv.read_rgb_transfer_info(&"21".repeat(32)), Ok(transfer));
}

#[test]
fn colored_htlc_transactions_are_found_by_their_id() {
    let mut kv = MemoryStore::new();
    let transfer = TransferInfo { contract_id: CONTRACT, rgb_amount: 1000 };
    kv.write_rgb_transfer_info(&"21".repeat(32), &transfer).unwrap();
    let mut tx = tx_with(&[vec![1]], false);
    let plan = color_htlc(&tx, &htlc(1, true, Some(0), Some(10)), &kv).unwrap().unwrap();
    // The wallet adds an output to the transaction in the PSBT.
    let colored = tx_with(&[vec![1], vec![0x6a]], false);
    let colored: bitcoin::Transaction = bitcoin::consensus::deserialize(&colored.raw).unwrap();
    let psbt = bitcoin::Psbt::from_unsigned_tx(colored.clone()).unwrap().to_string();
    let (modified, txid) = extract_colored_tx(&psbt).unwrap();
    assert_eq!(finish_htlc(&mut tx, &plan, modified, txid, &mut kv), Ok(()));
    let held: bitcoin::Transaction = bitcoin::consensus::deserialize(&tx.raw).unwrap();
    assert_eq!(held, colored);
    assert_eq!(
        kv.read_rgb_transfer_info(&held.compute_txid().to_string()),
        Ok(TransferInfo { contract_id: CONTRACT, rgb_amount: 10 })
    );
}

#[test]
fn htlcs_without_assets_are_not_colored() {
    let kv = MemoryStore::new();
    let tx = tx_with(&[vec![1]], false);
    assert_eq!(color_htlc(&tx, &htlc(1, true, Some(0), None), &kv), Ok(None));
    assert_eq!(color_htlc(&tx, &htlc(1, true, Some(0), Some(0)), &kv), Ok(None));
}

#[test]
fn htlc_transactions_need_an_input() {
    let kv = MemoryStore::new();
    let tx = Transaction { raw: vec![], input: vec![], output: vec![] };
    assert_eq!(color_htlc(&tx, &htlc(1, true, Some(0), Some(1)), &kv), Err(Fault::InputMissing));
}

#[test]
fn signed_htlc_transactions_are_not_colored() {
    let mut kv = MemoryStore::new();
    let transfer = TransferInfo { contract_id: CONTRACT, rgb_amount: 1000 };
    kv.write_rgb_transfer_info(&"21".repeat(32), &transfer).unwrap();
    let tx = tx_with(&[vec![1]], true);
    assert_eq!(color_htlc(&tx, &htlc(1, true, Some(0), Some(1)), &kv), Err(Fault::NotUnsigned));
}

fn closing(holder: u64, counterparty: u64) -> ClosingTransaction {
    ClosingTransaction {
        built: tx_with(&[vec![4], vec![6]], false),
        to_holder_value_sat: holder,
        to_counterparty_value_sat: counterparty,
        to_holder_script: vec![6],
        to_counterparty_script: vec![4],
    }
}

#[test]
fn closing_hands_out_the_balances() {
    let mut kv = store(70, 30);
    let plan = color_closing(&CHANNEL, &closing(1, 2), &kv).unwrap();
    check_blinding(&plan.coloring_info, None);
    assert_eq!(plan.coloring_info.asset_info.output_map, map(&[(1, 70), (0, 30)]));
    assert_eq!(plan.holder_amount, 70);
    let mut tx = closing(1, 2);
    let modified = tx_with(&[vec![0x6a]], false);
    assert_eq!(finish_closing(&mut tx, &plan, modified, Txid([9; 32]), &mut kv), Ok(()));
    assert_eq!(
        tx,
        ClosingTransaction { built: tx_with(&[vec![0x6a]], false), ..closing(1, 2) }
    );
    assert_eq!(
        kv.read_rgb_transfer_info(&"09".repeat(32)),
        Ok(TransferInfo { contract_id: CONTRACT, rgb_amount: 70 })
    );
}

#[test]
fn parties_without_satoshis_get_no_assets() {
    let kv = store(70, 30);
    let plan = color_closing(&CHANNEL, &closing(1, 0), &kv).unwrap();
    assert_eq!(plan.coloring_info.asset_info.output_map, map(&[(1, 70)]));
    let plan = color_closing(&CHANNEL, &closing(0, 1), &kv).unwrap();
    assert_eq!(plan.coloring_info.asset_info.output_map, map(&[(0, 30)]));
    let plan = color_closing(&CHANNEL, &closing(0, 0), &kv).unwrap();
    assert!(plan.coloring_info.asset_info.output_map.is_empty());
}

#[test]
fn closing_to_one_output_keeps_the_later_amount() {
    let kv = store(70, 30);
    let mut tx = closing(1, 1);
    tx.to_holder_script = vec![4];
    let plan = color_closing(&CHANNEL, &tx, &kv).unwrap();
    assert_eq!(plan.coloring_info.asset_info.output_map, map(&[(0, 30)]));
}

#[test]
fn closing_faults() {
    let kv = store(70, 30);
    let mut tx = closing(1, 1);
    tx.to_holder_script = vec![7];
    assert_eq!(color_closing(&CHANNEL, &tx, &kv), Err(Fault::OutputMissing));
    let mut tx = closing(1, 1);
    tx.to_counterparty_script = vec![7];
    assert_eq!(color_closing(&CHANNEL, &tx, &kv), Err(Fault::OutputMissing));
    let mut tx = closing(1, 1);
    tx.built = tx_with(&[vec![4], vec![6]], true);
    assert_eq!(color_closing(&CHANNEL, &tx, &kv), Err(Fault::NotUnsigned));
    assert_eq!(
        color_closing(&ChannelId([1; 32]), &closing(1, 1), &kv),
        Err(Fault::ChannelInfoMissing)
    );
}
