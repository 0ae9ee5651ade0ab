use rgb_utils::channel::{
    get_rgb_channel_info, get_rgb_channel_info_pending, is_channel_rgb, rename_rgb_files,
    shift_balances, update_rgb_channel_amount, update_rgb_channel_amount_pending,
    write_rgb_payment_info_file,
};
use rgb_utils::constants::{
    RGB_CHANNEL_INFO_NS, RGB_CONSIGNMENT_NS, RGB_PAYMENT_INFO_OUTBOUND_NS, RGB_PRIMARY_NS,
    RGB_TRANSFER_INFO_NS, RGB_WALLET_CONFIG_NS,
};
use rgb_utils::contract_id_serde::ContractId;
use rgb_utils::error::{Fault, ReadError};
use rgb_utils::htlc_records::record_htlc;
use rgb_utils::ids::{ChannelId, PaymentHash};
use rgb_utils::memory::{MemoryStore, NotFound};
use rgb_utils::records::{AssetSchema, RgbInfo, RgbPaymentInfo, TransferInfo};
use rgb_utils::rgb_store::{ChannelDetails, RgbKvStoreExt};
use rgb_utils::store::KVStoreSync;

/// What a refusing store says.
#[derive(Clone, Copy, Debug, PartialEq)]
enum Refusal {
    Read,
    Write,
    Remove,
}

/// A store that reads nothing, and refuses to write and to remove.
struct RefusingStore;

impl KVStoreSync for RefusingStore {
    type Failure = Refusal;

    fn read(&self, _: &str, _: &str, _: &str) -> Result<Vec<u8>, Refusal> {
        Err(Refusal::Read)
    }

    fn write(&mut self, _: &str, _: &str, _: &str, _: Vec<u8>) -> Result<(), Refusal> {
        Err(Refusal::Write)
    }

    fn remove(&mut self, _: &str, _: &str, _: &str, _: bool) -> Result<(), Refusal> {
        Err(Refusal::Remove)
    }
}

fn info(local: u64, remote: u64) -> RgbInfo {
    RgbInfo {
        contract_id: ContractId([5; 32]),
        schema: AssetSchema::Nia,
        local_rgb_amount: local,
        remote_rgb_amount: remote,
    }
}

fn not_found() -> ReadError<NotFound> {
    ReadError::Store(NotFound)
}

fn invalid_data() -> ReadError<NotFound> {
    ReadError::InvalidData
}

#[test]
fn memory_store_reads_what_was_written_last() {
    let mut kv = MemoryStore::new();
    assert_eq!(kv.read("a", "b", "c"), Err(NotFound));
    kv.write("a", "b", "c", vec![1]).unwrap();
    kv.write("a", "b", "d", vec![2]).unwrap();
    kv.write("a", "b", "c", vec![3]).unwrap();
    assert_eq!(kv.read("a", "b", "c"), Ok(vec![3]));
    assert_eq!(kv.read("a", "b", "d"), Ok(vec![2]));
    assert_eq!(kv.read("b", "a", "c"), Err(NotFound));
    kv.remove("a", "b", "c", false).unwrap();
    assert_eq!(kv.read("a", "b", "c"), Err(NotFound));
    assert_eq!(kv.read("a", "b", "d"), Ok(vec![2]));
    kv.remove("a", "b", "c", true).unwrap();
}

#[test]
fn transfer_info_is_read_back() {
    let mut kv = MemoryStore::new();
    let transfer = TransferInfo { contract_id: ContractId([1; 32]), rgb_amount: 44 };
    assert_eq!(kv.read_rgb_transfer_info("tx"), Err(Fault::ReadFailed));
    assert_eq!(kv.write_rgb_transfer_info("tx", &transfer), Ok(()));
    assert_eq!(kv.read_rgb_transfer_info("tx"), Ok(transfer));
    assert_eq!(kv.read(RGB_PRIMARY_NS, RGB_TRANSFER_INFO_NS, "tx"), Ok(transfer.encode()));
    kv.write(RGB_PRIMARY_NS, RGB_TRANSFER_INFO_NS, "tx", vec![1, 2]).unwrap();
    assert_eq!(kv.read_rgb_transfer_info("tx"), Err(Fault::InvalidRecord));
}

#[test]
fn pending_and_settled_channel_info_are_kept_apart() {
    let mut kv = MemoryStore::new();
    assert_eq!(kv.read_rgb_channel_info("ch", false), Err(not_found()));
    kv.write_rgb_channel_info("ch", &info(1, 2), false).unwrap();
    kv.write_rgb_channel_info("ch", &info(3, 4), true).unwrap();
    assert_eq!(kv.read_rgb_channel_info("ch", false), Ok(info(1, 2)));
    assert_eq!(kv.read_rgb_channel_info("ch", true), Ok(info(3, 4)));
    kv.remove_rgb_channel_info("ch", true).unwrap();
    assert_eq!(kv.read_rgb_channel_info("ch", true), Err(not_found()));
    assert_eq!(kv.read_rgb_channel_info("ch", false), Ok(info(1, 2)));
    kv.write(RGB_PRIMARY_NS, RGB_CHANNEL_INFO_NS, "ch", vec![]).unwrap();
    assert_eq!(kv.read_rgb_channel_info("ch", false), Err(invalid_data()));
}

#[test]
fn payment_info_goes_by_direction() {
    let mut kv = MemoryStore::new();
    let hash = PaymentHash([0xcd; 32]);
    let payment = RgbPaymentInfo {
        contract_id: ContractId([1; 32]),
        amount: 1,
        local_rgb_amount: 2,
        remote_rgb_amount: 3,
        swap_payment: false,
        inbound: false,
    };
    assert!(!kv.is_payment_rgb(&hash));
    kv.write_rgb_payment_info(&hash, &payment).unwrap();
    assert_eq!(kv.read_rgb_payment_info(&hash, false), Ok(payment));
    assert_eq!(kv.read_rgb_payment_info(&hash, true), Err(not_found()));
    assert!(kv.is_payment_rgb(&hash));
    assert_eq!(
        kv.read(RGB_PRIMARY_NS, RGB_PAYMENT_INFO_OUTBOUND_NS, &"cd".repeat(32)),
        Ok(payment.encode())
    );
    kv.write(RGB_PRIMARY_NS, RGB_PAYMENT_INFO_OUTBOUND_NS, &"cd".repeat(32), vec![9]).unwrap();
    assert_eq!(kv.read_rgb_payment_info(&hash, false), Err(invalid_data()));
    assert!(!kv.is_payment_rgb(&hash));
    let inbound = RgbPaymentInfo { inbound: true, ..payment };
    kv.write_rgb_payment_info(&hash, &inbound).unwrap();
    assert!(kv.is_payment_rgb(&hash));
}

#[test]
fn consignments_are_read_back() {
    let mut kv = MemoryStore::new();
    assert_eq!(kv.read_rgb_consignment("id"), Err(NotFound));
    kv.write_rgb_consignment("id", vec![1, 2, 3]).unwrap();
    assert_eq!(kv.read_rgb_consignment("id"), Ok(vec![1, 2, 3]));
    assert_eq!(kv.read(RGB_PRIMARY_NS, RGB_CONSIGNMENT_NS, "id"), Ok(vec![1, 2, 3]));
    kv.remove_rgb_consignment("id").unwrap();
    assert_eq!(kv.read_rgb_consignment("id"), Err(NotFound));
}

#[test]
fn settings_are_text() {
    let mut kv = MemoryStore::new();
    assert_eq!(kv.read_config("k"), Err(not_found()));
    kv.write_config("k", "gr\u{fc}n").unwrap();
    assert_eq!(kv.read_config("k"), Ok("gr\u{fc}n".to_string()));
    assert_eq!(kv.read(RGB_PRIMARY_NS, RGB_WALLET_CONFIG_NS, "k"), Ok(b"gr\xc3\xbcn".to_vec()));
    kv.write(RGB_PRIMARY_NS, RGB_WALLET_CONFIG_NS, "k", vec![0xff]).unwrap();
    assert_eq!(kv.read_config("k"), Err(invalid_data()));
}

fn hop(n: u8) -> ChannelDetails {
    ChannelDetails { channel_id: ChannelId([n; 32]) }
}

#[test]
fn hops_are_filtered_by_asset_and_amount() {
    let mut kv = MemoryStore::new();
    let hash = PaymentHash([1; 32]);
    let other = RgbInfo { contract_id: ContractId([6; 32]), ..info(100, 0) };
    kv.write_rgb_channel_info(&hop(1).channel_id.to_text(), &info(10, 0), false).unwrap();
    kv.write_rgb_channel_info(&hop(2).channel_id.to_text(), &info(9, 50), false).unwrap();
    kv.write_rgb_channel_info(&hop(3).channel_id.to_text(), &other, false).unwrap();
    kv.write_rgb_channel_info(&hop(4).channel_id.to_text(), &info(11, 0), false).unwrap();
    kv.write_rgb_channel_info(&hop(5).channel_id.to_text(), &info(90, 0), true).unwrap();

    let all = vec![hop(4), hop(2), hop(1), hop(3), hop(5), hop(6)];
    let mut hops = all.clone();
    kv.filter_first_hops(&hash, &mut hops);
    assert_eq!(hops, all);

    write_rgb_payment_info_file(&hash, ContractId([5; 32]), 10, false, false, &mut kv).unwrap();
    kv.filter_first_hops(&hash, &mut hops);
    assert_eq!(hops, vec![hop(4), hop(1)]);
}

#[test]
fn inbound_payments_do_not_filter() {
    let mut kv = MemoryStore::new();
    let hash = PaymentHash([1; 32]);
    write_rgb_payment_info_file(&hash, ContractId([5; 32]), 10, false, true, &mut kv).unwrap();
    let mut hops = vec![hop(4)];
    kv.filter_first_hops(&hash, &mut hops);
    assert_eq!(hops, vec![hop(4)]);
}

#[test]
fn new_payments_are_recorded_twice() {
    let mut kv = MemoryStore::new();
    let hash = PaymentHash([0x12; 32]);
    let id = ContractId([5; 32]);
    assert_eq!(write_rgb_payment_info_file(&hash, id, 77, true, false, &mut kv), Ok(()));
    let payment = kv.read_rgb_payment_info(&hash, false).unwrap();
    assert_eq!(
        payment,
        RgbPaymentInfo {
            contract_id: id,
            amount: 77,
            local_rgb_amount: 0,
            remote_rgb_amount: 0,
            swap_payment: true,
            inbound: false,
        }
    );
    let pending = format!("{}_pending", "12".repeat(32));
    assert_eq!(
        kv.read(RGB_PRIMARY_NS, RGB_PAYMENT_INFO_OUTBOUND_NS, &pending),
        Ok(payment.encode())
    );
}

#[test]
fn channel_info_must_be_there() {
    let mut kv = MemoryStore::new();
    let id = ChannelId([2; 32]);
    assert_eq!(get_rgb_channel_info_pending(&id, &kv), Err(Fault::ChannelInfoMissing));
    assert_eq!(get_rgb_channel_info("x", false, &kv), Err(Fault::ChannelInfoMissing));
    assert!(!is_channel_rgb(&id, &kv));
    kv.write_rgb_channel_info(&id.to_text(), &info(1, 2), true).unwrap();
    assert_eq!(get_rgb_channel_info_pending(&id, &kv), Ok(info(1, 2)));
    assert!(!is_channel_rgb(&id, &kv));
    kv.write_rgb_channel_info(&id.to_text(), &info(3, 4), false).unwrap();
    assert!(is_channel_rgb(&id, &kv));
    assert_eq!(get_rgb_channel_info(&id.to_text(), false, &kv), Ok(info(3, 4)));
}

#[test]
fn amounts_are_shifted() {
    let mut kv = MemoryStore::new();
    kv.write_rgb_channel_info("ch", &info(100, 50), false).unwrap();
    assert_eq!(update_rgb_channel_amount("ch", 30, 10, false, &mut kv), Ok(()));
    assert_eq!(kv.read_rgb_channel_info("ch", false), Ok(info(80, 70)));
    assert_eq!(update_rgb_channel_amount("ch", 10, 30, false, &mut kv), Ok(()));
    assert_eq!(kv.read_rgb_channel_info("ch", false), Ok(info(100, 50)));
    assert_eq!(update_rgb_channel_amount("ch", 7, 7, false, &mut kv), Ok(()));
    assert_eq!(kv.read_rgb_channel_info("ch", false), Ok(info(100, 50)));
}

#[test]
fn pending_amounts_are_shifted() {
    let mut kv = MemoryStore::new();
    let id = ChannelId([2; 32]);
    assert_eq!(
        update_rgb_channel_amount_pending(&id, 1, 0, &mut kv),
        Err(Fault::ChannelInfoMissing)
    );
    kv.write_rgb_channel_info(&id.to_text(), &info(100, 50), true).unwrap();
    kv.write_rgb_channel_info(&id.to_text(), &info(9, 9), false).unwrap();
    assert_eq!(update_rgb_channel_amount_pending(&id, 0, 50, &mut kv), Ok(()));
    assert_eq!(get_rgb_channel_info_pending(&id, &kv), Ok(info(150, 0)));
    assert_eq!(kv.read_rgb_channel_info(&id.to_text(), false), Ok(info(9, 9)));
}

#[test]
fn shifts_out_of_range_are_refused() {
    assert_eq!(shift_balances(info(10, 0), 11, 0), None);
    assert_eq!(shift_balances(info(0, 10), 0, 11), None);
    assert_eq!(shift_balances(info(5, u64::MAX), 1, 0), None);
    assert_eq!(shift_balances(info(u64::MAX, 5), 0, 1), None);
    assert_eq!(shift_balances(info(10, 0), 10, 0), Some(info(0, 10)));
    let mut kv = MemoryStore::new();
    kv.write_rgb_channel_info("ch", &info(10, 0), false).unwrap();
    assert_eq!(
        update_rgb_channel_amount("ch", 11, 0, false, &mut kv),
        Err(Fault::AmountOutOfRange)
    );
    assert_eq!(kv.read_rgb_channel_info("ch", false), Ok(info(10, 0)));
}

#[test]
fn renaming_moves_all_records() {
    let mut kv = MemoryStore::new();
    let temp = ChannelId([1; 32]);
    let id = ChannelId([2; 32]);
    let other = ChannelId([3; 32]);
    kv.write_rgb_channel_info(&temp.to_text(), &info(1, 2), false).unwrap();
    kv.write_rgb_channel_info(&temp.to_text(), &info(3, 4), true).unwrap();
    kv.write_rgb_channel_info(&other.to_text(), &info(5, 6), true).unwrap();
    kv.write_rgb_consignment(&temp.to_text(), vec![8]).unwrap();
    assert_eq!(rename_rgb_files(&id, &temp, &mut kv), Ok(()));
    assert_eq!(kv.read_rgb_channel_info(&id.to_text(), false), Ok(info(1, 2)));
    assert_eq!(kv.read_rgb_channel_info(&id.to_text(), true), Ok(info(3, 4)));
    assert_eq!(kv.read_rgb_consignment(&id.to_text()), Ok(vec![8]));
    assert_eq!(kv.read_rgb_channel_info(&temp.to_text(), false), Err(not_found()));
    assert_eq!(kv.read_rgb_channel_info(&temp.to_text(), true), Err(not_found()));
    assert_eq!(kv.read_rgb_consignment(&temp.to_text()), Err(NotFound));
    assert_eq!(kv.read_rgb_channel_info(&other.to_text(), true), Ok(info(5, 6)));
}

#[test]
fn renaming_needs_no_consignment() {
    let mut kv = MemoryStore::new();
    let temp = ChannelId([1; 32]);
    let id = ChannelId([2; 32]);
    kv.write_rgb_channel_info(&temp.to_text(), &info(1, 2), false).unwrap();
    kv.write_rgb_channel_info(&temp.to_text(), &info(3, 4), true).unwrap();
    assert_eq!(rename_rgb_files(&id, &temp, &mut kv), Ok(()));
    assert_eq!(kv.read_rgb_consignment(&id.to_text()), Err(NotFound));
}

#[test]
fn renaming_needs_both_infos() {
    let mut kv = MemoryStore::new();
    let temp = ChannelId([1; 32]);
    let id = ChannelId([2; 32]);
    assert_eq!(rename_rgb_files(&id, &temp, &mut kv), Err(Fault::RenameFailed));
    kv.write_rgb_channel_info(&temp.to_text(), &info(1, 2), false).unwrap();
    assert_eq!(rename_rgb_files(&id, &temp, &mut kv), Err(Fault::RenameFailed));
    assert_eq!(kv.read_rgb_channel_info(&id.to_text(), false), Ok(info(1, 2)));
}

#[test]
fn renaming_to_the_same_id_keeps_the_records() {
    let mut kv = MemoryStore::new();
    let id = ChannelId([1; 32]);
    assert_eq!(rename_rgb_files(&id, &id, &mut kv), Err(Fault::RenameFailed));
    kv.write_rgb_channel_info(&id.to_text(), &info(1, 2), false).unwrap();
    assert_eq!(rename_rgb_files(&id, &id, &mut kv), Err(Fault::RenameFailed));
    kv.write_rgb_channel_info(&id.to_text(), &info(3, 4), true).unwrap();
    kv.write_rgb_consignment(&id.to_text(), vec![8]).unwrap();
    assert_eq!(rename_rgb_files(&id, &id, &mut kv), Ok(()));
    assert_eq!(kv.read_rgb_channel_info(&id.to_text(), false), Ok(info(1, 2)));
    assert_eq!(kv.read_rgb_channel_info(&id.to_text(), true), Ok(info(3, 4)));
    assert_eq!(kv.read_rgb_consignment(&id.to_text()), Ok(vec![8]));
}

/// A store that notes how often it may put off a removal, and how often not.
struct NotingStore {
    inner: MemoryStore,
    lazy: usize,
    prompt: usize,
}

impl KVStoreSync for NotingStore {
    type Failure = NotFound;

    fn read(&self, a: &str, b: &str, c: &str) -> Result<Vec<u8>, NotFound> {
        self.inner.read(a, b, c)
    }

    fn write(&mut self, a: &str, b: &str, c: &str, data: Vec<u8>) -> Result<(), NotFound> {
        self.inner.write(a, b, c, data)
    }

    fn remove(&mut self, a: &str, b: &str, c: &str, lazy: bool) -> Result<(), NotFound> {
        if lazy {
            self.lazy += 1;
        } else {
            self.prompt += 1;
        }
        self.inner.remove(a, b, c, lazy)
    }
}

#[test]
fn removals_are_not_put_off() {
    let mut kv = NotingStore { inner: MemoryStore::new(), lazy: 0, prompt: 0 };
    let temp = ChannelId([1; 32]);
    kv.write_rgb_channel_info(&temp.to_text(), &info(1, 2), false).unwrap();
    kv.write_rgb_channel_info(&temp.to_text(), &info(3, 4), true).unwrap();
    kv.write_rgb_consignment(&temp.to_text(), vec![8]).unwrap();
    rename_rgb_files(&ChannelId([2; 32]), &temp, &mut kv).unwrap();
    assert_eq!((kv.lazy, kv.prompt), (0, 3));
    let hash = PaymentHash([1; 32]);
    write_rgb_payment_info_file(&hash, ContractId([5; 32]), 7, false, true, &mut kv).unwrap();
    record_htlc(&temp, &info(1, 2), &hash, 7, true, &mut kv).unwrap();
    assert_eq!((kv.lazy, kv.prompt), (0, 4));
}

#[test]
fn refusals_are_reported() {
    let mut kv = RefusingStore;
    let hash = PaymentHash([1; 32]);
    let id = ContractId([5; 32]);
    let transfer = TransferInfo { contract_id: id, rgb_amount: 1 };
    assert_eq!(kv.write_rgb_transfer_info("t", &transfer), Err(Fault::StoreRefused));
    assert_eq!(kv.write_rgb_channel_info("c", &info(1, 2), true), Err(Fault::StoreRefused));
    assert_eq!(kv.write_rgb_consignment("c", vec![]), Err(Fault::StoreRefused));
    assert_eq!(kv.remove_rgb_consignment("c"), Err(Fault::StoreRefused));
    assert_eq!(kv.write_config("c", "v"), Err(Fault::StoreRefused));
    assert_eq!(kv.remove_rgb_channel_info("c", true), Err(Refusal::Remove));
    assert_eq!(kv.read_rgb_channel_info("c", true), Err(ReadError::Store(Refusal::Read)));
    assert_eq!(kv.read_rgb_consignment("c"), Err(Refusal::Read));
    assert_eq!(kv.read_config("c"), Err(ReadError::Store(Refusal::Read)));
    assert_eq!(
        write_rgb_payment_info_file(&hash, id, 1, false, false, &mut kv),
        Err(Fault::StoreRefused)
    );
}
