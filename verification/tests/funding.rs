use rgb_utils::constants::{
    BITCOIN_NETWORK_FNAME, INDEXER_URL_FNAME, RGB_PRIMARY_NS, RGB_WALLET_CONFIG_NS,
    WALLET_ACCOUNT_XPUB_COLORED_FNAME, WALLET_ACCOUNT_XPUB_VANILLA_FNAME,
    WALLET_MASTER_FINGERPRINT_FNAME, WALLET_REUSE_ADDRESSES_FNAME,
};
use rgb_utils::contract_id_serde::ContractId;
use rgb_utils::error::{ChannelError, Fault};
use rgb_utils::funding::{
    handle_funding, refusal_text, AcceptError, AcceptedTransfer, Assignment,
};
use rgb_utils::ids::ChannelId;
use rgb_utils::memory::{MemoryStore, NotFound};
use rgb_utils::records::{AssetSchema, RgbInfo};
use rgb_utils::rename_rgb_files;
use rgb_utils::rgb_store::RgbKvStoreExt;
use rgb_utils::store::KVStoreSync;
use rgb_utils::wallet::{
    accept_request, accept_transfer, get_indexer_url, get_reuse_addresses, get_wallet_data,
    get_wallet_settings, new_rgb_wallet, wallet_dir, DatabaseType, WalletSettings,
};

/// A store that reads nothing and refuses to write.
struct RefusingStore;

impl KVStoreSync for RefusingStore {
    type Failure = NotFound;

    fn read(&self, _: &str, _: &str, _: &str) -> Result<Vec<u8>, NotFound> {
        Err(NotFound)
    }

    fn write(&mut self, _: &str, _: &str, _: &str, _: Vec<u8>) -> Result<(), NotFound> {
        Err(NotFound)
    }

    fn remove(&mut self, _: &str, _: &str, _: &str, _: bool) -> Result<(), NotFound> {
        Err(NotFound)
    }
}

const TEMP: ChannelId = ChannelId([0xbb; 32]);

fn transfer(assignments: Vec<Assignment>) -> AcceptedTransfer {
    AcceptedTransfer {
        consignment: vec![1, 2, 3],
        contract_id: ContractId([5; 32]),
        schema: Some(AssetSchema::Uda),
        assignments,
    }
}

fn info(local: u64, remote: u64) -> RgbInfo {
    RgbInfo {
        contract_id: ContractId([5; 32]),
        schema: AssetSchema::Uda,
        local_rgb_amount: local,
        remote_rgb_amount: remote,
    }
}

fn close(reason: &str) -> Result<Result<(), ChannelError>, Fault> {
    Ok(Err(ChannelError::Close(reason.to_string())))
}

#[test]
fn funding_is_recorded() {
    let mut kv = MemoryStore::new();
    let accepted = Ok(transfer(vec![Assignment::Fungible(100)]));
    assert_eq!(handle_funding(&TEMP, "tx", accepted, Some(40), &mut kv), Ok(Ok(())));
    assert_eq!(kv.read_rgb_consignment("tx"), Ok(vec![1, 2, 3]));
    assert_eq!(kv.read_rgb_consignment(&TEMP.to_text()), Ok(vec![1, 2, 3]));
    assert_eq!(kv.read_rgb_channel_info(&TEMP.to_text(), true), Ok(info(40, 60)));
    assert_eq!(kv.read_rgb_channel_info(&TEMP.to_text(), false), Ok(info(40, 60)));
}

#[test]
fn nothing_is_pushed_by_default() {
    let mut kv = MemoryStore::new();
    let accepted = Ok(transfer(vec![Assignment::NonFungible]));
    assert_eq!(handle_funding(&TEMP, "tx", accepted, None, &mut kv), Ok(Ok(())));
    assert_eq!(kv.read_rgb_channel_info(&TEMP.to_text(), false), Ok(info(0, 1)));
}

#[test]
fn funded_channels_can_be_renamed() {
    let mut kv = MemoryStore::new();
    let id = ChannelId([0xcc; 32]);
    let accepted = Ok(transfer(vec![Assignment::Fungible(100)]));
    handle_funding(&TEMP, "tx", accepted, Some(40), &mut kv).unwrap().unwrap();
    assert_eq!(rename_rgb_files(&id, &TEMP, &mut kv), Ok(()));
    assert_eq!(kv.read_rgb_channel_info(&id.to_text(), true), Ok(info(40, 60)));
    assert_eq!(kv.read_rgb_consignment(&id.to_text()), Ok(vec![1, 2, 3]));
    assert_eq!(kv.read_rgb_consignment("tx"), Ok(vec![1, 2, 3]));
}

#[test]
fn refused_transfers_close_the_channel() {
    let details = || "details".to_string();
    let cases = vec![
        (AcceptError::InvalidConsignment, "Invalid RGB consignment for funding"),
        (AcceptError::NoConsignment, "Failed to find RGB consignment"),
        (AcceptError::UnknownRgbSchema { schema_id: details() }, "Unknown RGB schema: details"),
        (
            AcceptError::UnsupportedSchema { asset_schema: details() },
            "Unsupported RGB schema: details",
        ),
        (AcceptError::Indexer { details: details() }, "Failed to connect to indexer: details"),
        (
            AcceptError::InvalidIndexer { details: details() },
            "Failed to connect to indexer: details",
        ),
        (AcceptError::Network { details: details() }, "Failed to connect to indexer: details"),
        (AcceptError::Other { error: details() }, "Unexpected error: details"),
    ];
    for (error, reason) in cases {
        assert_eq!(refusal_text(&error), reason);
        let mut kv = MemoryStore::new();
        assert_eq!(handle_funding(&TEMP, "tx", Err(error), Some(1), &mut kv), close(reason));
        assert_eq!(kv.read_rgb_consignment("tx"), Err(NotFound));
    }
}

#[test]
fn a_single_assignment_is_expected() {
    for n in [0, 2, 12] {
        let mut kv = MemoryStore::new();
        let accepted = Ok(transfer(vec![Assignment::Fungible(1); n]));
        let reason = format!("Unexpected number of RGB assignments: {}", n);
        assert_eq!(handle_funding(&TEMP, "tx", accepted, None, &mut kv), close(&reason));
        assert_eq!(kv.read_rgb_consignment("tx"), Ok(vec![1, 2, 3]));
        assert!(kv.read_rgb_channel_info(&TEMP.to_text(), false).is_err());
    }
}

#[test]
fn funding_faults() {
    let mut kv = MemoryStore::new();
    let accepted = Ok(transfer(vec![Assignment::Other]));
    assert_eq!(
        handle_funding(&TEMP, "tx", accepted, None, &mut kv),
        Err(Fault::UnsupportedAssignment)
    );
    let mut unknown = transfer(vec![Assignment::Fungible(1)]);
    unknown.schema = None;
    assert_eq!(
        handle_funding(&TEMP, "tx", Ok(unknown), None, &mut kv),
        Err(Fault::UnknownSchema)
    );
    let accepted = Ok(transfer(vec![Assignment::Fungible(10)]));
    assert_eq!(
        handle_funding(&TEMP, "tx", accepted, Some(11), &mut kv),
        Err(Fault::AmountOutOfRange)
    );
    let accepted = Ok(transfer(vec![Assignment::Fungible(10)]));
    assert_eq!(
        handle_funding(&TEMP, "tx", accepted, Some(1), &mut RefusingStore),
        Err(Fault::StoreRefused)
    );
}

fn settings_store() -> MemoryStore {
    let mut kv = MemoryStore::new();
    kv.write_config(BITCOIN_NETWORK_FNAME, "regtest").unwrap();
    kv.write_config(WALLET_ACCOUNT_XPUB_VANILLA_FNAME, "vanilla").unwrap();
    kv.write_config(WALLET_ACCOUNT_XPUB_COLORED_FNAME, "colored").unwrap();
    kv.write_config(WALLET_MASTER_FINGERPRINT_FNAME, "fingerprint").unwrap();
    kv
}

fn settings(reuse_addresses: bool) -> WalletSettings {
    WalletSettings {
        data_dir: "dir".to_string(),
        bitcoin_network: "regtest".to_string(),
        account_xpub_vanilla: "vanilla".to_string(),
        account_xpub_colored: "colored".to_string(),
        master_fingerprint: "fingerprint".to_string(),
        reuse_addresses,
    }
}

#[test]
fn wallet_settings_are_read() {
    let mut kv = settings_store();
    assert_eq!(get_wallet_settings("dir".to_string(), &kv), Ok(settings(false)));
    kv.write_config(WALLET_REUSE_ADDRESSES_FNAME, "true").unwrap();
    assert_eq!(get_wallet_settings("dir".to_string(), &kv), Ok(settings(true)));
}

#[test]
fn wallet_data_is_beside_the_node_data() {
    assert_eq!(wallet_dir("/data/.ldk"), Ok("/data".to_string()));
    assert_eq!(wallet_dir("/a/b.c/d"), Ok("/a/b.c".to_string()));
    assert_eq!(wallet_dir("/data"), Ok("/".to_string()));
    assert_eq!(wallet_dir("data/.ldk"), Ok("data".to_string()));
    assert_eq!(wallet_dir(".ldk"), Ok("".to_string()));
    assert_eq!(wallet_dir("/"), Err(Fault::NoParentDirectory));
    assert_eq!(wallet_dir(""), Err(Fault::NoParentDirectory));
}

#[test]
fn every_form_of_a_path_has_its_parent() {
    let cases = [
        ("../a/b", "../a"),
        ("../node/.ldk", "../node"),
        ("../a", ".."),
        ("..", ""),
        ("a/..", "a"),
        ("a/../b", "a/.."),
        ("/..", "/"),
        ("./a/b", "./a"),
        ("./a", "."),
        ("././a", "."),
        (".//a", "."),
        (".", ""),
        ("./", ""),
        ("./.", ""),
        ("a/b/", "a"),
        ("a/b//", "a"),
        ("a/b/.", "a"),
        ("a/b/./", "a"),
        ("a//b", "a"),
        ("a/./b", "a"),
        ("a/.//b", "a"),
        ("a/", ""),
        ("a", ""),
        ("a.", ""),
        ("a/b.", "a"),
        ("a/b../c", "a/b.."),
        ("/a/", "/"),
        ("/./a", "/"),
        ("/.//a", "/"),
        ("/a//b/", "/a"),
        ("/gr\u{fc}n/.ldk", "/gr\u{fc}n"),
    ];
    for (path, parent) in cases {
        assert_eq!(wallet_dir(path), Ok(parent.to_string()), "{}", path);
    }
    for path in ["", "/", "/.", "/./", "/./."] {
        assert_eq!(wallet_dir(path), Err(Fault::NoParentDirectory), "{}", path);
    }
}

#[test]
fn wallet_data_of_a_node() {
    let mut kv = settings_store();
    assert_eq!(get_wallet_data("dir/.ldk", &kv), Ok(settings(false)));
    assert_eq!(get_wallet_data("/", &kv), Err(Fault::NoParentDirectory));
    assert_eq!(get_wallet_data("dir/.ldk", &MemoryStore::new()), Err(Fault::ConfigMissing));
    kv.write_config(WALLET_REUSE_ADDRESSES_FNAME, "true").unwrap();
    let expected = WalletSettings { data_dir: "/data".to_string(), ..settings(true) };
    assert_eq!(get_wallet_data("/data/.ldk", &kv), Ok(expected));
}

#[test]
fn wallet_settings_must_be_there() {
    let names = [
        BITCOIN_NETWORK_FNAME,
        WALLET_ACCOUNT_XPUB_VANILLA_FNAME,
        WALLET_ACCOUNT_XPUB_COLORED_FNAME,
        WALLET_MASTER_FINGERPRINT_FNAME,
    ];
    for name in names {
        let mut kv = settings_store();
        kv.remove(RGB_PRIMARY_NS, RGB_WALLET_CONFIG_NS, name, false).unwrap();
        assert_eq!(get_wallet_settings("dir".to_string(), &kv), Err(Fault::ConfigMissing));
    }
}

#[test]
fn addresses_are_reused_on_request_only() {
    let mut kv = MemoryStore::new();
    assert!(!get_reuse_addresses(&kv));
    for value in ["false", "True", "true ", ""] {
        kv.write_config(WALLET_REUSE_ADDRESSES_FNAME, value).unwrap();
        assert!(!get_reuse_addresses(&kv));
    }
    kv.write_config(WALLET_REUSE_ADDRESSES_FNAME, "true").unwrap();
    assert!(get_reuse_addresses(&kv));
}

#[test]
fn wallets_are_made_from_settings() {
    let (data, keys) = new_rgb_wallet(settings(true));
    assert_eq!(data.data_dir, "dir");
    assert_eq!(data.bitcoin_network, "regtest");
    assert_eq!(data.database_type, DatabaseType::Sqlite);
    assert_eq!(data.max_allocations_per_utxo, 1);
    assert_eq!(
        data.supported_schemas,
        vec![AssetSchema::Nia, AssetSchema::Cfa, AssetSchema::Uda, AssetSchema::Ifa]
    );
    assert!(data.reuse_addresses);
    assert_eq!(keys.account_xpub_vanilla, "vanilla");
    assert_eq!(keys.account_xpub_colored, "colored");
    assert_eq!(keys.vanilla_keychain, None);
    assert_eq!(keys.master_fingerprint, "fingerprint");
    assert_eq!(keys.mnemonic, None);
}

#[test]
fn transfers_are_accepted_at_the_second_output() {
    let mut kv = settings_store();
    assert_eq!(get_indexer_url(&kv), Err(Fault::ConfigMissing));
    let dir = || "dir".to_string();
    let txid = || "txid".to_string();
    assert_eq!(accept_request(dir(), txid(), &kv), Err(Fault::ConfigMissing));
    assert_eq!(accept_transfer("dir/.ldk", txid(), &kv), Err(Fault::ConfigMissing));
    assert_eq!(accept_transfer("", txid(), &kv), Err(Fault::NoParentDirectory));
    kv.write_config(INDEXER_URL_FNAME, "url").unwrap();
    let request = accept_request(dir(), txid(), &kv).unwrap();
    assert_eq!(accept_transfer("dir/.ldk", txid(), &kv).unwrap(), request);
    let other = accept_transfer("../node/.ldk", txid(), &kv).unwrap();
    assert_eq!(other.settings.data_dir, "../node");
    assert_eq!((other.funding_vout, other.blinding), (1, 777));
    assert_eq!(request.settings, settings(false));
    assert_eq!(request.indexer_url, "url");
    assert!(request.skip_consistency_check);
    assert_eq!(request.funding_txid, "txid");
    assert_eq!(request.funding_vout, 1);
    assert_eq!(request.blinding, 777);
}
