//! The settings of the wallet, and what the wallet is asked for.

use crate::constants::{
    BITCOIN_NETWORK_FNAME, INDEXER_URL_FNAME, STATIC_BLINDING, WALLET_ACCOUNT_XPUB_COLORED_FNAME,
    WALLET_ACCOUNT_XPUB_VANILLA_FNAME, WALLET_MASTER_FINGERPRINT_FNAME,
    WALLET_REUSE_ADDRESSES_FNAME,
};
use crate::error::Fault;
use crate::records::AssetSchema;
use crate::rgb_store;
use crate::rgb_store::RgbKvStoreExt;
use crate::store::{Contents, KVStoreSync};
use vstd::prelude::*;

verus! {

/// The kind of database in which a wallet keeps its data.
#[derive(Clone, Copy, Debug, PartialEq, Eq, Structural)]
pub enum DatabaseType {
    /// An SQLite database
    Sqlite,
}

/// The keys of a wallet with a single signer.
#[derive(Debug, PartialEq, Eq)]
pub struct SinglesigKeys {
    /// The account-level xPub of the vanilla side
    pub account_xpub_vanilla: String,
    /// The account-level xPub of the colored side
    pub account_xpub_colored: String,
    /// The keychain of the vanilla side, where it is not the usual one
    pub vanilla_keychain: Option<u8>,
    /// The master fingerprint
    pub master_fingerprint: String,
    /// The mnemonic, where the wallet can sign
    pub mnemonic: Option<String>,
}

/// What a wallet is made from.
#[derive(Debug, PartialEq, Eq)]
pub struct WalletData {
    /// The directory in which the wallet keeps its data
    pub data_dir: String,
    /// The name of the bitcoin network
    pub bitcoin_network: String,
    /// The kind of database
    pub database_type: DatabaseType,
    /// How many allocations a single output may hold
    pub max_allocations_per_utxo: u32,
    /// The schemas of the assets that the wallet holds
    pub supported_schemas: Vec<AssetSchema>,
    /// Whether the wallet reuses addresses
    pub reuse_addresses: bool,
}

/// The settings of the wallet that are in the store, with the directory of its data.
#[derive(Debug, PartialEq, Eq)]
pub struct WalletSettings {
    /// The directory in which the wallet keeps its data
    pub data_dir: String,
    /// The name of the bitcoin network
    pub bitcoin_network: String,
    /// The account-level xPub of the vanilla side
    pub account_xpub_vanilla: String,
    /// The account-level xPub of the colored side
    pub account_xpub_colored: String,
    /// The master fingerprint
    pub master_fingerprint: String,
    /// Whether the wallet reuses addresses
    pub reuse_addresses: bool,
}

/// What the wallet needs to accept the transfer that funds a channel.
#[derive(Debug, PartialEq, Eq)]
pub struct AcceptRequest {
    /// The settings of the wallet
    pub settings: WalletSettings,
    /// Where the indexer is found
    pub indexer_url: String,
    /// Whether the wallet goes online without a consistency check
    pub skip_consistency_check: bool,
    /// The funding transaction
    pub funding_txid: String,
    /// The output that holds the assets
    pub funding_vout: u32,
    /// The blinding factor of the assignment
    pub blinding: u64,
}

/// Whether a path is read in the same way on every system: it has no character that sets
/// components or drives apart on some systems only, and does not start as the name of a share.
pub open spec fn portable_path(path: Seq<char>) -> bool {
    &&& !path.contains('\\')
    &&& !path.contains(':')
    &&& !(path.len() >= 2 && path[0] == '/' && path[1] == '/')
}

/// A path without what follows its last component: slashes, and dots that stand for the directory
/// itself.
pub open spec fn trimmed(path: Seq<char>) -> Seq<char>
    decreases path.len(),
{
    if path.len() > 1 && (path.last() == '/' || (path.last() == '.' && path[path.len() - 2]
        == '/')) {
        trimmed(path.drop_last())
    } else {
        path
    }
}

/// The place of the last slash of a path, if there is one.
pub open spec fn last_slash(path: Seq<char>) -> Option<nat>
    decreases path.len(),
{
    if path.len() == 0 {
        None
    } else if path.last() == '/' {
        Some((path.len() - 1) as nat)
    } else {
        last_slash(path.drop_last())
    }
}

/// The directory in which what a portable path names is: the path without its last component. The
/// empty path and the root are in none; a single component is in the directory with no name.
pub open spec fn parent_text(path: Seq<char>) -> Option<Seq<char>> {
    let t = trimmed(path);
    if t.len() == 0 || t == seq!['/'] {
        None
    } else {
        match last_slash(t) {
            None => Some(Seq::empty()),
            Some(n) => if n == 0 {
                Some(seq!['/'])
            } else {
                Some(trimmed(t.take(n as int)))
            },
        }
    }
}

/// What taking the last component off a path may come to. Of a path that is not portable, only
/// that it is a proper start of the path.
pub open spec fn may_be_parent(path: Seq<char>, parent: Option<Seq<char>>) -> bool {
    &&& portable_path(path) ==> parent == parent_text(path)
    &&& parent matches Some(dir) ==> dir.len() < path.len() && dir == path.take(dir.len() as int)
}

/// Trimming cuts off the end of a path, but does not make it empty.
proof fn lemma_trimmed(path: Seq<char>)
    ensures
        trimmed(path).len() <= path.len(),
        trimmed(path) == path.take(trimmed(path).len() as int),
        path.len() > 0 ==> trimmed(path).len() > 0,
    decreases path.len(),
{
    if path.len() > 1 && (path.last() == '/' || (path.last() == '.' && path[path.len() - 2]
        == '/')) {
        lemma_trimmed(path.drop_last());
        let n = trimmed(path).len() as int;
        assert(path.drop_last().take(n) =~= path.take(n));
    } else {
        assert(path.take(path.len() as int) =~= path);
    }
}

/// The last slash of a path is a slash, and none follows it.
pub proof fn law_last_slash(path: Seq<char>)
    ensures
        match last_slash(path) {
            Some(n) => {
                &&& n < path.len()
                &&& path[n as int] == '/'
                &&& forall|i: int| n < i < path.len() ==> #[trigger] path[i] != '/'
            },
            None => forall|i: int| 0 <= i < path.len() ==> #[trigger] path[i] != '/',
        },
    decreases path.len(),
{
    if path.len() > 0 && path.last() != '/' {
        let rest = path.drop_last();
        law_last_slash(rest);
        assert forall|i: int| 0 <= i < rest.len() implies rest[i] == path[i] by {}
        let from = match last_slash(path) {
            Some(n) => n + 1,
            None => 0,
        };
        assert forall|i: int| from <= i < path.len() implies #[trigger] path[i] != '/' by {
            if i < rest.len() {
                assert(rest[i] == path[i]);
            }
        }
    }
}

/// The parent of a path is a proper start of it.
pub proof fn law_parent_is_proper_start(path: Seq<char>)
    ensures
        parent_text(path) matches Some(dir) ==> dir.len() < path.len() && dir == path.take(
            dir.len() as int,
        ),
{
    let t = trimmed(path);
    lemma_trimmed(path);
    if t.len() > 0 && t != seq!['/'] {
        law_last_slash(t);
        match last_slash(t) {
            None => {
                assert(path.take(0) =~= Seq::<char>::empty());
            },
            Some(n) => {
                if n == 0 {
                    assert(path[0] == t[0]);
                    assert(path.take(1) =~= seq!['/']);
                    if t.len() == 1 {
                        assert(t =~= seq!['/']);
                    }
                } else {
                    let d = t.take(n as int);
                    lemma_trimmed(d);
                    let k = trimmed(d).len() as int;
                    assert(d.take(k) =~= path.take(k));
                }
            },
        }
    }
}

/// The mathematical content of a directory, if there is one.
pub open spec fn dir_text(dir: Option<String>) -> Option<Seq<char>> {
    match dir {
        Some(dir) => Some(dir@),
        None => None,
    }
}

/// `std::path::Path::parent` of a path that is given as text. The claims: of a portable path it is
/// the path without its last component, where repeated and trailing slashes and inner dots do not
/// count as components; of any path it is a proper start of the path, if it is anything. What it
/// is exactly for paths with a backslash, with a colon or with two slashes at the start depends on
/// the system, and is left unsaid.
#[verifier::external_body]
fn path_parent(path: &str) -> (r: Option<String>)
    ensures
        may_be_parent(path@, dir_text(r)),
{
    match std::path::Path::new(path).parent() {
        Some(dir) => Some(dir.to_string_lossy().to_string()),
        None => None,
    }
}

/// A wallet setting that must be in the store.
pub open spec fn required_config(contents: Contents, key: Seq<char>) -> Result<Seq<char>, Fault> {
    match rgb_store::config_at(contents, key) {
        Some(value) => Ok(value),
        None => Err(Fault::ConfigMissing),
    }
}

/// Whether a setting that was read is as required.
pub open spec fn reads(r: Result<String, Fault>, required: Result<Seq<char>, Fault>) -> bool {
    match required {
        Ok(value) => r matches Ok(found) && found@ == value,
        Err(fault) => r matches Err(e) && e == fault,
    }
}

/// Whether addresses are reused: where the setting says so in as many letters.
pub open spec fn reuses_addresses(contents: Contents) -> bool {
    rgb_store::config_at(contents, WALLET_REUSE_ADDRESSES_FNAME@) == Some("true"@)
}

/// Whether the settings are those in the store.
pub open spec fn settings_of(contents: Contents, data_dir: Seq<char>, s: WalletSettings) -> bool {
    &&& s.data_dir@ == data_dir
    &&& rgb_store::config_at(contents, BITCOIN_NETWORK_FNAME@) == Some(s.bitcoin_network@)
    &&& rgb_store::config_at(contents, WALLET_ACCOUNT_XPUB_VANILLA_FNAME@) == Some(
        s.account_xpub_vanilla@,
    )
    &&& rgb_store::config_at(contents, WALLET_ACCOUNT_XPUB_COLORED_FNAME@) == Some(
        s.account_xpub_colored@,
    )
    &&& rgb_store::config_at(contents, WALLET_MASTER_FINGERPRINT_FNAME@) == Some(
        s.master_fingerprint@,
    )
    &&& s.reuse_addresses == reuses_addresses(contents)
}

/// Whether all settings that a wallet needs are in the store.
pub open spec fn has_settings(contents: Contents) -> bool {
    &&& rgb_store::config_at(contents, BITCOIN_NETWORK_FNAME@) is Some
    &&& rgb_store::config_at(contents, WALLET_ACCOUNT_XPUB_VANILLA_FNAME@) is Some
    &&& rgb_store::config_at(contents, WALLET_ACCOUNT_XPUB_COLORED_FNAME@) is Some
    &&& rgb_store::config_at(contents, WALLET_MASTER_FINGERPRINT_FNAME@) is Some
}

/// Gets a wallet setting from the store, which must hold it.
fn get_config<K: KVStoreSync>(key: &str, kv_store: &K) -> (r: Result<String, Fault>)
    ensures
        reads(r, required_config(kv_store.contents(), key@)),
{
    match kv_store.read_config(key) {
        Ok(value) => Ok(value),
        Err(_) => Err(Fault::ConfigMissing),
    }
}

/// Gets the name of the bitcoin network.
pub fn get_bitcoin_network<K: KVStoreSync>(kv_store: &K) -> (r: Result<String, Fault>)
    ensures
        reads(r, required_config(kv_store.contents(), BITCOIN_NETWORK_FNAME@)),
{
    get_config(BITCOIN_NETWORK_FNAME, kv_store)
}

/// Gets the account-level xPub of the colored side.
pub fn get_account_xpub_colored<K: KVStoreSync>(kv_store: &K) -> (r: Result<String, Fault>)
    ensures
        reads(r, required_config(kv_store.contents(), WALLET_ACCOUNT_XPUB_COLORED_FNAME@)),
{
    get_config(WALLET_ACCOUNT_XPUB_COLORED_FNAME, kv_store)
}

/// Gets the account-level xPub of the vanilla side.
pub fn get_account_xpub_vanilla<K: KVStoreSync>(kv_store: &K) -> (r: Result<String, Fault>)
    ensures
        reads(r, required_config(kv_store.contents(), WALLET_ACCOUNT_XPUB_VANILLA_FNAME@)),
{
    get_config(WALLET_ACCOUNT_XPUB_VANILLA_FNAME, kv_store)
}

/// Gets the master fingerprint.
pub fn get_master_fingerprint<K: KVStoreSync>(kv_store: &K) -> (r: Result<String, Fault>)
    ensures
        reads(r, required_config(kv_store.contents(), WALLET_MASTER_FINGERPRINT_FNAME@)),
{
    get_config(WALLET_MASTER_FINGERPRINT_FNAME, kv_store)
}

/// Gets the URL of the indexer.
pub fn get_indexer_url<K: KVStoreSync>(kv_store: &K) -> (r: Result<String, Fault>)
    ensures
        reads(r, required_config(kv_store.contents(), INDEXER_URL_FNAME@)),
{
    get_config(INDEXER_URL_FNAME, kv_store)
}

/// Whether the wallet reuses addresses. Without the setting it does not.
pub fn get_reuse_addresses<K: KVStoreSync>(kv_store: &K) -> (r: bool)
    ensures
        r == reuses_addresses(kv_store.contents()),
{
    match kv_store.read_config(WALLET_REUSE_ADDRESSES_FNAME) {
        Ok(value) => value == "true".to_owned(),
        Err(_) => false,
    }
}

/// The directory of the wallet's data: that in which the directory of the node's data is.
pub fn wallet_dir(ldk_data_dir: &str) -> (r: Result<String, Fault>)
    ensures
        match r {
            Ok(dir) => may_be_parent(ldk_data_dir@, Some(dir@)),
            Err(fault) => fault == Fault::NoParentDirectory && may_be_parent(ldk_data_dir@, None),
        },
        portable_path(ldk_data_dir@) ==> match parent_text(ldk_data_dir@) {
            Some(parent) => r matches Ok(dir) && dir@ == parent,
            None => r == Err::<String, Fault>(Fault::NoParentDirectory),
        },
{
    match path_parent(ldk_data_dir) {
        Some(dir) => Ok(dir),
        None => Err(Fault::NoParentDirectory),
    }
}

/// Gets the settings of the wallet of a node.
pub fn get_wallet_data<K: KVStoreSync>(ldk_data_dir: &str, kv_store: &K) -> (r: Result<
    WalletSettings,
    Fault,
>)
    ensures
        match r {
            Ok(settings) => {
                &&& has_settings(kv_store.contents())
                &&& settings_of(kv_store.contents(), settings.data_dir@, settings)
                &&& may_be_parent(ldk_data_dir@, Some(settings.data_dir@))
            },
            Err(Fault::NoParentDirectory) => may_be_parent(ldk_data_dir@, None),
            Err(fault) => fault == Fault::ConfigMissing && !has_settings(kv_store.contents()),
        },
        portable_path(ldk_data_dir@) ==> match parent_text(ldk_data_dir@) {
            None => r == Err::<WalletSettings, Fault>(Fault::NoParentDirectory),
            Some(dir) => if has_settings(kv_store.contents()) {
                r matches Ok(settings) && settings_of(kv_store.contents(), dir, settings)
            } else {
                r == Err::<WalletSettings, Fault>(Fault::ConfigMissing)
            },
        },
{
    match wallet_dir(ldk_data_dir) {
        Ok(data_dir) => get_wallet_settings(data_dir, kv_store),
        Err(fault) => Err(fault),
    }
}

/// Gets the settings of the wallet whose data is in a directory.
pub fn get_wallet_settings<K: KVStoreSync>(data_dir: String, kv_store: &K) -> (r: Result<
    WalletSettings,
    Fault,
>)
    ensures
        if has_settings(kv_store.contents()) {
            r matches Ok(settings) && settings_of(kv_store.contents(), data_dir@, settings)
        } else {
            r == Err::<WalletSettings, Fault>(Fault::ConfigMissing)
        },
{
    let bitcoin_network = match get_bitcoin_network(kv_store) {
        Ok(value) => value,
        Err(fault) => {
            return Err(fault);
        },
    };
    let account_xpub_vanilla = match get_account_xpub_vanilla(kv_store) {
        Ok(value) => value,
        Err(fault) => {
            return Err(fault);
        },
    };
    let account_xpub_colored = match get_account_xpub_colored(kv_store) {
        Ok(value) => value,
        Err(fault) => {
            return Err(fault);
        },
    };
    let master_fingerprint = match get_master_fingerprint(kv_store) {
        Ok(value) => value,
        Err(fault) => {
            return Err(fault);
        },
    };
    let reuse_addresses = get_reuse_addresses(kv_store);
    Ok(
        WalletSettings {
            data_dir,
            bitcoin_network,
            account_xpub_vanilla,
            account_xpub_colored,
            master_fingerprint,
            reuse_addresses,
        },
    )
}

/// What the wallet with the given settings is made from: it watches only, it keeps its data in an
/// SQLite database with one allocation per output, and it holds assets of every schema.
pub fn new_rgb_wallet(settings: WalletSettings) -> (r: (WalletData, SinglesigKeys))
    ensures
        r.0.data_dir == settings.data_dir,
        r.0.bitcoin_network == settings.bitcoin_network,
        r.0.database_type == DatabaseType::Sqlite,
        r.0.max_allocations_per_utxo == 1,
        r.0.supported_schemas@ == seq![
            AssetSchema::Nia,
            AssetSchema::Cfa,
            AssetSchema::Uda,
            AssetSchema::Ifa,
        ],
        r.0.reuse_addresses == settings.reuse_addresses,
        r.1.account_xpub_vanilla == settings.account_xpub_vanilla,
        r.1.account_xpub_colored == settings.account_xpub_colored,
        r.1.vanilla_keychain is None,
        r.1.master_fingerprint == settings.master_fingerprint,
        r.1.mnemonic is None,
{
    let keys = SinglesigKeys {
        account_xpub_vanilla: settings.account_xpub_vanilla,
        account_xpub_colored: settings.account_xpub_colored,
        vanilla_keychain: None,
        master_fingerprint: settings.master_fingerprint,
        mnemonic: None,
    };
    let supported_schemas = vec![
        AssetSchema::Nia,
        AssetSchema::Cfa,
        AssetSchema::Uda,
        AssetSchema::Ifa,
    ];
    let data = WalletData {
        data_dir: settings.data_dir,
        bitcoin_network: settings.bitcoin_network,
        database_type: DatabaseType::Sqlite,
        max_allocations_per_utxo: 1,
        supported_schemas,
        reuse_addresses: settings.reuse_addresses,
    };
    (data, keys)
}

/// Whether all that accepting a transfer takes is in the store.
pub open spec fn has_accept_settings(contents: Contents) -> bool {
    &&& has_settings(contents)
    &&& rgb_store::config_at(contents, INDEXER_URL_FNAME@) is Some
}

/// Whether a request asks for the transfer that funds a channel, with the settings in the store:
/// the assets are at the second output of the funding transaction.
pub open spec fn request_of(
    contents: Contents,
    data_dir: Seq<char>,
    funding_txid: Seq<char>,
    request: AcceptRequest,
) -> bool {
    &&& settings_of(contents, data_dir, request.settings)
    &&& rgb_store::config_at(contents, INDEXER_URL_FNAME@) == Some(request.indexer_url@)
    &&& request.skip_consistency_check
    &&& request.funding_txid@ == funding_txid
    &&& request.funding_vout == 1
    &&& request.blinding == STATIC_BLINDING
}

/// What the wallet of a node needs to accept the transfer that funds a channel.
pub fn accept_transfer<K: KVStoreSync>(
    ldk_data_dir: &str,
    funding_txid: String,
    kv_store: &K,
) -> (r: Result<AcceptRequest, Fault>)
    ensures
        match r {
            Ok(request) => {
                let dir = request.settings.data_dir@;
                &&& has_accept_settings(kv_store.contents())
                &&& request_of(kv_store.contents(), dir, funding_txid@, request)
                &&& may_be_parent(ldk_data_dir@, Some(dir))
            },
            Err(Fault::NoParentDirectory) => may_be_parent(ldk_data_dir@, None),
            Err(fault) => fault == Fault::ConfigMissing && !has_accept_settings(
                kv_store.contents(),
            ),
        },
        portable_path(ldk_data_dir@) ==> match parent_text(ldk_data_dir@) {
            None => r == Err::<AcceptRequest, Fault>(Fault::NoParentDirectory),
            Some(dir) => if has_accept_settings(kv_store.contents()) {
                r matches Ok(request) && request_of(
                    kv_store.contents(),
                    dir,
                    funding_txid@,
                    request,
                )
            } else {
                r == Err::<AcceptRequest, Fault>(Fault::ConfigMissing)
            },
        },
{
    match wallet_dir(ldk_data_dir) {
        Ok(data_dir) => accept_request(data_dir, funding_txid, kv_store),
        Err(fault) => Err(fault),
    }
}

/// What the wallet whose data is in a directory needs to accept the transfer that funds a channel.
pub fn accept_request<K: KVStoreSync>(data_dir: String, funding_txid: String, kv_store: &K) -> (r:
    Result<AcceptRequest, Fault>)
    ensures
        if has_accept_settings(kv_store.contents()) {
            r matches Ok(request) && request_of(
                kv_store.contents(),
                data_dir@,
                funding_txid@,
                request,
            )
        } else {
            r == Err::<AcceptRequest, Fault>(Fault::ConfigMissing)
        },
{
    let settings = match get_wallet_settings(data_dir, kv_store) {
        Ok(settings) => settings,
        Err(fault) => {
            return Err(fault);
        },
    };
    let indexer_url = match get_indexer_url(kv_store) {
        Ok(url) => url,
        Err(fault) => {
            return Err(fault);
        },
    };
    Ok(
        AcceptRequest {
            settings,
            indexer_url,
            skip_consistency_check: true,
            funding_txid,
            funding_vout: 1,
            blinding: STATIC_BLINDING,
        },
    )
}

/// A setting that must be in the store is read as it is, and its absence is a fault.
pub proof fn law_required_setting(contents: Contents, key: Seq<char>, r: Result<String, Fault>)
    requires
        reads(r, required_config(contents, key)),
    ensures
        rgb_store::config_at(contents, key) matches Some(value) ==> r matches Ok(found)
            && found@ == value,
        rgb_store::config_at(contents, key) is None ==> r == Err::<String, Fault>(
            Fault::ConfigMissing,
        ),
{
}

/// The settings of a wallet are those under their names, each as it is, and its directory is the one
/// that is given. Addresses are reused just where the setting is the text `true`.
pub proof fn law_settings_are_those_in_the_store(
    contents: Contents,
    data_dir: Seq<char>,
    s: WalletSettings,
)
    requires
        settings_of(contents, data_dir, s),
    ensures
        s.data_dir@ == data_dir,
        rgb_store::config_at(contents, "bitcoin_network"@) == Some(s.bitcoin_network@),
        rgb_store::config_at(contents, "wallet_account_xpub_vanilla"@) == Some(
            s.account_xpub_vanilla@,
        ),
        rgb_store::config_at(contents, "wallet_account_xpub_colored"@) == Some(
            s.account_xpub_colored@,
        ),
        rgb_store::config_at(contents, "wallet_master_fingerprint"@) == Some(s.master_fingerprint@),
        s.reuse_addresses <==> rgb_store::config_at(contents, "wallet_reuse_addresses"@) == Some(
            "true"@,
        ),
{
}

/// A wallet can be made just where four settings are there, whatever they are; the one on the reuse
/// of addresses may be missing.
pub proof fn law_when_settings_suffice(contents: Contents)
    ensures
        has_settings(contents) <==> {
            &&& rgb_store::config_at(contents, "bitcoin_network"@) is Some
            &&& rgb_store::config_at(contents, "wallet_account_xpub_vanilla"@) is Some
            &&& rgb_store::config_at(contents, "wallet_account_xpub_colored"@) is Some
            &&& rgb_store::config_at(contents, "wallet_master_fingerprint"@) is Some
        },
        has_accept_settings(contents) <==> has_settings(contents) && rgb_store::config_at(
            contents,
            "indexer_url"@,
        ) is Some,
        reuses_addresses(contents) <==> rgb_store::config_at(contents, "wallet_reuse_addresses"@)
            == Some("true"@),
{
}

/// A transfer is asked for with the settings and the indexer that are in the store, at the second
/// output of the funding transaction, with the static blinding and without a consistency check.
pub proof fn law_transfer_is_asked_for(
    contents: Contents,
    data_dir: Seq<char>,
    funding_txid: Seq<char>,
    request: AcceptRequest,
)
    requires
        request_of(contents, data_dir, funding_txid, request),
    ensures
        settings_of(contents, data_dir, request.settings),
        rgb_store::config_at(contents, "indexer_url"@) == Some(request.indexer_url@),
        request.skip_consistency_check,
        request.funding_txid@ == funding_txid,
        request.funding_vout == 1,
        request.blinding == 777,
{
}

/// A directory is the parent of what is in it: a component that is put behind a directory, with any
/// number of slashes and dots between and behind them, is in that directory.
pub proof fn law_component_is_in_its_directory(dir: Seq<char>, component: Seq<char>)
    requires
        dir.len() > 0,
        dir.last() != '/',
        dir.last() == '.' && dir.len() > 1 ==> dir[dir.len() - 2] != '/',
        component.len() > 0,
        !component.contains('/'),
        component != seq!['.'],
    ensures
        parent_text(dir + seq!['/'] + component) == Some(dir),
        parent_text(dir + seq!['/', '/'] + component) == Some(dir),
        parent_text(dir + seq!['/', '.', '/'] + component) == Some(dir),
        parent_text(dir + seq!['/'] + component + seq!['/']) == Some(dir),
        parent_text(dir + seq!['/'] + component + seq!['/', '.']) == Some(dir),
        parent_text(component) == Some(Seq::<char>::empty()),
        parent_text(seq!['/'] + component) == Some(seq!['/']),
        parent_text(seq!['/']) is None,
        parent_text(Seq::empty()) is None,
{
    assert(component.last() != '/') by {
        assert(component[component.len() - 1] == component.last());
    }
    lemma_join(dir, seq!['/'], component);
    lemma_join(dir, seq!['/', '/'], component);
    lemma_join(dir, seq!['/', '.', '/'], component);
    assert(trimmed(dir) == dir);
    assert(trimmed(dir + seq!['/']) == dir) by {
        assert((dir + seq!['/']).drop_last() =~= dir);
    }
    assert(trimmed(dir + seq!['/', '.']) == dir) by {
        assert((dir + seq!['/', '.']).drop_last() =~= dir + seq!['/']);
    }
    let p = dir + seq!['/'] + component;
    assert(p.take(dir.len() as int) =~= dir);
    let p = dir + seq!['/', '/'] + component;
    assert(p.take((dir.len() + 1) as int) =~= dir + seq!['/']);
    let p = dir + seq!['/', '.', '/'] + component;
    assert(p.take((dir.len() + 2) as int) =~= dir + seq!['/', '.']);
    let p = dir + seq!['/'] + component;
    assert((p + seq!['/']).drop_last() =~= p);
    assert((p + seq!['/', '.']).drop_last() =~= p + seq!['/']);
    assert(trimmed(p + seq!['/']) == p);
    assert(trimmed(p + seq!['/', '.']) == p);
    assert(trimmed(component) == component) by {
        if component.len() > 1 {
            assert(component.contains(component[component.len() - 2]));
        }
    }
    law_last_slash(component);
    assert(last_slash(component) is None) by {
        if last_slash(component) is Some {
            assert(component.contains(component[(last_slash(component)->0) as int]));
        }
    }
    if component == seq!['/'] {
        assert(component.contains(component[0]));
    }
    lemma_join(Seq::empty(), seq!['/'], component);
    assert(Seq::<char>::empty() + seq!['/'] + component =~= seq!['/'] + component);
}

/// A path that ends in a component is trimmed, and its last slash is the one before the component.
proof fn lemma_join(dir: Seq<char>, between: Seq<char>, component: Seq<char>)
    requires
        between.len() > 0,
        between.last() == '/',
        component.len() > 0,
        !component.contains('/'),
        component != seq!['.'],
    ensures
        ({
            let path = dir + between + component;
            &&& trimmed(path) == path
            &&& last_slash(path) == Some((dir.len() + between.len() - 1) as nat)
            &&& path != seq!['/']
        }),
{
    let path = dir + between + component;
    let n = (dir.len() + between.len() - 1) as int;
    assert(path.last() == component.last());
    assert(component.contains(component.last()));
    law_last_slash(path);
    assert(path[n] == between[between.len() - 1]);
    assert forall|i: int| n < i < path.len() implies #[trigger] path[i] != '/' by {
        assert(path[i] == component[i - n - 1]);
        assert(component.contains(component[i - n - 1]));
    }
    assert(path.len() > 1);
    if component.last() == '.' {
        if component.len() == 1 {
            assert(component =~= seq!['.']);
        }
        assert(path[path.len() - 2] == component[component.len() - 2]);
        assert(component.contains(component[component.len() - 2]));
    }
}

/// A path is portable just where it has no backslash, no colon and not two slashes at the start.
pub proof fn law_portable_paths(path: Seq<char>)
    ensures
        portable_path(path) <==> {
            &&& forall|i: int|
                0 <= i < path.len() ==> #[trigger] path[i] != '\\' && path[i] != ':'
            &&& path.len() < 2 || path[0] != '/' || path[1] != '/'
        },
{
    if forall|i: int| 0 <= i < path.len() ==> #[trigger] path[i] != '\\' && path[i] != ':' {
        assert(!path.contains('\\') && !path.contains(':'));
    } else {
        let i = choose|i: int|
            0 <= i < path.len() && (#[trigger] path[i] == '\\' || path[i] == ':');
        assert(path.contains(path[i]));
    }
}

} // verus!
