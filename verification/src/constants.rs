//! Constants: the blinding factor, the names of the wallet settings, and the namespaces.

use vstd::prelude::*;

verus! {

/// Static blinding constant
pub const STATIC_BLINDING: u64 = 777;

/// Name of the setting that holds the bitcoin network
pub const BITCOIN_NETWORK_FNAME: &'static str = "bitcoin_network";

/// Name of the setting that holds the indexer URL
pub const INDEXER_URL_FNAME: &'static str = "indexer_url";

/// Name of the setting that holds the wallet fingerprint
pub const WALLET_FINGERPRINT_FNAME: &'static str = "wallet_fingerprint";

/// Name of the setting that holds the account-level xPub of the vanilla side of the wallet
pub const WALLET_ACCOUNT_XPUB_VANILLA_FNAME: &'static str = "wallet_account_xpub_vanilla";

/// Name of the setting that holds the account-level xPub of the colored side of the wallet
pub const WALLET_ACCOUNT_XPUB_COLORED_FNAME: &'static str = "wallet_account_xpub_colored";

/// Name of the setting that holds the master fingerprint of the wallet
pub const WALLET_MASTER_FINGERPRINT_FNAME: &'static str = "wallet_master_fingerprint";

/// Name of the setting that says whether the wallet reuses addresses
pub const WALLET_REUSE_ADDRESSES_FNAME: &'static str = "wallet_reuse_addresses";

/// Primary namespace for all RGB data
pub const RGB_PRIMARY_NS: &'static str = "rgb";

/// Secondary namespace for channel info
pub const RGB_CHANNEL_INFO_NS: &'static str = "channel_info";

/// Secondary namespace for pending channel info
pub const RGB_CHANNEL_INFO_PENDING_NS: &'static str = "channel_info_pending";

/// Secondary namespace for inbound payment info
pub const RGB_PAYMENT_INFO_INBOUND_NS: &'static str = "payment_info_inbound";

/// Secondary namespace for outbound payment info
pub const RGB_PAYMENT_INFO_OUTBOUND_NS: &'static str = "payment_info_outbound";

/// Secondary namespace for transfer info
pub const RGB_TRANSFER_INFO_NS: &'static str = "transfer_info";

/// Secondary namespace for consignment data
pub const RGB_CONSIGNMENT_NS: &'static str = "consignment";

/// Secondary namespace for wallet configuration
pub const RGB_WALLET_CONFIG_NS: &'static str = "wallet_config";

/// The names under which data is stored are part of the format: data that was written under them
/// must be found again.
pub proof fn law_names_are_fixed()
    ensures
        RGB_PRIMARY_NS@ == "rgb"@,
        RGB_CHANNEL_INFO_NS@ == "channel_info"@,
        RGB_CHANNEL_INFO_PENDING_NS@ == "channel_info_pending"@,
        RGB_PAYMENT_INFO_INBOUND_NS@ == "payment_info_inbound"@,
        RGB_PAYMENT_INFO_OUTBOUND_NS@ == "payment_info_outbound"@,
        RGB_TRANSFER_INFO_NS@ == "transfer_info"@,
        RGB_CONSIGNMENT_NS@ == "consignment"@,
        RGB_WALLET_CONFIG_NS@ == "wallet_config"@,
        BITCOIN_NETWORK_FNAME@ == "bitcoin_network"@,
        INDEXER_URL_FNAME@ == "indexer_url"@,
        WALLET_FINGERPRINT_FNAME@ == "wallet_fingerprint"@,
        WALLET_ACCOUNT_XPUB_VANILLA_FNAME@ == "wallet_account_xpub_vanilla"@,
        WALLET_ACCOUNT_XPUB_COLORED_FNAME@ == "wallet_account_xpub_colored"@,
        WALLET_MASTER_FINGERPRINT_FNAME@ == "wallet_master_fingerprint"@,
        WALLET_REUSE_ADDRESSES_FNAME@ == "wallet_reuse_addresses"@,
        STATIC_BLINDING == 777,
{
}

} // verus!
