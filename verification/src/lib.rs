//! RGB assets in Lightning channels: what a node records of them, and how its transactions are to
//! be colored.
//!
//! The records live in a key-value store ([`store::KVStoreSync`]), which the library reads and
//! writes through [`RgbKvStoreExt`]. The transactions are colored by a wallet outside of the
//! library: the library says what is to go where ([`color_commitment`], [`color_htlc`],
//! [`color_closing`]), takes the colored transaction out of the PSBT that the wallet hands back
//! ([`extract_colored_tx`]), and records the outcome ([`finish_commitment`], [`finish_htlc`],
//! [`finish_closing`]).
//!
//! Where going on would lose track of assets, a function returns a [`Fault`].

pub mod amounts;
pub mod channel;
pub mod closing;
pub mod coloring;
pub mod commitment;
pub mod constants;
pub mod contract_id_serde;
pub mod error;
pub mod funding;
pub mod htlc;
pub mod htlc_records;
pub mod ids;
pub mod memory;
pub mod records;
pub mod rgb_store;
pub mod store;
pub mod text;
pub mod transaction;
pub mod wallet;

pub use crate::channel::{
    get_rgb_channel_info, get_rgb_channel_info_pending, is_channel_rgb, rename_rgb_files,
    update_rgb_channel_amount, update_rgb_channel_amount_pending, write_rgb_payment_info_file,
};
pub use crate::closing::{color_closing, finish_closing};
pub use crate::commitment::{color_commitment, finish_commitment};
pub use crate::constants::{
    BITCOIN_NETWORK_FNAME, INDEXER_URL_FNAME, RGB_CHANNEL_INFO_NS, RGB_CHANNEL_INFO_PENDING_NS,
    RGB_CONSIGNMENT_NS, RGB_PAYMENT_INFO_INBOUND_NS, RGB_PAYMENT_INFO_OUTBOUND_NS, RGB_PRIMARY_NS,
    RGB_TRANSFER_INFO_NS, RGB_WALLET_CONFIG_NS, STATIC_BLINDING, WALLET_ACCOUNT_XPUB_COLORED_FNAME,
    WALLET_ACCOUNT_XPUB_VANILLA_FNAME, WALLET_FINGERPRINT_FNAME, WALLET_MASTER_FINGERPRINT_FNAME,
    WALLET_REUSE_ADDRESSES_FNAME,
};
pub use crate::error::{ChannelError, Fault};
pub use crate::funding::handle_funding;
pub use crate::htlc::{color_htlc, finish_htlc};
pub use crate::records::{RgbInfo, RgbPaymentInfo, TransferInfo};
pub use crate::rgb_store::RgbKvStoreExt;
pub use crate::transaction::{extract_colored_tx, is_tx_colored, op_return_position};
