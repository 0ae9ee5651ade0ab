//! What can go wrong, and what the callers are told.

use vstd::prelude::*;

verus! {

/// Why a record could not be read.
#[derive(Clone, Copy, Debug, PartialEq, Eq)]
pub enum ReadError<F> {
    /// The store failed to read the data. Its own error says why.
    Store(F),
    /// The data that was read is not a valid record.
    InvalidData,
}

/// A condition under which the node cannot go on: continuing would lose track of assets.
///
/// Callers are expected to stop when they are handed one of these.
#[derive(Clone, Copy, Debug, PartialEq, Eq, Structural)]
pub enum Fault {
    /// The store refused to write or to remove a record.
    StoreRefused,
    /// A record that must be present could not be read.
    ReadFailed,
    /// A record that must be valid does not decode.
    InvalidRecord,
    /// The channel has no valid RGB info.
    ChannelInfoMissing,
    /// The channel info that is to be renamed is missing or invalid.
    RenameFailed,
    /// A wallet setting that must be present is missing or is not text.
    ConfigMissing,
    /// The directory of the node's data is in no other directory.
    NoParentDirectory,
    /// An asset amount leaves the range of 64-bit numbers.
    AmountOutOfRange,
    /// An HTLC that carries assets has no output in the commitment transaction.
    HtlcWithoutOutput,
    /// A transaction that must spend something has no input.
    InputMissing,
    /// A transaction does not pay to a script that it must pay to.
    OutputMissing,
    /// An assignment is neither fungible nor non-fungible.
    UnsupportedAssignment,
    /// The schema of a consignment is not known.
    UnknownSchema,
    /// A transaction cannot be put into an unsigned PSBT.
    NotUnsigned,
    /// A colored PSBT is not a PSBT, or no transaction can be taken out of it.
    BadPsbt,
}

/// A channel-level error, to be reported to the counterparty.
#[derive(Debug, PartialEq, Eq)]
pub enum ChannelError {
    /// The channel must be closed, for the reason given.
    Close(String),
}

impl ChannelError {
    /// The error that closes the channel with the given reason.
    pub fn close(reason: String) -> (r: ChannelError)
        ensures
            r matches ChannelError::Close(text) && text@ == reason@,
    {
        ChannelError::Close(reason)
    }
}

} // verus!
