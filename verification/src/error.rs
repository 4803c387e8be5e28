//! The reasons for which an operation is turned down.

use vstd::prelude::*;

verus! {

/// Why an operation was refused. A refused operation changes nothing.
#[derive(Clone, Copy, Debug, PartialEq, Eq, Structural)]
pub enum ErrorCode {
    /// The DOI is empty.
    InvalidDoi,
    /// The DOI is longer than [`crate::paper::MAX_DOI_LEN`] bytes.
    DoiTooLong,
    /// The title is empty.
    InvalidTitle,
    /// The title is longer than [`crate::paper::MAX_TITLE_LEN`] bytes.
    TitleTooLong,
    /// The tip is zero.
    InvalidAmount,
    /// The tip is above [`crate::tip::MAX_TIP`].
    AmountTooLarge,
    /// The signer is not an administrator.
    Unauthorized,
    /// The paper has no author address yet, so it cannot be tipped.
    AuthorAddressNotSet,
    /// The account offered to receive a tip is not the paper's author address.
    InvalidAuthorAddress,
    /// The identity to add is an administrator already.
    AdminAlreadyExists,
    /// The identity to remove is not an administrator.
    AdminNotFound,
    /// The registry is full.
    TooManyAdmins,
    /// An administrator may not remove itself.
    CannotRemoveSelf,
    /// The address offered as author address is the unset address.
    InvalidAddress,
    /// The registry exists already.
    AlreadyInitialized,
    /// A paper is registered under this DOI already.
    RecordAlreadyExists,
    /// A counter of the paper would exceed what it can hold.
    Overflow,
    /// The transfer of the tip did not go through.
    TransferFailed,
}

} // verus!
