//! The rules of a tipping ledger for scholarly papers.
//!
//! A small registry of administrators decides who may bind a paper to the address
//! that receives its tips; anybody may register a paper and anybody may tip one
//! whose author address is bound. Every operation works on plain values: the
//! records it touches and the identity of whoever signed for it. A request that
//! is refused changes nothing. Moving the money and storing the records is the
//! caller's business.
//!
//! [`admin`] holds the registry, [`paper`] the registration of papers and the
//! binding of author addresses, [`tip`] the tipping, and [`ledger`] what holds of
//! the registered papers taken together, whatever is asked and in whatever
//! order.

pub mod admin;
pub mod error;
pub mod identity;
pub mod ledger;
pub mod paper;
pub mod tip;

pub use crate::admin::{
    add_admin, initialize_admin, remove_admin, AddAdmin, AdminConfig, AdminEvent,
    InitializeAdmin, RemoveAdmin, MAX_ADMINS,
};
pub use crate::error::ErrorCode;
pub use crate::identity::Identity;
pub use crate::paper::{
    register_paper, set_author_address, Paper, RegisterPaper, SetAuthorAddress, MAX_DOI_LEN,
    MAX_TITLE_LEN,
};
pub use crate::tip::{settle_tip, tip_paper, TipPaper, Transfer, TransferOutcome, MAX_TIP};
