//! A model of the wallet-log program: one instruction that takes the
//! account that signed the transaction and writes that account's address
//! to the program log.
//!
//! The runtime's part is kept at the edge. Accounts arrive as plain
//! [`AccountInfo`] values and are checked by [`Initialize::try_accounts`];
//! the log is a list of lines that the caller hands on to the runtime.

pub mod accounts;
pub mod address;
pub mod program;

pub use accounts::{validate, AccountInfo, ErrorCode, Initialize, Signer};
pub use address::address_text;
pub use program::{format_log_line, initialize, lemma_log_line_parts, log_line, ID, LOG_PREFIX};
