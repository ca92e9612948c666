//! Converts exchange deposit and withdrawal tables of stablecoin transfers
//! into ledger lines for a tax tool.
//!
//! A table is CSV text whose first row names the columns. Rows whose coin
//! is a dollar stablecoin, and whose transaction id does not mark a
//! transfer between accounts, become ledger lines; all other rows are
//! passed over. `convert_csv` goes from text to text, `convert_table` from
//! rows to ledger lines.

pub mod convert;
pub mod filter;
pub mod format;
pub mod laws;
pub mod pipeline;
pub mod prefix;
pub mod project;
pub mod record;
pub mod render;
pub mod shape;
pub mod text;

pub use crate::convert::{convert_csv, render, Rendering};
pub use crate::filter::{is_dollar, is_eligible, is_transfer};
pub use crate::pipeline::{convert_table, detect_shape, Conversion, ConvertError};
pub use crate::project::{convert_deposit, convert_withdraw};
pub use crate::record::{DepositRecord, OutputRecord, WithdrawRecord};
pub use crate::shape::{Entry, Layout, Shape};
