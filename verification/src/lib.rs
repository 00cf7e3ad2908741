//! The commands of a command line Bitcoin wallet: balance, addresses, transactions, unspent
//! outputs, and the payments that spend them.
//!
//! Every command works on plain values. What it needs from the wallet's database is read
//! beforehand and handed over; what has to be done in the world (reading, signing, broadcasting)
//! is named in a value that the caller carries out.
pub mod address_laws;
pub mod addresses;
pub mod balance;
pub mod balance_laws;
pub mod encoding;
pub mod index;
pub mod output;
pub mod payment_laws;
pub mod payments;
pub mod plan;
pub mod spend;
pub mod spend_laws;
pub mod text;
pub mod transaction_laws;
pub mod transactions;
pub mod types;
pub mod utxo_laws;
pub mod utxos;
pub mod values;
