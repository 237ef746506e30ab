//! A dynamic-DNS record synchroniser for a single GoDaddy A-record.
//!
//! The library holds the record-reconciliation logic: deciding when a
//! provider read or write is due, interpreting the provider's responses,
//! and advancing the locally cached record value only on a confirmed
//! write.  The surrounding process loop, HTTP transport and public-IP
//! discovery hand events in and carry actions out.

pub mod dns_record_manager;
pub mod wire;
pub mod laws;
