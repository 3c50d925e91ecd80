//! Verified core of a desktop client for a transactional-email service.
//!
//! The crate holds the decisions of the client as functions on plain values:
//! what the settings hold under the credential's key, which part of a remote
//! listing makes up a page, how a remote record is shown, and what a failure
//! is called. Reading the settings file and talking to the service are left
//! to the application, which hands in what it read and carries out what is
//! returned.
//!
//! - [`store`]: the stored credential.
//! - [`page`]: page windows over the service's listing.
//! - [`sent`]: emails that were sent before.
//! - [`email`]: sending an email.
//! - [`error`]: failures and their texts.
//! - [`text`]: joining texts.

pub mod email;
pub mod error;
pub mod page;
pub mod sent;
pub mod store;
pub mod text;
