//! Credential management: registration with email verification, password
//! login, password reset and an email-code second factor.
//!
//! The library holds the rules of the service and proves them. Accounts live
//! in a [`store::CredentialStore`]; every flow is a function on that store.
//! Sending a message and reaching a database are the caller's work: a flow
//! that needs a message delivered first returns the message, and a second
//! function takes the delivery's outcome and persists.

pub mod authorization;
pub mod clock;
pub mod config;
pub mod error;
pub mod events;
pub mod laws;
pub mod login;
pub mod mail;
pub mod password;
pub mod recovery;
pub mod registration;
pub mod request;
pub mod secret;
pub mod session;
pub mod store;
pub mod switch;
pub mod two_factor;
pub mod verification;
