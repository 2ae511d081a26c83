//! Core of a newsletter sign-up service: validated subscriber input,
//! credential verification, confirmation-token issuance, an atomic
//! subscription workflow over a modelled relational store, newsletter
//! fan-out with per-recipient failure policy, and an HMAC-signed error
//! channel for login redirects.

pub mod authentication;
pub mod domain;
pub mod email_client;
pub mod encoding;
pub mod login;
pub mod newsletters;
pub mod settings;
pub mod store;
pub mod subscriptions;
pub mod subscriptions_confirm;
