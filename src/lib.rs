//! The social core of a community chat bot: interaction counters between
//! members, exclusive "ship" pairings with a two-party handshake, and the
//! texts the bot renders from them.

mod chance;

pub mod action;
pub mod bio;
pub mod counts;
pub mod games;
pub mod ledger;
pub mod registry;
pub mod router;
pub mod settings;
pub mod ship;
pub mod text;
