//! Wallet session and token burn workflow for a browser wallet front end.
//!
//! The crate holds the rules of the page: when a wallet connection may be
//! attempted, how an amount is validated and submitted, and how the
//! provider's answers are folded back into the state that the page shows.
//! Each part is a state machine that handles one message at a time and
//! answers with the action that the caller has to perform; calling the
//! wallet provider and drawing the page are left to the caller.

pub mod amount;
pub mod app;
pub mod components;
pub mod error;
pub mod utils;
