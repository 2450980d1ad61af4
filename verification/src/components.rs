//! The two parts of the page: the wallet connection and the burn form.

pub mod burn_form;
pub mod wallet;
