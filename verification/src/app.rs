//! The page as a whole: it shows the burn form while the wallet is
//! connected.

use vstd::prelude::*;

verus! {

/// The state of the page.
#[derive(Debug, PartialEq, Eq)]
pub struct App {
    wallet_connected: bool,
}

/// What happens to the page.
#[derive(Clone, Copy, Debug, PartialEq, Eq, Structural)]
pub enum Msg {
    /// The wallet session changed; the message says whether it is now
    /// connected.
    WalletConnected(bool),
}

impl View for App {
    type V = bool;

    /// Whether the wallet is connected, as far as the page was told.
    closed spec fn view(&self) -> bool {
        self.wallet_connected
    }
}

impl App {
    /// A new page: the wallet is not connected.
    pub fn create() -> (app: App)
        ensures
            !app@,
    {
        App { wallet_connected: false }
    }

    /// Takes note of a change of the wallet session. Returns whether the
    /// page has to be shown again, which it always has.
    pub fn update(&mut self, msg: Msg) -> (render: bool)
        ensures
            final(self)@ == msg->WalletConnected_0,
            render,
    {
        match msg {
            Msg::WalletConnected(status) => {
                self.wallet_connected = status;
                true
            },
        }
    }

    /// Whether the page shows the burn form: it does while the wallet is
    /// connected.
    pub fn shows_burn_form(&self) -> (shown: bool)
        ensures
            shown == self@,
    {
        self.wallet_connected
    }
}

} // verus!
