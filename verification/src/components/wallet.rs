//! The wallet session: connecting, and the public key of the connected
//! account.
//!
//! A session starts disconnected. A connect request puts it into
//! `Connecting` and asks the caller to invoke the provider; the provider's
//! answer comes back as a message and ends the attempt in `Connected` or in
//! `ConnectionFailed`. While an attempt is in flight, further connect
//! requests are ignored.

use crate::error::{ErrorKind, Failure, FailureView};
use crate::utils::{abbreviation, format_transaction_signature};
use vstd::prelude::*;

verus! {

/// Where a session stands.
#[derive(Clone, Copy, Debug, PartialEq, Eq, Structural)]
pub enum Status {
    Disconnected,
    Connecting,
    Connected,
    ConnectionFailed,
}

/// The state of the wallet session.
#[derive(Debug, PartialEq, Eq)]
pub struct WalletConnect {
    status: Status,
    pub_key: Option<String>,
    last_error: Option<Failure>,
}

/// The mathematical value of a [`WalletConnect`].
pub ghost struct WalletView {
    pub status: Status,
    pub pub_key: Option<Seq<char>>,
    pub last_error: Option<FailureView>,
}

impl WalletView {
    /// The public key is present exactly in `Connected`, the last error
    /// exactly in `ConnectionFailed`.
    pub open spec fn well_formed(self) -> bool {
        &&& self.pub_key is Some <==> self.status is Connected
        &&& self.last_error is Some <==> self.status is ConnectionFailed
    }

    /// The session that no one has tried to connect yet.
    pub open spec fn initial() -> WalletView {
        WalletView { status: Status::Disconnected, pub_key: None, last_error: None }
    }
}

/// What happens to a session.
#[derive(Debug, PartialEq, Eq)]
pub enum Msg {
    /// The user asks to connect.
    Connect,
    /// The provider connected; the message carries the account's public key.
    Connected(String),
    /// The connection attempt failed.
    Error(Failure),
}

/// The mathematical value of a [`Msg`].
pub ghost enum MsgView {
    Connect,
    Connected(Seq<char>),
    Error(FailureView),
}

impl View for Msg {
    type V = MsgView;

    open spec fn view(&self) -> MsgView {
        match self {
            Msg::Connect => MsgView::Connect,
            Msg::Connected(key) => MsgView::Connected(key@),
            Msg::Error(failure) => MsgView::Error(failure@),
        }
    }
}

/// What the caller has to do after a message was handled.
#[derive(Clone, Copy, Debug, PartialEq, Eq, Structural)]
pub enum Action {
    /// The message was ignored: nothing changed, nothing is to be done.
    Ignore,
    /// Invoke the provider's connect operation and send its answer back.
    Connect,
    /// Tell the dependent components whether the session is now connected.
    Notify(bool),
}

/// The state that follows `state` when `msg` is handled.
pub open spec fn next_state(state: WalletView, msg: MsgView) -> WalletView {
    match msg {
        MsgView::Connect => if state.status is Connecting {
            state
        } else {
            WalletView { status: Status::Connecting, pub_key: None, last_error: None }
        },
        MsgView::Connected(key) => WalletView {
            status: Status::Connected,
            pub_key: Some(key),
            last_error: None,
        },
        MsgView::Error(failure) => WalletView {
            status: Status::ConnectionFailed,
            pub_key: None,
            last_error: Some(failure),
        },
    }
}

/// The action that handling `msg` in `state` asks for.
pub open spec fn next_action(state: WalletView, msg: MsgView) -> Action {
    match msg {
        MsgView::Connect => if state.status is Connecting {
            Action::Ignore
        } else {
            Action::Connect
        },
        MsgView::Connected(_) => Action::Notify(true),
        MsgView::Error(_) => Action::Notify(false),
    }
}

impl View for WalletConnect {
    type V = WalletView;

    closed spec fn view(&self) -> WalletView {
        WalletView {
            status: self.status,
            pub_key: match self.pub_key {
                Some(key) => Some(key@),
                None => None,
            },
            last_error: match self.last_error {
                Some(failure) => Some(failure@),
                None => None,
            },
        }
    }
}

impl WalletConnect {
    #[verifier::type_invariant]
    spec fn holds(self) -> bool {
        self@.well_formed()
    }

    /// A new session, disconnected.
    pub fn create() -> (session: WalletConnect)
        ensures
            session@ == WalletView::initial(),
            session@.well_formed(),
    {
        WalletConnect { status: Status::Disconnected, pub_key: None, last_error: None }
    }

    /// Handles one message and says what the caller has to do.
    ///
    /// A connect request while an attempt is in flight changes nothing and
    /// asks for nothing. Any other connect request starts an attempt. The
    /// provider's answer ends the attempt and is passed on to the dependent
    /// components.
    pub fn update(&mut self, msg: Msg) -> (action: Action)
        ensures
            final(self)@ == next_state(old(self)@, msg@),
            action == next_action(old(self)@, msg@),
            final(self)@.well_formed(),
            old(self)@.status is Connecting && msg is Connect
                ==> final(self)@ == old(self)@ && action is Ignore,
            action is Connect
                ==> !(old(self)@.status is Connecting) && final(self)@.status is Connecting,
    {
        proof {
            use_type_invariant(&*self);
        }
        match msg {
            Msg::Connect => {
                match self.status {
                    Status::Connecting => Action::Ignore,
                    _ => {
                        *self = WalletConnect {
                            status: Status::Connecting,
                            pub_key: None,
                            last_error: None,
                        };
                        Action::Connect
                    },
                }
            },
            Msg::Connected(key) => {
                *self = WalletConnect {
                    status: Status::Connected,
                    pub_key: Some(key),
                    last_error: None,
                };
                Action::Notify(true)
            },
            Msg::Error(failure) => {
                *self = WalletConnect {
                    status: Status::ConnectionFailed,
                    pub_key: None,
                    last_error: Some(failure),
                };
                Action::Notify(false)
            },
        }
    }

    /// Where the session stands.
    pub fn status(&self) -> (status: Status)
        ensures
            status == self@.status,
    {
        self.status
    }

    /// Whether the session holds a connected account.
    pub fn is_connected(&self) -> (connected: bool)
        ensures
            connected == (self@.status is Connected),
            connected == (self@.pub_key is Some),
    {
        proof {
            use_type_invariant(self);
        }
        match self.status {
            Status::Connected => true,
            _ => false,
        }
    }

    /// The public key of the connected account.
    pub fn public_key(&self) -> (key: Option<&String>)
        ensures
            key is Some <==> self@.status is Connected,
            key is Some <==> self@.pub_key is Some,
            key matches Some(text) ==> self@.pub_key == Some(text@),
    {
        proof {
            use_type_invariant(self);
        }
        self.pub_key.as_ref()
    }

    /// Why the last connection attempt failed.
    pub fn last_error(&self) -> (error: Option<&Failure>)
        ensures
            error is Some <==> self@.status is ConnectionFailed,
            error is Some <==> self@.last_error is Some,
            error matches Some(failure) ==> self@.last_error == Some(failure@),
    {
        proof {
            use_type_invariant(self);
        }
        self.last_error.as_ref()
    }

    /// The connected account's public key in its short form, as the page
    /// shows it.
    pub fn display_address(&self) -> (address: Option<String>)
        ensures
            address is Some <==> self@.pub_key is Some,
            address matches Some(text) ==> text@ == abbreviation(self@.pub_key->0),
    {
        match &self.pub_key {
            Some(key) => Some(format_transaction_signature(key.as_str())),
            None => None,
        }
    }
}

/// What the binding to the injected wallet object found when it tried to
/// connect.
#[derive(Debug, PartialEq, Eq)]
pub enum ConnectReply {
    /// No compatible wallet object is present.
    ProviderMissing,
    /// The user refused the request.
    Refused,
    /// The call failed.
    Failed,
    /// The call returned; the reply carries the public key that the wallet
    /// object then showed, if it showed one.
    Resolved(Option<String>),
}

/// The message that ends a connection attempt with the given reply.
///
/// A missing provider is `ProviderUnavailable`, a refusal `UserRejected`, a
/// failed call `ConnectFailed`. A call that returned without a public key
/// has failed too: a connected session always has one.
pub fn connect_completed(reply: ConnectReply) -> (msg: Msg)
    ensures
        reply is ProviderMissing ==> msg@ == MsgView::Error(
            Failure::standard(ErrorKind::ProviderUnavailable),
        ),
        reply is Refused ==> msg@ == MsgView::Error(Failure::standard(ErrorKind::UserRejected)),
        reply is Failed ==> msg@ == MsgView::Error(Failure::standard(ErrorKind::ConnectFailed)),
        reply matches ConnectReply::Resolved(None) ==> msg@ == MsgView::Error(
            Failure::standard(ErrorKind::ConnectFailed),
        ),
        reply matches ConnectReply::Resolved(Some(key)) ==> msg@ == MsgView::Connected(key@),
{
    match reply {
        ConnectReply::ProviderMissing => Msg::Error(Failure::of(ErrorKind::ProviderUnavailable)),
        ConnectReply::Refused => Msg::Error(Failure::of(ErrorKind::UserRejected)),
        ConnectReply::Failed => Msg::Error(Failure::of(ErrorKind::ConnectFailed)),
        ConnectReply::Resolved(None) => Msg::Error(Failure::of(ErrorKind::ConnectFailed)),
        ConnectReply::Resolved(Some(key)) => Msg::Connected(key),
    }
}

/// Handling a message keeps a well-formed session well formed: the public
/// key stays present exactly in `Connected`.
pub proof fn lemma_next_state_well_formed(state: WalletView, msg: MsgView)
    requires
        state.well_formed(),
    ensures
        next_state(state, msg).well_formed(),
{
}

/// The number of connection attempts that were started and not yet
/// answered: one while the session is connecting.
pub open spec fn attempts_in_flight(state: WalletView) -> nat {
    if state.status is Connecting {
        1
    } else {
        0
    }
}

/// Whether the message is the provider's answer to a connect call.
pub open spec fn is_answer(msg: MsgView) -> bool {
    msg is Connected || msg is Error
}

/// Where the provider answers only attempts that were made, every step
/// keeps count. An attempt is started only while none is in flight, and is
/// in flight from then on; an answer takes it out; nothing else changes the
/// count. So never is more than one attempt in flight.
pub proof fn lemma_attempts_in_flight(state: WalletView, msg: MsgView)
    requires
        is_answer(msg) ==> state.status is Connecting,
    ensures
        next_action(state, msg) is Connect ==> attempts_in_flight(state) == 0
            && attempts_in_flight(next_state(state, msg)) == 1,
        is_answer(msg) ==> attempts_in_flight(state) == 1
            && attempts_in_flight(next_state(state, msg)) == 0,
        !(next_action(state, msg) is Connect) && !is_answer(msg)
            ==> attempts_in_flight(next_state(state, msg)) == attempts_in_flight(state),
{
}

/// A connect request while an attempt is in flight has no effect: the state
/// stays as it is and the provider is not invoked a second time.
pub proof fn lemma_connect_while_connecting(state: WalletView)
    requires
        state.status is Connecting,
    ensures
        next_state(state, MsgView::Connect) == state,
        next_action(state, MsgView::Connect) == Action::Ignore,
{
}

} // verus!
