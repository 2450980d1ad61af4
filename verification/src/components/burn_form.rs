//! The burn form: entering an amount, submitting it, and the result.
//!
//! The form starts idle. A submission validates the amount; a refused
//! amount fails at once, an accepted one puts the form into `Submitting`
//! and asks the caller to invoke the provider. The provider's answer comes
//! back as a message and ends the submission in `Succeeded` or in `Failed`.
//! While a submission is in flight the form takes neither an edit nor a
//! second submission, so at most one burn call is outstanding.

use crate::amount::{is_positive_decimal, validation, PositiveNumber};
use crate::components::wallet::{WalletConnect, WalletView};
use crate::error::{ErrorKind, Failure, FailureView};
use crate::utils::validate_amount;
use vstd::prelude::*;
use vstd::string::*;

verus! {

/// Where a submission stands.
#[derive(Debug, PartialEq, Eq)]
pub enum WorkflowStatus {
    Idle,
    Submitting,
    /// The burn went through; the status carries the confirmation.
    Succeeded(String),
    /// The amount was refused or the burn failed.
    Failed(Failure),
}

/// The mathematical value of a [`WorkflowStatus`].
pub ghost enum WorkflowStatusView {
    Idle,
    Submitting,
    Succeeded(Seq<char>),
    Failed(FailureView),
}

impl View for WorkflowStatus {
    type V = WorkflowStatusView;

    open spec fn view(&self) -> WorkflowStatusView {
        match self {
            WorkflowStatus::Idle => WorkflowStatusView::Idle,
            WorkflowStatus::Submitting => WorkflowStatusView::Submitting,
            WorkflowStatus::Succeeded(confirmation) => WorkflowStatusView::Succeeded(confirmation@),
            WorkflowStatus::Failed(failure) => WorkflowStatusView::Failed(failure@),
        }
    }
}

/// The state of the burn form.
#[derive(Debug, PartialEq, Eq)]
pub struct BurnForm {
    amount: String,
    status: WorkflowStatus,
}

/// The mathematical value of a [`BurnForm`].
pub ghost struct BurnFormView {
    pub amount: Seq<char>,
    pub status: WorkflowStatusView,
}

impl BurnFormView {
    /// A form that shows a success has an empty amount.
    pub open spec fn well_formed(self) -> bool {
        self.status is Succeeded ==> self.amount.len() == 0
    }

    /// The form before anything was typed.
    pub open spec fn initial() -> BurnFormView {
        BurnFormView { amount: Seq::empty(), status: WorkflowStatusView::Idle }
    }
}

/// What happens to a burn form.
#[derive(Debug, PartialEq, Eq)]
pub enum Msg {
    /// The user edited the amount; the message carries the new text.
    UpdateAmount(String),
    /// The user submits the form.
    Burn,
    /// The provider burned the tokens; the message carries the confirmation.
    TransactionComplete(String),
    /// The provider could not burn the tokens.
    Error(Failure),
}

/// The mathematical value of a [`Msg`].
pub ghost enum MsgView {
    UpdateAmount(Seq<char>),
    Burn,
    TransactionComplete(Seq<char>),
    Error(FailureView),
}

impl View for Msg {
    type V = MsgView;

    open spec fn view(&self) -> MsgView {
        match self {
            Msg::UpdateAmount(text) => MsgView::UpdateAmount(text@),
            Msg::Burn => MsgView::Burn,
            Msg::TransactionComplete(confirmation) => MsgView::TransactionComplete(confirmation@),
            Msg::Error(failure) => MsgView::Error(failure@),
        }
    }
}

/// What the caller has to do after a message was handled.
#[derive(Debug, PartialEq, Eq)]
pub enum Action {
    /// The message was ignored: nothing changed, nothing is to be done.
    Ignore,
    /// The form changed: show it again.
    Render,
    /// The form changed and a burn is to be made: show the form again,
    /// invoke the provider's burn operation for the amount on behalf of the
    /// account with the public key, and send its answer back.
    Burn { amount: PositiveNumber, public_key: String },
}

/// The mathematical value of an [`Action`].
pub ghost enum ActionView {
    Ignore,
    Render,
    Burn { amount: Seq<char>, public_key: Seq<char> },
}

impl View for Action {
    type V = ActionView;

    open spec fn view(&self) -> ActionView {
        match self {
            Action::Ignore => ActionView::Ignore,
            Action::Render => ActionView::Render,
            Action::Burn { amount, public_key } => ActionView::Burn {
                amount: amount@,
                public_key: public_key@,
            },
        }
    }
}

/// The status of a form whose amount was refused: failed, for the reason
/// that validation gives.
pub open spec fn refusal(amount: Seq<char>) -> WorkflowStatusView {
    WorkflowStatusView::Failed(Failure::standard(validation(amount)->Err_0))
}

/// The state that follows `state` when `msg` is handled.
pub open spec fn next_state(state: BurnFormView, msg: MsgView) -> BurnFormView {
    match msg {
        MsgView::UpdateAmount(text) => if state.status is Submitting {
            state
        } else {
            BurnFormView { amount: text, status: WorkflowStatusView::Idle }
        },
        MsgView::Burn => if state.status is Submitting {
            state
        } else {
            BurnFormView {
                amount: state.amount,
                status: if validation(state.amount) is Ok {
                    WorkflowStatusView::Submitting
                } else {
                    refusal(state.amount)
                },
            }
        },
        MsgView::TransactionComplete(confirmation) => BurnFormView {
            amount: Seq::empty(),
            status: WorkflowStatusView::Succeeded(confirmation),
        },
        MsgView::Error(failure) => BurnFormView {
            amount: state.amount,
            status: WorkflowStatusView::Failed(failure),
        },
    }
}

/// The action that handling `msg` in `state` asks for, with the wallet
/// session as it stands.
pub open spec fn next_action(state: BurnFormView, msg: MsgView, wallet: WalletView) -> ActionView {
    match msg {
        MsgView::UpdateAmount(_) => if state.status is Submitting {
            ActionView::Ignore
        } else {
            ActionView::Render
        },
        MsgView::Burn => if state.status is Submitting {
            ActionView::Ignore
        } else if validation(state.amount) is Ok {
            ActionView::Burn { amount: state.amount, public_key: wallet.pub_key->0 }
        } else {
            ActionView::Render
        },
        MsgView::TransactionComplete(_) => ActionView::Render,
        MsgView::Error(_) => ActionView::Render,
    }
}

impl View for BurnForm {
    type V = BurnFormView;

    closed spec fn view(&self) -> BurnFormView {
        BurnFormView { amount: self.amount@, status: self.status@ }
    }
}

impl BurnForm {
    #[verifier::type_invariant]
    spec fn holds(self) -> bool {
        self@.well_formed()
    }

    /// A new form: no amount, idle.
    pub fn create() -> (form: BurnForm)
        ensures
            form@ == BurnFormView::initial(),
            form@.well_formed(),
    {
        BurnForm { amount: String::new(), status: WorkflowStatus::Idle }
    }

    /// Handles one message and says what the caller has to do.
    ///
    /// An edit sets the amount and makes the form idle again. A submission
    /// validates the amount: a refused amount fails the submission at once,
    /// with the amount left as it was typed and no burn asked for; an
    /// accepted one starts the burn. While a burn is in flight, edits and
    /// submissions change nothing and ask for nothing. A confirmation
    /// clears the amount; a failure of the burn leaves it.
    ///
    /// A submission needs a connected wallet; the page offers the form only
    /// then.
    pub fn update(&mut self, msg: Msg, wallet: &WalletConnect) -> (action: Action)
        requires
            msg is Burn ==> wallet@.status is Connected,
        ensures
            final(self)@ == next_state(old(self)@, msg@),
            action@ == next_action(old(self)@, msg@, wallet@),
            final(self)@.well_formed(),
            final(self)@.status is Succeeded ==> final(self)@.amount == Seq::<char>::empty(),
            old(self)@.status is Submitting && (msg is Burn || msg is UpdateAmount)
                ==> final(self)@ == old(self)@ && action is Ignore,
            action is Burn ==> !(old(self)@.status is Submitting)
                && final(self)@.status is Submitting
                && is_positive_decimal(old(self)@.amount),
            msg is Burn && !(old(self)@.status is Submitting) && validation(old(self)@.amount) is Err
                ==> final(self)@.amount == old(self)@.amount
                && final(self)@.status == refusal(old(self)@.amount)
                && action is Render,
    {
        proof {
            use_type_invariant(&*self);
        }
        match msg {
            Msg::UpdateAmount(text) => {
                if self.is_loading() {
                    return Action::Ignore;
                }
                self.status = WorkflowStatus::Idle;
                self.amount = text;
                Action::Render
            },
            Msg::Burn => {
                if self.is_loading() {
                    return Action::Ignore;
                }
                match validate_amount(self.amount.as_str()) {
                    Ok(amount) => {
                        let public_key = wallet.public_key().unwrap().clone();
                        self.status = WorkflowStatus::Submitting;
                        Action::Burn { amount, public_key }
                    },
                    Err(kind) => {
                        self.status = WorkflowStatus::Failed(Failure::of(kind));
                        Action::Render
                    },
                }
            },
            Msg::TransactionComplete(confirmation) => {
                self.amount = String::new();
                self.status = WorkflowStatus::Succeeded(confirmation);
                Action::Render
            },
            Msg::Error(failure) => {
                self.status = WorkflowStatus::Failed(failure);
                Action::Render
            },
        }
    }

    /// Handles one message whatever the wallet session's state.
    ///
    /// A submission while the wallet is not connected is turned away: the
    /// form stays as it is and the result is `None`. Every other message is
    /// handled as `update` handles it.
    pub fn try_update(&mut self, msg: Msg, wallet: &WalletConnect) -> (handled: Option<Action>)
        ensures
            handled is None <==> msg is Burn && !(wallet@.status is Connected),
            handled is None ==> final(self)@ == old(self)@,
            handled matches Some(action) ==> final(self)@ == next_state(old(self)@, msg@)
                && action@ == next_action(old(self)@, msg@, wallet@),
            final(self)@.well_formed(),
    {
        proof {
            use_type_invariant(&*self);
        }
        let allowed = match msg {
            Msg::Burn => wallet.is_connected(),
            _ => true,
        };
        if allowed {
            Some(self.update(msg, wallet))
        } else {
            None
        }
    }

    /// The amount as it stands in the input field.
    pub fn amount(&self) -> (text: &str)
        ensures
            text@ == self@.amount,
    {
        self.amount.as_str()
    }

    /// Where the submission stands.
    pub fn status(&self) -> (status: &WorkflowStatus)
        ensures
            status@ == self@.status,
    {
        &self.status
    }

    /// Whether a burn is in flight. The input field and the button are
    /// disabled then.
    pub fn is_loading(&self) -> (loading: bool)
        ensures
            loading == (self@.status is Submitting),
    {
        match self.status {
            WorkflowStatus::Submitting => true,
            _ => false,
        }
    }

    /// The text on the submit button.
    pub fn button_label(&self) -> (label: &'static str)
        ensures
            self@.status is Submitting ==> label@ == "Processing..."@,
            !(self@.status is Submitting) ==> label@ == "Burn Tokens"@,
    {
        if self.is_loading() {
            "Processing..."
        } else {
            "Burn Tokens"
        }
    }

    /// The message under the form: the confirmation after a success, the
    /// error's message after a failure, none otherwise.
    pub fn status_message(&self) -> (message: Option<&String>)
        ensures
            message is Some <==> self@.status is Succeeded || self@.status is Failed,
            self@.status matches WorkflowStatusView::Succeeded(confirmation) ==> message->0@
                == confirmation,
            self@.status matches WorkflowStatusView::Failed(failure) ==> message->0@
                == failure.message,
    {
        match &self.status {
            WorkflowStatus::Succeeded(confirmation) => Some(confirmation),
            WorkflowStatus::Failed(failure) => Some(&failure.message),
            _ => None,
        }
    }

    /// The style class of the message under the form.
    pub fn status_class(&self) -> (class: Option<&'static str>)
        ensures
            class is Some <==> self@.status is Succeeded || self@.status is Failed,
            self@.status is Succeeded ==> class->0@ == "status-message success"@,
            self@.status is Failed ==> class->0@ == "status-message error"@,
    {
        match &self.status {
            WorkflowStatus::Succeeded(_) => Some("status-message success"),
            WorkflowStatus::Failed(_) => Some("status-message error"),
            _ => None,
        }
    }
}

/// What the binding to the injected wallet object found when it tried to
/// burn.
#[derive(Clone, Copy, Debug, PartialEq, Eq, Structural)]
pub enum BurnReply {
    /// The wallet object is no longer there.
    ProviderMissing,
    /// The call failed or was refused.
    Rejected,
    /// The call returned.
    Accepted,
}

/// The confirmation of a burn of the given amount.
pub open spec fn confirmation(amount: Seq<char>) -> Seq<char> {
    "Successfully burned "@ + amount + " tokens"@
}

/// The message that ends the burn of `amount` with the given reply.
///
/// A missing provider is `ProviderUnavailable`, a failed or refused call
/// `BurnRejected`; a call that returned is confirmed with the amount.
pub fn burn_completed(reply: BurnReply, amount: &PositiveNumber) -> (msg: Msg)
    ensures
        reply is ProviderMissing ==> msg@ == MsgView::Error(
            Failure::standard(ErrorKind::ProviderUnavailable),
        ),
        reply is Rejected ==> msg@ == MsgView::Error(Failure::standard(ErrorKind::BurnRejected)),
        reply is Accepted ==> msg@ == MsgView::TransactionComplete(confirmation(amount@)),
{
    match reply {
        BurnReply::ProviderMissing => Msg::Error(Failure::of(ErrorKind::ProviderUnavailable)),
        BurnReply::Rejected => Msg::Error(Failure::of(ErrorKind::BurnRejected)),
        BurnReply::Accepted => {
            let mut text = "Successfully burned ".to_owned();
            text.append(amount.as_str());
            text.append(" tokens");
            Msg::TransactionComplete(text)
        },
    }
}

/// Handling a message keeps a well-formed form well formed: a form that
/// shows a success has an empty amount.
pub proof fn lemma_next_state_well_formed(state: BurnFormView, msg: MsgView)
    requires
        state.well_formed(),
    ensures
        next_state(state, msg).well_formed(),
{
}

/// Editing the amount twice in a row to the same text leaves the form as
/// editing it once does.
pub proof fn lemma_update_amount_idempotent(state: BurnFormView, text: Seq<char>)
    ensures
        next_state(next_state(state, MsgView::UpdateAmount(text)), MsgView::UpdateAmount(text))
            == next_state(state, MsgView::UpdateAmount(text)),
{
}

/// The number of burn calls that were asked for and not yet answered: one
/// while the form is submitting.
pub open spec fn burns_in_flight(state: BurnFormView) -> nat {
    if state.status is Submitting {
        1
    } else {
        0
    }
}

/// Whether the message is the provider's answer to a burn call.
pub open spec fn is_answer(msg: MsgView) -> bool {
    msg is TransactionComplete || msg is Error
}

/// Where the provider answers only burns that were asked for, every step
/// keeps count. A burn is asked for only while none is in flight, and is
/// in flight from then on; an answer takes it out; nothing else changes the
/// count. So never is more than one burn in flight.
pub proof fn lemma_burns_in_flight(state: BurnFormView, msg: MsgView, wallet: WalletView)
    requires
        is_answer(msg) ==> state.status is Submitting,
    ensures
        next_action(state, msg, wallet) is Burn ==> burns_in_flight(state) == 0
            && burns_in_flight(next_state(state, msg)) == 1,
        is_answer(msg) ==> burns_in_flight(state) == 1
            && burns_in_flight(next_state(state, msg)) == 0,
        !(next_action(state, msg, wallet) is Burn) && !is_answer(msg)
            ==> burns_in_flight(next_state(state, msg)) == burns_in_flight(state),
{
}

/// While a burn is in flight, no message starts a second one, and a
/// submission or an edit leaves the form as it is.
pub proof fn lemma_one_burn_in_flight(state: BurnFormView, msg: MsgView, wallet: WalletView)
    requires
        state.status is Submitting,
    ensures
        !(next_action(state, msg, wallet) is Burn),
        msg is Burn || msg is UpdateAmount ==> next_state(state, msg) == state,
        msg is Burn || msg is UpdateAmount ==> next_action(state, msg, wallet) is Ignore,
{
}

} // verus!
