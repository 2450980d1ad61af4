use token_burner::components::burn_form::{
    burn_completed, Action, BurnForm, BurnReply, Msg, WorkflowStatus,
};
use token_burner::components::wallet::{Msg as WalletMsg, WalletConnect};
use token_burner::error::{ErrorKind, Failure};
use token_burner::utils::validate_amount;

const KEY: &str = "Ab12Cd34Ef56Gh78";

fn wallet() -> WalletConnect {
    let mut session = WalletConnect::create();
    session.update(WalletMsg::Connect);
    session.update(WalletMsg::Connected(KEY.to_string()));
    session
}

fn edit(form: &mut BurnForm, text: &str) -> Action {
    form.update(Msg::UpdateAmount(text.to_string()), &wallet())
}

fn submitting(text: &str) -> BurnForm {
    let mut form = BurnForm::create();
    edit(&mut form, text);
    match form.update(Msg::Burn, &wallet()) {
        Action::Burn { .. } => form,
        other => panic!("no burn was asked for: {:?}", other),
    }
}

#[test]
fn a_new_form_is_idle_and_empty() {
    let form = BurnForm::create();
    assert_eq!(form.amount(), "");
    assert_eq!(form.status(), &WorkflowStatus::Idle);
    assert!(!form.is_loading());
    assert_eq!(form.button_label(), "Burn Tokens");
    assert_eq!(form.status_message(), None);
    assert_eq!(form.status_class(), None);
}

#[test]
fn an_edit_sets_the_amount() {
    let mut form = BurnForm::create();
    assert_eq!(edit(&mut form, "5"), Action::Render);
    assert_eq!(form.amount(), "5");
    assert_eq!(form.status(), &WorkflowStatus::Idle);
    assert_eq!(edit(&mut form, "5x"), Action::Render);
    assert_eq!(form.amount(), "5x");
    assert_eq!(form.status(), &WorkflowStatus::Idle);
}

#[test]
fn a_burn_that_succeeds_clears_the_amount() {
    let mut form = BurnForm::create();
    assert_eq!(form.status(), &WorkflowStatus::Idle);
    assert_eq!(edit(&mut form, "5"), Action::Render);
    let action = form.update(Msg::Burn, &wallet());
    assert_eq!(
        action,
        Action::Burn { amount: validate_amount("5").unwrap(), public_key: KEY.to_string() }
    );
    assert_eq!(form.status(), &WorkflowStatus::Submitting);
    assert_eq!(form.amount(), "5");
    assert!(form.is_loading());
    assert_eq!(form.button_label(), "Processing...");
    assert_eq!(form.update(Msg::TransactionComplete("sig123".to_string()), &wallet()), Action::Render);
    assert_eq!(form.status(), &WorkflowStatus::Succeeded("sig123".to_string()));
    assert_eq!(form.amount(), "");
    assert!(!form.is_loading());
    assert_eq!(form.button_label(), "Burn Tokens");
    assert_eq!(form.status_message(), Some(&"sig123".to_string()));
    assert_eq!(form.status_class(), Some("status-message success"));
}

#[test]
fn a_negative_amount_fails_without_a_burn() {
    let mut form = BurnForm::create();
    assert_eq!(edit(&mut form, "-3"), Action::Render);
    assert_eq!(form.update(Msg::Burn, &wallet()), Action::Render);
    assert_eq!(form.status(), &WorkflowStatus::Failed(Failure::of(ErrorKind::NonPositive)));
    assert_eq!(form.amount(), "-3");
    assert!(!form.is_loading());
    assert_eq!(form.status_message(), Some(&"Amount must be greater than 0".to_string()));
    assert_eq!(form.status_class(), Some("status-message error"));
}

#[test]
fn an_amount_that_is_no_number_fails_without_a_burn() {
    let mut form = BurnForm::create();
    assert_eq!(edit(&mut form, "1.2.3"), Action::Render);
    assert_eq!(form.update(Msg::Burn, &wallet()), Action::Render);
    assert_eq!(form.status(), &WorkflowStatus::Failed(Failure::of(ErrorKind::NotANumber)));
    assert_eq!(form.amount(), "1.2.3");
    assert_eq!(form.status_message(), Some(&"Invalid amount".to_string()));
    assert_eq!(form.status_class(), Some("status-message error"));
}

#[test]
fn an_empty_amount_fails_without_a_burn() {
    let mut form = BurnForm::create();
    assert_eq!(form.update(Msg::Burn, &wallet()), Action::Render);
    assert_eq!(form.status(), &WorkflowStatus::Failed(Failure::of(ErrorKind::NotANumber)));
    assert_eq!(form.amount(), "");
}

#[test]
fn a_second_submission_during_a_burn_is_ignored() {
    let mut form = submitting("5");
    let same = submitting("5");
    assert_eq!(form.update(Msg::Burn, &wallet()), Action::Ignore);
    assert_eq!(form, same);
    assert_eq!(form.update(Msg::Burn, &wallet()), Action::Ignore);
    assert_eq!(form, same);
    assert_eq!(form.update(Msg::TransactionComplete("sig123".to_string()), &wallet()), Action::Render);
    assert_eq!(form.status(), &WorkflowStatus::Succeeded("sig123".to_string()));
    assert_eq!(form.amount(), "");
}

#[test]
fn an_edit_during_a_burn_is_ignored() {
    let mut form = submitting("5");
    assert_eq!(edit(&mut form, "500"), Action::Ignore);
    assert_eq!(form.amount(), "5");
    assert_eq!(form.status(), &WorkflowStatus::Submitting);
    assert_eq!(form, submitting("5"));
}

#[test]
fn a_burn_that_fails_keeps_the_amount() {
    let mut form = submitting("2.5");
    let amount = validate_amount("2.5").unwrap();
    let answer = burn_completed(BurnReply::Rejected, &amount);
    assert_eq!(answer, Msg::Error(Failure::of(ErrorKind::BurnRejected)));
    assert_eq!(form.update(answer, &wallet()), Action::Render);
    assert_eq!(form.status(), &WorkflowStatus::Failed(Failure::of(ErrorKind::BurnRejected)));
    assert_eq!(form.amount(), "2.5");
    assert_eq!(form.status_message(), Some(&"Failed to burn tokens".to_string()));
    assert_eq!(form.status_class(), Some("status-message error"));
    match form.update(Msg::Burn, &wallet()) {
        Action::Burn { amount, public_key } => {
            assert_eq!(amount.as_str(), "2.5");
            assert_eq!(public_key, KEY);
        },
        other => panic!("no burn was asked for: {:?}", other),
    }
    assert_eq!(form.status(), &WorkflowStatus::Submitting);
}

#[test]
fn a_burn_without_a_provider_fails_as_provider_unavailable() {
    let mut form = submitting("7");
    let amount = validate_amount("7").unwrap();
    let answer = burn_completed(BurnReply::ProviderMissing, &amount);
    assert_eq!(form.update(answer, &wallet()), Action::Render);
    assert_eq!(
        form.status(),
        &WorkflowStatus::Failed(Failure {
            kind: ErrorKind::ProviderUnavailable,
            message: "Phantom wallet not found".to_string(),
        })
    );
    assert_eq!(form.amount(), "7");
}

#[test]
fn an_accepted_burn_is_confirmed_with_the_amount() {
    let mut form = submitting("0.000001");
    let amount = validate_amount("0.000001").unwrap();
    let answer = burn_completed(BurnReply::Accepted, &amount);
    assert_eq!(
        answer,
        Msg::TransactionComplete("Successfully burned 0.000001 tokens".to_string())
    );
    assert_eq!(form.update(answer, &wallet()), Action::Render);
    assert_eq!(
        form.status(),
        &WorkflowStatus::Succeeded("Successfully burned 0.000001 tokens".to_string())
    );
    assert_eq!(form.amount(), "");
    assert_eq!(form.status_class(), Some("status-message success"));
}

#[test]
fn an_edit_after_a_success_makes_the_form_idle() {
    let mut form = submitting("5");
    form.update(Msg::TransactionComplete("sig123".to_string()), &wallet());
    assert_eq!(edit(&mut form, "6"), Action::Render);
    assert_eq!(form.status(), &WorkflowStatus::Idle);
    assert_eq!(form.amount(), "6");
    assert_eq!(form.status_message(), None);
}

#[test]
fn an_edit_after_a_failure_makes_the_form_idle() {
    let mut form = BurnForm::create();
    edit(&mut form, "0");
    assert_eq!(form.update(Msg::Burn, &wallet()), Action::Render);
    assert_eq!(form.status(), &WorkflowStatus::Failed(Failure::of(ErrorKind::NonPositive)));
    assert_eq!(edit(&mut form, "1"), Action::Render);
    assert_eq!(form.status(), &WorkflowStatus::Idle);
    assert_eq!(form.amount(), "1");
}

#[test]
fn a_submission_after_a_success_validates_the_empty_amount() {
    let mut form = submitting("5");
    form.update(Msg::TransactionComplete("sig123".to_string()), &wallet());
    assert_eq!(form.update(Msg::Burn, &wallet()), Action::Render);
    assert_eq!(form.status(), &WorkflowStatus::Failed(Failure::of(ErrorKind::NotANumber)));
    assert_eq!(form.amount(), "");
}

#[test]
fn the_same_edit_twice_is_the_same_as_once() {
    for text in ["", "5", "-3", "abc"] {
        let mut once = BurnForm::create();
        edit(&mut once, text);
        let mut twice = BurnForm::create();
        edit(&mut twice, text);
        edit(&mut twice, text);
        assert_eq!(once, twice);

        let mut once = submitting("5");
        edit(&mut once, text);
        let mut twice = submitting("5");
        edit(&mut twice, text);
        edit(&mut twice, text);
        assert_eq!(once, twice);

        let mut once = submitting("5");
        once.update(Msg::TransactionComplete("sig123".to_string()), &wallet());
        edit(&mut once, text);
        let mut twice = submitting("5");
        twice.update(Msg::TransactionComplete("sig123".to_string()), &wallet());
        edit(&mut twice, text);
        edit(&mut twice, text);
        assert_eq!(once, twice);
    }
}

#[test]
fn a_form_that_shows_a_success_is_empty() {
    let mut form = BurnForm::create();
    let steps = vec![
        Msg::UpdateAmount("5".to_string()),
        Msg::Burn,
        Msg::UpdateAmount("6".to_string()),
        Msg::TransactionComplete("sig123".to_string()),
        Msg::Burn,
        Msg::UpdateAmount("abc".to_string()),
        Msg::TransactionComplete("sig456".to_string()),
        Msg::Error(Failure::of(ErrorKind::BurnRejected)),
        Msg::UpdateAmount("7".to_string()),
        Msg::Burn,
        Msg::Error(Failure::of(ErrorKind::ProviderUnavailable)),
    ];
    for msg in steps {
        form.update(msg, &wallet());
        if let WorkflowStatus::Succeeded(_) = form.status() {
            assert_eq!(form.amount(), "");
        }
    }
    assert_eq!(form.amount(), "7");
}

#[test]
fn edits_and_answers_need_no_connected_wallet() {
    let nobody = WalletConnect::create();
    let mut form = BurnForm::create();
    assert_eq!(form.update(Msg::UpdateAmount("1e5".to_string()), &nobody), Action::Render);
    assert_eq!(form.amount(), "1e5");
    match form.update(Msg::Burn, &wallet()) {
        Action::Burn { amount, public_key } => {
            assert_eq!(amount.as_str(), "1e5");
            assert_eq!(public_key, KEY);
        },
        other => panic!("no burn was asked for: {:?}", other),
    }
    assert_eq!(form.update(Msg::UpdateAmount("2".to_string()), &nobody), Action::Ignore);
    assert_eq!(form.update(Msg::TransactionComplete("sig123".to_string()), &nobody), Action::Render);
    assert_eq!(form.status(), &WorkflowStatus::Succeeded("sig123".to_string()));
}

#[test]
fn a_submission_without_a_connected_wallet_is_turned_away() {
    let nobody = WalletConnect::create();
    let mut form = BurnForm::create();
    assert_eq!(form.try_update(Msg::UpdateAmount("5".to_string()), &nobody), Some(Action::Render));
    let before = {
        let mut same = BurnForm::create();
        edit(&mut same, "5");
        same
    };
    assert_eq!(form.try_update(Msg::Burn, &nobody), None);
    assert_eq!(form, before);

    let mut connecting = WalletConnect::create();
    connecting.update(WalletMsg::Connect);
    assert_eq!(form.try_update(Msg::Burn, &connecting), None);
    assert_eq!(form, before);

    assert_eq!(
        form.try_update(Msg::Burn, &wallet()),
        Some(Action::Burn { amount: validate_amount("5").unwrap(), public_key: KEY.to_string() })
    );
    assert_eq!(form.status(), &WorkflowStatus::Submitting);
    assert_eq!(form.try_update(Msg::Burn, &wallet()), Some(Action::Ignore));
    assert_eq!(
        form.try_update(Msg::Error(Failure::of(ErrorKind::BurnRejected)), &nobody),
        Some(Action::Render)
    );
    assert_eq!(form.status(), &WorkflowStatus::Failed(Failure::of(ErrorKind::BurnRejected)));
}
