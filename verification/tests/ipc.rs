use azookey_ime::error::EngineError;
use azookey_ime::ipc_service::Candidates;
use azookey_ime::ipc_service::ComposingText;
use azookey_ime::ipc_service::Suggestion;
use azookey_ime::ipc_service::candidates_from_response;
use azookey_ime::reconnect::CONNECT_RETRY_DELAY_MS;
use azookey_ime::reconnect::ConnectDecision;
use azookey_ime::reconnect::ConnectFailure;
use azookey_ime::reconnect::IPC_RECONNECT_COOLDOWN_SECS;
use azookey_ime::reconnect::MAX_CONNECT_RETRIES;
use azookey_ime::reconnect::connect_retry_decision;
use azookey_ime::reconnect::mark_ipc_reconnect_failed;
use azookey_ime::reconnect::should_try_ipc_reconnect;

fn sug(text: &str, subtext: &str, cc: i32) -> Suggestion {
    Suggestion { text: text.to_string(), subtext: subtext.to_string(), corresponding_count: cc }
}

#[test]
fn missing_composing_text_is_a_protocol_violation() {
    assert_eq!(
        candidates_from_response(None),
        Err(EngineError::BackendProtocolViolation)
    );
}

#[test]
fn composing_text_columns_are_split_out() {
    let ct = ComposingText {
        suggestions: vec![sug("下", "", 1), sug("か", "き", 1)],
        hiragana: "かき".to_string(),
    };
    let c = candidates_from_response(Some(ct)).unwrap();
    assert_eq!(c.texts, vec!["下".to_string(), "か".to_string()]);
    assert_eq!(c.sub_texts, vec!["".to_string(), "き".to_string()]);
    assert_eq!(c.hiragana, "かき");
    assert_eq!(c.corresponding_count, vec![1, 1]);
}

#[test]
fn empty_suggestion_list_is_still_a_reply() {
    let ct = ComposingText { suggestions: vec![], hiragana: "".to_string() };
    let c = candidates_from_response(Some(ct)).unwrap();
    assert!(c.texts.is_empty());
    assert!(c.well_formed());
}

#[test]
fn well_formed_rejects_bad_counts() {
    let mut c = Candidates {
        texts: vec!["か".to_string()],
        sub_texts: vec!["".to_string()],
        hiragana: "か".to_string(),
        corresponding_count: vec![1],
    };
    assert!(c.well_formed());
    c.corresponding_count = vec![2];
    assert!(!c.well_formed());
    c.corresponding_count = vec![-1];
    assert!(!c.well_formed());
    c.corresponding_count = vec![1, 1];
    assert!(!c.well_formed());
}

#[test]
fn cooldown_boundary() {
    assert_eq!(IPC_RECONNECT_COOLDOWN_SECS, 10);
    assert!(should_try_ipc_reconnect(10, 0));
    assert!(!should_try_ipc_reconnect(9, 0));
    assert!(should_try_ipc_reconnect(110, 100));
    assert!(!should_try_ipc_reconnect(109, 100));
}

#[test]
fn clock_moving_backwards_keeps_the_cooldown() {
    assert!(!should_try_ipc_reconnect(5, 100));
}

#[test]
fn marking_a_failure_restarts_the_cooldown() {
    let mut last: u64 = 0;
    mark_ipc_reconnect_failed(&mut last, 42);
    assert_eq!(last, 42);
    assert!(!should_try_ipc_reconnect(50, last));
    assert!(should_try_ipc_reconnect(52, last));
}

#[test]
fn busy_endpoint_is_retried_forever() {
    assert_eq!(
        connect_retry_decision(ConnectFailure::Busy, 19),
        (ConnectDecision::RetryAfterDelay, 19)
    );
    assert_eq!(CONNECT_RETRY_DELAY_MS, 100);
}

#[test]
fn missing_endpoint_is_retried_a_bounded_number_of_times() {
    assert_eq!(MAX_CONNECT_RETRIES, 20);
    assert_eq!(
        connect_retry_decision(ConnectFailure::NotFound, 0),
        (ConnectDecision::RetryAfterDelay, 1)
    );
    assert_eq!(
        connect_retry_decision(ConnectFailure::NotFound, 18),
        (ConnectDecision::RetryAfterDelay, 19)
    );
    assert_eq!(
        connect_retry_decision(ConnectFailure::NotFound, 19),
        (ConnectDecision::GiveUp, 20)
    );
}

#[test]
fn other_errors_fail_at_once() {
    assert_eq!(
        connect_retry_decision(ConnectFailure::Other, 0),
        (ConnectDecision::GiveUp, 0)
    );
}
