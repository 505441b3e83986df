use azookey_ime::composition::Composition;
use azookey_ime::composition::CompositionState;
use azookey_ime::composition::process_key;
use azookey_ime::error::EngineError;
use azookey_ime::input_mode::InputMode;
use azookey_ime::interpreter::ActionInterp;
use azookey_ime::interpreter::OutsideCall;
use azookey_ime::interpreter::Reply;
use azookey_ime::interpreter::Step;
use azookey_ime::interpreter::handle_action;
use azookey_ime::factory::TextServiceFactory;
use azookey_ime::ipc_service::Candidates;

fn cands(texts: &[&str], subs: &[&str], hira: &str, ccs: &[i32]) -> Candidates {
    Candidates {
        texts: texts.iter().map(|s| s.to_string()).collect(),
        sub_texts: subs.iter().map(|s| s.to_string()).collect(),
        hiragana: hira.to_string(),
        corresponding_count: ccs.to_vec(),
    }
}

fn call(c: OutsideCall, required: bool) -> Step {
    Step::Call { call: c, required }
}

fn set_text(text: &str, sub_text: &str) -> OutsideCall {
    OutsideCall::HostSetText { text: text.to_string(), sub_text: sub_text.to_string() }
}

fn done(s: Step) -> Composition {
    match s {
        Step::Done(c) => c,
        other => panic!("expected Done, got {:?}", other),
    }
}

/// Drive one key event whose backend replies are scripted; every other
/// call succeeds. Returns the written-back record.
fn run_event(comp: Composition, mode: InputMode, code: usize, backend: &mut Vec<Reply>) -> Composition {
    let (acts, tr) = process_key(&comp, mode, code, false).expect("key not consumed");
    let mut m = handle_action(comp, mode, acts, tr);
    let mut s = m.step(Reply::Start);
    loop {
        match s {
            Step::Call { ref call, .. } => {
                let reply = match call {
                    OutsideCall::BackendAppendText(_)
                    | OutsideCall::BackendRemoveText
                    | OutsideCall::BackendShrinkText(_) => {
                        if backend.is_empty() { Reply::BackendUnavailable } else { backend.remove(0) }
                    }
                    _ => Reply::CallOk,
                };
                s = m.step(reply);
            }
            Step::Done(c) => return c,
            Step::Aborted(e) => panic!("aborted: {:?}", e),
        }
    }
}

#[test]
fn typing_k_then_a_composes_ka() {
    // First key: `k`. The backend echoes the shaped consonant.
    let comp = Composition::new();
    let (acts, tr) = process_key(&comp, InputMode::Kana, 0x4b, false).unwrap();
    let mut m = handle_action(comp, InputMode::Kana, acts, tr);
    assert_eq!(m.step(Reply::Start), call(OutsideCall::HostStartComposition, true));
    assert_eq!(m.step(Reply::CallOk), call(OutsideCall::HostUpdatePos, true));
    assert_eq!(m.step(Reply::CallOk), call(OutsideCall::UiShowWindow, false));
    assert_eq!(
        m.step(Reply::CallOk),
        call(OutsideCall::BackendAppendText("ｋ".to_string()), true)
    );
    let reply = Reply::BackendCandidates(cands(&["ｋ"], &[""], "ｋ", &[1]));
    assert_eq!(m.step(reply), call(set_text("ｋ", ""), true));
    assert_eq!(
        m.step(Reply::CallOk),
        call(OutsideCall::UiSetCandidates(vec!["ｋ".to_string()]), false)
    );
    assert_eq!(m.step(Reply::CallOk), call(OutsideCall::UiSetSelection(0), false));
    let comp = done(m.step(Reply::CallOk));
    assert_eq!(comp.state, CompositionState::Composing);
    assert_eq!(comp.preview, "ｋ");
    assert_eq!(comp.raw_input, "k");

    // Second key: `a`. The backend converts and returns two candidates.
    let (acts, tr) = process_key(&comp, InputMode::Kana, 0x41, false).unwrap();
    let mut m = handle_action(comp, InputMode::Kana, acts, tr);
    // No second StartComposition: the first call already talks to the backend.
    assert_eq!(m.step(Reply::Start), call(OutsideCall::BackendAppendText("あ".to_string()), true));
    let reply = Reply::BackendCandidates(cands(&["か", "下"], &["", ""], "か", &[1, 1]));
    assert_eq!(m.step(reply), call(set_text("か", ""), true));
    assert_eq!(
        m.step(Reply::CallOk),
        call(OutsideCall::UiSetCandidates(vec!["か".to_string(), "下".to_string()]), false)
    );
    assert_eq!(m.step(Reply::CallOk), call(OutsideCall::UiSetSelection(0), false));
    let comp = done(m.step(Reply::CallOk));
    assert_eq!(comp.state, CompositionState::Composing);
    assert_eq!(comp.preview, "か");
    assert_eq!(comp.suffix, "");
    assert_eq!(comp.raw_hiragana, "か");
    assert_eq!(comp.selection_index, 0);
    assert_eq!(comp.candidates.texts, vec!["か".to_string(), "下".to_string()]);

    // Space: the selection moves to the second candidate and previews it.
    let (acts, tr) = process_key(&comp, InputMode::Kana, 0x20, false).unwrap();
    let mut m = handle_action(comp, InputMode::Kana, acts, tr);
    assert_eq!(m.step(Reply::Start), call(OutsideCall::UiSetSelection(1), true));
    assert_eq!(m.step(Reply::CallOk), call(set_text("下", ""), true));
    let comp = done(m.step(Reply::CallOk));
    assert_eq!(comp.state, CompositionState::Previewing);
    assert_eq!(comp.selection_index, 1);
    assert_eq!(comp.preview, "下");

    // Enter with an empty suffix: the composition ends, every field clears.
    let (acts, tr) = process_key(&comp, InputMode::Kana, 0x0d, false).unwrap();
    let mut m = handle_action(comp, InputMode::Kana, acts, tr);
    assert_eq!(m.step(Reply::Start), call(OutsideCall::HostEndComposition, true));
    assert_eq!(m.step(Reply::CallOk), call(OutsideCall::UiHideWindow, false));
    assert_eq!(m.step(Reply::CallOk), call(OutsideCall::UiSetCandidates(vec![]), false));
    assert_eq!(m.step(Reply::CallOk), call(OutsideCall::BackendClearText, false));
    let comp = done(m.step(Reply::CallOk));
    assert_eq!(comp.state, CompositionState::Inactive);
    assert_eq!(comp.preview, "");
    assert_eq!(comp.suffix, "");
    assert_eq!(comp.raw_input, "");
    assert_eq!(comp.raw_hiragana, "");
    assert_eq!(comp.selection_index, 0);
    assert_eq!(comp.corresponding_count, 0);
}

#[test]
fn offline_typing_shows_the_shaped_hiragana() {
    let comp = Composition::new();
    let (acts, tr) = process_key(&comp, InputMode::Kana, 0x41, false).unwrap();
    let mut m = handle_action(comp, InputMode::Kana, acts, tr);
    assert_eq!(m.step(Reply::Start), call(OutsideCall::HostStartComposition, true));
    assert_eq!(m.step(Reply::CallOk), call(OutsideCall::HostUpdatePos, true));
    assert_eq!(m.step(Reply::CallOk), call(OutsideCall::UiShowWindow, false));
    assert_eq!(
        m.step(Reply::CallOk),
        call(OutsideCall::BackendAppendText("あ".to_string()), true)
    );
    assert_eq!(m.step(Reply::BackendUnavailable), call(set_text("あ", ""), true));
    let comp = done(m.step(Reply::CallOk));
    assert_eq!(comp.preview, "あ");
    assert_eq!(comp.raw_hiragana, "あ");
    assert_eq!(comp.suffix, "");
    assert_eq!(comp.corresponding_count, 1);
    assert!(comp.candidates.texts.is_empty());
    assert_eq!(comp.state, CompositionState::Composing);
}

#[test]
fn offline_backspace_drops_the_last_character() {
    let mut backend = vec![];
    let comp = Composition::new();
    let comp = run_event(comp, InputMode::Kana, 0x41, &mut backend);  // あ
    let comp = run_event(comp, InputMode::Kana, 0x49, &mut backend);  // い
    assert_eq!(comp.preview, "あい");
    let comp = run_event(comp, InputMode::Kana, 0x08, &mut backend);  // backspace
    assert_eq!(comp.preview, "あ");
    assert_eq!(comp.raw_hiragana, "あ");
    assert_eq!(comp.raw_input, "a");
    assert_eq!(comp.state, CompositionState::Composing);
}

#[test]
fn function_key_converts_without_any_backend_call() {
    let mut backend = vec![
        Reply::BackendCandidates(cands(&["あ"], &[""], "あ", &[1])),
        Reply::BackendCandidates(cands(&["あい"], &[""], "あい", &[2])),
    ];
    let comp = Composition::new();
    let comp = run_event(comp, InputMode::Kana, 0x41, &mut backend);
    let comp = run_event(comp, InputMode::Kana, 0x49, &mut backend);
    assert_eq!(comp.raw_hiragana, "あい");

    let (acts, tr) = process_key(&comp, InputMode::Kana, 0x76, false).unwrap();
    let mut m = handle_action(comp, InputMode::Kana, acts, tr);
    // The very first call is the host text update: no backend traffic.
    assert_eq!(m.step(Reply::Start), call(set_text("アイ", ""), true));
    let comp = done(m.step(Reply::CallOk));
    assert_eq!(comp.state, CompositionState::Previewing);
    // The record itself keeps its fields; only the host text changed.
    assert_eq!(comp.raw_hiragana, "あい");
}

#[test]
fn reserved_code_switches_mode_and_stays_inactive() {
    let comp = Composition::new();
    let (acts, tr) = process_key(&comp, InputMode::Kana, 0x97, true).unwrap();
    let mut m = handle_action(comp, InputMode::Kana, acts, tr);
    assert_eq!(m.step(Reply::Start), call(OutsideCall::HostSetInputMode(InputMode::Latin), true));
    assert_eq!(m.step(Reply::CallOk), call(OutsideCall::HostUpdateLangBar, false));
    let comp = done(m.step(Reply::CallOk));
    assert_eq!(comp.state, CompositionState::Inactive);
    assert_eq!(comp.preview, "");
}

fn with_two_candidates(selection_index: i32) -> Composition {
    let mut comp = Composition::new();
    comp.preview = "下".to_string();
    comp.raw_input = "ka".to_string();
    comp.raw_hiragana = "か".to_string();
    comp.corresponding_count = 1;
    comp.selection_index = selection_index;
    comp.candidates = cands(&["か", "下"], &["", ""], "か", &[1, 1]);
    comp.state = CompositionState::Previewing;
    comp
}

#[test]
fn selection_up_at_the_first_candidate_stays_put() {
    let comp = with_two_candidates(0);
    let (acts, tr) = process_key(&comp, InputMode::Kana, 0x26, false).unwrap();
    let mut m = handle_action(comp, InputMode::Kana, acts, tr);
    assert_eq!(m.step(Reply::Start), call(OutsideCall::UiSetSelection(0), true));
    assert_eq!(m.step(Reply::CallOk), call(set_text("か", ""), true));
    let comp = done(m.step(Reply::CallOk));
    assert_eq!(comp.selection_index, 0);
}

#[test]
fn selection_down_at_the_last_candidate_stays_put() {
    let comp = with_two_candidates(1);
    let (acts, tr) = process_key(&comp, InputMode::Kana, 0x28, false).unwrap();
    let mut m = handle_action(comp, InputMode::Kana, acts, tr);
    assert_eq!(m.step(Reply::Start), call(OutsideCall::UiSetSelection(1), true));
    assert_eq!(m.step(Reply::CallOk), call(set_text("下", ""), true));
    let comp = done(m.step(Reply::CallOk));
    assert_eq!(comp.selection_index, 1);
}

#[test]
fn selection_without_candidates_aborts_unavailable() {
    let mut comp = Composition::new();
    comp.preview = "あ".to_string();
    comp.raw_hiragana = "あ".to_string();
    comp.raw_input = "a".to_string();
    comp.corresponding_count = 1;
    comp.state = CompositionState::Composing;
    let (acts, tr) = process_key(&comp, InputMode::Kana, 0x20, false).unwrap();
    let mut m = handle_action(comp, InputMode::Kana, acts, tr);
    assert_eq!(m.step(Reply::Start), Step::Aborted(EngineError::EndpointUnavailable));
}

#[test]
fn failed_host_call_aborts_the_whole_list() {
    let comp = Composition::new();
    let (acts, tr) = process_key(&comp, InputMode::Kana, 0x4b, false).unwrap();
    let mut m = handle_action(comp, InputMode::Kana, acts, tr);
    assert_eq!(m.step(Reply::Start), call(OutsideCall::HostStartComposition, true));
    assert_eq!(
        m.step(Reply::CallFailed(EngineError::HostCallFailed)),
        Step::Aborted(EngineError::HostCallFailed)
    );
}

#[test]
fn backend_timeout_aborts() {
    let comp = Composition::new();
    let (acts, tr) = process_key(&comp, InputMode::Kana, 0x4b, false).unwrap();
    let mut m = handle_action(comp, InputMode::Kana, acts, tr);
    m.step(Reply::Start);
    m.step(Reply::CallOk);
    m.step(Reply::CallOk);
    m.step(Reply::CallOk);
    assert_eq!(
        m.step(Reply::CallFailed(EngineError::Timeout)),
        Step::Aborted(EngineError::Timeout)
    );
}

#[test]
fn malformed_candidate_reply_is_a_protocol_violation() {
    let comp = Composition::new();
    let (acts, tr) = process_key(&comp, InputMode::Kana, 0x4b, false).unwrap();
    let mut m = handle_action(comp, InputMode::Kana, acts, tr);
    m.step(Reply::Start);
    m.step(Reply::CallOk);
    m.step(Reply::CallOk);
    m.step(Reply::CallOk);
    // Count column longer than the text column.
    let bad = cands(&["か"], &[""], "か", &[1, 1]);
    assert_eq!(
        m.step(Reply::BackendCandidates(bad)),
        Step::Aborted(EngineError::BackendProtocolViolation)
    );
}

#[test]
fn count_beyond_the_reading_is_a_protocol_violation() {
    let comp = Composition::new();
    let (acts, tr) = process_key(&comp, InputMode::Kana, 0x4b, false).unwrap();
    let mut m = handle_action(comp, InputMode::Kana, acts, tr);
    m.step(Reply::Start);
    m.step(Reply::CallOk);
    m.step(Reply::CallOk);
    m.step(Reply::CallOk);
    let bad = cands(&["か"], &[""], "か", &[2]);
    assert_eq!(
        m.step(Reply::BackendCandidates(bad)),
        Step::Aborted(EngineError::BackendProtocolViolation)
    );
}

#[test]
fn typing_while_previewing_shrinks_then_appends() {
    let comp = with_two_candidates(1);
    let (acts, tr) = process_key(&comp, InputMode::Kana, 0x4b, false).unwrap();
    let mut m = handle_action(comp, InputMode::Kana, acts, tr);
    assert_eq!(m.step(Reply::Start), call(OutsideCall::BackendShrinkText(1), true));
    let shrunk = Reply::BackendCandidates(cands(&[], &[], "", &[]));
    assert_eq!(
        m.step(shrunk),
        call(OutsideCall::BackendAppendText("ｋ".to_string()), true)
    );
    let fresh = Reply::BackendCandidates(cands(&["ｋ"], &[""], "ｋ", &[1]));
    assert_eq!(
        m.step(fresh),
        call(
            OutsideCall::HostShiftStart { from: "下".to_string(), to: "ｋ".to_string() },
            true
        )
    );
    assert_eq!(
        m.step(Reply::CallOk),
        call(OutsideCall::UiSetCandidates(vec!["ｋ".to_string()]), true)
    );
    assert_eq!(m.step(Reply::CallOk), call(OutsideCall::UiSetSelection(0), true));
    assert_eq!(m.step(Reply::CallOk), call(OutsideCall::HostUpdatePos, true));
    let comp = done(m.step(Reply::CallOk));
    assert_eq!(comp.state, CompositionState::Composing);
    assert_eq!(comp.preview, "ｋ");
    assert_eq!(comp.selection_index, 0);
    // `k` was appended, then the first (committed) character dropped.
    assert_eq!(comp.raw_input, "ak");
}

#[test]
fn optional_window_failures_are_swallowed() {
    let comp = Composition::new();
    let (acts, tr) = process_key(&comp, InputMode::Kana, 0x41, false).unwrap();
    let mut m = handle_action(comp, InputMode::Kana, acts, tr);
    m.step(Reply::Start);
    m.step(Reply::CallOk);
    // The optional show-window call fails; the list continues.
    let s = m.step(Reply::CallOk);
    assert_eq!(s, call(OutsideCall::UiShowWindow, false));
    let s = m.step(Reply::CallFailed(EngineError::Timeout));
    assert_eq!(s, call(OutsideCall::BackendAppendText("あ".to_string()), true));
}

#[test]
fn interpreter_state_is_inspectable() {
    let comp = Composition::new();
    let m: ActionInterp = handle_action(comp, InputMode::Kana, vec![], CompositionState::Composing);
    assert_eq!(m.idx, 0);
    assert_eq!(m.transition, CompositionState::Composing);
}

#[test]
fn factory_owns_the_record_and_mode() {
    let mut f = TextServiceFactory::new();
    assert_eq!(f.input_mode, InputMode::Kana);
    let (acts, tr) = f.process_key(0x41, false).unwrap();
    let mut m = f.handle_action(acts, tr);
    m.step(Reply::Start);
    m.step(Reply::CallOk);
    m.step(Reply::CallOk);
    m.step(Reply::CallOk);
    m.step(Reply::BackendUnavailable);
    let record = done(m.step(Reply::CallOk));
    f.commit(record);
    assert_eq!(f.composition.preview, "あ");
    assert_eq!(f.composition.state, CompositionState::Composing);
    f.set_input_mode(InputMode::Latin);
    assert_eq!(f.input_mode, InputMode::Latin);
    assert_eq!(f.composition.preview, "あ");
}

#[test]
fn stepping_a_finished_machine_is_refused() {
    let comp = Composition::new();
    let (acts, tr) = process_key(&comp, InputMode::Kana, 0x97, false).unwrap();
    let mut m = handle_action(comp, InputMode::Kana, acts, tr);
    m.step(Reply::Start);
    m.step(Reply::CallOk);
    let s = m.step(Reply::CallOk);
    assert!(matches!(s, Step::Done(_)));
    assert_eq!(m.step(Reply::CallOk), Step::Aborted(EngineError::StateUnavailable));
}
