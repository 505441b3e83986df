//! The action interpreter.
//!
//! The interpreter executes one key event's action list. It cannot make
//! the outside calls itself — host-framework edits, backend conversion
//! calls and candidate-window updates all live beyond the engine — so it
//! runs as a step machine: [`handle_action`] captures a snapshot of the
//! record, and each [`ActionInterp::step`] consumes the outcome of the
//! previous outside call and answers with the next thing to do. The
//! conversation ends in [`Step::Done`] carrying the record to write back,
//! or [`Step::Aborted`], in which case the record stays as it was — the
//! write-back is all-or-nothing.
//!
//! The caller performs each requested call and reports honestly:
//! [`Reply::CallOk`] or [`Reply::CallFailed`] for host and window calls,
//! [`Reply::BackendCandidates`] or [`Reply::CallFailed`] for backend text
//! calls, and [`Reply::BackendUnavailable`] when no backend connection
//! exists. Calls marked not required may fail freely; the interpreter
//! swallows those failures and carries on.

use vstd::prelude::*;

use crate::chars::skip_chars;
use crate::chars::take_chars;
use crate::client_action::ClientAction;
use crate::client_action::ClientActionModel;
use crate::client_action::SetSelectionType;
use crate::client_action::SetTextType;
use crate::composition::Composition;
use crate::composition::CompositionModel;
use crate::composition::CompositionState;
use crate::error::EngineError;
use crate::full_width::fullwidth_seq;
use crate::full_width::halfwidth_seq;
use crate::full_width::to_fullwidth;
use crate::full_width::to_halfwidth;
use crate::input_mode::InputMode;
use crate::ipc_service::Candidates;
use crate::ipc_service::CandidatesModel;
use crate::ipc_service::clone_string_vec;
use crate::text_util::half_katakana_seq;
use crate::text_util::katakana_seq;
use crate::text_util::to_half_katakana;
use crate::text_util::to_katakana;

verus! {

/// One outside call the interpreter asks its caller to perform.
#[derive(Clone, Debug, PartialEq)]
pub enum OutsideCall {
    /// Ask the host to open an underlined composition region.
    HostStartComposition,
    /// Ask the host to commit and close the composition region.
    HostEndComposition,
    /// Ask the host to show `text` with `sub_text` appended after it.
    HostSetText { text: String, sub_text: String },
    /// Ask the host to anchor the preview segment after a shrink.
    HostShiftStart { from: String, to: String },
    /// Ask the host to recompute the caret / window position.
    HostUpdatePos,
    /// Ask the host to refresh the language-bar icon.
    HostUpdateLangBar,
    /// Install the new input mode in the process-wide IME state.
    HostSetInputMode(InputMode),
    UiShowWindow,
    UiHideWindow,
    UiSetCandidates(Vec<String>),
    UiSetSelection(i32),
    BackendAppendText(String),
    BackendRemoveText,
    BackendShrinkText(i32),
    BackendClearText,
}

pub ghost enum OutsideCallModel {
    HostStartComposition,
    HostEndComposition,
    HostSetText { text: Seq<char>, sub_text: Seq<char> },
    HostShiftStart { from: Seq<char>, to: Seq<char> },
    HostUpdatePos,
    HostUpdateLangBar,
    HostSetInputMode(InputMode),
    UiShowWindow,
    UiHideWindow,
    UiSetCandidates(Seq<Seq<char>>),
    UiSetSelection(int),
    BackendAppendText(Seq<char>),
    BackendRemoveText,
    BackendShrinkText(int),
    BackendClearText,
}

impl View for OutsideCall {
    type V = OutsideCallModel;

    open spec fn view(&self) -> OutsideCallModel {
        match self {
            OutsideCall::HostStartComposition => OutsideCallModel::HostStartComposition,
            OutsideCall::HostEndComposition => OutsideCallModel::HostEndComposition,
            OutsideCall::HostSetText { text, sub_text } => OutsideCallModel::HostSetText {
                text: text@,
                sub_text: sub_text@,
            },
            OutsideCall::HostShiftStart { from, to } => OutsideCallModel::HostShiftStart {
                from: from@,
                to: to@,
            },
            OutsideCall::HostUpdatePos => OutsideCallModel::HostUpdatePos,
            OutsideCall::HostUpdateLangBar => OutsideCallModel::HostUpdateLangBar,
            OutsideCall::HostSetInputMode(m) => OutsideCallModel::HostSetInputMode(*m),
            OutsideCall::UiShowWindow => OutsideCallModel::UiShowWindow,
            OutsideCall::UiHideWindow => OutsideCallModel::UiHideWindow,
            OutsideCall::UiSetCandidates(v) => OutsideCallModel::UiSetCandidates(v.deep_view()),
            OutsideCall::UiSetSelection(i) => OutsideCallModel::UiSetSelection(*i as int),
            OutsideCall::BackendAppendText(s) => OutsideCallModel::BackendAppendText(s@),
            OutsideCall::BackendRemoveText => OutsideCallModel::BackendRemoveText,
            OutsideCall::BackendShrinkText(n) => OutsideCallModel::BackendShrinkText(*n as int),
            OutsideCall::BackendClearText => OutsideCallModel::BackendClearText,
        }
    }
}

/// The outcome of the previous outside call, fed back into the machine.
#[derive(Clone, Debug, PartialEq)]
pub enum Reply {
    /// There was no previous call: start the conversation.
    Start,
    /// The call succeeded (host, window, or void backend call).
    CallOk,
    /// The call failed with this error.
    CallFailed(EngineError),
    /// No backend connection exists and none could be made.
    BackendUnavailable,
    /// The backend text call returned this candidate set.
    BackendCandidates(Candidates),
}

pub ghost enum ReplyModel {
    Start,
    CallOk,
    CallFailed(EngineError),
    BackendUnavailable,
    BackendCandidates(CandidatesModel),
}

impl View for Reply {
    type V = ReplyModel;

    open spec fn view(&self) -> ReplyModel {
        match self {
            Reply::Start => ReplyModel::Start,
            Reply::CallOk => ReplyModel::CallOk,
            Reply::CallFailed(e) => ReplyModel::CallFailed(*e),
            Reply::BackendUnavailable => ReplyModel::BackendUnavailable,
            Reply::BackendCandidates(c) => ReplyModel::BackendCandidates(c@),
        }
    }
}

/// What the machine answers: another call to make, the finished record to
/// write back, or the decision to abandon the list and keep the old
/// record.
#[derive(Clone, Debug, PartialEq)]
pub enum Step {
    /// Perform this call and report its outcome in the next step. The
    /// outcome of a call that is not `required` is ignored.
    Call { call: OutsideCall, required: bool },
    /// The action list is done: write this record back.
    Done(Composition),
    /// The action list is abandoned: keep the record unchanged.
    Aborted(EngineError),
}

pub ghost enum StepModel {
    Call { call: OutsideCallModel, required: bool },
    Done(CompositionModel),
    Aborted(EngineError),
}

impl View for Step {
    type V = StepModel;

    open spec fn view(&self) -> StepModel {
        match self {
            Step::Call { call, required } => StepModel::Call { call: call@, required: *required },
            Step::Done(c) => StepModel::Done(c@),
            Step::Aborted(e) => StepModel::Aborted(*e),
        }
    }
}

/// Where the machine stands: which outside call is outstanding.
#[derive(Clone, Copy, Debug, PartialEq, Eq, Structural)]
pub enum Phase {
    Start,
    StartAwaitHostStart,
    StartAwaitPos,
    StartAwaitShow,
    EndAwaitHost,
    EndAwaitHide,
    EndAwaitCands,
    EndAwaitClear,
    AppendAwaitBackend,
    AppendAwaitSetText,
    AppendAwaitUiCands,
    AppendAwaitUiSel,
    AppendOfflineAwaitSetText,
    RemoveAwaitBackend,
    RemoveAwaitSetText,
    RemoveAwaitUiCands,
    RemoveAwaitUiSel,
    RemoveOfflineAwaitSetText,
    ModeAwaitSet,
    ModeAwaitLangBar,
    SelAwaitUiSel,
    SelAwaitSetText,
    ShrinkAwaitShrink,
    ShrinkAwaitAppend,
    ShrinkAwaitShift,
    ShrinkAwaitUiCands,
    ShrinkAwaitUiSel,
    ShrinkAwaitPos,
    TypeAwaitSetText,
    Finished,
}

/// The interpreter for one action list.
pub struct ActionInterp {
    pub mode: InputMode,
    pub actions: Vec<ClientAction>,
    pub idx: usize,
    pub phase: Phase,
    pub transition: CompositionState,
    /// The working copy of the record; its `state` field is the
    /// snapshot's until the final write-back value is formed.
    pub work: Composition,
    /// The shaped text of the append or shrink action in flight.
    pub pending_text: String,
    /// Candidates held between a backend reply and the host call that
    /// confirms them (shrink only).
    pub pending: Candidates,
}

pub ghost struct InterpModel {
    pub mode: InputMode,
    pub actions: Seq<ClientActionModel>,
    pub idx: int,
    pub phase: Phase,
    pub transition: CompositionState,
    pub work: CompositionModel,
    pub pending_text: Seq<char>,
    pub pending: CandidatesModel,
}

impl View for ActionInterp {
    type V = InterpModel;

    open spec fn view(&self) -> InterpModel {
        InterpModel {
            mode: self.mode,
            actions: self.actions.deep_view(),
            idx: self.idx as int,
            phase: self.phase,
            transition: self.transition,
            work: self.work@,
            pending_text: self.pending_text@,
            pending: self.pending@,
        }
    }
}

/// Mode-dependent shaping of typed text before it reaches the backend.
pub open spec fn shape_model(t: Seq<char>, mode: InputMode) -> Seq<char> {
    if mode == InputMode::Kana {
        fullwidth_seq(t, false)
    } else {
        t
    }
}

/// Every text field cleared, the counters zero.
pub open spec fn fields_cleared(c: CompositionModel) -> bool {
    &&& c.preview.len() == 0
    &&& c.suffix.len() == 0
    &&& c.raw_input.len() == 0
    &&& c.raw_hiragana.len() == 0
    &&& c.selection_index == 0
    &&& c.corresponding_count == 0
}

pub open spec fn cleared_work(c: CompositionModel) -> CompositionModel {
    CompositionModel {
        preview: Seq::empty(),
        suffix: Seq::empty(),
        raw_input: Seq::empty(),
        raw_hiragana: Seq::empty(),
        selection_index: 0,
        corresponding_count: 0,
        ..c
    }
}

/// An action that clears every text field when it runs.
pub open spec fn is_clearing(a: ClientActionModel) -> bool {
    a is EndComposition || a is SetIMEMode
}

/// An action list that may carry the machine into the inactive state must
/// end with an action that clears the record.
pub open spec fn list_ok(actions: Seq<ClientActionModel>, transition: CompositionState) -> bool {
    transition == CompositionState::Inactive ==> actions.len() > 0 && is_clearing(actions.last())
}

/// The moved selection index: up stops at the first candidate, down at
/// the last, and a direct number is taken as it is.
pub open spec fn next_selection_model(sel: SetSelectionType, current: int, len: int) -> int {
    match sel {
        SetSelectionType::Up => if current - 1 > 0 {
            current - 1
        } else {
            0
        },
        SetSelectionType::Down => if current + 1 < len - 1 {
            current + 1
        } else {
            len - 1
        },
        SetSelectionType::Number(k) => k as int,
    }
}

/// The replacement text of a forced-form conversion, computed from the
/// working record alone.
pub open spec fn settext_model(w: CompositionModel, k: SetTextType) -> Seq<char> {
    match k {
        SetTextType::Hiragana => w.raw_hiragana,
        SetTextType::Katakana => katakana_seq(w.raw_hiragana),
        SetTextType::HalfKatakana => half_katakana_seq(w.raw_hiragana),
        SetTextType::FullLatin => fullwidth_seq(w.raw_input, true),
        SetTextType::HalfLatin => halfwidth_seq(w.raw_input),
    }
}

pub open spec fn abort_model(m: InterpModel, e: EngineError) -> (InterpModel, StepModel) {
    (InterpModel { phase: Phase::Finished, ..m }, StepModel::Aborted(e))
}

/// Begin the next action (skipping the reserved cursor moves), or finish
/// with the record to write back.
pub open spec fn advance_model(m: InterpModel) -> (InterpModel, StepModel)
    decreases m.actions.len() - m.idx,
{
    if !(0 <= m.idx < m.actions.len()) {
        (
            InterpModel { phase: Phase::Finished, ..m },
            StepModel::Done(CompositionModel { state: m.transition, ..m.work }),
        )
    } else {
        match m.actions[m.idx] {
            ClientActionModel::StartComposition => (
                InterpModel { phase: Phase::StartAwaitHostStart, ..m },
                StepModel::Call { call: OutsideCallModel::HostStartComposition, required: true },
            ),
            ClientActionModel::EndComposition => (
                InterpModel { phase: Phase::EndAwaitHost, ..m },
                StepModel::Call { call: OutsideCallModel::HostEndComposition, required: true },
            ),
            ClientActionModel::AppendText(t) => {
                let shaped = shape_model(t, m.mode);
                (
                    InterpModel {
                        phase: Phase::AppendAwaitBackend,
                        work: CompositionModel { raw_input: m.work.raw_input + t, ..m.work },
                        pending_text: shaped,
                        ..m
                    },
                    StepModel::Call {
                        call: OutsideCallModel::BackendAppendText(shaped),
                        required: true,
                    },
                )
            },
            ClientActionModel::RemoveText => (
                InterpModel { phase: Phase::RemoveAwaitBackend, ..m },
                StepModel::Call { call: OutsideCallModel::BackendRemoveText, required: true },
            ),
            ClientActionModel::MoveCursor(_) => advance_model(
                InterpModel { idx: m.idx + 1, ..m },
            ),
            ClientActionModel::SetIMEMode(im) => (
                InterpModel { phase: Phase::ModeAwaitSet, work: cleared_work(m.work), ..m },
                StepModel::Call { call: OutsideCallModel::HostSetInputMode(im), required: true },
            ),
            ClientActionModel::SetSelection(st) => {
                let len = m.work.candidates.texts.len() as int;
                if len == 0 {
                    abort_model(m, EngineError::EndpointUnavailable)
                } else {
                    let ni = next_selection_model(st, m.work.selection_index, len);
                    if !(0 <= ni < len) {
                        abort_model(m, EngineError::StateUnavailable)
                    } else {
                        (
                            InterpModel {
                                phase: Phase::SelAwaitUiSel,
                                work: CompositionModel { selection_index: ni, ..m.work },
                                ..m
                            },
                            StepModel::Call {
                                call: OutsideCallModel::UiSetSelection(ni),
                                required: true,
                            },
                        )
                    }
                }
            },
            ClientActionModel::ShrinkText(t) => {
                let shaped = shape_model(t, m.mode);
                let cc = m.work.corresponding_count;
                let grown = m.work.raw_input + t;
                let rest = if cc <= grown.len() {
                    grown.skip(cc)
                } else {
                    Seq::<char>::empty()
                };
                (
                    InterpModel {
                        phase: Phase::ShrinkAwaitShrink,
                        work: CompositionModel { raw_input: rest, ..m.work },
                        pending_text: shaped,
                        ..m
                    },
                    StepModel::Call {
                        call: OutsideCallModel::BackendShrinkText(cc),
                        required: true,
                    },
                )
            },
            ClientActionModel::SetTextWithType(k) => (
                InterpModel { phase: Phase::TypeAwaitSetText, ..m },
                StepModel::Call {
                    call: OutsideCallModel::HostSetText {
                        text: settext_model(m.work, k),
                        sub_text: Seq::empty(),
                    },
                    required: true,
                },
            ),
        }
    }
}

/// The current action is finished: move past it and advance.
pub open spec fn advance_next_model(m: InterpModel) -> (InterpModel, StepModel) {
    advance_model(InterpModel { idx: m.idx + 1, ..m })
}

/// One turn of the conversation: consume the outcome of the outstanding
/// call and answer with the next step. A reply that does not fit the
/// outstanding call ends the conversation with `StateUnavailable`.
pub open spec fn step_model(m: InterpModel, reply: ReplyModel) -> (InterpModel, StepModel) {
    match m.phase {
        Phase::Start => match reply {
            ReplyModel::Start => advance_model(m),
            _ => abort_model(m, EngineError::StateUnavailable),
        },
        Phase::StartAwaitHostStart => match reply {
            ReplyModel::CallOk => (
                InterpModel { phase: Phase::StartAwaitPos, ..m },
                StepModel::Call { call: OutsideCallModel::HostUpdatePos, required: true },
            ),
            ReplyModel::CallFailed(e) => abort_model(m, e),
            _ => abort_model(m, EngineError::StateUnavailable),
        },
        Phase::StartAwaitPos => match reply {
            ReplyModel::CallOk => (
                InterpModel { phase: Phase::StartAwaitShow, ..m },
                StepModel::Call { call: OutsideCallModel::UiShowWindow, required: false },
            ),
            ReplyModel::CallFailed(e) => abort_model(m, e),
            _ => abort_model(m, EngineError::StateUnavailable),
        },
        Phase::StartAwaitShow => match reply {
            ReplyModel::CallOk | ReplyModel::CallFailed(_) | ReplyModel::BackendUnavailable =>
                advance_next_model(m),
            _ => abort_model(m, EngineError::StateUnavailable),
        },
        Phase::EndAwaitHost => match reply {
            ReplyModel::CallOk => (
                InterpModel { phase: Phase::EndAwaitHide, work: cleared_work(m.work), ..m },
                StepModel::Call { call: OutsideCallModel::UiHideWindow, required: false },
            ),
            ReplyModel::CallFailed(e) => abort_model(m, e),
            _ => abort_model(m, EngineError::StateUnavailable),
        },
        Phase::EndAwaitHide => match reply {
            ReplyModel::CallOk | ReplyModel::CallFailed(_) | ReplyModel::BackendUnavailable => (
                InterpModel { phase: Phase::EndAwaitCands, ..m },
                StepModel::Call {
                    call: OutsideCallModel::UiSetCandidates(Seq::empty()),
                    required: false,
                },
            ),
            _ => abort_model(m, EngineError::StateUnavailable),
        },
        Phase::EndAwaitCands => match reply {
            ReplyModel::CallOk | ReplyModel::CallFailed(_) | ReplyModel::BackendUnavailable => (
                InterpModel { phase: Phase::EndAwaitClear, ..m },
                StepModel::Call { call: OutsideCallModel::BackendClearText, required: false },
            ),
            _ => abort_model(m, EngineError::StateUnavailable),
        },
        Phase::EndAwaitClear => match reply {
            ReplyModel::CallOk | ReplyModel::CallFailed(_) | ReplyModel::BackendUnavailable =>
                advance_next_model(m),
            _ => abort_model(m, EngineError::StateUnavailable),
        },
        Phase::AppendAwaitBackend => match reply {
            ReplyModel::BackendCandidates(c) => {
                let sel = m.work.selection_index;
                if c.wf() && 0 <= sel < c.texts.len() {
                    (
                        InterpModel {
                            phase: Phase::AppendAwaitSetText,
                            work: CompositionModel {
                                candidates: c,
                                corresponding_count: c.corresponding_count[sel],
                                preview: c.texts[sel],
                                suffix: c.sub_texts[sel],
                                raw_hiragana: c.hiragana,
                                ..m.work
                            },
                            ..m
                        },
                        StepModel::Call {
                            call: OutsideCallModel::HostSetText {
                                text: c.texts[sel],
                                sub_text: c.sub_texts[sel],
                            },
                            required: true,
                        },
                    )
                } else {
                    abort_model(m, EngineError::BackendProtocolViolation)
                }
            },
            ReplyModel::BackendUnavailable => {
                let rh = m.work.raw_hiragana + m.pending_text;
                if rh.len() > 0x7fff_ffff {
                    abort_model(m, EngineError::StateUnavailable)
                } else {
                    (
                        InterpModel {
                            phase: Phase::AppendOfflineAwaitSetText,
                            work: CompositionModel {
                                raw_hiragana: rh,
                                preview: rh,
                                suffix: Seq::empty(),
                                corresponding_count: rh.len() as int,
                                ..m.work
                            },
                            ..m
                        },
                        StepModel::Call {
                            call: OutsideCallModel::HostSetText {
                                text: rh,
                                sub_text: Seq::empty(),
                            },
                            required: true,
                        },
                    )
                }
            },
            ReplyModel::CallFailed(e) => abort_model(m, e),
            _ => abort_model(m, EngineError::StateUnavailable),
        },
        Phase::AppendAwaitSetText => match reply {
            ReplyModel::CallOk => (
                InterpModel { phase: Phase::AppendAwaitUiCands, ..m },
                StepModel::Call {
                    call: OutsideCallModel::UiSetCandidates(m.work.candidates.texts),
                    required: false,
                },
            ),
            ReplyModel::CallFailed(e) => abort_model(m, e),
            _ => abort_model(m, EngineError::StateUnavailable),
        },
        Phase::AppendAwaitUiCands => match reply {
            ReplyModel::CallOk | ReplyModel::CallFailed(_) | ReplyModel::BackendUnavailable => (
                InterpModel { phase: Phase::AppendAwaitUiSel, ..m },
                StepModel::Call {
                    call: OutsideCallModel::UiSetSelection(m.work.selection_index),
                    required: false,
                },
            ),
            _ => abort_model(m, EngineError::StateUnavailable),
        },
        Phase::AppendAwaitUiSel => match reply {
            ReplyModel::CallOk | ReplyModel::CallFailed(_) | ReplyModel::BackendUnavailable =>
                advance_next_model(m),
            _ => abort_model(m, EngineError::StateUnavailable),
        },
        Phase::AppendOfflineAwaitSetText => match reply {
            ReplyModel::CallOk => advance_next_model(m),
            ReplyModel::CallFailed(e) => abort_model(m, e),
            _ => abort_model(m, EngineError::StateUnavailable),
        },
        Phase::RemoveAwaitBackend => match reply {
            ReplyModel::BackendCandidates(c) => {
                if !c.wf() {
                    abort_model(m, EngineError::BackendProtocolViolation)
                } else if c.texts.len() == 0 {
                    (
                        InterpModel {
                            phase: Phase::RemoveAwaitSetText,
                            work: CompositionModel {
                                candidates: c,
                                corresponding_count: 0,
                                selection_index: 0,
                                preview: Seq::empty(),
                                suffix: Seq::empty(),
                                raw_hiragana: c.hiragana,
                                raw_input: Seq::empty(),
                                ..m.work
                            },
                            ..m
                        },
                        StepModel::Call {
                            call: OutsideCallModel::HostSetText {
                                text: Seq::empty(),
                                sub_text: Seq::empty(),
                            },
                            required: true,
                        },
                    )
                } else {
                    let sel = m.work.selection_index;
                    if !(0 <= sel < c.texts.len()) {
                        abort_model(m, EngineError::BackendProtocolViolation)
                    } else {
                        let cc = c.corresponding_count[sel];
                        let ri = if cc <= m.work.raw_input.len() {
                            m.work.raw_input.take(cc)
                        } else {
                            m.work.raw_input
                        };
                        (
                            InterpModel {
                                phase: Phase::RemoveAwaitSetText,
                                work: CompositionModel {
                                    candidates: c,
                                    corresponding_count: cc,
                                    preview: c.texts[sel],
                                    suffix: c.sub_texts[sel],
                                    raw_hiragana: c.hiragana,
                                    raw_input: ri,
                                    ..m.work
                                },
                                ..m
                            },
                            StepModel::Call {
                                call: OutsideCallModel::HostSetText {
                                    text: c.texts[sel],
                                    sub_text: c.sub_texts[sel],
                                },
                                required: true,
                            },
                        )
                    }
                }
            },
            ReplyModel::BackendUnavailable => {
                let n = m.work.raw_hiragana.len() as int;
                let rh = if n > 0 {
                    m.work.raw_hiragana.take(n - 1)
                } else {
                    m.work.raw_hiragana
                };
                let k = m.work.raw_input.len() as int;
                let ri = if k > 0 {
                    m.work.raw_input.take(k - 1)
                } else {
                    m.work.raw_input
                };
                if rh.len() > 0x7fff_ffff {
                    abort_model(m, EngineError::StateUnavailable)
                } else {
                    (
                        InterpModel {
                            phase: Phase::RemoveOfflineAwaitSetText,
                            work: CompositionModel {
                                raw_hiragana: rh,
                                raw_input: ri,
                                preview: rh,
                                suffix: Seq::empty(),
                                corresponding_count: rh.len() as int,
                                ..m.work
                            },
                            ..m
                        },
                        StepModel::Call {
                            call: OutsideCallModel::HostSetText {
                                text: rh,
                                sub_text: Seq::empty(),
                            },
                            required: true,
                        },
                    )
                }
            },
            ReplyModel::CallFailed(e) => abort_model(m, e),
            _ => abort_model(m, EngineError::StateUnavailable),
        },
        Phase::RemoveAwaitSetText => match reply {
            ReplyModel::CallOk => (
                InterpModel { phase: Phase::RemoveAwaitUiCands, ..m },
                StepModel::Call {
                    call: OutsideCallModel::UiSetCandidates(m.work.candidates.texts),
                    required: false,
                },
            ),
            ReplyModel::CallFailed(e) => abort_model(m, e),
            _ => abort_model(m, EngineError::StateUnavailable),
        },
        Phase::RemoveAwaitUiCands => match reply {
            ReplyModel::CallOk | ReplyModel::CallFailed(_) | ReplyModel::BackendUnavailable => (
                InterpModel { phase: Phase::RemoveAwaitUiSel, ..m },
                StepModel::Call {
                    call: OutsideCallModel::UiSetSelection(m.work.selection_index),
                    required: false,
                },
            ),
            _ => abort_model(m, EngineError::StateUnavailable),
        },
        Phase::RemoveAwaitUiSel => match reply {
            ReplyModel::CallOk | ReplyModel::CallFailed(_) | ReplyModel::BackendUnavailable =>
                advance_next_model(m),
            _ => abort_model(m, EngineError::StateUnavailable),
        },
        Phase::RemoveOfflineAwaitSetText => match reply {
            ReplyModel::CallOk => advance_next_model(m),
            ReplyModel::CallFailed(e) => abort_model(m, e),
            _ => abort_model(m, EngineError::StateUnavailable),
        },
        Phase::ModeAwaitSet => match reply {
            ReplyModel::CallOk => (
                InterpModel { phase: Phase::ModeAwaitLangBar, ..m },
                StepModel::Call { call: OutsideCallModel::HostUpdateLangBar, required: false },
            ),
            ReplyModel::CallFailed(e) => abort_model(m, e),
            _ => abort_model(m, EngineError::StateUnavailable),
        },
        Phase::ModeAwaitLangBar => match reply {
            ReplyModel::CallOk | ReplyModel::CallFailed(_) | ReplyModel::BackendUnavailable =>
                advance_next_model(m),
            _ => abort_model(m, EngineError::StateUnavailable),
        },
        Phase::SelAwaitUiSel => match reply {
            ReplyModel::CallOk => {
                let sel = m.work.selection_index;
                let c = m.work.candidates;
                if c.wf() && 0 <= sel < c.texts.len() {
                    (
                        InterpModel {
                            phase: Phase::SelAwaitSetText,
                            work: CompositionModel {
                                corresponding_count: c.corresponding_count[sel],
                                preview: c.texts[sel],
                                suffix: c.sub_texts[sel],
                                raw_hiragana: c.hiragana,
                                ..m.work
                            },
                            ..m
                        },
                        StepModel::Call {
                            call: OutsideCallModel::HostSetText {
                                text: c.texts[sel],
                                sub_text: c.sub_texts[sel],
                            },
                            required: true,
                        },
                    )
                } else {
                    abort_model(m, EngineError::StateUnavailable)
                }
            },
            ReplyModel::BackendUnavailable => abort_model(m, EngineError::EndpointUnavailable),
            ReplyModel::CallFailed(e) => abort_model(m, e),
            _ => abort_model(m, EngineError::StateUnavailable),
        },
        Phase::SelAwaitSetText => match reply {
            ReplyModel::CallOk => advance_next_model(m),
            ReplyModel::CallFailed(e) => abort_model(m, e),
            _ => abort_model(m, EngineError::StateUnavailable),
        },
        Phase::ShrinkAwaitShrink => match reply {
            ReplyModel::BackendCandidates(_) => (
                InterpModel { phase: Phase::ShrinkAwaitAppend, ..m },
                StepModel::Call {
                    call: OutsideCallModel::BackendAppendText(m.pending_text),
                    required: true,
                },
            ),
            ReplyModel::BackendUnavailable => abort_model(m, EngineError::EndpointUnavailable),
            ReplyModel::CallFailed(e) => abort_model(m, e),
            _ => abort_model(m, EngineError::StateUnavailable),
        },
        Phase::ShrinkAwaitAppend => match reply {
            ReplyModel::BackendCandidates(c) => {
                if c.wf() && c.texts.len() > 0 {
                    (
                        InterpModel {
                            phase: Phase::ShrinkAwaitShift,
                            work: CompositionModel { selection_index: 0, ..m.work },
                            pending: c,
                            ..m
                        },
                        StepModel::Call {
                            call: OutsideCallModel::HostShiftStart {
                                from: m.work.preview,
                                to: c.texts[0],
                            },
                            required: true,
                        },
                    )
                } else {
                    abort_model(m, EngineError::BackendProtocolViolation)
                }
            },
            ReplyModel::BackendUnavailable => abort_model(m, EngineError::EndpointUnavailable),
            ReplyModel::CallFailed(e) => abort_model(m, e),
            _ => abort_model(m, EngineError::StateUnavailable),
        },
        Phase::ShrinkAwaitShift => match reply {
            ReplyModel::CallOk => {
                let c = m.pending;
                if c.wf() && c.texts.len() > 0 {
                    (
                        InterpModel {
                            phase: Phase::ShrinkAwaitUiCands,
                            work: CompositionModel {
                                candidates: c,
                                corresponding_count: c.corresponding_count[0],
                                preview: c.texts[0],
                                suffix: c.sub_texts[0],
                                raw_hiragana: c.hiragana,
                                ..m.work
                            },
                            pending: CandidatesModel::empty(),
                            ..m
                        },
                        StepModel::Call {
                            call: OutsideCallModel::UiSetCandidates(c.texts),
                            required: true,
                        },
                    )
                } else {
                    abort_model(m, EngineError::StateUnavailable)
                }
            },
            ReplyModel::CallFailed(e) => abort_model(m, e),
            _ => abort_model(m, EngineError::StateUnavailable),
        },
        Phase::ShrinkAwaitUiCands => match reply {
            ReplyModel::CallOk => (
                InterpModel { phase: Phase::ShrinkAwaitUiSel, ..m },
                StepModel::Call { call: OutsideCallModel::UiSetSelection(0), required: true },
            ),
            ReplyModel::BackendUnavailable => abort_model(m, EngineError::EndpointUnavailable),
            ReplyModel::CallFailed(e) => abort_model(m, e),
            _ => abort_model(m, EngineError::StateUnavailable),
        },
        Phase::ShrinkAwaitUiSel => match reply {
            ReplyModel::CallOk => (
                InterpModel { phase: Phase::ShrinkAwaitPos, ..m },
                StepModel::Call { call: OutsideCallModel::HostUpdatePos, required: true },
            ),
            ReplyModel::BackendUnavailable => abort_model(m, EngineError::EndpointUnavailable),
            ReplyModel::CallFailed(e) => abort_model(m, e),
            _ => abort_model(m, EngineError::StateUnavailable),
        },
        Phase::ShrinkAwaitPos => match reply {
            ReplyModel::CallOk => advance_next_model(
                InterpModel { transition: CompositionState::Composing, ..m },
            ),
            ReplyModel::CallFailed(e) => abort_model(m, e),
            _ => abort_model(m, EngineError::StateUnavailable),
        },
        Phase::TypeAwaitSetText => match reply {
            ReplyModel::CallOk => advance_next_model(m),
            ReplyModel::CallFailed(e) => abort_model(m, e),
            _ => abort_model(m, EngineError::StateUnavailable),
        },
        Phase::Finished => abort_model(m, EngineError::StateUnavailable),
    }
}

impl InterpModel {
    /// The phases that run after the current action has already cleared
    /// the record's text fields.
    pub open spec fn in_cleared_tail_phase(self) -> bool {
        ||| self.phase == Phase::EndAwaitHide
        ||| self.phase == Phase::EndAwaitCands
        ||| self.phase == Phase::EndAwaitClear
        ||| self.phase == Phase::ModeAwaitSet
        ||| self.phase == Phase::ModeAwaitLangBar
    }

    /// Each family of phases belongs to one kind of action; the machine
    /// only stands in a family's phase while that kind of action is the
    /// current one.
    pub open spec fn phase_action_ok(self) -> bool {
        &&& (self.phase == Phase::StartAwaitHostStart || self.phase == Phase::StartAwaitPos
            || self.phase == Phase::StartAwaitShow) ==> self.actions[self.idx]
            is StartComposition
        &&& (self.phase == Phase::EndAwaitHost || self.phase == Phase::EndAwaitHide
            || self.phase == Phase::EndAwaitCands || self.phase == Phase::EndAwaitClear)
            ==> self.actions[self.idx] is EndComposition
        &&& (self.phase == Phase::AppendAwaitBackend || self.phase == Phase::AppendAwaitSetText
            || self.phase == Phase::AppendAwaitUiCands || self.phase == Phase::AppendAwaitUiSel
            || self.phase == Phase::AppendOfflineAwaitSetText) ==> self.actions[self.idx]
            is AppendText
        &&& (self.phase == Phase::RemoveAwaitBackend || self.phase == Phase::RemoveAwaitSetText
            || self.phase == Phase::RemoveAwaitUiCands || self.phase == Phase::RemoveAwaitUiSel
            || self.phase == Phase::RemoveOfflineAwaitSetText) ==> self.actions[self.idx]
            is RemoveText
        &&& (self.phase == Phase::ModeAwaitSet || self.phase == Phase::ModeAwaitLangBar)
            ==> self.actions[self.idx] is SetIMEMode
        &&& (self.phase == Phase::SelAwaitUiSel || self.phase == Phase::SelAwaitSetText)
            ==> self.actions[self.idx] is SetSelection
        &&& (self.phase == Phase::ShrinkAwaitShrink || self.phase == Phase::ShrinkAwaitAppend
            || self.phase == Phase::ShrinkAwaitShift || self.phase == Phase::ShrinkAwaitUiCands
            || self.phase == Phase::ShrinkAwaitUiSel || self.phase == Phase::ShrinkAwaitPos)
            ==> self.actions[self.idx] is ShrinkText
        &&& self.phase == Phase::TypeAwaitSetText ==> self.actions[self.idx] is SetTextWithType
    }

    /// The machine invariant: it holds when [`handle_action`] builds the
    /// machine and after every [`ActionInterp::step`].
    pub open spec fn wf(self) -> bool {
        &&& self.work.work_inv()
        &&& 0 <= self.idx <= self.actions.len()
        &&& (self.phase != Phase::Start && self.phase != Phase::Finished) ==> self.idx
            < self.actions.len()
        &&& self.phase_action_ok()
        &&& list_ok(self.actions, self.transition)
        &&& (self.transition == CompositionState::Inactive && self.idx >= self.actions.len())
            ==> fields_cleared(self.work)
        &&& (self.transition == CompositionState::Inactive && self.idx + 1 == self.actions.len()
            && self.in_cleared_tail_phase()) ==> fields_cleared(self.work)
        &&& self.phase == Phase::SelAwaitUiSel ==> self.work.candidates.texts.len() > 0
        &&& self.phase == Phase::ShrinkAwaitShift ==> self.pending.wf() && self.pending.texts.len()
            > 0 && self.work.selection_index == 0
    }
}

/// What [`advance_model`] needs of its input: the working record is
/// sound, the position is in bounds, and a list that may end inactive is
/// either unfinished or already cleared.
pub open spec fn pre_advance(m: InterpModel) -> bool {
    &&& m.work.work_inv()
    &&& 0 <= m.idx <= m.actions.len()
    &&& list_ok(m.actions, m.transition)
    &&& (m.transition == CompositionState::Inactive && m.idx >= m.actions.len())
        ==> fields_cleared(m.work)
}

/// Advancing from a sound position yields a sound machine, and a finished
/// record satisfies the full record invariant.
pub proof fn lemma_advance_model_wf(m: InterpModel)
    requires
        pre_advance(m),
    ensures
        (advance_model(m).0).wf(),
        advance_model(m).1 matches StepModel::Done(u) ==> u.inv(),
    decreases m.actions.len() - m.idx,
{
    if 0 <= m.idx < m.actions.len() {
        match m.actions[m.idx] {
            ClientActionModel::MoveCursor(_) => {
                let m2 = InterpModel { idx: m.idx + 1, ..m };
                assert(pre_advance(m2)) by {
                    if m.transition == CompositionState::Inactive && m2.idx >= m2.actions.len() {
                        assert(m.actions.last() == m.actions[m.idx]);
                    }
                }
                lemma_advance_model_wf(m2);
            },
            _ => {},
        }
    }
}

/// One machine step keeps the machine sound; when it hands the record
/// back, that record satisfies the record invariants — and when it
/// aborts, no record is handed back at all, so the caller keeps the
/// pre-event snapshot unchanged.
pub proof fn lemma_step_model_wf(m: InterpModel, reply: ReplyModel)
    requires
        m.wf(),
    ensures
        (step_model(m, reply).0).wf(),
        step_model(m, reply).1 matches StepModel::Done(u) ==> u.inv(),
{
    let next = InterpModel { idx: m.idx + 1, ..m };
    match m.phase {
        Phase::Start => {
            if reply is Start {
                lemma_advance_model_wf(m);
            }
        },
        Phase::StartAwaitShow | Phase::EndAwaitClear | Phase::AppendAwaitUiSel
            | Phase::RemoveAwaitUiSel | Phase::ModeAwaitLangBar => {
            match reply {
                ReplyModel::CallOk | ReplyModel::CallFailed(_) | ReplyModel::BackendUnavailable => {
                    assert(pre_advance(next)) by {
                        if m.transition == CompositionState::Inactive && next.idx
                            >= next.actions.len() {
                            assert(m.actions.last() == m.actions[m.idx]);
                        }
                    }
                    lemma_advance_model_wf(next);
                },
                _ => {},
            }
        },
        Phase::AppendOfflineAwaitSetText | Phase::RemoveOfflineAwaitSetText
            | Phase::SelAwaitSetText | Phase::TypeAwaitSetText => {
            if reply is CallOk {
                assert(pre_advance(next)) by {
                    if m.transition == CompositionState::Inactive && next.idx
                        >= next.actions.len() {
                        assert(m.actions.last() == m.actions[m.idx]);
                    }
                }
                lemma_advance_model_wf(next);
            }
        },
        Phase::ShrinkAwaitPos => {
            if reply is CallOk {
                let m2 = InterpModel {
                    transition: CompositionState::Composing,
                    idx: m.idx + 1,
                    ..m
                };
                lemma_advance_model_wf(m2);
            }
        },
        _ => {},
    }
}

/// Every action list the state machine emits is fit for
/// [`handle_action`]: a list whose transition ends the composition always
/// ends with an action that clears the record.
pub proof fn lemma_process_key_list_ok(
    comp: CompositionModel,
    mode: InputMode,
    code: usize,
    control_pressed: bool,
    acts: Seq<ClientActionModel>,
    next: CompositionState,
)
    requires
        crate::composition::process_key_model(comp, mode, code, control_pressed) == Some(
            (acts, next),
        ),
    ensures
        list_ok(acts, next),
{
}

/// Every key event can be interpreted: with a sound record, the machine
/// built from the state machine's own output starts sound, and so (by
/// [`ActionInterp::step`]) every record it ever hands back satisfies the
/// record invariant, while an abandoned list hands nothing back — the
/// record changes entirely or not at all.
pub proof fn lemma_key_event_machine_wf(
    comp: CompositionModel,
    mode: InputMode,
    code: usize,
    control_pressed: bool,
    acts: Seq<ClientActionModel>,
    next: CompositionState,
)
    requires
        comp.inv(),
        crate::composition::process_key_model(comp, mode, code, control_pressed) == Some(
            (acts, next),
        ),
    ensures
        begin_model(comp, mode, acts, next).wf(),
{
    lemma_process_key_list_ok(comp, mode, code, control_pressed, acts, next);
}

/// Moving the selection up from the first candidate, or down from the
/// last, leaves the index where it is; in every other case it moves by
/// one and stays in range.
pub proof fn lemma_selection_bounds(current: int, len: int)
    requires
        0 <= current < len,
    ensures
        current == 0 ==> next_selection_model(SetSelectionType::Up, current, len) == current,
        current == len - 1 ==> next_selection_model(SetSelectionType::Down, current, len)
            == current,
        0 <= next_selection_model(SetSelectionType::Up, current, len) < len,
        0 <= next_selection_model(SetSelectionType::Down, current, len) < len,
{
}

/// The machine [`handle_action`] starts with.
pub open spec fn begin_model(
    snapshot: CompositionModel,
    mode: InputMode,
    actions: Seq<ClientActionModel>,
    transition: CompositionState,
) -> InterpModel {
    InterpModel {
        mode,
        actions,
        idx: 0,
        phase: Phase::Start,
        transition,
        work: snapshot,
        pending_text: Seq::empty(),
        pending: CandidatesModel::empty(),
    }
}

/// Whether an action list may be handed to [`handle_action`] with this
/// transition: one that ends the composition must finish with an action
/// that clears the record.
pub fn actions_well_formed(actions: &Vec<ClientAction>, transition: CompositionState) -> (b: bool)
    ensures
        b == list_ok(actions.deep_view(), transition),
{
    match transition {
        CompositionState::Inactive => {
            let n = actions.len();
            if n == 0 {
                return false;
            }
            let r = match &actions[n - 1] {
                ClientAction::EndComposition => true,
                ClientAction::SetIMEMode(_) => true,
                _ => false,
            };
            proof {
                assert(actions.deep_view().last() == actions@[n - 1]@);
            }
            r
        },
        _ => true,
    }
}

/// Begin interpreting one key event's action list against a snapshot of
/// the record. The caller then drives [`ActionInterp::step`], starting
/// with [`Reply::Start`], and writes back the record only when the
/// machine ends in [`Step::Done`].
pub fn handle_action(
    snapshot: Composition,
    mode: InputMode,
    actions: Vec<ClientAction>,
    transition: CompositionState,
) -> (m: ActionInterp)
    requires
        snapshot@.inv(),
        list_ok(actions.deep_view(), transition),
    ensures
        m@ == begin_model(snapshot@, mode, actions.deep_view(), transition),
        m@.wf(),
{
    let m = ActionInterp {
        mode,
        actions,
        idx: 0,
        phase: Phase::Start,
        transition,
        work: snapshot,
        pending_text: String::new(),
        pending: Candidates::empty(),
    };
    m
}

impl ActionInterp {
    fn abort(&mut self, e: EngineError) -> (r: Step)
        ensures
            final(self)@ == abort_model(old(self)@, e).0,
            r@ == abort_model(old(self)@, e).1,
    {
        self.phase = Phase::Finished;
        Step::Aborted(e)
    }

    /// Begin the next action, skipping the reserved cursor moves, or
    /// finish with the record to write back.
    fn advance(&mut self) -> (r: Step)
        requires
            old(self)@.work.work_inv(),
            old(self)@.idx <= old(self)@.actions.len(),
        ensures
            final(self)@ == advance_model(old(self)@).0,
            r@ == advance_model(old(self)@).1,
    {
        loop
            invariant
                self@.work.work_inv(),
                self@.idx <= self@.actions.len(),
                advance_model(self@) == advance_model(old(self)@),
            decreases self@.actions.len() - self@.idx,
        {
            if self.idx >= self.actions.len() {
                self.phase = Phase::Finished;
                let mut record = self.work.duplicate();
                record.state = self.transition;
                return Step::Done(record);
            }
            let is_cursor_move = match &self.actions[self.idx] {
                ClientAction::MoveCursor(_) => true,
                _ => false,
            };
            if is_cursor_move {
                self.idx = self.idx + 1;
                continue;
            }
            match &self.actions[self.idx] {
                ClientAction::StartComposition => {
                    self.phase = Phase::StartAwaitHostStart;
                    return Step::Call {
                        call: OutsideCall::HostStartComposition,
                        required: true,
                    };
                },
                ClientAction::EndComposition => {
                    self.phase = Phase::EndAwaitHost;
                    return Step::Call { call: OutsideCall::HostEndComposition, required: true };
                },
                ClientAction::AppendText(t) => {
                    let shaped = match self.mode {
                        InputMode::Kana => to_fullwidth(t.as_str(), false),
                        InputMode::Latin => t.clone(),
                    };
                    self.work.raw_input.append(t.as_str());
                    self.pending_text = shaped.clone();
                    self.phase = Phase::AppendAwaitBackend;
                    return Step::Call {
                        call: OutsideCall::BackendAppendText(shaped),
                        required: true,
                    };
                },
                ClientAction::RemoveText => {
                    self.phase = Phase::RemoveAwaitBackend;
                    return Step::Call { call: OutsideCall::BackendRemoveText, required: true };
                },
                ClientAction::SetIMEMode(im) => {
                    let im = *im;
                    self.work.preview = String::new();
                    self.work.suffix = String::new();
                    self.work.raw_input = String::new();
                    self.work.raw_hiragana = String::new();
                    self.work.selection_index = 0;
                    self.work.corresponding_count = 0;
                    self.phase = Phase::ModeAwaitSet;
                    return Step::Call { call: OutsideCall::HostSetInputMode(im), required: true };
                },
                ClientAction::SetSelection(st) => {
                    let st = *st;
                    let len_usize = self.work.candidates.texts.len();
                    if len_usize == 0 {
                        return self.abort(EngineError::EndpointUnavailable);
                    }
                    let len = len_usize as i32;
                    let cur = self.work.selection_index;
                    let ni = match st {
                        SetSelectionType::Up => if cur - 1 > 0 {
                            cur - 1
                        } else {
                            0
                        },
                        SetSelectionType::Down => if cur + 1 < len - 1 {
                            cur + 1
                        } else {
                            len - 1
                        },
                        SetSelectionType::Number(k) => k,
                    };
                    if ni < 0 || ni >= len {
                        return self.abort(EngineError::StateUnavailable);
                    }
                    self.work.selection_index = ni;
                    self.phase = Phase::SelAwaitUiSel;
                    return Step::Call { call: OutsideCall::UiSetSelection(ni), required: true };
                },
                ClientAction::ShrinkText(t) => {
                    let shaped = match self.mode {
                        InputMode::Kana => to_fullwidth(t.as_str(), false),
                        InputMode::Latin => t.clone(),
                    };
                    let cc = self.work.corresponding_count;
                    self.work.raw_input.append(t.as_str());
                    self.work.raw_input = skip_chars(self.work.raw_input.as_str(), cc as usize);
                    self.pending_text = shaped;
                    self.phase = Phase::ShrinkAwaitShrink;
                    return Step::Call {
                        call: OutsideCall::BackendShrinkText(cc),
                        required: true,
                    };
                },
                ClientAction::SetTextWithType(k) => {
                    let text = match k {
                        SetTextType::Hiragana => self.work.raw_hiragana.clone(),
                        SetTextType::Katakana => to_katakana(self.work.raw_hiragana.as_str()),
                        SetTextType::HalfKatakana => to_half_katakana(
                            self.work.raw_hiragana.as_str(),
                        ),
                        SetTextType::FullLatin => to_fullwidth(self.work.raw_input.as_str(), true),
                        SetTextType::HalfLatin => to_halfwidth(self.work.raw_input.as_str()),
                    };
                    self.phase = Phase::TypeAwaitSetText;
                    return Step::Call {
                        call: OutsideCall::HostSetText { text, sub_text: String::new() },
                        required: true,
                    };
                },
                ClientAction::MoveCursor(_) => {
                    // consumed by the skip above; a defensive abort keeps this arm total
                    return self.abort(EngineError::StateUnavailable);
                },
            }
        }
    }

    /// The current action is done: move past it and advance.
    fn advance_next(&mut self) -> (r: Step)
        requires
            old(self)@.work.work_inv(),
            old(self)@.idx < old(self)@.actions.len(),
        ensures
            final(self)@ == advance_next_model(old(self)@).0,
            r@ == advance_next_model(old(self)@).1,
    {
        let n = self.actions.len();
        proof {
            assert(self@.actions.len() == n);
        }
        self.idx = self.idx + 1;
        self.advance()
    }

    /// One turn of the conversation: consume the outcome of the previous
    /// call and answer with the next step; see the module description.
    /// When the machine answers [`Step::Done`], the record it carries
    /// satisfies the record invariant; when it answers [`Step::Aborted`],
    /// the caller keeps the pre-event record, so each key event changes
    /// the record entirely or not at all.
    pub fn step(&mut self, reply: Reply) -> (r: Step)
        requires
            old(self)@.wf(),
        ensures
            final(self)@ == step_model(old(self)@, reply@).0,
            r@ == step_model(old(self)@, reply@).1,
            final(self)@.wf(),
            r@ matches StepModel::Done(u) ==> u.inv(),
    {
        proof {
            lemma_step_model_wf(old(self)@, reply@);
        }
        self.step_inner(reply)
    }

    fn step_inner(&mut self, reply: Reply) -> (r: Step)
        requires
            old(self)@.wf(),
        ensures
            final(self)@ == step_model(old(self)@, reply@).0,
            r@ == step_model(old(self)@, reply@).1,
    {
        match self.phase {
            Phase::Start | Phase::StartAwaitHostStart | Phase::StartAwaitPos
                | Phase::StartAwaitShow => self.step_start(reply),
            Phase::EndAwaitHost | Phase::EndAwaitHide | Phase::EndAwaitCands
                | Phase::EndAwaitClear => self.step_end(reply),
            Phase::AppendAwaitBackend | Phase::AppendAwaitSetText | Phase::AppendAwaitUiCands
                | Phase::AppendAwaitUiSel | Phase::AppendOfflineAwaitSetText => self.step_append(
                reply,
            ),
            Phase::RemoveAwaitBackend | Phase::RemoveAwaitSetText | Phase::RemoveAwaitUiCands
                | Phase::RemoveAwaitUiSel | Phase::RemoveOfflineAwaitSetText => self.step_remove(
                reply,
            ),
            Phase::ModeAwaitSet | Phase::ModeAwaitLangBar => self.step_mode(reply),
            Phase::SelAwaitUiSel | Phase::SelAwaitSetText => self.step_selection(reply),
            Phase::ShrinkAwaitShrink | Phase::ShrinkAwaitAppend | Phase::ShrinkAwaitShift
                | Phase::ShrinkAwaitUiCands | Phase::ShrinkAwaitUiSel
                | Phase::ShrinkAwaitPos => self.step_shrink(reply),
            Phase::TypeAwaitSetText => self.step_settext(reply),
            Phase::Finished => self.abort(EngineError::StateUnavailable),
        }
    }

    /// The start-composition action: host start, caret position, then the
    /// optional window show.
    fn step_start(&mut self, reply: Reply) -> (r: Step)
        requires
            old(self)@.wf(),
            old(self)@.phase == Phase::Start
                || old(self)@.phase == Phase::StartAwaitHostStart
                || old(self)@.phase == Phase::StartAwaitPos
                || old(self)@.phase == Phase::StartAwaitShow,
        ensures
            final(self)@ == step_model(old(self)@, reply@).0,
            r@ == step_model(old(self)@, reply@).1,
    {
        match self.phase {
            Phase::Start => match reply {
                Reply::Start => self.advance(),
                _ => self.abort(EngineError::StateUnavailable),
            },
            Phase::StartAwaitHostStart => match reply {
                Reply::CallOk => {
                    self.phase = Phase::StartAwaitPos;
                    Step::Call { call: OutsideCall::HostUpdatePos, required: true }
                },
                Reply::CallFailed(e) => self.abort(e),
                _ => self.abort(EngineError::StateUnavailable),
            },
            Phase::StartAwaitPos => match reply {
                Reply::CallOk => {
                    self.phase = Phase::StartAwaitShow;
                    Step::Call { call: OutsideCall::UiShowWindow, required: false }
                },
                Reply::CallFailed(e) => self.abort(e),
                _ => self.abort(EngineError::StateUnavailable),
            },
            Phase::StartAwaitShow => match reply {
                Reply::CallOk | Reply::CallFailed(_) | Reply::BackendUnavailable =>
                    self.advance_next(),
                _ => self.abort(EngineError::StateUnavailable),
            },
            _ => self.abort(EngineError::StateUnavailable),
        }
    }

    /// The end-composition action: the host commit, the field clearing, and
    /// three optional cleanup calls.
    fn step_end(&mut self, reply: Reply) -> (r: Step)
        requires
            old(self)@.wf(),
            old(self)@.phase == Phase::EndAwaitHost
                || old(self)@.phase == Phase::EndAwaitHide
                || old(self)@.phase == Phase::EndAwaitCands
                || old(self)@.phase == Phase::EndAwaitClear,
        ensures
            final(self)@ == step_model(old(self)@, reply@).0,
            r@ == step_model(old(self)@, reply@).1,
    {
        match self.phase {
            Phase::EndAwaitHost => match reply {
                Reply::CallOk => {
                    self.work.preview = String::new();
                    self.work.suffix = String::new();
                    self.work.raw_input = String::new();
                    self.work.raw_hiragana = String::new();
                    self.work.selection_index = 0;
                    self.work.corresponding_count = 0;
                    self.phase = Phase::EndAwaitHide;
                    Step::Call { call: OutsideCall::UiHideWindow, required: false }
                },
                Reply::CallFailed(e) => self.abort(e),
                _ => self.abort(EngineError::StateUnavailable),
            },
            Phase::EndAwaitHide => match reply {
                Reply::CallOk | Reply::CallFailed(_) | Reply::BackendUnavailable => {
                    self.phase = Phase::EndAwaitCands;
                    let empty: Vec<String> = Vec::new();
                    proof {
                        assert(empty.deep_view() =~= Seq::<Seq<char>>::empty());
                    }
                    Step::Call { call: OutsideCall::UiSetCandidates(empty), required: false }
                },
                _ => self.abort(EngineError::StateUnavailable),
            },
            Phase::EndAwaitCands => match reply {
                Reply::CallOk | Reply::CallFailed(_) | Reply::BackendUnavailable => {
                    self.phase = Phase::EndAwaitClear;
                    Step::Call { call: OutsideCall::BackendClearText, required: false }
                },
                _ => self.abort(EngineError::StateUnavailable),
            },
            Phase::EndAwaitClear => match reply {
                Reply::CallOk | Reply::CallFailed(_) | Reply::BackendUnavailable =>
                    self.advance_next(),
                _ => self.abort(EngineError::StateUnavailable),
            },
            _ => self.abort(EngineError::StateUnavailable),
        }
    }

    /// The append action: the backend conversion, the host text update, and
    /// the optional window updates; without a backend, the offline path.
    fn step_append(&mut self, reply: Reply) -> (r: Step)
        requires
            old(self)@.wf(),
            old(self)@.phase == Phase::AppendAwaitBackend
                || old(self)@.phase == Phase::AppendAwaitSetText
                || old(self)@.phase == Phase::AppendAwaitUiCands
                || old(self)@.phase == Phase::AppendAwaitUiSel
                || old(self)@.phase == Phase::AppendOfflineAwaitSetText,
        ensures
            final(self)@ == step_model(old(self)@, reply@).0,
            r@ == step_model(old(self)@, reply@).1,
    {
        match self.phase {
            Phase::AppendAwaitBackend => match reply {
                Reply::BackendCandidates(c) => {
                    let sel = self.work.selection_index;
                    if c.well_formed() && sel >= 0 && (sel as usize) < c.texts.len() {
                        let sel_u = sel as usize;
                        let text = c.texts[sel_u].clone();
                        let sub_text = c.sub_texts[sel_u].clone();
                        self.work.corresponding_count = c.corresponding_count[sel_u];
                        self.work.preview = text.clone();
                        self.work.suffix = sub_text.clone();
                        self.work.raw_hiragana = c.hiragana.clone();
                        self.work.candidates = c;
                        self.phase = Phase::AppendAwaitSetText;
                        Step::Call {
                            call: OutsideCall::HostSetText { text, sub_text },
                            required: true,
                        }
                    } else {
                        self.abort(EngineError::BackendProtocolViolation)
                    }
                },
                Reply::BackendUnavailable => {
                    let a = self.work.raw_hiragana.as_str().unicode_len();
                    let b = self.pending_text.as_str().unicode_len();
                    if a > 0x7fff_ffff || b > 0x7fff_ffff - a {
                        return self.abort(EngineError::StateUnavailable);
                    }
                    self.work.raw_hiragana.append(self.pending_text.as_str());
                    let n = a + b;
                    self.work.preview = self.work.raw_hiragana.clone();
                    self.work.suffix = String::new();
                    self.work.corresponding_count = n as i32;
                    self.phase = Phase::AppendOfflineAwaitSetText;
                    Step::Call {
                        call: OutsideCall::HostSetText {
                            text: self.work.raw_hiragana.clone(),
                            sub_text: String::new(),
                        },
                        required: true,
                    }
                },
                Reply::CallFailed(e) => self.abort(e),
                _ => self.abort(EngineError::StateUnavailable),
            },
            Phase::AppendAwaitSetText => match reply {
                Reply::CallOk => {
                    self.phase = Phase::AppendAwaitUiCands;
                    Step::Call {
                        call: OutsideCall::UiSetCandidates(
                            clone_string_vec(&self.work.candidates.texts),
                        ),
                        required: false,
                    }
                },
                Reply::CallFailed(e) => self.abort(e),
                _ => self.abort(EngineError::StateUnavailable),
            },
            Phase::AppendAwaitUiCands => match reply {
                Reply::CallOk | Reply::CallFailed(_) | Reply::BackendUnavailable => {
                    self.phase = Phase::AppendAwaitUiSel;
                    Step::Call {
                        call: OutsideCall::UiSetSelection(self.work.selection_index),
                        required: false,
                    }
                },
                _ => self.abort(EngineError::StateUnavailable),
            },
            Phase::AppendAwaitUiSel => match reply {
                Reply::CallOk | Reply::CallFailed(_) | Reply::BackendUnavailable =>
                    self.advance_next(),
                _ => self.abort(EngineError::StateUnavailable),
            },
            Phase::AppendOfflineAwaitSetText => match reply {
                Reply::CallOk => self.advance_next(),
                Reply::CallFailed(e) => self.abort(e),
                _ => self.abort(EngineError::StateUnavailable),
            },
            _ => self.abort(EngineError::StateUnavailable),
        }
    }

    /// The remove action: the backend removal, the reprojection, and the
    /// optional window updates; without a backend, the local removal.
    fn step_remove(&mut self, reply: Reply) -> (r: Step)
        requires
            old(self)@.wf(),
            old(self)@.phase == Phase::RemoveAwaitBackend
                || old(self)@.phase == Phase::RemoveAwaitSetText
                || old(self)@.phase == Phase::RemoveAwaitUiCands
                || old(self)@.phase == Phase::RemoveAwaitUiSel
                || old(self)@.phase == Phase::RemoveOfflineAwaitSetText,
        ensures
            final(self)@ == step_model(old(self)@, reply@).0,
            r@ == step_model(old(self)@, reply@).1,
    {
        match self.phase {
            Phase::RemoveAwaitBackend => match reply {
                Reply::BackendCandidates(c) => {
                    if !c.well_formed() {
                        return self.abort(EngineError::BackendProtocolViolation);
                    }
                    if c.texts.len() == 0 {
                        self.work.corresponding_count = 0;
                        self.work.selection_index = 0;
                        self.work.preview = String::new();
                        self.work.suffix = String::new();
                        self.work.raw_input = String::new();
                        self.work.raw_hiragana = c.hiragana.clone();
                        self.work.candidates = c;
                        self.phase = Phase::RemoveAwaitSetText;
                        Step::Call {
                            call: OutsideCall::HostSetText {
                                text: String::new(),
                                sub_text: String::new(),
                            },
                            required: true,
                        }
                    } else {
                        let sel = self.work.selection_index;
                        if !(sel >= 0 && (sel as usize) < c.texts.len()) {
                            return self.abort(EngineError::BackendProtocolViolation);
                        }
                        let sel_u = sel as usize;
                        let text = c.texts[sel_u].clone();
                        let sub_text = c.sub_texts[sel_u].clone();
                        let cc = c.corresponding_count[sel_u];
                        self.work.raw_input = take_chars(
                            self.work.raw_input.as_str(),
                            cc as usize,
                        );
                        self.work.corresponding_count = cc;
                        self.work.preview = text.clone();
                        self.work.suffix = sub_text.clone();
                        self.work.raw_hiragana = c.hiragana.clone();
                        self.work.candidates = c;
                        self.phase = Phase::RemoveAwaitSetText;
                        Step::Call {
                            call: OutsideCall::HostSetText { text, sub_text },
                            required: true,
                        }
                    }
                },
                Reply::BackendUnavailable => {
                    let n = self.work.raw_hiragana.as_str().unicode_len();
                    if n > 0 && n - 1 > 0x7fff_ffff {
                        return self.abort(EngineError::StateUnavailable);
                    }
                    if n > 0 {
                        self.work.raw_hiragana = take_chars(
                            self.work.raw_hiragana.as_str(),
                            n - 1,
                        );
                    }
                    let k = self.work.raw_input.as_str().unicode_len();
                    if k > 0 {
                        self.work.raw_input = take_chars(self.work.raw_input.as_str(), k - 1);
                    }
                    let n2 = if n > 0 {
                        n - 1
                    } else {
                        0
                    };
                    self.work.preview = self.work.raw_hiragana.clone();
                    self.work.suffix = String::new();
                    self.work.corresponding_count = n2 as i32;
                    self.phase = Phase::RemoveOfflineAwaitSetText;
                    Step::Call {
                        call: OutsideCall::HostSetText {
                            text: self.work.raw_hiragana.clone(),
                            sub_text: String::new(),
                        },
                        required: true,
                    }
                },
                Reply::CallFailed(e) => self.abort(e),
                _ => self.abort(EngineError::StateUnavailable),
            },
            Phase::RemoveAwaitSetText => match reply {
                Reply::CallOk => {
                    self.phase = Phase::RemoveAwaitUiCands;
                    Step::Call {
                        call: OutsideCall::UiSetCandidates(
                            clone_string_vec(&self.work.candidates.texts),
                        ),
                        required: false,
                    }
                },
                Reply::CallFailed(e) => self.abort(e),
                _ => self.abort(EngineError::StateUnavailable),
            },
            Phase::RemoveAwaitUiCands => match reply {
                Reply::CallOk | Reply::CallFailed(_) | Reply::BackendUnavailable => {
                    self.phase = Phase::RemoveAwaitUiSel;
                    Step::Call {
                        call: OutsideCall::UiSetSelection(self.work.selection_index),
                        required: false,
                    }
                },
                _ => self.abort(EngineError::StateUnavailable),
            },
            Phase::RemoveAwaitUiSel => match reply {
                Reply::CallOk | Reply::CallFailed(_) | Reply::BackendUnavailable =>
                    self.advance_next(),
                _ => self.abort(EngineError::StateUnavailable),
            },
            Phase::RemoveOfflineAwaitSetText => match reply {
                Reply::CallOk => self.advance_next(),
                Reply::CallFailed(e) => self.abort(e),
                _ => self.abort(EngineError::StateUnavailable),
            },
            _ => self.abort(EngineError::StateUnavailable),
        }
    }

    /// The mode-switch action: install the mode, then the optional
    /// language-bar refresh.
    fn step_mode(&mut self, reply: Reply) -> (r: Step)
        requires
            old(self)@.wf(),
            old(self)@.phase == Phase::ModeAwaitSet
                || old(self)@.phase == Phase::ModeAwaitLangBar,
        ensures
            final(self)@ == step_model(old(self)@, reply@).0,
            r@ == step_model(old(self)@, reply@).1,
    {
        match self.phase {
            Phase::ModeAwaitSet => match reply {
                Reply::CallOk => {
                    self.phase = Phase::ModeAwaitLangBar;
                    Step::Call { call: OutsideCall::HostUpdateLangBar, required: false }
                },
                Reply::CallFailed(e) => self.abort(e),
                _ => self.abort(EngineError::StateUnavailable),
            },
            Phase::ModeAwaitLangBar => match reply {
                Reply::CallOk | Reply::CallFailed(_) | Reply::BackendUnavailable =>
                    self.advance_next(),
                _ => self.abort(EngineError::StateUnavailable),
            },
            _ => self.abort(EngineError::StateUnavailable),
        }
    }

    /// The selection action: the required window selection, then the
    /// reprojection onto the chosen candidate.
    fn step_selection(&mut self, reply: Reply) -> (r: Step)
        requires
            old(self)@.wf(),
            old(self)@.phase == Phase::SelAwaitUiSel
                || old(self)@.phase == Phase::SelAwaitSetText,
        ensures
            final(self)@ == step_model(old(self)@, reply@).0,
            r@ == step_model(old(self)@, reply@).1,
    {
        match self.phase {
            Phase::SelAwaitUiSel => match reply {
                Reply::CallOk => {
                    let sel = self.work.selection_index;
                    if self.work.candidates.well_formed() && sel >= 0 && (sel as usize)
                        < self.work.candidates.texts.len() {
                        let sel_u = sel as usize;
                        let text = self.work.candidates.texts[sel_u].clone();
                        let sub_text = self.work.candidates.sub_texts[sel_u].clone();
                        self.work.corresponding_count =
                            self.work.candidates.corresponding_count[sel_u];
                        self.work.preview = text.clone();
                        self.work.suffix = sub_text.clone();
                        self.work.raw_hiragana = self.work.candidates.hiragana.clone();
                        self.phase = Phase::SelAwaitSetText;
                        Step::Call {
                            call: OutsideCall::HostSetText { text, sub_text },
                            required: true,
                        }
                    } else {
                        self.abort(EngineError::StateUnavailable)
                    }
                },
                Reply::BackendUnavailable => self.abort(EngineError::EndpointUnavailable),
                Reply::CallFailed(e) => self.abort(e),
                _ => self.abort(EngineError::StateUnavailable),
            },
            Phase::SelAwaitSetText => match reply {
                Reply::CallOk => self.advance_next(),
                Reply::CallFailed(e) => self.abort(e),
                _ => self.abort(EngineError::StateUnavailable),
            },
            _ => self.abort(EngineError::StateUnavailable),
        }
    }

    /// The shrink action: commit the prefix, convert the rest, anchor the
    /// host segment, and push the fresh candidates.
    fn step_shrink(&mut self, reply: Reply) -> (r: Step)
        requires
            old(self)@.wf(),
            old(self)@.phase == Phase::ShrinkAwaitShrink
                || old(self)@.phase == Phase::ShrinkAwaitAppend
                || old(self)@.phase == Phase::ShrinkAwaitShift
                || old(self)@.phase == Phase::ShrinkAwaitUiCands
                || old(self)@.phase == Phase::ShrinkAwaitUiSel
                || old(self)@.phase == Phase::ShrinkAwaitPos,
        ensures
            final(self)@ == step_model(old(self)@, reply@).0,
            r@ == step_model(old(self)@, reply@).1,
    {
        match self.phase {
            Phase::ShrinkAwaitShrink => match reply {
                Reply::BackendCandidates(_) => {
                    self.phase = Phase::ShrinkAwaitAppend;
                    Step::Call {
                        call: OutsideCall::BackendAppendText(self.pending_text.clone()),
                        required: true,
                    }
                },
                Reply::BackendUnavailable => self.abort(EngineError::EndpointUnavailable),
                Reply::CallFailed(e) => self.abort(e),
                _ => self.abort(EngineError::StateUnavailable),
            },
            Phase::ShrinkAwaitAppend => match reply {
                Reply::BackendCandidates(c) => {
                    if c.well_formed() && c.texts.len() > 0 {
                        let to = c.texts[0].clone();
                        let from = self.work.preview.clone();
                        self.work.selection_index = 0;
                        self.pending = c;
                        self.phase = Phase::ShrinkAwaitShift;
                        Step::Call {
                            call: OutsideCall::HostShiftStart { from, to },
                            required: true,
                        }
                    } else {
                        self.abort(EngineError::BackendProtocolViolation)
                    }
                },
                Reply::BackendUnavailable => self.abort(EngineError::EndpointUnavailable),
                Reply::CallFailed(e) => self.abort(e),
                _ => self.abort(EngineError::StateUnavailable),
            },
            Phase::ShrinkAwaitShift => match reply {
                Reply::CallOk => {
                    if self.pending.well_formed() && self.pending.texts.len() > 0 {
                        let texts_copy = clone_string_vec(&self.pending.texts);
                        self.work.corresponding_count = self.pending.corresponding_count[0];
                        self.work.preview = self.pending.texts[0].clone();
                        self.work.suffix = self.pending.sub_texts[0].clone();
                        self.work.raw_hiragana = self.pending.hiragana.clone();
                        let c = self.pending.duplicate();
                        self.pending = Candidates::empty();
                        self.work.candidates = c;
                        self.phase = Phase::ShrinkAwaitUiCands;
                        Step::Call {
                            call: OutsideCall::UiSetCandidates(texts_copy),
                            required: true,
                        }
                    } else {
                        self.abort(EngineError::StateUnavailable)
                    }
                },
                Reply::CallFailed(e) => self.abort(e),
                _ => self.abort(EngineError::StateUnavailable),
            },
            Phase::ShrinkAwaitUiCands => match reply {
                Reply::CallOk => {
                    self.phase = Phase::ShrinkAwaitUiSel;
                    Step::Call { call: OutsideCall::UiSetSelection(0), required: true }
                },
                Reply::BackendUnavailable => self.abort(EngineError::EndpointUnavailable),
                Reply::CallFailed(e) => self.abort(e),
                _ => self.abort(EngineError::StateUnavailable),
            },
            Phase::ShrinkAwaitUiSel => match reply {
                Reply::CallOk => {
                    self.phase = Phase::ShrinkAwaitPos;
                    Step::Call { call: OutsideCall::HostUpdatePos, required: true }
                },
                Reply::BackendUnavailable => self.abort(EngineError::EndpointUnavailable),
                Reply::CallFailed(e) => self.abort(e),
                _ => self.abort(EngineError::StateUnavailable),
            },
            Phase::ShrinkAwaitPos => match reply {
                Reply::CallOk => {
                    self.transition = CompositionState::Composing;
                    self.advance_next()
                },
                Reply::CallFailed(e) => self.abort(e),
                _ => self.abort(EngineError::StateUnavailable),
            },
            _ => self.abort(EngineError::StateUnavailable),
        }
    }

    /// The forced-form action: one host text update.
    fn step_settext(&mut self, reply: Reply) -> (r: Step)
        requires
            old(self)@.wf(),
            old(self)@.phase == Phase::TypeAwaitSetText,
        ensures
            final(self)@ == step_model(old(self)@, reply@).0,
            r@ == step_model(old(self)@, reply@).1,
    {
        match self.phase {
            Phase::TypeAwaitSetText => match reply {
                Reply::CallOk => self.advance_next(),
                Reply::CallFailed(e) => self.abort(e),
                _ => self.abort(EngineError::StateUnavailable),
            },
            _ => self.abort(EngineError::StateUnavailable),
        }
    }
}

} // verus!
