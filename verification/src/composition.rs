//! The composition record and the keystroke state machine.
//!
//! The record holds everything the engine knows about the text being
//! composed. The state machine is a pure function from the record, the
//! input mode and one decoded key to a sequence of client actions and the
//! next state; a key the machine does not consume yields `None` so the
//! host can pass it on to the application.

use vstd::prelude::*;

use crate::chars::char_to_string;
use crate::client_action::ClientAction;
use crate::client_action::ClientActionModel;
use crate::client_action::SetSelectionType;
use crate::client_action::SetTextType;
use crate::input_mode::InputMode;
use crate::ipc_service::Candidates;
use crate::ipc_service::CandidatesModel;
use crate::user_action::Function;
use crate::user_action::Navigation;
use crate::user_action::UserAction;
use crate::user_action::decode_key;

verus! {

/// Where the engine stands. `Selecting` is reserved and never entered.
#[derive(Clone, Copy, Debug, PartialEq, Eq, Structural)]
pub enum CompositionState {
    Inactive,
    Composing,
    Previewing,
    Selecting,
}

/// The in-memory record of one composition.
#[derive(Clone, Debug, PartialEq)]
pub struct Composition {
    /// The converted text shown with the composition underline.
    pub preview: String,
    /// The tail of the composed hiragana not yet covered by the preview.
    pub suffix: String,
    /// What the user has typed, after mode shaping, before conversion.
    pub raw_input: String,
    /// The canonical hiragana reading returned by the backend.
    pub raw_hiragana: String,
    /// How many leading hiragana characters the preview corresponds to.
    pub corresponding_count: i32,
    /// The zero-based index of the selected candidate.
    pub selection_index: i32,
    /// The candidate set of the most recent backend reply.
    pub candidates: Candidates,
    pub state: CompositionState,
}

/// The mathematical shape of a composition record.
pub ghost struct CompositionModel {
    pub preview: Seq<char>,
    pub suffix: Seq<char>,
    pub raw_input: Seq<char>,
    pub raw_hiragana: Seq<char>,
    pub corresponding_count: int,
    pub selection_index: int,
    pub candidates: CandidatesModel,
    pub state: CompositionState,
}

impl View for Composition {
    type V = CompositionModel;

    open spec fn view(&self) -> CompositionModel {
        CompositionModel {
            preview: self.preview@,
            suffix: self.suffix@,
            raw_input: self.raw_input@,
            raw_hiragana: self.raw_hiragana@,
            corresponding_count: self.corresponding_count as int,
            selection_index: self.selection_index as int,
            candidates: self.candidates@,
            state: self.state,
        }
    }
}

impl CompositionModel {
    pub open spec fn empty() -> CompositionModel {
        CompositionModel {
            preview: Seq::empty(),
            suffix: Seq::empty(),
            raw_input: Seq::empty(),
            raw_hiragana: Seq::empty(),
            corresponding_count: 0,
            selection_index: 0,
            candidates: CandidatesModel::empty(),
            state: CompositionState::Inactive,
        }
    }

    /// The parts of the record invariant that hold at every moment, even
    /// in the middle of an action list: the selected index is in range
    /// whenever candidates are present and zero otherwise; the
    /// corresponding count never exceeds the hiragana reading; and the
    /// candidate set itself is trustworthy.
    pub open spec fn work_inv(self) -> bool {
        &&& if self.candidates.texts.len() > 0 {
            0 <= self.selection_index < self.candidates.texts.len()
        } else {
            self.selection_index == 0
        }
        &&& 0 <= self.corresponding_count <= self.raw_hiragana.len()
        &&& self.candidates.wf()
    }

    /// The record invariant, re-established after every key event:
    /// without a composition every text field is cleared, and the working
    /// invariant [`CompositionModel::work_inv`] holds.
    pub open spec fn inv(self) -> bool {
        &&& self.state == CompositionState::Inactive ==> {
            &&& self.preview.len() == 0
            &&& self.suffix.len() == 0
            &&& self.raw_input.len() == 0
            &&& self.raw_hiragana.len() == 0
            &&& self.selection_index == 0
            &&& self.corresponding_count == 0
        }
        &&& self.work_inv()
    }
}

impl Composition {
    /// The empty record a fresh service instance starts with.
    pub fn new() -> (r: Composition)
        ensures
            r@ == CompositionModel::empty(),
            r@.inv(),
    {
        Composition {
            preview: String::new(),
            suffix: String::new(),
            raw_input: String::new(),
            raw_hiragana: String::new(),
            corresponding_count: 0,
            selection_index: 0,
            candidates: Candidates::empty(),
            state: CompositionState::Inactive,
        }
    }
}

impl Composition {
    /// A copy of this record, equal in the model.
    pub fn duplicate(&self) -> (r: Composition)
        ensures
            r@ == self@,
    {
        Composition {
            preview: self.preview.clone(),
            suffix: self.suffix.clone(),
            raw_input: self.raw_input.clone(),
            raw_hiragana: self.raw_hiragana.clone(),
            corresponding_count: self.corresponding_count,
            selection_index: self.selection_index,
            candidates: self.candidates.duplicate(),
            state: self.state,
        }
    }
}

impl Default for Composition {
    /// The empty record.
    fn default() -> (r: Composition)
        ensures
            r@ == CompositionModel::empty(),
            r@.inv(),
    {
        Composition::new()
    }
}

/// The transition table, identical for Composing and Previewing except
/// that typed characters append in the former and shrink-and-restart in
/// the latter.
pub open spec fn transition_model(
    comp: CompositionModel,
    mode: InputMode,
    action: UserAction,
) -> Option<(Seq<ClientActionModel>, CompositionState)> {
    match comp.state {
        CompositionState::Inactive => match action {
            UserAction::Input(c) => if mode == InputMode::Kana {
                Some(
                    (
                        seq![
                            ClientActionModel::StartComposition,
                            ClientActionModel::AppendText(seq![c]),
                        ],
                        CompositionState::Composing,
                    ),
                )
            } else {
                None
            },
            UserAction::Number(c) => if mode == InputMode::Kana {
                Some(
                    (
                        seq![
                            ClientActionModel::StartComposition,
                            ClientActionModel::AppendText(seq![c]),
                        ],
                        CompositionState::Composing,
                    ),
                )
            } else {
                None
            },
            UserAction::ToggleInputMode => Some(
                (
                    seq![ClientActionModel::SetIMEMode(mode.toggled_spec())],
                    CompositionState::Inactive,
                ),
            ),
            _ => None,
        },
        CompositionState::Composing | CompositionState::Previewing => match action {
            UserAction::Input(c) => if comp.state == CompositionState::Composing {
                Some((seq![ClientActionModel::AppendText(seq![c])], CompositionState::Composing))
            } else {
                Some((seq![ClientActionModel::ShrinkText(seq![c])], CompositionState::Composing))
            },
            UserAction::Number(c) => if comp.state == CompositionState::Composing {
                Some((seq![ClientActionModel::AppendText(seq![c])], CompositionState::Composing))
            } else {
                Some((seq![ClientActionModel::ShrinkText(seq![c])], CompositionState::Composing))
            },
            UserAction::Backspace => if comp.preview.len() == 1 {
                Some(
                    (
                        seq![ClientActionModel::RemoveText, ClientActionModel::EndComposition],
                        CompositionState::Inactive,
                    ),
                )
            } else {
                Some((seq![ClientActionModel::RemoveText], CompositionState::Composing))
            },
            UserAction::Enter => if comp.suffix.len() == 0 {
                Some((seq![ClientActionModel::EndComposition], CompositionState::Inactive))
            } else {
                Some(
                    (
                        seq![ClientActionModel::ShrinkText(Seq::empty())],
                        CompositionState::Composing,
                    ),
                )
            },
            UserAction::Escape => Some(
                (
                    seq![ClientActionModel::RemoveText, ClientActionModel::EndComposition],
                    CompositionState::Inactive,
                ),
            ),
            UserAction::Navigation(d) => match d {
                Navigation::Right => Some(
                    (seq![ClientActionModel::MoveCursor(1)], CompositionState::Composing),
                ),
                Navigation::Left => Some(
                    (seq![ClientActionModel::MoveCursor(-1)], CompositionState::Composing),
                ),
                Navigation::Up => Some(
                    (
                        seq![ClientActionModel::SetSelection(SetSelectionType::Up)],
                        CompositionState::Previewing,
                    ),
                ),
                Navigation::Down => Some(
                    (
                        seq![ClientActionModel::SetSelection(SetSelectionType::Down)],
                        CompositionState::Previewing,
                    ),
                ),
            },
            UserAction::ToggleInputMode => Some(
                (
                    seq![
                        ClientActionModel::EndComposition,
                        ClientActionModel::SetIMEMode(InputMode::Latin),
                    ],
                    CompositionState::Inactive,
                ),
            ),
            UserAction::Space => Some(
                (
                    seq![ClientActionModel::SetSelection(SetSelectionType::Down)],
                    CompositionState::Previewing,
                ),
            ),
            UserAction::Tab => Some(
                (
                    seq![ClientActionModel::SetSelection(SetSelectionType::Down)],
                    CompositionState::Previewing,
                ),
            ),
            UserAction::Function(k) => {
                let t = match k {
                    Function::Six => SetTextType::Hiragana,
                    Function::Seven => SetTextType::Katakana,
                    Function::Eight => SetTextType::HalfKatakana,
                    Function::Nine => SetTextType::FullLatin,
                    Function::Ten => SetTextType::HalfLatin,
                };
                Some(
                    (seq![ClientActionModel::SetTextWithType(t)], CompositionState::Previewing),
                )
            },
            _ => None,
        },
        CompositionState::Selecting => None,
    }
}

/// What one key event does: the two reserved mode-switch codes are
/// consumed before anything else, a held control key hands the event back
/// to the host, and otherwise the decoded action goes through the
/// transition table.
pub open spec fn process_key_model(
    comp: CompositionModel,
    mode: InputMode,
    code: usize,
    control_pressed: bool,
) -> Option<(Seq<ClientActionModel>, CompositionState)> {
    if code == 0x97 {
        Some(
            (
                seq![ClientActionModel::SetIMEMode(InputMode::Latin)],
                CompositionState::Inactive,
            ),
        )
    } else if code == 0x98 {
        Some(
            (seq![ClientActionModel::SetIMEMode(InputMode::Kana)], CompositionState::Inactive),
        )
    } else if control_pressed {
        None
    } else {
        transition_model(comp, mode, decode_key(code))
    }
}

/// Map one key event to the client actions to run and the state to adopt;
/// `None` means the key is not consumed.
pub fn process_key(
    composition: &Composition,
    mode: InputMode,
    code: usize,
    control_pressed: bool,
) -> (r: Option<(Vec<ClientAction>, CompositionState)>)
    ensures
        r is Some <==> process_key_model(composition@, mode, code, control_pressed) is Some,
        r matches Some(p) ==> process_key_model(composition@, mode, code, control_pressed)
            == Some((p.0.deep_view(), p.1)),
{
    if code == 0x97 {
        let acts = vec![ClientAction::SetIMEMode(InputMode::Latin)];
        proof {
            assert(acts.deep_view() =~= seq![ClientActionModel::SetIMEMode(InputMode::Latin)]);
        }
        return Some((acts, CompositionState::Inactive));
    }
    if code == 0x98 {
        let acts = vec![ClientAction::SetIMEMode(InputMode::Kana)];
        proof {
            assert(acts.deep_view() =~= seq![ClientActionModel::SetIMEMode(InputMode::Kana)]);
        }
        return Some((acts, CompositionState::Inactive));
    }
    if control_pressed {
        return None;
    }
    let action = UserAction::from_key(code);
    match composition.state {
        CompositionState::Inactive => match action {
            UserAction::Input(c) => {
                if mode == InputMode::Kana {
                    let acts = vec![
                        ClientAction::StartComposition,
                        ClientAction::AppendText(char_to_string(c)),
                    ];
                    proof {
                        assert(acts.deep_view() =~= seq![
                            ClientActionModel::StartComposition,
                            ClientActionModel::AppendText(seq![c]),
                        ]);
                    }
                    Some((acts, CompositionState::Composing))
                } else {
                    None
                }
            },
            UserAction::Number(c) => {
                if mode == InputMode::Kana {
                    let acts = vec![
                        ClientAction::StartComposition,
                        ClientAction::AppendText(char_to_string(c)),
                    ];
                    proof {
                        assert(acts.deep_view() =~= seq![
                            ClientActionModel::StartComposition,
                            ClientActionModel::AppendText(seq![c]),
                        ]);
                    }
                    Some((acts, CompositionState::Composing))
                } else {
                    None
                }
            },
            UserAction::ToggleInputMode => {
                let acts = vec![ClientAction::SetIMEMode(mode.toggled())];
                proof {
                    assert(acts.deep_view() =~= seq![
                        ClientActionModel::SetIMEMode(mode.toggled_spec()),
                    ]);
                }
                Some((acts, CompositionState::Inactive))
            },
            _ => None,
        },
        CompositionState::Composing | CompositionState::Previewing => {
            let composing = match composition.state {
                CompositionState::Composing => true,
                _ => false,
            };
            match action {
                UserAction::Input(c) => {
                    if composing {
                        let acts = vec![ClientAction::AppendText(char_to_string(c))];
                        proof {
                            assert(acts.deep_view() =~= seq![
                                ClientActionModel::AppendText(seq![c]),
                            ]);
                        }
                        Some((acts, CompositionState::Composing))
                    } else {
                        let acts = vec![ClientAction::ShrinkText(char_to_string(c))];
                        proof {
                            assert(acts.deep_view() =~= seq![
                                ClientActionModel::ShrinkText(seq![c]),
                            ]);
                        }
                        Some((acts, CompositionState::Composing))
                    }
                },
                UserAction::Number(c) => {
                    if composing {
                        let acts = vec![ClientAction::AppendText(char_to_string(c))];
                        proof {
                            assert(acts.deep_view() =~= seq![
                                ClientActionModel::AppendText(seq![c]),
                            ]);
                        }
                        Some((acts, CompositionState::Composing))
                    } else {
                        let acts = vec![ClientAction::ShrinkText(char_to_string(c))];
                        proof {
                            assert(acts.deep_view() =~= seq![
                                ClientActionModel::ShrinkText(seq![c]),
                            ]);
                        }
                        Some((acts, CompositionState::Composing))
                    }
                },
                UserAction::Backspace => {
                    if composition.preview.as_str().unicode_len() == 1 {
                        let acts = vec![ClientAction::RemoveText, ClientAction::EndComposition];
                        proof {
                            assert(acts.deep_view() =~= seq![
                                ClientActionModel::RemoveText,
                                ClientActionModel::EndComposition,
                            ]);
                        }
                        Some((acts, CompositionState::Inactive))
                    } else {
                        let acts = vec![ClientAction::RemoveText];
                        proof {
                            assert(acts.deep_view() =~= seq![ClientActionModel::RemoveText]);
                        }
                        Some((acts, CompositionState::Composing))
                    }
                },
                UserAction::Enter => {
                    if composition.suffix.as_str().unicode_len() == 0 {
                        let acts = vec![ClientAction::EndComposition];
                        proof {
                            assert(acts.deep_view() =~= seq![ClientActionModel::EndComposition]);
                        }
                        Some((acts, CompositionState::Inactive))
                    } else {
                        let acts = vec![ClientAction::ShrinkText(String::new())];
                        proof {
                            assert(acts.deep_view() =~= seq![
                                ClientActionModel::ShrinkText(Seq::empty()),
                            ]);
                        }
                        Some((acts, CompositionState::Composing))
                    }
                },
                UserAction::Escape => {
                    let acts = vec![ClientAction::RemoveText, ClientAction::EndComposition];
                    proof {
                        assert(acts.deep_view() =~= seq![
                            ClientActionModel::RemoveText,
                            ClientActionModel::EndComposition,
                        ]);
                    }
                    Some((acts, CompositionState::Inactive))
                },
                UserAction::Navigation(d) => match d {
                    Navigation::Right => {
                        let acts = vec![ClientAction::MoveCursor(1)];
                        proof {
                            assert(acts.deep_view() =~= seq![ClientActionModel::MoveCursor(1)]);
                        }
                        Some((acts, CompositionState::Composing))
                    },
                    Navigation::Left => {
                        let acts = vec![ClientAction::MoveCursor(-1)];
                        proof {
                            assert(acts.deep_view() =~= seq![ClientActionModel::MoveCursor(-1)]);
                        }
                        Some((acts, CompositionState::Composing))
                    },
                    Navigation::Up => {
                        let acts = vec![ClientAction::SetSelection(SetSelectionType::Up)];
                        proof {
                            assert(acts.deep_view() =~= seq![
                                ClientActionModel::SetSelection(SetSelectionType::Up),
                            ]);
                        }
                        Some((acts, CompositionState::Previewing))
                    },
                    Navigation::Down => {
                        let acts = vec![ClientAction::SetSelection(SetSelectionType::Down)];
                        proof {
                            assert(acts.deep_view() =~= seq![
                                ClientActionModel::SetSelection(SetSelectionType::Down),
                            ]);
                        }
                        Some((acts, CompositionState::Previewing))
                    },
                },
                UserAction::ToggleInputMode => {
                    let acts = vec![
                        ClientAction::EndComposition,
                        ClientAction::SetIMEMode(InputMode::Latin),
                    ];
                    proof {
                        assert(acts.deep_view() =~= seq![
                            ClientActionModel::EndComposition,
                            ClientActionModel::SetIMEMode(InputMode::Latin),
                        ]);
                    }
                    Some((acts, CompositionState::Inactive))
                },
                UserAction::Space => {
                    let acts = vec![ClientAction::SetSelection(SetSelectionType::Down)];
                    proof {
                        assert(acts.deep_view() =~= seq![
                            ClientActionModel::SetSelection(SetSelectionType::Down),
                        ]);
                    }
                    Some((acts, CompositionState::Previewing))
                },
                UserAction::Tab => {
                    let acts = vec![ClientAction::SetSelection(SetSelectionType::Down)];
                    proof {
                        assert(acts.deep_view() =~= seq![
                            ClientActionModel::SetSelection(SetSelectionType::Down),
                        ]);
                    }
                    Some((acts, CompositionState::Previewing))
                },
                UserAction::Function(k) => {
                    let t = match k {
                        Function::Six => SetTextType::Hiragana,
                        Function::Seven => SetTextType::Katakana,
                        Function::Eight => SetTextType::HalfKatakana,
                        Function::Nine => SetTextType::FullLatin,
                        Function::Ten => SetTextType::HalfLatin,
                    };
                    let acts = vec![ClientAction::SetTextWithType(t)];
                    proof {
                        assert(acts.deep_view() =~= seq![ClientActionModel::SetTextWithType(t)]);
                    }
                    Some((acts, CompositionState::Previewing))
                },
                _ => None,
            }
        },
        CompositionState::Selecting => None,
    }
}

/// The machine never leaves Composing or Previewing on its own: when a
/// consumed key ends the composition, that key was Enter with nothing left
/// to convert, Escape, Backspace on the last character, a mode toggle, or
/// one of the two reserved mode-switch codes.
pub proof fn lemma_no_silent_exit(
    comp: CompositionModel,
    mode: InputMode,
    code: usize,
    control_pressed: bool,
    acts: Seq<ClientActionModel>,
    next: CompositionState,
)
    requires
        comp.state == CompositionState::Composing || comp.state == CompositionState::Previewing,
        process_key_model(comp, mode, code, control_pressed) == Some((acts, next)),
        next == CompositionState::Inactive,
    ensures
        code == 0x97 || code == 0x98 || (decode_key(code) == UserAction::Enter && comp.suffix.len()
            == 0) || decode_key(code) == UserAction::Escape || (decode_key(code)
            == UserAction::Backspace && comp.preview.len() == 1) || decode_key(code)
            == UserAction::ToggleInputMode,
{
}

/// The reserved `Selecting` state is never entered: no consumed key
/// makes it the next state.
pub proof fn lemma_selecting_never_entered(
    comp: CompositionModel,
    mode: InputMode,
    code: usize,
    control_pressed: bool,
    acts: Seq<ClientActionModel>,
    next: CompositionState,
)
    requires
        process_key_model(comp, mode, code, control_pressed) == Some((acts, next)),
    ensures
        next != CompositionState::Selecting,
{
}

/// Backspace on a one-character preview removes the text and ends the
/// composition in one event.
pub proof fn lemma_backspace_last_char(
    comp: CompositionModel,
    mode: InputMode,
    control_pressed: bool,
)
    requires
        comp.state == CompositionState::Composing || comp.state == CompositionState::Previewing,
        comp.preview.len() == 1,
        !control_pressed,
    ensures
        process_key_model(comp, mode, 0x08, control_pressed) == Some(
            (
                seq![ClientActionModel::RemoveText, ClientActionModel::EndComposition],
                CompositionState::Inactive,
            ),
        ),
{
}

/// Enter with an empty suffix ends the composition without shrinking.
pub proof fn lemma_enter_empty_suffix(
    comp: CompositionModel,
    mode: InputMode,
    control_pressed: bool,
)
    requires
        comp.state == CompositionState::Composing || comp.state == CompositionState::Previewing,
        comp.suffix.len() == 0,
        !control_pressed,
    ensures
        process_key_model(comp, mode, 0x0d, control_pressed) == Some(
            (seq![ClientActionModel::EndComposition], CompositionState::Inactive),
        ),
        forall|acts: Seq<ClientActionModel>, next: CompositionState|
            process_key_model(comp, mode, 0x0d, control_pressed) == Some((acts, next))
                ==> forall|i: int| 0 <= i < acts.len() ==> !(#[trigger] acts[i] is ShrinkText),
{
}

/// The reserved mode-switch codes are consumed even while control is
/// held, and switch the mode without touching the composition state.
pub proof fn lemma_reserved_codes_always_consumed(
    comp: CompositionModel,
    mode: InputMode,
    control_pressed: bool,
)
    ensures
        process_key_model(comp, mode, 0x97, control_pressed) == Some(
            (
                seq![ClientActionModel::SetIMEMode(InputMode::Latin)],
                CompositionState::Inactive,
            ),
        ),
        process_key_model(comp, mode, 0x98, control_pressed) == Some(
            (seq![ClientActionModel::SetIMEMode(InputMode::Kana)], CompositionState::Inactive),
        ),
{
}

} // verus!
