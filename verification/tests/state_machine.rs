use azookey_ime::client_action::ClientAction;
use azookey_ime::client_action::SetSelectionType;
use azookey_ime::client_action::SetTextType;
use azookey_ime::composition::Composition;
use azookey_ime::composition::CompositionState;
use azookey_ime::composition::process_key;
use azookey_ime::input_mode::InputMode;
use azookey_ime::ipc_service::Candidates;
use azookey_ime::user_action::Function;
use azookey_ime::user_action::Navigation;
use azookey_ime::user_action::UserAction;

fn composing(preview: &str, suffix: &str) -> Composition {
    let mut c = Composition::new();
    c.preview = preview.to_string();
    c.suffix = suffix.to_string();
    c.raw_input = "x".to_string();
    c.raw_hiragana = preview.to_string();
    c.state = CompositionState::Composing;
    c
}

#[test]
fn decoder_maps_keys() {
    assert_eq!(UserAction::from_key(0x41), UserAction::Input('a'));
    assert_eq!(UserAction::from_key(0x5a), UserAction::Input('z'));
    assert_eq!(UserAction::from_key(0x30), UserAction::Number('0'));
    assert_eq!(UserAction::from_key(0x39), UserAction::Number('9'));
    assert_eq!(UserAction::from_key(0xbc), UserAction::Input(','));
    assert_eq!(UserAction::from_key(0xbd), UserAction::Input('-'));
    assert_eq!(UserAction::from_key(0xbe), UserAction::Input('.'));
    assert_eq!(UserAction::from_key(0x08), UserAction::Backspace);
    assert_eq!(UserAction::from_key(0x0d), UserAction::Enter);
    assert_eq!(UserAction::from_key(0x1b), UserAction::Escape);
    assert_eq!(UserAction::from_key(0x20), UserAction::Space);
    assert_eq!(UserAction::from_key(0x09), UserAction::Tab);
    assert_eq!(UserAction::from_key(0x25), UserAction::Navigation(Navigation::Left));
    assert_eq!(UserAction::from_key(0x26), UserAction::Navigation(Navigation::Up));
    assert_eq!(UserAction::from_key(0x27), UserAction::Navigation(Navigation::Right));
    assert_eq!(UserAction::from_key(0x28), UserAction::Navigation(Navigation::Down));
    assert_eq!(UserAction::from_key(0x75), UserAction::Function(Function::Six));
    assert_eq!(UserAction::from_key(0x79), UserAction::Function(Function::Ten));
    assert_eq!(UserAction::from_key(0x19), UserAction::ToggleInputMode);
    assert_eq!(UserAction::from_key(0xff), UserAction::Unhandled);
}

#[test]
fn typing_a_letter_starts_a_composition_in_kana_mode() {
    let comp = Composition::new();
    let r = process_key(&comp, InputMode::Kana, 0x4b, false).unwrap();
    assert_eq!(
        r.0,
        vec![ClientAction::StartComposition, ClientAction::AppendText("k".to_string())]
    );
    assert_eq!(r.1, CompositionState::Composing);
}

#[test]
fn typing_a_letter_in_latin_mode_is_not_consumed() {
    let comp = Composition::new();
    assert!(process_key(&comp, InputMode::Latin, 0x4b, false).is_none());
}

#[test]
fn control_hands_shortcuts_to_the_application() {
    let comp = Composition::new();
    assert!(process_key(&comp, InputMode::Kana, 0x4b, true).is_none());
}

#[test]
fn reserved_codes_consumed_even_with_control_held() {
    let comp = Composition::new();
    let r = process_key(&comp, InputMode::Kana, 0x97, true).unwrap();
    assert_eq!(r.0, vec![ClientAction::SetIMEMode(InputMode::Latin)]);
    assert_eq!(r.1, CompositionState::Inactive);
    let r = process_key(&comp, InputMode::Kana, 0x98, true).unwrap();
    assert_eq!(r.0, vec![ClientAction::SetIMEMode(InputMode::Kana)]);
    assert_eq!(r.1, CompositionState::Inactive);
}

#[test]
fn toggle_in_inactive_flips_the_mode() {
    let comp = Composition::new();
    let r = process_key(&comp, InputMode::Kana, 0x19, false).unwrap();
    assert_eq!(r.0, vec![ClientAction::SetIMEMode(InputMode::Latin)]);
    let r = process_key(&comp, InputMode::Latin, 0x19, false).unwrap();
    assert_eq!(r.0, vec![ClientAction::SetIMEMode(InputMode::Kana)]);
}

#[test]
fn backspace_on_last_character_removes_and_ends() {
    let comp = composing("か", "");
    let r = process_key(&comp, InputMode::Kana, 0x08, false).unwrap();
    assert_eq!(r.0, vec![ClientAction::RemoveText, ClientAction::EndComposition]);
    assert_eq!(r.1, CompositionState::Inactive);
}

#[test]
fn backspace_on_longer_preview_only_removes() {
    let comp = composing("かき", "");
    let r = process_key(&comp, InputMode::Kana, 0x08, false).unwrap();
    assert_eq!(r.0, vec![ClientAction::RemoveText]);
    assert_eq!(r.1, CompositionState::Composing);
}

#[test]
fn enter_with_empty_suffix_ends_without_shrink() {
    let mut comp = composing("か", "");
    comp.state = CompositionState::Previewing;
    let r = process_key(&comp, InputMode::Kana, 0x0d, false).unwrap();
    assert_eq!(r.0, vec![ClientAction::EndComposition]);
    assert_eq!(r.1, CompositionState::Inactive);
}

#[test]
fn enter_with_suffix_shrinks() {
    let comp = composing("下", "き");
    let r = process_key(&comp, InputMode::Kana, 0x0d, false).unwrap();
    assert_eq!(r.0, vec![ClientAction::ShrinkText(String::new())]);
    assert_eq!(r.1, CompositionState::Composing);
}

#[test]
fn escape_discards_the_composition() {
    let comp = composing("かき", "");
    let r = process_key(&comp, InputMode::Kana, 0x1b, false).unwrap();
    assert_eq!(r.0, vec![ClientAction::RemoveText, ClientAction::EndComposition]);
    assert_eq!(r.1, CompositionState::Inactive);
}

#[test]
fn space_moves_the_selection_down_and_previews() {
    let comp = composing("か", "");
    let r = process_key(&comp, InputMode::Kana, 0x20, false).unwrap();
    assert_eq!(r.0, vec![ClientAction::SetSelection(SetSelectionType::Down)]);
    assert_eq!(r.1, CompositionState::Previewing);
}

#[test]
fn arrows_navigate() {
    let comp = composing("か", "");
    let r = process_key(&comp, InputMode::Kana, 0x26, false).unwrap();
    assert_eq!(r.0, vec![ClientAction::SetSelection(SetSelectionType::Up)]);
    assert_eq!(r.1, CompositionState::Previewing);
    let r = process_key(&comp, InputMode::Kana, 0x27, false).unwrap();
    assert_eq!(r.0, vec![ClientAction::MoveCursor(1)]);
    assert_eq!(r.1, CompositionState::Composing);
    let r = process_key(&comp, InputMode::Kana, 0x25, false).unwrap();
    assert_eq!(r.0, vec![ClientAction::MoveCursor(-1)]);
}

#[test]
fn function_keys_force_text_forms() {
    let comp = composing("あい", "");
    let pairs = [
        (0x75usize, SetTextType::Hiragana),
        (0x76, SetTextType::Katakana),
        (0x77, SetTextType::HalfKatakana),
        (0x78, SetTextType::FullLatin),
        (0x79, SetTextType::HalfLatin),
    ];
    for (code, kind) in pairs {
        let r = process_key(&comp, InputMode::Kana, code, false).unwrap();
        assert_eq!(r.0, vec![ClientAction::SetTextWithType(kind)]);
        assert_eq!(r.1, CompositionState::Previewing);
    }
}

#[test]
fn typing_while_previewing_shrinks_first() {
    let mut comp = composing("下", "き");
    comp.state = CompositionState::Previewing;
    let r = process_key(&comp, InputMode::Kana, 0x41, false).unwrap();
    assert_eq!(r.0, vec![ClientAction::ShrinkText("a".to_string())]);
    assert_eq!(r.1, CompositionState::Composing);
}

#[test]
fn toggle_while_composing_ends_and_goes_latin() {
    let comp = composing("か", "");
    let r = process_key(&comp, InputMode::Kana, 0x19, false).unwrap();
    assert_eq!(
        r.0,
        vec![ClientAction::EndComposition, ClientAction::SetIMEMode(InputMode::Latin)]
    );
    assert_eq!(r.1, CompositionState::Inactive);
}

#[test]
fn reserved_selecting_state_consumes_nothing() {
    let mut comp = Composition::new();
    comp.state = CompositionState::Selecting;
    assert!(process_key(&comp, InputMode::Kana, 0x41, false).is_none());
}

#[test]
fn unhandled_key_is_not_consumed_while_composing() {
    let comp = composing("か", "");
    assert!(process_key(&comp, InputMode::Kana, 0x70, false).is_none());
}

#[test]
fn default_record_is_empty() {
    let c = Composition::default();
    assert_eq!(c.state, CompositionState::Inactive);
    assert_eq!(c.preview, "");
    assert_eq!(c.candidates, Candidates::default());
    assert_eq!(c.selection_index, 0);
    assert_eq!(c.corresponding_count, 0);
}
