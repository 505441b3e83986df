//! The text-service object: the record and the input mode in one place.
//!
//! The host hands key events to this object. It decides with the state
//! machine, interprets the resulting action list as a step conversation
//! (see [`crate::interpreter`]), and adopts the finished record only when
//! the whole list succeeded.

use vstd::prelude::*;

use crate::client_action::ClientAction;
use crate::composition::Composition;
use crate::composition::CompositionModel;
use crate::composition::CompositionState;
use crate::composition::process_key;
use crate::composition::process_key_model;
use crate::input_mode::InputMode;
use crate::interpreter::ActionInterp;
use crate::interpreter::begin_model;
use crate::interpreter::handle_action;
use crate::interpreter::list_ok;

verus! {

/// One active text-service instance: its composition record and the
/// input mode it currently types in.
pub struct TextServiceFactory {
    pub composition: Composition,
    pub input_mode: InputMode,
}

impl TextServiceFactory {
    /// A fresh instance: empty record, kana mode.
    pub fn new() -> (r: TextServiceFactory)
        ensures
            r.composition@ == CompositionModel::empty(),
            r.composition@.inv(),
            r.input_mode == InputMode::Kana,
    {
        TextServiceFactory { composition: Composition::new(), input_mode: InputMode::Kana }
    }

    /// Map one key event to the client actions to run and the state to
    /// adopt; `None` means the key is not consumed and goes back to the
    /// application.
    pub fn process_key(&self, code: usize, control_pressed: bool) -> (r: Option<
        (Vec<ClientAction>, CompositionState),
    >)
        ensures
            r is Some <==> process_key_model(self.composition@, self.input_mode, code,
                control_pressed) is Some,
            r matches Some(p) ==> process_key_model(self.composition@, self.input_mode, code,
                control_pressed) == Some((p.0.deep_view(), p.1)),
    {
        process_key(&self.composition, self.input_mode, code, control_pressed)
    }

    /// Begin interpreting one action list against a snapshot of the
    /// record; the caller drives the machine and hands the finished
    /// record to [`TextServiceFactory::commit`].
    pub fn handle_action(&self, actions: Vec<ClientAction>, transition: CompositionState) -> (m:
        ActionInterp)
        requires
            self.composition@.inv(),
            list_ok(actions.deep_view(), transition),
        ensures
            m@ == begin_model(self.composition@, self.input_mode, actions.deep_view(), transition),
            m@.wf(),
    {
        handle_action(self.composition.duplicate(), self.input_mode, actions, transition)
    }

    /// Adopt the record a finished machine handed back; nothing else of
    /// the instance changes.
    pub fn commit(&mut self, record: Composition)
        ensures
            final(self).composition == record,
            final(self).input_mode == old(self).input_mode,
    {
        self.composition = record;
    }

    /// Install a new input mode; the record is untouched.
    pub fn set_input_mode(&mut self, mode: InputMode)
        ensures
            final(self).input_mode == mode,
            final(self).composition == old(self).composition,
    {
        self.input_mode = mode;
    }
}

} // verus!
