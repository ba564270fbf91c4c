//! The windows in which connection directories and links are created and
//! edited, and the prompts that confirm a host key or a deletion.

use std::ops::Range;
use vstd::prelude::*;
use crate::input_behavior::{pasted, selected_text, without_line_breaks};
use crate::keystroke::{
    copy_optional_text, optional_text, typed_text, Keystroke, KeystrokeModel,
};
use crate::text::{decimal, decimal_text, lower_case, same_text};
use crate::text_input::{
    apply_native_edit_to_input, begin_input_pointer_selection, clear_input_focus_state,
    delete_input_backward, delete_input_forward, delete_input_selection,
    finish_input_pointer_selection, focus_input_state, insert_input_text, move_input_cursor,
    move_input_left, move_input_right, update_input_pointer_selection, InputModel, TextInputState,
};
use crate::text_selection::{character_count, NativeTextEdit, TextSelectionGranularity};

verus! {

// ---------------------------------------------------------------------------
// What the windows hold
// ---------------------------------------------------------------------------

/// The number by which a connection node is known.
#[derive(Clone, Copy, Debug, PartialEq, Eq, Structural)]
pub struct ConnectionNodeId(pub u64);

/// The protocol of a link.
#[derive(Clone, Copy, Debug, PartialEq, Eq, Structural)]
pub enum ConnectionLinkKind {
    /// A shell on another machine.
    Ssh,
    /// A shared folder on another machine.
    Smb,
}

/// Whether a directory window creates a directory or edits one.
#[derive(Clone, Copy, Debug, PartialEq, Eq, Structural)]
pub enum ConnectionDirectoryWindowMode {
    /// A new directory.
    Create,
    /// A directory that exists.
    Edit {
        /// The directory.
        directory_id: ConnectionNodeId,
    },
}

/// Whether a link window creates a link or edits one.
#[derive(Clone, Copy, Debug, PartialEq, Eq, Structural)]
pub enum ConnectionLinkWindowMode {
    /// A new link.
    Create,
    /// A link that exists.
    Edit {
        /// The link.
        link_id: ConnectionNodeId,
    },
}

/// The inputs of both windows.
#[derive(Clone, Copy, Debug, PartialEq, Eq, Structural)]
pub enum ConnectionFormInputTarget {
    /// The name of a directory.
    DirectoryName,
    /// The name of a link.
    LinkName,
    /// The host.
    LinkHost,
    /// The port.
    LinkPort,
    /// The user name.
    LinkUsername,
    /// The password.
    LinkPassword,
    /// The name of a share.
    LinkShare,
    /// The directory in which a share opens.
    LinkInitialDir,
    /// The domain or work group.
    LinkDomain,
    /// The path of a private key.
    LinkPrivateKeyPath,
    /// The pass phrase of a private key.
    LinkPrivateKeyPassphrase,
}

/// What a window does after a key press.
#[derive(Clone, Copy, Debug, PartialEq, Eq, Structural)]
pub enum ConnectionWindowInputAction {
    /// Nothing.
    Ignored,
    /// The text or the selection changed.
    Changed,
    /// The form asks to be submitted.
    Submit,
    /// The window asks to be closed.
    Close,
}

/// What a key press asks for beyond the change of the form.
#[derive(Debug, PartialEq, Eq)]
pub struct ConnectionKeyOutcome {
    /// What the window does.
    pub action: ConnectionWindowInputAction,
    /// What goes to the clipboard.
    pub copied: Option<String>,
}

/// The form of a directory window.
#[derive(Debug, PartialEq, Eq)]
pub struct ConnectionDirectoryFormState {
    /// The name of the directory.
    pub name_input: TextInputState,
    /// Why the form was last refused.
    pub error_message: Option<String>,
}

/// The form of a link window.
#[derive(Debug, PartialEq, Eq)]
pub struct ConnectionLinkFormState {
    /// The protocol.
    pub link_kind: ConnectionLinkKind,
    /// The name of the link.
    pub name_input: TextInputState,
    /// The host.
    pub host_input: TextInputState,
    /// The port.
    pub port_input: TextInputState,
    /// The user name.
    pub username_input: TextInputState,
    /// The password.
    pub password_input: TextInputState,
    /// The name of a share.
    pub share_input: TextInputState,
    /// The directory in which a share opens.
    pub initial_dir_input: TextInputState,
    /// The domain or work group.
    pub domain_input: TextInputState,
    /// The path of a private key.
    pub private_key_path_input: TextInputState,
    /// The pass phrase of a private key.
    pub private_key_passphrase_input: TextInputState,
    /// Why the form was last refused.
    pub error_message: Option<String>,
}

/// A window for one directory.
#[derive(Debug, PartialEq, Eq)]
pub struct ConnectionDirectoryWindow {
    /// The form.
    pub form: ConnectionDirectoryFormState,
    /// Whether it creates or edits.
    pub mode: ConnectionDirectoryWindowMode,
}

/// A window for one link.
#[derive(Debug, PartialEq, Eq)]
pub struct ConnectionLinkWindow {
    /// The form.
    pub form: ConnectionLinkFormState,
    /// Whether it creates or edits.
    pub mode: ConnectionLinkWindowMode,
}

/// A form as its inputs by target.
#[verifier::ext_equal]
pub struct FormModel {
    /// Every input of the form.
    pub inputs: Map<ConnectionFormInputTarget, InputModel>,
    /// Why the form was last refused.
    pub error_message: Option<Seq<char>>,
    /// The protocol of a link; a directory has none.
    pub link_kind: Option<ConnectionLinkKind>,
}

/// Whether a target is an input of the link window.
pub open spec fn is_link_target(target: ConnectionFormInputTarget) -> bool {
    !(target is DirectoryName)
}

impl ConnectionDirectoryFormState {
    /// The input of a target.
    pub open spec fn input(self, target: ConnectionFormInputTarget) -> TextInputState {
        self.name_input
    }
}

impl View for ConnectionDirectoryFormState {
    type V = FormModel;

    open spec fn view(&self) -> FormModel {
        FormModel {
            inputs: Map::new(
                |t: ConnectionFormInputTarget| !is_link_target(t),
                |t: ConnectionFormInputTarget| self.input(t)@,
            ),
            error_message: optional_text(self.error_message),
            link_kind: None,
        }
    }
}

impl ConnectionLinkFormState {
    /// The input of a target.
    pub open spec fn input(self, target: ConnectionFormInputTarget) -> TextInputState {
        match target {
            ConnectionFormInputTarget::DirectoryName => self.name_input,
            ConnectionFormInputTarget::LinkName => self.name_input,
            ConnectionFormInputTarget::LinkHost => self.host_input,
            ConnectionFormInputTarget::LinkPort => self.port_input,
            ConnectionFormInputTarget::LinkUsername => self.username_input,
            ConnectionFormInputTarget::LinkPassword => self.password_input,
            ConnectionFormInputTarget::LinkShare => self.share_input,
            ConnectionFormInputTarget::LinkInitialDir => self.initial_dir_input,
            ConnectionFormInputTarget::LinkDomain => self.domain_input,
            ConnectionFormInputTarget::LinkPrivateKeyPath => self.private_key_path_input,
            ConnectionFormInputTarget::LinkPrivateKeyPassphrase =>
                self.private_key_passphrase_input,
        }
    }
}

impl View for ConnectionLinkFormState {
    type V = FormModel;

    open spec fn view(&self) -> FormModel {
        FormModel {
            inputs: Map::new(
                |t: ConnectionFormInputTarget| is_link_target(t),
                |t: ConnectionFormInputTarget| self.input(t)@,
            ),
            error_message: optional_text(self.error_message),
            link_kind: Some(self.link_kind),
        }
    }
}

impl FormModel {
    /// The form with one input changed.
    pub open spec fn with_input(
        self,
        target: ConnectionFormInputTarget,
        input: InputModel,
    ) -> FormModel {
        FormModel { inputs: self.inputs.insert(target, input), ..self }
    }

    /// The form with no input focused.
    pub open spec fn unfocused(self) -> FormModel {
        FormModel {
            inputs: self.inputs.map_values(|input: InputModel| input.unfocused()),
            ..self
        }
    }

    /// The form with one input focused and no other.
    pub open spec fn focused_on(self, target: ConnectionFormInputTarget) -> FormModel {
        if self.inputs.dom().contains(target) {
            self.unfocused().with_input(target, self.unfocused().inputs[target].focused())
        } else {
            self.unfocused()
        }
    }

    /// The form after a key press in one of its inputs. A change takes the last
    /// refusal away.
    pub open spec fn after_key(
        self,
        target: ConnectionFormInputTarget,
        keystroke: KeystrokeModel,
        clipboard: Option<Seq<char>>,
    ) -> FormModel {
        if self.inputs.dom().contains(target) {
            let step = form_key_step(self.inputs[target], keystroke, clipboard);
            FormModel {
                error_message: if step.action is Changed {
                    None
                } else {
                    self.error_message
                },
                ..self.with_input(target, step.input)
            }
        } else {
            self
        }
    }

    /// The form after the mouse button went down in one of its inputs.
    pub open spec fn pressed(
        self,
        target: ConnectionFormInputTarget,
        index: usize,
        granularity: TextSelectionGranularity,
        word: Option<Range<usize>>,
    ) -> FormModel {
        let base = self.focused_on(target);
        if base.inputs.dom().contains(target) {
            base.with_input(target, base.inputs[target].pressed(index, granularity, word))
        } else {
            base
        }
    }

    /// The form after the mouse moved with its button down.
    pub open spec fn dragged(
        self,
        target: ConnectionFormInputTarget,
        index: usize,
        word: Option<Range<usize>>,
    ) -> FormModel {
        if self.inputs.dom().contains(target) {
            self.with_input(target, self.inputs[target].dragged(index, word))
        } else {
            self
        }
    }

    /// The form after the mouse button went up.
    pub open spec fn released(self, target: ConnectionFormInputTarget) -> FormModel {
        if self.inputs.dom().contains(target) {
            self.with_input(target, self.inputs[target].released())
        } else {
            self
        }
    }

    /// The form after an edit of the system's input method.
    pub open spec fn natively_edited(
        self,
        target: ConnectionFormInputTarget,
        edit: NativeTextEdit,
    ) -> FormModel {
        let base = self.focused_on(target);
        if base.inputs.dom().contains(target) {
            FormModel {
                error_message: None,
                ..base.with_input(target, base.inputs[target].natively_edited(edit))
            }
        } else {
            base
        }
    }
}

// ---------------------------------------------------------------------------
// Keys in a form input
// ---------------------------------------------------------------------------

/// The whole effect of a key press in a form input.
#[verifier::ext_equal]
pub struct FormKeyStep {
    /// The input afterwards.
    pub input: InputModel,
    /// What the window does.
    pub action: ConnectionWindowInputAction,
    /// What goes to the clipboard.
    pub copied: Option<Seq<char>>,
}

/// The effect of a clipboard shortcut; none where the press is not one.
pub open spec fn form_clipboard_step(
    input: InputModel,
    keystroke: KeystrokeModel,
    clipboard: Option<Seq<char>>,
) -> Option<FormKeyStep> {
    let key = lower_case(keystroke.key);
    if !keystroke.modifiers.secondary {
        None
    } else if key == "v"@ {
        Some(
            FormKeyStep {
                input: match clipboard {
                    Some(text) => input.typed(pasted(text, false)),
                    None => input,
                },
                action: ConnectionWindowInputAction::Changed,
                copied: None,
            },
        )
    } else if key == "c"@ {
        Some(
            FormKeyStep {
                input,
                action: ConnectionWindowInputAction::Ignored,
                copied: input.selected_text(),
            },
        )
    } else if key == "x"@ {
        Some(
            FormKeyStep {
                input: input.without_selection(),
                action: ConnectionWindowInputAction::Changed,
                copied: input.selected_text(),
            },
        )
    } else if key == "a"@ {
        Some(
            FormKeyStep {
                input: input.all_selected(),
                action: ConnectionWindowInputAction::Changed,
                copied: None,
            },
        )
    } else {
        None
    }
}

/// A step that only changes the input.
pub open spec fn form_changed_to(input: InputModel) -> FormKeyStep {
    FormKeyStep { input, action: ConnectionWindowInputAction::Changed, copied: None }
}

/// The effect of a key press that is no clipboard shortcut.
pub open spec fn form_edit_step(input: InputModel, keystroke: KeystrokeModel) -> FormKeyStep {
    let key = keystroke.key;
    let shift = keystroke.modifiers.shift;
    if key == "escape"@ {
        FormKeyStep { input, action: ConnectionWindowInputAction::Close, copied: None }
    } else if key == "enter"@ {
        FormKeyStep { input, action: ConnectionWindowInputAction::Submit, copied: None }
    } else if key == "backspace"@ {
        form_changed_to(input.erased_backward())
    } else if key == "delete"@ {
        form_changed_to(input.erased_forward())
    } else if key == "left"@ || key == "arrowleft"@ {
        form_changed_to(
            input.moved(
                (if input.cursor == 0 {
                    0
                } else {
                    input.cursor - 1
                }) as usize,
                shift,
            ),
        )
    } else if key == "right"@ || key == "arrowright"@ {
        form_changed_to(input.moved((input.cursor + 1) as usize, shift))
    } else if key == "home"@ {
        form_changed_to(input.moved(0, shift))
    } else if key == "end"@ {
        form_changed_to(input.moved(input.value.len() as usize, shift))
    } else {
        match keystroke.typed_text() {
            Some(text) => form_changed_to(input.typed(text)),
            None => FormKeyStep {
                input,
                action: ConnectionWindowInputAction::Ignored,
                copied: None,
            },
        }
    }
}

/// The effect of a key press in a form input.
pub open spec fn form_key_step(
    input: InputModel,
    keystroke: KeystrokeModel,
    clipboard: Option<Seq<char>>,
) -> FormKeyStep {
    match form_clipboard_step(input, keystroke, clipboard) {
        Some(step) => step,
        None => form_edit_step(input, keystroke),
    }
}

/// Whether an input can take a key: backspace not while its cursor stands behind an
/// empty text with nothing selected, and the right arrow not while it stands at the
/// end of the machine's range.
pub open spec fn takes_key(input: InputModel, keystroke: KeystrokeModel) -> bool {
    let key = keystroke.key;
    &&& key == "backspace"@ && input.selection() is None && input.cursor > 0
        ==> input.value.len() > 0
    &&& key == "right"@ || key == "arrowright"@ ==> input.cursor < usize::MAX
}

/// Whether an input can take a key.
pub fn input_takes_key(input: &TextInputState, keystroke: &Keystroke) -> (result: bool)
    ensures
        result == takes_key(input@, keystroke@),
{
    let key = keystroke.key.as_str();
    if same_text(key, "backspace") && input.selection_range().is_none() && input.cursor > 0
        && character_count(input.value.as_str()) == 0 {
        return false;
    }
    !(same_text(key, "right") || same_text(key, "arrowright")) || input.cursor < usize::MAX
}

/// Copy, cut, paste and select all in a form input. `clipboard` is the text
/// that the clipboard holds.
pub fn handle_text_input_clipboard(
    input: &mut TextInputState,
    keystroke: &Keystroke,
    clipboard: &Option<String>,
) -> (result: Option<ConnectionKeyOutcome>)
    ensures
        match (result, form_clipboard_step(old(input)@, keystroke@, optional_text(*clipboard))) {
            (Some(outcome), Some(step)) => final(input)@ == step.input && outcome.action
                == step.action && optional_text(outcome.copied) == step.copied,
            (None, None) => final(input)@ == old(input)@,
            _ => false,
        },
{
    if !keystroke.modifiers.secondary {
        return None;
    }
    let key = keystroke.key.as_str().to_lowercase();
    if same_text(key.as_str(), "v") {
        match clipboard {
            Some(text) => {
                let flat = without_line_breaks(text.as_str());
                insert_input_text(input, flat.as_str());
            },
            None => {},
        }
        Some(ConnectionKeyOutcome { action: ConnectionWindowInputAction::Changed, copied: None })
    } else if same_text(key.as_str(), "c") {
        let copied = selected_text(input);
        Some(ConnectionKeyOutcome { action: ConnectionWindowInputAction::Ignored, copied })
    } else if same_text(key.as_str(), "x") {
        let copied = selected_text(input);
        delete_input_selection(input);
        Some(ConnectionKeyOutcome { action: ConnectionWindowInputAction::Changed, copied })
    } else if same_text(key.as_str(), "a") {
        input.cursor = character_count(input.value.as_str());
        input.selection_anchor = Some(0);
        input.marked_range = None;
        input.selection_drag = None;
        Some(ConnectionKeyOutcome { action: ConnectionWindowInputAction::Changed, copied: None })
    } else {
        None
    }
}

/// Handles a key press in a form input that is no clipboard shortcut.
pub fn handle_text_input_key(input: &mut TextInputState, keystroke: &Keystroke) -> (result:
    ConnectionWindowInputAction)
    requires
        takes_key(old(input)@, keystroke@),
    ensures
        final(input)@ == form_edit_step(old(input)@, keystroke@).input,
        result == form_edit_step(old(input)@, keystroke@).action,
{
    let key = keystroke.key.as_str();
    let shift = keystroke.modifiers.shift;
    if same_text(key, "escape") {
        return ConnectionWindowInputAction::Close;
    }
    if same_text(key, "enter") {
        return ConnectionWindowInputAction::Submit;
    }
    if same_text(key, "backspace") {
        delete_input_backward(input);
    } else if same_text(key, "delete") {
        delete_input_forward(input);
    } else if same_text(key, "left") || same_text(key, "arrowleft") {
        move_input_left(input, shift);
    } else if same_text(key, "right") || same_text(key, "arrowright") {
        move_input_right(input, shift);
    } else if same_text(key, "home") {
        move_input_cursor(input, 0, shift);
    } else if same_text(key, "end") {
        let end: usize = character_count(input.value.as_str());
        move_input_cursor(input, end, shift);
    } else {
        match typed_text(keystroke) {
            Some(text) => {
                insert_input_text(input, text.as_str());
            },
            None => {
                return ConnectionWindowInputAction::Ignored;
            },
        }
    }
    ConnectionWindowInputAction::Changed
}

/// Handles any key press in a form input.
fn handle_form_key(
    input: &mut TextInputState,
    keystroke: &Keystroke,
    clipboard: &Option<String>,
) -> (result: ConnectionKeyOutcome)
    requires
        takes_key(old(input)@, keystroke@),
    ensures
        ({
            let step = form_key_step(old(input)@, keystroke@, optional_text(*clipboard));
            &&& final(input)@ == step.input
            &&& result.action == step.action
            &&& optional_text(result.copied) == step.copied
        }),
{
    match handle_text_input_clipboard(input, keystroke, clipboard) {
        Some(outcome) => outcome,
        None => {
            let action = handle_text_input_key(input, keystroke);
            ConnectionKeyOutcome { action, copied: None }
        },
    }
}

// ---------------------------------------------------------------------------
// The directory window
// ---------------------------------------------------------------------------

impl ConnectionDirectoryWindow {
    /// Opens a window on a form, its name focused.
    pub fn new(form: ConnectionDirectoryFormState, mode: ConnectionDirectoryWindowMode) -> (result:
        ConnectionDirectoryWindow)
        ensures
            result.form@ == form@.with_input(
                ConnectionFormInputTarget::DirectoryName,
                form.name_input@.focused(),
            ),
            result.mode == mode,
    {
        let mut focused = form;
        focus_input_state(&mut focused.name_input);
        let result = ConnectionDirectoryWindow { form: focused, mode };
        proof {
            assert(result.form@.inputs =~= form@.inputs.insert(
                ConnectionFormInputTarget::DirectoryName,
                form.name_input@.focused(),
            ));
        }
        result
    }

    /// Whether the window is in a mode.
    pub fn is_mode(&self, mode: ConnectionDirectoryWindowMode) -> (result: bool)
        ensures
            result == (self.mode == mode),
    {
        self.mode == mode
    }

    /// Puts another form into the window, its name focused.
    pub fn replace_form(
        &mut self,
        form: ConnectionDirectoryFormState,
        mode: ConnectionDirectoryWindowMode,
    )
        ensures
            final(self).form@ == form@.with_input(
                ConnectionFormInputTarget::DirectoryName,
                form.name_input@.focused(),
            ),
            final(self).mode == mode,
    {
        *self = ConnectionDirectoryWindow::new(form, mode);
    }

    /// The input of a target, where this window has it.
    fn input_mut(&mut self, target: ConnectionFormInputTarget) -> (result: Option<
        &mut TextInputState,
    >)
        ensures
            result is Some == !is_link_target(target),
            match result {
                Some(input) => {
                    &&& *input == old(self).form.name_input
                    &&& *final(self) == (ConnectionDirectoryWindow {
                        form: ConnectionDirectoryFormState {
                            name_input: *final(input),
                            ..old(self).form
                        },
                        ..*old(self)
                    })
                },
                None => *final(self) == *old(self),
            },
    {
        match target {
            ConnectionFormInputTarget::DirectoryName => Some(&mut self.form.name_input),
            _ => None,
        }
    }

    /// Takes the keyboard from every input.
    pub fn clear_input_focuses(&mut self)
        ensures
            final(self).form@ == old(self).form@.unfocused(),
            final(self).mode == old(self).mode,
    {
        clear_input_focus_state(&mut self.form.name_input);
        proof {
            assert(self.form@.inputs =~= old(self).form@.unfocused().inputs);
        }
    }

    /// Gives one input the keyboard.
    pub fn focus_input(&mut self, target: ConnectionFormInputTarget)
        ensures
            final(self).form@ == old(self).form@.focused_on(target),
            final(self).mode == old(self).mode,
    {
        self.clear_input_focuses();
        match self.input_mut(target) {
            Some(input) => {
                focus_input_state(input);
            },
            None => {},
        }
        proof {
            assert(self.form@.inputs =~= old(self).form@.focused_on(target).inputs);
        }
    }

    /// Handles a key press in an input.
    pub fn handle_input_key(
        &mut self,
        target: ConnectionFormInputTarget,
        keystroke: &Keystroke,
        clipboard: &Option<String>,
    ) -> (result: ConnectionKeyOutcome)
        requires
            !is_link_target(target) ==> takes_key(old(self).form.name_input@, keystroke@),
        ensures
            final(self).form@ == old(self).form@.after_key(
                target,
                keystroke@,
                optional_text(*clipboard),
            ),
            final(self).mode == old(self).mode,
            outcome_of_key(
                old(self).form@,
                target,
                keystroke@,
                optional_text(*clipboard),
                result,
            ),
    {
        let outcome = match self.input_mut(target) {
            Some(input) => handle_form_key(input, keystroke, clipboard),
            None => {
                return ConnectionKeyOutcome {
                    action: ConnectionWindowInputAction::Ignored,
                    copied: None,
                };
            },
        };
        if outcome.action == ConnectionWindowInputAction::Changed {
            self.form.error_message = None;
        }
        proof {
            assert(self.form@.inputs =~= old(self).form@.after_key(
                target,
                keystroke@,
                optional_text(*clipboard),
            ).inputs);
        }
        outcome
    }

    /// The mouse button went down in an input.
    pub fn begin_pointer_selection(
        &mut self,
        target: ConnectionFormInputTarget,
        character_index: usize,
        granularity: TextSelectionGranularity,
        word: Option<Range<usize>>,
    )
        ensures
            final(self).form@ == old(self).form@.pressed(
                target,
                character_index,
                granularity,
                word,
            ),
            final(self).mode == old(self).mode,
    {
        self.focus_input(target);
        match self.input_mut(target) {
            Some(input) => {
                begin_input_pointer_selection(input, character_index, granularity, word);
            },
            None => {},
        }
        proof {
            assert(self.form@.inputs =~= old(self).form@.pressed(
                target,
                character_index,
                granularity,
                word,
            ).inputs);
        }
    }

    /// The mouse moved in an input with its button down.
    pub fn update_pointer_selection(
        &mut self,
        target: ConnectionFormInputTarget,
        character_index: usize,
        word: Option<Range<usize>>,
    )
        ensures
            final(self).form@ == old(self).form@.dragged(target, character_index, word),
            final(self).mode == old(self).mode,
    {
        match self.input_mut(target) {
            Some(input) => {
                update_input_pointer_selection(input, character_index, word);
            },
            None => {},
        }
        proof {
            assert(self.form@.inputs =~= old(self).form@.dragged(
                target,
                character_index,
                word,
            ).inputs);
        }
    }

    /// The mouse button went up.
    pub fn finish_pointer_selection(&mut self, target: ConnectionFormInputTarget)
        ensures
            final(self).form@ == old(self).form@.released(target),
            final(self).mode == old(self).mode,
    {
        match self.input_mut(target) {
            Some(input) => {
                finish_input_pointer_selection(input);
            },
            None => {},
        }
        proof {
            assert(self.form@.inputs =~= old(self).form@.released(target).inputs);
        }
    }

    /// Applies an edit of the system's input method.
    pub fn apply_native_edit(&mut self, target: ConnectionFormInputTarget, edit: &NativeTextEdit)
        ensures
            final(self).form@ == old(self).form@.natively_edited(target, *edit),
            final(self).mode == old(self).mode,
    {
        self.focus_input(target);
        let edited = match self.input_mut(target) {
            Some(input) => {
                apply_native_edit_to_input(input, edit);
                true
            },
            None => false,
        };
        if edited {
            self.form.error_message = None;
        }
        proof {
            assert(self.form@.inputs =~= old(self).form@.natively_edited(target, *edit).inputs);
        }
    }
}

/// What a key press in a form asks for.
pub open spec fn outcome_of_key(
    form: FormModel,
    target: ConnectionFormInputTarget,
    keystroke: KeystrokeModel,
    clipboard: Option<Seq<char>>,
    outcome: ConnectionKeyOutcome,
) -> bool {
    if form.inputs.dom().contains(target) {
        let step = form_key_step(form.inputs[target], keystroke, clipboard);
        outcome.action == step.action && optional_text(outcome.copied) == step.copied
    } else {
        outcome.action == ConnectionWindowInputAction::Ignored && outcome.copied is None
    }
}

// ---------------------------------------------------------------------------
// The link window
// ---------------------------------------------------------------------------

impl ConnectionLinkFormState {
    /// The form with one input in the place of what a target held.
    pub open spec fn with_input(
        self,
        target: ConnectionFormInputTarget,
        input: TextInputState,
    ) -> ConnectionLinkFormState {
        match target {
            ConnectionFormInputTarget::DirectoryName => self,
            ConnectionFormInputTarget::LinkName => ConnectionLinkFormState { name_input: input, ..self },
            ConnectionFormInputTarget::LinkHost => ConnectionLinkFormState { host_input: input, ..self },
            ConnectionFormInputTarget::LinkPort => ConnectionLinkFormState { port_input: input, ..self },
            ConnectionFormInputTarget::LinkUsername => ConnectionLinkFormState { username_input: input, ..self },
            ConnectionFormInputTarget::LinkPassword => ConnectionLinkFormState { password_input: input, ..self },
            ConnectionFormInputTarget::LinkShare => ConnectionLinkFormState { share_input: input, ..self },
            ConnectionFormInputTarget::LinkInitialDir => ConnectionLinkFormState { initial_dir_input: input, ..self },
            ConnectionFormInputTarget::LinkDomain => ConnectionLinkFormState { domain_input: input, ..self },
            ConnectionFormInputTarget::LinkPrivateKeyPath => ConnectionLinkFormState { private_key_path_input: input, ..self },
            ConnectionFormInputTarget::LinkPrivateKeyPassphrase => ConnectionLinkFormState { private_key_passphrase_input: input, ..self },
        }
    }
}

impl ConnectionLinkWindow {
    /// Opens a window on a form, its name focused.
    pub fn new(form: ConnectionLinkFormState, mode: ConnectionLinkWindowMode) -> (result:
        ConnectionLinkWindow)
        ensures
            result.form@ == form@.with_input(
                ConnectionFormInputTarget::LinkName,
                form.name_input@.focused(),
            ),
            result.mode == mode,
    {
        let mut focused = form;
        focus_input_state(&mut focused.name_input);
        let result = ConnectionLinkWindow { form: focused, mode };
        proof {
            assert(result.form@.inputs =~= form@.inputs.insert(
                ConnectionFormInputTarget::LinkName,
                form.name_input@.focused(),
            ));
        }
        result
    }

    /// Whether the window is in a mode.
    pub fn is_mode(&self, mode: ConnectionLinkWindowMode) -> (result: bool)
        ensures
            result == (self.mode == mode),
    {
        self.mode == mode
    }

    /// The protocol of the window's form.
    pub fn link_kind(&self) -> (result: ConnectionLinkKind)
        ensures
            self.form@.link_kind == Some(result),
    {
        self.form.link_kind
    }

    /// Puts another form into the window, its name focused.
    pub fn replace_form(&mut self, form: ConnectionLinkFormState, mode: ConnectionLinkWindowMode)
        ensures
            final(self).form@ == form@.with_input(
                ConnectionFormInputTarget::LinkName,
                form.name_input@.focused(),
            ),
            final(self).mode == mode,
    {
        *self = ConnectionLinkWindow::new(form, mode);
    }

    /// The input of a target, where this window has it.
    fn input_mut(&mut self, target: ConnectionFormInputTarget) -> (result: Option<
        &mut TextInputState,
    >)
        ensures
            result is Some == is_link_target(target),
            match result {
                Some(input) => {
                    &&& *input == old(self).form.input(target)
                    &&& *final(self) == (ConnectionLinkWindow {
                        form: old(self).form.with_input(target, *final(input)),
                        ..*old(self)
                    })
                },
                None => *final(self) == *old(self),
            },
    {
        match target {
            ConnectionFormInputTarget::LinkName => Some(&mut self.form.name_input),
            ConnectionFormInputTarget::LinkHost => Some(&mut self.form.host_input),
            ConnectionFormInputTarget::LinkPort => Some(&mut self.form.port_input),
            ConnectionFormInputTarget::LinkUsername => Some(&mut self.form.username_input),
            ConnectionFormInputTarget::LinkPassword => Some(&mut self.form.password_input),
            ConnectionFormInputTarget::LinkShare => Some(&mut self.form.share_input),
            ConnectionFormInputTarget::LinkInitialDir => Some(&mut self.form.initial_dir_input),
            ConnectionFormInputTarget::LinkDomain => Some(&mut self.form.domain_input),
            ConnectionFormInputTarget::LinkPrivateKeyPath => Some(&mut self.form.private_key_path_input),
            ConnectionFormInputTarget::LinkPrivateKeyPassphrase => Some(&mut self.form.private_key_passphrase_input),
            _ => None,
        }
    }

    /// Takes the keyboard from every input.
    pub fn clear_input_focuses(&mut self)
        ensures
            final(self).form@ == old(self).form@.unfocused(),
            final(self).mode == old(self).mode,
    {
        clear_input_focus_state(&mut self.form.name_input);
        clear_input_focus_state(&mut self.form.host_input);
        clear_input_focus_state(&mut self.form.port_input);
        clear_input_focus_state(&mut self.form.username_input);
        clear_input_focus_state(&mut self.form.password_input);
        clear_input_focus_state(&mut self.form.share_input);
        clear_input_focus_state(&mut self.form.initial_dir_input);
        clear_input_focus_state(&mut self.form.domain_input);
        clear_input_focus_state(&mut self.form.private_key_path_input);
        clear_input_focus_state(&mut self.form.private_key_passphrase_input);
        proof {
            assert(self.form@.inputs =~= old(self).form@.unfocused().inputs);
        }
    }

    /// Gives one input the keyboard.
    pub fn focus_input(&mut self, target: ConnectionFormInputTarget)
        ensures
            final(self).form@ == old(self).form@.focused_on(target),
            final(self).mode == old(self).mode,
    {
        self.clear_input_focuses();
        match self.input_mut(target) {
            Some(input) => {
                focus_input_state(input);
            },
            None => {},
        }
        proof {
            assert(self.form@.inputs =~= old(self).form@.focused_on(target).inputs);
        }
    }

    /// Handles a key press in an input.
    pub fn handle_input_key(
        &mut self,
        target: ConnectionFormInputTarget,
        keystroke: &Keystroke,
        clipboard: &Option<String>,
    ) -> (result: ConnectionKeyOutcome)
        requires
            is_link_target(target) ==> takes_key(
                old(self).form.input(target)@,
                keystroke@,
            ),
        ensures
            final(self).form@ == old(self).form@.after_key(
                target,
                keystroke@,
                optional_text(*clipboard),
            ),
            final(self).mode == old(self).mode,
            outcome_of_key(
                old(self).form@,
                target,
                keystroke@,
                optional_text(*clipboard),
                result,
            ),
    {
        let outcome = match self.input_mut(target) {
            Some(input) => handle_form_key(input, keystroke, clipboard),
            None => {
                return ConnectionKeyOutcome {
                    action: ConnectionWindowInputAction::Ignored,
                    copied: None,
                };
            },
        };
        if outcome.action == ConnectionWindowInputAction::Changed {
            self.form.error_message = None;
        }
        proof {
            assert(self.form@.inputs =~= old(self).form@.after_key(
                target,
                keystroke@,
                optional_text(*clipboard),
            ).inputs);
        }
        outcome
    }

    /// The mouse button went down in an input.
    pub fn begin_pointer_selection(
        &mut self,
        target: ConnectionFormInputTarget,
        character_index: usize,
        granularity: TextSelectionGranularity,
        word: Option<Range<usize>>,
    )
        ensures
            final(self).form@ == old(self).form@.pressed(
                target,
                character_index,
                granularity,
                word,
            ),
            final(self).mode == old(self).mode,
    {
        self.focus_input(target);
        match self.input_mut(target) {
            Some(input) => {
                begin_input_pointer_selection(input, character_index, granularity, word);
            },
            None => {},
        }
        proof {
            assert(self.form@.inputs =~= old(self).form@.pressed(
                target,
                character_index,
                granularity,
                word,
            ).inputs);
        }
    }

    /// The mouse moved in an input with its button down.
    pub fn update_pointer_selection(
        &mut self,
        target: ConnectionFormInputTarget,
        character_index: usize,
        word: Option<Range<usize>>,
    )
        ensures
            final(self).form@ == old(self).form@.dragged(target, character_index, word),
            final(self).mode == old(self).mode,
    {
        match self.input_mut(target) {
            Some(input) => {
                update_input_pointer_selection(input, character_index, word);
            },
            None => {},
        }
        proof {
            assert(self.form@.inputs =~= old(self).form@.dragged(
                target,
                character_index,
                word,
            ).inputs);
        }
    }

    /// The mouse button went up.
    pub fn finish_pointer_selection(&mut self, target: ConnectionFormInputTarget)
        ensures
            final(self).form@ == old(self).form@.released(target),
            final(self).mode == old(self).mode,
    {
        match self.input_mut(target) {
            Some(input) => {
                finish_input_pointer_selection(input);
            },
            None => {},
        }
        proof {
            assert(self.form@.inputs =~= old(self).form@.released(target).inputs);
        }
    }

    /// Applies an edit of the system's input method.
    pub fn apply_native_edit(&mut self, target: ConnectionFormInputTarget, edit: &NativeTextEdit)
        ensures
            final(self).form@ == old(self).form@.natively_edited(target, *edit),
            final(self).mode == old(self).mode,
    {
        self.focus_input(target);
        let edited = match self.input_mut(target) {
            Some(input) => {
                apply_native_edit_to_input(input, edit);
                true
            },
            None => false,
        };
        if edited {
            self.form.error_message = None;
        }
        proof {
            assert(self.form@.inputs =~= old(self).form@.natively_edited(target, *edit).inputs);
        }
    }
}

// ---------------------------------------------------------------------------
// Submitting
// ---------------------------------------------------------------------------

/// What the application is asked to store.
#[derive(Clone, Copy, Debug, PartialEq, Eq, Structural)]
pub enum ConnectionSubmission {
    /// A new directory.
    CreateDirectory,
    /// Another name for a directory.
    UpdateDirectory(ConnectionNodeId),
    /// A new link.
    CreateLink,
    /// Other details of a link.
    UpdateLink(ConnectionNodeId),
}

impl ConnectionDirectoryWindow {
    /// What submitting the window stores.
    pub fn submission(&self) -> (result: ConnectionSubmission)
        ensures
            match self.mode {
                ConnectionDirectoryWindowMode::Create => result
                    == ConnectionSubmission::CreateDirectory,
                ConnectionDirectoryWindowMode::Edit { directory_id } => result
                    == ConnectionSubmission::UpdateDirectory(directory_id),
            },
    {
        match self.mode {
            ConnectionDirectoryWindowMode::Create => ConnectionSubmission::CreateDirectory,
            ConnectionDirectoryWindowMode::Edit { directory_id } => {
                ConnectionSubmission::UpdateDirectory(directory_id)
            },
        }
    }

    /// Takes the application's answer: the window closes where the form was
    /// stored, and else shows why it was not. Returns whether it closes.
    pub fn finish_submission(&mut self, answer: Result<(), String>) -> (result: bool)
        ensures
            result == (answer is Ok),
            final(self).form@.inputs == old(self).form@.inputs,
            final(self).mode == old(self).mode,
            final(self).form@.error_message == (match answer {
                Ok(_) => old(self).form@.error_message,
                Err(message) => Some(message@),
            }),
    {
        match answer {
            Ok(_) => true,
            Err(message) => {
                self.form.error_message = Some(message);
                proof {
                    assert(self.form@.inputs =~= old(self).form@.inputs);
                }
                false
            },
        }
    }
}

impl ConnectionLinkWindow {
    /// What submitting the window stores.
    pub fn submission(&self) -> (result: ConnectionSubmission)
        ensures
            match self.mode {
                ConnectionLinkWindowMode::Create => result == ConnectionSubmission::CreateLink,
                ConnectionLinkWindowMode::Edit { link_id } => result
                    == ConnectionSubmission::UpdateLink(link_id),
            },
    {
        match self.mode {
            ConnectionLinkWindowMode::Create => ConnectionSubmission::CreateLink,
            ConnectionLinkWindowMode::Edit { link_id } => {
                ConnectionSubmission::UpdateLink(link_id)
            },
        }
    }

    /// Takes the application's answer: the window closes where the form was
    /// stored, and else shows why it was not. Returns whether it closes.
    pub fn finish_submission(&mut self, answer: Result<(), String>) -> (result: bool)
        ensures
            result == (answer is Ok),
            final(self).form@.inputs == old(self).form@.inputs,
            final(self).mode == old(self).mode,
            final(self).form@.error_message == (match answer {
                Ok(_) => old(self).form@.error_message,
                Err(message) => Some(message@),
            }),
    {
        match answer {
            Ok(_) => true,
            Err(message) => {
                self.form.error_message = Some(message);
                proof {
                    assert(self.form@.inputs =~= old(self).form@.inputs);
                }
                false
            },
        }
    }
}

// ---------------------------------------------------------------------------
// What the windows show
// ---------------------------------------------------------------------------

/// One labelled input of a form.
#[derive(Clone, Copy, Debug, PartialEq, Eq)]
pub struct FormRow {
    /// The label in front of it.
    pub label: &'static str,
    /// The input.
    pub target: ConnectionFormInputTarget,
    /// What it shows while it is empty.
    pub placeholder: &'static str,
    /// Whether its text is hidden.
    pub is_secret: bool,
}

/// A [`FormRow`] with its texts as sequences of characters.
#[verifier::ext_equal]
pub struct FormRowModel {
    /// The label in front of it.
    pub label: Seq<char>,
    /// The input.
    pub target: ConnectionFormInputTarget,
    /// What it shows while it is empty.
    pub placeholder: Seq<char>,
    /// Whether its text is hidden.
    pub is_secret: bool,
}

impl View for FormRow {
    type V = FormRowModel;

    open spec fn view(&self) -> FormRowModel {
        FormRowModel {
            label: self.label@,
            target: self.target,
            placeholder: self.placeholder@,
            is_secret: self.is_secret,
        }
    }
}

/// The texts around a window's form.
#[derive(Clone, Copy, Debug, PartialEq, Eq)]
pub struct WindowTexts {
    /// The title.
    pub title: &'static str,
    /// What the button that closes the window says.
    pub close_tooltip: &'static str,
    /// What the button that submits the form says.
    pub submit_label: &'static str,
}

/// What a window of a connection shows: its texts, the rows of its form, and why the
/// form was last refused.
#[derive(Debug, PartialEq, Eq)]
pub struct FormAppearance {
    /// The texts around the form.
    pub texts: WindowTexts,
    /// The rows.
    pub rows: Vec<FormRow>,
    /// Why the form was last refused.
    pub error: Option<String>,
}

/// Whether the texts are those of a directory window.
pub open spec fn are_directory_texts(
    texts: WindowTexts,
    mode: ConnectionDirectoryWindowMode,
) -> bool {
    match mode {
        ConnectionDirectoryWindowMode::Create => texts.title@ == "新增目录"@ && texts.close_tooltip@
            == "关闭新增目录"@ && texts.submit_label@ == "创建目录"@,
        ConnectionDirectoryWindowMode::Edit { .. } => texts.title@ == "编辑目录"@
            && texts.close_tooltip@ == "关闭编辑目录"@ && texts.submit_label@ == "保存目录"@,
    }
}

/// The texts of a directory window.
pub fn directory_window_texts(mode: ConnectionDirectoryWindowMode) -> (result: WindowTexts)
    ensures
        are_directory_texts(result, mode),
{
    match mode {
        ConnectionDirectoryWindowMode::Create => WindowTexts {
            title: "新增目录",
            close_tooltip: "关闭新增目录",
            submit_label: "创建目录",
        },
        ConnectionDirectoryWindowMode::Edit { .. } => WindowTexts {
            title: "编辑目录",
            close_tooltip: "关闭编辑目录",
            submit_label: "保存目录",
        },
    }
}

/// Whether the texts are those of a link window.
pub open spec fn are_link_texts(
    texts: WindowTexts,
    mode: ConnectionLinkWindowMode,
    kind: ConnectionLinkKind,
) -> bool {
    &&& texts.title@ == (match (mode, kind) {
        (ConnectionLinkWindowMode::Create, ConnectionLinkKind::Ssh) => "新增 SSH 链接"@,
        (ConnectionLinkWindowMode::Create, ConnectionLinkKind::Smb) => "新增 SMB 链接"@,
        (ConnectionLinkWindowMode::Edit { .. }, ConnectionLinkKind::Ssh) => "编辑 SSH 链接"@,
        (ConnectionLinkWindowMode::Edit { .. }, ConnectionLinkKind::Smb) => "编辑 SMB 链接"@,
    })
    &&& match mode {
        ConnectionLinkWindowMode::Create => texts.close_tooltip@ == "关闭新增链接"@
            && texts.submit_label@ == "创建链接"@,
        ConnectionLinkWindowMode::Edit { .. } => texts.close_tooltip@ == "关闭编辑链接"@
            && texts.submit_label@ == "保存链接"@,
    }
}

/// The texts of a link window.
pub fn link_window_texts(mode: ConnectionLinkWindowMode, kind: ConnectionLinkKind) -> (result:
    WindowTexts)
    ensures
        are_link_texts(result, mode, kind),
{
    let title = match (mode, kind) {
        (ConnectionLinkWindowMode::Create, ConnectionLinkKind::Ssh) => "新增 SSH 链接",
        (ConnectionLinkWindowMode::Create, ConnectionLinkKind::Smb) => "新增 SMB 链接",
        (ConnectionLinkWindowMode::Edit { .. }, ConnectionLinkKind::Ssh) => "编辑 SSH 链接",
        (ConnectionLinkWindowMode::Edit { .. }, ConnectionLinkKind::Smb) => "编辑 SMB 链接",
    };
    match mode {
        ConnectionLinkWindowMode::Create => WindowTexts {
            title,
            close_tooltip: "关闭新增链接",
            submit_label: "创建链接",
        },
        ConnectionLinkWindowMode::Edit { .. } => WindowTexts {
            title,
            close_tooltip: "关闭编辑链接",
            submit_label: "保存链接",
        },
    }
}

fn form_row(
    label: &'static str,
    target: ConnectionFormInputTarget,
    placeholder: &'static str,
    is_secret: bool,
) -> (result: FormRow)
    ensures
        result@ == row_model(label@, target, placeholder@, is_secret),
{
    FormRow { label, target, placeholder, is_secret }
}

/// A row from its parts.
pub open spec fn row_model(
    label: Seq<char>,
    target: ConnectionFormInputTarget,
    placeholder: Seq<char>,
    is_secret: bool,
) -> FormRowModel {
    FormRowModel { label, target, placeholder, is_secret }
}

/// The rows of a directory window.
pub open spec fn directory_row_models() -> Seq<FormRowModel> {
    seq![row_model("目录名称"@, ConnectionFormInputTarget::DirectoryName, "生产环境"@, false)]
}

/// The rows of a link window. A link to a share asks for the share, a link to a
/// shell for the private key.
pub open spec fn link_row_models(kind: ConnectionLinkKind) -> Seq<FormRowModel> {
    let shared = seq![
        row_model("链接名称"@, ConnectionFormInputTarget::LinkName, "app-01"@, false),
        row_model("主机"@, ConnectionFormInputTarget::LinkHost, "10.0.0.1"@, false),
        row_model(
            "端口"@,
            ConnectionFormInputTarget::LinkPort,
            match kind {
                ConnectionLinkKind::Ssh => "22"@,
                ConnectionLinkKind::Smb => "445"@,
            },
            false,
        ),
        row_model("用户名"@, ConnectionFormInputTarget::LinkUsername, "deploy"@, false),
        row_model(
            "密码"@,
            ConnectionFormInputTarget::LinkPassword,
            match kind {
                ConnectionLinkKind::Ssh => "可选"@,
                ConnectionLinkKind::Smb => "必填"@,
            },
            true,
        ),
    ];
    match kind {
        ConnectionLinkKind::Smb => shared + seq![
            row_model("共享名称"@, ConnectionFormInputTarget::LinkShare, "share"@, false),
            row_model("初始目录"@, ConnectionFormInputTarget::LinkInitialDir, "/"@, false),
            row_model("域/工作组"@, ConnectionFormInputTarget::LinkDomain, "可选"@, false),
        ],
        ConnectionLinkKind::Ssh => shared + seq![
            row_model(
                "私钥路径"@,
                ConnectionFormInputTarget::LinkPrivateKeyPath,
                "~/.ssh/id_ed25519"@,
                false,
            ),
            row_model(
                "私钥口令"@,
                ConnectionFormInputTarget::LinkPrivateKeyPassphrase,
                "可选"@,
                true,
            ),
        ],
    }
}

/// The rows of a directory window.
pub fn directory_window_rows() -> (result: Vec<FormRow>)
    ensures
        result@.map_values(|row: FormRow| row@) == directory_row_models(),
{
    let mut rows: Vec<FormRow> = Vec::new();
    rows.push(
        form_row("目录名称", ConnectionFormInputTarget::DirectoryName, "生产环境", false),
    );
    proof {
        assert(rows@.map_values(|row: FormRow| row@) =~= directory_row_models());
    }
    rows
}

/// The rows of a link window.
pub fn link_window_rows(kind: ConnectionLinkKind) -> (result: Vec<FormRow>)
    ensures
        result@.map_values(|row: FormRow| row@) == link_row_models(kind),
{
    let port_placeholder = match kind {
        ConnectionLinkKind::Ssh => "22",
        ConnectionLinkKind::Smb => "445",
    };
    let password_placeholder = match kind {
        ConnectionLinkKind::Ssh => "可选",
        ConnectionLinkKind::Smb => "必填",
    };
    let mut rows: Vec<FormRow> = Vec::new();
    rows.push(form_row("链接名称", ConnectionFormInputTarget::LinkName, "app-01", false));
    rows.push(form_row("主机", ConnectionFormInputTarget::LinkHost, "10.0.0.1", false));
    rows.push(form_row("端口", ConnectionFormInputTarget::LinkPort, port_placeholder, false));
    rows.push(form_row("用户名", ConnectionFormInputTarget::LinkUsername, "deploy", false));
    rows.push(form_row("密码", ConnectionFormInputTarget::LinkPassword, password_placeholder, true));
    match kind {
        ConnectionLinkKind::Smb => {
            rows.push(form_row("共享名称", ConnectionFormInputTarget::LinkShare, "share", false));
            rows.push(form_row("初始目录", ConnectionFormInputTarget::LinkInitialDir, "/", false));
            rows.push(form_row("域/工作组", ConnectionFormInputTarget::LinkDomain, "可选", false));
        },
        ConnectionLinkKind::Ssh => {
            rows.push(
                form_row(
                    "私钥路径",
                    ConnectionFormInputTarget::LinkPrivateKeyPath,
                    "~/.ssh/id_ed25519",
                    false,
                ),
            );
            rows.push(
                form_row(
                    "私钥口令",
                    ConnectionFormInputTarget::LinkPrivateKeyPassphrase,
                    "可选",
                    true,
                ),
            );
        },
    }
    proof {
        assert(rows@.map_values(|row: FormRow| row@) =~= link_row_models(kind));
    }
    rows
}

/// The id of the element that shows an input.
pub open spec fn input_id(target: ConnectionFormInputTarget) -> Seq<char> {
    match target {
        ConnectionFormInputTarget::DirectoryName => "connection-directory-name-input"@,
        ConnectionFormInputTarget::LinkName => "connection-link-name-input"@,
        ConnectionFormInputTarget::LinkHost => "connection-link-host-input"@,
        ConnectionFormInputTarget::LinkPort => "connection-link-port-input"@,
        ConnectionFormInputTarget::LinkUsername => "connection-link-username-input"@,
        ConnectionFormInputTarget::LinkPassword => "connection-link-password-input"@,
        ConnectionFormInputTarget::LinkShare => "connection-link-share-input"@,
        ConnectionFormInputTarget::LinkInitialDir => "connection-link-initial-dir-input"@,
        ConnectionFormInputTarget::LinkDomain => "connection-link-domain-input"@,
        ConnectionFormInputTarget::LinkPrivateKeyPath => "connection-link-private-key-input"@,
        ConnectionFormInputTarget::LinkPrivateKeyPassphrase =>
            "connection-link-private-key-passphrase-input"@,
    }
}

/// Works out what a directory window shows.
pub fn directory_window_appearance(window: &ConnectionDirectoryWindow) -> (result: FormAppearance)
    ensures
        are_directory_texts(result.texts, window.mode),
        result.rows@.map_values(|row: FormRow| row@) == directory_row_models(),
        optional_text(result.error) == window.form@.error_message,
{
    FormAppearance {
        texts: directory_window_texts(window.mode),
        rows: directory_window_rows(),
        error: copy_optional_text(&window.form.error_message),
    }
}

/// Works out what a link window shows.
pub fn link_window_appearance(window: &ConnectionLinkWindow) -> (result: FormAppearance)
    ensures
        are_link_texts(result.texts, window.mode, window.form.link_kind),
        result.rows@.map_values(|row: FormRow| row@) == link_row_models(window.form.link_kind),
        optional_text(result.error) == window.form@.error_message,
{
    FormAppearance {
        texts: link_window_texts(window.mode, window.form.link_kind),
        rows: link_window_rows(window.form.link_kind),
        error: copy_optional_text(&window.form.error_message),
    }
}

/// The id of the element that shows an input.
pub fn input_id_for_target(target: ConnectionFormInputTarget) -> (result: &'static str)
    ensures
        result@ == input_id(target),
{
    match target {
        ConnectionFormInputTarget::DirectoryName => "connection-directory-name-input",
        ConnectionFormInputTarget::LinkName => "connection-link-name-input",
        ConnectionFormInputTarget::LinkHost => "connection-link-host-input",
        ConnectionFormInputTarget::LinkPort => "connection-link-port-input",
        ConnectionFormInputTarget::LinkUsername => "connection-link-username-input",
        ConnectionFormInputTarget::LinkPassword => "connection-link-password-input",
        ConnectionFormInputTarget::LinkShare => "connection-link-share-input",
        ConnectionFormInputTarget::LinkInitialDir => "connection-link-initial-dir-input",
        ConnectionFormInputTarget::LinkDomain => "connection-link-domain-input",
        ConnectionFormInputTarget::LinkPrivateKeyPath => "connection-link-private-key-input",
        ConnectionFormInputTarget::LinkPrivateKeyPassphrase => {
            "connection-link-private-key-passphrase-input"
        },
    }
}

// ---------------------------------------------------------------------------
// The prompts
// ---------------------------------------------------------------------------

/// What a host key prompt asks about.
#[derive(Debug, PartialEq, Eq)]
pub struct ConnectionHostKeyPromptState {
    /// The host.
    pub host: String,
    /// The port.
    pub port: u16,
    /// The fingerprint of its key.
    pub fingerprint: String,
}

/// What a deletion prompt asks about.
#[derive(Debug, PartialEq, Eq)]
pub struct ConnectionDeletePromptState {
    /// The node.
    pub node_id: ConnectionNodeId,
    /// Whether it is a directory.
    pub is_directory: bool,
    /// What it is called.
    pub label: String,
}

/// The dialog that a connection workspace has open.
#[derive(Debug, PartialEq, Eq)]
pub enum ConnectionDialogState {
    /// A new directory, which has a window of its own.
    NewDirectory,
    /// A new link, which has a window of its own.
    NewSshLink,
    /// Whether to trust a host.
    ConfirmHostKey(ConnectionHostKeyPromptState),
    /// Whether to delete a node.
    ConfirmDelete(ConnectionDeletePromptState),
}

/// The prompt that stands over the main window.
#[derive(Clone, Copy, Debug, PartialEq, Eq, Structural)]
pub enum VisiblePrompt {
    /// None.
    Nothing,
    /// Whether to trust a host.
    HostKey,
    /// Whether to delete a node.
    Deletion,
}

/// Which prompt stands over the main window: dialogs with windows of their own
/// show none.
pub fn visible_prompt(dialog: &Option<ConnectionDialogState>) -> (result: VisiblePrompt)
    ensures
        result == (match dialog {
            Some(ConnectionDialogState::ConfirmHostKey(_)) => VisiblePrompt::HostKey,
            Some(ConnectionDialogState::ConfirmDelete(_)) => VisiblePrompt::Deletion,
            _ => VisiblePrompt::Nothing,
        }),
{
    match dialog {
        Some(ConnectionDialogState::ConfirmHostKey(_)) => VisiblePrompt::HostKey,
        Some(ConnectionDialogState::ConfirmDelete(_)) => VisiblePrompt::Deletion,
        _ => VisiblePrompt::Nothing,
    }
}

/// What a host key prompt asks.
pub fn host_key_question(prompt: &ConnectionHostKeyPromptState) -> (result: String)
    ensures
        result@ == prompt.host@ + ":"@ + decimal_text(prompt.port as nat)
            + " 首次连接，需要确认主机指纹。"@,
{
    let mut result = prompt.host.clone();
    result.push_str(":");
    let port = decimal(prompt.port as u64);
    result.push_str(port.as_str());
    result.push_str(" 首次连接，需要确认主机指纹。");
    result
}

/// What a deletion prompt asks.
pub fn delete_question(prompt: &ConnectionDeletePromptState) -> (result: String)
    ensures
        result@ == "确定要删除"@ + (if prompt.is_directory {
            "目录"@
        } else {
            "SSH 链接"@
        }) + "「"@ + prompt.label@ + "」吗？"@,
{
    let mut result = "确定要删除".to_owned();
    result.push_str(
        if prompt.is_directory {
            "目录"
        } else {
            "SSH 链接"
        },
    );
    result.push_str("「");
    result.push_str(prompt.label.as_str());
    result.push_str("」吗？");
    result
}

// ---------------------------------------------------------------------------
// Laws
// ---------------------------------------------------------------------------

/// Focusing an input of a form leaves no other input focused, and none of the
/// texts changed.
pub proof fn law_focus_is_exclusive(
    form: FormModel,
    target: ConnectionFormInputTarget,
    other: ConnectionFormInputTarget,
)
    requires
        form.inputs.dom().contains(target),
        form.inputs.dom().contains(other),
    ensures
        form.focused_on(target).inputs[target].is_focused,
        other != target ==> !form.focused_on(target).inputs[other].is_focused,
        form.focused_on(target).inputs[other].value == form.inputs[other].value,
{
}

/// Whatever is done to one input of a form, the texts of the other inputs stay.
pub proof fn law_other_inputs_stay(
    form: FormModel,
    target: ConnectionFormInputTarget,
    other: ConnectionFormInputTarget,
    keystroke: KeystrokeModel,
    clipboard: Option<Seq<char>>,
    edit: NativeTextEdit,
)
    requires
        form.inputs.dom().contains(other),
        other != target,
    ensures
        form.after_key(target, keystroke, clipboard).inputs[other] == form.inputs[other],
        form.natively_edited(target, edit).inputs[other].value == form.inputs[other].value,
{
}

/// The rows of a link window show inputs of that window, each at most once, and
/// exactly the password and the pass phrase are hidden.
pub proof fn law_link_rows(kind: ConnectionLinkKind, first: int, second: int)
    requires
        0 <= first < link_row_models(kind).len(),
        0 <= second < link_row_models(kind).len(),
    ensures
        is_link_target(link_row_models(kind)[first].target),
        first != second ==> link_row_models(kind)[first].target != link_row_models(
            kind,
        )[second].target,
        link_row_models(kind)[first].is_secret == (link_row_models(kind)[first].target
            is LinkPassword || link_row_models(kind)[first].target is LinkPrivateKeyPassphrase),
{
    let rows = link_row_models(kind);
    if kind is Smb {
        assert(rows.len() == 8);
    } else {
        assert(rows.len() == 7);
    }
}

} // verus!
