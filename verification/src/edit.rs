//! How the prompt is edited.
//!
//! The program performs an [`EditAction`], tells [`edit_next`] what came of it in
//! an [`EditEvent`], and is told the next action, until it is told to finish.
use vstd::prelude::*;
use vstd::string::*;
use vstd::utf8::*;
use crate::error::Error;
use crate::protocol;
use crate::settings;
use crate::text;

verus! {

/// The file in which the process `pid` has the prompt edited.
pub fn edit_file_name(pid: u32) -> (name: String)
    ensures
        name@ == "prompt-edit-"@ + text::decimal(pid as nat) + ".txt"@,
{
    let mut name = "prompt-edit-".to_owned();
    name.append(text::decimal_text(pid as u64).as_str());
    name.append(".txt");
    name
}

/// What the editor is given: the prompt, as a line.
pub open spec fn document(prompt: Seq<char>) -> Seq<char> {
    prompt + "\n"@
}

/// What the editor is given: the prompt, as a line.
pub fn edit_document(prompt: &str) -> (text: String)
    ensures
        text@ == document(prompt@),
{
    let mut text = prompt.to_owned();
    text.append("\n");
    text
}

/// The first of the two that is set to something, or `vi`.
pub open spec fn editor_of(visual: Option<Seq<char>>, editor: Option<Seq<char>>) -> Seq<char> {
    match visual {
        Some(command) if !text::is_blank(command) => command,
        _ => match editor {
            Some(command) if !text::is_blank(command) => command,
            _ => "vi"@,
        },
    }
}

/// The editor, as a shell command: the first of the two that is set to
/// something, or `vi`.
pub fn choose_editor(visual: Option<String>, editor: Option<String>) -> (command: String)
    ensures
        command@ == editor_of(protocol::optional_text(visual), protocol::optional_text(editor)),
{
    match visual {
        Some(command) => {
            if !text::blank(command.as_str()) {
                return command;
            }
        },
        None => {},
    }
    match editor {
        Some(command) => {
            if !text::blank(command.as_str()) {
                return command;
            }
        },
        None => {},
    }
    "vi".to_owned()
}

/// The shell script that runs the editor on the file that is its argument.
pub open spec fn script_for(editor: Seq<char>) -> Seq<char> {
    "exec "@ + editor + " \"$1\""@
}

/// The shell script that runs the editor on the file that is its argument.
pub fn editor_script(editor: &str) -> (script: String)
    ensures
        script@ == script_for(editor@),
{
    let mut script = "exec ".to_owned();
    script.append(editor);
    script.append(" \"$1\"");
    script
}

/// Whether an edited text can be the prompt.
pub open spec fn acceptable_prompt(text: Seq<char>) -> bool {
    encode_utf8(text).len() < protocol::LIMIT && !text::is_blank(text)
}

/// The prompt to save where the editor left `text`: the text without the white
/// space around it. An empty or oversized one is not saved.
pub fn accept_prompt(text: &str) -> (prompt: Result<String, Error>)
    ensures
        match prompt {
            Ok(prompt) => acceptable_prompt(text@) && prompt@ == text::trimmed(text@),
            Err(error) => !acceptable_prompt(text@) && error == Error::PromptRejected,
        },
{
    if text::byte_len(text) as u64 >= protocol::LIMIT || text::blank(text) {
        return Err(Error::PromptRejected);
    }
    Ok(text::trim(text).to_owned())
}

/// A prompt that was saved from the editor, and is edited without a change, is
/// saved as it was, provided that there is room for the end of its line.
pub proof fn unchanged_edit_keeps_the_prompt(edited: Seq<char>)
    requires
        acceptable_prompt(edited),
        encode_utf8(document(text::trimmed(edited))).len() < protocol::LIMIT,
    ensures
        acceptable_prompt(document(text::trimmed(edited))),
        text::trimmed(document(text::trimmed(edited))) == text::trimmed(edited),
{
    let prompt = text::trimmed(edited);
    let line = document(prompt);
    text::trimmed_has_no_outer_space(edited);
    reveal_strlit("\n");
    assert("\n"@.len() == 1 && "\n"@[0] == '\n');
    assert(line[0] == prompt[0]);
    assert(line[prompt.len() - 1] == prompt.last());
    text::lemma_trimmed(line, 0, prompt.len() as int);
    assert(line.subrange(0, prompt.len() as int) =~= prompt);
}

/// What editing waits for.
pub enum EditState {
    /// The saved prompt; the editor is this shell command.
    Prompt { editor: String },
    /// The file to be written.
    Writing { editor: String },
    /// The editor.
    Running,
    /// The text that the editor left.
    Reading,
    /// The prompt to be saved.
    Saving,
    /// Nothing.
    Done,
}

/// The model of an [`EditState`].
pub enum EditStateView {
    Prompt { editor: Seq<char> },
    Writing { editor: Seq<char> },
    Running,
    Reading,
    Saving,
    Done,
}

impl View for EditState {
    type V = EditStateView;

    open spec fn view(&self) -> EditStateView {
        match *self {
            EditState::Prompt { editor } => EditStateView::Prompt { editor: editor@ },
            EditState::Writing { editor } => EditStateView::Writing { editor: editor@ },
            EditState::Running => EditStateView::Running,
            EditState::Reading => EditStateView::Reading,
            EditState::Saving => EditStateView::Saving,
            EditState::Done => EditStateView::Done,
        }
    }
}

/// What came of an action.
pub enum EditEvent {
    /// The prompt that is saved, if there is one.
    SavedPrompt(Option<String>),
    /// The file is written.
    Written,
    /// The editor ended.
    Ended { success: bool },
    /// What the file holds, up to the limit.
    Text(String),
    /// The prompt is saved.
    Saved,
    /// The action failed.
    Failed(Error),
}

/// What the program does next.
pub enum EditAction {
    /// Read the saved prompt.
    ReadPrompt,
    /// Write the file.
    Write { document: String },
    /// Run the script in a shell, on the file.
    Run { script: String },
    /// Read the file.
    Read,
    /// Save the prompt.
    Save { prompt: String },
    /// End.
    Finish(Result<(), Error>),
}

/// The model of an [`EditAction`].
pub enum EditActionView {
    ReadPrompt,
    Write { document: Seq<char> },
    Run { script: Seq<char> },
    Read,
    Save { prompt: Seq<char> },
    Finish(Result<(), Error>),
}

impl View for EditAction {
    type V = EditActionView;

    open spec fn view(&self) -> EditActionView {
        match *self {
            EditAction::ReadPrompt => EditActionView::ReadPrompt,
            EditAction::Write { document } => EditActionView::Write { document: document@ },
            EditAction::Run { script } => EditActionView::Run { script: script@ },
            EditAction::Read => EditActionView::Read,
            EditAction::Save { prompt } => EditActionView::Save { prompt: prompt@ },
            EditAction::Finish(result) => EditActionView::Finish(result),
        }
    }
}

/// Whether `event` is something that the state waits for.
pub open spec fn expects(state: EditStateView, event: EditEvent) -> bool {
    match (state, event) {
        (EditStateView::Done, _) => false,
        (_, EditEvent::Failed(_)) => true,
        (EditStateView::Prompt { .. }, EditEvent::SavedPrompt(_)) => true,
        (EditStateView::Writing { .. }, EditEvent::Written) => true,
        (EditStateView::Running, EditEvent::Ended { .. }) => true,
        (EditStateView::Reading, EditEvent::Text(_)) => true,
        (EditStateView::Saving, EditEvent::Saved) => true,
        _ => false,
    }
}

/// Ends in `result`.
pub open spec fn finish(result: Result<(), Error>) -> (EditStateView, EditActionView) {
    (EditStateView::Done, EditActionView::Finish(result))
}

/// What follows an event that the state waits for. The text is looked at only
/// where the editor succeeded, and saved only where it can be the prompt.
pub open spec fn next(state: EditStateView, event: EditEvent) -> (EditStateView, EditActionView) {
    match (state, event) {
        (_, EditEvent::Failed(error)) => finish(Err(error)),
        (EditStateView::Prompt { editor }, EditEvent::SavedPrompt(saved)) => (
            EditStateView::Writing { editor },
            EditActionView::Write {
                document: document(settings::prompt_in_force(protocol::optional_text(saved))),
            },
        ),
        (EditStateView::Writing { editor }, _) => (
            EditStateView::Running,
            EditActionView::Run { script: script_for(editor) },
        ),
        (EditStateView::Running, EditEvent::Ended { success }) => if success {
            (EditStateView::Reading, EditActionView::Read)
        } else {
            finish(Err(Error::EditorFailed))
        },
        (EditStateView::Reading, EditEvent::Text(text)) => if acceptable_prompt(text@) {
            (EditStateView::Saving, EditActionView::Save { prompt: text::trimmed(text@) })
        } else {
            finish(Err(Error::PromptRejected))
        },
        (EditStateView::Saving, _) => finish(Ok(())),
        _ => arbitrary(),
    }
}

/// Starts to edit the prompt, by the variables `VISUAL` and `EDITOR`.
pub fn edit_prompt(visual: Option<String>, editor: Option<String>) -> (first: (
    EditState,
    EditAction,
))
    ensures
        first.0@ == (EditStateView::Prompt {
            editor: editor_of(protocol::optional_text(visual), protocol::optional_text(editor)),
        }),
        first.1@ == EditActionView::ReadPrompt,
{
    (EditState::Prompt { editor: choose_editor(visual, editor) }, EditAction::ReadPrompt)
}

/// Decides what follows an event.
pub fn edit_next(state: EditState, event: EditEvent) -> (after: (EditState, EditAction))
    requires
        expects(state@, event),
    ensures
        (after.0@, after.1@) == next(state@, event),
{
    match (state, event) {
        (_, EditEvent::Failed(error)) => (EditState::Done, EditAction::Finish(Err(error))),
        (EditState::Prompt { editor }, EditEvent::SavedPrompt(saved)) => {
            let document = edit_document(settings::prompt(saved).as_str());
            (EditState::Writing { editor }, EditAction::Write { document })
        },
        (EditState::Writing { editor }, _) => (
            EditState::Running,
            EditAction::Run { script: editor_script(editor.as_str()) },
        ),
        (EditState::Running, EditEvent::Ended { success }) => {
            if success {
                (EditState::Reading, EditAction::Read)
            } else {
                (EditState::Done, EditAction::Finish(Err(Error::EditorFailed)))
            }
        },
        (EditState::Reading, EditEvent::Text(text)) => {
            match accept_prompt(text.as_str()) {
                Ok(prompt) => (EditState::Saving, EditAction::Save { prompt }),
                Err(error) => (EditState::Done, EditAction::Finish(Err(error))),
            }
        },
        (EditState::Saving, _) => (EditState::Done, EditAction::Finish(Ok(()))),
        _ => vstd::pervasive::unreached(),
    }
}

/// What editing meets: the prompt that is saved, whether the editor succeeds, and
/// the text that it leaves where the file held a given document.
pub struct Desk {
    pub saved: Option<String>,
    pub success: bool,
    pub left: spec_fn(Seq<char>) -> String,
}

/// How editing ends, and what is then saved of the prompt.
pub struct Edited {
    pub result: Result<(), Error>,
    pub saved: Option<Seq<char>>,
}

/// How many actions can still follow in a state.
pub open spec fn steps_left(state: EditStateView) -> nat {
    match state {
        EditStateView::Prompt { .. } => 5,
        EditStateView::Writing { .. } => 4,
        EditStateView::Running => 3,
        EditStateView::Reading => 2,
        EditStateView::Saving => 1,
        EditStateView::Done => 0,
    }
}

/// The rest of editing that is in `state` and about to do `action`, where the
/// file holds `file` and `saved` is saved.
pub open spec fn edit_from(
    state: EditStateView,
    action: EditActionView,
    desk: Desk,
    file: Seq<char>,
    saved: Option<Seq<char>>,
) -> Edited
    decreases steps_left(state),
{
    let (event, file_then, saved_then) = match action {
        EditActionView::ReadPrompt => (EditEvent::SavedPrompt(desk.saved), file, saved),
        EditActionView::Write { document } => (EditEvent::Written, document, saved),
        EditActionView::Run { .. } => (EditEvent::Ended { success: desk.success }, file, saved),
        EditActionView::Read => (EditEvent::Text((desk.left)(file)), file, saved),
        EditActionView::Save { prompt } => (EditEvent::Saved, file, Some(prompt)),
        EditActionView::Finish(_) => arbitrary(),
    };
    match action {
        EditActionView::Finish(result) => Edited { result, saved },
        _ => {
            let (after, then_do) = next(state, event);
            if expects(state, event) && steps_left(after) < steps_left(state) {
                edit_from(after, then_do, desk, file_then, saved_then)
            } else {
                arbitrary()
            }
        },
    }
}

/// Editing from its start to its end.
pub open spec fn edited(editor: Seq<char>, desk: Desk) -> Edited {
    edit_from(
        EditStateView::Prompt { editor },
        EditActionView::ReadPrompt,
        desk,
        Seq::empty(),
        protocol::optional_text(desk.saved),
    )
}

/// The editor is given the prompt that holds. What it leaves is saved if it
/// succeeds and the text is neither empty nor too long; otherwise the saved
/// prompt stays as it was.
pub proof fn failed_edit_keeps_the_prompt(editor: Seq<char>, desk: Desk)
    ensures
        ({
            let before = protocol::optional_text(desk.saved);
            let text = (desk.left)(document(settings::prompt_in_force(before)))@;
            edited(editor, desk) == if !desk.success {
                Edited { result: Err(Error::EditorFailed), saved: before }
            } else if !acceptable_prompt(text) {
                Edited { result: Err(Error::PromptRejected), saved: before }
            } else {
                Edited { result: Ok(()), saved: Some(text::trimmed(text)) }
            }
        }),
{
    reveal_with_fuel(edit_from, 7);
}

/// The editor is the first of the two variables that holds more than white space,
/// as it stands, and `vi` where neither does.
pub proof fn first_editor_that_is_set_is_used(
    visual: Seq<char>,
    editor: Seq<char>,
    unset: Option<Seq<char>>,
    other: Option<Seq<char>>,
)
    requires
        !text::is_blank(visual),
        !text::is_blank(editor),
        unset is None || text::is_blank(unset->0),
    ensures
        editor_of(Some(visual), other) == visual,
        editor_of(unset, Some(editor)) == editor,
        editor_of(unset, unset) == "vi"@,
{
}

/// The script runs the editor as it is set, in the place of the shell, on its one
/// argument; what is edited is the prompt and one end of line.
pub proof fn editor_is_run_as_it_is_set(editor: Seq<char>, prompt: Seq<char>, event: EditEvent)
    requires
        event is Written,
    ensures
        next(EditStateView::Writing { editor }, event) == (
            EditStateView::Running,
            EditActionView::Run { script: "exec "@ + editor + " \"$1\""@ },
        ),
        document(prompt) == prompt.push('\n'),
{
    reveal_strlit("\n");
    assert(document(prompt) =~= prompt.push('\n'));
}

/// An edited text can be the prompt if and only if it has fewer bytes than a
/// mebibyte and a character that is no white space.
pub proof fn prompt_is_bounded_and_says_something(text: Seq<char>)
    ensures
        acceptable_prompt(text) <==> {
            &&& encode_utf8(text).len() <= 1048575
            &&& exists|i: int| 0 <= i < text.len() && !text::is_space(#[trigger] text[i])
        },
{
}

/// Whatever fails while the prompt is edited ends it with that error, and nothing is
/// saved after that.
pub proof fn failure_ends_the_edit(state: EditStateView, error: Error)
    requires
        !(state is Done),
    ensures
        expects(state, EditEvent::Failed(error)),
        next(state, EditEvent::Failed(error)) == (
            EditStateView::Done,
            EditActionView::Finish(Err(error)),
        ),
{
}

/// What editing does next is known by its model.
pub proof fn action_is_known_by_its_model(a: EditAction, b: EditAction)
    requires
        a@ == b@,
    ensures
        match (a, b) {
            (EditAction::ReadPrompt, EditAction::ReadPrompt) => true,
            (EditAction::Write { document: x }, EditAction::Write { document: y }) => x@ == y@,
            (EditAction::Run { script: x }, EditAction::Run { script: y }) => x@ == y@,
            (EditAction::Read, EditAction::Read) => true,
            (EditAction::Save { prompt: x }, EditAction::Save { prompt: y }) => x@ == y@,
            (EditAction::Finish(x), EditAction::Finish(y)) => x == y,
            _ => false,
        },
{
}

/// What editing waits for is known by its model.
pub proof fn state_is_known_by_its_model(a: EditState, b: EditState)
    requires
        a@ == b@,
    ensures
        match (a, b) {
            (EditState::Prompt { editor: x }, EditState::Prompt { editor: y }) => x@ == y@,
            (EditState::Writing { editor: x }, EditState::Writing { editor: y }) => x@ == y@,
            (EditState::Running, EditState::Running) => true,
            (EditState::Reading, EditState::Reading) => true,
            (EditState::Saving, EditState::Saving) => true,
            (EditState::Done, EditState::Done) => true,
            _ => false,
        },
{
}

} // verus!
