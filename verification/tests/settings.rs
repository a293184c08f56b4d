use plz::paths::{check_owner, state_dir};
use plz::edit::{
    accept_prompt, choose_editor, edit_document, edit_file_name, edit_next, edit_prompt,
    editor_script, EditAction, EditEvent,
};
use plz::error::Error;
use plz::settings::{
    api_key, environment_key, is_enabled, prompt, set_enabled, set_key, switch_line,
    Change, API_KEY, DEFAULT_PROMPT, ENABLED, PROMPT,
};
use std::collections::BTreeMap;
use std::path::PathBuf;

fn text(words: &str) -> Option<String> {
    Some(words.to_string())
}

fn bytes(words: &str) -> Option<Vec<u8>> {
    Some(words.as_bytes().to_vec())
}

#[test]
fn checks_default_to_on_and_remember() {
    assert!(is_enabled(None));
    assert!(is_enabled(text(set_enabled(true))));
    assert!(!is_enabled(text(set_enabled(false))));
    assert!(is_enabled(text("")));
    assert_eq!((set_enabled(true), set_enabled(false)), ("1", "0"));
    assert_eq!((switch_line(true), switch_line(false)), ("plz on", "plz off"));
}

#[test]
fn prompt_defaults() {
    assert_eq!(prompt(None), DEFAULT_PROMPT);
    assert_eq!(
        DEFAULT_PROMPT,
        "Catch likely shell mistakes: typos, wrong paths or flags, and \
         unintended destructive effects. Ask for confirmation when a command looks accidental; \
         otherwise allow it."
    );
    assert_eq!(prompt(text("mine")), "mine");
}

#[test]
fn editor_is_the_first_that_is_set() {
    assert_eq!(choose_editor(text("code -w"), text("nano")), "code -w");
    assert_eq!(choose_editor(text(" \t"), text("nano")), "nano");
    assert_eq!(choose_editor(None, text("nano")), "nano");
    assert_eq!(choose_editor(None, text("\n")), "vi");
    assert_eq!(choose_editor(None, None), "vi");
    assert_eq!(editor_script("code -w"), "exec code -w \"$1\"");
    assert_eq!(edit_file_name(4294967295), "prompt-edit-4294967295.txt");
    assert_eq!(edit_file_name(7), "prompt-edit-7.txt");
}

#[test]
fn edited_prompt_is_trimmed_and_bounded() {
    assert_eq!(accept_prompt("  be kind \n\n").unwrap(), "be kind");
    let rejected = "prompt must be nonempty and shorter than 1 MiB";
    assert_eq!(accept_prompt(" \n\u{3000}").unwrap_err().message(), rejected);
    assert_eq!(accept_prompt("").unwrap_err().message(), rejected);
    let long = "x".repeat(1024 * 1024);
    assert_eq!(accept_prompt(&long).unwrap_err().message(), rejected);
    assert_eq!(accept_prompt(&long[1..]).unwrap().len(), 1024 * 1024 - 1);
}

struct Edit {
    result: Result<(), Error>,
    saved: Option<String>,
    given: String,
    script: String,
}

fn edit(saved: Option<&str>, success: bool, left: impl Fn(&str) -> String) -> Edit {
    let mut saved = saved.map(str::to_string);
    let (mut file, mut given, mut ran) = (String::new(), String::new(), String::new());
    let (mut state, mut action) = edit_prompt(text("nano -w"), None);
    loop {
        let event = match action {
            EditAction::ReadPrompt => EditEvent::SavedPrompt(saved.clone()),
            EditAction::Write { document } => {
                given = document.clone();
                file = document;
                EditEvent::Written
            }
            EditAction::Run { script } => {
                ran = script;
                file = left(&file);
                EditEvent::Ended { success }
            }
            EditAction::Read => EditEvent::Text(file.clone()),
            EditAction::Save { prompt } => {
                saved = Some(prompt);
                EditEvent::Saved
            }
            EditAction::Finish(result) => return Edit { result, saved, given, script: ran },
        };
        (state, action) = edit_next(state, event);
    }
}

#[test]
fn edit_saves_what_the_editor_left() {
    let done = edit(None, true, |document| document.replace("typos", "errors"));
    assert!(done.result.is_ok());
    assert_eq!(done.script, "exec nano -w \"$1\"");
    assert_eq!(done.given, format!("{DEFAULT_PROMPT}\n"));
    assert_eq!(done.saved.unwrap(), DEFAULT_PROMPT.replace("typos", "errors"));
}

#[test]
fn failed_edits_keep_the_prompt() {
    let done = edit(Some("mine"), false, |_| "other".to_string());
    let failed = "editor exited unsuccessfully; prompt not saved";
    assert_eq!(done.result.unwrap_err().message(), failed);
    assert_eq!(done.saved.as_deref(), Some("mine"));
    let done = edit(Some("mine"), true, |_| " \n".to_string());
    let rejected = "prompt must be nonempty and shorter than 1 MiB";
    assert_eq!(done.result.unwrap_err().message(), rejected);
    assert_eq!(done.saved.as_deref(), Some("mine"));
    let (state, _) = edit_prompt(None, None);
    let lost = EditEvent::Failed(Error::Outside("disk full".to_string()));
    let (_, action) = edit_next(state, lost);
    assert!(matches!(action, EditAction::Finish(Err(_))));
}

#[test]
fn unchanged_edit_keeps_the_prompt() {
    assert_eq!(edit_document("be kind"), "be kind\n");
    let saved = accept_prompt("\u{a0}be\nkind\u{2028}").unwrap();
    assert_eq!(accept_prompt(&edit_document(&saved)).unwrap(), saved);
}

#[test]
fn environment_key_overrides_the_saved_one() {
    assert_eq!(api_key(text("e"), text("s")), "e");
    assert_eq!(api_key(text(""), text("s")), "s");
    assert_eq!(api_key(None, text("s")), "s");
    assert_eq!(api_key(None, None), "");
    assert_eq!(environment_key(text("")), None);
    assert_eq!(environment_key(text("e")), text("e"));
}

#[test]
fn key_is_one_token() {
    assert_eq!(set_key("  abc-123\n", true).unwrap(), "abc-123");
    assert_eq!(set_key("clé", false).unwrap(), "clé");
    let rejected = "API key must be a nonempty token shorter than 8192 bytes";
    for input in ["", " \n", "a b", "a\u{7f}b", "a\u{0}", "a\u{2003}b", "a\u{85}b"] {
        assert_eq!(set_key(input, true).unwrap_err().message(), rejected);
    }
    let long = "k".repeat(8192);
    assert_eq!(set_key(&long, true).unwrap_err().message(), "API key input is too long");
    assert_eq!(set_key(&long, false).unwrap_err().message(), rejected);
    assert_eq!(set_key(&long[1..], true).unwrap().len(), 8191);
    let padded = format!("{}{}", " ".repeat(8192), "k");
    assert_eq!(set_key(&padded, true).unwrap_err().message(), "API key input is too long");
    assert_eq!(set_key(&padded, false).unwrap(), "k");
}

#[test]
fn saved_key_is_accepted_again() {
    let saved = set_key("\t token \r\n", true).unwrap();
    assert_eq!(set_key(&saved, true).unwrap(), saved);
}

type Rows = BTreeMap<&'static str, String>;

fn make(rows: &mut Rows, change: Change) -> &'static str {
    match change.value() {
        Some(value) => rows.insert(change.name(), value),
        None => rows.remove(change.name()),
    };
    change.line()
}

fn saved(rows: &Rows, name: &str) -> Option<String> {
    rows.get(name).cloned()
}

#[test]
fn changes_touch_their_own_setting() {
    let mut rows = Rows::new();
    assert_eq!(make(&mut rows, Change::Switch(false)), "plz off");
    assert_eq!(make(&mut rows, Change::Prompt("be kind".to_string())), "plz: prompt saved");
    assert_eq!(make(&mut rows, Change::Key("k1".to_string())), "plz: API key saved");
    assert_eq!(
        rows,
        Rows::from([
            ("api_key", "k1".to_string()),
            ("enabled", "0".to_string()),
            ("prompt", "be kind".to_string()),
        ])
    );
    assert_eq!(make(&mut rows, Change::Key("k2".to_string())), "plz: API key saved");
    assert_eq!(make(&mut rows, Change::Switch(true)), "plz on");
    assert!(is_enabled(saved(&rows, ENABLED)));
    assert_eq!(prompt(saved(&rows, PROMPT)), "be kind");
    assert_eq!(api_key(None, saved(&rows, API_KEY)), "k2");
}

#[test]
fn removed_key_is_gone() {
    let mut rows = Rows::new();
    make(&mut rows, Change::Switch(false));
    make(&mut rows, Change::Prompt("be kind".to_string()));
    let others = rows.clone();
    make(&mut rows, Change::Key("k".to_string()));
    for _ in 0..2 {
        assert_eq!(make(&mut rows, Change::NoKey), "plz: saved API key removed");
        assert_eq!(rows, others);
        assert_eq!(api_key(None, saved(&rows, API_KEY)), "");
        assert_eq!(api_key(text(""), saved(&rows, API_KEY)), "");
        assert_eq!(api_key(text("e"), saved(&rows, API_KEY)), "e");
    }
}

#[test]
fn state_dir_follows_the_variables() {
    let shown = |own, xdg, home| {
        state_dir(own, xdg, home)
            .map(|dir| String::from_utf8(dir).unwrap())
            .map_err(|error| error.message())
    };
    assert_eq!(shown(bytes("/s"), bytes("/x"), bytes("/h")), Ok("/s".to_string()));
    assert_eq!(shown(None, bytes("/x"), bytes("/h")), Ok("/x/plz".to_string()));
    assert_eq!(shown(None, bytes("/x/"), None), Ok("/x/plz".to_string()));
    assert_eq!(shown(None, None, bytes("/h")), Ok("/h/.local/state/plz".to_string()));
    assert_eq!(shown(None, None, bytes("/")), Ok("/.local/state/plz".to_string()));
    let relative = Err("plz state directory must be absolute".to_string());
    assert_eq!(shown(bytes("s"), bytes("/x"), None), relative);
    assert_eq!(shown(bytes(""), None, None), relative);
    assert_eq!(shown(None, bytes(""), bytes("/h")), relative);
    assert_eq!(shown(None, None, bytes("h")), relative);
    assert_eq!(shown(None, None, None), Err("HOME is unset".to_string()));
}

#[test]
fn state_dir_agrees_with_std_paths() {
    for base in ["/x", "/x/", "/", "", "x", "//", "/x//"] {
        let joined = PathBuf::from(base).join("plz");
        match state_dir(None, bytes(base), None) {
            Ok(dir) => {
                assert!(joined.is_absolute());
                assert_eq!(joined.to_str().unwrap().as_bytes(), dir.as_slice());
            }
            Err(_) => assert!(!joined.is_absolute()),
        }
    }
}

#[test]
fn state_dir_must_be_ones_own() {
    assert!(check_owner(true, 7, 7).is_ok());
    let foreign = "plz state directory must be a real directory owned by you";
    assert_eq!(check_owner(true, 7, 8).unwrap_err().message(), foreign);
    assert_eq!(check_owner(false, 7, 7).unwrap_err().message(), foreign);
}
