//! The settings that the user can change: whether commands are checked, the
//! prompt they are checked by, and the API key.
use vstd::prelude::*;
use vstd::string::*;
use vstd::utf8::*;
use crate::error::Error;
use crate::protocol;
use crate::text;

verus! {

/// The prompt where none is saved.
pub const DEFAULT_PROMPT: &'static str = "Catch likely shell mistakes: typos, wrong paths or flags, and unintended destructive effects. Ask for confirmation when a command looks accidental; otherwise allow it.";

/// The prompt that holds where `saved` is what is saved.
pub open spec fn prompt_in_force(saved: Option<Seq<char>>) -> Seq<char> {
    match saved {
        Some(prompt) => prompt,
        None => DEFAULT_PROMPT@,
    }
}

/// The prompt that holds where `saved` is what is saved.
pub fn prompt(saved: Option<String>) -> (prompt: String)
    ensures
        prompt@ == prompt_in_force(protocol::optional_text(saved)),
{
    match saved {
        Some(prompt) => prompt,
        None => DEFAULT_PROMPT.to_owned(),
    }
}

/// How the switch is saved.
pub open spec fn saved_switch(enabled: bool) -> Seq<char> {
    if enabled {
        "1"@
    } else {
        "0"@
    }
}

/// Whether commands are checked where `saved` is what is saved of the switch:
/// unless it was turned off, they are.
pub open spec fn switched_on(saved: Option<Seq<char>>) -> bool {
    saved != Some("0"@)
}

/// How the switch is saved.
pub fn set_enabled(enabled: bool) -> (value: &'static str)
    ensures
        value@ == saved_switch(enabled),
{
    if enabled {
        "1"
    } else {
        "0"
    }
}

/// Whether commands are checked where `saved` is what is saved of the switch.
pub fn is_enabled(saved: Option<String>) -> (enabled: bool)
    ensures
        enabled == switched_on(protocol::optional_text(saved)),
{
    match saved {
        Some(value) => !text::same_text(value.as_str(), "0"),
        None => true,
    }
}

/// The switch stays as it was set, and is on where it was never set.
pub proof fn switch_is_remembered(enabled: bool)
    ensures
        switched_on(Some(saved_switch(enabled))) == enabled,
        switched_on(None),
{
    reveal_strlit("0");
    reveal_strlit("1");
    assert("0"@[0] == '0' && "1"@[0] == '1');
}

/// The line that tells the switch.
pub open spec fn switch_words(enabled: bool) -> Seq<char> {
    if enabled {
        "plz on"@
    } else {
        "plz off"@
    }
}

/// The line that tells the switch.
pub fn switch_line(enabled: bool) -> (line: &'static str)
    ensures
        line@ == switch_words(enabled),
{
    if enabled {
        "plz on"
    } else {
        "plz off"
    }
}

/// The key that the environment gives, if it gives one.
pub open spec fn key_of_environment(variable: Option<Seq<char>>) -> Option<Seq<char>> {
    match variable {
        Some(key) if key.len() > 0 => Some(key),
        _ => None,
    }
}

/// The key that the environment gives: an empty one is none.
pub fn environment_key(variable: Option<String>) -> (key: Option<String>)
    ensures
        protocol::optional_text(key) == key_of_environment(protocol::optional_text(variable)),
{
    match variable {
        Some(key) => {
            if key.as_str().is_empty() {
                None
            } else {
                Some(key)
            }
        },
        None => None,
    }
}

/// The key that requests carry: the environment's, or else the saved one, or
/// else an empty one.
pub open spec fn key_in_force(
    variable: Option<Seq<char>>,
    saved: Option<Seq<char>>,
) -> Seq<char> {
    match key_of_environment(variable) {
        Some(key) => key,
        None => match saved {
            Some(key) => key,
            None => Seq::empty(),
        },
    }
}

/// The key that requests carry: the environment's, or else the saved one, or
/// else an empty one.
pub fn api_key(variable: Option<String>, saved: Option<String>) -> (key: String)
    ensures
        key@ == key_in_force(protocol::optional_text(variable), protocol::optional_text(saved)),
{
    match environment_key(variable) {
        Some(key) => key,
        None => match saved {
            Some(key) => key,
            None => String::new(),
        },
    }
}

/// The number of bytes that no API key may reach.
pub const KEY_LIMIT: usize = 8192;

/// Whether `c` can be part of an API key.
pub open spec fn is_key_char(c: char) -> bool {
    !text::is_space(c) && !text::is_control(c)
}

/// Whether a text is an API key: one token, neither empty nor too long.
pub open spec fn is_key(key: Seq<char>) -> bool {
    &&& key.len() > 0
    &&& encode_utf8(key).len() < KEY_LIMIT
    &&& forall|i: int| 0 <= i < key.len() ==> is_key_char(#[trigger] key[i])
}

fn token(text: &str) -> (yes: bool)
    ensures
        yes == forall|i: int| 0 <= i < text@.len() ==> is_key_char(#[trigger] text@[i]),
{
    for c in iter: text.chars()
        invariant
            iter.seq() == text@,
            forall|i: int| 0 <= i < iter.index() ==> is_key_char(#[trigger] text@[i]),
    {
        if text::char_is_space(c) || text::char_is_control(c) {
            assert(!is_key_char(text@[iter.index()]));
            return false;
        }
    }
    true
}

/// The API key to save where the user gave `input`: the input without the white
/// space around it. Piped input that reaches the limit is refused as such.
pub fn set_key(input: &str, piped: bool) -> (key: Result<String, Error>)
    ensures
        ({
            let too_long = piped && encode_utf8(input@).len() >= KEY_LIMIT;
            match key {
                Ok(key) => !too_long && is_key(text::trimmed(input@)) && key@ == text::trimmed(
                    input@,
                ),
                Err(Error::KeyTooLong) => too_long,
                Err(error) => !too_long && !is_key(text::trimmed(input@)) && error
                    == Error::KeyRejected,
            }
        }),
{
    if piped && text::byte_len(input) >= KEY_LIMIT {
        return Err(Error::KeyTooLong);
    }
    let key = text::trim(input);
    if key.is_empty() || text::byte_len(key) >= KEY_LIMIT || !token(key) {
        return Err(Error::KeyRejected);
    }
    Ok(key.to_owned())
}

/// Every key that is saved would be saved unchanged if it were given again.
pub proof fn saved_key_is_accepted(input: Seq<char>)
    requires
        is_key(text::trimmed(input)),
    ensures
        is_key(text::trimmed(text::trimmed(input))),
        text::trimmed(text::trimmed(input)) == text::trimmed(input),
{
    text::trimmed_is_idempotent(input);
}

/// The name under which the switch is saved.
pub const ENABLED: &'static str = "enabled";

/// The name under which the prompt is saved.
pub const PROMPT: &'static str = "prompt";

/// The name under which the API key is saved.
pub const API_KEY: &'static str = "api_key";

/// A change that the user makes to what is saved.
#[derive(Debug)]
pub enum Change {
    /// Checks are turned on or off.
    Switch(bool),
    /// This is the prompt from now on.
    Prompt(String),
    /// This is the API key from now on.
    Key(String),
    /// The saved API key is removed.
    NoKey,
}

/// The model of a [`Change`].
pub enum ChangeView {
    Switch(bool),
    Prompt(Seq<char>),
    Key(Seq<char>),
    NoKey,
}

impl View for Change {
    type V = ChangeView;

    open spec fn view(&self) -> ChangeView {
        match *self {
            Change::Switch(enabled) => ChangeView::Switch(enabled),
            Change::Prompt(prompt) => ChangeView::Prompt(prompt@),
            Change::Key(key) => ChangeView::Key(key@),
            Change::NoKey => ChangeView::NoKey,
        }
    }
}

impl ChangeView {
    /// The name of the row that a change writes or removes.
    pub open spec fn name(self) -> Seq<char> {
        match self {
            ChangeView::Switch(_) => ENABLED@,
            ChangeView::Prompt(_) => PROMPT@,
            ChangeView::Key(_) => API_KEY@,
            ChangeView::NoKey => API_KEY@,
        }
    }

    /// What the row then holds; nothing where the row is removed.
    pub open spec fn value(self) -> Option<Seq<char>> {
        match self {
            ChangeView::Switch(enabled) => Some(saved_switch(enabled)),
            ChangeView::Prompt(prompt) => Some(prompt),
            ChangeView::Key(key) => Some(key),
            ChangeView::NoKey => None,
        }
    }

    /// The line that tells a change.
    pub open spec fn words(self) -> Seq<char> {
        match self {
            ChangeView::Switch(enabled) => switch_words(enabled),
            ChangeView::Prompt(_) => "plz: prompt saved"@,
            ChangeView::Key(_) => "plz: API key saved"@,
            ChangeView::NoKey => "plz: saved API key removed"@,
        }
    }
}

impl Change {
    /// The name of the row that a change writes or removes.
    pub fn name(&self) -> (name: &'static str)
        ensures
            name@ == self@.name(),
    {
        match self {
            Change::Switch(_) => ENABLED,
            Change::Prompt(_) => PROMPT,
            Change::Key(_) => API_KEY,
            Change::NoKey => API_KEY,
        }
    }

    /// What the row then holds; nothing where the row is removed.
    pub fn value(&self) -> (value: Option<String>)
        ensures
            protocol::optional_text(value) == self@.value(),
    {
        match self {
            Change::Switch(enabled) => Some(set_enabled(*enabled).to_owned()),
            Change::Prompt(prompt) => Some(prompt.clone()),
            Change::Key(key) => Some(key.clone()),
            Change::NoKey => None,
        }
    }

    /// The line that tells a change.
    pub fn line(&self) -> (line: &'static str)
        ensures
            line@ == self@.words(),
    {
        match self {
            Change::Switch(enabled) => switch_line(*enabled),
            Change::Prompt(_) => "plz: prompt saved",
            Change::Key(_) => "plz: API key saved",
            Change::NoKey => "plz: saved API key removed",
        }
    }
}

/// What is saved: a row for each setting that has one.
#[verifier::ext_equal]
pub struct Settings {
    pub enabled: Option<Seq<char>>,
    pub prompt: Option<Seq<char>>,
    pub api_key: Option<Seq<char>>,
}

impl Settings {
    /// What is saved once the row `name` holds `value`, or is removed where
    /// there is none.
    pub open spec fn put(self, name: Seq<char>, value: Option<Seq<char>>) -> Settings {
        if name == ENABLED@ {
            Settings { enabled: value, ..self }
        } else if name == PROMPT@ {
            Settings { prompt: value, ..self }
        } else if name == API_KEY@ {
            Settings { api_key: value, ..self }
        } else {
            self
        }
    }

    /// What is saved after a change.
    pub open spec fn after(self, change: ChangeView) -> Settings {
        self.put(change.name(), change.value())
    }
}

proof fn setting_names_differ()
    ensures
        ENABLED@ != PROMPT@,
        ENABLED@ != API_KEY@,
        PROMPT@ != API_KEY@,
{
    reveal_strlit("enabled");
    reveal_strlit("prompt");
    reveal_strlit("api_key");
    assert(ENABLED@.len() == 7 && PROMPT@.len() == 6 && API_KEY@.len() == 7);
    assert(ENABLED@[0] == 'e' && API_KEY@[0] == 'a');
}

/// A change touches its own setting and leaves the other two as they were.
pub proof fn change_touches_its_own_setting(settings: Settings, change: ChangeView)
    ensures
        settings.after(change) == match change {
            ChangeView::Switch(enabled) => Settings {
                enabled: Some(saved_switch(enabled)),
                ..settings
            },
            ChangeView::Prompt(prompt) => Settings { prompt: Some(prompt), ..settings },
            ChangeView::Key(key) => Settings { api_key: Some(key), ..settings },
            ChangeView::NoKey => Settings { api_key: None, ..settings },
        },
{
    setting_names_differ();
}

/// What the user set last is what holds: whether commands are checked, by which
/// prompt, and with which key where the environment gives none. A removed key
/// leaves an empty one.
pub proof fn change_takes_effect(
    settings: Settings,
    change: ChangeView,
    variable: Option<Seq<char>>,
)
    requires
        key_of_environment(variable) is None,
    ensures
        ({
            let after = settings.after(change);
            match change {
                ChangeView::Switch(enabled) => switched_on(after.enabled) == enabled,
                ChangeView::Prompt(prompt) => prompt_in_force(after.prompt) == prompt,
                ChangeView::Key(key) => key_in_force(variable, after.api_key) == key,
                ChangeView::NoKey => key_in_force(variable, after.api_key).len() == 0,
            }
        }),
{
    change_touches_its_own_setting(settings, change);
    if let ChangeView::Switch(enabled) = change {
        switch_is_remembered(enabled);
    }
}

/// Of two changes of the same setting the later one holds, as if it were the only
/// one; so a change made twice is made once. Changes of two settings can be made
/// in either order.
pub proof fn later_change_replaces_the_earlier(
    settings: Settings,
    earlier: ChangeView,
    later: ChangeView,
)
    ensures
        earlier.name() == later.name() ==> settings.after(earlier).after(later) == settings.after(
            later,
        ),
        earlier.name() != later.name() ==> settings.after(earlier).after(later) == settings.after(
            later,
        ).after(earlier),
        settings.after(later).after(later) == settings.after(later),
{
    setting_names_differ();
}

/// Checks are off just where the text `0` is saved, whatever else may be.
pub proof fn only_zero_turns_checks_off(saved: Option<Seq<char>>)
    ensures
        !switched_on(saved) <==> saved is Some && saved->0.len() == 1 && saved->0[0] == '0',
{
    reveal_strlit("0");
    if let Some(value) = saved {
        assert(value.len() == 1 && value[0] == '0' ==> value =~= "0"@);
    }
}

/// The saved prompt holds as it is, an empty one too; without one the default
/// does.
pub proof fn saved_prompt_holds(prompt: Seq<char>)
    ensures
        prompt_in_force(Some(prompt)) == prompt,
        prompt_in_force(None) == DEFAULT_PROMPT@,
{
}

/// A key in the environment that is not empty overrides whatever is saved. Where
/// there is none, or an empty one, the saved key holds as it is.
pub proof fn environment_key_comes_first(
    key: Seq<char>,
    saved: Option<Seq<char>>,
    variable: Option<Seq<char>>,
)
    ensures
        key.len() > 0 ==> key_in_force(Some(key), saved) == key,
        variable is None || variable->0.len() == 0 ==> {
            &&& key_of_environment(variable) is None
            &&& key_in_force(variable, Some(key)) == key
            &&& key_in_force(variable, None).len() == 0
        },
        key.len() > 0 ==> key_of_environment(Some(key)) == Some(key),
{
}

/// A key that is saved has at least one character and fewer than 8192 bytes, and
/// no white space or control character anywhere; any such text is one.
pub proof fn key_is_one_token(key: Seq<char>, i: int)
    ensures
        is_key(key) ==> 1 <= key.len() && encode_utf8(key).len() <= 8191,
        is_key(key) && 0 <= i < key.len() ==> !text::is_space(key[i]) && !text::is_control(key[i]),
        0 < key.len() && encode_utf8(key).len() <= 8191 && (forall|j: int|
            0 <= j < key.len() ==> !text::is_space(#[trigger] key[j]) && !text::is_control(key[j]))
            ==> is_key(key),
        KEY_LIMIT == 8192,
{
    if 0 <= i < key.len() && is_key(key) {
        assert(is_key_char(key[i]));
    }
}

/// Two changes that come to the same change the same setting to the same value.
pub proof fn change_is_known_by_its_model(a: Change, b: Change)
    requires
        a@ == b@,
    ensures
        match (a, b) {
            (Change::Switch(x), Change::Switch(y)) => x == y,
            (Change::Prompt(x), Change::Prompt(y)) => x@ == y@,
            (Change::Key(x), Change::Key(y)) => x@ == y@,
            (Change::NoKey, Change::NoKey) => true,
            _ => false,
        },
{
}

/// A change is told by what was done, never by what was saved: every prompt and
/// every key is told in the same words.
pub proof fn change_is_told_without_its_value(text: Seq<char>)
    ensures
        ChangeView::Switch(true).words() == "plz on"@,
        ChangeView::Switch(false).words() == "plz off"@,
        ChangeView::Prompt(text).words() == "plz: prompt saved"@,
        ChangeView::Key(text).words() == "plz: API key saved"@,
        ChangeView::NoKey.words() == "plz: saved API key removed"@,
{
}

} // verus!
