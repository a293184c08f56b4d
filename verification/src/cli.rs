//! The command line: what the program is asked to do, and how it ends.
use vstd::prelude::*;
use vstd::string::*;
use crate::error::Error;
use crate::settings::{Change, ChangeView};
use crate::text;

verus! {

/// What the program is asked to do.
#[derive(Debug)]
pub enum Invocation {
    /// Print the script that guards the fish shell.
    InitFish,
    /// Check the command on the standard input.
    Check { shell: String },
    /// Turn checks on or off, or remove the saved API key.
    Change(Change),
    Status,
    EditPrompt,
    SetKey,
    /// Become the daemon.
    Daemon,
    Help,
}

/// What `--help` prints, and then the end of the line.
pub const HELP: &'static str = "plz init fish | source\nplz check [--shell fish] < command\nplz on | plz off    # enable/disable checks across shells (saved in the DB)\nplz status    # on/off, prompt, tokens, estimated cost and waiting-time stats\nplz edit-prompt    # edit the saved prompt using VISUAL or EDITOR (default: vi)\nplz set-key    # hidden prompt, or read the key from stdin\nplz unset-key\n\nSave a key with plz set-key; TYPESAFE_API_KEY overrides the saved key.\nChecks default to on. The daemon starts automatically.\nConfirmation: O + Enter = once, A + Enter = always, anything else = no.\nExit status: 0 allowed, 1 denied, 2 error.";

/// The model of an [`Invocation`].
pub enum InvocationView {
    InitFish,
    Check { shell: Seq<char> },
    Change(ChangeView),
    Status,
    EditPrompt,
    SetKey,
    Daemon,
    Help,
}

impl View for Invocation {
    type V = InvocationView;

    open spec fn view(&self) -> InvocationView {
        match self {
            Invocation::InitFish => InvocationView::InitFish,
            Invocation::Check { shell } => InvocationView::Check { shell: shell@ },
            Invocation::Change(change) => InvocationView::Change(change@),
            Invocation::Status => InvocationView::Status,
            Invocation::EditPrompt => InvocationView::EditPrompt,
            Invocation::SetKey => InvocationView::SetKey,
            Invocation::Daemon => InvocationView::Daemon,
            Invocation::Help => InvocationView::Help,
        }
    }
}

/// Whether the arguments are these words.
pub open spec fn are(args: Seq<String>, words: Seq<Seq<char>>) -> bool {
    args.map_values(|arg: String| arg@) == words
}

/// What the arguments ask for, if it can be done.
pub open spec fn invoked(args: Seq<String>) -> Option<InvocationView> {
    if are(args, seq!["init"@, "fish"@]) {
        Some(InvocationView::InitFish)
    } else if args.len() == 3 && args[0]@ == "check"@ && args[1]@ == "--shell"@ {
        Some(InvocationView::Check { shell: args[2]@ })
    } else if are(args, seq!["check"@]) {
        Some(InvocationView::Check { shell: "fish"@ })
    } else if are(args, seq!["on"@]) {
        Some(InvocationView::Change(ChangeView::Switch(true)))
    } else if are(args, seq!["off"@]) {
        Some(InvocationView::Change(ChangeView::Switch(false)))
    } else if are(args, seq!["status"@]) {
        Some(InvocationView::Status)
    } else if are(args, seq!["edit-prompt"@]) {
        Some(InvocationView::EditPrompt)
    } else if are(args, seq!["set-key"@]) {
        Some(InvocationView::SetKey)
    } else if are(args, seq!["unset-key"@]) {
        Some(InvocationView::Change(ChangeView::NoKey))
    } else if are(args, seq!["__daemon"@]) {
        Some(InvocationView::Daemon)
    } else if are(args, seq!["--help"@]) || are(args, seq!["-h"@]) || are(args, seq![]) {
        Some(InvocationView::Help)
    } else {
        None
    }
}

fn only(args: &Vec<String>, word: &str) -> (yes: bool)
    ensures
        yes == are(args@, seq![word@]),
{
    let ghost words = args@.map_values(|arg: String| arg@);
    if args.len() != 1 {
        assert(words.len() != seq![word@].len());
        return false;
    }
    assert(words[0] == args@[0]@);
    assert(seq![word@][0] == word@);
    let same = text::same_text(args[0].as_str(), word);
    assert(same ==> words =~= seq![word@]);
    same
}

fn both(args: &Vec<String>, first: &str, second: &str) -> (yes: bool)
    ensures
        yes == are(args@, seq![first@, second@]),
{
    let ghost words = args@.map_values(|arg: String| arg@);
    let ghost wanted = seq![first@, second@];
    if args.len() != 2 {
        assert(words.len() != wanted.len());
        return false;
    }
    assert(words[0] == args@[0]@ && words[1] == args@[1]@);
    assert(wanted[0] == first@ && wanted[1] == second@);
    let same = text::same_text(args[0].as_str(), first) && text::same_text(args[1].as_str(), second);
    assert(same ==> words =~= wanted);
    same
}

/// Reads the arguments that follow the program's name.
pub fn run(args: &Vec<String>) -> (invocation: Result<Invocation, Error>)
    ensures
        match invocation {
            Ok(invocation) => invoked(args@) == Some(invocation@),
            Err(error) => invoked(args@) is None && error == Error::Usage,
        },
{
    if both(args, "init", "fish") {
        return Ok(Invocation::InitFish);
    }
    if args.len() == 3 && text::same_text(args[0].as_str(), "check") && text::same_text(
        args[1].as_str(),
        "--shell",
    ) {
        return Ok(Invocation::Check { shell: args[2].clone() });
    }
    if only(args, "check") {
        return Ok(Invocation::Check { shell: "fish".to_owned() });
    }
    if only(args, "on") {
        return Ok(Invocation::Change(Change::Switch(true)));
    }
    if only(args, "off") {
        return Ok(Invocation::Change(Change::Switch(false)));
    }
    if only(args, "status") {
        return Ok(Invocation::Status);
    }
    if only(args, "edit-prompt") {
        return Ok(Invocation::EditPrompt);
    }
    if only(args, "set-key") {
        return Ok(Invocation::SetKey);
    }
    if only(args, "unset-key") {
        return Ok(Invocation::Change(Change::NoKey));
    }
    if only(args, "__daemon") {
        return Ok(Invocation::Daemon);
    }
    assert(args@.len() == 0 ==> args@.map_values(|arg: String| arg@) =~= seq![]);
    assert(args@.map_values(|arg: String| arg@).len() == args@.len());
    if args.len() == 0 || only(args, "--help") || only(args, "-h") {
        return Ok(Invocation::Help);
    }
    Err(Error::Usage)
}

/// What the program comes to where it was asked for anything but a check: done,
/// unless it failed.
pub open spec fn done_result(outcome: Result<(), Error>) -> Result<bool, Error> {
    match outcome {
        Ok(()) => Ok(true),
        Err(error) => Err(error),
    }
}

/// What the program comes to where it was asked for anything but a check.
pub fn done(outcome: Result<(), Error>) -> (result: Result<bool, Error>)
    ensures
        result == done_result(outcome),
{
    match outcome {
        Ok(()) => Ok(true),
        Err(error) => Err(error),
    }
}

/// How the program ends.
pub struct Ending {
    /// The exit status: 0 where the command may run or what was asked is done, 1
    /// where the command is denied, 2 after an error.
    pub status: u8,
    /// What is told on the standard error, if anything.
    pub complaint: Option<String>,
}

/// How the program ends where it came to `result`.
pub fn ending(result: Result<bool, Error>) -> (ending: Ending)
    ensures
        match result {
            Ok(true) => ending.status == 0 && ending.complaint is None,
            Ok(false) => {
                &&& ending.status == 1
                &&& ending.complaint matches Some(words)
                &&& words@ == "plz: command not run"@
            },
            Err(error) => {
                &&& ending.status == 2
                &&& ending.complaint matches Some(words)
                &&& words@ == "plz: "@ + error.words() + "; command not run"@
            },
        },
{
    match result {
        Ok(true) => Ending { status: 0, complaint: None },
        Ok(false) => Ending { status: 1, complaint: Some("plz: command not run".to_owned()) },
        Err(error) => {
            let mut words = "plz: ".to_owned();
            words.append(error.message().as_str());
            words.append("; command not run");
            Ending { status: 2, complaint: Some(words) }
        },
    }
}

/// Each set of arguments asks for one thing, and only these do: a check for the
/// shell that is named, or for fish; the script for fish; the commands of one word;
/// and help, by either of its words or none. Anything else is refused.
pub proof fn arguments_ask_for_one_thing(args: Seq<String>)
    ensures
        ({
            let n = args.len();
            let asked = invoked(args);
            let check_in = n == 3 && args[0]@ == "check"@ && args[1]@ == "--shell"@;
            &&& asked == Some(InvocationView::InitFish) <==> n == 2 && args[0]@ == "init"@
                && args[1]@ == "fish"@
            &&& check_in ==> asked == Some(InvocationView::Check { shell: args[2]@ })
            &&& n == 1 && args[0]@ == "check"@ ==> asked == Some(
                InvocationView::Check { shell: "fish"@ },
            )
            &&& asked matches Some(InvocationView::Check { .. }) ==> check_in || n == 1
                && args[0]@ == "check"@
            &&& asked == Some(InvocationView::Change(ChangeView::Switch(true))) <==> n == 1
                && args[0]@ == "on"@
            &&& asked == Some(InvocationView::Change(ChangeView::Switch(false))) <==> n == 1
                && args[0]@ == "off"@
            &&& asked == Some(InvocationView::Change(ChangeView::NoKey)) <==> n == 1 && args[0]@
                == "unset-key"@
            &&& asked == Some(InvocationView::Status) <==> n == 1 && args[0]@ == "status"@
            &&& asked == Some(InvocationView::EditPrompt) <==> n == 1 && args[0]@
                == "edit-prompt"@
            &&& asked == Some(InvocationView::SetKey) <==> n == 1 && args[0]@ == "set-key"@
            &&& asked == Some(InvocationView::Daemon) <==> n == 1 && args[0]@ == "__daemon"@
            &&& asked == Some(InvocationView::Help) <==> n == 0 || n == 1 && (args[0]@ == "--help"@
                || args[0]@ == "-h"@)
            &&& asked matches Some(InvocationView::Change(change)) ==> change is Switch || change
                is NoKey
        }),
{
    lemma_word(args, "init"@, "fish"@);
    lemma_word(args, "check"@, "fish"@);
    lemma_word(args, "on"@, "fish"@);
    lemma_word(args, "off"@, "fish"@);
    lemma_word(args, "status"@, "fish"@);
    lemma_word(args, "edit-prompt"@, "fish"@);
    lemma_word(args, "set-key"@, "fish"@);
    lemma_word(args, "unset-key"@, "fish"@);
    lemma_word(args, "__daemon"@, "fish"@);
    lemma_word(args, "--help"@, "fish"@);
    lemma_word(args, "-h"@, "fish"@);
    reveal_strlit("check");
    reveal_strlit("on");
    reveal_strlit("off");
    reveal_strlit("status");
    reveal_strlit("edit-prompt");
    reveal_strlit("set-key");
    reveal_strlit("unset-key");
    reveal_strlit("__daemon");
    reveal_strlit("--help");
    reveal_strlit("-h");
    assert("check"@.len() == 5 && "on"@.len() == 2 && "off"@.len() == 3);
    assert("status"@.len() == 6 && "edit-prompt"@.len() == 11 && "set-key"@.len() == 7);
    assert("unset-key"@.len() == 9 && "__daemon"@.len() == 8);
    assert("--help"@.len() == 6 && "-h"@.len() == 2);
    assert("on"@[0] == 'o' && "-h"@[0] == '-' && "status"@[0] == 's' && "--help"@[0] == '-');
    let words = args.map_values(|arg: String| arg@);
    assert(words.len() == args.len());
    assert(args.len() == 0 ==> words =~= seq![]);
}

proof fn lemma_word(args: Seq<String>, first: Seq<char>, second: Seq<char>)
    ensures
        are(args, seq![first]) <==> args.len() == 1 && args[0]@ == first,
        are(args, seq![first, second]) <==> args.len() == 2 && args[0]@ == first && args[1]@
            == second,
{
    let words = args.map_values(|arg: String| arg@);
    let one = seq![first];
    let two = seq![first, second];
    assert(one.len() == 1 && one[0] == first);
    assert(two.len() == 2 && two[0] == first && two[1] == second);
    assert(words.len() == args.len());
    if args.len() > 0 {
        assert(words[0] == args[0]@);
    }
    if args.len() > 1 {
        assert(words[1] == args[1]@);
    }
    assert(args.len() == 1 && args[0]@ == first ==> words =~= one);
    assert(args.len() == 2 && args[0]@ == first && args[1]@ == second ==> words =~= two);
}

/// What failed is the result as it is; what did not counts as done.
pub proof fn failure_is_the_result(error: Error)
    ensures
        done_result(Ok(())) == Ok::<bool, Error>(true),
        done_result(Err(error)) == Err::<bool, Error>(error),
{
}

/// What is asked for is known by its model.
pub proof fn invocation_is_known_by_its_model(a: Invocation, b: Invocation)
    requires
        a@ == b@,
    ensures
        match (a, b) {
            (Invocation::InitFish, Invocation::InitFish) => true,
            (Invocation::Check { shell: x }, Invocation::Check { shell: y }) => x@ == y@,
            (Invocation::Change(x), Invocation::Change(y)) => x@ == y@,
            (Invocation::Status, Invocation::Status) => true,
            (Invocation::EditPrompt, Invocation::EditPrompt) => true,
            (Invocation::SetKey, Invocation::SetKey) => true,
            (Invocation::Daemon, Invocation::Daemon) => true,
            (Invocation::Help, Invocation::Help) => true,
            _ => false,
        },
{
}

} // verus!
