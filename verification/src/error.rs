//! What can go wrong, and how it is told to the user.
use vstd::prelude::*;
use vstd::string::*;

verus! {

/// A reason why something was not done.
#[derive(Debug)]
pub enum Error {
    /// No variable says where the state directory is.
    HomeUnset,
    /// The state directory is not given by an absolute path.
    StateDirRelative,
    /// The state directory is no directory, or somebody else's.
    StateDirForeign,
    /// A message broke off before its end, or exceeds the limit.
    MessageIncomplete,
    /// The daemon refused to start.
    DaemonNotStarted,
    /// The daemon started and never listened.
    DaemonSilent,
    /// The daemon would ignore the prompt; it left its process id in this file.
    DaemonOutdated(String),
    /// The editor reported a failure.
    EditorFailed,
    /// The edited prompt is empty or too long.
    PromptRejected,
    /// The piped API key is too long.
    KeyTooLong,
    /// The API key is empty, too long, or no single token.
    KeyRejected,
    /// There is no API key to ask the provider with.
    KeyMissing,
    /// The provider answered something that is no choice.
    AnswerInvalid,
    /// The provider chose something that was not offered.
    ChoiceUnknown,
    /// The user's answer to a confirmation is none of the three.
    ConfirmationInvalid,
    /// There is nothing to confirm.
    ConfirmationUnasked,
    /// The command is too large to be checked.
    CommandTooLarge,
    /// There are more tokens than can be counted.
    TokenOverflow,
    /// The program was not called as it can be.
    Usage,
    /// Something outside this library failed, in its own words.
    Outside(String),
}

impl Error {
    /// The words for the user.
    pub open spec fn words(self) -> Seq<char> {
        match self {
            Error::HomeUnset => "HOME is unset"@,
            Error::StateDirRelative => "plz state directory must be absolute"@,
            Error::StateDirForeign =>
                "plz state directory must be a real directory owned by you"@,
            Error::MessageIncomplete => "incomplete or oversized daemon message"@,
            Error::DaemonNotStarted => "could not start daemon (see daemon.log)"@,
            Error::DaemonSilent => "daemon did not start (see daemon.log)"@,
            Error::DaemonOutdated(pid_file) =>
                "daemon is outdated; restart it (PID file: "@ + pid_file@ + ")"@,
            Error::EditorFailed => "editor exited unsuccessfully; prompt not saved"@,
            Error::PromptRejected => "prompt must be nonempty and shorter than 1 MiB"@,
            Error::KeyTooLong => "API key input is too long"@,
            Error::KeyRejected => "API key must be a nonempty token shorter than 8192 bytes"@,
            Error::KeyMissing =>
                "run `plz set-key` or set TYPESAFE_API_KEY for uncached commands"@,
            Error::AnswerInvalid => "provider returned an invalid safety answer"@,
            Error::ChoiceUnknown => "provider returned an unknown safety choice"@,
            Error::ConfirmationInvalid => "invalid confirmation answer"@,
            Error::ConfirmationUnasked => "no cached confirmation to answer"@,
            Error::CommandTooLarge => "command is too large"@,
            Error::TokenOverflow => "integer overflow"@,
            Error::Usage =>
                "usage: plz init fish | plz check [--shell fish] | plz on | plz off | plz status | plz edit-prompt | plz set-key | plz unset-key"@,
            Error::Outside(words) => words@,
        }
    }

    /// The words for the user.
    pub fn message(&self) -> (message: String)
        ensures
            message@ == self.words(),
    {
        match self {
            Error::HomeUnset => "HOME is unset".to_owned(),
            Error::StateDirRelative => "plz state directory must be absolute".to_owned(),
            Error::StateDirForeign =>
                "plz state directory must be a real directory owned by you".to_owned(),
            Error::MessageIncomplete => "incomplete or oversized daemon message".to_owned(),
            Error::DaemonNotStarted => "could not start daemon (see daemon.log)".to_owned(),
            Error::DaemonSilent => "daemon did not start (see daemon.log)".to_owned(),
            Error::DaemonOutdated(pid_file) => {
                let mut message = "daemon is outdated; restart it (PID file: ".to_owned();
                message.append(pid_file.as_str());
                message.append(")");
                message
            },
            Error::EditorFailed => "editor exited unsuccessfully; prompt not saved".to_owned(),
            Error::PromptRejected => "prompt must be nonempty and shorter than 1 MiB".to_owned(),
            Error::KeyTooLong => "API key input is too long".to_owned(),
            Error::KeyRejected =>
                "API key must be a nonempty token shorter than 8192 bytes".to_owned(),
            Error::KeyMissing =>
                "run `plz set-key` or set TYPESAFE_API_KEY for uncached commands".to_owned(),
            Error::AnswerInvalid => "provider returned an invalid safety answer".to_owned(),
            Error::ChoiceUnknown => "provider returned an unknown safety choice".to_owned(),
            Error::ConfirmationInvalid => "invalid confirmation answer".to_owned(),
            Error::ConfirmationUnasked => "no cached confirmation to answer".to_owned(),
            Error::CommandTooLarge => "command is too large".to_owned(),
            Error::TokenOverflow => "integer overflow".to_owned(),
            Error::Usage =>
                "usage: plz init fish | plz check [--shell fish] | plz on | plz off | plz status | plz edit-prompt | plz set-key | plz unset-key".to_owned(),
            Error::Outside(words) => words.clone(),
        }
    }
}

/// The user is told what is wrong, and what to do about it. The file of an outdated
/// daemon is named in full, and what failed outside is told in its own words.
pub proof fn errors_are_told_in_these_words(text: String)
    ensures
        Error::HomeUnset.words() == "HOME is unset"@,
        Error::StateDirRelative.words() == "plz state directory must be absolute"@,
        Error::StateDirForeign.words()
            == "plz state directory must be a real directory owned by you"@,
        Error::MessageIncomplete.words() == "incomplete or oversized daemon message"@,
        Error::DaemonNotStarted.words() == "could not start daemon (see daemon.log)"@,
        Error::DaemonSilent.words() == "daemon did not start (see daemon.log)"@,
        Error::DaemonOutdated(text).words() == "daemon is outdated; restart it (PID file: "@ + text@
            + ")"@,
        Error::EditorFailed.words() == "editor exited unsuccessfully; prompt not saved"@,
        Error::PromptRejected.words() == "prompt must be nonempty and shorter than 1 MiB"@,
        Error::KeyTooLong.words() == "API key input is too long"@,
        Error::KeyRejected.words()
            == "API key must be a nonempty token shorter than 8192 bytes"@,
        Error::KeyMissing.words()
            == "run `plz set-key` or set TYPESAFE_API_KEY for uncached commands"@,
        Error::AnswerInvalid.words() == "provider returned an invalid safety answer"@,
        Error::ChoiceUnknown.words() == "provider returned an unknown safety choice"@,
        Error::ConfirmationInvalid.words() == "invalid confirmation answer"@,
        Error::ConfirmationUnasked.words() == "no cached confirmation to answer"@,
        Error::CommandTooLarge.words() == "command is too large"@,
        Error::TokenOverflow.words() == "integer overflow"@,
        Error::Usage.words()
            == "usage: plz init fish | plz check [--shell fish] | plz on | plz off | plz status | plz edit-prompt | plz set-key | plz unset-key"@,
        Error::Outside(text).words() == text@,
{
}

} // verus!
