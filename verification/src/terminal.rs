//! Asking the user on the terminal.
use vstd::prelude::*;
use vstd::string::*;
use crate::handle;
use crate::text;

verus! {

/// The bits of the terminal's modes that matter for reading a line, as the
/// system defines them.
pub struct Flags {
    /// Input comes line by line.
    pub icanon: u64,
    /// Input is echoed.
    pub echo: u64,
    /// Keys can send signals.
    pub isig: u64,
    /// Carriage returns are ignored.
    pub igncr: u64,
    /// Newlines become carriage returns.
    pub inlcr: u64,
    /// Carriage returns become newlines.
    pub icrnl: u64,
}

/// The local mode and the input mode in which a line can be read, made from the
/// present ones: line input, echo and signals are on, and the enter key ends a
/// line.
pub fn line_mode(local: u64, input: u64, flags: &Flags) -> (modes: (u64, u64))
    ensures
        modes.0 == local | (flags.icanon | flags.echo | flags.isig),
        modes.1 == (input & !(flags.igncr | flags.inlcr)) | flags.icrnl,
{
    (
        local | (flags.icanon | flags.echo | flags.isig),
        (input & !(flags.igncr | flags.inlcr)) | flags.icrnl,
    )
}

/// In line mode the bits that are wanted are set, those that would spoil the
/// enter key are clear, and all others are as they were.
pub proof fn line_mode_changes_its_bits_only(local: u64, input: u64, flags: Flags)
    requires
        (flags.igncr | flags.inlcr) & flags.icrnl == 0,
    ensures
        ({
            let wanted = flags.icanon | flags.echo | flags.isig;
            let spoiling = flags.igncr | flags.inlcr;
            let after_local = local | wanted;
            let after_input = (input & !spoiling) | flags.icrnl;
            &&& after_local & wanted == wanted
            &&& after_local & !wanted == local & !wanted
            &&& after_input & flags.icrnl == flags.icrnl
            &&& after_input & spoiling == 0
            &&& after_input & !(spoiling | flags.icrnl) == input & !(spoiling | flags.icrnl)
        }),
{
    let wanted = flags.icanon | flags.echo | flags.isig;
    let spoiling = flags.igncr | flags.inlcr;
    let icrnl = flags.icrnl;
    assert((local | wanted) & wanted == wanted) by (bit_vector);
    assert((local | wanted) & !wanted == local & !wanted) by (bit_vector);
    let after = (input & !spoiling) | icrnl;
    assert(after & icrnl == icrnl) by (bit_vector)
        requires
            after == (input & !spoiling) | icrnl,
    ;
    assert(after & spoiling == 0) by (bit_vector)
        requires
            after == (input & !spoiling) | icrnl,
            spoiling & icrnl == 0,
    ;
    assert(after & !(spoiling | icrnl) == input & !(spoiling | icrnl)) by (bit_vector)
        requires
            after == (input & !spoiling) | icrnl,
    ;
}

/// How `{:?}` shows a text.
pub uninterp spec fn debug_text(text: Seq<char>) -> Seq<char>;

/// The `Debug` of `str`, by `format!`. It depends on the text alone. What it
/// looks like is not stated: which characters are escaped follows Unicode's
/// tables.
#[verifier::external_body]
fn quote(text: &str) -> (quoted: String)
    ensures
        quoted@ == debug_text(text@),
{
    format!("{:?}", text)
}

/// A command without the newline that it may end with.
pub open spec fn without_newline(command: Seq<char>) -> Seq<char> {
    if command.len() > 0 && command.last() == '\n' {
        command.drop_last()
    } else {
        command
    }
}

/// A command without the newline that it may end with.
pub fn strip_newline(command: &str) -> (stripped: &str)
    ensures
        stripped@ == without_newline(command@),
{
    let count: usize = command.unicode_len();
    if count > 0 && command.get_char(count - 1) == '\n' {
        command.substring_char(0, count - 1)
    } else {
        command
    }
}

/// The question about a command that is shown as `shown`.
pub open spec fn question_about(shown: Seq<char>) -> Seq<char> {
    "\nplz confirm "@ + shown + "\n[O]nce, [A]lways, anything else for no: "@
}

/// The question about a command that is shown as `shown`.
pub fn question(shown: &str) -> (question: String)
    ensures
        question@ == question_about(shown@),
{
    let mut question = "\nplz confirm ".to_owned();
    question.append(shown);
    question.append("\n[O]nce, [A]lways, anything else for no: ");
    question
}

/// The question that asks the user to confirm a command, which is shown as `{:?}`
/// shows a text.
pub fn confirmation(command: &str) -> (text: String)
    ensures
        text@ == question_about(debug_text(without_newline(command@))),
{
    question(quote(strip_newline(command)).as_str())
}

/// What the user's line means: `o` allows once, `a` for good, in either case,
/// and anything else is a no.
pub open spec fn answer_meant(line: Seq<char>) -> Seq<char> {
    let word = text::trimmed(line);
    if word == "o"@ || word == "O"@ {
        "once"@
    } else if word == "a"@ || word == "A"@ {
        "always"@
    } else {
        "no"@
    }
}

/// Reads the user's line.
pub fn answer(line: &str) -> (answer: &'static str)
    ensures
        answer@ == answer_meant(line@),
        handle::is_answer(answer@),
{
    let word = text::trim(line);
    if text::same_text(word, "o") || text::same_text(word, "O") {
        "once"
    } else if text::same_text(word, "a") || text::same_text(word, "A") {
        "always"
    } else {
        "no"
    }
}

/// The answer is other than no only where the line, but for the white space around
/// it, is one single letter: an `o` in either case allows once, an `a` in either
/// case allows for good. Every other line is a no.
pub proof fn only_two_letters_allow(line: Seq<char>)
    ensures
        ({
            let word = text::trimmed(line);
            let meant = answer_meant(line);
            &&& word.len() != 1 ==> meant == "no"@
            &&& meant == "once"@ <==> word.len() == 1 && (word[0] == 'o' || word[0] == 'O')
            &&& meant == "always"@ <==> word.len() == 1 && (word[0] == 'a' || word[0] == 'A')
            &&& meant == "once"@ || meant == "always"@ || meant == "no"@
        }),
{
    reveal_strlit("o");
    reveal_strlit("O");
    reveal_strlit("a");
    reveal_strlit("A");
    reveal_strlit("once");
    reveal_strlit("always");
    reveal_strlit("no");
    assert("once"@.len() == 4 && "always"@.len() == 6 && "no"@.len() == 2);
    let word = text::trimmed(line);
    if word.len() == 1 {
        assert(word[0] == 'o' ==> word =~= "o"@);
        assert(word[0] == 'O' ==> word =~= "O"@);
        assert(word[0] == 'a' ==> word =~= "a"@);
        assert(word[0] == 'A' ==> word =~= "A"@);
    }
}

/// One newline at the end of a command is not shown, and everything else is.
pub proof fn one_newline_is_stripped(command: Seq<char>)
    ensures
        without_newline(command.push('\n')) == command,
        command.len() == 0 || command.last() != '\n' ==> without_newline(command) == command,
        without_newline(command).is_prefix_of(command),
{
    assert(command.push('\n').drop_last() =~= command);
    assert(without_newline(command).len() <= command.len());
    assert(command.take(without_newline(command).len() as int) =~= without_newline(command));
}

/// The question shows the whole of what it is about, on the line that it starts,
/// and nothing else differs between two questions.
pub proof fn question_shows_the_command(shown: Seq<char>, other: Seq<char>)
    ensures
        ({
            let start = "\nplz confirm "@;
            let end = "\n[O]nce, [A]lways, anything else for no: "@;
            let question = question_about(shown);
            &&& question.len() == start.len() + shown.len() + end.len()
            &&& question.take(start.len() as int) == start
            &&& question.skip(start.len() as int).take(shown.len() as int) == shown
            &&& question.skip((start.len() + shown.len()) as int) == end
            &&& question == question_about(other) ==> shown == other
        }),
{
    let start = "\nplz confirm "@;
    let end = "\n[O]nce, [A]lways, anything else for no: "@;
    let question = question_about(shown);
    assert(question.take(start.len() as int) =~= start);
    assert(question.skip(start.len() as int).take(shown.len() as int) =~= shown);
    assert(question.skip((start.len() + shown.len()) as int) =~= end);
    let different = question_about(other);
    assert(different.skip(start.len() as int).take(other.len() as int) =~= other);
    assert(different.len() == start.len() + other.len() + end.len());
}

} // verus!
