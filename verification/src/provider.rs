//! Asking the provider: what is sent, what its answer means, and which failures
//! are worth another attempt.
use vstd::prelude::*;
use vstd::string::*;
use crate::error::Error;
use crate::json;
use crate::json::Json;
use crate::protocol::{Context, ContextView};
use crate::text;

verus! {

/// How a call of the provider failed, as the HTTP client tells it.
#[derive(Debug, Clone, Copy, PartialEq, Eq, Structural)]
pub enum CallKind {
    /// The name of the host could not be resolved.
    Dns,
    /// No connection could be made.
    ConnectionFailed,
    /// Anything else.
    Other,
}

/// A kind of input or output error.
#[derive(Debug, Clone, Copy, PartialEq, Eq, Structural)]
pub enum IoKind {
    ConnectionReset,
    ConnectionAborted,
    BrokenPipe,
    NotConnected,
    UnexpectedEof,
    TimedOut,
    WouldBlock,
    Interrupted,
    InvalidData,
    /// Anything else.
    Other,
}

/// A failed call: its kind, and the kinds of the input and output errors that
/// it wraps, from the outermost to the innermost.
#[derive(Debug)]
pub struct Failure {
    pub kind: CallKind,
    pub causes: Vec<IoKind>,
}

/// The input and output errors that may be gone at the next attempt.
pub open spec fn is_transient(kind: IoKind) -> bool {
    match kind {
        IoKind::ConnectionReset
        | IoKind::ConnectionAborted
        | IoKind::BrokenPipe
        | IoKind::NotConnected
        | IoKind::UnexpectedEof
        | IoKind::TimedOut
        | IoKind::WouldBlock
        | IoKind::Interrupted => true,
        _ => false,
    }
}

/// The failures that are worth another attempt: no connection could be made, or
/// a transient error lies somewhere below.
pub open spec fn is_retryable(failure: Failure) -> bool {
    ||| failure.kind == CallKind::Dns
    ||| failure.kind == CallKind::ConnectionFailed
    ||| exists|i: int| 0 <= i < failure.causes@.len() && is_transient(#[trigger] failure.causes@[i])
}

fn transient(kind: IoKind) -> (yes: bool)
    ensures
        yes == is_transient(kind),
{
    match kind {
        IoKind::ConnectionReset
        | IoKind::ConnectionAborted
        | IoKind::BrokenPipe
        | IoKind::NotConnected
        | IoKind::UnexpectedEof
        | IoKind::TimedOut
        | IoKind::WouldBlock
        | IoKind::Interrupted => true,
        _ => false,
    }
}

/// Whether a failure is worth another attempt.
pub fn retryable(failure: &Failure) -> (yes: bool)
    ensures
        yes == is_retryable(*failure),
{
    match failure.kind {
        CallKind::Dns | CallKind::ConnectionFailed => {
            return true;
        },
        CallKind::Other => {},
    }
    let mut i: usize = 0;
    while i < failure.causes.len()
        invariant
            i <= failure.causes@.len(),
            forall|j: int| 0 <= j < i ==> !is_transient(#[trigger] failure.causes@[j]),
        decreases failure.causes@.len() - i,
    {
        if transient(failure.causes[i]) {
            return true;
        }
        i = i + 1;
    }
    false
}

/// The kind of error that a response body stands for which could not be read as
/// JSON: the input error that stopped it, or else an early end, or else data
/// that is no JSON.
pub fn body_error_kind(io: Option<IoKind>, early_end: bool) -> (kind: IoKind)
    ensures
        kind == match io {
            Some(kind) => kind,
            None => if early_end {
                IoKind::UnexpectedEof
            } else {
                IoKind::InvalidData
            },
        },
{
    match io {
        Some(kind) => kind,
        None => if early_end {
            IoKind::UnexpectedEof
        } else {
            IoKind::InvalidData
        },
    }
}

/// How many attempts may follow the first.
pub const RETRIES: u32 = 3;

/// One attempt to call the provider.
pub enum Attempt {
    /// It answered this.
    Answered(serde_json::Value),
    /// It did not, in the words of the error.
    Failed(Failure, Error),
}

/// What follows an attempt.
pub enum CallStep {
    /// The call is over, with this answer.
    Return(serde_json::Value),
    /// Wait so many milliseconds, then make another attempt, the one that
    /// follows this number of retries.
    Retry { millis: u64, retries: u32 },
    /// The call is over, with this error.
    Fail(Error),
}

/// The wait before the retry that follows `retries` others: it doubles every
/// time.
pub open spec fn backoff(retries: nat) -> nat
    decreases retries,
{
    if retries == 0 {
        100
    } else {
        2 * backoff((retries - 1) as nat)
    }
}

/// What follows an attempt that came after `retries` retries.
pub open spec fn call_step(retries: nat, attempt: Attempt) -> CallStep {
    match attempt {
        Attempt::Answered(response) => CallStep::Return(response),
        Attempt::Failed(failure, error) => if retries < RETRIES && is_retryable(failure) {
            CallStep::Retry { millis: backoff(retries) as u64, retries: (retries + 1) as u32 }
        } else {
            CallStep::Fail(error)
        },
    }
}

/// Decides what follows an attempt that came after `retries` retries.
pub fn call_api(retries: u32, attempt: Attempt) -> (step: CallStep)
    ensures
        step == call_step(retries as nat, attempt),
{
    match attempt {
        Attempt::Answered(response) => CallStep::Return(response),
        Attempt::Failed(failure, error) => {
            if retries < RETRIES && retryable(&failure) {
                let millis: u64 = 100u64 << retries;
                proof {
                    reveal_with_fuel(backoff, 4);
                    assert(100u64 << 0u32 == 100) by (bit_vector);
                    assert(100u64 << 1u32 == 200) by (bit_vector);
                    assert(100u64 << 2u32 == 400) by (bit_vector);
                }
                CallStep::Retry { millis, retries: retries + 1 }
            } else {
                CallStep::Fail(error)
            }
        },
    }
}

/// A whole call: how it ends where `attempts(n)` is what the attempt after `n`
/// retries gives, how many attempts it takes, and how long it waits in all.
pub struct Call {
    pub last: CallStep,
    pub attempts: nat,
    pub waited: nat,
}

/// The call that goes on after `retries` retries.
pub open spec fn call_from(attempts: spec_fn(nat) -> Attempt, retries: nat) -> Call
    decreases RETRIES - retries,
{
    match call_step(retries, attempts(retries)) {
        CallStep::Retry { millis, retries: next } if retries < RETRIES => {
            let rest = call_from(attempts, retries + 1);
            Call { last: rest.last, attempts: rest.attempts + 1, waited: rest.waited + millis as nat }
        },
        step => Call { last: step, attempts: 1, waited: 0 },
    }
}

/// Whether the attempt is a failure that is worth another one.
pub open spec fn fails_for_now(attempt: Attempt) -> bool {
    attempt matches Attempt::Failed(failure, _) && is_retryable(failure)
}

/// A call makes at most four attempts, waits 100, 200 and 400 milliseconds
/// between them, and ends with what its last attempt gave: an answer, or the
/// error itself. It goes on just as long as it fails for now.
pub proof fn call_is_bounded(attempts: spec_fn(nat) -> Attempt)
    ensures
        ({
            let call = call_from(attempts, 0);
            let last = (call.attempts - 1) as nat;
            &&& 1 <= call.attempts <= RETRIES + 1
            &&& forall|n: nat| n < last ==> fails_for_now(#[trigger] attempts(n))
            &&& last < RETRIES ==> !fails_for_now(attempts(last))
            &&& call.waited == (if last == 0 {
                0
            } else if last == 1 {
                100
            } else if last == 2 {
                300
            } else {
                700nat
            })
            &&& call.last == match attempts(last) {
                Attempt::Answered(response) => CallStep::Return(response),
                Attempt::Failed(_, error) => CallStep::Fail(error),
            }
        }),
{
    reveal_with_fuel(backoff, 4);
    reveal_with_fuel(call_from, 5);
}

/// The value of the `Authorization` header.
pub fn authorization(api_key: &str) -> (value: String)
    ensures
        value@ == "Bearer "@ + api_key@,
{
    let mut value = "Bearer ".to_owned();
    value.append(api_key);
    value
}

/// The context of a command, as a JSON object.
pub open spec fn context_tree(context: ContextView) -> Json {
    Json::Object(
        map![
            "command"@ => Json::Text(context.command),
            "cwd"@ => Json::Text(context.cwd),
            "shell"@ => Json::Text(context.shell),
            "path"@ => Json::Text(context.path),
            "os"@ => Json::Text(context.os),
            "uid"@ => Json::Integer(context.uid as int),
        ],
    )
}

/// The names of the members of a context differ.
pub(crate) proof fn context_names_differ()
    ensures
        "command"@ != "cwd"@,
        "command"@ != "shell"@,
        "command"@ != "path"@,
        "command"@ != "os"@,
        "command"@ != "uid"@,
        "cwd"@ != "shell"@,
        "cwd"@ != "path"@,
        "cwd"@ != "os"@,
        "cwd"@ != "uid"@,
        "shell"@ != "path"@,
        "shell"@ != "os"@,
        "shell"@ != "uid"@,
        "path"@ != "os"@,
        "path"@ != "uid"@,
        "os"@ != "uid"@,
{
    reveal_strlit("command");
    reveal_strlit("cwd");
    reveal_strlit("shell");
    reveal_strlit("path");
    reveal_strlit("os");
    reveal_strlit("uid");
    assert("command"@.len() == 7 && "cwd"@.len() == 3 && "shell"@.len() == 5);
    assert("path"@.len() == 4 && "os"@.len() == 2 && "uid"@.len() == 3);
    assert("cwd"@[0] == 'c' && "uid"@[0] == 'u');
}

/// Writes the context of a command as a JSON object.
pub fn context_value(context: &Context) -> (value: serde_json::Value)
    ensures
        json::json_tree(value) == context_tree(context@),
{
    proof {
        context_names_differ();
    }
    let members = vec![
        ("command".to_owned(), json::text_value(context.command.as_str())),
        ("cwd".to_owned(), json::text_value(context.cwd.as_str())),
        ("shell".to_owned(), json::text_value(context.shell.as_str())),
        ("path".to_owned(), json::text_value(context.path.as_str())),
        ("os".to_owned(), json::text_value(context.os.as_str())),
        ("uid".to_owned(), json::integer_value(context.uid)),
    ];
    proof {
        reveal_with_fuel(json::members_of, 7);
        assert(json::members_of(members@) =~= context_tree(context@)->Object_0);
    }
    json::object_value(members)
}

/// What the provider is asked: to choose, by the instructions in `prompt`,
/// whether the command runs or the user confirms it first.
pub open spec fn question_tree(prompt: Seq<char>) -> Json {
    Json::Object(
        map![
            "type"@ => Json::Text("choice"@),
            "instructions"@ => Json::Text(prompt),
            "criteria"@ => Json::Object(
                map![
                    "allow"@ => Json::Text("Run without confirmation."@),
                    "confirm"@ => Json::Text("Ask the user to confirm before running."@),
                ],
            ),
        ],
    )
}

/// The request to the provider: the full context of the command, and one
/// question about its safety.
pub open spec fn body_tree(context: ContextView, model: Seq<char>, prompt: Seq<char>) -> Json {
    Json::Object(
        map![
            "model"@ => Json::Text(model),
            "state"@ => context_tree(context),
            "questions"@ => Json::Object(map!["safety"@ => question_tree(prompt)]),
        ],
    )
}

fn question_value(prompt: &str) -> (value: serde_json::Value)
    ensures
        json::json_tree(value) == question_tree(prompt@),
{
    proof {
        reveal_strlit("allow");
        reveal_strlit("confirm");
        reveal_strlit("type");
        reveal_strlit("instructions");
        reveal_strlit("criteria");
        assert("allow"@.len() == 5 && "confirm"@.len() == 7);
        assert("type"@.len() == 4 && "instructions"@.len() == 12 && "criteria"@.len() == 8);
        reveal_with_fuel(json::members_of, 4);
    }
    let options = vec![
        ("allow".to_owned(), json::text_value("Run without confirmation.")),
        ("confirm".to_owned(), json::text_value("Ask the user to confirm before running.")),
    ];
    let ghost criteria = question_tree(prompt@)->Object_0["criteria"@];
    assert(json::members_of(options@) =~= criteria->Object_0);
    let members = vec![
        ("type".to_owned(), json::text_value("choice")),
        ("instructions".to_owned(), json::text_value(prompt)),
        ("criteria".to_owned(), json::object_value(options)),
    ];
    assert(json::members_of(members@) =~= question_tree(prompt@)->Object_0);
    json::object_value(members)
}

/// Writes the request to the provider.
pub fn request_body(context: &Context, model: &str, prompt: &str) -> (body: serde_json::Value)
    ensures
        json::json_tree(body) == body_tree(context@, model@, prompt@),
{
    proof {
        reveal_strlit("model");
        reveal_strlit("state");
        reveal_strlit("questions");
        assert("model"@.len() == 5 && "state"@.len() == 5 && "questions"@.len() == 9);
        assert("model"@[0] == 'm' && "state"@[0] == 's');
        reveal_with_fuel(json::members_of, 4);
    }
    let questions = vec![("safety".to_owned(), question_value(prompt))];
    let ghost tree = body_tree(context@, model@, prompt@)->Object_0;
    assert(json::members_of(questions@) =~= tree["questions"@]->Object_0);
    let members = vec![
        ("model".to_owned(), json::text_value(model)),
        ("state".to_owned(), context_value(context)),
        ("questions".to_owned(), json::object_value(questions)),
    ];
    assert(json::members_of(members@) =~= tree);
    json::object_value(members)
}

/// What a response of the provider means: one of the two choices, or why it is
/// neither.
pub open spec fn judgement(response: Json) -> Result<Seq<char>, Error> {
    let answer = response.member("answers"@).member("safety"@);
    if !answer.member("type"@).is_text("choice"@) {
        Err(Error::AnswerInvalid)
    } else if answer.member("choice"@).is_text("allow"@) {
        Ok("allow"@)
    } else if answer.member("choice"@).is_text("confirm"@) {
        Ok("confirm"@)
    } else {
        Err(Error::ChoiceUnknown)
    }
}

fn holds_text(value: &serde_json::Value, text: &str) -> (yes: bool)
    ensures
        yes == json::json_tree(*value).is_text(text@),
{
    match json::as_text(value) {
        Some(held) => text::same_text(held, text),
        None => false,
    }
}

/// Reads the provider's choice out of its response.
pub fn verdict(response: &serde_json::Value) -> (verdict: Result<&'static str, Error>)
    ensures
        match verdict {
            Ok(verdict) => judgement(json::json_tree(*response)) == Ok::<Seq<char>, Error>(verdict@),
            Err(error) => judgement(json::json_tree(*response)) == Err::<Seq<char>, Error>(error),
        },
{
    let answer = json::member(json::member(response, "answers"), "safety");
    if !holds_text(json::member(answer, "type"), "choice") {
        return Err(Error::AnswerInvalid);
    }
    let choice = json::member(answer, "choice");
    if holds_text(choice, "allow") {
        Ok("allow")
    } else if holds_text(choice, "confirm") {
        Ok("confirm")
    } else {
        Err(Error::ChoiceUnknown)
    }
}

/// A failure is worth another attempt if no connection came about, or if anywhere
/// among the errors below there is one that is neither bad data nor of an unknown
/// kind; and in no other case.
pub proof fn transient_failures_are_retried(failure: Failure, i: int)
    ensures
        failure.kind is Dns || failure.kind is ConnectionFailed ==> is_retryable(failure),
        0 <= i < failure.causes@.len() && !(failure.causes@[i] is InvalidData)
            && !(failure.causes@[i] is Other) ==> is_retryable(failure),
        is_retryable(failure) && failure.kind is Other ==> exists|j: int|
            0 <= j < failure.causes@.len() && !(#[trigger] failure.causes@[j] is InvalidData)
                && !(failure.causes@[j] is Other),
{
    if 0 <= i < failure.causes@.len() && !(failure.causes@[i] is InvalidData) && !(
    failure.causes@[i] is Other) {
        assert(is_transient(failure.causes@[i]));
    }
}

/// An answer ends the call. A failure is followed by another attempt only if it is
/// worth one and fewer than three came before; the wait is 100 milliseconds at
/// first and doubles, and each attempt is counted. Every other failure is final.
pub proof fn call_step_waits_and_counts(
    retries: nat,
    response: serde_json::Value,
    failure: Failure,
    error: Error,
)
    ensures
        call_step(retries, Attempt::Answered(response)) == CallStep::Return(response),
        retries >= 3 || !is_retryable(failure) ==> call_step(
            retries,
            Attempt::Failed(failure, error),
        ) == CallStep::Fail(error),
        retries < 3 && is_retryable(failure) ==> call_step(retries, Attempt::Failed(failure, error))
            == (CallStep::Retry {
            millis: if retries == 0 {
                100
            } else if retries == 1 {
                200
            } else {
                400
            },
            retries: (retries + 1) as u32,
        }),
{
    reveal_with_fuel(backoff, 3);
}

/// The provider is sent every part of the context as it is, under its name, and
/// nothing else of it: two commands whose contexts differ are sent differently.
pub proof fn context_is_sent_in_full(context: Context, other: Context)
    ensures
        ({
            let tree = context_tree(context@);
            &&& tree.member("command"@) == Json::Text(context.command@)
            &&& tree.member("cwd"@) == Json::Text(context.cwd@)
            &&& tree.member("shell"@) == Json::Text(context.shell@)
            &&& tree.member("path"@) == Json::Text(context.path@)
            &&& tree.member("os"@) == Json::Text(context.os@)
            &&& tree.member("uid"@) == Json::Integer(context.uid as int)
            &&& tree is Object && tree->Object_0.dom() == set![
                "command"@,
                "cwd"@,
                "shell"@,
                "path"@,
                "os"@,
                "uid"@,
            ]
            &&& tree == context_tree(other@) ==> {
                &&& context.command@ == other.command@
                &&& context.cwd@ == other.cwd@
                &&& context.shell@ == other.shell@
                &&& context.path@ == other.path@
                &&& context.os@ == other.os@
                &&& context.uid == other.uid
            }
        }),
{
    context_names_differ();
    let tree = context_tree(context@);
    let names = set!["command"@, "cwd"@, "shell"@, "path"@, "os"@, "uid"@];
    assert(tree->Object_0.dom() =~= names);
    let different = context_tree(other@);
    assert(different.member("command"@) == Json::Text(other.command@));
    assert(different.member("cwd"@) == Json::Text(other.cwd@));
    assert(different.member("shell"@) == Json::Text(other.shell@));
    assert(different.member("path"@) == Json::Text(other.path@));
    assert(different.member("os"@) == Json::Text(other.os@));
    assert(different.member("uid"@) == Json::Integer(other.uid as int));
}

/// The request names the model, holds the whole context, and asks one question: to
/// choose between the two outcomes, by the prompt as it is.
pub proof fn request_asks_one_question(context: Context, model: Seq<char>, prompt: Seq<char>)
    ensures
        ({
            let body = body_tree(context@, model, prompt);
            let question = body.member("questions"@).member("safety"@);
            let criteria = question.member("criteria"@);
            &&& body is Object && body->Object_0.dom() == set!["model"@, "state"@, "questions"@]
            &&& body.member("model"@) == Json::Text(model)
            &&& body.member("state"@) == context_tree(context@)
            &&& body.member("questions"@) is Object
            &&& body.member("questions"@)->Object_0.dom() == set!["safety"@]
            &&& question is Object && question->Object_0.dom() == set![
                "type"@,
                "instructions"@,
                "criteria"@,
            ]
            &&& question.member("type"@) == Json::Text("choice"@)
            &&& question.member("instructions"@) == Json::Text(prompt)
            &&& criteria is Object && criteria->Object_0.dom() == set!["allow"@, "confirm"@]
            &&& criteria.member("allow"@) == Json::Text("Run without confirmation."@)
            &&& criteria.member("confirm"@) == Json::Text(
                "Ask the user to confirm before running."@,
            )
        }),
{
    reveal_strlit("allow");
    reveal_strlit("confirm");
    reveal_strlit("type");
    reveal_strlit("instructions");
    reveal_strlit("criteria");
    reveal_strlit("model");
    reveal_strlit("state");
    reveal_strlit("questions");
    assert("allow"@.len() == 5 && "confirm"@.len() == 7);
    assert("type"@.len() == 4 && "instructions"@.len() == 12 && "criteria"@.len() == 8);
    assert("model"@.len() == 5 && "state"@.len() == 5 && "questions"@.len() == 9);
    assert("model"@[0] == 'm' && "state"@[0] == 's');
    let body = body_tree(context@, model, prompt);
    let questions = body.member("questions"@);
    let question = questions.member("safety"@);
    let criteria = question.member("criteria"@);
    assert(body->Object_0.dom() =~= set!["model"@, "state"@, "questions"@]);
    assert(questions->Object_0.dom() =~= set!["safety"@]);
    assert(question->Object_0.dom() =~= set!["type"@, "instructions"@, "criteria"@]);
    assert(criteria->Object_0.dom() =~= set!["allow"@, "confirm"@]);
}

/// The verdict allows exactly where the safety answer is a choice and the choice is
/// to allow, and asks exactly where the choice is to confirm. An answer that is no
/// choice, and a choice that was not offered, are errors. Nothing but the safety
/// answer counts: responses that agree in it have the same verdict.
pub proof fn verdict_is_the_choice(response: Json, other: Json)
    ensures
        ({
            let safety = response.member("answers"@).member("safety"@);
            let chosen = safety.member("type"@) == Json::Text("choice"@);
            let choice = safety.member("choice"@);
            let verdict = judgement(response);
            &&& verdict == Ok::<Seq<char>, Error>("allow"@) <==> chosen && choice == Json::Text(
                "allow"@,
            )
            &&& verdict == Ok::<Seq<char>, Error>("confirm"@) <==> chosen && choice == Json::Text(
                "confirm"@,
            )
            &&& verdict == Err::<Seq<char>, Error>(Error::AnswerInvalid) <==> !chosen
            &&& verdict == Err::<Seq<char>, Error>(Error::ChoiceUnknown) <==> chosen && choice
                != Json::Text("allow"@) && choice != Json::Text("confirm"@)
            &&& safety == other.member("answers"@).member("safety"@) ==> verdict == judgement(
                other,
            )
        }),
{
    reveal_strlit("allow");
    reveal_strlit("confirm");
    assert("allow"@.len() == 5 && "confirm"@.len() == 7);
}

} // verus!
