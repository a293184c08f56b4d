//! How a client checks a command.
//!
//! The client performs a [`CheckAction`], tells [`check_next`] what came of it
//! in a [`CheckEvent`], and is told the next action, until it is told to finish.
use vstd::prelude::*;
use vstd::string::*;
use vstd::utf8::*;
use crate::error::Error;
use crate::protocol;
use crate::protocol::{Context, ContextView, Reply, Request, RequestView};
use crate::settings;
use crate::text;

verus! {

/// The commands that always run, so that the program can be controlled where
/// nothing else works: none at all, and the program's own.
pub open spec fn is_local(command: Seq<char>) -> bool {
    let command = text::trimmed(command);
    ||| command == ""@
    ||| command == "plz set-key"@
    ||| command == "plz on"@
    ||| command == "plz off"@
    ||| command == "plz status"@
    ||| command == "plz edit-prompt"@
}

/// Whether a command is too large to be checked.
pub open spec fn is_too_large(command: Seq<char>) -> bool {
    encode_utf8(command).len() >= protocol::LIMIT
}

fn local(command: &str) -> (yes: bool)
    ensures
        yes == is_local(command@),
{
    let command = text::trim(command);
    text::same_text(command, "") || text::same_text(command, "plz set-key") || text::same_text(
        command,
        "plz on",
    ) || text::same_text(command, "plz off") || text::same_text(command, "plz status")
        || text::same_text(command, "plz edit-prompt")
}

/// What surrounds a command: where it would run, and what is set for its check.
#[derive(Debug)]
pub struct Gathered {
    pub cwd: String,
    /// The variable `PATH`.
    pub path: Option<String>,
    pub os: String,
    pub uid: u32,
    /// The variable `TYPESAFE_MODEL`.
    pub model: Option<String>,
    /// The variable `TYPESAFE_URL`.
    pub endpoint: Option<String>,
    /// The variable `TYPESAFE_API_KEY`.
    pub key_variable: Option<String>,
    pub saved_key: Option<String>,
    pub saved_prompt: Option<String>,
}

/// `text`, or `default` where there is none.
pub open spec fn text_or(text: Option<String>, default: Seq<char>) -> Seq<char> {
    match text {
        Some(text) => text@,
        None => default,
    }
}

/// The request that checks a command.
pub open spec fn request_for(command: Seq<char>, shell: Seq<char>, around: Gathered) -> RequestView {
    RequestView {
        context: ContextView {
            command,
            cwd: around.cwd@,
            shell,
            path: text_or(around.path, ""@),
            os: around.os@,
            uid: around.uid,
        },
        model: text_or(around.model, "jev-latest"@),
        endpoint: text_or(around.endpoint, "https://api.typesafe.ai/v1/systemone"@),
        api_key: settings::key_in_force(
            protocol::optional_text(around.key_variable),
            protocol::optional_text(around.saved_key),
        ),
        prompt: Some(settings::prompt_in_force(protocol::optional_text(around.saved_prompt))),
        answer: None,
    }
}

fn given_or(text: Option<String>, default: &str) -> (chosen: String)
    ensures
        chosen@ == text_or(text, default@),
{
    match text {
        Some(text) => text,
        None => default.to_owned(),
    }
}

fn request(command: String, shell: String, around: Gathered) -> (request: Request)
    ensures
        request@ == request_for(command@, shell@, around),
{
    Request {
        context: Context {
            command,
            cwd: around.cwd,
            shell,
            path: given_or(around.path, ""),
            os: around.os,
            uid: around.uid,
        },
        model: given_or(around.model, "jev-latest"),
        endpoint: given_or(around.endpoint, "https://api.typesafe.ai/v1/systemone"),
        api_key: settings::api_key(around.key_variable, around.saved_key),
        prompt: Some(settings::prompt(around.saved_prompt)),
        answer: None,
    }
}

/// What is measured of a check.
#[derive(Debug, Clone, Copy, PartialEq, Eq, Structural)]
pub struct Sample {
    /// The time that its round trips to the daemon took, in nanoseconds.
    pub waiting: u128,
    pub cache_hit: Option<bool>,
}

/// What a check waits for.
pub enum CheckState {
    /// The saved switch.
    Switch { command: String, shell: String },
    /// What surrounds the command.
    Gathering { command: String, shell: String },
    /// The daemon's reply to the request.
    Waiting { request: Request, sample: Sample },
    /// The user's answer to the confirmation.
    Confirming { request: Request, sample: Sample },
    /// The sample to be recorded; then the check ends in `result`.
    Recording { result: Result<bool, Error> },
    /// Nothing.
    Done,
}

/// The model of a [`CheckState`].
pub enum CheckStateView {
    Switch { command: Seq<char>, shell: Seq<char> },
    Gathering { command: Seq<char>, shell: Seq<char> },
    Waiting { request: RequestView, sample: Sample },
    Confirming { request: RequestView, sample: Sample },
    Recording { result: Result<bool, Error> },
    Done,
}

impl View for CheckState {
    type V = CheckStateView;

    open spec fn view(&self) -> CheckStateView {
        match *self {
            CheckState::Switch { command, shell } => CheckStateView::Switch {
                command: command@,
                shell: shell@,
            },
            CheckState::Gathering { command, shell } => CheckStateView::Gathering {
                command: command@,
                shell: shell@,
            },
            CheckState::Waiting { request, sample } => CheckStateView::Waiting {
                request: request@,
                sample,
            },
            CheckState::Confirming { request, sample } => CheckStateView::Confirming {
                request: request@,
                sample,
            },
            CheckState::Recording { result } => CheckStateView::Recording { result },
            CheckState::Done => CheckStateView::Done,
        }
    }
}

/// What came of an action.
pub enum CheckEvent {
    /// What is saved of the switch.
    Switch(Option<String>),
    /// What surrounds the command.
    Gathered(Gathered),
    /// What came back from the daemon, and how many nanoseconds that took; the
    /// daemon leaves its process id in this file.
    Received { received: Result<Reply, Error>, elapsed: u128, pid_file: String },
    /// What the user answered.
    Answered(Result<String, Error>),
    /// The sample is recorded.
    Recorded,
    /// The action failed.
    Failed(Error),
}

/// What the client does next.
pub enum CheckAction {
    /// Read the switch.
    ReadSwitch,
    /// Find out what surrounds the command.
    Gather,
    /// Send the request that the state holds to the daemon, and wait for the
    /// reply.
    Send,
    /// Ask the user to confirm the command.
    Confirm,
    /// Record the sample.
    Record(Sample),
    /// Let the command run where the result is `true`.
    Finish(Result<bool, Error>),
}

/// Ends in `result`.
pub open spec fn finish(result: Result<bool, Error>) -> (CheckStateView, CheckAction) {
    (CheckStateView::Done, CheckAction::Finish(result))
}

/// Ends in `result` once the sample is recorded.
pub open spec fn settle(result: Result<bool, Error>, sample: Sample) -> (
    CheckStateView,
    CheckAction,
) {
    (CheckStateView::Recording { result }, CheckAction::Record(sample))
}

/// How a check starts.
pub open spec fn first(command: Seq<char>, shell: Seq<char>) -> (CheckStateView, CheckAction) {
    if is_too_large(command) {
        finish(Err(Error::CommandTooLarge))
    } else if is_local(command) {
        finish(Ok(true))
    } else {
        (CheckStateView::Switch { command, shell }, CheckAction::ReadSwitch)
    }
}

/// The sample after a round trip that took `elapsed` nanoseconds.
pub open spec fn measured(
    request: RequestView,
    received: Result<Reply, Error>,
    elapsed: u128,
    sample: Sample,
) -> Sample {
    Sample {
        waiting: (sample.waiting + elapsed) as u128,
        cache_hit: protocol::rpc_cache_hit(request, received, sample.cache_hit),
    }
}

/// What follows a reply. Only the reply to a check can ask for confirmation; the
/// command runs where the last verdict allows it, and else does not.
pub open spec fn after_reply(
    request: RequestView,
    result: Result<Reply, Error>,
    sample: Sample,
) -> (CheckStateView, CheckAction) {
    match result {
        Err(error) => settle(Err(error), sample),
        Ok(reply) => if request.answer is None && reply.verdict@ == "confirm"@ {
            (CheckStateView::Confirming { request, sample }, CheckAction::Confirm)
        } else {
            settle(Ok(reply.verdict@ == "allow"@), sample)
        },
    }
}

/// Whether `event` is something that the state waits for.
pub open spec fn expects(state: CheckStateView, event: CheckEvent) -> bool {
    match (state, event) {
        (CheckStateView::Switch { .. }, CheckEvent::Switch(_)) => true,
        (CheckStateView::Switch { .. }, CheckEvent::Failed(_)) => true,
        (CheckStateView::Gathering { .. }, CheckEvent::Gathered(_)) => true,
        (CheckStateView::Gathering { .. }, CheckEvent::Failed(_)) => true,
        (CheckStateView::Waiting { sample, .. }, CheckEvent::Received { elapsed, .. }) =>
            sample.waiting + elapsed <= protocol::LONGEST_WAIT,
        (CheckStateView::Confirming { .. }, CheckEvent::Answered(_)) => true,
        (CheckStateView::Recording { .. }, CheckEvent::Recorded) => true,
        (CheckStateView::Recording { .. }, CheckEvent::Failed(_)) => true,
        _ => false,
    }
}

/// What follows an event that the state waits for.
pub open spec fn next(state: CheckStateView, event: CheckEvent) -> (CheckStateView, CheckAction) {
    match (state, event) {
        (_, CheckEvent::Failed(error)) => finish(Err(error)),
        (CheckStateView::Switch { command, shell }, CheckEvent::Switch(saved)) =>
            if settings::switched_on(protocol::optional_text(saved)) {
                (CheckStateView::Gathering { command, shell }, CheckAction::Gather)
            } else {
                finish(Ok(true))
            },
        (CheckStateView::Gathering { command, shell }, CheckEvent::Gathered(around)) => (
            CheckStateView::Waiting {
                request: request_for(command, shell, around),
                sample: Sample { waiting: 0, cache_hit: None },
            },
            CheckAction::Send,
        ),
        (
            CheckStateView::Waiting { request, sample },
            CheckEvent::Received { received, elapsed, pid_file },
        ) => after_reply(
            request,
            protocol::rpc_result(request, received, pid_file),
            measured(request, received, elapsed, sample),
        ),
        (CheckStateView::Confirming { request, sample }, CheckEvent::Answered(answer)) =>
            match answer {
                Ok(answer) => (
                    CheckStateView::Waiting {
                        request: RequestView { answer: Some(answer@), ..request },
                        sample,
                    },
                    CheckAction::Send,
                ),
                Err(error) => settle(Err(error), sample),
            },
        (CheckStateView::Recording { result }, CheckEvent::Recorded) => finish(result),
        _ => arbitrary(),
    }
}

/// Starts to check a command that would run in a shell.
pub fn check(command: String, shell: String) -> (after: (CheckState, CheckAction))
    ensures
        (after.0@, after.1) == first(command@, shell@),
{
    if text::byte_len(command.as_str()) as u64 >= protocol::LIMIT {
        return (CheckState::Done, CheckAction::Finish(Err(Error::CommandTooLarge)));
    }
    if local(command.as_str()) {
        return (CheckState::Done, CheckAction::Finish(Ok(true)));
    }
    (CheckState::Switch { command, shell }, CheckAction::ReadSwitch)
}

/// Decides what follows an event.
pub fn check_next(state: CheckState, event: CheckEvent) -> (after: (CheckState, CheckAction))
    requires
        expects(state@, event),
    ensures
        (after.0@, after.1) == next(state@, event),
{
    match (state, event) {
        (_, CheckEvent::Failed(error)) => (CheckState::Done, CheckAction::Finish(Err(error))),
        (CheckState::Switch { command, shell }, CheckEvent::Switch(saved)) => {
            if settings::is_enabled(saved) {
                (CheckState::Gathering { command, shell }, CheckAction::Gather)
            } else {
                (CheckState::Done, CheckAction::Finish(Ok(true)))
            }
        },
        (CheckState::Gathering { command, shell }, CheckEvent::Gathered(around)) => (
            CheckState::Waiting {
                request: request(command, shell, around),
                sample: Sample { waiting: 0, cache_hit: None },
            },
            CheckAction::Send,
        ),
        (
            CheckState::Waiting { request, sample },
            CheckEvent::Received { received, elapsed, pid_file },
        ) => {
            let mut waiting: u128 = sample.waiting;
            let mut cache_hit = sample.cache_hit;
            let result = protocol::timed_rpc(
                &request,
                received,
                pid_file,
                elapsed,
                &mut waiting,
                &mut cache_hit,
            );
            let sample = Sample { waiting, cache_hit };
            match result {
                Err(error) => (
                    CheckState::Recording { result: Err(error) },
                    CheckAction::Record(sample),
                ),
                Ok(reply) => {
                    if request.answer.is_none() && text::same_text(
                        reply.verdict.as_str(),
                        "confirm",
                    ) {
                        return (CheckState::Confirming { request, sample }, CheckAction::Confirm);
                    }
                    let allowed = text::same_text(reply.verdict.as_str(), "allow");
                    (CheckState::Recording { result: Ok(allowed) }, CheckAction::Record(sample))
                },
            }
        },
        (CheckState::Confirming { request, sample }, CheckEvent::Answered(answer)) => {
            match answer {
                Ok(answer) => {
                    let mut request = request;
                    request.answer = Some(answer);
                    (CheckState::Waiting { request, sample }, CheckAction::Send)
                },
                Err(error) => (
                    CheckState::Recording { result: Err(error) },
                    CheckAction::Record(sample),
                ),
            }
        },
        (CheckState::Recording { result }, CheckEvent::Recorded) => (
            CheckState::Done,
            CheckAction::Finish(result),
        ),
        _ => vstd::pervasive::unreached(),
    }
}

/// Everything that a check depends on.
pub struct World {
    /// What is saved of the switch.
    pub switch: Option<String>,
    /// What surrounds the command.
    pub around: Gathered,
    /// What comes back for a request.
    pub daemon: spec_fn(RequestView) -> Result<Reply, Error>,
    /// How many nanoseconds that takes.
    pub elapsed: spec_fn(RequestView) -> u128,
    /// Where the daemon leaves its process id.
    pub pid_file: String,
    /// What the user answers when asked.
    pub user: Result<String, Error>,
}

/// A check that was made.
pub struct Checked {
    /// Whether the command runs.
    pub result: Result<bool, Error>,
    /// The requests that were sent, in their order.
    pub sent: Seq<RequestView>,
    /// The samples that were recorded.
    pub samples: Seq<Sample>,
    /// How often the user was asked.
    pub asked: nat,
}

/// How many actions can still follow in a state.
pub open spec fn steps_left(state: CheckStateView) -> nat {
    match state {
        CheckStateView::Switch { .. } => 6,
        CheckStateView::Gathering { .. } => 5,
        CheckStateView::Waiting { request, .. } => if request.answer is None {
            4
        } else {
            2
        },
        CheckStateView::Confirming { .. } => 3,
        CheckStateView::Recording { .. } => 1,
        CheckStateView::Done => 0,
    }
}

/// What comes of an action in the world, and what was done with it.
pub open spec fn perform(
    state: CheckStateView,
    action: CheckAction,
    world: World,
    so_far: Checked,
) -> (CheckEvent, Checked) {
    match (action, state) {
        (CheckAction::ReadSwitch, _) => (CheckEvent::Switch(world.switch), so_far),
        (CheckAction::Gather, _) => (CheckEvent::Gathered(world.around), so_far),
        (CheckAction::Send, CheckStateView::Waiting { request, .. }) => (
            CheckEvent::Received {
                received: (world.daemon)(request),
                elapsed: (world.elapsed)(request),
                pid_file: world.pid_file,
            },
            Checked { sent: so_far.sent.push(request), ..so_far },
        ),
        (CheckAction::Confirm, _) => (
            CheckEvent::Answered(world.user),
            Checked { asked: so_far.asked + 1, ..so_far },
        ),
        (CheckAction::Record(sample), _) => (
            CheckEvent::Recorded,
            Checked { samples: so_far.samples.push(sample), ..so_far },
        ),
        _ => arbitrary(),
    }
}

/// The rest of a check that is in `state` and about to do `action`.
pub open spec fn check_from(
    state: CheckStateView,
    action: CheckAction,
    world: World,
    so_far: Checked,
) -> Checked
    decreases steps_left(state),
{
    match action {
        CheckAction::Finish(result) => Checked { result, ..so_far },
        _ => {
            let (event, done) = perform(state, action, world, so_far);
            let (after, then_do) = next(state, event);
            if expects(state, event) && steps_left(after) < steps_left(state) {
                check_from(after, then_do, world, done)
            } else {
                arbitrary()
            }
        },
    }
}

/// A whole check.
pub open spec fn checked(command: Seq<char>, shell: Seq<char>, world: World) -> Checked {
    let (state, action) = first(command, shell);
    let nothing = Checked {
        result: Ok(false),
        sent: Seq::empty(),
        samples: Seq::empty(),
        asked: 0,
    };
    check_from(state, action, world, nothing)
}

/// Whether a check waits no longer than can be measured.
pub open spec fn measurable(command: Seq<char>, shell: Seq<char>, world: World) -> bool {
    let request = request_for(command, shell, world.around);
    (world.elapsed)(request) + (if world.user is Ok {
        (world.elapsed)(RequestView { answer: Some(world.user->Ok_0@), ..request })
    } else {
        0
    }) <= protocol::LONGEST_WAIT
}

/// Whether what came back for a request allows the command.
pub open spec fn allows(received: Result<Reply, Error>) -> bool {
    &&& received matches Ok(reply)
    &&& reply.prompt_supported
    &&& reply.error is None
    &&& reply.verdict@ == "allow"@
}

/// Whether what came back for a request asks the user to confirm the command.
pub open spec fn asks(received: Result<Reply, Error>) -> bool {
    &&& received matches Ok(reply)
    &&& reply.prompt_supported
    &&& reply.error is None
    &&& reply.verdict@ == "confirm"@
}

/// The program's own commands run whatever is saved, and without the daemon.
/// They leave no sample.
pub proof fn local_command_runs(command: Seq<char>, shell: Seq<char>, world: World)
    requires
        is_local(command),
        !is_too_large(command),
    ensures
        ({
            let check = checked(command, shell, world);
            &&& check.result == Ok::<bool, Error>(true)
            &&& check.sent.len() == 0 && check.samples.len() == 0 && check.asked == 0
        }),
{
}

/// While checks are off, every command runs without the daemon, and no sample is
/// left.
pub proof fn everything_runs_while_off(command: Seq<char>, shell: Seq<char>, world: World)
    requires
        !settings::switched_on(protocol::optional_text(world.switch)),
        !is_too_large(command),
    ensures
        ({
            let check = checked(command, shell, world);
            &&& check.result == Ok::<bool, Error>(true)
            &&& check.sent.len() == 0 && check.samples.len() == 0 && check.asked == 0
        }),
{
    reveal_with_fuel(check_from, 3);
}

pub(crate) proof fn lemma_checked(command: Seq<char>, shell: Seq<char>, world: World)
    requires
        settings::switched_on(protocol::optional_text(world.switch)),
        !is_local(command),
        !is_too_large(command),
        measurable(command, shell, world),
    ensures
        ({
            let check = checked(command, shell, world);
            let request = request_for(command, shell, world.around);
            let received = (world.daemon)(request);
            let answer = RequestView { answer: Some(world.user->Ok_0@), ..request };
            let sample = Sample {
                waiting: (world.elapsed)(request),
                cache_hit: protocol::rpc_cache_hit(request, received, None),
            };
            if asks(received) && world.user is Ok {
                &&& check.sent == seq![request, answer]
                &&& check.asked == 1
                &&& check.samples == seq![
                    Sample {
                        waiting: (sample.waiting + (world.elapsed)(answer)) as u128,
                        ..sample
                    },
                ]
                &&& (check.result == Ok::<bool, Error>(true)) == allows((world.daemon)(answer))
            } else {
                &&& check.sent == seq![request]
                &&& check.asked == (if asks(received) {
                    1nat
                } else {
                    0
                })
                &&& check.samples == seq![sample]
                &&& (check.result == Ok::<bool, Error>(true)) == allows(received)
            }
        }),
{
    reveal_with_fuel(check_from, 8);
    reveal_strlit("allow");
    reveal_strlit("confirm");
    assert("allow"@.len() == 5 && "confirm"@.len() == 7);
    let request = request_for(command, shell, world.around);
    let check = checked(command, shell, world);
    assert(check.sent[0] == request);
    assert(check.samples.len() == 1);
}

/// A command that is checked runs only where the daemon's last reply allows it:
/// no connection, no reply, an error of the daemon or the provider, a daemon
/// that ignores the prompt, a verdict that is none, or an answer that cannot be
/// read all keep it from running.
pub proof fn checked_command_runs_only_if_allowed(
    command: Seq<char>,
    shell: Seq<char>,
    world: World,
)
    requires
        settings::switched_on(protocol::optional_text(world.switch)),
        !is_local(command),
        !is_too_large(command),
        measurable(command, shell, world),
    ensures
        ({
            let check = checked(command, shell, world);
            check.result == Ok::<bool, Error>(true) ==> allows((world.daemon)(check.sent.last()))
        }),
{
    lemma_checked(command, shell, world);
}

/// The user is asked just where the daemon asks for it, and once. The answer is
/// sent with the request that was checked, with the same prompt.
pub proof fn confirmation_repeats_the_request(command: Seq<char>, shell: Seq<char>, world: World)
    requires
        settings::switched_on(protocol::optional_text(world.switch)),
        !is_local(command),
        !is_too_large(command),
        measurable(command, shell, world),
    ensures
        ({
            let check = checked(command, shell, world);
            let request = request_for(command, shell, world.around);
            &&& check.sent.first() == request
            &&& check.asked == (if asks((world.daemon)(request)) {
                1nat
            } else {
                0
            })
            &&& check.sent.len() == (if asks((world.daemon)(request)) && world.user is Ok {
                2nat
            } else {
                1
            })
            &&& check.sent.len() == 2 ==> check.sent[1] == (RequestView {
                answer: Some(world.user->Ok_0@),
                ..request
            })
        }),
{
    lemma_checked(command, shell, world);
}

/// A check leaves one sample, however it ends: the time of its round trips, and
/// of nothing else, and what the reply to the check said of the cache.
pub proof fn one_sample_per_check(command: Seq<char>, shell: Seq<char>, world: World)
    requires
        settings::switched_on(protocol::optional_text(world.switch)),
        !is_local(command),
        !is_too_large(command),
        measurable(command, shell, world),
    ensures
        ({
            let check = checked(command, shell, world);
            let request = check.sent[0];
            &&& check.samples.len() == 1
            &&& check.samples[0].waiting == (world.elapsed)(request) + (if check.sent.len() == 2 {
                (world.elapsed)(check.sent[1])
            } else {
                0
            })
            &&& check.samples[0].cache_hit == protocol::rpc_cache_hit(
                request,
                (world.daemon)(request),
                None,
            )
        }),
{
    lemma_checked(command, shell, world);
}

/// A command of a mebibyte or more is refused. Any other finishes unchecked at the
/// start if and only if, without the white space around it, it is empty or one of
/// five commands of the program itself; all of these start alike and are short. The
/// rest goes on to be checked, as it is.
pub proof fn only_six_commands_start_unchecked(command: Seq<char>, shell: Seq<char>)
    ensures
        ({
            let word = text::trimmed(command);
            let (state, action) = first(command, shell);
            let bytes = encode_utf8(command).len();
            let unchecked = action == CheckAction::Finish(Ok(true));
            &&& bytes >= 1048576 ==> state is Done && action == CheckAction::Finish(
                Err(Error::CommandTooLarge),
            )
            &&& bytes < 1048576 ==> (unchecked <==> {
                ||| word.len() == 0
                ||| word == "plz set-key"@
                ||| word == "plz on"@
                ||| word == "plz off"@
                ||| word == "plz status"@
                ||| word == "plz edit-prompt"@
            })
            &&& unchecked ==> {
                &&& state is Done
                &&& word.len() <= 15
                &&& word.len() > 0 ==> word.take(4) == "plz "@
            }
            &&& bytes < 1048576 && !unchecked ==> state == (CheckStateView::Switch {
                command,
                shell,
            }) && action == CheckAction::ReadSwitch
        }),
{
    reveal_strlit("");
    reveal_strlit("plz ");
    reveal_strlit("plz set-key");
    reveal_strlit("plz on");
    reveal_strlit("plz off");
    reveal_strlit("plz status");
    reveal_strlit("plz edit-prompt");
    let word = text::trimmed(command);
    assert(word.len() == 0 ==> word =~= ""@);
    if is_local(command) && word.len() > 0 {
        assert(word.take(4) =~= "plz "@);
    }
}

/// A command that is not too large runs without a request if and only if it is
/// empty or one of the program's own, or the text `0` is saved of the switch; then
/// nobody is asked and no sample is left.
pub proof fn command_is_checked_unless_local_or_off(
    command: Seq<char>,
    shell: Seq<char>,
    world: World,
)
    requires
        encode_utf8(command).len() < 1048576,
        measurable(command, shell, world),
    ensures
        ({
            let check = checked(command, shell, world);
            let word = text::trimmed(command);
            &&& check.sent.len() == 0 <==> {
                ||| word.len() == 0
                ||| word == "plz set-key"@
                ||| word == "plz on"@
                ||| word == "plz off"@
                ||| word == "plz status"@
                ||| word == "plz edit-prompt"@
                ||| world.switch is Some && world.switch->0@ == "0"@
            }
            &&& check.sent.len() == 0 ==> {
                &&& check.result == Ok::<bool, Error>(true)
                &&& check.samples.len() == 0
                &&& check.asked == 0
            }
        }),
{
    only_six_commands_start_unchecked(command, shell);
    if settings::switched_on(protocol::optional_text(world.switch)) {
        if !is_local(command) {
            lemma_checked(command, shell, world);
        }
    } else {
        everything_runs_while_off(command, shell, world);
    }
}

/// The first request of a check holds the command as it is, all that was gathered
/// around it, and what is set for the check; what is not set takes its default. A
/// second request differs from it only in that it carries the user's answer.
pub proof fn requests_hold_the_full_context(command: Seq<char>, shell: Seq<char>, world: World)
    requires
        measurable(command, shell, world),
        checked(command, shell, world).sent.len() > 0,
        encode_utf8(command).len() < 1048576,
    ensures
        ({
            let check = checked(command, shell, world);
            let around = world.around;
            let request = check.sent[0];
            &&& request.context.command == command
            &&& request.context.shell == shell
            &&& request.context.cwd == around.cwd@
            &&& request.context.os == around.os@
            &&& request.context.uid == around.uid
            &&& request.context.path == match around.path {
                Some(path) => path@,
                None => Seq::<char>::empty(),
            }
            &&& request.model == match around.model {
                Some(model) => model@,
                None => "jev-latest"@,
            }
            &&& request.endpoint == match around.endpoint {
                Some(endpoint) => endpoint@,
                None => "https://api.typesafe.ai/v1/systemone"@,
            }
            &&& request.api_key == if around.key_variable is Some
                && around.key_variable->0@.len() > 0 {
                around.key_variable->0@
            } else if around.saved_key is Some {
                around.saved_key->0@
            } else {
                Seq::<char>::empty()
            }
            &&& request.prompt == Some(
                match around.saved_prompt {
                    Some(prompt) => prompt@,
                    None => settings::DEFAULT_PROMPT@,
                },
            )
            &&& request.answer is None
            &&& check.sent.len() <= 2
            &&& check.sent.len() == 2 ==> {
                &&& world.user matches Ok(answer)
                &&& check.sent[1].answer == Some(answer@)
                &&& check.sent[1].context == request.context
                &&& check.sent[1].model == request.model
                &&& check.sent[1].endpoint == request.endpoint
                &&& check.sent[1].api_key == request.api_key
                &&& check.sent[1].prompt == request.prompt
            }
        }),
{
    reveal_strlit("");
    assert(""@ =~= Seq::<char>::empty());
    if is_local(command) {
        local_command_runs(command, shell, world);
    } else if !settings::switched_on(protocol::optional_text(world.switch)) {
        everything_runs_while_off(command, shell, world);
    } else {
        lemma_checked(command, shell, world);
    }
}

/// The last reply decides. Without one, or with an error in it, or from a daemon that
/// ignores the prompt, the check fails with that error. Where it is the reply to the
/// check itself and asks for confirmation, the user could not be asked, and that is
/// the error. Otherwise the command runs if the verdict is to allow, and is denied if
/// it is anything else.
pub proof fn last_reply_decides(command: Seq<char>, shell: Seq<char>, world: World)
    requires
        measurable(command, shell, world),
        checked(command, shell, world).sent.len() > 0,
        encode_utf8(command).len() < 1048576,
    ensures
        ({
            let check = checked(command, shell, world);
            let first = (world.daemon)(check.sent[0]);
            let sound = first is Ok && first->Ok_0.prompt_supported && first->Ok_0.error is None;
            let asked = sound && first->Ok_0.verdict@ == "confirm"@;
            &&& check.asked == (if asked {
                1nat
            } else {
                0
            })
            &&& check.sent.len() == (if asked && world.user is Ok {
                2nat
            } else {
                1
            })
            &&& check.result == match (world.daemon)(check.sent.last()) {
                Err(error) => Err(error),
                Ok(reply) => if !reply.prompt_supported {
                    Err(Error::DaemonOutdated(world.pid_file))
                } else if reply.error is Some {
                    Err(Error::Outside(reply.error->0))
                } else if asked && world.user is Err {
                    Err(world.user->Err_0)
                } else {
                    Ok(reply.verdict@ == "allow"@)
                },
            }
        }),
{
    if is_local(command) {
        local_command_runs(command, shell, world);
    } else if !settings::switched_on(protocol::optional_text(world.switch)) {
        everything_runs_while_off(command, shell, world);
    } else {
        lemma_checked(command, shell, world);
        reveal_with_fuel(check_from, 8);
        reveal_strlit("allow");
        reveal_strlit("confirm");
        assert("allow"@.len() == 5 && "confirm"@.len() == 7);
    }
}

/// The one sample of a check holds the sum of its round trips, and of the cache what
/// the first reply told, if that reply heeds the prompt.
pub proof fn sample_holds_what_was_measured(command: Seq<char>, shell: Seq<char>, world: World)
    requires
        measurable(command, shell, world),
        checked(command, shell, world).sent.len() > 0,
        encode_utf8(command).len() < 1048576,
    ensures
        ({
            let check = checked(command, shell, world);
            let first = (world.daemon)(check.sent[0]);
            &&& check.samples.len() == 1
            &&& check.samples[0].waiting == (world.elapsed)(check.sent[0]) + (if check.sent.len()
                == 2 {
                (world.elapsed)(check.sent[1])
            } else {
                0
            })
            &&& check.samples[0].cache_hit == if first is Ok && first->Ok_0.prompt_supported {
                first->Ok_0.cache_hit
            } else {
                None
            }
        }),
{
    if is_local(command) {
        local_command_runs(command, shell, world);
    } else if !settings::switched_on(protocol::optional_text(world.switch)) {
        everything_runs_while_off(command, shell, world);
    } else {
        lemma_checked(command, shell, world);
    }
}

/// Whatever fails before the request is sent, or when the sample is recorded, ends
/// the check with that error, so the command does not run.
pub proof fn failure_ends_the_check(state: CheckStateView, error: Error)
    requires
        state is Switch || state is Gathering || state is Recording,
    ensures
        expects(state, CheckEvent::Failed(error)),
        next(state, CheckEvent::Failed(error)) == (
            CheckStateView::Done,
            CheckAction::Finish(Err(error)),
        ),
{
}

/// What a check waits for is known by its model.
pub proof fn state_is_known_by_its_model(a: CheckState, b: CheckState)
    requires
        a@ == b@,
    ensures
        match (a, b) {
            (
                CheckState::Switch { command: x, shell: u },
                CheckState::Switch { command: y, shell: v },
            ) => x@ == y@ && u@ == v@,
            (
                CheckState::Gathering { command: x, shell: u },
                CheckState::Gathering { command: y, shell: v },
            ) => x@ == y@ && u@ == v@,
            (
                CheckState::Waiting { request: x, sample: u },
                CheckState::Waiting { request: y, sample: v },
            ) => x@ == y@ && u == v,
            (
                CheckState::Confirming { request: x, sample: u },
                CheckState::Confirming { request: y, sample: v },
            ) => x@ == y@ && u == v,
            (CheckState::Recording { result: x }, CheckState::Recording { result: y }) => x == y,
            (CheckState::Done, CheckState::Done) => true,
            _ => false,
        },
{
}

} // verus!
