//! How the daemon handles one request.
//!
//! The daemon performs a [`HandleAction`], tells [`handle_next`] what came of it
//! in a [`HandleEvent`], and is told the next action, until it is told to
//! finish.
use vstd::prelude::*;
use vstd::string::*;
use crate::cache;
use crate::cache::Subject;
use crate::error::Error;
use crate::json;
use crate::json::Json;
use crate::protocol;
use crate::protocol::{Request, RequestView};
use crate::provider;
use crate::settings;
use crate::text;

verus! {

/// A verdict that was kept.
#[derive(Debug)]
pub struct Cached {
    pub verdict: String,
    /// Whether the user allowed the command for good.
    pub always_allow: bool,
}

/// The model of a [`Cached`].
#[verifier::ext_equal]
pub struct CachedView {
    pub verdict: Seq<char>,
    pub always_allow: bool,
}

impl View for Cached {
    type V = CachedView;

    open spec fn view(&self) -> CachedView {
        CachedView { verdict: self.verdict@, always_allow: self.always_allow }
    }
}

/// How far a request has come: what it waits for.
pub enum HandleState {
    /// For the prompt that is saved.
    Prompt(Request),
    /// For the verdict that is kept under `key`.
    Lookup { request: Request, prompt: String, key: String },
    /// For the user's answer to be recorded; then it ends in `verdict`.
    Record { verdict: String },
    /// For the provider.
    Call { key: String },
    /// For `verdict` to be kept.
    Store { verdict: String },
    /// For nothing.
    Done,
}

/// The model of a [`HandleState`].
pub enum HandleStateView {
    Prompt(RequestView),
    Lookup { request: RequestView, prompt: Seq<char>, key: Seq<char> },
    Record { verdict: Seq<char> },
    Call { key: Seq<char> },
    Store { verdict: Seq<char> },
    Done,
}

impl View for HandleState {
    type V = HandleStateView;

    open spec fn view(&self) -> HandleStateView {
        match self {
            HandleState::Prompt(request) => HandleStateView::Prompt(request@),
            HandleState::Lookup { request, prompt, key } => HandleStateView::Lookup {
                request: request@,
                prompt: prompt@,
                key: key@,
            },
            HandleState::Record { verdict } => HandleStateView::Record { verdict: verdict@ },
            HandleState::Call { key } => HandleStateView::Call { key: key@ },
            HandleState::Store { verdict } => HandleStateView::Store { verdict: verdict@ },
            HandleState::Done => HandleStateView::Done,
        }
    }
}

/// What came of an action.
pub enum HandleEvent {
    /// The prompt that is saved, if there is one.
    SavedPrompt(Option<String>),
    /// The verdict that is kept, if there is one.
    Found(Option<Cached>),
    /// The answer is recorded.
    Recorded,
    /// The provider's response.
    Response(serde_json::Value),
    /// The verdict is kept.
    Stored,
    /// The action failed.
    Failed(Error),
}

/// The model of a [`HandleEvent`].
pub enum HandleEventView {
    SavedPrompt(Option<Seq<char>>),
    Found(Option<CachedView>),
    Recorded,
    Response(Json),
    Stored,
    Failed(Error),
}

impl View for HandleEvent {
    type V = HandleEventView;

    open spec fn view(&self) -> HandleEventView {
        match *self {
            HandleEvent::SavedPrompt(saved) => HandleEventView::SavedPrompt(
                protocol::optional_text(saved),
            ),
            HandleEvent::Found(Some(cached)) => HandleEventView::Found(Some(cached@)),
            HandleEvent::Found(None) => HandleEventView::Found(None),
            HandleEvent::Recorded => HandleEventView::Recorded,
            HandleEvent::Response(response) => HandleEventView::Response(json::json_tree(response)),
            HandleEvent::Stored => HandleEventView::Stored,
            HandleEvent::Failed(error) => HandleEventView::Failed(error),
        }
    }
}

/// What the daemon does next.
pub enum HandleAction {
    /// Read the saved prompt.
    ReadPrompt,
    /// Look up the verdict that is kept under the key.
    LookUp { key: String },
    /// In one transaction, record the answer, and where `always` holds mark the
    /// kept verdict as allowed for good.
    Record { key: String, answer: String, always: bool },
    /// Call the provider.
    Call { endpoint: String, api_key: String, body: serde_json::Value },
    /// Keep the verdict, with the response that it was read from.
    Store { key: String, verdict: String, response: String },
    /// Answer the client.
    Finish(Result<String, Error>),
}

/// The model of a [`HandleAction`].
pub enum HandleActionView {
    ReadPrompt,
    LookUp { key: Seq<char> },
    Record { key: Seq<char>, answer: Seq<char>, always: bool },
    Call { endpoint: Seq<char>, api_key: Seq<char>, body: Json },
    Store { key: Seq<char>, verdict: Seq<char>, response: Seq<char> },
    Finish(Result<Seq<char>, Error>),
}

impl View for HandleAction {
    type V = HandleActionView;

    open spec fn view(&self) -> HandleActionView {
        match *self {
            HandleAction::ReadPrompt => HandleActionView::ReadPrompt,
            HandleAction::LookUp { key } => HandleActionView::LookUp { key: key@ },
            HandleAction::Record { key, answer, always } => HandleActionView::Record {
                key: key@,
                answer: answer@,
                always,
            },
            HandleAction::Call { endpoint, api_key, body } => HandleActionView::Call {
                endpoint: endpoint@,
                api_key: api_key@,
                body: json::json_tree(body),
            },
            HandleAction::Store { key, verdict, response } => HandleActionView::Store {
                key: key@,
                verdict: verdict@,
                response: response@,
            },
            HandleAction::Finish(Ok(verdict)) => HandleActionView::Finish(Ok(verdict@)),
            HandleAction::Finish(Err(error)) => HandleActionView::Finish(Err(error)),
        }
    }
}

/// What the verdict on a request depends on, where `prompt` is its prompt.
pub open spec fn subject_of(request: RequestView, prompt: Seq<char>) -> Subject {
    Subject { context: request.context, model: request.model, endpoint: request.endpoint, prompt }
}

/// Looks for a kept verdict under the prompt, which holds from here on.
pub open spec fn look_up(request: RequestView, prompt: Seq<char>) -> (
    HandleStateView,
    HandleActionView,
) {
    let key = subject_of(request, prompt).key();
    (HandleStateView::Lookup { request, prompt, key }, HandleActionView::LookUp { key })
}

/// Ends in `result`.
pub open spec fn finish(result: Result<Seq<char>, Error>) -> (HandleStateView, HandleActionView) {
    (HandleStateView::Done, HandleActionView::Finish(result))
}

/// The three answers to a confirmation.
pub open spec fn is_answer(answer: Seq<char>) -> bool {
    answer == "once"@ || answer == "always"@ || answer == "no"@
}

/// Records the user's answer to a confirmation that was asked for.
pub open spec fn record(answer: Seq<char>, key: Seq<char>, found: Option<CachedView>) -> (
    HandleStateView,
    HandleActionView,
) {
    if !is_answer(answer) {
        finish(Err(Error::ConfirmationInvalid))
    } else if !(found matches Some(cached) && cached.verdict == "confirm"@) {
        finish(Err(Error::ConfirmationUnasked))
    } else {
        let verdict = if answer == "no"@ {
            "deny"@
        } else {
            "allow"@
        };
        (
            HandleStateView::Record { verdict },
            HandleActionView::Record { key, answer, always: answer == "always"@ },
        )
    }
}

/// Answers with the verdict that is kept; asks the provider for one only where
/// none is.
pub open spec fn answer_check(
    request: RequestView,
    prompt: Seq<char>,
    key: Seq<char>,
    found: Option<CachedView>,
) -> (HandleStateView, HandleActionView) {
    match found {
        Some(cached) => finish(
            Ok(
                if cached.always_allow {
                    "allow"@
                } else {
                    cached.verdict
                },
            ),
        ),
        None => if request.api_key.len() == 0 {
            finish(Err(Error::KeyMissing))
        } else {
            (
                HandleStateView::Call { key },
                HandleActionView::Call {
                    endpoint: request.endpoint,
                    api_key: request.api_key,
                    body: provider::body_tree(request.context, request.model, prompt),
                },
            )
        },
    }
}

/// How a request starts.
pub open spec fn first(request: RequestView) -> (HandleStateView, HandleActionView) {
    match request.prompt {
        Some(prompt) => look_up(request, prompt),
        None => (HandleStateView::Prompt(request), HandleActionView::ReadPrompt),
    }
}

/// Whether `event` is something that the state waits for.
pub open spec fn expects(state: HandleStateView, event: HandleEventView) -> bool {
    match (state, event) {
        (HandleStateView::Done, _) => false,
        (_, HandleEventView::Failed(_)) => true,
        (HandleStateView::Prompt(_), HandleEventView::SavedPrompt(_)) => true,
        (HandleStateView::Lookup { .. }, HandleEventView::Found(_)) => true,
        (HandleStateView::Record { .. }, HandleEventView::Recorded) => true,
        (HandleStateView::Call { .. }, HandleEventView::Response(_)) => true,
        (HandleStateView::Store { .. }, HandleEventView::Stored) => true,
        _ => false,
    }
}

/// What follows an event that the state waits for. A failure ends the request.
pub open spec fn next(state: HandleStateView, event: HandleEventView) -> (
    HandleStateView,
    HandleActionView,
) {
    match (state, event) {
        (_, HandleEventView::Failed(error)) => finish(Err(error)),
        (HandleStateView::Prompt(request), HandleEventView::SavedPrompt(saved)) => look_up(
            request,
            settings::prompt_in_force(saved),
        ),
        (HandleStateView::Lookup { request, prompt, key }, HandleEventView::Found(found)) =>
            match request.answer {
                Some(answer) => record(answer, key, found),
                None => answer_check(request, prompt, key, found),
            },
        (HandleStateView::Record { verdict }, _) => finish(Ok(verdict)),
        (HandleStateView::Call { key }, HandleEventView::Response(response)) =>
            match provider::judgement(response) {
                Ok(verdict) => (
                    HandleStateView::Store { verdict },
                    HandleActionView::Store { key, verdict, response: json::json_text(response) },
                ),
                Err(error) => finish(Err(error)),
            },
        (HandleStateView::Store { verdict }, _) => finish(Ok(verdict)),
        _ => arbitrary(),
    }
}

/// What is known of the cache after an event: for a check, whether the verdict
/// was found.
pub open spec fn hit_after(
    state: HandleStateView,
    event: HandleEventView,
    known: Option<bool>,
) -> Option<bool> {
    match (state, event) {
        (HandleStateView::Lookup { request, .. }, HandleEventView::Found(found)) if request.answer
            is None => Some(found is Some),
        _ => known,
    }
}

fn look_up_exec(request: Request, prompt: String) -> (next: (HandleState, HandleAction))
    ensures
        (next.0@, next.1@) == look_up(request@, prompt@),
        subject_of(request@, prompt@).has_its_own_key(),
        next.1@ matches HandleActionView::LookUp { key } && json::stands_for_one_value(key),
{
    let key = cache::cache_key(
        &request.context,
        request.model.as_str(),
        request.endpoint.as_str(),
        prompt.as_str(),
    );
    let action = HandleAction::LookUp { key: key.clone() };
    (HandleState::Lookup { request, prompt, key }, action)
}

fn record_exec(answer: String, key: String, found: Option<Cached>) -> (next: (
    HandleState,
    HandleAction,
))
    ensures
        (next.0@, next.1@) == record(
            answer@,
            key@,
            match found {
                Some(cached) => Some(cached@),
                None => None,
            },
        ),
{
    let always = text::same_text(answer.as_str(), "always");
    let no = text::same_text(answer.as_str(), "no");
    if !(text::same_text(answer.as_str(), "once") || always || no) {
        return (HandleState::Done, HandleAction::Finish(Err(Error::ConfirmationInvalid)));
    }
    let asked = match &found {
        Some(cached) => text::same_text(cached.verdict.as_str(), "confirm"),
        None => false,
    };
    if !asked {
        return (HandleState::Done, HandleAction::Finish(Err(Error::ConfirmationUnasked)));
    }
    let verdict = if no {
        "deny".to_owned()
    } else {
        "allow".to_owned()
    };
    (HandleState::Record { verdict }, HandleAction::Record { key, answer, always })
}

fn answer_check_exec(request: Request, prompt: String, key: String, found: Option<Cached>) -> (next:
    (HandleState, HandleAction))
    ensures
        (next.0@, next.1@) == answer_check(
            request@,
            prompt@,
            key@,
            match found {
                Some(cached) => Some(cached@),
                None => None,
            },
        ),
{
    match found {
        Some(cached) => {
            let verdict = if cached.always_allow {
                "allow".to_owned()
            } else {
                cached.verdict
            };
            (HandleState::Done, HandleAction::Finish(Ok(verdict)))
        },
        None => {
            if request.api_key.as_str().is_empty() {
                return (HandleState::Done, HandleAction::Finish(Err(Error::KeyMissing)));
            }
            let body = provider::request_body(
                &request.context,
                request.model.as_str(),
                prompt.as_str(),
            );
            (
                HandleState::Call { key },
                HandleAction::Call { endpoint: request.endpoint, api_key: request.api_key, body },
            )
        },
    }
}

/// Starts to handle a request: the prompt that it names, or else the one that is
/// saved now, holds for all that follows. The key that is looked up is that of no
/// other subject.
pub fn handle(request: Request) -> (next: (HandleState, HandleAction))
    ensures
        (next.0@, next.1@) == first(request@),
        request@.prompt matches Some(prompt) ==> subject_of(request@, prompt).has_its_own_key(),
        next.1@ matches HandleActionView::LookUp { key } ==> json::stands_for_one_value(key),
        forall|other: Request|
            next.1@ is LookUp && #[trigger] first(other@).1 == next.1@ ==> {
                &&& other.context.command@ == request.context.command@
                &&& other.context.cwd@ == request.context.cwd@
                &&& other.context.shell@ == request.context.shell@
                &&& other.context.path@ == request.context.path@
                &&& other.context.os@ == request.context.os@
                &&& other.context.uid == request.context.uid
                &&& other.model@ == request.model@
                &&& other.endpoint@ == request.endpoint@
                &&& protocol::optional_text(other.prompt) == protocol::optional_text(request.prompt)
            },
{
    match &request.prompt {
        Some(prompt) => {
            let prompt = prompt.clone();
            look_up_exec(request, prompt)
        },
        None => (HandleState::Prompt(request), HandleAction::ReadPrompt),
    }
}

/// Decides what follows an event, and notes whether the verdict was known. The
/// key that is looked up under the saved prompt is that of no other subject.
pub fn handle_next(
    state: HandleState,
    event: HandleEvent,
    cache_hit: &mut Option<bool>,
) -> (after: (HandleState, HandleAction))
    requires
        expects(state@, event@),
    ensures
        (after.0@, after.1@) == next(state@, event@),
        *final(cache_hit) == hit_after(state@, event@, *old(cache_hit)),
        match (state@, event@) {
            (HandleStateView::Prompt(request), HandleEventView::SavedPrompt(saved)) => subject_of(
                request,
                settings::prompt_in_force(saved),
            ).has_its_own_key(),
            _ => true,
        },
        after.1@ matches HandleActionView::LookUp { key } ==> json::stands_for_one_value(key),
{
    match (state, event) {
        (_, HandleEvent::Failed(error)) => (
            HandleState::Done,
            HandleAction::Finish(Err(error)),
        ),
        (HandleState::Prompt(request), HandleEvent::SavedPrompt(saved)) => look_up_exec(
            request,
            settings::prompt(saved),
        ),
        (HandleState::Lookup { request, prompt, key }, HandleEvent::Found(found)) => {
            match request.answer {
                Some(answer) => record_exec(answer, key, found),
                None => {
                    *cache_hit = Some(found.is_some());
                    answer_check_exec(request, prompt, key, found)
                },
            }
        },
        (HandleState::Record { verdict }, _) => (
            HandleState::Done,
            HandleAction::Finish(Ok(verdict)),
        ),
        (HandleState::Call { key }, HandleEvent::Response(response)) => {
            match provider::verdict(&response) {
                Ok(verdict) => (
                    HandleState::Store { verdict: verdict.to_owned() },
                    HandleAction::Store {
                        key,
                        verdict: verdict.to_owned(),
                        response: json::encode(&response),
                    },
                ),
                Err(error) => (HandleState::Done, HandleAction::Finish(Err(error))),
            }
        },
        (HandleState::Store { verdict }, _) => (
            HandleState::Done,
            HandleAction::Finish(Ok(verdict)),
        ),
        _ => vstd::pervasive::unreached(),
    }
}

/// Whatever fails while a request is handled, in the database or outside, ends it
/// with that error, and nothing is stored after that.
pub proof fn failure_ends_the_request(state: HandleStateView, error: Error)
    requires
        !(state is Done),
    ensures
        expects(state, HandleEventView::Failed(error)),
        next(state, HandleEventView::Failed(error)) == finish(Err(error)),
{
}

/// What is known of the cache changes only when a check looked for its verdict, and
/// is then whether there was one.
pub proof fn only_a_check_tells_of_the_cache(
    state: HandleStateView,
    event: HandleEventView,
    request: RequestView,
    prompt: Seq<char>,
    key: Seq<char>,
    found: Option<CachedView>,
    known: Option<bool>,
)
    ensures
        hit_after(
            HandleStateView::Lookup { request, prompt, key },
            HandleEventView::Found(found),
            known,
        ) == if request.answer is None {
            Some(found is Some)
        } else {
            known
        },
        !(state is Lookup) || !(event is Found) ==> hit_after(state, event, known) == known,
{
}

/// An action is known by its model: two with the same model do the same.
pub proof fn action_is_known_by_its_model(a: HandleAction, b: HandleAction)
    requires
        a@ == b@,
    ensures
        match (a, b) {
            (HandleAction::ReadPrompt, HandleAction::ReadPrompt) => true,
            (HandleAction::LookUp { key: x }, HandleAction::LookUp { key: y }) => x@ == y@,
            (
                HandleAction::Record { key: x, answer: u, always: s },
                HandleAction::Record { key: y, answer: v, always: t },
            ) => x@ == y@ && u@ == v@ && s == t,
            (
                HandleAction::Call { endpoint: x, api_key: u, body: s },
                HandleAction::Call { endpoint: y, api_key: v, body: t },
            ) => x@ == y@ && u@ == v@ && json::json_tree(s) == json::json_tree(t),
            (
                HandleAction::Store { key: x, verdict: u, response: s },
                HandleAction::Store { key: y, verdict: v, response: t },
            ) => x@ == y@ && u@ == v@ && s@ == t@,
            (HandleAction::Finish(Ok(x)), HandleAction::Finish(Ok(y))) => x@ == y@,
            (HandleAction::Finish(Err(x)), HandleAction::Finish(Err(y))) => x == y,
            _ => false,
        },
{
}

/// A kept verdict and what comes of an action are known by their models.
pub proof fn event_is_known_by_its_model(a: HandleEvent, b: HandleEvent)
    requires
        a@ == b@,
    ensures
        match (a, b) {
            (HandleEvent::SavedPrompt(Some(x)), HandleEvent::SavedPrompt(Some(y))) => x@ == y@,
            (HandleEvent::SavedPrompt(None), HandleEvent::SavedPrompt(None)) => true,
            (HandleEvent::Found(Some(x)), HandleEvent::Found(Some(y))) => x.verdict@ == y.verdict@
                && x.always_allow == y.always_allow,
            (HandleEvent::Found(None), HandleEvent::Found(None)) => true,
            (HandleEvent::Recorded, HandleEvent::Recorded) => true,
            (HandleEvent::Response(x), HandleEvent::Response(y)) => json::json_tree(x)
                == json::json_tree(y),
            (HandleEvent::Stored, HandleEvent::Stored) => true,
            (HandleEvent::Failed(x), HandleEvent::Failed(y)) => x == y,
            _ => false,
        },
{
}

/// How far a request has come is known by its model.
pub proof fn state_is_known_by_its_model(a: HandleState, b: HandleState)
    requires
        a@ == b@,
    ensures
        match (a, b) {
            (HandleState::Prompt(x), HandleState::Prompt(y)) => x@ == y@,
            (
                HandleState::Lookup { request: x, prompt: u, key: s },
                HandleState::Lookup { request: y, prompt: v, key: t },
            ) => x@ == y@ && u@ == v@ && s@ == t@,
            (HandleState::Record { verdict: x }, HandleState::Record { verdict: y }) => x@ == y@,
            (HandleState::Call { key: x }, HandleState::Call { key: y }) => x@ == y@,
            (HandleState::Store { verdict: x }, HandleState::Store { verdict: y }) => x@ == y@,
            (HandleState::Done, HandleState::Done) => true,
            _ => false,
        },
{
}

} // verus!
