//! What is kept across requests, and the laws of the cache.
//!
//! [`Store`] is the mathematical model of what requests touch in the database,
//! [`perform`] what each action of the daemon does to it, and [`serve`] a request
//! handled from its start to its end. [`Database`] is the whole of it, which the
//! user's changes of the settings act on.
use vstd::prelude::*;
use crate::cache;
use crate::cache::Subject;
use crate::check::Sample;
use crate::cli;
use crate::cli::InvocationView;
use crate::error::Error;
use crate::handle;
use crate::handle::{CachedView, HandleActionView, HandleEventView, HandleStateView};
use crate::json;
use crate::json::Json;
use crate::protocol;
use crate::protocol::{Request, RequestView};
use crate::provider;
use crate::settings;
use crate::settings::{ChangeView, Settings};

verus! {

/// A verdict that is kept.
#[verifier::ext_equal]
pub struct Entry {
    pub verdict: Seq<char>,
    /// The response that the verdict was read from.
    pub response: Seq<char>,
    pub always_allow: bool,
}

/// An answer of the user to a confirmation.
#[verifier::ext_equal]
pub struct Answer {
    pub key: Seq<char>,
    pub answer: Seq<char>,
}

/// The database, as far as requests touch it.
#[verifier::ext_equal]
pub struct Store {
    pub prompt: Option<Seq<char>>,
    pub verdicts: Map<Seq<char>, Entry>,
    pub answers: Seq<Answer>,
}

impl Store {
    /// What looking up `key` finds.
    pub open spec fn find(self, key: Seq<char>) -> Option<CachedView> {
        if self.verdicts.contains_key(key) {
            Some(
                CachedView {
                    verdict: self.verdicts[key].verdict,
                    always_allow: self.verdicts[key].always_allow,
                },
            )
        } else {
            None
        }
    }

    /// The prompt that a request is handled by.
    pub open spec fn prompt_for(self, request: RequestView) -> Seq<char> {
        match request.prompt {
            Some(prompt) => prompt,
            None => settings::prompt_in_force(self.prompt),
        }
    }

    /// The key that a request is handled under.
    pub open spec fn key_for(self, request: RequestView) -> Seq<char> {
        handle::subject_of(request, self.prompt_for(request)).key()
    }
}

/// The provider: what it responds to a body that is sent to an endpoint with an
/// API key.
pub type Provider = spec_fn(Seq<char>, Seq<char>, Json) -> Result<Json, Error>;

/// What an action does to the store, and what comes of it. Recording an answer
/// appends it and, for one that allows for good, marks the verdict under its
/// key; keeping a verdict adds an entry that is not so marked.
pub open spec fn perform(action: HandleActionView, store: Store, provider: Provider) -> (
    Store,
    HandleEventView,
) {
    match action {
        HandleActionView::ReadPrompt => (store, HandleEventView::SavedPrompt(store.prompt)),
        HandleActionView::LookUp { key } => (store, HandleEventView::Found(store.find(key))),
        HandleActionView::Record { key, answer, always } => {
            let answers = store.answers.push(Answer { key, answer });
            let verdicts = if always && store.verdicts.contains_key(key) {
                store.verdicts.insert(key, Entry { always_allow: true, ..store.verdicts[key] })
            } else {
                store.verdicts
            };
            (Store { answers, verdicts, ..store }, HandleEventView::Recorded)
        },
        HandleActionView::Call { endpoint, api_key, body } => (
            store,
            match provider(endpoint, api_key, body) {
                Ok(response) => HandleEventView::Response(response),
                Err(error) => HandleEventView::Failed(error),
            },
        ),
        HandleActionView::Store { key, verdict, response } => {
            let entry = Entry { verdict, response, always_allow: false };
            let verdicts = store.verdicts.insert(key, entry);
            (Store { verdicts, ..store }, HandleEventView::Stored)
        },
        HandleActionView::Finish(_) => arbitrary(),
    }
}

/// A request that was handled.
pub struct Served {
    /// What is kept afterwards.
    pub store: Store,
    /// What the client is answered.
    pub result: Result<Seq<char>, Error>,
    /// What the client is told of the cache.
    pub cache_hit: Option<bool>,
    /// How often the provider was called.
    pub calls: nat,
}

/// How many actions can still follow in a state.
pub open spec fn steps_left(state: HandleStateView) -> nat {
    match state {
        HandleStateView::Prompt(_) => 4,
        HandleStateView::Lookup { .. } => 3,
        HandleStateView::Call { .. } => 2,
        HandleStateView::Store { .. } => 1,
        HandleStateView::Record { .. } => 1,
        HandleStateView::Done => 0,
    }
}

/// Handles the rest of a request that is in `state` and about to do `action`.
pub open spec fn serve_from(
    state: HandleStateView,
    action: HandleActionView,
    store: Store,
    provider: Provider,
    cache_hit: Option<bool>,
    calls: nat,
) -> Served
    decreases steps_left(state),
{
    match action {
        HandleActionView::Finish(result) => Served { store, result, cache_hit, calls },
        _ => {
            let (after, event) = perform(action, store, provider);
            let (next_state, next_action) = handle::next(state, event);
            if handle::expects(state, event) && steps_left(next_state) < steps_left(state) {
                serve_from(
                    next_state,
                    next_action,
                    after,
                    provider,
                    handle::hit_after(state, event, cache_hit),
                    if action is Call {
                        calls + 1
                    } else {
                        calls
                    },
                )
            } else {
                arbitrary()
            }
        },
    }
}

/// Handles a request.
pub open spec fn serve(store: Store, request: RequestView, provider: Provider) -> Served {
    let (state, action) = handle::first(request);
    serve_from(state, action, store, provider, None, 0)
}

/// Handling a request, told in one piece.
pub(crate) proof fn lemma_serve(store: Store, request: RequestView, provider: Provider)
    ensures
        ({
            let prompt = store.prompt_for(request);
            let key = store.key_for(request);
            let found = store.find(key);
            serve(store, request, provider) == match request.answer {
                Some(answer) => if !handle::is_answer(answer) {
                    Served {
                        store,
                        result: Err(Error::ConfirmationInvalid),
                        cache_hit: None,
                        calls: 0,
                    }
                } else if !(found matches Some(cached) && cached.verdict == "confirm"@) {
                    Served {
                        store,
                        result: Err(Error::ConfirmationUnasked),
                        cache_hit: None,
                        calls: 0,
                    }
                } else {
                    let action = HandleActionView::Record {
                        key,
                        answer,
                        always: answer == "always"@,
                    };
                    Served {
                        store: perform(action, store, provider).0,
                        result: Ok(
                            if answer == "no"@ {
                                "deny"@
                            } else {
                                "allow"@
                            },
                        ),
                        cache_hit: None,
                        calls: 0,
                    }
                },
                None => match found {
                    Some(cached) => Served {
                        store,
                        result: Ok(
                            if cached.always_allow {
                                "allow"@
                            } else {
                                cached.verdict
                            },
                        ),
                        cache_hit: Some(true),
                        calls: 0,
                    },
                    None => if request.api_key.len() == 0 {
                        Served {
                            store,
                            result: Err(Error::KeyMissing),
                            cache_hit: Some(false),
                            calls: 0,
                        }
                    } else {
                        let body = provider::body_tree(request.context, request.model, prompt);
                        match provider(request.endpoint, request.api_key, body) {
                            Err(error) => Served {
                                store,
                                result: Err(error),
                                cache_hit: Some(false),
                                calls: 1,
                            },
                            Ok(response) => match provider::judgement(response) {
                                Err(error) => Served {
                                    store,
                                    result: Err(error),
                                    cache_hit: Some(false),
                                    calls: 1,
                                },
                                Ok(verdict) => Served {
                                    store: Store {
                                        verdicts: store.verdicts.insert(
                                            key,
                                            Entry {
                                                verdict,
                                                response: json::json_text(response),
                                                always_allow: false,
                                            },
                                        ),
                                        ..store
                                    },
                                    result: Ok(verdict),
                                    cache_hit: Some(false),
                                    calls: 1,
                                },
                            },
                        }
                    },
                },
            }
        }),
{
    reveal_with_fuel(serve_from, 6);
}

/// A verdict that is kept answers every later check of the same subject without
/// the provider and without an API key, and leaves the store as it is.
pub proof fn kept_verdict_answers_without_provider(
    store: Store,
    request: RequestView,
    provider: Provider,
)
    requires
        request.answer is None,
        store.verdicts.contains_key(store.key_for(request)),
    ensures
        ({
            let served = serve(store, request, provider);
            let entry = store.verdicts[store.key_for(request)];
            &&& served.store == store
            &&& served.result == Ok::<Seq<char>, Error>(
                if entry.always_allow {
                    "allow"@
                } else {
                    entry.verdict
                },
            )
            &&& served.cache_hit == Some(true)
            &&& served.calls == 0
        }),
{
    lemma_serve(store, request, provider);
}

/// The provider is called once at most, and only for a check of a subject whose
/// verdict is not kept and for which there is an API key.
pub proof fn provider_is_called_for_unknown_verdicts_only(
    store: Store,
    request: RequestView,
    provider: Provider,
)
    ensures
        serve(store, request, provider).calls == (if request.answer is None
            && !store.verdicts.contains_key(store.key_for(request)) && request.api_key.len() > 0 {
            1nat
        } else {
            0
        }),
{
    lemma_serve(store, request, provider);
}

/// Without an API key a check of a subject whose verdict is not kept fails.
pub proof fn unknown_verdict_needs_an_api_key(
    store: Store,
    request: RequestView,
    provider: Provider,
)
    requires
        request.answer is None,
        !store.verdicts.contains_key(store.key_for(request)),
        request.api_key.len() == 0,
    ensures
        serve(store, request, provider).result == Err::<Seq<char>, Error>(Error::KeyMissing),
{
    lemma_serve(store, request, provider);
}

/// A request that fails, be it for the provider's sake, for a response that is
/// no choice or for an answer that nobody asked for, leaves nothing behind.
pub proof fn failure_is_not_kept(store: Store, request: RequestView, provider: Provider)
    requires
        serve(store, request, provider).result is Err,
    ensures
        serve(store, request, provider).store == store,
{
    lemma_serve(store, request, provider);
}

/// Where the provider gives no response, or one that is no choice, the check
/// fails with the error.
pub proof fn failed_call_fails_the_check(store: Store, request: RequestView, provider: Provider)
    requires
        request.answer is None,
        !store.verdicts.contains_key(store.key_for(request)),
        request.api_key.len() > 0,
    ensures
        ({
            let body = provider::body_tree(
                request.context,
                request.model,
                store.prompt_for(request),
            );
            serve(store, request, provider).result == match provider(
                request.endpoint,
                request.api_key,
                body,
            ) {
                Err(error) => Err(error),
                Ok(response) => provider::judgement(response),
            }
        }),
{
    lemma_serve(store, request, provider);
}

/// A verdict that was asked for is not asked for again: a later check of the
/// same subject, whatever its API key, finds it.
pub proof fn new_verdict_is_kept(
    store: Store,
    request: RequestView,
    provider: Provider,
    later: RequestView,
    later_provider: Provider,
)
    requires
        request.answer is None,
        later.answer is None,
        serve(store, request, provider).result is Ok,
        handle::subject_of(later, store.prompt_for(later)) == handle::subject_of(
            request,
            store.prompt_for(request),
        ),
    ensures
        ({
            let served = serve(store, request, provider);
            let again = serve(served.store, later, later_provider);
            &&& again.result == served.result
            &&& again.store == served.store
            &&& again.cache_hit == Some(true)
            &&& again.calls == 0
        }),
{
    lemma_serve(store, request, provider);
    lemma_serve(serve(store, request, provider).store, later, later_provider);
}

/// Nothing expires: whatever is asked, every verdict that is kept stays as it
/// is, with its response; an allowance for good stays, and every answer stays on
/// record. The saved prompt stays too.
pub proof fn nothing_expires(store: Store, request: RequestView, provider: Provider)
    ensures
        ({
            let after = serve(store, request, provider).store;
            &&& after.prompt == store.prompt
            &&& store.answers.is_prefix_of(after.answers)
            &&& forall|key: Seq<char>| #[trigger]
                store.verdicts.contains_key(key) ==> {
                    &&& after.verdicts.contains_key(key)
                    &&& after.verdicts[key].verdict == store.verdicts[key].verdict
                    &&& after.verdicts[key].response == store.verdicts[key].response
                    &&& store.verdicts[key].always_allow ==> after.verdicts[key].always_allow
                }
        }),
{
    lemma_serve(store, request, provider);
}

/// A request touches no verdict but the one under its own key.
pub proof fn other_keys_are_untouched(
    store: Store,
    request: RequestView,
    provider: Provider,
    key: Seq<char>,
)
    requires
        key != store.key_for(request),
    ensures
        serve(store, request, provider).store.find(key) == store.find(key),
{
    lemma_serve(store, request, provider);
}

/// A request touches no verdict but the one of its own subject: whatever is
/// answered, nothing changes for a command that differs in its text, its
/// directory, its shell, its search path, its system, its user, the model, the
/// endpoint or the prompt. A request is handled under a key that no other subject
/// has.
pub proof fn other_subjects_are_untouched(
    store: Store,
    request: RequestView,
    provider: Provider,
    other: Subject,
)
    requires
        handle::subject_of(request, store.prompt_for(request)).has_its_own_key(),
        other != handle::subject_of(request, store.prompt_for(request)),
    ensures
        serve(store, request, provider).store.find(other.key()) == store.find(other.key()),
{
    other_keys_are_untouched(store, request, provider, other.key());
}

/// An answer is taken just where the verdict to confirm is kept. Once and always
/// allow the command, no denies it, and each is put on record; the verdict stays
/// one to be confirmed.
pub proof fn answer_is_recorded(
    store: Store,
    request: RequestView,
    provider: Provider,
    answer: Seq<char>,
)
    requires
        request.answer == Some(answer),
        handle::is_answer(answer),
        store.find(store.key_for(request)) matches Some(cached) && cached.verdict == "confirm"@,
    ensures
        ({
            let served = serve(store, request, provider);
            let key = store.key_for(request);
            &&& served.result == Ok::<Seq<char>, Error>(
                if answer == "no"@ {
                    "deny"@
                } else {
                    "allow"@
                },
            )
            &&& served.store.answers == store.answers.push(Answer { key, answer })
            &&& served.store.find(key) == Some(
                CachedView {
                    verdict: "confirm"@,
                    always_allow: answer == "always"@ || store.verdicts[key].always_allow,
                },
            )
            &&& served.cache_hit is None
        }),
{
    lemma_serve(store, request, provider);
}

/// After an answer that holds for once, or a refusal, the next check of the same
/// command asks for confirmation again, without the provider.
pub proof fn once_and_no_ask_again(
    store: Store,
    request: RequestView,
    provider: Provider,
    answer: Seq<char>,
    check: RequestView,
)
    requires
        request.answer == Some(answer),
        answer == "once"@ || answer == "no"@,
        store.find(store.key_for(request)) == Some(
            CachedView { verdict: "confirm"@, always_allow: false },
        ),
        check == (RequestView { answer: None, ..request }),
    ensures
        ({
            let again = serve(serve(store, request, provider).store, check, provider);
            &&& again.result == Ok::<Seq<char>, Error>("confirm"@)
            &&& again.calls == 0
        }),
{
    reveal_strlit("once");
    reveal_strlit("no");
    reveal_strlit("always");
    assert("once"@.len() == 4 && "no"@.len() == 2 && "always"@.len() == 6);
    lemma_serve(store, request, provider);
    lemma_serve(serve(store, request, provider).store, check, provider);
}

/// After an answer that holds for good, every later check of the same command
/// is allowed without the provider.
pub proof fn always_allows_from_then_on(
    store: Store,
    request: RequestView,
    provider: Provider,
    check: RequestView,
)
    requires
        request.answer == Some("always"@),
        store.find(store.key_for(request)) matches Some(cached) && cached.verdict == "confirm"@,
        check == (RequestView { answer: None, ..request }),
    ensures
        ({
            let again = serve(serve(store, request, provider).store, check, provider);
            &&& again.result == Ok::<Seq<char>, Error>("allow"@)
            &&& again.calls == 0
        }),
{
    lemma_serve(store, request, provider);
    lemma_serve(serve(store, request, provider).store, check, provider);
}

/// A request that names its prompt is handled under the same key, whatever
/// prompt is saved meanwhile.
pub proof fn named_prompt_holds(store: Store, other: Store, request: RequestView)
    requires
        request.prompt is Some,
    ensures
        store.key_for(request) == other.key_for(request),
{
}

/// A check is told whether its verdict was kept; an answer is told nothing.
pub proof fn cache_hit_is_told(store: Store, request: RequestView, provider: Provider)
    ensures
        serve(store, request, provider).cache_hit == (if request.answer is None {
            Some(store.verdicts.contains_key(store.key_for(request)))
        } else {
            None
        }),
{
    lemma_serve(store, request, provider);
}

/// What is kept after requests were handled, one after the other.
pub open spec fn store_after(store: Store, requests: Seq<(RequestView, Provider)>) -> Store
    decreases requests.len(),
{
    if requests.len() == 0 {
        store
    } else {
        let (request, provider) = requests.last();
        serve(store_after(store, requests.drop_last()), request, provider).store
    }
}

/// However many requests come between, under whatever prompts, a verdict that is
/// kept answers the check of its subject, and an allowance for good holds.
pub proof fn verdict_outlives_other_requests(
    store: Store,
    requests: Seq<(RequestView, Provider)>,
    key: Seq<char>,
)
    requires
        store.verdicts.contains_key(key),
    ensures
        ({
            let after = store_after(store, requests);
            &&& after.verdicts.contains_key(key)
            &&& after.verdicts[key].verdict == store.verdicts[key].verdict
            &&& after.verdicts[key].response == store.verdicts[key].response
            &&& store.verdicts[key].always_allow ==> after.verdicts[key].always_allow
        }),
    decreases requests.len(),
{
    if requests.len() > 0 {
        let before = requests.drop_last();
        verdict_outlives_other_requests(store, before, key);
        nothing_expires(store_after(store, before), requests.last().0, requests.last().1);
    }
}

/// The whole database.
#[verifier::ext_equal]
pub struct Database {
    pub settings: Settings,
    pub verdicts: Map<Seq<char>, Entry>,
    pub answers: Seq<Answer>,
    /// One sample for each check.
    pub checks: Seq<Sample>,
}

impl Database {
    /// The part that requests touch.
    pub open spec fn store(self) -> Store {
        Store { prompt: self.settings.prompt, verdicts: self.verdicts, answers: self.answers }
    }

    /// The database after a change of the settings, which are a table of their
    /// own.
    pub open spec fn after(self, change: ChangeView) -> Database {
        Database { settings: self.settings.after(change), ..self }
    }
}

/// `plz unset-key` removes the saved key, whether there is one or not; once that is
/// saved, the program is done. From then on requests carry the environment's key or none. All else
/// that is saved stays: the switch, the prompt, the verdicts, the answers and the
/// samples. Removing the key again changes nothing.
pub proof fn removed_key_is_gone(
    database: Database,
    args: Seq<String>,
    variable: Option<Seq<char>>,
)
    requires
        cli::are(args, seq!["unset-key"@]),
    ensures
        cli::invoked(args) == Some(InvocationView::Change(ChangeView::NoKey)),
        cli::done_result(Ok(())) == Ok::<bool, Error>(true),
        ({
            let after = database.after(ChangeView::NoKey);
            &&& after.settings.api_key is None
            &&& settings::key_in_force(variable, after.settings.api_key)
                == match settings::key_of_environment(variable) {
                Some(key) => key,
                None => Seq::<char>::empty(),
            }
            &&& after.settings.enabled == database.settings.enabled
            &&& after.settings.prompt == database.settings.prompt
            &&& after.verdicts == database.verdicts
            &&& after.answers == database.answers
            &&& after.checks == database.checks
            &&& after.after(ChangeView::NoKey) == after
        }),
{
    settings::change_touches_its_own_setting(database.settings, ChangeView::NoKey);
    let after = database.after(ChangeView::NoKey);
    settings::change_touches_its_own_setting(after.settings, ChangeView::NoKey);
    let words = args.map_values(|arg: String| arg@);
    assert(words.len() == 1 && words[0] == "unset-key"@);
    reveal_strlit("unset-key");
    reveal_strlit("check");
    reveal_strlit("on");
    reveal_strlit("off");
    reveal_strlit("status");
    reveal_strlit("edit-prompt");
    reveal_strlit("set-key");
    assert(words[0].len() == 9);
    assert(seq!["check"@][0].len() == 5 && seq!["status"@][0].len() == 6);
    assert(seq!["on"@][0].len() == 2 && seq!["off"@][0].len() == 3);
    assert(seq!["edit-prompt"@][0].len() == 11 && seq!["set-key"@][0].len() == 7);
    assert(seq!["init"@, "fish"@].len() == 2);
}

/// Without a key, saved or in the environment, a check still finds every verdict
/// that is kept, and a check of anything else fails: removing the key touches no
/// decision.
pub proof fn removed_key_keeps_the_decisions(
    database: Database,
    request: RequestView,
    provider: Provider,
    variable: Option<Seq<char>>,
)
    requires
        settings::key_of_environment(variable) is None,
        request.answer is None,
        request.api_key == settings::key_in_force(
            variable,
            database.after(ChangeView::NoKey).settings.api_key,
        ),
    ensures
        ({
            let store = database.store();
            let served = serve(database.after(ChangeView::NoKey).store(), request, provider);
            &&& served.store == store
            &&& served.calls == 0
            &&& served.result == match store.find(store.key_for(request)) {
                Some(cached) => Ok(
                    if cached.always_allow {
                        "allow"@
                    } else {
                        cached.verdict
                    },
                ),
                None => Err(Error::KeyMissing),
            }
        }),
{
    settings::change_touches_its_own_setting(database.settings, ChangeView::NoKey);
    lemma_serve(database.store(), request, provider);
}

/// Two requests are handled under the same key only if they agree in the command,
/// the working directory, the shell, the search path, the operating system, the
/// user, the model, the endpoint and the prompt. Every key that is looked up stands
/// for one value.
pub proof fn key_tells_requests_apart(store: Store, a: Request, b: Request)
    requires
        json::stands_for_one_value(store.key_for(a@)),
        store.key_for(a@) == store.key_for(b@),
    ensures
        a.context.command@ == b.context.command@,
        a.context.cwd@ == b.context.cwd@,
        a.context.shell@ == b.context.shell@,
        a.context.path@ == b.context.path@,
        a.context.os@ == b.context.os@,
        a.context.uid == b.context.uid,
        a.model@ == b.model@,
        a.endpoint@ == b.endpoint@,
        a.prompt is Some && b.prompt is Some ==> a.prompt->0@ == b.prompt->0@,
        store.prompt_for(a@) == store.prompt_for(b@),
{
    let first = handle::subject_of(a@, store.prompt_for(a@));
    let second = handle::subject_of(b@, store.prompt_for(b@));
    cache::lemma_subject_is_plain(first);
    cache::lemma_subject_is_plain(second);
    assert(json::json_text(first.tree()) == json::json_text(second.tree()));
    cache::lemma_tree_determines_subject(first, second);
}

/// Nothing else decides the key: requests that agree in all of these are handled
/// under the same key, whatever API key and answer they carry. The prompt is the one
/// that the request names, or else the saved one, or else the default.
pub proof fn key_depends_on_nothing_else(store: Store, a: Request, b: Request)
    requires
        a.context.command@ == b.context.command@,
        a.context.cwd@ == b.context.cwd@,
        a.context.shell@ == b.context.shell@,
        a.context.path@ == b.context.path@,
        a.context.os@ == b.context.os@,
        a.context.uid == b.context.uid,
        a.model@ == b.model@,
        a.endpoint@ == b.endpoint@,
        protocol::optional_text(a.prompt) == protocol::optional_text(b.prompt),
    ensures
        store.key_for(a@) == store.key_for(b@),
        a.prompt matches Some(prompt) ==> store.prompt_for(a@) == prompt@,
        a.prompt is None ==> store.prompt_for(a@) == match store.prompt {
            Some(prompt) => prompt,
            None => settings::DEFAULT_PROMPT@,
        },
{
}

/// Allowing a command for good in one directory, or under one prompt, leaves the
/// same command to be checked anew anywhere else: a check that differs in any part
/// of its subject finds what it would have found without that answer.
pub proof fn allowance_is_for_that_command_only(
    store: Store,
    answered: Request,
    check: Request,
    provider: Provider,
)
    requires
        json::stands_for_one_value(store.key_for(answered@)),
        answered.answer matches Some(answer) && answer@ == "always"@,
        check.answer is None,
        ({
            ||| answered.context.command@ != check.context.command@
            ||| answered.context.cwd@ != check.context.cwd@
            ||| answered.context.shell@ != check.context.shell@
            ||| answered.context.path@ != check.context.path@
            ||| answered.context.os@ != check.context.os@
            ||| answered.context.uid != check.context.uid
            ||| answered.model@ != check.model@
            ||| answered.endpoint@ != check.endpoint@
            ||| store.prompt_for(answered@) != store.prompt_for(check@)
        }),
    ensures
        ({
            let before = serve(store, check@, provider);
            let after = serve(serve(store, answered@, provider).store, check@, provider);
            after.result == before.result && after.calls == before.calls && after.cache_hit
                == before.cache_hit
        }),
{
    if store.key_for(answered@) == store.key_for(check@) {
        key_tells_requests_apart(store, answered, check);
    }
    lemma_serve(store, answered@, provider);
    lemma_serve(store, check@, provider);
    lemma_serve(serve(store, answered@, provider).store, check@, provider);
}

/// An answer is one of three texts, and is taken only where a confirmation is kept;
/// anything else fails and changes nothing. To allow, once or for good, runs the
/// command; to refuse does not. Each answer is put on record as it was given, and
/// only the one for good marks the verdict. The provider is never asked.
pub proof fn only_three_answers_are_taken(
    store: Store,
    request: RequestView,
    provider: Provider,
    answer: Seq<char>,
)
    requires
        request.answer == Some(answer),
    ensures
        ({
            let key = store.key_for(request);
            let served = serve(store, request, provider);
            let known = answer == "once"@ || answer == "always"@ || answer == "no"@;
            let asked = store.verdicts.contains_key(key) && store.verdicts[key].verdict
                == "confirm"@;
            &&& served.calls == 0
            &&& !known ==> served.store == store && served.result == Err::<Seq<char>, Error>(
                Error::ConfirmationInvalid,
            )
            &&& known && !asked ==> served.store == store && served.result == Err::<
                Seq<char>,
                Error,
            >(Error::ConfirmationUnasked)
            &&& known && asked ==> {
                &&& served.result == Ok::<Seq<char>, Error>(
                    if answer == "no"@ {
                        "deny"@
                    } else {
                        "allow"@
                    },
                )
                &&& served.store.prompt == store.prompt
                &&& served.store.answers == store.answers.push(Answer { key, answer })
                &&& served.store.verdicts.dom() == store.verdicts.dom()
                &&& served.store.verdicts[key].verdict == "confirm"@
                &&& served.store.verdicts[key].always_allow == (answer == "always"@
                    || store.verdicts[key].always_allow)
            }
        }),
{
    lemma_serve(store, request, provider);
    let served = serve(store, request, provider);
    assert(served.store.verdicts.dom() =~= store.verdicts.dom());
}

/// A verdict that the provider gave is kept under the key of the request with the
/// text of its response, and is not an allowance for good. What is answered is what
/// is kept. The provider is sent the context, the model and the prompt of the
/// request, at its endpoint and with its API key.
pub proof fn verdict_is_kept_with_its_response(
    store: Store,
    request: RequestView,
    provider: Provider,
    response: Json,
    verdict: Seq<char>,
)
    requires
        request.answer is None,
        request.api_key.len() > 0,
        !store.verdicts.contains_key(store.key_for(request)),
        provider(
            request.endpoint,
            request.api_key,
            provider::body_tree(request.context, request.model, store.prompt_for(request)),
        ) == Ok::<Json, Error>(response),
        provider::judgement(response) == Ok::<Seq<char>, Error>(verdict),
    ensures
        ({
            let served = serve(store, request, provider);
            &&& served.result == Ok::<Seq<char>, Error>(verdict)
            &&& served.calls == 1
            &&& served.store.answers == store.answers
            &&& served.store.verdicts == store.verdicts.insert(
                store.key_for(request),
                Entry { verdict, response: json::json_text(response), always_allow: false },
            )
        }),
{
    lemma_serve(store, request, provider);
}

} // verus!
