use plz::check::{check, check_next, CheckAction, CheckEvent, CheckState, Gathered};
use plz::error::Error;
use plz::handle::{handle, handle_next, Cached, HandleAction, HandleEvent};
use plz::protocol::{reply, Context, Reply, Request};
use std::collections::HashMap;

#[derive(Default)]
struct Daemon {
    prompt: Option<String>,
    verdicts: HashMap<String, (String, bool)>,
    calls: usize,
}

fn copy(request: &Request) -> Request {
    let context = &request.context;
    Request {
        context: Context {
            command: context.command.clone(),
            cwd: context.cwd.clone(),
            shell: context.shell.clone(),
            path: context.path.clone(),
            os: context.os.clone(),
            uid: context.uid,
        },
        model: request.model.clone(),
        endpoint: request.endpoint.clone(),
        api_key: request.api_key.clone(),
        prompt: request.prompt.clone(),
        answer: request.answer.clone(),
    }
}

impl Daemon {
    fn answer(&mut self, request: &Request, choice: Option<&str>) -> Reply {
        let mut hit = None;
        let (mut state, mut action) = handle(copy(request));
        loop {
            let event = match action {
                HandleAction::ReadPrompt => HandleEvent::SavedPrompt(self.prompt.clone()),
                HandleAction::LookUp { key } => {
                    HandleEvent::Found(self.verdicts.get(&key).map(|(verdict, always)| Cached {
                        verdict: verdict.clone(),
                        always_allow: *always,
                    }))
                }
                HandleAction::Record { key, always, .. } => {
                    self.verdicts.get_mut(&key).unwrap().1 |= always;
                    HandleEvent::Recorded
                }
                HandleAction::Call { .. } => {
                    self.calls += 1;
                    match choice {
                        Some(choice) => HandleEvent::Response(
                            serde_json::from_str(&format!(
                                r#"{{"answers":{{"safety":{{"type":"choice","choice":"{choice}"}}}}}}"#
                            ))
                            .unwrap(),
                        ),
                        None => HandleEvent::Failed(Error::Outside("no network".to_string())),
                    }
                }
                HandleAction::Store { key, verdict, .. } => {
                    self.verdicts.insert(key, (verdict, false));
                    HandleEvent::Stored
                }
                HandleAction::Finish(result) => return reply(result, hit),
            };
            (state, action) = handle_next(state, event, &mut hit);
        }
    }

    /// Checks a command; the prompt that is saved may change while the user is
    /// asked.
    fn check(
        &mut self,
        command: &str,
        choice: Option<&str>,
        user: &str,
        meanwhile: Option<&str>,
    ) -> Result<bool, Error> {
        let (mut state, mut action) = check(command.to_string(), "fish".to_string());
        loop {
            let event = match action {
                CheckAction::ReadSwitch => CheckEvent::Switch(None),
                CheckAction::Gather => CheckEvent::Gathered(Gathered {
                    cwd: "/".to_string(),
                    path: None,
                    os: "linux".to_string(),
                    uid: 0,
                    model: None,
                    endpoint: None,
                    key_variable: Some("k".to_string()),
                    saved_key: None,
                    saved_prompt: self.prompt.clone(),
                }),
                CheckAction::Send => {
                    let CheckState::Waiting { request, .. } = &state else {
                        panic!("nothing to send");
                    };
                    CheckEvent::Received {
                        received: Ok(self.answer(request, choice)),
                        elapsed: 1,
                        pid_file: String::new(),
                    }
                }
                CheckAction::Confirm => {
                    if let Some(prompt) = meanwhile {
                        self.prompt = Some(prompt.to_string());
                    }
                    CheckEvent::Answered(Ok(plz::terminal::answer(user).to_string()))
                }
                CheckAction::Record(_) => CheckEvent::Recorded,
                CheckAction::Finish(result) => return result,
            };
            (state, action) = check_next(state, event);
        }
    }
}

#[test]
fn command_runs_iff_allowed_or_confirmed() {
    for (choice, user, runs) in [
        (Some("allow"), "n", true),
        (Some("confirm"), "o\n", true),
        (Some("confirm"), "A\n", true),
        (Some("confirm"), "\n", false),
        (Some("confirm"), "yes\n", false),
    ] {
        assert_eq!(Daemon::default().check("rm x", choice, user, None).unwrap(), runs);
    }
    let error = Daemon::default().check("rm x", None, "o\n", None).unwrap_err();
    assert_eq!(error.message(), "no network");
    let error = Daemon::default().check("rm x", Some("deny"), "o\n", None).unwrap_err();
    assert_eq!(error.message(), "provider returned an unknown safety choice");
}

#[test]
fn always_holds_for_its_prompt_and_survives_others() {
    let mut daemon = Daemon::default();
    assert!(daemon.check("rm x", Some("confirm"), "a\n", None).unwrap());
    assert!(daemon.check("rm x", None, "n\n", None).unwrap());
    assert_eq!(daemon.calls, 1);
    daemon.prompt = Some("strict".to_string());
    assert!(!daemon.check("rm x", Some("confirm"), "n\n", None).unwrap());
    assert_eq!(daemon.calls, 2);
    daemon.prompt = None;
    assert!(daemon.check("rm x", None, "n\n", None).unwrap());
    assert_eq!(daemon.calls, 2);
}

#[test]
fn confirmation_keeps_the_prompt_it_was_asked_under() {
    let mut daemon = Daemon::default();
    assert!(daemon.check("rm x", Some("confirm"), "o\n", Some("strict")).unwrap());
    assert_eq!(daemon.prompt.as_deref(), Some("strict"));
    assert_eq!(daemon.verdicts.len(), 1);
}
