use plz::check::{check, check_next, CheckAction, CheckEvent, CheckState, Gathered, Sample};
use plz::connect::{connect, connect_next, ConnectAction, ConnectEvent, PAUSE, TRIES};
use plz::error::Error;
use plz::protocol::{reply, rpc, timed_rpc, Context, Reply, Request, LIMIT};

fn gathered() -> Gathered {
    Gathered {
        cwd: "/w".to_string(),
        path: None,
        os: "linux".to_string(),
        uid: 7,
        model: None,
        endpoint: None,
        key_variable: None,
        saved_key: None,
        saved_prompt: None,
    }
}

struct Run {
    result: Result<bool, Error>,
    sent: Vec<(Option<String>, Option<String>)>,
    samples: Vec<Sample>,
    asked: usize,
}

fn run_check(
    command: &str,
    switch: Option<&str>,
    replies: Vec<Result<Reply, Error>>,
    user: Result<&str, &str>,
) -> Run {
    let mut replies = replies.into_iter();
    let (mut sent, mut samples, mut asked) = (Vec::new(), Vec::new(), 0);
    let (mut state, mut action) = check(command.to_string(), "fish".to_string());
    loop {
        let event = match action {
            CheckAction::ReadSwitch => CheckEvent::Switch(switch.map(str::to_string)),
            CheckAction::Gather => CheckEvent::Gathered(gathered()),
            CheckAction::Send => {
                if let CheckState::Waiting { request, .. } = &state {
                    assert_eq!(request.context.command, command);
                    sent.push((request.prompt.clone(), request.answer.clone()));
                }
                CheckEvent::Received {
                    received: replies.next().unwrap(),
                    elapsed: 10,
                    pid_file: "/s/pid".to_string(),
                }
            }
            CheckAction::Confirm => {
                asked += 1;
                CheckEvent::Answered(
                    user.map(str::to_string).map_err(|words| Error::Outside(words.to_string())),
                )
            }
            CheckAction::Record(sample) => {
                samples.push(sample);
                CheckEvent::Recorded
            }
            CheckAction::Finish(result) => return Run { result, sent, samples, asked },
        };
        (state, action) = check_next(state, event);
    }
}

fn told(verdict: &str, hit: Option<bool>) -> Result<Reply, Error> {
    Ok(reply(Ok(verdict.to_string()), hit))
}

#[test]
fn local_commands_run_unchecked() {
    for command in [
        "",
        " \t\n",
        "plz on",
        "  plz off\n",
        "plz status",
        "plz edit-prompt",
        "plz set-key",
    ] {
        let run = run_check(command, None, vec![], Ok("no"));
        assert!(run.result.unwrap());
        assert!(run.sent.is_empty() && run.samples.is_empty());
    }
    for command in ["plz unset-key", "plz on; ls", "plz  on", "PLZ on"] {
        let run = run_check(command, None, vec![told("deny", Some(true))], Ok("no"));
        assert!(!run.result.unwrap());
    }
}

#[test]
fn commands_run_unchecked_while_off() {
    let run = run_check("rm -rf /", Some("0"), vec![], Ok("no"));
    assert!(run.result.unwrap());
    assert!(run.sent.is_empty() && run.samples.is_empty());
}

#[test]
fn large_commands_are_refused() {
    let limit = LIMIT as usize;
    let error = run_check(&" ".repeat(limit), None, vec![], Ok("no")).result.unwrap_err();
    assert_eq!(error.message(), "command is too large");
    assert!(run_check(&" ".repeat(limit - 1), None, vec![], Ok("no")).result.unwrap());
    let wide = "é".repeat(limit / 2);
    assert!(run_check(&wide, None, vec![], Ok("no")).result.is_err());
}

#[test]
fn allowed_commands_run() {
    let run = run_check("ls", Some("1"), vec![told("allow", Some(false))], Ok("no"));
    assert!(run.result.unwrap());
    assert_eq!(run.asked, 0);
    assert_eq!(run.samples, vec![Sample { waiting: 10, cache_hit: Some(false) }]);
    let run = run_check("ls", None, vec![told("something", Some(true))], Ok("no"));
    assert!(!run.result.unwrap());
}

#[test]
fn confirmation_sends_the_answer_with_the_same_prompt() {
    let replies = vec![told("confirm", Some(true)), told("allow", None)];
    let run = run_check("rm x", None, replies, Ok("once"));
    assert!(run.result.unwrap());
    assert_eq!(run.asked, 1);
    assert_eq!(run.sent.len(), 2);
    assert_eq!(run.sent[0].0, run.sent[1].0);
    assert_eq!(run.sent[0].1, None);
    assert_eq!(run.sent[1].1.as_deref(), Some("once"));
    assert_eq!(run.samples, vec![Sample { waiting: 20, cache_hit: Some(true) }]);
    let replies = vec![told("confirm", Some(true)), told("deny", None)];
    assert!(!run_check("rm x", None, replies, Ok("no")).result.unwrap());
    // A second confirmation is no allowance, and is not asked for.
    let replies = vec![told("confirm", Some(true)), told("confirm", None)];
    let run = run_check("rm x", None, replies, Ok("no"));
    assert!(!run.result.unwrap());
    assert_eq!(run.asked, 1);
}

#[test]
fn failures_keep_the_command_from_running_and_leave_a_sample() {
    let run = run_check("ls", None, vec![Err(Error::DaemonSilent)], Ok("once"));
    assert_eq!(run.result.unwrap_err().message(), "daemon did not start (see daemon.log)");
    assert_eq!(run.samples, vec![Sample { waiting: 10, cache_hit: None }]);
    let refused = reply(Err(Error::KeyMissing), Some(false));
    let run = run_check("ls", None, vec![Ok(refused)], Ok("once"));
    assert_eq!(run.result.unwrap_err().message(), Error::KeyMissing.message());
    assert_eq!(run.samples, vec![Sample { waiting: 10, cache_hit: Some(false) }]);
    let run = run_check("ls", None, vec![told("confirm", Some(true))], Err("no terminal"));
    assert_eq!(run.result.unwrap_err().message(), "no terminal");
    assert_eq!(run.samples, vec![Sample { waiting: 10, cache_hit: Some(true) }]);
}

#[test]
fn recording_failure_is_an_error() {
    let (state, action) = check("ls".to_string(), "fish".to_string());
    assert!(matches!(action, CheckAction::ReadSwitch));
    let (state, _) = check_next(state, CheckEvent::Switch(None));
    let (state, _) = check_next(state, CheckEvent::Gathered(gathered()));
    let event = CheckEvent::Received {
        received: told("allow", Some(true)),
        elapsed: 1,
        pid_file: String::new(),
    };
    let (state, action) = check_next(state, event);
    assert!(matches!(action, CheckAction::Record(_)));
    let (_, action) =
        check_next(state, CheckEvent::Failed(Error::Outside("disk full".to_string())));
    assert!(matches!(action, CheckAction::Finish(Err(_))));
}

#[test]
fn request_takes_defaults_and_overrides() {
    let ask = |around: Gathered| {
        let (state, _) = check("ls".to_string(), "zsh".to_string());
        let (state, _) = check_next(state, CheckEvent::Switch(None));
        match check_next(state, CheckEvent::Gathered(around)) {
            (CheckState::Waiting { request, .. }, CheckAction::Send) => request,
            _ => panic!("the request is not sent"),
        }
    };
    let request = ask(gathered());
    assert_eq!(request.context.command, "ls");
    assert_eq!(request.context.cwd, "/w");
    assert_eq!(request.context.shell, "zsh");
    assert_eq!(request.context.path, "");
    assert_eq!(request.context.os, "linux");
    assert_eq!(request.context.uid, 7);
    assert_eq!(request.model, "jev-latest");
    assert_eq!(request.endpoint, "https://api.typesafe.ai/v1/systemone");
    assert_eq!(request.api_key, "");
    assert_eq!(request.prompt.as_deref(), Some(plz::settings::DEFAULT_PROMPT));
    assert_eq!(request.answer, None);
    let text = |words: &str| Some(words.to_string());
    let request = ask(Gathered {
        path: text("/bin"),
        model: text("m"),
        endpoint: text("http://e"),
        key_variable: text("v"),
        saved_key: text("s"),
        saved_prompt: text("p"),
        ..gathered()
    });
    assert_eq!(request.context.path, "/bin");
    assert_eq!(request.model, "m");
    assert_eq!(request.endpoint, "http://e");
    assert_eq!(request.api_key, "v");
    assert_eq!(request.prompt.as_deref(), Some("p"));
    let request = ask(Gathered { key_variable: text(""), saved_key: text("s"), ..gathered() });
    assert_eq!(request.api_key, "s");
}

fn request(prompt: Option<&str>, answer: Option<&str>) -> Request {
    Request {
        context: Context {
            command: "ls".to_string(),
            cwd: "/".to_string(),
            shell: "fish".to_string(),
            path: String::new(),
            os: "linux".to_string(),
            uid: 0,
        },
        model: String::new(),
        endpoint: String::new(),
        api_key: String::new(),
        prompt: prompt.map(str::to_string),
        answer: answer.map(str::to_string),
    }
}

#[test]
fn outdated_daemon_is_rejected() {
    let old = || Reply {
        verdict: "allow".to_string(),
        error: None,
        cache_hit: Some(true),
        prompt_supported: false,
    };
    let mut hit = None;
    let pid = || "/s/pid".to_string();
    let error = rpc(&request(Some("p"), None), Ok(old()), pid(), &mut hit).unwrap_err();
    assert_eq!(error.message(), "daemon is outdated; restart it (PID file: /s/pid)");
    assert_eq!(hit, None);
    assert_eq!(rpc(&request(None, None), Ok(old()), pid(), &mut hit).unwrap().verdict, "allow");
    assert_eq!(hit, Some(true));
}

#[test]
fn answers_leave_the_cache_metadata_alone() {
    let mut hit = Some(false);
    let mut waiting = 5;
    let received = told("allow", Some(true));
    let result =
        timed_rpc(&request(Some("p"), Some("once")), received, String::new(), 7, &mut waiting, &mut hit);
    assert_eq!(result.unwrap().verdict, "allow");
    assert_eq!(hit, Some(false));
    assert_eq!(waiting, 12);
    let result = timed_rpc(
        &request(Some("p"), None),
        Err(Error::MessageIncomplete),
        String::new(),
        1,
        &mut waiting,
        &mut hit,
    );
    assert_eq!(result.unwrap_err().message(), "incomplete or oversized daemon message");
    assert_eq!(waiting, 13);
}

fn run_connect(accepts: impl Fn(usize) -> bool, starts: bool) -> (Result<(), Error>, usize, usize, u64) {
    let (mut attempts, mut started, mut paused) = (0, 0, 0);
    let (mut state, mut action) = connect();
    loop {
        let event = match action {
            ConnectAction::Try => {
                attempts += 1;
                if accepts(attempts - 1) {
                    ConnectEvent::Connected
                } else {
                    ConnectEvent::Refused
                }
            }
            ConnectAction::Start => {
                started += 1;
                ConnectEvent::Started { success: starts }
            }
            ConnectAction::Pause { millis } => {
                paused += millis;
                ConnectEvent::Paused
            }
            ConnectAction::Use => return (Ok(()), attempts, started, paused),
            ConnectAction::Fail(error) => return (Err(error), attempts, started, paused),
        };
        (state, action) = connect_next(state, event);
    }
}

#[test]
fn running_daemon_is_used_at_once() {
    let (result, attempts, started, paused) = run_connect(|_| true, true);
    assert!(result.is_ok());
    assert_eq!((attempts, started, paused), (1, 0, 0));
}

#[test]
fn daemon_is_started_and_waited_for() {
    let (result, attempts, started, paused) = run_connect(|n| n == 4, true);
    assert!(result.is_ok());
    assert_eq!((attempts, started, paused), (5, 1, 60));
    let last = TRIES as usize;
    let (result, attempts, started, paused) = run_connect(|n| n == last, true);
    assert!(result.is_ok());
    assert_eq!((attempts, started, paused), (101, 1, 1980));
}

#[test]
fn daemon_that_does_not_come_up_is_given_up() {
    let (result, attempts, started, paused) = run_connect(|n| n > 100, true);
    assert_eq!(result.unwrap_err().message(), "daemon did not start (see daemon.log)");
    assert_eq!((attempts, started, paused), (101, 1, 100 * PAUSE));
    let (result, attempts, started, _) = run_connect(|n| n > 0, false);
    assert_eq!(result.unwrap_err().message(), "could not start daemon (see daemon.log)");
    assert_eq!((attempts, started), (1, 1));
}
