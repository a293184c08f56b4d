use plz::cache::cache_key;
use plz::error::Error;
use plz::handle::{handle, handle_next, Cached, HandleAction, HandleEvent};
use plz::protocol::{Context, Request};
use plz::provider::{request_body, verdict};
use plz::settings::DEFAULT_PROMPT;
use serde_json::Value;
use std::collections::HashMap;

fn context(command: &str) -> Context {
    Context {
        command: command.to_string(),
        cwd: "/home/u".to_string(),
        shell: "fish".to_string(),
        path: "/bin:/usr/bin".to_string(),
        os: "linux".to_string(),
        uid: 1000,
    }
}

fn request(command: &str, prompt: Option<&str>, key: &str, answer: Option<&str>) -> Request {
    Request {
        context: context(command),
        model: "jev-latest".to_string(),
        endpoint: "https://example.test/v1".to_string(),
        api_key: key.to_string(),
        prompt: prompt.map(str::to_string),
        answer: answer.map(str::to_string),
    }
}

struct Row {
    verdict: String,
    response: String,
    always: bool,
}

#[derive(Default)]
struct Database {
    prompt: Option<String>,
    verdicts: HashMap<String, Row>,
    answers: Vec<(String, String)>,
    calls: Vec<Value>,
    hit: Option<bool>,
}

impl Database {
    fn serve(&mut self, request: Request, response: Option<&str>) -> Result<String, Error> {
        let mut hit = None;
        let (mut state, mut action) = handle(request);
        loop {
            let event = match action {
                HandleAction::ReadPrompt => HandleEvent::SavedPrompt(self.prompt.clone()),
                HandleAction::LookUp { key } => {
                    HandleEvent::Found(self.verdicts.get(&key).map(|row| Cached {
                        verdict: row.verdict.clone(),
                        always_allow: row.always,
                    }))
                }
                HandleAction::Record { key, answer, always } => {
                    if always {
                        self.verdicts.get_mut(&key).unwrap().always = true;
                    }
                    self.answers.push((key, answer));
                    HandleEvent::Recorded
                }
                HandleAction::Call { endpoint, api_key, body } => {
                    assert_eq!(endpoint, "https://example.test/v1");
                    assert_eq!(api_key, "k");
                    self.calls.push(body);
                    match response {
                        Some(text) => HandleEvent::Response(serde_json::from_str(text).unwrap()),
                        None => HandleEvent::Failed(Error::Outside("no network".to_string())),
                    }
                }
                HandleAction::Store { key, verdict, response } => {
                    let row = Row { verdict, response, always: false };
                    assert!(self.verdicts.insert(key, row).is_none());
                    HandleEvent::Stored
                }
                HandleAction::Finish(result) => {
                    self.hit = hit;
                    return result;
                }
            };
            (state, action) = handle_next(state, event, &mut hit);
        }
    }
}

const ALLOW: &str = r#"{"answers":{"safety":{"type":"choice","choice":"allow"}},"usage":{}}"#;
const CONFIRM: &str = r#"{"answers":{"safety":{"type":"choice","choice":"confirm"}}}"#;

#[test]
fn key_is_the_compact_json_of_the_subject() {
    let key = cache_key(&context("echo \"hi\"\n"), "m", "https://e", "be kind");
    assert_eq!(
        key,
        "{\"context\":{\"command\":\"echo \\\"hi\\\"\\n\",\"cwd\":\"/home/u\",\"os\":\"linux\",\
         \"path\":\"/bin:/usr/bin\",\"shell\":\"fish\",\"uid\":1000},\"endpoint\":\"https://e\",\
         \"model\":\"m\",\"policy\":\"be kind\"}"
    );
    let parsed: Value = serde_json::from_str(&key).unwrap();
    assert_eq!(serde_json::to_string(&parsed).unwrap(), key);
}

#[test]
fn every_part_of_the_subject_changes_the_key() {
    let base = cache_key(&context("ls"), "m", "e", "p");
    assert_eq!(base, cache_key(&context("ls"), "m", "e", "p"));
    let mut others = vec![
        cache_key(&context("ls "), "m", "e", "p"),
        cache_key(&context("ls"), "m2", "e", "p"),
        cache_key(&context("ls"), "m", "e2", "p"),
        cache_key(&context("ls"), "m", "e", "p2"),
    ];
    for part in 0..5 {
        let mut changed = context("ls");
        match part {
            0 => changed.cwd.push('x'),
            1 => changed.shell.push('x'),
            2 => changed.path.push('x'),
            3 => changed.os.push('x'),
            _ => changed.uid += 1,
        }
        others.push(cache_key(&changed, "m", "e", "p"));
    }
    for other in others {
        assert_ne!(base, other);
    }
}

#[test]
fn request_body_holds_context_and_question() {
    let body = request_body(&context("ls"), "m", "be kind");
    let expected: Value = serde_json::from_str(
        r#"{"model":"m","state":{"command":"ls","cwd":"/home/u","shell":"fish",
            "path":"/bin:/usr/bin","os":"linux","uid":1000},
            "questions":{"safety":{"type":"choice","instructions":"be kind","criteria":{
            "allow":"Run without confirmation.",
            "confirm":"Ask the user to confirm before running."}}}}"#,
    )
    .unwrap();
    assert_eq!(body, expected);
}

#[test]
fn verdict_reads_the_choice() {
    let read = |text: &str| {
        let value: Value = serde_json::from_str(text).unwrap();
        verdict(&value).map_err(|error| error.message())
    };
    let invalid = Err("provider returned an invalid safety answer".to_string());
    let unknown = Err("provider returned an unknown safety choice".to_string());
    assert_eq!(read(ALLOW), Ok("allow"));
    assert_eq!(read(CONFIRM), Ok("confirm"));
    assert_eq!(read("null"), invalid);
    assert_eq!(read("[]"), invalid);
    assert_eq!(read(r#"{"answers":{"safety":{"choice":"allow"}}}"#), invalid);
    assert_eq!(read(r#"{"answers":{"safety":{"type":"text","choice":"allow"}}}"#), invalid);
    assert_eq!(read(r#"{"answers":{"safety":{"type":["choice"],"choice":"allow"}}}"#), invalid);
    assert_eq!(read(r#"{"answers":{"safety":{"type":"choice"}}}"#), unknown);
    assert_eq!(read(r#"{"answers":{"safety":{"type":"choice","choice":true}}}"#), unknown);
    assert_eq!(read(r#"{"answers":{"safety":{"type":"choice","choice":"Allow"}}}"#), unknown);
}

#[test]
fn verdict_is_asked_for_once_and_kept() {
    let mut db = Database::default();
    assert_eq!(db.serve(request("ls", Some("p"), "k", None), Some(ALLOW)).unwrap(), "allow");
    assert_eq!(db.hit, Some(false));
    assert_eq!(db.calls.len(), 1);
    assert_eq!(db.calls[0]["questions"]["safety"]["instructions"], "p");
    let row = db.verdicts.values().next().unwrap();
    let kept: Value = serde_json::from_str(&row.response).unwrap();
    assert_eq!(kept, serde_json::from_str::<Value>(ALLOW).unwrap());
    // A kept verdict needs neither key nor network.
    assert_eq!(db.serve(request("ls", Some("p"), "", None), None).unwrap(), "allow");
    assert_eq!(db.hit, Some(true));
    assert_eq!(db.calls.len(), 1);
    // Another prompt has verdicts of its own.
    assert_eq!(db.serve(request("ls", Some("q"), "k", None), Some(CONFIRM)).unwrap(), "confirm");
    assert_eq!(db.calls.len(), 2);
    assert_eq!(db.serve(request("ls", Some("p"), "k", None), None).unwrap(), "allow");
}

#[test]
fn unknown_verdict_without_key_fails() {
    let mut db = Database::default();
    let error = db.serve(request("ls", Some("p"), "", None), Some(ALLOW)).unwrap_err();
    assert_eq!(
        error.message(),
        "run `plz set-key` or set TYPESAFE_API_KEY for uncached commands"
    );
    assert!(db.calls.is_empty() && db.verdicts.is_empty());
}

#[test]
fn failures_are_not_kept() {
    let mut db = Database::default();
    let error = db.serve(request("ls", Some("p"), "k", None), None).unwrap_err();
    assert_eq!(error.message(), "no network");
    let error = db.serve(request("ls", Some("p"), "k", None), Some("{}")).unwrap_err();
    assert_eq!(error.message(), "provider returned an invalid safety answer");
    assert!(db.verdicts.is_empty());
    assert_eq!(db.calls.len(), 2);
}

#[test]
fn once_and_no_are_recorded_and_ask_again() {
    let mut db = Database::default();
    assert_eq!(db.serve(request("rm x", Some("p"), "k", None), Some(CONFIRM)).unwrap(), "confirm");
    let answered = db.serve(request("rm x", Some("p"), "k", Some("once")), None);
    assert_eq!(answered.unwrap(), "allow");
    assert_eq!(db.hit, None);
    assert_eq!(db.serve(request("rm x", Some("p"), "k", None), None).unwrap(), "confirm");
    let answered = db.serve(request("rm x", Some("p"), "k", Some("no")), None);
    assert_eq!(answered.unwrap(), "deny");
    assert_eq!(db.serve(request("rm x", Some("p"), "k", None), None).unwrap(), "confirm");
    let recorded: Vec<&str> = db.answers.iter().map(|(_, answer)| answer.as_str()).collect();
    assert_eq!(recorded, vec!["once", "no"]);
}

#[test]
fn always_allows_exactly_that_command() {
    let mut db = Database::default();
    db.serve(request("rm x", Some("p"), "k", None), Some(CONFIRM)).unwrap();
    db.serve(request("rm x y", Some("p"), "k", None), Some(CONFIRM)).unwrap();
    let answered = db.serve(request("rm x", Some("p"), "", Some("always")), None);
    assert_eq!(answered.unwrap(), "allow");
    assert_eq!(db.serve(request("rm x", Some("p"), "", None), None).unwrap(), "allow");
    assert_eq!(db.serve(request("rm x y", Some("p"), "", None), None).unwrap(), "confirm");
}

#[test]
fn answers_need_a_confirmation() {
    let mut db = Database::default();
    let error = db.serve(request("ls", Some("p"), "k", Some("once")), None).unwrap_err();
    assert_eq!(error.message(), "no cached confirmation to answer");
    db.serve(request("ls", Some("p"), "k", None), Some(ALLOW)).unwrap();
    let error = db.serve(request("ls", Some("p"), "k", Some("once")), None).unwrap_err();
    assert_eq!(error.message(), "no cached confirmation to answer");
    let error = db.serve(request("ls", Some("p"), "k", Some("Once")), None).unwrap_err();
    assert_eq!(error.message(), "invalid confirmation answer");
    assert!(db.answers.is_empty());
}

#[test]
fn saved_prompt_holds_for_requests_without_one() {
    let mut db = Database::default();
    db.serve(request("ls", None, "k", None), Some(ALLOW)).unwrap();
    assert_eq!(db.calls[0]["questions"]["safety"]["instructions"], DEFAULT_PROMPT);
    db.prompt = Some("mine".to_string());
    db.serve(request("ls", None, "k", None), Some(CONFIRM)).unwrap();
    assert_eq!(db.calls[1]["questions"]["safety"]["instructions"], "mine");
    assert_eq!(db.serve(request("ls", Some("mine"), "", None), None).unwrap(), "confirm");
    assert_eq!(db.serve(request("ls", Some(DEFAULT_PROMPT), "", None), None).unwrap(), "allow");
}
