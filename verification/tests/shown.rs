use plz::cli::{done, ending, run, Invocation, HELP};
use plz::error::Error;
use plz::settings::Change;
use plz::status::{
    cache_counts, cache_lines, percentile, prompt_line, usage_lines, usage_totals, waiting_lines,
    CacheCounts, TokenCounts,
};
use plz::terminal::{answer, confirmation, line_mode, question, strip_newline, Flags};

fn args(words: &[&str]) -> Vec<String> {
    words.iter().map(|word| word.to_string()).collect()
}

#[test]
fn arguments_are_read() {
    let read = |words: &[&str]| format!("{:?}", run(&args(words)).unwrap());
    assert_eq!(read(&["init", "fish"]), "InitFish");
    assert_eq!(read(&["check"]), "Check { shell: \"fish\" }");
    assert_eq!(read(&["check", "--shell", "zsh"]), "Check { shell: \"zsh\" }");
    assert_eq!(read(&["on"]), "Change(Switch(true))");
    assert_eq!(read(&["off"]), "Change(Switch(false))");
    assert_eq!(read(&["status"]), "Status");
    assert_eq!(read(&["edit-prompt"]), "EditPrompt");
    assert_eq!(read(&["set-key"]), "SetKey");
    assert_eq!(read(&["unset-key"]), "Change(NoKey)");
    assert_eq!(read(&["__daemon"]), "Daemon");
    assert_eq!(read(&["--help"]), "Help");
    assert_eq!(read(&["-h"]), "Help");
    assert_eq!(read(&[]), "Help");
    for words in [
        vec!["init"],
        vec!["init", "bash"],
        vec!["check", "--shell"],
        vec!["check", "fish", "--shell"],
        vec!["on", "off"],
        vec!["On"],
        vec![""],
        vec!["check", "--shell", "a", "b"],
    ] {
        assert!(run(&args(&words)).unwrap_err().message().starts_with("usage: plz init fish"));
    }
    let on = run(&args(&["on"]));
    assert!(matches!(on, Ok(Invocation::Change(Change::Switch(true)))));
    assert!(HELP.ends_with("Exit status: 0 allowed, 1 denied, 2 error."));
}

#[test]
fn exit_status_tells_the_outcome() {
    assert!(matches!(done(Ok(())), Ok(true)));
    assert!(matches!(done(Err(Error::KeyRejected)), Err(Error::KeyRejected)));
    let end = ending(Ok(true));
    assert_eq!((end.status, end.complaint), (0, None));
    let end = ending(Ok(false));
    assert_eq!((end.status, end.complaint.as_deref()), (1, Some("plz: command not run")));
    let end = ending(Err(Error::CommandTooLarge));
    assert_eq!(
        (end.status, end.complaint.as_deref()),
        (2, Some("plz: command is too large; command not run"))
    );
}

#[test]
fn percentiles_are_nearest_rank() {
    assert_eq!(percentile(1, 1), 0);
    assert_eq!(percentile(1, 50), 0);
    assert_eq!(percentile(1, 100), 0);
    assert_eq!(percentile(2, 50), 0);
    assert_eq!(percentile(3, 50), 1);
    assert_eq!(percentile(10, 90), 8);
    assert_eq!(percentile(10, 99), 9);
    assert_eq!(percentile(100, 99), 98);
    assert_eq!(percentile(101, 99), 99);
    for count in 1..200usize {
        for percent in 1..=100usize {
            assert_eq!(percentile(count, percent), (count * percent).div_ceil(100) - 1);
        }
    }
}

#[test]
fn waiting_is_shown() {
    assert_eq!(
        waiting_lines("0.000", &vec![]),
        "uncached waiting: count 0 / total 0.000s\n\
         uncached waiting: min n/a / p50 n/a / p90 n/a / p99 n/a / max n/a\n"
    );
    let samples: Vec<String> = (1..=10).map(|n| format!("{n}.000")).collect();
    assert_eq!(
        waiting_lines("0.055", &samples),
        "uncached waiting: count 10 / total 0.055s\n\
         uncached waiting: min 1.000ms / p50 5.000ms / p90 9.000ms / p99 10.000ms / max 10.000ms\n"
    );
}

fn counts(input: Option<u64>, output: Option<u64>) -> TokenCounts {
    TokenCounts { input, output }
}

#[test]
fn tokens_are_added_up() {
    let totals = usage_totals(&vec![
        counts(Some(10), Some(1)),
        counts(Some(5), None),
        counts(None, None),
        counts(None, Some(7)),
    ])
    .unwrap();
    assert_eq!((totals.input, totals.output, totals.missing), (15, 8, 3));
    assert_eq!(
        usage_lines(&totals, "0.00000063"),
        "tokens: 15 in / 8 out\n\
         estimated cost: $0.00000063 ($0.042 / 1M input tokens; output free)\n\
         incomplete usage: 3 responses missing token counts\n"
    );
    let totals = usage_totals(&vec![]).unwrap();
    assert_eq!(
        usage_lines(&totals, "0.00000000"),
        "tokens: 0 in / 0 out\n\
         estimated cost: $0.00000000 ($0.042 / 1M input tokens; output free)\n"
    );
    let most = i64::MAX as u64;
    assert_eq!(usage_totals(&vec![counts(Some(most), Some(0))]).unwrap().input, most);
    let error = usage_totals(&vec![counts(Some(most), Some(0)), counts(Some(1), Some(0))]);
    assert_eq!(error.unwrap_err().message(), "integer overflow");
    let error = usage_totals(&vec![counts(None, Some(1)), counts(None, Some(most))]);
    assert_eq!(error.unwrap_err().message(), "integer overflow");
}

#[test]
fn cache_use_is_counted_and_shown() {
    let told = cache_counts(&vec![Some(true), None, Some(false), Some(true)]);
    assert_eq!((told.hits, told.misses, told.unknown), (2, 1, 1));
    assert_eq!(
        cache_lines(&told, "66.7%"),
        "cache: 2 hits / 1 misses / hit ratio 66.7%\n\
         cache: 1 checks without cache metadata (excluded from stats)\n"
    );
    let none = CacheCounts { hits: 0, misses: 0, unknown: 0 };
    assert_eq!(cache_lines(&none, "NaN%"), "cache: 0 hits / 0 misses / hit ratio n/a\n");
    assert_eq!(prompt_line("be kind"), "prompt: be kind\n");
}

#[test]
fn confirmation_quotes_the_command() {
    assert_eq!(
        confirmation("rm -rf \u{1b}[2K\"x\"\n"),
        "\nplz confirm \"rm -rf \\u{1b}[2K\\\"x\\\"\"\n[O]nce, [A]lways, anything else for no: "
    );
    assert_eq!(question("X"), "\nplz confirm X\n[O]nce, [A]lways, anything else for no: ");
    assert_eq!(strip_newline("a\n\n"), "a\n");
    assert_eq!(strip_newline("a"), "a");
    assert_eq!(strip_newline("\n"), "");
    assert_eq!(strip_newline(""), "");
    for code in 0..0x20u32 {
        let command = format!("a{}b", char::from_u32(code).unwrap());
        let asked = confirmation(&command);
        let shown = &asked["\nplz confirm ".len()..asked.rfind("\n[O]nce").unwrap()];
        assert!(shown.chars().all(|c| !c.is_control()));
    }
}

#[test]
fn answers_are_read() {
    for (line, meant) in [
        ("o\n", "once"),
        (" O \r\n", "once"),
        ("A\n", "always"),
        ("a", "always"),
        ("once\n", "no"),
        ("y\n", "no"),
        ("oo", "no"),
        ("", "no"),
        ("ö", "no"),
    ] {
        assert_eq!(answer(line), meant);
    }
}

#[test]
fn line_mode_sets_and_clears() {
    let flags = Flags { icanon: 2, echo: 8, isig: 1, igncr: 0o200, inlcr: 0o100, icrnl: 0o400 };
    assert_eq!(line_mode(0x8000, 0o1300, &flags), (0x800b, 0o1400));
    assert_eq!(line_mode(0, 0, &flags), (11, 0o400));
}
