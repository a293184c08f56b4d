//! What `plz status` shows.
//!
//! Numbers with a fraction (the cost, the hit ratio, times) come in as the text
//! that shows them.
use vstd::prelude::*;
use vstd::string::*;
use crate::error::Error;
use crate::text;

verus! {

/// The line that shows the prompt.
pub fn prompt_line(prompt: &str) -> (line: String)
    ensures
        line@ == "prompt: "@ + prompt@ + "\n"@,
{
    let mut line = "prompt: ".to_owned();
    line.append(prompt);
    line.append("\n");
    line
}

/// The tokens that a response says it used, as far as it does.
#[derive(Debug, Clone, Copy)]
pub struct TokenCounts {
    pub input: Option<u64>,
    pub output: Option<u64>,
}

/// The tokens of all responses.
#[derive(Debug, Clone, Copy)]
pub struct UsageTotals {
    pub input: u64,
    pub output: u64,
    /// How many responses do not tell both counts.
    pub missing: u64,
}

/// The input tokens of the responses that tell them.
pub open spec fn input_tokens(responses: Seq<TokenCounts>) -> nat
    decreases responses.len(),
{
    if responses.len() == 0 {
        0
    } else {
        input_tokens(responses.drop_last()) + responses.last().input.unwrap_or(0) as nat
    }
}

/// The output tokens of the responses that tell them.
pub open spec fn output_tokens(responses: Seq<TokenCounts>) -> nat
    decreases responses.len(),
{
    if responses.len() == 0 {
        0
    } else {
        output_tokens(responses.drop_last()) + responses.last().output.unwrap_or(0) as nat
    }
}

/// Whether a response leaves out one of the counts.
pub open spec fn is_incomplete(response: TokenCounts) -> bool {
    response.input is None || response.output is None
}

/// How many responses leave out one of the counts.
pub open spec fn incomplete(responses: Seq<TokenCounts>) -> nat {
    responses.filter(|response: TokenCounts| is_incomplete(response)).len()
}

/// The largest number of tokens that is counted.
pub const TOKEN_LIMIT: u64 = 9223372036854775807;

proof fn lemma_tokens_grow(responses: Seq<TokenCounts>, n: int)
    requires
        0 <= n <= responses.len(),
    ensures
        input_tokens(responses.take(n)) <= input_tokens(responses),
        output_tokens(responses.take(n)) <= output_tokens(responses),
    decreases responses.len(),
{
    if n == responses.len() {
        assert(responses.take(n) =~= responses);
    } else {
        let before = responses.drop_last();
        lemma_tokens_grow(before, n);
        assert(before.take(n) =~= responses.take(n));
    }
}

/// Adds up the tokens of the responses. Counts that are left out are not
/// guessed; the responses that do so are counted.
pub fn usage_totals(responses: &Vec<TokenCounts>) -> (totals: Result<UsageTotals, Error>)
    ensures
        match totals {
            Ok(totals) => {
                &&& totals.input == input_tokens(responses@) <= TOKEN_LIMIT
                &&& totals.output == output_tokens(responses@) <= TOKEN_LIMIT
                &&& totals.missing == incomplete(responses@)
            },
            Err(error) => {
                &&& error == Error::TokenOverflow
                &&& (input_tokens(responses@) > TOKEN_LIMIT || output_tokens(responses@)
                    > TOKEN_LIMIT)
            },
        },
{
    let ghost lacking = |response: TokenCounts| is_incomplete(response);
    let mut input: u64 = 0;
    let mut output: u64 = 0;
    let mut missing: u64 = 0;
    let mut i: usize = 0;
    proof {
        reveal(Seq::filter);
    }
    while i < responses.len()
        invariant
            i <= responses@.len(),
            lacking == (|response: TokenCounts| is_incomplete(response)),
            input == input_tokens(responses@.take(i as int)) <= TOKEN_LIMIT,
            output == output_tokens(responses@.take(i as int)) <= TOKEN_LIMIT,
            missing == responses@.take(i as int).filter(lacking).len() <= i,
        decreases responses@.len() - i,
    {
        let response = responses[i];
        proof {
            reveal(Seq::filter);
            assert(responses@.take(i + 1).drop_last() =~= responses@.take(i as int));
            assert(responses@.take(i + 1).last() == response);
            lemma_tokens_grow(responses@, i + 1);
        }
        let more_input: u64 = response.input.unwrap_or(0);
        let more_output: u64 = response.output.unwrap_or(0);
        if more_input > TOKEN_LIMIT - input || more_output > TOKEN_LIMIT - output {
            return Err(Error::TokenOverflow);
        }
        input = input + more_input;
        output = output + more_output;
        if response.input.is_none() || response.output.is_none() {
            missing = missing + 1;
        }
        i = i + 1;
    }
    assert(responses@.take(i as int) =~= responses@);
    Ok(UsageTotals { input, output, missing })
}

/// The lines that show the tokens that were used and what they cost, and how
/// many responses do not tell.
pub open spec fn usage_shown(totals: UsageTotals, cost: Seq<char>) -> Seq<char> {
    let tokens = "tokens: "@ + text::decimal(totals.input as nat) + " in / "@ + text::decimal(
        totals.output as nat,
    ) + " out\n"@;
    let estimate = "estimated cost: $"@ + cost + " ($0.042 / 1M input tokens; output free)\n"@;
    let incomplete = if totals.missing > 0 {
        "incomplete usage: "@ + text::decimal(totals.missing as nat)
            + " responses missing token counts\n"@
    } else {
        Seq::empty()
    };
    tokens + estimate + incomplete
}

/// The lines that show the tokens that were used and what they cost.
pub fn usage_lines(totals: &UsageTotals, cost: &str) -> (lines: String)
    ensures
        lines@ == usage_shown(*totals, cost@),
{
    let mut lines = "tokens: ".to_owned();
    lines.append(text::decimal_text(totals.input).as_str());
    lines.append(" in / ");
    lines.append(text::decimal_text(totals.output).as_str());
    lines.append(" out\n");
    let mut estimate = "estimated cost: $".to_owned();
    estimate.append(cost);
    estimate.append(" ($0.042 / 1M input tokens; output free)\n");
    lines.append(estimate.as_str());
    let mut incomplete = String::new();
    if totals.missing > 0 {
        incomplete = "incomplete usage: ".to_owned();
        incomplete.append(text::decimal_text(totals.missing).as_str());
        incomplete.append(" responses missing token counts\n");
    }
    lines.append(incomplete.as_str());
    lines
}

/// How many checks found their verdict, did not, and do not tell.
#[derive(Debug, Clone, Copy)]
pub struct CacheCounts {
    pub hits: u64,
    pub misses: u64,
    pub unknown: u64,
}

/// How many checks told `what` of the cache.
pub open spec fn told(checks: Seq<Option<bool>>, what: Option<bool>) -> nat {
    checks.filter(|check: Option<bool>| check == what).len()
}

/// Counts what checks told of the cache.
pub fn cache_counts(checks: &Vec<Option<bool>>) -> (counts: CacheCounts)
    ensures
        counts.hits == told(checks@, Some(true)),
        counts.misses == told(checks@, Some(false)),
        counts.unknown == told(checks@, None),
        counts.hits + counts.misses + counts.unknown == checks@.len(),
{
    let mut counts = CacheCounts { hits: 0, misses: 0, unknown: 0 };
    let mut i: usize = 0;
    proof {
        reveal(Seq::filter);
    }
    while i < checks.len()
        invariant
            i <= checks@.len(),
            counts.hits == told(checks@.take(i as int), Some(true)),
            counts.misses == told(checks@.take(i as int), Some(false)),
            counts.unknown == told(checks@.take(i as int), None),
            counts.hits + counts.misses + counts.unknown == i,
        decreases checks@.len() - i,
    {
        proof {
            reveal(Seq::filter);
            assert(checks@.take(i + 1).drop_last() =~= checks@.take(i as int));
        }
        match checks[i] {
            Some(true) => {
                counts.hits = counts.hits + 1;
            },
            Some(false) => {
                counts.misses = counts.misses + 1;
            },
            None => {
                counts.unknown = counts.unknown + 1;
            },
        }
        i = i + 1;
    }
    assert(checks@.take(i as int) =~= checks@);
    counts
}

/// The lines that show how often a verdict was known: `ratio` is the share of
/// hits among hits and misses, which is not shown where there are none. Checks
/// that do not tell are shown apart.
pub open spec fn cache_shown(counts: CacheCounts, ratio: Seq<char>) -> Seq<char> {
    let shares = "cache: "@ + text::decimal(counts.hits as nat) + " hits / "@ + text::decimal(
        counts.misses as nat,
    ) + " misses / hit ratio "@ + (if counts.hits == 0 && counts.misses == 0 {
        "n/a"@
    } else {
        ratio
    }) + "\n"@;
    let untold = if counts.unknown > 0 {
        "cache: "@ + text::decimal(counts.unknown as nat)
            + " checks without cache metadata (excluded from stats)\n"@
    } else {
        Seq::empty()
    };
    shares + untold
}

/// The lines that show how often a verdict was known.
pub fn cache_lines(counts: &CacheCounts, ratio: &str) -> (lines: String)
    ensures
        lines@ == cache_shown(*counts, ratio@),
{
    let mut lines = "cache: ".to_owned();
    lines.append(text::decimal_text(counts.hits).as_str());
    lines.append(" hits / ");
    lines.append(text::decimal_text(counts.misses).as_str());
    lines.append(" misses / hit ratio ");
    if counts.hits == 0 && counts.misses == 0 {
        lines.append("n/a");
    } else {
        lines.append(ratio);
    }
    lines.append("\n");
    let mut untold = String::new();
    if counts.unknown > 0 {
        untold = "cache: ".to_owned();
        untold.append(text::decimal_text(counts.unknown).as_str());
        untold.append(" checks without cache metadata (excluded from stats)\n");
    }
    lines.append(untold.as_str());
    lines
}

/// The place of the `percent`-th percentile among `count` samples in ascending
/// order, by nearest rank.
pub open spec fn nearest_rank(count: nat, percent: nat) -> int {
    (count * percent + 99) / 100 - 1
}

/// A percentile is one of the samples: the first that has at least that share of
/// them up to it. The hundredth is the last, and higher ones come later.
pub proof fn percentile_is_nearest_rank(count: nat, percent: nat)
    requires
        count > 0,
        0 < percent <= 100,
    ensures
        0 <= nearest_rank(count, percent) < count,
        (nearest_rank(count, percent) + 1) * 100 >= count * percent,
        nearest_rank(count, percent) * 100 < count * percent,
        nearest_rank(count, 100) == count - 1,
        forall|higher: nat|
            percent <= higher <= 100 ==> nearest_rank(count, percent) <= #[trigger] nearest_rank(
                count,
                higher,
            ),
{
    assert(0 < count * percent <= count * 100) by (nonlinear_arith)
        requires
            count > 0,
            0 < percent <= 100,
    ;
    assert forall|higher: nat| percent <= higher <= 100 implies nearest_rank(count, percent)
        <= #[trigger] nearest_rank(count, higher) by {
        assert(count * percent <= count * higher) by (nonlinear_arith)
            requires
                percent <= higher,
        ;
    }
}

/// The place of a percentile among `count` samples in ascending order.
pub fn percentile(count: usize, percent: usize) -> (place: usize)
    requires
        count > 0,
        0 < percent <= 100,
        count * 100 <= usize::MAX,
    ensures
        place == nearest_rank(count as nat, percent as nat),
        place < count,
{
    proof {
        percentile_is_nearest_rank(count as nat, percent as nat);
        assert(0 < count * percent <= count * 100) by (nonlinear_arith)
            requires
                count > 0,
                0 < percent <= 100,
        ;
    }
    let product: usize = count * percent;
    let whole: usize = product / 100;
    if product % 100 > 0 {
        whole
    } else {
        whole - 1
    }
}

/// The lines that show how long checks waited that asked the provider, where
/// `samples` shows the times in ascending order and `total` their sum.
pub open spec fn waiting_shown(total: Seq<char>, samples: Seq<String>) -> Seq<char> {
    let count = samples.len();
    let sum = "uncached waiting: count "@ + text::decimal(count) + " / total "@ + total + "s\n"@;
    let spread = if count == 0 {
        "uncached waiting: min n/a / p50 n/a / p90 n/a / p99 n/a / max n/a\n"@
    } else {
        "uncached waiting: min "@ + samples[0]@ + "ms / p50 "@ + samples[nearest_rank(count, 50)]@
            + "ms / p90 "@ + samples[nearest_rank(count, 90)]@ + "ms / p99 "@ + samples[nearest_rank(
            count,
            99,
        )]@ + "ms / max "@ + samples[nearest_rank(count, 100)]@ + "ms\n"@
    };
    sum + spread
}

/// The lines that show how long checks waited that asked the provider.
pub fn waiting_lines(total: &str, samples: &Vec<String>) -> (lines: String)
    requires
        samples@.len() * 100 <= usize::MAX,
    ensures
        lines@ == waiting_shown(total@, samples@),
{
    let count: usize = samples.len();
    let mut lines = "uncached waiting: count ".to_owned();
    lines.append(text::decimal_text(count as u64).as_str());
    lines.append(" / total ");
    lines.append(total);
    lines.append("s\n");
    if count == 0 {
        lines.append("uncached waiting: min n/a / p50 n/a / p90 n/a / p99 n/a / max n/a\n");
        return lines;
    }
    let mut spread = "uncached waiting: min ".to_owned();
    spread.append(samples[0].as_str());
    spread.append("ms / p50 ");
    spread.append(samples[percentile(count, 50)].as_str());
    spread.append("ms / p90 ");
    spread.append(samples[percentile(count, 90)].as_str());
    spread.append("ms / p99 ");
    spread.append(samples[percentile(count, 99)].as_str());
    spread.append("ms / max ");
    spread.append(samples[percentile(count, 100)].as_str());
    spread.append("ms\n");
    lines.append(spread.as_str());
    lines
}

/// Responses add up: what several lists of them used is the sum of what each
/// used, and a single one counts as it tells, input as input and output as
/// output. It is incomplete if either count is missing.
pub proof fn usage_adds_up(
    some: Seq<TokenCounts>,
    others: Seq<TokenCounts>,
    response: TokenCounts,
)
    ensures
        input_tokens(some + others) == input_tokens(some) + input_tokens(others),
        output_tokens(some + others) == output_tokens(some) + output_tokens(others),
        incomplete(some + others) == incomplete(some) + incomplete(others),
        input_tokens(seq![response]) == (match response.input {
            Some(n) => n as nat,
            None => 0,
        }),
        output_tokens(seq![response]) == (match response.output {
            Some(n) => n as nat,
            None => 0,
        }),
        incomplete(seq![response]) == (if response.input is Some && response.output is Some {
            0nat
        } else {
            1
        }),
        TOKEN_LIMIT == i64::MAX,
    decreases others.len(),
{
    reveal(Seq::filter);
    let one = seq![response];
    assert(one.drop_last() =~= Seq::<TokenCounts>::empty());
    assert(one.last() == response);
    reveal_with_fuel(input_tokens, 2);
    reveal_with_fuel(output_tokens, 2);
    if others.len() == 0 {
        assert(some + others =~= some);
    } else {
        let fewer = others.drop_last();
        usage_adds_up(some, fewer, response);
        assert((some + others).drop_last() =~= some + fewer);
        assert((some + others).last() == others.last());
    }
    let lacking = |response: TokenCounts| is_incomplete(response);
    assert(one.drop_last().filter(lacking) =~= Seq::<TokenCounts>::empty());
    if lacking(response) {
        assert(one.filter(lacking) =~= one.drop_last().filter(lacking).push(response));
    }
}

/// Checks add up: how often something was told in two lists of checks is the sum,
/// and a single check tells one thing.
pub proof fn checks_add_up(
    some: Seq<Option<bool>>,
    others: Seq<Option<bool>>,
    check: Option<bool>,
    what: Option<bool>,
)
    ensures
        told(some + others, what) == told(some, what) + told(others, what),
        told(seq![check], what) == (if check == what {
            1nat
        } else {
            0
        }),
    decreases others.len(),
{
    reveal(Seq::filter);
    let one = seq![check];
    assert(one.drop_last() =~= Seq::<Option<bool>>::empty());
    assert(one.last() == check);
    assert(told(one.drop_last(), what) == 0);
    if others.len() == 0 {
        assert(some + others =~= some);
    } else {
        let fewer = others.drop_last();
        checks_add_up(some, fewer, check, what);
        assert((some + others).drop_last() =~= some + fewer);
        assert((some + others).last() == others.last());
    }
}

/// The first line shows the input tokens as those that went in and the output
/// tokens as those that came out, whatever is missing; the second shows the cost.
/// Where responses are incomplete, one more line tells how many, and changes
/// nothing before it.
pub proof fn usage_is_shown_in_lines(input: u64, output: u64, missing: u64, cost: Seq<char>)
    ensures
        ({
            let shown = usage_shown(UsageTotals { input, output, missing }, cost);
            let complete = usage_shown(UsageTotals { input, output, missing: 0 }, cost);
            let first = "tokens: "@ + text::decimal(input as nat) + " in / "@ + text::decimal(
                output as nat,
            ) + " out\n"@;
            &&& first.is_prefix_of(shown)
            &&& complete == first + "estimated cost: $"@ + cost
                + " ($0.042 / 1M input tokens; output free)\n"@
            &&& shown == if missing == 0 {
                complete
            } else {
                complete + "incomplete usage: "@ + text::decimal(missing as nat)
                    + " responses missing token counts\n"@
            }
        }),
{
    let shown = usage_shown(UsageTotals { input, output, missing }, cost);
    let complete = usage_shown(UsageTotals { input, output, missing: 0 }, cost);
    let first = "tokens: "@ + text::decimal(input as nat) + " in / "@ + text::decimal(
        output as nat,
    ) + " out\n"@;
    assert(complete =~= first + "estimated cost: $"@ + cost
        + " ($0.042 / 1M input tokens; output free)\n"@);
    if missing == 0 {
        assert(shown =~= complete);
    } else {
        assert(shown =~= complete + "incomplete usage: "@ + text::decimal(missing as nat)
            + " responses missing token counts\n"@);
    }
    assert(shown.take(first.len() as int) =~= first);
}

/// The first line shows hits as hits and misses as misses, whatever is unknown,
/// and their ratio unless there are neither. Checks that do not tell add a line of
/// their own, and change nothing before it.
pub proof fn cache_use_is_shown_in_lines(hits: u64, misses: u64, unknown: u64, ratio: Seq<char>)
    ensures
        ({
            let shown = cache_shown(CacheCounts { hits, misses, unknown }, ratio);
            let known = cache_shown(CacheCounts { hits, misses, unknown: 0 }, ratio);
            let counted = "cache: "@ + text::decimal(hits as nat) + " hits / "@ + text::decimal(
                misses as nat,
            ) + " misses / hit ratio "@;
            &&& counted.is_prefix_of(shown)
            &&& hits + misses > 0 ==> known == counted + ratio + "\n"@
            &&& hits + misses == 0 ==> known == counted + "n/a\n"@
            &&& shown == if unknown == 0 {
                known
            } else {
                known + "cache: "@ + text::decimal(unknown as nat)
                    + " checks without cache metadata (excluded from stats)\n"@
            }
        }),
{
    let shown = cache_shown(CacheCounts { hits, misses, unknown }, ratio);
    let known = cache_shown(CacheCounts { hits, misses, unknown: 0 }, ratio);
    let counted = "cache: "@ + text::decimal(hits as nat) + " hits / "@ + text::decimal(
        misses as nat,
    ) + " misses / hit ratio "@;
    reveal_strlit("n/a");
    reveal_strlit("n/a\n");
    reveal_strlit("\n");
    if hits + misses > 0 {
        assert(known =~= counted + ratio + "\n"@);
    } else {
        assert(known =~= counted + "n/a\n"@);
    }
    if unknown == 0 {
        assert(shown =~= known);
    } else {
        assert(shown =~= known + "cache: "@ + text::decimal(unknown as nat)
            + " checks without cache metadata (excluded from stats)\n"@);
    }
    assert(shown.take(counted.len() as int) =~= counted);
}

/// Whether the sample at `place`, of `count` in ascending order, is the first up to
/// which at least `percent` of a hundred of them lie.
pub open spec fn is_first_with_share(place: int, count: nat, percent: nat) -> bool {
    &&& 0 <= place < count
    &&& place * 100 < count * percent <= (place + 1) * 100
}

/// The times that are shown are samples: the first as the least, the last as the
/// greatest, and for each percentile the first sample up to which that share of
/// them lies. Without samples there is nothing to show but their number and sum.
pub proof fn waiting_shows_samples(
    total: Seq<char>,
    samples: Seq<String>,
    p50: int,
    p90: int,
    p99: int,
)
    requires
        samples.len() > 0 ==> {
            &&& is_first_with_share(p50, samples.len(), 50)
            &&& is_first_with_share(p90, samples.len(), 90)
            &&& is_first_with_share(p99, samples.len(), 99)
        },
    ensures
        waiting_shown(total, samples) == "uncached waiting: count "@ + text::decimal(samples.len())
            + " / total "@ + total + "s\n"@ + (if samples.len() == 0 {
            "uncached waiting: min n/a / p50 n/a / p90 n/a / p99 n/a / max n/a\n"@
        } else {
            "uncached waiting: min "@ + samples.first()@ + "ms / p50 "@ + samples[p50]@
                + "ms / p90 "@ + samples[p90]@ + "ms / p99 "@ + samples[p99]@ + "ms / max "@
                + samples.last()@ + "ms\n"@
        }),
{
}

} // verus!
