//! The summarization client: a bounded prompt built from the item and the
//! extracted text, one request per attempt against a generation endpoint,
//! and a bounded retry policy. A transport failure, HTTP 429 or HTTP 5xx
//! is retried up to three total attempts with a growing wait; any other
//! non-success status, an unparseable body, or a response without choices
//! is terminal.

use vstd::prelude::*;
use vstd::string::*;
use crate::text::{chars_of, string_from_chars};
use crate::work::WorkItem;

verus! {

/// Total attempts allowed per item, first attempt included.
pub const MAX_ATTEMPTS: u32 = 3;

/// The wait before attempt `n` (counting from 1, for `n >= 2`) is
/// `RETRY_BASE_MS * n` milliseconds.
pub const RETRY_BASE_MS: u64 = 500;

/// The prompt carries at most this many characters (code points) of the
/// extracted text.
pub const MAX_TEXT_CHARS: usize = 50000;

/// Completion budget requested from the generation endpoint.
pub const MAX_COMPLETION_TOKENS: u32 = 2000;

// ---------------------------------------------------------------------
// Decimal rendering, for status codes in error messages.
// ---------------------------------------------------------------------

pub open spec fn digit_char(d: int) -> char {
    if d == 0 {
        '0'
    } else if d == 1 {
        '1'
    } else if d == 2 {
        '2'
    } else if d == 3 {
        '3'
    } else if d == 4 {
        '4'
    } else if d == 5 {
        '5'
    } else if d == 6 {
        '6'
    } else if d == 7 {
        '7'
    } else if d == 8 {
        '8'
    } else {
        '9'
    }
}

/// The decimal digits of `n`, most significant first.
pub open spec fn dec_spec(n: int) -> Seq<char>
    decreases n,
{
    if n < 10 {
        seq![digit_char(n)]
    } else {
        dec_spec(n / 10).push(digit_char(n % 10))
    }
}

fn digit_exec(d: u16) -> (c: char)
    requires
        d < 10,
    ensures
        c == digit_char(d as int),
{
    if d == 0 {
        '0'
    } else if d == 1 {
        '1'
    } else if d == 2 {
        '2'
    } else if d == 3 {
        '3'
    } else if d == 4 {
        '4'
    } else if d == 5 {
        '5'
    } else if d == 6 {
        '6'
    } else if d == 7 {
        '7'
    } else if d == 8 {
        '8'
    } else {
        '9'
    }
}

fn push_decimal(n: u16, out: &mut Vec<char>)
    ensures
        final(out)@ == old(out)@ + dec_spec(n as int),
    decreases n,
{
    if n < 10 {
        out.push(digit_exec(n));
        proof {
            assert(out@ =~= old(out)@ + dec_spec(n as int));
        }
    } else {
        push_decimal(n / 10, out);
        out.push(digit_exec(n % 10));
        proof {
            assert(out@ =~= old(out)@ + dec_spec(n as int));
        }
    }
}

/// `n` in decimal.
pub fn u16_to_string(n: u16) -> (r: String)
    ensures
        r@ == dec_spec(n as int),
{
    let mut v: Vec<char> = Vec::new();
    push_decimal(n, &mut v);
    proof {
        assert(v@ =~= dec_spec(n as int));
    }
    string_from_chars(&v)
}

// ---------------------------------------------------------------------
// Prompt and document assembly.
// ---------------------------------------------------------------------

/// The extracted text as submitted: truncated to `MAX_TEXT_CHARS`
/// characters before the request is built, never mid-call.
pub open spec fn truncated_spec(s: Seq<char>) -> Seq<char> {
    if s.len() <= MAX_TEXT_CHARS as int {
        s
    } else {
        s.subrange(0, MAX_TEXT_CHARS as int)
    }
}

pub fn truncate_text(text: &str) -> (r: String)
    ensures
        r@ == truncated_spec(text@),
{
    let mut cs = chars_of(text);
    if cs.len() > MAX_TEXT_CHARS {
        cs.truncate(MAX_TEXT_CHARS);
    }
    string_from_chars(&cs)
}

/// The prompt submitted for an item: its metadata, then the truncated
/// text, then the fixed instructions.
pub open spec fn prompt_spec(item: WorkItem, text: Seq<char>) -> Seq<char> {
    "Please provide a comprehensive, evidence-based summary of the following academic paper based on the provided text.\n        Title: "@
        + item.title@ + "\n        arXiv ID: "@ + item.external_id@ + "\n        PDF URL: "@
        + item.source_url@ + "\n\n        Paper Content:\n        "@ + truncated_spec(text)
        + "\n\n        Please analyze the text provided and structure your summary using the following specific sections:\n        1. **Overview**: A concise description of the paper's core mission, what it introduces (e.g., specific benchmarks, datasets, or models), and its primary goal.\n        2. **Key Results**: detailed quantitative findings. Do not be vague. Extract specific metrics, leaderboard rankings, scores (e.g., \"Model X scored 56.1%\"), and domain-specific performance comparisons.\n        3. **Methodology**: Explain the specific approach used. Detail the dataset composition (e.g., number of test cases, expert sources) and the evaluation/grading process (e.g., \"hurdle criteria,\" \"grounding checks,\" or specific algorithms).\n        4. **Critical Insights**: Discuss the nuances, limitations, or specific behaviors observed in the study. Look for failure modes (e.g., hallucinations), performance gaps between domains, or qualitative observations made by the authors.\n\n        **Constraint:** Do not hallucinate. Base the summary *strictly* on the provided text context."@
}

pub fn build_prompt(item: &WorkItem, text: &str) -> (r: String)
    ensures
        r@ == prompt_spec(*item, text@),
{
    let mut p = String::from_str(
        "Please provide a comprehensive, evidence-based summary of the following academic paper based on the provided text.\n        Title: ",
    );
    p.append(item.title.as_str());
    p.append("\n        arXiv ID: ");
    p.append(item.external_id.as_str());
    p.append("\n        PDF URL: ");
    p.append(item.source_url.as_str());
    p.append("\n\n        Paper Content:\n        ");
    let t = truncate_text(text);
    p.append(t.as_str());
    p.append(
        "\n\n        Please analyze the text provided and structure your summary using the following specific sections:\n        1. **Overview**: A concise description of the paper's core mission, what it introduces (e.g., specific benchmarks, datasets, or models), and its primary goal.\n        2. **Key Results**: detailed quantitative findings. Do not be vague. Extract specific metrics, leaderboard rankings, scores (e.g., \"Model X scored 56.1%\"), and domain-specific performance comparisons.\n        3. **Methodology**: Explain the specific approach used. Detail the dataset composition (e.g., number of test cases, expert sources) and the evaluation/grading process (e.g., \"hurdle criteria,\" \"grounding checks,\" or specific algorithms).\n        4. **Critical Insights**: Discuss the nuances, limitations, or specific behaviors observed in the study. Look for failure modes (e.g., hallucinations), performance gaps between domains, or qualitative observations made by the authors.\n\n        **Constraint:** Do not hallucinate. Base the summary *strictly* on the provided text context.",
    );
    proof {
        assert(p@ =~= prompt_spec(*item, text@));
    }
    p
}

/// One message of a generation request.
pub struct ChatMessage {
    pub role: String,
    pub content: String,
}

/// A request to the generation endpoint, ready for the transport layer to
/// serialise and send.
pub struct GenRequest {
    pub model: String,
    pub messages: Vec<ChatMessage>,
    pub max_completion_tokens: u32,
}

/// The one request submitted for an item: a single user message holding
/// the bounded prompt.
pub fn build_request(item: &WorkItem, text: &str) -> (r: GenRequest)
    ensures
        r.model@ == "gpt-4o-mini"@,
        r.max_completion_tokens == MAX_COMPLETION_TOKENS,
        r.messages@.len() == 1,
        r.messages@[0].role@ == "user"@,
        r.messages@[0].content@ == prompt_spec(*item, text@),
{
    let prompt = build_prompt(item, text);
    let mut messages: Vec<ChatMessage> = Vec::new();
    messages.push(ChatMessage { role: String::from_str("user"), content: prompt });
    GenRequest {
        model: String::from_str("gpt-4o-mini"),
        messages,
        max_completion_tokens: MAX_COMPLETION_TOKENS,
    }
}

/// The artifact written for an item: title header, metadata block,
/// separator, then the generated content verbatim.
pub open spec fn document_spec(item: WorkItem, content: Seq<char>) -> Seq<char> {
    "# "@ + item.title@ + "\n\n**arXiv ID**: "@ + item.external_id@ + "\n**PDF**: "@
        + item.source_url@ + "\n\n---\n\n"@ + content
}

pub fn build_document(item: &WorkItem, content: &str) -> (r: String)
    ensures
        r@ == document_spec(*item, content@),
{
    let mut d = String::from_str("# ");
    d.append(item.title.as_str());
    d.append("\n\n**arXiv ID**: ");
    d.append(item.external_id.as_str());
    d.append("\n**PDF**: ");
    d.append(item.source_url.as_str());
    d.append("\n\n---\n\n");
    d.append(content);
    proof {
        assert(d@ =~= document_spec(*item, content@));
    }
    d
}

// ---------------------------------------------------------------------
// Classifying one attempt.
// ---------------------------------------------------------------------

/// What the transport layer reports for one attempt.
pub enum AttemptEvent {
    /// The request never produced an HTTP response; the transport error.
    TransportError(String),
    /// An HTTP response: its status code, its raw body, and — when the
    /// body parsed as a generation response — each choice's content.
    Response { status: u16, body: String, choices: Option<Vec<String>> },
}

/// How one attempt ended.
pub enum SummaryAttemptOutcome {
    /// The assembled output document.
    Success(String),
    /// A transient failure: worth another attempt.
    RetryableError(String),
    /// A terminal failure: no further attempts.
    TerminalError(String),
}

/// The mathematical shadow of a `SummaryAttemptOutcome`.
pub ghost enum AttemptResult {
    Success(Seq<char>),
    Retryable(Seq<char>),
    Terminal(Seq<char>),
}

/// Statuses retried: 429 and the 5xx range.
pub open spec fn retryable_status(status: u16) -> bool {
    status == 429 || (500 <= status && status <= 599)
}

/// Success statuses: the 2xx range.
pub open spec fn success_status(status: u16) -> bool {
    200 <= status && status <= 299
}

pub open spec fn api_error_spec(status: u16, body: Seq<char>) -> Seq<char> {
    "API error "@ + dec_spec(status as int) + ": "@ + body
}

pub open spec fn parse_error_spec(body: Seq<char>) -> Seq<char> {
    "Parse error - Body: "@ + body
}

/// How one attempt ends, decided by the event alone: a transport failure
/// is retryable; 429 and 5xx are retryable; any other non-2xx status is
/// terminal; on 2xx an unparseable body or an empty choice list is
/// terminal, and otherwise the first choice's content becomes the
/// assembled document.
pub open spec fn attempt_result_spec(item: WorkItem, ev: AttemptEvent) -> AttemptResult {
    match ev {
        AttemptEvent::TransportError(m) => AttemptResult::Retryable(m@),
        AttemptEvent::Response { status, body, choices } => if retryable_status(status) {
            AttemptResult::Retryable(api_error_spec(status, body@))
        } else if !success_status(status) {
            AttemptResult::Terminal(api_error_spec(status, body@))
        } else {
            match choices {
                None => AttemptResult::Terminal(parse_error_spec(body@)),
                Some(cs) => if cs@.len() == 0 {
                    AttemptResult::Terminal("No response from API"@)
                } else {
                    AttemptResult::Success(document_spec(item, cs@[0]@))
                },
            }
        },
    }
}

/// The exec outcome carries exactly the result the spec assigns.
pub open spec fn outcome_matches(r: SummaryAttemptOutcome, a: AttemptResult) -> bool {
    match r {
        SummaryAttemptOutcome::Success(d) => a matches AttemptResult::Success(s) && d@ == s,
        SummaryAttemptOutcome::RetryableError(e) => a matches AttemptResult::Retryable(s) && e@
            == s,
        SummaryAttemptOutcome::TerminalError(e) => a matches AttemptResult::Terminal(s) && e@ == s,
    }
}

fn api_error(status: u16, body: &String) -> (r: String)
    ensures
        r@ == api_error_spec(status, body@),
{
    let mut m = String::from_str("API error ");
    let num = u16_to_string(status);
    m.append(num.as_str());
    m.append(": ");
    m.append(body.as_str());
    proof {
        assert(m@ =~= api_error_spec(status, body@));
    }
    m
}

/// Resolve one attempt's event into its outcome.
pub fn classify_attempt(item: &WorkItem, ev: &AttemptEvent) -> (r: SummaryAttemptOutcome)
    ensures
        outcome_matches(r, attempt_result_spec(*item, *ev)),
{
    match ev {
        AttemptEvent::TransportError(m) => SummaryAttemptOutcome::RetryableError(m.clone()),
        AttemptEvent::Response { status, body, choices } => {
            let status = *status;
            if status == 429 || (500 <= status && status <= 599) {
                SummaryAttemptOutcome::RetryableError(api_error(status, body))
            } else if !(200 <= status && status <= 299) {
                SummaryAttemptOutcome::TerminalError(api_error(status, body))
            } else {
                match choices {
                    None => {
                        let mut m = String::from_str("Parse error - Body: ");
                        m.append(body.as_str());
                        SummaryAttemptOutcome::TerminalError(m)
                    },
                    Some(cs) => {
                        if cs.len() == 0 {
                            SummaryAttemptOutcome::TerminalError(
                                String::from_str("No response from API"),
                            )
                        } else {
                            SummaryAttemptOutcome::Success(build_document(item, cs[0].as_str()))
                        }
                    },
                }
            }
        },
    }
}

// ---------------------------------------------------------------------
// The retry policy.
// ---------------------------------------------------------------------

/// The client's state between attempts.
pub struct RetryState {
    /// Attempts already made and failed retryably.
    pub attempts_made: u32,
    /// The message of the last retryable failure.
    pub last_error: String,
}

pub fn new_retry_state() -> (st: RetryState)
    ensures
        st.attempts_made == 0,
        st.last_error@ == Seq::<char>::empty(),
{
    RetryState { attempts_made: 0, last_error: String::new() }
}

/// The error reported when every attempt failed retryably: the aggregate
/// message from the last failed attempt.
pub open spec fn give_up_spec(last_error: Seq<char>) -> Seq<char> {
    "Failed after 3 retries: "@ + last_error
}

fn give_up_message(st: &RetryState) -> (m: String)
    ensures
        m@ == give_up_spec(st.last_error@),
{
    let mut m = String::from_str("Failed after 3 retries: ");
    m.append(st.last_error.as_str());
    m
}

/// What the client does next.
pub enum RetryStep {
    /// Make another attempt after waiting this many milliseconds.
    Attempt { delay_ms: u64 },
    /// Give up with this terminal error.
    GiveUp(String),
}

/// The retry policy's next move: another attempt while fewer than
/// `MAX_ATTEMPTS` were made — with no wait before the first attempt and a
/// wait of `RETRY_BASE_MS * n` before attempt `n` — and otherwise the
/// aggregate failure.
pub fn decide_next(st: &RetryState) -> (r: RetryStep)
    ensures
        st.attempts_made < MAX_ATTEMPTS ==> (r matches RetryStep::Attempt { delay_ms }
            && delay_ms as int == (if st.attempts_made == 0 {
                0
            } else {
                (RETRY_BASE_MS as int) * (st.attempts_made as int + 1)
            })),
        st.attempts_made >= MAX_ATTEMPTS ==> (r matches RetryStep::GiveUp(m)
            && m@ == give_up_spec(st.last_error@)),
{
    if st.attempts_made < MAX_ATTEMPTS {
        if st.attempts_made == 0 {
            RetryStep::Attempt { delay_ms: 0 }
        } else {
            RetryStep::Attempt { delay_ms: RETRY_BASE_MS * ((st.attempts_made as u64) + 1) }
        }
    } else {
        RetryStep::GiveUp(give_up_message(st))
    }
}

/// Record one attempt's outcome: success and terminal failure finish the
/// item at once; a retryable failure is counted and its message kept.
pub fn absorb_outcome(st: &mut RetryState, outcome: SummaryAttemptOutcome) -> (done: Option<
    Result<String, String>,
>)
    requires
        old(st).attempts_made < MAX_ATTEMPTS,
    ensures
        outcome matches SummaryAttemptOutcome::Success(d) ==> (done matches Some(Ok(doc))
            && doc == d && *final(st) == *old(st)),
        outcome matches SummaryAttemptOutcome::TerminalError(m) ==> (done matches Some(Err(e))
            && e == m && *final(st) == *old(st)),
        outcome matches SummaryAttemptOutcome::RetryableError(m) ==> (done is None
            && final(st).attempts_made == old(st).attempts_made + 1
            && final(st).last_error == m),
{
    match outcome {
        SummaryAttemptOutcome::Success(d) => Some(Ok(d)),
        SummaryAttemptOutcome::TerminalError(m) => Some(Err(m)),
        SummaryAttemptOutcome::RetryableError(m) => {
            st.attempts_made = st.attempts_made + 1;
            st.last_error = m;
            None
        },
    }
}

/// How the whole retried call ends, looking at events from index `i` with
/// `last` the message of the last retryable failure so far.
pub open spec fn retry_from_spec(
    item: WorkItem,
    events: Seq<AttemptEvent>,
    i: int,
    last: Seq<char>,
) -> Result<Seq<char>, Seq<char>>
    decreases MAX_ATTEMPTS as int - i,
{
    if i >= MAX_ATTEMPTS as int {
        Err(give_up_spec(last))
    } else {
        match attempt_result_spec(item, events[i]) {
            AttemptResult::Success(d) => Ok(d),
            AttemptResult::Terminal(m) => Err(m),
            AttemptResult::Retryable(m) => retry_from_spec(item, events, i + 1, m),
        }
    }
}

/// How a summarization run over these attempt events ends.
pub open spec fn summarize_spec(item: WorkItem, events: Seq<AttemptEvent>) -> Result<
    Seq<char>,
    Seq<char>,
> {
    retry_from_spec(item, events, 0, Seq::empty())
}

/// How many attempts the run makes, counting from event `i`.
pub open spec fn attempts_from_spec(item: WorkItem, events: Seq<AttemptEvent>, i: int) -> int
    decreases MAX_ATTEMPTS as int - i,
{
    if i >= MAX_ATTEMPTS as int {
        MAX_ATTEMPTS as int
    } else {
        match attempt_result_spec(item, events[i]) {
            AttemptResult::Retryable(m) => attempts_from_spec(item, events, i + 1),
            _ => i + 1,
        }
    }
}

/// The exec result carries exactly the value the spec result holds.
pub open spec fn result_matches(
    r: Result<String, String>,
    s: Result<Seq<char>, Seq<char>>,
) -> bool {
    match r {
        Ok(d) => s matches Ok(sv) && d@ == sv,
        Err(e) => s matches Err(sv) && e@ == sv,
    }
}

/// The whole retried summarization, driven by a script of attempt events
/// (one per attempt the policy makes): the result and the number of
/// attempts made.
pub fn summarize_scripted(item: &WorkItem, events: &Vec<AttemptEvent>) -> (r: (
    Result<String, String>,
    u32,
))
    requires
        events@.len() >= MAX_ATTEMPTS as int,
    ensures
        result_matches(r.0, summarize_spec(*item, events@)),
        r.1 == attempts_from_spec(*item, events@, 0),
{
    let mut st = new_retry_state();
    while st.attempts_made < MAX_ATTEMPTS
        invariant
            st.attempts_made <= MAX_ATTEMPTS,
            events@.len() >= MAX_ATTEMPTS as int,
            retry_from_spec(*item, events@, st.attempts_made as int, st.last_error@)
                == summarize_spec(*item, events@),
            attempts_from_spec(*item, events@, st.attempts_made as int) == attempts_from_spec(
                *item,
                events@,
                0,
            ),
        decreases MAX_ATTEMPTS - st.attempts_made,
    {
        let ghost i = st.attempts_made as int;
        let idx: usize = st.attempts_made as usize;
        let ev = &events[idx];
        let outcome = classify_attempt(item, ev);
        let ghost last0 = st.last_error@;
        let done = absorb_outcome(&mut st, outcome);
        match done {
            Some(res) => {
                proof {
                    let a = attempt_result_spec(*item, events@[i]);
                    assert(outcome_matches(outcome, a));
                    assert(retry_from_spec(*item, events@, i, st.last_error@) == match a {
                        AttemptResult::Success(d) => Ok::<Seq<char>, Seq<char>>(d),
                        AttemptResult::Terminal(m) => Err::<Seq<char>, Seq<char>>(m),
                        AttemptResult::Retryable(m) => retry_from_spec(*item, events@, i + 1, m),
                    });
                    assert(attempts_from_spec(*item, events@, i) == match a {
                        AttemptResult::Retryable(m) => attempts_from_spec(*item, events@, i + 1),
                        _ => i + 1,
                    });
                    assert(!(a is Retryable));
                }
                return (res, st.attempts_made + 1);
            },
            None => {},
        }
        proof {
            let a = attempt_result_spec(*item, events@[i]);
            assert(outcome_matches(outcome, a));
            assert(a is Retryable);
            assert(retry_from_spec(*item, events@, i, last0) == retry_from_spec(
                *item,
                events@,
                i + 1,
                st.last_error@,
            ));
            assert(attempts_from_spec(*item, events@, i) == attempts_from_spec(
                *item,
                events@,
                i + 1,
            ));
        }
    }
    let m = give_up_message(&st);
    (Err(m), st.attempts_made)
}

} // verus!
