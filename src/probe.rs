//! The readiness prober's decisions: whether an answer certifies that the
//! backend serves HTTP, and what to do next while polling.
use vstd::prelude::*;

verus! {

/// How long start-up waits for the backend, in seconds.
pub const READY_TIMEOUT_SECS: u64 = 120;

/// The time allowed to connect, and to write and read once connected, in
/// milliseconds.
pub const ATTEMPT_TIMEOUT_MS: u64 = 800;

/// The pause between two attempts, in milliseconds.
pub const BACKOFF_MS: u64 = 500;

/// How many bytes of the answer are read.
pub const READ_BUDGET: usize = 64;

/// The request sent on each attempt.
pub const STATUS_REQUEST: &'static str = "GET /api/status HTTP/1.1\r\nHost: 127.0.0.1\r\nConnection: close\r\n\r\n";

/// A continuation byte of a multi-byte UTF-8 sequence.
pub open spec fn cont(x: u8) -> bool {
    0x80 <= x <= 0xBF
}

/// Well-formed UTF-8: a sequence of one-byte characters below 0x80, and of
/// two-, three- and four-byte sequences with the lead and second bytes in the
/// ranges of the UTF-8 standard (no overlong forms, no surrogates, nothing
/// above U+10FFFF).
pub open spec fn utf8_valid(b: Seq<u8>) -> bool
    decreases b.len(),
{
    if b.len() == 0 {
        true
    } else if b[0] < 0x80 {
        utf8_valid(b.subrange(1, b.len() as int))
    } else if 0xC2 <= b[0] <= 0xDF {
        b.len() >= 2 && cont(b[1]) && utf8_valid(b.subrange(2, b.len() as int))
    } else if 0xE0 <= b[0] <= 0xEF {
        b.len() >= 3 && cont(b[1]) && cont(b[2]) && (b[0] == 0xE0 ==> b[1] >= 0xA0) && (b[0]
            == 0xED ==> b[1] <= 0x9F) && utf8_valid(b.subrange(3, b.len() as int))
    } else if 0xF0 <= b[0] <= 0xF4 {
        b.len() >= 4 && cont(b[1]) && cont(b[2]) && cont(b[3]) && (b[0] == 0xF0 ==> b[1] >= 0x90)
            && (b[0] == 0xF4 ==> b[1] <= 0x8F) && utf8_valid(b.subrange(4, b.len() as int))
    } else {
        false
    }
}

/// Relies on std::str::from_utf8: it succeeds exactly on well-formed UTF-8.
#[verifier::external_body]
fn is_utf8(b: &[u8]) -> (r: bool)
    ensures
        r == utf8_valid(b@),
{
    std::str::from_utf8(b).is_ok()
}

/// Every byte is ASCII.
pub open spec fn all_ascii(b: Seq<u8>) -> bool {
    forall|i: int| 0 <= i < b.len() ==> b[i] < 0x80
}

/// ASCII text is valid UTF-8.
pub proof fn lemma_ascii_is_utf8(b: Seq<u8>)
    requires
        all_ascii(b),
    ensures
        utf8_valid(b),
    decreases b.len(),
{
    if b.len() > 0 {
        let rest = b.subrange(1, b.len() as int);
        assert(b[0] < 0x80);
        assert forall|i: int| 0 <= i < rest.len() implies rest[i] < 0x80 by {
            assert(rest[i] == b[i + 1]);
        }
        lemma_ascii_is_utf8(rest);
    }
}

/// How many bytes precede the first line feed, or all of them if there is
/// none.
pub open spec fn line_len(b: Seq<u8>) -> nat
    decreases b.len(),
{
    if b.len() == 0 || b[0] == 10 {
        0
    } else {
        1 + line_len(b.subrange(1, b.len() as int))
    }
}

/// The status line: the bytes before the first line feed.
pub open spec fn status_line(b: Seq<u8>) -> Seq<u8> {
    b.take(line_len(b) as int)
}

fn status_line_exec(b: &Vec<u8>) -> (r: Vec<u8>)
    ensures
        r@ == status_line(b@),
{
    let mut line: Vec<u8> = Vec::new();
    let mut i: usize = 0;
    assert(b@.skip(0) =~= b@);
    assert(line@ =~= b@.take(0));
    while i < b.len() && b[i] != 10
        invariant
            i <= b@.len(),
            line@ == b@.take(i as int),
            line_len(b@) == i + line_len(b@.skip(i as int)),
        decreases b@.len() - i,
    {
        let ghost rest = b@.skip(i as int);
        assert(rest[0] == b@[i as int]);
        assert(rest.subrange(1, rest.len() as int) =~= b@.skip(i + 1));
        line.push(b[i]);
        i = i + 1;
        assert(line@ =~= b@.take(i as int));
    }
    let ghost rest = b@.skip(i as int);
    assert(rest.len() == 0 || rest[0] == 10);
    line
}

/// `pat` occurs in `b` at position `i`.
pub open spec fn occurs_at(b: Seq<u8>, pat: Seq<u8>, i: int) -> bool {
    0 <= i && i + pat.len() <= b.len() && b.subrange(i, i + pat.len()) == pat
}

/// The text ` 200 `.
pub open spec fn code_ok() -> Seq<u8> {
    seq![32u8, 50u8, 48u8, 48u8, 32u8]
}

/// The text `HTTP/1.` followed by `minor` and ` 200`.
pub open spec fn status_line_ok(minor: u8) -> Seq<u8> {
    seq![72u8, 84u8, 84u8, 80u8, 47u8, 49u8, 46u8, minor, 32u8, 50u8, 48u8, 48u8]
}

/// The answer reports success: ` 200 ` occurs in its status line, or it
/// starts with `HTTP/1.1 200` or `HTTP/1.0 200`.
pub open spec fn status_text_ok(b: Seq<u8>) -> bool {
    (exists|i: int| occurs_at(status_line(b), code_ok(), i)) || occurs_at(b, status_line_ok(49u8), 0)
        || occurs_at(b, status_line_ok(48u8), 0)
}

fn occurs_exec(b: &Vec<u8>, pat: &Vec<u8>, i: usize) -> (r: bool)
    ensures
        r == occurs_at(b@, pat@, i as int),
{
    if pat.len() > b.len() || i > b.len() - pat.len() {
        return false;
    }
    let mut k: usize = 0;
    while k < pat.len()
        invariant
            k <= pat@.len(),
            i + pat@.len() <= b@.len(),
            b@.len() == b.len(),
            forall|m: int| 0 <= m < k ==> b@[i + m] == pat@[m],
        decreases pat@.len() - k,
    {
        assert(i + k < b@.len());
        if b[i + k] != pat[k] {
            assert(b@.subrange(i as int, i + pat@.len())[k as int] != pat@[k as int]);
            return false;
        }
        k = k + 1;
    }
    assert(b@.subrange(i as int, i + pat@.len()) =~= pat@);
    true
}

fn occurs_anywhere(b: &Vec<u8>, pat: &Vec<u8>) -> (r: bool)
    requires
        pat@.len() > 0,
    ensures
        r == exists|i: int| occurs_at(b@, pat@, i),
{
    let mut i: usize = 0;
    while i < b.len()
        invariant
            i <= b@.len(),
            forall|m: int| 0 <= m < i ==> !occurs_at(b@, pat@, m),
        decreases b@.len() - i,
    {
        if occurs_exec(b, pat, i) {
            return true;
        }
        i = i + 1;
    }
    assert forall|m: int| !occurs_at(b@, pat@, m) by {
        if m >= b@.len() {
            assert(m + pat@.len() > b@.len());
        }
    }
    false
}

/// Whether an answer read from the backend certifies that it is ready: valid
/// UTF-8 whose status line reports status 200.
pub fn response_ok(answer: &Vec<u8>) -> (r: bool)
    ensures
        r == (utf8_valid(answer@) && status_text_ok(answer@)),
{
    if !is_utf8(answer.as_slice()) {
        return false;
    }
    let code = vec![32u8, 50u8, 48u8, 48u8, 32u8];
    assert(code@ =~= code_ok());
    let v11 = vec![72u8, 84u8, 84u8, 80u8, 47u8, 49u8, 46u8, 49u8, 32u8, 50u8, 48u8, 48u8];
    assert(v11@ =~= status_line_ok(49u8));
    let v10 = vec![72u8, 84u8, 84u8, 80u8, 47u8, 49u8, 46u8, 48u8, 32u8, 50u8, 48u8, 48u8];
    assert(v10@ =~= status_line_ok(48u8));
    let line = status_line_exec(answer);
    occurs_anywhere(&line, &code) || occurs_exec(answer, &v11, 0) || occurs_exec(answer, &v10, 0)
}

/// What happened last while polling.
pub enum ProbeEvent {
    /// Polling starts, or a pause has just ended.
    Idle,
    /// No connection could be made, or nothing could be read.
    NoAnswer,
    /// These bytes were read from the connection.
    Answered(Vec<u8>),
}

/// What the poller does next.
#[derive(PartialEq, Eq, Structural, Clone, Copy, Debug)]
pub enum ProbeAction {
    /// Connect, send the request and read the answer.
    Attempt,
    /// Pause for the backoff interval.
    Backoff,
    /// Stop: ready or not.
    Finish(bool),
}

/// The poller's decision `elapsed_secs` whole seconds after polling started,
/// with a budget of `timeout_secs`: no attempt starts once the budget is
/// spent.
pub open spec fn probe_decision(timeout_secs: u64, elapsed_secs: u64, event: ProbeEvent) -> ProbeAction {
    match event {
        ProbeEvent::Idle => if elapsed_secs < timeout_secs {
            ProbeAction::Attempt
        } else {
            ProbeAction::Finish(false)
        },
        ProbeEvent::NoAnswer => ProbeAction::Backoff,
        ProbeEvent::Answered(b) => if utf8_valid(b@) && status_text_ok(b@) {
            ProbeAction::Finish(true)
        } else {
            ProbeAction::Backoff
        },
    }
}

/// Decides the poller's next step: a successful answer ends polling as ready;
/// a failed attempt pauses; after a pause another attempt is made while the
/// budget lasts, and polling ends as not ready once it is spent.
pub fn probe_step(timeout_secs: u64, elapsed_secs: u64, event: &ProbeEvent) -> (r: ProbeAction)
    ensures
        r == probe_decision(timeout_secs, elapsed_secs, *event),
{
    match event {
        ProbeEvent::Idle => if elapsed_secs < timeout_secs {
            ProbeAction::Attempt
        } else {
            ProbeAction::Finish(false)
        },
        ProbeEvent::NoAnswer => ProbeAction::Backoff,
        ProbeEvent::Answered(b) => if response_ok(b) {
            ProbeAction::Finish(true)
        } else {
            ProbeAction::Backoff
        },
    }
}

/// A backend that never gives a successful answer is never reported ready:
/// polling only ends once the budget is spent, and then as not ready. A
/// successful answer ends polling as ready at once, whatever the time.
pub proof fn lemma_ready_only_on_success(timeout_secs: u64, elapsed_secs: u64, event: ProbeEvent)
    ensures
        probe_decision(timeout_secs, elapsed_secs, event) == ProbeAction::Finish(true) <==> (
        event is Answered && utf8_valid(event->Answered_0@) && status_text_ok(
            event->Answered_0@,
        )),
        probe_decision(timeout_secs, elapsed_secs, event) == ProbeAction::Finish(false) <==> (
        event is Idle && elapsed_secs >= timeout_secs),
        probe_decision(timeout_secs, elapsed_secs, event) == ProbeAction::Attempt ==> elapsed_secs
            < timeout_secs,
{
}

/// An ASCII answer that starts with `HTTP/1.1 200` or `HTTP/1.0 200` ends
/// polling as ready on the attempt that read it.
pub proof fn lemma_ok_answer_is_ready(timeout_secs: u64, elapsed_secs: u64, event: ProbeEvent)
    requires
        event is Answered,
        all_ascii(event->Answered_0@),
        occurs_at(event->Answered_0@, status_line_ok(49u8), 0) || occurs_at(
            event->Answered_0@,
            status_line_ok(48u8),
            0,
        ),
    ensures
        probe_decision(timeout_secs, elapsed_secs, event) == ProbeAction::Finish(true),
{
    lemma_ascii_is_utf8(event->Answered_0@);
}

} // verus!
