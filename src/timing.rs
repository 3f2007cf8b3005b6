use vstd::prelude::*;
use vstd::string::StrSliceExecFns;

verus! {

pub open spec fn digit_char(d: nat) -> char {
    if d == 0 { '0' }
    else if d == 1 { '1' }
    else if d == 2 { '2' }
    else if d == 3 { '3' }
    else if d == 4 { '4' }
    else if d == 5 { '5' }
    else if d == 6 { '6' }
    else if d == 7 { '7' }
    else if d == 8 { '8' }
    else { '9' }
}

/// The decimal digits of `n`, most significant first, without leading zeros.
pub open spec fn decimal(n: nat) -> Seq<char>
    decreases n,
{
    if n < 10 {
        seq![digit_char(n)]
    } else {
        decimal(n / 10) + seq![digit_char(n % 10)]
    }
}

/// A duration given in microseconds, written in milliseconds with three decimals.
pub open spec fn millis_text(micros: nat) -> Seq<char> {
    decimal(micros / 1000) + "."@ + seq![
        digit_char((micros / 100) % 10),
        digit_char((micros / 10) % 10),
        digit_char(micros % 10),
    ]
}

pub open spec fn spaces(n: nat) -> Seq<char> {
    Seq::new(n, |i: int| ' ')
}

/// `s` right-aligned in a field of `width` characters.
pub open spec fn pad_left(s: Seq<char>, width: nat) -> Seq<char> {
    if s.len() >= width {
        s
    } else {
        spaces((width - s.len()) as nat) + s
    }
}

/// The log line of a timed step: `[<elapsed ms, width 12>] ms] <label>`.
pub open spec fn step_text(label: Seq<char>, micros: nat) -> Seq<char> {
    "["@ + pad_left(millis_text(micros), 12) + " ms] "@ + label
}

fn digit_str(d: u128) -> (r: &'static str)
    requires
        d < 10,
    ensures
        r@ == seq![digit_char(d as nat)],
{
    proof {
        reveal_strlit("0");
        reveal_strlit("1");
        reveal_strlit("2");
        reveal_strlit("3");
        reveal_strlit("4");
        reveal_strlit("5");
        reveal_strlit("6");
        reveal_strlit("7");
        reveal_strlit("8");
        reveal_strlit("9");
    }
    if d == 0 { "0" }
    else if d == 1 { "1" }
    else if d == 2 { "2" }
    else if d == 3 { "3" }
    else if d == 4 { "4" }
    else if d == 5 { "5" }
    else if d == 6 { "6" }
    else if d == 7 { "7" }
    else if d == 8 { "8" }
    else { "9" }
}

fn append_decimal(out: &mut String, n: u128)
    ensures
        final(out)@ == old(out)@ + decimal(n as nat),
    decreases n,
{
    if n >= 10 {
        append_decimal(out, n / 10);
    }
    out.append(digit_str(n % 10));
    proof {
        if n >= 10 {
            assert(decimal(n as nat) == decimal((n / 10) as nat) + seq![digit_char((n % 10) as nat)]);
        }
    }
}

/// The elapsed time of a step, in milliseconds with three decimals.
pub fn millis_string(micros: u128) -> (r: String)
    ensures
        r@ == millis_text(micros as nat),
{
    let mut s = String::new();
    append_decimal(&mut s, micros / 1000);
    s.append(".");
    s.append(digit_str((micros / 100) % 10));
    s.append(digit_str((micros / 10) % 10));
    s.append(digit_str(micros % 10));
    proof {
        reveal_strlit(".");
        assert(s@ =~= millis_text(micros as nat));
    }
    s
}

/// Formats the log line of a step that took `micros` microseconds.
pub fn step_line(label: &str, micros: u128) -> (r: String)
    ensures
        r@ == step_text(label@, micros as nat),
{
    let ms = millis_string(micros);
    let len = ms.as_str().unicode_len();
    let mut line = "[".to_owned();
    let mut pad: usize = 0;
    let ghost start = line@;
    if len < 12 {
        while pad < 12 - len
            invariant
                len < 12,
                pad <= 12 - len,
                line@ == start + spaces(pad as nat),
            decreases 12 - len - pad,
        {
            line.append(" ");
            proof {
                reveal_strlit(" ");
                assert(spaces((pad + 1) as nat) =~= spaces(pad as nat) + " "@);
            }
            pad += 1;
        }
    }
    line.append(ms.as_str());
    line.append(" ms] ");
    line.append(label);
    proof {
        reveal_strlit("[");
        let padded = pad_left(millis_text(micros as nat), 12);
        if len < 12 {
            assert(padded =~= spaces(pad as nat) + ms@);
        } else {
            assert(pad == 0);
            assert(spaces(0) =~= Seq::<char>::empty());
        }
        assert(line@ =~= step_text(label@, micros as nat));
    }
    line
}


#[verifier::external_type_specification]
#[verifier::external_body]
pub struct ExInstant(std::time::Instant);

/// Relies on std::time::Instant::now: a reading of the monotonic clock.
#[verifier::external_body]
fn clock_now() -> std::time::Instant {
    std::time::Instant::now()
}

/// Relies on std::time::Instant::elapsed: the time since `start` on the
/// monotonic clock. Nothing is promised of the value.
#[verifier::external_body]
fn elapsed_since(start: &std::time::Instant) -> std::time::Duration {
    start.elapsed()
}

/// Relies on std::time::Duration::as_micros: the whole microseconds of `d`.
#[verifier::external_body]
fn whole_micros(d: &std::time::Duration) -> u128 {
    d.as_micros()
}

/// The outcome of a timed step: what the step returned, unchanged, and the
/// line to log, which exists only where the step succeeded.
pub struct TimedStep<T, E> {
    pub result: Result<T, E>,
    pub line: Option<String>,
}

/// Whether a step's outcome is logged, and with which line.
pub open spec fn report_text<T, E>(label: Seq<char>, micros: nat, result: Result<T, E>) -> Option<
    Seq<char>,
> {
    match result {
        Ok(_) => Some(step_text(label, micros)),
        Err(_) => None,
    }
}

/// The line that reports a step which took `micros` microseconds: a line for
/// a success, none for a failure, so a failed step is never logged as done.
pub fn step_report<T, E>(label: &str, micros: u128, result: &Result<T, E>) -> (r: Option<String>)
    ensures
        r matches Some(l) ==> report_text(label@, micros as nat, *result) == Some(l@),
        r is None ==> report_text(label@, micros as nat, *result) is None,
{
    match result {
        Ok(_) => Some(step_line(label, micros)),
        Err(_) => None,
    }
}

/// Runs `op` once, timing it on the monotonic clock. Its result, or its error,
/// comes back unchanged.
pub fn run_timed<T, E, F: FnOnce() -> Result<T, E>>(label: &str, op: F) -> (r: TimedStep<T, E>)
    requires
        op.requires(()),
    ensures
        op.ensures((), r.result),
        r.result is Ok <==> r.line is Some,
        r.line matches Some(l) ==> exists|micros: nat| l@ == #[trigger] step_text(label@, micros),
{
    let start = clock_now();
    let result = op();
    let micros = whole_micros(&elapsed_since(&start));
    let line = step_report(label, micros, &result);
    TimedStep { result, line }
}

} // verus!
