use vstd::prelude::*;

use crate::status::{ProbeOutcome, WorkResult};

verus! {

/// `s` with each double quote preceded by a backslash.
pub open spec fn escape_quotes(s: Seq<char>) -> Seq<char>
    decreases s.len(),
{
    if s.len() == 0 {
        Seq::empty()
    } else {
        escape_quotes(s.drop_last()) + if s.last() == '"' {
            "\\\""@
        } else {
            seq![s.last()]
        }
    }
}

/// The decimal digit for `d < 10`.
pub open spec fn digit_char(d: nat) -> char {
    seq!['0', '1', '2', '3', '4', '5', '6', '7', '8', '9'][d as int]
}

/// The decimal notation of `n`, without leading zeros.
pub open spec fn decimal(n: nat) -> Seq<char>
    decreases n,
{
    if n < 10 {
        seq![digit_char(n)]
    } else {
        decimal(n / 10) + seq![digit_char(n % 10)]
    }
}

/// The value of the "status" field: the code, or the message in quotes.
pub open spec fn outcome_json(o: ProbeOutcome) -> Seq<char> {
    match o {
        ProbeOutcome::Success { status_code } => decimal(status_code as nat),
        ProbeOutcome::Failure { message } => "\""@ + escape_quotes(message@) + "\""@,
    }
}

/// One record as a JSON object, indented by two spaces.
pub open spec fn record_json(r: WorkResult) -> Seq<char> {
    "  {\n    \"url\": \""@ + escape_quotes(r.url@) + "\",\n    \"status\": "@
        + outcome_json(r.outcome) + ",\n    \"response_time_ms\": "@
        + decimal(r.elapsed_ms as nat) + ",\n    \"timestamp\": "@
        + decimal(r.observed_at as nat) + "\n  }"@
}

/// Record `i` of `rs` with what follows it: a comma unless it is the last one,
/// then a line break.
pub open spec fn entry_json(rs: Seq<WorkResult>, i: int) -> Seq<char> {
    record_json(rs[i]) + if i + 1 < rs.len() {
        ",\n"@
    } else {
        "\n"@
    }
}

/// The entries of the first `k` records of `rs`, in order.
pub open spec fn entries_json(rs: Seq<WorkResult>, k: nat) -> Seq<char>
    decreases k,
{
    if k == 0 {
        Seq::empty()
    } else {
        entries_json(rs, (k - 1) as nat) + entry_json(rs, k - 1)
    }
}

/// The whole report: a JSON array of the records in the report's own order.
pub open spec fn report_json(rs: Seq<WorkResult>) -> Seq<char> {
    "[\n"@ + entries_json(rs, rs.len()) + "]"@
}

/// Appends `s` with its double quotes escaped.
fn push_escaped(out: &mut String, s: &str)
    ensures
        final(out)@ == old(out)@ + escape_quotes(s@),
{
    let n = s.unicode_len();
    let mut i: usize = 0;
    while i < n
        invariant
            n == s@.len(),
            i <= n,
            out@ == old(out)@ + escape_quotes(s@.subrange(0, i as int)),
        decreases n - i,
    {
        let c = s.get_char(i);
        if c == '"' {
            out.append("\\\"");
        } else {
            let one = s.substring_char(i, i + 1);
            assert(one@ =~= seq![c]);
            out.append(one);
        }
        assert(s@.subrange(0, i + 1).drop_last() =~= s@.subrange(0, i as int));
        i = i + 1;
    }
    assert(s@.subrange(0, n as int) =~= s@);
}

/// Appends the decimal notation of `n`.
fn push_decimal(out: &mut String, n: u64)
    ensures
        final(out)@ == old(out)@ + decimal(n as nat),
    decreases n,
{
    if n >= 10 {
        push_decimal(out, n / 10);
    }
    let d = (n % 10) as usize;
    let digits = "0123456789";
    proof {
        reveal_strlit("0123456789");
    }
    let one = digits.substring_char(d, d + 1);
    assert(one@ =~= seq![digit_char(d as nat)]);
    out.append(one);
}

/// Appends the JSON object of one record.
fn push_record(out: &mut String, r: &WorkResult)
    ensures
        final(out)@ == old(out)@ + record_json(*r),
{
    out.append("  {\n    \"url\": \"");
    push_escaped(out, r.url.as_str());
    out.append("\",\n    \"status\": ");
    match &r.outcome {
        ProbeOutcome::Success { status_code } => push_decimal(out, *status_code as u64),
        ProbeOutcome::Failure { message } => {
            out.append("\"");
            push_escaped(out, message.as_str());
            out.append("\"");
        },
    }
    out.append(",\n    \"response_time_ms\": ");
    push_decimal(out, r.elapsed_ms);
    out.append(",\n    \"timestamp\": ");
    push_decimal(out, r.observed_at);
    out.append("\n  }");
}

/// Encodes a report as a JSON array with one object per record, in the
/// report's order: the URL, the status code or the quoted failure message,
/// the response time in milliseconds and the timestamp in Unix seconds.
/// Double quotes inside the URL and the message are escaped.
pub fn generate_json(statuses: &[WorkResult]) -> (json: String)
    ensures
        json@ == report_json(statuses@),
{
    let mut json = String::new();
    json.append("[\n");
    let mut i: usize = 0;
    while i < statuses.len()
        invariant
            i <= statuses@.len(),
            json@ == "[\n"@ + entries_json(statuses@, i as nat),
        decreases statuses@.len() - i,
    {
        push_record(&mut json, &statuses[i]);
        if i + 1 < statuses.len() {
            json.append(",\n");
        } else {
            json.append("\n");
        }
        i = i + 1;
    }
    json.append("]");
    json
}

/// Encoding is a function of the report alone: two encodings of one report,
/// made at any times, are the same text.
pub proof fn lemma_encoding_repeats(report: Seq<WorkResult>, first: String, second: String)
    requires
        first@ == report_json(report),
        second@ == report_json(report),
    ensures
        first@ == second@,
{
}

} // verus!
