//! Wire representation shared with the remote runner: the status tokens
//! and the JSON text of a job-creation request.
//!
//! The tokens and the escaping rules below must match the runner's JSON
//! exactly; the round-trip lemmas pin the token mapping down in both
//! directions.

use vstd::prelude::*;
use crate::job::CreateJobRequest;
use crate::job::JobStatus;

verus! {

/// The wire token of a status: lowercase with underscores.
pub open spec fn spec_status_token(s: JobStatus) -> Seq<char> {
    match s {
        JobStatus::Queued => "queued"@,
        JobStatus::Coding => "coding"@,
        JobStatus::Patching => "patching"@,
        JobStatus::Testing => "testing"@,
        JobStatus::PrOpened => "pr_opened"@,
        JobStatus::Failed => "failed"@,
        JobStatus::Cancelled => "cancelled"@,
    }
}

/// The status a wire token denotes, if any: the exact inverse of
/// `spec_status_token`.
pub open spec fn spec_status_from_token(t: Seq<char>) -> Option<JobStatus> {
    if t == "queued"@ {
        Some(JobStatus::Queued)
    } else if t == "coding"@ {
        Some(JobStatus::Coding)
    } else if t == "patching"@ {
        Some(JobStatus::Patching)
    } else if t == "testing"@ {
        Some(JobStatus::Testing)
    } else if t == "pr_opened"@ {
        Some(JobStatus::PrOpened)
    } else if t == "failed"@ {
        Some(JobStatus::Failed)
    } else if t == "cancelled"@ {
        Some(JobStatus::Cancelled)
    } else {
        None
    }
}

impl JobStatus {
    /// The token this status serializes to.
    pub fn token(&self) -> (r: &'static str)
        ensures
            r@ == spec_status_token(*self),
    {
        match self {
            JobStatus::Queued => "queued",
            JobStatus::Coding => "coding",
            JobStatus::Patching => "patching",
            JobStatus::Testing => "testing",
            JobStatus::PrOpened => "pr_opened",
            JobStatus::Failed => "failed",
            JobStatus::Cancelled => "cancelled",
        }
    }

    /// The status a token deserializes to; `None` on any other text.
    pub fn from_token(t: &str) -> (r: Option<JobStatus>)
        ensures
            r == spec_status_from_token(t@),
    {
        if str_equal(t, "queued") {
            Some(JobStatus::Queued)
        } else if str_equal(t, "coding") {
            Some(JobStatus::Coding)
        } else if str_equal(t, "patching") {
            Some(JobStatus::Patching)
        } else if str_equal(t, "testing") {
            Some(JobStatus::Testing)
        } else if str_equal(t, "pr_opened") {
            Some(JobStatus::PrOpened)
        } else if str_equal(t, "failed") {
            Some(JobStatus::Failed)
        } else if str_equal(t, "cancelled") {
            Some(JobStatus::Cancelled)
        } else {
            None
        }
    }
}

/// Every status token deserializes back to the status it came from.
pub proof fn lemma_status_token_round_trip(s: JobStatus)
    ensures
        spec_status_from_token(spec_status_token(s)) == Some(s),
{
    reveal_strlit("queued");
    reveal_strlit("coding");
    reveal_strlit("patching");
    reveal_strlit("testing");
    reveal_strlit("pr_opened");
    reveal_strlit("failed");
    reveal_strlit("cancelled");
    assert("queued"@.len() == 6);
    assert("coding"@.len() == 6);
    assert("patching"@.len() == 8);
    assert("testing"@.len() == 7);
    assert("pr_opened"@.len() == 9);
    assert("failed"@.len() == 6);
    assert("cancelled"@.len() == 9);
    assert("queued"@[0] == 'q');
    assert("coding"@[0] == 'c');
    assert("failed"@[0] == 'f');
    assert("cancelled"@[1] == 'a');
    assert("pr_opened"@[1] == 'r');
}

/// A text that deserializes to a status is that status's token: the
/// reserialization of any accepted token is the token itself.
pub proof fn lemma_status_token_reserialize(t: Seq<char>, s: JobStatus)
    requires
        spec_status_from_token(t) == Some(s),
    ensures
        spec_status_token(s) == t,
{
    reveal_strlit("queued");
    reveal_strlit("coding");
    reveal_strlit("patching");
    reveal_strlit("testing");
    reveal_strlit("pr_opened");
    reveal_strlit("failed");
    reveal_strlit("cancelled");
}

/// Character-by-character string comparison, proved equivalent to
/// equality of the views.
pub fn str_equal(a: &str, b: &str) -> (r: bool)
    ensures
        r == (a@ == b@),
{
    let a_len = a.unicode_len();
    let b_len = b.unicode_len();
    if a_len != b_len {
        return false;
    }
    let mut i: usize = 0;
    while i < a_len
        invariant
            a_len == a@.len(),
            a_len == b@.len(),
            i <= a_len,
            forall|j: int| 0 <= j < i ==> a@[j] == b@[j],
        decreases a_len - i,
    {
        if a.get_char(i) != b.get_char(i) {
            return false;
        }
        i = i + 1;
    }
    proof {
        assert(a@ =~= b@);
    }
    true
}

/// The lowercase hex digit of a value below 16.
pub open spec fn spec_hex_digit(n: int) -> char {
    if n == 0 {
        '0'
    } else if n == 1 {
        '1'
    } else if n == 2 {
        '2'
    } else if n == 3 {
        '3'
    } else if n == 4 {
        '4'
    } else if n == 5 {
        '5'
    } else if n == 6 {
        '6'
    } else if n == 7 {
        '7'
    } else if n == 8 {
        '8'
    } else if n == 9 {
        '9'
    } else if n == 10 {
        'a'
    } else if n == 11 {
        'b'
    } else if n == 12 {
        'c'
    } else if n == 13 {
        'd'
    } else if n == 14 {
        'e'
    } else {
        'f'
    }
}

/// How one character appears inside a JSON string literal: quote and
/// backslash get a backslash escape, the named control characters get
/// their short escapes, every other control character becomes a
/// `\u00..` escape, and everything else stands for itself.
pub open spec fn spec_escape_char(c: char) -> Seq<char> {
    if c == '"' {
        seq!['\\', '"']
    } else if c == '\\' {
        seq!['\\', '\\']
    } else if (c as u32) == 8 {
        seq!['\\', 'b']
    } else if (c as u32) == 9 {
        seq!['\\', 't']
    } else if (c as u32) == 10 {
        seq!['\\', 'n']
    } else if (c as u32) == 12 {
        seq!['\\', 'f']
    } else if (c as u32) == 13 {
        seq!['\\', 'r']
    } else if (c as u32) < 32 {
        seq!['\\', 'u', '0', '0', spec_hex_digit((c as u32) as int / 16), spec_hex_digit(
            (c as u32) as int % 16,
        )]
    } else {
        seq![c]
    }
}

/// The escaped body of a JSON string literal.
pub open spec fn spec_escape(s: Seq<char>) -> Seq<char>
    decreases s.len(),
{
    if s.len() == 0 {
        Seq::empty()
    } else {
        spec_escape_char(s[0]) + spec_escape(s.skip(1))
    }
}

/// A whole JSON string literal: the escaped body between two quotes.
pub open spec fn spec_json_string(s: Seq<char>) -> Seq<char> {
    seq!['"'] + spec_escape(s) + seq!['"']
}

/// The JSON document of a job-creation request: an object with the
/// fields `task`, `repo` and `dry_run`, in that order, with no spacing.
pub open spec fn spec_create_job_json(task: Seq<char>, repo: Seq<char>, dry_run: bool) -> Seq<
    char,
> {
    "{\"task\":"@ + spec_json_string(task) + ",\"repo\":"@ + spec_json_string(repo)
        + ",\"dry_run\":"@ + (if dry_run {
        "true"@
    } else {
        "false"@
    }) + "}"@
}

/// Relies on std's `String::push`: appends the given character to the
/// end of the string.
#[verifier::external_body]
fn push_char(out: &mut String, c: char)
    ensures
        final(out)@ == old(out)@ + seq![c],
{
    out.push(c);
}

/// The lowercase hex digit of a value below 16.
fn hex_digit(n: u8) -> (r: char)
    requires
        n < 16,
    ensures
        r == spec_hex_digit(n as int),
{
    if n == 0 {
        '0'
    } else if n == 1 {
        '1'
    } else if n == 2 {
        '2'
    } else if n == 3 {
        '3'
    } else if n == 4 {
        '4'
    } else if n == 5 {
        '5'
    } else if n == 6 {
        '6'
    } else if n == 7 {
        '7'
    } else if n == 8 {
        '8'
    } else if n == 9 {
        '9'
    } else if n == 10 {
        'a'
    } else if n == 11 {
        'b'
    } else if n == 12 {
        'c'
    } else if n == 13 {
        'd'
    } else if n == 14 {
        'e'
    } else {
        'f'
    }
}

/// Appends the escaped form of one character.
fn escape_char_into(out: &mut String, c: char)
    ensures
        final(out)@ == old(out)@ + spec_escape_char(c),
{
    if c == '"' {
        out.append("\\\"");
        proof {
            reveal_strlit("\\\"");
            assert("\\\""@ =~= seq!['\\', '"']);
        }
    } else if c == '\\' {
        out.append("\\\\");
        proof {
            reveal_strlit("\\\\");
            assert("\\\\"@ =~= seq!['\\', '\\']);
        }
    } else {
        let code = c as u32;
        if code == 8 {
            out.append("\\b");
            proof {
                reveal_strlit("\\b");
                assert("\\b"@ =~= seq!['\\', 'b']);
            }
        } else if code == 9 {
            out.append("\\t");
            proof {
                reveal_strlit("\\t");
                assert("\\t"@ =~= seq!['\\', 't']);
            }
        } else if code == 10 {
            out.append("\\n");
            proof {
                reveal_strlit("\\n");
                assert("\\n"@ =~= seq!['\\', 'n']);
            }
        } else if code == 12 {
            out.append("\\f");
            proof {
                reveal_strlit("\\f");
                assert("\\f"@ =~= seq!['\\', 'f']);
            }
        } else if code == 13 {
            out.append("\\r");
            proof {
                reveal_strlit("\\r");
                assert("\\r"@ =~= seq!['\\', 'r']);
            }
        } else if code < 32 {
            out.append("\\u00");
            push_char(out, hex_digit((code / 16) as u8));
            push_char(out, hex_digit((code % 16) as u8));
            proof {
                reveal_strlit("\\u00");
                assert("\\u00"@ =~= seq!['\\', 'u', '0', '0']);
                assert(final(out)@ =~= old(out)@ + spec_escape_char(c));
            }
        } else {
            push_char(out, c);
        }
    }
}

/// Appends the escaped body of a string.
fn escape_into(out: &mut String, s: &str)
    ensures
        final(out)@ == old(out)@ + spec_escape(s@),
{
    let n = s.unicode_len();
    proof {
        assert(s@.skip(0) =~= s@);
    }
    let mut i: usize = 0;
    while i < n
        invariant
            n == s@.len(),
            i <= n,
            out@ + spec_escape(s@.skip(i as int)) == old(out)@ + spec_escape(s@),
        decreases n - i,
    {
        let c = s.get_char(i);
        proof {
            assert(s@.skip(i as int)[0] == s@[i as int]);
            assert(s@.skip(i as int).skip(1) =~= s@.skip(i as int + 1));
            assert(spec_escape(s@.skip(i as int)) == spec_escape_char(c) + spec_escape(
                s@.skip(i as int + 1),
            ));
        }
        let ghost out_before = out@;
        escape_char_into(out, c);
        proof {
            assert(out@ + spec_escape(s@.skip(i as int + 1)) =~= out_before + spec_escape(
                s@.skip(i as int),
            ));
        }
        i = i + 1;
    }
    proof {
        assert(s@.skip(n as int) =~= Seq::<char>::empty());
        assert(out@ =~= out@ + spec_escape(s@.skip(n as int)));
    }
}

/// Appends a whole JSON string literal.
fn json_string_into(out: &mut String, s: &str)
    ensures
        final(out)@ == old(out)@ + spec_json_string(s@),
{
    proof {
        reveal_strlit("\"");
        assert("\""@ =~= seq!['"']);
    }
    out.append("\"");
    escape_into(out, s);
    out.append("\"");
    proof {
        assert(out@ =~= old(out)@ + spec_json_string(s@));
    }
}

/// The exact JSON text that a job-creation request is sent as.
pub fn encode_create_job_request(request: &CreateJobRequest) -> (r: String)
    ensures
        r@ == spec_create_job_json(request.task@, request.repo@, request.dry_run),
{
    let mut out = String::new();
    out.append("{\"task\":");
    json_string_into(&mut out, request.task.as_str());
    out.append(",\"repo\":");
    json_string_into(&mut out, request.repo.as_str());
    out.append(",\"dry_run\":");
    if request.dry_run {
        out.append("true");
    } else {
        out.append("false");
    }
    out.append("}");
    proof {
        assert(out@ =~= spec_create_job_json(request.task@, request.repo@, request.dry_run));
    }
    out
}

} // verus!
