//! The rules of the shell-command tool: its time limit, its messages, and
//! how its output is cut and reported.
use vstd::prelude::*;
use vstd::string::*;
use vstd::utf8::{encode_utf8, decode_utf8, is_char_boundary};

use crate::text::{owned, concat2, concat3, decimal, decimal_string, signed_decimal, signed_decimal_string};

verus! {

/// The time limit in seconds when a call names none.
pub const DEFAULT_TIMEOUT_SECS: u64 = 120;

/// The longest time limit in seconds that a call may ask for.
pub const MAX_TIMEOUT_SECS: u64 = 900;

/// The most bytes of each output stream that a report holds.
pub const MAX_OUTPUT_BYTES: usize = 200_000;

/// The time limit of a run: the one asked for, or the default, and never
/// more than the maximum.
pub fn effective_timeout(requested: Option<u64>) -> (secs: u64)
    ensures
        secs == match requested {
            Some(t) => if t < MAX_TIMEOUT_SECS {
                t
            } else {
                MAX_TIMEOUT_SECS
            },
            None => DEFAULT_TIMEOUT_SECS,
        },
        secs <= MAX_TIMEOUT_SECS,
{
    let t = match requested {
        Some(t) => t,
        None => DEFAULT_TIMEOUT_SECS,
    };
    if t < MAX_TIMEOUT_SECS {
        t
    } else {
        MAX_TIMEOUT_SECS
    }
}

/// The message for a working directory that is not a directory.
pub fn not_a_directory_message(repo_path: &str) -> (r: String)
    ensures
        r@ == repo_path@ + " is not a directory"@,
{
    concat2(repo_path, " is not a directory")
}

/// The message for a run that reached its time limit.
pub open spec fn timeout_message_model(secs: u64) -> Seq<char> {
    "command timed out after "@ + decimal(secs as nat)
        + "s \u{2014} command was still running and was not left to complete; if this is expected to take longer, pass a higher timeout_secs (max "@
        + decimal(MAX_TIMEOUT_SECS as nat)
        + "), or if it hung, the command itself is the problem, not the timeout"@
}

/// The message for a run stopped after `secs` seconds.
pub fn timeout_message(secs: u64) -> (r: String)
    ensures
        r@ == timeout_message_model(secs),
{
    let d = decimal_string(secs);
    let mut r = concat2("command timed out after ", d.as_str());
    r.append(
        "s \u{2014} command was still running and was not left to complete; if this is expected to take longer, pass a higher timeout_secs (max ",
    );
    let m = decimal_string(MAX_TIMEOUT_SECS);
    r.append(m.as_str());
    r.append("), or if it hung, the command itself is the problem, not the timeout");
    r
}

/// The number of bytes of the UTF-8 form of `s`.
pub open spec fn utf8_len(s: Seq<char>) -> nat {
    encode_utf8(s).len()
}

/// An output stream as the report holds it: as it is when it is short
/// enough, otherwise its first `MAX_OUTPUT_BYTES` bytes and a note that names
/// the stream.
pub open spec fn capped_model(s: Seq<char>, label: Seq<char>) -> Seq<char> {
    if utf8_len(s) > MAX_OUTPUT_BYTES {
        decode_utf8(encode_utf8(s).take(MAX_OUTPUT_BYTES as int)) + "\n... ["@ + label + " truncated]"@
    } else {
        s
    }
}

/// The output `s` cut to `MAX_OUTPUT_BYTES` bytes, with a note naming
/// `label` when it was cut.  The cut must fall on a character boundary.
pub fn cap_output(s: &str, label: &str) -> (r: String)
    requires
        utf8_len(s@) <= usize::MAX,
        utf8_len(s@) > MAX_OUTPUT_BYTES ==> is_char_boundary(encode_utf8(s@), MAX_OUTPUT_BYTES as int),
    ensures
        r@ == capped_model(s@, label@),
{
    if s.len() > MAX_OUTPUT_BYTES {
        let (head, _rest) = s.split_at(MAX_OUTPUT_BYTES);
        proof {
            vstd::utf8::encode_utf8_decode_utf8(head@);
            assert(encode_utf8(s@).take(MAX_OUTPUT_BYTES as int) =~= encode_utf8(s@).subrange(
                0,
                MAX_OUTPUT_BYTES as int,
            ));
        }
        let mut r = owned(head);
        r.append("\n... [");
        r.append(label);
        r.append(" truncated]");
        r
    } else {
        owned(s)
    }
}

/// The report of a finished run: its exit code (`-1` when it has none) and
/// both output streams, each cut to its limit.
pub open spec fn exec_report_model(code: Option<i32>, stdout: Seq<char>, stderr: Seq<char>) -> Seq<
    char,
> {
    "exit_code: "@ + signed_decimal(
        match code {
            Some(c) => c as int,
            None => -1,
        },
    ) + "\n--- stdout ---\n"@ + capped_model(stdout, "stdout"@) + "\n--- stderr ---\n"@
        + capped_model(stderr, "stderr"@)
}

/// What a report says of a run.  It begins with the run's own exit code,
/// and with `-1` only for a run that has none; then come both output
/// streams, each as it is when it holds at most `MAX_OUTPUT_BYTES` bytes,
/// and otherwise with a note that it was cut, naming the stream.
pub proof fn lemma_exec_report_reads_the_run(code: Option<i32>, out: Seq<char>, err: Seq<char>)
    ensures
        code matches Some(c) ==> exec_report_model(code, out, err).take(
            ("exit_code: "@ + signed_decimal(c as int) + "\n"@).len() as int,
        ) == "exit_code: "@ + signed_decimal(c as int) + "\n"@,
        code is None ==> exec_report_model(code, out, err).take(14) == "exit_code: -1\n"@,
        utf8_len(out) <= MAX_OUTPUT_BYTES && utf8_len(err) <= MAX_OUTPUT_BYTES ==> exec_report_model(
            code,
            out,
            err,
        ) == "exit_code: "@ + signed_decimal(
            match code {
                Some(c) => c as int,
                None => -1int,
            },
        ) + "\n--- stdout ---\n"@ + out + "\n--- stderr ---\n"@ + err,
        utf8_len(out) > MAX_OUTPUT_BYTES ==> capped_model(out, "stdout"@).skip(
            capped_model(out, "stdout"@).len() - 23,
        ) == "\n... [stdout truncated]"@,
        utf8_len(err) > MAX_OUTPUT_BYTES ==> capped_model(err, "stderr"@).skip(
            capped_model(err, "stderr"@).len() - 23,
        ) == "\n... [stderr truncated]"@,
{
    reveal_strlit("exit_code: ");
    reveal_strlit("\n");
    reveal_strlit("\n--- stdout ---\n");
    reveal_strlit("exit_code: -1\n");
    reveal_strlit("\n... [");
    reveal_strlit(" truncated]");
    reveal_strlit("stdout");
    reveal_strlit("stderr");
    reveal_strlit("\n... [stdout truncated]");
    reveal_strlit("\n... [stderr truncated]");
    let n: int = match code {
        Some(c) => c as int,
        None => -1int,
    };
    let rest = "\n--- stdout ---\n"@.drop_first() + capped_model(out, "stdout"@) + "\n--- stderr ---\n"@
        + capped_model(err, "stderr"@);
    let head = "exit_code: "@ + signed_decimal(n) + "\n"@;
    assert(exec_report_model(code, out, err) =~= head + rest);
    assert((head + rest).take(head.len() as int) =~= head);
    if code is None {
        assert(signed_decimal(-1) =~= seq!['-', '1']) by {
            assert(decimal(1) =~= seq!['1']);
        }
        assert(head =~= "exit_code: -1\n"@);
    }
    if utf8_len(out) > MAX_OUTPUT_BYTES {
        let c = capped_model(out, "stdout"@);
        let h = decode_utf8(encode_utf8(out).take(MAX_OUTPUT_BYTES as int));
        assert(c =~= h + "\n... [stdout truncated]"@);
        assert(c.skip(c.len() - 23) =~= "\n... [stdout truncated]"@);
    }
    if utf8_len(err) > MAX_OUTPUT_BYTES {
        let c = capped_model(err, "stderr"@);
        let h = decode_utf8(encode_utf8(err).take(MAX_OUTPUT_BYTES as int));
        assert(c =~= h + "\n... [stderr truncated]"@);
        assert(c.skip(c.len() - 23) =~= "\n... [stderr truncated]"@);
    }
}

/// The report of a finished run.
pub fn exec_report(code: Option<i32>, stdout: &str, stderr: &str) -> (r: String)
    requires
        utf8_len(stdout@) <= usize::MAX,
        utf8_len(stderr@) <= usize::MAX,
        utf8_len(stdout@) > MAX_OUTPUT_BYTES ==> is_char_boundary(
            encode_utf8(stdout@),
            MAX_OUTPUT_BYTES as int,
        ),
        utf8_len(stderr@) > MAX_OUTPUT_BYTES ==> is_char_boundary(
            encode_utf8(stderr@),
            MAX_OUTPUT_BYTES as int,
        ),
    ensures
        r@ == exec_report_model(code, stdout@, stderr@),
{
    let exit_code: i32 = match code {
        Some(c) => c,
        None => -1,
    };
    let out = cap_output(stdout, "stdout");
    let err = cap_output(stderr, "stderr");
    let d = signed_decimal_string(exit_code as i64);
    let mut r = concat3("exit_code: ", d.as_str(), "\n--- stdout ---\n");
    r.append(out.as_str());
    r.append("\n--- stderr ---\n");
    r.append(err.as_str());
    r
}

} // verus!
