//! The benchmark modes, the rate arithmetic, and the rendering of the
//! one-line JSON report each run prints.

use crate::numfmt::dec_digits;
use crate::numfmt::is_digit_char;
use crate::numfmt::lemma_dec_digits_are_digits;
use crate::numfmt::u128_to_string;
use vstd::prelude::*;

verus! {

/// The closed set of workloads the runner can execute.
#[derive(Clone, Copy, Debug, PartialEq, Eq, Structural)]
pub enum Mode {
    ColdStart,
    Roundtrip,
    Throughput,
    Codec,
    Tokens,
}

/// The name under which each mode is requested and reported.
pub open spec fn mode_name_spec(m: Mode) -> Seq<char> {
    match m {
        Mode::ColdStart => "cold-start"@,
        Mode::Roundtrip => "roundtrip"@,
        Mode::Throughput => "throughput"@,
        Mode::Codec => "codec"@,
        Mode::Tokens => "tokens"@,
    }
}

pub fn mode_name(m: Mode) -> (r: &'static str)
    ensures
        r@ == mode_name_spec(m),
{
    match m {
        Mode::ColdStart => "cold-start",
        Mode::Roundtrip => "roundtrip",
        Mode::Throughput => "throughput",
        Mode::Codec => "codec",
        Mode::Tokens => "tokens",
    }
}

/// Whole milliseconds in a duration of `nanos` nanoseconds.
pub open spec fn millis_of(nanos: nat) -> nat {
    nanos / 1000000
}

/// The reported per-second rate for `units` events over a duration of
/// `nanos` nanoseconds. A zero duration (timer resolution below the
/// cost of one operation) substitutes a deterministic floor of
/// `units * 1000` instead of dividing by zero.
pub open spec fn rate_spec(units: nat, nanos: nat) -> nat {
    if nanos == 0 {
        units * 1000
    } else {
        units * 1000000000 / nanos
    }
}

/// Rates are natural numbers, and the zero-duration fallback is exact:
/// a duration of zero reports precisely a thousand times the unit
/// count, whatever that count is.
pub proof fn lemma_zero_duration_rate(units: nat)
    ensures
        rate_spec(units, 0) == units * 1000,
        rate_spec(units, 0) >= 0,
{
}

pub fn rate_per_sec(units: u128, nanos: u128) -> (r: u128)
    requires
        units * 1000000000 <= u128::MAX,
    ensures
        r == rate_spec(units as nat, nanos as nat),
{
    if nanos == 0 {
        units * 1000
    } else {
        units * 1000000000 / nanos
    }
}

/// The opening of every report line: the `status` member, always
/// `"ok"`, then the `mode` member naming the requested mode.
pub open spec fn header_spec(m: Mode) -> Seq<char> {
    "{\"status\":\"ok\",\"mode\":\""@ + mode_name_spec(m) + "\""@
}

/// The mode-specific members of the report line, in the order the
/// runner prints them.
pub open spec fn fields_spec(m: Mode, count: nat, tokens_per_msg: nat, nanos: nat) -> Seq<
    char,
> {
    match m {
        Mode::ColdStart => ",\"elapsed_ms\":"@ + dec_digits(millis_of(nanos)),
        Mode::Roundtrip => ",\"elapsed_ms\":"@ + dec_digits(millis_of(nanos)),
        Mode::Throughput => ",\"count\":"@ + dec_digits(count) + ",\"elapsed_ms\":"@ + dec_digits(
            millis_of(nanos),
        ) + ",\"msgs_per_sec\":"@ + dec_digits(rate_spec(count, nanos)),
        Mode::Codec => ",\"ops\":"@ + dec_digits(2 * count) + ",\"elapsed_ms\":"@ + dec_digits(
            millis_of(nanos),
        ) + ",\"ops_per_sec\":"@ + dec_digits(rate_spec(2 * count, nanos)),
        Mode::Tokens => ",\"messages\":"@ + dec_digits(count) + ",\"tokens_per_msg\":"@
            + dec_digits(tokens_per_msg) + ",\"total_tokens\":"@ + dec_digits(
            count * tokens_per_msg,
        ) + ",\"elapsed_ms\":"@ + dec_digits(millis_of(nanos)) + ",\"tokens_per_sec\":"@
            + dec_digits(rate_spec(count * tokens_per_msg, nanos)) + ",\"msgs_per_sec\":"@
            + dec_digits(rate_spec(count, nanos)),
    }
}

/// The tokens report's numeric fields are exact for every requested
/// count and tokens-per-message, with no bound on either: the total is
/// their product, the per-message field is the request itself, and
/// each zero-duration fallback is a thousand times its own unit count.
pub proof fn lemma_tokens_fields_exact(count: nat, tokens_per_msg: nat, nanos: nat)
    ensures
        fields_spec(Mode::Tokens, count, tokens_per_msg, nanos) == ",\"messages\":"@
            + dec_digits(count) + ",\"tokens_per_msg\":"@ + dec_digits(tokens_per_msg)
            + ",\"total_tokens\":"@ + dec_digits(count * tokens_per_msg) + ",\"elapsed_ms\":"@
            + dec_digits(millis_of(nanos)) + ",\"tokens_per_sec\":"@ + dec_digits(
            rate_spec(count * tokens_per_msg, nanos),
        ) + ",\"msgs_per_sec\":"@ + dec_digits(rate_spec(count, nanos)),
        rate_spec(count * tokens_per_msg, 0) == (count * tokens_per_msg) * 1000,
        rate_spec(count, 0) == count * 1000,
{
}

/// The whole report line for one run: header, mode-specific members,
/// closing brace. `count` is the requested iteration count and
/// `tokens_per_msg` the requested repetitions per message (ignored by
/// the modes that do not use them); `nanos` is the measured duration.
pub open spec fn report_line_spec(m: Mode, count: nat, tokens_per_msg: nat, nanos: nat) -> Seq<
    char,
> {
    header_spec(m) + fields_spec(m, count, tokens_per_msg, nanos) + "}"@
}

/// Renders the report line exactly as `report_line_spec` describes.
#[verifier::rlimit(50)]
pub fn report_line(m: Mode, count: usize, tokens_per_msg: usize, elapsed_nanos: u128) -> (s:
    String)
    requires
        m is Tokens ==> count * tokens_per_msg <= usize::MAX,
    ensures
        s@ == report_line_spec(m, count as nat, tokens_per_msg as nat, elapsed_nanos as nat),
{
    let ms: u128 = elapsed_nanos / 1000000;
    let mut s = String::from_str("{\"status\":\"ok\",\"mode\":\"");
    s.append(mode_name(m));
    s.append("\"");
    match m {
        Mode::ColdStart | Mode::Roundtrip => {
            s.append(",\"elapsed_ms\":");
            s.append(u128_to_string(ms).as_str());
            proof {
                assert(s@ =~= header_spec(m) + fields_spec(
                    m,
                    count as nat,
                    tokens_per_msg as nat,
                    elapsed_nanos as nat,
                ));
            }
        },
        Mode::Throughput => {
            s.append(",\"count\":");
            s.append(u128_to_string(count as u128).as_str());
            s.append(",\"elapsed_ms\":");
            s.append(u128_to_string(ms).as_str());
            s.append(",\"msgs_per_sec\":");
            s.append(u128_to_string(rate_per_sec(count as u128, elapsed_nanos)).as_str());
            proof {
                assert(s@ =~= header_spec(m) + fields_spec(
                    m,
                    count as nat,
                    tokens_per_msg as nat,
                    elapsed_nanos as nat,
                ));
            }
        },
        Mode::Codec => {
            let ops: u128 = 2 * (count as u128);
            s.append(",\"ops\":");
            s.append(u128_to_string(ops).as_str());
            s.append(",\"elapsed_ms\":");
            s.append(u128_to_string(ms).as_str());
            s.append(",\"ops_per_sec\":");
            s.append(u128_to_string(rate_per_sec(ops, elapsed_nanos)).as_str());
            proof {
                assert(s@ =~= header_spec(m) + fields_spec(
                    m,
                    count as nat,
                    tokens_per_msg as nat,
                    elapsed_nanos as nat,
                ));
            }
        },
        Mode::Tokens => {
            let total: u128 = (count as u128) * (tokens_per_msg as u128);
            s.append(",\"messages\":");
            s.append(u128_to_string(count as u128).as_str());
            s.append(",\"tokens_per_msg\":");
            s.append(u128_to_string(tokens_per_msg as u128).as_str());
            s.append(",\"total_tokens\":");
            s.append(u128_to_string(total).as_str());
            s.append(",\"elapsed_ms\":");
            s.append(u128_to_string(ms).as_str());
            s.append(",\"tokens_per_sec\":");
            s.append(u128_to_string(rate_per_sec(total, elapsed_nanos)).as_str());
            s.append(",\"msgs_per_sec\":");
            s.append(u128_to_string(rate_per_sec(count as u128, elapsed_nanos)).as_str());
            proof {
                assert(s@ =~= header_spec(m) + fields_spec(
                    m,
                    count as nat,
                    tokens_per_msg as nat,
                    elapsed_nanos as nat,
                ));
            }
        },
    }
    s.append("}");
    proof {
        assert(s@ =~= report_line_spec(
            m,
            count as nat,
            tokens_per_msg as nat,
            elapsed_nanos as nat,
        ));
    }
    s
}

/// Whether `s` holds no newline character, so that printing it with a
/// trailing newline yields exactly one line of output.
pub open spec fn single_line(s: Seq<char>) -> bool {
    forall|i: int| 0 <= i < s.len() ==> s[i] != '\n'
}

proof fn lemma_single_line_concat(a: Seq<char>, b: Seq<char>)
    requires
        single_line(a),
        single_line(b),
    ensures
        single_line(a + b),
{
    assert forall|i: int| 0 <= i < (a + b).len() implies (a + b)[i] != '\n' by {
        if i < a.len() {
            assert((a + b)[i] == a[i]);
        } else {
            assert((a + b)[i] == b[i - a.len()]);
        }
    }
}

proof fn lemma_dec_digits_single_line(n: nat)
    ensures
        single_line(dec_digits(n)),
{
    lemma_dec_digits_are_digits(n);
    assert forall|i: int| 0 <= i < dec_digits(n).len() implies dec_digits(n)[i] != '\n' by {
        assert(is_digit_char(dec_digits(n)[i]));
    }
}

/// Every report line is a single line of text; it opens with the
/// `status` member set to `"ok"` followed by the `mode` member naming
/// the requested mode, and it closes the object it opened.
pub proof fn lemma_report_line_form(m: Mode, count: nat, tokens_per_msg: nat, nanos: nat)
    ensures
        report_line_spec(m, count, tokens_per_msg, nanos) == "{\"status\":\"ok\",\"mode\":\""@
            + mode_name_spec(m) + "\""@ + fields_spec(m, count, tokens_per_msg, nanos) + "}"@,
        single_line(report_line_spec(m, count, tokens_per_msg, nanos)),
        report_line_spec(m, count, tokens_per_msg, nanos).len() > 0,
        report_line_spec(m, count, tokens_per_msg, nanos).last() == '}',
{
    reveal_strlit("{\"status\":\"ok\",\"mode\":\"");
    reveal_strlit("\"");
    reveal_strlit("}");
    reveal_strlit("cold-start");
    reveal_strlit("roundtrip");
    reveal_strlit("throughput");
    reveal_strlit("codec");
    reveal_strlit("tokens");
    reveal_strlit(",\"elapsed_ms\":");
    reveal_strlit(",\"count\":");
    reveal_strlit(",\"msgs_per_sec\":");
    reveal_strlit(",\"ops\":");
    reveal_strlit(",\"ops_per_sec\":");
    reveal_strlit(",\"messages\":");
    reveal_strlit(",\"tokens_per_msg\":");
    reveal_strlit(",\"total_tokens\":");
    reveal_strlit(",\"tokens_per_sec\":");
    assert(single_line(mode_name_spec(m))) by {
        match m {
            Mode::ColdStart => assert(single_line("cold-start"@)),
            Mode::Roundtrip => assert(single_line("roundtrip"@)),
            Mode::Throughput => assert(single_line("throughput"@)),
            Mode::Codec => assert(single_line("codec"@)),
            Mode::Tokens => assert(single_line("tokens"@)),
        }
    }
    lemma_single_line_concat("{\"status\":\"ok\",\"mode\":\""@, mode_name_spec(m));
    lemma_single_line_concat("{\"status\":\"ok\",\"mode\":\""@ + mode_name_spec(m), "\""@);
    assert(single_line(fields_spec(m, count, tokens_per_msg, nanos))) by {
        lemma_dec_digits_single_line(millis_of(nanos));
        lemma_dec_digits_single_line(count);
        lemma_dec_digits_single_line(2 * count);
        lemma_dec_digits_single_line(tokens_per_msg);
        lemma_dec_digits_single_line(count * tokens_per_msg);
        lemma_dec_digits_single_line(rate_spec(count, nanos));
        lemma_dec_digits_single_line(rate_spec(2 * count, nanos));
        lemma_dec_digits_single_line(rate_spec(count * tokens_per_msg, nanos));
        match m {
            Mode::ColdStart | Mode::Roundtrip => {
                lemma_single_line_concat(",\"elapsed_ms\":"@, dec_digits(millis_of(nanos)));
            },
            Mode::Throughput => {
                lemma_single_line_concat(",\"count\":"@, dec_digits(count));
                lemma_single_line_concat(
                    ",\"count\":"@ + dec_digits(count),
                    ",\"elapsed_ms\":"@,
                );
                lemma_single_line_concat(
                    ",\"count\":"@ + dec_digits(count) + ",\"elapsed_ms\":"@,
                    dec_digits(millis_of(nanos)),
                );
                lemma_single_line_concat(
                    ",\"count\":"@ + dec_digits(count) + ",\"elapsed_ms\":"@ + dec_digits(
                        millis_of(nanos),
                    ),
                    ",\"msgs_per_sec\":"@,
                );
                lemma_single_line_concat(
                    ",\"count\":"@ + dec_digits(count) + ",\"elapsed_ms\":"@ + dec_digits(
                        millis_of(nanos),
                    ) + ",\"msgs_per_sec\":"@,
                    dec_digits(rate_spec(count, nanos)),
                );
            },
            Mode::Codec => {
                lemma_single_line_concat(",\"ops\":"@, dec_digits(2 * count));
                lemma_single_line_concat(
                    ",\"ops\":"@ + dec_digits(2 * count),
                    ",\"elapsed_ms\":"@,
                );
                lemma_single_line_concat(
                    ",\"ops\":"@ + dec_digits(2 * count) + ",\"elapsed_ms\":"@,
                    dec_digits(millis_of(nanos)),
                );
                lemma_single_line_concat(
                    ",\"ops\":"@ + dec_digits(2 * count) + ",\"elapsed_ms\":"@ + dec_digits(
                        millis_of(nanos),
                    ),
                    ",\"ops_per_sec\":"@,
                );
                lemma_single_line_concat(
                    ",\"ops\":"@ + dec_digits(2 * count) + ",\"elapsed_ms\":"@ + dec_digits(
                        millis_of(nanos),
                    ) + ",\"ops_per_sec\":"@,
                    dec_digits(rate_spec(2 * count, nanos)),
                );
            },
            Mode::Tokens => {
                let a1 = ",\"messages\":"@ + dec_digits(count);
                let a2 = a1 + ",\"tokens_per_msg\":"@;
                let a3 = a2 + dec_digits(tokens_per_msg);
                let a4 = a3 + ",\"total_tokens\":"@;
                let a5 = a4 + dec_digits(count * tokens_per_msg);
                let a6 = a5 + ",\"elapsed_ms\":"@;
                let a7 = a6 + dec_digits(millis_of(nanos));
                let a8 = a7 + ",\"tokens_per_sec\":"@;
                let a9 = a8 + dec_digits(rate_spec(count * tokens_per_msg, nanos));
                let a10 = a9 + ",\"msgs_per_sec\":"@;
                lemma_single_line_concat(",\"messages\":"@, dec_digits(count));
                lemma_single_line_concat(a1, ",\"tokens_per_msg\":"@);
                lemma_single_line_concat(a2, dec_digits(tokens_per_msg));
                lemma_single_line_concat(a3, ",\"total_tokens\":"@);
                lemma_single_line_concat(a4, dec_digits(count * tokens_per_msg));
                lemma_single_line_concat(a5, ",\"elapsed_ms\":"@);
                lemma_single_line_concat(a6, dec_digits(millis_of(nanos)));
                lemma_single_line_concat(a7, ",\"tokens_per_sec\":"@);
                lemma_single_line_concat(a8, dec_digits(rate_spec(count * tokens_per_msg, nanos)));
                lemma_single_line_concat(a9, ",\"msgs_per_sec\":"@);
                lemma_single_line_concat(a10, dec_digits(rate_spec(count, nanos)));
                assert(fields_spec(m, count, tokens_per_msg, nanos) =~= a10 + dec_digits(
                    rate_spec(count, nanos),
                ));
            },
        }
    }
    lemma_single_line_concat(header_spec(m), fields_spec(m, count, tokens_per_msg, nanos));
    lemma_single_line_concat(
        header_spec(m) + fields_spec(m, count, tokens_per_msg, nanos),
        "}"@,
    );
}

} // verus!
