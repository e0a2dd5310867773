//! The timed workloads: what each benchmark mode does between starting
//! and stopping its timer.

use crate::codec::echo_response_number;
use crate::codec::echo_response_string;
use crate::codec::echo_response_text;
use crate::codec::fresh_response_string;
use crate::codec::fresh_response_text;
use crate::codec::json_parses;
use crate::codec::number_member_text;
use crate::codec::parse_json;
use crate::codec::plain_text;
use crate::codec::string_member_text;
use crate::messages::initialize_request;
use crate::messages::initialize_request_spec;
use crate::messages::sample_message;
use crate::messages::sample_spec;
use crate::messages::session_new_request;
use crate::messages::session_new_request_spec;
use vstd::prelude::*;

verus! {

/// How a workload failed. All message texts are fixed, well-formed
/// JSON and the codec's rendering cannot fail, so the one variant is
/// unreachable in practice; the policy for it is to abort the run.
#[derive(Clone, Copy, Debug, PartialEq, Eq, Structural)]
pub enum BenchError {
    /// The codec rejected a message text.
    Decode,
}

/// The cold-start workload: decode the `initialize` sample and encode
/// a response echoing its `id` under `result.protocolVersion`.
/// Succeeds exactly when the sample decodes, and then returns the
/// codec's exact rendering of that response.
pub fn cold_start_workload() -> (r: Result<String, BenchError>)
    ensures
        r is Ok <==> json_parses(initialize_request_spec()),
        r matches Ok(s) ==> s@ == echo_response_text(
            initialize_request_spec(),
            number_member_text("protocolVersion"@, 1),
        ),
{
    proof {
        reveal_strlit("protocolVersion");
        assert(plain_text("protocolVersion"@));
    }
    match echo_response_number(initialize_request(), "protocolVersion", 1) {
        Ok(s) => Ok(s),
        Err(_) => Err(BenchError::Decode),
    }
}

/// The roundtrip workload: decode the `session/new` sample and encode
/// a response echoing its `id` under `result.sessionId`. Succeeds
/// exactly when the sample decodes, and then returns the codec's exact
/// rendering of that response.
pub fn roundtrip_workload() -> (r: Result<String, BenchError>)
    ensures
        r is Ok <==> json_parses(session_new_request_spec()),
        r matches Ok(s) ==> s@ == echo_response_text(
            session_new_request_spec(),
            string_member_text("sessionId"@, "sess-benchmark"@),
        ),
{
    proof {
        reveal_strlit("sessionId");
        reveal_strlit("sess-benchmark");
        assert(plain_text("sessionId"@));
        assert(plain_text("sess-benchmark"@));
    }
    match echo_response_string(session_new_request(), "sessionId", "sess-benchmark") {
        Ok(s) => Ok(s),
        Err(_) => Err(BenchError::Decode),
    }
}

/// The throughput workload: decode `count` samples, cycling through
/// the four-entry table, counting each successful decode. Succeeds
/// exactly when every decoded sample parses, and then reports exactly
/// `count` decoded messages.
pub fn throughput_workload(count: usize) -> (r: Result<usize, BenchError>)
    ensures
        r is Ok <==> forall|j: int| 0 <= j < count ==> json_parses(#[trigger] sample_spec(j % 4)),
        r matches Ok(n) ==> n == count,
{
    let mut decoded: usize = 0;
    let mut i: usize = 0;
    while i < count
        invariant
            i <= count,
            decoded == i,
            forall|j: int| 0 <= j < i ==> json_parses(#[trigger] sample_spec(j % 4)),
        decreases count - i,
    {
        let msg = sample_message(i);
        match parse_json(msg) {
            Ok(_) => {},
            Err(_) => {
                proof {
                    assert(!json_parses(sample_spec((i as int) % 4)));
                }
                return Err(BenchError::Decode);
            },
        }
        decoded += 1;
        i += 1;
    }
    Ok(decoded)
}

/// One iteration of the codec workload: decode the sample cycled in
/// for index `i`, then encode the fresh response keyed by `i`.
/// Succeeds exactly when that sample decodes, and then returns the
/// codec's exact rendering of the response whose `id` is `i` and
/// whose result member is `sessionId: "sess-bench"`.
pub fn codec_iteration(i: usize) -> (r: Result<String, BenchError>)
    ensures
        r is Ok <==> json_parses(sample_spec((i as int) % 4)),
        r matches Ok(s) ==> s@ == fresh_response_text(
            string_member_text("sessionId"@, "sess-bench"@),
            i as nat,
        ),
{
    let msg = sample_message(i);
    match parse_json(msg) {
        Ok(_) => {},
        Err(_) => { return Err(BenchError::Decode) },
    }
    proof {
        reveal_strlit("sessionId");
        reveal_strlit("sess-bench");
        assert(plain_text("sessionId"@));
        assert(plain_text("sess-bench"@));
    }
    Ok(fresh_response_string("sessionId", "sess-bench", i as u64))
}

/// The codec workload: for each of `count` iterations, decode the
/// cycled sample and encode a fresh synthetic response keyed by the
/// loop index (see `codec_iteration`); each decode and each encode
/// counts as one operation. Succeeds exactly when every decoded
/// sample parses, and then reports exactly `2 * count` operations.
pub fn codec_workload(count: usize) -> (r: Result<usize, BenchError>)
    requires
        2 * count <= usize::MAX,
    ensures
        r is Ok <==> forall|j: int| 0 <= j < count ==> json_parses(#[trigger] sample_spec(j % 4)),
        r matches Ok(n) ==> n == 2 * count,
{
    let mut ops: usize = 0;
    let mut i: usize = 0;
    while i < count
        invariant
            i <= count,
            2 * count <= usize::MAX,
            ops == 2 * i,
            forall|j: int| 0 <= j < i ==> json_parses(#[trigger] sample_spec(j % 4)),
        decreases count - i,
    {
        match codec_iteration(i) {
            Ok(_) => {},
            Err(_) => {
                proof {
                    assert(!json_parses(sample_spec((i as int) % 4)));
                }
                return Err(BenchError::Decode);
            },
        }
        ops += 2;
        i += 1;
    }
    Ok(ops)
}

/// The token workload: decode the one prepared message `count` times,
/// crediting `tokens_per_msg` tokens per decoded message. Succeeds
/// exactly when nothing had to be decoded or the message decodes, and
/// then reports precisely `count` messages and `count * tokens_per_msg`
/// total tokens.
pub fn tokens_workload(count: usize, message: &str, tokens_per_msg: usize) -> (r: Result<
    (usize, usize),
    BenchError,
>)
    requires
        count * tokens_per_msg <= usize::MAX,
    ensures
        r is Ok <==> (count == 0 || json_parses(message@)),
        r matches Ok(p) ==> p.0 == count && p.1 == count * tokens_per_msg,
{
    let mut decoded: usize = 0;
    let mut total_tokens: usize = 0;
    let mut i: usize = 0;
    while i < count
        invariant
            i <= count,
            decoded == i,
            total_tokens == i * tokens_per_msg,
            count * tokens_per_msg <= usize::MAX,
            i > 0 ==> json_parses(message@),
        decreases count - i,
    {
        match parse_json(message) {
            Ok(_) => {},
            Err(_) => { return Err(BenchError::Decode) },
        }
        proof {
            assert(i * tokens_per_msg + tokens_per_msg <= count * tokens_per_msg
                && (i + 1) * tokens_per_msg == i * tokens_per_msg + tokens_per_msg)
                by (nonlinear_arith)
                requires
                    0 <= i < count,
                    0 <= tokens_per_msg,
            ;
        }
        decoded += 1;
        total_tokens += tokens_per_msg;
        i += 1;
    }
    Ok((decoded, total_tokens))
}

} // verus!
