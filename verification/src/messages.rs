//! The fixed sample messages of the agent communication protocol, and
//! the parametric token-count message built from a repeated word.

use vstd::prelude::*;

verus! {

/// Text of the `initialize` request sample.
pub open spec fn initialize_request_spec() -> Seq<char> {
    "{\"jsonrpc\":\"2.0\",\"method\":\"initialize\",\"params\":{\"protocolVersion\":1,\"clientCapabilities\":{\"fs\":{\"readTextFile\":true,\"writeTextFile\":true},\"terminal\":true},\"clientInfo\":{\"name\":\"benchmark\",\"version\":\"1.0.0\"}},\"id\":1}"@
}

/// Text of the `session/new` request sample.
pub open spec fn session_new_request_spec() -> Seq<char> {
    "{\"jsonrpc\":\"2.0\",\"method\":\"session/new\",\"params\":{\"cwd\":\"/tmp\",\"mcpServers\":[]},\"id\":1}"@
}

/// Text of the `session/update` notification sample.
pub open spec fn session_update_notification_spec() -> Seq<char> {
    "{\"jsonrpc\":\"2.0\",\"method\":\"session/update\",\"params\":{\"sessionId\":\"sess-001\",\"update\":{\"sessionUpdate\":\"agent_message_chunk\",\"content\":{\"type\":\"text\",\"text\":\"Hello, this is a test message.\"}}}}"@
}

/// Text of the `session/prompt` request sample.
pub open spec fn prompt_request_spec() -> Seq<char> {
    "{\"jsonrpc\":\"2.0\",\"method\":\"session/prompt\",\"params\":{\"sessionId\":\"sess-001\",\"prompt\":[{\"type\":\"text\",\"text\":\"What is 2+2?\"}]},\"id\":2}"@
}

/// The sample chosen for slot `j` of the four-entry round-robin table.
pub open spec fn sample_spec(j: int) -> Seq<char> {
    if j == 0 {
        initialize_request_spec()
    } else if j == 1 {
        session_new_request_spec()
    } else if j == 2 {
        session_update_notification_spec()
    } else {
        prompt_request_spec()
    }
}

pub fn initialize_request() -> (r: &'static str)
    ensures
        r@ == initialize_request_spec(),
{
    "{\"jsonrpc\":\"2.0\",\"method\":\"initialize\",\"params\":{\"protocolVersion\":1,\"clientCapabilities\":{\"fs\":{\"readTextFile\":true,\"writeTextFile\":true},\"terminal\":true},\"clientInfo\":{\"name\":\"benchmark\",\"version\":\"1.0.0\"}},\"id\":1}"
}

pub fn session_new_request() -> (r: &'static str)
    ensures
        r@ == session_new_request_spec(),
{
    "{\"jsonrpc\":\"2.0\",\"method\":\"session/new\",\"params\":{\"cwd\":\"/tmp\",\"mcpServers\":[]},\"id\":1}"
}

pub fn session_update_notification() -> (r: &'static str)
    ensures
        r@ == session_update_notification_spec(),
{
    "{\"jsonrpc\":\"2.0\",\"method\":\"session/update\",\"params\":{\"sessionId\":\"sess-001\",\"update\":{\"sessionUpdate\":\"agent_message_chunk\",\"content\":{\"type\":\"text\",\"text\":\"Hello, this is a test message.\"}}}}"
}

pub fn prompt_request() -> (r: &'static str)
    ensures
        r@ == prompt_request_spec(),
{
    "{\"jsonrpc\":\"2.0\",\"method\":\"session/prompt\",\"params\":{\"sessionId\":\"sess-001\",\"prompt\":[{\"type\":\"text\",\"text\":\"What is 2+2?\"}]},\"id\":2}"
}

/// The round-robin selection used by the throughput and codec
/// workloads: iteration `i` works on sample `i % 4`.
pub fn sample_message(i: usize) -> (r: &'static str)
    ensures
        r@ == sample_spec((i as int) % 4),
{
    let j: usize = i % 4;
    if j == 0 {
        initialize_request()
    } else if j == 1 {
        session_new_request()
    } else if j == 2 {
        session_update_notification()
    } else {
        prompt_request()
    }
}

/// The text payload of the token-count message: `n` repetitions of the
/// word sample, each with its trailing space.
pub open spec fn word_repeat(n: nat) -> Seq<char>
    decreases n,
{
    if n == 0 {
        Seq::<char>::empty()
    } else {
        word_repeat((n - 1) as nat) + "word "@
    }
}

/// Text of the token-count `session/update` message: the repeated-word
/// payload framed by the codec's rendering of the surrounding object,
/// whose members appear in sorted key order.
pub open spec fn token_update_spec(n: nat) -> Seq<char> {
    "{\"jsonrpc\":\"2.0\",\"method\":\"session/update\",\"params\":{\"sessionId\":\"sess-001\",\"update\":{\"content\":{\"text\":\""@
        + word_repeat(n)
        + "\",\"type\":\"text\"},\"sessionUpdate\":\"agent_message_chunk\"}}}"@
}

/// Builds the token-count message for `token_count` repetitions.
pub fn make_token_update(token_count: usize) -> (s: String)
    ensures
        s@ == token_update_spec(token_count as nat),
{
    let mut s = String::from_str(
        "{\"jsonrpc\":\"2.0\",\"method\":\"session/update\",\"params\":{\"sessionId\":\"sess-001\",\"update\":{\"content\":{\"text\":\"",
    );
    let mut i: usize = 0;
    while i < token_count
        invariant
            i <= token_count,
            s@ == "{\"jsonrpc\":\"2.0\",\"method\":\"session/update\",\"params\":{\"sessionId\":\"sess-001\",\"update\":{\"content\":{\"text\":\""@
                + word_repeat(i as nat),
        decreases token_count - i,
    {
        s.append("word ");
        i += 1;
        proof {
            assert(s@ =~= "{\"jsonrpc\":\"2.0\",\"method\":\"session/update\",\"params\":{\"sessionId\":\"sess-001\",\"update\":{\"content\":{\"text\":\""@
                + word_repeat(i as nat));
        }
    }
    s.append("\",\"type\":\"text\"},\"sessionUpdate\":\"agent_message_chunk\"}}}");
    proof {
        assert(s@ =~= token_update_spec(token_count as nat));
    }
    s
}

} // verus!
