use acp_bench::messages::make_token_update;
use acp_bench::messages::sample_message;
use acp_bench::numfmt::u128_to_string;
use acp_bench::report::report_line;
use acp_bench::report::mode_name;
use acp_bench::report::Mode;
use acp_bench::workload::cold_start_workload;
use acp_bench::workload::codec_iteration;
use acp_bench::workload::codec_workload;
use acp_bench::workload::roundtrip_workload;
use acp_bench::workload::throughput_workload;
use acp_bench::workload::tokens_workload;
use acp_bench::workload::BenchError;

fn parse(line: &str) -> serde_json::Value {
    serde_json::from_str::<serde_json::Value>(line).expect("line must be valid JSON")
}

#[test]
fn every_mode_reports_ok_status_and_its_name() {
    let modes = [
        Mode::ColdStart,
        Mode::Roundtrip,
        Mode::Throughput,
        Mode::Codec,
        Mode::Tokens,
    ];
    for mode in modes {
        let line = report_line(mode, 3, 2, 5_000_000);
        assert!(!line.contains('\n'));
        let v = parse(&line);
        assert_eq!(v["status"].as_str(), Some("ok"));
        assert_eq!(v["mode"].as_str(), Some(mode_name(mode)));
    }
}

#[test]
fn mode_names_match_the_cli_surface() {
    assert_eq!(mode_name(Mode::ColdStart), "cold-start");
    assert_eq!(mode_name(Mode::Roundtrip), "roundtrip");
    assert_eq!(mode_name(Mode::Throughput), "throughput");
    assert_eq!(mode_name(Mode::Codec), "codec");
    assert_eq!(mode_name(Mode::Tokens), "tokens");
}

#[test]
fn throughput_counts_every_iteration() {
    assert_eq!(throughput_workload(0), Ok(0));
    assert_eq!(throughput_workload(1), Ok(1));
    assert_eq!(throughput_workload(7), Ok(7));
    assert_eq!(throughput_workload(100), Ok(100));
}

#[test]
fn codec_counts_two_operations_per_iteration() {
    assert_eq!(codec_workload(0), Ok(0));
    assert_eq!(codec_workload(1), Ok(2));
    assert_eq!(codec_workload(7), Ok(14));
    assert_eq!(codec_workload(100), Ok(200));
}

#[test]
fn tokens_totals_are_exact_products() {
    let message = make_token_update(5);
    assert_eq!(tokens_workload(10, &message, 5), Ok((10, 50)));
    assert_eq!(tokens_workload(0, &message, 5), Ok((0, 0)));
    let empty_payload = make_token_update(0);
    assert_eq!(tokens_workload(3, &empty_payload, 0), Ok((3, 0)));
}

#[test]
fn rejected_message_text_reports_a_decode_error() {
    assert_eq!(tokens_workload(3, "not json", 2), Err(BenchError::Decode));
    assert_eq!(tokens_workload(3, "{\"unterminated\":", 2), Err(BenchError::Decode));
    // Nothing is decoded when no iterations run, so nothing can fail.
    assert_eq!(tokens_workload(0, "not json", 2), Ok((0, 0)));
}

#[test]
fn zero_duration_rates_fall_back_to_a_thousand_per_unit() {
    let line = report_line(Mode::Throughput, 4, 0, 0);
    assert!(line.contains("\"msgs_per_sec\":4000"));
    assert!(line.contains("\"elapsed_ms\":0"));
    let line = report_line(Mode::Codec, 4, 0, 0);
    assert!(line.contains("\"ops\":8"));
    assert!(line.contains("\"ops_per_sec\":8000"));
    let line = report_line(Mode::Tokens, 10, 5, 0);
    assert!(line.contains("\"tokens_per_sec\":50000"));
    assert!(line.contains("\"msgs_per_sec\":10000"));
}

#[test]
fn measured_rates_divide_by_the_elapsed_seconds() {
    // Three messages over two seconds: one whole message per second.
    let line = report_line(Mode::Throughput, 3, 0, 2_000_000_000);
    assert!(line.contains("\"count\":3"));
    assert!(line.contains("\"elapsed_ms\":2000"));
    assert!(line.contains("\"msgs_per_sec\":1"));
    let v = parse(&line);
    assert_eq!(v["msgs_per_sec"].as_u64(), Some(1));
}

#[test]
fn rates_are_non_negative_integers() {
    let line = report_line(Mode::Tokens, 9, 7, 123_456_789);
    let v = parse(&line);
    for field in ["tokens_per_sec", "msgs_per_sec"] {
        let rate = v[field].as_u64().expect("rate must be an unsigned integer");
        assert!(rate <= u64::MAX);
    }
}

#[test]
fn roundtrip_response_echoes_id_and_session() {
    let encoded = roundtrip_workload().expect("fixed sample must decode");
    let v = parse(&encoded);
    assert_eq!(v["result"]["sessionId"].as_str(), Some("sess-benchmark"));
    assert_eq!(v["id"].as_u64(), Some(1));
    assert_eq!(v["jsonrpc"].as_str(), Some("2.0"));
}

#[test]
fn cold_start_response_echoes_protocol_version() {
    let encoded = cold_start_workload().expect("fixed sample must decode");
    let v = parse(&encoded);
    assert_eq!(v["result"]["protocolVersion"].as_u64(), Some(1));
    assert_eq!(v["id"].as_u64(), Some(1));
    assert_eq!(v["jsonrpc"].as_str(), Some("2.0"));
}

#[test]
fn roundtrip_response_text_is_exact() {
    assert_eq!(
        roundtrip_workload().unwrap(),
        "{\"id\":1,\"jsonrpc\":\"2.0\",\"result\":{\"sessionId\":\"sess-benchmark\"}}"
    );
}

#[test]
fn cold_start_response_text_is_exact() {
    assert_eq!(
        cold_start_workload().unwrap(),
        "{\"id\":1,\"jsonrpc\":\"2.0\",\"result\":{\"protocolVersion\":1}}"
    );
}

#[test]
fn codec_iteration_response_is_keyed_by_index() {
    for i in [0usize, 1, 2, 3, 7, 42] {
        let s = codec_iteration(i).unwrap();
        let v = parse(&s);
        assert_eq!(v["id"].as_u64(), Some(i as u64));
        assert_eq!(v["result"]["sessionId"].as_str(), Some("sess-bench"));
        assert_eq!(
            s,
            format!(
                "{{\"id\":{},\"jsonrpc\":\"2.0\",\"result\":{{\"sessionId\":\"sess-bench\"}}}}",
                i
            )
        );
    }
}

#[test]
fn tokens_scenario_ten_messages_of_five() {
    let message = make_token_update(5);
    assert_eq!(tokens_workload(10, &message, 5), Ok((10, 50)));
    let line = report_line(Mode::Tokens, 10, 5, 42_000_000);
    assert!(line.contains("\"messages\":10,\"tokens_per_msg\":5,\"total_tokens\":50"));
}

#[test]
fn throughput_scenario_four_distinct_samples() {
    assert_eq!(throughput_workload(4), Ok(4));
    let methods: Vec<String> = (0..4)
        .map(|i| {
            let v = parse(sample_message(i));
            v["method"].as_str().expect("sample has a method").to_string()
        })
        .collect();
    assert_eq!(
        methods,
        vec!["initialize", "session/new", "session/update", "session/prompt"]
    );
    // The table cycles with period four.
    assert_eq!(sample_message(4), sample_message(0));
    assert_eq!(sample_message(5), sample_message(1));
    let line = report_line(Mode::Throughput, 4, 0, 1_000_000);
    assert!(line.contains("\"count\":4"));
}

#[test]
fn cold_start_scenario_reports_elapsed_millis() {
    let line = report_line(Mode::ColdStart, 100, 100, 7_654_321);
    assert!(line.contains("\"mode\":\"cold-start\""));
    assert!(line.contains("\"elapsed_ms\":7"));
    let v = parse(&line);
    let elapsed = v["elapsed_ms"].as_u64().expect("elapsed_ms is an integer");
    assert_eq!(elapsed, 7);
}

#[test]
fn token_message_payload_repeats_the_word() {
    for n in [0usize, 1, 2, 7] {
        let message = make_token_update(n);
        let v = parse(&message);
        assert_eq!(
            v["params"]["update"]["content"]["text"].as_str(),
            Some("word ".repeat(n).as_str())
        );
        assert_eq!(v["method"].as_str(), Some("session/update"));
        assert_eq!(v["params"]["sessionId"].as_str(), Some("sess-001"));
    }
}

#[test]
fn token_message_text_is_exact() {
    assert_eq!(
        make_token_update(1),
        "{\"jsonrpc\":\"2.0\",\"method\":\"session/update\",\"params\":{\"sessionId\":\"sess-001\",\"update\":{\"content\":{\"text\":\"word \",\"type\":\"text\"},\"sessionUpdate\":\"agent_message_chunk\"}}}"
    );
}

#[test]
fn decimal_rendering_is_exact() {
    assert_eq!(u128_to_string(0), "0");
    assert_eq!(u128_to_string(7), "7");
    assert_eq!(u128_to_string(10), "10");
    assert_eq!(u128_to_string(1234567890), "1234567890");
    assert_eq!(
        u128_to_string(u128::MAX),
        "340282366920938463463374607431768211455"
    );
}

#[test]
fn report_lines_match_the_expected_text_exactly() {
    assert_eq!(
        report_line(Mode::ColdStart, 100, 100, 3_000_000),
        "{\"status\":\"ok\",\"mode\":\"cold-start\",\"elapsed_ms\":3}"
    );
    assert_eq!(
        report_line(Mode::Roundtrip, 100, 100, 0),
        "{\"status\":\"ok\",\"mode\":\"roundtrip\",\"elapsed_ms\":0}"
    );
    assert_eq!(
        report_line(Mode::Throughput, 5, 100, 1_000_000_000),
        "{\"status\":\"ok\",\"mode\":\"throughput\",\"count\":5,\"elapsed_ms\":1000,\"msgs_per_sec\":5}"
    );
    assert_eq!(
        report_line(Mode::Codec, 5, 100, 1_000_000_000),
        "{\"status\":\"ok\",\"mode\":\"codec\",\"ops\":10,\"elapsed_ms\":1000,\"ops_per_sec\":10}"
    );
    assert_eq!(
        report_line(Mode::Tokens, 2, 3, 1_000_000_000),
        "{\"status\":\"ok\",\"mode\":\"tokens\",\"messages\":2,\"tokens_per_msg\":3,\"total_tokens\":6,\"elapsed_ms\":1000,\"tokens_per_sec\":6,\"msgs_per_sec\":2}"
    );
}
