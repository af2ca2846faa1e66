use iperf_server::classifier::classify;
use iperf_server::classifier::Role;
use iperf_server::classifier::TOKEN_LEN;
use iperf_server::classifier::TOKEN_WIRE_LEN;
use iperf_server::commands;
use iperf_server::driver::be32;
use iperf_server::driver::step;
use iperf_server::driver::DriverState;
use iperf_server::driver::Event;
use iperf_server::driver::ReadRequest;
use iperf_server::driver::TransportError;
use iperf_server::registry::Registry;
use iperf_server::sink::DataSink;

/// Drives the control-channel state machine over an in-memory byte stream,
/// the way the real I/O loop drives it over a socket. Returns the bytes the
/// server sent, whether the token was released, the transport error if one
/// ended the exchange, and the final state.
fn run_control(stream: &[u8]) -> (Vec<u8>, bool, Option<TransportError>, DriverState) {
    let mut pos: usize = 0;
    let mut state = DriverState::Init;
    let mut event = Event::Proceed;
    let mut sent: Vec<u8> = Vec::new();
    let mut released = false;
    loop {
        let (next, action) = match step(state, &event) {
            Ok(x) => x,
            Err(e) => return (sent, released, Some(e), state),
        };
        sent.extend_from_slice(&action.send);
        if action.release {
            released = true;
        }
        state = next;
        event = match action.read {
            ReadRequest::Nothing => {
                if state == DriverState::Closed {
                    return (sent, released, None, state);
                }
                Event::Proceed
            }
            ReadRequest::Exact(n) => {
                if pos + n <= stream.len() {
                    let b = stream[pos..pos + n].to_vec();
                    pos += n;
                    Event::Bytes(b)
                } else {
                    Event::Failed
                }
            }
            ReadRequest::ToEnd => {
                let b = stream[pos..].to_vec();
                pos = stream.len();
                Event::Bytes(b)
            }
        };
    }
}

fn ascii_token_message(fill: u8) -> Vec<u8> {
    let mut msg = vec![fill; TOKEN_LEN];
    msg.push(0);
    msg
}

#[test]
fn command_byte_values() {
    assert_eq!(commands::TEST_START, 1);
    assert_eq!(commands::TEST_RUNNING, 2);
    assert_eq!(commands::TEST_END, 4);
    assert_eq!(commands::PARAM_EXCHANGE, 9);
    assert_eq!(commands::CREATE_STREAMS, 10);
    assert_eq!(commands::SERVER_TERMINATE, 11);
    assert_eq!(commands::CLIENT_TERMINATE, 12);
    assert_eq!(commands::EXCHANGE_RESULTS, 13);
    assert_eq!(commands::DISPLAY_RESULTS, 14);
    assert_eq!(commands::IPERF_START, 15);
    assert_eq!(commands::IPERF_DONE, 16);
}

#[test]
fn token_correlation_first_control_then_data() {
    let mut reg = Registry::new();
    let token = vec![b'a'; TOKEN_LEN];
    assert!(reg.try_claim(token.clone()));
    assert!(!reg.try_claim(token.clone()));
    assert!(!reg.try_claim(token.clone()));
    let other = vec![b'b'; TOKEN_LEN];
    assert!(reg.try_claim(other));
}

#[test]
fn token_reuse_after_release_is_first_use() {
    let mut reg = Registry::new();
    let token = vec![b'x'; TOKEN_LEN];
    assert!(reg.try_claim(token.clone()));
    reg.release(&token);
    assert!(reg.try_claim(token.clone()));
}

#[test]
fn release_of_absent_token_is_noop() {
    let mut reg = Registry::new();
    let token = vec![b'z'; TOKEN_LEN];
    reg.release(&token);
    assert!(reg.try_claim(token));
}

#[test]
fn concurrent_claims_yield_exactly_one_control() {
    let mut reg = Registry::new();
    let token = vec![b'q'; TOKEN_LEN];
    let mut controls = 0;
    for _ in 0..5 {
        if reg.try_claim(token.clone()) {
            controls += 1;
        }
    }
    assert_eq!(controls, 1);
}

#[test]
fn classify_first_sighting_is_control() {
    let mut reg = Registry::new();
    let msg = ascii_token_message(b'c');
    assert_eq!(msg.len(), TOKEN_WIRE_LEN);
    let (role, token) = classify(&msg, &mut reg);
    assert_eq!(role, Role::Control);
    assert_eq!(token, vec![b'c'; TOKEN_LEN]);
    let (role2, _) = classify(&msg, &mut reg);
    assert_eq!(role2, Role::Data);
}

#[test]
fn classify_non_ascii_is_unrecognized_without_registry_mutation() {
    let mut reg = Registry::new();
    let msg = vec![0xFFu8; TOKEN_WIRE_LEN];
    let (role, _) = classify(&msg, &mut reg);
    assert_eq!(role, Role::Unrecognized);
    // the registry was not touched: an ASCII token made of any of those
    // positions is still a first sighting
    let ascii = ascii_token_message(b'd');
    let (role2, _) = classify(&ascii, &mut reg);
    assert_eq!(role2, Role::Control);
}

#[test]
fn classify_checks_token_bytes_not_terminator() {
    let mut reg = Registry::new();
    // one non-ASCII byte inside the 36 token bytes is enough
    let mut msg = ascii_token_message(b'e');
    msg[17] = 0x80;
    let (role, _) = classify(&msg, &mut reg);
    assert_eq!(role, Role::Unrecognized);
}

#[test]
fn be32_exact_values() {
    assert_eq!(be32(&vec![0, 0, 1, 244]), 500);
    assert_eq!(be32(&vec![0x12, 0x34, 0x56, 0x78]), 0x1234_5678);
    assert_eq!(be32(&vec![0, 0, 0, 0]), 0);
    assert_eq!(be32(&vec![255, 255, 255, 255]), u32::MAX);
}

#[test]
fn happy_path_emits_full_command_sequence_and_releases() {
    let mut stream: Vec<u8> = Vec::new();
    stream.extend_from_slice(&[0, 0, 0, 5]); // config length 5
    stream.extend_from_slice(b"hello"); // config payload
    stream.push(commands::TEST_END);
    stream.push(commands::IPERF_DONE);
    let (sent, released, err, state) = run_control(&stream);
    assert_eq!(
        sent,
        vec![
            commands::PARAM_EXCHANGE,
            commands::CREATE_STREAMS,
            commands::TEST_START,
            commands::TEST_RUNNING,
            commands::DISPLAY_RESULTS,
        ]
    );
    assert!(released);
    assert_eq!(err, None);
    assert_eq!(state, DriverState::Closed);
}

#[test]
fn happy_path_with_trailing_bytes_still_closes() {
    let mut stream: Vec<u8> = Vec::new();
    stream.extend_from_slice(&[0, 0, 0, 0]); // empty config payload
    stream.push(commands::TEST_END);
    stream.push(commands::IPERF_DONE);
    stream.extend_from_slice(b"leftover diagnostics");
    let (sent, released, err, state) = run_control(&stream);
    assert_eq!(sent.len(), 5);
    assert!(released);
    assert_eq!(err, None);
    assert_eq!(state, DriverState::Closed);
}

#[test]
fn mismatch_skips_display_results_and_keeps_token() {
    let mut stream: Vec<u8> = Vec::new();
    stream.extend_from_slice(&[0, 0, 0, 2]);
    stream.extend_from_slice(b"{}");
    stream.push(commands::CLIENT_TERMINATE); // expected TEST_END
    stream.push(commands::IPERF_DONE);
    let (sent, released, err, state) = run_control(&stream);
    assert_eq!(
        sent,
        vec![
            commands::PARAM_EXCHANGE,
            commands::CREATE_STREAMS,
            commands::TEST_START,
            commands::TEST_RUNNING,
        ]
    );
    assert!(!released);
    assert_eq!(err, None);
    assert_eq!(state, DriverState::Closed);
}

#[test]
fn second_mismatch_is_tolerated_too() {
    let mut stream: Vec<u8> = Vec::new();
    stream.extend_from_slice(&[0, 0, 0, 0]);
    stream.push(commands::TEST_END);
    stream.push(commands::IPERF_START); // expected IPERF_DONE
    let (sent, released, err, state) = run_control(&stream);
    assert_eq!(sent.len(), 5); // DISPLAY_RESULTS was still sent for TEST_END
    assert!(released);
    assert_eq!(err, None);
    assert_eq!(state, DriverState::Closed);
}

#[test]
fn config_framing_short_payload_is_short_read() {
    let mut stream: Vec<u8> = Vec::new();
    stream.extend_from_slice(&[0, 0, 1, 244]); // declares 500 bytes
    stream.extend_from_slice(&vec![b'x'; 300]); // only 300 arrive
    let (sent, released, err, _state) = run_control(&stream);
    assert_eq!(sent, vec![commands::PARAM_EXCHANGE]);
    assert!(!released);
    assert_eq!(err, Some(TransportError::ShortRead));
}

#[test]
fn short_read_before_config_length_is_short_read() {
    let stream: Vec<u8> = vec![0, 0]; // closes inside the length prefix
    let (sent, _released, err, _state) = run_control(&stream);
    assert_eq!(sent, vec![commands::PARAM_EXCHANGE]);
    assert_eq!(err, Some(TransportError::ShortRead));
}

#[test]
fn driver_asks_for_declared_payload_length() {
    let r = step(
        DriverState::AwaitingConfigLength,
        &Event::Bytes(vec![0, 0, 1, 244]),
    );
    let (next, action) = r.unwrap();
    assert_eq!(next, DriverState::AwaitingConfigPayload { len: 500 });
    assert_eq!(action.read, ReadRequest::Exact(500));
    assert!(action.send.is_empty());
    assert!(!action.release);
}

#[test]
fn failed_read_while_draining_still_closes_cleanly() {
    let r = step(DriverState::Draining, &Event::Failed);
    let (next, action) = r.unwrap();
    assert_eq!(next, DriverState::Closed);
    assert!(action.send.is_empty());
    assert!(!action.release);
    assert_eq!(action.read, ReadRequest::Nothing);
}

#[test]
fn data_sink_counts_ten_thousand_bytes_across_several_reads() {
    let mut sink = DataSink::new();
    let mut done = false;
    for &chunk in &[4096usize, 4096, 1000, 808, 0] {
        done = sink.record(chunk);
    }
    assert!(done);
    assert_eq!(sink.total_bytes(), 10_000);
}

#[test]
fn data_sink_empty_channel_reports_zero() {
    let mut sink = DataSink::new();
    let done = sink.record(0);
    assert!(done);
    assert_eq!(sink.total_bytes(), 0);
}
