//! End-to-end tests of the wire protocol layer: envelope construction,
//! signing, frame serialization and deserialization, and the dispatch-driven
//! execution-state machine.

use cutypr::client::{Action, Client, ExecutionState, parse_descriptor};
use cutypr::codec::{build_envelope, deserialize, serialize, sign, Envelope, WireError};

use hmac::{Hmac, KeyInit, Mac};
use sha2::Sha256;

const DELIM: &[u8] = b"<IDS|MSG>";

fn frames_for(header: &str, content: &str) -> Vec<Vec<u8>> {
    vec![
        DELIM.to_vec(),
        b"0000".to_vec(),
        header.as_bytes().to_vec(),
        b"{}".to_vec(),
        b"{}".to_vec(),
        content.as_bytes().to_vec(),
    ]
}

fn status_frames(state: &str) -> Vec<Vec<u8>> {
    frames_for(
        "{\"msg_type\":\"status\"}",
        &format!("{{\"execution_state\":\"{}\"}}", state),
    )
}

fn new_client() -> Client {
    Client::new(b"key".to_vec(), b"rust".to_vec())
}

#[test]
fn execute_builds_six_frames_with_delimiter_and_hex_signature() {
    let mut client = new_client();
    let frames = client.execute(&b"1+1".to_vec()).unwrap();
    assert_eq!(frames.len(), 6);
    assert_eq!(frames[0], DELIM.to_vec());
    assert_eq!(frames[1].len(), 64);
    assert!(frames[1]
        .iter()
        .all(|b| (b'0'..=b'9').contains(b) || (b'a'..=b'f').contains(b)));
    assert_eq!(client.execution_state, ExecutionState::Busy);
}

#[test]
fn execute_header_holds_type_id_username_and_session() {
    let mut client = new_client();
    let frames = client.execute(&b"1+1".to_vec()).unwrap();
    let expected = "{\"msg_id\":\"rust_1\",\"msg_type\":\"execute_request\",\
                    \"session\":\"rust\",\"username\":\"vinayak\"}";
    assert_eq!(frames[2], expected.as_bytes().to_vec());
    assert_eq!(frames[3], b"{}".to_vec());
    assert_eq!(frames[4], b"{}".to_vec());
}

#[test]
fn execute_content_holds_the_fixed_execution_options() {
    let mut client = new_client();
    let frames = client.execute(&b"1+1".to_vec()).unwrap();
    let expected = "{\"allow_stdin\":true,\"code\":\"1+1\",\"silent\":false,\
                    \"stop_on_error\":true,\"store_history\":true,\
                    \"user_expressions\":null}";
    assert_eq!(frames[5], expected.as_bytes().to_vec());
}

#[test]
fn execute_signature_matches_independent_hmac_over_concatenation() {
    let mut client = new_client();
    let frames = client.execute(&b"2*3".to_vec()).unwrap();
    let mut mac = Hmac::<Sha256>::new_from_slice(b"key").unwrap();
    mac.update(&frames[2]);
    mac.update(&frames[3]);
    mac.update(&frames[4]);
    mac.update(&frames[5]);
    let expected = hex::encode(mac.finalize().into_bytes());
    assert_eq!(frames[1], expected.into_bytes());
}

#[test]
fn sign_matches_a_published_hmac_sha256_vector() {
    // RFC 4231, test case 2, with the data split over two parts.
    let key = b"Jefe".to_vec();
    let parts = vec![
        b"what do ya want".to_vec(),
        b" for nothing?".to_vec(),
    ];
    let sig = sign(&key, &parts);
    assert_eq!(
        sig,
        b"5bdcc146bf60754e6a042426089575c75a003f089d2739839dec58b964ec3843".to_vec()
    );
}

#[test]
fn sign_is_deterministic_and_sensitive_to_every_byte() {
    let key = b"key".to_vec();
    let parts = vec![b"{\"a\":1}".to_vec(), b"{}".to_vec()];
    let first = sign(&key, &parts);
    let second = sign(&key, &parts);
    assert_eq!(first, second);

    let mut tweaked = parts.clone();
    tweaked[0][1] ^= 1;
    assert_ne!(sign(&key, &tweaked), first);

    let other_key = b"kez".to_vec();
    assert_ne!(sign(&other_key, &parts), first);
}

#[test]
fn serialize_then_deserialize_reproduces_the_envelope() {
    let env = Envelope {
        header: b"{\"msg_type\":\"status\"}".to_vec(),
        parent_header: b"{}".to_vec(),
        metadata: b"{\"engine\":\"x\"}".to_vec(),
        content: b"{\"execution_state\":\"idle\"}".to_vec(),
    };
    let frames = serialize(&env, &b"key".to_vec());
    let back = deserialize(&frames).unwrap();
    assert_eq!(back.header, env.header);
    assert_eq!(back.parent_header, env.parent_header);
    assert_eq!(back.metadata, env.metadata);
    assert_eq!(back.content, env.content);
}

#[test]
fn round_trip_keeps_escaped_strings_intact() {
    let mut client = new_client();
    let code = "print(\"hi\\n\")";
    let frames = client.execute(&code.as_bytes().to_vec()).unwrap();
    let env = deserialize(&frames).unwrap();
    let content: serde_json::Map<String, serde_json::Value> =
        serde_json::from_slice(&env.content).unwrap();
    assert_eq!(content.get("code").unwrap().as_str().unwrap(), code);
}

#[test]
fn signature_verification_accepts_own_output_and_rejects_tampering() {
    let mut client = new_client();
    let mut frames = client.execute(&b"1+1".to_vec()).unwrap();
    let key = b"key".to_vec();
    assert!(cutypr::codec::signature_valid(&frames, &key));
    assert!(!cutypr::codec::signature_valid(&frames, &b"other".to_vec()));
    frames[5][1] ^= 1;
    assert!(!cutypr::codec::signature_valid(&frames, &key));

    let no_delim = vec![b"{}".to_vec()];
    assert!(!cutypr::codec::signature_valid(&no_delim, &key));
}

#[test]
fn build_envelope_rejects_a_session_id_that_is_not_utf8() {
    let content = serde_json::Map::new();
    let bad_session = vec![0xffu8, 0xfe];
    let r = build_envelope(&bad_session, 1, &b"execute_request".to_vec(), &content);
    assert_eq!(r.unwrap_err(), WireError::InvalidEncoding);
}

#[test]
fn deserialize_skips_routing_frames_before_the_delimiter() {
    let mut frames = status_frames("idle");
    frames.insert(0, b"routing-identity".to_vec());
    let env = deserialize(&frames).unwrap();
    assert_eq!(env.header, b"{\"msg_type\":\"status\"}".to_vec());
}

#[test]
fn missing_delimiter_is_malformed_even_with_undecodable_frames() {
    // The invalid UTF-8 frame must not surface as InvalidEncoding: the
    // delimiter scan fails first.
    let frames = vec![vec![0xffu8, 0x00], b"not json".to_vec()];
    assert_eq!(deserialize(&frames).unwrap_err(), WireError::MalformedMessage);
}

#[test]
fn too_few_frames_after_the_delimiter_is_malformed() {
    let frames = vec![
        DELIM.to_vec(),
        b"0000".to_vec(),
        b"{}".to_vec(),
        b"{}".to_vec(),
        b"{}".to_vec(),
    ];
    assert_eq!(deserialize(&frames).unwrap_err(), WireError::MalformedMessage);
}

#[test]
fn a_body_frame_that_is_not_utf8_is_invalid_encoding() {
    let mut frames = status_frames("idle");
    frames[3] = vec![0xc0u8, 0x00];
    assert_eq!(deserialize(&frames).unwrap_err(), WireError::InvalidEncoding);
}

#[test]
fn a_body_frame_that_is_not_a_json_object_is_invalid_payload() {
    let mut frames = status_frames("idle");
    frames[5] = b"[1, 2]".to_vec();
    assert_eq!(deserialize(&frames).unwrap_err(), WireError::InvalidPayload);

    let mut frames = status_frames("idle");
    frames[2] = b"not json".to_vec();
    assert_eq!(deserialize(&frames).unwrap_err(), WireError::InvalidPayload);
}

#[test]
fn status_replies_drive_the_state_machine() {
    let mut client = new_client();
    assert_eq!(client.execution_state, ExecutionState::Idle);
    for (state, expected) in [
        ("starting", ExecutionState::Starting),
        ("busy", ExecutionState::Busy),
        ("idle", ExecutionState::Idle),
    ] {
        let action = client.handle_message(&status_frames(state)).unwrap();
        assert_eq!(action, Action::Quiet);
        assert_eq!(client.execution_state, expected);
    }
}

#[test]
fn an_unknown_execution_state_is_fatal() {
    let mut client = new_client();
    let err = client.handle_message(&status_frames("restarting")).unwrap_err();
    assert_eq!(err, WireError::UnknownExecutionState);
    assert_eq!(client.execution_state, ExecutionState::Idle);
}

#[test]
fn a_status_reply_without_a_state_is_fatal() {
    let mut client = new_client();
    let frames = frames_for("{\"msg_type\":\"status\"}", "{}");
    assert_eq!(
        client.handle_message(&frames).unwrap_err(),
        WireError::UnknownExecutionState
    );
}

#[test]
fn execute_then_busy_stream_idle_emits_once_and_settles_idle() {
    let mut client = new_client();
    client.execute(&b"1+1".to_vec()).unwrap();
    assert_eq!(client.execution_state, ExecutionState::Busy);

    let replies = [
        status_frames("busy"),
        frames_for(
            "{\"msg_type\":\"stream\"}",
            "{\"name\":\"stdout\",\"text\":\"2\\n\"}",
        ),
        status_frames("idle"),
    ];
    let mut emitted: Vec<Vec<u8>> = Vec::new();
    for frames in &replies {
        match client.handle_message(frames).unwrap() {
            Action::EmitStdout(text) => emitted.push(text),
            Action::Quiet => {},
            other => panic!("unexpected action {:?}", other),
        }
    }
    assert_eq!(emitted, vec![b"2\n".to_vec()]);
    assert_eq!(client.execution_state, ExecutionState::Idle);
}

#[test]
fn stderr_stream_text_goes_to_stderr() {
    let mut client = new_client();
    let frames = frames_for(
        "{\"msg_type\":\"stream\"}",
        "{\"name\":\"stderr\",\"text\":\"oops\"}",
    );
    assert_eq!(
        client.handle_message(&frames).unwrap(),
        Action::EmitStderr(b"oops".to_vec())
    );
}

#[test]
fn an_unknown_stream_name_is_reported_and_does_not_touch_the_state() {
    let mut client = new_client();
    let frames = frames_for(
        "{\"msg_type\":\"stream\"}",
        "{\"name\":\"stdout2\",\"text\":\"2\\n\"}",
    );
    let action = client.handle_message(&frames).unwrap();
    assert_eq!(action, Action::ReportUnknownStream(b"stdout2".to_vec()));
    assert_eq!(client.execution_state, ExecutionState::Idle);
}

#[test]
fn execute_input_advances_the_display_counter() {
    let mut client = new_client();
    assert_eq!(client.execution_count, 1);
    let frames = frames_for("{\"msg_type\":\"execute_input\"}", "{}");
    assert_eq!(client.handle_message(&frames).unwrap(), Action::Quiet);
    assert_eq!(client.execution_count, 2);
}

#[test]
fn an_error_reply_surfaces_name_value_and_traceback() {
    let mut client = new_client();
    let frames = frames_for(
        "{\"msg_type\":\"error\"}",
        "{\"ename\":\"ZeroDivisionError\",\"evalue\":\"division by zero\",\
         \"traceback\":[\"line 1\",\"line 2\"]}",
    );
    let action = client.handle_message(&frames).unwrap();
    assert_eq!(
        action,
        Action::ReportError {
            ename: Some(b"ZeroDivisionError".to_vec()),
            evalue: Some(b"division by zero".to_vec()),
            traceback: Some(vec![b"line 1".to_vec(), b"line 2".to_vec()]),
        }
    );
}

#[test]
fn an_unknown_message_type_is_reported_and_skipped() {
    let mut client = new_client();
    let frames = frames_for("{\"msg_type\":\"comm_open\"}", "{}");
    let action = client.handle_message(&frames).unwrap();
    assert_eq!(action, Action::ReportUnknownType(b"comm_open".to_vec()));
    assert_eq!(client.execution_state, ExecutionState::Idle);
}

#[test]
fn message_ids_repeat_while_the_counter_stays_fixed() {
    // The modelled behaviour never advances the message counter, so two
    // requests carry the same message id.
    let mut client = new_client();
    let first = client.execute(&b"1".to_vec()).unwrap();
    let second = client.execute(&b"2".to_vec()).unwrap();
    assert_eq!(first[2], second[2]);
    assert_eq!(client.message_count, 1);
}

#[test]
fn parse_descriptor_reads_key_and_ports() {
    let json = b"{\"key\":\"SECRET-REDACTED\",\"ports\":{\"shell\":5555,\"iopub\":5556,\"hb\":5557}}"
        .to_vec();
    let d = parse_descriptor(&json).unwrap();
    assert_eq!(d.signing_key, b"SECRET-REDACTED".to_vec());
    assert_eq!(d.shell_port, 5555);
    assert_eq!(d.iopub_port, 5556);
}

#[test]
fn parse_descriptor_rejects_missing_fields_and_bad_ports() {
    let missing_key = b"{\"ports\":{\"shell\":1,\"iopub\":2}}".to_vec();
    assert_eq!(parse_descriptor(&missing_key).unwrap_err(), WireError::InvalidPayload);

    let missing_ports = b"{\"key\":\"k\"}".to_vec();
    assert_eq!(parse_descriptor(&missing_ports).unwrap_err(), WireError::InvalidPayload);

    let huge_port = b"{\"key\":\"k\",\"ports\":{\"shell\":70000,\"iopub\":2}}".to_vec();
    assert_eq!(parse_descriptor(&huge_port).unwrap_err(), WireError::InvalidPayload);
}
