use ai_bridge::availability::{check_availability, AVAILABLE_STATUS};
use ai_bridge::encode::{encode_c_string, has_null_byte};
use ai_bridge::error::BridgeError;
use ai_bridge::oneshot::{
    complete_generation, generate_response, generate_response_with_history,
};
use ai_bridge::stream::{
    chunk_callback, generate_response_stream, StreamDelivery, StreamSlot, ERROR_SENTINEL,
};

#[test]
fn availability_success_status() {
    let r = check_availability(AVAILABLE_STATUS, String::new());
    assert!(r.available);
    assert_eq!(r.reason, "Available");
}

#[test]
fn availability_failure_carries_native_reason() {
    let r = check_availability(0, "Model not downloaded".to_string());
    assert!(!r.available);
    assert_eq!(r.reason, "Model not downloaded");
}

#[test]
fn availability_empty_native_reason_gets_fallback() {
    // A null reason pointer arrives as an empty string; the report still
    // explains itself.
    let r = check_availability(0, String::new());
    assert!(!r.available);
    assert_eq!(r.reason, "Unavailable");
}

#[test]
fn availability_only_exact_success_code() {
    // Any code other than the success sentinel reports unavailable.
    for status in [-1, 0, 2, 3, 100] {
        let r = check_availability(status, "reason".to_string());
        assert!(!r.available);
        assert_eq!(r.reason, "reason");
    }
}

#[test]
fn languages_skip_null_entries() {
    let entries = vec![
        Some("en-US".to_string()),
        None,
        Some("fr-FR".to_string()),
        Some("de-DE".to_string()),
        None,
    ];
    let langs = ai_bridge::languages::get_supported_languages(entries);
    // Count is the reported count minus the null entries, order kept.
    assert_eq!(langs, vec!["en-US", "fr-FR", "de-DE"]);
    assert_eq!(langs.len(), 5 - 2);
}

#[test]
fn languages_empty_enumeration() {
    let langs = ai_bridge::languages::get_supported_languages(Vec::new());
    assert!(langs.is_empty());
}

#[test]
fn languages_all_null() {
    let langs = ai_bridge::languages::get_supported_languages(vec![None, None]);
    assert!(langs.is_empty());
}

#[test]
fn encode_appends_terminator() {
    let buf = encode_c_string(&b"hello".to_vec()).unwrap();
    assert_eq!(buf, b"hello\0".to_vec());
}

#[test]
fn encode_empty_input() {
    let buf = encode_c_string(&Vec::new()).unwrap();
    assert_eq!(buf, vec![0u8]);
}

#[test]
fn encode_rejects_embedded_null() {
    assert!(encode_c_string(&b"he\0llo".to_vec()).is_none());
    assert!(has_null_byte(&b"\0".to_vec()));
    assert!(!has_null_byte(&b"hi".to_vec()));
}

#[test]
fn one_shot_task_defaults() {
    let t = generate_response(b"hi".to_vec(), None, None);
    assert_eq!(t.prompt, b"hi".to_vec());
    assert_eq!(t.temperature_bits, 0);
    assert_eq!(t.temperature_bits, (0.0f64).to_bits());
    assert_eq!(t.max_tokens, 0);
}

#[test]
fn one_shot_task_explicit_options() {
    let t = generate_response(b"hi".to_vec(), Some((0.7f64).to_bits()), Some(256));
    assert_eq!(t.temperature_bits, (0.7f64).to_bits());
    assert_eq!(t.max_tokens, 256);
}

#[test]
fn history_task_defaults() {
    let t = generate_response_with_history(b"[]".to_vec(), None, None);
    assert_eq!(t.messages_json, b"[]".to_vec());
    assert_eq!(t.temperature_bits, 0);
    assert_eq!(t.max_tokens, 0);
}

#[test]
fn prompt_null_byte_fails_before_native_call() {
    let t = generate_response(b"bad\0prompt".to_vec(), None, None);
    let err = t.marshal_prompt().unwrap_err();
    assert_eq!(err, BridgeError::PromptNullByte);
    assert_eq!(err.reason(), "Prompt contained null byte");
}

#[test]
fn prompt_marshals_nul_terminated() {
    let t = generate_response(b"tell me a story".to_vec(), None, None);
    let buf = t.marshal_prompt().unwrap();
    assert_eq!(buf, b"tell me a story\0".to_vec());
}

#[test]
fn history_null_byte_fails_before_native_call() {
    let t = generate_response_with_history(b"[\"x\0\"]".to_vec(), None, None);
    let err = t.marshal_messages().unwrap_err();
    assert_eq!(err, BridgeError::HistoryNullByte);
    assert_eq!(err.reason(), "JSON contained null byte");
}

#[test]
fn null_native_result_is_surfaced_failure() {
    let err = complete_generation(None).unwrap_err();
    assert_eq!(err, BridgeError::GenerationFailed);
    assert_eq!(err.reason(), "Generation returned null");
}

#[test]
fn empty_native_result_is_surfaced_failure() {
    // A non-null but empty native reply is never a silent empty success.
    let err = complete_generation(Some(Vec::new())).unwrap_err();
    assert_eq!(err, BridgeError::GenerationFailed);
}

#[test]
fn native_text_passes_through() {
    let text = complete_generation(Some(b"Once upon a time".to_vec())).unwrap();
    assert_eq!(text, b"Once upon a time".to_vec());
}

#[test]
fn stream_start_installs_session() {
    let mut slot = StreamSlot::new();
    assert!(slot.session.is_none());
    let buf = generate_response_stream(&mut slot, b"prompt".to_vec()).unwrap();
    assert_eq!(buf, b"prompt\0".to_vec());
    let session = slot.session.as_ref().unwrap();
    assert_eq!(session.prompt_buffer, b"prompt\0".to_vec());
}

#[test]
fn stream_start_rejects_null_byte() {
    let mut slot = StreamSlot::new();
    let err = generate_response_stream(&mut slot, b"a\0b".to_vec()).unwrap_err();
    assert_eq!(err, BridgeError::PromptNullByte);
    assert!(slot.session.is_none());
}

#[test]
fn stream_start_replaces_active_session() {
    let mut slot = StreamSlot::new();
    generate_response_stream(&mut slot, b"first".to_vec()).unwrap();
    generate_response_stream(&mut slot, b"second".to_vec()).unwrap();
    let session = slot.session.as_ref().unwrap();
    assert_eq!(session.prompt_buffer, b"second\0".to_vec());
}

#[test]
fn chunks_then_null_delivered_in_order() {
    let mut slot = StreamSlot::new();
    generate_response_stream(&mut slot, b"p".to_vec()).unwrap();
    let chunks: Vec<Vec<u8>> = vec![b"Once".to_vec(), b" upon".to_vec(), b" a time".to_vec()];
    let mut delivered: Vec<Vec<u8>> = Vec::new();
    for c in &chunks {
        match chunk_callback(&mut slot, Some(c.clone())) {
            Some(StreamDelivery::Text(bytes)) => delivered.push(bytes),
            other => panic!("expected a text delivery, got {:?}", other.is_some()),
        }
    }
    // Exactly N successful deliveries, in order.
    assert_eq!(delivered, chunks);
    // Then the terminating null pointer: one terminal delivery, session retired.
    assert!(matches!(chunk_callback(&mut slot, None), Some(StreamDelivery::Finished)));
    assert!(slot.session.is_none());
}

#[test]
fn empty_chunk_dropped_silently() {
    let mut slot = StreamSlot::new();
    generate_response_stream(&mut slot, b"p".to_vec()).unwrap();
    assert!(chunk_callback(&mut slot, Some(Vec::new())).is_none());
    assert!(slot.session.is_some());
}

#[test]
fn sentinel_chunk_is_failure_and_keeps_stream_open() {
    let mut slot = StreamSlot::new();
    generate_response_stream(&mut slot, b"p".to_vec()).unwrap();
    let mut chunk = vec![ERROR_SENTINEL];
    chunk.extend_from_slice(b"model overloaded");
    match chunk_callback(&mut slot, Some(chunk)) {
        Some(StreamDelivery::Failure(message)) => {
            assert_eq!(message, b"model overloaded".to_vec());
        }
        _ => panic!("expected a failure delivery"),
    }
    // The stream stays open: a later chunk is still delivered.
    assert!(slot.session.is_some());
    assert!(matches!(
        chunk_callback(&mut slot, Some(b"more".to_vec())),
        Some(StreamDelivery::Text(_))
    ));
}

#[test]
fn sentinel_alone_is_empty_failure() {
    let mut slot = StreamSlot::new();
    generate_response_stream(&mut slot, b"p".to_vec()).unwrap();
    match chunk_callback(&mut slot, Some(vec![ERROR_SENTINEL])) {
        Some(StreamDelivery::Failure(message)) => assert!(message.is_empty()),
        _ => panic!("expected a failure delivery"),
    }
}

#[test]
fn inactive_slot_ignores_chunks() {
    let mut slot = StreamSlot::new();
    assert!(chunk_callback(&mut slot, Some(b"text".to_vec())).is_none());
    assert!(chunk_callback(&mut slot, None).is_none());
    assert!(slot.session.is_none());
}
