use base64::Engine;
use raflow::network::{
    build_connect_url, compose_scribe_error_message, connection_is_idle_expired,
    encode_pcm_base64, pcm_to_le_bytes, InputAudioChunk, NetworkError,
};

#[test]
fn pcm_encoding_is_little_endian() {
    let encoded = encode_pcm_base64(&[0x0102, -2]);
    let decoded = base64::engine::general_purpose::STANDARD
        .decode(encoded)
        .expect("base64 decode should succeed");

    assert_eq!(decoded, vec![0x02, 0x01, 0xFE, 0xFF]);
}

#[test]
fn pcm_base64_text_matches_the_standard_alphabet() {
    assert_eq!(encode_pcm_base64(&[0x0102, -2]), "AgH+/w==");
    assert_eq!(pcm_to_le_bytes(&[0x0102, -2]), vec![0x02, 0x01, 0xFE, 0xFF]);
    assert_eq!(encode_pcm_base64(&[]), "");
}

#[test]
fn input_chunk_serialization_contains_message_type() {
    let payload = InputAudioChunk::from_pcm_samples(&[1, -2, 32767]);
    let serialized = payload.to_json();

    assert!(serialized.contains("\"message_type\":\"input_audio_chunk\""));
    assert!(serialized.contains("\"audio_base_64\""));
    assert!(serialized.contains("\"sample_rate\":16000"));
}

#[test]
fn input_chunk_json_is_exactly_the_wire_text() {
    let payload = InputAudioChunk::from_pcm_samples(&[0x0102, -2]);
    assert_eq!(
        payload.to_json(),
        "{\"message_type\":\"input_audio_chunk\",\"audio_base_64\":\"AgH+/w==\",\"sample_rate\":16000}"
    );
}

#[test]
fn connect_url_carries_the_session_parameters() {
    let url = build_connect_url(
        "wss://api.elevenlabs.io/v1/speech-to-text/realtime",
        "scribe_v2_realtime",
        "eng",
    );
    assert_eq!(
        url,
        "wss://api.elevenlabs.io/v1/speech-to-text/realtime?model_id=scribe_v2_realtime&audio_format=pcm_16000&commit_strategy=vad&vad_threshold=0.6&min_speech_duration_ms=180&max_buffer_delay_ms=1000&language_code=eng"
    );

    let bare = build_connect_url("wss://example", "m", "   ");
    assert!(!bare.contains("language_code"));
}

#[test]
fn idle_timeout_is_thirty_seconds() {
    assert!(!connection_is_idle_expired(30_000));
    assert!(connection_is_idle_expired(30_001));
}

#[test]
fn extract_scribe_error_from_unknown_payload() {
    let payload = r#"{"message_type":"invalid_request","error_message":"bad field"}"#;
    let extracted =
        compose_scribe_error_message(Some("invalid_request"), Some("bad field"), None, payload)
            .expect("expected extracted message");
    assert!(extracted.contains("invalid_request"));
    assert!(extracted.contains("bad field"));
}

#[test]
fn scribe_error_composition_falls_back_in_order() {
    assert_eq!(
        compose_scribe_error_message(Some("oops"), None, Some("secondary"), "{}").as_deref(),
        Some("oops: secondary")
    );
    assert_eq!(
        compose_scribe_error_message(Some("tagged"), None, None, "{\"a\":1}").as_deref(),
        Some("tagged: {\"a\":1}")
    );
    assert!(compose_scribe_error_message(None, None, None, "{}").is_none());
}

#[test]
fn network_error_messages_match_their_variant() {
    assert_eq!(
        NetworkError::MissingApiKey.message(),
        "api key is not configured"
    );
    assert_eq!(
        NetworkError::WebSocketSend("broken pipe".to_string()).message(),
        "failed to send websocket payload: broken pipe"
    );
}
