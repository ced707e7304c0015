//! Transport framing: PCM byte layout, base64 payloads, the connect URL and
//! the event types the streaming transcription service exchanges.

use vstd::prelude::*;

use crate::text::{str_eq, trim_of, spec_trim};
use crate::util::{spec_decimal, u64_to_decimal};

verus! {

/// Sample rate of the PCM stream sent to the service.
pub const DEFAULT_SAMPLE_RATE: u32 = 16000;

/// A pooled connection idle for longer than this is reopened, in ms.
pub const DEFAULT_IDLE_TIMEOUT_MS: u64 = 30000;

/// Connection attempts made beyond the first one.
pub const DEFAULT_RECONNECT_ATTEMPTS: u8 = 2;

/// Errors of the websocket transport.
#[derive(Debug)]
pub enum NetworkError {
    MissingApiKey,
    RequestBuild(String),
    InvalidHeaderValue(String),
    ConnectFailed(String),
    Serialize(String),
    WebSocketSend(String),
    WebSocketClose(String),
}

impl NetworkError {
    pub fn message(&self) -> (r: String)
        ensures
            match self {
                NetworkError::MissingApiKey => r@ == "api key is not configured"@,
                NetworkError::RequestBuild(m) => r@ == "failed to build websocket request: "@
                    + m@,
                NetworkError::InvalidHeaderValue(m) => r@ == "invalid api key header: "@ + m@,
                NetworkError::ConnectFailed(m) => r@ == "failed to connect websocket: "@ + m@,
                NetworkError::Serialize(m) => r@ == "failed to serialize websocket payload: "@
                    + m@,
                NetworkError::WebSocketSend(m) => r@ == "failed to send websocket payload: "@
                    + m@,
                NetworkError::WebSocketClose(m) => r@
                    == "failed to close websocket connection: "@ + m@,
            },
    {
        match self {
            NetworkError::MissingApiKey => String::from_str("api key is not configured"),
            NetworkError::RequestBuild(m) => String::from_str(
                "failed to build websocket request: ",
            ).concat(m.as_str()),
            NetworkError::InvalidHeaderValue(m) => String::from_str("invalid api key header: ")
                .concat(m.as_str()),
            NetworkError::ConnectFailed(m) => String::from_str("failed to connect websocket: ")
                .concat(m.as_str()),
            NetworkError::Serialize(m) => String::from_str(
                "failed to serialize websocket payload: ",
            ).concat(m.as_str()),
            NetworkError::WebSocketSend(m) => String::from_str(
                "failed to send websocket payload: ",
            ).concat(m.as_str()),
            NetworkError::WebSocketClose(m) => String::from_str(
                "failed to close websocket connection: ",
            ).concat(m.as_str()),
        }
    }
}

/// An event from the transcription service, with plain fields. Confidence is
/// carried in thousandths; absent means the service sent a non-finite value.
#[derive(Debug, Clone)]
pub enum ScribeEvent {
    SessionStarted { session_id: String },
    PartialTranscript { text: String, created_at_ms: u64 },
    CommittedTranscript { text: String, confidence_milli: Option<u32>, created_at_ms: u64 },
    InputError { error_message: String },
    Error { error_message: String, error: String },
    AuthError { error_message: String, error: String },
    Unknown,
}

/// What the reader hands to the dispatcher.
#[derive(Debug, Clone)]
pub enum NetworkEvent {
    Scribe(ScribeEvent),
    TransportError(String),
}

/// The low byte of a sample's little-endian encoding.
pub open spec fn spec_le_lo(s: i16) -> u8 {
    ((s as u16) % 256) as u8
}

/// The high byte of a sample's little-endian encoding.
pub open spec fn spec_le_hi(s: i16) -> u8 {
    ((s as u16) / 256) as u8
}

/// The little-endian byte stream of a PCM buffer.
pub open spec fn spec_pcm_le_bytes(s: Seq<i16>) -> Seq<u8>
    decreases s.len(),
{
    if s.len() == 0 {
        Seq::<u8>::empty()
    } else {
        spec_pcm_le_bytes(s.drop_last()) + seq![spec_le_lo(s.last()), spec_le_hi(s.last())]
    }
}

proof fn lemma_pcm_le_bytes_len(s: Seq<i16>)
    ensures
        spec_pcm_le_bytes(s).len() == 2 * s.len(),
    decreases s.len(),
{
    if s.len() > 0 {
        lemma_pcm_le_bytes_len(s.drop_last());
    }
}

/// Serializes PCM samples as little-endian byte pairs.
pub fn pcm_to_le_bytes(samples: &[i16]) -> (r: Vec<u8>)
    ensures
        r@ == spec_pcm_le_bytes(samples@),
        r@.len() == 2 * samples@.len(),
{
    let len: usize = samples.len();
    let mut bytes: Vec<u8> = Vec::new();
    let mut i: usize = 0;
    proof {
        assert(samples@.take(0int) =~= Seq::<i16>::empty());
        lemma_pcm_le_bytes_len(samples@);
    }
    while i < len
        invariant
            len == samples@.len(),
            0 <= i <= len,
            bytes@ == spec_pcm_le_bytes(samples@.take(i as int)),
            bytes@.len() == 2 * i,
        decreases len - i,
    {
        let u: u16 = samples[i] as u16;
        proof {
            assert(samples@.take(i + 1int).drop_last() =~= samples@.take(i as int));
            assert(samples@.take(i + 1int).last() == samples@[i as int]);
            assert(bytes@.push(spec_le_lo(samples@[i as int])).push(
                spec_le_hi(samples@[i as int]),
            ) =~= bytes@ + seq![spec_le_lo(samples@[i as int]), spec_le_hi(samples@[i as int])]);
        }
        bytes.push((u % 256) as u8);
        bytes.push((u / 256) as u8);
        i = i + 1;
    }
    proof {
        assert(samples@.take(len as int) =~= samples@);
    }
    bytes
}

/// What the standard base64 encoding of a byte stream reads as.
pub uninterp spec fn base64_standard_of(bytes: Seq<u8>) -> Seq<char>;

/// Relies on base64's STANDARD engine: padded base64 of the bytes, a pure
/// function of the input, four output characters for every three input bytes.
/// The length bound keeps the encoded size within `usize`, the one case in
/// which the engine panics.
#[verifier::external_body]
fn encode_base64(bytes: &Vec<u8>) -> (r: String)
    requires
        4 * ((bytes@.len() + 2) / 3) <= usize::MAX,
    ensures
        r@ == base64_standard_of(bytes@),
        r@.len() == 4 * ((bytes@.len() + 2) / 3),
{
    base64::Engine::encode(&base64::engine::general_purpose::STANDARD, bytes)
}

/// Encodes a PCM buffer as base64 over its little-endian bytes.
pub fn encode_pcm_base64(samples: &[i16]) -> (r: String)
    requires
        4 * ((2 * samples@.len() + 2) / 3) <= usize::MAX,
    ensures
        r@ == base64_standard_of(spec_pcm_le_bytes(samples@)),
{
    let bytes = pcm_to_le_bytes(samples);
    encode_base64(&bytes)
}

/// One outbound audio frame, as the service's realtime API shapes it.
#[derive(Debug, Clone)]
pub struct InputAudioChunk {
    pub message_type: String,
    pub audio_base_64: String,
    pub sample_rate: u32,
}

/// The JSON text of an audio frame, fields in wire order.
pub open spec fn spec_input_chunk_json(mt: Seq<char>, b64: Seq<char>, rate: int) -> Seq<char> {
    "{\"message_type\":\""@ + mt + "\",\"audio_base_64\":\""@ + b64 + "\",\"sample_rate\":"@
        + spec_decimal(rate) + "}"@
}

impl InputAudioChunk {
    /// Frames a PCM batch: base64 audio at the fixed 16 kHz rate.
    pub fn from_pcm_samples(samples: &[i16]) -> (r: Self)
        requires
            4 * ((2 * samples@.len() + 2) / 3) <= usize::MAX,
        ensures
            r.message_type@ == "input_audio_chunk"@,
            r.audio_base_64@ == base64_standard_of(spec_pcm_le_bytes(samples@)),
            r.sample_rate == DEFAULT_SAMPLE_RATE,
    {
        let audio_base_64 = encode_pcm_base64(samples);
        InputAudioChunk {
            message_type: String::from_str("input_audio_chunk"),
            audio_base_64,
            sample_rate: DEFAULT_SAMPLE_RATE,
        }
    }

    /// Writes the frame as the JSON text the service expects. Base64 text
    /// never needs JSON escaping, so the payload is plain concatenation.
    pub fn to_json(&self) -> (r: String)
        ensures
            r@ == spec_input_chunk_json(
                self.message_type@,
                self.audio_base_64@,
                self.sample_rate as int,
            ),
    {
        let mut out = String::from_str("{\"message_type\":\"");
        out.append(self.message_type.as_str());
        out.append("\",\"audio_base_64\":\"");
        out.append(self.audio_base_64.as_str());
        out.append("\",\"sample_rate\":");
        out.append(u64_to_decimal(self.sample_rate as u64).as_str());
        out.append("}");
        out
    }
}

/// The closing frame of a stream, kept for wire-format completeness.
#[derive(Debug, Clone)]
pub struct FlushMessage {
    pub message_type: String,
}

/// The connect URL: fixed realtime-session query parameters, with the
/// language appended when one is configured.
pub open spec fn spec_connect_url(
    ws_url: Seq<char>,
    model_id: Seq<char>,
    language_code: Seq<char>,
) -> Seq<char> {
    let base = ws_url + "?model_id="@ + model_id
        + "&audio_format=pcm_16000&commit_strategy=vad&vad_threshold=0.6&min_speech_duration_ms=180&max_buffer_delay_ms=1000"@;
    if spec_trim(language_code).len() > 0 {
        base + "&language_code="@ + language_code
    } else {
        base
    }
}

/// Builds the realtime-session connect URL.
pub fn build_connect_url(ws_url: &str, model_id: &str, language_code: &str) -> (r: String)
    ensures
        r@ == spec_connect_url(ws_url@, model_id@, language_code@),
{
    let mut url = String::from_str(ws_url);
    url.append("?model_id=");
    url.append(model_id);
    url.append(
        "&audio_format=pcm_16000&commit_strategy=vad&vad_threshold=0.6&min_speech_duration_ms=180&max_buffer_delay_ms=1000",
    );
    let lang_trimmed = trim_of(language_code);
    if lang_trimmed.as_str().unicode_len() > 0 {
        url.append("&language_code=");
        url.append(language_code);
    }
    url
}

/// A pooled connection unused for longer than the idle timeout is stale.
pub fn connection_is_idle_expired(idle_elapsed_ms: u64) -> (r: bool)
    ensures
        r == (idle_elapsed_ms > DEFAULT_IDLE_TIMEOUT_MS),
{
    idle_elapsed_ms > DEFAULT_IDLE_TIMEOUT_MS
}

/// The transport error synthesized from an unrecognised service payload:
/// its message type with its error text, the whole payload when only the
/// type is known, and nothing when neither is present.
pub open spec fn spec_compose_scribe_error(
    message_type: Option<Seq<char>>,
    error_message: Option<Seq<char>>,
    error_field: Option<Seq<char>>,
    payload: Seq<char>,
) -> Option<Seq<char>> {
    let mt = match message_type {
        Some(m) => m,
        None => "unknown"@,
    };
    let em = match error_message {
        Some(m) => m,
        None => match error_field {
            Some(e) => e,
            None => Seq::<char>::empty(),
        },
    };
    if em.len() > 0 {
        Some(mt + ": "@ + em)
    } else if mt != "unknown"@ {
        Some(mt + ": "@ + payload)
    } else {
        None
    }
}

/// Composes the transport-error text for an unrecognised payload, from the
/// fields a JSON reader extracted.
pub fn compose_scribe_error_message(
    message_type: Option<&str>,
    error_message: Option<&str>,
    error_field: Option<&str>,
    payload: &str,
) -> (r: Option<String>)
    ensures
        ({
            let mt = match message_type {
                Some(m) => Some(m@),
                None => None,
            };
            let em = match error_message {
                Some(m) => Some(m@),
                None => None,
            };
            let ef = match error_field {
                Some(e) => Some(e@),
                None => None,
            };
            match (r, spec_compose_scribe_error(mt, em, ef, payload@)) {
                (Some(s), Some(expected)) => s@ == expected,
                (None, None) => true,
                _ => false,
            }
        }),
{
    let mt: &str = match message_type {
        Some(m) => m,
        None => "unknown",
    };
    let em: &str = match error_message {
        Some(m) => m,
        None => match error_field {
            Some(e) => e,
            None => "",
        },
    };
    proof {
        reveal_strlit("");
    }
    if em.unicode_len() > 0 {
        let mut out = String::from_str(mt);
        out.append(": ");
        out.append(em);
        Some(out)
    } else if !str_eq(mt, "unknown") {
        let mut out = String::from_str(mt);
        out.append(": ");
        out.append(payload);
        Some(out)
    } else {
        None
    }
}

} // verus!
