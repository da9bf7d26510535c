//! Messages exchanged with the OpenAI Realtime API.
//!
//! The device layer does the networking; here messages are built and read as
//! text. Recording lasts only while the child holds the button, so the
//! server's own turn detection is switched off and the device commits the
//! recording and asks for the answer itself.

use base64::engine::general_purpose::STANDARD;
use base64::Engine;
use vstd::prelude::*;
use vstd::string::StringExecFns;

use crate::config::{wire_type_of, AudioFormat};
use crate::json::{
    array_text, json_array, json_at, json_lookup, json_object, json_string, members_view,
    object_text, string_value, text_at, text_lookup, JsonItem, JsonItemView,
};
use crate::text::{decimal, push_decimal, views_of};

verus! {

/// Where the session connects. The generally available API needs no beta header.
pub const ENDPOINT: &'static str = "wss://api.openai.com/v1/realtime";
/// The model that transcribes the child's speech for the log.
pub const TRANSCRIPTION_MODEL: &'static str = "gpt-realtime-whisper";
/// The least reasoning effort, to keep answers quick.
pub const REASONING_EFFORT: &'static str = "minimal";

/// What the session is set up with.
#[derive(Debug, Clone, PartialEq, Eq)]
pub struct SessionSetup {
    pub model: String,
    pub voice: String,
    pub audio_format: AudioFormat,
    pub instructions: String,
    /// The function tools the model may call, each as JSON text; none are
    /// offered when this is empty.
    pub tools: Vec<String>,
}

/// Something the server reported.
#[derive(Debug, Clone, PartialEq, Eq)]
pub enum ServerEvent {
    /// Connected: now is the time to send the setup.
    SessionCreated,
    /// The setup took effect: now the child can talk.
    SessionConfigured,
    /// A piece of the answer's audio, decoded to raw bytes.
    AudioDelta(Vec<u8>),
    /// A piece of the transcript of what the assistant says.
    AssistantSaid(String),
    /// The finished transcript of what the child said.
    ChildSaid(String),
    /// The answer is complete.
    ResponseFinished,
    /// The model asked for a function tool to be run.
    ToolCallRequested { call_id: String, name: String, arguments: String },
    /// The server reported an error. Most are recoverable, so the session stays.
    Reported { code: Option<String>, message: String },
    /// An event this device has no use for.
    Ignored,
}

pub enum EventView {
    SessionCreated,
    SessionConfigured,
    AudioDelta(Seq<u8>),
    AssistantSaid(Seq<char>),
    ChildSaid(Seq<char>),
    ResponseFinished,
    ToolCallRequested { call_id: Seq<char>, name: Seq<char>, arguments: Seq<char> },
    Reported { code: Option<Seq<char>>, message: Seq<char> },
    Ignored,
}

pub open spec fn optional_text(text: Option<String>) -> Option<Seq<char>> {
    match text {
        Some(t) => Some(t@),
        None => None,
    }
}

impl View for ServerEvent {
    type V = EventView;

    open spec fn view(&self) -> EventView {
        match self {
            ServerEvent::SessionCreated => EventView::SessionCreated,
            ServerEvent::SessionConfigured => EventView::SessionConfigured,
            ServerEvent::AudioDelta(audio) => EventView::AudioDelta(audio@),
            ServerEvent::AssistantSaid(text) => EventView::AssistantSaid(text@),
            ServerEvent::ChildSaid(text) => EventView::ChildSaid(text@),
            ServerEvent::ResponseFinished => EventView::ResponseFinished,
            ServerEvent::ToolCallRequested { call_id, name, arguments } => EventView::ToolCallRequested {
                call_id: call_id@,
                name: name@,
                arguments: arguments@,
            },
            ServerEvent::Reported { code, message } => EventView::Reported {
                code: optional_text(*code),
                message: message@,
            },
            ServerEvent::Ignored => EventView::Ignored,
        }
    }
}

/// A message that could not be read.
#[derive(Debug, Clone, PartialEq, Eq)]
pub struct ProtocolError {
    pub detail: String,
}

// ---------------------------------------------------------------------------
// Base64, as the API carries audio.
// ---------------------------------------------------------------------------

/// The digit of the standard Base64 alphabet for a value below 64.
pub open spec fn base64_digit(n: int) -> char {
    if n < 26 {
        (('A' as int) + n) as char
    } else if n < 52 {
        (('a' as int) + n - 26) as char
    } else if n < 62 {
        (('0' as int) + n - 52) as char
    } else if n == 62 {
        '+'
    } else {
        '/'
    }
}

/// The standard, padded Base64 text of `bytes` (RFC 4648): each three bytes
/// become four digits of six bits each, and a last group of one or two
/// bytes is padded with `=` to four characters.
pub open spec fn base64_text(bytes: Seq<u8>) -> Seq<char>
    decreases bytes.len(),
{
    if bytes.len() == 0 {
        Seq::empty()
    } else {
        let b0 = bytes[0] as int;
        let b1 = if bytes.len() > 1 { bytes[1] as int } else { 0 };
        let b2 = if bytes.len() > 2 { bytes[2] as int } else { 0 };
        let first = base64_digit(b0 / 4);
        let second = base64_digit((b0 % 4) * 16 + b1 / 16);
        let third = base64_digit((b1 % 16) * 4 + b2 / 64);
        let fourth = base64_digit(b2 % 64);
        if bytes.len() == 1 {
            seq![first, second, '=', '=']
        } else if bytes.len() == 2 {
            seq![first, second, third, '=']
        } else {
            seq![first, second, third, fourth] + base64_text(bytes.skip(3))
        }
    }
}

/// The bytes that the standard, padded Base64 `text` stands for: those
/// whose Base64 it is, or nothing when it is no such text. (No two byte
/// strings have the same Base64: `lemma_base64_text_injective`.)
pub open spec fn base64_bytes(text: Seq<char>) -> Option<Seq<u8>> {
    if exists|bytes: Seq<u8>| base64_text(bytes) == text {
        Some(choose|bytes: Seq<u8>| base64_text(bytes) == text)
    } else {
        None
    }
}

proof fn lemma_base64_digit(n: int, m: int)
    requires
        0 <= n < 64,
        0 <= m < 64,
    ensures
        base64_digit(n) != '=',
        base64_digit(n) == base64_digit(m) ==> n == m,
{
}

proof fn lemma_base64_length(bytes: Seq<u8>)
    ensures
        base64_text(bytes).len() == 4 * ((bytes.len() + 2) / 3),
        bytes.len() == 1 ==> base64_text(bytes)[2] == '=' && base64_text(bytes)[3] == '=',
        bytes.len() == 2 ==> base64_text(bytes)[2] != '=' && base64_text(bytes)[3] == '=',
        bytes.len() >= 3 ==> base64_text(bytes)[2] != '=' && base64_text(bytes)[3] != '=',
    decreases bytes.len(),
{
    if bytes.len() > 0 {
        let b0 = bytes[0] as int;
        let b1 = if bytes.len() > 1 { bytes[1] as int } else { 0 };
        let b2 = if bytes.len() > 2 { bytes[2] as int } else { 0 };
        lemma_base64_digit((b1 % 16) * 4 + b2 / 64, 0);
        lemma_base64_digit(b2 % 64, 0);
        if bytes.len() >= 3 {
            lemma_base64_length(bytes.skip(3));
        }
    }
}

/// Different bytes never share their Base64 text.
pub proof fn lemma_base64_text_injective(a: Seq<u8>, b: Seq<u8>)
    requires
        base64_text(a) == base64_text(b),
    ensures
        a == b,
    decreases a.len(),
{
    lemma_base64_length(a);
    lemma_base64_length(b);
    let text = base64_text(a);
    if a.len() == 0 || b.len() == 0 {
        assert(a.len() == 0 && b.len() == 0);
        assert(a =~= b);
        return;
    }
    assert(a.len() == 1 <==> b.len() == 1);
    assert(a.len() == 2 <==> b.len() == 2);
    let a0 = a[0] as int;
    let a1 = if a.len() > 1 { a[1] as int } else { 0 };
    let a2 = if a.len() > 2 { a[2] as int } else { 0 };
    let c0 = b[0] as int;
    let c1 = if b.len() > 1 { b[1] as int } else { 0 };
    let c2 = if b.len() > 2 { b[2] as int } else { 0 };
    assert(text[0] == base64_digit(a0 / 4) && text[1] == base64_digit((a0 % 4) * 16 + a1 / 16));
    assert(base64_text(b)[0] == base64_digit(c0 / 4) && base64_text(b)[1] == base64_digit(
        (c0 % 4) * 16 + c1 / 16,
    ));
    lemma_base64_digit(a0 / 4, c0 / 4);
    lemma_base64_digit((a0 % 4) * 16 + a1 / 16, (c0 % 4) * 16 + c1 / 16);
    assert(a0 / 4 == c0 / 4);
    assert((a0 % 4) * 16 + a1 / 16 == (c0 % 4) * 16 + c1 / 16);
    assert(a0 == c0);
    if a.len() == 1 {
        assert(a =~= b);
        return;
    }
    assert(text[2] == base64_digit((a1 % 16) * 4 + a2 / 64));
    assert(base64_text(b)[2] == base64_digit((c1 % 16) * 4 + c2 / 64));
    lemma_base64_digit((a1 % 16) * 4 + a2 / 64, (c1 % 16) * 4 + c2 / 64);
    assert((a1 % 16) * 4 + a2 / 64 == (c1 % 16) * 4 + c2 / 64);
    assert(a1 == c1);
    if a.len() == 2 {
        assert(a =~= b);
        return;
    }
    assert(text[3] == base64_digit(a2 % 64) && base64_text(b)[3] == base64_digit(c2 % 64));
    lemma_base64_digit(a2 % 64, c2 % 64);
    assert(a2 == c2);
    assert(base64_text(a).skip(4) =~= base64_text(a.skip(3)));
    assert(base64_text(b).skip(4) =~= base64_text(b.skip(3)));
    lemma_base64_text_injective(a.skip(3), b.skip(3));
    assert(a =~= b) by {
        assert forall|i: int| 0 <= i < a.len() implies a[i] == b[i] by {
            if i >= 3 {
                assert(a.skip(3)[i - 3] == b.skip(3)[i - 3]);
            }
        }
    }
}

/// Encodes with `base64`'s `STANDARD` engine (`Engine::encode`). That call
/// panics only when the output length would overflow `usize`, which the
/// bound on the input rules out. It writes the standard, padded Base64 of
/// RFC 4648, `base64_text` of the bytes.
#[verifier::external_body]
fn encode_base64(bytes: &[u8]) -> (text: String)
    requires
        bytes@.len() <= usize::MAX / 2,
    ensures
        text@ == base64_text(bytes@),
{
    STANDARD.encode(bytes)
}

/// Decodes with `base64`'s `STANDARD` engine (`Engine::decode`); an error
/// becomes `None`. That engine requires canonical padding and rejects
/// trailing bits, so it accepts exactly the texts that its encoder writes,
/// and gives back the bytes they were written from.
#[verifier::external_body]
fn decode_base64(text: &str) -> (bytes: Option<Vec<u8>>)
    ensures
        match bytes {
            Some(b) => base64_text(b@) == text@,
            None => forall|other: Seq<u8>| base64_text(other) != text@,
        },
{
    STANDARD.decode(text).ok()
}

// ---------------------------------------------------------------------------
// Messages to the server.
// ---------------------------------------------------------------------------

pub open spec fn endpoint_url(model: Seq<char>) -> Seq<char> {
    ENDPOINT@ + "?model="@ + model
}

/// The address to connect to for `model`.
pub fn build_endpoint_url(model: &str) -> (url: String)
    ensures
        url@ == endpoint_url(model@),
{
    let mut url = ENDPOINT.to_owned();
    url.append("?model=");
    url.append(model);
    url
}

pub open spec fn auth_header(api_key: Seq<char>) -> Seq<char> {
    "Authorization: Bearer "@ + api_key + "\r\n"@
}

/// The extra header of the connection, ended by CRLF as each header line is.
pub fn build_auth_header(api_key: &str) -> (header: String)
    ensures
        header@ == auth_header(api_key@),
{
    let mut header = "Authorization: Bearer ".to_owned();
    header.append(api_key);
    header.append("\r\n");
    header
}

/// The JSON of the audio format.
pub open spec fn format_json(format: AudioFormat) -> Seq<char> {
    match format {
        AudioFormat::Ulaw => json_object(seq![("type"@, json_string(wire_type_of(format)))]),
        AudioFormat::Pcm16 => json_object(
            seq![("rate"@, "24000"@), ("type"@, json_string(wire_type_of(format)))],
        ),
    }
}

/// The JSON of the microphone side: transcribed in Japanese, and no
/// turn detection on the server, since the button decides when a turn ends.
pub open spec fn input_json(format: AudioFormat) -> Seq<char> {
    json_object(
        seq![
            ("format"@, format_json(format)),
            ("noise_reduction"@, json_object(seq![("type"@, json_string("near_field"@))])),
            (
                "transcription"@,
                json_object(
                    seq![
                        ("language"@, json_string("ja"@)),
                        ("model"@, json_string(TRANSCRIPTION_MODEL@)),
                    ],
                ),
            ),
            ("turn_detection"@, "null"@),
        ],
    )
}

/// The JSON of the session settings. Tools are left out entirely when none
/// are given, so the model is not led to think it has any.
pub open spec fn session_json(
    model: Seq<char>,
    voice: Seq<char>,
    format: AudioFormat,
    instructions: Seq<char>,
    tools: Seq<Seq<char>>,
) -> Seq<char> {
    json_object(
        seq![
            (
                "audio"@,
                json_object(
                    seq![
                        ("input"@, input_json(format)),
                        (
                            "output"@,
                            json_object(
                                seq![("format"@, format_json(format)), ("voice"@, json_string(voice))],
                            ),
                        ),
                    ],
                ),
            ),
            ("instructions"@, json_string(instructions)),
            ("model"@, json_string(model)),
            ("output_modalities"@, json_array(seq![json_string("audio"@)])),
            ("reasoning"@, json_object(seq![("effort"@, json_string(REASONING_EFFORT@))])),
        ] + (if tools.len() > 0 {
            seq![("tool_choice"@, json_string("auto"@)), ("tools"@, json_array(tools))]
        } else {
            seq![]
        }) + seq![("type"@, json_string("realtime"@))],
    )
}

pub open spec fn session_update(setup: SessionSetup) -> Seq<char> {
    json_object(
        seq![
            (
                "session"@,
                session_json(
                    setup.model@,
                    setup.voice@,
                    setup.audio_format,
                    setup.instructions@,
                    views_of(setup.tools@),
                ),
            ),
            ("type"@, json_string("session.update"@)),
        ],
    )
}

fn format_text(format: AudioFormat) -> (text: String)
    ensures
        text@ == format_json(format),
{
    let mut members: Vec<(&str, String)> = Vec::new();
    if format == AudioFormat::Pcm16 {
        members.push(("rate", "24000".to_owned()));
    }
    members.push(("type", string_value(format.wire_type())));
    proof {
        if format == AudioFormat::Pcm16 {
            assert(members_view(members@) =~= seq![
                ("rate"@, "24000"@),
                ("type"@, json_string(wire_type_of(format))),
            ]);
        } else {
            assert(members_view(members@) =~= seq![("type"@, json_string(wire_type_of(format)))]);
        }
    }
    object_text(&members)
}

fn single_member(key: &str, value: String) -> (text: String)
    ensures
        text@ == json_object(seq![(key@, value@)]),
{
    let mut members: Vec<(&str, String)> = Vec::new();
    members.push((key, value));
    assert(members_view(members@) =~= seq![(key@, value@)]);
    object_text(&members)
}

fn input_text(format: AudioFormat) -> (text: String)
    ensures
        text@ == input_json(format),
{
    let mut transcription: Vec<(&str, String)> = Vec::new();
    transcription.push(("language", string_value("ja")));
    transcription.push(("model", string_value(TRANSCRIPTION_MODEL)));
    let mut members: Vec<(&str, String)> = Vec::new();
    members.push(("format", format_text(format)));
    members.push(("noise_reduction", single_member("type", string_value("near_field"))));
    members.push(("transcription", object_text(&transcription)));
    members.push(("turn_detection", "null".to_owned()));
    proof {
        assert(members_view(transcription@) =~= seq![
            ("language"@, json_string("ja"@)),
            ("model"@, json_string(TRANSCRIPTION_MODEL@)),
        ]);
    }
    let text = object_text(&members);
    proof {
        assert(members_view(members@) =~= seq![
            ("format"@, format_json(format)),
            ("noise_reduction"@, json_object(seq![("type"@, json_string("near_field"@))])),
            (
                "transcription"@,
                json_object(
                    seq![
                        ("language"@, json_string("ja"@)),
                        ("model"@, json_string(TRANSCRIPTION_MODEL@)),
                    ],
                ),
            ),
            ("turn_detection"@, "null"@),
        ]);
    }
    text
}

/// The message that sets the session up.
pub fn build_session_update(setup: &SessionSetup) -> (message: String)
    ensures
        message@ == session_update(*setup),
{
    let format = setup.audio_format;
    let mut output: Vec<(&str, String)> = Vec::new();
    output.push(("format", format_text(format)));
    output.push(("voice", string_value(setup.voice.as_str())));
    let output_text = object_text(&output);
    let mut audio: Vec<(&str, String)> = Vec::new();
    audio.push(("input", input_text(format)));
    audio.push(("output", output_text));
    let audio_text = object_text(&audio);
    let mut modalities: Vec<String> = Vec::new();
    modalities.push(string_value("audio"));
    let mut session: Vec<(&str, String)> = Vec::new();
    session.push(("audio", audio_text));
    session.push(("instructions", string_value(setup.instructions.as_str())));
    session.push(("model", string_value(setup.model.as_str())));
    session.push(("output_modalities", array_text(&modalities)));
    session.push(("reasoning", single_member("effort", string_value(REASONING_EFFORT))));
    let ghost base = members_view(session@);
    if setup.tools.len() > 0 {
        session.push(("tool_choice", string_value("auto")));
        session.push(("tools", array_text(&setup.tools)));
    }
    let ghost with_tools = members_view(session@);
    session.push(("type", string_value("realtime")));
    proof {
        assert(members_view(output@) =~= seq![
            ("format"@, format_json(format)),
            ("voice"@, json_string(setup.voice@)),
        ]);
        assert(members_view(audio@) =~= seq![
            ("input"@, input_json(format)),
            (
                "output"@,
                json_object(
                    seq![("format"@, format_json(format)), ("voice"@, json_string(setup.voice@))],
                ),
            ),
        ]);
        assert(views_of(modalities@) =~= seq![json_string("audio"@)]);
        assert(base =~= seq![
            (
                "audio"@,
                json_object(
                    seq![
                        ("input"@, input_json(format)),
                        (
                            "output"@,
                            json_object(
                                seq![("format"@, format_json(format)), ("voice"@, json_string(setup.voice@))],
                            ),
                        ),
                    ],
                ),
            ),
            ("instructions"@, json_string(setup.instructions@)),
            ("model"@, json_string(setup.model@)),
            ("output_modalities"@, json_array(seq![json_string("audio"@)])),
            ("reasoning"@, json_object(seq![("effort"@, json_string(REASONING_EFFORT@))])),
        ]);
        if setup.tools.len() > 0 {
            assert(with_tools =~= base + seq![
                ("tool_choice"@, json_string("auto"@)),
                ("tools"@, json_array(views_of(setup.tools@))),
            ]);
        } else {
            assert(with_tools =~= base + seq![]);
        }
        assert(members_view(session@) =~= with_tools + seq![("type"@, json_string("realtime"@))]);
    }
    let session_text = object_text(&session);
    let mut message: Vec<(&str, String)> = Vec::new();
    message.push(("session", session_text));
    message.push(("type", string_value("session.update")));
    proof {
        assert(members_view(message@) =~= seq![
            (
                "session"@,
                session_json(
                    setup.model@,
                    setup.voice@,
                    setup.audio_format,
                    setup.instructions@,
                    views_of(setup.tools@),
                ),
            ),
            ("type"@, json_string("session.update"@)),
        ]);
    }
    object_text(&message)
}

/// A message that only names its type.
pub open spec fn typed_message(kind: Seq<char>) -> Seq<char> {
    json_object(seq![("type"@, json_string(kind))])
}

fn type_only(kind: &str) -> (message: String)
    ensures
        message@ == typed_message(kind@),
{
    single_member("type", string_value(kind))
}

pub open spec fn audio_append(audio: Seq<u8>) -> Seq<char> {
    json_object(
        seq![
            ("audio"@, json_string(base64_text(audio))),
            ("type"@, json_string("input_audio_buffer.append"@)),
        ],
    )
}

/// The message that sends recorded audio, in Base64.
pub fn build_audio_append(encoded_audio: &[u8]) -> (message: String)
    requires
        encoded_audio@.len() <= usize::MAX / 2,
    ensures
        message@ == audio_append(encoded_audio@),
{
    let mut members: Vec<(&str, String)> = Vec::new();
    let audio = encode_base64(encoded_audio);
    members.push(("audio", string_value(audio.as_str())));
    members.push(("type", string_value("input_audio_buffer.append")));
    assert(members_view(members@) =~= seq![
        ("audio"@, json_string(base64_text(encoded_audio@))),
        ("type"@, json_string("input_audio_buffer.append"@)),
    ]);
    object_text(&members)
}

/// The message that ends the recording.
pub fn build_audio_commit() -> (message: String)
    ensures
        message@ == typed_message("input_audio_buffer.commit"@),
{
    type_only("input_audio_buffer.commit")
}

/// The message that throws the recording away.
pub fn build_audio_clear() -> (message: String)
    ensures
        message@ == typed_message("input_audio_buffer.clear"@),
{
    type_only("input_audio_buffer.clear")
}

/// The message that asks for an answer.
pub fn build_response_create() -> (message: String)
    ensures
        message@ == typed_message("response.create"@),
{
    type_only("response.create")
}

pub open spec fn response_create_with(instructions: Seq<char>) -> Seq<char> {
    json_object(
        seq![
            ("response"@, json_object(seq![("instructions"@, json_string(instructions))])),
            ("type"@, json_string("response.create"@)),
        ],
    )
}

/// The message that asks for an answer with instructions for this answer
/// only, such as the greeting at start-up; the session's own instructions
/// stay as they are.
pub fn build_response_create_with_instructions(instructions: &str) -> (message: String)
    ensures
        message@ == response_create_with(instructions@),
{
    let mut members: Vec<(&str, String)> = Vec::new();
    members.push(("response", single_member("instructions", string_value(instructions))));
    members.push(("type", string_value("response.create")));
    assert(members_view(members@) =~= seq![
        ("response"@, json_object(seq![("instructions"@, json_string(instructions@))])),
        ("type"@, json_string("response.create"@)),
    ]);
    object_text(&members)
}

/// The message that stops the answer being generated.
pub fn build_response_cancel() -> (message: String)
    ensures
        message@ == typed_message("response.cancel"@),
{
    type_only("response.cancel")
}

pub open spec fn function_call_output(call_id: Seq<char>, output: Seq<char>) -> Seq<char> {
    json_object(
        seq![
            (
                "item"@,
                json_object(
                    seq![
                        ("call_id"@, json_string(call_id)),
                        ("output"@, json_string(output)),
                        ("type"@, json_string("function_call_output"@)),
                    ],
                ),
            ),
            ("type"@, json_string("conversation.item.create"@)),
        ],
    )
}

/// The message that hands a tool's result back to the model.
pub fn build_function_call_output(call_id: &str, output: &str) -> (message: String)
    ensures
        message@ == function_call_output(call_id@, output@),
{
    let mut item: Vec<(&str, String)> = Vec::new();
    item.push(("call_id", string_value(call_id)));
    item.push(("output", string_value(output)));
    item.push(("type", string_value("function_call_output")));
    let mut members: Vec<(&str, String)> = Vec::new();
    members.push(("item", object_text(&item)));
    members.push(("type", string_value("conversation.item.create")));
    assert(members_view(item@) =~= seq![
        ("call_id"@, json_string(call_id@)),
        ("output"@, json_string(output@)),
        ("type"@, json_string("function_call_output"@)),
    ]);
    assert(members_view(members@) =~= seq![
        (
            "item"@,
            json_object(
                seq![
                    ("call_id"@, json_string(call_id@)),
                    ("output"@, json_string(output@)),
                    ("type"@, json_string("function_call_output"@)),
                ],
            ),
        ),
        ("type"@, json_string("conversation.item.create"@)),
    ]);
    object_text(&members)
}

// ---------------------------------------------------------------------------
// Messages from the server.
// ---------------------------------------------------------------------------

/// A non-empty string at `pointer`.
pub open spec fn spoken_text(payload: Seq<char>, pointer: Seq<char>) -> Option<Seq<char>> {
    match text_lookup(payload, pointer) {
        Some(text) => if text.len() > 0 {
            Some(text)
        } else {
            None
        },
        None => None,
    }
}

/// Non-empty audio, Base64 at `pointer`.
pub open spec fn audio_at(payload: Seq<char>, pointer: Seq<char>) -> Option<Seq<u8>> {
    match text_lookup(payload, pointer) {
        Some(encoded) => match base64_bytes(encoded) {
            Some(bytes) => if bytes.len() > 0 {
                Some(bytes)
            } else {
                None
            },
            None => None,
        },
        None => None,
    }
}

/// Where field `field` of output item `index` of a finished response lies.
pub open spec fn output_pointer(index: int, field: Seq<char>) -> Seq<char> {
    "/response/output/"@ + decimal(index as nat) + "/"@ + field
}

/// The first output item from `index` on that is a function call.
pub open spec fn first_function_call(payload: Seq<char>, index: int, count: int) -> Option<int>
    decreases count - index,
{
    if index >= count {
        None
    } else if text_lookup(payload, output_pointer(index, "type"@)) == Some("function_call"@) {
        Some(index)
    } else {
        first_function_call(payload, index + 1, count)
    }
}

/// The function call a finished response asks for: the first one among its
/// output items, which must carry an id and a name.
pub open spec fn tool_call_of(payload: Seq<char>) -> Option<EventView> {
    match json_lookup(payload, "/response/output"@) {
        Ok(JsonItemView::Array(count)) => match first_function_call(payload, 0, count as int) {
            Some(index) => {
                let call_id = text_lookup(payload, output_pointer(index, "call_id"@));
                let name = text_lookup(payload, output_pointer(index, "name"@));
                let arguments = text_lookup(payload, output_pointer(index, "arguments"@));
                if call_id is Some && name is Some {
                    Some(
                        EventView::ToolCallRequested {
                            call_id: call_id->0,
                            name: name->0,
                            arguments: match arguments {
                                Some(a) => a,
                                None => "{}"@,
                            },
                        },
                    )
                } else {
                    None
                }
            },
            None => None,
        },
        _ => None,
    }
}

/// The event of a message of type `kind`.
pub open spec fn event_of_kind(payload: Seq<char>, kind: Seq<char>) -> EventView {
    if kind == "session.created"@ {
        EventView::SessionCreated
    } else if kind == "session.updated"@ {
        EventView::SessionConfigured
    } else if kind == "response.output_audio.delta"@ {
        match audio_at(payload, "/delta"@) {
            Some(audio) => EventView::AudioDelta(audio),
            None => EventView::Ignored,
        }
    } else if kind == "response.output_audio_transcript.delta"@ {
        match spoken_text(payload, "/delta"@) {
            Some(text) => EventView::AssistantSaid(text),
            None => EventView::Ignored,
        }
    } else if kind == "conversation.item.input_audio_transcription.completed"@ {
        match spoken_text(payload, "/transcript"@) {
            Some(text) => EventView::ChildSaid(text),
            None => EventView::Ignored,
        }
    } else if kind == "response.done"@ {
        match tool_call_of(payload) {
            Some(call) => call,
            None => EventView::ResponseFinished,
        }
    } else if kind == "error"@ {
        EventView::Reported {
            code: text_lookup(payload, "/error/code"@),
            message: match text_lookup(payload, "/error/message"@) {
                Some(message) => message,
                None => "原因不明"@,
            },
        }
    } else {
        EventView::Ignored
    }
}

/// What a message from the server says: the event of its type, or why it
/// is not an event.
pub open spec fn server_event_of(payload: Seq<char>) -> Result<EventView, Seq<char>> {
    match json_lookup(payload, "/type"@) {
        Err(message) => Err(message),
        Ok(JsonItemView::Text(kind)) => Ok(event_of_kind(payload, kind)),
        Ok(_) => Err("type が無い"@),
    }
}

fn take_text(payload: &str, pointer: &str) -> (text: Option<String>)
    ensures
        optional_text(text) == spoken_text(payload@, pointer@),
{
    match text_at(payload, pointer) {
        Some(text) => {
            if !text.as_str().is_empty() {
                Some(text)
            } else {
                None
            }
        },
        None => None,
    }
}

fn take_base64(payload: &str, pointer: &str) -> (audio: Option<Vec<u8>>)
    ensures
        match audio {
            Some(bytes) => audio_at(payload@, pointer@) == Some(bytes@),
            None => audio_at(payload@, pointer@) is None,
        },
{
    let encoded = match text_at(payload, pointer) {
        Some(encoded) => encoded,
        None => return None,
    };
    match decode_base64(encoded.as_str()) {
        Some(bytes) => {
            proof {
                let chosen = choose|other: Seq<u8>| base64_text(other) == encoded@;
                lemma_base64_text_injective(chosen, bytes@);
            }
            if bytes.len() > 0 {
                Some(bytes)
            } else {
                None
            }
        },
        None => None,
    }
}

fn output_field(index: usize, field: &str) -> (pointer: String)
    ensures
        pointer@ == output_pointer(index as int, field@),
{
    let mut pointer = "/response/output/".to_owned();
    push_decimal(&mut pointer, index as u64);
    pointer.append("/");
    pointer.append(field);
    pointer
}

/// The function call of a finished response, if it asks for one.
fn take_tool_call(payload: &str) -> (call: Option<ServerEvent>)
    ensures
        match call {
            Some(event) => tool_call_of(payload@) == Some(event@),
            None => tool_call_of(payload@) is None,
        },
{
    let count = match json_at(payload, "/response/output") {
        Ok(JsonItem::Array(count)) => count,
        _ => return None,
    };
    let mut index: usize = 0;
    while index < count
        invariant
            index <= count,
            json_lookup(payload@, "/response/output"@) == Ok::<JsonItemView, Seq<char>>(
                JsonItemView::Array(count as nat),
            ),
            first_function_call(payload@, 0, count as int) == first_function_call(
                payload@,
                index as int,
                count as int,
            ),
        decreases count - index,
    {
        let kind = text_at(payload, output_field(index, "type").as_str());
        let is_call = match kind {
            Some(kind) => crate::text::str_eq(kind.as_str(), "function_call"),
            None => false,
        };
        if is_call {
            assert(first_function_call(payload@, index as int, count as int) == Some(index as int));
            let call_id = match text_at(payload, output_field(index, "call_id").as_str()) {
                Some(call_id) => call_id,
                None => return None,
            };
            let name = match text_at(payload, output_field(index, "name").as_str()) {
                Some(name) => name,
                None => return None,
            };
            let arguments = match text_at(payload, output_field(index, "arguments").as_str()) {
                Some(arguments) => arguments,
                None => "{}".to_owned(),
            };
            return Some(ServerEvent::ToolCallRequested { call_id, name, arguments });
        }
        index = index + 1;
    }
    None
}

/// Reads a message from the server. Types this device does not use become
/// `Ignored`; a message that is not JSON, or has no type, is an error.
pub fn parse_server_event(payload: &str) -> (event: Result<ServerEvent, ProtocolError>)
    ensures
        match event {
            Ok(e) => server_event_of(payload@) == Ok::<EventView, Seq<char>>(e@),
            Err(error) => server_event_of(payload@) == Err::<EventView, Seq<char>>(error.detail@),
        },
{
    let kind = match json_at(payload, "/type") {
        Err(message) => return Err(ProtocolError { detail: message }),
        Ok(JsonItem::Text(kind)) => kind,
        Ok(_) => return Err(ProtocolError { detail: "type が無い".to_owned() }),
    };
    let kind = kind.as_str();
    let event = if crate::text::str_eq(kind, "session.created") {
        ServerEvent::SessionCreated
    } else if crate::text::str_eq(kind, "session.updated") {
        ServerEvent::SessionConfigured
    } else if crate::text::str_eq(kind, "response.output_audio.delta") {
        match take_base64(payload, "/delta") {
            Some(audio) => ServerEvent::AudioDelta(audio),
            None => ServerEvent::Ignored,
        }
    } else if crate::text::str_eq(kind, "response.output_audio_transcript.delta") {
        match take_text(payload, "/delta") {
            Some(text) => ServerEvent::AssistantSaid(text),
            None => ServerEvent::Ignored,
        }
    } else if crate::text::str_eq(kind, "conversation.item.input_audio_transcription.completed") {
        match take_text(payload, "/transcript") {
            Some(text) => ServerEvent::ChildSaid(text),
            None => ServerEvent::Ignored,
        }
    } else if crate::text::str_eq(kind, "response.done") {
        match take_tool_call(payload) {
            Some(call) => call,
            None => ServerEvent::ResponseFinished,
        }
    } else if crate::text::str_eq(kind, "error") {
        let code = text_at(payload, "/error/code");
        let message = match text_at(payload, "/error/message") {
            Some(message) => message,
            None => "原因不明".to_owned(),
        };
        ServerEvent::Reported { code, message }
    } else {
        ServerEvent::Ignored
    };
    Ok(event)
}

/// The most bytes a message is assembled to before it is given up: a lost
/// piece would otherwise keep it from ever being complete.
pub const MAX_ASSEMBLED: usize = 128 * 1024;

/// What becomes of the text gathered so far: the event read from it, if it
/// reads as one this device uses, and the text kept for the next piece.
pub open spec fn assembled(text: Seq<char>) -> (Option<EventView>, Seq<char>) {
    match server_event_of(text) {
        Ok(EventView::Ignored) => (None, Seq::empty()),
        Ok(event) => (Some(event), Seq::empty()),
        Err(_) => if (vstd::utf8::encode_utf8(text).len() as usize) >= MAX_ASSEMBLED {
            (None, Seq::empty())
        } else {
            (None, text)
        },
    }
}

/// Puts together messages that arrive in pieces. The connection does not
/// say where a message ends, so pieces are joined until the text reads as
/// a message.
pub struct MessageAssembler {
    assembling: String,
}

impl MessageAssembler {
    /// The text gathered so far.
    pub closed spec fn gathered(&self) -> Seq<char> {
        self.assembling@
    }

    pub fn new() -> (assembler: Self)
        ensures
            assembler.gathered() == Seq::<char>::empty(),
    {
        MessageAssembler { assembling: String::new() }
    }

    /// Adds a piece. Returns the event once the text reads as one; a message
    /// of no use is dropped, and so is text that grew to `MAX_ASSEMBLED`
    /// bytes without reading as a message.
    pub fn feed(&mut self, piece: &str) -> (event: Option<ServerEvent>)
        ensures
            ({
                let (read, kept) = assembled(old(self).gathered() + piece@);
                &&& final(self).gathered() == kept
                &&& match event {
                    Some(e) => read == Some(e@),
                    None => read is None,
                }
            }),
    {
        self.assembling.append(piece);
        let parsed = parse_server_event(self.assembling.as_str());
        match parsed {
            Ok(ServerEvent::Ignored) => {
                self.assembling = String::new();
                None
            },
            Ok(event) => {
                self.assembling = String::new();
                Some(event)
            },
            Err(_) => {
                if self.assembling.as_str().len() >= MAX_ASSEMBLED {
                    self.assembling = String::new();
                }
                None
            },
        }
    }
}

} // verus!
