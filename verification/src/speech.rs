//! Speech: the requests sent to the speech service, how its answers are
//! read, and the recording format of the microphone.
use vstd::prelude::*;
use vstd::string::*;
use vstd::utf8::{decode_utf8, valid_utf8};

use crate::settings::{voice_name, Voices};
use crate::text::{byte_suffix, decimal, push_decimal, skip_bytes};

verus! {

/// The members of a JSON object of strings, as plain values.
pub open spec fn members_view(members: Seq<(String, String)>) -> Seq<(Seq<char>, Seq<char>)> {
    members.map_values(|m: (String, String)| (m.0@, m.1@))
}

/// The JSON text of the object whose members are `members` (each a name and
/// a string value, inserted in this order), as serde_json writes it.
pub uninterp spec fn json_object_text(members: Seq<(Seq<char>, Seq<char>)>) -> Seq<char>;

/// The lowercase hexadecimal digit of `d` (below 16).
pub open spec fn hex_digit(d: u32) -> char {
    if d < 10 {
        (('0' as u32) + d) as char
    } else {
        (('a' as u32) + d - 10) as char
    }
}

/// How serde_json writes a character inside a JSON string: a quote, a
/// backslash and the control characters below U+0020 are escaped (the five
/// with a short form by it, the others as `\u00` and two hex digits); every
/// other character is written as it is.
pub open spec fn json_escape_char(c: char) -> Seq<char> {
    if c == '"' {
        seq!['\\', '"']
    } else if c == '\\' {
        seq!['\\', '\\']
    } else if (c as u32) == 0x08 {
        seq!['\\', 'b']
    } else if (c as u32) == 0x09 {
        seq!['\\', 't']
    } else if (c as u32) == 0x0a {
        seq!['\\', 'n']
    } else if (c as u32) == 0x0c {
        seq!['\\', 'f']
    } else if (c as u32) == 0x0d {
        seq!['\\', 'r']
    } else if (c as u32) < 0x20 {
        seq!['\\', 'u', '0', '0', hex_digit((c as u32) / 16), hex_digit((c as u32) % 16)]
    } else {
        seq![c]
    }
}

/// The characters of `s`, each written as inside a JSON string.
pub open spec fn json_escape(s: Seq<char>) -> Seq<char>
    decreases s.len(),
{
    if s.len() == 0 {
        Seq::empty()
    } else {
        json_escape(s.drop_last()) + json_escape_char(s.last())
    }
}

/// The JSON string literal of `s`.
pub open spec fn json_string_literal(s: Seq<char>) -> Seq<char> {
    seq!['"'] + json_escape(s) + seq!['"']
}

/// One member of a JSON object of strings: its name, a colon, its value.
pub open spec fn json_member_pair(m: (Seq<char>, Seq<char>)) -> Seq<char> {
    json_string_literal(m.0) + seq![':'] + json_string_literal(m.1)
}

/// The members one after another, separated by commas.
pub open spec fn json_members(members: Seq<(Seq<char>, Seq<char>)>) -> Seq<char>
    decreases members.len(),
{
    if members.len() == 0 {
        Seq::empty()
    } else if members.len() == 1 {
        json_member_pair(members[0])
    } else {
        json_members(members.drop_last()) + seq![','] + json_member_pair(members.last())
    }
}

/// Whether `a` comes before `b` in the order of `String`: by character
/// codes, a proper prefix first.
pub open spec fn text_less(a: Seq<char>, b: Seq<char>) -> bool {
    exists|k: int|
        0 <= k <= a.len() && k <= b.len() && #[trigger] a.take(k) == b.take(k) && ((k == a.len()
            && k < b.len()) || (k < a.len() && k < b.len() && (a[k] as u32) < (b[k] as u32)))
}

/// Whether the names of `members` strictly ascend in the order of `String`.
pub open spec fn names_ascending(members: Seq<(Seq<char>, Seq<char>)>) -> bool {
    forall|i: int, j: int|
        0 <= i < j < members.len() ==> text_less(#[trigger] members[i].0, #[trigger] members[j].0)
}

/// `serde_json::to_string` of a `serde_json::Value::Object` holding a
/// `serde_json::Map` into which each pair of `members` is inserted, in
/// order, its value as a `Value::String`. The result is named
/// `json_object_text` of the members. Where the names strictly ascend, the
/// contract states the text: the map (a `BTreeMap` in serde_json's default
/// build) then walks the members in the order given, and serde_json's compact
/// writer puts them between braces, separated by commas, each name and value
/// escaped by its `ESCAPE` table (ser.rs). Writing into a `Vec` cannot fail,
/// so the call never returns its error.
#[verifier::external_body]
fn json_object_of_strings(members: &Vec<(String, String)>) -> (r: String)
    ensures
        r@ == json_object_text(members_view(members@)),
        names_ascending(members_view(members@)) ==> r@ == seq!['{'] + json_members(
            members_view(members@),
        ) + seq!['}'],
{
    let mut map = serde_json::Map::new();
    for (name, value) in members.iter() {
        map.insert(name.clone(), serde_json::Value::String(value.clone()));
    }
    serde_json::to_string(&serde_json::Value::Object(map)).unwrap()
}

/// JSON writes a quote and a backslash behind a backslash, backspace, tab,
/// line feed, form feed and carriage return as `\b \t \n \f \r`, the other
/// control characters as `\u00` and two lowercase hex digits, and every
/// other character as it is.
pub proof fn lemma_json_escapes(c: char)
    ensures
        c == '"' ==> json_escape_char(c) == seq!['\\', '"'],
        c == '\\' ==> json_escape_char(c) == seq!['\\', '\\'],
        (c as u32) == 0x08 ==> json_escape_char(c) == seq!['\\', 'b'],
        (c as u32) == 0x09 ==> json_escape_char(c) == seq!['\\', 't'],
        (c as u32) == 0x0a ==> json_escape_char(c) == seq!['\\', 'n'],
        (c as u32) == 0x0c ==> json_escape_char(c) == seq!['\\', 'f'],
        (c as u32) == 0x0d ==> json_escape_char(c) == seq!['\\', 'r'],
        (c as u32) < 0x20 && (c as u32) != 0x08 && (c as u32) != 0x09 && (c as u32) != 0x0a && (c as u32)
            != 0x0c && (c as u32) != 0x0d ==> json_escape_char(c).len() == 6 && json_escape_char(c).take(4)
            == seq!['\\', 'u', '0', '0'] && json_escape_char(c)[4] as u32 == '0' as u32 + (c as u32) / 16
            && json_escape_char(c)[5] as u32 == (if (c as u32) % 16 < 10 {
            '0' as u32 + (c as u32) % 16
        } else {
            'a' as u32 + (c as u32) % 16 - 10
        }),
        (c as u32) >= 0x20 && c != '"' && c != '\\' ==> json_escape_char(c) == seq![c],
{
    if (c as u32) < 0x20 && (c as u32) != 0x08 && (c as u32) != 0x09 && (c as u32) != 0x0a && (c as u32)
        != 0x0c && (c as u32) != 0x0d {
        assert(json_escape_char(c).take(4) =~= seq!['\\', 'u', '0', '0']);
    }
}

/// Text with no character that JSON escapes is written as it is.
pub proof fn lemma_json_escape_plain(s: Seq<char>)
    requires
        forall|i: int|
            0 <= i < s.len() ==> (#[trigger] s[i] as u32) >= 0x20 && s[i] != '"' && s[i] != '\\',
    ensures
        json_escape(s) == s,
    decreases s.len(),
{
    if s.len() > 0 {
        lemma_json_escape_plain(s.drop_last());
        assert(json_escape(s) =~= s.drop_last() + seq![s.last()]);
        assert(s.drop_last() + seq![s.last()] =~= s);
    }
}

/// The member `key` of the object that the JSON document `body` holds,
/// written back as compact JSON text; `None` where `body` is no JSON or
/// holds no object with that member.
pub uninterp spec fn json_member(body: Seq<char>, key: Seq<char>) -> Option<Seq<char>>;

/// `serde_json::from_str` into a `serde_json::Value`, then `Value::get` of
/// the member `key` and that member's `to_string`. The result is named
/// `json_member(body@, key@)`; nothing more is stated of it.
#[verifier::external_body]
fn json_member_of(body: &str, key: &str) -> (r: Option<String>)
    ensures
        r matches Some(t) ==> json_member(body@, key@) == Some(t@),
        r is None ==> json_member(body@, key@) is None,
{
    let value: serde_json::Value = serde_json::from_str(body).ok()?;
    value.get(key).map(|t| t.to_string())
}

/// `String::from_utf8`: the text that `bytes` encode, where they are valid
/// UTF-8.
#[verifier::external_body]
fn string_from_utf8(bytes: Vec<u8>) -> (r: Option<String>)
    ensures
        r is Some <==> valid_utf8(bytes@),
        r matches Some(s) ==> s@ == decode_utf8(bytes@),
{
    String::from_utf8(bytes).ok()
}

/// The model of the speech service.
pub const SPEECH_MODEL: &'static str = "tts-1";

/// The model of the transcription service.
pub const TRANSCRIPTION_MODEL: &'static str = "whisper-1";

/// The member of the transcription service's answer that holds the text.
pub const TRANSCRIPT_MEMBER: &'static str = "text";

/// The address of the speech service.
pub const SPEECH_URL: &'static str = "https://api.openai.com/v1/audio/speech";

/// The address of the transcription service.
pub const TRANSCRIPTION_URL: &'static str = "https://api.openai.com/v1/audio/transcriptions";

/// The JSON body that asks for `input` to be read with `voice`: the object
/// of the members "input", "model" (`tts-1`) and "voice" (the voice's name),
/// in the order in which serde_json writes them.
pub open spec fn speech_body(input: Seq<char>, voice: Voices) -> Seq<char> {
    "{\"input\":"@ + json_string_literal(input) + ",\"model\":\"tts-1\",\"voice\":\""@ + voice_name(voice)
        + "\"}"@
}

/// The services are reached at their own addresses, with their own models,
/// and the transcript is read from the member "text".
pub proof fn lemma_service_constants()
    ensures
        SPEECH_URL@ == "https://api.openai.com/v1/audio/speech"@,
        TRANSCRIPTION_URL@ == "https://api.openai.com/v1/audio/transcriptions"@,
        SPEECH_MODEL@ == "tts-1"@,
        TRANSCRIPTION_MODEL@ == "whisper-1"@,
        TRANSCRIPT_MEMBER@ == "text"@,
{
}

/// The speech body asks for the model `tts-1`, carries the input as a JSON
/// string and the voice by its own name; an input with nothing to escape
/// goes in between quotes as it is.
pub proof fn lemma_speech_body_carries_input_and_voice(input: Seq<char>, voice: Voices)
    ensures
        speech_body(input, voice) == "{\"input\":"@ + json_string_literal(input)
            + ",\"model\":\"tts-1\",\"voice\":\""@ + voice_name(voice) + "\"}"@,
        (forall|i: int|
            0 <= i < input.len() ==> (#[trigger] input[i] as u32) >= 0x20 && input[i] != '"'
                && input[i] != '\\') ==> speech_body(input, voice) == "{\"input\":\""@ + input
            + "\",\"model\":\"tts-1\",\"voice\":\""@ + voice_name(voice) + "\"}"@,
{
    if forall|i: int|
        0 <= i < input.len() ==> (#[trigger] input[i] as u32) >= 0x20 && input[i] != '"' && input[i]
            != '\\' {
        lemma_json_escape_plain(input);
        reveal_strlit("{\"input\":");
        reveal_strlit("{\"input\":\"");
        reveal_strlit(",\"model\":\"tts-1\",\"voice\":\"");
        reveal_strlit("\",\"model\":\"tts-1\",\"voice\":\"");
        assert(speech_body(input, voice) =~= "{\"input\":\""@ + input
            + "\",\"model\":\"tts-1\",\"voice\":\""@ + voice_name(voice) + "\"}"@);
    }
}

/// The header that carries the key of the service.
pub open spec fn authorization_header(api_key: Seq<char>) -> Seq<char> {
    "Authorization: Bearer "@ + api_key
}

/// A request to one of the speech services.
#[derive(Debug)]
pub struct ServiceRequest {
    pub url: String,
    pub headers: Vec<String>,
    /// The JSON body, or the model named in a multipart form.
    pub body: String,
}

/// The JSON body of a speech request. The members go into the map in the
/// order in which the map keeps them, so the text is known.
pub fn speech_request_body(input: &str, voice: Voices) -> (r: String)
    ensures
        r@ == speech_body(input@, voice),
{
    let mut members: Vec<(String, String)> = Vec::new();
    members.push(("input".to_owned(), input.to_owned()));
    members.push(("model".to_owned(), SPEECH_MODEL.to_owned()));
    members.push(("voice".to_owned(), voice.to_string()));
    let ghost m = seq![("input"@, input@), ("model"@, SPEECH_MODEL@), ("voice"@, voice_name(voice))];
    assert(members_view(members@) =~= m);
    proof {
        lemma_speech_members(input@, voice);
    }
    json_object_of_strings(&members)
}

/// The members of a speech body ascend, and written out they are the body.
proof fn lemma_speech_members(input: Seq<char>, voice: Voices)
    ensures
        ({
            let m = seq![("input"@, input), ("model"@, SPEECH_MODEL@), ("voice"@, voice_name(voice))];
            &&& names_ascending(m)
            &&& seq!['{'] + json_members(m) + seq!['}'] == speech_body(input, voice)
        }),
{
    broadcast use vstd::string::group_string_axioms;
    reveal_strlit("input");
    reveal_strlit("model");
    reveal_strlit("voice");
    reveal_strlit("tts-1");
    reveal_strlit("{\"input\":");
    reveal_strlit(",\"model\":\"tts-1\",\"voice\":\"");
    reveal_strlit("\"}");
    reveal_strlit("Alloy");
    reveal_strlit("Echo");
    reveal_strlit("Fable");
    reveal_strlit("Onyx");
    reveal_strlit("Nova");
    reveal_strlit("Shimmer");
    reveal_strlit("None");
    let m = seq![("input"@, input), ("model"@, SPEECH_MODEL@), ("voice"@, voice_name(voice))];
    assert("input"@.take(0) == "model"@.take(0));
    assert("input"@.take(0) == "voice"@.take(0));
    assert("model"@.take(0) == "voice"@.take(0));
    assert(text_less("input"@, "model"@));
    assert(text_less("input"@, "voice"@));
    assert(text_less("model"@, "voice"@));
    assert(names_ascending(m));
    lemma_json_escape_plain("input"@);
    lemma_json_escape_plain("model"@);
    lemma_json_escape_plain("voice"@);
    lemma_json_escape_plain(SPEECH_MODEL@);
    lemma_json_escape_plain(voice_name(voice));
    assert(m.drop_last().drop_last() =~= seq![m[0]]);
    assert(m.drop_last() =~= seq![m[0], m[1]]);
    assert(json_members(m.drop_last()) == json_members(m.drop_last().drop_last()) + seq![','] + json_member_pair(m[1]));
    assert(seq!['{'] + json_members(m) + seq!['}'] =~= speech_body(input, voice));
}

/// The request that asks the speech service to read `input` with `voice`.
pub fn speech_request(api_key: &str, input: &str, voice: Voices) -> (r: ServiceRequest)
    ensures
        r.url@ == SPEECH_URL@,
        r.headers@.len() == 2,
        r.headers@[0]@ == authorization_header(api_key@),
        r.headers@[1]@ == "Content-Type: application/json"@,
        r.body@ == speech_body(input@, voice),
{
    let mut auth = "Authorization: Bearer ".to_owned();
    auth.append(api_key);
    let mut headers: Vec<String> = Vec::new();
    headers.push(auth);
    headers.push("Content-Type: application/json".to_owned());
    ServiceRequest { url: SPEECH_URL.to_owned(), headers, body: speech_request_body(input, voice) }
}

/// The request that asks the transcription service to transcribe a
/// recording; its form carries the file and the model named in `body`.
pub fn transcription_request(api_key: &str) -> (r: ServiceRequest)
    ensures
        r.url@ == TRANSCRIPTION_URL@,
        r.headers@.len() == 2,
        r.headers@[0]@ == authorization_header(api_key@),
        r.headers@[1]@ == "Content-Type: multipart/form-data"@,
        r.body@ == TRANSCRIPTION_MODEL@,
{
    let mut auth = "Authorization: Bearer ".to_owned();
    auth.append(api_key);
    let mut headers: Vec<String> = Vec::new();
    headers.push(auth);
    headers.push("Content-Type: multipart/form-data".to_owned());
    ServiceRequest {
        url: TRANSCRIPTION_URL.to_owned(),
        headers,
        body: TRANSCRIPTION_MODEL.to_owned(),
    }
}

/// What to do with the speech service's answer.
#[derive(Debug)]
pub enum SpeechOutcome {
    /// The audio file was written: play it.
    Play,
    /// The service refused: report the line.
    Report(String),
}

/// The line reported for a refused speech request.
pub open spec fn speech_error_line(code: u32) -> Seq<char> {
    "Error: "@ + decimal(code as nat)
}

/// The speech service's answer code 200 means the audio can be played;
/// any other code is reported.
pub fn speech_outcome(code: u32) -> (r: SpeechOutcome)
    ensures
        code == 200 ==> r is Play,
        code != 200 ==> (r matches SpeechOutcome::Report(line) && line@ == speech_error_line(code)),
{
    if code == 200 {
        SpeechOutcome::Play
    } else {
        let mut line = "Error: ".to_owned();
        push_decimal(&mut line, code as u64);
        SpeechOutcome::Report(line)
    }
}

/// Why the transcription service's answer could not be read.
#[derive(Clone, Copy, Debug, PartialEq, Eq, Structural)]
pub enum TranscriptError {
    /// The answer is not UTF-8 text.
    NotUtf8,
    /// The answer is no JSON object with a member "text".
    NoText,
    /// The member "text", written as JSON, is shorter than its two quotes.
    TextTooShort,
}

/// A JSON text without its last character and its first byte (the quotes
/// round a string); `None` where it is empty or, once the last character is
/// gone, its first character takes more than one byte or nothing is left.
pub open spec fn strip_quotes(json: Seq<char>) -> Option<Seq<char>> {
    if json.len() == 0 {
        None
    } else {
        byte_suffix(json.drop_last(), 1)
    }
}

/// The text that the transcription service's answer `body` holds.
pub open spec fn transcript_of(body: Seq<u8>) -> Result<Seq<char>, TranscriptError> {
    if !valid_utf8(body) {
        Err(TranscriptError::NotUtf8)
    } else {
        match json_member(decode_utf8(body), TRANSCRIPT_MEMBER@) {
            None => Err(TranscriptError::NoText),
            Some(json) => match strip_quotes(json) {
                None => Err(TranscriptError::TextTooShort),
                Some(t) => Ok(t),
            },
        }
    }
}

/// Unquoting drops exactly the first and the last character when the first
/// is a one-byte character, and gives nothing when the text is shorter than
/// two characters or starts with a wider one.
pub proof fn lemma_unquote_drops_only_the_quotes(json: Seq<char>)
    ensures
        json.len() >= 2 && (json[0] as u32) < 0x80 ==> strip_quotes(json) == Some(
            json.subrange(1, json.len() - 1),
        ),
        json.len() < 2 ==> strip_quotes(json) is None,
        json.len() >= 2 && (json[0] as u32) >= 0x80 ==> strip_quotes(json) is None,
{
    if json.len() >= 2 {
        let d = json.drop_last();
        assert(d[0] == json[0]);
        if (json[0] as u32) < 0x80 {
            crate::text::lemma_byte_suffix_of_ascii_prefix(d, 1);
            assert(d.skip(1) =~= json.subrange(1, json.len() - 1));
        } else {
            assert(d.take(1).drop_last() =~= Seq::<char>::empty());
            assert(crate::text::utf8_len(d.take(1)) >= 2);
            assert forall|k: int| 0 <= k <= d.len() implies #[trigger] crate::text::utf8_len(d.take(k))
                != 1 by {
                if k > 1 {
                    crate::text::lemma_utf8_len_strictly_grows(d, 1, k);
                }
                if k == 0 {
                    assert(d.take(0) =~= Seq::<char>::empty());
                }
            }
        }
    } else if json.len() == 1 {
        let d = json.drop_last();
        assert forall|k: int| 0 <= k <= d.len() implies #[trigger] crate::text::utf8_len(d.take(k))
            != 1 by {
            assert(d.take(k) =~= Seq::<char>::empty());
        }
    }
}

/// The transcript is the member "text" of the answer with nothing dropped
/// but the quotes round it; an answer that is no UTF-8 or holds no such
/// member gives the matching error.
pub proof fn lemma_transcript_is_the_text_member(body: Seq<u8>)
    ensures
        !valid_utf8(body) ==> transcript_of(body) == Err::<Seq<char>, TranscriptError>(
            TranscriptError::NotUtf8,
        ),
        valid_utf8(body) ==> match json_member(decode_utf8(body), "text"@) {
            None => transcript_of(body) == Err::<Seq<char>, TranscriptError>(TranscriptError::NoText),
            Some(json) => {
                &&& json.len() >= 2 && (json[0] as u32) < 0x80 ==> transcript_of(body) == Ok::<
                    Seq<char>,
                    TranscriptError,
                >(json.subrange(1, json.len() - 1))
                &&& (transcript_of(body) matches Ok(t) ==> t.len() + 2 == json.len()
                    && json.subrange(1, json.len() - 1) == t)
            },
        },
        transcript_of(body) is Ok ==> valid_utf8(body) && json_member(decode_utf8(body), "text"@)
            is Some,
{
    if valid_utf8(body) {
        if let Some(json) = json_member(decode_utf8(body), "text"@) {
            lemma_unquote_drops_only_the_quotes(json);
        }
    }
}

/// Reads the transcription service's answer: the member "text" of the JSON
/// object it holds, without the quotes that JSON writes round it.
pub fn transcribe(body: Vec<u8>) -> (r: Result<String, TranscriptError>)
    ensures
        match transcript_of(body@) {
            Ok(t) => r matches Ok(s) && s@ == t,
            Err(e) => r == Err::<String, TranscriptError>(e),
        },
{
    let ghost bytes = body@;
    let text = match string_from_utf8(body) {
        Some(t) => t,
        None => {
            return Err(TranscriptError::NotUtf8);
        },
    };
    let json = match json_member_of(text.as_str(), TRANSCRIPT_MEMBER) {
        Some(j) => j,
        None => {
            return Err(TranscriptError::NoText);
        },
    };
    match unquote(json.as_str()) {
        Some(t) => Ok(t),
        None => Err(TranscriptError::TextTooShort),
    }
}

/// A JSON text without its last character and its first byte (the quotes
/// round a string), or `None` where `strip_quotes` has none.
pub fn unquote(json: &str) -> (r: Option<String>)
    ensures
        r is Some <==> strip_quotes(json@) is Some,
        r matches Some(t) ==> t@ == strip_quotes(json@)->Some_0,
{
    let n = json.unicode_len();
    if n == 0 {
        return None;
    }
    let without_last = json.substring_char(0, n - 1);
    assert(without_last@ =~= json@.drop_last());
    skip_bytes(without_last, 1)
}

/// How the samples of a recording are stored.
#[derive(Clone, Copy, Debug, PartialEq, Eq, Structural)]
pub enum WavSampleFormat {
    Float,
    Int,
}

/// The format of a WAV recording.
#[derive(Clone, Copy, Debug, PartialEq, Eq, Structural)]
pub struct WavSpecParams {
    pub channels: u16,
    pub sample_rate: u32,
    pub bits_per_sample: u16,
    pub sample_format: WavSampleFormat,
}

/// Float samples are stored as floats, all others as integers.
pub fn sample_format(is_float: bool) -> (f: WavSampleFormat)
    ensures
        f == (if is_float { WavSampleFormat::Float } else { WavSampleFormat::Int }),
{
    if is_float {
        WavSampleFormat::Float
    } else {
        WavSampleFormat::Int
    }
}

/// The WAV format for a microphone with `channels` channels, `sample_rate`
/// samples a second and samples of `sample_size` bytes; the bit count is
/// cut to sixteen bits, as `as u16` cuts it.
pub fn wav_spec_from_config(channels: u16, sample_rate: u32, sample_size: usize, is_float: bool) -> (w: WavSpecParams)
    requires
        sample_size * 8 <= usize::MAX,
    ensures
        w.channels == channels,
        w.sample_rate == sample_rate,
        w.bits_per_sample == (sample_size * 8) % 0x10000,
        w.sample_format == (if is_float { WavSampleFormat::Float } else { WavSampleFormat::Int }),
{
    let bits: usize = (sample_size * 8) % 0x10000;
    WavSpecParams {
        channels,
        sample_rate,
        bits_per_sample: bits as u16,
        sample_format: sample_format(is_float),
    }
}

/// The sample formats that a microphone can deliver.
#[derive(Clone, Copy, Debug, PartialEq, Eq, Structural)]
pub enum InputSampleFormat {
    I8,
    I16,
    I32,
    I64,
    U8,
    U16,
    U32,
    U64,
    F32,
    F64,
}

/// Whether a recording can be made from samples of format `f`: signed
/// integers of 8, 16 and 32 bits, and 32-bit floats.
pub fn supports_recording(f: InputSampleFormat) -> (r: bool)
    ensures
        r == (f == InputSampleFormat::I8 || f == InputSampleFormat::I16 || f
            == InputSampleFormat::I32 || f == InputSampleFormat::F32),
{
    match f {
        InputSampleFormat::I8 => true,
        InputSampleFormat::I16 => true,
        InputSampleFormat::I32 => true,
        InputSampleFormat::F32 => true,
        _ => false,
    }
}

} // verus!
