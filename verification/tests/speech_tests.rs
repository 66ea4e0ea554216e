use kiya::settings::Voices;
use kiya::speech::{
    sample_format, speech_outcome, unquote, speech_request, speech_request_body, supports_recording,
    transcribe, transcription_request, wav_spec_from_config, InputSampleFormat, SpeechOutcome,
    TranscriptError, WavSampleFormat,
};

#[test]
fn speech_body_is_compact_json() {
    assert_eq!(
        speech_request_body("Hello there", Voices::Alloy),
        r#"{"input":"Hello there","model":"tts-1","voice":"Alloy"}"#
    );
}

#[test]
fn speech_body_escapes_input() {
    assert_eq!(
        speech_request_body("say \"hi\"\n", Voices::Nova),
        r#"{"input":"say \"hi\"\n","model":"tts-1","voice":"Nova"}"#
    );
}

#[test]
fn speech_request_headers() {
    let r = speech_request("KEY", "hi", Voices::Echo);
    assert_eq!(r.url, "https://api.openai.com/v1/audio/speech");
    assert_eq!(r.headers, vec!["Authorization: Bearer KEY".to_string(), "Content-Type: application/json".to_string()]);
    assert_eq!(r.body, r#"{"input":"hi","model":"tts-1","voice":"Echo"}"#);
}

#[test]
fn transcription_request_headers() {
    let r = transcription_request("K");
    assert_eq!(r.url, "https://api.openai.com/v1/audio/transcriptions");
    assert_eq!(r.headers, vec!["Authorization: Bearer K".to_string(), "Content-Type: multipart/form-data".to_string()]);
    assert_eq!(r.body, "whisper-1");
}

#[test]
fn speech_outcomes() {
    assert!(matches!(speech_outcome(200), SpeechOutcome::Play));
    match speech_outcome(401) {
        SpeechOutcome::Report(line) => assert_eq!(line, "Error: 401"),
        SpeechOutcome::Play => panic!("expected a report"),
    }
    match speech_outcome(0) {
        SpeechOutcome::Report(line) => assert_eq!(line, "Error: 0"),
        SpeechOutcome::Play => panic!("expected a report"),
    }
}

#[test]
fn transcript_text_is_unquoted() {
    let body = br#"{"text":"Hello, how are you?"}"#.to_vec();
    assert_eq!(transcribe(body), Ok("Hello, how are you?".to_string()));
}

#[test]
fn transcript_keeps_json_escapes() {
    let body = br#"{"text":"say \"hi\""}"#.to_vec();
    assert_eq!(transcribe(body), Ok(r#"say \"hi\""#.to_string()));
}

#[test]
fn transcript_errors() {
    assert_eq!(transcribe(vec![0xff, 0xfe]), Err(TranscriptError::NotUtf8));
    assert_eq!(transcribe(b"not json".to_vec()), Err(TranscriptError::NoText));
    assert_eq!(transcribe(br#"{"other":"x"}"#.to_vec()), Err(TranscriptError::NoText));
    assert_eq!(transcribe(br#"{"text":5}"#.to_vec()), Err(TranscriptError::TextTooShort));
    assert_eq!(transcribe(br#"{"text":12}"#.to_vec()), Ok(String::new()));
}

#[test]
fn wav_format() {
    let w = wav_spec_from_config(2, 44100, 2, false);
    assert_eq!(w.channels, 2);
    assert_eq!(w.sample_rate, 44100);
    assert_eq!(w.bits_per_sample, 16);
    assert_eq!(w.sample_format, WavSampleFormat::Int);
    assert_eq!(wav_spec_from_config(1, 48000, 4, true).sample_format, WavSampleFormat::Float);
    assert_eq!(wav_spec_from_config(1, 8000, 8192, false).bits_per_sample, 0);
    assert_eq!(sample_format(true), WavSampleFormat::Float);
}

#[test]
fn recordable_formats() {
    assert!(supports_recording(InputSampleFormat::I8));
    assert!(supports_recording(InputSampleFormat::I16));
    assert!(supports_recording(InputSampleFormat::I32));
    assert!(supports_recording(InputSampleFormat::F32));
    assert!(!supports_recording(InputSampleFormat::U16));
    assert!(!supports_recording(InputSampleFormat::F64));
}

#[test]
fn unquoting() {
    assert_eq!(unquote("\"abc\""), Some("abc".to_string()));
    assert_eq!(unquote("\"\""), Some(String::new()));
    assert_eq!(unquote("x"), None);
    assert_eq!(unquote(""), None);
    // The first character takes two bytes: byte 1 is inside it.
    assert_eq!(unquote("éab"), None);
}
