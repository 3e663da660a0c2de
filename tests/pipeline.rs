use stream_gateway::dialog::{DialogRelay, DialogRequest, DialogResponse};
use stream_gateway::message::{Frame, OutboundMessage};
use stream_gateway::synthesis::{SynthesisEvent, SynthesisWorker};
use stream_gateway::transcription::{on_transcript, transcription_failure, TranscriptEvent};
use stream_gateway::writer::ClientWriter;

fn telemetry_parts(m: &OutboundMessage) -> (String, String, String) {
    match m {
        OutboundMessage::Telemetry { phase, status, detail, .. } => {
            (phase.clone(), status.clone(), detail.clone())
        }
        other => panic!("not telemetry: {:?}", other),
    }
}

fn text_of(f: Frame) -> String {
    match f {
        Frame::Text(s) => s,
        Frame::Binary(_) => panic!("binary frame"),
    }
}

#[test]
fn subtitle_is_encoded_as_json_text() {
    let f = OutboundMessage::subtitle("Merhaba").encode();
    assert_eq!(text_of(f), "{\"type\":\"subtitle\",\"text\":\"Merhaba\"}");
}

#[test]
fn subtitle_text_is_escaped() {
    let f = OutboundMessage::subtitle("say \"hi\"\n\\").encode();
    assert_eq!(text_of(f), "{\"type\":\"subtitle\",\"text\":\"say \\\"hi\\\"\\n\\\\\"}");
}

#[test]
fn telemetry_is_encoded_with_fields_in_order() {
    let m = OutboundMessage::Telemetry {
        phase: "stt".to_string(),
        status: "final".to_string(),
        detail: "merhaba".to_string(),
        timestamp: "2024-01-02T03:04:05+00:00".to_string(),
    };
    assert_eq!(
        text_of(m.encode()),
        "{\"type\":\"telemetry\",\"phase\":\"stt\",\"status\":\"final\",\"detail\":\"merhaba\",\"timestamp\":\"2024-01-02T03:04:05+00:00\"}"
    );
}

#[test]
fn telemetry_is_stamped_with_current_time() {
    let m = OutboundMessage::telemetry("gateway", "connected", "x");
    match &m {
        OutboundMessage::Telemetry { timestamp, .. } => {
            assert!(timestamp.len() >= 20);
            assert!(timestamp.as_bytes()[4] == b'-' && timestamp.as_bytes()[10] == b'T');
        }
        _ => panic!("not telemetry"),
    }
    let text = text_of(m.encode());
    assert!(text.starts_with("{\"type\":\"telemetry\",\"phase\":\"gateway\",\"status\":\"connected\",\"detail\":\"x\",\"timestamp\":\""));
    assert!(text.ends_with("\"}"));
}

#[test]
fn audio_is_a_binary_frame_verbatim() {
    let f = OutboundMessage::audio(vec![1, 2, 3, 255]).encode();
    assert_eq!(f, Frame::Binary(vec![1, 2, 3, 255]));
}

#[test]
fn writer_stops_after_failed_write() {
    let mut w = ClientWriter::new();
    assert!(w.is_open());
    let msg = OutboundMessage::audio(vec![9]);
    assert_eq!(w.next_write(&msg), Some(Frame::Binary(vec![9])));
    w.on_write_failed();
    assert!(!w.is_open());
    assert_eq!(w.next_write(&msg), None);
}

#[test]
fn final_transcript_goes_to_dialog() {
    let ev = TranscriptEvent { text: "merhaba".to_string(), is_final: true };
    let f = on_transcript(&ev).expect("forwarded");
    assert_eq!(telemetry_parts(&f.telemetry), ("stt".into(), "final".into(), "merhaba".into()));
    assert_eq!(
        f.requests,
        vec![DialogRequest::TextFragment("merhaba".to_string()), DialogRequest::TurnComplete]
    );
}

#[test]
fn partial_or_empty_transcript_is_dropped() {
    assert!(on_transcript(&TranscriptEvent { text: "mer".to_string(), is_final: false }).is_none());
    assert!(on_transcript(&TranscriptEvent { text: String::new(), is_final: true }).is_none());
}

#[test]
fn transcription_failure_is_reported() {
    let m = transcription_failure("stream reset");
    assert_eq!(telemetry_parts(&m), ("stt".into(), "error".into(), "stream reset".into()));
}

#[test]
fn dialog_config_names_session_and_anonymous_user() {
    assert_eq!(
        DialogRequest::config("abc"),
        DialogRequest::Config { session_id: "abc".to_string(), user_id: "anonymous".to_string() }
    );
}

#[test]
fn dialog_tokens_are_captioned_and_segmented() {
    let mut relay = DialogRelay::new();
    let s1 = relay.on_response(DialogResponse::TextToken("Merhaba".to_string()));
    assert_eq!(s1.subtitle, Some(OutboundMessage::subtitle("Merhaba")));
    assert_eq!(s1.chunk, None);
    let s2 = relay.on_response(DialogResponse::TextToken(", nasılsın? Ben".to_string()));
    assert_eq!(s2.subtitle, Some(OutboundMessage::subtitle(", nasılsın? Ben")));
    assert_eq!(s2.chunk, Some("Merhaba, nasılsın?".to_string()));
    let s3 = relay.on_response(DialogResponse::TurnComplete);
    assert_eq!(s3.subtitle, None);
    assert_eq!(s3.chunk, Some(" Ben".to_string()));
    let s4 = relay.on_response(DialogResponse::TurnComplete);
    assert_eq!(s4.chunk, None);
}

#[test]
fn dialog_failure_is_reported() {
    let m = DialogRelay::failure("unavailable");
    assert_eq!(telemetry_parts(&m), ("llm".into(), "error".into(), "unavailable".into()));
}

/// Feeds jobs to the worker: each job is a chunk, its audio pieces, and
/// whether its call completed. Returns the audio sent and the texts of the
/// calls opened.
fn drive(jobs: &[(&str, Vec<Vec<u8>>, bool)]) -> (Vec<Vec<u8>>, Vec<String>, Vec<(String, String, String)>) {
    let mut w = SynthesisWorker::new("coqui:default");
    let mut audio = Vec::new();
    let mut calls = Vec::new();
    let mut reports = Vec::new();
    for (text, pieces, ok) in jobs {
        assert!(w.is_idle());
        let step = w.step(SynthesisEvent::Chunk(text.to_string()));
        let req = step.request.expect("call opened");
        assert_eq!(req.voice_id, "coqui:default");
        assert_eq!(req.preferred_provider, "auto");
        calls.push(req.text);
        reports.push(telemetry_parts(&step.message));
        assert!(!w.is_idle());
        for p in pieces {
            let s = w.step(SynthesisEvent::Audio(p.clone()));
            assert!(s.request.is_none());
            match s.message {
                OutboundMessage::Audio { bytes } => audio.push(bytes),
                other => panic!("expected audio, got {:?}", other),
            }
        }
        let end = if *ok { SynthesisEvent::Finished } else { SynthesisEvent::Failed("boom".to_string()) };
        let s = w.step(end);
        reports.push(telemetry_parts(&s.message));
        assert!(w.is_idle());
    }
    (audio, calls, reports)
}

#[test]
fn audio_reaches_client_in_chunk_order() {
    let jobs = vec![
        ("Bir.", vec![vec![1, 1], vec![1, 2]], true),
        ("İki.", vec![vec![2]], true),
        ("Üç.", vec![vec![3, 1], vec![3, 2], vec![3, 3]], true),
    ];
    let (audio, calls, reports) = drive(&jobs);
    assert_eq!(audio, vec![vec![1, 1], vec![1, 2], vec![2], vec![3, 1], vec![3, 2], vec![3, 3]]);
    assert_eq!(calls, vec!["Bir.", "İki.", "Üç."]);
    assert_eq!(reports[0], ("tts".into(), "processing".into(), "Bir.".into()));
    assert_eq!(reports[1], ("tts".into(), "complete".into(), "Audio stream finished".into()));
}

#[test]
fn failed_chunk_does_not_stop_later_chunks() {
    let jobs = vec![
        ("Bir.", vec![vec![1]], true),
        ("İki.", vec![vec![2]], false),
        ("Üç.", vec![], false),
        ("Dört.", vec![vec![4, 4]], true),
    ];
    let (audio, calls, reports) = drive(&jobs);
    assert_eq!(audio, vec![vec![1], vec![2], vec![4, 4]]);
    assert_eq!(calls, vec!["Bir.", "İki.", "Üç.", "Dört."]);
    assert_eq!(reports[3], ("tts".into(), "error".into(), "boom".into()));
    assert_eq!(reports[6], ("tts".into(), "processing".into(), "Dört.".into()));
}
