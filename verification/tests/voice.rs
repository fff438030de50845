use amos_tauri::voice::{
    check_mic_rate, mic_chunk_len, on_chunk, require_active, to_payload, AgentChunk,
    UtteranceGate, VoiceEvent, VoiceEventPayload,
};

#[test]
fn to_payload_preserves_event_kind_and_fields() {
    let l = VoiceEvent::Listening {
        session: "s".into(),
    };
    match to_payload(&l) {
        VoiceEventPayload::Listening { session } => assert_eq!(session, "s"),
        _ => panic!("expected Listening"),
    }
    let t = VoiceEvent::Token {
        session: "s".into(),
        token: "hi".into(),
    };
    match to_payload(&t) {
        VoiceEventPayload::Token { session, token } => {
            assert_eq!(session, "s");
            assert_eq!(token, "hi");
        }
        _ => panic!("expected Token"),
    }
    let d = VoiceEvent::TurnDone {
        session: "s".into(),
        text: "hello".into(),
    };
    match to_payload(&d) {
        VoiceEventPayload::TurnDone { session, text } => {
            assert_eq!(session, "s");
            assert_eq!(text, "hello");
        }
        _ => panic!("expected TurnDone"),
    }
    let st = VoiceEvent::Stopped {
        session: "s".into(),
    };
    match to_payload(&st) {
        VoiceEventPayload::Stopped { session } => assert_eq!(session, "s"),
        _ => panic!("expected Stopped"),
    }
    let er = VoiceEvent::Error {
        session: "s".into(),
        message: "boom".into(),
    };
    match to_payload(&er) {
        VoiceEventPayload::Error { session, message } => {
            assert_eq!(session, "s");
            assert_eq!(message, "boom");
        }
        _ => panic!("expected Error"),
    }
}

fn chunk(token: &str, done: bool, error: &str) -> AgentChunk {
    AgentChunk {
        token: token.to_string(),
        done,
        error: error.to_string(),
    }
}

fn token_of(e: &VoiceEvent) -> Option<&str> {
    match e {
        VoiceEvent::Token { token, .. } => Some(token.as_str()),
        _ => None,
    }
}
fn done_text_of(e: &VoiceEvent) -> Option<&str> {
    match e {
        VoiceEvent::TurnDone { text, .. } => Some(text.as_str()),
        _ => None,
    }
}
fn error_of(e: &VoiceEvent) -> Option<&str> {
    match e {
        VoiceEvent::Error { message, .. } => Some(message.as_str()),
        _ => None,
    }
}

#[test]
fn on_chunk_relays_token_and_accumulates() {
    let mut full = String::new();
    let evts = on_chunk(&chunk("你", false, ""), "s", &mut full);
    assert_eq!(token_of(&evts[0]), Some("你"));
    assert_eq!(full, "你");

    let evts = on_chunk(&chunk("好", false, ""), "s", &mut full);
    assert_eq!(token_of(&evts[0]), Some("好"));
    assert_eq!(full, "你好");
}

#[test]
fn on_chunk_done_finalizes_and_resets_turn() {
    let mut full = String::new();
    on_chunk(&chunk("你好", false, ""), "s", &mut full);
    let evts = on_chunk(&chunk("", true, ""), "s", &mut full);
    assert_eq!(done_text_of(&evts[0]), Some("你好"));
    assert!(full.is_empty(), "done must reset the accumulation buffer");
}

#[test]
fn on_chunk_error_is_relayed_but_does_not_finalize() {
    let mut full = String::new();
    on_chunk(&chunk("部分", false, ""), "s", &mut full);
    let evts = on_chunk(&chunk("", false, "boom"), "s", &mut full);
    assert_eq!(error_of(&evts[0]), Some("boom"));
    assert!(
        !evts.iter().any(|e| done_text_of(e).is_some()),
        "an error must not finalize the turn"
    );
    assert_eq!(full, "部分", "partial tokens survive an error");
}

#[test]
fn on_chunk_empty_chunk_emits_nothing() {
    let mut full = String::new();
    let evts = on_chunk(&chunk("", false, ""), "s", &mut full);
    assert!(evts.is_empty());
}

#[test]
fn spawn_resident_rejects_mic_rate_below_asr_target() {
    let err = check_mic_rate(8_000).expect_err("sub-16k mic");
    assert!(
        err.contains("up-sampling is unsupported"),
        "clear error expected, got: {err}"
    );
    assert_eq!(
        err,
        "mic rate 8000 is below the 16 kHz ASR target and up-sampling is unsupported"
    );
    assert!(check_mic_rate(16_000).is_ok());
    assert!(check_mic_rate(48_000).is_ok());
}

#[test]
fn the_mic_chunk_is_about_ten_milliseconds_and_clamped() {
    assert_eq!(mic_chunk_len(16_000), 160);
    assert_eq!(mic_chunk_len(48_000), 480);
    assert_eq!(mic_chunk_len(1_000_000), 3200);
}

#[test]
fn trailing_silence_past_the_gate_submits_one_utterance() {
    // Speech, then enough silent frames to cross a gap of 3.
    let mut g = UtteranceGate::new(3);
    let a = g.on_frame(true, false);
    assert!(a.send_audio && !a.end_utterance);
    assert!(!g.on_frame(false, false).end_utterance);
    assert!(!g.on_frame(false, false).send_audio);
    let a = g.on_frame(false, false);
    assert!(a.end_utterance, "third silent frame ends the utterance");
    assert_eq!(g.submitted(), 1);
    // Silence without speech never submits.
    for _ in 0..10 {
        assert!(!g.on_frame(false, true).end_utterance);
    }
    assert_eq!(g.submitted(), 1);
    // Speech left at the end of the capture is still submitted.
    g.on_frame(true, false);
    assert!(g.on_capture_end());
    assert_eq!(g.submitted(), 2);
    assert!(!g.on_capture_end());
}

#[test]
fn a_zero_gap_is_treated_as_one_frame() {
    let mut g = UtteranceGate::new(0);
    g.on_frame(true, false);
    assert!(g.on_frame(false, false).end_utterance);
}

#[test]
fn requests_need_an_active_session() {
    assert_eq!(
        require_active::<u8>(None).unwrap_err(),
        "no active voice session; start it first"
    );
    assert_eq!(require_active(Some(7u8)).unwrap(), 7);
}
