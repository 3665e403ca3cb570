use wavekat_asr::backends::mock::MockAsr;
use wavekat_asr::{AsrError, AudioFrame, Channel, F32Bits, StreamingAsr, TranscriptEvent, ONE_BITS};

#[test]
fn default_script_emits_partials_then_final() {
    let (mut asr, rx) = MockAsr::new();
    let samples = vec![0i16; 160];
    let frame = AudioFrame::new(&samples, 16_000);

    for _ in 0..4 {
        asr.push_audio(&frame, Channel::Local).unwrap();
    }

    let events: Vec<_> = rx.try_iter().collect();
    assert_eq!(events.len(), 4);
    assert!(matches!(events[3], TranscriptEvent::Final { .. }));
}

#[test]
fn finish_twice_errors() {
    let (mut asr, _rx) = MockAsr::new();
    asr.finish().unwrap();
    assert!(matches!(asr.finish(), Err(AsrError::AlreadyFinished)));
}

#[test]
fn default_script_says_hello_there() {
    let (mut asr, rx) = MockAsr::new();
    let samples = vec![0i16; 160];
    let frame = AudioFrame::new(&samples, 16_000);
    for _ in 0..4 {
        asr.push_audio(&frame, Channel::Local).unwrap();
    }
    let events: Vec<_> = rx.try_iter().collect();
    assert!(matches!(
        events[0],
        TranscriptEvent::SpeechStarted { channel: Channel::Local, ts_ms: 0 }
    ));
    assert!(matches!(&events[1], TranscriptEvent::Partial { text, .. } if text == "hello"));
    assert!(matches!(&events[2], TranscriptEvent::Partial { text, .. } if text == "hello there"));
    match &events[3] {
        TranscriptEvent::Final { channel, ts_ms, end_ms, text, confidence } => {
            assert_eq!(*channel, Channel::Local);
            assert_eq!((*ts_ms, *end_ms), (0, 1500));
            assert_eq!(text, "hello there");
            assert_eq!(f32::from_bits(confidence.bits), 1.0);
        }
        other => panic!("expected Final, got {other:?}"),
    }
}

#[test]
fn script_is_replayed_in_order_and_then_silent() {
    let script = vec![
        TranscriptEvent::Warning("one".to_string()),
        TranscriptEvent::Warning("two".to_string()),
    ];
    let (mut asr, rx) = MockAsr::with_script(script);
    let frame = AudioFrame::new(&[0.0f32; 8][..], 8_000);
    for _ in 0..5 {
        asr.push_audio(&frame, Channel::Remote).unwrap();
    }
    assert_eq!(asr.audio_pushes(), 5);
    let said: Vec<String> = rx
        .try_iter()
        .map(|event| match event {
            TranscriptEvent::Warning(text) => text,
            other => panic!("unexpected {other:?}"),
        })
        .collect();
    assert_eq!(said, vec!["one".to_string(), "two".to_string()]);
}

#[test]
fn finish_reports_the_end_of_speech_once() {
    let (mut asr, rx) = MockAsr::with_script(vec![]);
    asr.finish().unwrap();
    let _ = asr.finish();
    let events: Vec<_> = rx.try_iter().collect();
    assert_eq!(events.len(), 1);
    assert!(matches!(
        events[0],
        TranscriptEvent::SpeechEnded { channel: Channel::Local, ts_ms: 0 }
    ));
}

#[test]
fn push_after_finish_is_refused_without_effect() {
    let (mut asr, rx) = MockAsr::new();
    let frame = AudioFrame::new(&[0i16; 4][..], 16_000);
    asr.finish().unwrap();
    assert!(matches!(
        asr.push_audio(&frame, Channel::Local),
        Err(AsrError::AlreadyFinished)
    ));
    assert_eq!(asr.audio_pushes(), 0);
    assert_eq!(rx.try_iter().count(), 1);
}

#[test]
fn reset_changes_nothing() {
    let (mut asr, rx) = MockAsr::new();
    let frame = AudioFrame::new(&[0i16; 4][..], 16_000);
    asr.push_audio(&frame, Channel::Local).unwrap();
    asr.reset(Channel::Local).unwrap();
    asr.reset(Channel::Remote).unwrap();
    asr.push_audio(&frame, Channel::Local).unwrap();
    let events: Vec<_> = rx.try_iter().collect();
    assert_eq!(events.len(), 2);
    assert!(matches!(&events[1], TranscriptEvent::Partial { text, .. } if text == "hello"));
}

#[test]
fn a_dropped_receiver_does_not_fail_the_push_path() {
    let (mut asr, rx) = MockAsr::new();
    drop(rx);
    let frame = AudioFrame::new(&[0i16; 4][..], 16_000);
    assert!(asr.push_audio(&frame, Channel::Local).is_ok());
    assert!(asr.finish().is_ok());
}

#[test]
fn one_has_the_bits_of_one() {
    assert_eq!(F32Bits { bits: 1.0f32.to_bits() }, F32Bits { bits: ONE_BITS });
}
